//! Choosing a physical device, and what the engine keeps of the logical
//! device it creates on it.
use vstd::prelude::*;
use crate::vk;
use crate::frame::FrameAction;
use crate::memory::{
    find_memorytype_index, is_memorytype_choice, MemoryRequirements,
    PhysicalDeviceMemoryProperties,
};
use crate::resource::{allocate_info, MemoryAllocateInfo};

verus! {

/// One queue family of a physical device: what it can do, and whether it
/// can present to the surface.
#[derive(Clone, Copy, PartialEq, Eq, Structural, Debug)]
pub struct QueueFamily {
    pub queue_flags: u32,
    pub supports_surface: bool,
}

/// Whether a queue family can draw and present.
pub open spec fn is_usable(family: QueueFamily) -> bool {
    vk::has_all(family.queue_flags, vk::QUEUE_GRAPHICS_BIT) && family.supports_surface
}

/// Whether family `index` of `families` is usable and no family before it
/// is.
pub open spec fn first_usable_family(families: Seq<QueueFamily>, index: int) -> bool {
    &&& 0 <= index < families.len()
    &&& is_usable(families[index])
    &&& forall|j: int| 0 <= j < index ==> !is_usable(#[trigger] families[j])
}

/// Whether a device has a usable queue family.
pub open spec fn has_usable_family(families: Seq<QueueFamily>) -> bool {
    exists|j: int| 0 <= j < families.len() && is_usable(#[trigger] families[j])
}

/// Whether `found` is the device to use: the first device with a usable
/// queue family, together with the first such family; nothing when no
/// device has one.
pub open spec fn is_usable_gpu(devices: Seq<Vec<QueueFamily>>, found: Option<(usize, u32)>) -> bool {
    match found {
        Some((device, family)) => {
            &&& 0 <= device < devices.len()
            &&& first_usable_family(devices[device as int]@, family as int)
            &&& forall|d: int| 0 <= d < device ==> !has_usable_family(#[trigger] devices[d]@)
        },
        None => forall|d: int| 0 <= d < devices.len() ==> !has_usable_family(#[trigger] devices[d]@),
    }
}

fn first_usable(families: &Vec<QueueFamily>) -> (found: Option<u32>)
    requires
        families@.len() <= u32::MAX,
    ensures
        match found {
            Some(index) => first_usable_family(families@, index as int),
            None => !has_usable_family(families@),
        },
{
    let mut i: usize = 0;
    while i < families.len()
        invariant
            i <= families.len(),
            families@.len() <= u32::MAX,
            forall|j: int| 0 <= j < i ==> !is_usable(#[trigger] families@[j]),
        decreases families.len() - i,
    {
        let info = families[i];
        if vk::contains(info.queue_flags, vk::QUEUE_GRAPHICS_BIT) && info.supports_surface {
            return Some(i as u32);
        }
        i += 1;
    }
    None
}

/// Picks the physical device and queue family to render with. `devices`
/// holds the queue families of each physical device, in the order in which
/// the devices were enumerated. Queue families are numbered in 32 bits.
pub fn get_usable_gpu(devices: &Vec<Vec<QueueFamily>>) -> (found: Option<(usize, u32)>)
    requires
        forall|d: int| 0 <= d < devices@.len() ==> (#[trigger] devices@[d])@.len() <= u32::MAX,
    ensures
        is_usable_gpu(devices@, found),
{
    let mut d: usize = 0;
    while d < devices.len()
        invariant
            d <= devices.len(),
            forall|k: int| 0 <= k < devices@.len() ==> (#[trigger] devices@[k])@.len() <= u32::MAX,
            forall|k: int| 0 <= k < d ==> !has_usable_family(#[trigger] devices@[k]@),
        decreases devices.len() - d,
    {
        match first_usable(&devices[d]) {
            Some(family) => {
                return Some((d, family));
            },
            None => {},
        }
        d += 1;
    }
    None
}

/// What a logical device is created with: one queue of the given family at
/// the highest priority, the clip-distance feature, and the swapchain
/// extension.
#[derive(Clone, PartialEq, Eq, Debug)]
pub struct DeviceCreateInfo {
    pub queue_family_index: u32,
    /// The priority of each queue, as the bit pattern of a number.
    pub queue_priorities: Vec<u32>,
    pub shader_clip_distance: bool,
    pub enabled_extension_names: Vec<&'static str>,
}

/// The name of the swapchain extension.
pub const SWAPCHAIN_EXTENSION: &'static str = "VK_KHR_swapchain";

/// The extensions a device is created with: the swapchain extension.
pub fn get_device_extensions() -> (names: Vec<&'static str>)
    ensures
        names@ == seq![SWAPCHAIN_EXTENSION],
{
    let mut names: Vec<&'static str> = Vec::new();
    names.push(SWAPCHAIN_EXTENSION);
    names
}

/// The logical device, as far as the engine reasons about it.
#[derive(Clone, PartialEq, Eq, Debug)]
pub struct Device {
    pub queue_family_index: u32,
    pub memory_properties: PhysicalDeviceMemoryProperties,
    /// The device's minimum alignment of uniform buffer offsets.
    pub min_uniform_buffer_offset_alignment: u64,
}

impl Device {
    /// The device to create on the chosen physical device.
    pub fn create_info(queue_family_index: u32) -> (info: DeviceCreateInfo)
        ensures
            info.queue_family_index == queue_family_index,
            info.queue_priorities@ == seq![vk::F32_ONE],
            info.shader_clip_distance,
            info.enabled_extension_names@ == seq![SWAPCHAIN_EXTENSION],
    {
        let mut queue_priorities: Vec<u32> = Vec::new();
        queue_priorities.push(vk::F32_ONE);
        DeviceCreateInfo {
            queue_family_index,
            queue_priorities,
            shader_clip_distance: true,
            enabled_extension_names: get_device_extensions(),
        }
    }

    /// What to ask of the queue so that the host waits until everything
    /// that was submitted to it is complete.
    pub fn queue_wait(&self) -> (action: FrameAction)
        ensures
            action == FrameAction::QueueWaitIdle,
    {
        FrameAction::QueueWaitIdle
    }

    /// The device with what was queried from its physical device.
    pub fn init(
        queue_family_index: u32,
        memory_properties: PhysicalDeviceMemoryProperties,
        min_uniform_buffer_offset_alignment: u64,
    ) -> (device: Device)
        ensures
            device.queue_family_index == queue_family_index,
            device.memory_properties == memory_properties,
            device.min_uniform_buffer_offset_alignment == min_uniform_buffer_offset_alignment,
    {
        Device { queue_family_index, memory_properties, min_uniform_buffer_offset_alignment }
    }

    /// The host-visible memory block to allocate for a buffer with the
    /// given requirements. Nothing when the device has no suitable memory
    /// type.
    pub fn allocate_suitable_memory(&self, memory_req: &MemoryRequirements) -> (info: Option<
        MemoryAllocateInfo,
    >)
        ensures
            is_memorytype_choice(
                memory_req.memory_type_bits,
                self.memory_properties@,
                vk::MEMORY_PROPERTY_HOST_VISIBLE_BIT,
                match info {
                    Some(i) => Some(i.memory_type_index),
                    None => None,
                },
            ),
            info matches Some(i) ==> i.allocation_size == memory_req.size,
    {
        allocate_info(memory_req, &self.memory_properties, vk::MEMORY_PROPERTY_HOST_VISIBLE_BIT)
    }

    /// The memory type of this device to allocate from for the given
    /// requirements and properties.
    pub fn get_memory_type(&self, memory_req: &MemoryRequirements, properties: u32) -> (found:
        Option<u32>)
        ensures
            is_memorytype_choice(
                memory_req.memory_type_bits,
                self.memory_properties@,
                properties,
                found,
            ),
    {
        find_memorytype_index(memory_req, &self.memory_properties, properties)
    }
}

} // verus!
