use rustvulkan::device::{
    get_device_extensions, get_usable_gpu, Device, QueueFamily, SWAPCHAIN_EXTENSION,
};
use rustvulkan::frame::FrameAction;
use rustvulkan::memory::{MemoryRequirements, MemoryType, PhysicalDeviceMemoryProperties};
use rustvulkan::resource::MemoryAllocateInfo;
use rustvulkan::vk;

const GRAPHICS: u32 = vk::QUEUE_GRAPHICS_BIT;
const COMPUTE: u32 = 0x2;
const TRANSFER: u32 = 0x4;

fn family(queue_flags: u32, supports_surface: bool) -> QueueFamily {
    QueueFamily { queue_flags, supports_surface }
}

#[test]
fn first_family_that_draws_and_presents_is_taken() {
    let devices = vec![vec![
        family(TRANSFER, true),
        family(GRAPHICS | COMPUTE, false),
        family(GRAPHICS | COMPUTE | TRANSFER, true),
        family(GRAPHICS, true),
    ]];
    assert_eq!(get_usable_gpu(&devices), Some((0, 2)));
}

#[test]
fn first_device_with_a_usable_family_is_taken() {
    let devices = vec![
        vec![family(COMPUTE, true), family(GRAPHICS, false)],
        vec![],
        vec![family(COMPUTE, false), family(GRAPHICS, true)],
        vec![family(GRAPHICS, true)],
    ];
    assert_eq!(get_usable_gpu(&devices), Some((2, 1)));
}

#[test]
fn no_usable_device() {
    assert_eq!(get_usable_gpu(&vec![]), None);
    assert_eq!(get_usable_gpu(&vec![vec![]]), None);
    assert_eq!(
        get_usable_gpu(&vec![vec![family(GRAPHICS, false)], vec![family(COMPUTE | TRANSFER, true)]]),
        None
    );
}

#[test]
fn device_is_created_with_one_queue_and_the_swapchain_extension() {
    let info = Device::create_info(3);
    assert_eq!(info.queue_family_index, 3);
    assert_eq!(info.queue_priorities, vec![1.0f32.to_bits()]);
    assert!(info.shader_clip_distance);
    assert_eq!(info.enabled_extension_names, vec!["VK_KHR_swapchain"]);
    assert_eq!(SWAPCHAIN_EXTENSION, ash::khr::swapchain::NAME.to_str().unwrap());
}

fn device() -> Device {
    Device::init(
        1,
        PhysicalDeviceMemoryProperties::new(vec![
            MemoryType { property_flags: vk::MEMORY_PROPERTY_DEVICE_LOCAL_BIT, heap_index: 0 },
            MemoryType {
                property_flags: vk::MEMORY_PROPERTY_HOST_VISIBLE_BIT | vk::MEMORY_PROPERTY_HOST_COHERENT_BIT,
                heap_index: 1,
            },
            MemoryType { property_flags: vk::MEMORY_PROPERTY_HOST_VISIBLE_BIT, heap_index: 1 },
        ]),
        64,
    )
}

#[test]
fn device_keeps_what_was_queried() {
    let d = device();
    assert_eq!(d.queue_family_index, 1);
    assert_eq!(d.min_uniform_buffer_offset_alignment, 64);
    assert_eq!(d.memory_properties.memory_types.len(), 3);
}

#[test]
fn suitable_memory_is_host_visible() {
    let d = device();
    let req = MemoryRequirements { size: 512, alignment: 16, memory_type_bits: 0b111 };
    assert_eq!(
        d.allocate_suitable_memory(&req),
        Some(MemoryAllocateInfo { allocation_size: 512, memory_type_index: 2 })
    );
    let req = MemoryRequirements { size: 512, alignment: 16, memory_type_bits: 0b011 };
    assert_eq!(
        d.allocate_suitable_memory(&req),
        Some(MemoryAllocateInfo { allocation_size: 512, memory_type_index: 1 })
    );
    let req = MemoryRequirements { size: 512, alignment: 16, memory_type_bits: 0b001 };
    assert_eq!(d.allocate_suitable_memory(&req), None);
}

#[test]
fn memory_type_of_the_device() {
    let d = device();
    let req = MemoryRequirements { size: 512, alignment: 16, memory_type_bits: 0b111 };
    assert_eq!(d.get_memory_type(&req, vk::MEMORY_PROPERTY_DEVICE_LOCAL_BIT), Some(0));
    assert_eq!(d.get_memory_type(&req, vk::MEMORY_PROPERTY_HOST_COHERENT_BIT), Some(1));
    assert_eq!(d.get_memory_type(&req, vk::MEMORY_PROPERTY_HOST_VISIBLE_BIT), Some(2));
    assert_eq!(d.get_memory_type(&req, 0x10), None);
    let req = MemoryRequirements { size: 512, alignment: 16, memory_type_bits: 0b110 };
    assert_eq!(d.get_memory_type(&req, vk::MEMORY_PROPERTY_DEVICE_LOCAL_BIT), None);
}

#[test]
fn device_names_its_extensions_and_its_wait() {
    assert_eq!(get_device_extensions(), vec!["VK_KHR_swapchain"]);
    assert_eq!(get_device_extensions()[0], ash::khr::swapchain::NAME.to_str().unwrap());
    let device = Device::init(1, PhysicalDeviceMemoryProperties::new(Vec::new()), 64);
    assert_eq!(device.queue_wait(), FrameAction::QueueWaitIdle);
}
