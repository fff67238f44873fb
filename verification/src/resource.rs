//! Buffers bound to a memory block of their own.
use vstd::prelude::*;
use vstd::layout::align_of;
use crate::vk;
use crate::memory::{
    find_memorytype_index, is_memorytype_choice, MemoryRequirements,
    PhysicalDeviceMemoryProperties,
};

verus! {

/// What a buffer is created with. Buffers are never shared between queue
/// families.
#[derive(Clone, Copy, PartialEq, Eq, Structural, Debug)]
pub struct BufferCreateInfo {
    pub size: u64,
    pub usage: u32,
}

/// What a memory block is allocated with.
#[derive(Clone, Copy, PartialEq, Eq, Structural, Debug)]
pub struct MemoryAllocateInfo {
    pub allocation_size: u64,
    pub memory_type_index: u32,
}

/// A stretch of a memory block that is mapped for the host to write, and
/// the alignment at which the host places the elements it writes.
#[derive(Clone, Copy, PartialEq, Eq, Structural, Debug)]
pub struct MappedRange {
    pub memory: vk::DeviceMemory,
    pub offset: u64,
    pub size: u64,
    pub alignment: u64,
}

/// The allocation that satisfies `memory_req` from a memory type with the
/// wanted `properties`: as large as the requirement asks, from the type the
/// two-pass search picks. Nothing when the device has no such type.
pub fn allocate_info(
    memory_req: &MemoryRequirements,
    memory_prop: &PhysicalDeviceMemoryProperties,
    properties: u32,
) -> (info: Option<MemoryAllocateInfo>)
    ensures
        is_memorytype_choice(
            memory_req.memory_type_bits,
            memory_prop@,
            properties,
            match info {
                Some(i) => Some(i.memory_type_index),
                None => None,
            },
        ),
        info matches Some(i) ==> i.allocation_size == memory_req.size,
{
    match find_memorytype_index(memory_req, memory_prop, properties) {
        Some(memory_type_index) => Some(
            MemoryAllocateInfo { allocation_size: memory_req.size, memory_type_index },
        ),
        None => None,
    }
}

/// The descriptor of a whole buffer.
pub open spec fn whole_buffer(buffer: vk::Buffer) -> vk::DescriptorBufferInfo {
    vk::DescriptorBufferInfo { buffer, offset: 0, range: vk::WHOLE_SIZE }
}

/// A host-writable buffer with its memory block.
#[derive(Clone, Copy, PartialEq, Eq, Structural, Debug)]
pub struct Resource {
    pub memory: vk::DeviceMemory,
    pub buffer: vk::Buffer,
    pub descriptor: vk::DescriptorBufferInfo,
    pub size: u64,
    /// The distance between elements when the buffer is mapped, if one
    /// was fixed at creation.
    pub align: Option<u64>,
}

impl Resource {
    /// The buffer to create for a resource of `size` bytes.
    pub fn buffer_info(usage: u32, size: usize) -> (info: BufferCreateInfo)
        ensures
            info == (BufferCreateInfo { size: size as u64, usage }),
    {
        BufferCreateInfo { size: size as u64, usage }
    }

    /// A resource whose elements are placed at their natural alignment.
    pub fn assemble(buffer: vk::Buffer, memory: vk::DeviceMemory, size: usize) -> (resource:
        Self)
        ensures
            resource.memory == memory,
            resource.buffer == buffer,
            resource.descriptor == whole_buffer(buffer),
            resource.size == size as u64,
            resource.align == None::<u64>,
    {
        Resource::assemble_option(buffer, memory, size, None)
    }

    /// A resource whose elements are placed `align` bytes apart.
    pub fn assemble_with_alignment(
        buffer: vk::Buffer,
        memory: vk::DeviceMemory,
        size: usize,
        align: usize,
    ) -> (resource: Self)
        ensures
            resource.memory == memory,
            resource.buffer == buffer,
            resource.descriptor == whole_buffer(buffer),
            resource.size == size as u64,
            resource.align == Some(align as u64),
    {
        Resource::assemble_option(buffer, memory, size, Some(align as u64))
    }

    fn assemble_option(
        buffer: vk::Buffer,
        memory: vk::DeviceMemory,
        size: usize,
        align: Option<u64>,
    ) -> (resource: Self)
        ensures
            resource.memory == memory,
            resource.buffer == buffer,
            resource.descriptor == whole_buffer(buffer),
            resource.size == size as u64,
            resource.align == align,
    {
        Resource {
            memory,
            buffer,
            descriptor: vk::DescriptorBufferInfo { buffer, offset: 0, range: vk::WHOLE_SIZE },
            size: size as u64,
            align,
        }
    }

    /// The range to map in order to fill the buffer with values of type
    /// `T`: the whole buffer, with the elements placed at the resource's own
    /// alignment if it has one and at the alignment of `T` otherwise.
    pub fn map<T>(&self) -> (range: MappedRange)
        ensures
            range.memory == self.memory,
            range.offset == 0,
            range.size == self.size,
            range.alignment as int == match self.align {
                Some(a) => a as int,
                None => align_of::<T>() as int,
            },
    {
        let alignment: u64 = match self.align {
            Some(x) => x,
            None => core::mem::align_of::<T>() as u64,
        };
        MappedRange { memory: self.memory, offset: 0, size: self.size, alignment }
    }

    /// The memory block to unmap once the buffer is filled.
    pub fn unmap(&self) -> (memory: vk::DeviceMemory)
        ensures
            memory == self.memory,
    {
        self.memory
    }

    /// The objects behind the buffer, in the order in which they are
    /// destroyed.
    pub open spec fn owned(&self) -> Seq<vk::Object> {
        seq![vk::Object::Buffer(self.buffer), vk::Object::DeviceMemory(self.memory)]
    }

    /// What has to be destroyed to release the resource: the buffer, then
    /// the memory behind it.
    pub fn release(&self) -> (objects: Vec<vk::Object>)
        ensures
            objects@ == self.owned(),
    {
        let mut objects: Vec<vk::Object> = Vec::new();
        objects.push(vk::Object::Buffer(self.buffer));
        objects.push(vk::Object::DeviceMemory(self.memory));
        objects
    }
}

/// A buffer with its memory block; elements are always placed at their
/// natural alignment.
#[derive(Clone, Copy, PartialEq, Eq, Structural, Debug)]
pub struct Allocation {
    pub memory: vk::DeviceMemory,
    pub buffer: vk::Buffer,
    pub descriptor: vk::DescriptorBufferInfo,
    pub size: u64,
}

impl Allocation {
    pub fn assemble(buffer: vk::Buffer, memory: vk::DeviceMemory, size: usize) -> (allocation:
        Self)
        ensures
            allocation == (Allocation {
                memory,
                buffer,
                descriptor: whole_buffer(buffer),
                size: size as u64,
            }),
    {
        Allocation {
            memory,
            buffer,
            descriptor: vk::DescriptorBufferInfo { buffer, offset: 0, range: vk::WHOLE_SIZE },
            size: size as u64,
        }
    }

    /// The range to map in order to fill the buffer with values of type `T`.
    pub fn map<T>(&self) -> (range: MappedRange)
        ensures
            range.memory == self.memory,
            range.offset == 0,
            range.size == self.size,
            range.alignment as int == align_of::<T>() as int,
    {
        MappedRange {
            memory: self.memory,
            offset: 0,
            size: self.size,
            alignment: core::mem::align_of::<T>() as u64,
        }
    }

    /// The memory block to unmap once the buffer is filled.
    pub fn unmap(&self) -> (memory: vk::DeviceMemory)
        ensures
            memory == self.memory,
    {
        self.memory
    }

    /// The objects behind the buffer, in the order in which they are
    /// destroyed.
    pub open spec fn owned(&self) -> Seq<vk::Object> {
        seq![vk::Object::Buffer(self.buffer), vk::Object::DeviceMemory(self.memory)]
    }

    /// What has to be destroyed to release the allocation: the buffer, then
    /// the memory behind it.
    pub fn release(&self) -> (objects: Vec<vk::Object>)
        ensures
            objects@ == self.owned(),
    {
        let mut objects: Vec<vk::Object> = Vec::new();
        objects.push(vk::Object::Buffer(self.buffer));
        objects.push(vk::Object::DeviceMemory(self.memory));
        objects
    }
}

} // verus!
