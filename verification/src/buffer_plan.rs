//! Building buffers with memory of their own, request by request.
//!
//! The conversation is: the buffer, answered with its memory requirements;
//! a memory block of a type with the wanted properties; and the binding of
//! the buffer to the start of the block. A buffer that is created for data
//! the host has at hand takes a fourth request, the writing of the data.
use vstd::prelude::*;
use vstd::layout::{align_of, size_of};
use crate::vk;
use crate::driver::{
    asks_memory, buffer_in, memory_found, memory_in, requirements_in, Data, PlanError, Reply,
    Request, Step,
};
use crate::memory::{is_memorytype_choice, MemoryType, PhysicalDeviceMemoryProperties};
use crate::resource::{
    allocate_info, whole_buffer, Allocation, BufferCreateInfo, MappedRange, Resource,
};
use crate::uniform::{
    dynamic_layout_fits, round_up, DynamicUniformBuffer, NewUniformBuffer, UniformBuffer,
};

verus! {

/// What a buffer is built from.
pub struct BufferInputs {
    /// The size of the buffer in bytes.
    pub size: u64,
    pub usage: u32,
    /// The property flags of the memory behind the buffer.
    pub properties: u32,
    /// The distance between the elements that are written, when the host
    /// fills the buffer right away.
    pub written: Option<u64>,
    pub memory_types: Seq<MemoryType>,
}

impl BufferInputs {
    /// The number of requests it takes to build the buffer.
    pub open spec fn total(self) -> int {
        if self.written is Some {
            4
        } else {
            3
        }
    }

    /// Whether the answer at position `k` is an answer to the request at
    /// that position.
    pub open spec fn expects(self, k: int, reply: Reply) -> bool {
        if k == 0 {
            reply is Buffer
        } else if k == 1 {
            reply is Memory
        } else {
            reply is Done
        }
    }

    /// Whether each of the first `upto` answers fits the request it
    /// answers.
    pub open spec fn fit(self, replies: Seq<Reply>, upto: int) -> bool {
        forall|k: int| 0 <= k < upto && k < replies.len() ==> self.expects(k, #[trigger] replies[k])
    }

    /// Whether the device has memory for the buffer.
    pub open spec fn memory_fits(self, replies: Seq<Reply>) -> bool {
        memory_found(requirements_in(replies[0]), self.memory_types, self.properties)
    }

    /// Whether `request` is the request at position `k`, after the answers
    /// before it.
    pub open spec fn asks(self, replies: Seq<Reply>, k: int, request: Request) -> bool {
        if k == 0 {
            request == Request::CreateBuffer(BufferCreateInfo { size: self.size, usage: self.usage })
        } else if k == 1 {
            asks_memory(request, requirements_in(replies[0]), self.memory_types, self.properties)
        } else if k == 2 {
            request == (Request::BindBufferMemory {
                buffer: buffer_in(replies[0]),
                memory: memory_in(replies[1]),
                offset: 0,
            })
        } else {
            &&& self.written matches Some(alignment)
            &&& request == (Request::Write {
                range: MappedRange {
                    memory: memory_in(replies[1]),
                    offset: 0,
                    size: self.size,
                    alignment,
                },
                data: Data::Uniform,
            })
        }
    }

    /// Whether `step` is the planner's answer to `replies`, where
    /// `built` tells what the finished buffer is.
    pub open spec fn plans<T>(self, replies: Seq<Reply>, step: Step<T>, built: spec_fn(T) -> bool) -> bool {
        let len = replies.len() as int;
        match step {
            Step::Fail(PlanError::UnexpectedReply(at)) => {
                &&& at <= self.total()
                &&& at < len
                &&& self.fit(replies, at as int)
                &&& at < self.total() ==> !self.expects(at as int, replies[at as int])
                &&& at > 0 ==> self.memory_fits(replies)
            },
            Step::Fail(PlanError::NoMemoryType) => {
                &&& len > 0
                &&& self.fit(replies, 1)
                &&& is_memorytype_choice(
                    requirements_in(replies[0]).memory_type_bits,
                    self.memory_types,
                    self.properties,
                    None,
                )
            },
            Step::Fail(_) => false,
            Step::Ask(request) => {
                &&& len < self.total()
                &&& self.fit(replies, len)
                &&& len > 0 ==> self.memory_fits(replies)
                &&& self.asks(replies, len, request)
            },
            Step::Done(buffer) => {
                &&& len == self.total()
                &&& self.fit(replies, len)
                &&& self.memory_fits(replies)
                &&& built(buffer)
            },
        }
    }
}

/// The next step in building a buffer of `size` bytes.
fn plan_buffer(
    usage: u32,
    properties: u32,
    size: u64,
    written: Option<u64>,
    memory_prop: &PhysicalDeviceMemoryProperties,
    replies: &[Reply],
) -> (step: Step<(vk::Buffer, vk::DeviceMemory)>)
    ensures
        (BufferInputs { size, usage, properties, written, memory_types: memory_prop@ }).plans(
            replies@,
            step,
            |pair: (vk::Buffer, vk::DeviceMemory)|
                pair == (buffer_in(replies@[0]), memory_in(replies@[1])),
        ),
{
    let ghost inputs = BufferInputs { size, usage, properties, written, memory_types: memory_prop@ };
    let len = replies.len();
    if len == 0 {
        return Step::Ask(Request::CreateBuffer(BufferCreateInfo { size, usage }));
    }
    let (buffer, requirements) = match replies[0] {
        Reply::Buffer(buffer, requirements) => (buffer, requirements),
        _ => {
            return Step::Fail(PlanError::UnexpectedReply(0));
        },
    };
    let allocation = match allocate_info(&requirements, memory_prop, properties) {
        Some(allocation) => allocation,
        None => {
            return Step::Fail(PlanError::NoMemoryType);
        },
    };
    assert(memory_found(requirements_in(replies@[0]), memory_prop@, properties)) by {
        assert(is_memorytype_choice(
            requirements_in(replies@[0]).memory_type_bits,
            memory_prop@,
            properties,
            Some(allocation.memory_type_index),
        ));
    }
    assert(inputs.memory_fits(replies@));
    assert(inputs.fit(replies@, 1));
    if len == 1 {
        return Step::Ask(Request::AllocateMemory(allocation));
    }
    let memory = match replies[1] {
        Reply::Memory(memory) => memory,
        _ => {
            return Step::Fail(PlanError::UnexpectedReply(1));
        },
    };
    assert(inputs.fit(replies@, 2));
    if len == 2 {
        return Step::Ask(Request::BindBufferMemory { buffer, memory, offset: 0 });
    }
    match replies[2] {
        Reply::Done => {},
        _ => {
            return Step::Fail(PlanError::UnexpectedReply(2));
        },
    }
    match written {
        Some(alignment) => {
            if len == 3 {
                return Step::Ask(
                    Request::Write {
                        range: MappedRange { memory, offset: 0, size, alignment },
                        data: Data::Uniform,
                    },
                );
            }
            match replies[3] {
                Reply::Done => {},
                _ => {
                    return Step::Fail(PlanError::UnexpectedReply(3));
                },
            }
            if len > 4 {
                return Step::Fail(PlanError::UnexpectedReply(4));
            }
        },
        None => {
            if len > 3 {
                return Step::Fail(PlanError::UnexpectedReply(3));
            }
        },
    }
    Step::Done((buffer, memory))
}

/// The next step in building a buffer of `size` bytes for `usage` that is
/// bound to a memory block of its own with the wanted `properties`, after
/// the answers in `replies`.
pub fn create_allocated_buffer(
    size: u64,
    usage: u32,
    properties: u32,
    memory_prop: &PhysicalDeviceMemoryProperties,
    replies: &[Reply],
) -> (step: Step<(vk::Buffer, vk::DeviceMemory)>)
    ensures
        (BufferInputs { size, usage, properties, written: None, memory_types: memory_prop@ })
            .plans(
            replies@,
            step,
            |pair: (vk::Buffer, vk::DeviceMemory)|
                pair == (buffer_in(replies@[0]), memory_in(replies@[1])),
        ),
{
    plan_buffer(usage, properties, size, None, memory_prop, replies)
}

/// The resource that the answers add up to.
pub open spec fn resource_of(replies: Seq<Reply>, size: u64, align: Option<u64>) -> Resource {
    Resource {
        memory: memory_in(replies[1]),
        buffer: buffer_in(replies[0]),
        descriptor: whole_buffer(buffer_in(replies[0])),
        size,
        align,
    }
}

impl Resource {
    /// The next step in building a resource of `size` bytes whose elements
    /// are placed at their natural alignment, after the answers in
    /// `replies`.
    pub fn create_resource(
        usage: u32,
        memory_properties: u32,
        size: usize,
        memory_prop: &PhysicalDeviceMemoryProperties,
        replies: &[Reply],
    ) -> (step: Step<Resource>)
        ensures
            (BufferInputs {
                size: size as u64,
                usage,
                properties: memory_properties,
                written: None,
                memory_types: memory_prop@,
            }).plans(
                replies@,
                step,
                |resource: Resource| resource == resource_of(replies@, size as u64, None),
            ),
    {
        Resource::create_resource_option(usage, memory_properties, size, None, memory_prop, replies)
    }

    /// The next step in building a resource of `size` bytes whose elements
    /// are placed `align` bytes apart, after the answers in `replies`.
    pub fn create_resource_with_alignment(
        usage: u32,
        memory_properties: u32,
        size: usize,
        align: usize,
        memory_prop: &PhysicalDeviceMemoryProperties,
        replies: &[Reply],
    ) -> (step: Step<Resource>)
        ensures
            (BufferInputs {
                size: size as u64,
                usage,
                properties: memory_properties,
                written: None,
                memory_types: memory_prop@,
            }).plans(
                replies@,
                step,
                |resource: Resource|
                    resource == resource_of(replies@, size as u64, Some(align as u64)),
            ),
    {
        Resource::create_resource_option(
            usage,
            memory_properties,
            size,
            Some(align),
            memory_prop,
            replies,
        )
    }

    /// The next step in building a resource of `size` bytes, after the
    /// answers in `replies`: the buffer is created, memory with the
    /// wanted properties is allocated for what the buffer requires, and
    /// the buffer is bound to the start of it.
    fn create_resource_option(
        usage: u32,
        memory_properties: u32,
        size: usize,
        align: Option<usize>,
        memory_prop: &PhysicalDeviceMemoryProperties,
        replies: &[Reply],
    ) -> (step: Step<Resource>)
        ensures
            (BufferInputs {
                size: size as u64,
                usage,
                properties: memory_properties,
                written: None,
                memory_types: memory_prop@,
            }).plans(
                replies@,
                step,
                |resource: Resource|
                    resource == resource_of(
                        replies@,
                        size as u64,
                        match align {
                            Some(align) => Some(align as u64),
                            None => None,
                        },
                    ),
            ),
    {
        match plan_buffer(usage, memory_properties, size as u64, None, memory_prop, replies) {
            Step::Ask(request) => Step::Ask(request),
            Step::Fail(error) => Step::Fail(error),
            Step::Done((buffer, memory)) => Step::Done(
                match align {
                    Some(align) => Resource::assemble_with_alignment(buffer, memory, size, align),
                    None => Resource::assemble(buffer, memory, size),
                },
            ),
        }
    }
}

impl Allocation {
    /// The next step in building an allocation of `size` bytes, after the
    /// answers in `replies`.
    pub fn create_resource(
        usage: u32,
        memory_properties: u32,
        size: usize,
        memory_prop: &PhysicalDeviceMemoryProperties,
        replies: &[Reply],
    ) -> (step: Step<Allocation>)
        ensures
            (BufferInputs {
                size: size as u64,
                usage,
                properties: memory_properties,
                written: None,
                memory_types: memory_prop@,
            }).plans(
                replies@,
                step,
                |allocation: Allocation|
                    allocation == (Allocation {
                        memory: memory_in(replies@[1]),
                        buffer: buffer_in(replies@[0]),
                        descriptor: whole_buffer(buffer_in(replies@[0])),
                        size: size as u64,
                    }),
            ),
    {
        match plan_buffer(usage, memory_properties, size as u64, None, memory_prop, replies) {
            Step::Ask(request) => Step::Ask(request),
            Step::Fail(error) => Step::Fail(error),
            Step::Done((buffer, memory)) => Step::Done(Allocation::assemble(buffer, memory, size)),
        }
    }
}

/// What the uniform buffer for one value of type `T` is built from.
pub open spec fn uniform_inputs<T>(memory_types: Seq<MemoryType>) -> BufferInputs {
    BufferInputs {
        size: size_of::<T>() as usize as u64,
        usage: vk::BUFFER_USAGE_UNIFORM_BUFFER_BIT,
        properties: vk::MEMORY_PROPERTY_HOST_VISIBLE_BIT,
        written: Some(align_of::<T>() as usize as u64),
        memory_types,
    }
}

/// What the dynamic uniform buffer for `count` values of type `T` is built
/// from.
pub open spec fn dynamic_inputs<T>(min_alignment: u64, count: usize, memory_types: Seq<MemoryType>) -> BufferInputs {
    BufferInputs {
        size: (count * round_up(size_of::<T>() as int, min_alignment as int)) as u64,
        usage: vk::BUFFER_USAGE_UNIFORM_BUFFER_BIT,
        properties: vk::MEMORY_PROPERTY_HOST_VISIBLE_BIT,
        written: Some(round_up(size_of::<T>() as int, min_alignment as int) as u64),
        memory_types,
    }
}

/// Whether `step` is the answer to `replies` of the planner of the
/// uniform buffer for one value of type `T`, with the size of the value as
/// its alignment.
pub open spec fn uniform_plans<T>(
    memory_types: Seq<MemoryType>,
    replies: Seq<Reply>,
    step: Step<UniformBuffer>,
) -> bool {
    uniform_inputs::<T>(memory_types).plans(
        replies,
        step,
        |buffer: UniformBuffer|
            buffer == (UniformBuffer {
                dynamic: resource_of(replies, size_of::<T>() as usize as u64, None),
                alignment: size_of::<T>() as usize as u64,
            }),
    )
}

/// Whether `step` is the answer to `replies` of the planner of the dynamic
/// uniform buffer for `count` values of type `T`: nothing is asked for
/// when the values have no layout.
pub open spec fn dynamic_plans<T>(
    min_alignment: u64,
    count: usize,
    memory_types: Seq<MemoryType>,
    replies: Seq<Reply>,
    step: Step<DynamicUniformBuffer>,
) -> bool {
    if !dynamic_layout_fits(size_of::<T>() as int, min_alignment as int, count as int) {
        step matches Step::Fail(PlanError::TooLarge)
    } else {
        dynamic_inputs::<T>(min_alignment, count, memory_types).plans(
            replies,
            step,
            |buffer: DynamicUniformBuffer|
                {
                    &&& buffer.wf()
                    &&& buffer.dynamic == resource_of(
                        replies,
                        (count * round_up(size_of::<T>() as int, min_alignment as int)) as u64,
                        Some(round_up(size_of::<T>() as int, min_alignment as int) as u64),
                    )
                    &&& buffer.count == count
                    &&& buffer.align == round_up(size_of::<T>() as int, min_alignment as int)
                },
        )
    }
}

impl UniformBuffer {
    /// The next step in building the uniform buffer for one value of type
    /// `T`, after the answers in `replies`.
    pub fn init_with_align<T>(
        alignment: u64,
        memory_prop: &PhysicalDeviceMemoryProperties,
        replies: &[Reply],
    ) -> (step: Step<UniformBuffer>)
        ensures
            uniform_inputs::<T>(memory_prop@).plans(
                replies@,
                step,
                |buffer: UniformBuffer|
                    buffer == (UniformBuffer {
                        dynamic: resource_of(replies@, size_of::<T>() as usize as u64, None),
                        alignment,
                    }),
            ),
    {
        let size = core::mem::size_of::<T>();
        match plan_buffer(
            vk::BUFFER_USAGE_UNIFORM_BUFFER_BIT,
            vk::MEMORY_PROPERTY_HOST_VISIBLE_BIT,
            size as u64,
            Some(core::mem::align_of::<T>() as u64),
            memory_prop,
            replies,
        ) {
            Step::Ask(request) => Step::Ask(request),
            Step::Fail(error) => Step::Fail(error),
            Step::Done((buffer, memory)) => match UniformBuffer::assemble_with_align::<T>(
                Resource::assemble(buffer, memory, size),
                alignment,
            ) {
                Some(buffer) => Step::Done(buffer),
                None => unreached(),
            },
        }
    }

    /// As `init_with_align`, with the size of the value as its alignment.
    pub fn init<T>(memory_prop: &PhysicalDeviceMemoryProperties, replies: &[Reply]) -> (step:
        Step<UniformBuffer>)
        ensures
            uniform_plans::<T>(memory_prop@, replies@, step),
    {
        UniformBuffer::init_with_align::<T>(core::mem::size_of::<T>() as u64, memory_prop, replies)
    }
}

impl NewUniformBuffer {
    /// The next step in building the uniform buffer for one value of type
    /// `T`, after the answers in `replies`.
    pub fn init<T>(memory_prop: &PhysicalDeviceMemoryProperties, replies: &[Reply]) -> (step:
        Step<NewUniformBuffer>)
        ensures
            uniform_inputs::<T>(memory_prop@).plans(
                replies@,
                step,
                |made: NewUniformBuffer|
                    made == (NewUniformBuffer {
                        buffer: buffer_in(replies@[0]),
                        descriptor: whole_buffer(buffer_in(replies@[0])),
                        memory: memory_in(replies@[1]),
                    }),
            ),
    {
        match plan_buffer(
            vk::BUFFER_USAGE_UNIFORM_BUFFER_BIT,
            vk::MEMORY_PROPERTY_HOST_VISIBLE_BIT,
            core::mem::size_of::<T>() as u64,
            Some(core::mem::align_of::<T>() as u64),
            memory_prop,
            replies,
        ) {
            Step::Ask(request) => Step::Ask(request),
            Step::Fail(error) => Step::Fail(error),
            Step::Done((buffer, memory)) => Step::Done(NewUniformBuffer::assemble(buffer, memory)),
        }
    }
}

impl DynamicUniformBuffer {
    /// The next step in building the dynamic uniform buffer for `count`
    /// values of type `T`, after the answers in `replies`. Nothing is asked
    /// for when the values have no layout.
    pub fn init<T>(
        min_alignment: u64,
        count: usize,
        memory_prop: &PhysicalDeviceMemoryProperties,
        replies: &[Reply],
    ) -> (step: Step<DynamicUniformBuffer>)
        ensures
            dynamic_plans::<T>(min_alignment, count, memory_prop@, replies@, step),
    {
        let layout = match DynamicUniformBuffer::layout::<T>(min_alignment, count) {
            Some(layout) => layout,
            None => {
                return Step::Fail(PlanError::TooLarge);
            },
        };
        match plan_buffer(
            vk::BUFFER_USAGE_UNIFORM_BUFFER_BIT,
            vk::MEMORY_PROPERTY_HOST_VISIBLE_BIT,
            layout.buffer_size as u64,
            Some(layout.stride as u64),
            memory_prop,
            replies,
        ) {
            Step::Ask(request) => Step::Ask(request),
            Step::Fail(error) => Step::Fail(error),
            Step::Done((buffer, memory)) => match DynamicUniformBuffer::assemble::<T>(
                min_alignment,
                count,
                Resource::assemble_with_alignment(
                    buffer,
                    memory,
                    layout.buffer_size,
                    layout.stride,
                ),
            ) {
                Some(buffer) => Step::Done(buffer),
                None => unreached(),
            },
        }
    }
}

} // verus!
