//! The conversation with the driver.
//!
//! Building an object of the engine takes several calls into the driver,
//! and what is asked next depends on what came back before: an image has
//! to exist before its memory requirements are known, and the requirements
//! of all images have to be known before their memory is allocated. A
//! planner is a function from the answers received so far to the next
//! request. The caller starts with no answers, carries out what the planner
//! asks for, appends the answer, and asks again, until the planner returns
//! what was built.
//!
//! A planner for something that is made of several parts runs the planner
//! of each part on the answers that belong to that part, and passes on
//! what the first unfinished part asks for.
use vstd::prelude::*;
use vstd::slice::slice_subrange;
use crate::vk;
use crate::g_buffer::{AttachmentError, FramebufferCreateInfo, RenderPassCreateInfo};
use crate::memory::{is_memorytype_choice, MemoryRequirements, MemoryType};
use crate::mesh::MeshError;
use crate::resource::{BufferCreateInfo, MappedRange, MemoryAllocateInfo};
use crate::shader::{
    DescriptorPoolCreateInfo, DescriptorSetLayoutBinding, GraphicsPipelineCreateInfo,
    WriteDescriptorSet,
};
use crate::surface::SwapchainCreateInfoKHR;
use crate::vk_commands::{
    CommandBufferAllocateInfo, CommandPoolCreateInfo, Recording, SubmitStep,
};

verus! {

/// The most items of one kind a planner deals with.
pub const MAX_ITEMS: usize = 0x00ff_ffff;

/// What is written into a mapped range.
#[derive(Clone, Copy, PartialEq, Eq, Structural, Debug)]
pub enum Data {
    /// The value or values a uniform buffer is created for.
    Uniform,
    /// The pixels of a texture.
    Pixels,
    /// The indices of a mesh.
    Indices,
    /// The vertices of a mesh.
    Vertices,
}

/// What the engine asks the driver to do.
#[derive(Clone, PartialEq, Eq, Debug)]
pub enum Request {
    CreateSampler(vk::SamplerCreateInfo),
    /// Create the image and report its memory requirements.
    CreateImage(vk::ImageCreateInfo),
    /// Create the buffer and report its memory requirements.
    CreateBuffer(BufferCreateInfo),
    AllocateMemory(MemoryAllocateInfo),
    BindImageMemory { image: vk::Image, memory: vk::DeviceMemory, offset: u64 },
    BindBufferMemory { buffer: vk::Buffer, memory: vk::DeviceMemory, offset: u64 },
    CreateImageView(vk::ImageViewCreateInfo),
    CreateRenderPass(RenderPassCreateInfo),
    CreateFramebuffer(FramebufferCreateInfo),
    /// Map the range, write the data it is meant for, and unmap it.
    Write { range: MappedRange, data: Data },
    /// As `Write`, where there are several values of one kind to write:
    /// `source` counts them from zero, in the order in which the caller
    /// handed them in.
    WriteFrom { range: MappedRange, data: Data, source: usize },
    /// Carry out a one-shot submission.
    Submit(Vec<SubmitStep>),
    Destroy(vk::Object),
    CreateDescriptorPool(DescriptorPoolCreateInfo),
    CreateDescriptorSetLayout(Vec<DescriptorSetLayoutBinding>),
    /// Allocate one descriptor set of the layout from the pool.
    AllocateDescriptorSet { pool: vk::DescriptorPool, layout: vk::DescriptorSetLayout },
    UpdateDescriptorSets(Vec<WriteDescriptorSet>),
    /// Create a pipeline layout with the one descriptor set layout.
    CreatePipelineLayout(vk::DescriptorSetLayout),
    /// Create a shader module from its code.
    CreateShaderModule(Vec<u32>),
    /// Create the pipeline with the two shader modules as its stages.
    CreateGraphicsPipeline {
        info: GraphicsPipelineCreateInfo,
        vertex_module: vk::ShaderModule,
        fragment_module: vk::ShaderModule,
    },
    CreateCommandPool(CommandPoolCreateInfo),
    AllocateCommandBuffers(CommandBufferAllocateInfo),
    /// Create the swapchain and report its images.
    CreateSwapchain(SwapchainCreateInfoKHR),
    CreateSemaphore,
    /// Record the commands into their command buffer, once and for every
    /// frame.
    Record(Recording),
}

/// What the driver answers.
#[derive(Clone, PartialEq, Eq, Debug)]
pub enum Reply {
    /// The request was carried out; there is nothing to report.
    Done,
    Sampler(vk::Sampler),
    Image(vk::Image, MemoryRequirements),
    Buffer(vk::Buffer, MemoryRequirements),
    Memory(vk::DeviceMemory),
    ImageView(vk::ImageView),
    RenderPass(vk::RenderPassHandle),
    Framebuffer(vk::Framebuffer),
    DescriptorPool(vk::DescriptorPool),
    DescriptorSetLayout(vk::DescriptorSetLayout),
    DescriptorSet(vk::DescriptorSet),
    PipelineLayout(vk::PipelineLayout),
    Pipeline(vk::Pipeline),
    CommandPool(vk::CommandPool),
    CommandBuffers(Vec<vk::CommandBuffer>),
    Swapchain(vk::SwapchainKHR, Vec<vk::Image>),
    Semaphore(vk::Semaphore),
    ShaderModule(vk::ShaderModule),
}

/// Why a planner gave up.
#[derive(Clone, Copy, PartialEq, Eq, Structural, Debug)]
pub enum PlanError {
    /// The answer at this position is not an answer to what was asked
    /// there, or there is an answer where nothing was asked any more.
    UnexpectedReply(usize),
    /// A render pass that is to draw to views handed to it was asked for
    /// with more than one colour attachment: its framebuffers would not
    /// match it.
    ViewsNeedOneColour,
    /// There are more items than a planner deals with.
    TooMany,
    /// The images of a pass cannot be given memory.
    Attachments(AttachmentError),
    /// The buffers of a mesh cannot be given memory.
    Mesh(MeshError),
    /// The device has no memory type with the wanted properties.
    NoMemoryType,
    /// A size does not fit.
    TooLarge,
    /// The driver returned a number of objects that was not asked for.
    WrongCount,
    /// The code of a shader is not a SPIR-V module.
    NotSpirv,
    /// The driver handed out an object that it had handed out before.
    HandedOutTwice,
}

/// What a planner returns.
#[derive(Debug)]
pub enum Step<T> {
    /// Carry this out and come back with the answer.
    Ask(Request),
    /// Everything was built.
    Done(T),
    Fail(PlanError),
}

/// The answers to the `count` requests from position `from` on, as far as
/// they are there.
pub open spec fn part(replies: Seq<Reply>, from: int, count: int) -> Seq<Reply> {
    if replies.len() <= from {
        Seq::empty()
    } else if replies.len() - from >= count {
        replies.subrange(from, from + count)
    } else {
        replies.subrange(from, replies.len() as int)
    }
}

/// The answers to the `count` requests from position `from` on, as far as
/// they are there.
pub fn part_of(replies: &[Reply], from: usize, count: usize) -> (answers: &[Reply])
    ensures
        answers@ == part(replies@, from as int, count as int),
{
    let len = replies.len();
    if len <= from {
        let none = slice_subrange(replies, len, len);
        assert(none@ =~= Seq::<Reply>::empty());
        none
    } else if len - from >= count {
        slice_subrange(replies, from, from + count)
    } else {
        slice_subrange(replies, from, len)
    }
}

/// The request as a planner passes it on that runs the planner which asks
/// it: a write names the value it is for, if the outer planner has
/// several of the kind.
pub open spec fn sourced(request: Request, source: Option<usize>) -> Request {
    match (request, source) {
        (Request::Write { range, data }, Some(source)) => Request::WriteFrom { range, data, source },
        _ => request,
    }
}

/// Whether `outer` is what a planner returns when the planner that it runs
/// on the answers from position `from` on returned `inner`, which has not
/// finished: the same request, or the same failure, with the position of
/// an unexpected answer counted from the start of all answers.
pub open spec fn passes_on<T, U>(
    inner: Step<T>,
    from: int,
    source: Option<usize>,
    outer: Step<U>,
) -> bool {
    match inner {
        Step::Ask(request) => outer == Step::<U>::Ask(sourced(request, source)),
        Step::Fail(PlanError::UnexpectedReply(at)) => outer == Step::<U>::Fail(
            PlanError::UnexpectedReply((at + from) as usize),
        ),
        Step::Fail(error) => outer == Step::<U>::Fail(error),
        Step::Done(_) => false,
    }
}

/// What a planner returns when the planner that it runs on the answers
/// from position `from` on has not finished.
pub fn pass_on<T, U>(inner: Step<T>, from: usize, source: Option<usize>) -> (outer: Step<U>)
    requires
        !(inner is Done),
        inner matches Step::Fail(PlanError::UnexpectedReply(at)) ==> at + from <= usize::MAX,
    ensures
        passes_on(inner, from as int, source, outer),
{
    match inner {
        Step::Ask(Request::Write { range, data }) => match source {
            Some(source) => Step::Ask(Request::WriteFrom { range, data, source }),
            None => Step::Ask(Request::Write { range, data }),
        },
        Step::Ask(request) => Step::Ask(request),
        Step::Fail(PlanError::UnexpectedReply(at)) => Step::Fail(
            PlanError::UnexpectedReply(at + from),
        ),
        Step::Fail(error) => Step::Fail(error),
        Step::Done(_) => unreached(),
    }
}

/// Whether the device has a memory type with the wanted properties that
/// the requirements admit.
pub open spec fn memory_found(requirements: MemoryRequirements, table: Seq<MemoryType>, flags: u32) -> bool {
    exists|index: u32|
        #[trigger] is_memorytype_choice(requirements.memory_type_bits, table, flags, Some(index))
}

/// Whether `request` asks for a memory block that is exactly as large as
/// the requirements say and of the memory type that the two-pass search
/// picks for the wanted properties.
pub open spec fn asks_memory(
    request: Request,
    requirements: MemoryRequirements,
    table: Seq<MemoryType>,
    flags: u32,
) -> bool {
    &&& request matches Request::AllocateMemory(allocation)
    &&& allocation.allocation_size == requirements.size
    &&& is_memorytype_choice(
        requirements.memory_type_bits,
        table,
        flags,
        Some(allocation.memory_type_index),
    )
}

/// The image an answer reports.
pub open spec fn image_in(reply: Reply) -> vk::Image {
    match reply {
        Reply::Image(image, _) => image,
        _ => vk::Image(0),
    }
}

/// The memory requirements an answer reports.
pub open spec fn requirements_in(reply: Reply) -> MemoryRequirements {
    match reply {
        Reply::Image(_, requirements) => requirements,
        Reply::Buffer(_, requirements) => requirements,
        _ => MemoryRequirements { size: 0, alignment: 0, memory_type_bits: 0 },
    }
}

/// The buffer an answer reports.
pub open spec fn buffer_in(reply: Reply) -> vk::Buffer {
    match reply {
        Reply::Buffer(buffer, _) => buffer,
        _ => vk::Buffer(0),
    }
}

/// The memory block an answer reports.
pub open spec fn memory_in(reply: Reply) -> vk::DeviceMemory {
    match reply {
        Reply::Memory(memory) => memory,
        _ => vk::DeviceMemory(0),
    }
}

/// The image view an answer reports.
pub open spec fn view_in(reply: Reply) -> vk::ImageView {
    match reply {
        Reply::ImageView(view) => view,
        _ => vk::ImageView(0),
    }
}

/// The sampler an answer reports.
pub open spec fn sampler_in(reply: Reply) -> vk::Sampler {
    match reply {
        Reply::Sampler(sampler) => sampler,
        _ => vk::Sampler(0),
    }
}

/// The render pass an answer reports.
pub open spec fn render_pass_in(reply: Reply) -> vk::RenderPassHandle {
    match reply {
        Reply::RenderPass(pass) => pass,
        _ => vk::RenderPassHandle(0),
    }
}

/// The descriptor pool an answer reports.
pub open spec fn descriptor_pool_in(reply: Reply) -> vk::DescriptorPool {
    match reply {
        Reply::DescriptorPool(pool) => pool,
        _ => vk::DescriptorPool(0),
    }
}

/// The descriptor set layout an answer reports.
pub open spec fn descriptor_set_layout_in(reply: Reply) -> vk::DescriptorSetLayout {
    match reply {
        Reply::DescriptorSetLayout(layout) => layout,
        _ => vk::DescriptorSetLayout(0),
    }
}

/// The descriptor set an answer reports.
pub open spec fn descriptor_set_in(reply: Reply) -> vk::DescriptorSet {
    match reply {
        Reply::DescriptorSet(set) => set,
        _ => vk::DescriptorSet(0),
    }
}

/// The pipeline layout an answer reports.
pub open spec fn pipeline_layout_in(reply: Reply) -> vk::PipelineLayout {
    match reply {
        Reply::PipelineLayout(layout) => layout,
        _ => vk::PipelineLayout(0),
    }
}

/// The pipeline an answer reports.
pub open spec fn pipeline_in(reply: Reply) -> vk::Pipeline {
    match reply {
        Reply::Pipeline(pipeline) => pipeline,
        _ => vk::Pipeline(0),
    }
}

/// The command pool an answer reports.
pub open spec fn command_pool_in(reply: Reply) -> vk::CommandPool {
    match reply {
        Reply::CommandPool(pool) => pool,
        _ => vk::CommandPool(0),
    }
}

/// The command buffers an answer reports.
pub open spec fn command_buffers_in(reply: Reply) -> Seq<vk::CommandBuffer> {
    match reply {
        Reply::CommandBuffers(buffers) => buffers@,
        _ => Seq::empty(),
    }
}

/// The swapchain an answer reports.
pub open spec fn swapchain_in(reply: Reply) -> vk::SwapchainKHR {
    match reply {
        Reply::Swapchain(swapchain, _) => swapchain,
        _ => vk::SwapchainKHR(0),
    }
}

/// The images of the swapchain an answer reports.
pub open spec fn swapchain_images_in(reply: Reply) -> Seq<vk::Image> {
    match reply {
        Reply::Swapchain(_, images) => images@,
        _ => Seq::empty(),
    }
}

/// The shader module an answer reports.
pub open spec fn shader_module_in(reply: Reply) -> vk::ShaderModule {
    match reply {
        Reply::ShaderModule(module) => module,
        _ => vk::ShaderModule(0),
    }
}

/// The semaphore an answer reports.
pub open spec fn semaphore_in(reply: Reply) -> vk::Semaphore {
    match reply {
        Reply::Semaphore(semaphore) => semaphore,
        _ => vk::Semaphore(0),
    }
}

/// The framebuffer an answer reports.
pub open spec fn framebuffer_in(reply: Reply) -> vk::Framebuffer {
    match reply {
        Reply::Framebuffer(framebuffer) => framebuffer,
        _ => vk::Framebuffer(0),
    }
}

/// The number of answers that are there among the `count` answers from
/// position `from` on.
pub open spec fn present(replies: Seq<Reply>, from: int, count: int) -> int {
    if replies.len() <= from {
        0
    } else if replies.len() - from >= count {
        count
    } else {
        replies.len() - from
    }
}

/// Reads the images and their memory requirements out of the answers from
/// position `from` on, `count` at most. Returns the position of the first
/// answer that reports no image, if there is one.
pub fn images_at(replies: &[Reply], from: usize, count: usize) -> (found: Result<
    (Vec<vk::Image>, Vec<MemoryRequirements>),
    usize,
>)
    requires
        from + count <= usize::MAX,
    ensures
        match found {
            Ok((images, requirements)) => {
                &&& images@.len() == present(replies@, from as int, count as int)
                &&& requirements@.len() == images@.len()
                &&& forall|k: int|
                    from <= k < from + images@.len() ==> (#[trigger] replies@[k]) is Image
                &&& forall|i: int|
                    0 <= i < images@.len() ==> #[trigger] images@[i] == image_in(replies@[from + i])
                &&& forall|i: int|
                    0 <= i < images@.len() ==> #[trigger] requirements@[i] == requirements_in(
                        replies@[from + i],
                    )
            },
            Err(at) => {
                &&& from <= at < from + count
                &&& at < replies@.len()
                &&& !(replies@[at as int] is Image)
                &&& forall|k: int| from <= k < at ==> (#[trigger] replies@[k]) is Image
            },
        },
{
    let mut images: Vec<vk::Image> = Vec::new();
    let mut requirements: Vec<MemoryRequirements> = Vec::new();
    let mut j: usize = 0;
    while j < count && from + j < replies.len()
        invariant
            j <= count,
            from + count <= usize::MAX,
            from + j <= replies@.len() || j == 0,
            images@.len() == j,
            requirements@.len() == j,
            forall|k: int| from <= k < from + j ==> (#[trigger] replies@[k]) is Image,
            forall|i: int| 0 <= i < j ==> #[trigger] images@[i] == image_in(replies@[from + i]),
            forall|i: int|
                0 <= i < j ==> #[trigger] requirements@[i] == requirements_in(replies@[from + i]),
        decreases count - j,
    {
        match replies[from + j] {
            Reply::Image(image, required) => {
                images.push(image);
                requirements.push(required);
            },
            _ => {
                return Err(from + j);
            },
        }
        j += 1;
    }
    Ok((images, requirements))
}

/// Reads the image views out of the answers from position `from` on,
/// `count` at most. Returns the position of the first answer that reports
/// no image view, if there is one.
pub fn views_at(replies: &[Reply], from: usize, count: usize) -> (found: Result<
    Vec<vk::ImageView>,
    usize,
>)
    requires
        from + count <= usize::MAX,
    ensures
        match found {
            Ok(views) => {
                &&& views@.len() == present(replies@, from as int, count as int)
                &&& forall|k: int|
                    from <= k < from + views@.len() ==> (#[trigger] replies@[k]) is ImageView
                &&& forall|i: int|
                    0 <= i < views@.len() ==> #[trigger] views@[i] == view_in(replies@[from + i])
            },
            Err(at) => {
                &&& from <= at < from + count
                &&& at < replies@.len()
                &&& !(replies@[at as int] is ImageView)
                &&& forall|k: int| from <= k < at ==> (#[trigger] replies@[k]) is ImageView
            },
        },
{
    let mut views: Vec<vk::ImageView> = Vec::new();
    let mut j: usize = 0;
    while j < count && from + j < replies.len()
        invariant
            j <= count,
            from + count <= usize::MAX,
            from + j <= replies@.len() || j == 0,
            views@.len() == j,
            forall|k: int| from <= k < from + j ==> (#[trigger] replies@[k]) is ImageView,
            forall|i: int| 0 <= i < j ==> #[trigger] views@[i] == view_in(replies@[from + i]),
        decreases count - j,
    {
        match replies[from + j] {
            Reply::ImageView(view) => {
                views.push(view);
            },
            _ => {
                return Err(from + j);
            },
        }
        j += 1;
    }
    Ok(views)
}

/// Reads the framebuffers out of the answers from position `from` on,
/// `count` at most. Returns the position of the first answer that reports
/// no framebuffer, if there is one.
pub fn framebuffers_at(replies: &[Reply], from: usize, count: usize) -> (found: Result<
    Vec<vk::Framebuffer>,
    usize,
>)
    requires
        from + count <= usize::MAX,
    ensures
        match found {
            Ok(framebuffers) => {
                &&& framebuffers@.len() == present(replies@, from as int, count as int)
                &&& forall|k: int|
                    from <= k < from + framebuffers@.len() ==> (#[trigger] replies@[k]) is Framebuffer
                &&& forall|i: int|
                    0 <= i < framebuffers@.len() ==> #[trigger] framebuffers@[i] == framebuffer_in(
                        replies@[from + i],
                    )
            },
            Err(at) => {
                &&& from <= at < from + count
                &&& at < replies@.len()
                &&& !(replies@[at as int] is Framebuffer)
                &&& forall|k: int| from <= k < at ==> (#[trigger] replies@[k]) is Framebuffer
            },
        },
{
    let mut framebuffers: Vec<vk::Framebuffer> = Vec::new();
    let mut j: usize = 0;
    while j < count && from + j < replies.len()
        invariant
            j <= count,
            from + count <= usize::MAX,
            from + j <= replies@.len() || j == 0,
            framebuffers@.len() == j,
            forall|k: int| from <= k < from + j ==> (#[trigger] replies@[k]) is Framebuffer,
            forall|i: int|
                0 <= i < j ==> #[trigger] framebuffers@[i] == framebuffer_in(replies@[from + i]),
        decreases count - j,
    {
        match replies[from + j] {
            Reply::Framebuffer(framebuffer) => {
                framebuffers.push(framebuffer);
            },
            _ => {
                return Err(from + j);
            },
        }
        j += 1;
    }
    Ok(framebuffers)
}

/// Counts the answers from position `from` on, `count` at most, that
/// report a request carried out. Returns the position of the first answer
/// that reports something else, if there is one.
pub fn dones_at(replies: &[Reply], from: usize, count: usize) -> (found: Result<usize, usize>)
    requires
        from + count <= usize::MAX,
    ensures
        match found {
            Ok(done) => {
                &&& done == present(replies@, from as int, count as int)
                &&& forall|k: int| from <= k < from + done ==> (#[trigger] replies@[k]) is Done
            },
            Err(at) => {
                &&& from <= at < from + count
                &&& at < replies@.len()
                &&& !(replies@[at as int] is Done)
                &&& forall|k: int| from <= k < at ==> (#[trigger] replies@[k]) is Done
            },
        },
{
    let mut j: usize = 0;
    while j < count && from + j < replies.len()
        invariant
            j <= count,
            from + count <= usize::MAX,
            from + j <= replies@.len() || j == 0,
            forall|k: int| from <= k < from + j ==> (#[trigger] replies@[k]) is Done,
        decreases count - j,
    {
        match replies[from + j] {
            Reply::Done => {},
            _ => {
                return Err(from + j);
            },
        }
        j += 1;
    }
    Ok(j)
}

} // verus!
