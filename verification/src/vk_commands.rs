//! Command buffers: what is recorded into them, and the two ways the engine
//! hands them to the queue.
//!
//! A one-shot submission is reset, recorded, submitted with a fence of its
//! own and waited for, so that the CPU sees the work complete. A persistent
//! recording is made once for simultaneous use and is submitted again every
//! frame; only semaphores order it.
use vstd::prelude::*;
use crate::vk;

verus! {

/// The value an attachment is cleared to when a render pass begins.
/// Floating-point components are given by their bit patterns.
#[derive(Clone, Copy, PartialEq, Eq, Structural, Debug)]
pub enum ClearValue {
    Color { r: u32, g: u32, b: u32, a: u32 },
    DepthStencil { depth: u32, stencil: u32 },
}

/// The clear value of a colour attachment: all four components zero.
pub open spec fn clear_color() -> ClearValue {
    ClearValue::Color { r: vk::F32_ZERO, g: vk::F32_ZERO, b: vk::F32_ZERO, a: vk::F32_ZERO }
}

/// The clear value of the depth attachment: depth one, stencil zero.
pub open spec fn clear_depth() -> ClearValue {
    ClearValue::DepthStencil { depth: vk::F32_ONE, stencil: 0 }
}

/// The clear values of a pass with `colour_count` colour attachments
/// followed by its depth attachment.
pub open spec fn clear_values_of(colour_count: nat) -> Seq<ClearValue> {
    Seq::new(colour_count, |i: int| clear_color()).push(clear_depth())
}

/// Builds the clear values of a pass with `colour_count` colour attachments
/// followed by its depth attachment.
pub fn clear_values(colour_count: usize) -> (values: Vec<ClearValue>)
    ensures
        values@ == clear_values_of(colour_count as nat),
{
    let mut values: Vec<ClearValue> = Vec::new();
    let mut i: usize = 0;
    while i < colour_count
        invariant
            i <= colour_count,
            values@ == Seq::new(i as nat, |k: int| clear_color()),
        decreases colour_count - i,
    {
        values.push(
            ClearValue::Color { r: vk::F32_ZERO, g: vk::F32_ZERO, b: vk::F32_ZERO, a: vk::F32_ZERO },
        );
        i += 1;
        assert(values@ =~= Seq::new(i as nat, |k: int| clear_color()));
    }
    values.push(ClearValue::DepthStencil { depth: vk::F32_ONE, stencil: 0 });
    values
}

/// How a render pass instance begins on one framebuffer.
#[derive(Clone, PartialEq, Eq, Debug)]
pub struct RenderPassBeginInfo {
    pub render_pass: vk::RenderPassHandle,
    pub framebuffer: vk::Framebuffer,
    pub render_area: vk::Rect2D,
    pub clear_values: Vec<ClearValue>,
}

/// A region of a buffer-to-buffer copy.
#[derive(Clone, Copy, PartialEq, Eq, Structural, Debug)]
pub struct BufferCopy {
    pub src_offset: u64,
    pub dst_offset: u64,
    pub size: u64,
}

/// A region of a buffer-to-image copy into the single colour layer of a 2D
/// image. A row length and image height of zero mean "tightly packed".
#[derive(Clone, Copy, PartialEq, Eq, Structural, Debug)]
pub struct BufferImageCopy {
    pub buffer_offset: u64,
    pub buffer_row_length: u32,
    pub buffer_image_height: u32,
    pub aspect_mask: u32,
    pub image_extent: vk::Extent3D,
}

/// A layout transition of a whole image.
#[derive(Clone, Copy, PartialEq, Eq, Structural, Debug)]
pub struct ImageMemoryBarrier {
    pub src_access_mask: u32,
    pub dst_access_mask: u32,
    pub old_layout: vk::ImageLayout,
    pub new_layout: vk::ImageLayout,
    pub src_queue_family_index: u32,
    pub dst_queue_family_index: u32,
    pub image: vk::Image,
    pub subresource_range: vk::ImageSubresourceRange,
}

/// One command recorded into a command buffer. Pipelines and descriptor
/// sets are always bound at the graphics bind point, index buffers hold
/// 32-bit indices, and a render pass's commands are recorded inline.
#[derive(Clone, Copy, PartialEq, Eq, Structural, Debug)]
pub enum Command {
    SetViewport { width: u32, height: u32 },
    SetScissor(vk::Rect2D),
    BindPipeline(vk::Pipeline),
    BindDescriptorSets {
        layout: vk::PipelineLayout,
        first_set: u32,
        descriptor_set: vk::DescriptorSet,
        dynamic_offset: Option<u32>,
    },
    BindVertexBuffer { first_binding: u32, buffer: vk::Buffer, offset: u64 },
    BindIndexBuffer { buffer: vk::Buffer, offset: u64 },
    DrawIndexed {
        index_count: u32,
        instance_count: u32,
        first_index: u32,
        vertex_offset: i32,
        first_instance: u32,
    },
    EndRenderPass,
    PipelineBarrier { src_stage_mask: u32, dst_stage_mask: u32, barrier: ImageMemoryBarrier },
    CopyBuffer { src: vk::Buffer, dst: vk::Buffer, region: BufferCopy },
    CopyBufferToImage {
        src_buffer: vk::Buffer,
        dst_image: vk::Image,
        dst_image_layout: vk::ImageLayout,
        image_region: BufferImageCopy,
    },
}

/// Everything recorded into one command buffer between its begin and its
/// end: optionally the begin of a render pass, then the commands.
#[derive(Clone, PartialEq, Eq, Debug)]
pub struct Recording {
    pub command_buffer: vk::CommandBuffer,
    /// The usage mask the command buffer is begun with.
    pub usage: u32,
    pub render_pass_begin: Option<RenderPassBeginInfo>,
    pub commands: Vec<Command>,
}

/// A copy of a sequence of commands.
pub fn copy_commands(commands: &Vec<Command>) -> (copy: Vec<Command>)
    ensures
        copy@ == commands@,
{
    let mut copy: Vec<Command> = Vec::new();
    let mut i: usize = 0;
    while i < commands.len()
        invariant
            i <= commands.len(),
            copy@ == commands@.subrange(0, i as int),
        decreases commands.len() - i,
    {
        copy.push(commands[i]);
        i += 1;
        assert(copy@ =~= commands@.subrange(0, i as int));
    }
    assert(commands@.subrange(0, commands.len() as int) =~= commands@);
    copy
}

/// Records `body` into a command buffer that is begun for simultaneous use,
/// so that it can be submitted every frame without being recorded again.
/// No render pass is begun: what draws into a pass is recorded by the pass.
pub fn record_off_screen(command_buffer: vk::CommandBuffer, body: &Vec<Command>) -> (recording:
    Recording)
    ensures
        recording.command_buffer == command_buffer,
        recording.usage == vk::COMMAND_BUFFER_USAGE_SIMULTANEOUS_USE_BIT,
        recording.render_pass_begin is None,
        recording.commands@ == body@,
{
    Recording {
        command_buffer,
        usage: vk::COMMAND_BUFFER_USAGE_SIMULTANEOUS_USE_BIT,
        render_pass_begin: None,
        commands: copy_commands(body),
    }
}

/// One batch handed to the queue.
#[derive(Clone, PartialEq, Eq, Debug)]
pub struct SubmitInfo {
    pub wait_semaphores: Vec<vk::Semaphore>,
    pub wait_dst_stage_mask: Vec<u32>,
    pub command_buffer: vk::CommandBuffer,
    pub signal_semaphores: Vec<vk::Semaphore>,
}

/// A step of the one-shot submission protocol. The fence is the one that
/// `CreateFence` made; it lives only for the duration of the protocol.
#[derive(Clone, PartialEq, Eq, Debug)]
pub enum SubmitStep {
    ResetCommandBuffer { command_buffer: vk::CommandBuffer, flags: u32 },
    Record(Recording),
    CreateFence,
    /// Submit the batch; the queue signals the fence when it completes.
    QueueSubmit(SubmitInfo),
    /// Block until the fence is signalled, for at most `timeout` nanoseconds.
    WaitForFence { timeout: u64 },
    DestroyFence,
}

fn copy_semaphores(semaphores: &Vec<vk::Semaphore>) -> (copy: Vec<vk::Semaphore>)
    ensures
        copy@ == semaphores@,
{
    let mut copy: Vec<vk::Semaphore> = Vec::new();
    let mut i: usize = 0;
    while i < semaphores.len()
        invariant
            i <= semaphores.len(),
            copy@ == semaphores@.subrange(0, i as int),
        decreases semaphores.len() - i,
    {
        copy.push(semaphores[i]);
        i += 1;
        assert(copy@ =~= semaphores@.subrange(0, i as int));
    }
    assert(semaphores@.subrange(0, semaphores.len() as int) =~= semaphores@);
    copy
}

fn copy_masks(masks: &Vec<u32>) -> (copy: Vec<u32>)
    ensures
        copy@ == masks@,
{
    let mut copy: Vec<u32> = Vec::new();
    let mut i: usize = 0;
    while i < masks.len()
        invariant
            i <= masks.len(),
            copy@ == masks@.subrange(0, i as int),
        decreases masks.len() - i,
    {
        copy.push(masks[i]);
        i += 1;
        assert(copy@ =~= masks@.subrange(0, i as int));
    }
    assert(masks@.subrange(0, masks.len() as int) =~= masks@);
    copy
}

/// Whether `steps` is the one-shot protocol for the given command buffer,
/// semaphores and body: reset, record for one-time submission, create the
/// fence, submit with it, wait for it without a time limit, destroy it.
pub open spec fn is_one_shot_submission(
    steps: Seq<SubmitStep>,
    command_buffer: vk::CommandBuffer,
    wait_mask: Seq<u32>,
    wait_semaphores: Seq<vk::Semaphore>,
    signal_semaphores: Seq<vk::Semaphore>,
    body: Seq<Command>,
) -> bool {
    &&& steps.len() == 6
    &&& steps[0] == (SubmitStep::ResetCommandBuffer {
        command_buffer,
        flags: vk::COMMAND_BUFFER_RESET_RELEASE_RESOURCES_BIT,
    })
    &&& steps[1] matches SubmitStep::Record(recording)
    &&& recording.command_buffer == command_buffer
    &&& recording.usage == vk::COMMAND_BUFFER_USAGE_ONE_TIME_SUBMIT_BIT
    &&& recording.render_pass_begin is None
    &&& recording.commands@ == body
    &&& steps[2] == SubmitStep::CreateFence
    &&& steps[3] matches SubmitStep::QueueSubmit(info)
    &&& info.wait_semaphores@ == wait_semaphores
    &&& info.wait_dst_stage_mask@ == wait_mask
    &&& info.command_buffer == command_buffer
    &&& info.signal_semaphores@ == signal_semaphores
    &&& steps[4] == (SubmitStep::WaitForFence { timeout: u64::MAX })
    &&& steps[5] == SubmitStep::DestroyFence
}

/// The steps that record `body` into `command_buffer` once and run it to
/// completion, in the order in which they have to be carried out.
pub fn record_submit_commandbuffer(
    command_buffer: vk::CommandBuffer,
    wait_mask: &Vec<u32>,
    wait_semaphores: &Vec<vk::Semaphore>,
    signal_semaphores: &Vec<vk::Semaphore>,
    body: &Vec<Command>,
) -> (steps: Vec<SubmitStep>)
    ensures
        is_one_shot_submission(
            steps@,
            command_buffer,
            wait_mask@,
            wait_semaphores@,
            signal_semaphores@,
            body@,
        ),
{
    let recording = Recording {
        command_buffer,
        usage: vk::COMMAND_BUFFER_USAGE_ONE_TIME_SUBMIT_BIT,
        render_pass_begin: None,
        commands: copy_commands(body),
    };
    let info = SubmitInfo {
        wait_semaphores: copy_semaphores(wait_semaphores),
        wait_dst_stage_mask: copy_masks(wait_mask),
        command_buffer,
        signal_semaphores: copy_semaphores(signal_semaphores),
    };
    let mut steps: Vec<SubmitStep> = Vec::new();
    steps.push(
        SubmitStep::ResetCommandBuffer {
            command_buffer,
            flags: vk::COMMAND_BUFFER_RESET_RELEASE_RESOURCES_BIT,
        },
    );
    steps.push(SubmitStep::Record(recording));
    steps.push(SubmitStep::CreateFence);
    steps.push(SubmitStep::QueueSubmit(info));
    steps.push(SubmitStep::WaitForFence { timeout: u64::MAX });
    steps.push(SubmitStep::DestroyFence);
    steps
}

/// What a command pool is created with.
#[derive(Clone, Copy, PartialEq, Eq, Structural, Debug)]
pub struct CommandPoolCreateInfo {
    pub flags: u32,
    pub queue_family_index: u32,
}

/// A request for `command_buffer_count` primary command buffers.
#[derive(Clone, Copy, PartialEq, Eq, Structural, Debug)]
pub struct CommandBufferAllocateInfo {
    pub command_pool: vk::CommandPool,
    pub command_buffer_count: u32,
}

/// The number of command buffers the pool keeps besides the draw buffers.
pub const FIXED_COMMAND_BUFFERS: u32 = 3;

/// The engine's command buffers: one per swapchain image for drawing, two
/// for one-shot setup work and one for the offscreen pass.
#[derive(Clone, PartialEq, Eq, Debug)]
pub struct Pool {
    pub pool: vk::CommandPool,
    pub draw_command_buffer: Vec<vk::CommandBuffer>,
    pub setup_command_buffer: vk::CommandBuffer,
    pub g_buffer_setup: vk::CommandBuffer,
    pub off_screen_command_buffer: vk::CommandBuffer,
}

impl Pool {
    /// The pool lets each of its buffers be reset on its own and serves the
    /// device's queue family.
    pub fn create_info(queue_family_index: u32) -> (info: CommandPoolCreateInfo)
        ensures
            info == (CommandPoolCreateInfo {
                flags: vk::COMMAND_POOL_CREATE_RESET_COMMAND_BUFFER_BIT,
                queue_family_index,
            }),
    {
        CommandPoolCreateInfo {
            flags: vk::COMMAND_POOL_CREATE_RESET_COMMAND_BUFFER_BIT,
            queue_family_index,
        }
    }

    /// The two allocations made from the pool: first the fixed buffers,
    /// then `draw_buffer_num` draw buffers.
    pub fn allocate_infos(pool: vk::CommandPool, draw_buffer_num: u32) -> (infos: (
        CommandBufferAllocateInfo,
        CommandBufferAllocateInfo,
    ))
        ensures
            infos.0 == (CommandBufferAllocateInfo {
                command_pool: pool,
                command_buffer_count: FIXED_COMMAND_BUFFERS,
            }),
            infos.1 == (CommandBufferAllocateInfo {
                command_pool: pool,
                command_buffer_count: draw_buffer_num,
            }),
    {
        (
            CommandBufferAllocateInfo {
                command_pool: pool,
                command_buffer_count: FIXED_COMMAND_BUFFERS,
            },
            CommandBufferAllocateInfo { command_pool: pool, command_buffer_count: draw_buffer_num },
        )
    }

    /// Takes over the buffers the two allocations returned. The fixed
    /// buffers are, in order, the setup buffer, the offscreen buffer and the
    /// setup buffer of the geometry pass. Nothing is taken over unless the
    /// driver returned as many buffers as were asked for.
    pub fn assemble(
        pool: vk::CommandPool,
        draw_buffer_num: u32,
        command_buffers: &Vec<vk::CommandBuffer>,
        draw_command_buffers: Vec<vk::CommandBuffer>,
    ) -> (made: Option<Pool>)
        ensures
            made is Some <==> command_buffers@.len() == FIXED_COMMAND_BUFFERS
                && draw_command_buffers@.len() == draw_buffer_num,
            made matches Some(p) ==> {
                &&& p.pool == pool
                &&& p.setup_command_buffer == command_buffers@[0]
                &&& p.off_screen_command_buffer == command_buffers@[1]
                &&& p.g_buffer_setup == command_buffers@[2]
                &&& p.draw_command_buffer@ == draw_command_buffers@
            },
    {
        if command_buffers.len() != 3 || draw_command_buffers.len() != draw_buffer_num as usize {
            return None;
        }
        Some(
            Pool {
                pool,
                draw_command_buffer: draw_command_buffers,
                setup_command_buffer: command_buffers[0],
                g_buffer_setup: command_buffers[2],
                off_screen_command_buffer: command_buffers[1],
            },
        )
    }

    /// The objects the pool owns.
    pub open spec fn owned(&self) -> Seq<vk::Object> {
        seq![vk::Object::CommandPool(self.pool)]
    }

    /// What has to be destroyed to release the pool. Its command buffers go
    /// with it.
    pub fn release(&self) -> (objects: Vec<vk::Object>)
        ensures
            objects@ == self.owned(),
    {
        let mut objects: Vec<vk::Object> = Vec::new();
        objects.push(vk::Object::CommandPool(self.pool));
        objects
    }
}

} // verus!
