//! Building the fixed geometry buffer, request by request.
//!
//! The conversation is: the sampler; the four attachments in one memory
//! block; the pass that fills them; the framebuffer; the uniform buffer of
//! the lights; the lighting shader; and the plane the lighting shader is
//! drawn on.
use vstd::prelude::*;
use crate::vk;
use crate::buffer_plan::uniform_plans;
use crate::deferred::{g_buffer_requests, lighting_uniforms, GBuffer};
use crate::driver::{
    framebuffer_in, part, part_of, pass_on, passes_on, render_pass_in, sampler_in, PlanError,
    Reply, Request, Step,
};
use crate::g_buffer::{is_render_pass_info, Attachment};
use crate::memory::{MemoryType, PhysicalDeviceMemoryProperties};
use crate::mesh::{Mesh, MeshSizes};
use crate::mesh_plan::MeshInputs;
use crate::pass_plan::AttachmentInputs;
use crate::renderer::geometry_requests;
use crate::shader::{Shader, VertexLayout};
use crate::shader_plan::ShaderInputs;
use crate::uniform::{UniformBuffer, UniformDescriptor};

verus! {

/// What the geometry buffer is built from, besides the memory types of the
/// device.
pub struct GBufferInputs {
    pub resolution: vk::Extent2D,
    /// The pass in which the lighting shader draws.
    pub render_pass: vk::RenderPassHandle,
    /// The command buffer for uploading the plane.
    pub command_buffer: vk::CommandBuffer,
    /// The compiled fragment stage of the lighting shader.
    pub frag_bytes: Vec<u8>,
    /// The compiled vertex stage of the lighting shader.
    pub vertex_bytes: Vec<u8>,
    pub vertex: VertexLayout,
    pub plane: MeshSizes,
}

impl GBufferInputs {
    /// The number of requests it takes to build the geometry buffer.
    pub open spec fn total(self) -> int {
        48
    }

    /// What the attachments are built from, once there is a sampler.
    pub open spec fn attachment_inputs(self, table: Seq<MemoryType>, replies: Seq<Reply>) -> AttachmentInputs {
        AttachmentInputs {
            extent: self.resolution,
            sampler: sampler_in(replies[0]),
            req: g_buffer_requests(),
            memory_types: table,
        }
    }

    /// What the lighting shader is built from, once there are the
    /// attachments and the lights.
    pub open spec fn shader_inputs(self, attachments: Seq<Attachment>, lights: UniformBuffer) -> ShaderInputs {
        ShaderInputs {
            resolution: self.resolution,
            render_pass: self.render_pass,
            frag_bytes: self.frag_bytes@,
            vertex_bytes: self.vertex_bytes@,
            vertex: self.vertex,
            deferred: false,
            uniforms: lighting_uniforms(attachments[0], attachments[1], attachments[2], lights),
        }
    }

    /// What the plane is built from.
    pub open spec fn plane_inputs(self, table: Seq<MemoryType>) -> MeshInputs {
        MeshInputs { sizes: self.plane, command_buffer: self.command_buffer, memory_types: table }
    }

    /// Whether `step` is the planner's answer to `replies`, where the
    /// lights are a value of type `L`: the sampler is asked for first, and
    /// then the attachments.
    pub open spec fn plans<L>(self, table: Seq<MemoryType>, replies: Seq<Reply>, step: Step<GBuffer>) -> bool {
        if replies.len() == 0 {
            step == Step::<GBuffer>::Ask(Request::CreateSampler(GBuffer::sampler_request()))
        } else if !(replies[0] is Sampler) {
            step == Step::<GBuffer>::Fail(PlanError::UnexpectedReply(0))
        } else {
            exists|inner: Step<(Vec<Attachment>, vk::DeviceMemory)>|
                {
                    &&& #[trigger] self.attachment_inputs(table, replies).plans(
                        part(replies, 1, 13),
                        inner,
                    )
                    &&& match inner {
                        Step::Done(built) => self.plans_pass::<L>(
                            table,
                            replies,
                            built.0@,
                            built.1,
                            step,
                        ),
                        _ => passes_on(inner, 1, None, step),
                    }
                }
        }
    }

    /// Whether `step` is the planner's answer to `replies` once there are
    /// the attachments: the pass and the framebuffer are asked for, and
    /// then the uniform buffer of the lights.
    pub open spec fn plans_pass<L>(
        self,
        table: Seq<MemoryType>,
        replies: Seq<Reply>,
        attachments: Seq<Attachment>,
        memory: vk::DeviceMemory,
        step: Step<GBuffer>,
    ) -> bool {
        if replies.len() == 14 {
            &&& step matches Step::Ask(Request::CreateRenderPass(info))
            &&& is_render_pass_info(info, geometry_requests().0, geometry_requests().1)
        } else if !(replies[14] is RenderPass) {
            step == Step::<GBuffer>::Fail(PlanError::UnexpectedReply(14))
        } else if replies.len() == 15 {
            &&& step matches Step::Ask(Request::CreateFramebuffer(info))
            &&& info.render_pass == render_pass_in(replies[14])
            &&& info.attachments@ == Seq::new(4, |j: int| attachments[j].descriptor.image_view)
            &&& info.width == self.resolution.width
            &&& info.height == self.resolution.height
            &&& info.layers == 1
        } else if !(replies[15] is Framebuffer) {
            step == Step::<GBuffer>::Fail(PlanError::UnexpectedReply(15))
        } else {
            exists|inner: Step<UniformBuffer>|
                {
                    &&& #[trigger] uniform_plans::<L>(table, part(replies, 16, 4), inner)
                    &&& match inner {
                        Step::Done(lights) => self.plans_shader(
                            table,
                            replies,
                            attachments,
                            memory,
                            lights,
                            step,
                        ),
                        _ => passes_on(inner, 16, None, step),
                    }
                }
        }
    }

    /// Whether `step` is the planner's answer to `replies` once there are
    /// the lights: the lighting shader is built, and then the plane.
    pub open spec fn plans_shader(
        self,
        table: Seq<MemoryType>,
        replies: Seq<Reply>,
        attachments: Seq<Attachment>,
        memory: vk::DeviceMemory,
        lights: UniformBuffer,
        step: Step<GBuffer>,
    ) -> bool {
        exists|inner: Step<Shader>|
            {
                &&& #[trigger] self.shader_inputs(attachments, lights).plans(
                    part(replies, 20, 10),
                    inner,
                )
                &&& match inner {
                    Step::Done(shader) => self.plans_plane(
                        table,
                        replies,
                        attachments,
                        memory,
                        shader,
                        step,
                    ),
                    _ => passes_on(inner, 20, None, step),
                }
            }
    }

    /// Whether `step` is the planner's answer to `replies` once there is
    /// the lighting shader: the plane is built, and with it the geometry
    /// buffer is complete.
    pub open spec fn plans_plane(
        self,
        table: Seq<MemoryType>,
        replies: Seq<Reply>,
        attachments: Seq<Attachment>,
        memory: vk::DeviceMemory,
        shader: Shader,
        step: Step<GBuffer>,
    ) -> bool {
        exists|inner: Step<Mesh>|
            {
                &&& #[trigger] self.plane_inputs(table).plans(part(replies, 30, 18), inner)
                &&& match inner {
                    Step::Done(mesh) => if replies.len() > self.total() {
                        step == Step::<GBuffer>::Fail(PlanError::UnexpectedReply(48))
                    } else {
                        step == Step::Done(
                            GBuffer {
                                depth: attachments[3],
                                resolution: self.resolution,
                                deferred_render_pass: render_pass_in(replies[14]),
                                sampler: sampler_in(replies[0]),
                                frame_buffer: framebuffer_in(replies[15]),
                                shader,
                                mesh,
                                position: attachments[0],
                                normal: attachments[1],
                                albedo: attachments[2],
                                memory,
                            },
                        )
                    },
                    _ => passes_on(inner, 30, None, step),
                }
            }
    }
}

impl GBuffer {
    /// The next step in building the geometry buffer, after the answers in
    /// `replies`. The lights are a value of type `L`.
    pub fn create_g_buffer<L>(
        inputs: &GBufferInputs,
        memory_prop: &PhysicalDeviceMemoryProperties,
        replies: &[Reply],
    ) -> (step: Step<GBuffer>)
        ensures
            inputs.plans::<L>(memory_prop@, replies@, step),
    {
        if replies.len() == 0 {
            return Step::Ask(Request::CreateSampler(GBuffer::sampler_info()));
        }
        let sampler = match replies[0] {
            Reply::Sampler(sampler) => sampler,
            _ => {
                return Step::Fail(PlanError::UnexpectedReply(0));
            },
        };
        let req = GBuffer::attachment_requests();
        let inner = Attachment::create_attachments(
            inputs.resolution,
            sampler,
            &req,
            memory_prop,
            part_of(replies, 1, 13),
        );
        let ghost seen = inner;
        assert(inputs.attachment_inputs(memory_prop@, replies@).plans(part(replies@, 1, 13), seen));
        match inner {
            Step::Done((attachments, memory)) => GBuffer::plan_pass::<L>(
                inputs,
                memory_prop,
                replies,
                sampler,
                attachments,
                memory,
            ),
            other => pass_on(other, 1, None),
        }
    }

    fn plan_pass<L>(
        inputs: &GBufferInputs,
        memory_prop: &PhysicalDeviceMemoryProperties,
        replies: &[Reply],
        sampler: vk::Sampler,
        attachments: Vec<Attachment>,
        memory: vk::DeviceMemory,
    ) -> (step: Step<GBuffer>)
        requires
            replies@.len() >= 14,
            replies@[0] == Reply::Sampler(sampler),
            attachments@.len() == 4,
        ensures
            inputs.plans_pass::<L>(memory_prop@, replies@, attachments@, memory, step),
    {
        if replies.len() == 14 {
            return Step::Ask(Request::CreateRenderPass(GBuffer::render_pass_info()));
        }
        let deferred_render_pass = match replies[14] {
            Reply::RenderPass(pass) => pass,
            _ => {
                return Step::Fail(PlanError::UnexpectedReply(14));
            },
        };
        if replies.len() == 15 {
            let info = GBuffer::framebuffer_info(
                deferred_render_pass,
                inputs.resolution,
                &attachments[0],
                &attachments[1],
                &attachments[2],
                &attachments[3],
            );
            assert(info.attachments@ =~= Seq::new(
                4,
                |j: int| attachments@[j].descriptor.image_view,
            ));
            return Step::Ask(Request::CreateFramebuffer(info));
        }
        let frame_buffer = match replies[15] {
            Reply::Framebuffer(frame_buffer) => frame_buffer,
            _ => {
                return Step::Fail(PlanError::UnexpectedReply(15));
            },
        };
        let inner = UniformBuffer::init::<L>(memory_prop, part_of(replies, 16, 4));
        let ghost seen = inner;
        assert(uniform_plans::<L>(memory_prop@, part(replies@, 16, 4), seen));
        match inner {
            Step::Done(lights) => {
                let uniforms = GBuffer::uniforms(
                    &attachments[0],
                    &attachments[1],
                    &attachments[2],
                    &lights,
                );
                GBuffer::plan_shader(
                    inputs,
                    memory_prop,
                    replies,
                    (sampler, deferred_render_pass, frame_buffer),
                    attachments,
                    memory,
                    Ghost(lights),
                    uniforms,
                )
            },
            other => pass_on(other, 16, None),
        }
    }

    fn plan_shader(
        inputs: &GBufferInputs,
        memory_prop: &PhysicalDeviceMemoryProperties,
        replies: &[Reply],
        made: (vk::Sampler, vk::RenderPassHandle, vk::Framebuffer),
        attachments: Vec<Attachment>,
        memory: vk::DeviceMemory,
        Ghost(lights): Ghost<UniformBuffer>,
        uniforms: Vec<UniformDescriptor>,
    ) -> (step: Step<GBuffer>)
        requires
            replies@.len() >= 20,
            replies@[0] == Reply::Sampler(made.0),
            replies@[14] == Reply::RenderPass(made.1),
            replies@[15] == Reply::Framebuffer(made.2),
            attachments@.len() == 4,
            uniforms@ == lighting_uniforms(attachments@[0], attachments@[1], attachments@[2], lights),
        ensures
            inputs.plans_shader(memory_prop@, replies@, attachments@, memory, lights, step),
    {
        let inner = Shader::from_spriv(
            inputs.resolution,
            inputs.render_pass,
            &inputs.frag_bytes,
            &inputs.vertex_bytes,
            inputs.vertex,
            false,
            &uniforms,
            part_of(replies, 20, 10),
        );
        let ghost seen = inner;
        assert(inputs.shader_inputs(attachments@, lights).plans(part(replies@, 20, 10), seen));
        match inner {
            Step::Done(shader) => GBuffer::plan_plane(
                inputs,
                memory_prop,
                replies,
                made,
                attachments,
                memory,
                shader,
            ),
            other => pass_on(other, 20, None),
        }
    }

    fn plan_plane(
        inputs: &GBufferInputs,
        memory_prop: &PhysicalDeviceMemoryProperties,
        replies: &[Reply],
        made: (vk::Sampler, vk::RenderPassHandle, vk::Framebuffer),
        attachments: Vec<Attachment>,
        memory: vk::DeviceMemory,
        shader: Shader,
    ) -> (step: Step<GBuffer>)
        requires
            replies@.len() >= 30,
            replies@[0] == Reply::Sampler(made.0),
            replies@[14] == Reply::RenderPass(made.1),
            replies@[15] == Reply::Framebuffer(made.2),
            attachments@.len() == 4,
            shader.wf(),
        ensures
            inputs.plans_plane(memory_prop@, replies@, attachments@, memory, shader, step),
    {
        let inner = Mesh::new(
            inputs.plane,
            inputs.command_buffer,
            memory_prop,
            part_of(replies, 30, 18),
        );
        let ghost seen = inner;
        assert(inputs.plane_inputs(memory_prop@).plans(part(replies@, 30, 18), seen));
        match inner {
            Step::Done(mesh) => {
                if replies.len() > 48 {
                    return Step::Fail(PlanError::UnexpectedReply(48));
                }
                match GBuffer::assemble(
                    inputs.resolution,
                    made.0,
                    memory,
                    made.1,
                    made.2,
                    &attachments,
                    shader,
                    mesh,
                ) {
                    Some(g_buffer) => Step::Done(g_buffer),
                    None => unreached(),
                }
            },
            other => pass_on(other, 30, None),
        }
    }
}

} // verus!
