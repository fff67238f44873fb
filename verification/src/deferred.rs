//! The geometry buffer as one fixed unit: position, normal and albedo
//! attachments with their depth, the pass that fills them, and the shader
//! and plane that light the scene from them.
use vstd::prelude::*;
use crate::vk;
use crate::g_buffer::{
    is_render_pass_info, Attachment, FramebufferCreateInfo, RenderPass, RenderPassCreateInfo,
};
use crate::mesh::Mesh;
use crate::renderer::{geometry_requests, lighting_commands, Renderer};
use crate::shader::Shader;
use crate::uniform::{Uniform, UniformBuffer, UniformDescriptor};
use crate::vk_commands::{
    clear_values, clear_values_of, Command, Pool, Recording, RenderPassBeginInfo,
};

verus! {

/// The geometry buffer.
#[derive(Clone, PartialEq, Eq, Debug)]
pub struct GBuffer {
    pub depth: Attachment,
    pub resolution: vk::Extent2D,
    pub deferred_render_pass: vk::RenderPassHandle,
    pub sampler: vk::Sampler,
    pub frame_buffer: vk::Framebuffer,
    pub shader: Shader,
    pub mesh: Mesh,
    pub position: Attachment,
    pub normal: Attachment,
    pub albedo: Attachment,
    pub memory: vk::DeviceMemory,
}

/// The requests for the four attachments of the geometry buffer, in the
/// order position, normal, albedo, depth.
pub open spec fn g_buffer_requests() -> Seq<(i32, u32)> {
    seq![
        (vk::FORMAT_R16G16B16A16_SFLOAT, vk::IMAGE_USAGE_COLOR_ATTACHMENT_BIT),
        (vk::FORMAT_R16G16B16A16_SFLOAT, vk::IMAGE_USAGE_COLOR_ATTACHMENT_BIT),
        (vk::FORMAT_R8G8B8A8_UNORM, vk::IMAGE_USAGE_COLOR_ATTACHMENT_BIT),
        (vk::FORMAT_D16_UNORM, vk::IMAGE_USAGE_DEPTH_STENCIL_ATTACHMENT_BIT),
    ]
}

/// Whether `recording` begins `render_pass` on `frame_buffer`, clearing
/// `colours` colour attachments and depth, draws the body, and ends the
/// pass.
pub open spec fn is_pass_recording(
    recording: Recording,
    command_buffer: vk::CommandBuffer,
    render_pass: vk::RenderPassHandle,
    frame_buffer: vk::Framebuffer,
    resolution: vk::Extent2D,
    colours: nat,
    body: Seq<Command>,
) -> bool {
    &&& recording.command_buffer == command_buffer
    &&& recording.usage == vk::COMMAND_BUFFER_USAGE_SIMULTANEOUS_USE_BIT
    &&& recording.render_pass_begin matches Some(begin)
    &&& begin.render_pass == render_pass
    &&& begin.framebuffer == frame_buffer
    &&& begin.render_area == (vk::Rect2D { offset: vk::Offset2D { x: 0, y: 0 }, extent: resolution })
    &&& begin.clear_values@ == clear_values_of(colours)
    &&& recording.commands@ == body.push(Command::EndRenderPass)
}

/// The uniforms of the lighting shader: position, normal and albedo at
/// bindings 1 to 3 and the lights at binding 4, all for the fragment stage
/// and in descriptor set zero.
pub open spec fn lighting_uniforms(
    position: Attachment,
    normal: Attachment,
    albedo: Attachment,
    lights: UniformBuffer,
) -> Seq<UniformDescriptor> {
    seq![
        UniformDescriptor {
            data: position.uniform_info(),
            stage: vk::SHADER_STAGE_FRAGMENT_BIT,
            binding: 1,
            set: 0,
        },
        UniformDescriptor {
            data: normal.uniform_info(),
            stage: vk::SHADER_STAGE_FRAGMENT_BIT,
            binding: 2,
            set: 0,
        },
        UniformDescriptor {
            data: albedo.uniform_info(),
            stage: vk::SHADER_STAGE_FRAGMENT_BIT,
            binding: 3,
            set: 0,
        },
        UniformDescriptor {
            data: lights.uniform_info(),
            stage: vk::SHADER_STAGE_FRAGMENT_BIT,
            binding: 4,
            set: 0,
        },
    ]
}

impl GBuffer {
    /// The sampler through which the lighting pass reads the attachments.
    pub open spec fn sampler_request() -> vk::SamplerCreateInfo {
        vk::SamplerCreateInfo {
            mag_filter: vk::Filter::Nearest,
            min_filter: vk::Filter::Nearest,
            address_mode: vk::SamplerAddressMode::ClampToEdge,
            max_lod: vk::F32_ONE,
            max_anisotropy: vk::F32_ZERO,
        }
    }

    /// The sampler through which the lighting pass reads the attachments.
    pub fn sampler_info() -> (info: vk::SamplerCreateInfo)
        ensures
            info == GBuffer::sampler_request(),
    {
        vk::SamplerCreateInfo {
            mag_filter: vk::Filter::Nearest,
            min_filter: vk::Filter::Nearest,
            address_mode: vk::SamplerAddressMode::ClampToEdge,
            max_lod: vk::F32_ONE,
            max_anisotropy: vk::F32_ZERO,
        }
    }

    /// The attachments the geometry buffer asks for.
    pub fn attachment_requests() -> (req: Vec<(i32, u32)>)
        ensures
            req@ == g_buffer_requests(),
    {
        let mut req: Vec<(i32, u32)> = Vec::new();
        req.push((vk::FORMAT_R16G16B16A16_SFLOAT, vk::IMAGE_USAGE_COLOR_ATTACHMENT_BIT));
        req.push((vk::FORMAT_R16G16B16A16_SFLOAT, vk::IMAGE_USAGE_COLOR_ATTACHMENT_BIT));
        req.push((vk::FORMAT_R8G8B8A8_UNORM, vk::IMAGE_USAGE_COLOR_ATTACHMENT_BIT));
        req.push((vk::FORMAT_D16_UNORM, vk::IMAGE_USAGE_DEPTH_STENCIL_ATTACHMENT_BIT));
        req
    }

    /// The pass that fills the geometry buffer.
    pub fn render_pass_info() -> (info: RenderPassCreateInfo)
        ensures
            is_render_pass_info(info, geometry_requests().0, geometry_requests().1),
    {
        let (colour, depth) = Renderer::g_buffer_requests();
        RenderPass::create_info(&colour, depth)
    }

    /// The one framebuffer of the geometry buffer: the views of position,
    /// normal, albedo and depth, in this order.
    pub fn framebuffer_info(
        deferred_render_pass: vk::RenderPassHandle,
        resolution: vk::Extent2D,
        position: &Attachment,
        normal: &Attachment,
        albedo: &Attachment,
        depth: &Attachment,
    ) -> (info: FramebufferCreateInfo)
        ensures
            info.render_pass == deferred_render_pass,
            info.attachments@ == seq![
                position.descriptor.image_view,
                normal.descriptor.image_view,
                albedo.descriptor.image_view,
                depth.descriptor.image_view,
            ],
            info.width == resolution.width,
            info.height == resolution.height,
            info.layers == 1,
    {
        let mut attachments: Vec<vk::ImageView> = Vec::new();
        attachments.push(position.descriptor.image_view);
        attachments.push(normal.descriptor.image_view);
        attachments.push(albedo.descriptor.image_view);
        attachments.push(depth.descriptor.image_view);
        FramebufferCreateInfo {
            render_pass: deferred_render_pass,
            attachments,
            width: resolution.width,
            height: resolution.height,
            layers: 1,
        }
    }

    /// The uniforms of the lighting shader.
    pub fn uniforms(
        position: &Attachment,
        normal: &Attachment,
        albedo: &Attachment,
        lights: &UniformBuffer,
    ) -> (uniforms: Vec<UniformDescriptor>)
        ensures
            uniforms@ == lighting_uniforms(*position, *normal, *albedo, *lights),
    {
        let mut uniforms: Vec<UniformDescriptor> = Vec::new();
        uniforms.push(UniformDescriptor::new(position, vk::SHADER_STAGE_FRAGMENT_BIT, 1, 0));
        uniforms.push(UniformDescriptor::new(normal, vk::SHADER_STAGE_FRAGMENT_BIT, 2, 0));
        uniforms.push(UniformDescriptor::new(albedo, vk::SHADER_STAGE_FRAGMENT_BIT, 3, 0));
        uniforms.push(UniformDescriptor::new(lights, vk::SHADER_STAGE_FRAGMENT_BIT, 4, 0));
        uniforms
    }

    /// The lighting shader and the plane can be drawn with.
    pub open spec fn wf(&self) -> bool {
        &&& self.shader.wf()
        &&& self.mesh.wf()
    }

    /// Whether the lighting shader and the plane can be drawn with.
    pub fn is_well_formed(&self) -> (ok: bool)
        ensures
            ok == self.wf(),
    {
        self.shader.is_well_formed() && self.mesh.is_well_formed()
    }

    /// The geometry buffer made of what was created for it. `attachments`
    /// are position, normal, albedo and depth, in this order. Nothing is
    /// returned unless there are exactly these four and the shader and the
    /// plane can be drawn with.
    pub fn assemble(
        resolution: vk::Extent2D,
        sampler: vk::Sampler,
        memory: vk::DeviceMemory,
        deferred_render_pass: vk::RenderPassHandle,
        frame_buffer: vk::Framebuffer,
        attachments: &Vec<Attachment>,
        shader: Shader,
        mesh: Mesh,
    ) -> (made: Option<GBuffer>)
        ensures
            made is Some <==> attachments@.len() == 4 && shader.wf() && mesh.wf(),
            made matches Some(g) ==> {
                &&& g.wf()
                &&& g.position == attachments@[0]
                &&& g.normal == attachments@[1]
                &&& g.albedo == attachments@[2]
                &&& g.depth == attachments@[3]
                &&& g.resolution == resolution
                &&& g.sampler == sampler
                &&& g.memory == memory
                &&& g.deferred_render_pass == deferred_render_pass
                &&& g.frame_buffer == frame_buffer
                &&& g.shader == shader
                &&& g.mesh == mesh
            },
    {
        if attachments.len() != 4 || !shader.is_well_formed() || !mesh.is_well_formed() {
            return None;
        }
        Some(
            GBuffer {
                depth: attachments[3],
                resolution,
                deferred_render_pass,
                sampler,
                frame_buffer,
                shader,
                mesh,
                position: attachments[0],
                normal: attachments[1],
                albedo: attachments[2],
                memory,
            },
        )
    }

    /// The commands of a pass that draws the mesh with the shader, with
    /// the end of the pass.
    fn pass_body(shader: &Shader, mesh: &Mesh) -> (commands: Vec<Command>)
        requires
            shader.wf(),
            mesh.wf(),
        ensures
            commands@ == lighting_commands(*shader, *mesh).push(Command::EndRenderPass),
    {
        let mut commands = Renderer::present_commands(shader, mesh);
        commands.push(Command::EndRenderPass);
        commands
    }

    /// What to record into the pool's offscreen command buffer: the scene
    /// mesh drawn with the scene shader into the geometry buffer, with the
    /// three colour attachments and depth cleared first.
    pub fn build_scene_command_buffer(&self, pool: &Pool, mesh: &Mesh, shader: &Shader) -> (recording:
        Recording)
        requires
            shader.wf(),
            mesh.wf(),
        ensures
            is_pass_recording(
                recording,
                pool.off_screen_command_buffer,
                self.deferred_render_pass,
                self.frame_buffer,
                self.resolution,
                3,
                lighting_commands(*shader, *mesh),
            ),
    {
        Recording {
            command_buffer: pool.off_screen_command_buffer,
            usage: vk::COMMAND_BUFFER_USAGE_SIMULTANEOUS_USE_BIT,
            render_pass_begin: Some(
                RenderPassBeginInfo {
                    render_pass: self.deferred_render_pass,
                    framebuffer: self.frame_buffer,
                    render_area: vk::Rect2D {
                        offset: vk::Offset2D { x: 0, y: 0 },
                        extent: self.resolution,
                    },
                    clear_values: clear_values(3),
                },
            ),
            commands: GBuffer::pass_body(shader, mesh),
        }
    }

    /// What to record into each draw command buffer: the plane drawn with
    /// the lighting shader into framebuffer `i` within `render_pass`, with
    /// colour and depth cleared first. There must be a framebuffer for
    /// every command buffer.
    pub fn build_deferred_command_buffer(
        &self,
        draw_buffers: &Vec<vk::CommandBuffer>,
        frame_buffers: &Vec<vk::Framebuffer>,
        render_pass: vk::RenderPassHandle,
    ) -> (recordings: Vec<Recording>)
        requires
            self.wf(),
            draw_buffers@.len() <= frame_buffers@.len(),
        ensures
            recordings@.len() == draw_buffers@.len(),
            forall|i: int|
                0 <= i < draw_buffers@.len() ==> is_pass_recording(
                    #[trigger] recordings@[i],
                    draw_buffers@[i],
                    render_pass,
                    frame_buffers@[i],
                    self.resolution,
                    1,
                    lighting_commands(self.shader, self.mesh),
                ),
    {
        let mut recordings: Vec<Recording> = Vec::new();
        let mut i: usize = 0;
        while i < draw_buffers.len()
            invariant
                i <= draw_buffers.len(),
                self.wf(),
                draw_buffers@.len() <= frame_buffers@.len(),
                recordings@.len() == i,
                forall|k: int|
                    0 <= k < i ==> is_pass_recording(
                        #[trigger] recordings@[k],
                        draw_buffers@[k],
                        render_pass,
                        frame_buffers@[k],
                        self.resolution,
                        1,
                        lighting_commands(self.shader, self.mesh),
                    ),
            decreases draw_buffers.len() - i,
        {
            recordings.push(
                Recording {
                    command_buffer: draw_buffers[i],
                    usage: vk::COMMAND_BUFFER_USAGE_SIMULTANEOUS_USE_BIT,
                    render_pass_begin: Some(
                        RenderPassBeginInfo {
                            render_pass,
                            framebuffer: frame_buffers[i],
                            render_area: vk::Rect2D {
                                offset: vk::Offset2D { x: 0, y: 0 },
                                extent: self.resolution,
                            },
                            clear_values: clear_values(1),
                        },
                    ),
                    commands: GBuffer::pass_body(&self.shader, &self.mesh),
                },
            );
            i += 1;
        }
        recordings
    }

    /// What has to be destroyed to release the geometry buffer's own
    /// objects: the framebuffer, the pass, the sampler, view and image of
    /// each attachment, and last the memory behind the images.
    pub fn release(&self) -> (objects: Vec<vk::Object>)
        ensures
            objects@ == seq![
                vk::Object::Framebuffer(self.frame_buffer),
                vk::Object::RenderPass(self.deferred_render_pass),
                vk::Object::Sampler(self.sampler),
                vk::Object::ImageView(self.albedo.descriptor.image_view),
                vk::Object::Image(self.albedo.image),
                vk::Object::ImageView(self.position.descriptor.image_view),
                vk::Object::Image(self.position.image),
                vk::Object::ImageView(self.normal.descriptor.image_view),
                vk::Object::Image(self.normal.image),
                vk::Object::ImageView(self.depth.descriptor.image_view),
                vk::Object::Image(self.depth.image),
                vk::Object::DeviceMemory(self.memory),
            ],
    {
        let mut objects: Vec<vk::Object> = Vec::new();
        objects.push(vk::Object::Framebuffer(self.frame_buffer));
        objects.push(vk::Object::RenderPass(self.deferred_render_pass));
        objects.push(vk::Object::Sampler(self.sampler));
        objects.push(vk::Object::ImageView(self.albedo.descriptor.image_view));
        objects.push(vk::Object::Image(self.albedo.image));
        objects.push(vk::Object::ImageView(self.position.descriptor.image_view));
        objects.push(vk::Object::Image(self.position.image));
        objects.push(vk::Object::ImageView(self.normal.descriptor.image_view));
        objects.push(vk::Object::Image(self.normal.image));
        objects.push(vk::Object::ImageView(self.depth.descriptor.image_view));
        objects.push(vk::Object::Image(self.depth.image));
        objects.push(vk::Object::DeviceMemory(self.memory));
        objects
    }
}

} // verus!
