//! The renderer: a geometry pass that fills the geometry buffer offscreen,
//! a lighting pass that reads it and draws to the swapchain, and the frame
//! protocol that orders the two.
use vstd::prelude::*;
use crate::vk;
use crate::device::Device;
use crate::frame::{FrameAction, FrameEvent, FrameProtocol, FrameState};
use crate::g_buffer::{Attachment, RenderPass};
use crate::mesh::{draw_commands, Mesh};
use crate::ownership::{is_sound_order, Ownership};
use crate::shader::Shader;
use crate::surface::RenderTarget;
use crate::texture::{upload_commands, Texture};
use crate::uniform::{DynamicUniformBuffer, Uniform, UniformBuffer, UniformDescriptor};
use crate::vk_commands::{
    is_one_shot_submission, record_submit_commandbuffer, Command, Pool, SubmitStep,
};

verus! {

/// The window system the surface belongs to.
#[derive(Clone, Copy, PartialEq, Eq, Structural, Debug)]
pub enum Platform {
    Xlib,
    Win32,
}

/// The version of the API the engine is written against: 1.0.65.
pub const API_VERSION: u32 = 0x0040_0041;

pub const VALIDATION_LAYER: &'static str = "VK_LAYER_LUNARG_standard_validation";

pub const SURFACE_EXTENSION: &'static str = "VK_KHR_surface";

pub const XLIB_SURFACE_EXTENSION: &'static str = "VK_KHR_xlib_surface";

pub const WIN32_SURFACE_EXTENSION: &'static str = "VK_KHR_win32_surface";

pub const DEBUG_REPORT_EXTENSION: &'static str = "VK_EXT_debug_report";

/// What an instance is created with.
#[derive(Clone, PartialEq, Eq, Debug)]
pub struct InstanceCreateInfo<'a> {
    pub application_name: &'a str,
    pub application_version: u32,
    pub engine_name: &'a str,
    pub engine_version: u32,
    pub api_version: u32,
    pub enabled_layer_names: Vec<&'static str>,
    pub enabled_extension_names: Vec<&'static str>,
}

/// The name of the extension that makes surfaces on a platform.
pub open spec fn platform_extension(platform: Platform) -> &'static str {
    match platform {
        Platform::Xlib => XLIB_SURFACE_EXTENSION,
        Platform::Win32 => WIN32_SURFACE_EXTENSION,
    }
}

/// The root object of the API.
pub struct Instance {}

impl Instance {
    /// The instance to create: the standard validation layer, and the
    /// extensions for surfaces, for surfaces of the platform and for debug
    /// reports.
    pub fn init<'a>(engine_name: &'a str, app_name: &'a str, platform: Platform) -> (info:
        InstanceCreateInfo<'a>)
        ensures
            info.application_name == app_name,
            info.engine_name == engine_name,
            info.application_version == 0,
            info.engine_version == 0,
            info.api_version == API_VERSION,
            info.enabled_layer_names@ == seq![VALIDATION_LAYER],
            info.enabled_extension_names@ == seq![
                SURFACE_EXTENSION,
                platform_extension(platform),
                DEBUG_REPORT_EXTENSION,
            ],
    {
        let api_version = vk::make_api_version(0, 1, 0, 65);
        assert((0u32 << 29) | (1u32 << 22) | (0u32 << 12) | 65u32 == 0x0040_0041u32) by (bit_vector);
        InstanceCreateInfo {
            application_name: app_name,
            application_version: 0,
            engine_name,
            engine_version: 0,
            api_version,
            enabled_layer_names: get_instance_layers(),
            enabled_extension_names: get_instance_extensions(platform),
        }
    }
}

/// The layers an instance is created with: the standard validation layer.
pub fn get_instance_layers() -> (names: Vec<&'static str>)
    ensures
        names@ == seq![VALIDATION_LAYER],
{
    let mut names: Vec<&'static str> = Vec::new();
    names.push(VALIDATION_LAYER);
    names
}

/// The extensions an instance is created with: for surfaces, for surfaces
/// of the platform, and for debug reports.
pub fn get_instance_extensions(platform: Platform) -> (names: Vec<&'static str>)
    ensures
        names@ == seq![SURFACE_EXTENSION, platform_extension(platform), DEBUG_REPORT_EXTENSION],
{
    let mut names: Vec<&'static str> = Vec::new();
    names.push(SURFACE_EXTENSION);
    names.push(
        match platform {
            Platform::Xlib => XLIB_SURFACE_EXTENSION,
            Platform::Win32 => WIN32_SURFACE_EXTENSION,
        },
    );
    names.push(DEBUG_REPORT_EXTENSION);
    names
}

/// Why a renderer could not be put together.
#[derive(Clone, Copy, PartialEq, Eq, Structural, Debug)]
pub enum RendererError {
    /// Two of the three semaphores are the same semaphore.
    SemaphoresNotDistinct,
    /// The offscreen pass does not have exactly one framebuffer, or the
    /// lighting pass does not have one framebuffer and one draw command
    /// buffer for every swapchain image.
    FramebufferMismatch,
    /// A mesh or a shader is not in a state to be drawn with.
    NotDrawable,
    /// An object of the renderer is not among those that will be destroyed
    /// with it.
    NotOwned,
}

/// A step of tearing a renderer down.
#[derive(Clone, Copy, PartialEq, Eq, Structural, Debug)]
pub enum TeardownStep {
    /// Block until the device has finished all work.
    DeviceWaitIdle,
    /// Destroy or free the object.
    Destroy(vk::Object),
}

/// The steps that tear down an owner with the given destruction order:
/// wait for the device, then destroy everything in order. An owner that
/// holds nothing is torn down by doing nothing.
pub open spec fn teardown_steps(order: Seq<vk::Object>) -> Seq<TeardownStep> {
    if order.len() == 0 {
        Seq::empty()
    } else {
        seq![TeardownStep::DeviceWaitIdle] + Seq::new(
            order.len(),
            |i: int| TeardownStep::Destroy(order[i]),
        )
    }
}

/// The requests for the attachments of the geometry pass: position and
/// normal in 16-bit floats, albedo in 8-bit colour, and its depth.
pub open spec fn geometry_requests() -> (Seq<(i32, u32, vk::ImageLayout)>, (
    i32,
    u32,
    vk::ImageLayout,
)) {
    (
        seq![
            (
                vk::FORMAT_R16G16B16A16_SFLOAT,
                vk::IMAGE_USAGE_COLOR_ATTACHMENT_BIT,
                vk::ImageLayout::ColorAttachmentOptimal,
            ),
            (
                vk::FORMAT_R16G16B16A16_SFLOAT,
                vk::IMAGE_USAGE_COLOR_ATTACHMENT_BIT,
                vk::ImageLayout::ColorAttachmentOptimal,
            ),
            (
                vk::FORMAT_R8G8B8A8_UNORM,
                vk::IMAGE_USAGE_COLOR_ATTACHMENT_BIT,
                vk::ImageLayout::ColorAttachmentOptimal,
            ),
        ],
        depth_request(),
    )
}

/// The request for the depth attachment of either pass.
pub open spec fn depth_request() -> (i32, u32, vk::ImageLayout) {
    (
        vk::FORMAT_D16_UNORM,
        vk::IMAGE_USAGE_DEPTH_STENCIL_ATTACHMENT_BIT,
        vk::ImageLayout::DepthStencilAttachmentOptimal,
    )
}

/// The requests for the attachments of the lighting pass: one colour
/// attachment in the format of the surface, left ready to be presented,
/// and its depth.
pub open spec fn lighting_requests(surface_format: i32) -> (Seq<(i32, u32, vk::ImageLayout)>, (
    i32,
    u32,
    vk::ImageLayout,
)) {
    (
        seq![
            (
                surface_format,
                vk::IMAGE_USAGE_COLOR_ATTACHMENT_BIT,
                vk::ImageLayout::PresentSrcKhr,
            ),
        ],
        depth_request(),
    )
}

/// The uniforms of the geometry shader: the view and projection at
/// binding 0 and the per-instance transforms at binding 3 for the vertex
/// stage, the two textures at bindings 1 and 2 for the fragment stage. All
/// are in descriptor set zero.
pub open spec fn geometry_uniforms(
    diffuse_texture: Texture,
    spec_texture: Texture,
    mv: UniformBuffer,
    uniform_buffer: DynamicUniformBuffer,
) -> Seq<UniformDescriptor> {
    seq![
        UniformDescriptor {
            data: diffuse_texture.uniform_info(),
            stage: vk::SHADER_STAGE_FRAGMENT_BIT,
            binding: 1,
            set: 0,
        },
        UniformDescriptor {
            data: spec_texture.uniform_info(),
            stage: vk::SHADER_STAGE_FRAGMENT_BIT,
            binding: 2,
            set: 0,
        },
        UniformDescriptor {
            data: mv.uniform_info(),
            stage: vk::SHADER_STAGE_VERTEX_BIT,
            binding: 0,
            set: 0,
        },
        UniformDescriptor {
            data: uniform_buffer.uniform_info(),
            stage: vk::SHADER_STAGE_VERTEX_BIT,
            binding: 3,
            set: 0,
        },
    ]
}

/// The uniforms of the lighting shader: the colour attachments of the
/// geometry pass from binding 1 on, and the lights at binding 4, all for
/// the fragment stage and in descriptor set zero. This is how the lighting
/// pass depends on the geometry pass.
pub open spec fn light_uniforms(colour_attachments: Seq<Attachment>, lights: UniformBuffer) -> Seq<
    UniformDescriptor,
> {
    Seq::new(
        colour_attachments.len() + 1,
        |i: int|
            if i < colour_attachments.len() {
                UniformDescriptor {
                    data: colour_attachments[i].uniform_info(),
                    stage: vk::SHADER_STAGE_FRAGMENT_BIT,
                    binding: (1 + i) as u32,
                    set: 0,
                }
            } else {
                UniformDescriptor {
                    data: lights.uniform_info(),
                    stage: vk::SHADER_STAGE_FRAGMENT_BIT,
                    binding: 4,
                    set: 0,
                }
            },
    )
}

/// The commands that precede the draws of a pass: viewport and scissor of
/// the shader, and its pipeline.
pub open spec fn pipeline_commands(shader: Shader) -> Seq<Command> {
    seq![
        Command::SetViewport { width: shader.viewports@[0].width, height: shader.viewports@[0].height },
        Command::SetScissor(shader.scissors@[0]),
        Command::BindPipeline(shader.graphics_pipeline),
    ]
}

/// The commands that draw instance `i` of the geometry pass: bind the
/// descriptor set with the offset of the instance's transform, then draw
/// the mesh.
pub open spec fn instance_commands(shader: Shader, mesh: Mesh, stride: int, i: int) -> Seq<Command> {
    seq![
        Command::BindDescriptorSets {
            layout: shader.pipeline_layout,
            first_set: 0,
            descriptor_set: shader.descriptor_sets@[0],
            dynamic_offset: Some((i * stride) as u32),
        },
    ] + draw_commands(mesh)
}

/// The commands that draw the first `n` instances of the geometry pass.
pub open spec fn instances_commands(shader: Shader, mesh: Mesh, stride: int, n: int) -> Seq<Command>
    decreases n,
{
    if n <= 0 {
        Seq::empty()
    } else {
        instances_commands(shader, mesh, stride, n - 1) + instance_commands(
            shader,
            mesh,
            stride,
            n - 1,
        )
    }
}

/// The body of the geometry pass: the pipeline and every instance. The
/// pass is ended by whoever began it.
pub open spec fn geometry_commands(shader: Shader, mesh: Mesh, stride: int, instances: int) -> Seq<
    Command,
> {
    pipeline_commands(shader) + instances_commands(shader, mesh, stride, instances)
}

/// The body of the lighting pass: the pipeline, the descriptor set, and
/// the screen-filling plane. The pass is ended by whoever began it.
pub open spec fn lighting_commands(light_pass: Shader, plane: Mesh) -> Seq<Command> {
    pipeline_commands(light_pass) + seq![
        Command::BindDescriptorSets {
            layout: light_pass.pipeline_layout,
            first_set: 0,
            descriptor_set: light_pass.descriptor_sets@[0],
            dynamic_offset: None,
        },
    ] + draw_commands(plane)
}

fn append(commands: &mut Vec<Command>, more: &Vec<Command>)
    ensures
        final(commands)@ == old(commands)@ + more@,
{
    let mut i: usize = 0;
    while i < more.len()
        invariant
            i <= more.len(),
            commands@ == old(commands)@ + more@.subrange(0, i as int),
        decreases more.len() - i,
    {
        commands.push(more[i]);
        i += 1;
        assert(commands@ =~= old(commands)@ + more@.subrange(0, i as int));
    }
    assert(more@.subrange(0, more.len() as int) =~= more@);
}

fn append_objects(objects: &mut Vec<vk::Object>, more: &Vec<vk::Object>)
    ensures
        final(objects)@ == old(objects)@ + more@,
{
    let mut i: usize = 0;
    while i < more.len()
        invariant
            i <= more.len(),
            objects@ == old(objects)@ + more@.subrange(0, i as int),
        decreases more.len() - i,
    {
        objects.push(more[i]);
        i += 1;
        assert(objects@ =~= old(objects)@ + more@.subrange(0, i as int));
    }
    assert(more@.subrange(0, more.len() as int) =~= more@);
}

fn pipeline_prologue(shader: &Shader) -> (commands: Vec<Command>)
    requires
        shader.viewports@.len() > 0,
        shader.scissors@.len() > 0,
    ensures
        commands@ == pipeline_commands(*shader),
{
    let mut commands: Vec<Command> = Vec::new();
    commands.push(
        Command::SetViewport { width: shader.viewports[0].width, height: shader.viewports[0].height },
    );
    commands.push(Command::SetScissor(shader.scissors[0]));
    commands.push(Command::BindPipeline(shader.graphics_pipeline));
    commands
}

/// The objects of a renderer's components, besides what the components
/// read as uniforms.
pub open spec fn components_of(
    render_target: RenderTarget,
    debug_call_back: vk::DebugReportCallback,
    pool: Pool,
    render_pass: RenderPass,
    g_buffer: RenderPass,
    present_complete_semaphore: vk::Semaphore,
    rendering_complete_semaphore: vk::Semaphore,
    offscreen_semaphore: vk::Semaphore,
    mesh: Mesh,
    shader: Shader,
    plane: Mesh,
    light_pass: Shader,
) -> Seq<vk::Object> {
    light_pass.owned() + shader.owned() + seq![
        vk::Object::Buffer(plane.vertex_buffer),
        vk::Object::Buffer(plane.index_buffer),
        vk::Object::DeviceMemory(plane.memory),
        vk::Object::Buffer(mesh.vertex_buffer),
        vk::Object::Buffer(mesh.index_buffer),
        vk::Object::DeviceMemory(mesh.memory),
        vk::Object::Semaphore(present_complete_semaphore),
        vk::Object::Semaphore(rendering_complete_semaphore),
        vk::Object::Semaphore(offscreen_semaphore),
    ] + render_pass.owned() + g_buffer.owned() + seq![vk::Object::CommandPool(pool.pool)]
        + render_target.owned() + seq![
        vk::Object::Device,
        vk::Object::Surface(render_target.surface.handle),
        vk::Object::DebugReportCallback(debug_call_back),
        vk::Object::Instance,
    ]
}

/// Whether the three semaphores of a frame are three different semaphores.
pub open spec fn semaphores_distinct(
    present_complete_semaphore: vk::Semaphore,
    rendering_complete_semaphore: vk::Semaphore,
    offscreen_semaphore: vk::Semaphore,
) -> bool {
    &&& present_complete_semaphore != offscreen_semaphore
    &&& offscreen_semaphore != rendering_complete_semaphore
    &&& present_complete_semaphore != rendering_complete_semaphore
}

/// Whether the offscreen pass has one framebuffer and the lighting pass
/// has a framebuffer and a draw command buffer for every swapchain image.
pub open spec fn framebuffers_match(
    render_target: RenderTarget,
    pool: Pool,
    render_pass: RenderPass,
    g_buffer: RenderPass,
) -> bool {
    &&& g_buffer.frame_buffers@.len() == 1
    &&& render_pass.frame_buffers@.len() == render_target.swap_chain.image_views@.len()
    &&& pool.draw_command_buffer@.len() == render_pass.frame_buffers@.len()
}

/// Why a renderer cannot be put together from the given parts, if it
/// cannot: the first of the checks that fails.
pub open spec fn init_error(
    render_target: RenderTarget,
    debug_call_back: vk::DebugReportCallback,
    pool: Pool,
    render_pass: RenderPass,
    g_buffer: RenderPass,
    present_complete_semaphore: vk::Semaphore,
    rendering_complete_semaphore: vk::Semaphore,
    offscreen_semaphore: vk::Semaphore,
    mesh: Mesh,
    shader: Shader,
    plane: Mesh,
    light_pass: Shader,
    owned: Seq<vk::Object>,
) -> Option<RendererError> {
    let components = components_of(
        render_target,
        debug_call_back,
        pool,
        render_pass,
        g_buffer,
        present_complete_semaphore,
        rendering_complete_semaphore,
        offscreen_semaphore,
        mesh,
        shader,
        plane,
        light_pass,
    );
    if !semaphores_distinct(
        present_complete_semaphore,
        rendering_complete_semaphore,
        offscreen_semaphore,
    ) {
        Some(RendererError::SemaphoresNotDistinct)
    } else if !framebuffers_match(render_target, pool, render_pass, g_buffer) {
        Some(RendererError::FramebufferMismatch)
    } else if !(mesh.wf() && plane.wf() && shader.wf() && light_pass.wf()) {
        Some(RendererError::NotDrawable)
    } else if exists|i: int| 0 <= i < components.len() && !owned.contains(#[trigger] components[i]) {
        Some(RendererError::NotOwned)
    } else {
        None
    }
}

/// The renderer and everything it owns.
pub struct Renderer {
    pub render_target: RenderTarget,
    pub device: Device,
    pub debug_call_back: vk::DebugReportCallback,
    pub pool: Pool,
    /// The lighting pass, which draws to the swapchain images.
    pub render_pass: RenderPass,
    /// The geometry pass, which draws offscreen.
    pub g_buffer: RenderPass,
    pub frame: FrameProtocol,
    pub mesh: Mesh,
    pub shader: Shader,
    pub plane: Mesh,
    pub light_pass: Shader,
    /// Everything that is destroyed with the renderer.
    pub owned: Ownership,
}

impl Renderer {
    /// The kinds of message the debug report callback receives: errors,
    /// warnings and performance warnings.
    pub fn debug_report_flags() -> (flags: u32)
        ensures
            flags == vk::DEBUG_REPORT_ERROR_BIT_EXT | vk::DEBUG_REPORT_WARNING_BIT_EXT
                | vk::DEBUG_REPORT_PERFORMANCE_WARNING_BIT_EXT,
    {
        vk::DEBUG_REPORT_ERROR_BIT_EXT | vk::DEBUG_REPORT_WARNING_BIT_EXT
            | vk::DEBUG_REPORT_PERFORMANCE_WARNING_BIT_EXT
    }

    /// The attachments the geometry pass asks for.
    pub fn g_buffer_requests() -> (req: (Vec<(i32, u32, vk::ImageLayout)>, (i32, u32, vk::ImageLayout)))
        ensures
            req.0@ == geometry_requests().0,
            req.1 == geometry_requests().1,
    {
        let mut colour: Vec<(i32, u32, vk::ImageLayout)> = Vec::new();
        colour.push(
            (
                vk::FORMAT_R16G16B16A16_SFLOAT,
                vk::IMAGE_USAGE_COLOR_ATTACHMENT_BIT,
                vk::ImageLayout::ColorAttachmentOptimal,
            ),
        );
        colour.push(
            (
                vk::FORMAT_R16G16B16A16_SFLOAT,
                vk::IMAGE_USAGE_COLOR_ATTACHMENT_BIT,
                vk::ImageLayout::ColorAttachmentOptimal,
            ),
        );
        colour.push(
            (
                vk::FORMAT_R8G8B8A8_UNORM,
                vk::IMAGE_USAGE_COLOR_ATTACHMENT_BIT,
                vk::ImageLayout::ColorAttachmentOptimal,
            ),
        );
        assert(colour@ =~= geometry_requests().0);
        (
            colour,
            (
                vk::FORMAT_D16_UNORM,
                vk::IMAGE_USAGE_DEPTH_STENCIL_ATTACHMENT_BIT,
                vk::ImageLayout::DepthStencilAttachmentOptimal,
            ),
        )
    }

    /// The attachments the lighting pass asks for.
    pub fn render_pass_requests(surface_format: i32) -> (req: (
        Vec<(i32, u32, vk::ImageLayout)>,
        (i32, u32, vk::ImageLayout),
    ))
        ensures
            req.0@ == lighting_requests(surface_format).0,
            req.1 == lighting_requests(surface_format).1,
    {
        let mut colour: Vec<(i32, u32, vk::ImageLayout)> = Vec::new();
        colour.push(
            (surface_format, vk::IMAGE_USAGE_COLOR_ATTACHMENT_BIT, vk::ImageLayout::PresentSrcKhr),
        );
        assert(colour@ =~= lighting_requests(surface_format).0);
        (
            colour,
            (
                vk::FORMAT_D16_UNORM,
                vk::IMAGE_USAGE_DEPTH_STENCIL_ATTACHMENT_BIT,
                vk::ImageLayout::DepthStencilAttachmentOptimal,
            ),
        )
    }

    /// The steps that upload the two textures of the scene in one
    /// submission and wait for it.
    pub fn texture_upload(
        setup_command_buffer: vk::CommandBuffer,
        diffuse_texture: &Texture,
        spec_texture: &Texture,
    ) -> (steps: Vec<SubmitStep>)
        ensures
            is_one_shot_submission(
                steps@,
                setup_command_buffer,
                seq![vk::PIPELINE_STAGE_TOP_OF_PIPE_BIT],
                Seq::empty(),
                Seq::empty(),
                upload_commands(*diffuse_texture) + upload_commands(*spec_texture),
            ),
    {
        let mut wait_mask: Vec<u32> = Vec::new();
        wait_mask.push(vk::PIPELINE_STAGE_TOP_OF_PIPE_BIT);
        let none: Vec<vk::Semaphore> = Vec::new();
        let mut body = diffuse_texture.load_texture();
        let more = spec_texture.load_texture();
        append(&mut body, &more);
        assert(wait_mask@ =~= seq![vk::PIPELINE_STAGE_TOP_OF_PIPE_BIT]);
        assert(none@ =~= Seq::<vk::Semaphore>::empty());
        record_submit_commandbuffer(setup_command_buffer, &wait_mask, &none, &none, &body)
    }

    /// The uniforms of the geometry shader: the view and projection at
    /// binding 0 and the per-instance transforms at binding 3 for the
    /// vertex stage, the two textures at bindings 1 and 2 for the fragment
    /// stage. All are in descriptor set zero.
    pub fn geometry_uniforms(
        diffuse_texture: &Texture,
        spec_texture: &Texture,
        mv: &UniformBuffer,
        uniform_buffer: &DynamicUniformBuffer,
    ) -> (uniforms: Vec<UniformDescriptor>)
        ensures
            uniforms@ == geometry_uniforms(*diffuse_texture, *spec_texture, *mv, *uniform_buffer),
    {
        let mut uniforms: Vec<UniformDescriptor> = Vec::new();
        uniforms.push(UniformDescriptor::new(diffuse_texture, vk::SHADER_STAGE_FRAGMENT_BIT, 1, 0));
        uniforms.push(UniformDescriptor::new(spec_texture, vk::SHADER_STAGE_FRAGMENT_BIT, 2, 0));
        uniforms.push(UniformDescriptor::new(mv, vk::SHADER_STAGE_VERTEX_BIT, 0, 0));
        uniforms.push(UniformDescriptor::new(uniform_buffer, vk::SHADER_STAGE_VERTEX_BIT, 3, 0));
        uniforms
    }

    /// The uniforms of the lighting shader: the colour attachments of the
    /// geometry pass from binding 1 on, and the lights at binding 4, all
    /// for the fragment stage and in descriptor set zero. This is how the
    /// lighting pass depends on the geometry pass.
    pub fn light_uniforms(g_buffer: &RenderPass, lights: &UniformBuffer) -> (uniforms: Option<
        Vec<UniformDescriptor>,
    >)
        ensures
            uniforms is Some <==> g_buffer.colour_attachments@.len() <= u32::MAX,
            uniforms matches Some(v) ==> v@ == light_uniforms(g_buffer.colour_attachments@, *lights),
    {
        match g_buffer.attachment_to_uniform(0, 1) {
            Some(mut uniform0) => {
                uniform0.push(UniformDescriptor::new(lights, vk::SHADER_STAGE_FRAGMENT_BIT, 4, 0));
                assert(uniform0@ =~= light_uniforms(g_buffer.colour_attachments@, *lights));
                Some(uniform0)
            },
            None => None,
        }
    }

    /// The body of the geometry pass for `instances` instances of the
    /// mesh. Nothing when the uniform buffer does not hold that many
    /// transforms, or an offset does not fit.
    pub fn offscreen_commands(
        shader: &Shader,
        mesh: &Mesh,
        uniform_buffer: &DynamicUniformBuffer,
        instances: usize,
    ) -> (commands: Option<Vec<Command>>)
        requires
            shader.wf(),
            mesh.wf(),
            uniform_buffer.wf(),
        ensures
            commands is Some <==> instances == 0 || (instances <= uniform_buffer.count && (instances - 1)
                * uniform_buffer.align <= u32::MAX),
            commands matches Some(c) ==> c@ == geometry_commands(
                *shader,
                *mesh,
                uniform_buffer.align as int,
                instances as int,
            ),
    {
        let mut commands = pipeline_prologue(shader);
        let draw = mesh.draw();
        let ghost head = commands@;
        let ghost stride = uniform_buffer.align as int;
        let mut i: usize = 0;
        while i < instances
            invariant
                i <= instances,
                shader.wf(),
                mesh.wf(),
                uniform_buffer.wf(),
                stride == uniform_buffer.align,
                draw@ == draw_commands(*mesh),
                commands@ == head + instances_commands(*shader, *mesh, stride, i as int),
                i > 0 ==> i <= uniform_buffer.count && (i - 1) * uniform_buffer.align <= u32::MAX,
            decreases instances - i,
        {
            let offset = match uniform_buffer.dynamic_offset(i) {
                Some(offset) => offset,
                None => {
                    proof {
                        if i < uniform_buffer.count {
                            assert((instances - 1) * uniform_buffer.align >= i
                                * uniform_buffer.align) by (nonlinear_arith)
                                requires
                                    i <= instances - 1,
                                    uniform_buffer.align >= 0,
                            ;
                        }
                    }
                    return None;
                },
            };
            commands.push(
                Command::BindDescriptorSets {
                    layout: shader.pipeline_layout,
                    first_set: 0,
                    descriptor_set: shader.descriptor_sets[0],
                    dynamic_offset: Some(offset),
                },
            );
            append(&mut commands, &draw);
            i += 1;
            assert(commands@ =~= head + instances_commands(*shader, *mesh, stride, i as int));
        }
        assert(commands@ =~= geometry_commands(*shader, *mesh, stride, instances as int));
        Some(commands)
    }

    /// The body of the lighting pass.
    pub fn present_commands(light_pass: &Shader, plane: &Mesh) -> (commands: Vec<Command>)
        requires
            light_pass.wf(),
            plane.wf(),
        ensures
            commands@ == lighting_commands(*light_pass, *plane),
    {
        let mut commands = pipeline_prologue(light_pass);
        commands.push(
            Command::BindDescriptorSets {
                layout: light_pass.pipeline_layout,
                first_set: 0,
                descriptor_set: light_pass.descriptor_sets[0],
                dynamic_offset: None,
            },
        );
        let draw = plane.draw();
        append(&mut commands, &draw);
        assert(commands@ =~= lighting_commands(*light_pass, *plane));
        commands
    }

    /// The objects of the renderer's components, besides what the
    /// components read as uniforms.
    pub open spec fn components(&self) -> Seq<vk::Object> {
        components_of(
            self.render_target,
            self.debug_call_back,
            self.pool,
            self.render_pass,
            self.g_buffer,
            self.frame.present_complete_semaphore,
            self.frame.rendering_complete_semaphore,
            self.frame.offscreen_semaphore,
            self.mesh,
            self.shader,
            self.plane,
            self.light_pass,
        )
    }

    /// The renderer is ready to render: the frame protocol is well formed
    /// and submits the pool's command buffers, the offscreen pass has one
    /// framebuffer, the lighting pass has a framebuffer and a draw command
    /// buffer for every swapchain image, and every object of a component
    /// will be destroyed with the renderer.
    pub open spec fn wf(&self) -> bool {
        &&& self.frame@.wf()
        &&& self.frame.off_screen_command_buffer == self.pool.off_screen_command_buffer
        &&& self.frame.draw_command_buffer@ == self.pool.draw_command_buffer@
        &&& self.g_buffer.frame_buffers@.len() == 1
        &&& self.render_pass.frame_buffers@.len() == self.render_target.swap_chain.image_views@.len()
        &&& self.pool.draw_command_buffer@.len() == self.render_pass.frame_buffers@.len()
        &&& self.mesh.wf()
        &&& self.plane.wf()
        &&& self.shader.wf()
        &&& self.light_pass.wf()
        &&& forall|i: int|
            0 <= i < self.components().len() ==> self.owned@.contains(#[trigger] self.components()[i])
    }

    fn component_objects(
        render_target: &RenderTarget,
        debug_call_back: vk::DebugReportCallback,
        pool: &Pool,
        render_pass: &RenderPass,
        g_buffer: &RenderPass,
        semaphores: (vk::Semaphore, vk::Semaphore, vk::Semaphore),
        mesh: &Mesh,
        shader: &Shader,
        plane: &Mesh,
        light_pass: &Shader,
    ) -> (objects: Vec<vk::Object>)
        ensures
            objects@ == components_of(
                *render_target,
                debug_call_back,
                *pool,
                *render_pass,
                *g_buffer,
                semaphores.0,
                semaphores.1,
                semaphores.2,
                *mesh,
                *shader,
                *plane,
                *light_pass,
            ),
    {
        let mut objects = light_pass.release();
        let more = shader.release();
        append_objects(&mut objects, &more);
        let mut more = plane.release();
        append_objects(&mut objects, &more);
        more = mesh.release();
        append_objects(&mut objects, &more);
        let ghost before = objects@;
        objects.push(vk::Object::Semaphore(semaphores.0));
        objects.push(vk::Object::Semaphore(semaphores.1));
        objects.push(vk::Object::Semaphore(semaphores.2));
        assert(objects@ =~= light_pass.owned() + shader.owned() + seq![
            vk::Object::Buffer(plane.vertex_buffer),
            vk::Object::Buffer(plane.index_buffer),
            vk::Object::DeviceMemory(plane.memory),
            vk::Object::Buffer(mesh.vertex_buffer),
            vk::Object::Buffer(mesh.index_buffer),
            vk::Object::DeviceMemory(mesh.memory),
            vk::Object::Semaphore(semaphores.0),
            vk::Object::Semaphore(semaphores.1),
            vk::Object::Semaphore(semaphores.2),
        ]);
        more = render_pass.release();
        append_objects(&mut objects, &more);
        more = g_buffer.release();
        append_objects(&mut objects, &more);
        more = pool.release();
        append_objects(&mut objects, &more);
        more = render_target.release();
        append_objects(&mut objects, &more);
        let ghost middle = objects@;
        objects.push(vk::Object::Device);
        objects.push(vk::Object::Surface(render_target.surface.handle));
        objects.push(vk::Object::DebugReportCallback(debug_call_back));
        objects.push(vk::Object::Instance);
        assert(objects@ =~= middle + seq![
            vk::Object::Device,
            vk::Object::Surface(render_target.surface.handle),
            vk::Object::DebugReportCallback(debug_call_back),
            vk::Object::Instance,
        ]);
        objects
    }

    /// Puts the renderer together from its components and from the owner
    /// that has adopted their objects as they were created.
    #[verifier::loop_isolation(false)]
    pub fn assemble(
        render_target: RenderTarget,
        device: Device,
        debug_call_back: vk::DebugReportCallback,
        pool: Pool,
        render_pass: RenderPass,
        g_buffer: RenderPass,
        present_complete_semaphore: vk::Semaphore,
        rendering_complete_semaphore: vk::Semaphore,
        offscreen_semaphore: vk::Semaphore,
        mesh: Mesh,
        shader: Shader,
        plane: Mesh,
        light_pass: Shader,
        owned: Ownership,
    ) -> (made: Result<Renderer, RendererError>)
        ensures
            match made {
                Ok(renderer) => {
                    &&& init_error(
                        render_target,
                        debug_call_back,
                        pool,
                        render_pass,
                        g_buffer,
                        present_complete_semaphore,
                        rendering_complete_semaphore,
                        offscreen_semaphore,
                        mesh,
                        shader,
                        plane,
                        light_pass,
                        owned@,
                    ) is None
                    &&& renderer.wf()
                    &&& renderer.frame@.state == FrameState::Idle
                    &&& renderer.frame.present_complete_semaphore == present_complete_semaphore
                    &&& renderer.frame.rendering_complete_semaphore == rendering_complete_semaphore
                    &&& renderer.frame.offscreen_semaphore == offscreen_semaphore
                    &&& renderer.render_target == render_target
                    &&& renderer.device == device
                    &&& renderer.debug_call_back == debug_call_back
                    &&& renderer.pool == pool
                    &&& renderer.render_pass == render_pass
                    &&& renderer.g_buffer == g_buffer
                    &&& renderer.mesh == mesh
                    &&& renderer.shader == shader
                    &&& renderer.plane == plane
                    &&& renderer.light_pass == light_pass
                    &&& renderer.owned@ == owned@
                },
                Err(error) => init_error(
                    render_target,
                    debug_call_back,
                    pool,
                    render_pass,
                    g_buffer,
                    present_complete_semaphore,
                    rendering_complete_semaphore,
                    offscreen_semaphore,
                    mesh,
                    shader,
                    plane,
                    light_pass,
                    owned@,
                ) == Some(error),
            },
    {
        if present_complete_semaphore == offscreen_semaphore || offscreen_semaphore
            == rendering_complete_semaphore || present_complete_semaphore
            == rendering_complete_semaphore {
            return Err(RendererError::SemaphoresNotDistinct);
        }
        if g_buffer.frame_buffers.len() != 1 || render_pass.frame_buffers.len()
            != render_target.swap_chain.image_views.len() || pool.draw_command_buffer.len()
            != render_pass.frame_buffers.len() {
            return Err(RendererError::FramebufferMismatch);
        }
        if !mesh.is_well_formed() || !plane.is_well_formed() || !shader.is_well_formed()
            || !light_pass.is_well_formed() {
            return Err(RendererError::NotDrawable);
        }
        let objects = Renderer::component_objects(
            &render_target,
            debug_call_back,
            &pool,
            &render_pass,
            &g_buffer,
            (present_complete_semaphore, rendering_complete_semaphore, offscreen_semaphore),
            &mesh,
            &shader,
            &plane,
            &light_pass,
        );
        let mut i: usize = 0;
        while i < objects.len()
            invariant
                i <= objects.len(),
                objects@ == components_of(
                    render_target,
                    debug_call_back,
                    pool,
                    render_pass,
                    g_buffer,
                    present_complete_semaphore,
                    rendering_complete_semaphore,
                    offscreen_semaphore,
                    mesh,
                    shader,
                    plane,
                    light_pass,
                ),
                forall|k: int| 0 <= k < i ==> owned@.contains(#[trigger] objects@[k]),
            decreases objects.len() - i,
        {
            if !owned.owns(objects[i]) {
                proof {
                    let components = components_of(
                        render_target,
                        debug_call_back,
                        pool,
                        render_pass,
                        g_buffer,
                        present_complete_semaphore,
                        rendering_complete_semaphore,
                        offscreen_semaphore,
                        mesh,
                        shader,
                        plane,
                        light_pass,
                    );
                    assert(!owned@.contains(components[i as int]));
                }
                return Err(RendererError::NotOwned);
            }
            i += 1;
        }
        let draw_command_buffer = crate::renderer::copy_buffers(&pool.draw_command_buffer);
        let frame = match FrameProtocol::new(
            present_complete_semaphore,
            offscreen_semaphore,
            rendering_complete_semaphore,
            pool.off_screen_command_buffer,
            draw_command_buffer,
        ) {
            Some(frame) => frame,
            None => {
                return Err(RendererError::SemaphoresNotDistinct);
            },
        };
        Ok(
            Renderer {
                render_target,
                device,
                debug_call_back,
                pool,
                render_pass,
                g_buffer,
                frame,
                mesh,
                shader,
                plane,
                light_pass,
                owned,
            },
        )
    }

    pub fn get_device(&self) -> (device: &Device)
        ensures
            *device == self.device,
    {
        &self.device
    }

    /// Feeds one event to the frame protocol and returns the operation to
    /// issue next. Rendering one frame means reporting `Render`, then the
    /// acquired image, then the completion of each operation until the
    /// machine asks for the wait that ends the frame. A renderer that was
    /// torn down asks for nothing any more.
    pub fn render(&mut self, event: FrameEvent) -> (action: Option<FrameAction>)
        ensures
            old(self).owned@.len() == 0 ==> action is None && final(self).frame@ == old(self).frame@,
            old(self).owned@.len() > 0 ==> action == old(self).frame@.step(event).1,
            old(self).owned@.len() > 0 ==> final(self).frame@ == old(self).frame@.with_state(
                old(self).frame@.step(event).0,
            ),
            old(self).wf() ==> final(self).wf(),
            final(self).components() == old(self).components(),
            final(self).owned@ == old(self).owned@,
    {
        if self.owned.len() == 0 {
            return None;
        }
        let action = self.frame.advance(event);
        proof {
            let before = old(self).frame@;
            let after = self.frame@;
            assert(after.present_complete_semaphore == before.present_complete_semaphore);
            assert(after.rendering_complete_semaphore == before.rendering_complete_semaphore);
            assert(after.offscreen_semaphore == before.offscreen_semaphore);
            assert(after.off_screen_command_buffer == before.off_screen_command_buffer);
            assert(after.draw_command_buffer == before.draw_command_buffer);
            assert(self.components() =~= old(self).components());
        }
        action
    }

    /// Gives up everything the renderer owns and returns the steps that
    /// destroy it: wait for the device to fall idle, then destroy each
    /// object once, dependents before what they depend on, the device
    /// after everything created from it and the instance last. A renderer
    /// that was torn down before is torn down by doing nothing.
    pub fn teardown(&mut self) -> (steps: Vec<TeardownStep>)
        ensures
            steps@ == teardown_steps(old(self).owned@),
            is_sound_order(old(self).owned@),
            final(self).owned@ == Seq::<vk::Object>::empty(),
            old(self).wf() ==> forall|i: int|
                0 <= i < old(self).components().len() ==> steps@.contains(
                    TeardownStep::Destroy(#[trigger] old(self).components()[i]),
                ),
    {
        let order = self.owned.teardown();
        let mut steps: Vec<TeardownStep> = Vec::new();
        if order.len() == 0 {
            return steps;
        }
        steps.push(TeardownStep::DeviceWaitIdle);
        let mut i: usize = 0;
        while i < order.len()
            invariant
                i <= order.len(),
                steps@ == seq![TeardownStep::DeviceWaitIdle] + Seq::new(
                    i as nat,
                    |k: int| TeardownStep::Destroy(order@[k]),
                ),
            decreases order.len() - i,
        {
            steps.push(TeardownStep::Destroy(order[i]));
            i += 1;
            assert(steps@ =~= seq![TeardownStep::DeviceWaitIdle] + Seq::new(
                i as nat,
                |k: int| TeardownStep::Destroy(order@[k]),
            ));
        }
        proof {
            if old(self).wf() {
                assert forall|i: int| 0 <= i < old(self).components().len() implies steps@.contains(
                    TeardownStep::Destroy(#[trigger] old(self).components()[i]),
                ) by {
                    let o = old(self).components()[i];
                    let k = choose|k: int| 0 <= k < order@.len() && order@[k] == o;
                    assert(steps@[k + 1] == TeardownStep::Destroy(o));
                }
            }
        }
        steps
    }
}

/// A copy of a list of command buffers.
pub fn copy_buffers(buffers: &Vec<vk::CommandBuffer>) -> (copy: Vec<vk::CommandBuffer>)
    ensures
        copy@ == buffers@,
{
    let mut copy: Vec<vk::CommandBuffer> = Vec::new();
    let mut i: usize = 0;
    while i < buffers.len()
        invariant
            i <= buffers.len(),
            copy@ == buffers@.subrange(0, i as int),
        decreases buffers.len() - i,
    {
        copy.push(buffers[i]);
        i += 1;
        assert(copy@ =~= buffers@.subrange(0, i as int));
    }
    assert(buffers@.subrange(0, buffers.len() as int) =~= buffers@);
    copy
}

} // verus!
