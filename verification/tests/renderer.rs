use rustvulkan::device::Device;
use rustvulkan::frame::{FrameAction, FrameEvent, FrameState};
use rustvulkan::g_buffer::{Attachment, RenderPass};
use rustvulkan::memory::PhysicalDeviceMemoryProperties;
use rustvulkan::mesh::Mesh;
use rustvulkan::ownership::Ownership;
use rustvulkan::renderer::{
    Instance, Platform, Renderer, RendererError, TeardownStep, API_VERSION,
};
use rustvulkan::resource::Resource;
use rustvulkan::shader::Shader;
use rustvulkan::surface::{
    RVSurface, RVSurfaceCapabilities, RenderTarget, SurfaceCapabilitiesKHR, SurfaceFormatKHR,
    SwapChain,
};
use rustvulkan::texture::{Image, Texture, Usage};
use rustvulkan::uniform::{DynamicUniformBuffer, UniformBuffer};
use rustvulkan::vk;
use rustvulkan::vk_commands::{Command, Pool, SubmitStep};

const COLOR: u32 = vk::IMAGE_USAGE_COLOR_ATTACHMENT_BIT;
const DEPTH: u32 = vk::IMAGE_USAGE_DEPTH_STENCIL_ATTACHMENT_BIT;
const EXTENT: vk::Extent2D = vk::Extent2D { width: 800, height: 600 };

fn attachment(n: u64, usage: u32) -> Attachment {
    Attachment {
        image: vk::Image(n),
        format: vk::FORMAT_R8G8B8A8_UNORM,
        usage,
        descriptor: vk::DescriptorImageInfo {
            sampler: vk::Sampler(n / 10),
            image_view: vk::ImageView(n),
            image_layout: vk::ImageLayout::ShaderReadOnlyOptimal,
        },
    }
}

fn shader(n: u64) -> Shader {
    Shader::assemble(
        EXTENT,
        vk::Pipeline(n),
        vk::PipelineLayout(n),
        vec![vk::DescriptorSet(n)],
        vec![vk::DescriptorSetLayout(n)],
        vk::DescriptorPool(n),
        vec![],
    )
    .unwrap()
}

fn mesh(n: u64) -> Mesh {
    Mesh::assemble(
        vk::DeviceMemory(n),
        vk::Buffer(n),
        vk::Buffer(n + 1),
        Mesh::sizes(6, 4, 44).unwrap(),
    )
}

struct Parts {
    render_target: RenderTarget,
    device: Device,
    pool: Pool,
    render_pass: RenderPass,
    g_buffer: RenderPass,
    mesh: Mesh,
    shader: Shader,
    plane: Mesh,
    light_pass: Shader,
    owned: Ownership,
}

fn parts() -> Parts {
    let surface = RVSurface::init(vk::SurfaceKHR(1));
    let capabilities = RVSurfaceCapabilities {
        capabilities: SurfaceCapabilitiesKHR {
            min_image_count: 2,
            max_image_count: 3,
            current_extent: EXTENT,
            supported_transforms: 1,
            current_transform: 1,
        },
        pre_transform: 1,
        desired_image_count: 3,
        resolution: EXTENT,
        format: SurfaceFormatKHR { format: 44, color_space: 0 },
    };
    let swap_views = vec![vk::ImageView(301), vk::ImageView(302), vk::ImageView(303)];
    let swap_chain = SwapChain::assemble(
        vk::SwapchainKHR(1),
        vec![vk::Image(301), vk::Image(302), vk::Image(303)],
        swap_views.clone(),
    )
    .unwrap();
    let device = Device::init(0, PhysicalDeviceMemoryProperties::new(vec![]), 256);
    let (render_target, device) =
        RenderTarget::create_render_target_and_device(surface, capabilities, swap_chain, device);
    let pool = Pool::assemble(
        vk::CommandPool(1),
        3,
        &vec![vk::CommandBuffer(1), vk::CommandBuffer(2), vk::CommandBuffer(3)],
        vec![vk::CommandBuffer(11), vk::CommandBuffer(12), vk::CommandBuffer(13)],
    )
    .unwrap();
    let g_buffer = RenderPass::assemble(
        EXTENT,
        vk::Sampler(10),
        vk::DeviceMemory(100),
        vk::RenderPassHandle(100),
        vec![
            attachment(101, COLOR),
            attachment(102, COLOR),
            attachment(103, COLOR),
            attachment(104, DEPTH),
        ],
        vec![vk::Framebuffer(100)],
        None,
    )
    .unwrap();
    let render_pass = RenderPass::assemble(
        EXTENT,
        vk::Sampler(20),
        vk::DeviceMemory(200),
        vk::RenderPassHandle(200),
        vec![attachment(201, COLOR), attachment(202, DEPTH)],
        vec![vk::Framebuffer(201), vk::Framebuffer(202), vk::Framebuffer(203)],
        Some(&swap_views),
    )
    .unwrap();
    let mesh_ = mesh(400);
    let plane = mesh(500);
    let shader_ = shader(600);
    let light_pass = shader(700);
    let mut owned = Ownership::new();
    assert!(owned.adopt(&vec![vk::Object::DebugReportCallback(vk::DebugReportCallback(1))]));
    assert!(owned.adopt(&vec![vk::Object::Surface(vk::SurfaceKHR(1))]));
    assert!(owned.adopt(&vec![vk::Object::Device]));
    assert!(owned.adopt(&render_target.release()));
    assert!(owned.adopt(&pool.release()));
    assert!(owned.adopt(&g_buffer.release()));
    assert!(owned.adopt(&render_pass.release()));
    assert!(owned.adopt(&mesh_.release()));
    assert!(owned.adopt(&vec![
        vk::Object::Semaphore(vk::Semaphore(1)),
        vk::Object::Semaphore(vk::Semaphore(2)),
        vk::Object::Semaphore(vk::Semaphore(3)),
    ]));
    assert!(owned.adopt(&shader_.release()));
    assert!(owned.adopt(&light_pass.release()));
    assert!(owned.adopt(&plane.release()));
    Parts {
        render_target,
        device,
        pool,
        render_pass,
        g_buffer,
        mesh: mesh_,
        shader: shader_,
        plane,
        light_pass,
        owned,
    }
}

fn init(p: Parts, semaphores: (u64, u64, u64)) -> Result<Renderer, RendererError> {
    Renderer::assemble(
        p.render_target,
        p.device,
        vk::DebugReportCallback(1),
        p.pool,
        p.render_pass,
        p.g_buffer,
        vk::Semaphore(semaphores.0),
        vk::Semaphore(semaphores.1),
        vk::Semaphore(semaphores.2),
        p.mesh,
        p.shader,
        p.plane,
        p.light_pass,
        p.owned,
    )
}

fn renderer() -> Renderer {
    match init(parts(), (1, 2, 3)) {
        Ok(renderer) => renderer,
        Err(error) => panic!("no renderer: {:?}", error),
    }
}

#[test]
fn instance_asks_for_validation_surface_and_debug_report() {
    let info = Instance::init("engine", "app", Platform::Xlib);
    assert_eq!(info.engine_name, "engine");
    assert_eq!(info.application_name, "app");
    assert_eq!(info.application_version, 0);
    assert_eq!(info.engine_version, 0);
    assert_eq!(info.enabled_layer_names, vec!["VK_LAYER_LUNARG_standard_validation"]);
    assert_eq!(
        info.enabled_extension_names,
        vec!["VK_KHR_surface", "VK_KHR_xlib_surface", "VK_EXT_debug_report"]
    );
    let info = Instance::init("engine", "app", Platform::Win32);
    assert_eq!(
        info.enabled_extension_names,
        vec!["VK_KHR_surface", "VK_KHR_win32_surface", "VK_EXT_debug_report"]
    );
    assert_eq!(info.enabled_extension_names[0], ash::khr::surface::NAME.to_str().unwrap());
    assert_eq!(info.enabled_extension_names[1], ash::khr::win32_surface::NAME.to_str().unwrap());
    assert_eq!(info.enabled_extension_names[2], ash::ext::debug_report::NAME.to_str().unwrap());
}

#[test]
fn api_version_is_1_0_65() {
    let info = Instance::init("engine", "app", Platform::Xlib);
    assert_eq!(info.api_version, (1 << 22) | 65);
    assert_eq!(info.api_version, API_VERSION);
    assert_eq!(info.api_version, ash::vk::make_api_version(0, 1, 0, 65));
    assert_eq!(ash::vk::api_version_major(info.api_version), 1);
    assert_eq!(ash::vk::api_version_minor(info.api_version), 0);
    assert_eq!(ash::vk::api_version_patch(info.api_version), 65);
}

#[test]
fn debug_report_covers_errors_and_warnings() {
    assert_eq!(Renderer::debug_report_flags(), 0x8 | 0x2 | 0x4);
}

#[test]
fn geometry_pass_asks_for_three_colour_attachments_and_depth() {
    let (colour, depth) = Renderer::g_buffer_requests();
    assert_eq!(
        colour,
        vec![
            (vk::FORMAT_R16G16B16A16_SFLOAT, COLOR, vk::ImageLayout::ColorAttachmentOptimal),
            (vk::FORMAT_R16G16B16A16_SFLOAT, COLOR, vk::ImageLayout::ColorAttachmentOptimal),
            (vk::FORMAT_R8G8B8A8_UNORM, COLOR, vk::ImageLayout::ColorAttachmentOptimal),
        ]
    );
    assert_eq!(depth, (vk::FORMAT_D16_UNORM, DEPTH, vk::ImageLayout::DepthStencilAttachmentOptimal));
}

#[test]
fn lighting_pass_draws_in_the_surface_format() {
    let (colour, depth) = Renderer::render_pass_requests(44);
    assert_eq!(colour, vec![(44, COLOR, vk::ImageLayout::PresentSrcKhr)]);
    assert_eq!(depth, (vk::FORMAT_D16_UNORM, DEPTH, vk::ImageLayout::DepthStencilAttachmentOptimal));
}

fn texture(n: u64) -> Texture {
    let image = Image::assemble(
        vk::Image(n),
        vk::ImageView(n),
        vk::DeviceMemory(n),
        vk::Extent2D { width: 16, height: 16 },
        vk::FORMAT_R8G8B8A8_UNORM,
        Usage::Texture,
    );
    Texture::assemble(vk::Buffer(n), vk::DeviceMemory(n + 1), image, vk::Sampler(n))
}

#[test]
fn textures_are_uploaded_in_one_submission() {
    let (diffuse, spec) = (texture(10), texture(20));
    let steps = Renderer::texture_upload(vk::CommandBuffer(1), &diffuse, &spec);
    assert_eq!(steps.len(), 6);
    match &steps[1] {
        SubmitStep::Record(recording) => {
            let mut expected = diffuse.load_texture();
            expected.extend(spec.load_texture());
            assert_eq!(recording.commands, expected);
            assert_eq!(recording.commands.len(), 6);
            assert_eq!(recording.usage, vk::COMMAND_BUFFER_USAGE_ONE_TIME_SUBMIT_BIT);
        }
        other => panic!("not a recording: {:?}", other),
    }
    match &steps[3] {
        SubmitStep::QueueSubmit(info) => {
            assert_eq!(info.wait_dst_stage_mask, vec![vk::PIPELINE_STAGE_TOP_OF_PIPE_BIT]);
            assert!(info.wait_semaphores.is_empty());
            assert!(info.signal_semaphores.is_empty());
        }
        other => panic!("not a submission: {:?}", other),
    }
}

fn dynamic(count: usize) -> DynamicUniformBuffer {
    let resource =
        Resource::assemble_with_alignment(vk::Buffer(30), vk::DeviceMemory(30), count * 256, 256);
    DynamicUniformBuffer::assemble::<[u8; 192]>(256, count, resource).unwrap()
}

#[test]
fn geometry_shader_bindings() {
    let mv = UniformBuffer::assemble::<[u8; 128]>(Resource::assemble(
        vk::Buffer(40),
        vk::DeviceMemory(40),
        128,
    ))
    .unwrap();
    let uniforms = Renderer::geometry_uniforms(&texture(10), &texture(20), &mv, &dynamic(3));
    let summary: Vec<(u32, u32, u32, vk::DescriptorType)> =
        uniforms.iter().map(|u| (u.binding, u.set, u.stage, u.data.descriptor_type)).collect();
    let (vertex, fragment) = (vk::SHADER_STAGE_VERTEX_BIT, vk::SHADER_STAGE_FRAGMENT_BIT);
    assert_eq!(
        summary,
        vec![
            (1, 0, fragment, vk::DescriptorType::CombinedImageSampler),
            (2, 0, fragment, vk::DescriptorType::CombinedImageSampler),
            (0, 0, vertex, vk::DescriptorType::UniformBuffer),
            (3, 0, vertex, vk::DescriptorType::UniformBufferDynamic),
        ]
    );
    assert_eq!(uniforms[0].data.image_info, Some(texture(10).descriptor));
    assert_eq!(uniforms[1].data.image_info, Some(texture(20).descriptor));
    assert_eq!(uniforms[2].data.buffer_info, Some(mv.dynamic.descriptor));
    assert_eq!(uniforms[3].data.buffer_info, Some(dynamic(3).dynamic.descriptor));
}

#[test]
fn lighting_shader_reads_the_geometry_buffer() {
    let p = parts();
    let lights = UniformBuffer::assemble::<[u8; 64]>(Resource::assemble(
        vk::Buffer(50),
        vk::DeviceMemory(50),
        64,
    ))
    .unwrap();
    let uniforms = Renderer::light_uniforms(&p.g_buffer, &lights).unwrap();
    assert_eq!(uniforms.len(), 4);
    for i in 0..3 {
        assert_eq!(uniforms[i].binding, 1 + i as u32);
        assert_eq!(uniforms[i].set, 0);
        assert_eq!(uniforms[i].stage, vk::SHADER_STAGE_FRAGMENT_BIT);
        assert_eq!(uniforms[i].data.image_info, Some(p.g_buffer.colour_attachments[i].descriptor));
    }
    assert_eq!(uniforms[3].binding, 4);
    assert_eq!(uniforms[3].stage, vk::SHADER_STAGE_FRAGMENT_BIT);
    assert_eq!(uniforms[3].data.descriptor_type, vk::DescriptorType::UniformBuffer);
    assert_eq!(uniforms[3].data.buffer_info, Some(lights.dynamic.descriptor));
}

#[test]
fn geometry_pass_draws_every_instance_at_its_offset() {
    let (shader, mesh) = (shader(600), mesh(400));
    let commands = Renderer::offscreen_commands(&shader, &mesh, &dynamic(3), 3).unwrap();
    let bind = |offset: u32| Command::BindDescriptorSets {
        layout: vk::PipelineLayout(600),
        first_set: 0,
        descriptor_set: vk::DescriptorSet(600),
        dynamic_offset: Some(offset),
    };
    let mut expected = vec![
        Command::SetViewport { width: 800, height: 600 },
        Command::SetScissor(vk::Rect2D { offset: vk::Offset2D { x: 0, y: 0 }, extent: EXTENT }),
        Command::BindPipeline(vk::Pipeline(600)),
    ];
    for i in 0..3 {
        expected.push(bind(i * 256));
        expected.extend(mesh.draw());
    }
    assert_eq!(commands, expected);
    assert!(!commands.contains(&Command::EndRenderPass));
}

#[test]
fn geometry_pass_needs_a_transform_for_every_instance() {
    let (shader, mesh) = (shader(600), mesh(400));
    assert!(Renderer::offscreen_commands(&shader, &mesh, &dynamic(3), 4).is_none());
    assert!(Renderer::offscreen_commands(&shader, &mesh, &dynamic(0), 1).is_none());
    let none = Renderer::offscreen_commands(&shader, &mesh, &dynamic(0), 0).unwrap();
    assert_eq!(none.len(), 3);
    assert_eq!(none[2], Command::BindPipeline(vk::Pipeline(600)));
    assert_eq!(Renderer::offscreen_commands(&shader, &mesh, &dynamic(3), 2).unwrap().len(), 11);
}

#[test]
fn lighting_pass_draws_the_plane() {
    let (light_pass, plane) = (shader(700), mesh(500));
    let commands = Renderer::present_commands(&light_pass, &plane);
    let mut expected = vec![
        Command::SetViewport { width: 800, height: 600 },
        Command::SetScissor(vk::Rect2D { offset: vk::Offset2D { x: 0, y: 0 }, extent: EXTENT }),
        Command::BindPipeline(vk::Pipeline(700)),
        Command::BindDescriptorSets {
            layout: vk::PipelineLayout(700),
            first_set: 0,
            descriptor_set: vk::DescriptorSet(700),
            dynamic_offset: None,
        },
    ];
    expected.extend(plane.draw());
    assert_eq!(commands, expected);
}

#[test]
fn renderer_starts_idle_with_the_pools_buffers() {
    let r = renderer();
    assert_eq!(r.frame.state, FrameState::Idle);
    assert_eq!(r.frame.present_complete_semaphore, vk::Semaphore(1));
    assert_eq!(r.frame.rendering_complete_semaphore, vk::Semaphore(2));
    assert_eq!(r.frame.offscreen_semaphore, vk::Semaphore(3));
    assert_eq!(r.frame.off_screen_command_buffer, vk::CommandBuffer(2));
    assert_eq!(r.frame.draw_command_buffer, r.pool.draw_command_buffer);
    assert_eq!(r.get_device(), &r.device);
    assert_eq!(r.debug_call_back, vk::DebugReportCallback(1));
}

#[test]
fn renderer_renders_frames() {
    let mut r = renderer();
    for image in [2u32, 0, 1] {
        let acquire = r.render(FrameEvent::Render).unwrap();
        assert_eq!(
            acquire,
            FrameAction::AcquireNextImage { timeout: u64::MAX, signal: vk::Semaphore(1) }
        );
        match r.render(FrameEvent::ImageAcquired(image)).unwrap() {
            FrameAction::QueueSubmit(s) => {
                assert_eq!(s.wait_semaphore, vk::Semaphore(1));
                assert_eq!(s.signal_semaphore, vk::Semaphore(3));
                assert_eq!(s.command_buffer, vk::CommandBuffer(2));
            }
            other => panic!("not a submission: {:?}", other),
        }
        match r.render(FrameEvent::Completed).unwrap() {
            FrameAction::QueueSubmit(s) => {
                assert_eq!(s.wait_semaphore, vk::Semaphore(3));
                assert_eq!(s.signal_semaphore, vk::Semaphore(2));
                assert_eq!(s.command_buffer, vk::CommandBuffer(11 + image as u64));
            }
            other => panic!("not a submission: {:?}", other),
        }
        assert_eq!(
            r.render(FrameEvent::Completed),
            Some(FrameAction::QueuePresent { wait: vk::Semaphore(2), image_index: image })
        );
        assert_eq!(r.render(FrameEvent::Completed), Some(FrameAction::QueueWaitIdle));
        assert_eq!(r.frame.state, FrameState::Idle);
    }
}

#[test]
fn renderer_checks_its_parts() {
    assert_eq!(init(parts(), (1, 1, 3)).err(), Some(RendererError::SemaphoresNotDistinct));
    assert_eq!(init(parts(), (1, 2, 2)).err(), Some(RendererError::SemaphoresNotDistinct));
    let mut p = parts();
    p.g_buffer.frame_buffers.push(vk::Framebuffer(999));
    assert_eq!(init(p, (1, 2, 3)).err(), Some(RendererError::FramebufferMismatch));
    let mut p = parts();
    p.render_pass.frame_buffers.pop();
    assert_eq!(init(p, (1, 2, 3)).err(), Some(RendererError::FramebufferMismatch));
    let mut p = parts();
    p.pool.draw_command_buffer.pop();
    assert_eq!(init(p, (1, 2, 3)).err(), Some(RendererError::FramebufferMismatch));
    let mut p = parts();
    p.mesh.vertex_offset = 1 << 31;
    assert_eq!(init(p, (1, 2, 3)).err(), Some(RendererError::NotDrawable));
    let mut p = parts();
    p.light_pass.descriptor_sets.clear();
    assert_eq!(init(p, (1, 2, 3)).err(), Some(RendererError::NotDrawable));
}

#[test]
fn renderer_owns_all_its_parts() {
    assert_eq!(init(parts(), (1, 2, 4)).err(), Some(RendererError::NotOwned));
    let mut p = parts();
    p.plane = mesh(900);
    assert_eq!(init(p, (1, 2, 3)).err(), Some(RendererError::NotOwned));
    let mut p = parts();
    p.owned = Ownership::new();
    assert_eq!(init(p, (1, 2, 3)).err(), Some(RendererError::NotOwned));
    let mut p = parts();
    p.owned.teardown();
    assert_eq!(init(p, (1, 2, 3)).err(), Some(RendererError::NotOwned));
}

fn destroyed(steps: &[TeardownStep]) -> Vec<vk::Object> {
    steps
        .iter()
        .filter_map(|step| match step {
            TeardownStep::Destroy(object) => Some(*object),
            TeardownStep::DeviceWaitIdle => None,
        })
        .collect()
}

#[test]
fn teardown_waits_then_destroys_everything_once() {
    let mut r = renderer();
    let mut expected: Vec<vk::Object> = Vec::new();
    expected.extend(r.light_pass.release());
    expected.extend(r.shader.release());
    expected.extend(r.plane.release());
    expected.extend(r.mesh.release());
    expected.extend(r.render_pass.release());
    expected.extend(r.g_buffer.release());
    expected.extend(r.pool.release());
    expected.extend(r.render_target.release());
    for n in 1..=3 {
        expected.push(vk::Object::Semaphore(vk::Semaphore(n)));
    }
    expected.push(vk::Object::Device);
    expected.push(vk::Object::Surface(vk::SurfaceKHR(1)));
    expected.push(vk::Object::DebugReportCallback(vk::DebugReportCallback(1)));
    expected.push(vk::Object::Instance);
    let steps = r.teardown();
    assert_eq!(steps[0], TeardownStep::DeviceWaitIdle);
    let objects = destroyed(&steps);
    assert_eq!(objects.len(), steps.len() - 1);
    assert_eq!(objects.len(), expected.len());
    for object in &expected {
        assert_eq!(objects.iter().filter(|o| *o == object).count(), 1, "{:?}", object);
    }
}

#[test]
fn teardown_destroys_the_device_after_its_dependents() {
    let mut r = renderer();
    let objects = destroyed(&r.teardown());
    let device = objects.iter().position(|o| *o == vk::Object::Device).unwrap();
    assert_eq!(
        objects[device..].to_vec(),
        vec![
            vk::Object::Device,
            vk::Object::Surface(vk::SurfaceKHR(1)),
            vk::Object::DebugReportCallback(vk::DebugReportCallback(1)),
            vk::Object::Instance,
        ]
    );
    let at = |object: vk::Object| objects.iter().position(|o| *o == object).unwrap();
    assert!(at(vk::Object::Framebuffer(vk::Framebuffer(100))) < at(vk::Object::ImageView(vk::ImageView(101))));
    assert!(at(vk::Object::ImageView(vk::ImageView(101))) < at(vk::Object::Image(vk::Image(101))));
    assert!(at(vk::Object::Image(vk::Image(104))) < at(vk::Object::DeviceMemory(vk::DeviceMemory(100))));
    assert!(at(vk::Object::ImageView(vk::ImageView(303))) < at(vk::Object::Swapchain(vk::SwapchainKHR(1))));
    assert!(at(vk::Object::Framebuffer(vk::Framebuffer(203))) < at(vk::Object::ImageView(vk::ImageView(303))));
}

#[test]
fn second_teardown_does_nothing() {
    let mut r = renderer();
    assert!(!r.teardown().is_empty());
    assert_eq!(r.teardown(), vec![]);
    assert_eq!(r.teardown(), vec![]);
    assert_eq!(r.owned.len(), 0);
}
