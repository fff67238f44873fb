use rustvulkan::device::Device;
use rustvulkan::driver::{Data, PlanError, Reply, Request, Step};
use rustvulkan::frame::{FrameAction, FrameEvent};
use rustvulkan::memory::{MemoryRequirements, MemoryType, PhysicalDeviceMemoryProperties};
use rustvulkan::mesh::Mesh;
use rustvulkan::renderer::Renderer;
use rustvulkan::renderer_plan::RendererInputs;
use rustvulkan::resource::MappedRange;
use rustvulkan::scene_plan::{Assets, Geometry, Lighting, ShaderCode, Targets, TextureSize};
use rustvulkan::shader::VertexLayout;
use rustvulkan::surface::{
    RVSurface, RVSurfaceCapabilities, SurfaceCapabilitiesKHR, SurfaceFormatKHR,
};
use rustvulkan::vk;

const EXTENT: vk::Extent2D = vk::Extent2D { width: 800, height: 600 };
const SPIRV: [u8; 8] = [0x03, 0x02, 0x23, 0x07, 1, 0, 0, 0];
const VERTEX: VertexLayout = VertexLayout { stride: 44, pos: 0, tangent: 24, normal: 12, uv: 36 };

type Transform = [u8; 192];
type View = [u8; 128];
type Lights = [u8; 176];

/// A driver that hands out handles by counting and remembers what it was
/// asked.
struct Counting {
    next: u64,
    swapchain_images: usize,
    repeat_semaphore: bool,
    requests: Vec<Request>,
}

impl Counting {
    fn new(swapchain_images: usize) -> Counting {
        Counting { next: 100, swapchain_images, repeat_semaphore: false, requests: Vec::new() }
    }

    fn fresh(&mut self) -> u64 {
        self.next += 1;
        self.next
    }

    fn requirements(size: u64) -> MemoryRequirements {
        MemoryRequirements { size: (size + 63) / 64 * 64, alignment: 64, memory_type_bits: 0b11 }
    }

    fn perform(&mut self, request: Request) -> Reply {
        self.requests.push(request.clone());
        match request {
            Request::CreateSampler(_) => Reply::Sampler(vk::Sampler(self.fresh())),
            Request::CreateImage(info) => Reply::Image(
                vk::Image(self.fresh()),
                Counting::requirements(4 * info.extent.width as u64 * info.extent.height as u64),
            ),
            Request::CreateBuffer(info) => {
                Reply::Buffer(vk::Buffer(self.fresh()), Counting::requirements(info.size))
            }
            Request::AllocateMemory(_) => Reply::Memory(vk::DeviceMemory(self.fresh())),
            Request::CreateImageView(_) => Reply::ImageView(vk::ImageView(self.fresh())),
            Request::CreateRenderPass(_) => Reply::RenderPass(vk::RenderPassHandle(self.fresh())),
            Request::CreateFramebuffer(_) => Reply::Framebuffer(vk::Framebuffer(self.fresh())),
            Request::CreateDescriptorPool(_) => {
                Reply::DescriptorPool(vk::DescriptorPool(self.fresh()))
            }
            Request::CreateDescriptorSetLayout(_) => {
                Reply::DescriptorSetLayout(vk::DescriptorSetLayout(self.fresh()))
            }
            Request::AllocateDescriptorSet { .. } => {
                Reply::DescriptorSet(vk::DescriptorSet(self.fresh()))
            }
            Request::CreatePipelineLayout(_) => {
                Reply::PipelineLayout(vk::PipelineLayout(self.fresh()))
            }
            Request::CreateShaderModule(_) => Reply::ShaderModule(vk::ShaderModule(self.fresh())),
            Request::CreateGraphicsPipeline { .. } => Reply::Pipeline(vk::Pipeline(self.fresh())),
            Request::CreateCommandPool(_) => Reply::CommandPool(vk::CommandPool(self.fresh())),
            Request::AllocateCommandBuffers(info) => Reply::CommandBuffers(
                (0..info.command_buffer_count).map(|_| vk::CommandBuffer(self.fresh())).collect(),
            ),
            Request::CreateSwapchain(_) => Reply::Swapchain(
                vk::SwapchainKHR(self.fresh()),
                (0..self.swapchain_images).map(|_| vk::Image(self.fresh())).collect(),
            ),
            Request::CreateSemaphore => {
                if self.repeat_semaphore {
                    Reply::Semaphore(vk::Semaphore(7))
                } else {
                    Reply::Semaphore(vk::Semaphore(self.fresh()))
                }
            }
            Request::BindImageMemory { .. }
            | Request::BindBufferMemory { .. }
            | Request::Write { .. }
            | Request::WriteFrom { .. }
            | Request::Submit(_)
            | Request::Destroy(_)
            | Request::Record(_)
            | Request::UpdateDescriptorSets(_) => Reply::Done,
        }
    }
}

fn run<T>(driver: &mut Counting, plan: impl Fn(&Vec<Reply>) -> Step<T>) -> (Result<T, PlanError>, Vec<Reply>) {
    let mut replies = Vec::new();
    loop {
        match plan(&replies) {
            Step::Ask(request) => replies.push(driver.perform(request)),
            Step::Done(built) => return (Ok(built), replies),
            Step::Fail(error) => return (Err(error), replies),
        }
    }
}

fn props() -> PhysicalDeviceMemoryProperties {
    PhysicalDeviceMemoryProperties::new(vec![
        MemoryType {
            property_flags: vk::MEMORY_PROPERTY_HOST_VISIBLE_BIT | vk::MEMORY_PROPERTY_HOST_COHERENT_BIT,
            heap_index: 0,
        },
        MemoryType { property_flags: vk::MEMORY_PROPERTY_DEVICE_LOCAL_BIT, heap_index: 1 },
    ])
}

fn code() -> ShaderCode {
    ShaderCode { frag_bytes: SPIRV.to_vec(), vertex_bytes: SPIRV.to_vec() }
}

fn inputs() -> RendererInputs {
    RendererInputs {
        surface: RVSurface::init(vk::SurfaceKHR(3)),
        capabilities: RVSurfaceCapabilities {
            capabilities: SurfaceCapabilitiesKHR {
                min_image_count: 2,
                max_image_count: 8,
                current_extent: EXTENT,
                supported_transforms: 1,
                current_transform: 1,
            },
            pre_transform: 1,
            desired_image_count: 3,
            resolution: EXTENT,
            format: SurfaceFormatKHR { format: vk::FORMAT_B8G8R8_UNORM, color_space: 0 },
        },
        present_mode: 2,
        device: Device::init(0, props(), 256),
        debug_call_back: vk::DebugReportCallback(5),
        diffuse_texture: TextureSize {
            pixel_bytes: 16 * 8 * 4,
            extent: vk::Extent2D { width: 16, height: 8 },
        },
        spec_texture: TextureSize {
            pixel_bytes: 4 * 4 * 4,
            extent: vk::Extent2D { width: 4, height: 4 },
        },
        mesh: Mesh::sizes(36, 24, 44).unwrap(),
        plane: Mesh::sizes(6, 4, 44).unwrap(),
        vertex: VERTEX,
        geometry_code: code(),
        lighting_code: code(),
        instances: 3,
    }
}

fn renderer_plan(inputs: &RendererInputs) -> impl Fn(&Vec<Reply>) -> Step<Renderer> + '_ {
    move |replies: &Vec<Reply>| Renderer::init::<Transform, View, Lights>(inputs, replies)
}

fn failure<T>(step: Step<T>) -> Option<PlanError> {
    match step {
        Step::Fail(error) => Some(error),
        _ => None,
    }
}

fn asked<T>(step: Step<T>) -> Option<Request> {
    match step {
        Step::Ask(request) => Some(request),
        _ => None,
    }
}

#[test]
fn targets_are_the_pool_and_the_two_passes() {
    let mut driver = Counting::new(0);
    let views = vec![vk::ImageView(1), vk::ImageView(2), vk::ImageView(3)];
    let plan = |replies: &Vec<Reply>| {
        Targets::init(4, EXTENT, vk::FORMAT_B8G8R8_UNORM, &views, &props(), replies)
    };
    let (targets, replies) = run(&mut driver, plan);
    let targets = targets.ok().unwrap();
    assert_eq!(replies.len(), 28 + 3);
    assert_eq!(replies[0], Reply::CommandPool(targets.pool.pool));
    assert_eq!(targets.pool.draw_command_buffer.len(), 3);
    assert_eq!(replies[3], Reply::Sampler(targets.g_buffer.sampler));
    assert_eq!(targets.g_buffer.colour_attachments.len(), 3);
    assert_eq!(targets.g_buffer.frame_buffers.len(), 1);
    assert_eq!(replies[18], Reply::Framebuffer(targets.g_buffer.frame_buffers[0]));
    assert_eq!(replies[19], Reply::Sampler(targets.render_pass.sampler));
    assert_eq!(targets.render_pass.colour_attachments.len(), 1);
    assert_eq!(targets.render_pass.frame_buffers.len(), 3);
    assert_eq!(replies[30], Reply::Framebuffer(targets.render_pass.frame_buffers[2]));
    match &driver.requests[29] {
        Request::CreateFramebuffer(info) => {
            assert_eq!(info.attachments, vec![views[1], targets.render_pass.depth.descriptor.image_view])
        }
        other => panic!("{:?}", other),
    }
    for at in [0, 2, 3, 18, 19, 30] {
        let mut bad = replies.clone();
        bad[at] = Reply::Semaphore(vk::Semaphore(1));
        assert_eq!(failure(plan(&bad)), Some(PlanError::UnexpectedReply(at)));
    }
    let mut long = replies.clone();
    long.push(Reply::Done);
    assert_eq!(failure(plan(&long)), Some(PlanError::UnexpectedReply(31)));
}

#[test]
fn assets_write_each_value_from_its_own_source() {
    let mut driver = Counting::new(0);
    let given = inputs();
    let plan = |replies: &Vec<Reply>| {
        Assets::init(
            given.diffuse_texture,
            given.spec_texture,
            given.mesh,
            vk::CommandBuffer(9),
            &props(),
            replies,
        )
    };
    let (assets, replies) = run(&mut driver, plan);
    let assets = assets.ok().unwrap();
    assert_eq!(replies.len(), 37);
    let writes: Vec<(usize, Data, usize, u64)> = driver
        .requests
        .iter()
        .enumerate()
        .filter_map(|(at, request)| match request {
            Request::WriteFrom { range, data, source } => Some((at, *data, *source, range.size)),
            Request::Write { .. } => panic!("a write without a source"),
            _ => None,
        })
        .collect();
    assert_eq!(writes.len(), 4);
    assert_eq!((writes[0].1, writes[0].2, writes[0].3), (Data::Pixels, 0, 512));
    assert_eq!((writes[1].1, writes[1].2, writes[1].3), (Data::Pixels, 1, 64));
    assert_eq!((writes[2].1, writes[2].2, writes[2].3), (Data::Indices, 0, 144));
    assert_eq!((writes[3].1, writes[3].2, writes[3].3), (Data::Vertices, 0, 24 * 44));
    assert!(writes[0].0 < 9 && 9 <= writes[1].0 && writes[1].0 < 18 && 18 <= writes[2].0);
    assert_eq!(
        driver.requests[36],
        Request::Submit(Renderer::texture_upload(
            vk::CommandBuffer(9),
            &assets.diffuse_texture,
            &assets.spec_texture
        ))
    );
    assert_eq!(assets.mesh.index_buffer_len, 36);
    assert_eq!(assets.diffuse_texture.texture_image.dimensions, given.diffuse_texture.extent);
    assert_eq!(assets.spec_texture.texture_image.dimensions, given.spec_texture.extent);
    for at in [0, 8, 9, 17, 18, 35, 36] {
        let mut bad = replies.clone();
        bad[at] = Reply::Semaphore(vk::Semaphore(1));
        assert_eq!(failure(plan(&bad)), Some(PlanError::UnexpectedReply(at)));
    }
    let mut long = replies.clone();
    long.push(Reply::Done);
    assert_eq!(failure(plan(&long)), Some(PlanError::UnexpectedReply(37)));
}

fn some_assets() -> Assets {
    let given = inputs();
    run(&mut Counting::new(0), |replies| {
        Assets::init(
            given.diffuse_texture,
            given.spec_texture,
            given.mesh,
            vk::CommandBuffer(9),
            &props(),
            replies,
        )
    })
    .0
    .ok()
    .unwrap()
}

#[test]
fn geometry_is_the_transforms_the_view_and_the_shader() {
    let assets = some_assets();
    let mut driver = Counting::new(0);
    let plan = |replies: &Vec<Reply>| {
        Geometry::init::<Transform, View>(
            256,
            3,
            &assets,
            EXTENT,
            vk::RenderPassHandle(7),
            &code(),
            VERTEX,
            &props(),
            replies,
        )
    };
    let (geometry, replies) = run(&mut driver, plan);
    let geometry = geometry.ok().unwrap();
    assert_eq!(replies.len(), 18);
    assert_eq!(
        driver.requests[3],
        Request::WriteFrom {
            range: MappedRange {
                memory: geometry.uniform_buffer.dynamic.memory,
                offset: 0,
                size: 768,
                alignment: 256
            },
            data: Data::Uniform,
            source: 0,
        }
    );
    assert_eq!(
        driver.requests[7],
        Request::WriteFrom {
            range: MappedRange { memory: geometry.mv.dynamic.memory, offset: 0, size: 128, alignment: 1 },
            data: Data::Uniform,
            source: 1,
        }
    );
    assert_eq!(geometry.uniform_buffer.align, 256);
    assert_eq!(geometry.uniform_buffer.count, 3);
    assert_eq!(
        geometry.shader.uniform_buffers,
        Renderer::geometry_uniforms(
            &assets.diffuse_texture,
            &assets.spec_texture,
            &geometry.mv,
            &geometry.uniform_buffer
        )
    );
    match &driver.requests[15] {
        Request::CreateGraphicsPipeline { info, .. } => {
            assert_eq!(info.render_pass, vk::RenderPassHandle(7));
            assert_eq!(info.color_blend_attachments.len(), 3);
        }
        other => panic!("{:?}", other),
    }
    assert_eq!(
        failure(Geometry::init::<Transform, View>(
            0,
            3,
            &assets,
            EXTENT,
            vk::RenderPassHandle(7),
            &code(),
            VERTEX,
            &props(),
            &[]
        )),
        Some(PlanError::TooLarge)
    );
    let mut bad = replies.clone();
    bad[9] = Reply::Done;
    assert_eq!(failure(plan(&bad)), Some(PlanError::UnexpectedReply(9)));
}

#[test]
fn lighting_reads_the_colour_attachments_of_the_geometry_pass() {
    let views = vec![vk::ImageView(1)];
    let targets = run(&mut Counting::new(0), |replies| {
        Targets::init(4, EXTENT, vk::FORMAT_B8G8R8_UNORM, &views, &props(), replies)
    })
    .0
    .ok()
    .unwrap();
    let mut driver = Counting::new(0);
    let plan = |replies: &Vec<Reply>| {
        Lighting::init::<Lights>(
            &targets.g_buffer,
            EXTENT,
            targets.render_pass.render_pass,
            &code(),
            VERTEX,
            Mesh::sizes(6, 4, 44).unwrap(),
            vk::CommandBuffer(9),
            &props(),
            replies,
        )
    };
    let (lighting, replies) = run(&mut driver, plan);
    let lighting = lighting.ok().unwrap();
    assert_eq!(replies.len(), 32);
    let sources: Vec<(Data, usize)> = driver
        .requests
        .iter()
        .filter_map(|request| match request {
            Request::WriteFrom { data, source, .. } => Some((*data, *source)),
            _ => None,
        })
        .collect();
    assert_eq!(sources, vec![(Data::Uniform, 2), (Data::Indices, 1), (Data::Vertices, 1)]);
    assert_eq!(
        lighting.light_pass.uniform_buffers,
        Renderer::light_uniforms(&targets.g_buffer, &lighting.lights).unwrap()
    );
    assert_eq!(lighting.light_pass.uniform_buffers.len(), 4);
    for i in 0..3 {
        assert_eq!(
            lighting.light_pass.uniform_buffers[i].data.image_info,
            Some(targets.g_buffer.colour_attachments[i].descriptor)
        );
        assert_eq!(lighting.light_pass.uniform_buffers[i].binding, 1 + i as u32);
    }
    assert_eq!(lighting.light_pass.uniform_buffers[3].binding, 4);
    assert_eq!(lighting.plane.index_buffer_len, 6);
    match &driver.requests[11] {
        Request::CreateGraphicsPipeline { info, .. } => {
            assert_eq!(info.render_pass, targets.render_pass.render_pass);
            assert_eq!(info.color_blend_attachments.len(), 1);
        }
        other => panic!("{:?}", other),
    }
}

#[test]
fn renderer_is_built_in_one_conversation() {
    for k in [1usize, 3] {
        let given = inputs();
        let mut driver = Counting::new(k);
        let (renderer, replies) = run(&mut driver, renderer_plan(&given));
        let mut renderer = renderer.ok().unwrap();
        assert_eq!(replies.len(), 120 + 3 * k);
        assert_eq!(renderer.render_target.swap_chain.image_views.len(), k);
        assert_eq!(renderer.render_pass.frame_buffers.len(), k);
        assert_eq!(renderer.pool.draw_command_buffer.len(), k);
        assert_eq!(renderer.g_buffer.frame_buffers.len(), 1);
        assert_eq!(renderer.device, given.device);
        assert_eq!(renderer.debug_call_back, given.debug_call_back);
        assert_eq!(replies[0], Reply::Swapchain(renderer.render_target.swap_chain.handle, renderer.render_target.swap_chain.images.clone()));
        assert_eq!(replies[1 + k], Reply::CommandPool(renderer.pool.pool));
        assert_eq!(replies[66 + 2 * k], Reply::Semaphore(renderer.frame.present_complete_semaphore));
        assert_eq!(replies[67 + 2 * k], Reply::Semaphore(renderer.frame.rendering_complete_semaphore));
        assert_eq!(replies[68 + 2 * k], Reply::Semaphore(renderer.frame.offscreen_semaphore));
        assert_eq!(replies[84 + 2 * k], Reply::Pipeline(renderer.shader.graphics_pipeline));
        assert_eq!(replies[98 + 2 * k], Reply::Pipeline(renderer.light_pass.graphics_pipeline));
        let scene = Renderer::offscreen_commands(
            &renderer.shader,
            &renderer.mesh,
            &rustvulkan::uniform::DynamicUniformBuffer::assemble::<Transform>(
                256,
                3,
                rustvulkan::resource::Resource::assemble_with_alignment(
                    vk::Buffer(0),
                    vk::DeviceMemory(0),
                    768,
                    256,
                ),
            )
            .unwrap(),
            3,
        )
        .unwrap();
        assert_eq!(
            driver.requests[119 + 2 * k],
            Request::Record(
                renderer
                    .g_buffer
                    .record_commands(&vec![renderer.pool.off_screen_command_buffer], &scene)
                    .remove(0)
            )
        );
        let lighting = Renderer::present_commands(&renderer.light_pass, &renderer.plane);
        let draws = renderer.render_pass.record_commands(&renderer.pool.draw_command_buffer, &lighting);
        for j in 0..k {
            assert_eq!(driver.requests[120 + 2 * k + j], Request::Record(draws[j].clone()));
        }
        // Everything that was created is owned, once, and the device goes
        // after all that was created from it.
        let order = renderer.owned.destruction_order();
        assert_eq!(order.last(), Some(&vk::Object::Instance));
        let device_at = order.iter().position(|o| *o == vk::Object::Device).unwrap();
        for (at, object) in order.iter().enumerate() {
            assert!(!order[at + 1..].contains(object), "{:?} is owned twice", object);
            match object {
                vk::Object::Instance
                | vk::Object::Device
                | vk::Object::Surface(_)
                | vk::Object::DebugReportCallback(_) => assert!(at >= device_at),
                _ => assert!(at < device_at),
            }
        }
        // The framebuffers of the lighting pass go before the views they
        // draw to, and before the pass they belong to.
        let place = |object: vk::Object| order.iter().position(|o| *o == object).unwrap();
        for (j, framebuffer) in renderer.render_pass.frame_buffers.iter().enumerate() {
            let view = renderer.render_target.swap_chain.image_views[j];
            assert!(place(vk::Object::Framebuffer(*framebuffer)) < place(vk::Object::ImageView(view)));
            assert!(
                place(vk::Object::Framebuffer(*framebuffer))
                    < place(vk::Object::RenderPass(renderer.render_pass.render_pass))
            );
        }
        assert!(!order.iter().any(|object| matches!(object, vk::Object::ShaderModule(_))));
        assert_eq!(order[0], vk::Object::Buffer(renderer.plane.vertex_buffer));
        assert!(order.contains(&vk::Object::Swapchain(renderer.render_target.swap_chain.handle)));
        assert!(order.contains(&vk::Object::Semaphore(renderer.frame.offscreen_semaphore)));
        // The renderer is ready for its first frame.
        assert_eq!(
            renderer.render(FrameEvent::Render),
            Some(FrameAction::AcquireNextImage {
                timeout: u64::MAX,
                signal: renderer.frame.present_complete_semaphore,
            })
        );
    }
}

#[test]
fn renderer_planner_counts_unexpected_answers_from_the_start() {
    let k = 2;
    let given = inputs();
    let mut driver = Counting::new(k);
    let (_, good) = run(&mut driver, renderer_plan(&given));
    let plan = renderer_plan(&given);
    assert_eq!(good.len(), 126);
    for at in [0, 2, 3, 5, 6, 21, 22, 32, 33, 41, 42, 50, 51, 68, 69, 70, 71, 72, 73, 76, 77, 86, 87, 90, 91, 96, 97, 98, 99, 100, 101, 102, 103, 122, 123, 124, 125] {
        let mut bad = good.clone();
        bad[at] = match good[at] {
            Reply::Semaphore(_) => Reply::Sampler(vk::Sampler(1)),
            _ => Reply::Semaphore(vk::Semaphore(1)),
        };
        assert_eq!(failure(plan(&bad)), Some(PlanError::UnexpectedReply(at)), "at {}", at);
        assert_eq!(asked(plan(&good[..at].to_vec())).as_ref(), Some(&driver.requests[at]), "at {}", at);
    }
    let mut long = good.clone();
    long.push(Reply::Done);
    assert_eq!(failure(plan(&long)), Some(PlanError::UnexpectedReply(126)));
}

#[test]
fn renderer_planner_gives_up_where_its_parts_give_up() {
    let mut given = inputs();
    given.lighting_code.frag_bytes = vec![1, 2, 3];
    let (none, replies) = run(&mut Counting::new(2), renderer_plan(&given));
    assert_eq!(none.err(), Some(PlanError::NotSpirv));
    assert_eq!(replies.len(), 87 + 4 + 4);
    let mut given = inputs();
    given.device = Device::init(
        0,
        PhysicalDeviceMemoryProperties::new(vec![MemoryType {
            property_flags: vk::MEMORY_PROPERTY_HOST_VISIBLE_BIT,
            heap_index: 0,
        }]),
        256,
    );
    let (none, replies) = run(&mut Counting::new(2), renderer_plan(&given));
    assert_eq!(none.err(), Some(PlanError::Attachments(rustvulkan::g_buffer::AttachmentError::NoMemoryType)));
    assert_eq!(replies.len(), 3 + 3 + 5);
    let mut given = inputs();
    given.device = Device::init(0, props(), 0);
    let (none, replies) = run(&mut Counting::new(2), renderer_plan(&given));
    assert_eq!(none.err(), Some(PlanError::TooLarge));
    assert_eq!(replies.len(), 73);
    let mut given = inputs();
    given.instances = 0;
    let (renderer, _) = run(&mut Counting::new(2), renderer_plan(&given));
    assert!(renderer.is_ok());
}

#[test]
fn renderer_is_not_made_of_objects_handed_out_twice() {
    let given = inputs();
    let mut driver = Counting::new(2);
    driver.repeat_semaphore = true;
    let (none, replies) = run(&mut driver, renderer_plan(&given));
    assert_eq!(none.err(), Some(PlanError::HandedOutTwice));
    assert_eq!(replies.len(), 123);
    assert!(!driver.requests.iter().any(|request| matches!(request, Request::Record(_))));
    // A semaphore that is handed out a second time.
    let mut driver = Counting::new(2);
    let (_, mut replies) = run(&mut driver, renderer_plan(&given));
    let first = replies[70].clone();
    replies[71] = first;
    assert_eq!(failure(renderer_plan(&given)(&replies)), Some(PlanError::HandedOutTwice));
}

#[test]
fn targets_are_not_planned_for_more_views_than_a_planner_deals_with() {
    let views = vec![vk::ImageView(1); rustvulkan::driver::MAX_ITEMS + 1];
    let step = Targets::init(4, EXTENT, vk::FORMAT_B8G8R8_UNORM, &views, &props(), &[]);
    assert_eq!(failure(step), Some(PlanError::TooMany));
    let step = Targets::init(
        4,
        EXTENT,
        vk::FORMAT_B8G8R8_UNORM,
        &views[..rustvulkan::driver::MAX_ITEMS].to_vec(),
        &props(),
        &[],
    );
    assert!(asked(step).is_some());
}
