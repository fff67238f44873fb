use rustvulkan::deferred::GBuffer;
use rustvulkan::g_buffer::{Attachment, AttachmentReference};
use rustvulkan::mesh::Mesh;
use rustvulkan::renderer::Renderer;
use rustvulkan::resource::Resource;
use rustvulkan::shader::Shader;
use rustvulkan::uniform::UniformBuffer;
use rustvulkan::vk;
use rustvulkan::vk_commands::{ClearValue, Command, Pool};

const COLOR: u32 = vk::IMAGE_USAGE_COLOR_ATTACHMENT_BIT;
const DEPTH: u32 = vk::IMAGE_USAGE_DEPTH_STENCIL_ATTACHMENT_BIT;
const EXTENT: vk::Extent2D = vk::Extent2D { width: 800, height: 600 };

fn attachment(n: u64, usage: u32) -> Attachment {
    Attachment {
        image: vk::Image(n),
        format: vk::FORMAT_R8G8B8A8_UNORM,
        usage,
        descriptor: vk::DescriptorImageInfo {
            sampler: vk::Sampler(9),
            image_view: vk::ImageView(100 + n),
            image_layout: vk::ImageLayout::ShaderReadOnlyOptimal,
        },
    }
}

fn attachments() -> Vec<Attachment> {
    vec![attachment(1, COLOR), attachment(2, COLOR), attachment(3, COLOR), attachment(4, DEPTH)]
}

fn shader(n: u64) -> Shader {
    Shader::assemble(
        EXTENT,
        vk::Pipeline(n),
        vk::PipelineLayout(n),
        vec![vk::DescriptorSet(n)],
        vec![vk::DescriptorSetLayout(n)],
        vk::DescriptorPool(n),
        vec![],
    )
    .unwrap()
}

fn mesh(n: u64) -> Mesh {
    Mesh::assemble(vk::DeviceMemory(n), vk::Buffer(n), vk::Buffer(n + 1), Mesh::sizes(6, 4, 44).unwrap())
}

fn g_buffer() -> GBuffer {
    GBuffer::assemble(
        EXTENT,
        vk::Sampler(9),
        vk::DeviceMemory(50),
        vk::RenderPassHandle(60),
        vk::Framebuffer(70),
        &attachments(),
        shader(80),
        mesh(90),
    )
    .unwrap()
}

#[test]
fn geometry_buffer_asks_for_position_normal_albedo_and_depth() {
    assert_eq!(
        GBuffer::attachment_requests(),
        vec![
            (vk::FORMAT_R16G16B16A16_SFLOAT, COLOR),
            (vk::FORMAT_R16G16B16A16_SFLOAT, COLOR),
            (vk::FORMAT_R8G8B8A8_UNORM, COLOR),
            (vk::FORMAT_D16_UNORM, DEPTH),
        ]
    );
    let sampler = GBuffer::sampler_info();
    assert_eq!(sampler.mag_filter, vk::Filter::Nearest);
    assert_eq!(sampler.address_mode, vk::SamplerAddressMode::ClampToEdge);
    assert_eq!(f32::from_bits(sampler.max_lod), 1.0);
    assert_eq!(f32::from_bits(sampler.max_anisotropy), 0.0);
}

#[test]
fn geometry_buffer_pass_has_four_attachments() {
    let info = GBuffer::render_pass_info();
    let formats: Vec<i32> = info.attachments.iter().map(|a| a.format).collect();
    assert_eq!(
        formats,
        vec![
            vk::FORMAT_R16G16B16A16_SFLOAT,
            vk::FORMAT_R16G16B16A16_SFLOAT,
            vk::FORMAT_R8G8B8A8_UNORM,
            vk::FORMAT_D16_UNORM,
        ]
    );
    let layouts: Vec<vk::ImageLayout> = info.attachments.iter().map(|a| a.final_layout).collect();
    assert_eq!(
        layouts,
        vec![
            vk::ImageLayout::ColorAttachmentOptimal,
            vk::ImageLayout::ColorAttachmentOptimal,
            vk::ImageLayout::ColorAttachmentOptimal,
            vk::ImageLayout::DepthStencilAttachmentOptimal,
        ]
    );
    assert_eq!(info.color_attachments.len(), 3);
    assert_eq!(info.color_attachments[2].attachment, 2);
    assert_eq!(
        info.depth_stencil_attachment,
        AttachmentReference { attachment: 3, layout: vk::ImageLayout::DepthStencilAttachmentOptimal }
    );
    assert_eq!(info.dependencies.len(), 2);
}

#[test]
fn geometry_buffer_framebuffer_has_all_four_views() {
    let a = attachments();
    let info = GBuffer::framebuffer_info(vk::RenderPassHandle(60), EXTENT, &a[0], &a[1], &a[2], &a[3]);
    assert_eq!(
        info.attachments,
        vec![vk::ImageView(101), vk::ImageView(102), vk::ImageView(103), vk::ImageView(104)]
    );
    assert_eq!((info.width, info.height, info.layers), (800, 600, 1));
    assert_eq!(info.render_pass, vk::RenderPassHandle(60));
}

#[test]
fn lighting_uniforms_of_the_geometry_buffer() {
    let a = attachments();
    let lights = UniformBuffer::assemble::<[u8; 64]>(Resource::assemble(
        vk::Buffer(5),
        vk::DeviceMemory(5),
        64,
    ))
    .unwrap();
    let uniforms = GBuffer::uniforms(&a[0], &a[1], &a[2], &lights);
    assert_eq!(uniforms.len(), 4);
    for (i, uniform) in uniforms.iter().enumerate() {
        assert_eq!(uniform.binding, 1 + i as u32);
        assert_eq!(uniform.set, 0);
        assert_eq!(uniform.stage, vk::SHADER_STAGE_FRAGMENT_BIT);
    }
    assert_eq!(uniforms[1].data.image_info, Some(a[1].descriptor));
    assert_eq!(uniforms[3].data.buffer_info, Some(lights.dynamic.descriptor));
    assert_eq!(uniforms[3].data.descriptor_type, vk::DescriptorType::UniformBuffer);
}

#[test]
fn geometry_buffer_names_its_attachments() {
    let g = g_buffer();
    assert_eq!(g.position, attachment(1, COLOR));
    assert_eq!(g.normal, attachment(2, COLOR));
    assert_eq!(g.albedo, attachment(3, COLOR));
    assert_eq!(g.depth, attachment(4, DEPTH));
    assert_eq!(g.frame_buffer, vk::Framebuffer(70));
    assert_eq!(g.deferred_render_pass, vk::RenderPassHandle(60));
    assert_eq!(g.memory, vk::DeviceMemory(50));
    let make = |attachments: &Vec<Attachment>| {
        GBuffer::assemble(
            EXTENT,
            vk::Sampler(9),
            vk::DeviceMemory(50),
            vk::RenderPassHandle(60),
            vk::Framebuffer(70),
            attachments,
            shader(80),
            mesh(90),
        )
    };
    assert!(make(&attachments()[..3].to_vec()).is_none());
    assert!(make(&vec![]).is_none());
    let mut five = attachments();
    five.push(attachment(5, COLOR));
    assert!(make(&five).is_none());
}

#[test]
fn scene_is_recorded_into_the_offscreen_buffer() {
    let g = g_buffer();
    let pool = Pool::assemble(
        vk::CommandPool(1),
        0,
        &vec![vk::CommandBuffer(1), vk::CommandBuffer(2), vk::CommandBuffer(3)],
        vec![],
    )
    .unwrap();
    let (scene_mesh, scene_shader) = (mesh(300), shader(400));
    let recording = g.build_scene_command_buffer(&pool, &scene_mesh, &scene_shader);
    assert_eq!(recording.command_buffer, vk::CommandBuffer(2));
    assert_eq!(recording.usage, vk::COMMAND_BUFFER_USAGE_SIMULTANEOUS_USE_BIT);
    let begin = recording.render_pass_begin.unwrap();
    assert_eq!(begin.render_pass, vk::RenderPassHandle(60));
    assert_eq!(begin.framebuffer, vk::Framebuffer(70));
    assert_eq!(begin.render_area.extent, EXTENT);
    assert_eq!(begin.clear_values.len(), 4);
    assert_eq!(begin.clear_values[3], ClearValue::DepthStencil { depth: 0x3f80_0000, stencil: 0 });
    let mut body = Renderer::present_commands(&scene_shader, &scene_mesh);
    body.push(Command::EndRenderPass);
    assert_eq!(recording.commands, body);
}

#[test]
fn lighting_is_recorded_into_every_draw_buffer() {
    let g = g_buffer();
    let buffers = vec![vk::CommandBuffer(11), vk::CommandBuffer(12)];
    let framebuffers = vec![vk::Framebuffer(21), vk::Framebuffer(22), vk::Framebuffer(23)];
    let recordings = g.build_deferred_command_buffer(&buffers, &framebuffers, vk::RenderPassHandle(5));
    assert_eq!(recordings.len(), 2);
    for (i, recording) in recordings.iter().enumerate() {
        assert_eq!(recording.command_buffer, buffers[i]);
        let begin = recording.render_pass_begin.as_ref().unwrap();
        assert_eq!(begin.framebuffer, framebuffers[i]);
        assert_eq!(begin.render_pass, vk::RenderPassHandle(5));
        assert_eq!(
            begin.clear_values,
            vec![
                ClearValue::Color { r: 0, g: 0, b: 0, a: 0 },
                ClearValue::DepthStencil { depth: 0x3f80_0000, stencil: 0 },
            ]
        );
        let mut body = Renderer::present_commands(&g.shader, &g.mesh);
        body.push(Command::EndRenderPass);
        assert_eq!(recording.commands, body);
    }
}

#[test]
fn geometry_buffer_frees_its_memory_last() {
    let objects = g_buffer().release();
    assert_eq!(objects.len(), 12);
    assert_eq!(objects[0], vk::Object::Framebuffer(vk::Framebuffer(70)));
    assert_eq!(objects[1], vk::Object::RenderPass(vk::RenderPassHandle(60)));
    assert_eq!(objects[2], vk::Object::Sampler(vk::Sampler(9)));
    assert_eq!(objects[3], vk::Object::ImageView(vk::ImageView(103)));
    assert_eq!(objects[4], vk::Object::Image(vk::Image(3)));
    assert_eq!(objects[11], vk::Object::DeviceMemory(vk::DeviceMemory(50)));
}
