use rustvulkan::shader::{
    DescriptorPoolSize, DescriptorSetLayoutBinding, PipelineColorBlendAttachmentState, Shader,
    VertexInputAttributeDescription, VertexLayout, WriteDescriptorSet, SPIRV_MAGIC_NUMBER,
};
use rustvulkan::uniform::{UniformDescriptor, UniformInfo};
use rustvulkan::vk;

fn image_uniform(binding: u32) -> UniformDescriptor {
    UniformDescriptor {
        data: UniformInfo {
            descriptor_type: vk::DescriptorType::CombinedImageSampler,
            image_info: Some(vk::DescriptorImageInfo {
                sampler: vk::Sampler(1),
                image_view: vk::ImageView(2),
                image_layout: vk::ImageLayout::ShaderReadOnlyOptimal,
            }),
            buffer_info: None,
        },
        stage: vk::SHADER_STAGE_FRAGMENT_BIT,
        binding,
        set: 0,
    }
}

fn buffer_uniform(binding: u32, descriptor_type: vk::DescriptorType) -> UniformDescriptor {
    UniformDescriptor {
        data: UniformInfo {
            descriptor_type,
            image_info: None,
            buffer_info: Some(vk::DescriptorBufferInfo {
                buffer: vk::Buffer(3),
                offset: 0,
                range: vk::WHOLE_SIZE,
            }),
        },
        stage: vk::SHADER_STAGE_VERTEX_BIT,
        binding,
        set: 0,
    }
}

fn uniforms() -> Vec<UniformDescriptor> {
    vec![
        image_uniform(1),
        buffer_uniform(0, vk::DescriptorType::UniformBuffer),
        buffer_uniform(3, vk::DescriptorType::UniformBufferDynamic),
    ]
}

#[test]
fn spirv_in_little_endian_order() {
    let bytes = vec![0x03, 0x02, 0x23, 0x07, 0x01, 0x02, 0x03, 0x04, 0xff, 0x00, 0x00, 0x80];
    assert_eq!(Shader::spirv(&bytes), Some(vec![SPIRV_MAGIC_NUMBER, 0x0403_0201, 0x8000_00ff]));
}

#[test]
fn spirv_in_big_endian_order() {
    let bytes = vec![0x07, 0x23, 0x02, 0x03, 0x01, 0x02, 0x03, 0x04, 0xff, 0x00, 0x00, 0x80];
    assert_eq!(Shader::spirv(&bytes), Some(vec![SPIRV_MAGIC_NUMBER, 0x0102_0304, 0xff00_0080]));
}

#[test]
fn spirv_needs_whole_words_and_the_magic_number() {
    assert_eq!(Shader::spirv(&vec![]), None);
    assert_eq!(Shader::spirv(&vec![0x03, 0x02, 0x23]), None);
    assert_eq!(Shader::spirv(&vec![0x03, 0x02, 0x23, 0x07, 0x00]), None);
    assert_eq!(Shader::spirv(&vec![0x00, 0x00, 0x00, 0x00]), None);
    assert_eq!(Shader::spirv(&vec![0x03, 0x02, 0x23, 0x08]), None);
    assert_eq!(Shader::spirv(&vec![0x03, 0x02, 0x23, 0x07]), Some(vec![0x0723_0203]));
    assert_eq!(Shader::spirv(&vec![0x07, 0x23, 0x02, 0x03]), Some(vec![0x0723_0203]));
    assert_eq!(Shader::spirv(&vec![0x00, 0x00, 0x00, 0x00, 0x03, 0x02, 0x23, 0x07]), None);
}

#[test]
fn pool_provides_one_descriptor_per_uniform() {
    let info = Shader::descriptor_pool_info(&uniforms());
    assert_eq!(info.max_sets, 1);
    assert_eq!(
        info.pool_sizes,
        vec![
            DescriptorPoolSize { typ: vk::DescriptorType::CombinedImageSampler, descriptor_count: 1 },
            DescriptorPoolSize { typ: vk::DescriptorType::UniformBuffer, descriptor_count: 1 },
            DescriptorPoolSize { typ: vk::DescriptorType::UniformBufferDynamic, descriptor_count: 1 },
        ]
    );
    assert!(Shader::descriptor_pool_info(&vec![]).pool_sizes.is_empty());
}

#[test]
fn layout_has_one_binding_per_uniform() {
    assert_eq!(
        Shader::layout_bindings(&uniforms()),
        vec![
            DescriptorSetLayoutBinding {
                binding: 1,
                descriptor_type: vk::DescriptorType::CombinedImageSampler,
                descriptor_count: 1,
                stage_flags: vk::SHADER_STAGE_FRAGMENT_BIT,
            },
            DescriptorSetLayoutBinding {
                binding: 0,
                descriptor_type: vk::DescriptorType::UniformBuffer,
                descriptor_count: 1,
                stage_flags: vk::SHADER_STAGE_VERTEX_BIT,
            },
            DescriptorSetLayoutBinding {
                binding: 3,
                descriptor_type: vk::DescriptorType::UniformBufferDynamic,
                descriptor_count: 1,
                stage_flags: vk::SHADER_STAGE_VERTEX_BIT,
            },
        ]
    );
}

#[test]
fn descriptor_writes_carry_the_descriptors() {
    let all = uniforms();
    let writes = Shader::write_descriptor_sets(vk::DescriptorSet(40), &all);
    assert_eq!(writes.len(), 3);
    assert_eq!(
        writes[0],
        WriteDescriptorSet {
            dst_set: vk::DescriptorSet(40),
            dst_binding: 1,
            dst_array_element: 0,
            descriptor_count: 1,
            descriptor_type: vk::DescriptorType::CombinedImageSampler,
            image_info: all[0].data.image_info,
            buffer_info: None,
        }
    );
    assert_eq!(writes[2].dst_binding, 3);
    assert_eq!(writes[2].descriptor_type, vk::DescriptorType::UniformBufferDynamic);
    assert_eq!(writes[2].buffer_info, all[2].data.buffer_info);
    assert_eq!(writes[2].image_info, None);
}

#[test]
fn pipeline_reads_four_attributes_of_four_floats() {
    let vertex = VertexLayout { stride: 44, pos: 0, tangent: 24, normal: 12, uv: 36 };
    let resolution = vk::Extent2D { width: 640, height: 480 };
    let info = Shader::pipeline_info(
        resolution,
        vk::RenderPassHandle(7),
        vk::PipelineLayout(8),
        vertex,
        true,
    );
    assert_eq!(info.stages, vec![vk::SHADER_STAGE_VERTEX_BIT, vk::SHADER_STAGE_FRAGMENT_BIT]);
    assert_eq!(info.vertex_stride, 44);
    let attribute = |location: u32, offset: u32| VertexInputAttributeDescription {
        location,
        binding: 0,
        format: vk::FORMAT_R32G32B32A32_SFLOAT,
        offset,
    };
    assert_eq!(
        info.vertex_attributes,
        vec![attribute(0, 0), attribute(1, 24), attribute(2, 12), attribute(3, 36)]
    );
    assert_eq!(info.viewport, resolution);
    assert_eq!(info.scissor, vk::Rect2D { offset: vk::Offset2D { x: 0, y: 0 }, extent: resolution });
    assert_eq!(info.layout, vk::PipelineLayout(8));
    assert_eq!(info.render_pass, vk::RenderPassHandle(7));
    assert_eq!(info.subpass, 0);
}

#[test]
fn geometry_pipeline_writes_three_attachments_and_lighting_pipeline_one() {
    let vertex = VertexLayout { stride: 44, pos: 0, tangent: 24, normal: 12, uv: 36 };
    let resolution = vk::Extent2D { width: 640, height: 480 };
    let overwrite = PipelineColorBlendAttachmentState { blend_enable: false, color_write_mask: 0xf };
    let deferred =
        Shader::pipeline_info(resolution, vk::RenderPassHandle(7), vk::PipelineLayout(8), vertex, true);
    assert_eq!(deferred.color_blend_attachments, vec![overwrite; 3]);
    let forward =
        Shader::pipeline_info(resolution, vk::RenderPassHandle(7), vk::PipelineLayout(8), vertex, false);
    assert_eq!(forward.color_blend_attachments, vec![overwrite]);
}

#[test]
fn shader_has_exactly_one_descriptor_set() {
    let resolution = vk::Extent2D { width: 640, height: 480 };
    let make = |sets: Vec<vk::DescriptorSet>, layouts: Vec<vk::DescriptorSetLayout>| {
        Shader::assemble(
            resolution,
            vk::Pipeline(1),
            vk::PipelineLayout(2),
            sets,
            layouts,
            vk::DescriptorPool(5),
            uniforms(),
        )
    };
    assert!(make(vec![], vec![vk::DescriptorSetLayout(4)]).is_none());
    assert!(make(vec![vk::DescriptorSet(3)], vec![]).is_none());
    assert!(make(vec![vk::DescriptorSet(3), vk::DescriptorSet(6)], vec![vk::DescriptorSetLayout(4)])
        .is_none());
    let shader = make(vec![vk::DescriptorSet(3)], vec![vk::DescriptorSetLayout(4)]).unwrap();
    assert_eq!(shader.graphics_pipeline, vk::Pipeline(1));
    assert_eq!(shader.pipeline_layout, vk::PipelineLayout(2));
    assert_eq!(shader.descriptor_sets, vec![vk::DescriptorSet(3)]);
    assert_eq!(shader.descriptor_set_layout, vec![vk::DescriptorSetLayout(4)]);
    assert_eq!(shader.descriptor_pool, vk::DescriptorPool(5));
    assert_eq!(shader.viewports, vec![resolution]);
    assert_eq!(
        shader.scissors,
        vec![vk::Rect2D { offset: vk::Offset2D { x: 0, y: 0 }, extent: resolution }]
    );
    assert_eq!(shader.uniform_buffers, uniforms());
}

#[test]
fn shader_releases_pipeline_first_and_pool_last() {
    let shader = Shader::assemble(
        vk::Extent2D { width: 1, height: 1 },
        vk::Pipeline(1),
        vk::PipelineLayout(2),
        vec![vk::DescriptorSet(3)],
        vec![vk::DescriptorSetLayout(4)],
        vk::DescriptorPool(5),
        vec![],
    )
    .unwrap();
    assert_eq!(
        shader.release(),
        vec![
            vk::Object::Pipeline(vk::Pipeline(1)),
            vk::Object::PipelineLayout(vk::PipelineLayout(2)),
            vk::Object::DescriptorSetLayout(vk::DescriptorSetLayout(4)),
            vk::Object::DescriptorPool(vk::DescriptorPool(5)),
        ]
    );
}
