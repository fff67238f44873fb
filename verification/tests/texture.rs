use rustvulkan::memory::{MemoryRequirements, MemoryType, PhysicalDeviceMemoryProperties};
use rustvulkan::resource::{BufferCreateInfo, MappedRange, MemoryAllocateInfo};
use rustvulkan::texture::{Image, Sample, Swizzle, Texture, Usage};
use rustvulkan::uniform::Uniform;
use rustvulkan::vk;
use rustvulkan::vk_commands::{BufferImageCopy, Command, ImageMemoryBarrier};

const EXTENT: vk::Extent2D = vk::Extent2D { width: 256, height: 128 };

fn image(usage: Usage) -> Image {
    Image::assemble(
        vk::Image(1),
        vk::ImageView(2),
        vk::DeviceMemory(3),
        EXTENT,
        vk::FORMAT_R8G8B8A8_UNORM,
        usage,
    )
}

fn texture() -> Texture {
    Texture::assemble(vk::Buffer(10), vk::DeviceMemory(11), image(Usage::Texture), vk::Sampler(12))
}

#[test]
fn image_usage_follows_its_purpose() {
    let info = |usage| Image::init_info(EXTENT, vk::FORMAT_R8G8B8A8_UNORM, usage);
    assert_eq!(info(Usage::Depth).usage, vk::IMAGE_USAGE_DEPTH_STENCIL_ATTACHMENT_BIT);
    assert_eq!(info(Usage::Texture).usage, vk::IMAGE_USAGE_TRANSFER_DST_BIT);
    assert_eq!(info(Usage::Attachment).usage, vk::IMAGE_USAGE_COLOR_ATTACHMENT_BIT);
    assert_eq!(
        info(Usage::Texture),
        vk::ImageCreateInfo {
            format: vk::FORMAT_R8G8B8A8_UNORM,
            extent: vk::Extent3D { width: 256, height: 128, depth: 1 },
            mip_levels: 1,
            array_layers: 1,
            samples: vk::SAMPLE_COUNT_1_BIT,
            usage: vk::IMAGE_USAGE_TRANSFER_DST_BIT,
            initial_layout: vk::ImageLayout::Undefined,
        }
    );
}

#[test]
fn sampled_image_is_sampled_as_well() {
    let info = |usage| Image::sample_info(EXTENT, vk::FORMAT_R8G8B8A8_UNORM, usage);
    let sampled = vk::IMAGE_USAGE_SAMPLED_BIT;
    assert_eq!(info(Usage::Depth).usage, sampled | vk::IMAGE_USAGE_DEPTH_STENCIL_ATTACHMENT_BIT);
    assert_eq!(info(Usage::Texture).usage, sampled | vk::IMAGE_USAGE_TRANSFER_DST_BIT);
    assert_eq!(info(Usage::Attachment).usage, sampled | vk::IMAGE_USAGE_COLOR_ATTACHMENT_BIT);
    assert_eq!(info(Usage::Texture).extent, vk::Extent3D { width: 256, height: 128, depth: 1 });
}

#[test]
fn image_memory_is_device_local_and_exactly_as_large_as_required() {
    let props = PhysicalDeviceMemoryProperties::new(vec![
        MemoryType { property_flags: vk::MEMORY_PROPERTY_HOST_VISIBLE_BIT, heap_index: 0 },
        MemoryType { property_flags: vk::MEMORY_PROPERTY_DEVICE_LOCAL_BIT, heap_index: 1 },
    ]);
    let req = MemoryRequirements { size: 4096, alignment: 256, memory_type_bits: 0b11 };
    assert_eq!(
        Image::memory_info(&req, &props),
        Some(MemoryAllocateInfo { allocation_size: 4096, memory_type_index: 1 })
    );
    let host_only = MemoryRequirements { size: 4096, alignment: 256, memory_type_bits: 0b01 };
    assert_eq!(Image::memory_info(&host_only, &props), None);
    assert_eq!(
        Texture::staging_memory_info(&host_only, &props),
        Some(MemoryAllocateInfo { allocation_size: 4096, memory_type_index: 0 })
    );
}

#[test]
fn view_follows_usage_and_swizzle() {
    let view = Image::view_info(vk::Image(1), vk::FORMAT_D16_UNORM, Usage::Depth, Swizzle::Identity);
    assert_eq!(view.image, vk::Image(1));
    assert_eq!(view.format, vk::FORMAT_D16_UNORM);
    assert_eq!(view.subresource_range.aspect_mask, vk::IMAGE_ASPECT_DEPTH_BIT);
    assert_eq!(view.components.g, vk::ComponentSwizzle::Identity);
    let view = Image::view_info(vk::Image(1), vk::FORMAT_R8G8B8A8_UNORM, Usage::Texture, Swizzle::RGBA);
    assert_eq!(view.subresource_range.aspect_mask, vk::IMAGE_ASPECT_COLOR_BIT);
    assert_eq!(
        view.components,
        vk::ComponentMapping {
            r: vk::ComponentSwizzle::R,
            g: vk::ComponentSwizzle::G,
            b: vk::ComponentSwizzle::B,
            a: vk::ComponentSwizzle::A,
        }
    );
    let view = Image::view_info(vk::Image(1), 1, Usage::Attachment, Swizzle::Identity);
    assert_eq!(view.subresource_range.aspect_mask, vk::IMAGE_ASPECT_COLOR_BIT);
    assert_eq!(view.subresource_range.level_count, 1);
    assert_eq!(view.subresource_range.layer_count, 1);
}

#[test]
fn transition_is_dispatched_on_the_usage() {
    let barrier = |usage| match image(usage).transfer_data() {
        Command::PipelineBarrier { src_stage_mask, dst_stage_mask, barrier } => {
            assert_eq!(src_stage_mask, vk::PIPELINE_STAGE_TOP_OF_PIPE_BIT);
            assert_eq!(dst_stage_mask, vk::PIPELINE_STAGE_TOP_OF_PIPE_BIT);
            barrier
        }
        other => panic!("not a barrier: {:?}", other),
    };
    let depth = barrier(Usage::Depth);
    assert_eq!(
        depth,
        ImageMemoryBarrier {
            src_access_mask: 0,
            dst_access_mask: vk::ACCESS_DEPTH_STENCIL_ATTACHMENT_READ_BIT
                | vk::ACCESS_DEPTH_STENCIL_ATTACHMENT_WRITE_BIT,
            old_layout: vk::ImageLayout::Undefined,
            new_layout: vk::ImageLayout::DepthStencilAttachmentOptimal,
            src_queue_family_index: vk::QUEUE_FAMILY_IGNORED,
            dst_queue_family_index: vk::QUEUE_FAMILY_IGNORED,
            image: vk::Image(1),
            subresource_range: vk::ImageSubresourceRange {
                aspect_mask: vk::IMAGE_ASPECT_DEPTH_BIT,
                base_mip_level: 0,
                level_count: 1,
                base_array_layer: 0,
                layer_count: 1,
            },
        }
    );
    for usage in [Usage::Texture, Usage::Attachment] {
        let colour = barrier(usage);
        assert_eq!(colour.dst_access_mask, vk::ACCESS_TRANSFER_WRITE_BIT);
        assert_eq!(colour.new_layout, vk::ImageLayout::TransferDstOptimal);
        assert_eq!(colour.old_layout, vk::ImageLayout::Undefined);
        assert_eq!(colour.subresource_range.aspect_mask, vk::IMAGE_ASPECT_COLOR_BIT);
    }
}

#[test]
fn sample_reads_the_image_through_its_sampler() {
    let sample = Sample::assemble(image(Usage::Attachment), vk::Sampler(4));
    assert_eq!(
        sample.descriptor,
        vk::DescriptorImageInfo {
            sampler: vk::Sampler(4),
            image_view: vk::ImageView(2),
            image_layout: vk::ImageLayout::ShaderReadOnlyOptimal,
        }
    );
    assert_eq!(sample.transfer_data(), image(Usage::Attachment).transfer_data());
    assert_eq!(sample.get_descriptor_type(), vk::DescriptorType::CombinedImageSampler);
    assert_eq!(sample.image_info(), Some(sample.descriptor));
    assert_eq!(sample.buffer_info(), None);
}

#[test]
fn staging_buffer_holds_the_pixel_bytes() {
    assert_eq!(
        Texture::staging_info(256 * 128 * 4),
        BufferCreateInfo { size: 131072, usage: vk::BUFFER_USAGE_TRANSFER_SRC_BIT }
    );
    assert_eq!(
        Texture::staging_range(vk::DeviceMemory(11), 131072),
        MappedRange { memory: vk::DeviceMemory(11), offset: 0, size: 131072, alignment: 1 }
    );
}

#[test]
fn texture_sampler_is_linear_and_mirrored() {
    let info = Texture::sampler_info();
    assert_eq!(info.mag_filter, vk::Filter::Linear);
    assert_eq!(info.min_filter, vk::Filter::Linear);
    assert_eq!(info.address_mode, vk::SamplerAddressMode::MirroredRepeat);
    assert_eq!(f32::from_bits(info.max_lod), 0.0);
    assert_eq!(f32::from_bits(info.max_anisotropy), 1.0);
}

#[test]
fn texture_upload_is_transition_copy_transition() {
    let texture = texture();
    let commands = texture.load_texture();
    assert_eq!(commands.len(), 3);
    assert_eq!(commands[0], texture.texture_image.transfer_data());
    assert_eq!(
        commands[1],
        Command::CopyBufferToImage {
            src_buffer: vk::Buffer(10),
            dst_image: vk::Image(1),
            dst_image_layout: vk::ImageLayout::TransferDstOptimal,
            image_region: BufferImageCopy {
                buffer_offset: 0,
                buffer_row_length: 0,
                buffer_image_height: 0,
                aspect_mask: vk::IMAGE_ASPECT_COLOR_BIT,
                image_extent: vk::Extent3D { width: 256, height: 128, depth: 1 },
            },
        }
    );
    match commands[2] {
        Command::PipelineBarrier { barrier, .. } => {
            assert_eq!(barrier.src_access_mask, vk::ACCESS_TRANSFER_WRITE_BIT);
            assert_eq!(barrier.dst_access_mask, vk::ACCESS_SHADER_READ_BIT);
            assert_eq!(barrier.old_layout, vk::ImageLayout::TransferDstOptimal);
            assert_eq!(barrier.new_layout, vk::ImageLayout::ShaderReadOnlyOptimal);
            assert_eq!(barrier.image, vk::Image(1));
            assert_eq!(barrier.subresource_range.aspect_mask, vk::IMAGE_ASPECT_COLOR_BIT);
        }
        other => panic!("not a barrier: {:?}", other),
    }
}

#[test]
fn texture_describes_itself_as_a_sampled_image() {
    let texture = texture();
    assert_eq!(
        texture.descriptor,
        vk::DescriptorImageInfo {
            sampler: vk::Sampler(12),
            image_view: vk::ImageView(2),
            image_layout: vk::ImageLayout::General,
        }
    );
    assert_eq!(texture.get_descriptor_type(), vk::DescriptorType::CombinedImageSampler);
    assert_eq!(texture.image_info(), Some(texture.descriptor));
    assert_eq!(texture.buffer_info(), None);
}

#[test]
fn views_go_before_images_and_images_before_memory() {
    assert_eq!(
        image(Usage::Depth).release(),
        vec![
            vk::Object::ImageView(vk::ImageView(2)),
            vk::Object::Image(vk::Image(1)),
            vk::Object::DeviceMemory(vk::DeviceMemory(3)),
        ]
    );
    assert_eq!(
        texture().release(),
        vec![
            vk::Object::Sampler(vk::Sampler(12)),
            vk::Object::Buffer(vk::Buffer(10)),
            vk::Object::DeviceMemory(vk::DeviceMemory(11)),
            vk::Object::ImageView(vk::ImageView(2)),
            vk::Object::Image(vk::Image(1)),
            vk::Object::DeviceMemory(vk::DeviceMemory(3)),
        ]
    );
}
