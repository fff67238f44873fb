use rustvulkan::memory::{
    find_memorytype_index, find_memorytype_index_f, MemoryRequirements, MemoryType,
    PhysicalDeviceMemoryProperties,
};
use ash::vk as avk;
use rustvulkan::vk;

fn table(flags: &[u32]) -> PhysicalDeviceMemoryProperties {
    PhysicalDeviceMemoryProperties::new(
        flags.iter().map(|&property_flags| MemoryType { property_flags, heap_index: 0 }).collect(),
    )
}

fn req(memory_type_bits: u32) -> MemoryRequirements {
    MemoryRequirements { size: 1024, alignment: 256, memory_type_bits }
}

const LOCAL: u32 = vk::MEMORY_PROPERTY_DEVICE_LOCAL_BIT;
const VISIBLE: u32 = vk::MEMORY_PROPERTY_HOST_VISIBLE_BIT;
const COHERENT: u32 = vk::MEMORY_PROPERTY_HOST_COHERENT_BIT;

#[test]
fn exact_match_wins_over_earlier_subset_match() {
    let t = table(&[VISIBLE | COHERENT, LOCAL | VISIBLE, VISIBLE, LOCAL]);
    assert_eq!(find_memorytype_index(&req(0b1111), &t, VISIBLE), Some(2));
}

#[test]
fn subset_match_is_used_when_no_exact_match_exists() {
    let t = table(&[LOCAL, VISIBLE | COHERENT, LOCAL | VISIBLE]);
    assert_eq!(find_memorytype_index(&req(0b111), &t, VISIBLE), Some(1));
}

#[test]
fn lowest_index_wins_within_a_pass() {
    let t = table(&[LOCAL, VISIBLE, VISIBLE, VISIBLE | COHERENT]);
    assert_eq!(find_memorytype_index(&req(0b1111), &t, VISIBLE), Some(1));
    assert_eq!(find_memorytype_index(&req(0b1100), &t, VISIBLE), Some(2));
    assert_eq!(find_memorytype_index(&req(0b1000), &t, VISIBLE), Some(3));
}

#[test]
fn types_outside_the_requirement_mask_are_skipped() {
    let t = table(&[VISIBLE, LOCAL, VISIBLE | LOCAL]);
    assert_eq!(find_memorytype_index(&req(0b110), &t, VISIBLE), Some(2));
    assert_eq!(find_memorytype_index(&req(0b010), &t, VISIBLE), None);
    assert_eq!(find_memorytype_index(&req(0), &t, VISIBLE), None);
}

#[test]
fn nothing_is_found_when_no_type_has_the_flags() {
    let t = table(&[LOCAL, LOCAL | COHERENT]);
    assert_eq!(find_memorytype_index(&req(0xffff_ffff), &t, VISIBLE), None);
    assert_eq!(find_memorytype_index(&req(0xffff_ffff), &table(&[]), VISIBLE), None);
}

#[test]
fn empty_request_matches_a_type_without_flags_first() {
    let t = table(&[LOCAL, 0, VISIBLE]);
    assert_eq!(find_memorytype_index(&req(0b111), &t, 0), Some(1));
    assert_eq!(find_memorytype_index(&req(0b101), &t, 0), Some(0));
}

#[test]
fn highest_bit_of_the_mask_is_honoured() {
    let mut flags = vec![0u32; 32];
    flags[31] = VISIBLE;
    let t = table(&flags);
    assert_eq!(find_memorytype_index(&req(0x8000_0000), &t, VISIBLE), Some(31));
    assert_eq!(find_memorytype_index(&req(0x7fff_ffff), &t, VISIBLE), None);
}

#[test]
fn entries_beyond_the_mask_width_are_never_chosen() {
    let flags = vec![VISIBLE; 40];
    let t = table(&flags);
    assert_eq!(find_memorytype_index(&req(0), &t, VISIBLE), None);
    assert_eq!(find_memorytype_index(&req(0x8000_0000), &t, VISIBLE), Some(31));
}

#[test]
fn search_with_a_predicate_returns_the_first_hit() {
    let t = table(&[LOCAL, VISIBLE, LOCAL | VISIBLE]);
    let any = find_memorytype_index_f(&req(0b111), &t, VISIBLE, |_, _| true);
    assert_eq!(any, Some(0));
    let none = find_memorytype_index_f(&req(0b111), &t, VISIBLE, |_, _| false);
    assert_eq!(none, None);
    let differs = find_memorytype_index_f(&req(0b110), &t, VISIBLE, |have, want| have != want);
    assert_eq!(differs, Some(2));
}

#[test]
fn constants_agree_with_the_bindings() {
    assert_eq!(LOCAL, avk::MemoryPropertyFlags::DEVICE_LOCAL.as_raw());
    assert_eq!(VISIBLE, avk::MemoryPropertyFlags::HOST_VISIBLE.as_raw());
    assert_eq!(COHERENT, avk::MemoryPropertyFlags::HOST_COHERENT.as_raw());
    assert_eq!(vk::IMAGE_USAGE_TRANSFER_DST_BIT, avk::ImageUsageFlags::TRANSFER_DST.as_raw());
    assert_eq!(vk::IMAGE_USAGE_SAMPLED_BIT, avk::ImageUsageFlags::SAMPLED.as_raw());
    assert_eq!(vk::IMAGE_USAGE_COLOR_ATTACHMENT_BIT, avk::ImageUsageFlags::COLOR_ATTACHMENT.as_raw());
    assert_eq!(
        vk::IMAGE_USAGE_DEPTH_STENCIL_ATTACHMENT_BIT,
        avk::ImageUsageFlags::DEPTH_STENCIL_ATTACHMENT.as_raw()
    );
    assert_eq!(vk::IMAGE_ASPECT_COLOR_BIT, avk::ImageAspectFlags::COLOR.as_raw());
    assert_eq!(vk::IMAGE_ASPECT_DEPTH_BIT, avk::ImageAspectFlags::DEPTH.as_raw());
    assert_eq!(vk::ACCESS_SHADER_READ_BIT, avk::AccessFlags::SHADER_READ.as_raw());
    assert_eq!(vk::ACCESS_COLOR_ATTACHMENT_READ_BIT, avk::AccessFlags::COLOR_ATTACHMENT_READ.as_raw());
    assert_eq!(vk::ACCESS_COLOR_ATTACHMENT_WRITE_BIT, avk::AccessFlags::COLOR_ATTACHMENT_WRITE.as_raw());
    assert_eq!(
        vk::ACCESS_DEPTH_STENCIL_ATTACHMENT_READ_BIT,
        avk::AccessFlags::DEPTH_STENCIL_ATTACHMENT_READ.as_raw()
    );
    assert_eq!(
        vk::ACCESS_DEPTH_STENCIL_ATTACHMENT_WRITE_BIT,
        avk::AccessFlags::DEPTH_STENCIL_ATTACHMENT_WRITE.as_raw()
    );
    assert_eq!(vk::ACCESS_TRANSFER_WRITE_BIT, avk::AccessFlags::TRANSFER_WRITE.as_raw());
    assert_eq!(vk::ACCESS_MEMORY_READ_BIT, avk::AccessFlags::MEMORY_READ.as_raw());
    assert_eq!(vk::PIPELINE_STAGE_TOP_OF_PIPE_BIT, avk::PipelineStageFlags::TOP_OF_PIPE.as_raw());
    assert_eq!(
        vk::PIPELINE_STAGE_COLOR_ATTACHMENT_OUTPUT_BIT,
        avk::PipelineStageFlags::COLOR_ATTACHMENT_OUTPUT.as_raw()
    );
    assert_eq!(vk::PIPELINE_STAGE_BOTTOM_OF_PIPE_BIT, avk::PipelineStageFlags::BOTTOM_OF_PIPE.as_raw());
    assert_eq!(vk::BUFFER_USAGE_TRANSFER_SRC_BIT, avk::BufferUsageFlags::TRANSFER_SRC.as_raw());
    assert_eq!(vk::BUFFER_USAGE_TRANSFER_DST_BIT, avk::BufferUsageFlags::TRANSFER_DST.as_raw());
    assert_eq!(vk::BUFFER_USAGE_UNIFORM_BUFFER_BIT, avk::BufferUsageFlags::UNIFORM_BUFFER.as_raw());
    assert_eq!(vk::BUFFER_USAGE_INDEX_BUFFER_BIT, avk::BufferUsageFlags::INDEX_BUFFER.as_raw());
    assert_eq!(vk::BUFFER_USAGE_VERTEX_BUFFER_BIT, avk::BufferUsageFlags::VERTEX_BUFFER.as_raw());
    assert_eq!(vk::QUEUE_GRAPHICS_BIT, avk::QueueFlags::GRAPHICS.as_raw());
    assert_eq!(vk::SHADER_STAGE_VERTEX_BIT, avk::ShaderStageFlags::VERTEX.as_raw());
    assert_eq!(vk::SHADER_STAGE_FRAGMENT_BIT, avk::ShaderStageFlags::FRAGMENT.as_raw());
    assert_eq!(
        vk::COMMAND_BUFFER_USAGE_ONE_TIME_SUBMIT_BIT,
        avk::CommandBufferUsageFlags::ONE_TIME_SUBMIT.as_raw()
    );
    assert_eq!(
        vk::COMMAND_BUFFER_USAGE_SIMULTANEOUS_USE_BIT,
        avk::CommandBufferUsageFlags::SIMULTANEOUS_USE.as_raw()
    );
    assert_eq!(
        vk::COMMAND_POOL_CREATE_RESET_COMMAND_BUFFER_BIT,
        avk::CommandPoolCreateFlags::RESET_COMMAND_BUFFER.as_raw()
    );
    assert_eq!(
        vk::COMMAND_BUFFER_RESET_RELEASE_RESOURCES_BIT,
        avk::CommandBufferResetFlags::RELEASE_RESOURCES.as_raw()
    );
    assert_eq!(vk::DEPENDENCY_BY_REGION_BIT, avk::DependencyFlags::BY_REGION.as_raw());
    assert_eq!(vk::SAMPLE_COUNT_1_BIT, avk::SampleCountFlags::TYPE_1.as_raw());
    assert_eq!(vk::COLOR_COMPONENT_ALL, avk::ColorComponentFlags::RGBA.as_raw());
    assert_eq!(vk::CULL_MODE_NONE, avk::CullModeFlags::NONE.as_raw());
    assert_eq!(vk::SURFACE_TRANSFORM_IDENTITY_BIT_KHR, avk::SurfaceTransformFlagsKHR::IDENTITY.as_raw());
    assert_eq!(vk::COMPOSITE_ALPHA_OPAQUE_BIT_KHR, avk::CompositeAlphaFlagsKHR::OPAQUE.as_raw());
    assert_eq!(vk::DEBUG_REPORT_WARNING_BIT_EXT, avk::DebugReportFlagsEXT::WARNING.as_raw());
    assert_eq!(
        vk::DEBUG_REPORT_PERFORMANCE_WARNING_BIT_EXT,
        avk::DebugReportFlagsEXT::PERFORMANCE_WARNING.as_raw()
    );
    assert_eq!(vk::DEBUG_REPORT_ERROR_BIT_EXT, avk::DebugReportFlagsEXT::ERROR.as_raw());
    assert_eq!(vk::FORMAT_UNDEFINED, avk::Format::UNDEFINED.as_raw());
    assert_eq!(vk::FORMAT_B8G8R8_UNORM, avk::Format::B8G8R8_UNORM.as_raw());
    assert_eq!(vk::FORMAT_R8G8B8A8_UNORM, avk::Format::R8G8B8A8_UNORM.as_raw());
    assert_eq!(vk::FORMAT_R16G16B16A16_SFLOAT, avk::Format::R16G16B16A16_SFLOAT.as_raw());
    assert_eq!(vk::FORMAT_R32G32B32A32_SFLOAT, avk::Format::R32G32B32A32_SFLOAT.as_raw());
    assert_eq!(vk::FORMAT_D16_UNORM, avk::Format::D16_UNORM.as_raw());
    assert_eq!(vk::PRESENT_MODE_MAILBOX_KHR, avk::PresentModeKHR::MAILBOX.as_raw());
    assert_eq!(vk::PRESENT_MODE_FIFO_KHR, avk::PresentModeKHR::FIFO.as_raw());
    assert_eq!(vk::SUBPASS_EXTERNAL, avk::SUBPASS_EXTERNAL);
    assert_eq!(vk::QUEUE_FAMILY_IGNORED, avk::QUEUE_FAMILY_IGNORED);
    assert_eq!(vk::WHOLE_SIZE, avk::WHOLE_SIZE);
    assert_eq!(vk::F32_ZERO, 0.0f32.to_bits());
    assert_eq!(vk::F32_ONE, 1.0f32.to_bits());
}

#[test]
fn mask_containment() {
    assert!(vk::contains(LOCAL | VISIBLE, VISIBLE));
    assert!(vk::contains(LOCAL | VISIBLE, LOCAL | VISIBLE));
    assert!(!vk::contains(LOCAL, VISIBLE));
    assert!(vk::contains(0, 0));
    assert!(vk::contains(LOCAL, 0));
    assert_eq!(
        vk::contains(LOCAL | VISIBLE, VISIBLE),
        ash::vk::MemoryPropertyFlags::from_raw(LOCAL | VISIBLE)
            .contains(ash::vk::MemoryPropertyFlags::from_raw(VISIBLE))
    );
}
