use rustvulkan::resource::Resource;
use rustvulkan::uniform::{
    aligned_stride, dynamic_layout, DynamicLayout, DynamicUniformBuffer, Uniform,
    UniformBuffer, UniformDescriptor,
};
use rustvulkan::vk;

#[test]
fn stride_of_192_bytes_at_alignment_256_is_256() {
    assert_eq!(aligned_stride(192, 256), Some(256));
}

#[test]
fn three_instances_take_768_bytes() {
    assert_eq!(dynamic_layout(192, 256, 3), Some(DynamicLayout { stride: 256, buffer_size: 768 }));
}

#[test]
fn instance_offsets_are_multiples_of_the_stride() {
    type Value = [u8; 192];
    let layout = DynamicUniformBuffer::layout::<Value>(256, 3).unwrap();
    assert_eq!(layout, DynamicLayout { stride: 256, buffer_size: 768 });
    let resource =
        Resource::assemble_with_alignment(vk::Buffer(7), vk::DeviceMemory(8), 768, 256);
    let buffer = DynamicUniformBuffer::assemble::<Value>(256, 3, resource).unwrap();
    assert_eq!(buffer.size, 768);
    assert_eq!(buffer.align, 256);
    assert_eq!(buffer.count, 3);
    assert_eq!(buffer.dynamic_offset(0), Some(0));
    assert_eq!(buffer.dynamic_offset(1), Some(256));
    assert_eq!(buffer.dynamic_offset(2), Some(512));
    assert_eq!(buffer.dynamic_offset(3), None);
}

#[test]
fn stride_rounds_up_to_the_next_multiple() {
    assert_eq!(aligned_stride(0, 256), Some(0));
    assert_eq!(aligned_stride(1, 256), Some(256));
    assert_eq!(aligned_stride(256, 256), Some(256));
    assert_eq!(aligned_stride(257, 256), Some(512));
    assert_eq!(aligned_stride(64, 16), Some(64));
    assert_eq!(aligned_stride(65, 16), Some(80));
    assert_eq!(aligned_stride(100, 1), Some(100));
    assert_eq!(aligned_stride(100, 48), Some(144));
}

#[test]
fn stride_needs_a_nonzero_alignment_and_room() {
    assert_eq!(aligned_stride(192, 0), None);
    assert_eq!(aligned_stride(u64::MAX, 256), None);
    assert_eq!(aligned_stride(u64::MAX, 1), Some(u64::MAX));
    assert_eq!(aligned_stride(u64::MAX - 255, 256), Some(u64::MAX - 255));
    assert_eq!(aligned_stride(u64::MAX - 254, 256), None);
    assert_eq!(aligned_stride(u64::MAX - 255 - 255, 256), Some(u64::MAX - 255));
}

#[test]
fn layout_needs_room_for_every_instance() {
    assert_eq!(dynamic_layout(192, 0, 3), None);
    assert_eq!(dynamic_layout(192, 256, 0), Some(DynamicLayout { stride: 256, buffer_size: 0 }));
    assert_eq!(dynamic_layout(192, 256, usize::MAX), None);
    assert_eq!(dynamic_layout(0, 256, usize::MAX), Some(DynamicLayout { stride: 0, buffer_size: 0 }));
}

#[test]
fn dynamic_buffer_rejects_a_resource_of_the_wrong_shape() {
    type Value = [u8; 192];
    let small = Resource::assemble_with_alignment(vk::Buffer(1), vk::DeviceMemory(2), 512, 256);
    assert!(DynamicUniformBuffer::assemble::<Value>(256, 3, small).is_none());
    let unaligned = Resource::assemble(vk::Buffer(1), vk::DeviceMemory(2), 768);
    assert!(DynamicUniformBuffer::assemble::<Value>(256, 3, unaligned).is_none());
    let wrong_stride =
        Resource::assemble_with_alignment(vk::Buffer(1), vk::DeviceMemory(2), 768, 192);
    assert!(DynamicUniformBuffer::assemble::<Value>(256, 3, wrong_stride).is_none());
    let good = Resource::assemble_with_alignment(vk::Buffer(1), vk::DeviceMemory(2), 768, 256);
    assert!(DynamicUniformBuffer::assemble::<Value>(0, 3, good).is_none());
}

#[test]
fn dynamic_offset_must_fit_32_bits() {
    type Value = [u8; 0x1000];
    let count = 0x10_0001usize;
    let size = count * 0x1000;
    let resource =
        Resource::assemble_with_alignment(vk::Buffer(1), vk::DeviceMemory(2), size, 0x1000);
    let buffer = DynamicUniformBuffer::assemble::<Value>(0x1000, count, resource).unwrap();
    assert_eq!(buffer.dynamic_offset(0xf_ffff), Some(0xffff_f000));
    assert_eq!(buffer.dynamic_offset(0x10_0000), None);
}

#[test]
fn uniform_buffer_is_as_large_as_its_value() {
    let resource = Resource::assemble(vk::Buffer(3), vk::DeviceMemory(4), 128);
    let buffer = UniformBuffer::assemble::<[u8; 128]>(resource).unwrap();
    assert_eq!(buffer.alignment, 128);
    assert_eq!(buffer.dynamic, resource);
    assert!(UniformBuffer::assemble::<[u8; 64]>(resource).is_none());
    let aligned = UniformBuffer::assemble_with_align::<[u8; 128]>(resource, 16).unwrap();
    assert_eq!(aligned.alignment, 16);
}

#[test]
fn buffers_describe_themselves_to_a_shader() {
    let resource = Resource::assemble_with_alignment(vk::Buffer(3), vk::DeviceMemory(4), 768, 256);
    let whole = vk::DescriptorBufferInfo { buffer: vk::Buffer(3), offset: 0, range: vk::WHOLE_SIZE };
    assert_eq!(resource.descriptor, whole);
    let dynamic = DynamicUniformBuffer::assemble::<[u8; 192]>(256, 3, resource).unwrap();
    assert_eq!(dynamic.get_descriptor_type(), vk::DescriptorType::UniformBufferDynamic);
    assert_eq!(dynamic.buffer_info(), Some(whole));
    assert_eq!(dynamic.image_info(), None);
    let plain = UniformBuffer::assemble::<[u8; 768]>(resource).unwrap();
    assert_eq!(plain.get_descriptor_type(), vk::DescriptorType::UniformBuffer);
    assert_eq!(plain.buffer_info(), Some(whole));
    let descriptor = UniformDescriptor::new(&dynamic, vk::SHADER_STAGE_VERTEX_BIT, 3, 0);
    assert_eq!(descriptor.binding, 3);
    assert_eq!(descriptor.set, 0);
    assert_eq!(descriptor.stage, vk::SHADER_STAGE_VERTEX_BIT);
    assert_eq!(descriptor.data.descriptor_type, vk::DescriptorType::UniformBufferDynamic);
    assert_eq!(descriptor.data.buffer_info, Some(whole));
}
