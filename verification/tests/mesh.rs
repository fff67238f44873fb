use rustvulkan::memory::{MemoryRequirements, MemoryType, PhysicalDeviceMemoryProperties};
use rustvulkan::mesh::{
    copy_buffer, multi_buffer_allocation, Mesh, MeshError, MeshMemory, MeshSizes, STAGING_PROPERTIES,
};
use rustvulkan::resource::{BufferCreateInfo, MemoryAllocateInfo};
use rustvulkan::vk;
use rustvulkan::vk_commands::{BufferCopy, Command, SubmitStep};

fn props() -> PhysicalDeviceMemoryProperties {
    PhysicalDeviceMemoryProperties::new(vec![
        MemoryType { property_flags: vk::MEMORY_PROPERTY_HOST_VISIBLE_BIT, heap_index: 0 },
        MemoryType { property_flags: vk::MEMORY_PROPERTY_DEVICE_LOCAL_BIT, heap_index: 1 },
    ])
}

fn req(size: u64, memory_type_bits: u32) -> MemoryRequirements {
    MemoryRequirements { size, alignment: 16, memory_type_bits }
}

fn sizes() -> MeshSizes {
    Mesh::sizes(36, 24, 44).unwrap()
}

#[test]
fn data_sizes() {
    assert_eq!(sizes(), MeshSizes { index_data_size: 144, vertex_data_size: 1056, index_count: 36 });
    assert_eq!(
        Mesh::sizes(0, 0, 44),
        Some(MeshSizes { index_data_size: 0, vertex_data_size: 0, index_count: 0 })
    );
    assert_eq!(
        Mesh::sizes(u32::MAX as usize, 1, 1),
        Some(MeshSizes { index_data_size: 4 * (u32::MAX as u64), vertex_data_size: 1, index_count: u32::MAX })
    );
}

#[test]
fn index_count_must_fit_32_bits() {
    if usize::BITS > 32 {
        assert_eq!(Mesh::sizes(u32::MAX as usize + 1, 1, 1), None);
        assert_eq!(Mesh::sizes(1, usize::MAX, 2), None);
    }
}

#[test]
fn vertex_buffer_follows_the_index_buffer() {
    let plan = multi_buffer_allocation(
        &req(160, 0b11),
        &req(1056, 0b11),
        &props(),
        vk::MEMORY_PROPERTY_DEVICE_LOCAL_BIT,
    );
    assert_eq!(
        plan,
        Ok(MeshMemory {
            allocation: MemoryAllocateInfo { allocation_size: 1216, memory_type_index: 1 },
            index_offset: 0,
            vertex_offset: 160,
        })
    );
}

#[test]
fn memory_type_comes_from_the_index_buffer() {
    let local = vk::MEMORY_PROPERTY_DEVICE_LOCAL_BIT;
    assert_eq!(
        multi_buffer_allocation(&req(16, 0b01), &req(16, 0b10), &props(), local),
        Err(MeshError::NoMemoryType)
    );
    assert!(multi_buffer_allocation(&req(16, 0b10), &req(16, 0b01), &props(), local).is_ok());
    assert_eq!(
        multi_buffer_allocation(&req(u64::MAX, 0b10), &req(1, 0b10), &props(), local),
        Err(MeshError::TooLarge)
    );
    assert_eq!(
        multi_buffer_allocation(&req(u64::MAX, 0b01), &req(1, 0b10), &props(), local),
        Err(MeshError::TooLarge)
    );
    let all = multi_buffer_allocation(&req(u64::MAX, 0b10), &req(0, 0b10), &props(), local).unwrap();
    assert_eq!(all.allocation.allocation_size, u64::MAX);
    assert_eq!(all.vertex_offset, u64::MAX);
}

#[test]
fn buffers_of_a_mesh() {
    assert_eq!(
        Mesh::staging_info(144),
        BufferCreateInfo { size: 144, usage: vk::BUFFER_USAGE_TRANSFER_SRC_BIT }
    );
    let (index, vertex) = Mesh::buffer_infos(sizes());
    assert_eq!(
        index,
        BufferCreateInfo {
            size: 144,
            usage: vk::BUFFER_USAGE_TRANSFER_DST_BIT | vk::BUFFER_USAGE_INDEX_BUFFER_BIT,
        }
    );
    assert_eq!(
        vertex,
        BufferCreateInfo {
            size: 1056,
            usage: vk::BUFFER_USAGE_TRANSFER_DST_BIT | vk::BUFFER_USAGE_VERTEX_BUFFER_BIT,
        }
    );
    assert_eq!(
        STAGING_PROPERTIES,
        vk::MEMORY_PROPERTY_HOST_VISIBLE_BIT | vk::MEMORY_PROPERTY_HOST_COHERENT_BIT
    );
}

fn recorded(steps: &[SubmitStep]) -> Vec<Command> {
    match &steps[1] {
        SubmitStep::Record(recording) => recording.commands.clone(),
        other => panic!("not a recording: {:?}", other),
    }
}

#[test]
fn upload_copies_indices_then_vertices() {
    let steps = Mesh::upload(
        vk::CommandBuffer(1),
        vk::Buffer(10),
        vk::Buffer(11),
        vk::Buffer(20),
        vk::Buffer(21),
        sizes(),
    );
    assert_eq!(steps.len(), 6);
    assert_eq!(
        recorded(&steps),
        vec![
            Command::CopyBuffer {
                src: vk::Buffer(10),
                dst: vk::Buffer(20),
                region: BufferCopy { src_offset: 0, dst_offset: 0, size: 144 },
            },
            Command::CopyBuffer {
                src: vk::Buffer(11),
                dst: vk::Buffer(21),
                region: BufferCopy { src_offset: 0, dst_offset: 0, size: 1056 },
            },
        ]
    );
    match &steps[3] {
        SubmitStep::QueueSubmit(info) => {
            assert!(info.wait_semaphores.is_empty());
            assert!(info.signal_semaphores.is_empty());
            assert_eq!(info.wait_dst_stage_mask, vec![vk::PIPELINE_STAGE_TOP_OF_PIPE_BIT]);
            assert_eq!(info.command_buffer, vk::CommandBuffer(1));
        }
        other => panic!("not a submission: {:?}", other),
    }
}

#[test]
fn single_copy() {
    let region = BufferCopy { src_offset: 4, dst_offset: 8, size: 16 };
    let steps = copy_buffer(vk::CommandBuffer(1), vk::Buffer(2), vk::Buffer(3), region);
    assert_eq!(
        recorded(&steps),
        vec![Command::CopyBuffer { src: vk::Buffer(2), dst: vk::Buffer(3), region }]
    );
    assert_eq!(steps[5], SubmitStep::DestroyFence);
}

#[test]
fn staging_buffers_go_before_their_memory() {
    assert_eq!(
        Mesh::release_staging(vk::Buffer(1), vk::DeviceMemory(2), vk::Buffer(3), vk::DeviceMemory(4)),
        vec![
            vk::Object::Buffer(vk::Buffer(1)),
            vk::Object::DeviceMemory(vk::DeviceMemory(2)),
            vk::Object::Buffer(vk::Buffer(3)),
            vk::Object::DeviceMemory(vk::DeviceMemory(4)),
        ]
    );
}

#[test]
fn mesh_draws_all_its_indices() {
    let mesh = Mesh::assemble(vk::DeviceMemory(5), vk::Buffer(20), vk::Buffer(21), sizes());
    assert_eq!(mesh.index_buffer_len, 36);
    assert_eq!(mesh.index_offset, 0);
    assert_eq!(mesh.vertex_offset, 0);
    assert_eq!(
        mesh.draw(),
        vec![
            Command::BindVertexBuffer { first_binding: 0, buffer: vk::Buffer(21), offset: 0 },
            Command::BindIndexBuffer { buffer: vk::Buffer(20), offset: 0 },
            Command::DrawIndexed {
                index_count: 36,
                instance_count: 1,
                first_index: 0,
                vertex_offset: 0,
                first_instance: 1,
            },
        ]
    );
}

#[test]
fn mesh_buffers_go_before_their_memory() {
    let mesh = Mesh::assemble(vk::DeviceMemory(5), vk::Buffer(20), vk::Buffer(21), sizes());
    assert_eq!(
        mesh.release(),
        vec![
            vk::Object::Buffer(vk::Buffer(21)),
            vk::Object::Buffer(vk::Buffer(20)),
            vk::Object::DeviceMemory(vk::DeviceMemory(5)),
        ]
    );
}
