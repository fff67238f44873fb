//! Meshes: index and vertex data in one block of device-local memory,
//! uploaded through staging buffers.
use vstd::prelude::*;
use crate::vk;
use crate::memory::{
    find_memorytype_index, is_memorytype_choice, MemoryRequirements, MemoryType,
    PhysicalDeviceMemoryProperties,
};
use crate::resource::{BufferCreateInfo, MemoryAllocateInfo};
use crate::vk_commands::{record_submit_commandbuffer, is_one_shot_submission, BufferCopy, Command, SubmitStep};

verus! {

/// The number of bytes of one index.
pub const INDEX_SIZE: u64 = 4;

/// The memory properties of a staging buffer.
pub const STAGING_PROPERTIES: u32 = vk::MEMORY_PROPERTY_HOST_VISIBLE_BIT
    | vk::MEMORY_PROPERTY_HOST_COHERENT_BIT;

/// The sizes in bytes of a mesh's index and vertex data.
#[derive(Clone, Copy, PartialEq, Eq, Structural, Debug)]
pub struct MeshSizes {
    pub index_data_size: u64,
    pub vertex_data_size: u64,
    pub index_count: u32,
}

/// Why the buffers of a mesh could not be given memory.
#[derive(Clone, Copy, PartialEq, Eq, Structural, Debug)]
pub enum MeshError {
    /// The two buffers together are larger than a memory block can be.
    TooLarge,
    /// The device has no memory type with the wanted properties that the
    /// index buffer admits.
    NoMemoryType,
}

/// Where the two buffers of a mesh are bound in their shared memory block.
#[derive(Clone, Copy, PartialEq, Eq, Structural, Debug)]
pub struct MeshMemory {
    pub allocation: MemoryAllocateInfo,
    pub index_offset: u64,
    pub vertex_offset: u64,
}

/// Whether `result` places an index buffer and a vertex buffer with the
/// given requirements: the index buffer at the start of the block, the
/// vertex buffer right behind it, in a block as large as both together and
/// of the memory type that the index buffer selects.
pub open spec fn is_mesh_memory(
    index_req: MemoryRequirements,
    vertex_req: MemoryRequirements,
    table: Seq<MemoryType>,
    properties: u32,
    result: Result<MeshMemory, MeshError>,
) -> bool {
    let total = index_req.size + vertex_req.size;
    match result {
        Err(MeshError::TooLarge) => total > u64::MAX,
        Err(MeshError::NoMemoryType) => total <= u64::MAX && is_memorytype_choice(
            index_req.memory_type_bits,
            table,
            properties,
            None,
        ),
        Ok(plan) => {
            &&& plan.allocation.allocation_size == total
            &&& is_memorytype_choice(
                index_req.memory_type_bits,
                table,
                properties,
                Some(plan.allocation.memory_type_index),
            )
            &&& plan.index_offset == 0
            &&& plan.vertex_offset == index_req.size
        },
    }
}

/// Places the index buffer and the vertex buffer of a mesh in one memory
/// block with the wanted properties.
pub fn multi_buffer_allocation(
    index_mem_req: &MemoryRequirements,
    vertex_mem_req: &MemoryRequirements,
    memory_prop: &PhysicalDeviceMemoryProperties,
    properties: u32,
) -> (plan: Result<MeshMemory, MeshError>)
    ensures
        is_mesh_memory(*index_mem_req, *vertex_mem_req, memory_prop@, properties, plan),
{
    let allocation_size = match index_mem_req.size.checked_add(vertex_mem_req.size) {
        Some(size) => size,
        None => {
            return Err(MeshError::TooLarge);
        },
    };
    let memory_type_index = match find_memorytype_index(index_mem_req, memory_prop, properties) {
        Some(index) => index,
        None => {
            return Err(MeshError::NoMemoryType);
        },
    };
    Ok(
        MeshMemory {
            allocation: MemoryAllocateInfo { allocation_size, memory_type_index },
            index_offset: 0,
            vertex_offset: index_mem_req.size,
        },
    )
}

/// The steps that copy one region from `source` to `destination` and wait
/// for the copy to complete.
pub fn copy_buffer(
    command_buffer: vk::CommandBuffer,
    source: vk::Buffer,
    destination: vk::Buffer,
    region: BufferCopy,
) -> (steps: Vec<SubmitStep>)
    ensures
        is_one_shot_submission(
            steps@,
            command_buffer,
            seq![vk::PIPELINE_STAGE_TOP_OF_PIPE_BIT],
            Seq::empty(),
            Seq::empty(),
            seq![Command::CopyBuffer { src: source, dst: destination, region }],
        ),
{
    let mut wait_mask: Vec<u32> = Vec::new();
    wait_mask.push(vk::PIPELINE_STAGE_TOP_OF_PIPE_BIT);
    let none: Vec<vk::Semaphore> = Vec::new();
    let mut body: Vec<Command> = Vec::new();
    body.push(Command::CopyBuffer { src: source, dst: destination, region });
    record_submit_commandbuffer(command_buffer, &wait_mask, &none, &none, &body)
}

/// A mesh on the device.
#[derive(Clone, Copy, PartialEq, Eq, Structural, Debug)]
pub struct Mesh {
    pub memory: vk::DeviceMemory,
    pub index_buffer: vk::Buffer,
    pub vertex_buffer: vk::Buffer,
    pub index_buffer_len: u32,
    pub index_offset: u64,
    pub vertex_offset: u64,
}

/// The commands that draw a mesh: bind its vertex buffer to binding zero,
/// bind its index buffer, and draw all its indices once.
pub open spec fn draw_commands(mesh: Mesh) -> Seq<Command> {
    seq![
        Command::BindVertexBuffer {
            first_binding: 0,
            buffer: mesh.vertex_buffer,
            offset: mesh.vertex_offset,
        },
        Command::BindIndexBuffer { buffer: mesh.index_buffer, offset: mesh.index_offset },
        Command::DrawIndexed {
            index_count: mesh.index_buffer_len,
            instance_count: 1,
            first_index: 0,
            vertex_offset: mesh.vertex_offset as i32,
            first_instance: 1,
        },
    ]
}

/// The two copies that fill a mesh's buffers from their staging buffers.
pub open spec fn upload_copies(
    staging_index_buffer: vk::Buffer,
    staging_vertex_buffer: vk::Buffer,
    index_buffer: vk::Buffer,
    vertex_buffer: vk::Buffer,
    sizes: MeshSizes,
) -> Seq<Command> {
    seq![
        Command::CopyBuffer {
            src: staging_index_buffer,
            dst: index_buffer,
            region: BufferCopy { src_offset: 0, dst_offset: 0, size: sizes.index_data_size },
        },
        Command::CopyBuffer {
            src: staging_vertex_buffer,
            dst: vertex_buffer,
            region: BufferCopy { src_offset: 0, dst_offset: 0, size: sizes.vertex_data_size },
        },
    ]
}

impl Mesh {
    /// The vertex offset can be passed to an indexed draw.
    pub open spec fn wf(&self) -> bool {
        self.vertex_offset <= i32::MAX
    }

    /// Whether the mesh can be drawn.
    pub fn is_well_formed(&self) -> (ok: bool)
        ensures
            ok == self.wf(),
    {
        self.vertex_offset <= i32::MAX as u64
    }

    /// The sizes of the data of a mesh with `index_count` indices and
    /// `vertex_count` vertices of `vertex_size` bytes each. Nothing when a
    /// size or the number of indices does not fit.
    pub fn sizes(index_count: usize, vertex_count: usize, vertex_size: usize) -> (sizes: Option<
        MeshSizes,
    >)
        ensures
            sizes is Some <==> index_count <= u32::MAX && vertex_size * vertex_count <= u64::MAX,
            sizes matches Some(s) ==> {
                &&& s.index_data_size == INDEX_SIZE * index_count
                &&& s.vertex_data_size == vertex_size * vertex_count
                &&& s.index_count == index_count
            },
    {
        if index_count > u32::MAX as usize {
            return None;
        }
        let index_data_size: u64 = INDEX_SIZE * (index_count as u64);
        match (vertex_size as u64).checked_mul(vertex_count as u64) {
            Some(vertex_data_size) => Some(
                MeshSizes { index_data_size, vertex_data_size, index_count: index_count as u32 },
            ),
            None => None,
        }
    }

    /// The staging buffer for `size` bytes.
    pub fn staging_info(size: u64) -> (info: BufferCreateInfo)
        ensures
            info == (BufferCreateInfo { size, usage: vk::BUFFER_USAGE_TRANSFER_SRC_BIT }),
    {
        BufferCreateInfo { size, usage: vk::BUFFER_USAGE_TRANSFER_SRC_BIT }
    }

    /// The index buffer and the vertex buffer to create, in this order.
    pub fn buffer_infos(sizes: MeshSizes) -> (infos: (BufferCreateInfo, BufferCreateInfo))
        ensures
            infos.0 == (BufferCreateInfo {
                size: sizes.index_data_size,
                usage: vk::BUFFER_USAGE_TRANSFER_DST_BIT | vk::BUFFER_USAGE_INDEX_BUFFER_BIT,
            }),
            infos.1 == (BufferCreateInfo {
                size: sizes.vertex_data_size,
                usage: vk::BUFFER_USAGE_TRANSFER_DST_BIT | vk::BUFFER_USAGE_VERTEX_BUFFER_BIT,
            }),
    {
        (
            BufferCreateInfo {
                size: sizes.index_data_size,
                usage: vk::BUFFER_USAGE_TRANSFER_DST_BIT | vk::BUFFER_USAGE_INDEX_BUFFER_BIT,
            },
            BufferCreateInfo {
                size: sizes.vertex_data_size,
                usage: vk::BUFFER_USAGE_TRANSFER_DST_BIT | vk::BUFFER_USAGE_VERTEX_BUFFER_BIT,
            },
        )
    }

    /// The steps that copy the staged index and vertex data into the
    /// mesh's buffers and wait for the copies to complete.
    pub fn upload(
        command_buffer: vk::CommandBuffer,
        staging_index_buffer: vk::Buffer,
        staging_vertex_buffer: vk::Buffer,
        index_buffer: vk::Buffer,
        vertex_buffer: vk::Buffer,
        sizes: MeshSizes,
    ) -> (steps: Vec<SubmitStep>)
        ensures
            is_one_shot_submission(
                steps@,
                command_buffer,
                seq![vk::PIPELINE_STAGE_TOP_OF_PIPE_BIT],
                Seq::empty(),
                Seq::empty(),
                upload_copies(
                    staging_index_buffer,
                    staging_vertex_buffer,
                    index_buffer,
                    vertex_buffer,
                    sizes,
                ),
            ),
    {
        let mut wait_mask: Vec<u32> = Vec::new();
        wait_mask.push(vk::PIPELINE_STAGE_TOP_OF_PIPE_BIT);
        let none: Vec<vk::Semaphore> = Vec::new();
        let mut body: Vec<Command> = Vec::new();
        body.push(
            Command::CopyBuffer {
                src: staging_index_buffer,
                dst: index_buffer,
                region: BufferCopy { src_offset: 0, dst_offset: 0, size: sizes.index_data_size },
            },
        );
        body.push(
            Command::CopyBuffer {
                src: staging_vertex_buffer,
                dst: vertex_buffer,
                region: BufferCopy { src_offset: 0, dst_offset: 0, size: sizes.vertex_data_size },
            },
        );
        assert(wait_mask@ =~= seq![vk::PIPELINE_STAGE_TOP_OF_PIPE_BIT]);
        assert(none@ =~= Seq::<vk::Semaphore>::empty());
        assert(body@ =~= upload_copies(
            staging_index_buffer,
            staging_vertex_buffer,
            index_buffer,
            vertex_buffer,
            sizes,
        ));
        record_submit_commandbuffer(command_buffer, &wait_mask, &none, &none, &body)
    }

    /// What has to be destroyed once the upload is complete: each staging
    /// buffer, then the memory behind it.
    pub fn release_staging(
        staging_index_buffer: vk::Buffer,
        staging_index_memory: vk::DeviceMemory,
        staging_vertex_buffer: vk::Buffer,
        staging_vertex_memory: vk::DeviceMemory,
    ) -> (objects: Vec<vk::Object>)
        ensures
            objects@ == seq![
                vk::Object::Buffer(staging_index_buffer),
                vk::Object::DeviceMemory(staging_index_memory),
                vk::Object::Buffer(staging_vertex_buffer),
                vk::Object::DeviceMemory(staging_vertex_memory),
            ],
    {
        let mut objects: Vec<vk::Object> = Vec::new();
        objects.push(vk::Object::Buffer(staging_index_buffer));
        objects.push(vk::Object::DeviceMemory(staging_index_memory));
        objects.push(vk::Object::Buffer(staging_vertex_buffer));
        objects.push(vk::Object::DeviceMemory(staging_vertex_memory));
        objects
    }

    /// The mesh made of its buffers and their memory. Both buffers are
    /// read from their start.
    pub fn assemble(
        memory: vk::DeviceMemory,
        index_buffer: vk::Buffer,
        vertex_buffer: vk::Buffer,
        sizes: MeshSizes,
    ) -> (mesh: Mesh)
        ensures
            mesh.wf(),
            mesh == (Mesh {
                memory,
                index_buffer,
                vertex_buffer,
                index_buffer_len: sizes.index_count,
                index_offset: 0,
                vertex_offset: 0,
            }),
    {
        Mesh {
            memory,
            index_buffer,
            vertex_buffer,
            index_buffer_len: sizes.index_count,
            index_offset: 0,
            vertex_offset: 0,
        }
    }

    /// The commands to record in order to draw the mesh.
    pub fn draw(&self) -> (commands: Vec<Command>)
        requires
            self.wf(),
        ensures
            commands@ == draw_commands(*self),
    {
        let mut commands: Vec<Command> = Vec::new();
        commands.push(
            Command::BindVertexBuffer {
                first_binding: 0,
                buffer: self.vertex_buffer,
                offset: self.vertex_offset,
            },
        );
        commands.push(
            Command::BindIndexBuffer { buffer: self.index_buffer, offset: self.index_offset },
        );
        commands.push(
            Command::DrawIndexed {
                index_count: self.index_buffer_len,
                instance_count: 1,
                first_index: 0,
                vertex_offset: self.vertex_offset as i32,
                first_instance: 1,
            },
        );
        commands
    }

    /// The objects the mesh owns, in the order in which they are
    /// destroyed.
    pub open spec fn owned(&self) -> Seq<vk::Object> {
        seq![
            vk::Object::Buffer(self.vertex_buffer),
            vk::Object::Buffer(self.index_buffer),
            vk::Object::DeviceMemory(self.memory),
        ]
    }

    /// What has to be destroyed to release the mesh: the two buffers, then
    /// the memory behind them.
    pub fn release(&self) -> (objects: Vec<vk::Object>)
        ensures
            objects@ == self.owned(),
    {
        let mut objects: Vec<vk::Object> = Vec::new();
        objects.push(vk::Object::Buffer(self.vertex_buffer));
        objects.push(vk::Object::Buffer(self.index_buffer));
        objects.push(vk::Object::DeviceMemory(self.memory));
        objects
    }
}

} // verus!
