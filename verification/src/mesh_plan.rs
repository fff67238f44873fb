//! Building a mesh, request by request.
//!
//! Indices and vertices each pass through a staging buffer that the host
//! fills. The two buffers of the mesh share one block of device-local
//! memory, the index buffer at its start and the vertex buffer right
//! behind. One submission copies both, and the staging buffers are
//! destroyed once it has completed.
use vstd::prelude::*;
use crate::vk;
use crate::driver::{
    asks_memory, buffer_in, memory_found, memory_in, requirements_in, Data, PlanError, Reply,
    Request, Step,
};
use crate::memory::{is_memorytype_choice, MemoryType, PhysicalDeviceMemoryProperties};
use crate::mesh::{
    is_mesh_memory, multi_buffer_allocation, upload_copies, Mesh, MeshMemory,
    MeshSizes, STAGING_PROPERTIES,
};
use crate::resource::{allocate_info, BufferCreateInfo, MappedRange};
use crate::vk_commands::is_one_shot_submission;

verus! {

/// The alignment at which indices and vertex components are written.
pub const WORD: u64 = 4;

/// What a mesh is built from.
pub struct MeshInputs {
    pub sizes: MeshSizes,
    /// The command buffer the upload is recorded into.
    pub command_buffer: vk::CommandBuffer,
    pub memory_types: Seq<MemoryType>,
}

impl MeshInputs {
    /// The number of requests it takes to build the mesh.
    pub open spec fn total(self) -> int {
        18
    }

    /// Whether the answer at position `k` is an answer to the request at
    /// that position.
    pub open spec fn expects(self, k: int, reply: Reply) -> bool {
        if k == 0 || k == 4 || k == 8 || k == 9 {
            reply is Buffer
        } else if k == 1 || k == 5 || k == 10 {
            reply is Memory
        } else {
            reply is Done
        }
    }

    /// Whether each of the first `upto` answers fits the request it
    /// answers.
    pub open spec fn fit(self, replies: Seq<Reply>, upto: int) -> bool {
        forall|k: int| 0 <= k < upto && k < replies.len() ==> self.expects(k, #[trigger] replies[k])
    }

    /// Whether the device has memory for the staging buffer at position
    /// `at`.
    pub open spec fn staging_fits(self, replies: Seq<Reply>, at: int) -> bool {
        memory_found(requirements_in(replies[at]), self.memory_types, STAGING_PROPERTIES)
    }

    /// Whether the two buffers of the mesh can be given memory.
    pub open spec fn memory_fits(self, replies: Seq<Reply>) -> bool {
        exists|plan: MeshMemory|
            #[trigger] is_mesh_memory(
                requirements_in(replies[8]),
                requirements_in(replies[9]),
                self.memory_types,
                vk::MEMORY_PROPERTY_DEVICE_LOCAL_BIT,
                Ok(plan),
            )
    }

    /// Whether everything that has to be there after `len` answers is
    /// there.
    pub open spec fn memories_fit(self, replies: Seq<Reply>, len: int) -> bool {
        &&& len > 0 ==> self.staging_fits(replies, 0)
        &&& len > 4 ==> self.staging_fits(replies, 4)
        &&& len > 9 ==> self.memory_fits(replies)
    }

    /// The staging buffer at position `at` of `size` bytes.
    pub open spec fn asks_staging(self, replies: Seq<Reply>, k: int, at: int, size: u64, data: Data, request: Request) -> bool {
        if k == at {
            request == Request::CreateBuffer(
                BufferCreateInfo { size, usage: vk::BUFFER_USAGE_TRANSFER_SRC_BIT },
            )
        } else if k == at + 1 {
            asks_memory(request, requirements_in(replies[at]), self.memory_types, STAGING_PROPERTIES)
        } else if k == at + 2 {
            request == (Request::BindBufferMemory {
                buffer: buffer_in(replies[at]),
                memory: memory_in(replies[at + 1]),
                offset: 0,
            })
        } else {
            request == (Request::Write {
                range: MappedRange {
                    memory: memory_in(replies[at + 1]),
                    offset: 0,
                    size,
                    alignment: WORD,
                },
                data,
            })
        }
    }

    /// Whether `request` is the request at position `k`, after the answers
    /// before it.
    pub open spec fn asks(self, replies: Seq<Reply>, k: int, request: Request) -> bool {
        if k < 4 {
            self.asks_staging(replies, k, 0, self.sizes.index_data_size, Data::Indices, request)
        } else if k < 8 {
            self.asks_staging(replies, k, 4, self.sizes.vertex_data_size, Data::Vertices, request)
        } else if k == 8 {
            request == Request::CreateBuffer(
                BufferCreateInfo {
                    size: self.sizes.index_data_size,
                    usage: vk::BUFFER_USAGE_TRANSFER_DST_BIT | vk::BUFFER_USAGE_INDEX_BUFFER_BIT,
                },
            )
        } else if k == 9 {
            request == Request::CreateBuffer(
                BufferCreateInfo {
                    size: self.sizes.vertex_data_size,
                    usage: vk::BUFFER_USAGE_TRANSFER_DST_BIT | vk::BUFFER_USAGE_VERTEX_BUFFER_BIT,
                },
            )
        } else if k == 10 {
            &&& request matches Request::AllocateMemory(allocation)
            &&& is_mesh_memory(
                requirements_in(replies[8]),
                requirements_in(replies[9]),
                self.memory_types,
                vk::MEMORY_PROPERTY_DEVICE_LOCAL_BIT,
                Ok(
                    MeshMemory {
                        allocation,
                        index_offset: 0,
                        vertex_offset: requirements_in(replies[8]).size,
                    },
                ),
            )
        } else if k == 11 {
            request == (Request::BindBufferMemory {
                buffer: buffer_in(replies[8]),
                memory: memory_in(replies[10]),
                offset: 0,
            })
        } else if k == 12 {
            request == (Request::BindBufferMemory {
                buffer: buffer_in(replies[9]),
                memory: memory_in(replies[10]),
                offset: requirements_in(replies[8]).size,
            })
        } else if k == 13 {
            &&& request matches Request::Submit(steps)
            &&& is_one_shot_submission(
                steps@,
                self.command_buffer,
                seq![vk::PIPELINE_STAGE_TOP_OF_PIPE_BIT],
                Seq::empty(),
                Seq::empty(),
                upload_copies(
                    buffer_in(replies[0]),
                    buffer_in(replies[4]),
                    buffer_in(replies[8]),
                    buffer_in(replies[9]),
                    self.sizes,
                ),
            )
        } else if k == 14 {
            request == Request::Destroy(vk::Object::Buffer(buffer_in(replies[0])))
        } else if k == 15 {
            request == Request::Destroy(vk::Object::DeviceMemory(memory_in(replies[1])))
        } else if k == 16 {
            request == Request::Destroy(vk::Object::Buffer(buffer_in(replies[4])))
        } else {
            request == Request::Destroy(vk::Object::DeviceMemory(memory_in(replies[5])))
        }
    }

    /// The mesh that the answers add up to.
    pub open spec fn mesh(self, replies: Seq<Reply>) -> Mesh {
        Mesh {
            memory: memory_in(replies[10]),
            index_buffer: buffer_in(replies[8]),
            vertex_buffer: buffer_in(replies[9]),
            index_buffer_len: self.sizes.index_count,
            index_offset: 0,
            vertex_offset: 0,
        }
    }

    /// Whether `step` is the planner's answer to `replies`.
    pub open spec fn plans(self, replies: Seq<Reply>, step: Step<Mesh>) -> bool {
        let len = replies.len() as int;
        match step {
            Step::Fail(PlanError::UnexpectedReply(at)) => {
                &&& at <= self.total()
                &&& at < len
                &&& self.fit(replies, at as int)
                &&& at < self.total() ==> !self.expects(at as int, replies[at as int])
                &&& self.memories_fit(replies, at as int)
            },
            Step::Fail(PlanError::NoMemoryType) => {
                ||| {
                    &&& len > 0
                    &&& self.fit(replies, 1)
                    &&& is_memorytype_choice(
                        requirements_in(replies[0]).memory_type_bits,
                        self.memory_types,
                        STAGING_PROPERTIES,
                        None,
                    )
                }
                ||| {
                    &&& len > 4
                    &&& self.fit(replies, 5)
                    &&& self.memories_fit(replies, 4)
                    &&& is_memorytype_choice(
                        requirements_in(replies[4]).memory_type_bits,
                        self.memory_types,
                        STAGING_PROPERTIES,
                        None,
                    )
                }
            },
            Step::Fail(PlanError::Mesh(error)) => {
                &&& len > 9
                &&& self.fit(replies, 10)
                &&& self.memories_fit(replies, 9)
                &&& is_mesh_memory(
                    requirements_in(replies[8]),
                    requirements_in(replies[9]),
                    self.memory_types,
                    vk::MEMORY_PROPERTY_DEVICE_LOCAL_BIT,
                    Err(error),
                )
            },
            Step::Fail(_) => false,
            Step::Ask(request) => {
                &&& len < self.total()
                &&& self.fit(replies, len)
                &&& self.memories_fit(replies, len)
                &&& self.asks(replies, len, request)
            },
            Step::Done(mesh) => {
                &&& len == self.total()
                &&& self.fit(replies, len)
                &&& self.memories_fit(replies, len)
                &&& mesh.wf()
                &&& mesh == self.mesh(replies)
            },
        }
    }
}

/// What came of the four requests of a staging buffer.
enum Staged {
    Ask(Request),
    Ready(vk::Buffer, vk::DeviceMemory),
    Fail(PlanError),
}

/// The next step in building the staging buffer whose four requests start
/// at position `at`.
fn plan_staging(
    size: u64,
    data: Data,
    memory_prop: &PhysicalDeviceMemoryProperties,
    replies: &[Reply],
    at: usize,
) -> (staged: Staged)
    requires
        at <= 4,
        replies@.len() >= at,
    ensures
        match staged {
            Staged::Ask(request) => {
                &&& at <= replies@.len() < at + 4
                &&& replies@.len() > at ==> replies@[at as int] is Buffer && memory_found(
                    requirements_in(replies@[at as int]),
                    memory_prop@,
                    STAGING_PROPERTIES,
                )
                &&& replies@.len() > at + 1 ==> replies@[at + 1] is Memory
                &&& replies@.len() > at + 2 ==> replies@[at + 2] is Done
                &&& replies@.len() == at ==> request == Request::CreateBuffer(
                    BufferCreateInfo { size, usage: vk::BUFFER_USAGE_TRANSFER_SRC_BIT },
                )
                &&& replies@.len() == at + 1 ==> asks_memory(
                    request,
                    requirements_in(replies@[at as int]),
                    memory_prop@,
                    STAGING_PROPERTIES,
                )
                &&& replies@.len() == at + 2 ==> request == (Request::BindBufferMemory {
                    buffer: buffer_in(replies@[at as int]),
                    memory: memory_in(replies@[at + 1]),
                    offset: 0,
                })
                &&& replies@.len() == at + 3 ==> request == (Request::Write {
                    range: MappedRange {
                        memory: memory_in(replies@[at + 1]),
                        offset: 0,
                        size,
                        alignment: WORD,
                    },
                    data,
                })
            },
            Staged::Ready(buffer, memory) => {
                &&& replies@.len() >= at + 4
                &&& replies@[at as int] is Buffer
                &&& replies@[at + 1] is Memory
                &&& replies@[at + 2] is Done
                &&& replies@[at + 3] is Done
                &&& buffer == buffer_in(replies@[at as int])
                &&& memory == memory_in(replies@[at + 1])
                &&& memory_found(
                    requirements_in(replies@[at as int]),
                    memory_prop@,
                    STAGING_PROPERTIES,
                )
            },
            Staged::Fail(PlanError::UnexpectedReply(k)) => {
                &&& at <= k < at + 4
                &&& k < replies@.len()
                &&& k > at ==> replies@[at as int] is Buffer && memory_found(
                    requirements_in(replies@[at as int]),
                    memory_prop@,
                    STAGING_PROPERTIES,
                )
                &&& k > at + 1 ==> replies@[at + 1] is Memory
                &&& k > at + 2 ==> replies@[at + 2] is Done
                &&& k == at ==> !(replies@[k as int] is Buffer)
                &&& k == at + 1 ==> !(replies@[k as int] is Memory)
                &&& k >= at + 2 ==> !(replies@[k as int] is Done)
            },
            Staged::Fail(PlanError::NoMemoryType) => {
                &&& replies@.len() > at
                &&& replies@[at as int] is Buffer
                &&& is_memorytype_choice(
                    requirements_in(replies@[at as int]).memory_type_bits,
                    memory_prop@,
                    STAGING_PROPERTIES,
                    None,
                )
            },
            Staged::Fail(_) => false,
        },
{
    let len = replies.len();
    if len == at {
        return Staged::Ask(Request::CreateBuffer(Mesh::staging_info(size)));
    }
    let (buffer, requirements) = match replies[at] {
        Reply::Buffer(buffer, requirements) => (buffer, requirements),
        _ => {
            return Staged::Fail(PlanError::UnexpectedReply(at));
        },
    };
    let allocation = match allocate_info(&requirements, memory_prop, STAGING_PROPERTIES) {
        Some(allocation) => allocation,
        None => {
            return Staged::Fail(PlanError::NoMemoryType);
        },
    };
    assert(memory_found(requirements_in(replies@[at as int]), memory_prop@, STAGING_PROPERTIES))
        by {
        assert(is_memorytype_choice(
            requirements_in(replies@[at as int]).memory_type_bits,
            memory_prop@,
            STAGING_PROPERTIES,
            Some(allocation.memory_type_index),
        ));
    }
    if len == at + 1 {
        return Staged::Ask(Request::AllocateMemory(allocation));
    }
    let memory = match replies[at + 1] {
        Reply::Memory(memory) => memory,
        _ => {
            return Staged::Fail(PlanError::UnexpectedReply(at + 1));
        },
    };
    if len == at + 2 {
        return Staged::Ask(Request::BindBufferMemory { buffer, memory, offset: 0 });
    }
    match replies[at + 2] {
        Reply::Done => {},
        _ => {
            return Staged::Fail(PlanError::UnexpectedReply(at + 2));
        },
    }
    if len == at + 3 {
        return Staged::Ask(
            Request::Write {
                range: MappedRange { memory, offset: 0, size, alignment: WORD },
                data,
            },
        );
    }
    match replies[at + 3] {
        Reply::Done => {},
        _ => {
            return Staged::Fail(PlanError::UnexpectedReply(at + 3));
        },
    }
    Staged::Ready(buffer, memory)
}

impl Mesh {
    /// The next step in building a mesh, after the answers in `replies`.
    #[verifier::rlimit(60)]
    pub fn new(
        sizes: MeshSizes,
        command_buffer: vk::CommandBuffer,
        memory_prop: &PhysicalDeviceMemoryProperties,
        replies: &[Reply],
    ) -> (step: Step<Mesh>)
        ensures
            (MeshInputs { sizes, command_buffer, memory_types: memory_prop@ }).plans(replies@, step),
    {
        let ghost inputs = MeshInputs { sizes, command_buffer, memory_types: memory_prop@ };
        let len = replies.len();
        let (staging_index_buffer, staging_index_memory) = match plan_staging(
            sizes.index_data_size,
            Data::Indices,
            memory_prop,
            replies,
            0,
        ) {
            Staged::Ask(request) => {
                return Step::Ask(request);
            },
            Staged::Fail(error) => {
                return Step::Fail(error);
            },
            Staged::Ready(buffer, memory) => (buffer, memory),
        };
        assert(inputs.fit(replies@, 4));
        assert(inputs.staging_fits(replies@, 0));
        let (staging_vertex_buffer, staging_vertex_memory) = match plan_staging(
            sizes.vertex_data_size,
            Data::Vertices,
            memory_prop,
            replies,
            4,
        ) {
            Staged::Ask(request) => {
                return Step::Ask(request);
            },
            Staged::Fail(error) => {
                return Step::Fail(error);
            },
            Staged::Ready(buffer, memory) => (buffer, memory),
        };
        assert(inputs.fit(replies@, 8));
        assert(inputs.staging_fits(replies@, 4));
        let (index_info, vertex_info) = Mesh::buffer_infos(sizes);
        if len == 8 {
            return Step::Ask(Request::CreateBuffer(index_info));
        }
        let (index_buffer, index_requirements) = match replies[8] {
            Reply::Buffer(buffer, requirements) => (buffer, requirements),
            _ => {
                return Step::Fail(PlanError::UnexpectedReply(8));
            },
        };
        if len == 9 {
            return Step::Ask(Request::CreateBuffer(vertex_info));
        }
        let (vertex_buffer, vertex_requirements) = match replies[9] {
            Reply::Buffer(buffer, requirements) => (buffer, requirements),
            _ => {
                return Step::Fail(PlanError::UnexpectedReply(9));
            },
        };
        assert(inputs.fit(replies@, 10));
        let memory_plan = match multi_buffer_allocation(
            &index_requirements,
            &vertex_requirements,
            memory_prop,
            vk::MEMORY_PROPERTY_DEVICE_LOCAL_BIT,
        ) {
            Ok(memory_plan) => memory_plan,
            Err(error) => {
                return Step::Fail(PlanError::Mesh(error));
            },
        };
        assert(inputs.memory_fits(replies@)) by {
            assert(is_mesh_memory(
                requirements_in(replies@[8]),
                requirements_in(replies@[9]),
                memory_prop@,
                vk::MEMORY_PROPERTY_DEVICE_LOCAL_BIT,
                Ok(memory_plan),
            ));
        }
        Mesh::plan_device(
            sizes,
            command_buffer,
            memory_prop,
            replies,
            staging_index_buffer,
            staging_index_memory,
            staging_vertex_buffer,
            staging_vertex_memory,
            index_buffer,
            vertex_buffer,
            memory_plan,
        )
    }

    /// The second half of building a mesh: its memory, the upload, and the
    /// end of the staging buffers.
    #[verifier::rlimit(60)]
    fn plan_device(
        sizes: MeshSizes,
        command_buffer: vk::CommandBuffer,
        memory_prop: &PhysicalDeviceMemoryProperties,
        replies: &[Reply],
        staging_index_buffer: vk::Buffer,
        staging_index_memory: vk::DeviceMemory,
        staging_vertex_buffer: vk::Buffer,
        staging_vertex_memory: vk::DeviceMemory,
        index_buffer: vk::Buffer,
        vertex_buffer: vk::Buffer,
        memory_plan: MeshMemory,
    ) -> (step: Step<Mesh>)
        requires
            replies@.len() >= 10,
            (MeshInputs { sizes, command_buffer, memory_types: memory_prop@ }).fit(replies@, 10),
            (MeshInputs { sizes, command_buffer, memory_types: memory_prop@ }).memories_fit(
                replies@,
                10,
            ),
            staging_index_buffer == buffer_in(replies@[0]),
            staging_index_memory == memory_in(replies@[1]),
            staging_vertex_buffer == buffer_in(replies@[4]),
            staging_vertex_memory == memory_in(replies@[5]),
            index_buffer == buffer_in(replies@[8]),
            vertex_buffer == buffer_in(replies@[9]),
            is_mesh_memory(
                requirements_in(replies@[8]),
                requirements_in(replies@[9]),
                memory_prop@,
                vk::MEMORY_PROPERTY_DEVICE_LOCAL_BIT,
                Ok(memory_plan),
            ),
        ensures
            (MeshInputs { sizes, command_buffer, memory_types: memory_prop@ }).plans(replies@, step),
    {
        let ghost inputs = MeshInputs { sizes, command_buffer, memory_types: memory_prop@ };
        let len = replies.len();
        if len == 10 {
            return Step::Ask(Request::AllocateMemory(memory_plan.allocation));
        }
        let memory = match replies[10] {
            Reply::Memory(memory) => memory,
            _ => {
                return Step::Fail(PlanError::UnexpectedReply(10));
            },
        };
        if len == 11 {
            return Step::Ask(
                Request::BindBufferMemory {
                    buffer: index_buffer,
                    memory,
                    offset: memory_plan.index_offset,
                },
            );
        }
        match replies[11] {
            Reply::Done => {},
            _ => {
                return Step::Fail(PlanError::UnexpectedReply(11));
            },
        }
        if len == 12 {
            return Step::Ask(
                Request::BindBufferMemory {
                    buffer: vertex_buffer,
                    memory,
                    offset: memory_plan.vertex_offset,
                },
            );
        }
        match replies[12] {
            Reply::Done => {},
            _ => {
                return Step::Fail(PlanError::UnexpectedReply(12));
            },
        }
        if len == 13 {
            return Step::Ask(
                Request::Submit(
                    Mesh::upload(
                        command_buffer,
                        staging_index_buffer,
                        staging_vertex_buffer,
                        index_buffer,
                        vertex_buffer,
                        sizes,
                    ),
                ),
            );
        }
        match replies[13] {
            Reply::Done => {},
            _ => {
                return Step::Fail(PlanError::UnexpectedReply(13));
            },
        }
        let staging = Mesh::release_staging(
            staging_index_buffer,
            staging_index_memory,
            staging_vertex_buffer,
            staging_vertex_memory,
        );
        let mut k: usize = 0;
        while k < 4
            invariant
                k <= 4,
                len == replies@.len(),
                len >= 14,
                inputs.fit(replies@, 14 + k),
                len >= 14 + k,
                staging@ == seq![
                    vk::Object::Buffer(staging_index_buffer),
                    vk::Object::DeviceMemory(staging_index_memory),
                    vk::Object::Buffer(staging_vertex_buffer),
                    vk::Object::DeviceMemory(staging_vertex_memory),
                ],
                inputs == (MeshInputs { sizes, command_buffer, memory_types: memory_prop@ }),
                inputs.memories_fit(replies@, 10),
                staging_index_buffer == buffer_in(replies@[0]),
                staging_index_memory == memory_in(replies@[1]),
                staging_vertex_buffer == buffer_in(replies@[4]),
                staging_vertex_memory == memory_in(replies@[5]),
            decreases 4 - k,
        {
            if len == 14 + k {
                return Step::Ask(Request::Destroy(staging[k]));
            }
            match replies[14 + k] {
                Reply::Done => {},
                _ => {
                    return Step::Fail(PlanError::UnexpectedReply(14 + k));
                },
            }
            k += 1;
        }
        if len > 18 {
            return Step::Fail(PlanError::UnexpectedReply(18));
        }
        Step::Done(Mesh::assemble(memory, index_buffer, vertex_buffer, sizes))
    }
}

} // verus!
