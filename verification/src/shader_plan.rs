//! Building a shader, request by request.
//!
//! The conversation is: the descriptor pool; the layout of the one
//! descriptor set; the descriptor set; the writes that fill it; the
//! module of the vertex stage and the module of the fragment stage; the
//! pipeline layout; the pipeline, with the two modules as its stages; and
//! the destruction of the two modules, which the finished pipeline does
//! not need any more.
use vstd::prelude::*;
use crate::vk;
use crate::driver::{
    descriptor_pool_in, descriptor_set_in, descriptor_set_layout_in, pipeline_in,
    pipeline_layout_in, shader_module_in, PlanError, Reply, Request, Step,
};
use crate::shader::{
    is_pipeline_info, spirv_words, DescriptorPoolSize, DescriptorSetLayoutBinding, Shader,
    VertexLayout, WriteDescriptorSet,
};
use crate::uniform::UniformDescriptor;

verus! {

/// What a shader is built from.
pub struct ShaderInputs {
    pub resolution: vk::Extent2D,
    pub render_pass: vk::RenderPassHandle,
    /// The compiled fragment stage.
    pub frag_bytes: Seq<u8>,
    /// The compiled vertex stage.
    pub vertex_bytes: Seq<u8>,
    pub vertex: VertexLayout,
    /// Whether the shader fills the geometry buffer.
    pub deferred: bool,
    pub uniforms: Seq<UniformDescriptor>,
}

impl ShaderInputs {
    /// The number of requests it takes to build the shader.
    pub open spec fn total(self) -> int {
        10
    }

    /// Whether both stages are SPIR-V modules.
    pub open spec fn is_spirv(self) -> bool {
        spirv_words(self.vertex_bytes) is Some && spirv_words(self.frag_bytes) is Some
    }

    /// Whether the answer at position `k` is an answer to the request at
    /// that position.
    pub open spec fn expects(self, k: int, reply: Reply) -> bool {
        if k == 0 {
            reply is DescriptorPool
        } else if k == 1 {
            reply is DescriptorSetLayout
        } else if k == 2 {
            reply is DescriptorSet
        } else if k == 3 {
            reply is Done
        } else if k == 4 || k == 5 {
            reply is ShaderModule
        } else if k == 6 {
            reply is PipelineLayout
        } else if k == 7 {
            reply is Pipeline
        } else {
            reply is Done
        }
    }

    /// Whether each of the first `upto` answers fits the request it
    /// answers.
    pub open spec fn fit(self, replies: Seq<Reply>, upto: int) -> bool {
        forall|k: int| 0 <= k < upto && k < replies.len() ==> self.expects(k, #[trigger] replies[k])
    }

    /// Whether `request` is the request at position `k`, after the answers
    /// before it.
    pub open spec fn asks(self, replies: Seq<Reply>, k: int, request: Request) -> bool {
        if k == 0 {
            &&& request matches Request::CreateDescriptorPool(info)
            &&& info.max_sets == 1
            &&& info.pool_sizes@ == Seq::new(
                self.uniforms.len(),
                |i: int|
                    DescriptorPoolSize {
                        typ: self.uniforms[i].data.descriptor_type,
                        descriptor_count: 1,
                    },
            )
        } else if k == 1 {
            &&& request matches Request::CreateDescriptorSetLayout(bindings)
            &&& bindings@ == Seq::new(
                self.uniforms.len(),
                |i: int|
                    DescriptorSetLayoutBinding {
                        binding: self.uniforms[i].binding,
                        descriptor_type: self.uniforms[i].data.descriptor_type,
                        descriptor_count: 1,
                        stage_flags: self.uniforms[i].stage,
                    },
            )
        } else if k == 2 {
            request == (Request::AllocateDescriptorSet {
                pool: descriptor_pool_in(replies[0]),
                layout: descriptor_set_layout_in(replies[1]),
            })
        } else if k == 3 {
            &&& request matches Request::UpdateDescriptorSets(writes)
            &&& writes@ == Seq::new(
                self.uniforms.len(),
                |i: int|
                    WriteDescriptorSet {
                        dst_set: descriptor_set_in(replies[2]),
                        dst_binding: self.uniforms[i].binding,
                        dst_array_element: 0,
                        descriptor_count: 1,
                        descriptor_type: self.uniforms[i].data.descriptor_type,
                        image_info: self.uniforms[i].data.image_info,
                        buffer_info: self.uniforms[i].data.buffer_info,
                    },
            )
        } else if k == 4 {
            &&& request matches Request::CreateShaderModule(code)
            &&& spirv_words(self.vertex_bytes) == Some(code@)
        } else if k == 5 {
            &&& request matches Request::CreateShaderModule(code)
            &&& spirv_words(self.frag_bytes) == Some(code@)
        } else if k == 6 {
            request == Request::CreatePipelineLayout(descriptor_set_layout_in(replies[1]))
        } else if k == 7 {
            &&& request matches Request::CreateGraphicsPipeline {
                info,
                vertex_module,
                fragment_module,
            }
            &&& is_pipeline_info(
                info,
                self.resolution,
                self.render_pass,
                pipeline_layout_in(replies[6]),
                self.vertex,
                self.deferred,
            )
            &&& vertex_module == shader_module_in(replies[4])
            &&& fragment_module == shader_module_in(replies[5])
        } else if k == 8 {
            request == Request::Destroy(vk::Object::ShaderModule(shader_module_in(replies[4])))
        } else {
            request == Request::Destroy(vk::Object::ShaderModule(shader_module_in(replies[5])))
        }
    }

    /// Whether `shader` is the shader that the answers add up to.
    pub open spec fn builds(self, replies: Seq<Reply>, shader: Shader) -> bool {
        &&& shader.wf()
        &&& shader.graphics_pipeline == pipeline_in(replies[7])
        &&& shader.pipeline_layout == pipeline_layout_in(replies[6])
        &&& shader.scissors@ == seq![
            vk::Rect2D { offset: vk::Offset2D { x: 0, y: 0 }, extent: self.resolution },
        ]
        &&& shader.viewports@ == seq![self.resolution]
        &&& shader.descriptor_sets@ == seq![descriptor_set_in(replies[2])]
        &&& shader.descriptor_set_layout@ == seq![descriptor_set_layout_in(replies[1])]
        &&& shader.descriptor_pool == descriptor_pool_in(replies[0])
        &&& shader.uniform_buffers@ == self.uniforms
    }

    /// Whether `step` is the planner's answer to `replies`.
    pub open spec fn plans(self, replies: Seq<Reply>, step: Step<Shader>) -> bool {
        let len = replies.len() as int;
        match step {
            Step::Fail(PlanError::NotSpirv) => !self.is_spirv(),
            Step::Fail(PlanError::UnexpectedReply(at)) => {
                &&& self.is_spirv()
                &&& at <= self.total()
                &&& at < len
                &&& self.fit(replies, at as int)
                &&& at < self.total() ==> !self.expects(at as int, replies[at as int])
            },
            Step::Fail(_) => false,
            Step::Ask(request) => {
                &&& self.is_spirv()
                &&& len < self.total()
                &&& self.fit(replies, len)
                &&& self.asks(replies, len, request)
            },
            Step::Done(shader) => {
                &&& self.is_spirv()
                &&& len == self.total()
                &&& self.fit(replies, len)
                &&& self.builds(replies, shader)
            },
        }
    }
}

/// The two shader modules are created once each, used by the pipeline,
/// and destroyed once each before the shader is done: among the requests
/// of a finished conversation, the fifth and sixth create them, the eighth
/// hands them to the pipeline, and the last two destroy them, the vertex
/// module first. No other request creates or destroys anything.
pub proof fn lemma_modules_are_destroyed_once(
    inputs: ShaderInputs,
    replies: Seq<Reply>,
    shader: Shader,
    k: int,
    request: Request,
)
    requires
        inputs.plans(replies, Step::Done(shader)),
        0 <= k < inputs.total(),
        inputs.asks(replies, k, request),
    ensures
        request is CreateShaderModule <==> k == 4 || k == 5,
        request is Destroy <==> k == 8 || k == 9,
        k == 7 ==> (request matches Request::CreateGraphicsPipeline {
            vertex_module,
            fragment_module,
            ..
        } && Reply::ShaderModule(vertex_module) == replies[4] && Reply::ShaderModule(
            fragment_module,
        ) == replies[5]),
        k == 8 ==> Reply::ShaderModule(request->Destroy_0->ShaderModule_0) == replies[4]
            && request->Destroy_0 is ShaderModule,
        k == 9 ==> Reply::ShaderModule(request->Destroy_0->ShaderModule_0) == replies[5]
            && request->Destroy_0 is ShaderModule,
{
    assert(inputs.expects(4, replies[4]));
    assert(inputs.expects(5, replies[5]));
}

fn copy_uniforms(uniforms: &Vec<UniformDescriptor>) -> (copy: Vec<UniformDescriptor>)
    ensures
        copy@ == uniforms@,
{
    let mut copy: Vec<UniformDescriptor> = Vec::new();
    let mut i: usize = 0;
    while i < uniforms.len()
        invariant
            i <= uniforms.len(),
            copy@ == uniforms@.subrange(0, i as int),
        decreases uniforms.len() - i,
    {
        copy.push(uniforms[i]);
        i += 1;
        assert(copy@ =~= uniforms@.subrange(0, i as int));
    }
    assert(uniforms@.subrange(0, uniforms.len() as int) =~= uniforms@);
    copy
}

impl Shader {
    /// The next step in building a shader, after the answers in `replies`.
    #[verifier::rlimit(40)]
    pub fn from_spriv(
        resolution: vk::Extent2D,
        render_pass: vk::RenderPassHandle,
        frag_bytes: &Vec<u8>,
        vertex_bytes: &Vec<u8>,
        vertex: VertexLayout,
        deferred: bool,
        uniforms: &Vec<UniformDescriptor>,
        replies: &[Reply],
    ) -> (step: Step<Shader>)
        ensures
            (ShaderInputs {
                resolution,
                render_pass,
                frag_bytes: frag_bytes@,
                vertex_bytes: vertex_bytes@,
                vertex,
                deferred,
                uniforms: uniforms@,
            }).plans(replies@, step),
    {
        let ghost inputs = ShaderInputs {
            resolution,
            render_pass,
            frag_bytes: frag_bytes@,
            vertex_bytes: vertex_bytes@,
            vertex,
            deferred,
            uniforms: uniforms@,
        };
        let vertex_code = match Shader::spirv(vertex_bytes) {
            Some(words) => words,
            None => {
                return Step::Fail(PlanError::NotSpirv);
            },
        };
        let fragment_code = match Shader::spirv(frag_bytes) {
            Some(words) => words,
            None => {
                return Step::Fail(PlanError::NotSpirv);
            },
        };
        assert(inputs.is_spirv());
        let len = replies.len();
        if len == 0 {
            let info = Shader::descriptor_pool_info(uniforms);
            assert(info.pool_sizes@ =~= Seq::new(
                uniforms@.len(),
                |i: int|
                    DescriptorPoolSize {
                        typ: uniforms@[i].data.descriptor_type,
                        descriptor_count: 1,
                    },
            ));
            return Step::Ask(Request::CreateDescriptorPool(info));
        }
        let descriptor_pool = match replies[0] {
            Reply::DescriptorPool(pool) => pool,
            _ => {
                return Step::Fail(PlanError::UnexpectedReply(0));
            },
        };
        if len == 1 {
            let bindings = Shader::layout_bindings(uniforms);
            assert(bindings@ =~= Seq::new(
                uniforms@.len(),
                |i: int|
                    DescriptorSetLayoutBinding {
                        binding: uniforms@[i].binding,
                        descriptor_type: uniforms@[i].data.descriptor_type,
                        descriptor_count: 1,
                        stage_flags: uniforms@[i].stage,
                    },
            ));
            return Step::Ask(Request::CreateDescriptorSetLayout(bindings));
        }
        let descriptor_set_layout = match replies[1] {
            Reply::DescriptorSetLayout(layout) => layout,
            _ => {
                return Step::Fail(PlanError::UnexpectedReply(1));
            },
        };
        if len == 2 {
            return Step::Ask(
                Request::AllocateDescriptorSet { pool: descriptor_pool, layout: descriptor_set_layout },
            );
        }
        let descriptor_set = match replies[2] {
            Reply::DescriptorSet(set) => set,
            _ => {
                return Step::Fail(PlanError::UnexpectedReply(2));
            },
        };
        if len == 3 {
            let writes = Shader::write_descriptor_sets(descriptor_set, uniforms);
            assert(writes@ =~= Seq::new(
                uniforms@.len(),
                |i: int|
                    WriteDescriptorSet {
                        dst_set: descriptor_set,
                        dst_binding: uniforms@[i].binding,
                        dst_array_element: 0,
                        descriptor_count: 1,
                        descriptor_type: uniforms@[i].data.descriptor_type,
                        image_info: uniforms@[i].data.image_info,
                        buffer_info: uniforms@[i].data.buffer_info,
                    },
            ));
            return Step::Ask(Request::UpdateDescriptorSets(writes));
        }
        match replies[3] {
            Reply::Done => {},
            _ => {
                return Step::Fail(PlanError::UnexpectedReply(3));
            },
        }
        if len == 4 {
            return Step::Ask(Request::CreateShaderModule(vertex_code));
        }
        let vertex_module = match replies[4] {
            Reply::ShaderModule(module) => module,
            _ => {
                return Step::Fail(PlanError::UnexpectedReply(4));
            },
        };
        if len == 5 {
            return Step::Ask(Request::CreateShaderModule(fragment_code));
        }
        let fragment_module = match replies[5] {
            Reply::ShaderModule(module) => module,
            _ => {
                return Step::Fail(PlanError::UnexpectedReply(5));
            },
        };
        if len == 6 {
            return Step::Ask(Request::CreatePipelineLayout(descriptor_set_layout));
        }
        let pipeline_layout = match replies[6] {
            Reply::PipelineLayout(layout) => layout,
            _ => {
                return Step::Fail(PlanError::UnexpectedReply(6));
            },
        };
        if len == 7 {
            let info = Shader::pipeline_info(resolution, render_pass, pipeline_layout, vertex, deferred);
            return Step::Ask(
                Request::CreateGraphicsPipeline { info, vertex_module, fragment_module },
            );
        }
        let graphics_pipeline = match replies[7] {
            Reply::Pipeline(pipeline) => pipeline,
            _ => {
                return Step::Fail(PlanError::UnexpectedReply(7));
            },
        };
        if len == 8 {
            return Step::Ask(Request::Destroy(vk::Object::ShaderModule(vertex_module)));
        }
        match replies[8] {
            Reply::Done => {},
            _ => {
                return Step::Fail(PlanError::UnexpectedReply(8));
            },
        }
        if len == 9 {
            return Step::Ask(Request::Destroy(vk::Object::ShaderModule(fragment_module)));
        }
        match replies[9] {
            Reply::Done => {},
            _ => {
                return Step::Fail(PlanError::UnexpectedReply(9));
            },
        }
        if len > 10 {
            return Step::Fail(PlanError::UnexpectedReply(10));
        }
        let mut descriptor_sets: Vec<vk::DescriptorSet> = Vec::new();
        descriptor_sets.push(descriptor_set);
        let mut layouts: Vec<vk::DescriptorSetLayout> = Vec::new();
        layouts.push(descriptor_set_layout);
        match Shader::assemble(
            resolution,
            graphics_pipeline,
            pipeline_layout,
            descriptor_sets,
            layouts,
            descriptor_pool,
            copy_uniforms(uniforms),
        ) {
            Some(shader) => Step::Done(shader),
            None => unreached(),
        }
    }
}

} // verus!
