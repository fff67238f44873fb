//! Shaders: the descriptors a pipeline is given, and the pipeline itself.
//!
//! A shader has a vertex and a fragment stage, both entered at `main`. It
//! reads vertices of four attributes, position, tangent, normal and
//! texture coordinate, each a slot of four 32-bit floats, and it has one
//! descriptor set with one descriptor per uniform.
//!
//! What never varies is not spelled out in the pipeline description:
//! triangle lists, filled polygons without culling and with counter-
//! clockwise front faces, lines one pixel wide, one sample per pixel, a
//! depth test that passes on less-or-equal and writes depth, no stencil
//! test, no blending, no logic operation, and viewport and scissor set
//! while recording.
use vstd::prelude::*;
use crate::vk;
use crate::uniform::UniformDescriptor;

verus! {

/// The first word of every SPIR-V module.
pub const SPIRV_MAGIC_NUMBER: u32 = 0x0723_0203;

/// The 32-bit word at index `i` of `bytes`, lowest byte first.
pub open spec fn word_le(bytes: Seq<u8>, i: int) -> u32 {
    (bytes[4 * i] as u32) | (bytes[4 * i + 1] as u32) << 8 | (bytes[4 * i + 2] as u32) << 16 | (
    bytes[4 * i + 3] as u32) << 24
}

/// The 32-bit word at index `i` of `bytes`, highest byte first.
pub open spec fn word_be(bytes: Seq<u8>, i: int) -> u32 {
    (bytes[4 * i] as u32) << 24 | (bytes[4 * i + 1] as u32) << 16 | (bytes[4 * i + 2] as u32) << 8
        | (bytes[4 * i + 3] as u32)
}

/// The words of a SPIR-V module given as bytes. The byte order is the one
/// in which the first word reads as the magic number. There are no words
/// when the bytes do not make up whole words or do not start with the
/// magic number in either byte order.
pub open spec fn spirv_words(bytes: Seq<u8>) -> Option<Seq<u32>> {
    if bytes.len() == 0 || bytes.len() % 4 != 0 {
        None
    } else if word_le(bytes, 0) == SPIRV_MAGIC_NUMBER {
        Some(Seq::new(bytes.len() / 4, |i: int| word_le(bytes, i)))
    } else if word_be(bytes, 0) == SPIRV_MAGIC_NUMBER {
        Some(Seq::new(bytes.len() / 4, |i: int| word_be(bytes, i)))
    } else {
        None
    }
}

/// Decodes a SPIR-V module with `ash::util::read_spv`, which fails unless
/// the input consists of whole 32-bit words of which the first is the
/// magic number in one of the two byte orders, and then returns the words
/// read in that byte order.
#[verifier::external_body]
fn read_spv(bytes: &Vec<u8>) -> (words: Option<Vec<u32>>)
    ensures
        match words {
            Some(w) => spirv_words(bytes@) == Some(w@),
            None => spirv_words(bytes@) is None,
        },
{
    ash::util::read_spv(&mut std::io::Cursor::new(&bytes[..])).ok()
}

/// How many descriptors of one type a pool provides.
#[derive(Clone, Copy, PartialEq, Eq, Structural, Debug)]
pub struct DescriptorPoolSize {
    pub typ: vk::DescriptorType,
    pub descriptor_count: u32,
}

/// What a descriptor pool is created with.
#[derive(Clone, PartialEq, Eq, Debug)]
pub struct DescriptorPoolCreateInfo {
    pub max_sets: u32,
    pub pool_sizes: Vec<DescriptorPoolSize>,
}

/// One binding of a descriptor set layout.
#[derive(Clone, Copy, PartialEq, Eq, Structural, Debug)]
pub struct DescriptorSetLayoutBinding {
    pub binding: u32,
    pub descriptor_type: vk::DescriptorType,
    pub descriptor_count: u32,
    pub stage_flags: u32,
}

/// One write into a descriptor set.
#[derive(Clone, Copy, PartialEq, Eq, Structural, Debug)]
pub struct WriteDescriptorSet {
    pub dst_set: vk::DescriptorSet,
    pub dst_binding: u32,
    pub dst_array_element: u32,
    pub descriptor_count: u32,
    pub descriptor_type: vk::DescriptorType,
    pub image_info: Option<vk::DescriptorImageInfo>,
    pub buffer_info: Option<vk::DescriptorBufferInfo>,
}

/// Where the attributes of a vertex lie: the size of a vertex and the
/// byte offset of each attribute in it.
#[derive(Clone, Copy, PartialEq, Eq, Structural, Debug)]
pub struct VertexLayout {
    pub stride: u32,
    pub pos: u32,
    pub tangent: u32,
    pub normal: u32,
    pub uv: u32,
}

/// One attribute of the vertex input.
#[derive(Clone, Copy, PartialEq, Eq, Structural, Debug)]
pub struct VertexInputAttributeDescription {
    pub location: u32,
    pub binding: u32,
    pub format: i32,
    pub offset: u32,
}

/// How the output of the fragment stage is written to one colour
/// attachment.
#[derive(Clone, Copy, PartialEq, Eq, Structural, Debug)]
pub struct PipelineColorBlendAttachmentState {
    pub blend_enable: bool,
    pub color_write_mask: u32,
}

/// What a graphics pipeline is created with, as far as it varies.
#[derive(Clone, PartialEq, Eq, Debug)]
pub struct GraphicsPipelineCreateInfo {
    /// The stage of each shader module: vertex, then fragment.
    pub stages: Vec<u32>,
    /// The size of a vertex; vertices are read from binding zero.
    pub vertex_stride: u32,
    pub vertex_attributes: Vec<VertexInputAttributeDescription>,
    pub viewport: vk::Extent2D,
    pub scissor: vk::Rect2D,
    pub color_blend_attachments: Vec<PipelineColorBlendAttachmentState>,
    pub layout: vk::PipelineLayout,
    pub render_pass: vk::RenderPassHandle,
    pub subpass: u32,
}

/// The number of colour attachments a pipeline writes: the three of the
/// geometry pass when it fills the geometry buffer, else the one of the
/// lighting pass.
pub open spec fn blend_attachment_count(deferred: bool) -> nat {
    if deferred {
        3
    } else {
        1
    }
}

/// The attribute at `location` of a vertex with the given layout.
pub open spec fn attribute_at(layout: VertexLayout, location: int) -> VertexInputAttributeDescription {
    VertexInputAttributeDescription {
        location: location as u32,
        binding: 0,
        format: vk::FORMAT_R32G32B32A32_SFLOAT,
        offset: if location == 0 {
            layout.pos
        } else if location == 1 {
            layout.tangent
        } else if location == 2 {
            layout.normal
        } else {
            layout.uv
        },
    }
}

/// An attachment that is overwritten in all four channels.
pub open spec fn overwrite() -> PipelineColorBlendAttachmentState {
    PipelineColorBlendAttachmentState { blend_enable: false, color_write_mask: vk::COLOR_COMPONENT_ALL }
}

/// Whether `info` is the pipeline of a shader that renders at
/// `resolution` in subpass zero of `render_pass`.
pub open spec fn is_pipeline_info(
    info: GraphicsPipelineCreateInfo,
    resolution: vk::Extent2D,
    render_pass: vk::RenderPassHandle,
    layout: vk::PipelineLayout,
    vertex: VertexLayout,
    deferred: bool,
) -> bool {
    &&& info.stages@ == seq![vk::SHADER_STAGE_VERTEX_BIT, vk::SHADER_STAGE_FRAGMENT_BIT]
    &&& info.vertex_stride == vertex.stride
    &&& info.vertex_attributes@ == Seq::new(4, |i: int| attribute_at(vertex, i))
    &&& info.viewport == resolution
    &&& info.scissor == (vk::Rect2D { offset: vk::Offset2D { x: 0, y: 0 }, extent: resolution })
    &&& info.color_blend_attachments@ == Seq::new(
        blend_attachment_count(deferred),
        |i: int| overwrite(),
    )
    &&& info.layout == layout
    &&& info.render_pass == render_pass
    &&& info.subpass == 0
}

/// A pipeline with the descriptors it reads.
#[derive(Clone, PartialEq, Eq, Debug)]
pub struct Shader {
    pub graphics_pipeline: vk::Pipeline,
    pub pipeline_layout: vk::PipelineLayout,
    pub scissors: Vec<vk::Rect2D>,
    pub viewports: Vec<vk::Extent2D>,
    pub descriptor_sets: Vec<vk::DescriptorSet>,
    pub descriptor_set_layout: Vec<vk::DescriptorSetLayout>,
    pub descriptor_pool: vk::DescriptorPool,
    pub uniform_buffers: Vec<UniformDescriptor>,
}

impl Shader {
    /// The words of a compiled shader module. Nothing when the bytes are
    /// not a SPIR-V module.
    pub fn spirv(bytes: &Vec<u8>) -> (words: Option<Vec<u32>>)
        ensures
            match words {
                Some(w) => spirv_words(bytes@) == Some(w@),
                None => spirv_words(bytes@) is None,
            },
    {
        read_spv(bytes)
    }

    /// The pool that the shader's one descriptor set is allocated from: it
    /// provides one descriptor of its type for each uniform.
    pub fn descriptor_pool_info(uniforms: &Vec<UniformDescriptor>) -> (info:
        DescriptorPoolCreateInfo)
        ensures
            info.max_sets == 1,
            info.pool_sizes@.len() == uniforms@.len(),
            forall|i: int|
                0 <= i < uniforms@.len() ==> #[trigger] info.pool_sizes@[i] == (DescriptorPoolSize {
                    typ: uniforms@[i].data.descriptor_type,
                    descriptor_count: 1,
                }),
    {
        let mut pool_sizes: Vec<DescriptorPoolSize> = Vec::new();
        let mut i: usize = 0;
        while i < uniforms.len()
            invariant
                i <= uniforms.len(),
                pool_sizes@.len() == i,
                forall|k: int|
                    0 <= k < i ==> #[trigger] pool_sizes@[k] == (DescriptorPoolSize {
                        typ: uniforms@[k].data.descriptor_type,
                        descriptor_count: 1,
                    }),
            decreases uniforms.len() - i,
        {
            pool_sizes.push(
                DescriptorPoolSize { typ: uniforms[i].data.descriptor_type, descriptor_count: 1 },
            );
            i += 1;
        }
        DescriptorPoolCreateInfo { max_sets: 1, pool_sizes }
    }

    /// The bindings of the shader's descriptor set layout, one per uniform
    /// and in the order of the uniforms.
    pub fn layout_bindings(uniforms: &Vec<UniformDescriptor>) -> (bindings: Vec<
        DescriptorSetLayoutBinding,
    >)
        ensures
            bindings@.len() == uniforms@.len(),
            forall|i: int|
                0 <= i < uniforms@.len() ==> #[trigger] bindings@[i] == (DescriptorSetLayoutBinding {
                    binding: uniforms@[i].binding,
                    descriptor_type: uniforms@[i].data.descriptor_type,
                    descriptor_count: 1,
                    stage_flags: uniforms@[i].stage,
                }),
    {
        let mut bindings: Vec<DescriptorSetLayoutBinding> = Vec::new();
        let mut i: usize = 0;
        while i < uniforms.len()
            invariant
                i <= uniforms.len(),
                bindings@.len() == i,
                forall|k: int|
                    0 <= k < i ==> #[trigger] bindings@[k] == (DescriptorSetLayoutBinding {
                        binding: uniforms@[k].binding,
                        descriptor_type: uniforms@[k].data.descriptor_type,
                        descriptor_count: 1,
                        stage_flags: uniforms@[k].stage,
                    }),
            decreases uniforms.len() - i,
        {
            let x = uniforms[i];
            bindings.push(
                DescriptorSetLayoutBinding {
                    binding: x.binding,
                    descriptor_type: x.data.descriptor_type,
                    descriptor_count: 1,
                    stage_flags: x.stage,
                },
            );
            i += 1;
        }
        bindings
    }

    /// The writes that fill the descriptor set, one per uniform and in the
    /// order of the uniforms.
    pub fn write_descriptor_sets(dst_set: vk::DescriptorSet, uniforms: &Vec<UniformDescriptor>) -> (writes:
        Vec<WriteDescriptorSet>)
        ensures
            writes@.len() == uniforms@.len(),
            forall|i: int|
                0 <= i < uniforms@.len() ==> #[trigger] writes@[i] == (WriteDescriptorSet {
                    dst_set,
                    dst_binding: uniforms@[i].binding,
                    dst_array_element: 0,
                    descriptor_count: 1,
                    descriptor_type: uniforms@[i].data.descriptor_type,
                    image_info: uniforms@[i].data.image_info,
                    buffer_info: uniforms@[i].data.buffer_info,
                }),
    {
        let mut writes: Vec<WriteDescriptorSet> = Vec::new();
        let mut i: usize = 0;
        while i < uniforms.len()
            invariant
                i <= uniforms.len(),
                writes@.len() == i,
                forall|k: int|
                    0 <= k < i ==> #[trigger] writes@[k] == (WriteDescriptorSet {
                        dst_set,
                        dst_binding: uniforms@[k].binding,
                        dst_array_element: 0,
                        descriptor_count: 1,
                        descriptor_type: uniforms@[k].data.descriptor_type,
                        image_info: uniforms@[k].data.image_info,
                        buffer_info: uniforms@[k].data.buffer_info,
                    }),
            decreases uniforms.len() - i,
        {
            let x = uniforms[i];
            writes.push(
                WriteDescriptorSet {
                    dst_set,
                    dst_binding: x.binding,
                    dst_array_element: 0,
                    descriptor_count: 1,
                    descriptor_type: x.data.descriptor_type,
                    image_info: x.data.image_info,
                    buffer_info: x.data.buffer_info,
                },
            );
            i += 1;
        }
        writes
    }

    /// The pipeline to create.
    pub fn pipeline_info(
        resolution: vk::Extent2D,
        render_pass: vk::RenderPassHandle,
        layout: vk::PipelineLayout,
        vertex: VertexLayout,
        deferred: bool,
    ) -> (info: GraphicsPipelineCreateInfo)
        ensures
            is_pipeline_info(info, resolution, render_pass, layout, vertex, deferred),
    {
        let mut color_blend_attachments: Vec<PipelineColorBlendAttachmentState> = Vec::new();
        let count: usize = if deferred {
            3
        } else {
            1
        };
        let mut i: usize = 0;
        while i < count
            invariant
                i <= count,
                color_blend_attachments@ == Seq::new(i as nat, |k: int| overwrite()),
            decreases count - i,
        {
            color_blend_attachments.push(
                PipelineColorBlendAttachmentState {
                    blend_enable: false,
                    color_write_mask: vk::COLOR_COMPONENT_ALL,
                },
            );
            i += 1;
            assert(color_blend_attachments@ =~= Seq::new(i as nat, |k: int| overwrite()));
        }
        let mut stages: Vec<u32> = Vec::new();
        stages.push(vk::SHADER_STAGE_VERTEX_BIT);
        stages.push(vk::SHADER_STAGE_FRAGMENT_BIT);
        assert(stages@ =~= seq![vk::SHADER_STAGE_VERTEX_BIT, vk::SHADER_STAGE_FRAGMENT_BIT]);
        let mut vertex_attributes: Vec<VertexInputAttributeDescription> = Vec::new();
        vertex_attributes.push(
            VertexInputAttributeDescription {
                location: 0,
                binding: 0,
                format: vk::FORMAT_R32G32B32A32_SFLOAT,
                offset: vertex.pos,
            },
        );
        vertex_attributes.push(
            VertexInputAttributeDescription {
                location: 1,
                binding: 0,
                format: vk::FORMAT_R32G32B32A32_SFLOAT,
                offset: vertex.tangent,
            },
        );
        vertex_attributes.push(
            VertexInputAttributeDescription {
                location: 2,
                binding: 0,
                format: vk::FORMAT_R32G32B32A32_SFLOAT,
                offset: vertex.normal,
            },
        );
        vertex_attributes.push(
            VertexInputAttributeDescription {
                location: 3,
                binding: 0,
                format: vk::FORMAT_R32G32B32A32_SFLOAT,
                offset: vertex.uv,
            },
        );
        assert(vertex_attributes@ =~= Seq::new(4, |i: int| attribute_at(vertex, i)));
        GraphicsPipelineCreateInfo {
            stages,
            vertex_stride: vertex.stride,
            vertex_attributes,
            viewport: resolution,
            scissor: vk::Rect2D { offset: vk::Offset2D { x: 0, y: 0 }, extent: resolution },
            color_blend_attachments,
            layout,
            render_pass,
            subpass: 0,
        }
    }

    /// The shader has the one descriptor set it binds when it draws, and a
    /// viewport and a scissor to set.
    pub open spec fn wf(&self) -> bool {
        &&& self.descriptor_sets@.len() == 1
        &&& self.viewports@.len() > 0
        &&& self.scissors@.len() > 0
    }

    /// Whether the shader can be drawn with.
    pub fn is_well_formed(&self) -> (ok: bool)
        ensures
            ok == self.wf(),
    {
        self.descriptor_sets.len() == 1 && self.viewports.len() > 0 && self.scissors.len() > 0
    }

    /// The shader made of what was created for it. Nothing is returned
    /// unless there is exactly one descriptor set and one layout for it.
    pub fn assemble(
        resolution: vk::Extent2D,
        graphics_pipeline: vk::Pipeline,
        pipeline_layout: vk::PipelineLayout,
        descriptor_sets: Vec<vk::DescriptorSet>,
        descriptor_set_layout: Vec<vk::DescriptorSetLayout>,
        descriptor_pool: vk::DescriptorPool,
        uniforms: Vec<UniformDescriptor>,
    ) -> (made: Option<Shader>)
        ensures
            made is Some <==> descriptor_sets@.len() == 1 && descriptor_set_layout@.len() == 1,
            made matches Some(shader) ==> {
                &&& shader.wf()
                &&& shader.graphics_pipeline == graphics_pipeline
                &&& shader.pipeline_layout == pipeline_layout
                &&& shader.scissors@ == seq![
                    vk::Rect2D { offset: vk::Offset2D { x: 0, y: 0 }, extent: resolution },
                ]
                &&& shader.viewports@ == seq![resolution]
                &&& shader.descriptor_sets@ == descriptor_sets@
                &&& shader.descriptor_set_layout@ == descriptor_set_layout@
                &&& shader.descriptor_pool == descriptor_pool
                &&& shader.uniform_buffers@ == uniforms@
            },
    {
        if descriptor_sets.len() != 1 || descriptor_set_layout.len() != 1 {
            return None;
        }
        let mut scissors: Vec<vk::Rect2D> = Vec::new();
        scissors.push(vk::Rect2D { offset: vk::Offset2D { x: 0, y: 0 }, extent: resolution });
        let mut viewports: Vec<vk::Extent2D> = Vec::new();
        viewports.push(resolution);
        Some(
            Shader {
                graphics_pipeline,
                pipeline_layout,
                scissors,
                viewports,
                descriptor_sets,
                descriptor_set_layout,
                descriptor_pool,
                uniform_buffers: uniforms,
            },
        )
    }

    /// The objects the shader owns, in the order in which they are
    /// destroyed: the pipeline, its layout, the descriptor set layouts and
    /// the descriptor pool, with which the descriptor set goes.
    pub open spec fn owned(&self) -> Seq<vk::Object> {
        seq![
            vk::Object::Pipeline(self.graphics_pipeline),
            vk::Object::PipelineLayout(self.pipeline_layout),
        ] + Seq::new(
            self.descriptor_set_layout@.len(),
            |i: int| vk::Object::DescriptorSetLayout(self.descriptor_set_layout@[i]),
        ).push(vk::Object::DescriptorPool(self.descriptor_pool))
    }

    /// What has to be destroyed to release the shader, in order.
    pub fn release(&self) -> (objects: Vec<vk::Object>)
        ensures
            objects@ == self.owned(),
    {
        let mut objects: Vec<vk::Object> = Vec::new();
        objects.push(vk::Object::Pipeline(self.graphics_pipeline));
        objects.push(vk::Object::PipelineLayout(self.pipeline_layout));
        let ghost head = objects@;
        let mut i: usize = 0;
        while i < self.descriptor_set_layout.len()
            invariant
                i <= self.descriptor_set_layout@.len(),
                objects@ == head + Seq::new(
                    i as nat,
                    |k: int| vk::Object::DescriptorSetLayout(self.descriptor_set_layout@[k]),
                ),
            decreases self.descriptor_set_layout@.len() - i,
        {
            objects.push(vk::Object::DescriptorSetLayout(self.descriptor_set_layout[i]));
            i += 1;
            assert(objects@ =~= head + Seq::new(
                i as nat,
                |k: int| vk::Object::DescriptorSetLayout(self.descriptor_set_layout@[k]),
            ));
        }
        objects.push(vk::Object::DescriptorPool(self.descriptor_pool));
        assert(objects@ =~= self.owned());
        objects
    }
}

} // verus!
