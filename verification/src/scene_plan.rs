//! Building the parts of the renderer, request by request.
//!
//! The renderer is made of four groups of objects. The targets are what is
//! drawn with and into: the command pool, the geometry pass and the
//! lighting pass. The assets are what is drawn: the two textures and the
//! mesh of the scene. The geometry is how the scene is drawn into the
//! geometry pass: the transforms of its instances, the view, and the
//! shader that reads them. The lighting is how the lighting pass is drawn
//! from the geometry pass: the lights, the shader that reads them and the
//! attachments of the geometry pass, and the plane it is drawn on.
//!
//! Where a group writes several values of one kind, the caller hands them
//! in this order: the pixels of the diffuse texture and of the second
//! texture; the indices and vertices of the scene mesh and of the plane;
//! the transforms, the view, and the lights.
use vstd::prelude::*;
use crate::vk;
use crate::buffer_plan::{dynamic_plans, uniform_plans};
use crate::driver::{
    part, part_of, pass_on, passes_on, PlanError, Reply, Request, Step, MAX_ITEMS,
};
use crate::g_buffer::{Attachment, RenderPass};
use crate::image_plan::TextureInputs;
use crate::memory::{MemoryType, PhysicalDeviceMemoryProperties};
use crate::mesh::{Mesh, MeshSizes};
use crate::mesh_plan::MeshInputs;
use crate::pass_plan::PassInputs;
use crate::pool_plan::PoolInputs;
use crate::renderer::{
    geometry_requests, geometry_uniforms, light_uniforms, lighting_requests, Renderer,
};
use crate::shader::{Shader, VertexLayout};
use crate::shader_plan::ShaderInputs;
use crate::texture::{upload_commands, Texture};
use crate::uniform::{DynamicUniformBuffer, UniformBuffer};
use crate::vk_commands::{is_one_shot_submission, Pool};

verus! {

/// What is drawn with and into.
#[derive(Debug)]
pub struct Targets {
    pub pool: Pool,
    /// The geometry pass, which draws offscreen.
    pub g_buffer: RenderPass,
    /// The lighting pass, which draws to the swapchain images.
    pub render_pass: RenderPass,
}

/// What the targets are built from.
pub struct TargetsInputs {
    pub queue_family_index: u32,
    pub resolution: vk::Extent2D,
    pub surface_format: i32,
    /// The views of the swapchain images.
    pub views: Seq<vk::ImageView>,
    pub memory_types: Seq<MemoryType>,
}

impl TargetsInputs {
    /// The number of requests it takes to build the targets.
    pub open spec fn total(self) -> int {
        28 + self.views.len() as int
    }

    /// What the pool is built from: it has a draw command buffer for every
    /// swapchain image.
    pub open spec fn pool_inputs(self) -> PoolInputs {
        PoolInputs {
            queue_family_index: self.queue_family_index,
            draw_buffer_num: self.views.len() as u32,
        }
    }

    /// What the geometry pass is built from.
    pub open spec fn g_buffer_inputs(self) -> PassInputs {
        PassInputs {
            resolution: self.resolution,
            colour_req: geometry_requests().0,
            depth_req: geometry_requests().1,
            external_views: None,
            memory_types: self.memory_types,
        }
    }

    /// What the lighting pass is built from.
    pub open spec fn render_pass_inputs(self) -> PassInputs {
        PassInputs {
            resolution: self.resolution,
            colour_req: lighting_requests(self.surface_format).0,
            depth_req: lighting_requests(self.surface_format).1,
            external_views: Some(self.views),
            memory_types: self.memory_types,
        }
    }

    /// Whether `step` is the planner's answer to `replies`: nothing is
    /// asked for when there are too many swapchain images, and else the
    /// pool is built first.
    pub open spec fn plans(self, replies: Seq<Reply>, step: Step<Targets>) -> bool {
        if self.views.len() > MAX_ITEMS {
            step == Step::<Targets>::Fail(PlanError::TooMany)
        } else {
            exists|inner: Step<Pool>|
                {
                    &&& #[trigger] self.pool_inputs().plans(part(replies, 0, 3), inner)
                    &&& match inner {
                        Step::Done(pool) => self.plans_g_buffer(replies, pool, step),
                        _ => passes_on(inner, 0, None, step),
                    }
                }
        }
    }

    /// Whether `step` is the planner's answer to `replies` once there is
    /// the pool: the geometry pass is built next.
    pub open spec fn plans_g_buffer(self, replies: Seq<Reply>, pool: Pool, step: Step<Targets>) -> bool {
        exists|inner: Step<RenderPass>|
            {
                &&& #[trigger] self.g_buffer_inputs().plans(part(replies, 3, 16), inner)
                &&& match inner {
                    Step::Done(g_buffer) => self.plans_render_pass(replies, pool, g_buffer, step),
                    _ => passes_on(inner, 3, None, step),
                }
            }
    }

    /// Whether `step` is the planner's answer to `replies` once there is
    /// the geometry pass: the lighting pass is built, and with it the
    /// targets are complete.
    pub open spec fn plans_render_pass(
        self,
        replies: Seq<Reply>,
        pool: Pool,
        g_buffer: RenderPass,
        step: Step<Targets>,
    ) -> bool {
        exists|inner: Step<RenderPass>|
            {
                &&& #[trigger] self.render_pass_inputs().plans(
                    part(replies, 19, 9 + self.views.len() as int),
                    inner,
                )
                &&& match inner {
                    Step::Done(render_pass) => if replies.len() > self.total() {
                        step == Step::<Targets>::Fail(
                            PlanError::UnexpectedReply(self.total() as usize),
                        )
                    } else {
                        step == Step::Done(Targets { pool, g_buffer, render_pass })
                    },
                    _ => passes_on(inner, 19, None, step),
                }
            }
    }
}

impl Targets {
    /// Whether the targets fit a swapchain with the given views: the
    /// geometry pass has one framebuffer, and the lighting pass has a
    /// framebuffer and the pool a draw command buffer for every view.
    pub open spec fn fits(&self, views: Seq<vk::ImageView>) -> bool {
        &&& self.g_buffer.frame_buffers@.len() == 1
        &&& self.render_pass.frame_buffers@.len() == views.len()
        &&& self.pool.draw_command_buffer@.len() == views.len()
    }

    /// The next step in building the targets, after the answers in
    /// `replies`. What is built fits the swapchain.
    pub fn init(
        queue_family_index: u32,
        resolution: vk::Extent2D,
        surface_format: i32,
        views: &Vec<vk::ImageView>,
        memory_prop: &PhysicalDeviceMemoryProperties,
        replies: &[Reply],
    ) -> (step: Step<Targets>)
        ensures
            (TargetsInputs {
                queue_family_index,
                resolution,
                surface_format,
                views: views@,
                memory_types: memory_prop@,
            }).plans(replies@, step),
            step matches Step::Done(targets) ==> targets.fits(views@),
    {
        let ghost inputs = TargetsInputs {
            queue_family_index,
            resolution,
            surface_format,
            views: views@,
            memory_types: memory_prop@,
        };
        if views.len() > MAX_ITEMS {
            return Step::Fail(PlanError::TooMany);
        }
        let inner = Pool::init(queue_family_index, views.len() as u32, part_of(replies, 0, 3));
        let ghost seen = inner;
        assert(inputs.pool_inputs().plans(part(replies@, 0, 3), seen));
        let pool = match inner {
            Step::Done(pool) => pool,
            other => {
                return pass_on(other, 0, None);
            },
        };
        let (colour_req, depth_req) = Renderer::g_buffer_requests();
        let inner = RenderPass::new(
            resolution,
            &colour_req,
            depth_req,
            None,
            memory_prop,
            part_of(replies, 3, 16),
        );
        let ghost seen = inner;
        assert(inputs.g_buffer_inputs().plans(part(replies@, 3, 16), seen));
        let g_buffer = match inner {
            Step::Done(g_buffer) => g_buffer,
            other => {
                return pass_on(other, 3, None);
            },
        };
        let (colour_req, depth_req) = Renderer::render_pass_requests(surface_format);
        let inner = RenderPass::new(
            resolution,
            &colour_req,
            depth_req,
            Some(views),
            memory_prop,
            part_of(replies, 19, 9 + views.len()),
        );
        let ghost seen = inner;
        assert(inputs.render_pass_inputs().plans(part(replies@, 19, 9 + views@.len() as int), seen));
        match inner {
            Step::Done(render_pass) => {
                if replies.len() > 28 + views.len() {
                    return Step::Fail(PlanError::UnexpectedReply(28 + views.len()));
                }
                Step::Done(Targets { pool, g_buffer, render_pass })
            },
            other => pass_on(other, 19, None),
        }
    }
}

/// The size of the pixel data of a texture.
#[derive(Clone, Copy, PartialEq, Eq, Structural, Debug)]
pub struct TextureSize {
    /// The number of bytes of pixel data.
    pub pixel_bytes: usize,
    pub extent: vk::Extent2D,
}

/// What is drawn.
#[derive(Debug)]
pub struct Assets {
    pub diffuse_texture: Texture,
    pub spec_texture: Texture,
    pub mesh: Mesh,
}

/// What the assets are built from.
pub struct AssetsInputs {
    pub diffuse_texture: TextureSize,
    pub spec_texture: TextureSize,
    pub mesh: MeshSizes,
    /// The command buffer for the uploads.
    pub command_buffer: vk::CommandBuffer,
    pub memory_types: Seq<MemoryType>,
}

impl AssetsInputs {
    /// The number of requests it takes to build the assets.
    pub open spec fn total(self) -> int {
        37
    }

    /// What a texture of the given size is built from.
    pub open spec fn texture_inputs(self, size: TextureSize) -> TextureInputs {
        TextureInputs {
            pixel_bytes: size.pixel_bytes as int,
            extent: size.extent,
            memory_types: self.memory_types,
        }
    }

    /// What the mesh is built from.
    pub open spec fn mesh_inputs(self) -> MeshInputs {
        MeshInputs {
            sizes: self.mesh,
            command_buffer: self.command_buffer,
            memory_types: self.memory_types,
        }
    }

    /// Whether `step` is the planner's answer to `replies`: the diffuse
    /// texture is built first.
    pub open spec fn plans(self, replies: Seq<Reply>, step: Step<Assets>) -> bool {
        exists|inner: Step<Texture>|
            {
                &&& #[trigger] self.texture_inputs(self.diffuse_texture).plans(
                    part(replies, 0, 9),
                    inner,
                )
                &&& match inner {
                    Step::Done(diffuse_texture) => self.plans_spec_texture(
                        replies,
                        diffuse_texture,
                        step,
                    ),
                    _ => passes_on(inner, 0, Some(0usize), step),
                }
            }
    }

    /// Whether `step` is the planner's answer to `replies` once there is
    /// the diffuse texture: the second texture is built next.
    pub open spec fn plans_spec_texture(
        self,
        replies: Seq<Reply>,
        diffuse_texture: Texture,
        step: Step<Assets>,
    ) -> bool {
        exists|inner: Step<Texture>|
            {
                &&& #[trigger] self.texture_inputs(self.spec_texture).plans(
                    part(replies, 9, 9),
                    inner,
                )
                &&& match inner {
                    Step::Done(spec_texture) => self.plans_mesh(
                        replies,
                        diffuse_texture,
                        spec_texture,
                        step,
                    ),
                    _ => passes_on(inner, 9, Some(1usize), step),
                }
            }
    }

    /// Whether `step` is the planner's answer to `replies` once there are
    /// the textures: the mesh is built next.
    pub open spec fn plans_mesh(
        self,
        replies: Seq<Reply>,
        diffuse_texture: Texture,
        spec_texture: Texture,
        step: Step<Assets>,
    ) -> bool {
        exists|inner: Step<Mesh>|
            {
                &&& #[trigger] self.mesh_inputs().plans(part(replies, 18, 18), inner)
                &&& match inner {
                    Step::Done(mesh) => self.plans_upload(
                        replies,
                        Assets { diffuse_texture, spec_texture, mesh },
                        step,
                    ),
                    _ => passes_on(inner, 18, Some(0usize), step),
                }
            }
    }

    /// Whether `step` is the planner's answer to `replies` once there is
    /// the mesh: the pixels of both textures are uploaded in one
    /// submission, and with it the assets are complete.
    pub open spec fn plans_upload(self, replies: Seq<Reply>, assets: Assets, step: Step<Assets>) -> bool {
        if replies.len() <= 36 {
            &&& step matches Step::Ask(Request::Submit(steps))
            &&& is_one_shot_submission(
                steps@,
                self.command_buffer,
                seq![vk::PIPELINE_STAGE_TOP_OF_PIPE_BIT],
                Seq::empty(),
                Seq::empty(),
                upload_commands(assets.diffuse_texture) + upload_commands(assets.spec_texture),
            )
        } else if !(replies[36] is Done) {
            step == Step::<Assets>::Fail(PlanError::UnexpectedReply(36))
        } else if replies.len() > self.total() {
            step == Step::<Assets>::Fail(PlanError::UnexpectedReply(37))
        } else {
            step == Step::Done(assets)
        }
    }
}

impl Assets {
    /// The next step in building the assets, after the answers in
    /// `replies`. The mesh that is built can be drawn.
    pub fn init(
        diffuse_texture: TextureSize,
        spec_texture: TextureSize,
        mesh: MeshSizes,
        command_buffer: vk::CommandBuffer,
        memory_prop: &PhysicalDeviceMemoryProperties,
        replies: &[Reply],
    ) -> (step: Step<Assets>)
        ensures
            (AssetsInputs {
                diffuse_texture,
                spec_texture,
                mesh,
                command_buffer,
                memory_types: memory_prop@,
            }).plans(replies@, step),
            step matches Step::Done(assets) ==> assets.mesh.wf(),
    {
        let ghost inputs = AssetsInputs {
            diffuse_texture,
            spec_texture,
            mesh,
            command_buffer,
            memory_types: memory_prop@,
        };
        let inner = Texture::init(
            diffuse_texture.pixel_bytes,
            diffuse_texture.extent,
            memory_prop,
            part_of(replies, 0, 9),
        );
        let ghost seen = inner;
        assert(inputs.texture_inputs(inputs.diffuse_texture).plans(part(replies@, 0, 9), seen));
        let diffuse = match inner {
            Step::Done(texture) => texture,
            other => {
                return pass_on(other, 0, Some(0));
            },
        };
        let inner = Texture::init(
            spec_texture.pixel_bytes,
            spec_texture.extent,
            memory_prop,
            part_of(replies, 9, 9),
        );
        let ghost seen = inner;
        assert(inputs.texture_inputs(inputs.spec_texture).plans(part(replies@, 9, 9), seen));
        let spec = match inner {
            Step::Done(texture) => texture,
            other => {
                return pass_on(other, 9, Some(1));
            },
        };
        let inner = Mesh::new(mesh, command_buffer, memory_prop, part_of(replies, 18, 18));
        let ghost seen = inner;
        assert(inputs.mesh_inputs().plans(part(replies@, 18, 18), seen));
        let mesh = match inner {
            Step::Done(mesh) => mesh,
            other => {
                return pass_on(other, 18, Some(0));
            },
        };
        if replies.len() <= 36 {
            return Step::Ask(
                Request::Submit(Renderer::texture_upload(command_buffer, &diffuse, &spec)),
            );
        }
        match replies[36] {
            Reply::Done => {},
            _ => {
                return Step::Fail(PlanError::UnexpectedReply(36));
            },
        }
        if replies.len() > 37 {
            return Step::Fail(PlanError::UnexpectedReply(37));
        }
        Step::Done(Assets { diffuse_texture: diffuse, spec_texture: spec, mesh })
    }
}

/// The compiled stages of a shader.
#[derive(Clone, PartialEq, Eq, Debug)]
pub struct ShaderCode {
    pub frag_bytes: Vec<u8>,
    pub vertex_bytes: Vec<u8>,
}

/// How the scene is drawn into the geometry pass.
#[derive(Debug)]
pub struct Geometry {
    /// The transforms of the instances.
    pub uniform_buffer: DynamicUniformBuffer,
    /// The view and projection.
    pub mv: UniformBuffer,
    pub shader: Shader,
}

/// What the geometry is built from.
pub struct GeometryInputs {
    pub min_alignment: u64,
    pub instances: usize,
    pub diffuse_texture: Texture,
    pub spec_texture: Texture,
    pub resolution: vk::Extent2D,
    /// The geometry pass.
    pub render_pass: vk::RenderPassHandle,
    pub code: ShaderCode,
    pub vertex: VertexLayout,
    pub memory_types: Seq<MemoryType>,
}

impl GeometryInputs {
    /// The number of requests it takes to build the geometry.
    pub open spec fn total(self) -> int {
        18
    }

    /// What the shader is built from, once there are the transforms and
    /// the view.
    pub open spec fn shader_inputs(self, uniform_buffer: DynamicUniformBuffer, mv: UniformBuffer) -> ShaderInputs {
        ShaderInputs {
            resolution: self.resolution,
            render_pass: self.render_pass,
            frag_bytes: self.code.frag_bytes@,
            vertex_bytes: self.code.vertex_bytes@,
            vertex: self.vertex,
            deferred: true,
            uniforms: geometry_uniforms(self.diffuse_texture, self.spec_texture, mv, uniform_buffer),
        }
    }

    /// Whether `step` is the planner's answer to `replies`, where a
    /// transform is a value of type `M` and the view a value of type `V`:
    /// the buffer of the transforms is built first.
    pub open spec fn plans<M, V>(self, replies: Seq<Reply>, step: Step<Geometry>) -> bool {
        exists|inner: Step<DynamicUniformBuffer>|
            {
                &&& #[trigger] dynamic_plans::<M>(
                    self.min_alignment,
                    self.instances,
                    self.memory_types,
                    part(replies, 0, 4),
                    inner,
                )
                &&& match inner {
                    Step::Done(uniform_buffer) => self.plans_view::<V>(
                        replies,
                        uniform_buffer,
                        step,
                    ),
                    _ => passes_on(inner, 0, Some(0usize), step),
                }
            }
    }

    /// Whether `step` is the planner's answer to `replies` once there are
    /// the transforms: the buffer of the view is built next.
    pub open spec fn plans_view<V>(
        self,
        replies: Seq<Reply>,
        uniform_buffer: DynamicUniformBuffer,
        step: Step<Geometry>,
    ) -> bool {
        exists|inner: Step<UniformBuffer>|
            {
                &&& #[trigger] uniform_plans::<V>(self.memory_types, part(replies, 4, 4), inner)
                &&& match inner {
                    Step::Done(mv) => self.plans_shader(replies, uniform_buffer, mv, step),
                    _ => passes_on(inner, 4, Some(1usize), step),
                }
            }
    }

    /// Whether `step` is the planner's answer to `replies` once there is
    /// the view: the shader is built, and with it the geometry is
    /// complete.
    pub open spec fn plans_shader(
        self,
        replies: Seq<Reply>,
        uniform_buffer: DynamicUniformBuffer,
        mv: UniformBuffer,
        step: Step<Geometry>,
    ) -> bool {
        exists|inner: Step<Shader>|
            {
                &&& #[trigger] self.shader_inputs(uniform_buffer, mv).plans(
                    part(replies, 8, 10),
                    inner,
                )
                &&& match inner {
                    Step::Done(shader) => if replies.len() > self.total() {
                        step == Step::<Geometry>::Fail(PlanError::UnexpectedReply(18))
                    } else {
                        step == Step::Done(Geometry { uniform_buffer, mv, shader })
                    },
                    _ => passes_on(inner, 8, None, step),
                }
            }
    }
}

impl Geometry {
    /// Whether there is a transform for each of `instances` instances and
    /// the shader can be drawn with.
    pub open spec fn fits(&self, instances: usize) -> bool {
        &&& self.uniform_buffer.wf()
        &&& self.uniform_buffer.count == instances
        &&& self.shader.wf()
    }

    /// The next step in building the geometry, after the answers in
    /// `replies`. A transform is a value of type `M` and the view a value
    /// of type `V`. What is built can be drawn with.
    pub fn init<M, V>(
        min_alignment: u64,
        instances: usize,
        assets: &Assets,
        resolution: vk::Extent2D,
        render_pass: vk::RenderPassHandle,
        code: &ShaderCode,
        vertex: VertexLayout,
        memory_prop: &PhysicalDeviceMemoryProperties,
        replies: &[Reply],
    ) -> (step: Step<Geometry>)
        ensures
            (GeometryInputs {
                min_alignment,
                instances,
                diffuse_texture: assets.diffuse_texture,
                spec_texture: assets.spec_texture,
                resolution,
                render_pass,
                code: *code,
                vertex,
                memory_types: memory_prop@,
            }).plans::<M, V>(replies@, step),
            step matches Step::Done(geometry) ==> geometry.fits(instances),
    {
        let ghost inputs = GeometryInputs {
            min_alignment,
            instances,
            diffuse_texture: assets.diffuse_texture,
            spec_texture: assets.spec_texture,
            resolution,
            render_pass,
            code: *code,
            vertex,
            memory_types: memory_prop@,
        };
        let inner = DynamicUniformBuffer::init::<M>(
            min_alignment,
            instances,
            memory_prop,
            part_of(replies, 0, 4),
        );
        let ghost seen = inner;
        assert(dynamic_plans::<M>(
            inputs.min_alignment,
            inputs.instances,
            inputs.memory_types,
            part(replies@, 0, 4),
            seen,
        ));
        let uniform_buffer = match inner {
            Step::Done(buffer) => buffer,
            other => {
                return pass_on(other, 0, Some(0));
            },
        };
        let inner = UniformBuffer::init::<V>(memory_prop, part_of(replies, 4, 4));
        let ghost seen = inner;
        assert(uniform_plans::<V>(inputs.memory_types, part(replies@, 4, 4), seen));
        let mv = match inner {
            Step::Done(buffer) => buffer,
            other => {
                return pass_on(other, 4, Some(1));
            },
        };
        let uniforms = Renderer::geometry_uniforms(
            &assets.diffuse_texture,
            &assets.spec_texture,
            &mv,
            &uniform_buffer,
        );
        let inner = Shader::from_spriv(
            resolution,
            render_pass,
            &code.frag_bytes,
            &code.vertex_bytes,
            vertex,
            true,
            &uniforms,
            part_of(replies, 8, 10),
        );
        let ghost seen = inner;
        assert(inputs.shader_inputs(uniform_buffer, mv).plans(part(replies@, 8, 10), seen));
        match inner {
            Step::Done(shader) => {
                if replies.len() > 18 {
                    return Step::Fail(PlanError::UnexpectedReply(18));
                }
                Step::Done(Geometry { uniform_buffer, mv, shader })
            },
            other => pass_on(other, 8, None),
        }
    }
}

/// The most colour attachments the lighting shader reads: their bindings
/// are numbered in 32 bits.
pub const MAX_BINDINGS: usize = 0xffff_ffff;

/// How the lighting pass is drawn from the geometry pass.
#[derive(Debug)]
pub struct Lighting {
    pub lights: UniformBuffer,
    pub light_pass: Shader,
    pub plane: Mesh,
}

/// What the lighting is built from.
pub struct LightingInputs {
    /// The colour attachments of the geometry pass.
    pub colour_attachments: Seq<Attachment>,
    pub resolution: vk::Extent2D,
    /// The lighting pass.
    pub render_pass: vk::RenderPassHandle,
    pub code: ShaderCode,
    pub vertex: VertexLayout,
    pub plane: MeshSizes,
    /// The command buffer for uploading the plane.
    pub command_buffer: vk::CommandBuffer,
    pub memory_types: Seq<MemoryType>,
}

impl LightingInputs {
    /// The number of requests it takes to build the lighting.
    pub open spec fn total(self) -> int {
        32
    }

    /// What the lighting shader is built from, once there are the lights.
    pub open spec fn shader_inputs(self, lights: UniformBuffer) -> ShaderInputs {
        ShaderInputs {
            resolution: self.resolution,
            render_pass: self.render_pass,
            frag_bytes: self.code.frag_bytes@,
            vertex_bytes: self.code.vertex_bytes@,
            vertex: self.vertex,
            deferred: false,
            uniforms: light_uniforms(self.colour_attachments, lights),
        }
    }

    /// What the plane is built from.
    pub open spec fn plane_inputs(self) -> MeshInputs {
        MeshInputs {
            sizes: self.plane,
            command_buffer: self.command_buffer,
            memory_types: self.memory_types,
        }
    }

    /// Whether `step` is the planner's answer to `replies`, where the
    /// lights are a value of type `L`: nothing is asked for when the
    /// geometry pass has more colour attachments than can be numbered, and
    /// else the buffer of the lights is built first.
    pub open spec fn plans<L>(self, replies: Seq<Reply>, step: Step<Lighting>) -> bool {
        if self.colour_attachments.len() > MAX_BINDINGS {
            step == Step::<Lighting>::Fail(PlanError::TooMany)
        } else {
            exists|inner: Step<UniformBuffer>|
                {
                    &&& #[trigger] uniform_plans::<L>(self.memory_types, part(replies, 0, 4), inner)
                    &&& match inner {
                        Step::Done(lights) => self.plans_shader(replies, lights, step),
                        _ => passes_on(inner, 0, Some(2usize), step),
                    }
                }
        }
    }

    /// Whether `step` is the planner's answer to `replies` once there are
    /// the lights: the lighting shader is built next.
    pub open spec fn plans_shader(self, replies: Seq<Reply>, lights: UniformBuffer, step: Step<Lighting>) -> bool {
        exists|inner: Step<Shader>|
            {
                &&& #[trigger] self.shader_inputs(lights).plans(part(replies, 4, 10), inner)
                &&& match inner {
                    Step::Done(light_pass) => self.plans_plane(replies, lights, light_pass, step),
                    _ => passes_on(inner, 4, None, step),
                }
            }
    }

    /// Whether `step` is the planner's answer to `replies` once there is
    /// the lighting shader: the plane is built, and with it the lighting
    /// is complete.
    pub open spec fn plans_plane(
        self,
        replies: Seq<Reply>,
        lights: UniformBuffer,
        light_pass: Shader,
        step: Step<Lighting>,
    ) -> bool {
        exists|inner: Step<Mesh>|
            {
                &&& #[trigger] self.plane_inputs().plans(part(replies, 14, 18), inner)
                &&& match inner {
                    Step::Done(plane) => if replies.len() > self.total() {
                        step == Step::<Lighting>::Fail(PlanError::UnexpectedReply(32))
                    } else {
                        step == Step::Done(Lighting { lights, light_pass, plane })
                    },
                    _ => passes_on(inner, 14, Some(1usize), step),
                }
            }
    }
}

impl Lighting {
    /// The next step in building the lighting, after the answers in
    /// `replies`. The lights are a value of type `L`. What is built can be
    /// drawn with.
    pub fn init<L>(
        g_buffer: &RenderPass,
        resolution: vk::Extent2D,
        render_pass: vk::RenderPassHandle,
        code: &ShaderCode,
        vertex: VertexLayout,
        plane: MeshSizes,
        command_buffer: vk::CommandBuffer,
        memory_prop: &PhysicalDeviceMemoryProperties,
        replies: &[Reply],
    ) -> (step: Step<Lighting>)
        ensures
            (LightingInputs {
                colour_attachments: g_buffer.colour_attachments@,
                resolution,
                render_pass,
                code: *code,
                vertex,
                plane,
                command_buffer,
                memory_types: memory_prop@,
            }).plans::<L>(replies@, step),
            step matches Step::Done(lighting) ==> lighting.light_pass.wf() && lighting.plane.wf(),
    {
        let ghost inputs = LightingInputs {
            colour_attachments: g_buffer.colour_attachments@,
            resolution,
            render_pass,
            code: *code,
            vertex,
            plane,
            command_buffer,
            memory_types: memory_prop@,
        };
        if g_buffer.colour_attachments.len() > MAX_BINDINGS {
            return Step::Fail(PlanError::TooMany);
        }
        let inner = UniformBuffer::init::<L>(memory_prop, part_of(replies, 0, 4));
        let ghost seen = inner;
        assert(uniform_plans::<L>(inputs.memory_types, part(replies@, 0, 4), seen));
        let lights = match inner {
            Step::Done(buffer) => buffer,
            other => {
                return pass_on(other, 0, Some(2));
            },
        };
        let uniforms = match Renderer::light_uniforms(g_buffer, &lights) {
            Some(uniforms) => uniforms,
            None => unreached(),
        };
        let inner = Shader::from_spriv(
            resolution,
            render_pass,
            &code.frag_bytes,
            &code.vertex_bytes,
            vertex,
            false,
            &uniforms,
            part_of(replies, 4, 10),
        );
        let ghost seen = inner;
        assert(inputs.shader_inputs(lights).plans(part(replies@, 4, 10), seen));
        let light_pass = match inner {
            Step::Done(shader) => shader,
            other => {
                return pass_on(other, 4, None);
            },
        };
        let inner = Mesh::new(plane, command_buffer, memory_prop, part_of(replies, 14, 18));
        let ghost seen = inner;
        assert(inputs.plane_inputs().plans(part(replies@, 14, 18), seen));
        match inner {
            Step::Done(plane) => {
                if replies.len() > 32 {
                    return Step::Fail(PlanError::UnexpectedReply(32));
                }
                Step::Done(Lighting { lights, light_pass, plane })
            },
            other => pass_on(other, 14, Some(1)),
        }
    }
}

} // verus!
