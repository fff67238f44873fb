//! Building the renderer, request by request.
//!
//! The conversation is: the swapchain; the targets; the assets; the three
//! semaphores of a frame; the geometry; the lighting; and the recording of
//! the command buffers that every frame submits, the offscreen one first
//! and then one for every swapchain image. The renderer owns everything
//! that was created, in an order in which it can be destroyed.
use vstd::prelude::*;
use crate::vk;
use crate::device::Device;
use crate::driver::{
    dones_at, part, part_of, pass_on, passes_on, semaphore_in, swapchain_images_in, PlanError,
    Reply, Request, Step, MAX_ITEMS,
};
use crate::frame::FrameState;
use crate::memory::{MemoryType, PhysicalDeviceMemoryProperties};
use crate::mesh::MeshSizes;
use crate::ownership::{
    adoption, each_view, holds_all, lemma_adoption_holds, lemma_adoption_stacks,
    lemma_holds_both, lemma_later_component_goes_first, stacked, Ownership,
};
use crate::pool_plan::SwapChainInputs;
use crate::renderer::{geometry_commands, init_error, lighting_commands, Renderer, RendererError};
use crate::scene_plan::{
    Assets, AssetsInputs, Geometry, GeometryInputs, Lighting, LightingInputs, ShaderCode, Targets,
    TargetsInputs, TextureSize,
};
use crate::shader::VertexLayout;
use crate::surface::{RVSurface, RVSurfaceCapabilities, RenderTarget, SwapChain};

verus! {

/// What a renderer is built from, besides what the driver answers.
#[derive(Clone, PartialEq, Eq, Debug)]
pub struct RendererInputs {
    pub surface: RVSurface,
    pub capabilities: RVSurfaceCapabilities,
    pub present_mode: i32,
    pub device: Device,
    pub debug_call_back: vk::DebugReportCallback,
    pub diffuse_texture: TextureSize,
    pub spec_texture: TextureSize,
    pub mesh: MeshSizes,
    pub plane: MeshSizes,
    pub vertex: VertexLayout,
    /// The shader that fills the geometry pass.
    pub geometry_code: ShaderCode,
    /// The shader of the lighting pass.
    pub lighting_code: ShaderCode,
    /// The number of instances of the scene mesh.
    pub instances: usize,
}

/// Everything a renderer is put together from.
pub struct Parts {
    pub render_target: RenderTarget,
    pub targets: Targets,
    pub assets: Assets,
    pub present_complete_semaphore: vk::Semaphore,
    pub rendering_complete_semaphore: vk::Semaphore,
    pub offscreen_semaphore: vk::Semaphore,
    pub geometry: Geometry,
    pub lighting: Lighting,
}

impl Parts {
    /// Whether the parts fit together for a scene of `instances`
    /// instances: the targets fit the swapchain, there is a transform for
    /// every instance, and the meshes and shaders can be drawn with.
    pub open spec fn fits(self, instances: usize) -> bool {
        &&& self.targets.fits(self.render_target.swap_chain.image_views@)
        &&& self.assets.mesh.wf()
        &&& self.geometry.fits(instances)
        &&& self.lighting.light_pass.wf()
        &&& self.lighting.plane.wf()
    }
}

/// The number of answers that belong to the swapchain: one, until the
/// swapchain has reported its images, and then one more for every image.
pub open spec fn swapchain_answers(replies: Seq<Reply>) -> int {
    if replies.len() > 0 && replies[0] is Swapchain && swapchain_images_in(replies[0]).len()
        <= MAX_ITEMS {
        1 + swapchain_images_in(replies[0]).len() as int
    } else {
        1
    }
}

fn swapchain_count(replies: &[Reply]) -> (count: usize)
    ensures
        count == swapchain_answers(replies@),
{
    if replies.len() == 0 {
        return 1;
    }
    match &replies[0] {
        Reply::Swapchain(_, images) => {
            if images.len() <= MAX_ITEMS {
                1 + images.len()
            } else {
                1
            }
        },
        _ => 1,
    }
}

fn copy_device(device: &Device) -> (copy: Device)
    ensures
        copy.queue_family_index == device.queue_family_index,
        copy.memory_properties@ == device.memory_properties@,
        copy.min_uniform_buffer_offset_alignment == device.min_uniform_buffer_offset_alignment,
{
    let mut memory_types: Vec<MemoryType> = Vec::new();
    let mut i: usize = 0;
    while i < device.memory_properties.memory_types.len()
        invariant
            i <= device.memory_properties.memory_types@.len(),
            memory_types@ == device.memory_properties.memory_types@.subrange(0, i as int),
        decreases device.memory_properties.memory_types@.len() - i,
    {
        memory_types.push(device.memory_properties.memory_types[i]);
        i += 1;
        assert(memory_types@ =~= device.memory_properties.memory_types@.subrange(0, i as int));
    }
    assert(memory_types@ =~= device.memory_properties@);
    Device::init(
        device.queue_family_index,
        PhysicalDeviceMemoryProperties::new(memory_types),
        device.min_uniform_buffer_offset_alignment,
    )
}

impl RendererInputs {
    /// The number of requests it takes to build a renderer for a swapchain
    /// of `k` images.
    pub open spec fn total(k: int) -> int {
        120 + 3 * k
    }

    /// The render target of the renderer, once there is the swapchain.
    pub open spec fn render_target(self, swap_chain: SwapChain) -> RenderTarget {
        RenderTarget { surface: self.surface, capabilities: self.capabilities, swap_chain }
    }

    /// What the swapchain is built from.
    pub open spec fn swapchain_inputs(self) -> SwapChainInputs {
        SwapChainInputs {
            present_mode: self.present_mode,
            surface: self.surface,
            capabilities: self.capabilities,
        }
    }

    /// What the targets are built from, once there is the swapchain.
    pub open spec fn targets_inputs(self, swap_chain: SwapChain) -> TargetsInputs {
        TargetsInputs {
            queue_family_index: self.device.queue_family_index,
            resolution: self.capabilities.resolution,
            surface_format: self.capabilities.format.format,
            views: swap_chain.image_views@,
            memory_types: self.device.memory_properties@,
        }
    }

    /// What the assets are built from, once there are the targets: they
    /// are uploaded through the pool's setup command buffer.
    pub open spec fn assets_inputs(self, targets: Targets) -> AssetsInputs {
        AssetsInputs {
            diffuse_texture: self.diffuse_texture,
            spec_texture: self.spec_texture,
            mesh: self.mesh,
            command_buffer: targets.pool.setup_command_buffer,
            memory_types: self.device.memory_properties@,
        }
    }

    /// What the geometry is built from, once there are the assets: its
    /// shader draws in the geometry pass.
    pub open spec fn geometry_inputs(self, targets: Targets, assets: Assets) -> GeometryInputs {
        GeometryInputs {
            min_alignment: self.device.min_uniform_buffer_offset_alignment,
            instances: self.instances,
            diffuse_texture: assets.diffuse_texture,
            spec_texture: assets.spec_texture,
            resolution: self.capabilities.resolution,
            render_pass: targets.g_buffer.render_pass,
            code: self.geometry_code,
            vertex: self.vertex,
            memory_types: self.device.memory_properties@,
        }
    }

    /// What the lighting is built from: its shader reads the colour
    /// attachments of the geometry pass and draws in the lighting pass,
    /// and the plane is uploaded through the pool's second setup command
    /// buffer.
    pub open spec fn lighting_inputs(self, targets: Targets) -> LightingInputs {
        LightingInputs {
            colour_attachments: targets.g_buffer.colour_attachments@,
            resolution: self.capabilities.resolution,
            render_pass: targets.render_pass.render_pass,
            code: self.lighting_code,
            vertex: self.vertex,
            plane: self.plane,
            command_buffer: targets.pool.g_buffer_setup,
            memory_types: self.device.memory_properties@,
        }
    }

    /// Whether `step` is the planner's answer to `replies`, where a
    /// transform is a value of type `M`, the view a value of type `V` and
    /// the lights a value of type `L`: the swapchain is built first.
    pub open spec fn plans<M, V, L>(self, replies: Seq<Reply>, step: Step<Renderer>) -> bool {
        exists|inner: Step<SwapChain>|
            {
                &&& #[trigger] self.swapchain_inputs().plans(
                    part(replies, 0, swapchain_answers(replies)),
                    inner,
                )
                &&& match inner {
                    Step::Done(swap_chain) => self.plans_targets::<M, V, L>(
                        replies,
                        swap_chain,
                        step,
                    ),
                    _ => passes_on(inner, 0, None, step),
                }
            }
    }

    /// Whether `step` is the planner's answer to `replies` once there is
    /// the swapchain: the targets are built next.
    pub open spec fn plans_targets<M, V, L>(
        self,
        replies: Seq<Reply>,
        swap_chain: SwapChain,
        step: Step<Renderer>,
    ) -> bool {
        let k = swap_chain.image_views@.len() as int;
        exists|inner: Step<Targets>|
            {
                &&& #[trigger] self.targets_inputs(swap_chain).plans(
                    part(replies, 1 + k, 28 + k),
                    inner,
                )
                &&& match inner {
                    Step::Done(targets) => self.plans_assets::<M, V, L>(
                        replies,
                        swap_chain,
                        targets,
                        step,
                    ),
                    _ => passes_on(inner, 1 + k, None, step),
                }
            }
    }

    /// Whether `step` is the planner's answer to `replies` once there are
    /// the targets: the assets are built next.
    pub open spec fn plans_assets<M, V, L>(
        self,
        replies: Seq<Reply>,
        swap_chain: SwapChain,
        targets: Targets,
        step: Step<Renderer>,
    ) -> bool {
        let k = swap_chain.image_views@.len() as int;
        exists|inner: Step<Assets>|
            {
                &&& #[trigger] self.assets_inputs(targets).plans(
                    part(replies, 29 + 2 * k, 37),
                    inner,
                )
                &&& match inner {
                    Step::Done(assets) => self.plans_semaphores::<M, V, L>(
                        replies,
                        swap_chain,
                        targets,
                        assets,
                        step,
                    ),
                    _ => passes_on(inner, 29 + 2 * k, None, step),
                }
            }
    }

    /// Whether `step` is the planner's answer to `replies` once there are
    /// the assets: the semaphores that signal that an image was acquired,
    /// that rendering is complete, and that the offscreen pass is
    /// complete are asked for, in this order, and then the geometry is
    /// built.
    pub open spec fn plans_semaphores<M, V, L>(
        self,
        replies: Seq<Reply>,
        swap_chain: SwapChain,
        targets: Targets,
        assets: Assets,
        step: Step<Renderer>,
    ) -> bool {
        let at = 66 + 2 * swap_chain.image_views@.len() as int;
        if replies.len() <= at {
            step == Step::<Renderer>::Ask(Request::CreateSemaphore)
        } else if !(replies[at] is Semaphore) {
            step == Step::<Renderer>::Fail(PlanError::UnexpectedReply(at as usize))
        } else if replies.len() <= at + 1 {
            step == Step::<Renderer>::Ask(Request::CreateSemaphore)
        } else if !(replies[at + 1] is Semaphore) {
            step == Step::<Renderer>::Fail(PlanError::UnexpectedReply((at + 1) as usize))
        } else if replies.len() <= at + 2 {
            step == Step::<Renderer>::Ask(Request::CreateSemaphore)
        } else if !(replies[at + 2] is Semaphore) {
            step == Step::<Renderer>::Fail(PlanError::UnexpectedReply((at + 2) as usize))
        } else {
            self.plans_geometry::<M, V, L>(replies, swap_chain, targets, assets, step)
        }
    }

    /// Whether `step` is the planner's answer to `replies` once there are
    /// the semaphores: the geometry is built next.
    pub open spec fn plans_geometry<M, V, L>(
        self,
        replies: Seq<Reply>,
        swap_chain: SwapChain,
        targets: Targets,
        assets: Assets,
        step: Step<Renderer>,
    ) -> bool {
        let k = swap_chain.image_views@.len() as int;
        exists|inner: Step<Geometry>|
            {
                &&& #[trigger] self.geometry_inputs(targets, assets).plans::<M, V>(
                    part(replies, 69 + 2 * k, 18),
                    inner,
                )
                &&& match inner {
                    Step::Done(geometry) => self.plans_lighting::<L>(
                        replies,
                        swap_chain,
                        targets,
                        assets,
                        geometry,
                        step,
                    ),
                    _ => passes_on(inner, 69 + 2 * k, None, step),
                }
            }
    }

    /// Whether `step` is the planner's answer to `replies` once there is
    /// the geometry: the lighting is built, and then the command buffers
    /// are recorded.
    pub open spec fn plans_lighting<L>(
        self,
        replies: Seq<Reply>,
        swap_chain: SwapChain,
        targets: Targets,
        assets: Assets,
        geometry: Geometry,
        step: Step<Renderer>,
    ) -> bool {
        let k = swap_chain.image_views@.len() as int;
        exists|inner: Step<Lighting>|
            {
                &&& #[trigger] self.lighting_inputs(targets).plans::<L>(
                    part(replies, 87 + 2 * k, 32),
                    inner,
                )
                &&& match inner {
                    Step::Done(lighting) => self.plans_recordings(
                        replies,
                        Parts {
                            render_target: self.render_target(swap_chain),
                            targets,
                            assets,
                            present_complete_semaphore: semaphore_in(replies[66 + 2 * k]),
                            rendering_complete_semaphore: semaphore_in(replies[67 + 2 * k]),
                            offscreen_semaphore: semaphore_in(replies[68 + 2 * k]),
                            geometry,
                            lighting,
                        },
                        step,
                    ),
                    _ => passes_on(inner, 87 + 2 * k, None, step),
                }
            }
    }


    /// The objects of each component, component by component in the order
    /// in which they were created.
    pub open spec fn releases(self, parts: Parts) -> Seq<Seq<vk::Object>> {
        seq![
            seq![vk::Object::DebugReportCallback(self.debug_call_back)],
            seq![vk::Object::Surface(parts.render_target.surface.handle)],
            seq![vk::Object::Device],
            parts.render_target.owned(),
            parts.targets.pool.owned(),
            parts.targets.g_buffer.owned(),
            parts.targets.render_pass.owned(),
            parts.assets.diffuse_texture.owned(),
            parts.assets.spec_texture.owned(),
            parts.assets.mesh.owned(),
            seq![
                vk::Object::Semaphore(parts.present_complete_semaphore),
                vk::Object::Semaphore(parts.rendering_complete_semaphore),
                vk::Object::Semaphore(parts.offscreen_semaphore),
            ],
            parts.geometry.uniform_buffer.dynamic.owned(),
            parts.geometry.mv.dynamic.owned(),
            parts.geometry.shader.owned(),
            parts.lighting.lights.dynamic.owned(),
            parts.lighting.light_pass.owned(),
            parts.lighting.plane.owned(),
        ]
    }

    /// Why the parts do not make a renderer that owns `order`, if they do
    /// not.
    pub open spec fn error(self, parts: Parts, order: Seq<vk::Object>) -> Option<RendererError> {
        init_error(
            parts.render_target,
            self.debug_call_back,
            parts.targets.pool,
            parts.targets.render_pass,
            parts.targets.g_buffer,
            parts.present_complete_semaphore,
            parts.rendering_complete_semaphore,
            parts.offscreen_semaphore,
            parts.assets.mesh,
            parts.geometry.shader,
            parts.lighting.plane,
            parts.lighting.light_pass,
            order,
        )
    }

    /// Whether there is a transform for every instance, at an offset that
    /// a descriptor set can be bound with.
    pub open spec fn offsets_fit(self, parts: Parts) -> bool {
        let transforms = parts.geometry.uniform_buffer;
        &&& transforms.wf()
        &&& self.instances == 0 || (self.instances <= transforms.count && (self.instances - 1)
            * transforms.align <= u32::MAX)
    }

    /// Whether `request` asks for recording `j`: the offscreen command
    /// buffer draws every instance of the scene into the one framebuffer
    /// of the geometry pass, and draw command buffer `j - 1` draws the
    /// plane into framebuffer `j - 1` of the lighting pass.
    pub open spec fn asks_recording(self, parts: Parts, j: int, request: Request) -> bool {
        &&& request matches Request::Record(recording)
        &&& if j == 0 {
            parts.targets.g_buffer.is_recording(
                recording,
                parts.targets.pool.off_screen_command_buffer,
                0,
                geometry_commands(
                    parts.geometry.shader,
                    parts.assets.mesh,
                    parts.geometry.uniform_buffer.align as int,
                    self.instances as int,
                ),
            )
        } else {
            parts.targets.render_pass.is_recording(
                recording,
                parts.targets.pool.draw_command_buffer@[j - 1],
                j - 1,
                lighting_commands(parts.lighting.light_pass, parts.lighting.plane),
            )
        }
    }

    /// Whether `renderer` is the renderer made of the parts that owns
    /// `order`: it is ready to render its first frame.
    pub open spec fn builds(self, parts: Parts, order: Seq<vk::Object>, renderer: Renderer) -> bool {
        &&& renderer.wf()
        &&& renderer.frame@.state == FrameState::Idle
        &&& renderer.frame.present_complete_semaphore == parts.present_complete_semaphore
        &&& renderer.frame.rendering_complete_semaphore == parts.rendering_complete_semaphore
        &&& renderer.frame.offscreen_semaphore == parts.offscreen_semaphore
        &&& renderer.render_target == parts.render_target
        &&& renderer.device.queue_family_index == self.device.queue_family_index
        &&& renderer.device.memory_properties@ == self.device.memory_properties@
        &&& renderer.device.min_uniform_buffer_offset_alignment
            == self.device.min_uniform_buffer_offset_alignment
        &&& renderer.debug_call_back == self.debug_call_back
        &&& renderer.pool == parts.targets.pool
        &&& renderer.render_pass == parts.targets.render_pass
        &&& renderer.g_buffer == parts.targets.g_buffer
        &&& renderer.mesh == parts.assets.mesh
        &&& renderer.shader == parts.geometry.shader
        &&& renderer.plane == parts.lighting.plane
        &&& renderer.light_pass == parts.lighting.light_pass
        &&& renderer.owned@ == order
    }

    /// Whether all answers from position `from` up to position `upto`
    /// report a request carried out.
    pub open spec fn recorded(replies: Seq<Reply>, from: int, upto: int) -> bool {
        forall|p: int| from <= p < upto ==> (#[trigger] replies[p]) is Done
    }

    /// Whether `step` is the planner's answer to `replies` once there are
    /// all parts. Nothing is recorded unless every component can be
    /// adopted when its turn comes and there is a transform for every
    /// instance at an offset that fits.
    pub open spec fn plans_recordings(self, replies: Seq<Reply>, parts: Parts, step: Step<Renderer>) -> bool {
        let k = parts.render_target.swap_chain.image_views@.len() as int;
        let at = 119 + 2 * k;
        let len = replies.len() as int;
        match adoption(seq![vk::Object::Instance], self.releases(parts), 0) {
            None => step == Step::<Renderer>::Fail(PlanError::HandedOutTwice),
            Some(order) => if !self.offsets_fit(parts) {
                step == Step::<Renderer>::Fail(PlanError::TooLarge)
            } else {
                match step {
                    Step::Fail(PlanError::UnexpectedReply(p)) => {
                        &&& at <= p < len
                        &&& p <= Self::total(k)
                        &&& Self::recorded(replies, at, p as int)
                        &&& p < Self::total(k) ==> !(replies[p as int] is Done)
                    },
                    Step::Fail(_) => false,
                    Step::Ask(request) => {
                        &&& len < Self::total(k)
                        &&& Self::recorded(replies, at, len)
                        &&& self.asks_recording(parts, len - at, request)
                    },
                    Step::Done(renderer) => {
                        &&& len == Self::total(k)
                        &&& Self::recorded(replies, at, len)
                        &&& self.builds(parts, order, renderer)
                    },
                }
            },
        }
    }
}

/// Parts that fit together make a renderer once they are adopted: the
/// semaphores are three different semaphores, and every object of a
/// component is among those that will be destroyed with the renderer.
pub proof fn lemma_parts_make_a_renderer(
    inputs: RendererInputs,
    parts: Parts,
    order: Seq<vk::Object>,
)
    requires
        parts.fits(inputs.instances),
        adoption(seq![vk::Object::Instance], inputs.releases(parts), 0) == Some(order),
    ensures
        inputs.error(parts, order) is None,
{
    let first = seq![vk::Object::Instance];
    let all = inputs.releases(parts);
    lemma_adoption_holds(first, all, 0);
    let semaphores = all[10];
    assert(semaphores.no_duplicates());
    assert(semaphores[0] != semaphores[1] && semaphores[1] != semaphores[2] && semaphores[0]
        != semaphores[2]);
    assert(holds_all(order, all[0]));
    assert(holds_all(order, all[1]));
    assert(holds_all(order, all[2]));
    assert(holds_all(order, all[3]));
    assert(holds_all(order, all[4]));
    assert(holds_all(order, all[5]));
    assert(holds_all(order, all[6]));
    assert(holds_all(order, all[9]));
    assert(holds_all(order, all[10]));
    assert(holds_all(order, all[13]));
    assert(holds_all(order, all[15]));
    assert(holds_all(order, all[16]));
    let shaders = all[15] + all[13];
    lemma_holds_both(order, all[15], all[13]);
    let meshes = all[16] + all[9];
    lemma_holds_both(order, all[16], all[9]);
    lemma_holds_both(order, meshes, all[10]);
    let middle = seq![
        vk::Object::Buffer(parts.lighting.plane.vertex_buffer),
        vk::Object::Buffer(parts.lighting.plane.index_buffer),
        vk::Object::DeviceMemory(parts.lighting.plane.memory),
        vk::Object::Buffer(parts.assets.mesh.vertex_buffer),
        vk::Object::Buffer(parts.assets.mesh.index_buffer),
        vk::Object::DeviceMemory(parts.assets.mesh.memory),
        vk::Object::Semaphore(parts.present_complete_semaphore),
        vk::Object::Semaphore(parts.rendering_complete_semaphore),
        vk::Object::Semaphore(parts.offscreen_semaphore),
    ];
    assert(middle =~= meshes + all[10]);
    lemma_holds_both(order, shaders, middle);
    lemma_holds_both(order, shaders + middle, all[6]);
    lemma_holds_both(order, shaders + middle + all[6], all[5]);
    lemma_holds_both(order, shaders + middle + all[6] + all[5], all[4]);
    lemma_holds_both(order, shaders + middle + all[6] + all[5] + all[4], all[3]);
    lemma_holds_both(order, all[2], all[1]);
    lemma_holds_both(order, all[2] + all[1], all[0]);
    lemma_holds_both(order, all[2] + all[1] + all[0], first);
    let last = seq![
        vk::Object::Device,
        vk::Object::Surface(parts.render_target.surface.handle),
        vk::Object::DebugReportCallback(inputs.debug_call_back),
        vk::Object::Instance,
    ];
    assert(last =~= all[2] + all[1] + all[0] + first);
    lemma_holds_both(
        order,
        shaders + middle + all[6] + all[5] + all[4] + all[3],
        all[2] + all[1] + all[0] + first,
    );
}

/// The renderer destroys the framebuffers of the lighting pass before the
/// views of the swapchain images that they draw to.
pub proof fn lemma_framebuffers_go_before_swapchain_views(
    inputs: RendererInputs,
    parts: Parts,
    order: Seq<vk::Object>,
    f: int,
    v: int,
)
    requires
        adoption(seq![vk::Object::Instance], inputs.releases(parts), 0) == Some(order),
        0 <= f < parts.targets.render_pass.frame_buffers@.len(),
        0 <= v < parts.render_target.swap_chain.image_views@.len(),
    ensures
        exists|first: int, second: int|
            0 <= first < second < order.len() && #[trigger] order[first]
                == vk::Object::Framebuffer(parts.targets.render_pass.frame_buffers@[f])
                && #[trigger] order[second] == vk::Object::ImageView(
                parts.render_target.swap_chain.image_views@[v],
            ),
{
    let all = inputs.releases(parts);
    lemma_adoption_stacks(seq![vk::Object::Instance], all, 0);
    lemma_later_component_goes_first(all, 6, 3, f, v);
    let stack = stacked(all, 0);
    let first = stacked(all, 7).len() as int + f;
    let second = stacked(all, 4).len() as int + v;
    assert(all[6] == parts.targets.render_pass.owned());
    assert(all[3] == parts.render_target.owned());
    assert(all[6][f] == vk::Object::Framebuffer(parts.targets.render_pass.frame_buffers@[f]));
    assert(all[3][v] == vk::Object::ImageView(parts.render_target.swap_chain.image_views@[v]));
    assert(order == stack + seq![vk::Object::Instance]);
    assert(order[first] == stack[first]);
    assert(order[second] == stack[second]);
}

impl Renderer {
    /// The next step in building the renderer, after the answers in
    /// `replies`. A transform is a value of type `M`, the view a value of
    /// type `V`, and the lights are a value of type `L`.
    pub fn init<M, V, L>(inputs: &RendererInputs, replies: &[Reply]) -> (step: Step<Renderer>)
        ensures
            inputs.plans::<M, V, L>(replies@, step),
    {
        let inner = SwapChain::init(
            inputs.present_mode,
            &inputs.surface,
            &inputs.capabilities,
            part_of(replies, 0, swapchain_count(replies)),
        );
        let ghost seen = inner;
        assert(inputs.swapchain_inputs().plans(
            part(replies@, 0, swapchain_answers(replies@)),
            seen,
        ));
        let swap_chain = match inner {
            Step::Done(swap_chain) => swap_chain,
            other => {
                return pass_on(other, 0, None);
            },
        };
        let k = swap_chain.image_views.len();
        if k > MAX_ITEMS {
            assert(inputs.targets_inputs(swap_chain).plans(
                part(replies@, 1 + k, 28 + k),
                Step::<Targets>::Fail(PlanError::TooMany),
            ));
            return Step::Fail(PlanError::TooMany);
        }
        let inner = Targets::init(
            inputs.device.queue_family_index,
            inputs.capabilities.resolution,
            inputs.capabilities.format.format,
            &swap_chain.image_views,
            &inputs.device.memory_properties,
            part_of(replies, 1 + k, 28 + k),
        );
        let ghost seen = inner;
        assert(inputs.targets_inputs(swap_chain).plans(part(replies@, 1 + k, 28 + k), seen));
        let targets = match inner {
            Step::Done(targets) => targets,
            other => {
                return pass_on(other, 1 + k, None);
            },
        };
        let inner = Assets::init(
            inputs.diffuse_texture,
            inputs.spec_texture,
            inputs.mesh,
            targets.pool.setup_command_buffer,
            &inputs.device.memory_properties,
            part_of(replies, 29 + 2 * k, 37),
        );
        let ghost seen = inner;
        assert(inputs.assets_inputs(targets).plans(part(replies@, 29 + 2 * k, 37), seen));
        let assets = match inner {
            Step::Done(assets) => assets,
            other => {
                return pass_on(other, 29 + 2 * k, None);
            },
        };
        let at = 66 + 2 * k;
        if replies.len() <= at {
            return Step::Ask(Request::CreateSemaphore);
        }
        let present_complete_semaphore = match replies[at] {
            Reply::Semaphore(semaphore) => semaphore,
            _ => {
                return Step::Fail(PlanError::UnexpectedReply(at));
            },
        };
        if replies.len() <= at + 1 {
            return Step::Ask(Request::CreateSemaphore);
        }
        let rendering_complete_semaphore = match replies[at + 1] {
            Reply::Semaphore(semaphore) => semaphore,
            _ => {
                return Step::Fail(PlanError::UnexpectedReply(at + 1));
            },
        };
        if replies.len() <= at + 2 {
            return Step::Ask(Request::CreateSemaphore);
        }
        let offscreen_semaphore = match replies[at + 2] {
            Reply::Semaphore(semaphore) => semaphore,
            _ => {
                return Step::Fail(PlanError::UnexpectedReply(at + 2));
            },
        };
        Renderer::plan_scene::<M, V, L>(
            inputs,
            replies,
            swap_chain,
            targets,
            assets,
            (present_complete_semaphore, rendering_complete_semaphore, offscreen_semaphore),
        )
    }

    fn plan_scene<M, V, L>(
        inputs: &RendererInputs,
        replies: &[Reply],
        swap_chain: SwapChain,
        targets: Targets,
        assets: Assets,
        semaphores: (vk::Semaphore, vk::Semaphore, vk::Semaphore),
    ) -> (step: Step<Renderer>)
        requires
            swap_chain.image_views@.len() <= MAX_ITEMS,
            replies@.len() >= 69 + 2 * swap_chain.image_views@.len(),
            replies@[66 + 2 * swap_chain.image_views@.len() as int] == Reply::Semaphore(semaphores.0),
            replies@[67 + 2 * swap_chain.image_views@.len() as int] == Reply::Semaphore(semaphores.1),
            replies@[68 + 2 * swap_chain.image_views@.len() as int] == Reply::Semaphore(semaphores.2),
            targets.fits(swap_chain.image_views@),
            assets.mesh.wf(),
        ensures
            inputs.plans_geometry::<M, V, L>(replies@, swap_chain, targets, assets, step),
    {
        let k = swap_chain.image_views.len();
        let inner = Geometry::init::<M, V>(
            inputs.device.min_uniform_buffer_offset_alignment,
            inputs.instances,
            &assets,
            inputs.capabilities.resolution,
            targets.g_buffer.render_pass,
            &inputs.geometry_code,
            inputs.vertex,
            &inputs.device.memory_properties,
            part_of(replies, 69 + 2 * k, 18),
        );
        let ghost seen = inner;
        assert(inputs.geometry_inputs(targets, assets).plans::<M, V>(
            part(replies@, 69 + 2 * k, 18),
            seen,
        ));
        let geometry = match inner {
            Step::Done(geometry) => geometry,
            other => {
                return pass_on(other, 69 + 2 * k, None);
            },
        };
        let inner = Lighting::init::<L>(
            &targets.g_buffer,
            inputs.capabilities.resolution,
            targets.render_pass.render_pass,
            &inputs.lighting_code,
            inputs.vertex,
            inputs.plane,
            targets.pool.g_buffer_setup,
            &inputs.device.memory_properties,
            part_of(replies, 87 + 2 * k, 32),
        );
        let ghost seen = inner;
        assert(inputs.lighting_inputs(targets).plans::<L>(part(replies@, 87 + 2 * k, 32), seen));
        match inner {
            Step::Done(lighting) => Renderer::plan_recordings(
                inputs,
                replies,
                Parts {
                    render_target: RenderTarget {
                        surface: inputs.surface,
                        capabilities: inputs.capabilities,
                        swap_chain,
                    },
                    targets,
                    assets,
                    present_complete_semaphore: semaphores.0,
                    rendering_complete_semaphore: semaphores.1,
                    offscreen_semaphore: semaphores.2,
                    geometry,
                    lighting,
                },
            ),
            other => pass_on(other, 87 + 2 * k, None),
        }
    }

    fn releases(inputs: &RendererInputs, parts: &Parts) -> (releases: Vec<Vec<vk::Object>>)
        ensures
            each_view(releases@) == inputs.releases(*parts),
    {
        let mut releases: Vec<Vec<vk::Object>> = Vec::new();
        let mut first: Vec<vk::Object> = Vec::new();
        first.push(vk::Object::DebugReportCallback(inputs.debug_call_back));
        assert(first@ =~= seq![vk::Object::DebugReportCallback(inputs.debug_call_back)]);
        releases.push(first);
        let mut second: Vec<vk::Object> = Vec::new();
        second.push(vk::Object::Surface(parts.render_target.surface.handle));
        assert(second@ =~= seq![vk::Object::Surface(parts.render_target.surface.handle)]);
        releases.push(second);
        let mut third: Vec<vk::Object> = Vec::new();
        third.push(vk::Object::Device);
        assert(third@ =~= seq![vk::Object::Device]);
        releases.push(third);
        releases.push(parts.render_target.release());
        releases.push(parts.targets.pool.release());
        releases.push(parts.targets.g_buffer.release());
        releases.push(parts.targets.render_pass.release());
        releases.push(parts.assets.diffuse_texture.release());
        releases.push(parts.assets.spec_texture.release());
        releases.push(parts.assets.mesh.release());
        let mut semaphores: Vec<vk::Object> = Vec::new();
        semaphores.push(vk::Object::Semaphore(parts.present_complete_semaphore));
        semaphores.push(vk::Object::Semaphore(parts.rendering_complete_semaphore));
        semaphores.push(vk::Object::Semaphore(parts.offscreen_semaphore));
        assert(semaphores@ =~= seq![
            vk::Object::Semaphore(parts.present_complete_semaphore),
            vk::Object::Semaphore(parts.rendering_complete_semaphore),
            vk::Object::Semaphore(parts.offscreen_semaphore),
        ]);
        releases.push(semaphores);
        releases.push(parts.geometry.uniform_buffer.dynamic.release());
        releases.push(parts.geometry.mv.dynamic.release());
        releases.push(parts.geometry.shader.release());
        releases.push(parts.lighting.lights.dynamic.release());
        releases.push(parts.lighting.light_pass.release());
        releases.push(parts.lighting.plane.release());
        assert(releases@.len() == 17);
        assert(inputs.releases(*parts).len() == 17);
        assert forall|i: int| 0 <= i < 17 implies (#[trigger] each_view(releases@)[i])
            == inputs.releases(*parts)[i] by {
            assert(each_view(releases@)[i] == releases@[i]@);
        }
        assert(each_view(releases@) =~= inputs.releases(*parts));
        releases
    }

    fn plan_recordings(inputs: &RendererInputs, replies: &[Reply], parts: Parts) -> (step: Step<
        Renderer,
    >)
        requires
            parts.render_target.swap_chain.image_views@.len() <= MAX_ITEMS,
            replies@.len() >= 119 + 2 * parts.render_target.swap_chain.image_views@.len(),
            parts.fits(inputs.instances),
        ensures
            inputs.plans_recordings(replies@, parts, step),
    {
        let ghost all = parts;
        let k = parts.render_target.swap_chain.image_views.len();
        let at = 119 + 2 * k;
        let releases = Renderer::releases(inputs, &parts);
        let mut owned = Ownership::new();
        if !owned.adopt_all(&releases) {
            return Step::Fail(PlanError::HandedOutTwice);
        }
        proof {
            lemma_parts_make_a_renderer(*inputs, all, owned@);
        }
        let transforms = parts.geometry.uniform_buffer;
        let renderer = match Renderer::assemble(
            parts.render_target,
            copy_device(&inputs.device),
            inputs.debug_call_back,
            parts.targets.pool,
            parts.targets.render_pass,
            parts.targets.g_buffer,
            parts.present_complete_semaphore,
            parts.rendering_complete_semaphore,
            parts.offscreen_semaphore,
            parts.assets.mesh,
            parts.geometry.shader,
            parts.lighting.plane,
            parts.lighting.light_pass,
            owned,
        ) {
            Ok(renderer) => renderer,
            Err(_) => unreached(),
        };
        let scene = match Renderer::offscreen_commands(
            &renderer.shader,
            &renderer.mesh,
            &transforms,
            inputs.instances,
        ) {
            Some(scene) => scene,
            None => {
                return Step::Fail(PlanError::TooLarge);
            },
        };
        let done = match dones_at(replies, at, 1 + k) {
            Ok(done) => done,
            Err(p) => {
                return Step::Fail(PlanError::UnexpectedReply(p));
            },
        };
        if done == 0 {
            let mut offscreen: Vec<vk::CommandBuffer> = Vec::new();
            offscreen.push(renderer.pool.off_screen_command_buffer);
            let mut recordings = renderer.g_buffer.record_commands(&offscreen, &scene);
            return Step::Ask(Request::Record(recordings.remove(0)));
        }
        if done <= k {
            let lighting = Renderer::present_commands(&renderer.light_pass, &renderer.plane);
            let mut recordings = renderer.render_pass.record_commands(
                &renderer.pool.draw_command_buffer,
                &lighting,
            );
            return Step::Ask(Request::Record(recordings.remove(done - 1)));
        }
        if replies.len() > at + 1 + k {
            return Step::Fail(PlanError::UnexpectedReply(at + 1 + k));
        }
        Step::Done(renderer)
    }
}

} // verus!
