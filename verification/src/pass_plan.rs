//! Building a render pass, request by request.
//!
//! For a pass with `n` attachments of its own and `m` framebuffers the
//! conversation is: one sampler; `n` images, each answered with its memory
//! requirements; one memory block for all of them; `n` bindings, image by
//! image at the offsets of the packing; `n` image views; the pass object;
//! and `m` framebuffers.
use vstd::prelude::*;
use crate::vk;
use crate::driver::{
    dones_at, framebuffer_in, framebuffers_at, image_in, images_at, memory_in, render_pass_in,
    requirements_in, sampler_in, view_in, views_at, PlanError, Reply, Request, Step, MAX_ITEMS,
};
use crate::g_buffer::{
    attachment_image, attachment_of, attachment_view, is_memory_plan, is_render_pass_info,
    sizes_of, strip_layouts, sum_sizes, without_layouts, Attachment,
    AttachmentMemory, FramebufferCreateInfo, RenderPass,
};
use crate::memory::{
    is_memorytype_choice, MemoryRequirements, MemoryType, PhysicalDeviceMemoryProperties,
};

verus! {

/// What a pass is built from.
pub struct PassInputs {
    pub resolution: vk::Extent2D,
    pub colour_req: Seq<(i32, u32, vk::ImageLayout)>,
    pub depth_req: (i32, u32, vk::ImageLayout),
    /// The views to draw to, when the pass does not draw to its own
    /// colour attachments.
    pub external_views: Option<Seq<vk::ImageView>>,
    pub memory_types: Seq<MemoryType>,
}

impl PassInputs {
    /// The requests for the pass's own attachments, colour first and depth
    /// last.
    pub open spec fn req(self) -> Seq<(i32, u32, vk::ImageLayout)> {
        self.colour_req.push(self.depth_req)
    }

    /// The number of attachments of the pass.
    pub open spec fn n(self) -> int {
        self.colour_req.len() as int + 1
    }

    /// The number of framebuffers of the pass: one for each view to draw
    /// to, or one for the pass's own attachments.
    pub open spec fn m(self) -> int {
        match self.external_views {
            Some(views) => views.len() as int,
            None => 1,
        }
    }

    /// The number of requests it takes to build the pass.
    pub open spec fn total(self) -> int {
        3 * self.n() + 3 + self.m()
    }

    /// Whether the framebuffers can match the pass: a pass that draws to
    /// views handed to it has one colour attachment, in whose place the
    /// view stands.
    pub open spec fn matches_views(self) -> bool {
        self.external_views is Some ==> self.colour_req.len() == 1
    }

    /// Whether the pass can be planned at all.
    pub open spec fn fits(self) -> bool {
        0 < self.colour_req.len() < MAX_ITEMS && self.m() <= MAX_ITEMS
    }

    /// Whether the answer at position `k` is an answer to the request at
    /// that position.
    pub open spec fn expects(self, k: int, reply: Reply) -> bool {
        let n = self.n();
        if k == 0 {
            reply is Sampler
        } else if k <= n {
            reply is Image
        } else if k == n + 1 {
            reply is Memory
        } else if k <= 2 * n + 1 {
            reply is Done
        } else if k <= 3 * n + 1 {
            reply is ImageView
        } else if k == 3 * n + 2 {
            reply is RenderPass
        } else {
            reply is Framebuffer
        }
    }

    /// Whether each of the first `upto` answers fits the request it
    /// answers.
    pub open spec fn fit(self, replies: Seq<Reply>, upto: int) -> bool {
        forall|k: int| 0 <= k < upto && k < replies.len() ==> self.expects(k, #[trigger] replies[k])
    }

    /// The images the driver created, in the order of the attachments.
    pub open spec fn images(self, replies: Seq<Reply>) -> Seq<vk::Image> {
        Seq::new(self.n() as nat, |j: int| image_in(replies[1 + j]))
    }

    /// The memory requirements of the images.
    pub open spec fn requirements(self, replies: Seq<Reply>) -> Seq<MemoryRequirements> {
        Seq::new(self.n() as nat, |j: int| requirements_in(replies[1 + j]))
    }

    /// The memory block behind the images.
    pub open spec fn memory(self, replies: Seq<Reply>) -> vk::DeviceMemory {
        memory_in(replies[self.n() + 1])
    }

    /// The views of the images.
    pub open spec fn views(self, replies: Seq<Reply>) -> Seq<vk::ImageView> {
        Seq::new(self.n() as nat, |j: int| view_in(replies[2 * self.n() + 2 + j]))
    }

    /// The attachments of the pass, colour first and depth last.
    pub open spec fn attachments(self, replies: Seq<Reply>) -> Seq<Attachment> {
        Seq::new(
            self.n() as nat,
            |j: int|
                attachment_of(
                    self.images(replies)[j],
                    self.views(replies)[j],
                    sampler_in(replies[0]),
                    self.req()[j].0,
                    self.req()[j].1,
                ),
        )
    }

    /// The views of framebuffer `j`: the view to draw to and the pass's
    /// depth view, or the views of all the pass's own attachments.
    pub open spec fn framebuffer_views(self, replies: Seq<Reply>, j: int) -> Seq<vk::ImageView> {
        match self.external_views {
            Some(views) => seq![views[j], self.views(replies)[self.n() - 1]],
            None => self.views(replies),
        }
    }

    /// Whether the images can be given memory.
    pub open spec fn memory_fits(self, replies: Seq<Reply>) -> bool {
        exists|plan: AttachmentMemory|
            is_memory_plan(self.requirements(replies), self.memory_types, Ok(plan))
    }

    /// Whether `request` is the request at position `k`, after the answers
    /// before it.
    pub open spec fn asks(self, replies: Seq<Reply>, k: int, request: Request) -> bool {
        let n = self.n();
        let sizes = sizes_of(self.requirements(replies));
        if k == 0 {
            request == Request::CreateSampler(
                vk::SamplerCreateInfo {
                    mag_filter: vk::Filter::Nearest,
                    min_filter: vk::Filter::Nearest,
                    address_mode: vk::SamplerAddressMode::ClampToEdge,
                    max_lod: vk::F32_ONE,
                    max_anisotropy: vk::F32_ONE,
                },
            )
        } else if k <= n {
            request == Request::CreateImage(
                attachment_image(self.resolution, self.req()[k - 1].0, self.req()[k - 1].1),
            )
        } else if k == n + 1 {
            &&& request matches Request::AllocateMemory(allocation)
            &&& allocation.allocation_size == sum_sizes(sizes, n)
            &&& is_memorytype_choice(
                self.requirements(replies)[0].memory_type_bits,
                self.memory_types,
                vk::MEMORY_PROPERTY_DEVICE_LOCAL_BIT,
                Some(allocation.memory_type_index),
            )
        } else if k <= 2 * n + 1 {
            request == (Request::BindImageMemory {
                image: self.images(replies)[k - n - 2],
                memory: self.memory(replies),
                offset: sum_sizes(sizes, k - n - 2) as u64,
            })
        } else if k <= 3 * n + 1 {
            request == Request::CreateImageView(
                attachment_view(
                    self.images(replies)[k - 2 * n - 2],
                    self.req()[k - 2 * n - 2].0,
                    self.req()[k - 2 * n - 2].1,
                ),
            )
        } else if k == 3 * n + 2 {
            &&& request matches Request::CreateRenderPass(info)
            &&& is_render_pass_info(info, self.colour_req, self.depth_req)
        } else {
            &&& request matches Request::CreateFramebuffer(info)
            &&& info.render_pass == render_pass_in(replies[3 * n + 2])
            &&& info.attachments@ == self.framebuffer_views(replies, k - 3 * n - 3)
            &&& info.width == self.resolution.width
            &&& info.height == self.resolution.height
            &&& info.layers == 1
        }
    }

    /// Whether `pass` is the pass that the answers add up to.
    pub open spec fn builds(self, replies: Seq<Reply>, pass: RenderPass) -> bool {
        let n = self.n();
        &&& pass.wf()
        &&& pass.resolution == self.resolution
        &&& pass.sampler == sampler_in(replies[0])
        &&& pass.memory == self.memory(replies)
        &&& pass.render_pass == render_pass_in(replies[3 * n + 2])
        &&& pass.colour_attachments@ == self.attachments(replies).drop_last()
        &&& pass.depth == self.attachments(replies).last()
        &&& pass.frame_buffers@ == Seq::new(
            self.m() as nat,
            |j: int| framebuffer_in(replies[3 * n + 3 + j]),
        )
    }

    /// Whether `step` is the planner's answer to `replies`.
    pub open spec fn plans(self, replies: Seq<Reply>, step: Step<RenderPass>) -> bool {
        let n = self.n();
        let len = replies.len() as int;
        match step {
            Step::Fail(PlanError::ViewsNeedOneColour) => !self.matches_views(),
            Step::Fail(PlanError::TooMany) => self.matches_views() && !self.fits(),
            Step::Fail(PlanError::UnexpectedReply(at)) => {
                &&& self.matches_views()
                &&& self.fits()
                &&& at <= self.total()
                &&& at < len
                &&& self.fit(replies, at as int)
                &&& at < self.total() ==> !self.expects(at as int, replies[at as int])
                &&& at > n ==> self.memory_fits(replies)
            },
            Step::Fail(PlanError::Attachments(error)) => {
                &&& self.matches_views()
                &&& self.fits()
                &&& len > n
                &&& self.fit(replies, n + 1)
                &&& is_memory_plan(self.requirements(replies), self.memory_types, Err(error))
            },
            Step::Fail(_) => false,
            Step::Ask(request) => {
                &&& self.matches_views()
                &&& self.fits()
                &&& len < self.total()
                &&& self.fit(replies, len)
                &&& len > n ==> self.memory_fits(replies)
                &&& self.asks(replies, len, request)
            },
            Step::Done(pass) => {
                &&& self.matches_views()
                &&& self.fits()
                &&& len == self.total()
                &&& self.fit(replies, len)
                &&& self.memory_fits(replies)
                &&& self.builds(replies, pass)
            },
        }
    }
}

/// A pass has a framebuffer for every view it is given to draw to, each
/// of that view and the pass's one depth view; a pass that is given none
/// has one framebuffer, of the views of all its own attachments. Either
/// way a framebuffer has as many views as the pass has attachments. The
/// finished pass holds what the driver made of them, in this order.
pub proof fn lemma_framebuffers_of_a_pass(
    inputs: PassInputs,
    replies: Seq<Reply>,
    pass: RenderPass,
    j: int,
    request: Request,
)
    requires
        inputs.plans(replies, Step::Done(pass)),
        0 <= j < inputs.m(),
        inputs.asks(replies, 3 * inputs.n() + 3 + j, request),
    ensures
        pass.frame_buffers@.len() == match inputs.external_views {
            Some(views) => views.len(),
            None => 1,
        },
        pass.frame_buffers@[j] == framebuffer_in(replies[3 * inputs.n() + 3 + j]),
        request matches Request::CreateFramebuffer(info) && info.attachments@.len()
            == pass.colour_attachments@.len() + 1,
        request matches Request::CreateFramebuffer(info) && info.attachments@
            == match inputs.external_views {
            Some(views) => seq![views[j], pass.depth.descriptor.image_view],
            None => Seq::new(
                pass.colour_attachments@.len(),
                |i: int| pass.colour_attachments@[i].descriptor.image_view,
            ).push(pass.depth.descriptor.image_view),
        },
{
    let n = inputs.n();
    let own = inputs.attachments(replies);
    assert(pass.depth == own[n - 1]);
    assert(pass.colour_attachments@ =~= own.subrange(0, n - 1));
    assert(inputs.views(replies) =~= Seq::new(
        pass.colour_attachments@.len(),
        |i: int| pass.colour_attachments@[i].descriptor.image_view,
    ).push(pass.depth.descriptor.image_view)) by {
        assert forall|i: int| 0 <= i < n implies own[i].descriptor.image_view == inputs.views(
            replies,
        )[i] by {
        }
    }
}

/// The inputs of a pass as the planner is given them.
pub open spec fn pass_inputs(
    resolution: vk::Extent2D,
    colour_req: Seq<(i32, u32, vk::ImageLayout)>,
    depth_req: (i32, u32, vk::ImageLayout),
    frame_buffer_image_views: Option<&Vec<vk::ImageView>>,
    memory_types: Seq<MemoryType>,
) -> PassInputs {
    PassInputs {
        resolution,
        colour_req,
        depth_req,
        external_views: match frame_buffer_image_views {
            Some(views) => Some(views@),
            None => None,
        },
        memory_types,
    }
}

/// The answers fit their requests up to position `upto` when they do so
/// stretch by stretch.
proof fn lemma_fit(inputs: PassInputs, replies: Seq<Reply>, upto: int)
    requires
        upto > 0 ==> replies[0] is Sampler,
        forall|k: int|
            1 <= k <= inputs.n() && k < upto && k < replies.len() ==> (#[trigger] replies[k]) is Image,
        upto > inputs.n() + 1 && replies.len() > inputs.n() + 1 ==> replies[inputs.n() + 1] is Memory,
        forall|k: int|
            inputs.n() + 2 <= k <= 2 * inputs.n() + 1 && k < upto && k < replies.len()
                ==> (#[trigger] replies[k]) is Done,
        forall|k: int|
            2 * inputs.n() + 2 <= k <= 3 * inputs.n() + 1 && k < upto && k < replies.len()
                ==> (#[trigger] replies[k]) is ImageView,
        upto > 3 * inputs.n() + 2 && replies.len() > 3 * inputs.n() + 2 ==> replies[3 * inputs.n()
            + 2] is RenderPass,
        forall|k: int|
            3 * inputs.n() + 3 <= k < upto && k < replies.len() ==> (#[trigger] replies[k])
                is Framebuffer,
    ensures
        inputs.fit(replies, upto),
{
    assert forall|k: int| 0 <= k < upto && k < replies.len() implies inputs.expects(
        k,
        #[trigger] replies[k],
    ) by {
        let n = inputs.n();
        if k == 0 {
        } else if k <= n {
        } else if k == n + 1 {
        } else if k <= 2 * n + 1 {
        } else if k <= 3 * n + 1 {
        } else if k == 3 * n + 2 {
        } else {
        }
    }
}

fn copy_views(views: &Vec<vk::ImageView>) -> (copy: Vec<vk::ImageView>)
    ensures
        copy@ == views@,
{
    let mut copy: Vec<vk::ImageView> = Vec::new();
    let mut i: usize = 0;
    while i < views.len()
        invariant
            i <= views.len(),
            copy@ == views@.subrange(0, i as int),
        decreases views.len() - i,
    {
        copy.push(views[i]);
        i += 1;
        assert(copy@ =~= views@.subrange(0, i as int));
    }
    assert(views@.subrange(0, views.len() as int) =~= views@);
    copy
}

/// The views of framebuffer `j` of a pass.
fn framebuffer_attachments(
    frame_buffer_image_views: Option<&Vec<vk::ImageView>>,
    views: &Vec<vk::ImageView>,
    j: usize,
) -> (attachments: Vec<vk::ImageView>)
    requires
        views@.len() > 0,
        frame_buffer_image_views matches Some(f) ==> j < f@.len(),
    ensures
        attachments@ == match frame_buffer_image_views {
            Some(f) => seq![f@[j as int], views@[views@.len() - 1]],
            None => views@,
        },
{
    match frame_buffer_image_views {
        Some(f) => {
            let mut pair: Vec<vk::ImageView> = Vec::new();
            pair.push(f[j]);
            pair.push(views[views.len() - 1]);
            pair
        },
        None => copy_views(views),
    }
}

impl RenderPass {
    /// The next step in building a pass with at least one colour
    /// attachment, after the answers in `replies`. Nothing is asked for
    /// when the pass is to draw to views handed to it and has more than
    /// one colour attachment.
    #[verifier::rlimit(60)]
    pub fn new(
        resolution: vk::Extent2D,
        colour_req: &Vec<(i32, u32, vk::ImageLayout)>,
        depth_req: (i32, u32, vk::ImageLayout),
        frame_buffer_image_views: Option<&Vec<vk::ImageView>>,
        memory_prop: &PhysicalDeviceMemoryProperties,
        replies: &[Reply],
    ) -> (step: Step<RenderPass>)
        requires
            colour_req@.len() > 0,
        ensures
            pass_inputs(resolution, colour_req@, depth_req, frame_buffer_image_views, memory_prop@)
                .plans(replies@, step),
    {
        let ghost inputs = pass_inputs(
            resolution,
            colour_req@,
            depth_req,
            frame_buffer_image_views,
            memory_prop@,
        );
        if frame_buffer_image_views.is_some() && colour_req.len() != 1 {
            return Step::Fail(PlanError::ViewsNeedOneColour);
        }
        let m: usize = match frame_buffer_image_views {
            Some(views) => views.len(),
            None => 1,
        };
        if colour_req.len() >= MAX_ITEMS || m > MAX_ITEMS {
            return Step::Fail(PlanError::TooMany);
        }
        let req = RenderPass::attachment_requests(colour_req, depth_req);
        let plain = strip_layouts(&req);
        let n: usize = req.len();
        let len = replies.len();
        assert(n == inputs.n());
        assert(m == inputs.m());
        assert(req@ == inputs.req());

        if len == 0 {
            proof {
                lemma_fit(inputs, replies@, 0);
            }
            return Step::Ask(Request::CreateSampler(RenderPass::sampler_info()));
        }
        let sampler = match replies[0] {
            Reply::Sampler(sampler) => sampler,
            _ => {
                proof {
                    lemma_fit(inputs, replies@, 0);
                }
                return Step::Fail(PlanError::UnexpectedReply(0));
            },
        };

        let (images, requirements) = match images_at(replies, 1, n) {
            Ok(found) => found,
            Err(at) => {
                proof {
                    lemma_fit(inputs, replies@, at as int);
                }
                return Step::Fail(PlanError::UnexpectedReply(at));
            },
        };
        if images.len() < n {
            let infos = Attachment::image_infos(resolution, &plain);
            proof {
                lemma_fit(inputs, replies@, len as int);
            }
            return Step::Ask(Request::CreateImage(infos[images.len()]));
        }
        assert(images@ =~= inputs.images(replies@));
        assert(requirements@ =~= inputs.requirements(replies@));

        let memory_plan = match Attachment::memory_plan(&requirements, memory_prop) {
            Ok(memory_plan) => memory_plan,
            Err(error) => {
                proof {
                    lemma_fit(inputs, replies@, n as int + 1);
                }
                return Step::Fail(PlanError::Attachments(error));
            },
        };
        assert(is_memory_plan(inputs.requirements(replies@), inputs.memory_types, Ok(memory_plan)));
        assert(inputs.memory_fits(replies@));
        if len <= n + 1 {
            proof {
                lemma_fit(inputs, replies@, len as int);
            }
            return Step::Ask(Request::AllocateMemory(memory_plan.allocation));
        }
        let memory = match replies[n + 1] {
            Reply::Memory(memory) => memory,
            _ => {
                proof {
                    lemma_fit(inputs, replies@, n as int + 1);
                }
                return Step::Fail(PlanError::UnexpectedReply(n + 1));
            },
        };

        let bound = match dones_at(replies, n + 2, n) {
            Ok(bound) => bound,
            Err(at) => {
                proof {
                    lemma_fit(inputs, replies@, at as int);
                }
                return Step::Fail(PlanError::UnexpectedReply(at));
            },
        };
        if bound < n {
            proof {
                lemma_fit(inputs, replies@, len as int);
            }
            return Step::Ask(
                Request::BindImageMemory {
                    image: images[bound],
                    memory,
                    offset: memory_plan.offsets[bound],
                },
            );
        }
        let views = match views_at(replies, 2 * n + 2, n) {
            Ok(views) => views,
            Err(at) => {
                proof {
                    lemma_fit(inputs, replies@, at as int);
                }
                return Step::Fail(PlanError::UnexpectedReply(at));
            },
        };
        if views.len() < n {
            let view_infos = match Attachment::view_infos(&images, &plain) {
                Some(view_infos) => view_infos,
                None => {
                    return unreached();
                },
            };
            proof {
                lemma_fit(inputs, replies@, len as int);
            }
            return Step::Ask(Request::CreateImageView(view_infos[views.len()]));
        }
        assert(views@ =~= inputs.views(replies@));

        if len <= 3 * n + 2 {
            proof {
                lemma_fit(inputs, replies@, len as int);
            }
            return Step::Ask(Request::CreateRenderPass(RenderPass::create_info(colour_req, depth_req)));
        }
        let render_pass = match replies[3 * n + 2] {
            Reply::RenderPass(render_pass) => render_pass,
            _ => {
                proof {
                    lemma_fit(inputs, replies@, 3 * n as int + 2);
                }
                return Step::Fail(PlanError::UnexpectedReply(3 * n + 2));
            },
        };
        RenderPass::plan_framebuffers(
            resolution,
            colour_req,
            depth_req,
            frame_buffer_image_views,
            memory_prop,
            replies,
            &req,
            sampler,
            images,
            memory,
            views,
            render_pass,
        )
    }

    /// The last stretch of building a pass: its framebuffers.
    #[verifier::rlimit(60)]
    fn plan_framebuffers(
        resolution: vk::Extent2D,
        colour_req: &Vec<(i32, u32, vk::ImageLayout)>,
        depth_req: (i32, u32, vk::ImageLayout),
        frame_buffer_image_views: Option<&Vec<vk::ImageView>>,
        memory_prop: &PhysicalDeviceMemoryProperties,
        replies: &[Reply],
        req: &Vec<(i32, u32, vk::ImageLayout)>,
        sampler: vk::Sampler,
        images: Vec<vk::Image>,
        memory: vk::DeviceMemory,
        views: Vec<vk::ImageView>,
        render_pass: vk::RenderPassHandle,
    ) -> (step: Step<RenderPass>)
        requires
            pass_inputs(resolution, colour_req@, depth_req, frame_buffer_image_views, memory_prop@)
                .matches_views(),
            pass_inputs(resolution, colour_req@, depth_req, frame_buffer_image_views, memory_prop@)
                .fits(),
            req@ == colour_req@.push(depth_req),
            replies@.len() > 3 * req@.len() + 2,
            pass_inputs(resolution, colour_req@, depth_req, frame_buffer_image_views, memory_prop@)
                .fit(replies@, 3 * req@.len() as int + 3),
            pass_inputs(resolution, colour_req@, depth_req, frame_buffer_image_views, memory_prop@)
                .memory_fits(replies@),
            sampler == sampler_in(replies@[0]),
            images@ == pass_inputs(
                resolution,
                colour_req@,
                depth_req,
                frame_buffer_image_views,
                memory_prop@,
            ).images(replies@),
            memory == memory_in(replies@[req@.len() as int + 1]),
            views@ == pass_inputs(
                resolution,
                colour_req@,
                depth_req,
                frame_buffer_image_views,
                memory_prop@,
            ).views(replies@),
            render_pass == render_pass_in(replies@[3 * req@.len() as int + 2]),
        ensures
            pass_inputs(resolution, colour_req@, depth_req, frame_buffer_image_views, memory_prop@)
                .plans(replies@, step),
    {
        let ghost inputs = pass_inputs(
            resolution,
            colour_req@,
            depth_req,
            frame_buffer_image_views,
            memory_prop@,
        );
        let n: usize = req.len();
        let len = replies.len();
        let m: usize = match frame_buffer_image_views {
            Some(f) => f.len(),
            None => 1,
        };
        assert(n == inputs.n());
        assert(m == inputs.m());
        let frame_buffers = match framebuffers_at(replies, 3 * n + 3, m) {
            Ok(frame_buffers) => frame_buffers,
            Err(at) => {
                proof {
                    assert forall|k: int| 0 <= k < at && k < replies@.len() implies inputs.expects(
                        k,
                        #[trigger] replies@[k],
                    ) by {
                        if k < 3 * n + 3 {
                            assert(inputs.expects(k, replies@[k]));
                        }
                    }
                }
                return Step::Fail(PlanError::UnexpectedReply(at));
            },
        };
        proof {
            assert forall|k: int| 0 <= k < len && k < 3 * n + 3 + frame_buffers@.len()
                implies inputs.expects(k, #[trigger] replies@[k]) by {
                if k < 3 * n + 3 {
                    assert(inputs.expects(k, replies@[k]));
                }
            }
        }
        if frame_buffers.len() < m {
            let attachments = framebuffer_attachments(
                frame_buffer_image_views,
                &views,
                frame_buffers.len(),
            );
            return Step::Ask(
                Request::CreateFramebuffer(
                    FramebufferCreateInfo {
                        render_pass,
                        attachments,
                        width: resolution.width,
                        height: resolution.height,
                        layers: 1,
                    },
                ),
            );
        }
        if len > 3 * n + 3 + m {
            return Step::Fail(PlanError::UnexpectedReply(3 * n + 3 + m));
        }
        let attachments = match Attachment::assemble_with_layout(
            sampler,
            req,
            &images,
            &views,
        ) {
            Some(attachments) => attachments,
            None => {
                return unreached();
            },
        };
        assert(attachments@ =~= inputs.attachments(replies@));
        assert(frame_buffers@ =~= Seq::new(
            inputs.m() as nat,
            |j: int| framebuffer_in(replies@[3 * inputs.n() + 3 + j]),
        ));
        match RenderPass::assemble(
            resolution,
            sampler,
            memory,
            render_pass,
            attachments,
            frame_buffers,
            frame_buffer_image_views,
        ) {
            Some(pass) => Step::Done(pass),
            None => unreached(),
        }
    }
}

/// What the attachments of a pass are built from.
pub struct AttachmentInputs {
    pub extent: vk::Extent2D,
    pub sampler: vk::Sampler,
    pub req: Seq<(i32, u32)>,
    pub memory_types: Seq<MemoryType>,
}

impl AttachmentInputs {
    /// The number of attachments.
    pub open spec fn n(self) -> int {
        self.req.len() as int
    }

    /// The number of requests it takes to build the attachments: the
    /// images, one memory block, the bindings, and the views.
    pub open spec fn total(self) -> int {
        3 * self.n() + 1
    }

    /// Whether the attachments can be planned at all.
    pub open spec fn fits(self) -> bool {
        0 < self.req.len() <= MAX_ITEMS
    }

    /// Whether the answer at position `k` is an answer to the request at
    /// that position.
    pub open spec fn expects(self, k: int, reply: Reply) -> bool {
        let n = self.n();
        if k < n {
            reply is Image
        } else if k == n {
            reply is Memory
        } else if k <= 2 * n {
            reply is Done
        } else {
            reply is ImageView
        }
    }

    /// Whether each of the first `upto` answers fits the request it
    /// answers.
    pub open spec fn fit(self, replies: Seq<Reply>, upto: int) -> bool {
        forall|k: int| 0 <= k < upto && k < replies.len() ==> self.expects(k, #[trigger] replies[k])
    }

    /// The images the driver created, in the order of the requests.
    pub open spec fn images(self, replies: Seq<Reply>) -> Seq<vk::Image> {
        Seq::new(self.n() as nat, |j: int| image_in(replies[j]))
    }

    /// The memory requirements of the images.
    pub open spec fn requirements(self, replies: Seq<Reply>) -> Seq<MemoryRequirements> {
        Seq::new(self.n() as nat, |j: int| requirements_in(replies[j]))
    }

    /// The views of the images.
    pub open spec fn views(self, replies: Seq<Reply>) -> Seq<vk::ImageView> {
        Seq::new(self.n() as nat, |j: int| view_in(replies[2 * self.n() + 1 + j]))
    }

    /// Whether the images can be given memory.
    pub open spec fn memory_fits(self, replies: Seq<Reply>) -> bool {
        exists|plan: AttachmentMemory|
            is_memory_plan(self.requirements(replies), self.memory_types, Ok(plan))
    }

    /// Whether `request` is the request at position `k`, after the answers
    /// before it.
    pub open spec fn asks(self, replies: Seq<Reply>, k: int, request: Request) -> bool {
        let n = self.n();
        let sizes = sizes_of(self.requirements(replies));
        if k < n {
            request == Request::CreateImage(
                attachment_image(self.extent, self.req[k].0, self.req[k].1),
            )
        } else if k == n {
            &&& request matches Request::AllocateMemory(allocation)
            &&& allocation.allocation_size == sum_sizes(sizes, n)
            &&& is_memorytype_choice(
                self.requirements(replies)[0].memory_type_bits,
                self.memory_types,
                vk::MEMORY_PROPERTY_DEVICE_LOCAL_BIT,
                Some(allocation.memory_type_index),
            )
        } else if k <= 2 * n {
            request == (Request::BindImageMemory {
                image: self.images(replies)[k - n - 1],
                memory: memory_in(replies[n]),
                offset: sum_sizes(sizes, k - n - 1) as u64,
            })
        } else {
            request == Request::CreateImageView(
                attachment_view(
                    self.images(replies)[k - 2 * n - 1],
                    self.req[k - 2 * n - 1].0,
                    self.req[k - 2 * n - 1].1,
                ),
            )
        }
    }

    /// Whether `built` is what the answers add up to: the attachments in
    /// the order of the requests, and the one memory block behind them.
    pub open spec fn builds(self, replies: Seq<Reply>, built: (Vec<Attachment>, vk::DeviceMemory)) -> bool {
        &&& built.1 == memory_in(replies[self.n()])
        &&& built.0@ == Seq::new(
            self.n() as nat,
            |j: int|
                attachment_of(
                    self.images(replies)[j],
                    self.views(replies)[j],
                    self.sampler,
                    self.req[j].0,
                    self.req[j].1,
                ),
        )
    }

    /// Whether `step` is the planner's answer to `replies`.
    pub open spec fn plans(self, replies: Seq<Reply>, step: Step<(Vec<Attachment>, vk::DeviceMemory)>) -> bool {
        let n = self.n();
        let len = replies.len() as int;
        match step {
            Step::Fail(PlanError::TooMany) => n > MAX_ITEMS,
            Step::Fail(PlanError::UnexpectedReply(at)) => {
                &&& self.fits()
                &&& at <= self.total()
                &&& at < len
                &&& self.fit(replies, at as int)
                &&& at < self.total() ==> !self.expects(at as int, replies[at as int])
                &&& at >= n ==> self.memory_fits(replies)
            },
            Step::Fail(PlanError::Attachments(error)) => {
                &&& self.fits()
                &&& len >= n
                &&& self.fit(replies, n)
                &&& is_memory_plan(self.requirements(replies), self.memory_types, Err(error))
            },
            Step::Fail(_) => false,
            Step::Ask(request) => {
                &&& self.fits()
                &&& len < self.total()
                &&& self.fit(replies, len)
                &&& len >= n ==> self.memory_fits(replies)
                &&& self.asks(replies, len, request)
            },
            Step::Done(built) => {
                &&& self.fits()
                &&& len == self.total()
                &&& self.fit(replies, len)
                &&& self.memory_fits(replies)
                &&& self.builds(replies, built)
            },
        }
    }
}

impl Attachment {
    /// The next step in building the requested attachments, of which
    /// there is at least one, in one block of device-local memory, after
    /// the answers in `replies`.
    #[verifier::rlimit(60)]
    pub fn create_attachments(
        extent: vk::Extent2D,
        sampler: vk::Sampler,
        req: &Vec<(i32, u32)>,
        memory_prop: &PhysicalDeviceMemoryProperties,
        replies: &[Reply],
    ) -> (step: Step<(Vec<Attachment>, vk::DeviceMemory)>)
        requires
            req@.len() > 0,
        ensures
            (AttachmentInputs { extent, sampler, req: req@, memory_types: memory_prop@ }).plans(
                replies@,
                step,
            ),
    {
        let ghost inputs = AttachmentInputs { extent, sampler, req: req@, memory_types: memory_prop@ };
        let n: usize = req.len();
        let len = replies.len();
        if n > MAX_ITEMS {
            return Step::Fail(PlanError::TooMany);
        }
        let (images, requirements) = match images_at(replies, 0, n) {
            Ok(found) => found,
            Err(at) => {
                return Step::Fail(PlanError::UnexpectedReply(at));
            },
        };
        if images.len() < n {
            let infos = Attachment::image_infos(extent, req);
            return Step::Ask(Request::CreateImage(infos[images.len()]));
        }
        assert(images@ =~= inputs.images(replies@));
        assert(requirements@ =~= inputs.requirements(replies@));
        assert(inputs.fit(replies@, n as int));
        let memory_plan = match Attachment::memory_plan(&requirements, memory_prop) {
            Ok(memory_plan) => memory_plan,
            Err(error) => {
                return Step::Fail(PlanError::Attachments(error));
            },
        };
        assert(is_memory_plan(inputs.requirements(replies@), inputs.memory_types, Ok(memory_plan)));
        assert(inputs.memory_fits(replies@));
        if len == n {
            return Step::Ask(Request::AllocateMemory(memory_plan.allocation));
        }
        let memory = match replies[n] {
            Reply::Memory(memory) => memory,
            _ => {
                return Step::Fail(PlanError::UnexpectedReply(n));
            },
        };
        assert(inputs.fit(replies@, n as int + 1));
        let bound = match dones_at(replies, n + 1, n) {
            Ok(bound) => bound,
            Err(at) => {
                assert(inputs.fit(replies@, at as int));
                return Step::Fail(PlanError::UnexpectedReply(at));
            },
        };
        assert(inputs.fit(replies@, n as int + 1 + bound as int));
        if bound < n {
            return Step::Ask(
                Request::BindImageMemory {
                    image: images[bound],
                    memory,
                    offset: memory_plan.offsets[bound],
                },
            );
        }
        let views = match views_at(replies, 2 * n + 1, n) {
            Ok(views) => views,
            Err(at) => {
                assert(inputs.fit(replies@, at as int));
                return Step::Fail(PlanError::UnexpectedReply(at));
            },
        };
        assert(inputs.fit(replies@, 2 * n as int + 1 + views@.len() as int));
        if views.len() < n {
            let view_infos = match Attachment::view_infos(&images, req) {
                Some(view_infos) => view_infos,
                None => {
                    return unreached();
                },
            };
            return Step::Ask(Request::CreateImageView(view_infos[views.len()]));
        }
        if len > 3 * n + 1 {
            return Step::Fail(PlanError::UnexpectedReply(3 * n + 1));
        }
        assert(views@ =~= inputs.views(replies@));
        match Attachment::assemble(sampler, req, &images, &views) {
            Some(attachments) => {
                assert(attachments@ =~= Seq::new(
                    inputs.n() as nat,
                    |j: int|
                        attachment_of(
                            inputs.images(replies@)[j],
                            inputs.views(replies@)[j],
                            sampler,
                            req@[j].0,
                            req@[j].1,
                        ),
                ));
                Step::Done((attachments, memory))
            },
            None => unreached(),
        }
    }

    /// As `create_attachments`, for requests that also name the layout
    /// each attachment is left in at the end of the pass.
    pub fn create_attachments_with_layout(
        extent: vk::Extent2D,
        sampler: vk::Sampler,
        req: &Vec<(i32, u32, vk::ImageLayout)>,
        memory_prop: &PhysicalDeviceMemoryProperties,
        replies: &[Reply],
    ) -> (step: Step<(Vec<Attachment>, vk::DeviceMemory)>)
        requires
            req@.len() > 0,
        ensures
            (AttachmentInputs {
                extent,
                sampler,
                req: without_layouts(req@),
                memory_types: memory_prop@,
            }).plans(replies@, step),
    {
        let plain = strip_layouts(req);
        Attachment::create_attachments(extent, sampler, &plain, memory_prop, replies)
    }
}

} // verus!
