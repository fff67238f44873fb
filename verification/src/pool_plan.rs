//! Building the command pool and the swapchain, request by request.
use vstd::prelude::*;
use crate::vk;
use crate::driver::{
    command_buffers_in, command_pool_in, swapchain_images_in, swapchain_in, view_in, views_at,
    PlanError, Reply, Request, Step, MAX_ITEMS,
};
use crate::surface::{
    swapchain_view, RVSurface, RVSurfaceCapabilities, SwapChain, SwapchainCreateInfoKHR,
};
use crate::vk_commands::{
    CommandBufferAllocateInfo, CommandPoolCreateInfo, Pool, FIXED_COMMAND_BUFFERS,
};

verus! {

/// What a command pool is built from.
pub struct PoolInputs {
    pub queue_family_index: u32,
    /// The number of draw command buffers.
    pub draw_buffer_num: u32,
}

impl PoolInputs {
    /// The number of requests it takes to build the pool.
    pub open spec fn total(self) -> int {
        3
    }

    /// Whether the answer at position `k` is an answer to the request at
    /// that position: the pool, then as many command buffers as were asked
    /// for.
    pub open spec fn expects(self, k: int, reply: Reply) -> bool {
        if k == 0 {
            reply is CommandPool
        } else if k == 1 {
            reply is CommandBuffers && command_buffers_in(reply).len() == FIXED_COMMAND_BUFFERS
        } else {
            reply is CommandBuffers && command_buffers_in(reply).len() == self.draw_buffer_num
        }
    }

    /// Whether each of the first `upto` answers fits the request it
    /// answers.
    pub open spec fn fit(self, replies: Seq<Reply>, upto: int) -> bool {
        forall|k: int| 0 <= k < upto && k < replies.len() ==> self.expects(k, #[trigger] replies[k])
    }

    /// Whether `request` is the request at position `k`, after the answers
    /// before it.
    pub open spec fn asks(self, replies: Seq<Reply>, k: int, request: Request) -> bool {
        if k == 0 {
            request == Request::CreateCommandPool(
                CommandPoolCreateInfo {
                    flags: vk::COMMAND_POOL_CREATE_RESET_COMMAND_BUFFER_BIT,
                    queue_family_index: self.queue_family_index,
                },
            )
        } else if k == 1 {
            request == Request::AllocateCommandBuffers(
                CommandBufferAllocateInfo {
                    command_pool: command_pool_in(replies[0]),
                    command_buffer_count: FIXED_COMMAND_BUFFERS,
                },
            )
        } else {
            request == Request::AllocateCommandBuffers(
                CommandBufferAllocateInfo {
                    command_pool: command_pool_in(replies[0]),
                    command_buffer_count: self.draw_buffer_num,
                },
            )
        }
    }

    /// Whether `pool` is the pool that the answers add up to.
    pub open spec fn builds(self, replies: Seq<Reply>, pool: Pool) -> bool {
        &&& pool.pool == command_pool_in(replies[0])
        &&& pool.setup_command_buffer == command_buffers_in(replies[1])[0]
        &&& pool.off_screen_command_buffer == command_buffers_in(replies[1])[1]
        &&& pool.g_buffer_setup == command_buffers_in(replies[1])[2]
        &&& pool.draw_command_buffer@ == command_buffers_in(replies[2])
    }

    /// Whether `step` is the planner's answer to `replies`.
    pub open spec fn plans(self, replies: Seq<Reply>, step: Step<Pool>) -> bool {
        let len = replies.len() as int;
        match step {
            Step::Fail(PlanError::UnexpectedReply(at)) => {
                &&& at <= self.total()
                &&& at < len
                &&& self.fit(replies, at as int)
                &&& at < self.total() ==> if at == 0 {
                    !(replies[0] is CommandPool)
                } else {
                    !(replies[at as int] is CommandBuffers)
                }
            },
            Step::Fail(PlanError::WrongCount) => {
                &&& (len > 1 && self.fit(replies, 1) && replies[1] is CommandBuffers
                    && !self.expects(1, replies[1])) || (len > 2 && self.fit(replies, 2)
                    && replies[2] is CommandBuffers && !self.expects(2, replies[2]))
            },
            Step::Fail(_) => false,
            Step::Ask(request) => {
                &&& len < self.total()
                &&& self.fit(replies, len)
                &&& self.asks(replies, len, request)
            },
            Step::Done(pool) => {
                &&& len == self.total()
                &&& self.fit(replies, len)
                &&& self.builds(replies, pool)
            },
        }
    }
}

fn copy_command_buffers(buffers: &Vec<vk::CommandBuffer>) -> (copy: Vec<vk::CommandBuffer>)
    ensures
        copy@ == buffers@,
{
    let mut copy: Vec<vk::CommandBuffer> = Vec::new();
    let mut i: usize = 0;
    while i < buffers.len()
        invariant
            i <= buffers.len(),
            copy@ == buffers@.subrange(0, i as int),
        decreases buffers.len() - i,
    {
        copy.push(buffers[i]);
        i += 1;
        assert(copy@ =~= buffers@.subrange(0, i as int));
    }
    assert(buffers@.subrange(0, buffers.len() as int) =~= buffers@);
    copy
}

fn copy_images(images: &Vec<vk::Image>) -> (copy: Vec<vk::Image>)
    ensures
        copy@ == images@,
{
    let mut copy: Vec<vk::Image> = Vec::new();
    let mut i: usize = 0;
    while i < images.len()
        invariant
            i <= images.len(),
            copy@ == images@.subrange(0, i as int),
        decreases images.len() - i,
    {
        copy.push(images[i]);
        i += 1;
        assert(copy@ =~= images@.subrange(0, i as int));
    }
    assert(images@.subrange(0, images.len() as int) =~= images@);
    copy
}

impl Pool {
    /// The next step in building the command pool, after the answers in
    /// `replies`.
    pub fn init(queue_family_index: u32, draw_buffer_num: u32, replies: &[Reply]) -> (step: Step<
        Pool,
    >)
        ensures
            (PoolInputs { queue_family_index, draw_buffer_num }).plans(replies@, step),
    {
        let ghost inputs = PoolInputs { queue_family_index, draw_buffer_num };
        let len = replies.len();
        if len == 0 {
            return Step::Ask(Request::CreateCommandPool(Pool::create_info(queue_family_index)));
        }
        let pool = match replies[0] {
            Reply::CommandPool(pool) => pool,
            _ => {
                return Step::Fail(PlanError::UnexpectedReply(0));
            },
        };
        let (fixed, draw) = Pool::allocate_infos(pool, draw_buffer_num);
        if len == 1 {
            return Step::Ask(Request::AllocateCommandBuffers(fixed));
        }
        let command_buffers = match &replies[1] {
            Reply::CommandBuffers(buffers) => buffers,
            _ => {
                return Step::Fail(PlanError::UnexpectedReply(1));
            },
        };
        if command_buffers.len() != 3 {
            return Step::Fail(PlanError::WrongCount);
        }
        if len == 2 {
            return Step::Ask(Request::AllocateCommandBuffers(draw));
        }
        let draw_command_buffers = match &replies[2] {
            Reply::CommandBuffers(buffers) => buffers,
            _ => {
                return Step::Fail(PlanError::UnexpectedReply(2));
            },
        };
        if draw_command_buffers.len() != draw_buffer_num as usize {
            return Step::Fail(PlanError::WrongCount);
        }
        if len > 3 {
            return Step::Fail(PlanError::UnexpectedReply(3));
        }
        match Pool::assemble(
            pool,
            draw_buffer_num,
            command_buffers,
            copy_command_buffers(draw_command_buffers),
        ) {
            Some(pool) => Step::Done(pool),
            None => unreached(),
        }
    }
}

/// What a swapchain is built from.
pub struct SwapChainInputs {
    pub present_mode: i32,
    pub surface: RVSurface,
    pub capabilities: RVSurfaceCapabilities,
}

impl SwapChainInputs {
    /// The number of images of the swapchain.
    pub open spec fn images(self, replies: Seq<Reply>) -> Seq<vk::Image> {
        swapchain_images_in(replies[0])
    }

    /// The number of requests it takes to build the swapchain.
    pub open spec fn total(self, replies: Seq<Reply>) -> int {
        1 + self.images(replies).len() as int
    }

    /// Whether the answer at position `k` is an answer to the request at
    /// that position.
    pub open spec fn expects(self, k: int, reply: Reply) -> bool {
        if k == 0 {
            reply is Swapchain
        } else {
            reply is ImageView
        }
    }

    /// Whether each of the first `upto` answers fits the request it
    /// answers.
    pub open spec fn fit(self, replies: Seq<Reply>, upto: int) -> bool {
        forall|k: int| 0 <= k < upto && k < replies.len() ==> self.expects(k, #[trigger] replies[k])
    }

    /// Whether `request` is the request at position `k`, after the answers
    /// before it.
    pub open spec fn asks(self, replies: Seq<Reply>, k: int, request: Request) -> bool {
        if k == 0 {
            request == Request::CreateSwapchain(
                SwapchainCreateInfoKHR {
                    surface: self.surface.handle,
                    min_image_count: self.capabilities.desired_image_count,
                    image_format: self.capabilities.format.format,
                    image_color_space: self.capabilities.format.color_space,
                    image_extent: self.capabilities.resolution,
                    image_array_layers: 1,
                    image_usage: vk::IMAGE_USAGE_COLOR_ATTACHMENT_BIT,
                    pre_transform: self.capabilities.pre_transform,
                    composite_alpha: vk::COMPOSITE_ALPHA_OPAQUE_BIT_KHR,
                    present_mode: self.present_mode,
                    clipped: true,
                },
            )
        } else {
            request == Request::CreateImageView(
                swapchain_view(self.images(replies)[k - 1], self.capabilities.format.format),
            )
        }
    }

    /// Whether `chain` is the swapchain that the answers add up to.
    pub open spec fn builds(self, replies: Seq<Reply>, chain: SwapChain) -> bool {
        &&& chain.handle == swapchain_in(replies[0])
        &&& chain.images@ == self.images(replies)
        &&& chain.image_views@ == Seq::new(
            self.images(replies).len(),
            |j: int| view_in(replies[1 + j]),
        )
        &&& chain.image_count == self.images(replies).len()
    }

    /// Whether `step` is the planner's answer to `replies`.
    pub open spec fn plans(self, replies: Seq<Reply>, step: Step<SwapChain>) -> bool {
        let len = replies.len() as int;
        match step {
            Step::Fail(PlanError::TooMany) => {
                &&& len > 0
                &&& replies[0] is Swapchain
                &&& self.images(replies).len() > MAX_ITEMS
            },
            Step::Fail(PlanError::UnexpectedReply(at)) => {
                &&& at < len
                &&& self.fit(replies, at as int)
                &&& at > 0 ==> self.images(replies).len() <= MAX_ITEMS && at <= self.total(replies)
                &&& at == 0 || at < self.total(replies) ==> !self.expects(
                    at as int,
                    replies[at as int],
                )
            },
            Step::Fail(_) => false,
            Step::Ask(request) => {
                &&& len > 0 ==> self.images(replies).len() <= MAX_ITEMS && len < self.total(replies)
                &&& self.fit(replies, len)
                &&& self.asks(replies, len, request)
            },
            Step::Done(chain) => {
                &&& len > 0
                &&& len == self.total(replies)
                &&& self.fit(replies, len)
                &&& self.builds(replies, chain)
            },
        }
    }
}

impl SwapChain {
    /// The next step in building the swapchain, after the answers in
    /// `replies`.
    pub fn init(
        present_mode: i32,
        surface: &RVSurface,
        surface_capabilities: &RVSurfaceCapabilities,
        replies: &[Reply],
    ) -> (step: Step<SwapChain>)
        ensures
            (SwapChainInputs {
                present_mode,
                surface: *surface,
                capabilities: *surface_capabilities,
            }).plans(replies@, step),
    {
        let ghost inputs = SwapChainInputs {
            present_mode,
            surface: *surface,
            capabilities: *surface_capabilities,
        };
        let len = replies.len();
        if len == 0 {
            return Step::Ask(
                Request::CreateSwapchain(
                    SwapChain::create_info(present_mode, surface, surface_capabilities),
                ),
            );
        }
        let (handle, images) = match &replies[0] {
            Reply::Swapchain(handle, images) => (*handle, images),
            _ => {
                return Step::Fail(PlanError::UnexpectedReply(0));
            },
        };
        let n = images.len();
        if n > MAX_ITEMS {
            return Step::Fail(PlanError::TooMany);
        }
        let views = match views_at(replies, 1, n) {
            Ok(views) => views,
            Err(at) => {
                return Step::Fail(PlanError::UnexpectedReply(at));
            },
        };
        if views.len() < n {
            let infos = SwapChain::view_infos(images, surface_capabilities.format.format);
            return Step::Ask(Request::CreateImageView(infos[views.len()]));
        }
        if len > 1 + n {
            return Step::Fail(PlanError::UnexpectedReply(1 + n));
        }
        assert(views@ =~= Seq::new(n as nat, |j: int| view_in(replies@[1 + j])));
        match SwapChain::assemble(handle, copy_images(images), views) {
            Some(chain) => Step::Done(chain),
            None => unreached(),
        }
    }
}

} // verus!
