//! Render targets: attachments packed into one memory block, and the
//! render passes that draw into them.
//!
//! The images of a pass share a single allocation. Image `i` is bound at the
//! sum of the sizes of the images before it, and the block is as large as
//! all of them together. The block is typed by the requirement of the first
//! image; images of one tiling share their admissible memory types.
use vstd::prelude::*;
use crate::vk;
use crate::memory::{
    find_memorytype_index, is_memorytype_choice, MemoryRequirements,
    PhysicalDeviceMemoryProperties,
};
use crate::resource::MemoryAllocateInfo;
use crate::uniform::{Uniform, UniformDescriptor, UniformInfo};
use crate::vk_commands::{
    clear_values, clear_values_of, copy_commands, Command, ImageMemoryBarrier, Recording,
    RenderPassBeginInfo,
};

verus! {

/// A render target: an image, its view and how it is used.
#[derive(Clone, Copy, PartialEq, Eq, Structural, Debug)]
pub struct Attachment {
    pub image: vk::Image,
    pub format: i32,
    pub usage: u32,
    pub descriptor: vk::DescriptorImageInfo,
}

/// Why the images of a pass could not be given memory.
#[derive(Clone, Copy, PartialEq, Eq, Structural, Debug)]
pub enum AttachmentError {
    /// The images together are larger than a memory block can be.
    TooLarge,
    /// The device has no device-local memory type that the first image
    /// admits.
    NoMemoryType,
}

/// Where the images of a pass are bound in their shared memory block.
#[derive(Clone, PartialEq, Eq, Debug)]
pub struct AttachmentMemory {
    pub allocation: MemoryAllocateInfo,
    /// The byte offset of each image, in the order of the images.
    pub offsets: Vec<u64>,
}

/// The sum of the first `n` sizes.
pub open spec fn sum_sizes(sizes: Seq<u64>, n: int) -> int
    decreases n,
{
    if n <= 0 {
        0
    } else {
        sum_sizes(sizes, n - 1) + sizes[n - 1]
    }
}

/// The sum of a growing prefix never shrinks.
pub proof fn lemma_sum_sizes_monotonic(sizes: Seq<u64>, i: int, j: int)
    requires
        0 <= i <= j <= sizes.len(),
    ensures
        sum_sizes(sizes, i) <= sum_sizes(sizes, j),
    decreases j - i,
{
    if i < j {
        lemma_sum_sizes_monotonic(sizes, i, j - 1);
    }
}

/// Whether `offsets` places blocks of the given sizes back to back from
/// offset zero.
pub open spec fn is_packing(sizes: Seq<u64>, offsets: Seq<u64>) -> bool {
    &&& offsets.len() == sizes.len()
    &&& forall|i: int| 0 <= i < sizes.len() ==> #[trigger] offsets[i] == sum_sizes(sizes, i)
}

/// Blocks that are packed back to back do not overlap, and all of them lie
/// within the total size.
pub proof fn lemma_packing_is_disjoint(sizes: Seq<u64>, offsets: Seq<u64>, i: int, j: int)
    requires
        is_packing(sizes, offsets),
        0 <= i < j < sizes.len(),
    ensures
        offsets[i] + sizes[i] <= offsets[j],
        offsets[j] + sizes[j] <= sum_sizes(sizes, sizes.len() as int),
{
    lemma_sum_sizes_monotonic(sizes, i + 1, j);
    lemma_sum_sizes_monotonic(sizes, j + 1, sizes.len() as int);
}

/// Packs blocks of the given sizes back to back. Returns the offset of each
/// block and the total size, or nothing when the total does not fit.
pub fn pack_offsets(sizes: &Vec<u64>) -> (packed: Option<(Vec<u64>, u64)>)
    ensures
        packed is Some <==> sum_sizes(sizes@, sizes@.len() as int) <= u64::MAX,
        packed matches Some((offsets, total)) ==> is_packing(sizes@, offsets@) && total
            == sum_sizes(sizes@, sizes@.len() as int),
{
    let mut offsets: Vec<u64> = Vec::new();
    let mut total: u64 = 0;
    let mut i: usize = 0;
    while i < sizes.len()
        invariant
            i <= sizes.len(),
            offsets@.len() == i,
            total == sum_sizes(sizes@, i as int),
            forall|k: int| 0 <= k < i ==> #[trigger] offsets@[k] == sum_sizes(sizes@, k),
        decreases sizes.len() - i,
    {
        offsets.push(total);
        match total.checked_add(sizes[i]) {
            Some(next) => {
                total = next;
            },
            None => {
                proof {
                    lemma_sum_sizes_monotonic(sizes@, i as int + 1, sizes@.len() as int);
                }
                return None;
            },
        }
        i += 1;
    }
    Some((offsets, total))
}

/// The sizes of a list of memory requirements.
pub open spec fn sizes_of(requirements: Seq<MemoryRequirements>) -> Seq<u64> {
    Seq::new(requirements.len(), |i: int| requirements[i].size)
}

/// Whether `result` is the memory plan for images with the given
/// requirements on a device with the given type table.
pub open spec fn is_memory_plan(
    requirements: Seq<MemoryRequirements>,
    table: Seq<crate::memory::MemoryType>,
    result: Result<AttachmentMemory, AttachmentError>,
) -> bool {
    let sizes = sizes_of(requirements);
    let total = sum_sizes(sizes, sizes.len() as int);
    match result {
        Err(AttachmentError::TooLarge) => requirements.len() > 0 && total > u64::MAX,
        Err(AttachmentError::NoMemoryType) => {
            &&& requirements.len() > 0
            &&& total <= u64::MAX
            &&& is_memorytype_choice(
                requirements[0].memory_type_bits,
                table,
                vk::MEMORY_PROPERTY_DEVICE_LOCAL_BIT,
                None,
            )
        },
        Ok(plan) => {
            &&& requirements.len() > 0
            &&& plan.allocation.allocation_size == total
            &&& is_memorytype_choice(
                requirements[0].memory_type_bits,
                table,
                vk::MEMORY_PROPERTY_DEVICE_LOCAL_BIT,
                Some(plan.allocation.memory_type_index),
            )
            &&& is_packing(sizes, plan.offsets@)
        },
    }
}

/// The colour channels of a view, each taken from itself.
pub open spec fn identity_mapping() -> vk::ComponentMapping {
    vk::ComponentMapping {
        r: vk::ComponentSwizzle::Identity,
        g: vk::ComponentSwizzle::Identity,
        b: vk::ComponentSwizzle::Identity,
        a: vk::ComponentSwizzle::Identity,
    }
}

/// Whether an image of the given usage is a depth attachment: its usage
/// names the depth/stencil attachment. Every other image holds colour.
pub open spec fn is_depth_usage(usage: u32) -> bool {
    vk::has_all(usage, vk::IMAGE_USAGE_DEPTH_STENCIL_ATTACHMENT_BIT)
}

/// The aspect of an attachment of the given usage: depth for a depth
/// attachment, colour for every other. The view of the attachment and the
/// barrier that moves it into its layout both name this aspect.
pub open spec fn view_aspect(usage: u32) -> u32 {
    if is_depth_usage(usage) {
        vk::IMAGE_ASPECT_DEPTH_BIT
    } else {
        vk::IMAGE_ASPECT_COLOR_BIT
    }
}

/// The aspect of an attachment of the given usage.
pub fn aspect_of(usage: u32) -> (aspect: u32)
    ensures
        aspect == view_aspect(usage),
{
    if vk::contains(usage, vk::IMAGE_USAGE_DEPTH_STENCIL_ATTACHMENT_BIT) {
        vk::IMAGE_ASPECT_DEPTH_BIT
    } else {
        vk::IMAGE_ASPECT_COLOR_BIT
    }
}

/// The image behind an attachment of the given format and usage: as large
/// as the pass, sampled in addition to its own usage, in no layout yet.
pub open spec fn attachment_image(extent: vk::Extent2D, format: i32, usage: u32) -> vk::ImageCreateInfo {
    vk::ImageCreateInfo {
        format,
        extent: vk::Extent3D { width: extent.width, height: extent.height, depth: 1 },
        mip_levels: 1,
        array_layers: 1,
        samples: vk::SAMPLE_COUNT_1_BIT,
        usage: usage | vk::IMAGE_USAGE_SAMPLED_BIT,
        initial_layout: vk::ImageLayout::Undefined,
    }
}

/// The view of an attachment's image.
pub open spec fn attachment_view(image: vk::Image, format: i32, usage: u32) -> vk::ImageViewCreateInfo {
    vk::ImageViewCreateInfo {
        image,
        format,
        components: identity_mapping(),
        subresource_range: vk::whole_image(view_aspect(usage)),
    }
}

/// The attachment made of an image and its view. A shader that samples it
/// finds it in the read-only layout.
pub open spec fn attachment_of(
    image: vk::Image,
    view: vk::ImageView,
    sampler: vk::Sampler,
    format: i32,
    usage: u32,
) -> Attachment {
    Attachment {
        image,
        format,
        usage,
        descriptor: vk::DescriptorImageInfo {
            image_layout: vk::ImageLayout::ShaderReadOnlyOptimal,
            image_view: view,
            sampler,
        },
    }
}

/// The requests of a pass without their final layouts.
pub open spec fn without_layouts(req: Seq<(i32, u32, vk::ImageLayout)>) -> Seq<(i32, u32)> {
    Seq::new(req.len(), |i: int| (req[i].0, req[i].1))
}

/// Drops the final layout from each request.
pub fn strip_layouts(req: &Vec<(i32, u32, vk::ImageLayout)>) -> (stripped: Vec<(i32, u32)>)
    ensures
        stripped@ == without_layouts(req@),
{
    let mut stripped: Vec<(i32, u32)> = Vec::new();
    let mut i: usize = 0;
    while i < req.len()
        invariant
            i <= req.len(),
            stripped@.len() == i,
            forall|k: int| 0 <= k < i ==> #[trigger] stripped@[k] == (req@[k].0, req@[k].1),
        decreases req.len() - i,
    {
        stripped.push((req[i].0, req[i].1));
        i += 1;
    }
    assert(stripped@ =~= without_layouts(req@));
    stripped
}

impl Attachment {
    /// The images to create for the requested attachments, one per request
    /// and in the order of the requests.
    pub fn image_infos(extent: vk::Extent2D, req: &Vec<(i32, u32)>) -> (infos: Vec<
        vk::ImageCreateInfo,
    >)
        ensures
            infos@.len() == req@.len(),
            forall|i: int|
                0 <= i < req@.len() ==> #[trigger] infos@[i] == attachment_image(
                    extent,
                    req@[i].0,
                    req@[i].1,
                ),
    {
        let mut infos: Vec<vk::ImageCreateInfo> = Vec::new();
        let mut i: usize = 0;
        while i < req.len()
            invariant
                i <= req.len(),
                infos@.len() == i,
                forall|k: int|
                    0 <= k < i ==> #[trigger] infos@[k] == attachment_image(
                        extent,
                        req@[k].0,
                        req@[k].1,
                    ),
            decreases req.len() - i,
        {
            let (format, usage) = req[i];
            infos.push(
                vk::ImageCreateInfo {
                    format,
                    extent: vk::Extent3D { width: extent.width, height: extent.height, depth: 1 },
                    mip_levels: 1,
                    array_layers: 1,
                    samples: vk::SAMPLE_COUNT_1_BIT,
                    usage: usage | vk::IMAGE_USAGE_SAMPLED_BIT,
                    initial_layout: vk::ImageLayout::Undefined,
                },
            );
            i += 1;
        }
        infos
    }

    /// Places the images in one block of device-local memory: the block is
    /// as large as all requirements together and of the memory type that
    /// the first requirement selects, and each image starts where the one
    /// before it ends. There is at least one image.
    pub fn memory_plan(
        requirements: &Vec<MemoryRequirements>,
        memory_prop: &PhysicalDeviceMemoryProperties,
    ) -> (plan: Result<AttachmentMemory, AttachmentError>)
        requires
            requirements@.len() > 0,
        ensures
            is_memory_plan(requirements@, memory_prop@, plan),
    {
        let mut sizes: Vec<u64> = Vec::new();
        let mut i: usize = 0;
        while i < requirements.len()
            invariant
                i <= requirements.len(),
                sizes@.len() == i,
                forall|k: int| 0 <= k < i ==> #[trigger] sizes@[k] == requirements@[k].size,
            decreases requirements.len() - i,
        {
            sizes.push(requirements[i].size);
            i += 1;
        }
        assert(sizes@ =~= sizes_of(requirements@));
        let (offsets, total) = match pack_offsets(&sizes) {
            Some(packed) => packed,
            None => {
                return Err(AttachmentError::TooLarge);
            },
        };
        let image_memory_index = match find_memorytype_index(
            &requirements[0],
            memory_prop,
            vk::MEMORY_PROPERTY_DEVICE_LOCAL_BIT,
        ) {
            Some(index) => index,
            None => {
                return Err(AttachmentError::NoMemoryType);
            },
        };
        Ok(
            AttachmentMemory {
                allocation: MemoryAllocateInfo {
                    allocation_size: total,
                    memory_type_index: image_memory_index,
                },
                offsets,
            },
        )
    }

    /// The views to create once the images are bound, one per image.
    /// Nothing when there are not as many images as requests.
    pub fn view_infos(images: &Vec<vk::Image>, req: &Vec<(i32, u32)>) -> (infos: Option<
        Vec<vk::ImageViewCreateInfo>,
    >)
        ensures
            infos is Some <==> images@.len() == req@.len(),
            infos matches Some(v) ==> {
                &&& v@.len() == req@.len()
                &&& forall|i: int|
                    0 <= i < req@.len() ==> #[trigger] v@[i] == attachment_view(
                        images@[i],
                        req@[i].0,
                        req@[i].1,
                    )
            },
    {
        if images.len() != req.len() {
            return None;
        }
        let mut infos: Vec<vk::ImageViewCreateInfo> = Vec::new();
        let mut i: usize = 0;
        while i < req.len()
            invariant
                i <= req.len(),
                images@.len() == req@.len(),
                infos@.len() == i,
                forall|k: int|
                    0 <= k < i ==> #[trigger] infos@[k] == attachment_view(
                        images@[k],
                        req@[k].0,
                        req@[k].1,
                    ),
            decreases req.len() - i,
        {
            let (format, usage) = req[i];
            let aspect_mask: u32 = aspect_of(usage);
            infos.push(
                vk::ImageViewCreateInfo {
                    image: images[i],
                    format,
                    components: vk::ComponentMapping {
                        r: vk::ComponentSwizzle::Identity,
                        g: vk::ComponentSwizzle::Identity,
                        b: vk::ComponentSwizzle::Identity,
                        a: vk::ComponentSwizzle::Identity,
                    },
                    subresource_range: vk::ImageSubresourceRange {
                        aspect_mask,
                        base_mip_level: 0,
                        level_count: 1,
                        base_array_layer: 0,
                        layer_count: 1,
                    },
                },
            );
            i += 1;
        }
        Some(infos)
    }

    /// The attachments made of the images and their views, one per request
    /// and in the order of the requests. Nothing when there are not as many
    /// images and views as requests.
    pub fn assemble(
        sampler: vk::Sampler,
        req: &Vec<(i32, u32)>,
        images: &Vec<vk::Image>,
        views: &Vec<vk::ImageView>,
    ) -> (attachments: Option<Vec<Attachment>>)
        ensures
            attachments is Some <==> images@.len() == req@.len() && views@.len() == req@.len(),
            attachments matches Some(v) ==> {
                &&& v@.len() == req@.len()
                &&& forall|i: int|
                    0 <= i < req@.len() ==> #[trigger] v@[i] == attachment_of(
                        images@[i],
                        views@[i],
                        sampler,
                        req@[i].0,
                        req@[i].1,
                    )
            },
    {
        if images.len() != req.len() || views.len() != req.len() {
            return None;
        }
        let mut attachments: Vec<Attachment> = Vec::new();
        let mut i: usize = 0;
        while i < req.len()
            invariant
                i <= req.len(),
                images@.len() == req@.len(),
                views@.len() == req@.len(),
                attachments@.len() == i,
                forall|k: int|
                    0 <= k < i ==> #[trigger] attachments@[k] == attachment_of(
                        images@[k],
                        views@[k],
                        sampler,
                        req@[k].0,
                        req@[k].1,
                    ),
            decreases req.len() - i,
        {
            let (format, usage) = req[i];
            attachments.push(
                Attachment {
                    image: images[i],
                    format,
                    usage,
                    descriptor: vk::DescriptorImageInfo {
                        image_layout: vk::ImageLayout::ShaderReadOnlyOptimal,
                        image_view: views[i],
                        sampler,
                    },
                },
            );
            i += 1;
        }
        Some(attachments)
    }

    /// As `assemble`, for requests that also name the layout each
    /// attachment is left in at the end of the pass.
    pub fn assemble_with_layout(
        sampler: vk::Sampler,
        req: &Vec<(i32, u32, vk::ImageLayout)>,
        images: &Vec<vk::Image>,
        views: &Vec<vk::ImageView>,
    ) -> (attachments: Option<Vec<Attachment>>)
        ensures
            attachments is Some <==> images@.len() == req@.len() && views@.len() == req@.len(),
            attachments matches Some(v) ==> {
                &&& v@.len() == req@.len()
                &&& forall|i: int|
                    0 <= i < req@.len() ==> #[trigger] v@[i] == attachment_of(
                        images@[i],
                        views@[i],
                        sampler,
                        req@[i].0,
                        req@[i].1,
                    )
            },
    {
        let stripped = strip_layouts(req);
        Attachment::assemble(sampler, &stripped, images, views)
    }

    /// The barrier that moves the attachment into the layout it is used in:
    /// a depth attachment becomes readable and writable as depth/stencil,
    /// every other attachment becomes a transfer destination. The barrier
    /// covers the aspect that the attachment's view was created with.
    pub open spec fn transition(&self) -> Command {
        let depth = is_depth_usage(self.usage);
        Command::PipelineBarrier {
            src_stage_mask: vk::PIPELINE_STAGE_TOP_OF_PIPE_BIT,
            dst_stage_mask: vk::PIPELINE_STAGE_TOP_OF_PIPE_BIT,
            barrier: ImageMemoryBarrier {
                src_access_mask: 0,
                dst_access_mask: if depth {
                    vk::ACCESS_DEPTH_STENCIL_ATTACHMENT_READ_BIT
                        | vk::ACCESS_DEPTH_STENCIL_ATTACHMENT_WRITE_BIT
                } else {
                    vk::ACCESS_TRANSFER_WRITE_BIT
                },
                old_layout: vk::ImageLayout::TransferDstOptimal,
                new_layout: if depth {
                    vk::ImageLayout::DepthStencilAttachmentOptimal
                } else {
                    vk::ImageLayout::TransferDstOptimal
                },
                src_queue_family_index: vk::QUEUE_FAMILY_IGNORED,
                dst_queue_family_index: vk::QUEUE_FAMILY_IGNORED,
                image: self.image,
                subresource_range: vk::whole_image(view_aspect(self.usage)),
            },
        }
    }

    /// The single pipeline barrier to record for the attachment's layout
    /// transition.
    pub fn transfer_data(&self) -> (command: Command)
        ensures
            command == self.transition(),
    {
        let depth = vk::contains(self.usage, vk::IMAGE_USAGE_DEPTH_STENCIL_ATTACHMENT_BIT);
        let dst_access_mask: u32 = if depth {
            vk::ACCESS_DEPTH_STENCIL_ATTACHMENT_READ_BIT
                | vk::ACCESS_DEPTH_STENCIL_ATTACHMENT_WRITE_BIT
        } else {
            vk::ACCESS_TRANSFER_WRITE_BIT
        };
        let new_layout = if depth {
            vk::ImageLayout::DepthStencilAttachmentOptimal
        } else {
            vk::ImageLayout::TransferDstOptimal
        };
        let aspect_mask: u32 = aspect_of(self.usage);
        Command::PipelineBarrier {
            src_stage_mask: vk::PIPELINE_STAGE_TOP_OF_PIPE_BIT,
            dst_stage_mask: vk::PIPELINE_STAGE_TOP_OF_PIPE_BIT,
            barrier: ImageMemoryBarrier {
                src_access_mask: 0,
                dst_access_mask,
                old_layout: vk::ImageLayout::TransferDstOptimal,
                new_layout,
                src_queue_family_index: vk::QUEUE_FAMILY_IGNORED,
                dst_queue_family_index: vk::QUEUE_FAMILY_IGNORED,
                image: self.image,
                subresource_range: vk::ImageSubresourceRange {
                    aspect_mask,
                    base_mip_level: 0,
                    level_count: 1,
                    base_array_layer: 0,
                    layer_count: 1,
                },
            },
        }
    }
}

/// The framebuffers of a pass match the pass: each has as many views as
/// the pass has attachments, and the last of them is the pass's depth
/// view.
pub proof fn lemma_framebuffers_match_the_pass(
    infos: Seq<FramebufferCreateInfo>,
    render_pass: vk::RenderPassHandle,
    resolution: vk::Extent2D,
    attachments: Seq<Attachment>,
    external_views: Option<Seq<vk::ImageView>>,
    i: int,
)
    requires
        attachments.len() > 0,
        is_framebuffer_plan(infos, render_pass, resolution, attachments, external_views),
        0 <= i < infos.len(),
    ensures
        infos[i].attachments@.len() == attachments.len(),
        infos[i].attachments@.last() == attachments.last().descriptor.image_view,
{
}

/// The view of an attachment and the barrier that moves it into its
/// layout name the same aspect, whatever the usage of the attachment.
pub proof fn lemma_view_and_barrier_agree(attachment: Attachment)
    ensures
        attachment.transition() matches Command::PipelineBarrier { barrier, .. }
            && barrier.subresource_range == attachment_view(
            attachment.image,
            attachment.format,
            attachment.usage,
        ).subresource_range,
{
}

impl Uniform for Attachment {
    open spec fn uniform_info(&self) -> UniformInfo {
        UniformInfo {
            descriptor_type: vk::DescriptorType::CombinedImageSampler,
            image_info: Some(self.descriptor),
            buffer_info: None,
        }
    }

    fn get_descriptor_type(&self) -> (descriptor_type: vk::DescriptorType) {
        vk::DescriptorType::CombinedImageSampler
    }

    fn image_info(&self) -> (info: Option<vk::DescriptorImageInfo>) {
        Some(self.descriptor)
    }

    fn buffer_info(&self) -> (info: Option<vk::DescriptorBufferInfo>) {
        None
    }
}

/// What happens to an attachment's contents when a pass begins.
#[derive(Clone, Copy, PartialEq, Eq, Structural, Debug)]
pub enum AttachmentLoadOp {
    Clear,
    DontCare,
}

/// What happens to an attachment's contents when a pass ends.
#[derive(Clone, Copy, PartialEq, Eq, Structural, Debug)]
pub enum AttachmentStoreOp {
    Store,
    DontCare,
}

/// How a render pass treats one of its attachments.
#[derive(Clone, Copy, PartialEq, Eq, Structural, Debug)]
pub struct AttachmentDescription {
    pub format: i32,
    pub samples: u32,
    pub load_op: AttachmentLoadOp,
    pub store_op: AttachmentStoreOp,
    pub stencil_load_op: AttachmentLoadOp,
    pub stencil_store_op: AttachmentStoreOp,
    pub initial_layout: vk::ImageLayout,
    pub final_layout: vk::ImageLayout,
}

/// An attachment of a pass as a subpass uses it.
#[derive(Clone, Copy, PartialEq, Eq, Structural, Debug)]
pub struct AttachmentReference {
    pub attachment: u32,
    pub layout: vk::ImageLayout,
}

/// An ordering between a subpass and what happens outside the pass.
#[derive(Clone, Copy, PartialEq, Eq, Structural, Debug)]
pub struct SubpassDependency {
    pub src_subpass: u32,
    pub dst_subpass: u32,
    pub src_stage_mask: u32,
    pub dst_stage_mask: u32,
    pub src_access_mask: u32,
    pub dst_access_mask: u32,
    pub dependency_flags: u32,
}

/// What a render pass with a single graphics subpass is created with.
#[derive(Clone, PartialEq, Eq, Debug)]
pub struct RenderPassCreateInfo {
    pub attachments: Vec<AttachmentDescription>,
    pub color_attachments: Vec<AttachmentReference>,
    pub depth_stencil_attachment: AttachmentReference,
    pub dependencies: Vec<SubpassDependency>,
}

/// What a framebuffer is created with.
#[derive(Clone, PartialEq, Eq, Debug)]
pub struct FramebufferCreateInfo {
    pub render_pass: vk::RenderPassHandle,
    pub attachments: Vec<vk::ImageView>,
    pub width: u32,
    pub height: u32,
    pub layers: u32,
}

/// How a pass treats an attachment of the given format that it leaves in
/// the given layout: cleared at the start, stored at the end, whatever it
/// held before is discarded, and there is no stencil to keep.
pub open spec fn description_of(format: i32, final_layout: vk::ImageLayout) -> AttachmentDescription {
    AttachmentDescription {
        format,
        samples: vk::SAMPLE_COUNT_1_BIT,
        load_op: AttachmentLoadOp::Clear,
        store_op: AttachmentStoreOp::Store,
        stencil_load_op: AttachmentLoadOp::DontCare,
        stencil_store_op: AttachmentStoreOp::DontCare,
        initial_layout: vk::ImageLayout::Undefined,
        final_layout,
    }
}

/// The dependency that makes the pass's colour output wait for whatever
/// read the attachments before the pass.
pub open spec fn dependency_in() -> SubpassDependency {
    SubpassDependency {
        src_subpass: vk::SUBPASS_EXTERNAL,
        dst_subpass: 0,
        src_stage_mask: vk::PIPELINE_STAGE_BOTTOM_OF_PIPE_BIT,
        dst_stage_mask: vk::PIPELINE_STAGE_COLOR_ATTACHMENT_OUTPUT_BIT,
        src_access_mask: vk::ACCESS_MEMORY_READ_BIT,
        dst_access_mask: vk::ACCESS_COLOR_ATTACHMENT_READ_BIT
            | vk::ACCESS_COLOR_ATTACHMENT_WRITE_BIT,
        dependency_flags: vk::DEPENDENCY_BY_REGION_BIT,
    }
}

/// The dependency that makes whatever uses the attachments after the pass
/// wait for the pass's colour output.
pub open spec fn dependency_out() -> SubpassDependency {
    SubpassDependency {
        src_subpass: 0,
        dst_subpass: vk::SUBPASS_EXTERNAL,
        src_stage_mask: vk::PIPELINE_STAGE_COLOR_ATTACHMENT_OUTPUT_BIT,
        dst_stage_mask: vk::PIPELINE_STAGE_COLOR_ATTACHMENT_OUTPUT_BIT,
        src_access_mask: 0,
        dst_access_mask: vk::ACCESS_COLOR_ATTACHMENT_READ_BIT
            | vk::ACCESS_COLOR_ATTACHMENT_WRITE_BIT,
        dependency_flags: vk::DEPENDENCY_BY_REGION_BIT,
    }
}

/// Whether `info` describes the pass over the given colour requests
/// followed by the depth request: one description per request in that
/// order, colour reference `i` pointing at attachment `i`, the depth
/// reference pointing at the attachment after the last colour attachment,
/// and the two dependencies that bracket the pass.
pub open spec fn is_render_pass_info(
    info: RenderPassCreateInfo,
    colour_req: Seq<(i32, u32, vk::ImageLayout)>,
    depth_req: (i32, u32, vk::ImageLayout),
) -> bool {
    &&& info.attachments@.len() == colour_req.len() + 1
    &&& forall|i: int|
        0 <= i < colour_req.len() ==> #[trigger] info.attachments@[i] == description_of(
            colour_req[i].0,
            colour_req[i].2,
        )
    &&& info.attachments@[colour_req.len() as int] == description_of(depth_req.0, depth_req.2)
    &&& info.color_attachments@.len() == colour_req.len()
    &&& forall|i: int|
        0 <= i < colour_req.len() ==> #[trigger] info.color_attachments@[i] == (AttachmentReference {
            attachment: i as u32,
            layout: vk::ImageLayout::ColorAttachmentOptimal,
        })
    &&& info.depth_stencil_attachment == (AttachmentReference {
        attachment: colour_req.len() as u32,
        layout: vk::ImageLayout::DepthStencilAttachmentOptimal,
    })
    &&& info.dependencies@ == seq![dependency_in(), dependency_out()]
}

/// Whether a pass over the given attachments, colour first and depth last,
/// can have framebuffers that match it: a pass that draws to views from
/// outside has one colour attachment, in whose place the view stands.
pub open spec fn views_match_pass(
    attachments: Seq<Attachment>,
    external_views: Option<Seq<vk::ImageView>>,
) -> bool {
    external_views is Some ==> attachments.len() == 2
}

/// Whether `infos` are the framebuffers of a pass over the given
/// attachments, colour first and depth last. With views from outside there
/// is one framebuffer per view, made of that view and the pass's own depth
/// view. Without, there is one framebuffer, made of the views of all the
/// pass's own attachments in their order. Either way a framebuffer has a
/// view for every attachment of the pass, in the order of the attachments.
pub open spec fn is_framebuffer_plan(
    infos: Seq<FramebufferCreateInfo>,
    render_pass: vk::RenderPassHandle,
    resolution: vk::Extent2D,
    attachments: Seq<Attachment>,
    external_views: Option<Seq<vk::ImageView>>,
) -> bool {
    let depth_view = attachments[attachments.len() - 1].descriptor.image_view;
    &&& views_match_pass(attachments, external_views)
    &&& forall|i: int|
        0 <= i < infos.len() ==> {
            &&& (#[trigger] infos[i]).render_pass == render_pass
            &&& infos[i].width == resolution.width
            &&& infos[i].height == resolution.height
            &&& infos[i].layers == 1
        }
    &&& match external_views {
        Some(views) => {
            &&& infos.len() == views.len()
            &&& forall|i: int|
                0 <= i < views.len() ==> (#[trigger] infos[i]).attachments@ == seq![
                    views[i],
                    depth_view,
                ]
        },
        None => {
            &&& infos.len() == 1
            &&& infos[0].attachments@ == Seq::new(
                attachments.len(),
                |k: int| attachments[k].descriptor.image_view,
            )
        },
    }
}

/// A node of the render graph: its attachments, the pass object and the
/// framebuffers it draws into.
#[derive(Clone, PartialEq, Eq, Debug)]
pub struct RenderPass {
    pub resolution: vk::Extent2D,
    pub colour_attachments: Vec<Attachment>,
    pub depth: Attachment,
    pub frame_buffers: Vec<vk::Framebuffer>,
    pub memory: vk::DeviceMemory,
    pub sampler: vk::Sampler,
    pub render_pass: vk::RenderPassHandle,
}

/// The views of a list of attachments.
fn views_of(attachments: &Vec<Attachment>) -> (views: Vec<vk::ImageView>)
    ensures
        views@ == Seq::new(attachments@.len(), |k: int| attachments@[k].descriptor.image_view),
{
    let mut views: Vec<vk::ImageView> = Vec::new();
    let mut i: usize = 0;
    while i < attachments.len()
        invariant
            i <= attachments.len(),
            views@.len() == i,
            forall|k: int|
                0 <= k < i ==> #[trigger] views@[k] == attachments@[k].descriptor.image_view,
        decreases attachments.len() - i,
    {
        views.push(attachments[i].descriptor.image_view);
        i += 1;
    }
    assert(views@ =~= Seq::new(
        attachments@.len(),
        |k: int| attachments@[k].descriptor.image_view,
    ));
    views
}

impl RenderPass {
    /// The sampler through which a later pass reads the attachments: the
    /// nearest texel, clamped at the edges.
    pub fn sampler_info() -> (info: vk::SamplerCreateInfo)
        ensures
            info == (vk::SamplerCreateInfo {
                mag_filter: vk::Filter::Nearest,
                min_filter: vk::Filter::Nearest,
                address_mode: vk::SamplerAddressMode::ClampToEdge,
                max_lod: vk::F32_ONE,
                max_anisotropy: vk::F32_ONE,
            }),
    {
        vk::SamplerCreateInfo {
            mag_filter: vk::Filter::Nearest,
            min_filter: vk::Filter::Nearest,
            address_mode: vk::SamplerAddressMode::ClampToEdge,
            max_lod: vk::F32_ONE,
            max_anisotropy: vk::F32_ONE,
        }
    }

    /// The requests for the pass's own attachments: the colour requests in
    /// their order, then the depth request.
    pub fn attachment_requests(
        colour_req: &Vec<(i32, u32, vk::ImageLayout)>,
        depth_req: (i32, u32, vk::ImageLayout),
    ) -> (req: Vec<(i32, u32, vk::ImageLayout)>)
        ensures
            req@ == colour_req@.push(depth_req),
    {
        let mut req: Vec<(i32, u32, vk::ImageLayout)> = Vec::new();
        let mut i: usize = 0;
        while i < colour_req.len()
            invariant
                i <= colour_req.len(),
                req@ == colour_req@.subrange(0, i as int),
            decreases colour_req.len() - i,
        {
            req.push(colour_req[i]);
            i += 1;
            assert(req@ =~= colour_req@.subrange(0, i as int));
        }
        assert(colour_req@.subrange(0, colour_req.len() as int) =~= colour_req@);
        req.push(depth_req);
        req
    }

    /// The pass object to create for the given colour requests and depth
    /// request. A pass has at least one colour attachment, and its
    /// attachments are numbered in 32 bits.
    pub fn create_info(
        colour_req: &Vec<(i32, u32, vk::ImageLayout)>,
        depth_req: (i32, u32, vk::ImageLayout),
    ) -> (info: RenderPassCreateInfo)
        requires
            0 < colour_req@.len() <= u32::MAX,
        ensures
            is_render_pass_info(info, colour_req@, depth_req),
    {
        let mut attachments: Vec<AttachmentDescription> = Vec::new();
        let mut color_attachments: Vec<AttachmentReference> = Vec::new();
        let mut i: usize = 0;
        while i < colour_req.len()
            invariant
                i <= colour_req.len(),
                colour_req@.len() <= u32::MAX,
                attachments@.len() == i,
                color_attachments@.len() == i,
                forall|k: int|
                    0 <= k < i ==> #[trigger] attachments@[k] == description_of(
                        colour_req@[k].0,
                        colour_req@[k].2,
                    ),
                forall|k: int|
                    0 <= k < i ==> #[trigger] color_attachments@[k] == (AttachmentReference {
                        attachment: k as u32,
                        layout: vk::ImageLayout::ColorAttachmentOptimal,
                    }),
            decreases colour_req.len() - i,
        {
            let (format, _, final_layout) = colour_req[i];
            attachments.push(RenderPass::describe(format, final_layout));
            color_attachments.push(
                AttachmentReference {
                    attachment: i as u32,
                    layout: vk::ImageLayout::ColorAttachmentOptimal,
                },
            );
            i += 1;
        }
        attachments.push(RenderPass::describe(depth_req.0, depth_req.2));
        let depth_stencil_attachment = AttachmentReference {
            attachment: color_attachments.len() as u32,
            layout: vk::ImageLayout::DepthStencilAttachmentOptimal,
        };
        let mut dependencies: Vec<SubpassDependency> = Vec::new();
        dependencies.push(
            SubpassDependency {
                src_subpass: vk::SUBPASS_EXTERNAL,
                dst_subpass: 0,
                src_stage_mask: vk::PIPELINE_STAGE_BOTTOM_OF_PIPE_BIT,
                dst_stage_mask: vk::PIPELINE_STAGE_COLOR_ATTACHMENT_OUTPUT_BIT,
                src_access_mask: vk::ACCESS_MEMORY_READ_BIT,
                dst_access_mask: vk::ACCESS_COLOR_ATTACHMENT_READ_BIT
                    | vk::ACCESS_COLOR_ATTACHMENT_WRITE_BIT,
                dependency_flags: vk::DEPENDENCY_BY_REGION_BIT,
            },
        );
        dependencies.push(
            SubpassDependency {
                src_subpass: 0,
                dst_subpass: vk::SUBPASS_EXTERNAL,
                src_stage_mask: vk::PIPELINE_STAGE_COLOR_ATTACHMENT_OUTPUT_BIT,
                dst_stage_mask: vk::PIPELINE_STAGE_COLOR_ATTACHMENT_OUTPUT_BIT,
                src_access_mask: 0,
                dst_access_mask: vk::ACCESS_COLOR_ATTACHMENT_READ_BIT
                    | vk::ACCESS_COLOR_ATTACHMENT_WRITE_BIT,
                dependency_flags: vk::DEPENDENCY_BY_REGION_BIT,
            },
        );
        assert(dependencies@ =~= seq![dependency_in(), dependency_out()]);
        RenderPassCreateInfo { attachments, color_attachments, depth_stencil_attachment, dependencies }
    }

    fn describe(format: i32, final_layout: vk::ImageLayout) -> (description: AttachmentDescription)
        ensures
            description == description_of(format, final_layout),
    {
        AttachmentDescription {
            format,
            samples: vk::SAMPLE_COUNT_1_BIT,
            load_op: AttachmentLoadOp::Clear,
            store_op: AttachmentStoreOp::Store,
            stencil_load_op: AttachmentLoadOp::DontCare,
            stencil_store_op: AttachmentStoreOp::DontCare,
            initial_layout: vk::ImageLayout::Undefined,
            final_layout,
        }
    }

    /// The framebuffers to create for a pass whose own attachments are
    /// `attachments`, colour first and depth last. There are none for a
    /// pass that is to draw to views from outside and has more than one
    /// colour attachment: no framebuffer of such a view would match it.
    pub fn framebuffer_infos(
        render_pass: vk::RenderPassHandle,
        resolution: vk::Extent2D,
        attachments: &Vec<Attachment>,
        frame_buffer_image_views: Option<&Vec<vk::ImageView>>,
    ) -> (infos: Option<Vec<FramebufferCreateInfo>>)
        requires
            attachments@.len() > 0,
        ensures
            infos is Some <==> views_match_pass(
                attachments@,
                match frame_buffer_image_views {
                    Some(views) => Some(views@),
                    None => None,
                },
            ),
            infos matches Some(made) ==> is_framebuffer_plan(
                made@,
                render_pass,
                resolution,
                attachments@,
                match frame_buffer_image_views {
                    Some(views) => Some(views@),
                    None => None,
                },
            ),
    {
        let mut infos: Vec<FramebufferCreateInfo> = Vec::new();
        match frame_buffer_image_views {
            Some(f) => {
                if attachments.len() != 2 {
                    return None;
                }
                let depth_view = attachments[attachments.len() - 1].descriptor.image_view;
                let mut i: usize = 0;
                while i < f.len()
                    invariant
                        i <= f.len(),
                        infos@.len() == i,
                        forall|k: int|
                            0 <= k < i ==> {
                                &&& (#[trigger] infos@[k]).render_pass == render_pass
                                &&& infos@[k].width == resolution.width
                                &&& infos@[k].height == resolution.height
                                &&& infos@[k].layers == 1
                                &&& infos@[k].attachments@ == seq![f@[k], depth_view]
                            },
                    decreases f.len() - i,
                {
                    let mut framebuffer_attachments: Vec<vk::ImageView> = Vec::new();
                    framebuffer_attachments.push(f[i]);
                    framebuffer_attachments.push(depth_view);
                    assert(framebuffer_attachments@ =~= seq![f@[i as int], depth_view]);
                    infos.push(
                        FramebufferCreateInfo {
                            render_pass,
                            attachments: framebuffer_attachments,
                            width: resolution.width,
                            height: resolution.height,
                            layers: 1,
                        },
                    );
                    i += 1;
                }
            },
            None => {
                infos.push(
                    FramebufferCreateInfo {
                        render_pass,
                        attachments: views_of(attachments),
                        width: resolution.width,
                        height: resolution.height,
                        layers: 1,
                    },
                );
            },
        }
        Some(infos)
    }

    /// Whether the pass is put together the way `assemble` does it: it has a
    /// colour attachment, as many attachments as can be numbered, and
    /// framebuffers that match it. A pass with several colour attachments
    /// draws into its own, through the one framebuffer of all of them;
    /// only a pass with one colour attachment draws to views handed to it,
    /// through a framebuffer for every view.
    pub open spec fn wf(&self) -> bool {
        &&& 0 < self.colour_attachments@.len() < u32::MAX
        &&& self.frame_buffers@.len() == 1 || self.colour_attachments@.len() == 1
    }

    /// Puts the pass together from what was created for it. `attachments`
    /// are the pass's own attachments, colour first and depth last.
    /// Nothing is returned unless there is a colour attachment besides the
    /// depth attachment, exactly one if the pass draws to views from
    /// outside, and there are exactly the framebuffers that
    /// `framebuffer_infos` asks for.
    pub fn assemble(
        resolution: vk::Extent2D,
        sampler: vk::Sampler,
        memory: vk::DeviceMemory,
        render_pass: vk::RenderPassHandle,
        attachments: Vec<Attachment>,
        frame_buffers: Vec<vk::Framebuffer>,
        frame_buffer_image_views: Option<&Vec<vk::ImageView>>,
    ) -> (pass: Option<RenderPass>)
        ensures
            pass is Some <==> {
                &&& 2 <= attachments@.len() <= u32::MAX
                &&& frame_buffer_image_views is Some ==> attachments@.len() == 2
                &&& frame_buffers@.len() == match frame_buffer_image_views {
                    Some(views) => views@.len(),
                    None => 1,
                }
            },
            pass matches Some(p) ==> {
                &&& p.wf()
                &&& p.resolution == resolution
                &&& p.sampler == sampler
                &&& p.memory == memory
                &&& p.render_pass == render_pass
                &&& p.colour_attachments@ == attachments@.drop_last()
                &&& p.depth == attachments@.last()
                &&& p.frame_buffers@ == frame_buffers@
            },
    {
        let expected: usize = match frame_buffer_image_views {
            Some(f) => f.len(),
            None => 1,
        };
        if attachments.len() < 2 || attachments.len() > u32::MAX as usize || frame_buffers.len()
            != expected {
            return None;
        }
        if frame_buffer_image_views.is_some() && attachments.len() != 2 {
            return None;
        }
        let mut attachments = attachments;
        let depth = match attachments.pop() {
            Some(depth) => depth,
            None => {
                return None;
            },
        };
        Some(
            RenderPass {
                resolution,
                colour_attachments: attachments,
                depth,
                frame_buffers,
                memory,
                sampler,
                render_pass,
            },
        )
    }

    /// Whether `recording` is what the pass records into `command_buffer`
    /// for its framebuffer `index`: the buffer is begun for simultaneous
    /// use, the pass is begun on that framebuffer over the whole
    /// resolution with every colour attachment cleared to zero and depth
    /// cleared to one, the body follows, and the pass is ended. The
    /// command buffer is ended with the recording.
    pub open spec fn is_recording(
        &self,
        recording: Recording,
        command_buffer: vk::CommandBuffer,
        index: int,
        body: Seq<Command>,
    ) -> bool {
        &&& recording.command_buffer == command_buffer
        &&& recording.usage == vk::COMMAND_BUFFER_USAGE_SIMULTANEOUS_USE_BIT
        &&& recording.render_pass_begin matches Some(begin)
        &&& begin.render_pass == self.render_pass
        &&& begin.framebuffer == self.frame_buffers@[index]
        &&& begin.render_area == (vk::Rect2D {
            offset: vk::Offset2D { x: 0, y: 0 },
            extent: self.resolution,
        })
        &&& begin.clear_values@ == clear_values_of(self.colour_attachments@.len())
        &&& recording.commands@ == body.push(Command::EndRenderPass)
    }

    /// What to record into each of `commands`: command buffer `i` begins
    /// the pass on framebuffer `i`, draws the body, and ends the pass.
    /// There must be a framebuffer for every command buffer.
    pub fn record_commands(&self, commands: &Vec<vk::CommandBuffer>, body: &Vec<Command>) -> (recordings:
        Vec<Recording>)
        requires
            commands@.len() <= self.frame_buffers@.len(),
        ensures
            recordings@.len() == commands@.len(),
            forall|i: int|
                0 <= i < commands@.len() ==> self.is_recording(
                    #[trigger] recordings@[i],
                    commands@[i],
                    i,
                    body@,
                ),
    {
        let mut recordings: Vec<Recording> = Vec::new();
        let mut i: usize = 0;
        while i < commands.len()
            invariant
                i <= commands.len(),
                commands@.len() <= self.frame_buffers@.len(),
                recordings@.len() == i,
                forall|k: int|
                    0 <= k < i ==> self.is_recording(
                        #[trigger] recordings@[k],
                        commands@[k],
                        k,
                        body@,
                    ),
            decreases commands.len() - i,
        {
            let render_pass_begin_info = RenderPassBeginInfo {
                render_pass: self.render_pass,
                framebuffer: self.frame_buffers[i],
                render_area: vk::Rect2D {
                    offset: vk::Offset2D { x: 0, y: 0 },
                    extent: self.resolution,
                },
                clear_values: clear_values(self.colour_attachments.len()),
            };
            let mut recorded = copy_commands(body);
            recorded.push(Command::EndRenderPass);
            recordings.push(
                Recording {
                    command_buffer: commands[i],
                    usage: vk::COMMAND_BUFFER_USAGE_SIMULTANEOUS_USE_BIT,
                    render_pass_begin: Some(render_pass_begin_info),
                    commands: recorded,
                },
            );
            i += 1;
        }
        recordings
    }

    /// The pass's colour attachments as sampled images for the fragment
    /// stage of a later pass: attachment `i` at binding `offset + i` of
    /// descriptor set `set`. Nothing when a binding number does not fit.
    pub fn attachment_to_uniform(&self, set: u32, offset: u32) -> (uniforms: Option<
        Vec<UniformDescriptor>,
    >)
        ensures
            uniforms is Some <==> self.colour_attachments@.len() == 0 || offset
                + self.colour_attachments@.len() - 1 <= u32::MAX,
            uniforms matches Some(v) ==> {
                &&& v@.len() == self.colour_attachments@.len()
                &&& forall|i: int|
                    0 <= i < v@.len() ==> #[trigger] v@[i] == (UniformDescriptor {
                        data: self.colour_attachments@[i].uniform_info(),
                        stage: vk::SHADER_STAGE_FRAGMENT_BIT,
                        binding: (offset + i) as u32,
                        set,
                    })
            },
    {
        let mut uniforms: Vec<UniformDescriptor> = Vec::new();
        let mut i: usize = 0;
        while i < self.colour_attachments.len()
            invariant
                i <= self.colour_attachments@.len(),
                uniforms@.len() == i,
                i > 0 ==> offset + i - 1 <= u32::MAX,
                forall|k: int|
                    0 <= k < i ==> #[trigger] uniforms@[k] == (UniformDescriptor {
                        data: self.colour_attachments@[k].uniform_info(),
                        stage: vk::SHADER_STAGE_FRAGMENT_BIT,
                        binding: (offset + k) as u32,
                        set,
                    }),
            decreases self.colour_attachments@.len() - i,
        {
            if i > (u32::MAX - offset) as usize {
                return None;
            }
            let binding: u32 = i as u32 + offset;
            uniforms.push(
                UniformDescriptor::new(
                    &self.colour_attachments[i],
                    vk::SHADER_STAGE_FRAGMENT_BIT,
                    binding,
                    set,
                ),
            );
            i += 1;
        }
        Some(uniforms)
    }

    /// The objects the pass owns, in the order in which they are
    /// destroyed: the framebuffers, the pass object, the sampler, view and
    /// image of each colour attachment, view and image of the depth
    /// attachment, and last the memory block behind the images.
    pub open spec fn owned(&self) -> Seq<vk::Object> {
        Seq::new(self.frame_buffers@.len(), |i: int| vk::Object::Framebuffer(self.frame_buffers@[i]))
            + seq![vk::Object::RenderPass(self.render_pass), vk::Object::Sampler(self.sampler)]
            + Seq::new(
            2 * self.colour_attachments@.len(),
            |i: int|
                if i % 2 == 0 {
                    vk::Object::ImageView(self.colour_attachments@[i / 2].descriptor.image_view)
                } else {
                    vk::Object::Image(self.colour_attachments@[i / 2].image)
                },
        ) + seq![
            vk::Object::ImageView(self.depth.descriptor.image_view),
            vk::Object::Image(self.depth.image),
            vk::Object::DeviceMemory(self.memory),
        ]
    }

    /// A pass releases dependents before what they depend on: its
    /// framebuffers go first and nothing after them is a framebuffer, the
    /// view of each attachment goes right before its image, and the memory
    /// behind the images goes last.
    pub proof fn lemma_release_order(&self, k: int)
        requires
            0 <= k < self.colour_attachments@.len(),
        ensures
            forall|i: int|
                0 <= i < self.owned().len() ==> ((#[trigger] self.owned()[i]) is Framebuffer <==> i
                    < self.frame_buffers@.len()),
            self.owned()[self.frame_buffers@.len() + 2 + 2 * k] == vk::Object::ImageView(
                self.colour_attachments@[k].descriptor.image_view,
            ),
            self.owned()[self.frame_buffers@.len() + 3 + 2 * k] == vk::Object::Image(
                self.colour_attachments@[k].image,
            ),
            self.owned().len() == self.frame_buffers@.len() + 2 * self.colour_attachments@.len()
                + 5,
            self.owned()[self.owned().len() - 3] == vk::Object::ImageView(
                self.depth.descriptor.image_view,
            ),
            self.owned()[self.owned().len() - 2] == vk::Object::Image(self.depth.image),
            self.owned().last() == vk::Object::DeviceMemory(self.memory),
    {
        let m = self.frame_buffers@.len() as int;
        let c = self.colour_attachments@.len() as int;
        let frames = Seq::new(
            self.frame_buffers@.len(),
            |i: int| vk::Object::Framebuffer(self.frame_buffers@[i]),
        );
        let fixed = seq![vk::Object::RenderPass(self.render_pass), vk::Object::Sampler(self.sampler)];
        let colours = Seq::new(
            2 * self.colour_attachments@.len(),
            |i: int|
                if i % 2 == 0 {
                    vk::Object::ImageView(self.colour_attachments@[i / 2].descriptor.image_view)
                } else {
                    vk::Object::Image(self.colour_attachments@[i / 2].image)
                },
        );
        let tail = seq![
            vk::Object::ImageView(self.depth.descriptor.image_view),
            vk::Object::Image(self.depth.image),
            vk::Object::DeviceMemory(self.memory),
        ];
        assert(self.owned() == frames + fixed + colours + tail);
        assert(colours[2 * k] == vk::Object::ImageView(
            self.colour_attachments@[k].descriptor.image_view,
        ));
        assert(colours[2 * k + 1] == vk::Object::Image(self.colour_attachments@[k].image));
        assert forall|i: int| 0 <= i < self.owned().len() implies ((#[trigger] self.owned()[i])
            is Framebuffer <==> i < m) by {
            if i < m {
                assert(self.owned()[i] == frames[i]);
            } else if i < m + 2 {
                assert(self.owned()[i] == fixed[i - m]);
            } else if i < m + 2 + 2 * c {
                assert(self.owned()[i] == colours[i - m - 2]);
            } else {
                assert(self.owned()[i] == tail[i - m - 2 - 2 * c]);
            }
        }
    }

    /// What has to be destroyed to release the pass, in order.
    pub fn release(&self) -> (objects: Vec<vk::Object>)
        ensures
            objects@ == self.owned(),
    {
        let mut objects: Vec<vk::Object> = Vec::new();
        let mut i: usize = 0;
        while i < self.frame_buffers.len()
            invariant
                i <= self.frame_buffers@.len(),
                objects@ == Seq::new(
                    i as nat,
                    |k: int| vk::Object::Framebuffer(self.frame_buffers@[k]),
                ),
            decreases self.frame_buffers@.len() - i,
        {
            objects.push(vk::Object::Framebuffer(self.frame_buffers[i]));
            i += 1;
            assert(objects@ =~= Seq::new(
                i as nat,
                |k: int| vk::Object::Framebuffer(self.frame_buffers@[k]),
            ));
        }
        objects.push(vk::Object::RenderPass(self.render_pass));
        objects.push(vk::Object::Sampler(self.sampler));
        let ghost head = objects@;
        assert(head =~= Seq::new(
            self.frame_buffers@.len(),
            |k: int| vk::Object::Framebuffer(self.frame_buffers@[k]),
        ) + seq![vk::Object::RenderPass(self.render_pass), vk::Object::Sampler(self.sampler)]);
        let mut j: usize = 0;
        while j < self.colour_attachments.len()
            invariant
                j <= self.colour_attachments@.len(),
                objects@ == head + Seq::new(
                    2 * (j as nat),
                    |i: int|
                        if i % 2 == 0 {
                            vk::Object::ImageView(
                                self.colour_attachments@[i / 2].descriptor.image_view,
                            )
                        } else {
                            vk::Object::Image(self.colour_attachments@[i / 2].image)
                        },
                ),
            decreases self.colour_attachments@.len() - j,
        {
            objects.push(vk::Object::ImageView(self.colour_attachments[j].descriptor.image_view));
            objects.push(vk::Object::Image(self.colour_attachments[j].image));
            j += 1;
            assert(objects@ =~= head + Seq::new(
                2 * (j as nat),
                |i: int|
                    if i % 2 == 0 {
                        vk::Object::ImageView(self.colour_attachments@[i / 2].descriptor.image_view)
                    } else {
                        vk::Object::Image(self.colour_attachments@[i / 2].image)
                    },
            ));
        }
        objects.push(vk::Object::ImageView(self.depth.descriptor.image_view));
        objects.push(vk::Object::Image(self.depth.image));
        objects.push(vk::Object::DeviceMemory(self.memory));
        assert(objects@ =~= self.owned());
        objects
    }
}

} // verus!
