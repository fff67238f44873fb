//! Plain-data mirror of the part of the graphics API that the engine reasons
//! about: object handles, bit masks, enumerations and small value structs.
//!
//! Nothing here talks to a driver. Handles are the raw 64-bit values the
//! driver handed out; bit masks and formats keep the numeric values of the
//! API so that they can be passed through unchanged.
use vstd::prelude::*;

verus! {

/// Bits of a memory type's property mask.
pub const MEMORY_PROPERTY_DEVICE_LOCAL_BIT: u32 = 0x1;
pub const MEMORY_PROPERTY_HOST_VISIBLE_BIT: u32 = 0x2;
pub const MEMORY_PROPERTY_HOST_COHERENT_BIT: u32 = 0x4;

/// Bits of an image usage mask.
pub const IMAGE_USAGE_TRANSFER_DST_BIT: u32 = 0x2;
pub const IMAGE_USAGE_SAMPLED_BIT: u32 = 0x4;
pub const IMAGE_USAGE_COLOR_ATTACHMENT_BIT: u32 = 0x10;
pub const IMAGE_USAGE_DEPTH_STENCIL_ATTACHMENT_BIT: u32 = 0x20;

/// Bits of an image aspect mask.
pub const IMAGE_ASPECT_COLOR_BIT: u32 = 0x1;
pub const IMAGE_ASPECT_DEPTH_BIT: u32 = 0x2;

/// Bits of a memory access mask.
pub const ACCESS_SHADER_READ_BIT: u32 = 0x20;
pub const ACCESS_COLOR_ATTACHMENT_READ_BIT: u32 = 0x80;
pub const ACCESS_COLOR_ATTACHMENT_WRITE_BIT: u32 = 0x100;
pub const ACCESS_DEPTH_STENCIL_ATTACHMENT_READ_BIT: u32 = 0x200;
pub const ACCESS_DEPTH_STENCIL_ATTACHMENT_WRITE_BIT: u32 = 0x400;
pub const ACCESS_TRANSFER_WRITE_BIT: u32 = 0x1000;
pub const ACCESS_MEMORY_READ_BIT: u32 = 0x8000;

/// Bits of a pipeline stage mask.
pub const PIPELINE_STAGE_TOP_OF_PIPE_BIT: u32 = 0x1;
pub const PIPELINE_STAGE_COLOR_ATTACHMENT_OUTPUT_BIT: u32 = 0x400;
pub const PIPELINE_STAGE_BOTTOM_OF_PIPE_BIT: u32 = 0x2000;

/// Bits of a buffer usage mask.
pub const BUFFER_USAGE_TRANSFER_SRC_BIT: u32 = 0x1;
pub const BUFFER_USAGE_TRANSFER_DST_BIT: u32 = 0x2;
pub const BUFFER_USAGE_UNIFORM_BUFFER_BIT: u32 = 0x10;
pub const BUFFER_USAGE_INDEX_BUFFER_BIT: u32 = 0x40;
pub const BUFFER_USAGE_VERTEX_BUFFER_BIT: u32 = 0x80;

/// Bits of a queue family's capability mask.
pub const QUEUE_GRAPHICS_BIT: u32 = 0x1;

/// Bits of a shader stage mask.
pub const SHADER_STAGE_VERTEX_BIT: u32 = 0x1;
pub const SHADER_STAGE_FRAGMENT_BIT: u32 = 0x10;

/// Bits of a command buffer usage mask.
pub const COMMAND_BUFFER_USAGE_ONE_TIME_SUBMIT_BIT: u32 = 0x1;
pub const COMMAND_BUFFER_USAGE_SIMULTANEOUS_USE_BIT: u32 = 0x4;

pub const COMMAND_POOL_CREATE_RESET_COMMAND_BUFFER_BIT: u32 = 0x2;
pub const COMMAND_BUFFER_RESET_RELEASE_RESOURCES_BIT: u32 = 0x1;
pub const DEPENDENCY_BY_REGION_BIT: u32 = 0x1;
pub const SAMPLE_COUNT_1_BIT: u32 = 0x1;
pub const COLOR_COMPONENT_ALL: u32 = 0xf;
pub const CULL_MODE_NONE: u32 = 0;

/// Bits of a surface transform mask.
pub const SURFACE_TRANSFORM_IDENTITY_BIT_KHR: u32 = 0x1;
pub const COMPOSITE_ALPHA_OPAQUE_BIT_KHR: u32 = 0x1;

/// Bits of a debug report mask.
pub const DEBUG_REPORT_WARNING_BIT_EXT: u32 = 0x2;
pub const DEBUG_REPORT_PERFORMANCE_WARNING_BIT_EXT: u32 = 0x4;
pub const DEBUG_REPORT_ERROR_BIT_EXT: u32 = 0x8;

/// Pixel formats, by their numeric value in the API.
pub const FORMAT_UNDEFINED: i32 = 0;
pub const FORMAT_B8G8R8_UNORM: i32 = 30;
pub const FORMAT_R8G8B8A8_UNORM: i32 = 37;
pub const FORMAT_R16G16B16A16_SFLOAT: i32 = 97;
pub const FORMAT_R32G32B32A32_SFLOAT: i32 = 109;
pub const FORMAT_D16_UNORM: i32 = 124;

/// Presentation modes, by their numeric value in the API.
pub const PRESENT_MODE_MAILBOX_KHR: i32 = 1;
pub const PRESENT_MODE_FIFO_KHR: i32 = 2;

/// The subpass index that stands for everything outside a render pass.
pub const SUBPASS_EXTERNAL: u32 = 0xffff_ffff;
/// The queue family index of a barrier that transfers no ownership.
pub const QUEUE_FAMILY_IGNORED: u32 = 0xffff_ffff;
/// The range that stands for "to the end of the buffer".
pub const WHOLE_SIZE: u64 = 0xffff_ffff_ffff_ffff;

/// Bit patterns of the single-precision numbers the engine passes on.
pub const F32_ZERO: u32 = 0;
pub const F32_ONE: u32 = 0x3f80_0000;

/// Whether every bit of `wanted` is set in `mask`.
pub open spec fn has_all(mask: u32, wanted: u32) -> bool {
    mask & wanted == wanted
}

/// Whether every bit of `wanted` is set in `mask`.
pub fn contains(mask: u32, wanted: u32) -> (r: bool)
    ensures
        r == has_all(mask, wanted),
{
    mask & wanted == wanted
}

#[derive(Clone, Copy, PartialEq, Eq, Structural, Debug)]
pub struct DeviceMemory(pub u64);

#[derive(Clone, Copy, PartialEq, Eq, Structural, Debug)]
pub struct Buffer(pub u64);

#[derive(Clone, Copy, PartialEq, Eq, Structural, Debug)]
pub struct Image(pub u64);

#[derive(Clone, Copy, PartialEq, Eq, Structural, Debug)]
pub struct ImageView(pub u64);

#[derive(Clone, Copy, PartialEq, Eq, Structural, Debug)]
pub struct Sampler(pub u64);

#[derive(Clone, Copy, PartialEq, Eq, Structural, Debug)]
pub struct Framebuffer(pub u64);

#[derive(Clone, Copy, PartialEq, Eq, Structural, Debug)]
pub struct RenderPassHandle(pub u64);

#[derive(Clone, Copy, PartialEq, Eq, Structural, Debug)]
pub struct Semaphore(pub u64);

#[derive(Clone, Copy, PartialEq, Eq, Structural, Debug)]
pub struct Fence(pub u64);

#[derive(Clone, Copy, PartialEq, Eq, Structural, Debug)]
pub struct CommandPool(pub u64);

#[derive(Clone, Copy, PartialEq, Eq, Structural, Debug)]
pub struct CommandBuffer(pub u64);

#[derive(Clone, Copy, PartialEq, Eq, Structural, Debug)]
pub struct Pipeline(pub u64);

#[derive(Clone, Copy, PartialEq, Eq, Structural, Debug)]
pub struct PipelineLayout(pub u64);

#[derive(Clone, Copy, PartialEq, Eq, Structural, Debug)]
pub struct DescriptorSetLayout(pub u64);

#[derive(Clone, Copy, PartialEq, Eq, Structural, Debug)]
pub struct DescriptorPool(pub u64);

#[derive(Clone, Copy, PartialEq, Eq, Structural, Debug)]
pub struct DescriptorSet(pub u64);

#[derive(Clone, Copy, PartialEq, Eq, Structural, Debug)]
pub struct ShaderModule(pub u64);

#[derive(Clone, Copy, PartialEq, Eq, Structural, Debug)]
pub struct SurfaceKHR(pub u64);

#[derive(Clone, Copy, PartialEq, Eq, Structural, Debug)]
pub struct SwapchainKHR(pub u64);

#[derive(Clone, Copy, PartialEq, Eq, Structural, Debug)]
pub struct DebugReportCallback(pub u64);

#[derive(Clone, Copy, PartialEq, Eq, Structural, Debug)]
pub struct Extent2D {
    pub width: u32,
    pub height: u32,
}

#[derive(Clone, Copy, PartialEq, Eq, Structural, Debug)]
pub struct Extent3D {
    pub width: u32,
    pub height: u32,
    pub depth: u32,
}

#[derive(Clone, Copy, PartialEq, Eq, Structural, Debug)]
pub struct Offset2D {
    pub x: i32,
    pub y: i32,
}

#[derive(Clone, Copy, PartialEq, Eq, Structural, Debug)]
pub struct Rect2D {
    pub offset: Offset2D,
    pub extent: Extent2D,
}

/// The layouts an image passes through in this engine.
#[derive(Clone, Copy, PartialEq, Eq, Structural, Debug)]
pub enum ImageLayout {
    Undefined,
    General,
    ColorAttachmentOptimal,
    DepthStencilAttachmentOptimal,
    ShaderReadOnlyOptimal,
    TransferDstOptimal,
    PresentSrcKhr,
}

/// How one channel of an image view is sourced.
#[derive(Clone, Copy, PartialEq, Eq, Structural, Debug)]
pub enum ComponentSwizzle {
    Identity,
    R,
    G,
    B,
    A,
}

#[derive(Clone, Copy, PartialEq, Eq, Structural, Debug)]
pub struct ComponentMapping {
    pub r: ComponentSwizzle,
    pub g: ComponentSwizzle,
    pub b: ComponentSwizzle,
    pub a: ComponentSwizzle,
}

/// The part of an image that a view or a barrier covers. The engine only
/// ever addresses the single mip level and array layer of a 2D image.
#[derive(Clone, Copy, PartialEq, Eq, Structural, Debug)]
pub struct ImageSubresourceRange {
    pub aspect_mask: u32,
    pub base_mip_level: u32,
    pub level_count: u32,
    pub base_array_layer: u32,
    pub layer_count: u32,
}

/// The range of a single-level, single-layer image with the given aspect.
pub open spec fn whole_image(aspect_mask: u32) -> ImageSubresourceRange {
    ImageSubresourceRange {
        aspect_mask,
        base_mip_level: 0,
        level_count: 1,
        base_array_layer: 0,
        layer_count: 1,
    }
}

/// The kinds of descriptor the engine binds.
#[derive(Clone, Copy, PartialEq, Eq, Structural, Debug)]
pub enum DescriptorType {
    CombinedImageSampler,
    UniformBuffer,
    UniformBufferDynamic,
}

/// What a shader sees of a sampled image.
#[derive(Clone, Copy, PartialEq, Eq, Structural, Debug)]
pub struct DescriptorImageInfo {
    pub sampler: Sampler,
    pub image_view: ImageView,
    pub image_layout: ImageLayout,
}

/// What a shader sees of a buffer.
#[derive(Clone, Copy, PartialEq, Eq, Structural, Debug)]
pub struct DescriptorBufferInfo {
    pub buffer: Buffer,
    pub offset: u64,
    pub range: u64,
}

/// What a 2D image with one mip level and one array layer is created with.
/// Images use optimal tiling and are never shared between queue families.
#[derive(Clone, Copy, PartialEq, Eq, Structural, Debug)]
pub struct ImageCreateInfo {
    pub format: i32,
    pub extent: Extent3D,
    pub mip_levels: u32,
    pub array_layers: u32,
    pub samples: u32,
    pub usage: u32,
    pub initial_layout: ImageLayout,
}

/// What a 2D view of an image is created with.
#[derive(Clone, Copy, PartialEq, Eq, Structural, Debug)]
pub struct ImageViewCreateInfo {
    pub image: Image,
    pub format: i32,
    pub components: ComponentMapping,
    pub subresource_range: ImageSubresourceRange,
}

#[derive(Clone, Copy, PartialEq, Eq, Structural, Debug)]
pub enum Filter {
    Nearest,
    Linear,
}

#[derive(Clone, Copy, PartialEq, Eq, Structural, Debug)]
pub enum SamplerAddressMode {
    ClampToEdge,
    MirroredRepeat,
}

/// What a sampler is created with. Every sampler of the engine blends
/// linearly between mip levels, has no level-of-detail bias and a minimum
/// level of zero, compares nothing, is not anisotropic, takes normalised
/// coordinates and has an opaque white border. The two level-of-detail
/// numbers are given by their bit patterns.
#[derive(Clone, Copy, PartialEq, Eq, Structural, Debug)]
pub struct SamplerCreateInfo {
    pub mag_filter: Filter,
    pub min_filter: Filter,
    /// The address mode in all three directions.
    pub address_mode: SamplerAddressMode,
    pub max_lod: u32,
    pub max_anisotropy: u32,
}

/// Any object the engine creates through the API and has to release again.
/// Two values are the same object exactly when they are equal.
#[derive(Clone, Copy, PartialEq, Eq, Structural, Debug)]
pub enum Object {
    Instance,
    DebugReportCallback(DebugReportCallback),
    Surface(SurfaceKHR),
    Device,
    Swapchain(SwapchainKHR),
    DeviceMemory(DeviceMemory),
    Buffer(Buffer),
    Image(Image),
    ImageView(ImageView),
    Sampler(Sampler),
    Framebuffer(Framebuffer),
    RenderPass(RenderPassHandle),
    Semaphore(Semaphore),
    Fence(Fence),
    CommandPool(CommandPool),
    Pipeline(Pipeline),
    PipelineLayout(PipelineLayout),
    DescriptorSetLayout(DescriptorSetLayout),
    DescriptorPool(DescriptorPool),
    ShaderModule(ShaderModule),
}

/// Packs a version triple the way the API expects it in `api_version`,
/// by calling `ash::vk::make_api_version`, which shifts the variant, major
/// and minor numbers to bit 29, 22 and 12 and ors the patch number in.
#[verifier::external_body]
pub(crate) fn make_api_version(variant: u32, major: u32, minor: u32, patch: u32) -> (version: u32)
    ensures
        version == (variant << 29) | (major << 22) | (minor << 12) | patch,
{
    ash::vk::make_api_version(variant, major, minor, patch)
}

} // verus!
