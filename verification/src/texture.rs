//! Images with memory of their own, and textures uploaded through a
//! staging buffer.
use vstd::prelude::*;
use crate::vk;
use crate::memory::{is_memorytype_choice, MemoryRequirements, PhysicalDeviceMemoryProperties};
use crate::resource::{allocate_info, BufferCreateInfo, MappedRange, MemoryAllocateInfo};
use crate::uniform::{Uniform, UniformInfo};
use crate::vk_commands::{BufferImageCopy, Command, ImageMemoryBarrier};

verus! {

/// How the channels of an image are presented to a shader.
#[derive(Clone, Copy, PartialEq, Eq, Structural, Debug)]
pub enum Swizzle {
    Identity,
    RGBA,
}

/// What an image is for.
#[derive(Clone, Copy, PartialEq, Eq, Structural, Debug)]
pub enum Usage {
    Attachment,
    Texture,
    Depth,
}

/// The usage mask of an image with the given purpose.
pub open spec fn usage_flags(usage: Usage) -> u32 {
    match usage {
        Usage::Depth => vk::IMAGE_USAGE_DEPTH_STENCIL_ATTACHMENT_BIT,
        Usage::Texture => vk::IMAGE_USAGE_TRANSFER_DST_BIT,
        Usage::Attachment => vk::IMAGE_USAGE_COLOR_ATTACHMENT_BIT,
    }
}

/// The aspect of an image with the given purpose.
pub open spec fn usage_aspect(usage: Usage) -> u32 {
    match usage {
        Usage::Depth => vk::IMAGE_ASPECT_DEPTH_BIT,
        Usage::Texture => vk::IMAGE_ASPECT_COLOR_BIT,
        Usage::Attachment => vk::IMAGE_ASPECT_COLOR_BIT,
    }
}

/// What an image has to be able to do after its first layout transition.
pub open spec fn usage_access(usage: Usage) -> u32 {
    match usage {
        Usage::Depth => vk::ACCESS_DEPTH_STENCIL_ATTACHMENT_READ_BIT
            | vk::ACCESS_DEPTH_STENCIL_ATTACHMENT_WRITE_BIT,
        Usage::Texture => vk::ACCESS_TRANSFER_WRITE_BIT,
        Usage::Attachment => vk::ACCESS_TRANSFER_WRITE_BIT,
    }
}

/// The layout an image is in after its first layout transition.
pub open spec fn usage_layout(usage: Usage) -> vk::ImageLayout {
    match usage {
        Usage::Depth => vk::ImageLayout::DepthStencilAttachmentOptimal,
        Usage::Texture => vk::ImageLayout::TransferDstOptimal,
        Usage::Attachment => vk::ImageLayout::TransferDstOptimal,
    }
}

/// The channel mapping of a view.
pub open spec fn swizzle_mapping(swizzle: Swizzle) -> vk::ComponentMapping {
    match swizzle {
        Swizzle::Identity => vk::ComponentMapping {
            r: vk::ComponentSwizzle::Identity,
            g: vk::ComponentSwizzle::Identity,
            b: vk::ComponentSwizzle::Identity,
            a: vk::ComponentSwizzle::Identity,
        },
        Swizzle::RGBA => vk::ComponentMapping {
            r: vk::ComponentSwizzle::R,
            g: vk::ComponentSwizzle::G,
            b: vk::ComponentSwizzle::B,
            a: vk::ComponentSwizzle::A,
        },
    }
}

/// A 2D image of the given size, format and usage mask, in no layout yet.
pub open spec fn image_of(extent: vk::Extent2D, format: i32, usage: u32) -> vk::ImageCreateInfo {
    vk::ImageCreateInfo {
        format,
        extent: vk::Extent3D { width: extent.width, height: extent.height, depth: 1 },
        mip_levels: 1,
        array_layers: 1,
        samples: vk::SAMPLE_COUNT_1_BIT,
        usage,
        initial_layout: vk::ImageLayout::Undefined,
    }
}

fn flags_of(usage: Usage) -> (flags: u32)
    ensures
        flags == usage_flags(usage),
{
    match usage {
        Usage::Depth => vk::IMAGE_USAGE_DEPTH_STENCIL_ATTACHMENT_BIT,
        Usage::Texture => vk::IMAGE_USAGE_TRANSFER_DST_BIT,
        Usage::Attachment => vk::IMAGE_USAGE_COLOR_ATTACHMENT_BIT,
    }
}

fn plain_image(extent: vk::Extent2D, format: i32, usage: u32) -> (info: vk::ImageCreateInfo)
    ensures
        info == image_of(extent, format, usage),
{
    vk::ImageCreateInfo {
        format,
        extent: vk::Extent3D { width: extent.width, height: extent.height, depth: 1 },
        mip_levels: 1,
        array_layers: 1,
        samples: vk::SAMPLE_COUNT_1_BIT,
        usage,
        initial_layout: vk::ImageLayout::Undefined,
    }
}

/// An image with a view and a memory block of its own.
#[derive(Clone, Copy, PartialEq, Eq, Structural, Debug)]
pub struct Image {
    pub image: vk::Image,
    pub view: vk::ImageView,
    pub memory: vk::DeviceMemory,
    pub dimensions: vk::Extent2D,
    pub usage: Usage,
    pub format: i32,
}

impl Image {
    /// The image to create for the given purpose.
    pub fn init_info(extent: vk::Extent2D, format: i32, usage: Usage) -> (info: vk::ImageCreateInfo)
        ensures
            info == image_of(extent, format, usage_flags(usage)),
    {
        plain_image(extent, format, flags_of(usage))
    }

    /// The image to create for the given purpose when a shader is to
    /// sample it as well.
    pub fn sample_info(extent: vk::Extent2D, format: i32, usage: Usage) -> (info:
        vk::ImageCreateInfo)
        ensures
            info == image_of(extent, format, vk::IMAGE_USAGE_SAMPLED_BIT | usage_flags(usage)),
    {
        plain_image(extent, format, vk::IMAGE_USAGE_SAMPLED_BIT | flags_of(usage))
    }

    /// The device-local memory block to allocate for the image, exactly as
    /// large as the image requires. Nothing when the device has no
    /// suitable memory type.
    pub fn memory_info(
        requirements: &MemoryRequirements,
        memory_prop: &PhysicalDeviceMemoryProperties,
    ) -> (info: Option<MemoryAllocateInfo>)
        ensures
            is_memorytype_choice(
                requirements.memory_type_bits,
                memory_prop@,
                vk::MEMORY_PROPERTY_DEVICE_LOCAL_BIT,
                match info {
                    Some(i) => Some(i.memory_type_index),
                    None => None,
                },
            ),
            info matches Some(i) ==> i.allocation_size == requirements.size,
    {
        allocate_info(requirements, memory_prop, vk::MEMORY_PROPERTY_DEVICE_LOCAL_BIT)
    }

    /// The view to create once the image is bound to its memory, at offset
    /// zero.
    pub fn view_info(image: vk::Image, format: i32, usage: Usage, swizzle: Swizzle) -> (info:
        vk::ImageViewCreateInfo)
        ensures
            info == (vk::ImageViewCreateInfo {
                image,
                format,
                components: swizzle_mapping(swizzle),
                subresource_range: vk::whole_image(usage_aspect(usage)),
            }),
    {
        let components = match swizzle {
            Swizzle::Identity => vk::ComponentMapping {
                r: vk::ComponentSwizzle::Identity,
                g: vk::ComponentSwizzle::Identity,
                b: vk::ComponentSwizzle::Identity,
                a: vk::ComponentSwizzle::Identity,
            },
            Swizzle::RGBA => vk::ComponentMapping {
                r: vk::ComponentSwizzle::R,
                g: vk::ComponentSwizzle::G,
                b: vk::ComponentSwizzle::B,
                a: vk::ComponentSwizzle::A,
            },
        };
        let aspect_mask: u32 = match usage {
            Usage::Depth => vk::IMAGE_ASPECT_DEPTH_BIT,
            Usage::Texture => vk::IMAGE_ASPECT_COLOR_BIT,
            _ => vk::IMAGE_ASPECT_COLOR_BIT,
        };
        vk::ImageViewCreateInfo {
            image,
            format,
            components,
            subresource_range: vk::ImageSubresourceRange {
                aspect_mask,
                base_mip_level: 0,
                level_count: 1,
                base_array_layer: 0,
                layer_count: 1,
            },
        }
    }

    /// The image made of what was created for it.
    pub fn assemble(
        image: vk::Image,
        view: vk::ImageView,
        memory: vk::DeviceMemory,
        extent: vk::Extent2D,
        format: i32,
        usage: Usage,
    ) -> (made: Image)
        ensures
            made == (Image { image, view, memory, dimensions: extent, usage, format }),
    {
        Image { image, view, memory, dimensions: extent, usage, format }
    }

    /// The barrier that takes the fresh image into the layout of its
    /// purpose.
    pub open spec fn transition(&self) -> Command {
        Command::PipelineBarrier {
            src_stage_mask: vk::PIPELINE_STAGE_TOP_OF_PIPE_BIT,
            dst_stage_mask: vk::PIPELINE_STAGE_TOP_OF_PIPE_BIT,
            barrier: ImageMemoryBarrier {
                src_access_mask: 0,
                dst_access_mask: usage_access(self.usage),
                old_layout: vk::ImageLayout::Undefined,
                new_layout: usage_layout(self.usage),
                src_queue_family_index: vk::QUEUE_FAMILY_IGNORED,
                dst_queue_family_index: vk::QUEUE_FAMILY_IGNORED,
                image: self.image,
                subresource_range: vk::whole_image(usage_aspect(self.usage)),
            },
        }
    }

    /// The single pipeline barrier to record for the image's first layout
    /// transition.
    pub fn transfer_data(&self) -> (command: Command)
        ensures
            command == self.transition(),
    {
        let dst_access_mask: u32 = match self.usage {
            Usage::Depth => vk::ACCESS_DEPTH_STENCIL_ATTACHMENT_READ_BIT
                | vk::ACCESS_DEPTH_STENCIL_ATTACHMENT_WRITE_BIT,
            Usage::Texture => vk::ACCESS_TRANSFER_WRITE_BIT,
            _ => vk::ACCESS_TRANSFER_WRITE_BIT,
        };
        let new_layout = match self.usage {
            Usage::Depth => vk::ImageLayout::DepthStencilAttachmentOptimal,
            Usage::Texture => vk::ImageLayout::TransferDstOptimal,
            _ => vk::ImageLayout::TransferDstOptimal,
        };
        let aspect_mask: u32 = match self.usage {
            Usage::Depth => vk::IMAGE_ASPECT_DEPTH_BIT,
            Usage::Texture => vk::IMAGE_ASPECT_COLOR_BIT,
            _ => vk::IMAGE_ASPECT_COLOR_BIT,
        };
        Command::PipelineBarrier {
            src_stage_mask: vk::PIPELINE_STAGE_TOP_OF_PIPE_BIT,
            dst_stage_mask: vk::PIPELINE_STAGE_TOP_OF_PIPE_BIT,
            barrier: ImageMemoryBarrier {
                src_access_mask: 0,
                dst_access_mask,
                old_layout: vk::ImageLayout::Undefined,
                new_layout,
                src_queue_family_index: vk::QUEUE_FAMILY_IGNORED,
                dst_queue_family_index: vk::QUEUE_FAMILY_IGNORED,
                image: self.image,
                subresource_range: vk::ImageSubresourceRange {
                    aspect_mask,
                    base_mip_level: 0,
                    level_count: 1,
                    base_array_layer: 0,
                    layer_count: 1,
                },
            },
        }
    }

    /// What has to be destroyed to release the image: the view, the image,
    /// and last the memory behind it.
    pub fn release(&self) -> (objects: Vec<vk::Object>)
        ensures
            objects@ == seq![
                vk::Object::ImageView(self.view),
                vk::Object::Image(self.image),
                vk::Object::DeviceMemory(self.memory),
            ],
    {
        let mut objects: Vec<vk::Object> = Vec::new();
        objects.push(vk::Object::ImageView(self.view));
        objects.push(vk::Object::Image(self.image));
        objects.push(vk::Object::DeviceMemory(self.memory));
        objects
    }
}

/// An image together with the sampler a shader reads it through.
#[derive(Clone, Copy, PartialEq, Eq, Structural, Debug)]
pub struct Sample {
    pub image: Image,
    pub descriptor: vk::DescriptorImageInfo,
}

impl Sample {
    /// Pairs an image that was created to be sampled with its sampler. A
    /// shader finds the image in the read-only layout.
    pub fn assemble(image: Image, sampler: vk::Sampler) -> (sample: Sample)
        ensures
            sample == (Sample {
                image,
                descriptor: vk::DescriptorImageInfo {
                    image_layout: vk::ImageLayout::ShaderReadOnlyOptimal,
                    image_view: image.view,
                    sampler,
                },
            }),
    {
        Sample {
            image,
            descriptor: vk::DescriptorImageInfo {
                image_layout: vk::ImageLayout::ShaderReadOnlyOptimal,
                image_view: image.view,
                sampler,
            },
        }
    }

    /// The barrier to record for the image's first layout transition.
    pub fn transfer_data(&self) -> (command: Command)
        ensures
            command == self.image.transition(),
    {
        self.image.transfer_data()
    }
}

impl Uniform for Sample {
    open spec fn uniform_info(&self) -> UniformInfo {
        UniformInfo {
            descriptor_type: vk::DescriptorType::CombinedImageSampler,
            image_info: Some(self.descriptor),
            buffer_info: None,
        }
    }

    fn get_descriptor_type(&self) -> (descriptor_type: vk::DescriptorType) {
        vk::DescriptorType::CombinedImageSampler
    }

    fn image_info(&self) -> (info: Option<vk::DescriptorImageInfo>) {
        Some(self.descriptor)
    }

    fn buffer_info(&self) -> (info: Option<vk::DescriptorBufferInfo>) {
        None
    }
}

/// A texture: its pixels in a staging buffer, and the image they are
/// copied to.
#[derive(Clone, Copy, PartialEq, Eq, Structural, Debug)]
pub struct Texture {
    pub image_buffer_memory: vk::DeviceMemory,
    pub image_buffer: vk::Buffer,
    pub texture_image: Image,
    pub descriptor: vk::DescriptorImageInfo,
}

/// The commands that upload a texture: take the image into the transfer
/// layout, copy the tightly packed pixels of the staging buffer into it,
/// and take it into the layout shaders read from.
pub open spec fn upload_commands(texture: Texture) -> Seq<Command> {
    seq![
        texture.texture_image.transition(),
        Command::CopyBufferToImage {
            src_buffer: texture.image_buffer,
            dst_image: texture.texture_image.image,
            dst_image_layout: vk::ImageLayout::TransferDstOptimal,
            image_region: BufferImageCopy {
                buffer_offset: 0,
                buffer_row_length: 0,
                buffer_image_height: 0,
                aspect_mask: vk::IMAGE_ASPECT_COLOR_BIT,
                image_extent: vk::Extent3D {
                    width: texture.texture_image.dimensions.width,
                    height: texture.texture_image.dimensions.height,
                    depth: 1,
                },
            },
        },
        Command::PipelineBarrier {
            src_stage_mask: vk::PIPELINE_STAGE_TOP_OF_PIPE_BIT,
            dst_stage_mask: vk::PIPELINE_STAGE_TOP_OF_PIPE_BIT,
            barrier: ImageMemoryBarrier {
                src_access_mask: vk::ACCESS_TRANSFER_WRITE_BIT,
                dst_access_mask: vk::ACCESS_SHADER_READ_BIT,
                old_layout: vk::ImageLayout::TransferDstOptimal,
                new_layout: vk::ImageLayout::ShaderReadOnlyOptimal,
                src_queue_family_index: vk::QUEUE_FAMILY_IGNORED,
                dst_queue_family_index: vk::QUEUE_FAMILY_IGNORED,
                image: texture.texture_image.image,
                subresource_range: vk::whole_image(vk::IMAGE_ASPECT_COLOR_BIT),
            },
        },
    ]
}

impl Texture {
    /// The staging buffer for `pixel_bytes` bytes of pixel data.
    pub fn staging_info(pixel_bytes: usize) -> (info: BufferCreateInfo)
        ensures
            info == (BufferCreateInfo {
                size: pixel_bytes as u64,
                usage: vk::BUFFER_USAGE_TRANSFER_SRC_BIT,
            }),
    {
        BufferCreateInfo { size: pixel_bytes as u64, usage: vk::BUFFER_USAGE_TRANSFER_SRC_BIT }
    }

    /// The host-visible memory block to allocate for the staging buffer.
    /// Nothing when the device has no suitable memory type.
    pub fn staging_memory_info(
        requirements: &MemoryRequirements,
        memory_prop: &PhysicalDeviceMemoryProperties,
    ) -> (info: Option<MemoryAllocateInfo>)
        ensures
            is_memorytype_choice(
                requirements.memory_type_bits,
                memory_prop@,
                vk::MEMORY_PROPERTY_HOST_VISIBLE_BIT,
                match info {
                    Some(i) => Some(i.memory_type_index),
                    None => None,
                },
            ),
            info matches Some(i) ==> i.allocation_size == requirements.size,
    {
        allocate_info(requirements, memory_prop, vk::MEMORY_PROPERTY_HOST_VISIBLE_BIT)
    }

    /// The range of the staging memory to map for writing the pixel bytes.
    pub fn staging_range(memory: vk::DeviceMemory, pixel_bytes: usize) -> (range: MappedRange)
        ensures
            range == (MappedRange { memory, offset: 0, size: pixel_bytes as u64, alignment: 1 }),
    {
        MappedRange { memory, offset: 0, size: pixel_bytes as u64, alignment: 1 }
    }

    /// The sampler of a texture: linear filtering, mirrored at the edges.
    pub fn sampler_info() -> (info: vk::SamplerCreateInfo)
        ensures
            info == (vk::SamplerCreateInfo {
                mag_filter: vk::Filter::Linear,
                min_filter: vk::Filter::Linear,
                address_mode: vk::SamplerAddressMode::MirroredRepeat,
                max_lod: vk::F32_ZERO,
                max_anisotropy: vk::F32_ONE,
            }),
    {
        vk::SamplerCreateInfo {
            mag_filter: vk::Filter::Linear,
            min_filter: vk::Filter::Linear,
            address_mode: vk::SamplerAddressMode::MirroredRepeat,
            max_lod: vk::F32_ZERO,
            max_anisotropy: vk::F32_ONE,
        }
    }

    /// The texture made of its staging buffer, its image and its sampler.
    pub fn assemble(
        image_buffer: vk::Buffer,
        image_buffer_memory: vk::DeviceMemory,
        texture_image: Image,
        sampler: vk::Sampler,
    ) -> (texture: Texture)
        ensures
            texture == (Texture {
                image_buffer_memory,
                image_buffer,
                texture_image,
                descriptor: vk::DescriptorImageInfo {
                    image_layout: vk::ImageLayout::General,
                    image_view: texture_image.view,
                    sampler,
                },
            }),
    {
        Texture {
            image_buffer_memory,
            image_buffer,
            texture_image,
            descriptor: vk::DescriptorImageInfo {
                image_layout: vk::ImageLayout::General,
                image_view: texture_image.view,
                sampler,
            },
        }
    }

    /// The commands to record in order to upload the texture.
    pub fn load_texture(&self) -> (commands: Vec<Command>)
        ensures
            commands@ == upload_commands(*self),
    {
        let mut commands: Vec<Command> = Vec::new();
        commands.push(self.texture_image.transfer_data());
        commands.push(
            Command::CopyBufferToImage {
                src_buffer: self.image_buffer,
                dst_image: self.texture_image.image,
                dst_image_layout: vk::ImageLayout::TransferDstOptimal,
                image_region: BufferImageCopy {
                    buffer_offset: 0,
                    buffer_row_length: 0,
                    buffer_image_height: 0,
                    aspect_mask: vk::IMAGE_ASPECT_COLOR_BIT,
                    image_extent: vk::Extent3D {
                        width: self.texture_image.dimensions.width,
                        height: self.texture_image.dimensions.height,
                        depth: 1,
                    },
                },
            },
        );
        commands.push(
            Command::PipelineBarrier {
                src_stage_mask: vk::PIPELINE_STAGE_TOP_OF_PIPE_BIT,
                dst_stage_mask: vk::PIPELINE_STAGE_TOP_OF_PIPE_BIT,
                barrier: ImageMemoryBarrier {
                    src_access_mask: vk::ACCESS_TRANSFER_WRITE_BIT,
                    dst_access_mask: vk::ACCESS_SHADER_READ_BIT,
                    old_layout: vk::ImageLayout::TransferDstOptimal,
                    new_layout: vk::ImageLayout::ShaderReadOnlyOptimal,
                    src_queue_family_index: vk::QUEUE_FAMILY_IGNORED,
                    dst_queue_family_index: vk::QUEUE_FAMILY_IGNORED,
                    image: self.texture_image.image,
                    subresource_range: vk::ImageSubresourceRange {
                        aspect_mask: vk::IMAGE_ASPECT_COLOR_BIT,
                        base_mip_level: 0,
                        level_count: 1,
                        base_array_layer: 0,
                        layer_count: 1,
                    },
                },
            },
        );
        commands
    }

    /// The objects the texture owns, in the order in which they are
    /// destroyed.
    pub open spec fn owned(&self) -> Seq<vk::Object> {
        seq![
            vk::Object::Sampler(self.descriptor.sampler),
            vk::Object::Buffer(self.image_buffer),
            vk::Object::DeviceMemory(self.image_buffer_memory),
            vk::Object::ImageView(self.texture_image.view),
            vk::Object::Image(self.texture_image.image),
            vk::Object::DeviceMemory(self.texture_image.memory),
        ]
    }

    /// What has to be destroyed to release the texture: the sampler, the
    /// staging buffer and its memory, then view, image and memory of the
    /// texture image.
    pub fn release(&self) -> (objects: Vec<vk::Object>)
        ensures
            objects@ == self.owned(),
    {
        let mut objects: Vec<vk::Object> = Vec::new();
        objects.push(vk::Object::Sampler(self.descriptor.sampler));
        objects.push(vk::Object::Buffer(self.image_buffer));
        objects.push(vk::Object::DeviceMemory(self.image_buffer_memory));
        objects.push(vk::Object::ImageView(self.texture_image.view));
        objects.push(vk::Object::Image(self.texture_image.image));
        objects.push(vk::Object::DeviceMemory(self.texture_image.memory));
        objects
    }
}

impl Uniform for Texture {
    open spec fn uniform_info(&self) -> UniformInfo {
        UniformInfo {
            descriptor_type: vk::DescriptorType::CombinedImageSampler,
            image_info: Some(self.descriptor),
            buffer_info: None,
        }
    }

    fn get_descriptor_type(&self) -> (descriptor_type: vk::DescriptorType) {
        vk::DescriptorType::CombinedImageSampler
    }

    fn image_info(&self) -> (info: Option<vk::DescriptorImageInfo>) {
        Some(self.descriptor)
    }

    fn buffer_info(&self) -> (info: Option<vk::DescriptorBufferInfo>) {
        None
    }
}

} // verus!
