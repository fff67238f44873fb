//! Building images and textures, request by request.
//!
//! An image takes four requests: the image, answered with its memory
//! requirements; a block of device-local memory; the binding of the image
//! to the start of the block; and the view. A texture takes nine: its
//! staging buffer, host-visible memory for it, the writing of the pixels,
//! the binding of the buffer, the four requests of its image, and its
//! sampler.
use vstd::prelude::*;
use crate::vk;
use crate::driver::{
    asks_memory, buffer_in, image_in, memory_found, memory_in, requirements_in, sampler_in,
    view_in, Data, PlanError, Reply, Request, Step,
};
use crate::memory::{is_memorytype_choice, MemoryType, PhysicalDeviceMemoryProperties};
use crate::resource::{BufferCreateInfo, MappedRange};
use crate::texture::{
    image_of, swizzle_mapping, usage_aspect, usage_flags, Image, Sample, Swizzle, Texture, Usage,
};

verus! {

/// What an image is built from.
pub struct ImageInputs {
    pub extent: vk::Extent2D,
    pub format: i32,
    pub usage: Usage,
    pub swizzle: Swizzle,
    /// The image to create.
    pub info: vk::ImageCreateInfo,
    pub memory_types: Seq<MemoryType>,
}

impl ImageInputs {
    /// The number of requests it takes to build the image.
    pub open spec fn total(self) -> int {
        4
    }

    /// Whether the answer at position `k` is an answer to the request at
    /// that position.
    pub open spec fn expects(self, k: int, reply: Reply) -> bool {
        if k == 0 {
            reply is Image
        } else if k == 1 {
            reply is Memory
        } else if k == 2 {
            reply is Done
        } else {
            reply is ImageView
        }
    }

    /// Whether each of the first `upto` answers fits the request it
    /// answers.
    pub open spec fn fit(self, replies: Seq<Reply>, upto: int) -> bool {
        forall|k: int| 0 <= k < upto && k < replies.len() ==> self.expects(k, #[trigger] replies[k])
    }

    /// Whether `request` is the request at position `k`, after the answers
    /// before it.
    pub open spec fn asks(self, replies: Seq<Reply>, k: int, request: Request) -> bool {
        if k == 0 {
            request == Request::CreateImage(self.info)
        } else if k == 1 {
            asks_memory(
                request,
                requirements_in(replies[0]),
                self.memory_types,
                vk::MEMORY_PROPERTY_DEVICE_LOCAL_BIT,
            )
        } else if k == 2 {
            request == (Request::BindImageMemory {
                image: image_in(replies[0]),
                memory: memory_in(replies[1]),
                offset: 0,
            })
        } else {
            request == Request::CreateImageView(
                vk::ImageViewCreateInfo {
                    image: image_in(replies[0]),
                    format: self.info.format,
                    components: swizzle_mapping(self.swizzle),
                    subresource_range: vk::whole_image(usage_aspect(self.usage)),
                },
            )
        }
    }

    /// The image that the answers add up to.
    pub open spec fn image(self, replies: Seq<Reply>) -> Image {
        Image {
            image: image_in(replies[0]),
            view: view_in(replies[3]),
            memory: memory_in(replies[1]),
            dimensions: self.extent,
            usage: self.usage,
            format: self.format,
        }
    }

    /// Whether the device has memory for the image.
    pub open spec fn memory_fits(self, replies: Seq<Reply>) -> bool {
        memory_found(
            requirements_in(replies[0]),
            self.memory_types,
            vk::MEMORY_PROPERTY_DEVICE_LOCAL_BIT,
        )
    }

    /// Whether `step` is the planner's answer to `replies`.
    pub open spec fn plans(self, replies: Seq<Reply>, step: Step<Image>) -> bool {
        let len = replies.len() as int;
        match step {
            Step::Fail(PlanError::UnexpectedReply(at)) => {
                &&& at <= self.total()
                &&& at < len
                &&& self.fit(replies, at as int)
                &&& at < self.total() ==> !self.expects(at as int, replies[at as int])
                &&& at > 0 ==> self.memory_fits(replies)
            },
            Step::Fail(PlanError::NoMemoryType) => {
                &&& len > 0
                &&& self.fit(replies, 1)
                &&& is_memorytype_choice(
                    requirements_in(replies[0]).memory_type_bits,
                    self.memory_types,
                    vk::MEMORY_PROPERTY_DEVICE_LOCAL_BIT,
                    None,
                )
            },
            Step::Fail(_) => false,
            Step::Ask(request) => {
                &&& len < self.total()
                &&& self.fit(replies, len)
                &&& len > 0 ==> self.memory_fits(replies)
                &&& self.asks(replies, len, request)
            },
            Step::Done(image) => {
                &&& len == self.total()
                &&& self.fit(replies, len)
                &&& self.memory_fits(replies)
                &&& image == self.image(replies)
            },
        }
    }
}

impl Image {
    /// The next step in building an image from the given description,
    /// after the answers in `replies`. The view has the format of the
    /// description.
    pub fn from_info(
        extent: vk::Extent2D,
        format: i32,
        usage: Usage,
        swizzle: Swizzle,
        create_info: vk::ImageCreateInfo,
        memory_prop: &PhysicalDeviceMemoryProperties,
        replies: &[Reply],
    ) -> (step: Step<Image>)
        ensures
            (ImageInputs {
                extent,
                format,
                usage,
                swizzle,
                info: create_info,
                memory_types: memory_prop@,
            }).plans(replies@, step),
    {
        let ghost inputs = ImageInputs {
            extent,
            format,
            usage,
            swizzle,
            info: create_info,
            memory_types: memory_prop@,
        };
        let len = replies.len();
        if len == 0 {
            return Step::Ask(Request::CreateImage(create_info));
        }
        let (image, requirements) = match replies[0] {
            Reply::Image(image, requirements) => (image, requirements),
            _ => {
                return Step::Fail(PlanError::UnexpectedReply(0));
            },
        };
        let allocation = match Image::memory_info(&requirements, memory_prop) {
            Some(allocation) => allocation,
            None => {
                return Step::Fail(PlanError::NoMemoryType);
            },
        };
        assert(memory_found(
            requirements_in(replies@[0]),
            memory_prop@,
            vk::MEMORY_PROPERTY_DEVICE_LOCAL_BIT,
        )) by {
            assert(is_memorytype_choice(
                requirements_in(replies@[0]).memory_type_bits,
                memory_prop@,
                vk::MEMORY_PROPERTY_DEVICE_LOCAL_BIT,
                Some(allocation.memory_type_index),
            ));
        }
        if len == 1 {
            return Step::Ask(Request::AllocateMemory(allocation));
        }
        let memory = match replies[1] {
            Reply::Memory(memory) => memory,
            _ => {
                return Step::Fail(PlanError::UnexpectedReply(1));
            },
        };
        if len == 2 {
            return Step::Ask(Request::BindImageMemory { image, memory, offset: 0 });
        }
        match replies[2] {
            Reply::Done => {},
            _ => {
                return Step::Fail(PlanError::UnexpectedReply(2));
            },
        }
        if len == 3 {
            return Step::Ask(
                Request::CreateImageView(
                    Image::view_info(image, create_info.format, usage, swizzle),
                ),
            );
        }
        let view = match replies[3] {
            Reply::ImageView(view) => view,
            _ => {
                return Step::Fail(PlanError::UnexpectedReply(3));
            },
        };
        if len > 4 {
            return Step::Fail(PlanError::UnexpectedReply(4));
        }
        Step::Done(Image::assemble(image, view, memory, extent, format, usage))
    }

    /// The next step in building an image for the given purpose, after
    /// the answers in `replies`.
    pub fn init(
        extent: vk::Extent2D,
        format: i32,
        usage: Usage,
        swizzle: Swizzle,
        memory_prop: &PhysicalDeviceMemoryProperties,
        replies: &[Reply],
    ) -> (step: Step<Image>)
        ensures
            (ImageInputs {
                extent,
                format,
                usage,
                swizzle,
                info: image_of(extent, format, usage_flags(usage)),
                memory_types: memory_prop@,
            }).plans(replies@, step),
    {
        let create_info = Image::init_info(extent, format, usage);
        Image::from_info(extent, format, usage, swizzle, create_info, memory_prop, replies)
    }

    /// The next step in building an image for the given purpose that a
    /// shader samples as well, after the answers in `replies`.
    pub fn create_sample(
        extent: vk::Extent2D,
        format: i32,
        usage: Usage,
        swizzle: Swizzle,
        memory_prop: &PhysicalDeviceMemoryProperties,
        replies: &[Reply],
    ) -> (step: Step<Image>)
        ensures
            (ImageInputs {
                extent,
                format,
                usage,
                swizzle,
                info: image_of(extent, format, vk::IMAGE_USAGE_SAMPLED_BIT | usage_flags(usage)),
                memory_types: memory_prop@,
            }).plans(replies@, step),
    {
        let create_info = Image::sample_info(extent, format, usage);
        Image::from_info(extent, format, usage, swizzle, create_info, memory_prop, replies)
    }
}

/// Whether `step` is the next step in building a sampled image together
/// with the sampler it is read through.
pub open spec fn sample_plans(
    inputs: ImageInputs,
    sampler: vk::Sampler,
    replies: Seq<Reply>,
    step: Step<Sample>,
) -> bool {
    match step {
        Step::Ask(request) => inputs.plans(replies, Step::Ask(request)),
        Step::Fail(error) => inputs.plans(replies, Step::Fail(error)),
        Step::Done(sample) => {
            &&& inputs.plans(replies, Step::Done(sample.image))
            &&& sample.descriptor == (vk::DescriptorImageInfo {
                image_layout: vk::ImageLayout::ShaderReadOnlyOptimal,
                image_view: sample.image.view,
                sampler,
            })
        },
    }
}

impl Sample {
    /// The next step in building a sampled image that is read through
    /// `sampler`, after the answers in `replies`.
    pub fn from_sample(
        extent: vk::Extent2D,
        format: i32,
        usage: Usage,
        swizzle: Swizzle,
        sampler: vk::Sampler,
        memory_prop: &PhysicalDeviceMemoryProperties,
        replies: &[Reply],
    ) -> (step: Step<Sample>)
        ensures
            sample_plans(
                ImageInputs {
                    extent,
                    format,
                    usage,
                    swizzle,
                    info: image_of(
                        extent,
                        format,
                        vk::IMAGE_USAGE_SAMPLED_BIT | usage_flags(usage),
                    ),
                    memory_types: memory_prop@,
                },
                sampler,
                replies@,
                step,
            ),
    {
        match Image::create_sample(extent, format, usage, swizzle, memory_prop, replies) {
            Step::Ask(request) => Step::Ask(request),
            Step::Fail(error) => Step::Fail(error),
            Step::Done(image) => Step::Done(Sample::assemble(image, sampler)),
        }
    }
}

/// What a texture is built from.
pub struct TextureInputs {
    /// The number of bytes of pixel data.
    pub pixel_bytes: int,
    pub extent: vk::Extent2D,
    pub memory_types: Seq<MemoryType>,
}

impl TextureInputs {
    /// The number of requests it takes to build the texture.
    pub open spec fn total(self) -> int {
        9
    }

    /// Whether the answer at position `k` is an answer to the request at
    /// that position.
    pub open spec fn expects(self, k: int, reply: Reply) -> bool {
        if k == 0 {
            reply is Buffer
        } else if k == 1 {
            reply is Memory
        } else if k == 2 {
            reply is Done
        } else if k == 3 {
            reply is Done
        } else if k == 4 {
            reply is Image
        } else if k == 5 {
            reply is Memory
        } else if k == 6 {
            reply is Done
        } else if k == 7 {
            reply is ImageView
        } else {
            reply is Sampler
        }
    }

    /// Whether each of the first `upto` answers fits the request it
    /// answers.
    pub open spec fn fit(self, replies: Seq<Reply>, upto: int) -> bool {
        forall|k: int| 0 <= k < upto && k < replies.len() ==> self.expects(k, #[trigger] replies[k])
    }

    /// Whether the device has memory for the staging buffer.
    pub open spec fn staging_fits(self, replies: Seq<Reply>) -> bool {
        memory_found(
            requirements_in(replies[0]),
            self.memory_types,
            vk::MEMORY_PROPERTY_HOST_VISIBLE_BIT,
        )
    }

    /// Whether the device has memory for the image.
    pub open spec fn image_fits(self, replies: Seq<Reply>) -> bool {
        memory_found(
            requirements_in(replies[4]),
            self.memory_types,
            vk::MEMORY_PROPERTY_DEVICE_LOCAL_BIT,
        )
    }

    /// Whether `request` is the request at position `k`, after the answers
    /// before it.
    pub open spec fn asks(self, replies: Seq<Reply>, k: int, request: Request) -> bool {
        if k == 0 {
            request == Request::CreateBuffer(
                BufferCreateInfo {
                    size: self.pixel_bytes as u64,
                    usage: vk::BUFFER_USAGE_TRANSFER_SRC_BIT,
                },
            )
        } else if k == 1 {
            asks_memory(
                request,
                requirements_in(replies[0]),
                self.memory_types,
                vk::MEMORY_PROPERTY_HOST_VISIBLE_BIT,
            )
        } else if k == 2 {
            request == (Request::Write {
                range: MappedRange {
                    memory: memory_in(replies[1]),
                    offset: 0,
                    size: self.pixel_bytes as u64,
                    alignment: 1,
                },
                data: Data::Pixels,
            })
        } else if k == 3 {
            request == (Request::BindBufferMemory {
                buffer: buffer_in(replies[0]),
                memory: memory_in(replies[1]),
                offset: 0,
            })
        } else if k == 4 {
            request == Request::CreateImage(
                image_of(
                    self.extent,
                    vk::FORMAT_R8G8B8A8_UNORM,
                    vk::IMAGE_USAGE_SAMPLED_BIT | usage_flags(Usage::Texture),
                ),
            )
        } else if k == 5 {
            asks_memory(
                request,
                requirements_in(replies[4]),
                self.memory_types,
                vk::MEMORY_PROPERTY_DEVICE_LOCAL_BIT,
            )
        } else if k == 6 {
            request == (Request::BindImageMemory {
                image: image_in(replies[4]),
                memory: memory_in(replies[5]),
                offset: 0,
            })
        } else if k == 7 {
            request == Request::CreateImageView(
                vk::ImageViewCreateInfo {
                    image: image_in(replies[4]),
                    format: vk::FORMAT_R8G8B8A8_UNORM,
                    components: swizzle_mapping(Swizzle::RGBA),
                    subresource_range: vk::whole_image(usage_aspect(Usage::Texture)),
                },
            )
        } else {
            request == Request::CreateSampler(
                vk::SamplerCreateInfo {
                    mag_filter: vk::Filter::Linear,
                    min_filter: vk::Filter::Linear,
                    address_mode: vk::SamplerAddressMode::MirroredRepeat,
                    max_lod: vk::F32_ZERO,
                    max_anisotropy: vk::F32_ONE,
                },
            )
        }
    }

    /// The texture that the answers add up to.
    pub open spec fn texture(self, replies: Seq<Reply>) -> Texture {
        Texture {
            image_buffer_memory: memory_in(replies[1]),
            image_buffer: buffer_in(replies[0]),
            texture_image: Image {
                image: image_in(replies[4]),
                view: view_in(replies[7]),
                memory: memory_in(replies[5]),
                dimensions: self.extent,
                usage: Usage::Texture,
                format: vk::FORMAT_R8G8B8A8_UNORM,
            },
            descriptor: vk::DescriptorImageInfo {
                image_layout: vk::ImageLayout::General,
                image_view: view_in(replies[7]),
                sampler: sampler_in(replies[8]),
            },
        }
    }

    /// Whether `step` is the planner's answer to `replies`.
    pub open spec fn plans(self, replies: Seq<Reply>, step: Step<Texture>) -> bool {
        let len = replies.len() as int;
        match step {
            Step::Fail(PlanError::UnexpectedReply(at)) => {
                &&& at <= self.total()
                &&& at < len
                &&& self.fit(replies, at as int)
                &&& at < self.total() ==> !self.expects(at as int, replies[at as int])
                &&& at > 0 ==> self.staging_fits(replies)
                &&& at > 4 ==> self.image_fits(replies)
            },
            Step::Fail(PlanError::NoMemoryType) => {
                ||| {
                    &&& len > 0
                    &&& self.fit(replies, 1)
                    &&& is_memorytype_choice(
                        requirements_in(replies[0]).memory_type_bits,
                        self.memory_types,
                        vk::MEMORY_PROPERTY_HOST_VISIBLE_BIT,
                        None,
                    )
                }
                ||| {
                    &&& len > 4
                    &&& self.fit(replies, 5)
                    &&& self.staging_fits(replies)
                    &&& is_memorytype_choice(
                        requirements_in(replies[4]).memory_type_bits,
                        self.memory_types,
                        vk::MEMORY_PROPERTY_DEVICE_LOCAL_BIT,
                        None,
                    )
                }
            },
            Step::Fail(_) => false,
            Step::Ask(request) => {
                &&& len < self.total()
                &&& self.fit(replies, len)
                &&& len > 0 ==> self.staging_fits(replies)
                &&& len > 4 ==> self.image_fits(replies)
                &&& self.asks(replies, len, request)
            },
            Step::Done(texture) => {
                &&& len == self.total()
                &&& self.fit(replies, len)
                &&& self.staging_fits(replies)
                &&& self.image_fits(replies)
                &&& texture == self.texture(replies)
            },
        }
    }
}

impl Texture {
    /// The next step in building a texture of the given size from
    /// `pixel_bytes` bytes of pixel data, after the answers in `replies`.
    #[verifier::rlimit(40)]
    pub fn init(
        pixel_bytes: usize,
        extent: vk::Extent2D,
        memory_prop: &PhysicalDeviceMemoryProperties,
        replies: &[Reply],
    ) -> (step: Step<Texture>)
        ensures
            (TextureInputs { pixel_bytes: pixel_bytes as int, extent, memory_types: memory_prop@ })
                .plans(replies@, step),
    {
        let ghost inputs = TextureInputs {
            pixel_bytes: pixel_bytes as int,
            extent,
            memory_types: memory_prop@,
        };
        let len = replies.len();
        if len == 0 {
            return Step::Ask(Request::CreateBuffer(Texture::staging_info(pixel_bytes)));
        }
        let (image_buffer, buffer_requirements) = match replies[0] {
            Reply::Buffer(buffer, requirements) => (buffer, requirements),
            _ => {
                return Step::Fail(PlanError::UnexpectedReply(0));
            },
        };
        let staging = match Texture::staging_memory_info(&buffer_requirements, memory_prop) {
            Some(allocation) => allocation,
            None => {
                return Step::Fail(PlanError::NoMemoryType);
            },
        };
        assert(inputs.staging_fits(replies@)) by {
            assert(is_memorytype_choice(
                requirements_in(replies@[0]).memory_type_bits,
                memory_prop@,
                vk::MEMORY_PROPERTY_HOST_VISIBLE_BIT,
                Some(staging.memory_type_index),
            ));
        }
        if len == 1 {
            return Step::Ask(Request::AllocateMemory(staging));
        }
        let image_buffer_memory = match replies[1] {
            Reply::Memory(memory) => memory,
            _ => {
                return Step::Fail(PlanError::UnexpectedReply(1));
            },
        };
        if len == 2 {
            return Step::Ask(
                Request::Write {
                    range: Texture::staging_range(image_buffer_memory, pixel_bytes),
                    data: Data::Pixels,
                },
            );
        }
        match replies[2] {
            Reply::Done => {},
            _ => {
                return Step::Fail(PlanError::UnexpectedReply(2));
            },
        }
        if len == 3 {
            return Step::Ask(
                Request::BindBufferMemory {
                    buffer: image_buffer,
                    memory: image_buffer_memory,
                    offset: 0,
                },
            );
        }
        match replies[3] {
            Reply::Done => {},
            _ => {
                return Step::Fail(PlanError::UnexpectedReply(3));
            },
        }
        if len == 4 {
            return Step::Ask(
                Request::CreateImage(
                    Image::sample_info(extent, vk::FORMAT_R8G8B8A8_UNORM, Usage::Texture),
                ),
            );
        }
        let (image, image_requirements) = match replies[4] {
            Reply::Image(image, requirements) => (image, requirements),
            _ => {
                return Step::Fail(PlanError::UnexpectedReply(4));
            },
        };
        assert(inputs.fit(replies@, 5));
        let allocation = match Image::memory_info(&image_requirements, memory_prop) {
            Some(allocation) => allocation,
            None => {
                return Step::Fail(PlanError::NoMemoryType);
            },
        };
        assert(inputs.image_fits(replies@)) by {
            assert(is_memorytype_choice(
                requirements_in(replies@[4]).memory_type_bits,
                memory_prop@,
                vk::MEMORY_PROPERTY_DEVICE_LOCAL_BIT,
                Some(allocation.memory_type_index),
            ));
        }
        if len == 5 {
            return Step::Ask(Request::AllocateMemory(allocation));
        }
        let memory = match replies[5] {
            Reply::Memory(memory) => memory,
            _ => {
                return Step::Fail(PlanError::UnexpectedReply(5));
            },
        };
        if len == 6 {
            return Step::Ask(Request::BindImageMemory { image, memory, offset: 0 });
        }
        match replies[6] {
            Reply::Done => {},
            _ => {
                return Step::Fail(PlanError::UnexpectedReply(6));
            },
        }
        if len == 7 {
            return Step::Ask(
                Request::CreateImageView(
                    Image::view_info(
                        image,
                        vk::FORMAT_R8G8B8A8_UNORM,
                        Usage::Texture,
                        Swizzle::RGBA,
                    ),
                ),
            );
        }
        let view = match replies[7] {
            Reply::ImageView(view) => view,
            _ => {
                return Step::Fail(PlanError::UnexpectedReply(7));
            },
        };
        if len == 8 {
            return Step::Ask(Request::CreateSampler(Texture::sampler_info()));
        }
        let sampler = match replies[8] {
            Reply::Sampler(sampler) => sampler,
            _ => {
                return Step::Fail(PlanError::UnexpectedReply(8));
            },
        };
        if len > 9 {
            return Step::Fail(PlanError::UnexpectedReply(9));
        }
        let texture_image = Image::assemble(
            image,
            view,
            memory,
            extent,
            vk::FORMAT_R8G8B8A8_UNORM,
            Usage::Texture,
        );
        Step::Done(Texture::assemble(image_buffer, image_buffer_memory, texture_image, sampler))
    }
}

} // verus!
