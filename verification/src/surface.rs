//! Negotiating with the presentation surface, and the swapchain that
//! results.
use vstd::prelude::*;
use crate::vk;

verus! {

/// A pixel format and colour space the surface can present.
#[derive(Clone, Copy, PartialEq, Eq, Structural, Debug)]
pub struct SurfaceFormatKHR {
    pub format: i32,
    pub color_space: i32,
}

/// What the surface reports about itself, as far as the engine reads it.
#[derive(Clone, Copy, PartialEq, Eq, Structural, Debug)]
pub struct SurfaceCapabilitiesKHR {
    pub min_image_count: u32,
    /// Zero when the surface sets no upper limit.
    pub max_image_count: u32,
    /// A width of `u32::MAX` means that the swapchain decides the size.
    pub current_extent: vk::Extent2D,
    pub supported_transforms: u32,
    pub current_transform: u32,
}

/// What the engine settled on for a surface.
#[derive(Clone, Copy, PartialEq, Eq, Structural, Debug)]
pub struct RVSurfaceCapabilities {
    pub capabilities: SurfaceCapabilitiesKHR,
    pub pre_transform: u32,
    pub desired_image_count: u32,
    pub resolution: vk::Extent2D,
    pub format: SurfaceFormatKHR,
}

/// Why nothing could be settled for a surface.
#[derive(Clone, Copy, PartialEq, Eq, Structural, Debug)]
pub enum SurfaceError {
    /// The surface offers no format.
    NoSurfaceFormat,
    /// One image more than the surface's minimum cannot be counted.
    ImageCountOverflow,
}

/// The presentation surface.
#[derive(Clone, Copy, PartialEq, Eq, Structural, Debug)]
pub struct RVSurface {
    pub handle: vk::SurfaceKHR,
}

/// The format to present in: the first format the surface offers, with a
/// concrete format in place of "undefined".
pub open spec fn chosen_format(first: SurfaceFormatKHR) -> SurfaceFormatKHR {
    if first.format == vk::FORMAT_UNDEFINED {
        SurfaceFormatKHR { format: vk::FORMAT_B8G8R8_UNORM, color_space: first.color_space }
    } else {
        first
    }
}

/// The number of swapchain images to ask for: one more than the minimum,
/// but no more than the maximum if there is one.
pub open spec fn chosen_image_count(capabilities: SurfaceCapabilitiesKHR) -> int {
    let desired = capabilities.min_image_count + 1;
    if capabilities.max_image_count > 0 && desired > capabilities.max_image_count {
        capabilities.max_image_count as int
    } else {
        desired
    }
}

/// The transform to apply before presenting: none if the surface supports
/// that, else the one it currently has.
pub open spec fn chosen_transform(capabilities: SurfaceCapabilitiesKHR) -> u32 {
    if vk::has_all(capabilities.supported_transforms, vk::SURFACE_TRANSFORM_IDENTITY_BIT_KHR) {
        vk::SURFACE_TRANSFORM_IDENTITY_BIT_KHR
    } else {
        capabilities.current_transform
    }
}

/// The size to render at: the surface's own size, or the size of the
/// window when the surface leaves the choice open.
pub open spec fn chosen_resolution(capabilities: SurfaceCapabilitiesKHR, window: (u32, u32)) -> vk::Extent2D {
    if capabilities.current_extent.width == u32::MAX {
        vk::Extent2D { width: window.0, height: window.1 }
    } else {
        capabilities.current_extent
    }
}

/// Whether `result` is what is settled for a surface that offers
/// `surface_formats` and reports `capabilities`, in a window of the given
/// inner size.
pub open spec fn is_surface_choice(
    window: (u32, u32),
    surface_formats: Seq<SurfaceFormatKHR>,
    capabilities: SurfaceCapabilitiesKHR,
    result: Result<RVSurfaceCapabilities, SurfaceError>,
) -> bool {
    match result {
        Err(SurfaceError::NoSurfaceFormat) => surface_formats.len() == 0,
        Err(SurfaceError::ImageCountOverflow) => surface_formats.len() > 0 && chosen_image_count(
            capabilities,
        ) > u32::MAX,
        Ok(chosen) => {
            &&& surface_formats.len() > 0
            &&& chosen == (RVSurfaceCapabilities {
                capabilities,
                pre_transform: chosen_transform(capabilities),
                desired_image_count: chosen_image_count(capabilities) as u32,
                resolution: chosen_resolution(capabilities, window),
                format: chosen_format(surface_formats[0]),
            })
            &&& chosen_image_count(capabilities) <= u32::MAX
        },
    }
}

/// The presentation mode: mailbox if the surface offers it, else
/// first-in-first-out, which every surface offers.
pub open spec fn chosen_present_mode(present_modes: Seq<i32>) -> i32 {
    if present_modes.contains(vk::PRESENT_MODE_MAILBOX_KHR) {
        vk::PRESENT_MODE_MAILBOX_KHR
    } else {
        vk::PRESENT_MODE_FIFO_KHR
    }
}

impl RVSurface {
    pub fn init(handle: vk::SurfaceKHR) -> (surface: RVSurface)
        ensures
            surface.handle == handle,
    {
        RVSurface { handle }
    }

    /// Settles format, image count, transform and resolution for the
    /// surface.
    pub fn get_surface_capabilities(
        &self,
        window: (u32, u32),
        surface_formats: &Vec<SurfaceFormatKHR>,
        surface_capabilities: SurfaceCapabilitiesKHR,
    ) -> (chosen: Result<RVSurfaceCapabilities, SurfaceError>)
        ensures
            is_surface_choice(window, surface_formats@, surface_capabilities, chosen),
    {
        if surface_formats.len() == 0 {
            return Err(SurfaceError::NoSurfaceFormat);
        }
        let sfmt = surface_formats[0];
        let surface_format = if sfmt.format == vk::FORMAT_UNDEFINED {
            SurfaceFormatKHR { format: vk::FORMAT_B8G8R8_UNORM, color_space: sfmt.color_space }
        } else {
            sfmt
        };
        let desired_image_count: u32 = match surface_capabilities.min_image_count.checked_add(1) {
            Some(desired) => {
                if surface_capabilities.max_image_count > 0 && desired
                    > surface_capabilities.max_image_count {
                    surface_capabilities.max_image_count
                } else {
                    desired
                }
            },
            None => {
                if surface_capabilities.max_image_count > 0 {
                    surface_capabilities.max_image_count
                } else {
                    return Err(SurfaceError::ImageCountOverflow);
                }
            },
        };
        let pre_transform: u32 = if vk::contains(
            surface_capabilities.supported_transforms,
            vk::SURFACE_TRANSFORM_IDENTITY_BIT_KHR,
        ) {
            vk::SURFACE_TRANSFORM_IDENTITY_BIT_KHR
        } else {
            surface_capabilities.current_transform
        };
        let (width, height) = window;
        let surface_resolution = if surface_capabilities.current_extent.width == u32::MAX {
            vk::Extent2D { width, height }
        } else {
            surface_capabilities.current_extent
        };
        Ok(
            RVSurfaceCapabilities {
                capabilities: surface_capabilities,
                pre_transform,
                desired_image_count,
                resolution: surface_resolution,
                format: surface_format,
            },
        )
    }

    /// Picks the presentation mode from those the surface offers.
    pub fn get_present_mode(&self, present_modes: &Vec<i32>) -> (mode: i32)
        ensures
            mode == chosen_present_mode(present_modes@),
    {
        let mut i: usize = 0;
        while i < present_modes.len()
            invariant
                i <= present_modes.len(),
                forall|k: int| 0 <= k < i ==> present_modes@[k] != vk::PRESENT_MODE_MAILBOX_KHR,
            decreases present_modes.len() - i,
        {
            if present_modes[i] == vk::PRESENT_MODE_MAILBOX_KHR {
                return vk::PRESENT_MODE_MAILBOX_KHR;
            }
            i += 1;
        }
        vk::PRESENT_MODE_FIFO_KHR
    }
}

/// What a swapchain is created with. Its images have one layer, belong to
/// one queue family, are opaque, and may be clipped where the window is
/// covered.
#[derive(Clone, Copy, PartialEq, Eq, Structural, Debug)]
pub struct SwapchainCreateInfoKHR {
    pub surface: vk::SurfaceKHR,
    pub min_image_count: u32,
    pub image_format: i32,
    pub image_color_space: i32,
    pub image_extent: vk::Extent2D,
    pub image_array_layers: u32,
    pub image_usage: u32,
    pub pre_transform: u32,
    pub composite_alpha: u32,
    pub present_mode: i32,
    pub clipped: bool,
}

/// The view of a swapchain image of the given format.
pub open spec fn swapchain_view(image: vk::Image, format: i32) -> vk::ImageViewCreateInfo {
    vk::ImageViewCreateInfo {
        image,
        format,
        components: vk::ComponentMapping {
            r: vk::ComponentSwizzle::R,
            g: vk::ComponentSwizzle::G,
            b: vk::ComponentSwizzle::B,
            a: vk::ComponentSwizzle::A,
        },
        subresource_range: vk::whole_image(vk::IMAGE_ASPECT_COLOR_BIT),
    }
}

/// The presentable images and their views.
#[derive(Clone, PartialEq, Eq, Debug)]
pub struct SwapChain {
    pub handle: vk::SwapchainKHR,
    pub images: Vec<vk::Image>,
    pub image_views: Vec<vk::ImageView>,
    pub image_count: u32,
}

impl SwapChain {
    /// The swapchain to create for what was settled for the surface.
    pub fn create_info(
        present_mode: i32,
        surface: &RVSurface,
        surface_capabilities: &RVSurfaceCapabilities,
    ) -> (info: SwapchainCreateInfoKHR)
        ensures
            info == (SwapchainCreateInfoKHR {
                surface: surface.handle,
                min_image_count: surface_capabilities.desired_image_count,
                image_format: surface_capabilities.format.format,
                image_color_space: surface_capabilities.format.color_space,
                image_extent: surface_capabilities.resolution,
                image_array_layers: 1,
                image_usage: vk::IMAGE_USAGE_COLOR_ATTACHMENT_BIT,
                pre_transform: surface_capabilities.pre_transform,
                composite_alpha: vk::COMPOSITE_ALPHA_OPAQUE_BIT_KHR,
                present_mode,
                clipped: true,
            }),
    {
        SwapchainCreateInfoKHR {
            surface: surface.handle,
            min_image_count: surface_capabilities.desired_image_count,
            image_format: surface_capabilities.format.format,
            image_color_space: surface_capabilities.format.color_space,
            image_extent: surface_capabilities.resolution,
            image_array_layers: 1,
            image_usage: vk::IMAGE_USAGE_COLOR_ATTACHMENT_BIT,
            pre_transform: surface_capabilities.pre_transform,
            composite_alpha: vk::COMPOSITE_ALPHA_OPAQUE_BIT_KHR,
            present_mode,
            clipped: true,
        }
    }

    /// The views to create for the swapchain's images, one per image.
    pub fn view_infos(images: &Vec<vk::Image>, format: i32) -> (infos: Vec<vk::ImageViewCreateInfo>)
        ensures
            infos@.len() == images@.len(),
            forall|i: int|
                0 <= i < images@.len() ==> #[trigger] infos@[i] == swapchain_view(
                    images@[i],
                    format,
                ),
    {
        let mut infos: Vec<vk::ImageViewCreateInfo> = Vec::new();
        let mut i: usize = 0;
        while i < images.len()
            invariant
                i <= images.len(),
                infos@.len() == i,
                forall|k: int|
                    0 <= k < i ==> #[trigger] infos@[k] == swapchain_view(images@[k], format),
            decreases images.len() - i,
        {
            infos.push(
                vk::ImageViewCreateInfo {
                    image: images[i],
                    format,
                    components: vk::ComponentMapping {
                        r: vk::ComponentSwizzle::R,
                        g: vk::ComponentSwizzle::G,
                        b: vk::ComponentSwizzle::B,
                        a: vk::ComponentSwizzle::A,
                    },
                    subresource_range: vk::ImageSubresourceRange {
                        aspect_mask: vk::IMAGE_ASPECT_COLOR_BIT,
                        base_mip_level: 0,
                        level_count: 1,
                        base_array_layer: 0,
                        layer_count: 1,
                    },
                },
            );
            i += 1;
        }
        infos
    }

    /// The swapchain made of its images and their views. Nothing is
    /// returned unless every image has a view and the images can be
    /// counted in 32 bits.
    pub fn assemble(handle: vk::SwapchainKHR, images: Vec<vk::Image>, image_views: Vec<vk::ImageView>) -> (made:
        Option<SwapChain>)
        ensures
            made is Some <==> images@.len() == image_views@.len() && images@.len() <= u32::MAX,
            made matches Some(chain) ==> {
                &&& chain.handle == handle
                &&& chain.images@ == images@
                &&& chain.image_views@ == image_views@
                &&& chain.image_count == images@.len()
            },
    {
        if images.len() != image_views.len() || images.len() > u32::MAX as usize {
            return None;
        }
        let image_count: u32 = images.len() as u32;
        Some(SwapChain { handle, images, image_views, image_count })
    }
}

/// What is handed to the presentation engine: one image of one swapchain,
/// once the semaphore is signalled.
#[derive(Clone, Copy, PartialEq, Eq, Structural, Debug)]
pub struct PresentInfoKHR {
    pub wait_semaphore: vk::Semaphore,
    pub swapchain: vk::SwapchainKHR,
    pub image_index: u32,
}

/// A request for the next presentable image.
#[derive(Clone, Copy, PartialEq, Eq, Structural, Debug)]
pub struct AcquireInfo {
    pub swapchain: vk::SwapchainKHR,
    pub timeout: u64,
    pub semaphore: vk::Semaphore,
}

/// The surface, what was settled for it, and its swapchain.
#[derive(Clone, PartialEq, Eq, Debug)]
pub struct RenderTarget {
    pub surface: RVSurface,
    pub capabilities: RVSurfaceCapabilities,
    pub swap_chain: SwapChain,
}

impl RenderTarget {
    /// The render target made of its parts, together with the device it
    /// was created on.
    pub fn create_render_target_and_device(
        surface: RVSurface,
        surface_capabilities: RVSurfaceCapabilities,
        swap_chain: SwapChain,
        device: crate::device::Device,
    ) -> (made: (RenderTarget, crate::device::Device))
        ensures
            made.0.surface == surface,
            made.0.capabilities == surface_capabilities,
            made.0.swap_chain == swap_chain,
            made.1 == device,
    {
        (RenderTarget { surface, capabilities: surface_capabilities, swap_chain }, device)
    }

    /// What to hand to the presentation engine for image `present_index`.
    pub fn present(&self, rendering_complete_semaphore: vk::Semaphore, present_index: u32) -> (info:
        PresentInfoKHR)
        ensures
            info == (PresentInfoKHR {
                wait_semaphore: rendering_complete_semaphore,
                swapchain: self.swap_chain.handle,
                image_index: present_index,
            }),
    {
        PresentInfoKHR {
            wait_semaphore: rendering_complete_semaphore,
            swapchain: self.swap_chain.handle,
            image_index: present_index,
        }
    }

    /// The request for the next image: wait without a time limit, and
    /// signal the semaphore when the image may be drawn to.
    pub fn next_image(&self, present_complete_semaphore: vk::Semaphore) -> (info: AcquireInfo)
        ensures
            info == (AcquireInfo {
                swapchain: self.swap_chain.handle,
                timeout: u64::MAX,
                semaphore: present_complete_semaphore,
            }),
    {
        AcquireInfo {
            swapchain: self.swap_chain.handle,
            timeout: u64::MAX,
            semaphore: present_complete_semaphore,
        }
    }

    /// The objects of the render target that were created from the device,
    /// in the order in which they are destroyed: the views of the
    /// swapchain images, then the swapchain. The surface is not among
    /// them; it outlives the device.
    pub open spec fn owned(&self) -> Seq<vk::Object> {
        Seq::new(
            self.swap_chain.image_views@.len(),
            |i: int| vk::Object::ImageView(self.swap_chain.image_views@[i]),
        ).push(vk::Object::Swapchain(self.swap_chain.handle))
    }

    /// What has to be destroyed to release the swapchain, in order.
    pub fn release(&self) -> (objects: Vec<vk::Object>)
        ensures
            objects@ == self.owned(),
    {
        let mut objects: Vec<vk::Object> = Vec::new();
        let mut i: usize = 0;
        while i < self.swap_chain.image_views.len()
            invariant
                i <= self.swap_chain.image_views@.len(),
                objects@ == Seq::new(
                    i as nat,
                    |k: int| vk::Object::ImageView(self.swap_chain.image_views@[k]),
                ),
            decreases self.swap_chain.image_views@.len() - i,
        {
            objects.push(vk::Object::ImageView(self.swap_chain.image_views[i]));
            i += 1;
            assert(objects@ =~= Seq::new(
                i as nat,
                |k: int| vk::Object::ImageView(self.swap_chain.image_views@[k]),
            ));
        }
        objects.push(vk::Object::Swapchain(self.swap_chain.handle));
        objects
    }
}

} // verus!
