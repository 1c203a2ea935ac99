//! Swapchain configuration rules: surface-format and present-mode selection
//! and the image-sharing arrangement between the graphics and present queues.

use vstd::prelude::*;
use crate::image::ImageFormat;

verus! {

/// Color spaces the renderer distinguishes; anything else is carried as its
/// raw numeric identifier.
#[derive(Clone, Copy, Debug, PartialEq, Eq, Structural)]
pub enum ColorSpace {
    SrgbNonlinear,
    Other(u32),
}

/// A surface format: a pixel format paired with a color space.
#[derive(Clone, Copy, Debug, PartialEq, Eq, Structural)]
pub struct SurfaceFormat {
    pub format: ImageFormat,
    pub color_space: ColorSpace,
}

/// Presentation modes the renderer distinguishes; anything else is carried
/// as its raw numeric identifier.
#[derive(Clone, Copy, Debug, PartialEq, Eq, Structural)]
pub enum PresentMode {
    Immediate,
    Mailbox,
    Fifo,
    FifoRelaxed,
    Other(u32),
}

/// How the swapchain images are shared between queue families.
#[derive(Clone, Copy, Debug, PartialEq, Eq, Structural)]
pub enum SharingMode {
    Exclusive,
    Concurrent,
}

/// The surface format the renderer prefers: sRGB pixels in the sRGB
/// non-linear color space.
pub open spec fn preferred_surface_format() -> SurfaceFormat {
    SurfaceFormat { format: ImageFormat::B8G8R8A8Srgb, color_space: ColorSpace::SrgbNonlinear }
}

/// The fallback when the preferred format is unavailable: linear (UNORM)
/// pixels in the sRGB non-linear color space.
pub open spec fn fallback_surface_format() -> SurfaceFormat {
    SurfaceFormat { format: ImageFormat::B8G8R8A8Unorm, color_space: ColorSpace::SrgbNonlinear }
}

/// The preferred surface format when the surface offers it, else the
/// fallback.
pub fn choose_surface_format(available: &Vec<SurfaceFormat>) -> (chosen: SurfaceFormat)
    ensures
        (exists|i: int| 0 <= i < available@.len() && available@[i] == preferred_surface_format())
            ==> chosen == preferred_surface_format(),
        !(exists|i: int| 0 <= i < available@.len() && available@[i] == preferred_surface_format())
            ==> chosen == fallback_surface_format(),
{
    let preferred = SurfaceFormat {
        format: ImageFormat::B8G8R8A8Srgb,
        color_space: ColorSpace::SrgbNonlinear,
    };
    let mut i: usize = 0;
    while i < available.len()
        invariant
            i <= available@.len(),
            preferred == preferred_surface_format(),
            forall|j: int| 0 <= j < i ==> available@[j] != preferred_surface_format(),
        decreases available@.len() - i,
    {
        if available[i] == preferred {
            return available[i];
        }
        i = i + 1;
    }
    SurfaceFormat { format: ImageFormat::B8G8R8A8Unorm, color_space: ColorSpace::SrgbNonlinear }
}

/// Mailbox when the device offers it, else FIFO, which every device
/// supports.
pub fn choose_present_mode(available: &Vec<PresentMode>) -> (mode: PresentMode)
    ensures
        (exists|i: int| 0 <= i < available@.len() && available@[i] == PresentMode::Mailbox)
            ==> mode == PresentMode::Mailbox,
        !(exists|i: int| 0 <= i < available@.len() && available@[i] == PresentMode::Mailbox)
            ==> mode == PresentMode::Fifo,
{
    let mut i: usize = 0;
    while i < available.len()
        invariant
            i <= available@.len(),
            forall|j: int| 0 <= j < i ==> available@[j] != PresentMode::Mailbox,
        decreases available@.len() - i,
    {
        if available[i] == PresentMode::Mailbox {
            return PresentMode::Mailbox;
        }
        i = i + 1;
    }
    PresentMode::Fifo
}

/// How the swapchain shares its images: the sharing mode and the queue
/// family indices listed in the swapchain's creation parameters.
pub struct SharingPlan {
    pub mode: SharingMode,
    pub queue_family_indices: Vec<u32>,
}

/// Concurrent sharing across both families when graphics and present live in
/// different queue families; exclusive ownership otherwise.
pub fn swapchain_sharing(graphics_family: u32, present_family: u32) -> (plan: SharingPlan)
    ensures
        graphics_family != present_family ==> plan.mode == SharingMode::Concurrent
            && plan.queue_family_indices@ == seq![graphics_family, present_family],
        graphics_family == present_family ==> plan.mode == SharingMode::Exclusive
            && plan.queue_family_indices@ == Seq::<u32>::empty(),
{
    if graphics_family != present_family {
        let mut indices: Vec<u32> = Vec::new();
        indices.push(graphics_family);
        indices.push(present_family);
        proof {
            assert(indices@ =~= seq![graphics_family, present_family]);
        }
        SharingPlan { mode: SharingMode::Concurrent, queue_family_indices: indices }
    } else {
        SharingPlan { mode: SharingMode::Exclusive, queue_family_indices: Vec::new() }
    }
}

/// Everything the swapchain's creation parameters decide, derived from what
/// the surface and device report.
pub struct SwapchainConfig {
    pub format: SurfaceFormat,
    pub present_mode: PresentMode,
    pub min_image_count: u32,
    pub sharing: SharingPlan,
    pub image_array_layers: u32,
    pub clipped: bool,
}

/// Assembles the swapchain configuration: chosen surface format, chosen
/// present mode, the surface's minimum image count, the sharing arrangement
/// for the two queue families, one image array layer, and clipping enabled.
pub fn swapchain_config(
    available_formats: &Vec<SurfaceFormat>,
    available_present_modes: &Vec<PresentMode>,
    surface_min_image_count: u32,
    graphics_family: u32,
    present_family: u32,
) -> (config: SwapchainConfig)
    ensures
        (exists|i: int|
            0 <= i < available_formats@.len() && available_formats@[i]
                == preferred_surface_format()) ==> config.format == preferred_surface_format(),
        !(exists|i: int|
            0 <= i < available_formats@.len() && available_formats@[i]
                == preferred_surface_format()) ==> config.format == fallback_surface_format(),
        (exists|i: int|
            0 <= i < available_present_modes@.len() && available_present_modes@[i]
                == PresentMode::Mailbox) ==> config.present_mode == PresentMode::Mailbox,
        !(exists|i: int|
            0 <= i < available_present_modes@.len() && available_present_modes@[i]
                == PresentMode::Mailbox) ==> config.present_mode == PresentMode::Fifo,
        config.min_image_count == surface_min_image_count,
        graphics_family != present_family ==> config.sharing.mode == SharingMode::Concurrent
            && config.sharing.queue_family_indices@ == seq![graphics_family, present_family],
        graphics_family == present_family ==> config.sharing.mode == SharingMode::Exclusive
            && config.sharing.queue_family_indices@ == Seq::<u32>::empty(),
        config.image_array_layers == 1,
        config.clipped,
{
    let format = choose_surface_format(available_formats);
    let present_mode = choose_present_mode(available_present_modes);
    let sharing = swapchain_sharing(graphics_family, present_family);
    SwapchainConfig {
        format,
        present_mode,
        min_image_count: surface_min_image_count,
        sharing,
        image_array_layers: 1,
        clipped: true,
    }
}

} // verus!
