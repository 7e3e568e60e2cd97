//! The size and the modes of the swapchain.
use gfx_hal::format::Format;
use gfx_hal::image::Usage;
use gfx_hal::window::{CompositeAlphaMode, Extent2D, PresentMode};
use vstd::prelude::*;

verus! {

/// The presentation mode that replaces a waiting image by a newer one.
pub const PRESENT_MAILBOX: u32 = 0x2;

/// The presentation mode that shows every image in turn.
pub const PRESENT_FIFO: u32 = 0x4;

/// The alpha mode that ignores the alpha channel.
pub const ALPHA_OPAQUE: u32 = 0x1;

/// The alpha mode that is left to the window system.
pub const ALPHA_INHERIT: u32 = 0x8;

/// The image usage of a colour attachment.
pub const USAGE_COLOR_ATTACHMENT: u32 = 0x10;

/// The number of images that a swapchain has where the surface allows it.
pub const IMAGE_COUNT: u32 = 3;

/// What the device can do with a surface. Sets of modes are bit masks.
#[derive(Clone, Copy, Debug, PartialEq)]
pub struct SurfaceCapabilities {
    /// The smallest number of images.
    pub min_image_count: u32,
    /// The largest number of images.
    pub max_image_count: u32,
    /// The extent of the surface, where it has one of its own.
    pub current_extent: Option<Extent2D>,
    /// The smallest extent.
    pub min_extent: Extent2D,
    /// The largest extent.
    pub max_extent: Extent2D,
    /// The largest number of layers of an image.
    pub max_image_layers: u16,
    /// The ways in which an image may be used.
    pub usage: u32,
    /// The presentation modes.
    pub present_modes: u32,
    /// The modes of compositing with what is behind the window.
    pub composite_alpha_modes: u32,
}

/// How a swapchain is to be configured.
#[derive(Clone, Copy, Debug, PartialEq)]
pub struct SwapchainConfig {
    pub present_mode: u32,
    pub composite_alpha_mode: u32,
    pub format: Format,
    pub extent: Extent2D,
    pub image_count: u32,
    pub image_layers: u16,
    pub image_usage: u32,
}

/// Whether a mask holds every bit of `mode`.
pub open spec fn includes(mask: u32, mode: u32) -> bool {
    mask & mode == mode
}

/// The number nearest to `n` that is at least `low` and at most `high`; `high`
/// where the two contradict each other.
pub open spec fn clamp(n: u32, low: u32, high: u32) -> u32 {
    if high <= n || high <= low {
        high
    } else if n <= low {
        low
    } else {
        n
    }
}

impl SurfaceCapabilities {
    /// Some alpha mode that the program can use is supported.
    pub open spec fn has_alpha_mode(self) -> bool {
        includes(self.composite_alpha_modes, ALPHA_INHERIT) || includes(
            self.composite_alpha_modes,
            ALPHA_OPAQUE,
        )
    }

    /// Some presentation mode that the program can use is supported.
    pub open spec fn has_present_mode(self) -> bool {
        includes(self.present_modes, PRESENT_MAILBOX) || includes(self.present_modes, PRESENT_FIFO)
    }

    /// The extent of the images: that of the surface, or `wanted` brought within
    /// the limits where the surface has none.
    pub open spec fn extent_for(self, wanted: Extent2D) -> Extent2D {
        match self.current_extent {
            Some(current) => current,
            None => Extent2D {
                width: clamp(wanted.width, self.min_extent.width, self.max_extent.width),
                height: clamp(wanted.height, self.min_extent.height, self.max_extent.height),
            },
        }
    }

    /// The configuration of a swapchain for this surface.
    pub open spec fn config_for(self, format: Format, wanted: Extent2D) -> SwapchainConfig {
        SwapchainConfig {
            present_mode: if includes(self.present_modes, PRESENT_MAILBOX) {
                PRESENT_MAILBOX
            } else {
                PRESENT_FIFO
            },
            composite_alpha_mode: if includes(self.composite_alpha_modes, ALPHA_INHERIT) {
                ALPHA_INHERIT
            } else {
                ALPHA_OPAQUE
            },
            format,
            extent: self.extent_for(wanted),
            image_count: clamp(IMAGE_COUNT, self.min_image_count, self.max_image_count),
            image_layers: 1,
            image_usage: USAGE_COLOR_ATTACHMENT,
        }
    }

    /// Whether the surface supports an alpha mode that the program can use.
    pub fn check_alpha_mode(&self) -> (supported: bool)
        ensures
            supported == self.has_alpha_mode(),
    {
        let modes: u32 = self.composite_alpha_modes;
        modes & ALPHA_INHERIT == ALPHA_INHERIT || modes & ALPHA_OPAQUE == ALPHA_OPAQUE
    }

    /// Whether the surface supports a presentation mode that the program can
    /// use.
    pub fn check_present_mode(&self) -> (supported: bool)
        ensures
            supported == self.has_present_mode(),
    {
        let modes: u32 = self.present_modes;
        modes & PRESENT_MAILBOX == PRESENT_MAILBOX || modes & PRESENT_FIFO == PRESENT_FIFO
    }
}

/// `gfx_hal::window::SwapchainConfig::from_caps`: prefers the mailbox to the
/// first-in-first-out mode and inherited to opaque alpha, and panics where
/// neither of a pair is supported; takes the extent of the surface or clamps the
/// wanted one; clamps three images to the supported number; asks for one layer,
/// used as a colour attachment.
#[verifier::external_body]
fn from_caps(caps: &SurfaceCapabilities, format: Format, wanted: Extent2D) -> (config:
    SwapchainConfig)
    requires
        caps.has_alpha_mode(),
        caps.has_present_mode(),
    ensures
        config == caps.config_for(format, wanted),
{
    let capabilities = gfx_hal::window::SurfaceCapabilities {
        image_count: caps.min_image_count..=caps.max_image_count,
        current_extent: caps.current_extent, max_image_layers: caps.max_image_layers,
        extents: caps.min_extent..=caps.max_extent, usage: Usage::from_bits_truncate(caps.usage),
        present_modes: PresentMode::from_bits_truncate(caps.present_modes),
        composite_alpha_modes: CompositeAlphaMode::from_bits_truncate(caps.composite_alpha_modes),
    };
    let config = gfx_hal::window::SwapchainConfig::from_caps(&capabilities, format, wanted);
    SwapchainConfig {
        present_mode: config.present_mode.bits(),
        composite_alpha_mode: config.composite_alpha_mode.bits(),
        image_usage: config.image_usage.bits(), image_layers: config.image_layers,
        format: config.format, extent: config.extent, image_count: config.image_count,
    }
}

/// Chooses the configuration of the swapchain. Three images are asked for where
/// the surface allows them.
pub fn swapchain_config(caps: &SurfaceCapabilities, format: Format, wanted: Extent2D) -> (config:
    SwapchainConfig)
    requires
        caps.has_alpha_mode(),
        caps.has_present_mode(),
    ensures
        config == caps.config_for(format, wanted),
{
    let mut config = from_caps(caps, format, wanted);
    if caps.min_image_count <= IMAGE_COUNT && IMAGE_COUNT <= caps.max_image_count {
        config.image_count = IMAGE_COUNT;
    }
    config
}

/// A swapchain is never configured to what the surface does not support: its
/// modes are among the supported ones, and where the limits are consistent its
/// extent and its number of images are within them.
pub proof fn law_config_is_supported(
    caps: SurfaceCapabilities,
    format: Format,
    wanted: Extent2D,
)
    requires
        caps.has_alpha_mode(),
        caps.has_present_mode(),
    ensures
        includes(caps.present_modes, caps.config_for(format, wanted).present_mode),
        includes(caps.composite_alpha_modes, caps.config_for(format, wanted).composite_alpha_mode),
        caps.min_image_count <= caps.max_image_count ==> caps.min_image_count <= caps.config_for(
            format,
            wanted,
        ).image_count <= caps.max_image_count,
        caps.current_extent is None && caps.min_extent.width <= caps.max_extent.width
            ==> caps.min_extent.width <= caps.config_for(format, wanted).extent.width
            <= caps.max_extent.width,
        caps.current_extent is None && caps.min_extent.height <= caps.max_extent.height
            ==> caps.min_extent.height <= caps.config_for(format, wanted).extent.height
            <= caps.max_extent.height,
{
}

/// A wanted extent within the limits is kept where the surface has no extent of
/// its own.
pub proof fn law_possible_extent_is_kept(
    caps: SurfaceCapabilities,
    format: Format,
    wanted: Extent2D,
)
    requires
        caps.current_extent is None,
        caps.min_extent.width <= wanted.width <= caps.max_extent.width,
        caps.min_extent.height <= wanted.height <= caps.max_extent.height,
    ensures
        caps.config_for(format, wanted).extent == wanted,
{
}

/// Configuring again with the extent that came out changes nothing.
pub proof fn law_configuration_is_stable(
    caps: SurfaceCapabilities,
    format: Format,
    wanted: Extent2D,
)
    ensures
        caps.config_for(format, caps.config_for(format, wanted).extent) == caps.config_for(
            format,
            wanted,
        ),
{
}

/// A mask holds a mode exactly if no bit of the mode is missing in it.
pub proof fn law_mask_holds_every_bit(mask: u32, mode: u32)
    ensures
        includes(mask, mode) <==> mode & !mask == 0,
{
    assert((mask & mode == mode) <==> (mode & !mask == 0)) by (bit_vector);
}

/// A surface can be used exactly if it supports one of the two alpha modes and one of
/// the two presentation modes, whatever else it supports.
pub proof fn law_usable_surface_has_the_modes(caps: SurfaceCapabilities)
    ensures
        caps.has_alpha_mode() <==> caps.composite_alpha_modes & 0x8 != 0
            || caps.composite_alpha_modes & 0x1 != 0,
        caps.has_present_mode() <==> caps.present_modes & 0x2 != 0 || caps.present_modes & 0x4
            != 0,
{
    let (alpha, present) = (caps.composite_alpha_modes, caps.present_modes);
    assert(alpha & 0x8 == 0x8 <==> alpha & 0x8 != 0) by (bit_vector);
    assert(alpha & 0x1 == 0x1 <==> alpha & 0x1 != 0) by (bit_vector);
    assert(present & 0x2 == 0x2 <==> present & 0x2 != 0) by (bit_vector);
    assert(present & 0x4 == 0x4 <==> present & 0x4 != 0) by (bit_vector);
}

/// The mailbox is preferred to the queue, and the alpha mode of the window system to
/// the opaque one. The format is the given one, and the images have one layer and are
/// drawn to.
pub proof fn law_modes_are_preferred_in_order(
    caps: SurfaceCapabilities,
    format: Format,
    wanted: Extent2D,
)
    ensures
        caps.present_modes & 0x2 != 0 ==> caps.config_for(format, wanted).present_mode == 0x2,
        caps.present_modes & 0x2 == 0 ==> caps.config_for(format, wanted).present_mode == 0x4,
        caps.composite_alpha_modes & 0x8 != 0 ==> caps.config_for(
            format,
            wanted,
        ).composite_alpha_mode == 0x8,
        caps.composite_alpha_modes & 0x8 == 0 ==> caps.config_for(
            format,
            wanted,
        ).composite_alpha_mode == 0x1,
        caps.config_for(format, wanted).format == format,
        caps.config_for(format, wanted).image_layers == 1,
        caps.config_for(format, wanted).image_usage == 0x10,
{
    let (alpha, present) = (caps.composite_alpha_modes, caps.present_modes);
    assert(alpha & 0x8 == 0x8 <==> alpha & 0x8 != 0) by (bit_vector);
    assert(present & 0x2 == 0x2 <==> present & 0x2 != 0) by (bit_vector);
}

/// There are three images wherever the surface allows three, and otherwise as many as
/// are nearest to it: the least number where that is larger, the largest where that
/// is smaller.
pub proof fn law_three_images_where_possible(
    caps: SurfaceCapabilities,
    format: Format,
    wanted: Extent2D,
)
    ensures
        caps.min_image_count <= 3 <= caps.max_image_count ==> caps.config_for(
            format,
            wanted,
        ).image_count == 3,
        3 < caps.min_image_count <= caps.max_image_count ==> caps.config_for(
            format,
            wanted,
        ).image_count == caps.min_image_count,
        caps.max_image_count < 3 ==> caps.config_for(format, wanted).image_count
            == caps.max_image_count,
        caps.max_image_count < caps.min_image_count ==> caps.config_for(format, wanted).image_count
            == caps.max_image_count,
{
}

/// A surface with an extent of its own dictates it; otherwise each side is the wanted
/// one, or the nearest limit where it is outside the limits.
pub proof fn law_extent_is_the_nearest(
    caps: SurfaceCapabilities,
    format: Format,
    wanted: Extent2D,
)
    ensures
        ({
            let extent = caps.config_for(format, wanted).extent;
            let (low, high) = (caps.min_extent, caps.max_extent);
            &&& caps.extent_for(wanted) == extent
            &&& caps.current_extent matches Some(current) ==> extent.width == current.width
                && extent.height == current.height
            &&& caps.current_extent is None ==> {
                &&& low.width <= wanted.width <= high.width ==> extent.width == wanted.width
                &&& wanted.width < low.width <= high.width ==> extent.width == low.width
                &&& high.width < wanted.width || high.width < low.width ==> extent.width
                    == high.width
                &&& low.height <= wanted.height <= high.height ==> extent.height == wanted.height
                &&& wanted.height < low.height <= high.height ==> extent.height == low.height
                &&& high.height < wanted.height || high.height < low.height ==> extent.height
                    == high.height
            }
        }),
{
}

} // verus!
