use gfx_hal::format::Format;
use gfx_hal::image::Usage;
use gfx_hal::window::{CompositeAlphaMode, Extent2D, PresentMode};
use rust_gfx::swapchain::{
    swapchain_config, SurfaceCapabilities, SwapchainConfig, ALPHA_INHERIT, ALPHA_OPAQUE,
    PRESENT_FIFO, PRESENT_MAILBOX, USAGE_COLOR_ATTACHMENT,
};

fn extent(width: u32, height: u32) -> Extent2D {
    Extent2D { width, height }
}

fn caps() -> SurfaceCapabilities {
    SurfaceCapabilities {
        min_image_count: 1,
        max_image_count: 8,
        current_extent: None,
        min_extent: extent(16, 32),
        max_extent: extent(1024, 768),
        max_image_layers: 4,
        usage: 0xff,
        present_modes: 0xf,
        composite_alpha_modes: 0xf,
    }
}

fn config(caps: SurfaceCapabilities) -> SwapchainConfig {
    swapchain_config(&caps, Format::Bgra8Srgb, extent(512, 512))
}

#[test]
fn masks_are_those_of_the_device_layer() {
    assert_eq!(PRESENT_MAILBOX, PresentMode::MAILBOX.bits());
    assert_eq!(PRESENT_FIFO, PresentMode::FIFO.bits());
    assert_eq!(ALPHA_OPAQUE, CompositeAlphaMode::OPAQUE.bits());
    assert_eq!(ALPHA_INHERIT, CompositeAlphaMode::INHERIT.bits());
    assert_eq!(USAGE_COLOR_ATTACHMENT, Usage::COLOR_ATTACHMENT.bits());
}

#[test]
fn preferred_configuration() {
    let expected = SwapchainConfig {
        present_mode: PRESENT_MAILBOX,
        composite_alpha_mode: ALPHA_INHERIT,
        format: Format::Bgra8Srgb,
        extent: extent(512, 512),
        image_count: 3,
        image_layers: 1,
        image_usage: USAGE_COLOR_ATTACHMENT,
    };
    assert_eq!(config(caps()), expected);
}

#[test]
fn second_choice_of_modes() {
    let c = config(SurfaceCapabilities {
        present_modes: PRESENT_FIFO | 0x1,
        composite_alpha_modes: ALPHA_OPAQUE | 0x2,
        ..caps()
    });
    assert_eq!((c.present_mode, c.composite_alpha_mode), (PRESENT_FIFO, ALPHA_OPAQUE));
}

#[test]
fn unknown_bits_are_ignored() {
    let c = config(SurfaceCapabilities {
        present_modes: 0xffff_fff4,
        composite_alpha_modes: 0xffff_fff1,
        usage: u32::MAX,
        ..caps()
    });
    assert_eq!((c.present_mode, c.composite_alpha_mode), (PRESENT_FIFO, ALPHA_OPAQUE));
}

#[test]
fn modes_are_checked() {
    assert!(caps().check_alpha_mode());
    assert!(caps().check_present_mode());
    assert!(!SurfaceCapabilities { composite_alpha_modes: 0x6, ..caps() }.check_alpha_mode());
    assert!(!SurfaceCapabilities { composite_alpha_modes: 0, ..caps() }.check_alpha_mode());
    assert!(!SurfaceCapabilities { present_modes: 0x9, ..caps() }.check_present_mode());
    assert!(SurfaceCapabilities { present_modes: 0x4, ..caps() }.check_present_mode());
    assert!(SurfaceCapabilities { composite_alpha_modes: 0x8, ..caps() }.check_alpha_mode());
}

#[test]
fn extent_of_the_surface_wins() {
    let c = config(SurfaceCapabilities { current_extent: Some(extent(2000, 3)), ..caps() });
    assert_eq!(c.extent, extent(2000, 3));
}

#[test]
fn wanted_extent_is_clamped() {
    let format = Format::Rgba8Srgb;
    assert_eq!(swapchain_config(&caps(), format, extent(1, 2000)).extent, extent(16, 768));
    assert_eq!(swapchain_config(&caps(), format, extent(5000, 1)).extent, extent(1024, 32));
    assert_eq!(swapchain_config(&caps(), format, extent(640, 480)).extent, extent(640, 480));
}

#[test]
fn upper_limit_wins_over_the_lower() {
    let contrary = SurfaceCapabilities {
        min_image_count: 6,
        max_image_count: 5,
        min_extent: extent(100, 100),
        max_extent: extent(50, 60),
        ..caps()
    };
    assert_eq!(config(contrary).extent, extent(50, 60));
    assert_eq!(config(contrary).image_count, 5);
}

#[test]
fn number_of_images() {
    let count = |min_image_count, max_image_count| {
        config(SurfaceCapabilities { min_image_count, max_image_count, ..caps() }).image_count
    };
    assert_eq!(count(1, 8), 3);
    assert_eq!(count(3, 3), 3);
    assert_eq!(count(1, 2), 2);
    assert_eq!(count(4, 8), 4);
    assert_eq!(count(2, 1), 1);
}

#[test]
fn configuring_twice_changes_nothing() {
    let first = swapchain_config(&caps(), Format::Rgba8Srgb, extent(1, 9999));
    let second = swapchain_config(&caps(), Format::Rgba8Srgb, first.extent);
    assert_eq!(first, second);
}
