use gfx_hal::format::Format;
use gfx_hal::image::Layout;
use gfx_hal::pass::{AttachmentLoadOp, AttachmentOps, AttachmentStoreOp};
use gfx_hal::queue::QueueType;
use rust_gfx::setup::{
    render_pass_plan, select_queue_family, surface_color_format, QueueFamilyInfo, SubpassPlan,
    APP_NAME, APP_VERSION, WINDOW_HEIGHT, WINDOW_WIDTH,
};

fn family(presents: bool, queue_type: QueueType) -> QueueFamilyInfo {
    QueueFamilyInfo { presents, queue_type }
}

#[test]
fn family_fits_if_it_draws_and_presents() {
    assert!(family(true, QueueType::General).check());
    assert!(family(true, QueueType::Graphics).check());
    assert!(!family(false, QueueType::Graphics).check());
    assert!(!family(true, QueueType::Compute).check());
    assert!(!family(true, QueueType::Transfer).check());
}

#[test]
fn families_behind_the_first_fit_make_no_difference() {
    let known = vec![family(true, QueueType::Compute), family(true, QueueType::Graphics)];
    let mut all = known.clone();
    all.push(family(true, QueueType::General));
    assert_eq!(select_queue_family(&known), Some(1));
    assert_eq!(select_queue_family(&all), Some(1));
}

#[test]
fn window_constants() {
    assert_eq!(APP_NAME, "Rust GFX");
    assert_eq!(APP_VERSION, 1);
    assert_eq!((WINDOW_WIDTH, WINDOW_HEIGHT), (512, 512));
}

#[test]
fn first_fitting_queue_family_is_selected() {
    let families = vec![
        family(true, QueueType::Transfer),
        family(false, QueueType::General),
        family(true, QueueType::Compute),
        family(true, QueueType::Graphics),
        family(true, QueueType::General),
    ];
    assert_eq!(select_queue_family(&families), Some(3));
}

#[test]
fn general_queue_family_fits() {
    assert_eq!(select_queue_family(&vec![family(true, QueueType::General)]), Some(0));
}

#[test]
fn no_queue_family_fits() {
    assert_eq!(select_queue_family(&vec![]), None);
    let families = vec![
        family(true, QueueType::Compute),
        family(true, QueueType::Transfer),
        family(false, QueueType::Graphics),
    ];
    assert_eq!(select_queue_family(&families), None);
}

#[test]
fn surface_without_preference_is_drawn_in_rgba8_srgb() {
    assert_eq!(surface_color_format(None), Format::Rgba8Srgb);
    assert_eq!(surface_color_format(Some(vec![])), Format::Rgba8Srgb);
}

#[test]
fn first_srgb_format_is_preferred() {
    let formats = vec![Format::Rgba8Unorm, Format::Bgra8Srgb, Format::Rgba8Srgb];
    assert_eq!(surface_color_format(Some(formats)), Format::Bgra8Srgb);
}

#[test]
fn first_format_is_taken_without_srgb() {
    let formats = vec![Format::Bgra8Unorm, Format::Rgba8Unorm, Format::Rgba16Sfloat];
    assert_eq!(surface_color_format(Some(formats)), Format::Bgra8Unorm);
}

#[test]
fn every_srgb_format_is_recognised() {
    let srgb = vec![
        Format::R8Srgb, Format::Rg8Srgb, Format::Rgb8Srgb, Format::Bgr8Srgb, Format::Rgba8Srgb,
        Format::Bgra8Srgb, Format::Abgr8Srgb, Format::Bc1RgbSrgb, Format::Bc1RgbaSrgb,
        Format::Bc2Srgb, Format::Bc3Srgb, Format::Bc7Srgb, Format::Etc2R8g8b8Srgb,
        Format::Etc2R8g8b8a1Srgb, Format::Etc2R8g8b8a8Srgb, Format::Astc4x4Srgb,
        Format::Astc5x4Srgb, Format::Astc5x5Srgb, Format::Astc6x5Srgb, Format::Astc6x6Srgb,
        Format::Astc8x5Srgb, Format::Astc8x6Srgb, Format::Astc8x8Srgb, Format::Astc10x5Srgb,
        Format::Astc10x6Srgb, Format::Astc10x8Srgb, Format::Astc10x10Srgb, Format::Astc12x10Srgb,
        Format::Astc12x12Srgb,
    ];
    assert_eq!(srgb.len(), 29);
    for format in srgb {
        let formats = vec![Format::Rg4Unorm, format, Format::Rgba8Unorm];
        assert_eq!(surface_color_format(Some(formats)), format);
    }
}

#[test]
fn no_other_format_passes_for_srgb() {
    let others = vec![
        Format::Rg4Unorm, Format::Rgba4Unorm, Format::Bgra4Unorm, Format::R5g6b5Unorm,
        Format::B5g6r5Unorm, Format::R5g5b5a1Unorm, Format::B5g5r5a1Unorm, Format::A1r5g5b5Unorm,
        Format::R8Unorm, Format::R8Snorm, Format::R8Uscaled, Format::R8Sscaled, Format::R8Uint,
        Format::R8Sint, Format::Rg8Unorm, Format::Rg8Snorm, Format::Rg8Uscaled, Format::Rg8Sscaled,
        Format::Rg8Uint, Format::Rg8Sint, Format::Rgb8Unorm, Format::Rgb8Snorm, Format::Rgb8Uscaled,
        Format::Rgb8Sscaled, Format::Rgb8Uint, Format::Rgb8Sint, Format::Bgr8Unorm,
        Format::Bgr8Snorm, Format::Bgr8Uscaled, Format::Bgr8Sscaled, Format::Bgr8Uint,
        Format::Bgr8Sint, Format::Rgba8Unorm, Format::Rgba8Snorm, Format::Rgba8Uscaled,
        Format::Rgba8Sscaled, Format::Rgba8Uint, Format::Rgba8Sint, Format::Bgra8Unorm,
        Format::Bgra8Snorm, Format::Bgra8Uscaled, Format::Bgra8Sscaled, Format::Bgra8Uint,
        Format::Bgra8Sint, Format::Abgr8Unorm, Format::Abgr8Snorm, Format::Abgr8Uscaled,
        Format::Abgr8Sscaled, Format::Abgr8Uint, Format::Abgr8Sint, Format::A2r10g10b10Unorm,
        Format::A2r10g10b10Snorm, Format::A2r10g10b10Uscaled, Format::A2r10g10b10Sscaled,
        Format::A2r10g10b10Uint, Format::A2r10g10b10Sint, Format::A2b10g10r10Unorm,
        Format::A2b10g10r10Snorm, Format::A2b10g10r10Uscaled, Format::A2b10g10r10Sscaled,
        Format::A2b10g10r10Uint, Format::A2b10g10r10Sint, Format::R16Unorm, Format::R16Snorm,
        Format::R16Uscaled, Format::R16Sscaled, Format::R16Uint, Format::R16Sint, Format::R16Sfloat,
        Format::Rg16Unorm, Format::Rg16Snorm, Format::Rg16Uscaled, Format::Rg16Sscaled,
        Format::Rg16Uint, Format::Rg16Sint, Format::Rg16Sfloat, Format::Rgb16Unorm,
        Format::Rgb16Snorm, Format::Rgb16Uscaled, Format::Rgb16Sscaled, Format::Rgb16Uint,
        Format::Rgb16Sint, Format::Rgb16Sfloat, Format::Rgba16Unorm, Format::Rgba16Snorm,
        Format::Rgba16Uscaled, Format::Rgba16Sscaled, Format::Rgba16Uint, Format::Rgba16Sint,
        Format::Rgba16Sfloat, Format::R32Uint, Format::R32Sint, Format::R32Sfloat, Format::Rg32Uint,
        Format::Rg32Sint, Format::Rg32Sfloat, Format::Rgb32Uint, Format::Rgb32Sint,
        Format::Rgb32Sfloat, Format::Rgba32Uint, Format::Rgba32Sint, Format::Rgba32Sfloat,
        Format::R64Uint, Format::R64Sint, Format::R64Sfloat, Format::Rg64Uint, Format::Rg64Sint,
        Format::Rg64Sfloat, Format::Rgb64Uint, Format::Rgb64Sint, Format::Rgb64Sfloat,
        Format::Rgba64Uint, Format::Rgba64Sint, Format::Rgba64Sfloat, Format::B10g11r11Ufloat,
        Format::E5b9g9r9Ufloat, Format::D16Unorm, Format::X8D24Unorm, Format::D32Sfloat,
        Format::S8Uint, Format::D16UnormS8Uint, Format::D24UnormS8Uint, Format::D32SfloatS8Uint,
        Format::Bc1RgbUnorm, Format::Bc1RgbaUnorm, Format::Bc2Unorm, Format::Bc3Unorm,
        Format::Bc4Unorm, Format::Bc4Snorm, Format::Bc5Unorm, Format::Bc5Snorm, Format::Bc6hUfloat,
        Format::Bc6hSfloat, Format::Bc7Unorm, Format::Etc2R8g8b8Unorm, Format::Etc2R8g8b8a1Unorm,
        Format::Etc2R8g8b8a8Unorm, Format::EacR11Unorm, Format::EacR11Snorm, Format::EacR11g11Unorm,
        Format::EacR11g11Snorm, Format::Astc4x4Unorm, Format::Astc5x4Unorm, Format::Astc5x5Unorm,
        Format::Astc6x5Unorm, Format::Astc6x6Unorm, Format::Astc8x5Unorm, Format::Astc8x6Unorm,
        Format::Astc8x8Unorm, Format::Astc10x5Unorm, Format::Astc10x6Unorm, Format::Astc10x8Unorm,
        Format::Astc10x10Unorm, Format::Astc12x10Unorm, Format::Astc12x12Unorm,
    ];
    assert_eq!(others.len(), 155);
    for format in others {
        let formats = vec![format, Format::Abgr8Srgb];
        assert_eq!(surface_color_format(Some(formats)), Format::Abgr8Srgb);
        assert_eq!(surface_color_format(Some(vec![format])), format);
    }
}

#[test]
fn render_pass_clears_and_presents_one_attachment() {
    let plan = render_pass_plan(Format::Bgra8Srgb);
    assert_eq!(plan.attachments.len(), 1);
    let color = &plan.attachments[0];
    assert_eq!(color.format, Some(Format::Bgra8Srgb));
    assert_eq!(color.samples, 1);
    assert_eq!(color.ops, AttachmentOps::new(AttachmentLoadOp::Clear, AttachmentStoreOp::Store));
    assert_eq!(color.stencil_ops, AttachmentOps::DONT_CARE);
    assert_eq!(color.layouts, Layout::Undefined..Layout::Present);
    let subpass = SubpassPlan {
        colors: vec![(0, Layout::ColorAttachmentOptimal)],
        depth_stencil: None,
        inputs: vec![],
        resolves: vec![],
        preserves: vec![],
    };
    assert_eq!(plan.subpasses, vec![subpass]);
    assert_eq!(plan.dependencies, 0);
}
