//! What the library takes from `gfx-hal`: plain enums and structs, which Verus
//! reads from the crate itself, and the few functions that compute on them.
use gfx_hal::command::Level;
use gfx_hal::format::{BaseFormat, ChannelType, Format, SurfaceType};
use gfx_hal::image::{Extent, Layout};
use gfx_hal::pass::{Attachment, AttachmentLoadOp, AttachmentOps, AttachmentStoreOp};
use gfx_hal::pso::{
    BlendOp, BlendState, Factor, FrontFace, InputAssemblerDesc, PolygonMode, Primitive, Rect,
};
use gfx_hal::queue::QueueType;
use gfx_hal::window::Extent2D;
use gfx_hal::IndexType;
use vstd::prelude::*;

verus! {

/// `gfx_hal::queue::QueueType`, an enum without fields.
#[verifier::external_type_specification]
pub struct ExQueueType(QueueType);

/// `gfx_hal::format::Format`, an enum without fields.
#[verifier::external_type_specification]
pub struct ExFormat(Format);

/// `gfx_hal::format::SurfaceType`, an enum without fields.
#[verifier::external_type_specification]
pub struct ExSurfaceType(SurfaceType);

/// `gfx_hal::format::ChannelType`, an enum without fields.
#[verifier::external_type_specification]
pub struct ExChannelType(ChannelType);

/// `gfx_hal::format::BaseFormat`, a pair of a surface type and a channel type.
#[verifier::external_type_specification]
pub struct ExBaseFormat(BaseFormat);

/// `gfx_hal::window::Extent2D`, a width and a height.
#[verifier::external_type_specification]
pub struct ExExtent2D(Extent2D);

/// `gfx_hal::image::Extent`, a width, a height and a depth.
#[verifier::external_type_specification]
pub struct ExExtent(Extent);

/// `gfx_hal::image::Layout`, an enum without fields.
#[verifier::external_type_specification]
pub struct ExLayout(Layout);

/// `gfx_hal::pso::Rect`, a position and a size.
#[verifier::external_type_specification]
pub struct ExRect(Rect);

/// `gfx_hal::pso::Primitive`, an enum of topologies.
#[verifier::external_type_specification]
pub struct ExPrimitive(Primitive);

/// `gfx_hal::IndexType`, an enum without fields.
#[verifier::external_type_specification]
pub struct ExIndexType(IndexType);

/// `gfx_hal::pso::InputAssemblerDesc`, the description of an input assembler.
#[verifier::external_type_specification]
pub struct ExInputAssemblerDesc(InputAssemblerDesc);

/// `gfx_hal::pso::PolygonMode`, an enum without fields.
#[verifier::external_type_specification]
pub struct ExPolygonMode(PolygonMode);

/// `gfx_hal::pso::FrontFace`, an enum without fields.
#[verifier::external_type_specification]
pub struct ExFrontFace(FrontFace);

/// `gfx_hal::pso::Factor`, an enum without fields.
#[verifier::external_type_specification]
pub struct ExFactor(Factor);

/// `gfx_hal::pso::BlendOp`, an enum of operations with their factors.
#[verifier::external_type_specification]
pub struct ExBlendOp(BlendOp);

/// `gfx_hal::pso::BlendState`, one operation for colours and one for alpha.
#[verifier::external_type_specification]
pub struct ExBlendState(BlendState);

/// `gfx_hal::command::Level`, an enum without fields.
#[verifier::external_type_specification]
pub struct ExLevel(Level);

/// `gfx_hal::pass::AttachmentLoadOp`, an enum without fields.
#[verifier::external_type_specification]
pub struct ExAttachmentLoadOp(AttachmentLoadOp);

/// `gfx_hal::pass::AttachmentStoreOp`, an enum without fields.
#[verifier::external_type_specification]
pub struct ExAttachmentStoreOp(AttachmentStoreOp);

/// `gfx_hal::pass::AttachmentOps`, a pair of a load and a store operation.
#[verifier::external_type_specification]
pub struct ExAttachmentOps(AttachmentOps);

/// `gfx_hal::pass::Attachment`, the description of one attachment.
#[verifier::external_type_specification]
pub struct ExAttachment(Attachment);

/// The queue types that can run graphics commands.
pub open spec fn runs_graphics(kind: QueueType) -> bool {
    kind is General || kind is Graphics
}

/// The formats whose channels are normalised values in the sRGB encoding.
pub open spec fn is_srgb(format: Format) -> bool {
    ||| is_plain_srgb(format)
    ||| is_block_srgb(format)
    ||| is_astc_srgb(format)
}

/// The sRGB formats that store each texel on its own.
pub open spec fn is_plain_srgb(format: Format) -> bool {
    ||| format is R8Srgb
    ||| format is Rg8Srgb
    ||| format is Rgb8Srgb
    ||| format is Bgr8Srgb
    ||| format is Rgba8Srgb
    ||| format is Bgra8Srgb
    ||| format is Abgr8Srgb
}

/// The sRGB formats of the BC and ETC2 block compressions.
pub open spec fn is_block_srgb(format: Format) -> bool {
    ||| format is Bc1RgbSrgb
    ||| format is Bc1RgbaSrgb
    ||| format is Bc2Srgb
    ||| format is Bc3Srgb
    ||| format is Bc7Srgb
    ||| format is Etc2R8g8b8Srgb
    ||| format is Etc2R8g8b8a1Srgb
    ||| format is Etc2R8g8b8a8Srgb
}

/// The sRGB formats of the ASTC block compression.
pub open spec fn is_astc_srgb(format: Format) -> bool {
    ||| format is Astc4x4Srgb
    ||| format is Astc5x4Srgb
    ||| format is Astc5x5Srgb
    ||| format is Astc6x5Srgb
    ||| format is Astc6x6Srgb
    ||| format is Astc8x5Srgb
    ||| format is Astc8x6Srgb
    ||| format is Astc8x8Srgb
    ||| format is Astc10x5Srgb
    ||| format is Astc10x6Srgb
    ||| format is Astc10x8Srgb
    ||| format is Astc10x10Srgb
    ||| format is Astc12x10Srgb
    ||| format is Astc12x12Srgb
}

/// `QueueType::supports_graphics`: true of the general and of the graphics
/// queues, and of no other.
pub assume_specification[ QueueType::supports_graphics ](kind: &QueueType) -> (supported: bool)
    ensures
        supported == runs_graphics(*kind),
;

/// `Format::base_format`: looks the format up in the crate's table of surface
/// and channel types. The channel type is `Srgb` for exactly the formats of
/// `is_srgb`. The marker variant that counts the formats has no entry, and the
/// function panics on it. Which surface type comes back, and which of the other
/// channel types, is left unsaid.
pub assume_specification[ Format::base_format ](format: Format) -> (base: BaseFormat)
    requires
        format !is __NumFormats,
    ensures
        base.1 is Srgb <==> is_srgb(format),
;

/// `InputAssemblerDesc::new`: the given topology, without adjacency and without
/// primitive restart.
pub assume_specification[ InputAssemblerDesc::new ](primitive: Primitive) -> (assembler:
    InputAssemblerDesc)
    ensures
        assembler.primitive == primitive,
        !assembler.with_adjacency,
        assembler.restart_index is None,
;

/// `AttachmentOps::new`: pairs the two operations.
pub assume_specification[ AttachmentOps::new ](
    load: AttachmentLoadOp,
    store: AttachmentStoreOp,
) -> (ops: AttachmentOps)
    ensures
        ops.load == load,
        ops.store == store,
;

} // verus!
