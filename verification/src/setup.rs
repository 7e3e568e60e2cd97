//! The choices made once, before the first frame.
use crate::hal::{is_srgb, runs_graphics};
use gfx_hal::format::{ChannelType, Format};
use gfx_hal::image::Layout;
use gfx_hal::pass::{Attachment, AttachmentLoadOp, AttachmentOps, AttachmentStoreOp};
use gfx_hal::queue::QueueType;
use vstd::prelude::*;

verus! {

/// The title of the window and the name of the graphics instance.
pub const APP_NAME: &'static str = "Rust GFX";

/// The version number that the graphics instance is created with.
pub const APP_VERSION: u32 = 1;

/// The width of the window in logical pixels.
pub const WINDOW_WIDTH: u32 = 512;

/// The height of the window in logical pixels.
pub const WINDOW_HEIGHT: u32 = 512;

/// What is known of a queue family of the adapter.
#[derive(Clone, Copy, Debug, PartialEq, Eq)]
pub struct QueueFamilyInfo {
    /// Whether the surface can be presented to from this family.
    pub presents: bool,
    /// The type of the queues in this family.
    pub queue_type: QueueType,
}

impl QueueFamilyInfo {
    /// A family fits if it can both draw and present.
    pub open spec fn fits(self) -> bool {
        self.presents && runs_graphics(self.queue_type)
    }

    /// Whether the family can both draw and present.
    pub fn check(&self) -> (fit: bool)
        ensures
            fit == self.fits(),
            fit <==> self.presents && (self.queue_type is General || self.queue_type is Graphics),
    {
        self.presents && self.queue_type.supports_graphics()
    }
}

/// `selected` is the first family that fits, or none where no family does.
pub open spec fn is_selected_family(
    families: Seq<QueueFamilyInfo>,
    selected: Option<usize>,
) -> bool {
    match selected {
        Some(i) => {
            &&& i < families.len()
            &&& families[i as int].fits()
            &&& forall|j: int| 0 <= j < i ==> !(#[trigger] families[j]).fits()
        },
        None => forall|j: int| 0 <= j < families.len() ==> !(#[trigger] families[j]).fits(),
    }
}

/// The first family that fits, if there is one.
pub open spec fn selected_family(families: Seq<QueueFamilyInfo>) -> Option<usize> {
    choose|selected: Option<usize>| is_selected_family(families, selected)
}

/// The families determine the selection.
pub proof fn law_selection_is_unique(
    families: Seq<QueueFamilyInfo>,
    one: Option<usize>,
    other: Option<usize>,
)
    requires
        is_selected_family(families, one),
        is_selected_family(families, other),
    ensures
        one == other,
{
}

/// A selection is the selection.
proof fn selected_family_is(families: Seq<QueueFamilyInfo>, selected: Option<usize>)
    requires
        is_selected_family(families, selected),
    ensures
        selected == selected_family(families),
{
    law_selection_is_unique(families, selected, selected_family(families));
}

/// Chooses the first queue family that can both draw and present, if there is
/// one.
pub fn select_queue_family(families: &Vec<QueueFamilyInfo>) -> (selected: Option<usize>)
    ensures
        is_selected_family(families@, selected),
        selected == selected_family(families@),
        selected matches Some(i) ==> i < families@.len() && families@[i as int].presents && (
        families@[i as int].queue_type is General || families@[i as int].queue_type is Graphics),
{
    let mut i: usize = 0;
    while i < families.len()
        invariant
            i <= families@.len(),
            forall|j: int| 0 <= j < i ==> !(#[trigger] families@[j]).fits(),
        decreases families@.len() - i,
    {
        if families[i].check() {
            proof {
                selected_family_is(families@, Some(i));
            }
            return Some(i);
        }
        i += 1;
    }
    proof {
        selected_family_is(families@, None);
    }
    None
}

/// The families behind the first that fits need not be known: without them the
/// selection is the same.
pub proof fn law_first_fit_suffices(families: Seq<QueueFamilyInfo>, count: int)
    requires
        0 <= count <= families.len(),
        exists|i: int| 0 <= i < count && (#[trigger] families[i]).fits(),
        families.len() <= usize::MAX,
    ensures
        selected_family(families.take(count)) == selected_family(families),
        selected_family(families) is Some,
{
    let i = choose|i: int| 0 <= i < count && (#[trigger] families[i]).fits();
    let first = first_fit_exists(families, i);
    selected_family_is(families, Some(first as usize));
    assert forall|j: int| 0 <= j < first implies !(#[trigger] families.take(count)[j]).fits() by {
        assert(!families[j].fits());
    }
    assert(families.take(count)[first] == families[first]);
    selected_family_is(families.take(count), Some(first as usize));
}

/// Where some family fits, one of them is the first.
proof fn first_fit_exists(families: Seq<QueueFamilyInfo>, i: int) -> (first: int)
    requires
        0 <= i < families.len(),
        families[i].fits(),
    ensures
        0 <= first <= i,
        families[first].fits(),
        forall|j: int| 0 <= j < first ==> !(#[trigger] families[j]).fits(),
    decreases i,
{
    if exists|j: int| 0 <= j < i && (#[trigger] families[j]).fits() {
        let j = choose|j: int| 0 <= j < i && (#[trigger] families[j]).fits();
        first_fit_exists(families, j)
    } else {
        i
    }
}

/// The formats that the surface offers; none if it states no preference.
pub open spec fn offered(supported: Option<Vec<Format>>) -> Seq<Format> {
    match supported {
        Some(formats) => formats@,
        None => Seq::empty(),
    }
}

/// Position `i` holds the first sRGB format.
pub open spec fn first_srgb(formats: Seq<Format>, i: int) -> bool {
    &&& 0 <= i < formats.len()
    &&& is_srgb(formats[i])
    &&& forall|j: int| 0 <= j < i ==> !is_srgb(#[trigger] formats[j])
}

/// The format of a surface that offers no sRGB format: its first one, or
/// `Rgba8Srgb` where it offers none at all.
pub open spec fn default_format(formats: Seq<Format>) -> Format {
    if formats.len() > 0 {
        formats[0]
    } else {
        Format::Rgba8Srgb
    }
}

/// Every entry that is looked at is a format: the marker that counts the
/// formats stands, if anywhere, behind an sRGB format.
pub open spec fn formats_known(formats: Seq<Format>) -> bool {
    forall|i: int| #![trigger formats[i]] 0 <= i < formats.len() && formats[i] is __NumFormats
        ==> exists|j: int| 0 <= j < i && is_srgb(#[trigger] formats[j])
}

/// `format` is the one to use where `formats` are offered: the first sRGB format
/// among them, or the default where none is.
pub open spec fn is_color_format(formats: Seq<Format>, format: Format) -> bool {
    &&& forall|i: int| #[trigger] first_srgb(formats, i) ==> format == formats[i]
    &&& (forall|i: int| 0 <= i < formats.len() ==> !is_srgb(#[trigger] formats[i])) ==> format
        == default_format(formats)
}

/// The format to use where `formats` are offered.
pub open spec fn color_format(formats: Seq<Format>) -> Format {
    choose|format: Format| is_color_format(formats, format)
}

/// Whether every entry that is looked at is a format.
pub fn check_formats(supported: &Option<Vec<Format>>) -> (known: bool)
    ensures
        known == formats_known(offered(*supported)),
{
    let ghost formats = offered(*supported);
    let list = match supported {
        Some(list) => list,
        None => {
            return true;
        },
    };
    let mut i: usize = 0;
    while i < list.len()
        invariant
            list@ == formats,
            formats == offered(*supported),
            i <= formats.len(),
            forall|j: int| 0 <= j < i ==> formats[j] !is __NumFormats && !is_srgb(
                #[trigger] formats[j],
            ),
        decreases formats.len() - i,
    {
        let format = list[i];
        assert(format == formats[i as int]);
        match format {
            Format::__NumFormats => {
                return false;
            },
            _ => {},
        }
        match format.base_format().1 {
            ChannelType::Srgb => {
                return true;
            },
            _ => {},
        }
        i += 1;
    }
    true
}

/// Chooses the colour format of the surface: the first sRGB format that it
/// offers, else the first format, else `Rgba8Srgb`.
pub fn surface_color_format(supported: Option<Vec<Format>>) -> (format: Format)
    requires
        formats_known(offered(supported)),
    ensures
        is_color_format(offered(supported), format),
        format == color_format(offered(supported)),
        supported is Some && supported->0@.len() > 0 ==> supported->0@.contains(format),
        supported is None || supported->0@.len() == 0 ==> format is Rgba8Srgb,
{
    let ghost formats = offered(supported);
    let supported_formats = match supported {
        Some(list) => list,
        None => Vec::new(),
    };
    let mut i: usize = 0;
    while i < supported_formats.len()
        invariant
            supported_formats@ == formats,
            formats == offered(supported),
            formats_known(formats),
            i <= formats.len(),
            forall|j: int| 0 <= j < i ==> !is_srgb(#[trigger] formats[j]),
        decreases formats.len() - i,
    {
        let format = supported_formats[i];
        assert(format == formats[i as int]);
        let srgb = match format.base_format().1 {
            ChannelType::Srgb => true,
            _ => false,
        };
        if srgb {
            assert(first_srgb(formats, i as int));
            assert forall|k: int| #[trigger] first_srgb(formats, k) implies format
                == formats[k] by {
                if k < i {
                    assert(!is_srgb(formats[k]));
                }
            }
            proof {
                color_format_is(formats, format);
            }
            return format;
        }
        i += 1;
    }
    let format = if supported_formats.len() > 0 {
        supported_formats[0]
    } else {
        Format::Rgba8Srgb
    };
    proof {
        color_format_is(formats, format);
        law_color_format_is_offered(formats, format);
    }
    format
}

/// Where some format is sRGB, one of them is the first.
proof fn first_srgb_exists(formats: Seq<Format>, i: int) -> (first: int)
    requires
        0 <= i < formats.len(),
        is_srgb(formats[i]),
    ensures
        first_srgb(formats, first),
    decreases i,
{
    if exists|j: int| 0 <= j < i && is_srgb(#[trigger] formats[j]) {
        let j = choose|j: int| 0 <= j < i && is_srgb(#[trigger] formats[j]);
        first_srgb_exists(formats, j)
    } else {
        i
    }
}

/// A surface that offers any sRGB format is drawn to in sRGB.
pub proof fn law_srgb_is_preferred(formats: Seq<Format>, format: Format)
    requires
        is_color_format(formats, format),
        exists|i: int| 0 <= i < formats.len() && is_srgb(#[trigger] formats[i]),
    ensures
        is_srgb(format),
{
    let i = choose|i: int| 0 <= i < formats.len() && is_srgb(#[trigger] formats[i]);
    let first = first_srgb_exists(formats, i);
    assert(format == formats[first]);
}

/// The colour format is one that the surface offers, unless it offers none; then
/// it is `Rgba8Srgb`.
pub proof fn law_color_format_is_offered(formats: Seq<Format>, format: Format)
    requires
        is_color_format(formats, format),
    ensures
        formats.len() > 0 ==> formats.contains(format),
        formats.len() == 0 ==> format == Format::Rgba8Srgb,
{
    if exists|i: int| 0 <= i < formats.len() && is_srgb(#[trigger] formats[i]) {
        let i = choose|i: int| 0 <= i < formats.len() && is_srgb(#[trigger] formats[i]);
        let first = first_srgb_exists(formats, i);
        assert(format == formats[first]);
    }
}

/// What is offered determines the colour format.
pub proof fn law_color_format_is_unique(formats: Seq<Format>, one: Format, other: Format)
    requires
        is_color_format(formats, one),
        is_color_format(formats, other),
    ensures
        one == other,
{
    if exists|i: int| 0 <= i < formats.len() && is_srgb(#[trigger] formats[i]) {
        let i = choose|i: int| 0 <= i < formats.len() && is_srgb(#[trigger] formats[i]);
        let first = first_srgb_exists(formats, i);
        assert(one == formats[first]);
        assert(other == formats[first]);
    }
}

/// A format to use is the format to use.
proof fn color_format_is(formats: Seq<Format>, format: Format)
    requires
        is_color_format(formats, format),
    ensures
        format == color_format(formats),
{
    law_color_format_is_unique(formats, format, color_format(formats));
}

/// A subpass: the attachments that it uses, by index, each with the layout that it
/// has meanwhile.
#[derive(Debug, PartialEq)]
pub struct SubpassPlan {
    /// The attachments that are drawn to.
    pub colors: Vec<(usize, Layout)>,
    /// The attachment of the depth and stencil tests.
    pub depth_stencil: Option<(usize, Layout)>,
    /// The attachments that are read.
    pub inputs: Vec<(usize, Layout)>,
    /// The attachments that samples are resolved to.
    pub resolves: Vec<(usize, Layout)>,
    /// The attachments that are not used but kept.
    pub preserves: Vec<usize>,
}

impl SubpassPlan {
    /// The subpass draws to one colour attachment and uses no other.
    pub open spec fn only_draws_to(self, color: (usize, Layout)) -> bool {
        &&& self.colors@ == seq![color]
        &&& self.depth_stencil is None
        &&& self.inputs@.len() == 0
        &&& self.resolves@.len() == 0
        &&& self.preserves@.len() == 0
    }
}

/// A render pass.
#[derive(Debug, PartialEq)]
pub struct RenderPassPlan {
    pub attachments: Vec<Attachment>,
    pub subpasses: Vec<SubpassPlan>,
    /// The number of dependencies between subpasses.
    pub dependencies: usize,
}

impl RenderPassPlan {
    /// Every subpass draws to attachments that exist.
    pub open spec fn well_formed(self) -> bool {
        forall|s: int, c: int|
            0 <= s < self.subpasses@.len() && 0 <= c < self.subpasses@[s].colors@.len()
                ==> (#[trigger] self.subpasses@[s].colors@[c]).0 < self.attachments@.len()
    }
}

/// The colour attachment of a surface: cleared when the pass begins, kept when
/// it ends, and then ready to be presented.
pub open spec fn presented_color(format: Format) -> Attachment {
    Attachment {
        format: Some(format),
        samples: 1,
        ops: AttachmentOps { load: AttachmentLoadOp::Clear, store: AttachmentStoreOp::Store },
        stencil_ops: AttachmentOps {
            load: AttachmentLoadOp::DontCare,
            store: AttachmentStoreOp::DontCare,
        },
        layouts: core::ops::Range { start: Layout::Undefined, end: Layout::Present },
    }
}

/// A render pass with one subpass that only draws to the one colour attachment of a
/// surface.
pub open spec fn is_surface_pass(plan: RenderPassPlan, format: Format) -> bool {
    &&& plan.attachments@ == seq![presented_color(format)]
    &&& plan.subpasses@.len() == 1
    &&& plan.subpasses@[0].only_draws_to((0, Layout::ColorAttachmentOptimal))
    &&& plan.dependencies == 0
}

/// The render pass of the program: one subpass that draws to the one colour
/// attachment.
pub fn render_pass_plan(format: Format) -> (plan: RenderPassPlan)
    ensures
        plan.attachments@ == seq![presented_color(format)],
        is_surface_pass(plan, format),
        plan.subpasses@.len() == 1,
        plan.subpasses@[0].only_draws_to((0, Layout::ColorAttachmentOptimal)),
        plan.dependencies == 0,
        plan.well_formed(),
{
    let color_attachment = Attachment {
        format: Some(format),
        samples: 1,
        ops: AttachmentOps::new(AttachmentLoadOp::Clear, AttachmentStoreOp::Store),
        stencil_ops: AttachmentOps::new(AttachmentLoadOp::DontCare, AttachmentStoreOp::DontCare),
        layouts: Layout::Undefined..Layout::Present,
    };
    let mut attachments: Vec<Attachment> = Vec::new();
    attachments.push(color_attachment);
    let mut colors: Vec<(usize, Layout)> = Vec::new();
    colors.push((0, Layout::ColorAttachmentOptimal));
    let subpass = SubpassPlan {
        colors,
        depth_stencil: None,
        inputs: Vec::new(),
        resolves: Vec::new(),
        preserves: Vec::new(),
    };
    let mut subpasses: Vec<SubpassPlan> = Vec::new();
    subpasses.push(subpass);
    RenderPassPlan { attachments, subpasses, dependencies: 0 }
}

/// A family fits exactly if the surface can be presented to from it and its queues
/// are general or graphics queues; neither alone is enough.
pub proof fn law_fitting_family_draws_and_presents(family: QueueFamilyInfo)
    ensures
        family.fits() ==> family.presents,
        family.fits() ==> family.queue_type is General || family.queue_type is Graphics,
        family.presents && family.queue_type is General ==> family.fits(),
        family.presents && family.queue_type is Graphics ==> family.fits(),
{
}

/// Some selection is always right.
proof fn selection_exists(families: Seq<QueueFamilyInfo>)
    requires
        families.len() <= usize::MAX,
    ensures
        is_selected_family(families, selected_family(families)),
{
    if exists|i: int| 0 <= i < families.len() && (#[trigger] families[i]).fits() {
        let i = choose|i: int| 0 <= i < families.len() && (#[trigger] families[i]).fits();
        let first = first_fit_exists(families, i);
        assert(is_selected_family(families, Some(first as usize)));
    } else {
        assert(is_selected_family(families, None));
    }
}

/// A family that is selected presents and has general or graphics queues; and where
/// any family does, one is selected, which is not behind it.
pub proof fn law_selected_family_draws_and_presents(families: Seq<QueueFamilyInfo>, j: int)
    requires
        families.len() <= usize::MAX,
    ensures
        selected_family(families) matches Some(i) ==> i < families.len()
            && families[i as int].presents && (families[i as int].queue_type is General
            || families[i as int].queue_type is Graphics),
        0 <= j < families.len() && families[j].presents && (families[j].queue_type is General
            || families[j].queue_type is Graphics) ==> (selected_family(families) matches Some(i)
            && i <= j),
{
    selection_exists(families);
}

/// What the surface offers is what it lists, in its order; a surface that lists
/// nothing offers nothing.
pub proof fn law_offer_is_the_list(list: Vec<Format>)
    ensures
        offered(Some(list)).len() == list@.len(),
        forall|i: int| 0 <= i < list@.len() ==> #[trigger] offered(Some(list))[i] == list@[i],
        offered(None).len() == 0,
{
}

/// A list without the marker is known; a marker spoils it exactly if no sRGB format
/// stands before it.
pub proof fn law_marker_spoils_a_list(formats: Seq<Format>, i: int)
    requires
        0 <= i <= formats.len(),
        forall|k: int| 0 <= k < i ==> (#[trigger] formats[k]) !is __NumFormats,
    ensures
        i == formats.len() ==> formats_known(formats),
        i < formats.len() && is_srgb(formats[i]) ==> formats_known(formats),
        i < formats.len() && formats[i] is __NumFormats && (forall|k: int|
            0 <= k < i ==> !is_srgb(#[trigger] formats[k])) ==> !formats_known(formats),
{
}

/// Some format is always the one to use.
proof fn color_format_exists(formats: Seq<Format>)
    ensures
        is_color_format(formats, color_format(formats)),
{
    if exists|i: int| 0 <= i < formats.len() && is_srgb(#[trigger] formats[i]) {
        let i = choose|i: int| 0 <= i < formats.len() && is_srgb(#[trigger] formats[i]);
        let first = first_srgb_exists(formats, i);
        assert forall|k: int| #[trigger] first_srgb(formats, k) implies formats[first]
            == formats[k] by {
            if k < first {
                assert(!is_srgb(formats[k]));
            } else if first < k {
                assert(!is_srgb(formats[first]));
            }
        }
        assert(is_color_format(formats, formats[first]));
    } else {
        assert(is_color_format(formats, default_format(formats)));
    }
}

/// The colour format is that of the first entry that is sRGB; where none is, that of
/// the first entry; where there is no entry, `Rgba8Srgb`.
pub proof fn law_color_format_is_the_first_that_serves(formats: Seq<Format>)
    ensures
        forall|i: int|
            0 <= i < formats.len() && is_srgb(#[trigger] formats[i]) && (forall|j: int|
                0 <= j < i ==> !is_srgb(#[trigger] formats[j])) ==> color_format(formats)
                == formats[i],
        formats.len() > 0 && (forall|j: int|
            0 <= j < formats.len() ==> !is_srgb(#[trigger] formats[j])) ==> color_format(formats)
            == formats[0],
        formats.len() == 0 ==> color_format(formats) is Rgba8Srgb,
{
    color_format_exists(formats);
    assert forall|i: int|
        0 <= i < formats.len() && is_srgb(#[trigger] formats[i]) && (forall|j: int|
            0 <= j < i ==> !is_srgb(#[trigger] formats[j])) implies color_format(formats)
        == formats[i] by {
        assert(first_srgb(formats, i));
    }
}

/// The attachment of the surface has the given format and one sample, is cleared
/// before and stored after the pass, and ends ready to be presented; its stencil
/// part, which it has not, is not cared for.
pub proof fn law_surface_attachment(format: Format)
    ensures
        presented_color(format).format == Some(format),
        presented_color(format).samples == 1,
        presented_color(format).ops.load is Clear,
        presented_color(format).ops.store is Store,
        presented_color(format).stencil_ops.load is DontCare,
        presented_color(format).stencil_ops.store is DontCare,
        presented_color(format).layouts.start is Undefined,
        presented_color(format).layouts.end is Present,
{
}

/// A subpass that only draws to one attachment uses no attachment for anything else.
pub proof fn law_drawing_subpass_uses_nothing_else(subpass: SubpassPlan, color: (usize, Layout))
    ensures
        subpass.only_draws_to(color) <==> {
            &&& subpass.colors@.len() == 1
            &&& subpass.colors@[0].0 == color.0
            &&& subpass.colors@[0].1 == color.1
            &&& subpass.depth_stencil is None
            &&& subpass.inputs@.len() == 0
            &&& subpass.resolves@.len() == 0
            &&& subpass.preserves@.len() == 0
        },
{
    if subpass.colors@.len() == 1 && subpass.colors@[0].0 == color.0 && subpass.colors@[0].1
        == color.1 {
        assert(subpass.colors@ =~= seq![color]);
    }
}

/// The render pass of a surface has one attachment, of the format of the surface,
/// which its one subpass draws to, as a colour attachment and as the only one, and
/// which it leaves cleared, stored and ready to be presented.
pub proof fn law_surface_pass_draws_to_the_surface(plan: RenderPassPlan, format: Format)
    requires
        is_surface_pass(plan, format),
    ensures
        plan.attachments@.len() == 1,
        plan.attachments@[0].format == Some(format),
        plan.attachments@[0].ops.load is Clear,
        plan.attachments@[0].ops.store is Store,
        plan.attachments@[0].layouts.end is Present,
        plan.subpasses@.len() == 1,
        plan.subpasses@[0].colors@.len() == 1,
        plan.subpasses@[0].colors@[0].0 == 0,
        plan.subpasses@[0].colors@[0].1 is ColorAttachmentOptimal,
        plan.subpasses@[0].depth_stencil is None,
        plan.subpasses@[0].inputs@.len() == 0,
        plan.subpasses@[0].resolves@.len() == 0,
        plan.subpasses@[0].preserves@.len() == 0,
        plan.dependencies == 0,
        plan.well_formed(),
{
}

} // verus!
