//! The commands that draw one frame.
use crate::resources::Resources;
use crate::scene::{
    scene_at, triangles, Animation, PushConstants, ONE, PUSH_CONSTANT_END, PUSH_CONSTANT_STAGES,
    PUSH_CONSTANT_START, ZERO,
};
use gfx_hal::pso::Rect;
use gfx_hal::window::Extent2D;
use vstd::prelude::*;

verus! {

/// The mask of a command buffer that is recorded for a single submission.
pub const ONE_TIME_SUBMIT: u32 = 0x1;

/// Where the commands of a subpass are recorded.
#[derive(Clone, Copy, Debug, PartialEq, Eq)]
pub enum PassContents {
    /// In the primary command buffer itself.
    Inline,
    /// In secondary command buffers.
    SecondaryBuffers,
}

/// One command of the command buffer. Depths and colours are held as the bits of
/// floating-point values.
#[derive(Clone, Copy, Debug, PartialEq)]
pub enum Command {
    /// Begin the primary command buffer, used as the mask says.
    Begin { flags: u32 },
    /// Set the viewport number `first`.
    SetViewport { first: u32, rect: Rect, near: u32, far: u32 },
    /// Set the scissor rectangle number `first`.
    SetScissor { first: u32, rect: Rect },
    /// Begin a render pass, given by its number, on `area`, cleared to the given
    /// colour.
    BeginRenderPass {
        render_pass: usize,
        area: Rect,
        clear_color: (u32, u32, u32, u32),
        contents: PassContents,
    },
    /// Bind a graphics pipeline, given by its number.
    BindPipeline { pipeline: usize },
    /// Hand the constants to a mask of shader stages, from byte `offset` of a pipeline
    /// layout on, which is given by its number.
    PushConstants { pipeline_layout: usize, stages: u32, offset: u32, constants: PushConstants },
    /// Draw a range of vertices for a range of instances.
    Draw { first_vertex: u32, end_vertex: u32, first_instance: u32, end_instance: u32 },
    /// End the render pass.
    EndRenderPass,
    /// Finish the command buffer.
    Finish,
}

/// The 16-bit signed number that keeps the low 16 bits of `n`.
pub open spec fn low_i16(n: u32) -> int {
    if n % 0x1_0000 < 0x8000 {
        (n % 0x1_0000) as int
    } else {
        n % 0x1_0000 - 0x1_0000
    }
}

/// Keeps the low 16 bits of `n`.
fn truncate_i16(n: u32) -> (low: i16)
    ensures
        low == low_i16(n),
{
    let low: i16 = #[verifier::truncate] (n as i16);
    assert(n % 0x1_0000 < 0x8000 ==> low == n % 0x1_0000) by (bit_vector)
        requires
            low == n as i16,
    ;
    assert(n % 0x1_0000 >= 0x8000 ==> low == n % 0x1_0000 - 0x1_0000) by (bit_vector)
        requires
            low == n as i16,
    ;
    low
}

/// The rectangle at the origin whose sides keep the low 16 bits of those of
/// `extent`.
pub open spec fn area_of(extent: Extent2D) -> Rect {
    Rect { x: 0, y: 0, w: low_i16(extent.width) as i16, h: low_i16(extent.height) as i16 }
}

/// The rectangle that covers a surface of the given extent. The device takes its
/// sides as 16-bit numbers, so of each only the low 16 bits are kept.
pub fn render_area(extent: Extent2D) -> (rect: Rect)
    ensures
        rect == area_of(extent),
        rect.w == low_i16(extent.width),
        rect.h == low_i16(extent.height),
{
    Rect { x: 0, y: 0, w: truncate_i16(extent.width), h: truncate_i16(extent.height) }
}

/// What precedes the first triangle.
pub open spec fn opening(area: Rect) -> Seq<Command> {
    seq![
        Command::Begin { flags: ONE_TIME_SUBMIT },
        Command::SetViewport { first: 0, rect: area, near: ZERO, far: ONE },
        Command::SetScissor { first: 0, rect: area },
        Command::BeginRenderPass {
            render_pass: 0,
            area,
            clear_color: (ZERO, ZERO, ZERO, ONE),
            contents: PassContents::Inline,
        },
        Command::BindPipeline { pipeline: 0 },
    ]
}

/// The two commands of one triangle: its constants, then its three vertices,
/// once.
pub open spec fn drawing(constants: PushConstants) -> Seq<Command> {
    seq![
        Command::PushConstants {
            pipeline_layout: 0,
            stages: PUSH_CONSTANT_STAGES,
            offset: PUSH_CONSTANT_START,
            constants,
        },
        Command::Draw { first_vertex: 0, end_vertex: 3, first_instance: 0, end_instance: 1 },
    ]
}

/// The commands of all triangles, in order.
pub open spec fn drawings(triangles: Seq<PushConstants>) -> Seq<Command>
    decreases triangles.len(),
{
    if triangles.len() == 0 {
        Seq::empty()
    } else {
        drawings(triangles.drop_last()) + drawing(triangles.last())
    }
}

/// What follows the last triangle.
pub open spec fn closing() -> Seq<Command> {
    seq![Command::EndRenderPass, Command::Finish]
}

/// All commands of a frame.
pub open spec fn commands(area: Rect, triangles: Seq<PushConstants>) -> Seq<Command> {
    opening(area) + drawings(triangles) + closing()
}

/// Lists the commands that draw `triangles` on `area`.
pub fn frame_commands(area: Rect, triangles: &Vec<PushConstants>) -> (list: Vec<Command>)
    ensures
        list@ == commands(area, triangles@),
        list@[1]->SetViewport_rect == area,
        list@[2]->SetScissor_rect == area,
        list@[3]->BeginRenderPass_area == area,
{
    let mut list: Vec<Command> = Vec::new();
    list.push(Command::Begin { flags: ONE_TIME_SUBMIT });
    list.push(Command::SetViewport { first: 0, rect: area, near: ZERO, far: ONE });
    list.push(Command::SetScissor { first: 0, rect: area });
    list.push(
        Command::BeginRenderPass {
            render_pass: 0,
            area,
            clear_color: (ZERO, ZERO, ZERO, ONE),
            contents: PassContents::Inline,
        },
    );
    list.push(Command::BindPipeline { pipeline: 0 });
    assert(list@ =~= opening(area) + drawings(triangles@.take(0)));
    let mut i: usize = 0;
    while i < triangles.len()
        invariant
            i <= triangles@.len(),
            list@ == opening(area) + drawings(triangles@.take(i as int)),
        decreases triangles@.len() - i,
    {
        list.push(
            Command::PushConstants {
                pipeline_layout: 0,
                stages: PUSH_CONSTANT_STAGES,
                offset: PUSH_CONSTANT_START,
                constants: triangles[i],
            },
        );
        list.push(
            Command::Draw { first_vertex: 0, end_vertex: 3, first_instance: 0, end_instance: 1 },
        );
        proof {
            let done = triangles@.take(i + 1);
            assert(done.drop_last() =~= triangles@.take(i as int));
            assert(list@ =~= opening(area) + drawings(done));
        }
        i += 1;
    }
    assert(triangles@.take(i as int) =~= triangles@);
    list.push(Command::EndRenderPass);
    list.push(Command::Finish);
    assert(list@ =~= commands(area, triangles@));
    list
}

/// The words of each triangle, in order.
pub open spec fn words_of(triangles: Seq<PushConstants>) -> Seq<Seq<u32>> {
    triangles.map_values(|triangle: PushConstants| triangle@)
}

/// `list` draws the scene at one moment on `area`: it holds the commands of a frame
/// whose triangles are those of the scene.
pub open spec fn draws_scene(list: Seq<Command>, area: Rect, animation: Animation) -> bool {
    exists|scene: Seq<PushConstants>|
        words_of(scene) == scene_at(animation) && list == #[trigger] commands(area, scene)
}

/// Lists the commands that draw the scene at one moment on `area`.
pub fn scene_commands(area: Rect, animation: Animation) -> (list: Vec<Command>)
    ensures
        draws_scene(list@, area, animation),
{
    let scene = triangles(animation);
    let list = frame_commands(area, &scene);
    assert(words_of(scene@) == scene_at(animation) && list@ == commands(area, scene@));
    list
}

/// The commands of the triangle number `i` stand at `2 * i` and `2 * i + 1`.
proof fn drawings_at(triangles: Seq<PushConstants>, i: int)
    ensures
        drawings(triangles).len() == 2 * triangles.len(),
        0 <= i < triangles.len() ==> drawings(triangles)[2 * i] == drawing(triangles[i])[0],
        0 <= i < triangles.len() ==> drawings(triangles)[2 * i + 1] == drawing(triangles[i])[1],
    decreases triangles.len(),
{
    if triangles.len() > 0 {
        let front = triangles.drop_last();
        drawings_at(front, i);
        if 0 <= i < front.len() {
            assert(front[i] == triangles[i]);
        }
    }
}

/// What stands at position `k` of a frame.
proof fn command_at(area: Rect, triangles: Seq<PushConstants>, k: int)
    requires
        0 <= k < commands(area, triangles).len(),
    ensures
        commands(area, triangles).len() == 7 + 2 * triangles.len(),
        commands(area, triangles)[k] == if k < 5 {
            opening(area)[k]
        } else if k < 5 + 2 * triangles.len() {
            drawing(triangles[(k - 5) / 2])[(k - 5) % 2]
        } else {
            closing()[k - 5 - 2 * triangles.len()]
        },
{
    let t = (k - 5) / 2;
    drawings_at(triangles, t);
    if 5 <= k < 5 + 2 * triangles.len() {
        assert(commands(area, triangles)[k] == drawings(triangles)[k - 5]);
        assert(k - 5 == 2 * t || k - 5 == 2 * t + 1);
    }
}

/// Each triangle is drawn once, in its place, right after its own constants have
/// been handed over, and nothing else is drawn.
pub proof fn law_each_triangle_is_drawn_once(area: Rect, triangles: Seq<PushConstants>, k: int)
    requires
        0 <= k < commands(area, triangles).len(),
    ensures
        commands(area, triangles).len() == 7 + 2 * triangles.len(),
        commands(area, triangles)[k] is Draw <==> 6 <= k < 6 + 2 * triangles.len() && k % 2 == 0,
        commands(area, triangles)[k] is Draw ==> {
            &&& commands(area, triangles)[k] == (Command::Draw {
                first_vertex: 0,
                end_vertex: 3,
                first_instance: 0,
                end_instance: 1,
            })
            &&& commands(area, triangles)[k - 1] == (Command::PushConstants {
                pipeline_layout: 0,
                stages: PUSH_CONSTANT_STAGES,
                offset: PUSH_CONSTANT_START,
                constants: triangles[(k - 6) / 2],
            })
        },
{
    command_at(area, triangles, k);
    if commands(area, triangles)[k] is Draw {
        command_at(area, triangles, k - 1);
    }
}

/// Drawing happens inside the render pass: the pass begins before the first
/// drawing command and ends after the last, once each.
pub proof fn law_draws_are_inside_the_pass(area: Rect, triangles: Seq<PushConstants>, k: int)
    requires
        0 <= k < commands(area, triangles).len(),
    ensures
        commands(area, triangles)[k] is BeginRenderPass <==> k == 3,
        commands(area, triangles)[k] is EndRenderPass <==> k == commands(area, triangles).len() - 2,
        commands(area, triangles)[k] is Draw ==> 3 < k < commands(area, triangles).len() - 2,
{
    command_at(area, triangles, k);
}

/// The constants of every triangle go to the stages, and stay inside the range,
/// that the pipeline layout reserves.
pub proof fn law_constants_fit_the_layout(area: Rect, triangles: Seq<PushConstants>, k: int)
    requires
        0 <= k < commands(area, triangles).len(),
    ensures
        commands(area, triangles)[k] matches Command::PushConstants {
            stages,
            offset,
            constants,
            ..
        } ==> {
            &&& stages == PUSH_CONSTANT_STAGES
            &&& PUSH_CONSTANT_START <= offset
            &&& offset + 4 * constants@.len() <= PUSH_CONSTANT_END
        },
{
    command_at(area, triangles, k);
}

/// A frame uses only what the program holds, provided that it holds a render pass, a
/// pipeline and a pipeline layout.
pub proof fn law_used_resources_exist(
    area: Rect,
    triangles: Seq<PushConstants>,
    k: int,
    resources: Resources,
)
    requires
        0 <= k < commands(area, triangles).len(),
        resources.render_passes > 0,
        resources.pipelines > 0,
        resources.pipeline_layouts > 0,
    ensures
        match commands(area, triangles)[k] {
            Command::BeginRenderPass { render_pass, .. } => render_pass < resources.render_passes,
            Command::BindPipeline { pipeline } => pipeline < resources.pipelines,
            Command::PushConstants { pipeline_layout, .. } => pipeline_layout
                < resources.pipeline_layouts,
            _ => true,
        },
{
    command_at(area, triangles, k);
}

/// A frame that draws the scene draws all of it and nothing else: on the whole area,
/// cleared before, each of the six triangles, in order, with its own constants.
pub proof fn law_scene_is_drawn(list: Seq<Command>, area: Rect, animation: Animation, i: int)
    requires
        draws_scene(list, area, animation),
        0 <= i < 6,
    ensures
        list.len() == 19,
        list.take(5) == opening(area),
        list[1] matches Command::SetViewport { rect, .. } && rect == area,
        list[2] matches Command::SetScissor { rect, .. } && rect == area,
        list[3] matches Command::BeginRenderPass { area: drawn, .. } && drawn == area,
        list[5 + 2 * i] matches Command::PushConstants { constants, .. } && constants@
            == scene_at(animation)[i],
        list[6 + 2 * i] == (Command::Draw {
            first_vertex: 0,
            end_vertex: 3,
            first_instance: 0,
            end_instance: 1,
        }),
        list.skip(17) == closing(),
{
    let scene = choose|scene: Seq<PushConstants>|
        words_of(scene) == scene_at(animation) && list == #[trigger] commands(area, scene);
    assert(words_of(scene).len() == 6);
    assert(words_of(scene)[i] == scene[i]@);
    drawings_at(scene, i);
    command_at(area, scene, 5 + 2 * i);
    command_at(area, scene, 6 + 2 * i);
    assert(list.take(5) =~= opening(area));
    assert(list.skip(17) =~= closing());
}

/// A surface whose sides fit in 16-bit signed numbers is covered exactly.
pub proof fn law_area_covers_the_surface(extent: Extent2D)
    requires
        extent.width <= i16::MAX,
        extent.height <= i16::MAX,
    ensures
        area_of(extent).x == 0,
        area_of(extent).y == 0,
        area_of(extent).w == extent.width,
        area_of(extent).h == extent.height,
{
}

/// A frame is drawn on the whole area: the viewport, the scissor and the render pass
/// are each given exactly this rectangle, whatever its sides are.
pub proof fn law_frame_fills_the_area(area: Rect, triangles: Seq<PushConstants>)
    ensures
        commands(area, triangles)[1] matches Command::SetViewport { rect, .. } && rect.x == area.x
            && rect.y == area.y && rect.w == area.w && rect.h == area.h,
        commands(area, triangles)[2] matches Command::SetScissor { rect, .. } && rect.x == area.x
            && rect.y == area.y && rect.w == area.w && rect.h == area.h,
        commands(area, triangles)[3] matches Command::BeginRenderPass { area: drawn, .. }
            && drawn.x == area.x && drawn.y == area.y && drawn.w == area.w && drawn.h == area.h,
{
    drawings_at(triangles, 0);
}

/// A frame begins with a command buffer for one submission, the first viewport over
/// the whole depth and the first scissor, and a render pass with its own commands in
/// the buffer, cleared to opaque black; then the pipeline is bound. It ends with the
/// end of the pass and of the buffer. None of this depends on what is drawn.
pub proof fn law_frame_is_framed(area: Rect, triangles: Seq<PushConstants>)
    ensures
        commands(area, triangles).len() == 7 + 2 * triangles.len(),
        commands(area, triangles)[0] matches Command::Begin { flags } && flags == 0x1,
        commands(area, triangles)[1] matches Command::SetViewport { first, near, far, .. }
            && first == 0 && near == ZERO && far == ONE,
        commands(area, triangles)[2] matches Command::SetScissor { first, .. } && first == 0,
        commands(area, triangles)[3] matches Command::BeginRenderPass {
            render_pass,
            clear_color,
            contents,
            ..
        } && render_pass == 0 && clear_color.0 == ZERO && clear_color.1 == ZERO && clear_color.2
            == ZERO && clear_color.3 == ONE && contents is Inline,
        commands(area, triangles)[4] matches Command::BindPipeline { pipeline } && pipeline == 0,
        commands(area, triangles)[5 + 2 * triangles.len() as int] is EndRenderPass,
        commands(area, triangles)[6 + 2 * triangles.len() as int] is Finish,
{
    drawings_at(triangles, 0);
}

/// Each triangle has two commands of its own: its constants are handed to the vertex
/// shader, all of them, and three vertices are drawn once.
pub proof fn law_triangle_has_its_commands(area: Rect, triangles: Seq<PushConstants>, i: int)
    requires
        0 <= i < triangles.len(),
    ensures
        commands(area, triangles)[5 + 2 * i] matches Command::PushConstants {
            pipeline_layout,
            stages,
            offset,
            constants,
        } && pipeline_layout == 0 && stages == 0x1 && offset == 0 && constants == triangles[i],
        commands(area, triangles)[6 + 2 * i] matches Command::Draw {
            first_vertex,
            end_vertex,
            first_instance,
            end_instance,
        } && first_vertex == 0 && end_vertex == 3 && first_instance == 0 && end_instance == 1,
{
    drawings_at(triangles, i);
    command_at(area, triangles, 5 + 2 * i);
    command_at(area, triangles, 6 + 2 * i);
}

/// The sides of the area are those of the surface up to multiples of `0x1_0000`, for
/// every surface: 16-bit numbers with the same remainder.
pub proof fn law_area_keeps_the_low_bits(extent: Extent2D)
    ensures
        area_of(extent).x == 0,
        area_of(extent).y == 0,
        (extent.width - area_of(extent).w) % 0x1_0000 == 0,
        (extent.height - area_of(extent).h) % 0x1_0000 == 0,
        -0x8000 <= low_i16(extent.width) < 0x8000,
        area_of(extent).w == low_i16(extent.width),
        area_of(extent).h == low_i16(extent.height),
{
}

} // verus!
