use gfx_hal::command::CommandBufferFlags;
use gfx_hal::pso::{Rect, ShaderStageFlags};
use gfx_hal::window::Extent2D;
use rust_gfx::frame::{
    frame_commands, render_area, scene_commands, Command, PassContents, ONE_TIME_SUBMIT,
};
use rust_gfx::scene::{
    push_constant_bytes, triangles, Animation, PushConstants, ONE, PUSH_CONSTANT_STAGES, ZERO,
};

fn area(width: u32, height: u32) -> Rect {
    render_area(Extent2D { width, height })
}

fn triangle(n: u32) -> PushConstants {
    PushConstants { color: [n; 4], pos: [n; 2], scale: [n; 2] }
}

fn begin_pass(area: Rect) -> Command {
    let clear_color = (ZERO, ZERO, ZERO, ONE);
    Command::BeginRenderPass { render_pass: 0, area, clear_color, contents: PassContents::Inline }
}

fn push(constants: PushConstants) -> Command {
    Command::PushConstants { pipeline_layout: 0, stages: 1, offset: 0, constants }
}

const DRAW: Command =
    Command::Draw { first_vertex: 0, end_vertex: 3, first_instance: 0, end_instance: 1 };

#[test]
fn area_covers_the_surface() {
    assert_eq!(area(512, 384), Rect { x: 0, y: 0, w: 512, h: 384 });
    assert_eq!(area(0, 32767), Rect { x: 0, y: 0, w: 0, h: 32767 });
}

#[test]
fn area_keeps_sixteen_bits() {
    assert_eq!(area(32768, 65535), Rect { x: 0, y: 0, w: -32768, h: -1 });
    assert_eq!(area(65536, 65537 + 512), Rect { x: 0, y: 0, w: 0, h: 513 });
    assert_eq!(area(u32::MAX, 0x8000_0001), Rect { x: 0, y: 0, w: -1, h: 1 });
}

#[test]
fn empty_frame_still_clears() {
    let a = area(8, 6);
    let expected = vec![
        Command::Begin { flags: 1 },
        Command::SetViewport { first: 0, rect: a, near: ZERO, far: ONE },
        Command::SetScissor { first: 0, rect: a },
        begin_pass(a),
        Command::BindPipeline { pipeline: 0 },
        Command::EndRenderPass,
        Command::Finish,
    ];
    assert_eq!(frame_commands(a, &vec![]), expected);
}

#[test]
fn two_triangles_are_drawn_in_order() {
    let a = area(8, 6);
    let expected = vec![
        Command::Begin { flags: 1 },
        Command::SetViewport { first: 0, rect: a, near: ZERO, far: ONE },
        Command::SetScissor { first: 0, rect: a },
        begin_pass(a),
        Command::BindPipeline { pipeline: 0 },
        push(triangle(1)),
        DRAW,
        push(triangle(2)),
        DRAW,
        Command::EndRenderPass,
        Command::Finish,
    ];
    assert_eq!(frame_commands(a, &vec![triangle(1), triangle(2)]), expected);
}

#[test]
fn whole_scene_is_drawn_inside_the_pass() {
    let scene = triangles(Animation { progress: 1, height: 2, scale: 3 });
    let list = frame_commands(area(8, 6), &scene);
    assert_eq!(list.len(), 19);
    let mut drawn = 0;
    for (k, command) in list.iter().enumerate() {
        assert_eq!(matches!(command, Command::BeginRenderPass { .. }), k == 3);
        assert_eq!(matches!(command, Command::EndRenderPass), k == 17);
        if *command == DRAW {
            assert_eq!(list[k - 1], push(scene[drawn]));
            drawn += 1;
        }
    }
    assert_eq!(drawn, 6);
}

#[test]
fn constants_fit_the_layout() {
    for command in frame_commands(area(1, 1), &vec![triangle(7)]) {
        if let Command::PushConstants { stages, offset, constants, .. } = command {
            assert_eq!((stages, offset), (1, 0));
            assert_eq!(offset as usize + 4 * push_constant_bytes(&constants).len(), 32);
        }
    }
}

#[test]
fn scene_commands_draw_the_scene() {
    let animation = Animation { progress: 1, height: 2, scale: 3 };
    let a = area(8, 6);
    let list = scene_commands(a, animation);
    assert_eq!(list, frame_commands(a, &triangles(animation)));
    let moving = PushConstants {
        color: [ONE; 4],
        pos: [ZERO, 2],
        scale: [0x3ea8_f5c3, 0x3ea8_f5c3],
    };
    assert_eq!(list[13], push(moving));
    assert_eq!(list[14], DRAW);
    assert_eq!(list.len(), 19);
}

#[test]
fn frame_masks_are_those_of_the_device_layer() {
    assert_eq!(ONE_TIME_SUBMIT, CommandBufferFlags::ONE_TIME_SUBMIT.bits());
    assert_eq!(PUSH_CONSTANT_STAGES, ShaderStageFlags::VERTEX.bits());
}

#[test]
fn frame_uses_the_first_of_each_resource() {
    let list = frame_commands(area(1, 1), &vec![triangle(7)]);
    assert!(matches!(list[3], Command::BeginRenderPass { render_pass: 0, .. }));
    assert!(matches!(list[4], Command::BindPipeline { pipeline: 0 }));
    assert!(matches!(list[5], Command::PushConstants { pipeline_layout: 0, .. }));
}
