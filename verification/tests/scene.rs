use rust_gfx::scene::{
    push_constant_bytes, triangles, Animation, PushConstants, HALF, MINUS_HALF, ONE,
    PUSH_CONSTANT_END, PUSH_CONSTANT_START, SMALL, ZERO,
};

fn bits4(v: [f32; 4]) -> [u32; 4] {
    [v[0].to_bits(), v[1].to_bits(), v[2].to_bits(), v[3].to_bits()]
}

fn bits2(v: [f32; 2]) -> [u32; 2] {
    [v[0].to_bits(), v[1].to_bits()]
}

fn constants(color: [f32; 4], pos: [f32; 2], scale: [f32; 2]) -> PushConstants {
    PushConstants { color: bits4(color), pos: bits2(pos), scale: bits2(scale) }
}

#[test]
fn bit_patterns() {
    assert_eq!(ZERO, 0.0f32.to_bits());
    assert_eq!(ONE, 1.0f32.to_bits());
    assert_eq!(HALF, 0.5f32.to_bits());
    assert_eq!(MINUS_HALF, (-0.5f32).to_bits());
    assert_eq!(SMALL, 0.33f32.to_bits());
}

#[test]
fn words_follow_the_fields() {
    let c = PushConstants { color: [1, 2, 3, 4], pos: [5, 6], scale: [7, 8] };
    assert_eq!(push_constant_bytes(&c), [1, 2, 3, 4, 5, 6, 7, 8]);
}

#[test]
fn words_fill_the_declared_size() {
    let c = PushConstants { color: [0; 4], pos: [0; 2], scale: [0; 2] };
    assert_eq!(push_constant_bytes(&c).len() * std::mem::size_of::<u32>(), 32);
    assert_eq!((PUSH_CONSTANT_START, PUSH_CONSTANT_END), (0, 32));
}

#[test]
fn words_tell_constants_apart() {
    let one = PushConstants { color: [1, 2, 3, 4], pos: [5, 6], scale: [7, 8] };
    let other = PushConstants { color: [1, 2, 3, 4], pos: [5, 7], scale: [6, 8] };
    assert_ne!(push_constant_bytes(&one), push_constant_bytes(&other));
}

#[test]
fn scene_half_way() {
    let anim = 0.5f32;
    let animation = Animation {
        progress: anim.to_bits(),
        height: (0.5 - anim * 0.5).to_bits(),
        scale: (0.33 + anim * 0.33).to_bits(),
    };
    let small = [0.33, 0.33];
    let expected = vec![
        constants([1.0, 0.0, 0.0, 1.0], [-0.5, -0.5], small),
        constants([0.0, 1.0, 0.0, 1.0], [0.0, -0.5], small),
        constants([0.0, 0.0, 1.0, 1.0], [0.5, -0.5], small),
        constants([0.0, anim, 1.0, 1.0], [-0.5, 0.5], small),
        constants([1.0, 1.0, 1.0, 1.0], [0.0, 0.5 - anim * 0.5], small),
        constants([1.0, 1.0, 1.0, 1.0], [0.5, 0.5], [0.33 + anim * 0.33, 0.33 + anim * 0.33]),
    ];
    assert_eq!(triangles(animation), expected);
}
