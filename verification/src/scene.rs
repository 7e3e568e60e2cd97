//! The triangles of the scene and the constants that each is drawn with.
//!
//! Floating-point values are held as the bits of their IEEE 754 single-precision
//! encoding, which is what the shader receives.
use vstd::prelude::*;

verus! {

/// The bits of `0.0`.
pub const ZERO: u32 = 0x0000_0000;

/// The bits of `1.0`.
pub const ONE: u32 = 0x3f80_0000;

/// The bits of `0.5`.
pub const HALF: u32 = 0x3f00_0000;

/// The bits of `-0.5`.
pub const MINUS_HALF: u32 = 0xbf00_0000;

/// The bits of `0.33`.
pub const SMALL: u32 = 0x3ea8_f5c3;

/// The mask of the shader stages that receive the constants: the vertex stage.
pub const PUSH_CONSTANT_STAGES: u32 = 0x1;

/// The byte that the constants start at.
pub const PUSH_CONSTANT_START: u32 = 0;

/// The byte behind the constants of one triangle.
pub const PUSH_CONSTANT_END: u32 = 32;

/// The constants that the vertex shader receives for one triangle, as the bits
/// of floating-point values.
#[derive(Debug, Clone, Copy, PartialEq, Eq)]
pub struct PushConstants {
    pub color: [u32; 4],
    pub pos: [u32; 2],
    pub scale: [u32; 2],
}

impl View for PushConstants {
    type V = Seq<u32>;

    /// The words of the constants in the order of the fields.
    open spec fn view(&self) -> Seq<u32> {
        self.color@ + self.pos@ + self.scale@
    }
}

/// The words of the constants as the device reads them: the colour, then the
/// position, then the scale.
pub fn push_constant_bytes(push_constants: &PushConstants) -> (words: [u32; 8])
    ensures
        words@ == push_constants@,
        forall|i: int| 0 <= i < 4 ==> #[trigger] words@[i] == push_constants.color@[i],
        words@[4] == push_constants.pos@[0] && words@[5] == push_constants.pos@[1],
        words@[6] == push_constants.scale@[0] && words@[7] == push_constants.scale@[1],
{
    let words: [u32; 8] = [
        push_constants.color[0],
        push_constants.color[1],
        push_constants.color[2],
        push_constants.color[3],
        push_constants.pos[0],
        push_constants.pos[1],
        push_constants.scale[0],
        push_constants.scale[1],
    ];
    assert(words@ =~= push_constants@);
    words
}

/// The values that change over time, as the bits of floating-point values.
#[derive(Debug, Clone, Copy, PartialEq, Eq)]
pub struct Animation {
    /// How far the animation has come, from `0.0` to `1.0`.
    pub progress: u32,
    /// The vertical position of the triangle that moves.
    pub height: u32,
    /// The scale of the triangle that grows.
    pub scale: u32,
}

/// The scene at one moment: three still triangles in the upper row, and below
/// them one that changes its colour, one that moves and one that grows.
pub open spec fn scene_at(animation: Animation) -> Seq<Seq<u32>> {
    seq![
        seq![ONE, ZERO, ZERO, ONE, MINUS_HALF, MINUS_HALF, SMALL, SMALL],
        seq![ZERO, ONE, ZERO, ONE, ZERO, MINUS_HALF, SMALL, SMALL],
        seq![ZERO, ZERO, ONE, ONE, HALF, MINUS_HALF, SMALL, SMALL],
        seq![ZERO, animation.progress, ONE, ONE, MINUS_HALF, HALF, SMALL, SMALL],
        seq![ONE, ONE, ONE, ONE, ZERO, animation.height, SMALL, SMALL],
        seq![ONE, ONE, ONE, ONE, HALF, HALF, animation.scale, animation.scale],
    ]
}

/// The constants of each triangle of the scene, in drawing order.
pub fn triangles(animation: Animation) -> (scene: Vec<PushConstants>)
    ensures
        scene@.map_values(|triangle: PushConstants| triangle@) == scene_at(animation),
        scene@.len() == 6,
        scene@[3].color@[1] == animation.progress,
        scene@[4].pos@[1] == animation.height,
        scene@[5].scale@ == seq![animation.scale, animation.scale],
{
    let small: [u32; 2] = [SMALL, SMALL];
    let mut scene: Vec<PushConstants> = Vec::new();
    scene.push(
        PushConstants {
            color: [ONE, ZERO, ZERO, ONE],
            pos: [MINUS_HALF, MINUS_HALF],
            scale: small,
        },
    );
    scene.push(
        PushConstants { color: [ZERO, ONE, ZERO, ONE], pos: [ZERO, MINUS_HALF], scale: small },
    );
    scene.push(
        PushConstants { color: [ZERO, ZERO, ONE, ONE], pos: [HALF, MINUS_HALF], scale: small },
    );
    scene.push(
        PushConstants {
            color: [ZERO, animation.progress, ONE, ONE],
            pos: [MINUS_HALF, HALF],
            scale: small,
        },
    );
    scene.push(
        PushConstants { color: [ONE, ONE, ONE, ONE], pos: [ZERO, animation.height], scale: small },
    );
    scene.push(
        PushConstants {
            color: [ONE, ONE, ONE, ONE],
            pos: [HALF, HALF],
            scale: [animation.scale, animation.scale],
        },
    );
    proof {
        let expected = scene_at(animation);
        assert(scene@[0]@ =~= expected[0]);
        assert(scene@[1]@ =~= expected[1]);
        assert(scene@[2]@ =~= expected[2]);
        assert(scene@[3]@ =~= expected[3]);
        assert(scene@[4]@ =~= expected[4]);
        assert(scene@[5]@ =~= expected[5]);
        assert(scene@.map_values(|triangle: PushConstants| triangle@) =~= expected);
    }
    scene
}

/// The words of the constants fill their range exactly.
pub proof fn law_push_constant_size(push_constants: PushConstants)
    ensures
        PUSH_CONSTANT_START + 4 * push_constants@.len() == PUSH_CONSTANT_END,
{
}

/// Nothing is lost on the way to the device: constants with the same words have
/// the same colour, position and scale.
pub proof fn law_push_constants_are_recovered(one: PushConstants, other: PushConstants)
    requires
        one@ == other@,
    ensures
        one.color@ == other.color@,
        one.pos@ == other.pos@,
        one.scale@ == other.scale@,
{
    assert(one.color@ =~= one@.subrange(0, 4));
    assert(other.color@ =~= other@.subrange(0, 4));
    assert(one.pos@ =~= one@.subrange(4, 6));
    assert(other.pos@ =~= other@.subrange(4, 6));
    assert(one.scale@ =~= one@.subrange(6, 8));
    assert(other.scale@ =~= other@.subrange(6, 8));
}

/// The words of the constants are the colour, the position and the scale, in this
/// order and nothing else.
pub proof fn law_words_follow_the_fields(constants: PushConstants, i: int)
    requires
        0 <= i < 8,
    ensures
        constants@.len() == 8,
        i < 4 ==> constants@[i] == constants.color@[i],
        4 <= i < 6 ==> constants@[i] == constants.pos@[i - 4],
        6 <= i ==> constants@[i] == constants.scale@[i - 6],
{
}

/// The animation reaches the scene in four places: the green of the fourth triangle,
/// the height of the fifth, and both sides of the sixth.
pub proof fn law_animation_reaches_the_scene(scene: Seq<PushConstants>, animation: Animation)
    requires
        scene.map_values(|triangle: PushConstants| triangle@) == scene_at(animation),
    ensures
        scene.len() == 6,
        scene[3].color@[1] == animation.progress,
        scene[4].pos@[1] == animation.height,
        scene[5].scale@[0] == animation.scale,
        scene[5].scale@[1] == animation.scale,
{
    let words = scene.map_values(|triangle: PushConstants| triangle@);
    assert(words.len() == 6);
    assert(words[3] == scene[3]@);
    assert(words[4] == scene[4]@);
    assert(words[5] == scene[5]@);
    law_words_follow_the_fields(scene[3], 1);
    law_words_follow_the_fields(scene[4], 5);
    law_words_follow_the_fields(scene[5], 6);
    law_words_follow_the_fields(scene[5], 7);
}

/// Nothing else of the scene moves: in any other place two moments show the same.
pub proof fn law_rest_of_the_scene_is_still(one: Animation, other: Animation, i: int, w: int)
    requires
        0 <= i < 6,
        0 <= w < 8,
        !(i == 3 && w == 1),
        !(i == 4 && w == 5),
        !(i == 5 && w >= 6),
    ensures
        scene_at(one).len() == 6,
        scene_at(one)[i].len() == 8,
        scene_at(one)[i][w] == scene_at(other)[i][w],
{
}

/// The triangles stand in two rows of three, each in its column: the upper row at
/// `-0.5`, the lower at `0.5` where it does not move.
pub proof fn law_triangles_stand_in_two_rows(animation: Animation, i: int)
    requires
        0 <= i < 6,
    ensures
        scene_at(animation)[i][4] == if i % 3 == 0 {
            MINUS_HALF
        } else if i % 3 == 1 {
            ZERO
        } else {
            HALF
        },
        i < 3 ==> scene_at(animation)[i][5] == MINUS_HALF,
        i == 3 || i == 5 ==> scene_at(animation)[i][5] == HALF,
{
}

/// All triangles are opaque; those of the upper row are red, green and blue, the
/// first of the lower row is blue with a changing green, and the others are white.
/// All are small but the one that grows.
pub proof fn law_colors_and_sizes(animation: Animation, i: int, w: int)
    requires
        0 <= i < 6,
        0 <= w < 3,
    ensures
        scene_at(animation)[i][3] == ONE,
        i < 3 ==> scene_at(animation)[i][w] == if w == i {
            ONE
        } else {
            ZERO
        },
        i == 3 ==> scene_at(animation)[i][0] == ZERO && scene_at(animation)[i][2] == ONE,
        i > 3 ==> scene_at(animation)[i][w] == ONE,
        i < 5 ==> scene_at(animation)[i][6] == SMALL && scene_at(animation)[i][7] == SMALL,
{
}

} // verus!
