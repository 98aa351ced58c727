//! 24-bit colours and the squared Euclidean distance between them.

use vstd::prelude::*;

verus! {

/// A colour as three 8-bit channel intensities.
#[derive(Clone, Copy, Debug, PartialEq, Eq, Structural)]
pub struct Color {
    pub r: u8,
    pub g: u8,
    pub b: u8,
}

/// The square of the Euclidean distance between two colours in RGB space.
pub open spec fn dist2(one: Color, other: Color) -> int {
    (one.r - other.r) * (one.r - other.r) + (one.g - other.g) * (one.g - other.g) + (one.b
        - other.b) * (one.b - other.b)
}

/// The square of a difference of two channels fits in 16 bits.
pub proof fn lemma_channel_square(a: u8, b: u8)
    ensures
        0 <= (a - b) * (a - b) <= 65025,
        a == b <==> (a - b) * (a - b) == 0,
{
    let d: int = a - b;
    assert(0 <= d * d <= 65025 && (d == 0 <==> d * d == 0)) by (nonlinear_arith)
        requires
            -255 <= d <= 255,
    ;
}

/// Distances are never negative, are bounded by `3 * 255 * 255`, and vanish
/// between equal colours only.
pub proof fn lemma_dist2_bounds(one: Color, other: Color)
    ensures
        0 <= dist2(one, other) <= 195075,
        dist2(one, other) == 0 <==> one == other,
{
    lemma_channel_square(one.r, other.r);
    lemma_channel_square(one.g, other.g);
    lemma_channel_square(one.b, other.b);
}

impl Color {
    /// Pure black.
    pub open spec fn spec_black() -> Color {
        Color { r: 0, g: 0, b: 0 }
    }

    /// Pure white.
    pub open spec fn spec_white() -> Color {
        Color { r: 255, g: 255, b: 255 }
    }

    /// Pure black, the colour the dark representative of a block is drawn
    /// towards.
    #[verifier::when_used_as_spec(spec_black)]
    pub fn black() -> (c: Color)
        ensures
            c == Color::spec_black(),
    {
        Color { r: 0, g: 0, b: 0 }
    }

    /// Pure white, the colour the bright representative of a block is drawn
    /// towards.
    #[verifier::when_used_as_spec(spec_white)]
    pub fn white() -> (c: Color)
        ensures
            c == Color::spec_white(),
    {
        Color { r: 255, g: 255, b: 255 }
    }

    /// A colour from its red, green and blue intensities.
    pub fn new(r: u8, g: u8, b: u8) -> (c: Color)
        ensures
            c == (Color { r, g, b }),
    {
        Color { r, g, b }
    }
}

/// Returns the square of the distance from `one` to `other`.
pub fn distance2(one: Color, other: Color) -> (d: i32)
    ensures
        d == dist2(one, other),
{
    let x: i32 = one.r as i32 - other.r as i32;
    let y: i32 = one.g as i32 - other.g as i32;
    let z: i32 = one.b as i32 - other.b as i32;
    proof {
        lemma_channel_square(one.r, other.r);
        lemma_channel_square(one.g, other.g);
        lemma_channel_square(one.b, other.b);
    }
    x * x + y * y + z * z
}

} // verus!
