//! The 256-colour terminal palette.
//!
//! Indices 0 to 15 are the sixteen colours a user may reconfigure, 16 to 231
//! form a 6×6×6 colour cube and 232 to 255 a ramp of 24 grays. [`quantize`]
//! maps a colour to an index of the cube or the ramp, [`dequantize`] maps every
//! index to its colour.

use crate::color::{dist2, distance2, lemma_dist2_bounds, Color};
use vstd::prelude::*;

verus! {

/// The coordinate, 0 to 5, that the colour cube gives a channel intensity.
pub open spec fn cube_coord(c: u8) -> int {
    if c < 48 {
        0
    } else if c < 75 {
        1
    } else {
        (c - 35) / 40
    }
}

/// The step, 0 to 23, that the gray ramp gives a gray level.
pub open spec fn gray_step(g: u8) -> int {
    if g < 13 {
        0
    } else if g > 235 {
        23
    } else {
        (g - 3) / 10
    }
}

/// The channel intensity at coordinate `v` of the colour cube.
pub open spec fn cube_level(v: int) -> int {
    if v > 0 {
        40 * v + 55
    } else {
        0
    }
}

/// The index of the cube entry chosen for `c`, each channel on its own.
pub open spec fn cube_index(c: Color) -> u8 {
    (16 + cube_coord(c.b) + 6 * cube_coord(c.g) + 36 * cube_coord(c.r)) as u8
}

/// The unweighted mean of the three channels, rounded down.
pub open spec fn gray_level(c: Color) -> u8 {
    ((c.r + c.g + c.b) / 3) as u8
}

/// The index of the ramp entry chosen for the gray level of `c`.
pub open spec fn gray_index(c: Color) -> u8 {
    (232 + gray_step(gray_level(c))) as u8
}

/// The gray whose three channels all are `level`.
pub open spec fn gray(level: int) -> Color {
    Color { r: level as u8, g: level as u8, b: level as u8 }
}

/// The colour of a palette index.
///
/// Below 16 an index is a 4-bit colour: bit 3 picks the intensity, 255 or
/// 128, and bits 0, 1 and 2 switch red, green and blue on at that intensity.
/// The intensity is applied once: a channel that is switched on carries the
/// intensity itself, not its square, which would not fit in eight bits.
/// Indices 7 and 8 are the two grays 192 and 128 instead.
pub open spec fn dequantize(index: u8) -> Color {
    if index == 7 {
        gray(192)
    } else if index == 8 {
        gray(128)
    } else if index < 16 {
        let i: u8 = if index / 8 % 2 == 1 {
            255
        } else {
            128
        };
        Color {
            r: if index % 2 == 1 {
                i
            } else {
                0
            },
            g: if index / 2 % 2 == 1 {
                i
            } else {
                0
            },
            b: if index / 4 % 2 == 1 {
                i
            } else {
                0
            },
        }
    } else if index < 232 {
        let c: int = index - 16;
        Color {
            r: cube_level(c / 36) as u8,
            g: cube_level(c / 6 % 6) as u8,
            b: cube_level(c % 6) as u8,
        }
    } else {
        gray(8 + 10 * (index - 232))
    }
}

/// The palette index of a colour: of the cube entry and the ramp entry chosen
/// for it, the one whose colour is nearer; the ramp entry when both are
/// equally near.
pub open spec fn quantize(c: Color) -> u8 {
    if dist2(c, dequantize(cube_index(c))) < dist2(c, dequantize(gray_index(c))) {
        cube_index(c)
    } else {
        gray_index(c)
    }
}

/// Whether `v` is one of the six intensities of the colour cube.
pub open spec fn is_cube_level(v: u8) -> bool {
    v == 0 || v == 95 || v == 135 || v == 175 || v == 215 || v == 255
}

/// The candidates of a colour lie in the cube and on the ramp.
pub proof fn lemma_candidate_ranges(c: Color)
    ensures
        16 <= cube_index(c) <= 231,
        232 <= gray_index(c) <= 255,
        cube_index(c) == 16 + cube_coord(c.b) + 6 * cube_coord(c.g) + 36 * cube_coord(c.r),
        gray_index(c) == 232 + gray_step(gray_level(c)),
        gray_level(c) == (c.r + c.g + c.b) / 3,
{
}

/// Quantization never yields one of the sixteen reconfigurable colours.
pub proof fn lemma_quantize_avoids_low_indices(c: Color)
    ensures
        quantize(c) >= 16,
{
    lemma_candidate_ranges(c);
}

/// The colour that quantization settles on is at least as near the input as
/// the colour of the cube candidate and as the colour of the ramp candidate.
pub proof fn lemma_quantize_picks_nearer(c: Color)
    ensures
        quantize(c) == cube_index(c) || quantize(c) == gray_index(c),
        dist2(c, dequantize(quantize(c))) <= dist2(c, dequantize(cube_index(c))),
        dist2(c, dequantize(quantize(c))) <= dist2(c, dequantize(gray_index(c))),
{
}

/// Every channel of a cube entry is one of the six cube intensities.
pub proof fn lemma_cube_entries(index: u8)
    requires
        16 <= index < 232,
    ensures
        is_cube_level(dequantize(index).r),
        is_cube_level(dequantize(index).g),
        is_cube_level(dequantize(index).b),
{
}

/// A ramp entry is a gray: its channels are equal, between 8 and 238, ten
/// apart from one index to the next.
pub proof fn lemma_gray_ramp_entries(index: u8)
    requires
        232 <= index,
    ensures
        dequantize(index) == gray(8 + 10 * (index - 232)),
        dequantize(index).r == dequantize(index).g == dequantize(index).b,
        dequantize(index).r == 8 + 10 * (index - 232),
        8 <= dequantize(index).r <= 238,
        dequantize(232).r == 8,
        dequantize(255).r == 238,
{
}

/// Along the ramp the gray grows with the index, by ten for each step.
pub proof fn lemma_gray_ramp_increases(low: u8, high: u8)
    requires
        232 <= low < high,
    ensures
        dequantize(low).r < dequantize(high).r,
        dequantize(high).r - dequantize(low).r == 10 * (high - low),
{
    lemma_gray_ramp_entries(low);
    lemma_gray_ramp_entries(high);
}

/// The cube gives each of its six intensities the coordinate it came from.
pub proof fn lemma_coord_of_level(v: int)
    requires
        0 <= v <= 5,
    ensures
        0 <= cube_level(v) <= 255,
        cube_coord(cube_level(v) as u8) == v,
{
}

/// The cube candidate of a cube entry is that entry.
pub proof fn lemma_cube_index_of_entry(index: u8)
    requires
        16 <= index < 232,
    ensures
        cube_index(dequantize(index)) == index,
{
    let n: int = index - 16;
    let r: int = n / 36;
    let g: int = n / 6 % 6;
    let b: int = n % 6;
    assert(n == 36 * r + 6 * g + b);
    lemma_coord_of_level(r);
    lemma_coord_of_level(g);
    lemma_coord_of_level(b);
}

/// The ramp candidate of a ramp entry is that entry.
pub proof fn lemma_gray_index_of_entry(index: u8)
    requires
        232 <= index,
    ensures
        gray_index(dequantize(index)) == index,
{
    let level: int = 8 + 10 * (index - 232);
    assert(gray_level(dequantize(index)) == level);
}

/// A colour of the cube or of the ramp is quantized to its own index.
pub proof fn lemma_quantize_inverts_dequantize(index: u8)
    requires
        16 <= index,
    ensures
        quantize(dequantize(index)) == index,
{
    let c = dequantize(index);
    lemma_candidate_ranges(c);
    lemma_dist2_bounds(c, dequantize(cube_index(c)));
    lemma_dist2_bounds(c, dequantize(gray_index(c)));
    if index < 232 {
        lemma_cube_index_of_entry(index);
        lemma_cube_entries(index);
        lemma_gray_ramp_entries(gray_index(c));
        assert(dequantize(gray_index(c)).r % 10 == 8);
    } else {
        lemma_gray_index_of_entry(index);
    }
}

/// Maps a channel intensity to its coordinate in the colour cube.
pub fn rgb_channel(c: u8) -> (v: u8)
    ensures
        v == cube_coord(c),
        v <= 5,
{
    if c < 48 {
        0
    } else if c < 75 {
        1
    } else {
        (c - 35) / 40
    }
}

/// Maps a gray level to its step on the gray ramp.
pub fn gray_channel(c: u8) -> (s: u8)
    ensures
        s == gray_step(c),
        s <= 23,
{
    if c < 13 {
        0
    } else if c > 235 {
        23
    } else {
        (c - 3) / 10
    }
}

/// Maps a coordinate of the colour cube to its channel intensity.
pub fn channel(i: u8) -> (v: u8)
    requires
        i <= 5,
    ensures
        v == cube_level(i as int),
        is_cube_level(v),
{
    i * 40 + if i > 0 {
        55
    } else {
        0
    }
}

/// Converts a 24-bit colour into an index of the 256-colour palette.
///
/// The first 16 indices are never chosen: a user may have given them other
/// colours.
pub fn to_xterm256(c: Color) -> (index: u8)
    ensures
        index == quantize(c),
        index >= 16,
        index == cube_index(c) || index == gray_index(c),
        dist2(c, dequantize(index)) <= dist2(c, dequantize(cube_index(c))),
        dist2(c, dequantize(index)) <= dist2(c, dequantize(gray_index(c))),
{
    let rgb_color: u8 = {
        let r: u8 = rgb_channel(c.r);
        let g: u8 = rgb_channel(c.g);
        let b: u8 = rgb_channel(c.b);

        16 + b + g * 6 + r * 36
    };

    let gray_color: u8 = {
        // No perceptual weighting: only colours that are close to gray
        // already end up on the ramp, the others snap to the cube.
        let gray: u8 = ((c.r as u32 + c.g as u32 + c.b as u32) / 3) as u8;
        232 + gray_channel(gray)
    };

    if distance2(c, from_xterm256(rgb_color)) < distance2(c, from_xterm256(gray_color)) {
        rgb_color
    } else {
        gray_color
    }
}

/// Converts an index of the 256-colour palette into its 24-bit colour.
///
/// The first 16 indices get the usual colours of a 4-bit terminal, each
/// channel either off or at the intensity that bit 3 selects.
pub fn from_xterm256(c: u8) -> (color: Color)
    ensures
        color == dequantize(c),
{
    if c == 7 {
        Color { r: 192, g: 192, b: 192 }
    } else if c == 8 {
        Color { r: 128, g: 128, b: 128 }
    } else if c < 16 {
        assert((c & 0b1000 != 0) == (c / 8 % 2 == 1)) by (bit_vector);
        assert((c & 0b1 != 0) == (c % 2 == 1)) by (bit_vector);
        assert((c & 0b10 != 0) == (c / 2 % 2 == 1)) by (bit_vector);
        assert((c & 0b100 != 0) == (c / 4 % 2 == 1)) by (bit_vector);
        let i: u8 = if c & 0b1000 != 0 {
            255
        } else {
            128
        };
        let r: u8 = if c & 0b1 != 0 {
            i
        } else {
            0
        };
        let g: u8 = if c & 0b10 != 0 {
            i
        } else {
            0
        };
        let b: u8 = if c & 0b100 != 0 {
            i
        } else {
            0
        };

        Color { r, g, b }
    } else if c < 232 {
        // The 6×6×6 colour cube.
        let c: u8 = c - 16;
        let b: u8 = channel(c % 6);
        let g: u8 = channel((c / 6) % 6);
        let r: u8 = channel(c / 36);

        Color { r, g, b }
    } else {
        // The ramp of 24 grays.
        let c: u8 = c - 232;
        let c: u8 = 8 + 10 * c;
        Color { r: c, g: c, b: c }
    }
}

} // verus!
