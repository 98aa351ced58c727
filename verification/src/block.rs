//! Blocks of 2×4 pixels and the glyphs that stand for them.
//!
//! A block is drawn with two colours. The background is the pixel of the block
//! nearest black, the foreground the pixel nearest white, and each of the
//! eight dots of the glyph is lit when its pixel is nearer the foreground
//! colour than the background colour.

use crate::color::{dist2, distance2, lemma_dist2_bounds, Color};
use crate::palette::{quantize, to_xterm256};
use vstd::arithmetic::power2::{lemma2_to64, pow2};
use vstd::prelude::*;

verus! {

/// The pixel, as column and row within a block, behind each dot of a braille
/// glyph: dot `i` is bit `i` of the glyph's mask.
pub const DOTS: [(usize, usize); 8] = [(0, 0), (0, 1), (0, 2), (1, 0), (1, 1), (1, 2), (0, 3), (1, 3)];

/// A window of 2×4 pixels, row by row: the pixel at column `x` and row `y` is
/// `pixels[2 * y + x]`.
#[derive(Clone, Copy, Debug)]
pub struct Block {
    pub pixels: [Color; 8],
}

/// What is drawn in one character cell: two palette indices and the dots that
/// take the foreground colour.
#[derive(Clone, Copy, Debug, PartialEq, Eq, Structural)]
pub struct Glyph {
    pub foreground: u8,
    pub background: u8,
    pub mask: u8,
}

impl View for Block {
    type V = Seq<Color>;

    open spec fn view(&self) -> Seq<Color> {
        self.pixels@
    }
}

/// The place in a block's pixel sequence of the pixel at column `x`, row `y`.
pub open spec fn scan_index(x: int, y: int) -> int {
    2 * y + x
}

/// The place in a block's pixel sequence of the pixel behind dot `i`.
pub open spec fn dot_pixel(i: int) -> int {
    scan_index(DOTS@[i].0 as int, DOTS@[i].1 as int)
}

/// Of the first `n` pixels of `s` the one nearest `target`, and the earliest
/// such pixel where several are equally near.
pub open spec fn nearest(s: Seq<Color>, target: Color, n: nat) -> Color
    decreases n,
{
    if n <= 1 {
        s[0]
    } else {
        let best = nearest(s, target, (n - 1) as nat);
        if dist2(s[n - 1], target) < dist2(best, target) {
            s[n - 1]
        } else {
            best
        }
    }
}

/// The background colour of a block: its pixel nearest black.
pub open spec fn darkest(s: Seq<Color>) -> Color {
    nearest(s, Color::black(), s.len())
}

/// The foreground colour of a block: its pixel nearest white.
pub open spec fn brightest(s: Seq<Color>) -> Color {
    nearest(s, Color::white(), s.len())
}

/// Whether dot `i` is lit: its pixel is strictly nearer `max` than `min`.
pub open spec fn dot_lit(s: Seq<Color>, min: Color, max: Color, i: int) -> bool {
    dist2(s[dot_pixel(i)], max) < dist2(s[dot_pixel(i)], min)
}

/// The lit dots below `n` as a number: `2^i` for each lit dot `i`.
pub open spec fn dots_below(s: Seq<Color>, min: Color, max: Color, n: nat) -> nat
    decreases n,
{
    if n == 0 {
        0
    } else {
        dots_below(s, min, max, (n - 1) as nat) + if dot_lit(s, min, max, n - 1) {
            pow2((n - 1) as nat)
        } else {
            0
        }
    }
}

/// The mask of a block drawn with the colours `min` and `max`.
pub open spec fn dot_mask(s: Seq<Color>, min: Color, max: Color) -> nat {
    dots_below(s, min, max, 8)
}

/// Whether bit `i` of `mask` is set.
pub open spec fn has_dot(mask: u8, i: u8) -> bool {
    (mask >> i) & 1 == 1
}

/// The glyph of a block.
pub open spec fn glyph_of(s: Seq<Color>) -> Glyph {
    Glyph {
        foreground: quantize(brightest(s)),
        background: quantize(darkest(s)),
        mask: dot_mask(s, darkest(s), brightest(s)) as u8,
    }
}

/// The nearest pixel is a pixel of the sequence, no pixel is nearer the
/// target, and every pixel before it is strictly farther. The result is its
/// place.
pub proof fn lemma_nearest_is_first_least(s: Seq<Color>, target: Color, n: nat) -> (k: int)
    requires
        1 <= n <= s.len(),
    ensures
        0 <= k < n,
        nearest(s, target, n) == s[k],
        forall|j: int| 0 <= j < n ==> dist2(s[k], target) <= dist2(#[trigger] s[j], target),
        forall|j: int| 0 <= j < k ==> dist2(s[k], target) < dist2(#[trigger] s[j], target),
    decreases n,
{
    if n == 1 {
        0
    } else {
        let k = lemma_nearest_is_first_least(s, target, (n - 1) as nat);
        if dist2(s[n - 1], target) < dist2(s[k], target) {
            n - 1
        } else {
            k
        }
    }
}

/// The lit dots below `n` stay below `2^n`.
pub proof fn lemma_dots_below_bound(s: Seq<Color>, min: Color, max: Color, n: nat)
    ensures
        dots_below(s, min, max, n) < pow2(n),
    decreases n,
{
    lemma2_to64();
    if n > 0 {
        lemma_dots_below_bound(s, min, max, (n - 1) as nat);
        vstd::arithmetic::power2::lemma_pow2_unfold(n);
    }
}

/// The numeric value of a dot and how a mask below it takes it up.
proof fn lemma_set_dot(mask: u8, i: u8)
    requires
        i < 8,
        mask < pow2(i as nat),
    ensures
        1u8 << i == pow2(i as nat),
        mask | (1u8 << i) == mask + pow2(i as nat),
{
    lemma2_to64();
    assert(i < 8 ==> 1u8 << i == (if i == 0 {
        1u8
    } else if i == 1 {
        2u8
    } else if i == 2 {
        4u8
    } else if i == 3 {
        8u8
    } else if i == 4 {
        16u8
    } else if i == 5 {
        32u8
    } else if i == 6 {
        64u8
    } else {
        128u8
    })) by (bit_vector);
    assert(i < 8 && mask < (1u8 << i) ==> mask | (1u8 << i) == mask + (1u8 << i))
        by (bit_vector);
}

/// A mask fits in eight bits, and bit `i` of it is set exactly when dot `i`
/// is lit.
pub proof fn lemma_mask_bits(s: Seq<Color>, min: Color, max: Color, i: u8)
    requires
        i < 8,
    ensures
        dot_mask(s, min, max) < 256,
        has_dot(dot_mask(s, min, max) as u8, i) <==> dot_lit(s, min, max, i as int),
{
    lemma2_to64();
    reveal_with_fuel(dots_below, 9);
    let b0: u8 = if dot_lit(s, min, max, 0) { 1 } else { 0 };
    let b1: u8 = if dot_lit(s, min, max, 1) { 1 } else { 0 };
    let b2: u8 = if dot_lit(s, min, max, 2) { 1 } else { 0 };
    let b3: u8 = if dot_lit(s, min, max, 3) { 1 } else { 0 };
    let b4: u8 = if dot_lit(s, min, max, 4) { 1 } else { 0 };
    let b5: u8 = if dot_lit(s, min, max, 5) { 1 } else { 0 };
    let b6: u8 = if dot_lit(s, min, max, 6) { 1 } else { 0 };
    let b7: u8 = if dot_lit(s, min, max, 7) { 1 } else { 0 };
    let m: u8 = dot_mask(s, min, max) as u8;
    assert(m == b0 + 2 * b1 + 4 * b2 + 8 * b3 + 16 * b4 + 32 * b5 + 64 * b6 + 128 * b7);
    assert((m >> 0u8) & 1 == b0 && (m >> 1u8) & 1 == b1 && (m >> 2u8) & 1 == b2 && (m >> 3u8) & 1
        == b3 && (m >> 4u8) & 1 == b4 && (m >> 5u8) & 1 == b5 && (m >> 6u8) & 1 == b6 && (m >> 7u8)
        & 1 == b7) by (bit_vector)
        requires
            b0 <= 1,
            b1 <= 1,
            b2 <= 1,
            b3 <= 1,
            b4 <= 1,
            b5 <= 1,
            b6 <= 1,
            b7 <= 1,
            m == b0 + 2 * b1 + 4 * b2 + 8 * b3 + 16 * b4 + 32 * b5 + 64 * b6 + 128 * b7,
    ;
}

/// Both colours of a block are pixels of the block.
pub proof fn lemma_representatives_are_pixels(s: Seq<Color>)
    requires
        s.len() == 8,
    ensures
        exists|i: int| 0 <= i < 8 && s[i] == darkest(s),
        exists|i: int| 0 <= i < 8 && s[i] == brightest(s),
{
    let lo = lemma_nearest_is_first_least(s, Color::black(), 8);
    let hi = lemma_nearest_is_first_least(s, Color::white(), 8);
    assert(s[lo] == darkest(s));
    assert(s[hi] == brightest(s));
}

/// A block of one colour is drawn in that colour alone: both of its colours
/// are the colour of its pixels, no dot is lit, and foreground and background
/// are the same palette index.
pub proof fn lemma_uniform_block(s: Seq<Color>, c: Color)
    requires
        s.len() == 8,
        forall|i: int| 0 <= i < 8 ==> s[i] == c,
    ensures
        darkest(s) == c,
        brightest(s) == c,
        dot_mask(s, c, c) == 0,
        glyph_of(s).mask == 0,
        glyph_of(s).foreground == glyph_of(s).background,
        glyph_of(s).foreground == quantize(c),
{
    let lo = lemma_nearest_is_first_least(s, Color::black(), 8);
    let hi = lemma_nearest_is_first_least(s, Color::white(), 8);
    reveal_with_fuel(dots_below, 9);
}

/// A block that holds a black pixel has black as its background colour, and a
/// block that holds a white pixel has white as its foreground colour; the lit
/// dots of a block that holds both are those whose pixel is nearer white than
/// black.
pub proof fn lemma_black_and_white(s: Seq<Color>, i: int, j: int)
    requires
        s.len() == 8,
        0 <= i < 8,
        0 <= j < 8,
        s[i] == Color::black(),
        s[j] == Color::white(),
    ensures
        darkest(s) == Color::black(),
        brightest(s) == Color::white(),
        glyph_of(s).mask == dot_mask(s, Color::black(), Color::white()),
        forall|k: u8|
            k < 8 ==> (#[trigger] has_dot(glyph_of(s).mask, k) <==> dist2(
                s[dot_pixel(k as int)],
                Color::white(),
            ) < dist2(s[dot_pixel(k as int)], Color::black())),
{
    let lo = lemma_nearest_is_first_least(s, Color::black(), 8);
    let hi = lemma_nearest_is_first_least(s, Color::white(), 8);
    lemma_dist2_bounds(s[i], Color::black());
    lemma_dist2_bounds(s[lo], Color::black());
    lemma_dist2_bounds(s[j], Color::white());
    lemma_dist2_bounds(s[hi], Color::white());
    lemma_mask_bits(s, Color::black(), Color::white(), 0);
    assert forall|k: u8| k < 8 implies (#[trigger] has_dot(glyph_of(s).mask, k) <==> dist2(
        s[dot_pixel(k as int)],
        Color::white(),
    ) < dist2(s[dot_pixel(k as int)], Color::black())) by {
        lemma_mask_bits(s, Color::black(), Color::white(), k);
    }
}

impl Block {
    /// A block from its eight pixels, row by row.
    pub fn new(pixels: [Color; 8]) -> (block: Block)
        ensures
            block@ == pixels@,
    {
        Block { pixels }
    }

    /// The pixel at column `x` and row `y`.
    pub fn pixel(&self, x: usize, y: usize) -> (c: Color)
        requires
            x < 2,
            y < 4,
        ensures
            c == self@[scan_index(x as int, y as int)],
    {
        self.pixels[2 * y + x]
    }

    /// The two colours the block is drawn with: first the pixel nearest
    /// black, then the pixel nearest white. The two are searched for
    /// separately, so they need not be far apart, and may be one pixel.
    pub fn extremes(&self) -> (pair: (Color, Color))
        ensures
            pair.0 == darkest(self@),
            pair.1 == brightest(self@),
    {
        let mut min: Color = self.pixels[0];
        let mut max: Color = min;

        for i in 0..8usize
            invariant
                self@.len() == 8,
                min == nearest(self@, Color::black(), i as nat),
                max == nearest(self@, Color::white(), i as nat),
        {
            let p: Color = self.pixels[i];
            if distance2(p, Color::black()) < distance2(min, Color::black()) {
                min = p;
            }
            if distance2(p, Color::white()) < distance2(max, Color::white()) {
                max = p;
            }
        }

        (min, max)
    }

    /// The dots whose pixel is strictly nearer `max` than `min`; a pixel as
    /// near the one as the other leaves its dot unlit.
    pub fn mask(&self, min: Color, max: Color) -> (mask: u8)
        ensures
            mask == dot_mask(self@, min, max),
    {
        let mut mask: u8 = 0;

        for i in 0..8usize
            invariant
                self@.len() == 8,
                mask == dots_below(self@, min, max, i as nat),
        {
            let (x, y) = DOTS[i];
            let p: Color = self.pixel(x, y);
            if distance2(p, max) < distance2(p, min) {
                proof {
                    lemma_dots_below_bound(self@, min, max, i as nat);
                    lemma_set_dot(mask, i as u8);
                }
                mask = mask | (1u8 << i);
            }
        }

        mask
    }

    /// Draws the block as one glyph.
    pub fn render(&self) -> (glyph: Glyph)
        ensures
            glyph == glyph_of(self@),
    {
        let (min, max) = self.extremes();
        let background: u8 = to_xterm256(min);
        let foreground: u8 = to_xterm256(max);
        let mask: u8 = self.mask(min, max);
        Glyph { foreground, background, mask }
    }
}

} // verus!
