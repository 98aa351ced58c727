//! Glyphs as text for the terminal: a braille character between the escape
//! sequences that set its two colours and reset them.

use crate::block::Glyph;
use vstd::prelude::*;

verus! {

/// The character of the digit `d`.
pub open spec fn digit(d: nat) -> char {
    (48 + d) as char
}

/// The decimal digits of `n`, without leading zeros.
pub open spec fn decimal(n: nat) -> Seq<char>
    decreases n,
{
    if n < 10 {
        seq![digit(n)]
    } else {
        decimal(n / 10).push(digit(n % 10))
    }
}

/// The text that shows `text` in the palette colour `fg` on the palette colour
/// `bg`: the escape sequence `ESC [ 48;5;bg ; 38;5;fg m`, the text, and the
/// reset sequence `ESC [ 0 m`.
pub open spec fn painted(fg: u8, bg: u8, text: Seq<char>) -> Seq<char> {
    seq!['\x1b', '[', '4', '8', ';', '5', ';'] + decimal(bg as nat) + seq![
        ';',
        '3',
        '8',
        ';',
        '5',
        ';',
    ] + decimal(fg as nat) + seq!['m'] + text + seq!['\x1b', '[', '0', 'm']
}

/// The braille character whose raised dots are the set bits of `mask`.
pub open spec fn braille(mask: u8) -> char {
    (0x2800 + mask) as char
}

/// The text that shows a glyph.
pub open spec fn glyph_text(glyph: Glyph) -> Seq<char> {
    painted(glyph.foreground, glyph.background, seq![braille(glyph.mask)])
}

/// `char::from_u32` yields the character with the given scalar value, and
/// nothing for a surrogate or a number above `0x10FFFF`.
pub assume_specification[ char::from_u32 ](i: u32) -> (c: Option<char>)
    ensures
        c == if i <= 0xD7FF || 0xE000 <= i <= 0x10FFFF {
            Some(i as char)
        } else {
            None::<char>
        },
;

/// `ansi_term`'s `Colour::Fixed(fg).on(Colour::Fixed(bg)).paint(..)`, written
/// out as a string. The style has a foreground and a background and nothing
/// else, so the crate writes `ESC [`, the background code `48;5;bg`, `;`, the
/// foreground code `38;5;fg` and `m` before the text, and its reset sequence
/// `ESC [ 0 m` after it, both numbers in decimal.
#[verifier::external_body]
fn paint_fixed(fg: u8, bg: u8, ch: char) -> (text: String)
    ensures
        text@ == painted(fg, bg, seq![ch]),
{
    ansi_term::Colour::Fixed(fg).on(ansi_term::Colour::Fixed(bg)).paint(ch.to_string()).to_string()
}

impl Glyph {
    /// The braille character of the glyph: code point `0x2800` plus the mask.
    pub fn character(&self) -> (c: char)
        ensures
            c == braille(self.mask),
            c as u32 == 0x2800 + self.mask,
    {
        let code: u32 = 0x2800 + self.mask as u32;
        char::from_u32(code).unwrap()
    }

    /// The glyph as text for the terminal: its character in its foreground
    /// colour on its background colour.
    pub fn paint(&self) -> (text: String)
        ensures
            text@ == glyph_text(*self),
    {
        paint_fixed(self.foreground, self.background, self.character())
    }
}

} // verus!
