//! From an image and the size of the terminal to the text that draws the
//! image: one glyph for every block that the terminal has room for, one line
//! of text for every row of blocks.

use crate::block::{glyph_of, Glyph};
use crate::paint::glyph_text;
use crate::raster::Image;
use vstd::prelude::*;
use vstd::string::StringExecFns;

verus! {

/// The number of glyphs in a line: the whole blocks in a row of the image, or
/// the width of the terminal where that is less.
pub open spec fn grid_columns(image: &Image, term_w: usize) -> nat {
    if image.block_columns() < term_w {
        image.block_columns() as nat
    } else {
        term_w as nat
    }
}

/// The number of lines: the whole rows of blocks in the image, or the height
/// of the terminal where that is less.
pub open spec fn grid_rows(image: &Image, term_h: usize) -> nat {
    if image.block_rows() < term_h {
        image.block_rows() as nat
    } else {
        term_h as nat
    }
}

/// The glyph in column `x` of line `y`.
pub open spec fn cell(image: &Image, x: int, y: int) -> Glyph {
    glyph_of(image.block_at(x, y))
}

/// The text of the first `n` glyphs of line `y`.
pub open spec fn cells_text(image: &Image, y: int, n: nat) -> Seq<char>
    decreases n,
{
    if n == 0 {
        Seq::empty()
    } else {
        cells_text(image, y, (n - 1) as nat) + glyph_text(cell(image, n - 1, y))
    }
}

/// Line `y` with `columns` glyphs: their text and a line feed.
pub open spec fn line_text(image: &Image, y: int, columns: nat) -> Seq<char> {
    cells_text(image, y, columns).push('\n')
}

/// The first `n` lines, each with `columns` glyphs.
pub open spec fn lines_text(image: &Image, n: nat, columns: nat) -> Seq<char>
    decreases n,
{
    if n == 0 {
        Seq::empty()
    } else {
        lines_text(image, (n - 1) as nat, columns) + line_text(image, n - 1, columns)
    }
}

/// The text that draws `image` on a terminal of `term_w` columns and `term_h`
/// lines.
pub open spec fn rendering(image: &Image, term_w: usize, term_h: usize) -> Seq<char> {
    lines_text(image, grid_rows(image, term_h), grid_columns(image, term_w))
}

/// Where image and terminal leave room for one glyph only, the text is that
/// glyph and a line feed.
pub proof fn lemma_single_cell(image: &Image, term_w: usize, term_h: usize)
    requires
        grid_columns(image, term_w) == 1,
        grid_rows(image, term_h) == 1,
    ensures
        rendering(image, term_w, term_h) == glyph_text(cell(image, 0, 0)).push('\n'),
{
    reveal_with_fuel(cells_text, 2);
    reveal_with_fuel(lines_text, 2);
    assert(cells_text(image, 0, 1) =~= glyph_text(cell(image, 0, 0)));
    assert(lines_text(image, 1, 1) =~= line_text(image, 0, 1));
}

/// Lines without glyphs are line feeds alone.
pub proof fn lemma_empty_lines(image: &Image, n: nat)
    ensures
        lines_text(image, n, 0) == Seq::new(n, |i: int| '\n'),
    decreases n,
{
    if n > 0 {
        lemma_empty_lines(image, (n - 1) as nat);
        assert(line_text(image, n - 1, 0) =~= seq!['\n']);
    }
    assert(lines_text(image, n, 0) =~= Seq::new(n, |i: int| '\n'));
}

/// On a terminal without lines nothing is drawn, and on one without columns
/// no glyph is: the text is a line feed for each row of blocks that the
/// terminal's height admits.
pub proof fn lemma_no_room(image: &Image, term_w: usize, term_h: usize)
    requires
        term_w == 0 || term_h == 0,
    ensures
        term_h == 0 ==> rendering(image, term_w, term_h) == Seq::<char>::empty(),
        term_w == 0 ==> rendering(image, term_w, term_h) == Seq::new(
            grid_rows(image, term_h),
            |i: int| '\n',
        ),
{
    if term_w == 0 {
        lemma_empty_lines(image, grid_rows(image, term_h));
    }
}

/// The glyph that draws the block at column `x` and row `y` of the grid of
/// blocks.
pub fn glyph_at(image: &Image, x: usize, y: usize) -> (glyph: Glyph)
    requires
        x < image.block_columns(),
        y < image.block_rows(),
    ensures
        glyph == cell(image, x as int, y as int),
{
    image.block(x, y).render()
}

/// Draws the first `columns` blocks of row `y` of the grid of blocks as one
/// line of text.
pub fn render_line(image: &Image, y: usize, columns: usize) -> (text: String)
    requires
        y < image.block_rows(),
        columns <= image.block_columns(),
    ensures
        text@ == line_text(image, y as int, columns as nat),
{
    let mut text = String::new();
    for x in 0..columns
        invariant
            y < image.block_rows(),
            columns <= image.block_columns(),
            text@ == cells_text(image, y as int, x as nat),
    {
        let glyph: Glyph = glyph_at(image, x, y);
        let cell_text = glyph.paint();
        text.append(cell_text.as_str());
    }
    proof {
        reveal_strlit("\n");
        assert("\n"@ =~= seq!['\n']);
    }
    text.append("\n");
    assert(text@ =~= line_text(image, y as int, columns as nat));
    text
}

/// Draws an image for a terminal of `term_w` columns and `term_h` lines.
///
/// Block rows beyond the height of the terminal and block columns beyond its
/// width are left out, and so are the pixels at the right and bottom edge of
/// the image that do not fill a block.
pub fn render(image: &Image, term_w: usize, term_h: usize) -> (text: String)
    ensures
        text@ == rendering(image, term_w, term_h),
{
    let rows: usize = if image.height() / 4 < term_h {
        image.height() / 4
    } else {
        term_h
    };
    let columns: usize = if image.width() / 2 < term_w {
        image.width() / 2
    } else {
        term_w
    };
    let mut text = String::new();
    for y in 0..rows
        invariant
            rows <= image.block_rows(),
            columns <= image.block_columns(),
            text@ == lines_text(image, y as nat, columns as nat),
    {
        let line = render_line(image, y, columns);
        text.append(line.as_str());
    }
    text
}

} // verus!
