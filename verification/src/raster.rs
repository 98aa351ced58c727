//! Images as grids of pixels, and the blocks cut out of them.

use crate::block::Block;
use crate::color::Color;
use vstd::prelude::*;

verus! {

/// A decoded image: `width * height` pixels, row by row from the top.
#[derive(Debug)]
pub struct Image {
    width: usize,
    height: usize,
    pixels: Vec<Color>,
}

impl Image {
    /// There is one pixel for every place of the grid.
    #[verifier::type_invariant]
    pub closed spec fn well_formed(self) -> bool {
        self.pixels.len() == self.width * self.height
    }

    /// The number of pixels in a row.
    pub closed spec fn spec_width(&self) -> usize {
        self.width
    }

    /// The number of rows.
    pub closed spec fn spec_height(&self) -> usize {
        self.height
    }

    /// The pixels, row by row from the top.
    pub closed spec fn pixels(&self) -> Seq<Color> {
        self.pixels@
    }

    /// The pixel at column `x` and row `y`.
    pub open spec fn pixel_at(&self, x: int, y: int) -> Color {
        self.pixels()[y * self.width() + x]
    }

    /// The pixels of the block at column `bx` and row `by` of the grid of
    /// blocks: the 2×4 pixels from `(2 * bx, 4 * by)` on, row by row.
    pub open spec fn block_at(&self, bx: int, by: int) -> Seq<Color> {
        Seq::new(8, |i: int| self.pixel_at(2 * bx + i % 2, 4 * by + i / 2))
    }

    /// The number of whole blocks in a row; a last odd column of pixels
    /// belongs to no block.
    pub open spec fn block_columns(&self) -> int {
        self.width() as int / 2
    }

    /// The number of whole rows of blocks; up to three last rows of pixels
    /// belong to no block.
    pub open spec fn block_rows(&self) -> int {
        self.height() as int / 4
    }

    /// A well-formed image holds a pixel for every place of its grid.
    pub proof fn lemma_pixel_count(&self)
        requires
            self.well_formed(),
        ensures
            self.pixels().len() == self.width() * self.height(),
    {
    }

    /// An image from its size and its pixels, row by row from the top;
    /// nothing when the number of pixels is not `width * height`.
    pub fn new(width: usize, height: usize, pixels: Vec<Color>) -> (image: Option<Image>)
        ensures
            image is Some <==> pixels.len() == width * height,
            image matches Some(img) ==> img.well_formed() && img.width() == width && img.height()
                == height && img.pixels() == pixels@,
    {
        match width.checked_mul(height) {
            Some(n) => {
                if n == pixels.len() {
                    Some(Image { width, height, pixels })
                } else {
                    None
                }
            },
            None => None,
        }
    }

    /// The number of pixels in a row.
    #[verifier::when_used_as_spec(spec_width)]
    pub fn width(&self) -> (w: usize)
        ensures
            w == self.spec_width(),
    {
        self.width
    }

    /// The number of rows.
    #[verifier::when_used_as_spec(spec_height)]
    pub fn height(&self) -> (h: usize)
        ensures
            h == self.spec_height(),
    {
        self.height
    }

    /// The pixel at column `x` and row `y`.
    pub fn get_pixel(&self, x: usize, y: usize) -> (c: Color)
        requires
            x < self.width(),
            y < self.height(),
        ensures
            c == self.pixel_at(x as int, y as int),
    {
        proof {
            use_type_invariant(self);
            lemma_place_in_grid(x as int, y as int, self.width as int, self.height as int);
        }
        self.pixels[y * self.width + x]
    }

    /// The block at column `bx` and row `by` of the grid of blocks.
    pub fn block(&self, bx: usize, by: usize) -> (block: Block)
        requires
            bx < self.block_columns(),
            by < self.block_rows(),
        ensures
            block@ == self.block_at(bx as int, by as int),
    {
        let x: usize = 2 * bx;
        let y: usize = 4 * by;
        let pixels: [Color; 8] = [
            self.get_pixel(x, y),
            self.get_pixel(x + 1, y),
            self.get_pixel(x, y + 1),
            self.get_pixel(x + 1, y + 1),
            self.get_pixel(x, y + 2),
            self.get_pixel(x + 1, y + 2),
            self.get_pixel(x, y + 3),
            self.get_pixel(x + 1, y + 3),
        ];
        let block = Block::new(pixels);
        assert(block@ =~= self.block_at(bx as int, by as int));
        block
    }
}

/// A place of a grid of `width * height` places, counted row by row, is below
/// the number of places.
pub proof fn lemma_place_in_grid(x: int, y: int, width: int, height: int)
    requires
        0 <= x < width,
        0 <= y < height,
    ensures
        0 <= y * width + x < width * height,
{
    assert(y * width + x < width * height && 0 <= y * width) by (nonlinear_arith)
        requires
            0 <= x < width,
            0 <= y < height,
    {
        assert((y + 1) * width <= height * width);
        assert((y + 1) * width == y * width + width);
    }
}

} // verus!
