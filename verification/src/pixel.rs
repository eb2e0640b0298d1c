//! The image under construction: a grid of colours, row by row.

use vstd::prelude::*;
use crate::color::{background, ColorType};
use crate::tile::Tile;

verus! {

/// A grid of `height` rows of `width` colours each. Row `y`, column `x` is
/// the pixel `(x, y)`.
#[derive(Debug)]
pub struct PixelBuffer {
    pub width: usize,
    pub height: usize,
    pub rows: Vec<Vec<ColorType>>,
}

impl PixelBuffer {
    /// The rows, each a sequence of colours.
    pub open spec fn view(&self) -> Seq<Seq<ColorType>> {
        Seq::new(self.rows@.len(), |y: int| self.rows@[y]@)
    }

    /// The grid has the dimensions it says it has.
    pub open spec fn wf(&self) -> bool {
        &&& self.rows@.len() == self.height
        &&& forall|y: int| 0 <= y < self.height ==> (#[trigger] self.rows@[y])@.len() == self.width
    }

    /// A grid of the given dimensions, every pixel in the background colour.
    pub fn new(width: usize, height: usize) -> (buffer: PixelBuffer)
        ensures
            buffer.wf(),
            buffer.width == width,
            buffer.height == height,
            forall|x: int, y: int|
                0 <= x < width && 0 <= y < height ==> #[trigger] buffer@[y][x] == background(),
    {
        let mut rows: Vec<Vec<ColorType>> = Vec::new();
        let mut y: usize = 0;
        while y < height
            invariant
                y <= height,
                rows@.len() == y,
                forall|j: int| 0 <= j < y ==> (#[trigger] rows@[j])@.len() == width,
                forall|j: int, i: int|
                    0 <= j < y && 0 <= i < width ==> #[trigger] rows@[j]@[i] == background(),
            decreases height - y,
        {
            let mut row: Vec<ColorType> = Vec::new();
            let mut x: usize = 0;
            while x < width
                invariant
                    x <= width,
                    row@.len() == x,
                    forall|i: int| 0 <= i < x ==> #[trigger] row@[i] == background(),
                decreases width - x,
            {
                row.push(ColorType { r: 0, g: 0, b: 0 });
                x += 1;
            }
            rows.push(row);
            y += 1;
        }
        PixelBuffer { width, height, rows }
    }

    /// The colour of the pixel `(x, y)`.
    pub fn get(&self, x: usize, y: usize) -> (c: ColorType)
        requires
            self.wf(),
            x < self.width,
            y < self.height,
        ensures
            c == self@[y as int][x as int],
    {
        self.rows[y][x]
    }

    /// Gives the pixel `(x, y)` a colour and leaves every other pixel as it
    /// was.
    pub fn set(&mut self, x: usize, y: usize, c: ColorType)
        requires
            old(self).wf(),
            x < old(self).width,
            y < old(self).height,
        ensures
            final(self).wf(),
            final(self).width == old(self).width,
            final(self).height == old(self).height,
            final(self)@ == old(self)@.update(y as int, old(self)@[y as int].update(x as int, c)),
    {
        self.rows[y][x] = c;
    }

    /// Writes the colours of one tile into the buffer and leaves every
    /// pixel outside the tile as it was. `part` holds the rows of the
    /// tile, the pixel `(x, y)` in column `x - x0` of row `y - y0`.
    pub fn paste(&mut self, tile: Tile, part: &Vec<Vec<ColorType>>)
        requires
            old(self).wf(),
            tile.x1 <= old(self).width,
            tile.y1 <= old(self).height,
            covers(part@, tile),
        ensures
            final(self).wf(),
            final(self).width == old(self).width,
            final(self).height == old(self).height,
            forall|x: int, y: int|
                tile.contains(x, y) ==> #[trigger] final(self)@[y][x] == part@[y - tile.y0]@[x
                    - tile.x0],
            forall|x: int, y: int|
                0 <= x < old(self).width && 0 <= y < old(self).height && !tile.contains(x, y)
                    ==> #[trigger] final(self)@[y][x] == old(self)@[y][x],
    {
        let mut y: usize = tile.y0;
        while y < tile.y1
            invariant
                self.wf(),
                self.width == old(self).width,
                self.height == old(self).height,
                tile.x1 <= self.width,
                tile.y1 <= self.height,
                tile.y0 <= y,
                covers(part@, tile),
                forall|i: int, j: int|
                    tile.contains(i, j) && j < y ==> #[trigger] self@[j][i] == part@[j - tile.y0]@[i
                        - tile.x0],
                forall|i: int, j: int|
                    0 <= i < self.width && 0 <= j < self.height && !tile.contains(i, j)
                        ==> #[trigger] self@[j][i] == old(self)@[j][i],
            decreases tile.y1 - y,
        {
            let mut x: usize = tile.x0;
            while x < tile.x1
                invariant
                    self.wf(),
                    self.width == old(self).width,
                    self.height == old(self).height,
                    tile.x1 <= self.width,
                    tile.y1 <= self.height,
                    tile.y0 <= y < tile.y1,
                    tile.x0 <= x,
                    covers(part@, tile),
                    forall|i: int, j: int|
                        tile.contains(i, j) && (j < y || (j == y && i < x)) ==> #[trigger] self@[j][i]
                            == part@[j - tile.y0]@[i - tile.x0],
                    forall|i: int, j: int|
                        0 <= i < self.width && 0 <= j < self.height && !tile.contains(i, j)
                            ==> #[trigger] self@[j][i] == old(self)@[j][i],
                decreases tile.x1 - x,
            {
                assert(tile.contains(x as int, y as int));
                let c = part[y - tile.y0][x - tile.x0];
                self.set(x, y, c);
                x += 1;
            }
            y += 1;
        }
    }
}

/// Whether `part` has a colour for every pixel of the tile: the pixel
/// `(x, y)` in column `x - x0` of row `y - y0`.
pub open spec fn covers(part: Seq<Vec<ColorType>>, tile: Tile) -> bool {
    forall|x: int, y: int| #[trigger]
        tile.contains(x, y) ==> y - tile.y0 < part.len() && x - tile.x0 < part[y - tile.y0]@.len()
}

} // verus!
