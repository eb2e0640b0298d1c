//! The render driver: tile by tile, pixel by pixel, one ray each.

use vstd::prelude::*;
use crate::color::{background, ColorType};
use crate::intersection::Intersection;
use crate::pixel::{covers, PixelBuffer};
use crate::tile::{grid, partition, tile_is_in_image, tiles_partition_image, Tile};

verus! {

/// The colour of a pixel whose ray had this outcome: that of the surface
/// hit, or the background.
pub open spec fn pixel_color(outcome: Option<Intersection>) -> ColorType {
    match outcome {
        Some(hit) => hit.color,
        None => background(),
    }
}

/// Whether `c` is a colour that tracing the pixel `(x, y)` can give.
pub open spec fn paints<F: Fn(usize, usize) -> Option<Intersection>>(
    trace: F,
    x: usize,
    y: usize,
    c: ColorType,
) -> bool {
    exists|outcome: Option<Intersection>| #[trigger]
        call_ensures(trace, (x, y), outcome) && c == pixel_color(outcome)
}

/// Whether the pixel `(x, y)` of the grid has a colour that tracing it can
/// give.
pub open spec fn painted<F: Fn(usize, usize) -> Option<Intersection>>(
    trace: F,
    cells: Seq<Seq<ColorType>>,
    x: int,
    y: int,
) -> bool {
    paints(trace, x as usize, y as usize, cells[y][x])
}

/// Whether the buffer is a rendering by `trace`: every pixel is painted.
pub open spec fn renders<F: Fn(usize, usize) -> Option<Intersection>>(
    trace: F,
    buffer: PixelBuffer,
) -> bool {
    &&& buffer.wf()
    &&& forall|x: int, y: int|
        0 <= x < buffer.width && 0 <= y < buffer.height ==> #[trigger] painted(
            trace,
            buffer@,
            x,
            y,
        )
}

/// Whether tracing a pixel of the image can give one outcome only.
pub open spec fn deterministic<F: Fn(usize, usize) -> Option<Intersection>>(
    trace: F,
    width: usize,
    height: usize,
) -> bool {
    forall|x: usize, y: usize, a: Option<Intersection>, b: Option<Intersection>|
        x < width && y < height && #[trigger] call_ensures(trace, (x, y), a) && #[trigger] call_ensures(
            trace,
            (x, y),
            b,
        ) ==> a == b
}

/// The colour of a pixel from the outcome of its ray.
pub fn shade(outcome: Option<Intersection>) -> (c: ColorType)
    ensures
        c == pixel_color(outcome),
{
    match outcome {
        Some(hit) => hit.color,
        None => ColorType { r: 0, g: 0, b: 0 },
    }
}

/// Whether `part` can be the colours of the tile, row by row: it has, for
/// every pixel of the tile, a colour that tracing the pixel can give.
pub open spec fn traces_tile<F: Fn(usize, usize) -> Option<Intersection>>(
    trace: F,
    tile: Tile,
    part: Seq<Vec<ColorType>>,
) -> bool {
    &&& covers(part, tile)
    &&& forall|x: int, y: int|
        tile.contains(x, y) ==> paints(
            trace,
            x as usize,
            y as usize,
            #[trigger] part[y - tile.y0]@[x - tile.x0],
        )
}

/// Whether the buffer is what the parts of the `n` by `n` tiles make when
/// put together: it has the given size, and every pixel the colour that
/// the part of its tile has for it.
pub open spec fn assembles(
    width: usize,
    height: usize,
    n: usize,
    parts: Seq<Vec<Vec<ColorType>>>,
    buffer: PixelBuffer,
) -> bool {
    &&& buffer.wf()
    &&& buffer.width == width
    &&& buffer.height == height
    &&& forall|k: int, x: int, y: int|
        0 <= k < n * n && #[trigger] grid(width as int, height as int, n as int)[k].contains(x, y)
            ==> buffer@[y][x] == parts[k]@[y - grid(width as int, height as int, n as int)[k].y0]@[x
            - grid(width as int, height as int, n as int)[k].x0]
}

/// Traces every pixel of one tile and gives the colours, row by row: the
/// pixel `(x, y)` in column `x - x0` of row `y - y0`.
pub fn trace_tile<F: Fn(usize, usize) -> Option<Intersection>>(tile: Tile, trace: &F) -> (part: Vec<
    Vec<ColorType>,
>)
    requires
        forall|x: usize, y: usize| #[trigger]
            tile.contains(x as int, y as int) ==> call_requires(*trace, (x, y)),
    ensures
        traces_tile(*trace, tile, part@),
{
    let mut part: Vec<Vec<ColorType>> = Vec::new();
    let mut y: usize = tile.y0;
    while y < tile.y1
        invariant
            tile.y0 <= y,
            part@.len() == y - tile.y0,
            forall|x: usize, y: usize| #[trigger]
                tile.contains(x as int, y as int) ==> call_requires(*trace, (x, y)),
            forall|j: int|
                tile.y0 <= j < y && tile.x0 <= tile.x1 ==> (#[trigger] part@[j - tile.y0])@.len()
                    == tile.x1 - tile.x0,
            forall|i: int, j: int|
                tile.contains(i, j) && j < y ==> paints(
                    *trace,
                    i as usize,
                    j as usize,
                    #[trigger] part@[j - tile.y0]@[i - tile.x0],
                ),
        decreases tile.y1 - y,
    {
        let mut row: Vec<ColorType> = Vec::new();
        let mut x: usize = tile.x0;
        while x < tile.x1
            invariant
                tile.y0 <= y < tile.y1,
                tile.x0 <= x,
                x <= tile.x1 || x == tile.x0,
                row@.len() == x - tile.x0,
                forall|x: usize, y: usize| #[trigger]
                    tile.contains(x as int, y as int) ==> call_requires(*trace, (x, y)),
                forall|i: int|
                    tile.x0 <= i < x ==> paints(
                        *trace,
                        i as usize,
                        y,
                        #[trigger] row@[i - tile.x0],
                    ),
            decreases tile.x1 - x,
        {
            assert(tile.contains(x as int, y as int));
            let outcome = trace(x, y);
            row.push(shade(outcome));
            x += 1;
        }
        part.push(row);
        y += 1;
    }
    part
}

/// Traces every pixel of one tile and writes its colour. Pixels outside
/// the tile keep theirs.
pub fn render_tile<F: Fn(usize, usize) -> Option<Intersection>>(
    buffer: &mut PixelBuffer,
    tile: Tile,
    trace: &F,
)
    requires
        old(buffer).wf(),
        tile.x1 <= old(buffer).width,
        tile.y1 <= old(buffer).height,
        forall|x: usize, y: usize| #[trigger]
            tile.contains(x as int, y as int) ==> call_requires(*trace, (x, y)),
    ensures
        final(buffer).wf(),
        final(buffer).width == old(buffer).width,
        final(buffer).height == old(buffer).height,
        forall|x: int, y: int|
            tile.contains(x, y) ==> #[trigger] painted(*trace, final(buffer)@, x, y),
        forall|x: int, y: int|
            0 <= x < old(buffer).width && 0 <= y < old(buffer).height && !tile.contains(x, y)
                ==> #[trigger] final(buffer)@[y][x] == old(buffer)@[y][x],
{
    let part = trace_tile(tile, trace);
    buffer.paste(tile, &part);
    proof {
        assert forall|x: int, y: int| tile.contains(x, y) implies #[trigger] painted(
            *trace,
            buffer@,
            x,
            y,
        ) by {}
    }
}

/// Renders an image of the given size: the pixel `(x, y)` gets the colour
/// of what `trace` finds for it, or the background where it finds nothing.
/// The work goes tile by tile over an `n` by `n` grid of tiles; the result
/// does not show it.
pub fn render<F: Fn(usize, usize) -> Option<Intersection>>(
    width: usize,
    height: usize,
    n: usize,
    trace: &F,
) -> (buffer: PixelBuffer)
    requires
        0 < n,
        n * n <= usize::MAX,
        forall|x: usize, y: usize| x < width && y < height ==> call_requires(*trace, (x, y)),
    ensures
        buffer.width == width,
        buffer.height == height,
        renders(*trace, buffer),
{
    let tiles = partition(width, height, n);
    let mut buffer = PixelBuffer::new(width, height);
    let mut k: usize = 0;
    while k < tiles.len()
        invariant
            0 < n,
            tiles@ == grid(width as int, height as int, n as int),
            k <= tiles@.len(),
            buffer.wf(),
            buffer.width == width,
            buffer.height == height,
            forall|x: usize, y: usize| x < width && y < height ==> call_requires(*trace, (x, y)),
            forall|m: int, x: int, y: int|
                0 <= m < k && 0 <= x < width && 0 <= y < height && (#[trigger] tiles@[m]).contains(
                    x,
                    y,
                ) ==> #[trigger] painted(*trace, buffer@, x, y),
        decreases tiles.len() - k,
    {
        let tile = tiles[k];
        let ghost before = buffer@;
        proof {
            tile_is_in_image(width as int, height as int, n as int, k as int);
        }
        render_tile(&mut buffer, tile, trace);
        proof {
            assert forall|m: int, x: int, y: int|
                0 <= m < k + 1 && 0 <= x < width && 0 <= y < height && (#[trigger] tiles@[m]).contains(
                    x,
                    y,
                ) implies #[trigger] painted(*trace, buffer@, x, y) by {
                if !tile.contains(x, y) {
                    assert(painted(*trace, before, x, y));
                }
            }
        }
        k += 1;
    }
    proof {
        assert forall|x: int, y: int| 0 <= x < width && 0 <= y < height implies #[trigger] painted(
            *trace,
            buffer@,
            x,
            y,
        ) by {
            let m = tiles_partition_image(width as int, height as int, n as int, x, y);
            assert(tiles@[m].contains(x, y));
        }
    }
    buffer
}

/// Puts the parts of the `n` by `n` tiles together, whoever made them and
/// in whatever order: part `k` belongs to tile `k` of the grid.
pub fn assemble(width: usize, height: usize, n: usize, parts: &Vec<Vec<Vec<ColorType>>>) -> (buffer:
    PixelBuffer)
    requires
        0 < n,
        n * n <= usize::MAX,
        parts@.len() == n * n,
        forall|k: int|
            0 <= k < n * n ==> covers(
                (#[trigger] parts@[k])@,
                grid(width as int, height as int, n as int)[k],
            ),
    ensures
        assembles(width, height, n, parts@, buffer),
{
    let tiles = partition(width, height, n);
    let mut buffer = PixelBuffer::new(width, height);
    let mut k: usize = 0;
    while k < tiles.len()
        invariant
            0 < n,
            tiles@ == grid(width as int, height as int, n as int),
            parts@.len() == n * n,
            k <= tiles@.len(),
            buffer.wf(),
            buffer.width == width,
            buffer.height == height,
            forall|k: int|
                0 <= k < n * n ==> covers(
                    (#[trigger] parts@[k])@,
                    grid(width as int, height as int, n as int)[k],
                ),
            forall|m: int, x: int, y: int|
                0 <= m < k && #[trigger] tiles@[m].contains(x, y) ==> buffer@[y][x]
                    == parts@[m]@[y - tiles@[m].y0]@[x - tiles@[m].x0],
        decreases tiles.len() - k,
    {
        let tile = tiles[k];
        let ghost before = buffer@;
        proof {
            tile_is_in_image(width as int, height as int, n as int, k as int);
        }
        buffer.paste(tile, &parts[k]);
        proof {
            assert forall|m: int, x: int, y: int|
                0 <= m < k + 1 && #[trigger] tiles@[m].contains(x, y) implies buffer@[y][x]
                == parts@[m]@[y - tiles@[m].y0]@[x - tiles@[m].x0] by {
                if m < k {
                    tile_is_in_image(width as int, height as int, n as int, m);
                    tiles_partition_image(width as int, height as int, n as int, x, y);
                    assert(!tile.contains(x, y));
                    assert(buffer@[y][x] == before[y][x]);
                }
            }
        }
        k += 1;
    }
    buffer
}

/// Parts that were traced tile by tile and then put together are a
/// rendering, in whatever order and by however many workers they were
/// traced.
pub proof fn assembled_tiles_render<F: Fn(usize, usize) -> Option<Intersection>>(
    trace: F,
    width: usize,
    height: usize,
    n: usize,
    parts: Seq<Vec<Vec<ColorType>>>,
    buffer: PixelBuffer,
)
    requires
        0 < n,
        parts.len() == n * n,
        forall|k: int|
            0 <= k < n * n ==> traces_tile(
                trace,
                grid(width as int, height as int, n as int)[k],
                (#[trigger] parts[k])@,
            ),
        assembles(width, height, n, parts, buffer),
    ensures
        renders(trace, buffer),
{
    assert forall|x: int, y: int| 0 <= x < buffer.width && 0 <= y < buffer.height implies #[trigger] painted(
        trace,
        buffer@,
        x,
        y,
    ) by {
        let k = tiles_partition_image(width as int, height as int, n as int, x, y);
        let tile = grid(width as int, height as int, n as int)[k];
        assert(traces_tile(trace, tile, parts[k]@));
        assert(paints(trace, x as usize, y as usize, parts[k]@[y - tile.y0]@[x - tile.x0]));
    }
}

/// Two renderings of the same size by the same deterministic trace are the
/// same image: rendering twice changes nothing, and neither does rendering
/// with another number of tiles.
pub proof fn renderings_agree<F: Fn(usize, usize) -> Option<Intersection>>(
    trace: F,
    a: PixelBuffer,
    b: PixelBuffer,
)
    requires
        renders(trace, a),
        renders(trace, b),
        a.width == b.width,
        a.height == b.height,
        deterministic(trace, a.width, a.height),
    ensures
        a@ == b@,
{
    assert forall|y: int| 0 <= y < a.height implies a@[y] == b@[y] by {
        assert forall|x: int| 0 <= x < a.width implies a@[y][x] == b@[y][x] by {
            assert(painted(trace, a@, x, y));
            assert(painted(trace, b@, x, y));
        }
    }
}

} // verus!
