//! The image split into a square grid of rectangular tiles.

use vstd::prelude::*;

verus! {

/// The pixels `(x, y)` with `x0 <= x < x1` and `y0 <= y < y1`.
#[derive(Clone, Copy, Debug, PartialEq, Eq, Structural)]
pub struct Tile {
    pub x0: usize,
    pub y0: usize,
    pub x1: usize,
    pub y1: usize,
}

impl Tile {
    /// Whether the pixel `(x, y)` belongs to the tile.
    pub open spec fn contains(self, x: int, y: int) -> bool {
        self.x0 <= x < self.x1 && self.y0 <= y < self.y1
    }
}

/// Where part `i` begins when a length is cut into `n` parts as equal as
/// whole numbers allow: every part has `len / n`, and the first `len % n`
/// parts one more.
pub open spec fn edge(len: int, n: int, i: int) -> int {
    i * (len / n) + if i < len % n {
        i
    } else {
        len % n
    }
}

/// The parts begin at zero, end at the length, and follow each other.
pub proof fn edges_ascend(len: int, n: int, i: int, j: int)
    requires
        0 <= len,
        0 < n,
        0 <= i <= j <= n,
    ensures
        edge(len, n, 0) == 0,
        edge(len, n, n) == len,
        0 <= edge(len, n, i) <= edge(len, n, j) <= len,
{
    let q = len / n;
    let r = len % n;
    assert(0 <= q && 0 <= r < n && len == n * q + r) by (nonlinear_arith)
        requires
            q == len / n,
            r == len % n,
            0 <= len,
            0 < n,
    ;
    assert(0 <= i * q <= j * q <= n * q) by (nonlinear_arith)
        requires
            0 <= i <= j <= n,
            0 <= q,
    ;
}

/// The part that holds position `x`, searched from part `k` on.
proof fn part_from(len: int, n: int, x: int, k: int) -> (i: int)
    requires
        0 < n,
        0 <= k < n,
        0 <= x,
        edge(len, n, k) <= x < len,
    ensures
        k <= i < n,
        edge(len, n, i) <= x < edge(len, n, i + 1),
    decreases n - k,
{
    if x < edge(len, n, k + 1) {
        k
    } else {
        edges_ascend(len, n, k + 1, n);
        part_from(len, n, x, k + 1)
    }
}

/// Every position of the length lies in exactly one part.
pub proof fn parts_partition(len: int, n: int, x: int) -> (i: int)
    requires
        0 < n,
        0 <= x < len,
    ensures
        0 <= i < n,
        edge(len, n, i) <= x < edge(len, n, i + 1),
        forall|j: int|
            0 <= j < n && edge(len, n, j) <= x < #[trigger] edge(len, n, j + 1) ==> j == i,
{
    edges_ascend(len, n, 0, n);
    let i = part_from(len, n, x, 0);
    assert forall|j: int|
        0 <= j < n && edge(len, n, j) <= x < #[trigger] edge(len, n, j + 1) implies j == i by {
        if j < i {
            edges_ascend(len, n, j + 1, i);
        } else if i < j {
            edges_ascend(len, n, i + 1, j);
        }
    }
    i
}

/// The tile in column `i` and row `j` of the `n` by `n` grid over an image.
pub open spec fn tile_at(width: int, height: int, n: int, i: int, j: int) -> Tile {
    Tile {
        x0: edge(width, n, i) as usize,
        y0: edge(height, n, j) as usize,
        x1: edge(width, n, i + 1) as usize,
        y1: edge(height, n, j + 1) as usize,
    }
}

/// The `n * n` tiles of an image, row by row.
pub open spec fn grid(width: int, height: int, n: int) -> Seq<Tile> {
    Seq::new((n * n) as nat, |k: int| tile_at(width, height, n, k % n, k / n))
}

/// Where part `i` of `n` begins.
pub fn tile_edge(len: usize, n: usize, i: usize) -> (e: usize)
    requires
        0 < n,
        i <= n,
    ensures
        e == edge(len as int, n as int, i as int),
        e <= len,
{
    let q: usize = len / n;
    let r: usize = len % n;
    proof {
        edges_ascend(len as int, n as int, i as int, n as int);
        assert(0 <= i * q <= n * q <= len) by (nonlinear_arith)
            requires
                0 <= i <= n,
                q == len / n,
                0 < n,
        ;
    }
    let extra: usize = if i < r {
        i
    } else {
        r
    };
    i * q + extra
}

/// Cuts the image into `n` columns and `n` rows of tiles. Tiles may be
/// empty, when there are fewer pixels than parts.
pub fn partition(width: usize, height: usize, n: usize) -> (tiles: Vec<Tile>)
    requires
        0 < n,
        n * n <= usize::MAX,
    ensures
        tiles@ == grid(width as int, height as int, n as int),
{
    let mut tiles: Vec<Tile> = Vec::new();
    let mut j: usize = 0;
    while j < n
        invariant
            0 < n,
            n * n <= usize::MAX,
            j <= n,
            tiles@.len() == j * n,
            forall|k: int|
                0 <= k < tiles@.len() ==> #[trigger] tiles@[k] == tile_at(
                    width as int,
                    height as int,
                    n as int,
                    k % (n as int),
                    k / (n as int),
                ),
        decreases n - j,
    {
        let y0 = tile_edge(height, n, j);
        let y1 = tile_edge(height, n, j + 1);
        let mut i: usize = 0;
        while i < n
            invariant
                0 < n,
                n * n <= usize::MAX,
                j < n,
                i <= n,
                y0 == edge(height as int, n as int, j as int),
                y1 == edge(height as int, n as int, j + 1),
                tiles@.len() == j * n + i,
                forall|k: int|
                    0 <= k < tiles@.len() ==> #[trigger] tiles@[k] == tile_at(
                        width as int,
                        height as int,
                        n as int,
                        k % (n as int),
                        k / (n as int),
                    ),
            decreases n - i,
        {
            let x0 = tile_edge(width, n, i);
            let x1 = tile_edge(width, n, i + 1);
            proof {
                let k = j * n + i;
                assert(k % (n as int) == i && k / (n as int) == j) by (nonlinear_arith)
                    requires
                        k == j * n + i,
                        0 <= i < n,
                        0 <= j,
                ;
            }
            tiles.push(Tile { x0, y0, x1, y1 });
            i += 1;
        }
        assert(j * n + n == (j + 1) * n) by (nonlinear_arith);
        j += 1;
    }
    tiles
}

/// Every tile lies within the image, and its sides are in order.
pub proof fn tile_is_in_image(width: int, height: int, n: int, k: int)
    requires
        0 < n,
        0 <= k < n * n,
        0 <= width <= usize::MAX,
        0 <= height <= usize::MAX,
    ensures
        0 <= grid(width, height, n)[k].x0 <= grid(width, height, n)[k].x1 <= width,
        0 <= grid(width, height, n)[k].y0 <= grid(width, height, n)[k].y1 <= height,
{
    let i = k % n;
    let j = k / n;
    assert(0 <= i < n && 0 <= j < n) by (nonlinear_arith)
        requires
            i == k % n,
            j == k / n,
            0 <= k < n * n,
            0 < n,
    ;
    edges_ascend(width, n, i, i + 1);
    edges_ascend(height, n, j, j + 1);
}

/// The tiles cover the image and do not overlap: every pixel lies in
/// exactly one of them.
pub proof fn tiles_partition_image(width: int, height: int, n: int, x: int, y: int) -> (k: int)
    requires
        0 < n,
        0 <= x < width <= usize::MAX,
        0 <= y < height <= usize::MAX,
    ensures
        0 <= k < n * n,
        grid(width, height, n)[k].contains(x, y),
        forall|m: int| 0 <= m < n * n && (#[trigger] grid(width, height, n)[m]).contains(x, y) ==> m == k,
{
    let i = parts_partition(width, n, x);
    let j = parts_partition(height, n, y);
    let k = j * n + i;
    assert(k % n == i && k / n == j && 0 <= k < n * n) by (nonlinear_arith)
        requires
            k == j * n + i,
            0 <= i < n,
            0 <= j < n,
    ;
    edges_ascend(width, n, i, i + 1);
    edges_ascend(height, n, j, j + 1);
    assert forall|m: int|
        0 <= m < n * n && (#[trigger] grid(width, height, n)[m]).contains(x, y) implies m == k by {
        let a = m % n;
        let b = m / n;
        assert(0 <= a < n && 0 <= b < n && m == b * n + a) by (nonlinear_arith)
            requires
                a == m % n,
                b == m / n,
                0 <= m < n * n,
                0 < n,
        ;
        edges_ascend(width, n, a, a + 1);
        edges_ascend(height, n, b, b + 1);
    }
    k
}

} // verus!
