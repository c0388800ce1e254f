//! Coordinate mappers: for an output pixel, the source pixel to sample.
use vstd::prelude::*;

verus! {

/// Mirror of a whole image across its vertical centre line.
pub open spec fn map_single(width: int, height: int, x: int, y: int) -> (int, int) {
    (width - x - 1, y)
}

/// Mirror of a four-direction sheet. The sheet is cut at `(width / 2, height / 2)`:
/// the two top quadrants (north, south) are mirrored each within its own half,
/// the two bottom ones (east, west) across the full width, which swaps them.
pub open spec fn map_quadrant4(width: int, height: int, x: int, y: int) -> (int, int) {
    let hw = width / 2;
    let hh = height / 2;
    let nx = if x < hw && y < hh {
        hw - (x + 1)
    } else if x >= hw && y < hh {
        width - ((x - hw) + 1)
    } else {
        width - (x + 1)
    };
    (nx, y)
}

/// Source pixel for output pixel `(x, y)` when the whole image is mirrored.
pub fn map_coordinates_one_dir(width: u32, _h: u32, x: u32, y: u32) -> (r: (u32, u32))
    requires
        x < width,
    ensures
        (r.0 as int, r.1 as int) == map_single(width as int, _h as int, x as int, y as int),
        r.0 < width,
        r.1 == y,
{
    (width - x - 1, y)
}

/// Source pixel for output pixel `(x, y)` of a four-direction sheet.
pub fn map_coordinates_four_dir(width: u32, height: u32, x: u32, y: u32) -> (r: (u32, u32))
    requires
        x < width,
        y < height,
    ensures
        (r.0 as int, r.1 as int) == map_quadrant4(width as int, height as int, x as int, y as int),
        r.0 < width,
        r.1 == y,
{
    let hw = width / 2;
    let hh = height / 2;
    let nx = if x < hw && y < hh {
        // north
        hw - (x + 1)
    } else if x >= hw && y < hh {
        // south
        width - ((x - hw) + 1)
    } else if x < hw && y >= hh {
        // east
        width - (x + 1)
    } else {
        // west
        width - (x + 1)
    };
    (nx, y)
}

/// The whole-image mirror is its own inverse: sampling the sample gives back
/// the original coordinate, for any width and any coordinate in range.
pub proof fn lemma_map_single_involutive(width: int, height: int, x: int, y: int)
    requires
        0 <= x < width,
        0 <= y < height,
    ensures
        map_single(width, height, map_single(width, height, x, y).0, y).0 == x,
        ({
            let (sx, sy) = map_single(width, height, x, y);
            map_single(width, height, sx, sy) == (x, y)
        }),
{
}

/// The whole-image mirror never sends two coordinates to the same source.
pub proof fn lemma_map_single_injective(width: int, height: int, x1: int, y1: int, x2: int, y2: int)
    requires
        0 <= x1 < width,
        0 <= y1 < height,
        0 <= x2 < width,
        0 <= y2 < height,
        map_single(width, height, x1, y1) == map_single(width, height, x2, y2),
    ensures
        x1 == x2 && y1 == y2,
{
}

/// On a square sheet of even side `n`, every coordinate in range is sent to a
/// coordinate in range on the same row.
pub proof fn lemma_map_quadrant4_in_bounds(n: int, x: int, y: int)
    requires
        n % 2 == 0,
        0 <= x < n,
        0 <= y < n,
    ensures
        0 <= map_quadrant4(n, n, x, y).0 < n,
        map_quadrant4(n, n, x, y).1 == y,
{
}

/// On a sheet of even width the four-direction mirror is its own inverse, so
/// each source pixel is sampled exactly once.
pub proof fn lemma_map_quadrant4_involutive(width: int, height: int, x: int, y: int)
    requires
        width % 2 == 0,
        0 <= x < width,
        0 <= y < height,
    ensures
        ({
            let (sx, sy) = map_quadrant4(width, height, x, y);
            map_quadrant4(width, height, sx, sy) == (x, y)
        }),
{
}

} // verus!
