//! Flipping a whole image under a direction mode.
use vstd::prelude::*;
use crate::grid::{Image, Rgba, cell_index, lemma_cell_index_in_grid, lemma_cell_index_before_row};
use crate::mapping::{map_coordinates_four_dir, map_coordinates_one_dir, map_quadrant4, map_single};

verus! {

/// How a sprite image is laid out.
#[derive(Clone, Copy, Debug, PartialEq, Eq, Structural)]
pub enum DirectionMode {
    /// One picture, mirrored as a whole.
    Single,
    /// Four directional quadrants: north, south, east and west.
    Quadrant4,
}

/// Why an image cannot be flipped.
#[derive(Clone, Copy, Debug, PartialEq, Eq, Structural)]
pub enum FlipError {
    /// The image is not square, or its side is odd under four directions.
    ShapeError,
    /// The number of directions is neither one nor four.
    InvalidModeError,
}

/// The direction mode for a number of directions, if it names one.
pub open spec fn mode_of_count(directions: u32) -> Option<DirectionMode> {
    if directions == 1 {
        Some(DirectionMode::Single)
    } else if directions == 4 {
        Some(DirectionMode::Quadrant4)
    } else {
        None
    }
}

/// Source coordinate sampled for output `(x, y)` under `mode`.
pub open spec fn map_for_mode(mode: DirectionMode, width: int, height: int, x: int, y: int) -> (int, int) {
    match mode {
        DirectionMode::Single => map_single(width, height, x, y),
        DirectionMode::Quadrant4 => map_quadrant4(width, height, x, y),
    }
}

/// Whether an image of this size can be flipped under `mode`.
pub open spec fn shape_fits(mode: DirectionMode, width: int, height: int) -> bool {
    &&& width == height
    &&& (mode == DirectionMode::Quadrant4 ==> width % 2 == 0)
}

impl DirectionMode {
    /// The mode for a number of directions: one or four.
    pub fn from_count(directions: u32) -> (r: Result<DirectionMode, FlipError>)
        ensures
            match mode_of_count(directions) {
                Some(m) => r == Ok::<DirectionMode, FlipError>(m),
                None => r == Err::<DirectionMode, FlipError>(FlipError::InvalidModeError),
            },
    {
        if directions == 1 {
            Ok(DirectionMode::Single)
        } else if directions == 4 {
            Ok(DirectionMode::Quadrant4)
        } else {
            Err(FlipError::InvalidModeError)
        }
    }

    /// Source pixel for output pixel `(x, y)` under this mode.
    pub fn map_coordinates(&self, width: u32, height: u32, x: u32, y: u32) -> (r: (u32, u32))
        requires
            x < width,
            y < height,
        ensures
            (r.0 as int, r.1 as int) == map_for_mode(*self, width as int, height as int, x as int, y as int),
            r.0 < width,
            r.1 == y,
    {
        match self {
            DirectionMode::Single => map_coordinates_one_dir(width, height, x, y),
            DirectionMode::Quadrant4 => map_coordinates_four_dir(width, height, x, y),
        }
    }
}

/// The flipped image: same size as `image`, each pixel `(x, y)` taken from the
/// source coordinate that `mode` maps it to. Fails with `ShapeError`, before any
/// pixel is read, when the image is not square or, under four directions, when
/// its side is odd.
pub fn transform_image(image: &Image, mode: DirectionMode) -> (r: Result<Image, FlipError>)
    ensures
        !shape_fits(mode, image.spec_width() as int, image.spec_height() as int)
            <==> r == Err::<Image, FlipError>(FlipError::ShapeError),
        r is Ok <==> shape_fits(mode, image.spec_width() as int, image.spec_height() as int),
        r matches Ok(out) ==> {
            &&& out.spec_width() == image.spec_width()
            &&& out.spec_height() == image.spec_height()
            &&& forall|x: int, y: int|
                0 <= x < out.spec_width() && 0 <= y < out.spec_height() ==> {
                    let (sx, sy) = map_for_mode(mode, out.spec_width() as int, out.spec_height() as int, x, y);
                    #[trigger] out.spec_pixel(x, y) == image.spec_pixel(sx, sy)
                }
        },
{
    let width = image.width();
    let height = image.height();
    if width != height {
        return Err(FlipError::ShapeError);
    }
    if mode == DirectionMode::Quadrant4 && width % 2 != 0 {
        return Err(FlipError::ShapeError);
    }
    let ghost w = width as int;
    let ghost h = height as int;
    let mut pixels: Vec<Rgba> = Vec::new();
    let mut y: u32 = 0;
    while y < height
        invariant
            w == image.spec_width(),
            h == image.spec_height(),
            width as int == w,
            height as int == h,
            0 <= y <= height,
            pixels@.len() == y as int * w,
            forall|px: int, py: int|
                0 <= px < w && 0 <= py < y ==> {
                    let (sx, sy) = map_for_mode(mode, w, h, px, py);
                    #[trigger] pixels@[cell_index(w, px, py)] == image.spec_pixel(sx, sy)
                },
        decreases height - y,
    {
        let mut x: u32 = 0;
        while x < width
            invariant
                w == image.spec_width(),
                h == image.spec_height(),
                width as int == w,
                height as int == h,
                0 <= y < height,
                0 <= x <= width,
                pixels@.len() == y as int * w + x,
                forall|px: int, py: int|
                    0 <= px < w && 0 <= py < y ==> {
                        let (sx, sy) = map_for_mode(mode, w, h, px, py);
                        #[trigger] pixels@[cell_index(w, px, py)] == image.spec_pixel(sx, sy)
                    },
                forall|px: int|
                    0 <= px < x ==> {
                        let (sx, sy) = map_for_mode(mode, w, h, px, y as int);
                        #[trigger] pixels@[cell_index(w, px, y as int)] == image.spec_pixel(sx, sy)
                    },
            decreases width - x,
        {
            let (sx, sy) = mode.map_coordinates(width, height, x, y);
            let p = image.pixel(sx, sy);
            let ghost before = pixels@;
            pixels.push(p);
            proof {
                assert forall|px: int, py: int|
                    0 <= px < w && 0 <= py < y implies {
                        let (qx, qy) = map_for_mode(mode, w, h, px, py);
                        #[trigger] pixels@[cell_index(w, px, py)] == image.spec_pixel(qx, qy)
                    } by {
                    lemma_cell_index_before_row(w, px, py, y as int);
                    assert(pixels@[cell_index(w, px, py)] == before[cell_index(w, px, py)]);
                }
                assert(cell_index(w, x as int, y as int) == y as int * w + x);
                assert forall|px: int|
                    0 <= px < x + 1 implies {
                        let (qx, qy) = map_for_mode(mode, w, h, px, y as int);
                        #[trigger] pixels@[cell_index(w, px, y as int)] == image.spec_pixel(qx, qy)
                    } by {
                    if px < x {
                        assert(pixels@[cell_index(w, px, y as int)] == before[cell_index(w, px, y as int)]);
                    }
                }
            }
            x = x + 1;
        }
        proof {
            assert((y as int + 1) * w == y as int * w + w) by (nonlinear_arith);
        }
        y = y + 1;
    }
    proof {
        assert(pixels@.len() == w * h);
    }
    // `pixels` holds one entry per cell, so the second arm is never taken.
    match Image::from_pixels(width, height, pixels) {
        Some(img) => Ok(img),
        None => Err(FlipError::ShapeError),
    }
}

} // verus!
