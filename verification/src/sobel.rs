use vstd::prelude::*;

use crate::grid::Grid;
use crate::grayscale::byte_fn;

verus! {

/// The horizontal derivative estimate at cell (i, j) of the pointwise
/// intensity map `f`: the 3x3 neighborhood correlated with the kernel
/// `[-1 0 1; -2 0 2; -1 0 1]` (no spatial flip).
pub open spec fn kernel_gx(f: spec_fn(int, int) -> int, i: int, j: int) -> int {
    f(i - 1, j + 1) - f(i - 1, j - 1) + 2 * f(i, j + 1) - 2 * f(i, j - 1) + f(i + 1, j + 1) - f(
        i + 1,
        j - 1,
    )
}

/// The vertical derivative estimate at cell (i, j) of the pointwise intensity
/// map `f`: the 3x3 neighborhood correlated with the kernel
/// `[-1 -2 -1; 0 0 0; 1 2 1]` (no spatial flip).
pub open spec fn kernel_gy(f: spec_fn(int, int) -> int, i: int, j: int) -> int {
    f(i + 1, j - 1) - f(i - 1, j - 1) + 2 * f(i + 1, j) - 2 * f(i - 1, j) + f(i + 1, j + 1) - f(
        i - 1,
        j + 1,
    )
}

/// Estimates the intensity gradient of `image` with the two fixed Sobel
/// kernels.  Only interior cells are computed; the one-cell border of both
/// result grids stays 0, since no boundary-extension policy is defined.
/// Each response of a 3x3 byte neighborhood fits comfortably in an `i16`
/// (its magnitude is at most `4 * 255 = 1020`).
pub fn sobel_operator(image: &Grid<u8>) -> (r: (Grid<i16>, Grid<i16>))
    requires
        image.wf(),
        image.width >= 1,
        image.height >= 1,
    ensures
        r.0.wf(),
        r.1.wf(),
        r.0.width == image.width,
        r.0.height == image.height,
        r.1.width == image.width,
        r.1.height == image.height,
        forall|i: int, j: int|
            image.interior(i, j) ==> r.0.at(i, j) == kernel_gx(byte_fn(*image), i, j),
        forall|i: int, j: int|
            image.interior(i, j) ==> r.1.at(i, j) == kernel_gy(byte_fn(*image), i, j),
        forall|i: int, j: int|
            image.on_border(i, j) ==> r.0.at(i, j) == 0 && r.1.at(i, j) == 0,
{
    let width: usize = image.width;
    let height: usize = image.height;
    let mut grad_x: Grid<i16> = Grid::new(width, height, 0i16);
    let mut grad_y: Grid<i16> = Grid::new(width, height, 0i16);
    let mut i: usize = 1;
    while i < height - 1
        invariant
            image.wf(),
            image.width == width,
            image.height == height,
            height >= 1,
            width >= 1,
            grad_x.wf(),
            grad_x.width == width,
            grad_x.height == height,
            grad_y.wf(),
            grad_y.width == width,
            grad_y.height == height,
            1 <= i <= height,
            forall|r: int, c: int|
                image.interior(r, c) && r < i ==> grad_x.at(r, c) == kernel_gx(
                    byte_fn(*image),
                    r,
                    c,
                ),
            forall|r: int, c: int|
                image.interior(r, c) && r < i ==> grad_y.at(r, c) == kernel_gy(
                    byte_fn(*image),
                    r,
                    c,
                ),
            forall|r: int, c: int|
                image.on_border(r, c) ==> grad_x.at(r, c) == 0 && grad_y.at(r, c) == 0,
        decreases height - i,
    {
        let mut j: usize = 1;
        while j < width - 1
            invariant
                image.wf(),
                image.width == width,
                image.height == height,
                height >= 1,
                width >= 1,
                grad_x.wf(),
                grad_x.width == width,
                grad_x.height == height,
                grad_y.wf(),
                grad_y.width == width,
                grad_y.height == height,
                1 <= i < height - 1,
                1 <= j <= width,
                forall|r: int, c: int|
                    image.interior(r, c) && r < i ==> grad_x.at(r, c) == kernel_gx(
                        byte_fn(*image),
                        r,
                        c,
                    ),
                forall|r: int, c: int|
                    image.interior(r, c) && r < i ==> grad_y.at(r, c) == kernel_gy(
                        byte_fn(*image),
                        r,
                        c,
                    ),
                forall|c: int|
                    1 <= c < j && image.interior(i as int, c) ==> grad_x.at(i as int, c)
                        == kernel_gx(byte_fn(*image), i as int, c),
                forall|c: int|
                    1 <= c < j && image.interior(i as int, c) ==> grad_y.at(i as int, c)
                        == kernel_gy(byte_fn(*image), i as int, c),
                forall|r: int, c: int|
                    image.on_border(r, c) ==> grad_x.at(r, c) == 0 && grad_y.at(r, c) == 0,
            decreases width - j,
        {
            let p00: i32 = image.get(i - 1, j - 1) as i32;
            let p01: i32 = image.get(i - 1, j) as i32;
            let p02: i32 = image.get(i - 1, j + 1) as i32;
            let p10: i32 = image.get(i, j - 1) as i32;
            let p12: i32 = image.get(i, j + 1) as i32;
            let p20: i32 = image.get(i + 1, j - 1) as i32;
            let p21: i32 = image.get(i + 1, j) as i32;
            let p22: i32 = image.get(i + 1, j + 1) as i32;
            let gx: i32 = p02 - p00 + 2 * p12 - 2 * p10 + p22 - p20;
            let gy: i32 = p20 - p00 + 2 * p21 - 2 * p01 + p22 - p02;
            grad_x.set(i, j, gx as i16);
            grad_y.set(i, j, gy as i16);
            j = j + 1;
        }
        i = i + 1;
    }
    (grad_x, grad_y)
}

} // verus!
