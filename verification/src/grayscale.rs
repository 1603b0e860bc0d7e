use vstd::prelude::*;

use crate::grid::Grid;

verus! {

/// One color cell: red, green, blue and alpha channels, each 0-255.
#[derive(Clone, Copy, PartialEq, Eq, Structural, Debug)]
pub struct Rgba {
    pub r: u8,
    pub g: u8,
    pub b: u8,
    pub a: u8,
}

/// The intensity of a color cell: the truncating integer average of the three
/// color channels.  Alpha is ignored.
pub open spec fn gray_value(p: Rgba) -> int {
    (p.r + p.g + p.b) / 3
}

/// A `Grid<u8>` read as a pointwise integer map.
pub open spec fn byte_fn(g: Grid<u8>) -> spec_fn(int, int) -> int {
    |i: int, j: int| g.at(i, j) as int
}

/// The smaller of three integers.
pub open spec fn min3(a: int, b: int, c: int) -> int {
    if a <= b && a <= c {
        a
    } else if b <= c {
        b
    } else {
        c
    }
}

/// The larger of three integers.
pub open spec fn max3(a: int, b: int, c: int) -> int {
    if a >= b && a >= c {
        a
    } else if b >= c {
        b
    } else {
        c
    }
}

/// The truncating channel average lies between the smallest and the largest
/// of the three channels.
pub proof fn lemma_gray_value_bounds(p: Rgba)
    ensures
        min3(p.r as int, p.g as int, p.b as int) <= gray_value(p),
        gray_value(p) <= max3(p.r as int, p.g as int, p.b as int),
{
    let m = min3(p.r as int, p.g as int, p.b as int);
    let x = max3(p.r as int, p.g as int, p.b as int);
    assert(3 * m <= p.r + p.g + p.b <= 3 * x);
}

/// Collapses a color grid to single-channel intensity: every cell becomes the
/// truncating average `(r + g + b) / 3` of its color channels, summed at a
/// width wide enough that the sum of three bytes cannot overflow.
pub fn rgb_to_grayscale(image: &Grid<Rgba>) -> (gray: Grid<u8>)
    requires
        image.wf(),
        image.width >= 1,
        image.height >= 1,
    ensures
        gray.wf(),
        gray.width == image.width,
        gray.height == image.height,
        forall|i: int, j: int|
            gray.in_bounds(i, j) ==> gray.at(i, j) == gray_value(image.at(i, j)),
{
    let width: usize = image.width;
    let height: usize = image.height;
    let mut gray: Grid<u8> = Grid::new(width, height, 0u8);
    let mut i: usize = 0;
    while i < height
        invariant
            image.wf(),
            image.width == width,
            image.height == height,
            gray.wf(),
            gray.width == width,
            gray.height == height,
            i <= height,
            forall|r: int, c: int|
                0 <= r < i && 0 <= c < width ==> gray.at(r, c) == gray_value(image.at(r, c)),
        decreases height - i,
    {
        let mut j: usize = 0;
        while j < width
            invariant
                image.wf(),
                image.width == width,
                image.height == height,
                gray.wf(),
                gray.width == width,
                gray.height == height,
                i < height,
                j <= width,
                forall|r: int, c: int|
                    0 <= r < i && 0 <= c < width ==> gray.at(r, c) == gray_value(image.at(r, c)),
                forall|c: int|
                    0 <= c < j ==> gray.at(i as int, c) == gray_value(image.at(i as int, c)),
            decreases width - j,
        {
            let p: Rgba = image.get(i, j);
            let sum: u16 = p.r as u16 + p.g as u16 + p.b as u16;
            gray.set(i, j, (sum / 3) as u8);
            j = j + 1;
        }
        i = i + 1;
    }
    gray
}

} // verus!
