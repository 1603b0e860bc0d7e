use vstd::prelude::*;

use crate::grayscale::Rgba;
use crate::grayscale::byte_fn;
use crate::grayscale::gray_value;
use crate::grayscale::rgb_to_grayscale;
use crate::grid::Grid;
use crate::hysteresis::edge_on;
use crate::hysteresis::hysteresis_thresholding;
use crate::hysteresis::lemma_threshold_monotonic;
use crate::magnitude::Orientation;
use crate::magnitude::gradient_magnitude_direction;
use crate::magnitude::mag2_of;
use crate::magnitude::orientation_of;
use crate::sobel::kernel_gx;
use crate::sobel::kernel_gy;
use crate::sobel::sobel_operator;
use crate::suppress::mag_fn;
use crate::suppress::non_maximum_suppression;
use crate::suppress::suppressed_value;

verus! {

/// The intensity map of a color grid.
pub open spec fn gray_fn(img: Grid<Rgba>) -> spec_fn(int, int) -> int {
    |i: int, j: int| gray_value(img.at(i, j))
}

/// The horizontal derivative map: the Sobel response at interior cells, 0 on
/// the border.
pub open spec fn grad_x_fn(img: Grid<Rgba>) -> spec_fn(int, int) -> int {
    |i: int, j: int|
        if img.interior(i, j) {
            kernel_gx(gray_fn(img), i, j)
        } else {
            0
        }
}

/// The vertical derivative map: the Sobel response at interior cells, 0 on
/// the border.
pub open spec fn grad_y_fn(img: Grid<Rgba>) -> spec_fn(int, int) -> int {
    |i: int, j: int|
        if img.interior(i, j) {
            kernel_gy(gray_fn(img), i, j)
        } else {
            0
        }
}

/// The squared-magnitude map of the gradient.
pub open spec fn mag2_fn(img: Grid<Rgba>) -> spec_fn(int, int) -> int {
    |i: int, j: int| mag2_of(grad_x_fn(img)(i, j), grad_y_fn(img)(i, j))
}

/// The orientation-bin map of the gradient direction.
pub open spec fn orientation_fn(img: Grid<Rgba>) -> spec_fn(int, int) -> Orientation {
    |i: int, j: int| orientation_of(grad_x_fn(img)(i, j), grad_y_fn(img)(i, j))
}

/// The suppressed-magnitude map: the thinned, byte-truncated magnitude at
/// interior cells, 0 on the border.
pub open spec fn suppressed_fn(img: Grid<Rgba>) -> spec_fn(int, int) -> int {
    |i: int, j: int|
        if img.interior(i, j) {
            suppressed_value(mag2_fn(img), orientation_fn(img)(i, j), i, j)
        } else {
            0
        }
}

/// Whether cell (i, j) comes out of the whole pipeline as an edge: only an
/// interior cell can, by dual-threshold classification of the suppressed map.
pub open spec fn edge_spec(img: Grid<Rgba>, low: int, high: int, i: int, j: int) -> bool {
    img.interior(i, j) && edge_on(suppressed_fn(img), low, high, i, j)
}

/// Every border cell carries 0 through every stage: the derivative maps, the
/// squared magnitude and the suppressed magnitude all vanish there, and no
/// border cell is ever classified an edge.
pub proof fn lemma_border_zero(img: Grid<Rgba>, low: int, high: int, i: int, j: int)
    requires
        img.on_border(i, j),
    ensures
        grad_x_fn(img)(i, j) == 0,
        grad_y_fn(img)(i, j) == 0,
        mag2_fn(img)(i, j) == 0,
        suppressed_fn(img)(i, j) == 0,
        !edge_spec(img, low, high, i, j),
{
}

/// On one and the same image, raising either threshold can only remove
/// edges from the final classification, never add them.
pub proof fn lemma_edge_spec_monotonic(
    img: Grid<Rgba>,
    low1: int,
    low2: int,
    high1: int,
    high2: int,
    i: int,
    j: int,
)
    requires
        low1 <= low2,
        high1 <= high2,
    ensures
        edge_spec(img, low2, high2, i, j) ==> edge_spec(img, low1, high1, i, j),
{
    lemma_threshold_monotonic(suppressed_fn(img), low1, low2, high1, high2, i, j);
}

/// Runs the five-stage pipeline: grayscale reduction, Sobel gradients,
/// polar combination, non-maximum suppression, hysteresis thresholding.
/// The result has the dimensions of the input and holds 255 exactly at the
/// cells that `edge_spec` classifies as edges, 0 everywhere else - so it is
/// binary, and its border is all 0.
pub fn canny(image: &Grid<Rgba>, low_threshold: u8, high_threshold: u8) -> (edges: Grid<u8>)
    requires
        image.wf(),
        image.width >= 1,
        image.height >= 1,
    ensures
        edges.wf(),
        edges.width == image.width,
        edges.height == image.height,
        forall|i: int, j: int|
            edges.in_bounds(i, j) ==> edges.at(i, j) == (if edge_spec(
                *image,
                low_threshold as int,
                high_threshold as int,
                i,
                j,
            ) {
                255u8
            } else {
                0u8
            }),
{
    let gray = rgb_to_grayscale(image);
    let (grad_x, grad_y) = sobel_operator(&gray);
    let (mag2, dir) = gradient_magnitude_direction(&grad_x, &grad_y);
    let sup = non_maximum_suppression(&mag2, &dir);
    let edges = hysteresis_thresholding(&sup, low_threshold, high_threshold);
    proof {
        let img = *image;
        let low = low_threshold as int;
        let high = high_threshold as int;
        assert forall|a: int, b: int| grad_x.in_bounds(a, b) implies grad_x.at(a, b) as int
            == grad_x_fn(img)(a, b) && grad_y.at(a, b) as int == grad_y_fn(img)(a, b) by {
            if img.interior(a, b) {
                assert(gray.interior(a, b));
                assert(gray.at(a - 1, b - 1) == gray_value(img.at(a - 1, b - 1)));
                assert(gray.at(a - 1, b) == gray_value(img.at(a - 1, b)));
                assert(gray.at(a - 1, b + 1) == gray_value(img.at(a - 1, b + 1)));
                assert(gray.at(a, b - 1) == gray_value(img.at(a, b - 1)));
                assert(gray.at(a, b + 1) == gray_value(img.at(a, b + 1)));
                assert(gray.at(a + 1, b - 1) == gray_value(img.at(a + 1, b - 1)));
                assert(gray.at(a + 1, b) == gray_value(img.at(a + 1, b)));
                assert(gray.at(a + 1, b + 1) == gray_value(img.at(a + 1, b + 1)));
                assert(grad_x.at(a, b) == kernel_gx(byte_fn(gray), a, b));
                assert(grad_y.at(a, b) == kernel_gy(byte_fn(gray), a, b));
            } else {
                assert(gray.on_border(a, b));
            }
        }
        assert forall|a: int, b: int| mag2.in_bounds(a, b) implies mag2.at(a, b) as int == mag2_fn(
            img,
        )(a, b) && dir.at(a, b) == orientation_fn(img)(a, b) by {
            assert(grad_x.in_bounds(a, b));
            assert(grad_x.at(a, b) as int == grad_x_fn(img)(a, b));
            assert(grad_y.at(a, b) as int == grad_y_fn(img)(a, b));
            assert(mag2.at(a, b) == mag2_of(grad_x.at(a, b) as int, grad_y.at(a, b) as int));
            assert(dir.at(a, b) == orientation_of(grad_x.at(a, b) as int, grad_y.at(a, b) as int));
        }
        assert forall|a: int, b: int| sup.in_bounds(a, b) implies sup.at(a, b) as int
            == suppressed_fn(img)(a, b) by {
            if img.interior(a, b) {
                assert(mag2.at(a - 1, b - 1) as int == mag2_fn(img)(a - 1, b - 1));
                assert(mag2.at(a - 1, b) as int == mag2_fn(img)(a - 1, b));
                assert(mag2.at(a - 1, b + 1) as int == mag2_fn(img)(a - 1, b + 1));
                assert(mag2.at(a, b - 1) as int == mag2_fn(img)(a, b - 1));
                assert(mag2.at(a, b) as int == mag2_fn(img)(a, b));
                assert(mag2.at(a, b + 1) as int == mag2_fn(img)(a, b + 1));
                assert(mag2.at(a + 1, b - 1) as int == mag2_fn(img)(a + 1, b - 1));
                assert(mag2.at(a + 1, b) as int == mag2_fn(img)(a + 1, b));
                assert(mag2.at(a + 1, b + 1) as int == mag2_fn(img)(a + 1, b + 1));
                assert(dir.at(a, b) == orientation_fn(img)(a, b));
                assert(sup.at(a, b) == suppressed_value(mag_fn(mag2), dir.at(a, b), a, b));
            }
        }
        assert forall|a: int, b: int| edges.in_bounds(a, b) implies edges.at(a, b) == (
        if edge_spec(img, low, high, a, b) {
            255u8
        } else {
            0u8
        }) by {
            if img.interior(a, b) {
                assert(sup.at(a - 1, b - 1) as int == suppressed_fn(img)(a - 1, b - 1));
                assert(sup.at(a - 1, b) as int == suppressed_fn(img)(a - 1, b));
                assert(sup.at(a - 1, b + 1) as int == suppressed_fn(img)(a - 1, b + 1));
                assert(sup.at(a, b - 1) as int == suppressed_fn(img)(a, b - 1));
                assert(sup.at(a, b) as int == suppressed_fn(img)(a, b));
                assert(sup.at(a, b + 1) as int == suppressed_fn(img)(a, b + 1));
                assert(sup.at(a + 1, b - 1) as int == suppressed_fn(img)(a + 1, b - 1));
                assert(sup.at(a + 1, b) as int == suppressed_fn(img)(a + 1, b));
                assert(sup.at(a + 1, b + 1) as int == suppressed_fn(img)(a + 1, b + 1));
                assert(edges.at(a, b) == (if edge_on(byte_fn(sup), low, high, a, b) {
                    255u8
                } else {
                    0u8
                }));
            }
        }
    }
    edges
}

} // verus!
