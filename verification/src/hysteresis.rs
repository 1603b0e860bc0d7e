use vstd::prelude::*;

use crate::grid::Grid;
use crate::grayscale::byte_fn;

verus! {

/// Whether any of the eight neighbors of (i, j) holds the value 255 in the
/// pointwise map `v`.
pub open spec fn weak_supported(v: spec_fn(int, int) -> int, i: int, j: int) -> bool {
    ||| v(i - 1, j - 1) == 255
    ||| v(i - 1, j) == 255
    ||| v(i - 1, j + 1) == 255
    ||| v(i, j - 1) == 255
    ||| v(i, j + 1) == 255
    ||| v(i + 1, j - 1) == 255
    ||| v(i + 1, j) == 255
    ||| v(i + 1, j + 1) == 255
}

/// A cell is classified an edge iff its own value reaches `high`, or reaches
/// `low` while some 8-neighbor holds exactly 255 in the same input map.  The
/// support check reads the suppressed input, not the edge grid being built:
/// classification is single-pass, with no iterative propagation, so a weak
/// cell is kept only beside an input value that happens to be exactly 255.
pub open spec fn edge_on(v: spec_fn(int, int) -> int, low: int, high: int, i: int, j: int) -> bool {
    v(i, j) >= high || (v(i, j) >= low && weak_supported(v, i, j))
}

/// Raising `high` never adds a strong edge, lowering `low` never removes a
/// cell from the weak-but-supported set, and hence the whole classification
/// can only shrink when either threshold rises.
pub proof fn lemma_threshold_monotonic(
    v: spec_fn(int, int) -> int,
    low1: int,
    low2: int,
    high1: int,
    high2: int,
    i: int,
    j: int,
)
    requires
        low1 <= low2,
        high1 <= high2,
    ensures
        v(i, j) >= high2 ==> v(i, j) >= high1,
        (v(i, j) >= low2 && weak_supported(v, i, j)) ==> (v(i, j) >= low1 && weak_supported(
            v,
            i,
            j,
        )),
        edge_on(v, low2, high2, i, j) ==> edge_on(v, low1, high1, i, j),
{
}

/// With both thresholds at 255 the weak branch never differs from the strong
/// one, and a byte-valued cell is an edge exactly when it holds 255.
pub proof fn lemma_degenerate_thresholds(v: spec_fn(int, int) -> int, i: int, j: int)
    requires
        forall|a: int, b: int| 0 <= #[trigger] v(a, b) <= 255,
    ensures
        edge_on(v, 255, 255, i, j) <==> v(i, j) == 255,
{
}

/// Classifies the suppressed grid into edge (255) and non-edge (0) cells
/// with the dual thresholds.  Only interior cells can become edges; the
/// border is always 0, and every output value is exactly 0 or exactly 255.
pub fn hysteresis_thresholding(image: &Grid<u8>, low_threshold: u8, high_threshold: u8) -> (edges:
    Grid<u8>)
    requires
        image.wf(),
        image.width >= 1,
        image.height >= 1,
    ensures
        edges.wf(),
        edges.width == image.width,
        edges.height == image.height,
        forall|i: int, j: int|
            image.interior(i, j) ==> edges.at(i, j) == (if edge_on(
                byte_fn(*image),
                low_threshold as int,
                high_threshold as int,
                i,
                j,
            ) {
                255u8
            } else {
                0u8
            }),
        forall|i: int, j: int| image.on_border(i, j) ==> edges.at(i, j) == 0,
        forall|i: int, j: int|
            edges.in_bounds(i, j) ==> edges.at(i, j) == 0 || edges.at(i, j) == 255,
{
    let width: usize = image.width;
    let height: usize = image.height;
    let mut edges: Grid<u8> = Grid::new(width, height, 0u8);
    let mut i: usize = 1;
    while i < height - 1
        invariant
            image.wf(),
            image.width == width,
            image.height == height,
            width >= 1,
            height >= 1,
            edges.wf(),
            edges.width == width,
            edges.height == height,
            1 <= i <= height,
            forall|r: int, c: int|
                image.interior(r, c) && r < i ==> edges.at(r, c) == (if edge_on(
                    byte_fn(*image),
                    low_threshold as int,
                    high_threshold as int,
                    r,
                    c,
                ) {
                    255u8
                } else {
                    0u8
                }),
            forall|r: int, c: int|
                image.in_bounds(r, c) && !(image.interior(r, c) && r < i) ==> edges.at(r, c) == 0,
        decreases height - i,
    {
        let mut j: usize = 1;
        while j < width - 1
            invariant
                image.wf(),
                image.width == width,
                image.height == height,
                width >= 1,
                height >= 1,
                edges.wf(),
                edges.width == width,
                edges.height == height,
                1 <= i < height - 1,
                1 <= j <= width,
                forall|r: int, c: int|
                    image.interior(r, c) && r < i ==> edges.at(r, c) == (if edge_on(
                        byte_fn(*image),
                        low_threshold as int,
                        high_threshold as int,
                        r,
                        c,
                    ) {
                        255u8
                    } else {
                        0u8
                    }),
                forall|c: int|
                    1 <= c < j && image.interior(i as int, c) ==> edges.at(i as int, c) == (
                    if edge_on(
                        byte_fn(*image),
                        low_threshold as int,
                        high_threshold as int,
                        i as int,
                        c,
                    ) {
                        255u8
                    } else {
                        0u8
                    }),
                forall|r: int, c: int|
                    image.in_bounds(r, c) && !(image.interior(r, c) && (r < i || (r == i && c < j)))
                        ==> edges.at(r, c) == 0,
            decreases width - j,
        {
            let v: u8 = image.get(i, j);
            let out: u8 = if v >= high_threshold {
                255
            } else if v >= low_threshold {
                if image.get(i - 1, j - 1) == 255 || image.get(i - 1, j) == 255 || image.get(
                    i - 1,
                    j + 1,
                ) == 255 || image.get(i, j - 1) == 255 || image.get(i, j + 1) == 255 || image.get(
                    i + 1,
                    j - 1,
                ) == 255 || image.get(i + 1, j) == 255 || image.get(i + 1, j + 1) == 255 {
                    255
                } else {
                    0
                }
            } else {
                0
            };
            edges.set(i, j, out);
            j = j + 1;
        }
        i = i + 1;
    }
    edges
}

} // verus!
