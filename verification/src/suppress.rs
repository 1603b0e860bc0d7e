use vstd::prelude::*;

use crate::grid::Grid;
use crate::magnitude::Orientation;

verus! {

/// Floor of the square root of `n`, defined by counting up from zero.
pub open spec fn isqrt(n: nat) -> nat
    decreases n,
{
    if n == 0 {
        0
    } else {
        let r = isqrt((n - 1) as nat);
        if (r + 1) * (r + 1) <= n {
            r + 1
        } else {
            r
        }
    }
}

/// `isqrt` is the floor of the square root: its square brackets `n`.
pub proof fn lemma_isqrt_bounds(n: nat)
    ensures
        isqrt(n) * isqrt(n) <= n,
        n < (isqrt(n) + 1) * (isqrt(n) + 1),
    decreases n,
{
    if n == 0 {
        assert(isqrt(n) == 0);
        assert(n < (isqrt(n) + 1) * (isqrt(n) + 1)) by (nonlinear_arith)
            requires
                n == 0,
                isqrt(n) == 0,
        ;
    } else {
        lemma_isqrt_bounds((n - 1) as nat);
        let r = isqrt((n - 1) as nat);
        if (r + 1) * (r + 1) <= n {
            assert(isqrt(n) == r + 1);
            assert(n < (isqrt(n) + 1) * (isqrt(n) + 1)) by (nonlinear_arith)
                requires
                    n <= (r + 1) * (r + 1),
                    isqrt(n) == r + 1,
                    0 <= r,
            ;
        } else {
            assert(isqrt(n) == r);
            assert(n < (isqrt(n) + 1) * (isqrt(n) + 1));
        }
    }
}

/// Any integer whose square brackets `n` is its floor square root.
pub proof fn lemma_isqrt_unique(n: nat, r: nat)
    requires
        r * r <= n,
        n < (r + 1) * (r + 1),
    ensures
        isqrt(n) == r,
{
    lemma_isqrt_bounds(n);
    let s = isqrt(n);
    if s < r {
        assert((s + 1) * (s + 1) <= r * r) by (nonlinear_arith)
            requires
                0 <= s,
                s + 1 <= r,
        ;
    }
    if s > r {
        assert((r + 1) * (r + 1) <= s * s) by (nonlinear_arith)
            requires
                0 <= r,
                r + 1 <= s,
        ;
    }
}

/// The magnitude `sqrt(m2)` truncated to an unsigned byte.  Magnitudes of
/// 255 or more all collapse to 255, as converting a float magnitude to a
/// byte saturates.
pub open spec fn mag_byte_spec(m2: int) -> int {
    if isqrt(m2 as nat) >= 255 {
        255
    } else {
        isqrt(m2 as nat) as int
    }
}

/// Computes `mag_byte_spec` exactly from the squared magnitude: the floor
/// square root by counting up, saturating at 255.
pub fn mag_byte(m2: u32) -> (r: u8)
    ensures
        r == mag_byte_spec(m2 as int),
{
    if m2 >= 65025 {
        proof {
            lemma_isqrt_bounds(m2 as nat);
            let s = isqrt(m2 as nat);
            if s < 255 {
                assert((s + 1) * (s + 1) <= 255 * 255) by (nonlinear_arith)
                    requires
                        0 <= s,
                        s + 1 <= 255,
                ;
            }
        }
        255
    } else {
        let mut r: u32 = 0;
        while (r + 1) * (r + 1) <= m2
            invariant
                m2 < 65025,
                r * r <= m2,
                r <= 254,
                (r + 1) * (r + 1) <= 65025,
            decreases 254 - r,
        {
            proof {
                assert(r + 1 <= 254) by (nonlinear_arith)
                    requires
                        (r + 1) * (r + 1) <= m2,
                        m2 < 65025,
                        0 <= r,
                ;
                assert((r + 2) * (r + 2) <= 65025) by (nonlinear_arith)
                    requires
                        0 <= r,
                        r + 1 <= 254,
                ;
            }
            r = r + 1;
        }
        proof {
            lemma_isqrt_unique(m2 as nat, r as nat);
        }
        r as u8
    }
}

/// The two neighbor offsets `(di1, dj1, di2, dj2)` compared along each
/// orientation's axis.
pub open spec fn nms_offsets(o: Orientation) -> (int, int, int, int) {
    match o {
        Orientation::Deg0 => (0, 1, 0, -1),
        Orientation::Deg45 => (1, 1, -1, -1),
        Orientation::Deg90 => (1, 0, -1, 0),
        Orientation::Deg135 => (1, -1, -1, 1),
    }
}

/// A cell survives suppression iff its squared magnitude is at least those
/// of both neighbors along its orientation axis.  The comparison is
/// non-strict on purpose: plateaus of equal magnitude all survive.
pub open spec fn survives(m: spec_fn(int, int) -> int, o: Orientation, i: int, j: int) -> bool {
    let offs = nms_offsets(o);
    m(i, j) >= m(i + offs.0, j + offs.1) && m(i, j) >= m(i + offs.2, j + offs.3)
}

/// The suppressed output at an interior cell: the truncated magnitude where
/// the cell survives, 0 where it does not.
pub open spec fn suppressed_value(
    m: spec_fn(int, int) -> int,
    o: Orientation,
    i: int,
    j: int,
) -> int {
    if survives(m, o, i, j) {
        mag_byte_spec(m(i, j))
    } else {
        0
    }
}

/// A `Grid<u32>` of squared magnitudes read as a pointwise integer map.
pub open spec fn mag_fn(g: Grid<u32>) -> spec_fn(int, int) -> int {
    |i: int, j: int| g.at(i, j) as int
}

/// Thins the magnitude map to single-cell-wide ridges: an interior cell
/// keeps its truncated magnitude only where that magnitude is a (non-strict)
/// local maximum along the cell's orientation axis; every other cell,
/// border included, is 0.
pub fn non_maximum_suppression(magnitude: &Grid<u32>, direction: &Grid<Orientation>) -> (s: Grid<
    u8,
>)
    requires
        magnitude.wf(),
        direction.wf(),
        magnitude.width == direction.width,
        magnitude.height == direction.height,
        magnitude.width >= 1,
        magnitude.height >= 1,
    ensures
        s.wf(),
        s.width == magnitude.width,
        s.height == magnitude.height,
        forall|i: int, j: int|
            magnitude.interior(i, j) ==> s.at(i, j) == suppressed_value(
                mag_fn(*magnitude),
                direction.at(i, j),
                i,
                j,
            ),
        forall|i: int, j: int| magnitude.on_border(i, j) ==> s.at(i, j) == 0,
{
    let width: usize = magnitude.width;
    let height: usize = magnitude.height;
    let mut suppressed: Grid<u8> = Grid::new(width, height, 0u8);
    let mut i: usize = 1;
    while i < height - 1
        invariant
            magnitude.wf(),
            magnitude.width == width,
            magnitude.height == height,
            direction.wf(),
            direction.width == width,
            direction.height == height,
            width >= 1,
            height >= 1,
            suppressed.wf(),
            suppressed.width == width,
            suppressed.height == height,
            1 <= i <= height,
            forall|r: int, c: int|
                magnitude.interior(r, c) && r < i ==> suppressed.at(r, c) == suppressed_value(
                    mag_fn(*magnitude),
                    direction.at(r, c),
                    r,
                    c,
                ),
            forall|r: int, c: int| magnitude.on_border(r, c) ==> suppressed.at(r, c) == 0,
        decreases height - i,
    {
        let mut j: usize = 1;
        while j < width - 1
            invariant
                magnitude.wf(),
                magnitude.width == width,
                magnitude.height == height,
                direction.wf(),
                direction.width == width,
                direction.height == height,
                width >= 1,
                height >= 1,
                suppressed.wf(),
                suppressed.width == width,
                suppressed.height == height,
                1 <= i < height - 1,
                1 <= j <= width,
                forall|r: int, c: int|
                    magnitude.interior(r, c) && r < i ==> suppressed.at(r, c) == suppressed_value(
                        mag_fn(*magnitude),
                        direction.at(r, c),
                        r,
                        c,
                    ),
                forall|c: int|
                    1 <= c < j && magnitude.interior(i as int, c) ==> suppressed.at(i as int, c)
                        == suppressed_value(
                        mag_fn(*magnitude),
                        direction.at(i as int, c),
                        i as int,
                        c,
                    ),
                forall|r: int, c: int| magnitude.on_border(r, c) ==> suppressed.at(r, c) == 0,
            decreases width - j,
        {
            let o: Orientation = direction.get(i, j);
            let (p1i, p1j, p2i, p2j): (usize, usize, usize, usize) = match o {
                Orientation::Deg0 => (i, j + 1, i, j - 1),
                Orientation::Deg45 => (i + 1, j + 1, i - 1, j - 1),
                Orientation::Deg90 => (i + 1, j, i - 1, j),
                Orientation::Deg135 => (i + 1, j - 1, i - 1, j + 1),
            };
            let m0: u32 = magnitude.get(i, j);
            let m1: u32 = magnitude.get(p1i, p1j);
            let m2: u32 = magnitude.get(p2i, p2j);
            let out: u8 = if m0 >= m1 && m0 >= m2 {
                mag_byte(m0)
            } else {
                0
            };
            suppressed.set(i, j, out);
            j = j + 1;
        }
        i = i + 1;
    }
    suppressed
}

} // verus!
