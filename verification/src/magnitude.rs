use vstd::prelude::*;

use crate::grid::Grid;

verus! {

/// The four orientation bins of a gradient direction, named by the angle
/// range (in degrees, after taking the absolute value of the `atan2` angle
/// and folding it modulo 180) that the bin covers.
#[derive(Clone, Copy, PartialEq, Eq, Structural, Debug)]
pub enum Orientation {
    /// Folded angle in [0, 22.5] or [157.5, 180).
    Deg0,
    /// Folded angle in (22.5, 67.5].
    Deg45,
    /// Folded angle in (67.5, 112.5].
    Deg90,
    /// Folded angle in (112.5, 157.5).
    Deg135,
}

/// The squared Euclidean magnitude of a gradient pair.  The magnitude itself,
/// `sqrt(gx^2 + gy^2)`, is irrational in general; the square carries the same
/// information exactly, since the square root is strictly increasing, and the
/// later stages compare magnitudes and truncate one square root to an integer
/// - both of which are exact on squares.
pub open spec fn mag2_of(gx: int, gy: int) -> int {
    gx * gx + gy * gy
}

pub open spec fn abs_of(x: int) -> int {
    if x < 0 {
        -x
    } else {
        x
    }
}

/// The orientation bin of the gradient (gx, gy), i.e. of the folded angle
/// `|atan2(gy, gx)| mod 180`.  With `u = |gx|` and `v = |gy|`:
///
///   - the angle lies in [0, 22.5] or [157.5, 180) iff `v <= (sqrt(2)-1)*u`,
///     i.e. iff `(u+v)^2 <= 2*u^2`;
///   - it lies in (67.5, 112.5] iff `v > (sqrt(2)+1)*u`, i.e. iff `v > u`
///     and `(v-u)^2 > 2*u^2`;
///   - otherwise it lies in (22.5, 67.5] when `gx > 0` (the folded angle is
///     below 90) and in (112.5, 157.5) when `gx < 0` (it is above 90).
///
/// `sqrt(2)` is irrational, so no integer gradient lands exactly on a bin
/// boundary and these squared comparisons decide the bins exactly.  A zero
/// gradient has angle 0 by the `atan2` convention and falls in the first bin.
pub open spec fn orientation_of(gx: int, gy: int) -> Orientation {
    let u = abs_of(gx);
    let v = abs_of(gy);
    if (u + v) * (u + v) <= 2 * (u * u) {
        Orientation::Deg0
    } else if v > u && (v - u) * (v - u) > 2 * (u * u) {
        Orientation::Deg90
    } else if gx > 0 {
        Orientation::Deg45
    } else {
        Orientation::Deg135
    }
}

/// Converts the gradient pair per cell into polar form: the squared magnitude
/// and the orientation bin of the direction.  Operates over the full grid,
/// border included (a zeroed border yields squared magnitude 0 and the first
/// bin, the polar form of the zero vector).
pub fn gradient_magnitude_direction(grad_x: &Grid<i16>, grad_y: &Grid<i16>) -> (r: (
    Grid<u32>,
    Grid<Orientation>,
))
    requires
        grad_x.wf(),
        grad_y.wf(),
        grad_x.width == grad_y.width,
        grad_x.height == grad_y.height,
    ensures
        r.0.wf(),
        r.1.wf(),
        r.0.width == grad_x.width,
        r.0.height == grad_x.height,
        r.1.width == grad_x.width,
        r.1.height == grad_x.height,
        forall|i: int, j: int|
            grad_x.in_bounds(i, j) ==> r.0.at(i, j) == mag2_of(
                grad_x.at(i, j) as int,
                grad_y.at(i, j) as int,
            ),
        forall|i: int, j: int|
            grad_x.in_bounds(i, j) ==> r.1.at(i, j) == orientation_of(
                grad_x.at(i, j) as int,
                grad_y.at(i, j) as int,
            ),
{
    let width: usize = grad_x.width;
    let height: usize = grad_x.height;
    let mut mag2: Grid<u32> = Grid::new(width, height, 0u32);
    let mut dir: Grid<Orientation> = Grid::new(width, height, Orientation::Deg0);
    let mut i: usize = 0;
    while i < height
        invariant
            grad_x.wf(),
            grad_x.width == width,
            grad_x.height == height,
            grad_y.wf(),
            grad_y.width == width,
            grad_y.height == height,
            mag2.wf(),
            mag2.width == width,
            mag2.height == height,
            dir.wf(),
            dir.width == width,
            dir.height == height,
            i <= height,
            forall|r: int, c: int|
                0 <= r < i && 0 <= c < width ==> mag2.at(r, c) == mag2_of(
                    grad_x.at(r, c) as int,
                    grad_y.at(r, c) as int,
                ),
            forall|r: int, c: int|
                0 <= r < i && 0 <= c < width ==> dir.at(r, c) == orientation_of(
                    grad_x.at(r, c) as int,
                    grad_y.at(r, c) as int,
                ),
        decreases height - i,
    {
        let mut j: usize = 0;
        while j < width
            invariant
                grad_x.wf(),
                grad_x.width == width,
                grad_x.height == height,
                grad_y.wf(),
                grad_y.width == width,
                grad_y.height == height,
                mag2.wf(),
                mag2.width == width,
                mag2.height == height,
                dir.wf(),
                dir.width == width,
                dir.height == height,
                i < height,
                j <= width,
                forall|r: int, c: int|
                    0 <= r < i && 0 <= c < width ==> mag2.at(r, c) == mag2_of(
                        grad_x.at(r, c) as int,
                        grad_y.at(r, c) as int,
                    ),
                forall|r: int, c: int|
                    0 <= r < i && 0 <= c < width ==> dir.at(r, c) == orientation_of(
                        grad_x.at(r, c) as int,
                        grad_y.at(r, c) as int,
                    ),
                forall|c: int|
                    0 <= c < j ==> mag2.at(i as int, c) == mag2_of(
                        grad_x.at(i as int, c) as int,
                        grad_y.at(i as int, c) as int,
                    ),
                forall|c: int|
                    0 <= c < j ==> dir.at(i as int, c) == orientation_of(
                        grad_x.at(i as int, c) as int,
                        grad_y.at(i as int, c) as int,
                    ),
            decreases width - j,
        {
            let x: i64 = grad_x.get(i, j) as i64;
            let y: i64 = grad_y.get(i, j) as i64;
            proof {
                assert(0 <= x * x <= 0x4000_0000) by (nonlinear_arith)
                    requires
                        -32768 <= x <= 32767,
                ;
                assert(0 <= y * y <= 0x4000_0000) by (nonlinear_arith)
                    requires
                        -32768 <= y <= 32767,
                ;
            }
            let m2: u32 = (x * x + y * y) as u32;
            let u: u64 = if x < 0 {
                (-x) as u64
            } else {
                x as u64
            };
            let v: u64 = if y < 0 {
                (-y) as u64
            } else {
                y as u64
            };
            proof {
                assert((u + v) * (u + v) <= 0x1_0000_0000) by (nonlinear_arith)
                    requires
                        0 <= u <= 32768,
                        0 <= v <= 32768,
                ;
                assert(u * u <= 0x4000_0000) by (nonlinear_arith)
                    requires
                        0 <= u <= 32768,
                ;
                assert((v - u) * (v - u) <= 0x4000_0000) by (nonlinear_arith)
                    requires
                        0 <= u <= 32768,
                        0 <= v <= 32768,
                ;
            }
            let o: Orientation = if (u + v) * (u + v) <= 2 * (u * u) {
                Orientation::Deg0
            } else if v > u && (v - u) * (v - u) > 2 * (u * u) {
                Orientation::Deg90
            } else if x > 0 {
                Orientation::Deg45
            } else {
                Orientation::Deg135
            };
            mag2.set(i, j, m2);
            dir.set(i, j, o);
            j = j + 1;
        }
        i = i + 1;
    }
    (mag2, dir)
}

} // verus!
