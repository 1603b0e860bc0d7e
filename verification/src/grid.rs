use vstd::prelude::*;

verus! {

/// A rectangular, row-major two-dimensional array whose dimensions are fixed
/// at creation.  Cell (i, j) of a `height x width` grid lives at flat index
/// `i * width + j`; a single flat buffer avoids per-row heap indirection and
/// rules out rows of differing lengths.
pub struct Grid<T> {
    pub width: usize,
    pub height: usize,
    pub data: Vec<T>,
}

/// Row-major indexing sends every in-bounds cell into the flat buffer.
pub proof fn lemma_flat_index_bounds(w: int, h: int, i: int, j: int)
    by (nonlinear_arith)
    requires
        0 <= i < h,
        0 <= j < w,
    ensures
        0 <= i * w + j,
        i * w + j < h * w,
{
}

/// Row-major indexing is injective on cells with an in-bounds column.
pub proof fn lemma_flat_index_injective(w: int, i1: int, j1: int, i2: int, j2: int)
    by (nonlinear_arith)
    requires
        0 <= j1 < w,
        0 <= j2 < w,
    ensures
        (i1 * w + j1 == i2 * w + j2) == (i1 == i2 && j1 == j2),
{
}

impl<T> Grid<T> {
    /// The flat buffer holds exactly one entry per cell.  Stating the length
    /// through `Vec::len` also bounds `height * width` by `usize::MAX`.
    pub open spec fn wf(&self) -> bool {
        self.data.len() == self.height * self.width
    }

    /// The value stored at row `i`, column `j`.
    pub open spec fn at(&self, i: int, j: int) -> T {
        self.data@[i * self.width + j]
    }

    pub open spec fn in_bounds(&self, i: int, j: int) -> bool {
        0 <= i < self.height && 0 <= j < self.width
    }

    /// Cells at least one step away from every border; the neighborhood
    /// operators evaluate only these.
    pub open spec fn interior(&self, i: int, j: int) -> bool {
        1 <= i < self.height - 1 && 1 <= j < self.width - 1
    }

    /// Cells on row 0, row `height - 1`, column 0 or column `width - 1`.
    pub open spec fn on_border(&self, i: int, j: int) -> bool {
        self.in_bounds(i, j) && !self.interior(i, j)
    }
}

impl<T: Copy> Grid<T> {
    /// A `height x width` grid with every cell set to `fill`.
    pub fn new(width: usize, height: usize, fill: T) -> (g: Grid<T>)
        requires
            height * width <= usize::MAX,
        ensures
            g.wf(),
            g.width == width,
            g.height == height,
            forall|i: int, j: int| g.in_bounds(i, j) ==> g.at(i, j) == fill,
    {
        let n: usize = height * width;
        let mut data: Vec<T> = Vec::new();
        let mut k: usize = 0;
        while k < n
            invariant
                k <= n,
                data@.len() == k,
                forall|m: int| 0 <= m < k ==> data@[m] == fill,
            decreases n - k,
        {
            data.push(fill);
            k = k + 1;
        }
        let g = Grid { width, height, data };
        proof {
            assert forall|i: int, j: int| g.in_bounds(i, j) implies g.at(i, j) == fill by {
                lemma_flat_index_bounds(width as int, height as int, i, j);
            }
        }
        g
    }

    pub fn get(&self, i: usize, j: usize) -> (v: T)
        requires
            self.wf(),
            i < self.height,
            j < self.width,
        ensures
            v == self.at(i as int, j as int),
    {
        proof {
            lemma_flat_index_bounds(self.width as int, self.height as int, i as int, j as int);
        }
        self.data[i * self.width + j]
    }

    pub fn set(&mut self, i: usize, j: usize, v: T)
        requires
            old(self).wf(),
            i < old(self).height,
            j < old(self).width,
        ensures
            final(self).wf(),
            final(self).width == old(self).width,
            final(self).height == old(self).height,
            final(self).at(i as int, j as int) == v,
            forall|i2: int, j2: int|
                old(self).in_bounds(i2, j2) && !(i2 == i && j2 == j)
                    ==> final(self).at(i2, j2) == old(self).at(i2, j2),
    {
        proof {
            lemma_flat_index_bounds(self.width as int, self.height as int, i as int, j as int);
        }
        let idx: usize = i * self.width + j;
        self.data[idx] = v;
        proof {
            assert forall|i2: int, j2: int|
                old(self).in_bounds(i2, j2) && !(i2 == i && j2 == j)
                    implies final(self).at(i2, j2) == old(self).at(i2, j2) by {
                lemma_flat_index_bounds(self.width as int, self.height as int, i2, j2);
                lemma_flat_index_injective(self.width as int, i2, j2, i as int, j as int);
            }
        }
    }
}

} // verus!
