use vstd::prelude::*;

verus! {

/// A `width` x `height` grid stored as one row-major buffer:
/// the cell at column `x` and row `y` sits at index `y * width + x`.
pub struct Array2<T> {
    width: usize,
    height: usize,
    cells: Vec<T>,
}

impl<T: Copy> Array2<T> {
    pub closed spec fn spec_width(&self) -> nat {
        self.width as nat
    }

    pub closed spec fn spec_height(&self) -> nat {
        self.height as nat
    }

    /// The cells in row-major order.
    pub closed spec fn view(&self) -> Seq<T> {
        self.cells@
    }

    /// The buffer holds exactly one cell per coordinate pair, and every
    /// position in it fits in a `usize`.
    pub closed spec fn wf(&self) -> bool {
        &&& self.cells@.len() == self.width * self.height
        &&& self.width * self.height <= usize::MAX
    }

    pub open spec fn in_bounds(&self, x: int, y: int) -> bool {
        0 <= x < self.spec_width() && 0 <= y < self.spec_height()
    }

    pub open spec fn spec_index(&self, x: int, y: int) -> int {
        y * self.spec_width() + x
    }

    pub open spec fn cell(&self, x: int, y: int) -> T {
        self.view()[self.spec_index(x, y)]
    }

    /// A grid whose every cell holds `fill`.
    pub fn new(width: usize, height: usize, fill: T) -> (r: Self)
        requires
            width * height <= usize::MAX,
        ensures
            r.wf(),
            r.spec_width() == width,
            r.spec_height() == height,
            r@ == Seq::new((width * height) as nat, |_i: int| fill),
    {
        let n: usize = width * height;
        let mut cells: Vec<T> = Vec::with_capacity(n);
        let mut k: usize = 0;
        while k < n
            invariant
                k <= n,
                cells@ == Seq::new(k as nat, |_i: int| fill),
            decreases n - k,
        {
            cells.push(fill);
            k = k + 1;
            assert(cells@ =~= Seq::new(k as nat, |_i: int| fill));
        }
        Array2 { width, height, cells }
    }

    /// Takes `cells` as the row-major contents of a `width` x `height` grid;
    /// `None` when their number is not `width * height`.
    pub fn from_vec(width: usize, height: usize, cells: Vec<T>) -> (r: Option<Self>)
        ensures
            r.is_some() <==> width as int * height as int == cells@.len(),
            r matches Some(g) ==> g.wf() && g.spec_width() == width && g.spec_height() == height
                && g@ == cells@,
    {
        let len: usize = cells.len();
        match width.checked_mul(height) {
            Some(n) => {
                if n == len {
                    Some(Array2 { width, height, cells })
                } else {
                    None
                }
            },
            None => None,
        }
    }

    pub fn width(&self) -> (r: usize)
        ensures
            r == self.spec_width(),
    {
        self.width
    }

    pub fn height(&self) -> (r: usize)
        ensures
            r == self.spec_height(),
    {
        self.height
    }

    /// The position of cell (`x`, `y`) in the row-major buffer.
    pub fn index(&self, x: usize, y: usize) -> (r: usize)
        requires
            self.wf(),
            self.in_bounds(x as int, y as int),
        ensures
            r == self.spec_index(x as int, y as int),
            r < self@.len(),
    {
        proof {
            lemma_index_in_range(x as int, y as int, self.width as int, self.height as int);
        }
        y * self.width + x
    }

    /// The value at column `x`, row `y`. Reading never changes the grid, so
    /// two reads of one cell give the same value.
    pub fn get(&self, x: usize, y: usize) -> (r: T)
        requires
            self.wf(),
            self.in_bounds(x as int, y as int),
        ensures
            r == self.cell(x as int, y as int),
    {
        let k = self.index(x, y);
        self.cells[k]
    }

    /// Writes `v` at column `x`, row `y` and leaves every other cell as it was.
    pub fn set(&mut self, x: usize, y: usize, v: T)
        requires
            old(self).wf(),
            old(self).in_bounds(x as int, y as int),
        ensures
            final(self).wf(),
            final(self).spec_width() == old(self).spec_width(),
            final(self).spec_height() == old(self).spec_height(),
            final(self)@ == old(self)@.update(old(self).spec_index(x as int, y as int), v),
    {
        let k = self.index(x, y);
        self.cells.set(k, v);
    }

    /// The cells in row-major order.
    pub fn to_vec(&self) -> (r: Vec<T>)
        ensures
            r@ == self@,
    {
        let mut r: Vec<T> = Vec::with_capacity(self.cells.len());
        let mut k: usize = 0;
        while k < self.cells.len()
            invariant
                k <= self.cells@.len(),
                r@ == self.cells@.subrange(0, k as int),
            decreases self.cells@.len() - k,
        {
            r.push(self.cells[k]);
            k = k + 1;
            assert(r@ =~= self.cells@.subrange(0, k as int));
        }
        assert(r@ =~= self.cells@);
        r
    }
}

proof fn lemma_index_in_range(x: int, y: int, w: int, h: int)
    requires
        0 <= x < w,
        0 <= y < h,
    ensures
        0 <= y * w + x < w * h,
{
    assert((y + 1) * w <= h * w) by (nonlinear_arith)
        requires
            0 <= y < h,
            0 <= w,
    ;
    assert(y * w + x < (y + 1) * w) by (nonlinear_arith)
        requires
            x < w,
    ;
    assert(0 <= y * w) by (nonlinear_arith)
        requires
            0 <= y,
            0 <= w,
    ;
    assert(h * w == w * h) by (nonlinear_arith);
}

} // verus!
