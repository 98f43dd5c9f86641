use vstd::prelude::*;

verus! {

/// Two dimensional array: a dense grid of owned rows in row-major order,
/// together with the (row_count, column_count) pair recorded at
/// construction.
pub struct Array2D<T> {
    data: Vec<Vec<T>>,
    dim: (usize, usize),
}

/// The mathematical value of a sequence of owned rows: each row replaced
/// by the sequence of its elements.
pub open spec fn rows_view<T>(rows: Seq<Vec<T>>) -> Seq<Seq<T>> {
    rows.map_values(|row: Vec<T>| row@)
}

/// The grid after one element is overwritten: row `row` gets its element
/// at `col` replaced by `val`; everything else is untouched.
pub open spec fn grid_write<T>(s: Seq<Seq<T>>, row: int, col: int, val: T) -> Seq<Seq<T>> {
    s.update(row, s[row].update(col, val))
}

impl<T> View for Array2D<T> {
    type V = Seq<Seq<T>>;

    closed spec fn view(&self) -> Seq<Seq<T>> {
        rows_view(self.data@)
    }
}

impl<T> Array2D<T> {
    /// The sequence of owned rows the grid holds.
    pub closed spec fn rows(&self) -> Seq<Vec<T>> {
        self.data@
    }

    /// The shape recorded at construction.
    pub closed spec fn spec_dim(&self) -> (usize, usize) {
        self.dim
    }

    /// The recorded shape agrees with the stored rows: as many rows as the
    /// recorded row count, each of the recorded column count.
    pub open spec fn wf(&self) -> bool {
        &&& self.spec_dim().0 == self@.len()
        &&& forall|i: int| 0 <= i < self@.len() ==> (#[trigger] self@[i]).len() == self.spec_dim().1
    }

    /// The element-wise view is the stored rows, each seen as a sequence.
    pub proof fn lemma_rows_view(&self)
        ensures
            self@.len() == self.rows().len(),
            forall|i: int| 0 <= i < self.rows().len() ==> self@[i] == (#[trigger] self.rows()[i])@,
    {
    }

    /// Size of the grid as (row_count, column_count).
    #[verifier::when_used_as_spec(spec_dim)]
    pub fn dim(&self) -> (r: (usize, usize))
        ensures
            r == self.spec_dim(),
    {
        self.dim
    }

    /// Builds a grid that takes ownership of the given rows; the shape is
    /// the outer length paired with the first row's length.
    pub fn from_owned(v: Vec<Vec<T>>) -> (r: Array2D<T>)
        requires
            v@.len() > 0,
        ensures
            r.rows() == v@,
            r@ == rows_view(v@),
            r.spec_dim().0 == v@.len(),
            r.spec_dim().1 == v@[0]@.len(),
    {
        let rows = v.len();
        let cols = v[0].len();
        Array2D { data: v, dim: (rows, cols) }
    }

    /// Consumes the grid and hands back the owned rows, in row-major order,
    /// exactly as stored.
    pub fn to_vec(self) -> (r: Vec<Vec<T>>)
        ensures
            r@ == self.rows(),
            rows_view(r@) == self@,
            r@.len() == self@.len(),
            forall|i: int| 0 <= i < r@.len() ==> (#[trigger] r@[i])@ == self@[i],
    {
        self.data
    }

    /// Read access to the element at (row, col).
    pub fn get(&self, row: usize, col: usize) -> (r: &T)
        requires
            row < self@.len(),
            col < self@[row as int].len(),
        ensures
            *r == self@[row as int][col as int],
    {
        &self.data[row][col]
    }

    /// Write access to the element at (row, col): the grid afterwards holds
    /// whatever value the caller leaves behind the returned reference, and
    /// every other coordinate, the shape, and all row lengths are unchanged.
    pub fn get_mut(&mut self, row: usize, col: usize) -> (r: &mut T)
        requires
            row < old(self)@.len(),
            col < old(self)@[row as int].len(),
        ensures
            *r == old(self)@[row as int][col as int],
            final(self)@ == grid_write(old(self)@, row as int, col as int, *final(r)),
            final(self).spec_dim() == old(self).spec_dim(),
    {
        let r = &mut self.data[row][col];
        proof {
            assert(after_borrow(*self)@ =~= grid_write(
                old(self)@,
                row as int,
                col as int,
                *final(r),
            ));
        }
        r
    }

    /// Borrowed view of the rows, for shared iteration in row-major order;
    /// every call on the same grid hands back the same rows.
    pub fn iter(&self) -> (r: &Vec<Vec<T>>)
        ensures
            r@ == self.rows(),
            rows_view(r@) == self@,
            r@.len() == self@.len(),
            forall|i: int| 0 <= i < r@.len() ==> (#[trigger] r@[i])@ == self@[i],
    {
        &self.data
    }

    /// Exclusive access to the rows, for mutable iteration in row-major
    /// order; the grid afterwards holds exactly the rows the caller leaves
    /// behind, while the recorded shape stays what it was.
    pub fn iter_mut(&mut self) -> (r: &mut Vec<Vec<T>>)
        ensures
            r@ == old(self).rows(),
            r@.len() == old(self)@.len(),
            forall|i: int| 0 <= i < r@.len() ==> (#[trigger] r@[i])@ == old(self)@[i],
            final(self).rows() == final(r)@,
            final(self)@ == rows_view(final(r)@),
            final(self)@.len() == final(r)@.len(),
            forall|i: int|
                0 <= i < final(r)@.len() ==> final(self)@[i] == (#[trigger] final(r)@[i])@,
            final(self).spec_dim() == old(self).spec_dim(),
    {
        &mut self.data
    }
}

impl<T> Array2D<T> {
    /// Relies on the `Debug` impls of `Vec` and of `T`: renders the rows as
    /// the nested-list text, for example `[[1, 2, 3], [4, 5, 6]]`.
    #[verifier::external_body]
    pub fn debug_string(&self) -> String where T: core::fmt::Debug {
        format!("{:?}", self.data)
    }
}

/// Round trip: a grid built from owned rows hands back, on conversion,
/// exactly the rows it was built from. The two premises are what
/// `from_owned` and `to_vec` ensure.
pub proof fn lemma_owned_round_trip<T>(v: Seq<Vec<T>>, g: Array2D<T>, out: Seq<Vec<T>>)
    requires
        g.rows() == v,
        out == g.rows(),
    ensures
        out == v,
{
}

/// Deep copy: a grid built from a read-only nested view converts back to
/// rows equal in value to the view, element for element. The two premises
/// are what `from_view` and `to_vec` ensure.
pub proof fn lemma_view_round_trip<T>(v: Seq<Vec<T>>, g: Array2D<T>, out: Seq<Vec<T>>)
    requires
        g@ == rows_view(v),
        out == g.rows(),
    ensures
        rows_view(out) == rows_view(v),
{
    g.lemma_rows_view();
    assert(rows_view(out) =~= rows_view(v));
}

/// Writing one element: the written coordinate holds the new value, every
/// other coordinate is unaffected, and the row count and every row length
/// are unchanged. `grid_write` is how `get_mut` states its effect.
pub proof fn lemma_write_then_read<T>(s: Seq<Seq<T>>, row: int, col: int, val: T)
    requires
        0 <= row < s.len(),
        0 <= col < s[row].len(),
    ensures
        grid_write(s, row, col, val).len() == s.len(),
        forall|i: int|
            0 <= i < s.len() ==> (#[trigger] grid_write(s, row, col, val)[i]).len()
                == s[i].len(),
        grid_write(s, row, col, val)[row][col] == val,
        forall|i: int, j: int|
            0 <= i < s.len() && 0 <= j < s[i].len() && (i != row || j != col) ==> grid_write(
                s,
                row,
                col,
                val,
            )[i][j] == s[i][j],
{
}

/// Mutation through the exclusive row view is what later reads see: once a
/// grid holds the rows a mutable iteration left behind, reading any
/// coordinate hands back that row's element. The first premise is what
/// `iter_mut` ensures of the grid, the conclusion is what `get` returns.
pub proof fn lemma_mutated_rows_read_back<T>(g: Array2D<T>, w: Seq<Vec<T>>, i: int, j: int)
    requires
        g@ == rows_view(w),
        0 <= i < w.len(),
        0 <= j < w[i]@.len(),
    ensures
        g@[i][j] == w[i]@[j],
{
}

/// Shared iteration is restartable: what two borrowed-row iterations of the
/// same grid hand back is the same sequence of rows both times. The two
/// premises are what two calls of `iter` ensure.
pub proof fn lemma_iter_restartable<T>(g: Array2D<T>, r1: Seq<Vec<T>>, r2: Seq<Vec<T>>)
    requires
        r1 == g.rows(),
        r2 == g.rows(),
    ensures
        r1 == r2,
{
}

impl<T: Copy> Array2D<T> {
    /// Builds a grid by copying every element out of a read-only nested view
    /// into fresh owned storage; the shape is the outer length paired with
    /// the first row's length.
    pub fn from_view(v: &Vec<Vec<T>>) -> (r: Array2D<T>)
        requires
            v@.len() > 0,
        ensures
            r@ == rows_view(v@),
            r.spec_dim().0 == v@.len(),
            r.spec_dim().1 == v@[0]@.len(),
    {
        let rows = v.len();
        let cols = v[0].len();
        let mut data: Vec<Vec<T>> = Vec::new();
        let mut i: usize = 0;
        while i < rows
            invariant
                rows == v@.len(),
                i <= rows,
                data@.len() == i,
                forall|k: int| 0 <= k < i ==> (#[trigger] data@[k])@ == v@[k]@,
            decreases rows - i,
        {
            let n = v[i].len();
            let mut row: Vec<T> = Vec::new();
            let mut j: usize = 0;
            while j < n
                invariant
                    i < v@.len(),
                    n == v@[i as int]@.len(),
                    j <= n,
                    row@ == v@[i as int]@.take(j as int),
                decreases n - j,
            {
                row.push(v[i][j]);
                j += 1;
            }
            proof {
                assert(row@ == v@[i as int]@.take(n as int));
                assert(v@[i as int]@.take(n as int) =~= v@[i as int]@);
            }
            data.push(row);
            i += 1;
        }
        let r = Array2D { data, dim: (rows, cols) };
        proof {
            assert(r@ =~= rows_view(v@));
        }
        r
    }
}

impl<T: Default + Copy> Array2D<T> {
    /// Initialize a dim-shaped grid: dim.0 rows, each of dim.1 elements,
    /// every element T's default value.
    pub fn zeros(dim: (usize, usize)) -> (r: Array2D<T>)
        ensures
            r.spec_dim() == dim,
            r.wf(),
            forall|i: int, j: int|
                0 <= i < dim.0 && 0 <= j < dim.1 ==> call_ensures(
                    T::default,
                    (),
                    #[trigger] r@[i][j],
                ),
    {
        let d: T = T::default();
        let mut data: Vec<Vec<T>> = Vec::new();
        let mut i: usize = 0;
        while i < dim.0
            invariant
                i <= dim.0,
                data@.len() == i,
                call_ensures(T::default, (), d),
                forall|k: int| 0 <= k < i ==> (#[trigger] data@[k])@.len() == dim.1,
                forall|k: int, l: int| 0 <= k < i && 0 <= l < dim.1 ==> data@[k]@[l] == d,
            decreases dim.0 - i,
        {
            let mut row: Vec<T> = Vec::new();
            let mut j: usize = 0;
            while j < dim.1
                invariant
                    j <= dim.1,
                    row@.len() == j,
                    forall|l: int| 0 <= l < j ==> row@[l] == d,
                decreases dim.1 - j,
            {
                row.push(d);
                j += 1;
            }
            data.push(row);
            i += 1;
        }
        Array2D { data, dim }
    }
}

} // verus!
