//! Matrices and channelled tensors of scalar bit patterns, with the
//! dimension predicates and the zero-filled and copying constructors that
//! the layer code builds on.

use vstd::prelude::*;

verus! {

/// `m` is a `rows` by `cols` matrix.
pub open spec fn mat_dims(m: Seq<Vec<u64>>, rows: int, cols: int) -> bool {
    m.len() == rows && forall|i: int| 0 <= i < rows ==> (#[trigger] m[i])@.len() == cols
}

/// `t` holds `ch` channels, each a `rows` by `cols` matrix.
pub open spec fn ten_dims(t: Seq<Vec<Vec<u64>>>, ch: int, rows: int, cols: int) -> bool {
    t.len() == ch && forall|i: int| 0 <= i < ch ==> mat_dims((#[trigger] t[i])@, rows, cols)
}

/// The matrix as a sequence of row sequences.
pub open spec fn mat_view(m: Vec<Vec<u64>>) -> Seq<Seq<u64>> {
    m@.map_values(|row: Vec<u64>| row@)
}

/// The tensor as a sequence of channel matrices of row sequences.
pub open spec fn ten_view(t: Vec<Vec<Vec<u64>>>) -> Seq<Seq<Seq<u64>>> {
    t@.map_values(|m: Vec<Vec<u64>>| mat_view(m))
}

/// Every entry of the matrix is the zero pattern.
pub open spec fn mat_zero(m: Seq<Vec<u64>>) -> bool {
    forall|i: int, j: int|
        0 <= i < m.len() && 0 <= j < m[i]@.len() ==> #[trigger] m[i]@[j] == 0u64
}

/// A row of `cols` zero entries.
pub fn zero_row(cols: usize) -> (r: Vec<u64>)
    ensures
        r@.len() == cols,
        forall|k: int| 0 <= k < cols ==> r@[k] == 0u64,
{
    let mut r: Vec<u64> = Vec::new();
    let mut k: usize = 0;
    while k < cols
        invariant
            k <= cols,
            r@.len() == k,
            forall|x: int| 0 <= x < k ==> r@[x] == 0u64,
        decreases cols - k,
    {
        r.push(0u64);
        k = k + 1;
    }
    r
}

/// A `rows` by `cols` matrix of zero entries.
pub fn zero_matrix(rows: usize, cols: usize) -> (r: Vec<Vec<u64>>)
    ensures
        mat_dims(r@, rows as int, cols as int),
        mat_zero(r@),
{
    let mut r: Vec<Vec<u64>> = Vec::new();
    let mut j: usize = 0;
    while j < rows
        invariant
            j <= rows,
            r@.len() == j,
            forall|x: int| 0 <= x < j ==> (#[trigger] r@[x])@.len() == cols,
            forall|x: int, y: int| 0 <= x < j && 0 <= y < cols ==> r@[x]@[y] == 0u64,
        decreases rows - j,
    {
        r.push(zero_row(cols));
        j = j + 1;
    }
    r
}

/// `ch` channels of `rows` by `cols` zero matrices.
pub fn zero_tensor(ch: usize, rows: usize, cols: usize) -> (r: Vec<Vec<Vec<u64>>>)
    ensures
        ten_dims(r@, ch as int, rows as int, cols as int),
        forall|i: int| 0 <= i < ch ==> mat_zero((#[trigger] r@[i])@),
{
    let mut r: Vec<Vec<Vec<u64>>> = Vec::new();
    let mut i: usize = 0;
    while i < ch
        invariant
            i <= ch,
            r@.len() == i,
            forall|x: int| 0 <= x < i ==> mat_dims((#[trigger] r@[x])@, rows as int, cols as int),
            forall|x: int| 0 <= x < i ==> mat_zero((#[trigger] r@[x])@),
        decreases ch - i,
    {
        r.push(zero_matrix(rows, cols));
        i = i + 1;
    }
    r
}

/// An entry-for-entry copy of a row.
pub fn copy_row(v: &Vec<u64>) -> (r: Vec<u64>)
    ensures
        r@ == v@,
{
    let mut r: Vec<u64> = Vec::new();
    let mut k: usize = 0;
    while k < v.len()
        invariant
            k <= v@.len(),
            r@ == v@.subrange(0, k as int),
        decreases v@.len() - k,
    {
        r.push(v[k]);
        k = k + 1;
    }
    proof {
        assert(r@ =~= v@);
    }
    r
}

/// An entry-for-entry copy of a matrix.
pub fn copy_matrix(m: &Vec<Vec<u64>>) -> (r: Vec<Vec<u64>>)
    ensures
        r@.len() == m@.len(),
        forall|i: int| 0 <= i < m@.len() ==> (#[trigger] r@[i])@ == m@[i]@,
        mat_view(r) == mat_view(*m),
{
    let mut r: Vec<Vec<u64>> = Vec::new();
    let mut j: usize = 0;
    while j < m.len()
        invariant
            j <= m@.len(),
            r@.len() == j,
            forall|x: int| 0 <= x < j ==> (#[trigger] r@[x])@ == m@[x]@,
        decreases m@.len() - j,
    {
        r.push(copy_row(&m[j]));
        j = j + 1;
    }
    proof {
        assert(mat_view(r) =~= mat_view(*m));
    }
    r
}

/// An entry-for-entry copy of a tensor.
pub fn copy_tensor(t: &Vec<Vec<Vec<u64>>>) -> (r: Vec<Vec<Vec<u64>>>)
    ensures
        r@.len() == t@.len(),
        forall|i: int| 0 <= i < t@.len() ==> (#[trigger] r@[i])@.len() == t@[i]@.len(),
        forall|i: int, j: int|
            0 <= i < t@.len() && 0 <= j < t@[i]@.len() ==> (#[trigger] r@[i]@[j])@ == t@[i]@[j]@,
        ten_view(r) == ten_view(*t),
{
    let mut r: Vec<Vec<Vec<u64>>> = Vec::new();
    let mut i: usize = 0;
    while i < t.len()
        invariant
            i <= t@.len(),
            r@.len() == i,
            forall|x: int| 0 <= x < i ==> (#[trigger] r@[x])@.len() == t@[x]@.len(),
            forall|x: int, y: int|
                0 <= x < i && 0 <= y < t@[x]@.len() ==> (#[trigger] r@[x]@[y])@ == t@[x]@[y]@,
        decreases t@.len() - i,
    {
        r.push(copy_matrix(&t[i]));
        i = i + 1;
    }
    proof {
        assert(ten_view(r) =~~= ten_view(*t));
    }
    r
}

/// `src` centred in a row widened by `p` zero entries on each side.
pub fn padded_row(src: &Vec<u64>, p: usize) -> (r: Vec<u64>)
    requires
        src@.len() + 2 * p <= usize::MAX,
    ensures
        r@.len() == src@.len() + 2 * p,
        forall|k: int|
            0 <= k < src@.len() + 2 * p ==> #[trigger] r@[k] == (if p <= k < src@.len() + p {
                src@[k - p]
            } else {
                0u64
            }),
{
    let mut r = zero_row(p);
    let mut k: usize = 0;
    while k < src.len()
        invariant
            k <= src@.len(),
            src@.len() + 2 * p <= usize::MAX,
            r@.len() == p + k,
            forall|x: int| 0 <= x < p ==> r@[x] == 0u64,
            forall|x: int| p <= x < p + k ==> #[trigger] r@[x] == src@[x - p],
        decreases src@.len() - k,
    {
        r.push(src[k]);
        k = k + 1;
    }
    let mut z: usize = 0;
    while z < p
        invariant
            z <= p,
            src@.len() + 2 * p <= usize::MAX,
            r@.len() == p + src@.len() + z,
            forall|x: int| 0 <= x < p ==> r@[x] == 0u64,
            forall|x: int| p <= x < p + src@.len() ==> #[trigger] r@[x] == src@[x - p],
            forall|x: int| p + src@.len() <= x < p + src@.len() + z ==> #[trigger] r@[x] == 0u64,
        decreases p - z,
    {
        r.push(0u64);
        z = z + 1;
    }
    r
}

/// `m` centred in a matrix widened by a border of `p` zero entries: the
/// interior repeats `m`, everything on the border is zero.
pub fn pad_matrix(m: &Vec<Vec<u64>>, p: usize) -> (r: Vec<Vec<u64>>)
    requires
        m@.len() >= 1,
        mat_dims(m@, m@.len() as int, m@[0]@.len() as int),
        m@.len() + 2 * p <= usize::MAX,
        m@[0]@.len() + 2 * p <= usize::MAX,
    ensures
        mat_dims(r@, m@.len() + 2 * p, m@[0]@.len() + 2 * p),
        forall|j: int, k: int|
            0 <= j < m@.len() + 2 * p && 0 <= k < m@[0]@.len() + 2 * p
                ==> #[trigger] r@[j]@[k] == (if p <= j < m@.len() + p && p <= k < m@[0]@.len()
                + p {
                m@[j - p]@[k - p]
            } else {
                0u64
            }),
{
    let rows = m.len();
    let cols = m[0].len();
    let total_rows = rows + 2 * p;
    let total_cols = cols + 2 * p;
    let mut r: Vec<Vec<u64>> = Vec::new();
    let mut j: usize = 0;
    while j < total_rows
        invariant
            j <= total_rows,
            rows == m@.len(),
            cols == m@[0]@.len(),
            total_rows == rows + 2 * p,
            total_cols == cols + 2 * p,
            mat_dims(m@, rows as int, cols as int),
            r@.len() == j,
            forall|x: int| 0 <= x < j ==> (#[trigger] r@[x])@.len() == total_cols,
            forall|x: int, y: int|
                0 <= x < j && 0 <= y < total_cols ==> #[trigger] r@[x]@[y] == (if p <= x < rows
                    + p && p <= y < cols + p {
                    m@[x - p]@[y - p]
                } else {
                    0u64
                }),
        decreases total_rows - j,
    {
        if j < p || j >= rows + p {
            r.push(zero_row(total_cols));
        } else {
            r.push(padded_row(&m[j - p], p));
        }
        j = j + 1;
    }
    r
}

} // verus!
