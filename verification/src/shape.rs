use vstd::prelude::*;

verus! {

/// The mathematical value of a dense tensor: its dimensions, outermost
/// first, and its elements in row-major order. Every element is stored as
/// the bit pattern of an IEEE-754 binary32 number.
pub struct TensorValue {
    pub dims: Seq<usize>,
    pub words: Seq<u32>,
}

impl TensorValue {
    /// The value describes a rank-3 tensor: three dimensions and one word
    /// per element.
    pub open spec fn is_rank3(self) -> bool {
        self.dims.len() == 3 && self.words.len() == volume3(self.dims)
    }

    /// The value describes a rank-4 tensor: four dimensions and one word
    /// per element.
    pub open spec fn is_rank4(self) -> bool {
        self.dims.len() == 4 && self.words.len() == volume4(self.dims)
    }

    /// Element `[i][j][k]` of a rank-3 tensor.
    pub open spec fn at3(self, i: int, j: int, k: int) -> u32 {
        self.words[offset3(self.dims, seq![i, j, k])]
    }

    /// Element `[i][j][k][l]` of a rank-4 tensor.
    pub open spec fn at4(self, i: int, j: int, k: int, l: int) -> u32 {
        self.words[offset4(self.dims, seq![i, j, k, l])]
    }
}

/// The mathematical value of an attention mask: its dimensions, outermost
/// first, and its entries in row-major order; `true` marks a position
/// that attention must not look at.
pub struct MaskValue {
    pub dims: Seq<usize>,
    pub flags: Seq<bool>,
}

impl MaskValue {
    /// The value describes a rank-4 mask: four dimensions and one flag
    /// per position.
    pub open spec fn is_rank4(self) -> bool {
        self.dims.len() == 4 && self.flags.len() == volume4(self.dims)
    }

    /// The mask, broadcast to a larger tensor, forbids the position
    /// `index` of that tensor.
    pub open spec fn forbids(self, index: Seq<int>) -> bool {
        self.flags[offset4(self.dims, stretched(index, self.dims))]
    }
}

/// Number of elements of a rank-3 tensor.
pub open spec fn volume3(dims: Seq<usize>) -> int {
    dims[0] * dims[1] * dims[2]
}

/// Number of elements of a rank-4 tensor.
pub open spec fn volume4(dims: Seq<usize>) -> int {
    dims[0] * dims[1] * dims[2] * dims[3]
}

/// The largest number of 32-bit elements that one allocation can hold.
pub open spec fn max_elements() -> int {
    isize::MAX / 4
}

/// Rank-3 dimensions without an empty axis whose elements fit in memory.
pub open spec fn well_sized3(dims: Seq<usize>) -> bool {
    &&& dims.len() == 3
    &&& dims[0] > 0
    &&& dims[1] > 0
    &&& dims[2] > 0
    &&& volume3(dims) <= max_elements()
}

/// Rank-4 dimensions without an empty axis whose elements fit in memory.
pub open spec fn well_sized4(dims: Seq<usize>) -> bool {
    &&& dims.len() == 4
    &&& dims[0] > 0
    &&& dims[1] > 0
    &&& dims[2] > 0
    &&& dims[3] > 0
    &&& volume4(dims) <= max_elements()
}

/// `index` addresses an element of a rank-3 tensor with dimensions `dims`.
pub open spec fn within3(index: Seq<int>, dims: Seq<usize>) -> bool {
    &&& index.len() == 3
    &&& dims.len() == 3
    &&& 0 <= index[0] < dims[0]
    &&& 0 <= index[1] < dims[1]
    &&& 0 <= index[2] < dims[2]
}

/// `index` addresses an element of a rank-4 tensor with dimensions `dims`.
pub open spec fn within4(index: Seq<int>, dims: Seq<usize>) -> bool {
    &&& index.len() == 4
    &&& dims.len() == 4
    &&& 0 <= index[0] < dims[0]
    &&& 0 <= index[1] < dims[1]
    &&& 0 <= index[2] < dims[2]
    &&& 0 <= index[3] < dims[3]
}

/// Row-major position of the element at `index` in a rank-3 tensor.
pub open spec fn offset3(dims: Seq<usize>, index: Seq<int>) -> int {
    (index[0] * dims[1] + index[1]) * dims[2] + index[2]
}

/// Row-major position of the element at `index` in a rank-4 tensor.
pub open spec fn offset4(dims: Seq<usize>, index: Seq<int>) -> int {
    ((index[0] * dims[1] + index[1]) * dims[2] + index[2]) * dims[3] + index[3]
}

/// The index of the element at row-major position `k` of a rank-3 tensor.
pub open spec fn index3(dims: Seq<usize>, k: int) -> Seq<int> {
    let rows = k / (dims[2] as int);
    seq![rows / (dims[1] as int), rows % (dims[1] as int), k % (dims[2] as int)]
}

/// The index of the element at row-major position `k` of a rank-4 tensor.
pub open spec fn index4(dims: Seq<usize>, k: int) -> Seq<int> {
    let rows = k / (dims[3] as int);
    let planes = rows / (dims[2] as int);
    seq![
        planes / (dims[1] as int),
        planes % (dims[1] as int),
        rows % (dims[2] as int),
        k % (dims[3] as int),
    ]
}

/// The sequence `s` with the entries at positions `a` and `b` exchanged.
pub open spec fn exchanged<T>(s: Seq<T>, a: int, b: int) -> Seq<T> {
    s.update(a, s[b]).update(b, s[a])
}

/// The index at which a tensor with dimensions `dims` is read when it is
/// broadcast against a larger one and the larger one is read at `index`:
/// an axis of length one is always read at zero.
pub open spec fn stretched(index: Seq<int>, dims: Seq<usize>) -> Seq<int> {
    Seq::new(
        index.len(),
        |k: int|
            if dims[k] == 1 {
                0
            } else {
                index[k]
            },
    )
}

/// A tensor with dimensions `from` can be broadcast to dimensions `to`:
/// both have rank 4 and every axis of `from` has length one or the length
/// of the same axis of `to`.
pub open spec fn broadcastable4(from: Seq<usize>, to: Seq<usize>) -> bool {
    &&& from.len() == 4
    &&& to.len() == 4
    &&& forall|k: int| 0 <= k < 4 ==> from[k] == 1 || from[k] == #[trigger] to[k]
}

/// Decides whether rank-3 dimensions have no empty axis and few enough
/// elements to fit in memory.
pub fn is_well_sized3(dims: &[usize; 3]) -> (r: bool)
    ensures
        r == well_sized3(dims@),
{
    if dims[0] == 0 || dims[1] == 0 || dims[2] == 0 {
        return false;
    }
    let limit: usize = (isize::MAX as usize) / 4;
    proof {
        lemma_product_grows(dims[0] as int, dims[1] as int, dims[2] as int);
    }
    match dims[0].checked_mul(dims[1]) {
        None => false,
        Some(rows) => match rows.checked_mul(dims[2]) {
            None => false,
            Some(count) => count <= limit,
        },
    }
}

/// Decides whether rank-4 dimensions have no empty axis and few enough
/// elements to fit in memory.
pub fn is_well_sized4(dims: &[usize; 4]) -> (r: bool)
    ensures
        r == well_sized4(dims@),
{
    if dims[0] == 0 || dims[1] == 0 || dims[2] == 0 || dims[3] == 0 {
        return false;
    }
    let limit: usize = (isize::MAX as usize) / 4;
    proof {
        lemma_product_grows(dims[0] as int, dims[1] as int, dims[2] as int);
        lemma_product_grows(dims[0] * dims[1], dims[2] as int, dims[3] as int);
    }
    match dims[0].checked_mul(dims[1]) {
        None => false,
        Some(planes) => match planes.checked_mul(dims[2]) {
            None => false,
            Some(rows) => match rows.checked_mul(dims[3]) {
                None => false,
                Some(count) => count <= limit,
            },
        },
    }
}

/// Decides whether a tensor with dimensions `from` can be broadcast to
/// dimensions `to`.
pub fn is_broadcastable4(from: &[usize; 4], to: &[usize; 4]) -> (r: bool)
    ensures
        r == broadcastable4(from@, to@),
{
    let r = (from[0] == 1 || from[0] == to[0]) && (from[1] == 1 || from[1] == to[1]) && (from[2]
        == 1 || from[2] == to[2]) && (from[3] == 1 || from[3] == to[3]);
    proof {
        if r {
            assert forall|k: int| 0 <= k < 4 implies from@[k] == 1 || from@[k]
                == #[trigger] to@[k] by {
                assert(k == 0 || k == 1 || k == 2 || k == 3);
            }
        } else {
            assert(!(from@[0] == 1 || from@[0] == to@[0]) || !(from@[1] == 1 || from@[1] == to@[1])
                || !(from@[2] == 1 || from@[2] == to@[2]) || !(from@[3] == 1 || from@[3]
                == to@[3]));
        }
    }
    r
}

/// A product of positive factors is at least as large as the product of
/// its leading factors.
pub(crate) proof fn lemma_product_grows(a: int, b: int, c: int)
    requires
        a > 0,
        b > 0,
        c > 0,
    ensures
        a * b >= a,
        a * b * c >= a * b,
        a * b > 0,
        a * b * c > 0,
{
    assert(a * b >= a && a * b > 0) by (nonlinear_arith)
        requires
            a > 0,
            b > 0,
    ;
    assert(a * b * c >= a * b && a * b * c > 0) by (nonlinear_arith)
        requires
            a * b > 0,
            c > 0,
    ;
}

/// Splitting a position below `outer * inner` into quotient and remainder
/// by `inner` gives a quotient below `outer`.
pub(crate) proof fn lemma_split_position(outer: int, inner: int, k: int)
    requires
        inner > 0,
        0 <= k < outer * inner,
    ensures
        0 <= k / inner < outer,
        0 <= k % inner < inner,
        (k / inner) * inner + k % inner == k,
{
    vstd::arithmetic::div_mod::lemma_fundamental_div_mod(k, inner);
    vstd::arithmetic::div_mod::lemma_mod_pos_bound(k, inner);
    let q = k / inner;
    let r = k % inner;
    assert(0 <= q < outer) by (nonlinear_arith)
        requires
            inner > 0,
            0 <= r < inner,
            k == inner * q + r,
            0 <= k < outer * inner,
    ;
    assert(q * inner == inner * q) by (nonlinear_arith);
}

/// Place `inner_index` of row `outer_index` lies below the element count
/// of `outer` rows of `inner` places.
pub(crate) proof fn lemma_next_position(outer: int, inner: int, outer_index: int, inner_index: int)
    requires
        0 <= outer_index < outer,
        0 <= inner_index < inner,
    ensures
        0 <= outer_index * inner + inner_index < outer * inner,
{
    assert(0 <= outer_index * inner + inner_index < outer * inner) by (nonlinear_arith)
        requires
            0 <= outer_index < outer,
            0 <= inner_index < inner,
    ;
}

/// Every row-major position of a rank-3 tensor belongs to exactly the
/// index that [`index3`] gives: that index lies within the dimensions and
/// its offset is the position.
pub proof fn lemma_index3(dims: Seq<usize>, k: int)
    requires
        dims.len() == 3,
        0 <= k < volume3(dims),
    ensures
        within3(index3(dims, k), dims),
        offset3(dims, index3(dims, k)) == k,
{
    let d0 = dims[0] as int;
    let d1 = dims[1] as int;
    let d2 = dims[2] as int;
    assert(d0 > 0 && d1 > 0 && d2 > 0) by (nonlinear_arith)
        requires
            d0 >= 0,
            d1 >= 0,
            d2 >= 0,
            0 < d0 * d1 * d2,
    ;
    lemma_split_position(d0 * d1, d2, k);
    lemma_split_position(d0, d1, k / d2);
}

/// Every row-major position of a rank-4 tensor belongs to exactly the
/// index that [`index4`] gives: that index lies within the dimensions and
/// its offset is the position.
pub proof fn lemma_index4(dims: Seq<usize>, k: int)
    requires
        dims.len() == 4,
        0 <= k < volume4(dims),
    ensures
        within4(index4(dims, k), dims),
        offset4(dims, index4(dims, k)) == k,
{
    let d0 = dims[0] as int;
    let d1 = dims[1] as int;
    let d2 = dims[2] as int;
    let d3 = dims[3] as int;
    assert(d0 > 0 && d1 > 0 && d2 > 0 && d3 > 0) by (nonlinear_arith)
        requires
            d0 >= 0,
            d1 >= 0,
            d2 >= 0,
            d3 >= 0,
            0 < d0 * d1 * d2 * d3,
    ;
    lemma_split_position(d0 * d1 * d2, d3, k);
    lemma_split_position(d0 * d1, d2, k / d3);
    lemma_split_position(d0, d1, k / d3 / d2);
}

/// Every index within the dimensions of a rank-4 tensor has a row-major
/// position below the element count.
pub proof fn lemma_offset4_bound(dims: Seq<usize>, index: Seq<int>)
    requires
        within4(index, dims),
    ensures
        0 <= offset4(dims, index) < volume4(dims),
{
    let d0 = dims[0] as int;
    let d1 = dims[1] as int;
    let d2 = dims[2] as int;
    let d3 = dims[3] as int;
    lemma_next_position(d0, d1, index[0], index[1]);
    lemma_next_position(d0 * d1, d2, index[0] * d1 + index[1], index[2]);
    lemma_next_position(d0 * d1 * d2, d3, (index[0] * d1 + index[1]) * d2 + index[2], index[3]);
}

} // verus!
