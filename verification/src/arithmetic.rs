use crate::masking::NEGATIVE_INFINITY;
use crate::shape::{exchanged, offset4, within4, TensorValue};
use crate::tensor::{is_nan, rectified_word};
use crate::trusted::{is_filled, is_matrix_product, is_quotient, is_softmax, is_square_root};
use vstd::prelude::*;

verus! {

/// The bit pattern of the binary32 value positive infinity.
pub const POSITIVE_INFINITY: u32 = 0x7F80_0000;

/// The element at place `j` of the row along the last axis in which
/// `index` lies.
pub open spec fn row_word(dims: Seq<usize>, words: Seq<u32>, index: Seq<int>, j: int) -> u32 {
    words[offset4(dims, index.update(3, j))]
}

/// The row along the last axis in which `index` lies holds no NaN and no
/// positive infinity, and not only negative infinity: its greatest
/// element is a finite number.
pub open spec fn row_has_finite_maximum(
    dims: Seq<usize>,
    words: Seq<u32>,
    index: Seq<int>,
) -> bool {
    &&& forall|j: int|
        0 <= j < dims[3] ==> !is_nan(#[trigger] row_word(dims, words, index, j)) && row_word(
            dims,
            words,
            index,
            j,
        ) != POSITIVE_INFINITY
    &&& exists|j: int|
        0 <= j < dims[3] && #[trigger] row_word(dims, words, index, j) != NEGATIVE_INFINITY
}

/// `r` is `t` with its last two axes exchanged.
pub open spec fn is_transposed(t: TensorValue, r: TensorValue) -> bool {
    &&& r.dims == exchanged(t.dims, 2, 3)
    &&& r.words.len() == t.words.len()
    &&& forall|i: Seq<int>| #[trigger]
        within4(i, t.dims) ==> r.words[offset4(r.dims, exchanged(i, 2, 3))] == t.words[offset4(
            t.dims,
            i,
        )]
}

/// `r` is a matrix product of `lhs` and `rhs` over their last two axes,
/// batch entry by batch entry and head by head.
pub open spec fn is_product(lhs: TensorValue, rhs: TensorValue, r: TensorValue) -> bool {
    &&& r.dims == seq![lhs.dims[0], lhs.dims[1], lhs.dims[2], rhs.dims[3]]
    &&& r.is_rank4()
    &&& is_matrix_product(lhs.dims, lhs.words, rhs.dims, rhs.words, r.words)
}

/// `r` is the one-element tensor that holds the count `n`.
pub open spec fn is_constant(n: usize, r: TensorValue) -> bool {
    &&& r.dims == seq![1usize, 1usize, 1usize, 1usize]
    &&& r.words.len() == 1
    &&& is_filled(n, r.words)
}

/// `r` holds the square roots of the elements of `t`.
pub open spec fn is_root_of(t: TensorValue, r: TensorValue) -> bool {
    &&& r.dims == t.dims
    &&& r.words.len() == t.words.len()
    &&& is_square_root(t.words, r.words)
}

/// `r` holds the elements of `t` divided by those of `divisor`, which is
/// broadcast to `t`.
pub open spec fn is_quotient_of(t: TensorValue, divisor: TensorValue, r: TensorValue) -> bool {
    &&& r.dims == t.dims
    &&& r.words.len() == t.words.len()
    &&& is_quotient(t.dims, t.words, divisor.dims, divisor.words, r.words)
}

/// The steps by which `r` comes from `t` when every element is divided by
/// the square root of `n`: `count` holds `n`, `root` its square root, and
/// `r` the elements of `t` divided by `root`.
pub open spec fn scaling_steps(
    t: TensorValue,
    n: usize,
    count: TensorValue,
    root: TensorValue,
    r: TensorValue,
) -> bool {
    &&& is_constant(n, count)
    &&& is_root_of(count, root)
    &&& is_quotient_of(t, root, r)
}

/// `r` holds the elements of `t` divided by the square root of `n`.
pub open spec fn is_divided_by_sqrt(t: TensorValue, n: usize, r: TensorValue) -> bool {
    exists|count: TensorValue, root: TensorValue| #[trigger] scaling_steps(t, n, count, root, r)
}

/// `r` is a softmax of `t` along the last axis. Where a row of `t` has a
/// finite greatest element, every element of negative infinity in it
/// gets the weight zero.
pub open spec fn is_softmax_of(t: TensorValue, r: TensorValue) -> bool {
    &&& r.dims == t.dims
    &&& r.words.len() == t.words.len()
    &&& is_softmax(t.dims, t.words, 3, r.words)
    &&& forall|i: Seq<int>| #[trigger]
        within4(i, t.dims) && t.words[offset4(t.dims, i)] == NEGATIVE_INFINITY
            && row_has_finite_maximum(t.dims, t.words, i) ==> r.words[offset4(t.dims, i)] == 0
}

/// `r` is `x` with every negative element replaced by zero.
pub open spec fn is_rectified(x: TensorValue, r: TensorValue) -> bool {
    &&& r.dims == x.dims
    &&& r.words.len() == x.words.len()
    &&& forall|k: int|
        0 <= k < x.words.len() ==> #[trigger] r.words[k] == rectified_word(x.words[k])
}

} // verus!
