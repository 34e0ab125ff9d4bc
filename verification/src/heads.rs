use crate::shape::{
    exchanged, index3, index4, lemma_index3, lemma_index4, lemma_split_position, offset3, offset4,
    well_sized3, well_sized4, within4, TensorValue,
};
use crate::tensor::{Tensor3, Tensor4};
use crate::trusted::{reshape_to_rank3, reshape_to_rank4, swap_axes};
use vstd::prelude::*;

verus! {

/// `split` is `x`, a tensor `[batch, length, features]`, with the features
/// of every position dealt out to `heads` heads: a tensor `[batch, heads,
/// length, features / heads]` in which head `h` holds, for every position,
/// the features `h * width .. (h + 1) * width` of `x` in their order.
pub open spec fn is_split_heads(x: TensorValue, heads: usize, split: TensorValue) -> bool {
    let width = x.dims[2] as int / heads as int;
    &&& split.is_rank4()
    &&& split.dims == seq![x.dims[0], heads, x.dims[1], width as usize]
    &&& forall|b: int, h: int, l: int, d: int|
        0 <= b < x.dims[0] && 0 <= h < heads && 0 <= l < x.dims[1] && 0 <= d < width
            ==> #[trigger] split.at4(b, h, l, d) == x.at3(b, l, h * width + d)
}

/// `merged` is `x`, a tensor `[batch, heads, length, width]`, with the
/// heads of every position laid side by side: a tensor `[batch, length,
/// heads * width]` in which the features `h * width .. (h + 1) * width` of
/// a position are what head `h` holds for it.
pub open spec fn is_merged_heads(x: TensorValue, merged: TensorValue) -> bool {
    &&& merged.is_rank3()
    &&& merged.dims == seq![x.dims[0], x.dims[2], (x.dims[1] * x.dims[3]) as usize]
    &&& forall|b: int, h: int, l: int, d: int|
        0 <= b < x.dims[0] && 0 <= h < x.dims[1] && 0 <= l < x.dims[2] && 0 <= d < x.dims[3]
            ==> merged.at3(b, l, h * x.dims[3] + d) == #[trigger] x.at4(b, h, l, d)
}

/// Merging the heads undoes splitting them: for every tensor `x` of shape
/// `[batch, length, features]` and every head count that divides
/// `features`, the merge of the split of `x` is `x`, element for element.
pub proof fn lemma_merge_inverts_split(
    x: TensorValue,
    heads: usize,
    split: TensorValue,
    merged: TensorValue,
)
    requires
        x.is_rank3(),
        heads > 0,
        x.dims[2] % heads == 0,
        is_split_heads(x, heads, split),
        is_merged_heads(split, merged),
    ensures
        merged == x,
{
    let width = x.dims[2] as int / heads as int;
    vstd::arithmetic::div_mod::lemma_fundamental_div_mod(x.dims[2] as int, heads as int);
    assert(heads * width == x.dims[2]);
    assert(merged.dims =~= x.dims);
    assert(merged.words.len() == x.words.len());
    assert forall|k: int| 0 <= k < x.words.len() implies merged.words[k] == x.words[k] by {
        lemma_index3(x.dims, k);
        let i = index3(x.dims, k);
        let b = i[0];
        let l = i[1];
        let c = i[2];
        assert(offset3(x.dims, seq![b, l, c]) == k);
        lemma_feature_position(heads as int, width, c);
        let h = c / width;
        let d = c % width;
        assert(split.at4(b, h, l, d) == x.at3(b, l, h * width + d));
        assert(merged.at3(b, l, h * split.dims[3] + d) == split.at4(b, h, l, d));
        assert(offset3(merged.dims, seq![b, l, c]) == k);
    }
    assert(merged.words =~= x.words);
}

/// Splitting the heads undoes merging them: for every tensor `x` of shape
/// `[batch, heads, length, width]` without an empty axis, the split of the
/// merge of `x` into as many heads is `x`, element for element.
pub proof fn lemma_split_inverts_merge(x: TensorValue, merged: TensorValue, split: TensorValue)
    requires
        x.is_rank4(),
        x.dims[1] > 0,
        x.dims[3] > 0,
        x.dims[1] * x.dims[3] <= usize::MAX,
        is_merged_heads(x, merged),
        is_split_heads(merged, x.dims[1], split),
    ensures
        split == x,
{
    let heads = x.dims[1] as int;
    let width = x.dims[3] as int;
    assert(merged.dims[2] as int / heads == width) by {
        vstd::arithmetic::div_mod::lemma_div_multiples_vanish(width, heads);
        assert(heads * width == width * heads) by (nonlinear_arith);
    }
    assert(split.dims =~= x.dims);
    assert(split.words.len() == x.words.len());
    assert forall|k: int| 0 <= k < x.words.len() implies split.words[k] == x.words[k] by {
        lemma_index4(x.dims, k);
        let i = index4(x.dims, k);
        assert(offset4(x.dims, seq![i[0], i[1], i[2], i[3]]) == k);
        assert(merged.at3(i[0], i[2], i[1] * width + i[3]) == x.at4(i[0], i[1], i[2], i[3]));
        assert(split.at4(i[0], i[1], i[2], i[3]) == merged.at3(i[0], i[2], i[1] * width + i[3]));
        assert(offset4(split.dims, seq![i[0], i[1], i[2], i[3]]) == k);
    }
    assert(split.words =~= x.words);
}

/// A feature below `heads * width` lies in head `c / width` at place
/// `c % width`.
proof fn lemma_feature_position(heads: int, width: int, c: int)
    requires
        heads > 0,
        0 <= c < heads * width,
    ensures
        width > 0,
        0 <= c / width < heads,
        0 <= c % width < width,
        (c / width) * width + c % width == c,
{
    assert(width > 0) by (nonlinear_arith)
        requires
            heads > 0,
            0 < heads * width,
    ;
    lemma_split_position(heads, width, c);
}

/// A positive dividend that its divisor divides is the divisor times a
/// positive quotient.
pub(crate) proof fn lemma_exact_quotient(n: int, d: int)
    requires
        n > 0,
        d > 0,
        n % d == 0,
    ensures
        (n / d) * d == n,
        n / d > 0,
{
    vstd::arithmetic::div_mod::lemma_fundamental_div_mod(n, d);
    assert((n / d) * d == d * (n / d)) by (nonlinear_arith);
    assert(n / d > 0) by (nonlinear_arith)
        requires
            d > 0,
            n > 0,
            d * (n / d) == n,
    ;
}

/// The element count of `[a, b, c, d]` is that of `[a, b, c * d]` and that
/// of `[a, c, b, d]`.
pub(crate) proof fn lemma_regroup(a: int, b: int, c: int, d: int)
    ensures
        a * b * c * d == a * b * (c * d),
        a * b * c * d == a * c * b * d,
{
    assert(a * b * c * d == a * b * (c * d)) by (nonlinear_arith);
    assert(a * b * c * d == a * c * b * d) by (nonlinear_arith);
}

/// Exchanging the last two axes keeps the element count.
pub(crate) proof fn lemma_transposed_volume(a: int, b: int, c: int, d: int)
    ensures
        a * b * d * c == a * b * c * d,
{
    assert(a * b * d * c == a * b * c * d) by (nonlinear_arith);
}

/// Feature `d` of head `h` at position `l` of batch entry `b` has one
/// row-major place, whether the features are grouped by head or not.
proof fn lemma_feature_offset(length: int, heads: int, width: int, b: int, l: int, h: int, d: int)
    ensures
        ((b * length + l) * heads + h) * width + d == (b * length + l) * (heads * width) + (h
            * width + d),
{
    assert(((b * length + l) * heads + h) * width + d == (b * length + l) * (heads * width) + (h
        * width + d)) by (nonlinear_arith);
}

/// Among positive axis lengths, the features of all heads together are
/// at least one and at most as many as the elements.
proof fn lemma_merged_width(batch: int, length: int, heads: int, width: int)
    requires
        batch > 0,
        length > 0,
        heads > 0,
        width > 0,
    ensures
        0 < heads * width <= batch * length * (heads * width),
{
    assert(0 < heads * width <= batch * length * (heads * width)) by (nonlinear_arith)
        requires
            batch > 0,
            length > 0,
            heads > 0,
            width > 0,
    ;
}

/// Deals the features of every position out to `heads` heads of `width`
/// features each.
pub(crate) fn split_into_heads(x: &Tensor3, heads: usize, width: usize) -> (r: Tensor4)
    requires
        well_sized3(x@.dims),
        heads > 0,
        x@.dims[2] % heads == 0,
        width == x@.dims[2] / heads,
    ensures
        is_split_heads(x@, heads, r@),
        well_sized4(r@.dims),
{
    let dims = x.dims();
    proof {
        lemma_exact_quotient(dims[2] as int, heads as int);
        lemma_regroup(dims[0] as int, dims[1] as int, heads as int, width as int);
    }
    let grouped = reshape_to_rank4(x, [dims[0], dims[1], heads, width]);
    let r = swap_axes(&grouped, 1, 2);
    proof {
        let gd = grouped@.dims;
        assert(r@.dims =~= seq![dims[0], heads, dims[1], width]);
        lemma_regroup(dims[0] as int, heads as int, dims[1] as int, width as int);
        assert forall|b: int, h: int, l: int, d: int|
            0 <= b < dims[0] && 0 <= h < heads && 0 <= l < dims[1] && 0 <= d < width implies (
            #[trigger] r@.at4(b, h, l, d)) == x@.at3(b, l, h * width + d) by {
            let i = seq![b, l, h, d];
            assert(within4(i, gd));
            assert(exchanged(i, 1, 2) =~= seq![b, h, l, d]);
            lemma_feature_offset(dims[1] as int, heads as int, width as int, b, l, h, d);
        }
    }
    r
}

/// Lays the heads of every position side by side.
pub(crate) fn merge_from_heads(x: &Tensor4) -> (r: Tensor3)
    requires
        well_sized4(x@.dims),
    ensures
        is_merged_heads(x@, r@),
        well_sized3(r@.dims),
{
    let dims = x.dims();
    proof {
        lemma_regroup(dims[0] as int, dims[2] as int, dims[1] as int, dims[3] as int);
        lemma_merged_width(dims[0] as int, dims[2] as int, dims[1] as int, dims[3] as int);
    }
    let regrouped = swap_axes(x, 1, 2);
    assert(regrouped@.dims =~= seq![dims[0], dims[2], dims[1], dims[3]]);
    let r = reshape_to_rank3(&regrouped, [dims[0], dims[2], dims[1] * dims[3]]);
    proof {
        assert forall|b: int, h: int, l: int, d: int|
            0 <= b < dims[0] && 0 <= h < dims[1] && 0 <= l < dims[2] && 0 <= d < dims[3] implies
            r@.at3(b, l, h * dims[3] + d) == #[trigger] x@.at4(b, h, l, d) by {
            let i = seq![b, h, l, d];
            assert(within4(i, x@.dims));
            assert(exchanged(i, 1, 2) =~= seq![b, l, h, d]);
            lemma_feature_offset(dims[2] as int, dims[1] as int, dims[3] as int, b, l, h, d);
        }
    }
    r
}

} // verus!
