use crate::error::TransformerError;
use crate::shape::{
    broadcastable4, index4, is_broadcastable4, is_well_sized4, lemma_index4, lemma_offset4_bound,
    offset4, stretched, well_sized4, within4, MaskValue, TensorValue,
};
use crate::tensor::{Mask, Tensor4};
use crate::trusted::fill_masked;
use vstd::prelude::*;

verus! {

/// The bit pattern of the binary32 value negative infinity, which scores
/// at forbidden positions are set to before the softmax.
pub const NEGATIVE_INFINITY: u32 = 0xFF80_0000;

/// The value of a mask, where there is one.
pub open spec fn value_of_mask(mask: Option<&Mask>) -> Option<MaskValue> {
    match mask {
        Some(m) => Some(m@),
        None => None,
    }
}

/// The dimensions of a mask, where there is one.
pub open spec fn dims_of_mask(mask: Option<&Mask>) -> Option<Seq<usize>> {
    match mask {
        Some(m) => Some(m@.dims),
        None => None,
    }
}

/// A mask with the given dimensions, where there is one, can be broadcast
/// to scores with dimensions `scores`.
pub open spec fn mask_fits(mask: Option<Seq<usize>>, scores: Seq<usize>) -> bool {
    match mask {
        Some(m) => broadcastable4(m, scores),
        None => true,
    }
}

/// What masking makes of one score: negative infinity where the position
/// is forbidden, the score itself where it is not.
pub open spec fn masked_word(score: u32, forbidden: bool) -> u32 {
    if forbidden {
        NEGATIVE_INFINITY
    } else {
        score
    }
}

/// `masked` is `scores` with negative infinity at every position that the
/// mask forbids and with the score of `scores` at every other position.
/// Without a mask it is `scores`.
pub open spec fn is_masked(
    scores: TensorValue,
    mask: Option<MaskValue>,
    masked: TensorValue,
) -> bool {
    match mask {
        None => masked == scores,
        Some(m) => {
            &&& masked.dims == scores.dims
            &&& masked.words.len() == scores.words.len()
            &&& forall|i: Seq<int>| #[trigger]
                within4(i, scores.dims) ==> masked.words[offset4(scores.dims, i)] == masked_word(
                    scores.words[offset4(scores.dims, i)],
                    m.forbids(i),
                )
        },
    }
}

/// A position that the mask forbids holds negative infinity after
/// masking, whatever score it held before.
pub proof fn lemma_forbidden_scores_are_negative_infinity(
    scores: TensorValue,
    mask: MaskValue,
    masked: TensorValue,
    index: Seq<int>,
)
    requires
        is_masked(scores, Some(mask), masked),
        within4(index, scores.dims),
        mask.forbids(index),
    ensures
        masked.words[offset4(scores.dims, index)] == NEGATIVE_INFINITY,
{
}

/// A position that the mask permits holds after masking the score that it
/// held before.
pub proof fn lemma_permitted_scores_are_kept(
    scores: TensorValue,
    mask: MaskValue,
    masked: TensorValue,
    index: Seq<int>,
)
    requires
        is_masked(scores, Some(mask), masked),
        within4(index, scores.dims),
        !mask.forbids(index),
    ensures
        masked.words[offset4(scores.dims, index)] == scores.words[offset4(scores.dims, index)],
{
}

/// A mask that forbids nothing changes nothing: masking with it gives the
/// scores back, element for element.
pub proof fn lemma_empty_mask_keeps_scores(
    scores: TensorValue,
    mask: MaskValue,
    masked: TensorValue,
)
    requires
        scores.is_rank4(),
        mask.is_rank4(),
        broadcastable4(mask.dims, scores.dims),
        forall|k: int| 0 <= k < mask.flags.len() ==> !#[trigger] mask.flags[k],
        is_masked(scores, Some(mask), masked),
    ensures
        masked == scores,
{
    assert forall|k: int| 0 <= k < scores.words.len() implies masked.words[k]
        == scores.words[k] by {
        lemma_index4(scores.dims, k);
        let i = index4(scores.dims, k);
        let j = stretched(i, mask.dims);
        assert(within4(j, mask.dims)) by {
            assert(mask.dims[0] == 1 || mask.dims[0] == scores.dims[0]);
            assert(mask.dims[1] == 1 || mask.dims[1] == scores.dims[1]);
            assert(mask.dims[2] == 1 || mask.dims[2] == scores.dims[2]);
            assert(mask.dims[3] == 1 || mask.dims[3] == scores.dims[3]);
        }
        lemma_offset4_bound(mask.dims, j);
        assert(!mask.forbids(i));
    }
    assert(masked.words =~= scores.words);
}

/// Sets the scores at the positions that the mask forbids to negative
/// infinity, so that the softmax gives them no weight, and leaves the
/// other scores as they are. The mask is broadcast to the scores; scores
/// with an empty axis and a mask that cannot be broadcast to them are
/// refused.
pub fn apply_mask(scores: Tensor4, mask: Option<&Mask>) -> (r: Result<Tensor4, TransformerError>)
    ensures
        r is Ok <==> well_sized4(scores@.dims) && mask_fits(dims_of_mask(mask), scores@.dims),
        r is Err ==> r == Err::<Tensor4, TransformerError>(TransformerError::ShapeMismatch),
        r is Ok ==> is_masked(scores@, value_of_mask(mask), r.unwrap()@),
{
    let dims = scores.dims();
    if is_well_sized4(&dims) && mask_is_fit(mask, &dims) {
        Ok(masked(scores, mask))
    } else {
        Err(TransformerError::ShapeMismatch)
    }
}

pub(crate) fn masked(scores: Tensor4, mask: Option<&Mask>) -> (r: Tensor4)
    requires
        well_sized4(scores@.dims),
        mask_fits(dims_of_mask(mask), scores@.dims),
    ensures
        is_masked(scores@, value_of_mask(mask), r@),
{
    match mask {
        None => scores,
        Some(m) => fill_masked(&scores, m, NEGATIVE_INFINITY),
    }
}

/// `mask` is the causal mask for sequences of `length` positions: a mask
/// `[1, 1, length, length]` that forbids a query position exactly the key
/// positions after it.
pub open spec fn is_causal(mask: MaskValue, length: usize) -> bool {
    &&& mask.is_rank4()
    &&& mask.dims == seq![1usize, 1usize, length, length]
    &&& forall|q: int, k: int|
        0 <= q < length && 0 <= k < length ==> #[trigger] mask.flags[q * length + k] == (k > q)
}

/// `mask` is the padding mask for a batch of sequences with the given
/// lengths, padded to `length` positions: a mask `[batch, 1, 1, length]`
/// that forbids, in every sequence, exactly the key positions from its
/// own length on.
pub open spec fn is_padding(mask: MaskValue, lengths: Seq<usize>, length: usize) -> bool {
    &&& mask.is_rank4()
    &&& mask.dims == seq![lengths.len() as usize, 1usize, 1usize, length]
    &&& forall|b: int, k: int|
        0 <= b < lengths.len() && 0 <= k < length ==> #[trigger] mask.flags[b * length + k] == (k
            >= lengths[b])
}

/// Broadcast to scores `[batch, heads, length, length]`, a causal mask
/// forbids the position of query `q` and key `k` exactly when `k` comes
/// after `q`, in every batch entry and every head.
pub proof fn lemma_causal_forbids_later_keys(
    mask: MaskValue,
    length: usize,
    scores: Seq<usize>,
    index: Seq<int>,
)
    requires
        is_causal(mask, length),
        scores.len() == 4,
        scores[2] == length,
        scores[3] == length,
        within4(index, scores),
    ensures
        mask.forbids(index) == (index[3] > index[2]),
{
    let j = stretched(index, mask.dims);
    assert(j[0] == 0 && j[1] == 0 && j[2] == index[2] && j[3] == index[3]);
    assert(offset4(mask.dims, j) == index[2] * length + index[3]) by (nonlinear_arith)
        requires
            j[0] == 0,
            j[1] == 0,
            j[2] == index[2],
            j[3] == index[3],
            mask.dims[1] == 1,
            mask.dims[2] == length,
            mask.dims[3] == length,
            offset4(mask.dims, j) == ((j[0] * mask.dims[1] + j[1]) * mask.dims[2] + j[2])
                * mask.dims[3] + j[3],
    ;
}

/// Broadcast to scores `[batch, heads, query_length, length]`, a padding
/// mask forbids the position of key `k` in batch entry `b` exactly when
/// `k` is not below the length of sequence `b`, for every head and every
/// query.
pub proof fn lemma_padding_forbids_padded_keys(
    mask: MaskValue,
    lengths: Seq<usize>,
    length: usize,
    scores: Seq<usize>,
    index: Seq<int>,
)
    requires
        is_padding(mask, lengths, length),
        scores.len() == 4,
        scores[0] == lengths.len(),
        scores[3] == length,
        within4(index, scores),
    ensures
        mask.forbids(index) == (index[3] >= lengths[index[0]]),
{
    let j = stretched(index, mask.dims);
    assert(j[0] == index[0] && j[1] == 0 && j[2] == 0 && j[3] == index[3]);
    assert(offset4(mask.dims, j) == index[0] * length + index[3]) by (nonlinear_arith)
        requires
            j[0] == index[0],
            j[1] == 0,
            j[2] == 0,
            j[3] == index[3],
            mask.dims[1] == 1,
            mask.dims[2] == 1,
            mask.dims[3] == length,
            offset4(mask.dims, j) == ((j[0] * mask.dims[1] + j[1]) * mask.dims[2] + j[2])
                * mask.dims[3] + j[3],
    ;
}

impl Mask {
    /// The causal mask for sequences of `length` positions, which keeps
    /// every position from attending to a later one. There is none for an
    /// empty sequence, nor when the mask would not fit in memory.
    pub fn causal(length: usize) -> (r: Option<Mask>)
        ensures
            r is Some <==> well_sized4(seq![1usize, 1usize, length, length]),
            r is Some ==> is_causal(r.unwrap()@, length),
    {
        if !is_well_sized4(&[1, 1, length, length]) {
            return None;
        }
        assert(1 * 1 * length * length == length * length) by (nonlinear_arith);
        let mut flags: Vec<bool> = Vec::new();
        let mut q: usize = 0;
        while q < length
            invariant
                0 < length,
                length * length <= usize::MAX,
                q <= length,
                flags.len() == q * length,
                forall|i: int, k: int|
                    0 <= i < q && 0 <= k < length ==> #[trigger] flags@[i * length + k] == (k > i),
            decreases length - q,
        {
            let mut k: usize = 0;
            while k < length
                invariant
                    0 < length,
                    length * length <= usize::MAX,
                    q < length,
                    k <= length,
                    flags.len() == q * length + k,
                    forall|i: int, j: int|
                        0 <= i < q && 0 <= j < length ==> #[trigger] flags@[i * length + j] == (j
                            > i),
                    forall|j: int| 0 <= j < k ==> #[trigger] flags@[q * length + j] == (j > q),
                decreases length - k,
            {
                proof {
                    lemma_row_places(q as int, length as int);
                }
                flags.push(k > q);
                k += 1;
            }
            proof {
                lemma_next_row(q as int, length as int);
                assert forall|i: int, j: int| 0 <= i < q + 1 && 0 <= j < length implies (
                #[trigger] flags@[i * length + j]) == (j > i) by {
                    if i == q {
                        assert(flags@[q * length + j] == (j > q));
                    }
                }
            }
            q += 1;
        }
        Mask::from_flags([1, 1, length, length], flags)
    }

    /// The padding mask for a batch of sequences with the given lengths,
    /// padded to `length` positions, which keeps every position from
    /// attending to padding. There is none for an empty batch or for
    /// `length` zero, nor when the mask would not fit in memory.
    pub fn padding(lengths: &Vec<usize>, length: usize) -> (r: Option<Mask>)
        ensures
            r is Some <==> well_sized4(seq![lengths.len() as usize, 1usize, 1usize, length]),
            r is Some ==> is_padding(r.unwrap()@, lengths@, length),
    {
        let batch = lengths.len();
        if !is_well_sized4(&[batch, 1, 1, length]) {
            return None;
        }
        assert(batch * 1 * 1 * length == batch * length) by (nonlinear_arith);
        let mut flags: Vec<bool> = Vec::new();
        let mut b: usize = 0;
        while b < batch
            invariant
                0 < length,
                batch == lengths.len(),
                batch * length <= usize::MAX,
                b <= batch,
                flags.len() == b * length,
                forall|i: int, k: int|
                    0 <= i < b && 0 <= k < length ==> #[trigger] flags@[i * length + k] == (k
                        >= lengths[i]),
            decreases batch - b,
        {
            let own = lengths[b];
            let mut k: usize = 0;
            while k < length
                invariant
                    0 < length,
                    batch == lengths.len(),
                    batch * length <= usize::MAX,
                    b < batch,
                    k <= length,
                    own == lengths[b as int],
                    flags.len() == b * length + k,
                    forall|i: int, j: int|
                        0 <= i < b && 0 <= j < length ==> #[trigger] flags@[i * length + j] == (j
                            >= lengths[i]),
                    forall|j: int| 0 <= j < k ==> #[trigger] flags@[b * length + j] == (j >= own),
                decreases length - k,
            {
                proof {
                    lemma_row_places(b as int, length as int);
                }
                flags.push(k >= own);
                k += 1;
            }
            proof {
                lemma_next_row(b as int, length as int);
                assert forall|i: int, j: int| 0 <= i < b + 1 && 0 <= j < length implies (
                #[trigger] flags@[i * length + j]) == (j >= lengths[i]) by {
                    if i == b {
                        assert(flags@[b * length + j] == (j >= own));
                    }
                }
            }
            b += 1;
        }
        Mask::from_flags([batch, 1, 1, length], flags)
    }
}

/// Every place of a row before row `row` comes before the first place of
/// row `row`.
proof fn lemma_row_places(row: int, length: int)
    requires
        0 <= row,
        0 < length,
    ensures
        forall|i: int, j: int|
            0 <= i < row && 0 <= j < length ==> #[trigger] (i * length + j) < row * length,
{
    assert forall|i: int, j: int| 0 <= i < row && 0 <= j < length implies #[trigger] (i * length
        + j) < row * length by {
        assert(i * length + j < row * length) by (nonlinear_arith)
            requires
                0 <= i < row,
                0 <= j < length,
        ;
    }
}

/// Row `row + 1` begins where row `row` ends.
proof fn lemma_next_row(row: int, length: int)
    ensures
        (row + 1) * length == row * length + length,
{
    assert((row + 1) * length == row * length + length) by (nonlinear_arith);
}

/// Whether a mask, where there is one, can be broadcast to scores with
/// the given dimensions.
pub(crate) fn mask_is_fit(mask: Option<&Mask>, scores: &[usize; 4]) -> (r: bool)
    ensures
        r == mask_fits(dims_of_mask(mask), scores@),
{
    match mask {
        None => true,
        Some(m) => {
            let dims = m.dims();
            is_broadcastable4(&dims, scores)
        },
    }
}

} // verus!
