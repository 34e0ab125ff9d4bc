use crate::error::TransformerError;
use crate::heads::{
    is_merged_heads, is_split_heads, lemma_exact_quotient, lemma_regroup,
    lemma_transposed_volume, merge_from_heads, split_into_heads,
};
use crate::arithmetic::{
    is_divided_by_sqrt, is_product, is_rectified, is_softmax_of, is_transposed,
    row_has_finite_maximum, scaling_steps,
};
use crate::linear::{
    is_projected, is_sized, projection_sizes, value_of_linear, Linear, LinearValue,
};
use crate::masking::{
    dims_of_mask, is_masked, lemma_empty_mask_keeps_scores, mask_fits, mask_is_fit, masked,
    value_of_mask,
};
use crate::shape::{
    broadcastable4, is_well_sized3, is_well_sized4, offset4, well_sized3, well_sized4, within4,
    MaskValue, TensorValue,
};
use crate::tensor::{Mask, Tensor3, Tensor4};
use crate::trusted::{
    filled, linear_apply, linear_random, matrix_product, quotient, rectified, softmax_along,
    square_root, swap_axes,
};
use burn::backend::ndarray::NdArrayDevice;
use vstd::prelude::*;

verus! {

/// A model dimension and a head count from which an attention module can
/// be built: both positive, the head count dividing the model dimension,
/// and a square weight matrix of the model dimension fitting in memory.
pub open spec fn valid_head_split(model_dimension: usize, head_count: usize) -> bool {
    &&& head_count > 0
    &&& model_dimension % head_count == 0
    &&& projection_sizes(model_dimension, model_dimension)
}

/// `l` projects `d` features to `d` features.
pub open spec fn is_square(l: LinearValue, d: usize) -> bool {
    l.d_input == d && l.d_output == d
}

/// `l`, where there is one, projects `d` features to `d` features.
pub open spec fn is_square_or_absent(l: Option<LinearValue>, d: usize) -> bool {
    match l {
        Some(projection) => is_square(projection, d),
        None => true,
    }
}

/// The shapes of per-head queries, keys and values, and of a mask, that
/// attention with `heads` heads of `width` features can be computed on:
/// no empty axis; queries `[batch, heads, query_length, width]`; keys and
/// values `[batch, heads, key_length, width]`; scores `[batch, heads,
/// query_length, key_length]` that fit in memory; and a mask that can be
/// broadcast to the scores.
pub open spec fn attention_heads_fit(
    heads: usize,
    width: usize,
    query: Seq<usize>,
    key: Seq<usize>,
    value: Seq<usize>,
    mask: Option<Seq<usize>>,
) -> bool {
    &&& well_sized4(query)
    &&& well_sized4(key)
    &&& well_sized4(value)
    &&& query[1] == heads
    &&& query[3] == width
    &&& key[0] == query[0]
    &&& key[1] == heads
    &&& key[3] == width
    &&& value[0] == query[0]
    &&& value[1] == heads
    &&& value[2] == key[2]
    &&& value[3] == width
    &&& well_sized4(seq![query[0], heads, query[2], key[2]])
    &&& mask_fits(mask, seq![query[0], heads, query[2], key[2]])
}

/// The shapes of query, key and value inputs, and of a mask, that an
/// attention module of the given model dimension and head count accepts:
/// no empty axis; queries `[batch, query_length, model_dimension]`; keys
/// and values `[batch, key_length, model_dimension]`; scores `[batch,
/// heads, query_length, key_length]` that fit in memory; and a mask that
/// can be broadcast to the scores.
pub open spec fn attention_shapes_fit(
    model_dimension: usize,
    heads: usize,
    query: Seq<usize>,
    key: Seq<usize>,
    value: Seq<usize>,
    mask: Option<Seq<usize>>,
) -> bool {
    &&& well_sized3(query)
    &&& well_sized3(key)
    &&& well_sized3(value)
    &&& query[2] == model_dimension
    &&& key[0] == query[0]
    &&& key[2] == model_dimension
    &&& value[0] == query[0]
    &&& value[1] == key[1]
    &&& value[2] == model_dimension
    &&& well_sized4(seq![query[0], heads, query[1], key[1]])
    &&& mask_fits(mask, seq![query[0], heads, query[1], key[1]])
}

/// The steps of scaled dot-product attention with heads of `width`
/// features: `key_transposed` is the keys with their last two axes
/// exchanged; `scores` is a product of the queries and the transposed
/// keys; `scaled` is the scores divided by the square root of `width`;
/// `masked` is the scaled scores with negative infinity where the mask
/// forbids; `weights` is a softmax of the masked scores over the key
/// positions; and `context` is a product of the weights and the values.
pub open spec fn attention_steps(
    width: usize,
    query: TensorValue,
    key: TensorValue,
    value: TensorValue,
    mask: Option<MaskValue>,
    key_transposed: TensorValue,
    scores: TensorValue,
    scaled: TensorValue,
    masked: TensorValue,
    weights: TensorValue,
    context: TensorValue,
) -> bool {
    &&& is_transposed(key, key_transposed)
    &&& is_product(query, key_transposed, scores)
    &&& is_divided_by_sqrt(scores, width, scaled)
    &&& is_masked(scaled, mask, masked)
    &&& is_softmax_of(masked, weights)
    &&& is_product(weights, value, context)
}

/// `context` is an output of scaled dot-product attention, with heads of
/// `width` features, of the queries over the keys and values under the
/// mask.
pub open spec fn is_attention_of(
    width: usize,
    query: TensorValue,
    key: TensorValue,
    value: TensorValue,
    mask: Option<MaskValue>,
    context: TensorValue,
) -> bool {
    exists|
        key_transposed: TensorValue,
        scores: TensorValue,
        scaled: TensorValue,
        masked: TensorValue,
        weights: TensorValue,
    | #[trigger]
        attention_steps(
            width,
            query,
            key,
            value,
            mask,
            key_transposed,
            scores,
            scaled,
            masked,
            weights,
            context,
        )
}

/// A forbidden position gets no weight, whatever its score: where the
/// mask forbids a position, and the masked scores of its query have a
/// finite greatest element, the weight at the position is zero exactly.
pub proof fn lemma_forbidden_positions_get_no_weight(
    width: usize,
    query: TensorValue,
    key: TensorValue,
    value: TensorValue,
    mask: MaskValue,
    key_transposed: TensorValue,
    scores: TensorValue,
    scaled: TensorValue,
    masked: TensorValue,
    weights: TensorValue,
    context: TensorValue,
    index: Seq<int>,
)
    requires
        attention_steps(
            width,
            query,
            key,
            value,
            Some(mask),
            key_transposed,
            scores,
            scaled,
            masked,
            weights,
            context,
        ),
        within4(index, scaled.dims),
        mask.forbids(index),
        row_has_finite_maximum(masked.dims, masked.words, index),
    ensures
        weights.words[offset4(masked.dims, index)] == 0,
{
}

/// A mask that forbids nothing is as good as none: what attention gives
/// under it, attention without a mask can give.
pub proof fn lemma_empty_mask_is_no_mask(
    width: usize,
    query: TensorValue,
    key: TensorValue,
    value: TensorValue,
    mask: MaskValue,
    context: TensorValue,
)
    requires
        is_attention_of(width, query, key, value, Some(mask), context),
        mask.is_rank4(),
        broadcastable4(mask.dims, seq![query.dims[0], query.dims[1], query.dims[2], key.dims[2]]),
        key.dims.len() == 4,
        forall|k: int| 0 <= k < mask.flags.len() ==> !#[trigger] mask.flags[k],
    ensures
        is_attention_of(width, query, key, value, None, context),
{
    let (key_transposed, scores, scaled, masked, weights) = choose|
        key_transposed: TensorValue,
        scores: TensorValue,
        scaled: TensorValue,
        masked: TensorValue,
        weights: TensorValue,
    | #[trigger]
        attention_steps(
            width,
            query,
            key,
            value,
            Some(mask),
            key_transposed,
            scores,
            scaled,
            masked,
            weights,
            context,
        );
    assert(key_transposed.dims[3] == key.dims[2]);
    let (count, root) = choose|count: TensorValue, root: TensorValue| #[trigger]
        scaling_steps(scores, width, count, root, scaled);
    assert(scaled.dims =~= seq![query.dims[0], query.dims[1], query.dims[2], key.dims[2]]);
    lemma_empty_mask_keeps_scores(scaled, mask, masked);
    assert(attention_steps(
        width,
        query,
        key,
        value,
        None,
        key_transposed,
        scores,
        scaled,
        masked,
        weights,
        context,
    ));
}

/// `hidden` is what the output projection reads: the merged heads, or,
/// with an intermediate projection, the rectified projection of them.
pub open spec fn is_hidden(
    dense: Option<LinearValue>,
    merged: TensorValue,
    hidden: TensorValue,
) -> bool {
    match dense {
        None => hidden == merged,
        Some(l) => exists|projected: TensorValue| #[trigger]
            is_projected(l, merged, projected) && is_rectified(projected, hidden),
    }
}

/// The steps of multi-head attention: `query`, `key` and `value` are the
/// projections of the three inputs; `query_heads`, `key_heads` and
/// `value_heads` are their heads split; `context` is an output of scaled
/// dot-product attention on the heads; `merged` is the context with its
/// heads merged; `hidden` is what the output projection reads; and `r` is
/// the output projection of `hidden`.
pub open spec fn forward_steps(
    module: MultiHeadAttentionView,
    query_input: TensorValue,
    key_input: TensorValue,
    value_input: TensorValue,
    mask: Option<MaskValue>,
    query: TensorValue,
    key: TensorValue,
    value: TensorValue,
    query_heads: TensorValue,
    key_heads: TensorValue,
    value_heads: TensorValue,
    context: TensorValue,
    merged: TensorValue,
    hidden: TensorValue,
    r: TensorValue,
) -> bool {
    &&& is_projected(module.query, query_input, query)
    &&& is_projected(module.key, key_input, key)
    &&& is_projected(module.value, value_input, value)
    &&& is_split_heads(query, module.head_count, query_heads)
    &&& is_split_heads(key, module.head_count, key_heads)
    &&& is_split_heads(value, module.head_count, value_heads)
    &&& is_attention_of(
        module.head_dimension(),
        query_heads,
        key_heads,
        value_heads,
        mask,
        context,
    )
    &&& is_merged_heads(context, merged)
    &&& is_hidden(module.dense, merged, hidden)
    &&& is_projected(module.output, hidden, r)
}

/// `r` is an output of the attention module on the three inputs under
/// the mask.
pub open spec fn is_attention_output(
    module: MultiHeadAttentionView,
    query_input: TensorValue,
    key_input: TensorValue,
    value_input: TensorValue,
    mask: Option<MaskValue>,
    r: TensorValue,
) -> bool {
    exists|
        query: TensorValue,
        key: TensorValue,
        value: TensorValue,
        query_heads: TensorValue,
        key_heads: TensorValue,
        value_heads: TensorValue,
        context: TensorValue,
        merged: TensorValue,
        hidden: TensorValue,
    | #[trigger]
        forward_steps(
            module,
            query_input,
            key_input,
            value_input,
            mask,
            query,
            key,
            value,
            query_heads,
            key_heads,
            value_heads,
            context,
            merged,
            hidden,
            r,
        )
}

/// The value of an attention configuration.
pub struct MultiHeadAttentionConfigView {
    /// The number of features of every position.
    pub model_dimension: usize,
    /// The number of heads that share them.
    pub head_count: usize,
    /// Whether an intermediate projection with a rectifier stands before
    /// the output projection.
    pub dense: bool,
}

impl MultiHeadAttentionConfigView {
    /// The head count divides the model dimension, and the weights fit in
    /// memory.
    pub open spec fn wf(self) -> bool {
        valid_head_split(self.model_dimension, self.head_count)
    }

    /// The number of features that each head works on.
    pub open spec fn head_dimension(self) -> usize {
        (self.model_dimension / self.head_count) as usize
    }
}

/// What an attention module is built from: the model dimension, the
/// number of heads that share it, and whether an intermediate projection
/// with a rectifier stands before the output projection.
#[derive(Debug, Clone, Copy)]
pub struct MultiHeadAttentionConfig {
    model_dimension: usize,
    head_count: usize,
    dense: bool,
}

impl View for MultiHeadAttentionConfig {
    type V = MultiHeadAttentionConfigView;

    closed spec fn view(&self) -> MultiHeadAttentionConfigView {
        MultiHeadAttentionConfigView {
            model_dimension: self.model_dimension,
            head_count: self.head_count,
            dense: self.dense,
        }
    }
}

impl MultiHeadAttentionConfig {
    #[verifier::type_invariant]
    spec fn well_formed(&self) -> bool {
        self@.wf()
    }

    /// Checks a model dimension and a head count and keeps them; the
    /// modules built from the result have the intermediate projection.
    /// The combination is refused when the head count is zero or does not
    /// divide the model dimension, when the model dimension is zero, or
    /// when a square weight matrix of that dimension would not fit in
    /// memory.
    pub fn new(model_dimension: usize, head_count: usize) -> (r: Result<Self, TransformerError>)
        ensures
            r is Ok <==> valid_head_split(model_dimension, head_count),
            r is Err ==> r == Err::<Self, TransformerError>(TransformerError::ConfigurationError),
            r is Ok ==> r.unwrap()@ == (MultiHeadAttentionConfigView {
                model_dimension,
                head_count,
                dense: true,
            }),
    {
        if head_count == 0 || model_dimension % head_count != 0 {
            return Err(TransformerError::ConfigurationError);
        }
        if !is_well_sized3(&[1, model_dimension, model_dimension]) {
            return Err(TransformerError::ConfigurationError);
        }
        Ok(MultiHeadAttentionConfig { model_dimension, head_count, dense: true })
    }

    /// The same configuration with the intermediate projection and its
    /// rectifier switched on or off.
    pub fn with_dense(self, enabled: bool) -> (r: Self)
        ensures
            r@ == (MultiHeadAttentionConfigView { dense: enabled, ..self@ }),
    {
        proof {
            use_type_invariant(self);
        }
        MultiHeadAttentionConfig {
            model_dimension: self.model_dimension,
            head_count: self.head_count,
            dense: enabled,
        }
    }

    /// Whether modules built from the configuration have the
    /// intermediate projection.
    pub fn dense(&self) -> (r: bool)
        ensures
            r == self@.dense,
    {
        self.dense
    }

    /// The number of features of every position.
    pub fn model_dimension(&self) -> (r: usize)
        ensures
            r == self@.model_dimension,
            self@.wf(),
    {
        proof {
            use_type_invariant(self);
        }
        self.model_dimension
    }

    /// The number of heads.
    pub fn head_count(&self) -> (r: usize)
        ensures
            r == self@.head_count,
            self@.wf(),
    {
        proof {
            use_type_invariant(self);
        }
        self.head_count
    }

    /// The number of features that each head works on: the model
    /// dimension divided by the head count, without remainder.
    pub fn head_dimension(&self) -> (r: usize)
        ensures
            r == self@.head_dimension(),
            r * self@.head_count == self@.model_dimension,
            r > 0,
    {
        proof {
            use_type_invariant(self);
            lemma_exact_quotient(self.model_dimension as int, self.head_count as int);
        }
        self.model_dimension / self.head_count
    }

    /// Builds an attention module with freshly drawn parameters: query,
    /// key and value projections without bias, and the intermediate
    /// projection, where the configuration has one, and the output
    /// projection with bias, all from the model dimension to itself.
    pub fn init(&self, device: &NdArrayDevice) -> (r: MultiHeadAttention)
        ensures
            r@.wf(),
            r@.is_sized_by(self@),
    {
        proof {
            use_type_invariant(self);
        }
        let d = self.model_dimension;
        let dense = if self.dense {
            Some(linear_random(d, d, true, device))
        } else {
            None
        };
        MultiHeadAttention {
            model_dimension: d,
            head_dimension: self.head_dimension(),
            attention_head_count: self.head_count,
            query: linear_random(d, d, false, device),
            key: linear_random(d, d, false, device),
            value: linear_random(d, d, false, device),
            dense,
            output: linear_random(d, d, true, device),
        }
    }
}

/// The value of an attention module: its sizes and its projections.
pub struct MultiHeadAttentionView {
    /// The number of features of every position.
    pub model_dimension: usize,
    /// The number of heads that share them.
    pub head_count: usize,
    /// The projection of the query input.
    pub query: LinearValue,
    /// The projection of the key input.
    pub key: LinearValue,
    /// The projection of the value input.
    pub value: LinearValue,
    /// The intermediate projection, which a rectifier follows.
    pub dense: Option<LinearValue>,
    /// The output projection.
    pub output: LinearValue,
}

impl MultiHeadAttentionView {
    /// The head count divides the model dimension, and every projection
    /// maps the model dimension to itself.
    pub open spec fn wf(self) -> bool {
        &&& valid_head_split(self.model_dimension, self.head_count)
        &&& is_square(self.query, self.model_dimension)
        &&& is_square(self.key, self.model_dimension)
        &&& is_square(self.value, self.model_dimension)
        &&& is_square_or_absent(self.dense, self.model_dimension)
        &&& is_square(self.output, self.model_dimension)
    }

    /// The number of features that each head works on.
    pub open spec fn head_dimension(self) -> usize {
        (self.model_dimension / self.head_count) as usize
    }

    /// The module has the sizes of the configuration: its model dimension
    /// and head count; query, key and value projections without bias;
    /// the intermediate projection, with bias, exactly where the
    /// configuration has one; and the output projection with bias; every
    /// projection with one weight for every pair of features and one bias
    /// entry for every feature. Nothing is said of the values.
    pub open spec fn is_sized_by(self, config: MultiHeadAttentionConfigView) -> bool {
        let d = config.model_dimension;
        &&& self.model_dimension == d
        &&& self.head_count == config.head_count
        &&& self.dense is Some <==> config.dense
        &&& is_sized(self.query, d, d, false)
        &&& is_sized(self.key, d, d, false)
        &&& is_sized(self.value, d, d, false)
        &&& self.dense is Some ==> is_sized(self.dense.unwrap(), d, d, true)
        &&& is_sized(self.output, d, d, true)
    }

    /// The shapes whose heads the module can split: rank 3, no empty axis,
    /// few enough elements to fit in memory, and the model dimension on
    /// the last axis.
    pub open spec fn splits(self, dims: Seq<usize>) -> bool {
        well_sized3(dims) && dims[2] == self.model_dimension
    }

    /// The shapes whose heads the module can merge: rank 4, no empty axis,
    /// few enough elements to fit in memory, one head per head of the
    /// module, each with the head dimension on the last axis.
    pub open spec fn merges(self, dims: Seq<usize>) -> bool {
        &&& well_sized4(dims)
        &&& dims[1] == self.head_count
        &&& dims[3] == self.head_dimension()
    }

    /// The shapes of per-head queries, keys and values, and of a mask, on
    /// which the module computes scaled dot-product attention.
    pub open spec fn attends(
        self,
        query: Seq<usize>,
        key: Seq<usize>,
        value: Seq<usize>,
        mask: Option<Seq<usize>>,
    ) -> bool {
        attention_heads_fit(self.head_count, self.head_dimension(), query, key, value, mask)
    }

    /// The shapes of query, key and value inputs, and of a mask, that the
    /// module accepts.
    pub open spec fn takes(
        self,
        query: Seq<usize>,
        key: Seq<usize>,
        value: Seq<usize>,
        mask: Option<Seq<usize>>,
    ) -> bool {
        attention_shapes_fit(self.model_dimension, self.head_count, query, key, value, mask)
    }
}

/// Scaled dot-product attention over several heads, with its learned
/// projections: of the queries, the keys and the values before the
/// attention, and after it an optional intermediate projection, which a
/// rectifier follows, and the output projection.
pub struct MultiHeadAttention {
    model_dimension: usize,
    head_dimension: usize,
    attention_head_count: usize,
    query: Linear,
    key: Linear,
    value: Linear,
    dense: Option<Linear>,
    output: Linear,
}

impl View for MultiHeadAttention {
    type V = MultiHeadAttentionView;

    closed spec fn view(&self) -> MultiHeadAttentionView {
        MultiHeadAttentionView {
            model_dimension: self.model_dimension,
            head_count: self.attention_head_count,
            query: self.query@,
            key: self.key@,
            value: self.value@,
            dense: value_of_linear(self.dense),
            output: self.output@,
        }
    }
}

impl MultiHeadAttention {
    #[verifier::type_invariant]
    spec fn well_formed(&self) -> bool {
        self@.wf() && self.head_dimension == self@.head_dimension()
    }

    /// The number of features of every position.
    pub fn model_dimension(&self) -> (r: usize)
        ensures
            r == self@.model_dimension,
            self@.wf(),
    {
        proof {
            use_type_invariant(self);
        }
        self.model_dimension
    }

    /// The number of heads.
    pub fn head_count(&self) -> (r: usize)
        ensures
            r == self@.head_count,
            self@.wf(),
    {
        proof {
            use_type_invariant(self);
        }
        self.attention_head_count
    }

    /// The number of features that each head works on.
    pub fn head_dimension(&self) -> (r: usize)
        ensures
            r == self@.head_dimension(),
            r * self@.head_count == self@.model_dimension,
    {
        proof {
            use_type_invariant(self);
            lemma_exact_quotient(self.model_dimension as int, self.attention_head_count as int);
        }
        self.head_dimension
    }

    /// The projection of the query input.
    pub fn query(&self) -> (r: &Linear)
        ensures
            r@ == self@.query,
    {
        &self.query
    }

    /// The projection of the key input.
    pub fn key(&self) -> (r: &Linear)
        ensures
            r@ == self@.key,
    {
        &self.key
    }

    /// The projection of the value input.
    pub fn value(&self) -> (r: &Linear)
        ensures
            r@ == self@.value,
    {
        &self.value
    }

    /// The intermediate projection, which the rectifier follows, where
    /// the module has one.
    pub fn dense(&self) -> (r: Option<&Linear>)
        ensures
            r is Some <==> self@.dense is Some,
            r is Some ==> r.unwrap()@ == self@.dense.unwrap(),
    {
        self.dense.as_ref()
    }

    /// The output projection.
    pub fn output(&self) -> (r: &Linear)
        ensures
            r@ == self@.output,
    {
        &self.output
    }

    /// Builds an attention module from given projections. They are
    /// refused unless each maps the model dimension of the configuration
    /// to itself, and unless there is an intermediate projection exactly
    /// where the configuration has one.
    pub fn from_projections(
        config: &MultiHeadAttentionConfig,
        query: Linear,
        key: Linear,
        value: Linear,
        dense: Option<Linear>,
        output: Linear,
    ) -> (r: Result<Self, TransformerError>)
        ensures
            r is Ok <==> {
                &&& is_square(query@, config@.model_dimension)
                &&& is_square(key@, config@.model_dimension)
                &&& is_square(value@, config@.model_dimension)
                &&& is_square_or_absent(value_of_linear(dense), config@.model_dimension)
                &&& dense is Some <==> config@.dense
                &&& is_square(output@, config@.model_dimension)
            },
            r is Err ==> r == Err::<Self, TransformerError>(TransformerError::ConfigurationError),
            r is Ok ==> r.unwrap()@ == (MultiHeadAttentionView {
                model_dimension: config@.model_dimension,
                head_count: config@.head_count,
                query: query@,
                key: key@,
                value: value@,
                dense: value_of_linear(dense),
                output: output@,
            }),
    {
        let d = config.model_dimension();
        let dense_fits = match &dense {
            Some(projection) => config.dense() && fits_square(projection, d),
            None => !config.dense(),
        };
        if fits_square(&query, d) && fits_square(&key, d) && fits_square(&value, d) && dense_fits
            && fits_square(&output, d) {
            Ok(
                MultiHeadAttention {
                    model_dimension: d,
                    head_dimension: config.head_dimension(),
                    attention_head_count: config.head_count(),
                    query,
                    key,
                    value,
                    dense,
                    output,
                },
            )
        } else {
            Err(TransformerError::ConfigurationError)
        }
    }

    /// Deals the features of every position out to the heads: `[batch,
    /// length, model_dimension]` becomes `[batch, heads, length,
    /// head_dimension]`, no element changing its value.
    pub fn split_heads(&self, x: &Tensor3) -> (r: Result<Tensor4, TransformerError>)
        ensures
            r is Ok <==> self@.splits(x@.dims),
            r is Err ==> r == Err::<Tensor4, TransformerError>(TransformerError::ShapeMismatch),
            r is Ok ==> is_split_heads(x@, self@.head_count, r.unwrap()@),
            r is Ok ==> self@.merges(r.unwrap()@.dims),
    {
        proof {
            use_type_invariant(self);
            lemma_exact_quotient(self.model_dimension as int, self.attention_head_count as int);
        }
        let dims = x.dims();
        if is_well_sized3(&dims) && dims[2] == self.model_dimension {
            Ok(split_into_heads(x, self.attention_head_count, self.head_dimension))
        } else {
            Err(TransformerError::ShapeMismatch)
        }
    }

    /// Lays the heads of every position side by side: `[batch, heads,
    /// length, head_dimension]` becomes `[batch, length, model_dimension]`,
    /// no element changing its value. It undoes [`Self::split_heads`].
    pub fn merge_heads(&self, x: &Tensor4) -> (r: Result<Tensor3, TransformerError>)
        ensures
            r is Ok <==> self@.merges(x@.dims),
            r is Err ==> r == Err::<Tensor3, TransformerError>(TransformerError::ShapeMismatch),
            r is Ok ==> is_merged_heads(x@, r.unwrap()@),
            r is Ok ==> self@.splits(r.unwrap()@.dims),
    {
        proof {
            use_type_invariant(self);
            lemma_exact_quotient(self.model_dimension as int, self.attention_head_count as int);
            assert(self.attention_head_count * self.head_dimension == self.head_dimension
                * self.attention_head_count) by (nonlinear_arith);
        }
        let dims = x.dims();
        if is_well_sized4(&dims) && dims[1] == self.attention_head_count && dims[3]
            == self.head_dimension {
            Ok(merge_from_heads(x))
        } else {
            Err(TransformerError::ShapeMismatch)
        }
    }

    /// Scaled dot-product attention on per-head queries, keys and values:
    /// the scores `Q Kᵗ / sqrt(head_dimension)`, set to negative infinity
    /// where the mask forbids, are turned into weights by a softmax over
    /// the key positions, and the weights average the values. The result
    /// has the shape of the queries.
    pub fn scaled_dot_product_attention(
        &self,
        query: &Tensor4,
        key: &Tensor4,
        value: &Tensor4,
        mask: Option<&Mask>,
    ) -> (r: Result<Tensor4, TransformerError>)
        ensures
            r is Ok <==> self@.attends(query@.dims, key@.dims, value@.dims, dims_of_mask(mask)),
            r is Err ==> r == Err::<Tensor4, TransformerError>(TransformerError::ShapeMismatch),
            r is Ok ==> r.unwrap()@.dims == query@.dims && r.unwrap()@.is_rank4(),
            r is Ok ==> is_attention_of(
                self@.head_dimension(),
                query@,
                key@,
                value@,
                value_of_mask(mask),
                r.unwrap()@,
            ),
    {
        proof {
            use_type_invariant(self);
        }
        let q = query.dims();
        let k = key.dims();
        let v = value.dims();
        let heads = self.attention_head_count;
        let width = self.head_dimension;
        let fit = is_well_sized4(&q) && is_well_sized4(&k) && is_well_sized4(&v) && q[1] == heads
            && q[3] == width && k[0] == q[0] && k[1] == heads && k[3] == width && v[0] == q[0]
            && v[1] == heads && v[2] == k[2] && v[3] == width && is_well_sized4(
            &[q[0], heads, q[2], k[2]],
        ) && mask_is_fit(mask, &[q[0], heads, q[2], k[2]]);
        if fit {
            Ok(self.attend(query, key, value, mask))
        } else {
            Err(TransformerError::ShapeMismatch)
        }
    }

    /// Decides whether [`Self::forward`] accepts inputs of these shapes.
    pub fn accepts(
        &self,
        query_input: &Tensor3,
        key_input: &Tensor3,
        value_input: &Tensor3,
        mask: Option<&Mask>,
    ) -> (r: bool)
        ensures
            r == self@.takes(
                query_input@.dims,
                key_input@.dims,
                value_input@.dims,
                dims_of_mask(mask),
            ),
    {
        let q = query_input.dims();
        let k = key_input.dims();
        let v = value_input.dims();
        let d = self.model_dimension;
        let heads = self.attention_head_count;
        is_well_sized3(&q) && is_well_sized3(&k) && is_well_sized3(&v) && q[2] == d && k[0] == q[0]
            && k[2] == d && v[0] == q[0] && v[1] == k[1] && v[2] == d && is_well_sized4(
            &[q[0], heads, q[1], k[1]],
        ) && mask_is_fit(mask, &[q[0], heads, q[1], k[1]])
    }

    /// Multi-head attention of the queries over the keys and values: the
    /// three inputs are projected, their heads split, scaled dot-product
    /// attention computed per head, the heads merged, and the result sent
    /// through the intermediate projection and its rectifier, where the
    /// module has them, and through the output projection. Shapes are
    /// checked before any arithmetic; the result has the shape of the
    /// query input.
    pub fn forward(
        &self,
        query_input: &Tensor3,
        key_input: &Tensor3,
        value_input: &Tensor3,
        mask: Option<&Mask>,
    ) -> (r: Result<Tensor3, TransformerError>)
        ensures
            r is Ok <==> self@.takes(
                query_input@.dims,
                key_input@.dims,
                value_input@.dims,
                dims_of_mask(mask),
            ),
            r is Err ==> r == Err::<Tensor3, TransformerError>(TransformerError::ShapeMismatch),
            r is Ok ==> r.unwrap()@.dims == query_input@.dims && r.unwrap()@.is_rank3(),
            r is Ok ==> is_attention_output(
                self@,
                query_input@,
                key_input@,
                value_input@,
                value_of_mask(mask),
                r.unwrap()@,
            ),
    {
        proof {
            use_type_invariant(self);
        }
        if !self.accepts(query_input, key_input, value_input, mask) {
            return Err(TransformerError::ShapeMismatch);
        }
        let heads = self.attention_head_count;
        let width = self.head_dimension;
        proof {
            lemma_exact_quotient(self.model_dimension as int, heads as int);
            assert(heads * width == width * heads) by (nonlinear_arith);
        }
        let query = linear_apply(&self.query, query_input);
        let key = linear_apply(&self.key, key_input);
        let value = linear_apply(&self.value, value_input);
        let query_heads = split_into_heads(&query, heads, width);
        let key_heads = split_into_heads(&key, heads, width);
        let value_heads = split_into_heads(&value, heads, width);
        let context = self.attend(&query_heads, &key_heads, &value_heads, mask);
        let merged = merge_from_heads(&context);
        let ghost joined = merged@;
        let hidden = match &self.dense {
            Some(dense) => {
                let projected = linear_apply(dense, &merged);
                let hidden = rectified(&projected);
                assert(is_projected(dense@, joined, projected@) && is_rectified(
                    projected@,
                    hidden@,
                ));
                hidden
            },
            None => merged,
        };
        let output = linear_apply(&self.output, &hidden);
        assert(output@.dims =~= query_input@.dims);
        assert(forward_steps(
            self@,
            query_input@,
            key_input@,
            value_input@,
            value_of_mask(mask),
            query@,
            key@,
            value@,
            query_heads@,
            key_heads@,
            value_heads@,
            context@,
            joined,
            hidden@,
            output@,
        ));
        Ok(output)
    }

    fn attend(&self, query: &Tensor4, key: &Tensor4, value: &Tensor4, mask: Option<&Mask>) -> (r:
        Tensor4)
        requires
            self@.attends(query@.dims, key@.dims, value@.dims, dims_of_mask(mask)),
        ensures
            r@.dims == query@.dims,
            r@.is_rank4(),
            is_attention_of(
                self@.head_dimension(),
                query@,
                key@,
                value@,
                value_of_mask(mask),
                r@,
            ),
    {
        proof {
            use_type_invariant(self);
        }
        let k = key.dims();
        proof {
            lemma_regroup(k[0] as int, k[1] as int, k[2] as int, k[3] as int);
            lemma_transposed_volume(k[0] as int, k[1] as int, k[2] as int, k[3] as int);
        }
        let key_transposed = swap_axes(key, 2, 3);
        assert(key_transposed@.dims =~= seq![k[0], k[1], k[3], k[2]]);
        let scores = matrix_product(query, &key_transposed);
        let count = filled([1, 1, 1, 1], self.head_dimension);
        let root = square_root(&count);
        assert(broadcastable4(root@.dims, scores@.dims));
        let scaled = quotient(&scores, &root);
        let ghost divided = scaled@;
        assert(scaling_steps(scores@, self.head_dimension, count@, root@, divided));
        let forbidden = masked(scaled, mask);
        let weights = softmax_along(&forbidden, 3);
        let r = matrix_product(&weights, value);
        assert(r@.dims =~= query@.dims);
        assert(attention_steps(
            self.head_dimension,
            query@,
            key@,
            value@,
            value_of_mask(mask),
            key_transposed@,
            scores@,
            divided,
            forbidden@,
            weights@,
            r@,
        ));
        r
    }
}

/// Whether a projection maps `d` features to `d` features.
fn fits_square(l: &Linear, d: usize) -> (r: bool)
    ensures
        r == is_square(l@, d),
{
    l.d_input() == d && l.d_output() == d
}

} // verus!
