use crate::error::TransformerError;
use crate::masking::dims_of_mask;
use crate::linear::is_sized;
use crate::masking::value_of_mask;
use crate::multi_head_attention::{
    is_attention_output, valid_head_split, MultiHeadAttention, MultiHeadAttentionConfig,
    MultiHeadAttentionConfigView, MultiHeadAttentionView,
};
use crate::norm::{Normalization, NormalizationValue};
use crate::shape::{is_well_sized3, lemma_product_grows, well_sized3, MaskValue, TensorValue};
use crate::sublayer::{
    close_sublayer, is_closed, is_fed_forward, FeedForward, FeedForwardView,
};
use crate::tensor::is_elementwise_sum;
use crate::tensor::{Mask, Tensor3};
use crate::trusted::{drop_out_copy, linear_random};
use burn::backend::ndarray::NdArrayDevice;
use burn::nn::Dropout;
use vstd::prelude::*;

verus! {

/// The value of an encoder layer's configuration.
pub struct EncoderLayerConfigView {
    /// The number of features of every position.
    pub model_dimension: usize,
    /// The number of attention heads.
    pub head_count: usize,
    /// The dropout module.
    pub drop_out: Dropout,
    /// Whether the residual sums are layer-normalized.
    pub normalize: bool,
}

/// What an encoder layer is built from: the model dimension, the number
/// of attention heads, the dropout module, and whether the residual sums
/// are normalized.
pub struct EncoderLayerConfig {
    attention: MultiHeadAttentionConfig,
    drop_out: Dropout,
    normalize: bool,
}

impl View for EncoderLayerConfig {
    type V = EncoderLayerConfigView;

    closed spec fn view(&self) -> EncoderLayerConfigView {
        EncoderLayerConfigView {
            model_dimension: self.attention@.model_dimension,
            head_count: self.attention@.head_count,
            drop_out: self.drop_out,
            normalize: self.normalize,
        }
    }
}

impl EncoderLayerConfig {
    #[verifier::type_invariant]
    spec fn well_formed(&self) -> bool {
        self.attention@.dense
    }

    /// Checks a model dimension and a head count and keeps them with the
    /// dropout module; the layers built from the result normalize their
    /// residual sums. The combination is refused where
    /// [`MultiHeadAttentionConfig::new`] refuses it.
    pub fn new(model_dimension: usize, head_count: usize, drop_out: Dropout) -> (r: Result<
        Self,
        TransformerError,
    >)
        ensures
            r is Ok <==> valid_head_split(model_dimension, head_count),
            r is Err ==> r == Err::<Self, TransformerError>(TransformerError::ConfigurationError),
            r is Ok ==> r.unwrap()@ == (EncoderLayerConfigView {
                model_dimension,
                head_count,
                drop_out,
                normalize: true,
            }),
    {
        match MultiHeadAttentionConfig::new(model_dimension, head_count) {
            Ok(attention) => Ok(EncoderLayerConfig { attention, drop_out, normalize: true }),
            Err(e) => Err(e),
        }
    }

    /// The same configuration with layer normalization switched on or
    /// off. Switched off, a layer passes its residual sums on as they are.
    pub fn with_normalization(self, enabled: bool) -> (r: Self)
        ensures
            r@ == (EncoderLayerConfigView { normalize: enabled, ..self@ }),
    {
        proof {
            use_type_invariant(&self);
        }
        EncoderLayerConfig {
            attention: self.attention,
            drop_out: self.drop_out,
            normalize: enabled,
        }
    }

    /// The number of features of every position.
    pub fn model_dimension(&self) -> (r: usize)
        ensures
            r == self@.model_dimension,
            valid_head_split(self@.model_dimension, self@.head_count),
    {
        self.attention.model_dimension()
    }

    /// The number of attention heads.
    pub fn head_count(&self) -> (r: usize)
        ensures
            r == self@.head_count,
            valid_head_split(self@.model_dimension, self@.head_count),
    {
        self.attention.head_count()
    }

    /// Whether layers built from the configuration normalize their
    /// residual sums.
    pub fn normalize(&self) -> (r: bool)
        ensures
            r == self@.normalize,
    {
        self.normalize
    }

    /// The dropout module.
    pub fn drop_out(&self) -> (r: &Dropout)
        ensures
            *r == self@.drop_out,
    {
        &self.drop_out
    }

    /// Builds an encoder layer with freshly drawn parameters: an
    /// attention module with the intermediate projection, a feed-forward
    /// network whose projections map the model dimension to itself, and,
    /// where the configuration normalizes, layer normalizations with
    /// scale one and shift zero.
    pub fn init(&self, device: &NdArrayDevice) -> (r: EncoderLayer)
        ensures
            r@.wf(),
            r@.self_attention.is_sized_by(
                MultiHeadAttentionConfigView {
                    model_dimension: self@.model_dimension,
                    head_count: self@.head_count,
                    dense: true,
                },
            ),
            is_sized(r@.feed_forward.first, self@.model_dimension, self@.model_dimension, true),
            is_sized(r@.feed_forward.second, self@.model_dimension, self@.model_dimension, true),
            self@.normalize ==> r@.self_attention_norm.is_fresh(self@.model_dimension)
                && r@.linear_norm.is_fresh(self@.model_dimension),
            !self@.normalize ==> r@.self_attention_norm is Identity && r@.linear_norm is Identity,
            r@.drop_out == self@.drop_out,
    {
        proof {
            use_type_invariant(self);
        }
        let d = self.attention.model_dimension();
        proof {
            lemma_product_grows(d as int, d as int, 1);
        }
        let first = linear_random(d, d, true, device);
        let second = linear_random(d, d, true, device);
        EncoderLayer {
            self_attention: self.attention.init(device),
            self_attention_norm: Normalization::for_width(self.normalize, d, device),
            feed_forward: FeedForward::joined(first, second),
            linear_norm: Normalization::for_width(self.normalize, d, device),
            drop_out: drop_out_copy(&self.drop_out),
        }
    }
}

/// The value of an encoder layer: its modules.
pub struct EncoderLayerView {
    /// The self-attention module.
    pub self_attention: MultiHeadAttentionView,
    /// The normalization that closes the self-attention.
    pub self_attention_norm: NormalizationValue,
    /// The feed-forward network.
    pub feed_forward: FeedForwardView,
    /// The normalization that closes the feed-forward network.
    pub linear_norm: NormalizationValue,
    /// The dropout module.
    pub drop_out: Dropout,
}

impl EncoderLayerView {
    /// The modules are well-formed, and the normalizations and the
    /// feed-forward network work on the model dimension of the attention
    /// module.
    pub open spec fn wf(self) -> bool {
        &&& self.self_attention.wf()
        &&& self.feed_forward.wf()
        &&& self.self_attention_norm.fits(self.self_attention.model_dimension)
        &&& self.linear_norm.fits(self.self_attention.model_dimension)
        &&& self.feed_forward.d_input() == self.self_attention.model_dimension
        &&& self.feed_forward.d_output() == self.self_attention.model_dimension
    }

    /// The shapes of an input and of a mask that the layer accepts: those
    /// that its self-attention accepts with the input as queries, keys and
    /// values, and on which the intermediate value of the feed-forward
    /// network fits in memory.
    pub open spec fn takes(self, x: Seq<usize>, mask: Option<Seq<usize>>) -> bool {
        &&& self.self_attention.takes(x, x, x, mask)
        &&& well_sized3(seq![x[0], x[1], self.feed_forward.d_hidden()])
    }
}

/// The steps of an encoder layer on `x`: `attention` is an output of the
/// self-attention of `x` over itself under the mask; `attended` closes
/// that sublayer on its input `x`; `transformed` is an output of the
/// feed-forward network on `attended`; and `r` closes that sublayer on
/// its input `attended`.
pub open spec fn encoder_steps(
    layer: EncoderLayerView,
    x: TensorValue,
    mask: Option<MaskValue>,
    attention: TensorValue,
    attended: TensorValue,
    transformed: TensorValue,
    r: TensorValue,
) -> bool {
    &&& is_attention_output(layer.self_attention, x, x, x, mask, attention)
    &&& is_closed(layer.self_attention_norm, x, attention, attended)
    &&& is_fed_forward(layer.feed_forward, attended, transformed)
    &&& is_closed(layer.linear_norm, attended, transformed, r)
}

/// `r` is an output of the encoder layer on `x` under the mask.
pub open spec fn is_encoded(
    layer: EncoderLayerView,
    x: TensorValue,
    mask: Option<MaskValue>,
    r: TensorValue,
) -> bool {
    exists|attention: TensorValue, attended: TensorValue, transformed: TensorValue| #[trigger]
        encoder_steps(layer, x, mask, attention, attended, transformed, r)
}

/// Without normalizations, the output of an encoder layer is exactly the
/// feed-forward residual: `attended` is the sum of the input and the
/// attention output, and the output is the sum of `attended` and what
/// the feed-forward network makes of it.
pub proof fn lemma_unnormalized_encoder(
    layer: EncoderLayerView,
    x: TensorValue,
    mask: Option<MaskValue>,
    attention: TensorValue,
    attended: TensorValue,
    transformed: TensorValue,
    r: TensorValue,
)
    requires
        layer.self_attention_norm is Identity,
        layer.linear_norm is Identity,
        encoder_steps(layer, x, mask, attention, attended, transformed, r),
    ensures
        is_elementwise_sum(x.words, attention.words, attended.words),
        is_elementwise_sum(attended.words, transformed.words, r.words),
{
}

/// One block of a transformer encoder: self-attention and a feed-forward
/// network, each closed by dropout, a residual sum with the sublayer's
/// own input, and a normalization.
pub struct EncoderLayer {
    self_attention: MultiHeadAttention,
    self_attention_norm: Normalization,
    feed_forward: FeedForward,
    linear_norm: Normalization,
    drop_out: Dropout,
}

impl View for EncoderLayer {
    type V = EncoderLayerView;

    closed spec fn view(&self) -> EncoderLayerView {
        EncoderLayerView {
            self_attention: self.self_attention@,
            self_attention_norm: self.self_attention_norm@,
            feed_forward: self.feed_forward@,
            linear_norm: self.linear_norm@,
            drop_out: self.drop_out,
        }
    }
}

impl EncoderLayer {
    #[verifier::type_invariant]
    spec fn well_formed(&self) -> bool {
        self@.wf()
    }

    /// Puts a layer together from its parts. They are refused unless the
    /// normalizations and the feed-forward network work on the model
    /// dimension of the attention module.
    pub fn from_parts(
        self_attention: MultiHeadAttention,
        self_attention_norm: Normalization,
        feed_forward: FeedForward,
        linear_norm: Normalization,
        drop_out: Dropout,
    ) -> (r: Result<Self, TransformerError>)
        ensures
            r is Ok <==> {
                &&& self_attention_norm@.fits(self_attention@.model_dimension)
                &&& linear_norm@.fits(self_attention@.model_dimension)
                &&& feed_forward@.d_input() == self_attention@.model_dimension
                &&& feed_forward@.d_output() == self_attention@.model_dimension
            },
            r is Err ==> r == Err::<Self, TransformerError>(TransformerError::ConfigurationError),
            r is Ok ==> r.unwrap()@ == (EncoderLayerView {
                self_attention: self_attention@,
                self_attention_norm: self_attention_norm@,
                feed_forward: feed_forward@,
                linear_norm: linear_norm@,
                drop_out,
            }),
    {
        let d = self_attention.model_dimension();
        if self_attention_norm.is_fit(d) && linear_norm.is_fit(d) && feed_forward.d_input() == d
            && feed_forward.d_output() == d {
            Ok(
                EncoderLayer {
                    self_attention,
                    self_attention_norm,
                    feed_forward,
                    linear_norm,
                    drop_out,
                },
            )
        } else {
            Err(TransformerError::ConfigurationError)
        }
    }

    /// The self-attention module.
    pub fn self_attention(&self) -> (r: &MultiHeadAttention)
        ensures
            r@ == self@.self_attention,
            self@.wf(),
    {
        proof {
            use_type_invariant(self);
        }
        &self.self_attention
    }

    /// The first normalization, which closes the self-attention.
    pub fn self_attention_norm(&self) -> (r: &Normalization)
        ensures
            r@ == self@.self_attention_norm,
    {
        &self.self_attention_norm
    }

    /// The feed-forward network.
    pub fn feed_forward(&self) -> (r: &FeedForward)
        ensures
            r@ == self@.feed_forward,
    {
        &self.feed_forward
    }

    /// The second normalization, which closes the feed-forward network.
    pub fn linear_norm(&self) -> (r: &Normalization)
        ensures
            r@ == self@.linear_norm,
    {
        &self.linear_norm
    }

    /// The dropout module.
    pub fn drop_out(&self) -> (r: &Dropout)
        ensures
            *r == self@.drop_out,
    {
        &self.drop_out
    }

    /// Decides whether [`Self::forward_masked`] accepts an input and a
    /// mask of these shapes.
    pub fn accepts(&self, x: &Tensor3, mask: Option<&Mask>) -> (r: bool)
        ensures
            r == self@.takes(x@.dims, dims_of_mask(mask)),
    {
        let dims = x.dims();
        self.self_attention.accepts(x, x, x, mask) && is_well_sized3(
            &[dims[0], dims[1], self.feed_forward.d_hidden()],
        )
    }

    /// Applies the layer to `x`, a tensor `[batch, length,
    /// model_dimension]`, without a mask. The result has the shape of `x`.
    pub fn forward(&self, x: &Tensor3) -> (r: Result<Tensor3, TransformerError>)
        ensures
            r is Ok <==> self@.takes(x@.dims, None),
            r is Err ==> r == Err::<Tensor3, TransformerError>(TransformerError::ShapeMismatch),
            r is Ok ==> r.unwrap()@.dims == x@.dims && r.unwrap()@.is_rank3(),
            r is Ok ==> is_encoded(self@, x@, None, r.unwrap()@),
    {
        self.forward_masked(x, None)
    }

    /// Applies the layer to `x`, a tensor `[batch, length,
    /// model_dimension]`: self-attention of `x` over itself under the
    /// mask, dropout, the sum with `x`, the first normalization; then the
    /// feed-forward network on that value, dropout, the sum with that
    /// value, the second normalization. Shapes are checked before any
    /// arithmetic; the result has the shape of `x`.
    pub fn forward_masked(&self, x: &Tensor3, mask: Option<&Mask>) -> (r: Result<
        Tensor3,
        TransformerError,
    >)
        ensures
            r is Ok <==> self@.takes(x@.dims, dims_of_mask(mask)),
            r is Err ==> r == Err::<Tensor3, TransformerError>(TransformerError::ShapeMismatch),
            r is Ok ==> r.unwrap()@.dims == x@.dims && r.unwrap()@.is_rank3(),
            r is Ok ==> is_encoded(self@, x@, value_of_mask(mask), r.unwrap()@),
    {
        proof {
            use_type_invariant(self);
        }
        if !self.accepts(x, mask) {
            return Err(TransformerError::ShapeMismatch);
        }
        let attention = match self.self_attention.forward(x, x, x, mask) {
            Ok(attention) => attention,
            Err(e) => {
                return Err(e);
            },
        };
        let ghost attention_value = attention@;
        let attended = close_sublayer(&self.self_attention_norm, &self.drop_out, x, attention);
        let transformed = self.feed_forward.apply(&attended);
        let ghost transformed_value = transformed@;
        assert(transformed@.dims =~= attended@.dims);
        let r = close_sublayer(&self.linear_norm, &self.drop_out, &attended, transformed);
        assert(encoder_steps(
            self@,
            x@,
            value_of_mask(mask),
            attention_value,
            attended@,
            transformed_value,
            r@,
        ));
        Ok(r)
    }
}

} // verus!
