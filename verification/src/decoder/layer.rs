use crate::error::TransformerError;
use crate::masking::dims_of_mask;
use crate::linear::is_sized;
use crate::masking::value_of_mask;
use crate::multi_head_attention::{
    is_attention_output, valid_head_split, MultiHeadAttention, MultiHeadAttentionConfig,
    MultiHeadAttentionConfigView, MultiHeadAttentionView,
};
use crate::norm::{Normalization, NormalizationValue};
use crate::shape::{is_well_sized3, lemma_product_grows, well_sized3, MaskValue, TensorValue};
use crate::sublayer::{
    close_sublayer, is_closed, is_fed_forward, FeedForward, FeedForwardView,
};
use crate::tensor::is_elementwise_sum;
use crate::tensor::{Mask, Tensor3};
use crate::trusted::{drop_out_copy, linear_random};
use burn::backend::ndarray::NdArrayDevice;
use burn::nn::Dropout;
use vstd::prelude::*;

verus! {

/// The value of a decoder layer's configuration.
pub struct DecoderLayerConfigView {
    /// The number of features of every position.
    pub model_dimension: usize,
    /// The number of attention heads.
    pub head_count: usize,
    /// The dropout module.
    pub drop_out: Dropout,
    /// Whether the residual sums are layer-normalized.
    pub normalize: bool,
}

/// What a decoder layer is built from: the model dimension, the number of
/// attention heads, the dropout module, and whether the residual sums are
/// normalized.
pub struct DecoderLayerConfig {
    attention: MultiHeadAttentionConfig,
    drop_out: Dropout,
    normalize: bool,
}

impl View for DecoderLayerConfig {
    type V = DecoderLayerConfigView;

    closed spec fn view(&self) -> DecoderLayerConfigView {
        DecoderLayerConfigView {
            model_dimension: self.attention@.model_dimension,
            head_count: self.attention@.head_count,
            drop_out: self.drop_out,
            normalize: self.normalize,
        }
    }
}

impl DecoderLayerConfig {
    #[verifier::type_invariant]
    spec fn well_formed(&self) -> bool {
        self.attention@.dense
    }

    /// Checks a model dimension and a head count and keeps them with the
    /// dropout module; the layers built from the result normalize their
    /// residual sums. The combination is refused where
    /// [`MultiHeadAttentionConfig::new`] refuses it.
    pub fn new(model_dimension: usize, head_count: usize, drop_out: Dropout) -> (r: Result<
        Self,
        TransformerError,
    >)
        ensures
            r is Ok <==> valid_head_split(model_dimension, head_count),
            r is Err ==> r == Err::<Self, TransformerError>(TransformerError::ConfigurationError),
            r is Ok ==> r.unwrap()@ == (DecoderLayerConfigView {
                model_dimension,
                head_count,
                drop_out,
                normalize: true,
            }),
    {
        match MultiHeadAttentionConfig::new(model_dimension, head_count) {
            Ok(attention) => Ok(DecoderLayerConfig { attention, drop_out, normalize: true }),
            Err(e) => Err(e),
        }
    }

    /// The same configuration with layer normalization switched on or
    /// off. Switched off, a layer passes its residual sums on as they are.
    pub fn with_normalization(self, enabled: bool) -> (r: Self)
        ensures
            r@ == (DecoderLayerConfigView { normalize: enabled, ..self@ }),
    {
        proof {
            use_type_invariant(&self);
        }
        DecoderLayerConfig {
            attention: self.attention,
            drop_out: self.drop_out,
            normalize: enabled,
        }
    }

    /// The number of features of every position.
    pub fn model_dimension(&self) -> (r: usize)
        ensures
            r == self@.model_dimension,
            valid_head_split(self@.model_dimension, self@.head_count),
    {
        self.attention.model_dimension()
    }

    /// The number of attention heads.
    pub fn head_count(&self) -> (r: usize)
        ensures
            r == self@.head_count,
            valid_head_split(self@.model_dimension, self@.head_count),
    {
        self.attention.head_count()
    }

    /// Whether layers built from the configuration normalize their
    /// residual sums.
    pub fn normalize(&self) -> (r: bool)
        ensures
            r == self@.normalize,
    {
        self.normalize
    }

    /// The dropout module.
    pub fn drop_out(&self) -> (r: &Dropout)
        ensures
            *r == self@.drop_out,
    {
        &self.drop_out
    }

    /// Builds a decoder layer with freshly drawn parameters: two
    /// attention modules with the intermediate projection, a feed-forward
    /// network whose projections map the model dimension to itself, and,
    /// where the configuration normalizes, layer normalizations with
    /// scale one and shift zero.
    pub fn init(&self, device: &NdArrayDevice) -> (r: DecoderLayer)
        ensures
            r@.wf(),
            r@.self_attention.is_sized_by(
                MultiHeadAttentionConfigView {
                    model_dimension: self@.model_dimension,
                    head_count: self@.head_count,
                    dense: true,
                },
            ),
            r@.cross_attention.is_sized_by(
                MultiHeadAttentionConfigView {
                    model_dimension: self@.model_dimension,
                    head_count: self@.head_count,
                    dense: true,
                },
            ),
            is_sized(r@.feed_forward.first, self@.model_dimension, self@.model_dimension, true),
            is_sized(r@.feed_forward.second, self@.model_dimension, self@.model_dimension, true),
            self@.normalize ==> r@.self_attention_norm.is_fresh(self@.model_dimension)
                && r@.cross_attention_norm.is_fresh(self@.model_dimension)
                && r@.linear_norm.is_fresh(self@.model_dimension),
            !self@.normalize ==> r@.self_attention_norm is Identity && r@.cross_attention_norm
                is Identity && r@.linear_norm is Identity,
            r@.drop_out == self@.drop_out,
    {
        proof {
            use_type_invariant(self);
        }
        let d = self.attention.model_dimension();
        proof {
            lemma_product_grows(d as int, d as int, 1);
        }
        let first = linear_random(d, d, true, device);
        let second = linear_random(d, d, true, device);
        DecoderLayer {
            self_attention: self.attention.init(device),
            self_attention_norm: Normalization::for_width(self.normalize, d, device),
            cross_attention: self.attention.init(device),
            cross_attention_norm: Normalization::for_width(self.normalize, d, device),
            feed_forward: FeedForward::joined(first, second),
            linear_norm: Normalization::for_width(self.normalize, d, device),
            drop_out: drop_out_copy(&self.drop_out),
        }
    }
}

/// The value of a decoder layer: its modules.
pub struct DecoderLayerView {
    /// The self-attention module.
    pub self_attention: MultiHeadAttentionView,
    /// The normalization that closes the self-attention.
    pub self_attention_norm: NormalizationValue,
    /// The cross-attention module.
    pub cross_attention: MultiHeadAttentionView,
    /// The normalization that closes the cross-attention.
    pub cross_attention_norm: NormalizationValue,
    /// The feed-forward network.
    pub feed_forward: FeedForwardView,
    /// The normalization that closes the feed-forward network.
    pub linear_norm: NormalizationValue,
    /// The dropout module.
    pub drop_out: Dropout,
}

impl DecoderLayerView {
    /// The modules are well-formed, the two attention modules have the
    /// same sizes, and the normalizations and the feed-forward network
    /// work on their model dimension.
    pub open spec fn wf(self) -> bool {
        &&& self.self_attention.wf()
        &&& self.cross_attention.wf()
        &&& self.feed_forward.wf()
        &&& self.cross_attention.model_dimension == self.self_attention.model_dimension
        &&& self.cross_attention.head_count == self.self_attention.head_count
        &&& self.self_attention_norm.fits(self.self_attention.model_dimension)
        &&& self.cross_attention_norm.fits(self.self_attention.model_dimension)
        &&& self.linear_norm.fits(self.self_attention.model_dimension)
        &&& self.feed_forward.d_input() == self.self_attention.model_dimension
        &&& self.feed_forward.d_output() == self.self_attention.model_dimension
    }

    /// The shapes of an input, of the encoder's output and of a mask that
    /// the layer accepts: those that its self-attention accepts with the
    /// input as queries, keys and values under the mask, that its
    /// cross-attention accepts with queries of the input's shape and the
    /// encoder's output as keys and values, and on which the intermediate
    /// value of the feed-forward network fits in memory.
    pub open spec fn takes(
        self,
        x: Seq<usize>,
        encoder_output: Seq<usize>,
        mask: Option<Seq<usize>>,
    ) -> bool {
        &&& self.self_attention.takes(x, x, x, mask)
        &&& self.cross_attention.takes(x, encoder_output, encoder_output, None)
        &&& well_sized3(seq![x[0], x[1], self.feed_forward.d_hidden()])
    }
}

/// The steps of a decoder layer on `x` and the encoder's output:
/// `attention` is an output of the self-attention of `x` over itself
/// under the mask; `attended` closes that sublayer on its input `x`;
/// `crossed` is an output of the cross-attention of `attended` over the
/// encoder's output, without a mask; `informed` closes that sublayer on
/// its input `attended`; `transformed` is an output of the feed-forward
/// network on `informed`; and `r` closes that sublayer on its input
/// `informed`.
pub open spec fn decoder_steps(
    layer: DecoderLayerView,
    x: TensorValue,
    encoder_output: TensorValue,
    mask: Option<MaskValue>,
    attention: TensorValue,
    attended: TensorValue,
    crossed: TensorValue,
    informed: TensorValue,
    transformed: TensorValue,
    r: TensorValue,
) -> bool {
    &&& is_attention_output(layer.self_attention, x, x, x, mask, attention)
    &&& is_closed(layer.self_attention_norm, x, attention, attended)
    &&& is_attention_output(
        layer.cross_attention,
        attended,
        encoder_output,
        encoder_output,
        None,
        crossed,
    )
    &&& is_closed(layer.cross_attention_norm, attended, crossed, informed)
    &&& is_fed_forward(layer.feed_forward, informed, transformed)
    &&& is_closed(layer.linear_norm, informed, transformed, r)
}

/// `r` is an output of the decoder layer on `x` and the encoder's output
/// under the mask.
pub open spec fn is_decoded(
    layer: DecoderLayerView,
    x: TensorValue,
    encoder_output: TensorValue,
    mask: Option<MaskValue>,
    r: TensorValue,
) -> bool {
    exists|
        attention: TensorValue,
        attended: TensorValue,
        crossed: TensorValue,
        informed: TensorValue,
        transformed: TensorValue,
    | #[trigger]
        decoder_steps(
            layer,
            x,
            encoder_output,
            mask,
            attention,
            attended,
            crossed,
            informed,
            transformed,
            r,
        )
}

/// Without normalizations, every sublayer of a decoder layer adds its
/// output to its own input exactly: `attended` is the sum of the input
/// and the self-attention output, `informed` the sum of `attended` and
/// the cross-attention output, and the output the sum of `informed` and
/// what the feed-forward network makes of it.
pub proof fn lemma_unnormalized_decoder(
    layer: DecoderLayerView,
    x: TensorValue,
    encoder_output: TensorValue,
    mask: Option<MaskValue>,
    attention: TensorValue,
    attended: TensorValue,
    crossed: TensorValue,
    informed: TensorValue,
    transformed: TensorValue,
    r: TensorValue,
)
    requires
        layer.self_attention_norm is Identity,
        layer.cross_attention_norm is Identity,
        layer.linear_norm is Identity,
        decoder_steps(
            layer,
            x,
            encoder_output,
            mask,
            attention,
            attended,
            crossed,
            informed,
            transformed,
            r,
        ),
    ensures
        is_elementwise_sum(x.words, attention.words, attended.words),
        is_elementwise_sum(attended.words, crossed.words, informed.words),
        is_elementwise_sum(informed.words, transformed.words, r.words),
{
}

/// One block of a transformer decoder: self-attention, cross-attention
/// over the output of the encoder, and a feed-forward network, each
/// closed by dropout, a residual sum with the sublayer's own input, and a
/// normalization.
pub struct DecoderLayer {
    self_attention: MultiHeadAttention,
    self_attention_norm: Normalization,
    cross_attention: MultiHeadAttention,
    cross_attention_norm: Normalization,
    feed_forward: FeedForward,
    linear_norm: Normalization,
    drop_out: Dropout,
}

impl View for DecoderLayer {
    type V = DecoderLayerView;

    closed spec fn view(&self) -> DecoderLayerView {
        DecoderLayerView {
            self_attention: self.self_attention@,
            self_attention_norm: self.self_attention_norm@,
            cross_attention: self.cross_attention@,
            cross_attention_norm: self.cross_attention_norm@,
            feed_forward: self.feed_forward@,
            linear_norm: self.linear_norm@,
            drop_out: self.drop_out,
        }
    }
}

impl DecoderLayer {
    #[verifier::type_invariant]
    spec fn well_formed(&self) -> bool {
        self@.wf()
    }

    /// Puts a layer together from its parts. They are refused unless the
    /// two attention modules have the same sizes and the normalizations
    /// and the feed-forward network work on their model dimension.
    pub fn from_parts(
        self_attention: MultiHeadAttention,
        self_attention_norm: Normalization,
        cross_attention: MultiHeadAttention,
        cross_attention_norm: Normalization,
        feed_forward: FeedForward,
        linear_norm: Normalization,
        drop_out: Dropout,
    ) -> (r: Result<Self, TransformerError>)
        ensures
            r is Ok <==> {
                &&& cross_attention@.model_dimension == self_attention@.model_dimension
                &&& cross_attention@.head_count == self_attention@.head_count
                &&& self_attention_norm@.fits(self_attention@.model_dimension)
                &&& cross_attention_norm@.fits(self_attention@.model_dimension)
                &&& linear_norm@.fits(self_attention@.model_dimension)
                &&& feed_forward@.d_input() == self_attention@.model_dimension
                &&& feed_forward@.d_output() == self_attention@.model_dimension
            },
            r is Err ==> r == Err::<Self, TransformerError>(TransformerError::ConfigurationError),
            r is Ok ==> r.unwrap()@ == (DecoderLayerView {
                self_attention: self_attention@,
                self_attention_norm: self_attention_norm@,
                cross_attention: cross_attention@,
                cross_attention_norm: cross_attention_norm@,
                feed_forward: feed_forward@,
                linear_norm: linear_norm@,
                drop_out,
            }),
    {
        let d = self_attention.model_dimension();
        if cross_attention.model_dimension() == d && cross_attention.head_count()
            == self_attention.head_count() && self_attention_norm.is_fit(d)
            && cross_attention_norm.is_fit(d) && linear_norm.is_fit(d) && feed_forward.d_input()
            == d && feed_forward.d_output() == d {
            Ok(
                DecoderLayer {
                    self_attention,
                    self_attention_norm,
                    cross_attention,
                    cross_attention_norm,
                    feed_forward,
                    linear_norm,
                    drop_out,
                },
            )
        } else {
            Err(TransformerError::ConfigurationError)
        }
    }

    /// The self-attention module.
    pub fn self_attention(&self) -> (r: &MultiHeadAttention)
        ensures
            r@ == self@.self_attention,
            self@.wf(),
    {
        proof {
            use_type_invariant(self);
        }
        &self.self_attention
    }

    /// The first normalization, which closes the self-attention.
    pub fn self_attention_norm(&self) -> (r: &Normalization)
        ensures
            r@ == self@.self_attention_norm,
    {
        &self.self_attention_norm
    }

    /// The cross-attention module.
    pub fn cross_attention(&self) -> (r: &MultiHeadAttention)
        ensures
            r@ == self@.cross_attention,
    {
        &self.cross_attention
    }

    /// The second normalization, which closes the cross-attention.
    pub fn cross_attention_norm(&self) -> (r: &Normalization)
        ensures
            r@ == self@.cross_attention_norm,
    {
        &self.cross_attention_norm
    }

    /// The feed-forward network.
    pub fn feed_forward(&self) -> (r: &FeedForward)
        ensures
            r@ == self@.feed_forward,
    {
        &self.feed_forward
    }

    /// The third normalization, which closes the feed-forward network.
    pub fn linear_norm(&self) -> (r: &Normalization)
        ensures
            r@ == self@.linear_norm,
    {
        &self.linear_norm
    }

    /// The dropout module.
    pub fn drop_out(&self) -> (r: &Dropout)
        ensures
            *r == self@.drop_out,
    {
        &self.drop_out
    }

    /// Decides whether [`Self::forward_masked`] accepts an input, an
    /// encoder's output and a mask of these shapes.
    pub fn accepts(&self, x: &Tensor3, encoder_out: &Tensor3, mask: Option<&Mask>) -> (r: bool)
        ensures
            r == self@.takes(x@.dims, encoder_out@.dims, dims_of_mask(mask)),
    {
        let dims = x.dims();
        self.self_attention.accepts(x, x, x, mask) && self.cross_attention.accepts(
            x,
            encoder_out,
            encoder_out,
            None,
        ) && is_well_sized3(&[dims[0], dims[1], self.feed_forward.d_hidden()])
    }

    /// Applies the layer to `x`, a tensor `[batch, length,
    /// model_dimension]`, and the encoder's output, a tensor `[batch,
    /// encoder_length, model_dimension]`, without a mask. The result has
    /// the shape of `x`.
    pub fn forward(&self, x: &Tensor3, encoder_out: &Tensor3) -> (r: Result<
        Tensor3,
        TransformerError,
    >)
        ensures
            r is Ok <==> self@.takes(x@.dims, encoder_out@.dims, None),
            r is Err ==> r == Err::<Tensor3, TransformerError>(TransformerError::ShapeMismatch),
            r is Ok ==> r.unwrap()@.dims == x@.dims && r.unwrap()@.is_rank3(),
            r is Ok ==> is_decoded(self@, x@, encoder_out@, None, r.unwrap()@),
    {
        self.forward_masked(x, encoder_out, None)
    }

    /// Applies the layer to `x` and the encoder's output: self-attention
    /// of `x` over itself under the mask, which the caller makes causal
    /// where later positions must stay unseen; then cross-attention with
    /// the result as queries and the encoder's output as keys and values;
    /// then the feed-forward network. Each of the three is followed by
    /// dropout, the sum with the sublayer's own input, and a
    /// normalization. Shapes are checked before any arithmetic; the
    /// result has the shape of `x`.
    pub fn forward_masked(&self, x: &Tensor3, encoder_out: &Tensor3, mask: Option<&Mask>) -> (r:
        Result<Tensor3, TransformerError>)
        ensures
            r is Ok <==> self@.takes(x@.dims, encoder_out@.dims, dims_of_mask(mask)),
            r is Err ==> r == Err::<Tensor3, TransformerError>(TransformerError::ShapeMismatch),
            r is Ok ==> r.unwrap()@.dims == x@.dims && r.unwrap()@.is_rank3(),
            r is Ok ==> is_decoded(
                self@,
                x@,
                encoder_out@,
                value_of_mask(mask),
                r.unwrap()@,
            ),
    {
        proof {
            use_type_invariant(self);
        }
        if !self.accepts(x, encoder_out, mask) {
            return Err(TransformerError::ShapeMismatch);
        }
        let attention = match self.self_attention.forward(x, x, x, mask) {
            Ok(attention) => attention,
            Err(e) => {
                return Err(e);
            },
        };
        let ghost attention_value = attention@;
        let attended = close_sublayer(&self.self_attention_norm, &self.drop_out, x, attention);
        let memory = encoder_out;
        let crossed = match self.cross_attention.forward(&attended, memory, memory, None) {
            Ok(crossed) => crossed,
            Err(e) => {
                return Err(e);
            },
        };
        let ghost crossed_value = crossed@;
        let informed = close_sublayer(
            &self.cross_attention_norm,
            &self.drop_out,
            &attended,
            crossed,
        );
        let transformed = self.feed_forward.apply(&informed);
        let ghost transformed_value = transformed@;
        assert(transformed@.dims =~= informed@.dims);
        let r = close_sublayer(&self.linear_norm, &self.drop_out, &informed, transformed);
        assert(decoder_steps(
            self@,
            x@,
            encoder_out@,
            value_of_mask(mask),
            attention_value,
            attended@,
            crossed_value,
            informed@,
            transformed_value,
            r@,
        ));
        Ok(r)
    }
}

} // verus!
