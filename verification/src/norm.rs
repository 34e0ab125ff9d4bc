use crate::error::TransformerError;
use crate::shape::{is_well_sized3, max_elements, well_sized3, TensorValue};
use crate::tensor::Tensor3;
use crate::trusted::{
    layer_norm_apply, layer_norm_from_raw, layer_norm_new, layer_norm_read_scale,
    is_layer_norm, layer_norm_read_shift, layer_norm_scale, layer_norm_shift,
};
use burn::backend::ndarray::NdArrayDevice;
use vstd::prelude::*;

pub use crate::trusted::LayerNorm;

verus! {

/// The bit pattern of the binary32 value one.
pub const ONE: u32 = 0x3F80_0000;

/// The value of a layer normalization: its scale and its shift, one entry
/// per feature, each as the bit pattern of its binary32 value.
pub struct LayerNormValue {
    pub scale: Seq<u32>,
    pub shift: Seq<u32>,
}

impl LayerNormValue {
    /// The number of features that the module normalizes.
    pub open spec fn width(self) -> nat {
        self.scale.len()
    }

    /// Every scale is one and every shift is zero, for `width` features.
    pub open spec fn is_fresh(self, width: usize) -> bool {
        &&& self.scale == Seq::new(width as nat, |i: int| ONE)
        &&& self.shift == Seq::new(width as nat, |i: int| 0u32)
    }
}

impl View for LayerNorm {
    type V = LayerNormValue;

    open spec fn view(&self) -> LayerNormValue {
        LayerNormValue { scale: layer_norm_scale(*self), shift: layer_norm_shift(*self) }
    }
}

impl LayerNorm {
    /// A layer normalization for `width` features with scale one and
    /// shift zero, or nothing when `width` is zero or too large to be
    /// stored.
    pub fn new(width: usize, device: &NdArrayDevice) -> (r: Option<LayerNorm>)
        ensures
            r is Some <==> 0 < width <= max_elements(),
            r is Some ==> r.unwrap()@.is_fresh(width),
    {
        if 0 < width && width <= (isize::MAX as usize) / 4 {
            Some(layer_norm_new(width, device))
        } else {
            None
        }
    }

    /// A layer normalization with the given scale and shift, their words
    /// being binary32 bit patterns, or nothing when they are empty, of
    /// different lengths, or too long to be stored.
    pub fn from_words(scale: Vec<u32>, shift: Vec<u32>) -> (r: Option<LayerNorm>)
        ensures
            r is Some <==> 0 < scale.len() <= max_elements() && shift.len() == scale.len(),
            r is Some ==> r.unwrap()@ == (LayerNormValue { scale: scale@, shift: shift@ }),
    {
        if 0 < scale.len() && scale.len() <= (isize::MAX as usize) / 4 && shift.len()
            == scale.len() {
            Some(layer_norm_from_raw(scale, shift))
        } else {
            None
        }
    }

    /// The number of features that the module normalizes.
    pub fn width(&self) -> (r: usize)
        ensures
            r == self@.width(),
    {
        layer_norm_read_scale(self).len()
    }

    /// The scale, each entry as the bit pattern of its binary32 value.
    pub fn scale_words(&self) -> (r: Vec<u32>)
        ensures
            r@ == self@.scale,
    {
        layer_norm_read_scale(self)
    }

    /// The shift, each entry as the bit pattern of its binary32 value.
    pub fn shift_words(&self) -> (r: Vec<u32>)
        ensures
            r@ == self@.shift,
    {
        layer_norm_read_shift(self)
    }
}

/// The value of what follows the residual sum of a sublayer.
pub enum NormalizationValue {
    /// Layer normalization over the features.
    LayerNorm(LayerNormValue),
    /// Nothing: the residual sum is passed on as it is.
    Identity,
}

impl NormalizationValue {
    /// The normalization can be applied to positions of `width` features.
    pub open spec fn fits(self, width: usize) -> bool {
        match self {
            NormalizationValue::LayerNorm(n) => n.width() == width,
            NormalizationValue::Identity => true,
        }
    }

    /// The normalization is a layer normalization for `width` features
    /// with every scale one and every shift zero.
    pub open spec fn is_fresh(self, width: usize) -> bool {
        match self {
            NormalizationValue::LayerNorm(n) => n.is_fresh(width),
            NormalizationValue::Identity => false,
        }
    }
}

/// `r` is `x` after the normalization: `x` itself under the identity,
/// and under a layer normalization `x` normalized position by position
/// over its features, then scaled and shifted.
pub open spec fn is_normalized(n: NormalizationValue, x: TensorValue, r: TensorValue) -> bool {
    match n {
        NormalizationValue::Identity => r == x,
        NormalizationValue::LayerNorm(v) => {
            &&& r.dims == x.dims
            &&& r.words.len() == x.words.len()
            &&& is_layer_norm(v.scale, v.shift, x.dims, x.words, r.words)
        },
    }
}

/// What follows the residual sum of a sublayer.
pub enum Normalization {
    /// Layer normalization over the features.
    LayerNorm(LayerNorm),
    /// Nothing: the residual sum is passed on as it is.
    Identity,
}

impl View for Normalization {
    type V = NormalizationValue;

    open spec fn view(&self) -> NormalizationValue {
        match self {
            Normalization::LayerNorm(n) => NormalizationValue::LayerNorm(n@),
            Normalization::Identity => NormalizationValue::Identity,
        }
    }
}

impl Normalization {
    /// Decides whether the normalization can be applied to positions of
    /// `width` features.
    pub fn is_fit(&self, width: usize) -> (r: bool)
        ensures
            r == self@.fits(width),
    {
        match self {
            Normalization::LayerNorm(n) => n.width() == width,
            Normalization::Identity => true,
        }
    }

    /// A layer normalization for `width` features with scale one and
    /// shift zero, or the identity.
    pub(crate) fn for_width(enabled: bool, width: usize, device: &NdArrayDevice) -> (r:
        Normalization)
        requires
            0 < width <= max_elements(),
        ensures
            r@.fits(width),
            enabled ==> r@.is_fresh(width),
            !enabled ==> r@ is Identity,
    {
        if enabled {
            Normalization::LayerNorm(layer_norm_new(width, device))
        } else {
            Normalization::Identity
        }
    }

    /// Normalizes `x`, a tensor `[batch, length, features]`, over its
    /// features. The identity returns `x` as it is. A tensor with an empty
    /// axis or with another number of features than the normalization
    /// works on is refused.
    pub fn forward(&self, x: Tensor3) -> (r: Result<Tensor3, TransformerError>)
        ensures
            r is Ok <==> well_sized3(x@.dims) && self@.fits(x@.dims[2]),
            r is Err ==> r == Err::<Tensor3, TransformerError>(TransformerError::ShapeMismatch),
            r is Ok ==> r.unwrap()@.dims == x@.dims && r.unwrap()@.is_rank3(),
            r is Ok ==> is_normalized(self@, x@, r.unwrap()@),
    {
        let dims = x.dims();
        if is_well_sized3(&dims) && self.is_fit(dims[2]) {
            Ok(self.apply(x))
        } else {
            Err(TransformerError::ShapeMismatch)
        }
    }

    pub(crate) fn apply(&self, x: Tensor3) -> (r: Tensor3)
        requires
            well_sized3(x@.dims),
            self@.fits(x@.dims[2]),
        ensures
            r@.dims == x@.dims,
            r@.words.len() == x@.words.len(),
            is_normalized(self@, x@, r@),
    {
        match self {
            Normalization::LayerNorm(n) => layer_norm_apply(n, &x),
            Normalization::Identity => x,
        }
    }
}

} // verus!
