use crate::error::TransformerError;
use crate::shape::{is_well_sized3, max_elements, well_sized3};
use crate::tensor::Tensor3;
use crate::shape::TensorValue;
use crate::trusted::{
    is_projection, linear_apply, linear_bias, linear_d_input, linear_d_output, linear_from_raw,
    linear_read_bias, linear_read_weight, linear_shape, linear_weight,
};
use vstd::prelude::*;

pub use crate::trusted::Linear;

verus! {

/// The sizes that a weight matrix can have: no empty axis, and few enough
/// entries to fit in memory.
pub open spec fn projection_sizes(d_input: usize, d_output: usize) -> bool {
    &&& d_input > 0
    &&& d_output > 0
    &&& d_input * d_output <= max_elements()
}

/// The words of an optional vector.
pub open spec fn words_of(v: Option<Vec<u32>>) -> Option<Seq<u32>> {
    match v {
        Some(words) => Some(words@),
        None => None,
    }
}

/// The value of a projection: its sizes and its parameters, each as the
/// bit pattern of its binary32 value.
pub struct LinearValue {
    /// The number of features that the projection reads.
    pub d_input: usize,
    /// The number of features that the projection gives.
    pub d_output: usize,
    /// The weight matrix `[d_input, d_output]` in row-major order.
    pub weight: Seq<u32>,
    /// The bias vector `[d_output]`, where the projection has one.
    pub bias: Option<Seq<u32>>,
}

impl LinearValue {
    /// The shapes that the projection can be applied to: rank 3, no empty
    /// axis, `d_input` features on the last axis, and a result that fits
    /// in memory.
    pub open spec fn takes(self, dims: Seq<usize>) -> bool {
        &&& well_sized3(dims)
        &&& dims[2] == self.d_input
        &&& well_sized3(seq![dims[0], dims[1], self.d_output])
    }
}

/// `r` is a projection of `x` by `l`: every position of `x` multiplied by
/// the weight matrix of `l` and raised by its bias.
pub open spec fn is_projected(l: LinearValue, x: TensorValue, r: TensorValue) -> bool {
    &&& r.dims == seq![x.dims[0], x.dims[1], l.d_output]
    &&& r.is_rank3()
    &&& is_projection(l.d_input, l.d_output, l.weight, l.bias, x.dims, x.words, r.words)
}

/// `l` maps `d_input` features to `d_output` features, holds one weight
/// for every pair of them, and has a bias, of `d_output` entries, exactly
/// when `bias` says so. Nothing is said of the values.
pub open spec fn is_sized(l: LinearValue, d_input: usize, d_output: usize, bias: bool) -> bool {
    &&& l.d_input == d_input
    &&& l.d_output == d_output
    &&& l.weight.len() == d_input * d_output
    &&& l.bias is Some <==> bias
    &&& bias ==> l.bias.unwrap().len() == d_output
}

impl View for Linear {
    type V = LinearValue;

    open spec fn view(&self) -> LinearValue {
        LinearValue {
            d_input: linear_d_input(*self),
            d_output: linear_d_output(*self),
            weight: linear_weight(*self),
            bias: linear_bias(*self),
        }
    }
}

/// The value of a projection, where there is one.
pub open spec fn value_of_linear(l: Option<Linear>) -> Option<LinearValue> {
    match l {
        Some(projection) => Some(projection@),
        None => None,
    }
}

impl Linear {
    /// Builds the projection that holds the given weight matrix
    /// `[d_input, d_output]`, in row-major order, and the given bias
    /// `[d_output]`, their words being binary32 bit patterns. There is no
    /// such projection when a size is zero, when the matrix would not fit
    /// in memory, or when a length does not match the sizes.
    pub fn from_words(
        d_input: usize,
        d_output: usize,
        weight: Vec<u32>,
        bias: Option<Vec<u32>>,
    ) -> (r: Option<Linear>)
        ensures
            r is Some <==> projection_sizes(d_input, d_output) && weight.len() == d_input
                * d_output && (bias is Some ==> bias.unwrap().len() == d_output),
            r is Some ==> r.unwrap()@ == (LinearValue {
                d_input,
                d_output,
                weight: weight@,
                bias: words_of(bias),
            }),
    {
        if !is_well_sized3(&[1, d_input, d_output]) {
            return None;
        }
        if weight.len() != d_input * d_output {
            return None;
        }
        let bias_fits = match &bias {
            Some(b) => b.len() == d_output,
            None => true,
        };
        if bias_fits {
            Some(linear_from_raw(d_input, d_output, weight, bias))
        } else {
            None
        }
    }

    /// The number of input features.
    pub fn d_input(&self) -> (r: usize)
        ensures
            r == self@.d_input,
    {
        linear_shape(self)[0]
    }

    /// The number of output features.
    pub fn d_output(&self) -> (r: usize)
        ensures
            r == self@.d_output,
    {
        linear_shape(self)[1]
    }

    /// The weight matrix in row-major order, each entry as the bit pattern
    /// of its binary32 value.
    pub fn weight_words(&self) -> (r: Vec<u32>)
        ensures
            r@ == self@.weight,
    {
        linear_read_weight(self)
    }

    /// The bias vector, each entry as the bit pattern of its binary32
    /// value, where the projection has a bias.
    pub fn bias_words(&self) -> (r: Option<Vec<u32>>)
        ensures
            words_of(r) == self@.bias,
    {
        linear_read_bias(self)
    }

    /// Projects the features of every position of `x`, a tensor `[batch,
    /// length, d_input]`, to `d_output` features.
    pub fn forward(&self, x: &Tensor3) -> (r: Result<Tensor3, TransformerError>)
        ensures
            r is Ok <==> self@.takes(x@.dims),
            r is Err ==> r == Err::<Tensor3, TransformerError>(TransformerError::ShapeMismatch),
            r is Ok ==> is_projected(self@, x@, r.unwrap()@),
    {
        let dims = x.dims();
        let shape = linear_shape(self);
        if is_well_sized3(&dims) && dims[2] == shape[0] && is_well_sized3(
            &[dims[0], dims[1], shape[1]],
        ) {
            Ok(linear_apply(self, x))
        } else {
            Err(TransformerError::ShapeMismatch)
        }
    }
}

} // verus!
