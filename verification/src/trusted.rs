//! Everything that the verifier takes on trust: the types of `burn` that
//! the library holds, the names by which contracts speak of what they
//! hold, and one function for each call into `burn`, whose contract
//! states what the call does and whose body makes it. All tensors live on
//! the `NdArray` backend with 32-bit floating-point elements.

use crate::arithmetic::row_has_finite_maximum;
use crate::linear::{projection_sizes, words_of};
use crate::masking::NEGATIVE_INFINITY;
use crate::norm::ONE;
use crate::shape::{
    broadcastable4, exchanged, max_elements, offset4, stretched, volume3, volume4, well_sized3,
    well_sized4, within4,
};
use crate::tensor::{is_nan, rectified_word};
use burn::backend::ndarray::NdArrayDevice;
use burn::backend::NdArray;
use burn::module::Param;
use burn::nn::{Dropout, LayerNormConfig, LinearConfig};
use burn::tensor::activation;
use burn::tensor::{Bool, DType, Tensor, TensorData};
use vstd::prelude::*;

verus! {

/// The device on which every tensor of this library lives.
#[verifier::external_type_specification]
#[verifier::external_body]
pub struct ExNdArrayDevice(NdArrayDevice);

/// A rank-3 tensor of 32-bit floating-point elements, `[batch, length,
/// features]`, kept as a `burn::tensor::Tensor` on the `NdArray` backend.
/// Nothing of the array is visible to the verifier; contracts speak of it
/// through [`tensor3_dims`] and [`tensor3_words`].
#[verifier::external_body]
pub struct Tensor3 {
    inner: Tensor<NdArray, 3>,
}

/// A rank-4 tensor of 32-bit floating-point elements, `[batch, heads,
/// length, features]`, kept as a `burn::tensor::Tensor` on the `NdArray`
/// backend. Contracts speak of it through [`tensor4_dims`] and
/// [`tensor4_words`].
#[verifier::external_body]
pub struct Tensor4 {
    inner: Tensor<NdArray, 4>,
}

/// A rank-4 tensor of booleans kept as a `burn::tensor::Tensor` of kind
/// `Bool` on the `NdArray` backend; `true` marks a position that attention
/// must not look at. Contracts speak of it through [`mask_dims`] and
/// [`mask_flags`].
#[verifier::external_body]
pub struct Mask {
    inner: Tensor<NdArray, 4, Bool>,
}

/// The length of each axis of the array, outermost first.
pub uninterp spec fn tensor3_dims(t: Tensor3) -> Seq<usize>;

/// The elements of the array in row-major order, each as the bit pattern
/// of its binary32 value.
pub uninterp spec fn tensor3_words(t: Tensor3) -> Seq<u32>;

/// The length of each axis of the array, outermost first.
pub uninterp spec fn tensor4_dims(t: Tensor4) -> Seq<usize>;

/// The elements of the array in row-major order, each as the bit pattern
/// of its binary32 value.
pub uninterp spec fn tensor4_words(t: Tensor4) -> Seq<u32>;

/// The length of each axis of the mask, outermost first.
pub uninterp spec fn mask_dims(m: Mask) -> Seq<usize>;

/// The entries of the mask in row-major order.
pub uninterp spec fn mask_flags(m: Mask) -> Seq<bool>;

/// The sum of two binary32 numbers, rounded to the nearest number with
/// ties to even, all three given by their bit patterns. Where the sum is
/// no number, the result is the bit pattern of some NaN.
pub uninterp spec fn binary32_sum(a: u32, b: u32) -> u32;

/// `words` is a batched matrix product, over the last two axes, of the two
/// rank-4 arrays with the given axis lengths and elements: what
/// `Tensor::matmul` can give on them. How the sums are rounded differs
/// from machine to machine, so the two arrays do not fix the product.
pub uninterp spec fn is_matrix_product(
    lhs_dims: Seq<usize>,
    lhs_words: Seq<u32>,
    rhs_dims: Seq<usize>,
    rhs_words: Seq<u32>,
    words: Seq<u32>,
) -> bool;

/// Every one of `words` is the count `n` as a binary32 number: what
/// `Tensor::full` gives for it.
pub uninterp spec fn is_filled(n: usize, words: Seq<u32>) -> bool;

/// `roots` holds, place by place, the square roots of `words`: what
/// `Tensor::sqrt` gives on them.
pub uninterp spec fn is_square_root(words: Seq<u32>, roots: Seq<u32>) -> bool;

/// `quotients` holds, place by place, the elements of the first array
/// divided by those of the divisor, which is broadcast to the first: what
/// `Tensor::div` gives on the two.
pub uninterp spec fn is_quotient(
    dims: Seq<usize>,
    words: Seq<u32>,
    divisor_dims: Seq<usize>,
    divisor_words: Seq<u32>,
    quotients: Seq<u32>,
) -> bool;

/// `weights` is a softmax of the rank-4 array along `axis`: what
/// `burn::tensor::activation::softmax` can give on it. The exponentials
/// are those of the machine's mathematics library.
pub uninterp spec fn is_softmax(
    dims: Seq<usize>,
    words: Seq<u32>,
    axis: usize,
    weights: Seq<u32>,
) -> bool;

/// `projected` is the rank-3 array with the given axis lengths and
/// elements, multiplied position by position by the weight matrix
/// `[d_input, d_output]` and raised by the bias: what
/// `burn::nn::Linear::forward` can give on it.
pub uninterp spec fn is_projection(
    d_input: usize,
    d_output: usize,
    weight: Seq<u32>,
    bias: Option<Seq<u32>>,
    dims: Seq<usize>,
    words: Seq<u32>,
    projected: Seq<u32>,
) -> bool;

/// `normalized` is the rank-3 array with the given axis lengths and
/// elements, normalized position by position over its features, then
/// scaled and shifted: what `burn::nn::LayerNorm::forward` can give on it
/// with the epsilon that `burn` starts a layer normalization with. The
/// order in which the features are summed follows the array's layout in
/// memory.
pub uninterp spec fn is_layer_norm(
    scale: Seq<u32>,
    shift: Seq<u32>,
    dims: Seq<usize>,
    words: Seq<u32>,
    normalized: Seq<u32>,
) -> bool;

/// `TensorData::new` and `Tensor::from_data`: builds the array that has the
/// given axis lengths and holds the given words in row-major order. The
/// words are stored as they are and declared to be binary32 numbers.
#[verifier::external_body]
pub(crate) fn tensor3_from_raw(dims: [usize; 3], words: Vec<u32>) -> (r: Tensor3)
    requires
        well_sized3(dims@),
        volume3(dims@) == words.len(),
    ensures
        tensor3_dims(r) == dims@,
        tensor3_words(r) == words@,
{
    let mut data = TensorData::new(words, dims);
    data.dtype = DType::F32;
    Tensor3 { inner: Tensor::from_data(data, &NdArrayDevice::Cpu) }
}

/// `Tensor::dims`: the axis lengths of the array. An array holds exactly
/// one element for each index within them.
#[verifier::external_body]
pub(crate) fn tensor3_shape(t: &Tensor3) -> (r: [usize; 3])
    ensures
        r@ == tensor3_dims(*t),
        tensor3_words(*t).len() == volume3(r@),
{
    t.inner.dims()
}

/// `Tensor::to_data`: the elements of the array in row-major order. The
/// stored binary32 numbers are handed out as 32-bit words, bit for bit.
#[verifier::external_body]
pub(crate) fn tensor3_read(t: &Tensor3) -> (r: Vec<u32>)
    ensures
        r@ == tensor3_words(*t),
{
    let mut data = t.inner.to_data();
    data.dtype = DType::U32;
    data.into_vec().unwrap()
}

/// `Tensor::dims`: the axis lengths of the array. An array holds exactly
/// one element for each index within them.
#[verifier::external_body]
pub(crate) fn tensor4_shape(t: &Tensor4) -> (r: [usize; 4])
    ensures
        r@ == tensor4_dims(*t),
        tensor4_words(*t).len() == volume4(r@),
{
    t.inner.dims()
}

/// `Tensor::to_data`: the elements of the array in row-major order. The
/// stored binary32 numbers are handed out as 32-bit words, bit for bit.
#[verifier::external_body]
pub(crate) fn tensor4_read(t: &Tensor4) -> (r: Vec<u32>)
    ensures
        r@ == tensor4_words(*t),
{
    let mut data = t.inner.to_data();
    data.dtype = DType::U32;
    data.into_vec().unwrap()
}

/// `TensorData::new` and `Tensor::from_data`: builds the mask that has the
/// given axis lengths and holds the given entries in row-major order.
#[verifier::external_body]
pub(crate) fn mask_from_raw(dims: [usize; 4], flags: Vec<bool>) -> (r: Mask)
    requires
        well_sized4(dims@),
        volume4(dims@) == flags.len(),
    ensures
        mask_dims(r) == dims@,
        mask_flags(r) == flags@,
{
    Mask { inner: Tensor::from_data(TensorData::new(flags, dims), &NdArrayDevice::Cpu) }
}

/// `Tensor::dims`: the axis lengths of the mask. A mask holds exactly one
/// entry for each index within them.
#[verifier::external_body]
pub(crate) fn mask_shape(m: &Mask) -> (r: [usize; 4])
    ensures
        r@ == mask_dims(*m),
        mask_flags(*m).len() == volume4(r@),
{
    m.inner.dims()
}

/// `Tensor::reshape` from rank 3 to rank 4: the same elements in the same
/// row-major order under new axis lengths. It panics unless the element
/// counts agree.
#[verifier::external_body]
pub(crate) fn reshape_to_rank4(t: &Tensor3, dims: [usize; 4]) -> (r: Tensor4)
    requires
        well_sized4(dims@),
        volume4(dims@) == volume3(tensor3_dims(*t)),
    ensures
        tensor4_dims(r) == dims@,
        tensor4_words(r) == tensor3_words(*t),
{
    Tensor4 { inner: t.inner.clone().reshape(dims) }
}

/// `Tensor::reshape` from rank 4 to rank 3: the same elements in the same
/// row-major order under new axis lengths. It panics unless the element
/// counts agree.
#[verifier::external_body]
pub(crate) fn reshape_to_rank3(t: &Tensor4, dims: [usize; 3]) -> (r: Tensor3)
    requires
        well_sized3(dims@),
        volume3(dims@) == volume4(tensor4_dims(*t)),
    ensures
        tensor3_dims(r) == dims@,
        tensor3_words(r) == tensor4_words(*t),
{
    Tensor3 { inner: t.inner.clone().reshape(dims) }
}

/// `Tensor::swap_dims`: exchanges two axes. The element that the argument
/// holds at an index is held by the result at that index with the entries
/// for the two axes exchanged.
#[verifier::external_body]
pub(crate) fn swap_axes(t: &Tensor4, a: usize, b: usize) -> (r: Tensor4)
    requires
        a < 4,
        b < 4,
    ensures
        tensor4_dims(r) == exchanged(tensor4_dims(*t), a as int, b as int),
        tensor4_words(r).len() == tensor4_words(*t).len(),
        forall|i: Seq<int>| #[trigger]
            within4(i, tensor4_dims(*t)) ==> tensor4_words(r)[offset4(
                tensor4_dims(r),
                exchanged(i, a as int, b as int),
            )] == tensor4_words(*t)[offset4(tensor4_dims(*t), i)],
{
    Tensor4 { inner: t.inner.clone().swap_dims(a, b) }
}

/// `Tensor::matmul`: the batched matrix product over the last two axes.
/// It panics unless the columns of the left operand are as many as the
/// rows of the right one, and on an empty axis. The shape of the product
/// is stated, and that it is a product of the two.
#[verifier::external_body]
pub(crate) fn matrix_product(lhs: &Tensor4, rhs: &Tensor4) -> (r: Tensor4)
    requires
        well_sized4(tensor4_dims(*lhs)),
        well_sized4(tensor4_dims(*rhs)),
        tensor4_dims(*lhs)[0] == tensor4_dims(*rhs)[0],
        tensor4_dims(*lhs)[1] == tensor4_dims(*rhs)[1],
        tensor4_dims(*lhs)[3] == tensor4_dims(*rhs)[2],
        tensor4_dims(*lhs)[0] * tensor4_dims(*lhs)[1] * tensor4_dims(*lhs)[2] * tensor4_dims(
            *rhs,
        )[3] <= max_elements(),
    ensures
        tensor4_dims(r) == seq![
            tensor4_dims(*lhs)[0],
            tensor4_dims(*lhs)[1],
            tensor4_dims(*lhs)[2],
            tensor4_dims(*rhs)[3],
        ],
        tensor4_words(r).len() == volume4(tensor4_dims(r)),
        is_matrix_product(
            tensor4_dims(*lhs),
            tensor4_words(*lhs),
            tensor4_dims(*rhs),
            tensor4_words(*rhs),
            tensor4_words(r),
        ),
{
    Tensor4 { inner: lhs.inner.clone().matmul(rhs.inner.clone()) }
}

/// `Tensor::full`: the array with the given axis lengths whose every
/// element is the count `n` as a binary32 number.
#[verifier::external_body]
pub(crate) fn filled(dims: [usize; 4], n: usize) -> (r: Tensor4)
    requires
        well_sized4(dims@),
    ensures
        tensor4_dims(r) == dims@,
        tensor4_words(r).len() == volume4(dims@),
        is_filled(n, tensor4_words(r)),
{
    Tensor4 { inner: Tensor::full(dims, n as u64, &NdArrayDevice::Cpu) }
}

/// `Tensor::sqrt`: the square root of every element.
#[verifier::external_body]
pub(crate) fn square_root(t: &Tensor4) -> (r: Tensor4)
    ensures
        tensor4_dims(r) == tensor4_dims(*t),
        tensor4_words(r).len() == tensor4_words(*t).len(),
        is_square_root(tensor4_words(*t), tensor4_words(r)),
{
    Tensor4 { inner: t.inner.clone().sqrt() }
}

/// `Tensor::div` by a divisor that is broadcast to the array: every
/// element divided by the divisor's element at its place.
#[verifier::external_body]
pub(crate) fn quotient(t: &Tensor4, divisor: &Tensor4) -> (r: Tensor4)
    requires
        well_sized4(tensor4_dims(*t)),
        broadcastable4(tensor4_dims(*divisor), tensor4_dims(*t)),
    ensures
        tensor4_dims(r) == tensor4_dims(*t),
        tensor4_words(r).len() == tensor4_words(*t).len(),
        is_quotient(
            tensor4_dims(*t),
            tensor4_words(*t),
            tensor4_dims(*divisor),
            tensor4_words(*divisor),
            tensor4_words(r),
        ),
{
    Tensor4 { inner: t.inner.clone().div(divisor.inner.clone()) }
}

/// `Tensor::mask_fill`: broadcasts the mask to the shape of the array and
/// replaces by the binary32 number with the bit pattern `fill` every
/// element whose mask entry is `true`; the other elements stay as they
/// are. The number is made from the word by `Tensor::from_data` and
/// `Tensor::into_scalar`.
#[verifier::external_body]
pub(crate) fn fill_masked(t: &Tensor4, mask: &Mask, fill: u32) -> (r: Tensor4)
    requires
        well_sized4(tensor4_dims(*t)),
        broadcastable4(mask_dims(*mask), tensor4_dims(*t)),
    ensures
        tensor4_dims(r) == tensor4_dims(*t),
        tensor4_words(r).len() == tensor4_words(*t).len(),
        forall|i: Seq<int>| #[trigger]
            within4(i, tensor4_dims(*t)) ==> tensor4_words(r)[offset4(tensor4_dims(*t), i)] == (if
                mask_flags(*mask)[offset4(mask_dims(*mask), stretched(i, mask_dims(*mask)))]
            {
                fill
            } else {
                tensor4_words(*t)[offset4(tensor4_dims(*t), i)]
            }),
{
    let mut data = TensorData::new(vec![fill], [1]);
    data.dtype = DType::F32;
    let value = Tensor::<NdArray, 1>::from_data(data, &NdArrayDevice::Cpu).into_scalar();
    Tensor4 { inner: t.inner.clone().mask_fill(mask.inner.clone(), value) }
}

/// `burn::tensor::activation::softmax`: the softmax along one axis. It
/// takes the greatest element of every row from the row, exponentiates,
/// and divides by the sum of the row. So along the last axis, in a row
/// that holds no NaN and whose greatest element is finite, an element of
/// negative infinity becomes positive zero exactly: its exponential is
/// zero, and the sum is at least one.
#[verifier::external_body]
pub(crate) fn softmax_along(t: &Tensor4, axis: usize) -> (r: Tensor4)
    requires
        well_sized4(tensor4_dims(*t)),
        axis < 4,
    ensures
        tensor4_dims(r) == tensor4_dims(*t),
        tensor4_words(r).len() == tensor4_words(*t).len(),
        is_softmax(tensor4_dims(*t), tensor4_words(*t), axis, tensor4_words(r)),
        axis == 3 ==> forall|i: Seq<int>| #[trigger]
            within4(i, tensor4_dims(*t)) && tensor4_words(*t)[offset4(tensor4_dims(*t), i)]
                == NEGATIVE_INFINITY && row_has_finite_maximum(
                tensor4_dims(*t),
                tensor4_words(*t),
                i,
            ) ==> tensor4_words(r)[offset4(tensor4_dims(*t), i)] == 0,
{
    Tensor4 { inner: activation::softmax(t.inner.clone(), axis) }
}

/// `Tensor::add` on two arrays of one shape: every element of the result
/// is the sum of the elements at its place, or a NaN where that sum is no
/// number.
#[verifier::external_body]
pub(crate) fn sum(lhs: &Tensor3, rhs: &Tensor3) -> (r: Tensor3)
    requires
        tensor3_dims(*lhs) == tensor3_dims(*rhs),
    ensures
        tensor3_dims(r) == tensor3_dims(*lhs),
        tensor3_words(r).len() == volume3(tensor3_dims(r)),
        tensor3_words(r).len() == tensor3_words(*lhs).len(),
        forall|k: int|
            0 <= k < tensor3_words(r).len() ==> {
                ||| (#[trigger] tensor3_words(r)[k]) == binary32_sum(
                    tensor3_words(*lhs)[k],
                    tensor3_words(*rhs)[k],
                )
                ||| is_nan(binary32_sum(tensor3_words(*lhs)[k], tensor3_words(*rhs)[k])) && is_nan(
                    tensor3_words(r)[k],
                )
            },
{
    Tensor3 { inner: lhs.inner.clone().add(rhs.inner.clone()) }
}

/// `burn::tensor::activation::relu`: replaces by zero every element that
/// compares less than zero and keeps the others. This is what the
/// backend does without its `simd` feature, which this crate leaves off;
/// the contract says nothing of a build with that feature.
#[verifier::external_body]
pub(crate) fn rectified(t: &Tensor3) -> (r: Tensor3)
    ensures
        tensor3_dims(r) == tensor3_dims(*t),
        tensor3_words(r).len() == tensor3_words(*t).len(),
        forall|k: int|
            0 <= k < tensor3_words(*t).len() ==> #[trigger] tensor3_words(r)[k] == rectified_word(
                tensor3_words(*t)[k],
            ),
{
    Tensor3 { inner: activation::relu(t.inner.clone()) }
}

/// A learned linear projection `y = x W + b` of the last axis, kept as a
/// `burn::nn::Linear` on the `NdArray` backend. Contracts speak of it
/// through [`linear_d_input`], [`linear_d_output`], [`linear_weight`] and
/// [`linear_bias`].
#[verifier::external_body]
pub struct Linear {
    inner: burn::nn::Linear<NdArray>,
}

/// The number of input features: the rows of the weight matrix.
pub uninterp spec fn linear_d_input(l: Linear) -> usize;

/// The number of output features: the columns of the weight matrix.
pub uninterp spec fn linear_d_output(l: Linear) -> usize;

/// The weight matrix `[d_input, d_output]` in row-major order, each entry
/// as the bit pattern of its binary32 value.
pub uninterp spec fn linear_weight(l: Linear) -> Seq<u32>;

/// The bias vector `[d_output]`, each entry as the bit pattern of its
/// binary32 value, where the projection has one.
pub uninterp spec fn linear_bias(l: Linear) -> Option<Seq<u32>>;

/// `LinearConfig::new`, `with_bias` and `init`: a projection of the given
/// sizes whose parameters are drawn at random. Nothing is stated of their
/// values.
#[verifier::external_body]
pub(crate) fn linear_random(
    d_input: usize,
    d_output: usize,
    bias: bool,
    device: &NdArrayDevice,
) -> (r: Linear)
    requires
        projection_sizes(d_input, d_output),
    ensures
        linear_d_input(r) == d_input,
        linear_d_output(r) == d_output,
        linear_weight(r).len() == d_input * d_output,
        linear_bias(r) is Some <==> bias,
        bias ==> linear_bias(r).unwrap().len() == d_output,
{
    Linear { inner: LinearConfig::new(d_input, d_output).with_bias(bias).init(device) }
}

/// `Param::from_data`: a projection that holds the given weight matrix, in
/// row-major order, and the given bias. The words are stored as they are
/// and declared to be binary32 numbers.
#[verifier::external_body]
pub(crate) fn linear_from_raw(
    d_input: usize,
    d_output: usize,
    weight: Vec<u32>,
    bias: Option<Vec<u32>>,
) -> (r: Linear)
    requires
        projection_sizes(d_input, d_output),
        weight.len() == d_input * d_output,
        bias is Some ==> bias.unwrap().len() == d_output,
    ensures
        linear_d_input(r) == d_input,
        linear_d_output(r) == d_output,
        linear_weight(r) == weight@,
        linear_bias(r) == words_of(bias),
{
    let mut matrix = TensorData::new(weight, [d_input, d_output]);
    matrix.dtype = DType::F32;
    let vector = bias.map(|b| TensorData { dtype: DType::F32, ..TensorData::new(b, [d_output]) });
    Linear {
        inner: burn::nn::Linear {
            weight: Param::from_data(matrix, &NdArrayDevice::Cpu),
            bias: vector.map(|v| Param::from_data(v, &NdArrayDevice::Cpu)),
        },
    }
}

/// `Tensor::dims` of the weight matrix: the numbers of input and output
/// features.
#[verifier::external_body]
pub(crate) fn linear_shape(l: &Linear) -> (r: [usize; 2])
    ensures
        r[0] == linear_d_input(*l),
        r[1] == linear_d_output(*l),
{
    l.inner.weight.dims()
}

/// `Tensor::to_data` of the weight matrix: its entries in row-major order,
/// the stored binary32 numbers handed out as 32-bit words, bit for bit.
#[verifier::external_body]
pub(crate) fn linear_read_weight(l: &Linear) -> (r: Vec<u32>)
    ensures
        r@ == linear_weight(*l),
{
    let mut data = l.inner.weight.to_data();
    data.dtype = DType::U32;
    data.into_vec().unwrap()
}

/// `Tensor::to_data` of the bias vector, where the projection has one:
/// its entries, the stored binary32 numbers handed out as 32-bit words,
/// bit for bit.
#[verifier::external_body]
pub(crate) fn linear_read_bias(l: &Linear) -> (r: Option<Vec<u32>>)
    ensures
        words_of(r) == linear_bias(*l),
{
    let data = l.inner.bias.as_ref().map(|b| TensorData { dtype: DType::U32, ..b.to_data() });
    data.map(|d| d.into_vec().unwrap())
}

/// `burn::nn::Linear::forward`: projects the last axis from `d_input` to
/// `d_output` features. It panics unless the last axis has `d_input`
/// entries, and on an empty axis. The shape of the result is stated, and
/// that it is a projection of the array by the module's parameters.
#[verifier::external_body]
pub(crate) fn linear_apply(l: &Linear, x: &Tensor3) -> (r: Tensor3)
    requires
        well_sized3(tensor3_dims(*x)),
        tensor3_dims(*x)[2] == linear_d_input(*l),
        linear_d_output(*l) > 0,
        tensor3_dims(*x)[0] * tensor3_dims(*x)[1] * linear_d_output(*l) <= max_elements(),
    ensures
        tensor3_dims(r) == seq![tensor3_dims(*x)[0], tensor3_dims(*x)[1], linear_d_output(*l)],
        tensor3_words(r).len() == tensor3_dims(*x)[0] * tensor3_dims(*x)[1] * linear_d_output(*l),
        is_projection(
            linear_d_input(*l),
            linear_d_output(*l),
            linear_weight(*l),
            linear_bias(*l),
            tensor3_dims(*x),
            tensor3_words(*x),
            tensor3_words(r),
        ),
{
    Tensor3 { inner: l.inner.forward(x.inner.clone()) }
}

/// Layer normalization over the last axis with a learned scale and shift,
/// kept as a `burn::nn::LayerNorm` on the `NdArray` backend. Contracts
/// speak of it through [`layer_norm_scale`] and [`layer_norm_shift`].
#[verifier::external_body]
pub struct LayerNorm {
    inner: burn::nn::LayerNorm<NdArray>,
}

/// The scale, one entry per feature, each as the bit pattern of its
/// binary32 value.
pub uninterp spec fn layer_norm_scale(n: LayerNorm) -> Seq<u32>;

/// The shift, one entry per feature, each as the bit pattern of its
/// binary32 value.
pub uninterp spec fn layer_norm_shift(n: LayerNorm) -> Seq<u32>;

/// `LayerNormConfig::new` and `init`: a layer normalization for `width`
/// features with every scale one and every shift zero.
#[verifier::external_body]
pub(crate) fn layer_norm_new(width: usize, device: &NdArrayDevice) -> (r: LayerNorm)
    requires
        0 < width <= max_elements(),
    ensures
        layer_norm_scale(r) == Seq::new(width as nat, |i: int| ONE),
        layer_norm_shift(r) == Seq::new(width as nat, |i: int| 0u32),
{
    LayerNorm { inner: LayerNormConfig::new(width).init(device) }
}

/// `LayerNormConfig::init` and `Param::from_data`: a layer normalization
/// that holds the given scale and shift. The words are stored as they are
/// and declared to be binary32 numbers.
#[verifier::external_body]
pub(crate) fn layer_norm_from_raw(scale: Vec<u32>, shift: Vec<u32>) -> (r: LayerNorm)
    requires
        0 < scale.len() <= max_elements(),
        shift.len() == scale.len(),
    ensures
        layer_norm_scale(r) == scale@,
        layer_norm_shift(r) == shift@,
{
    let width = scale.len();
    let mut inner = LayerNormConfig::new(width).init(&NdArrayDevice::Cpu);
    inner.gamma = Param::from_data(
        TensorData { dtype: DType::F32, ..TensorData::new(scale, [width]) },
        &NdArrayDevice::Cpu,
    );
    inner.beta = Param::from_data(
        TensorData { dtype: DType::F32, ..TensorData::new(shift, [width]) },
        &NdArrayDevice::Cpu,
    );
    LayerNorm { inner }
}

/// `Tensor::to_data` of the scale: its entries, the stored binary32
/// numbers handed out as 32-bit words, bit for bit.
#[verifier::external_body]
pub(crate) fn layer_norm_read_scale(n: &LayerNorm) -> (r: Vec<u32>)
    ensures
        r@ == layer_norm_scale(*n),
{
    TensorData { dtype: DType::U32, ..n.inner.gamma.to_data() }.into_vec().unwrap()
}

/// `Tensor::to_data` of the shift: its entries, the stored binary32
/// numbers handed out as 32-bit words, bit for bit.
#[verifier::external_body]
pub(crate) fn layer_norm_read_shift(n: &LayerNorm) -> (r: Vec<u32>)
    ensures
        r@ == layer_norm_shift(*n),
{
    TensorData { dtype: DType::U32, ..n.inner.beta.to_data() }.into_vec().unwrap()
}

/// `burn::nn::LayerNorm::forward`: normalizes every position over its
/// features, then scales and shifts. It needs as many features on the
/// last axis as the module has. The shape of the result is stated, and
/// that it is a normalization of the array by the module's parameters.
#[verifier::external_body]
pub(crate) fn layer_norm_apply(n: &LayerNorm, x: &Tensor3) -> (r: Tensor3)
    requires
        well_sized3(tensor3_dims(*x)),
        tensor3_dims(*x)[2] == layer_norm_scale(*n).len(),
    ensures
        tensor3_dims(r) == tensor3_dims(*x),
        tensor3_words(r).len() == tensor3_words(*x).len(),
        is_layer_norm(
            layer_norm_scale(*n),
            layer_norm_shift(*n),
            tensor3_dims(*x),
            tensor3_words(*x),
            tensor3_words(r),
        ),
{
    Tensor3 { inner: n.inner.forward(x.inner.clone()) }
}

/// The dropout module of `burn`: a probability with which elements are
/// zeroed while a model is trained.
#[verifier::external_type_specification]
#[verifier::external_body]
pub struct ExDropout(Dropout);

/// `burn::nn::Dropout::forward` on the `NdArray` backend: that backend
/// records no gradients, and without them dropout hands its input back
/// unchanged, whatever the probability. The contract is true of this
/// backend only.
#[verifier::external_body]
pub(crate) fn drop_out_apply(drop_out: &Dropout, x: Tensor3) -> (r: Tensor3)
    ensures
        tensor3_dims(r) == tensor3_dims(x),
        tensor3_words(r) == tensor3_words(x),
{
    Tensor3 { inner: drop_out.forward(x.inner) }
}

/// `Clone::clone` of a dropout module: a module with the same
/// probability.
#[verifier::external_body]
pub(crate) fn drop_out_copy(drop_out: &Dropout) -> (r: Dropout)
    ensures
        r == *drop_out,
{
    drop_out.clone()
}

} // verus!
