use crate::error::TransformerError;
use crate::arithmetic::is_rectified;
use crate::linear::{is_projected, Linear, LinearValue};
use crate::norm::{is_normalized, Normalization, NormalizationValue};
use crate::shape::{is_well_sized3, well_sized3, TensorValue};
use crate::tensor::{is_elementwise_sum, Tensor3};
use crate::trusted::{drop_out_apply, linear_apply, rectified, sum};
use burn::nn::Dropout;
use vstd::prelude::*;

verus! {

/// The value of a feed-forward network: its two projections.
pub struct FeedForwardView {
    /// The projection before the rectifier.
    pub first: LinearValue,
    /// The projection after the rectifier.
    pub second: LinearValue,
}

impl FeedForwardView {
    /// The second projection reads what the first gives, and both give at
    /// least one feature.
    pub open spec fn wf(self) -> bool {
        &&& self.first.d_output == self.second.d_input
        &&& self.first.d_output > 0
        &&& self.second.d_output > 0
    }

    /// The number of features that the network reads.
    pub open spec fn d_input(self) -> usize {
        self.first.d_input
    }

    /// The number of features between the two projections.
    pub open spec fn d_hidden(self) -> usize {
        self.first.d_output
    }

    /// The number of features that the network gives.
    pub open spec fn d_output(self) -> usize {
        self.second.d_output
    }

    /// The shapes that the network can be applied to: rank 3, no empty
    /// axis, the input features on the last axis, and an intermediate and
    /// a final result that fit in memory.
    pub open spec fn takes(self, dims: Seq<usize>) -> bool {
        &&& well_sized3(dims)
        &&& dims[2] == self.d_input()
        &&& well_sized3(seq![dims[0], dims[1], self.d_hidden()])
        &&& well_sized3(seq![dims[0], dims[1], self.d_output()])
    }
}

/// The steps by which `r` comes from `x` in a feed-forward network:
/// `projected` is the first projection of `x`, `hidden` is `projected`
/// rectified, and `r` is the second projection of `hidden`.
pub open spec fn feed_forward_steps(
    network: FeedForwardView,
    x: TensorValue,
    projected: TensorValue,
    hidden: TensorValue,
    r: TensorValue,
) -> bool {
    &&& is_projected(network.first, x, projected)
    &&& is_rectified(projected, hidden)
    &&& is_projected(network.second, hidden, r)
}

/// `r` is an output of the feed-forward network on `x`: the second
/// projection of the rectified first projection of `x`.
pub open spec fn is_fed_forward(network: FeedForwardView, x: TensorValue, r: TensorValue) -> bool {
    exists|projected: TensorValue, hidden: TensorValue| #[trigger]
        feed_forward_steps(network, x, projected, hidden, r)
}

/// The steps by which a sublayer is closed: `sum` holds, place by place,
/// the sum of the sublayer's input and its output, and `r` is `sum` after
/// the normalization.
pub open spec fn closing_steps(
    normalization: NormalizationValue,
    input: TensorValue,
    sublayer_output: TensorValue,
    sum: TensorValue,
    r: TensorValue,
) -> bool {
    &&& sum.dims == input.dims
    &&& sum.is_rank3()
    &&& is_elementwise_sum(input.words, sublayer_output.words, sum.words)
    &&& is_normalized(normalization, sum, r)
}

/// `r` closes a sublayer with the given input and output: it is the
/// normalized sum of the two. Under the identity it is the sum itself.
pub open spec fn is_closed(
    normalization: NormalizationValue,
    input: TensorValue,
    sublayer_output: TensorValue,
    r: TensorValue,
) -> bool {
    exists|sum: TensorValue| #[trigger]
        closing_steps(normalization, input, sublayer_output, sum, r)
}

/// Without a normalization, what closes a sublayer is exactly the sum of
/// the sublayer's input and its output.
pub proof fn lemma_closed_by_identity(
    input: TensorValue,
    sublayer_output: TensorValue,
    r: TensorValue,
)
    requires
        is_closed(NormalizationValue::Identity, input, sublayer_output, r),
    ensures
        r.dims == input.dims,
        is_elementwise_sum(input.words, sublayer_output.words, r.words),
{
}

/// The position-wise feed-forward network of a transformer block: a
/// projection, a rectifier, and a second projection.
pub struct FeedForward {
    first: Linear,
    second: Linear,
}

impl View for FeedForward {
    type V = FeedForwardView;

    closed spec fn view(&self) -> FeedForwardView {
        FeedForwardView { first: self.first@, second: self.second@ }
    }
}

impl FeedForward {
    #[verifier::type_invariant]
    spec fn well_formed(&self) -> bool {
        self@.wf()
    }

    /// Joins two projections into a network. They are refused unless the
    /// second reads as many features as the first gives, and both give at
    /// least one.
    pub fn new(first: Linear, second: Linear) -> (r: Result<Self, TransformerError>)
        ensures
            r is Ok <==> (FeedForwardView { first: first@, second: second@ }).wf(),
            r is Err ==> r == Err::<Self, TransformerError>(TransformerError::ConfigurationError),
            r is Ok ==> r.unwrap()@ == (FeedForwardView { first: first@, second: second@ }),
    {
        let hidden = first.d_output();
        if hidden == second.d_input() && hidden > 0 && second.d_output() > 0 {
            Ok(FeedForward::joined(first, second))
        } else {
            Err(TransformerError::ConfigurationError)
        }
    }

    pub(crate) fn joined(first: Linear, second: Linear) -> (r: Self)
        requires
            (FeedForwardView { first: first@, second: second@ }).wf(),
        ensures
            r@ == (FeedForwardView { first: first@, second: second@ }),
    {
        FeedForward { first, second }
    }

    /// The number of features that the network reads.
    pub fn d_input(&self) -> (r: usize)
        ensures
            r == self@.d_input(),
            self@.wf(),
    {
        proof {
            use_type_invariant(self);
        }
        self.first.d_input()
    }

    /// The number of features between the two projections.
    pub fn d_hidden(&self) -> (r: usize)
        ensures
            r == self@.d_hidden(),
            self@.wf(),
    {
        proof {
            use_type_invariant(self);
        }
        self.first.d_output()
    }

    /// The number of features that the network gives.
    pub fn d_output(&self) -> (r: usize)
        ensures
            r == self@.d_output(),
            self@.wf(),
    {
        proof {
            use_type_invariant(self);
        }
        self.second.d_output()
    }

    /// The first projection.
    pub fn first(&self) -> (r: &Linear)
        ensures
            r@ == self@.first,
    {
        &self.first
    }

    /// The second projection.
    pub fn second(&self) -> (r: &Linear)
        ensures
            r@ == self@.second,
    {
        &self.second
    }

    /// Applies the first projection, the rectifier and the second
    /// projection to every position.
    pub fn forward(&self, x: &Tensor3) -> (r: Result<Tensor3, TransformerError>)
        ensures
            r is Ok <==> self@.takes(x@.dims),
            r is Err ==> r == Err::<Tensor3, TransformerError>(TransformerError::ShapeMismatch),
            r is Ok ==> r.unwrap()@.is_rank3() && r.unwrap()@.dims == seq![
                x@.dims[0],
                x@.dims[1],
                self@.d_output(),
            ],
            r is Ok ==> is_fed_forward(self@, x@, r.unwrap()@),
    {
        let dims = x.dims();
        if is_well_sized3(&dims) && dims[2] == self.first.d_input() && is_well_sized3(
            &[dims[0], dims[1], self.first.d_output()],
        ) && is_well_sized3(&[dims[0], dims[1], self.second.d_output()]) {
            Ok(self.apply(x))
        } else {
            Err(TransformerError::ShapeMismatch)
        }
    }

    pub(crate) fn apply(&self, x: &Tensor3) -> (r: Tensor3)
        requires
            self@.takes(x@.dims),
        ensures
            r@.is_rank3(),
            r@.dims == seq![x@.dims[0], x@.dims[1], self@.d_output()],
            is_fed_forward(self@, x@, r@),
    {
        proof {
            use_type_invariant(self);
        }
        let projected = linear_apply(&self.first, x);
        let hidden = rectified(&projected);
        let r = linear_apply(&self.second, &hidden);
        assert(feed_forward_steps(self@, x@, projected@, hidden@, r@));
        r
    }
}

/// The shapes on which a sublayer's output can be added to its input and
/// normalized: both of one shape, rank 3, without an empty axis, and with
/// as many features as the normalization works on.
pub open spec fn residual_fits(
    normalization: NormalizationValue,
    input: Seq<usize>,
    sublayer_output: Seq<usize>,
) -> bool {
    &&& well_sized3(input)
    &&& sublayer_output == input
    &&& normalization.fits(input[2])
}

/// Closes a sublayer: applies dropout to the sublayer's output, which
/// leaves it as it is, adds the sublayer's input to it, and normalizes
/// the sum. With the identity in place of a normalization the result is
/// exactly the residual sum: every element is the sum of the input's and
/// the sublayer output's element at its place.
pub fn residual_normalize(
    normalization: &Normalization,
    drop_out: &Dropout,
    input: &Tensor3,
    sublayer_output: Tensor3,
) -> (r: Result<Tensor3, TransformerError>)
    ensures
        r is Ok <==> residual_fits(normalization@, input@.dims, sublayer_output@.dims),
        r is Err ==> r == Err::<Tensor3, TransformerError>(TransformerError::ShapeMismatch),
        r is Ok ==> r.unwrap()@.dims == input@.dims && r.unwrap()@.is_rank3(),
        r is Ok ==> is_closed(normalization@, input@, sublayer_output@, r.unwrap()@),
{
    let dims = input.dims();
    let other = sublayer_output.dims();
    if is_well_sized3(&dims) && other[0] == dims[0] && other[1] == dims[1] && other[2] == dims[2]
        && normalization.is_fit(dims[2]) {
        assert(sublayer_output@.dims =~= input@.dims);
        Ok(close_sublayer(normalization, drop_out, input, sublayer_output))
    } else {
        Err(TransformerError::ShapeMismatch)
    }
}

pub(crate) fn close_sublayer(
    normalization: &Normalization,
    drop_out: &Dropout,
    input: &Tensor3,
    sublayer_output: Tensor3,
) -> (r: Tensor3)
    requires
        residual_fits(normalization@, input@.dims, sublayer_output@.dims),
    ensures
        r@.dims == input@.dims,
        r@.is_rank3(),
        is_closed(normalization@, input@, sublayer_output@, r@),
{
    let kept = drop_out_apply(drop_out, sublayer_output);
    let total = sum(input, &kept);
    let ghost added = total@;
    let r = normalization.apply(total);
    assert(closing_steps(normalization@, input@, sublayer_output@, added, r@));
    r
}

} // verus!
