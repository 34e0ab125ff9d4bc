//! Multi-head attention and the encoder and decoder layers of a
//! transformer, computed on `burn`'s `NdArray` backend, with the
//! bookkeeping proved: which inputs a module accepts, what shape it
//! returns, through which steps the result is made from the inputs, and
//! where every element goes when heads are split and merged and when
//! scores are masked.
//!
//! The library computes in inference mode. The backend records no
//! gradients, and without them `burn`'s dropout passes its input on
//! unchanged: a layer keeps its dropout module and calls it at every
//! dropout site, but no element is ever zeroed.
//!
//! Tensors hold 32-bit floating-point numbers; the contracts speak of
//! them by their dimensions and by the bit patterns of their elements in
//! row-major order. The arithmetic itself (matrix products, softmax,
//! projections, layer normalization) is `burn`'s. How it rounds differs
//! from machine to machine, so a contract does not say which numbers come
//! out: it says that the result is a product, a softmax, a projection or
//! a normalization of given values, and which values those are.

pub mod arithmetic;
pub mod decoder;
pub mod encoder;
pub mod error;
pub mod heads;
pub mod linear;
pub mod masking;
pub mod multi_head_attention;
pub mod norm;
pub mod shape;
pub mod sublayer;
pub mod tensor;
pub mod trusted;
