use crate::shape::{
    is_well_sized3, is_well_sized4, lemma_product_grows, volume3, volume4, well_sized3,
    well_sized4, MaskValue, TensorValue,
};
use crate::trusted::{
    binary32_sum, mask_dims, mask_flags, mask_from_raw, mask_shape, rectified, tensor3_dims,
    tensor3_from_raw, tensor3_read, tensor3_shape, tensor3_words, tensor4_dims, tensor4_read,
    tensor4_shape, tensor4_words,
};
use vstd::prelude::*;

pub use crate::trusted::{Mask, Tensor3, Tensor4};

verus! {

/// The word is the bit pattern of a NaN.
pub open spec fn is_nan(w: u32) -> bool {
    0x7F80_0000 < w <= 0x7FFF_FFFF || 0xFF80_0000 < w
}

/// `s` is a sum of `a` and `b`: the sum itself where that is a number,
/// and any NaN where it is none, for which of the NaNs an addition gives
/// differs from machine to machine.
pub open spec fn is_binary32_sum(a: u32, b: u32, s: u32) -> bool {
    s == binary32_sum(a, b) || (is_nan(binary32_sum(a, b)) && is_nan(s))
}

/// `s` holds, place by place, a sum of the words of `a` and `b`.
pub open spec fn is_elementwise_sum(a: Seq<u32>, b: Seq<u32>, s: Seq<u32>) -> bool {
    &&& s.len() == a.len()
    &&& forall|k: int| 0 <= k < a.len() ==> is_binary32_sum(a[k], b[k], #[trigger] s[k])
}

impl View for Tensor3 {
    type V = TensorValue;

    open spec fn view(&self) -> TensorValue {
        TensorValue { dims: tensor3_dims(*self), words: tensor3_words(*self) }
    }
}

impl View for Mask {
    type V = MaskValue;

    open spec fn view(&self) -> MaskValue {
        MaskValue { dims: mask_dims(*self), flags: mask_flags(*self) }
    }
}

impl View for Tensor4 {
    type V = TensorValue;

    open spec fn view(&self) -> TensorValue {
        TensorValue { dims: tensor4_dims(*self), words: tensor4_words(*self) }
    }
}

/// What the rectifier makes of one element: positive zero of every
/// negative number, negative infinity included, and the element itself of
/// everything else, which leaves negative zero and every NaN as they are.
pub open spec fn rectified_word(w: u32) -> u32 {
    if 0x8000_0000 < w <= 0xFF80_0000 {
        0
    } else {
        w
    }
}

impl Tensor3 {
    /// Builds the tensor with the given axis lengths from its elements in
    /// row-major order, each given as the bit pattern of a binary32 value.
    /// There is no such tensor when an axis is empty, when the elements
    /// would not fit in memory, or when the number of words differs from
    /// the product of the axis lengths.
    pub fn from_words(dims: [usize; 3], words: Vec<u32>) -> (r: Option<Tensor3>)
        ensures
            r is Some <==> well_sized3(dims@) && volume3(dims@) == words.len(),
            r is Some ==> r.unwrap()@ == (TensorValue { dims: dims@, words: words@ }),
    {
        if !is_well_sized3(&dims) {
            return None;
        }
        proof {
            lemma_product_grows(dims[0] as int, dims[1] as int, dims[2] as int);
        }
        if dims[0] * dims[1] * dims[2] == words.len() {
            Some(tensor3_from_raw(dims, words))
        } else {
            None
        }
    }

    /// The length of each axis.
    pub fn dims(&self) -> (r: [usize; 3])
        ensures
            r@ == self@.dims,
            self@.is_rank3(),
    {
        tensor3_shape(self)
    }

    /// The elements in row-major order, each as the bit pattern of its
    /// binary32 value.
    pub fn to_words(&self) -> (r: Vec<u32>)
        ensures
            r@ == self@.words,
    {
        tensor3_read(self)
    }

    /// The tensor with every negative element replaced by zero.
    pub fn rectified(&self) -> (r: Tensor3)
        ensures
            r@.dims == self@.dims,
            r@.words.len() == self@.words.len(),
            forall|k: int|
                0 <= k < self@.words.len() ==> #[trigger] r@.words[k] == rectified_word(
                    self@.words[k],
                ),
    {
        rectified(self)
    }
}

impl Tensor4 {
    /// The length of each axis.
    pub fn dims(&self) -> (r: [usize; 4])
        ensures
            r@ == self@.dims,
            self@.is_rank4(),
    {
        tensor4_shape(self)
    }

    /// The elements in row-major order, each as the bit pattern of its
    /// binary32 value.
    pub fn to_words(&self) -> (r: Vec<u32>)
        ensures
            r@ == self@.words,
    {
        tensor4_read(self)
    }
}

impl Mask {
    /// Builds the mask with the given axis lengths from its entries in
    /// row-major order. There is no such mask when an axis is empty, when
    /// the entries would not fit in memory, or when their number differs
    /// from the product of the axis lengths.
    pub fn from_flags(dims: [usize; 4], flags: Vec<bool>) -> (r: Option<Mask>)
        ensures
            r is Some <==> well_sized4(dims@) && volume4(dims@) == flags.len(),
            r is Some ==> r.unwrap()@ == (MaskValue { dims: dims@, flags: flags@ }),
    {
        if !is_well_sized4(&dims) {
            return None;
        }
        proof {
            lemma_product_grows(dims[0] as int, dims[1] as int, dims[2] as int);
            lemma_product_grows(dims[0] * dims[1], dims[2] as int, dims[3] as int);
        }
        if dims[0] * dims[1] * dims[2] * dims[3] == flags.len() {
            Some(mask_from_raw(dims, flags))
        } else {
            None
        }
    }

    /// The length of each axis.
    pub fn dims(&self) -> (r: [usize; 4])
        ensures
            r@ == self@.dims,
            self@.is_rank4(),
    {
        mask_shape(self)
    }
}

} // verus!
