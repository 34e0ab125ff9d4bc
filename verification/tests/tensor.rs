use burn::backend::ndarray::NdArrayDevice;
use transformer::linear::Linear;
use transformer::norm::{LayerNorm, ONE};
use transformer::shape::{is_broadcastable4, is_well_sized3, is_well_sized4};
use transformer::tensor::{Mask, Tensor3};

fn bits(values: &[f32]) -> Vec<u32> {
    values.iter().map(|v| v.to_bits()).collect()
}

#[test]
fn tensor_keeps_its_dimensions_and_words() {
    let words = bits(&[1.0, -2.5, 0.0, 3.25, f32::INFINITY, -0.0]);
    let t = Tensor3::from_words([1, 2, 3], words.clone()).unwrap();
    assert_eq!(t.dims(), [1, 2, 3]);
    assert_eq!(t.to_words(), words);
}

#[test]
fn tensor_keeps_every_bit_pattern() {
    let words = vec![0x7FC0_0001, 0xFFFF_FFFF, 0x0000_0001, 0x8000_0000, 0x7F80_0001, 0xFF80_0001];
    let t = Tensor3::from_words([3, 1, 2], words.clone()).unwrap();
    assert_eq!(t.to_words(), words);
}

#[test]
fn rectifier_clears_negative_numbers_and_keeps_everything_else() {
    let words = vec![
        1.5f32.to_bits(),
        (-1.5f32).to_bits(),
        0x0000_0000,
        0x8000_0000,
        0x8000_0001,
        f32::NEG_INFINITY.to_bits(),
        f32::INFINITY.to_bits(),
        0x7FC0_0000,
        0xFFC0_0000,
        0x7F80_0001,
        0xFF80_0001,
        f32::MIN_POSITIVE.to_bits(),
    ];
    let expected = vec![
        1.5f32.to_bits(),
        0,
        0x0000_0000,
        0x8000_0000,
        0,
        0,
        f32::INFINITY.to_bits(),
        0x7FC0_0000,
        0xFFC0_0000,
        0x7F80_0001,
        0xFF80_0001,
        f32::MIN_POSITIVE.to_bits(),
    ];
    let t = Tensor3::from_words([2, 2, 3], words).unwrap();
    let r = t.rectified();
    assert_eq!(r.dims(), [2, 2, 3]);
    assert_eq!(r.to_words(), expected);
}

#[test]
fn tensor_needs_one_word_per_element() {
    assert!(Tensor3::from_words([2, 2, 2], bits(&[0.0; 7])).is_none());
    assert!(Tensor3::from_words([2, 2, 2], bits(&[0.0; 9])).is_none());
    assert!(Tensor3::from_words([2, 2, 2], bits(&[0.0; 8])).is_some());
}

#[test]
fn tensor_has_no_empty_axis() {
    assert!(Tensor3::from_words([0, 2, 2], Vec::new()).is_none());
    assert!(Tensor3::from_words([2, 0, 2], Vec::new()).is_none());
    assert!(Tensor3::from_words([2, 2, 0], Vec::new()).is_none());
}

#[test]
fn tensor_dimensions_must_not_overflow() {
    assert!(Tensor3::from_words([usize::MAX, usize::MAX, 1], Vec::new()).is_none());
    assert!(Tensor3::from_words([usize::MAX, 2, 2], bits(&[0.0; 4])).is_none());
}

#[test]
fn mask_needs_one_flag_per_position() {
    let mask = Mask::from_flags([1, 1, 2, 2], vec![false, true, false, false]).unwrap();
    assert_eq!(mask.dims(), [1, 1, 2, 2]);
    assert!(Mask::from_flags([1, 1, 2, 2], vec![false; 3]).is_none());
    assert!(Mask::from_flags([1, 0, 2, 2], Vec::new()).is_none());
    assert!(Mask::from_flags([usize::MAX, usize::MAX, 2, 2], Vec::new()).is_none());
}

#[test]
fn well_sized_dimensions_are_positive_and_storable() {
    let limit = (isize::MAX as usize) / 4;
    assert!(is_well_sized3(&[1, 1, 1]));
    assert!(is_well_sized3(&[1, 1, limit]));
    assert!(!is_well_sized3(&[1, 1, limit + 1]));
    assert!(!is_well_sized3(&[1, 2, limit]));
    assert!(!is_well_sized3(&[3, 0, 4]));
    assert!(is_well_sized4(&[2, 3, 4, 5]));
    assert!(is_well_sized4(&[1, 1, limit, 1]));
    assert!(!is_well_sized4(&[1, 1, limit, 2]));
    assert!(!is_well_sized4(&[2, 3, 4, 0]));
    assert!(!is_well_sized4(&[usize::MAX, usize::MAX, usize::MAX, usize::MAX]));
}

#[test]
fn broadcasting_takes_axes_of_length_one_or_equal_length() {
    assert!(is_broadcastable4(&[1, 1, 1, 1], &[2, 3, 4, 5]));
    assert!(is_broadcastable4(&[2, 1, 4, 1], &[2, 3, 4, 5]));
    assert!(is_broadcastable4(&[2, 3, 4, 5], &[2, 3, 4, 5]));
    assert!(!is_broadcastable4(&[2, 3, 4, 4], &[2, 3, 4, 5]));
    assert!(!is_broadcastable4(&[3, 1, 1, 1], &[2, 3, 4, 5]));
    assert!(!is_broadcastable4(&[2, 3, 4, 5], &[1, 1, 1, 1]));
}

#[test]
fn projection_keeps_its_parameters() {
    let weight = bits(&[1.0, 2.0, 3.0, 4.0, 5.0, 6.0]);
    let bias = bits(&[0.5, -0.5, 0.25]);
    let l = Linear::from_words(2, 3, weight.clone(), Some(bias.clone())).unwrap();
    assert_eq!(l.d_input(), 2);
    assert_eq!(l.d_output(), 3);
    assert_eq!(l.weight_words(), weight);
    assert_eq!(l.bias_words(), Some(bias));
}

#[test]
fn projection_without_bias_has_none() {
    let l = Linear::from_words(1, 2, bits(&[1.0, 2.0]), None).unwrap();
    assert_eq!(l.bias_words(), None);
    assert_eq!(l.d_input(), 1);
    assert_eq!(l.d_output(), 2);
}

#[test]
fn projection_parameters_must_match_its_sizes() {
    assert!(Linear::from_words(2, 3, bits(&[0.0; 5]), None).is_none());
    assert!(Linear::from_words(2, 3, bits(&[0.0; 6]), Some(bits(&[0.0; 2]))).is_none());
    assert!(Linear::from_words(0, 3, Vec::new(), None).is_none());
    assert!(Linear::from_words(3, 0, Vec::new(), None).is_none());
    assert!(Linear::from_words(usize::MAX, usize::MAX, Vec::new(), None).is_none());
}

#[test]
fn layer_norm_has_the_requested_width() {
    let norm = LayerNorm::new(7, &NdArrayDevice::Cpu).unwrap();
    assert_eq!(norm.width(), 7);
    assert!(LayerNorm::new(0, &NdArrayDevice::Cpu).is_none());
    assert!(LayerNorm::new(usize::MAX, &NdArrayDevice::Cpu).is_none());
}

#[test]
fn layer_norm_starts_with_scale_one_and_shift_zero() {
    let norm = LayerNorm::new(3, &NdArrayDevice::Cpu).unwrap();
    assert_eq!(norm.scale_words(), bits(&[1.0, 1.0, 1.0]));
    assert_eq!(norm.shift_words(), bits(&[0.0, 0.0, 0.0]));
    assert_eq!(norm.scale_words()[0], ONE);
}

#[test]
fn layer_norm_keeps_its_parameters() {
    let scale = bits(&[2.0, -1.0, 0.5]);
    let shift = bits(&[0.25, 0.0, -4.0]);
    let norm = LayerNorm::from_words(scale.clone(), shift.clone()).unwrap();
    assert_eq!(norm.width(), 3);
    assert_eq!(norm.scale_words(), scale);
    assert_eq!(norm.shift_words(), shift);
}

#[test]
fn layer_norm_parameters_must_be_of_one_positive_length() {
    assert!(LayerNorm::from_words(Vec::new(), Vec::new()).is_none());
    assert!(LayerNorm::from_words(bits(&[1.0, 1.0]), bits(&[0.0])).is_none());
    assert!(LayerNorm::from_words(bits(&[1.0]), bits(&[0.0])).is_some());
}
