use burn::backend::ndarray::NdArrayDevice;
use transformer::error::TransformerError;
use transformer::linear::Linear;
use transformer::masking::{apply_mask, NEGATIVE_INFINITY};
use transformer::multi_head_attention::{MultiHeadAttention, MultiHeadAttentionConfig};
use transformer::tensor::{Mask, Tensor3, Tensor4};

fn bits(values: &[f32]) -> Vec<u32> {
    values.iter().map(|v| v.to_bits()).collect()
}

fn floats(words: &[u32]) -> Vec<f32> {
    words.iter().map(|w| f32::from_bits(*w)).collect()
}

fn tensor(dims: [usize; 3], values: &[f32]) -> Tensor3 {
    Tensor3::from_words(dims, bits(values)).unwrap()
}

fn identity(d: usize) -> Linear {
    let mut weight = vec![0.0f32; d * d];
    for i in 0..d {
        weight[i * d + i] = 1.0;
    }
    Linear::from_words(d, d, bits(&weight), None).unwrap()
}

fn identity_attention(d: usize, heads: usize) -> MultiHeadAttention {
    let config = MultiHeadAttentionConfig::new(d, heads).unwrap();
    MultiHeadAttention::from_projections(
        &config,
        identity(d),
        identity(d),
        identity(d),
        Some(identity(d)),
        identity(d),
    )
    .unwrap()
}

fn close(actual: &[f32], expected: &[f64], tolerance: f64) {
    assert_eq!(actual.len(), expected.len());
    for (a, e) in actual.iter().zip(expected) {
        assert!((*a as f64 - e).abs() < tolerance, "{} differs from {}", a, e);
    }
}

fn ramp(count: usize, start: f32, step: f32) -> Vec<f32> {
    (0..count).map(|i| start + step * i as f32).collect()
}

/// One head over `[batch, length, width]` inputs, as rank-4 tensors.
fn single_head(attention: &MultiHeadAttention, x: &Tensor3) -> Tensor4 {
    attention.split_heads(x).unwrap()
}

#[test]
fn construction_fails_when_heads_do_not_divide_the_model_dimension() {
    assert!(matches!(
        MultiHeadAttentionConfig::new(10, 3),
        Err(TransformerError::ConfigurationError)
    ));
}

#[test]
fn construction_fails_without_heads_or_features() {
    assert!(matches!(
        MultiHeadAttentionConfig::new(8, 0),
        Err(TransformerError::ConfigurationError)
    ));
    assert!(matches!(
        MultiHeadAttentionConfig::new(0, 2),
        Err(TransformerError::ConfigurationError)
    ));
}

#[test]
fn construction_fails_when_the_weights_cannot_be_stored() {
    assert!(matches!(
        MultiHeadAttentionConfig::new(usize::MAX, 1),
        Err(TransformerError::ConfigurationError)
    ));
}

#[test]
fn configuration_divides_the_model_dimension_among_the_heads() {
    let config = MultiHeadAttentionConfig::new(12, 3).unwrap();
    assert_eq!(config.model_dimension(), 12);
    assert_eq!(config.head_count(), 3);
    assert_eq!(config.head_dimension(), 4);
    let whole = MultiHeadAttentionConfig::new(5, 5).unwrap();
    assert_eq!(whole.head_dimension(), 1);
    let single = MultiHeadAttentionConfig::new(5, 1).unwrap();
    assert_eq!(single.head_dimension(), 5);
}

#[test]
fn initialised_module_has_the_configured_sizes() {
    let config = MultiHeadAttentionConfig::new(6, 2).unwrap();
    let attention = config.init(&NdArrayDevice::Cpu);
    assert_eq!(attention.model_dimension(), 6);
    assert_eq!(attention.head_count(), 2);
    assert_eq!(attention.head_dimension(), 3);
}

#[test]
fn projections_must_map_the_model_dimension_to_itself() {
    let config = MultiHeadAttentionConfig::new(4, 2).unwrap();
    let narrow = Linear::from_words(4, 2, bits(&[0.0; 8]), None).unwrap();
    let result = MultiHeadAttention::from_projections(
        &config,
        identity(4),
        identity(4),
        narrow,
        Some(identity(4)),
        identity(4),
    );
    assert!(matches!(result, Err(TransformerError::ConfigurationError)));
    let other = MultiHeadAttention::from_projections(
        &config,
        identity(4),
        identity(4),
        identity(4),
        Some(identity(4)),
        identity(2),
    );
    assert!(matches!(other, Err(TransformerError::ConfigurationError)));
    let small = MultiHeadAttention::from_projections(
        &config,
        identity(4),
        identity(4),
        identity(4),
        Some(identity(2)),
        identity(4),
    );
    assert!(matches!(small, Err(TransformerError::ConfigurationError)));
}

#[test]
fn the_intermediate_projection_is_there_exactly_when_configured() {
    let with = MultiHeadAttentionConfig::new(4, 2).unwrap();
    let without = with.with_dense(false);
    assert!(with.dense());
    assert!(!without.dense());
    assert_eq!(without.model_dimension(), 4);
    assert_eq!(without.head_count(), 2);
    let missing = MultiHeadAttention::from_projections(
        &with,
        identity(4),
        identity(4),
        identity(4),
        None,
        identity(4),
    );
    assert!(matches!(missing, Err(TransformerError::ConfigurationError)));
    let surplus = MultiHeadAttention::from_projections(
        &without,
        identity(4),
        identity(4),
        identity(4),
        Some(identity(4)),
        identity(4),
    );
    assert!(matches!(surplus, Err(TransformerError::ConfigurationError)));
    assert!(with.init(&NdArrayDevice::Cpu).dense().is_some());
    assert!(without.init(&NdArrayDevice::Cpu).dense().is_none());
}

#[test]
fn without_the_intermediate_projection_negative_values_pass() {
    let config = MultiHeadAttentionConfig::new(2, 1).unwrap().with_dense(false);
    let attention = MultiHeadAttention::from_projections(
        &config,
        identity(2),
        identity(2),
        identity(2),
        None,
        identity(2),
    )
    .unwrap();
    let x = tensor([1, 1, 2], &[-3.0, 5.0]);
    let out = attention.forward(&x, &x, &x, None).unwrap();
    assert_eq!(floats(&out.to_words()), vec![-3.0, 5.0]);
}

#[test]
fn initialised_projections_have_a_bias_only_after_the_attention() {
    let attention = MultiHeadAttentionConfig::new(4, 2).unwrap().init(&NdArrayDevice::Cpu);
    for projection in [attention.query(), attention.key(), attention.value()] {
        assert_eq!(projection.d_input(), 4);
        assert_eq!(projection.d_output(), 4);
        assert_eq!(projection.weight_words().len(), 16);
        assert!(projection.bias_words().is_none());
    }
    assert_eq!(attention.dense().unwrap().bias_words().unwrap().len(), 4);
    assert_eq!(attention.output().bias_words().unwrap().len(), 4);
    assert_eq!(attention.output().weight_words().len(), 16);
}

#[test]
fn split_heads_groups_features_by_head() {
    let attention = identity_attention(4, 2);
    let x = tensor([2, 3, 4], &ramp(24, 0.0, 1.0));
    let split = attention.split_heads(&x).unwrap();
    assert_eq!(split.dims(), [2, 2, 3, 2]);
    let got = floats(&split.to_words());
    let mut expected = Vec::new();
    for b in 0..2 {
        for h in 0..2 {
            for l in 0..3 {
                for d in 0..2 {
                    expected.push(((b * 3 + l) * 4 + h * 2 + d) as f32);
                }
            }
        }
    }
    assert_eq!(got, expected);
}

#[test]
fn split_heads_rejects_another_feature_count() {
    let attention = identity_attention(4, 2);
    let x = tensor([2, 3, 2], &ramp(12, 0.0, 1.0));
    assert!(matches!(attention.split_heads(&x), Err(TransformerError::ShapeMismatch)));
}

#[test]
fn merge_heads_inverts_split_heads() {
    let attention = identity_attention(6, 3);
    let x = tensor([2, 5, 6], &ramp(60, -3.0, 0.25));
    let split = attention.split_heads(&x).unwrap();
    let merged = attention.merge_heads(&split).unwrap();
    assert_eq!(merged.dims(), [2, 5, 6]);
    assert_eq!(merged.to_words(), x.to_words());
}

#[test]
fn merge_heads_inverts_split_heads_for_one_head_and_for_one_feature_per_head() {
    for heads in [1usize, 4] {
        let attention = identity_attention(4, heads);
        let x = tensor([3, 2, 4], &ramp(24, 1.0, -0.5));
        let split = attention.split_heads(&x).unwrap();
        assert_eq!(split.dims(), [3, heads, 2, 4 / heads]);
        let merged = attention.merge_heads(&split).unwrap();
        assert_eq!(merged.to_words(), x.to_words());
    }
}

#[test]
fn merge_heads_rejects_heads_of_another_module() {
    let two = identity_attention(4, 2);
    let four = identity_attention(4, 4);
    let x = tensor([1, 2, 4], &ramp(8, 0.0, 1.0));
    let split = two.split_heads(&x).unwrap();
    assert!(matches!(four.merge_heads(&split), Err(TransformerError::ShapeMismatch)));
}

#[test]
fn identity_projections_reduce_attention_to_a_closed_form() {
    let attention = identity_attention(4, 2);
    let x = tensor([1, 2, 4], &[1.0, 0.0, 1.0, 0.0, 0.0, 2.0, 0.0, 2.0]);
    let mask = Mask::from_flags([1, 2, 2, 2], vec![false; 8]).unwrap();
    let out = attention.forward(&x, &x, &x, Some(&mask)).unwrap();
    assert_eq!(out.dims(), [1, 2, 4]);
    let scale = 2.0f64.sqrt();
    let first = (1.0 / scale).exp() / ((1.0 / scale).exp() + 1.0);
    let second = (4.0 / scale).exp() / ((4.0 / scale).exp() + 1.0);
    let expected = [
        first,
        2.0 * (1.0 - first),
        first,
        2.0 * (1.0 - first),
        1.0 - second,
        2.0 * second,
        1.0 - second,
        2.0 * second,
    ];
    close(&floats(&out.to_words()), &expected, 1e-5);
    let unmasked = attention.forward(&x, &x, &x, None).unwrap();
    assert_eq!(unmasked.to_words(), out.to_words());
}

#[test]
fn scores_are_scaled_by_the_head_dimension() {
    let attention = identity_attention(4, 1);
    let x = tensor([1, 2, 4], &[2.0, 0.0, 0.0, 0.0, 0.0, 2.0, 0.0, 0.0]);
    let heads = single_head(&attention, &x);
    let out = attention.scaled_dot_product_attention(&heads, &heads, &heads, None).unwrap();
    assert_eq!(out.dims(), [1, 1, 2, 4]);
    let weight = (4.0f64 / 2.0).exp() / ((4.0f64 / 2.0).exp() + 1.0);
    let expected = [
        2.0 * weight,
        2.0 * (1.0 - weight),
        0.0,
        0.0,
        2.0 * (1.0 - weight),
        2.0 * weight,
        0.0,
        0.0,
    ];
    close(&floats(&out.to_words()), &expected, 1e-5);
}

#[test]
fn attention_weights_sum_to_one() {
    let attention = identity_attention(3, 1);
    let queries = single_head(&attention, &tensor([2, 4, 3], &ramp(24, -2.0, 0.37)));
    let keys = single_head(&attention, &tensor([2, 3, 3], &ramp(18, 1.5, -0.21)));
    let mut one_hot = Vec::new();
    for _ in 0..2 {
        one_hot.extend_from_slice(&[1.0, 0.0, 0.0, 0.0, 1.0, 0.0, 0.0, 0.0, 1.0]);
    }
    let values = single_head(&attention, &tensor([2, 3, 3], &one_hot));
    let out = attention.scaled_dot_product_attention(&queries, &keys, &values, None).unwrap();
    assert_eq!(out.dims(), [2, 1, 4, 3]);
    let weights = floats(&out.to_words());
    for row in weights.chunks(3) {
        let total: f64 = row.iter().map(|w| *w as f64).sum();
        assert!((total - 1.0).abs() < 1e-5);
        assert!(row.iter().all(|w| (0.0..=1.0).contains(w)));
    }
}

#[test]
fn forbidden_positions_get_no_weight_whatever_their_score() {
    let attention = identity_attention(3, 1);
    let queries = single_head(&attention, &tensor([1, 2, 3], &[100.0, 0.0, 0.0, 0.0, 1.0, 0.0]));
    let keys = single_head(
        &attention,
        &tensor([1, 3, 3], &[1.0e4, 0.0, 0.0, 0.0, 1.0, 0.0, -5.0, 2.0, 1.0]),
    );
    let values = single_head(
        &attention,
        &tensor([1, 3, 3], &[1.0, 0.0, 0.0, 0.0, 1.0, 0.0, 0.0, 0.0, 1.0]),
    );
    let flags = vec![true, false, false, false, false, true];
    let mask = Mask::from_flags([1, 1, 2, 3], flags).unwrap();
    let out =
        attention.scaled_dot_product_attention(&queries, &keys, &values, Some(&mask)).unwrap();
    let weights = floats(&out.to_words());
    assert_eq!(weights[0], 0.0);
    assert_eq!(weights[5], 0.0);
    assert!(((weights[1] + weights[2]) as f64 - 1.0).abs() < 1e-5);
    assert!(((weights[3] + weights[4]) as f64 - 1.0).abs() < 1e-5);
}

#[test]
fn a_mask_is_broadcast_over_batch_heads_and_queries() {
    let attention = identity_attention(2, 2);
    let x = tensor([2, 3, 2], &ramp(12, 0.5, 0.5));
    let scores: Tensor4 = {
        let wide = identity_attention(6, 2);
        let y = tensor([2, 2, 6], &ramp(24, 0.0, 1.0));
        wide.split_heads(&y).unwrap()
    };
    assert_eq!(scores.dims(), [2, 2, 2, 3]);
    let mask = Mask::from_flags([1, 1, 1, 3], vec![false, false, true]).unwrap();
    let masked = floats(&apply_mask(scores, Some(&mask)).unwrap().to_words());
    for (k, value) in masked.iter().enumerate() {
        if k % 3 == 2 {
            assert_eq!(*value, f32::NEG_INFINITY);
        } else {
            assert!(value.is_finite());
        }
    }
    let per_batch = Mask::from_flags([2, 1, 1, 3], vec![true, false, false, false, false, true])
        .unwrap();
    let out = attention.forward(&x, &x, &x, Some(&per_batch));
    assert!(out.is_ok());
}

#[test]
fn apply_mask_sets_forbidden_scores_to_negative_infinity() {
    let attention = identity_attention(2, 1);
    let x = tensor([1, 3, 2], &[1.0, 2.0, 3.0, 4.0, 5.0, 6.0]);
    let scores: Tensor4 = attention.split_heads(&x).unwrap();
    assert_eq!(scores.dims(), [1, 1, 3, 2]);
    let mask = Mask::from_flags([1, 1, 1, 2], vec![false, true]).unwrap();
    let masked = apply_mask(scores, Some(&mask)).unwrap();
    let inf = NEGATIVE_INFINITY;
    assert_eq!(
        masked.to_words(),
        vec![1.0f32.to_bits(), inf, 3.0f32.to_bits(), inf, 5.0f32.to_bits(), inf]
    );
    assert_eq!(f32::from_bits(inf), f32::NEG_INFINITY);
}

#[test]
fn a_mask_that_forbids_nothing_changes_nothing() {
    let attention = identity_attention(2, 1);
    let x = tensor([2, 3, 2], &ramp(12, -1.0, 0.75));
    let scores = attention.split_heads(&x).unwrap();
    let words = scores.to_words();
    let mask = Mask::from_flags([2, 1, 1, 2], vec![false; 4]).unwrap();
    let same = apply_mask(scores, Some(&mask)).unwrap();
    assert_eq!(same.dims(), [2, 1, 3, 2]);
    assert_eq!(same.to_words(), words);
}

#[test]
fn split_heads_inverts_merge_heads() {
    let attention = identity_attention(6, 2);
    let x = tensor([2, 2, 6], &ramp(24, 0.0, 1.0));
    let heads = attention.split_heads(&x).unwrap();
    let merged = attention.merge_heads(&heads).unwrap();
    let again = attention.split_heads(&merged).unwrap();
    assert_eq!(again.dims(), heads.dims());
    assert_eq!(again.to_words(), heads.to_words());
}

#[test]
fn apply_mask_without_a_mask_returns_the_scores() {
    let attention = identity_attention(2, 1);
    let x = tensor([1, 3, 2], &[1.0, 2.0, 3.0, 4.0, 5.0, 6.0]);
    let scores = attention.split_heads(&x).unwrap();
    let words = scores.to_words();
    let same = apply_mask(scores, None).unwrap();
    assert_eq!(same.to_words(), words);
}

#[test]
fn apply_mask_rejects_a_mask_that_cannot_be_broadcast() {
    let attention = identity_attention(2, 1);
    let x = tensor([1, 3, 2], &[1.0, 2.0, 3.0, 4.0, 5.0, 6.0]);
    let scores = attention.split_heads(&x).unwrap();
    let mask = Mask::from_flags([1, 1, 2, 2], vec![false; 4]).unwrap();
    assert!(matches!(apply_mask(scores, Some(&mask)), Err(TransformerError::ShapeMismatch)));
}

#[test]
fn forward_keeps_the_shape_of_the_queries() {
    let attention = MultiHeadAttentionConfig::new(4, 2).unwrap().init(&NdArrayDevice::Cpu);
    let queries = tensor([2, 3, 4], &ramp(24, -1.0, 0.1));
    let keys = tensor([2, 5, 4], &ramp(40, 0.3, -0.05));
    let values = tensor([2, 5, 4], &ramp(40, 0.0, 0.02));
    let out = attention.forward(&queries, &keys, &values, None).unwrap();
    assert_eq!(out.dims(), [2, 3, 4]);
    assert_eq!(out.to_words().len(), 24);
    assert!(attention.accepts(&queries, &keys, &values, None));
}

#[test]
fn forward_rejects_inputs_of_another_model_dimension() {
    let attention = identity_attention(4, 2);
    let good = tensor([1, 2, 4], &ramp(8, 0.0, 1.0));
    let bad = tensor([1, 2, 2], &ramp(4, 0.0, 1.0));
    assert!(matches!(
        attention.forward(&bad, &good, &good, None),
        Err(TransformerError::ShapeMismatch)
    ));
    assert!(matches!(
        attention.forward(&good, &bad, &good, None),
        Err(TransformerError::ShapeMismatch)
    ));
    assert!(matches!(
        attention.forward(&good, &good, &bad, None),
        Err(TransformerError::ShapeMismatch)
    ));
    assert!(!attention.accepts(&good, &good, &bad, None));
}

#[test]
fn forward_rejects_inputs_that_disagree_with_each_other() {
    let attention = identity_attention(4, 2);
    let queries = tensor([2, 2, 4], &ramp(16, 0.0, 1.0));
    let one_batch = tensor([1, 2, 4], &ramp(8, 0.0, 1.0));
    let longer = tensor([2, 3, 4], &ramp(24, 0.0, 1.0));
    assert!(matches!(
        attention.forward(&queries, &one_batch, &one_batch, None),
        Err(TransformerError::ShapeMismatch)
    ));
    assert!(matches!(
        attention.forward(&queries, &queries, &longer, None),
        Err(TransformerError::ShapeMismatch)
    ));
    assert!(attention.forward(&queries, &longer, &longer, None).is_ok());
}

#[test]
fn forward_rejects_a_mask_that_cannot_be_broadcast() {
    let attention = identity_attention(4, 2);
    let x = tensor([1, 2, 4], &ramp(8, 0.0, 1.0));
    let three_heads = Mask::from_flags([1, 3, 2, 2], vec![false; 12]).unwrap();
    assert!(matches!(
        attention.forward(&x, &x, &x, Some(&three_heads)),
        Err(TransformerError::ShapeMismatch)
    ));
    let long_keys = Mask::from_flags([1, 1, 2, 3], vec![false; 6]).unwrap();
    assert!(matches!(
        attention.forward(&x, &x, &x, Some(&long_keys)),
        Err(TransformerError::ShapeMismatch)
    ));
}

#[test]
fn scaled_dot_product_attention_rejects_heads_that_do_not_fit() {
    let attention = identity_attention(4, 2);
    let other = identity_attention(4, 4);
    let x = tensor([1, 2, 4], &ramp(8, 0.0, 1.0));
    let longer = tensor([1, 3, 4], &ramp(12, 0.0, 1.0));
    let heads = attention.split_heads(&x).unwrap();
    let more_heads = other.split_heads(&x).unwrap();
    let long_heads = attention.split_heads(&longer).unwrap();
    assert!(matches!(
        attention.scaled_dot_product_attention(&more_heads, &more_heads, &more_heads, None),
        Err(TransformerError::ShapeMismatch)
    ));
    assert!(matches!(
        attention.scaled_dot_product_attention(&heads, &long_heads, &heads, None),
        Err(TransformerError::ShapeMismatch)
    ));
    assert!(attention.scaled_dot_product_attention(&heads, &long_heads, &long_heads, None).is_ok());
}

#[test]
fn the_rectifier_between_the_last_projections_clears_negative_values() {
    let attention = identity_attention(2, 1);
    let x = tensor([1, 1, 2], &[-3.0, 5.0]);
    let out = attention.forward(&x, &x, &x, None).unwrap();
    assert_eq!(floats(&out.to_words()), vec![0.0, 5.0]);
}

/// The places at which masking turned a score of one into negative
/// infinity.
fn forbidden(mask: &Mask, dims: [usize; 3]) -> Vec<bool> {
    let attention = identity_attention(dims[2], 1);
    let ones = vec![1.0f32; dims[0] * dims[1] * dims[2]];
    let scores = attention.split_heads(&tensor(dims, &ones)).unwrap();
    let masked = apply_mask(scores, Some(mask)).unwrap();
    masked.to_words().iter().map(|w| *w == NEGATIVE_INFINITY).collect()
}

#[test]
fn causal_mask_forbids_later_positions() {
    let mask = Mask::causal(3).unwrap();
    assert_eq!(mask.dims(), [1, 1, 3, 3]);
    assert_eq!(
        forbidden(&mask, [1, 3, 3]),
        vec![false, true, true, false, false, true, false, false, false]
    );
    assert_eq!(forbidden(&Mask::causal(1).unwrap(), [1, 1, 1]), vec![false]);
    assert!(Mask::causal(0).is_none());
    assert!(Mask::causal(usize::MAX).is_none());
}

#[test]
fn causal_mask_is_the_same_for_every_batch_entry() {
    let mask = Mask::causal(2).unwrap();
    assert_eq!(
        forbidden(&mask, [2, 2, 2]),
        vec![false, true, false, false, false, true, false, false]
    );
}

#[test]
fn padding_mask_forbids_positions_beyond_each_length() {
    let mask = Mask::padding(&vec![2, 0, 5], 3).unwrap();
    assert_eq!(mask.dims(), [3, 1, 1, 3]);
    assert_eq!(
        forbidden(&mask, [3, 1, 3]),
        vec![false, false, true, true, true, true, false, false, false]
    );
    assert_eq!(
        forbidden(&mask, [3, 2, 3])[..6],
        [false, false, true, false, false, true]
    );
    assert!(Mask::padding(&Vec::new(), 3).is_none());
    assert!(Mask::padding(&vec![1], 0).is_none());
}

#[test]
fn a_forbidden_key_with_a_huge_score_gets_no_weight() {
    let attention = identity_attention(2, 1);
    let queries = single_head(&attention, &tensor([1, 1, 2], &[100.0, 0.0]));
    let keys = single_head(&attention, &tensor([1, 2, 2], &[100.0, 0.0, 0.0, 0.0]));
    let values = single_head(&attention, &tensor([1, 2, 2], &[1.0, 0.0, 0.0, 1.0]));
    let mask = Mask::from_flags([1, 1, 1, 2], vec![true, false]).unwrap();
    let out =
        attention.scaled_dot_product_attention(&queries, &keys, &values, Some(&mask)).unwrap();
    assert_eq!(floats(&out.to_words()), vec![0.0, 1.0]);
}

#[test]
fn a_query_that_sees_only_its_own_key_gets_its_own_value() {
    let attention = identity_attention(4, 2);
    let x = tensor([1, 2, 4], &[1.0, 2.0, 3.0, 4.0, 5.0, 6.0, 7.0, 8.0]);
    let others = vec![false, true, true, false, false, true, true, false];
    let mask = Mask::from_flags([1, 2, 2, 2], others).unwrap();
    let out = attention.forward(&x, &x, &x, Some(&mask)).unwrap();
    assert_eq!(out.dims(), [1, 2, 4]);
    assert_eq!(out.to_words(), x.to_words());
}

#[test]
fn equal_scores_average_the_values_head_by_head() {
    let attention = identity_attention(4, 2);
    let values = tensor([1, 2, 4], &[1.0, 2.0, 3.0, 4.0, 5.0, 6.0, 7.0, 8.0]);
    let one_query = tensor([1, 1, 4], &[0.0; 4]);
    let out = attention.forward(&one_query, &values, &values, None).unwrap();
    assert_eq!(out.dims(), [1, 1, 4]);
    assert_eq!(floats(&out.to_words()), vec![3.0, 4.0, 5.0, 6.0]);
    let two_queries = tensor([1, 2, 4], &[0.0; 8]);
    let mask = Mask::from_flags([1, 2, 2, 2], vec![false; 8]).unwrap();
    let both = attention.forward(&two_queries, &values, &values, Some(&mask)).unwrap();
    assert_eq!(floats(&both.to_words()), vec![3.0, 4.0, 5.0, 6.0, 3.0, 4.0, 5.0, 6.0]);
}

#[test]
fn scaled_dot_product_attention_has_its_closed_form() {
    let attention = identity_attention(4, 2);
    let x = tensor([1, 2, 4], &[1.0, 0.0, 1.0, 0.0, 0.0, 1.0, 0.0, 1.0]);
    let heads = attention.split_heads(&x).unwrap();
    let mask = Mask::from_flags([1, 2, 2, 2], vec![false; 8]).unwrap();
    let out = attention.scaled_dot_product_attention(&heads, &heads, &heads, Some(&mask)).unwrap();
    let s = 1.0 / (1.0 + (-1.0 / 2.0f64.sqrt()).exp());
    let expected = [s, 1.0 - s, 1.0 - s, s, s, 1.0 - s, 1.0 - s, s];
    close(&floats(&out.to_words()), &expected, 1e-5);
    let unmasked = attention.scaled_dot_product_attention(&heads, &heads, &heads, None).unwrap();
    assert_eq!(unmasked.to_words(), out.to_words());
}
