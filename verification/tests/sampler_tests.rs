//! Tests for the sampling stages: arg-max, descending sort, top-k cutoff,
//! nucleus cutoff and the cumulative draw.

use web_rwkv_ffi::sampler::{
    argmax, argmax_token, nucleus_count, pick_token, sampling_disabled, select_index,
    sort_indices_desc, top_k_prefix,
};

/// Order-preserving integer encoding of an `f32`, as a host would hand the
/// sampler: greater encoding, greater value under the total order.
fn key(x: f32) -> u64 {
    let bits = x.to_bits() as i32;
    let flipped = if bits < 0 { !(bits as u32) } else { (bits as u32) ^ 0x8000_0000 };
    flipped as u64
}

#[test]
fn sampling_disabled_threshold() {
    assert!(sampling_disabled(0));
    assert!(sampling_disabled(1));
    assert!(!sampling_disabled(2));
    assert!(!sampling_disabled(128));
}

#[test]
fn argmax_picks_greatest() {
    assert_eq!(argmax(&vec![1, 5, 2]), 1);
    assert_eq!(argmax(&vec![9]), 0);
    assert_eq!(argmax(&vec![0, 0, 7, 7]), 2);
}

#[test]
fn argmax_ties_break_to_first() {
    assert_eq!(argmax(&vec![3, 1, 3]), 0);
    assert_eq!(argmax(&vec![0, 4, 4, 4]), 1);
}

#[test]
fn argmax_on_float_keys() {
    let logits = [0.1f32, 0.9, 0.3, -2.5];
    let keys: Vec<u64> = logits.iter().map(|&x| key(x)).collect();
    assert_eq!(argmax(&keys), 1);
    // negative values order correctly under the encoding
    let keys2: Vec<u64> = [-0.5f32, -0.1, -3.0].iter().map(|&x| key(x)).collect();
    assert_eq!(argmax(&keys2), 1);
}

#[test]
fn argmax_token_deterministic() {
    let keys: Vec<u64> = [0.5f32, 2.0, 1.0].iter().map(|&x| key(x)).collect();
    let first = argmax_token(&keys);
    let second = argmax_token(&keys);
    assert_eq!(first, 1);
    assert_eq!(first, second);
}

#[test]
fn sort_descending_simple() {
    assert_eq!(sort_indices_desc(&vec![10, 30, 20]), vec![1, 2, 0]);
    assert_eq!(sort_indices_desc(&vec![]), Vec::<usize>::new());
    assert_eq!(sort_indices_desc(&vec![4]), vec![0]);
}

#[test]
fn sort_descending_is_permutation_under_ties() {
    let r = sort_indices_desc(&vec![5, 5]);
    let mut sorted = r.clone();
    sorted.sort();
    assert_eq!(sorted, vec![0, 1]);
}

#[test]
fn top_k_keeps_at_least_one_and_at_most_k() {
    let sorted = vec![2usize, 0, 1];
    assert_eq!(top_k_prefix(&sorted, 0), vec![2]);
    assert_eq!(top_k_prefix(&sorted, 1), vec![2]);
    assert_eq!(top_k_prefix(&sorted, 2), vec![2, 0]);
    assert_eq!(top_k_prefix(&sorted, 10), vec![2, 0, 1]);
    assert_eq!(top_k_prefix(&Vec::new(), 3), Vec::<usize>::new());
}

#[test]
fn nucleus_concentrated_keeps_exactly_one() {
    // probabilities [0.9, 0.05, 0.05] scaled by 1000: mass before each
    // candidate is [0, 900, 950]; threshold 0.5 -> 500
    assert_eq!(nucleus_count(&vec![0, 900, 950], 500), 1);
}

#[test]
fn nucleus_permissive_keeps_all() {
    // threshold 1.0 -> 1000: no prefix mass exceeds it
    assert_eq!(nucleus_count(&vec![0, 900, 950], 1000), 3);
}

#[test]
fn nucleus_zero_threshold_keeps_one() {
    assert_eq!(nucleus_count(&vec![0, 400, 700], 0), 1);
}

#[test]
fn select_walks_cumulative_distribution() {
    let cum = vec![250, 500, 1000];
    assert_eq!(select_index(&cum, 0), 0);
    assert_eq!(select_index(&cum, 250), 0);
    assert_eq!(select_index(&cum, 251), 1);
    assert_eq!(select_index(&cum, 501), 2);
    assert_eq!(select_index(&cum, 1000), 2);
}

#[test]
fn select_falls_back_to_first() {
    // draw above every cumulative weight: the numeric edge case
    assert_eq!(select_index(&vec![250, 500, 999], 1000), 0);
    assert_eq!(select_index(&vec![100], u64::MAX), 0);
}

/// Encoding a host uses for non-negative masses: the raw bit pattern of a
/// non-negative `f32` is already monotone and encodes zero as zero.
fn mass_key(x: f32) -> u64 {
    u64::from((if x > 0.0 { x } else { 0.0 }).to_bits())
}

#[test]
fn select_at_draw_extremes_with_float_masses() {
    let cum: Vec<u64> = [0.25f32, 0.5, 1.0].iter().map(|&x| mass_key(x)).collect();
    // a draw of exactly zero lands on the first candidate
    assert_eq!(select_index(&cum, mass_key(0.0)), 0);
    // a draw just below one lands on the last candidate
    let just_below_one = f32::from_bits(1.0f32.to_bits() - 1);
    assert_eq!(select_index(&cum, mass_key(just_below_one)), 2);
}

#[test]
fn nucleus_with_float_masses() {
    // probabilities [0.9, 0.05, 0.05]: mass before each candidate
    let cum_before: Vec<u64> = [0.0f32, 0.9, 0.95].iter().map(|&x| mass_key(x)).collect();
    assert_eq!(nucleus_count(&cum_before, mass_key(0.5)), 1);
    assert_eq!(nucleus_count(&cum_before, mass_key(1.0)), 3);
}

#[test]
fn pick_token_stays_in_vocabulary() {
    let candidates = vec![7usize, 3, 9];
    let cum = vec![400, 800, 1000];
    assert_eq!(pick_token(&candidates, &cum, 0, 10), 7);
    assert_eq!(pick_token(&candidates, &cum, 500, 10), 3);
    assert_eq!(pick_token(&candidates, &cum, 1000, 10), 9);
    // fallback draw still lands on a candidate below the vocabulary size
    let t = pick_token(&candidates, &cum, u64::MAX, 10);
    assert!(usize::from(t) < 10);
}
