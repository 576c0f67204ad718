//! Tests for the autoregressive inference loop: chunked consumption,
//! termination, and output accounting in both modes.

use web_rwkv_ffi::engine::{InferenceEngine, OutputMode, TOKEN_CHUNK_SIZE};

fn row(vocab: usize, fill: u32) -> Vec<u32> {
    vec![fill; vocab]
}

#[test]
fn empty_input_is_rejected() {
    assert!(InferenceEngine::try_new(Vec::new(), OutputMode::Last, 4).is_none());
    assert!(InferenceEngine::try_new(Vec::new(), OutputMode::Full, 4).is_none());
}

#[test]
fn full_mode_yields_one_row_per_token() {
    let tokens: Vec<u16> = vec![10, 11, 12, 13, 14];
    let mut e = InferenceEngine::try_new(tokens, OutputMode::Full, 3).unwrap();
    let mut fill: u32 = 0;
    // the driver consumes chunks of its own choosing: 2, 2, 1
    for consumed in [2usize, 2, 1] {
        assert!(!e.is_done());
        let rows: Vec<Vec<u32>> = (0..consumed).map(|_| {
            fill += 1;
            row(3, fill)
        }).collect();
        e.step(consumed, rows);
    }
    assert!(e.is_done());
    let rows = e.into_rows();
    assert_eq!(rows.len(), 5);
    for (i, r) in rows.iter().enumerate() {
        assert_eq!(r.len(), 3);
        assert_eq!(r[0], (i + 1) as u32);
    }
}

#[test]
fn last_mode_keeps_only_the_final_row() {
    let tokens: Vec<u16> = vec![1, 2, 3];
    let mut e = InferenceEngine::try_new(tokens, OutputMode::Last, 4).unwrap();
    e.step(2, vec![row(4, 7)]);
    assert!(!e.is_done());
    e.step(1, vec![row(4, 9)]);
    assert!(e.is_done());
    let last = e.into_last();
    assert_eq!(last, vec![9, 9, 9, 9]);
}

#[test]
fn pending_suffix_strictly_shrinks() {
    let tokens: Vec<u16> = (0..10).collect();
    let mut e = InferenceEngine::try_new(tokens, OutputMode::Last, 2).unwrap();
    let mut remaining = 10usize;
    let mut steps = 0usize;
    while !e.is_done() {
        let chunk = e.max_chunk().min(3);
        e.step(chunk, vec![row(2, 0)]);
        assert!(e.pending.len() < remaining);
        remaining -= chunk;
        steps += 1;
        assert!(steps <= 10);
    }
    assert_eq!(remaining, 0);
}

#[test]
fn chunk_is_capped() {
    let tokens: Vec<u16> = vec![0; 300];
    let e = InferenceEngine::try_new(tokens, OutputMode::Last, 1).unwrap();
    assert_eq!(e.max_chunk(), TOKEN_CHUNK_SIZE);
    let short = InferenceEngine::try_new(vec![5, 6], OutputMode::Last, 1).unwrap();
    assert_eq!(short.max_chunk(), 2);
}
