use wavrecorder::coordinator::{Action, Coordinator};
use wavrecorder::policy::{flush_threshold, should_flush, CACHE_SIZE_IN_BYTES, SAMPLE_BYTES};
use wavrecorder::source::{classify_send, SendOutcome};

fn bits(range: std::ops::Range<u32>) -> Vec<u32> {
    range.map(|i| (i as f32 * 0.5).to_bits()).collect()
}

#[test]
fn threshold_is_half_the_cache() {
    assert_eq!(flush_threshold(CACHE_SIZE_IN_BYTES), 256 * 1024 * 1024);
    assert_eq!(flush_threshold(1001), 500);
}

#[test]
fn flush_triggers_at_250_samples_of_4_bytes() {
    assert!(!should_flush(249, 4, 1000, false));
    assert!(should_flush(250, 4, 1000, false));
    assert!(should_flush(251, 4, 1000, false));
}

#[test]
fn no_flush_of_an_empty_buffer() {
    assert!(!should_flush(0, 4, 0, false));
    assert!(!should_flush(0, 4, 1000, true));
}

#[test]
fn shutdown_flushes_a_small_buffer() {
    assert!(should_flush(1, 4, 1000, true));
    assert!(!should_flush(1, 4, 1000, false));
}

#[test]
fn flush_with_large_counts_does_not_overflow() {
    assert!(should_flush(usize::MAX, usize::MAX, usize::MAX, false));
    assert!(!should_flush(1, 1, usize::MAX, false));
}

#[test]
fn exactly_one_threshold_fills_one_file_and_empty_final_file_is_skipped() {
    let mut c = Coordinator::new(1000, SAMPLE_BYTES);
    let batch = bits(0..250);
    match c.step(Some(batch.clone()), false) {
        Action::Rotate(v) => assert_eq!(v, batch),
        other => panic!("expected a rotation, got {:?}", other),
    }
    assert_eq!(c.buffered_samples(), 0);
    assert!(!c.is_stopped());
    assert!(matches!(c.step(None, true), Action::Stop));
    assert!(c.is_stopped());
}

#[test]
fn below_threshold_keeps_buffering() {
    let mut c = Coordinator::new(1000, SAMPLE_BYTES);
    assert!(matches!(c.step(Some(bits(0..249)), false), Action::Idle));
    assert_eq!(c.buffered_samples(), 249);
    assert!(matches!(c.step(None, false), Action::Idle));
    match c.step(Some(bits(249..251)), false) {
        Action::Rotate(v) => assert_eq!(v, bits(0..251)),
        other => panic!("expected a rotation, got {:?}", other),
    }
}

#[test]
fn batches_come_out_in_order_without_loss() {
    let mut c = Coordinator::new(40, 4);
    let mut written: Vec<u32> = Vec::new();
    let mut files = 0;
    let sizes = [3u32, 4, 2, 7, 1, 9, 5];
    let mut next = 0u32;
    let mut fed: Vec<u32> = Vec::new();
    for s in sizes {
        let b = bits(next..next + s);
        next += s;
        fed.extend_from_slice(&b);
        if let Action::Rotate(v) = c.step(Some(b), false) {
            assert!(v.len() * 4 >= 40);
            written.extend_from_slice(&v);
            files += 1;
        }
    }
    match c.step(None, true) {
        Action::Finish(v) => {
            written.extend_from_slice(&v);
            files += 1;
        }
        other => panic!("expected the final flush, got {:?}", other),
    }
    assert_eq!(written, fed);
    assert_eq!(files, 3);
    assert_eq!(c.buffered_samples(), 0);
}

#[test]
fn shutdown_with_a_batch_in_hand_writes_it_last() {
    let mut c = Coordinator::new(1000, 4);
    assert!(matches!(c.step(Some(bits(0..10)), false), Action::Idle));
    match c.step(Some(bits(10..15)), true) {
        Action::Finish(v) => assert_eq!(v, bits(0..15)),
        other => panic!("expected the final flush, got {:?}", other),
    }
    assert!(c.is_stopped());
    assert_eq!(c.buffered_samples(), 0);
}

#[test]
fn second_shutdown_has_no_effect() {
    let mut c = Coordinator::new(1000, 4);
    assert!(matches!(c.step(Some(bits(0..3)), false), Action::Idle));
    assert!(matches!(c.step(None, true), Action::Finish(_)));
    assert!(matches!(c.step(None, true), Action::Stop));
    assert!(matches!(c.step(Some(bits(3..5)), true), Action::Stop));
    assert!(c.is_stopped());
    assert_eq!(c.buffered_samples(), 0);
}

#[test]
fn send_outcomes() {
    assert_eq!(classify_send(true, true), SendOutcome::Sent);
    assert_eq!(classify_send(true, false), SendOutcome::Sent);
    assert_eq!(classify_send(false, false), SendOutcome::Discarded);
    assert_eq!(classify_send(false, true), SendOutcome::Unexpected);
}
