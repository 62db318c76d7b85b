use music_visualizer::ring::{new_ring, pop_or_silence, push_available};

#[test]
fn overfilling_a_paused_consumer_rejects_the_excess_without_panic() {
    // Push more samples than the ring holds while nothing drains it:
    // exactly the capacity goes in, the rest is rejected, nothing
    // panics or is corrupted.
    let (mut producer, mut consumer) = new_ring(8);
    let block: Vec<i64> = (0..12).collect();
    let n = push_available(&mut producer, &block, 0);
    assert_eq!(n, 8);

    // Still full: a retry makes no progress.
    let n2 = push_available(&mut producer, &block, n);
    assert_eq!(n2, 8);

    // The consumer sees the accepted prefix in order, uncorrupted.
    for expected in 0..8 {
        assert_eq!(pop_or_silence(&mut consumer), expected);
    }
}

#[test]
fn draining_frees_space_for_the_rejected_tail() {
    let (mut producer, mut consumer) = new_ring(4);
    let block: Vec<i64> = vec![10, 20, 30, 40, 50, 60];
    let mut idx = push_available(&mut producer, &block, 0);
    assert_eq!(idx, 4);

    // The consumer drains two samples; the producer's retry fits two more.
    assert_eq!(pop_or_silence(&mut consumer), 10);
    assert_eq!(pop_or_silence(&mut consumer), 20);
    idx = push_available(&mut producer, &block, idx);
    assert_eq!(idx, 6);

    assert_eq!(pop_or_silence(&mut consumer), 30);
    assert_eq!(pop_or_silence(&mut consumer), 40);
    assert_eq!(pop_or_silence(&mut consumer), 50);
    assert_eq!(pop_or_silence(&mut consumer), 60);
}

#[test]
fn underrun_yields_silence_not_a_stall() {
    let (mut producer, mut consumer) = new_ring(4);
    assert_eq!(pop_or_silence(&mut consumer), 0);
    push_available(&mut producer, &vec![7], 0);
    assert_eq!(pop_or_silence(&mut consumer), 7);
    assert_eq!(pop_or_silence(&mut consumer), 0);
}
