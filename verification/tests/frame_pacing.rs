use hipocast::pacing::{pacer_must_resync, pacing_step, CATCH_UP_LIMIT, RESYNC_AFTER_NS};

const INTERVAL: u64 = 16_666_667;

#[test]
fn a_frame_is_due_after_one_interval() {
    assert_eq!(pacing_step(INTERVAL, INTERVAL, 5), (true, 4));
    assert_eq!(pacing_step(INTERVAL - 1, INTERVAL, 5), (false, 5));
    assert_eq!(pacing_step(10 * INTERVAL, INTERVAL, 0), (false, 0));
}

#[test]
fn a_round_catches_up_at_most_five_frames() {
    // The clock reads 20 intervals behind; each written frame moves the
    // last frame time forward by one interval.
    let mut behind = 20 * INTERVAL;
    let mut budget = CATCH_UP_LIMIT;
    let mut written = 0;
    loop {
        let (write, left) = pacing_step(behind, INTERVAL, budget);
        if !write {
            break;
        }
        written += 1;
        behind -= INTERVAL;
        budget = left;
    }
    assert_eq!(written, 5);
    assert_eq!(behind, 15 * INTERVAL);
}

#[test]
fn a_round_stops_when_caught_up() {
    let mut behind = 2 * INTERVAL + 3;
    let mut budget = CATCH_UP_LIMIT;
    let mut written = 0;
    while let (true, left) = pacing_step(behind, INTERVAL, budget) {
        written += 1;
        behind -= INTERVAL;
        budget = left;
    }
    assert_eq!(written, 2);
    assert_eq!(budget, 3);
}

#[test]
fn the_pacer_resyncs_after_a_second() {
    assert_eq!(RESYNC_AFTER_NS, 1_000_000_000);
    assert!(!pacer_must_resync(1_000_000_000));
    assert!(pacer_must_resync(1_000_000_001));
    assert!(!pacer_must_resync(0));
}
