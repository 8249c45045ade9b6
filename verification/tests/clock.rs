use clob_harness::clock::replay;
use clob_harness::clock::Clock;
use clob_harness::clock::FastForward;
use clob_harness::clock::Run;
use clob_harness::clock::Step;
use clob_harness::clock::SECONDS_PER_MINUTE;
use clob_harness::clock::WARP_SLOTS;

fn clock(slot: u64, unix_timestamp: i64) -> Clock {
    Clock { slot, unix_timestamp }
}

/// A ledger whose clock gains `drift[i % drift.len()]` seconds with the
/// i-th warp.
fn drifting_readings(start: &Clock, drift: &[i64], count: usize) -> Vec<Clock> {
    let mut readings = Vec::new();
    let mut now = *start;
    for i in 0..count {
        now = clock(now.slot + WARP_SLOTS, now.unix_timestamp + drift[i % drift.len()]);
        readings.push(now);
    }
    readings
}

#[test]
fn warp_increment_is_800_slots() {
    assert_eq!(WARP_SLOTS, 800);
    assert_eq!(SECONDS_PER_MINUTE, 60);
}

#[test]
fn fast_forward_seconds_sets_the_target_and_warps_first() {
    let now = clock(10, 1_700_000_000);
    let (controller, first) = FastForward::fast_forward_seconds(&now, 60);
    assert_eq!(controller, FastForward { target: 1_700_000_060 });
    assert_eq!(first, Step::Warp { slot: 810 });
}

#[test]
fn fast_forward_of_nothing_still_warps_once() {
    let now = clock(0, 5);
    let (controller, first) = FastForward::fast_forward_seconds(&now, 0);
    assert_eq!(controller.target, 5);
    assert_eq!(first, Step::Warp { slot: 800 });
}

#[test]
fn fast_forward_minutes_counts_sixty_seconds_each() {
    let now = clock(3, -100);
    let (controller, first) = FastForward::fast_forward_minutes(&now, 2);
    assert_eq!(controller.target, 20);
    assert_eq!(first, Step::Warp { slot: 803 });
}

#[test]
fn fast_forward_takes_a_negative_start() {
    let now = clock(0, i64::MIN);
    let (controller, _) = FastForward::fast_forward_seconds(&now, u64::MAX);
    assert_eq!(controller.target, i64::MAX);
}

#[test]
fn observe_stops_at_the_target() {
    let controller = FastForward { target: 100 };
    assert_eq!(controller.observe(&clock(1_600, 99)), Step::Warp { slot: 2_400 });
    assert_eq!(controller.observe(&clock(1_600, 100)), Step::Done);
    assert_eq!(controller.observe(&clock(1_600, 101)), Step::Done);
}

#[test]
fn observe_stops_at_the_last_slot_once_reached() {
    let controller = FastForward { target: 100 };
    assert_eq!(controller.observe(&clock(u64::MAX, 100)), Step::Done);
    assert_eq!(
        controller.observe(&clock(u64::MAX - 800, 0)),
        Step::Warp { slot: u64::MAX }
    );
}

#[test]
fn fast_forward_by_sixty_seconds_reaches_the_minute() {
    let start = clock(1, 1_000);
    let readings = drifting_readings(&start, &[7, 1, 13, 2], 64);
    let run = replay(&start, 60, &readings);
    let end = run.end.expect("clock never arrived");
    assert!(end.unix_timestamp >= 1_060);
    assert!(run.warps.len() <= 60);
}

#[test]
fn replay_stops_at_the_first_reading_that_arrived() {
    let start = clock(0, 0);
    let readings = vec![clock(800, 4), clock(1_600, 9), clock(2_400, 10), clock(3_200, 50)];
    assert_eq!(
        replay(&start, 10, &readings),
        Run { warps: vec![800, 1_600, 2_400], end: Some(clock(2_400, 10)) }
    );
}

#[test]
fn replay_warps_past_each_observed_slot() {
    let start = clock(5, 0);
    let readings = vec![clock(1_000, 1), clock(1_001, 2), clock(90_000, 3)];
    assert_eq!(
        replay(&start, 3, &readings),
        Run { warps: vec![805, 1_800, 1_801], end: Some(clock(90_000, 3)) }
    );
}

#[test]
fn replay_of_nothing_ends_after_one_warp() {
    let start = clock(40, 77);
    let readings = vec![clock(840, 77), clock(1_640, 78)];
    assert_eq!(
        replay(&start, 0, &readings),
        Run { warps: vec![840], end: Some(clock(840, 77)) }
    );
}

#[test]
fn replay_runs_out_on_a_clock_that_stands_still() {
    let start = clock(0, 100);
    let readings = vec![clock(800, 100); 5];
    assert_eq!(
        replay(&start, 1, &readings),
        Run { warps: vec![800, 1_600, 1_600, 1_600, 1_600, 1_600], end: None }
    );
}

#[test]
fn replay_without_readings_asks_for_the_first_warp() {
    let start = clock(12, 100);
    assert_eq!(replay(&start, 30, &[]), Run { warps: vec![812], end: None });
}

#[test]
fn replay_needs_at_most_one_warp_per_second_on_an_advancing_clock() {
    for seconds in [0u64, 1, 2, 59, 60, 61, 600] {
        for drift in [vec![1i64], vec![1, 2, 3], vec![5], vec![1, 1, 1, 90]] {
            let start = clock(9, -30);
            let bound = std::cmp::max(seconds, 1) as usize;
            let readings = drifting_readings(&start, &drift, bound);
            let run = replay(&start, seconds, &readings);
            let end = run.end.expect("clock never arrived");
            assert!(end.unix_timestamp >= -30 + seconds as i64);
            assert!(run.warps.len() <= bound);
            assert!(!run.warps.is_empty());
        }
    }
}

#[test]
fn get_now_timestamp_reads_the_clock() {
    assert_eq!(clock(0, 0).get_now_timestamp(), 0);
    assert_eq!(clock(0, 1_700_000_000).get_now_timestamp(), 1_700_000_000);
    assert_eq!(clock(0, i64::MAX).get_now_timestamp(), i64::MAX as u64);
}

#[test]
fn get_now_timestamp_wraps_below_zero() {
    assert_eq!(clock(0, -1).get_now_timestamp(), u64::MAX);
    assert_eq!(clock(0, -2).get_now_timestamp(), u64::MAX - 1);
    assert_eq!(clock(0, i64::MIN).get_now_timestamp(), 1u64 << 63);
}
