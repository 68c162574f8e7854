use gores_trainer::timestep::{
    check_update_time, drain_updates, fps_as_duration, LogBuffer, TimeContext,
};

/// Feeding the scheduler thousands of irregular frames and draining it each
/// frame yields exactly `floor(total_elapsed / tick_duration)` ticks: the
/// tick count stays within one tick of `elapsed_time * target_rate`, with no
/// drift accumulating.
#[test]
fn drift_over_long_run() {
    let durations: [u64; 5] = [16_666_667, 5_000_000, 40_000_000, 16_666_666, 1];
    let mut t = TimeContext::new();
    let mut now: u64 = 0;
    let mut total_ticks: u64 = 0;
    for i in 0..10_000u64 {
        let d = durations[(i % 5) as usize];
        now += d;
        t.tick(now);
        total_ticks += drain_updates(&mut t, 60);
    }
    let dt: u64 = 16_666_666;
    assert_eq!(total_ticks, now / dt);
    assert_eq!(t.residual_update_dt, now % dt);
    // within one tick of elapsed * rate
    let ideal = (now as i128) * 60 / 1_000_000_000;
    assert!((total_ticks as i128 - ideal).abs() <= 1);
}

/// `check_update_time` never reports a tick unless a full tick-duration of
/// residual time has built up since the last successful consumption.
#[test]
fn consume_needs_full_tick() {
    let mut t = TimeContext::new();
    t.tick(10_000_000); // 10 ms < 16.666 ms
    assert!(!check_update_time(&mut t, 60));
    assert_eq!(t.residual_update_dt, 10_000_000);
    t.tick(20_000_000); // another 10 ms: 20 ms accumulated
    assert!(check_update_time(&mut t, 60));
    assert_eq!(t.residual_update_dt, 20_000_000 - 16_666_666);
    // what is left is less than one tick: no further tick is owed
    assert!(!check_update_time(&mut t, 60));
    assert_eq!(t.residual_update_dt, 3_333_334);
}

/// Exactly one full tick-duration in the accumulator is enough: the poll
/// consumes it all and owes nothing more.
#[test]
fn consume_at_exact_boundary() {
    let mut t = TimeContext::new();
    t.tick(16_666_666);
    assert!(check_update_time(&mut t, 60));
    assert_eq!(t.residual_update_dt, 0);
    assert!(!check_update_time(&mut t, 60));
}

#[test]
fn tick_accumulates_and_counts_frames() {
    let mut t = TimeContext::new();
    assert_eq!(t.last_nanos, 0);
    assert_eq!(t.frame_count, 0);
    t.tick(5);
    t.tick(12);
    assert_eq!(t.last_nanos, 12);
    assert_eq!(t.residual_update_dt, 12);
    assert_eq!(t.frame_count, 2);
    assert_eq!(t.frame_durations.latest(), 7);
}

#[test]
fn default_context_is_fresh() {
    let t = TimeContext::default();
    assert_eq!(t.last_nanos, 0);
    assert_eq!(t.residual_update_dt, 0);
    assert_eq!(t.frame_count, 0);
    // the duration log comes seeded: 200 slots of 16 ms, cursor at the front
    assert_eq!(t.frame_durations.head, 0);
    assert_eq!(t.frame_durations.contents.len(), 200);
    assert!(t.frame_durations.contents.iter().all(|&d| d == 16_000_000));
    assert_eq!(t.frame_durations.latest(), 16_000_000);
}

#[test]
fn fps_duration_exact_values() {
    assert_eq!(fps_as_duration(60), 16_666_666);
    assert_eq!(fps_as_duration(1), 1_000_000_000);
    assert_eq!(fps_as_duration(1_000_000_000), 1);
}

#[test]
fn drain_empties_in_one_call() {
    let mut t = TimeContext::new();
    t.tick(100_000_000); // 100 ms: six 60 Hz ticks and a remainder
    assert_eq!(drain_updates(&mut t, 60), 6);
    assert_eq!(t.residual_update_dt, 100_000_000 - 6 * 16_666_666);
    assert_eq!(drain_updates(&mut t, 60), 0);
}

#[test]
fn log_buffer_round_robin() {
    let mut b: LogBuffer<u64> = LogBuffer::new(3, 7);
    assert_eq!(b.latest(), 7);
    assert_eq!(b.contents(), vec![7]);
    b.push(1);
    b.push(2);
    assert_eq!(b.latest(), 2);
    assert_eq!(b.contents(), vec![7, 1, 2]);
    b.push(3); // wraps: overwrites the seed slot
    assert_eq!(b.latest(), 3);
    assert_eq!(b.contents(), vec![3, 1, 2]);
}
