use bark_engine::clock::{SimulationClock, FIXED_TIME_STEP_NANOS, MAX_CATCH_UP_STEPS};

#[test]
fn three_steps_for_thirty_five_milliseconds() {
    let mut clock = SimulationClock::with_step(10_000_000, MAX_CATCH_UP_STEPS, 0);
    let steps = clock.advance(35_000_000);
    assert_eq!(steps, 3);
    assert_eq!(clock.accumulator(), 5_000_000);
    let seconds = clock.accumulator() as f64 / 1e9;
    assert!((seconds - 0.005).abs() < 1e-12);
    assert_eq!(clock.engine_time(), 30_000_000);
    assert_eq!(clock.current_time(), 35_000_000);
}

#[test]
fn default_step_is_a_hundredth_of_a_second() {
    let clock = SimulationClock::new(42);
    assert_eq!(clock.fixed_step(), 10_000_000);
    assert_eq!(FIXED_TIME_STEP_NANOS, 10_000_000);
    assert_eq!(clock.max_steps(), MAX_CATCH_UP_STEPS);
    assert_eq!(clock.current_time(), 42);
    assert_eq!(clock.accumulator(), 0);
    assert_eq!(clock.engine_time(), 0);
}

#[test]
fn no_time_no_steps() {
    let mut clock = SimulationClock::new(1_000);
    assert_eq!(clock.advance(1_000), 0);
    assert_eq!(clock.accumulator(), 0);
    assert_eq!(clock.engine_time(), 0);
}

#[test]
fn fractions_add_up_across_ticks() {
    let mut clock = SimulationClock::with_step(10, 100, 0);
    assert_eq!(clock.advance(7), 0);
    assert_eq!(clock.accumulator(), 7);
    assert_eq!(clock.advance(14), 1);
    assert_eq!(clock.accumulator(), 4);
    assert_eq!(clock.advance(20), 1);
    assert_eq!(clock.accumulator(), 0);
    assert_eq!(clock.engine_time(), 20);
}

#[test]
fn exactly_one_step_owed() {
    let mut clock = SimulationClock::with_step(10, 100, 0);
    assert_eq!(clock.advance(10), 1);
    assert_eq!(clock.accumulator(), 0);
}

#[test]
fn accumulator_stays_below_one_step() {
    let mut clock = SimulationClock::with_step(7, 1_000, 0);
    let mut now: u64 = 0;
    for delta in [1u64, 3, 13, 0, 6, 29, 2, 7, 8, 100] {
        now += delta;
        clock.advance(now);
        assert!(clock.accumulator() < clock.fixed_step());
    }
}

#[test]
fn stall_is_clamped_and_whole_steps_dropped() {
    let mut clock = SimulationClock::with_step(10_000_000, 10, 0);
    let steps = clock.advance(5_000_000_003);
    assert_eq!(steps, 10);
    assert_eq!(clock.accumulator(), 3);
    assert_eq!(clock.engine_time(), 100_000_000);
    assert_eq!(clock.advance(5_000_000_003), 0);
}

#[test]
fn largest_elapsed_time() {
    let mut clock = SimulationClock::with_step(3, 4, 0);
    assert_eq!(clock.advance(u64::MAX), 4);
    assert_eq!(clock.accumulator(), u64::MAX % 3);
    assert_eq!(clock.engine_time(), 12);
}

#[test]
fn simulated_time_saturates() {
    let mut clock = SimulationClock::with_step(u64::MAX, 2, 0);
    assert_eq!(clock.advance(u64::MAX), 1);
    assert_eq!(clock.engine_time(), u64::MAX);
    assert_eq!(clock.accumulator(), 0);
}

#[test]
fn clock_going_backwards_counts_no_time() {
    let mut clock = SimulationClock::with_step(10, 5, 100);
    assert_eq!(clock.advance(50), 0);
    assert_eq!(clock.current_time(), 50);
    assert_eq!(clock.accumulator(), 0);
    assert_eq!(clock.advance(65), 1);
    assert_eq!(clock.accumulator(), 5);
}
