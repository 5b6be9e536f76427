use timer_overlay::format::format_duration;
use timer_overlay::timer::TimerState;

const MS: u128 = 1_000_000;

#[test]
fn a_new_timer_is_stopped_at_zero() {
    let timer = TimerState::new();
    assert!(!timer.is_running());
    assert_eq!(timer.accumulated(), 0);
    assert_eq!(timer.start(), None);
    assert_eq!(timer.elapsed(0), 0);
    assert_eq!(timer.elapsed(5_000 * MS), 0);
}

#[test]
fn running_follows_the_parity_of_the_toggles() {
    let mut timer = TimerState::new();
    let mut n: u128 = 0;
    while n < 25 {
        assert_eq!(timer.is_running(), n % 2 == 1);
        assert_eq!(timer.start().is_some(), timer.is_running());
        timer.toggle(n * 10 * MS);
        n += 1;
    }
    assert_eq!(timer.is_running(), 25 % 2 == 1);
}

#[test]
fn toggle_captures_the_start() {
    let mut timer = TimerState::new();
    timer.toggle(42 * MS);
    assert!(timer.is_running());
    assert_eq!(timer.start(), Some(42 * MS));
    assert_eq!(timer.accumulated(), 0);
}

#[test]
fn a_query_changes_nothing_and_never_goes_back() {
    let mut timer = TimerState::new();
    timer.toggle(100 * MS);
    let first = timer.elapsed(350 * MS);
    let again = timer.elapsed(350 * MS);
    let later = timer.elapsed(351 * MS);
    assert_eq!(first, 250 * MS);
    assert_eq!(again, first);
    assert!(later >= again);
    assert_eq!(later, 251 * MS);
    assert!(timer.is_running());
    assert_eq!(timer.start(), Some(100 * MS));
    assert_eq!(timer.accumulated(), 0);
}

#[test]
fn a_stopped_timer_shows_what_is_banked() {
    let mut timer = TimerState::new();
    timer.toggle(100 * MS);
    timer.toggle(700 * MS);
    assert_eq!(timer.elapsed(700 * MS), 600 * MS);
    assert_eq!(timer.elapsed(1_000_000 * MS), 600 * MS);
    assert_eq!(timer.elapsed(0), 600 * MS);
}

#[test]
fn start_wait_pause_banks_the_wait() {
    let mut timer = TimerState::new();
    timer.toggle(1_000 * MS);
    timer.toggle(1_000 * MS + 2_345 * MS);
    assert!(!timer.is_running());
    assert_eq!(timer.accumulated(), 2_345 * MS);
    assert_eq!(timer.start(), None);
}

#[test]
fn start_and_pause_at_one_instant_bank_nothing() {
    let mut timer = TimerState::new();
    timer.toggle(1_000 * MS);
    timer.toggle(3_000 * MS);
    let banked = timer.accumulated();
    timer.toggle(9_000 * MS);
    timer.toggle(9_000 * MS);
    assert!(!timer.is_running());
    assert_eq!(timer.accumulated(), banked);
    assert_eq!(banked, 2_000 * MS);
}

#[test]
fn runs_add_up_across_pauses() {
    let mut timer = TimerState::new();
    timer.toggle(0);
    timer.toggle(600 * MS);
    timer.toggle(5_000 * MS);
    assert_eq!(timer.elapsed(5_000 * MS), 600 * MS);
    assert_eq!(timer.elapsed(5_600 * MS), 1_200 * MS);
    timer.toggle(5_600 * MS);
    assert_eq!(timer.accumulated(), 1_200 * MS);
    assert_eq!(format_duration(timer.elapsed(99_000 * MS)), "00:01");
}

#[test]
fn reset_while_stopped_zeroes_and_stays_stopped() {
    let mut timer = TimerState::new();
    timer.toggle(10 * MS);
    timer.toggle(4_010 * MS);
    assert_eq!(timer.accumulated(), 4_000 * MS);
    timer.reset(5_000 * MS);
    assert!(!timer.is_running());
    assert_eq!(timer.accumulated(), 0);
    assert_eq!(timer.start(), None);
    assert_eq!(timer.elapsed(6_000 * MS), 0);
}

#[test]
fn reset_while_running_rebases_and_keeps_running() {
    let mut timer = TimerState::new();
    timer.toggle(0);
    timer.toggle(1_000 * MS);
    timer.toggle(2_000 * MS);
    assert_eq!(timer.elapsed(7_000 * MS), 6_000 * MS);
    timer.reset(7_000 * MS);
    assert!(timer.is_running());
    assert_eq!(timer.accumulated(), 0);
    assert_eq!(timer.start(), Some(7_000 * MS));
    assert_eq!(timer.elapsed(7_000 * MS), 0);
    assert_eq!(timer.elapsed(7_250 * MS), 250 * MS);
    timer.toggle(8_500 * MS);
    assert_eq!(timer.accumulated(), 1_500 * MS);
}

#[test]
fn reset_of_a_new_timer_changes_nothing() {
    let mut timer = TimerState::new();
    timer.reset(123);
    assert!(!timer.is_running());
    assert_eq!(timer.accumulated(), 0);
}

#[test]
fn a_reading_before_the_start_counts_as_no_time() {
    let mut timer = TimerState::new();
    timer.toggle(0);
    timer.toggle(300 * MS);
    timer.toggle(1_000 * MS);
    assert_eq!(timer.elapsed(900 * MS), 300 * MS);
    timer.toggle(900 * MS);
    assert!(!timer.is_running());
    assert_eq!(timer.accumulated(), 300 * MS);
}

#[test]
fn scenario_start_query_pause_query_reset() {
    let mut timer = TimerState::new();
    let t0: u128 = 77 * MS;
    timer.toggle(t0);
    assert!(timer.is_running());
    assert_eq!(format_duration(timer.elapsed(t0 + 1_500 * MS)), "00:01");
    timer.toggle(t0 + 1_500 * MS);
    assert!(!timer.is_running());
    assert_eq!(timer.accumulated(), 1_500 * MS);
    assert_eq!(format_duration(timer.elapsed(t0 + 9_000 * MS)), "00:01");
    timer.reset(t0 + 9_500 * MS);
    assert_eq!(format_duration(timer.elapsed(t0 + 9_500 * MS)), "00:00");
    assert!(!timer.is_running());
}

#[test]
fn scenario_three_rapid_toggles() {
    let mut timer = TimerState::new();
    timer.toggle(1_000 * MS);
    timer.toggle(1_002 * MS);
    timer.toggle(1_003 * MS);
    assert!(timer.is_running());
    assert_eq!(timer.accumulated(), 2 * MS);
    assert!(timer.accumulated() <= 5 * MS);
    assert_eq!(format_duration(timer.elapsed(1_004 * MS)), "00:00");
}

#[test]
fn in_range_tells_when_the_count_fits() {
    let mut timer = TimerState::new();
    assert!(timer.in_range(u128::MAX));
    timer.toggle(0);
    assert!(timer.in_range(u128::MAX));
    timer.toggle(10);
    assert_eq!(timer.accumulated(), 10);
    timer.toggle(5);
    assert!(timer.in_range(u128::MAX - 5));
    assert_eq!(timer.elapsed(u128::MAX - 5), u128::MAX);
    assert!(!timer.in_range(u128::MAX - 4));
    assert!(!timer.in_range(u128::MAX));
    assert!(timer.in_range(0));
}

#[test]
fn a_copy_is_a_timer_of_its_own() {
    let mut timer = TimerState::new();
    timer.toggle(5);
    let copy = timer;
    timer.toggle(9);
    assert!(copy.is_running());
    assert!(!timer.is_running());
    assert_eq!(copy.elapsed(9), 4);
}
