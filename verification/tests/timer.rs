use std::time::Duration;

use focus_fox::config::Config;
use focus_fox::timer::{Phase, Timer};

fn secs(s: u64) -> u128 {
    Duration::from_secs(s).as_nanos()
}

fn config() -> Config {
    Config {
        work: secs(10),
        short_break: secs(2),
        long_break: secs(5),
        sessions_before_long_break: 2,
        notify: false,
        alert_screen: true,
    }
}

#[test]
fn ticks_down_and_transitions_to_short_break() {
    let mut t = Timer::new(config());
    assert_eq!(t.tick(secs(9)), None);
    assert_eq!(t.remaining, secs(1));
    assert_eq!(t.tick(secs(1)), Some(Phase::ShortBreak));
    assert_eq!(t.completed_work, 1);
    assert_eq!(t.remaining, secs(2));
}

#[test]
fn long_break_after_configured_sessions() {
    let mut t = Timer::new(config());
    t.tick(secs(10)); // work 1 -> short break
    t.tick(secs(2)); // -> work 2
    assert_eq!(t.tick(secs(10)), Some(Phase::LongBreak));
    t.tick(secs(5)); // -> work 3
    assert_eq!(t.phase, Phase::Work);
}

#[test]
fn skipped_work_does_not_count_toward_long_break() {
    let mut t = Timer::new(config());
    assert_eq!(t.skip(), Phase::ShortBreak);
    assert_eq!(t.completed_work, 0);
    t.skip(); // -> work
    t.tick(secs(10)); // work 1 done -> short break
    assert_eq!(t.phase, Phase::ShortBreak);
}

#[test]
fn pause_stops_the_clock() {
    let mut t = Timer::new(config());
    t.toggle_pause();
    assert_eq!(t.tick(secs(60)), None);
    assert_eq!(t.remaining, secs(10));
}

#[test]
fn reset_restarts_current_phase() {
    let mut t = Timer::new(config());
    t.tick(secs(4));
    t.reset();
    assert_eq!(t.remaining, secs(10));
}

#[test]
fn ticks_compose_within_a_phase() {
    let mut split = Timer::new(config());
    let mut whole = Timer::new(config());
    assert_eq!(split.tick(secs(3)), None);
    assert_eq!(split.tick(secs(7)), whole.tick(secs(10)));
    assert_eq!(split.phase, whole.phase);
    assert_eq!(split.remaining, whole.remaining);
    assert_eq!(split.completed_work, whole.completed_work);
}

#[test]
fn sub_second_ticks_add_up() {
    let mut t = Timer::new(config());
    for _ in 0..99 {
        assert_eq!(t.tick(Duration::from_millis(100).as_nanos()), None);
    }
    assert_eq!(t.remaining, Duration::from_millis(100).as_nanos());
    assert_eq!(t.tick(Duration::from_millis(100).as_nanos()), Some(Phase::ShortBreak));
}

#[test]
fn paused_timer_ignores_even_a_phase_worth_of_time() {
    let mut t = Timer::new(config());
    t.toggle_pause();
    assert_eq!(t.tick(secs(1000)), None);
    t.toggle_pause();
    assert!(!t.paused);
    assert_eq!(t.tick(secs(10)), Some(Phase::ShortBreak));
}

#[test]
fn long_break_after_every_two_completed_sessions() {
    let mut t = Timer::new(config());
    let mut breaks = Vec::new();
    for _ in 0..4 {
        breaks.push(t.tick(secs(10)).unwrap()); // work ends
        t.skip(); // break skipped -> work
    }
    assert_eq!(
        breaks,
        vec![Phase::ShortBreak, Phase::LongBreak, Phase::ShortBreak, Phase::LongBreak]
    );
    assert_eq!(t.completed_work, 4);
}

#[test]
fn cycle_position_fills_up_then_shows_full_during_long_break() {
    let mut t = Timer::new(config());
    assert_eq!(t.cycle_position(), (0, 2));
    t.tick(secs(10));
    assert_eq!(t.cycle_position(), (1, 2));
    t.tick(secs(2));
    assert_eq!(t.cycle_position(), (1, 2));
    assert_eq!(t.tick(secs(10)), Some(Phase::LongBreak));
    assert_eq!(t.cycle_position(), (2, 2));
    t.tick(secs(5));
    assert_eq!(t.cycle_position(), (0, 2));
}

#[test]
fn labels() {
    assert_eq!(Phase::Work.label(), "Focus");
    assert_eq!(Phase::ShortBreak.label(), "Short Break");
    assert_eq!(Phase::LongBreak.label(), "Long Break");
}
