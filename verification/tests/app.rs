use std::path::PathBuf;
use std::time::Duration;

use chrono::{DateTime, Datelike, NaiveDate};

use focus_fox::config::Config;
use focus_fox::stats::calendar::Timestamp;
use focus_fox::stats::store::Store;
use focus_fox::stats::Record;
use focus_fox::timer::{Phase, Timer};
use focus_fox::tui::app::{
    announce, bump_duration, record_phase_end, App, Effect, Key, Screen, MENU_ITEMS,
    MENU_LEN,
};

fn mins(m: u64) -> u128 {
    Duration::from_secs(m * 60).as_nanos()
}

fn secs(s: u64) -> u128 {
    Duration::from_secs(s).as_nanos()
}

fn now() -> Timestamp {
    let dt = DateTime::parse_from_rfc3339("2024-01-03T10:00:00-05:00").unwrap();
    Timestamp {
        secs: dt.timestamp(),
        nanos: dt.timestamp_subsec_nanos(),
        offset_secs: dt.offset().local_minus_utc(),
    }
}

fn today() -> i32 {
    "2024-01-03".parse::<NaiveDate>().unwrap().num_days_from_ce()
}

/// Does the outside work the app asks for, as the terminal front end does,
/// with the history kept in memory.
fn perform(app: &mut App, effects: Vec<Effect>, history: &mut Vec<Record>) {
    for effect in effects {
        match effect {
            Effect::PhaseEnded { phase, planned, elapsed, completed } => {
                if let Some(r) =
                    record_phase_end(&app.store, now(), phase, planned, elapsed, completed)
                {
                    history.push(r);
                }
            }
            Effect::Announce(_) | Effect::SaveConfig => {}
            Effect::OpenStats => {
                let records = if app.store.is_some() { history.clone() } else { Vec::new() };
                app.open_stats(&records, today());
            }
        }
    }
}

fn key(app: &mut App, code: Key, history: &mut Vec<Record>) {
    let effects = app.handle_key(code, false);
    perform(app, effects, history);
}

fn tick(app: &mut App, d: Duration, history: &mut Vec<Record>) {
    let effects = app.advance_clock(d.as_nanos());
    perform(app, effects, history);
}

#[test]
fn steps_on_the_five_minute_grid() {
    assert_eq!(bump_duration(mins(25), 1), mins(30));
    assert_eq!(bump_duration(mins(25), -1), mins(20));
}

#[test]
fn snaps_back_to_grid_from_the_one_minute_floor() {
    assert_eq!(bump_duration(mins(5), -1), mins(1));
    assert_eq!(bump_duration(mins(1), 1), mins(5));
}

#[test]
fn off_grid_values_snap_instead_of_keeping_offset() {
    assert_eq!(bump_duration(mins(7), 1), mins(10));
    assert_eq!(bump_duration(mins(7), -1), mins(5));
}

#[test]
fn bump_round_trips_on_the_grid() {
    assert_eq!(bump_duration(bump_duration(mins(25), 1), -1), mins(25));
    assert_eq!(bump_duration(bump_duration(mins(25), -1), 1), mins(25));
    assert_eq!(bump_duration(Duration::from_millis(59_500).as_nanos(), -1), mins(1));
}

fn app_on_timer(alert_screen: bool) -> App {
    let config = Config {
        work: secs(10),
        short_break: secs(2),
        long_break: secs(5),
        sessions_before_long_break: 4,
        notify: false,
        alert_screen,
    };
    let mut app = App::new(config, None);
    app.screen = Screen::Timer(Timer::new(config));
    app
}

fn remaining(app: &App) -> u128 {
    match &app.screen {
        Screen::Timer(timer) => timer.remaining,
        Screen::Menu { .. } => panic!("expected timer screen"),
    }
}

#[test]
fn alert_freezes_timer_until_enter() {
    let mut h = Vec::new();
    let mut app = app_on_timer(true);
    tick(&mut app, Duration::from_secs(10), &mut h); // work ends -> short break
    assert_eq!(app.alert, Some(Phase::ShortBreak));

    // Clock is held: the break hasn't started counting down.
    tick(&mut app, Duration::from_secs(60), &mut h);
    assert_eq!(remaining(&app), secs(2));

    // Unbound keys don't dismiss it; Enter does.
    key(&mut app, Key::Char('x'), &mut h);
    assert_eq!(app.alert, Some(Phase::ShortBreak));
    key(&mut app, Key::Enter, &mut h);
    assert_eq!(app.alert, None);

    tick(&mut app, Duration::from_secs(1), &mut h);
    assert_eq!(remaining(&app), secs(1));
}

#[test]
fn skip_from_alert_jumps_past_the_announced_phase() {
    let mut h = Vec::new();
    let mut app = app_on_timer(true);
    tick(&mut app, Duration::from_secs(10), &mut h); // work ends -> break alert
    assert_eq!(app.alert, Some(Phase::ShortBreak));

    // Skip the break entirely: straight into work, running, no new alert.
    key(&mut app, Key::Char('s'), &mut h);
    assert_eq!(app.alert, None);
    assert_eq!(remaining(&app), secs(10));
    tick(&mut app, Duration::from_secs(1), &mut h);
    assert_eq!(remaining(&app), secs(9));
}

#[test]
fn alert_disabled_rolls_straight_into_next_phase() {
    let mut h = Vec::new();
    let mut app = app_on_timer(false);
    tick(&mut app, Duration::from_secs(10), &mut h);
    assert_eq!(app.alert, None);
    tick(&mut app, Duration::from_secs(1), &mut h);
    assert_eq!(remaining(&app), secs(1));
}

#[test]
fn manual_skip_does_not_raise_alert() {
    let mut h = Vec::new();
    let mut app = app_on_timer(true);
    key(&mut app, Key::Char('s'), &mut h);
    assert_eq!(app.alert, None);
}

fn app_with_store() -> App {
    let mut app = app_on_timer(false);
    app.store = Some(Store::new(PathBuf::from("history")));
    app
}

#[test]
fn natural_finish_appends_a_completed_record() {
    let mut records = Vec::new();
    let mut app = app_with_store();
    tick(&mut app, Duration::from_secs(10), &mut records); // work ends
    assert_eq!(records.len(), 1);
    assert_eq!(records[0].phase, Phase::Work);
    assert_eq!(records[0].planned_secs, 10);
    assert_eq!(records[0].actual_secs, 10);
    assert!(records[0].completed);
}

#[test]
fn skip_appends_a_partial_record() {
    let mut records = Vec::new();
    let mut app = app_with_store();
    tick(&mut app, Duration::from_secs(4), &mut records);
    key(&mut app, Key::Char('s'), &mut records);
    assert_eq!(records.len(), 1);
    assert_eq!(records[0].actual_secs, 4);
    assert!(!records[0].completed);
}

#[test]
fn skip_from_alert_records_the_announced_phase_as_unstarted() {
    let mut records = Vec::new();
    let mut app = app_with_store();
    app.config.alert_screen = true;
    tick(&mut app, Duration::from_secs(10), &mut records); // work done -> break alert
    key(&mut app, Key::Char('s'), &mut records); // skip the break
    assert_eq!(records.len(), 2);
    assert_eq!(records[1].phase, Phase::ShortBreak);
    assert_eq!(records[1].actual_secs, 0);
    assert!(!records[1].completed);
}

#[test]
fn no_store_means_no_recording_and_no_crash() {
    let mut records = Vec::new();
    let mut app = app_on_timer(false);
    tick(&mut app, Duration::from_secs(10), &mut records);
    assert!(app.store.is_none());
    assert!(app.status.is_none());
    assert!(records.is_empty());
}

#[test]
fn t_opens_stats_and_esc_closes_without_quitting() {
    let mut h = Vec::new();
    let mut app = app_with_store();
    key(&mut app, Key::Char('t'), &mut h);
    assert!(app.stats_view.is_some());
    key(&mut app, Key::Esc, &mut h);
    assert!(app.stats_view.is_none());
    assert!(!app.should_quit);
}

#[test]
fn t_also_closes_the_stats_overlay() {
    let mut h = Vec::new();
    let mut app = app_with_store();
    key(&mut app, Key::Char('t'), &mut h);
    key(&mut app, Key::Char('t'), &mut h);
    assert!(app.stats_view.is_none());
}

#[test]
fn timer_keeps_ticking_under_the_stats_overlay() {
    let mut h = Vec::new();
    let mut app = app_with_store();
    key(&mut app, Key::Char('t'), &mut h);
    tick(&mut app, Duration::from_secs(3), &mut h);
    assert_eq!(remaining(&app), secs(7));
}

#[test]
fn t_is_ignored_while_an_alert_is_up() {
    let mut h = Vec::new();
    let mut app = app_on_timer(true);
    tick(&mut app, Duration::from_secs(10), &mut h); // -> alert
    key(&mut app, Key::Char('t'), &mut h);
    assert!(app.stats_view.is_none());
    assert_eq!(app.alert, Some(Phase::ShortBreak));
}

#[test]
fn esc_still_quits_when_no_overlay_is_open() {
    let mut h = Vec::new();
    let mut app = app_on_timer(false);
    key(&mut app, Key::Esc, &mut h);
    assert!(app.should_quit);
}

#[test]
fn stats_opens_from_the_menu_too() {
    let mut h = Vec::new();
    let mut app = App::new(app_on_timer(false).config, Some(Store::new(PathBuf::from("history"))));
    key(&mut app, Key::Char('t'), &mut h);
    assert!(app.stats_view.is_some());
}

#[test]
fn stats_overlay_shows_what_was_recorded() {
    let mut h = Vec::new();
    let mut app = app_with_store();
    tick(&mut app, Duration::from_secs(10), &mut h); // a completed work session
    key(&mut app, Key::Char('t'), &mut h);
    let s = app.stats_view.as_ref().unwrap();
    assert_eq!(s.today_sessions, 1);
    assert_eq!(s.today_focus, secs(10));
    assert_eq!(s.streak_days, 1);
    assert_eq!(s.recent.len(), 1);
}

#[test]
fn q_and_ctrl_c_quit_even_over_the_stats_overlay() {
    let mut h = Vec::new();
    let mut app = app_with_store();
    key(&mut app, Key::Char('t'), &mut h);
    key(&mut app, Key::Char('q'), &mut h);
    assert!(app.should_quit);

    let mut app = app_on_timer(false);
    let effects = app.handle_key(Key::Char('c'), true);
    assert!(effects.is_empty());
    assert!(app.should_quit);
}

#[test]
fn menu_navigation_wraps_around() {
    let mut h = Vec::new();
    let mut app = App::new(Config::default(), None);
    key(&mut app, Key::Up, &mut h);
    assert!(matches!(app.screen, Screen::Menu { selected: 5 }));
    key(&mut app, Key::Char('j'), &mut h);
    assert!(matches!(app.screen, Screen::Menu { selected: 0 }));
    for _ in 0..MENU_LEN {
        key(&mut app, Key::Down, &mut h);
    }
    assert!(matches!(app.screen, Screen::Menu { selected: 0 }));
    assert_eq!(MENU_ITEMS.len(), MENU_LEN);
    assert_eq!(MENU_ITEMS[3], "Sessions");
}

#[test]
fn menu_adjusts_settings_and_asks_to_save_them() {
    let mut app = App::new(Config::default(), None);
    let effects = app.handle_key(Key::Right, false);
    assert_eq!(effects, vec![Effect::SaveConfig]);
    assert_eq!(app.config.work, mins(30));

    app.handle_key(Key::Down, false);
    app.handle_key(Key::Down, false);
    app.handle_key(Key::Down, false);
    app.handle_key(Key::Char('h'), false);
    assert_eq!(app.config.sessions_before_long_break, 3);
    for _ in 0..5 {
        app.handle_key(Key::Left, false);
    }
    assert_eq!(app.config.sessions_before_long_break, 1);

    app.handle_key(Key::Down, false);
    app.handle_key(Key::Char('l'), false);
    assert!(!app.config.notify);
    app.handle_key(Key::Down, false);
    app.handle_key(Key::Left, false);
    assert!(!app.config.alert_screen);
}

#[test]
fn enter_starts_the_timer_with_the_current_settings() {
    let mut app = App::new(Config::default(), None);
    app.handle_key(Key::Right, false); // work -> 30m
    app.handle_key(Key::Enter, false);
    assert_eq!(remaining(&app), mins(30));
    app.handle_key(Key::Char('m'), false);
    assert!(matches!(app.screen, Screen::Menu { selected: 0 }));
}

#[test]
fn timer_keys_pause_skip_and_reset() {
    let mut h = Vec::new();
    let mut app = app_on_timer(false);
    key(&mut app, Key::Char(' '), &mut h);
    tick(&mut app, Duration::from_secs(5), &mut h);
    assert_eq!(remaining(&app), secs(10));
    key(&mut app, Key::Char('p'), &mut h);
    tick(&mut app, Duration::from_secs(5), &mut h);
    assert_eq!(remaining(&app), secs(5));
    key(&mut app, Key::Char('r'), &mut h);
    assert_eq!(remaining(&app), secs(10));
    let effects = app.handle_key(Key::Char('s'), false);
    assert_eq!(
        effects,
        vec![
            Effect::PhaseEnded { phase: Phase::Work, planned: secs(10), elapsed: 0, completed: false },
            Effect::Announce(Phase::ShortBreak),
        ]
    );
    assert_eq!(remaining(&app), secs(2));
}

#[test]
fn announcements_follow_the_notify_setting() {
    let mut c = Config::default();
    let n = announce(&c, Phase::ShortBreak).unwrap();
    assert_eq!(n.summary, "Break time");
    assert_eq!(n.body, "Stretch your legs for a bit.");
    assert_eq!(announce(&c, Phase::Work).unwrap().summary, "Back to it \u{1f98a}");
    assert_eq!(announce(&c, Phase::LongBreak).unwrap().body, "You earned it. Step away.");
    c.notify = false;
    assert!(announce(&c, Phase::Work).is_none());
}

#[test]
fn guards_refuse_only_overflowing_steps() {
    let mut c = Config::default();
    c.sessions_before_long_break = u32::MAX;
    let mut app = App::new(c, None);
    assert!(app.accepts_key(Key::Right, false));
    app.handle_key(Key::Up, false);
    app.handle_key(Key::Up, false);
    app.handle_key(Key::Up, false); // "Sessions"
    assert!(!app.accepts_key(Key::Right, false));
    assert!(app.accepts_key(Key::Left, false));
    assert!(app.accepts_tick(secs(1_000_000)));
}
