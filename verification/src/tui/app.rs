//! The application's state machine: keys and clock ticks in, the next state
//! and the outside work to do (history records, notifications, saving the
//! settings, loading statistics) out.
use vstd::prelude::*;

use crate::config::{Config, NANOS_PER_SEC};
use crate::stats::calendar::Timestamp;
use crate::stats::report::fits_duration;
use crate::stats::store::Store;
use crate::stats::{summarizable, Record, Summary};
use crate::timer::{Phase, Timer};

verus! {

/// Number of entries in the settings menu.
pub const MENU_LEN: usize = 6;

/// The settings menu, top to bottom.
pub const MENU_ITEMS: [&'static str; 6] = [
    "Work",
    "Short break",
    "Long break",
    "Sessions",
    "Notifications",
    "Alert screen",
];

pub enum Screen {
    Menu { selected: usize },
    Timer(Timer),
}

/// A key press, as the application reads it.
#[derive(Clone, Copy, Debug, PartialEq, Eq, Structural)]
pub enum Key {
    Char(char),
    Enter,
    Esc,
    Up,
    Down,
    Left,
    Right,
    Other,
}

/// Outside work that a step of the application asks for.
#[derive(Clone, Copy, Debug, PartialEq, Eq, Structural)]
pub enum Effect {
    /// A phase ended: record it in the history (see `record_phase_end`).
    PhaseEnded { phase: Phase, planned: u128, elapsed: u128, completed: bool },
    /// A new phase began: tell the user (see `announce`).
    Announce(Phase),
    /// The settings changed: write them to the config file.
    SaveConfig,
    /// Load the history and show the statistics (see `App::open_stats`).
    OpenStats,
}

pub struct App {
    pub config: Config,
    pub screen: Screen,
    pub status: Option<String>,
    /// When set, the timer is frozen on a full-screen alert announcing this
    /// upcoming phase until the user presses Enter.
    pub alert: Option<Phase>,
    /// History log; None when the data dir can't be determined (recording
    /// is best-effort, like notifications).
    pub store: Option<Store>,
    /// When set, a stats panel is drawn over the current screen. The timer
    /// keeps ticking underneath.
    pub stats_view: Option<Summary>,
    pub should_quit: bool,
}

/// Settings the application can run with: a cycle has at least one session
/// and every length fits a `Duration`.
pub open spec fn config_ok(c: Config) -> bool {
    &&& c.sessions_before_long_break >= 1
    &&& fits_duration(c.work)
    &&& fits_duration(c.short_break)
    &&& fits_duration(c.long_break)
}

/// Step a duration to the next/previous multiple of five minutes, never
/// below one minute.
pub open spec fn bumped(d: u128, dir: i64) -> u128 {
    let secs = d / NANOS_PER_SEC;
    let snapped = if dir > 0 {
        (secs / 300 + 1) * 300
    } else if secs == 0 {
        0
    } else {
        (secs - 1) / 300 * 300
    };
    (if snapped >= 60 {
        snapped
    } else {
        60
    } * NANOS_PER_SEC) as u128
}

/// Stepping `d` up or down stays within what a `Duration` holds.
pub open spec fn bump_ok(d: u128, dir: i64) -> bool {
    &&& fits_duration(d)
    &&& dir > 0 ==> (d / NANOS_PER_SEC / 300 + 1) * 300 <= u64::MAX
}

/// Step a duration to the next/previous multiple of five minutes, never
/// below one minute. Off-grid values snap to the grid rather than keeping
/// their offset (1m -> 5m -> 10m, not 1m -> 6m -> 11m).
pub fn bump_duration(d: u128, dir: i64) -> (r: u128)
    requires
        bump_ok(d, dir),
    ensures
        r == bumped(d, dir),
{
    let step: u64 = 300;
    let secs = (d / NANOS_PER_SEC) as u64;
    let snapped = if dir > 0 {
        (secs / step + 1) * step
    } else {
        let below = if secs > 0 {
            secs - 1
        } else {
            0
        };
        below / step * step
    };
    let floored = if snapped >= 60 {
        snapped
    } else {
        60
    };
    (floored as u128) * NANOS_PER_SEC
}

/// The settings after the menu entry `selected` is adjusted in direction
/// `dir` (-1 or 1).
pub open spec fn adjusted(c: Config, selected: usize, dir: i64) -> Config {
    if selected == 0 {
        Config { work: bumped(c.work, dir), ..c }
    } else if selected == 1 {
        Config { short_break: bumped(c.short_break, dir), ..c }
    } else if selected == 2 {
        Config { long_break: bumped(c.long_break, dir), ..c }
    } else if selected == 3 {
        let s = c.sessions_before_long_break + dir;
        Config { sessions_before_long_break: (if s >= 1 { s } else { 1 }) as u32, ..c }
    } else if selected == 4 {
        Config { notify: !c.notify, ..c }
    } else if selected == 5 {
        Config { alert_screen: !c.alert_screen, ..c }
    } else {
        c
    }
}

/// Adjusting the menu entry `selected` stays within range: durations stay
/// `Duration`s and the session count stays a `u32`.
pub open spec fn adjust_ok(c: Config, selected: usize, dir: i64) -> bool {
    &&& selected == 0 ==> bump_ok(c.work, dir)
    &&& selected == 1 ==> bump_ok(c.short_break, dir)
    &&& selected == 2 ==> bump_ok(c.long_break, dir)
    &&& selected == 3 ==> (dir > 0 ==> c.sessions_before_long_break < u32::MAX)
}

/// Whether adjusting the menu entry `selected` of `c` in direction `dir`
/// stays within range.
fn can_adjust(c: &Config, selected: usize, dir: i64) -> (ok: bool)
    requires
        dir == 1 || dir == -1,
    ensures
        ok == adjust_ok(*c, selected, dir),
{
    if selected <= 2 {
        let d = if selected == 0 {
            c.work
        } else if selected == 1 {
            c.short_break
        } else {
            c.long_break
        };
        let limit: u128 = (u64::MAX as u128) * NANOS_PER_SEC + (NANOS_PER_SEC - 1);
        if d > limit {
            return false;
        }
        let secs = (d / NANOS_PER_SEC) as u64;
        dir < 0 || secs / 300 < u64::MAX / 300
    } else if selected == 3 {
        dir < 0 || c.sessions_before_long_break < u32::MAX
    } else {
        true
    }
}

/// A desktop notification: a summary line and a body.
pub struct Notification {
    pub summary: &'static str,
    pub body: &'static str,
}

/// The notification that announces `phase`.
pub open spec fn notification_text(phase: Phase) -> (Seq<char>, Seq<char>) {
    match phase {
        Phase::Work => ("Back to it \u{1f98a}"@, "Time to focus."@),
        Phase::ShortBreak => ("Break time"@, "Stretch your legs for a bit."@),
        Phase::LongBreak => ("Long break"@, "You earned it. Step away."@),
    }
}

/// The notification to send when `phase` begins; none when notifications
/// are off.
pub fn announce(config: &Config, phase: Phase) -> (n: Option<Notification>)
    ensures
        n is Some <==> config.notify,
        n matches Some(n) ==> (n.summary@, n.body@) == notification_text(phase),
{
    if !config.notify {
        return None;
    }
    let (summary, body) = match phase {
        Phase::Work => ("Back to it \u{1f98a}", "Time to focus."),
        Phase::ShortBreak => ("Break time", "Stretch your legs for a bit."),
        Phase::LongBreak => ("Long break", "You earned it. Step away."),
    };
    Some(Notification { summary, body })
}

/// The history record for a phase that ended at `at`; none when there is
/// no store to write it to.
pub fn record_phase_end(
    store: &Option<Store>,
    at: Timestamp,
    phase: Phase,
    planned: u128,
    elapsed: u128,
    completed: bool,
) -> (r: Option<Record>)
    requires
        fits_duration(planned),
        fits_duration(elapsed),
    ensures
        r is Some <==> store is Some,
        r matches Some(r) ==> r == (Record {
            at,
            phase,
            planned_secs: (planned / NANOS_PER_SEC) as u64,
            actual_secs: (elapsed / NANOS_PER_SEC) as u64,
            completed,
        }),
{
    if store.is_none() {
        return None;
    }
    Some(
        Record {
            at,
            phase,
            planned_secs: (planned / NANOS_PER_SEC) as u64,
            actual_secs: (elapsed / NANOS_PER_SEC) as u64,
            completed,
        },
    )
}

impl App {
    /// The application is in a state it can run from: its settings are
    /// usable, the menu selection is an entry, and a running timer is
    /// well-formed with usable settings.
    pub open spec fn wf(&self) -> bool {
        &&& config_ok(self.config)
        &&& match self.screen {
            Screen::Menu { selected } => selected < MENU_LEN,
            Screen::Timer(t) => t.wf() && config_ok(t.config),
        }
    }

    /// The application with the status line cleared.
    pub open spec fn cleared(self) -> App {
        App { status: None, ..self }
    }

    /// What a key press makes of the application, and the outside work it
    /// asks for.
    pub open spec fn spec_handle_key(self, key: Key, ctrl: bool) -> (App, Seq<Effect>) {
        let app = self.cleared();
        if key == Key::Char('q') || (key == Key::Char('c') && ctrl) {
            (App { should_quit: true, ..app }, seq![])
        } else if app.stats_view is Some {
            // The stats overlay swallows keys; Esc and t close it.
            if key == Key::Esc || key == Key::Char('t') {
                (App { stats_view: None, ..app }, seq![])
            } else {
                (app, seq![])
            }
        } else if key == Key::Esc {
            (App { should_quit: true, ..app }, seq![])
        } else if app.alert is Some {
            if key == Key::Enter {
                (App { alert: None, ..app }, seq![])
            } else if key == Key::Char('s') {
                match app.screen {
                    Screen::Timer(t) => {
                        let next = t.spec_advance(false);
                        (
                            App { alert: None, screen: Screen::Timer(next), ..app },
                            seq![
                                Effect::PhaseEnded {
                                    phase: t.phase,
                                    planned: t.total,
                                    elapsed: 0,
                                    completed: false,
                                },
                                Effect::Announce(next.phase),
                            ],
                        )
                    },
                    Screen::Menu { .. } => (App { alert: None, ..app }, seq![]),
                }
            } else {
                (app, seq![])
            }
        } else if key == Key::Char('t') {
            (app, seq![Effect::OpenStats])
        } else {
            match app.screen {
                Screen::Menu { selected } => {
                    if key == Key::Up || key == Key::Char('k') {
                        let up = if selected == 0 {
                            (MENU_LEN - 1) as usize
                        } else {
                            (selected - 1) as usize
                        };
                        (App { screen: Screen::Menu { selected: up }, ..app }, seq![])
                    } else if key == Key::Down || key == Key::Char('j') {
                        let down = ((selected + 1) % MENU_LEN as int) as usize;
                        (App { screen: Screen::Menu { selected: down }, ..app }, seq![])
                    } else if key == Key::Left || key == Key::Char('h') {
                        (
                            App { config: adjusted(app.config, selected, -1i64), ..app },
                            seq![Effect::SaveConfig],
                        )
                    } else if key == Key::Right || key == Key::Char('l') {
                        (
                            App { config: adjusted(app.config, selected, 1i64), ..app },
                            seq![Effect::SaveConfig],
                        )
                    } else if key == Key::Enter {
                        (App { screen: Screen::Timer(Timer::spec_new(app.config)), ..app }, seq![])
                    } else {
                        (app, seq![])
                    }
                },
                Screen::Timer(t) => {
                    if key == Key::Char(' ') || key == Key::Char('p') {
                        (App { screen: Screen::Timer(t.spec_toggle_pause()), ..app }, seq![])
                    } else if key == Key::Char('s') {
                        let next = t.spec_advance(false);
                        (
                            App { screen: Screen::Timer(next), ..app },
                            seq![
                                Effect::PhaseEnded {
                                    phase: t.phase,
                                    planned: t.total,
                                    elapsed: (t.total - t.remaining) as u128,
                                    completed: false,
                                },
                                Effect::Announce(next.phase),
                            ],
                        )
                    } else if key == Key::Char('r') {
                        (App { screen: Screen::Timer(t.spec_reset()), ..app }, seq![])
                    } else if key == Key::Char('m') {
                        (App { screen: Screen::Menu { selected: 0 }, ..app }, seq![])
                    } else {
                        (app, seq![])
                    }
                },
            }
        }
    }

    /// Whether a key press gets past the quit keys, the stats overlay, Esc,
    /// an alert and the stats key, to the current screen.
    pub open spec fn reaches_screen(self, key: Key, ctrl: bool) -> bool {
        &&& key != Key::Char('q')
        &&& !(key == Key::Char('c') && ctrl)
        &&& self.stats_view is None
        &&& key != Key::Esc
        &&& self.alert is None
        &&& key != Key::Char('t')
    }

    /// Whether a key press that reaches the screen is defined: on the menu, a
    /// position past the end is not stepped past the largest index, a
    /// duration is a `Duration` and is not stepped past the largest one, and
    /// the session count is not stepped past the largest `u32`; on the timer,
    /// a skip measures the time spent, so no more can be left than the
    /// phase's length.
    pub open spec fn key_ok(self, key: Key, ctrl: bool) -> bool {
        self.reaches_screen(key, ctrl) ==> match self.screen {
            Screen::Menu { selected } => {
                &&& (key == Key::Down || key == Key::Char('j')) ==> selected < usize::MAX
                &&& (key == Key::Right || key == Key::Char('l')) ==> adjust_ok(
                    self.config,
                    selected,
                    1i64,
                )
                &&& (key == Key::Left || key == Key::Char('h')) ==> adjust_ok(
                    self.config,
                    selected,
                    -1i64,
                )
            },
            Screen::Timer(t) => key == Key::Char('s') ==> t.remaining <= t.total,
        }
    }

    /// What the passing of `delta` makes of the application, and the
    /// outside work it asks for.
    pub open spec fn spec_advance_clock(self, delta: u128) -> (App, Seq<Effect>) {
        if self.alert is Some {
            (self, seq![])
        } else {
            match self.screen {
                Screen::Timer(t) => {
                    let (next, ended) = t.spec_tick(delta);
                    if ended is Some {
                        (
                            App {
                                screen: Screen::Timer(next),
                                alert: if self.config.alert_screen {
                                    Some(next.phase)
                                } else {
                                    self.alert
                                },
                                ..self
                            },
                            seq![
                                Effect::PhaseEnded {
                                    phase: t.phase,
                                    planned: t.total,
                                    elapsed: t.total,
                                    completed: true,
                                },
                                Effect::Announce(next.phase),
                            ],
                        )
                    } else {
                        (App { screen: Screen::Timer(next), ..self }, seq![])
                    }
                },
                Screen::Menu { .. } => (self, seq![]),
            }
        }
    }

    /// Whether the passing of `delta` is defined: a running timer may
    /// finish the phase it is in.
    pub open spec fn clock_ok(self, delta: u128) -> bool {
        match self.screen {
            Screen::Timer(t) => self.alert is None ==> t.can_tick(delta),
            Screen::Menu { .. } => true,
        }
    }

    /// Whether `handle_key` may take `code`.
    pub fn accepts_key(&self, code: Key, ctrl: bool) -> (ok: bool)
        ensures
            ok == self.key_ok(code, ctrl),
    {
        let reaches = !(code == Key::Char('q') || (code == Key::Char('c') && ctrl))
            && self.stats_view.is_none() && code != Key::Esc && self.alert.is_none() && code
            != Key::Char('t');
        if !reaches {
            return true;
        }
        match &self.screen {
            Screen::Menu { selected } => {
                let selected = *selected;
                if code == Key::Down || code == Key::Char('j') {
                    selected < usize::MAX
                } else if code == Key::Right || code == Key::Char('l') {
                    can_adjust(&self.config, selected, 1)
                } else if code == Key::Left || code == Key::Char('h') {
                    can_adjust(&self.config, selected, -1)
                } else {
                    true
                }
            },
            Screen::Timer(t) => code != Key::Char('s') || t.remaining <= t.total,
        }
    }

    /// Whether `advance_clock` may take `delta`.
    pub fn accepts_tick(&self, delta: u128) -> (ok: bool)
        ensures
            ok == self.clock_ok(delta),
    {
        match &self.screen {
            Screen::Timer(t) => {
                self.alert.is_some() || t.paused || delta < t.remaining || t.phase != Phase::Work
                    || (t.completed_work < u32::MAX && t.config.sessions_before_long_break >= 1)
            },
            Screen::Menu { .. } => true,
        }
    }

    pub fn new(config: Config, store: Option<Store>) -> (app: Self)
        ensures
            config_ok(config) ==> app.wf(),
            app.config == config,
            app.screen == (Screen::Menu { selected: 0 }),
            app.status is None,
            app.alert is None,
            app.store == store,
            app.stats_view is None,
            !app.should_quit,
    {
        App {
            config,
            screen: Screen::Menu { selected: 0 },
            status: None,
            alert: None,
            store,
            stats_view: None,
            should_quit: false,
        }
    }

    /// Tick the timer unless an alert is holding it between phases.
    pub fn advance_clock(&mut self, delta: u128) -> (effects: Vec<Effect>)
        requires
            old(self).clock_ok(delta),
        ensures
            old(self).wf() ==> final(self).wf(),
            (*final(self), effects@) == old(self).spec_advance_clock(delta),
    {
        let mut effects: Vec<Effect> = Vec::new();
        if self.alert.is_some() {
            return effects;
        }
        match &mut self.screen {
            Screen::Timer(timer) => {
                let ended = timer.phase;
                let planned = timer.total;
                if let Some(phase) = timer.tick(delta) {
                    effects.push(
                        Effect::PhaseEnded { phase: ended, planned, elapsed: planned, completed: true },
                    );
                    effects.push(Effect::Announce(phase));
                    if self.config.alert_screen {
                        self.alert = Some(phase);
                    }
                }
            },
            Screen::Menu { .. } => {},
        }
        effects
    }

    pub fn handle_key(&mut self, code: Key, ctrl: bool) -> (effects: Vec<Effect>)
        requires
            old(self).key_ok(code, ctrl),
        ensures
            old(self).wf() ==> final(self).wf(),
            (*final(self), effects@) == old(self).spec_handle_key(code, ctrl),
    {
        let mut effects: Vec<Effect> = Vec::new();
        self.status = None;
        if code == Key::Char('q') || (code == Key::Char('c') && ctrl) {
            self.should_quit = true;
            return effects;
        }
        // The stats overlay swallows Esc (close, don't quit) and toggles on t.
        if self.stats_view.is_some() {
            if code == Key::Esc || code == Key::Char('t') {
                self.stats_view = None;
            }
            return effects;
        }
        if code == Key::Esc {
            self.should_quit = true;
            return effects;
        }
        if self.alert.is_some() {
            if code == Key::Enter {
                self.alert = None;
            } else if code == Key::Char('s') {
                // Skip the phase the alert announced and start the one after
                // it immediately: the keypress proves the user is present.
                self.alert = None;
                match &mut self.screen {
                    Screen::Timer(timer) => {
                        let ended = timer.phase;
                        let planned = timer.total;
                        let phase = timer.skip();
                        effects.push(
                            Effect::PhaseEnded { phase: ended, planned, elapsed: 0, completed: false },
                        );
                        effects.push(Effect::Announce(phase));
                    },
                    Screen::Menu { .. } => {},
                }
            }
            return effects;
        }
        if code == Key::Char('t') {
            effects.push(Effect::OpenStats);
            return effects;
        }
        match &mut self.screen {
            Screen::Menu { selected } => {
                let selected = *selected;
                if code == Key::Up || code == Key::Char('k') {
                    self.select(if selected == 0 { MENU_LEN - 1 } else { selected - 1 });
                } else if code == Key::Down || code == Key::Char('j') {
                    self.select((selected + 1) % MENU_LEN);
                } else if code == Key::Left || code == Key::Char('h') {
                    self.adjust(selected, -1);
                    effects.push(Effect::SaveConfig);
                } else if code == Key::Right || code == Key::Char('l') {
                    self.adjust(selected, 1);
                    effects.push(Effect::SaveConfig);
                } else if code == Key::Enter {
                    self.screen = Screen::Timer(Timer::new(self.config));
                }
            },
            Screen::Timer(timer) => {
                if code == Key::Char(' ') || code == Key::Char('p') {
                    timer.toggle_pause();
                } else if code == Key::Char('s') {
                    let ended = timer.phase;
                    let planned = timer.total;
                    let elapsed = timer.total - timer.remaining;
                    let phase = timer.skip();
                    effects.push(
                        Effect::PhaseEnded { phase: ended, planned, elapsed, completed: false },
                    );
                    effects.push(Effect::Announce(phase));
                } else if code == Key::Char('r') {
                    timer.reset();
                } else if code == Key::Char('m') {
                    self.screen = Screen::Menu { selected: 0 };
                }
            },
        }
        effects
    }

    fn select(&mut self, index: usize)
        ensures
            *final(self) == (App { screen: Screen::Menu { selected: index }, ..*old(self) }),
    {
        self.screen = Screen::Menu { selected: index };
    }

    fn adjust(&mut self, selected: usize, dir: i64)
        requires
            dir == 1 || dir == -1,
            adjust_ok(old(self).config, selected, dir),
        ensures
            *final(self) == (App { config: adjusted(old(self).config, selected, dir), ..*old(self) }),
            config_ok(old(self).config) ==> config_ok(final(self).config),
    {
        let c = &mut self.config;
        if selected == 0 {
            c.work = bump_duration(c.work, dir);
        } else if selected == 1 {
            c.short_break = bump_duration(c.short_break, dir);
        } else if selected == 2 {
            c.long_break = bump_duration(c.long_break, dir);
        } else if selected == 3 {
            let s = c.sessions_before_long_break as i64 + dir;
            c.sessions_before_long_break = if s >= 1 { s as u32 } else { 1 };
        } else if selected == 4 {
            c.notify = !c.notify;
        } else if selected == 5 {
            c.alert_screen = !c.alert_screen;
        }
    }

    /// Show the summary of `records` as seen on the day numbered `today`.
    pub fn open_stats(&mut self, records: &[Record], today: i32)
        requires
            summarizable(records@, today as int),
        ensures
            final(self).stats_view matches Some(s) && s.summarizes(records@, today as int),
            final(self).config == old(self).config,
            final(self).screen == old(self).screen,
            final(self).status == old(self).status,
            final(self).alert == old(self).alert,
            final(self).store == old(self).store,
            final(self).should_quit == old(self).should_quit,
    {
        self.stats_view = Some(Summary::compute(records, today));
    }
}

/// Durations on the menu stay on the five-minute grid, or at the one-minute
/// floor, and never go below one minute.
pub proof fn lemma_bump_stays_on_grid(d: u128, dir: i64)
    requires
        bump_ok(d, dir),
    ensures
        bumped(d, dir) >= 60 * NANOS_PER_SEC,
        bumped(d, dir) as int % (300 * NANOS_PER_SEC) as int == 0 || bumped(d, dir) == 60
            * NANOS_PER_SEC,
{
    let secs: int = d as int / NANOS_PER_SEC as int;
    let snapped: int = if dir > 0 {
        (secs / 300 + 1) * 300
    } else if secs == 0 {
        0
    } else {
        (secs - 1) / 300 * 300
    };
    assert(secs <= u64::MAX);
    assert(0 <= snapped <= u64::MAX) by (nonlinear_arith)
        requires
            snapped == (if dir > 0 {
                (secs / 300 + 1) * 300
            } else if secs == 0 {
                0
            } else {
                (secs - 1) / 300 * 300
            }),
            secs >= 0,
            secs <= u64::MAX,
            dir > 0 ==> (secs / 300 + 1) * 300 <= u64::MAX,
    ;
    if snapped >= 60 {
        assert(snapped % 300 == 0) by (nonlinear_arith)
            requires
                snapped == (if dir > 0 {
                    (secs / 300 + 1) * 300
                } else if secs == 0 {
                    0
                } else {
                    (secs - 1) / 300 * 300
                }),
                secs >= 0,
        ;
        assert((snapped * 1_000_000_000) % 300_000_000_000 == 0) by (nonlinear_arith)
            requires
                snapped % 300 == 0,
                snapped >= 0,
        ;
    }
}

/// Stepping up always lengthens a duration, and stepping down shortens
/// any duration longer than the one-minute floor.
pub proof fn lemma_bump_moves_in_its_direction(d: u128)
    requires
        bump_ok(d, 1i64),
    ensures
        d / NANOS_PER_SEC < bumped(d, 1i64) / NANOS_PER_SEC,
        d / NANOS_PER_SEC > 60 ==> bumped(d, -1i64) / NANOS_PER_SEC < d / NANOS_PER_SEC,
{
    let secs: int = d as int / NANOS_PER_SEC as int;
    let up: int = (secs / 300 + 1) * 300;
    assert(secs < up) by (nonlinear_arith)
        requires
            secs >= 0,
            up == (secs / 300 + 1) * 300,
    ;
    assert((up * 1_000_000_000) / 1_000_000_000 == up) by (nonlinear_arith);
    if secs > 60 {
        let down: int = (secs - 1) / 300 * 300;
        assert(0 <= down <= secs - 1) by (nonlinear_arith)
            requires
                secs >= 1,
                down == (secs - 1) / 300 * 300,
        ;
        assert((down * 1_000_000_000) / 1_000_000_000 == down) by (nonlinear_arith);
    }
}

/// On the grid, a step down undoes a step up, and a step up undoes a step
/// down of any duration of ten minutes or more.
pub proof fn lemma_bump_round_trips(d: u128, k: int)
    requires
        k >= 1,
        d == k * 300 * NANOS_PER_SEC,
        (k + 1) * 300 <= u64::MAX,
    ensures
        bumped(bumped(d, 1i64), -1i64) == d,
        k >= 2 ==> bumped(bumped(d, -1i64), 1i64) == d,
{
    assert(d as int / NANOS_PER_SEC as int == k * 300) by (nonlinear_arith)
        requires
            d == k * 300 * NANOS_PER_SEC,
    ;
    assert((k * 300) / 300 == k) by (nonlinear_arith);
    assert(((k + 1) * 300 - 1) / 300 == k) by (nonlinear_arith)
        requires
            k >= 1,
    ;
    assert(((k + 1) * 300 * 1_000_000_000) / 1_000_000_000 == (k + 1) * 300) by (nonlinear_arith);
    if k >= 2 {
        assert((k * 300 - 1) / 300 == k - 1) by (nonlinear_arith)
            requires
                k >= 2,
        ;
        assert(((k - 1) * 300 * 1_000_000_000) / 1_000_000_000 == (k - 1) * 300) by (nonlinear_arith);
        assert(((k - 1) * 300) / 300 == k - 1) by (nonlinear_arith);
    }
}

/// An alert holds the clock: while it is up, time passing changes nothing
/// and asks for nothing.
pub proof fn lemma_alert_freezes_clock(app: App, delta: u128)
    requires
        app.alert is Some,
    ensures
        app.spec_advance_clock(delta) == (app, Seq::<Effect>::empty()),
{
}

/// The timer keeps ticking under the stats overlay: what time passing does
/// to the screen, the alert and the outside work does not depend on whether
/// the overlay is open.
pub proof fn lemma_clock_ignores_stats_overlay(app: App, delta: u128, view: Option<Summary>)
    ensures
        (App { stats_view: view, ..app }).spec_advance_clock(delta).0.screen
            == app.spec_advance_clock(delta).0.screen,
        (App { stats_view: view, ..app }).spec_advance_clock(delta).0.alert
            == app.spec_advance_clock(delta).0.alert,
        (App { stats_view: view, ..app }).spec_advance_clock(delta).1 == app.spec_advance_clock(
            delta,
        ).1,
{
}

/// q quits from anywhere, and so does Ctrl-C.
pub proof fn lemma_quit_keys_always_quit(app: App, ctrl: bool)
    ensures
        app.spec_handle_key(Key::Char('q'), ctrl).0.should_quit,
        app.spec_handle_key(Key::Char('c'), true).0.should_quit,
{
}

/// The stats overlay swallows every other key: Esc and t close it without
/// quitting, and no key reaches the screen, the alert, the settings or the
/// outside world while it is open.
pub proof fn lemma_stats_overlay_swallows_keys(app: App, key: Key, ctrl: bool)
    requires
        app.stats_view is Some,
        key != Key::Char('q'),
        !(key == Key::Char('c') && ctrl),
    ensures
        app.spec_handle_key(key, ctrl).1 == Seq::<Effect>::empty(),
        app.spec_handle_key(key, ctrl).0.should_quit == app.should_quit,
        app.spec_handle_key(key, ctrl).0.screen == app.screen,
        app.spec_handle_key(key, ctrl).0.alert == app.alert,
        app.spec_handle_key(key, ctrl).0.config == app.config,
        (key == Key::Esc || key == Key::Char('t')) ==> app.spec_handle_key(key, ctrl).0.stats_view
            is None,
        !(key == Key::Esc || key == Key::Char('t')) ==> app.spec_handle_key(
            key,
            ctrl,
        ).0.stats_view == app.stats_view,
{
}

/// While an alert is up the stats overlay cannot open: t is ignored and the
/// alert stays.
pub proof fn lemma_alert_has_priority_over_stats(app: App)
    requires
        app.alert is Some,
        app.stats_view is None,
    ensures
        app.spec_handle_key(Key::Char('t'), false).0.stats_view is None,
        app.spec_handle_key(Key::Char('t'), false).0.alert == app.alert,
        app.spec_handle_key(Key::Char('t'), false).1 == Seq::<Effect>::empty(),
{
}

/// A manual skip never raises an alert; only a phase that ends on its own
/// does, and only when the alert screen is on.
pub proof fn lemma_only_natural_ends_raise_alerts(app: App, ctrl: bool, delta: u128)
    requires
        app.alert is None,
    ensures
        app.spec_handle_key(Key::Char('s'), ctrl).0.alert is None,
        app.spec_advance_clock(delta).0.alert is Some ==> app.config.alert_screen,
{
}

/// Every phase that ends, naturally or by a skip, is handed over for the
/// history exactly once, ahead of the announcement of the phase that
/// follows; a natural end is recorded complete with its full length, a skip
/// incomplete with the time actually spent.
pub proof fn lemma_phase_ends_are_recorded(app: App, ctrl: bool, delta: u128)
    requires
        app.alert is None,
        app.stats_view is None,
        app.screen is Timer,
    ensures
        ({
            let t = app.screen->Timer_0;
            let (post, effects) = app.spec_advance_clock(delta);
            t.tick_ends_phase(delta) ==> effects == seq![
                Effect::PhaseEnded {
                    phase: t.phase,
                    planned: t.total,
                    elapsed: t.total,
                    completed: true,
                },
                Effect::Announce(post.screen->Timer_0.phase),
            ]
        }),
        ({
            let t = app.screen->Timer_0;
            let (post, effects) = app.spec_handle_key(Key::Char('s'), ctrl);
            effects == seq![
                Effect::PhaseEnded {
                    phase: t.phase,
                    planned: t.total,
                    elapsed: (t.total - t.remaining) as u128,
                    completed: false,
                },
                Effect::Announce(post.screen->Timer_0.phase),
            ]
        }),
{
}

/// Moving up and then down the menu, or down and then up, returns to the
/// same entry, wrapping round at either end.
pub proof fn lemma_menu_navigation_wraps(app: App, selected: usize)
    requires
        selected < MENU_LEN,
        app.screen == (Screen::Menu { selected }),
        app.stats_view is None,
        app.alert is None,
    ensures
        app.spec_handle_key(Key::Up, false).0.spec_handle_key(Key::Down, false).0.screen
            == app.screen,
        app.spec_handle_key(Key::Down, false).0.spec_handle_key(Key::Up, false).0.screen
            == app.screen,
{
}


/// A phase that ends on its own is followed, when the alert screen is on,
/// by the alert that announces the phase now running, whichever phase that
/// is (a work session included), and by the announcement of that same
/// phase; with the alert screen off no alert holds the timer.
pub proof fn lemma_natural_end_alerts_the_next_phase(app: App, delta: u128)
    requires
        app.alert is None,
        app.screen is Timer,
        app.screen->Timer_0.tick_ends_phase(delta),
    ensures
        ({
            let (post, effects) = app.spec_advance_clock(delta);
            &&& post.screen is Timer
            &&& app.config.alert_screen ==> post.alert == Some(post.screen->Timer_0.phase)
            &&& !app.config.alert_screen ==> post.alert is None
            &&& effects.contains(Effect::Announce(post.screen->Timer_0.phase))
        }),
{
    let (post, effects) = app.spec_advance_clock(delta);
    assert(effects[1] == Effect::Announce(post.screen->Timer_0.phase));
}

/// Each entry of the settings menu adjusts the setting it is labelled with
/// and leaves every other setting as it was: the three lengths step along
/// the five-minute grid, the session count steps by one but not below one,
/// and the two switches flip.
pub proof fn lemma_menu_entries_adjust_their_own_setting(c: Config, i: usize, dir: i64)
    requires
        i < MENU_LEN,
    ensures
        MENU_ITEMS@[i as int]@ == "Work"@ ==> adjusted(c, i, dir) == (Config {
            work: bumped(c.work, dir),
            ..c
        }),
        MENU_ITEMS@[i as int]@ == "Short break"@ ==> adjusted(c, i, dir) == (Config {
            short_break: bumped(c.short_break, dir),
            ..c
        }),
        MENU_ITEMS@[i as int]@ == "Long break"@ ==> adjusted(c, i, dir) == (Config {
            long_break: bumped(c.long_break, dir),
            ..c
        }),
        MENU_ITEMS@[i as int]@ == "Sessions"@ ==> adjusted(c, i, dir) == (Config {
            sessions_before_long_break: if c.sessions_before_long_break + dir >= 1 {
                (c.sessions_before_long_break + dir) as u32
            } else {
                1u32
            },
            ..c
        }),
        MENU_ITEMS@[i as int]@ == "Notifications"@ ==> adjusted(c, i, dir) == (Config {
            notify: !c.notify,
            ..c
        }),
        MENU_ITEMS@[i as int]@ == "Alert screen"@ ==> adjusted(c, i, dir) == (Config {
            alert_screen: !c.alert_screen,
            ..c
        }),
{
    reveal_strlit("Work");
    reveal_strlit("Short break");
    reveal_strlit("Long break");
    reveal_strlit("Sessions");
    reveal_strlit("Notifications");
    reveal_strlit("Alert screen");
    assert(MENU_ITEMS@[0]@ == "Work"@);
    assert(MENU_ITEMS@[1]@ == "Short break"@);
    assert(MENU_ITEMS@[2]@ == "Long break"@);
    assert(MENU_ITEMS@[3]@ == "Sessions"@);
    assert(MENU_ITEMS@[4]@ == "Notifications"@);
    assert(MENU_ITEMS@[5]@ == "Alert screen"@);
    assert("Work"@.len() == 4);
    assert("Short break"@.len() == 11);
    assert("Long break"@.len() == 10);
    assert("Sessions"@.len() == 8);
    assert("Notifications"@.len() == 13);
    assert("Alert screen"@.len() == 12);
}

} // verus!
