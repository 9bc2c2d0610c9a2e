use vstd::prelude::*;

use crate::config::Config;

verus! {

/// The three phases of the pomodoro cycle.
#[derive(Clone, Copy, Debug, PartialEq, Eq, Structural)]
pub enum Phase {
    Work,
    ShortBreak,
    LongBreak,
}

impl Phase {
    /// The phase's name as shown to the user.
    pub open spec fn spec_label(self) -> Seq<char> {
        match self {
            Phase::Work => "Focus"@,
            Phase::ShortBreak => "Short Break"@,
            Phase::LongBreak => "Long Break"@,
        }
    }

    pub fn label(&self) -> (s: &'static str)
        ensures
            s@ == self.spec_label(),
    {
        match self {
            Phase::Work => "Focus",
            Phase::ShortBreak => "Short Break",
            Phase::LongBreak => "Long Break",
        }
    }
}

/// The configured length of `phase`.
pub open spec fn phase_length(config: Config, phase: Phase) -> u128 {
    match phase {
        Phase::Work => config.work,
        Phase::ShortBreak => config.short_break,
        Phase::LongBreak => config.long_break,
    }
}

/// The phase that follows `phase`, where `completed` is the count of
/// naturally finished work sessions after the phase ends and `n` the number
/// of sessions before a long break. A work session that finished naturally
/// and completes a cycle of `n` is followed by a long break; any other work
/// session by a short break; any break by work.
pub open spec fn next_phase(phase: Phase, finished: bool, completed: u32, n: u32) -> Phase {
    match phase {
        Phase::Work => if finished && completed % n == 0 {
            Phase::LongBreak
        } else {
            Phase::ShortBreak
        },
        _ => Phase::Work,
    }
}

/// Pomodoro state machine: Work -> ShortBreak (or LongBreak every N
/// sessions) -> Work -> ...
#[derive(Debug)]
pub struct Timer {
    pub phase: Phase,
    pub remaining: u128,
    pub total: u128,
    /// Work sessions finished naturally (skipped sessions don't count).
    pub completed_work: u32,
    pub paused: bool,
    /// The settings the timer was made with.
    pub config: Config,
}

impl Timer {
    /// Well-formedness: a cycle has at least one session, the current phase
    /// runs for its configured length, and the time left never exceeds it.
    pub open spec fn wf(self) -> bool {
        &&& self.config.sessions_before_long_break >= 1
        &&& self.total == phase_length(self.config, self.phase)
        &&& self.remaining <= self.total
    }

    /// A fresh timer at the start of a work session.
    pub open spec fn spec_new(config: Config) -> Timer {
        Timer {
            phase: Phase::Work,
            remaining: config.work,
            total: config.work,
            completed_work: 0,
            paused: false,
            config,
        }
    }

    /// The timer after `self` moves on to the next phase, counting the
    /// current phase as finished naturally or not.
    pub open spec fn spec_advance(self, finished: bool) -> Timer {
        let completed = if finished && self.phase == Phase::Work {
            (self.completed_work + 1) as u32
        } else {
            self.completed_work
        };
        let phase = next_phase(
            self.phase,
            finished,
            completed,
            self.config.sessions_before_long_break,
        );
        Timer {
            phase,
            remaining: phase_length(self.config, phase),
            total: phase_length(self.config, phase),
            completed_work: completed,
            ..self
        }
    }

    /// Whether a tick of `delta` ends the current phase.
    pub open spec fn tick_ends_phase(self, delta: u128) -> bool {
        !self.paused && delta >= self.remaining
    }

    /// The timer after a tick of `delta`, and the phase it moved on to if the
    /// tick ended the current one.
    pub open spec fn spec_tick(self, delta: u128) -> (Timer, Option<Phase>) {
        if self.paused {
            (self, None)
        } else if delta < self.remaining {
            (Timer { remaining: (self.remaining - delta) as u128, ..self }, None)
        } else {
            let next = self.spec_advance(true);
            (next, Some(next.phase))
        }
    }

    /// The timer with the current phase restarted.
    pub open spec fn spec_reset(self) -> Timer {
        Timer { remaining: self.total, ..self }
    }

    /// The timer with pausing toggled.
    pub open spec fn spec_toggle_pause(self) -> Timer {
        Timer { paused: !self.paused, ..self }
    }

    /// Whether finishing the current phase naturally is defined: finishing a
    /// work session counts it, and picks the break by dividing the count by
    /// the cycle length, so the count must have room and the cycle must not
    /// be empty.
    pub open spec fn can_finish(self) -> bool {
        self.phase == Phase::Work ==> {
            &&& self.completed_work < u32::MAX
            &&& self.config.sessions_before_long_break >= 1
        }
    }

    /// Whether a tick of `delta` is defined: if it ends the phase, finishing
    /// it is.
    pub open spec fn can_tick(self, delta: u128) -> bool {
        self.tick_ends_phase(delta) ==> self.can_finish()
    }

    pub fn new(config: Config) -> (t: Self)
        ensures
            config.sessions_before_long_break >= 1 ==> t.wf(),
            t == Timer::spec_new(config),
    {
        Timer {
            phase: Phase::Work,
            remaining: config.work,
            total: config.work,
            completed_work: 0,
            paused: false,
            config,
        }
    }

    /// Advance the clock. Returns the new phase when the current one ends.
    pub fn tick(&mut self, delta: u128) -> (ret: Option<Phase>)
        requires
            old(self).can_tick(delta),
        ensures
            old(self).wf() ==> final(self).wf(),
            (*final(self), ret) == old(self).spec_tick(delta),
            ret is Some <==> old(self).tick_ends_phase(delta),
    {
        if self.paused {
            return None;
        }
        if delta < self.remaining {
            self.remaining = self.remaining - delta;
            return None;
        }
        Some(self.advance(true))
    }

    /// Jump to the next phase without finishing this one.
    pub fn skip(&mut self) -> (p: Phase)
        ensures
            old(self).wf() ==> final(self).wf(),
            *final(self) == old(self).spec_advance(false),
            p == final(self).phase,
    {
        self.advance(false)
    }

    /// Restart the current phase from the top.
    pub fn reset(&mut self)
        ensures
            old(self).wf() ==> final(self).wf(),
            *final(self) == old(self).spec_reset(),
    {
        self.remaining = self.total;
    }

    pub fn toggle_pause(&mut self)
        ensures
            old(self).wf() ==> final(self).wf(),
            *final(self) == old(self).spec_toggle_pause(),
    {
        self.paused = !self.paused;
    }

    /// Sessions done in the current cycle, and the cycle's length.
    pub open spec fn spec_cycle_position(self) -> (u32, u32) {
        let n = self.config.sessions_before_long_break;
        let done = self.completed_work % n;
        if done == 0 && self.completed_work > 0 && self.phase != Phase::Work {
            (n, n)
        } else {
            (done as u32, n)
        }
    }

    /// Position within the current cycle of work sessions, for the dots row.
    pub fn cycle_position(&self) -> (pos: (u32, u32))
        requires
            self.config.sessions_before_long_break >= 1,
        ensures
            pos == self.spec_cycle_position(),
            pos.0 <= pos.1,
            pos.1 >= 1,
    {
        let n = self.config.sessions_before_long_break;
        let mut done = self.completed_work % n;
        // Right after the Nth session finishes we're heading into (or in) the
        // long break: show the cycle as full rather than empty.
        if done == 0 && self.completed_work > 0 && self.phase != Phase::Work {
            done = n;
        }
        (done, n)
    }

    fn advance(&mut self, finished: bool) -> (p: Phase)
        requires
            finished ==> old(self).can_finish(),
        ensures
            old(self).config.sessions_before_long_break >= 1 ==> final(self).wf(),
            *final(self) == old(self).spec_advance(finished),
            p == final(self).phase,
    {
        self.phase = match self.phase {
            Phase::Work => {
                if finished {
                    self.completed_work = self.completed_work + 1;
                }
                if finished && self.completed_work % self.config.sessions_before_long_break == 0 {
                    Phase::LongBreak
                } else {
                    Phase::ShortBreak
                }
            },
            Phase::ShortBreak | Phase::LongBreak => Phase::Work,
        };
        self.total = match self.phase {
            Phase::Work => self.config.work,
            Phase::ShortBreak => self.config.short_break,
            Phase::LongBreak => self.config.long_break,
        };
        self.remaining = self.total;
        self.phase
    }
}

/// The clock is additive within a phase: a tick of `a` that leaves the
/// phase running, followed by a tick of `b`, ends in the same state, and
/// reports the same phase change, as one tick of `a + b`.
pub proof fn lemma_ticks_compose(t: Timer, a: u128, b: u128)
    requires
        a < t.remaining,
        a + b <= u128::MAX,
    ensures
        t.spec_tick(a).1 is None,
        t.spec_tick(a).0.spec_tick(b) == t.spec_tick((a + b) as u128),
{
}

/// A paused timer does not move, however much time passes.
pub proof fn lemma_paused_timer_holds(t: Timer, delta: u128)
    requires
        t.paused,
    ensures
        t.spec_tick(delta) == (t, None::<Phase>),
{
}

/// Skipped sessions don't count: skipping never changes the count of
/// completed work sessions, and a skipped work session is always followed
/// by a short break.
pub proof fn lemma_skips_do_not_count(t: Timer)
    ensures
        t.spec_advance(false).completed_work == t.completed_work,
        t.phase == Phase::Work ==> t.spec_advance(false).phase == Phase::ShortBreak,
        t.phase != Phase::Work ==> t.spec_advance(false).phase == Phase::Work,
{
}

/// A long break comes after every N naturally finished work sessions, a
/// short break after the others, and work after every break.
pub proof fn lemma_long_break_every_n_sessions(t: Timer)
    requires
        t.wf(),
        t.completed_work < u32::MAX,
    ensures
        t.phase == Phase::Work ==> (t.spec_advance(true).phase == Phase::LongBreak <==> (
        t.completed_work + 1) % (t.config.sessions_before_long_break as int) == 0),
        t.phase == Phase::Work ==> t.spec_advance(true).completed_work == t.completed_work + 1,
        t.phase != Phase::Work ==> t.spec_advance(true).phase == Phase::Work,
        t.phase != Phase::Work ==> t.spec_advance(true).completed_work == t.completed_work,
{
}

/// Whatever ends a phase, the next one starts from the top with its
/// configured length and the pause state kept.
pub proof fn lemma_new_phase_runs_full_length(t: Timer, finished: bool)
    ensures
        t.spec_advance(finished).remaining == phase_length(t.config, t.spec_advance(finished).phase),
        t.spec_advance(finished).total == t.spec_advance(finished).remaining,
        t.spec_advance(finished).paused == t.paused,
        t.spec_advance(finished).config == t.config,
{
}

/// Resetting twice is resetting once, and pausing twice changes nothing.
pub proof fn lemma_reset_and_pause_are_idempotent(t: Timer)
    ensures
        t.spec_reset().spec_reset() == t.spec_reset(),
        t.spec_toggle_pause().spec_toggle_pause() == t,
{
}


/// The session dots count the work sessions finished in the current cycle:
/// the number finished, modulo the cycle's length, out of that length; in
/// the break right after a cycle's last session the cycle shows full rather
/// than empty, and during a work session it shows what is finished so far.
pub proof fn lemma_cycle_position_counts_the_cycle(t: Timer)
    requires
        t.config.sessions_before_long_break >= 1,
    ensures
        ({
            let (done, total) = t.spec_cycle_position();
            let n = t.config.sessions_before_long_break;
            &&& total == n
            &&& done <= total
            &&& t.completed_work % n != 0 ==> done == t.completed_work % n
            &&& t.phase == Phase::Work ==> done == t.completed_work % n
            &&& t.completed_work == 0 ==> done == 0
            &&& (t.completed_work % n == 0 && t.completed_work > 0 && t.phase != Phase::Work)
                ==> done == n
        }),
{
    let n = t.config.sessions_before_long_break;
    assert(t.completed_work % n < n);
    assert(t.completed_work == 0 ==> t.completed_work % n == 0) by (nonlinear_arith)
        requires
            n >= 1,
    ;
}

} // verus!
