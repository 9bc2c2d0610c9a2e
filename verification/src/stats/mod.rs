//! Session history: the records, and the statistics folded from them.
pub mod calendar;
pub mod report;
pub mod store;

use vstd::prelude::*;

use std::collections::HashSet;

use crate::config::NANOS_PER_SEC;
use crate::stats::calendar::{
    day_before, day_in_range, lemma_local_day_in_range, local_day, local_day_of, monday_of_week,
    week_start, Timestamp, MAX_DAY, MIN_DAY,
};
use crate::timer::Phase;

verus! {

broadcast use vstd::std_specs::hash::group_hash_axioms;

/// One finished or skipped phase, as written to the history log.
#[derive(Clone, Copy, Debug, PartialEq, Eq, Structural)]
pub struct Record {
    /// End of the phase, local time.
    pub at: Timestamp,
    pub phase: Phase,
    /// Configured phase length when it ran.
    pub planned_secs: u64,
    /// Timer time actually elapsed (pauses excluded).
    pub actual_secs: u64,
    /// True for a natural finish, false for a skip.
    pub completed: bool,
}

/// How many records a summary keeps in its recent list.
pub const RECENT_LEN: usize = 10;

/// Aggregates over the history, computed as a pure fold: no IO here.
/// Focus times are in nanoseconds.
#[derive(Clone, Debug, PartialEq)]
pub struct Summary {
    pub today_sessions: u32,
    pub today_focus: u128,
    pub week_sessions: u32,
    pub week_focus: u128,
    /// Consecutive days with >=1 completed work session, counting back from
    /// today, or from yesterday when today has none yet.
    pub streak_days: u32,
    pub lifetime_sessions: u32,
    pub lifetime_focus: u128,
    /// Last 10 records, newest first.
    pub recent: Vec<Record>,
}

/// A record of a work phase, finished or skipped: it counts as focus time.
pub open spec fn is_focus(r: Record) -> bool {
    r.phase == Phase::Work
}

/// A work phase that finished naturally: it counts as a session.
pub open spec fn is_session(r: Record) -> bool {
    r.phase == Phase::Work && r.completed
}

/// The record ended on `day`, local time.
pub open spec fn on_day(r: Record, day: int) -> bool {
    local_day(r.at) == day
}

/// The record ended in the Monday-started week of `today`, not after it.
pub open spec fn in_week_of(r: Record, today: int) -> bool {
    week_start(today) <= local_day(r.at) <= today
}

/// Number of records in `rs` that satisfy `p`.
pub open spec fn count(rs: Seq<Record>, p: spec_fn(Record) -> bool) -> nat
    decreases rs.len(),
{
    if rs.len() == 0 {
        0
    } else {
        count(rs.drop_last(), p) + if p(rs.last()) {
            1nat
        } else {
            0nat
        }
    }
}

/// Sum of the elapsed seconds of the records in `rs` that satisfy `p`.
pub open spec fn elapsed_secs(rs: Seq<Record>, p: spec_fn(Record) -> bool) -> nat
    decreases rs.len(),
{
    if rs.len() == 0 {
        0
    } else {
        elapsed_secs(rs.drop_last(), p) + if p(rs.last()) {
            rs.last().actual_secs as nat
        } else {
            0nat
        }
    }
}

/// The days with at least one completed work session.
pub open spec fn session_days(rs: Seq<Record>) -> Set<i32> {
    Set::new(|d: i32| exists|j: int| 0 <= j < rs.len() && is_session(rs[j]) && on_day(rs[j], d as int))
}

/// Where the streak is counted back from: today when today has a session,
/// else yesterday.
pub open spec fn streak_start(rs: Seq<Record>, today: int) -> int {
    if session_days(rs).contains(today as i32) {
        today
    } else {
        today - 1
    }
}

/// The length of the run of consecutive session days ending at `start` is
/// `len`.
pub open spec fn is_run_back_from(days: Set<i32>, start: int, len: int) -> bool {
    &&& forall|d: i32| start - len < d <= start ==> #[trigger] days.contains(d)
    &&& !days.contains((start - len) as i32)
}

/// Completed work sessions.
pub open spec fn sessions() -> spec_fn(Record) -> bool {
    |r: Record| is_session(r)
}

/// Work phases, finished or skipped.
pub open spec fn focus() -> spec_fn(Record) -> bool {
    |r: Record| is_focus(r)
}

/// Completed work sessions that ended on `today`.
pub open spec fn sessions_on(today: int) -> spec_fn(Record) -> bool {
    |r: Record| is_session(r) && on_day(r, today)
}

/// Work phases that ended on `today`.
pub open spec fn focus_on(today: int) -> spec_fn(Record) -> bool {
    |r: Record| is_focus(r) && on_day(r, today)
}

/// Completed work sessions in the week of `today`.
pub open spec fn sessions_in_week(today: int) -> spec_fn(Record) -> bool {
    |r: Record| is_session(r) && in_week_of(r, today)
}

/// Work phases in the week of `today`.
pub open spec fn focus_in_week(today: int) -> spec_fn(Record) -> bool {
    |r: Record| is_focus(r) && in_week_of(r, today)
}

/// Counting the streak back from its start stops at a date chrono
/// represents: some day from chrono's earliest date up to the start has no
/// completed session.
pub open spec fn streak_stops_in_range(rs: Seq<Record>, today: int) -> bool {
    exists|d: i32|
        MIN_DAY <= d <= streak_start(rs, today) && !#[trigger] session_days(rs).contains(d)
}

/// The history can be summarized on `today` without leaving chrono's range
/// of dates or a counter's range: every record's local date is a date chrono
/// represents, the number of completed sessions fits a `u32`, the total
/// focus time fits a `Duration`, today is a date chrono represents whose
/// week starts within that range, and the streak stops within it.
pub open spec fn summarizable(rs: Seq<Record>, today: int) -> bool {
    &&& forall|j: int| 0 <= j < rs.len() ==> (#[trigger] rs[j]).at.wf()
    &&& count(rs, sessions()) <= u32::MAX
    &&& elapsed_secs(rs, focus()) <= u64::MAX
    &&& today <= MAX_DAY
    &&& week_start(today) >= MIN_DAY
    &&& streak_stops_in_range(rs, today)
}

/// The recent list of `rs`: the last ten records, newest first.
pub open spec fn recent_of(rs: Seq<Record>) -> Seq<Record> {
    let n = if rs.len() < RECENT_LEN {
        rs.len() as int
    } else {
        RECENT_LEN as int
    };
    Seq::new(n as nat, |i: int| rs[rs.len() - 1 - i])
}

impl Summary {
    /// `self` is the summary of `rs` as seen on `today`.
    pub open spec fn summarizes(self, rs: Seq<Record>, today: int) -> bool {
        &&& self.today_sessions == count(rs, sessions_on(today))
        &&& self.today_focus == NANOS_PER_SEC * elapsed_secs(rs, focus_on(today))
        &&& self.week_sessions == count(rs, sessions_in_week(today))
        &&& self.week_focus == NANOS_PER_SEC * elapsed_secs(rs, focus_in_week(today))
        &&& self.lifetime_sessions == count(rs, sessions())
        &&& self.lifetime_focus == NANOS_PER_SEC * elapsed_secs(rs, focus())
        &&& is_run_back_from(session_days(rs), streak_start(rs, today), self.streak_days as int)
        &&& self.recent@ == recent_of(rs)
    }

    /// Whether `compute` may take `records` and `today` (see
    /// `summarizable`).
    pub fn can_compute(records: &[Record], today: i32) -> (ok: bool)
        ensures
            ok == summarizable(records@, today as int),
    {
        let ghost rs = records@;
        let ghost t = today as int;
        if !(MIN_DAY <= today && today <= MAX_DAY) {
            return false;
        }
        // Days since the last Monday, counted from a Monday before chrono's
        // earliest date so that the count is non-negative.
        let shifted = (today as i64 - 1 + 140_000_000) as u64;
        let weekday = (shifted % 7) as i64;
        assert(weekday == (t - 1) % 7) by (nonlinear_arith)
            requires
                shifted == t - 1 + 140_000_000,
                weekday == shifted % 7,
        ;
        if today as i64 - weekday < MIN_DAY as i64 {
            return false;
        }
        let mut total: u128 = 0;
        let mut sessions_seen: u64 = 0;
        let mut days: HashSet<i32> = HashSet::new();
        assert(days@ =~= session_days(rs.take(0)));
        let mut i: usize = 0;
        while i < records.len()
            invariant
                rs == records@,
                i <= rs.len(),
                total == elapsed_secs(rs.take(i as int), focus()),
                total <= u64::MAX,
                sessions_seen == count(rs.take(i as int), sessions()),
                sessions_seen <= u32::MAX,
                forall|j: int| 0 <= j < i ==> (#[trigger] rs[j]).at.wf(),
                days@ == session_days(rs.take(i as int)),
            decreases rs.len() - i,
        {
            proof {
                lemma_take_step(rs, i as int);
            }
            let r = records[i];
            if !r.at.is_valid() {
                return false;
            }
            proof {
                lemma_session_days_step(rs, i as int);
            }
            if r.phase == Phase::Work && r.completed {
                sessions_seen = sessions_seen + 1;
                if sessions_seen > u32::MAX as u64 {
                    proof {
                        lemma_count_prefix_le(rs, i as int + 1, sessions());
                    }
                    return false;
                }
                days.insert(local_day_of(&r.at));
            }
            if r.phase == Phase::Work {
                total = total + r.actual_secs as u128;
                if total > u64::MAX as u128 {
                    proof {
                        lemma_elapsed_prefix_le(rs, i as int + 1, focus());
                    }
                    return false;
                }
            }
            i = i + 1;
        }
        assert(rs.take(i as int) =~= rs);
        // Walk the streak back as `compute` does, watching for chrono's
        // earliest date.
        let start = if days.contains(&today) {
            today
        } else {
            if today == MIN_DAY {
                assert(streak_start(rs, t) == t - 1);
                assert(!streak_stops_in_range(rs, t));
                return false;
            }
            today - 1
        };
        let mut day = start;
        while days.contains(&day)
            invariant
                rs == records@,
                t == today,
                forall|j: int| 0 <= j < rs.len() ==> (#[trigger] rs[j]).at.wf(),
                count(rs, sessions()) <= u32::MAX,
                elapsed_secs(rs, focus()) <= u64::MAX,
                t <= MAX_DAY,
                week_start(t) >= MIN_DAY,
                days@ == session_days(rs),
                start == streak_start(rs, t),
                MIN_DAY <= day <= start,
                forall|d: i32| day < d <= start ==> #[trigger] days@.contains(d),
            decreases day - MIN_DAY,
        {
            if day == MIN_DAY {
                assert forall|d: i32| MIN_DAY <= d <= start implies #[trigger] session_days(
                    rs,
                ).contains(d) by {
                    if d > day {
                        assert(days@.contains(d));
                    }
                }
                return false;
            }
            day = day - 1;
        }
        assert(!session_days(rs).contains(day));
        true
    }

    /// Folds `records` into today/week/streak/lifetime statistics as seen on
    /// the day numbered `today`.
    pub fn compute(records: &[Record], today: i32) -> (s: Self)
        requires
            summarizable(records@, today as int),
        ensures
            s.summarizes(records@, today as int),
            s.renderable(),
    {
        let ghost rs = records@;
        let ghost t = today as int;
        let n = records.len();
        let week_monday = monday_of_week(today);

        let mut recent: Vec<Record> = Vec::new();
        let mut k: usize = 0;
        while k < RECENT_LEN && k < n
            invariant
                n == rs.len(),
                rs == records@,
                k <= RECENT_LEN,
                k <= n,
                recent@ == Seq::new(k as nat, |i: int| rs[rs.len() - 1 - i]),
            decreases n - k,
        {
            recent.push(records[n - 1 - k]);
            k = k + 1;
            assert(recent@ =~= Seq::new(k as nat, |i: int| rs[rs.len() - 1 - i]));
        }
        assert(recent@ =~= recent_of(rs));

        let mut today_sessions: u32 = 0;
        let mut today_focus: u128 = 0;
        let mut week_sessions: u32 = 0;
        let mut week_focus: u128 = 0;
        let mut lifetime_sessions: u32 = 0;
        let mut lifetime_focus: u128 = 0;
        let mut days: HashSet<i32> = HashSet::new();
        assert(days@ =~= session_days(rs.take(0)));

        let mut i: usize = 0;
        while i < n
            invariant
                n == rs.len(),
                rs == records@,
                summarizable(rs, t),
                t == today,
                week_monday == week_start(t),
                i <= n,
                today_sessions == count(rs.take(i as int), sessions_on(t)),
                today_focus == NANOS_PER_SEC * elapsed_secs(rs.take(i as int), focus_on(t)),
                week_sessions == count(rs.take(i as int), sessions_in_week(t)),
                week_focus == NANOS_PER_SEC * elapsed_secs(rs.take(i as int), focus_in_week(t)),
                lifetime_sessions == count(rs.take(i as int), sessions()),
                lifetime_focus == NANOS_PER_SEC * elapsed_secs(rs.take(i as int), focus()),
                days@ == session_days(rs.take(i as int)),
            decreases n - i,
        {
            let r = records[i];
            proof {
                lemma_take_step(rs, i as int);
                lemma_count_prefix_le(rs, i as int + 1, sessions());
                lemma_count_le(rs.take(i as int + 1), sessions_on(t), sessions());
                lemma_count_le(rs.take(i as int + 1), sessions_in_week(t), sessions());
                lemma_elapsed_prefix_le(rs, i as int + 1, focus());
                lemma_elapsed_le(rs.take(i as int + 1), focus_on(t), focus());
                lemma_elapsed_le(rs.take(i as int + 1), focus_in_week(t), focus());
                lemma_session_days_step(rs, i as int);
                assert(rs[i as int].at.wf());
            }
            if r.phase == Phase::Work {
                let date = local_day_of(&r.at);
                let elapsed: u128 = (r.actual_secs as u128) * NANOS_PER_SEC;
                let in_week = week_monday <= date && date <= today;
                lifetime_focus = lifetime_focus + elapsed;
                if date == today {
                    today_focus = today_focus + elapsed;
                }
                if in_week {
                    week_focus = week_focus + elapsed;
                }
                if r.completed {
                    lifetime_sessions = lifetime_sessions + 1;
                    days.insert(date);
                    if date == today {
                        today_sessions = today_sessions + 1;
                    }
                    if in_week {
                        week_sessions = week_sessions + 1;
                    }
                }
            }
            i = i + 1;
        }
        assert(rs.take(n as int) =~= rs);

        let ghost gap = choose|d: i32|
            MIN_DAY <= d <= streak_start(rs, t) && !#[trigger] session_days(rs).contains(d);
        let start = if days.contains(&today) {
            today
        } else {
            day_before(today)
        };
        let mut day = start;
        let mut streak_days: u32 = 0;
        while days.contains(&day)
            invariant
                days@ == session_days(rs),
                start == streak_start(rs, t),
                start <= MAX_DAY,
                MIN_DAY <= gap <= day <= start,
                !session_days(rs).contains(gap),
                streak_days == start - day,
                forall|d: i32| day < d <= start ==> #[trigger] days@.contains(d),
            decreases day - gap,
        {
            day = day_before(day);
            streak_days = streak_days + 1;
        }

        proof {
            lemma_elapsed_le(rs, focus_on(t), focus());
            lemma_elapsed_le(rs, focus_in_week(t), focus());
            assert forall|j: int| 0 <= j < recent@.len() implies (#[trigger] recent@[j]).at.wf() by {
                assert(rs[rs.len() - 1 - j].at.wf());
            }
        }
        Summary {
            today_sessions,
            today_focus,
            week_sessions,
            week_focus,
            streak_days,
            lifetime_sessions,
            lifetime_focus,
            recent,
        }
    }
}

/// Extending a prefix of `rs` by one record extends the fold by that record.
proof fn lemma_take_step(rs: Seq<Record>, i: int)
    requires
        0 <= i < rs.len(),
    ensures
        rs.take(i + 1).drop_last() == rs.take(i),
        rs.take(i + 1).last() == rs[i],
        forall|p: spec_fn(Record) -> bool|
            #![trigger count(rs.take(i + 1), p)]
            count(rs.take(i + 1), p) == count(rs.take(i), p) + if p(rs[i]) {
                1nat
            } else {
                0nat
            },
        forall|p: spec_fn(Record) -> bool|
            #![trigger elapsed_secs(rs.take(i + 1), p)]
            elapsed_secs(rs.take(i + 1), p) == elapsed_secs(rs.take(i), p) + if p(rs[i]) {
                rs[i].actual_secs as nat
            } else {
                0nat
            },
{
    assert(rs.take(i + 1).drop_last() =~= rs.take(i));
}

/// A prefix counts no more than the whole.
proof fn lemma_count_prefix_le(rs: Seq<Record>, i: int, p: spec_fn(Record) -> bool)
    requires
        0 <= i <= rs.len(),
    ensures
        count(rs.take(i), p) <= count(rs, p),
    decreases rs.len() - i,
{
    if i < rs.len() {
        lemma_take_step(rs, i);
        lemma_count_prefix_le(rs, i + 1, p);
    } else {
        assert(rs.take(i) =~= rs);
    }
}

/// A weaker filter sums at least as much.
pub proof fn lemma_elapsed_le(rs: Seq<Record>, p: spec_fn(Record) -> bool, q: spec_fn(Record) -> bool)
    requires
        forall|r: Record| #[trigger] p(r) ==> q(r),
    ensures
        elapsed_secs(rs, p) <= elapsed_secs(rs, q),
    decreases rs.len(),
{
    if rs.len() > 0 {
        lemma_elapsed_le(rs.drop_last(), p, q);
    }
}

/// A weaker filter counts at least as many records.
pub proof fn lemma_count_le(rs: Seq<Record>, p: spec_fn(Record) -> bool, q: spec_fn(Record) -> bool)
    requires
        forall|r: Record| #[trigger] p(r) ==> q(r),
    ensures
        count(rs, p) <= count(rs, q),
    decreases rs.len(),
{
    if rs.len() > 0 {
        lemma_count_le(rs.drop_last(), p, q);
    }
}

/// A prefix sums no more than the whole.
proof fn lemma_elapsed_prefix_le(rs: Seq<Record>, i: int, p: spec_fn(Record) -> bool)
    requires
        0 <= i <= rs.len(),
    ensures
        elapsed_secs(rs.take(i), p) <= elapsed_secs(rs, p),
    decreases rs.len() - i,
{
    if i < rs.len() {
        lemma_take_step(rs, i);
        lemma_elapsed_prefix_le(rs, i + 1, p);
    } else {
        assert(rs.take(i) =~= rs);
    }
}

proof fn lemma_session_days_step(rs: Seq<Record>, i: int)
    requires
        0 <= i < rs.len(),
        rs[i].at.wf(),
    ensures
        is_session(rs[i]) ==> session_days(rs.take(i + 1)) == session_days(rs.take(i)).insert(
            local_day(rs[i].at) as i32,
        ),
        !is_session(rs[i]) ==> session_days(rs.take(i + 1)) == session_days(rs.take(i)),
{
    let prev = rs.take(i);
    let next = rs.take(i + 1);
    lemma_local_day_in_range(rs[i].at);
    if is_session(rs[i]) {
        let d = local_day(rs[i].at) as i32;
        assert forall|x: i32| #[trigger] session_days(next).contains(x) <==> session_days(
            prev,
        ).insert(d).contains(x) by {
            if session_days(next).contains(x) {
                let j = choose|j: int|
                    0 <= j < next.len() && is_session(next[j]) && on_day(next[j], x as int);
                if j < i {
                    assert(prev[j] == next[j]);
                }
            }
            if session_days(prev).contains(x) {
                let j = choose|j: int|
                    0 <= j < prev.len() && is_session(prev[j]) && on_day(prev[j], x as int);
                assert(next[j] == prev[j]);
            }
            if x == d {
                assert(next[i] == rs[i]);
            }
        }
        assert(session_days(next) =~= session_days(prev).insert(d));
    } else {
        assert forall|x: i32| #[trigger] session_days(next).contains(x) <==> session_days(
            prev,
        ).contains(x) by {
            if session_days(next).contains(x) {
                let j = choose|j: int|
                    0 <= j < next.len() && is_session(next[j]) && on_day(next[j], x as int);
                assert(j != i);
                assert(prev[j] == next[j]);
            }
            if session_days(prev).contains(x) {
                let j = choose|j: int|
                    0 <= j < prev.len() && is_session(prev[j]) && on_day(prev[j], x as int);
                assert(next[j] == prev[j]);
            }
        }
        assert(session_days(next) =~= session_days(prev));
    }
}

proof fn lemma_session_day_in_range(rs: Seq<Record>, d: i32)
    requires
        forall|j: int| 0 <= j < rs.len() ==> (#[trigger] rs[j]).at.wf(),
        session_days(rs).contains(d),
    ensures
        day_in_range(d as int),
{
    let j = choose|j: int| 0 <= j < rs.len() && is_session(rs[j]) && on_day(rs[j], d as int);
    assert(rs[j].at.wf());
    lemma_local_day_in_range(rs[j].at);
}

/// The length of a run of consecutive days is determined by the days and
/// where it starts.
pub proof fn lemma_run_length_unique(days: Set<i32>, start: int, a: int, b: int)
    requires
        MIN_DAY <= start <= MAX_DAY,
        0 <= a <= start - MIN_DAY,
        0 <= b <= start - MIN_DAY,
        is_run_back_from(days, start, a),
        is_run_back_from(days, start, b),
    ensures
        a == b,
{
    if a < b {
        assert(days.contains((start - a) as i32));
    } else if b < a {
        assert(days.contains((start - b) as i32));
    }
}

/// Today is part of this week, and this week part of the lifetime: the
/// session counts and focus times never decrease from today to the week to
/// the lifetime.
pub proof fn lemma_today_within_week_within_lifetime(s: Summary, rs: Seq<Record>, today: int)
    requires
        s.summarizes(rs, today),
    ensures
        s.today_sessions <= s.week_sessions <= s.lifetime_sessions,
        s.today_focus <= s.week_focus <= s.lifetime_focus,
{
    assert(week_start(today) <= today);
    lemma_count_le(rs, sessions_on(today), sessions_in_week(today));
    lemma_count_le(rs, sessions_in_week(today), sessions());
    lemma_elapsed_le(rs, focus_on(today), focus_in_week(today));
    lemma_elapsed_le(rs, focus_in_week(today), focus());
}

/// Count and sum over a history with one more record.
proof fn lemma_push(rs: Seq<Record>, r: Record, p: spec_fn(Record) -> bool)
    ensures
        count(rs.push(r), p) == count(rs, p) + if p(r) {
            1nat
        } else {
            0nat
        },
        elapsed_secs(rs.push(r), p) == elapsed_secs(rs, p) + if p(r) {
            r.actual_secs as nat
        } else {
            0nat
        },
{
    assert(rs.push(r).drop_last() =~= rs);
}

/// A record that is no completed work session adds no session day.
proof fn lemma_push_session_days(rs: Seq<Record>, r: Record)
    requires
        !is_session(r),
    ensures
        session_days(rs.push(r)) == session_days(rs),
{
    let next = rs.push(r);
    assert forall|x: i32| #[trigger] session_days(next).contains(x) <==> session_days(
        rs,
    ).contains(x) by {
        if session_days(next).contains(x) {
            let j = choose|j: int|
                0 <= j < next.len() && is_session(next[j]) && on_day(next[j], x as int);
            assert(j < rs.len());
            assert(rs[j] == next[j]);
        }
        if session_days(rs).contains(x) {
            let j = choose|j: int| 0 <= j < rs.len() && is_session(rs[j]) && on_day(rs[j], x as int);
            assert(next[j] == rs[j]);
        }
    }
    assert(session_days(next) =~= session_days(rs));
}

/// Breaks never count: logging a break leaves every count, focus time and
/// the streak as they were.
pub proof fn lemma_breaks_never_count(
    before: Summary,
    after: Summary,
    rs: Seq<Record>,
    r: Record,
    today: int,
)
    requires
        r.phase != Phase::Work,
        r.at.wf(),
        summarizable(rs, today),
        before.summarizes(rs, today),
        after.summarizes(rs.push(r), today),
    ensures
        after.today_sessions == before.today_sessions,
        after.today_focus == before.today_focus,
        after.week_sessions == before.week_sessions,
        after.week_focus == before.week_focus,
        after.lifetime_sessions == before.lifetime_sessions,
        after.lifetime_focus == before.lifetime_focus,
        after.streak_days == before.streak_days,
{
    lemma_push(rs, r, sessions_on(today));
    lemma_push(rs, r, focus_on(today));
    lemma_push(rs, r, sessions_in_week(today));
    lemma_push(rs, r, focus_in_week(today));
    lemma_push(rs, r, sessions());
    lemma_push(rs, r, focus());
    lemma_push_session_days(rs, r);
    assert(summarizable(rs.push(r), today)) by {
        assert forall|j: int| 0 <= j < rs.push(r).len() implies (#[trigger] rs.push(
            r,
        )[j]).at.wf() by {
            if j < rs.len() {
                assert(rs.push(r)[j] == rs[j]);
            }
        }
        let gap = choose|d: i32|
            MIN_DAY <= d <= streak_start(rs, today) && !#[trigger] session_days(rs).contains(d);
        assert(!session_days(rs.push(r)).contains(gap));
    }
    lemma_streak_bounded(before, rs, today);
    lemma_streak_bounded(after, rs.push(r), today);
    lemma_run_length_unique(
        session_days(rs),
        streak_start(rs, today),
        before.streak_days as int,
        after.streak_days as int,
    );
}

/// A skipped work session credits its focus time but is no session: the
/// session counts and the streak stay, the lifetime focus grows by the time
/// spent.
pub proof fn lemma_skips_credit_focus_only(
    before: Summary,
    after: Summary,
    rs: Seq<Record>,
    r: Record,
    today: int,
)
    requires
        r.phase == Phase::Work,
        !r.completed,
        summarizable(rs, today),
        summarizable(rs.push(r), today),
        before.summarizes(rs, today),
        after.summarizes(rs.push(r), today),
    ensures
        after.today_sessions == before.today_sessions,
        after.week_sessions == before.week_sessions,
        after.lifetime_sessions == before.lifetime_sessions,
        after.lifetime_focus == before.lifetime_focus + NANOS_PER_SEC * r.actual_secs,
        after.streak_days == before.streak_days,
{
    lemma_push(rs, r, sessions_on(today));
    lemma_push(rs, r, sessions_in_week(today));
    lemma_push(rs, r, sessions());
    lemma_push(rs, r, focus());
    lemma_push_session_days(rs, r);
    lemma_streak_bounded(before, rs, today);
    lemma_streak_bounded(after, rs.push(r), today);
    lemma_run_length_unique(
        session_days(rs),
        streak_start(rs, today),
        before.streak_days as int,
        after.streak_days as int,
    );
}

/// A streak starts on a date chrono represents and never reaches back to
/// its earliest date.
proof fn lemma_streak_bounded(s: Summary, rs: Seq<Record>, today: int)
    requires
        summarizable(rs, today),
        s.summarizes(rs, today),
    ensures
        MIN_DAY <= streak_start(rs, today) <= MAX_DAY,
        s.streak_days <= streak_start(rs, today) - MIN_DAY,
{
    let start = streak_start(rs, today);
    let gap = choose|d: i32| MIN_DAY <= d <= start && !#[trigger] session_days(rs).contains(d);
    assert(week_start(today) <= today);
    if s.streak_days > start - gap {
        assert(start - s.streak_days < gap <= start);
        assert(session_days(rs).contains(gap));
    }
}

/// Removing the record at `k` takes exactly its share out of every count
/// and sum.
proof fn lemma_remove(rs: Seq<Record>, k: int, p: spec_fn(Record) -> bool)
    requires
        0 <= k < rs.len(),
    ensures
        count(rs, p) == count(rs.remove(k), p) + if p(rs[k]) {
            1nat
        } else {
            0nat
        },
        elapsed_secs(rs, p) == elapsed_secs(rs.remove(k), p) + if p(rs[k]) {
            rs[k].actual_secs as nat
        } else {
            0nat
        },
    decreases rs.len(),
{
    if k == rs.len() - 1 {
        assert(rs.remove(k) =~= rs.drop_last());
    } else {
        assert(rs.remove(k).drop_last() =~= rs.drop_last().remove(k));
        assert(rs.remove(k).last() == rs.last());
        lemma_remove(rs.drop_last(), k, p);
    }
}

/// Counts and sums depend only on which records the history holds, not on
/// their order.
proof fn lemma_folds_ignore_order(rs1: Seq<Record>, rs2: Seq<Record>, p: spec_fn(Record) -> bool)
    requires
        rs1.to_multiset() == rs2.to_multiset(),
    ensures
        count(rs1, p) == count(rs2, p),
        elapsed_secs(rs1, p) == elapsed_secs(rs2, p),
    decreases rs1.len(),
{
    broadcast use vstd::seq_lib::group_to_multiset_ensures;

    if rs1.len() == 0 {
        assert(rs1.to_multiset().len() == 0);
        assert(rs2.to_multiset().len() == rs2.len());
    } else {
        let x = rs1.last();
        assert(rs1.contains(x));
        assert(rs2.to_multiset().count(x) > 0);
        assert(rs2.contains(x));
        let k = choose|k: int| 0 <= k < rs2.len() && rs2[k] == x;
        let last = rs1.len() - 1;
        assert(rs1.remove(last) =~= rs1.drop_last());
        assert(rs1.remove(last).to_multiset() =~= rs1.to_multiset().remove(rs1[last]));
        assert(rs2.remove(k).to_multiset() =~= rs2.to_multiset().remove(rs2[k]));
        lemma_folds_ignore_order(rs1.drop_last(), rs2.remove(k), p);
        lemma_remove(rs2, k, p);
    }
}

/// Two histories with the same records have the same session days.
proof fn lemma_session_days_ignore_order(rs1: Seq<Record>, rs2: Seq<Record>)
    requires
        rs1.to_multiset() == rs2.to_multiset(),
    ensures
        session_days(rs1) == session_days(rs2),
{
    broadcast use vstd::seq_lib::group_to_multiset_ensures;

    assert forall|x: i32| #[trigger] session_days(rs1).contains(x) <==> session_days(
        rs2,
    ).contains(x) by {
        if session_days(rs1).contains(x) {
            let j = choose|j: int|
                0 <= j < rs1.len() && is_session(rs1[j]) && on_day(rs1[j], x as int);
            assert(rs1.contains(rs1[j]));
            assert(rs2.to_multiset().count(rs1[j]) > 0);
            assert(rs2.contains(rs1[j]));
        }
        if session_days(rs2).contains(x) {
            let j = choose|j: int|
                0 <= j < rs2.len() && is_session(rs2[j]) && on_day(rs2[j], x as int);
            assert(rs2.contains(rs2[j]));
            assert(rs1.to_multiset().count(rs2[j]) > 0);
            assert(rs1.contains(rs2[j]));
        }
    }
    assert(session_days(rs1) =~= session_days(rs2));
}

/// The summary, apart from the recent list, does not depend on the order of
/// the records: two histories with the same records, in any order, give the
/// same counts, focus times and streak.
pub proof fn lemma_summary_ignores_order(
    s1: Summary,
    s2: Summary,
    rs1: Seq<Record>,
    rs2: Seq<Record>,
    today: int,
)
    requires
        rs1.to_multiset() == rs2.to_multiset(),
        summarizable(rs1, today),
        s1.summarizes(rs1, today),
        s2.summarizes(rs2, today),
    ensures
        s1.today_sessions == s2.today_sessions,
        s1.today_focus == s2.today_focus,
        s1.week_sessions == s2.week_sessions,
        s1.week_focus == s2.week_focus,
        s1.lifetime_sessions == s2.lifetime_sessions,
        s1.lifetime_focus == s2.lifetime_focus,
        s1.streak_days == s2.streak_days,
{
    lemma_folds_ignore_order(rs1, rs2, sessions_on(today));
    lemma_folds_ignore_order(rs1, rs2, focus_on(today));
    lemma_folds_ignore_order(rs1, rs2, sessions_in_week(today));
    lemma_folds_ignore_order(rs1, rs2, focus_in_week(today));
    lemma_folds_ignore_order(rs1, rs2, sessions());
    lemma_folds_ignore_order(rs1, rs2, focus());
    lemma_session_days_ignore_order(rs1, rs2);
    assert(summarizable(rs2, today)) by {
        broadcast use vstd::seq_lib::group_to_multiset_ensures;

        assert forall|j: int| 0 <= j < rs2.len() implies (#[trigger] rs2[j]).at.wf() by {
            assert(rs2.contains(rs2[j]));
            assert(rs1.to_multiset().count(rs2[j]) > 0);
            assert(rs1.contains(rs2[j]));
        }
        assert(streak_start(rs1, today) == streak_start(rs2, today));
        let gap = choose|d: i32|
            MIN_DAY <= d <= streak_start(rs1, today) && !#[trigger] session_days(rs1).contains(d);
        assert(!session_days(rs2).contains(gap));
    }
    lemma_streak_bounded(s1, rs1, today);
    lemma_streak_bounded(s2, rs2, today);
    lemma_run_length_unique(
        session_days(rs1),
        streak_start(rs1, today),
        s1.streak_days as int,
        s2.streak_days as int,
    );
}


/// The recent list puts the newest record first: logging a record puts it at
/// the head of the list and moves the earlier ones down by one, the oldest
/// falling off once ten are shown.
pub proof fn lemma_newest_record_leads_recent(rs: Seq<Record>, r: Record)
    ensures
        recent_of(rs.push(r)).len() > 0,
        recent_of(rs.push(r))[0] == r,
        recent_of(rs.push(r)).len() == if rs.len() < RECENT_LEN {
            rs.len() + 1int
        } else {
            RECENT_LEN as int
        },
        forall|i: int|
            0 <= i < recent_of(rs.push(r)).len() - 1 ==> #[trigger] recent_of(rs.push(r))[i + 1]
                == recent_of(rs)[i],
{
}
} // verus!
