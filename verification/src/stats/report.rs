//! Text renderings of the statistics, shared by the command line and the
//! terminal interface.
use vstd::prelude::*;

use std::time::Duration;

use crate::config::NANOS_PER_SEC;
use crate::stats::calendar::{format_weekday_time, weekday_time_text};
use crate::stats::{Record, Summary};
use crate::text::{
    decimal, pad_left, pad_right, push_decimal, push_padded_left, push_padded_right,
};

verus! {

/// One part of a humantime duration: the count and its unit, with an "s"
/// after a unit that takes a plural when the count is more than one.
pub open spec fn unit_text(count: nat, unit: Seq<char>, plural: bool) -> Seq<char> {
    decimal(count) + unit + if plural && count > 1 {
        "s"@
    } else {
        Seq::empty()
    }
}

/// The parts of `parts` whose count is not zero, in order, separated by
/// single spaces.
pub open spec fn join_parts(parts: Seq<(nat, Seq<char>, bool)>) -> Seq<char>
    decreases parts.len(),
{
    if parts.len() == 0 {
        Seq::empty()
    } else {
        let before = join_parts(parts.drop_last());
        let (count, unit, plural) = parts.last();
        if count == 0 {
            before
        } else if before.len() == 0 {
            unit_text(count, unit, plural)
        } else {
            before + " "@ + unit_text(count, unit, plural)
        }
    }
}

/// What humantime's `format_duration` prints for the duration of `secs`
/// seconds and `nanos` nanoseconds: "0s" for nothing; else years of
/// 365.25 days, months of 30.44 days, days, hours, minutes, seconds,
/// milliseconds, microseconds and nanoseconds, each only when not zero.
pub open spec fn humantime_text(secs: u64, nanos: u32) -> Seq<char> {
    if secs == 0 && nanos == 0 {
        "0s"@
    } else {
        let ydays = secs % 31_557_600;
        let mdays = ydays % 2_630_016;
        let day_secs = mdays % 86_400;
        join_parts(
            seq![
                ((secs / 31_557_600) as nat, "year"@, true),
                ((ydays / 2_630_016) as nat, "month"@, true),
                ((mdays / 86_400) as nat, "day"@, true),
                ((day_secs / 3600) as nat, "h"@, false),
                ((day_secs % 3600 / 60) as nat, "m"@, false),
                ((day_secs % 60) as nat, "s"@, false),
                ((nanos / 1_000_000) as nat, "ms"@, false),
                ((nanos / 1000 % 1000) as nat, "us"@, false),
                ((nanos % 1000) as nat, "ns"@, false),
            ],
        )
    }
}

/// humantime's `format_duration` of `Duration::new(secs, nanos)`, as a
/// `String`. Claimed: the text is `humantime_text(secs, nanos)`, which
/// restates humantime's `Display` for `FormattedDuration`; with `nanos`
/// under a second the duration is built without carrying into the seconds,
/// so it cannot overflow.
#[verifier::external_body]
fn format_duration_text(secs: u64, nanos: u32) -> (s: String)
    requires
        nanos < 1_000_000_000,
    ensures
        s@ == humantime_text(secs, nanos),
{
    humantime::format_duration(Duration::new(secs, nanos)).to_string()
}

/// humantime's rendering of a duration of `nanos` nanoseconds.
pub open spec fn duration_text(nanos: u128) -> Seq<char> {
    humantime_text((nanos / NANOS_PER_SEC) as u64, (nanos % NANOS_PER_SEC) as u32)
}

/// A duration of `nanos` nanoseconds as humantime writes it: "25m",
/// "1h 30m", "2s 500ms".
pub fn fmt_duration(nanos: u128) -> (s: String)
    requires
        fits_duration(nanos),
    ensures
        s@ == duration_text(nanos),
{
    format_duration_text((nanos / NANOS_PER_SEC) as u64, (nanos % NANOS_PER_SEC) as u32)
}

/// Human duration for stat lines: whole minutes once >= 1m, seconds below.
pub open spec fn focus_text(nanos: u128) -> Seq<char> {
    let secs = nanos / NANOS_PER_SEC;
    if secs / 60 == 0 {
        decimal(secs as nat) + "s"@
    } else {
        humantime_text((secs / 60 * 60) as u64, 0)
    }
}

/// A nanosecond count that a `Duration` can hold.
pub open spec fn fits_duration(nanos: u128) -> bool {
    nanos / NANOS_PER_SEC <= u64::MAX
}

/// Whether a nanosecond count fits a `Duration`.
pub fn duration_fits(nanos: u128) -> (ok: bool)
    ensures
        ok == fits_duration(nanos),
{
    nanos / NANOS_PER_SEC <= u64::MAX as u128
}

/// Human duration for stat lines: whole minutes once >= 1m, seconds below.
pub fn fmt_focus(d: u128) -> (s: String)
    requires
        fits_duration(d),
    ensures
        s@ == focus_text(d),
{
    let secs = (d / NANOS_PER_SEC) as u64;
    let mins = secs / 60;
    if mins == 0 {
        let mut s = String::new();
        push_decimal(&mut s, secs);
        s.append("s");
        return s;
    }
    format_duration_text(mins * 60, 0)
}

/// The completion mark of a record: a check for a natural finish, a cross
/// for a skip.
pub open spec fn mark_text(completed: bool) -> Seq<char> {
    if completed {
        "\u{2713}"@
    } else {
        "\u{2a2f}"@
    }
}

/// One line of the recent-history list: when it ended, the phase, the time
/// spent and whether it finished.
pub open spec fn recent_line_text(r: Record) -> Seq<char> {
    weekday_time_text(r.at) + "  "@ + pad_right(r.phase.spec_label(), 11) + " "@ + pad_left(
        focus_text((r.actual_secs as u128 * NANOS_PER_SEC) as u128),
        7,
    ) + "  "@ + mark_text(r.completed)
}

/// One line of the recent-history list, shared by CLI and TUI.
pub fn recent_line(r: &Record) -> (s: String)
    requires
        r.at.wf(),
    ensures
        s@ == recent_line_text(*r),
{
    let mut s = format_weekday_time(&r.at);
    s.append("  ");
    push_padded_right(&mut s, r.phase.label(), 11);
    s.append(" ");
    let focus = fmt_focus((r.actual_secs as u128) * NANOS_PER_SEC);
    push_padded_left(&mut s, focus.as_str(), 7);
    s.append("  ");
    if r.completed {
        s.append("\u{2713}");
    } else {
        s.append("\u{2a2f}");
    }
    s
}

/// The recent-history lines of `rs`, each indented by two spaces.
pub open spec fn recent_lines_text(rs: Seq<Record>) -> Seq<char>
    decreases rs.len(),
{
    if rs.len() == 0 {
        Seq::empty()
    } else {
        recent_lines_text(rs.drop_last()) + "  "@ + recent_line_text(rs.last()) + "\n"@
    }
}

/// What the plain-text summary says when there is no history.
pub open spec fn no_history_text() -> Seq<char> {
    "No sessions yet \u{2014} run focus-fox and finish one. \u{1f98a}\n"@
}

/// One stat line: a label padded to ten columns, the session count and the
/// focus time.
pub open spec fn stat_line_text(label: Seq<char>, sessions: u32, focus: u128) -> Seq<char> {
    label + decimal(sessions as nat) + " sessions \u{b7} "@ + focus_text(focus) + "\n"@
}

/// The plain-text summary printed by `focus-fox stats`.
pub open spec fn summary_text(s: Summary) -> Seq<char> {
    if s.recent@.len() == 0 {
        no_history_text()
    } else {
        stat_line_text("Today      "@, s.today_sessions, s.today_focus) + stat_line_text(
            "This week  "@,
            s.week_sessions,
            s.week_focus,
        ) + "Streak     "@ + decimal(s.streak_days as nat) + " days\n"@ + stat_line_text(
            "Lifetime   "@,
            s.lifetime_sessions,
            s.lifetime_focus,
        ) + "\nRecent:\n"@ + recent_lines_text(s.recent@)
    }
}

impl Summary {
    /// The summary can be rendered: its focus times fit a `Duration` and its
    /// recent records are in range.
    pub open spec fn renderable(self) -> bool {
        &&& fits_duration(self.today_focus)
        &&& fits_duration(self.week_focus)
        &&& fits_duration(self.lifetime_focus)
        &&& forall|j: int| 0 <= j < self.recent@.len() ==> (#[trigger] self.recent@[j]).at.wf()
    }
}

/// A stat line of the stats panel: the label padded to ten columns, then the
/// session count and the focus time.
pub open spec fn panel_line_text(label: Seq<char>, sessions: u32, focus: u128) -> Seq<char> {
    pad_right(label, 10) + " "@ + decimal(sessions as nat) + " sessions \u{b7} "@ + focus_text(focus)
}

/// One stat line of the stats panel.
pub fn stat_line(label: &str, sessions: u32, focus: u128) -> (s: String)
    requires
        fits_duration(focus),
    ensures
        s@ == panel_line_text(label@, sessions, focus),
{
    let mut s = String::new();
    push_padded_right(&mut s, label, 10);
    s.append(" ");
    push_decimal(&mut s, sessions as u64);
    s.append(" sessions \u{b7} ");
    let f = fmt_focus(focus);
    s.append(f.as_str());
    assert(s@ =~= panel_line_text(label@, sessions, focus));
    s
}

fn push_stat_line(out: &mut String, label: &str, sessions: u32, focus: u128)
    requires
        fits_duration(focus),
    ensures
        final(out)@ == old(out)@ + stat_line_text(label@, sessions, focus),
{
    out.append(label);
    push_decimal(out, sessions as u64);
    out.append(" sessions \u{b7} ");
    let f = fmt_focus(focus);
    out.append(f.as_str());
    out.append("\n");
    assert(final(out)@ =~= old(out)@ + stat_line_text(label@, sessions, focus));
}

/// Plain-text summary for `focus-fox stats`.
pub fn render_text(s: &Summary) -> (text: String)
    requires
        s.renderable(),
    ensures
        text@ == summary_text(*s),
{
    if s.recent.len() == 0 {
        return String::from_str("No sessions yet \u{2014} run focus-fox and finish one. \u{1f98a}\n");
    }
    let mut out = String::new();
    push_stat_line(&mut out, "Today      ", s.today_sessions, s.today_focus);
    push_stat_line(&mut out, "This week  ", s.week_sessions, s.week_focus);
    out.append("Streak     ");
    push_decimal(&mut out, s.streak_days as u64);
    out.append(" days\n");
    push_stat_line(&mut out, "Lifetime   ", s.lifetime_sessions, s.lifetime_focus);
    out.append("\nRecent:\n");
    let ghost head = out@;
    let mut i: usize = 0;
    while i < s.recent.len()
        invariant
            i <= s.recent@.len(),
            s.renderable(),
            out@ == head + recent_lines_text(s.recent@.take(i as int)),
        decreases s.recent@.len() - i,
    {
        assert(s.recent@[i as int].at.wf());
        out.append("  ");
        let line = recent_line(&s.recent[i]);
        out.append(line.as_str());
        out.append("\n");
        assert(s.recent@.take(i + 1).drop_last() =~= s.recent@.take(i as int));
        i = i + 1;
    }
    assert(s.recent@.take(i as int) =~= s.recent@);
    out
}

/// The streak line of the stats panel.
pub open spec fn streak_line_text(days: u32) -> Seq<char> {
    pad_right("Streak"@, 10) + " "@ + decimal(days as nat) + " days"@
}

/// What the stats panel says when there is no history.
pub open spec fn empty_panel_text() -> Seq<char> {
    "No sessions yet \u{2014} finish one. \u{1f98a}"@
}

/// The lines of the stats panel: today, this week, the streak and the
/// lifetime, then after a blank line either the recent list under its
/// heading or a note that there is no history yet.
pub open spec fn panel_lines(s: Summary) -> Seq<Seq<char>> {
    let head = seq![
        panel_line_text("Today"@, s.today_sessions, s.today_focus),
        panel_line_text("This week"@, s.week_sessions, s.week_focus),
        streak_line_text(s.streak_days),
        panel_line_text("Lifetime"@, s.lifetime_sessions, s.lifetime_focus),
        Seq::<char>::empty(),
    ];
    if s.recent@.len() == 0 {
        head.push(empty_panel_text())
    } else {
        head.push("Recent"@) + s.recent@.map_values(|r: Record| recent_line_text(r))
    }
}

/// The text of the stats panel, line by line.
pub fn stats_panel_lines(s: &Summary) -> (lines: Vec<String>)
    requires
        s.renderable(),
    ensures
        lines@.len() == panel_lines(*s).len(),
        forall|j: int| 0 <= j < lines@.len() ==> (#[trigger] lines@[j])@ == panel_lines(*s)[j],
{
    let ghost want = panel_lines(*s);
    let mut lines: Vec<String> = Vec::new();
    lines.push(stat_line("Today", s.today_sessions, s.today_focus));
    lines.push(stat_line("This week", s.week_sessions, s.week_focus));
    let mut streak = String::new();
    push_padded_right(&mut streak, "Streak", 10);
    streak.append(" ");
    push_decimal(&mut streak, s.streak_days as u64);
    streak.append(" days");
    assert(streak@ =~= streak_line_text(s.streak_days));
    lines.push(streak);
    lines.push(stat_line("Lifetime", s.lifetime_sessions, s.lifetime_focus));
    lines.push(String::new());
    if s.recent.len() == 0 {
        lines.push(String::from_str("No sessions yet \u{2014} finish one. \u{1f98a}"));
        return lines;
    }
    lines.push(String::from_str("Recent"));
    let mut i: usize = 0;
    while i < s.recent.len()
        invariant
            i <= s.recent@.len(),
            s.recent@.len() > 0,
            s.renderable(),
            want == panel_lines(*s),
            want.len() == 6 + s.recent@.len(),
            lines@.len() == 6 + i,
            forall|j: int| 0 <= j < lines@.len() ==> (#[trigger] lines@[j])@ == want[j],
        decreases s.recent@.len() - i,
    {
        assert(s.recent@[i as int].at.wf());
        let line = recent_line(&s.recent[i]);
        lines.push(line);
        assert(want[6 + i] == recent_line_text(s.recent@[i as int]));
        i = i + 1;
    }
    lines
}


/// The plain-text summary of a history opens with four stat lines, each
/// tied to its own figures: today's count and focus, this week's, the
/// streak, then the lifetime's.
pub proof fn lemma_summary_text_lines(s: Summary)
    requires
        s.recent@.len() > 0,
    ensures
        ({
            let today = "Today      "@ + decimal(s.today_sessions as nat) + " sessions \u{b7} "@
                + focus_text(s.today_focus) + "\n"@;
            let week = "This week  "@ + decimal(s.week_sessions as nat) + " sessions \u{b7} "@
                + focus_text(s.week_focus) + "\n"@;
            let streak = "Streak     "@ + decimal(s.streak_days as nat) + " days\n"@;
            let lifetime = "Lifetime   "@ + decimal(s.lifetime_sessions as nat)
                + " sessions \u{b7} "@ + focus_text(s.lifetime_focus) + "\n"@;
            let head = today + week + streak + lifetime;
            summary_text(s).take(head.len() as int) == head
        }),
{
    let today = "Today      "@ + decimal(s.today_sessions as nat) + " sessions \u{b7} "@
        + focus_text(s.today_focus) + "\n"@;
    let week = "This week  "@ + decimal(s.week_sessions as nat) + " sessions \u{b7} "@
        + focus_text(s.week_focus) + "\n"@;
    let streak = "Streak     "@ + decimal(s.streak_days as nat) + " days\n"@;
    let lifetime = "Lifetime   "@ + decimal(s.lifetime_sessions as nat) + " sessions \u{b7} "@
        + focus_text(s.lifetime_focus) + "\n"@;
    let head = today + week + streak + lifetime;
    let rest = "\nRecent:\n"@ + recent_lines_text(s.recent@);
    assert(summary_text(s) =~= head + rest);
    assert((head + rest).take(head.len() as int) =~= head);
}

/// The stats panel opens with the same four figures, each on its own line:
/// today's count and focus, this week's, the streak, then the lifetime's,
/// each label padded to ten columns.
pub proof fn lemma_panel_lines_figures(s: Summary)
    ensures
        panel_lines(s)[0] == pad_right("Today"@, 10) + " "@ + decimal(s.today_sessions as nat)
            + " sessions \u{b7} "@ + focus_text(s.today_focus),
        panel_lines(s)[1] == pad_right("This week"@, 10) + " "@ + decimal(s.week_sessions as nat)
            + " sessions \u{b7} "@ + focus_text(s.week_focus),
        panel_lines(s)[2] == pad_right("Streak"@, 10) + " "@ + decimal(s.streak_days as nat)
            + " days"@,
        panel_lines(s)[3] == pad_right("Lifetime"@, 10) + " "@ + decimal(
            s.lifetime_sessions as nat,
        ) + " sessions \u{b7} "@ + focus_text(s.lifetime_focus),
{
}

} // verus!
