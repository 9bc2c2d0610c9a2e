//! The text the terminal interface draws, computed from plain values.
use vstd::prelude::*;

use crate::config::Config;
use crate::stats::report::{duration_fits, duration_text, fits_duration, fmt_duration};
use crate::text::{
    decimal, pad_left, pad_right, push_char, push_decimal, push_padded_left, push_padded_right,
    push_two_digits, zero_pad,
};
use crate::timer::{Phase, Timer};
use crate::tui::app::{MENU_ITEMS, MENU_LEN};

verus! {

/// Number of rows of the big clock font.
pub const GLYPH_ROWS: usize = 5;

/// Index of the colon in the glyph table; digits take indexes 0 to 9.
pub const COLON_GLYPH: usize = 10;

/// The rows of glyph `g` of the 3x5 block-character font: the digits 0 to 9,
/// then the colon.
pub open spec fn glyph_rows(g: int) -> Seq<Seq<char>> {
    if g == 0 {
        seq!["\u{2588}\u{2588}\u{2588}"@, "\u{2588} \u{2588}"@, "\u{2588} \u{2588}"@, "\u{2588} \u{2588}"@, "\u{2588}\u{2588}\u{2588}"@]
    } else if g == 1 {
        seq!["  \u{2588}"@, "  \u{2588}"@, "  \u{2588}"@, "  \u{2588}"@, "  \u{2588}"@]
    } else if g == 2 {
        seq!["\u{2588}\u{2588}\u{2588}"@, "  \u{2588}"@, "\u{2588}\u{2588}\u{2588}"@, "\u{2588}  "@, "\u{2588}\u{2588}\u{2588}"@]
    } else if g == 3 {
        seq!["\u{2588}\u{2588}\u{2588}"@, "  \u{2588}"@, "\u{2588}\u{2588}\u{2588}"@, "  \u{2588}"@, "\u{2588}\u{2588}\u{2588}"@]
    } else if g == 4 {
        seq!["\u{2588} \u{2588}"@, "\u{2588} \u{2588}"@, "\u{2588}\u{2588}\u{2588}"@, "  \u{2588}"@, "  \u{2588}"@]
    } else if g == 5 {
        seq!["\u{2588}\u{2588}\u{2588}"@, "\u{2588}  "@, "\u{2588}\u{2588}\u{2588}"@, "  \u{2588}"@, "\u{2588}\u{2588}\u{2588}"@]
    } else if g == 6 {
        seq!["\u{2588}\u{2588}\u{2588}"@, "\u{2588}  "@, "\u{2588}\u{2588}\u{2588}"@, "\u{2588} \u{2588}"@, "\u{2588}\u{2588}\u{2588}"@]
    } else if g == 7 {
        seq!["\u{2588}\u{2588}\u{2588}"@, "  \u{2588}"@, "  \u{2588}"@, "  \u{2588}"@, "  \u{2588}"@]
    } else if g == 8 {
        seq!["\u{2588}\u{2588}\u{2588}"@, "\u{2588} \u{2588}"@, "\u{2588}\u{2588}\u{2588}"@, "\u{2588} \u{2588}"@, "\u{2588}\u{2588}\u{2588}"@]
    } else if g == 9 {
        seq!["\u{2588}\u{2588}\u{2588}"@, "\u{2588} \u{2588}"@, "\u{2588}\u{2588}\u{2588}"@, "  \u{2588}"@, "\u{2588}\u{2588}\u{2588}"@]
    } else {
        seq![" "@, "\u{2588}"@, " "@, "\u{2588}"@, " "@]
    }
}

/// The glyph of `c` in the clock font, if it has one.
pub open spec fn glyph_of(c: char) -> Option<int> {
    if '0' <= c && c <= '9' {
        Some(c as int - '0' as int)
    } else if c == ':' {
        Some(COLON_GLYPH as int)
    } else {
        None
    }
}

/// Row `r` of the big rendering of `cs`: the glyph rows of its digits and
/// colons, each but the text's first character preceded by two spaces;
/// other characters draw nothing.
pub open spec fn big_row(cs: Seq<char>, r: int) -> Seq<char>
    decreases cs.len(),
{
    if cs.len() == 0 {
        Seq::empty()
    } else {
        let i = cs.len() - 1;
        big_row(cs.drop_last(), r) + match glyph_of(cs.last()) {
            Some(g) => (if i > 0 {
                "  "@
            } else {
                Seq::empty()
            }) + glyph_rows(g)[r],
            None => Seq::empty(),
        }
    }
}

/// The rows of glyph `g`.
fn glyph(g: usize) -> (rows: [&'static str; 5])
    requires
        g <= COLON_GLYPH,
    ensures
        forall|r: int| 0 <= r < 5 ==> (#[trigger] rows@[r])@ == glyph_rows(g as int)[r],
{
    let rows = if g == 0 {
        ["\u{2588}\u{2588}\u{2588}", "\u{2588} \u{2588}", "\u{2588} \u{2588}", "\u{2588} \u{2588}", "\u{2588}\u{2588}\u{2588}"]
    } else if g == 1 {
        ["  \u{2588}", "  \u{2588}", "  \u{2588}", "  \u{2588}", "  \u{2588}"]
    } else if g == 2 {
        ["\u{2588}\u{2588}\u{2588}", "  \u{2588}", "\u{2588}\u{2588}\u{2588}", "\u{2588}  ", "\u{2588}\u{2588}\u{2588}"]
    } else if g == 3 {
        ["\u{2588}\u{2588}\u{2588}", "  \u{2588}", "\u{2588}\u{2588}\u{2588}", "  \u{2588}", "\u{2588}\u{2588}\u{2588}"]
    } else if g == 4 {
        ["\u{2588} \u{2588}", "\u{2588} \u{2588}", "\u{2588}\u{2588}\u{2588}", "  \u{2588}", "  \u{2588}"]
    } else if g == 5 {
        ["\u{2588}\u{2588}\u{2588}", "\u{2588}  ", "\u{2588}\u{2588}\u{2588}", "  \u{2588}", "\u{2588}\u{2588}\u{2588}"]
    } else if g == 6 {
        ["\u{2588}\u{2588}\u{2588}", "\u{2588}  ", "\u{2588}\u{2588}\u{2588}", "\u{2588} \u{2588}", "\u{2588}\u{2588}\u{2588}"]
    } else if g == 7 {
        ["\u{2588}\u{2588}\u{2588}", "  \u{2588}", "  \u{2588}", "  \u{2588}", "  \u{2588}"]
    } else if g == 8 {
        ["\u{2588}\u{2588}\u{2588}", "\u{2588} \u{2588}", "\u{2588}\u{2588}\u{2588}", "\u{2588} \u{2588}", "\u{2588}\u{2588}\u{2588}"]
    } else if g == 9 {
        ["\u{2588}\u{2588}\u{2588}", "\u{2588} \u{2588}", "\u{2588}\u{2588}\u{2588}", "  \u{2588}", "\u{2588}\u{2588}\u{2588}"]
    } else {
        [" ", "\u{2588}", " ", "\u{2588}", " "]
    };
    rows
}

/// 3x5 block-character font for digits and colon: the five rows that draw
/// `text`.
pub fn big_text(text: &str) -> (rows: Vec<String>)
    ensures
        rows@.len() == GLYPH_ROWS,
        forall|r: int| 0 <= r < GLYPH_ROWS ==> (#[trigger] rows@[r])@ == big_row(text@, r),
{
    let n = text.unicode_len();
    let mut r0 = String::new();
    let mut r1 = String::new();
    let mut r2 = String::new();
    let mut r3 = String::new();
    let mut r4 = String::new();
    let mut i: usize = 0;
    while i < n
        invariant
            n == text@.len(),
            i <= n,
            r0@ == big_row(text@.take(i as int), 0),
            r1@ == big_row(text@.take(i as int), 1),
            r2@ == big_row(text@.take(i as int), 2),
            r3@ == big_row(text@.take(i as int), 3),
            r4@ == big_row(text@.take(i as int), 4),
        decreases n - i,
    {
        let ch = text.get_char(i);
        assert(text@.take(i + 1).drop_last() =~= text@.take(i as int));
        assert(text@.take(i + 1).last() == ch);
        let g: Option<usize> = if '0' <= ch && ch <= '9' {
            Some(((ch as u32) - ('0' as u32)) as usize)
        } else if ch == ':' {
            Some(COLON_GLYPH)
        } else {
            None
        };
        if let Some(g) = g {
            let rows = glyph(g);
            if i > 0 {
                r0.append("  ");
                r1.append("  ");
                r2.append("  ");
                r3.append("  ");
                r4.append("  ");
            }
            r0.append(rows[0]);
            r1.append(rows[1]);
            r2.append(rows[2]);
            r3.append(rows[3]);
            r4.append(rows[4]);
        }
        i = i + 1;
    }
    assert(text@.take(n as int) =~= text@);
    let mut rows: Vec<String> = Vec::new();
    rows.push(r0);
    rows.push(r1);
    rows.push(r2);
    rows.push(r3);
    rows.push(r4);
    rows
}

/// The blank braille cell, which the fox art uses as its background.
pub const BLANK_CELL: char = '\u{2800}';

/// The characters of `cs` that carry ink, each with its column.
pub open spec fn inked_cells(cs: Seq<char>) -> Seq<(usize, char)>
    decreases cs.len(),
{
    if cs.len() == 0 {
        Seq::empty()
    } else {
        let i = cs.len() - 1;
        inked_cells(cs.drop_last()) + if cs.last() != BLANK_CELL {
            seq![(i as usize, cs.last())]
        } else {
            Seq::empty()
        }
    }
}

/// The inked characters of a line of art with their columns; blank braille
/// cells are left out.
pub fn inked(line: &str) -> (cells: Vec<(usize, char)>)
    ensures
        cells@ == inked_cells(line@),
{
    let n = line.unicode_len();
    let mut cells: Vec<(usize, char)> = Vec::new();
    let mut i: usize = 0;
    while i < n
        invariant
            n == line@.len(),
            i <= n,
            cells@ == inked_cells(line@.take(i as int)),
        decreases n - i,
    {
        let ch = line.get_char(i);
        assert(line@.take(i + 1).drop_last() =~= line@.take(i as int));
        if ch != BLANK_CELL {
            cells.push((i, ch));
        }
        assert(cells@ =~= inked_cells(line@.take(i + 1)));
        i = i + 1;
    }
    assert(line@.take(n as int) =~= line@);
    cells
}

/// The span of at most `width` columns centered horizontally in the span
/// that starts at column `x` and is `area_width` wide: its start and width.
pub open spec fn centered_span(x: u16, area_width: u16, width: u16) -> (u16, u16) {
    let w = if width < area_width {
        width
    } else {
        area_width
    };
    ((x + (area_width - w) / 2) as u16, w)
}

/// Center a span horizontally to at most `width` columns.
pub fn centered(x: u16, area_width: u16, width: u16) -> (span: (u16, u16))
    requires
        x + area_width <= u16::MAX,
    ensures
        span == centered_span(x, area_width, width),
{
    let w = if width < area_width {
        width
    } else {
        area_width
    };
    (x + (area_width - w) / 2, w)
}

/// The clock text for `secs` seconds: minutes and seconds, each at least two
/// digits, separated by a colon.
pub open spec fn clock_text_of(secs: u64) -> Seq<char> {
    zero_pad(decimal((secs / 60) as nat), 2) + seq![':'] + zero_pad(decimal((secs % 60) as nat), 2)
}

/// The text of the big clock: "MM:SS".
pub fn clock_text(secs: u64) -> (s: String)
    ensures
        s@ == clock_text_of(secs),
{
    let mut s = String::new();
    push_two_digits(&mut s, secs / 60);
    push_char(&mut s, ':');
    push_two_digits(&mut s, secs % 60);
    s
}

/// The session dots: a filled dot for each session done, an open one for
/// each still to go.
pub open spec fn dots_text(done: u32, total: u32) -> Seq<char> {
    Seq::new(total as nat, |i: int| if i < done { '\u{25cf}' } else { '\u{25cb}' })
}

/// The row of session dots for a cycle position.
pub fn cycle_dots(done: u32, total: u32) -> (s: String)
    ensures
        s@ == dots_text(done, total),
{
    let mut s = String::new();
    let mut i: u32 = 0;
    while i < total
        invariant
            i <= total,
            s@ == Seq::new(i as nat, |k: int| if k < done { '\u{25cf}' } else { '\u{25cb}' }),
        decreases total - i,
    {
        push_char(&mut s, if i < done { '\u{25cf}' } else { '\u{25cb}' });
        i = i + 1;
        assert(s@ =~= Seq::new(i as nat, |k: int| if k < done { '\u{25cf}' } else { '\u{25cb}' }));
    }
    s
}

/// The banner title and tagline of the alert that announces `phase`.
pub open spec fn alert_text_of(phase: Phase) -> (Seq<char>, Seq<char>) {
    match phase {
        Phase::Work => ("BACK TO WORK"@, "Break's over \u{2014} time to focus."@),
        Phase::ShortBreak => ("BREAK TIME"@, "Stretch your legs for a bit."@),
        Phase::LongBreak => ("LONG BREAK"@, "You earned it. Step away."@),
    }
}

/// The banner title and tagline of the alert that announces `phase`.
pub fn alert_text(phase: Phase) -> (t: (&'static str, &'static str))
    ensures
        (t.0@, t.1@) == alert_text_of(phase),
{
    match phase {
        Phase::Work => ("BACK TO WORK", "Break's over \u{2014} time to focus."),
        Phase::ShortBreak => ("BREAK TIME", "Stretch your legs for a bit."),
        Phase::LongBreak => ("LONG BREAK", "You earned it. Step away."),
    }
}

/// "on" or "off".
pub open spec fn switch_text(on: bool) -> Seq<char> {
    if on {
        "on"@
    } else {
        "off"@
    }
}

/// The value shown beside entry `i` of the settings menu.
pub open spec fn menu_value_text(c: Config, i: int) -> Seq<char> {
    if i == 0 {
        duration_text(c.work)
    } else if i == 1 {
        duration_text(c.short_break)
    } else if i == 2 {
        duration_text(c.long_break)
    } else if i == 3 {
        decimal(c.sessions_before_long_break as nat)
    } else if i == 4 {
        switch_text(c.notify)
    } else {
        switch_text(c.alert_screen)
    }
}

/// Line `i` of the settings menu: a marker on the selected entry, the label
/// padded to fifteen columns, then the value padded to seven between arrows.
pub open spec fn menu_line_text(c: Config, selected: usize, i: int) -> Seq<char> {
    (if i == selected {
        "\u{25b8} "@
    } else {
        "  "@
    }) + pad_right(MENU_ITEMS@[i]@, 15) + " \u{25c2} "@ + pad_left(menu_value_text(c, i), 7)
        + " \u{25b8}"@
}

/// The settings lengths that the menu can show: each fits a `Duration`.
pub open spec fn menu_showable(c: Config) -> bool {
    &&& fits_duration(c.work)
    &&& fits_duration(c.short_break)
    &&& fits_duration(c.long_break)
}

/// Whether the menu can show the settings `c`.
pub fn menu_fits(c: &Config) -> (ok: bool)
    ensures
        ok == menu_showable(*c),
{
    duration_fits(c.work) && duration_fits(c.short_break) && duration_fits(c.long_break)
}

/// The value shown beside entry `i` of the settings menu.
fn menu_value(c: &Config, i: usize) -> (s: String)
    requires
        i < MENU_LEN,
        menu_showable(*c),
    ensures
        s@ == menu_value_text(*c, i as int),
{
    if i == 0 {
        fmt_duration(c.work)
    } else if i == 1 {
        fmt_duration(c.short_break)
    } else if i == 2 {
        fmt_duration(c.long_break)
    } else if i == 3 {
        let mut s = String::new();
        push_decimal(&mut s, c.sessions_before_long_break as u64);
        s
    } else {
        let on = if i == 4 {
            c.notify
        } else {
            c.alert_screen
        };
        if on {
            String::from_str("on")
        } else {
            String::from_str("off")
        }
    }
}

/// The lines of the settings menu, top to bottom, with `selected` marked.
pub fn menu_lines(config: &Config, selected: usize) -> (lines: Vec<String>)
    requires
        menu_showable(*config),
    ensures
        lines@.len() == MENU_LEN,
        forall|i: int|
            0 <= i < MENU_LEN ==> (#[trigger] lines@[i])@ == menu_line_text(*config, selected, i),
{
    let mut lines: Vec<String> = Vec::new();
    let mut i: usize = 0;
    while i < MENU_LEN
        invariant
            i <= MENU_LEN,
            menu_showable(*config),
            lines@.len() == i,
            forall|j: int|
                0 <= j < i ==> (#[trigger] lines@[j])@ == menu_line_text(*config, selected, j),
        decreases MENU_LEN - i,
    {
        let mut line = if i == selected {
            String::from_str("\u{25b8} ")
        } else {
            String::from_str("  ")
        };
        push_padded_right(&mut line, MENU_ITEMS[i], 15);
        line.append(" \u{25c2} ");
        let value = menu_value(config, i);
        push_padded_left(&mut line, value.as_str(), 7);
        line.append(" \u{25b8}");
        assert(line@ =~= menu_line_text(*config, selected, i as int));
        lines.push(line);
        i = i + 1;
    }
    lines
}

/// The line under the alert's tagline: the upcoming phase and its length.
pub open spec fn alert_subtitle_text(phase: Phase, total: u128) -> Seq<char> {
    phase.spec_label() + " \u{b7} "@ + duration_text(total)
}

/// The line under the alert's tagline: the upcoming phase and its length.
pub fn alert_subtitle(timer: &Timer) -> (s: String)
    requires
        fits_duration(timer.total),
    ensures
        s@ == alert_subtitle_text(timer.phase, timer.total),
{
    let mut s = String::from_str(timer.phase.label());
    s.append(" \u{b7} ");
    let d = fmt_duration(timer.total);
    s.append(d.as_str());
    s
}

} // verus!
