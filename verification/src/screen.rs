//! Placement on screen and the fixed pieces of the interface: popups, toasts,
//! the help table, the quit prompt, the logs page and the thinking line.

use vstd::prelude::*;

use crate::text::{byte_len, chars_of, string_of};
use crate::types::{Toast, ToastLevel};
use crate::view::{
    bold, bold_style, fg, fg_style, italic, italic_style, lines_v, plain, plain_style, push_blank,
    push_line, push_pair, push_single, span, span_v, SpanStyle, StyledLine, StyledSpan, ThemeColor,
};

verus! {

/// A rectangle of terminal cells.
#[derive(Debug, Clone, Copy, PartialEq, Eq, Structural)]
pub struct Rect {
    pub x: u16,
    pub y: u16,
    pub width: u16,
    pub height: u16,
}

/// A rectangle of `percent_x` by `percent_y` percent of `area`, centered in it.
pub open spec fn centered_spec(percent_x: u16, percent_y: u16, area: Rect) -> Rect {
    let w = area.width * percent_x / 100;
    let h = area.height * percent_y / 100;
    Rect {
        x: (area.x + (area.width - w) / 2) as u16,
        y: (area.y + (area.height - h) / 2) as u16,
        width: w as u16,
        height: h as u16,
    }
}

/// A rectangle of `percent_x` by `percent_y` percent of `area`, centered in it.
pub fn centered_rect(percent_x: u16, percent_y: u16, area: Rect) -> (r: Rect)
    requires
        area.width * percent_x <= u16::MAX,
        area.height * percent_y <= u16::MAX,
        area.x + area.width <= u16::MAX,
        area.y + area.height <= u16::MAX,
        percent_x <= 100,
        percent_y <= 100,
    ensures
        r == centered_spec(percent_x, percent_y, area),
{
    let w = area.width * percent_x / 100;
    let h = area.height * percent_y / 100;
    assert(w <= area.width) by (nonlinear_arith)
        requires
            w == area.width * percent_x / 100,
            percent_x <= 100,
    ;
    assert(h <= area.height) by (nonlinear_arith)
        requires
            h == area.height * percent_y / 100,
            percent_y <= 100,
    ;
    let x = area.x + (area.width - w) / 2;
    let y = area.y + (area.height - h) / 2;
    Rect { x, y, width: w, height: h }
}

/// `area` without its outer ring of cells (`Rect::inner` of `ratatui` with a
/// margin of one cell): the empty rectangle at the origin when `area` is
/// narrower or lower than two cells.
pub open spec fn inner_spec(area: Rect) -> Rect {
    if area.width < 2 || area.height < 2 {
        Rect { x: 0, y: 0, width: 0, height: 0 }
    } else {
        Rect {
            x: if area.x < u16::MAX {
                (area.x + 1) as u16
            } else {
                u16::MAX
            },
            y: if area.y < u16::MAX {
                (area.y + 1) as u16
            } else {
                u16::MAX
            },
            width: (area.width - 2) as u16,
            height: (area.height - 2) as u16,
        }
    }
}

/// `area` without its outer ring of cells (see `inner_spec`).
pub fn inner_rect(area: Rect) -> (r: Rect)
    ensures
        r == inner_spec(area),
{
    if area.width < 2 || area.height < 2 {
        Rect { x: 0, y: 0, width: 0, height: 0 }
    } else {
        Rect {
            x: area.x.saturating_add(1),
            y: area.y.saturating_add(1),
            width: area.width - 2,
            height: area.height - 2,
        }
    }
}

/// The popup of the quit prompt: 35% by 20% of the screen, or 35% by 30% when
/// that would be under five rows.
pub fn quit_popup(area: Rect) -> (r: Rect)
    requires
        area.width * 35 <= u16::MAX,
        area.height * 30 <= u16::MAX,
        area.x + area.width <= u16::MAX,
        area.y + area.height <= u16::MAX,
    ensures
        r == (if centered_spec(35, 20, area).height < 5 {
            centered_spec(35, 30, area)
        } else {
            centered_spec(35, 20, area)
        }),
{
    let p = centered_rect(35, 20, area);
    if p.height < 5 {
        centered_rect(35, 30, area)
    } else {
        p
    }
}

// ───────────────────────── toasts ─────────────────────────

/// Where a toast of a message `len` bytes long goes on a screen `area`: at the
/// bottom right, three rows high, as wide as the message and its frame (the
/// length counted modulo 2^16) but leaving four columns free.
pub open spec fn toast_rect_spec(len: nat, area: Rect) -> Rect {
    let want: int = (len % 65536) as int + 4;
    let room: int = if area.width >= 4 {
        area.width - 4
    } else {
        0
    };
    let w: int = if want < room {
        want
    } else {
        room
    };
    Rect {
        x: (if area.width >= w + 2 {
            area.width - w - 2
        } else {
            0
        }) as u16,
        y: (if area.height >= 4 {
            area.height - 4
        } else {
            0
        }) as u16,
        width: w as u16,
        height: 3,
    }
}

/// The area of a toast (see `toast_rect_spec`).
pub fn toast_rect(toast: &Toast, area: Rect) -> (r: Rect)
    requires
        byte_len(toast.message@) <= usize::MAX,
        byte_len(toast.message@) % 65536 + 4 <= u16::MAX,
    ensures
        r == toast_rect_spec(byte_len(toast.message@), area),
{
    let len = toast.message.as_str().len();
    assert(len == byte_len(toast.message@));
    let t = #[verifier::truncate] (len as u16);
    assert(t == len % 65536) by (bit_vector)
        requires
            t == #[verifier::truncate] (len as u16),
    ;
    let want = t + 4;
    let room = area.width.saturating_sub(4);
    let w = if want < room {
        want
    } else {
        room
    };
    let x = area.width.saturating_sub(w + 2);
    let y = area.height.saturating_sub(3 + 1);
    Rect { x, y, width: w, height: 3 }
}

/// The frame color and icon of a toast.
pub open spec fn toast_badge(level: ToastLevel) -> (ThemeColor, Seq<char>) {
    match level {
        ToastLevel::Info => (ThemeColor::Accent, "i"@),
        ToastLevel::Success => (ThemeColor::Success, "+"@),
        ToastLevel::Warning => (ThemeColor::Warning, "!"@),
        ToastLevel::Error => (ThemeColor::Error, "x"@),
    }
}

/// The line of a toast: its icon in brackets, then its message.
pub fn toast_line(toast: &Toast) -> (r: (ThemeColor, Vec<StyledSpan>))
    ensures
        r.0 == toast_badge(toast.level).0,
        r.1@.map_values(|s: StyledSpan| span_v(s)) == seq![
            (" ["@ + toast_badge(toast.level).1 + "] "@, bold_style(toast_badge(toast.level).0)),
            (toast.message@, plain_style()),
        ],
{
    let (color, icon): (ThemeColor, &str) = match toast.level {
        ToastLevel::Info => (ThemeColor::Accent, "i"),
        ToastLevel::Success => (ThemeColor::Success, "+"),
        ToastLevel::Warning => (ThemeColor::Warning, "!"),
        ToastLevel::Error => (ThemeColor::Error, "x"),
    };
    let mut badge = chars_of(" [");
    crate::text::extend(&mut badge, &chars_of(icon));
    crate::text::extend(&mut badge, &chars_of("] "));
    let mut v: Vec<StyledSpan> = Vec::new();
    v.push(span(string_of(&badge), bold(color)));
    v.push(span(toast.message.clone(), plain()));
    assert(v@.map_values(|s: StyledSpan| span_v(s)) =~= seq![
        (" ["@ + toast_badge(toast.level).1 + "] "@, bold_style(toast_badge(toast.level).0)),
        (toast.message@, plain_style()),
    ]);
    (color, v)
}

// ───────────────────────── fixed text ─────────────────────────

/// The style of the help table's section titles.
pub open spec fn section_style() -> SpanStyle {
    SpanStyle { fg: Some(ThemeColor::Warning), bold: true, underlined: true, ..plain_style() }
}

/// What a row of the help table is.
#[derive(Debug, Clone, Copy, PartialEq, Eq, Structural)]
pub enum HelpRowKind {
    /// A section title.
    Section,
    /// A key binding and what it does.
    Binding,
    /// An empty row between sections.
    Blank,
}

/// The help table: (keys, what they do, kind of row).
pub open spec fn help_table() -> Seq<(Seq<char>, Seq<char>, HelpRowKind)> {
    seq![
        ("-- Navigation --"@, ""@, HelpRowKind::Section),
        ("Ctrl+C / Esc"@, "Quit / Close dialog / Abort"@, HelpRowKind::Binding),
        ("Tab"@, "Switch between Chat and Logs pages"@, HelpRowKind::Binding),
        ("Ctrl+B"@, "Toggle sidebar"@, HelpRowKind::Binding),
        ("Up / Down"@, "Navigate sidebar / dialog items"@, HelpRowKind::Binding),
        ("Enter"@, "Send message / Select item"@, HelpRowKind::Binding),
        (""@, ""@, HelpRowKind::Blank),
        ("-- Dialogs --"@, ""@, HelpRowKind::Section),
        ("Ctrl+O"@, "Open session picker"@, HelpRowKind::Binding),
        ("Ctrl+K"@, "Open model picker"@, HelpRowKind::Binding),
        ("Ctrl+P"@, "Open command palette"@, HelpRowKind::Binding),
        ("Ctrl+T"@, "Open theme picker"@, HelpRowKind::Binding),
        ("?"@, "Open this help dialog"@, HelpRowKind::Binding),
        (""@, ""@, HelpRowKind::Blank),
        ("-- Messages --"@, ""@, HelpRowKind::Section),
        ("Page Up / Page Down"@, "Scroll message history"@, HelpRowKind::Binding),
        ("Home / End"@, "Jump to top / bottom of messages"@, HelpRowKind::Binding),
        (""@, ""@, HelpRowKind::Blank),
        ("-- Editor --"@, ""@, HelpRowKind::Section),
        ("Left / Right"@, "Move cursor in input"@, HelpRowKind::Binding),
        ("Ctrl+A / Ctrl+E"@, "Jump to start / end of input"@, HelpRowKind::Binding),
        ("Ctrl+U"@, "Clear input line"@, HelpRowKind::Binding),
    ]
}

/// The cells of a help row: section titles stand out, blank rows have no
/// style, bindings show keys and descriptions.
pub open spec fn help_row(r: (Seq<char>, Seq<char>, HelpRowKind)) -> Seq<(Seq<char>, SpanStyle)> {
    match r.2 {
        HelpRowKind::Blank => seq![(r.0, plain_style()), (r.1, plain_style())],
        HelpRowKind::Section => seq![(r.0, section_style()), (r.1, plain_style())],
        HelpRowKind::Binding => seq![(r.0, bold_style(ThemeColor::Accent)), (r.1, fg_style(ThemeColor::Fg))],
    }
}

fn help_entry(j: usize) -> (r: (&'static str, &'static str, HelpRowKind))
    requires
        j < 22,
    ensures
        (r.0@, r.1@, r.2) == help_table()[j as int],
{
    if j == 0 {
        ("-- Navigation --", "", HelpRowKind::Section)
    } else if j == 1 {
        ("Ctrl+C / Esc", "Quit / Close dialog / Abort", HelpRowKind::Binding)
    } else if j == 2 {
        ("Tab", "Switch between Chat and Logs pages", HelpRowKind::Binding)
    } else if j == 3 {
        ("Ctrl+B", "Toggle sidebar", HelpRowKind::Binding)
    } else if j == 4 {
        ("Up / Down", "Navigate sidebar / dialog items", HelpRowKind::Binding)
    } else if j == 5 {
        ("Enter", "Send message / Select item", HelpRowKind::Binding)
    } else if j == 6 {
        ("", "", HelpRowKind::Blank)
    } else if j == 7 {
        ("-- Dialogs --", "", HelpRowKind::Section)
    } else if j == 8 {
        ("Ctrl+O", "Open session picker", HelpRowKind::Binding)
    } else if j == 9 {
        ("Ctrl+K", "Open model picker", HelpRowKind::Binding)
    } else if j == 10 {
        ("Ctrl+P", "Open command palette", HelpRowKind::Binding)
    } else if j == 11 {
        ("Ctrl+T", "Open theme picker", HelpRowKind::Binding)
    } else if j == 12 {
        ("?", "Open this help dialog", HelpRowKind::Binding)
    } else if j == 13 {
        ("", "", HelpRowKind::Blank)
    } else if j == 14 {
        ("-- Messages --", "", HelpRowKind::Section)
    } else if j == 15 {
        ("Page Up / Page Down", "Scroll message history", HelpRowKind::Binding)
    } else if j == 16 {
        ("Home / End", "Jump to top / bottom of messages", HelpRowKind::Binding)
    } else if j == 17 {
        ("", "", HelpRowKind::Blank)
    } else if j == 18 {
        ("-- Editor --", "", HelpRowKind::Section)
    } else if j == 19 {
        ("Left / Right", "Move cursor in input", HelpRowKind::Binding)
    } else if j == 20 {
        ("Ctrl+A / Ctrl+E", "Jump to start / end of input", HelpRowKind::Binding)
    } else {
        ("Ctrl+U", "Clear input line", HelpRowKind::Binding)
    }
}

/// The rows of the help table, each a line of two cells.
pub fn help_rows() -> (r: Vec<StyledLine>)
    ensures
        lines_v(r@) == help_table().map_values(
            |row: (Seq<char>, Seq<char>, HelpRowKind)| help_row(row),
        ),
{
    let ghost t = help_table();
    let ghost f = |row: (Seq<char>, Seq<char>, HelpRowKind)| help_row(row);
    let mut out: Vec<StyledLine> = Vec::new();
    assert(lines_v(out@) =~= t.take(0).map_values(f));
    for j in 0..22
        invariant
            t == help_table(),
            t.len() == 22,
            f == (|row: (Seq<char>, Seq<char>, HelpRowKind)| help_row(row)),
            lines_v(out@) == t.take(j as int).map_values(f),
    {
        let (k, d, kind) = help_entry(j);
        let (sk, sd) = match kind {
            HelpRowKind::Blank => (plain(), plain()),
            HelpRowKind::Section => (
                SpanStyle { fg: Some(ThemeColor::Warning), bold: true, underlined: true, ..plain() },
                plain(),
            ),
            HelpRowKind::Binding => (bold(ThemeColor::Accent), fg(ThemeColor::Fg)),
        };
        push_pair(&mut out, span(string_of(&chars_of(k)), sk), span(string_of(&chars_of(d)), sd));
        assert(t.take(j + 1).map_values(f) =~= t.take(j as int).map_values(f).push(f(t[j as int])));
    }
    assert(t.take(22) =~= t);
    out
}

/// The lines of the quit prompt.
pub open spec fn quit_lines() -> Seq<Seq<(Seq<char>, SpanStyle)>> {
    seq![
        Seq::empty(),
        seq![("  Are you sure you want to quit?"@, fg_style(ThemeColor::Fg))],
        Seq::empty(),
        seq![
            ("  [y] "@, bold_style(ThemeColor::Success)),
            ("Yes"@, fg_style(ThemeColor::Fg)),
            ("    "@, plain_style()),
            ("[n] "@, bold_style(ThemeColor::Error)),
            ("No"@, fg_style(ThemeColor::Fg)),
        ],
    ]
}

/// Appends a span of the text `s` to `v`.
fn push_text(v: &mut Vec<StyledSpan>, s: &str, style: SpanStyle)
    ensures
        final(v)@.map_values(|x: StyledSpan| span_v(x)) == old(v)@.map_values(
            |x: StyledSpan| span_v(x),
        ).push((s@, style)),
{
    let ghost prev = v@;
    let sp = span(string_of(&chars_of(s)), style);
    v.push(sp);
    assert(v@.map_values(|x: StyledSpan| span_v(x)) =~= prev.map_values(|x: StyledSpan| span_v(x)).push(
        (s@, style),
    ));
}

/// The lines of the quit prompt.
pub fn quit_prompt() -> (r: Vec<StyledLine>)
    ensures
        lines_v(r@) == quit_lines(),
{
    let mut out: Vec<StyledLine> = Vec::new();
    push_blank(&mut out);
    push_single(&mut out, span(string_of(&chars_of("  Are you sure you want to quit?")), fg(ThemeColor::Fg)));
    push_blank(&mut out);
    let mut v: Vec<StyledSpan> = Vec::new();
    push_text(&mut v, "  [y] ", bold(ThemeColor::Success));
    push_text(&mut v, "Yes", fg(ThemeColor::Fg));
    push_text(&mut v, "    ", plain());
    push_text(&mut v, "[n] ", bold(ThemeColor::Error));
    push_text(&mut v, "No", fg(ThemeColor::Fg));
    assert(v@.map_values(|x: StyledSpan| span_v(x)) =~= quit_lines()[3]);
    push_line(&mut out, v);
    assert(lines_v(out@) =~= quit_lines());
    out
}

/// The lines of the logs page.
pub open spec fn logs_lines() -> Seq<Seq<(Seq<char>, SpanStyle)>> {
    seq![
        Seq::empty(),
        seq![("  Logs - coming soon"@, italic_style(ThemeColor::Muted))],
        Seq::empty(),
        seq![("  Press Tab to switch back to Chat."@, fg_style(ThemeColor::Muted))],
    ]
}

/// The lines of the logs page.
pub fn logs_page() -> (r: Vec<StyledLine>)
    ensures
        lines_v(r@) == logs_lines(),
{
    let mut out: Vec<StyledLine> = Vec::new();
    push_blank(&mut out);
    push_single(&mut out, span(string_of(&chars_of("  Logs - coming soon")), italic(ThemeColor::Muted)));
    push_blank(&mut out);
    push_single(
        &mut out,
        span(string_of(&chars_of("  Press Tab to switch back to Chat.")), fg(ThemeColor::Muted)),
    );
    assert(lines_v(out@) =~= logs_lines());
    out
}

/// The thinking line shown while the session works.
pub open spec fn thinking_spans() -> Seq<(Seq<char>, SpanStyle)> {
    seq![
        (" ● "@, bold_style(ThemeColor::Accent)),
        (
            "Thinking..."@,
            SpanStyle { fg: Some(ThemeColor::Accent), bold: true, italic: true, ..plain_style() },
        ),
    ]
}

/// The thinking line shown while the session works.
pub fn thinking_line() -> (r: Vec<StyledSpan>)
    ensures
        r@.map_values(|s: StyledSpan| span_v(s)) == thinking_spans(),
{
    let mut v: Vec<StyledSpan> = Vec::new();
    push_text(&mut v, " ● ", bold(ThemeColor::Accent));
    push_text(
        &mut v,
        "Thinking...",
        SpanStyle { fg: Some(ThemeColor::Accent), bold: true, italic: true, ..plain() },
    );
    assert(v@.map_values(|s: StyledSpan| span_v(s)) =~= thinking_spans());
    v
}

} // verus!
