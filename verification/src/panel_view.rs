//! The side panel of sessions and the status bar.

use vstd::prelude::*;

use crate::dialog_view::{is_current_session, session_label, session_label_of, status_of};
use crate::flows::model_display_spec;
use crate::message_view::{display_width, sat_sub, span_width};
use crate::state::{App, ChatMode};
use crate::text::{byte_len, chars_of, cut_within, str_eq, string_of, utf8_len_upto, within_bytes};
use crate::types::{Session, SessionStatus};
use crate::view::{
    bold, bold_style, fg, fg_style, lines_v, plain, plain_style, push_line, push_single, span,
    span_v, SpanStyle, StyledLine, StyledSpan, ThemeColor,
};

verus! {

// ───────────────────────── shortening ─────────────────────────

/// `s` cut to fit in `max` bytes: unchanged when it fits, else cut at the last
/// character boundary at or before byte `max - 3` (at the start when `max` is
/// under 3) and followed by "...".
pub open spec fn shortened(s: Seq<char>, max: int) -> Seq<char> {
    if byte_len(s) > max {
        within_bytes(s, sat_sub(max, 3) as int) + "..."@
    } else {
        s
    }
}

/// `s` cut to fit in `max` bytes (see `shortened`).
fn shorten(s: &[char], max: usize) -> (r: Vec<char>)
    ensures
        r@ == shortened(s@, max as int),
{
    match utf8_len_upto(s, max) {
        Some(_) => crate::text::slice(s, 0, s.len()),
        None => {
            let mut v = cut_within(s, max.saturating_sub(3));
            crate::text::extend(&mut v, &chars_of("..."));
            v
        },
    }
}

// ───────────────────────── side panel ─────────────────────────

/// A session counts as recent when its update time is written with at least ten
/// bytes (a full date); otherwise it is older.
pub open spec fn is_recent(s: Session) -> bool {
    byte_len(s.time.updated@) >= 10
}

/// The header of a group of sessions.
pub open spec fn group_header(recent: bool) -> Seq<(Seq<char>, SpanStyle)> {
    seq![
        (
            if recent {
                " -- Recent --"@
            } else {
                " -- Older --"@
            },
            bold_style(ThemeColor::Muted),
        ),
    ]
}

/// The entry of session `k` in the side panel: its status icon and its title,
/// shortened to the panel's width less six, highlighted when current or selected.
pub open spec fn panel_entry(app: App, k: int, max: int) -> Seq<(Seq<char>, SpanStyle)> {
    let s = app.sessions@[k];
    let icon = match status_of(app, s.id@) {
        Some(SessionStatus::Busy) => ("* "@, fg_style(ThemeColor::ToolRunning)),
        Some(SessionStatus::Retry { .. }) => ("r "@, fg_style(ThemeColor::Warning)),
        _ => ("  "@, plain_style()),
    };
    let style = if is_current_session(app, s.id@) {
        SpanStyle {
            fg: Some(ThemeColor::Accent),
            bg: Some(ThemeColor::Selection),
            bold: true,
            ..plain_style()
        }
    } else if k == app.sidebar_selected {
        SpanStyle { fg: Some(ThemeColor::Fg), bg: Some(ThemeColor::Selection), ..plain_style() }
    } else {
        fg_style(ThemeColor::Fg)
    };
    seq![icon, (shortened(session_label(s), max), style)]
}

/// The panel's lines from session `k` on, `prev` telling the group of the
/// session before (none at the start): a header whenever the group changes,
/// then the entry.
pub open spec fn panel_from(app: App, k: int, prev: Option<bool>, max: int) -> Seq<
    Seq<(Seq<char>, SpanStyle)>,
>
    decreases app.sessions@.len() - k,
{
    if k < 0 || k >= app.sessions@.len() {
        Seq::empty()
    } else {
        let g = is_recent(app.sessions@[k]);
        (if prev == Some(g) {
            Seq::empty()
        } else {
            seq![group_header(g)]
        }) + seq![panel_entry(app, k, max)] + panel_from(app, k + 1, Some(g), max)
    }
}

/// The side panel's lines for a panel `width` columns wide.
pub open spec fn panel_lines(app: App, width: u16) -> Seq<Seq<(Seq<char>, SpanStyle)>> {
    if app.sessions@.len() == 0 {
        seq![seq![("  No sessions"@, fg_style(ThemeColor::Muted))]]
    } else {
        panel_from(app, 0, None, sat_sub(width as int, 6) as int)
    }
}

/// The side panel's lines (see `panel_lines`).
pub fn session_panel(app: &App, width: u16) -> (r: Vec<StyledLine>)
    ensures
        lines_v(r@) == panel_lines(*app, width),
{
    let mut out: Vec<StyledLine> = Vec::new();
    if app.sessions.len() == 0 {
        push_single(&mut out, span(string_of(&chars_of("  No sessions")), fg(ThemeColor::Muted)));
        assert(lines_v(out@) =~= panel_lines(*app, width));
        return out;
    }
    let max = width.saturating_sub(6) as usize;
    let ghost m = sat_sub(width as int, 6) as int;
    let mut prev: Option<bool> = None;
    assert(lines_v(out@) + panel_from(*app, 0, prev, m) =~= panel_from(*app, 0, None, m));
    for i in 0..app.sessions.len()
        invariant
            max == m,
            m == sat_sub(width as int, 6) as int,
            lines_v(out@) + panel_from(*app, i as int, prev, m) == panel_from(*app, 0, None, m),
    {
        let ghost before = lines_v(out@);
        let s = &app.sessions[i];
        let recent = match utf8_len_upto(&chars_of(s.time.updated.as_str()), 9) {
            Some(_) => false,
            None => true,
        };
        assert(recent == is_recent(app.sessions@[i as int]));
        let changed = match prev {
            Some(g) => g != recent,
            None => true,
        };
        if changed {
            push_single(&mut out, span(string_of(&chars_of(if recent {
                " -- Recent --"
            } else {
                " -- Older --"
            })), bold(ThemeColor::Muted)));
        }
        let (icon, istyle): (&str, SpanStyle) = match app.session_statuses.get(s.id.as_str()) {
            Some(SessionStatus::Busy) => ("* ", fg(ThemeColor::ToolRunning)),
            Some(SessionStatus::Retry { .. }) => ("r ", fg(ThemeColor::Warning)),
            _ => ("  ", plain()),
        };
        let cur = match &app.current_session {
            Some(c) => str_eq(c.id.as_str(), s.id.as_str()),
            None => false,
        };
        let style = if cur {
            SpanStyle { fg: Some(ThemeColor::Accent), bg: Some(ThemeColor::Selection), bold: true, ..plain() }
        } else if i == app.sidebar_selected {
            SpanStyle { fg: Some(ThemeColor::Fg), bg: Some(ThemeColor::Selection), ..plain() }
        } else {
            fg(ThemeColor::Fg)
        };
        let title = shorten(&session_label_of(s), max);
        let mut v: Vec<StyledSpan> = Vec::new();
        v.push(span(string_of(&chars_of(icon)), istyle));
        v.push(span(string_of(&title), style));
        assert(v@.map_values(|x: StyledSpan| span_v(x)) =~= panel_entry(*app, i as int, m));
        push_line(&mut out, v);
        assert(lines_v(out@) + panel_from(*app, i + 1, Some(recent), m) =~= before + panel_from(
            *app,
            i as int,
            prev,
            m,
        ));
        prev = Some(recent);
    }
    assert(panel_from(*app, app.sessions@.len() as int, prev, m) =~= Seq::<
        Seq<(Seq<char>, SpanStyle)>,
    >::empty());
    assert(lines_v(out@) =~= panel_lines(*app, width));
    out
}

// ───────────────────────── status bar ─────────────────────────

/// The left part of the status bar: the mode, the project, the branch.
pub open spec fn status_left(app: App) -> Seq<(Seq<char>, SpanStyle)> {
    let (label, bg) = match app.chat_mode {
        ChatMode::Build => ("Build"@, ThemeColor::Accent),
        ChatMode::Plan => ("Plan"@, ThemeColor::Warning),
    };
    seq![
        (
            " "@ + label + " "@,
            SpanStyle { fg: Some(ThemeColor::Bg), bg: Some(bg), bold: true, ..plain_style() },
        ),
        (" "@ + app.project_name_spec() + " "@, bold_style(ThemeColor::Accent)),
    ] + match app.vcs_branch_spec() {
        Some(b) => seq![(" "@ + b + " "@, fg_style(ThemeColor::Muted))],
        None => Seq::empty(),
    }
}

/// The right part of the status bar: the model and the connection.
pub open spec fn status_right(app: App) -> Seq<(Seq<char>, SpanStyle)> {
    seq![
        (" "@ + model_display_spec(app) + " "@, fg_style(ThemeColor::Fg)),
        (" | "@, fg_style(ThemeColor::Border)),
        if app.connected {
            (" ok "@, fg_style(ThemeColor::Success))
        } else {
            (" -- "@, fg_style(ThemeColor::Error))
        },
    ]
}

/// The session title as the status bar shows it: shortened to half of what
/// fifty columns leave, when that is more than three bytes.
pub open spec fn status_title(app: App, width: u16) -> Seq<char> {
    let max = sat_sub(width as int, 50) / 2;
    let t = app.session_title_spec();
    if byte_len(t) > max && max > 3 {
        shortened(t, max as int)
    } else {
        t
    }
}

/// The width of spans on screen.
pub open spec fn spans_width(s: Seq<(Seq<char>, SpanStyle)>) -> nat
    decreases s.len(),
{
    if s.len() == 0 {
        0
    } else {
        spans_width(s.drop_last()) + display_width(s.last().0)
    }
}

/// `n` spaces.
pub open spec fn spaces(n: nat) -> Seq<char> {
    Seq::new(n, |i: int| ' ')
}

/// The status bar: the left part, padding that centers the title, the title,
/// padding that pushes the right part to the edge, the right part.
pub open spec fn status_spans(app: App, width: u16) -> Seq<(Seq<char>, SpanStyle)> {
    let l = status_left(app);
    let r = status_right(app);
    let t = status_title(app, width);
    let lw = spans_width(l);
    let rw = spans_width(r);
    let cw = byte_len(t) + 2;
    let total = width as int;
    let left_pad: nat = if total > lw + cw + rw {
        ((total - lw - cw - rw) / 2) as nat
    } else {
        1
    };
    let right_pad = sat_sub(total, (lw + left_pad + cw + rw) as int);
    l + seq![(spaces(left_pad), plain_style())] + seq![(" "@ + t + " "@, fg_style(ThemeColor::Muted))]
        + if right_pad > 0 {
        seq![(spaces(right_pad), plain_style())]
    } else {
        Seq::empty()
    } + r
}

fn width_of(spans: &Vec<StyledSpan>) -> (r: Option<usize>)
    ensures
        match r {
            Some(w) => w == spans_width(spans@.map_values(|x: StyledSpan| span_v(x))),
            None => spans_width(spans@.map_values(|x: StyledSpan| span_v(x))) > usize::MAX,
        },
{
    let ghost sv = spans@.map_values(|x: StyledSpan| span_v(x));
    let mut w: usize = 0;
    assert(sv.take(0) =~= Seq::<(Seq<char>, SpanStyle)>::empty());
    for i in 0..spans.len()
        invariant
            sv == spans@.map_values(|x: StyledSpan| span_v(x)),
            w == spans_width(sv.take(i as int)),
    {
        assert(sv.take(i + 1).drop_last() =~= sv.take(i as int));
        let sw = span_width(spans[i].text.as_str());
        if sw > usize::MAX - w {
            proof {
                lemma_spans_width_mono(sv, i + 1);
            }
            return None;
        }
        w = w + sw;
    }
    assert(sv.take(sv.len() as int) =~= sv);
    Some(w)
}

proof fn lemma_spans_width_mono(s: Seq<(Seq<char>, SpanStyle)>, k: int)
    requires
        0 <= k <= s.len(),
    ensures
        spans_width(s.take(k)) <= spans_width(s),
    decreases s.len() - k,
{
    if k < s.len() {
        lemma_spans_width_mono(s, k + 1);
        assert(s.take(k + 1).drop_last() =~= s.take(k));
    } else {
        assert(s.take(k) =~= s);
    }
}

fn spaces_of(n: usize) -> (r: Vec<char>)
    ensures
        r@ == spaces(n as nat),
{
    let mut v: Vec<char> = Vec::new();
    for i in 0..n
        invariant
            v@ == spaces(i as nat),
    {
        v.push(' ');
        assert(v@ =~= spaces((i + 1) as nat));
    }
    v
}

fn status_left_spans(app: &App) -> (r: Vec<StyledSpan>)
    ensures
        r@.map_values(|x: StyledSpan| span_v(x)) == status_left(*app),
{
    let mut left: Vec<StyledSpan> = Vec::new();
    let (label, bg): (&str, ThemeColor) = match app.chat_mode {
        ChatMode::Build => ("Build", ThemeColor::Accent),
        ChatMode::Plan => ("Plan", ThemeColor::Warning),
    };
    let mut a = chars_of(" ");
    crate::text::extend(&mut a, &chars_of(label));
    crate::text::extend(&mut a, &chars_of(" "));
    left.push(span(
        string_of(&a),
        SpanStyle { fg: Some(ThemeColor::Bg), bg: Some(bg), bold: true, ..plain() },
    ));
    let mut b = chars_of(" ");
    crate::text::extend(&mut b, &chars_of(app.project_name()));
    crate::text::extend(&mut b, &chars_of(" "));
    left.push(span(string_of(&b), bold(ThemeColor::Accent)));
    if let Some(br) = app.vcs_branch() {
        let mut c = chars_of(" ");
        crate::text::extend(&mut c, &chars_of(br.as_str()));
        crate::text::extend(&mut c, &chars_of(" "));
        left.push(span(string_of(&c), fg(ThemeColor::Muted)));
    }
    assert(left@.map_values(|x: StyledSpan| span_v(x)) =~= status_left(*app));
    left
}

fn status_right_spans(app: &App) -> (r: Vec<StyledSpan>)
    ensures
        r@.map_values(|x: StyledSpan| span_v(x)) == status_right(*app),
{
    let mut right: Vec<StyledSpan> = Vec::new();
    let model = app.model_display_name();
    let mut m = chars_of(" ");
    crate::text::extend(&mut m, &chars_of(model.as_str()));
    crate::text::extend(&mut m, &chars_of(" "));
    right.push(span(string_of(&m), fg(ThemeColor::Fg)));
    right.push(span(string_of(&chars_of(" | ")), fg(ThemeColor::Border)));
    if app.connected {
        right.push(span(string_of(&chars_of(" ok ")), fg(ThemeColor::Success)));
    } else {
        right.push(span(string_of(&chars_of(" -- ")), fg(ThemeColor::Error)));
    }
    assert(right@.map_values(|x: StyledSpan| span_v(x)) =~= status_right(*app));
    right
}

fn status_title_chars(app: &App, width: u16) -> (r: Vec<char>)
    ensures
        r@ == status_title(*app, width),
{
    let title = chars_of(app.current_session_title());
    let max = ((width as usize).saturating_sub(50)) / 2;
    match utf8_len_upto(&title, max) {
        None => {
            if max > 3 {
                shorten(&title, max)
            } else {
                title
            }
        },
        Some(_) => title,
    }
}

/// The status bar for a bar `width` columns wide (see `status_spans`); `None`
/// when its measures overflow a machine word.
pub fn status_bar(app: &App, width: u16) -> (r: Option<Vec<StyledSpan>>)
    ensures
        ({
            let l = status_left(*app);
            let rr = status_right(*app);
            let t = status_title(*app, width);
            if spans_width(l) + spans_width(rr) + byte_len(t) + 3 <= usize::MAX {
                r matches Some(v) && v@.map_values(|x: StyledSpan| span_v(x)) == status_spans(
                    *app,
                    width,
                )
            } else {
                r is None
            }
        }),
{
    let left = status_left_spans(app);
    let right = status_right_spans(app);
    let shown = status_title_chars(app, width);
    let lw = match width_of(&left) {
        Some(w) => w,
        None => {
            return None;
        },
    };
    let rw = match width_of(&right) {
        Some(w) => w,
        None => {
            return None;
        },
    };
    let tl = match utf8_len_upto(&shown, usize::MAX) {
        Some(n) => n,
        None => {
            return None;
        },
    };
    if lw > usize::MAX - rw || lw + rw > usize::MAX - 3 || lw + rw + 3 > usize::MAX - tl {
        return None;
    }
    let cw = tl + 2;
    let total = width as usize;
    let left_pad = if total > lw + cw + rw {
        (total - lw - cw - rw) / 2
    } else {
        1
    };
    let mut spans = left;
    spans.push(span(string_of(&spaces_of(left_pad)), plain()));
    let mut tt = chars_of(" ");
    crate::text::extend(&mut tt, &shown);
    crate::text::extend(&mut tt, &chars_of(" "));
    spans.push(span(string_of(&tt), fg(ThemeColor::Muted)));
    let used = lw + left_pad + cw;
    let right_pad = if used + rw < total {
        total - (used + rw)
    } else {
        0
    };
    if right_pad > 0 {
        spans.push(span(string_of(&spaces_of(right_pad)), plain()));
    }
    let ghost before_right = spans@.map_values(|x: StyledSpan| span_v(x));
    let ghost r_v = right@.map_values(|x: StyledSpan| span_v(x));
    let mut right = right;
    spans.append(&mut right);
    assert(spans@.map_values(|x: StyledSpan| span_v(x)) =~= before_right + r_v);
    assert(spans@.map_values(|x: StyledSpan| span_v(x)) =~= status_spans(*app, width));
    Some(spans)
}

} // verus!
