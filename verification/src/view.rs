//! Styled text: what the screen shows, as lines of spans whose colors are named
//! by their role in the theme.

use vstd::prelude::*;

use crate::text::{
    chars_of, find, find_spec, index_of, find_char, leading_ws, lines, lines_spec, slice,
    starts_with, starts_with_spec, string_of, trim_start,
};

verus! {

/// A color of the theme, by its role.
#[derive(Debug, Clone, Copy, PartialEq, Eq, Structural)]
pub enum ThemeColor {
    Bg,
    Fg,
    Accent,
    Border,
    Selection,
    UserMsg,
    AssistantMsg,
    Error,
    Warning,
    Success,
    Muted,
    ToolPending,
    ToolRunning,
    ToolComplete,
    ToolError,
}

/// How a span is drawn.
#[derive(Debug, Clone, Copy, PartialEq, Eq, Structural)]
pub struct SpanStyle {
    pub fg: Option<ThemeColor>,
    pub bg: Option<ThemeColor>,
    pub bold: bool,
    pub italic: bool,
    pub dim: bool,
    pub underlined: bool,
}

/// A run of text drawn in one style.
#[derive(Debug)]
pub struct StyledSpan {
    pub text: String,
    pub style: SpanStyle,
}

/// One line of spans.
#[derive(Debug)]
pub struct StyledLine {
    pub spans: Vec<StyledSpan>,
}

/// The view of a span: its characters and its style.
pub open spec fn span_v(s: StyledSpan) -> (Seq<char>, SpanStyle) {
    (s.text@, s.style)
}

/// The view of a line: its spans' views.
pub open spec fn line_v(l: StyledLine) -> Seq<(Seq<char>, SpanStyle)> {
    l.spans@.map_values(|s: StyledSpan| span_v(s))
}

/// The views of lines.
pub open spec fn lines_v(ls: Seq<StyledLine>) -> Seq<Seq<(Seq<char>, SpanStyle)>> {
    ls.map_values(|l: StyledLine| line_v(l))
}

// ───────────────────────── styles ─────────────────────────

/// The default style: no color of its own, no modifier.
pub open spec fn plain_style() -> SpanStyle {
    SpanStyle { fg: None, bg: None, bold: false, italic: false, dim: false, underlined: false }
}

/// Foreground `c`.
pub open spec fn fg_style(c: ThemeColor) -> SpanStyle {
    SpanStyle { fg: Some(c), ..plain_style() }
}

/// Foreground `c`, bold.
pub open spec fn bold_style(c: ThemeColor) -> SpanStyle {
    SpanStyle { fg: Some(c), bold: true, ..plain_style() }
}

/// Foreground `c`, italic.
pub open spec fn italic_style(c: ThemeColor) -> SpanStyle {
    SpanStyle { fg: Some(c), italic: true, ..plain_style() }
}

/// The default style.
pub fn plain() -> (s: SpanStyle)
    ensures
        s == plain_style(),
{
    SpanStyle { fg: None, bg: None, bold: false, italic: false, dim: false, underlined: false }
}

/// Foreground `c`.
pub fn fg(c: ThemeColor) -> (s: SpanStyle)
    ensures
        s == fg_style(c),
{
    SpanStyle { fg: Some(c), ..plain() }
}

/// Foreground `c`, bold.
pub fn bold(c: ThemeColor) -> (s: SpanStyle)
    ensures
        s == bold_style(c),
{
    SpanStyle { fg: Some(c), bold: true, ..plain() }
}

/// Foreground `c`, italic.
pub fn italic(c: ThemeColor) -> (s: SpanStyle)
    ensures
        s == italic_style(c),
{
    SpanStyle { fg: Some(c), italic: true, ..plain() }
}

// ───────────────────────── building lines ─────────────────────────

/// A span of `text` in `style`.
pub fn span(text: String, style: SpanStyle) -> (s: StyledSpan)
    ensures
        span_v(s) == (text@, style),
{
    StyledSpan { text, style }
}

/// A span of the characters `text`.
pub fn span_of(text: &[char], style: SpanStyle) -> (s: StyledSpan)
    ensures
        span_v(s) == (text@, style),
{
    StyledSpan { text: string_of(text), style }
}

/// A span of the characters `a` followed by `b`.
pub fn span_cat(a: &str, b: &[char], style: SpanStyle) -> (s: StyledSpan)
    ensures
        span_v(s) == (a@ + b@, style),
{
    let mut v = chars_of(a);
    crate::text::extend(&mut v, b);
    StyledSpan { text: string_of(&v), style }
}

/// Appends the line made of `spans`.
pub fn push_line(out: &mut Vec<StyledLine>, spans: Vec<StyledSpan>)
    ensures
        lines_v(final(out)@) == lines_v(old(out)@).push(spans@.map_values(|s: StyledSpan| span_v(s))),
{
    let l = StyledLine { spans };
    let ghost prev = out@;
    out.push(l);
    assert(lines_v(out@) =~= lines_v(prev).push(line_v(l)));
}

/// Appends an empty line.
pub fn push_blank(out: &mut Vec<StyledLine>)
    ensures
        lines_v(final(out)@) == lines_v(old(out)@).push(Seq::empty()),
{
    let v: Vec<StyledSpan> = Vec::new();
    push_line(out, v);
    assert(v@.map_values(|s: StyledSpan| span_v(s)) =~= Seq::<(Seq<char>, SpanStyle)>::empty());
}

/// Appends a line of one span.
pub fn push_single(out: &mut Vec<StyledLine>, s: StyledSpan)
    ensures
        lines_v(final(out)@) == lines_v(old(out)@).push(seq![span_v(s)]),
{
    let ghost sv = span_v(s);
    let mut v: Vec<StyledSpan> = Vec::new();
    v.push(s);
    assert(v@.map_values(|s: StyledSpan| span_v(s)) =~= seq![sv]);
    push_line(out, v);
}

/// Appends a line of two spans.
pub fn push_pair(out: &mut Vec<StyledLine>, a: StyledSpan, b: StyledSpan)
    ensures
        lines_v(final(out)@) == lines_v(old(out)@).push(seq![span_v(a), span_v(b)]),
{
    let ghost av = span_v(a);
    let ghost bv = span_v(b);
    let mut v: Vec<StyledSpan> = Vec::new();
    v.push(a);
    v.push(b);
    assert(v@.map_values(|s: StyledSpan| span_v(s)) =~= seq![av, bv]);
    push_line(out, v);
}

// ───────────────────────── numbers ─────────────────────────

/// The decimal digit `d`.
pub open spec fn digit_char(d: nat) -> char {
    if d == 0 {
        '0'
    } else if d == 1 {
        '1'
    } else if d == 2 {
        '2'
    } else if d == 3 {
        '3'
    } else if d == 4 {
        '4'
    } else if d == 5 {
        '5'
    } else if d == 6 {
        '6'
    } else if d == 7 {
        '7'
    } else if d == 8 {
        '8'
    } else {
        '9'
    }
}

/// `n` in decimal.
pub open spec fn decimal(n: nat) -> Seq<char>
    decreases n,
{
    if n < 10 {
        seq![digit_char(n)]
    } else {
        decimal(n / 10).push(digit_char(n % 10))
    }
}

fn digit_of(d: u64) -> (c: char)
    requires
        d < 10,
    ensures
        c == digit_char(d as nat),
{
    if d == 0 {
        '0'
    } else if d == 1 {
        '1'
    } else if d == 2 {
        '2'
    } else if d == 3 {
        '3'
    } else if d == 4 {
        '4'
    } else if d == 5 {
        '5'
    } else if d == 6 {
        '6'
    } else if d == 7 {
        '7'
    } else if d == 8 {
        '8'
    } else {
        '9'
    }
}

/// The decimal digits of `n`.
pub fn decimal_chars(n: u64) -> (r: Vec<char>)
    ensures
        r@ == decimal(n as nat),
    decreases n,
{
    if n < 10 {
        let mut v = Vec::new();
        v.push(digit_of(n));
        v
    } else {
        let mut v = decimal_chars(n / 10);
        v.push(digit_of(n % 10));
        v
    }
}

// ───────────────────────── inline markup ─────────────────────────

/// The kind of a piece of a text line.
pub open spec fn normal_text() -> SpanStyle {
    fg_style(ThemeColor::AssistantMsg)
}

/// Bold text, between `**` markers.
pub open spec fn bold_text() -> SpanStyle {
    bold_style(ThemeColor::AssistantMsg)
}

/// Code, between backticks.
pub open spec fn code_text() -> SpanStyle {
    SpanStyle { fg: Some(ThemeColor::Warning), bg: Some(ThemeColor::Selection), ..plain_style() }
}

/// The spans of a line of assistant text: `**bold**` and `` `code` `` are marked,
/// whichever marker comes first being taken first; an opening marker without
/// its closing one is shown as it is, ending the line.
pub open spec fn inline_spans(r: Seq<char>) -> Seq<(Seq<char>, SpanStyle)>
    decreases r.len(),
{
    if r.len() == 0 {
        Seq::empty()
    } else {
        let p = find_spec(r, "**"@);
        let q = index_of(r, '`');
        let code_first = 0 <= q && q < r.len() && q < p;
        if 0 <= p && p + 2 <= r.len() && !code_first {
            let pre = if p > 0 {
                seq![(r.take(p), normal_text())]
            } else {
                Seq::empty()
            };
            let after = r.skip(p + 2);
            let e = find_spec(after, "**"@);
            if 0 <= e && e + 2 <= after.len() {
                pre + seq![(after.take(e), bold_text())] + inline_spans(after.skip(e + 2))
            } else {
                pre + seq![(r.skip(p), normal_text())]
            }
        } else if 0 <= q && q < r.len() {
            let pre = if q > 0 {
                seq![(r.take(q), normal_text())]
            } else {
                Seq::empty()
            };
            let after = r.skip(q + 1);
            let e = index_of(after, '`');
            if 0 <= e && e < after.len() {
                pre + seq![(after.take(e), code_text())] + inline_spans(after.skip(e + 1))
            } else {
                pre + seq![(r.skip(q), normal_text())]
            }
        } else {
            seq![(r, normal_text())]
        }
    }
}

/// Splits a line of assistant text into spans (see `inline_spans`).
pub fn parse_inline_spans(line: &[char]) -> (r: Vec<StyledSpan>)
    ensures
        r@.map_values(|s: StyledSpan| span_v(s)) == inline_spans(line@),
{
    let mut out: Vec<StyledSpan> = Vec::new();
    let mut rem: Vec<char> = slice(line, 0, line.len());
    let stars = chars_of("**");
    proof {
        reveal_strlit("**");
    }
    assert(stars@ =~= seq!['*', '*']);
    assert(rem@ =~= line@);
    assert(out@.map_values(|s: StyledSpan| span_v(s)) =~= Seq::<(Seq<char>, SpanStyle)>::empty());
    loop
        invariant_except_break
            stars@ == "**"@,
            stars@ == seq!['*', '*'],
            inline_spans(line@) == out@.map_values(|s: StyledSpan| span_v(s)) + inline_spans(rem@),
        ensures
            inline_spans(line@) == out@.map_values(|s: StyledSpan| span_v(s)),
        decreases rem@.len(),
    {
        let ghost prev = out@.map_values(|s: StyledSpan| span_v(s));
        let ghost r0 = rem@;
        if rem.len() == 0 {
            assert(prev + inline_spans(r0) =~= prev);
            break;
        }
        let code_at = find_char(&rem, '`');
        let bold_at: Option<usize> = match find(&rem, &stars) {
            Some(p) => match code_at {
                Some(q) => if q < p {
                    None
                } else {
                    Some(p)
                },
                None => Some(p),
            },
            None => None,
        };
        match bold_at {
            Some(pos) => {
                let ghost pre = if pos > 0 {
                    seq![(r0.take(pos as int), normal_text())]
                } else {
                    Seq::<(Seq<char>, SpanStyle)>::empty()
                };
                if pos > 0 {
                    out.push(span_of(&slice(&rem, 0, pos), fg(ThemeColor::AssistantMsg)));
                }
                assert(out@.map_values(|s: StyledSpan| span_v(s)) =~= prev + pre);
                let after = slice(&rem, pos + 2, rem.len());
                assert(after@ =~= r0.skip(pos + 2));
                match find(&after, &stars) {
                    Some(end) => {
                        out.push(span_of(&slice(&after, 0, end), bold(ThemeColor::AssistantMsg)));
                        let next = slice(&after, end + 2, after.len());
                        assert(next@ =~= after@.skip(end + 2));
                        assert(out@.map_values(|s: StyledSpan| span_v(s)) =~= prev + pre + seq![
                            (after@.take(end as int), bold_text()),
                        ]);
                        rem = next;
                    },
                    None => {
                        out.push(span_of(&slice(&rem, pos, rem.len()), fg(ThemeColor::AssistantMsg)));
                        assert(out@.map_values(|s: StyledSpan| span_v(s)) =~= prev + pre + seq![
                            (r0.skip(pos as int), normal_text()),
                        ]);
                        break;
                    },
                }
            },
            None => {
                match code_at {
                    Some(pos) => {
                        let ghost pre = if pos > 0 {
                            seq![(r0.take(pos as int), normal_text())]
                        } else {
                            Seq::<(Seq<char>, SpanStyle)>::empty()
                        };
                        if pos > 0 {
                            out.push(span_of(&slice(&rem, 0, pos), fg(ThemeColor::AssistantMsg)));
                        }
                        assert(out@.map_values(|s: StyledSpan| span_v(s)) =~= prev + pre);
                        let after = slice(&rem, pos + 1, rem.len());
                        assert(after@ =~= r0.skip(pos + 1));
                        match find_char(&after, '`') {
                            Some(end) => {
                                let code = SpanStyle {
                                    fg: Some(ThemeColor::Warning),
                                    bg: Some(ThemeColor::Selection),
                                    ..plain()
                                };
                                out.push(span_of(&slice(&after, 0, end), code));
                                let next = slice(&after, end + 1, after.len());
                                assert(next@ =~= after@.skip(end + 1));
                                assert(out@.map_values(|s: StyledSpan| span_v(s)) =~= prev + pre
                                    + seq![(after@.take(end as int), code_text())]);
                                rem = next;
                            },
                            None => {
                                out.push(
                                    span_of(&slice(&rem, pos, rem.len()), fg(ThemeColor::AssistantMsg)),
                                );
                                assert(out@.map_values(|s: StyledSpan| span_v(s)) =~= prev + pre
                                    + seq![(r0.skip(pos as int), normal_text())]);
                                break;
                            },
                        }
                    },
                    None => {
                        out.push(span_of(&rem, fg(ThemeColor::AssistantMsg)));
                        assert(out@.map_values(|s: StyledSpan| span_v(s)) =~= prev + seq![
                            (r0, normal_text()),
                        ]);
                        break;
                    },
                }
            },
        }
    }
    out
}

} // verus!
