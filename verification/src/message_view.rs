//! The message history as styled lines: markdown-ish text, tool calls,
//! reasoning, and the scroll position.

use vstd::prelude::*;

use crate::text::{
    byte_len, chars_of, cut_within, leading_ws, lines, lines_spec, slice, within_bytes,
    starts_with, starts_with_spec, string_of, trim_start, utf8_len_upto,
};
use crate::state::App;
use crate::text::last_index_of;
use crate::types::{InputField, Message, MessageWithParts, Part, ToolInput, ToolState};
use crate::view::decimal;
use crate::view::{
    bold, bold_style, fg, fg_style, inline_spans, italic, italic_style, lines_v, parse_inline_spans,
    plain, plain_style, push_blank, push_line, push_pair, push_single, span, span_cat, span_of,
    span_v, SpanStyle, StyledLine, StyledSpan, ThemeColor,
};

verus! {

// ───────────────────────── text content ─────────────────────────

/// A line that opens or closes a code block: it starts with three backticks
/// after its leading whitespace.
pub open spec fn is_fence(l: Seq<char>) -> bool {
    starts_with_spec(l.skip(leading_ws(l) as int), "```"@)
}

/// The rule drawn at each code fence.
pub open spec fn rule_line() -> Seq<(Seq<char>, SpanStyle)> {
    seq![("   --------"@, fg_style(ThemeColor::Muted))]
}

/// The style of code inside a block.
pub open spec fn code_block_style() -> SpanStyle {
    SpanStyle { fg: Some(ThemeColor::Warning), dim: true, ..plain_style() }
}

/// The lines shown for the text lines `ls`, `code` telling whether they start
/// inside a code block: fences become rules, code is indented as it is, other
/// lines are indented and their inline markup shown.
pub open spec fn text_lines_from(ls: Seq<Seq<char>>, code: bool) -> Seq<
    Seq<(Seq<char>, SpanStyle)>,
>
    decreases ls.len(),
{
    if ls.len() == 0 {
        Seq::empty()
    } else {
        let l = ls[0];
        let rest = ls.drop_first();
        if is_fence(l) {
            seq![rule_line()] + text_lines_from(rest, !code)
        } else if code {
            seq![seq![("   "@ + l, code_block_style())]] + text_lines_from(rest, code)
        } else {
            seq![seq![("   "@, plain_style())] + inline_spans(l)] + text_lines_from(rest, code)
        }
    }
}

/// The lines shown for a text part's content.
pub open spec fn text_content_lines(content: Seq<char>) -> Seq<Seq<(Seq<char>, SpanStyle)>> {
    text_lines_from(lines_spec(content), false)
}

/// Appends the lines shown for a text part's content.
pub fn render_text_content(content: &[char], out: &mut Vec<StyledLine>)
    ensures
        lines_v(final(out)@) == lines_v(old(out)@) + text_content_lines(content@),
{
    let ls = lines(content);
    let ghost l_spec = lines_spec(content@);
    let ghost base = lines_v(out@);
    let fence = chars_of("```");
    proof {
        reveal_strlit("```");
        reveal_strlit("   ");
        reveal_strlit("   --------");
    }
    let mut code = false;
    let mut i: usize = 0;
    assert(l_spec.skip(0) =~= l_spec);
    assert(lines_v(out@) + text_lines_from(l_spec, false) =~= base + text_lines_from(l_spec, false));
    while i < ls.len()
        invariant
            fence@ == "```"@,
            ls@.len() == l_spec.len(),
            forall|k: int| 0 <= k < ls@.len() ==> #[trigger] ls@[k]@ == l_spec[k],
            l_spec == lines_spec(content@),
            i <= ls@.len(),
            base + text_lines_from(l_spec, false) == lines_v(out@) + text_lines_from(
                l_spec.skip(i as int),
                code,
            ),
        decreases ls@.len() - i,
    {
        let ghost rest = l_spec.skip(i as int);
        let ghost before = lines_v(out@);
        assert(rest[0] == ls@[i as int]@);
        assert(rest.drop_first() =~= l_spec.skip(i + 1));
        let line = &ls[i];
        let ts = trim_start(line);
        if starts_with(&ts, &fence) {
            code = !code;
            push_single(out, span_of(&chars_of("   --------"), fg(ThemeColor::Muted)));
            assert(before + text_lines_from(rest, !code) =~= lines_v(out@) + text_lines_from(
                l_spec.skip(i + 1),
                code,
            ));
        } else if code {
            let style = SpanStyle { fg: Some(ThemeColor::Warning), dim: true, ..plain() };
            push_single(out, span_cat("   ", line, style));
            assert(before + text_lines_from(rest, code) =~= lines_v(out@) + text_lines_from(
                l_spec.skip(i + 1),
                code,
            ));
        } else {
            let spans = parse_inline_spans(line);
            let mut v: Vec<StyledSpan> = Vec::new();
            v.push(span(string_of(&chars_of("   ")), plain()));
            let ghost first = v@.map_values(|s: StyledSpan| span_v(s));
            assert(first =~= seq![("   "@, plain_style())]);
            assert(!code);
            assert(!is_fence(rest[0]));
            let mut spans = spans;
            let ghost sv = spans@.map_values(|s: StyledSpan| span_v(s));
            v.append(&mut spans);
            assert(v@.map_values(|s: StyledSpan| span_v(s)) =~= first + sv);
            push_line(out, v);
            assert(before + text_lines_from(rest, code) =~= lines_v(out@) + text_lines_from(
                l_spec.skip(i + 1),
                code,
            ));
        }
        i = i + 1;
    }
    assert(l_spec.skip(i as int) =~= Seq::<Seq<char>>::empty());
    assert(lines_v(out@) + text_lines_from(l_spec.skip(i as int), code) =~= lines_v(out@));
}

// ───────────────────────── parts ─────────────────────────

/// The view of an optional string.
pub open spec fn opt_view(o: Option<String>) -> Option<Seq<char>> {
    match o {
        Some(t) => Some(t@),
        None => None,
    }
}

/// The input of a tool call, whatever its state.
pub open spec fn tool_input(s: ToolState) -> Option<ToolInput> {
    match s {
        ToolState::Pending { input } => input,
        ToolState::Running { input, .. } => input,
        ToolState::Completed { input, .. } => input,
        ToolState::Error { input, .. } => input,
    }
}

/// The command shown for a tool call: the first of the input's `command`,
/// `file_path`, `path`, `url` and `pattern` keys that is present, when it holds
/// a string.
pub open spec fn tool_command(input: Option<ToolInput>) -> Option<Seq<char>> {
    match input {
        None => None,
        Some(i) => {
            let f = if !(i.command is Absent) {
                i.command
            } else if !(i.file_path is Absent) {
                i.file_path
            } else if !(i.path is Absent) {
                i.path
            } else if !(i.url is Absent) {
                i.url
            } else {
                i.pattern
            };
            match f {
                InputField::Text(t) => Some(t@),
                _ => None,
            }
        },
    }
}

/// The first line of a command (the command itself when it has no line).
pub open spec fn first_line(cmd: Seq<char>) -> Seq<char> {
    if lines_spec(cmd).len() > 0 {
        lines_spec(cmd)[0]
    } else {
        cmd
    }
}

/// The preview of a command: its first line after a space, cut at the last
/// character boundary at or before byte 57 and followed by an ellipsis when
/// longer than 60 bytes.
pub open spec fn preview(cmd: Seq<char>) -> Seq<char> {
    let fl = first_line(cmd);
    if byte_len(fl) > 60 {
        " "@ + within_bytes(fl, 57) + "..."@
    } else {
        " "@ + fl
    }
}

/// The icon and color of a tool call's state.
pub open spec fn tool_badge(s: ToolState) -> (Seq<char>, ThemeColor) {
    match s {
        ToolState::Pending { .. } => ("..."@, ThemeColor::ToolPending),
        ToolState::Running { .. } => ("=>"@, ThemeColor::ToolRunning),
        ToolState::Completed { .. } => ("ok"@, ThemeColor::ToolComplete),
        ToolState::Error { .. } => ("!!"@, ThemeColor::ToolError),
    }
}

/// The indented, muted lines of text lines `ls`: at most `max` of them, then
/// `more` when there are more.
pub open spec fn capped_lines(
    ls: Seq<Seq<char>>,
    max: int,
    indent: Seq<char>,
    more: Seq<char>,
    style: SpanStyle,
) -> Seq<Seq<(Seq<char>, SpanStyle)>> {
    let shown = if ls.len() > max {
        ls.take(max)
    } else {
        ls
    };
    shown.map_values(|l: Seq<char>| seq![(indent + l, style)]) + if ls.len() > max {
        seq![seq![(more, style)]]
    } else {
        Seq::empty()
    }
}

/// The lines shown for a tool call: a header with the state's icon, the tool's
/// name and the command's preview; the title and the first three lines of the
/// output once completed; the error once failed.
pub open spec fn tool_lines(tool: Option<Seq<char>>, state: ToolState) -> Seq<
    Seq<(Seq<char>, SpanStyle)>,
> {
    let name = match tool {
        Some(t) => t,
        None => "tool"@,
    };
    let (icon, color) = tool_badge(state);
    let cmd = tool_command(tool_input(state));
    let head = seq![
        ("   ["@ + icon + "] "@, bold_style(color)),
        (name, fg_style(color)),
    ] + match cmd {
        Some(c) => seq![(preview(c), fg_style(ThemeColor::Muted))],
        None => Seq::empty(),
    };
    let muted = fg_style(ThemeColor::Muted);
    let extra = match state {
        ToolState::Completed { title, output, .. } => (match title {
            Some(t) => seq![seq![("       "@ + t@, muted)]],
            None => Seq::empty(),
        }) + match output {
            Some(o) => capped_lines(lines_spec(o@), 3, "       "@, "       ... (truncated)"@, muted),
            None => Seq::empty(),
        },
        ToolState::Error { error, .. } => match error {
            Some(e) => seq![seq![("       "@ + e@, fg_style(ThemeColor::ToolError))]],
            None => Seq::empty(),
        },
        _ => Seq::empty(),
    };
    seq![head] + extra
}

/// The lines shown for a part of an assistant message.
pub open spec fn part_lines(p: Part) -> Seq<Seq<(Seq<char>, SpanStyle)>> {
    match p {
        Part::Text(tp) => match tp.text {
            Some(t) => text_content_lines(t@),
            None => Seq::empty(),
        },
        Part::Tool(tp) => tool_lines(opt_view(tp.tool), tp.state),
        Part::Reasoning(rp) => match rp.content {
            Some(c) => if c@.len() > 0 {
                let st = italic_style(ThemeColor::Muted);
                seq![seq![("   (reasoning)"@, st)]] + capped_lines(
                    lines_spec(c@),
                    2,
                    "   "@,
                    "   ..."@,
                    st,
                )
            } else {
                Seq::empty()
            },
            None => Seq::empty(),
        },
        Part::File(fp) => seq![
            seq![
                ("   [file] "@, fg_style(ThemeColor::Accent)),
                (
                    match fp.file_path {
                        Some(f) => f@,
                        None => "(unknown file)"@,
                    },
                    SpanStyle { fg: Some(ThemeColor::Fg), underlined: true, ..plain_style() },
                ),
            ],
        ],
        Part::StepStart(sp) => match sp.title {
            Some(t) => seq![seq![("   -- "@ + t@ + " --"@, fg_style(ThemeColor::Muted))]],
            None => Seq::empty(),
        },
        Part::Agent(ap) => seq![
            seq![
                ("   [..] "@, bold_style(ThemeColor::ToolRunning)),
                (
                    "Running agent: "@ + match ap.agent {
                        Some(a) => a@,
                        None => "subagent"@,
                    },
                    italic_style(ThemeColor::ToolRunning),
                ),
            ],
        ],
        _ => Seq::empty(),
    }
}

/// The command shown for a tool call's input.
fn command_of(input: &Option<ToolInput>) -> (r: Option<&String>)
    ensures
        match r {
            Some(s) => tool_command(*input) == Some(s@),
            None => tool_command(*input) is None,
        },
{
    match input {
        None => None,
        Some(i) => {
            let f = if !matches!(i.command, InputField::Absent) {
                &i.command
            } else if !matches!(i.file_path, InputField::Absent) {
                &i.file_path
            } else if !matches!(i.path, InputField::Absent) {
                &i.path
            } else if !matches!(i.url, InputField::Absent) {
                &i.url
            } else {
                &i.pattern
            };
            match f {
                InputField::Text(t) => Some(t),
                _ => None,
            }
        },
    }
}

/// The preview of a command.
fn command_preview(cmd: &str) -> (r: Vec<char>)
    ensures
        r@ == preview(cmd@),
{
    let v = chars_of(cmd);
    let ls = lines(&v);
    let fl = if ls.len() > 0 {
        slice(&ls[0], 0, ls[0].len())
    } else {
        slice(&v, 0, v.len())
    };
    assert(fl@ =~= first_line(cmd@));
    let mut out = chars_of(" ");
    proof {
        reveal_strlit(" ");
        reveal_strlit("...");
    }
    match utf8_len_upto(&fl, 60) {
        Some(_) => {
            crate::text::extend(&mut out, &fl);
        },
        None => {
            let cut = cut_within(&fl, 57);
            crate::text::extend(&mut out, &cut);
            crate::text::extend(&mut out, &chars_of("..."));
        },
    }
    out
}

/// Appends the lines `ls` indented by `indent` in `style`: at most `max` of
/// them, then `more` when there are more.
fn push_capped(
    out: &mut Vec<StyledLine>,
    ls: &Vec<Vec<char>>,
    max: usize,
    indent: &str,
    more: &str,
    style: SpanStyle,
)
    ensures
        lines_v(final(out)@) == lines_v(old(out)@) + capped_lines(
            ls@.map_values(|l: Vec<char>| l@),
            max as int,
            indent@,
            more@,
            style,
        ),
{
    let ghost lv = ls@.map_values(|l: Vec<char>| l@);
    let ghost base = lines_v(out@);
    let n = if ls.len() > max {
        max
    } else {
        ls.len()
    };
    let ghost shown = if lv.len() > max {
        lv.take(max as int)
    } else {
        lv
    };
    let ghost f = |l: Seq<char>| seq![(indent@ + l, style)];
    for i in 0..n
        invariant
            n <= ls@.len(),
            lv == ls@.map_values(|l: Vec<char>| l@),
            shown.len() == n,
            shown == (if lv.len() > max {
                lv.take(max as int)
            } else {
                lv
            }),
            f == (|l: Seq<char>| seq![(indent@ + l, style)]),
            lines_v(out@) == base + shown.take(i as int).map_values(f),
    {
        assert(shown[i as int] == ls@[i as int]@);
        push_single(out, span_cat(indent, &ls[i], style));
        assert(shown.take(i + 1).map_values(f) =~= shown.take(i as int).map_values(f).push(
            f(shown[i as int]),
        ));
    }
    assert(shown.take(n as int) =~= shown);
    if ls.len() > max {
        push_single(out, span(string_of(&chars_of(more)), style));
    }
    assert(lines_v(out@) =~= base + capped_lines(lv, max as int, indent@, more@, style));
}

/// Appends the lines shown for a part of an assistant message.
pub fn render_part(part: &Part, out: &mut Vec<StyledLine>)
    ensures
        lines_v(final(out)@) == lines_v(old(out)@) + part_lines(*part),
{
    let ghost base = lines_v(out@);
    proof {
        reveal_strlit("   ");
        reveal_strlit("       ");
    }
    match part {
        Part::Text(tp) => {
            if let Some(text) = &tp.text {
                render_text_content(&chars_of(text.as_str()), out);
            } else {
                assert(base + Seq::<Seq<(Seq<char>, SpanStyle)>>::empty() =~= base);
            }
        },
        Part::Tool(tp) => {
            let name: &str = match &tp.tool {
                Some(t) => t.as_str(),
                None => "tool",
            };
            let input = match &tp.state {
                ToolState::Pending { input } => input,
                ToolState::Running { input, .. } => input,
                ToolState::Completed { input, .. } => input,
                ToolState::Error { input, .. } => input,
            };
            let (icon, color): (&str, ThemeColor) = match &tp.state {
                ToolState::Pending { .. } => ("...", ThemeColor::ToolPending),
                ToolState::Running { .. } => ("=>", ThemeColor::ToolRunning),
                ToolState::Completed { .. } => ("ok", ThemeColor::ToolComplete),
                ToolState::Error { .. } => ("!!", ThemeColor::ToolError),
            };
            let mut badge = chars_of("   [");
            crate::text::extend(&mut badge, &chars_of(icon));
            crate::text::extend(&mut badge, &chars_of("] "));
            let mut spans: Vec<StyledSpan> = Vec::new();
            spans.push(span_of(&badge, bold(color)));
            spans.push(span(string_of(&chars_of(name)), fg(color)));
            let ghost head0 = spans@.map_values(|s: StyledSpan| span_v(s));
            match command_of(input) {
                Some(cmd) => {
                    let p = command_preview(cmd.as_str());
                    spans.push(span_of(&p, fg(ThemeColor::Muted)));
                },
                None => {},
            }
            let ghost head = spans@.map_values(|s: StyledSpan| span_v(s));
            let ghost tool_opt = opt_view(tp.tool);
            assert(head == tool_lines(tool_opt, tp.state)[0]);
            push_line(out, spans);
            let ghost after_head = lines_v(out@);
            let muted = fg(ThemeColor::Muted);
            match &tp.state {
                ToolState::Completed { title, output, .. } => {
                    if let Some(t) = title {
                        push_single(out, span_cat("       ", &chars_of(t.as_str()), muted));
                    }
                    let ghost after_title = lines_v(out@);
                    let ghost t_lines = match title {
                        Some(t) => seq![seq![("       "@ + t@, fg_style(ThemeColor::Muted))]],
                        None => Seq::<Seq<(Seq<char>, SpanStyle)>>::empty(),
                    };
                    assert(after_title =~= after_head + t_lines);
                    if let Some(o) = output {
                        let ls = lines(&chars_of(o.as_str()));
                        assert(ls@.map_values(|l: Vec<char>| l@) =~= lines_spec(o@));
                        push_capped(out, &ls, 3, "       ", "       ... (truncated)", muted);
                    }
                    let ghost o_lines = match output {
                        Some(o) => capped_lines(
                            lines_spec(o@),
                            3,
                            "       "@,
                            "       ... (truncated)"@,
                            fg_style(ThemeColor::Muted),
                        ),
                        None => Seq::<Seq<(Seq<char>, SpanStyle)>>::empty(),
                    };
                    assert(lines_v(out@) =~= after_title + o_lines);
                    assert(after_head =~= base + seq![head]);
                    assert(lines_v(out@) =~= base + tool_lines(opt_view(tp.tool), tp.state));
                },
                ToolState::Error { error, .. } => {
                    if let Some(e) = error {
                        push_single(
                            out,
                            span_cat("       ", &chars_of(e.as_str()), fg(ThemeColor::ToolError)),
                        );
                    }
                    assert(lines_v(out@) =~= base + tool_lines(opt_view(tp.tool), tp.state));
                },
                _ => {
                    assert(lines_v(out@) =~= base + tool_lines(opt_view(tp.tool), tp.state));
                },
            }
        },
        Part::Reasoning(rp) => {
            if let Some(c) = &rp.content {
                if !c.as_str().is_empty() {
                    let st = italic(ThemeColor::Muted);
                    push_single(out, span(string_of(&chars_of("   (reasoning)")), st));
                    let ls = lines(&chars_of(c.as_str()));
                    assert(ls@.map_values(|l: Vec<char>| l@) =~= lines_spec(c@));
                    push_capped(out, &ls, 2, "   ", "   ...", st);
                    assert(lines_v(out@) =~= base + part_lines(*part));
                } else {
                    assert(base + Seq::<Seq<(Seq<char>, SpanStyle)>>::empty() =~= base);
                }
            } else {
                assert(base + Seq::<Seq<(Seq<char>, SpanStyle)>>::empty() =~= base);
            }
        },
        Part::File(fp) => {
            let label: &str = match &fp.file_path {
                Some(f) => f.as_str(),
                None => "(unknown file)",
            };
            let ul = SpanStyle { fg: Some(ThemeColor::Fg), underlined: true, ..plain() };
            assert(ul == SpanStyle { fg: Some(ThemeColor::Fg), underlined: true, ..plain_style() });
            let a = span(string_of(&chars_of("   [file] ")), fg(ThemeColor::Accent));
            let b = span(string_of(&chars_of(label)), ul);
            let ghost row = seq![span_v(a), span_v(b)];
            assert(row == part_lines(*part)[0]);
            push_pair(out, a, b);
            assert(lines_v(out@) =~= base + part_lines(*part));
        },
        Part::StepStart(sp) => {
            if let Some(t) = &sp.title {
                let mut v = chars_of("   -- ");
                crate::text::extend(&mut v, &chars_of(t.as_str()));
                crate::text::extend(&mut v, &chars_of(" --"));
                push_single(out, span_of(&v, fg(ThemeColor::Muted)));
                assert(lines_v(out@) =~= base + part_lines(*part));
            } else {
                assert(base + Seq::<Seq<(Seq<char>, SpanStyle)>>::empty() =~= base);
            }
        },
        Part::Agent(ap) => {
            let name: &str = match &ap.agent {
                Some(a) => a.as_str(),
                None => "subagent",
            };
            let a = span(string_of(&chars_of("   [..] ")), bold(ThemeColor::ToolRunning));
            let b = span_cat("Running agent: ", &chars_of(name), italic(ThemeColor::ToolRunning));
            let ghost row = seq![span_v(a), span_v(b)];
            assert(row == part_lines(*part)[0]);
            push_pair(out, a, b);
            assert(lines_v(out@) =~= base + part_lines(*part));
        },
        _ => {
            assert(base + Seq::<Seq<(Seq<char>, SpanStyle)>>::empty() =~= base);
        },
    }
}

// ───────────────────────── messages ─────────────────────────

/// The lines of an assistant message's parts, in order.
pub open spec fn parts_lines(ps: Seq<Part>) -> Seq<Seq<(Seq<char>, SpanStyle)>>
    decreases ps.len(),
{
    if ps.len() == 0 {
        Seq::empty()
    } else {
        parts_lines(ps.drop_last()) + part_lines(ps.last())
    }
}

/// The lines of a user message's part: its text, line by line, indented.
pub open spec fn user_part_lines(p: Part) -> Seq<Seq<(Seq<char>, SpanStyle)>> {
    match p {
        Part::Text(tp) => match tp.text {
            Some(t) => lines_spec(t@).map_values(
                |l: Seq<char>| seq![("   "@ + l, fg_style(ThemeColor::UserMsg))],
            ),
            None => Seq::empty(),
        },
        _ => Seq::empty(),
    }
}

/// The lines of a user message's parts, in order.
pub open spec fn user_parts_lines(ps: Seq<Part>) -> Seq<Seq<(Seq<char>, SpanStyle)>>
    decreases ps.len(),
{
    if ps.len() == 0 {
        Seq::empty()
    } else {
        user_parts_lines(ps.drop_last()) + user_part_lines(ps.last())
    }
}

/// The token and cost line of an assistant message, shown when both are known.
pub open spec fn footer_lines(a: crate::types::AssistantMessage) -> Seq<
    Seq<(Seq<char>, SpanStyle)>,
> {
    match (a.tokens, a.cost) {
        (Some(t), Some(c)) => {
            let i = match t.input {
                Some(n) => n as nat,
                None => 0,
            };
            let o = match t.output {
                Some(n) => n as nat,
                None => 0,
            };
            seq![
                seq![
                    (
                        "   tokens: "@ + decimal(i) + "in / "@ + decimal(o) + "out | cost: $"@ + c@,
                        fg_style(ThemeColor::Muted),
                    ),
                ],
            ]
        },
        _ => Seq::empty(),
    }
}

/// The model an assistant message names in its header, or "assistant".
pub open spec fn model_label(a: crate::types::AssistantMessage) -> Seq<char> {
    match a.model_id {
        Some(x) => x@,
        None => "assistant"@,
    }
}

/// The error line of an assistant message, if it failed.
pub open spec fn error_lines(a: crate::types::AssistantMessage) -> Seq<
    Seq<(Seq<char>, SpanStyle)>,
> {
    match a.error {
        Some(e) => seq![seq![("   Error: "@ + e@, bold_style(ThemeColor::Error))]],
        None => Seq::empty(),
    }
}

/// The lines of one message: a blank line, a header (who and when), the
/// content, and for the assistant its token and cost line and its error.
pub open spec fn message_lines(m: MessageWithParts) -> Seq<Seq<(Seq<char>, SpanStyle)>> {
    match m.info {
        Message::User(u) => seq![
            Seq::empty(),
            seq![
                (" > You "@, bold_style(ThemeColor::UserMsg)),
                (u.time.created@, fg_style(ThemeColor::Muted)),
            ],
        ] + user_parts_lines(m.parts@),
        Message::Assistant(a) => seq![
            Seq::empty(),
            seq![
                (" "@ + model_label(a) + " "@, bold_style(ThemeColor::Accent)),
                (a.time.created@, fg_style(ThemeColor::Muted)),
            ],
        ] + parts_lines(m.parts@) + footer_lines(a) + error_lines(a),
    }
}

/// The lines of the messages, in order.
pub open spec fn messages_lines(ms: Seq<MessageWithParts>) -> Seq<Seq<(Seq<char>, SpanStyle)>>
    decreases ms.len(),
{
    if ms.len() == 0 {
        Seq::empty()
    } else {
        messages_lines(ms.drop_last()) + message_lines(ms.last())
    }
}

/// The message history: every message, then a thinking line while the session
/// is busy.
pub open spec fn history_lines(app: App) -> Seq<Seq<(Seq<char>, SpanStyle)>> {
    messages_lines(app.messages@) + if app.session_busy_spec() {
        seq![Seq::empty(), seq![("   Thinking..."@, italic_style(ThemeColor::Accent))]]
    } else {
        Seq::empty()
    }
}

fn push_user_parts(parts: &Vec<Part>, out: &mut Vec<StyledLine>)
    ensures
        lines_v(final(out)@) == lines_v(old(out)@) + user_parts_lines(parts@),
{
    let ghost base = lines_v(out@);
    proof {
        reveal_strlit("   ");
    }
    assert(parts@.take(0) =~= Seq::<Part>::empty());
    for i in 0..parts.len()
        invariant
            lines_v(out@) == base + user_parts_lines(parts@.take(i as int)),
    {
        assert(parts@.take(i + 1).drop_last() =~= parts@.take(i as int));
        let ghost mid = lines_v(out@);
        match &parts[i] {
            Part::Text(tp) => {
                if let Some(t) = &tp.text {
                    let ls = lines(&chars_of(t.as_str()));
                    let ghost lv = lines_spec(t@);
                    let ghost f = |l: Seq<char>| seq![("   "@ + l, fg_style(ThemeColor::UserMsg))];
                    for k in 0..ls.len()
                        invariant
                            ls@.len() == lv.len(),
                            forall|j: int| 0 <= j < ls@.len() ==> #[trigger] ls@[j]@ == lv[j],
                            f == (|l: Seq<char>| seq![("   "@ + l, fg_style(ThemeColor::UserMsg))]),
                            lines_v(out@) == mid + lv.take(k as int).map_values(f),
                    {
                        push_single(out, span_cat("   ", &ls[k], fg(ThemeColor::UserMsg)));
                        assert(lv.take(k + 1).map_values(f) =~= lv.take(k as int).map_values(f).push(
                            f(lv[k as int]),
                        ));
                    }
                    assert(lv.take(ls@.len() as int) =~= lv);
                } else {
                    assert(mid + Seq::<Seq<(Seq<char>, SpanStyle)>>::empty() =~= mid);
                }
            },
            _ => {
                assert(mid + Seq::<Seq<(Seq<char>, SpanStyle)>>::empty() =~= mid);
            },
        }
        assert(lines_v(out@) =~= base + user_parts_lines(parts@.take(i + 1)));
    }
    assert(parts@.take(parts@.len() as int) =~= parts@);
}

fn push_parts(parts: &Vec<Part>, out: &mut Vec<StyledLine>)
    ensures
        lines_v(final(out)@) == lines_v(old(out)@) + parts_lines(parts@),
{
    let ghost base = lines_v(out@);
    assert(parts@.take(0) =~= Seq::<Part>::empty());
    for i in 0..parts.len()
        invariant
            lines_v(out@) == base + parts_lines(parts@.take(i as int)),
    {
        assert(parts@.take(i + 1).drop_last() =~= parts@.take(i as int));
        render_part(&parts[i], out);
        assert(lines_v(out@) =~= base + parts_lines(parts@.take(i + 1)));
    }
    assert(parts@.take(parts@.len() as int) =~= parts@);
}

/// Appends the lines of one message.
pub fn render_message(m: &MessageWithParts, out: &mut Vec<StyledLine>)
    ensures
        lines_v(final(out)@) == lines_v(old(out)@) + message_lines(*m),
{
    let ghost base = lines_v(out@);
    push_blank(out);
    match &m.info {
        Message::User(u) => {
            push_pair(
                out,
                span(string_of(&chars_of(" > You ")), bold(ThemeColor::UserMsg)),
                span(u.time.created.clone(), fg(ThemeColor::Muted)),
            );
            let ghost head = lines_v(out@);
            let ghost hl = seq![
                (" > You "@, bold_style(ThemeColor::UserMsg)),
                (u.time.created@, fg_style(ThemeColor::Muted)),
            ];
            assert(head =~= base + seq![Seq::<(Seq<char>, SpanStyle)>::empty(), hl]);
            push_user_parts(&m.parts, out);
            assert(message_lines(*m) == seq![Seq::<(Seq<char>, SpanStyle)>::empty(), hl]
                + user_parts_lines(m.parts@));
            assert(lines_v(out@) =~= base + message_lines(*m));
        },
        Message::Assistant(a) => {
            let label: &str = match &a.model_id {
                Some(x) => x.as_str(),
                None => "assistant",
            };
            let mut h = chars_of(" ");
            crate::text::extend(&mut h, &chars_of(label));
            crate::text::extend(&mut h, &chars_of(" "));
            let sa = span_of(&h, bold(ThemeColor::Accent));
            let sb = span(a.time.created.clone(), fg(ThemeColor::Muted));
            push_pair(out, sa, sb);
            let ghost head = lines_v(out@);
            let ghost hl = seq![
                (" "@ + model_label(*a) + " "@, bold_style(ThemeColor::Accent)),
                (a.time.created@, fg_style(ThemeColor::Muted)),
            ];
            assert(h@ =~= " "@ + model_label(*a) + " "@);
            assert(head =~= base + seq![Seq::<(Seq<char>, SpanStyle)>::empty(), hl]);
            push_parts(&m.parts, out);
            let ghost after_parts = lines_v(out@);
            match (&a.tokens, &a.cost) {
                (Some(t), Some(c)) => {
                    let i = match t.input {
                        Some(n) => n,
                        None => 0,
                    };
                    let o = match t.output {
                        Some(n) => n,
                        None => 0,
                    };
                    let mut v = chars_of("   tokens: ");
                    crate::text::extend(&mut v, &crate::view::decimal_chars(i));
                    crate::text::extend(&mut v, &chars_of("in / "));
                    crate::text::extend(&mut v, &crate::view::decimal_chars(o));
                    crate::text::extend(&mut v, &chars_of("out | cost: $"));
                    crate::text::extend(&mut v, &chars_of(c.as_str()));
                    push_single(out, span_of(&v, fg(ThemeColor::Muted)));
                },
                _ => {},
            }
            assert(lines_v(out@) =~= after_parts + footer_lines(*a));
            let ghost after_footer = lines_v(out@);
            if let Some(e) = &a.error {
                push_single(out, span_cat("   Error: ", &chars_of(e.as_str()), bold(ThemeColor::Error)));
            }
            let ghost el = error_lines(*a);
            assert(lines_v(out@) =~= after_footer + el);
            assert(message_lines(*m) == seq![Seq::<(Seq<char>, SpanStyle)>::empty(), hl]
                + parts_lines(m.parts@) + footer_lines(*a) + el);
            assert(lines_v(out@) =~= base + message_lines(*m));
        },
    }
}

/// The lines of the message history (see `history_lines`).
pub fn render_history(app: &App) -> (r: Vec<StyledLine>)
    ensures
        lines_v(r@) == history_lines(*app),
{
    let mut out: Vec<StyledLine> = Vec::new();
    assert(lines_v(out@) =~= Seq::<Seq<(Seq<char>, SpanStyle)>>::empty());
    assert(app.messages@.take(0) =~= Seq::<MessageWithParts>::empty());
    for i in 0..app.messages.len()
        invariant
            lines_v(out@) == messages_lines(app.messages@.take(i as int)),
    {
        assert(app.messages@.take(i + 1).drop_last() =~= app.messages@.take(i as int));
        render_message(&app.messages[i], &mut out);
    }
    assert(app.messages@.take(app.messages@.len() as int) =~= app.messages@);
    let ghost all = lines_v(out@);
    if app.is_session_busy() {
        push_blank(&mut out);
        push_single(&mut out, span(string_of(&chars_of("   Thinking...")), italic(ThemeColor::Accent)));
    }
    assert(lines_v(out@) =~= history_lines(*app));
    out
}

// ───────────────────────── scrolling ─────────────────────────

/// The width on screen of a text (`ratatui`'s `Span::width`).
pub uninterp spec fn display_width(s: Seq<char>) -> nat;

/// The width of a span's text on screen (`Span::width` of `ratatui`, which
/// sums the Unicode widths of its characters). Stated: a function of the text
/// alone; left unsaid is which width each character has.
#[verifier::external_body]
pub(crate) fn span_width(s: &str) -> (w: usize)
    ensures
        w == display_width(s@),
{
    ratatui::text::Span::raw(s).width()
}

/// The width of a line: the sum of its spans' widths.
pub open spec fn line_width(l: Seq<(Seq<char>, SpanStyle)>) -> nat
    decreases l.len(),
{
    if l.len() == 0 {
        0
    } else {
        line_width(l.drop_last()) + display_width(l.last().0)
    }
}

/// The rows a line of width `w` takes when wrapped at `vw` columns (an empty
/// line takes one).
pub open spec fn line_rows(w: nat, vw: nat) -> nat {
    if w == 0 {
        1
    } else {
        ((w + vw - 1) / (vw as int)) as nat
    }
}

/// The rows the lines take when wrapped at `vw` columns.
pub open spec fn total_rows(ls: Seq<Seq<(Seq<char>, SpanStyle)>>, vw: nat) -> nat
    decreases ls.len(),
{
    if ls.len() == 0 {
        0
    } else {
        total_rows(ls.drop_last(), vw) + line_rows(line_width(ls.last()), vw)
    }
}

/// `a - b`, or 0 when `b` is larger.
pub open spec fn sat_sub(a: int, b: int) -> nat {
    if a > b {
        (a - b) as nat
    } else {
        0
    }
}

/// The lines can be measured in machine words: each line's width plus the
/// view width, and the total row count, fit in a `usize` (the widths are
/// rounded up to whole rows by adding the view width).
pub open spec fn rows_fit(ls: Seq<Seq<(Seq<char>, SpanStyle)>>, vw: nat) -> bool {
    &&& forall|i: int| 0 <= i < ls.len() ==> line_width(#[trigger] ls[i]) + vw <= usize::MAX
    &&& total_rows(ls, vw) <= usize::MAX
}

/// The first row shown of the history, counted from the top, when it is
/// `scroll` rows above its end and `height` rows are visible.
pub open spec fn scroll_top(total: nat, height: nat, scroll: nat) -> nat {
    sat_sub(sat_sub(total as int, height as int) as int, scroll as int)
}

fn line_width_of(l: &StyledLine, vw: usize) -> (r: Option<usize>)
    requires
        vw >= 1,
    ensures
        match r {
            Some(w) => w == line_width(crate::view::line_v(*l)) && w + vw <= usize::MAX,
            None => line_width(crate::view::line_v(*l)) + vw > usize::MAX,
        },
{
    let ghost lv = crate::view::line_v(*l);
    let mut w: usize = 0;
    assert(lv.take(0) =~= Seq::<(Seq<char>, SpanStyle)>::empty());
    for i in 0..l.spans.len()
        invariant
            vw >= 1,
            lv == crate::view::line_v(*l),
            lv.len() == l.spans@.len(),
            w == line_width(lv.take(i as int)),
            w + vw <= usize::MAX,
    {
        assert(lv.take(i + 1).drop_last() =~= lv.take(i as int));
        assert(lv[i as int].0 == l.spans@[i as int].text@);
        let sw = span_width(l.spans[i].text.as_str());
        if sw > usize::MAX - vw - w {
            proof {
                lemma_line_width_mono(lv, i + 1);
            }
            return None;
        }
        w = w + sw;
    }
    assert(lv.take(lv.len() as int) =~= lv);
    Some(w)
}

proof fn lemma_line_width_mono(l: Seq<(Seq<char>, SpanStyle)>, k: int)
    requires
        0 <= k <= l.len(),
    ensures
        line_width(l.take(k)) <= line_width(l),
    decreases l.len() - k,
{
    if k < l.len() {
        lemma_line_width_mono(l, k + 1);
        assert(l.take(k + 1).drop_last() =~= l.take(k));
    } else {
        assert(l.take(k) =~= l);
    }
}

proof fn lemma_total_rows_mono(ls: Seq<Seq<(Seq<char>, SpanStyle)>>, vw: nat, k: int)
    requires
        0 <= k <= ls.len(),
    ensures
        total_rows(ls.take(k), vw) <= total_rows(ls, vw),
    decreases ls.len() - k,
{
    if k < ls.len() {
        lemma_total_rows_mono(ls, vw, k + 1);
        assert(ls.take(k + 1).drop_last() =~= ls.take(k));
    } else {
        assert(ls.take(k) =~= ls);
    }
}

/// The first row to show of the history lines (counted from the top, as the
/// view shows it) for a view `width` by `height` scrolled `scroll` rows up from
/// the end; `None` when the measures overflow a machine word.
pub fn history_scroll_top(lines: &Vec<StyledLine>, width: u16, height: u16, scroll: usize) -> (r:
    Option<u16>)
    ensures
        ({
            let vw: nat = if width > 0 {
                width as nat
            } else {
                1
            };
            let ls = lines_v(lines@);
            if rows_fit(ls, vw) {
                r == Some(scroll_top(total_rows(ls, vw), height as nat, scroll as nat) as u16)
            } else {
                r is None
            }
        }),
{
    let vw: usize = if width > 0 {
        width as usize
    } else {
        1
    };
    let ghost ls = lines_v(lines@);
    let mut total: usize = 0;
    assert(ls.take(0) =~= Seq::<Seq<(Seq<char>, SpanStyle)>>::empty());
    for i in 0..lines.len()
        invariant
            vw >= 1,
            vw == (if width > 0 {
                width as nat
            } else {
                1
            }),
            ls == lines_v(lines@),
            ls.len() == lines@.len(),
            total == total_rows(ls.take(i as int), vw as nat),
            forall|j: int| 0 <= j < i ==> line_width(#[trigger] ls[j]) + vw <= usize::MAX,
    {
        assert(ls.take(i + 1).drop_last() =~= ls.take(i as int));
        assert(ls[i as int] == crate::view::line_v(lines@[i as int]));
        let w = match line_width_of(&lines[i], vw) {
            Some(w) => w,
            None => {
                return None;
            },
        };
        assert(w + vw <= usize::MAX);
        let rows: usize = if w == 0 {
            1
        } else {
            (w + vw - 1) / vw
        };
        if rows > usize::MAX - total {
            proof {
                lemma_total_rows_mono(ls, vw as nat, i + 1);
            }
            return None;
        }
        total = total + rows;
    }
    assert(ls.take(ls.len() as int) =~= ls);
    let visible = height as usize;
    let max_scroll = total.saturating_sub(visible);
    let top = max_scroll.saturating_sub(scroll);
    Some(#[verifier::truncate] (top as u16))
}

// ───────────────────────── welcome ─────────────────────────

/// The name the welcome screen shows: the last component of the project's path,
/// or "rustycode".
pub open spec fn welcome_name(app: App) -> Seq<char> {
    match app.project {
        Some(p) => match p.path {
            Some(path) => path@.skip(last_index_of(path@, '/') + 1),
            None => "rustycode"@,
        },
        None => "rustycode"@,
    }
}

/// The shortcuts the welcome screen lists: (keys, what they do).
pub open spec fn welcome_shortcuts() -> Seq<(Seq<char>, Seq<char>)> {
    seq![
        ("Enter"@, " Send message"@),
        ("Shift+Enter"@, " New line"@),
        ("Ctrl+O"@, " Open sessions"@),
        ("Ctrl+N"@, " New session"@),
        ("Ctrl+B"@, " Toggle sidebar"@),
        ("Ctrl+K"@, " Switch model"@),
        ("Ctrl+P"@, " Command palette"@),
        ("F1"@, " Help"@),
        ("Esc"@, " Quit"@),
    ]
}

/// The welcome screen's lines, without the padding above them.
pub open spec fn welcome_content(app: App) -> Seq<Seq<(Seq<char>, SpanStyle)>> {
    seq![seq![(welcome_name(app), bold_style(ThemeColor::Fg))], Seq::empty()]
        + welcome_shortcuts().map_values(
        |kd: (Seq<char>, Seq<char>)|
            seq![(kd.0, bold_style(ThemeColor::Accent)), (kd.1, fg_style(ThemeColor::Muted))],
    ) + seq![
        Seq::empty(),
        seq![("Type below to start a conversation."@, fg_style(ThemeColor::Muted))],
    ]
}

/// The welcome screen shown when no message is open: its lines, after blank
/// lines that center them in a view `height` rows high.
pub open spec fn welcome_lines(app: App, height: u16) -> Seq<Seq<(Seq<char>, SpanStyle)>> {
    let pad = sat_sub(height as int, 13) / 2;
    Seq::new(pad, |i: int| Seq::<(Seq<char>, SpanStyle)>::empty()) + welcome_content(app)
}

/// The welcome screen's lines (see `welcome_lines`).
pub fn render_welcome(app: &App, height: u16) -> (r: Vec<StyledLine>)
    ensures
        lines_v(r@) == welcome_lines(*app, height),
{
    let mut out: Vec<StyledLine> = Vec::new();
    let pad = height.saturating_sub(13) / 2;
    let mut k: u16 = 0;
    while k < pad
        invariant
            k <= pad,
            pad == sat_sub(height as int, 13) / 2,
            lines_v(out@) == Seq::new(k as nat, |i: int| Seq::<(Seq<char>, SpanStyle)>::empty()),
        decreases pad - k,
    {
        push_blank(&mut out);
        assert(Seq::new((k + 1) as nat, |i: int| Seq::<(Seq<char>, SpanStyle)>::empty()) =~= Seq::new(
            k as nat,
            |i: int| Seq::<(Seq<char>, SpanStyle)>::empty(),
        ).push(Seq::empty()));
        k = k + 1;
    }
    let ghost padding = lines_v(out@);
    let name: Vec<char> = match &app.project {
        Some(p) => match &p.path {
            Some(path) => {
                let pv = chars_of(path.as_str());
                let n = pv.len();
                match crate::text::rfind_char(&pv, '/') {
                    Some(i) => {
                        assert(i < n);
                        slice(&pv, i + 1, n)
                    },
                    None => slice(&pv, 0, pv.len()),
                }
            },
            None => chars_of("rustycode"),
        },
        None => chars_of("rustycode"),
    };
    assert(name@ =~= welcome_name(*app));
    push_single(&mut out, span_of(&name, bold(ThemeColor::Fg)));
    push_blank(&mut out);
    let keys: [&str; 9] = [
        "Enter",
        "Shift+Enter",
        "Ctrl+O",
        "Ctrl+N",
        "Ctrl+B",
        "Ctrl+K",
        "Ctrl+P",
        "F1",
        "Esc",
    ];
    let descs: [&str; 9] = [
        " Send message",
        " New line",
        " Open sessions",
        " New session",
        " Toggle sidebar",
        " Switch model",
        " Command palette",
        " Help",
        " Quit",
    ];
    let ghost sc = welcome_shortcuts();
    assert(keys@.len() == 9 && descs@.len() == 9);
    assert(forall|j: int| 0 <= j < 9 ==> (#[trigger] keys@[j])@ == sc[j].0 && descs@[j]@ == sc[j].1);
    let ghost f = |kd: (Seq<char>, Seq<char>)|
        seq![(kd.0, bold_style(ThemeColor::Accent)), (kd.1, fg_style(ThemeColor::Muted))];
    let ghost head = lines_v(out@);
    for j in 0..9
        invariant
            keys@.len() == 9,
            descs@.len() == 9,
            sc == welcome_shortcuts(),
            sc.len() == 9,
            forall|j: int| 0 <= j < 9 ==> (#[trigger] keys@[j])@ == sc[j].0 && descs@[j]@ == sc[j].1,
            f == (|kd: (Seq<char>, Seq<char>)|
                seq![(kd.0, bold_style(ThemeColor::Accent)), (kd.1, fg_style(ThemeColor::Muted))]),
            lines_v(out@) == head + sc.take(j as int).map_values(f),
    {
        assert(keys@[j as int]@ == sc[j as int].0);
        push_pair(
            &mut out,
            span(string_of(&chars_of(keys[j])), bold(ThemeColor::Accent)),
            span(string_of(&chars_of(descs[j])), fg(ThemeColor::Muted)),
        );
        assert(sc.take(j + 1).map_values(f) =~= sc.take(j as int).map_values(f).push(
            f(sc[j as int]),
        ));
    }
    assert(sc.take(9) =~= sc);
    push_blank(&mut out);
    push_single(
        &mut out,
        span(string_of(&chars_of("Type below to start a conversation.")), fg(ThemeColor::Muted)),
    );
    assert(lines_v(out@) =~= welcome_lines(*app, height));
    out
}

} // verus!
