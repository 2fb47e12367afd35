//! What the dialogs show: their lists, with the entry to highlight, and the
//! permission and question prompts.

use vstd::prelude::*;

use crate::filters::{
    command_filter, entry_view, filtered_commands, filtered_models, model_entries_spec, ModelEntry,
};
use crate::state::App;
use crate::text::{chars_of, lines, lines_spec, lowercase, str_eq, string_of, to_lowercase};
use crate::themes::{builtin_theme, theme_spec, THEME_COUNT};
use crate::types::{Command, PermissionRequest, QuestionOption, QuestionRequest, Session, SessionStatus};
use crate::view::{
    bold, bold_style, decimal, decimal_chars, fg, fg_style, lines_v, plain, plain_style, push_blank,
    push_line, push_single, span, span_cat, span_v, SpanStyle, StyledLine, StyledSpan, ThemeColor,
};

verus! {

/// A list's highlighted entry: the selection, moved back onto the last entry.
pub open spec fn clamp_selection(sel: usize, n: nat) -> usize {
    if sel < n {
        sel
    } else if n > 0 {
        (n - 1) as usize
    } else {
        0
    }
}

/// A list's highlighted entry (see `clamp_selection`).
pub fn clamped_selection(sel: usize, n: usize) -> (r: usize)
    ensures
        r == clamp_selection(sel, n as nat),
{
    let last = n.saturating_sub(1);
    if sel < last {
        sel
    } else {
        last
    }
}

/// Appends a span of `text` to `v`.
fn add_span(v: &mut Vec<StyledSpan>, text: Vec<char>, style: SpanStyle)
    ensures
        final(v)@.map_values(|x: StyledSpan| span_v(x)) == old(v)@.map_values(
            |x: StyledSpan| span_v(x),
        ).push((text@, style)),
{
    let ghost prev = v@;
    v.push(span(string_of(&text), style));
    assert(v@.map_values(|x: StyledSpan| span_v(x)) =~= prev.map_values(|x: StyledSpan| span_v(x)).push(
        (text@, style),
    ));
}

/// `a` followed by `b`, as characters.
fn cat(a: &str, b: &str) -> (r: Vec<char>)
    ensures
        r@ == a@ + b@,
{
    let mut v = chars_of(a);
    crate::text::extend(&mut v, &chars_of(b));
    v
}

// ───────────────────────── sessions ─────────────────────────

/// The title shown for a session: its own, else its summary's, else "New Session".
pub open spec fn session_label(s: Session) -> Seq<char> {
    match s.title {
        Some(t) => t@,
        None => match s.summary {
            Some(sm) => match sm.title {
                Some(t) => t@,
                None => "New Session"@,
            },
            None => "New Session"@,
        },
    }
}

/// The title shown for a session.
pub fn session_label_of(s: &Session) -> (r: Vec<char>)
    ensures
        r@ == session_label(*s),
{
    match &s.title {
        Some(t) => chars_of(t.as_str()),
        None => match &s.summary {
            Some(sm) => match &sm.title {
                Some(t) => chars_of(t.as_str()),
                None => chars_of("New Session"),
            },
            None => chars_of("New Session"),
        },
    }
}

/// The session with id `id` is the current one.
pub open spec fn is_current_session(app: App, id: Seq<char>) -> bool {
    app.current_session matches Some(c) && c.id@ == id
}

/// The status a session's icon shows: busy, retrying, or neither.
pub open spec fn status_of(app: App, id: Seq<char>) -> Option<SessionStatus> {
    if app.session_statuses@.contains_key(id) {
        Some(app.session_statuses@[id])
    } else {
        None
    }
}

/// An entry of the session picker: status icon, title (highlighted when
/// current), a mark for the current one, and the last update.
pub open spec fn session_entry(app: App, s: Session) -> Seq<(Seq<char>, SpanStyle)> {
    let cur = is_current_session(app, s.id@);
    let icon = match status_of(app, s.id@) {
        Some(SessionStatus::Busy) => "[*] "@,
        Some(SessionStatus::Retry { .. }) => "[r] "@,
        _ => "    "@,
    };
    seq![
        (icon, fg_style(ThemeColor::Muted)),
        (session_label(s), if cur {
            bold_style(ThemeColor::Accent)
        } else {
            fg_style(ThemeColor::Fg)
        }),
        (if cur {
            " (current)"@
        } else {
            ""@
        }, fg_style(ThemeColor::Muted)),
        ("  "@ + s.time.updated@, fg_style(ThemeColor::Muted)),
    ]
}

/// The session picker's lines: one entry per session, or a note when there is none.
pub open spec fn session_dialog_lines(app: App) -> Seq<Seq<(Seq<char>, SpanStyle)>> {
    if app.sessions@.len() == 0 {
        seq![seq![("  No sessions available"@, fg_style(ThemeColor::Muted))]]
    } else {
        app.sessions@.map_values(|s: Session| session_entry(app, s))
    }
}

fn is_current_of(app: &App, id: &str) -> (r: bool)
    ensures
        r == is_current_session(*app, id@),
{
    match &app.current_session {
        Some(c) => str_eq(c.id.as_str(), id),
        None => false,
    }
}

/// The session picker's lines (see `session_dialog_lines`).
pub fn session_dialog(app: &App) -> (r: Vec<StyledLine>)
    ensures
        lines_v(r@) == session_dialog_lines(*app),
{
    let mut out: Vec<StyledLine> = Vec::new();
    if app.sessions.len() == 0 {
        push_single(&mut out, span(string_of(&chars_of("  No sessions available")), fg(ThemeColor::Muted)));
        assert(lines_v(out@) =~= session_dialog_lines(*app));
        return out;
    }
    let ghost f = |s: Session| session_entry(*app, s);
    assert(lines_v(out@) =~= app.sessions@.take(0).map_values(f));
    for i in 0..app.sessions.len()
        invariant
            f == (|s: Session| session_entry(*app, s)),
            lines_v(out@) == app.sessions@.take(i as int).map_values(f),
    {
        let s = &app.sessions[i];
        let cur = is_current_of(app, s.id.as_str());
        let icon: &str = match app.session_statuses.get(s.id.as_str()) {
            Some(SessionStatus::Busy) => "[*] ",
            Some(SessionStatus::Retry { .. }) => "[r] ",
            _ => "    ",
        };
        let mut v: Vec<StyledSpan> = Vec::new();
        add_span(&mut v, chars_of(icon), fg(ThemeColor::Muted));
        add_span(&mut v, session_label_of(s), if cur {
            bold(ThemeColor::Accent)
        } else {
            fg(ThemeColor::Fg)
        });
        add_span(&mut v, chars_of(if cur {
            " (current)"
        } else {
            ""
        }), fg(ThemeColor::Muted));
        add_span(&mut v, cat("  ", s.time.updated.as_str()), fg(ThemeColor::Muted));
        assert(v@.map_values(|x: StyledSpan| span_v(x)) =~= f(*s));
        push_line(&mut out, v);
        assert(app.sessions@.take(i + 1).map_values(f) =~= app.sessions@.take(i as int).map_values(
            f,
        ).push(f(app.sessions@[i as int])));
    }
    assert(app.sessions@.take(app.sessions@.len() as int) =~= app.sessions@);
    out
}

// ───────────────────────── models ─────────────────────────

/// The model picker's search line: the filter, or a hint when it is empty.
pub open spec fn model_search_line(app: App) -> (Seq<char>, SpanStyle) {
    if app.dialog_filter@.len() == 0 {
        (" Type to search models..."@, fg_style(ThemeColor::Muted))
    } else {
        (" "@ + app.dialog_filter@, fg_style(ThemeColor::Fg))
    }
}

/// The entry `e` (provider id, provider name, model id, model name) is the
/// chosen model.
pub open spec fn is_chosen(app: App, e: (Seq<char>, Seq<char>, Seq<char>, Seq<char>)) -> bool {
    app.current_model matches Some((p, m)) && p@ == e.0 && m@ == e.2
}

/// An entry of the model picker: the model's name (marked when chosen) and its
/// provider's name.
pub open spec fn model_entry_line(app: App, e: (Seq<char>, Seq<char>, Seq<char>, Seq<char>)) -> Seq<
    (Seq<char>, SpanStyle),
> {
    let cur = is_chosen(app, e);
    seq![
        ("  "@ + e.3, if cur {
            bold_style(ThemeColor::Success)
        } else {
            fg_style(ThemeColor::Fg)
        }),
        ("  ("@ + e.1 + ")"@, fg_style(ThemeColor::Muted)),
        (if cur {
            " *"@
        } else {
            ""@
        }, fg_style(ThemeColor::Success)),
    ]
}

/// What the model picker shows.
pub struct ModelDialogView {
    /// The search line.
    pub search: StyledSpan,
    /// The title, with the number of matching models.
    pub title: String,
    pub items: Vec<StyledLine>,
    /// The highlighted entry.
    pub selected: usize,
}

/// The model picker's contents: the search line, a title counting the matching
/// models, one entry per matching model (or a note when none matches), and
/// the highlighted entry.
pub fn model_dialog(app: &App) -> (r: ModelDialogView)
    ensures
        span_v(r.search) == model_search_line(*app),
        r.title@ == " Models ("@ + decimal(model_entries_spec(*app).len()) + ") "@,
        lines_v(r.items@) == (if model_entries_spec(*app).len() == 0 {
            seq![seq![("  No matching models"@, fg_style(ThemeColor::Muted))]]
        } else {
            model_entries_spec(*app).map_values(
                |e: (Seq<char>, Seq<char>, Seq<char>, Seq<char>)| model_entry_line(*app, e),
            )
        }),
        r.selected == clamp_selection(app.dialog_selected, model_entries_spec(*app).len()),
{
    let entries = filtered_models(app);
    let ghost es = model_entries_spec(*app);
    assert(entries@.len() == entries@.map_values(|e: ModelEntry| entry_view(e)).len());
    let search = if app.dialog_filter.as_str().is_empty() {
        span(string_of(&chars_of(" Type to search models...")), fg(ThemeColor::Muted))
    } else {
        span(string_of(&cat(" ", app.dialog_filter.as_str())), fg(ThemeColor::Fg))
    };
    let mut t = chars_of(" Models (");
    crate::text::extend(&mut t, &decimal_chars(entries.len() as u64));
    crate::text::extend(&mut t, &chars_of(") "));
    let mut out: Vec<StyledLine> = Vec::new();
    if entries.len() == 0 {
        push_single(&mut out, span(string_of(&chars_of("  No matching models")), fg(ThemeColor::Muted)));
        assert(lines_v(out@) =~= seq![seq![("  No matching models"@, fg_style(ThemeColor::Muted))]]);
    } else {
        let ghost f = |e: (Seq<char>, Seq<char>, Seq<char>, Seq<char>)| model_entry_line(*app, e);
        assert(lines_v(out@) =~= es.take(0).map_values(f));
        for i in 0..entries.len()
            invariant
                es == model_entries_spec(*app),
                entries@.map_values(|e: ModelEntry| entry_view(e)) == es,
                f == (|e: (Seq<char>, Seq<char>, Seq<char>, Seq<char>)| model_entry_line(*app, e)),
                lines_v(out@) == es.take(i as int).map_values(f),
        {
            let e = &entries[i];
            assert(entry_view(*e) == es[i as int]);
            let cur = match &app.current_model {
                Some((p, m)) => str_eq(p.as_str(), e.provider_id.as_str()) && str_eq(
                    m.as_str(),
                    e.model_id.as_str(),
                ),
                None => false,
            };
            let mut v: Vec<StyledSpan> = Vec::new();
            add_span(&mut v, cat("  ", e.model_name.as_str()), if cur {
                bold(ThemeColor::Success)
            } else {
                fg(ThemeColor::Fg)
            });
            let mut pn = cat("  (", e.provider_name.as_str());
            pn.push(')');
            add_span(&mut v, pn, fg(ThemeColor::Muted));
            add_span(&mut v, chars_of(if cur {
                " *"
            } else {
                ""
            }), fg(ThemeColor::Success));
            proof {
                reveal_strlit(")");
            }
            assert(cur == is_chosen(*app, es[i as int]));
            assert(pn@ =~= "  ("@ + es[i as int].1 + ")"@);
            assert(v@.map_values(|x: StyledSpan| span_v(x)) =~= f(es[i as int]));
            push_line(&mut out, v);
            assert(es.take(i + 1).map_values(f) =~= es.take(i as int).map_values(f).push(
                f(es[i as int]),
            ));
        }
        assert(es.take(es.len() as int) =~= es);
    }
    let selected = clamped_selection(app.dialog_selected, entries.len());
    ModelDialogView { search, title: string_of(&t), items: out, selected }
}

// ───────────────────────── commands ─────────────────────────

/// The command palette's filter line.
pub open spec fn command_filter_line(app: App) -> Seq<(Seq<char>, SpanStyle)> {
    seq![
        ("> "@, fg_style(ThemeColor::Accent)),
        if app.dialog_filter@.len() == 0 {
            ("Type to filter..."@, fg_style(ThemeColor::Muted))
        } else {
            (app.dialog_filter@, fg_style(ThemeColor::Fg))
        },
    ]
}

/// An entry of the command palette: name, shortcut in brackets, description.
pub open spec fn command_entry(c: Command) -> Seq<(Seq<char>, SpanStyle)> {
    seq![
        ("  "@ + c.name@, fg_style(ThemeColor::Fg)),
        (
            match c.shortcut {
                Some(k) => "  ["@ + k@ + "]"@,
                None => ""@,
            },
            SpanStyle { fg: Some(ThemeColor::Accent), dim: true, ..plain_style() },
        ),
        (
            "  "@ + match c.description {
                Some(d) => d@,
                None => ""@,
            },
            fg_style(ThemeColor::Muted),
        ),
    ]
}

/// The commands the palette lists.
pub open spec fn listed_commands(app: App) -> Seq<Command> {
    app.commands@.filter(command_filter(lowercase(app.dialog_filter@)))
}

/// What the command palette shows.
pub struct CommandDialogView {
    pub filter_line: Vec<StyledSpan>,
    pub items: Vec<StyledLine>,
    pub selected: usize,
}

/// The command palette's contents: the filter line, one entry per listed
/// command (or a note when none is), and the highlighted entry.
pub fn command_dialog(app: &App) -> (r: CommandDialogView)
    ensures
        r.filter_line@.map_values(|x: StyledSpan| span_v(x)) == command_filter_line(*app),
        lines_v(r.items@) == (if listed_commands(*app).len() == 0 {
            seq![seq![("  No matching commands"@, fg_style(ThemeColor::Muted))]]
        } else {
            listed_commands(*app).map_values(|c: Command| command_entry(c))
        }),
        r.selected == clamp_selection(app.dialog_selected, listed_commands(*app).len()),
{
    let mut fl: Vec<StyledSpan> = Vec::new();
    add_span(&mut fl, chars_of("> "), fg(ThemeColor::Accent));
    if app.dialog_filter.as_str().is_empty() {
        add_span(&mut fl, chars_of("Type to filter..."), fg(ThemeColor::Muted));
    } else {
        add_span(&mut fl, chars_of(app.dialog_filter.as_str()), fg(ThemeColor::Fg));
    }
    assert(fl@.map_values(|x: StyledSpan| span_v(x)) =~= command_filter_line(*app));
    let cmds = filtered_commands(app);
    let ghost cs = listed_commands(*app);
    assert(cmds@.len() == cmds@.map_values(|c: &Command| *c).len());
    let mut out: Vec<StyledLine> = Vec::new();
    if cmds.len() == 0 {
        push_single(&mut out, span(string_of(&chars_of("  No matching commands")), fg(ThemeColor::Muted)));
        assert(lines_v(out@) =~= seq![seq![("  No matching commands"@, fg_style(ThemeColor::Muted))]]);
    } else {
        let ghost f = |c: Command| command_entry(c);
        assert(lines_v(out@) =~= cs.take(0).map_values(f));
        for i in 0..cmds.len()
            invariant
                cs == listed_commands(*app),
                cmds@.map_values(|c: &Command| *c) == cs,
                f == (|c: Command| command_entry(c)),
                lines_v(out@) == cs.take(i as int).map_values(f),
        {
            let c = cmds[i];
            assert(*c == cs[i as int]);
            let mut v: Vec<StyledSpan> = Vec::new();
            add_span(&mut v, cat("  ", c.name.as_str()), fg(ThemeColor::Fg));
            let sc = match &c.shortcut {
                Some(k) => {
                    let mut x = cat("  [", k.as_str());
                    x.push(']');
                    x
                },
                None => chars_of(""),
            };
            let dim = SpanStyle { fg: Some(ThemeColor::Accent), dim: true, ..plain() };
            assert(dim == SpanStyle { fg: Some(ThemeColor::Accent), dim: true, ..plain_style() });
            add_span(&mut v, sc, dim);
            let d: &str = match &c.description {
                Some(d) => d.as_str(),
                None => "",
            };
            add_span(&mut v, cat("  ", d), fg(ThemeColor::Muted));
            proof {
                reveal_strlit("]");
            }
            assert(sc@ =~= match cs[i as int].shortcut {
                Some(k) => "  ["@ + k@ + "]"@,
                None => ""@,
            });
            assert(v@.map_values(|x: StyledSpan| span_v(x)) =~= f(cs[i as int]));
            push_line(&mut out, v);
            assert(cs.take(i + 1).map_values(f) =~= cs.take(i as int).map_values(f).push(
                f(cs[i as int]),
            ));
        }
        assert(cs.take(cs.len() as int) =~= cs);
    }
    let selected = clamped_selection(app.dialog_selected, cmds.len());
    CommandDialogView { filter_line: fl, items: out, selected }
}

// ───────────────────────── themes ─────────────────────────

/// An entry of the theme picker: the theme's name, marked when it is the one
/// in use (names compared ignoring case).
pub open spec fn theme_entry(app: App, i: int) -> Seq<(Seq<char>, SpanStyle)> {
    let name = theme_spec(i).name@;
    let cur = lowercase(name) == lowercase(app.theme_name@);
    seq![
        ("  "@ + name, if cur {
            bold_style(ThemeColor::Success)
        } else {
            fg_style(ThemeColor::Fg)
        }),
        (if cur {
            " *"@
        } else {
            ""@
        }, fg_style(ThemeColor::Success)),
    ]
}

/// The theme picker's lines and highlighted entry.
pub fn theme_dialog(app: &App) -> (r: (Vec<StyledLine>, usize))
    ensures
        lines_v(r.0@) == Seq::new(THEME_COUNT as nat, |i: int| theme_entry(*app, i)),
        r.1 == clamp_selection(app.dialog_selected, THEME_COUNT as nat),
{
    let mine = to_lowercase(app.theme_name.as_str());
    let mut out: Vec<StyledLine> = Vec::new();
    let ghost f = |i: int| theme_entry(*app, i);
    assert(lines_v(out@) =~= Seq::new(0, f));
    for i in 0..THEME_COUNT
        invariant
            mine@ == lowercase(app.theme_name@),
            f == (|i: int| theme_entry(*app, i)),
            lines_v(out@) == Seq::new(i as nat, f),
    {
        let t = builtin_theme(i);
        let lt = to_lowercase(t.name);
        let cur = str_eq(lt.as_str(), mine.as_str());
        let mut v: Vec<StyledSpan> = Vec::new();
        add_span(&mut v, cat("  ", t.name), if cur {
            bold(ThemeColor::Success)
        } else {
            fg(ThemeColor::Fg)
        });
        add_span(&mut v, chars_of(if cur {
            " *"
        } else {
            ""
        }), fg(ThemeColor::Success));
        assert(v@.map_values(|x: StyledSpan| span_v(x)) =~= f(i as int));
        push_line(&mut out, v);
        assert(Seq::new((i + 1) as nat, f) =~= Seq::new(i as nat, f).push(f(i as int)));
    }
    (out, clamped_selection(app.dialog_selected, THEME_COUNT))
}

// ───────────────────────── permission ─────────────────────────

/// The head of the permission prompt: a blank line and the tool.
pub open spec fn perm_head(p: PermissionRequest) -> Seq<Seq<(Seq<char>, SpanStyle)>> {
    let tool = match p.permission {
        Some(t) => t@,
        None => "unknown"@,
    };
    seq![
        Seq::empty(),
        seq![("  Tool: "@, bold_style(ThemeColor::Accent)), (tool, fg_style(ThemeColor::Fg))],
    ]
}

/// The command patterns of the permission prompt, when there are any.
pub open spec fn perm_commands(p: PermissionRequest) -> Seq<Seq<(Seq<char>, SpanStyle)>> {
    match p.patterns {
        Some(ps) => if ps@.len() > 0 {
            seq![Seq::empty(), seq![("  Command:"@, bold_style(ThemeColor::Accent))]]
                + pattern_lines(ps@)
        } else {
            Seq::empty()
        },
        None => Seq::empty(),
    }
}

/// The description of the permission prompt, when there is one.
pub open spec fn perm_description(p: PermissionRequest) -> Seq<Seq<(Seq<char>, SpanStyle)>> {
    match p.description {
        Some(d) => seq![Seq::empty(), seq![("  "@ + d@, fg_style(ThemeColor::Muted))]],
        None => Seq::empty(),
    }
}

/// The patterns to always allow, when there are any.
pub open spec fn perm_always(p: PermissionRequest) -> Seq<Seq<(Seq<char>, SpanStyle)>> {
    match p.always {
        Some(a) => if a@.len() > 0 {
            seq![
                Seq::empty(),
                seq![
                    ("  Always pattern: "@, fg_style(ThemeColor::Muted)),
                    (joined(a@.map_values(|s: String| s@)), fg_style(ThemeColor::Muted)),
                ],
            ]
        } else {
            Seq::empty()
        },
        None => Seq::empty(),
    }
}

/// The keys that answer the permission prompt.
pub open spec fn perm_keys() -> Seq<Seq<(Seq<char>, SpanStyle)>> {
    seq![
        Seq::empty(),
        Seq::empty(),
        seq![
            ("  [y] "@, bold_style(ThemeColor::Success)),
            ("Allow once"@, fg_style(ThemeColor::Fg)),
            ("    "@, plain_style()),
            ("[a] "@, bold_style(ThemeColor::Accent)),
            ("Always allow"@, fg_style(ThemeColor::Fg)),
            ("    "@, plain_style()),
            ("[n] "@, bold_style(ThemeColor::Error)),
            ("Reject"@, fg_style(ThemeColor::Fg)),
        ],
    ]
}

/// The lines of the permission prompt for request `p`: the tool, the command
/// patterns line by line, the description, the patterns to always allow, and
/// the keys to answer.
pub open spec fn permission_lines(p: PermissionRequest) -> Seq<Seq<(Seq<char>, SpanStyle)>> {
    perm_head(p) + perm_commands(p) + perm_description(p) + perm_always(p) + perm_keys()
}

/// The lines of the command patterns: each line of each pattern, indented.
pub open spec fn pattern_lines(ps: Seq<String>) -> Seq<Seq<(Seq<char>, SpanStyle)>>
    decreases ps.len(),
{
    if ps.len() == 0 {
        Seq::empty()
    } else {
        pattern_lines(ps.drop_last()) + lines_spec(ps.last()@).map_values(
            |l: Seq<char>| seq![("    "@ + l, fg_style(ThemeColor::Warning))],
        )
    }
}

/// Strings joined by ", ".
pub open spec fn joined(ss: Seq<Seq<char>>) -> Seq<char>
    decreases ss.len(),
{
    if ss.len() == 0 {
        Seq::empty()
    } else if ss.len() == 1 {
        ss[0]
    } else {
        joined(ss.drop_last()) + ", "@ + ss.last()
    }
}

fn join_strings(ss: &Vec<String>) -> (r: Vec<char>)
    ensures
        r@ == joined(ss@.map_values(|s: String| s@)),
{
    let ghost sv = ss@.map_values(|s: String| s@);
    let mut out: Vec<char> = Vec::new();
    assert(sv.take(0) =~= Seq::<Seq<char>>::empty());
    for i in 0..ss.len()
        invariant
            sv == ss@.map_values(|s: String| s@),
            out@ == joined(sv.take(i as int)),
    {
        assert(sv.take(i + 1).drop_last() =~= sv.take(i as int));
        assert(sv.take(i + 1).last() == ss@[i as int]@);
        if i > 0 {
            crate::text::extend(&mut out, &chars_of(", "));
        } else {
            assert(sv.take(1)[0] == sv[0]);
        }
        crate::text::extend(&mut out, &chars_of(ss[i].as_str()));
    }
    assert(sv.take(ss@.len() as int) =~= sv);
    out
}

fn push_perm_head(p: &PermissionRequest, out: &mut Vec<StyledLine>)
    ensures
        lines_v(final(out)@) == lines_v(old(out)@) + perm_head(*p),
{
    let ghost base = lines_v(out@);
    push_blank(out);
    let tool: &str = match &p.permission {
        Some(t) => t.as_str(),
        None => "unknown",
    };
    let mut v: Vec<StyledSpan> = Vec::new();
    add_span(&mut v, chars_of("  Tool: "), bold(ThemeColor::Accent));
    add_span(&mut v, chars_of(tool), fg(ThemeColor::Fg));
    assert(v@.map_values(|x: StyledSpan| span_v(x)) =~= perm_head(*p)[1]);
    push_line(out, v);
    assert(lines_v(out@) =~= base + perm_head(*p));
}

fn push_perm_commands(p: &PermissionRequest, out: &mut Vec<StyledLine>)
    ensures
        lines_v(final(out)@) == lines_v(old(out)@) + perm_commands(*p),
{
    let ghost start = lines_v(out@);
    if let Some(ps) = &p.patterns {
        if ps.len() > 0 {
            push_blank(out);
            push_single(out, span(string_of(&chars_of("  Command:")), bold(ThemeColor::Accent)));
            let ghost base = lines_v(out@);
            assert(ps@.take(0) =~= Seq::<String>::empty());
            for i in 0..ps.len()
                invariant
                    lines_v(out@) == base + pattern_lines(ps@.take(i as int)),
            {
                assert(ps@.take(i + 1).drop_last() =~= ps@.take(i as int));
                let ls = lines(&chars_of(ps[i].as_str()));
                let ghost lv = lines_spec(ps@[i as int]@);
                let ghost g = |l: Seq<char>| seq![("    "@ + l, fg_style(ThemeColor::Warning))];
                let ghost mid = lines_v(out@);
                for k in 0..ls.len()
                    invariant
                        ls@.len() == lv.len(),
                        forall|j: int| 0 <= j < ls@.len() ==> #[trigger] ls@[j]@ == lv[j],
                        g == (|l: Seq<char>| seq![("    "@ + l, fg_style(ThemeColor::Warning))]),
                        lines_v(out@) == mid + lv.take(k as int).map_values(g),
                {
                    push_single(out, crate::view::span_cat("    ", &ls[k], fg(ThemeColor::Warning)));
                    assert(lv.take(k + 1).map_values(g) =~= lv.take(k as int).map_values(g).push(
                        g(lv[k as int]),
                    ));
                }
                assert(lv.take(ls@.len() as int) =~= lv);
                assert(lines_v(out@) =~= base + pattern_lines(ps@.take(i + 1)));
            }
            assert(ps@.take(ps@.len() as int) =~= ps@);
            assert(lines_v(out@) =~= start + perm_commands(*p));
        } else {
            assert(lines_v(out@) =~= start + perm_commands(*p));
        }
    } else {
        assert(lines_v(out@) =~= start + perm_commands(*p));
    }
}

fn push_perm_rest(p: &PermissionRequest, out: &mut Vec<StyledLine>)
    ensures
        lines_v(final(out)@) == lines_v(old(out)@) + perm_description(*p) + perm_always(*p),
{
    let ghost start = lines_v(out@);
    if let Some(d) = &p.description {
        push_blank(out);
        push_single(out, span(string_of(&cat("  ", d.as_str())), fg(ThemeColor::Muted)));
    }
    assert(lines_v(out@) =~= start + perm_description(*p));
    let ghost mid = lines_v(out@);
    if let Some(a) = &p.always {
        if a.len() > 0 {
            push_blank(out);
            let mut w: Vec<StyledSpan> = Vec::new();
            add_span(&mut w, chars_of("  Always pattern: "), fg(ThemeColor::Muted));
            let js = join_strings(a);
            let ghost jv = js@;
            add_span(&mut w, js, fg(ThemeColor::Muted));
            assert(w@.map_values(|x: StyledSpan| span_v(x)) =~= seq![
                ("  Always pattern: "@, fg_style(ThemeColor::Muted)),
                (jv, fg_style(ThemeColor::Muted)),
            ]);
            push_line(out, w);
        }
    }
    assert(lines_v(out@) =~= mid + perm_always(*p));
}

fn push_perm_keys(out: &mut Vec<StyledLine>)
    ensures
        lines_v(final(out)@) == lines_v(old(out)@) + perm_keys(),
{
    let ghost start = lines_v(out@);
    push_blank(out);
    push_blank(out);
    let mut h: Vec<StyledSpan> = Vec::new();
    add_span(&mut h, chars_of("  [y] "), bold(ThemeColor::Success));
    add_span(&mut h, chars_of("Allow once"), fg(ThemeColor::Fg));
    add_span(&mut h, chars_of("    "), plain());
    add_span(&mut h, chars_of("[a] "), bold(ThemeColor::Accent));
    add_span(&mut h, chars_of("Always allow"), fg(ThemeColor::Fg));
    add_span(&mut h, chars_of("    "), plain());
    add_span(&mut h, chars_of("[n] "), bold(ThemeColor::Error));
    add_span(&mut h, chars_of("Reject"), fg(ThemeColor::Fg));
    assert(h@.map_values(|x: StyledSpan| span_v(x)) =~= perm_keys()[2]);
    push_line(out, h);
    assert(lines_v(out@) =~= start + perm_keys());
}

/// The permission prompt's lines: for the oldest pending request, or a note
/// when none is pending.
pub fn permission_dialog(app: &App) -> (r: Vec<StyledLine>)
    ensures
        lines_v(r@) == (if app.pending_permissions@.len() > 0 {
            permission_lines(app.pending_permissions@[0])
        } else {
            seq![seq![("  No pending permission requests."@, plain_style())]]
        }),
{
    let mut out: Vec<StyledLine> = Vec::new();
    if app.pending_permissions.len() == 0 {
        push_single(&mut out, span(string_of(&chars_of("  No pending permission requests.")), plain()));
        assert(lines_v(out@) =~= seq![seq![("  No pending permission requests."@, plain_style())]]);
        return out;
    }
    let p = &app.pending_permissions[0];
    assert(lines_v(out@) =~= Seq::<Seq<(Seq<char>, SpanStyle)>>::empty());
    push_perm_head(p, &mut out);
    push_perm_commands(p, &mut out);
    push_perm_rest(p, &mut out);
    push_perm_keys(&mut out);
    assert(lines_v(out@) =~= permission_lines(app.pending_permissions@[0]));
    out
}

// ───────────────────────── questions ─────────────────────────

/// The rows the question text gets: its length in bytes (modulo 2^16) over the
/// width, plus two, at most six.
pub open spec fn question_height_spec(len: nat, width: u16) -> u16 {
    let w: int = if width > 0 {
        width as int
    } else {
        1
    };
    let h = ((len % 65536) as int) / w + 2;
    (if h < 6 {
        h
    } else {
        6
    }) as u16
}

/// The rows the question text gets (see `question_height_spec`).
pub fn question_height(q: &QuestionRequest, width: u16) -> (r: u16)
    requires
        crate::text::byte_len(q.question@) <= usize::MAX,
        width <= 1 ==> crate::text::byte_len(q.question@) % 65536 + 2 <= u16::MAX,
    ensures
        r == question_height_spec(crate::text::byte_len(q.question@), width),
{
    let len = q.question.as_str().len();
    let t = #[verifier::truncate] (len as u16);
    assert(t == len % 65536) by (bit_vector)
        requires
            t == #[verifier::truncate] (len as u16),
    ;
    let w: u16 = if width > 0 {
        width
    } else {
        1
    };
    assert(t / w <= t) by (nonlinear_arith)
        requires
            w >= 1,
    ;
    if w == 1 {
        assert(t / w == t) by (nonlinear_arith)
            requires
                w == 1,
        ;
    } else {
        assert(t / w <= t / 2) by (nonlinear_arith)
            requires
                w >= 2,
        ;
    }
    let h = t / w + 2;
    if h < 6 {
        h
    } else {
        6
    }
}

/// An option of a question: a check box (multi-select) or a radio button,
/// filled when selected, then its label.
pub open spec fn option_entry(multi: bool, o: QuestionOption) -> Seq<(Seq<char>, SpanStyle)> {
    let sel = o.selected == Some(true);
    let mark = if multi {
        if sel {
            "[x] "@
        } else {
            "[ ] "@
        }
    } else if sel {
        "(*) "@
    } else {
        "( ) "@
    };
    seq![
        (mark, fg_style(if sel {
            ThemeColor::Success
        } else {
            ThemeColor::Muted
        })),
        (o.label@, fg_style(ThemeColor::Fg)),
    ]
}

/// What the question dialog shows of a question.
pub struct QuestionDialogView {
    /// The options (none when the question has no options).
    pub items: Vec<StyledLine>,
    pub selected: usize,
    /// The key hint above the options.
    pub hint: String,
}

/// The question dialog's options for `q`, the highlighted one and the key hint.
pub fn question_dialog(q: &QuestionRequest, dialog_selected: usize) -> (r: QuestionDialogView)
    ensures
        ({
            let multi = q.multi_select == Some(true);
            &&& lines_v(r.items@) == match q.options {
                Some(os) => os@.map_values(|o: QuestionOption| option_entry(multi, o)),
                None => Seq::empty(),
            }
            &&& r.selected == clamp_selection(dialog_selected, match q.options {
                Some(os) => os@.len(),
                None => 0,
            })
            &&& r.hint@ == (if multi {
                " (Space: toggle, Enter: confirm, Esc: cancel) "@
            } else {
                " (Enter: select, Esc: cancel) "@
            })
        }),
{
    let multi = match q.multi_select {
        Some(b) => b,
        None => false,
    };
    let mut out: Vec<StyledLine> = Vec::new();
    let mut n: usize = 0;
    if let Some(os) = &q.options {
        let ghost f = |o: QuestionOption| option_entry(multi, o);
        assert(lines_v(out@) =~= os@.take(0).map_values(f));
        for i in 0..os.len()
            invariant
                f == (|o: QuestionOption| option_entry(multi, o)),
                lines_v(out@) == os@.take(i as int).map_values(f),
        {
            let o = &os[i];
            let sel = match o.selected {
                Some(b) => b,
                None => false,
            };
            let mark: &str = if multi {
                if sel {
                    "[x] "
                } else {
                    "[ ] "
                }
            } else if sel {
                "(*) "
            } else {
                "( ) "
            };
            let mut v: Vec<StyledSpan> = Vec::new();
            add_span(&mut v, chars_of(mark), fg(if sel {
                ThemeColor::Success
            } else {
                ThemeColor::Muted
            }));
            add_span(&mut v, chars_of(o.label.as_str()), fg(ThemeColor::Fg));
            assert(v@.map_values(|x: StyledSpan| span_v(x)) =~= f(os@[i as int]));
            push_line(&mut out, v);
            assert(os@.take(i + 1).map_values(f) =~= os@.take(i as int).map_values(f).push(
                f(os@[i as int]),
            ));
        }
        assert(os@.take(os@.len() as int) =~= os@);
        n = os.len();
    } else {
        assert(lines_v(out@) =~= Seq::<Seq<(Seq<char>, SpanStyle)>>::empty());
    }
    let hint = if multi {
        string_of(&chars_of(" (Space: toggle, Enter: confirm, Esc: cancel) "))
    } else {
        string_of(&chars_of(" (Enter: select, Esc: cancel) "))
    };
    QuestionDialogView { items: out, selected: clamped_selection(dialog_selected, n), hint }
}

} // verus!
