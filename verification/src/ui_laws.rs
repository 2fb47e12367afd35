//! Properties of the pickers, the message view, the key handling and the
//! server routes, stated over what the operations are for.

use vstd::prelude::*;

use crate::filters::{command_filter, model_entries_spec, model_passes, entries_upto, provider_entries};
use crate::api::{route, Endpoint, HttpMethod};
use crate::input::{key_step, Action, KeyCode, KeyEvent, KeyEventKind};
use crate::state::{App, Dialog};
use crate::text::{ascii_lower, contains_spec, is_ws, lemma_word_len, lowercase, occurs_at, words};
use crate::message_view::{is_fence, text_content_lines, text_lines_from};
use crate::text::{leading_ws, lines_spec};
use crate::types::{Command, Model, Provider};
use crate::view::{fg_style, inline_spans, plain_style, SpanStyle, ThemeColor};

verus! {

// ───────────────────────── the model picker ─────────────────────────

/// A single search word: not empty and without whitespace.
pub open spec fn one_word(w: Seq<char>) -> bool {
    w.len() > 0 && forall|k: int| 0 <= k < w.len() ==> !is_ws(#[trigger] w[k])
}

proof fn lemma_one_word(w: Seq<char>)
    requires
        one_word(w),
    ensures
        words(w) == seq![w],
{
    lemma_word_len(w, w.len() as int);
    assert(w.take(w.len() as int) =~= w);
    assert(w.skip(w.len() as int) =~= Seq::<char>::empty());
    assert(words(w.skip(w.len() as int)) =~= Seq::<Seq<char>>::empty());
}

/// The entries of the first `n` providers include every entry of each of them.
proof fn lemma_entries_upto_contains(f: Seq<char>, ps: Seq<Provider>, n: int, k: int, j: int)
    requires
        0 <= k < n <= ps.len(),
        0 <= j < provider_entries(f, ps[k]).len(),
    ensures
        entries_upto(f, ps, n).contains(provider_entries(f, ps[k])[j]),
    decreases n,
{
    if k < n - 1 {
        lemma_entries_upto_contains(f, ps, n - 1, k, j);
        let e = provider_entries(f, ps[k])[j];
        let a = entries_upto(f, ps, n - 1);
        let i = choose|i: int| 0 <= i < a.len() && #[trigger] a[i] == e;
        assert(entries_upto(f, ps, n)[i] == e);
    } else {
        let a = entries_upto(f, ps, n - 1);
        assert(entries_upto(f, ps, n)[a.len() + j] == provider_entries(f, ps[k])[j]);
    }
}

/// The text a model of a provider is searched by, written out: the provider's
/// name and id and the model's name and id, separated by spaces.
pub open spec fn picker_text(p: Provider, m: Model) -> Seq<char> {
    p.name@ + seq![' '] + p.id@ + seq![' '] + m.name@ + seq![' '] + m.id@
}

/// The model picker lists a model when each word of the typed filter (in lower
/// case) occurs in the lowercased text of its provider's name and id and its own
/// name and id.
pub proof fn law_model_found_when_words_occur(app: App, pi: int, mi: int)
    requires
        0 <= pi < app.providers@.len(),
        0 <= mi < app.providers@[pi].models@.len(),
        forall|k: int|
            0 <= k < words(lowercase(app.dialog_filter@)).len() ==> contains_spec(
                lowercase(picker_text(app.providers@[pi], app.providers@[pi].models@[mi])),
                #[trigger] words(lowercase(app.dialog_filter@))[k],
            ),
    ensures
        ({
            let p = app.providers@[pi];
            let m = p.models@[mi];
            model_entries_spec(app).contains((p.id@, p.name@, m.id@, m.name@))
        }),
{
    let p = app.providers@[pi];
    let m = p.models@[mi];
    let w = lowercase(app.dialog_filter@);
    assert(picker_text(p, m) == crate::filters::model_haystack(p, m));
    assert(model_passes(w, p, m));
    let pred = |mm: Model| model_passes(w, p, mm);
    p.models@.lemma_filter_contains(pred, mi);
    let fl = p.models@.filter(pred);
    let q = choose|q: int| 0 <= q < fl.len() && #[trigger] fl[q] == m;
    let pe = provider_entries(w, p);
    assert(pe[q] == (p.id@, p.name@, m.id@, m.name@));
    lemma_entries_upto_contains(w, app.providers@, app.providers@.len() as int, pi, q);
}

/// Typing one word that occurs in a model's id (in lower case) lists that model
/// in the model picker: the id is part of the text a model is searched by.
/// Stated for searched text on which case folding lowercases `A` to `Z` one for
/// one, as `str::to_lowercase` does on ASCII.
pub proof fn law_model_found_by_id(app: App, pi: int, mi: int)
    requires
        0 <= pi < app.providers@.len(),
        0 <= mi < app.providers@[pi].models@.len(),
        one_word(lowercase(app.dialog_filter@)),
        ({
            let t = picker_text(app.providers@[pi], app.providers@[pi].models@[mi]);
            lowercase(t) == t.map_values(|c: char| ascii_lower(c))
        }),
        contains_spec(
            app.providers@[pi].models@[mi].id@.map_values(|c: char| ascii_lower(c)),
            lowercase(app.dialog_filter@),
        ),
    ensures
        ({
            let p = app.providers@[pi];
            let m = p.models@[mi];
            model_entries_spec(app).contains((p.id@, p.name@, m.id@, m.name@))
        }),
{
    let p = app.providers@[pi];
    let m = p.models@[mi];
    let w = lowercase(app.dialog_filter@);
    let t = picker_text(p, m);
    let lt = t.map_values(|c: char| ascii_lower(c));
    let li = m.id@.map_values(|c: char| ascii_lower(c));
    let off = t.len() - m.id@.len();
    let i = choose|i: int| #[trigger] occurs_at(li, w, i);
    assert(occurs_at(lt, w, off + i)) by {
        assert forall|k: int| 0 <= k < w.len() implies lt.subrange(off + i, off + i + w.len())[k]
            == w[k] by {
            assert(t[off + i + k] == m.id@[i + k]);
            assert(li.subrange(i, i + w.len())[k] == w[k]);
        }
        assert(lt.subrange(off + i, off + i + w.len()) =~= w);
    }
    lemma_one_word(w);
    law_model_found_when_words_occur(app, pi, mi);
}

/// Every entry of the first `n` providers comes from one of them.
proof fn lemma_entries_upto_from(f: Seq<char>, ps: Seq<Provider>, n: int, j: int)
    requires
        0 <= n <= ps.len(),
        0 <= j < entries_upto(f, ps, n).len(),
    ensures
        exists|k: int, q: int|
            0 <= k < n && 0 <= q < provider_entries(f, ps[k]).len()
                && entries_upto(f, ps, n)[j] == #[trigger] provider_entries(f, ps[k])[q],
    decreases n,
{
    let a = entries_upto(f, ps, n - 1);
    if j < a.len() {
        lemma_entries_upto_from(f, ps, n - 1, j);
        let (k, q) = choose|k: int, q: int|
            0 <= k < n - 1 && 0 <= q < provider_entries(f, ps[k]).len()
                && a[j] == #[trigger] provider_entries(f, ps[k])[q];
        assert(entries_upto(f, ps, n)[j] == provider_entries(f, ps[k])[q]);
    } else {
        let q = j - a.len();
        assert(entries_upto(f, ps, n)[j] == provider_entries(f, ps[n - 1])[q]);
    }
}

/// Every entry the model picker lists is a model of one of the providers, with
/// its provider's id and name, and each word of the typed filter (in lower case)
/// occurs in the lowercased text of its provider's name and id and its own name
/// and id.
pub proof fn law_listed_model_matches(app: App, j: int)
    requires
        0 <= j < model_entries_spec(app).len(),
    ensures
        exists|pi: int, mi: int|
            #![trigger app.providers@[pi].models@[mi]]
            0 <= pi < app.providers@.len() && 0 <= mi < app.providers@[pi].models@.len() && {
                let p = app.providers@[pi];
                let m = p.models@[mi];
                let f = lowercase(app.dialog_filter@);
                &&& model_entries_spec(app)[j] == (p.id@, p.name@, m.id@, m.name@)
                &&& forall|k: int|
                    0 <= k < words(f).len() ==> contains_spec(
                        lowercase(picker_text(p, m)),
                        #[trigger] words(f)[k],
                    )
            },
{
    let f = lowercase(app.dialog_filter@);
    let ps = app.providers@;
    lemma_entries_upto_from(f, ps, ps.len() as int, j);
    let (pi, q) = choose|k: int, q: int|
        0 <= k < ps.len() && 0 <= q < provider_entries(f, ps[k]).len()
            && model_entries_spec(app)[j] == #[trigger] provider_entries(f, ps[k])[q];
    let p = ps[pi];
    let pred = |mm: Model| model_passes(f, p, mm);
    let fl = p.models@.filter(pred);
    let m = fl[q];
    p.models@.lemma_filter_pred(pred, q);
    assert(fl.contains(m));
    p.models@.lemma_filter_contains_rev(pred, m);
    let mi = choose|mi: int| 0 <= mi < p.models@.len() && #[trigger] p.models@[mi] == m;
    assert(picker_text(p, m) == crate::filters::model_haystack(p, m));
    assert(model_passes(f, p, m));
    if f.len() == 0 {
        assert(words(f) =~= Seq::<Seq<char>>::empty());
    }
    assert(app.providers@[pi].models@[mi] == m);
}

// ───────────────────────── the command palette ─────────────────────────

/// A command whose name contains the typed filter (both in lower case) is
/// listed by the command palette.
pub proof fn law_command_found_by_name(app: App, i: int)
    requires
        0 <= i < app.commands@.len(),
        contains_spec(lowercase(app.commands@[i].name@), lowercase(app.dialog_filter@)),
    ensures
        app.commands@.filter(command_filter(lowercase(app.dialog_filter@))).contains(
            app.commands@[i],
        ),
{
    app.commands@.lemma_filter_contains(command_filter(lowercase(app.dialog_filter@)), i);
}

/// A command whose description contains the typed filter (both in lower case)
/// is listed by the command palette.
pub proof fn law_command_found_by_description(app: App, i: int)
    requires
        0 <= i < app.commands@.len(),
        app.commands@[i].description matches Some(d) && contains_spec(
            lowercase(d@),
            lowercase(app.dialog_filter@),
        ),
    ensures
        app.commands@.filter(command_filter(lowercase(app.dialog_filter@))).contains(
            app.commands@[i],
        ),
{
    app.commands@.lemma_filter_contains(command_filter(lowercase(app.dialog_filter@)), i);
}

/// Every command the palette lists matches the typed filter by its name or its
/// description, ignoring case, unless the filter is empty.
pub proof fn law_listed_command_matches(app: App, j: int)
    requires
        0 <= j < app.commands@.filter(command_filter(lowercase(app.dialog_filter@))).len(),
    ensures
        ({
            let f = lowercase(app.dialog_filter@);
            let c = app.commands@.filter(command_filter(f))[j];
            ||| f.len() == 0
            ||| contains_spec(lowercase(c.name@), f)
            ||| (c.description matches Some(d) && contains_spec(lowercase(d@), f))
        }),
{
    app.commands@.lemma_filter_pred(command_filter(lowercase(app.dialog_filter@)), j);
}

// ───────────────────────── the message view ─────────────────────────

/// A line that opens or closes a code block: after its leading whitespace it
/// starts with three backticks.
pub open spec fn fence_line(l: Seq<char>) -> bool {
    let t = l.skip(leading_ws(l) as int);
    t.len() >= 3 && t[0] == '`' && t[1] == '`' && t[2] == '`'
}

/// How many of the first `i` lines of `ls` are fences.
pub open spec fn fences_before(ls: Seq<Seq<char>>, i: int) -> nat
    decreases i,
{
    if i <= 0 {
        0
    } else {
        fences_before(ls, i - 1) + if fence_line(ls[i - 1]) {
            1nat
        } else {
            0nat
        }
    }
}

/// What line `i` of the text lines `ls` is shown as, `code` telling whether the
/// text starts inside a code block: a fence is a rule; a line after an odd
/// number of fences (counting from outside a block) is code, shown verbatim
/// after three spaces in the code-block style; any other line is indented and
/// its inline markup shown.
pub open spec fn shown_line(ls: Seq<Seq<char>>, i: int, code: bool) -> Seq<(Seq<char>, SpanStyle)> {
    let l = ls[i];
    if fence_line(l) {
        seq![("   --------"@, fg_style(ThemeColor::Muted))]
    } else if code != (fences_before(ls, i) % 2 == 1) {
        seq![("   "@ + l, SpanStyle { fg: Some(ThemeColor::Warning), dim: true, ..plain_style() })]
    } else {
        seq![("   "@, plain_style())] + inline_spans(l)
    }
}

proof fn lemma_fence_line(l: Seq<char>)
    ensures
        is_fence(l) == fence_line(l),
{
    reveal_strlit("```");
    let t = l.skip(leading_ws(l) as int);
    if fence_line(l) {
        assert(t.take(3) =~= "```"@);
    }
    if is_fence(l) {
        assert(t.take(3)[0] == t[0] && t.take(3)[1] == t[1] && t.take(3)[2] == t[2]);
    }
}

proof fn lemma_fences_before_shift(ls: Seq<Seq<char>>, i: int)
    requires
        0 <= i < ls.len(),
    ensures
        fences_before(ls, i + 1) == fences_before(ls.drop_first(), i) + if fence_line(ls[0]) {
            1nat
        } else {
            0nat
        },
    decreases i,
{
    if i > 0 {
        lemma_fences_before_shift(ls, i - 1);
        assert(ls.drop_first()[i - 1] == ls[i]);
    } else {
        assert(fences_before(ls, 0) == 0);
        assert(fences_before(ls.drop_first(), 0) == 0);
    }
}

proof fn lemma_text_lines_shown(ls: Seq<Seq<char>>, code: bool)
    ensures
        text_lines_from(ls, code).len() == ls.len(),
        forall|i: int| 0 <= i < ls.len() ==> #[trigger] text_lines_from(ls, code)[i] == shown_line(ls, i, code),
    decreases ls.len(),
{
    if ls.len() > 0 {
        let rest = ls.drop_first();
        lemma_fence_line(ls[0]);
        let code2 = if fence_line(ls[0]) { !code } else { code };
        lemma_text_lines_shown(rest, code2);
        assert forall|i: int| 0 <= i < ls.len() implies #[trigger] text_lines_from(ls, code)[i]
            == shown_line(ls, i, code) by {
            if i > 0 {
                lemma_fences_before_shift(ls, i - 1);
                assert(rest[i - 1] == ls[i]);
                assert(text_lines_from(ls, code)[i] == text_lines_from(rest, code2)[i - 1]);
            }
        }
    }
}

/// Each line of a text part is shown on its own: a fence as a rule, a line
/// between an opening and a closing fence verbatim in the code-block style, and
/// any other line with its inline markup.
pub proof fn law_text_lines_shown(content: Seq<char>)
    ensures
        text_content_lines(content).len() == lines_spec(content).len(),
        forall|i: int|
            0 <= i < lines_spec(content).len() ==> #[trigger] text_content_lines(content)[i]
                == shown_line(lines_spec(content), i, false),
{
    lemma_text_lines_shown(lines_spec(content), false);
}

/// A code block of one line between two fences is shown as a rule, the line
/// verbatim after three spaces in the code-block style, and a rule.
pub proof fn law_code_block_shown_verbatim(content: Seq<char>, open: Seq<char>, l: Seq<char>, close: Seq<char>)
    requires
        lines_spec(content) == seq![open, l, close],
        fence_line(open),
        !fence_line(l),
        fence_line(close),
    ensures
        text_content_lines(content) == seq![
            seq![("   --------"@, fg_style(ThemeColor::Muted))],
            seq![("   "@ + l, SpanStyle { fg: Some(ThemeColor::Warning), dim: true, ..plain_style() })],
            seq![("   --------"@, fg_style(ThemeColor::Muted))],
        ],
{
    let ls = lines_spec(content);
    lemma_text_lines_shown(ls, false);
    assert(fences_before(ls, 0) == 0);
    assert(fences_before(ls, 1) == 1);
    assert(fences_before(ls, 2) == 1);
    assert(text_content_lines(content)[0] == shown_line(ls, 0, false));
    assert(text_content_lines(content)[1] == shown_line(ls, 1, false));
    assert(text_content_lines(content)[2] == shown_line(ls, 2, false));
    assert(text_content_lines(content) =~= seq![
        seq![("   --------"@, fg_style(ThemeColor::Muted))],
        seq![("   "@ + l, SpanStyle { fg: Some(ThemeColor::Warning), dim: true, ..plain_style() })],
        seq![("   --------"@, fg_style(ThemeColor::Muted))],
    ]);
}

// ───────────────────────── the session picker ─────────────────────────

/// In the session picker, Enter opens the highlighted session and closes the
/// picker.
pub proof fn law_session_picker_enter_opens_highlighted(a: App, key: KeyEvent, b: App, act: Action)
    requires
        a.active_dialog == Some(Dialog::Sessions),
        key.kind == KeyEventKind::Press,
        key.code == KeyCode::Enter,
        a.dialog_selected < a.sessions@.len(),
        key_step(a, key, b, act),
    ensures
        act matches Action::SelectSession(id) && id@ == a.sessions@[a.dialog_selected as int].id@,
        b.active_dialog is None,
{
}

/// In the session picker, moving down from the first of several sessions and
/// pressing Enter opens the second session.
pub proof fn law_session_picker_down_then_enter(
    a: App,
    down: KeyEvent,
    b: App,
    x: Action,
    enter: KeyEvent,
    c: App,
    y: Action,
)
    requires
        a.active_dialog == Some(Dialog::Sessions),
        a.dialog_selected == 0,
        a.sessions@.len() >= 2,
        down.kind == KeyEventKind::Press,
        down.code == KeyCode::Down,
        enter.kind == KeyEventKind::Press,
        enter.code == KeyCode::Enter,
        key_step(a, down, b, x),
        key_step(b, enter, c, y),
    ensures
        y matches Action::SelectSession(id) && id@ == a.sessions@[1].id@,
{
    assert(b.dialog_selected == 1);
    assert(b.sessions == a.sessions);
    assert(b.active_dialog == Some(Dialog::Sessions));
}

/// In the session picker, Down moves the highlight to the next session unless
/// it is on the last one, and Up to the previous one unless it is on the first;
/// nothing else changes and no work is asked for.
pub proof fn law_session_picker_arrows(a: App, key: KeyEvent, b: App, act: Action)
    requires
        a.active_dialog == Some(Dialog::Sessions),
        key.kind == KeyEventKind::Press,
        key.code == KeyCode::Down || key.code == KeyCode::Up,
        key_step(a, key, b, act),
    ensures
        (act is Nothing),
        (b == App { dialog_selected: b.dialog_selected, ..a }),
        (key.code == KeyCode::Down ==> b.dialog_selected == (if a.dialog_selected + 1
            < a.sessions@.len() {
            a.dialog_selected + 1
        } else {
            a.dialog_selected as int
        })),
        (key.code == KeyCode::Up ==> b.dialog_selected == (if a.dialog_selected > 0 {
            a.dialog_selected - 1
        } else {
            0
        })),
{
    assert(a.sessions@.len() == a.sessions.len());
}

// ───────────────────────── the server routes ─────────────────────────

/// Whether calling `ep` asks the server for something (a status, a list, a
/// record, file content, a search result, the next control request) rather than
/// telling it to create, change or remove something.
pub open spec fn is_query(ep: Endpoint) -> bool {
    match ep {
        Endpoint::Health | Endpoint::GlobalConfig | Endpoint::ListProjects
        | Endpoint::CurrentProject | Endpoint::Config | Endpoint::ProvidersConfig
        | Endpoint::ListProviders | Endpoint::ProviderAuth | Endpoint::ListSessions { .. }
        | Endpoint::SessionStatuses | Endpoint::GetSession { .. }
        | Endpoint::SessionChildren { .. } | Endpoint::SessionTodos { .. }
        | Endpoint::SessionDiff { .. } | Endpoint::ListMessages { .. }
        | Endpoint::GetMessage { .. } | Endpoint::ListPermissions | Endpoint::ListQuestions
        | Endpoint::Find { .. } | Endpoint::FindFile { .. } | Endpoint::FindSymbol { .. }
        | Endpoint::ListFiles { .. } | Endpoint::FileContent { .. } | Endpoint::FileStatus
        | Endpoint::ListCommands | Endpoint::ListAgents | Endpoint::ListSkills
        | Endpoint::ListMcp | Endpoint::ListPtys | Endpoint::GetPty { .. } | Endpoint::ListLsp
        | Endpoint::ListFormatters | Endpoint::GetPath | Endpoint::GetVcs
        | Endpoint::TuiControlNext => true,
        _ => false,
    }
}

/// Whether calling `ep` makes the server create something new: a session, a
/// fork, a message or command run in a session, an MCP server or a terminal.
pub open spec fn creates(ep: Endpoint) -> bool {
    match ep {
        Endpoint::CreateSession | Endpoint::ForkSession { .. } | Endpoint::SendMessage { .. }
        | Endpoint::PromptAsync { .. } | Endpoint::SendCommand { .. }
        | Endpoint::SendShell { .. } | Endpoint::CreateMcp | Endpoint::CreatePty => true,
        _ => false,
    }
}

/// An endpoint is requested with GET exactly when it only asks the server for
/// something; whatever creates, changes or removes uses another method.
pub proof fn law_get_exactly_for_queries(ep: Endpoint)
    ensures
        (route(ep).0 == HttpMethod::Get) == is_query(ep),
{
}

/// Whatever makes the server create something is requested with POST.
pub proof fn law_creations_are_posted(ep: Endpoint)
    requires
        creates(ep),
    ensures
        route(ep).0 == HttpMethod::Post,
{
}

/// Creating a session and listing sessions go to the same path with different
/// methods: POST creates one, GET lists them.
pub proof fn law_create_and_list_sessions_differ(project_id: Option<String>)
    ensures
        route(Endpoint::CreateSession).1 == route(Endpoint::ListSessions { project_id }).1,
        route(Endpoint::CreateSession).0 == HttpMethod::Post,
        route(Endpoint::ListSessions { project_id }).0 == HttpMethod::Get,
{
}

} // verus!
