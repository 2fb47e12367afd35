//! Keyboard, mouse and paste input: what each key does to the client's state,
//! and what work it leaves for the event loop.

use vstd::prelude::*;

use crate::filters::{entry_view, filtered_models, model_entries_spec};
use crate::seq_util::lemma_filter_member;
use crate::state::{
    agent_matches, char_deleted, dialog_closed, dialog_opened, other_mode, scrolled_down, scrolled_up,
    sidebar_toggled, visual_lines_of, App, ChatMode, Dialog, Page,
};
use crate::text::{
    all_ws, byte_len, chars_of, is_blank, last_index_of, line_count, lines_spec, lowercase,
    push_char, rfind_char, string_from, string_of, to_lowercase, utf8_len_upto,
};
use crate::themes::{builtin_theme, theme_spec, THEME_COUNT};
use crate::types::QuestionOption;

verus! {

// ───────────────────────── keys ─────────────────────────

/// A key, as the terminal reports it.
#[derive(Debug, Clone, Copy, PartialEq, Eq, Structural)]
pub enum KeyCode {
    Backspace,
    Enter,
    Left,
    Right,
    Up,
    Down,
    Home,
    End,
    PageUp,
    PageDown,
    Tab,
    BackTab,
    Delete,
    Insert,
    F(u8),
    Char(char),
    Esc,
    /// Any other key (media keys, lock keys, lone modifiers, ...).
    Other,
}

/// The modifier keys held down with a key.
#[derive(Debug, Clone, Copy, PartialEq, Eq, Structural)]
pub struct KeyModifiers {
    pub shift: bool,
    pub control: bool,
    pub alt: bool,
    pub super_key: bool,
    pub hyper: bool,
    pub meta: bool,
}

impl KeyModifiers {
    /// No modifier held.
    pub fn none() -> (m: KeyModifiers)
        ensures
            !m.shift && !m.control && !m.alt && !m.super_key && !m.hyper && !m.meta,
    {
        KeyModifiers {
            shift: false,
            control: false,
            alt: false,
            super_key: false,
            hyper: false,
            meta: false,
        }
    }

    /// Control alone.
    pub fn control() -> (m: KeyModifiers)
        ensures
            control_only(m),
    {
        KeyModifiers { control: true, ..KeyModifiers::none() }
    }

    /// Shift alone.
    pub fn shift() -> (m: KeyModifiers)
        ensures
            m.shift && !m.control && !m.alt && !m.super_key && !m.hyper && !m.meta,
    {
        KeyModifiers { shift: true, ..KeyModifiers::none() }
    }

    /// Alt alone.
    pub fn alt() -> (m: KeyModifiers)
        ensures
            m.alt && !m.shift && !m.control && !m.super_key && !m.hyper && !m.meta,
    {
        KeyModifiers { alt: true, ..KeyModifiers::none() }
    }
}

/// Control is held and no other modifier.
pub open spec fn control_only(m: KeyModifiers) -> bool {
    m.control && !m.shift && !m.alt && !m.super_key && !m.hyper && !m.meta
}

/// Whether a key went down, repeats, or came up.
#[derive(Debug, Clone, Copy, PartialEq, Eq, Structural)]
pub enum KeyEventKind {
    Press,
    Repeat,
    Release,
}

/// A key event.
#[derive(Debug, Clone, Copy, PartialEq, Eq, Structural)]
pub struct KeyEvent {
    pub code: KeyCode,
    pub modifiers: KeyModifiers,
    pub kind: KeyEventKind,
}

impl KeyEvent {
    /// A key press.
    pub fn new(code: KeyCode, modifiers: KeyModifiers) -> (k: KeyEvent)
        ensures
            k == (KeyEvent { code, modifiers, kind: KeyEventKind::Press }),
    {
        KeyEvent { code, modifiers, kind: KeyEventKind::Press }
    }
}

/// What the mouse did.
#[derive(Debug, Clone, Copy, PartialEq, Eq, Structural)]
pub enum MouseEventKind {
    ScrollUp,
    ScrollDown,
    /// Clicks, drags, moves and sideways scrolling.
    Other,
}

/// A mouse event at a cell of the terminal.
#[derive(Debug, Clone, Copy, PartialEq, Eq, Structural)]
pub struct MouseEvent {
    pub kind: MouseEventKind,
    pub column: u16,
    pub row: u16,
}

// ───────────────────────── actions ─────────────────────────

/// Work that a key leaves for the event loop, which talks to the server.
#[derive(Debug)]
pub enum Action {
    /// Send the current input text as a message.
    SendMessage,
    /// Abort the running operation on the current session.
    AbortSession,
    /// Create a new session and select it.
    CreateSession,
    /// Select a session by id (from the session picker).
    SelectSession(String),
    /// Reply to a pending permission request: (permission id, session id,
    /// response), the response being "once", "always" or "reject".
    ReplyPermission(String, String, String),
    /// Reply to a pending question: (question id, answers).
    ReplyQuestion(String, Vec<String>),
    /// Store the chosen theme name in the configuration file.
    SaveTheme(String),
    /// Quit the application.
    Quit,
    /// Nothing to do.
    Nothing,
}

// ───────────────────────── shared effects ─────────────────────────

/// `new` is `old` with the dialog selection moved up one entry, stopping at the first.
pub open spec fn selection_up(old: App, new: App) -> bool {
    new == App {
        dialog_selected: if old.dialog_selected > 0 {
            (old.dialog_selected - 1) as usize
        } else {
            0
        },
        ..old
    }
}

/// `new` is `old` with the dialog selection moved down one entry, stopping at
/// `last` (or staying where it is when it already lies at or past it).
pub open spec fn selection_down(old: App, new: App, last: int) -> bool {
    new == App {
        dialog_selected: if old.dialog_selected < last {
            (old.dialog_selected + 1) as usize
        } else {
            old.dialog_selected
        },
        ..old
    }
}

/// `new` is `old` with `c` typed into the dialog filter; the selection goes back
/// to the first entry when `reset`.
pub open spec fn filter_typed(old: App, new: App, c: char, reset: bool) -> bool {
    &&& new.dialog_filter@ == old.dialog_filter@.push(c)
    &&& new == App {
        dialog_filter: new.dialog_filter,
        dialog_selected: if reset {
            0
        } else {
            old.dialog_selected
        },
        ..old
    }
}

/// `s` without its last character (unchanged when empty).
pub open spec fn drop_last_char(s: Seq<char>) -> Seq<char> {
    if s.len() > 0 {
        s.drop_last()
    } else {
        s
    }
}

/// `new` is `old` with the last character of the dialog filter erased; the
/// selection goes back to the first entry when `reset`.
pub open spec fn filter_erased(old: App, new: App, reset: bool) -> bool {
    &&& new.dialog_filter@ == drop_last_char(old.dialog_filter@)
    &&& new == App {
        dialog_filter: new.dialog_filter,
        dialog_selected: if reset {
            0
        } else {
            old.dialog_selected
        },
        ..old
    }
}

/// Moves the dialog selection up one entry.
fn select_prev(app: &mut App)
    ensures
        selection_up(*old(app), *final(app)),
{
    if app.dialog_selected > 0 {
        app.dialog_selected = app.dialog_selected - 1;
    }
}

/// Moves the dialog selection down one entry, stopping at `last`.
fn select_next(app: &mut App, last: usize)
    ensures
        selection_down(*old(app), *final(app), last as int),
{
    if app.dialog_selected < last {
        app.dialog_selected = app.dialog_selected + 1;
    }
}

/// Removes the last character of `s`, if any.
fn pop_char(s: &mut String)
    ensures
        final(s)@ == drop_last_char(old(s)@),
{
    let mut v = chars_of(s.as_str());
    if v.len() > 0 {
        v.pop();
        *s = string_of(&v);
    }
}

/// Types `c` into the dialog filter.
fn type_filter(app: &mut App, c: char, reset: bool)
    ensures
        filter_typed(*old(app), *final(app), c, reset),
{
    push_char(&mut app.dialog_filter, c);
    if reset {
        app.dialog_selected = 0;
    }
}

/// Erases the last character of the dialog filter.
fn erase_filter(app: &mut App, reset: bool)
    ensures
        filter_erased(*old(app), *final(app), reset),
{
    pop_char(&mut app.dialog_filter);
    if reset {
        app.dialog_selected = 0;
    }
}

// ───────────────────────── dialogs ─────────────────────────

/// The session picker: arrows move, Enter selects the highlighted session,
/// characters and backspace edit the filter.
pub open spec fn session_dialog_step(old: App, key: KeyEvent, new: App, a: Action) -> bool {
    match key.code {
        KeyCode::Up => selection_up(old, new) && a is Nothing,
        KeyCode::Down => selection_down(old, new, old.sessions@.len() - 1) && a is Nothing,
        KeyCode::Enter => if old.dialog_selected < old.sessions@.len() {
            &&& dialog_closed(old, new)
            &&& a matches Action::SelectSession(id)
            &&& id@ == old.sessions@[old.dialog_selected as int].id@
        } else {
            new == old && a is Nothing
        },
        KeyCode::Char(c) => filter_typed(old, new, c, true) && a is Nothing,
        KeyCode::Backspace => filter_erased(old, new, true) && a is Nothing,
        _ => new == old && a is Nothing,
    }
}

fn handle_session_dialog_key(app: &mut App, key: KeyEvent) -> (a: Action)
    ensures
        session_dialog_step(*old(app), key, *final(app), a),
{
    match key.code {
        KeyCode::Up => {
            select_prev(app);
            Action::Nothing
        },
        KeyCode::Down => {
            let last = app.sessions.len().saturating_sub(1);
            select_next(app, last);
            Action::Nothing
        },
        KeyCode::Enter => {
            if app.dialog_selected < app.sessions.len() {
                let id = app.sessions[app.dialog_selected].id.clone();
                app.close_dialog();
                Action::SelectSession(id)
            } else {
                Action::Nothing
            }
        },
        KeyCode::Char(c) => {
            type_filter(app, c, true);
            Action::Nothing
        },
        KeyCode::Backspace => {
            erase_filter(app, true);
            Action::Nothing
        },
        _ => Action::Nothing,
    }
}

/// The command palette: arrows move (down without bound), Enter closes it,
/// characters and backspace edit the filter.
pub open spec fn filter_dialog_step(old: App, key: KeyEvent, new: App, a: Action) -> bool {
    &&& a is Nothing
    &&& match key.code {
        KeyCode::Up => selection_up(old, new),
        KeyCode::Down => new == App { dialog_selected: (old.dialog_selected + 1) as usize, ..old },
        KeyCode::Enter => dialog_closed(old, new),
        KeyCode::Char(c) => filter_typed(old, new, c, true),
        KeyCode::Backspace => filter_erased(old, new, true),
        _ => new == old,
    }
}

fn handle_filter_dialog_key(app: &mut App, key: KeyEvent) -> (a: Action)
    requires
        old(app).dialog_selected < usize::MAX,
    ensures
        filter_dialog_step(*old(app), key, *final(app), a),
{
    match key.code {
        KeyCode::Up => select_prev(app),
        KeyCode::Down => {
            app.dialog_selected = app.dialog_selected + 1;
        },
        KeyCode::Enter => app.close_dialog(),
        KeyCode::Char(c) => type_filter(app, c, true),
        KeyCode::Backspace => erase_filter(app, true),
        _ => {},
    }
    Action::Nothing
}

/// The theme picker: arrows move over the built-in themes, Enter picks the
/// highlighted one (its name in lower case) and asks for it to be stored,
/// characters and backspace edit the filter.
pub open spec fn theme_dialog_step(old: App, key: KeyEvent, new: App, a: Action) -> bool {
    match key.code {
        KeyCode::Up => selection_up(old, new) && a is Nothing,
        KeyCode::Down => selection_down(old, new, THEME_COUNT - 1) && a is Nothing,
        KeyCode::Enter => if old.dialog_selected < THEME_COUNT {
            &&& new.theme_name@ == lowercase(theme_spec(old.dialog_selected as int).name@)
            &&& new.dialog_filter@.len() == 0
            &&& new == App {
                active_dialog: None,
                dialog_filter: new.dialog_filter,
                dialog_selected: 0,
                theme_name: new.theme_name,
                ..old
            }
            &&& a matches Action::SaveTheme(n)
            &&& n@ == new.theme_name@
        } else {
            dialog_closed(old, new) && a is Nothing
        },
        KeyCode::Char(c) => filter_typed(old, new, c, true) && a is Nothing,
        KeyCode::Backspace => filter_erased(old, new, true) && a is Nothing,
        _ => new == old && a is Nothing,
    }
}

fn handle_theme_dialog_key(app: &mut App, key: KeyEvent) -> (a: Action)
    ensures
        theme_dialog_step(*old(app), key, *final(app), a),
{
    match key.code {
        KeyCode::Up => {
            select_prev(app);
            Action::Nothing
        },
        KeyCode::Down => {
            select_next(app, THEME_COUNT - 1);
            Action::Nothing
        },
        KeyCode::Enter => {
            if app.dialog_selected < THEME_COUNT {
                let t = builtin_theme(app.dialog_selected);
                app.theme_name = to_lowercase(t.name);
                let saved = app.theme_name.clone();
                app.close_dialog();
                Action::SaveTheme(saved)
            } else {
                app.close_dialog();
                Action::Nothing
            }
        },
        KeyCode::Char(c) => {
            type_filter(app, c, true);
            Action::Nothing
        },
        KeyCode::Backspace => {
            erase_filter(app, true);
            Action::Nothing
        },
        _ => Action::Nothing,
    }
}

/// The model picker: arrows move over the filtered models, Enter picks the
/// highlighted one, characters and backspace edit the filter.
pub open spec fn model_dialog_step(old: App, key: KeyEvent, new: App, a: Action) -> bool {
    let entries = model_entries_spec(old);
    &&& a is Nothing
    &&& match key.code {
        KeyCode::Up => selection_up(old, new),
        KeyCode::Down => selection_down(old, new, entries.len() - 1),
        KeyCode::Enter => if old.dialog_selected < entries.len() {
            let e = entries[old.dialog_selected as int];
            &&& new.current_model matches Some((p, m))
            &&& p@ == e.0
            &&& m@ == e.2
            &&& new.dialog_filter@.len() == 0
            &&& new == App {
                active_dialog: None,
                dialog_filter: new.dialog_filter,
                dialog_selected: 0,
                current_model: new.current_model,
                ..old
            }
        } else {
            dialog_closed(old, new)
        },
        KeyCode::Char(c) => filter_typed(old, new, c, true),
        KeyCode::Backspace => filter_erased(old, new, true),
        _ => new == old,
    }
}

fn handle_model_dialog_key(app: &mut App, key: KeyEvent) -> (a: Action)
    ensures
        model_dialog_step(*old(app), key, *final(app), a),
{
    match key.code {
        KeyCode::Up => select_prev(app),
        KeyCode::Down => {
            let entries = filtered_models(app);
            proof {
                assert(entries@.len() == entries@.map_values(|e: crate::filters::ModelEntry| entry_view(e)).len());
            }
            let last = entries.len().saturating_sub(1);
            select_next(app, last);
        },
        KeyCode::Enter => {
            let entries = filtered_models(app);
            proof {
                assert(entries@.len() == entries@.map_values(|e: crate::filters::ModelEntry| entry_view(e)).len());
            }
            if app.dialog_selected < entries.len() {
                let e = &entries[app.dialog_selected];
                proof {
                    assert(entry_view(*e) == model_entries_spec(*app)[app.dialog_selected as int]);
                }
                app.current_model = Some((e.provider_id.clone(), e.model_id.clone()));
            }
            app.close_dialog();
        },
        KeyCode::Char(c) => type_filter(app, c, true),
        KeyCode::Backspace => erase_filter(app, true),
        _ => {},
    }
    Action::Nothing
}

/// A dialog that only closes: Enter or `q` close it.
pub open spec fn simple_dialog_step(old: App, key: KeyEvent, new: App, a: Action) -> bool {
    &&& a is Nothing
    &&& if key.code == KeyCode::Enter || key.code == KeyCode::Char('q') {
        dialog_closed(old, new)
    } else {
        new == old
    }
}

fn handle_simple_dialog_key(app: &mut App, key: KeyEvent) -> (a: Action)
    ensures
        simple_dialog_step(*old(app), key, *final(app), a),
{
    match key.code {
        KeyCode::Enter | KeyCode::Char('q') => app.close_dialog(),
        _ => {},
    }
    Action::Nothing
}

/// The permission reply that a key gives: `y` once, `a` always, `n` or `r` reject.
pub open spec fn permission_response(code: KeyCode) -> Option<Seq<char>> {
    if code == KeyCode::Char('y') {
        Some("once"@)
    } else if code == KeyCode::Char('a') {
        Some("always"@)
    } else if code == KeyCode::Char('n') || code == KeyCode::Char('r') {
        Some("reject"@)
    } else {
        None
    }
}

/// The permission dialog: a reply key answers the oldest pending request,
/// closing the dialog once none is left.
pub open spec fn permission_dialog_step(old: App, key: KeyEvent, new: App, a: Action) -> bool {
    match permission_response(key.code) {
        None => new == old && a is Nothing,
        Some(r) => if old.pending_permissions@.len() > 0 {
            let p = old.pending_permissions@[0];
            let rest = old.pending_permissions@.remove(0);
            &&& a matches Action::ReplyPermission(pid, sid, resp)
            &&& pid@ == p.id@
            &&& sid@ == p.session_id@
            &&& resp@ == r
            &&& new.pending_permissions@ == rest
            &&& if rest.len() == 0 {
                &&& new.dialog_filter@.len() == 0
                &&& new == App {
                    active_dialog: None,
                    dialog_filter: new.dialog_filter,
                    dialog_selected: 0,
                    pending_permissions: new.pending_permissions,
                    ..old
                }
            } else {
                new == App { pending_permissions: new.pending_permissions, ..old }
            }
        } else {
            dialog_closed(old, new) && a is Nothing
        },
    }
}

fn handle_permission_dialog_key(app: &mut App, key: KeyEvent) -> (a: Action)
    ensures
        permission_dialog_step(*old(app), key, *final(app), a),
{
    let response: Option<&str> = match key.code {
        KeyCode::Char('y') => Some("once"),
        KeyCode::Char('a') => Some("always"),
        KeyCode::Char('n') | KeyCode::Char('r') => Some("reject"),
        _ => None,
    };
    match response {
        Some(resp) => {
            if app.pending_permissions.len() > 0 {
                let perm_id = app.pending_permissions[0].id.clone();
                let session_id = app.pending_permissions[0].session_id.clone();
                app.pending_permissions.remove(0);
                if app.pending_permissions.len() == 0 {
                    app.close_dialog();
                }
                Action::ReplyPermission(perm_id, session_id, string_from(resp))
            } else {
                app.close_dialog();
                Action::Nothing
            }
        },
        None => Action::Nothing,
    }
}

/// The answers sent for the oldest pending question: the highlighted option's
/// value (none when the highlight lies past the options), or the typed filter
/// for a free-form question.
pub open spec fn question_answer(old: App) -> Seq<Seq<char>> {
    let q = old.pending_questions@[0];
    match q.options {
        Some(opts) => if old.dialog_selected < opts@.len() {
            seq![opts@[old.dialog_selected as int].value@]
        } else {
            Seq::empty()
        },
        None => seq![old.dialog_filter@],
    }
}

/// The question dialog: arrows move (down without bound), Enter answers the
/// oldest pending question, characters and backspace edit the free-form answer.
pub open spec fn question_dialog_step(old: App, key: KeyEvent, new: App, a: Action) -> bool {
    match key.code {
        KeyCode::Up => selection_up(old, new) && a is Nothing,
        KeyCode::Down => new == App { dialog_selected: (old.dialog_selected + 1) as usize, ..old }
            && a is Nothing,
        KeyCode::Enter => if old.pending_questions@.len() > 0 {
            let rest = old.pending_questions@.remove(0);
            &&& a matches Action::ReplyQuestion(qid, answers)
            &&& qid@ == old.pending_questions@[0].id@
            &&& answers@.map_values(|s: String| s@) == question_answer(old)
            &&& new.pending_questions@ == rest
            &&& if rest.len() == 0 {
                &&& new.dialog_filter@.len() == 0
                &&& new == App {
                    active_dialog: None,
                    dialog_filter: new.dialog_filter,
                    dialog_selected: 0,
                    pending_questions: new.pending_questions,
                    ..old
                }
            } else {
                new == App { pending_questions: new.pending_questions, ..old }
            }
        } else {
            dialog_closed(old, new) && a is Nothing
        },
        KeyCode::Char(c) => filter_typed(old, new, c, false) && a is Nothing,
        KeyCode::Backspace => filter_erased(old, new, false) && a is Nothing,
        _ => new == old && a is Nothing,
    }
}

fn handle_question_dialog_key(app: &mut App, key: KeyEvent) -> (a: Action)
    requires
        old(app).dialog_selected < usize::MAX,
    ensures
        question_dialog_step(*old(app), key, *final(app), a),
{
    match key.code {
        KeyCode::Up => {
            select_prev(app);
            Action::Nothing
        },
        KeyCode::Down => {
            app.dialog_selected = app.dialog_selected + 1;
            Action::Nothing
        },
        KeyCode::Enter => {
            if app.pending_questions.len() > 0 {
                let q_id = app.pending_questions[0].id.clone();
                let mut answers: Vec<String> = Vec::new();
                match &app.pending_questions[0].options {
                    Some(opts) => {
                        if app.dialog_selected < opts.len() {
                            answers.push(opts[app.dialog_selected].value.clone());
                        }
                    },
                    None => {
                        answers.push(app.dialog_filter.clone());
                    },
                }
                proof {
                    assert(answers@.map_values(|s: String| s@) =~= question_answer(*app));
                }
                app.pending_questions.remove(0);
                if app.pending_questions.len() == 0 {
                    app.close_dialog();
                }
                Action::ReplyQuestion(q_id, answers)
            } else {
                app.close_dialog();
                Action::Nothing
            }
        },
        KeyCode::Char(c) => {
            type_filter(app, c, false);
            Action::Nothing
        },
        KeyCode::Backspace => {
            erase_filter(app, false);
            Action::Nothing
        },
        _ => Action::Nothing,
    }
}

/// The quit confirmation: `y` or Enter quit, `n` stays.
pub open spec fn quit_dialog_step(old: App, key: KeyEvent, new: App, a: Action) -> bool {
    if key.code == KeyCode::Char('y') || key.code == KeyCode::Enter {
        dialog_closed(old, new) && a is Quit
    } else if key.code == KeyCode::Char('n') {
        dialog_closed(old, new) && a is Nothing
    } else {
        new == old && a is Nothing
    }
}

fn handle_quit_dialog_key(app: &mut App, key: KeyEvent) -> (a: Action)
    ensures
        quit_dialog_step(*old(app), key, *final(app), a),
{
    match key.code {
        KeyCode::Char('y') | KeyCode::Enter => {
            app.close_dialog();
            Action::Quit
        },
        KeyCode::Char('n') => {
            app.close_dialog();
            Action::Nothing
        },
        _ => Action::Nothing,
    }
}

/// A key while dialog `d` is open: Escape closes any dialog; other keys go to
/// the dialog's own handling.
pub open spec fn dialog_step(old: App, key: KeyEvent, d: Dialog, new: App, a: Action) -> bool {
    if key.code == KeyCode::Esc {
        dialog_closed(old, new) && a is Nothing
    } else {
        match d {
            Dialog::Sessions => session_dialog_step(old, key, new, a),
            Dialog::Models => model_dialog_step(old, key, new, a),
            Dialog::Commands => filter_dialog_step(old, key, new, a),
            Dialog::Help => simple_dialog_step(old, key, new, a),
            Dialog::Themes => theme_dialog_step(old, key, new, a),
            Dialog::Permission => permission_dialog_step(old, key, new, a),
            Dialog::Question => question_dialog_step(old, key, new, a),
            Dialog::Quit => quit_dialog_step(old, key, new, a),
        }
    }
}

fn handle_dialog_key(app: &mut App, key: KeyEvent, dialog: Dialog) -> (a: Action)
    requires
        old(app).dialog_selected < usize::MAX,
    ensures
        dialog_step(*old(app), key, dialog, *final(app), a),
{
    match key.code {
        KeyCode::Esc => {
            app.close_dialog();
            Action::Nothing
        },
        _ => match dialog {
            Dialog::Sessions => handle_session_dialog_key(app, key),
            Dialog::Models => handle_model_dialog_key(app, key),
            Dialog::Commands => handle_filter_dialog_key(app, key),
            Dialog::Help => handle_simple_dialog_key(app, key),
            Dialog::Themes => handle_theme_dialog_key(app, key),
            Dialog::Permission => handle_permission_dialog_key(app, key),
            Dialog::Question => handle_question_dialog_key(app, key),
            Dialog::Quit => handle_quit_dialog_key(app, key),
        },
    }
}

// ───────────────────────── chat page ─────────────────────────

/// `old`'s input with `c` typed at the cursor.
pub open spec fn typed_text(old: App, c: char) -> Seq<char> {
    old.input_text@.insert(old.cursor_pos(), c)
}

/// `new` is `old` with `c` typed at the cursor and the editor height recomputed.
pub open spec fn char_typed(old: App, new: App, c: char) -> bool {
    &&& new.input_text@ == typed_text(old, c)
    &&& new.typed_visual_lines == visual_lines_of(typed_text(old, c), old.last_terminal_width)
    &&& new == App {
        input_text: new.input_text,
        input_cursor: (old.input_cursor + 1) as usize,
        typed_visual_lines: new.typed_visual_lines,
        ..old
    }
}

/// `new` is `old` with the input emptied and paste mode left.
pub open spec fn input_cleared(old: App, new: App) -> bool {
    &&& new.input_text@.len() == 0
    &&& new == App {
        input_text: new.input_text,
        input_cursor: 0,
        typed_visual_lines: 1,
        paste_line_count: None,
        ..old
    }
}

/// What Enter asks for: sending the input, unless it is blank.
pub open spec fn send_or_nothing(old: App, a: Action) -> bool {
    if all_ws(old.input_text@) {
        a is Nothing
    } else {
        a is SendMessage
    }
}

/// The `'@'` just typed before cursor `cur` of `t` starts a word: it is the
/// first character, or it follows a space or a newline.
pub open spec fn at_word_start(t: Seq<char>, cur: int) -> bool {
    cur <= 1 || t[cur - 2] == ' ' || t[cur - 2] == '\n'
}

/// A key that inserts a newline: Shift+Enter, Alt+Enter, Ctrl+J (how some
/// terminals send Shift+Enter) or a literal newline character.
pub open spec fn newline_key(key: KeyEvent) -> bool {
    ||| key.code == KeyCode::Enter && (key.modifiers.shift || key.modifiers.alt)
    ||| key.code == KeyCode::Char('j') && control_only(key.modifiers)
    ||| key.code == KeyCode::Char('\n')
}

/// A key in paste mode (a multi-line paste shown as one line): Enter sends,
/// Escape asks to quit, a character replaces the paste, anything else drops it.
pub open spec fn paste_mode_step(old: App, key: KeyEvent, new: App, a: Action) -> bool {
    match key.code {
        KeyCode::Enter => new == App { paste_line_count: None, ..old } && send_or_nothing(old, a),
        KeyCode::Esc => dialog_opened(old, new, Dialog::Quit) && a is Nothing,
        KeyCode::Char(c) => {
            &&& a is Nothing
            &&& new.input_text@ == seq![c]
            &&& new.typed_visual_lines == visual_lines_of(seq![c], old.last_terminal_width)
            &&& new == App {
                input_text: new.input_text,
                input_cursor: 1,
                typed_visual_lines: new.typed_visual_lines,
                paste_line_count: None,
                ..old
            }
        },
        _ => input_cleared(old, new) && a is Nothing,
    }
}

/// A key on the chat page when neither the autocomplete nor paste mode is active.
pub open spec fn chat_edit_step(old: App, key: KeyEvent, new: App, a: Action) -> bool {
    if newline_key(key) {
        char_typed(old, new, '\n') && a is Nothing
    } else if ctrl_key(key, 'a') {
        a is Nothing && new == App { input_cursor: 0, ..old }
    } else if ctrl_key(key, 'e') {
        a is Nothing && new == App { input_cursor: old.input_text@.len() as usize, ..old }
    } else if ctrl_key(key, 'u') {
        input_cleared(old, new) && a is Nothing
    } else {
        plain_key_step(old, key, new, a)
    }
}

/// A key on the chat page that is neither a newline nor an editing shortcut.
pub open spec fn plain_key_step(old: App, key: KeyEvent, new: App, a: Action) -> bool {
    match key.code {
        KeyCode::Enter => new == old && send_or_nothing(old, a),
        KeyCode::Esc => dialog_opened(old, new, Dialog::Quit) && a is Nothing,
        KeyCode::Char(c) => {
            let t = typed_text(old, c);
            let cur = old.input_cursor + 1;
            &&& a is Nothing
            &&& new.input_text@ == t
            &&& new.typed_visual_lines == visual_lines_of(t, old.last_terminal_width)
            &&& if c == '@' && at_word_start(t, cur) {
                &&& new.agent_autocomplete_filter@.len() == 0
                &&& new == App {
                    input_text: new.input_text,
                    input_cursor: cur as usize,
                    typed_visual_lines: new.typed_visual_lines,
                    agent_autocomplete_visible: true,
                    agent_autocomplete_filter: new.agent_autocomplete_filter,
                    agent_autocomplete_selected: 0,
                    ..old
                }
            } else {
                new == App {
                    input_text: new.input_text,
                    input_cursor: cur as usize,
                    typed_visual_lines: new.typed_visual_lines,
                    ..old
                }
            }
        },
        KeyCode::Backspace => char_deleted(old, new) && a is Nothing,
        KeyCode::Delete => {
            &&& a is Nothing
            &&& if old.input_cursor < old.input_text@.len() {
                &&& new.input_text@ == old.input_text@.remove(old.input_cursor as int)
                &&& new == App { input_text: new.input_text, ..old }
            } else {
                new == old
            }
        },
        KeyCode::Left => a is Nothing && new == App {
            input_cursor: if old.input_cursor > 0 {
                (old.input_cursor - 1) as usize
            } else {
                0
            },
            ..old
        },
        KeyCode::Right => a is Nothing && new == App {
            input_cursor: if old.input_cursor < old.input_text@.len() {
                (old.input_cursor + 1) as usize
            } else {
                old.input_cursor
            },
            ..old
        },
        KeyCode::Home => a is Nothing && new == App { message_scroll: usize::MAX, ..old },
        KeyCode::End => a is Nothing && new == App { message_scroll: 0, ..old },
        KeyCode::Tab => a is Nothing && new == App { active_page: Page::Logs, ..old },
        KeyCode::BackTab => a is Nothing && new == App {
            chat_mode: other_mode(old.chat_mode),
            ..old
        },
        KeyCode::Up | KeyCode::PageUp => a is Nothing && scrolled_up(old, new),
        KeyCode::Down | KeyCode::PageDown => a is Nothing && scrolled_down(old, new),
        _ => new == old && a is Nothing,
    }
}

/// The agents that the autocomplete offers for `app`'s current filter.
pub open spec fn offered_agents(app: App) -> Seq<crate::types::Agent> {
    app.agents@.filter(agent_matches(lowercase(app.agent_autocomplete_filter@)))
}

/// The autocomplete fields of `new` after the filter is read again from text `t`
/// with the cursor at `cur`: the filter is what lies between the last `'@'`
/// before the cursor and the cursor; the autocomplete closes when there is no
/// such `'@'` or that text holds a space or a newline.
pub open spec fn autocomplete_refreshed(old: App, new: App, t: Seq<char>, cur: int) -> bool {
    let before = t.take(cur);
    let at = last_index_of(before, '@');
    let f = before.subrange(at + 1, cur);
    if at >= 0 && !f.contains(' ') && !f.contains('\n') {
        &&& new.agent_autocomplete_filter@ == f
        &&& new.agent_autocomplete_selected == 0
        &&& new.agent_autocomplete_visible == old.agent_autocomplete_visible
    } else {
        &&& !new.agent_autocomplete_visible
        &&& new.agent_autocomplete_filter == old.agent_autocomplete_filter
        &&& new.agent_autocomplete_selected == old.agent_autocomplete_selected
    }
}

/// `new` differs from `old` at most in the input, the cursor, the editor height
/// and the autocomplete.
pub open spec fn only_input_changed(old: App, new: App) -> bool {
    new == App {
        input_text: new.input_text,
        input_cursor: new.input_cursor,
        typed_visual_lines: new.typed_visual_lines,
        agent_autocomplete_visible: new.agent_autocomplete_visible,
        agent_autocomplete_filter: new.agent_autocomplete_filter,
        agent_autocomplete_selected: new.agent_autocomplete_selected,
        ..old
    }
}

/// Enter or Tab in the autocomplete: replaces the `'@'` and filter before the
/// cursor with `'@'`, the highlighted agent's name and a space, and puts the
/// cursor after them (counting the name in bytes); closes the autocomplete.
pub open spec fn autocomplete_completed(old: App, new: App) -> bool {
    let agents = offered_agents(old);
    let sel = old.agent_autocomplete_selected;
    let cur = old.cursor_pos();
    let at = last_index_of(old.input_text@.take(cur), '@');
    if sel < agents.len() && at >= 0 {
        let name = agents[sel as int].name@;
        &&& new.input_text@ == old.input_text@.take(at) + seq!['@'] + name + seq![' ']
            + old.input_text@.skip(cur)
        &&& new.input_cursor == at + byte_len(name) + 2
        &&& new == App {
            input_text: new.input_text,
            input_cursor: new.input_cursor,
            agent_autocomplete_visible: false,
            ..old
        }
    } else {
        new == App { agent_autocomplete_visible: false, ..old }
    }
}

/// A key while the agent autocomplete is open.
pub open spec fn autocomplete_step(old: App, key: KeyEvent, new: App, a: Action) -> bool {
    &&& a is Nothing
    &&& match key.code {
        KeyCode::Esc => new == App { agent_autocomplete_visible: false, ..old },
        KeyCode::Up => new == App {
            agent_autocomplete_selected: if old.agent_autocomplete_selected > 0 {
                (old.agent_autocomplete_selected - 1) as usize
            } else {
                0
            },
            ..old
        },
        KeyCode::Down => new == App {
            agent_autocomplete_selected: if old.agent_autocomplete_selected
                < offered_agents(old).len() - 1 {
                (old.agent_autocomplete_selected + 1) as usize
            } else {
                old.agent_autocomplete_selected
            },
            ..old
        },
        KeyCode::Enter | KeyCode::Tab => autocomplete_completed(old, new),
        KeyCode::Backspace => {
            let t = if old.input_cursor > 0 {
                old.input_text@.remove(old.input_cursor - 1)
            } else {
                old.input_text@
            };
            let cur = if old.input_cursor > 0 {
                old.input_cursor - 1
            } else {
                0
            };
            &&& new.input_text@ == t
            &&& new.input_cursor == cur
            &&& new.typed_visual_lines == old.typed_visual_lines
            &&& autocomplete_refreshed(old, new, t, cur)
            &&& only_input_changed(old, new)
        },
        KeyCode::Char(c) => {
            let t = typed_text(old, c);
            let cur = old.input_cursor + 1;
            &&& new.input_text@ == t
            &&& new.input_cursor == cur
            &&& new.typed_visual_lines == visual_lines_of(t, old.last_terminal_width)
            &&& autocomplete_refreshed(old, new, t, cur)
            &&& only_input_changed(old, new)
        },
        _ => new == App { agent_autocomplete_visible: false, ..old },
    }
}

/// A key on the chat page.
pub open spec fn chat_step(old: App, key: KeyEvent, new: App, a: Action) -> bool {
    if old.agent_autocomplete_visible {
        autocomplete_step(old, key, new, a)
    } else if old.paste_line_count is Some {
        paste_mode_step(old, key, new, a)
    } else {
        chat_edit_step(old, key, new, a)
    }
}

/// A key on the logs page: Escape asks to quit.
pub open spec fn logs_step(old: App, key: KeyEvent, new: App, a: Action) -> bool {
    &&& a is Nothing
    &&& if key.code == KeyCode::Esc {
        dialog_opened(old, new, Dialog::Quit)
    } else if key.code == KeyCode::Tab {
        new == App { active_page: Page::Chat, ..old }
    } else {
        new == old
    }
}

/// The input's state allows any key to be handled: the cursor lies on the input,
/// and the lengths involved leave room for the edits a key makes.
pub open spec fn ready_for_key(app: App) -> bool {
    &&& app.input_ok()
    &&& app.dialog_selected < usize::MAX
    &&& forall|i: int|
        0 <= i < app.agents@.len() ==> byte_len(#[trigger] app.agents@[i].name@)
            + app.input_text@.len() + 2 < usize::MAX
}

/// Whether the '@' just typed (before the cursor) starts a word.
fn is_at_word_start(app: &App) -> (r: bool)
    requires
        app.input_cursor <= app.input_text@.len(),
    ensures
        r == at_word_start(app.input_text@, app.input_cursor as int),
{
    let cursor = app.input_cursor;
    if cursor <= 1 {
        return true;
    }
    let v = chars_of(app.input_text.as_str());
    let prev = v[cursor - 2];
    prev == ' ' || prev == '\n'
}

/// Reads the autocomplete filter again from the text before the cursor.
fn update_autocomplete_filter(app: &mut App)
    requires
        old(app).input_cursor <= old(app).input_text@.len(),
    ensures
        autocomplete_refreshed(
            *old(app),
            *final(app),
            old(app).input_text@,
            old(app).input_cursor as int,
        ),
        *final(app) == (App {
            agent_autocomplete_visible: final(app).agent_autocomplete_visible,
            agent_autocomplete_filter: final(app).agent_autocomplete_filter,
            agent_autocomplete_selected: final(app).agent_autocomplete_selected,
            ..*old(app)
        }),
{
    let v = chars_of(app.input_text.as_str());
    let cur = app.input_cursor;
    let before = crate::text::slice(&v, 0, cur);
    assert(before@ == app.input_text@.take(cur as int));
    match rfind_char(&before, '@') {
        Some(at) => {
            let f = crate::text::slice(&before, at + 1, cur);
            if crate::text::has_char(&f, ' ') || crate::text::has_char(&f, '\n') {
                app.agent_autocomplete_visible = false;
            } else {
                app.agent_autocomplete_filter = string_of(&f);
                app.agent_autocomplete_selected = 0;
            }
        },
        None => {
            app.agent_autocomplete_visible = false;
        },
    }
}

fn handle_agent_autocomplete_key(app: &mut App, key: KeyEvent) -> (a: Action)
    requires
        ready_for_key(*old(app)),
    ensures
        autocomplete_step(*old(app), key, *final(app), a),
{
    match key.code {
        KeyCode::Esc => {
            app.agent_autocomplete_visible = false;
        },
        KeyCode::Up => {
            if app.agent_autocomplete_selected > 0 {
                app.agent_autocomplete_selected = app.agent_autocomplete_selected - 1;
            }
        },
        KeyCode::Down => {
            let agents = app.filtered_agents();
            proof {
                assert(agents@.len() == agents@.map_values(|a: &crate::types::Agent| *a).len());
            }
            let last = agents.len().saturating_sub(1);
            if app.agent_autocomplete_selected < last {
                app.agent_autocomplete_selected = app.agent_autocomplete_selected + 1;
            }
        },
        KeyCode::Enter | KeyCode::Tab => {
            let agents = app.filtered_agents();
            proof {
                assert(agents@.len() == agents@.map_values(|a: &crate::types::Agent| *a).len());
            }
            let sel = app.agent_autocomplete_selected;
            if sel < agents.len() {
                let name = agents[sel].name.clone();
                proof {
                    assert(*agents@[sel as int] == offered_agents(*app)[sel as int]);
                    lemma_filter_member(
                        app.agents@,
                        agent_matches(lowercase(app.agent_autocomplete_filter@)),
                        sel as int,
                    );
                    let j = choose|j: int|
                        0 <= j < app.agents@.len() && app.agents@[j] == offered_agents(
                            *app,
                        )[sel as int];
                    assert(byte_len(app.agents@[j].name@) + app.input_text@.len() + 2
                        < usize::MAX);
                }
                let v = chars_of(app.input_text.as_str());
                let cur = app.input_cursor;
                let before = crate::text::slice(&v, 0, cur);
                assert(before@ == app.input_text@.take(cur as int));
                if let Some(at) = rfind_char(&before, '@') {
                    let nv = chars_of(name.as_str());
                    let mut w = crate::text::slice(&v, 0, at);
                    w.push('@');
                    crate::text::extend(&mut w, &nv);
                    w.push(' ');
                    let tail = crate::text::slice(&v, cur, v.len());
                    crate::text::extend(&mut w, &tail);
                    let blen = name.as_str().len();
                    proof {
                        assert(app.input_text@.skip(cur as int) =~= tail@);
                        assert(app.input_text@.take(at as int) =~= v@.subrange(0, at as int));
                        assert(blen == byte_len(name@));
                        assert(w@ =~= app.input_text@.take(at as int) + seq!['@'] + name@ + seq![' ']
                            + app.input_text@.skip(cur as int));
                    }
                    app.input_text = string_of(&w);
                    app.input_cursor = at + blen + 2;
                }
            }
            app.agent_autocomplete_visible = false;
        },
        KeyCode::Backspace => {
            app.delete_char();
            update_autocomplete_filter(app);
        },
        KeyCode::Char(c) => {
            app.insert_char(c);
            app.recalc_visual_lines();
            update_autocomplete_filter(app);
        },
        _ => {
            app.agent_autocomplete_visible = false;
        },
    }
    Action::Nothing
}

/// Types `c` at the cursor and recomputes the editor height.
fn type_char(app: &mut App, c: char)
    requires
        old(app).input_ok(),
    ensures
        char_typed(*old(app), *final(app), c),
        final(app).input_cursor <= final(app).input_text@.len(),
{
    app.insert_char(c);
    app.recalc_visual_lines();
}

fn handle_chat_key(app: &mut App, key: KeyEvent) -> (a: Action)
    requires
        ready_for_key(*old(app)),
    ensures
        chat_step(*old(app), key, *final(app), a),
{
    if app.agent_autocomplete_visible {
        return handle_agent_autocomplete_key(app, key);
    }
    if app.paste_line_count.is_some() {
        return match key.code {
            KeyCode::Enter => {
                app.paste_line_count = None;
                let v = chars_of(app.input_text.as_str());
                if !is_blank(&v) {
                    Action::SendMessage
                } else {
                    Action::Nothing
                }
            },
            KeyCode::Esc => {
                app.open_dialog(Dialog::Quit);
                Action::Nothing
            },
            _ => {
                app.clear_input();
                let ghost mid = *app;
                if let KeyCode::Char(c) = key.code {
                    type_char(app, c);
                    assert(mid.input_text@.insert(0, c) =~= seq![c]);
                }
                Action::Nothing
            },
        };
    }
    handle_edit_key(app, key)
}

/// A key on the chat page when neither the autocomplete nor paste mode is active.
fn handle_edit_key(app: &mut App, key: KeyEvent) -> (a: Action)
    requires
        ready_for_key(*old(app)),
        !old(app).agent_autocomplete_visible,
        old(app).paste_line_count is None,
    ensures
        chat_edit_step(*old(app), key, *final(app), a),
{
    let newline = (key.code == KeyCode::Enter && (key.modifiers.shift || key.modifiers.alt))
        || (key.code == KeyCode::Char('j') && key.modifiers.control && !key.modifiers.shift
        && !key.modifiers.alt && !key.modifiers.super_key && !key.modifiers.hyper
        && !key.modifiers.meta) || key.code == KeyCode::Char('\n');
    if newline {
        type_char(app, '\n');
        return Action::Nothing;
    }
    let m = key.modifiers;
    let ctrl = m.control && !m.shift && !m.alt && !m.super_key && !m.hyper && !m.meta;
    if ctrl && key.code == KeyCode::Char('a') {
        app.move_cursor_home();
        return Action::Nothing;
    }
    if ctrl && key.code == KeyCode::Char('e') {
        app.move_cursor_end();
        return Action::Nothing;
    }
    if ctrl && key.code == KeyCode::Char('u') {
        app.clear_input();
        return Action::Nothing;
    }
    handle_plain_key(app, key)
}

/// A key on the chat page that is neither a newline nor an editing shortcut.
fn handle_plain_key(app: &mut App, key: KeyEvent) -> (a: Action)
    requires
        ready_for_key(*old(app)),
        !old(app).agent_autocomplete_visible,
        old(app).paste_line_count is None,
    ensures
        plain_key_step(*old(app), key, *final(app), a),
{
    match key.code {
        KeyCode::Enter => {
            let v = chars_of(app.input_text.as_str());
            if !is_blank(&v) {
                Action::SendMessage
            } else {
                Action::Nothing
            }
        },
        KeyCode::Esc => {
            app.open_dialog(Dialog::Quit);
            Action::Nothing
        },
        KeyCode::Char(c) => {
            type_char(app, c);
            if c == '@' && is_at_word_start(app) {
                app.agent_autocomplete_visible = true;
                app.agent_autocomplete_filter = String::new();
                app.agent_autocomplete_selected = 0;
            }
            Action::Nothing
        },
        KeyCode::Backspace => {
            app.delete_char();
            Action::Nothing
        },
        KeyCode::Delete => {
            app.delete_char_forward();
            Action::Nothing
        },
        KeyCode::Left => {
            app.move_cursor_left();
            Action::Nothing
        },
        KeyCode::Right => {
            app.move_cursor_right();
            Action::Nothing
        },
        KeyCode::Home => {
            app.message_scroll = usize::MAX;
            Action::Nothing
        },
        KeyCode::End => {
            app.message_scroll = 0;
            Action::Nothing
        },
        KeyCode::Tab => {
            app.active_page = Page::Logs;
            Action::Nothing
        },
        KeyCode::BackTab => {
            app.chat_mode = app.chat_mode.toggle();
            Action::Nothing
        },
        KeyCode::Up | KeyCode::PageUp => {
            app.scroll_up();
            Action::Nothing
        },
        KeyCode::Down | KeyCode::PageDown => {
            app.scroll_down();
            Action::Nothing
        },
        _ => Action::Nothing,
    }
}

fn handle_logs_key(app: &mut App, key: KeyEvent) -> (a: Action)
    ensures
        logs_step(*old(app), key, *final(app), a),
{
    if key.code == KeyCode::Esc {
        app.open_dialog(Dialog::Quit);
    } else if key.code == KeyCode::Tab {
        app.active_page = Page::Chat;
    }
    Action::Nothing
}

// ───────────────────────── any key ─────────────────────────

/// `key` is Ctrl plus the character `ch`, with no other modifier.
pub open spec fn ctrl_key(key: KeyEvent, ch: char) -> bool {
    control_only(key.modifiers) && key.code == KeyCode::Char(ch)
}

/// `key` is `?` with no modifier other than Shift.
pub open spec fn help_key(key: KeyEvent) -> bool {
    &&& key.code == KeyCode::Char('?')
    &&& !key.modifiers.control && !key.modifiers.alt
    &&& !key.modifiers.super_key && !key.modifiers.hyper && !key.modifiers.meta
}

/// A key with no dialog open: the global bindings first (Ctrl+C aborts a busy
/// session when the input is empty and otherwise asks to quit; Ctrl+N a new
/// session, Ctrl+O/K/P/T the session, model, command and theme pickers, Ctrl+B
/// the sidebar, F1 or `?` help, Ctrl+L the page), then the page's own keys.
pub open spec fn global_step(old: App, key: KeyEvent, new: App, a: Action) -> bool {
    if ctrl_key(key, 'c') {
        if old.session_busy_spec() && old.input_text@.len() == 0 {
            new == old && a is AbortSession
        } else {
            dialog_opened(old, new, Dialog::Quit) && a is Nothing
        }
    } else if ctrl_key(key, 'n') {
        new == old && a is CreateSession
    } else if ctrl_key(key, 'o') {
        dialog_opened(old, new, Dialog::Sessions) && a is Nothing
    } else if ctrl_key(key, 'k') {
        dialog_opened(old, new, Dialog::Models) && a is Nothing
    } else if ctrl_key(key, 'p') {
        dialog_opened(old, new, Dialog::Commands) && a is Nothing
    } else if ctrl_key(key, 't') {
        dialog_opened(old, new, Dialog::Themes) && a is Nothing
    } else if ctrl_key(key, 'b') {
        sidebar_toggled(old, new) && a is Nothing
    } else if key.code == KeyCode::F(1) || help_key(key) {
        dialog_opened(old, new, Dialog::Help) && a is Nothing
    } else if ctrl_key(key, 'l') {
        a is Nothing && new == App {
            active_page: match old.active_page {
                Page::Chat => Page::Logs,
                Page::Logs => Page::Chat,
            },
            ..old
        }
    } else {
        match old.active_page {
            Page::Chat => chat_step(old, key, new, a),
            Page::Logs => logs_step(old, key, new, a),
        }
    }
}

/// What a key event does: only presses count; an open dialog takes the key first.
pub open spec fn key_step(old: App, key: KeyEvent, new: App, a: Action) -> bool {
    if key.kind != KeyEventKind::Press {
        new == old && a is Nothing
    } else {
        match old.active_dialog {
            Some(d) => dialog_step(old, key, d, new, a),
            None => global_step(old, key, new, a),
        }
    }
}

/// Handles a key event and returns the work it leaves for the event loop.
pub fn handle_key_event(app: &mut App, key: KeyEvent) -> (a: Action)
    requires
        ready_for_key(*old(app)),
    ensures
        key_step(*old(app), key, *final(app), a),
{
    if key.kind != KeyEventKind::Press {
        return Action::Nothing;
    }
    if let Some(dialog) = app.active_dialog {
        return handle_dialog_key(app, key, dialog);
    }
    let m = key.modifiers;
    let ctrl = m.control && !m.shift && !m.alt && !m.super_key && !m.hyper && !m.meta;
    if ctrl && key.code == KeyCode::Char('c') {
        if app.is_session_busy() && app.input_text.as_str().is_empty() {
            return Action::AbortSession;
        }
        app.open_dialog(Dialog::Quit);
        return Action::Nothing;
    }
    if ctrl && key.code == KeyCode::Char('n') {
        return Action::CreateSession;
    }
    if ctrl && key.code == KeyCode::Char('o') {
        app.open_dialog(Dialog::Sessions);
        return Action::Nothing;
    }
    if ctrl && key.code == KeyCode::Char('k') {
        app.open_dialog(Dialog::Models);
        return Action::Nothing;
    }
    if ctrl && key.code == KeyCode::Char('p') {
        app.open_dialog(Dialog::Commands);
        return Action::Nothing;
    }
    if ctrl && key.code == KeyCode::Char('t') {
        app.open_dialog(Dialog::Themes);
        return Action::Nothing;
    }
    if ctrl && key.code == KeyCode::Char('b') {
        app.toggle_sidebar();
        return Action::Nothing;
    }
    let help = key.code == KeyCode::Char('?') && !m.control && !m.alt && !m.super_key && !m.hyper
        && !m.meta;
    if key.code == KeyCode::F(1) || help {
        app.open_dialog(Dialog::Help);
        return Action::Nothing;
    }
    if ctrl && key.code == KeyCode::Char('l') {
        app.active_page = match app.active_page {
            Page::Chat => Page::Logs,
            Page::Logs => Page::Chat,
        };
        return Action::Nothing;
    }
    match app.active_page {
        Page::Chat => handle_chat_key(app, key),
        Page::Logs => handle_logs_key(app, key),
    }
}

// ───────────────────────── readiness ─────────────────────────

impl App {
    /// Whether the state allows any key to be handled (see `ready_for_key`).
    pub fn ready_for_key(&self) -> (r: bool)
        ensures
            r == ready_for_key(*self),
    {
        let len = chars_of(self.input_text.as_str()).len();
        if self.input_cursor > len || len >= usize::MAX - 2 || self.dialog_selected == usize::MAX {
            return false;
        }
        let limit: usize = usize::MAX - 3 - len;
        for i in 0..self.agents.len()
            invariant
                len == self.input_text@.len(),
                len < usize::MAX - 2,
                limit == usize::MAX - 3 - len,
                self.input_ok(),
                self.dialog_selected < usize::MAX,
                forall|j: int|
                    0 <= j < i ==> byte_len(#[trigger] self.agents@[j].name@) + self.input_text@.len()
                        + 2 < usize::MAX,
        {
            let nv = chars_of(self.agents[i].name.as_str());
            if utf8_len_upto(&nv, limit).is_none() {
                return false;
            }
        }
        true
    }
}

// ───────────────────────── paste ─────────────────────────

/// `s` with each "\r\n", and each other '\r', turned into '\n'.
pub open spec fn normalize_newlines(s: Seq<char>) -> Seq<char>
    decreases s.len(),
{
    if s.len() == 0 {
        s
    } else if s[0] == '\r' && s.len() >= 2 && s[1] == '\n' {
        seq!['\n'] + normalize_newlines(s.skip(2))
    } else if s[0] == '\r' {
        seq!['\n'] + normalize_newlines(s.skip(1))
    } else {
        seq![s[0]] + normalize_newlines(s.skip(1))
    }
}

/// Normalizing newlines never lengthens a text.
pub proof fn lemma_normalize_len(s: Seq<char>)
    ensures
        normalize_newlines(s).len() <= s.len(),
    decreases s.len(),
{
    if s.len() > 0 {
        if s[0] == '\r' && s.len() >= 2 && s[1] == '\n' {
            lemma_normalize_len(s.skip(2));
        } else {
            lemma_normalize_len(s.skip(1));
        }
    }
}

/// Turns "\r\n" and lone '\r' into '\n'.
pub fn normalize_newlines_of(s: &[char]) -> (r: Vec<char>)
    ensures
        r@ == normalize_newlines(s@),
{
    let mut out: Vec<char> = Vec::new();
    let mut i: usize = 0;
    assert(s@.skip(0) =~= s@);
    assert(out@ + normalize_newlines(s@) =~= normalize_newlines(s@));
    while i < s.len()
        invariant
            i <= s@.len(),
            normalize_newlines(s@) == out@ + normalize_newlines(s@.skip(i as int)),
        decreases s@.len() - i,
    {
        let ghost rest = s@.skip(i as int);
        assert(rest[0] == s@[i as int]);
        if s[i] == '\r' && i + 1 < s.len() && s[i + 1] == '\n' {
            assert(rest[1] == s@[i + 1]);
            assert(rest.skip(2) =~= s@.skip(i + 2));
            let ghost prev = out@;
            out.push('\n');
            assert(prev + (seq!['\n'] + normalize_newlines(rest.skip(2))) =~= out@
                + normalize_newlines(s@.skip(i + 2)));
            i = i + 2;
        } else {
            assert(rest.skip(1) =~= s@.skip(i + 1));
            let c = if s[i] == '\r' {
                '\n'
            } else {
                s[i]
            };
            let ghost prev = out@;
            out.push(c);
            assert(prev + (seq![c] + normalize_newlines(rest.skip(1))) =~= out@
                + normalize_newlines(s@.skip(i + 1)));
            i = i + 1;
        }
    }
    assert(s@.skip(i as int).len() == 0);
    assert(out@ + normalize_newlines(s@.skip(i as int)) =~= out@);
    out
}

/// What a paste does: the text, with newlines normalized, goes in at the cursor;
/// a paste of several lines enters paste mode (the editor shows the line count),
/// a single line just grows the editor.
pub open spec fn paste_step(old: App, text: Seq<char>, new: App) -> bool {
    let clean = normalize_newlines(text);
    let n = lines_spec(clean).len();
    let cur = old.input_cursor as int;
    let t = old.input_text@.take(cur) + clean + old.input_text@.skip(cur);
    &&& new.input_text@ == t
    &&& if n > 1 {
        new == App {
            input_text: new.input_text,
            input_cursor: (cur + clean.len()) as usize,
            paste_line_count: Some(n as usize),
            ..old
        }
    } else {
        &&& new.typed_visual_lines == visual_lines_of(t, old.last_terminal_width)
        &&& new == App {
            input_text: new.input_text,
            input_cursor: (cur + clean.len()) as usize,
            typed_visual_lines: new.typed_visual_lines,
            ..old
        }
    }
}

/// Handles pasted text (bracketed paste).
pub fn handle_paste(app: &mut App, text: &str)
    requires
        old(app).input_cursor <= old(app).input_text@.len(),
        old(app).input_text@.len() + text@.len() + 2 < usize::MAX,
    ensures
        paste_step(*old(app), text@, *final(app)),
{
    let raw = chars_of(text);
    let clean = normalize_newlines_of(&raw);
    proof {
        lemma_normalize_len(text@);
    }
    let n = line_count(&clean);
    let v = chars_of(app.input_text.as_str());
    let cur = app.input_cursor;
    let mut w = crate::text::slice(&v, 0, cur);
    crate::text::extend(&mut w, &clean);
    let tail = crate::text::slice(&v, cur, v.len());
    crate::text::extend(&mut w, &tail);
    proof {
        assert(v@.subrange(0, cur as int) =~= app.input_text@.take(cur as int));
        assert(tail@ =~= app.input_text@.skip(cur as int));
    }
    app.input_text = string_of(&w);
    app.input_cursor = cur + clean.len();
    if n > 1 {
        app.paste_line_count = Some(n);
    } else {
        app.recalc_visual_lines();
    }
}

// ───────────────────────── mouse ─────────────────────────

/// What the mouse wheel does: it moves the selection of an open dialog, else it
/// scrolls the messages.
pub open spec fn mouse_step(old: App, mouse: MouseEvent, new: App) -> bool {
    match mouse.kind {
        MouseEventKind::ScrollUp => if old.active_dialog is Some {
            selection_up(old, new)
        } else {
            scrolled_up(old, new)
        },
        MouseEventKind::ScrollDown => if old.active_dialog is Some {
            new == App { dialog_selected: (old.dialog_selected + 1) as usize, ..old }
        } else {
            scrolled_down(old, new)
        },
        MouseEventKind::Other => new == old,
    }
}

/// Handles a mouse event (the scroll wheel).
pub fn handle_mouse_event(app: &mut App, mouse: MouseEvent)
    requires
        old(app).active_dialog is Some ==> old(app).dialog_selected < usize::MAX,
    ensures
        mouse_step(*old(app), mouse, *final(app)),
{
    match mouse.kind {
        MouseEventKind::ScrollUp => {
            if app.active_dialog.is_some() {
                select_prev(app);
            } else {
                app.scroll_up();
            }
        },
        MouseEventKind::ScrollDown => {
            if app.active_dialog.is_some() {
                app.dialog_selected = app.dialog_selected + 1;
            } else {
                app.scroll_down();
            }
        },
        MouseEventKind::Other => {},
    }
}

// ───────────────────────── key bursts ─────────────────────────

/// Keys arriving this close together, this many or more, are a paste from a
/// terminal without bracketed paste.
pub const PASTE_BURST_THRESHOLD: usize = 5;

/// After each key of a burst, how long (ms) to wait for the next one.
pub const PASTE_BURST_WINDOW_MS: u64 = 5;

/// The longest (ms) a burst is collected.
pub const PASTE_BURST_MAX_MS: u64 = 200;

/// The character a key of a pasted burst stands for: Ctrl+J and Ctrl+M (and the
/// characters '\n', '\r', and Enter) are newlines, other characters themselves;
/// other keys stand for nothing.
pub open spec fn burst_char(k: KeyEvent) -> Option<char> {
    match k.code {
        KeyCode::Char(c) => if (c == 'j' || c == 'm') && k.modifiers.control {
            Some('\n')
        } else if c == '\n' || c == '\r' {
            Some('\n')
        } else {
            Some(c)
        },
        KeyCode::Enter => Some('\n'),
        _ => None,
    }
}

/// The text a burst of keys stands for.
pub open spec fn burst_text(keys: Seq<KeyEvent>) -> Seq<char>
    decreases keys.len(),
{
    if keys.len() == 0 {
        Seq::empty()
    } else {
        let t = burst_text(keys.drop_last());
        match burst_char(keys.last()) {
            Some(c) => t.push(c),
            None => t,
        }
    }
}

/// A burst's text has at most one character per key.
pub proof fn lemma_burst_text_len(keys: Seq<KeyEvent>)
    ensures
        burst_text(keys).len() <= keys.len(),
    decreases keys.len(),
{
    if keys.len() > 0 {
        lemma_burst_text_len(keys.drop_last());
    }
}

/// The text a burst of keys stands for.
pub fn key_burst_to_paste(keys: &[KeyEvent]) -> (r: String)
    ensures
        r@ == burst_text(keys@),
{
    let mut text = String::new();
    for i in 0..keys.len()
        invariant
            text@ == burst_text(keys@.take(i as int)),
    {
        let k = keys[i];
        assert(keys@.take(i + 1).drop_last() =~= keys@.take(i as int));
        assert(keys@.take(i + 1).last() == k);
        match k.code {
            KeyCode::Char(c) => {
                if (c == 'j' || c == 'm') && k.modifiers.control {
                    push_char(&mut text, '\n');
                } else if c == '\n' || c == '\r' {
                    push_char(&mut text, '\n');
                } else {
                    push_char(&mut text, c);
                }
            },
            KeyCode::Enter => push_char(&mut text, '\n'),
            _ => {},
        }
    }
    assert(keys@.take(keys@.len() as int) =~= keys@);
    text
}

/// Handles a burst of keys that came in together: a burst of at least
/// `PASTE_BURST_THRESHOLD` keys is pasted as text (returns `true`); a shorter one
/// is left for key-by-key handling (returns `false`, nothing changed): each key
/// in turn goes through `handle_key_event`, its action is carried out, and
/// `App::after_action` stops the rest at the first that quits.
pub fn handle_key_burst(app: &mut App, keys: &[KeyEvent]) -> (pasted: bool)
    requires
        old(app).input_cursor <= old(app).input_text@.len(),
        old(app).input_text@.len() + keys@.len() + 2 < usize::MAX,
    ensures
        pasted == (keys@.len() >= PASTE_BURST_THRESHOLD),
        pasted ==> paste_step(*old(app), burst_text(keys@), *final(app)),
        !pasted ==> *final(app) == *old(app),
{
    if keys.len() >= PASTE_BURST_THRESHOLD {
        let text = key_burst_to_paste(keys);
        proof {
            lemma_burst_text_len(keys@);
        }
        handle_paste(app, text.as_str());
        true
    } else {
        false
    }
}

/// Keys being collected into a burst, with the times (ms) until which more are
/// awaited.
pub struct KeyBurst {
    pub keys: Vec<KeyEvent>,
    /// The window after the latest key.
    pub deadline: u64,
    /// The end of the whole collection.
    pub max_deadline: u64,
}

impl KeyBurst {
    /// Starts a burst with its first key at time `now`.
    pub fn start(first: KeyEvent, now: u64) -> (b: KeyBurst)
        requires
            now + PASTE_BURST_MAX_MS <= u64::MAX,
        ensures
            b.keys@ == seq![first],
            b.deadline == now + PASTE_BURST_WINDOW_MS,
            b.max_deadline == now + PASTE_BURST_MAX_MS,
    {
        let mut keys = Vec::new();
        keys.push(first);
        KeyBurst {
            keys,
            deadline: now + PASTE_BURST_WINDOW_MS,
            max_deadline: now + PASTE_BURST_MAX_MS,
        }
    }

    /// Until when to wait for the next key: the window's end, but never past the
    /// end of the whole collection.
    pub fn wait_until(&self) -> (t: u64)
        ensures
            t == (if self.deadline < self.max_deadline {
                self.deadline
            } else {
                self.max_deadline
            }),
    {
        if self.deadline < self.max_deadline {
            self.deadline
        } else {
            self.max_deadline
        }
    }

    /// A key arrived at time `now`: presses join the burst; any key extends the window.
    pub fn on_key(&mut self, k: KeyEvent, now: u64)
        requires
            now + PASTE_BURST_WINDOW_MS <= u64::MAX,
        ensures
            final(self).keys@ == (if k.kind == KeyEventKind::Press {
                old(self).keys@.push(k)
            } else {
                old(self).keys@
            }),
            final(self).deadline == now + PASTE_BURST_WINDOW_MS,
            final(self).max_deadline == old(self).max_deadline,
    {
        if k.kind == KeyEventKind::Press {
            self.keys.push(k);
        }
        self.deadline = now + PASTE_BURST_WINDOW_MS;
    }
}

} // verus!
