//! The client's state: what it knows of the server and what the user sees.

use vstd::prelude::*;

use crate::status_map::StatusMap;
use crate::editor::{editor_layout, layout_rows};
use crate::seq_util::lemma_filter_take;
use crate::text::{chars_of, contains, contains_spec, lowercase, string_from, string_of, to_lowercase};
use crate::types::{
    Agent, Command, MessageWithParts, PermissionRequest, Project, Provider, QuestionRequest,
    Session, Todo, Toast,
};

verus! {

// ───────────────────────── UI enums ─────────────────────────

/// The page shown in the main area.
#[derive(Debug, Clone, Copy, PartialEq, Eq, Structural)]
pub enum Page {
    Chat,
    Logs,
}

/// A dialog shown over the page.
#[derive(Debug, Clone, Copy, PartialEq, Eq, Structural)]
pub enum Dialog {
    Sessions,
    Models,
    Commands,
    Help,
    Themes,
    Permission,
    Question,
    Quit,
}

/// Whether the assistant may change files (Build) or only plans (Plan).
#[derive(Debug, Clone, Copy, PartialEq, Eq, Structural)]
pub enum ChatMode {
    Build,
    Plan,
}

/// The mode other than `m`.
pub open spec fn other_mode(m: ChatMode) -> ChatMode {
    match m {
        ChatMode::Build => ChatMode::Plan,
        ChatMode::Plan => ChatMode::Build,
    }
}

impl ChatMode {
    /// The other mode.
    pub fn toggle(self) -> (r: ChatMode)
        ensures
            r == other_mode(self),
    {
        match self {
            ChatMode::Build => ChatMode::Plan,
            ChatMode::Plan => ChatMode::Build,
        }
    }

    /// The mode's name as shown in the status bar.
    pub fn label(self) -> (r: &'static str)
        ensures
            r@ == (match self {
                ChatMode::Build => "Build"@,
                ChatMode::Plan => "Plan"@,
            }),
    {
        match self {
            ChatMode::Build => "Build",
            ChatMode::Plan => "Plan",
        }
    }
}

/// The longest input, in visual lines, that the editor grows to show.
pub const EDITOR_MAX_LINES: usize = 8;

/// Milliseconds a toast stays on screen.
pub const TOAST_DURATION_MS: u64 = 5000;

/// `new` is `old` with `c` typed at the cursor (the cursor moved back onto
/// the input first) and the cursor moved past it.
pub open spec fn char_inserted(old: App, new: App, c: char) -> bool {
    &&& new.input_text@ == old.input_text@.insert(old.cursor_pos(), c)
    &&& new == App {
        input_text: new.input_text,
        input_cursor: (old.input_cursor + 1) as usize,
        ..old
    }
}

/// `new` is `old` after a backspace: the character before the cursor is gone
/// and the cursor moved back onto its place; nothing changes at the start.
pub open spec fn char_deleted(old: App, new: App) -> bool {
    if old.input_cursor > 0 {
        &&& new.input_text@ == old.input_text@.remove(old.input_cursor - 1)
        &&& new == App {
            input_text: new.input_text,
            input_cursor: (old.input_cursor - 1) as usize,
            ..old
        }
    } else {
        new == old
    }
}

/// `new` is `old` with the dialog closed, its filter emptied and its selection reset.
pub open spec fn dialog_closed(old: App, new: App) -> bool {
    &&& new.dialog_filter@.len() == 0
    &&& new == App { active_dialog: None, dialog_filter: new.dialog_filter, dialog_selected: 0, ..old }
}

/// `new` is `old` with dialog `d` opened, its filter empty and its selection reset.
pub open spec fn dialog_opened(old: App, new: App, d: Dialog) -> bool {
    &&& new.dialog_filter@.len() == 0
    &&& new == App {
        active_dialog: Some(d),
        dialog_filter: new.dialog_filter,
        dialog_selected: 0,
        ..old
    }
}

/// `new` is `old` with the sidebar shown if it was hidden and hidden if it was shown.
pub open spec fn sidebar_toggled(old: App, new: App) -> bool {
    new == App { sidebar_visible: !old.sidebar_visible, ..old }
}

/// `new` is `old` scrolled one row up, saturating at the largest offset.
pub open spec fn scrolled_up(old: App, new: App) -> bool {
    new == App {
        message_scroll: if old.message_scroll < usize::MAX {
            (old.message_scroll + 1) as usize
        } else {
            usize::MAX
        },
        ..old
    }
}

/// `new` is `old` scrolled one row down, stopping at the newest messages.
pub open spec fn scrolled_down(old: App, new: App) -> bool {
    new == App {
        message_scroll: if old.message_scroll > 0 {
            (old.message_scroll - 1) as usize
        } else {
            0
        },
        ..old
    }
}

// ───────────────────────── App ─────────────────────────

/// Everything the client knows and shows.
///
/// Times are milliseconds on a clock that the caller supplies.
#[derive(Debug)]
pub struct App {
    // Connection
    pub base_url: String,
    pub connected: bool,
    // Sessions
    pub sessions: Vec<Session>,
    pub current_session: Option<Session>,
    pub session_statuses: StatusMap,
    // Messages
    pub messages: Vec<MessageWithParts>,
    pub message_scroll: usize,
    // Providers / models: (provider id, model id)
    pub providers: Vec<Provider>,
    pub current_model: Option<(String, String)>,
    // Agents / commands
    pub agents: Vec<Agent>,
    pub commands: Vec<Command>,
    // Project
    pub project: Option<Project>,
    pub todos: Vec<Todo>,
    // Pending interactions
    pub pending_permissions: Vec<PermissionRequest>,
    pub pending_questions: Vec<QuestionRequest>,
    // UI state
    pub active_page: Page,
    pub active_dialog: Option<Dialog>,
    pub input_text: String,
    /// Cursor position in the input, in characters.
    pub input_cursor: usize,
    pub sidebar_visible: bool,
    pub sidebar_selected: usize,
    pub chat_mode: ChatMode,
    /// Number of lines of a multi-line paste shown as `[Pasted N lines]`.
    pub paste_line_count: Option<usize>,
    /// Number of visual lines the typed input takes in the editor.
    pub typed_visual_lines: usize,
    pub last_terminal_width: u16,
    // `@agent` autocomplete
    pub agent_autocomplete_visible: bool,
    pub agent_autocomplete_filter: String,
    pub agent_autocomplete_selected: usize,
    // Dialog filter state
    pub dialog_filter: String,
    pub dialog_selected: usize,
    // App status
    pub should_quit: bool,
    pub toast: Option<Toast>,
    /// When the toast was shown.
    pub toast_time: Option<u64>,
    pub status_message: String,
    pub is_busy: bool,
    // Theme
    pub theme_name: String,
}

impl App {
    /// The state of a client that has not yet heard from the server.
    pub open spec fn initial(self, base_url: Seq<char>) -> bool {
        &&& self.base_url@ == base_url
        &&& !self.connected
        &&& self.sessions@.len() == 0
        &&& self.current_session is None
        &&& self.session_statuses@ == Map::<Seq<char>, crate::types::SessionStatus>::empty()
        &&& self.messages@.len() == 0
        &&& self.message_scroll == 0
        &&& self.providers@.len() == 0
        &&& self.current_model is None
        &&& self.agents@.len() == 0
        &&& self.commands@.len() == 0
        &&& self.project is None
        &&& self.todos@.len() == 0
        &&& self.pending_permissions@.len() == 0
        &&& self.pending_questions@.len() == 0
        &&& self.active_page == Page::Chat
        &&& self.active_dialog is None
        &&& self.input_text@.len() == 0
        &&& self.input_cursor == 0
        &&& !self.sidebar_visible
        &&& self.sidebar_selected == 0
        &&& self.chat_mode == ChatMode::Build
        &&& self.paste_line_count is None
        &&& self.typed_visual_lines == 1
        &&& self.last_terminal_width == 80
        &&& !self.agent_autocomplete_visible
        &&& self.agent_autocomplete_filter@.len() == 0
        &&& self.agent_autocomplete_selected == 0
        &&& self.dialog_filter@.len() == 0
        &&& self.dialog_selected == 0
        &&& !self.should_quit
        &&& self.toast is None
        &&& self.toast_time is None
        &&& self.status_message@.len() == 0
        &&& !self.is_busy
        &&& self.theme_name@ == "default"@
    }

    /// A client for the server at `base_url` that has not yet heard from it.
    pub fn new(base_url: String) -> (r: App)
        ensures
            r.initial(base_url@),
    {
        App {
            base_url,
            connected: false,
            sessions: Vec::new(),
            current_session: None,
            session_statuses: StatusMap::new(),
            messages: Vec::new(),
            message_scroll: 0,
            providers: Vec::new(),
            current_model: None,
            agents: Vec::new(),
            commands: Vec::new(),
            project: None,
            todos: Vec::new(),
            pending_permissions: Vec::new(),
            pending_questions: Vec::new(),
            active_page: Page::Chat,
            active_dialog: None,
            input_text: String::new(),
            input_cursor: 0,
            sidebar_visible: false,
            sidebar_selected: 0,
            chat_mode: ChatMode::Build,
            paste_line_count: None,
            typed_visual_lines: 1,
            last_terminal_width: 80,
            agent_autocomplete_visible: false,
            agent_autocomplete_filter: String::new(),
            agent_autocomplete_selected: 0,
            dialog_filter: String::new(),
            dialog_selected: 0,
            should_quit: false,
            toast: None,
            toast_time: None,
            status_message: String::new(),
            is_busy: false,
            theme_name: string_from("default"),
        }
    }

    // ───────────────────────── input editing ─────────────────────────

    /// The cursor position, moved back onto the input when it lies past its end.
    pub open spec fn cursor_pos(self) -> int {
        if self.input_cursor <= self.input_text@.len() {
            self.input_cursor as int
        } else {
            self.input_text@.len() as int
        }
    }

    /// Inserts `c` at the cursor and moves the cursor past it.
    pub fn insert_char(&mut self, c: char)
        requires
            old(self).input_cursor < usize::MAX,
        ensures
            char_inserted(*old(self), *final(self), c),
    {
        let mut v = chars_of(self.input_text.as_str());
        let pos = if self.input_cursor <= v.len() {
            self.input_cursor
        } else {
            v.len()
        };
        v.insert(pos, c);
        self.input_text = string_of(&v);
        self.input_cursor = self.input_cursor + 1;
    }

    /// Deletes the character before the cursor (backspace).
    pub fn delete_char(&mut self)
        requires
            old(self).input_cursor <= old(self).input_text@.len(),
        ensures
            char_deleted(*old(self), *final(self)),
    {
        if self.input_cursor > 0 {
            self.input_cursor = self.input_cursor - 1;
            let mut v = chars_of(self.input_text.as_str());
            v.remove(self.input_cursor);
            self.input_text = string_of(&v);
        }
    }

    /// Deletes the character at the cursor (delete key).
    pub fn delete_char_forward(&mut self)
        ensures
            old(self).input_cursor < old(self).input_text@.len() ==> final(self).input_text@
                == old(self).input_text@.remove(old(self).input_cursor as int),
            old(self).input_cursor >= old(self).input_text@.len() ==> *final(self) == *old(self),
            *final(self) == (App { input_text: final(self).input_text, ..*old(self) }),
    {
        let mut v = chars_of(self.input_text.as_str());
        if self.input_cursor < v.len() {
            v.remove(self.input_cursor);
            self.input_text = string_of(&v);
        }
    }

    /// Moves the cursor one character to the left.
    pub fn move_cursor_left(&mut self)
        ensures
            final(self).input_cursor == (if old(self).input_cursor > 0 {
                (old(self).input_cursor - 1) as usize
            } else {
                0
            }),
            *final(self) == (App { input_cursor: final(self).input_cursor, ..*old(self) }),
    {
        if self.input_cursor > 0 {
            self.input_cursor = self.input_cursor - 1;
        }
    }

    /// Moves the cursor one character to the right, stopping at the end of the input.
    pub fn move_cursor_right(&mut self)
        ensures
            final(self).input_cursor == (if old(self).input_cursor < old(self).input_text@.len() {
                (old(self).input_cursor + 1) as usize
            } else {
                old(self).input_cursor
            }),
            *final(self) == (App { input_cursor: final(self).input_cursor, ..*old(self) }),
    {
        let n = chars_of(self.input_text.as_str()).len();
        if self.input_cursor < n {
            self.input_cursor = self.input_cursor + 1;
        }
    }

    /// Moves the cursor to the start of the input.
    pub fn move_cursor_home(&mut self)
        ensures
            *final(self) == (App { input_cursor: 0, ..*old(self) }),
    {
        self.input_cursor = 0;
    }

    /// Moves the cursor to the end of the input.
    pub fn move_cursor_end(&mut self)
        ensures
            final(self).input_cursor == old(self).input_text@.len(),
            *final(self) == (App { input_cursor: final(self).input_cursor, ..*old(self) }),
    {
        self.input_cursor = chars_of(self.input_text.as_str()).len();
    }

    /// Empties the input and leaves paste mode.
    pub fn clear_input(&mut self)
        ensures
            final(self).input_text@.len() == 0,
            *final(self) == (App {
                input_text: final(self).input_text,
                input_cursor: 0,
                typed_visual_lines: 1,
                paste_line_count: None,
                ..*old(self)
            }),
    {
        self.input_text = String::new();
        self.input_cursor = 0;
        self.typed_visual_lines = 1;
        self.paste_line_count = None;
    }

    // ───────────────────────── scrolling ─────────────────────────

    /// Scrolls the message list one row up (away from the newest messages).
    pub fn scroll_up(&mut self)
        ensures
            scrolled_up(*old(self), *final(self)),
    {
        self.message_scroll = self.message_scroll.saturating_add(1);
    }

    /// Scrolls the message list one row down, stopping at the newest messages.
    pub fn scroll_down(&mut self)
        ensures
            scrolled_down(*old(self), *final(self)),
    {
        self.message_scroll = self.message_scroll.saturating_sub(1);
    }

    // ───────────────────────── UI helpers ─────────────────────────

    /// Shows the sidebar if hidden, hides it if shown.
    pub fn toggle_sidebar(&mut self)
        ensures
            sidebar_toggled(*old(self), *final(self)),
    {
        self.sidebar_visible = !self.sidebar_visible;
    }

    /// Opens `dialog` with an empty filter and the first entry selected.
    pub fn open_dialog(&mut self, dialog: Dialog)
        ensures
            dialog_opened(*old(self), *final(self), dialog),
    {
        self.active_dialog = Some(dialog);
        self.dialog_filter = String::new();
        self.dialog_selected = 0;
    }

    /// Closes the dialog, emptying its filter and selection.
    pub fn close_dialog(&mut self)
        ensures
            dialog_closed(*old(self), *final(self)),
    {
        self.active_dialog = None;
        self.dialog_filter = String::new();
        self.dialog_selected = 0;
    }

    /// The title shown for the current session.
    pub open spec fn session_title_spec(self) -> Seq<char> {
        match self.current_session {
            Some(s) => match s.title {
                Some(t) => t@,
                None => "New Session"@,
            },
            None => "New Session"@,
        }
    }

    /// The title of the current session, or "New Session".
    pub fn current_session_title(&self) -> (r: &str)
        ensures
            r@ == self.session_title_spec(),
    {
        match &self.current_session {
            Some(s) => match &s.title {
                Some(t) => t.as_str(),
                None => "New Session",
            },
            None => "New Session",
        }
    }

    /// Whether the current session is busy: its status when known, else `is_busy`.
    pub open spec fn session_busy_spec(self) -> bool {
        match self.current_session {
            Some(s) => if self.session_statuses@.contains_key(s.id@) {
                self.session_statuses@[s.id@] is Busy
            } else {
                self.is_busy
            },
            None => self.is_busy,
        }
    }

    /// Whether the current session is busy.
    pub fn is_session_busy(&self) -> (r: bool)
        ensures
            r == self.session_busy_spec(),
    {
        if let Some(session) = &self.current_session {
            if let Some(status) = self.session_statuses.get(session.id.as_str()) {
                return status.is_busy();
            }
        }
        self.is_busy
    }

    /// The name shown for the project.
    pub open spec fn project_name_spec(self) -> Seq<char> {
        match self.project {
            Some(p) => match p.name {
                Some(n) => n@,
                None => "opencode"@,
            },
            None => "opencode"@,
        }
    }

    /// The project's name, or "opencode".
    pub fn project_name(&self) -> (r: &str)
        ensures
            r@ == self.project_name_spec(),
    {
        match &self.project {
            Some(p) => match &p.name {
                Some(n) => n.as_str(),
                None => "opencode",
            },
            None => "opencode",
        }
    }

    /// The project's version-control branch, if known.
    pub open spec fn vcs_branch_spec(self) -> Option<Seq<char>> {
        match self.project {
            Some(p) => match p.vcs {
                Some(v) => match v.branch {
                    Some(b) => Some(b@),
                    None => None,
                },
                None => None,
            },
            None => None,
        }
    }

    /// The project's version-control branch, if known.
    pub fn vcs_branch(&self) -> (r: Option<String>)
        ensures
            match r {
                Some(b) => self.vcs_branch_spec() == Some(b@),
                None => self.vcs_branch_spec() is None,
            },
    {
        match &self.project {
            Some(p) => match &p.vcs {
                Some(v) => match &v.branch {
                    Some(b) => Some(b.clone()),
                    None => None,
                },
                None => None,
            },
            None => None,
        }
    }

    /// Hides the toast once it has been shown for `TOAST_DURATION_MS`.
    pub fn tick_toast(&mut self, now: u64)
        ensures
            match old(self).toast_time {
                Some(t) => if now >= t && now - t >= TOAST_DURATION_MS {
                    *final(self) == (App { toast: None, toast_time: None, ..*old(self) })
                } else {
                    *final(self) == *old(self)
                },
                None => *final(self) == *old(self),
            },
    {
        if let Some(t) = self.toast_time {
            if now >= t && now - t >= TOAST_DURATION_MS {
                self.toast = None;
                self.toast_time = None;
            }
        }
    }
}


/// Width of the editor's text area for a terminal `width` columns wide.
pub open spec fn editor_width(width: u16) -> int {
    if width >= 3 {
        width - 2
    } else {
        1
    }
}

/// Number of visual rows `text` takes in an editor on a terminal `width` columns wide.
pub open spec fn visual_lines_of(text: Seq<char>, width: u16) -> int {
    layout_rows(text, editor_width(width)).len() as int
}

/// An agent that the autocomplete offers for the (lowercased) filter `f`: not
/// hidden, and its lowercased name contains `f`.
pub open spec fn agent_matches(f: Seq<char>) -> spec_fn(Agent) -> bool {
    |a: Agent| a.hidden != Some(true) && contains_spec(lowercase(a.name@), f)
}

impl App {
    /// The input is consistent: the cursor lies on it, and its length leaves room
    /// for the edits one key makes.
    pub open spec fn input_ok(self) -> bool {
        &&& self.input_cursor <= self.input_text@.len()
        &&& self.input_text@.len() + 2 < usize::MAX
    }

    /// Recomputes how many visual rows the typed input takes.
    pub fn recalc_visual_lines(&mut self)
        requires
            old(self).input_text@.len() + 1 < usize::MAX,
        ensures
            final(self).typed_visual_lines == visual_lines_of(
                old(self).input_text@,
                old(self).last_terminal_width,
            ),
            *final(self) == (App { typed_visual_lines: final(self).typed_visual_lines, ..*old(self) }),
    {
        let width: usize = if self.last_terminal_width >= 3 {
            (self.last_terminal_width - 2) as usize
        } else {
            1
        };
        let text = chars_of(self.input_text.as_str());
        let layout = editor_layout(&text, width, 0);
        proof {
            assert(layout.rows@.len() == layout.rows@.map_values(|x: crate::editor::VisualRow| crate::editor::row_view(x)).len());
        }
        self.typed_visual_lines = layout.rows.len();
    }

    /// Height of the editor box, borders included: one row in paste mode, else as
    /// many rows as the input takes, at most `EDITOR_MAX_LINES`.
    pub fn editor_height(&self) -> (h: u16)
        ensures
            h == (if self.paste_line_count is Some {
                3
            } else if self.typed_visual_lines == 0 {
                3
            } else if self.typed_visual_lines > EDITOR_MAX_LINES {
                EDITOR_MAX_LINES + 2
            } else {
                self.typed_visual_lines + 2
            }),
    {
        if self.paste_line_count.is_some() {
            3
        } else if self.typed_visual_lines == 0 {
            3
        } else if self.typed_visual_lines > EDITOR_MAX_LINES {
            (EDITOR_MAX_LINES + 2) as u16
        } else {
            (self.typed_visual_lines + 2) as u16
        }
    }

    /// The agents the autocomplete offers for its current filter.
    pub fn filtered_agents(&self) -> (r: Vec<&Agent>)
        ensures
            r@.map_values(|a: &Agent| *a) == self.agents@.filter(
                agent_matches(lowercase(self.agent_autocomplete_filter@)),
            ),
    {
        let f = to_lowercase(self.agent_autocomplete_filter.as_str());
        let fv = chars_of(f.as_str());
        let ghost p = agent_matches(lowercase(self.agent_autocomplete_filter@));
        let mut r: Vec<&Agent> = Vec::new();
        for i in 0..self.agents.len()
            invariant
                fv@ == lowercase(self.agent_autocomplete_filter@),
                p == agent_matches(lowercase(self.agent_autocomplete_filter@)),
                r@.map_values(|a: &Agent| *a) == self.agents@.take(i as int).filter(p),
        {
            proof {
                lemma_filter_take(self.agents@, p, i as int);
            }
            let a = &self.agents[i];
            let hidden = match a.hidden {
                Some(h) => h,
                None => false,
            };
            let name = to_lowercase(a.name.as_str());
            let nv = chars_of(name.as_str());
            let ghost prev = r@;
            if !hidden && contains(&nv, &fv) {
                r.push(a);
                proof {
                    assert(r@.map_values(|a: &Agent| *a) =~= prev.map_values(|a: &Agent| *a).push(*a));
                }
            }
        }
        assert(self.agents@.take(self.agents@.len() as int) == self.agents@);
        r
    }
}

} // verus!
