//! The client's side of its conversations with the server: what it sends, and
//! what it makes of the answers (the network calls themselves are made by the
//! caller).

use vstd::prelude::*;

use crate::api::{ModelSelector, PartInput, SendMessageRequest};
use crate::seq_util::{first_index, lemma_first_index};
use crate::state::App;
use crate::state_events::session_has_id;
use crate::text::{chars_of, concat, is_blank, str_eq, string_from, string_of, trim, trim_spec};
use crate::types::{Agent, Command, MessageWithParts, Project, Provider, Session, Todo};
use crate::view::{decimal, decimal_chars};

verus! {

// ───────────────────────── sending a prompt ─────────────────────────

/// The prompt sent for the current input: its trimmed text as one text part,
/// with the chosen model; nothing when the input is blank.
pub open spec fn prompt_matches(app: App, r: Option<SendMessageRequest>) -> bool {
    let text = trim_spec(app.input_text@);
    if text.len() == 0 {
        r is None
    } else {
        &&& r matches Some(req)
        &&& req.parts@.len() == 1
        &&& req.parts@[0] matches PartInput::Text { id: None, text: t, synthetic: None, ignored: None }
            && t@ == text
        &&& match app.current_model {
            Some((p, m)) => req.model == Some(ModelSelector { provider_id: p, model_id: m }),
            None => req.model is None,
        }
        &&& req.message_id is None && req.agent is None && req.no_reply is None
        &&& req.system is None && req.variant is None && req.format is None
    }
}

impl App {
    /// The prompt to send for the current input, if it is not blank.
    pub fn prompt_request(&self) -> (r: Option<SendMessageRequest>)
        ensures
            prompt_matches(*self, r),
    {
        let v = chars_of(self.input_text.as_str());
        let t = trim(&v);
        if t.len() == 0 {
            return None;
        }
        let model = match &self.current_model {
            Some((p, m)) => Some(ModelSelector { provider_id: p.clone(), model_id: m.clone() }),
            None => None,
        };
        let mut parts: Vec<PartInput> = Vec::new();
        parts.push(PartInput::Text { id: None, text: string_of(&t), synthetic: None, ignored: None });
        Some(
            SendMessageRequest {
                parts,
                message_id: None,
                model,
                agent: None,
                no_reply: None,
                system: None,
                variant: None,
                format: None,
            },
        )
    }

    /// The prompt was accepted: the input is emptied and the session counts as busy.
    pub fn on_prompt_sent(&mut self)
        ensures
            final(self).input_text@.len() == 0,
            *final(self) == (App {
                input_text: final(self).input_text,
                input_cursor: 0,
                is_busy: true,
                ..*old(self)
            }),
    {
        self.input_text = String::new();
        self.input_cursor = 0;
        self.is_busy = true;
    }

    /// The session whose operation an abort stops: the current one, if any.
    pub fn abort_target(&self) -> (r: Option<String>)
        ensures
            match self.current_session {
                Some(s) => r == Some(s.id),
                None => r is None,
            },
    {
        match &self.current_session {
            Some(s) => Some(s.id.clone()),
            None => None,
        }
    }

    /// The abort went through: the session is no longer busy.
    pub fn on_aborted(&mut self)
        ensures
            *final(self) == (App { is_busy: false, ..*old(self) }),
    {
        self.is_busy = false;
    }

    // ───────────────────────── sessions ─────────────────────────

    /// The known session with id `id`, if any (the first such).
    pub fn find_session(&self, id: &str) -> (r: Option<Session>)
        ensures
            ({
                let i = first_index(self.sessions@, session_has_id(id@));
                if i >= 0 {
                    r == Some(self.sessions@[i])
                } else {
                    r is None
                }
            }),
    {
        for i in 0..self.sessions.len()
            invariant
                forall|j: int| 0 <= j < i ==> !session_has_id(id@)(#[trigger] self.sessions@[j]),
        {
            if str_eq(self.sessions[i].id.as_str(), id) {
                proof {
                    lemma_first_index(self.sessions@, session_has_id(id@), i as int);
                }
                return Some(self.sessions[i].clone());
            }
        }
        proof {
            lemma_first_index(self.sessions@, session_has_id(id@), self.sessions@.len() as int);
        }
        None
    }

    /// Makes `s` the current session.
    pub fn show_session(&mut self, s: Session)
        ensures
            *final(self) == (App { current_session: Some(s), ..*old(self) }),
    {
        self.current_session = Some(s);
    }

    /// The current session's messages arrived (`Some`) or could not be loaded
    /// (`None`, which empties them).
    pub fn apply_messages(&mut self, loaded: Option<Vec<MessageWithParts>>)
        ensures
            match loaded {
                Some(ms) => *final(self) == (App { messages: ms, message_scroll: 0, ..*old(self) }),
                None => final(self).messages@.len() == 0 && *final(self) == (App {
                    messages: final(self).messages,
                    ..*old(self)
                }),
            },
    {
        match loaded {
            Some(ms) => {
                self.messages = ms;
                self.message_scroll = 0;
            },
            None => {
                self.messages = Vec::new();
            },
        }
    }

    /// The current session's todos arrived (`Some`) or could not be loaded
    /// (`None`, which empties them).
    pub fn apply_todos(&mut self, loaded: Option<Vec<Todo>>)
        ensures
            match loaded {
                Some(ts) => *final(self) == (App { todos: ts, ..*old(self) }),
                None => final(self).todos@.len() == 0 && *final(self) == (App {
                    todos: final(self).todos,
                    ..*old(self)
                }),
            },
    {
        match loaded {
            Some(ts) => {
                self.todos = ts;
            },
            None => {
                self.todos = Vec::new();
            },
        }
    }

    /// A session was created: it goes first in the list.
    pub fn add_created_session(&mut self, s: Session)
        ensures
            final(self).sessions@ == seq![s] + old(self).sessions@,
            *final(self) == (App { sessions: final(self).sessions, ..*old(self) }),
    {
        self.sessions.insert(0, s);
        assert(self.sessions@ =~= seq![s] + old(self).sessions@);
    }

    // ───────────────────────── loading ─────────────────────────

    /// Loading starts.
    pub fn begin_loading(&mut self)
        ensures
            final(self).status_message@ == "Loading..."@,
            *final(self) == (App { status_message: final(self).status_message, ..*old(self) }),
    {
        self.status_message = string_from("Loading...");
    }

    /// The current project arrived, or not (then nothing changes).
    pub fn apply_project(&mut self, loaded: Option<Project>)
        ensures
            match loaded {
                Some(p) => *final(self) == (App { project: Some(p), ..*old(self) }),
                None => *final(self) == *old(self),
            },
    {
        if let Some(p) = loaded {
            self.project = Some(p);
        }
    }

    /// The project whose sessions are listed: the current project's id, if known.
    pub fn project_id(&self) -> (r: Option<String>)
        ensures
            r == (match self.project {
                Some(p) => p.id,
                None => None,
            }),
    {
        match &self.project {
            Some(p) => p.id.clone(),
            None => None,
        }
    }

    /// The sessions arrived, or not (then nothing changes). Returns the session
    /// to open: the first one, when none is open yet.
    pub fn apply_sessions(&mut self, loaded: Option<Vec<Session>>) -> (open: Option<String>)
        ensures
            match loaded {
                Some(ss) => {
                    &&& *final(self) == (App { sessions: ss, ..*old(self) })
                    &&& if old(self).current_session is None && ss@.len() > 0 {
                        open == Some(ss@[0].id)
                    } else {
                        open is None
                    }
                },
                None => *final(self) == *old(self) && open is None,
            },
    {
        match loaded {
            Some(ss) => {
                self.sessions = ss;
                if self.current_session.is_none() && self.sessions.len() > 0 {
                    Some(self.sessions[0].id.clone())
                } else {
                    None
                }
            },
            None => None,
        }
    }

    /// The providers arrived, or not (then nothing changes).
    pub fn apply_providers(&mut self, loaded: Option<Vec<Provider>>)
        ensures
            match loaded {
                Some(ps) => *final(self) == (App { providers: ps, ..*old(self) }),
                None => *final(self) == *old(self),
            },
    {
        if let Some(ps) = loaded {
            self.providers = ps;
        }
    }

    /// The agents arrived, or not (then nothing changes).
    pub fn apply_agents(&mut self, loaded: Option<Vec<Agent>>)
        ensures
            match loaded {
                Some(a) => *final(self) == (App { agents: a, ..*old(self) }),
                None => *final(self) == *old(self),
            },
    {
        if let Some(a) = loaded {
            self.agents = a;
        }
    }

    /// The commands arrived, or not (then nothing changes).
    pub fn apply_commands(&mut self, loaded: Option<Vec<Command>>)
        ensures
            match loaded {
                Some(c) => *final(self) == (App { commands: c, ..*old(self) }),
                None => *final(self) == *old(self),
            },
    {
        if let Some(c) = loaded {
            self.commands = c;
        }
    }

    /// Loading is over: the client counts as connected.
    pub fn finish_loading(&mut self)
        ensures
            final(self).status_message@.len() == 0,
            *final(self) == (App {
                connected: true,
                status_message: final(self).status_message,
                ..*old(self)
            }),
    {
        self.connected = true;
        self.status_message = String::new();
    }

    // ───────────────────────── failures and the event stream ─────────────────────────

    /// Reports that the work of an action failed with error text `err`.
    pub fn report_failure(&mut self, what: FailedWork, err: &str)
        ensures
            final(self).status_message@ == failure_prefix(what) + err@,
            *final(self) == (App { status_message: final(self).status_message, ..*old(self) }),
    {
        let prefix: &str = match what {
            FailedWork::Send => "Send failed: ",
            FailedWork::Abort => "Abort failed: ",
            FailedWork::CreateSession => "Create session failed: ",
            FailedWork::PermissionReply => "Permission reply failed: ",
            FailedWork::QuestionReply => "Question reply failed: ",
        };
        self.status_message = concat(prefix, err);
    }

    /// A key's action was carried out; `quit` tells whether it asked to quit.
    /// Returns whether to stop handling the rest of the keys: a quit stops them
    /// and is recorded.
    pub fn after_action(&mut self, quit: bool) -> (stop: bool)
        ensures
            stop == quit,
            *final(self) == (App { should_quit: old(self).should_quit || quit, ..*old(self) }),
    {
        if quit {
            self.should_quit = true;
        }
        quit
    }

    /// The event stream could not be opened at start.
    pub fn on_no_live_events(&mut self)
        ensures
            final(self).status_message@ == "No live event connection"@,
            *final(self) == (App { status_message: final(self).status_message, ..*old(self) }),
    {
        self.status_message = string_from("No live event connection");
    }

    /// The event stream ended; a reconnection is attempted.
    pub fn on_stream_ended(&mut self)
        ensures
            final(self).status_message@ == "Reconnecting..."@,
            *final(self) == (App { status_message: final(self).status_message, ..*old(self) }),
    {
        self.status_message = string_from("Reconnecting...");
    }

    /// The reconnection succeeded (`ok`) or failed.
    pub fn on_reconnect(&mut self, ok: bool)
        ensures
            final(self).status_message@ == (if ok {
                Seq::<char>::empty()
            } else {
                "Disconnected from server"@
            }),
            *final(self) == (App {
                connected: ok,
                status_message: final(self).status_message,
                ..*old(self)
            }),
    {
        if ok {
            self.status_message = String::new();
        } else {
            self.status_message = string_from("Disconnected from server");
        }
        self.connected = ok;
    }

    // ───────────────────────── the model's name ─────────────────────────

    /// The name shown for the chosen model (see `model_display_spec`).
    pub fn model_display_name(&self) -> (r: String)
        ensures
            r@ == model_display_spec(*self),
    {
        match &self.current_model {
            None => string_from("No model"),
            Some((pid, mid)) => {
                for i in 0..self.providers.len()
                    invariant
                        self.current_model == Some((*pid, *mid)),
                        forall|j: int|
                            0 <= j < i ==> !provider_has_id(pid@)(#[trigger] self.providers@[j]),
                {
                    let p = &self.providers[i];
                    if str_eq(p.id.as_str(), pid.as_str()) {
                        proof {
                            lemma_first_index(self.providers@, provider_has_id(pid@), i as int);
                        }
                        for k in 0..p.models.len()
                            invariant
                                self.current_model == Some((*pid, *mid)),
                                *p == self.providers@[i as int],
                                first_index(self.providers@, provider_has_id(pid@)) == i,
                                forall|j: int|
                                    0 <= j < k ==> !model_has_id(mid@)(#[trigger] p.models@[j]),
                        {
                            if str_eq(p.models[k].id.as_str(), mid.as_str()) {
                                proof {
                                    lemma_first_index(p.models@, model_has_id(mid@), k as int);
                                }
                                let a = concat(p.name.as_str(), "/");
                                return concat(a.as_str(), p.models[k].name.as_str());
                            }
                        }
                        proof {
                            lemma_first_index(p.models@, model_has_id(mid@), p.models@.len() as int);
                        }
                        let a = concat(p.name.as_str(), "/");
                        return concat(a.as_str(), mid.as_str());
                    }
                }
                proof {
                    lemma_first_index(
                        self.providers@,
                        provider_has_id(pid@),
                        self.providers@.len() as int,
                    );
                }
                let a = concat(pid.as_str(), "/");
                concat(a.as_str(), mid.as_str())
            },
        }
    }
}

/// Work whose failure the status line reports.
#[derive(Debug, Clone, Copy, PartialEq, Eq, Structural)]
pub enum FailedWork {
    Send,
    Abort,
    CreateSession,
    PermissionReply,
    QuestionReply,
}

/// The status line's words before the error of failed work.
pub open spec fn failure_prefix(what: FailedWork) -> Seq<char> {
    match what {
        FailedWork::Send => "Send failed: "@,
        FailedWork::Abort => "Abort failed: "@,
        FailedWork::CreateSession => "Create session failed: "@,
        FailedWork::PermissionReply => "Permission reply failed: "@,
        FailedWork::QuestionReply => "Question reply failed: "@,
    }
}

/// A provider with the given id.
pub open spec fn provider_has_id(id: Seq<char>) -> spec_fn(Provider) -> bool {
    |p: Provider| p.id@ == id
}

/// A model with the given id.
pub open spec fn model_has_id(id: Seq<char>) -> spec_fn(crate::types::Model) -> bool {
    |m: crate::types::Model| m.id@ == id
}

/// The name shown for the chosen model: "provider name/model name" when the
/// provider and model are known, "provider name/model id" when only the
/// provider is, "provider id/model id" otherwise, and "No model" when none is
/// chosen.
pub open spec fn model_display_spec(app: App) -> Seq<char> {
    match app.current_model {
        None => "No model"@,
        Some((pid, mid)) => {
            let i = first_index(app.providers@, provider_has_id(pid@));
            if i >= 0 {
                let p = app.providers@[i];
                let k = first_index(p.models@, model_has_id(mid@));
                if k >= 0 {
                    p.name@ + "/"@ + p.models@[k].name@
                } else {
                    p.name@ + "/"@ + mid@
                }
            } else {
                pid@ + "/"@ + mid@
            }
        },
    }
}

// ───────────────────────── configuration and start ─────────────────────────

/// The settings kept between runs.
#[derive(Debug, Clone)]
pub struct Config {
    pub theme: Option<String>,
    /// The chosen model: (provider id, model id).
    pub model: Option<(String, String)>,
}

impl Config {
    /// No saved setting.
    pub fn empty() -> (c: Config)
        ensures
            c.theme is None,
            c.model is None,
    {
        Config { theme: None, model: None }
    }
}

/// The theme to start with: the one asked for on the command line, else the
/// saved one, else "default".
pub fn choose_theme(cli: Option<String>, saved: Option<String>) -> (r: String)
    ensures
        r@ == (match cli {
            Some(t) => t@,
            None => match saved {
                Some(t) => t@,
                None => "default"@,
            },
        }),
{
    match cli {
        Some(t) => t,
        None => match saved {
            Some(t) => t,
            None => string_from("default"),
        },
    }
}

/// The local ports probed for a running server, in order.
pub open spec fn auto_detect_ports() -> Seq<u16> {
    seq![4000u16, 4001u16, 4002u16, 4100u16]
}

/// The local ports probed for a running server, in order.
pub fn auto_detect_ports_list() -> (r: Vec<u16>)
    ensures
        r@ == auto_detect_ports(),
{
    let mut v = Vec::new();
    v.push(4000u16);
    v.push(4001u16);
    v.push(4002u16);
    v.push(4100u16);
    assert(v@ =~= auto_detect_ports());
    v
}

/// The base URL of a server on local port `port`.
pub fn probe_url(port: u16) -> (r: String)
    ensures
        r@ == "http://127.0.0.1:"@ + decimal(port as nat),
{
    let d = string_of(&decimal_chars(port as u64));
    concat("http://127.0.0.1:", d.as_str())
}

/// A port that answered.
pub open spec fn answered_yes() -> spec_fn(bool) -> bool {
    |b: bool| b
}

/// The server found by probing the ports in order (`answered[i]` tells whether
/// the `i`th port answered the health check): the first that answered.
pub open spec fn detected_spec(answered: Seq<bool>) -> Option<Seq<char>> {
    let n = if answered.len() < 4 {
        answered.len() as int
    } else {
        4
    };
    let i = first_index(answered.take(n), answered_yes());
    if i >= 0 {
        Some("http://127.0.0.1:"@ + decimal(auto_detect_ports()[i] as nat))
    } else {
        None
    }
}

/// The server found by probing the ports in order (see `detected_spec`).
pub fn detected_server(answered: &[bool]) -> (r: Option<String>)
    ensures
        match r {
            Some(u) => detected_spec(answered@) == Some(u@),
            None => detected_spec(answered@) is None,
        },
{
    let ports = auto_detect_ports_list();
    let n: usize = if answered.len() < 4 {
        answered.len()
    } else {
        4
    };
    let ghost taken = answered@.take(n as int);
    for i in 0..n
        invariant
            n == (if answered@.len() < 4 {
                answered@.len() as int
            } else {
                4
            }),
            ports@ == auto_detect_ports(),
            taken == answered@.take(n as int),
            forall|j: int| 0 <= j < i ==> !answered_yes()(#[trigger] taken[j]),
    {
        if answered[i] {
            proof {
                lemma_first_index(taken, answered_yes(), i as int);
            }
            let port = ports[i];
            assert(port == auto_detect_ports()[i as int]);
            let u = probe_url(port);
            return Some(u);
        }
    }
    proof {
        lemma_first_index(taken, answered_yes(), n as int);
    }
    None
}

/// The server to use and whether it was found by probing: the one given, else
/// the one probing found, else the default local one.
pub fn choose_server(given: Option<String>, detected: Option<String>) -> (r: (String, bool))
    ensures
        match given {
            Some(u) => r.0 == u && !r.1,
            None => match detected {
                Some(u) => r.0 == u && r.1,
                None => r.0@ == "http://127.0.0.1:4000"@ && !r.1,
            },
        },
{
    match given {
        Some(u) => (u, false),
        None => match detected {
            Some(u) => (u, true),
            None => (string_from("http://127.0.0.1:4000"), false),
        },
    }
}

} // verus!
