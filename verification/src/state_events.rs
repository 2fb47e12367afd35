//! How the client's state follows the server's events.

use vstd::prelude::*;

use crate::events::{Event, MessagePartDeltaProps, MessageUpdatedProps, TuiToastProps};
use crate::seq_util::{first_index, lemma_filter_take, lemma_first_index, lemma_first_index_range};
use crate::state::{App, Dialog};
use crate::text::{chars_of, concat, str_eq, string_from};
use crate::types::{
    message_id, message_session_id, opt_id, part_id, part_message_id, part_session_id, Message,
    MessageWithParts, Part, PermissionRequest, Project, QuestionInfo, QuestionRequest, Session, SessionStatus,
    Todo, Toast, ToastLevel, VcsInfo,
};

verus! {

// ───────────────────────── predicates ─────────────────────────

/// A session with the given id.
pub open spec fn session_has_id(id: Seq<char>) -> spec_fn(Session) -> bool {
    |s: Session| s.id@ == id
}

/// A session with another id.
pub open spec fn session_lacks_id(id: Seq<char>) -> spec_fn(Session) -> bool {
    |s: Session| s.id@ != id
}

/// A message with the given id.
pub open spec fn msg_has_id(id: Seq<char>) -> spec_fn(MessageWithParts) -> bool {
    |m: MessageWithParts| m.info.id_spec() == id
}

/// A message with another id.
pub open spec fn msg_lacks_id(id: Seq<char>) -> spec_fn(MessageWithParts) -> bool {
    |m: MessageWithParts| m.info.id_spec() != id
}

/// A part with the given id.
pub open spec fn part_has_id(id: Seq<char>) -> spec_fn(Part) -> bool {
    |p: Part| p.id_spec() == id
}

/// A part with another id.
pub open spec fn part_lacks_id(id: Seq<char>) -> spec_fn(Part) -> bool {
    |p: Part| p.id_spec() != id
}

/// A permission request with another id.
pub open spec fn perm_lacks_id(id: Seq<char>) -> spec_fn(PermissionRequest) -> bool {
    |p: PermissionRequest| p.id@ != id
}

/// The session with id `id` is the current one.
pub open spec fn is_current(app: App, id: Seq<char>) -> bool {
    app.current_session matches Some(c) && c.id@ == id
}

/// `new` is `old` with the parts of message `i` replaced by `parts`.
pub open spec fn parts_replaced(
    old: Seq<MessageWithParts>,
    new: Seq<MessageWithParts>,
    i: int,
    parts: Seq<Part>,
) -> bool {
    &&& new.len() == old.len()
    &&& forall|k: int| 0 <= k < old.len() && k != i ==> new[k] == old[k]
    &&& new[i].info == old[i].info
    &&& new[i].parts@ == parts
}

/// `new` is `old` with `delta` appended to its text (text parts) or content
/// (reasoning parts); other parts stay as they are.
pub open spec fn text_delta_applied(old: Part, new: Part, delta: Seq<char>) -> bool {
    match old {
        Part::Text(t) => match new {
            Part::Text(n) => n.id == t.id && n.session_id == t.session_id && n.message_id
                == t.message_id && match n.text {
                Some(x) => x@ == opt_id(t.text) + delta,
                None => false,
            },
            _ => false,
        },
        Part::Reasoning(t) => match new {
            Part::Reasoning(n) => n.id == t.id && n.session_id == t.session_id && n.message_id
                == t.message_id && match n.content {
                Some(x) => x@ == opt_id(t.content) + delta,
                None => false,
            },
            _ => false,
        },
        _ => new == old,
    }
}

/// The level of a toast of the given variant.
pub open spec fn toast_level_spec(variant: Option<String>) -> ToastLevel {
    match variant {
        Some(v) => if v@ == "success"@ {
            ToastLevel::Success
        } else if v@ == "warning"@ {
            ToastLevel::Warning
        } else if v@ == "error"@ {
            ToastLevel::Error
        } else {
            ToastLevel::Info
        },
        None => ToastLevel::Info,
    }
}

// ───────────────────────── effects ─────────────────────────

/// A message update: replaces the message with that id, or appends it with no
/// parts; ignored unless it belongs to the current session.
pub open spec fn message_update_effect(old: App, new: App, msg: Message) -> bool {
    if !is_current(old, msg.session_id_spec()) {
        new == old
    } else {
        let i = first_index(old.messages@, msg_has_id(msg.id_spec()));
        &&& new == (App { messages: new.messages, ..old })
        &&& if i >= 0 {
            new.messages@ == old.messages@.update(
                i,
                MessageWithParts { info: msg, parts: old.messages@[i].parts },
            )
        } else {
            &&& new.messages@.len() == old.messages@.len() + 1
            &&& new.messages@.take(old.messages@.len() as int) == old.messages@
            &&& new.messages@.last().info == msg
            &&& new.messages@.last().parts@.len() == 0
        }
    }
}

/// A part update: replaces the part with that id in its message, or appends it;
/// ignored unless its session is the current one and its message is known.
pub open spec fn part_update_effect(old: App, new: App, part: Part) -> bool {
    let i = first_index(old.messages@, msg_has_id(part.message_id_spec()));
    if !is_current(old, part.session_id_spec()) || i < 0 {
        new == old
    } else {
        let parts = old.messages@[i].parts@;
        let j = first_index(parts, part_has_id(part.id_spec()));
        &&& new == (App { messages: new.messages, ..old })
        &&& parts_replaced(
            old.messages@,
            new.messages@,
            i,
            if j >= 0 {
                parts.update(j, part)
            } else {
                parts.push(part)
            },
        )
    }
}

/// A streamed delta: appended to the text or content of the part it names when
/// its field is "text" or "content" and the delta is a string.
pub open spec fn delta_effect(old: App, new: App, d: MessagePartDeltaProps) -> bool {
    let i = first_index(old.messages@, msg_has_id(d.message_id@));
    if !is_current(old, d.session_id@) || i < 0 {
        new == old
    } else {
        let parts = old.messages@[i].parts@;
        let j = first_index(parts, part_has_id(d.part_id@));
        if j < 0 || d.delta is None || !(d.field@ == "text"@ || d.field@ == "content"@) {
            new == old
        } else {
            &&& new == (App { messages: new.messages, ..old })
            &&& new.messages@.len() == old.messages@.len()
            &&& forall|k: int| 0 <= k < old.messages@.len() && k != i ==> new.messages@[k] == old.messages@[k]
            &&& new.messages@[i].info == old.messages@[i].info
            &&& new.messages@[i].parts@.len() == parts.len()
            &&& forall|k: int| 0 <= k < parts.len() && k != j ==> new.messages@[i].parts@[k] == parts[k]
            &&& text_delta_applied(parts[j], new.messages@[i].parts@[j], d.delta->0@)
        }
    }
}

/// A new session: added at the front unless a session with its id is known.
pub open spec fn session_created_effect(old: App, new: App, s: Session) -> bool {
    if exists|i: int| 0 <= i < old.sessions@.len() && old.sessions@[i].id@ == s.id@ {
        new == old
    } else {
        new == (App { sessions: new.sessions, ..old }) && new.sessions@ == old.sessions@.insert(
            0,
            s,
        )
    }
}

/// A changed session: replaces the first session with its id, and the current
/// session when it has that id.
pub open spec fn session_updated_effect(old: App, new: App, s: Session) -> bool {
    let i = first_index(old.sessions@, session_has_id(s.id@));
    &&& new == (App { sessions: new.sessions, current_session: new.current_session, ..old })
    &&& new.sessions@ == (if i >= 0 {
        old.sessions@.update(i, s)
    } else {
        old.sessions@
    })
    &&& new.current_session == (if is_current(old, s.id@) {
        Some(s)
    } else {
        old.current_session
    })
}

/// A deleted session: dropped from the list; when current, the current session
/// and its messages are dropped too.
pub open spec fn session_deleted_effect(old: App, new: App, s: Session) -> bool {
    &&& new == (App {
        sessions: new.sessions,
        current_session: new.current_session,
        messages: new.messages,
        ..old
    })
    &&& new.sessions@ == old.sessions@.filter(session_lacks_id(s.id@))
    &&& if is_current(old, s.id@) {
        new.current_session is None && new.messages@.len() == 0
    } else {
        new.current_session == old.current_session && new.messages == old.messages
    }
}

/// A session's new run status: recorded; for the current session it also sets
/// whether the client is busy.
pub open spec fn session_status_effect(
    old: App,
    new: App,
    id: Seq<char>,
    status: SessionStatus,
) -> bool {
    &&& new == (App { session_statuses: new.session_statuses, is_busy: new.is_busy, ..old })
    &&& new.session_statuses@ == old.session_statuses@.insert(id, status)
    &&& new.is_busy == (if is_current(old, id) {
        status is Busy
    } else {
        old.is_busy
    })
}

/// A session error: the session becomes idle; for the current session the
/// error is shown.
pub open spec fn session_error_effect(
    old: App,
    new: App,
    id: Option<String>,
    error: Option<String>,
) -> bool {
    match id {
        Some(id) => {
            &&& new == (App {
                session_statuses: new.session_statuses,
                is_busy: new.is_busy,
                status_message: new.status_message,
                ..old
            })
            &&& new.session_statuses@ == old.session_statuses@.insert(id@, SessionStatus::Idle)
            &&& if is_current(old, id@) {
                &&& !new.is_busy
                &&& match error {
                    Some(err) => new.status_message@ == "Error: "@ + err@,
                    None => new.status_message == old.status_message,
                }
            } else {
                new.is_busy == old.is_busy && new.status_message == old.status_message
            }
        },
        None => new == old,
    }
}

/// A removed message: dropped when it belongs to the current session.
pub open spec fn message_removed_effect(
    old: App,
    new: App,
    session_id: Seq<char>,
    message_id: Seq<char>,
) -> bool {
    if is_current(old, session_id) {
        new == (App { messages: new.messages, ..old }) && new.messages@ == old.messages@.filter(
            msg_lacks_id(message_id),
        )
    } else {
        new == old
    }
}

/// A removed part: dropped from its message when that message is known and
/// belongs to the current session.
pub open spec fn part_removed_effect(
    old: App,
    new: App,
    session_id: Seq<char>,
    message_id: Seq<char>,
    part_id: Seq<char>,
) -> bool {
    let i = first_index(old.messages@, msg_has_id(message_id));
    if !is_current(old, session_id) || i < 0 {
        new == old
    } else {
        new == (App { messages: new.messages, ..old }) && parts_replaced(
            old.messages@,
            new.messages@,
            i,
            old.messages@[i].parts@.filter(part_lacks_id(part_id)),
        )
    }
}

/// A permission request: queued when it is for the current session, opening the
/// permission dialog when no dialog is open.
pub open spec fn permission_asked_effect(old: App, new: App, req: PermissionRequest) -> bool {
    if is_current(old, req.session_id@) {
        new == (App {
            pending_permissions: new.pending_permissions,
            active_dialog: if old.active_dialog is None {
                Some(Dialog::Permission)
            } else {
                old.active_dialog
            },
            ..old
        }) && new.pending_permissions@ == old.pending_permissions@.push(req)
    } else {
        new == old
    }
}

/// An answered permission request: dropped; the permission dialog closes when
/// none is left.
pub open spec fn permission_replied_effect(old: App, new: App, request_id: Seq<char>) -> bool {
    let rest = old.pending_permissions@.filter(perm_lacks_id(request_id));
    new == (App {
        pending_permissions: new.pending_permissions,
        active_dialog: if rest.len() == 0 && old.active_dialog == Some(Dialog::Permission) {
            None
        } else {
            old.active_dialog
        },
        ..old
    }) && new.pending_permissions@ == rest
}

/// A question: queued when it is for the current session, opening the question
/// dialog when no dialog is open.
pub open spec fn question_asked_effect(old: App, new: App, q: QuestionInfo) -> bool {
    if is_current(old, q.session_id@) {
        new == (App {
            pending_questions: new.pending_questions,
            active_dialog: if old.active_dialog is None {
                Some(Dialog::Question)
            } else {
                old.active_dialog
            },
            ..old
        }) && new.pending_questions@ == old.pending_questions@.push(
            QuestionRequest {
                id: q.id,
                session_id: q.session_id,
                question: q.question,
                options: q.options,
                multi_select: q.multi_select,
            },
        )
    } else {
        new == old
    }
}

/// New todos of a session: they replace the list when the session is current.
pub open spec fn todo_updated_effect(
    old: App,
    new: App,
    session_id: Seq<char>,
    todos: Option<Vec<Todo>>,
) -> bool {
    if is_current(old, session_id) {
        new == (App { todos: new.todos, ..old }) && match todos {
            Some(t) => new.todos == t,
            None => new.todos@.len() == 0,
        }
    } else {
        new == old
    }
}

/// A new branch: recorded on the project, when there is one.
pub open spec fn vcs_branch_effect(old: App, new: App, branch: Option<String>) -> bool {
    match old.project {
        Some(p) => new == (App {
            project: Some(Project { vcs: Some(VcsInfo { branch: branch }), ..p }),
            ..old
        }),
        None => new == old,
    }
}

/// A toast: shown from time `now`.
pub open spec fn toast_effect(old: App, new: App, props: TuiToastProps, now: u64) -> bool {
    &&& new == (App { toast: new.toast, toast_time: Some(now), ..old })
    &&& match new.toast {
        Some(t) => t.message@ == opt_id(props.message) && t.level == toast_level_spec(
            props.variant,
        ),
        None => false,
    }
}

/// Text for the prompt: appended to the input, with the cursor at the end.
pub open spec fn prompt_append_effect(old: App, new: App, text: Option<String>) -> bool {
    match text {
        Some(t) => {
            &&& new == (App { input_text: new.input_text, input_cursor: new.input_cursor, ..old })
            &&& new.input_text@ == old.input_text@ + t@
            &&& new.input_cursor == new.input_text@.len()
        },
        None => new == old,
    }
}

/// The server went away.
pub open spec fn disposed_effect(old: App, new: App) -> bool {
    new == (App { connected: false, status_message: new.status_message, ..old })
        && new.status_message@ == "Server disconnected"@
}

/// What handling `e` at time `now` does to the state.
pub open spec fn event_effect(old: App, new: App, e: Event, now: u64) -> bool {
    match e {
        Event::SessionCreated { properties } => session_created_effect(old, new, properties.info),
        Event::SessionUpdated { properties } => session_updated_effect(old, new, properties.info),
        Event::SessionDeleted { properties } => session_deleted_effect(old, new, properties.info),
        Event::SessionStatus { properties } => session_status_effect(
            old,
            new,
            properties.session_id@,
            properties.status,
        ),
        Event::SessionIdle { properties } => session_status_effect(
            old,
            new,
            properties.session_id@,
            SessionStatus::Idle,
        ),
        Event::SessionError { properties } => session_error_effect(
            old,
            new,
            properties.session_id,
            properties.error,
        ),
        Event::MessageUpdated { properties } => message_update_effect(old, new, properties.info),
        Event::MessageRemoved { properties } => message_removed_effect(
            old,
            new,
            properties.session_id@,
            properties.message_id@,
        ),
        Event::MessagePartUpdated { properties } => part_update_effect(old, new, properties.part),
        Event::MessagePartDelta { properties } => delta_effect(old, new, properties),
        Event::MessagePartRemoved { properties } => part_removed_effect(
            old,
            new,
            properties.session_id@,
            properties.message_id@,
            properties.part_id@,
        ),
        Event::PermissionAsked { properties } => permission_asked_effect(
            old,
            new,
            properties.request,
        ),
        Event::PermissionReplied { properties } => permission_replied_effect(
            old,
            new,
            properties.request_id@,
        ),
        Event::QuestionAsked { properties } => question_asked_effect(
            old,
            new,
            properties.question,
        ),
        Event::TodoUpdated { properties } => todo_updated_effect(
            old,
            new,
            properties.session_id@,
            properties.todos,
        ),
        Event::ProjectUpdated { properties } => new == (App {
            project: Some(properties.info),
            ..old
        }),
        Event::VcsBranchUpdated { properties } => vcs_branch_effect(old, new, properties.branch),
        Event::TuiToastShow { properties } => toast_effect(old, new, properties, now),
        Event::TuiPromptAppend { properties } => prompt_append_effect(old, new, properties.text),
        Event::ServerConnected => new == (App { connected: true, ..old }),
        Event::GlobalDisposed | Event::ServerInstanceDisposed => disposed_effect(old, new),
        _ => new == old,
    }
}

// ───────────────────────── search helpers ─────────────────────────

fn is_current_id(app: &App, id: &str) -> (r: bool)
    ensures
        r == is_current(*app, id@),
{
    match &app.current_session {
        Some(c) => str_eq(c.id.as_str(), id),
        None => false,
    }
}

fn find_session(sessions: &Vec<Session>, id: &str) -> (r: Option<usize>)
    ensures
        match r {
            Some(i) => i < sessions@.len() && i as int == first_index(sessions@, session_has_id(id@)),
            None => first_index(sessions@, session_has_id(id@)) == -1,
        },
{
    for i in 0..sessions.len()
        invariant
            forall|j: int| 0 <= j < i ==> !session_has_id(id@)(#[trigger] sessions@[j]),
    {
        if str_eq(sessions[i].id.as_str(), id) {
            proof {
                lemma_first_index(sessions@, session_has_id(id@), i as int);
            }
            return Some(i);
        }
    }
    proof {
        lemma_first_index(sessions@, session_has_id(id@), sessions@.len() as int);
    }
    None
}

fn find_message(messages: &Vec<MessageWithParts>, id: &str) -> (r: Option<usize>)
    ensures
        match r {
            Some(i) => i < messages@.len() && i as int == first_index(messages@, msg_has_id(id@)),
            None => first_index(messages@, msg_has_id(id@)) == -1,
        },
{
    for i in 0..messages.len()
        invariant
            forall|j: int| 0 <= j < i ==> !msg_has_id(id@)(#[trigger] messages@[j]),
    {
        if str_eq(message_id(&messages[i].info).as_str(), id) {
            proof {
                lemma_first_index(messages@, msg_has_id(id@), i as int);
            }
            return Some(i);
        }
    }
    proof {
        lemma_first_index(messages@, msg_has_id(id@), messages@.len() as int);
    }
    None
}

fn find_part(parts: &Vec<Part>, id: &str) -> (r: Option<usize>)
    ensures
        match r {
            Some(i) => i < parts@.len() && i as int == first_index(parts@, part_has_id(id@)),
            None => first_index(parts@, part_has_id(id@)) == -1,
        },
{
    for i in 0..parts.len()
        invariant
            forall|j: int| 0 <= j < i ==> !part_has_id(id@)(#[trigger] parts@[j]),
    {
        if str_eq(part_id(&parts[i]).as_str(), id) {
            proof {
                lemma_first_index(parts@, part_has_id(id@), i as int);
            }
            return Some(i);
        }
    }
    proof {
        lemma_first_index(parts@, part_has_id(id@), parts@.len() as int);
    }
    None
}

fn sessions_without(v: Vec<Session>, id: &str) -> (r: Vec<Session>)
    ensures
        r@ == v@.filter(session_lacks_id(id@)),
{
    let ghost s = v@;
    let mut r: Vec<Session> = Vec::new();
    let mut i: usize = 0;
    for x in it: v
        invariant
            it.seq() == s,
            r@ == s.take(it.index() as int).filter(session_lacks_id(id@)),
    {
        proof {
            lemma_filter_take(s, session_lacks_id(id@), it.index() as int);
        }
        if !str_eq(x.id.as_str(), id) {
            r.push(x);
        }
    }
    assert(s.take(s.len() as int) == s);
    r
}

fn messages_without(v: Vec<MessageWithParts>, id: &str) -> (r: Vec<MessageWithParts>)
    ensures
        r@ == v@.filter(msg_lacks_id(id@)),
{
    let ghost s = v@;
    let mut r: Vec<MessageWithParts> = Vec::new();
    for x in it: v
        invariant
            it.seq() == s,
            r@ == s.take(it.index() as int).filter(msg_lacks_id(id@)),
    {
        proof {
            lemma_filter_take(s, msg_lacks_id(id@), it.index() as int);
        }
        if !str_eq(message_id(&x.info).as_str(), id) {
            r.push(x);
        }
    }
    assert(s.take(s.len() as int) == s);
    r
}

fn parts_without(v: Vec<Part>, id: &str) -> (r: Vec<Part>)
    ensures
        r@ == v@.filter(part_lacks_id(id@)),
{
    let ghost s = v@;
    let mut r: Vec<Part> = Vec::new();
    for x in it: v
        invariant
            it.seq() == s,
            r@ == s.take(it.index() as int).filter(part_lacks_id(id@)),
    {
        proof {
            lemma_filter_take(s, part_lacks_id(id@), it.index() as int);
        }
        if !str_eq(part_id(&x).as_str(), id) {
            r.push(x);
        }
    }
    assert(s.take(s.len() as int) == s);
    r
}

fn permissions_without(v: Vec<PermissionRequest>, id: &str) -> (r: Vec<PermissionRequest>)
    ensures
        r@ == v@.filter(perm_lacks_id(id@)),
{
    let ghost s = v@;
    let mut r: Vec<PermissionRequest> = Vec::new();
    for x in it: v
        invariant
            it.seq() == s,
            r@ == s.take(it.index() as int).filter(perm_lacks_id(id@)),
    {
        proof {
            lemma_filter_take(s, perm_lacks_id(id@), it.index() as int);
        }
        if !str_eq(x.id.as_str(), id) {
            r.push(x);
        }
    }
    assert(s.take(s.len() as int) == s);
    r
}

/// Appends `delta` to the text of a text part or the content of a reasoning part.
pub fn apply_text_delta(part: &mut Part, delta: &str)
    ensures
        text_delta_applied(*old(part), *final(part), delta@),
{
    match part {
        Part::Text(p) => {
            let t = match &p.text {
                Some(t) => concat(t.as_str(), delta),
                None => string_from(delta),
            };
            p.text = Some(t);
        },
        Part::Reasoning(p) => {
            let t = match &p.content {
                Some(t) => concat(t.as_str(), delta),
                None => string_from(delta),
            };
            p.content = Some(t);
        },
        _ => {},
    }
}

fn toast_level(variant: &Option<String>) -> (r: ToastLevel)
    ensures
        r == toast_level_spec(*variant),
{
    match variant {
        Some(v) => if str_eq(v.as_str(), "success") {
            ToastLevel::Success
        } else if str_eq(v.as_str(), "warning") {
            ToastLevel::Warning
        } else if str_eq(v.as_str(), "error") {
            ToastLevel::Error
        } else {
            ToastLevel::Info
        },
        None => ToastLevel::Info,
    }
}

impl App {
    /// Updates the state for one event from the server, received at time `now`.
    pub fn handle_event(&mut self, event: Event, now: u64)
        ensures
            event_effect(*old(self), *final(self), event, now),
    {
        match event {
            Event::SessionCreated { properties } => self.on_session_created(properties.info),
            Event::SessionUpdated { properties } => self.on_session_updated(properties.info),
            Event::SessionDeleted { properties } => self.on_session_deleted(properties.info),
            Event::SessionCompacted { .. } => {},
            Event::SessionStatus { properties } => {
                self.on_session_status(properties.session_id, properties.status)
            },
            Event::SessionIdle { properties } => {
                self.on_session_status(properties.session_id, SessionStatus::Idle)
            },
            Event::SessionError { properties } => {
                self.on_session_error(properties.session_id, properties.error)
            },
            Event::MessageUpdated { properties } => self.apply_message_update(&properties),
            Event::MessageRemoved { properties } => {
                self.on_message_removed(&properties.session_id, &properties.message_id)
            },
            Event::MessagePartUpdated { properties } => self.apply_part_update(&properties.part),
            Event::MessagePartDelta { properties } => self.apply_message_delta(&properties),
            Event::MessagePartRemoved { properties } => self.on_part_removed(
                &properties.session_id,
                &properties.message_id,
                &properties.part_id,
            ),
            Event::PermissionAsked { properties } => self.on_permission_asked(properties.request),
            Event::PermissionReplied { properties } => {
                self.on_permission_replied(&properties.request_id)
            },
            Event::QuestionAsked { properties } => self.on_question_asked(properties.question),
            Event::QuestionReplied { .. } | Event::QuestionRejected { .. } => {},
            Event::TodoUpdated { properties } => {
                self.on_todo_updated(&properties.session_id, properties.todos)
            },
            Event::ProjectUpdated { properties } => {
                self.project = Some(properties.info);
            },
            Event::VcsBranchUpdated { properties } => self.on_vcs_branch(properties.branch),
            Event::TuiToastShow { properties } => self.show_toast(properties, now),
            Event::TuiPromptAppend { properties } => self.on_prompt_append(properties.text),
            Event::TuiSessionSelect { .. } => {},
            Event::ServerConnected => {
                self.connected = true;
            },
            Event::GlobalDisposed | Event::ServerInstanceDisposed => {
                self.connected = false;
                self.status_message = string_from("Server disconnected");
            },
            _ => {},
        }
    }

    fn on_session_created(&mut self, session: Session)
        ensures
            session_created_effect(*old(self), *final(self), session),
    {
        proof {
            lemma_first_index_range(self.sessions@, session_has_id(session.id@));
        }
        match find_session(&self.sessions, session.id.as_str()) {
            Some(_) => {},
            None => {
                self.sessions.insert(0, session);
            },
        }
    }

    fn on_session_updated(&mut self, session: Session)
        ensures
            session_updated_effect(*old(self), *final(self), session),
    {
        let is_cur = is_current_id(self, session.id.as_str());
        match find_session(&self.sessions, session.id.as_str()) {
            Some(i) => {
                self.sessions.set(i, session.clone());
            },
            None => {},
        }
        if is_cur {
            self.current_session = Some(session);
        }
    }

    fn on_session_deleted(&mut self, session: Session)
        ensures
            session_deleted_effect(*old(self), *final(self), session),
    {
        let is_cur = is_current_id(self, session.id.as_str());
        let mut sessions = Vec::new();
        std::mem::swap(&mut sessions, &mut self.sessions);
        self.sessions = sessions_without(sessions, session.id.as_str());
        if is_cur {
            self.current_session = None;
            self.messages = Vec::new();
        }
    }

    fn on_session_status(&mut self, session_id: String, status: SessionStatus)
        ensures
            session_status_effect(*old(self), *final(self), session_id@, status),
    {
        let is_cur = is_current_id(self, session_id.as_str());
        let busy = status.is_busy();
        self.session_statuses.insert(session_id, status);
        if is_cur {
            self.is_busy = busy;
        }
    }

    fn on_session_error(&mut self, session_id: Option<String>, error: Option<String>)
        ensures
            session_error_effect(*old(self), *final(self), session_id, error),
    {
        if let Some(id) = session_id {
            let is_cur = is_current_id(self, id.as_str());
            self.session_statuses.insert(id, SessionStatus::Idle);
            if is_cur {
                self.is_busy = false;
                if let Some(err) = &error {
                    self.status_message = concat("Error: ", err.as_str());
                }
            }
        }
    }

    fn on_message_removed(&mut self, session_id: &String, message_id: &String)
        ensures
            message_removed_effect(*old(self), *final(self), session_id@, message_id@),
    {
        if is_current_id(self, session_id.as_str()) {
            let mut messages = Vec::new();
            std::mem::swap(&mut messages, &mut self.messages);
            self.messages = messages_without(messages, message_id.as_str());
        }
    }

    fn on_part_removed(&mut self, session_id: &String, message_id: &String, part_id: &String)
        ensures
            part_removed_effect(*old(self), *final(self), session_id@, message_id@, part_id@),
    {
        if !is_current_id(self, session_id.as_str()) {
            return;
        }
        match find_message(&self.messages, message_id.as_str()) {
            Some(i) => {
                let msg = &mut self.messages[i];
                let mut parts = Vec::new();
                std::mem::swap(&mut parts, &mut msg.parts);
                msg.parts = parts_without(parts, part_id.as_str());
            },
            None => {},
        }
    }

    fn on_permission_asked(&mut self, request: PermissionRequest)
        ensures
            permission_asked_effect(*old(self), *final(self), request),
    {
        if is_current_id(self, request.session_id.as_str()) {
            self.pending_permissions.push(request);
            if self.active_dialog.is_none() {
                self.active_dialog = Some(Dialog::Permission);
            }
        }
    }

    fn on_permission_replied(&mut self, request_id: &String)
        ensures
            permission_replied_effect(*old(self), *final(self), request_id@),
    {
        let mut pending = Vec::new();
        std::mem::swap(&mut pending, &mut self.pending_permissions);
        self.pending_permissions = permissions_without(pending, request_id.as_str());
        if self.pending_permissions.len() == 0 && self.active_dialog == Some(Dialog::Permission) {
            self.active_dialog = None;
        }
    }

    fn on_question_asked(&mut self, question: QuestionInfo)
        ensures
            question_asked_effect(*old(self), *final(self), question),
    {
        if is_current_id(self, question.session_id.as_str()) {
            let qr = QuestionRequest {
                id: question.id,
                session_id: question.session_id,
                question: question.question,
                options: question.options,
                multi_select: question.multi_select,
            };
            self.pending_questions.push(qr);
            if self.active_dialog.is_none() {
                self.active_dialog = Some(Dialog::Question);
            }
        }
    }

    fn on_todo_updated(&mut self, session_id: &String, todos: Option<Vec<Todo>>)
        ensures
            todo_updated_effect(*old(self), *final(self), session_id@, todos),
    {
        if is_current_id(self, session_id.as_str()) {
            self.todos = match todos {
                Some(t) => t,
                None => Vec::new(),
            };
        }
    }

    fn on_vcs_branch(&mut self, branch: Option<String>)
        ensures
            vcs_branch_effect(*old(self), *final(self), branch),
    {
        let project = self.project.take();
        match project {
            Some(p) => {
                self.project = Some(Project { vcs: Some(VcsInfo { branch }), ..p });
            },
            None => {},
        }
    }

    fn on_prompt_append(&mut self, text: Option<String>)
        ensures
            prompt_append_effect(*old(self), *final(self), text),
    {
        if let Some(t) = text {
            self.input_text = concat(self.input_text.as_str(), t.as_str());
            self.input_cursor = chars_of(self.input_text.as_str()).len();
        }
    }

    /// Records a message's metadata: replaces the message with its id, or adds it.
    pub fn apply_message_update(&mut self, props: &MessageUpdatedProps)
        ensures
            message_update_effect(*old(self), *final(self), props.info),
    {
        let msg = &props.info;
        let id = message_id(msg);
        if !is_current_id(self, message_session_id(msg).as_str()) {
            return;
        }
        match find_message(&self.messages, id.as_str()) {
            Some(i) => {
                let entry = &mut self.messages[i];
                entry.info = msg.clone();
            },
            None => {
                proof {
                    lemma_first_index_range(self.messages@, msg_has_id(msg.id_spec()));
                }
                let ghost old_msgs = self.messages@;
                self.messages.push(MessageWithParts { info: msg.clone(), parts: Vec::new() });
                assert(self.messages@.take(old_msgs.len() as int) =~= old_msgs);
            },
        }
    }

    /// Records a part: replaces the part with its id in its message, or adds it.
    pub fn apply_part_update(&mut self, part: &Part)
        ensures
            part_update_effect(*old(self), *final(self), *part),
    {
        let msg_id = part_message_id(part);
        let p_id = part_id(part);
        let sess_id = part_session_id(part);
        if !is_current_id(self, sess_id.as_str()) {
            return;
        }
        match find_message(&self.messages, msg_id.as_str()) {
            Some(i) => {
                let entry = &mut self.messages[i];
                match find_part(&entry.parts, p_id.as_str()) {
                    Some(j) => {
                        entry.parts.set(j, part.clone());
                    },
                    None => {
                        entry.parts.push(part.clone());
                    },
                }
            },
            None => {},
        }
    }

    /// Applies a streamed text delta to the part it names.
    pub fn apply_message_delta(&mut self, delta: &MessagePartDeltaProps)
        ensures
            delta_effect(*old(self), *final(self), *delta),
    {
        if !is_current_id(self, delta.session_id.as_str()) {
            return;
        }
        let i = match find_message(&self.messages, delta.message_id.as_str()) {
            Some(i) => i,
            None => return,
        };
        let j = match find_part(&self.messages[i].parts, delta.part_id.as_str()) {
            Some(j) => j,
            None => return,
        };
        let text = match &delta.delta {
            Some(t) => t,
            None => return,
        };
        if !(str_eq(delta.field.as_str(), "text") || str_eq(delta.field.as_str(), "content")) {
            return;
        }
        let entry = &mut self.messages[i];
        let part = &mut entry.parts[j];
        apply_text_delta(part, text.as_str());
    }

    /// Shows a toast of the requested kind, at time `now`.
    fn show_toast(&mut self, props: TuiToastProps, now: u64)
        ensures
            toast_effect(*old(self), *final(self), props, now),
    {
        let level = toast_level(&props.variant);
        let message = match props.message {
            Some(m) => m,
            None => String::new(),
        };
        self.toast = Some(Toast { message, level });
        self.toast_time = Some(now);
    }
}

} // verus!
