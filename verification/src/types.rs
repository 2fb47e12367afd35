//! Data model of the OpenCode server's objects, as plain values.
//!
//! Each type keeps exactly what the client reads of the server's JSON;
//! values the client only displays (timestamps, cost) are held as the text
//! that is shown. Types that the state logic copies implement `Clone` with a
//! proof that the copy equals the original.

use vstd::prelude::*;

verus! {

// ───────────────────────── sessions ─────────────────────────

/// Change statistics of a session.
#[derive(Debug)]
pub struct SessionSummary {
    pub title: Option<String>,
    pub description: Option<String>,
    pub additions: Option<u64>,
    pub deletions: Option<u64>,
    pub files: Option<u64>,
}

impl Clone for SessionSummary {
    fn clone(&self) -> (r: Self)
        ensures
            r == *self,
    {
        SessionSummary {
            title: self.title.clone(),
            description: self.description.clone(),
            additions: self.additions,
            deletions: self.deletions,
            files: self.files,
        }
    }
}

/// Creation and update times of a session, as displayed.
#[derive(Debug)]
pub struct SessionTime {
    pub created: String,
    pub updated: String,
}

impl Clone for SessionTime {
    fn clone(&self) -> (r: Self)
        ensures
            r == *self,
    {
        SessionTime { created: self.created.clone(), updated: self.updated.clone() }
    }
}

/// The point a session was reverted to.
#[derive(Debug)]
pub struct SessionRevert {
    pub session_id: Option<String>,
    pub message_id: Option<String>,
}

impl Clone for SessionRevert {
    fn clone(&self) -> (r: Self)
        ensures
            r == *self,
    {
        SessionRevert { session_id: self.session_id.clone(), message_id: self.message_id.clone() }
    }
}

/// A conversation session.
#[derive(Debug)]
pub struct Session {
    pub id: String,
    pub slug: Option<String>,
    pub project_id: Option<String>,
    pub directory: Option<String>,
    pub parent_id: Option<String>,
    pub summary: Option<SessionSummary>,
    pub share: Option<bool>,
    pub title: Option<String>,
    pub version: Option<String>,
    pub time: SessionTime,
    pub revert: Option<SessionRevert>,
}

impl Clone for Session {
    fn clone(&self) -> (r: Self)
        ensures
            r == *self,
    {
        let summary = match &self.summary {
            Some(s) => Some(s.clone()),
            None => None,
        };
        let revert = match &self.revert {
            Some(r) => Some(r.clone()),
            None => None,
        };
        Session {
            id: self.id.clone(),
            slug: self.slug.clone(),
            project_id: self.project_id.clone(),
            directory: self.directory.clone(),
            parent_id: self.parent_id.clone(),
            summary,
            share: self.share,
            title: self.title.clone(),
            version: self.version.clone(),
            time: self.time.clone(),
            revert,
        }
    }
}

/// Run state of a session.
#[derive(Debug)]
pub enum SessionStatus {
    Idle,
    Retry { attempt: Option<u32>, message: Option<String>, next: Option<String> },
    Busy,
}

impl Clone for SessionStatus {
    fn clone(&self) -> (r: Self)
        ensures
            r == *self,
    {
        match self {
            SessionStatus::Idle => SessionStatus::Idle,
            SessionStatus::Retry { attempt, message, next } => SessionStatus::Retry {
                attempt: *attempt,
                message: message.clone(),
                next: next.clone(),
            },
            SessionStatus::Busy => SessionStatus::Busy,
        }
    }
}

impl SessionStatus {
    /// Whether this is the `Busy` status.
    pub fn is_busy(&self) -> (r: bool)
        ensures
            r == (*self is Busy),
    {
        match self {
            SessionStatus::Busy => true,
            _ => false,
        }
    }
}

// ───────────────────────── messages ─────────────────────────

/// Times of a message, as displayed.
#[derive(Debug)]
pub struct MessageTime {
    pub created: String,
    pub completed: Option<String>,
}

impl Clone for MessageTime {
    fn clone(&self) -> (r: Self)
        ensures
            r == *self,
    {
        MessageTime { created: self.created.clone(), completed: self.completed.clone() }
    }
}

/// A message written by the user.
#[derive(Debug)]
pub struct UserMessage {
    pub id: String,
    pub session_id: String,
    pub time: MessageTime,
    pub agent: Option<String>,
}

/// Token counts of an assistant message.
#[derive(Debug, Clone, Copy)]
pub struct MessageTokens {
    pub input: Option<u64>,
    pub output: Option<u64>,
}

/// A message written by the assistant.
#[derive(Debug)]
pub struct AssistantMessage {
    pub id: String,
    pub session_id: String,
    pub time: MessageTime,
    pub parent_id: Option<String>,
    pub model_id: Option<String>,
    pub provider_id: Option<String>,
    pub agent: Option<String>,
    /// The cost, as shown: four digits after the decimal point.
    pub cost: Option<String>,
    pub tokens: Option<MessageTokens>,
    /// The error, as shown.
    pub error: Option<String>,
}

/// A message of a session.
#[derive(Debug)]
pub enum Message {
    User(UserMessage),
    Assistant(AssistantMessage),
}

impl Clone for Message {
    fn clone(&self) -> (r: Self)
        ensures
            r == *self,
    {
        match self {
            Message::User(m) => Message::User(
                UserMessage {
                    id: m.id.clone(),
                    session_id: m.session_id.clone(),
                    time: m.time.clone(),
                    agent: m.agent.clone(),
                },
            ),
            Message::Assistant(m) => Message::Assistant(
                AssistantMessage {
                    id: m.id.clone(),
                    session_id: m.session_id.clone(),
                    time: m.time.clone(),
                    parent_id: m.parent_id.clone(),
                    model_id: m.model_id.clone(),
                    provider_id: m.provider_id.clone(),
                    agent: m.agent.clone(),
                    cost: m.cost.clone(),
                    tokens: m.tokens,
                    error: m.error.clone(),
                },
            ),
        }
    }
}

impl Message {
    /// The message's id.
    pub open spec fn id_spec(self) -> Seq<char> {
        match self {
            Message::User(m) => m.id@,
            Message::Assistant(m) => m.id@,
        }
    }

    /// The id of the session the message belongs to.
    pub open spec fn session_id_spec(self) -> Seq<char> {
        match self {
            Message::User(m) => m.session_id@,
            Message::Assistant(m) => m.session_id@,
        }
    }
}

/// The message's id.
pub fn message_id(msg: &Message) -> (r: &String)
    ensures
        r@ == msg.id_spec(),
{
    match msg {
        Message::User(m) => &m.id,
        Message::Assistant(m) => &m.id,
    }
}

/// The id of the session the message belongs to.
pub fn message_session_id(msg: &Message) -> (r: &String)
    ensures
        r@ == msg.session_id_spec(),
{
    match msg {
        Message::User(m) => &m.session_id,
        Message::Assistant(m) => &m.session_id,
    }
}

// ───────────────────────── parts ─────────────────────────

/// A text part.
#[derive(Debug)]
pub struct TextPart {
    pub id: String,
    pub session_id: Option<String>,
    pub message_id: Option<String>,
    pub text: Option<String>,
}

/// A reasoning part.
#[derive(Debug)]
pub struct ReasoningPart {
    pub id: String,
    pub session_id: Option<String>,
    pub message_id: Option<String>,
    pub content: Option<String>,
}

/// What a tool call's input holds under one key.
#[derive(Debug)]
pub enum InputField {
    /// The key is absent.
    Absent,
    /// The key holds a string.
    Text(String),
    /// The key holds a value that is not a string.
    Other,
}

impl Clone for InputField {
    fn clone(&self) -> (r: Self)
        ensures
            r == *self,
    {
        match self {
            InputField::Absent => InputField::Absent,
            InputField::Text(s) => InputField::Text(s.clone()),
            InputField::Other => InputField::Other,
        }
    }
}

/// The keys of a tool call's input that the client shows.
#[derive(Debug)]
pub struct ToolInput {
    pub command: InputField,
    pub file_path: InputField,
    pub path: InputField,
    pub url: InputField,
    pub pattern: InputField,
}

impl Clone for ToolInput {
    fn clone(&self) -> (r: Self)
        ensures
            r == *self,
    {
        ToolInput {
            command: self.command.clone(),
            file_path: self.file_path.clone(),
            path: self.path.clone(),
            url: self.url.clone(),
            pattern: self.pattern.clone(),
        }
    }
}

/// State of a tool call.
#[derive(Debug)]
pub enum ToolState {
    Pending { input: Option<ToolInput> },
    Running { input: Option<ToolInput>, title: Option<String> },
    Completed { input: Option<ToolInput>, title: Option<String>, output: Option<String> },
    Error { input: Option<ToolInput>, error: Option<String> },
}

fn clone_input(i: &Option<ToolInput>) -> (r: Option<ToolInput>)
    ensures
        r == *i,
{
    match i {
        Some(x) => Some(x.clone()),
        None => None,
    }
}

impl Clone for ToolState {
    fn clone(&self) -> (r: Self)
        ensures
            r == *self,
    {
        match self {
            ToolState::Pending { input } => ToolState::Pending { input: clone_input(input) },
            ToolState::Running { input, title } => ToolState::Running {
                input: clone_input(input),
                title: title.clone(),
            },
            ToolState::Completed { input, title, output } => ToolState::Completed {
                input: clone_input(input),
                title: title.clone(),
                output: output.clone(),
            },
            ToolState::Error { input, error } => ToolState::Error {
                input: clone_input(input),
                error: error.clone(),
            },
        }
    }
}

/// A tool call part.
#[derive(Debug)]
pub struct ToolPart {
    pub id: String,
    pub session_id: Option<String>,
    pub message_id: Option<String>,
    pub tool: Option<String>,
    pub state: ToolState,
}

/// A file attachment part.
#[derive(Debug)]
pub struct FilePart {
    pub id: String,
    pub session_id: Option<String>,
    pub message_id: Option<String>,
    pub file_path: Option<String>,
    pub media_type: Option<String>,
    pub url: Option<String>,
}

/// The start of a step.
#[derive(Debug)]
pub struct StepStartPart {
    pub id: String,
    pub session_id: Option<String>,
    pub message_id: Option<String>,
    pub title: Option<String>,
}

/// A sub-agent run.
#[derive(Debug)]
pub struct AgentPart {
    pub id: String,
    pub session_id: Option<String>,
    pub message_id: Option<String>,
    pub agent: Option<String>,
}

/// A part of which the client only uses its identity.
#[derive(Debug)]
pub struct PlainPart {
    pub id: String,
    pub session_id: Option<String>,
    pub message_id: Option<String>,
}

/// A part of a message.
#[derive(Debug)]
pub enum Part {
    Text(TextPart),
    Tool(ToolPart),
    Subtask(PlainPart),
    Reasoning(ReasoningPart),
    File(FilePart),
    StepStart(StepStartPart),
    StepFinish(PlainPart),
    Snapshot(PlainPart),
    Patch(PlainPart),
    Agent(AgentPart),
    Retry(PlainPart),
    Compaction(PlainPart),
}

fn clone_plain(p: &PlainPart) -> (r: PlainPart)
    ensures
        r == *p,
{
    PlainPart { id: p.id.clone(), session_id: p.session_id.clone(), message_id: p.message_id.clone() }
}

impl Clone for Part {
    fn clone(&self) -> (r: Self)
        ensures
            r == *self,
    {
        match self {
            Part::Text(p) => Part::Text(
                TextPart {
                    id: p.id.clone(),
                    session_id: p.session_id.clone(),
                    message_id: p.message_id.clone(),
                    text: p.text.clone(),
                },
            ),
            Part::Tool(p) => Part::Tool(
                ToolPart {
                    id: p.id.clone(),
                    session_id: p.session_id.clone(),
                    message_id: p.message_id.clone(),
                    tool: p.tool.clone(),
                    state: p.state.clone(),
                },
            ),
            Part::Subtask(p) => Part::Subtask(clone_plain(p)),
            Part::Reasoning(p) => Part::Reasoning(
                ReasoningPart {
                    id: p.id.clone(),
                    session_id: p.session_id.clone(),
                    message_id: p.message_id.clone(),
                    content: p.content.clone(),
                },
            ),
            Part::File(p) => Part::File(
                FilePart {
                    id: p.id.clone(),
                    session_id: p.session_id.clone(),
                    message_id: p.message_id.clone(),
                    file_path: p.file_path.clone(),
                    media_type: p.media_type.clone(),
                    url: p.url.clone(),
                },
            ),
            Part::StepStart(p) => Part::StepStart(
                StepStartPart {
                    id: p.id.clone(),
                    session_id: p.session_id.clone(),
                    message_id: p.message_id.clone(),
                    title: p.title.clone(),
                },
            ),
            Part::StepFinish(p) => Part::StepFinish(clone_plain(p)),
            Part::Snapshot(p) => Part::Snapshot(clone_plain(p)),
            Part::Patch(p) => Part::Patch(clone_plain(p)),
            Part::Agent(p) => Part::Agent(
                AgentPart {
                    id: p.id.clone(),
                    session_id: p.session_id.clone(),
                    message_id: p.message_id.clone(),
                    agent: p.agent.clone(),
                },
            ),
            Part::Retry(p) => Part::Retry(clone_plain(p)),
            Part::Compaction(p) => Part::Compaction(clone_plain(p)),
        }
    }
}

/// The view of an optional id: the id itself, or the empty string when absent.
pub open spec fn opt_id(o: Option<String>) -> Seq<char> {
    match o {
        Some(s) => s@,
        None => Seq::empty(),
    }
}

impl Part {
    /// The part's id.
    pub open spec fn id_spec(self) -> Seq<char> {
        match self {
            Part::Text(p) => p.id@,
            Part::Tool(p) => p.id@,
            Part::Subtask(p) => p.id@,
            Part::Reasoning(p) => p.id@,
            Part::File(p) => p.id@,
            Part::StepStart(p) => p.id@,
            Part::StepFinish(p) => p.id@,
            Part::Snapshot(p) => p.id@,
            Part::Patch(p) => p.id@,
            Part::Agent(p) => p.id@,
            Part::Retry(p) => p.id@,
            Part::Compaction(p) => p.id@,
        }
    }

    /// The part's session id, or the empty string when it has none.
    pub open spec fn session_id_spec(self) -> Seq<char> {
        match self {
            Part::Text(p) => opt_id(p.session_id),
            Part::Tool(p) => opt_id(p.session_id),
            Part::Subtask(p) => opt_id(p.session_id),
            Part::Reasoning(p) => opt_id(p.session_id),
            Part::File(p) => opt_id(p.session_id),
            Part::StepStart(p) => opt_id(p.session_id),
            Part::StepFinish(p) => opt_id(p.session_id),
            Part::Snapshot(p) => opt_id(p.session_id),
            Part::Patch(p) => opt_id(p.session_id),
            Part::Agent(p) => opt_id(p.session_id),
            Part::Retry(p) => opt_id(p.session_id),
            Part::Compaction(p) => opt_id(p.session_id),
        }
    }

    /// The part's message id, or the empty string when it has none.
    pub open spec fn message_id_spec(self) -> Seq<char> {
        match self {
            Part::Text(p) => opt_id(p.message_id),
            Part::Tool(p) => opt_id(p.message_id),
            Part::Subtask(p) => opt_id(p.message_id),
            Part::Reasoning(p) => opt_id(p.message_id),
            Part::File(p) => opt_id(p.message_id),
            Part::StepStart(p) => opt_id(p.message_id),
            Part::StepFinish(p) => opt_id(p.message_id),
            Part::Snapshot(p) => opt_id(p.message_id),
            Part::Patch(p) => opt_id(p.message_id),
            Part::Agent(p) => opt_id(p.message_id),
            Part::Retry(p) => opt_id(p.message_id),
            Part::Compaction(p) => opt_id(p.message_id),
        }
    }
}

/// The part's id.
pub fn part_id(part: &Part) -> (r: &String)
    ensures
        r@ == part.id_spec(),
{
    match part {
        Part::Text(p) => &p.id,
        Part::Tool(p) => &p.id,
        Part::Subtask(p) => &p.id,
        Part::Reasoning(p) => &p.id,
        Part::File(p) => &p.id,
        Part::StepStart(p) => &p.id,
        Part::StepFinish(p) => &p.id,
        Part::Snapshot(p) => &p.id,
        Part::Patch(p) => &p.id,
        Part::Agent(p) => &p.id,
        Part::Retry(p) => &p.id,
        Part::Compaction(p) => &p.id,
    }
}

fn opt_id_of(o: &Option<String>) -> (r: String)
    ensures
        r@ == opt_id(*o),
{
    match o {
        Some(s) => s.clone(),
        None => String::new(),
    }
}

/// The part's session id, or the empty string when it has none.
pub fn part_session_id(part: &Part) -> (r: String)
    ensures
        r@ == part.session_id_spec(),
{
    match part {
        Part::Text(p) => opt_id_of(&p.session_id),
        Part::Tool(p) => opt_id_of(&p.session_id),
        Part::Subtask(p) => opt_id_of(&p.session_id),
        Part::Reasoning(p) => opt_id_of(&p.session_id),
        Part::File(p) => opt_id_of(&p.session_id),
        Part::StepStart(p) => opt_id_of(&p.session_id),
        Part::StepFinish(p) => opt_id_of(&p.session_id),
        Part::Snapshot(p) => opt_id_of(&p.session_id),
        Part::Patch(p) => opt_id_of(&p.session_id),
        Part::Agent(p) => opt_id_of(&p.session_id),
        Part::Retry(p) => opt_id_of(&p.session_id),
        Part::Compaction(p) => opt_id_of(&p.session_id),
    }
}

/// The part's message id, or the empty string when it has none.
pub fn part_message_id(part: &Part) -> (r: String)
    ensures
        r@ == part.message_id_spec(),
{
    match part {
        Part::Text(p) => opt_id_of(&p.message_id),
        Part::Tool(p) => opt_id_of(&p.message_id),
        Part::Subtask(p) => opt_id_of(&p.message_id),
        Part::Reasoning(p) => opt_id_of(&p.message_id),
        Part::File(p) => opt_id_of(&p.message_id),
        Part::StepStart(p) => opt_id_of(&p.message_id),
        Part::StepFinish(p) => opt_id_of(&p.message_id),
        Part::Snapshot(p) => opt_id_of(&p.message_id),
        Part::Patch(p) => opt_id_of(&p.message_id),
        Part::Agent(p) => opt_id_of(&p.message_id),
        Part::Retry(p) => opt_id_of(&p.message_id),
        Part::Compaction(p) => opt_id_of(&p.message_id),
    }
}

/// A message together with its parts.
#[derive(Debug)]
pub struct MessageWithParts {
    pub info: Message,
    pub parts: Vec<Part>,
}

// ───────────────────────── permissions and questions ─────────────────────────

/// A tool's request for permission.
#[derive(Debug, Clone)]
pub struct PermissionRequest {
    pub id: String,
    pub session_id: String,
    pub permission: Option<String>,
    pub patterns: Option<Vec<String>>,
    pub always: Option<Vec<String>>,
    pub description: Option<String>,
}

/// The answer given to a permission request.
#[derive(Debug, Clone, Copy, PartialEq, Eq, Structural)]
pub enum PermissionReply {
    Once,
    Always,
    Reject,
}

/// One selectable answer of a question.
#[derive(Debug, Clone)]
pub struct QuestionOption {
    pub label: String,
    pub value: String,
    pub selected: Option<bool>,
}

/// A question the assistant asks the user, as announced.
#[derive(Debug, Clone)]
pub struct QuestionInfo {
    pub id: String,
    pub session_id: String,
    pub question: String,
    pub options: Option<Vec<QuestionOption>>,
    pub multi_select: Option<bool>,
}

/// A question waiting for the user's answer.
#[derive(Debug, Clone)]
pub struct QuestionRequest {
    pub id: String,
    pub session_id: String,
    pub question: String,
    pub options: Option<Vec<QuestionOption>>,
    pub multi_select: Option<bool>,
}

/// The answer given to a question.
#[derive(Debug, Clone)]
pub struct QuestionAnswer {
    pub values: Option<Vec<String>>,
}

// ───────────────────────── todos, project ─────────────────────────

/// Progress of a todo item.
#[derive(Debug, Clone, Copy, PartialEq, Eq, Structural)]
pub enum TodoStatus {
    Pending,
    InProgress,
    Completed,
}

/// A todo item of a session.
#[derive(Debug, Clone)]
pub struct Todo {
    pub id: Option<String>,
    pub content: String,
    pub status: TodoStatus,
}

/// Version-control information of a project.
#[derive(Debug)]
pub struct VcsInfo {
    pub branch: Option<String>,
}

/// Description of a project.
#[derive(Debug, Clone)]
pub struct ProjectSummary {
    pub description: Option<String>,
    pub languages: Option<Vec<String>>,
    pub frameworks: Option<Vec<String>>,
}

/// Directories of a project.
#[derive(Debug, Clone)]
pub struct ProjectPaths {
    pub root: Option<String>,
    pub config: Option<String>,
    pub data: Option<String>,
    pub state: Option<String>,
    pub cache: Option<String>,
    /// Further named directories, as (name, path) pairs.
    pub extra: Option<Vec<(String, String)>>,
}

/// The project the server works in.
#[derive(Debug)]
pub struct Project {
    pub id: Option<String>,
    pub name: Option<String>,
    pub worktree: Option<String>,
    pub path: Option<String>,
    pub directory: Option<String>,
    pub vcs: Option<VcsInfo>,
    pub summary: Option<ProjectSummary>,
    pub paths: Option<ProjectPaths>,
}

// ───────────────────────── providers, agents, commands ─────────────────────────

/// Where a provider was configured.
#[derive(Debug, Clone, Copy, PartialEq, Eq, Structural)]
pub enum ProviderSource {
    Env,
    Config,
    Custom,
    Api,
}

/// The API a model is served through.
#[derive(Debug, Clone)]
pub struct ModelApi {
    pub id: Option<String>,
    pub url: Option<String>,
    pub npm: Option<String>,
}

/// Token limits of a model.
#[derive(Debug, Clone, Copy)]
pub struct ModelLimit {
    pub context: Option<u64>,
    pub output: Option<u64>,
}

/// A model offered by a provider.
#[derive(Debug, Clone)]
pub struct Model {
    pub id: String,
    pub provider_id: Option<String>,
    pub api: Option<ModelApi>,
    pub name: String,
    pub family: Option<String>,
    pub status: Option<String>,
    pub limit: Option<ModelLimit>,
    pub release_date: Option<String>,
}

/// A model provider and its models.
#[derive(Debug, Clone)]
pub struct Provider {
    pub id: String,
    pub name: String,
    pub source: Option<ProviderSource>,
    pub env: Option<Vec<String>>,
    pub key: Option<String>,
    pub models: Vec<Model>,
}

/// A way to authenticate with a provider.
#[derive(Debug, Clone)]
pub struct ProviderAuthMethod {
    pub auth_type: Option<String>,
    pub env: Option<String>,
    pub header: Option<String>,
}

/// An agent the user can address with `@name`.
#[derive(Debug, Clone)]
pub struct Agent {
    pub name: String,
    pub description: Option<String>,
    pub mode: Option<String>,
    pub native: Option<bool>,
    pub hidden: Option<bool>,
    pub color: Option<String>,
    pub model: Option<String>,
}

/// Where a command comes from.
#[derive(Debug, Clone, Copy, PartialEq, Eq, Structural)]
pub enum CommandSource {
    Command,
    Mcp,
    Skill,
}

/// A command of the command palette.
#[derive(Debug, Clone)]
pub struct Command {
    pub name: String,
    pub description: Option<String>,
    pub agent: Option<String>,
    pub model: Option<String>,
    pub source: Option<CommandSource>,
    pub template: Option<String>,
    pub subtask: Option<bool>,
    pub hints: Option<Vec<String>>,
    pub shortcut: Option<String>,
    pub category: Option<String>,
}

// ───────────────────────── toasts ─────────────────────────

/// Severity of a toast notification.
#[derive(Debug, Clone, Copy, PartialEq, Eq, Structural)]
pub enum ToastLevel {
    Info,
    Success,
    Warning,
    Error,
}

/// A short notification shown in a corner of the screen.
#[derive(Debug)]
pub struct Toast {
    pub message: String,
    pub level: ToastLevel,
}

} // verus!
