//! The events the OpenCode server publishes on its event stream.

use vstd::prelude::*;

use crate::types::{
    Message, Part, PermissionReply, PermissionRequest, Project, QuestionAnswer, QuestionInfo,
    Session, SessionStatus, Todo,
};

verus! {

/// `session.created`, `session.updated`, `session.deleted`.
#[derive(Debug)]
pub struct SessionInfoProps {
    pub info: Session,
}

/// `session.status`.
#[derive(Debug)]
pub struct SessionStatusProps {
    pub session_id: String,
    pub status: SessionStatus,
}

/// Events that only name a session.
#[derive(Debug)]
pub struct SessionIdProps {
    pub session_id: String,
}

/// `session.error`.
#[derive(Debug)]
pub struct SessionErrorProps {
    pub session_id: Option<String>,
    /// The error as JSON text.
    pub error: Option<String>,
}

/// A changed file.
#[derive(Debug, Clone)]
pub struct FileDiff {
    pub path: String,
    pub status: Option<String>,
    pub before: Option<String>,
    pub after: Option<String>,
}

/// `session.diff`.
#[derive(Debug)]
pub struct SessionDiffProps {
    pub session_id: String,
    pub diffs: Option<Vec<FileDiff>>,
}

/// `message.updated`.
#[derive(Debug)]
pub struct MessageUpdatedProps {
    pub session_id: Option<String>,
    pub info: Message,
}

/// `message.removed`.
#[derive(Debug)]
pub struct MessageRemovedProps {
    pub session_id: String,
    pub message_id: String,
}

/// `message.part.updated`.
#[derive(Debug)]
pub struct PartUpdatedProps {
    pub session_id: Option<String>,
    pub message_id: Option<String>,
    pub part: Part,
}

/// `message.part.delta`: text to append to a field of a part.
#[derive(Debug)]
pub struct MessagePartDeltaProps {
    pub session_id: String,
    pub message_id: String,
    pub part_id: String,
    pub field: String,
    /// The delta when it is a JSON string; `None` for any other JSON value.
    pub delta: Option<String>,
}

/// `message.part.removed`.
#[derive(Debug)]
pub struct PartRemovedProps {
    pub session_id: String,
    pub message_id: String,
    pub part_id: String,
}

/// `permission.asked`.
#[derive(Debug)]
pub struct PermissionAskedProps {
    pub request: PermissionRequest,
}

/// `permission.replied`.
#[derive(Debug)]
pub struct PermissionRepliedProps {
    pub session_id: String,
    pub request_id: String,
    pub reply: PermissionReply,
}

/// `question.asked`.
#[derive(Debug)]
pub struct QuestionAskedProps {
    pub question: QuestionInfo,
}

/// `question.replied`.
#[derive(Debug)]
pub struct QuestionRepliedProps {
    pub session_id: String,
    pub question_id: String,
    pub answer: QuestionAnswer,
}

/// `question.rejected`.
#[derive(Debug)]
pub struct QuestionRejectedProps {
    pub session_id: String,
    pub question_id: String,
}

/// `todo.updated`.
#[derive(Debug)]
pub struct TodoUpdatedProps {
    pub session_id: String,
    pub todos: Option<Vec<Todo>>,
}

/// `project.updated`.
#[derive(Debug)]
pub struct ProjectUpdatedProps {
    pub info: Project,
}

/// `vcs.branch.updated`.
#[derive(Debug)]
pub struct VcsBranchProps {
    pub branch: Option<String>,
}

/// `file.edited`.
#[derive(Debug)]
pub struct FileEditedProps {
    pub file: Option<String>,
}

/// `file.watcher.updated`.
#[derive(Debug)]
pub struct FileWatcherUpdatedProps {
    pub files: Option<Vec<String>>,
}

/// `command.executed`.
#[derive(Debug)]
pub struct CommandExecutedProps {
    pub command: Option<String>,
    pub args: Option<Vec<String>>,
}

/// `tui.prompt.append`.
#[derive(Debug)]
pub struct TuiPromptAppendProps {
    pub text: Option<String>,
}

/// `tui.command.execute`.
#[derive(Debug)]
pub struct TuiCommandExecuteProps {
    pub command: Option<String>,
}

/// `tui.toast.show`.
#[derive(Debug)]
pub struct TuiToastProps {
    pub title: Option<String>,
    pub message: Option<String>,
    pub variant: Option<String>,
}

/// `tui.session.select`.
#[derive(Debug)]
pub struct TuiSessionSelectProps {
    pub session_id: Option<String>,
}

/// Version of an installation.
#[derive(Debug, Clone)]
pub struct InstallationInfo {
    pub version: Option<String>,
    pub path: Option<String>,
}

/// `installation.updated`.
#[derive(Debug)]
pub struct InstallationUpdatedProps {
    pub info: Option<InstallationInfo>,
}

/// `installation.update-available`.
#[derive(Debug)]
pub struct InstallationUpdateAvailableProps {
    pub version: Option<String>,
}

/// A pseudo-terminal of the server.
#[derive(Debug, Clone)]
pub struct Pty {
    pub id: String,
    pub name: Option<String>,
    pub command: Option<String>,
    pub running: Option<bool>,
}

/// `pty.created`, `pty.updated`, `pty.deleted`.
#[derive(Debug)]
pub struct PtyEventProps {
    pub info: Pty,
}

/// `pty.exited`.
#[derive(Debug)]
pub struct PtyExitedProps {
    pub id: String,
    pub exit_code: Option<i32>,
}

/// A tool of an MCP server.
#[derive(Debug, Clone)]
pub struct McpTool {
    pub name: Option<String>,
    pub description: Option<String>,
    pub server: Option<String>,
}

/// The tools of an MCP server.
#[derive(Debug, Clone)]
pub struct McpToolsInfo {
    pub server: Option<String>,
    pub tools: Option<Vec<McpTool>>,
}

/// `mcp.tools.changed`.
#[derive(Debug)]
pub struct McpToolsChangedProps {
    pub tools: Option<McpToolsInfo>,
}

/// `mcp.browser.open.failed`.
#[derive(Debug)]
pub struct McpBrowserOpenFailedProps {
    pub url: Option<String>,
    pub error: Option<String>,
}

/// Status of a language server.
#[derive(Debug, Clone)]
pub struct LspStatus {
    pub name: Option<String>,
    pub status: Option<String>,
    pub language: Option<String>,
}

/// `lsp.updated`.
#[derive(Debug)]
pub struct LspUpdatedProps {
    /// Statuses as (server name, status) pairs.
    pub statuses: Option<Vec<(String, LspStatus)>>,
}

/// One diagnostic of a language server.
#[derive(Debug, Clone)]
pub struct LspDiagnostic {
    pub message: Option<String>,
    pub severity: Option<i64>,
    pub source: Option<String>,
}

/// Diagnostics of one file.
#[derive(Debug, Clone)]
pub struct LspDiagnostics {
    pub uri: Option<String>,
    pub diagnostics: Option<Vec<LspDiagnostic>>,
}

/// `lsp.client.diagnostics`.
#[derive(Debug)]
pub struct LspClientDiagnosticsProps {
    pub diagnostics: Option<LspDiagnostics>,
}

/// A git worktree.
#[derive(Debug, Clone)]
pub struct Worktree {
    pub path: Option<String>,
    pub branch: Option<String>,
}

/// `worktree.ready`.
#[derive(Debug)]
pub struct WorktreeReadyProps {
    pub worktree: Worktree,
}

/// `worktree.failed`.
#[derive(Debug)]
pub struct WorktreeFailedProps {
    pub error: String,
}

/// An event of the server's event stream.
#[derive(Debug)]
pub enum Event {
    SessionCreated { properties: SessionInfoProps },
    SessionUpdated { properties: SessionInfoProps },
    SessionDeleted { properties: SessionInfoProps },
    SessionCompacted { properties: SessionIdProps },
    SessionStatus { properties: SessionStatusProps },
    SessionIdle { properties: SessionIdProps },
    SessionError { properties: SessionErrorProps },
    SessionDiff { properties: SessionDiffProps },
    MessageUpdated { properties: MessageUpdatedProps },
    MessageRemoved { properties: MessageRemovedProps },
    MessagePartUpdated { properties: PartUpdatedProps },
    MessagePartDelta { properties: MessagePartDeltaProps },
    MessagePartRemoved { properties: PartRemovedProps },
    PermissionAsked { properties: PermissionAskedProps },
    PermissionReplied { properties: PermissionRepliedProps },
    QuestionAsked { properties: QuestionAskedProps },
    QuestionReplied { properties: QuestionRepliedProps },
    QuestionRejected { properties: QuestionRejectedProps },
    TodoUpdated { properties: TodoUpdatedProps },
    ProjectUpdated { properties: ProjectUpdatedProps },
    VcsBranchUpdated { properties: VcsBranchProps },
    ServerConnected,
    ServerInstanceDisposed,
    GlobalDisposed,
    FileEdited { properties: FileEditedProps },
    FileWatcherUpdated { properties: FileWatcherUpdatedProps },
    CommandExecuted { properties: CommandExecutedProps },
    TuiPromptAppend { properties: TuiPromptAppendProps },
    TuiCommandExecute { properties: TuiCommandExecuteProps },
    TuiToastShow { properties: TuiToastProps },
    TuiSessionSelect { properties: TuiSessionSelectProps },
    InstallationUpdated { properties: InstallationUpdatedProps },
    InstallationUpdateAvailable { properties: InstallationUpdateAvailableProps },
    PtyCreated { properties: PtyEventProps },
    PtyUpdated { properties: PtyEventProps },
    PtyExited { properties: PtyExitedProps },
    PtyDeleted { properties: PtyEventProps },
    McpToolsChanged { properties: McpToolsChangedProps },
    McpBrowserOpenFailed { properties: McpBrowserOpenFailedProps },
    LspUpdated { properties: LspUpdatedProps },
    LspClientDiagnostics { properties: LspClientDiagnosticsProps },
    WorktreeReady { properties: WorktreeReadyProps },
    WorktreeFailed { properties: WorktreeFailedProps },
}

} // verus!
