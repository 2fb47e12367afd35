//! The server's HTTP API: the client's base URL, the requests it sends (method,
//! URL, query), and the bodies of prompts.

use vstd::prelude::*;

use crate::text::{chars_of, concat, string_from, string_of, trim_end_char, trim_end_spec};
use crate::view::{decimal, decimal_chars};

verus! {

// ───────────────────────── plain API types ─────────────────────────

/// The answer of the health check.
#[derive(Debug, Clone)]
pub struct HealthResponse {
    pub healthy: bool,
    pub version: String,
}

/// A model, by provider and model id.
#[derive(Debug, Clone)]
pub struct ModelSelector {
    pub provider_id: String,
    pub model_id: String,
}

/// A part of a prompt.
#[derive(Debug, Clone)]
pub enum PartInput {
    Text { id: Option<String>, text: String, synthetic: Option<bool>, ignored: Option<bool> },
    File { id: Option<String>, mime: String, url: String, filename: Option<String> },
    Agent { id: Option<String>, name: String },
    Subtask {
        id: Option<String>,
        prompt: String,
        description: String,
        agent: String,
        model: Option<ModelSelector>,
        command: Option<String>,
    },
}

/// The body of a prompt.
#[derive(Debug, Clone)]
pub struct SendMessageRequest {
    pub parts: Vec<PartInput>,
    pub message_id: Option<String>,
    pub model: Option<ModelSelector>,
    pub agent: Option<String>,
    pub no_reply: Option<bool>,
    pub system: Option<String>,
    pub variant: Option<String>,
    /// The requested output format, as JSON text.
    pub format: Option<String>,
}

/// The body of a command run in a session.
#[derive(Debug, Clone)]
pub struct SendCommandRequest {
    pub command: String,
    pub arguments: String,
    pub agent: Option<String>,
    pub model: Option<String>,
    pub variant: Option<String>,
    pub message_id: Option<String>,
    /// Extra parts, each as JSON text.
    pub parts: Option<Vec<String>>,
}

/// A control request addressed to the TUI.
#[derive(Debug, Clone)]
pub struct TuiControlRequest {
    pub path: String,
    /// The request's body, as JSON text.
    pub body: String,
}

// ───────────────────────── requests ─────────────────────────

/// An HTTP method.
#[derive(Debug, Clone, Copy, PartialEq, Eq, Structural)]
pub enum HttpMethod {
    Get,
    Post,
    Put,
    Patch,
    Delete,
}

/// An HTTP request without its body: method, full URL and query parameters.
#[derive(Debug)]
pub struct ApiRequest {
    pub method: HttpMethod,
    pub url: String,
    pub query: Vec<(String, String)>,
}

/// The view of query parameters.
pub open spec fn query_view(q: Seq<(String, String)>) -> Seq<(Seq<char>, Seq<char>)> {
    q.map_values(|p: (String, String)| (p.0@, p.1@))
}

/// A query parameter present when its value is.
pub open spec fn opt_param(k: Seq<char>, v: Option<String>) -> Seq<(Seq<char>, Seq<char>)> {
    match v {
        Some(x) => seq![(k, x@)],
        None => Seq::empty(),
    }
}

/// A numeric query parameter, in decimal, present when its value is.
pub open spec fn num_param(k: Seq<char>, v: Option<u32>) -> Seq<(Seq<char>, Seq<char>)> {
    match v {
        Some(n) => seq![(k, decimal(n as nat))],
        None => Seq::empty(),
    }
}

/// A boolean query parameter, `true` or `false`, present when its value is.
pub open spec fn bool_param(k: Seq<char>, v: Option<bool>) -> Seq<(Seq<char>, Seq<char>)> {
    match v {
        Some(b) => seq![(k, if b { "true"@ } else { "false"@ })],
        None => Seq::empty(),
    }
}

fn extend_str(path: &mut Vec<char>, s: &str)
    ensures
        final(path)@ == old(path)@ + s@,
{
    crate::text::extend(path, &chars_of(s));
}

fn push_param(q: &mut Vec<(String, String)>, k: &str, v: &str)
    ensures
        query_view(final(q)@) == query_view(old(q)@) + seq![(k@, v@)],
{
    let ghost prev = q@;
    q.push((string_from(k), string_from(v)));
    assert(query_view(q@) =~= query_view(prev) + seq![(k@, v@)]);
}

fn push_opt_param(q: &mut Vec<(String, String)>, k: &str, v: &Option<String>)
    ensures
        query_view(final(q)@) == query_view(old(q)@) + opt_param(k@, *v),
{
    match v {
        Some(x) => push_param(q, k, x.as_str()),
        None => {
            assert(query_view(q@) + opt_param(k@, *v) =~= query_view(q@));
        },
    }
}

fn push_num_param(q: &mut Vec<(String, String)>, k: &str, v: Option<u32>)
    ensures
        query_view(final(q)@) == query_view(old(q)@) + num_param(k@, v),
{
    match v {
        Some(n) => {
            let d = string_of(&decimal_chars(n as u64));
            push_param(q, k, d.as_str());
        },
        None => {
            assert(query_view(q@) + num_param(k@, v) =~= query_view(q@));
        },
    }
}

fn push_bool_param(q: &mut Vec<(String, String)>, k: &str, v: Option<bool>)
    ensures
        query_view(final(q)@) == query_view(old(q)@) + bool_param(k@, v),
{
    match v {
        Some(b) => {
            if b {
                push_param(q, k, "true");
            } else {
                push_param(q, k, "false");
            }
        },
        None => {
            assert(query_view(q@) + bool_param(k@, v) =~= query_view(q@));
        },
    }
}

// ───────────────────────── the client ─────────────────────────

/// The client's view of a server: where it is.
#[derive(Debug)]
pub struct ApiClient {
    base_url: String,
}

impl Clone for ApiClient {
    /// A client for the same server.
    fn clone(&self) -> (r: Self)
        ensures
            r.base_url_spec() == self.base_url_spec(),
    {
        ApiClient { base_url: self.base_url.clone() }
    }
}

impl ApiClient {
    /// The server's base URL.
    pub closed spec fn base_url_spec(&self) -> Seq<char> {
        self.base_url@
    }

    /// A client for the server at `base_url`, kept without trailing slashes.
    pub fn new(base_url: String) -> (r: ApiClient)
        ensures
            r.base_url_spec() == trim_end_spec(base_url@, '/'),
    {
        let v = chars_of(base_url.as_str());
        let t = trim_end_char(&v, '/');
        ApiClient { base_url: string_of(&t) }
    }

    /// The server's base URL.
    pub fn base_url(&self) -> (r: &str)
        ensures
            r@ == self.base_url_spec(),
    {
        self.base_url.as_str()
    }

    /// The full URL of `path` on the server.
    pub fn url(&self, path: &str) -> (r: String)
        ensures
            r@ == self.base_url_spec() + path@,
    {
        concat(self.base_url.as_str(), path)
    }
}

/// A call of the server's HTTP API, with the values that go into its URL.
#[derive(Debug)]
pub enum Endpoint {
    /// The server's health.
    Health,
    /// Disposes all instances.
    DisposeGlobal,
    /// The global configuration.
    GlobalConfig,
    /// Updates the global configuration.
    UpdateGlobalConfig,
    /// Sets a provider's credentials.
    SetAuth { provider_id: String },
    /// Removes a provider's credentials.
    DeleteAuth { provider_id: String },
    /// All projects.
    ListProjects,
    /// The current project.
    CurrentProject,
    /// Updates a project.
    UpdateProject { project_id: String },
    /// The configuration.
    Config,
    /// Updates the configuration.
    UpdateConfig,
    /// The configured providers.
    ProvidersConfig,
    /// The providers and their models.
    ListProviders,
    /// The providers' authentication methods.
    ProviderAuth,
    /// Starts a provider's OAuth flow.
    OauthAuthorize { provider_id: String },
    /// Completes a provider's OAuth flow.
    OauthCallback { provider_id: String },
    /// The sessions, of one project when given.
    ListSessions { project_id: Option<String> },
    /// Creates a session.
    CreateSession,
    /// Every session's status.
    SessionStatuses,
    /// One session.
    GetSession { id: String },
    /// Deletes a session.
    DeleteSession { id: String },
    /// Renames a session.
    UpdateSession { id: String },
    /// A session's child sessions.
    SessionChildren { id: String },
    /// A session's todo list.
    SessionTodos { id: String },
    /// Analyzes the project for a session.
    InitSession { id: String },
    /// Forks a session.
    ForkSession { id: String },
    /// Aborts a session's running operation.
    AbortSession { id: String },
    /// Shares a session.
    ShareSession { id: String },
    /// Stops sharing a session.
    UnshareSession { id: String },
    /// A session's file changes, up to a message when given.
    SessionDiff { id: String, message_id: Option<String> },
    /// Summarizes a session.
    SummarizeSession { id: String },
    /// Reverts a session to a message.
    RevertSession { id: String },
    /// Undoes a revert.
    UnrevertSession { id: String },
    /// Answers a permission request of a session.
    ReplyPermission { session_id: String, permission_id: String },
    /// A session's messages, the last `limit` when given.
    ListMessages { session_id: String, limit: Option<u32> },
    /// Sends a prompt and waits for the answer.
    SendMessage { session_id: String },
    /// One message.
    GetMessage { session_id: String, message_id: String },
    /// Deletes a message.
    DeleteMessage { session_id: String, message_id: String },
    /// Deletes a part of a message.
    DeleteMessagePart { session_id: String, message_id: String, part_id: String },
    /// Updates a part of a message.
    UpdateMessagePart { session_id: String, message_id: String, part_id: String },
    /// Sends a prompt without waiting for the answer.
    PromptAsync { session_id: String },
    /// Runs a command in a session.
    SendCommand { session_id: String },
    /// Runs a shell command in a session.
    SendShell { session_id: String },
    /// Answers a permission request.
    ReplyPermissionRequest { request_id: String },
    /// The pending permission requests.
    ListPermissions,
    /// The pending questions.
    ListQuestions,
    /// Answers a question.
    ReplyQuestion { request_id: String },
    /// Declines a question.
    RejectQuestion { request_id: String },
    /// Searches the files' text.
    Find { pattern: String },
    /// Searches file names.
    FindFile { query: String, file_type: Option<String>, directory: Option<String>, limit: Option<u32>, dirs: Option<bool> },
    /// Searches symbols.
    FindSymbol { query: String },
    /// The files of a directory.
    ListFiles { path: String },
    /// A file's content.
    FileContent { path: String },
    /// The files' version-control status.
    FileStatus,
    /// The commands.
    ListCommands,
    /// The agents.
    ListAgents,
    /// The skills.
    ListSkills,
    /// The MCP servers.
    ListMcp,
    /// Adds an MCP server.
    CreateMcp,
    /// Connects an MCP server.
    ConnectMcp { name: String },
    /// Disconnects an MCP server.
    DisconnectMcp { name: String },
    /// Starts an MCP server's authentication.
    McpAuthStart { name: String },
    /// Removes an MCP server's authentication.
    McpAuthRemove { name: String },
    /// Authenticates an MCP server.
    McpAuthAuthenticate { name: String },
    /// Completes an MCP server's authentication.
    McpAuthCallback { name: String },
    /// The terminals.
    ListPtys,
    /// Opens a terminal.
    CreatePty,
    /// One terminal.
    GetPty { id: String },
    /// Updates a terminal.
    UpdatePty { id: String },
    /// Closes a terminal.
    DeletePty { id: String },
    /// The language servers.
    ListLsp,
    /// The formatters.
    ListFormatters,
    /// The server's directories.
    GetPath,
    /// The version-control information.
    GetVcs,
    /// Writes to the server's log.
    Log,
    /// Disposes the instance.
    DisposeInstance,
    /// Appends to the TUI's prompt.
    TuiAppendPrompt,
    /// Clears the TUI's prompt.
    TuiClearPrompt,
    /// Submits the TUI's prompt.
    TuiSubmitPrompt,
    /// Runs a TUI command.
    TuiExecuteCommand,
    /// Shows a toast in the TUI.
    TuiShowToast,
    /// Opens the TUI's help.
    TuiOpenHelp,
    /// Opens the TUI's session picker.
    TuiOpenSessions,
    /// Opens the TUI's theme picker.
    TuiOpenThemes,
    /// Opens the TUI's model picker.
    TuiOpenModels,
    /// Selects a session in the TUI.
    TuiSelectSession,
    /// Publishes a TUI event.
    TuiPublish,
    /// The next TUI control request.
    TuiControlNext,
    /// Answers a TUI control request.
    TuiControlResponse,
}

/// The method, path and query parameters of an endpoint.
pub open spec fn route(ep: Endpoint) -> (HttpMethod, Seq<char>, Seq<(Seq<char>, Seq<char>)>) {
    match ep {
        Endpoint::Health => (HttpMethod::Get, "/global/health"@, Seq::empty()),
        Endpoint::DisposeGlobal => (HttpMethod::Post, "/global/dispose"@, Seq::empty()),
        Endpoint::GlobalConfig => (HttpMethod::Get, "/global/config"@, Seq::empty()),
        Endpoint::UpdateGlobalConfig => (HttpMethod::Patch, "/global/config"@, Seq::empty()),
        Endpoint::SetAuth { provider_id } => (HttpMethod::Put, "/auth/"@ + provider_id@, Seq::empty()),
        Endpoint::DeleteAuth { provider_id } => (HttpMethod::Delete, "/auth/"@ + provider_id@, Seq::empty()),
        Endpoint::ListProjects => (HttpMethod::Get, "/project"@, Seq::empty()),
        Endpoint::CurrentProject => (HttpMethod::Get, "/project/current"@, Seq::empty()),
        Endpoint::UpdateProject { project_id } => (HttpMethod::Patch, "/project/"@ + project_id@, Seq::empty()),
        Endpoint::Config => (HttpMethod::Get, "/config"@, Seq::empty()),
        Endpoint::UpdateConfig => (HttpMethod::Patch, "/config"@, Seq::empty()),
        Endpoint::ProvidersConfig => (HttpMethod::Get, "/config/providers"@, Seq::empty()),
        Endpoint::ListProviders => (HttpMethod::Get, "/provider"@, Seq::empty()),
        Endpoint::ProviderAuth => (HttpMethod::Get, "/provider/auth"@, Seq::empty()),
        Endpoint::OauthAuthorize { provider_id } => (HttpMethod::Post, "/provider/"@ + provider_id@ + "/oauth/authorize"@, Seq::empty()),
        Endpoint::OauthCallback { provider_id } => (HttpMethod::Post, "/provider/"@ + provider_id@ + "/oauth/callback"@, Seq::empty()),
        Endpoint::ListSessions { project_id } => (HttpMethod::Get, "/session"@, opt_param("projectID"@, project_id)),
        Endpoint::CreateSession => (HttpMethod::Post, "/session"@, Seq::empty()),
        Endpoint::SessionStatuses => (HttpMethod::Get, "/session/status"@, Seq::empty()),
        Endpoint::GetSession { id } => (HttpMethod::Get, "/session/"@ + id@, Seq::empty()),
        Endpoint::DeleteSession { id } => (HttpMethod::Delete, "/session/"@ + id@, Seq::empty()),
        Endpoint::UpdateSession { id } => (HttpMethod::Patch, "/session/"@ + id@, Seq::empty()),
        Endpoint::SessionChildren { id } => (HttpMethod::Get, "/session/"@ + id@ + "/children"@, Seq::empty()),
        Endpoint::SessionTodos { id } => (HttpMethod::Get, "/session/"@ + id@ + "/todo"@, Seq::empty()),
        Endpoint::InitSession { id } => (HttpMethod::Post, "/session/"@ + id@ + "/init"@, Seq::empty()),
        Endpoint::ForkSession { id } => (HttpMethod::Post, "/session/"@ + id@ + "/fork"@, Seq::empty()),
        Endpoint::AbortSession { id } => (HttpMethod::Post, "/session/"@ + id@ + "/abort"@, Seq::empty()),
        Endpoint::ShareSession { id } => (HttpMethod::Post, "/session/"@ + id@ + "/share"@, Seq::empty()),
        Endpoint::UnshareSession { id } => (HttpMethod::Delete, "/session/"@ + id@ + "/share"@, Seq::empty()),
        Endpoint::SessionDiff { id, message_id } => (HttpMethod::Get, "/session/"@ + id@ + "/diff"@, opt_param("messageID"@, message_id)),
        Endpoint::SummarizeSession { id } => (HttpMethod::Post, "/session/"@ + id@ + "/summarize"@, Seq::empty()),
        Endpoint::RevertSession { id } => (HttpMethod::Post, "/session/"@ + id@ + "/revert"@, Seq::empty()),
        Endpoint::UnrevertSession { id } => (HttpMethod::Post, "/session/"@ + id@ + "/unrevert"@, Seq::empty()),
        Endpoint::ReplyPermission { session_id, permission_id } => (HttpMethod::Post, "/session/"@ + session_id@ + "/permissions/"@ + permission_id@, Seq::empty()),
        Endpoint::ListMessages { session_id, limit } => (HttpMethod::Get, "/session/"@ + session_id@ + "/message"@, num_param("limit"@, limit)),
        Endpoint::SendMessage { session_id } => (HttpMethod::Post, "/session/"@ + session_id@ + "/message"@, Seq::empty()),
        Endpoint::GetMessage { session_id, message_id } => (HttpMethod::Get, "/session/"@ + session_id@ + "/message/"@ + message_id@, Seq::empty()),
        Endpoint::DeleteMessage { session_id, message_id } => (HttpMethod::Delete, "/session/"@ + session_id@ + "/message/"@ + message_id@, Seq::empty()),
        Endpoint::DeleteMessagePart { session_id, message_id, part_id } => (HttpMethod::Delete, "/session/"@ + session_id@ + "/message/"@ + message_id@ + "/part/"@ + part_id@, Seq::empty()),
        Endpoint::UpdateMessagePart { session_id, message_id, part_id } => (HttpMethod::Patch, "/session/"@ + session_id@ + "/message/"@ + message_id@ + "/part/"@ + part_id@, Seq::empty()),
        Endpoint::PromptAsync { session_id } => (HttpMethod::Post, "/session/"@ + session_id@ + "/prompt_async"@, Seq::empty()),
        Endpoint::SendCommand { session_id } => (HttpMethod::Post, "/session/"@ + session_id@ + "/command"@, Seq::empty()),
        Endpoint::SendShell { session_id } => (HttpMethod::Post, "/session/"@ + session_id@ + "/shell"@, Seq::empty()),
        Endpoint::ReplyPermissionRequest { request_id } => (HttpMethod::Post, "/permission/"@ + request_id@ + "/reply"@, Seq::empty()),
        Endpoint::ListPermissions => (HttpMethod::Get, "/permission"@, Seq::empty()),
        Endpoint::ListQuestions => (HttpMethod::Get, "/question"@, Seq::empty()),
        Endpoint::ReplyQuestion { request_id } => (HttpMethod::Post, "/question/"@ + request_id@ + "/reply"@, Seq::empty()),
        Endpoint::RejectQuestion { request_id } => (HttpMethod::Post, "/question/"@ + request_id@ + "/reject"@, Seq::empty()),
        Endpoint::Find { pattern } => (HttpMethod::Get, "/find"@, seq![("pattern"@, pattern@)]),
        Endpoint::FindFile { query, file_type, directory, limit, dirs } => (HttpMethod::Get, "/find/file"@, seq![("query"@, query@)] + opt_param("type"@, file_type) + opt_param("directory"@, directory) + num_param("limit"@, limit) + bool_param("dirs"@, dirs)),
        Endpoint::FindSymbol { query } => (HttpMethod::Get, "/find/symbol"@, seq![("query"@, query@)]),
        Endpoint::ListFiles { path } => (HttpMethod::Get, "/file"@, seq![("path"@, path@)]),
        Endpoint::FileContent { path } => (HttpMethod::Get, "/file/content"@, seq![("path"@, path@)]),
        Endpoint::FileStatus => (HttpMethod::Get, "/file/status"@, Seq::empty()),
        Endpoint::ListCommands => (HttpMethod::Get, "/command"@, Seq::empty()),
        Endpoint::ListAgents => (HttpMethod::Get, "/agent"@, Seq::empty()),
        Endpoint::ListSkills => (HttpMethod::Get, "/skill"@, Seq::empty()),
        Endpoint::ListMcp => (HttpMethod::Get, "/mcp"@, Seq::empty()),
        Endpoint::CreateMcp => (HttpMethod::Post, "/mcp"@, Seq::empty()),
        Endpoint::ConnectMcp { name } => (HttpMethod::Post, "/mcp/"@ + name@ + "/connect"@, Seq::empty()),
        Endpoint::DisconnectMcp { name } => (HttpMethod::Post, "/mcp/"@ + name@ + "/disconnect"@, Seq::empty()),
        Endpoint::McpAuthStart { name } => (HttpMethod::Post, "/mcp/"@ + name@ + "/auth"@, Seq::empty()),
        Endpoint::McpAuthRemove { name } => (HttpMethod::Delete, "/mcp/"@ + name@ + "/auth"@, Seq::empty()),
        Endpoint::McpAuthAuthenticate { name } => (HttpMethod::Post, "/mcp/"@ + name@ + "/auth/authenticate"@, Seq::empty()),
        Endpoint::McpAuthCallback { name } => (HttpMethod::Post, "/mcp/"@ + name@ + "/auth/callback"@, Seq::empty()),
        Endpoint::ListPtys => (HttpMethod::Get, "/pty"@, Seq::empty()),
        Endpoint::CreatePty => (HttpMethod::Post, "/pty"@, Seq::empty()),
        Endpoint::GetPty { id } => (HttpMethod::Get, "/pty/"@ + id@, Seq::empty()),
        Endpoint::UpdatePty { id } => (HttpMethod::Put, "/pty/"@ + id@, Seq::empty()),
        Endpoint::DeletePty { id } => (HttpMethod::Delete, "/pty/"@ + id@, Seq::empty()),
        Endpoint::ListLsp => (HttpMethod::Get, "/lsp"@, Seq::empty()),
        Endpoint::ListFormatters => (HttpMethod::Get, "/formatter"@, Seq::empty()),
        Endpoint::GetPath => (HttpMethod::Get, "/path"@, Seq::empty()),
        Endpoint::GetVcs => (HttpMethod::Get, "/vcs"@, Seq::empty()),
        Endpoint::Log => (HttpMethod::Post, "/log"@, Seq::empty()),
        Endpoint::DisposeInstance => (HttpMethod::Post, "/instance/dispose"@, Seq::empty()),
        Endpoint::TuiAppendPrompt => (HttpMethod::Post, "/tui/append-prompt"@, Seq::empty()),
        Endpoint::TuiClearPrompt => (HttpMethod::Post, "/tui/clear-prompt"@, Seq::empty()),
        Endpoint::TuiSubmitPrompt => (HttpMethod::Post, "/tui/submit-prompt"@, Seq::empty()),
        Endpoint::TuiExecuteCommand => (HttpMethod::Post, "/tui/execute-command"@, Seq::empty()),
        Endpoint::TuiShowToast => (HttpMethod::Post, "/tui/show-toast"@, Seq::empty()),
        Endpoint::TuiOpenHelp => (HttpMethod::Post, "/tui/open-help"@, Seq::empty()),
        Endpoint::TuiOpenSessions => (HttpMethod::Post, "/tui/open-sessions"@, Seq::empty()),
        Endpoint::TuiOpenThemes => (HttpMethod::Post, "/tui/open-themes"@, Seq::empty()),
        Endpoint::TuiOpenModels => (HttpMethod::Post, "/tui/open-models"@, Seq::empty()),
        Endpoint::TuiSelectSession => (HttpMethod::Post, "/tui/select-session"@, Seq::empty()),
        Endpoint::TuiPublish => (HttpMethod::Post, "/tui/publish"@, Seq::empty()),
        Endpoint::TuiControlNext => (HttpMethod::Get, "/tui/control/next"@, Seq::empty()),
        Endpoint::TuiControlResponse => (HttpMethod::Post, "/tui/control/response"@, Seq::empty()),
    }
}

impl ApiClient {
    /// The request that calls `ep` on this client's server.
    pub fn request(&self, ep: &Endpoint) -> (r: ApiRequest)
        ensures
            r.method == route(*ep).0,
            r.url@ == self.base_url_spec() + route(*ep).1,
            query_view(r.query@) == route(*ep).2,
    {
        let mut url_path: Vec<char> = Vec::new();
        let mut params: Vec<(String, String)> = Vec::new();
        let method = match ep {
            Endpoint::Health => {
                extend_str(&mut url_path, "/global/health");
                HttpMethod::Get
            },
            Endpoint::DisposeGlobal => {
                extend_str(&mut url_path, "/global/dispose");
                HttpMethod::Post
            },
            Endpoint::GlobalConfig => {
                extend_str(&mut url_path, "/global/config");
                HttpMethod::Get
            },
            Endpoint::UpdateGlobalConfig => {
                extend_str(&mut url_path, "/global/config");
                HttpMethod::Patch
            },
            Endpoint::SetAuth { provider_id } => {
                extend_str(&mut url_path, "/auth/");
                extend_str(&mut url_path, provider_id.as_str());
                HttpMethod::Put
            },
            Endpoint::DeleteAuth { provider_id } => {
                extend_str(&mut url_path, "/auth/");
                extend_str(&mut url_path, provider_id.as_str());
                HttpMethod::Delete
            },
            Endpoint::ListProjects => {
                extend_str(&mut url_path, "/project");
                HttpMethod::Get
            },
            Endpoint::CurrentProject => {
                extend_str(&mut url_path, "/project/current");
                HttpMethod::Get
            },
            Endpoint::UpdateProject { project_id } => {
                extend_str(&mut url_path, "/project/");
                extend_str(&mut url_path, project_id.as_str());
                HttpMethod::Patch
            },
            Endpoint::Config => {
                extend_str(&mut url_path, "/config");
                HttpMethod::Get
            },
            Endpoint::UpdateConfig => {
                extend_str(&mut url_path, "/config");
                HttpMethod::Patch
            },
            Endpoint::ProvidersConfig => {
                extend_str(&mut url_path, "/config/providers");
                HttpMethod::Get
            },
            Endpoint::ListProviders => {
                extend_str(&mut url_path, "/provider");
                HttpMethod::Get
            },
            Endpoint::ProviderAuth => {
                extend_str(&mut url_path, "/provider/auth");
                HttpMethod::Get
            },
            Endpoint::OauthAuthorize { provider_id } => {
                extend_str(&mut url_path, "/provider/");
                extend_str(&mut url_path, provider_id.as_str());
                extend_str(&mut url_path, "/oauth/authorize");
                HttpMethod::Post
            },
            Endpoint::OauthCallback { provider_id } => {
                extend_str(&mut url_path, "/provider/");
                extend_str(&mut url_path, provider_id.as_str());
                extend_str(&mut url_path, "/oauth/callback");
                HttpMethod::Post
            },
            Endpoint::ListSessions { project_id } => {
                extend_str(&mut url_path, "/session");
                push_opt_param(&mut params, "projectID", project_id);
                HttpMethod::Get
            },
            Endpoint::CreateSession => {
                extend_str(&mut url_path, "/session");
                HttpMethod::Post
            },
            Endpoint::SessionStatuses => {
                extend_str(&mut url_path, "/session/status");
                HttpMethod::Get
            },
            Endpoint::GetSession { id } => {
                extend_str(&mut url_path, "/session/");
                extend_str(&mut url_path, id.as_str());
                HttpMethod::Get
            },
            Endpoint::DeleteSession { id } => {
                extend_str(&mut url_path, "/session/");
                extend_str(&mut url_path, id.as_str());
                HttpMethod::Delete
            },
            Endpoint::UpdateSession { id } => {
                extend_str(&mut url_path, "/session/");
                extend_str(&mut url_path, id.as_str());
                HttpMethod::Patch
            },
            Endpoint::SessionChildren { id } => {
                extend_str(&mut url_path, "/session/");
                extend_str(&mut url_path, id.as_str());
                extend_str(&mut url_path, "/children");
                HttpMethod::Get
            },
            Endpoint::SessionTodos { id } => {
                extend_str(&mut url_path, "/session/");
                extend_str(&mut url_path, id.as_str());
                extend_str(&mut url_path, "/todo");
                HttpMethod::Get
            },
            Endpoint::InitSession { id } => {
                extend_str(&mut url_path, "/session/");
                extend_str(&mut url_path, id.as_str());
                extend_str(&mut url_path, "/init");
                HttpMethod::Post
            },
            Endpoint::ForkSession { id } => {
                extend_str(&mut url_path, "/session/");
                extend_str(&mut url_path, id.as_str());
                extend_str(&mut url_path, "/fork");
                HttpMethod::Post
            },
            Endpoint::AbortSession { id } => {
                extend_str(&mut url_path, "/session/");
                extend_str(&mut url_path, id.as_str());
                extend_str(&mut url_path, "/abort");
                HttpMethod::Post
            },
            Endpoint::ShareSession { id } => {
                extend_str(&mut url_path, "/session/");
                extend_str(&mut url_path, id.as_str());
                extend_str(&mut url_path, "/share");
                HttpMethod::Post
            },
            Endpoint::UnshareSession { id } => {
                extend_str(&mut url_path, "/session/");
                extend_str(&mut url_path, id.as_str());
                extend_str(&mut url_path, "/share");
                HttpMethod::Delete
            },
            Endpoint::SessionDiff { id, message_id } => {
                extend_str(&mut url_path, "/session/");
                extend_str(&mut url_path, id.as_str());
                extend_str(&mut url_path, "/diff");
                push_opt_param(&mut params, "messageID", message_id);
                HttpMethod::Get
            },
            Endpoint::SummarizeSession { id } => {
                extend_str(&mut url_path, "/session/");
                extend_str(&mut url_path, id.as_str());
                extend_str(&mut url_path, "/summarize");
                HttpMethod::Post
            },
            Endpoint::RevertSession { id } => {
                extend_str(&mut url_path, "/session/");
                extend_str(&mut url_path, id.as_str());
                extend_str(&mut url_path, "/revert");
                HttpMethod::Post
            },
            Endpoint::UnrevertSession { id } => {
                extend_str(&mut url_path, "/session/");
                extend_str(&mut url_path, id.as_str());
                extend_str(&mut url_path, "/unrevert");
                HttpMethod::Post
            },
            Endpoint::ReplyPermission { session_id, permission_id } => {
                extend_str(&mut url_path, "/session/");
                extend_str(&mut url_path, session_id.as_str());
                extend_str(&mut url_path, "/permissions/");
                extend_str(&mut url_path, permission_id.as_str());
                HttpMethod::Post
            },
            Endpoint::ListMessages { session_id, limit } => {
                extend_str(&mut url_path, "/session/");
                extend_str(&mut url_path, session_id.as_str());
                extend_str(&mut url_path, "/message");
                push_num_param(&mut params, "limit", *limit);
                HttpMethod::Get
            },
            Endpoint::SendMessage { session_id } => {
                extend_str(&mut url_path, "/session/");
                extend_str(&mut url_path, session_id.as_str());
                extend_str(&mut url_path, "/message");
                HttpMethod::Post
            },
            Endpoint::GetMessage { session_id, message_id } => {
                extend_str(&mut url_path, "/session/");
                extend_str(&mut url_path, session_id.as_str());
                extend_str(&mut url_path, "/message/");
                extend_str(&mut url_path, message_id.as_str());
                HttpMethod::Get
            },
            Endpoint::DeleteMessage { session_id, message_id } => {
                extend_str(&mut url_path, "/session/");
                extend_str(&mut url_path, session_id.as_str());
                extend_str(&mut url_path, "/message/");
                extend_str(&mut url_path, message_id.as_str());
                HttpMethod::Delete
            },
            Endpoint::DeleteMessagePart { session_id, message_id, part_id } => {
                extend_str(&mut url_path, "/session/");
                extend_str(&mut url_path, session_id.as_str());
                extend_str(&mut url_path, "/message/");
                extend_str(&mut url_path, message_id.as_str());
                extend_str(&mut url_path, "/part/");
                extend_str(&mut url_path, part_id.as_str());
                HttpMethod::Delete
            },
            Endpoint::UpdateMessagePart { session_id, message_id, part_id } => {
                extend_str(&mut url_path, "/session/");
                extend_str(&mut url_path, session_id.as_str());
                extend_str(&mut url_path, "/message/");
                extend_str(&mut url_path, message_id.as_str());
                extend_str(&mut url_path, "/part/");
                extend_str(&mut url_path, part_id.as_str());
                HttpMethod::Patch
            },
            Endpoint::PromptAsync { session_id } => {
                extend_str(&mut url_path, "/session/");
                extend_str(&mut url_path, session_id.as_str());
                extend_str(&mut url_path, "/prompt_async");
                HttpMethod::Post
            },
            Endpoint::SendCommand { session_id } => {
                extend_str(&mut url_path, "/session/");
                extend_str(&mut url_path, session_id.as_str());
                extend_str(&mut url_path, "/command");
                HttpMethod::Post
            },
            Endpoint::SendShell { session_id } => {
                extend_str(&mut url_path, "/session/");
                extend_str(&mut url_path, session_id.as_str());
                extend_str(&mut url_path, "/shell");
                HttpMethod::Post
            },
            Endpoint::ReplyPermissionRequest { request_id } => {
                extend_str(&mut url_path, "/permission/");
                extend_str(&mut url_path, request_id.as_str());
                extend_str(&mut url_path, "/reply");
                HttpMethod::Post
            },
            Endpoint::ListPermissions => {
                extend_str(&mut url_path, "/permission");
                HttpMethod::Get
            },
            Endpoint::ListQuestions => {
                extend_str(&mut url_path, "/question");
                HttpMethod::Get
            },
            Endpoint::ReplyQuestion { request_id } => {
                extend_str(&mut url_path, "/question/");
                extend_str(&mut url_path, request_id.as_str());
                extend_str(&mut url_path, "/reply");
                HttpMethod::Post
            },
            Endpoint::RejectQuestion { request_id } => {
                extend_str(&mut url_path, "/question/");
                extend_str(&mut url_path, request_id.as_str());
                extend_str(&mut url_path, "/reject");
                HttpMethod::Post
            },
            Endpoint::Find { pattern } => {
                extend_str(&mut url_path, "/find");
                push_param(&mut params, "pattern", pattern.as_str());
                HttpMethod::Get
            },
            Endpoint::FindFile { query, file_type, directory, limit, dirs } => {
                extend_str(&mut url_path, "/find/file");
                push_param(&mut params, "query", query.as_str());
                push_opt_param(&mut params, "type", file_type);
                push_opt_param(&mut params, "directory", directory);
                push_num_param(&mut params, "limit", *limit);
                push_bool_param(&mut params, "dirs", *dirs);
                HttpMethod::Get
            },
            Endpoint::FindSymbol { query } => {
                extend_str(&mut url_path, "/find/symbol");
                push_param(&mut params, "query", query.as_str());
                HttpMethod::Get
            },
            Endpoint::ListFiles { path } => {
                extend_str(&mut url_path, "/file");
                push_param(&mut params, "path", path.as_str());
                HttpMethod::Get
            },
            Endpoint::FileContent { path } => {
                extend_str(&mut url_path, "/file/content");
                push_param(&mut params, "path", path.as_str());
                HttpMethod::Get
            },
            Endpoint::FileStatus => {
                extend_str(&mut url_path, "/file/status");
                HttpMethod::Get
            },
            Endpoint::ListCommands => {
                extend_str(&mut url_path, "/command");
                HttpMethod::Get
            },
            Endpoint::ListAgents => {
                extend_str(&mut url_path, "/agent");
                HttpMethod::Get
            },
            Endpoint::ListSkills => {
                extend_str(&mut url_path, "/skill");
                HttpMethod::Get
            },
            Endpoint::ListMcp => {
                extend_str(&mut url_path, "/mcp");
                HttpMethod::Get
            },
            Endpoint::CreateMcp => {
                extend_str(&mut url_path, "/mcp");
                HttpMethod::Post
            },
            Endpoint::ConnectMcp { name } => {
                extend_str(&mut url_path, "/mcp/");
                extend_str(&mut url_path, name.as_str());
                extend_str(&mut url_path, "/connect");
                HttpMethod::Post
            },
            Endpoint::DisconnectMcp { name } => {
                extend_str(&mut url_path, "/mcp/");
                extend_str(&mut url_path, name.as_str());
                extend_str(&mut url_path, "/disconnect");
                HttpMethod::Post
            },
            Endpoint::McpAuthStart { name } => {
                extend_str(&mut url_path, "/mcp/");
                extend_str(&mut url_path, name.as_str());
                extend_str(&mut url_path, "/auth");
                HttpMethod::Post
            },
            Endpoint::McpAuthRemove { name } => {
                extend_str(&mut url_path, "/mcp/");
                extend_str(&mut url_path, name.as_str());
                extend_str(&mut url_path, "/auth");
                HttpMethod::Delete
            },
            Endpoint::McpAuthAuthenticate { name } => {
                extend_str(&mut url_path, "/mcp/");
                extend_str(&mut url_path, name.as_str());
                extend_str(&mut url_path, "/auth/authenticate");
                HttpMethod::Post
            },
            Endpoint::McpAuthCallback { name } => {
                extend_str(&mut url_path, "/mcp/");
                extend_str(&mut url_path, name.as_str());
                extend_str(&mut url_path, "/auth/callback");
                HttpMethod::Post
            },
            Endpoint::ListPtys => {
                extend_str(&mut url_path, "/pty");
                HttpMethod::Get
            },
            Endpoint::CreatePty => {
                extend_str(&mut url_path, "/pty");
                HttpMethod::Post
            },
            Endpoint::GetPty { id } => {
                extend_str(&mut url_path, "/pty/");
                extend_str(&mut url_path, id.as_str());
                HttpMethod::Get
            },
            Endpoint::UpdatePty { id } => {
                extend_str(&mut url_path, "/pty/");
                extend_str(&mut url_path, id.as_str());
                HttpMethod::Put
            },
            Endpoint::DeletePty { id } => {
                extend_str(&mut url_path, "/pty/");
                extend_str(&mut url_path, id.as_str());
                HttpMethod::Delete
            },
            Endpoint::ListLsp => {
                extend_str(&mut url_path, "/lsp");
                HttpMethod::Get
            },
            Endpoint::ListFormatters => {
                extend_str(&mut url_path, "/formatter");
                HttpMethod::Get
            },
            Endpoint::GetPath => {
                extend_str(&mut url_path, "/path");
                HttpMethod::Get
            },
            Endpoint::GetVcs => {
                extend_str(&mut url_path, "/vcs");
                HttpMethod::Get
            },
            Endpoint::Log => {
                extend_str(&mut url_path, "/log");
                HttpMethod::Post
            },
            Endpoint::DisposeInstance => {
                extend_str(&mut url_path, "/instance/dispose");
                HttpMethod::Post
            },
            Endpoint::TuiAppendPrompt => {
                extend_str(&mut url_path, "/tui/append-prompt");
                HttpMethod::Post
            },
            Endpoint::TuiClearPrompt => {
                extend_str(&mut url_path, "/tui/clear-prompt");
                HttpMethod::Post
            },
            Endpoint::TuiSubmitPrompt => {
                extend_str(&mut url_path, "/tui/submit-prompt");
                HttpMethod::Post
            },
            Endpoint::TuiExecuteCommand => {
                extend_str(&mut url_path, "/tui/execute-command");
                HttpMethod::Post
            },
            Endpoint::TuiShowToast => {
                extend_str(&mut url_path, "/tui/show-toast");
                HttpMethod::Post
            },
            Endpoint::TuiOpenHelp => {
                extend_str(&mut url_path, "/tui/open-help");
                HttpMethod::Post
            },
            Endpoint::TuiOpenSessions => {
                extend_str(&mut url_path, "/tui/open-sessions");
                HttpMethod::Post
            },
            Endpoint::TuiOpenThemes => {
                extend_str(&mut url_path, "/tui/open-themes");
                HttpMethod::Post
            },
            Endpoint::TuiOpenModels => {
                extend_str(&mut url_path, "/tui/open-models");
                HttpMethod::Post
            },
            Endpoint::TuiSelectSession => {
                extend_str(&mut url_path, "/tui/select-session");
                HttpMethod::Post
            },
            Endpoint::TuiPublish => {
                extend_str(&mut url_path, "/tui/publish");
                HttpMethod::Post
            },
            Endpoint::TuiControlNext => {
                extend_str(&mut url_path, "/tui/control/next");
                HttpMethod::Get
            },
            Endpoint::TuiControlResponse => {
                extend_str(&mut url_path, "/tui/control/response");
                HttpMethod::Post
            },
        };
        let url = crate::text::concat(self.base_url.as_str(), string_of(&url_path).as_str());
        ApiRequest { method, url, query: params }
    }
}

} // verus!
