//! Protocol v1 between the desktop client and `kb_core`: content, requests,
//! replies, events, envelopes and the error shapes of the per-domain RPC.
use vstd::prelude::*;
use crate::ids::{LocalId, RequestId, ServiceId, SessionId, TurnId, WorkspaceId};
use crate::llm::{Capabilities, FinishReason, LogicOutput, Role};

verus! {

/// Version exchanged in the application-level handshake.
pub const PROTOCOL_VERSION: u32 = 1;

/// What the client shows instead of a stored API key.
pub const MASKED_API_KEY: &'static str = "••••••••";

// ── Content ───────────────────────────────────────────────────────────────

/// State of one turn.
#[derive(Debug, Clone, Copy, PartialEq, Eq)]
pub enum TurnState {
    /// Still streaming.
    Streaming,
    /// Complete.
    Done,
    /// Ended with an error.
    Failed,
}

/// One tool call made during a turn.
#[derive(Debug, Clone, PartialEq, Eq)]
pub struct ToolCallRecord {
    pub call_id: String,
    pub name: String,
    pub arguments: String,
}

/// Token counters; each may be unknown.
#[derive(Debug, Clone, Copy, Default, PartialEq, Eq)]
pub struct TokenUsage {
    pub input_tokens: Option<u64>,
    pub output_tokens: Option<u64>,
    pub total_tokens: Option<u64>,
}

/// A note attached to a turn.
#[derive(Debug, Clone, PartialEq, Eq)]
pub struct Notice {
    pub message: String,
    pub is_error: bool,
}

/// One message of a session.
#[derive(Debug, Clone, PartialEq)]
pub struct Turn {
    pub turn_id: TurnId,
    pub role: Role,
    pub text: String,
    pub reasoning: String,
    pub state: TurnState,
    pub tool_calls: Vec<ToolCallRecord>,
    pub usage: Option<TokenUsage>,
    pub notice: Option<Notice>,
}

// ── Errors ────────────────────────────────────────────────────────────────

/// Business error codes.
#[derive(Debug, Clone, Copy, PartialEq, Eq)]
pub enum ErrorCode {
    BadRequest,
    NotFound,
    UnknownService,
    MissingApiKey,
    PluginOffline,
    Provider,
    Internal,
}

/// A business error answered to a request.
#[derive(Debug, Clone, PartialEq, Eq)]
pub struct ErrorReply {
    pub code: ErrorCode,
    pub message: String,
}

// ── Handshake ─────────────────────────────────────────────────────────────

/// Who the client is.
#[derive(Debug, Clone, PartialEq, Eq)]
pub struct ClientInfo {
    pub client_name: String,
    pub client_version: String,
    pub protocol_version: u32,
}

/// Who the server is.
#[derive(Debug, Clone, PartialEq, Eq)]
pub struct ServerInfo {
    pub server_version: String,
    pub protocol_version: u32,
}

/// State pushed to clients.
#[derive(Debug, Clone, Default, PartialEq, Eq)]
pub struct ServerState {
    pub plugin_online: bool,
    pub server_version: String,
    pub services: Vec<ServiceSummary>,
    pub active_service: Option<ServiceId>,
}

/// Kind of the system-level start-up notice.
#[derive(Debug, Clone, Copy, PartialEq, Eq)]
pub enum HandshakeNoticeKind {
    /// The IPC endpoint is published.
    IpcReady,
}

/// The line `kb_core` prints on stdout once its endpoint is published.
#[derive(Debug, Clone, PartialEq, Eq)]
pub struct IpcReadyNotice {
    pub event: HandshakeNoticeKind,
    pub ipc_name_file: String,
    pub protocol_version: u32,
    pub pid: u32,
}

// ── Services ──────────────────────────────────────────────────────────────

/// How to change a stored API key.
#[derive(Debug, Clone, PartialEq, Eq)]
pub enum ApiKeyUpdate {
    Keep,
    Replace { value: String },
    Clear,
}

/// One configured LLM service, without its key.
#[derive(Debug, Clone, PartialEq, Eq)]
pub struct ServiceSummary {
    pub service_id: ServiceId,
    pub provider: String,
    pub model: String,
    pub base_url: String,
    pub active: bool,
    pub has_api_key: bool,
    pub api_key_masked: String,
}

/// All configured services.
#[derive(Debug, Clone, Default, PartialEq, Eq)]
pub struct ServiceList {
    pub services: Vec<ServiceSummary>,
    pub active_service: Option<ServiceId>,
}

// ── Workspaces and sessions ───────────────────────────────────────────────

/// A workspace.
#[derive(Debug, Clone, PartialEq, Eq)]
pub struct Workspace {
    pub workspace_id: WorkspaceId,
    pub name: String,
    pub path: String,
}

/// All workspaces.
#[derive(Debug, Clone, Default, PartialEq, Eq)]
pub struct WorkspaceList {
    pub workspaces: Vec<Workspace>,
}

/// A session without its messages.
#[derive(Debug, Clone, PartialEq, Eq)]
pub struct SessionSummary {
    pub session_id: SessionId,
    pub workspace_id: WorkspaceId,
    pub title: String,
    pub updated_at_millis: i64,
    pub turn_count: u32,
}

/// A session with all its messages.
#[derive(Debug, Clone, PartialEq)]
pub struct SessionDetail {
    pub summary: SessionSummary,
    pub turns: Vec<Turn>,
}

/// The sessions of a workspace.
#[derive(Debug, Clone, Default, PartialEq, Eq)]
pub struct SessionList {
    pub sessions: Vec<SessionSummary>,
}

// ── Directory listing ─────────────────────────────────────────────────────

/// Kind of a directory entry.
#[derive(Debug, Clone, Copy, PartialEq, Eq)]
pub enum DirEntryKind {
    File,
    Directory,
    Other,
}

/// One directory entry.
#[derive(Debug, Clone, PartialEq, Eq)]
pub struct DirEntry {
    pub name: String,
    pub kind: DirEntryKind,
    pub size_bytes: Option<u64>,
}

/// The entries of a directory inside a workspace.
#[derive(Debug, Clone, PartialEq, Eq)]
pub struct DirectoryListing {
    pub workspace_id: WorkspaceId,
    pub relative_path: String,
    pub entries: Vec<DirEntry>,
}

// ── Requests ──────────────────────────────────────────────────────────────

/// Ask a question within a session.
#[derive(Debug, Clone, PartialEq)]
pub struct AskRequest {
    pub workspace_id: WorkspaceId,
    pub session_id: SessionId,
    pub turn_id: TurnId,
    pub question: String,
    pub service_id: Option<ServiceId>,
}

/// Create or change one service.
#[derive(Debug, Clone, PartialEq, Eq)]
pub struct UpsertServiceRequest {
    pub service_id: ServiceId,
    pub provider: String,
    pub model: String,
    pub base_url: String,
    pub api_key: ApiKeyUpdate,
}

/// Register a workspace created locally.
#[derive(Debug, Clone, PartialEq, Eq)]
pub struct AddWorkspaceRequest {
    pub local_id: LocalId,
    pub name: String,
    pub path: String,
}

/// Register a session created locally, with the turns recorded offline.
#[derive(Debug, Clone, PartialEq)]
pub struct CreateSessionRequest {
    pub workspace_id: WorkspaceId,
    pub local_id: LocalId,
    pub title: Option<String>,
    pub turns: Vec<Turn>,
}

/// Everything a client may ask.
#[derive(Debug, Clone, PartialEq)]
pub enum Request {
    Hello(ClientInfo),
    Ask(AskRequest),
    Cancel { turn_id: TurnId },
    ListServices,
    UpsertService(UpsertServiceRequest),
    RemoveService { service_id: ServiceId },
    UseService { service_id: ServiceId },
    ListWorkspaces,
    AddWorkspace(AddWorkspaceRequest),
    RemoveWorkspace { workspace_id: WorkspaceId },
    ListSessions { workspace_id: WorkspaceId },
    CreateSession(CreateSessionRequest),
    RemoveSession { workspace_id: WorkspaceId, session_id: SessionId },
    GetSession { workspace_id: WorkspaceId, session_id: SessionId },
    ListDirectory { workspace_id: WorkspaceId, relative_path: String },
}

/// Everything the server may answer.
#[derive(Debug, Clone, PartialEq)]
pub enum Reply {
    Hello(ServerInfo),
    Ack,
    ServiceList(ServiceList),
    ServiceUpdated(ServiceSummary),
    WorkspaceList(WorkspaceList),
    WorkspaceAdded { local_id: LocalId, workspace: Workspace },
    SessionList(SessionList),
    SessionCreated { local_id: LocalId, session: SessionSummary },
    SessionDetail(SessionDetail),
    DirectoryListing(DirectoryListing),
    Error(ErrorReply),
}

// ── Events ────────────────────────────────────────────────────────────────

/// A generation started.
#[derive(Debug, Clone, PartialEq, Eq)]
pub struct TurnStarted {
    pub turn_id: TurnId,
    pub session_id: SessionId,
    pub service_id: ServiceId,
    pub model: String,
    pub capabilities: Capabilities,
}

/// A piece of output text.
#[derive(Debug, Clone, PartialEq, Eq)]
pub struct TextDelta {
    pub turn_id: TurnId,
    pub logic: LogicOutput,
    pub text: String,
}

/// The model called a tool.
#[derive(Debug, Clone, PartialEq, Eq)]
pub struct ToolCallEvent {
    pub turn_id: TurnId,
    pub call: ToolCallRecord,
}

/// Token usage of a generation.
#[derive(Debug, Clone, PartialEq, Eq)]
pub struct UsageEvent {
    pub turn_id: TurnId,
    pub usage: TokenUsage,
}

/// A generation ended.
#[derive(Debug, Clone, PartialEq, Eq)]
pub struct TurnFinished {
    pub turn_id: TurnId,
    pub reason: Option<FinishReason>,
}

/// A failure; without a turn when it concerns the connection.
#[derive(Debug, Clone, PartialEq, Eq)]
pub struct ErrorEvent {
    pub turn_id: Option<TurnId>,
    pub code: ErrorCode,
    pub message: String,
}

/// A session's summary changed.
#[derive(Debug, Clone, PartialEq, Eq)]
pub struct SessionChanged {
    pub summary: SessionSummary,
}

/// Everything pushed to clients outside of request/reply.
#[derive(Debug, Clone, PartialEq)]
pub enum Event {
    Ready(ServerState),
    TurnStarted(TurnStarted),
    Delta(TextDelta),
    ToolCall(ToolCallEvent),
    Usage(UsageEvent),
    TurnFinished(TurnFinished),
    Error(ErrorEvent),
    StateChanged(ServerState),
    SessionChanged(SessionChanged),
}

// ── Envelopes ─────────────────────────────────────────────────────────────

/// A request with the identifier its reply will carry.
#[derive(Debug, Clone, PartialEq)]
pub struct RequestEnvelope {
    pub request_id: RequestId,
    pub request: Request,
}

impl RequestEnvelope {
    /// Wraps `request` under `request_id`.
    pub fn new(request_id: RequestId, request: Request) -> (r: Self)
        ensures
            r.request_id == request_id,
            r.request == request,
    {
        RequestEnvelope { request_id, request }
    }
}

/// A reply with the identifier of the request it answers.
#[derive(Debug, Clone, PartialEq)]
pub struct ReplyEnvelope {
    pub request_id: RequestId,
    pub reply: Reply,
}

impl ReplyEnvelope {
    /// Wraps `reply` under `request_id`.
    pub fn new(request_id: RequestId, reply: Reply) -> (r: Self)
        ensures
            r.request_id == request_id,
            r.reply == reply,
    {
        ReplyEnvelope { request_id, reply }
    }
}

// ── RPC ───────────────────────────────────────────────────────────────────

/// Failure of one RPC call: a business error answered by the server, or a
/// transport failure of the implementation.
#[derive(Debug, Clone, PartialEq, Eq)]
pub enum RpcError<E> {
    Business(ErrorReply),
    Transport(E),
}

impl<E> RpcError<E> {
    /// The business error, if this is one.
    pub fn as_business(&self) -> (r: Option<&ErrorReply>)
        ensures
            match self {
                RpcError::Business(b) => r == Some(b),
                RpcError::Transport(_) => r is None,
            },
    {
        match self {
            RpcError::Business(error) => Some(error),
            RpcError::Transport(_) => None,
        }
    }

    /// Whether this is a transport failure.
    pub fn is_transport(&self) -> (r: bool)
        ensures
            r == (self is Transport),
    {
        match self {
            RpcError::Business(_) => false,
            RpcError::Transport(_) => true,
        }
    }

    /// Maps the transport error; business errors pass unchanged.
    pub fn map_transport<F, M: FnOnce(E) -> F>(self, map: M) -> (r: RpcError<F>)
        requires
            self matches RpcError::Transport(e) ==> map.requires((e,)),
        ensures
            match self {
                RpcError::Business(b) => r == RpcError::<F>::Business(b),
                RpcError::Transport(e) => r matches RpcError::Transport(f) && map.ensures((e,), f),
            },
    {
        match self {
            RpcError::Business(error) => RpcError::Business(error),
            RpcError::Transport(error) => RpcError::Transport(map(error)),
        }
    }
}

/// Common ground of the per-domain service traits: the transport error of
/// an implementation.
pub trait TrKbEndpoint {
    /// Transport error of this implementation.
    type Error;
}

/// An endpoint that offers the whole knowledge-base service.
pub trait TrKbService: TrKbEndpoint {}

} // verus!
