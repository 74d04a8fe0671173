//! Messages of the browser chat channel and of the plugin channel.
use vstd::prelude::*;
use crate::settings::LlmServiceConfig;

verus! {

/// The logical kind of a piece of output, as the browser sees it.
#[derive(Debug, Clone, Copy, PartialEq, Eq, Hash)]
pub enum LogicOutput {
    Answer,
    Reasoning,
    FunctionCall,
    DynamicSearchCall,
    StaticSearchCall,
}

/// Why a generation stopped, as the browser sees it.
#[derive(Debug, Clone, Copy, PartialEq, Eq)]
pub enum FinishReason {
    Completed,
    MaxTokens,
    Cancelled,
    ToolCall,
    Other,
}

/// Token counters; unknown ones are left out.
#[derive(Debug, Clone, Copy, Default, PartialEq, Eq)]
pub struct Usage {
    pub input_tokens: Option<u64>,
    pub output_tokens: Option<u64>,
    pub total_tokens: Option<u64>,
}

/// What a provider can do.
#[derive(Debug, Clone, Copy, Default, PartialEq, Eq)]
pub struct Capabilities {
    pub streaming: bool,
    pub reasoning: bool,
    pub multimodal_input: bool,
    pub tool_calling: bool,
}

/// Error codes of the chat channel.
#[derive(Debug, Clone, Copy, PartialEq, Eq)]
pub enum ErrorCode {
    BadRequest,
    UnknownService,
    MissingApiKey,
    PluginOffline,
    Provider,
    Internal,
}

/// Server → browser.
#[derive(Debug, Clone, PartialEq)]
pub enum ServerMessage {
    Ready { plugin_online: bool, services: Vec<String>, active_service: Option<String>, server_version: String },
    Started { turn_id: String, service_id: String, model: String, capabilities: Capabilities },
    Delta { turn_id: String, logic: LogicOutput, text: String },
    ToolCall { turn_id: String, id: String, name: String, arguments: String },
    Usage { turn_id: String, usage: Usage },
    Finished { turn_id: String, reason: Option<FinishReason> },
    Error { turn_id: Option<String>, code: ErrorCode, message: String },
}

/// Browser → server.
#[derive(Debug, Clone, PartialEq)]
pub enum ClientMessage {
    Ask { turn_id: Option<String>, question: String, service_id: Option<String> },
    Cancel { turn_id: String },
    UseService { service_id: String },
}

/// Server → plugin.
#[derive(Debug, Clone, PartialEq)]
pub enum PluginRequest {
    Hello,
    Ask { turn_id: String, service_id: String, service: LlmServiceConfig, question: String },
    Cancel { turn_id: String },
    Ping,
}

/// Token counters as the plugin's adapter reports them.
#[derive(Debug, Clone, Copy, Default, PartialEq, Eq)]
pub struct TokenCounts {
    pub input: Option<usize>,
    pub output: Option<usize>,
    pub total: Option<usize>,
}

/// One streamed piece of content, as the plugin's adapter reads it.
#[derive(Debug, Clone, PartialEq)]
pub enum RawContent {
    TextDelta { logic: crate::llm::LogicOutput, text: String },
    ToolCall { id: String, name: String, arguments: String },
    Usage(TokenCounts),
    Finished { reason: Option<crate::llm::FinishReason> },
}

/// What the plugin's adapter finds in a raw provider payload: the usage of
/// a final response, a `finish_reason` field, and the streamed content.
#[derive(Debug, Clone, PartialEq)]
pub struct RawPayload {
    pub usage: Option<TokenCounts>,
    pub finish_reason: Option<crate::llm::FinishReason>,
    pub content: Option<RawContent>,
}

/// Plugin → server.
#[derive(Debug, Clone, PartialEq)]
pub enum PluginEvent {
    Hello { plugin_version: String, providers: Vec<String> },
    Started { turn_id: String, model: String, capabilities: Capabilities },
    Raw { turn_id: String, payload: RawPayload },
    Finished { turn_id: String, reason: Option<FinishReason> },
    Error { turn_id: Option<String>, message: String },
    Pong,
}

/// The browser's kind for a provider-independent output kind.
pub open spec fn wire_logic(v: crate::llm::LogicOutput) -> LogicOutput {
    match v {
        crate::llm::LogicOutput::Answer => LogicOutput::Answer,
        crate::llm::LogicOutput::Reasoning => LogicOutput::Reasoning,
        crate::llm::LogicOutput::FunctionCall => LogicOutput::FunctionCall,
        crate::llm::LogicOutput::DynamicSearchCall => LogicOutput::DynamicSearchCall,
        crate::llm::LogicOutput::StaticSearchCall => LogicOutput::StaticSearchCall,
    }
}

/// The browser's reason for a provider-independent finish reason.
pub open spec fn wire_finish_reason(v: crate::llm::FinishReason) -> FinishReason {
    match v {
        crate::llm::FinishReason::Completed => FinishReason::Completed,
        crate::llm::FinishReason::MaxTokens => FinishReason::MaxTokens,
        crate::llm::FinishReason::Cancelled => FinishReason::Cancelled,
        crate::llm::FinishReason::ToolCall => FinishReason::ToolCall,
        crate::llm::FinishReason::Other => FinishReason::Other,
    }
}

/// Maps an output kind onto the browser's vocabulary.
pub fn to_wire_logic(value: crate::llm::LogicOutput) -> (r: LogicOutput)
    ensures
        r == wire_logic(value),
{
    match value {
        crate::llm::LogicOutput::Answer => LogicOutput::Answer,
        crate::llm::LogicOutput::Reasoning => LogicOutput::Reasoning,
        crate::llm::LogicOutput::FunctionCall => LogicOutput::FunctionCall,
        crate::llm::LogicOutput::DynamicSearchCall => LogicOutput::DynamicSearchCall,
        crate::llm::LogicOutput::StaticSearchCall => LogicOutput::StaticSearchCall,
    }
}

/// Maps a finish reason onto the browser's vocabulary.
pub fn to_wire_finish_reason(value: crate::llm::FinishReason) -> (r: FinishReason)
    ensures
        r == wire_finish_reason(value),
{
    match value {
        crate::llm::FinishReason::Completed => FinishReason::Completed,
        crate::llm::FinishReason::MaxTokens => FinishReason::MaxTokens,
        crate::llm::FinishReason::Cancelled => FinishReason::Cancelled,
        crate::llm::FinishReason::ToolCall => FinishReason::ToolCall,
        crate::llm::FinishReason::Other => FinishReason::Other,
    }
}

/// The browser's usage for the adapter's counters.
pub open spec fn wire_usage(c: TokenCounts) -> Usage {
    Usage {
        input_tokens: match c.input { Some(v) => Some(v as u64), None => None },
        output_tokens: match c.output { Some(v) => Some(v as u64), None => None },
        total_tokens: match c.total { Some(v) => Some(v as u64), None => None },
    }
}

/// Converts the adapter's counters.
pub fn to_wire_usage(c: TokenCounts) -> (r: Usage)
    ensures
        r == wire_usage(c),
{
    Usage {
        input_tokens: match c.input { Some(v) => Some(v as u64), None => None },
        output_tokens: match c.output { Some(v) => Some(v as u64), None => None },
        total_tokens: match c.total { Some(v) => Some(v as u64), None => None },
    }
}

} // verus!
