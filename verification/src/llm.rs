//! Provider-independent LLM vocabulary: roles, capabilities, output kinds,
//! finish reasons and token usage.
use vstd::prelude::*;

verus! {

/// A media input (an image, a file) that a provider may read: its MIME
/// type and its bytes, each when available.
pub trait TrMediaSource {
    /// The MIME type's text.
    type MimeStr: core::ops::Deref<Target = str>;
    /// A reader of the bytes.
    type Reader<'f> where Self: 'f;

    /// The MIME type, when known.
    fn try_get_mime(&self) -> Option<Self::MimeStr>;

    /// A reader of the bytes, when they can be read.
    fn try_read_bin(&mut self) -> Option<Self::Reader<'_>>;
}

/// Who speaks in a conversation.
#[derive(Clone, Copy, Debug, PartialEq, Eq)]
pub enum Role {
    /// System prompt.
    System,
    /// The user.
    User,
    /// The model.
    Assistant,
    /// A tool result.
    Tool,
}

/// What a provider can do.
#[derive(Debug, Clone, Copy, Default, PartialEq, Eq)]
pub struct Capabilities {
    /// Streams its output.
    pub streaming: bool,
    /// Emits reasoning separately.
    pub reasoning: bool,
    /// Accepts non-text input.
    pub multimodal_input: bool,
    /// Can call tools.
    pub tool_calling: bool,
}

/// The logical kind of a piece of output.
#[derive(Debug, Clone, Copy, PartialEq, Eq)]
pub enum LogicOutput {
    /// The answer proper.
    Answer,
    /// Reasoning shown apart from the answer.
    Reasoning,
    /// A function call.
    FunctionCall,
    /// A search call decided at run time.
    DynamicSearchCall,
    /// A search call fixed in advance.
    StaticSearchCall,
}

/// Why a generation stopped.
#[derive(Debug, Clone, Copy, PartialEq, Eq)]
pub enum FinishReason {
    /// Finished normally.
    Completed,
    /// Hit the output limit.
    MaxTokens,
    /// Cancelled.
    Cancelled,
    /// Stopped to call a tool.
    ToolCall,
    /// Anything else.
    Other,
}

/// Token usage of one generation; every counter may be unknown.
pub trait TrUsage {
    /// Input tokens, when known.
    fn input_tokens(&self) -> (r: Option<usize>)
        default_ensures
            r is None,
    {
        Option::None
    }

    /// Output tokens, when known.
    fn output_tokens(&self) -> (r: Option<usize>)
        default_ensures
            r is None,
    {
        Option::None
    }

    /// Total tokens, when known.
    fn total_tokens(&self) -> (r: Option<usize>)
        default_ensures
            r is None,
    {
        Option::None
    }
}

} // verus!
