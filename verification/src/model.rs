//! The transient request/response records that a single call exchanges
//! with the service and, in the proxy behaviour, with the upstream
//! chat-completion API. No record outlives one request.

use vstd::prelude::*;

verus! {

/// The inbound body of an analysis request: the submitted snippet.
pub struct AnalyzeRequest {
    pub code: String,
}

/// The outbound body of the proxy behaviour's analysis response.
/// Exactly one of the two fields is meaningful per response; the
/// unused one is the empty string, never absent.
pub struct AnalyzeResponse {
    pub refactored_code: String,
    pub error: String,
}

/// One chat message, reused for the outbound prompt and the inbound
/// reply.
pub struct Message {
    pub role: String,
    pub content: String,
}

/// The body sent to the upstream chat-completion endpoint: a fixed
/// model identifier and an ordered sequence of messages.
pub struct OpenAIChatRequest {
    pub model: String,
    pub messages: Vec<Message>,
}

/// One entry of the upstream reply's `choices` array.
pub struct Choice {
    pub message: Message,
}

/// The decoded body of the upstream reply.
pub struct OpenAIChatResponse {
    pub choices: Vec<Choice>,
}

/// A complete answer of the analysis route: the HTTP status code and
/// the body to serialize.
pub struct AnalyzeOutcome {
    pub status: u16,
    pub body: AnalyzeResponse,
}

} // verus!
