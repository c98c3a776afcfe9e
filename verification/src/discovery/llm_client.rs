//! LLM client for factor generation
//!
//! The decisions of the client that talks to OpenAI-compatible and Anthropic
//! endpoints: which URL a request goes to, how a reply's status is judged,
//! and how the parts of a decoded reply make a response. Sending requests
//! and decoding replies happen around these functions.

use vstd::prelude::*;
use crate::text::{decimal, joined, push_decimal, push_joined, strings_of};

verus! {

#[verifier::external_type_specification]
#[verifier::external_body]
pub struct ExReqwestError(reqwest::Error);

/// LLM-related errors
#[derive(Debug)]
pub enum LlmError {
    ApiError(String),
    NetworkError(reqwest::Error),
    InvalidResponse(String),
    RateLimitExceeded,
    InvalidApiKey,
    ContextLengthExceeded,
    ModelNotAvailable(String),
}

/// The mathematical content of an LLM error (a network error is opaque).
pub enum SpecLlmError {
    ApiError(Seq<char>),
    NetworkError,
    InvalidResponse(Seq<char>),
    RateLimitExceeded,
    InvalidApiKey,
    ContextLengthExceeded,
    ModelNotAvailable(Seq<char>),
}

impl View for LlmError {
    type V = SpecLlmError;

    open spec fn view(&self) -> SpecLlmError {
        match self {
            LlmError::ApiError(s) => SpecLlmError::ApiError(s@),
            LlmError::NetworkError(_) => SpecLlmError::NetworkError,
            LlmError::InvalidResponse(s) => SpecLlmError::InvalidResponse(s@),
            LlmError::RateLimitExceeded => SpecLlmError::RateLimitExceeded,
            LlmError::InvalidApiKey => SpecLlmError::InvalidApiKey,
            LlmError::ContextLengthExceeded => SpecLlmError::ContextLengthExceeded,
            LlmError::ModelNotAvailable(s) => SpecLlmError::ModelNotAvailable(s@),
        }
    }
}

/// The model used when none is configured.
pub fn default_model() -> (r: String)
    ensures
        r@ == "gpt-4"@,
{
    "gpt-4".to_string()
}

/// The response length used when none is configured.
pub fn default_max_tokens() -> (r: u32)
    ensures
        r == 2000,
{
    2000
}

/// The request timeout in seconds used when none is configured.
pub fn default_timeout() -> (r: u64)
    ensures
        r == 60,
{
    60
}

/// Response from LLM
#[derive(Debug, Clone)]
pub struct LlmResponse {
    pub content: String,
    pub model: String,
    pub usage: Option<TokenUsage>,
    pub finish_reason: Option<String>,
}

/// Token usage information
#[derive(Debug, Clone, Copy, PartialEq, Eq, Structural)]
pub struct TokenUsage {
    pub prompt_tokens: u32,
    pub completion_tokens: u32,
    pub total_tokens: u32,
}

/// The API a client speaks.
#[derive(Debug, Clone, Copy, PartialEq, Eq, Structural)]
pub enum LlmProvider {
    OpenAI,
    Anthropic,
    Custom,
}

/// Chat message
#[derive(Debug, Clone)]
pub struct ChatMessage {
    pub role: String,
    pub content: String,
}

impl ChatMessage {
    pub fn system(content: &str) -> (r: Self)
        ensures
            r.role@ == "system"@,
            r.content@ == content@,
    {
        ChatMessage { role: "system".to_string(), content: content.to_string() }
    }

    pub fn user(content: &str) -> (r: Self)
        ensures
            r.role@ == "user"@,
            r.content@ == content@,
    {
        ChatMessage { role: "user".to_string(), content: content.to_string() }
    }

    pub fn assistant(content: &str) -> (r: Self)
        ensures
            r.role@ == "assistant"@,
            r.content@ == content@,
    {
        ChatMessage { role: "assistant".to_string(), content: content.to_string() }
    }
}


// ---------------------------------------------------------------------------
// Requests

pub open spec fn default_base_url(p: LlmProvider) -> Seq<char> {
    match p {
        LlmProvider::Anthropic => "https://api.anthropic.com/v1"@,
        _ => "https://api.openai.com/v1"@,
    }
}

pub open spec fn endpoint_path(p: LlmProvider) -> Seq<char> {
    match p {
        LlmProvider::Anthropic => "/messages"@,
        _ => "/chat/completions"@,
    }
}

pub open spec fn opt_view(o: Option<String>) -> Option<Seq<char>> {
    match o {
        Some(s) => Some(s@),
        None => None,
    }
}

/// The URL a chat request goes to: the configured base URL (or the
/// provider's) followed by the provider's endpoint. Custom providers speak
/// the OpenAI protocol.
pub open spec fn chat_url_text(p: LlmProvider, base_url: Option<Seq<char>>) -> Seq<char> {
    let base = match base_url {
        Some(b) => b,
        None => default_base_url(p),
    };
    base + endpoint_path(p)
}

pub fn chat_url(provider: LlmProvider, base_url: &Option<String>) -> (r: String)
    ensures
        r@ == chat_url_text(provider, opt_view(*base_url)),
{
    let mut out = String::new();
    match base_url {
        Some(b) => out.push_str(b.as_str()),
        None => match provider {
            LlmProvider::Anthropic => out.push_str("https://api.anthropic.com/v1"),
            _ => out.push_str("https://api.openai.com/v1"),
        },
    }
    match provider {
        LlmProvider::Anthropic => out.push_str("/messages"),
        _ => out.push_str("/chat/completions"),
    }
    out
}

/// The value of the `Authorization` header of an OpenAI request.
pub fn bearer_token(api_key: &str) -> (r: String)
    ensures
        r@ == "Bearer "@ + api_key@,
{
    let mut out = "Bearer ".to_string();
    out.push_str(api_key);
    out
}

// ---------------------------------------------------------------------------
// Replies

/// The canonical reason phrase of an HTTP status code, if it has one
/// (`StatusCode::canonical_reason`).
pub uninterp spec fn canonical_reason(code: u16) -> Option<Seq<char>>;

/// Calls `StatusCode::canonical_reason` (the `http` status type that
/// reqwest re-exports) on a valid status code; the result is named
/// `canonical_reason`.
#[verifier::external_body]
fn status_reason(code: u16) -> (r: Option<String>)
    requires
        100 <= code <= 999,
    ensures
        opt_view(r) == canonical_reason(code),
{
    match reqwest::StatusCode::from_u16(code) {
        Ok(status) => match status.canonical_reason() {
            Some(reason) => Some(reason.to_string()),
            None => None,
        },
        Err(_) => None,
    }
}

/// How a status displays: its number and its reason phrase.
pub open spec fn status_text(code: u16, reason: Option<Seq<char>>) -> Seq<char> {
    let phrase = match reason {
        Some(r) => r,
        None => "<unknown status code>"@,
    };
    decimal(code as nat) + " "@ + phrase
}

pub open spec fn result_view(r: Result<(), LlmError>) -> Result<(), SpecLlmError> {
    match r {
        Ok(()) => Ok(()),
        Err(e) => Err(e@),
    }
}

/// What a reply's status means, given the reason phrase of the status and
/// the body of the reply.
pub open spec fn status_outcome(code: u16, reason: Option<Seq<char>>, body: Seq<char>) -> Result<
    (),
    SpecLlmError,
> {
    if 200 <= code < 300 {
        Ok(())
    } else if code == 429 {
        Err(SpecLlmError::RateLimitExceeded)
    } else if code == 401 {
        Err(SpecLlmError::InvalidApiKey)
    } else {
        Err(SpecLlmError::ApiError("Status "@ + status_text(code, reason) + ": "@ + body))
    }
}

/// Judges a reply from its status code, the reason phrase of that status and
/// its body (read only when the status is no success).
pub fn judge_status(code: u16, reason: Option<String>, body: &str) -> (r: Result<(), LlmError>)
    ensures
        result_view(r) == status_outcome(code, opt_view(reason), body@),
{
    if 200 <= code && code < 300 {
        return Ok(());
    }
    if code == 429 {
        return Err(LlmError::RateLimitExceeded);
    }
    if code == 401 {
        return Err(LlmError::InvalidApiKey);
    }
    let mut message = "Status ".to_string();
    push_decimal(&mut message, code as u64);
    message.push(' ');
    match reason {
        Some(text) => message.push_str(text.as_str()),
        None => message.push_str("<unknown status code>"),
    }
    message.push_str(": ");
    message.push_str(body);
    proof {
        assert(message@ =~= "Status "@ + status_text(code, opt_view(reason)) + ": "@ + body@) by {
            reveal_strlit(" ");
        }
    }
    Err(LlmError::ApiError(message))
}

/// Judges a reply from its status code and body.
pub fn check_status(code: u16, body: &str) -> (r: Result<(), LlmError>)
    requires
        100 <= code <= 999,
    ensures
        result_view(r) == status_outcome(code, canonical_reason(code), body@),
{
    let reason = status_reason(code);
    judge_status(code, reason, body)
}

/// A response of the OpenAI protocol: the content and finish reason of the
/// first choice, the model and the token usage.
pub fn openai_response(
    choices: Vec<(String, Option<String>)>,
    model: String,
    usage: Option<TokenUsage>,
) -> (r: Result<LlmResponse, LlmError>)
    ensures
        choices@.len() == 0 <==> r is Err,
        r matches Err(e) ==> e@ == SpecLlmError::InvalidResponse("No choices in response"@),
        r matches Ok(resp) ==> {
            &&& resp.content@ == choices@[0].0@
            &&& opt_view(resp.finish_reason) == opt_view(choices@[0].1)
            &&& resp.model@ == model@
            &&& resp.usage == usage
        },
{
    if choices.len() == 0 {
        return Err(LlmError::InvalidResponse("No choices in response".to_string()));
    }
    let mut choices = choices;
    let (content, finish_reason) = choices.swap_remove(0);
    Ok(LlmResponse { content, model, usage, finish_reason })
}

pub open spec fn anthropic_usage(usage: Option<(u32, u32)>) -> Option<TokenUsage> {
    match usage {
        Some((i, o)) => Some(
            TokenUsage { prompt_tokens: i, completion_tokens: o, total_tokens: (i + o) as u32 },
        ),
        None => None,
    }
}

/// A response of the Anthropic protocol: the texts of the content blocks
/// joined by newlines, the model, the stop reason, and the usage with its
/// total (input plus output tokens).
pub fn anthropic_response(
    texts: Vec<String>,
    model: String,
    stop_reason: Option<String>,
    usage: Option<(u32, u32)>,
) -> (r: LlmResponse)
    requires
        usage matches Some((i, o)) ==> i + o <= u32::MAX,
    ensures
        r.content@ == joined(strings_of(texts@), "\n"@),
        r.model@ == model@,
        opt_view(r.finish_reason) == opt_view(stop_reason),
        r.usage == anthropic_usage(usage),
{
    let mut content = String::new();
    push_joined(&mut content, &texts, "\n");
    let usage = match usage {
        Some((i, o)) => Some(
            TokenUsage { prompt_tokens: i, completion_tokens: o, total_tokens: i + o },
        ),
        None => None,
    };
    LlmResponse { content, model, usage, finish_reason: stop_reason }
}

} // verus!
