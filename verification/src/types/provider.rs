//! What a model provider answers, and how its errors are told apart.
use crate::text::{concat, concat3, copy, decimal, number};
use crate::types::budget::{exhausted_message, BudgetExhausted, ExhaustedView};
use crate::types::message::{Message, TokenUsage};
use vstd::prelude::*;
use vstd::string::*;

verus! {

/// Response from an LLM provider.
#[derive(Debug, Clone)]
pub struct ProviderResponse {
    pub message: Message,
    pub token_usage: TokenUsage,
    pub finish_reason: FinishReason,
    pub provider_response_id: Option<String>,
    pub model: String,
}

/// Why the provider stopped generating.
#[derive(Debug, Clone, Copy, PartialEq, Eq)]
pub enum FinishReason {
    EndTurn,
    ToolUse,
    MaxTokens,
    StopSequence,
}

/// Incremental provider events emitted while a streaming response is assembled.
#[derive(Debug, Clone, PartialEq, Eq)]
pub enum ProviderStreamEvent {
    /// Assistant-visible text delta.
    TextDelta { text: String },
    /// Provider started an extended thinking block.
    ThinkingStart,
    /// Provider emitted an extended thinking delta.
    ThinkingDelta { text: String },
    /// Provider ended the current extended thinking block.
    ThinkingEnd,
}

/// Non-blocking sink for provider streaming events.
pub trait ProviderStreamSink {
    /// Takes an event.
    fn emit(&self, event: ProviderStreamEvent);
}

/// Errors from provider operations.
#[derive(Debug)]
pub enum ProviderError {
    RateLimit { retry_after_ms: Option<u64> },
    AuthError(String),
    BadRequest(String),
    ServerError(String),
    Overloaded(String),
    BudgetExhausted(BudgetExhausted),
    Other(String),
}

/// What a [`ProviderError`] says.
#[verifier::ext_equal]
pub enum ProviderErrorView {
    RateLimit { retry_after_ms: Option<u64> },
    AuthError(Seq<char>),
    BadRequest(Seq<char>),
    ServerError(Seq<char>),
    Overloaded(Seq<char>),
    BudgetExhausted(ExhaustedView),
    Other(Seq<char>),
}

impl View for ProviderError {
    type V = ProviderErrorView;

    open spec fn view(&self) -> ProviderErrorView {
        match self {
            ProviderError::RateLimit { retry_after_ms } => ProviderErrorView::RateLimit {
                retry_after_ms: *retry_after_ms,
            },
            ProviderError::AuthError(text) => ProviderErrorView::AuthError(text@),
            ProviderError::BadRequest(text) => ProviderErrorView::BadRequest(text@),
            ProviderError::ServerError(text) => ProviderErrorView::ServerError(text@),
            ProviderError::Overloaded(text) => ProviderErrorView::Overloaded(text@),
            ProviderError::BudgetExhausted(e) => ProviderErrorView::BudgetExhausted(e@),
            ProviderError::Other(text) => ProviderErrorView::Other(text@),
        }
    }
}

/// The error that an HTTP status stands for.
pub open spec fn classified(status: u16, message: Seq<char>) -> ProviderErrorView {
    if status == 401 || status == 403 {
        ProviderErrorView::AuthError(message)
    } else if status == 400 {
        ProviderErrorView::BadRequest(message)
    } else if status == 429 {
        ProviderErrorView::RateLimit { retry_after_ms: None }
    } else if status == 529 {
        ProviderErrorView::Overloaded(message)
    } else if 500 <= status <= 599 {
        ProviderErrorView::ServerError(message)
    } else {
        ProviderErrorView::Other("HTTP "@ + decimal(status as nat) + ": "@ + message)
    }
}

/// The error is transient.
pub open spec fn retryable(e: ProviderErrorView) -> bool {
    e is RateLimit || e is ServerError || e is Overloaded
}

/// An optional number as it is shown.
pub open spec fn shown(n: Option<u64>) -> Seq<char> {
    match n {
        Some(n) => "Some("@ + decimal(n as nat) + ")"@,
        None => "None"@,
    }
}

/// The text of a [`ProviderError`].
pub open spec fn provider_message(e: ProviderErrorView) -> Seq<char> {
    match e {
        ProviderErrorView::RateLimit { retry_after_ms } => "rate limited: retry after "@ + shown(retry_after_ms)
            + "ms"@,
        ProviderErrorView::AuthError(text) => "authentication error: "@ + text,
        ProviderErrorView::BadRequest(text) => "bad request: "@ + text,
        ProviderErrorView::ServerError(text) => "server error: "@ + text,
        ProviderErrorView::Overloaded(text) => "overloaded: "@ + text,
        ProviderErrorView::BudgetExhausted(e) => "budget exhausted: "@ + exhausted_message(e),
        ProviderErrorView::Other(text) => "other: "@ + text,
    }
}

impl ProviderError {
    /// Classify an HTTP status code and message into a typed error.
    pub fn classify(status: u16, message: &str) -> (r: Self)
        ensures
            r@ == classified(status, message@),
    {
        if status == 401 || status == 403 {
            ProviderError::AuthError(copy(message))
        } else if status == 400 {
            ProviderError::BadRequest(copy(message))
        } else if status == 429 {
            ProviderError::RateLimit { retry_after_ms: None }
        } else if status == 529 {
            ProviderError::Overloaded(copy(message))
        } else if 500 <= status && status <= 599 {
            ProviderError::ServerError(copy(message))
        } else {
            let mut text = concat3("HTTP ", number(status as u64).as_str(), ": ");
            text.append(message);
            ProviderError::Other(text)
        }
    }

    /// Whether this error is transient and the request should be retried.
    pub fn is_retryable(&self) -> (r: bool)
        ensures
            r == retryable(self@),
    {
        match self {
            ProviderError::RateLimit { retry_after_ms: _ } => true,
            ProviderError::ServerError(_) => true,
            ProviderError::Overloaded(_) => true,
            _ => false,
        }
    }

    /// What the error says.
    pub fn to_string(&self) -> (r: String)
        ensures
            r@ == provider_message(self@),
    {
        match self {
            ProviderError::RateLimit { retry_after_ms } => {
                let shown = match retry_after_ms {
                    Some(n) => concat3("Some(", number(*n).as_str(), ")"),
                    None => copy("None"),
                };
                concat3("rate limited: retry after ", shown.as_str(), "ms")
            },
            ProviderError::AuthError(text) => concat("authentication error: ", text.as_str()),
            ProviderError::BadRequest(text) => concat("bad request: ", text.as_str()),
            ProviderError::ServerError(text) => concat("server error: ", text.as_str()),
            ProviderError::Overloaded(text) => concat("overloaded: ", text.as_str()),
            ProviderError::BudgetExhausted(e) => concat("budget exhausted: ", e.to_string().as_str()),
            ProviderError::Other(text) => concat("other: ", text.as_str()),
        }
    }
}

/// Why the agent loop terminated.
#[derive(Debug, Clone, PartialEq, Eq)]
pub enum ExitReason {
    /// Model produced final text (no tool calls).
    Complete,
    /// Turn limit reached.
    MaxTurns,
    /// Budget exhausted (tokens, cost, or sub-agents).
    BudgetExhausted,
    /// Guardrail halted execution.
    GuardrailTripped(String),
    /// Awaiting human approval for a tool call.
    AwaitingApproval,
    /// Cancelled by supervisor or user.
    Cancelled,
    /// Governance hook killed execution.
    PolicyKill { hook: String, reason: String },
    /// Unrecoverable error.
    Error(String),
}

/// A request is retried for too many requests and for the errors of the server, and for no
/// other status.
pub proof fn only_transient_statuses_are_retried(status: u16, message: Seq<char>)
    ensures
        retryable(classified(status, message)) <==> status == 429 || 500 <= status <= 599,
{
}

} // verus!
