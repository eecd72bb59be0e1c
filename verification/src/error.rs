//! Errors of the agent runtime, and the messages they display.
use vstd::prelude::*;
use vstd::string::StringExecFns;

verus! {

/// A failure that may pass if the request is retried.
#[derive(Debug, Clone, PartialEq, Eq)]
pub enum TransientError {
    Network { message: String, retry_after_ms: Option<u64> },
    RateLimit { message: String, retry_after_ms: Option<u64> },
    ServiceUnavailable { message: String, retry_after_ms: Option<u64> },
}

/// A misuse of the runtime.
#[derive(Debug, Clone, PartialEq, Eq)]
pub enum RuntimeError {
    TurnAlreadyExists { turn_id: String },
    TurnNotFound { turn_id: String },
    InvalidEvent { message: String },
    ProtocolViolation { message: String },
    Cancelled { message: String },
}

/// Any error of the agent runtime.
#[derive(Debug)]
pub enum AgentError {
    Transient(TransientError),
    Runtime(RuntimeError),
    Tool { message: String },
    Model { message: String },
    Checkpoint { message: String },
    Internal { message: String },
}

/// The text a transient error displays.
pub open spec fn transient_message(e: TransientError) -> Seq<char> {
    match e {
        TransientError::Network { message, .. } => "network error: "@ + message@,
        TransientError::RateLimit { message, .. } => "rate limit exceeded: "@ + message@,
        TransientError::ServiceUnavailable { message, .. } => "service unavailable: "@ + message@,
    }
}

/// The text a runtime error displays.
pub open spec fn runtime_message(e: RuntimeError) -> Seq<char> {
    match e {
        RuntimeError::TurnAlreadyExists { turn_id } => "turn already exists: "@ + turn_id@,
        RuntimeError::TurnNotFound { turn_id } => "turn not found: "@ + turn_id@,
        RuntimeError::InvalidEvent { message } => "invalid event: "@ + message@,
        RuntimeError::ProtocolViolation { message } => "protocol violation: "@ + message@,
        RuntimeError::Cancelled { message } => "cancelled: "@ + message@,
    }
}

/// The text an agent error displays; transient and runtime errors display their own text.
pub open spec fn agent_message(e: AgentError) -> Seq<char> {
    match e {
        AgentError::Transient(t) => transient_message(t),
        AgentError::Runtime(r) => runtime_message(r),
        AgentError::Tool { message } => "tool error: "@ + message@,
        AgentError::Model { message } => "model error: "@ + message@,
        AgentError::Checkpoint { message } => "checkpoint error: "@ + message@,
        AgentError::Internal { message } => "internal error: "@ + message@,
    }
}

fn prefixed(prefix: &str, rest: &String) -> (r: String)
    ensures
        r@ == prefix@ + rest@,
{
    let mut r = String::from_str(prefix);
    r.append(rest.as_str());
    r
}

impl TransientError {
    /// The delay the service asked to wait before a retry, if any.
    pub fn retry_after_ms(&self) -> (r: Option<u64>)
        ensures
            r == match self {
                TransientError::Network { retry_after_ms, .. } => *retry_after_ms,
                TransientError::RateLimit { retry_after_ms, .. } => *retry_after_ms,
                TransientError::ServiceUnavailable { retry_after_ms, .. } => *retry_after_ms,
            },
    {
        match self {
            TransientError::Network { retry_after_ms, .. } => *retry_after_ms,
            TransientError::RateLimit { retry_after_ms, .. } => *retry_after_ms,
            TransientError::ServiceUnavailable { retry_after_ms, .. } => *retry_after_ms,
        }
    }

    /// The text the error displays.
    pub fn to_message(&self) -> (r: String)
        ensures
            r@ == transient_message(*self),
    {
        match self {
            TransientError::Network { message, .. } => prefixed("network error: ", message),
            TransientError::RateLimit { message, .. } => prefixed("rate limit exceeded: ", message),
            TransientError::ServiceUnavailable { message, .. } => prefixed(
                "service unavailable: ",
                message,
            ),
        }
    }
}

impl RuntimeError {
    /// The text the error displays.
    pub fn to_message(&self) -> (r: String)
        ensures
            r@ == runtime_message(*self),
    {
        match self {
            RuntimeError::TurnAlreadyExists { turn_id } => prefixed("turn already exists: ", turn_id),
            RuntimeError::TurnNotFound { turn_id } => prefixed("turn not found: ", turn_id),
            RuntimeError::InvalidEvent { message } => prefixed("invalid event: ", message),
            RuntimeError::ProtocolViolation { message } => prefixed("protocol violation: ", message),
            RuntimeError::Cancelled { message } => prefixed("cancelled: ", message),
        }
    }
}

impl AgentError {
    /// Whether retrying may help: exactly the transient errors.
    pub fn is_retryable(&self) -> (r: bool)
        ensures
            r == (self is Transient),
    {
        match self {
            AgentError::Transient(_) => true,
            _ => false,
        }
    }

    /// The text the error displays.
    pub fn to_message(&self) -> (r: String)
        ensures
            r@ == agent_message(*self),
    {
        match self {
            AgentError::Transient(t) => t.to_message(),
            AgentError::Runtime(e) => e.to_message(),
            AgentError::Tool { message } => prefixed("tool error: ", message),
            AgentError::Model { message } => prefixed("model error: ", message),
            AgentError::Checkpoint { message } => prefixed("checkpoint error: ", message),
            AgentError::Internal { message } => prefixed("internal error: ", message),
        }
    }
}

impl From<TransientError> for AgentError {
    fn from(e: TransientError) -> (r: AgentError)
        ensures
            r == AgentError::Transient(e),
    {
        AgentError::Transient(e)
    }
}

impl vstd::std_specs::convert::FromSpecImpl<TransientError> for AgentError {
    open spec fn obeys_from_spec() -> bool {
        true
    }

    open spec fn from_spec(e: TransientError) -> AgentError {
        AgentError::Transient(e)
    }
}

impl From<RuntimeError> for AgentError {
    fn from(e: RuntimeError) -> (r: AgentError)
        ensures
            r == AgentError::Runtime(e),
    {
        AgentError::Runtime(e)
    }
}

impl vstd::std_specs::convert::FromSpecImpl<RuntimeError> for AgentError {
    open spec fn obeys_from_spec() -> bool {
        true
    }

    open spec fn from_spec(e: RuntimeError) -> AgentError {
        AgentError::Runtime(e)
    }
}

} // verus!
