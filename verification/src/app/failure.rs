//! What an agent's errors and early ends mean.

use vstd::prelude::*;
use vstd::string::*;

use crate::app::event::{AgentFailure, SoftStopReason};
use crate::text::same;

verus! {

/// The code of the error that asks for a sign-in.
pub const AUTH_REQUIRED: i32 = -32000;

/// The code of the error that something asked for is not there.
pub const RESOURCE_NOT_FOUND: i32 = -32002;

/// The code of the error that a request was cancelled.
pub const REQUEST_CANCELLED: i32 = -32800;

impl AgentFailure {
    /// The agent wants its user to sign in.
    pub fn is_auth(self) -> (r: bool)
        ensures
            r == (self is AuthRequired),
    {
        match self {
            AgentFailure::AuthRequired => true,
            _ => false,
        }
    }

    /// The user cancelled the turn.
    pub fn is_cancelled(self) -> (r: bool)
        ensures
            r == (self is Cancelled),
    {
        match self {
            AgentFailure::Cancelled => true,
            _ => false,
        }
    }

    /// The connection is still good: the agent answered, or may yet answer.
    pub open spec fn keeps_connection(self) -> bool {
        self is Protocol || self is ResourceGone || self is Unresponsive
    }

    /// Whether the connection is still good: the agent answered, or may yet
    /// answer.
    pub fn session_survives(self) -> (r: bool)
        ensures
            r == self.keeps_connection(),
    {
        match self {
            AgentFailure::Protocol => true,
            AgentFailure::ResourceGone => true,
            AgentFailure::Unresponsive => true,
            _ => false,
        }
    }
}

/// What an error of an agent means, by its code alone.
pub open spec fn failure_of(code: i32) -> AgentFailure {
    if code == AUTH_REQUIRED {
        AgentFailure::AuthRequired
    } else if code == RESOURCE_NOT_FOUND {
        AgentFailure::ResourceGone
    } else if code == REQUEST_CANCELLED {
        AgentFailure::Cancelled
    } else {
        AgentFailure::Protocol
    }
}

/// What an error of an agent means, by its code alone.
pub fn classify_acp_error(code: i32) -> (r: AgentFailure)
    ensures
        r == failure_of(code),
{
    if code == AUTH_REQUIRED {
        AgentFailure::AuthRequired
    } else if code == RESOURCE_NOT_FOUND {
        AgentFailure::ResourceGone
    } else if code == REQUEST_CANCELLED {
        AgentFailure::Cancelled
    } else {
        AgentFailure::Protocol
    }
}

/// Why an answer ended early, by the reason that the agent gives: one that ended
/// well, or was cancelled, did not.
pub open spec fn soft_stop_of(reason: Seq<char>) -> Option<SoftStopReason> {
    if reason == "max_tokens"@ {
        Some(SoftStopReason::MaxTokens)
    } else if reason == "max_turn_requests"@ {
        Some(SoftStopReason::MaxTurnRequests)
    } else if reason == "refusal"@ {
        Some(SoftStopReason::Refusal)
    } else {
        None
    }
}

/// Why an answer ended early, by the reason that the agent gives: one that ended
/// well, or was cancelled, did not.
pub fn classify_stop_reason(reason: &str) -> (r: Option<SoftStopReason>)
    ensures
        r == soft_stop_of(reason@),
{
    if same(reason, "max_tokens") {
        Some(SoftStopReason::MaxTokens)
    } else if same(reason, "max_turn_requests") {
        Some(SoftStopReason::MaxTurnRequests)
    } else if same(reason, "refusal") {
        Some(SoftStopReason::Refusal)
    } else {
        None
    }
}

/// An error that an agent answers with never takes the connection down.
pub proof fn law_answered_errors_keep_the_connection(code: i32)
    ensures
        failure_of(code).keeps_connection() || failure_of(code) is AuthRequired || failure_of(
            code,
        ) is Cancelled,
        !(failure_of(code) is HandshakeFailed),
{
}

} // verus!
