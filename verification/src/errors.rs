//! The failure conditions a search can surface. None is recovered from
//! locally: every failure aborts the current search and is handed to the
//! caller as a distinct, named condition.

use vstd::prelude::*;

verus! {

/// One named failure condition of a timetable search.
#[derive(Clone, Copy, Debug, PartialEq, Eq, Structural)]
pub enum AgentError {
    /// The network transport failed while fetching a page.
    FetchFailure,
    /// No well-formed query URL exists for the request, as when the clock
    /// reports a year the query protocol cannot carry.
    MalformedUrl,
    /// The access key file was absent, unreadable, or held no token.
    CredentialMissing,
    /// The response lacked the expected structure or field.
    MalformedResponse,
}

impl AgentError {
    /// A short description of the condition, for callers that render errors.
    pub fn describe(&self) -> (r: &'static str)
        ensures
            self is FetchFailure ==> r@ == "fetch failed"@,
            self is MalformedUrl ==> r@ == "malformed url"@,
            self is CredentialMissing ==> r@ == "credential missing"@,
            self is MalformedResponse ==> r@ == "malformed response"@,
    {
        match self {
            AgentError::FetchFailure => "fetch failed",
            AgentError::MalformedUrl => "malformed url",
            AgentError::CredentialMissing => "credential missing",
            AgentError::MalformedResponse => "malformed response",
        }
    }
}

} // verus!
