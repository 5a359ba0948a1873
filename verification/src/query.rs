//! Backend-agnostic query model and the shared error taxonomy.

use vstd::prelude::*;

use crate::TimeWindow;

pub mod elastic;
pub mod google;
pub mod graylog;

verus! {

/// A backend-agnostic query: free-text terms, a half-open time window
/// and an optional result cap. Empty terms mean "match all".
#[derive(Debug, Clone)]
pub struct GenericQuery {
    pub terms: Vec<String>,
    pub window: TimeWindow,
    pub limit: Option<u64>,
}

impl GenericQuery {
    /// The window must not end before it starts.
    pub open spec fn wf(self) -> bool {
        self.window.wf()
    }
}

/// How a backend call failed, uniform over all backends.
#[derive(Debug, Clone)]
pub enum ResponseError {
    /// The backend rejected the credential; retrying cannot help.
    AuthenticationFailure,
    /// The transport failed before any response arrived.
    RequestError(String),
    /// The response arrived but its body was not the expected shape.
    Conversion(String),
    /// Any other non-success status, with the best available detail.
    UnexpectedStatus(u16, String),
}

/// The configured URL cannot serve as a base for request paths.
#[derive(Debug, Clone)]
pub struct BaseUrlError;

/// The fallback detail when an error body cannot be read.
pub const NO_DETAILS: &'static str = "No details given";

/// Sorts a search response by status: success hands the body on,
/// an authentication-rejecting status is always an authentication
/// failure whatever the body holds, and anything else carries status
/// and body out for refinement.
pub fn classify_response(status: u16, body: String) -> (r: Result<String, ResponseError>)
    ensures
        status == 200 ==> (r matches Ok(b) && b@ == body@),
        status == 401 ==> (r matches Err(ResponseError::AuthenticationFailure)),
        (status != 200 && status != 401) ==> (r matches Err(
            ResponseError::UnexpectedStatus(sc, d),
        ) && sc == status && d@ == body@),
{
    if status == 200 {
        Ok(body)
    } else if status == 401 {
        Err(ResponseError::AuthenticationFailure)
    } else {
        Err(ResponseError::UnexpectedStatus(status, body))
    }
}

/// The refined form of a non-success status: the message extracted from
/// the error body when there was one, the fixed fallback text when the
/// body could not be read.
pub fn unexpected_status(status: u16, extracted: Option<String>) -> (r: ResponseError)
    ensures
        r matches ResponseError::UnexpectedStatus(sc, d) && sc == status && d@ == (match extracted {
            Some(m) => m@,
            None => NO_DETAILS@,
        }),
{
    match extracted {
        Some(m) => ResponseError::UnexpectedStatus(status, m),
        None => ResponseError::UnexpectedStatus(status, String::from_str(NO_DETAILS)),
    }
}

} // verus!
