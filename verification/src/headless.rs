//! Running one request without the interface: which request is meant, and
//! what is reported.
use crate::models::{first_named, position_of_request, Request, Response};
use crate::text::{decimal, push_decimal, push_text, to_text};
use vstd::prelude::*;

verus! {

/// Why a run without the interface failed.
pub enum RunError {
    /// The collection holds no request of this name.
    RequestNotFound(String),
    /// No answer came; the text tells why.
    TransportFailure(String),
}

/// What is said of a failed run.
pub open spec fn error_message(error: RunError) -> Seq<char> {
    match error {
        RunError::RequestNotFound(name) => "Request '"@ + name@ + "' not found"@,
        RunError::TransportFailure(why) => "Request failed: "@ + why@,
    }
}

impl RunError {
    /// What is said of the failure.
    pub fn message(&self) -> (m: String)
        ensures
            m@ == error_message(*self),
    {
        let mut out: Vec<char> = Vec::new();
        match self {
            RunError::RequestNotFound(name) => {
                push_text(&mut out, "Request '");
                push_text(&mut out, name.as_str());
                push_text(&mut out, "' not found");
            },
            RunError::TransportFailure(why) => {
                push_text(&mut out, "Request failed: ");
                push_text(&mut out, why.as_str());
            },
        }
        to_text(&out)
    }
}

/// The first request of the collection called `name`, or the error that
/// there is none.
pub fn select_request<'a>(collection: &'a Vec<Request>, name: &str) -> (r: Result<
    &'a Request,
    RunError,
>)
    ensures
        match r {
            Ok(request) => {
                &&& first_named(collection@, name@) matches Some(i)
                &&& *request == collection@[i]
            },
            Err(error) => {
                &&& first_named(collection@, name@) is None
                &&& error matches RunError::RequestNotFound(n)
                &&& n@ == name@
            },
        },
{
    match position_of_request(collection, name) {
        Some(i) => Ok(&collection[i]),
        None => Err(RunError::RequestNotFound(String::from_str(name))),
    }
}

/// The line that reports the status of a response.
pub open spec fn status_text(status: u16) -> Seq<char> {
    "Status: "@ + decimal(status as nat)
}

/// The line that reports the time that a response took.
pub open spec fn time_text(total_ms: u64) -> Seq<char> {
    "Time: "@ + decimal(total_ms as nat) + "ms"@
}

/// The line that reports the status of `response`.
pub fn status_line(response: &Response) -> (line: String)
    ensures
        line@ == status_text(response.status),
{
    let mut out: Vec<char> = Vec::new();
    push_text(&mut out, "Status: ");
    push_decimal(&mut out, response.status as u64);
    to_text(&out)
}

/// The line that reports the time that `response` took.
pub fn time_line(response: &Response) -> (line: String)
    ensures
        line@ == time_text(response.timing.total_ms),
{
    let mut out: Vec<char> = Vec::new();
    push_text(&mut out, "Time: ");
    push_decimal(&mut out, response.timing.total_ms);
    push_text(&mut out, "ms");
    to_text(&out)
}

} // verus!
