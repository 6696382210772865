//! The one request of a run, and what to make of the server's reply.
//!
//! The caller owns the connection. It sends what [`get_request`] describes,
//! reports what came back to [`on_reply`], reads the body only where that
//! says so, and reports the outcome of the read to [`on_body`].

use vstd::prelude::*;
use vstd::string::*;

use crate::error::{text_outcome, ProgramError};
use crate::text::joined;

verus! {

/// A GET request: the address and the headers to send with it.
#[derive(Debug, PartialEq, Eq)]
pub struct GetRequest {
    pub url: String,
    pub headers: Vec<(String, String)>,
}

/// What sending the request led to.
#[derive(Debug, PartialEq, Eq)]
pub enum Reply {
    /// No response arrived: the name did not resolve, the connection or the
    /// handshake failed, or the wait ran out.
    Unreachable,
    /// A response arrived, with this status code.
    Status(u16),
}

/// What the caller does once the reply is known.
#[derive(Debug, PartialEq, Eq)]
pub enum AfterReply {
    /// The server answered 200: read the body and hand it to [`on_body`].
    ReadBody,
    /// The run ends here with this error.
    Fail(ProgramError),
}

impl View for AfterReply {
    /// `None` to read on, or the message to fail with.
    type V = Option<Seq<char>>;

    open spec fn view(&self) -> Option<Seq<char>> {
        match self {
            AfterReply::ReadBody => None,
            AfterReply::Fail(error) => Some(error@),
        }
    }
}

/// The reason phrase that the HTTP library holds for a status code, if it
/// holds one. Which codes have a phrase, and which, is the library's table.
pub uninterp spec fn reason_phrase(status: u16) -> Option<Seq<char>>;

/// The message for a response with a status other than 200, given the
/// status's reason phrase.
pub open spec fn refusal_message(phrase: Seq<char>) -> Seq<char> {
    "HTTP request failed, server returned "@ + phrase
}

/// Whether [`on_reply`] can put the reply into words: every reply but a
/// status other than 200 for which there is no reason phrase.
pub open spec fn explicable(reply: Reply) -> bool {
    match reply {
        Reply::Status(status) => status == 200 || reason_phrase(status) is Some,
        Reply::Unreachable => true,
    }
}

/// What follows a reply: `None` to read the body, or the message of the
/// error that ends the run.
pub open spec fn reply_failure(reply: Reply) -> Option<Seq<char>> {
    match reply {
        Reply::Unreachable => Some("HTTP request failed, could not reach server"@),
        Reply::Status(status) => if status == 200 {
            None
        } else {
            Some(refusal_message(reason_phrase(status).unwrap()))
        },
    }
}

/// What the read of the body leads to: the body, or the message of the error.
pub open spec fn body_outcome(body: Option<Seq<char>>) -> Result<Seq<char>, Seq<char>> {
    match body {
        Some(text) => Ok(text),
        None => Err("HTTP request failed"@),
    }
}

/// `hyper::StatusCode::canonical_reason` on the status that
/// `hyper::StatusCode::from_u16` makes of `status`; `None` where the number
/// is no status code or the code has no phrase. The phrase depends on the
/// number alone, so it is [`reason_phrase`] of it.
#[verifier::external_body]
fn canonical_reason(status: u16) -> (phrase: Option<&'static str>)
    ensures
        phrase matches Some(p) ==> reason_phrase(status) == Some(p@),
        phrase is None ==> reason_phrase(status) is None,
{
    match hyper::StatusCode::from_u16(status) {
        Ok(code) => code.canonical_reason(),
        Err(_) => None,
    }
}

/// The request for `url`: a GET that asks the server to close the connection
/// once it has answered.
pub fn get_request(url: &str) -> (request: GetRequest)
    ensures
        request.url@ == url@,
        request.headers.deep_view() == seq![("Connection"@, "close"@)],
{
    let mut headers: Vec<(String, String)> = Vec::new();
    headers.push((String::from_str("Connection"), String::from_str("close")));
    let request = GetRequest { url: String::from_str(url), headers };
    assert(request.headers.deep_view() =~= seq![("Connection"@, "close"@)]);
    request
}

/// The error for a response whose status is not 200 and has the reason
/// phrase `phrase`.
pub fn refusal(phrase: &str) -> (error: ProgramError)
    ensures
        error@ == refusal_message(phrase@),
{
    ProgramError::new(joined("HTTP request failed, server returned ", phrase))
}

/// What to do after `reply`: read the body of a 200 response, and fail on
/// anything else, naming the status by its reason phrase.
///
/// A status without a reason phrase cannot be named: `requires` leaves it
/// out, and [`try_on_reply`] tells it apart.
pub fn on_reply(reply: &Reply) -> (next: AfterReply)
    requires
        explicable(*reply),
    ensures
        next@ == reply_failure(*reply),
{
    match reply {
        Reply::Unreachable => AfterReply::Fail(
            ProgramError::new(String::from_str("HTTP request failed, could not reach server")),
        ),
        Reply::Status(status) => {
            if *status == 200 {
                AfterReply::ReadBody
            } else {
                let phrase = canonical_reason(*status);
                AfterReply::Fail(refusal(phrase.unwrap()))
            }
        },
    }
}

/// [`on_reply`] where the reply can be put into words, `None` where the
/// status is not 200 and has no reason phrase.
pub fn try_on_reply(reply: &Reply) -> (next: Option<AfterReply>)
    ensures
        next is Some <==> explicable(*reply),
        next matches Some(step) ==> step@ == reply_failure(*reply),
{
    let named = match reply {
        Reply::Status(status) => *status == 200 || canonical_reason(*status).is_some(),
        Reply::Unreachable => true,
    };
    if named {
        Some(on_reply(reply))
    } else {
        None
    }
}

/// The result of the run's request once the body of a 200 response was read,
/// or could not be read to its end.
pub fn on_body(body: Option<String>) -> (result: Result<String, ProgramError>)
    ensures
        text_outcome(result) == body_outcome(body.deep_view()),
{
    match body {
        Some(text) => Ok(text),
        None => Err(ProgramError::new(String::from_str("HTTP request failed"))),
    }
}

} // verus!
