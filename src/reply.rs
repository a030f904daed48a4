//! What the server answers: a status, whether the body is HTML, and the body.
use vstd::prelude::*;
use vstd::string::*;
use crate::dispatch::DispatchError;
use crate::submission::SubmissionError;

verus! {

/// The page served at the root path.
pub const GREETING_HTML: &'static str = "<h1>Hello, World!</h1>";

/// The status for a request that was served.
pub const STATUS_OK: u16 = 200;

/// The status for a form that cannot be turned into a message.
pub const STATUS_UNPROCESSABLE: u16 = 422;

/// The status for a message the relay did not take.
pub const STATUS_BAD_GATEWAY: u16 = 502;

/// An answer as plain values.
pub struct ReplyView {
    pub status: u16,
    pub html: bool,
    pub body: Seq<char>,
}

/// An HTTP answer.
pub struct Reply {
    pub status: u16,
    pub html: bool,
    pub body: String,
}

impl View for Reply {
    type V = ReplyView;

    open spec fn view(&self) -> ReplyView {
        ReplyView { status: self.status, html: self.html, body: self.body@ }
    }
}

/// How the relay answered a message handed to it.
#[derive(Debug, Clone, Copy, PartialEq, Eq, Structural)]
pub enum SendOutcome {
    Sent,
    Failed,
}

pub open spec fn greeting_reply() -> ReplyView {
    ReplyView { status: STATUS_OK, html: true, body: GREETING_HTML@ }
}

pub open spec fn submission_error_text(e: SubmissionError) -> Seq<char> {
    match e {
        SubmissionError::MissingFullname => "missing field `fullname`"@,
        SubmissionError::MissingEmail => "missing field `email`"@,
        SubmissionError::MissingMessage => "missing field `message`"@,
        SubmissionError::EmptyFullname => "field `fullname` is empty"@,
    }
}

pub open spec fn submission_error_reply(e: SubmissionError) -> ReplyView {
    ReplyView { status: STATUS_UNPROCESSABLE, html: false, body: submission_error_text(e) }
}

pub open spec fn dispatch_error_text(e: DispatchError) -> Seq<char> {
    match e {
        DispatchError::InvalidRecipient => "invalid email address"@,
        DispatchError::Unbuildable => "the message could not be composed"@,
    }
}

pub open spec fn dispatch_error_reply(e: DispatchError) -> ReplyView {
    ReplyView { status: STATUS_UNPROCESSABLE, html: false, body: dispatch_error_text(e) }
}

pub open spec fn send_reply(outcome: SendOutcome) -> ReplyView {
    match outcome {
        SendOutcome::Sent => ReplyView { status: STATUS_OK, html: false, body: Seq::empty() },
        SendOutcome::Failed => ReplyView { status: STATUS_BAD_GATEWAY, html: false, body: "could not send email"@ },
    }
}

fn text_reply(status: u16, body: &str) -> (r: Reply)
    ensures
        r@ == (ReplyView { status, html: false, body: body@ }),
{
    Reply { status, html: false, body: String::from_str(body) }
}

/// The root page: always the same HTML greeting with status 200.
pub fn greeting() -> (r: Reply)
    ensures
        r@ == greeting_reply(),
{
    Reply { status: STATUS_OK, html: true, body: String::from_str(GREETING_HTML) }
}

/// The client error for a form that lacks a field or names nobody.
pub fn submission_rejected(e: SubmissionError) -> (r: Reply)
    ensures
        r@ == submission_error_reply(e),
{
    match e {
        SubmissionError::MissingFullname => text_reply(STATUS_UNPROCESSABLE, "missing field `fullname`"),
        SubmissionError::MissingEmail => text_reply(STATUS_UNPROCESSABLE, "missing field `email`"),
        SubmissionError::MissingMessage => text_reply(STATUS_UNPROCESSABLE, "missing field `message`"),
        SubmissionError::EmptyFullname => text_reply(STATUS_UNPROCESSABLE, "field `fullname` is empty"),
    }
}

/// The client error for a submission that lettre cannot turn into a message.
pub fn dispatch_rejected(e: DispatchError) -> (r: Reply)
    ensures
        r@ == dispatch_error_reply(e),
{
    match e {
        DispatchError::InvalidRecipient => text_reply(STATUS_UNPROCESSABLE, "invalid email address"),
        DispatchError::Unbuildable => text_reply(STATUS_UNPROCESSABLE, "the message could not be composed"),
    }
}

/// The answer once the relay has taken the message, or failed to: an empty
/// 200, or a 502 that stays with this one request.
pub fn reply_after_send(outcome: SendOutcome) -> (r: Reply)
    ensures
        r@ == send_reply(outcome),
{
    match outcome {
        SendOutcome::Sent => Reply { status: STATUS_OK, html: false, body: String::new() },
        SendOutcome::Failed => text_reply(STATUS_BAD_GATEWAY, "could not send email"),
    }
}

} // verus!
