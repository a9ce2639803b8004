//! Values that the HTTP boundary exchanges with the cache: the reply to a
//! request, and how a handler's outcome becomes one.

use vstd::prelude::*;

verus! {

/// Status of a reply that carries what was asked for.
pub const STATUS_OK: u16 = 200;

/// Status of every reply to a request that failed.
pub const STATUS_FAILED: u16 = 500;

/// The text that the liveness endpoint answers with.
pub open spec fn greeting() -> Seq<char> {
    "Hello, world"@
}

/// Why a handler could not produce its reply.
#[derive(Clone, Debug, PartialEq, Eq)]
pub struct HandlerError {
    pub message: String,
}

/// What a reply's body holds.
#[derive(Clone, Copy, Debug, PartialEq, Eq)]
pub enum ContentType {
    /// A JSON document.
    Json,
    /// An error message, as it is.
    PlainText,
}

/// A reply to an HTTP request.
#[derive(Clone, Debug, PartialEq, Eq)]
pub struct HttpReply {
    pub status: u16,
    pub content_type: ContentType,
    pub body: String,
}

impl ContentType {
    /// The value of the `content-type` header.
    pub open spec fn header(self) -> Seq<char> {
        match self {
            ContentType::Json => "application/json"@,
            ContentType::PlainText => "plain/text"@,
        }
    }

    /// The value of the `content-type` header.
    pub fn as_str(&self) -> (text: &'static str)
        ensures
            text@ == self.header(),
    {
        match self {
            ContentType::Json => "application/json",
            ContentType::PlainText => "plain/text",
        }
    }
}

/// The reply that carries the document `body`.
pub open spec fn success(body: Seq<char>) -> (u16, ContentType, Seq<char>) {
    (STATUS_OK, ContentType::Json, body)
}

/// The reply that reports the failure `message`.
pub open spec fn failure(message: Seq<char>) -> (u16, ContentType, Seq<char>) {
    (STATUS_FAILED, ContentType::PlainText, message)
}

impl HttpReply {
    /// Status, kind of content and body.
    pub open spec fn parts(self) -> (u16, ContentType, Seq<char>) {
        (self.status, self.content_type, self.body@)
    }

    /// Whether the reply reports a failure.
    pub fn is_failure(&self) -> (failed: bool)
        ensures
            failed == (self.status != STATUS_OK),
    {
        self.status != STATUS_OK
    }
}

/// Answers the liveness probe: always succeeds, always with the same text.
pub fn hello_handler() -> (reply: Result<String, HandlerError>)
    ensures
        reply matches Ok(text) && text@ == greeting(),
{
    Ok("Hello, world".to_string())
}

/// Turns the outcome of an API call into a reply: a rendered document goes
/// out with status 200 as JSON, a failure with status 500 and its message as
/// plain text.
pub fn wrap_http_result(api_result: Result<String, String>) -> (reply: HttpReply)
    ensures
        reply.parts() == match api_result {
            Ok(document) => success(document@),
            Err(message) => failure(message@),
        },
{
    match api_result {
        Ok(document) => HttpReply {
            status: STATUS_OK,
            content_type: ContentType::Json,
            body: document,
        },
        Err(message) => HttpReply {
            status: STATUS_FAILED,
            content_type: ContentType::PlainText,
            body: message,
        },
    }
}

/// Shields the client from a failing handler: a reply passes unchanged, a
/// failure becomes a reply with status 500 and the message as its body.
pub fn error_handler_middleware(handled: Result<HttpReply, HandlerError>) -> (reply: HttpReply)
    ensures
        match handled {
            Ok(inner) => reply == inner,
            Err(error) => reply.parts() == failure(error.message@),
        },
{
    match handled {
        Ok(inner) => inner,
        Err(error) => HttpReply {
            status: STATUS_FAILED,
            content_type: ContentType::PlainText,
            body: error.message,
        },
    }
}

} // verus!
