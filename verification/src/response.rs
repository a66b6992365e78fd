//! Responses: one of three fixed status lines, then the body.

use vstd::prelude::*;
use vstd::utf8::encode_utf8;

verus! {

/// What opens a successful response: the status line, the content type, and
/// the blank line before the body.
pub const HTTP_200_OK: &'static str = "HTTP/1.1 200 OK\r\nContent-Type: application/json\r\n\r\n";

/// What opens a response about something that does not exist.
pub const HTTP_404_NOT_FOUND: &'static str = "HTTP/1.1 404 NOT FOUND\r\n\r\n";

/// What opens a response about a failure on this side.
pub const HTTP_500_INTERNAL_SERVER_ERROR: &'static str = "HTTP/1.1 500 INTERNAL SERVER ERROR\r\n\r\n";

/// The three outcomes a request can have.  A request that cannot be
/// understood is a failure like any other: there is no status for a bad
/// request.
#[derive(Clone, Copy, Debug, PartialEq, Eq, Structural)]
pub enum Status {
    Success,
    NotFound,
    InternalServerError,
}

impl Status {
    /// The text that opens a response of this status, up to and including the
    /// blank line.
    pub open spec fn head(self) -> Seq<char> {
        match self {
            Status::Success => HTTP_200_OK@,
            Status::NotFound => HTTP_404_NOT_FOUND@,
            Status::InternalServerError => HTTP_500_INTERNAL_SERVER_ERROR@,
        }
    }

    /// The text that opens a response of this status.
    pub fn status_line(self) -> (line: &'static str)
        ensures
            line@ == self.head(),
    {
        match self {
            Status::Success => HTTP_200_OK,
            Status::NotFound => HTTP_404_NOT_FOUND,
            Status::InternalServerError => HTTP_500_INTERNAL_SERVER_ERROR,
        }
    }
}

/// A status and the body that goes with it.
#[derive(Clone, Debug, PartialEq, Eq)]
pub struct Response {
    pub status: Status,
    pub body: String,
}

/// What a `Response` holds, as plain mathematics.
pub struct ResponseView {
    pub status: Status,
    pub body: Seq<char>,
}

impl ResponseView {
    /// The response as it goes out: the status's opening text, then the body.
    pub open spec fn text(self) -> Seq<char> {
        self.status.head() + self.body
    }
}

impl View for Response {
    type V = ResponseView;

    open spec fn view(&self) -> ResponseView {
        ResponseView { status: self.status, body: self.body@ }
    }
}

impl Response {
    /// A response of `status` with `body` as its body.
    pub fn new(status: Status, body: &str) -> (r: Response)
        ensures
            r@ == (ResponseView { status, body: body@ }),
    {
        Response { status, body: String::from_str(body) }
    }

    /// The text to send: the status's opening text, then the body.
    pub fn to_text(&self) -> (out: String)
        ensures
            out@ == self@.text(),
    {
        let mut out = String::from_str(self.status.status_line());
        out.append(self.body.as_str());
        out
    }

    /// The bytes to send: the text in UTF-8.
    pub fn to_bytes(&self) -> (out: Vec<u8>)
        ensures
            out@ == encode_utf8(self@.text()),
    {
        self.to_text().as_str().as_bytes_vec()
    }
}

} // verus!
