//! What is sent back: a status, a body, and the text of both on the wire.

use vstd::prelude::*;
use vstd::string::StringExecFns;

verus! {

/// The three statuses that the service answers with.
#[derive(Clone, Copy, Debug, PartialEq, Eq, Structural)]
pub enum Status {
    /// `200 OK`
    Success,
    /// `404 NOT FOUND`
    NotFound,
    /// `500 INTERNAL SERVER ERROR`
    InternalServerError,
}

/// A response. `json` says that the body is JSON, and is announced as such.
#[derive(Debug, PartialEq, Eq)]
pub struct Response {
    pub status: Status,
    pub json: bool,
    pub body: String,
}

/// A response as contracts see it.
pub struct ResponseView {
    pub status: Status,
    pub json: bool,
    pub body: Seq<char>,
}

impl View for Response {
    type V = ResponseView;

    open spec fn view(&self) -> ResponseView {
        ResponseView { status: self.status, json: self.json, body: self.body@ }
    }
}

/// The status line of a response, with the line break that ends it.
pub open spec fn status_line(status: Status) -> Seq<char> {
    match status {
        Status::Success => "HTTP/1.1 200 OK\r\n"@,
        Status::NotFound => "HTTP/1.1 404 NOT FOUND\r\n"@,
        Status::InternalServerError => "HTTP/1.1 500 INTERNAL SERVER ERROR\r\n"@,
    }
}

/// The header lines of a response: the content type of a JSON body, and
/// nothing for any other body.
pub open spec fn header_lines(json: bool) -> Seq<char> {
    if json {
        "Content-Type: application/json\r\n"@
    } else {
        Seq::empty()
    }
}

/// A response on the wire: status line, header lines, a blank line, the body.
pub open spec fn response_text(response: ResponseView) -> Seq<char> {
    status_line(response.status) + header_lines(response.json) + "\r\n"@ + response.body
}

/// A response with a plain message as its body.
pub open spec fn plain(status: Status, body: Seq<char>) -> ResponseView {
    ResponseView { status, json: false, body }
}

/// A successful response with a JSON body.
pub open spec fn json_success(body: Seq<char>) -> ResponseView {
    ResponseView { status: Status::Success, json: true, body }
}

impl Response {
    /// A response with the plain message `body`.
    pub fn message(status: Status, body: &str) -> (response: Response)
        ensures
            response@ == plain(status, body@),
    {
        Response { status, json: false, body: String::from_str(body) }
    }

    /// A successful response with the JSON text `body`.
    pub fn json(body: String) -> (response: Response)
        ensures
            response@ == json_success(body@),
    {
        Response { status: Status::Success, json: true, body }
    }

    /// The text to send.
    pub fn render(&self) -> (text: String)
        ensures
            text@ == response_text(self@),
    {
        let mut text = match self.status {
            Status::Success => String::from_str("HTTP/1.1 200 OK\r\n"),
            Status::NotFound => String::from_str("HTTP/1.1 404 NOT FOUND\r\n"),
            Status::InternalServerError => String::from_str(
                "HTTP/1.1 500 INTERNAL SERVER ERROR\r\n",
            ),
        };
        if self.json {
            text.append("Content-Type: application/json\r\n");
        }
        text.append("\r\n");
        text.append(self.body.as_str());
        text
    }
}

} // verus!
