//! The fixed routes, the responses that they give, and how a response is
//! written out.

use crate::decimal::{decimal, decimal_string, lemma_decimal_round_trip, unsigned_value};
use crate::text::same_text;
use vstd::prelude::*;
use vstd::string::{StrSliceExecFns, StringExecFns};
use vstd::utf8::{encode_scalar, encode_utf8};

verus! {

/// A response before it is written out: the status line, the content type
/// and the body. The remaining header lines follow from these.
#[derive(Debug, Clone, Copy)]
pub struct Response {
    pub status_line: &'static str,
    pub content_type: &'static str,
    pub body: &'static str,
}

/// The three texts of a response, as sequences of characters.
pub struct ResponseView {
    pub status_line: Seq<char>,
    pub content_type: Seq<char>,
    pub body: Seq<char>,
}

impl View for Response {
    type V = ResponseView;

    open spec fn view(&self) -> ResponseView {
        ResponseView {
            status_line: self.status_line@,
            content_type: self.content_type@,
            body: self.body@,
        }
    }
}

/// One header line: the name, a colon and a space, the value, and the line
/// terminator.
pub open spec fn header_line(name: Seq<char>, value: Seq<char>) -> Seq<char> {
    name + ": "@ + value + "\r\n"@
}

impl ResponseView {
    /// The number of bytes that the body takes once encoded.
    pub open spec fn content_length(self) -> nat {
        encode_utf8(self.body).len()
    }

    /// Everything that precedes the body: the status line, the three header
    /// lines, and the empty line that ends the header.
    pub open spec fn head(self) -> Seq<char> {
        self.status_line + "\r\n"@ + header_line("Content-Type"@, self.content_type) + header_line(
            "Content-Length"@,
            decimal(self.content_length()),
        ) + header_line("Connection"@, "close"@) + "\r\n"@
    }

    /// The whole response as text.
    pub open spec fn text(self) -> Seq<char> {
        self.head() + self.body
    }

    /// The bytes that go out for the response.
    pub open spec fn wire(self) -> Seq<u8> {
        encode_utf8(self.text())
    }
}

/// What the target `/health` gives.
pub open spec fn health_response() -> ResponseView {
    ResponseView {
        status_line: "HTTP/1.1 200 OK"@,
        content_type: "application/json"@,
        body: "{\"status\":\"ok\",\"service\":\"rust-api-service\"}"@,
    }
}

/// What the target `/` gives.
pub open spec fn greeting_response() -> ResponseView {
    ResponseView {
        status_line: "HTTP/1.1 200 OK"@,
        content_type: "text/plain"@,
        body: "Hello from Rust API"@,
    }
}

/// What every other target gives.
pub open spec fn not_found_response() -> ResponseView {
    ResponseView {
        status_line: "HTTP/1.1 404 Not Found"@,
        content_type: "text/plain"@,
        body: "Not Found"@,
    }
}

/// The route table: the response for each target. Targets are compared
/// character by character, with nothing normalised.
pub open spec fn routed(target: Seq<char>) -> ResponseView {
    if target == "/health"@ {
        health_response()
    } else if target == "/"@ {
        greeting_response()
    } else {
        not_found_response()
    }
}

/// Every target other than the two that the table lists is answered with
/// the `404 Not Found` status line and the body `Not Found`.
pub proof fn lemma_unlisted_target_not_found(target: Seq<char>)
    requires
        target != "/"@,
        target != "/health"@,
    ensures
        routed(target).status_line == "HTTP/1.1 404 Not Found"@,
        routed(target).content_type == "text/plain"@,
        routed(target).body == "Not Found"@,
{
}

/// The two listed targets are answered with the `200 OK` status line, each
/// with its own body.
pub proof fn lemma_listed_targets()
    ensures
        routed("/"@).status_line == "HTTP/1.1 200 OK"@,
        routed("/"@).content_type == "text/plain"@,
        routed("/"@).body == "Hello from Rust API"@,
        routed("/health"@).status_line == "HTTP/1.1 200 OK"@,
        routed("/health"@).content_type == "application/json"@,
        routed("/health"@).body == "{\"status\":\"ok\",\"service\":\"rust-api-service\"}"@,
{
    reveal_strlit("/");
    reveal_strlit("/health");
    assert("/"@.len() != "/health"@.len());
}

/// The encoding of two texts in a row is the encoding of the first followed
/// by the encoding of the second.
pub proof fn lemma_encode_utf8_concat(a: Seq<char>, b: Seq<char>)
    ensures
        encode_utf8(a + b) == encode_utf8(a) + encode_utf8(b),
    decreases a.len(),
{
    if a.len() > 0 {
        lemma_encode_utf8_concat(a.drop_first(), b);
        assert((a + b).drop_first() =~= a.drop_first() + b);
        let first = encode_scalar(a[0] as u32);
        assert(first + (encode_utf8(a.drop_first()) + encode_utf8(b)) =~= (first + encode_utf8(
            a.drop_first(),
        )) + encode_utf8(b));
    }
}

/// The value of the `Content-Length` line is the number of bytes of the body,
/// and exactly the body's bytes follow the head on the wire.
pub proof fn lemma_content_length(response: ResponseView)
    ensures
        response.head() == response.status_line + "\r\n"@ + header_line(
            "Content-Type"@,
            response.content_type,
        ) + header_line("Content-Length"@, decimal(response.content_length())) + header_line(
            "Connection"@,
            "close"@,
        ) + "\r\n"@,
        unsigned_value(decimal(response.content_length())) == Some(encode_utf8(response.body).len()),
        response.wire() == encode_utf8(response.head()) + encode_utf8(response.body),
{
    lemma_decimal_round_trip(response.content_length());
    lemma_encode_utf8_concat(response.head(), response.body);
}

/// Looks the target up in the route table.
pub fn route(target: &str) -> (response: Response)
    ensures
        response@ == routed(target@),
{
    if same_text(target, "/health") {
        Response {
            status_line: "HTTP/1.1 200 OK",
            content_type: "application/json",
            body: "{\"status\":\"ok\",\"service\":\"rust-api-service\"}",
        }
    } else if same_text(target, "/") {
        Response {
            status_line: "HTTP/1.1 200 OK",
            content_type: "text/plain",
            body: "Hello from Rust API",
        }
    } else {
        Response {
            status_line: "HTTP/1.1 404 Not Found",
            content_type: "text/plain",
            body: "Not Found",
        }
    }
}

/// Appends one header line to `text`.
fn push_header(text: &mut String, name: &str, value: &str)
    ensures
        final(text)@ == old(text)@ + header_line(name@, value@),
{
    text.append(name);
    text.append(": ");
    text.append(value);
    text.append("\r\n");
}

impl Response {
    /// Writes the response out as text: the status line, the content type,
    /// the length of the encoded body, the directive to close the
    /// connection, an empty line, and the body.
    pub fn to_text(&self) -> (text: String)
        ensures
            text@ == self@.text(),
    {
        let length: usize = self.body.as_bytes().len();
        let mut text = String::from(self.status_line);
        text.append("\r\n");
        push_header(&mut text, "Content-Type", self.content_type);
        push_header(&mut text, "Content-Length", decimal_string(length).as_str());
        push_header(&mut text, "Connection", "close");
        text.append("\r\n");
        text.append(self.body);
        text
    }

    /// The bytes that go out for the response.
    pub fn to_bytes(&self) -> (bytes: Vec<u8>)
        ensures
            bytes@ == self@.wire(),
    {
        self.to_text().as_str().as_bytes_vec()
    }
}

} // verus!
