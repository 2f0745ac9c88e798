//! What one connection is answered with, as a function of what was read
//! from it.
//!
//! The handler reads once. Where that read fails or brings no byte, nothing
//! is sent. Otherwise the bytes are decoded, the target of the request is
//! looked up, and the response of that route is written out.

use crate::request::{
    decode_lossy, decoded_text, lemma_target_of_request_line, request_target, target_of,
};
use crate::response::{
    greeting_response, health_response, not_found_response, route, routed,
};
use crate::text::is_whitespace;
use vstd::prelude::*;
use vstd::utf8::{encode_utf8, encode_utf8_decode_utf8, encode_utf8_valid_utf8};

verus! {

/// The number of bytes that the handler asks for in its one read.
pub const REQUEST_BUFFER_SIZE: usize = 1024;

/// The bytes that answer a request whose text is `text`.
pub open spec fn reply_to_text(text: Seq<char>) -> Seq<u8> {
    routed(target_of(text)).wire()
}

/// The bytes that answer the received bytes `request`; nothing where no byte
/// was received.
pub open spec fn reply_to(request: Seq<u8>) -> Option<Seq<u8>> {
    if request.len() == 0 {
        None
    } else {
        Some(reply_to_text(decoded_text(request)))
    }
}

/// The bytes to send after the read: nothing where the read failed (`None`),
/// else the answer to what was read.
pub open spec fn reply_after_read(read: Option<Seq<u8>>) -> Option<Seq<u8>> {
    match read {
        Some(request) => reply_to(request),
        None => None,
    }
}

/// The bytes that a read brought, if it brought any.
pub open spec fn received(read: Option<&[u8]>) -> Option<Seq<u8>> {
    match read {
        Some(request) => Some(request@),
        None => None,
    }
}

/// The bytes that are to be sent, if any are.
pub open spec fn sent(reply: Option<Vec<u8>>) -> Option<Seq<u8>> {
    match reply {
        Some(bytes) => Some(bytes@),
        None => None,
    }
}

/// The answer depends on the received bytes and on nothing else: the same
/// request, sent again on any connection, is answered with the same bytes.
pub proof fn lemma_same_request_same_reply(first: Seq<u8>, second: Seq<u8>)
    requires
        first == second,
    ensures
        reply_to(first) == reply_to(second),
        reply_after_read(Some(first)) == reply_after_read(Some(second)),
{
}

/// A request that is the encoding of a text is answered, unless it is empty,
/// with the response for the target that the text names.
pub proof fn lemma_reply_to_encoded_text(text: Seq<char>)
    ensures
        text.len() == 0 ==> reply_to(encode_utf8(text)) is None,
        text.len() > 0 ==> reply_to(encode_utf8(text)) == Some(routed(target_of(text)).wire()),
{
    encode_utf8_valid_utf8(text);
    encode_utf8_decode_utf8(text);
}

/// A request made of a method, one whitespace character other than a line
/// feed, a target, and then whitespace or nothing, is answered with the
/// response of the route table for that target.
pub proof fn lemma_reply_to_request_line(
    method: Seq<char>,
    gap: char,
    target: Seq<char>,
    rest: Seq<char>,
)
    requires
        method.len() > 0,
        target.len() > 0,
        forall|i: int| 0 <= i < method.len() ==> !is_whitespace(#[trigger] method[i]),
        forall|i: int| 0 <= i < target.len() ==> !is_whitespace(#[trigger] target[i]),
        is_whitespace(gap),
        gap != '\n',
        rest.len() > 0 ==> is_whitespace(rest[0]),
    ensures
        reply_to(encode_utf8(method + seq![gap] + target + rest)) == Some(routed(target).wire()),
{
    lemma_target_of_request_line(method, gap, target, rest);
    lemma_reply_to_encoded_text(method + seq![gap] + target + rest);
}

/// The request `GET`, a space, a target, a space, `HTTP/1.1` and an empty
/// line is answered with the response of the route table for that target:
/// with `200 OK` and the target's own body for the two listed targets, with
/// `404 Not Found` for every other.
pub proof fn lemma_reply_to_get(target: Seq<char>)
    requires
        target.len() > 0,
        forall|i: int| 0 <= i < target.len() ==> !is_whitespace(#[trigger] target[i]),
    ensures
        reply_to(encode_utf8("GET "@ + target + " HTTP/1.1\r\n\r\n"@)) == Some(
            routed(target).wire(),
        ),
{
    reveal_strlit("GET ");
    reveal_strlit(" HTTP/1.1\r\n\r\n");
    let method = seq!['G', 'E', 'T'];
    let rest = " HTTP/1.1\r\n\r\n"@;
    assert("GET "@ =~= method + seq![' ']);
    lemma_reply_to_request_line(method, ' ', target, rest);
}

/// Whatever was received, there is a reply if and only if at least one byte
/// was received, and the reply is one of the three responses of the route
/// table, written out.
pub proof fn lemma_reply_is_a_listed_response(request: Seq<u8>)
    ensures
        reply_to(request) is Some <==> request.len() > 0,
        reply_to(request) matches Some(bytes) ==> {
            ||| bytes == health_response().wire()
            ||| bytes == greeting_response().wire()
            ||| bytes == not_found_response().wire()
        },
{
}

/// Answers a request that has been decoded to `text`.
pub fn respond_to_text(text: &str) -> (reply: Vec<u8>)
    ensures
        reply@ == reply_to_text(text@),
{
    route(request_target(text)).to_bytes()
}

/// Answers the bytes that were received: nothing for no bytes, else the
/// response for the target that they name.
pub fn respond(request: &[u8]) -> (reply: Option<Vec<u8>>)
    ensures
        sent(reply) == reply_to(request@),
        reply is None <==> request@.len() == 0,
{
    if request.len() == 0 {
        None
    } else {
        let text = decode_lossy(request);
        Some(respond_to_text(text.as_str()))
    }
}

/// Decides what to send after the one read of a connection. `read` is `None`
/// where the read failed, else the bytes that it brought.
pub fn handle_read(read: Option<&[u8]>) -> (reply: Option<Vec<u8>>)
    ensures
        sent(reply) == reply_after_read(received(read)),
        reply is None <==> (read matches Some(request) ==> request@.len() == 0),
{
    match read {
        Some(request) => respond(request),
        None => None,
    }
}

} // verus!
