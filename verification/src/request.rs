//! The request: the text that the received bytes stand for, and the target
//! that its first line names.

use crate::text::{
    first_line, is_whitespace, leading_line, lemma_line_feed_from, lemma_run_end_unique,
    line_feed_from, nth_token, token_at, token_end, token_start,
};
use vstd::prelude::*;
use vstd::utf8::{decode_utf8, valid_utf8};

verus! {

/// The text that permissive decoding gives for `bytes` that are not valid
/// UTF-8: what `String::from_utf8_lossy` returns for them, each invalid
/// sequence replaced by U+FFFD.
pub uninterp spec fn utf8_lossy(bytes: Seq<u8>) -> Seq<char>;

/// The text that `bytes` stand for: their characters where they are valid
/// UTF-8, the permissive decoding otherwise.
pub open spec fn decoded_text(bytes: Seq<u8>) -> Seq<char> {
    if valid_utf8(bytes) {
        decode_utf8(bytes)
    } else {
        utf8_lossy(bytes)
    }
}

/// The target that a request text names: the second whitespace-separated
/// token of its first line, and `/` where that line has fewer than two tokens.
pub open spec fn target_of(text: Seq<char>) -> Seq<char> {
    match token_at(leading_line(text), 1) {
        Some(token) => token,
        None => seq!['/'],
    }
}

/// A text that begins with a method, one whitespace character other than a
/// line feed, and a target names that target, whatever follows, as long as
/// what follows the target begins with whitespace.
pub proof fn lemma_target_of_request_line(
    method: Seq<char>,
    gap: char,
    target: Seq<char>,
    rest: Seq<char>,
)
    requires
        method.len() > 0,
        target.len() > 0,
        forall|i: int| 0 <= i < method.len() ==> !is_whitespace(#[trigger] method[i]),
        forall|i: int| 0 <= i < target.len() ==> !is_whitespace(#[trigger] target[i]),
        is_whitespace(gap),
        gap != '\n',
        rest.len() > 0 ==> is_whitespace(rest[0]),
    ensures
        target_of(method + seq![gap] + target + rest) == target,
{
    let text = method + seq![gap] + target + rest;
    let gap_at: int = method.len() as int;
    let from: int = gap_at + 1;
    let to: int = from + target.len();
    // No line feed stands in the method, in the gap or in the target, so the
    // first line reaches to the end of the target at least.
    assert forall|i: int| 0 <= i < to implies #[trigger] text[i] != '\n' by {}
    lemma_line_feed_from(text, 0);
    let line = leading_line(text);
    assert forall|i: int| 0 <= i < line.len() implies line[i] == text[i] by {}
    // In that line the method is the first token and the target the second.
    assert forall|i: int| 0 <= i < method.len() implies !is_whitespace(#[trigger] line[i]) by {}
    assert forall|i: int| from <= i < to implies !is_whitespace(#[trigger] line[i]) by {}
    lemma_run_end_unique(line, 0, true, 0);
    lemma_run_end_unique(line, 0, false, gap_at);
    lemma_run_end_unique(line, gap_at, true, from);
    lemma_run_end_unique(line, from, false, to);
    assert(token_end(line, 0) == gap_at);
}

/// `String::from_utf8_lossy`, with the result made an owned `String`. Bytes
/// that are valid UTF-8 come back as the text that they encode; for other
/// bytes the result is only named.
#[verifier::external_body]
pub(crate) fn decode_lossy(bytes: &[u8]) -> (text: String)
    ensures
        text@ == if valid_utf8(bytes@) {
            decode_utf8(bytes@)
        } else {
            utf8_lossy(bytes@)
        },
{
    String::from_utf8_lossy(bytes).into_owned()
}

/// The target that the request text names.
pub fn request_target<'a>(text: &'a str) -> (target: &'a str)
    ensures
        target@ == target_of(text@),
{
    match nth_token(first_line(text), 1) {
        Some(token) => token,
        None => {
            proof {
                reveal_strlit("/");
            }
            "/"
        },
    }
}

} // verus!
