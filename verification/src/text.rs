//! Lines and whitespace-separated tokens of a text.
//!
//! A text is modelled as its sequence of characters. A line ends at the first
//! line feed; a token is a maximal run of characters that are not whitespace.

use vstd::prelude::*;
use vstd::utf8::{encode_utf8, encode_utf8_decode_utf8};

verus! {

/// Whether `c` is one of the characters that Unicode marks `White_Space`.
pub open spec fn is_whitespace(c: char) -> bool {
    let u: u32 = c as u32;
    ||| 0x09 <= u <= 0x0D
    ||| u == 0x20
    ||| u == 0x85
    ||| u == 0xA0
    ||| u == 0x1680
    ||| 0x2000 <= u <= 0x200A
    ||| u == 0x2028
    ||| u == 0x2029
    ||| u == 0x202F
    ||| u == 0x205F
    ||| u == 0x3000
}

/// The position of the first line feed of `s` at or after `from`, or the
/// length of `s` where none follows.
pub open spec fn line_feed_from(s: Seq<char>, from: int) -> int
    decreases s.len() - from,
{
    if 0 <= from < s.len() && s[from] != '\n' {
        line_feed_from(s, from + 1)
    } else {
        from
    }
}

/// The first line of `s` without its terminator: everything before the first
/// line feed, less one carriage return that stands directly before that line
/// feed. A text without a line feed is its own first line.
pub open spec fn leading_line(s: Seq<char>) -> Seq<char> {
    let feed: int = line_feed_from(s, 0);
    if 0 < feed < s.len() && s[feed - 1] == '\r' {
        s.take(feed - 1)
    } else {
        s.take(feed)
    }
}

/// The end of the run that starts at `from`: the first position at or after
/// `from` whose character is whitespace where `blank` is false, or is not
/// whitespace where `blank` is true; the length of `s` where the run reaches
/// the end.
pub open spec fn run_end(s: Seq<char>, from: int, blank: bool) -> int
    decreases s.len() - from,
{
    if 0 <= from < s.len() && is_whitespace(s[from]) == blank {
        run_end(s, from + 1, blank)
    } else {
        from
    }
}

/// Where the token with index `n` starts, counting from zero; the length of
/// `s` where `s` has no such token.
pub open spec fn token_start(s: Seq<char>, n: nat) -> int
    decreases n,
{
    if n == 0 {
        run_end(s, 0, true)
    } else {
        run_end(s, run_end(s, token_start(s, (n - 1) as nat), false), true)
    }
}

/// Where the token with index `n` ends (the position after its last character).
pub open spec fn token_end(s: Seq<char>, n: nat) -> int {
    run_end(s, token_start(s, n), false)
}

/// The token with index `n` among the whitespace-separated tokens of `s`.
pub open spec fn token_at(s: Seq<char>, n: nat) -> Option<Seq<char>> {
    if token_start(s, n) < s.len() {
        Some(s.subrange(token_start(s, n), token_end(s, n)))
    } else {
        None
    }
}

/// A run ends inside the text, every character of it is of the run's kind,
/// and the character that follows it, if any, is not.
pub proof fn lemma_run_end(s: Seq<char>, from: int, blank: bool)
    requires
        0 <= from <= s.len(),
    ensures
        from <= run_end(s, from, blank) <= s.len(),
        forall|i: int| from <= i < run_end(s, from, blank) ==> is_whitespace(#[trigger] s[i]) == blank,
        run_end(s, from, blank) < s.len() ==> is_whitespace(s[run_end(s, from, blank)]) != blank,
    decreases s.len() - from,
{
    if from < s.len() && is_whitespace(s[from]) == blank {
        lemma_run_end(s, from + 1, blank);
    }
}

/// A position that ends a run as `lemma_run_end` describes is the end of
/// that run: there is no other.
pub proof fn lemma_run_end_unique(s: Seq<char>, from: int, blank: bool, end: int)
    requires
        0 <= from <= end <= s.len(),
        forall|i: int| from <= i < end ==> is_whitespace(#[trigger] s[i]) == blank,
        end < s.len() ==> is_whitespace(s[end]) != blank,
    ensures
        run_end(s, from, blank) == end,
    decreases end - from,
{
    if from < end {
        lemma_run_end_unique(s, from + 1, blank, end);
    }
}

/// The first line feed lies inside the text or at its end, and no line feed
/// stands before it.
pub proof fn lemma_line_feed_from(s: Seq<char>, from: int)
    requires
        0 <= from <= s.len(),
    ensures
        from <= line_feed_from(s, from) <= s.len(),
        forall|i: int| from <= i < line_feed_from(s, from) ==> #[trigger] s[i] != '\n',
        line_feed_from(s, from) < s.len() ==> s[line_feed_from(s, from)] == '\n',
    decreases s.len() - from,
{
    if from < s.len() && s[from] != '\n' {
        lemma_line_feed_from(s, from + 1);
    }
}

/// A position that `lemma_line_feed_from` describes is the first line feed:
/// there is no other.
pub proof fn lemma_line_feed_unique(s: Seq<char>, from: int, feed: int)
    requires
        0 <= from <= feed <= s.len(),
        forall|i: int| from <= i < feed ==> #[trigger] s[i] != '\n',
        feed < s.len() ==> s[feed] == '\n',
    ensures
        line_feed_from(s, from) == feed,
    decreases feed - from,
{
    if from < feed {
        lemma_line_feed_unique(s, from + 1, feed);
    }
}

/// The first line is a beginning of the text and holds no line feed; a text
/// without a line feed is its own first line.
pub proof fn lemma_leading_line(s: Seq<char>)
    ensures
        leading_line(s).len() <= s.len(),
        leading_line(s) == s.take(leading_line(s).len() as int),
        forall|i: int| 0 <= i < leading_line(s).len() ==> #[trigger] leading_line(s)[i] != '\n',
        (forall|i: int| 0 <= i < s.len() ==> #[trigger] s[i] != '\n') ==> leading_line(s) == s,
{
    lemma_line_feed_from(s, 0);
    if forall|i: int| 0 <= i < s.len() ==> #[trigger] s[i] != '\n' {
        lemma_line_feed_unique(s, 0, s.len() as int);
        assert(s.take(s.len() as int) =~= s);
    }
}

/// Token positions never leave the text, and each token ends at or after its
/// start.
pub proof fn lemma_token_bounds(s: Seq<char>, n: nat)
    ensures
        0 <= token_start(s, n) <= token_end(s, n) <= s.len(),
    decreases n,
{
    if n == 0 {
        lemma_run_end(s, 0, true);
    } else {
        lemma_token_bounds(s, (n - 1) as nat);
        lemma_run_end(s, token_end(s, (n - 1) as nat), true);
    }
    lemma_run_end(s, token_start(s, n), false);
}

/// A token that exists is not empty, holds no whitespace, and is bounded by
/// whitespace or by the ends of the text.
pub proof fn lemma_token_at(s: Seq<char>, n: nat)
    requires
        token_at(s, n) is Some,
    ensures
        token_at(s, n).unwrap().len() > 0,
        forall|i: int|
            0 <= i < token_at(s, n).unwrap().len() ==> !is_whitespace(
                #[trigger] token_at(s, n).unwrap()[i],
            ),
        token_start(s, n) > 0 ==> is_whitespace(s[token_start(s, n) - 1]),
        token_end(s, n) < s.len() ==> is_whitespace(s[token_end(s, n)]),
{
    lemma_token_bounds(s, n);
    let start: int = token_start(s, n);
    lemma_run_end(s, start, false);
    if n == 0 {
        lemma_run_end(s, 0, true);
    } else {
        lemma_token_bounds(s, (n - 1) as nat);
        let before: int = token_end(s, (n - 1) as nat);
        lemma_run_end(s, before, true);
        lemma_run_end(s, token_start(s, (n - 1) as nat), false);
    }
}

/// Once the text has run out of tokens, it has no later token either.
pub proof fn lemma_no_token_after_none(s: Seq<char>, n: nat, m: nat)
    requires
        n <= m,
        token_at(s, n) is None,
    ensures
        token_at(s, m) is None,
    decreases m - n,
{
    lemma_token_bounds(s, n);
    if n < m {
        lemma_no_token_after_none(s, n + 1, m);
    }
}

/// `String::from` for a `&str`: the new `String` holds the characters of `s`.
pub assume_specification<'a>[ <String as From<&'a str>>::from ](s: &str) -> (text: String)
    ensures
        text@ == s@,
;

/// Whether `c` is a whitespace character.
pub fn is_whitespace_char(c: char) -> (blank: bool)
    ensures
        blank == is_whitespace(c),
{
    let u: u32 = c as u32;
    (0x09 <= u && u <= 0x0D) || u == 0x20 || u == 0x85 || u == 0xA0 || u == 0x1680 || (0x2000 <= u
        && u <= 0x200A) || u == 0x2028 || u == 0x2029 || u == 0x202F || u == 0x205F || u == 0x3000
}

/// Collects the characters of `text` in one pass.
pub fn chars_of(text: &str) -> (chars: Vec<char>)
    ensures
        chars@ == text@,
{
    let mut chars: Vec<char> = Vec::new();
    for c in it: text.chars()
        invariant
            chars@ == it.seq().take(it.index()),
    {
        chars.push(c);
    }
    chars
}

/// Whether `a` and `b` hold the same characters.
pub fn same_text(a: &str, b: &str) -> (same: bool)
    ensures
        same == (a@ == b@),
{
    let left = a.as_bytes();
    let right = b.as_bytes();
    proof {
        encode_utf8_decode_utf8(a@);
        encode_utf8_decode_utf8(b@);
    }
    if left.len() != right.len() {
        return false;
    }
    let mut i: usize = 0;
    while i < left.len()
        invariant
            i <= left@.len(),
            left@.len() == right@.len(),
            left@ == encode_utf8(a@),
            right@ == encode_utf8(b@),
            forall|j: int| 0 <= j < i ==> left@[j] == right@[j],
        decreases left@.len() - i,
    {
        if left[i] != right[i] {
            return false;
        }
        i += 1;
    }
    assert(left@ =~= right@);
    true
}

/// Walks from `from` to the end of the run that starts there.
fn skip_run(chars: &Vec<char>, from: usize, blank: bool) -> (end: usize)
    requires
        from <= chars@.len(),
    ensures
        end == run_end(chars@, from as int, blank),
        from <= end <= chars@.len(),
{
    let mut end: usize = from;
    while end < chars.len() && is_whitespace_char(chars[end]) == blank
        invariant
            from <= end <= chars@.len(),
            run_end(chars@, from as int, blank) == run_end(chars@, end as int, blank),
        decreases chars@.len() - end,
    {
        end += 1;
    }
    end
}

/// The first line of `text`, without its line terminator.
pub fn first_line<'a>(text: &'a str) -> (line: &'a str)
    ensures
        line@ == leading_line(text@),
{
    let chars = chars_of(text);
    let mut feed: usize = 0;
    while feed < chars.len() && chars[feed] != '\n'
        invariant
            feed <= chars@.len(),
            line_feed_from(chars@, 0) == line_feed_from(chars@, feed as int),
        decreases chars@.len() - feed,
    {
        feed += 1;
    }
    let end: usize = if 0 < feed && feed < chars.len() && chars[feed - 1] == '\r' {
        feed - 1
    } else {
        feed
    };
    text.substring_char(0, end)
}

/// The token with index `n` among the whitespace-separated tokens of `line`,
/// counting from zero.
pub fn nth_token<'a>(line: &'a str, n: usize) -> (token: Option<&'a str>)
    ensures
        match token {
            Some(t) => token_at(line@, n as nat) == Some(t@),
            None => token_at(line@, n as nat) is None,
        },
{
    let chars = chars_of(line);
    let mut start: usize = skip_run(&chars, 0, true);
    let mut k: usize = 0;
    while k < n && start < chars.len()
        invariant
            k <= n,
            chars@ == line@,
            start <= chars@.len(),
            start == token_start(chars@, k as nat),
        decreases n - k,
    {
        let end: usize = skip_run(&chars, start, false);
        start = skip_run(&chars, end, true);
        k += 1;
    }
    if start < chars.len() {
        let end: usize = skip_run(&chars, start, false);
        Some(line.substring_char(start, end))
    } else {
        proof {
            lemma_no_token_after_none(chars@, k as nat, n as nat);
        }
        None
    }
}

} // verus!
