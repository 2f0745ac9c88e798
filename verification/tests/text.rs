use api_service::text::{chars_of, first_line, is_whitespace_char, nth_token, same_text};

const SAMPLES: [&str; 24] = [
    "",
    " ",
    "\n",
    "\r\n",
    "\r",
    "a",
    "a\r",
    "a\r\n",
    "a\r\r\n",
    "a\nb",
    "a\r\nb\r\n",
    "\nGET / HTTP/1.1",
    "GET / HTTP/1.1\r\n\r\n",
    "GET /health HTTP/1.1\r\nHost: example\r\n\r\n",
    "  GET   /health  ",
    "GET\t/health\tHTTP/1.1",
    "GET\u{a0}/health\u{2003}HTTP/1.1",
    "GET\u{200b}/health",
    "one two three four five",
    "\u{3000}\u{3000}x\u{3000}",
    "tab\x0bvertical\x0cfeed",
    "GET /\u{fffd} HTTP/1.1",
    "a \r\n b",
    "x\u{85}y\u{1680}z\u{2028}w\u{2029}v\u{202f}u\u{205f}t",
];

#[test]
fn whitespace_is_what_the_standard_library_calls_whitespace() {
    let mut code: u32 = 0;
    while code <= 0x10FFFF {
        if let Some(c) = char::from_u32(code) {
            assert_eq!(is_whitespace_char(c), c.is_whitespace(), "U+{:04X}", code);
        }
        code += 1;
    }
}

#[test]
fn whitespace_members_and_neighbours() {
    for c in ['\t', '\n', '\x0b', '\x0c', '\r', ' ', '\u{85}', '\u{a0}', '\u{1680}', '\u{2000}',
        '\u{200a}', '\u{2028}', '\u{2029}', '\u{202f}', '\u{205f}', '\u{3000}']
    {
        assert!(is_whitespace_char(c), "U+{:04X}", c as u32);
    }
    for c in ['\x08', '\x0e', '\x1f', '!', '/', 'a', '\u{84}', '\u{86}', '\u{180e}', '\u{200b}',
        '\u{2060}', '\u{feff}', '\u{fffd}', '\u{10ffff}']
    {
        assert!(!is_whitespace_char(c), "U+{:04X}", c as u32);
    }
}

#[test]
fn chars_of_gives_every_character_in_order() {
    for sample in SAMPLES {
        let expected: Vec<char> = sample.chars().collect();
        assert_eq!(chars_of(sample), expected);
    }
    assert_eq!(chars_of("a\u{e9}\u{4e2d}\u{1f600}"), vec!['a', '\u{e9}', '\u{4e2d}', '\u{1f600}']);
}

#[test]
fn same_text_compares_character_by_character() {
    assert!(same_text("", ""));
    assert!(same_text("/health", "/health"));
    assert!(!same_text("/health", "/Health"));
    assert!(!same_text("/health", "/health/"));
    assert!(!same_text("/", ""));
    assert!(!same_text("abc", "abd"));
    assert!(same_text("\u{e9}", "\u{e9}"));
    assert!(!same_text("\u{e9}", "e\u{301}"));
    for a in SAMPLES {
        for b in SAMPLES {
            assert_eq!(same_text(a, b), a == b);
        }
    }
}

#[test]
fn first_line_stops_at_the_line_feed() {
    assert_eq!(first_line("GET / HTTP/1.1\nHost: x\n"), "GET / HTTP/1.1");
    assert_eq!(first_line("one\ntwo\nthree"), "one");
    assert_eq!(first_line("\nsecond"), "");
}

#[test]
fn first_line_drops_one_carriage_return_before_the_line_feed() {
    assert_eq!(first_line("GET / HTTP/1.1\r\nHost: x\r\n"), "GET / HTTP/1.1");
    assert_eq!(first_line("a\r\r\nb"), "a\r");
    assert_eq!(first_line("\r\n"), "");
}

#[test]
fn first_line_without_line_feed_is_the_whole_text() {
    assert_eq!(first_line("GET / HTTP/1.1"), "GET / HTTP/1.1");
    assert_eq!(first_line("a\r"), "a\r");
    assert_eq!(first_line("a\rb"), "a\rb");
    assert_eq!(first_line(""), "");
}

#[test]
fn first_line_agrees_with_lines() {
    for sample in SAMPLES {
        assert_eq!(first_line(sample), sample.lines().next().unwrap_or(""), "{:?}", sample);
    }
}

#[test]
fn nth_token_counts_from_zero() {
    assert_eq!(nth_token("GET /health HTTP/1.1", 0), Some("GET"));
    assert_eq!(nth_token("GET /health HTTP/1.1", 1), Some("/health"));
    assert_eq!(nth_token("GET /health HTTP/1.1", 2), Some("HTTP/1.1"));
    assert_eq!(nth_token("GET /health HTTP/1.1", 3), None);
    assert_eq!(nth_token("GET /health HTTP/1.1", usize::MAX), None);
}

#[test]
fn nth_token_skips_runs_of_whitespace() {
    assert_eq!(nth_token("  GET \t\t /x  ", 0), Some("GET"));
    assert_eq!(nth_token("  GET \t\t /x  ", 1), Some("/x"));
    assert_eq!(nth_token("  GET \t\t /x  ", 2), None);
    assert_eq!(nth_token("", 0), None);
    assert_eq!(nth_token(" \t ", 0), None);
    assert_eq!(nth_token("GET\u{a0}/health\u{2003}HTTP/1.1", 1), Some("/health"));
    assert_eq!(nth_token("GET\u{200b}/health", 0), Some("GET\u{200b}/health"));
}

#[test]
fn nth_token_agrees_with_split_whitespace() {
    for sample in SAMPLES {
        for n in 0..7 {
            assert_eq!(nth_token(sample, n), sample.split_whitespace().nth(n), "{:?} {}", sample, n);
        }
    }
}
