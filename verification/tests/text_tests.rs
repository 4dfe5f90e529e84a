use wg_failover::text::{
    chars_of, decimal_string, field, find, find_char, find_last, is_all_digits, is_whitespace,
    line_spans, matches_here, parse_digits, push_decimal, same_text, trim_span, word_spans, Span,
};

fn text(chars: &[char], span: Span) -> String {
    chars[span.start..span.end].iter().collect()
}

fn lines_of(s: &str) -> Vec<String> {
    let chars = chars_of(s);
    line_spans(&chars).into_iter().map(|l| text(&chars, l)).collect()
}

fn words_of(s: &str) -> Vec<String> {
    let chars = chars_of(s);
    word_spans(&chars).into_iter().map(|w| text(&chars, w)).collect()
}

const SAMPLES: [&str; 14] = [
    "",
    "\n",
    "one line",
    "one line\n",
    "first\nsecond",
    "first\r\nsecond\r\n",
    "cr alone\rstays\n",
    "\n\nblank lines before\n\nand after\n\n",
    "ends in cr\r",
    "\r\n",
    "  leading and trailing  ",
    "tabs\tand\u{a0}wide\u{3000}spaces",
    "a=b=c/d/e",
    "default via 192.168.1.1 dev eth0 proto dhcp metric 100\n10.0.0.0/8 via 10.1.1.1 dev eth0\n",
];

#[test]
fn chars_of_gives_every_character_in_order() {
    assert_eq!(chars_of("a\u{e9}b\u{1f600}"), vec!['a', '\u{e9}', 'b', '\u{1f600}']);
    assert_eq!(chars_of(""), Vec::<char>::new());
}

#[test]
fn is_whitespace_agrees_with_unicode_on_every_character() {
    let mut n: u32 = 0;
    while n <= 0x10FFFF {
        if let Some(c) = char::from_u32(n) {
            assert_eq!(is_whitespace(c), c.is_whitespace(), "U+{:04X}", n);
        }
        n += 1;
    }
}

#[test]
fn is_whitespace_on_named_characters() {
    assert!(is_whitespace(' '));
    assert!(is_whitespace('\t'));
    assert!(is_whitespace('\n'));
    assert!(is_whitespace('\u{a0}'));
    assert!(!is_whitespace('a'));
    assert!(!is_whitespace('\u{200b}'));
}

#[test]
fn find_char_gives_first_index_or_length() {
    let s = chars_of("a,b,c");
    assert_eq!(find_char(&s, ',', 0), 1);
    assert_eq!(find_char(&s, ',', 1), 1);
    assert_eq!(find_char(&s, ',', 2), 3);
    assert_eq!(find_char(&s, ',', 4), 5);
    assert_eq!(find_char(&s, ',', 5), 5);
    assert_eq!(find_char(&s, 'x', 0), 5);
    assert_eq!(find_char(&s, ',', 9), 9);
    assert_eq!(find_char(&[], ',', 0), 0);
}

#[test]
fn lines_are_those_of_the_standard_library() {
    for s in SAMPLES {
        let expected: Vec<String> = s.lines().map(|l| l.to_string()).collect();
        assert_eq!(lines_of(s), expected, "{:?}", s);
    }
}

#[test]
fn lines_drop_the_carriage_return_before_a_line_feed_only() {
    assert_eq!(lines_of("a\r\nb\rc\n"), vec!["a".to_string(), "b\rc".to_string()]);
    assert_eq!(lines_of("a\n\nb"), vec!["a".to_string(), "".to_string(), "b".to_string()]);
    assert_eq!(lines_of("a\n"), vec!["a".to_string()]);
}

#[test]
fn line_spans_say_where_the_lines_stand() {
    let s = chars_of("ab\r\ncd\n\nef");
    assert_eq!(
        line_spans(&s),
        vec![
            Span { start: 0, end: 2 },
            Span { start: 4, end: 6 },
            Span { start: 7, end: 7 },
            Span { start: 8, end: 10 },
        ]
    );
    assert_eq!(line_spans(&[]), Vec::<Span>::new());
}

#[test]
fn words_are_those_of_the_standard_library() {
    for s in SAMPLES {
        let expected: Vec<String> = s.split_whitespace().map(|w| w.to_string()).collect();
        assert_eq!(words_of(s), expected, "{:?}", s);
    }
}

#[test]
fn words_of_a_route_line() {
    assert_eq!(
        words_of("default via 10.0.0.1   dev\teth0 "),
        vec!["default", "via", "10.0.0.1", "dev", "eth0"]
    );
    assert_eq!(words_of("   "), Vec::<String>::new());
}

#[test]
fn matches_here_compares_at_the_index() {
    let s = chars_of("abcabc");
    let pat = chars_of("bc");
    assert!(matches_here(&s, &pat, 1));
    assert!(matches_here(&s, &pat, 4));
    assert!(!matches_here(&s, &pat, 0));
    assert!(!matches_here(&s, &pat, 5));
    assert!(!matches_here(&s, &pat, 600));
    assert!(matches_here(&s, &[], 6));
    assert!(!matches_here(&s, &[], 7));
}

#[test]
fn find_gives_the_first_place_and_find_last_the_last() {
    let s = chars_of("1: lo: <LOOPBACK>");
    let pat = chars_of(": ");
    assert_eq!(find(&s, &pat), Some(1));
    assert_eq!(find_last(&s, &pat), Some(5));
    assert_eq!(find(&s, &chars_of("@")), None);
    assert_eq!(find_last(&s, &chars_of("@")), None);
    assert_eq!(find(&chars_of("ab"), &chars_of("abc")), None);
    assert_eq!(find_last(&chars_of("ab"), &chars_of("abc")), None);
    assert_eq!(find(&s, &[]), Some(0));
    assert_eq!(find_last(&s, &[]), Some(17));
}

#[test]
fn find_agrees_with_the_standard_library_on_ascii() {
    let needles = ["a", "ab", " via ", "=", ": ", "zz", ""];
    for s in SAMPLES {
        if !s.is_ascii() {
            continue;
        }
        for n in needles {
            let (sc, nc) = (chars_of(s), chars_of(n));
            assert_eq!(find(&sc, &nc), s.find(n), "{:?} in {:?}", n, s);
            assert_eq!(find_last(&sc, &nc), s.rfind(n), "{:?} in {:?}", n, s);
        }
    }
}

#[test]
fn field_gives_the_piece_with_that_index() {
    let s = chars_of("a=b=c/d/e");
    assert_eq!(field(&s, '=', 0).map(|f| text(&s, f)), Some("a".to_string()));
    assert_eq!(field(&s, '=', 1).map(|f| text(&s, f)), Some("b".to_string()));
    assert_eq!(field(&s, '=', 2).map(|f| text(&s, f)), Some("c/d/e".to_string()));
    assert_eq!(field(&s, '=', 3), None);
    assert_eq!(field(&s, '/', 2).map(|f| text(&s, f)), Some("e".to_string()));
}

#[test]
fn field_keeps_empty_pieces() {
    let s = chars_of(",a,,");
    assert_eq!(field(&s, ',', 0), Some(Span { start: 0, end: 0 }));
    assert_eq!(field(&s, ',', 1), Some(Span { start: 1, end: 2 }));
    assert_eq!(field(&s, ',', 2), Some(Span { start: 3, end: 3 }));
    assert_eq!(field(&s, ',', 3), Some(Span { start: 4, end: 4 }));
    assert_eq!(field(&s, ',', 4), None);
    assert_eq!(field(&[], ',', 0), Some(Span { start: 0, end: 0 }));
    assert_eq!(field(&[], ',', 1), None);
}

#[test]
fn field_agrees_with_the_standard_library() {
    for s in SAMPLES {
        let chars = chars_of(s);
        for sep in ['=', '/', ',', ' '] {
            let expected: Vec<String> = s.split(sep).map(|p| p.to_string()).collect();
            let mut n = 0;
            while n < expected.len() {
                assert_eq!(field(&chars, sep, n).map(|f| text(&chars, f)), Some(expected[n].clone()));
                n += 1;
            }
            assert_eq!(field(&chars, sep, expected.len()), None);
        }
    }
}

#[test]
fn trim_span_agrees_with_the_standard_library() {
    for s in SAMPLES {
        let chars = chars_of(s);
        assert_eq!(text(&chars, trim_span(&chars)), s.trim(), "{:?}", s);
    }
    let blank = chars_of(" \t ");
    assert_eq!(text(&blank, trim_span(&blank)), "");
}

#[test]
fn same_text_compares_all_characters() {
    assert!(same_text(&chars_of("via"), &chars_of("via")));
    assert!(!same_text(&chars_of("via"), &chars_of("vi")));
    assert!(!same_text(&chars_of("via"), &chars_of("vib")));
    assert!(same_text(&[], &[]));
}

#[test]
fn parse_digits_reads_numbers_that_fit() {
    assert_eq!(parse_digits(&chars_of("0")), Some(0));
    assert_eq!(parse_digits(&chars_of("42")), Some(42));
    assert_eq!(parse_digits(&chars_of("007")), Some(7));
    assert_eq!(parse_digits(&chars_of("")), Some(0));
    assert_eq!(parse_digits(&chars_of("18446744073709551615")), Some(u64::MAX));
}

#[test]
fn parse_digits_refuses_what_is_no_number_or_too_large() {
    assert_eq!(parse_digits(&chars_of("18446744073709551616")), None);
    assert_eq!(parse_digits(&chars_of("99999999999999999999999")), None);
    assert_eq!(parse_digits(&chars_of("4a")), None);
    assert_eq!(parse_digits(&chars_of("-4")), None);
    assert_eq!(parse_digits(&chars_of("4.0")), None);
    assert_eq!(parse_digits(&chars_of("\u{663}")), None);
}

#[test]
fn is_all_digits_checks_every_character() {
    assert!(is_all_digits(&chars_of("0123456789")));
    assert!(is_all_digits(&[]));
    assert!(!is_all_digits(&chars_of("12 ")));
    assert!(!is_all_digits(&chars_of("/")));
    assert!(!is_all_digits(&chars_of(":")));
}

#[test]
fn decimal_string_writes_numbers_as_the_standard_library_does() {
    for n in [0u64, 1, 9, 10, 11, 99, 100, 101, 255, 1000, 65535, u64::MAX] {
        assert_eq!(decimal_string(n), n.to_string());
    }
}

#[test]
fn push_decimal_appends_to_what_is_there() {
    let mut out = "metric ".to_string();
    push_decimal(&mut out, 100);
    assert_eq!(out, "metric 100");
    push_decimal(&mut out, 0);
    assert_eq!(out, "metric 1000");
    let mut digits = String::new();
    for d in 0..10u64 {
        push_decimal(&mut digits, d);
    }
    assert_eq!(digits, "0123456789");
}
