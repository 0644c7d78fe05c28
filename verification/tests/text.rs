use filmapik::text::{
    char_is_whitespace, chars_of, eq_ignore_ascii_case, find_char, find_text, join,
    last_segment_of, nth_field, parse_bounded, parse_i32, parse_u32, push_chars, push_decimal, push_str,
    read_digits, remove_char, same_chars, slice_of, starts_with, str_eq, strip_trailing_chars,
    trim,
};

fn chars(s: &str) -> Vec<char> {
    s.chars().collect()
}

fn text(v: &[char]) -> String {
    v.iter().collect()
}

#[test]
fn whitespace_is_the_unicode_property() {
    for code in 0u32..=0x10FFFF {
        if let Some(c) = char::from_u32(code) {
            assert_eq!(char_is_whitespace(c), c.is_whitespace(), "U+{:04X}", code);
        }
    }
}

#[test]
fn chars_of_gives_every_character() {
    assert_eq!(chars_of(""), Vec::<char>::new());
    assert_eq!(chars_of("abc"), vec!['a', 'b', 'c']);
    assert_eq!(chars_of("é→𝄞"), vec!['é', '→', '𝄞']);
}

#[test]
fn trim_agrees_with_std() {
    let samples = [
        "",
        " ",
        "a",
        "  a  ",
        "\t\n a b \r\n",
        "\u{a0}x\u{3000}",
        "\u{2003}\u{2003}",
        "x \u{85}",
        "  Inception (2010)  ",
        "\u{200b}x\u{200b}",
    ];
    for s in samples {
        assert_eq!(text(&trim(&chars(s))), s.trim(), "{:?}", s);
    }
}

#[test]
fn trim_keeps_inner_white_space() {
    assert_eq!(text(&trim(&chars("  a  b  "))), "a  b");
}

#[test]
fn strip_trailing_removes_the_whole_run() {
    assert_eq!(text(&strip_trailing_chars(&chars("2010)"), ')')), "2010");
    assert_eq!(text(&strip_trailing_chars(&chars("2010)))"), ')')), "2010");
    assert_eq!(text(&strip_trailing_chars(&chars(")2010"), ')')), ")2010");
    assert_eq!(text(&strip_trailing_chars(&chars(")))"), ')')), "");
    assert_eq!(text(&strip_trailing_chars(&chars(""), ')')), "");
}

#[test]
fn last_segment_is_the_last_non_empty_piece() {
    let cases = [
        ("http://origin.test/inception-2010/", "inception-2010"),
        ("http://origin.test/inception-2010", "inception-2010"),
        ("http://origin.test/a/b///", "b"),
        ("inception", "inception"),
        ("/", ""),
        ("///", ""),
        ("", ""),
        ("/a", "a"),
    ];
    for (url, id) in cases {
        assert_eq!(text(&last_segment_of(&chars(url), '/')), id, "{:?}", url);
        let by_std = url.split('/').filter(|s| !s.is_empty()).last().unwrap_or_default();
        assert_eq!(id, by_std);
    }
}

#[test]
fn find_char_gives_the_first_position_or_the_length() {
    let v = chars("a.b.c");
    assert_eq!(find_char(&v, '.', 0), 1);
    assert_eq!(find_char(&v, '.', 1), 1);
    assert_eq!(find_char(&v, '.', 2), 3);
    assert_eq!(find_char(&v, '.', 4), 5);
    assert_eq!(find_char(&v, '.', 5), 5);
    assert_eq!(find_char(&v, 'x', 0), 5);
}

#[test]
fn nth_field_agrees_with_std_split() {
    let samples = ["", "a", "a(b", "a(b(c", "(", "((", "Inception (2010)", "x(y)(z)"];
    for s in samples {
        for n in 0..5usize {
            let ours = nth_field(&chars(s), '(', n).map(|f| text(&f));
            let theirs = s.split('(').nth(n).map(|f| f.to_string());
            assert_eq!(ours, theirs, "{:?} field {}", s, n);
        }
    }
}

#[test]
fn slice_of_copies_the_range() {
    let v = chars("abcdef");
    assert_eq!(text(&slice_of(&v, 0, 6)), "abcdef");
    assert_eq!(text(&slice_of(&v, 2, 4)), "cd");
    assert_eq!(text(&slice_of(&v, 3, 3)), "");
}

#[test]
fn parse_i32_agrees_with_std() {
    let samples = [
        "0",
        "7",
        "2010",
        "+5",
        "-5",
        "-0",
        "+0",
        "0002010",
        "2147483647",
        "2147483648",
        "-2147483648",
        "-2147483649",
        "99999999999999999999",
        "",
        "-",
        "+",
        "+-1",
        "--1",
        "12a",
        "a12",
        " 12",
        "12 ",
        "1.5",
        "١٢",
    ];
    for s in samples {
        assert_eq!(parse_i32(&chars(s)), s.parse::<i32>().ok(), "{:?}", s);
    }
}

#[test]
fn parse_u32_agrees_with_std() {
    let samples = [
        "0",
        "1234",
        "+7",
        "-7",
        "-0",
        "4294967295",
        "4294967296",
        "42949672950",
        "",
        "+",
        "1,234",
        "12x",
    ];
    for s in samples {
        assert_eq!(parse_u32(&chars(s)), s.parse::<u32>().ok(), "{:?}", s);
    }
}

#[test]
fn parse_bounded_respects_its_bound() {
    assert_eq!(parse_bounded(&chars("65535"), 65535), Some(65535));
    assert_eq!(parse_bounded(&chars("+65535"), 65535), Some(65535));
    assert_eq!(parse_bounded(&chars("65536"), 65535), None);
    assert_eq!(parse_bounded(&chars("+"), 65535), None);
    assert_eq!(parse_bounded(&chars("++1"), 65535), None);
    assert_eq!(parse_bounded(&chars("-1"), 65535), None);
}

#[test]
fn read_digits_respects_its_bound() {
    assert_eq!(read_digits(&chars("255"), 0, 255), Some(255));
    assert_eq!(read_digits(&chars("256"), 0, 255), None);
    assert_eq!(read_digits(&chars("x42"), 1, 100), Some(42));
    assert_eq!(read_digits(&chars("x42"), 3, 100), None);
    assert_eq!(read_digits(&chars("18446744073709551615"), 0, u64::MAX), Some(u64::MAX));
    assert_eq!(read_digits(&chars("18446744073709551616"), 0, u64::MAX), None);
    assert_eq!(read_digits(&chars("7"), 0, 3), None);
    assert_eq!(read_digits(&chars("0"), 0, 0), Some(0));
}

#[test]
fn search_agrees_with_std() {
    let texts = ["", "a", "dilihat", "Diposting pada 1 Jan, dilihat 1,234", "aaa", "abcabc"];
    let patterns = ["", "a", "aa", "dilihat", "Diposting", "bc", "abcabcx"];
    for t in texts {
        for p in patterns {
            let (tv, pv) = (chars(t), chars(p));
            let by_chars = t.find(p).map(|byte| t[..byte].chars().count());
            assert_eq!(find_text(&tv, &pv), by_chars, "{:?} in {:?}", p, t);
            assert_eq!(find_text(&tv, &pv).is_some(), t.contains(p));
            assert_eq!(starts_with(&tv, &pv), t.starts_with(p));
        }
    }
}

#[test]
fn remove_char_takes_every_occurrence() {
    assert_eq!(text(&remove_char(&chars("1,234,567"), ',')), "1234567");
    assert_eq!(text(&remove_char(&chars(",,,"), ',')), "");
    assert_eq!(text(&remove_char(&chars("abc"), ',')), "abc");
}

#[test]
fn join_puts_the_separator_between_neighbours() {
    let none: Vec<String> = Vec::new();
    assert_eq!(text(&join(&none, " ")), "");
    assert_eq!(text(&join(&vec!["a".to_string()], " ")), "a");
    let three = vec!["a".to_string(), "".to_string(), "c".to_string()];
    assert_eq!(text(&join(&three, " ")), "a  c");
    assert_eq!(text(&join(&three, ", ")), three.join(", "));
}

#[test]
fn case_is_ignored_for_ascii_letters_only() {
    let pairs = [
        ("Content-Length", "content-length"),
        ("CONTENT-SECURITY-POLICY", "content-security-policy"),
        ("x-frame-options", "X-Frame-Options"),
        ("a", "b"),
        ("a", "ab"),
        ("", ""),
        ("é", "É"),
        ("@", "`"),
        ("[", "{"),
        ("K", "\u{212A}"),
    ];
    for (a, b) in pairs {
        assert_eq!(
            eq_ignore_ascii_case(&chars(a), &chars(b)),
            a.eq_ignore_ascii_case(b),
            "{:?} {:?}",
            a,
            b
        );
    }
}

#[test]
fn decimal_agrees_with_std() {
    for n in [0u64, 1, 9, 10, 11, 99, 100, 101, 2010, 4294967295, u64::MAX] {
        let mut out = chars("page ");
        push_decimal(n, &mut out);
        assert_eq!(text(&out), format!("page {}", n));
    }
}

#[test]
fn push_appends() {
    let mut out = chars("a");
    push_str("bc", &mut out);
    push_chars(&chars("de"), &mut out);
    push_str("", &mut out);
    assert_eq!(text(&out), "abcde");
}

#[test]
fn equality_of_texts() {
    assert!(str_eq("genres", "genres"));
    assert!(!str_eq("genres", "genre"));
    assert!(!str_eq("genres", "Genres"));
    assert!(str_eq("", ""));
    assert!(same_chars(&chars("ab"), &chars("ab")));
    assert!(!same_chars(&chars("ab"), &chars("ba")));
}
