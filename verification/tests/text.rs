use oxygen::text;

fn chars(s: &str) -> Vec<char> {
    s.chars().collect()
}

fn strings(v: Vec<Vec<char>>) -> Vec<String> {
    v.into_iter().map(|l| l.into_iter().collect()).collect()
}

fn samples() -> Vec<&'static str> {
    vec![
        "",
        " ",
        "\n",
        "\r\n",
        "a",
        "a\n",
        "a\nb",
        "a\r\nb\r\n",
        "a\n\nb",
        "\n\na",
        "a\r",
        "a\rb\n",
        "a\r\r\n",
        "  leading",
        "trailing  ",
        "  both  ",
        "\t tabs\tand spaces \t",
        "one two  three   four",
        "serde 1.0 default,derive",
        "    tokio v1.0 (proc-macro) full",
        "stable-x86_64-unknown-linux-gnu (default)",
        "(default)(default) x (default)",
        "(defaul(default)t)",
        "héllo wörld\u{a0}non breaking",
        "\u{2003}em space\u{3000}",
        "host: host: x86_64",
        "host:x",
        "a|b|c|d|e",
        "||",
        "12.5% 300.0KB std",
        "aaa",
        "aaaa",
        "abababab",
    ]
}

#[test]
fn chars_of_and_string_of_are_inverse() {
    for s in samples() {
        assert_eq!(text::chars_of(s), chars(s));
        assert_eq!(text::string_of(&chars(s)), s);
    }
}

#[test]
fn is_whitespace_is_the_standard_one_for_every_character() {
    for n in 0..=0x10FFFFu32 {
        if let Some(c) = char::from_u32(n) {
            assert_eq!(text::is_whitespace(c), c.is_whitespace(), "at {:x}", n);
        }
    }
}

#[test]
fn trimmed_is_the_standard_trim() {
    for s in samples() {
        let got: String = text::trimmed(&chars(s)).into_iter().collect();
        assert_eq!(got, s.trim(), "for {:?}", s);
    }
}

#[test]
fn leading_and_trailing_spaces_are_counted_in_characters() {
    assert_eq!(text::count_leading_spaces(&chars("    x")), 4);
    assert_eq!(text::count_leading_spaces(&chars("\u{2003}\u{2003}x ")), 2);
    assert_eq!(text::count_leading_spaces(&chars("x")), 0);
    assert_eq!(text::count_leading_spaces(&chars("   ")), 3);
    assert_eq!(text::count_trailing_spaces(&chars(" x  ")), 2);
    assert_eq!(text::count_trailing_spaces(&chars("")), 0);
}

#[test]
fn split_lines_is_the_standard_lines() {
    for s in samples() {
        let expected: Vec<String> = s.lines().map(|l| l.to_string()).collect();
        assert_eq!(strings(text::split_lines(&chars(s))), expected, "for {:?}", s);
    }
}

#[test]
fn split_lines_keeps_a_carriage_return_that_ends_the_text() {
    assert_eq!(strings(text::split_lines(&chars("a\r\nb\r"))), vec!["a", "b\r"]);
    assert_eq!(strings(text::split_lines(&chars("a\n"))), vec!["a"]);
    assert!(text::split_lines(&chars("")).is_empty());
    assert_eq!(strings(text::split_lines(&chars("\n"))), vec![""]);
}

#[test]
fn split_words_is_the_standard_split_whitespace() {
    for s in samples() {
        let expected: Vec<String> = s.split_whitespace().map(|l| l.to_string()).collect();
        assert_eq!(strings(text::split_words(&chars(s))), expected, "for {:?}", s);
    }
}

#[test]
fn split_on_is_the_standard_split() {
    for s in samples() {
        for c in ['|', ' ', 'a', '\n'] {
            let expected: Vec<String> = s.split(c).map(|l| l.to_string()).collect();
            assert_eq!(strings(text::split_on(&chars(s), c)), expected, "for {:?}", s);
        }
    }
}

#[test]
fn split_at_first_is_the_standard_split_once() {
    for s in samples() {
        let got = text::split_at_first(&chars(s), ' ')
            .map(|(a, b)| (a.into_iter().collect::<String>(), b.into_iter().collect::<String>()));
        let expected = s.split_once(' ').map(|(a, b)| (a.to_string(), b.to_string()));
        assert_eq!(got, expected, "for {:?}", s);
    }
}

#[test]
fn includes_is_the_standard_contains() {
    for s in samples() {
        for p in ["", "a", "(default)", "ab", "aa", "host:", "KB", " ", "\n", "xyzzy"] {
            assert_eq!(text::includes(&chars(s), &chars(p)), s.contains(p), "{:?} in {:?}", p, s);
        }
        assert_eq!(text::has_char(&chars(s), '%'), s.contains('%'));
    }
}

#[test]
fn matches_at_is_the_standard_starts_with_from_an_index() {
    let s = chars("abcabc");
    assert!(text::matches_at(&s, &chars("abc"), 0));
    assert!(text::matches_at(&s, &chars("abc"), 3));
    assert!(!text::matches_at(&s, &chars("abc"), 1));
    assert!(!text::matches_at(&s, &chars("abc"), 4));
    assert!(text::matches_at(&s, &chars(""), 6));
    assert!(!text::matches_at(&s, &chars(""), 7));
}

#[test]
fn remove_all_is_the_standard_replace_with_nothing() {
    for s in samples() {
        for p in ["", "a", "(default)", "ab", "aa", "aba", " "] {
            let got: String = text::remove_all(&chars(s), &chars(p)).into_iter().collect();
            assert_eq!(got, s.replace(p, ""), "{:?} out of {:?}", p, s);
        }
    }
}

#[test]
fn strip_leading_is_the_standard_trim_start_matches() {
    for s in samples() {
        for p in ["", "a", "host: ", "ab", "aa", " "] {
            let got: String = text::strip_leading(&chars(s), &chars(p)).into_iter().collect();
            assert_eq!(got, s.trim_start_matches(p), "{:?} off {:?}", p, s);
        }
    }
}

#[test]
fn join_from_is_the_standard_join() {
    let parts: Vec<Vec<char>> = vec![chars("a"), chars("bc"), chars(""), chars("d")];
    let sep = chars(", ");
    for from in 0..=parts.len() {
        let expected = parts[from..]
            .iter()
            .map(|p| p.iter().collect::<String>())
            .collect::<Vec<_>>()
            .join(", ");
        let got: String = text::join_from(&parts, from, &sep).into_iter().collect();
        assert_eq!(got, expected);
    }
}

#[test]
fn decimal_chars_is_the_standard_to_string() {
    for n in [0u128, 1, 9, 10, 11, 99, 100, 101, 12345, u64::MAX as u128, u128::MAX] {
        let got: String = text::decimal_chars(n).into_iter().collect();
        assert_eq!(got, n.to_string());
    }
}

#[test]
fn same_and_str_eq_compare_contents() {
    assert!(text::same(&chars("abc"), &chars("abc")));
    assert!(!text::same(&chars("abc"), &chars("abd")));
    assert!(!text::same(&chars("abc"), &chars("ab")));
    assert!(text::str_eq("", ""));
    assert!(text::str_eq("commit", "commit"));
    assert!(!text::str_eq("commit", "Commit"));
}

#[test]
fn slice_and_extend_and_joins() {
    assert_eq!(text::slice(&chars("hello"), 1, 3), chars("el"));
    assert_eq!(text::slice(&chars("hello"), 5, 5), chars(""));
    let mut v = chars("ab");
    text::extend(&mut v, &chars("cd"));
    assert_eq!(v, chars("abcd"));
    assert_eq!(text::join2("a", "b"), "ab");
    assert_eq!(text::join3("a", "b", "c"), "abc");
    assert_eq!(text::join4("a", "b", "c", "d"), "abcd");
    assert_eq!(text::find_char(&chars("a,b,c"), 2, ','), 3);
    assert_eq!(text::find_char(&chars("a,b,c"), 4, ','), 5);
    assert_eq!(text::digit_char(7), '7');
}
