use patent_backend::text::{
    after_first_chars, char_is_whitespace, chars_of, clone_strings, copy_range, digit_of,
    join_strings, list_entries_of, push_decimal, same_text, signed_decimal_string, split_chars,
    starts_with, string_of, trim_chars,
};

fn chars(s: &str) -> Vec<char> {
    s.chars().collect()
}

fn text(v: &[char]) -> String {
    v.iter().collect()
}

const SAMPLES: [&str; 14] = [
    "",
    " ",
    "a",
    " a ",
    "\t\n a b \r\n",
    "a,b",
    ",",
    ",,",
    "a,,b,",
    ":x:y",
    "no separator",
    "\u{a0}\u{2003}x\u{3000}",
    "line one\nline two\n",
    "\n\nx",
];

#[test]
fn whitespace_is_what_std_calls_whitespace() {
    for code in 0..=0x10FFFFu32 {
        if let Some(c) = char::from_u32(code) {
            assert_eq!(char_is_whitespace(c), c.is_whitespace(), "U+{:04X}", code);
        }
    }
}

#[test]
fn trim_is_std_trim() {
    for s in SAMPLES {
        assert_eq!(text(&trim_chars(&chars(s))), s.trim());
    }
}

#[test]
fn split_is_std_split() {
    for s in SAMPLES {
        for sep in [',', '\n', ':'] {
            let got: Vec<String> = split_chars(&chars(s), sep).iter().map(|p| text(p)).collect();
            let want: Vec<String> = s.split(sep).map(|p| p.to_string()).collect();
            assert_eq!(got, want, "{:?} at {:?}", s, sep);
        }
    }
}

#[test]
fn split_of_empty_text_is_one_empty_piece() {
    assert_eq!(split_chars(&[], ','), vec![Vec::<char>::new()]);
}

#[test]
fn joined_pieces_give_the_text_back() {
    for s in SAMPLES {
        let pieces: Vec<String> = split_chars(&chars(s), ',').iter().map(|p| text(p)).collect();
        assert_eq!(join_strings(&pieces, ","), s);
    }
}

#[test]
fn join_puts_the_separator_between_neighbours() {
    let parts = vec!["a".to_string(), "b".to_string(), "c".to_string()];
    assert_eq!(join_strings(&parts, ", "), "a, b, c");
    assert_eq!(join_strings(&parts[..1].to_vec(), ", "), "a");
    assert_eq!(join_strings(&Vec::new(), ", "), "");
    assert_eq!(join_strings(&vec![String::new(), String::new()], "; "), "; ");
}

#[test]
fn after_first_is_the_rest_behind_the_separator() {
    assert_eq!(text(&after_first_chars(&chars("key: value: more"), ':')), " value: more");
    assert_eq!(text(&after_first_chars(&chars("nothing"), ':')), "");
    assert_eq!(text(&after_first_chars(&chars(":"), ':')), "");
    assert_eq!(text(&after_first_chars(&chars(""), ':')), "");
}

#[test]
fn list_entries_are_trimmed_pieces() {
    assert_eq!(list_entries_of(&chars(" 1, 2 ,3 ")), vec!["1", "2", "3"]);
    assert_eq!(list_entries_of(&chars("")), vec![""]);
    assert_eq!(list_entries_of(&chars(" , ")), vec!["", ""]);
}

#[test]
fn chars_and_strings_convert_both_ways() {
    for s in SAMPLES {
        assert_eq!(chars_of(s), chars(s));
        assert_eq!(string_of(&chars(s)), s);
    }
    assert_eq!(chars_of("h\u{e9}llo \u{1f600}").len(), 7);
}

#[test]
fn copy_range_takes_the_characters_between() {
    let s = chars("abcdef");
    assert_eq!(text(&copy_range(&s, 1, 4)), "bcd");
    assert_eq!(text(&copy_range(&s, 2, 2)), "");
    assert_eq!(text(&copy_range(&s, 0, 6)), "abcdef");
}

#[test]
fn starts_with_is_std_starts_with() {
    for s in SAMPLES {
        for p in ["", "a", " a", "line", ",", "no separator and more"] {
            assert_eq!(starts_with(&chars(s), &chars(p)), s.starts_with(p));
        }
    }
}

#[test]
fn same_text_compares_characters() {
    assert!(same_text("abc", "abc"));
    assert!(same_text("", ""));
    assert!(!same_text("abc", "abd"));
    assert!(!same_text("abc", "ab"));
    assert!(!same_text("", "a"));
}

#[test]
fn decimal_numerals() {
    for n in [0u128, 7, 10, 99, 100, 1234567890, u128::MAX] {
        let mut out = "n=".to_string();
        push_decimal(&mut out, n);
        assert_eq!(out, format!("n={}", n));
    }
    assert_eq!(signed_decimal_string(0), "0");
    assert_eq!(signed_decimal_string(-1), "-1");
    assert_eq!(signed_decimal_string(i64::MIN), i64::MIN.to_string());
    assert_eq!(signed_decimal_string(i64::MAX), i64::MAX.to_string());
    for d in 0..10u8 {
        assert_eq!(digit_of(d), (b'0' + d) as char);
    }
}

#[test]
fn clone_strings_copies() {
    let v = vec!["a".to_string(), "".to_string(), "c d".to_string()];
    assert_eq!(clone_strings(&v), v);
    assert!(clone_strings(&Vec::new()).is_empty());
}
