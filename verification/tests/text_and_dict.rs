use wxplus::dict::Dict;
use wxplus::text::{
    chars_of, contains_str, i32_to_string, parse_i32, replace_all, split_string,
    string_from_chars, u32_to_string,
};

#[test]
fn chars_round_trip() {
    let cs = chars_of("微信 ok");
    assert_eq!(cs, vec!['微', '信', ' ', 'o', 'k']);
    assert_eq!(string_from_chars(&cs), "微信 ok");
}

#[test]
fn split_keeps_empty_pieces() {
    assert_eq!(split_string("a,,b", ','), vec!["a", "", "b"]);
    assert_eq!(split_string("", ','), vec![""]);
    assert_eq!(split_string(",", ','), vec!["", ""]);
    assert_eq!(split_string("微信,WeChat", ','), vec!["微信", "WeChat"]);
}

#[test]
fn split_then_join_gives_back_the_string() {
    for s in ["a,b,c", ",x,", "", "no separators", ",,"] {
        let pieces = split_string(s, ',');
        assert_eq!(pieces.join(","), s);
        assert!(pieces.iter().all(|p| !p.contains(',')));
    }
}

#[test]
fn substring_search() {
    assert!(contains_str("/Applications/A.app/Contents/MacOS", "Contents/MacOS"));
    assert!(!contains_str("/usr/bin", "Contents/MacOS"));
    assert!(contains_str("abc", ""));
    assert!(!contains_str("", "a"));
    assert!(contains_str("aab", "ab"));
}

#[test]
fn replacement_is_left_to_right_and_non_overlapping() {
    assert_eq!(replace_all("aaa", "aa", "b"), "ba");
    assert_eq!(replace_all("x{{t}}y{{t}}", "{{t}}", "Z"), "xZyZ");
    assert_eq!(replace_all("none here", "{{t}}", "Z"), "none here");
    assert_eq!(replace_all("abab", "ab", "ab"), "abab");
    for (t, from, to) in [("ab", "", "x"), ("", "", "x"), ("微信", "", "-"), ("", "a", "b"), ("aXbX", "X", "")] {
        assert_eq!(replace_all(t, from, to), t.replace(from, to));
    }
}

#[test]
fn decimal_notation() {
    assert_eq!(u32_to_string(0), "0");
    assert_eq!(u32_to_string(4294967295), "4294967295");
    assert_eq!(i32_to_string(-2147483648), "-2147483648");
    assert_eq!(i32_to_string(2147483647), "2147483647");
    assert_eq!(i32_to_string(-7), "-7");
    assert_eq!(i32_to_string(105), "105");
}

#[test]
fn parsing_matches_std() {
    let cases = [
        "123", "-42", "+7", "", "-", "+", "2147483647", "2147483648", "-2147483648",
        "-2147483649", "12a", " 1", "1 ", "007", "-0", "99999999999999999999", "١٢",
    ];
    for s in cases {
        assert_eq!(parse_i32(s), s.parse::<i32>().ok(), "input {:?}", s);
    }
}

#[test]
fn parse_gives_back_formatted_numbers() {
    for n in [0, 1, -1, 42, -42, i32::MAX, i32::MIN, 1000000] {
        assert_eq!(parse_i32(&i32_to_string(n)), Some(n));
    }
    for n in [0u32, 77, 2147483647] {
        assert_eq!(parse_i32(&u32_to_string(n)), Some(n as i32));
    }
    assert_eq!(parse_i32(&u32_to_string(2147483648)), None);
}

#[test]
fn dictionary_reads_what_was_written() {
    let mut d = Dict::new();
    assert!(d.is_empty());
    assert_eq!(d.get("session_id"), None);
    d.insert("session_id".to_string(), "abc".to_string());
    d.insert("append_apps".to_string(), "QQ".to_string());
    assert_eq!(d.get("session_id"), Some("abc".to_string()));
    d.insert("session_id".to_string(), "def".to_string());
    assert_eq!(d.get("session_id"), Some("def".to_string()));
    assert_eq!(d.get("append_apps"), Some("QQ".to_string()));
    assert_eq!(d.len(), 2);
    assert!(!d.is_empty());
}
