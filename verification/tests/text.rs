use mini_fintickstreams::counter::{bump, Summary};
use mini_fintickstreams::text::{
    append_int, append_nat, chars_eq, contains_sub, find_char, from_chars, nat_to_string,
    range_eq, replace_all, slice, splice, starts_with, str_eq, to_chars,
};

fn chars(s: &str) -> Vec<char> {
    s.chars().collect()
}

#[test]
fn texts_and_characters_convert_both_ways() {
    for s in ["", "abc", "héllo wörld", "日本語", "a\u{1F600}b"] {
        assert_eq!(to_chars(s), chars(s));
        assert_eq!(from_chars(&chars(s)), s);
    }
}

#[test]
fn texts_are_compared() {
    assert!(str_eq("", ""));
    assert!(str_eq("abc", "abc"));
    assert!(!str_eq("abc", "abd"));
    assert!(!str_eq("abc", "ab"));
    assert!(chars_eq(&chars("xyz"), &chars("xyz")));
    assert!(!chars_eq(&chars("xyz"), &chars("xy")));
    assert!(range_eq(&chars("hello"), 1, 4, &chars("ell")));
    assert!(!range_eq(&chars("hello"), 1, 4, &chars("el")));
    assert!(range_eq(&chars("hello"), 2, 2, &chars("")));
    assert!(starts_with(&chars("postgres://x"), &chars("postgres://")));
    assert!(starts_with(&chars("abc"), &chars("")));
    assert!(!starts_with(&chars("ab"), &chars("abc")));
    assert!(!starts_with(&chars("xabc"), &chars("abc")));
}

#[test]
fn characters_are_found() {
    let v = chars("a<b>c<d>");
    assert_eq!(find_char(&v, '<', 0), Some(1));
    assert_eq!(find_char(&v, '<', 1), Some(1));
    assert_eq!(find_char(&v, '<', 2), Some(5));
    assert_eq!(find_char(&v, '<', 6), None);
    assert_eq!(find_char(&v, '>', 100), None);
    assert_eq!(find_char(&chars(""), 'x', 0), None);
}

#[test]
fn parts_are_cut_and_replaced() {
    let v = chars("0123456789");
    assert_eq!(slice(&v, 2, 5), chars("234"));
    assert_eq!(slice(&v, 4, 4), chars(""));
    assert_eq!(splice(&v, 2, 5, &chars("xx")), chars("01xx56789"));
    assert_eq!(splice(&v, 0, 10, &chars("")), chars(""));
    assert_eq!(splice(&v, 10, 10, &chars("!")), chars("0123456789!"));
}

#[test]
fn occurrences_are_replaced_left_to_right() {
    let r = |s: &str, from: &str, to: &str| from_chars(&replace_all(&chars(s), &chars(from), &chars(to)));
    assert_eq!(r("a-b-c", "-", "+"), "a+b+c");
    assert_eq!(r("aaa", "aa", "b"), "ba");
    assert_eq!(r("aaaa", "aa", "a"), "aa");
    assert_eq!(r("abc", "abc", ""), "");
    assert_eq!(r("abc", "x", "y"), "abc");
    assert_eq!(r("abc", "abcd", "y"), "abc");
    assert_eq!(r("", "a", "b"), "");
    assert_eq!(r("{k}{k}", "{k}", "{k}{k}"), "{k}{k}{k}{k}");
    // An empty pattern leaves the text as it is.
    assert_eq!(r("abc", "", "-"), "abc");
    for (s, from, to) in [("stream:{e}:{s}", "{e}", "x"), ("ababab", "ab", "ba"), ("xxx", "x", "")] {
        assert_eq!(r(s, from, to), s.replace(from, to));
    }
}

#[test]
fn substrings_are_found() {
    assert!(contains_sub(&chars("stream:{kind}"), &chars("{kind}")));
    assert!(contains_sub(&chars("{kind}"), &chars("{kind}")));
    assert!(contains_sub(&chars("abc"), &chars("")));
    assert!(contains_sub(&chars(""), &chars("")));
    assert!(!contains_sub(&chars("stream:{kin}d"), &chars("{kind}")));
    assert!(!contains_sub(&chars("ab"), &chars("abc")));
}

#[test]
fn integers_are_written_in_decimal() {
    for n in [0u64, 7, 10, 99, 100, 1_234_567_890, u64::MAX] {
        assert_eq!(nat_to_string(n), n.to_string());
    }
    for v in [0i64, -1, 1, -10, 12345, i64::MAX, i64::MIN] {
        let mut s = String::from("x=");
        append_int(&mut s, v);
        assert_eq!(s, format!("x={}", v));
    }
    let mut s = String::from("n");
    append_nat(&mut s, 42);
    append_nat(&mut s, 0);
    assert_eq!(s, "n420");
}

#[test]
fn counters_hold_at_the_largest_value() {
    assert_eq!(bump(1, 2), 3);
    assert_eq!(bump(u64::MAX, 0), u64::MAX);
    assert_eq!(bump(u64::MAX - 1, 1), u64::MAX);
    assert_eq!(bump(u64::MAX - 1, 2), u64::MAX);
    assert_eq!(bump(u64::MAX, u64::MAX), u64::MAX);
    let mut s = Summary::new();
    s.observe(10);
    s.observe(u64::MAX);
    assert_eq!(s, Summary { count: 2, sum: u64::MAX });
}
