use rust_host_func::boundary::count_google;
use rust_host_func::say;
use rust_host_func::text::{chars_of, count_occurrences, reverse_text, string_of};

#[test]
fn reversal_of_characters() {
    assert_eq!(reverse_text("hi"), "ih");
    assert_eq!(reverse_text(""), "");
    assert_eq!(reverse_text("héllo"), "olléh");
}

#[test]
fn reversal_twice_is_identity() {
    for t in ["", "a", "abc", "日本語 text", "a\u{301}b"] {
        assert_eq!(reverse_text(&reverse_text(t)), t);
    }
}

#[test]
fn counting_is_case_sensitive() {
    assert_eq!(count_google("google Google google"), 2);
    assert_eq!(count_google(""), 0);
}

#[test]
fn counting_does_not_overlap() {
    assert_eq!(count_occurrences("aaaa", "aa"), 2);
    assert_eq!(count_occurrences("abcabc", "bc"), 2);
    assert_eq!(count_occurrences("abc", ""), 0);
    assert_eq!(count_occurrences("go", "google"), 0);
}

#[test]
fn greeting() {
    assert_eq!(say("world"), "hello world");
    assert_eq!(say(""), "hello ");
}

#[test]
fn chars_round_trip() {
    let cs = chars_of("añb");
    assert_eq!(cs, vec!['a', 'ñ', 'b']);
    assert_eq!(string_of(&cs), "añb");
}
