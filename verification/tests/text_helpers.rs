use guillotine::text::{decimal_text, last_segment, same};

#[test]
fn decimal_text_writes_small_numbers() {
    assert_eq!(decimal_text(0), "0");
    assert_eq!(decimal_text(7), "7");
    assert_eq!(decimal_text(10), "10");
    assert_eq!(decimal_text(2017), "2017");
}

#[test]
fn decimal_text_writes_negative_numbers() {
    assert_eq!(decimal_text(-1), "-1");
    assert_eq!(decimal_text(-120), "-120");
}

#[test]
fn decimal_text_writes_the_extremes() {
    assert_eq!(decimal_text(i64::MAX), "9223372036854775807");
    assert_eq!(decimal_text(i64::MIN), "-9223372036854775808");
}

#[test]
fn last_segment_is_what_follows_the_last_separator() {
    assert_eq!(last_segment("m.room.topic", '.'), "topic");
    assert_eq!(last_segment("/home/user/cat.png", '/'), "cat.png");
    assert_eq!(last_segment("https://matrix.org", '/'), "matrix.org");
}

#[test]
fn last_segment_of_a_text_without_separator_is_the_text() {
    assert_eq!(last_segment("topic", '.'), "topic");
    assert_eq!(last_segment("", '.'), "");
}

#[test]
fn last_segment_after_a_trailing_separator_is_empty() {
    assert_eq!(last_segment("a/b/", '/'), "");
}

#[test]
fn last_segment_counts_characters_not_bytes() {
    assert_eq!(last_segment("héllo/wörld", '/'), "wörld");
    assert_eq!(last_segment("日本/語", '/'), "語");
}

#[test]
fn same_compares_contents() {
    assert!(same("join", "join"));
    assert!(!same("join", "joined"));
    assert!(!same("", "x"));
    assert!(same("", ""));
}
