use webaudioprov::text::{contains_text, found_at, same_text, to_decimal};

#[test]
fn decimal_writing() {
    assert_eq!(to_decimal(0), "0");
    assert_eq!(to_decimal(7), "7");
    assert_eq!(to_decimal(10), "10");
    assert_eq!(to_decimal(1234567890), "1234567890");
    assert_eq!(to_decimal(u64::MAX), "18446744073709551615");
    for n in [9u64, 99, 100, 101, 65535, 4294967296] {
        assert_eq!(to_decimal(n), n.to_string());
    }
}

#[test]
fn text_equality() {
    assert!(same_text("mp4", "mp4"));
    assert!(!same_text("mp4", "mp3"));
    assert!(!same_text("mp4", "mp"));
    assert!(!same_text("mp", "mp4"));
    assert!(same_text("", ""));
    assert!(same_text("\u{e9}a", "\u{e9}a"));
}

#[test]
fn substring_search() {
    assert!(contains_text("https://i.example/maxresdefault.jpg", "maxres"));
    assert!(!contains_text("https://i.example/hqdefault.jpg", "maxres"));
    assert!(contains_text("maxres", "maxres"));
    assert!(!contains_text("maxre", "maxres"));
    assert!(contains_text("anything", ""));
    assert!(contains_text("", ""));
    assert!(!contains_text("", "a"));
    assert!(contains_text("\u{e9}maxres", "maxres"));
    assert!(contains_text("mamaxres", "maxres"));
}

#[test]
fn match_at_a_position() {
    assert!(found_at("abcabc", "bc", 1));
    assert!(found_at("abcabc", "bc", 4));
    assert!(!found_at("abcabc", "bc", 0));
    assert!(!found_at("abcabc", "bc", 5));
    assert!(found_at("abc", "", 3));
    assert!(!found_at("abc", "", 4));
}
