use pinepods_api::text::{
    chars_of, contains, decimal, same, second_segment, trim, trim_end, CharClass,
};

#[test]
fn white_space_is_that_of_unicode() {
    for code in 0..=0x10ffffu32 {
        if let Some(c) = char::from_u32(code) {
            assert_eq!(CharClass::WhiteSpace.contains(c), c.is_whitespace(), "U+{code:04X}");
        }
    }
}

#[test]
fn trimming_cuts_both_ends() {
    assert_eq!(trim("  a b\t\n"), "a b");
    assert_eq!(trim("\u{3000}x\u{a0}"), "x");
    assert_eq!(trim(" \n "), "");
    assert_eq!(trim(""), "");
}

#[test]
fn trimming_the_end_cuts_a_class() {
    assert_eq!(trim_end("https://a.b//", CharClass::Slash), "https://a.b");
    assert_eq!(trim_end("secret \r\n", CharClass::LineEnd), "secret ");
    assert_eq!(trim_end("\n\nsecret", CharClass::LineEnd), "\n\nsecret");
    assert_eq!(trim_end("///", CharClass::Slash), "");
}

#[test]
fn parts_are_found() {
    assert!(contains("https://api.telegram.org/bot", "api.telegram.org"));
    assert!(!contains("https://api.telegram.or", "api.telegram.org"));
    assert!(contains("abc", ""));
    assert!(!contains("", "a"));
    assert!(contains("aab", "ab"));
}

#[test]
fn second_segments() {
    assert_eq!(second_segment("bot:chat:x", ':'), Some("chat"));
    assert_eq!(second_segment("bot:", ':'), Some(""));
    assert_eq!(second_segment("bot", ':'), None);
    assert_eq!(second_segment("::", ':'), Some(""));
}

#[test]
fn decimals() {
    for n in [0, 7, -1, 10, 4096, i32::MAX, i32::MIN] {
        assert_eq!(decimal(n), n.to_string());
    }
}

#[test]
fn characters_and_sameness() {
    assert_eq!(chars_of("aé日"), vec!['a', 'é', '日']);
    assert!(same("é", "é"));
    assert!(!same("a", "A"));
}
