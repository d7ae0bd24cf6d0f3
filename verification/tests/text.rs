use reddit_embed::text::{chars_of, contains, decimal, natural, same_text};
use reddit_embed::utils::{get_sender, User};

#[test]
fn decimal_numerals() {
    assert_eq!(decimal(0), "0");
    assert_eq!(decimal(7), "7");
    assert_eq!(decimal(10), "10");
    assert_eq!(decimal(12345), "12345");
    assert_eq!(decimal(-1), "-1");
    assert_eq!(decimal(-120), "-120");
    assert_eq!(decimal(i64::MAX), "9223372036854775807");
    assert_eq!(decimal(i64::MIN), "-9223372036854775808");
    assert_eq!(natural(u64::MAX), "18446744073709551615");
    assert_eq!(natural(1000), "1000");
}

#[test]
fn substring_search() {
    assert!(contains("www.reddit.com", "reddit.com"));
    assert!(contains("reddit.com", "reddit.com"));
    assert!(contains("reddit.com.example.org", "reddit.com"));
    assert!(contains("abc", ""));
    assert!(contains("", ""));
    assert!(!contains("", "a"));
    assert!(!contains("redd.it", "reddit.com"));
    assert!(!contains("reddit.co", "reddit.com"));
    assert!(!contains("reddit.cOm", "reddit.com"));
    assert!(contains("aab", "ab"));
    assert!(contains("r\u{e9}ddit.com", "ddit"));
}

#[test]
fn text_comparison() {
    assert!(same_text("redd.it", "redd.it"));
    assert!(!same_text("redd.it", "Redd.it"));
    assert!(!same_text("redd.it", "redd.it "));
    assert_eq!(chars_of("a\u{e9}z"), vec!['a', '\u{e9}', 'z']);
    assert_eq!(chars_of(""), Vec::<char>::new());
}

#[test]
fn sender_is_shown_by_username_first() {
    let user = User {
        username: Some("alice".to_string()),
        first_name: "Alice".to_string(),
        last_name: Some("Liddell".to_string()),
    };
    assert_eq!(get_sender(Some(&user)), "alice");
}

#[test]
fn sender_without_username_is_shown_by_name() {
    let both = User {
        username: None,
        first_name: "Alice".to_string(),
        last_name: Some("Liddell".to_string()),
    };
    assert_eq!(get_sender(Some(&both)), "Alice Liddell");
    let first_only = User { username: None, first_name: "Alice".to_string(), last_name: None };
    assert_eq!(get_sender(Some(&first_only)), "Alice");
}

#[test]
fn unknown_sender_is_a_deleted_user() {
    assert_eq!(get_sender(None), "deleted_user");
}
