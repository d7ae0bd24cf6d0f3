use reddit_embed::notice::{
    invalid_url_notice, metadata_address, preview_failed_notice, summary_notice,
    unreachable_notice, unreadable_notice,
};

#[test]
fn invalid_url_notice_names_text_and_sender() {
    assert_eq!(
        invalid_url_notice("https://example.com/post", "alice"),
        "Invalid url: `https://example.com/post`. Sent by: @alice"
    );
    assert_eq!(invalid_url_notice("", ""), "Invalid url: ``. Sent by: @");
}

#[test]
fn metadata_notices_name_reason_link_and_sender() {
    assert_eq!(
        unreachable_notice("connection refused", "https://reddit.com/x", "bob"),
        "Couldn't talk to reddit: connection refused.\nUrl: `https://reddit.com/x`.\nSent by: @bob"
    );
    assert_eq!(
        unreadable_notice("expected value at line 1 column 1", "https://reddit.com/x", "bob"),
        "Failed to understand what reddit said: expected value at line 1 column 1.\nUrl: `https://reddit.com/x`.\nSent by: @bob"
    );
}

#[test]
fn preview_notice_names_the_reason() {
    assert_eq!(preview_failed_notice("timed out"), "Couldn't get preview from reddit: timed out");
}

#[test]
fn summary_is_laid_out_in_html() {
    assert_eq!(
        summary_notice("Tom & Jerry", "rust", "ferris", 42, "alice", "https://reddit.com/r/rust/comments/1/x/"),
        "<b>Tom & Jerry</b>\nBy <a href=\"https://reddit.com/u/ferris\">u/ferris</a> in <a href=\"https://reddit.com/r/rust\">r/rust</a>\nSent by: @alice\nVotes: 42\n<a href=\"https://reddit.com/r/rust/comments/1/x/\">Post link</a>"
    );
    assert!(summary_notice("t", "s", "a", -7, "x", "u").contains("\nVotes: -7\n"));
}

#[test]
fn metadata_address_appends_the_suffix() {
    assert_eq!(
        metadata_address("https://reddit.com/r/rust/comments/1/x/"),
        "https://reddit.com/r/rust/comments/1/x/.json"
    );
}
