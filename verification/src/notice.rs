//! The texts that the handler sends.

use crate::post::PostSummaryView;
use crate::text::{decimal, decimal_text};
use vstd::prelude::*;
use vstd::string::*;

verus! {

/// The notice that a text is no link to a post.
pub open spec fn invalid_url_text(url: Seq<char>, sender: Seq<char>) -> Seq<char> {
    "Invalid url: `"@ + url + "`. Sent by: @"@ + sender
}

/// The end of a notice about the metadata: the reason is followed by the
/// link and the sender.
pub open spec fn about_request(reason: Seq<char>, url: Seq<char>, sender: Seq<char>) -> Seq<
    char,
> {
    reason + ".\nUrl: `"@ + url + "`.\nSent by: @"@ + sender
}

/// The notice that the metadata could not be requested.
pub open spec fn unreachable_text(reason: Seq<char>, url: Seq<char>, sender: Seq<char>) -> Seq<
    char,
> {
    "Couldn't talk to reddit: "@ + about_request(reason, url, sender)
}

/// The notice that the metadata could not be read.
pub open spec fn unreadable_text(reason: Seq<char>, url: Seq<char>, sender: Seq<char>) -> Seq<
    char,
> {
    "Failed to understand what reddit said: "@ + about_request(reason, url, sender)
}

/// The reason given where a response holds no post.
pub open spec fn shape_reason() -> Seq<char> {
    "the response does not describe a post"@
}

/// The notice that a message of another kind than a common one came in.
pub open spec fn unexpected_kind_text() -> Seq<char> {
    "Unexpected kind of message received"@
}

/// The placeholder shown while the preview is fetched.
pub open spec fn placeholder_text() -> Seq<char> {
    "Getting preview..."@
}

/// The notice that there is no preview.
pub open spec fn no_preview_text() -> Seq<char> {
    "Couldn't get preview from reddit :("@
}

/// The notice that the preview could not be requested.
pub open spec fn preview_failed_text(reason: Seq<char>) -> Seq<char> {
    "Couldn't get preview from reddit: "@ + reason
}

/// The summary of a post, in HTML: the title in bold, then a line with the
/// author and the subreddit as links, the sender, the score in decimal, and a
/// link to the post.
pub open spec fn summary_text(summary: PostSummaryView, sender: Seq<char>, url: Seq<char>) -> Seq<
    char,
> {
    "<b>"@ + summary.title + "</b>\nBy <a href=\"https://reddit.com/u/"@ + summary.author
        + "\">u/"@ + summary.author + "</a> in <a href=\"https://reddit.com/r/"@
        + summary.subreddit + "\">r/"@ + summary.subreddit + "</a>\nSent by: @"@ + sender
        + "\nVotes: "@ + decimal_text(summary.score) + "\n<a href=\""@ + url
        + "\">Post link</a>"@
}

/// The address of the metadata of a post.
pub open spec fn metadata_url(href: Seq<char>) -> Seq<char> {
    href + ".json"@
}

/// Composes the notice that a text is no link to a post.
pub fn invalid_url_notice(url: &str, sender: &str) -> (r: String)
    ensures
        r@ == invalid_url_text(url@, sender@),
{
    let mut r = String::from_str("Invalid url: `");
    r.append(url);
    r.append("`. Sent by: @");
    r.append(sender);
    r
}

/// Composes the end of a notice about the metadata.
fn request_tail(reason: &str, url: &str, sender: &str) -> (r: String)
    ensures
        r@ == about_request(reason@, url@, sender@),
{
    let mut r = String::from_str(reason);
    r.append(".\nUrl: `");
    r.append(url);
    r.append("`.\nSent by: @");
    r.append(sender);
    r
}

/// Composes the notice that the metadata could not be requested.
pub fn unreachable_notice(reason: &str, url: &str, sender: &str) -> (r: String)
    ensures
        r@ == unreachable_text(reason@, url@, sender@),
{
    let tail = request_tail(reason, url, sender);
    let mut r = String::from_str("Couldn't talk to reddit: ");
    r.append(tail.as_str());
    r
}

/// Composes the notice that the metadata could not be read.
pub fn unreadable_notice(reason: &str, url: &str, sender: &str) -> (r: String)
    ensures
        r@ == unreadable_text(reason@, url@, sender@),
{
    let tail = request_tail(reason, url, sender);
    let mut r = String::from_str("Failed to understand what reddit said: ");
    r.append(tail.as_str());
    r
}

/// Composes the notice that the preview could not be requested.
pub fn preview_failed_notice(reason: &str) -> (r: String)
    ensures
        r@ == preview_failed_text(reason@),
{
    let mut r = String::from_str("Couldn't get preview from reddit: ");
    r.append(reason);
    r
}

/// Composes the summary of a post.
pub fn summary_notice(
    title: &str,
    subreddit: &str,
    author: &str,
    score: i64,
    sender: &str,
    url: &str,
) -> (r: String)
    ensures
        r@ == "<b>"@ + title@ + "</b>\nBy <a href=\"https://reddit.com/u/"@ + author@
            + "\">u/"@ + author@ + "</a> in <a href=\"https://reddit.com/r/"@ + subreddit@
            + "\">r/"@ + subreddit@ + "</a>\nSent by: @"@ + sender@ + "\nVotes: "@
            + decimal_text(score as int) + "\n<a href=\""@ + url@ + "\">Post link</a>"@,
{
    let votes = decimal(score);
    let mut r = String::from_str("<b>");
    r.append(title);
    r.append("</b>\nBy <a href=\"https://reddit.com/u/");
    r.append(author);
    r.append("\">u/");
    r.append(author);
    r.append("</a> in <a href=\"https://reddit.com/r/");
    r.append(subreddit);
    r.append("\">r/");
    r.append(subreddit);
    r.append("</a>\nSent by: @");
    r.append(sender);
    r.append("\nVotes: ");
    r.append(votes.as_str());
    r.append("\n<a href=\"");
    r.append(url);
    r.append("\">Post link</a>");
    r
}

/// The address of the metadata of the post at `href`.
pub fn metadata_address(href: &str) -> (r: String)
    ensures
        r@ == metadata_url(href@),
{
    let mut r = String::from_str(href);
    r.append(".json");
    r
}

} // verus!
