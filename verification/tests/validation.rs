use reddit_embed::link::InvalidUrl;
use reddit_embed::utils::{resolve_redirect, Validation};

fn found(location: &str) -> Option<String> {
    Some(location.to_string())
}

#[test]
fn text_that_is_no_url_is_a_parse_error() {
    for raw in ["not a url", "", "reddit.com/r/rust", "//reddit.com/r/rust", "https://", "http://[::1"] {
        assert_eq!(reddit_embed::utils::validate_url(raw), Validation::Rejected(InvalidUrl::ParseError));
        assert_eq!(
            reddit_embed::validate_url::validate_url(raw).unwrap_err(),
            InvalidUrl::ParseError
        );
    }
}

#[test]
fn url_without_host_is_rejected_for_it() {
    for raw in ["mailto:someone@reddit.com", "data:text/plain,reddit.com", "unix:/run/reddit.com"] {
        assert_eq!(reddit_embed::utils::validate_url(raw), Validation::Rejected(InvalidUrl::NoHost));
        assert_eq!(reddit_embed::validate_url::validate_url(raw).unwrap_err(), InvalidUrl::NoHost);
    }
}

#[test]
fn foreign_host_is_a_wrong_domain() {
    for raw in ["https://example.com/post", "https://reddit.co/r/rust", "ftp://127.0.0.1/reddit.com"] {
        assert_eq!(
            reddit_embed::utils::validate_url(raw),
            Validation::Rejected(InvalidUrl::WrongDomain)
        );
        assert_eq!(
            reddit_embed::validate_url::validate_url(raw).unwrap_err(),
            InvalidUrl::WrongDomain
        );
    }
}

#[test]
fn query_is_dropped() {
    let raw = "https://reddit.com/r/test/comments/abc/title/?utm=1";
    let url = reddit_embed::validate_url::validate_url(raw).unwrap();
    assert_eq!(url.as_str(), "https://reddit.com/r/test/comments/abc/title/");
    assert_eq!(url.host(), "reddit.com");
    match reddit_embed::utils::validate_url(raw) {
        Validation::Accepted(url) => {
            assert_eq!(url.as_str(), "https://reddit.com/r/test/comments/abc/title/");
            assert_eq!(url.into_string(), "https://reddit.com/r/test/comments/abc/title/");
        }
        other => panic!("{:?}", other),
    }
}

#[test]
fn fragment_stays_when_query_goes() {
    let url = reddit_embed::validate_url::validate_url(
        "https://www.reddit.com/r/rust/comments/1/x/?a=b&c=d#top",
    )
    .unwrap();
    assert_eq!(url.as_str(), "https://www.reddit.com/r/rust/comments/1/x/#top");
    assert_eq!(url.host(), "www.reddit.com");
}

#[test]
fn url_is_serialized_as_parsed() {
    let url = reddit_embed::validate_url::validate_url("HTTPS://Old.Reddit.COM").unwrap();
    assert_eq!(url.as_str(), "https://old.reddit.com/");
    assert_eq!(url.host(), "old.reddit.com");
}

#[test]
fn domain_may_stand_anywhere_in_the_host() {
    let url = reddit_embed::validate_url::validate_url("https://reddit.com.example.org/x").unwrap();
    assert_eq!(url.host(), "reddit.com.example.org");
}

#[test]
fn short_link_asks_for_one_lookup() {
    assert_eq!(
        reddit_embed::utils::validate_url("https://redd.it/abc123?share=1"),
        Validation::Redirect("https://redd.it/abc123".to_string())
    );
}

#[test]
fn short_link_without_lookup_is_a_wrong_domain() {
    assert_eq!(
        reddit_embed::validate_url::validate_url("https://redd.it/abc123").unwrap_err(),
        InvalidUrl::WrongDomain
    );
}

#[test]
fn host_next_to_the_short_domain_is_no_short_link() {
    assert_eq!(
        reddit_embed::utils::validate_url("https://www.redd.it/abc123"),
        Validation::Rejected(InvalidUrl::WrongDomain)
    );
}

#[test]
fn resolved_location_is_checked_again() {
    let url = resolve_redirect(found("https://www.reddit.com/comments/abc123")).unwrap();
    assert_eq!(url.as_str(), "https://www.reddit.com/comments/abc123");
    assert_eq!(url.host(), "www.reddit.com");

    for elsewhere in ["https://example.com/", "https://example.com/reddit.com", "https://redd.it/abc123"] {
        assert_eq!(resolve_redirect(found(elsewhere)).unwrap_err(), InvalidUrl::WrongDomain);
    }
}

#[test]
fn resolved_location_loses_its_query() {
    let url = resolve_redirect(found("https://www.reddit.com/comments/abc123?rdt=1")).unwrap();
    assert_eq!(url.as_str(), "https://www.reddit.com/comments/abc123");
    assert_eq!(url.host(), "www.reddit.com");

    let shared = resolve_redirect(found("HTTPS://Old.Reddit.com/r/rust/comments/1/x/?share=1&utm=2#top"));
    assert_eq!(shared.unwrap().into_string(), "https://old.reddit.com/r/rust/comments/1/x/#top");
}

#[test]
fn resolved_location_that_is_not_read_is_a_wrong_domain() {
    for location in ["data:text/plain,reddit.com", "mailto:someone@reddit.com", "reddit.com", ""] {
        assert_eq!(resolve_redirect(found(location)).unwrap_err(), InvalidUrl::WrongDomain);
    }
}

#[test]
fn failed_lookup_is_a_failed_redirect() {
    assert_eq!(resolve_redirect(None).unwrap_err(), InvalidUrl::RedirectFailed);
}

#[test]
fn reading_gives_serialization_and_host() {
    let link = reddit_embed::link::read("https://user:pw@Example.com:8080/a b?q#f").unwrap();
    assert_eq!(link.as_str(), "https://user:pw@example.com:8080/a%20b#f");
    assert_eq!(link.host(), "example.com");
    assert_eq!(link.into_string(), "https://user:pw@example.com:8080/a%20b#f");
    let numeric = reddit_embed::link::read("http://[::1]/").unwrap();
    assert_eq!(numeric.host(), "[::1]");
    assert_eq!(reddit_embed::link::read("x").unwrap_err(), InvalidUrl::ParseError);
    assert_eq!(reddit_embed::link::read("mailto:x@reddit.com").unwrap_err(), InvalidUrl::NoHost);
}

#[test]
fn domain_rule_looks_at_the_host_only() {
    let accepted = reddit_embed::link::read("https://reddit.com/example.com").unwrap();
    let url = reddit_embed::link::judge(accepted).unwrap();
    assert_eq!(url.as_str(), "https://reddit.com/example.com");
    assert_eq!(url.host(), "reddit.com");
    let rejected = reddit_embed::link::read("https://example.com/reddit.com?reddit.com").unwrap();
    assert_eq!(reddit_embed::link::judge(rejected).unwrap_err(), InvalidUrl::WrongDomain);
    assert!(reddit_embed::link::is_short_host("redd.it"));
    assert!(!reddit_embed::link::is_short_host("reddit.com"));
}

#[test]
fn short_link_is_told_from_the_rest_once_read() {
    let short = reddit_embed::link::read("https://redd.it/abc123?x=1").unwrap();
    assert_eq!(
        reddit_embed::utils::check_link(short),
        Validation::Redirect("https://redd.it/abc123".to_string())
    );
    let foreign = reddit_embed::link::read("https://example.com/").unwrap();
    assert_eq!(
        reddit_embed::utils::check_link(foreign),
        Validation::Rejected(InvalidUrl::WrongDomain)
    );
}

#[test]
fn accepted_link_can_be_copied() {
    let url = reddit_embed::validate_url::validate_url("https://reddit.com/r/x?y=1").unwrap();
    let copy = url.clone();
    assert_eq!(copy, url);
    assert_eq!(copy.as_str(), "https://reddit.com/r/x");
    assert_eq!(copy.host(), "reddit.com");
}
