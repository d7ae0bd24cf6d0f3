//! Validation of a candidate text where no lookup can be made: a short link
//! is then judged by its own host, and so rejected.

use crate::link::{
    judge, judged, lemma_domain_in_host, lemma_read_is_stripped, post_domain, query_dropped, read,
    read_link, url_host, url_parsed, was_read, InvalidUrl, LinkView, NormalizedUrl,
};
use crate::text::contains_text;
use vstd::prelude::*;

verus! {

/// What validation without lookups makes of `raw`: the link that the pure
/// steps read, under the domain rule.
pub open spec fn validated(raw: Seq<char>) -> Result<LinkView, InvalidUrl> {
    match read_link(raw) {
        Err(e) => Err(e),
        Ok(link) => judged(link),
    }
}

/// Validates `raw` as a link to a post: parses it, drops its query, asks for
/// a host and applies the domain rule.
pub fn validate_url(raw: &str) -> (r: Result<NormalizedUrl, InvalidUrl>)
    ensures
        match r {
            Ok(url) => validated(raw@) == Ok::<LinkView, InvalidUrl>(url@),
            Err(e) => validated(raw@) == Err::<LinkView, InvalidUrl>(e),
        },
{
    match read(raw) {
        Err(e) => Err(e),
        Ok(link) => judge(link),
    }
}

/// A text that is not an absolute URL is rejected as a parse error.
pub proof fn law_unparsable_is_parse_error(raw: Seq<char>)
    requires
        url_parsed(raw) is None,
    ensures
        validated(raw) == Err::<LinkView, InvalidUrl>(InvalidUrl::ParseError),
{
}

/// A URL whose host does not hold the post domain is rejected for its domain.
pub proof fn law_foreign_host_is_wrong_domain(raw: Seq<char>, link: LinkView)
    requires
        read_link(raw) == Ok::<LinkView, InvalidUrl>(link),
        !contains_text(link.host, post_domain()),
    ensures
        validated(raw) == Err::<LinkView, InvalidUrl>(InvalidUrl::WrongDomain),
{
}

/// Whatever is accepted was read from the text: it is a serialization from
/// which the query was dropped, with the host that this serialization has,
/// and that host holds the post domain, and so is not empty.
pub proof fn law_accepted_is_normalized(raw: Seq<char>, link: LinkView)
    requires
        validated(raw) == Ok::<LinkView, InvalidUrl>(link),
    ensures
        read_link(raw) == Ok::<LinkView, InvalidUrl>(link),
        query_dropped(link.href),
        url_host(link.href) == Some(Some(link.host)),
        contains_text(link.host, post_domain()),
        link.host.len() > 0,
{
    assert(was_read(link));
    lemma_read_is_stripped(link);
    lemma_domain_in_host(link.host);
}

} // verus!
