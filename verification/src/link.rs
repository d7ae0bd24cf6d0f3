//! Links to posts: what the `url` crate makes of a text, the two domains the
//! validator knows, and the rules that accept or reject a link.

use crate::text::{contains, contains_text, occurs_at, same_text};
use vstd::prelude::*;
use vstd::string::*;

verus! {

/// The error of `url::Url::parse`, carried through without being read.
#[verifier::external_type_specification]
#[verifier::external_body]
pub struct ExParseError(url::ParseError);

/// The serialization of the URL that `url::Url::parse` makes of `raw`;
/// `None` where it refuses `raw`.
pub uninterp spec fn url_parsed(raw: Seq<char>) -> Option<Seq<char>>;

/// The serialization, once `url::Url::set_query(None)` has been applied, of
/// the URL that `href` parses to; `None` where `href` does not parse.
pub uninterp spec fn url_without_query(href: Seq<char>) -> Option<Seq<char>>;

/// The text of `url::Url::host` for the URL that `href` parses to: the outer
/// `None` where `href` does not parse, the inner one where the URL has no host.
pub uninterp spec fn url_host(href: Seq<char>) -> Option<Option<Seq<char>>>;

/// Why a candidate text is not a link to a post.
#[derive(Clone, Copy, Debug, PartialEq, Eq, Structural)]
pub enum InvalidUrl {
    /// The text is not an absolute URL.
    ParseError,
    /// The URL has no host component.
    NoHost,
    /// The lookup of a short link failed.
    RedirectFailed,
    /// The host does not hold the expected domain.
    WrongDomain,
}

/// The domain of short links, which redirect to the post they stand for.
pub open spec fn short_domain() -> Seq<char> {
    "redd.it"@
}

/// The domain that the host of a link to a post holds.
pub open spec fn post_domain() -> Seq<char> {
    "reddit.com"@
}

/// A URL as the validator reads it: its serialization and the text of its host.
pub struct LinkView {
    pub href: Seq<char>,
    pub host: Seq<char>,
}

/// A link read from a text by the pure steps, before the domain rule: the
/// serialization without its query, and the host that it has.
#[derive(Debug, PartialEq, Eq)]
pub struct Link {
    href: String,
    host: String,
}

impl View for Link {
    type V = LinkView;

    closed spec fn view(&self) -> LinkView {
        LinkView { href: self.href@, host: self.host@ }
    }
}

/// A link that passed validation: it was read from a text by the pure
/// steps, and its host holds the post domain, and so is not empty.
#[derive(Debug, PartialEq, Eq)]
pub struct NormalizedUrl {
    href: String,
    host: String,
}

impl View for NormalizedUrl {
    type V = LinkView;

    closed spec fn view(&self) -> LinkView {
        LinkView { href: self.href@, host: self.host@ }
    }
}

/// What the pure steps make of a candidate text: parse it, drop the query,
/// and ask for the host.
pub open spec fn read_link(raw: Seq<char>) -> Result<LinkView, InvalidUrl> {
    match url_parsed(raw) {
        None => Err(InvalidUrl::ParseError),
        Some(parsed) => match url_without_query(parsed) {
            None => Err(InvalidUrl::ParseError),
            Some(href) => match url_host(href) {
                None => Err(InvalidUrl::ParseError),
                Some(None) => Err(InvalidUrl::NoHost),
                Some(Some(host)) => Ok(LinkView { href, host }),
            },
        },
    }
}

/// The domain rule: a link is accepted where its host holds the post domain.
pub open spec fn judged(link: LinkView) -> Result<LinkView, InvalidUrl> {
    if contains_text(link.host, post_domain()) {
        Ok(link)
    } else {
        Err(InvalidUrl::WrongDomain)
    }
}

/// Whether `link` is what the pure steps make of some text.
pub open spec fn was_read(link: LinkView) -> bool {
    exists|raw: Seq<char>| read_link(raw) == Ok::<LinkView, InvalidUrl>(link)
}

/// Whether `href` is a serialization from which the query was dropped.
pub open spec fn query_dropped(href: Seq<char>) -> bool {
    exists|parsed: Seq<char>| url_without_query(parsed) == Some(href)
}

/// What was read has no query, and the host that its serialization has.
pub proof fn lemma_read_is_stripped(link: LinkView)
    requires
        was_read(link),
    ensures
        query_dropped(link.href),
        url_host(link.href) == Some(Some(link.host)),
{
    let raw = choose|raw: Seq<char>| read_link(raw) == Ok::<LinkView, InvalidUrl>(link);
    let parsed = url_parsed(raw)->Some_0;
    assert(url_without_query(parsed) == Some(link.href));
}

/// A text that holds the post domain has at least its ten characters.
pub proof fn lemma_domain_in_host(host: Seq<char>)
    requires
        contains_text(host, post_domain()),
    ensures
        host.len() >= 10,
{
    reveal_strlit("reddit.com");
    let at = choose|at: int| occurs_at(host, post_domain(), at);
    assert(occurs_at(host, post_domain(), at));
}

impl Link {
    #[verifier::type_invariant]
    spec fn well_formed(self) -> bool {
        was_read(self@)
    }

    /// The serialization of the link, without a query.
    pub fn as_str(&self) -> (r: &str)
        ensures
            r@ == self@.href,
            query_dropped(r@),
    {
        proof {
            use_type_invariant(self);
            lemma_read_is_stripped(self@);
        }
        self.href.as_str()
    }

    /// The host that the serialization of the link has.
    pub fn host(&self) -> (r: &str)
        ensures
            r@ == self@.host,
            url_host(self@.href) == Some(Some(r@)),
    {
        proof {
            use_type_invariant(self);
            lemma_read_is_stripped(self@);
        }
        self.host.as_str()
    }

    /// The serialization of the link, as an owned text.
    pub fn into_string(self) -> (r: String)
        ensures
            r@ == self@.href,
    {
        self.href
    }
}

impl NormalizedUrl {
    #[verifier::type_invariant]
    spec fn well_formed(self) -> bool {
        was_read(self@) && contains_text(self.host@, post_domain())
    }

    /// The serialization of the link, without a query.
    pub fn as_str(&self) -> (r: &str)
        ensures
            r@ == self@.href,
            query_dropped(r@),
    {
        proof {
            use_type_invariant(self);
            lemma_read_is_stripped(self@);
        }
        self.href.as_str()
    }

    /// The host that the serialization of the link has. It holds the post
    /// domain.
    pub fn host(&self) -> (r: &str)
        ensures
            r@ == self@.host,
            url_host(self@.href) == Some(Some(r@)),
            contains_text(r@, post_domain()),
            r@.len() > 0,
    {
        proof {
            use_type_invariant(self);
            lemma_read_is_stripped(self@);
            lemma_domain_in_host(self.host@);
        }
        self.host.as_str()
    }

    /// The serialization of the link, as an owned text.
    pub fn into_string(self) -> (r: String)
        ensures
            r@ == self@.href,
    {
        self.href
    }
}

impl Clone for NormalizedUrl {
    fn clone(&self) -> (r: Self)
        ensures
            r@ == self@,
    {
        proof {
            use_type_invariant(self);
        }
        NormalizedUrl { href: self.href.clone(), host: self.host.clone() }
    }
}

/// `url::Url::parse`, with the URL handed back as its serialization. The
/// contract only names the result; the error is the crate's own.
#[verifier::external_body]
fn parse(raw: &str) -> (r: Result<String, url::ParseError>)
    ensures
        match r {
            Ok(href) => url_parsed(raw@) == Some(href@),
            Err(_) => url_parsed(raw@) is None,
        },
{
    match url::Url::parse(raw) {
        Ok(u) => Ok(String::from(u)),
        Err(e) => Err(e),
    }
}

/// `url::Url::set_query` with `None`, on the URL that `href` converts to; the
/// changed URL comes back as its serialization. The contract only names the
/// result.
#[verifier::external_body]
fn without_query(href: &str) -> (r: Result<String, url::ParseError>)
    ensures
        match r {
            Ok(out) => url_without_query(href@) == Some(out@),
            Err(_) => url_without_query(href@) is None,
        },
{
    let mut u: url::Url = href.parse()?;
    u.set_query(None);
    Ok(String::from(u))
}

/// `url::Url::host`, on the URL that `href` converts to, with the host handed
/// back as the text that it displays as. The contract only names the result.
#[verifier::external_body]
fn host_of(href: &str) -> (r: Result<Option<String>, url::ParseError>)
    ensures
        match r {
            Ok(Some(host)) => url_host(href@) == Some(Some(host@)),
            Ok(None) => url_host(href@) == Some(None::<Seq<char>>),
            Err(_) => url_host(href@) is None,
        },
{
    let u: url::Url = href.parse()?;
    Ok(u.host().map(|h| h.to_string()))
}

/// Parses `raw` as an absolute URL, drops its query and reads its host.
pub fn read(raw: &str) -> (r: Result<Link, InvalidUrl>)
    ensures
        match r {
            Ok(link) => read_link(raw@) == Ok::<LinkView, InvalidUrl>(link@),
            Err(e) => read_link(raw@) == Err::<LinkView, InvalidUrl>(e),
        },
{
    let parsed = match parse(raw) {
        Ok(p) => p,
        Err(_) => {
            return Err(InvalidUrl::ParseError);
        },
    };
    let href = match without_query(parsed.as_str()) {
        Ok(h) => h,
        Err(_) => {
            return Err(InvalidUrl::ParseError);
        },
    };
    match host_of(href.as_str()) {
        Err(_) => Err(InvalidUrl::ParseError),
        Ok(None) => Err(InvalidUrl::NoHost),
        Ok(Some(host)) => {
            assert(read_link(raw@) == Ok::<LinkView, InvalidUrl>(
                LinkView { href: href@, host: host@ },
            ));
            Ok(Link { href, host })
        },
    }
}

/// Whether `host` is the domain of short links.
pub fn is_short_host(host: &str) -> (r: bool)
    ensures
        r == (host@ == short_domain()),
{
    same_text(host, "redd.it")
}

/// Applies the domain rule to a link that was read.
pub fn judge(link: Link) -> (r: Result<NormalizedUrl, InvalidUrl>)
    ensures
        match r {
            Ok(url) => judged(link@) == Ok::<LinkView, InvalidUrl>(url@),
            Err(e) => judged(link@) == Err::<LinkView, InvalidUrl>(e),
        },
{
    proof {
        use_type_invariant(&link);
    }
    if contains(link.host.as_str(), "reddit.com") {
        Ok(NormalizedUrl { href: link.href, host: link.host })
    } else {
        Err(InvalidUrl::WrongDomain)
    }
}

} // verus!
