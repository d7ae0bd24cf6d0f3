//! Validation with short links, in two steps around the one lookup that a
//! short link needs, and the name under which a sender is shown.

use crate::link::{
    is_short_host, judge, judged, lemma_domain_in_host, lemma_read_is_stripped, post_domain,
    query_dropped, read, read_link, short_domain, url_host, url_parsed, InvalidUrl, Link,
    LinkView, NormalizedUrl,
};
use crate::message::text_view;
use crate::text::{contains_text, occurs_at};
use crate::validate_url::validated;
use vstd::prelude::*;
use vstd::string::*;

verus! {

/// The outcome of the first step of validation.
#[derive(Clone, Debug, PartialEq, Eq)]
pub enum Validation {
    /// The text is a link to a post.
    Accepted(NormalizedUrl),
    /// The text is no link to a post.
    Rejected(InvalidUrl),
    /// The text is a short link. The caller looks up, once, where the URL of
    /// this serialization redirects to and hands the result to
    /// [`resolve_redirect`].
    Redirect(String),
}

/// The outcome of the first step as a value.
pub enum ValidationView {
    Accepted(LinkView),
    Rejected(InvalidUrl),
    Redirect(Seq<char>),
}

impl View for Validation {
    type V = ValidationView;

    open spec fn view(&self) -> ValidationView {
        match self {
            Validation::Accepted(url) => ValidationView::Accepted(url@),
            Validation::Rejected(e) => ValidationView::Rejected(*e),
            Validation::Redirect(href) => ValidationView::Redirect(href@),
        }
    }
}

/// What the first step makes of a link that the pure steps read: a short
/// link asks for its lookup, any other link falls under the domain rule.
pub open spec fn checked_link(link: LinkView) -> ValidationView {
    if link.host == short_domain() {
        ValidationView::Redirect(link.href)
    } else {
        match judged(link) {
            Ok(accepted) => ValidationView::Accepted(accepted),
            Err(e) => ValidationView::Rejected(e),
        }
    }
}

/// What the first step makes of a candidate text.
pub open spec fn checked(raw: Seq<char>) -> ValidationView {
    match read_link(raw) {
        Err(e) => ValidationView::Rejected(e),
        Ok(link) => checked_link(link),
    }
}

/// What the second step makes of a lookup, which gave the serialization of
/// the final location or failed. A failed lookup is a failed redirect. The
/// location takes the place of the short link: it goes through the pure
/// steps as any text does, which drop its query and read its host, and then
/// falls under the domain rule. A location that those steps do not read is
/// rejected for its domain, as one with a foreign host is.
pub open spec fn resolved(lookup: Option<Seq<char>>) -> Result<LinkView, InvalidUrl> {
    match lookup {
        None => Err(InvalidUrl::RedirectFailed),
        Some(location) => match read_link(location) {
            Ok(link) => judged(link),
            Err(_) => Err(InvalidUrl::WrongDomain),
        },
    }
}

/// The first step, for a link that has been read.
pub fn check_link(link: Link) -> (r: Validation)
    ensures
        r@ == checked_link(link@),
{
    if is_short_host(link.host()) {
        Validation::Redirect(link.into_string())
    } else {
        match judge(link) {
            Ok(url) => Validation::Accepted(url),
            Err(e) => Validation::Rejected(e),
        }
    }
}

/// The first step of validation: parses `raw`, drops its query, asks for a
/// host, and either applies the domain rule or, for a short link, asks for
/// the lookup.
pub fn validate_url(raw: &str) -> (r: Validation)
    ensures
        r@ == checked(raw@),
{
    match read(raw) {
        Err(e) => Validation::Rejected(e),
        Ok(link) => check_link(link),
    }
}

/// The second step of validation, on what the lookup of a short link gave:
/// `None` where the request failed, else the serialization of the final
/// location. The location is read as any text is and held to the domain
/// rule; it asks for no further lookup.
pub fn resolve_redirect(lookup: Option<String>) -> (r: Result<NormalizedUrl, InvalidUrl>)
    ensures
        match r {
            Ok(url) => resolved(text_view(lookup)) == Ok::<LinkView, InvalidUrl>(url@),
            Err(e) => resolved(text_view(lookup)) == Err::<LinkView, InvalidUrl>(e),
        },
{
    match lookup {
        None => Err(InvalidUrl::RedirectFailed),
        Some(location) => match read(location.as_str()) {
            Ok(link) => judge(link),
            Err(_) => Err(InvalidUrl::WrongDomain),
        },
    }
}

/// A text that is not an absolute URL is rejected as a parse error.
pub proof fn law_unparsable_is_parse_error(raw: Seq<char>)
    requires
        url_parsed(raw) is None,
    ensures
        checked(raw) == ValidationView::Rejected(InvalidUrl::ParseError),
{
}

/// A URL whose host is not the short domain and does not hold the post
/// domain is rejected for its domain.
pub proof fn law_foreign_host_is_wrong_domain(raw: Seq<char>, link: LinkView)
    requires
        read_link(raw) == Ok::<LinkView, InvalidUrl>(link),
        link.host != short_domain(),
        !contains_text(link.host, post_domain()),
    ensures
        checked(raw) == ValidationView::Rejected(InvalidUrl::WrongDomain),
{
}

/// A lookup is asked for exactly where the host is the short domain, and
/// then for the link that was read.
pub proof fn law_short_link_asks_lookup(raw: Seq<char>)
    ensures
        checked(raw) is Redirect <==> (read_link(raw) matches Ok(link) && link.host
            == short_domain()),
        checked(raw) matches ValidationView::Redirect(href) ==> read_link(raw) == Ok::<
            LinkView,
            InvalidUrl,
        >(LinkView { href, host: short_domain() }),
{
}

/// What a lookup found is held to the domain rule again: it is accepted
/// exactly where the pure steps read it and its host holds the post domain,
/// and then as they read it. Whatever else was found is rejected for its
/// domain, and a failed lookup is a failed redirect.
pub proof fn law_resolved_is_rechecked(location: Seq<char>)
    ensures
        resolved(Some(location)) is Ok <==> (read_link(location) matches Ok(link) && contains_text(
            link.host,
            post_domain(),
        )),
        resolved(Some(location)) matches Ok(link) ==> read_link(location) == Ok::<
            LinkView,
            InvalidUrl,
        >(link),
        resolved(Some(location)) is Err ==> resolved(Some(location)) == Err::<
            LinkView,
            InvalidUrl,
        >(InvalidUrl::WrongDomain),
        resolved(None) == Err::<LinkView, InvalidUrl>(InvalidUrl::RedirectFailed),
{
}

/// Whatever the two steps accept, at once or after a lookup, is a
/// serialization from which the query was dropped, with the host that this
/// serialization has, and that host holds the post domain, and so is not
/// empty.
pub proof fn law_accepted_is_normalized(raw: Seq<char>, lookup: Option<Seq<char>>, link: LinkView)
    requires
        checked(raw) == ValidationView::Accepted(link) || resolved(lookup) == Ok::<
            LinkView,
            InvalidUrl,
        >(link),
    ensures
        query_dropped(link.href),
        url_host(link.href) == Some(Some(link.host)),
        contains_text(link.host, post_domain()),
        link.host.len() > 0,
{
    if checked(raw) == ValidationView::Accepted(link) {
        assert(read_link(raw) == Ok::<LinkView, InvalidUrl>(link));
    } else {
        assert(read_link(lookup->Some_0) == Ok::<LinkView, InvalidUrl>(link));
    }
    lemma_read_is_stripped(link);
    lemma_domain_in_host(link.host);
}

/// Apart from short links the two steps add nothing: a text whose host is
/// not the short domain is accepted or rejected at the first step as it is
/// where no lookup can be made.
pub proof fn law_agrees_without_short_link(raw: Seq<char>)
    requires
        read_link(raw) matches Ok(link) ==> link.host != short_domain(),
    ensures
        checked(raw) == match validated(raw) {
            Ok(link) => ValidationView::Accepted(link),
            Err(e) => ValidationView::Rejected(e),
        },
{
}

/// The short domain itself does not hold the post domain: without its
/// lookup a short link would never be accepted.
pub proof fn law_short_domain_is_foreign()
    ensures
        !contains_text(short_domain(), post_domain()),
{
    reveal_strlit("redd.it");
    reveal_strlit("reddit.com");
    assert forall|at: int| !occurs_at(short_domain(), post_domain(), at) by {}
}

/// What the handler reads of the user who sent a message.
#[derive(Clone, Debug, PartialEq, Eq)]
pub struct User {
    pub username: Option<String>,
    pub first_name: String,
    pub last_name: Option<String>,
}

/// A user as a value.
pub struct UserView {
    pub username: Option<Seq<char>>,
    pub first_name: Seq<char>,
    pub last_name: Option<Seq<char>>,
}

impl View for User {
    type V = UserView;

    open spec fn view(&self) -> UserView {
        UserView {
            username: match self.username {
                Some(n) => Some(n@),
                None => None,
            },
            first_name: self.first_name@,
            last_name: match self.last_name {
                Some(n) => Some(n@),
                None => None,
            },
        }
    }
}

/// The name shown for a sender: a placeholder where the sender is unknown,
/// the username where there is one, else the first name and, after a space,
/// the last name if there is one.
pub open spec fn sender_name(from: Option<UserView>) -> Seq<char> {
    match from {
        None => "deleted_user"@,
        Some(user) => match user.username {
            Some(name) => name,
            None => match user.last_name {
                Some(last) => user.first_name + " "@ + last,
                None => user.first_name,
            },
        },
    }
}

/// The name under which the sender of a message is shown.
pub fn get_sender(from: Option<&User>) -> (r: String)
    ensures
        r@ == sender_name(
            match from {
                Some(user) => Some(user@),
                None => None,
            },
        ),
{
    match from {
        None => String::from_str("deleted_user"),
        Some(user) => match &user.username {
            Some(name) => name.clone(),
            None => {
                let mut shown = user.first_name.clone();
                match &user.last_name {
                    Some(last) => {
                        shown.append(" ");
                        shown.append(last.as_str());
                    },
                    None => {},
                }
                shown
            },
        },
    }
}

} // verus!
