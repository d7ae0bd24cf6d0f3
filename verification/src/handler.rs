//! The entry of the handler: a command, and the message it came in.

use crate::fetcher::{
    fetch_begun, fetch_info, finished, law_one_lookup_at_most, lookups, next, reject, rejected,
    verdict_view, Action, ActionView, EventView, Outcome, State, StateView, Step, StepView,
    TextFormat,
};
use crate::link::{InvalidUrl, LinkView, NormalizedUrl};
use crate::message::{
    replied_text, shown_sender, Incoming, IncomingView, MessageKind, MessageKindView,
};
use crate::notice::invalid_url_text;
use crate::utils::{
    checked, get_sender, resolved, sender_name, validate_url, Validation, ValidationView,
};
use vstd::prelude::*;
use vstd::string::*;

verus! {

/// The first step of the fetch of a link that was accepted already: the
/// message that carried the command goes, and the metadata are asked for
/// next.
pub open spec fn accepted_begun(shown: Seq<char>, link: LinkView) -> StepView {
    StepView {
        state: StateView::DeletingAccepted { shown, link },
        action: ActionView::DeleteCommand,
    }
}

/// What follows the first step of validation of the text replied to. A link
/// to a post is fetched in the name of `shown`; a short link is looked up;
/// anything else is answered with a notice, which ends the handling.
pub open spec fn reply_followed(
    notice_sender: Seq<char>,
    shown: Seq<char>,
    reply_text: Seq<char>,
    validation: ValidationView,
) -> StepView {
    match validation {
        ValidationView::Accepted(link) => accepted_begun(shown, link),
        ValidationView::Rejected(reason) => rejected(notice_sender, reply_text, reason),
        ValidationView::Redirect(href) => StepView {
            state: StateView::ReplyLookup { notice_sender, shown, reply_text },
            action: ActionView::Resolve { href },
        },
    }
}

/// What follows the second step of validation of the text replied to.
pub open spec fn reply_lookup_followed(
    notice_sender: Seq<char>,
    shown: Seq<char>,
    reply_text: Seq<char>,
    outcome: Result<LinkView, InvalidUrl>,
) -> StepView {
    match outcome {
        Ok(link) => accepted_begun(shown, link),
        Err(reason) => rejected(notice_sender, reply_text, reason),
    }
}

/// The first step for a command with the link `url`. Where the command
/// replies to a message with a text, that text is the candidate in place of
/// `url`, and it is validated at once; else `url` is fetched.
pub open spec fn command_begun(incoming: IncomingView, url: Seq<char>) -> StepView {
    match incoming.kind {
        MessageKindView::Common { reply: Some(reply) } => match reply.text {
            Some(reply_text) => reply_followed(
                sender_name(incoming.from),
                sender_name(reply.from),
                reply_text,
                checked(reply_text),
            ),
            None => fetch_begun(shown_sender(incoming), url),
        },
        _ => fetch_begun(shown_sender(incoming), url),
    }
}

/// Begins the fetch of a link that was accepted already.
pub fn begin_accepted(shown: String, link: NormalizedUrl) -> (r: Step)
    ensures
        r@ == accepted_begun(shown@, link@),
{
    Step { state: State::DeletingAccepted { shown, link }, action: Action::DeleteCommand }
}

/// Decides what follows the first step of validation of the text replied to.
pub fn after_reply_validation(
    notice_sender: String,
    shown: String,
    reply_text: String,
    validation: Validation,
) -> (r: Step)
    ensures
        r@ == reply_followed(notice_sender@, shown@, reply_text@, validation@),
{
    match validation {
        Validation::Accepted(link) => begin_accepted(shown, link),
        Validation::Rejected(reason) => reject(notice_sender, reply_text, reason),
        Validation::Redirect(href) => Step {
            state: State::ReplyLookup { notice_sender, shown, reply_text },
            action: Action::Resolve { href },
        },
    }
}

/// Decides what follows the second step of validation of the text replied
/// to.
pub fn after_reply_lookup(
    notice_sender: String,
    shown: String,
    reply_text: String,
    outcome: Result<NormalizedUrl, InvalidUrl>,
) -> (r: Step)
    ensures
        r@ == reply_lookup_followed(notice_sender@, shown@, reply_text@, verdict_view(outcome)),
{
    match outcome {
        Ok(link) => begin_accepted(shown, link),
        Err(reason) => reject(notice_sender, reply_text, reason),
    }
}

/// Begins the handling of a command with the link `url` that came in
/// `incoming`.
pub fn action(incoming: &Incoming, url: String) -> (r: Step)
    ensures
        r@ == command_begun(incoming@, url@),
{
    match &incoming.kind {
        MessageKind::Common { reply: Some(reply) } => match &reply.text {
            Some(reply_text) => {
                let validation = validate_url(reply_text.as_str());
                after_reply_validation(
                    get_sender(incoming.from.as_ref()),
                    get_sender(reply.from.as_ref()),
                    reply_text.clone(),
                    validation,
                )
            },
            None => fetch_info(incoming, url),
        },
        _ => fetch_info(incoming, url),
    }
}

/// A text replied to that is rejected, at once or after its lookup, is
/// answered with one notice in Markdown, in the name of the sender of the
/// command, and the handling ends with it: the link of the command is not
/// tried, and the metadata are never asked for.
pub proof fn law_rejected_reply_is_answered_once(
    notice_sender: Seq<char>,
    shown: Seq<char>,
    reply_text: Seq<char>,
    lookup: Option<Seq<char>>,
    reason: InvalidUrl,
)
    ensures
        reply_followed(notice_sender, shown, reply_text, ValidationView::Rejected(reason))
            == rejected(notice_sender, reply_text, reason),
        resolved(lookup) == Err::<LinkView, InvalidUrl>(reason) ==> next(
            StateView::ReplyLookup { notice_sender, shown, reply_text },
            EventView::Resolved(lookup),
        ) == rejected(notice_sender, reply_text, reason),
        rejected(notice_sender, reply_text, reason).action == (ActionView::Send {
            text: invalid_url_text(reply_text, notice_sender),
            format: TextFormat::Markdown,
            link_preview: true,
        }),
        next(rejected(notice_sender, reply_text, reason).state, EventView::Delivered)
            == finished(Outcome::InvalidUrl(reason)),
{
}

/// The text of the message replied to takes the place of the link of the
/// command: where there is such a text the first step does not depend on
/// that link, and where there is none the fetch of that link begins.
pub proof fn law_reply_replaces_command_link(
    incoming: IncomingView,
    url: Seq<char>,
    other: Seq<char>,
)
    ensures
        replied_text(incoming) is Some ==> command_begun(incoming, url) == command_begun(
            incoming,
            other,
        ),
        replied_text(incoming) is None ==> command_begun(incoming, url) == fetch_begun(
            shown_sender(incoming),
            url,
        ),
{
}

/// A command asks for a lookup at its first step exactly where it replies
/// to a message whose text is a short link.
pub proof fn law_reply_asks_lookup(incoming: IncomingView, url: Seq<char>)
    ensures
        command_begun(incoming, url).action is Resolve <==> (replied_text(incoming) matches Some(
            text,
        ) && checked(text) is Redirect),
{
}

/// The handling of a command asks for one lookup at most, whatever events
/// follow its first step.
pub proof fn law_command_looks_up_once(
    incoming: IncomingView,
    url: Seq<char>,
    events: Seq<EventView>,
)
    ensures
        lookups(command_begun(incoming, url), events) <= 1,
{
    law_one_lookup_at_most(command_begun(incoming, url), events);
}

} // verus!
