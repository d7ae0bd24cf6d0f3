//! What the handler reads of an incoming chat message.

use crate::utils::{get_sender, sender_name, User, UserView};
use vstd::prelude::*;

verus! {

/// The message that an incoming message replies to.
#[derive(Clone, Debug, PartialEq, Eq)]
pub struct Reply {
    pub from: Option<User>,
    pub text: Option<String>,
}

/// A message replied to, as a value.
pub struct ReplyView {
    pub from: Option<UserView>,
    pub text: Option<Seq<char>>,
}

/// The kind of an incoming message. Only a common message can be a reply.
#[derive(Clone, Debug, PartialEq, Eq)]
pub enum MessageKind {
    Common { reply: Option<Reply> },
    Other,
}

/// The kind of a message as a value.
pub enum MessageKindView {
    Common { reply: Option<ReplyView> },
    Other,
}

/// An incoming message that carries a command.
#[derive(Clone, Debug, PartialEq, Eq)]
pub struct Incoming {
    pub from: Option<User>,
    pub kind: MessageKind,
}

/// An incoming message as a value.
pub struct IncomingView {
    pub from: Option<UserView>,
    pub kind: MessageKindView,
}

/// The view of an optional user.
pub open spec fn user_view(from: Option<User>) -> Option<UserView> {
    match from {
        Some(user) => Some(user@),
        None => None,
    }
}

/// The view of an optional text.
pub open spec fn text_view(text: Option<String>) -> Option<Seq<char>> {
    match text {
        Some(t) => Some(t@),
        None => None,
    }
}

impl View for Reply {
    type V = ReplyView;

    open spec fn view(&self) -> ReplyView {
        ReplyView { from: user_view(self.from), text: text_view(self.text) }
    }
}

impl View for MessageKind {
    type V = MessageKindView;

    open spec fn view(&self) -> MessageKindView {
        match self {
            MessageKind::Common { reply } => MessageKindView::Common {
                reply: match reply {
                    Some(r) => Some(r@),
                    None => None,
                },
            },
            MessageKind::Other => MessageKindView::Other,
        }
    }
}

impl View for Incoming {
    type V = IncomingView;

    open spec fn view(&self) -> IncomingView {
        IncomingView { from: user_view(self.from), kind: self.kind@ }
    }
}

/// The sender named in what a fetch sends: the sender of the message
/// replied to where there is one, else the sender of the message itself;
/// `None` for a message that is not a common one.
pub open spec fn shown_sender(incoming: IncomingView) -> Option<Seq<char>> {
    match incoming.kind {
        MessageKindView::Common { reply: Some(reply) } => Some(sender_name(reply.from)),
        MessageKindView::Common { reply: None } => Some(sender_name(incoming.from)),
        MessageKindView::Other => None,
    }
}

/// The text of the message replied to, if there is one and it has a text.
pub open spec fn replied_text(incoming: IncomingView) -> Option<Seq<char>> {
    match incoming.kind {
        MessageKindView::Common { reply: Some(reply) } => reply.text,
        _ => None,
    }
}

/// The sender named in what a fetch sends.
pub fn sender_shown(incoming: &Incoming) -> (r: Option<String>)
    ensures
        text_view(r) == shown_sender(incoming@),
{
    match &incoming.kind {
        MessageKind::Common { reply: Some(reply) } => Some(get_sender(reply.from.as_ref())),
        MessageKind::Common { reply: None } => Some(get_sender(incoming.from.as_ref())),
        MessageKind::Other => None,
    }
}

} // verus!
