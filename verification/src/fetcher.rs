//! The handler as a machine: at each step it is told what became of the last
//! action and decides the next one. Whoever drives it talks to the chat, to
//! the site and to the transcoder; every decision is taken here.

use crate::handler::{after_reply_lookup, reply_lookup_followed};
use crate::link::{InvalidUrl, LinkView, NormalizedUrl};
use crate::media::{
    classify_declared, classify_sniffed, declared_kind, delivery, delivery_of, file_name,
    file_name_of, sniffed_kind, Classification, Delivery, MediaKind,
};
use crate::message::{sender_shown, shown_sender, text_view, Incoming};
use crate::notice::{
    invalid_url_notice, invalid_url_text, metadata_address, metadata_url, no_preview_text,
    placeholder_text, preview_failed_notice, preview_failed_text, shape_reason, summary_notice,
    summary_text, unexpected_kind_text, unreachable_notice, unreachable_text, unreadable_notice,
    unreadable_text,
};
use crate::post::{
    post_summary, read_post, MetadataError, MetadataErrorView, PostSummary, PostSummaryView,
    PreviewSource, PreviewSourceView,
};
use crate::utils::{
    checked, resolve_redirect, resolved, validate_url, Validation, ValidationView,
};
use vstd::prelude::*;
use vstd::string::*;

verus! {

/// How the text of a message is to be read.
#[derive(Clone, Copy, Debug, PartialEq, Eq, Structural)]
pub enum TextFormat {
    Plain,
    Markdown,
    Html,
}

/// How the handling of a command ended.
#[derive(Clone, Copy, Debug, PartialEq, Eq, Structural)]
pub enum Outcome {
    /// The summary and the preview were sent.
    Completed,
    /// The command came in a message that is not a common one.
    UnexpectedKind,
    /// The text is no link to a post.
    InvalidUrl(InvalidUrl),
    /// The metadata could not be requested or read.
    MetadataFetchError,
    /// The post has no preview, or it could not be requested or classified.
    PreviewUnavailable,
    /// The video stream could not be transcoded.
    TranscodeFailure,
    /// The chat refused an operation.
    TransportError,
    /// The machine was told of something that it had not asked for.
    OutOfTurn,
}

/// What the machine asks of its driver.
#[derive(Clone, Debug, PartialEq, Eq)]
pub enum Action {
    /// Delete the message that carried the command.
    DeleteCommand,
    /// Send a text to the chat.
    Send { text: String, format: TextFormat, link_preview: bool },
    /// Send the placeholder for the preview, and remember that message.
    SendPlaceholder { text: String },
    /// Replace the text of the placeholder.
    EditPlaceholder { text: String },
    /// Delete the placeholder.
    DeletePlaceholder,
    /// Look up, with one request, where the short link of this serialization
    /// redirects to.
    Resolve { href: String },
    /// Request the metadata at this address.
    FetchMetadata { url: String },
    /// Request the preview at this address.
    FetchPreview { url: String },
    /// Transcode the stream at this address into an MP4 file.
    Transcode { stream: String },
    /// Send a payload to the chat.
    SendMedia { delivery: Delivery, bytes: Vec<u8>, file_name: Option<String> },
    /// Nothing more: the command has been handled.
    Finish(Outcome),
}

/// An action as a value.
pub enum ActionView {
    DeleteCommand,
    Send { text: Seq<char>, format: TextFormat, link_preview: bool },
    SendPlaceholder { text: Seq<char> },
    EditPlaceholder { text: Seq<char> },
    DeletePlaceholder,
    Resolve { href: Seq<char> },
    FetchMetadata { url: Seq<char> },
    FetchPreview { url: Seq<char> },
    Transcode { stream: Seq<char> },
    SendMedia { delivery: Delivery, bytes: Seq<u8>, file_name: Option<Seq<char>> },
    Finish(Outcome),
}

impl View for Action {
    type V = ActionView;

    open spec fn view(&self) -> ActionView {
        match self {
            Action::DeleteCommand => ActionView::DeleteCommand,
            Action::Send { text, format, link_preview } => ActionView::Send {
                text: text@,
                format: *format,
                link_preview: *link_preview,
            },
            Action::SendPlaceholder { text } => ActionView::SendPlaceholder { text: text@ },
            Action::EditPlaceholder { text } => ActionView::EditPlaceholder { text: text@ },
            Action::DeletePlaceholder => ActionView::DeletePlaceholder,
            Action::Resolve { href } => ActionView::Resolve { href: href@ },
            Action::FetchMetadata { url } => ActionView::FetchMetadata { url: url@ },
            Action::FetchPreview { url } => ActionView::FetchPreview { url: url@ },
            Action::Transcode { stream } => ActionView::Transcode { stream: stream@ },
            Action::SendMedia { delivery, bytes, file_name } => ActionView::SendMedia {
                delivery: *delivery,
                bytes: bytes@,
                file_name: text_view(*file_name),
            },
            Action::Finish(outcome) => ActionView::Finish(*outcome),
        }
    }
}

/// What came of the request for the metadata.
#[derive(Clone, Debug, PartialEq, Eq)]
pub enum MetadataReply {
    /// The request failed; the text says why.
    Unreachable(String),
    /// The body of the response could not be read; the text says why.
    Unreadable(String),
    /// The body of the response.
    Body(Vec<u8>),
}

/// A reply as a value.
pub enum MetadataReplyView {
    Unreachable(Seq<char>),
    Unreadable(Seq<char>),
    Body(Seq<u8>),
}

impl View for MetadataReply {
    type V = MetadataReplyView;

    open spec fn view(&self) -> MetadataReplyView {
        match self {
            MetadataReply::Unreachable(reason) => MetadataReplyView::Unreachable(reason@),
            MetadataReply::Unreadable(reason) => MetadataReplyView::Unreadable(reason@),
            MetadataReply::Body(bytes) => MetadataReplyView::Body(bytes@),
        }
    }
}

/// What came of the request for the preview.
#[derive(Clone, Debug, PartialEq, Eq)]
pub enum PreviewReply {
    /// The request failed; the text says why.
    Unreachable(String),
    /// The payload, with the content type that the response declared, if any.
    Payload { content_type: Option<String>, bytes: Vec<u8> },
}

/// A reply as a value.
pub enum PreviewReplyView {
    Unreachable(Seq<char>),
    Payload { content_type: Option<Seq<char>>, bytes: Seq<u8> },
}

impl View for PreviewReply {
    type V = PreviewReplyView;

    open spec fn view(&self) -> PreviewReplyView {
        match self {
            PreviewReply::Unreachable(reason) => PreviewReplyView::Unreachable(reason@),
            PreviewReply::Payload { content_type, bytes } => PreviewReplyView::Payload {
                content_type: text_view(*content_type),
                bytes: bytes@,
            },
        }
    }
}

/// What became of the last action.
#[derive(Clone, Debug, PartialEq, Eq)]
pub enum Event {
    /// The chat did what was asked.
    Delivered,
    /// The chat refused what was asked.
    TransportFailed,
    /// The lookup of a short link ended: with the serialization of the final
    /// location, or `None` where the request failed.
    Resolved(Option<String>),
    /// The request for the metadata ended.
    Metadata(MetadataReply),
    /// The request for the preview ended.
    Preview(PreviewReply),
    /// The transcoder ended: with the bytes of the file, or `None` where it
    /// failed.
    Transcoded(Option<Vec<u8>>),
}

/// An event as a value.
pub enum EventView {
    Delivered,
    TransportFailed,
    Resolved(Option<Seq<char>>),
    Metadata(MetadataReplyView),
    Preview(PreviewReplyView),
    Transcoded(Option<Seq<u8>>),
}

impl View for Event {
    type V = EventView;

    open spec fn view(&self) -> EventView {
        match self {
            Event::Delivered => EventView::Delivered,
            Event::TransportFailed => EventView::TransportFailed,
            Event::Resolved(lookup) => EventView::Resolved(text_view(*lookup)),
            Event::Metadata(reply) => EventView::Metadata(reply@),
            Event::Preview(reply) => EventView::Preview(reply@),
            Event::Transcoded(file) => EventView::Transcoded(
                match file {
                    Some(bytes) => Some(bytes@),
                    None => None,
                },
            ),
        }
    }
}

/// Where the handling of a command stands: what the machine waits for, and
/// what it keeps for later.
#[derive(Clone, Debug, PartialEq, Eq)]
pub enum State {
    /// Waits for the lookup of the short link `reply_text` in the message
    /// replied to. A failure is answered in the name of `notice_sender`;
    /// `shown` is named in what a fetch sends.
    ReplyLookup { notice_sender: String, shown: String, reply_text: String },
    /// Waits for the deletion of the message that carried the command; the
    /// text `url` is validated next. Without a `sender` the message is of
    /// another kind than a common one.
    Deleting { sender: Option<String>, url: String },
    /// Waits for the deletion of the message that carried the command; the
    /// metadata of `link`, which was accepted already, are asked for next.
    DeletingAccepted { shown: String, link: NormalizedUrl },
    /// Waits for the lookup of the short link `url`, asked for in the name
    /// of `shown`.
    Lookup { shown: String, url: String },
    /// Waits for the metadata of the post at the validated link `url`.
    Metadata { shown: String, url: String },
    /// Waits for the delivery of the summary.
    Summary { preview: PreviewSource },
    /// Waits for the delivery of the placeholder.
    Placeholder { preview: PreviewSource },
    /// Waits for the transcoder.
    Transcoding,
    /// Waits for the payload of the preview.
    Preview,
    /// Waits for the delivery of the payload.
    Media,
    /// Waits for the deletion of the placeholder.
    Cleanup,
    /// Waits for the delivery of the last notice.
    Reporting(Outcome),
    /// Waits for nothing: the command has been handled.
    Finished,
}

/// A state as a value.
pub enum StateView {
    ReplyLookup { notice_sender: Seq<char>, shown: Seq<char>, reply_text: Seq<char> },
    Deleting { sender: Option<Seq<char>>, url: Seq<char> },
    DeletingAccepted { shown: Seq<char>, link: LinkView },
    Lookup { shown: Seq<char>, url: Seq<char> },
    Metadata { shown: Seq<char>, url: Seq<char> },
    Summary { preview: PreviewSourceView },
    Placeholder { preview: PreviewSourceView },
    Transcoding,
    Preview,
    Media,
    Cleanup,
    Reporting(Outcome),
    Finished,
}

impl View for State {
    type V = StateView;

    open spec fn view(&self) -> StateView {
        match self {
            State::ReplyLookup { notice_sender, shown, reply_text } => StateView::ReplyLookup {
                notice_sender: notice_sender@,
                shown: shown@,
                reply_text: reply_text@,
            },
            State::Deleting { sender, url } => StateView::Deleting {
                sender: text_view(*sender),
                url: url@,
            },
            State::DeletingAccepted { shown, link } => StateView::DeletingAccepted {
                shown: shown@,
                link: link@,
            },
            State::Lookup { shown, url } => StateView::Lookup { shown: shown@, url: url@ },
            State::Metadata { shown, url } => StateView::Metadata { shown: shown@, url: url@ },
            State::Summary { preview } => StateView::Summary { preview: preview@ },
            State::Placeholder { preview } => StateView::Placeholder { preview: preview@ },
            State::Transcoding => StateView::Transcoding,
            State::Preview => StateView::Preview,
            State::Media => StateView::Media,
            State::Cleanup => StateView::Cleanup,
            State::Reporting(outcome) => StateView::Reporting(*outcome),
            State::Finished => StateView::Finished,
        }
    }
}

/// A step of the machine: the state it is in now and what it asks for.
#[derive(Clone, Debug, PartialEq, Eq)]
pub struct Step {
    pub state: State,
    pub action: Action,
}

/// A step as a value.
pub struct StepView {
    pub state: StateView,
    pub action: ActionView,
}

impl View for Step {
    type V = StepView;

    open spec fn view(&self) -> StepView {
        StepView { state: self.state@, action: self.action@ }
    }
}

/// The end of the handling.
pub open spec fn finished(outcome: Outcome) -> StepView {
    StepView { state: StateView::Finished, action: ActionView::Finish(outcome) }
}

/// A last notice sent as a message of its own.
pub open spec fn reported(text: Seq<char>, format: TextFormat, outcome: Outcome) -> StepView {
    StepView {
        state: StateView::Reporting(outcome),
        action: ActionView::Send { text, format, link_preview: true },
    }
}

/// A last notice written over the placeholder.
pub open spec fn replaced(text: Seq<char>, outcome: Outcome) -> StepView {
    StepView {
        state: StateView::Reporting(outcome),
        action: ActionView::EditPlaceholder { text },
    }
}

/// The one notice that answers a text which is no link to a post. Nothing
/// follows it.
pub open spec fn rejected(sender: Seq<char>, url: Seq<char>, reason: InvalidUrl) -> StepView {
    reported(invalid_url_text(url, sender), TextFormat::Markdown, Outcome::InvalidUrl(reason))
}

/// The first step of a fetch: the message that carried the command goes.
pub open spec fn fetch_begun(sender: Option<Seq<char>>, url: Seq<char>) -> StepView {
    StepView { state: StateView::Deleting { sender, url }, action: ActionView::DeleteCommand }
}

/// The request for the metadata of an accepted link.
pub open spec fn metadata_asked(sender: Seq<char>, link: LinkView) -> StepView {
    StepView {
        state: StateView::Metadata { shown: sender, url: link.href },
        action: ActionView::FetchMetadata { url: metadata_url(link.href) },
    }
}

/// What follows the first step of validation of the text `url`.
pub open spec fn validation_followed(
    sender: Seq<char>,
    url: Seq<char>,
    validation: ValidationView,
) -> StepView {
    match validation {
        ValidationView::Accepted(link) => metadata_asked(sender, link),
        ValidationView::Rejected(reason) => rejected(sender, url, reason),
        ValidationView::Redirect(href) => StepView {
            state: StateView::Lookup { shown: sender, url },
            action: ActionView::Resolve { href },
        },
    }
}

/// What follows the second step of validation of the text `url`.
pub open spec fn lookup_followed(
    sender: Seq<char>,
    url: Seq<char>,
    outcome: Result<LinkView, InvalidUrl>,
) -> StepView {
    match outcome {
        Ok(link) => metadata_asked(sender, link),
        Err(reason) => rejected(sender, url, reason),
    }
}

/// What follows the reading of the metadata of the post at `url`.
pub open spec fn reading_followed(
    sender: Seq<char>,
    url: Seq<char>,
    read: Result<PostSummaryView, MetadataErrorView>,
) -> StepView {
    match read {
        Ok(post) => StepView {
            state: StateView::Summary { preview: post.preview },
            action: ActionView::Send {
                text: summary_text(post, sender, url),
                format: TextFormat::Html,
                link_preview: false,
            },
        },
        Err(MetadataErrorView::Syntax(reason)) => reported(
            unreadable_text(reason, url, sender),
            TextFormat::Markdown,
            Outcome::MetadataFetchError,
        ),
        Err(MetadataErrorView::Shape) => reported(
            unreadable_text(shape_reason(), url, sender),
            TextFormat::Markdown,
            Outcome::MetadataFetchError,
        ),
    }
}

/// What follows the request for the metadata of the post at `url`.
pub open spec fn metadata_followed(
    sender: Seq<char>,
    url: Seq<char>,
    reply: MetadataReplyView,
) -> StepView {
    match reply {
        MetadataReplyView::Unreachable(reason) => reported(
            unreachable_text(reason, url, sender),
            TextFormat::Markdown,
            Outcome::MetadataFetchError,
        ),
        MetadataReplyView::Unreadable(reason) => reported(
            unreadable_text(reason, url, sender),
            TextFormat::Markdown,
            Outcome::MetadataFetchError,
        ),
        MetadataReplyView::Body(bytes) => reading_followed(sender, url, post_summary(bytes)),
    }
}

/// What follows the delivery of the placeholder.
pub open spec fn preview_asked(preview: PreviewSourceView) -> StepView {
    match preview {
        PreviewSourceView::Stream(stream) => StepView {
            state: StateView::Transcoding,
            action: ActionView::Transcode { stream },
        },
        PreviewSourceView::Direct(url) => StepView {
            state: StateView::Preview,
            action: ActionView::FetchPreview { url },
        },
        PreviewSourceView::Absent => replaced(no_preview_text(), Outcome::PreviewUnavailable),
    }
}

/// The delivery of a payload of a kind.
pub open spec fn payload_sent(kind: MediaKind, sniffed: bool, bytes: Seq<u8>) -> StepView {
    StepView {
        state: StateView::Media,
        action: ActionView::SendMedia {
            delivery: delivery_of(kind, sniffed),
            bytes,
            file_name: Some(file_name_of(kind)),
        },
    }
}

/// The kind that a response declares, if it declares a recognized one.
pub open spec fn kind_declared(content_type: Option<Seq<char>>) -> Option<MediaKind> {
    match content_type {
        Some(declared) => declared_kind(declared),
        None => None,
    }
}

/// What follows the request for the preview.
pub open spec fn preview_followed(reply: PreviewReplyView) -> StepView {
    match reply {
        PreviewReplyView::Unreachable(reason) => replaced(
            preview_failed_text(reason),
            Outcome::PreviewUnavailable,
        ),
        PreviewReplyView::Payload { content_type, bytes } => match kind_declared(content_type) {
            Some(kind) => payload_sent(kind, false, bytes),
            None => match sniffed_kind(bytes) {
                Classification::Known(kind) => payload_sent(kind, true, bytes),
                Classification::Unclassified => replaced(
                    no_preview_text(),
                    Outcome::PreviewUnavailable,
                ),
            },
        },
    }
}

/// What follows the transcoder.
pub open spec fn transcoder_followed(file: Option<Seq<u8>>) -> StepView {
    match file {
        Some(bytes) => StepView {
            state: StateView::Media,
            action: ActionView::SendMedia { delivery: Delivery::Video, bytes, file_name: None },
        },
        None => replaced(no_preview_text(), Outcome::TranscodeFailure),
    }
}

/// What follows an answer of the chat, where `then` follows its consent.
pub open spec fn chat_followed(event: EventView, then: StepView) -> StepView {
    match event {
        EventView::Delivered => then,
        EventView::TransportFailed => finished(Outcome::TransportError),
        _ => finished(Outcome::OutOfTurn),
    }
}

/// The step that follows `event` in `state`.
pub open spec fn next(state: StateView, event: EventView) -> StepView {
    match state {
        StateView::ReplyLookup { notice_sender, shown, reply_text } => match event {
            EventView::Resolved(lookup) => reply_lookup_followed(
                notice_sender,
                shown,
                reply_text,
                resolved(lookup),
            ),
            _ => finished(Outcome::OutOfTurn),
        },
        StateView::Deleting { sender, url } => chat_followed(
            event,
            match sender {
                Some(shown) => validation_followed(shown, url, checked(url)),
                None => reported(
                    unexpected_kind_text(),
                    TextFormat::Plain,
                    Outcome::UnexpectedKind,
                ),
            },
        ),
        StateView::DeletingAccepted { shown, link } => chat_followed(
            event,
            metadata_asked(shown, link),
        ),
        StateView::Lookup { shown, url } => match event {
            EventView::Resolved(lookup) => lookup_followed(shown, url, resolved(lookup)),
            _ => finished(Outcome::OutOfTurn),
        },
        StateView::Metadata { shown, url } => match event {
            EventView::Metadata(reply) => metadata_followed(shown, url, reply),
            _ => finished(Outcome::OutOfTurn),
        },
        StateView::Summary { preview } => chat_followed(
            event,
            StepView {
                state: StateView::Placeholder { preview },
                action: ActionView::SendPlaceholder { text: placeholder_text() },
            },
        ),
        StateView::Placeholder { preview } => chat_followed(event, preview_asked(preview)),
        StateView::Transcoding => match event {
            EventView::Transcoded(file) => transcoder_followed(file),
            _ => finished(Outcome::OutOfTurn),
        },
        StateView::Preview => match event {
            EventView::Preview(reply) => preview_followed(reply),
            _ => finished(Outcome::OutOfTurn),
        },
        StateView::Media => chat_followed(
            event,
            StepView { state: StateView::Cleanup, action: ActionView::DeletePlaceholder },
        ),
        StateView::Cleanup => chat_followed(event, finished(Outcome::Completed)),
        StateView::Reporting(outcome) => chat_followed(event, finished(outcome)),
        StateView::Finished => finished(Outcome::OutOfTurn),
    }
}

/// The view of the outcome of a validation.
pub open spec fn verdict_view(outcome: Result<NormalizedUrl, InvalidUrl>) -> Result<
    LinkView,
    InvalidUrl,
> {
    match outcome {
        Ok(url) => Ok(url@),
        Err(e) => Err(e),
    }
}

/// The view of what was read of a response.
pub open spec fn reading_view(read: Result<PostSummary, MetadataError>) -> Result<
    PostSummaryView,
    MetadataErrorView,
> {
    match read {
        Ok(post) => Ok(post@),
        Err(e) => Err(e@),
    }
}

/// The view of an optional payload.
pub open spec fn bytes_view(file: Option<Vec<u8>>) -> Option<Seq<u8>> {
    match file {
        Some(bytes) => Some(bytes@),
        None => None,
    }
}

/// Ends the handling.
pub fn finish(outcome: Outcome) -> (r: Step)
    ensures
        r@ == finished(outcome),
{
    Step { state: State::Finished, action: Action::Finish(outcome) }
}

/// Sends a last notice as a message of its own.
pub fn report(text: String, format: TextFormat, outcome: Outcome) -> (r: Step)
    ensures
        r@ == reported(text@, format, outcome),
{
    Step {
        state: State::Reporting(outcome),
        action: Action::Send { text, format, link_preview: true },
    }
}

/// Writes a last notice over the placeholder.
pub fn replace(text: String, outcome: Outcome) -> (r: Step)
    ensures
        r@ == replaced(text@, outcome),
{
    Step { state: State::Reporting(outcome), action: Action::EditPlaceholder { text } }
}

/// Begins a fetch for `url`, in the name of `sender`.
pub fn begin_fetch(sender: Option<String>, url: String) -> (r: Step)
    ensures
        r@ == fetch_begun(text_view(sender), url@),
{
    Step { state: State::Deleting { sender, url }, action: Action::DeleteCommand }
}

/// Begins the fetch that a command asks for: the message that carried the
/// command is deleted first, and the link is validated once that is done.
pub fn fetch_info(incoming: &Incoming, url: String) -> (r: Step)
    ensures
        r@ == fetch_begun(shown_sender(incoming@), url@),
{
    begin_fetch(sender_shown(incoming), url)
}

/// Asks for the metadata of an accepted link.
pub fn ask_metadata(sender: String, link: NormalizedUrl) -> (r: Step)
    ensures
        r@ == metadata_asked(sender@, link@),
{
    let address = metadata_address(link.as_str());
    Step {
        state: State::Metadata { shown: sender, url: link.into_string() },
        action: Action::FetchMetadata { url: address },
    }
}

/// Rejects the text `url` with a notice in the name of `sender`.
pub fn reject(sender: String, url: String, reason: InvalidUrl) -> (r: Step)
    ensures
        r@ == rejected(sender@, url@, reason),
{
    report(
        invalid_url_notice(url.as_str(), sender.as_str()),
        TextFormat::Markdown,
        Outcome::InvalidUrl(reason),
    )
}

/// Decides what follows the first step of validation of the text `url`.
pub fn after_validation(sender: String, url: String, validation: Validation) -> (r: Step)
    ensures
        r@ == validation_followed(sender@, url@, validation@),
{
    match validation {
        Validation::Accepted(link) => ask_metadata(sender, link),
        Validation::Rejected(reason) => reject(sender, url, reason),
        Validation::Redirect(href) => Step {
            state: State::Lookup { shown: sender, url },
            action: Action::Resolve { href },
        },
    }
}

/// Decides what follows the second step of validation of the text `url`.
pub fn after_lookup(sender: String, url: String, outcome: Result<NormalizedUrl, InvalidUrl>) -> (r:
    Step)
    ensures
        r@ == lookup_followed(sender@, url@, verdict_view(outcome)),
{
    match outcome {
        Ok(link) => ask_metadata(sender, link),
        Err(reason) => reject(sender, url, reason),
    }
}

/// Decides what follows the reading of the metadata of the post at `url`.
pub fn after_reading(sender: String, url: String, read: Result<PostSummary, MetadataError>) -> (r:
    Step)
    ensures
        r@ == reading_followed(sender@, url@, reading_view(read)),
{
    match read {
        Ok(post) => {
            let text = summary_notice(
                post.title.as_str(),
                post.subreddit.as_str(),
                post.author.as_str(),
                post.score,
                sender.as_str(),
                url.as_str(),
            );
            Step {
                state: State::Summary { preview: post.preview },
                action: Action::Send { text, format: TextFormat::Html, link_preview: false },
            }
        },
        Err(MetadataError::Syntax(reason)) => report(
            unreadable_notice(reason.as_str(), url.as_str(), sender.as_str()),
            TextFormat::Markdown,
            Outcome::MetadataFetchError,
        ),
        Err(MetadataError::Shape) => report(
            unreadable_notice("the response does not describe a post", url.as_str(), sender.as_str()),
            TextFormat::Markdown,
            Outcome::MetadataFetchError,
        ),
    }
}

/// Decides what follows the request for the metadata of the post at `url`.
pub fn after_metadata(sender: String, url: String, reply: MetadataReply) -> (r: Step)
    ensures
        r@ == metadata_followed(sender@, url@, reply@),
{
    match reply {
        MetadataReply::Unreachable(reason) => report(
            unreachable_notice(reason.as_str(), url.as_str(), sender.as_str()),
            TextFormat::Markdown,
            Outcome::MetadataFetchError,
        ),
        MetadataReply::Unreadable(reason) => report(
            unreadable_notice(reason.as_str(), url.as_str(), sender.as_str()),
            TextFormat::Markdown,
            Outcome::MetadataFetchError,
        ),
        MetadataReply::Body(bytes) => {
            let read = read_post(bytes.as_slice());
            after_reading(sender, url, read)
        },
    }
}

/// Gives up the preview: the placeholder says that there is none.
fn give_up(outcome: Outcome) -> (r: Step)
    ensures
        r@ == replaced(no_preview_text(), outcome),
{
    replace(String::from_str("Couldn't get preview from reddit :("), outcome)
}

/// Asks for the preview of a post.
pub fn ask_preview(preview: PreviewSource) -> (r: Step)
    ensures
        r@ == preview_asked(preview@),
{
    match preview {
        PreviewSource::Stream(stream) => Step {
            state: State::Transcoding,
            action: Action::Transcode { stream },
        },
        PreviewSource::Direct(url) => Step {
            state: State::Preview,
            action: Action::FetchPreview { url },
        },
        PreviewSource::Absent => give_up(Outcome::PreviewUnavailable),
    }
}

/// Sends a payload of a kind.
pub fn send_payload(kind: MediaKind, sniffed: bool, bytes: Vec<u8>) -> (r: Step)
    ensures
        r@ == payload_sent(kind, sniffed, bytes@),
{
    Step {
        state: State::Media,
        action: Action::SendMedia {
            delivery: delivery(kind, sniffed),
            bytes,
            file_name: Some(file_name(kind)),
        },
    }
}

/// Decides what follows the request for the preview.
pub fn after_preview(reply: PreviewReply) -> (r: Step)
    ensures
        r@ == preview_followed(reply@),
{
    match reply {
        PreviewReply::Unreachable(reason) => replace(
            preview_failed_notice(reason.as_str()),
            Outcome::PreviewUnavailable,
        ),
        PreviewReply::Payload { content_type, bytes } => {
            let declared = match &content_type {
                Some(text) => classify_declared(text.as_str()),
                None => None,
            };
            match declared {
                Some(kind) => send_payload(kind, false, bytes),
                None => match classify_sniffed(bytes.as_slice()) {
                    Classification::Known(kind) => send_payload(kind, true, bytes),
                    Classification::Unclassified => give_up(Outcome::PreviewUnavailable),
                },
            }
        },
    }
}

/// Decides what follows the transcoder.
pub fn after_transcoder(file: Option<Vec<u8>>) -> (r: Step)
    ensures
        r@ == transcoder_followed(bytes_view(file)),
{
    match file {
        Some(bytes) => Step {
            state: State::Media,
            action: Action::SendMedia { delivery: Delivery::Video, bytes, file_name: None },
        },
        None => give_up(Outcome::TranscodeFailure),
    }
}

/// The step that follows `event` in `state`.
pub fn step(state: State, event: Event) -> (r: Step)
    ensures
        r@ == next(state@, event@),
{
    match state {
        State::ReplyLookup { notice_sender, shown, reply_text } => match event {
            Event::Resolved(lookup) => {
                let outcome = resolve_redirect(lookup);
                after_reply_lookup(notice_sender, shown, reply_text, outcome)
            },
            _ => finish(Outcome::OutOfTurn),
        },
        State::Deleting { sender, url } => match event {
            Event::Delivered => match sender {
                Some(shown) => {
                    let validation = validate_url(url.as_str());
                    after_validation(shown, url, validation)
                },
                None => report(
                    String::from_str("Unexpected kind of message received"),
                    TextFormat::Plain,
                    Outcome::UnexpectedKind,
                ),
            },
            Event::TransportFailed => finish(Outcome::TransportError),
            _ => finish(Outcome::OutOfTurn),
        },
        State::DeletingAccepted { shown, link } => match event {
            Event::Delivered => ask_metadata(shown, link),
            Event::TransportFailed => finish(Outcome::TransportError),
            _ => finish(Outcome::OutOfTurn),
        },
        State::Lookup { shown, url } => match event {
            Event::Resolved(lookup) => {
                let outcome = resolve_redirect(lookup);
                after_lookup(shown, url, outcome)
            },
            _ => finish(Outcome::OutOfTurn),
        },
        State::Metadata { shown, url } => match event {
            Event::Metadata(reply) => after_metadata(shown, url, reply),
            _ => finish(Outcome::OutOfTurn),
        },
        State::Summary { preview } => match event {
            Event::Delivered => Step {
                state: State::Placeholder { preview },
                action: Action::SendPlaceholder { text: String::from_str("Getting preview...") },
            },
            Event::TransportFailed => finish(Outcome::TransportError),
            _ => finish(Outcome::OutOfTurn),
        },
        State::Placeholder { preview } => match event {
            Event::Delivered => ask_preview(preview),
            Event::TransportFailed => finish(Outcome::TransportError),
            _ => finish(Outcome::OutOfTurn),
        },
        State::Transcoding => match event {
            Event::Transcoded(file) => after_transcoder(file),
            _ => finish(Outcome::OutOfTurn),
        },
        State::Preview => match event {
            Event::Preview(reply) => after_preview(reply),
            _ => finish(Outcome::OutOfTurn),
        },
        State::Media => match event {
            Event::Delivered => Step { state: State::Cleanup, action: Action::DeletePlaceholder },
            Event::TransportFailed => finish(Outcome::TransportError),
            _ => finish(Outcome::OutOfTurn),
        },
        State::Cleanup => match event {
            Event::Delivered => finish(Outcome::Completed),
            Event::TransportFailed => finish(Outcome::TransportError),
            _ => finish(Outcome::OutOfTurn),
        },
        State::Reporting(outcome) => match event {
            Event::Delivered => finish(outcome),
            Event::TransportFailed => finish(Outcome::TransportError),
            _ => finish(Outcome::OutOfTurn),
        },
        State::Finished => finish(Outcome::OutOfTurn),
    }
}

/// A link that is rejected is answered with one notice, in Markdown, and
/// nothing else: the next step ends the handling, and the metadata are
/// never asked for.
pub proof fn law_rejected_link_is_answered_once(
    sender: Seq<char>,
    url: Seq<char>,
    reason: InvalidUrl,
)
    requires
        checked(url) == ValidationView::Rejected(reason),
    ensures
        next(StateView::Deleting { sender: Some(sender), url }, EventView::Delivered) == rejected(
            sender,
            url,
            reason,
        ),
        rejected(sender, url, reason).action == (ActionView::Send {
            text: invalid_url_text(url, sender),
            format: TextFormat::Markdown,
            link_preview: true,
        }),
        next(rejected(sender, url, reason).state, EventView::Delivered) == finished(
            Outcome::InvalidUrl(reason),
        ),
{
}

/// Of the steps that follow an event, only the one after the deletion of
/// the command message asks for a lookup, and only where the text of the
/// command is a short link. No step leads back to that deletion: what
/// follows a lookup asks for no other, and what was accepted is not
/// validated again.
pub proof fn law_lookup_follows_deletion_only(state: StateView, event: EventView)
    ensures
        next(state, event).action is Resolve <==> (state matches StateView::Deleting {
            sender: Some(_),
            url,
        } && event is Delivered && checked(url) is Redirect),
        !(next(state, event).state is Deleting),
        state is Lookup ==> next(state, event).state is Metadata || next(state, event).state
            is Reporting || next(state, event).state is Finished,
        state is ReplyLookup ==> next(state, event).state is DeletingAccepted || next(
            state,
            event,
        ).state is Reporting || next(state, event).state is Finished,
        state is DeletingAccepted ==> next(state, event).state is Metadata || next(
            state,
            event,
        ).state is Finished,
{
}

/// The number of lookups asked for by `step` and by the steps that follow
/// the events of `events`, one after the other.
pub open spec fn lookups(step: StepView, events: Seq<EventView>) -> nat
    decreases events.len(),
{
    let asked: nat = if step.action is Resolve {
        1
    } else {
        0
    };
    if events.len() == 0 {
        asked
    } else {
        asked + lookups(next(step.state, events[0]), events.drop_first())
    }
}

/// Once the command message is no longer waited for, no lookup is asked for
/// any more.
pub proof fn lemma_no_lookup_after_deletion(step: StepView, events: Seq<EventView>)
    requires
        !(step.state is Deleting),
        !(step.action is Resolve),
    ensures
        lookups(step, events) == 0,
    decreases events.len(),
{
    if events.len() > 0 {
        lemma_no_lookup_after_deletion(next(step.state, events[0]), events.drop_first());
    }
}

/// A step that does not both ask for a lookup and wait for the deletion of
/// the command message leads to one lookup at most, whatever events follow.
pub proof fn law_one_lookup_at_most(step: StepView, events: Seq<EventView>)
    requires
        !(step.state is Deleting && step.action is Resolve),
    ensures
        lookups(step, events) <= 1,
    decreases events.len(),
{
    if events.len() > 0 {
        let then = next(step.state, events[0]);
        if step.action is Resolve || !(then.action is Resolve) {
            lemma_no_lookup_after_deletion(then, events.drop_first());
        } else {
            law_one_lookup_at_most(then, events.drop_first());
        }
    }
}

/// The metadata are asked for only of a link that validation accepted, at
/// the address that its serialization gives: at once after the deletion of
/// the command message, after the lookup of a short link, or for a link
/// that was accepted before that deletion.
pub proof fn law_metadata_follow_validation(state: StateView, event: EventView)
    ensures
        next(state, event).action matches ActionView::FetchMetadata { url } ==> match state {
            StateView::Deleting { url: raw, .. } => checked(raw) matches ValidationView::Accepted(
                link,
            ) && url == metadata_url(link.href),
            StateView::Lookup { .. } => event matches EventView::Resolved(lookup) && resolved(
                lookup,
            ) matches Ok(link) && url == metadata_url(link.href),
            StateView::DeletingAccepted { link, .. } => url == metadata_url(link.href),
            _ => false,
        },
{
}

/// What goes wrong before the summary is answered with a message of its own;
/// what goes wrong with the preview is written over the placeholder.
pub proof fn law_notice_fits_outcome(state: StateView, event: EventView)
    ensures
        !(state is Reporting) ==> match next(state, event).state {
            StateView::Reporting(Outcome::InvalidUrl(_)) => next(state, event).action is Send,
            StateView::Reporting(Outcome::MetadataFetchError) => next(state, event).action
                is Send,
            StateView::Reporting(Outcome::UnexpectedKind) => next(state, event).action is Send,
            StateView::Reporting(Outcome::PreviewUnavailable) => next(state, event).action
                is EditPlaceholder,
            StateView::Reporting(Outcome::TranscodeFailure) => next(state, event).action
                is EditPlaceholder,
            StateView::Reporting(_) => false,
            _ => true,
        },
{
}

/// The summary is sent only for a post that was read, and the preview is
/// asked for only after the summary and the placeholder were delivered.
pub proof fn law_summary_comes_first(state: StateView, event: EventView)
    ensures
        next(state, event).state is Summary ==> state is Metadata,
        next(state, event).state is Placeholder ==> state is Summary && event is Delivered,
        next(state, event).state is Transcoding || next(state, event).state is Preview ==> state
            is Placeholder && event is Delivered,
        next(state, event).state is Media ==> state is Transcoding || state is Preview,
{
}

/// A refusal of the chat, or an event that was not asked for, ends the
/// handling at once; nothing is tried again.
pub proof fn law_failure_ends(state: StateView, event: EventView)
    ensures
        event is TransportFailed ==> next(state, event).state is Finished && next(
            state,
            event,
        ).action is Finish,
        next(state, event).action is Finish <==> next(state, event).state is Finished,
        state is Finished ==> next(state, event) == finished(Outcome::OutOfTurn),
{
}

} // verus!
