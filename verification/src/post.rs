//! The metadata of a post: the JSON document that the endpoint answers with,
//! the path in it that holds the post, and the fields read from there.

use crate::text::same_text;
use vstd::prelude::*;
use vstd::string::*;

verus! {

/// A JSON value as `serde_json` deserializes it.
#[verifier::external_type_specification]
#[verifier::external_body]
pub struct ExJsonValue(serde_json::Value);

/// A JSON document, with what the handler reads of each value. Of a number
/// that is what it is as an `i64`, if it is one; of an object the members
/// in the order in which the deserialized map hands them out. Nothing here
/// rests on that order or on a key standing once: where a key stands twice,
/// its first member is the one that is read.
#[derive(Debug, PartialEq, Eq)]
pub enum Json {
    Null,
    Bool(bool),
    Number(Option<i64>),
    Text(String),
    Array(Vec<Json>),
    Object(Vec<(String, Json)>),
}

/// A JSON document as a value: texts and lists as sequences.
pub enum JsonView {
    Null,
    Bool(bool),
    Number(Option<i64>),
    Text(Seq<char>),
    Array(Seq<JsonView>),
    Object(Seq<(Seq<char>, JsonView)>),
}

/// The value that a document stands for.
pub open spec fn json_view(doc: Json) -> JsonView
    decreases doc,
{
    match doc {
        Json::Null => JsonView::Null,
        Json::Bool(flag) => JsonView::Bool(flag),
        Json::Number(number) => JsonView::Number(number),
        Json::Text(text) => JsonView::Text(text@),
        Json::Array(items) => JsonView::Array(
            Seq::new(
                items@.len(),
                |i: int|
                    if 0 <= i < items@.len() {
                        json_view(items@[i])
                    } else {
                        JsonView::Null
                    },
            ),
        ),
        Json::Object(fields) => JsonView::Object(
            Seq::new(
                fields@.len(),
                |i: int|
                    if 0 <= i < fields@.len() {
                        (fields@[i].0@, json_view(fields@[i].1))
                    } else {
                        (Seq::empty(), JsonView::Null)
                    },
            ),
        ),
    }
}

impl View for Json {
    type V = JsonView;

    open spec fn view(&self) -> JsonView {
        json_view(*self)
    }
}

/// What `serde_json::from_slice` makes of `bytes` when asked for a
/// `serde_json::Value`: the document, or the text that its error displays as.
pub uninterp spec fn json_document(bytes: Seq<u8>) -> Result<JsonView, Seq<char>>;

/// The text that `html_escape::decode_html_entities` makes of `text`.
pub uninterp spec fn html_decoded(text: Seq<char>) -> Seq<char>;

/// Where the preview of a post comes from.
#[derive(Clone, Debug, PartialEq, Eq)]
pub enum PreviewSource {
    /// A video hosted with the post, as the URL of its HLS stream.
    Stream(String),
    /// A media file that the post points to.
    Direct(String),
    /// The post has no preview.
    Absent,
}

/// The source of a preview as a value.
pub enum PreviewSourceView {
    Stream(Seq<char>),
    Direct(Seq<char>),
    Absent,
}

impl View for PreviewSource {
    type V = PreviewSourceView;

    open spec fn view(&self) -> PreviewSourceView {
        match self {
            PreviewSource::Stream(url) => PreviewSourceView::Stream(url@),
            PreviewSource::Direct(url) => PreviewSourceView::Direct(url@),
            PreviewSource::Absent => PreviewSourceView::Absent,
        }
    }
}

/// What is shown of a post.
#[derive(Clone, Debug, PartialEq, Eq)]
pub struct PostSummary {
    pub title: String,
    pub subreddit: String,
    pub author: String,
    pub score: i64,
    pub preview: PreviewSource,
}

/// A summary as a value.
pub struct PostSummaryView {
    pub title: Seq<char>,
    pub subreddit: Seq<char>,
    pub author: Seq<char>,
    pub score: int,
    pub preview: PreviewSourceView,
}

impl View for PostSummary {
    type V = PostSummaryView;

    open spec fn view(&self) -> PostSummaryView {
        PostSummaryView {
            title: self.title@,
            subreddit: self.subreddit@,
            author: self.author@,
            score: self.score as int,
            preview: self.preview@,
        }
    }
}

/// Why the metadata of a post could not be read.
#[derive(Clone, Debug, PartialEq, Eq)]
pub enum MetadataError {
    /// The response is no JSON document; the text says why.
    Syntax(String),
    /// The document does not hold the fields of a post where they belong.
    Shape,
}

/// An error as a value.
pub enum MetadataErrorView {
    Syntax(Seq<char>),
    Shape,
}

impl View for MetadataError {
    type V = MetadataErrorView;

    open spec fn view(&self) -> MetadataErrorView {
        match self {
            MetadataError::Syntax(reason) => MetadataErrorView::Syntax(reason@),
            MetadataError::Shape => MetadataErrorView::Shape,
        }
    }
}

/// The member of `fields` under `key`: the first one with that key.
pub open spec fn lookup(fields: Seq<(Seq<char>, JsonView)>, key: Seq<char>) -> Option<JsonView>
    decreases fields.len(),
{
    if fields.len() == 0 {
        None
    } else if fields[0].0 == key {
        Some(fields[0].1)
    } else {
        lookup(fields.drop_first(), key)
    }
}

/// The member of an object under `key`; `None` for anything but an object
/// that has it.
pub open spec fn member(doc: JsonView, key: Seq<char>) -> Option<JsonView> {
    match doc {
        JsonView::Object(fields) => lookup(fields, key),
        _ => None,
    }
}

/// The member of an object under `key`, and `Null` where there is none.
pub open spec fn field(doc: JsonView, key: Seq<char>) -> JsonView {
    match member(doc, key) {
        Some(found) => found,
        None => JsonView::Null,
    }
}

/// The element of an array at `index`, and `Null` where there is none.
pub open spec fn element(doc: JsonView, index: int) -> JsonView {
    match doc {
        JsonView::Array(items) => if 0 <= index < items.len() {
            items[index]
        } else {
            JsonView::Null
        },
        _ => JsonView::Null,
    }
}

/// The text of a value, if it is a text.
pub open spec fn text_of(value: Option<JsonView>) -> Option<Seq<char>> {
    match value {
        Some(JsonView::Text(text)) => Some(text),
        _ => None,
    }
}

/// The integer of a value, if it is a number that is an `i64`.
pub open spec fn integer_of(value: Option<JsonView>) -> Option<i64> {
    match value {
        Some(JsonView::Number(Some(n))) => Some(n),
        _ => None,
    }
}

/// The value that holds the post in a response: under `data` of the first of
/// the `children` under `data` of the first element.
pub open spec fn post_of(doc: JsonView) -> JsonView {
    field(element(field(field(element(doc, 0), "data"@), "children"@), 0), "data"@)
}

/// Where the preview of a post comes from. A post with embedded media shows
/// its video stream or nothing; any other post shows what it points to.
pub open spec fn preview_of(post: JsonView) -> PreviewSourceView {
    match member(post, "secure_media"@) {
        Some(media) if !(media is Null) => match text_of(
            member(field(media, "reddit_video"@), "hls_url"@),
        ) {
            Some(url) => PreviewSourceView::Stream(url),
            None => PreviewSourceView::Absent,
        },
        _ => match text_of(member(post, "url_overridden_by_dest"@)) {
            Some(url) => PreviewSourceView::Direct(url),
            None => PreviewSourceView::Absent,
        },
    }
}

/// The summary that a post holds, with the title as the document has it;
/// `None` where one of title, subreddit, author and score is missing or of
/// another type.
pub open spec fn summary_of(post: JsonView) -> Option<PostSummaryView> {
    match (
        text_of(member(post, "title"@)),
        text_of(member(post, "subreddit"@)),
        text_of(member(post, "author"@)),
        integer_of(member(post, "score"@)),
    ) {
        (Some(title), Some(subreddit), Some(author), Some(score)) => Some(
            PostSummaryView {
                title,
                subreddit,
                author,
                score: score as int,
                preview: preview_of(post),
            },
        ),
        _ => None,
    }
}

/// The summary with the HTML entities of its title decoded.
pub open spec fn with_decoded_title(summary: PostSummaryView) -> PostSummaryView {
    PostSummaryView { title: html_decoded(summary.title), ..summary }
}

/// The summary that a response holds, or why it holds none.
pub open spec fn post_summary(bytes: Seq<u8>) -> Result<PostSummaryView, MetadataErrorView> {
    match json_document(bytes) {
        Err(reason) => Err(MetadataErrorView::Syntax(reason)),
        Ok(doc) => match summary_of(post_of(doc)) {
            None => Err(MetadataErrorView::Shape),
            Some(summary) => Ok(with_decoded_title(summary)),
        },
    }
}

/// Turns a value of `serde_json` into a [`Json`], variant by variant; a
/// number by `serde_json::Number::as_i64`. Nothing is stated of the result:
/// [`parse`] names it.
#[verifier::external_body]
fn from_value(value: serde_json::Value) -> Json {
    match value {
        serde_json::Value::Null => Json::Null,
        serde_json::Value::Bool(flag) => Json::Bool(flag),
        serde_json::Value::Number(number) => Json::Number(number.as_i64()),
        serde_json::Value::String(text) => Json::Text(text),
        serde_json::Value::Array(items) => Json::Array(items.into_iter().map(from_value).collect()),
        serde_json::Value::Object(fields) => Json::Object(
            fields.into_iter().map(|(key, value)| (key, from_value(value))).collect(),
        ),
    }
}

/// `serde_json::from_slice`, for a `serde_json::Value`, handed back as a
/// [`Json`], and its error as the text that it displays as. The contract
/// only names the result.
#[verifier::external_body]
fn parse(bytes: &[u8]) -> (r: Result<Json, String>)
    ensures
        match r {
            Ok(doc) => json_document(bytes@) == Ok::<JsonView, Seq<char>>(doc@),
            Err(reason) => json_document(bytes@) == Err::<JsonView, Seq<char>>(reason@),
        },
{
    match serde_json::from_slice::<serde_json::Value>(bytes) {
        Ok(value) => Ok(from_value(value)),
        Err(e) => Err(e.to_string()),
    }
}

/// `html_escape::decode_html_entities`. The contract only names the result.
#[verifier::external_body]
fn decode_entities(text: &str) -> (r: String)
    ensures
        r@ == html_decoded(text@),
{
    html_escape::decode_html_entities(text).into_owned()
}

/// The members of an object, as its view has them.
pub open spec fn members_view(fields: Seq<(String, Json)>) -> Seq<(Seq<char>, JsonView)> {
    Seq::new(
        fields.len(),
        |i: int|
            if 0 <= i < fields.len() {
                (fields[i].0@, json_view(fields[i].1))
            } else {
                (Seq::empty(), JsonView::Null)
            },
    )
}

/// The member of an object under `key`.
pub fn get<'a>(doc: &'a Json, key: &str) -> (r: Option<&'a Json>)
    ensures
        match r {
            Some(found) => member(doc@, key@) == Some(found@),
            None => member(doc@, key@) is None,
        },
{
    match doc {
        Json::Object(fields) => {
            let n: usize = fields.len();
            let mut i: usize = 0;
            proof {
                assert(doc@ is Object);
                assert(doc@->Object_0 =~= members_view(fields@));
                assert(members_view(fields@).skip(0) == members_view(fields@));
            }
            while i < n
                invariant
                    member(doc@, key@) == lookup(members_view(fields@), key@),
                    n == fields@.len(),
                    i <= n,
                    lookup(members_view(fields@), key@) == lookup(
                        members_view(fields@).skip(i as int),
                        key@,
                    ),
                decreases n - i,
            {
                proof {
                    let rest = members_view(fields@).skip(i as int);
                    assert(rest[0] == members_view(fields@)[i as int]);
                    assert(rest.drop_first() == members_view(fields@).skip(i + 1));
                }
                if same_text(fields[i].0.as_str(), key) {
                    return Some(&fields[i].1);
                }
                i = i + 1;
            }
            None
        },
        _ => None,
    }
}

/// The element of an array at `index`; `None` stands for `Null`.
pub fn at<'a>(doc: &'a Json, index: usize) -> (r: Option<&'a Json>)
    ensures
        match r {
            Some(found) => element(doc@, index as int) == found@,
            None => element(doc@, index as int) is Null,
        },
{
    match doc {
        Json::Array(items) => if index < items.len() {
            Some(&items[index])
        } else {
            None
        },
        _ => None,
    }
}

/// The value that holds the post in a response; `None` stands for `Null`.
pub fn find_post<'a>(doc: &'a Json) -> (r: Option<&'a Json>)
    ensures
        match r {
            Some(post) => post_of(doc@) == post@,
            None => post_of(doc@) is Null,
        },
{
    let first = match at(doc, 0) {
        Some(found) => found,
        None => {
            return None;
        },
    };
    let listing = match get(first, "data") {
        Some(found) => found,
        None => {
            return None;
        },
    };
    let children = match get(listing, "children") {
        Some(found) => found,
        None => {
            return None;
        },
    };
    let child = match at(children, 0) {
        Some(found) => found,
        None => {
            return None;
        },
    };
    get(child, "data")
}

/// The text under `key` of an object, if there is one.
pub fn text_at(doc: &Json, key: &str) -> (r: Option<String>)
    ensures
        match r {
            Some(text) => text_of(member(doc@, key@)) == Some(text@),
            None => text_of(member(doc@, key@)) is None,
        },
{
    match get(doc, key) {
        Some(Json::Text(text)) => Some(text.clone()),
        _ => None,
    }
}

/// The integer under `key` of an object, if there is one.
pub fn integer_at(doc: &Json, key: &str) -> (r: Option<i64>)
    ensures
        r == integer_of(member(doc@, key@)),
{
    match get(doc, key) {
        Some(Json::Number(Some(n))) => Some(*n),
        _ => None,
    }
}

/// Where the preview of a post comes from.
pub fn preview_source(post: &Json) -> (r: PreviewSource)
    ensures
        r@ == preview_of(post@),
{
    let embedded = match get(post, "secure_media") {
        Some(Json::Null) => None,
        Some(media) => Some(media),
        None => None,
    };
    match embedded {
        Some(media) => {
            let stream = match get(media, "reddit_video") {
                Some(video) => text_at(video, "hls_url"),
                None => None,
            };
            match stream {
                Some(url) => PreviewSource::Stream(url),
                None => PreviewSource::Absent,
            }
        },
        None => match text_at(post, "url_overridden_by_dest") {
            Some(url) => PreviewSource::Direct(url),
            None => PreviewSource::Absent,
        },
    }
}

/// The summary that a post holds, with the title as the document has it.
pub fn extract(post: &Json) -> (r: Option<PostSummary>)
    ensures
        match r {
            Some(summary) => summary_of(post@) == Some(summary@),
            None => summary_of(post@) is None,
        },
{
    let title = match text_at(post, "title") {
        Some(text) => text,
        None => {
            return None;
        },
    };
    let subreddit = match text_at(post, "subreddit") {
        Some(text) => text,
        None => {
            return None;
        },
    };
    let author = match text_at(post, "author") {
        Some(text) => text,
        None => {
            return None;
        },
    };
    let score = match integer_at(post, "score") {
        Some(n) => n,
        None => {
            return None;
        },
    };
    let preview = preview_source(post);
    Some(PostSummary { title, subreddit, author, score, preview })
}

/// The summary that a document holds, with the title as the document has it.
pub fn summarize(doc: &Json) -> (r: Option<PostSummary>)
    ensures
        match r {
            Some(summary) => summary_of(post_of(doc@)) == Some(summary@),
            None => summary_of(post_of(doc@)) is None,
        },
{
    match find_post(doc) {
        Some(post) => extract(post),
        None => None,
    }
}

/// Decodes the HTML entities of the title.
pub fn decode_title(summary: PostSummary) -> (r: PostSummary)
    ensures
        r@ == with_decoded_title(summary@),
{
    let title = decode_entities(summary.title.as_str());
    PostSummary {
        title,
        subreddit: summary.subreddit,
        author: summary.author,
        score: summary.score,
        preview: summary.preview,
    }
}

/// Reads the summary of a post from the bytes of a response.
pub fn read_post(bytes: &[u8]) -> (r: Result<PostSummary, MetadataError>)
    ensures
        match r {
            Ok(summary) => post_summary(bytes@) == Ok::<PostSummaryView, MetadataErrorView>(
                summary@,
            ),
            Err(e) => post_summary(bytes@) == Err::<PostSummaryView, MetadataErrorView>(e@),
        },
{
    match parse(bytes) {
        Err(reason) => Err(MetadataError::Syntax(reason)),
        Ok(doc) => match summarize(&doc) {
            Some(summary) => Ok(decode_title(summary)),
            None => Err(MetadataError::Shape),
        },
    }
}

} // verus!
