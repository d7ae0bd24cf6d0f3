//! The kind of a preview payload: taken from the declared content type where
//! that is one of the recognized ones, else sniffed from the first bytes.

use crate::text::same_text;
use vstd::prelude::*;
use vstd::string::*;

verus! {

/// A kind of payload that can be shown.
#[derive(Clone, Copy, Debug, PartialEq, Eq, Structural)]
pub enum MediaKind {
    Gif,
    Jpeg,
    Png,
    Mpeg,
    Mp4,
}

/// The outcome of classification.
#[derive(Clone, Copy, Debug, PartialEq, Eq, Structural)]
pub enum Classification {
    Known(MediaKind),
    /// Nothing that can be shown: the caller reports that no preview is
    /// available and sends nothing.
    Unclassified,
}

/// What the signature at the start of a payload says.
#[derive(Clone, Copy, Debug, PartialEq, Eq, Structural)]
pub enum Sniffed {
    Png,
    Jpeg,
    Gif,
    /// The signature of another image format.
    Other,
    /// No signature that is known.
    Unknown,
}

/// The transport operation that delivers a payload.
#[derive(Clone, Copy, Debug, PartialEq, Eq, Structural)]
pub enum Delivery {
    Animation,
    Photo,
    Video,
}

/// Whether `bytes` begins with `prefix`.
pub open spec fn starts_with(bytes: Seq<u8>, prefix: Seq<u8>) -> bool {
    prefix.len() <= bytes.len() && bytes.subrange(0, prefix.len() as int) == prefix
}

/// The eight bytes that begin a PNG file.
pub open spec fn png_signature() -> Seq<u8> {
    seq![0x89u8, 0x50u8, 0x4eu8, 0x47u8, 0x0du8, 0x0au8, 0x1au8, 0x0au8]
}

/// The three bytes that begin a JPEG file.
pub open spec fn jpeg_signature() -> Seq<u8> {
    seq![0xffu8, 0xd8u8, 0xffu8]
}

/// `GIF89a`, one of the two beginnings of a GIF file.
pub open spec fn gif89_signature() -> Seq<u8> {
    seq![0x47u8, 0x49u8, 0x46u8, 0x38u8, 0x39u8, 0x61u8]
}

/// `GIF87a`, the other beginning of a GIF file.
pub open spec fn gif87_signature() -> Seq<u8> {
    seq![0x47u8, 0x49u8, 0x46u8, 0x38u8, 0x37u8, 0x61u8]
}

/// The kind that a declared content type stands for, if it is one of the
/// four recognized ones.
pub open spec fn declared_kind(declared: Seq<char>) -> Option<MediaKind> {
    if declared == "image/gif"@ {
        Some(MediaKind::Gif)
    } else if declared == "image/jpeg"@ {
        Some(MediaKind::Jpeg)
    } else if declared == "video/mpeg"@ {
        Some(MediaKind::Mpeg)
    } else if declared == "video/mp4"@ {
        Some(MediaKind::Mp4)
    } else {
        None
    }
}

/// The kind that the first bytes of a payload give away.
pub open spec fn sniffed_kind(bytes: Seq<u8>) -> Classification {
    if starts_with(bytes, png_signature()) {
        Classification::Known(MediaKind::Png)
    } else if starts_with(bytes, jpeg_signature()) {
        Classification::Known(MediaKind::Jpeg)
    } else if starts_with(bytes, gif89_signature()) || starts_with(bytes, gif87_signature()) {
        Classification::Known(MediaKind::Gif)
    } else {
        Classification::Unclassified
    }
}

/// The kind of a payload: the declared one where it is recognized, else the
/// sniffed one.
pub open spec fn classified(declared: Seq<char>, bytes: Seq<u8>) -> Classification {
    match declared_kind(declared) {
        Some(kind) => Classification::Known(kind),
        None => sniffed_kind(bytes),
    }
}

/// How a payload of a kind is delivered. A GIF goes out as an animation
/// where its content type declared it, and as a photo where it was sniffed.
pub open spec fn delivery_of(kind: MediaKind, sniffed: bool) -> Delivery {
    match kind {
        MediaKind::Gif => if sniffed {
            Delivery::Photo
        } else {
            Delivery::Animation
        },
        MediaKind::Jpeg => Delivery::Photo,
        MediaKind::Png => Delivery::Photo,
        MediaKind::Mpeg => Delivery::Video,
        MediaKind::Mp4 => Delivery::Video,
    }
}

/// The file name under which a payload of a kind is delivered.
pub open spec fn file_name_of(kind: MediaKind) -> Seq<char> {
    match kind {
        MediaKind::Gif => "preview.gif"@,
        MediaKind::Jpeg => "preview.jpg"@,
        MediaKind::Png => "preview.png"@,
        MediaKind::Mpeg => "preview.mpeg"@,
        MediaKind::Mp4 => "preview.mp4"@,
    }
}

/// `image::guess_format`, which returns the format of the first entry of its
/// signature table that begins `bytes`. PNG is the first entry, JPEG the
/// second, the two GIF signatures follow, and none of the later entries
/// stands for one of these three formats; the contract says for each of the
/// three exactly when it comes back. Of `Other` and `Unknown` it says only
/// that they are what is left.
#[verifier::external_body]
fn guess_format(bytes: &[u8]) -> (r: Sniffed)
    ensures
        r == Sniffed::Png <==> starts_with(bytes@, png_signature()),
        r == Sniffed::Jpeg <==> starts_with(bytes@, jpeg_signature()),
        r == Sniffed::Gif <==> starts_with(bytes@, gif89_signature()) || starts_with(
            bytes@,
            gif87_signature(),
        ),
{
    match image::guess_format(bytes) {
        Ok(image::ImageFormat::Png) => Sniffed::Png,
        Ok(image::ImageFormat::Jpeg) => Sniffed::Jpeg,
        Ok(image::ImageFormat::Gif) => Sniffed::Gif,
        Ok(_) => Sniffed::Other,
        Err(_) => Sniffed::Unknown,
    }
}

/// The kind that a signature stands for.
pub fn kind_of_signature(sniffed: Sniffed) -> (r: Classification)
    ensures
        r == match sniffed {
            Sniffed::Png => Classification::Known(MediaKind::Png),
            Sniffed::Jpeg => Classification::Known(MediaKind::Jpeg),
            Sniffed::Gif => Classification::Known(MediaKind::Gif),
            Sniffed::Other => Classification::Unclassified,
            Sniffed::Unknown => Classification::Unclassified,
        },
{
    match sniffed {
        Sniffed::Png => Classification::Known(MediaKind::Png),
        Sniffed::Jpeg => Classification::Known(MediaKind::Jpeg),
        Sniffed::Gif => Classification::Known(MediaKind::Gif),
        Sniffed::Other => Classification::Unclassified,
        Sniffed::Unknown => Classification::Unclassified,
    }
}

/// The kind that a declared content type stands for. It is given no bytes.
pub fn classify_declared(declared: &str) -> (r: Option<MediaKind>)
    ensures
        r == declared_kind(declared@),
{
    if same_text(declared, "image/gif") {
        Some(MediaKind::Gif)
    } else if same_text(declared, "image/jpeg") {
        Some(MediaKind::Jpeg)
    } else if same_text(declared, "video/mpeg") {
        Some(MediaKind::Mpeg)
    } else if same_text(declared, "video/mp4") {
        Some(MediaKind::Mp4)
    } else {
        None
    }
}

/// The kind that the signature at the start of `bytes` gives away.
pub fn classify_sniffed(bytes: &[u8]) -> (r: Classification)
    ensures
        r == sniffed_kind(bytes@),
{
    proof {
        lemma_signatures_differ(bytes@);
    }
    kind_of_signature(guess_format(bytes))
}

/// Classifies a payload by its declared content type and, only where that is
/// none of the recognized ones, by its first bytes.
pub fn classify(declared: &str, bytes: &[u8]) -> (r: Classification)
    ensures
        r == classified(declared@, bytes@),
{
    match classify_declared(declared) {
        Some(kind) => Classification::Known(kind),
        None => classify_sniffed(bytes),
    }
}

/// How a payload of a kind is delivered.
pub fn delivery(kind: MediaKind, sniffed: bool) -> (r: Delivery)
    ensures
        r == delivery_of(kind, sniffed),
{
    match kind {
        MediaKind::Gif => if sniffed {
            Delivery::Photo
        } else {
            Delivery::Animation
        },
        MediaKind::Jpeg => Delivery::Photo,
        MediaKind::Png => Delivery::Photo,
        MediaKind::Mpeg => Delivery::Video,
        MediaKind::Mp4 => Delivery::Video,
    }
}

/// The file name under which a payload of a kind is delivered.
pub fn file_name(kind: MediaKind) -> (r: String)
    ensures
        r@ == file_name_of(kind),
{
    match kind {
        MediaKind::Gif => String::from_str("preview.gif"),
        MediaKind::Jpeg => String::from_str("preview.jpg"),
        MediaKind::Png => String::from_str("preview.png"),
        MediaKind::Mpeg => String::from_str("preview.mpeg"),
        MediaKind::Mp4 => String::from_str("preview.mp4"),
    }
}

/// No payload begins with the signatures of two formats.
pub proof fn lemma_signatures_differ(bytes: Seq<u8>)
    ensures
        !(starts_with(bytes, png_signature()) && starts_with(bytes, jpeg_signature())),
        !(starts_with(bytes, png_signature()) && starts_with(bytes, gif89_signature())),
        !(starts_with(bytes, png_signature()) && starts_with(bytes, gif87_signature())),
        !(starts_with(bytes, jpeg_signature()) && starts_with(bytes, gif89_signature())),
        !(starts_with(bytes, jpeg_signature()) && starts_with(bytes, gif87_signature())),
{
    if starts_with(bytes, png_signature()) {
        assert(bytes.subrange(0, 8)[0] == 0x89u8);
        assert(bytes[0] == 0x89u8);
    }
    if starts_with(bytes, jpeg_signature()) {
        assert(bytes.subrange(0, 3)[0] == 0xffu8);
        assert(bytes[0] == 0xffu8);
    }
    if starts_with(bytes, gif89_signature()) {
        assert(bytes.subrange(0, 6)[0] == 0x47u8);
        assert(bytes[0] == 0x47u8);
    }
    if starts_with(bytes, gif87_signature()) {
        assert(bytes.subrange(0, 6)[0] == 0x47u8);
        assert(bytes[0] == 0x47u8);
    }
}

/// A payload declared as JPEG is JPEG, whatever its bytes.
pub proof fn law_declared_jpeg(bytes: Seq<u8>)
    ensures
        classified("image/jpeg"@, bytes) == Classification::Known(MediaKind::Jpeg),
{
    reveal_strlit("image/jpeg");
    reveal_strlit("image/gif");
    assert("image/jpeg"@.len() != "image/gif"@.len());
}

/// A recognized declared type decides alone: two payloads with the same
/// declared type are classified alike.
pub proof fn law_declared_decides(declared: Seq<char>, first: Seq<u8>, second: Seq<u8>)
    requires
        declared_kind(declared) is Some,
    ensures
        classified(declared, first) == classified(declared, second),
        classified(declared, first) == Classification::Known(declared_kind(declared).unwrap()),
{
}

/// Under a declared type that is none of the recognized ones the first
/// bytes decide: the PNG signature gives PNG, the JPEG signature JPEG, either
/// GIF signature GIF, and anything else is unclassified.
pub proof fn law_unrecognized_type_is_sniffed(declared: Seq<char>, bytes: Seq<u8>)
    requires
        declared_kind(declared) is None,
    ensures
        classified(declared, bytes) == sniffed_kind(bytes),
        starts_with(bytes, png_signature()) ==> classified(declared, bytes)
            == Classification::Known(MediaKind::Png),
        starts_with(bytes, jpeg_signature()) ==> classified(declared, bytes)
            == Classification::Known(MediaKind::Jpeg),
        starts_with(bytes, gif89_signature()) || starts_with(bytes, gif87_signature())
            ==> classified(declared, bytes) == Classification::Known(MediaKind::Gif),
        !starts_with(bytes, png_signature()) && !starts_with(bytes, jpeg_signature())
            && !starts_with(bytes, gif89_signature()) && !starts_with(bytes, gif87_signature())
            ==> classified(declared, bytes) == Classification::Unclassified,
{
    lemma_signatures_differ(bytes);
}

/// A payload with the PNG signature under a generic declared type is PNG.
pub proof fn law_octet_stream_png(bytes: Seq<u8>)
    requires
        starts_with(bytes, png_signature()),
    ensures
        classified("application/octet-stream"@, bytes) == Classification::Known(MediaKind::Png),
{
    lemma_unrecognized_types();
}

/// A payload declared as HTML that begins with none of the three image
/// signatures is unclassified.
pub proof fn law_html_is_unclassified(bytes: Seq<u8>)
    requires
        !starts_with(bytes, png_signature()),
        !starts_with(bytes, jpeg_signature()),
        !starts_with(bytes, gif89_signature()),
        !starts_with(bytes, gif87_signature()),
    ensures
        classified("text/html"@, bytes) == Classification::Unclassified,
{
    lemma_unrecognized_types();
}

/// Neither the generic binary type nor HTML is one of the recognized
/// declared types.
pub proof fn lemma_unrecognized_types()
    ensures
        declared_kind("application/octet-stream"@) is None,
        declared_kind("text/html"@) is None,
{
    reveal_strlit("application/octet-stream");
    reveal_strlit("text/html");
    reveal_strlit("image/gif");
    reveal_strlit("image/jpeg");
    reveal_strlit("video/mpeg");
    reveal_strlit("video/mp4");
    assert("application/octet-stream"@.len() == 24);
    assert("image/gif"@.len() == 9);
    assert("image/jpeg"@.len() == 10);
    assert("video/mpeg"@.len() == 10);
    assert("video/mp4"@.len() == 9);
    assert("text/html"@[0] == 't');
    assert("image/gif"@[0] == 'i');
    assert("image/jpeg"@[0] == 'i');
    assert("video/mpeg"@[0] == 'v');
    assert("video/mp4"@[0] == 'v');
}

} // verus!
