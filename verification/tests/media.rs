use reddit_embed::media::{
    classify, classify_declared, classify_sniffed, delivery, file_name, kind_of_signature,
    Classification, Delivery, MediaKind, Sniffed,
};

const PNG: [u8; 12] = [0x89, b'P', b'N', b'G', 0x0d, 0x0a, 0x1a, 0x0a, 0, 0, 0, 13];
const JPEG: [u8; 4] = [0xff, 0xd8, 0xff, 0xe0];

#[test]
fn declared_jpeg_is_jpeg_whatever_the_bytes() {
    let payloads: [&[u8]; 5] = [&[], &PNG, &JPEG, b"GIF89a", b"<html></html>"];
    for bytes in payloads {
        assert_eq!(classify("image/jpeg", bytes), Classification::Known(MediaKind::Jpeg));
    }
}

#[test]
fn each_recognized_type_decides_alone() {
    assert_eq!(classify("image/gif", &PNG), Classification::Known(MediaKind::Gif));
    assert_eq!(classify("video/mpeg", &PNG), Classification::Known(MediaKind::Mpeg));
    assert_eq!(classify("video/mp4", &[]), Classification::Known(MediaKind::Mp4));
    assert_eq!(classify_declared("image/gif"), Some(MediaKind::Gif));
    assert_eq!(classify_declared("image/jpeg"), Some(MediaKind::Jpeg));
    assert_eq!(classify_declared("video/mpeg"), Some(MediaKind::Mpeg));
    assert_eq!(classify_declared("video/mp4"), Some(MediaKind::Mp4));
}

#[test]
fn declared_type_must_match_exactly() {
    for declared in ["image/png", "IMAGE/JPEG", "image/jpeg; charset=binary", " image/gif", "", "image/jpg"] {
        assert_eq!(classify_declared(declared), None);
    }
}

#[test]
fn png_signature_under_a_generic_type_is_png() {
    assert_eq!(classify("application/octet-stream", &PNG), Classification::Known(MediaKind::Png));
    assert_eq!(classify("image/png", &PNG), Classification::Known(MediaKind::Png));
    assert_eq!(classify("", &PNG[..8]), Classification::Known(MediaKind::Png));
}

#[test]
fn other_signatures_are_sniffed_too() {
    assert_eq!(classify("application/octet-stream", &JPEG), Classification::Known(MediaKind::Jpeg));
    assert_eq!(classify_sniffed(b"GIF89a\x01\x00"), Classification::Known(MediaKind::Gif));
    assert_eq!(classify_sniffed(b"GIF87a"), Classification::Known(MediaKind::Gif));
    assert_eq!(classify_sniffed(&[0xff, 0xd8, 0xff]), Classification::Known(MediaKind::Jpeg));
}

#[test]
fn html_is_unclassified() {
    assert_eq!(classify("text/html", b"<!DOCTYPE html><html></html>"), Classification::Unclassified);
}

#[test]
fn unknown_or_other_signatures_are_unclassified() {
    let payloads: [&[u8]; 7] =
        [&[], b"RIFF\x00\x00\x00\x00WEBP", b"BM\x00\x00", b"GIF88a", &PNG[..7], &[0xff, 0xd8], b"\x00\x00\x00\x18ftypmp42"];
    for bytes in payloads {
        assert_eq!(classify("application/octet-stream", bytes), Classification::Unclassified);
        assert_eq!(classify_sniffed(bytes), Classification::Unclassified);
    }
}

#[test]
fn signatures_stand_for_their_kinds() {
    assert_eq!(kind_of_signature(Sniffed::Png), Classification::Known(MediaKind::Png));
    assert_eq!(kind_of_signature(Sniffed::Jpeg), Classification::Known(MediaKind::Jpeg));
    assert_eq!(kind_of_signature(Sniffed::Gif), Classification::Known(MediaKind::Gif));
    assert_eq!(kind_of_signature(Sniffed::Other), Classification::Unclassified);
    assert_eq!(kind_of_signature(Sniffed::Unknown), Classification::Unclassified);
}

#[test]
fn kinds_are_delivered_by_their_operation() {
    assert_eq!(delivery(MediaKind::Gif, false), Delivery::Animation);
    assert_eq!(delivery(MediaKind::Gif, true), Delivery::Photo);
    assert_eq!(delivery(MediaKind::Jpeg, false), Delivery::Photo);
    assert_eq!(delivery(MediaKind::Jpeg, true), Delivery::Photo);
    assert_eq!(delivery(MediaKind::Png, true), Delivery::Photo);
    assert_eq!(delivery(MediaKind::Mpeg, false), Delivery::Video);
    assert_eq!(delivery(MediaKind::Mp4, false), Delivery::Video);
}

#[test]
fn kinds_have_their_file_names() {
    assert_eq!(file_name(MediaKind::Gif), "preview.gif");
    assert_eq!(file_name(MediaKind::Jpeg), "preview.jpg");
    assert_eq!(file_name(MediaKind::Png), "preview.png");
    assert_eq!(file_name(MediaKind::Mpeg), "preview.mpeg");
    assert_eq!(file_name(MediaKind::Mp4), "preview.mp4");
}
