use clip_bridge::mime::best_offered_mime_type;
use clip_bridge::{
    decode_clipboard_content, is_image_mime_type, is_text_mime_type, ClipboardContent,
    IMAGE_JPEG_MIME, IMAGE_JPG_MIME, IMAGE_MIME_TYPES, IMAGE_PNG_MIME, PREFERRED_MIME_TYPES,
    TEXT_MIME_TYPES, TEXT_PLAIN_ATOM, TEXT_PLAIN_UTF8_ATOM, UTF8_STRING_ATOM,
};
use compact_str::{CompactString, ToCompactString};
use std::sync::Arc;

fn text(content: &str) -> ClipboardContent {
    ClipboardContent::Text(content.to_compact_string())
}

fn image(mime_type: &str, bytes: &[u8]) -> ClipboardContent {
    decode_clipboard_content(mime_type, bytes.to_vec()).unwrap()
}

#[test]
fn text_formats_are_recognised() {
    assert!(is_text_mime_type("text/plain;charset=utf-8"));
    assert!(is_text_mime_type("text/plain"));
    assert!(is_text_mime_type("UTF8_STRING"));
    assert!(!is_text_mime_type("image/png"));
    assert!(!is_text_mime_type("text/html"));
    assert!(!is_text_mime_type(""));
}

#[test]
fn image_formats_are_recognised() {
    assert!(is_image_mime_type("image/png"));
    assert!(is_image_mime_type("image/jpeg"));
    assert!(is_image_mime_type("image/jpg"));
    assert!(!is_image_mime_type("image/gif"));
    assert!(!is_image_mime_type("text/plain"));
}

#[test]
fn legacy_text_targets_are_not_formats() {
    for name in ["STRING", "TEXT"] {
        assert!(!is_text_mime_type(name));
        assert!(!is_image_mime_type(name));
        assert!(!PREFERRED_MIME_TYPES.contains(&name));
    }
}

#[test]
fn images_are_preferred_to_text() {
    assert_eq!(
        PREFERRED_MIME_TYPES,
        [
            IMAGE_PNG_MIME,
            IMAGE_JPEG_MIME,
            IMAGE_JPG_MIME,
            TEXT_PLAIN_UTF8_ATOM,
            UTF8_STRING_ATOM,
            TEXT_PLAIN_ATOM
        ]
    );
    assert_eq!(IMAGE_MIME_TYPES, [IMAGE_PNG_MIME, IMAGE_JPEG_MIME, IMAGE_JPG_MIME]);
    assert_eq!(TEXT_MIME_TYPES, [TEXT_PLAIN_UTF8_ATOM, TEXT_PLAIN_ATOM, UTF8_STRING_ATOM]);
}

#[test]
fn utf8_text_is_decoded() {
    let content = decode_clipboard_content("text/plain", "gr\u{fc}n".as_bytes().to_vec()).unwrap();
    match &content {
        ClipboardContent::Text(text) => assert_eq!(text.as_str(), "gr\u{fc}n"),
        other => panic!("{other:?}"),
    }
    assert_eq!(content.len(), 5);
    assert!(!content.is_empty());
}

#[test]
fn text_that_is_not_utf8_is_refused() {
    let error = decode_clipboard_content("text/plain", vec![b'a', 0xff]).unwrap_err();
    assert_eq!(
        error,
        "Failed to decode text/plain as UTF-8: invalid utf-8 sequence of 1 bytes from index 1"
    );
}

#[test]
fn decoding_outcomes_become_contents() {
    let content =
        clip_bridge::content::text_content("UTF8_STRING", Ok(CompactString::new("x"))).unwrap();
    assert!(content == text("x"));
    let error =
        clip_bridge::content::text_content("UTF8_STRING", Err("bad".to_string())).unwrap_err();
    assert_eq!(error, "Failed to decode UTF8_STRING as UTF-8: bad");
}

#[test]
fn unknown_formats_are_refused() {
    let error = decode_clipboard_content("text/html", b"<p>".to_vec()).unwrap_err();
    assert_eq!(error, "Unsupported clipboard MIME type: text/html");
}

#[test]
fn images_are_kept_as_they_are() {
    match image("image/jpeg", &[0xff, 0xd8, 0x00]) {
        ClipboardContent::Data { mime_type, bytes, hash } => {
            assert_eq!(mime_type.as_str(), "image/jpeg");
            assert_eq!(&bytes[..], &[0xff, 0xd8, 0x00]);
            assert_eq!(hash, xxhash_rust::xxh3::xxh3_64(&[0xff, 0xd8, 0x00]));
        }
        other => panic!("{other:?}"),
    }
}

#[test]
fn images_are_hashed_with_xxh3() {
    match image("image/png", &[]) {
        ClipboardContent::Data { hash, .. } => assert_eq!(hash, 0x2d06_8005_38d3_94c2),
        other => panic!("{other:?}"),
    }
}

#[test]
fn a_given_hash_is_kept() {
    match clip_bridge::content::image_content("image/png", vec![1, 2], 7) {
        ClipboardContent::Data { mime_type, bytes, hash } => {
            assert_eq!(mime_type.as_str(), "image/png");
            assert_eq!(&bytes[..], &[1, 2]);
            assert_eq!(hash, 7);
        }
        other => panic!("{other:?}"),
    }
}

#[test]
fn text_is_given_out_in_every_text_format() {
    let content = text("abc");
    for mime_type in TEXT_MIME_TYPES {
        assert_eq!(content.bytes_for_mime(mime_type), Some(&b"abc"[..]));
    }
    assert_eq!(content.bytes_for_mime("image/png"), None);
    assert_eq!(content.bytes_for_mime("STRING"), None);
}

#[test]
fn images_are_given_out_in_their_own_format_only() {
    let content = image("image/jpeg", &[1, 2, 3]);
    assert_eq!(content.bytes_for_mime("image/jpeg"), Some(&[1u8, 2, 3][..]));
    assert_eq!(content.bytes_for_mime("image/jpg"), None);
    assert_eq!(content.bytes_for_mime("text/plain"), None);
}

#[test]
fn contents_are_offered_in_what_they_are() {
    assert_eq!(
        text("a").offered_mime_types(),
        vec!["text/plain;charset=utf-8", "text/plain", "UTF8_STRING"]
    );
    assert_eq!(image("image/png", &[1]).offered_mime_types(), vec!["image/png"]);
    assert!(ClipboardContent::Empty.offered_mime_types().is_empty());
}

#[test]
fn one_format_stands_for_a_content() {
    assert_eq!(text("a").primary_mime_type(), Some("text/plain;charset=utf-8"));
    assert_eq!(image("image/jpg", &[1]).primary_mime_type(), Some("image/jpg"));
    assert_eq!(ClipboardContent::Empty.primary_mime_type(), None);
}

#[test]
fn lengths_are_in_bytes() {
    assert_eq!(text("\u{20ac}").len(), 3);
    assert_eq!(image("image/png", &[1, 2, 3, 4]).len(), 4);
    assert_eq!(ClipboardContent::Empty.len(), 0);
    assert!(ClipboardContent::Empty.is_empty());
    assert!(text("").is_empty());
}

#[test]
fn texts_are_compared_by_characters() {
    assert!(text("same") == text("same"));
    assert!(text("same") != text("other"));
    assert!(text("same") != ClipboardContent::Empty);
    assert!(ClipboardContent::Empty == ClipboardContent::Empty);
}

#[test]
fn images_are_compared_by_hash() {
    let one = ClipboardContent::Data {
        mime_type: CompactString::new("image/png"),
        bytes: Arc::from(vec![1u8]),
        hash: 5,
    };
    let other = ClipboardContent::Data {
        mime_type: CompactString::new("image/jpeg"),
        bytes: Arc::from(vec![2u8]),
        hash: 5,
    };
    assert!(one == other);
    assert!(image("image/png", &[1]) == image("image/png", &[1]));
    assert!(image("image/png", &[1]) != image("image/png", &[2]));
    assert!(image("image/png", b"a") != text("a"));
}

#[test]
fn copies_are_equal() {
    let content = image("image/png", &[9, 8]);
    let copy = content.clone();
    assert!(copy == content);
    assert_eq!(copy.bytes_for_mime("image/png"), Some(&[9u8, 8][..]));
    assert!(text("abc").clone() == text("abc"));
}

#[test]
fn what_is_sent_is_received() {
    let content = text("Hello, World!");
    for mime_type in content.offered_mime_types() {
        let bytes = content.bytes_for_mime(mime_type).unwrap().to_vec();
        assert!(decode_clipboard_content(mime_type, bytes).unwrap() == content);
    }
    let content = image("image/png", &[1, 2, 3]);
    let bytes = content.bytes_for_mime("image/png").unwrap().to_vec();
    assert!(decode_clipboard_content("image/png", bytes).unwrap() == content);
}

#[test]
fn the_most_wanted_format_is_chosen() {
    let offered = |names: &[&str]| names.iter().map(|name| name.to_string()).collect::<Vec<_>>();
    assert_eq!(
        best_offered_mime_type(&offered(&["text/plain", "image/jpeg", "UTF8_STRING"])),
        Some("image/jpeg")
    );
    assert_eq!(
        best_offered_mime_type(&offered(&["text/plain", "UTF8_STRING"])),
        Some("UTF8_STRING")
    );
    assert_eq!(best_offered_mime_type(&offered(&["text/html", "STRING"])), None);
    assert_eq!(best_offered_mime_type(&[]), None);
}
