//! What a clipboard holds.

use crate::foreign;
use crate::mime;
use crate::text;
use compact_str::CompactString;
use std::sync::Arc;
use vstd::prelude::*;

verus! {

/// What a clipboard holds: text, an image with the hash of its bytes, or nothing.
#[derive(Debug)]
pub enum ClipboardContent {
    Text(CompactString),
    Data { mime_type: CompactString, bytes: Arc<[u8]>, hash: u64 },
    Empty,
}

/// A clipboard content as plain values.
pub enum ContentView {
    Text(Seq<char>),
    Data { mime_type: Seq<char>, bytes: Seq<u8>, hash: u64 },
    Empty,
}

impl View for ClipboardContent {
    type V = ContentView;

    open spec fn view(&self) -> ContentView {
        match self {
            ClipboardContent::Text(text) => ContentView::Text(foreign::compact_text(*text)),
            ClipboardContent::Data { mime_type, bytes, hash } => ContentView::Data {
                mime_type: foreign::compact_text(*mime_type),
                bytes: (**bytes)@,
                hash: *hash,
            },
            ClipboardContent::Empty => ContentView::Empty,
        }
    }
}

impl ContentView {
    /// The bytes that the content is sent as.
    pub open spec fn bytes(self) -> Seq<u8> {
        match self {
            ContentView::Text(text) => vstd::utf8::encode_utf8(text),
            ContentView::Data { bytes, .. } => bytes,
            ContentView::Empty => Seq::empty(),
        }
    }

    /// Whether the content is available as `mime_type`.
    pub open spec fn provides(self, mime_type: Seq<char>) -> bool {
        match self {
            ContentView::Text(_) => mime::is_text(mime_type),
            ContentView::Data { mime_type: own, .. } => own == mime_type,
            ContentView::Empty => false,
        }
    }

    /// The bytes of the content as `mime_type`.
    pub open spec fn bytes_for(self, mime_type: Seq<char>) -> Option<Seq<u8>> {
        if self.provides(mime_type) {
            Some(self.bytes())
        } else {
            None
        }
    }

    /// The formats the content is offered in, in order.
    pub open spec fn offered(self) -> Seq<Seq<char>> {
        match self {
            ContentView::Text(_) => mime::text_mime_types(),
            ContentView::Data { mime_type, .. } => seq![mime_type],
            ContentView::Empty => Seq::empty(),
        }
    }

    /// The format that stands for the content when only one can.
    pub open spec fn primary(self) -> Option<Seq<char>> {
        match self {
            ContentView::Text(_) => Some(mime::TEXT_PLAIN_UTF8_ATOM@),
            ContentView::Data { mime_type, .. } => Some(mime_type),
            ContentView::Empty => None,
        }
    }

    /// Whether two contents count as equal: texts by their characters, images by their hash.
    pub open spec fn same_as(self, other: ContentView) -> bool {
        match (self, other) {
            (ContentView::Text(a), ContentView::Text(b)) => a == b,
            (ContentView::Data { hash: a, .. }, ContentView::Data { hash: b, .. }) => a == b,
            (ContentView::Empty, ContentView::Empty) => true,
            _ => false,
        }
    }
}

impl Clone for ClipboardContent {
    fn clone(&self) -> (copy: Self)
        ensures
            copy@ == self@,
    {
        match self {
            ClipboardContent::Text(text) => ClipboardContent::Text(foreign::compact_clone(text)),
            ClipboardContent::Data { mime_type, bytes, hash } => ClipboardContent::Data {
                mime_type: foreign::compact_clone(mime_type),
                bytes: foreign::share(bytes),
                hash: *hash,
            },
            ClipboardContent::Empty => ClipboardContent::Empty,
        }
    }
}

impl PartialEq for ClipboardContent {
    fn eq(&self, other: &Self) -> (same: bool) {
        match (self, other) {
            (ClipboardContent::Text(a), ClipboardContent::Text(b)) => {
                foreign::compact_eq(a, foreign::compact_as_str(b))
            },
            (ClipboardContent::Data { hash: a, .. }, ClipboardContent::Data { hash: b, .. }) => {
                *a == *b
            },
            (ClipboardContent::Empty, ClipboardContent::Empty) => true,
            _ => false,
        }
    }
}

impl vstd::std_specs::cmp::PartialEqSpecImpl for ClipboardContent {
    open spec fn obeys_eq_spec() -> bool {
        true
    }

    open spec fn eq_spec(&self, other: &Self) -> bool {
        self@.same_as(other@)
    }
}

impl ClipboardContent {
    /// How many bytes the content is long.
    pub fn len(&self) -> (len: usize)
        ensures
            len == self@.bytes().len(),
    {
        match self {
            ClipboardContent::Text(text) => foreign::compact_len(text),
            ClipboardContent::Data { bytes, .. } => bytes.len(),
            ClipboardContent::Empty => 0,
        }
    }

    /// Whether the content has no bytes.
    pub fn is_empty(&self) -> (empty: bool)
        ensures
            empty == (self@.bytes().len() == 0),
    {
        self.len() == 0
    }

    /// The format that stands for the content when only one can: UTF-8 text for text, an image's
    /// own format for an image.
    pub fn primary_mime_type(&self) -> (mime_type: Option<&str>)
        ensures
            match mime_type {
                Some(mime_type) => self@.primary() == Some(mime_type@),
                None => self@.primary() is None,
            },
    {
        match self {
            ClipboardContent::Text(_) => Some(mime::TEXT_PLAIN_UTF8_ATOM),
            ClipboardContent::Data { mime_type, .. } => Some(foreign::compact_as_str(mime_type)),
            ClipboardContent::Empty => None,
        }
    }

    /// The bytes of the content as `mime_type`: text comes in any text format, an image in its own
    /// format only.
    pub fn bytes_for_mime(&self, mime_type: &str) -> (bytes: Option<&[u8]>)
        ensures
            match bytes {
                Some(bytes) => self@.bytes_for(mime_type@) == Some(bytes@),
                None => self@.bytes_for(mime_type@) is None,
            },
    {
        match self {
            ClipboardContent::Text(text) => {
                if mime::is_text_mime_type(mime_type) {
                    Some(foreign::compact_as_bytes(text))
                } else {
                    None
                }
            },
            ClipboardContent::Data { mime_type: own, bytes, .. } => {
                if foreign::compact_eq(own, mime_type) {
                    Some(&**bytes)
                } else {
                    None
                }
            },
            ClipboardContent::Empty => None,
        }
    }

    /// The formats the content is offered in.
    pub fn offered_mime_types(&self) -> (mime_types: Vec<&str>)
        ensures
            mime_types@.len() == self@.offered().len(),
            forall|i: int|
                0 <= i < mime_types@.len() ==> #[trigger] mime_types@[i]@ == self@.offered()[i],
    {
        let mut mime_types: Vec<&str> = Vec::new();
        match self {
            ClipboardContent::Text(_) => {
                let mut i: usize = 0;
                while i < mime::TEXT_MIME_TYPES.len()
                    invariant
                        i <= 3,
                        mime_types@.len() == i,
                        forall|j: int|
                            0 <= j < i ==> #[trigger] mime_types@[j]@
                                == mime::text_mime_types()[j],
                    decreases 3 - i,
                {
                    mime_types.push(mime::TEXT_MIME_TYPES[i]);
                    i += 1;
                }
            },
            ClipboardContent::Data { mime_type, .. } => {
                mime_types.push(foreign::compact_as_str(mime_type));
            },
            ClipboardContent::Empty => {},
        }
        mime_types
    }
}

/// The outcome of decoding as plain values.
pub open spec fn decoded_view(decoded: Result<ClipboardContent, String>) -> Result<
    ContentView,
    Seq<char>,
> {
    match decoded {
        Ok(content) => Ok(content@),
        Err(error) => Err(error@),
    }
}

/// What is said of text in the format `mime_type` that is not UTF-8.
pub open spec fn undecodable(mime_type: Seq<char>, error: Seq<char>) -> Seq<char> {
    "Failed to decode "@ + mime_type + text::message(" as UTF-8"@, error)
}

/// The content that `bytes` in the format `mime_type` are, or the reason why they are none.
pub open spec fn decode(mime_type: Seq<char>, bytes: Seq<u8>) -> Result<ContentView, Seq<char>> {
    if mime::is_text(mime_type) {
        if vstd::utf8::valid_utf8(bytes) {
            Ok(ContentView::Text(vstd::utf8::decode_utf8(bytes)))
        } else {
            Err(undecodable(mime_type, foreign::utf8_error_text(bytes)))
        }
    } else if mime::is_image(mime_type) {
        Ok(ContentView::Data { mime_type, bytes, hash: foreign::xxh3_hash(bytes) })
    } else {
        Err("Unsupported clipboard MIME type: "@ + mime_type)
    }
}

/// The content for text in the format `mime_type`, given what decoding it gave.
pub fn text_content(mime_type: &str, decoded: Result<CompactString, String>) -> (content: Result<
    ClipboardContent,
    String,
>)
    ensures
        decoded_view(content) == match decoded {
            Ok(text) => Ok::<ContentView, Seq<char>>(
                ContentView::Text(foreign::compact_text(text)),
            ),
            Err(error) => Err(undecodable(mime_type@, error@)),
        },
{
    match decoded {
        Ok(text) => Ok(ClipboardContent::Text(text)),
        Err(error) => {
            let reason = text::failure_message(" as UTF-8", error.as_str());
            Err(text::joined("Failed to decode ", mime_type, reason.as_str()))
        },
    }
}

/// The content for an image in the format `mime_type`, given the hash of its bytes. The bytes are
/// kept as they are.
pub fn image_content(mime_type: &str, bytes: Vec<u8>, hash: u64) -> (content: ClipboardContent)
    ensures
        content@ == (ContentView::Data { mime_type: mime_type@, bytes: bytes@, hash }),
{
    ClipboardContent::Data {
        mime_type: foreign::compact_from_str(mime_type),
        bytes: foreign::shared_bytes(bytes),
        hash,
    }
}

/// Makes a content of `bytes` in the format `mime_type`. Text has to be UTF-8, images are taken
/// as they are, and any other format is refused.
pub fn decode_clipboard_content(mime_type: &str, bytes: Vec<u8>) -> (decoded: Result<
    ClipboardContent,
    String,
>)
    ensures
        decoded_view(decoded) == decode(mime_type@, bytes@),
{
    if mime::is_text_mime_type(mime_type) {
        text_content(mime_type, foreign::compact_from_utf8(bytes))
    } else if mime::is_image_mime_type(mime_type) {
        let hash = foreign::xxh3_64(&bytes);
        Ok(image_content(mime_type, bytes, hash))
    } else {
        Err(text::followed("Unsupported clipboard MIME type: ", mime_type))
    }
}

/// Content equality is an equivalence.
pub proof fn law_equality_is_an_equivalence(a: ContentView, b: ContentView, c: ContentView)
    ensures
        a.same_as(a),
        a.same_as(b) ==> b.same_as(a),
        a.same_as(b) && b.same_as(c) ==> a.same_as(c),
{
}

/// What decoding gives is offered in the format it came in, with the bytes it came as: nothing is
/// transcoded.
pub proof fn law_decoding_keeps_the_bytes(mime_type: Seq<char>, bytes: Seq<u8>)
    ensures
        decode(mime_type, bytes) matches Ok(content) ==> content.bytes_for(mime_type) == Some(bytes)
            && content.bytes() == bytes,
{
    if mime::is_text(mime_type) && vstd::utf8::valid_utf8(bytes) {
        vstd::utf8::decode_utf8_encode_utf8(bytes);
    }
}

/// The bytes a content is sent as, received in the same format, make the content again: a text in
/// any text format, an image in its own. The image must be in a format of the bridge and carry the
/// hash of its bytes, as every decoded one does.
pub proof fn law_sent_content_is_received(content: ContentView, mime_type: Seq<char>)
    requires
        content.provides(mime_type),
        content matches ContentView::Data { mime_type, bytes, hash } ==> mime::is_image(mime_type)
            && hash == foreign::xxh3_hash(bytes),
    ensures
        decode(mime_type, content.bytes()) == Ok::<ContentView, Seq<char>>(content),
{
    mime::law_formats(mime_type);
    if let ContentView::Text(text) = content {
        vstd::utf8::encode_utf8_valid_utf8(text);
        vstd::utf8::encode_utf8_decode_utf8(text);
    }
}

/// Decoding succeeds exactly on text formats with UTF-8 bytes and on image formats.
pub proof fn law_decodable(mime_type: Seq<char>, bytes: Seq<u8>)
    ensures
        decode(mime_type, bytes) is Ok <==> (mime::is_text(mime_type) && vstd::utf8::valid_utf8(
            bytes,
        )) || mime::is_image(mime_type),
{
    mime::law_formats(mime_type);
}

/// A content is offered in exactly the formats it can be given out in, and the format that stands
/// for it is the first of them. Nothing is offered in no format.
pub proof fn law_offers(content: ContentView, mime_type: Seq<char>)
    ensures
        content.offered().contains(mime_type) <==> content.bytes_for(mime_type) is Some,
        match content.primary() {
            Some(primary) => content.offered().len() > 0 && content.offered()[0] == primary,
            None => content.offered().len() == 0,
        },
        content.primary() is None <==> content is Empty,
{
    if let ContentView::Data { mime_type: own, .. } = content {
        assert(content.offered()[0] == own);
    }
}

/// Two texts count as equal exactly if they have the same characters, two images exactly if they
/// have the same hash, and contents of different sorts never do.
pub proof fn law_what_equal_contents_are(a: ContentView, b: ContentView)
    ensures
        match a {
            ContentView::Text(left) => a.same_as(b) <==> b == ContentView::Text(left),
            ContentView::Data { hash: left, .. } => a.same_as(b) <==> (b matches ContentView::Data {
                hash: right,
                ..
            } && left == right),
            ContentView::Empty => a.same_as(b) <==> b is Empty,
        },
{
}

/// A text is sent as UTF-8, which decodes to it again; an image is sent as its bytes, and nothing
/// as no bytes at all.
pub proof fn law_bytes_of_a_content(content: ContentView)
    ensures
        match content {
            ContentView::Text(text) => vstd::utf8::valid_utf8(content.bytes())
                && vstd::utf8::decode_utf8(content.bytes()) == text && content.bytes()
                == vstd::utf8::encode_utf8(text),
            ContentView::Data { bytes, .. } => content.bytes() == bytes,
            ContentView::Empty => content.bytes().len() == 0,
        },
{
    if let ContentView::Text(text) = content {
        vstd::utf8::encode_utf8_valid_utf8(text);
        vstd::utf8::encode_utf8_decode_utf8(text);
    }
}

/// Text is given out in the three text formats and no other, always as the same UTF-8; an image in
/// its own format and no other, as its bytes; nothing in no format.
pub proof fn law_what_is_given_out(content: ContentView, mime_type: Seq<char>)
    ensures
        content.provides(mime_type) <==> content.bytes_for(mime_type) is Some,
        match content {
            ContentView::Text(text) => content.bytes_for(mime_type) == if mime_type
                == "text/plain;charset=utf-8"@ || mime_type == "text/plain"@ || mime_type
                == "UTF8_STRING"@ {
                Some(vstd::utf8::encode_utf8(text))
            } else {
                None
            },
            ContentView::Data { mime_type: own, bytes, .. } => content.bytes_for(mime_type)
                == if mime_type == own {
                Some(bytes)
            } else {
                None
            },
            ContentView::Empty => content.bytes_for(mime_type) is None,
        },
{
    mime::law_which_formats_there_are(mime_type);
}

/// Text is offered in the three text formats, UTF-8 by name first, which stands for it; an image in
/// its own format alone, which stands for it; nothing in no format.
pub proof fn law_what_is_offered(content: ContentView)
    ensures
        match content {
            ContentView::Text(_) => content.offered() == seq![
                "text/plain;charset=utf-8"@,
                "text/plain"@,
                "UTF8_STRING"@,
            ] && content.primary() == Some("text/plain;charset=utf-8"@),
            ContentView::Data { mime_type, .. } => content.offered() == seq![mime_type]
                && content.primary() == Some(mime_type),
            ContentView::Empty => content.offered().len() == 0 && content.primary() is None,
        },
{
}

/// Bytes in a text format become the text whose UTF-8 they are, and are refused if they are no
/// UTF-8; bytes in an image format become an image of that format with just these bytes and their
/// hash; bytes in any other format are refused.
pub proof fn law_what_is_decoded(mime_type: Seq<char>, bytes: Seq<u8>)
    ensures
        mime_type == "text/plain;charset=utf-8"@ || mime_type == "text/plain"@ || mime_type
            == "UTF8_STRING"@ ==> match decode(mime_type, bytes) {
            Ok(content) => vstd::utf8::valid_utf8(bytes) && (content matches ContentView::Text(text)
                && vstd::utf8::encode_utf8(text) == bytes && text == vstd::utf8::decode_utf8(
                bytes,
            )),
            Err(error) => !vstd::utf8::valid_utf8(bytes) && error == "Failed to decode "@
                + mime_type + " as UTF-8"@ + ": "@ + foreign::utf8_error_text(bytes),
        },
        mime_type == "image/png"@ || mime_type == "image/jpeg"@ || mime_type == "image/jpg"@
            ==> decode(mime_type, bytes) == Ok::<ContentView, Seq<char>>(
            ContentView::Data { mime_type, bytes, hash: foreign::xxh3_hash(bytes) },
        ),
        mime_type != "text/plain;charset=utf-8"@ && mime_type != "text/plain"@ && mime_type
            != "UTF8_STRING"@ && mime_type != "image/png"@ && mime_type != "image/jpeg"@
            && mime_type != "image/jpg"@ ==> decode(mime_type, bytes) == Err::<
            ContentView,
            Seq<char>,
        >("Unsupported clipboard MIME type: "@ + mime_type),
{
    mime::law_formats(mime_type);
    mime::law_which_formats_there_are(mime_type);
    if vstd::utf8::valid_utf8(bytes) {
        vstd::utf8::decode_utf8_encode_utf8(bytes);
    }
    assert(undecodable(mime_type, foreign::utf8_error_text(bytes)) =~= "Failed to decode "@
        + mime_type + " as UTF-8"@ + ": "@ + foreign::utf8_error_text(bytes));
}

/// What is said of text that is no UTF-8 names the format and gives the reason.
pub proof fn law_undecodable_text_is_explained(mime_type: Seq<char>, error: Seq<char>)
    ensures
        undecodable(mime_type, error) == "Failed to decode "@ + mime_type + " as UTF-8"@ + ": "@
            + error,
{
    assert(undecodable(mime_type, error) =~= "Failed to decode "@ + mime_type + " as UTF-8"@
        + ": "@ + error);
}

/// The plain values of a content, and of what decoding gave, leave nothing out.
pub proof fn law_view_of_a_content(
    content: ClipboardContent,
    decoded: Result<ClipboardContent, String>,
)
    ensures
        match content {
            ClipboardContent::Text(text) => content@ == ContentView::Text(
                foreign::compact_text(text),
            ),
            ClipboardContent::Data { mime_type, bytes, hash } => content@ == (ContentView::Data {
                mime_type: foreign::compact_text(mime_type),
                bytes: (*bytes)@,
                hash,
            }),
            ClipboardContent::Empty => content@ == ContentView::Empty,
        },
        match decoded {
            Ok(content) => decoded_view(decoded) == Ok::<ContentView, Seq<char>>(content@),
            Err(error) => decoded_view(decoded) == Err::<ContentView, Seq<char>>(error@),
        },
{
}

/// What `==` says of two contents is whether they count as equal.
pub proof fn law_equality_of_contents(a: ClipboardContent, b: ClipboardContent)
    ensures
        vstd::std_specs::cmp::PartialEqSpec::eq_spec(&a, &b) <==> match (a, b) {
            (ClipboardContent::Text(left), ClipboardContent::Text(right)) => {
                foreign::compact_text(left) == foreign::compact_text(right)
            },
            (
                ClipboardContent::Data { hash: left, .. },
                ClipboardContent::Data { hash: right, .. },
            ) => left == right,
            (ClipboardContent::Empty, ClipboardContent::Empty) => true,
            _ => false,
        },
{
}

} // verus!
