//! The formats the bridge carries and the names of the X11 atoms it works with.

use crate::text;
use vstd::prelude::*;

verus! {

pub const CLIPBOARD_ATOM: &'static str = "CLIPBOARD";

pub const PRIMARY_ATOM: &'static str = "PRIMARY";

pub const TARGETS_ATOM: &'static str = "TARGETS";

pub const MULTIPLE_ATOM: &'static str = "MULTIPLE";

pub const INCR_ATOM: &'static str = "INCR";

pub const UTF8_STRING_ATOM: &'static str = "UTF8_STRING";

pub const TEXT_PLAIN_UTF8_ATOM: &'static str = "text/plain;charset=utf-8";

pub const TEXT_PLAIN_ATOM: &'static str = "text/plain";

pub const IMAGE_PNG_MIME: &'static str = "image/png";

pub const IMAGE_JPEG_MIME: &'static str = "image/jpeg";

pub const IMAGE_JPG_MIME: &'static str = "image/jpg";

/// The text formats, in the order in which text is offered.
pub const TEXT_MIME_TYPES: [&'static str; 3] = [
    TEXT_PLAIN_UTF8_ATOM,
    TEXT_PLAIN_ATOM,
    UTF8_STRING_ATOM,
];

/// The image formats.
pub const IMAGE_MIME_TYPES: [&'static str; 3] = [
    IMAGE_PNG_MIME,
    IMAGE_JPEG_MIME,
    IMAGE_JPG_MIME,
];

/// Every format the bridge carries, the most wanted one first.
pub const PREFERRED_MIME_TYPES: [&'static str; 6] = [
    IMAGE_PNG_MIME,
    IMAGE_JPEG_MIME,
    IMAGE_JPG_MIME,
    TEXT_PLAIN_UTF8_ATOM,
    UTF8_STRING_ATOM,
    TEXT_PLAIN_ATOM,
];

/// The names of the text formats, in the order in which text is offered.
pub open spec fn text_mime_types() -> Seq<Seq<char>> {
    seq![TEXT_PLAIN_UTF8_ATOM@, TEXT_PLAIN_ATOM@, UTF8_STRING_ATOM@]
}

/// The names of the image formats.
pub open spec fn image_mime_types() -> Seq<Seq<char>> {
    seq![IMAGE_PNG_MIME@, IMAGE_JPEG_MIME@, IMAGE_JPG_MIME@]
}

/// The names of all formats, the most wanted one first.
pub open spec fn preferred_mime_types() -> Seq<Seq<char>> {
    seq![
        IMAGE_PNG_MIME@,
        IMAGE_JPEG_MIME@,
        IMAGE_JPG_MIME@,
        TEXT_PLAIN_UTF8_ATOM@,
        UTF8_STRING_ATOM@,
        TEXT_PLAIN_ATOM@,
    ]
}

/// Whether `mime_type` names a text format.
pub open spec fn is_text(mime_type: Seq<char>) -> bool {
    text_mime_types().contains(mime_type)
}

/// Whether `mime_type` names an image format.
pub open spec fn is_image(mime_type: Seq<char>) -> bool {
    image_mime_types().contains(mime_type)
}

/// Unfolds the two lists of formats into alternatives.
pub(crate) proof fn lemma_format_lists(m: Seq<char>)
    ensures
        is_text(m) == (m == TEXT_PLAIN_UTF8_ATOM@ || m == TEXT_PLAIN_ATOM@ || m
            == UTF8_STRING_ATOM@),
        is_image(m) == (m == IMAGE_PNG_MIME@ || m == IMAGE_JPEG_MIME@ || m == IMAGE_JPG_MIME@),
        preferred_mime_types().contains(m) == (is_text(m) || is_image(m)),
{
    let text = text_mime_types();
    assert(text[0] == TEXT_PLAIN_UTF8_ATOM@ && text[1] == TEXT_PLAIN_ATOM@ && text[2]
        == UTF8_STRING_ATOM@);
    let image = image_mime_types();
    assert(image[0] == IMAGE_PNG_MIME@ && image[1] == IMAGE_JPEG_MIME@ && image[2]
        == IMAGE_JPG_MIME@);
    let all = preferred_mime_types();
    assert(all[0] == IMAGE_PNG_MIME@ && all[1] == IMAGE_JPEG_MIME@ && all[2] == IMAGE_JPG_MIME@);
    assert(all[3] == TEXT_PLAIN_UTF8_ATOM@ && all[4] == UTF8_STRING_ATOM@ && all[5]
        == TEXT_PLAIN_ATOM@);
}

/// The formats the bridge asks for are exactly its text formats and its image formats; none is
/// both, and none is listed twice.
pub proof fn law_formats(m: Seq<char>)
    ensures
        preferred_mime_types().contains(m) <==> is_text(m) || is_image(m),
        !(is_text(m) && is_image(m)),
        preferred_mime_types().no_duplicates(),
{
    lemma_format_lists(m);
    reveal_strlit("image/png");
    reveal_strlit("image/jpeg");
    reveal_strlit("image/jpg");
    reveal_strlit("text/plain;charset=utf-8");
    reveal_strlit("UTF8_STRING");
    reveal_strlit("text/plain");
    assert(IMAGE_PNG_MIME@[6] != IMAGE_JPG_MIME@[6]);
    assert(IMAGE_JPEG_MIME@[0] != TEXT_PLAIN_ATOM@[0]);
    assert(IMAGE_PNG_MIME@.len() == 9 && IMAGE_JPG_MIME@.len() == 9);
    assert(IMAGE_JPEG_MIME@.len() == 10 && TEXT_PLAIN_ATOM@.len() == 10);
    assert(TEXT_PLAIN_UTF8_ATOM@.len() == 24 && UTF8_STRING_ATOM@.len() == 11);
}

/// The texts of a list of string slices.
pub open spec fn texts(list: Seq<&'static str>) -> Seq<Seq<char>> {
    Seq::new(list.len(), |i: int| list[i]@)
}

fn is_listed(list: &[&'static str], name: &str) -> (found: bool)
    ensures
        found == texts(list@).contains(name@),
{
    let mut i: usize = 0;
    while i < list.len()
        invariant
            i <= list@.len(),
            forall|j: int| 0 <= j < i ==> texts(list@)[j] != name@,
        decreases list@.len() - i,
    {
        if text::same_text(list[i], name) {
            assert(texts(list@)[i as int] == name@);
            return true;
        }
        i += 1;
    }
    false
}

/// Whether `mime_type` names one of the text formats.
pub fn is_text_mime_type(mime_type: &str) -> (found: bool)
    ensures
        found == is_text(mime_type@),
{
    assert(texts(TEXT_MIME_TYPES@) =~= text_mime_types());
    is_listed(&TEXT_MIME_TYPES, mime_type)
}

/// Whether `mime_type` names one of the image formats.
pub fn is_image_mime_type(mime_type: &str) -> (found: bool)
    ensures
        found == is_image(mime_type@),
{
    assert(texts(IMAGE_MIME_TYPES@) =~= image_mime_types());
    is_listed(&IMAGE_MIME_TYPES, mime_type)
}

/// Whether one of `offered` names the format `mime_type`.
pub open spec fn is_offered(offered: Seq<String>, mime_type: Seq<char>) -> bool {
    exists|i: int| 0 <= i < offered.len() && (#[trigger] offered[i])@ == mime_type
}

fn offers(offered: &[String], mime_type: &str) -> (found: bool)
    ensures
        found == is_offered(offered@, mime_type@),
{
    let mut i: usize = 0;
    while i < offered.len()
        invariant
            i <= offered@.len(),
            forall|j: int| 0 <= j < i ==> (#[trigger] offered@[j])@ != mime_type@,
        decreases offered@.len() - i,
    {
        if text::same_text(offered[i].as_str(), mime_type) {
            return true;
        }
        i += 1;
    }
    false
}

/// The most wanted format among those that `offered` names, if it names any: the one to ask a
/// Wayland client for.
pub fn best_offered_mime_type(offered: &[String]) -> (best: Option<&'static str>)
    ensures
        match best {
            Some(best) => exists|i: int|
                0 <= i < preferred_mime_types().len() && #[trigger] preferred_mime_types()[i]
                    == best@ && is_offered(offered@, best@) && (forall|j: int|
                    0 <= j < i ==> !is_offered(offered@, #[trigger] preferred_mime_types()[j])),
            None => forall|i: int|
                0 <= i < preferred_mime_types().len() ==> !is_offered(
                    offered@,
                    #[trigger] preferred_mime_types()[i],
                ),
        },
{
    let mut i: usize = 0;
    while i < PREFERRED_MIME_TYPES.len()
        invariant
            i <= 6,
            forall|j: int|
                0 <= j < i ==> !is_offered(offered@, #[trigger] preferred_mime_types()[j]),
        decreases 6 - i,
    {
        let mime_type = PREFERRED_MIME_TYPES[i];
        assert(preferred_mime_types()[i as int] == mime_type@);
        if offers(offered, mime_type) {
            return Some(mime_type);
        }
        i += 1;
    }
    None
}

/// The names that the two display servers know.
pub proof fn law_names()
    ensures
        CLIPBOARD_ATOM@ == "CLIPBOARD"@,
        PRIMARY_ATOM@ == "PRIMARY"@,
        TARGETS_ATOM@ == "TARGETS"@,
        MULTIPLE_ATOM@ == "MULTIPLE"@,
        INCR_ATOM@ == "INCR"@,
        UTF8_STRING_ATOM@ == "UTF8_STRING"@,
        TEXT_PLAIN_UTF8_ATOM@ == "text/plain;charset=utf-8"@,
        TEXT_PLAIN_ATOM@ == "text/plain"@,
        IMAGE_PNG_MIME@ == "image/png"@,
        IMAGE_JPEG_MIME@ == "image/jpeg"@,
        IMAGE_JPG_MIME@ == "image/jpg"@,
{
}

/// Three names are those of text formats and three those of image formats; no other name is.
pub proof fn law_which_formats_there_are(m: Seq<char>)
    ensures
        is_text(m) <==> m == "text/plain;charset=utf-8"@ || m == "text/plain"@ || m
            == "UTF8_STRING"@,
        is_image(m) <==> m == "image/png"@ || m == "image/jpeg"@ || m == "image/jpg"@,
{
    lemma_format_lists(m);
}

/// The X11 targets for text in other encodings are not among the formats.
pub proof fn law_legacy_targets_are_no_formats()
    ensures
        !preferred_mime_types().contains("STRING"@),
        !preferred_mime_types().contains("TEXT"@),
{
    law_formats("STRING"@);
    law_formats("TEXT"@);
    law_which_formats_there_are("STRING"@);
    law_which_formats_there_are("TEXT"@);
    reveal_strlit("STRING");
    reveal_strlit("TEXT");
    reveal_strlit("image/png");
    reveal_strlit("image/jpeg");
    reveal_strlit("image/jpg");
    reveal_strlit("text/plain;charset=utf-8");
    reveal_strlit("UTF8_STRING");
    reveal_strlit("text/plain");
    assert("STRING"@.len() == 6 && "TEXT"@.len() == 4);
    assert("image/png"@.len() == 9 && "image/jpg"@.len() == 9 && "image/jpeg"@.len() == 10);
    assert("text/plain"@.len() == 10 && "UTF8_STRING"@.len() == 11);
    assert("text/plain;charset=utf-8"@.len() == 24);
}

/// Images are wanted before text, PNG before JPEG; text is offered as `text/plain;charset=utf-8`
/// first.
pub proof fn law_order_of_preference()
    ensures
        preferred_mime_types() == seq![
            "image/png"@,
            "image/jpeg"@,
            "image/jpg"@,
            "text/plain;charset=utf-8"@,
            "UTF8_STRING"@,
            "text/plain"@,
        ],
        text_mime_types() == seq!["text/plain;charset=utf-8"@, "text/plain"@, "UTF8_STRING"@],
        image_mime_types() == seq!["image/png"@, "image/jpeg"@, "image/jpg"@],
{
}

/// The texts of a list are those of its elements, in order.
pub proof fn law_texts(list: Seq<&'static str>)
    ensures
        texts(list).len() == list.len(),
        forall|i: int| 0 <= i < list.len() ==> #[trigger] texts(list)[i] == list[i]@,
{
}

/// A format is offered exactly if its name is among the names offered.
pub proof fn law_offered(offered: Seq<String>, mime_type: Seq<char>)
    ensures
        forall|i: int| 0 <= i < offered.len() ==> is_offered(offered, (#[trigger] offered[i])@),
        is_offered(offered, mime_type) ==> exists|i: int|
            0 <= i < offered.len() && (#[trigger] offered[i])@ == mime_type,
{
}

} // verus!
