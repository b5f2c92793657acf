//! The calls into other crates, each with what is relied on.
//!
//! Nothing here is proved: every function hands its arguments to the function its comment names,
//! and its contract repeats what that function's source or documentation says.

use compact_str::{CompactString, ToCompactString};
use std::sync::Arc;
use vstd::prelude::*;
use x11rb::protocol::xproto::GetPropertyReply;

verus! {

/// `compact_str::CompactString`, a string that keeps short texts inline.
#[verifier::external_type_specification]
#[verifier::external_body]
pub struct ExCompactString(CompactString);

/// The characters that a compact string holds.
pub uninterp spec fn compact_text(text: CompactString) -> Seq<char>;

/// What the standard library says of bytes that are not UTF-8: the text of the
/// `core::str::Utf8Error` that decoding them gives.
pub uninterp spec fn utf8_error_text(bytes: Seq<u8>) -> Seq<char>;

/// The XXH3 hash of `bytes`, 64 bits wide and unseeded.
pub uninterp spec fn xxh3_hash(bytes: Seq<u8>) -> u64;

/// `CompactString::from_utf8`: bytes that are UTF-8 become the text they encode, any others are
/// refused. The error comes back as its text.
#[verifier::external_body]
pub(crate) fn compact_from_utf8(bytes: Vec<u8>) -> (decoded: Result<CompactString, String>)
    ensures
        match decoded {
            Ok(text) => vstd::utf8::valid_utf8(bytes@) && compact_text(text)
                == vstd::utf8::decode_utf8(bytes@),
            Err(error) => !vstd::utf8::valid_utf8(bytes@) && error@ == utf8_error_text(bytes@),
        },
{
    CompactString::from_utf8(bytes).map_err(|error| error.to_string())
}

/// `ToCompactString::to_compact_string` on a string slice: the same text.
#[verifier::external_body]
pub(crate) fn compact_from_str(text: &str) -> (compact: CompactString)
    ensures
        compact_text(compact) == text@,
{
    text.to_compact_string()
}

/// `CompactString::len`: the length in bytes of the text's UTF-8 encoding.
#[verifier::external_body]
pub(crate) fn compact_len(text: &CompactString) -> (len: usize)
    ensures
        len == vstd::utf8::encode_utf8(compact_text(*text)).len(),
{
    text.len()
}

/// `CompactString::as_str`: the same text.
#[verifier::external_body]
pub(crate) fn compact_as_str(text: &CompactString) -> (slice: &str)
    ensures
        slice@ == compact_text(*text),
{
    text.as_str()
}

/// `CompactString::as_bytes`: the text's UTF-8 encoding.
#[verifier::external_body]
pub(crate) fn compact_as_bytes(text: &CompactString) -> (bytes: &[u8])
    ensures
        bytes@ == vstd::utf8::encode_utf8(compact_text(*text)),
{
    text.as_bytes()
}

/// `CompactString`'s `==` with a string slice: whether the texts are the same.
#[verifier::external_body]
pub(crate) fn compact_eq(text: &CompactString, other: &str) -> (same: bool)
    ensures
        same == (compact_text(*text) == other@),
{
    *text == *other
}

/// `CompactString::clone`: the same text.
#[verifier::external_body]
pub(crate) fn compact_clone(text: &CompactString) -> (copy: CompactString)
    ensures
        compact_text(copy) == compact_text(*text),
{
    text.clone()
}

/// `Arc::from` on a vector: a shared slice of the same bytes.
#[verifier::external_body]
pub(crate) fn shared_bytes(bytes: Vec<u8>) -> (shared: Arc<[u8]>)
    ensures
        (*shared)@ == bytes@,
{
    Arc::from(bytes)
}

/// `Arc::clone`: another handle on the same bytes.
#[verifier::external_body]
pub(crate) fn share(bytes: &Arc<[u8]>) -> (shared: Arc<[u8]>)
    ensures
        (*shared)@ == (**bytes)@,
{
    Arc::clone(bytes)
}

/// `xxhash_rust::xxh3::xxh3_64`, whose result depends on the bytes alone.
#[verifier::external_body]
pub(crate) fn xxh3_64(bytes: &Vec<u8>) -> (hash: u64)
    ensures
        hash == xxh3_hash(bytes@),
{
    xxhash_rust::xxh3::xxh3_64(bytes)
}

/// The number that four bytes make, the least significant one first.
pub open spec fn little_endian_word(b: Seq<u8>) -> int {
    b[0] + 0x100 * b[1] + 0x1_0000 * b[2] + 0x100_0000 * b[3]
}

/// The number that four bytes make, the most significant one first.
pub open spec fn big_endian_word(b: Seq<u8>) -> int {
    0x100_0000 * b[0] + 0x1_0000 * b[1] + 0x100 * b[2] + b[3]
}

/// Whether `words` are the whole 32-bit words of `bytes`, all of them read in one byte order.
/// Bytes after the last whole word are left out.
pub open spec fn words_of(bytes: Seq<u8>, words: Seq<u32>) -> bool {
    &&& words.len() == bytes.len() / 4
    &&& {
        ||| forall|i: int|
            0 <= i < words.len() ==> #[trigger] words[i] == little_endian_word(
                bytes.subrange(4 * i, 4 * i + 4),
            )
        ||| forall|i: int|
            0 <= i < words.len() ==> #[trigger] words[i] == big_endian_word(
                bytes.subrange(4 * i, 4 * i + 4),
            )
    }
}

/// `GetPropertyReply::value32` of x11rb: the 32-bit words of a property value, and nothing unless
/// the value's format is 32. The words are in the machine's byte order, which the contract leaves
/// open.
#[verifier::external_body]
pub(crate) fn value32(format: u8, value: &Vec<u8>) -> (words: Option<Vec<u32>>)
    ensures
        match words {
            Some(words) => format == 32 && words_of(value@, words@),
            None => format != 32,
        },
{
    let reply = GetPropertyReply {
        format,
        sequence: 0,
        length: 0,
        type_: 0,
        bytes_after: 0,
        value_len: 0,
        value: value.clone(),
    };
    let words = reply.value32().map(|words| words.collect());
    words
}

/// The words of a value are as many as fit, and each is the number that its four bytes make, in the
/// same byte order for all of them. Words that are so are those of the value.
pub proof fn law_words_are_made_of_bytes(bytes: Seq<u8>, words: Seq<u32>)
    ensures
        words_of(bytes, words) <==> words.len() == bytes.len() / 4 && ((forall|i: int|
            0 <= i < words.len() ==> #[trigger] words[i] == bytes[4 * i] + 256 * bytes[4 * i + 1]
                + 65536 * bytes[4 * i + 2] + 16777216 * bytes[4 * i + 3]) || (forall|i: int|
            0 <= i < words.len() ==> #[trigger] words[i] == bytes[4 * i + 3] + 256 * bytes[4 * i
                + 2] + 65536 * bytes[4 * i + 1] + 16777216 * bytes[4 * i])),
{
    assert forall|i: int| 0 <= i < bytes.len() / 4 implies {
        &&& little_endian_word(#[trigger] bytes.subrange(4 * i, 4 * i + 4)) == bytes[4 * i] + 256
            * bytes[4 * i + 1] + 65536 * bytes[4 * i + 2] + 16777216 * bytes[4 * i + 3]
        &&& big_endian_word(bytes.subrange(4 * i, 4 * i + 4)) == bytes[4 * i + 3] + 256 * bytes[4
            * i + 2] + 65536 * bytes[4 * i + 1] + 16777216 * bytes[4 * i]
    } by {
        let word = bytes.subrange(4 * i, 4 * i + 4);
        assert(word[0] == bytes[4 * i] && word[1] == bytes[4 * i + 1]);
        assert(word[2] == bytes[4 * i + 2] && word[3] == bytes[4 * i + 3]);
    }
}

} // verus!
