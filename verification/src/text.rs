//! Text framing: lines, prefixes and the decoding of bytes.

use vstd::prelude::*;
use vstd::string::StringSliceAdditionalSpecFns;
use vstd::utf8::{decode_utf8, encode_utf8_decode_utf8, valid_utf8};

verus! {

/// The view of an optional string.
pub open spec fn text_view(text: Option<String>) -> Option<Seq<char>> {
    match text {
        Some(s) => Some(s@),
        None => None,
    }
}

/// The byte that ends a line.
pub const LINE_FEED: u8 = 10;

/// The number of bytes before the first line feed of `bytes`; their whole
/// number where there is none.
pub open spec fn first_line_len(bytes: Seq<u8>) -> nat
    decreases bytes.len(),
{
    if bytes.len() == 0 || bytes[0] == LINE_FEED {
        0
    } else {
        1 + first_line_len(bytes.drop_first())
    }
}

/// `bytes` cut at every line feed. The pieces hold no line feed; there is
/// one more piece than there are line feeds, so the last piece is what
/// follows the last line feed, and it is empty where nothing follows.
pub open spec fn split_lines(bytes: Seq<u8>) -> Seq<Seq<u8>>
    decreases bytes.len(),
{
    let n = first_line_len(bytes);
    if n >= bytes.len() {
        seq![bytes]
    } else {
        seq![bytes.take(n as int)] + split_lines(bytes.skip(n as int + 1))
    }
}

/// `text` without any leading repetitions of `prefix`.
pub open spec fn strip_leading(text: Seq<char>, prefix: Seq<char>) -> Seq<char>
    decreases text.len(),
{
    if prefix.len() > 0 && prefix.is_prefix_of(text) {
        strip_leading(text.skip(prefix.len() as int), prefix)
    } else {
        text
    }
}

/// Where the first line of two runs of bytes, one after the other, ends: in
/// the first run where that holds a line feed, and otherwise where the first
/// line of the second run ends.
pub proof fn lemma_first_line_len_concat(first: Seq<u8>, second: Seq<u8>)
    ensures
        first_line_len(first) <= first.len(),
        first_line_len(first) < first.len() ==> first_line_len(first + second) == first_line_len(
            first,
        ),
        first_line_len(first) >= first.len() ==> first_line_len(first + second) == first.len()
            + first_line_len(second),
    decreases first.len(),
{
    let whole = first + second;
    if first.len() == 0 {
        assert(whole =~= second);
    } else if first[0] == LINE_FEED {
        assert(whole[0] == LINE_FEED);
    } else {
        assert(whole[0] == first[0]);
        assert(whole.drop_first() =~= first.drop_first() + second);
        lemma_first_line_len_concat(first.drop_first(), second);
    }
}

/// Removes every leading repetition of `prefix` from `text`.
///
/// Trusted: `str::trim_start_matches` with a string pattern. As documented,
/// it removes all prefixes that match the pattern, repeatedly.
#[verifier::external_body]
pub(crate) fn trim_start_matches<'a>(text: &'a str, prefix: &str) -> (rest: &'a str)
    requires
        prefix@.len() > 0,
    ensures
        rest@ == strip_leading(text@, prefix@),
{
    text.trim_start_matches(prefix)
}

/// Reads `bytes` as UTF-8 text.
///
/// Trusted: `core::str::from_utf8`. As documented, it succeeds exactly on
/// well-formed UTF-8 and the text it returns is made of the same bytes.
#[verifier::external_body]
pub(crate) fn from_utf8<'a>(bytes: &'a [u8]) -> (text: Option<&'a str>)
    ensures
        text is Some <==> valid_utf8(bytes@),
        text matches Some(s) ==> s.spec_bytes() == bytes@,
{
    core::str::from_utf8(bytes).ok()
}

/// The text that `bytes` encode, where they are well-formed UTF-8.
pub open spec fn decoded(bytes: Seq<u8>) -> Option<Seq<char>> {
    if valid_utf8(bytes) {
        Some(decode_utf8(bytes))
    } else {
        None
    }
}

/// Decodes `bytes`; `None` where they are not well-formed UTF-8.
pub fn decode<'a>(bytes: &'a [u8]) -> (text: Option<&'a str>)
    ensures
        match text {
            Some(s) => decoded(bytes@) == Some(s@),
            None => decoded(bytes@) is None,
        },
{
    let text = from_utf8(bytes);
    proof {
        if let Some(s) = text {
            encode_utf8_decode_utf8(s@);
        }
    }
    text
}

} // verus!
