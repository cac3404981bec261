//! Decoded child-process output text, supporting both lossless and lossy
//! UTF-8: decoding is byte-for-byte faithful, except that every invalid
//! UTF-8 sequence is replaced and the replacement is recorded in a flag.

use vstd::prelude::*;
use vstd::utf8::*;

verus! {

/// What `String::from_utf8_lossy` returns for the given bytes: the result
/// depends on the bytes alone. On valid UTF-8 it equals the strict decoding
/// (stated at the trusted wrappers below); on invalid input each invalid
/// sequence is replaced with U+FFFD, which this name leaves unstated.
pub uninterp spec fn utf8_lossy_chars(bytes: Seq<u8>) -> Seq<char>;

/// Relies on `core::str::from_utf8`: succeeds exactly on valid UTF-8 and
/// returns the text those bytes encode.
#[verifier::external_body]
fn utf8_decode_strict(bytes: &[u8]) -> (r: Option<String>)
    ensures
        r is Some <==> valid_utf8(bytes@),
        r matches Some(s) ==> s@ == decode_utf8(bytes@),
{
    match core::str::from_utf8(bytes) {
        Ok(s) => Some(s.to_string()),
        Err(_) => None,
    }
}

/// Relies on `String::from_utf8_lossy`: the result depends on the bytes
/// alone, and valid UTF-8 comes back decoded without replacement.
#[verifier::external_body]
fn utf8_decode_lossy(bytes: &[u8]) -> (r: String)
    ensures
        r@ == utf8_lossy_chars(bytes@),
        valid_utf8(bytes@) ==> r@ == decode_utf8(bytes@),
{
    String::from_utf8_lossy(bytes).into_owned()
}

/// Decoded output text.
///
/// - `lossy`: when `true`, the original byte stream contained invalid UTF-8
///   sequences and they were replaced during decoding.
/// - `data`: the final text exposed to the caller.
#[derive(Debug, Clone)]
pub struct DecodedText {
    pub lossy: bool,
    data: String,
}

/// What decoding `bytes` must yield: the flag records exactly whether the
/// bytes were invalid UTF-8, and valid bytes decode to their exact text.
pub open spec fn decode_post(d: DecodedText, bytes: Seq<u8>) -> bool {
    &&& d.is_lossy() == !valid_utf8(bytes)
    &&& valid_utf8(bytes) ==> d.data_view() == decode_utf8(bytes)
    &&& !valid_utf8(bytes) ==> d.data_view() == utf8_lossy_chars(bytes)
}

impl DecodedText {
    /// The characters of the decoded text.
    pub closed spec fn data_view(&self) -> Seq<char> {
        self.data@
    }

    /// Whether replacement happened during decoding.
    pub closed spec fn is_lossy(&self) -> bool {
        self.lossy
    }

    /// Creates a decoded text value that came from valid UTF-8 (no replacement).
    pub fn new_lossless(data: String) -> (r: Self)
        ensures
            !r.is_lossy(),
            r.data_view() == data@,
    {
        DecodedText { lossy: false, data }
    }

    /// Creates a decoded text value where invalid UTF-8 may have been replaced.
    pub fn new_lossy(data: String) -> (r: Self)
        ensures
            r.is_lossy(),
            r.data_view() == data@,
    {
        DecodedText { lossy: true, data }
    }

    /// The decoded text.
    pub fn data(&self) -> (r: &String)
        ensures
            r@ == self.data_view(),
    {
        &self.data
    }

    /// Consumes self and returns the underlying text.
    pub fn into_compact_string(self) -> (r: String)
        ensures
            r@ == self.data_view(),
    {
        self.data
    }

    /// Alias for `into_compact_string`.
    pub fn take_data(self) -> (r: String)
        ensures
            r@ == self.data_view(),
    {
        self.data
    }

    /// Decodes raw output bytes: valid UTF-8 comes back exactly and is marked
    /// lossless; anything else is decoded with U+FFFD replacement and marked
    /// lossy.
    pub fn from_bytes(bytes: &[u8]) -> (r: Self)
        ensures
            decode_post(r, bytes@),
    {
        match utf8_decode_strict(bytes) {
            Some(s) => Self::new_lossless(s),
            _ => Self::new_lossy(utf8_decode_lossy(bytes)),
        }
    }

    /// Decodes from a byte vector; same result as `from_bytes`.
    pub fn from_vec(v: Vec<u8>) -> (r: Self)
        ensures
            decode_post(r, v@),
    {
        Self::from_bytes(v.as_slice())
    }
}

impl Default for DecodedText {
    /// An empty, lossless text.
    fn default() -> (r: Self)
        ensures
            !r.is_lossy(),
            r.data_view() == Seq::<char>::empty(),
    {
        DecodedText { lossy: false, data: String::new() }
    }
}

/// Decoding already-decoded text again is a no-op: the bytes of any text are
/// valid UTF-8, so a second decoding is lossless and returns the text
/// unchanged.
pub proof fn lemma_decode_roundtrip(chars: Seq<char>)
    ensures
        valid_utf8(encode_utf8(chars)),
        decode_utf8(encode_utf8(chars)) == chars,
{
    broadcast use encode_utf8_valid_utf8, encode_utf8_decode_utf8;

}

/// Re-decoding a decoding's output is a no-op: when `first` decoded some
/// bytes and `second` decoded the bytes of `first`'s text, then `second` is
/// lossless and its text is `first`'s text, whether or not `first` had to
/// replace anything.
pub proof fn lemma_redecode_is_noop(first: DecodedText, bytes: Seq<u8>, second: DecodedText)
    requires
        decode_post(first, bytes),
        decode_post(second, encode_utf8(first.data_view())),
    ensures
        !second.is_lossy(),
        second.data_view() == first.data_view(),
{
    lemma_decode_roundtrip(first.data_view());
}

} // verus!
