//! Text helpers: comparing string slices and decoding UTF-8 chunks.
use vstd::prelude::*;
use vstd::string::StringSliceAdditionalSpecFns;
use vstd::utf8::{decode_utf8, encode_utf8, valid_utf8};
use vstd::utf8::{decode_utf8_encode_utf8, encode_utf8_decode_utf8, encode_utf8_valid_utf8};

verus! {

/// Largest number of bytes that one read of an inbound stream may yield.
pub const MAX_CHUNK: usize = 65536;

/// Whether two string slices hold the same characters.
pub fn text_eq(a: &str, b: &str) -> (same: bool)
    ensures
        same == (a@ == b@),
{
    let x = a.as_bytes();
    let y = b.as_bytes();
    proof {
        encode_utf8_decode_utf8(a@);
        encode_utf8_decode_utf8(b@);
    }
    if x.len() != y.len() {
        return false;
    }
    let mut i: usize = 0;
    while i < x.len()
        invariant
            i <= x.len(),
            x.len() == y.len(),
            x@ == encode_utf8(a@),
            y@ == encode_utf8(b@),
            forall|j: int| 0 <= j < i ==> x@[j] == y@[j],
        decreases x.len() - i,
    {
        if x[i] != y[i] {
            return false;
        }
        i += 1;
    }
    assert(x@ =~= y@);
    true
}

/// What a chunk of bytes says as text: its characters when the bytes are
/// well-formed UTF-8, nothing otherwise.
pub open spec fn chunk_text(bytes: Seq<u8>) -> Option<Seq<char>> {
    if valid_utf8(bytes) {
        Some(decode_utf8(bytes))
    } else {
        None
    }
}

/// Wraps `std::str::from_utf8`. Trusted: the slice is returned as text exactly
/// when it is well-formed UTF-8, and the text then consists of the same bytes.
#[verifier::external_body]
fn utf8_slice<'a>(bytes: &'a [u8]) -> (text: Option<&'a str>)
    ensures
        text is Some <==> valid_utf8(bytes@),
        text matches Some(s) ==> s.spec_bytes() == bytes@,
{
    match std::str::from_utf8(bytes) {
        Ok(s) => Some(s),
        Err(_) => None,
    }
}

/// Decodes one chunk as UTF-8 text.
pub fn decode_chunk(bytes: &[u8]) -> (text: Option<String>)
    ensures
        text is Some <==> chunk_text(bytes@) is Some,
        text matches Some(s) ==> Some(s@) == chunk_text(bytes@),
{
    match utf8_slice(bytes) {
        Some(s) => {
            proof {
                encode_utf8_decode_utf8(s@);
            }
            Some(s.to_owned())
        },
        None => None,
    }
}

/// The bytes of a text are always a chunk that decodes back to that text.
pub proof fn lemma_text_bytes_decode(text: Seq<char>)
    ensures
        chunk_text(encode_utf8(text)) == Some(text),
{
    encode_utf8_valid_utf8(text);
    encode_utf8_decode_utf8(text);
}

/// A chunk that decodes is the UTF-8 encoding of its text.
pub proof fn lemma_chunk_bytes(bytes: Seq<u8>)
    requires
        chunk_text(bytes) is Some,
    ensures
        encode_utf8(chunk_text(bytes).unwrap()) == bytes,
{
    decode_utf8_encode_utf8(bytes);
}

} // verus!
