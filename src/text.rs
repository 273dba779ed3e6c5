//! Text exchanged with the native toolkit: names sent to it as UTF-8 bytes,
//! and byte views read back from it and decoded with replacement.
use vstd::prelude::*;
use vstd::utf8::*;

verus! {

/// What lossy UTF-8 decoding yields for a byte sequence.
pub uninterp spec fn lossy_of(b: Seq<u8>) -> Seq<char>;

/// Relies on `String::from_utf8_lossy`: it never fails, and on valid UTF-8
/// it yields exactly the encoded characters.
#[verifier::external_body]
fn decode_lossy(b: &[u8]) -> (r: String)
    ensures
        r@ == lossy_of(b@),
        valid_utf8(b@) ==> r@ == decode_utf8(b@),
{
    String::from_utf8_lossy(b).into_owned()
}

/// The text that a byte view from the native side stands for: the decoded
/// characters when the bytes are valid UTF-8, the replacement-decoded ones
/// otherwise.
pub open spec fn decoded_text(b: Seq<u8>) -> Seq<char> {
    if valid_utf8(b) {
        decode_utf8(b)
    } else {
        lossy_of(b)
    }
}

/// Decodes a byte view received from the native side. Never fails.
pub fn text_from_native(b: &[u8]) -> (r: String)
    ensures
        r@ == decoded_text(b@),
{
    decode_lossy(b)
}

/// The bytes handed to the native side for a text: its UTF-8 encoding.
pub fn text_to_native(s: &str) -> (r: Vec<u8>)
    ensures
        r@ == encode_utf8(s@),
{
    let b = s.as_bytes();
    let mut r: Vec<u8> = Vec::new();
    let mut i: usize = 0;
    while i < b.len()
        invariant
            b@ == encode_utf8(s@),
            i <= b@.len(),
            r@ == b@.subrange(0, i as int),
        decreases b@.len() - i,
    {
        r.push(b[i]);
        i = i + 1;
    }
    proof {
        assert(r@ =~= b@);
    }
    r
}

/// Any text sent to the native side and read back unchanged decodes to
/// itself.
pub proof fn lemma_text_round_trip(s: Seq<char>)
    ensures
        decoded_text(encode_utf8(s)) == s,
{
    encode_utf8_valid_utf8(s);
    encode_utf8_decode_utf8(s);
}

} // verus!
