//! URL-safe base64 rendering of the fingerprint bytes.

use base64::Engine;
use vstd::prelude::*;

verus! {

/// The sixty-four characters of the URL-safe base64 alphabet.
pub open spec fn base64_alphabet() -> Seq<char> {
    "ABCDEFGHIJKLMNOPQRSTUVWXYZabcdefghijklmnopqrstuvwxyz0123456789-_"@
}

/// The alphabet character for a six-bit value.
pub open spec fn base64_char(v: int) -> char {
    base64_alphabet()[v]
}

/// URL-safe base64 with `=` padding: each group of three bytes becomes four
/// characters, and a trailing group of one or two bytes is padded out to four.
pub open spec fn base64_encoding(b: Seq<u8>) -> Seq<char>
    decreases b.len(),
{
    if b.len() == 0 {
        Seq::empty()
    } else if b.len() == 1 {
        let x = b[0] as int;
        seq![base64_char(x / 4), base64_char((x % 4) * 16), '=', '=']
    } else if b.len() == 2 {
        let x = b[0] as int;
        let y = b[1] as int;
        seq![
            base64_char(x / 4),
            base64_char((x % 4) * 16 + y / 16),
            base64_char((y % 16) * 4),
            '=',
        ]
    } else {
        let x = b[0] as int;
        let y = b[1] as int;
        let z = b[2] as int;
        seq![
            base64_char(x / 4),
            base64_char((x % 4) * 16 + y / 16),
            base64_char((y % 16) * 4 + z / 64),
            base64_char(z % 64),
        ] + base64_encoding(b.skip(3))
    }
}

/// Sixteen input bytes always encode to exactly twenty-four characters, so
/// the digest part of a validator token has a fixed length.
pub proof fn lemma_base64_encoding_len_16(b: Seq<u8>)
    requires
        b.len() == 16,
    ensures
        base64_encoding(b).len() == 24,
{
    reveal_with_fuel(base64_encoding, 7);
    assert(base64_encoding(b).len() == 24);
}

/// Relies on `base64::engine::Engine::encode` with the engine
/// `base64::prelude::BASE64_URL_SAFE`: the URL-safe alphabet with `=` padding.
/// The length bound keeps the encoded size computation from overflowing, on
/// which the call would fail.
#[verifier::external_body]
pub(crate) fn base64_encode(b: &Vec<u8>) -> (r: String)
    requires
        b@.len() <= usize::MAX as int / 4,
    ensures
        r@ == base64_encoding(b@),
{
    base64::prelude::BASE64_URL_SAFE.encode(b.as_slice())
}

} // verus!
