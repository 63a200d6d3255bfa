//! The validator token: a weak entity tag made of the body length in
//! hexadecimal and the URL-safe base64 rendering of the body's fingerprint.

use vstd::prelude::*;
use vstd::string::StringExecFns;

use crate::encoding::{base64_encode, base64_encoding};
use crate::fingerprint::{fingerprint, fingerprint_bytes, le_bytes, xxh3_128_of};
use crate::hex::{hex_seq, lemma_hex_seq_injective, lemma_hex_seq_no_dash, size_prefix};

verus! {

/// The full validator header value for a buffered body:
/// `W/"<hex length>-<base64 digest>"`, always marked weak.
pub open spec fn validator_token(b: Seq<u8>) -> Seq<char> {
    "W/\""@ + hex_seq(b.len()) + "-"@ + base64_encoding(le_bytes(xxh3_128_of(b))) + "\""@
}

/// Computes the weak validator token for a buffered body. An empty body is a
/// valid input like any other.
pub fn make_validator(body: &Vec<u8>) -> (t: String)
    ensures
        t@ == validator_token(body@),
{
    let digest: u128 = fingerprint(body.as_slice());
    let bytes: Vec<u8> = fingerprint_bytes(digest);
    let b64: String = base64_encode(&bytes);
    let mut t: String = String::from_str("W/\"");
    let prefix: String = size_prefix(body.len());
    t.append(prefix.as_str());
    t.append("-");
    t.append(b64.as_str());
    t.append("\"");
    proof {
        assert(t@ =~= validator_token(body@));
    }
    t
}

/// Shape of the token: `W/"`, the hexadecimal size prefix, `-`, a digest of
/// exactly twenty-four characters, and a closing quote, so the token is as
/// long as the size prefix plus twenty-nine.
pub proof fn lemma_validator_token_len(b: Seq<u8>)
    ensures
        validator_token(b).len() == hex_seq(b.len()).len() + 29,
{
    reveal_strlit("W/\"");
    reveal_strlit("-");
    reveal_strlit("\"");
    crate::encoding::lemma_base64_encoding_len_16(le_bytes(xxh3_128_of(b)));
}

/// Determinism: the validator token is a function of the body bytes alone, so
/// fingerprinting the same bytes twice yields identical tokens.
pub proof fn lemma_validator_deterministic(b1: Seq<u8>, b2: Seq<u8>)
    requires
        b1 == b2,
    ensures
        validator_token(b1) == validator_token(b2),
{
}

/// Length sensitivity: bodies of differing lengths always receive differing
/// validator tokens, since the size prefix pins the length down. (Bodies of
/// equal length and differing content get differing tokens only as far as
/// their fingerprints differ, which holds with overwhelming probability but is
/// not a guarantee.)
pub proof fn lemma_validator_length_sensitive(b1: Seq<u8>, b2: Seq<u8>)
    requires
        b1.len() != b2.len(),
    ensures
        validator_token(b1) != validator_token(b2),
{
    reveal_strlit("W/\"");
    reveal_strlit("-");
    let h1 = hex_seq(b1.len());
    let h2 = hex_seq(b2.len());
    let t1 = validator_token(b1);
    let t2 = validator_token(b2);
    lemma_hex_seq_no_dash(b1.len());
    lemma_hex_seq_no_dash(b2.len());
    lemma_hex_seq_injective(b1.len(), b2.len());
    assert(forall|i: int| 0 <= i < h1.len() ==> t1[3 + i] == h1[i]);
    assert(forall|i: int| 0 <= i < h2.len() ==> t2[3 + i] == h2[i]);
    if h1.len() == h2.len() {
        assert(!(h1 =~= h2));
        let i = choose|i: int| 0 <= i < h1.len() && h1[i] != h2[i];
        assert(t1[3 + i] != t2[3 + i]);
    } else if h1.len() < h2.len() {
        let k = h1.len() as int;
        assert(t1[3 + k] == '-');
        assert(t2[3 + k] == h2[k]);
        assert(t1[3 + k] != t2[3 + k]);
    } else {
        let k = h2.len() as int;
        assert(t2[3 + k] == '-');
        assert(t1[3 + k] == h1[k]);
        assert(t1[3 + k] != t2[3 + k]);
    }
}

} // verus!
