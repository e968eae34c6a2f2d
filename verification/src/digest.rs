//! SHA-256 digests written as lowercase hexadecimal text.

use vstd::prelude::*;
use vstd::utf8::encode_utf8;

verus! {

/// The SHA-256 digest of a byte sequence.
pub uninterp spec fn sha256_digest(data: Seq<u8>) -> Seq<u8>;

/// Calls `sha2::Sha256::digest`. Claimed: the result is the SHA-256 digest of the
/// bytes (named `sha256_digest`) and is 32 bytes long; which bytes those are is
/// left unsaid.
#[verifier::external_body]
fn sha256(data: &[u8]) -> (r: Vec<u8>)
    ensures
        r@ == sha256_digest(data@),
        r@.len() == 32,
{
    <sha2::Sha256 as sha2::Digest>::digest(data).to_vec()
}

/// The lowercase hexadecimal digit for a value below sixteen.
pub open spec fn hex_digit(d: nat) -> char {
    if d == 0 { '0' } else if d == 1 { '1' } else if d == 2 { '2' } else if d == 3 { '3' }
    else if d == 4 { '4' } else if d == 5 { '5' } else if d == 6 { '6' } else if d == 7 { '7' }
    else if d == 8 { '8' } else if d == 9 { '9' } else if d == 10 { 'a' } else if d == 11 { 'b' }
    else if d == 12 { 'c' } else if d == 13 { 'd' } else if d == 14 { 'e' } else { 'f' }
}

/// Each byte as two lowercase hexadecimal digits, high half first.
pub open spec fn lower_hex(data: Seq<u8>) -> Seq<char>
    decreases data.len(),
{
    if data.len() == 0 {
        Seq::empty()
    } else {
        seq![hex_digit((data[0] / 16) as nat), hex_digit((data[0] % 16) as nat)] + lower_hex(
            data.drop_first(),
        )
    }
}

/// Writing bytes in hexadecimal takes two digits per byte.
pub proof fn lower_hex_len(data: Seq<u8>)
    ensures
        lower_hex(data).len() == 2 * data.len(),
    decreases data.len(),
{
    if data.len() > 0 {
        lower_hex_len(data.drop_first());
    }
}

/// Calls `hex::encode`. Claimed, as the crate documents: each byte becomes two
/// lowercase hexadecimal digits, high half first.
#[verifier::external_body]
fn hex_encode(data: &[u8]) -> (r: String)
    ensures
        r@ == lower_hex(data@),
{
    hex::encode(data)
}

/// The digest of a text as the services store it: SHA-256 over the UTF-8 bytes,
/// in lowercase hexadecimal.
pub open spec fn text_digest(message: Seq<char>) -> Seq<char> {
    lower_hex(sha256_digest(encode_utf8(message)))
}

/// SHA-256 of the UTF-8 bytes of `message`, as lowercase hexadecimal text.
pub fn hex_sha256(message: &str) -> (r: String)
    ensures
        r@ == text_digest(message@),
        r@.len() == 64,
{
    let digest = sha256(message.as_bytes());
    proof {
        lower_hex_len(digest@);
    }
    hex_encode(digest.as_slice())
}

} // verus!
