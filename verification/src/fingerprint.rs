//! The fingerprint a probe prints for the DLL it loads: the SHA-256 digest
//! of the file's bytes in lowercase hexadecimal.

use crate::row_text::digit_char;
use sha2::{Digest, Sha256};
use vstd::prelude::*;
use vstd::string::StringExecFns;

verus! {

/// The SHA-256 digest of `data`.
pub uninterp spec fn sha256_digest(data: Seq<u8>) -> Seq<u8>;

/// Calls `sha2::Sha256::digest`. Claimed: the result is the SHA-256 digest
/// of `data` (named by `sha256_digest`, not computed here) and has the
/// algorithm's output size, 32 bytes.
#[verifier::external_body]
fn sha256(data: &[u8]) -> (d: Vec<u8>)
    ensures
        d@ == sha256_digest(data@),
        d@.len() == 32,
{
    Sha256::digest(data).to_vec()
}

/// A lowercase hexadecimal digit.
pub open spec fn hex_char(n: nat) -> char {
    if n < 10 {
        digit_char(n)
    } else if n == 10 {
        'a'
    } else if n == 11 {
        'b'
    } else if n == 12 {
        'c'
    } else if n == 13 {
        'd'
    } else if n == 14 {
        'e'
    } else {
        'f'
    }
}

/// Bytes as lowercase hexadecimal, two digits per byte.
pub open spec fn lower_hex(bytes: Seq<u8>) -> Seq<char>
    decreases bytes.len(),
{
    if bytes.len() == 0 {
        Seq::empty()
    } else {
        lower_hex(bytes.drop_last()) + seq![
            hex_char((bytes.last() / 16) as nat),
            hex_char((bytes.last() % 16) as nat),
        ]
    }
}

fn append_hex_digit(out: &mut String, n: u8)
    requires
        n < 16,
    ensures
        final(out)@ == old(out)@ + seq![hex_char(n as nat)],
{
    let digits = "0123456789abcdef";
    let d = n as usize;
    proof {
        reveal_strlit("0123456789abcdef");
        assert(digits@[d as int] == hex_char(d as nat));
    }
    let digit = digits.substring_ascii(d, d + 1);
    out.append(digit);
}

/// Bytes in lowercase hexadecimal.
pub fn digest_hex(bytes: &[u8]) -> (s: String)
    ensures
        s@ == lower_hex(bytes@),
{
    let mut s = String::new();
    let mut i: usize = 0;
    while i < bytes.len()
        invariant
            i <= bytes@.len(),
            s@ == lower_hex(bytes@.take(i as int)),
        decreases bytes@.len() - i,
    {
        let b = bytes[i];
        proof {
            assert(bytes@.take(i + 1).drop_last() == bytes@.take(i as int));
        }
        append_hex_digit(&mut s, b / 16);
        append_hex_digit(&mut s, b % 16);
        i = i + 1;
    }
    assert(bytes@.take(bytes@.len() as int) == bytes@);
    s
}

/// The fingerprint of a file's bytes: their SHA-256 digest in lowercase
/// hexadecimal, 64 characters.
pub fn fingerprint(data: &[u8]) -> (s: String)
    ensures
        s@ == lower_hex(sha256_digest(data@)),
{
    let digest = sha256(data);
    digest_hex(digest.as_slice())
}

/// Every fingerprint is 64 characters long.
pub proof fn lemma_lower_hex_len(bytes: Seq<u8>)
    ensures
        lower_hex(bytes).len() == 2 * bytes.len(),
    decreases bytes.len(),
{
    if bytes.len() > 0 {
        lemma_lower_hex_len(bytes.drop_last());
    }
}

} // verus!
