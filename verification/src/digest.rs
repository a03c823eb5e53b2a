//! SHA-256 digests in the `sha256:<lowercase hex>` notation of the lab's
//! artifacts.

use crate::text::concat;
use sha2::Digest;
use vstd::string::StringSliceAdditionalSpecFns;
use vstd::prelude::*;

verus! {

/// What `sha2::Sha256::digest` returns for `data`.
pub uninterp spec fn sha256_of(data: Seq<u8>) -> Seq<u8>;

/// `sha2::Sha256::digest`: the SHA-256 digest of `data`.  The contract
/// names the result and states its length, 32 bytes, which is the output
/// size of `Sha256` in `sha2`.
#[verifier::external_body]
fn sha256(data: &[u8]) -> (d: Vec<u8>)
    ensures
        d@ == sha256_of(data@),
        d@.len() == 32,
{
    sha2::Sha256::digest(data).to_vec()
}

/// Lowercase hexadecimal digit.
pub open spec fn hex_digit(d: int) -> char {
    if d < 10 {
        (('0' as int) + d) as char
    } else {
        (('a' as int) + d - 10) as char
    }
}

/// Lowercase hexadecimal notation of bytes, two digits per byte.
pub open spec fn hex_lower(bytes: Seq<u8>) -> Seq<char>
    decreases bytes.len(),
{
    if bytes.len() == 0 {
        Seq::empty()
    } else {
        hex_lower(bytes.drop_last()) + seq![
            hex_digit((bytes.last() / 16) as int),
            hex_digit((bytes.last() % 16) as int),
        ]
    }
}

fn hex_digit_str(d: u8) -> (r: &'static str)
    requires
        d < 16,
    ensures
        r@ == seq![hex_digit(d as int)],
{
    let table = "0123456789abcdef";
    proof { reveal_strlit("0123456789abcdef"); }
    table.substring_ascii(d as usize, d as usize + 1)
}

/// Lowercase hexadecimal notation of `bytes`.
pub fn hex_string(bytes: &Vec<u8>) -> (s: String)
    ensures
        s@ == hex_lower(bytes@),
{
    let mut s = String::new();
    let mut i: usize = 0;
    while i < bytes.len()
        invariant
            i <= bytes@.len(),
            s@ == hex_lower(bytes@.subrange(0, i as int)),
        decreases bytes.len() - i,
    {
        let b = bytes[i];
        proof {
            assert(bytes@.subrange(0, i + 1).drop_last() =~= bytes@.subrange(0, i as int));
        }
        s.append(hex_digit_str(b / 16));
        s.append(hex_digit_str(b % 16));
        i = i + 1;
    }
    proof {
        assert(bytes@.subrange(0, bytes@.len() as int) =~= bytes@);
    }
    s
}

/// `sha256:` followed by the lowercase hex SHA-256 digest of `data`.
pub open spec fn sha256_text(data: Seq<u8>) -> Seq<char> {
    seq!['s', 'h', 'a', '2', '5', '6', ':'] + hex_lower(sha256_of(data))
}

/// The `sha256:<hex>` digest of `data`.
pub fn sha256_digest_text(data: &[u8]) -> (s: String)
    ensures
        s@ == sha256_text(data@),
{
    let d = sha256(data);
    let h = hex_string(&d);
    proof { reveal_strlit("sha256:"); }
    concat("sha256:", h.as_str())
}

/// The lowercase hex SHA-256 digest of the UTF-8 bytes of `s`.
pub fn sha256_hex_of_str(s: &str) -> (h: String)
    ensures
        h@ == hex_lower(sha256_of(s.spec_bytes())),
{
    let d = sha256(s.as_bytes());
    hex_string(&d)
}

} // verus!
