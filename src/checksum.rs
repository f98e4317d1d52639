use vstd::prelude::*;
use sha2::Digest;
use crate::text::{
    eq_ignore_case, has_no_upper, lemma_eq_ignore_case_lower,
    str_eq_ignore_case,
};

verus! {

/// The SHA-256 digest of a byte sequence.
pub uninterp spec fn sha256_of(data: Seq<u8>) -> Seq<u8>;

/// The lowercase hexadecimal digit for a value below 16.
pub open spec fn hex_digit(n: u8) -> char {
    if n < 10 {
        (48 + n) as u8 as char
    } else {
        (87 + n) as u8 as char
    }
}

/// Two lowercase hexadecimal digits per byte, most significant first.
pub open spec fn hex_lower(b: Seq<u8>) -> Seq<char>
    decreases b.len(),
{
    if b.len() == 0 {
        seq![]
    } else {
        hex_lower(b.drop_last()) + seq![hex_digit(b.last() / 16), hex_digit(b.last() % 16)]
    }
}

/// The digest that a checksum is compared against.
pub open spec fn digest_hex_of(data: Seq<u8>) -> Seq<char> {
    hex_lower(sha256_of(data))
}

/// Relies on sha2::Sha256::digest: the 32-byte SHA-256 digest of the input.
#[verifier::external_body]
fn sha256(data: &[u8]) -> (r: Vec<u8>)
    ensures
        r@ == sha256_of(data@),
        r@.len() == 32,
{
    sha2::Sha256::digest(data).to_vec()
}

/// Relies on hex::encode: each byte as two lowercase hexadecimal digits.
#[verifier::external_body]
fn hex_encode(b: &[u8]) -> (r: String)
    ensures
        r@ == hex_lower(b@),
{
    hex::encode(b)
}

/// The lowercase hexadecimal SHA-256 digest of `data`.
pub fn digest(data: &[u8]) -> (r: String)
    ensures
        r@ == digest_hex_of(data@),
{
    let d = sha256(data);
    hex_encode(d.as_slice())
}

/// Whether `data` hashes to `expected`, compared without regard to case.
pub fn verify(data: &[u8], expected: &str) -> (r: bool)
    ensures
        r == eq_ignore_case(digest_hex_of(data@), expected@),
{
    let d = digest(data);
    str_eq_ignore_case(d.as_str(), expected)
}

proof fn lemma_hex_lower_no_upper(b: Seq<u8>)
    ensures
        has_no_upper(hex_lower(b)),
    decreases b.len(),
{
    if b.len() > 0 {
        lemma_hex_lower_no_upper(b.drop_last());
        let hi = hex_digit(b.last() / 16);
        let lo = hex_digit(b.last() % 16);
        assert(!('A' <= hi <= 'Z'));
        assert(!('A' <= lo <= 'Z'));
        let s = hex_lower(b);
        let t = hex_lower(b.drop_last());
        assert(s == t + seq![hi, lo]);
        assert forall|i: int| 0 <= i < s.len() implies !('A' <= #[trigger] s[i] <= 'Z') by {
            if i < t.len() {
                assert(s[i] == t[i]);
            }
        }
    }
}

/// A file's own digest verifies it, in either case; any other lowercase digest
/// does not.
pub proof fn lemma_verify_own_digest_only(data: Seq<u8>, other: Seq<char>)
    requires
        has_no_upper(other),
        other != digest_hex_of(data),
    ensures
        eq_ignore_case(digest_hex_of(data), digest_hex_of(data)),
        !eq_ignore_case(digest_hex_of(data), other),
{
    lemma_hex_lower_no_upper(sha256_of(data));
    if eq_ignore_case(digest_hex_of(data), other) {
        lemma_eq_ignore_case_lower(digest_hex_of(data), other);
    }
}

} // verus!
