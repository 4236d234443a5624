//! Checksum engine: digests of byte buffers and case-insensitive comparison.

use vstd::prelude::*;

verus! {

/// Digest algorithms understood by the checksum engine.
#[derive(Clone, Copy, Debug, PartialEq, Eq, Structural)]
pub enum ChecksumType {
    MD5,
    SHA256,
    SHA512,
}

/// Lower-case hexadecimal MD5 digest of a byte sequence.
pub uninterp spec fn md5_hex(content: Seq<u8>) -> Seq<char>;

/// Lower-case hexadecimal SHA-256 digest of a byte sequence.
pub uninterp spec fn sha256_hex(content: Seq<u8>) -> Seq<char>;

/// Lower-case hexadecimal SHA-512 digest of a byte sequence.
pub uninterp spec fn sha512_hex(content: Seq<u8>) -> Seq<char>;

/// The digest text that `kind` gives for `content`.
pub open spec fn digest_hex(kind: ChecksumType, content: Seq<u8>) -> Seq<char> {
    match kind {
        ChecksumType::MD5 => md5_hex(content),
        ChecksumType::SHA256 => sha256_hex(content),
        ChecksumType::SHA512 => sha512_hex(content),
    }
}

/// Every character is a lower-case hexadecimal digit.
pub open spec fn is_lower_hex(s: Seq<char>) -> bool {
    forall|i: int|
        0 <= i < s.len() ==> ('0' <= #[trigger] s[i] && s[i] <= '9') || ('a' <= s[i] && s[i]
            <= 'f')
}

/// Length of the hexadecimal digest of each algorithm: two digits per byte
/// of a 16, 32 or 64 byte digest.
pub open spec fn digest_len(kind: ChecksumType) -> nat {
    match kind {
        ChecksumType::MD5 => 32,
        ChecksumType::SHA256 => 64,
        ChecksumType::SHA512 => 128,
    }
}

/// Relies on `md5::compute`, printed through its `LowerHex` formatting: two
/// lower-case hexadecimal digits for each of the digest's 16 bytes.
#[verifier::external_body]
fn md5_digest(content: &[u8]) -> (r: String)
    ensures
        r@ == md5_hex(content@),
        r@.len() == 32,
        is_lower_hex(r@),
{
    format!("{:x}", md5::compute(content))
}

/// Relies on `sha2::Sha256` through `Digest::digest`, printed through the
/// `LowerHex` formatting of its 32-byte output array: two lower-case
/// hexadecimal digits per byte.
#[verifier::external_body]
fn sha256_digest(content: &[u8]) -> (r: String)
    ensures
        r@ == sha256_hex(content@),
        r@.len() == 64,
        is_lower_hex(r@),
{
    format!("{:x}", <sha2::Sha256 as sha2::Digest>::digest(content))
}

/// Relies on `sha2::Sha512` through `Digest::digest`, printed through the
/// `LowerHex` formatting of its 64-byte output array: two lower-case
/// hexadecimal digits per byte.
#[verifier::external_body]
fn sha512_digest(content: &[u8]) -> (r: String)
    ensures
        r@ == sha512_hex(content@),
        r@.len() == 128,
        is_lower_hex(r@),
{
    format!("{:x}", <sha2::Sha512 as sha2::Digest>::digest(content))
}

/// Computes the lower-case hexadecimal digest of `content` with `kind`.
pub fn calculate_checksum(content: &[u8], kind: ChecksumType) -> (r: String)
    ensures
        r@ == digest_hex(kind, content@),
        r@.len() == digest_len(kind),
        is_lower_hex(r@),
{
    match kind {
        ChecksumType::MD5 => md5_digest(content),
        ChecksumType::SHA256 => sha256_digest(content),
        ChecksumType::SHA512 => sha512_digest(content),
    }
}

/// A character's code with ASCII upper-case letters folded to lower case.
pub open spec fn ascii_fold(c: char) -> u32 {
    if 'A' <= c && c <= 'Z' {
        (c as u32 + 32) as u32
    } else {
        c as u32
    }
}

/// The two texts are equal once ASCII letters are compared without case.
pub open spec fn same_ignoring_ascii_case(a: Seq<char>, b: Seq<char>) -> bool {
    &&& a.len() == b.len()
    &&& forall|i: int| 0 <= i < a.len() ==> ascii_fold(#[trigger] a[i]) == ascii_fold(b[i])
}

fn fold_char(c: char) -> (r: u32)
    ensures
        r == ascii_fold(c),
{
    if 'A' <= c && c <= 'Z' {
        c as u32 + 32
    } else {
        c as u32
    }
}

/// Compares two texts, ASCII letters without regard to case.
pub fn eq_ignore_ascii_case(a: &str, b: &str) -> (r: bool)
    ensures
        r == same_ignoring_ascii_case(a@, b@),
{
    let n = a.unicode_len();
    if n != b.unicode_len() {
        return false;
    }
    let mut i: usize = 0;
    while i < n
        invariant
            n == a@.len(),
            n == b@.len(),
            i <= n,
            forall|j: int| 0 <= j < i ==> ascii_fold(#[trigger] a@[j]) == ascii_fold(b@[j]),
        decreases n - i,
    {
        if fold_char(a.get_char(i)) != fold_char(b.get_char(i)) {
            return false;
        }
        i = i + 1;
    }
    true
}

/// Checks whether a computed digest matches an expected one; hexadecimal
/// digits compare without regard to case.
pub fn checksums_match(actual: &str, expected: &str) -> (r: bool)
    ensures
        r == same_ignoring_ascii_case(actual@, expected@),
{
    eq_ignore_ascii_case(actual, expected)
}

/// A digest depends on the content alone: two buffers with the same bytes
/// have the same digest under every algorithm.
pub proof fn checksum_is_deterministic(kind: ChecksumType, a: Seq<u8>, b: Seq<u8>)
    requires
        a == b,
    ensures
        digest_hex(kind, a) == digest_hex(kind, b),
{
}

/// `upper` is `lower` with its ASCII letters in upper case: each letter
/// `a` to `z` becomes the capital whose code is 32 less, and every other
/// character stays as it is.
pub open spec fn ascii_upper_of(lower: Seq<char>, upper: Seq<char>) -> bool {
    &&& upper.len() == lower.len()
    &&& forall|i: int|
        0 <= i < lower.len() ==> if 'a' <= #[trigger] lower[i] && lower[i] <= 'z' {
            'A' <= upper[i] && upper[i] <= 'Z' && upper[i] as u32 + 32 == lower[i] as u32
        } else {
            upper[i] == lower[i]
        }
}

/// Comparison ignores case: a digest matches itself, and matches itself
/// written in upper case.
pub proof fn checksum_comparison_ignores_case(digest: Seq<char>, upper: Seq<char>)
    requires
        ascii_upper_of(digest, upper),
    ensures
        same_ignoring_ascii_case(digest, digest),
        same_ignoring_ascii_case(digest, upper),
{
    assert forall|i: int| 0 <= i < digest.len() implies ascii_fold(#[trigger] digest[i])
        == ascii_fold(upper[i]) by {
        if 'a' <= digest[i] && digest[i] <= 'z' {
            assert(ascii_fold(upper[i]) == upper[i] as u32 + 32);
            assert(ascii_fold(digest[i]) == digest[i] as u32);
        }
    }
}

} // verus!
