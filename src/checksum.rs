use vstd::prelude::*;

use sha2::Digest;

use crate::error::ResolveError;
use crate::text::same_text;

verus! {

/// The value of a hexadecimal digit of either case, or `-1` for any other character.
pub open spec fn hex_value(c: char) -> int {
    if '0' <= c && c <= '9' {
        c as int - '0' as int
    } else if 'a' <= c && c <= 'f' {
        c as int - 'a' as int + 10
    } else if 'A' <= c && c <= 'F' {
        c as int - 'A' as int + 10
    } else {
        -1
    }
}

pub open spec fn is_lower_hex_digit(c: char) -> bool {
    ('0' <= c && c <= '9') || ('a' <= c && c <= 'f')
}

/// Text that decodes cleanly: an even number of hexadecimal digits.
pub open spec fn is_hex_text(s: Seq<char>) -> bool {
    &&& s.len() % 2 == 0
    &&& forall|i: int| 0 <= i < s.len() ==> hex_value(#[trigger] s[i]) >= 0
}

/// The bytes that hexadecimal text stands for, two digits per byte, high nibble first.
pub open spec fn hex_bytes(s: Seq<char>) -> Seq<u8> {
    Seq::new(s.len() / 2, |i: int| (16 * hex_value(s[2 * i]) + hex_value(s[2 * i + 1])) as u8)
}

/// `s` is the lowercase hexadecimal encoding of `b`.
pub open spec fn is_lower_hex_of(b: Seq<u8>, s: Seq<char>) -> bool {
    &&& s.len() == 2 * b.len()
    &&& forall|j: int| 0 <= j < s.len() ==> is_lower_hex_digit(#[trigger] s[j])
    &&& forall|i: int|
        0 <= i < b.len() ==> hex_value(#[trigger] s[2 * i]) == b[i] / 16 && hex_value(s[2 * i
            + 1]) == b[i] % 16
}


/// The error type of `hex::decode`.
#[verifier::external_type_specification]
#[verifier::external_body]
pub struct ExFromHexError(hex::FromHexError);

/// The SHA-512 digest of a byte sequence.
pub uninterp spec fn sha512_of(data: Seq<u8>) -> Seq<u8>;

/// Relies on `hex::encode`: two lowercase digits for each byte, high nibble first.
#[verifier::external_body]
fn encode_hex(data: &[u8]) -> (r: String)
    ensures
        is_lower_hex_of(data@, r@),
{
    hex::encode(data)
}

/// Relies on `hex::decode`: it accepts an even number of digits of either case, and
/// gives one byte for each pair of digits.
#[verifier::external_body]
fn decode_hex(text: &str) -> (r: Result<Vec<u8>, hex::FromHexError>)
    ensures
        r is Ok <==> is_hex_text(text@),
        r matches Ok(v) ==> v@ == hex_bytes(text@),
{
    hex::decode(text)
}

/// Relies on `sha2::Sha512::digest`: the SHA-512 digest, which is 64 bytes long.
#[verifier::external_body]
fn sha512_digest(data: &[u8]) -> (r: Vec<u8>)
    ensures
        r@ == sha512_of(data@),
        r@.len() == 64,
{
    sha2::Sha512::digest(data).to_vec()
}


/// How an artifact fared against its expected checksum.
#[derive(Debug, Clone, Copy, PartialEq, Eq, Structural)]
pub enum VerificationOutcome {
    Verified,
    ChecksumMismatch,
    UnsupportedAlgorithm,
}

/// The length in bytes of a SHA-512 digest.
pub open spec fn sha512_length() -> nat {
    64
}

/// The name of the one supported algorithm, as it stands in a checksum string.
pub open spec fn sha512_name() -> Seq<char> {
    seq!['s', 'h', 'a', '5', '1', '2']
}

/// `i` is the position of the first `=` in `s`.
pub open spec fn is_first_separator(s: Seq<char>, i: int) -> bool {
    &&& 0 <= i < s.len()
    &&& s[i] == '='
    &&& forall|j: int| 0 <= j < i ==> s[j] != '='
}

pub open spec fn has_separator(s: Seq<char>) -> bool {
    exists|i: int| 0 <= i < s.len() && s[i] == '='
}

/// The position of the first `=` in `s`, which must hold one.
pub open spec fn separator_index(s: Seq<char>) -> int {
    choose|i: int| is_first_separator(s, i)
}

/// What a checksum `<algorithm>=<hex digest>` says of a computed digest: the string is
/// split at its first `=`, the algorithm must be SHA-512, the hex part must be exactly
/// 128 hexadecimal digits, and they must decode to exactly the digest.
pub open spec fn checksum_verdict(digest: Seq<u8>, checksum: Seq<char>) -> Result<
    VerificationOutcome,
    ResolveError,
> {
    if !has_separator(checksum) {
        Err(ResolveError::MalformedChecksum)
    } else {
        let i = separator_index(checksum);
        let algorithm = checksum.take(i);
        let hex_part = checksum.skip(i + 1);
        if algorithm != sha512_name() {
            Ok(VerificationOutcome::UnsupportedAlgorithm)
        } else if !is_hex_text(hex_part) || hex_part.len() != 2 * sha512_length() {
            Err(ResolveError::MalformedChecksum)
        } else if hex_bytes(hex_part) == digest {
            Ok(VerificationOutcome::Verified)
        } else {
            Ok(VerificationOutcome::ChecksumMismatch)
        }
    }
}

pub proof fn lemma_first_separator_unique(s: Seq<char>, i: int)
    requires
        is_first_separator(s, i),
    ensures
        has_separator(s),
        separator_index(s) == i,
{
    let k = separator_index(s);
    assert(is_first_separator(s, k));
    if k < i {
        assert(s[k] != '=');
    } else if i < k {
        assert(s[i] != '=');
    }
}

/// Whether two byte sequences are equal over their full length.
fn same_bytes(a: &[u8], b: &[u8]) -> (r: bool)
    ensures
        r == (a@ == b@),
{
    if a.len() != b.len() {
        return false;
    }
    let mut i: usize = 0;
    while i < a.len()
        invariant
            a@.len() == b@.len(),
            i <= a@.len(),
            forall|j: int| 0 <= j < i ==> a@[j] == b@[j],
        decreases a@.len() - i,
    {
        if a[i] != b[i] {
            return false;
        }
        i += 1;
    }
    assert(a@ =~= b@);
    true
}

/// The position of the first `=` in `s`, if it holds one.
pub fn first_separator(s: &str) -> (r: Option<usize>)
    ensures
        match r {
            Some(i) => is_first_separator(s@, i as int),
            None => !has_separator(s@),
        },
{
    let n = s.unicode_len();
    let mut i: usize = 0;
    while i < n && s.get_char(i) != '='
        invariant
            n == s@.len(),
            i <= n,
            forall|j: int| 0 <= j < i ==> s@[j] != '=',
        decreases n - i,
    {
        i += 1;
    }
    if i == n {
        None
    } else {
        Some(i)
    }
}

/// Judges an already computed digest against a checksum string.
pub fn check_digest(digest: &[u8], checksum: &str) -> (r: Result<VerificationOutcome, ResolveError>)
    ensures
        r == checksum_verdict(digest@, checksum@),
{
    let n = checksum.unicode_len();
    let i = match first_separator(checksum) {
        None => return Err(ResolveError::MalformedChecksum),
        Some(i) => i,
    };
    proof {
        lemma_first_separator_unique(checksum@, i as int);
    }
    let algorithm = checksum.substring_char(0, i);
    let hex_part = checksum.substring_char(i + 1, n);
    assert(algorithm@ =~= checksum@.take(i as int));
    assert(hex_part@ =~= checksum@.skip(i + 1));
    let name = "sha512";
    proof {
        reveal_strlit("sha512");
        assert(name@ =~= sha512_name());
    }
    if !same_text(algorithm, name) {
        return Ok(VerificationOutcome::UnsupportedAlgorithm);
    }
    if n - (i + 1) != 128 {
        return Err(ResolveError::MalformedChecksum);
    }
    match decode_hex(hex_part) {
        Err(_) => Err(ResolveError::MalformedChecksum),
        Ok(expected) => {
            if same_bytes(expected.as_slice(), digest) {
                Ok(VerificationOutcome::Verified)
            } else {
                Ok(VerificationOutcome::ChecksumMismatch)
            }
        },
    }
}

/// Hashes the artifact's bytes and judges the digest against the checksum string.
pub fn verify_checksum(content: &[u8], checksum: &str) -> (r: Result<
    VerificationOutcome,
    ResolveError,
>)
    ensures
        r == checksum_verdict(sha512_of(content@), checksum@),
        sha512_of(content@).len() == sha512_length(),
{
    let digest = sha512_digest(content);
    check_digest(digest.as_slice(), checksum)
}

/// The checksum string `sha512=<lowercase hex digest>` of the given bytes.
pub fn sha512_checksum(content: &[u8]) -> (r: String)
    ensures
        r@ == sha512_name().push('=') + r@.skip(7),
        is_lower_hex_of(sha512_of(content@), r@.skip(7)),
        sha512_of(content@).len() == sha512_length(),
{
    let digest = sha512_digest(content);
    let hex_part = encode_hex(digest.as_slice());
    let mut r = String::from_str("sha512=");
    proof {
        reveal_strlit("sha512=");
    }
    r.append(hex_part.as_str());
    assert(r@.skip(7) =~= hex_part@);
    assert(r@ =~= sha512_name().push('=') + r@.skip(7));
    r
}


/// Decoding the lowercase hexadecimal encoding of a byte sequence gives that sequence back.
pub proof fn lemma_hex_round_trip(b: Seq<u8>, s: Seq<char>)
    requires
        is_lower_hex_of(b, s),
    ensures
        is_hex_text(s),
        hex_bytes(s) == b,
{
    assert forall|i: int| 0 <= i < s.len() implies hex_value(#[trigger] s[i]) >= 0 by {
        assert(is_lower_hex_digit(s[i]));
    }
    assert forall|i: int| 0 <= i < b.len() implies #[trigger] hex_bytes(s)[i] == b[i] by {
        assert(hex_value(s[2 * i]) == b[i] / 16);
        assert(hex_value(s[2 * i + 1]) == b[i] % 16);
        assert(16 * (b[i] / 16) + b[i] % 16 == b[i]) by (nonlinear_arith);
    }
    assert(hex_bytes(s) =~= b);
}

/// A checksum string written from the SHA-512 digest of some bytes verifies those
/// bytes; bytes whose digest differs from it are reported as a mismatch. (A digest is
/// 64 bytes long, as `verify_checksum` and `sha512_checksum` state.)
pub proof fn lemma_checksum_round_trip(content: Seq<u8>, altered: Seq<u8>, hex_part: Seq<char>)
    requires
        sha512_of(content).len() == sha512_length(),
        is_lower_hex_of(sha512_of(content), hex_part),
    ensures
        checksum_verdict(sha512_of(content), sha512_name().push('=') + hex_part) == Ok::<
            VerificationOutcome,
            ResolveError,
        >(VerificationOutcome::Verified),
        sha512_of(altered) != sha512_of(content) ==> checksum_verdict(
            sha512_of(altered),
            sha512_name().push('=') + hex_part,
        ) == Ok::<VerificationOutcome, ResolveError>(VerificationOutcome::ChecksumMismatch),
{
    let checksum = sha512_name().push('=') + hex_part;
    lemma_hex_round_trip(sha512_of(content), hex_part);
    assert(is_first_separator(checksum, 6));
    lemma_first_separator_unique(checksum, 6);
    assert(checksum.take(6) =~= sha512_name());
    assert(checksum.skip(7) =~= hex_part);
}

/// A checksum string without any `=` is rejected as malformed, whatever the digest.
pub proof fn lemma_missing_separator(digest: Seq<u8>, checksum: Seq<char>)
    requires
        forall|i: int| 0 <= i < checksum.len() ==> checksum[i] != '=',
    ensures
        checksum_verdict(digest, checksum) == Err::<VerificationOutcome, ResolveError>(
            ResolveError::MalformedChecksum,
        ),
{
}

} // verus!
