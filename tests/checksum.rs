use cozy::checksum::{check_digest, sha512_checksum, verify_checksum, VerificationOutcome};
use cozy::error::ResolveError;

const ABC_SHA512: &str = "ddaf35a193617abacc417349ae20413112e6fa4e89a97ea20a9eeee64b55d39a2192992a274fc1a836ba3c23a3feebbd454d4423643ce80e2a9ac94fa54ca49f";

#[test]
fn checksum_of_known_input() {
    assert_eq!(sha512_checksum(b"abc"), format!("sha512={}", ABC_SHA512));
}

#[test]
fn known_checksum_verifies() {
    let checksum = format!("sha512={}", ABC_SHA512);
    assert_eq!(verify_checksum(b"abc", &checksum), Ok(VerificationOutcome::Verified));
}

#[test]
fn uppercase_digest_verifies() {
    let checksum = format!("sha512={}", ABC_SHA512.to_uppercase());
    assert_eq!(verify_checksum(b"abc", &checksum), Ok(VerificationOutcome::Verified));
}

#[test]
fn round_trip_verifies() {
    let data: Vec<u8> = (0..200u32).map(|i| (i * 7 % 256) as u8).collect();
    let checksum = sha512_checksum(&data);
    assert_eq!(verify_checksum(&data, &checksum), Ok(VerificationOutcome::Verified));
}

#[test]
fn empty_buffer_round_trip() {
    let checksum = sha512_checksum(b"");
    assert_eq!(checksum.len(), 7 + 128);
    assert_eq!(verify_checksum(b"", &checksum), Ok(VerificationOutcome::Verified));
}

#[test]
fn flipped_bit_is_mismatch() {
    let data: Vec<u8> = b"source archive bytes".to_vec();
    let checksum = sha512_checksum(&data);
    for i in 0..data.len() {
        for bit in 0..8 {
            let mut altered = data.clone();
            altered[i] ^= 1 << bit;
            assert_eq!(
                verify_checksum(&altered, &checksum),
                Ok(VerificationOutcome::ChecksumMismatch)
            );
        }
    }
}

#[test]
fn missing_separator_is_malformed() {
    assert_eq!(verify_checksum(b"abc", ABC_SHA512), Err(ResolveError::MalformedChecksum));
    assert_eq!(verify_checksum(b"abc", ""), Err(ResolveError::MalformedChecksum));
    assert_eq!(check_digest(&[1, 2], "sha512"), Err(ResolveError::MalformedChecksum));
}

#[test]
fn unknown_algorithm_is_unsupported() {
    assert_eq!(
        verify_checksum(b"abc", "md5=900150983cd24fb0d6963f7d28e17f72"),
        Ok(VerificationOutcome::UnsupportedAlgorithm)
    );
    assert_eq!(check_digest(&[0xab], "SHA512=ab"), Ok(VerificationOutcome::UnsupportedAlgorithm));
}

#[test]
fn bad_hex_is_malformed() {
    assert_eq!(check_digest(&[0xab], "sha512=zz"), Err(ResolveError::MalformedChecksum));
    assert_eq!(check_digest(&[0xab], "sha512=abc"), Err(ResolveError::MalformedChecksum));
    assert_eq!(check_digest(&[0xab], "sha512=ab=cd"), Err(ResolveError::MalformedChecksum));
}

#[test]
fn digest_compared_over_full_length() {
    let digest: Vec<u8> = (0..64u8).collect();
    let hex: String = digest.iter().map(|b| format!("{:02x}", b)).collect();
    assert_eq!(check_digest(&digest, &format!("sha512={}", hex)), Ok(VerificationOutcome::Verified));
    let mut other = digest.clone();
    other[63] ^= 1;
    assert_eq!(check_digest(&other, &format!("sha512={}", hex)), Ok(VerificationOutcome::ChecksumMismatch));
    assert_eq!(check_digest(&digest[..32], &format!("sha512={}", hex)), Ok(VerificationOutcome::ChecksumMismatch));
}

#[test]
fn digest_of_wrong_length_is_malformed() {
    assert_eq!(check_digest(&[0xab, 0xcd], "sha512=abcd"), Err(ResolveError::MalformedChecksum));
    assert_eq!(verify_checksum(b"abc", &format!("sha512={}", &ABC_SHA512[..64])), Err(ResolveError::MalformedChecksum));
    assert_eq!(verify_checksum(b"abc", &format!("sha512={}00", ABC_SHA512)), Err(ResolveError::MalformedChecksum));
    assert_eq!(check_digest(&[], "sha512="), Err(ResolveError::MalformedChecksum));
}
