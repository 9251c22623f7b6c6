//! Conformance against the RFC 4226 Appendix D reference values for the
//! secret "12345678901234567890" under HMAC-SHA-1.

use lugnut::hotp::Hotp;
use lugnut::{digest, Algorithm};

const RFC_SECRET: &str = "12345678901234567890";

fn hotp_at(counter: u128) -> String {
    let hotp = Hotp::new(RFC_SECRET.to_string(), counter);
    hotp.generate().expect("generation failed on an RFC vector")
}

#[test]
fn test_rfc4226_vector_counter_0() {
    assert_eq!(hotp_at(0), "755224");
}

#[test]
fn test_rfc4226_vector_counter_1() {
    assert_eq!(hotp_at(1), "287082");
}

#[test]
fn test_rfc4226_vector_counter_9() {
    assert_eq!(hotp_at(9), "520489");
}

#[test]
fn test_rfc4226_intermediate_digest_counter_0() {
    let d = digest(RFC_SECRET.to_string(), 0, Algorithm::Sha1).expect("digest failed");
    let expected: Vec<u8> = vec![
        0xcc, 0x93, 0xcf, 0x18, 0x50, 0x8d, 0x94, 0x93, 0x4c, 0x64, 0xb6, 0x5d, 0x8b, 0xa7, 0x66,
        0x7f, 0xb7, 0xcd, 0xe4, 0xb0,
    ];
    assert_eq!(d, expected);
}

#[test]
fn test_digest_lengths_per_algorithm() {
    let d1 = digest(RFC_SECRET.to_string(), 0, Algorithm::Sha1).unwrap();
    let d256 = digest(RFC_SECRET.to_string(), 0, Algorithm::Sha256).unwrap();
    let d512 = digest(RFC_SECRET.to_string(), 0, Algorithm::Sha512).unwrap();
    assert_eq!(d1.len(), 20);
    assert_eq!(d256.len(), 32);
    assert_eq!(d512.len(), 64);
    assert_ne!(d256[..20], d1[..]);
    assert_ne!(d512[..32], d256[..]);
}

#[test]
fn test_digest_deterministic_across_calls() {
    let a = digest(RFC_SECRET.to_string(), 7, Algorithm::Sha256).unwrap();
    let b = digest(RFC_SECRET.to_string(), 7, Algorithm::Sha256).unwrap();
    assert_eq!(a, b);
}
