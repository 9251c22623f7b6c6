//! Behavioural checks of the HOTP engine on concrete values: determinism,
//! the round trip through verification, the window edges, code lengths, the
//! length gate, and the generation-failure path.

use lugnut::hotp::Hotp;
use lugnut::GenerationError;

const RFC_SECRET: &str = "12345678901234567890";

#[test]
fn test_generate_is_deterministic() {
    let hotp = Hotp::new(RFC_SECRET.to_string(), 42);
    let first = hotp.generate().expect("generation failed");
    let second = hotp.generate().expect("generation failed");
    assert_eq!(first, second);
}

#[test]
fn test_generated_code_round_trips_through_verify() {
    for window in [0u64, 1, 10] {
        let mut hotp = Hotp::new(RFC_SECRET.to_string(), 5);
        hotp.with_window(window);
        let code = hotp.generate().expect("generation failed");
        assert!(hotp.verify(code).expect("verification errored"));
    }
}

#[test]
fn test_token_at_window_edge_passes() {
    // The code for counter 2 ("359152" per RFC 4226 Appendix D) must pass a
    // search that starts at counter 0 with a window of 2.
    let edge = Hotp::new(RFC_SECRET.to_string(), 2).generate().expect("generation failed");
    assert_eq!(edge, "359152");
    let mut hotp = Hotp::new(RFC_SECRET.to_string(), 0);
    hotp.with_window(2);
    assert!(hotp.verify(edge).expect("verification errored"));
}

#[test]
fn test_token_past_window_edge_fails() {
    // The code for counter 3 ("969429") lies one step past a window of 2
    // anchored at counter 0, so it must be rejected.
    let past = Hotp::new(RFC_SECRET.to_string(), 3).generate().expect("generation failed");
    assert_eq!(past, "969429");
    let mut hotp = Hotp::new(RFC_SECRET.to_string(), 0);
    hotp.with_window(2);
    assert!(!hotp.verify(past).expect("verification errored"));
}

#[test]
fn test_generated_length_matches_digits() {
    for digits in 1u32..=10 {
        let mut hotp = Hotp::new(RFC_SECRET.to_string(), 123);
        hotp.with_length(digits);
        let code = hotp.generate().expect("generation failed");
        assert_eq!(code.len(), digits as usize);
    }
}

#[test]
fn test_mismatched_token_length_fails_closed() {
    let hotp = Hotp::new(RFC_SECRET.to_string(), 0);
    assert!(!hotp.verify("75522".to_string()).expect("verification errored"));
    assert!(!hotp.verify("7552244".to_string()).expect("verification errored"));
    assert!(!hotp.verify(String::new()).expect("verification errored"));
}

#[test]
fn test_mismatched_length_skips_digest_entirely() {
    // With an all-zero digest override generation aborts, yet a token of the
    // wrong length is still rejected with `false`: the length test comes
    // before any truncation.
    let mut hotp = Hotp::new(RFC_SECRET.to_string(), 0);
    hotp.with_digest(vec![0u8; 20]);
    assert_eq!(hotp.verify("123".to_string()), Ok(false));
}

#[test]
fn test_zero_code_is_a_generation_failure() {
    let mut hotp = Hotp::new(RFC_SECRET.to_string(), 0);
    hotp.with_digest(vec![0u8; 20]);
    assert_eq!(hotp.generate(), Err(GenerationError::FailedToGenerateOTP));
    assert_eq!(
        hotp.verify("000000".to_string()),
        Err(GenerationError::FailedToGenerateOTP)
    );
}

#[test]
fn test_digest_override_is_used_verbatim() {
    // An override whose truncation is known byte-for-byte: the last byte
    // selects offset 0, and the four bytes there give 0x01020304.
    let mut digest = vec![0u8; 20];
    digest[0] = 0x01;
    digest[1] = 0x02;
    digest[2] = 0x03;
    digest[3] = 0x04;
    let mut hotp = Hotp::new(RFC_SECRET.to_string(), 0);
    hotp.with_digest(digest);
    let code = hotp.generate().expect("generation failed");
    assert_eq!(code, format!("{:06}", 0x01020304u32 % 1_000_000));
}
