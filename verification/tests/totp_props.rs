//! Behavioural checks of the TOTP engine with an injected clock: stability
//! inside one step window, change across windows, and the symmetric
//! verification window.

use lugnut::totp::Totp;

const RFC_SECRET: &str = "12345678901234567890";

#[test]
fn test_same_window_same_code() {
    // Times 30 and 59 both fall in the second 30-second window (counter 1),
    // whose RFC 4226 code for this secret is "287082".
    let mut totp = Totp::new();
    totp.with_time(30);
    let first = totp.generate(RFC_SECRET.to_string()).expect("generation failed");
    totp.with_time(59);
    let second = totp.generate(RFC_SECRET.to_string()).expect("generation failed");
    assert_eq!(first, "287082");
    assert_eq!(first, second);
}

#[test]
fn test_adjacent_windows_differ() {
    let mut totp = Totp::new();
    totp.with_time(29);
    let earlier = totp.generate(RFC_SECRET.to_string()).expect("generation failed");
    totp.with_time(30);
    let later = totp.generate(RFC_SECRET.to_string()).expect("generation failed");
    assert_eq!(earlier, "755224");
    assert_eq!(later, "287082");
    assert_ne!(earlier, later);
}

#[test]
fn test_one_step_away_passes_with_window_one() {
    let key = RFC_SECRET.to_string();
    let mut issuer = Totp::new();
    let mut checker = Totp::new();
    checker.with_window(1);
    checker.with_time(60);

    // One step in the past (counter 1) and one in the future (counter 3).
    issuer.with_time(30);
    let past = issuer.generate(key.clone()).expect("generation failed");
    assert!(checker.verify(past, key.clone()).expect("verification errored"));

    issuer.with_time(90);
    let future = issuer.generate(key.clone()).expect("generation failed");
    assert!(checker.verify(future, key).expect("verification errored"));
}

#[test]
fn test_two_steps_away_fails_with_window_one() {
    let key = RFC_SECRET.to_string();
    let mut issuer = Totp::new();
    let mut checker = Totp::new();
    checker.with_window(1);
    checker.with_time(60);

    // Two steps in the past (counter 0) and two in the future (counter 4).
    issuer.with_time(0);
    let past = issuer.generate(key.clone()).expect("generation failed");
    assert!(!checker.verify(past, key.clone()).expect("verification errored"));

    issuer.with_time(120);
    let future = issuer.generate(key.clone()).expect("generation failed");
    assert!(!checker.verify(future, key).expect("verification errored"));
}

#[test]
fn test_epoch_offset_shifts_the_counter() {
    // With an offset of 30 seconds, time 60 derives counter 1, the same
    // code that time 30 derives without an offset.
    let mut plain = Totp::new();
    plain.with_time(30);
    let expected = plain.generate(RFC_SECRET.to_string()).expect("generation failed");

    let mut shifted = Totp::new();
    shifted.with_epoch_time_offset(30);
    shifted.with_time(60);
    let shifted_code = shifted.generate(RFC_SECRET.to_string()).expect("generation failed");
    assert_eq!(expected, shifted_code);
}
