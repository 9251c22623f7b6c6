use lugnut::generate_secret;
use lugnut::hotp::Hotp;
use lugnut::{digest, Algorithm};

#[test]
fn test_generate_hotp_default() {
    let key = generate_secret();
    let hotp = Hotp::new(key, 100);
    let pad = match hotp.generate() {
        Ok(h) => h,
        _ => String::from(""),
    };
    assert_eq!(pad.len(), 6);
}

#[test]
fn test_generate_hotp_custom_length() {
    let key = generate_secret();
    let mut hotp = Hotp::new(key, 100);
    hotp.with_length(50);
    let pad = match hotp.generate() {
        Ok(h) => h,
        _ => String::from(""),
    };
    assert_eq!(pad.len(), 50);
}

#[test]
fn test_verify() {
    let key = String::from("SuperSecretKey");
    let counter = 100;
    let digits = 10;
    let defined_digest = if let Ok(d) = digest(key.clone(), counter, Algorithm::Sha1) {
        d
    } else {
        vec![]
    };
    let mut hotp = Hotp::new(key, 100);
    hotp.with_length(digits);
    hotp.with_digest(defined_digest.clone());
    let pad = match hotp.generate() {
        Ok(h) => h,
        _ => String::from(""),
    };
    let verified = if let Ok(v) = hotp.verify(pad) { v } else { false };
    assert_eq!(true, verified);
}

#[test]
fn test_builder_pattern_default() {
    let key = String::from("SuperSecretKey");
    let counter = 100;
    let hotp = Hotp::new(key, counter);
    let pad = match hotp.generate() {
        Ok(h) => h,
        _ => String::from(""),
    };
    assert_eq!(pad.len(), 6);
}

#[test]
fn test_builder_pattern_n_length() {
    let key = String::from("SuperSecretKey");
    let counter = 100;
    let mut hotp = Hotp::new(key, counter);
    hotp.with_length(10);
    let pad = match hotp.generate() {
        Ok(h) => h,
        _ => String::from(""),
    };
    assert_eq!(pad.len(), 10);
}

#[test]
fn test_builder_pattern_verify() {
    let key = String::from("SuperSecretKey");
    let counter = 100;
    let mut hotp = Hotp::new(key, counter);
    hotp.with_length(10);
    let pad = match hotp.generate() {
        Ok(h) => h,
        _ => String::from(""),
    };
    let result_correct = if let Ok(v) = hotp.verify(pad) { v } else { false };
    let result_fail = if let Ok(v) = hotp.verify(String::from("This should not verify")) {
        v
    } else {
        false
    };
    assert_eq!(true, result_correct);
    assert_eq!(false, result_fail);
}
