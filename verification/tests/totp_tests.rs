use lugnut::totp::Totp;

#[test]
fn assert_correct_otp() {
    let key = "my secret key".to_string();
    let totp = Totp::new();
    let code = totp.generate(key.clone()).expect("borked");
    let verified = totp.verify(code, key).expect("borked here too");
    assert!(verified);
}

#[test]
fn assert_incorrect_otp() {
    let key = "my secret key".to_string();
    let totp = Totp::new();
    let _code = totp.generate(key.clone()).expect("borked");
    let verified = totp
        .verify("wrong".to_string(), key)
        .expect("borked here too");
    assert!(!verified);
}
