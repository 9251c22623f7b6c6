use lugnut::{
    generate_secret_ascii, generate_secret_without_symbols, generate_sized_secret, SYMBOL_SET,
};

#[test]
fn test_generate_secret_ascii_no_symbols() {
    let secret = generate_secret_ascii(2000, false);
    assert_eq!(secret.len(), 2000);
}

#[test]
fn test_generate_secret_ascii_symbols() {
    let secret = generate_secret_ascii(2000, true);
    assert_eq!(secret.len(), 2000);
    assert_eq!(secret.contains("!"), true);
}

#[test]
fn test_generate_secret_non_default_length() {
    assert_eq!(generate_sized_secret(2000).len(), 2000);
}

#[test]
fn test_generate_secret_non_default_symbols() {
    assert_eq!(
        generate_secret_without_symbols()
            .chars()
            .any(|c| match SYMBOL_SET.binary_search(&c) {
                Ok(_) => true,
                _ => false,
            }),
        false
    )
}
