//! One-time password engine: HOTP (RFC 4226) and TOTP (RFC 6238).
//!
//! A code is derived from a shared secret and a moving counter: the counter is
//! serialized as eight big-endian bytes, a keyed hash (HMAC) of those bytes is
//! computed with the secret as key, and the digest is dynamically truncated to
//! a 31-bit integer that is rendered as a fixed-width decimal string.

use vstd::prelude::*;

use hmac::Mac;

pub mod hotp;
pub mod totp;
pub mod webauthn;

verus! {

/// Errors surfaced while generating a one-time password.
#[derive(Debug, Clone, Copy, PartialEq, Eq, Structural)]
pub enum GenerationError {
    /// The keyed-hash construction rejected the secret.
    InvalidKeyLength,
    /// Dynamic truncation produced the (astronomically rare) all-zero code.
    FailedToGenerateOTP,
}

/// The keyed-hash primitive used by the digest provider.
#[derive(Debug, Clone, Copy)]
pub enum Algorithm {
    Sha1,
    Sha256,
    Sha512,
}

/// The HMAC-SHA-1 tag for the given key (as a character string) and message:
/// a fixed but unspecified function of its arguments, computed by the `hmac`
/// and `sha1` crates.
pub uninterp spec fn hmac_sha1_of(key: Seq<char>, message: Seq<u8>) -> Seq<u8>;

/// The HMAC-SHA-256 tag, analogous to [`hmac_sha1_of`].
pub uninterp spec fn hmac_sha256_of(key: Seq<char>, message: Seq<u8>) -> Seq<u8>;

/// The HMAC-SHA-512 tag, analogous to [`hmac_sha1_of`].
pub uninterp spec fn hmac_sha512_of(key: Seq<char>, message: Seq<u8>) -> Seq<u8>;

/// The tag produced by the selected keyed-hash primitive.
pub open spec fn keyed_digest(algorithm: Algorithm, key: Seq<char>, message: Seq<u8>) -> Seq<u8> {
    match algorithm {
        Algorithm::Sha1 => hmac_sha1_of(key, message),
        Algorithm::Sha256 => hmac_sha256_of(key, message),
        Algorithm::Sha512 => hmac_sha512_of(key, message),
    }
}

/// The tag length, in bytes, of each keyed-hash primitive.
pub open spec fn digest_len(algorithm: Algorithm) -> int {
    match algorithm {
        Algorithm::Sha1 => 20,
        Algorithm::Sha256 => 32,
        Algorithm::Sha512 => 64,
    }
}

/// Relies on `hmac::Hmac<sha1::Sha1>`: `new_from_slice` accepts a key of any
/// length (so it never fails), and `update` + `finalize` produce the 20-byte
/// HMAC-SHA-1 tag, a deterministic function of key and message alone.
#[verifier::external_body]
fn hmac_sha1_digest(key: &str, message: &Vec<u8>) -> (tag: Vec<u8>)
    ensures
        tag@ == hmac_sha1_of(key@, message@),
        tag@.len() == 20,
{
    let mut mac = <hmac::Hmac<sha1::Sha1> as Mac>::new_from_slice(key.as_bytes())
        .expect("HMAC accepts a key of any length");
    mac.update(message.as_slice());
    mac.finalize().into_bytes().to_vec()
}

/// Relies on `hmac::Hmac<sha2::Sha256>`, as [`hmac_sha1_digest`] does on
/// `Hmac<Sha1>`; the tag is 32 bytes.
#[verifier::external_body]
fn hmac_sha256_digest(key: &str, message: &Vec<u8>) -> (tag: Vec<u8>)
    ensures
        tag@ == hmac_sha256_of(key@, message@),
        tag@.len() == 32,
{
    let mut mac = <hmac::Hmac<sha2::Sha256> as Mac>::new_from_slice(key.as_bytes())
        .expect("HMAC accepts a key of any length");
    mac.update(message.as_slice());
    mac.finalize().into_bytes().to_vec()
}

/// Relies on `hmac::Hmac<sha2::Sha512>`, as [`hmac_sha1_digest`] does on
/// `Hmac<Sha1>`; the tag is 64 bytes.
#[verifier::external_body]
fn hmac_sha512_digest(key: &str, message: &Vec<u8>) -> (tag: Vec<u8>)
    ensures
        tag@ == hmac_sha512_of(key@, message@),
        tag@.len() == 64,
{
    let mut mac = <hmac::Hmac<sha2::Sha512> as Mac>::new_from_slice(key.as_bytes())
        .expect("HMAC accepts a key of any length");
    mac.update(message.as_slice());
    mac.finalize().into_bytes().to_vec()
}

/// The eight-byte big-endian serialization of the low 64 bits of a counter.
pub open spec fn counter_bytes(counter: u128) -> Seq<u8> {
    seq![
        ((counter >> 56) & 0xff) as u8,
        ((counter >> 48) & 0xff) as u8,
        ((counter >> 40) & 0xff) as u8,
        ((counter >> 32) & 0xff) as u8,
        ((counter >> 24) & 0xff) as u8,
        ((counter >> 16) & 0xff) as u8,
        ((counter >> 8) & 0xff) as u8,
        (counter & 0xff) as u8,
    ]
}

/// Serializes the low 64 bits of `counter` big-endian; counters beyond 64 bits
/// wrap rather than fail.
fn counter_to_bytes(counter: u128) -> (buf: Vec<u8>)
    ensures
        buf@ == counter_bytes(counter),
{
    proof {
        assert(((counter >> 56) & 0xff) < 256 && ((counter >> 48) & 0xff) < 256
            && ((counter >> 40) & 0xff) < 256 && ((counter >> 32) & 0xff) < 256
            && ((counter >> 24) & 0xff) < 256 && ((counter >> 16) & 0xff) < 256
            && ((counter >> 8) & 0xff) < 256 && (counter & 0xff) < 256) by (bit_vector);
    }
    let buf: Vec<u8> = vec![
        ((counter >> 56) & 0xff) as u8,
        ((counter >> 48) & 0xff) as u8,
        ((counter >> 40) & 0xff) as u8,
        ((counter >> 32) & 0xff) as u8,
        ((counter >> 24) & 0xff) as u8,
        ((counter >> 16) & 0xff) as u8,
        ((counter >> 8) & 0xff) as u8,
        (counter & 0xff) as u8,
    ];
    proof {
        assert(buf@ =~= counter_bytes(counter));
    }
    buf
}

/// Applies the selected keyed-hash function to the eight-byte big-endian
/// serialization of `counter`, with `secret` as key.
///
/// The HMAC construction accepts keys of any length, so the digest always
/// succeeds; the error branch is kept for callers that treat key rejection
/// as a possibility.
pub fn digest(secret: String, counter: u128, algorithm: Algorithm) -> (r: Result<
    Vec<u8>,
    GenerationError,
>)
    ensures
        r is Ok,
        r->Ok_0@ == keyed_digest(algorithm, secret@, counter_bytes(counter)),
        r->Ok_0@.len() == digest_len(algorithm),
{
    let buf = counter_to_bytes(counter);
    let tag = match algorithm {
        Algorithm::Sha1 => hmac_sha1_digest(secret.as_str(), &buf),
        Algorithm::Sha256 => hmac_sha256_digest(secret.as_str(), &buf),
        Algorithm::Sha512 => hmac_sha512_digest(secret.as_str(), &buf),
    };
    Ok(tag)
}

/// The byte of a digest at index `i`, with bytes past the end reading as zero
/// (a caller-supplied digest override may be shorter than a real digest).
pub open spec fn byte_at(digest: Seq<u8>, i: int) -> u8 {
    if 0 <= i < digest.len() {
        digest[i]
    } else {
        0
    }
}

/// The dynamic-truncation offset: the low four bits of the digest's last byte.
pub open spec fn dt_offset(digest: Seq<u8>) -> int {
    if digest.len() == 0 {
        0
    } else {
        (digest[digest.len() - 1] & 0x0f) as int
    }
}

/// The 31-bit integer extracted from a digest by dynamic truncation
/// (RFC 4226, section 5.3): four bytes read at the offset, with the top bit
/// of the first masked off.
pub open spec fn dt_code(digest: Seq<u8>) -> u32 {
    (((byte_at(digest, dt_offset(digest)) & 0x7f) as u32) << 24u32) | ((byte_at(
        digest,
        dt_offset(digest) + 1,
    ) as u32) << 16u32) | ((byte_at(digest, dt_offset(digest) + 2) as u32) << 8u32) | (byte_at(
        digest,
        dt_offset(digest) + 3,
    ) as u32)
}

/// Ten to the power `n`.
pub open spec fn pow10(n: nat) -> int
    decreases n,
{
    if n == 0 {
        1
    } else {
        10 * pow10((n - 1) as nat)
    }
}

pub proof fn lemma_pow10_pos(n: nat)
    ensures
        pow10(n) >= 1,
    decreases n,
{
    if n > 0 {
        lemma_pow10_pos((n - 1) as nat);
    }
}

/// The decimal digit `d` (between 0 and 9) as a character.
pub open spec fn digit_char(d: int) -> char {
    if d == 0 {
        '0'
    } else if d == 1 {
        '1'
    } else if d == 2 {
        '2'
    } else if d == 3 {
        '3'
    } else if d == 4 {
        '4'
    } else if d == 5 {
        '5'
    } else if d == 6 {
        '6'
    } else if d == 7 {
        '7'
    } else if d == 8 {
        '8'
    } else {
        '9'
    }
}

/// `code` rendered as exactly `digits` decimal characters: the low-order
/// digits of `code`, left-padded with zeros. Equal to `code mod 10^digits`,
/// zero-padded to the requested width.
pub open spec fn otp_chars(code: int, digits: nat) -> Seq<char> {
    Seq::new(digits, |i: int| digit_char((code / pow10((digits - 1 - i) as nat)) % 10))
}

fn digit_to_char(d: u8) -> (c: char)
    requires
        d < 10,
    ensures
        c == digit_char(d as int),
{
    match d {
        0 => '0',
        1 => '1',
        2 => '2',
        3 => '3',
        4 => '4',
        5 => '5',
        6 => '6',
        7 => '7',
        8 => '8',
        _ => '9',
    }
}

/// Relies on `String::push`: appends exactly the one given character.
#[verifier::external_body]
fn push_char(s: &mut String, c: char)
    ensures
        final(s)@ == old(s)@.push(c),
{
    s.push(c);
}

/// Renders a 31-bit code as a zero-padded decimal string of width `digits`.
fn render_code(code: u32, digits: u32) -> (s: String)
    ensures
        s@ == otp_chars(code as int, digits as nat),
        s@.len() == digits as int,
{
    let mut digs: Vec<u8> = Vec::new();
    let mut value: u32 = code;
    let mut k: u32 = 0;
    while k < digits
        invariant
            k <= digits,
            digs@.len() == k as int,
            value as int == (code as int) / pow10(k as nat),
            forall|j: int| 0 <= j < k ==> digs@[j] == ((code as int) / pow10(j as nat)) % 10,
        decreases digits - k,
    {
        proof {
            lemma_pow10_pos(k as nat);
            vstd::arithmetic::div_mod::lemma_div_denominator(code as int, pow10(k as nat), 10);
        }
        digs.push((value % 10) as u8);
        value = value / 10;
        k = k + 1;
    }
    let mut s = String::new();
    let mut j: u32 = digits;
    while j > 0
        invariant
            j <= digits,
            digs@.len() == digits as int,
            forall|t: int| 0 <= t < digits ==> digs@[t] == ((code as int) / pow10(t as nat)) % 10,
            s@.len() == (digits - j) as int,
            forall|i: int|
                0 <= i < (digits - j) ==> s@[i] == digit_char(
                    ((code as int) / pow10((digits - 1 - i) as nat)) % 10,
                ),
        decreases j,
    {
        j = j - 1;
        let d = digs[j as usize];
        proof {
            lemma_pow10_pos(j as nat);
            vstd::arithmetic::div_mod::lemma_mod_bound(
                (code as int) / pow10(j as nat),
                10,
            );
        }
        push_char(&mut s, digit_to_char(d));
    }
    proof {
        assert(s@ =~= otp_chars(code as int, digits as nat));
    }
    s
}

/// Reduces a digest to a one-time password of exactly `digits` decimal
/// characters by dynamic truncation. The all-zero truncated code is rejected
/// as a generation failure rather than rendered.
pub fn generate(digits: u32, digest_hash: &Vec<u8>) -> (r: Result<String, GenerationError>)
    ensures
        r is Err <==> dt_code(digest_hash@) == 0,
        r is Err ==> r->Err_0 == GenerationError::FailedToGenerateOTP,
        r is Ok ==> r->Ok_0@ == otp_chars(dt_code(digest_hash@) as int, digits as nat),
        r is Ok ==> r->Ok_0@.len() == digits as int,
{
    let len = digest_hash.len();
    let offset: usize = if len == 0 {
        0
    } else {
        (digest_hash[len - 1] & 0x0f) as usize
    };
    let b0: u8 = if offset < len {
        digest_hash[offset]
    } else {
        0
    };
    let b1: u8 = if offset + 1 < len {
        digest_hash[offset + 1]
    } else {
        0
    };
    let b2: u8 = if offset + 2 < len {
        digest_hash[offset + 2]
    } else {
        0
    };
    let b3: u8 = if offset + 3 < len {
        digest_hash[offset + 3]
    } else {
        0
    };
    let code: u32 = (((b0 & 0x7f) as u32) << 24u32) | ((b1 as u32) << 16u32) | ((b2 as u32)
        << 8u32) | (b3 as u32);
    if code == 0 {
        Err(GenerationError::FailedToGenerateOTP)
    } else {
        Ok(render_code(code, digits))
    }
}

/// The alphanumeric character set secrets are drawn from.
pub const CHAR_SET: [char; 62] = [
    '1', '2', '3', '4', '5', '6', '7', '8', '9', '0', 'A', 'B', 'C', 'D', 'E', 'F', 'G', 'H', 'I',
    'J', 'K', 'L', 'M', 'N', 'O', 'P', 'Q', 'R', 'S', 'T', 'U', 'V', 'W', 'X', 'Y', 'Z', 'a', 'b',
    'c', 'd', 'e', 'f', 'g', 'h', 'i', 'j', 'k', 'l', 'm', 'n', 'o', 'p', 'q', 'r', 's', 't', 'u',
    'v', 'w', 'x', 'y', 'z',
];

/// The symbol character set mixed in when a secret is generated with symbols.
pub const SYMBOL_SET: [char; 22] = [
    '!', '@', '#', '$', '%', '^', '&', '*', '(', ')', '<', '>', '?', '/', '[', ']', '{', '}', ',',
    '.', ':', ';',
];

/// Relies on `rand::random`: a value drawn from the thread-local generator.
/// Nothing is assumed of the value; the callers' contracts hold of every
/// outcome.
pub assume_specification<T>[ rand::random::<T> ]() -> (r: T)
    where
        rand::distributions::Standard: rand::distributions::Distribution<T>,
;

/// The character one random byte maps to: an interpolated index into the
/// alphanumeric table, or — when symbols are enabled and the byte is odd —
/// into the symbol table.
pub open spec fn secret_char(v: u8, symbols: bool) -> char {
    if symbols && v % 2 == 1 {
        SYMBOL_SET@[(v * 21) / 255]
    } else {
        CHAR_SET@[(v * 61) / 255]
    }
}

fn secret_char_of(v: u8, symbols: bool) -> (c: char)
    ensures
        c == secret_char(v, symbols),
        CHAR_SET@.contains(c) || SYMBOL_SET@.contains(c),
        !symbols ==> CHAR_SET@.contains(c),
{
    if symbols && v % 2 == 1 {
        let idx: usize = ((v as usize) * 21) / 255;
        assert(SYMBOL_SET@.contains(SYMBOL_SET@[idx as int]));
        SYMBOL_SET[idx]
    } else {
        let idx: usize = ((v as usize) * 61) / 255;
        assert(CHAR_SET@.contains(CHAR_SET@[idx as int]));
        CHAR_SET[idx]
    }
}

/// Builds a random secret of `length` characters, drawn from the
/// alphanumeric table and — when `symbols` is set — the symbol table.
pub fn generate_secret_ascii(length: u32, symbols: bool) -> (s: String)
    ensures
        s@.len() == length as int,
        forall|i: int|
            0 <= i < length ==> CHAR_SET@.contains(#[trigger] s@[i]) || SYMBOL_SET@.contains(s@[i]),
        !symbols ==> forall|i: int| 0 <= i < length ==> CHAR_SET@.contains(#[trigger] s@[i]),
{
    let mut s = String::new();
    let mut i: u32 = 0;
    while i < length
        invariant
            i <= length,
            s@.len() == i as int,
            forall|j: int|
                0 <= j < i ==> CHAR_SET@.contains(#[trigger] s@[j]) || SYMBOL_SET@.contains(s@[j]),
            !symbols ==> forall|j: int| 0 <= j < i ==> CHAR_SET@.contains(#[trigger] s@[j]),
        decreases length - i,
    {
        let v: u8 = rand::random::<u8>();
        let c = secret_char_of(v, symbols);
        push_char(&mut s, c);
        i = i + 1;
    }
    s
}

/// Builds a secret from optional length and symbol settings, defaulting to
/// thirty-two characters with symbols included.
pub fn generate_secret_default(length: Option<u32>, symbols: Option<bool>) -> (s: String)
    ensures
        s@.len() == (match length {
            Some(l) => l as int,
            None => 32,
        }),
        forall|i: int|
            0 <= i < s@.len() ==> CHAR_SET@.contains(#[trigger] s@[i]) || SYMBOL_SET@.contains(
                s@[i],
            ),
        symbols == Some(false) ==> forall|i: int|
            0 <= i < s@.len() ==> CHAR_SET@.contains(#[trigger] s@[i]),
{
    let defined_symbols = match symbols {
        Some(b) => b,
        None => true,
    };
    let defined_length = match length {
        Some(l) => l,
        None => 32,
    };
    generate_secret_ascii(defined_length, defined_symbols)
}

/// A thirty-two-character random secret with symbols included.
pub fn generate_secret() -> (s: String)
    ensures
        s@.len() == 32,
        forall|i: int|
            0 <= i < s@.len() ==> CHAR_SET@.contains(#[trigger] s@[i]) || SYMBOL_SET@.contains(
                s@[i],
            ),
{
    generate_secret_default(None, None)
}

/// A random secret of the given length with symbols included.
pub fn generate_sized_secret(length: u32) -> (s: String)
    ensures
        s@.len() == length as int,
        forall|i: int|
            0 <= i < s@.len() ==> CHAR_SET@.contains(#[trigger] s@[i]) || SYMBOL_SET@.contains(
                s@[i],
            ),
{
    generate_secret_default(Some(length), None)
}

/// A thirty-two-character random secret drawn from the alphanumeric table
/// alone.
pub fn generate_secret_without_symbols() -> (s: String)
    ensures
        s@.len() == 32,
        forall|i: int| 0 <= i < s@.len() ==> CHAR_SET@.contains(#[trigger] s@[i]),
{
    generate_secret_default(None, Some(false))
}

/// A random secret of the given length drawn from the alphanumeric table
/// alone.
pub fn generate_sized_secret_without_symbols(length: u32) -> (s: String)
    ensures
        s@.len() == length as int,
        forall|i: int| 0 <= i < s@.len() ==> CHAR_SET@.contains(#[trigger] s@[i]),
{
    generate_secret_default(Some(length), Some(false))
}

/// Reserved interface point: building otpauth URLs is outside the scope of
/// this engine.
pub fn get_otp_auth_url() {
}

/// The truncated 31-bit code for (key, counter) under the given algorithm.
pub open spec fn hotp_code(key: Seq<char>, counter: u128, algorithm: Algorithm) -> u32 {
    dt_code(keyed_digest(algorithm, key, counter_bytes(counter)))
}

/// The one-time password for (key, counter): the truncated code rendered as
/// `digits` decimal characters.
pub open spec fn hotp_otp(key: Seq<char>, counter: u128, digits: nat, algorithm: Algorithm) -> Seq<
    char,
> {
    otp_chars(hotp_code(key, counter, algorithm) as int, digits)
}

/// The length of a token as `str::len` reports it: the byte length of its
/// UTF-8 encoding. For the decimal strings this library emits, this equals
/// the character count.
pub open spec fn token_len(token: Seq<char>) -> int {
    (vstd::utf8::encode_utf8(token).len() as usize) as int
}

/// The one-time passwords are decimal strings, hence ASCII, so their UTF-8
/// length equals their character count.
pub proof fn lemma_otp_chars_ascii(code: int, digits: nat)
    requires
        digits <= usize::MAX,
    ensures
        vstd::utf8::is_ascii_chars(otp_chars(code, digits)),
        token_len(otp_chars(code, digits)) == digits,
{
    assert forall|i: int| 0 <= i < digits implies '\0' <= #[trigger] otp_chars(code, digits)[i]
        <= '\u{7f}' by {
        let d = (code / pow10((digits - 1 - i) as nat)) % 10;
        assert(otp_chars(code, digits)[i] == digit_char(d));
    }
    vstd::utf8::is_ascii_chars_encode_utf8(otp_chars(code, digits));
    assert(vstd::utf8::encode_utf8(otp_chars(code, digits)).len() == digits);
}

/// The sequential verification search over `count` counters starting at
/// `counter`: an error from generation ends the search with that error, a
/// match ends it with success, and an exhausted window yields `false`.
pub open spec fn search_window(
    token: Seq<char>,
    key: Seq<char>,
    counter: int,
    digits: nat,
    count: nat,
    algorithm: Algorithm,
) -> Result<bool, GenerationError>
    decreases count,
{
    if count == 0 {
        Ok(false)
    } else if hotp_code(key, counter as u128, algorithm) == 0 {
        Err(GenerationError::FailedToGenerateOTP)
    } else if hotp_otp(key, counter as u128, digits, algorithm) == token {
        Ok(true)
    } else {
        search_window(token, key, counter + 1, digits, (count - 1) as nat, algorithm)
    }
}

/// What windowed verification returns: `false` at once for a token of the
/// wrong length, otherwise the result of searching counters `counter` through
/// `counter + window` inclusive.
pub open spec fn hotp_verify_spec(
    token: Seq<char>,
    key: Seq<char>,
    counter: u128,
    digits: nat,
    window: nat,
    algorithm: Algorithm,
) -> Result<bool, GenerationError> {
    if token_len(token) != digits {
        Ok(false)
    } else {
        search_window(token, key, counter as int, digits, window + 1, algorithm)
    }
}

/// Verifies `token` against the counters `counter` through `counter + window`
/// inclusive, regenerating the candidate code for each counter in turn.
///
/// A token whose length differs from `digits` is rejected immediately, before
/// any digest is computed.
pub fn verify_delta(
    token: &String,
    key: &String,
    counter: u128,
    digits: u32,
    window: u64,
    algorithm: Algorithm,
) -> (r: Result<bool, GenerationError>)
    requires
        counter + window <= u128::MAX,
    ensures
        r == hotp_verify_spec(token@, key@, counter, digits as nat, window as nat, algorithm),
        token_len(token@) != digits ==> r == Ok::<bool, GenerationError>(false),
{
    if token.as_str().len() != digits as usize {
        return Ok(false);
    }
    let mut step: u128 = 0;
    while step <= window as u128
        invariant
            0 <= step <= window + 1,
            counter + window <= u128::MAX,
            token_len(token@) == digits as int,
            search_window(
                token@,
                key@,
                counter as int,
                digits as nat,
                (window + 1) as nat,
                algorithm,
            ) == search_window(
                token@,
                key@,
                counter as int + step as int,
                digits as nat,
                (window + 1 - step) as nat,
                algorithm,
            ),
        decreases window as int + 1 - step as int,
    {
        let hash = match digest(key.clone(), counter + step, algorithm) {
            Ok(h) => h,
            Err(e) => {
                return Err(e);
            },
        };
        match generate(digits, &hash) {
            Ok(candidate) => {
                if candidate == *token {
                    return Ok(true);
                }
            },
            Err(e) => {
                return Err(e);
            },
        }
        step = step + 1;
    }
    Ok(false)
}

} // verus!
