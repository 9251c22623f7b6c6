//! Counter-based one-time passwords (HOTP, RFC 4226).

use vstd::prelude::*;

use crate::{digest, generate, verify_delta, Algorithm, GenerationError};
use crate::{
    counter_bytes, dt_code, hotp_code, hotp_otp, hotp_verify_spec, keyed_digest, otp_chars,
    search_window, token_len,
};
use crate::lemma_otp_chars_ascii;

verus! {

/// An HOTP engine: a shared secret, the caller-managed counter, and the
/// configuration of one generation or verification call. An empty `digest`
/// means no override: the digest is recomputed from key and counter with
/// HMAC-SHA-1.
pub struct Hotp {
    pub key: String,
    pub counter: u128,
    pub window: u64,
    pub digits: u32,
    pub digest: Vec<u8>,
}

/// The digest a call works on: the caller-supplied override when one was
/// given, the HMAC-SHA-1 of the counter otherwise.
pub open spec fn effective_digest(h: Hotp) -> Seq<u8> {
    if h.digest@.len() == 0 {
        keyed_digest(Algorithm::Sha1, h.key@, counter_bytes(h.counter))
    } else {
        h.digest@
    }
}

/// How a result of [`Hotp::generate`] relates to the engine state: generation
/// fails exactly when the truncated code is zero, and otherwise yields that
/// code rendered as `digits` decimal characters.
pub open spec fn generate_matches(h: Hotp, r: Result<String, GenerationError>) -> bool {
    &&& r is Err <==> dt_code(effective_digest(h)) == 0
    &&& r is Err ==> r->Err_0 == GenerationError::FailedToGenerateOTP
    &&& r is Ok ==> r->Ok_0@ == otp_chars(dt_code(effective_digest(h)) as int, h.digits as nat)
        && r->Ok_0@.len() == h.digits as int
}

/// What [`Hotp::verify`] returns. Without a digest override this is the
/// forward windowed search over counters `counter` through `counter + window`;
/// with an override every candidate reduces to the same code, so the search
/// collapses to a single comparison.
pub open spec fn verify_result(h: Hotp, token: Seq<char>) -> Result<bool, GenerationError> {
    if h.digest@.len() == 0 {
        hotp_verify_spec(token, h.key@, h.counter, h.digits as nat, h.window as nat, Algorithm::Sha1)
    } else if token_len(token) != h.digits {
        Ok(false)
    } else if dt_code(h.digest@) == 0 {
        Err(GenerationError::FailedToGenerateOTP)
    } else if otp_chars(dt_code(h.digest@) as int, h.digits as nat) == token {
        Ok(true)
    } else {
        Ok(false)
    }
}

impl Hotp {
    /// A fresh engine for the given key and counter: six digits, a
    /// verification window of ten counters, and no digest override.
    pub fn new(key: String, counter: u128) -> (h: Hotp)
        ensures
            h.key == key,
            h.counter == counter,
            h.window == 10,
            h.digits == 6,
            h.digest@ == Seq::<u8>::empty(),
    {
        Hotp { key, counter, window: 10, digits: 6, digest: Vec::new() }
    }

    /// Sets the number of digits of the generated code.
    pub fn with_length(&mut self, n: u32)
        ensures
            final(self).digits == n,
            final(self).key == old(self).key,
            final(self).counter == old(self).counter,
            final(self).window == old(self).window,
            final(self).digest == old(self).digest,
    {
        self.digits = n;
    }

    /// Supplies a precomputed digest, used verbatim instead of invoking the
    /// digest provider.
    pub fn with_digest(&mut self, digest: Vec<u8>)
        ensures
            final(self).digest == digest,
            final(self).key == old(self).key,
            final(self).counter == old(self).counter,
            final(self).window == old(self).window,
            final(self).digits == old(self).digits,
    {
        self.digest = digest;
    }

    /// Sets how many counters past `counter` verification searches.
    pub fn with_window(&mut self, window: u64)
        ensures
            final(self).window == window,
            final(self).key == old(self).key,
            final(self).counter == old(self).counter,
            final(self).digits == old(self).digits,
            final(self).digest == old(self).digest,
    {
        self.window = window;
    }

    /// Generates the one-time password for the engine's counter.
    pub fn generate(&self) -> (r: Result<String, GenerationError>)
        ensures
            generate_matches(*self, r),
    {
        if self.digest.len() == 0 {
            let hash = match digest(self.key.clone(), self.counter, Algorithm::Sha1) {
                Ok(h) => h,
                Err(e) => {
                    return Err(e);
                },
            };
            generate(self.digits, &hash)
        } else {
            generate(self.digits, &self.digest)
        }
    }

    /// Verifies a token against the window `counter ..= counter + window`,
    /// failing closed on a token of the wrong length before any digest is
    /// computed.
    pub fn verify(&self, token: String) -> (r: Result<bool, GenerationError>)
        requires
            self.digest@.len() == 0 ==> self.counter + self.window <= u128::MAX,
        ensures
            r == verify_result(*self, token@),
            token_len(token@) != self.digits ==> r == Ok::<bool, GenerationError>(false),
    {
        if self.digest.len() == 0 {
            verify_delta(&token, &self.key, self.counter, self.digits, self.window, Algorithm::Sha1)
        } else {
            if token.as_str().len() != self.digits as usize {
                return Ok(false);
            }
            match generate(self.digits, &self.digest) {
                Ok(candidate) => Ok(candidate == token),
                Err(e) => Err(e),
            }
        }
    }
}

/// Generation is deterministic: any two results obtained from the same engine
/// state carry the same code, or fail with the same error.
pub proof fn lemma_generate_deterministic(
    h: Hotp,
    r1: Result<String, GenerationError>,
    r2: Result<String, GenerationError>,
)
    requires
        generate_matches(h, r1),
        generate_matches(h, r2),
    ensures
        r1 is Ok <==> r2 is Ok,
        r1 is Ok ==> r1->Ok_0@ == r2->Ok_0@,
        r1 is Err ==> r1->Err_0 == r2->Err_0,
{
}

/// The search succeeds when some counter within it carries the token's code
/// and generation does not abort at any earlier counter.
pub(crate) proof fn lemma_search_hit(
    token: Seq<char>,
    key: Seq<char>,
    counter: int,
    digits: nat,
    count: nat,
    algorithm: Algorithm,
    hit: int,
)
    requires
        0 <= counter,
        counter + count - 1 <= u128::MAX,
        counter <= hit < counter + count,
        forall|i: u128| counter <= i <= hit ==> #[trigger] hotp_code(key, i, algorithm) != 0,
        hotp_otp(key, hit as u128, digits, algorithm) == token,
    ensures
        search_window(token, key, counter, digits, count, algorithm) == Ok::<
            bool,
            GenerationError,
        >(true),
    decreases count,
{
    if hotp_otp(key, counter as u128, digits, algorithm) == token {
    } else {
        lemma_search_hit(token, key, counter + 1, digits, (count - 1) as nat, algorithm, hit);
    }
}

/// The search comes up empty when no counter within it carries the token's
/// code and generation aborts nowhere.
pub(crate) proof fn lemma_search_miss(
    token: Seq<char>,
    key: Seq<char>,
    counter: int,
    digits: nat,
    count: nat,
    algorithm: Algorithm,
)
    requires
        0 <= counter,
        counter + count - 1 <= u128::MAX,
        forall|i: u128|
            counter <= i < counter + count ==> #[trigger] hotp_code(key, i, algorithm) != 0
                && hotp_otp(key, i, digits, algorithm) != token,
    ensures
        search_window(token, key, counter, digits, count, algorithm) == Ok::<
            bool,
            GenerationError,
        >(false),
    decreases count,
{
    if count > 0 {
        lemma_search_miss(token, key, counter + 1, digits, (count - 1) as nat, algorithm);
    }
}

/// Round trip: a code generated for `counter` passes windowed verification
/// starting at that same `counter`, for every window.
pub proof fn lemma_generate_verifies(
    key: Seq<char>,
    counter: u128,
    digits: nat,
    window: nat,
    algorithm: Algorithm,
)
    requires
        hotp_code(key, counter, algorithm) != 0,
        counter + window <= u128::MAX,
        digits <= usize::MAX,
    ensures
        hotp_verify_spec(
            hotp_otp(key, counter, digits, algorithm),
            key,
            counter,
            digits,
            window,
            algorithm,
        ) == Ok::<bool, GenerationError>(true),
{
    lemma_otp_chars_ascii(hotp_code(key, counter, algorithm) as int, digits);
    lemma_search_hit(
        hotp_otp(key, counter, digits, algorithm),
        key,
        counter as int,
        digits,
        (window + 1) as nat,
        algorithm,
        counter as int,
    );
}

/// A token generated at the far edge of the window, `counter + window`,
/// still passes verification, provided generation aborts at no counter of
/// the window.
pub proof fn lemma_window_boundary_pass(
    key: Seq<char>,
    counter: u128,
    digits: nat,
    window: nat,
    algorithm: Algorithm,
)
    requires
        counter + window <= u128::MAX,
        digits <= usize::MAX,
        forall|i: u128|
            counter <= i <= counter + window ==> #[trigger] hotp_code(key, i, algorithm) != 0,
    ensures
        hotp_verify_spec(
            hotp_otp(key, (counter + window) as u128, digits, algorithm),
            key,
            counter,
            digits,
            window,
            algorithm,
        ) == Ok::<bool, GenerationError>(true),
{
    let hit = counter + window;
    lemma_otp_chars_ascii(hotp_code(key, hit as u128, algorithm) as int, digits);
    lemma_search_hit(
        hotp_otp(key, hit as u128, digits, algorithm),
        key,
        counter as int,
        digits,
        (window + 1) as nat,
        algorithm,
        hit as int,
    );
}

/// A token generated one step past the window, at `counter + window + 1`,
/// fails verification whenever its code coincides with no candidate inside
/// the window and generation aborts nowhere in the window.
pub proof fn lemma_window_boundary_fail(
    key: Seq<char>,
    counter: u128,
    digits: nat,
    window: nat,
    algorithm: Algorithm,
)
    requires
        counter + window + 1 <= u128::MAX,
        digits <= usize::MAX,
        forall|i: u128|
            counter <= i <= counter + window ==> #[trigger] hotp_code(key, i, algorithm) != 0
                && hotp_otp(key, i, digits, algorithm) != hotp_otp(
                key,
                (counter + window + 1) as u128,
                digits,
                algorithm,
            ),
    ensures
        hotp_verify_spec(
            hotp_otp(key, (counter + window + 1) as u128, digits, algorithm),
            key,
            counter,
            digits,
            window,
            algorithm,
        ) == Ok::<bool, GenerationError>(false),
{
    let token = hotp_otp(key, (counter + window + 1) as u128, digits, algorithm);
    lemma_otp_chars_ascii(hotp_code(key, (counter + window + 1) as u128, algorithm) as int, digits);
    lemma_search_miss(token, key, counter as int, digits, (window + 1) as nat, algorithm);
}

} // verus!
