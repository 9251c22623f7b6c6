//! Time-based one-time passwords (TOTP, RFC 6238): HOTP with a counter
//! derived from wall-clock time and a step size.

use vstd::prelude::*;

use crate::hotp::{lemma_search_hit, lemma_search_miss};
use crate::{digest, generate, verify_delta, Algorithm, GenerationError};
use crate::{
    counter_bytes, dt_code, hotp_code, hotp_otp, keyed_digest, lemma_otp_chars_ascii, otp_chars,
    search_window, token_len,
};

verus! {

/// A TOTP engine. The counter is derived from a time source: the injected
/// `time` when it is nonzero (an injectable clock, kept for deterministic
/// testing), the system clock otherwise. An empty `digest` means no
/// override, as for the HOTP engine.
pub struct Totp {
    pub epoch_time_offset: u64,
    pub time: u64,
    pub step: u64,
    pub window: u64,
    pub digest: Vec<u8>,
}

/// The counter a time maps to: seconds elapsed since the epoch offset,
/// divided by the step. A time before the offset clamps to counter zero
/// rather than underflowing.
pub open spec fn time_counter(time: u64, offset: u64, step: u64) -> int {
    if time >= offset {
        ((time - offset) as int) / (step as int)
    } else {
        0
    }
}

/// The lower edge of the symmetric verification window, clamped at zero.
pub open spec fn window_lo(counter: int, window: u64) -> int {
    if counter >= window {
        counter - window
    } else {
        0
    }
}

/// The digest a TOTP call works on: the override when one was given, the
/// HMAC-SHA-1 of the derived counter otherwise.
pub open spec fn totp_effective_digest(t: Totp, key: Seq<char>, counter: u128) -> Seq<u8> {
    if t.digest@.len() == 0 {
        keyed_digest(Algorithm::Sha1, key, counter_bytes(counter))
    } else {
        t.digest@
    }
}

/// How a result of [`Totp::generate`] relates to the engine state and the
/// time the counter was derived from.
pub open spec fn totp_generate_matches(
    t: Totp,
    key: Seq<char>,
    now: u64,
    r: Result<String, GenerationError>,
) -> bool {
    let counter = time_counter(now, t.epoch_time_offset, t.step) as u128;
    let d = totp_effective_digest(t, key, counter);
    &&& r is Err <==> dt_code(d) == 0
    &&& r is Err ==> r->Err_0 == GenerationError::FailedToGenerateOTP
    &&& r is Ok ==> r->Ok_0@ == otp_chars(dt_code(d) as int, 6) && r->Ok_0@.len() == 6
}

/// What [`Totp::verify`] returns for a counter derived at `now`: a symmetric
/// search from `counter - window` (clamped at zero) through
/// `counter + window`, after the same length gate as HOTP verification; a
/// digest override again collapses the search to a single comparison.
pub open spec fn totp_verify_result(
    t: Totp,
    key: Seq<char>,
    now: u64,
    token: Seq<char>,
) -> Result<bool, GenerationError> {
    let counter = time_counter(now, t.epoch_time_offset, t.step);
    let lo = window_lo(counter, t.window);
    if token_len(token) != 6 {
        Ok(false)
    } else if t.digest@.len() == 0 {
        search_window(token, key, lo, 6, (counter + t.window - lo + 1) as nat, Algorithm::Sha1)
    } else if dt_code(t.digest@) == 0 {
        Err(GenerationError::FailedToGenerateOTP)
    } else if otp_chars(dt_code(t.digest@) as int, 6) == token {
        Ok(true)
    } else {
        Ok(false)
    }
}

/// Relies on `std::time::SystemTime`: the system clock read as whole seconds
/// since the Unix epoch. The reading depends on the machine's clock, so
/// nothing is assumed of the returned value; callers state what holds of
/// every reading.
#[verifier::external_body]
fn now_unix_seconds() -> u64 {
    match std::time::SystemTime::now().duration_since(std::time::UNIX_EPOCH) {
        Ok(elapsed) => elapsed.as_secs(),
        Err(_) => 0,
    }
}

impl Totp {
    /// A fresh engine: step of thirty seconds, window of zero, no epoch
    /// offset, the system clock as time source, and no digest override.
    pub fn new() -> (t: Totp)
        ensures
            t.epoch_time_offset == 0,
            t.time == 0,
            t.step == 30,
            t.window == 0,
            t.digest@ == Seq::<u8>::empty(),
    {
        Totp { epoch_time_offset: 0, time: 0, step: 30, window: 0, digest: Vec::new() }
    }

    /// Sets the epoch offset, in seconds, subtracted from the time before the
    /// counter is derived.
    pub fn with_epoch_time_offset(&mut self, offset: u64)
        ensures
            final(self).epoch_time_offset == offset,
            final(self).time == old(self).time,
            final(self).step == old(self).step,
            final(self).window == old(self).window,
            final(self).digest == old(self).digest,
    {
        self.epoch_time_offset = offset;
    }

    /// Sets the symmetric verification window, in steps.
    pub fn with_window(&mut self, window: u64)
        ensures
            final(self).window == window,
            final(self).epoch_time_offset == old(self).epoch_time_offset,
            final(self).time == old(self).time,
            final(self).step == old(self).step,
            final(self).digest == old(self).digest,
    {
        self.window = window;
    }

    /// Supplies a precomputed digest, used verbatim instead of invoking the
    /// digest provider.
    pub fn with_digest(&mut self, digest: Vec<u8>)
        ensures
            final(self).digest == digest,
            final(self).epoch_time_offset == old(self).epoch_time_offset,
            final(self).time == old(self).time,
            final(self).step == old(self).step,
            final(self).window == old(self).window,
    {
        self.digest = digest;
    }

    /// Injects a fixed time, in seconds since the Unix epoch, in place of the
    /// system clock; zero restores the clock. This keeps the engine
    /// deterministically testable.
    pub fn with_time(&mut self, time: u64)
        ensures
            final(self).time == time,
            final(self).epoch_time_offset == old(self).epoch_time_offset,
            final(self).step == old(self).step,
            final(self).window == old(self).window,
            final(self).digest == old(self).digest,
    {
        self.time = time;
    }

    /// Derives the counter for one concrete time: elapsed seconds past the
    /// epoch offset, divided by the step. A time before the offset clamps to
    /// zero. This is verified for every reading the clock may hand back.
    fn counter_at(&self, now: u64) -> (c: u64)
        requires
            self.step > 0,
        ensures
            c == time_counter(now, self.epoch_time_offset, self.step),
    {
        let elapsed = if now >= self.epoch_time_offset {
            now - self.epoch_time_offset
        } else {
            0
        };
        elapsed / self.step
    }

    /// Derives the counter from the time source.
    fn get_counter(&self) -> (c: u64)
        requires
            self.step > 0,
        ensures
            self.time != 0 ==> c == time_counter(self.time, self.epoch_time_offset, self.step),
    {
        let end = if self.time == 0 {
            now_unix_seconds()
        } else {
            self.time
        };
        self.counter_at(end)
    }

    /// Generates the six-digit time-based code for the current counter.
    pub fn generate(&self, key: String) -> (r: Result<String, GenerationError>)
        requires
            self.step > 0,
        ensures
            self.time != 0 ==> totp_generate_matches(*self, key@, self.time, r),
            r is Ok ==> r->Ok_0@.len() == 6,
            r is Err ==> r->Err_0 == GenerationError::FailedToGenerateOTP,
    {
        let counter = self.get_counter() as u128;
        if self.digest.len() == 0 {
            let hash = match digest(key, counter, Algorithm::Sha1) {
                Ok(h) => h,
                Err(e) => {
                    return Err(e);
                },
            };
            generate(6, &hash)
        } else {
            generate(6, &self.digest)
        }
    }

    /// Verifies a six-digit token against the symmetric window around the
    /// current counter, failing closed on a token of the wrong length before
    /// any digest is computed.
    pub fn verify(&self, token: String, key: String) -> (r: Result<bool, GenerationError>)
        requires
            self.step > 0,
            self.window + self.window <= u64::MAX,
        ensures
            self.time != 0 ==> r == totp_verify_result(*self, key@, self.time, token@),
            token_len(token@) != 6 ==> r == Ok::<bool, GenerationError>(false),
    {
        let counter = self.get_counter();
        let lo: u64 = if counter >= self.window {
            counter - self.window
        } else {
            0
        };
        if self.digest.len() == 0 {
            let span: u64 = (counter - lo) + self.window;
            verify_delta(&token, &key, lo as u128, 6, span, Algorithm::Sha1)
        } else {
            if token.as_str().len() != 6 {
                return Ok(false);
            }
            match generate(6, &self.digest) {
                Ok(candidate) => Ok(candidate == token),
                Err(e) => Err(e),
            }
        }
    }
}

/// Stability: two generations whose times fall in the same step window (they
/// derive the same counter) carry the same code, or fail alike.
pub proof fn lemma_totp_stable(
    t: Totp,
    key: Seq<char>,
    now1: u64,
    now2: u64,
    r1: Result<String, GenerationError>,
    r2: Result<String, GenerationError>,
)
    requires
        time_counter(now1, t.epoch_time_offset, t.step) == time_counter(
            now2,
            t.epoch_time_offset,
            t.step,
        ),
        totp_generate_matches(t, key, now1, r1),
        totp_generate_matches(t, key, now2, r2),
    ensures
        r1 is Ok <==> r2 is Ok,
        r1 is Ok ==> r1->Ok_0@ == r2->Ok_0@,
        r1 is Err ==> r1->Err_0 == r2->Err_0,
{
}

/// Symmetric window: a code generated one step in the past or in the future
/// passes verification with a window of at least one, provided generation
/// aborts at no counter of the searched window.
pub proof fn lemma_totp_window_pass(t: Totp, key: Seq<char>, now: u64, delta: int)
    requires
        t.digest@.len() == 0,
        t.step > 0,
        t.window >= 1,
        delta == 1 || delta == -1,
        time_counter(now, t.epoch_time_offset, t.step) + delta >= 0,
        forall|i: u128|
            window_lo(time_counter(now, t.epoch_time_offset, t.step), t.window) <= i
                <= time_counter(now, t.epoch_time_offset, t.step) + t.window
                ==> #[trigger] hotp_code(key, i, Algorithm::Sha1) != 0,
    ensures
        totp_verify_result(
            t,
            key,
            now,
            hotp_otp(
                key,
                (time_counter(now, t.epoch_time_offset, t.step) + delta) as u128,
                6,
                Algorithm::Sha1,
            ),
        ) == Ok::<bool, GenerationError>(true),
{
    let counter = time_counter(now, t.epoch_time_offset, t.step);
    let lo = window_lo(counter, t.window);
    let hit = counter + delta;
    lemma_otp_chars_ascii(hotp_code(key, hit as u128, Algorithm::Sha1) as int, 6);
    lemma_search_hit(
        hotp_otp(key, hit as u128, 6, Algorithm::Sha1),
        key,
        lo,
        6,
        (counter + t.window - lo + 1) as nat,
        Algorithm::Sha1,
        hit,
    );
}

/// Symmetric window: a code generated two steps away fails verification with
/// a window of one, whenever its code coincides with no candidate of the
/// searched window and generation aborts nowhere in it.
pub proof fn lemma_totp_window_fail(t: Totp, key: Seq<char>, now: u64, delta: int)
    requires
        t.digest@.len() == 0,
        t.step > 0,
        t.window == 1,
        delta == 2 || delta == -2,
        time_counter(now, t.epoch_time_offset, t.step) + delta >= 0,
        forall|i: u128|
            window_lo(time_counter(now, t.epoch_time_offset, t.step), t.window) <= i
                <= time_counter(now, t.epoch_time_offset, t.step) + t.window
                ==> #[trigger] hotp_code(key, i, Algorithm::Sha1) != 0 && hotp_otp(
                key,
                i,
                6,
                Algorithm::Sha1,
            ) != hotp_otp(
                key,
                (time_counter(now, t.epoch_time_offset, t.step) + delta) as u128,
                6,
                Algorithm::Sha1,
            ),
    ensures
        totp_verify_result(
            t,
            key,
            now,
            hotp_otp(
                key,
                (time_counter(now, t.epoch_time_offset, t.step) + delta) as u128,
                6,
                Algorithm::Sha1,
            ),
        ) == Ok::<bool, GenerationError>(false),
{
    let counter = time_counter(now, t.epoch_time_offset, t.step);
    let lo = window_lo(counter, t.window);
    let token = hotp_otp(key, (counter + delta) as u128, 6, Algorithm::Sha1);
    lemma_otp_chars_ascii(hotp_code(key, (counter + delta) as u128, Algorithm::Sha1) as int, 6);
    lemma_search_miss(token, key, lo, 6, (counter + t.window - lo + 1) as nat, Algorithm::Sha1);
}

} // verus!
