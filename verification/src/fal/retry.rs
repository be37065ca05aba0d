//! Retry counts and the exponential backoff between retries.
use vstd::prelude::*;
use std::time::Duration;
use crate::text::{parse_u64, parse_unsigned, str_chars};

verus! {

/// Default number of retry attempts for rate-limited requests.
pub const DEFAULT_MAX_RETRIES: u32 = 5;

/// Default number of retry attempts for transient network errors.
pub const DEFAULT_NETWORK_RETRIES: u32 = 3;

/// Nanoseconds in the longest `Duration` (`Duration::MAX`).
pub const DURATION_MAX_NANOS: u128 = 18_446_744_073_709_551_615_999_999_999;

/// The total number of nanoseconds of a duration, as `Duration::as_nanos`
/// returns it.
pub uninterp spec fn duration_nanos(d: Duration) -> int;

/// `Duration::as_nanos`: the whole nanoseconds of the duration, which are
/// at most those of `Duration::MAX`.
#[verifier::external_body]
pub(crate) fn nanos_of(d: Duration) -> (n: u128)
    ensures
        n == duration_nanos(d),
        n <= DURATION_MAX_NANOS,
{
    d.as_nanos()
}

/// `Duration::new`: the duration of `secs` seconds and `nanos` nanoseconds
/// (below one second, so that nothing carries).
#[verifier::external_body]
fn duration_new(secs: u64, nanos: u32) -> (d: Duration)
    requires
        nanos < 1_000_000_000,
    ensures
        duration_nanos(d) == secs * 1_000_000_000 + nanos,
{
    Duration::new(secs, nanos)
}

pub(crate) fn duration_from_nanos(n: u128) -> (d: Duration)
    requires
        n <= DURATION_MAX_NANOS,
    ensures
        duration_nanos(d) == n,
{
    let secs = n / 1_000_000_000;
    let nanos = n % 1_000_000_000;
    assert(secs <= u64::MAX) by (nonlinear_arith)
        requires
            n <= DURATION_MAX_NANOS,
            secs == n / 1_000_000_000,
    ;
    duration_new(secs as u64, nanos as u32)
}

/// Base delay for exponential backoff (1 second).
pub fn default_backoff_base() -> (d: Duration)
    ensures
        duration_nanos(d) == 1_000_000_000,
{
    duration_new(1, 0)
}

/// Maximum delay cap for exponential backoff (60 seconds).
pub fn default_backoff_max() -> (d: Duration)
    ensures
        duration_nanos(d) == 60_000_000_000,
{
    duration_new(60, 0)
}

/// `2u32.saturating_pow(attempt)`.
pub open spec fn doubling_factor(attempt: nat) -> int
    decreases attempt,
{
    if attempt == 0 {
        1
    } else {
        let f = 2 * doubling_factor((attempt - 1) as nat);
        if f > u32::MAX {
            u32::MAX as int
        } else {
            f
        }
    }
}

pub open spec fn min_int(a: int, b: int) -> int {
    if a <= b {
        a
    } else {
        b
    }
}

/// The backoff delay in nanoseconds before retry number `attempt`: the base
/// doubled `attempt` times (saturating), plus half the base's milliseconds
/// (at most 500 ms) as jitter, capped at `max`.
pub open spec fn backoff_nanos(attempt: nat, base: int, max: int) -> int {
    let exponential = min_int(base * doubling_factor(attempt), DURATION_MAX_NANOS as int);
    let base_ms = (base / 1_000_000) % 0x1_0000_0000_0000_0000;
    let jitter = (min_int(base_ms, 1000) / 2) * 1_000_000;
    min_int(min_int(exponential + jitter, DURATION_MAX_NANOS as int), max)
}

proof fn lemma_doubling_factor_bounds(attempt: nat)
    ensures
        1 <= doubling_factor(attempt) <= u32::MAX,
    decreases attempt,
{
    if attempt > 0 {
        lemma_doubling_factor_bounds((attempt - 1) as nat);
    }
}

/// `backoff_nanos` on whole nanoseconds.
pub fn backoff_delay_nanos(attempt: u32, base: u128, max: u128) -> (r: u128)
    requires
        base <= DURATION_MAX_NANOS,
    ensures
        r == backoff_nanos(attempt as nat, base as int, max as int),
{
    let mut factor: u128 = 1;
    let mut k: u32 = 0;
    while k < attempt
        invariant
            k <= attempt,
            factor == doubling_factor(k as nat),
        decreases attempt - k,
    {
        proof {
            lemma_doubling_factor_bounds(k as nat);
        }
        let doubled = factor * 2;
        factor = if doubled > 0xFFFF_FFFF { 0xFFFF_FFFF } else { doubled };
        k = k + 1;
    }
    proof {
        lemma_doubling_factor_bounds(attempt as nat);
    }
    assert(base * factor <= DURATION_MAX_NANOS * 0xFFFF_FFFF) by (nonlinear_arith)
        requires
            base <= DURATION_MAX_NANOS,
            factor <= 0xFFFF_FFFF,
    ;
    let product = base * factor;
    let exponential = if product > DURATION_MAX_NANOS { DURATION_MAX_NANOS } else { product };
    let base_ms = (base / 1_000_000) % 0x1_0000_0000_0000_0000;
    let capped_ms = if base_ms < 1000 { base_ms } else { 1000 };
    let jitter = (capped_ms / 2) * 1_000_000;
    let sum = exponential + jitter;
    let total = if sum > DURATION_MAX_NANOS { DURATION_MAX_NANOS } else { sum };
    if total <= max {
        total
    } else {
        max
    }
}

/// Exponential backoff delay with jitter before retry number `attempt`:
/// `min(base * 2^attempt + jitter, max)`, where the jitter is half the base
/// (at most half a second).
pub fn calculate_backoff(attempt: u32, base: Duration, max: Duration) -> (d: Duration)
    ensures
        duration_nanos(d) == backoff_nanos(attempt as nat, duration_nanos(base), duration_nanos(max)),
{
    let b = nanos_of(base);
    let m = nanos_of(max);
    let r = backoff_delay_nanos(attempt, b, m);
    duration_from_nanos(r)
}

/// The delay never exceeds the cap, and it never shrinks from one attempt
/// to the next.
pub proof fn backoff_is_capped_and_never_shrinks(attempt: nat, base: int, max: int)
    requires
        0 <= base <= DURATION_MAX_NANOS,
    ensures
        backoff_nanos(attempt, base, max) <= max,
        backoff_nanos(attempt, base, max) <= backoff_nanos(attempt + 1, base, max),
{
    lemma_doubling_factor_bounds(attempt);
    lemma_doubling_factor_bounds(attempt + 1);
    assert(doubling_factor(attempt) <= doubling_factor(attempt + 1));
    assert(base * doubling_factor(attempt) <= base * doubling_factor(attempt + 1)) by (nonlinear_arith)
        requires
            0 <= base,
            doubling_factor(attempt) <= doubling_factor(attempt + 1),
    ;
}

/// Below the cap, retry number `attempt` waits at least the base doubled
/// `attempt` times (while `2^attempt` fits in the `u32` factor).
pub proof fn backoff_doubles_per_attempt(attempt: nat, base: int, max: int)
    requires
        0 <= base <= DURATION_MAX_NANOS,
        attempt < 32,
    ensures
        backoff_nanos(attempt, base, max) == max || backoff_nanos(attempt, base, max) >= min_int(
            base * vstd::arithmetic::power2::pow2(attempt),
            DURATION_MAX_NANOS as int,
        ),
{
    lemma_doubling_is_power(attempt);
}

proof fn lemma_doubling_is_power(attempt: nat)
    requires
        attempt < 32,
    ensures
        doubling_factor(attempt) == vstd::arithmetic::power2::pow2(attempt),
    decreases attempt,
{
    vstd::arithmetic::power2::lemma2_to64();
    if attempt > 0 {
        lemma_doubling_is_power((attempt - 1) as nat);
        vstd::arithmetic::power2::lemma_pow2_unfold(attempt);
        vstd::arithmetic::power2::lemma_pow2_strictly_increases(attempt, 32);
    }
}

/// What the retry decision reads of a failed HTTP request: whether it failed
/// to connect, timed out, or broke off while transferring the body, and the
/// response's status code when there was one.
#[derive(Debug, Clone, Copy, PartialEq, Eq, Structural)]
pub struct NetworkFailure {
    pub connect: bool,
    pub timeout: bool,
    pub body: bool,
    pub status: Option<u16>,
}

/// Whether a failure is worth retrying: a connection failure, a timeout, a
/// body transfer failure, or a gateway status (502, 503, 504).
pub open spec fn transient(f: NetworkFailure) -> bool {
    f.connect || f.timeout || f.body || (f.status matches Some(code) && (code == 502 || code == 503
        || code == 504))
}

/// Whether a failed request is a transient network error that is retried.
pub fn is_transient_network_error(error: &NetworkFailure) -> (b: bool)
    ensures
        b == transient(*error),
{
    if error.connect || error.timeout || error.body {
        return true;
    }
    match error.status {
        Some(code) => code == 502 || code == 503 || code == 504,
        None => false,
    }
}

/// The delay in seconds that a `Retry-After` header asks for, from the
/// header's text (`None` when the response has no such header, or its value
/// is not text): the text read as `str::parse::<u64>` reads it.
pub fn parse_retry_after(header: Option<&str>) -> (r: Option<u64>)
    ensures
        match header {
            None => r is None,
            Some(h) => match parse_unsigned(h@, u64::MAX as int) {
                Some(v) => r == Some(v as u64),
                None => r is None,
            },
        },
{
    match header {
        None => None,
        Some(h) => {
            let chars = str_chars(h);
            parse_u64(chars.as_slice())
        },
    }
}

} // verus!
