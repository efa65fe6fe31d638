//! Retry policy: which outcomes are retried, and after what delay.

use vstd::prelude::*;
use vstd::math::min;
use vstd::arithmetic::power2::pow2;
use vstd::bits::lemma_u64_shl_is_mul;
use vstd::bits::lemma_u64_pow2_no_overflow;

verus! {

/// Nanoseconds in one second.
pub const NANOS_PER_SEC: u32 = 1_000_000_000;

/// Nanoseconds in one millisecond.
pub const NANOS_PER_MILLI: u32 = 1_000_000;

/// An HTTP request method.
#[derive(Clone, Copy, Debug, PartialEq, Eq, Structural)]
pub enum Method {
    Get,
    Head,
    Post,
    Put,
    Patch,
    Delete,
    Options,
    Connect,
    Trace,
}

/// Idempotent methods: repeating one has the effect of doing it once.
pub open spec fn idempotent(m: Method) -> bool {
    match m {
        Method::Get | Method::Head | Method::Put | Method::Delete | Method::Options => true,
        _ => false,
    }
}

/// Statuses after which an idempotent call is tried again.
pub open spec fn retryable_status_code(status: u16) -> bool {
    status == 429 || status == 502 || status == 503 || status == 504
}

/// A span of time, kept as whole seconds and the nanoseconds beyond them.
#[derive(Clone, Copy, Debug, PartialEq, Eq, Structural)]
pub struct Delay {
    pub secs: u64,
    pub nanos: u32,
}

impl Delay {
    pub open spec fn wf(self) -> bool {
        self.nanos < NANOS_PER_SEC
    }

    /// The span in nanoseconds.
    pub open spec fn total_nanos(self) -> int {
        self.secs * NANOS_PER_SEC + self.nanos
    }

    /// The span in whole milliseconds.
    pub open spec fn total_millis(self) -> int {
        self.total_nanos() / (NANOS_PER_MILLI as int)
    }

    pub fn zero() -> (r: Delay)
        ensures
            r.wf(),
            r.total_nanos() == 0,
    {
        Delay { secs: 0, nanos: 0 }
    }

    pub fn from_secs(secs: u64) -> (r: Delay)
        ensures
            r.wf(),
            r.total_nanos() == secs * NANOS_PER_SEC,
    {
        Delay { secs, nanos: 0 }
    }

    pub fn from_millis(millis: u64) -> (r: Delay)
        ensures
            r.wf(),
            r.total_nanos() == millis * NANOS_PER_MILLI,
            r.total_millis() == millis,
    {
        let secs: u64 = millis / 1000;
        let rest: u64 = millis % 1000;
        let nanos: u32 = (rest as u32) * NANOS_PER_MILLI;
        let r = Delay { secs, nanos };
        assert(r.total_nanos() == millis * NANOS_PER_MILLI) by (nonlinear_arith)
            requires
                secs == millis / 1000,
                rest == millis % 1000,
                nanos == rest * 1_000_000,
                r.total_nanos() == secs * 1_000_000_000 + nanos,
        ;
        assert(r.total_millis() == millis) by (nonlinear_arith)
            requires
                r.total_nanos() == millis * 1_000_000,
                r.total_millis() == r.total_nanos() / 1_000_000,
        ;
        r
    }

    pub fn is_zero(&self) -> (r: bool)
        requires
            self.wf(),
        ensures
            r == (self.total_nanos() == 0),
    {
        self.secs == 0 && self.nanos == 0
    }

    /// Whole milliseconds, saturated at `u64::MAX`.
    pub fn saturating_millis(&self) -> (r: u64)
        requires
            self.wf(),
        ensures
            r == min(self.total_millis(), u64::MAX as int),
    {
        let whole: u128 = (self.secs as u128) * 1000 + (self.nanos / NANOS_PER_MILLI) as u128;
        assert(whole == self.total_millis()) by (nonlinear_arith)
            requires
                whole == self.secs * 1000 + self.nanos / 1_000_000,
                self.total_millis() == (self.secs * 1_000_000_000 + self.nanos) / 1_000_000,
                self.nanos < 1_000_000_000,
        ;
        if whole > u64::MAX as u128 {
            u64::MAX
        } else {
            whole as u64
        }
    }
}


/// How an exchange failed before any response arrived.
#[derive(Clone, Copy, Debug, PartialEq, Eq, Structural)]
pub enum FailureKind {
    /// The request or the connection attempt timed out.
    Timeout,
    /// No connection could be made.
    Connect,
    /// Any other failure of the exchange.
    Other,
}

/// Failures of the exchange after which an idempotent call is tried again.
pub open spec fn retryable_failure_kind(kind: FailureKind) -> bool {
    kind == FailureKind::Timeout || kind == FailureKind::Connect
}

/// How often, and how patiently, a call is tried again.
#[derive(Clone, Copy, Debug)]
pub struct RetryConfig {
    pub max_retries: usize,
    pub base_delay: Delay,
    pub max_delay: Delay,
}

impl RetryConfig {
    pub open spec fn wf(self) -> bool {
        self.base_delay.wf() && self.max_delay.wf()
    }
}

/// The exponential backoff bound, in milliseconds, before the attempt
/// numbered `attempt`: `min(base * 2^min(attempt, 32), max)`, with every
/// quantity saturated at `u64::MAX`.
pub open spec fn backoff_cap_millis(retry: RetryConfig, attempt: nat) -> int {
    let base = min(retry.base_delay.total_millis(), u64::MAX as int);
    let most = min(retry.max_delay.total_millis(), u64::MAX as int);
    let grown = min(base * pow2(min(attempt as int, 32) as nat), u64::MAX as int);
    min(grown, most)
}

pub fn is_idempotent_method(method: Method) -> (r: bool)
    ensures
        r == idempotent(method),
{
    match method {
        Method::Get | Method::Head | Method::Put | Method::Delete | Method::Options => true,
        _ => false,
    }
}

pub fn is_retryable_status(method: Method, status: u16) -> (r: bool)
    ensures
        r == (idempotent(method) && retryable_status_code(status)),
{
    if !is_idempotent_method(method) {
        return false;
    }
    status == 429 || status == 502 || status == 503 || status == 504
}

pub fn is_retryable_transport_error(method: Method, kind: FailureKind) -> (r: bool)
    ensures
        r == (idempotent(method) && retryable_failure_kind(kind)),
{
    if !is_idempotent_method(method) {
        return false;
    }
    match kind {
        FailureKind::Timeout | FailureKind::Connect => true,
        FailureKind::Other => false,
    }
}

/// The exponential backoff bound before attempt `attempt`, in milliseconds.
pub fn backoff_cap(retry: &RetryConfig, attempt: usize) -> (r: u64)
    requires
        retry.wf(),
    ensures
        r == backoff_cap_millis(*retry, attempt as nat),
{
    let base_ms = retry.base_delay.saturating_millis();
    let max_ms = retry.max_delay.saturating_millis();
    let shift: u64 = if attempt < 32 { attempt as u64 } else { 32 };
    proof {
        lemma_u64_pow2_no_overflow(shift as nat);
        lemma_u64_shl_is_mul(1, shift);
    }
    let factor: u64 = 1u64 << shift;
    assert(factor <= 0x1_0000_0000) by {
        vstd::arithmetic::power2::lemma2_to64();
        if shift < 32 {
            vstd::arithmetic::power2::lemma_pow2_strictly_increases(shift as nat, 32);
        }
    }
    assert((base_ms as int) * (factor as int) <= 0xffff_ffff_ffff_ffff * 0x1_0000_0000) by (nonlinear_arith)
        requires
            base_ms <= 0xffff_ffff_ffff_ffff,
            factor <= 0x1_0000_0000,
    ;
    let wide: u128 = (base_ms as u128) * (factor as u128);
    let grown: u64 = if wide > u64::MAX as u128 { u64::MAX } else { wide as u64 };
    if grown < max_ms { grown } else { max_ms }
}

/// Relies on `fastrand::u64` over `0..=cap`: some value in that range (the
/// range is never empty, so the call does not panic).
#[verifier::external_body]
fn random_up_to(cap: u64) -> (r: u64)
    ensures
        r <= cap,
{
    fastrand::u64(0..=cap)
}

/// The wait before the next attempt. A server hint is used verbatim; a zero
/// base delay never waits; otherwise a random span between zero and the
/// backoff bound (full jitter).
pub fn compute_retry_delay(retry_after: Option<Delay>, retry: &RetryConfig, attempt: usize) -> (r:
    Delay)
    requires
        retry.wf(),
        retry_after matches Some(d) ==> d.wf(),
    ensures
        r.wf(),
        retry_after matches Some(d) ==> r == d,
        retry_after is None && retry.base_delay.total_nanos() == 0 ==> r.total_nanos() == 0,
        retry_after is None ==> r.total_millis() <= backoff_cap_millis(*retry, attempt as nat),
        retry_after is None ==> r.total_nanos() % (NANOS_PER_MILLI as int) == 0,
{
    if let Some(delay) = retry_after {
        return delay;
    }
    if retry.base_delay.is_zero() {
        let z = Delay::zero();
        assert(z.total_millis() == 0);
        assert(0 <= backoff_cap_millis(*retry, attempt as nat)) by {
            vstd::arithmetic::power2::lemma_pow2_pos(min(attempt as int, 32) as nat);
            vstd::arithmetic::mul::lemma_mul_nonnegative(
                min(retry.base_delay.total_millis(), u64::MAX as int),
                pow2(min(attempt as int, 32) as nat) as int,
            );
        }
        return z;
    }
    let cap_ms = backoff_cap(retry, attempt);
    if cap_ms == 0 {
        return Delay::zero();
    }
    let jitter_ms = random_up_to(cap_ms);
    let d = Delay::from_millis(jitter_ms);
    assert(d.total_nanos() % (NANOS_PER_MILLI as int) == 0) by (nonlinear_arith)
        requires
            d.total_nanos() == jitter_ms * 1_000_000,
    ;
    d
}

} // verus!
