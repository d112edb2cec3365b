//! Retry policy: bounded exponential backoff with optional jitter.
//!
//! Delays are whole milliseconds. The growth factor is given in
//! thousandths, so that 2000 doubles a delay and 1500 grows it by half. The
//! delay for an attempt is `base * factor^attempt`, computed exactly and
//! rounded down to whole milliseconds once, at the end.

use crate::digits::{are_digits, mul_small, shifted_value, to_digits, value};
use crate::text::{chars_of, contains_seq, find_chars, lowercase, to_lowercase};
use rand::Rng;
use std::error::Error;
use vstd::arithmetic::div_mod::{
    lemma_div_is_ordered, lemma_div_multiples_vanish, lemma_div_multiples_vanish_quotient,
};
use vstd::arithmetic::power::{
    lemma_pow0, lemma_pow_distributes, lemma_pow_positive, pow,
};
use vstd::prelude::*;

verus! {

/// Denominator of the growth factor: a factor `f` multiplies a delay by
/// `f / FACTOR_SCALE`.
pub const FACTOR_SCALE: u32 = 1000;

/// Denominator of a jitter sample: a sample `s` scales a delay by `s / JITTER_SCALE`.
pub const JITTER_SCALE: u64 = 1_000_000;

/// Smallest jitter sample, three quarters of the scale.
pub const JITTER_MIN: u64 = 750_000;

/// Largest jitter sample, five quarters of the scale.
pub const JITTER_MAX: u64 = 1_250_000;

/// Exponential backoff policy with jitter.
#[derive(Debug, Clone, Copy)]
pub struct BackoffPolicy {
    /// Delay before the first retry, in milliseconds.
    pub base_delay_ms: u64,
    /// Multiplier applied once per further attempt, in thousandths.
    pub factor: u32,
    /// Upper bound of the delay before jitter, in milliseconds.
    pub max_delay_ms: u64,
    /// Whether the capped delay is scaled by a random sample.
    pub jitter: bool,
}

/// The smaller of two naturals.
pub open spec fn min_nat(a: nat, b: nat) -> nat {
    if a <= b {
        a
    } else {
        b
    }
}

/// A capped delay scaled by a jitter sample, truncated to whole milliseconds
/// and saturated at the largest representable delay.
pub open spec fn jittered_delay(capped: nat, sample: nat) -> nat {
    min_nat(capped * sample / (JITTER_SCALE as nat), u64::MAX as nat)
}

/// `sample` is a value that the jitter source may produce.
pub open spec fn is_jitter_sample(sample: nat) -> bool {
    JITTER_MIN <= sample <= JITTER_MAX
}

impl BackoffPolicy {
    /// The delay before capping, in whole milliseconds: `base *
    /// factor^attempt`, with the factor in thousandths, rounded down.
    pub open spec fn spec_raw_delay(self, attempt: nat) -> nat {
        (self.base_delay_ms * pow(self.factor as int, attempt) / pow(
            FACTOR_SCALE as int,
            attempt,
        )) as nat
    }

    /// `min(base * factor^attempt, max_delay)`.
    pub open spec fn spec_capped_delay(self, attempt: nat) -> nat {
        min_nat(self.spec_raw_delay(attempt), self.max_delay_ms as nat)
    }

    /// The delay for `attempt` once the jitter sample is known.
    pub open spec fn spec_delay(self, attempt: nat, sample: nat) -> nat {
        if self.jitter {
            jittered_delay(self.spec_capped_delay(attempt), sample)
        } else {
            self.spec_capped_delay(attempt)
        }
    }

    /// `delay` is a delay that the policy may ask for after failed attempt
    /// number `attempt`: the capped delay itself without jitter, the capped
    /// delay scaled by some jitter sample with it.
    pub open spec fn admits(self, attempt: nat, delay: nat) -> bool {
        if self.jitter {
            exists|sample: nat|
                is_jitter_sample(sample) && delay == #[trigger] jittered_delay(
                    self.spec_capped_delay(attempt),
                    sample,
                )
        } else {
            delay == self.spec_capped_delay(attempt)
        }
    }

    /// The default policy: 100 ms base, doubling, capped at 60 s, with jitter.
    pub fn new() -> (r: Self)
        ensures
            r.base_delay_ms == 100,
            r.factor == 2000,
            r.max_delay_ms == 60_000,
            r.jitter,
    {
        BackoffPolicy { base_delay_ms: 100, factor: 2000, max_delay_ms: 60_000, jitter: true }
    }

    /// A policy with the given values, taken as they are. The factor is in
    /// thousandths.
    pub fn with_params(base_delay_ms: u64, factor: u32, max_delay_ms: u64, jitter: bool) -> (r:
        Self)
        ensures
            r.base_delay_ms == base_delay_ms,
            r.factor == factor,
            r.max_delay_ms == max_delay_ms,
            r.jitter == jitter,
    {
        BackoffPolicy { base_delay_ms, factor, max_delay_ms, jitter }
    }

    /// The delay for `attempt` (counted from 0) before jitter.
    pub fn capped_delay(&self, attempt: u32) -> (r: u64)
        ensures
            r == self.spec_capped_delay(attempt as nat),
            r <= self.max_delay_ms,
    {
        let base = self.base_delay_ms;
        let max = self.max_delay_ms;
        let factor = self.factor;
        if attempt == 0 || base == 0 || factor == 1000 {
            proof {
                lemma_raw_delay_at_rest(*self, attempt as nat);
            }
            return if base <= max {
                base
            } else {
                max
            };
        }
        let mut digits = to_digits(base);
        let mut k: u32 = 0;
        proof {
            lemma_pow0(factor as int);
        }
        while k < attempt
            invariant
                k <= attempt,
                factor == self.factor,
                max == self.max_delay_ms,
                base == self.base_delay_ms,
                are_digits(digits@),
                value(digits@) == base * pow(factor as int, k as nat),
            decreases attempt - k,
        {
            let ghost before = pow(factor as int, k as nat);
            digits = mul_small(&digits, factor);
            k += 1;
            proof {
                reveal(pow);
                assert(pow(factor as int, k as nat) == factor * before);
                assert(base * before * factor == base * (factor * before)) by (nonlinear_arith);
            }
            match shifted_value(&digits, k as usize) {
                Some(whole) => {
                    assert(whole == self.spec_raw_delay(k as nat));
                    if factor > 1000 && whole >= max {
                        proof {
                            lemma_raw_delay_monotone(*self, k as nat, attempt as nat);
                        }
                        return max;
                    }
                    if factor < 1000 && whole == 0 {
                        proof {
                            lemma_raw_delay_monotone(*self, k as nat, attempt as nat);
                        }
                        return 0;
                    }
                },
                None => {
                    proof {
                        lemma_raw_delay_monotone(*self, 0, k as nat);
                        lemma_raw_delay_at_rest(*self, 0);
                        lemma_raw_delay_monotone(*self, k as nat, attempt as nat);
                    }
                    return max;
                },
            }
        }
        match shifted_value(&digits, k as usize) {
            Some(whole) => if whole <= max {
                whole
            } else {
                max
            },
            None => max,
        }
    }

    /// The delay for `attempt` given the jitter sample that was drawn. The
    /// sample is ignored where jitter is disabled.
    pub fn delay_with_sample(&self, attempt: u32, sample: u64) -> (r: u64)
        requires
            is_jitter_sample(sample as nat),
        ensures
            r == self.spec_delay(attempt as nat, sample as nat),
            self.admits(attempt as nat, r as nat),
            !self.jitter ==> r == self.spec_capped_delay(attempt as nat),
            self.jitter ==> self.spec_capped_delay(attempt as nat) * 3 / 4 <= r,
            self.jitter ==> r <= self.spec_capped_delay(attempt as nat) * 5 / 4,
    {
        let capped = self.capped_delay(attempt);
        if !self.jitter {
            return capped;
        }
        assert(capped * sample <= 0xffff_ffff_ffff_ffff * 1_250_000) by (nonlinear_arith)
            requires
                capped <= 0xffff_ffff_ffff_ffff,
                sample <= 1_250_000,
        ;
        let scaled: u128 = (capped as u128) * (sample as u128) / (JITTER_SCALE as u128);
        proof {
            lemma_jitter_bounds(capped as nat, sample as nat);
        }
        if scaled > u64::MAX as u128 {
            u64::MAX
        } else {
            scaled as u64
        }
    }

    /// The delay to wait after failed attempt number `attempt` (counted from
    /// 0). With jitter the capped delay is scaled by a sample drawn uniformly
    /// from `JITTER_MIN..=JITTER_MAX`.
    pub fn next_delay(&self, attempt: u32) -> (r: u64)
        ensures
            self.admits(attempt as nat, r as nat),
            !self.jitter ==> r == self.spec_capped_delay(attempt as nat),
            self.jitter ==> self.spec_capped_delay(attempt as nat) * 3 / 4 <= r,
            self.jitter ==> r <= self.spec_capped_delay(attempt as nat) * 5 / 4,
    {
        if self.jitter {
            let sample = random_in_range(JITTER_MIN, JITTER_MAX);
            let r = self.delay_with_sample(attempt, sample);
            assert(is_jitter_sample(sample as nat) && r == jittered_delay(
                self.spec_capped_delay(attempt as nat),
                sample as nat,
            ));
            r
        } else {
            self.capped_delay(attempt)
        }
    }
}

impl Default for BackoffPolicy {
    fn default() -> (r: Self)
        ensures
            r.base_delay_ms == 100,
            r.factor == 2000,
            r.max_delay_ms == 60_000,
            r.jitter,
    {
        BackoffPolicy::new()
    }
}

/// Calls `rand::thread_rng().gen_range(low..=high)`: a value drawn from the
/// inclusive range, which must not be empty. Nothing is claimed of which
/// value comes out.
#[verifier::external_body]
fn random_in_range(low: u64, high: u64) -> (r: u64)
    requires
        low <= high,
    ensures
        low <= r <= high,
{
    rand::thread_rng().gen_range(low..=high)
}

/// Whether the lowercase text of an error's cause names a network failure
/// that may pass.
pub open spec fn names_network_failure(lower: Seq<char>) -> bool {
    ||| contains_seq(lower, "connection reset"@)
    ||| contains_seq(lower, "broken pipe"@)
    ||| contains_seq(lower, "connection aborted"@)
    ||| contains_seq(lower, "network unreachable"@)
    ||| contains_seq(lower, "host unreachable"@)
}

/// A failure is transient if it is a timeout or a failure to connect. If
/// it is neither and carries a status, it is transient exactly for a server
/// error (5xx). If it carries none, it is transient if the lowercase text of
/// its cause names a network failure that may pass.
pub open spec fn spec_is_transient(
    is_timeout: bool,
    is_connect: bool,
    status: Option<u16>,
    source_text: Option<Seq<char>>,
) -> bool {
    if is_timeout || is_connect {
        true
    } else if status is Some {
        500 <= status->0 < 600
    } else if source_text is Some {
        names_network_failure(lowercase(source_text->0))
    } else {
        false
    }
}

fn holds_phrase(text: &[char], phrase: &str) -> (r: bool)
    ensures
        r == contains_seq(text@, phrase@),
{
    let p = chars_of(phrase);
    find_chars(text, p.as_slice()).is_some()
}

/// Decides from what is known of a failed request whether it is
/// transient and should be retried.
pub fn classify_transient(
    is_timeout: bool,
    is_connect: bool,
    status: Option<u16>,
    source_text: Option<&str>,
) -> (r: bool)
    ensures
        r == spec_is_transient(
            is_timeout,
            is_connect,
            status,
            match source_text {
                Some(t) => Some(t@),
                None => None,
            },
        ),
{
    if is_timeout || is_connect {
        return true;
    }
    if let Some(code) = status {
        return 500 <= code && code < 600;
    }
    if let Some(text) = source_text {
        let lower = to_lowercase(text);
        let cs = chars_of(lower.as_str());
        return holds_phrase(cs.as_slice(), "connection reset") || holds_phrase(
            cs.as_slice(),
            "broken pipe",
        ) || holds_phrase(cs.as_slice(), "connection aborted") || holds_phrase(
            cs.as_slice(),
            "network unreachable",
        ) || holds_phrase(cs.as_slice(), "host unreachable");
    }
    false
}

/// `reqwest::Error::is_timeout`: whether the error is related to a timeout.
pub assume_specification[ reqwest::Error::is_timeout ](error: &reqwest::Error) -> (r: bool)
;

/// `reqwest::Error::is_connect`: whether the error is related to connecting.
pub assume_specification[ reqwest::Error::is_connect ](error: &reqwest::Error) -> (r: bool)
;

/// Calls `reqwest::Error::status` and hands out the status as a number.
#[verifier::external_body]
fn error_status(error: &reqwest::Error) -> (r: Option<u16>) {
    match error.status() {
        Some(status) => Some(status.as_u16()),
        None => None,
    }
}

/// Calls `std::error::Error::source` on the error and hands out the text of
/// the cause, where there is one.
#[verifier::external_body]
fn error_source_text(error: &reqwest::Error) -> (r: Option<String>) {
    match error.source() {
        Some(cause) => Some(cause.to_string()),
        None => None,
    }
}

/// Determine if an error is transient and should be retried. The error
/// is asked whether it is a timeout or a failure to connect, for its status
/// and for the text of its cause; [`classify_transient`] decides on the
/// answers.
pub fn is_transient(error: &reqwest::Error) -> (r: bool) {
    let is_timeout = error.is_timeout();
    let is_connect = error.is_connect();
    let status = error_status(error);
    let source = error_source_text(error);
    match &source {
        Some(text) => classify_transient(is_timeout, is_connect, status, Some(text.as_str())),
        None => classify_transient(is_timeout, is_connect, status, None),
    }
}

/// One more attempt multiplies the delay before capping by the factor:
/// with a factor of at least 1 it does not shrink, with a factor of at most
/// 1 it does not grow.
proof fn lemma_raw_delay_step(policy: BackoffPolicy, attempt: nat)
    ensures
        policy.factor >= FACTOR_SCALE ==> policy.spec_raw_delay(attempt) <= policy.spec_raw_delay(
            attempt + 1,
        ),
        policy.factor <= FACTOR_SCALE ==> policy.spec_raw_delay(attempt + 1)
            <= policy.spec_raw_delay(attempt),
{
    reveal(pow);
    let f = policy.factor as int;
    let base = policy.base_delay_ms as int;
    let pf = pow(f, attempt);
    let pk = pow(1000, attempt);
    lemma_pow_nonnegative(f, attempt);
    lemma_pow_positive(1000, attempt);
    let n = base * pf;
    assert(n >= 0) by (nonlinear_arith)
        requires
            base >= 0,
            pf >= 0,
            n == base * pf,
    ;
    assert(pow(f, attempt + 1) == f * pf);
    assert(pow(1000, attempt + 1) == 1000 * pk);
    assert(base * (f * pf) == n * f) by (nonlinear_arith)
        requires
            n == base * pf,
    ;
    lemma_div_multiples_vanish_quotient(1000, n, pk);
    assert(n / pk == (1000 * n) / (1000 * pk));
    if f >= 1000 {
        assert(1000 * n <= n * f) by (nonlinear_arith)
            requires
                n >= 0,
                f >= 1000,
        ;
        lemma_div_is_ordered(1000 * n, n * f, 1000 * pk);
    }
    if f <= 1000 {
        assert(n * f <= 1000 * n) by (nonlinear_arith)
            requires
                n >= 0,
                0 <= f <= 1000,
        ;
        lemma_div_is_ordered(n * f, 1000 * n, 1000 * pk);
    }
    assert(n * f >= 0) by (nonlinear_arith)
        requires
            n >= 0,
            f >= 0,
    ;
    vstd::arithmetic::div_mod::lemma_div_pos_is_pos(n * f, 1000 * pk);
    vstd::arithmetic::div_mod::lemma_div_pos_is_pos(n, pk);
}

/// With a factor of at least 1 the delay before capping never shrinks as
/// the attempt number grows; with a factor of at most 1 it never grows.
pub proof fn lemma_raw_delay_monotone(policy: BackoffPolicy, a: nat, b: nat)
    requires
        a <= b,
    ensures
        policy.factor >= FACTOR_SCALE ==> policy.spec_raw_delay(a) <= policy.spec_raw_delay(b),
        policy.factor <= FACTOR_SCALE ==> policy.spec_raw_delay(b) <= policy.spec_raw_delay(a),
    decreases b,
{
    if a < b {
        lemma_raw_delay_monotone(policy, a, (b - 1) as nat);
        lemma_raw_delay_step(policy, (b - 1) as nat);
    }
}

/// Where nothing grows the delay before capping is the base delay: at
/// attempt 0, with a base delay of nothing, and with a factor of exactly 1.
proof fn lemma_raw_delay_at_rest(policy: BackoffPolicy, attempt: nat)
    requires
        attempt == 0 || policy.base_delay_ms == 0 || policy.factor == FACTOR_SCALE,
    ensures
        policy.spec_raw_delay(attempt) == policy.base_delay_ms,
{
    let base = policy.base_delay_ms as int;
    lemma_pow0(policy.factor as int);
    lemma_pow0(1000);
    assert(policy.spec_raw_delay(0) == base) by {
        assert(base * 1 / 1 == base);
    }
    if attempt > 0 {
        if policy.base_delay_ms == 0 {
            lemma_pow_positive(1000, attempt);
            assert(0 * pow(policy.factor as int, attempt) == 0) by (nonlinear_arith);
            assert(0int / pow(1000, attempt) == 0) by (nonlinear_arith)
                requires
                    pow(1000, attempt) > 0,
            ;
        } else {
            lemma_raw_delay_monotone(policy, 0, attempt);
        }
    }
}

/// With a factor that is a whole number nothing is rounded: the delay
/// before capping is the base delay times that number to the power of the
/// attempt number.
pub proof fn lemma_whole_factor_is_exact(policy: BackoffPolicy, whole: nat, attempt: nat)
    requires
        policy.factor == whole * FACTOR_SCALE,
    ensures
        policy.spec_raw_delay(attempt) == policy.base_delay_ms * pow(whole as int, attempt),
        policy.spec_capped_delay(attempt) == min_nat(
            (policy.base_delay_ms * pow(whole as int, attempt)) as nat,
            policy.max_delay_ms as nat,
        ),
{
    let base = policy.base_delay_ms as int;
    let w = whole as int;
    let p = pow(w, attempt);
    let pk = pow(1000, attempt);
    lemma_pow_distributes(w, 1000, attempt);
    lemma_pow_nonnegative(w, attempt);
    lemma_pow_positive(1000, attempt);
    assert(base * p >= 0) by (nonlinear_arith)
        requires
            base >= 0,
            p >= 0,
    ;
    assert(base * (p * pk) == pk * (base * p)) by (nonlinear_arith);
    lemma_div_multiples_vanish(base * p, pk);
}

proof fn lemma_pow_nonnegative(f: int, e: nat)
    requires
        f >= 0,
    ensures
        pow(f, e) >= 0,
    decreases e,
{
    reveal(pow);
    if e > 0 {
        lemma_pow_nonnegative(f, (e - 1) as nat);
        assert(f * pow(f, (e - 1) as nat) >= 0) by (nonlinear_arith)
            requires
                f >= 0,
                pow(f, (e - 1) as nat) >= 0,
        ;
    }
}

/// Without jitter the delay is `min(base * factor^attempt, max_delay)`:
/// it never exceeds the largest delay, and with a factor of at least 1 it is
/// non-decreasing in the attempt number.
pub proof fn lemma_delay_capped_and_monotonic(policy: BackoffPolicy, a: nat, b: nat)
    requires
        policy.factor >= FACTOR_SCALE,
        a <= b,
    ensures
        policy.spec_capped_delay(a) <= policy.spec_capped_delay(b),
        policy.spec_capped_delay(b) <= policy.max_delay_ms,
        policy.spec_capped_delay(b) == min_nat(
            (policy.base_delay_ms * pow(policy.factor as int, b) / pow(FACTOR_SCALE as int, b))
                as nat,
            policy.max_delay_ms as nat,
        ),
        !policy.jitter ==> forall|s: nat| policy.spec_delay(a, s) <= policy.spec_delay(b, s),
{
    lemma_raw_delay_monotone(policy, a, b);
}

/// A jittered delay lies between three quarters and five quarters of the
/// capped delay, both ends truncated to whole milliseconds.
pub proof fn lemma_jitter_bounds(capped: nat, sample: nat)
    requires
        is_jitter_sample(sample),
        capped <= u64::MAX,
    ensures
        capped * 3 / 4 <= jittered_delay(capped, sample) <= capped * 5 / 4,
        capped * sample / (JITTER_SCALE as nat) <= capped * 5 / 4,
{
    let scale = JITTER_SCALE as int;
    let c = capped as int;
    let s = sample as int;
    let q = c * s / scale;
    assert(c * s >= c * 750_000) by (nonlinear_arith)
        requires
            c >= 0,
            s >= 750_000,
    ;
    assert(c * s <= c * 1_250_000) by (nonlinear_arith)
        requires
            c >= 0,
            s <= 1_250_000,
    ;
    assert(q >= c * 3 / 4) by {
        assert(c * 750_000 / 1_000_000 == c * 3 / 4) by (nonlinear_arith)
            requires
                c >= 0,
        ;
        lemma_div_is_ordered_local(c * 750_000, c * s, 1_000_000);
    }
    assert(q <= c * 5 / 4) by {
        assert(c * 1_250_000 / 1_000_000 == c * 5 / 4) by (nonlinear_arith)
            requires
                c >= 0,
        ;
        lemma_div_is_ordered_local(c * s, c * 1_250_000, 1_000_000);
    }
    assert(c * 3 / 4 <= u64::MAX);
}

proof fn lemma_div_is_ordered_local(x: int, y: int, d: int)
    requires
        0 <= x <= y,
        d > 0,
    ensures
        x / d <= y / d,
{
    vstd::arithmetic::div_mod::lemma_div_is_ordered(x, y, d);
}

} // verus!
