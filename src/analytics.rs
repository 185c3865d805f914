//! Throughput and a qualitative rating from an answer's counters.
//!
//! Tokens per second is `eval_token_count / (eval_duration_ns / 10^9)`, and
//! zero when no evaluation time was reported. It is worked out here in exact
//! integer arithmetic.

use vstd::prelude::*;
use crate::ollama::TerminalMetrics;

verus! {

pub const NANOS_PER_SECOND: u64 = 1_000_000_000;

/// The rating for a throughput above this many tokens per second.
pub const EXCELLENT_ABOVE: u64 = 100;

pub const GOOD_ABOVE: u64 = 50;

pub const MODERATE_ABOVE: u64 = 20;

/// How fast the hardware answered.
#[derive(Debug, Clone, Copy, PartialEq, Eq, Structural)]
pub enum Rating {
    Excellent,
    Good,
    Moderate,
    Slow,
}

/// Whether the throughput is strictly above `t` tokens per second.
pub open spec fn rate_above(m: TerminalMetrics, t: int) -> bool {
    m.eval_duration_ns > 0 && m.eval_token_count * NANOS_PER_SECOND > t * m.eval_duration_ns
}

/// The rating of a throughput: the first threshold that it exceeds.
pub open spec fn rating_of(m: TerminalMetrics) -> Rating {
    if rate_above(m, EXCELLENT_ABOVE as int) {
        Rating::Excellent
    } else if rate_above(m, GOOD_ABOVE as int) {
        Rating::Good
    } else if rate_above(m, MODERATE_ABOVE as int) {
        Rating::Moderate
    } else {
        Rating::Slow
    }
}

/// Tokens per second in hundredths, rounded to the nearest hundredth (a
/// half rounds up); zero when no evaluation time was reported.
pub open spec fn centi_rate(m: TerminalMetrics) -> int {
    if m.eval_duration_ns == 0 {
        0
    } else {
        (200 * NANOS_PER_SECOND * m.eval_token_count + m.eval_duration_ns) / (2
            * m.eval_duration_ns)
    }
}

pub open spec fn rating_name(r: Rating) -> Seq<char> {
    match r {
        Rating::Excellent => "Excellent"@,
        Rating::Good => "Good"@,
        Rating::Moderate => "Moderate"@,
        Rating::Slow => "Slow"@,
    }
}

impl Rating {
    /// The rating's display name.
    pub fn as_str(&self) -> (r: &'static str)
        ensures
            r@ == rating_name(*self),
    {
        match self {
            Rating::Excellent => "Excellent",
            Rating::Good => "Good",
            Rating::Moderate => "Moderate",
            Rating::Slow => "Slow",
        }
    }
}

/// Whether `count` tokens in `duration_ns` nanoseconds is strictly more than
/// `threshold` tokens per second.
fn exceeds(count: usize, duration_ns: u64, threshold: u64) -> (r: bool)
    requires
        threshold <= EXCELLENT_ABOVE,
    ensures
        r == (duration_ns > 0 && count * NANOS_PER_SECOND > threshold * duration_ns),
{
    if duration_ns == 0 {
        return false;
    }
    proof {
        assert(count * NANOS_PER_SECOND <= 0x1_0000_0000_0000_0000 * 1_000_000_000)
            by (nonlinear_arith)
            requires
                count < 0x1_0000_0000_0000_0000,
        ;
        assert(threshold * duration_ns <= 100 * 0x1_0000_0000_0000_0000) by (nonlinear_arith)
            requires
                threshold <= 100,
                duration_ns < 0x1_0000_0000_0000_0000,
        ;
    }
    (count as u128) * (NANOS_PER_SECOND as u128) > (threshold as u128) * (duration_ns as u128)
}

/// Tokens per second, in hundredths rounded to the nearest; zero when no
/// evaluation time was reported.
pub fn calculate_tokens_per_second(metrics: &TerminalMetrics) -> (r: u128)
    ensures
        r == centi_rate(*metrics),
{
    let d = metrics.eval_duration_ns;
    if d == 0 {
        return 0;
    }
    let c = metrics.eval_token_count;
    proof {
        assert(200 * NANOS_PER_SECOND * c <= 200 * 1_000_000_000 * 0x1_0000_0000_0000_0000)
            by (nonlinear_arith)
            requires
                c < 0x1_0000_0000_0000_0000,
        ;
    }
    let num: u128 = 200 * (NANOS_PER_SECOND as u128) * (c as u128) + (d as u128);
    let den: u128 = 2 * (d as u128);
    num / den
}

/// The qualitative rating of an answer's throughput.
pub fn rate_performance(metrics: &TerminalMetrics) -> (r: Rating)
    ensures
        r == rating_of(*metrics),
{
    let c = metrics.eval_token_count;
    let d = metrics.eval_duration_ns;
    if exceeds(c, d, EXCELLENT_ABOVE) {
        Rating::Excellent
    } else if exceeds(c, d, GOOD_ABOVE) {
        Rating::Good
    } else if exceeds(c, d, MODERATE_ABOVE) {
        Rating::Moderate
    } else {
        Rating::Slow
    }
}

/// The reported rate is the exact throughput `count * 10^9 / duration`,
/// in hundredths, rounded to the nearest; it is zero without evaluation
/// time.
pub proof fn lemma_rate_is_nearest_hundredth(m: TerminalMetrics)
    ensures
        m.eval_duration_ns == 0 ==> centi_rate(m) == 0,
        m.eval_duration_ns > 0 ==> {
            let exact = 100 * NANOS_PER_SECOND * m.eval_token_count;
            let d = m.eval_duration_ns as int;
            &&& 2 * centi_rate(m) * d <= 2 * exact + d
            &&& 2 * exact + d < 2 * centi_rate(m) * d + 2 * d
        },
{
    if m.eval_duration_ns > 0 {
        let d = m.eval_duration_ns as int;
        let exact = 100 * NANOS_PER_SECOND * m.eval_token_count;
        let n = 2 * exact + d;
        let den = 2 * d;
        assert(n == 200 * NANOS_PER_SECOND * m.eval_token_count + m.eval_duration_ns)
            by (nonlinear_arith)
            requires
                n == 2 * exact + d,
                exact == 100 * NANOS_PER_SECOND * m.eval_token_count,
                d == m.eval_duration_ns,
        ;
        let q = n / den;
        assert(centi_rate(m) == q);
        vstd::arithmetic::div_mod::lemma_fundamental_div_mod(n, den);
        assert(n == den * q + n % den);
        assert(0 <= n % den < den);
        assert(den * q == 2 * q * d) by (nonlinear_arith)
            requires
                den == 2 * d,
        ;
    }
}

/// The thresholds split all throughputs, from zero up, into four disjoint
/// bands, and each answer gets the rating of the band that it falls in.
pub proof fn lemma_rating_partition(m: TerminalMetrics)
    ensures
        rate_above(m, EXCELLENT_ABOVE as int) <==> rating_of(m) == Rating::Excellent,
        !rate_above(m, EXCELLENT_ABOVE as int) && rate_above(m, GOOD_ABOVE as int) <==> rating_of(m)
            == Rating::Good,
        !rate_above(m, GOOD_ABOVE as int) && rate_above(m, MODERATE_ABOVE as int) <==> rating_of(m)
            == Rating::Moderate,
        !rate_above(m, MODERATE_ABOVE as int) <==> rating_of(m) == Rating::Slow,
{
    assert(rate_above(m, EXCELLENT_ABOVE as int) ==> rate_above(m, GOOD_ABOVE as int));
    assert(rate_above(m, GOOD_ABOVE as int) ==> rate_above(m, MODERATE_ABOVE as int));
}

} // verus!
