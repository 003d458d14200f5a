//! The rate-limiting model behind `UdpHandler::send`.
//!
//! A send fires only when at least one period has elapsed since the last
//! firing, and every firing moves the window start to the firing time.
//! `transmit_count` replays that rule over a whole sequence of send
//! attempts; `lemma_burst_transmission_bound` bounds how many of a burst's
//! attempts can actually fire.

use vstd::prelude::*;

verus! {

/// Whether a send attempted at `now_ms` fires, given the start of the last
/// rate-limit window and the configured period.
pub open spec fn send_due(last_ms: int, period_ms: int, now_ms: int) -> bool {
    now_ms >= last_ms + period_ms
}

/// How many of the send attempts at the given times fire, when the last
/// window started at `last_ms` and each firing restarts the window.
pub open spec fn transmit_count(last_ms: int, period_ms: int, times: Seq<int>) -> int
    decreases times.len(),
{
    if times.len() == 0 {
        0
    } else if send_due(last_ms, period_ms, times[0]) {
        1 + transmit_count(times[0], period_ms, times.drop_first())
    } else {
        transmit_count(last_ms, period_ms, times.drop_first())
    }
}

proof fn lemma_count_nonneg(last_ms: int, period_ms: int, times: Seq<int>)
    ensures
        transmit_count(last_ms, period_ms, times) >= 0,
    decreases times.len(),
{
    if times.len() != 0 {
        if send_due(last_ms, period_ms, times[0]) {
            lemma_count_nonneg(times[0], period_ms, times.drop_first());
        } else {
            lemma_count_nonneg(last_ms, period_ms, times.drop_first());
        }
    }
}

/// Each firing advances the window start by at least one period, so the
/// firings scaled by the period fit between the window start and the
/// latest attempt.
proof fn lemma_count_scaled(last_ms: int, period_ms: int, times: Seq<int>, hi: int)
    requires
        period_ms >= 1,
        forall|i: int| 0 <= i < times.len() ==> #[trigger] times[i] <= hi,
    ensures
        period_ms * transmit_count(last_ms, period_ms, times) <= if hi >= last_ms {
            hi - last_ms
        } else {
            0
        },
    decreases times.len(),
{
    if times.len() != 0 {
        let rest = times.drop_first();
        assert forall|i: int| 0 <= i < rest.len() implies #[trigger] rest[i] <= hi by {
            assert(rest[i] == times[i + 1]);
        }
        if send_due(last_ms, period_ms, times[0]) {
            lemma_count_scaled(times[0], period_ms, rest, hi);
            let c = transmit_count(times[0], period_ms, rest);
            assert(period_ms * (1 + c) == period_ms + period_ms * c) by (nonlinear_arith);
        } else {
            lemma_count_scaled(last_ms, period_ms, rest, hi);
        }
    }
}

/// Rate limiting bounds a burst: however many sends are attempted at times
/// within `[lo, hi]`, and whatever the window start was beforehand, at most
/// `(hi - lo) / period_ms + 1` of them fire.
pub proof fn lemma_burst_transmission_bound(
    last_ms: int,
    period_ms: int,
    times: Seq<int>,
    lo: int,
    hi: int,
)
    requires
        period_ms >= 1,
        lo <= hi,
        forall|i: int| 0 <= i < times.len() ==> lo <= #[trigger] times[i] && times[i] <= hi,
    ensures
        transmit_count(last_ms, period_ms, times) <= (hi - lo) / period_ms + 1,
    decreases times.len(),
{
    if times.len() == 0 {
        assert((hi - lo) / period_ms >= 0) by (nonlinear_arith)
            requires
                period_ms >= 1,
                hi - lo >= 0,
        ;
    } else {
        let rest = times.drop_first();
        assert forall|i: int| 0 <= i < rest.len() implies lo <= #[trigger] rest[i] && rest[i]
            <= hi by {
            assert(rest[i] == times[i + 1]);
        }
        if send_due(last_ms, period_ms, times[0]) {
            lemma_count_scaled(times[0], period_ms, rest, hi);
            lemma_count_nonneg(times[0], period_ms, rest);
            let c = transmit_count(times[0], period_ms, rest);
            assert(c <= (hi - lo) / period_ms) by (nonlinear_arith)
                requires
                    period_ms >= 1,
                    c >= 0,
                    period_ms * c <= hi - lo,
            ;
        } else {
            lemma_burst_transmission_bound(last_ms, period_ms, rest, lo, hi);
        }
    }
}

} // verus!
