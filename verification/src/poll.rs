//! The boolean poll primitive: repeatedly evaluate a page script until it
//! yields an expected boolean value or a shared deadline passes.
//!
//! The driver loop performs the script evaluations and the sleeps; the
//! functions here decide, from plain values, whether the loop may take
//! another tick and whether a tick's outcome satisfies the expectation.
//! A recorded sequence of ticks can be replayed through
//! [`run_poll_trace`], whose result is pinned to the same model the
//! decision functions are specified against.

use vstd::prelude::*;

verus! {

/// What one evaluation of the polled script produced: a boolean value, or
/// a failure (the script threw, or its result was not a boolean).
#[derive(Clone, Copy, PartialEq, Eq, Structural, Debug)]
pub enum TickValue {
    Value(bool),
    Failure,
}

/// How a whole poll ended: the expected value was observed before the
/// deadline, or the deadline passed first.
#[derive(Clone, Copy, PartialEq, Eq, Structural, Debug)]
pub enum PollOutcome {
    Met,
    TimedOut,
}

/// One recorded poll tick: the time the tick was taken and what the
/// evaluation produced then.
#[derive(Clone, Copy, PartialEq, Eq, Structural, Debug)]
pub struct PollSample {
    pub at_ms: u64,
    pub tick: TickValue,
}

/// The poll cadence: how long the driver sleeps after an unsatisfied tick.
pub const POLL_TICK_MS: u64 = 500;

/// Whether a tick satisfies the expectation. An evaluation failure counts
/// as a non-matching value: it never satisfies, whatever was expected.
pub open spec fn tick_matches(tick: TickValue, expect: bool) -> bool {
    match tick {
        TickValue::Value(v) => v == expect,
        TickValue::Failure => false,
    }
}

/// Interpret one poll tick: an evaluation failure is treated exactly like
/// a value that does not match the expectation.
pub fn tick_meets_expectation(tick: &TickValue, expect: bool) -> (b: bool)
    ensures
        b == tick_matches(*tick, expect),
{
    match tick {
        TickValue::Value(v) => *v == expect,
        TickValue::Failure => false,
    }
}

/// Whether the poll loop may take another tick at time `now_ms`: polling
/// continues strictly until the deadline, never past it.
pub fn may_poll(now_ms: u64, deadline_ms: u64) -> (b: bool)
    ensures
        b == (now_ms < deadline_ms),
{
    now_ms < deadline_ms
}

/// The outcome of polling over a recorded trace of ticks: before each
/// tick the deadline is checked; a tick taken before the deadline and
/// satisfying the expectation ends the poll with `Met`; a deadline check
/// that fails ends it with `TimedOut`. `None` means the trace ran out
/// while the poll was still waiting.
pub open spec fn poll_trace_outcome(
    samples: Seq<PollSample>,
    expect: bool,
    deadline_ms: u64,
) -> Option<PollOutcome>
    decreases samples.len(),
{
    if samples.len() == 0 {
        None
    } else if samples[0].at_ms >= deadline_ms {
        Some(PollOutcome::TimedOut)
    } else if tick_matches(samples[0].tick, expect) {
        Some(PollOutcome::Met)
    } else {
        poll_trace_outcome(samples.drop_first(), expect, deadline_ms)
    }
}

/// The number of sleeps the driver performs during a poll over the trace:
/// one after every tick that was taken before the deadline and did not
/// satisfy the expectation.
pub open spec fn poll_trace_sleeps(
    samples: Seq<PollSample>,
    expect: bool,
    deadline_ms: u64,
) -> nat
    decreases samples.len(),
{
    if samples.len() == 0 {
        0
    } else if samples[0].at_ms >= deadline_ms {
        0
    } else if tick_matches(samples[0].tick, expect) {
        0
    } else {
        1 + poll_trace_sleeps(samples.drop_first(), expect, deadline_ms)
    }
}

/// The time at which the poll over the trace ends: the time of the sample
/// on which it returned (meaningful only when the trace decides the poll).
pub open spec fn poll_trace_end_ms(
    samples: Seq<PollSample>,
    expect: bool,
    deadline_ms: u64,
) -> u64
    decreases samples.len(),
{
    if samples.len() == 0 {
        0
    } else if samples[0].at_ms >= deadline_ms {
        samples[0].at_ms
    } else if tick_matches(samples[0].tick, expect) {
        samples[0].at_ms
    } else {
        poll_trace_end_ms(samples.drop_first(), expect, deadline_ms)
    }
}

/// Law: the zero-tick fast path. If the polled value already satisfies the
/// expectation at call time (first tick before the deadline and matching),
/// the poll succeeds on that very tick, with no sleep at all.
pub proof fn lemma_poll_fast_path(samples: Seq<PollSample>, expect: bool, deadline_ms: u64)
    requires
        samples.len() > 0,
        samples[0].at_ms < deadline_ms,
        tick_matches(samples[0].tick, expect),
    ensures
        poll_trace_outcome(samples, expect, deadline_ms) == Some(PollOutcome::Met),
        poll_trace_sleeps(samples, expect, deadline_ms) == 0,
        poll_trace_end_ms(samples, expect, deadline_ms) == samples[0].at_ms,
{
}

/// Law: a poll whose ticks never satisfy the expectation times out, and it
/// does so no later than one tick interval past the deadline: consecutive
/// ticks are at most `tick_ms` apart, and the tick before the deciding one
/// was still ahead of the deadline.
pub proof fn lemma_poll_timeout_bound(
    samples: Seq<PollSample>,
    expect: bool,
    deadline_ms: u64,
    tick_ms: u64,
)
    requires
        samples.len() > 0,
        forall|i: int| 0 <= i < samples.len() ==> !tick_matches(#[trigger] samples[i].tick, expect),
        forall|i: int|
            0 < i < samples.len() ==> #[trigger] samples[i].at_ms <= samples[i - 1].at_ms
                + tick_ms,
        exists|i: int| 0 <= i < samples.len() && #[trigger] samples[i].at_ms >= deadline_ms,
    ensures
        poll_trace_outcome(samples, expect, deadline_ms) == Some(PollOutcome::TimedOut),
        samples[0].at_ms >= deadline_ms ==> poll_trace_end_ms(samples, expect, deadline_ms)
            == samples[0].at_ms,
        samples[0].at_ms < deadline_ms ==> poll_trace_end_ms(samples, expect, deadline_ms)
            <= deadline_ms + tick_ms,
    decreases samples.len(),
{
    if samples[0].at_ms >= deadline_ms {
    } else {
        let rest = samples.drop_first();
        let w = choose|i: int|
            0 <= i < samples.len() && #[trigger] samples[i].at_ms >= deadline_ms;
        assert(w > 0);
        assert(rest[w - 1].at_ms >= deadline_ms);
        assert(forall|i: int|
            0 <= i < rest.len() ==> !tick_matches(#[trigger] rest[i].tick, expect)) by {
            assert(forall|i: int|
                0 <= i < rest.len() ==> #[trigger] rest[i].tick == samples[i + 1].tick);
        }
        assert(forall|i: int|
            0 < i < rest.len() ==> #[trigger] rest[i].at_ms <= rest[i - 1].at_ms + tick_ms) by {
            assert(forall|i: int|
                0 <= i < rest.len() ==> #[trigger] rest[i].at_ms == samples[i + 1].at_ms);
        }
        lemma_poll_timeout_bound(rest, expect, deadline_ms, tick_ms);
        if rest[0].at_ms >= deadline_ms {
            assert(rest[0].at_ms <= samples[0].at_ms + tick_ms);
        }
    }
}

/// Law: an evaluation failure is equivalent, for the whole poll, to a
/// value that does not match the expectation. Replacing any one failed
/// tick by the non-matching boolean changes neither the outcome nor the
/// number of sleeps nor the end time.
pub proof fn lemma_failure_is_mismatch(
    samples: Seq<PollSample>,
    k: int,
    expect: bool,
    deadline_ms: u64,
)
    requires
        0 <= k < samples.len(),
        samples[k].tick is Failure,
    ensures
        ({
            let swapped = samples.update(
                k,
                PollSample { at_ms: samples[k].at_ms, tick: TickValue::Value(!expect) },
            );
            &&& poll_trace_outcome(swapped, expect, deadline_ms) == poll_trace_outcome(
                samples,
                expect,
                deadline_ms,
            )
            &&& poll_trace_sleeps(swapped, expect, deadline_ms) == poll_trace_sleeps(
                samples,
                expect,
                deadline_ms,
            )
            &&& poll_trace_end_ms(swapped, expect, deadline_ms) == poll_trace_end_ms(
                samples,
                expect,
                deadline_ms,
            )
        }),
    decreases samples.len(),
{
    let swapped = samples.update(
        k,
        PollSample { at_ms: samples[k].at_ms, tick: TickValue::Value(!expect) },
    );
    if k == 0 {
        assert(!tick_matches(swapped[0].tick, expect));
        assert(swapped.drop_first() =~= samples.drop_first());
    } else {
        assert(swapped[0] == samples[0]);
        if samples[0].at_ms >= deadline_ms {
        } else if tick_matches(samples[0].tick, expect) {
        } else {
            assert(swapped.drop_first() =~= samples.drop_first().update(
                k - 1,
                PollSample { at_ms: samples[k].at_ms, tick: TickValue::Value(!expect) },
            ));
            lemma_failure_is_mismatch(samples.drop_first(), k - 1, expect, deadline_ms);
        }
    }
}

/// Replay a poll over a recorded trace of ticks. Mirrors the driver loop:
/// deadline check, then the tick, then (on a miss) a sleep. Returns `None`
/// when the trace ran out while the poll was still waiting.
pub fn run_poll_trace(samples: &Vec<PollSample>, expect: bool, deadline_ms: u64) -> (r: Option<
    PollOutcome,
>)
    ensures
        r == poll_trace_outcome(samples@, expect, deadline_ms),
{
    let n = samples.len();
    let mut i: usize = 0;
    assert(samples@.skip(0) =~= samples@);
    while i < n
        invariant
            0 <= i <= n,
            n == samples@.len(),
            poll_trace_outcome(samples@, expect, deadline_ms) == poll_trace_outcome(
                samples@.skip(i as int),
                expect,
                deadline_ms,
            ),
        decreases n - i,
    {
        let s = samples[i];
        if !may_poll(s.at_ms, deadline_ms) {
            assert(samples@.skip(i as int)[0] == s);
            return Some(PollOutcome::TimedOut);
        }
        if tick_meets_expectation(&s.tick, expect) {
            assert(samples@.skip(i as int)[0] == s);
            return Some(PollOutcome::Met);
        }
        assert(samples@.skip(i as int)[0] == s);
        assert(samples@.skip(i as int).drop_first() =~= samples@.skip(i + 1));
        i = i + 1;
    }
    assert(samples@.skip(i as int).len() == 0);
    None
}

} // verus!
