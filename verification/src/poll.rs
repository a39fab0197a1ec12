//! A model of the readiness-polling protocol. The injected script re-checks
//! the page at a fixed cadence for the well-known entry point and invokes it
//! at the first check that finds it; there is no cutoff, so readiness after
//! any delay is still detected. This module states that contract over a
//! trace of per-check observations and proves it.

use vstd::prelude::*;

verus! {

/// The first index at which the readiness trace observes the entry point.
pub open spec fn spec_first_ready(trace: Seq<bool>) -> Option<int>
    decreases trace.len(),
{
    if trace.len() == 0 {
        None
    } else if trace[0] {
        Some(0)
    } else {
        match spec_first_ready(trace.drop_first()) {
            Some(i) => Some(i + 1),
            None => None,
        }
    }
}

/// The check at which the polling protocol invokes the entry point, for a
/// given trace of per-check observations (`true`: the entry point existed at
/// that check). `None` means the trace never showed readiness, and the poll
/// is still waiting: the protocol itself never gives up.
pub fn first_ready_tick(trace: &Vec<bool>) -> (r: Option<usize>)
    ensures
        match r {
            Some(i) => 0 <= i < trace@.len() && trace@[i as int] && (forall|j: int|
                0 <= j < i ==> !trace@[j]),
            None => forall|j: int| 0 <= j < trace@.len() ==> !trace@[j],
        },
{
    let mut i: usize = 0;
    while i < trace.len()
        invariant
            0 <= i <= trace@.len(),
            forall|j: int| 0 <= j < i ==> !trace@[j],
        decreases trace@.len() - i,
    {
        if trace[i] {
            return Some(i);
        }
        i += 1;
    }
    None
}

/// Readiness delayed by any number of checks is still detected: if the entry
/// point appears at check `d`, the poll invokes it exactly there, never
/// having given up earlier.
pub proof fn lemma_poll_detects_delayed_readiness(trace: Seq<bool>, d: int)
    requires
        0 <= d < trace.len(),
        trace[d],
        forall|j: int| 0 <= j < d ==> !trace[j],
    ensures
        spec_first_ready(trace) == Some(d),
    decreases d,
{
    if d == 0 {
    } else {
        assert(forall|j: int| 0 <= j < d - 1 ==> !trace.drop_first()[j]);
        assert(trace.drop_first()[d - 1]);
        lemma_poll_detects_delayed_readiness(trace.drop_first(), d - 1);
    }
}

/// The two characterizations agree: what `first_ready_tick` returns is
/// `spec_first_ready` of the trace.
pub proof fn lemma_first_ready_unique(trace: Seq<bool>)
    ensures
        match spec_first_ready(trace) {
            Some(i) => 0 <= i < trace.len() && trace[i] && (forall|j: int| 0 <= j < i ==> !trace[j]),
            None => forall|j: int| 0 <= j < trace.len() ==> !trace[j],
        },
    decreases trace.len(),
{
    if trace.len() == 0 {
    } else if trace[0] {
    } else {
        let tail = trace.drop_first();
        lemma_first_ready_unique(tail);
        match spec_first_ready(tail) {
            Some(i) => {
                assert(trace[i + 1] == tail[i]);
                assert forall|j: int| 0 <= j < i + 1 implies !trace[j] by {
                    if j > 0 {
                        assert(!tail[j - 1]);
                    }
                }
            },
            None => {
                assert forall|j: int| 0 <= j < trace.len() implies !trace[j] by {
                    if j > 0 {
                        assert(!tail[j - 1]);
                    }
                }
            },
        }
    }
}

} // verus!
