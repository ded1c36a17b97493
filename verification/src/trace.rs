//! Runs of a scheduler: what a sequence of observations leads to.

use vstd::prelude::*;
use crate::event::{Event, Step};
use crate::scheduler::{Observation, Scheduler};

verus! {

/// The instant that the clock read for this observation, if it was read.
pub open spec fn instant<I>(obs: Observation<I>) -> Option<u64> {
    match obs {
        Observation::Frame { now, .. } => Some(now),
        Observation::Deadline { now } => Some(now),
        Observation::Slack { now, .. } => Some(now),
        _ => None,
    }
}

/// The item that the window handed out for this observation, if it was
/// polled and had one.
pub open spec fn polled<I>(obs: Observation<I>) -> Option<I> {
    match obs {
        Observation::Slack { polled, .. } => polled,
        Observation::Drained { polled } => polled,
        _ => None,
    }
}

/// The scheduler that `s` becomes by stepping on each observation in turn.
pub open spec fn run<I>(s: Scheduler, trace: Seq<Observation<I>>) -> Scheduler
    decreases trace.len(),
{
    if trace.len() == 0 {
        s
    } else {
        run(s, trace.drop_last()).after(trace.last())
    }
}

/// What the steps of the run ask of the host, one entry for each observation.
pub open spec fn outcomes<I>(s: Scheduler, trace: Seq<Observation<I>>) -> Seq<Step<I>>
    decreases trace.len(),
{
    if trace.len() == 0 {
        Seq::empty()
    } else {
        outcomes(s, trace.drop_last()).push(run(s, trace.drop_last()).yields(trace.last()))
    }
}

/// The latest instant that the clock has read after this observation, where
/// it had read `t` before.
pub open spec fn tick<I>(t: u64, obs: Observation<I>) -> u64 {
    match instant(obs) {
        Some(now) => now,
        None => t,
    }
}

/// The latest instant that the clock has read at the end of the run, where
/// it had read `t0` before.
pub open spec fn latest<I>(t0: u64, trace: Seq<Observation<I>>) -> u64
    decreases trace.len(),
{
    if trace.len() == 0 {
        t0
    } else {
        tick(latest(t0, trace.drop_last()), trace.last())
    }
}

/// Whether each observation of the run answers what the scheduler asks in
/// the state that the run has reached before it.
pub open spec fn answers<I>(s: Scheduler, trace: Seq<Observation<I>>) -> bool
    decreases trace.len(),
{
    if trace.len() == 0 {
        true
    } else {
        &&& answers(s, trace.drop_last())
        &&& run(s, trace.drop_last()).asks(trace.last())
    }
}

/// Whether the clock never runs backwards in the run: no instant is earlier
/// than the one read before it, nor than `t0`.
pub open spec fn steady<I>(t0: u64, trace: Seq<Observation<I>>) -> bool
    decreases trace.len(),
{
    if trace.len() == 0 {
        true
    } else {
        &&& steady(t0, trace.drop_last())
        &&& (instant(trace.last()) matches Some(now) ==> latest(t0, trace.drop_last()) <= now)
    }
}

/// A run as a host produces it with a clock that never runs backwards.
pub open spec fn orderly<I>(s: Scheduler, t0: u64, trace: Seq<Observation<I>>) -> bool {
    answers(s, trace) && steady(t0, trace)
}

/// The number of update events among `steps`.
pub open spec fn updates<I>(steps: Seq<Step<I>>) -> nat
    decreases steps.len(),
{
    if steps.len() == 0 {
        0
    } else {
        match steps.last() {
            Step::Emit(Event::Update(_)) => updates(steps.drop_last()) + 1,
            _ => updates(steps.drop_last()),
        }
    }
}

/// The items that the window handed out in the run, in the order in which
/// it did.
pub open spec fn handed_out<I>(trace: Seq<Observation<I>>) -> Seq<I>
    decreases trace.len(),
{
    if trace.len() == 0 {
        Seq::empty()
    } else {
        match polled(trace.last()) {
            Some(item) => handed_out(trace.drop_last()).push(item),
            None => handed_out(trace.drop_last()),
        }
    }
}

/// The items of the input events among `steps`, in their order.
pub open spec fn inputs<I>(steps: Seq<Step<I>>) -> Seq<I>
    decreases steps.len(),
{
    if steps.len() == 0 {
        Seq::empty()
    } else {
        match steps.last() {
            Step::Emit(Event::Input(item)) => inputs(steps.drop_last()).push(item),
            _ => inputs(steps.drop_last()),
        }
    }
}

/// A run in two parts is the run of the second part from where the first
/// part ends.
pub proof fn lemma_run_split<I>(
    s: Scheduler,
    t0: u64,
    first: Seq<Observation<I>>,
    second: Seq<Observation<I>>,
)
    ensures
        run(s, first + second) == run(run(s, first), second),
        latest(t0, first + second) == latest(latest(t0, first), second),
        answers(s, first + second) <==> answers(s, first) && answers(run(s, first), second),
        steady(t0, first + second) <==> steady(t0, first) && steady(latest(t0, first), second),
    decreases second.len(),
{
    if second.len() == 0 {
        assert(first + second =~= first);
    } else {
        let whole = first + second;
        assert(whole.drop_last() =~= first + second.drop_last());
        assert(whole.last() == second.last());
        lemma_run_split(s, t0, first, second.drop_last());
    }
}

/// A run has one outcome for each observation.
pub proof fn lemma_outcomes_len<I>(s: Scheduler, trace: Seq<Observation<I>>)
    ensures
        outcomes(s, trace).len() == trace.len(),
    decreases trace.len(),
{
    if trace.len() > 0 {
        lemma_outcomes_len(s, trace.drop_last());
    }
}

/// The outcome of an observation is what the scheduler that the run reached
/// before it yields on it.
pub proof fn lemma_outcome_at<I>(s: Scheduler, trace: Seq<Observation<I>>, i: int)
    requires
        0 <= i < trace.len(),
    ensures
        outcomes(s, trace).len() == trace.len(),
        outcomes(s, trace)[i] == run(s, trace.take(i)).yields(trace[i]),
    decreases trace.len(),
{
    let before = trace.drop_last();
    lemma_outcomes_len(s, trace);
    lemma_outcomes_len(s, before);
    if i == trace.len() - 1 {
        assert(trace.take(i) =~= before);
    } else {
        lemma_outcome_at(s, before, i);
        assert(before.take(i) =~= trace.take(i));
    }
}

/// A run is the run of its first `i` observations and then of the others,
/// and it is orderly where both parts are.
pub proof fn lemma_run_parts<I>(s: Scheduler, t0: u64, trace: Seq<Observation<I>>, i: int)
    requires
        0 <= i <= trace.len(),
    ensures
        run(s, trace) == run(run(s, trace.take(i)), trace.skip(i)),
        latest(t0, trace) == latest(latest(t0, trace.take(i)), trace.skip(i)),
        answers(s, trace) <==> answers(s, trace.take(i)) && answers(
            run(s, trace.take(i)),
            trace.skip(i),
        ),
        steady(t0, trace) <==> steady(t0, trace.take(i)) && steady(
            latest(t0, trace.take(i)),
            trace.skip(i),
        ),
{
    assert(trace.take(i) + trace.skip(i) =~= trace);
    lemma_run_split(s, t0, trace.take(i), trace.skip(i));
}

} // verus!
