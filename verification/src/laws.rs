//! What holds of every run of a scheduler.

use vstd::prelude::*;
use crate::event::{Event, IdleArgs, Step};
use crate::scheduler::{clip, drawable, Idle, Observation, Scheduler, State};
use crate::trace::{
    answers, handed_out, inputs, instant, latest, lemma_outcome_at, lemma_run_parts, orderly,
    outcomes, run, tick, updates,
};

verus! {

/// A step changes neither the rates nor the intervals.
pub proof fn law_step_keeps_rates<I>(s: Scheduler, obs: Observation<I>)
    ensures
        s.after(obs).updates_per_second == s.updates_per_second,
        s.after(obs).max_frames_per_second == s.max_frames_per_second,
        s.after(obs).dt_update_in_ns == s.dt_update_in_ns,
        s.after(obs).dt_frame_in_ns == s.dt_frame_in_ns,
        s.wf() ==> s.after(obs).wf(),
{
}

/// A run changes neither the rates nor the intervals.
pub proof fn law_run_keeps_rates<I>(s: Scheduler, trace: Seq<Observation<I>>)
    ensures
        run(s, trace).updates_per_second == s.updates_per_second,
        run(s, trace).max_frames_per_second == s.max_frames_per_second,
        run(s, trace).dt_update_in_ns == s.dt_update_in_ns,
        run(s, trace).dt_frame_in_ns == s.dt_frame_in_ns,
        s.wf() ==> run(s, trace).wf(),
    decreases trace.len(),
{
    if trace.len() > 0 {
        law_run_keeps_rates(s, trace.drop_last());
        law_step_keeps_rates(run(s, trace.drop_last()), trace.last());
    }
}

/// With a clock that never runs backwards a scheduler never gets ahead of it:
/// one that is not ahead of the instant `t` is not ahead of a later instant
/// at which it takes a step.
pub proof fn law_step_on_time<I>(s: Scheduler, t: u64, obs: Observation<I>)
    requires
        s.on_time(t),
        s.asks(obs),
        instant(obs) matches Some(now) ==> t <= now,
    ensures
        s.after(obs).on_time(tick(t, obs)),
        t <= tick(t, obs),
{
}

/// With a clock that never runs backwards no run gets ahead of it.
pub proof fn law_run_on_time<I>(s: Scheduler, t0: u64, trace: Seq<Observation<I>>)
    requires
        s.on_time(t0),
        orderly(s, t0, trace),
    ensures
        run(s, trace).on_time(latest(t0, trace)),
        t0 <= latest(t0, trace),
    decreases trace.len(),
{
    if trace.len() > 0 {
        let before = trace.drop_last();
        law_run_on_time(s, t0, before);
        law_step_on_time(run(s, before), latest(t0, before), trace.last());
    }
}

/// With a clock that never runs backwards, the extrapolated time of every
/// render event is what has passed from the last update to the start of the
/// frame, and is not negative.
pub proof fn law_extrapolation<I>(s: Scheduler, t0: u64, trace: Seq<Observation<I>>, i: int)
    requires
        s.on_time(t0),
        orderly(s, t0, trace),
        0 <= i < trace.len(),
        outcomes(s, trace)[i] is Emit,
        outcomes(s, trace)[i]->Emit_0 is Render,
    ensures
        trace[i] is Frame,
        run(s, trace.take(i)).last_update <= trace[i]->Frame_now,
        outcomes(s, trace)[i]->Emit_0->Render_0.ext_dt_ns == trace[i]->Frame_now - run(
            s,
            trace.take(i),
        ).last_update,
{
    lemma_outcome_at(s, trace, i);
    lemma_run_parts(s, t0, trace, i);
    lemma_run_parts(s, t0, trace, i + 1);
    law_run_on_time(s, t0, trace.take(i));
    assert(trace.take(i + 1).drop_last() =~= trace.take(i));
    assert(trace.take(i + 1).last() == trace[i]);
}

/// The time that an idle event or a wait names is never zero: both come only
/// while slack remains.
pub proof fn law_slack_positive<I>(s: Scheduler, now: u64)
    requires
        s.asks(Observation::<I>::Slack { now, polled: None }),
    ensures
        clip(s.slack(now)) > 0,
        s.yields(Observation::<I>::Slack { now, polled: None }) == Step::<I>::Emit(
            Event::Idle(IdleArgs { dt_ns: clip(s.slack(now)) }),
        ) || s.yields(Observation::<I>::Slack { now, polled: None }) == Step::<I>::Sleep(
            clip(s.slack(now)),
        ),
{
}

/// With a clock that never runs backwards, the time that an idle event or a
/// wait names is exactly what is left to the next deadline, and never more
/// than an interval: a wait ends at the deadline.
pub proof fn law_slack_exact<I>(s: Scheduler, t: u64, now: u64, polled: Option<I>)
    requires
        s.on_time(t),
        t <= now,
        s.asks(Observation::Slack { now, polled }),
    ensures
        0 < s.slack(now) <= s.dt_update_in_ns,
        s.slack(now) <= s.dt_frame_in_ns,
        clip(s.slack(now)) == s.slack(now),
        now + clip(s.slack(now)) == s.next_event(),
{
}

/// Each update event moves the scheduler on by one update interval. With a
/// clock that never runs backwards, the updates of a run never reach beyond
/// the clock, and whenever the scheduler finds slack, they are all the whole
/// intervals that have passed.
pub proof fn law_update_count<I>(s: Scheduler, t0: u64, trace: Seq<Observation<I>>)
    requires
        s.on_time(t0),
        orderly(s, t0, trace),
    ensures
        run(s, trace).last_update == s.last_update + updates(outcomes(s, trace))
            * s.dt_update_in_ns,
        s.last_update + updates(outcomes(s, trace)) * s.dt_update_in_ns <= latest(t0, trace),
        trace.len() > 0 && trace.last() is Slack ==> latest(t0, trace) < s.last_update + (updates(
            outcomes(s, trace),
        ) + 1) * s.dt_update_in_ns,
    decreases trace.len(),
{
    let dt = s.dt_update_in_ns as int;
    if trace.len() == 0 {
        assert(0 * dt == 0);
    } else {
        let before = trace.drop_last();
        let k = updates(outcomes(s, before)) as int;
        law_update_count(s, t0, before);
        law_run_on_time(s, t0, before);
        law_run_on_time(s, t0, trace);
        law_run_keeps_rates(s, before);
        assert((k + 1) * dt == k * dt + dt) by (nonlinear_arith);
        let reached = run(s, before);
        assert(outcomes(s, trace).drop_last() =~= outcomes(s, before));
        assert(outcomes(s, trace).last() == reached.yields(trace.last()));
        if trace.last() == Observation::<I>::Nothing {
            assert(updates(outcomes(s, trace)) == k + 1);
            assert(run(s, trace).last_update == reached.last_update + dt);
        } else {
            assert(updates(outcomes(s, trace)) == k);
            assert(run(s, trace).last_update == reached.last_update);
        }
    }
}

/// A well-formed scheduler makes headway: with a clock that never runs
/// backwards, each update that it commits moves it on by an interval that is
/// not zero, so that it cannot go on committing updates at one instant.
pub proof fn law_update_moves_on<I>(s: Scheduler, t: u64)
    requires
        s.wf(),
        s.on_time(t),
        s.state == State::Update,
    ensures
        s.after(Observation::<I>::Nothing).last_update == s.last_update + s.dt_update_in_ns,
        s.after(Observation::<I>::Nothing).last_update > s.last_update,
        s.after(Observation::<I>::Nothing).wf(),
{
}

/// Each update event carries the rate that the scheduler was made with: its
/// step is one second divided by that rate.
pub proof fn law_update_carries_rate<I>(s: Scheduler, trace: Seq<Observation<I>>, i: int)
    requires
        0 <= i < trace.len(),
        outcomes(s, trace)[i] is Emit,
        outcomes(s, trace)[i]->Emit_0 is Update,
    ensures
        outcomes(s, trace)[i]->Emit_0->Update_0.updates_per_second == s.updates_per_second,
{
    lemma_outcome_at(s, trace, i);
    law_run_keeps_rates(s, trace.take(i));
}

/// A step keeps the pace of frames: where a frame that is about to start was
/// due, the same holds after the step, and the start of the last frame never
/// moves back.
pub proof fn law_step_paced<I>(s: Scheduler, t: u64, obs: Observation<I>)
    requires
        s.paced(t),
        s.asks(obs),
        instant(obs) matches Some(now) ==> t <= now,
    ensures
        s.after(obs).paced(tick(t, obs)),
        s.after(obs).last_frame >= s.last_frame,
        t <= tick(t, obs),
        obs matches Observation::Frame { now, .. } ==> now >= s.next_frame(),
{
}

/// A run keeps the pace of frames.
pub proof fn law_run_paced<I>(s: Scheduler, t0: u64, trace: Seq<Observation<I>>)
    requires
        s.paced(t0),
        orderly(s, t0, trace),
    ensures
        run(s, trace).paced(latest(t0, trace)),
        run(s, trace).last_frame >= s.last_frame,
        t0 <= latest(t0, trace),
    decreases trace.len(),
{
    if trace.len() > 0 {
        let before = trace.drop_last();
        law_run_paced(s, t0, before);
        law_step_paced(run(s, before), latest(t0, before), trace.last());
    }
}

/// With a clock that never runs backwards, two frames of a run start at
/// least one frame interval apart.
pub proof fn law_frame_cap<I>(s: Scheduler, t0: u64, trace: Seq<Observation<I>>, i: int, j: int)
    requires
        orderly(s, t0, trace),
        0 <= i < j < trace.len(),
        trace[i] is Frame,
        trace[j] is Frame,
    ensures
        trace[j]->Frame_now - trace[i]->Frame_now >= s.dt_frame_in_ns,
{
    let a = trace[i]->Frame_now;
    let b = trace[j]->Frame_now;
    let upto = trace.take(j + 1);
    lemma_run_parts(s, t0, trace, j + 1);
    // The run up to and with the first of the two frames.
    lemma_run_parts(s, t0, upto, i + 1);
    let first = upto.take(i + 1);
    assert(first.last() == trace[i]);
    let s1 = run(s, first);
    let t1 = latest(t0, first);
    assert(s1.last_frame == a && s1.state != State::Render && t1 == a);
    // The run from there to the second frame.
    let rest = upto.skip(i + 1);
    assert(rest.last() == trace[j]);
    let between = rest.drop_last();
    law_run_paced(s1, t1, between);
    law_run_keeps_rates(s, first);
    law_run_keeps_rates(s1, between);
    law_step_paced(run(s1, between), latest(t1, between), trace[j]);
}

/// A window that cannot be drawn to gets no render event and is not
/// presented: the frame is skipped, and the next one waits for its deadline.
pub proof fn law_hidden_frame_skipped<I>(s: Scheduler, now: u64, size: [u32; 2])
    requires
        s.state == State::Render,
        !drawable(size),
    ensures
        s.yields(Observation::<I>::Frame { now, size }) == Step::<I>::Continue,
        s.after(Observation::<I>::Frame { now, size }).state == State::UpdateLoop(Idle::No),
        s.after(Observation::<I>::Frame { now, size }).last_frame == now,
{
}

/// Input is neither dropped nor reordered: the input events of a run are
/// the items that the window handed out, each in the step that polled it.
pub proof fn law_inputs_in_order<I>(s: Scheduler, trace: Seq<Observation<I>>)
    requires
        answers(s, trace),
    ensures
        inputs(outcomes(s, trace)) == handed_out(trace),
    decreases trace.len(),
{
    if trace.len() > 0 {
        law_inputs_in_order(s, trace.drop_last());
        assert(outcomes(s, trace).drop_last() =~= outcomes(s, trace.drop_last()));
    }
}

/// Input comes before the update: an update is committed only when the
/// window, polled in the step before, had nothing left to hand out.
pub proof fn law_update_after_drain<I>(s: Scheduler, trace: Seq<Observation<I>>, i: int)
    requires
        answers(s, trace),
        0 < i < trace.len(),
        outcomes(s, trace)[i] is Emit,
        outcomes(s, trace)[i]->Emit_0 is Update,
    ensures
        trace[i - 1] == (Observation::<I>::Drained { polled: None }),
        run(s, trace.take(i - 1)).state == State::DrainInput,
{
    lemma_outcome_at(s, trace, i);
    lemma_run_parts(s, 0, trace, i);
    lemma_run_parts(s, 0, trace, i + 1);
    let upto = trace.take(i);
    assert(trace.take(i + 1).drop_last() =~= upto);
    assert(trace.take(i + 1).last() == trace[i]);
    assert(upto.drop_last() =~= trace.take(i - 1));
    assert(upto.last() == trace[i - 1]);
}

/// While the window hands out items in `DrainInput`, each comes out as an
/// input event and nothing else moves: the update is not committed before
/// the window has nothing left.
pub proof fn law_drain_holds_update<I>(s: Scheduler, item: I)
    requires
        s.state == State::DrainInput,
    ensures
        s.yields(Observation::Drained { polled: Some(item) }) == Step::Emit(Event::Input(item)),
        s.after(Observation::Drained { polled: Some(item) }) == s,
{
}

/// Of two steps in a row that find slack and no input, at most one emits an
/// idle event. After an idle event the scheduler asks for a wait up to the
/// deadline; only after the wait can it report idle again.
pub proof fn law_idle_once<I>(s: Scheduler, now1: u64, now2: u64)
    requires
        s.asks(Observation::<I>::Slack { now: now1, polled: None }),
        s.after(Observation::<I>::Slack { now: now1, polled: None }).asks(
            Observation::<I>::Slack { now: now2, polled: None },
        ),
    ensures
        ({
            let first = Observation::<I>::Slack { now: now1, polled: None };
            let second = Observation::<I>::Slack { now: now2, polled: None };
            let idle1 = Step::<I>::Emit(Event::Idle(IdleArgs { dt_ns: clip(s.slack(now1)) }));
            let idle2 = Step::<I>::Emit(Event::Idle(IdleArgs { dt_ns: clip(s.slack(now2)) }));
            let wait1 = Step::<I>::Sleep(clip(s.slack(now1)));
            let wait2 = Step::<I>::Sleep(clip(s.slack(now2)));
            if s.state == State::UpdateLoop(Idle::No) {
                s.yields(first) == idle1 && s.after(first).yields(second) == wait2
            } else {
                s.yields(first) == wait1 && s.after(first).yields(second) == idle2
            }
        }),
{
}

/// In `Render`, a window that wants to close ends the sequence and leaves the
/// scheduler as it is, so that every later step that finds the window closing
/// ends the sequence again. The sequence ends in no other way.
pub proof fn law_close_ends<I>(s: Scheduler, obs: Observation<I>)
    ensures
        s.state == State::Render ==> s.yields(Observation::<I>::Closing) == Step::<I>::End
            && s.after(Observation::<I>::Closing) == s,
        s.yields(obs) == Step::<I>::End <==> s.state == State::Render && obs
            == Observation::<I>::Closing,
{
}

} // verus!
