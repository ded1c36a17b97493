//! The state machine that decides, from the clock and from what the window
//! answers, which event comes next.
//!
//! The machine itself consults nothing. Each step takes one [`Observation`]:
//! what the clock and the window gave when they were asked what the current
//! state needs to know.

use vstd::prelude::*;
use crate::config::{
    interval_ns, valid_rate, ConfigurationError, MaxFps, Ups, BILLION, DEFAULT_MAX_FPS,
    DEFAULT_UPS,
};
use crate::event::{Event, IdleArgs, RenderArgs, Step, UpdateArgs};

verus! {

/// Tells whether the last emitted event was idle or not.
#[derive(Clone, Copy, Debug, PartialEq, Eq)]
pub enum Idle {
    /// Something other than an idle event came last.
    No,
    /// An idle event came last.
    Yes,
}

/// The states of the machine.
#[derive(Clone, Copy, Debug, PartialEq, Eq)]
pub enum State {
    /// A frame is due: ask the window whether to go on, and start the frame.
    Render,
    /// The frame was drawn: present it.
    PresentFrame,
    /// Wait for the next deadline, handing out input and idle time meanwhile.
    UpdateLoop(Idle),
    /// An update is due: hand out all pending input first.
    DrainInput,
    /// Commit the update.
    Update,
}

/// What the clock and the window gave in one step.
#[derive(Clone, Copy, Debug, PartialEq, Eq)]
pub enum Observation<I> {
    /// In `Render`: the window wants to close.
    Closing,
    /// In `Render`: the window stays open. The clock read `now` and the
    /// drawable area is `size[0]` wide and `size[1]` high.
    Frame { now: u64, size: [u32; 2] },
    /// In `PresentFrame`: the window presented its buffer.
    Presented,
    /// In `UpdateLoop`: the clock read `now`, at which a deadline has arrived.
    /// The window was not polled.
    Deadline { now: u64 },
    /// In `UpdateLoop`: the clock read `now`, before any deadline, and the
    /// window was polled.
    Slack { now: u64, polled: Option<I> },
    /// In `DrainInput`: the window was polled.
    Drained { polled: Option<I> },
    /// In `Update`: nothing is consulted.
    Nothing,
}

/// The timing bookkeeping and the state of an event loop.
///
/// Instants are nanoseconds on the clock that feeds the observations.
#[derive(Clone, Copy, Debug, PartialEq, Eq)]
pub struct Scheduler {
    /// The state that the next step starts from.
    pub state: State,
    /// The instant up to which updates have been committed.
    pub last_update: u64,
    /// The instant at which the last frame started.
    pub last_frame: u64,
    /// The nanoseconds between two updates.
    pub dt_update_in_ns: u64,
    /// The least nanoseconds between two frame starts.
    pub dt_frame_in_ns: u64,
    /// The updates per second.
    pub updates_per_second: u64,
    /// The most frames per second.
    pub max_frames_per_second: u64,
}

/// The value within `u64` that is nearest to `x`.
pub open spec fn clip(x: int) -> u64 {
    if x < 0 {
        0
    } else if x > u64::MAX {
        u64::MAX
    } else {
        x as u64
    }
}

/// Whether an area of this size can be drawn to: neither dimension is zero.
pub open spec fn drawable(size: [u32; 2]) -> bool {
    size[0] != 0 && size[1] != 0
}

impl Scheduler {
    /// The rates are valid, and the intervals are those of the rates and not
    /// zero.
    pub open spec fn wf(self) -> bool {
        &&& valid_rate(self.updates_per_second)
        &&& valid_rate(self.max_frames_per_second)
        &&& self.dt_update_in_ns == interval_ns(self.updates_per_second)
        &&& self.dt_frame_in_ns == interval_ns(self.max_frames_per_second)
        &&& self.dt_update_in_ns > 0
        &&& self.dt_frame_in_ns > 0
    }

    /// The scheduler that is made at instant `start` for the given rates: a
    /// frame is due at once, and updates are committed up to `start`.
    pub open spec fn fresh(start: u64, ups: u64, max_fps: u64) -> Scheduler {
        Scheduler {
            state: State::Render,
            last_update: start,
            last_frame: start,
            dt_update_in_ns: interval_ns(ups),
            dt_frame_in_ns: interval_ns(max_fps),
            updates_per_second: ups,
            max_frames_per_second: max_fps,
        }
    }

    /// This scheduler with `ups` updates per second.
    pub open spec fn with_ups(self, ups: u64) -> Scheduler {
        Scheduler { updates_per_second: ups, dt_update_in_ns: interval_ns(ups), ..self }
    }

    /// This scheduler with at most `max_fps` frames per second.
    pub open spec fn with_max_fps(self, max_fps: u64) -> Scheduler {
        Scheduler { max_frames_per_second: max_fps, dt_frame_in_ns: interval_ns(max_fps), ..self }
    }

    /// The instant at which the next frame may start.
    pub open spec fn next_frame(self) -> int {
        self.last_frame + self.dt_frame_in_ns
    }

    /// The instant at which the next update is due.
    pub open spec fn next_update(self) -> int {
        self.last_update + self.dt_update_in_ns
    }

    /// The earlier of the two deadlines.
    pub open spec fn next_event(self) -> int {
        if self.next_frame() <= self.next_update() {
            self.next_frame()
        } else {
            self.next_update()
        }
    }

    /// The nanoseconds from `now` to the next deadline: positive while slack
    /// remains.
    pub open spec fn slack(self, now: u64) -> int {
        self.next_event() - now
    }

    /// Whether the scheduler is not ahead of a clock that reads `now`: no
    /// frame has started and no update is committed beyond `now`, and an
    /// update that is being committed was due by `now`.
    pub open spec fn on_time(self, now: u64) -> bool {
        &&& self.last_update <= now
        &&& self.last_frame <= now
        &&& (self.state == State::DrainInput || self.state == State::Update)
            ==> self.next_update() <= now
    }

    /// Whether a frame that is about to start was due by `now`.
    pub open spec fn paced(self, now: u64) -> bool {
        self.state == State::Render ==> self.next_frame() <= now
    }

    /// Whether `obs` answers what the current state asks.
    pub open spec fn asks<I>(self, obs: Observation<I>) -> bool {
        match (self.state, obs) {
            (State::Render, Observation::Closing) => true,
            (State::Render, Observation::Frame { .. }) => true,
            (State::PresentFrame, Observation::Presented) => true,
            (State::UpdateLoop(_), Observation::Deadline { now }) => self.slack(now) <= 0,
            (State::UpdateLoop(_), Observation::Slack { now, .. }) => self.slack(now) > 0,
            (State::DrainInput, Observation::Drained { .. }) => true,
            (State::Update, Observation::Nothing) => true,
            _ => false,
        }
    }

    /// The scheduler after a step that observed `obs`. An observation that
    /// the state does not ask for changes nothing.
    pub open spec fn after<I>(self, obs: Observation<I>) -> Scheduler {
        if !self.asks(obs) {
            self
        } else {
            match obs {
                Observation::Closing => self,
                Observation::Frame { now, size } => Scheduler {
                    state: if drawable(size) {
                        State::PresentFrame
                    } else {
                        State::UpdateLoop(Idle::No)
                    },
                    last_frame: now,
                    ..self
                },
                Observation::Presented => Scheduler { state: State::UpdateLoop(Idle::No), ..self },
                Observation::Deadline { now } => Scheduler {
                    state: if self.next_event() == self.next_frame() {
                        State::Render
                    } else {
                        State::DrainInput
                    },
                    ..self
                },
                Observation::Slack { now, polled } => Scheduler {
                    state: if polled is None && self.state == State::UpdateLoop(Idle::No) {
                        State::UpdateLoop(Idle::Yes)
                    } else {
                        State::UpdateLoop(Idle::No)
                    },
                    ..self
                },
                Observation::Drained { polled } => Scheduler {
                    state: if polled is Some {
                        State::DrainInput
                    } else {
                        State::Update
                    },
                    ..self
                },
                Observation::Nothing => Scheduler {
                    state: State::UpdateLoop(Idle::No),
                    last_update: clip(self.next_update()),
                    ..self
                },
            }
        }
    }

    /// What a step that observed `obs` asks of the host. For an observation
    /// that the state does not ask for this is `Continue`.
    pub open spec fn yields<I>(self, obs: Observation<I>) -> Step<I> {
        if !self.asks(obs) {
            Step::Continue
        } else {
            match obs {
                Observation::Closing => Step::End,
                Observation::Frame { now, size } => if drawable(size) {
                    Step::Emit(
                        Event::Render(
                            RenderArgs {
                                ext_dt_ns: clip(now - self.last_update),
                                width: size[0],
                                height: size[1],
                            },
                        ),
                    )
                } else {
                    Step::Continue
                },
                Observation::Presented => Step::Continue,
                Observation::Deadline { now } => Step::Continue,
                Observation::Slack { now, polled } => match polled {
                    Some(input) => Step::Emit(Event::Input(input)),
                    None => if self.state == State::UpdateLoop(Idle::No) {
                        Step::Emit(Event::Idle(IdleArgs { dt_ns: clip(self.slack(now)) }))
                    } else {
                        Step::Sleep(clip(self.slack(now)))
                    },
                },
                Observation::Drained { polled } => match polled {
                    Some(input) => Step::Emit(Event::Input(input)),
                    None => Step::Continue,
                },
                Observation::Nothing => Step::Emit(
                    Event::Update(UpdateArgs { updates_per_second: self.updates_per_second }),
                ),
            }
        }
    }

    /// A scheduler that starts at instant `start` with the default rates:
    /// 120 updates and at most 60 frames per second.
    pub fn new(start: u64) -> (s: Scheduler)
        ensures
            s == Scheduler::fresh(start, DEFAULT_UPS, DEFAULT_MAX_FPS),
            s.dt_update_in_ns == 8_333_333,
            s.dt_frame_in_ns == 16_666_666,
            s.wf(),
            s.on_time(start),
    {
        assert(BILLION / DEFAULT_UPS == 8_333_333 && BILLION / DEFAULT_MAX_FPS == 16_666_666)
            by (nonlinear_arith)
            requires
                BILLION == 1_000_000_000,
                DEFAULT_UPS == 120,
                DEFAULT_MAX_FPS == 60,
        ;
        Scheduler {
            state: State::Render,
            last_update: start,
            last_frame: start,
            dt_update_in_ns: BILLION / DEFAULT_UPS,
            dt_frame_in_ns: BILLION / DEFAULT_MAX_FPS,
            updates_per_second: DEFAULT_UPS,
            max_frames_per_second: DEFAULT_MAX_FPS,
        }
    }

    /// A scheduler that starts at instant `start` with the given rates, or
    /// the reason why a rate is turned down: that of `ups` where both are.
    /// No scheduler is made of a rate that is zero or above one billion.
    pub fn with_rates(start: u64, ups: Ups, max_fps: MaxFps) -> (r: Result<
        Scheduler,
        ConfigurationError,
    >)
        ensures
            valid_rate(ups.0) && valid_rate(max_fps.0) ==> r == Ok::<Scheduler, ConfigurationError>(
                Scheduler::fresh(start, ups.0, max_fps.0),
            ),
            ups.refusal() matches Some(e) ==> r == Err::<Scheduler, ConfigurationError>(e),
            valid_rate(ups.0) ==> (max_fps.refusal() matches Some(e) ==> r == Err::<
                Scheduler,
                ConfigurationError,
            >(e)),
            r matches Ok(s) ==> s.wf() && s.on_time(start),
    {
        let dt_update_in_ns = match ups.interval() {
            Ok(interval) => interval,
            Err(e) => { return Err(e); },
        };
        let dt_frame_in_ns = match max_fps.interval() {
            Ok(interval) => interval,
            Err(e) => { return Err(e); },
        };
        Ok(
            Scheduler {
                state: State::Render,
                last_update: start,
                last_frame: start,
                dt_update_in_ns,
                dt_frame_in_ns,
                updates_per_second: ups.0,
                max_frames_per_second: max_fps.0,
            },
        )
    }

    /// Sets the updates per second. A rate that is zero or above one billion
    /// is turned down.
    pub fn set_ups(self, ups: Ups) -> (r: Result<Scheduler, ConfigurationError>)
        ensures
            valid_rate(ups.0) ==> r == Ok::<Scheduler, ConfigurationError>(self.with_ups(ups.0)),
            ups.0 == 0 ==> r == Err::<Scheduler, ConfigurationError>(
                ConfigurationError::ZeroUpdatesPerSecond,
            ),
            ups.0 > BILLION ==> r == Err::<Scheduler, ConfigurationError>(
                ConfigurationError::UpdatesPerSecondTooHigh,
            ),
            r matches Ok(s) ==> s.dt_update_in_ns > 0,
            self.wf() ==> (r matches Ok(s) ==> s.wf()),
    {
        match ups.interval() {
            Ok(interval) => Ok(
                Scheduler { updates_per_second: ups.0, dt_update_in_ns: interval, ..self },
            ),
            Err(e) => Err(e),
        }
    }

    /// Sets the most frames per second. A rate that is zero or above one
    /// billion is turned down.
    pub fn set_max_fps(self, max_fps: MaxFps) -> (r: Result<Scheduler, ConfigurationError>)
        ensures
            valid_rate(max_fps.0) ==> r == Ok::<Scheduler, ConfigurationError>(
                self.with_max_fps(max_fps.0),
            ),
            max_fps.0 == 0 ==> r == Err::<Scheduler, ConfigurationError>(
                ConfigurationError::ZeroMaxFramesPerSecond,
            ),
            max_fps.0 > BILLION ==> r == Err::<Scheduler, ConfigurationError>(
                ConfigurationError::MaxFramesPerSecondTooHigh,
            ),
            r matches Ok(s) ==> s.dt_frame_in_ns > 0,
            self.wf() ==> (r matches Ok(s) ==> s.wf()),
    {
        match max_fps.interval() {
            Ok(interval) => Ok(
                Scheduler { max_frames_per_second: max_fps.0, dt_frame_in_ns: interval, ..self },
            ),
            Err(e) => Err(e),
        }
    }

    /// The nanoseconds from `now` to the next deadline, if slack remains.
    pub fn remaining(&self, now: u64) -> (r: Option<u64>)
        ensures
            self.slack(now) > 0 ==> r == Some(clip(self.slack(now))),
            self.slack(now) <= 0 ==> r is None,
    {
        let next_frame: u128 = self.last_frame as u128 + self.dt_frame_in_ns as u128;
        let next_update: u128 = self.last_update as u128 + self.dt_update_in_ns as u128;
        let next_event: u128 = if next_frame <= next_update {
            next_frame
        } else {
            next_update
        };
        if next_event > now as u128 {
            let slack: u128 = next_event - now as u128;
            if slack > u64::MAX as u128 {
                Some(u64::MAX)
            } else {
                Some(slack as u64)
            }
        } else {
            None
        }
    }

    /// Whether the frame deadline is the earlier one, or both come together.
    fn frame_comes_first(&self) -> (r: bool)
        ensures
            r == (self.next_event() == self.next_frame()),
    {
        self.last_frame as u128 + self.dt_frame_in_ns as u128 <= self.last_update as u128
            + self.dt_update_in_ns as u128
    }

    /// Takes one step on the observation `obs`.
    ///
    /// Where `obs` answers what the state asks, the scheduler moves on and the
    /// result says what the host is to do. Any other observation is handed
    /// back and the scheduler stays as it is.
    pub fn advance<I>(&mut self, obs: Observation<I>) -> (r: Result<Step<I>, Observation<I>>)
        ensures
            old(self).asks(obs) ==> r == Ok::<Step<I>, Observation<I>>(old(self).yields(obs)),
            !old(self).asks(obs) ==> r == Err::<Step<I>, Observation<I>>(obs),
            *final(self) == old(self).after(obs),
            old(self).wf() ==> final(self).wf(),
    {
        match (self.state, obs) {
            (State::Render, Observation::Closing) => Ok(Step::End),
            (State::Render, Observation::Frame { now, size }) => {
                self.last_frame = now;
                if size[0] != 0 && size[1] != 0 {
                    self.state = State::PresentFrame;
                    Ok(
                        Step::Emit(
                            Event::Render(
                                RenderArgs {
                                    ext_dt_ns: now.saturating_sub(self.last_update),
                                    width: size[0],
                                    height: size[1],
                                },
                            ),
                        ),
                    )
                } else {
                    self.state = State::UpdateLoop(Idle::No);
                    Ok(Step::Continue)
                }
            },
            (State::PresentFrame, Observation::Presented) => {
                self.state = State::UpdateLoop(Idle::No);
                Ok(Step::Continue)
            },
            (State::UpdateLoop(idle), Observation::Deadline { now }) => {
                match self.remaining(now) {
                    Some(_) => Err(Observation::Deadline { now }),
                    None => {
                        if self.frame_comes_first() {
                            self.state = State::Render;
                        } else {
                            self.state = State::DrainInput;
                        }
                        Ok(Step::Continue)
                    },
                }
            },
            (State::UpdateLoop(idle), Observation::Slack { now, polled }) => {
                match self.remaining(now) {
                    None => Err(Observation::Slack { now, polled }),
                    Some(slack) => match polled {
                        Some(input) => {
                            self.state = State::UpdateLoop(Idle::No);
                            Ok(Step::Emit(Event::Input(input)))
                        },
                        None => match idle {
                            Idle::No => {
                                self.state = State::UpdateLoop(Idle::Yes);
                                Ok(Step::Emit(Event::Idle(IdleArgs { dt_ns: slack })))
                            },
                            Idle::Yes => {
                                self.state = State::UpdateLoop(Idle::No);
                                Ok(Step::Sleep(slack))
                            },
                        },
                    },
                }
            },
            (State::DrainInput, Observation::Drained { polled }) => match polled {
                Some(input) => Ok(Step::Emit(Event::Input(input))),
                None => {
                    self.state = State::Update;
                    Ok(Step::Continue)
                },
            },
            (State::Update, Observation::Nothing) => {
                self.state = State::UpdateLoop(Idle::No);
                self.last_update = self.last_update.saturating_add(self.dt_update_in_ns);
                Ok(Step::Emit(Event::Update(UpdateArgs { updates_per_second: self.updates_per_second })))
            },
            (_, obs) => Err(obs),
        }
    }
}

} // verus!
