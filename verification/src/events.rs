//! The event loop: a scheduler bound to a window and to the wall clock.

use vstd::prelude::*;
use crate::clock::precise_time_ns;
use crate::config::{
    valid_rate, ConfigurationError, MaxFps, Ups, BILLION, DEFAULT_MAX_FPS, DEFAULT_UPS,
};
use crate::event::Step;
use crate::scheduler::{Observation, Scheduler, State};
use crate::window::Window;

verus! {

/// An event loop over the window `W`.
///
/// *Warning: because the loop polls events from the window back-end, it must
/// be used on the same thread as the window back-end (usually the main
/// thread), unless the back-end supports polling from several threads.*
pub struct Events<W: Window> {
    /// The window that is asked and polled.
    pub window: W,
    /// The timing and the state of the loop.
    pub scheduler: Scheduler,
}

/// Whether the window was acted on to get this observation: it presented a
/// frame or it was polled.
pub open spec fn acts_on_window<I>(obs: Observation<I>) -> bool {
    obs is Presented || obs is Slack || obs is Drained
}

impl<W: Window> Events<W> {
    /// Creates a new event loop with the default rates. It starts at the
    /// instant that the clock reads now.
    pub fn new(window: W) -> (events: Events<W>)
        ensures
            events.window == window,
            exists|start: u64|
                events.scheduler == #[trigger] Scheduler::fresh(
                    start,
                    DEFAULT_UPS,
                    DEFAULT_MAX_FPS,
                ),
            events.scheduler.dt_update_in_ns == 8_333_333,
            events.scheduler.dt_frame_in_ns == 16_666_666,
            events.scheduler.wf(),
    {
        let start = precise_time_ns();
        let scheduler = Scheduler::new(start);
        Events { window, scheduler }
    }

    /// Creates a new event loop with the given rates, or says why a rate is
    /// turned down: that of `ups` where both are. The rates are looked at
    /// before the clock is read, and no event loop is made of a rate that is
    /// zero or above one billion.
    pub fn with_rates(window: W, ups: Ups, max_fps: MaxFps) -> (r: Result<
        Events<W>,
        ConfigurationError,
    >)
        ensures
            valid_rate(ups.0) && valid_rate(max_fps.0) ==> r is Ok && r->Ok_0.window == window
                && exists|start: u64|
                r->Ok_0.scheduler == #[trigger] Scheduler::fresh(start, ups.0, max_fps.0),
            ups.refusal() matches Some(e) ==> r == Err::<Events<W>, ConfigurationError>(e),
            valid_rate(ups.0) ==> (max_fps.refusal() matches Some(e) ==> r == Err::<
                Events<W>,
                ConfigurationError,
            >(e)),
            r matches Ok(events) ==> events.scheduler.wf(),
    {
        if let Err(e) = ups.interval() {
            return Err(e);
        }
        if let Err(e) = max_fps.interval() {
            return Err(e);
        }
        let start = precise_time_ns();
        match Scheduler::with_rates(start, ups, max_fps) {
            Ok(scheduler) => Ok(Events { window, scheduler }),
            Err(e) => Err(e),
        }
    }

    /// Sets the updates per second. A rate that is zero or above one billion
    /// is turned down, and no event loop is left.
    pub fn set_ups(self, ups: Ups) -> (r: Result<Events<W>, ConfigurationError>)
        ensures
            valid_rate(ups.0) ==> r == Ok::<Events<W>, ConfigurationError>(
                Events { window: self.window, scheduler: self.scheduler.with_ups(ups.0) },
            ),
            ups.0 == 0 ==> r == Err::<Events<W>, ConfigurationError>(
                ConfigurationError::ZeroUpdatesPerSecond,
            ),
            ups.0 > BILLION ==> r == Err::<Events<W>, ConfigurationError>(
                ConfigurationError::UpdatesPerSecondTooHigh,
            ),
            r matches Ok(events) ==> events.scheduler.dt_update_in_ns > 0,
            self.scheduler.wf() ==> (r matches Ok(events) ==> events.scheduler.wf()),
    {
        match self.scheduler.set_ups(ups) {
            Ok(scheduler) => Ok(Events { window: self.window, scheduler }),
            Err(e) => Err(e),
        }
    }

    /// Sets the most frames per second. A rate that is zero or above one
    /// billion is turned down, and no event loop is left.
    pub fn set_max_fps(self, max_fps: MaxFps) -> (r: Result<Events<W>, ConfigurationError>)
        ensures
            valid_rate(max_fps.0) ==> r == Ok::<Events<W>, ConfigurationError>(
                Events { window: self.window, scheduler: self.scheduler.with_max_fps(max_fps.0) },
            ),
            max_fps.0 == 0 ==> r == Err::<Events<W>, ConfigurationError>(
                ConfigurationError::ZeroMaxFramesPerSecond,
            ),
            max_fps.0 > BILLION ==> r == Err::<Events<W>, ConfigurationError>(
                ConfigurationError::MaxFramesPerSecondTooHigh,
            ),
            r matches Ok(events) ==> events.scheduler.dt_frame_in_ns > 0,
            self.scheduler.wf() ==> (r matches Ok(events) ==> events.scheduler.wf()),
    {
        match self.scheduler.set_max_fps(max_fps) {
            Ok(scheduler) => Ok(Events { window: self.window, scheduler }),
            Err(e) => Err(e),
        }
    }

    /// Takes one step of the loop: asks the clock and the window what the
    /// state needs to know, and lets the scheduler decide.
    ///
    /// Whatever they answer, the step is the scheduler's step on some
    /// observation that its state asked for, and the window is acted on only
    /// to present a frame and to poll it. A host steps again on `Continue`,
    /// waits and steps again on `Sleep`, hands the event of an `Emit` to the
    /// application, and stops at `End`.
    pub fn step(&mut self) -> (step: Step<W::Event>)
        ensures
            exists|obs: Observation<W::Event>|
                {
                    &&& #[trigger] old(self).scheduler.asks(obs)
                    &&& step == old(self).scheduler.yields(obs)
                    &&& final(self).scheduler == old(self).scheduler.after(obs)
                    &&& acts_on_window(obs) || final(self).window == old(self).window
                },
            old(self).scheduler.state != State::Render ==> step != Step::<W::Event>::End,
            old(self).scheduler.wf() ==> final(self).scheduler.wf(),
    {
        let obs = match self.scheduler.state {
            State::Render => {
                if self.window.should_close() {
                    Observation::Closing
                } else {
                    let now = precise_time_ns();
                    let size = self.window.size();
                    Observation::Frame { now, size }
                }
            },
            State::PresentFrame => {
                self.window.swap_buffers();
                Observation::Presented
            },
            State::UpdateLoop(_) => {
                let now = precise_time_ns();
                match self.scheduler.remaining(now) {
                    Some(_) => {
                        let polled = self.window.poll_event();
                        Observation::Slack { now, polled }
                    },
                    None => Observation::Deadline { now },
                }
            },
            State::DrainInput => {
                let polled = self.window.poll_event();
                Observation::Drained { polled }
            },
            State::Update => Observation::Nothing,
        };
        let ghost seen = obs;
        assert(self.scheduler.asks(seen));
        match self.scheduler.advance(obs) {
            Ok(step) => step,
            Err(_) => unreached(),
        }
    }
}

} // verus!
