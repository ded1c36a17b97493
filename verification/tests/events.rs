use std::cell::Cell;

use event_loop::config::{ConfigurationError, MaxFps, Ups};
use event_loop::event::{Event, Step};
use event_loop::events::Events;
use event_loop::scheduler::{Idle, State};
use event_loop::window::{PollEvent, ShouldClose, Size, SwapBuffers, Window};

struct Mock {
    closing: bool,
    size: [u32; 2],
    queue: Vec<&'static str>,
    swaps: usize,
    polls: usize,
    asked_close: Cell<usize>,
    asked_size: Cell<usize>,
}

fn mock() -> Mock {
    Mock {
        closing: false,
        size: [320, 200],
        queue: Vec::new(),
        swaps: 0,
        polls: 0,
        asked_close: Cell::new(0),
        asked_size: Cell::new(0),
    }
}

impl Window for Mock {
    type Event = &'static str;

    fn should_close(&self) -> bool {
        self.asked_close.set(self.asked_close.get() + 1);
        self.closing
    }

    fn size(&self) -> [u32; 2] {
        self.asked_size.set(self.asked_size.get() + 1);
        self.size
    }

    fn swap_buffers(&mut self) {
        self.swaps += 1;
    }

    fn poll_event(&mut self) -> Option<&'static str> {
        self.polls += 1;
        if self.queue.is_empty() {
            None
        } else {
            Some(self.queue.remove(0))
        }
    }
}

/// An event loop with intervals of one second, so that no deadline arrives
/// while a test runs its few steps.
fn slow(window: Mock) -> Events<Mock> {
    Events::new(window).set_ups(Ups(1)).unwrap().set_max_fps(MaxFps(1)).unwrap()
}

#[test]
fn new_event_loop_starts_in_render_with_default_rates() {
    let events = Events::new(mock());
    let s = events.scheduler;
    assert_eq!(s.state, State::Render);
    assert_eq!(s.last_update, s.last_frame);
    assert_eq!(s.updates_per_second, 120);
    assert_eq!(s.max_frames_per_second, 60);
    assert_eq!(s.dt_update_in_ns, 8_333_333);
    assert_eq!(s.dt_frame_in_ns, 16_666_666);
    assert_eq!(events.window.asked_close.get(), 0);
    assert_eq!(events.window.polls, 0);
}

#[test]
fn new_event_loop_starts_at_the_reading_of_the_clock() {
    let start = Events::new(mock()).scheduler.last_update;
    // nanoseconds since 1970: later than the year 2001
    assert!(start > 1_000_000_000_000_000_000);
}

#[test]
fn event_loop_turns_down_zero_rates() {
    assert!(matches!(
        Events::new(mock()).set_ups(Ups(0)),
        Err(ConfigurationError::ZeroUpdatesPerSecond)
    ));
    assert!(matches!(
        Events::new(mock()).set_max_fps(MaxFps(0)),
        Err(ConfigurationError::ZeroMaxFramesPerSecond)
    ));
}

#[test]
fn event_loop_turns_down_rates_that_leave_no_nanosecond() {
    assert!(matches!(
        Events::new(mock()).set_ups(Ups(2_000_000_000)),
        Err(ConfigurationError::UpdatesPerSecondTooHigh)
    ));
    assert!(matches!(
        Events::new(mock()).set_max_fps(MaxFps(1_000_000_001)),
        Err(ConfigurationError::MaxFramesPerSecondTooHigh)
    ));
    let events = Events::new(mock()).set_ups(Ups(1_000_000_000)).unwrap();
    assert_eq!(events.scheduler.dt_update_in_ns, 1);
}

#[test]
fn event_loop_with_rates_is_made_of_valid_rates_only() {
    let events = Events::with_rates(mock(), Ups(200), MaxFps(50)).ok().unwrap();
    let s = events.scheduler;
    assert_eq!(s.state, State::Render);
    assert_eq!(s.last_update, s.last_frame);
    assert!(s.last_update > 1_000_000_000_000_000_000);
    assert_eq!(s.updates_per_second, 200);
    assert_eq!(s.dt_update_in_ns, 5_000_000);
    assert_eq!(s.max_frames_per_second, 50);
    assert_eq!(s.dt_frame_in_ns, 20_000_000);
    assert_eq!(events.window.size, [320, 200]);
    assert_eq!(events.window.asked_close.get(), 0);
    let refused = |ups: u64, max_fps: u64| {
        Events::with_rates(mock(), Ups(ups), MaxFps(max_fps)).err()
    };
    assert_eq!(refused(120, 60), None);
    assert_eq!(refused(0, 60), Some(ConfigurationError::ZeroUpdatesPerSecond));
    assert_eq!(refused(120, 0), Some(ConfigurationError::ZeroMaxFramesPerSecond));
    assert_eq!(refused(0, 0), Some(ConfigurationError::ZeroUpdatesPerSecond));
    assert_eq!(refused(1_000_000_001, 0), Some(ConfigurationError::UpdatesPerSecondTooHigh));
    assert_eq!(refused(1, u64::MAX), Some(ConfigurationError::MaxFramesPerSecondTooHigh));
}

#[test]
fn event_loop_takes_positive_rates() {
    let events = Events::new(mock());
    let start = events.scheduler.last_update;
    let events = events.set_ups(Ups(200)).unwrap().set_max_fps(MaxFps(50)).unwrap();
    assert_eq!(events.scheduler.updates_per_second, 200);
    assert_eq!(events.scheduler.dt_update_in_ns, 5_000_000);
    assert_eq!(events.scheduler.max_frames_per_second, 50);
    assert_eq!(events.scheduler.dt_frame_in_ns, 20_000_000);
    assert_eq!(events.scheduler.last_update, start);
    assert_eq!(events.scheduler.last_frame, start);
    assert_eq!(events.scheduler.state, State::Render);
}

#[test]
fn steps_render_present_poll_idle_and_wait() {
    let mut w = mock();
    w.queue = vec!["a", "b"];
    let mut events = slow(w);
    let start = events.scheduler.last_update;

    match events.step() {
        Step::Emit(Event::Render(args)) => {
            assert_eq!((args.width, args.height), (320, 200));
            assert_eq!(args.ext_dt_ns, events.scheduler.last_frame - start);
        }
        other => panic!("{:?}", other),
    }
    assert_eq!(events.scheduler.state, State::PresentFrame);
    assert!(events.scheduler.last_frame >= start);
    assert_eq!(events.window.asked_close.get(), 1);
    assert_eq!(events.window.asked_size.get(), 1);
    assert_eq!(events.window.swaps, 0);

    assert_eq!(events.step(), Step::Continue);
    assert_eq!(events.window.swaps, 1);
    assert_eq!(events.scheduler.state, State::UpdateLoop(Idle::No));

    assert_eq!(events.step(), Step::Emit(Event::Input("a")));
    assert_eq!(events.step(), Step::Emit(Event::Input("b")));
    assert_eq!(events.window.polls, 2);

    match events.step() {
        Step::Emit(Event::Idle(args)) => assert!(args.dt_ns > 0 && args.dt_ns <= 1_000_000_000),
        other => panic!("{:?}", other),
    }
    assert_eq!(events.scheduler.state, State::UpdateLoop(Idle::Yes));
    match events.step() {
        Step::Sleep(ns) => assert!(ns > 0 && ns <= 1_000_000_000),
        other => panic!("{:?}", other),
    }
    assert_eq!(events.scheduler.state, State::UpdateLoop(Idle::No));
    assert_eq!(events.window.polls, 4);
    assert_eq!(events.window.asked_close.get(), 1);
    assert_eq!(events.scheduler.last_update, start);
}

#[test]
fn closing_window_ends_the_loop_without_further_calls() {
    let mut w = mock();
    w.closing = true;
    let mut events = Events::new(w);
    let before = events.scheduler;
    assert_eq!(events.step(), Step::End);
    assert_eq!(events.step(), Step::End);
    assert_eq!(events.scheduler, before);
    assert_eq!(events.window.asked_close.get(), 2);
    assert_eq!(events.window.asked_size.get(), 0);
    assert_eq!(events.window.swaps, 0);
    assert_eq!(events.window.polls, 0);
}

#[test]
fn hidden_window_is_neither_rendered_nor_presented() {
    let mut w = mock();
    w.size = [0, 200];
    let mut events = slow(w);
    assert_eq!(events.step(), Step::Continue);
    assert_eq!(events.scheduler.state, State::UpdateLoop(Idle::No));
    assert!(matches!(events.step(), Step::Emit(Event::Idle(_))));
    assert_eq!(events.window.swaps, 0);
}

#[test]
fn due_update_drains_input_then_commits() {
    let mut w = mock();
    w.queue = vec!["x", "y", "z"];
    let mut events = Events::new(w);
    // an update that was due long ago
    events.scheduler.state = State::UpdateLoop(Idle::No);
    events.scheduler.last_update = 1_000;
    let frame = events.scheduler.last_frame;
    assert_eq!(events.step(), Step::Continue);
    assert_eq!(events.scheduler.state, State::DrainInput);
    assert_eq!(events.window.polls, 0);
    assert_eq!(events.step(), Step::Emit(Event::Input("x")));
    assert_eq!(events.step(), Step::Emit(Event::Input("y")));
    assert_eq!(events.step(), Step::Emit(Event::Input("z")));
    assert_eq!(events.scheduler.last_update, 1_000);
    assert_eq!(events.step(), Step::Continue);
    assert_eq!(events.scheduler.state, State::Update);
    match events.step() {
        Step::Emit(Event::Update(args)) => assert_eq!(args.updates_per_second, 120),
        other => panic!("{:?}", other),
    }
    assert_eq!(events.scheduler.last_update, 1_000 + 8_333_333);
    assert_eq!(events.scheduler.last_frame, frame);
    assert_eq!(events.scheduler.state, State::UpdateLoop(Idle::No));
    assert_eq!(events.window.polls, 4);
}

#[test]
fn due_frame_goes_back_to_render() {
    let mut events = Events::new(mock());
    events.scheduler.state = State::UpdateLoop(Idle::Yes);
    events.scheduler.last_frame = 1_000;
    events.scheduler.last_update = u64::MAX - 8_333_333;
    assert_eq!(events.step(), Step::Continue);
    assert_eq!(events.scheduler.state, State::Render);
    assert_eq!(events.window.polls, 0);
    assert!(matches!(events.step(), Step::Emit(Event::Render(a)) if a.ext_dt_ns == 0));
}

#[test]
fn capability_messages_carry_their_values() {
    assert!(ShouldClose(true).0);
    assert_eq!(Size([3, 4]).0, [3, 4]);
    assert_eq!(SwapBuffers, SwapBuffers);
    assert_eq!(PollEvent, PollEvent);
}
