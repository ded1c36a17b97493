//! A generic event loop for games and interactive applications, as a
//! pull-based scheduler.
//!
//! The scheduler turns a window and a clock into a sequence of render,
//! update, input and idle events: updates at a fixed rate, frames at a capped
//! rate, pending input in between, and idle time where nothing is due.
//!
//! - [`scheduler`] holds the state machine, which consults nothing and is
//!   stepped on observations;
//! - [`events`] binds it to a [`Window`] and to the wall clock;
//! - [`trace`] and [`laws`] say what holds of every run.
//!
//! One step never waits and never loops: a host calls [`Events::step`] until
//! it has an event, and waits itself when a step asks for it.

pub mod clock;
pub mod config;
pub mod event;
pub mod events;
pub mod laws;
pub mod scheduler;
pub mod trace;
pub mod window;

pub use crate::config::{ConfigurationError, MaxFps, Ups};
pub use crate::event::{Event, EventMap, IdleArgs, RenderArgs, Step, UpdateArgs};
pub use crate::events::Events;
pub use crate::scheduler::{Idle, Observation, Scheduler, State};
pub use crate::window::{PollEvent, ShouldClose, Size, SwapBuffers, Window};
