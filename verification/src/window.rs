//! What the event loop requires of a window.

use vstd::prelude::*;

verus! {

/// Required to use the event loop.
///
/// Nothing is assumed of an implementation: the scheduler is verified for
/// whatever these methods return.
pub trait Window {
    /// What the window hands out as input.
    type Event;

    /// Returns true if the window should close.
    fn should_close(&self) -> bool;

    /// Gets the size of the window in user coordinates: width, then height.
    fn size(&self) -> [u32; 2];

    /// Swaps render buffers.
    fn swap_buffers(&mut self);

    /// Polls an event from the window, without waiting for one.
    fn poll_event(&mut self) -> Option<Self::Event>;
}

/// Whether a window should close or not: the property behind
/// [`Window::should_close`], for back-ends that are asked by message.
#[derive(Clone, Copy, Debug, PartialEq, Eq)]
pub struct ShouldClose(pub bool);

/// The size of a window: the property behind [`Window::size`].
#[derive(Clone, Copy, Debug, PartialEq, Eq)]
pub struct Size(pub [u32; 2]);

/// Tells a window to swap buffers: the action behind
/// [`Window::swap_buffers`].
#[derive(Clone, Copy, Debug, PartialEq, Eq)]
pub struct SwapBuffers;

/// Polls an event from a window: the action behind [`Window::poll_event`].
#[derive(Clone, Copy, Debug, PartialEq, Eq)]
pub struct PollEvent;

} // verus!
