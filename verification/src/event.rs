//! What a scheduler hands to its host: the four kinds of event, and the
//! outcome of one step.

use vstd::prelude::*;

verus! {

/// Render arguments.
#[derive(Clone, Copy, Debug, PartialEq, Eq)]
pub struct RenderArgs {
    /// Extrapolated time in nanoseconds: what has passed since the last
    /// update when the frame starts. Used to do smooth animation.
    pub ext_dt_ns: u64,
    /// The width of the rendered area.
    pub width: u32,
    /// The height of the rendered area.
    pub height: u32,
}

/// Update arguments: the fixed time step.
#[derive(Clone, Copy, Debug, PartialEq, Eq)]
pub struct UpdateArgs {
    /// The step lasts one second divided by this rate.
    pub updates_per_second: u64,
}

/// Idle arguments: the time that is expected to stay idle.
#[derive(Clone, Copy, Debug, PartialEq, Eq)]
pub struct IdleArgs {
    /// Expected idle time in nanoseconds.
    pub dt_ns: u64,
}

/// An event of the loop. `I` is what the window hands out as input.
#[derive(Clone, Copy, Debug, PartialEq, Eq)]
pub enum Event<I> {
    /// A frame starts and wants to be drawn.
    Render(RenderArgs),
    /// The simulation advances by one fixed step.
    Update(UpdateArgs),
    /// The window handed out an input item.
    Input(I),
    /// Nothing is due and nothing is pending.
    Idle(IdleArgs),
}

/// What one step of a scheduler asks of its host.
#[derive(Clone, Copy, Debug, PartialEq, Eq)]
pub enum Step<I> {
    /// Hand this event to the application.
    Emit(Event<I>),
    /// Nothing to hand out: step again.
    Continue,
    /// Nothing to hand out for this many nanoseconds: wait, then step again.
    Sleep(u64),
    /// The window wants to close: the sequence of events has ended.
    End,
}

/// Methods required to map the events of the loop to an application's own
/// event type.
pub trait EventMap<I>: Sized {
    /// Creates a render event.
    fn render(args: RenderArgs) -> Self;

    /// Creates an update event.
    fn update(args: UpdateArgs) -> Self;

    /// Creates an input event.
    fn input(args: I) -> Self;

    /// Creates an idle event.
    fn idle(args: IdleArgs) -> Self;
}

impl<I> EventMap<I> for Event<I> {
    fn render(args: RenderArgs) -> (e: Self)
        ensures
            e == Event::<I>::Render(args),
    {
        Event::Render(args)
    }

    fn update(args: UpdateArgs) -> (e: Self)
        ensures
            e == Event::<I>::Update(args),
    {
        Event::Update(args)
    }

    fn input(args: I) -> (e: Self)
        ensures
            e == Event::Input(args),
    {
        Event::Input(args)
    }

    fn idle(args: IdleArgs) -> (e: Self)
        ensures
            e == Event::<I>::Idle(args),
    {
        Event::Idle(args)
    }
}

impl<I> Event<I> {
    /// Maps the event to an application's own event type, by the constructor
    /// of its kind.
    pub fn map<E: EventMap<I>>(self) -> (e: E)
        ensures
            match self {
                Event::Render(args) => call_ensures(E::render, (args,), e),
                Event::Update(args) => call_ensures(E::update, (args,), e),
                Event::Input(args) => call_ensures(E::input, (args,), e),
                Event::Idle(args) => call_ensures(E::idle, (args,), e),
            },
    {
        match self {
            Event::Render(args) => E::render(args),
            Event::Update(args) => E::update(args),
            Event::Input(args) => E::input(args),
            Event::Idle(args) => E::idle(args),
        }
    }
}

} // verus!
