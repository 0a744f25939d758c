//! What an application supplies: one type for each phase, and the operations that lead from
//! one phase to the next.

use vstd::prelude::*;
use crate::event::{EventResumed, EventSuspended};
use crate::host::EventLoopHandle;
use crate::phase::Phase;

verus! {

/// The types that make up an application.
///
/// The three phase types implement [`ApplicationUninitialized`], [`ApplicationResumed`] and
/// [`ApplicationSuspended`], each naming this type as its `Application`.
pub trait Application<TUserEvent: 'static = ()>: Sized {
    /// The handle on the host loop that every operation is given.
    type EventLoop: EventLoopHandle;

    /// What the application holds before the loop has started.
    type Uninitialized;

    /// What the application holds while it runs, host resources included.
    type Resumed;

    /// What the application keeps while it is suspended.
    type Suspended;

    /// What is left of the application when the loop has ended.
    type Exited;

    /// The error with which an operation may fail.
    type Error;
}

/// An application that has not been started.
pub trait ApplicationUninitialized<TUserEvent: 'static = ()>: Sized {
    type Application: Application<TUserEvent, Uninitialized = Self>;

    /// Acquires the host resources and starts running.
    fn initialize(
        self,
        event_loop: &<Self::Application as Application<TUserEvent>>::EventLoop,
    ) -> Result<
        <Self::Application as Application<TUserEvent>>::Resumed,
        <Self::Application as Application<TUserEvent>>::Error,
    >;
}

/// A running application.
pub trait ApplicationResumed<TUserEvent: 'static = ()>: Sized {
    type Application: Application<TUserEvent, Resumed = Self>;

    /// Handles one event and goes on running.
    fn handle(
        self,
        event_loop: &<Self::Application as Application<TUserEvent>>::EventLoop,
        event: EventResumed<TUserEvent>,
    ) -> Result<Self, <Self::Application as Application<TUserEvent>>::Error>;

    /// Releases the host resources, keeping what is needed to resume.
    fn suspend(
        self,
        event_loop: &<Self::Application as Application<TUserEvent>>::EventLoop,
    ) -> Result<
        <Self::Application as Application<TUserEvent>>::Suspended,
        <Self::Application as Application<TUserEvent>>::Error,
    >;

    /// Ends the application.
    fn exit(
        self,
        event_loop: &<Self::Application as Application<TUserEvent>>::EventLoop,
    ) -> Result<
        <Self::Application as Application<TUserEvent>>::Exited,
        <Self::Application as Application<TUserEvent>>::Error,
    >;
}

/// A suspended application.
pub trait ApplicationSuspended<TUserEvent: 'static = ()>: Sized {
    type Application: Application<TUserEvent, Suspended = Self>;

    /// Handles one event and stays suspended.
    fn handle(
        self,
        event_loop: &<Self::Application as Application<TUserEvent>>::EventLoop,
        event: EventSuspended<TUserEvent>,
    ) -> Result<Self, <Self::Application as Application<TUserEvent>>::Error>;

    /// Acquires the host resources again and goes back to running.
    fn resume(
        self,
        event_loop: &<Self::Application as Application<TUserEvent>>::EventLoop,
    ) -> Result<
        <Self::Application as Application<TUserEvent>>::Resumed,
        <Self::Application as Application<TUserEvent>>::Error,
    >;

    /// Ends the application.
    fn exit(
        self,
        event_loop: &<Self::Application as Application<TUserEvent>>::EventLoop,
    ) -> Result<
        <Self::Application as Application<TUserEvent>>::Exited,
        <Self::Application as Application<TUserEvent>>::Error,
    >;
}

/// An application in one of its four phases, with what it holds in that phase.
pub enum State<TApplication: Application<TUserEvent>, TUserEvent: 'static> {
    Uninitialized(TApplication::Uninitialized),
    Resumed(TApplication::Resumed),
    Suspended(TApplication::Suspended),
    Exited(TApplication::Exited),
}

impl<TApplication: Application<TUserEvent>, TUserEvent: 'static> State<TApplication, TUserEvent> {
    /// The phase the application is in.
    pub open spec fn spec_phase(&self) -> Phase {
        match self {
            State::Uninitialized(_) => Phase::Uninitialized,
            State::Resumed(_) => Phase::Resumed,
            State::Suspended(_) => Phase::Suspended,
            State::Exited(_) => Phase::Exited,
        }
    }

    /// The phase the application is in.
    #[verifier::when_used_as_spec(spec_phase)]
    pub fn phase(&self) -> (phase: Phase)
        ensures
            phase == self.spec_phase(),
    {
        match self {
            State::Uninitialized(_) => Phase::Uninitialized,
            State::Resumed(_) => Phase::Resumed,
            State::Suspended(_) => Phase::Suspended,
            State::Exited(_) => Phase::Exited,
        }
    }
}

} // verus!
