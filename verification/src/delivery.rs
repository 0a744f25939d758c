//! What one callback of the host loop does to an application: the relation between what the
//! adapter holds before the callback and what it may hold after it.
//!
//! The operations of an application do outside work, so what they return is not a function
//! of their arguments. The relations here say which operation was called on what, and that
//! the new contents are what it returned.

use vstd::prelude::*;
use crate::application::{
    Application, ApplicationResumed, ApplicationSuspended, ApplicationUninitialized, State,
};
use crate::event::{EventResumed, EventSuspended, StartCause};
use crate::phase::{next_phase, Signal};

verus! {

/// What the adapter holds between two callbacks: the application in its current phase, or
/// the error with which one of its operations failed.
pub type Fallible<TApplication, TUserEvent> = Result<
    State<TApplication, TUserEvent>,
    <TApplication as Application<TUserEvent>>::Error,
>;

/// What the host loop delivers in one callback: a signal with its payload.
#[allow(inconsistent_fields)]
pub enum Trigger<TUserEvent: 'static> {
    NewEvents(StartCause),
    WindowEvent { window_id: winit::window::WindowId, event: winit::event::WindowEvent },
    DeviceEvent { device_id: winit::event::DeviceId, event: winit::event::DeviceEvent },
    UserEvent(TUserEvent),
    AboutToWait,
    MemoryWarning,
    Suspended,
    Resumed,
    Exiting,
}

impl<TUserEvent: 'static> Trigger<TUserEvent> {
    /// The signal that the trigger stands for in the transition table.
    pub open spec fn signal(self) -> Signal {
        match self {
            Trigger::NewEvents(cause) => cause.signal(),
            Trigger::WindowEvent { .. } => Signal::WindowEvent,
            Trigger::DeviceEvent { .. } => Signal::DeviceEvent,
            Trigger::UserEvent(_) => Signal::UserEvent,
            Trigger::AboutToWait => Signal::AboutToWait,
            Trigger::MemoryWarning => Signal::MemoryWarning,
            Trigger::Suspended => Signal::Suspended,
            Trigger::Resumed => Signal::Resumed,
            Trigger::Exiting => Signal::Exiting,
        }
    }

    /// The event that a running application is handed for the trigger, if it is one.
    pub open spec fn for_resumed(self) -> Option<EventResumed<TUserEvent>> {
        match self {
            Trigger::NewEvents(cause) => Some(EventResumed::NewEvents(cause)),
            Trigger::WindowEvent { window_id, event } => Some(
                EventResumed::WindowEvent { window_id, event },
            ),
            Trigger::DeviceEvent { device_id, event } => Some(
                EventResumed::DeviceEvent { device_id, event },
            ),
            Trigger::UserEvent(event) => Some(EventResumed::UserEvent(event)),
            Trigger::AboutToWait => Some(EventResumed::AboutToWait),
            Trigger::MemoryWarning => Some(EventResumed::MemoryWarning),
            _ => None,
        }
    }

    /// The event that a suspended application is handed for the trigger, if it is one and a
    /// suspended application can get it.
    pub open spec fn for_suspended(self) -> Option<EventSuspended<TUserEvent>> {
        match self {
            Trigger::NewEvents(cause) => Some(EventSuspended::NewEvents(cause)),
            Trigger::DeviceEvent { device_id, event } => Some(
                EventSuspended::DeviceEvent { device_id, event },
            ),
            Trigger::UserEvent(event) => Some(EventSuspended::UserEvent(event)),
            Trigger::AboutToWait => Some(EventSuspended::AboutToWait),
            Trigger::MemoryWarning => Some(EventSuspended::MemoryWarning),
            _ => None,
        }
    }
}

/// `after` records a call of `initialize` on `state`.
pub open spec fn records_initialize<A: Application<T>, T: 'static>(
    state: A::Uninitialized,
    event_loop: &A::EventLoop,
    after: Fallible<A, T>,
) -> bool where A::Uninitialized: ApplicationUninitialized<T, Application = A> {
    match after {
        Ok(State::Resumed(next)) => call_ensures(
            <A::Uninitialized as ApplicationUninitialized<T>>::initialize,
            (state, event_loop),
            Ok(next),
        ),
        Err(error) => call_ensures(
            <A::Uninitialized as ApplicationUninitialized<T>>::initialize,
            (state, event_loop),
            Err(error),
        ),
        _ => false,
    }
}

/// `after` records a call of `handle` on the running `state` with `event`.
pub open spec fn records_handle_resumed<A: Application<T>, T: 'static>(
    state: A::Resumed,
    event_loop: &A::EventLoop,
    event: EventResumed<T>,
    after: Fallible<A, T>,
) -> bool where A::Resumed: ApplicationResumed<T, Application = A> {
    match after {
        Ok(State::Resumed(next)) => call_ensures(
            <A::Resumed as ApplicationResumed<T>>::handle,
            (state, event_loop, event),
            Ok(next),
        ),
        Err(error) => call_ensures(
            <A::Resumed as ApplicationResumed<T>>::handle,
            (state, event_loop, event),
            Err(error),
        ),
        _ => false,
    }
}

/// `after` records a call of `suspend` on the running `state`.
pub open spec fn records_suspend<A: Application<T>, T: 'static>(
    state: A::Resumed,
    event_loop: &A::EventLoop,
    after: Fallible<A, T>,
) -> bool where A::Resumed: ApplicationResumed<T, Application = A> {
    match after {
        Ok(State::Suspended(next)) => call_ensures(
            <A::Resumed as ApplicationResumed<T>>::suspend,
            (state, event_loop),
            Ok(next),
        ),
        Err(error) => call_ensures(
            <A::Resumed as ApplicationResumed<T>>::suspend,
            (state, event_loop),
            Err(error),
        ),
        _ => false,
    }
}

/// `after` records a call of `exit` on the running `state`.
pub open spec fn records_exit_resumed<A: Application<T>, T: 'static>(
    state: A::Resumed,
    event_loop: &A::EventLoop,
    after: Fallible<A, T>,
) -> bool where A::Resumed: ApplicationResumed<T, Application = A> {
    match after {
        Ok(State::Exited(next)) => call_ensures(
            <A::Resumed as ApplicationResumed<T>>::exit,
            (state, event_loop),
            Ok(next),
        ),
        Err(error) => call_ensures(
            <A::Resumed as ApplicationResumed<T>>::exit,
            (state, event_loop),
            Err(error),
        ),
        _ => false,
    }
}

/// `after` records a call of `handle` on the suspended `state` with `event`.
pub open spec fn records_handle_suspended<A: Application<T>, T: 'static>(
    state: A::Suspended,
    event_loop: &A::EventLoop,
    event: EventSuspended<T>,
    after: Fallible<A, T>,
) -> bool where A::Suspended: ApplicationSuspended<T, Application = A> {
    match after {
        Ok(State::Suspended(next)) => call_ensures(
            <A::Suspended as ApplicationSuspended<T>>::handle,
            (state, event_loop, event),
            Ok(next),
        ),
        Err(error) => call_ensures(
            <A::Suspended as ApplicationSuspended<T>>::handle,
            (state, event_loop, event),
            Err(error),
        ),
        _ => false,
    }
}

/// `after` records a call of `resume` on the suspended `state`.
pub open spec fn records_resume<A: Application<T>, T: 'static>(
    state: A::Suspended,
    event_loop: &A::EventLoop,
    after: Fallible<A, T>,
) -> bool where A::Suspended: ApplicationSuspended<T, Application = A> {
    match after {
        Ok(State::Resumed(next)) => call_ensures(
            <A::Suspended as ApplicationSuspended<T>>::resume,
            (state, event_loop),
            Ok(next),
        ),
        Err(error) => call_ensures(
            <A::Suspended as ApplicationSuspended<T>>::resume,
            (state, event_loop),
            Err(error),
        ),
        _ => false,
    }
}

/// `after` records a call of `exit` on the suspended `state`.
pub open spec fn records_exit_suspended<A: Application<T>, T: 'static>(
    state: A::Suspended,
    event_loop: &A::EventLoop,
    after: Fallible<A, T>,
) -> bool where A::Suspended: ApplicationSuspended<T, Application = A> {
    match after {
        Ok(State::Exited(next)) => call_ensures(
            <A::Suspended as ApplicationSuspended<T>>::exit,
            (state, event_loop),
            Ok(next),
        ),
        Err(error) => call_ensures(
            <A::Suspended as ApplicationSuspended<T>>::exit,
            (state, event_loop),
            Err(error),
        ),
        _ => false,
    }
}

/// `after` is what the adapter may hold once `trigger` has been delivered to the application
/// in `state`.
///
/// Each phase calls one operation for a trigger that the transition table has a row for. A
/// repeated `Suspended` or `Resumed` calls none and keeps the state as it is. Where the
/// table has no row, there is no outcome.
pub open spec fn stepped<A: Application<T>, T: 'static>(
    state: State<A, T>,
    event_loop: &A::EventLoop,
    trigger: Trigger<T>,
    after: Fallible<A, T>,
) -> bool where
    A::Uninitialized: ApplicationUninitialized<T, Application = A>,
    A::Resumed: ApplicationResumed<T, Application = A>,
    A::Suspended: ApplicationSuspended<T, Application = A>,
 {
    match state {
        State::Uninitialized(state) => {
            &&& trigger.signal() is Start
            &&& records_initialize(state, event_loop, after)
        },
        State::Resumed(state) => match trigger {
            Trigger::Suspended => records_suspend(state, event_loop, after),
            Trigger::Resumed => after == Ok::<State<A, T>, A::Error>(State::Resumed(state)),
            Trigger::Exiting => records_exit_resumed(state, event_loop, after),
            _ => records_handle_resumed(state, event_loop, trigger.for_resumed()->0, after),
        },
        State::Suspended(state) => match trigger {
            Trigger::WindowEvent { .. } => false,
            Trigger::Suspended => after == Ok::<State<A, T>, A::Error>(State::Suspended(state)),
            Trigger::Resumed => records_resume(state, event_loop, after),
            Trigger::Exiting => records_exit_suspended(state, event_loop, after),
            _ => records_handle_suspended(state, event_loop, trigger.for_suspended()->0, after),
        },
        State::Exited(_) => false,
    }
}

/// Whether `signal` may be delivered while the adapter holds `before`.
///
/// An application takes the signals that the transition table has a row for in its phase.
/// Once an operation has failed, every signal is taken, and ignored.
pub open spec fn deliverable<A: Application<T>, T: 'static>(
    before: Fallible<A, T>,
    signal: Signal,
) -> bool {
    match before {
        Ok(state) => next_phase(state.phase(), signal) is Some,
        Err(_) => true,
    }
}

/// `after` is what the adapter may hold once `trigger` has been delivered while it held
/// `before`.
///
/// A recorded error stays as it is, and no operation is called any more.
pub open spec fn delivered<A: Application<T>, T: 'static>(
    before: Fallible<A, T>,
    event_loop: &A::EventLoop,
    trigger: Trigger<T>,
    after: Fallible<A, T>,
) -> bool where
    A::Uninitialized: ApplicationUninitialized<T, Application = A>,
    A::Resumed: ApplicationResumed<T, Application = A>,
    A::Suspended: ApplicationSuspended<T, Application = A>,
 {
    match before {
        Ok(state) => stepped(state, event_loop, trigger, after),
        Err(_) => after == before,
    }
}

} // verus!
