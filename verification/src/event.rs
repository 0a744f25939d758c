//! The events an application is handed, by the phase it is in.

use vstd::prelude::*;
use crate::phase::Signal;

verus! {

/// `std::time::Instant`, a moment on the monotonic clock. The library never looks into one.
#[verifier::external_type_specification]
#[verifier::external_body]
pub struct ExInstant(std::time::Instant);

/// `winit::window::WindowId`, the host's name for a window. The library never looks into one.
#[verifier::external_type_specification]
#[verifier::external_body]
pub struct ExWindowId(winit::window::WindowId);

/// `winit::event::WindowEvent`, what happened to a window. The library never looks into one.
#[verifier::external_type_specification]
#[verifier::external_body]
pub struct ExWindowEvent(winit::event::WindowEvent);

/// `winit::event::DeviceId`, the host's name for an input device. The library never looks
/// into one.
#[verifier::external_type_specification]
#[verifier::external_body]
pub struct ExDeviceId(winit::event::DeviceId);

/// `winit::event::DeviceEvent`, what an input device reported. The library never looks into
/// one.
#[verifier::external_type_specification]
#[verifier::external_body]
pub struct ExDeviceEvent(winit::event::DeviceEvent);

/// `Clone::clone` of `winit::window::WindowId`, which winit derives for a `Copy` type: the
/// copy is the same id.
pub assume_specification[ <winit::window::WindowId as Clone>::clone ](
    id: &winit::window::WindowId,
) -> (copy: winit::window::WindowId)
    ensures
        copy == *id,
;

/// `Clone::clone` of `winit::event::WindowEvent`. Nothing is claimed of the copy.
pub assume_specification[ <winit::event::WindowEvent as Clone>::clone ](
    event: &winit::event::WindowEvent,
) -> winit::event::WindowEvent;

/// `Clone::clone` of `winit::event::DeviceId`, which winit derives for a `Copy` type: the
/// copy is the same id.
pub assume_specification[ <winit::event::DeviceId as Clone>::clone ](
    id: &winit::event::DeviceId,
) -> (copy: winit::event::DeviceId)
    ensures
        copy == *id,
;

/// `Clone::clone` of `winit::event::DeviceEvent`. Nothing is claimed of the copy.
pub assume_specification[ <winit::event::DeviceEvent as Clone>::clone ](
    event: &winit::event::DeviceEvent,
) -> winit::event::DeviceEvent;

/// Why the host loop woke up.
#[allow(inconsistent_fields)]
#[derive(Debug, Clone, Copy, PartialEq, Eq)]
pub enum StartCause {
    /// The time the loop was asked to wait for has come.
    ResumeTimeReached { start: std::time::Instant, requested_resume: std::time::Instant },
    /// Events arrived before the wait was over.
    WaitCancelled { start: std::time::Instant, requested_resume: Option<std::time::Instant> },
    /// The loop polls, and came round again.
    Poll,
    /// The loop has just been started.
    Init,
}

impl StartCause {
    /// The signal that new events with this cause stand for in the transition table.
    pub open spec fn spec_signal(&self) -> Signal {
        if self is Init {
            Signal::Start
        } else {
            Signal::NewEvents
        }
    }

    /// The signal that new events with this cause stand for in the transition table.
    #[verifier::when_used_as_spec(spec_signal)]
    pub fn signal(&self) -> (signal: Signal)
        ensures
            signal == self.spec_signal(),
    {
        match self {
            StartCause::Init => Signal::Start,
            _ => Signal::NewEvents,
        }
    }
}

/// An event for an application in the `Resumed` phase.
#[allow(inconsistent_fields)]
#[derive(Debug, PartialEq)]
pub enum EventResumed<TUserEvent: 'static = ()> {
    NewEvents(StartCause),
    WindowEvent { window_id: winit::window::WindowId, event: winit::event::WindowEvent },
    DeviceEvent { device_id: winit::event::DeviceId, event: winit::event::DeviceEvent },
    UserEvent(TUserEvent),
    AboutToWait,
    MemoryWarning,
}

/// An event for an application in the `Suspended` phase. There is no window event among
/// them: a suspended application holds no window.
#[derive(Debug, PartialEq)]
pub enum EventSuspended<TUserEvent: 'static = ()> {
    NewEvents(StartCause),
    DeviceEvent { device_id: winit::event::DeviceId, event: winit::event::DeviceEvent },
    UserEvent(TUserEvent),
    AboutToWait,
    MemoryWarning,
}

impl<TUserEvent: Clone + 'static> Clone for EventResumed<TUserEvent> {
    /// The copy is an event of the same kind, for the same cause, window or device, with a
    /// clone of the user event. Of the copy of a window or device event nothing is known.
    fn clone(&self) -> (copy: Self)
        ensures
            match (*self, copy) {
                (EventResumed::NewEvents(cause), EventResumed::NewEvents(same)) => same == cause,
                (
                    EventResumed::WindowEvent { window_id, .. },
                    EventResumed::WindowEvent { window_id: same, .. },
                ) => same == window_id,
                (
                    EventResumed::DeviceEvent { device_id, .. },
                    EventResumed::DeviceEvent { device_id: same, .. },
                ) => same == device_id,
                (EventResumed::UserEvent(event), EventResumed::UserEvent(clone)) => cloned(
                    event,
                    clone,
                ),
                (EventResumed::AboutToWait, EventResumed::AboutToWait) => true,
                (EventResumed::MemoryWarning, EventResumed::MemoryWarning) => true,
                _ => false,
            },
    {
        match self {
            EventResumed::NewEvents(cause) => EventResumed::NewEvents(*cause),
            EventResumed::WindowEvent { window_id, event } => EventResumed::WindowEvent {
                window_id: window_id.clone(),
                event: event.clone(),
            },
            EventResumed::DeviceEvent { device_id, event } => EventResumed::DeviceEvent {
                device_id: device_id.clone(),
                event: event.clone(),
            },
            EventResumed::UserEvent(event) => EventResumed::UserEvent(event.clone()),
            EventResumed::AboutToWait => EventResumed::AboutToWait,
            EventResumed::MemoryWarning => EventResumed::MemoryWarning,
        }
    }
}

impl<TUserEvent: Clone + 'static> Clone for EventSuspended<TUserEvent> {
    /// The copy is an event of the same kind, for the same cause or device, with a clone of
    /// the user event. Of the copy of a device event nothing is known.
    fn clone(&self) -> (copy: Self)
        ensures
            match (*self, copy) {
                (EventSuspended::NewEvents(cause), EventSuspended::NewEvents(same)) => same
                    == cause,
                (
                    EventSuspended::DeviceEvent { device_id, .. },
                    EventSuspended::DeviceEvent { device_id: same, .. },
                ) => same == device_id,
                (EventSuspended::UserEvent(event), EventSuspended::UserEvent(clone)) => cloned(
                    event,
                    clone,
                ),
                (EventSuspended::AboutToWait, EventSuspended::AboutToWait) => true,
                (EventSuspended::MemoryWarning, EventSuspended::MemoryWarning) => true,
                _ => false,
            },
    {
        match self {
            EventSuspended::NewEvents(cause) => EventSuspended::NewEvents(*cause),
            EventSuspended::DeviceEvent { device_id, event } => EventSuspended::DeviceEvent {
                device_id: device_id.clone(),
                event: event.clone(),
            },
            EventSuspended::UserEvent(event) => EventSuspended::UserEvent(event.clone()),
            EventSuspended::AboutToWait => EventSuspended::AboutToWait,
            EventSuspended::MemoryWarning => EventSuspended::MemoryWarning,
        }
    }
}

} // verus!
