//! The four phases of an application and the table of moves between them.

use vstd::prelude::*;

verus! {

/// The lifecycle phase an application is in.
#[derive(Clone, Copy, Debug, PartialEq, Eq, Structural)]
pub enum Phase {
    /// Configured, with no host resource acquired yet.
    Uninitialized,
    /// Running, and holding the host resources.
    Resumed,
    /// Paused: the host resources are released, what is needed to resume is kept.
    Suspended,
    /// Done. No signal is accepted any more.
    Exited,
}

/// What the host loop tells the application in one callback, without its payload.
#[derive(Clone, Copy, Debug, PartialEq, Eq, Structural)]
pub enum Signal {
    /// New events arrive, and the loop has just been started.
    Start,
    /// New events arrive, for any other cause.
    NewEvents,
    /// An event for a window.
    WindowEvent,
    /// An event from a device.
    DeviceEvent,
    /// An event sent by the application to itself.
    UserEvent,
    /// The loop is about to wait for new events.
    AboutToWait,
    /// The host is short of memory.
    MemoryWarning,
    /// The application is being suspended.
    Suspended,
    /// The application is being resumed.
    Resumed,
    /// The loop is shutting down.
    Exiting,
}

/// The transition table: the phase that `signal` leads to from `phase`, or `None` where the
/// host must not send `signal` in `phase`.
///
/// | from            | signal                         | to          |
/// |-----------------|--------------------------------|-------------|
/// | `Uninitialized` | `Start`                        | `Resumed`   |
/// | `Resumed`       | any event                      | `Resumed`   |
/// | `Resumed`       | `Resumed` (a repeated one)     | `Resumed`   |
/// | `Resumed`       | `Suspended`                    | `Suspended` |
/// | `Resumed`       | `Exiting`                      | `Exited`    |
/// | `Suspended`     | any event but a window event   | `Suspended` |
/// | `Suspended`     | `Suspended` (a repeated one)   | `Suspended` |
/// | `Suspended`     | `Resumed`                      | `Resumed`   |
/// | `Suspended`     | `Exiting`                      | `Exited`    |
pub open spec fn next_phase(phase: Phase, signal: Signal) -> Option<Phase> {
    match (phase, signal) {
        (Phase::Uninitialized, Signal::Start) => Some(Phase::Resumed),
        (Phase::Resumed, Signal::Suspended) => Some(Phase::Suspended),
        (Phase::Resumed, Signal::Exiting) => Some(Phase::Exited),
        (Phase::Resumed, _) => Some(Phase::Resumed),
        (Phase::Suspended, Signal::WindowEvent) => None,
        (Phase::Suspended, Signal::Resumed) => Some(Phase::Resumed),
        (Phase::Suspended, Signal::Exiting) => Some(Phase::Exited),
        (Phase::Suspended, _) => Some(Phase::Suspended),
        _ => None,
    }
}

impl Phase {
    /// Looks `signal` up in the transition table for this phase.
    pub fn next(self, signal: Signal) -> (target: Option<Phase>)
        ensures
            target == next_phase(self, signal),
    {
        match self {
            Phase::Uninitialized => match signal {
                Signal::Start => Some(Phase::Resumed),
                _ => None,
            },
            Phase::Resumed => match signal {
                Signal::Suspended => Some(Phase::Suspended),
                Signal::Exiting => Some(Phase::Exited),
                _ => Some(Phase::Resumed),
            },
            Phase::Suspended => match signal {
                Signal::WindowEvent => None,
                Signal::Resumed => Some(Phase::Resumed),
                Signal::Exiting => Some(Phase::Exited),
                _ => Some(Phase::Suspended),
            },
            Phase::Exited => None,
        }
    }
}

} // verus!
