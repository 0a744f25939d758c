//! The adapter between the host loop's callbacks, which come with a mutable reference, and
//! the operations of an application, which consume one phase and return the next.

use vstd::prelude::*;
use vstd::pervasive::unreached;
use crate::application::{
    Application, ApplicationResumed, ApplicationSuspended, ApplicationUninitialized, State,
};
use crate::delivery::{deliverable, delivered, stepped, Fallible, Trigger};
use crate::event::{EventResumed, EventSuspended, StartCause};
use crate::host::EventLoopHandle;
use crate::phase::{next_phase, Phase, Signal};
use crate::takeable::Takeable;

verus! {

/// What a run of the loop leaves of an application: what it holds in its last phase, or the
/// error with which one of its operations failed.
pub type ApplicationResult<TApplication, TUserEvent> = Result<
    <TApplication as Application<TUserEvent>>::Exited,
    <TApplication as Application<TUserEvent>>::Error,
>;

/// What the adapter holds at the end of a run that left `result`.
pub open spec fn concluded<A: Application<T>, T: 'static>(
    result: ApplicationResult<A, T>,
) -> Fallible<A, T> {
    match result {
        Ok(exited) => Ok(State::Exited(exited)),
        Err(error) => Err(error),
    }
}

/// Holds an application between the callbacks of the host loop, and turns each callback into
/// one operation of the application.
///
/// The first operation that fails ends the run: the loop is asked to exit, the error is kept,
/// and every later callback is ignored.
pub struct Adapter<TApplication: Application<TUserEvent>, TUserEvent: 'static>(
    Takeable<Fallible<TApplication, TUserEvent>>,
);

impl<TApplication: Application<TUserEvent>, TUserEvent: 'static> View for Adapter<
    TApplication,
    TUserEvent,
> {
    type V = Option<Fallible<TApplication, TUserEvent>>;

    /// What the adapter holds, or `None` if a callback was cut short and the adapter is
    /// poisoned.
    closed spec fn view(&self) -> Option<Fallible<TApplication, TUserEvent>> {
        self.0@
    }
}

impl<A: Application<T>, T: 'static> Adapter<A, T> where
    A::Uninitialized: ApplicationUninitialized<T, Application = A>,
    A::Resumed: ApplicationResumed<T, Application = A>,
    A::Suspended: ApplicationSuspended<T, Application = A>,
 {
    /// Whether `signal` may be delivered to the adapter as it is.
    pub open spec fn spec_accepts(&self, signal: Signal) -> bool {
        self@ matches Some(held) && deliverable(held, signal)
    }

    /// Whether the run may be ended: the application has exited, or an operation has failed.
    pub open spec fn spec_can_exit(&self) -> bool {
        self@ matches Some(held) && (held matches Ok(state) ==> state is Exited)
    }

    /// Wraps an application that has not been started.
    pub fn new(state: A::Uninitialized) -> (adapter: Self)
        ensures
            adapter@ == Some(Ok::<State<A, T>, A::Error>(State::Uninitialized(state))),
    {
        Self(Takeable::new(Ok(State::Uninitialized(state))))
    }

    /// Whether a callback was cut short, so that the adapter holds nothing any more.
    pub fn is_poisoned(&self) -> (poisoned: bool)
        ensures
            poisoned == (self@ is None),
    {
        self.0.peek().is_none()
    }

    /// The phase the application is in, or `None` if an operation has failed or the adapter
    /// is poisoned.
    pub fn phase(&self) -> (phase: Option<Phase>)
        ensures
            phase == match self@ {
                Some(Ok(state)) => Some(state.phase()),
                _ => None,
            },
    {
        match self.0.peek() {
            Some(Ok(state)) => Some(state.phase()),
            _ => None,
        }
    }

    /// Whether `signal` may be delivered to the adapter as it is.
    #[verifier::when_used_as_spec(spec_accepts)]
    pub fn accepts(&self, signal: Signal) -> (accepted: bool)
        ensures
            accepted == self.spec_accepts(signal),
    {
        match self.0.peek() {
            Some(Ok(state)) => state.phase().next(signal).is_some(),
            Some(Err(_)) => true,
            None => false,
        }
    }

    /// Whether the run may be ended: the application has exited, or an operation has failed.
    #[verifier::when_used_as_spec(spec_can_exit)]
    pub fn can_exit(&self) -> (finished: bool)
        ensures
            finished == self.spec_can_exit(),
    {
        match self.0.peek() {
            Some(Ok(State::Exited(_))) => true,
            Some(Ok(_)) => false,
            Some(Err(_)) => true,
            None => false,
        }
    }

    /// Ends the run and returns what it left.
    pub fn exit(self) -> (result: ApplicationResult<A, T>)
        requires
            self.can_exit(),
        ensures
            self@ == Some(concluded::<A, T>(result)),
    {
        match self.0.get() {
            Ok(State::Exited(state)) => Ok(state),
            Ok(_) => unreached(),
            Err(error) => Err(error),
        }
    }

    /// Ends the run of a loop that returned `loop_result`.
    ///
    /// An error of the loop is handed on as it is, whatever the adapter holds. After a loop
    /// that ended well, the result is what the run left of the application.
    pub fn finish(self, loop_result: Result<(), winit::error::EventLoopError>) -> (result: Result<
        ApplicationResult<A, T>,
        winit::error::EventLoopError,
    >)
        requires
            loop_result is Ok ==> self.can_exit(),
        ensures
            match loop_result {
                Ok(_) => result matches Ok(left) && self@ == Some(concluded::<A, T>(left)),
                Err(error) => result == Err::<ApplicationResult<A, T>, _>(error),
            },
    {
        match loop_result {
            Ok(_) => Ok(self.exit()),
            Err(error) => Err(error),
        }
    }

    /// Applies `f` to the application, unless an operation has failed before. If `f` fails,
    /// asks the loop to exit before the error is kept.
    fn transition<F: FnOnce(State<A, T>) -> Fallible<A, T>>(
        &mut self,
        event_loop: &A::EventLoop,
        f: F,
    )
        requires
            old(self)@ is Some,
            old(self)@ matches Some(Ok(state)) ==> call_requires(f, (state,)),
        ensures
            final(self)@ is Some,
            match old(self)@->0 {
                Ok(state) => call_ensures(f, (state,), final(self)@->0),
                Err(_) => final(self)@ == old(self)@,
            },
    {
        self.0.transition(
            |held: Fallible<A, T>| -> (after: Fallible<A, T>)
                requires
                    held matches Ok(state) ==> call_requires(f, (state,)),
                ensures
                    match held {
                        Ok(state) => call_ensures(f, (state,), after),
                        Err(_) => after == held,
                    },
                {
                    match held {
                        Ok(state) => {
                            let after = f(state);
                            if after.is_err() {
                                event_loop.exit();
                            }
                            after
                        },
                        Err(error) => Err(error),
                    }
                }
        )
    }

    /// New events arrive. With the cause `Init` the loop has just been started, and an
    /// application that has not been started is initialized. A running or suspended
    /// application handles the arrival as an event.
    pub fn new_events(&mut self, event_loop: &A::EventLoop, cause: StartCause)
        requires
            old(self).accepts(cause.signal()),
        ensures
            final(self)@ matches Some(after) && delivered(
                old(self)@->0,
                event_loop,
                Trigger::NewEvents(cause),
                after,
            ),
    {
        self.transition(
            event_loop,
            |state: State<A, T>| -> (after: Fallible<A, T>)
                requires
                    next_phase(state.phase(), cause.signal()) is Some,
                ensures
                    stepped(state, event_loop, Trigger::NewEvents(cause), after),
                {
                    Ok(
                        match state {
                            State::Uninitialized(state) => match cause {
                                StartCause::Init => State::Resumed(state.initialize(event_loop)?),
                                _ => unreached(),
                            },
                            State::Resumed(state) => State::Resumed(
                                state.handle(event_loop, EventResumed::NewEvents(cause))?,
                            ),
                            State::Suspended(state) => State::Suspended(
                                state.handle(event_loop, EventSuspended::NewEvents(cause))?,
                            ),
                            State::Exited(_) => unreached(),
                        },
                    )
                }
        )
    }

    /// The application sent itself an event. A running or suspended application handles it.
    pub fn user_event(&mut self, event_loop: &A::EventLoop, event: T)
        requires
            old(self).accepts(Signal::UserEvent),
        ensures
            final(self)@ matches Some(after) && delivered(
                old(self)@->0,
                event_loop,
                Trigger::UserEvent(event),
                after,
            ),
    {
        self.transition(
            event_loop,
            |state: State<A, T>| -> (after: Fallible<A, T>)
                requires
                    next_phase(state.phase(), Signal::UserEvent) is Some,
                ensures
                    stepped(state, event_loop, Trigger::UserEvent(event), after),
                {
                    Ok(
                        match state {
                            State::Uninitialized(_) => unreached(),
                            State::Resumed(state) => State::Resumed(
                                state.handle(event_loop, EventResumed::UserEvent(event))?,
                            ),
                            State::Suspended(state) => State::Suspended(
                                state.handle(event_loop, EventSuspended::UserEvent(event))?,
                            ),
                            State::Exited(_) => unreached(),
                        },
                    )
                }
        )
    }

    /// A device reported an event. A running or suspended application handles it.
    pub fn device_event(&mut self, event_loop: &A::EventLoop,
        device_id: winit::event::DeviceId,
        event: winit::event::DeviceEvent,
    )
        requires
            old(self).accepts(Signal::DeviceEvent),
        ensures
            final(self)@ matches Some(after) && delivered(
                old(self)@->0,
                event_loop,
                Trigger::DeviceEvent { device_id, event },
                after,
            ),
    {
        self.transition(
            event_loop,
            |state: State<A, T>| -> (after: Fallible<A, T>)
                requires
                    next_phase(state.phase(), Signal::DeviceEvent) is Some,
                ensures
                    stepped(state, event_loop, Trigger::DeviceEvent { device_id, event }, after),
                {
                    Ok(
                        match state {
                            State::Uninitialized(_) => unreached(),
                            State::Resumed(state) => State::Resumed(
                                state.handle(event_loop, EventResumed::DeviceEvent { device_id, event })?,
                            ),
                            State::Suspended(state) => State::Suspended(
                                state.handle(event_loop, EventSuspended::DeviceEvent { device_id, event })?,
                            ),
                            State::Exited(_) => unreached(),
                        },
                    )
                }
        )
    }

    /// The loop is about to wait for new events. A running or suspended application handles
    /// that as an event.
    pub fn about_to_wait(&mut self, event_loop: &A::EventLoop)
        requires
            old(self).accepts(Signal::AboutToWait),
        ensures
            final(self)@ matches Some(after) && delivered(
                old(self)@->0,
                event_loop,
                Trigger::AboutToWait,
                after,
            ),
    {
        self.transition(
            event_loop,
            |state: State<A, T>| -> (after: Fallible<A, T>)
                requires
                    next_phase(state.phase(), Signal::AboutToWait) is Some,
                ensures
                    stepped(state, event_loop, Trigger::AboutToWait, after),
                {
                    Ok(
                        match state {
                            State::Uninitialized(_) => unreached(),
                            State::Resumed(state) => State::Resumed(
                                state.handle(event_loop, EventResumed::AboutToWait)?,
                            ),
                            State::Suspended(state) => State::Suspended(
                                state.handle(event_loop, EventSuspended::AboutToWait)?,
                            ),
                            State::Exited(_) => unreached(),
                        },
                    )
                }
        )
    }

    /// The application is being suspended. A running application is suspended; one that is
    /// suspended already stays as it is.
    pub fn suspended(&mut self, event_loop: &A::EventLoop)
        requires
            old(self).accepts(Signal::Suspended),
        ensures
            final(self)@ matches Some(after) && delivered(
                old(self)@->0,
                event_loop,
                Trigger::Suspended,
                after,
            ),
    {
        self.transition(
            event_loop,
            |state: State<A, T>| -> (after: Fallible<A, T>)
                requires
                    next_phase(state.phase(), Signal::Suspended) is Some,
                ensures
                    stepped(state, event_loop, Trigger::Suspended, after),
                {
                    Ok(
                        match state {
                            State::Uninitialized(_) => unreached(),
                            State::Resumed(state) => State::Suspended(state.suspend(event_loop)?),
                            State::Suspended(state) => State::Suspended(state),
                            State::Exited(_) => unreached(),
                        },
                    )
                }
        )
    }

    /// The loop is shutting down. A running or suspended application exits.
    pub fn exiting(&mut self, event_loop: &A::EventLoop)
        requires
            old(self).accepts(Signal::Exiting),
        ensures
            final(self)@ matches Some(after) && delivered(
                old(self)@->0,
                event_loop,
                Trigger::Exiting,
                after,
            ),
    {
        self.transition(
            event_loop,
            |state: State<A, T>| -> (after: Fallible<A, T>)
                requires
                    next_phase(state.phase(), Signal::Exiting) is Some,
                ensures
                    stepped(state, event_loop, Trigger::Exiting, after),
                {
                    Ok(
                        match state {
                            State::Uninitialized(_) => unreached(),
                            State::Resumed(state) => State::Exited(state.exit(event_loop)?),
                            State::Suspended(state) => State::Exited(state.exit(event_loop)?),
                            State::Exited(_) => unreached(),
                        },
                    )
                }
        )
    }

    /// The host is short of memory. A running or suspended application handles that as an
    /// event.
    pub fn memory_warning(&mut self, event_loop: &A::EventLoop)
        requires
            old(self).accepts(Signal::MemoryWarning),
        ensures
            final(self)@ matches Some(after) && delivered(
                old(self)@->0,
                event_loop,
                Trigger::MemoryWarning,
                after,
            ),
    {
        self.transition(
            event_loop,
            |state: State<A, T>| -> (after: Fallible<A, T>)
                requires
                    next_phase(state.phase(), Signal::MemoryWarning) is Some,
                ensures
                    stepped(state, event_loop, Trigger::MemoryWarning, after),
                {
                    Ok(
                        match state {
                            State::Uninitialized(_) => unreached(),
                            State::Resumed(state) => State::Resumed(
                                state.handle(event_loop, EventResumed::MemoryWarning)?,
                            ),
                            State::Suspended(state) => State::Suspended(
                                state.handle(event_loop, EventSuspended::MemoryWarning)?,
                            ),
                            State::Exited(_) => unreached(),
                        },
                    )
                }
        )
    }

    /// The application is being resumed. A suspended application is resumed; one that runs
    /// already stays as it is.
    pub fn resumed(&mut self, event_loop: &A::EventLoop)
        requires
            old(self).accepts(Signal::Resumed),
        ensures
            final(self)@ matches Some(after) && delivered(
                old(self)@->0,
                event_loop,
                Trigger::Resumed,
                after,
            ),
    {
        self.transition(
            event_loop,
            |state: State<A, T>| -> (after: Fallible<A, T>)
                requires
                    next_phase(state.phase(), Signal::Resumed) is Some,
                ensures
                    stepped(state, event_loop, Trigger::Resumed, after),
                {
                    Ok(
                        match state {
                            State::Uninitialized(_) => unreached(),
                            State::Resumed(state) => State::Resumed(state),
                            State::Suspended(state) => State::Resumed(state.resume(event_loop)?),
                            State::Exited(_) => unreached(),
                        },
                    )
                }
        )
    }

    /// A window got an event. Only a running application holds a window: it handles the
    /// event.
    pub fn window_event(&mut self, event_loop: &A::EventLoop,
        window_id: winit::window::WindowId,
        event: winit::event::WindowEvent,
    )
        requires
            old(self).accepts(Signal::WindowEvent),
        ensures
            final(self)@ matches Some(after) && delivered(
                old(self)@->0,
                event_loop,
                Trigger::WindowEvent { window_id, event },
                after,
            ),
    {
        self.transition(
            event_loop,
            |state: State<A, T>| -> (after: Fallible<A, T>)
                requires
                    next_phase(state.phase(), Signal::WindowEvent) is Some,
                ensures
                    stepped(state, event_loop, Trigger::WindowEvent { window_id, event }, after),
                {
                    Ok(
                        match state {
                            State::Uninitialized(_) => unreached(),
                            State::Resumed(state) => State::Resumed(
                                state.handle(
                                    event_loop,
                                    EventResumed::WindowEvent { window_id, event },
                                )?,
                            ),
                            State::Suspended(_) => unreached(),
                            State::Exited(_) => unreached(),
                        },
                    )
                }
        )
    }
}

} // verus!
