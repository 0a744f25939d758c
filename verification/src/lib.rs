//! By-value, fallible phase transitions on top of a host run loop that only hands out
//! mutable references.
//!
//! An application is a value in one of four phases: `Uninitialized`, `Resumed`, `Suspended`
//! and `Exited`. Each phase has a type of its own, and the operations of a phase consume it
//! and return the next one, or an error. The [`Adapter`] holds the application between the
//! callbacks of the host loop and turns each callback into one such operation.

pub mod adapter;
pub mod application;
pub mod delivery;
pub mod event;
pub mod host;
pub mod laws;
pub mod phase;
pub mod takeable;

pub use crate::adapter::{Adapter, ApplicationResult};
pub use crate::application::{
    Application, ApplicationResumed, ApplicationSuspended, ApplicationUninitialized, State,
};
pub use crate::event::{EventResumed, EventSuspended, StartCause};
pub use crate::host::EventLoopHandle;
pub use crate::phase::{Phase, Signal};
pub use crate::takeable::Takeable;
