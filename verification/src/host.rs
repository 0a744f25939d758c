//! What the library needs of the host run loop.

use vstd::prelude::*;

verus! {

/// `winit::event_loop::ActiveEventLoop`, the handle that winit passes to every callback
/// while its loop runs. The library never looks into one.
#[verifier::external_type_specification]
#[verifier::external_body]
pub struct ExActiveEventLoop(winit::event_loop::ActiveEventLoop);

/// `winit::error::EventLoopError`, the error with which winit's loop may end. The library
/// never looks into one.
#[verifier::external_type_specification]
#[verifier::external_body]
pub struct ExEventLoopError(winit::error::EventLoopError);

/// The handle on the running host loop that every callback comes with.
///
/// The library asks one thing of it: to stop the loop. Applications get the same handle and
/// may ask more of it, such as a window.
pub trait EventLoopHandle {
    /// Asks the loop to stop. The loop is expected to tell the application that it is
    /// exiting before it returns.
    fn exit(&self);
}

/// Calls `winit::event_loop::ActiveEventLoop::exit`, which asks winit's loop to stop.
/// It returns nothing, and nothing is claimed of it.
#[verifier::external_body]
fn request_exit(event_loop: &winit::event_loop::ActiveEventLoop) {
    event_loop.exit()
}

impl EventLoopHandle for winit::event_loop::ActiveEventLoop {
    fn exit(&self) {
        request_exit(self)
    }
}

} // verus!
