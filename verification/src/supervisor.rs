//! The daemon's outer loop: set the gadget up, serve the host until it
//! disconnects, and start over until asked to quit.

use vstd::prelude::*;

verus! {

/// How long the daemon waits before it sets the gadget up again, in ms.
pub const RESTART_DELAY_MS: u64 = 2000;

/// How long the daemon lets a forced USB connect settle, in ms.
pub const SOFT_CONNECT_SETTLE_MS: u64 = 1000;

/// How long the daemon waits after unbinding a stale gadget, in ms.
pub const UNBIND_SETTLE_MS: u64 = 500;

/// What the daemon does with a gadget left over in configfs before it sets
/// its own up: when the gadget is bound to a UDC (its `UDC` file exists),
/// unbind it and wait this many ms; either way, then remove all gadgets.
pub fn stale_gadget_unbind_wait(udc_file_exists: bool) -> (wait_ms: Option<u64>)
    ensures
        udc_file_exists ==> wait_ms == Some(UNBIND_SETTLE_MS),
        !udc_file_exists ==> wait_ms is None,
{
    if udc_file_exists {
        Some(UNBIND_SETTLE_MS)
    } else {
        None
    }
}

/// What has just happened in the outer loop.
#[derive(Debug, Clone, Copy, PartialEq, Eq, Structural)]
pub enum LoopEvent {
    /// The loop is about to begin a round.
    RoundStart,
    /// The UVC function, video source or stream could not be set up.
    SetupFailed,
    /// The event loop of a stream returned (the host went away or the
    /// daemon was asked to quit).
    SessionEnded,
}

/// What the outer loop does next.
#[derive(Debug, Clone, Copy, PartialEq, Eq, Structural)]
pub enum LoopStep {
    /// Leave the loop and shut down.
    Stop,
    /// Clean up old gadgets and set a new one up.
    SetUpGadget,
    /// Tear the gadget down, wait this many ms, and begin a new round.
    RestartAfter(u64),
}

pub open spec fn loop_step(event: LoopEvent, quit_requested: bool) -> LoopStep {
    match event {
        LoopEvent::RoundStart => if quit_requested {
            LoopStep::Stop
        } else {
            LoopStep::SetUpGadget
        },
        LoopEvent::SetupFailed => LoopStep::RestartAfter(RESTART_DELAY_MS),
        LoopEvent::SessionEnded => if quit_requested {
            LoopStep::Stop
        } else {
            LoopStep::RestartAfter(RESTART_DELAY_MS)
        },
    }
}

/// The outer loop's next step after `event`, given whether the daemon has
/// been asked to quit. A quit request stops the loop at the start of a
/// round and after a session; a failed setup always waits and starts a new
/// round, which then sees the request.
pub fn next_loop_step(event: LoopEvent, quit_requested: bool) -> (step: LoopStep)
    ensures
        step == loop_step(event, quit_requested),
        quit_requested && event != LoopEvent::SetupFailed ==> step == LoopStep::Stop,
        step == LoopStep::SetUpGadget ==> !quit_requested,
        step == LoopStep::SetUpGadget <==> (event == LoopEvent::RoundStart && !quit_requested),
        step == LoopStep::Stop <==> (event != LoopEvent::SetupFailed && quit_requested),
        step is RestartAfter ==> step == LoopStep::RestartAfter(2000),
{
    match event {
        LoopEvent::RoundStart => if quit_requested {
            LoopStep::Stop
        } else {
            LoopStep::SetUpGadget
        },
        LoopEvent::SetupFailed => LoopStep::RestartAfter(RESTART_DELAY_MS),
        LoopEvent::SessionEnded => if quit_requested {
            LoopStep::Stop
        } else {
            LoopStep::RestartAfter(RESTART_DELAY_MS)
        },
    }
}

} // verus!
