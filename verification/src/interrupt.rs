//! The interrupt state machine: two pending flags set by the asynchronous
//! console callback and consumed by the engine's poll. The callback side does
//! minimal work (a flag set only); the application layer holds a value of
//! this type behind a mutual-exclusion primitive shared between the callback
//! and the engine thread, and keeps both critical sections short.

use vstd::prelude::*;

verus! {

/// What the engine observes when it polls the controller.
#[derive(Clone, Copy, Debug, PartialEq, Eq, Structural)]
pub enum InterruptSignal {
    /// No interrupt is pending.
    Idle,
    /// The operator asked to terminate; terminal once observed.
    StopRequested,
    /// The operator asked for a statistics snapshot; cleared after acting.
    DisplayRequested,
}

/// The console control code that means "terminate" (Control-C).
pub const CTRL_C_EVENT_CODE: u32 = 0;

/// The console control code that means "show statistics" (Control-Break).
pub const CTRL_BREAK_EVENT_CODE: u32 = 1;

/// The shared signal state: written by the interrupt callback on an
/// arbitrary thread, read and cleared by the engine loop.
#[derive(Clone, Copy, Debug, PartialEq, Eq, Structural)]
pub struct InterruptController {
    pub stop_pending: bool,
    pub display_pending: bool,
}

impl InterruptController {
    /// The signal a poll observes: a pending stop always wins over a pending
    /// display request, by this rule and not by evaluation order.
    pub open spec fn spec_poll_signal(self) -> InterruptSignal {
        if self.stop_pending {
            InterruptSignal::StopRequested
        } else if self.display_pending {
            InterruptSignal::DisplayRequested
        } else {
            InterruptSignal::Idle
        }
    }

    /// Fresh state with nothing pending.
    pub fn new() -> (c: InterruptController)
        ensures
            !c.stop_pending,
            !c.display_pending,
    {
        InterruptController { stop_pending: false, display_pending: false }
    }

    /// Callback side of a "terminate" notification: sets the flag, nothing
    /// more.
    pub fn request_stop(&mut self)
        ensures
            final(self).stop_pending,
            final(self).display_pending == old(self).display_pending,
    {
        self.stop_pending = true;
    }

    /// Callback side of a "show statistics" notification: sets the flag,
    /// nothing more.
    pub fn request_display(&mut self)
        ensures
            final(self).display_pending,
            final(self).stop_pending == old(self).stop_pending,
    {
        self.display_pending = true;
    }

    /// Interpret one console control code, as the registered callback
    /// receives it: "terminate" requests a stop, "break" requests a
    /// statistics display, anything else is left to the platform. Returns
    /// whether the code was handled.
    pub fn handle_control_event(&mut self, code: u32) -> (handled: bool)
        ensures
            code == CTRL_C_EVENT_CODE ==> final(self).stop_pending
                && final(self).display_pending == old(self).display_pending
                && handled,
            code == CTRL_BREAK_EVENT_CODE ==> final(self).display_pending
                && final(self).stop_pending == old(self).stop_pending
                && handled,
            code != CTRL_C_EVENT_CODE && code != CTRL_BREAK_EVENT_CODE ==> *final(self)
                == *old(self) && !handled,
    {
        if code == CTRL_C_EVENT_CODE {
            self.request_stop();
            true
        } else if code == CTRL_BREAK_EVENT_CODE {
            self.request_display();
            true
        } else {
            false
        }
    }

    /// Engine side: observe the pending signal. A stop stays pending (it is
    /// terminal); a display request is cleared exactly when it is the signal
    /// returned, so acting on it consumes it.
    pub fn poll(&mut self) -> (s: InterruptSignal)
        ensures
            s == old(self).spec_poll_signal(),
            final(self).stop_pending == old(self).stop_pending,
            final(self).display_pending == (old(self).stop_pending && old(self).display_pending),
    {
        if self.stop_pending {
            InterruptSignal::StopRequested
        } else if self.display_pending {
            self.display_pending = false;
            InterruptSignal::DisplayRequested
        } else {
            InterruptSignal::Idle
        }
    }
}

} // verus!
