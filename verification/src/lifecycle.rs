//! The values a running service announces to the control plane.

use vstd::prelude::*;

verus! {

/// The phase of a running service instance. Exactly one is authoritative at
/// any instant.
#[derive(Clone, Copy, Debug, PartialEq, Eq, Structural)]
pub enum LifecycleState {
    Starting,
    Running,
    PausePending,
    Paused,
    ContinuePending,
    StoppedPending,
    Stopped,
}

/// A control signal that a service can advertise as accepted.
#[derive(Clone, Copy, Debug, PartialEq, Eq, Structural)]
pub enum Control {
    Stop,
    PauseContinue,
}

/// The set of control signals that the service currently accepts.
#[derive(Clone, Copy, Debug, PartialEq, Eq, Structural)]
pub struct AcceptedControls {
    pub stop: bool,
    pub pause_continue: bool,
}

impl View for AcceptedControls {
    type V = Set<Control>;

    open spec fn view(&self) -> Set<Control> {
        Set::new(
            |c: Control|
                match c {
                    Control::Stop => self.stop,
                    Control::PauseContinue => self.pause_continue,
                },
        )
    }
}

impl AcceptedControls {
    /// The empty set: no control signal is accepted.
    pub fn none() -> (r: AcceptedControls)
        ensures
            r@ == Set::<Control>::empty(),
            r == (AcceptedControls { stop: false, pause_continue: false }),
    {
        let r = AcceptedControls { stop: false, pause_continue: false };
        assert(r@ =~= Set::<Control>::empty());
        r
    }

    /// The set that holds `Control::Stop` and nothing else.
    pub fn stop_only() -> (r: AcceptedControls)
        ensures
            r@ == Set::<Control>::empty().insert(Control::Stop),
            r == (AcceptedControls { stop: true, pause_continue: false }),
    {
        let r = AcceptedControls { stop: true, pause_continue: false };
        assert(r@ =~= Set::<Control>::empty().insert(Control::Stop));
        r
    }

    /// Whether `control` is in the set.
    pub fn contains(&self, control: Control) -> (r: bool)
        ensures
            r == self@.contains(control),
    {
        match control {
            Control::Stop => self.stop,
            Control::PauseContinue => self.pause_continue,
        }
    }

    /// Whether no control signal is accepted.
    pub fn is_empty(&self) -> (r: bool)
        ensures
            r == (self@ == Set::<Control>::empty()),
    {
        proof {
            if !self.stop && !self.pause_continue {
                assert(self@ =~= Set::<Control>::empty());
            } else if self.stop {
                assert(self@.contains(Control::Stop));
            } else {
                assert(self@.contains(Control::PauseContinue));
            }
        }
        !self.stop && !self.pause_continue
    }
}

/// Exit code that reports "no error".
pub const NO_ERROR: u32 = 0;

/// One announcement of the service's state to the control plane.
#[derive(Clone, Copy, Debug, PartialEq, Eq, Structural)]
pub struct StatusReport {
    /// The state the service is in from this report on.
    pub state: LifecycleState,
    /// The control signals accepted from this report on.
    pub accepted: AcceptedControls,
    /// `NO_ERROR`, or the code of the error that ended the service.
    pub exit_code: u32,
    /// Progress counter of a pending transition; zero when none is pending.
    pub checkpoint: u32,
    /// How long a pending transition may still take, in milliseconds; zero
    /// says that the change is immediate.
    pub wait_hint_ms: u32,
}

} // verus!
