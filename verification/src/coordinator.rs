//! The lifecycle coordinator: the state machine that owns the service's
//! lifecycle state and its accepted controls.
//!
//! The caller drives it. It performs what `directive` asks (register the
//! handler, let the worker run and wait for a command, stop the worker), hands
//! back what happened as a `CoordinatorEvent`, and sends the status reports
//! that `step` returns, in order. A report that cannot be sent, like a handler
//! that cannot be registered, ends the run: the caller stops driving.
//!
//! Pausing is a reported status only. A paused service keeps its worker
//! running and keeps accepting a stop; nothing but the reports tells the two
//! states apart.

use vstd::prelude::*;
use crate::control::{command_of, response_to, SHUTDOWN_USER_CODE};
use crate::control::{ControlEvent, HandlerResult, LifecycleCommand};
use crate::lifecycle::{AcceptedControls, Control, LifecycleState, StatusReport, NO_ERROR};

verus! {

/// What the caller observed while driving the coordinator.
#[derive(Clone, Copy, Debug, PartialEq, Eq, Structural)]
pub enum CoordinatorEvent {
    /// The control-signal handler is registered with the control plane.
    HandlerRegistered,
    /// The handler forwarded a command.
    Command(LifecycleCommand),
    /// Every sender of commands is gone. This is a request to stop.
    ChannelClosed,
    /// The wait for a command ran out. The worker goes on.
    TimedOut,
    /// The worker loop has yielded control.
    WorkerExited,
}

/// What the caller does next.
#[derive(Clone, Copy, Debug, PartialEq, Eq, Structural)]
pub enum Directive {
    /// Register the control-signal handler, then hand back
    /// `CoordinatorEvent::HandlerRegistered`.
    Register,
    /// Let the worker run and wait for a command, then hand back what the
    /// wait gave. A worker with work of its own does one unit of it and waits
    /// no longer than one check interval; an idle worker just waits.
    Supervise,
    /// Have the worker loop yield, then hand back
    /// `CoordinatorEvent::WorkerExited`.
    StopWorker,
    /// The service has stopped and said so. Leave.
    Exit,
}

/// The controls a service in `state` accepts: a stop while it runs or is
/// paused, nothing otherwise.
pub open spec fn accepted_in(state: LifecycleState) -> AcceptedControls {
    AcceptedControls {
        stop: state == LifecycleState::Running || state == LifecycleState::Paused,
        pause_continue: false,
    }
}

/// The report that announces `state`: no error, no checkpoint, and a zero
/// wait hint, which says that the change is immediate.
pub open spec fn report_of(state: LifecycleState) -> StatusReport {
    StatusReport {
        state,
        accepted: accepted_in(state),
        exit_code: NO_ERROR,
        checkpoint: 0,
        wait_hint_ms: 0,
    }
}

/// Whether the worker loop runs in `state`.
pub open spec fn supervising(state: LifecycleState) -> bool {
    state == LifecycleState::Running || state == LifecycleState::Paused
}

/// Whether `event` asks the service to stop.
pub open spec fn asks_to_stop(event: CoordinatorEvent) -> bool {
    event == CoordinatorEvent::Command(LifecycleCommand::Shutdown) || event
        == CoordinatorEvent::ChannelClosed
}

/// The state that follows `state` on `event`. An event that does not apply
/// leaves the state as it is.
pub open spec fn next_state(state: LifecycleState, event: CoordinatorEvent) -> LifecycleState {
    if state == LifecycleState::Starting && event == CoordinatorEvent::HandlerRegistered {
        LifecycleState::Running
    } else if supervising(state) && asks_to_stop(event) {
        LifecycleState::StoppedPending
    } else if state == LifecycleState::Running && event == CoordinatorEvent::Command(
        LifecycleCommand::Pause,
    ) {
        LifecycleState::Paused
    } else if state == LifecycleState::Paused && event == CoordinatorEvent::Command(
        LifecycleCommand::Continue,
    ) {
        LifecycleState::Running
    } else if (supervising(state) || state == LifecycleState::StoppedPending) && event
        == CoordinatorEvent::WorkerExited {
        LifecycleState::Stopped
    } else {
        state
    }
}

/// The reports that the step from `state` on `event` sends, in order.
///
/// Running and Stopped are announced when they are entered. A pause and a
/// continue announce their pending state first. Entering StoppedPending is
/// not announced: the worker yields within one check interval, and the report
/// of Stopped follows.
pub open spec fn reports_on(state: LifecycleState, event: CoordinatorEvent) -> Seq<StatusReport> {
    let next = next_state(state, event);
    if next == state || next == LifecycleState::StoppedPending {
        Seq::empty()
    } else if state == LifecycleState::Running && next == LifecycleState::Paused {
        seq![report_of(LifecycleState::PausePending), report_of(next)]
    } else if state == LifecycleState::Paused && next == LifecycleState::Running {
        seq![report_of(LifecycleState::ContinuePending), report_of(next)]
    } else {
        seq![report_of(next)]
    }
}

/// What the caller does next when the coordinator is in `state`.
pub open spec fn directive_in(state: LifecycleState) -> Directive {
    if state == LifecycleState::Starting {
        Directive::Register
    } else if state == LifecycleState::Stopped {
        Directive::Exit
    } else if supervising(state) {
        Directive::Supervise
    } else {
        Directive::StopWorker
    }
}

/// What a coordinator holds.
pub struct CoordinatorView {
    pub state: LifecycleState,
    pub accepted: AcceptedControls,
}

impl CoordinatorView {
    /// A coordinator rests only in a state that is not a pending pause or
    /// continue, and accepts what that state accepts.
    pub open spec fn wf(self) -> bool {
        &&& self.state != LifecycleState::PausePending
        &&& self.state != LifecycleState::ContinuePending
        &&& self.accepted == accepted_in(self.state)
    }

    /// The coordinator before anything has happened.
    pub open spec fn initial() -> CoordinatorView {
        CoordinatorView {
            state: LifecycleState::Starting,
            accepted: accepted_in(LifecycleState::Starting),
        }
    }

    /// The coordinator after `event`.
    pub open spec fn after(self, event: CoordinatorEvent) -> CoordinatorView {
        let next = next_state(self.state, event);
        if next == self.state {
            self
        } else {
            CoordinatorView { state: next, accepted: accepted_in(next) }
        }
    }

    /// The coordinator after the control-signal handler has handled `event`
    /// and its command, if it carries one, has arrived.
    pub open spec fn after_control(self, event: ControlEvent) -> CoordinatorView {
        match command_of(event) {
            Some(command) => self.after(CoordinatorEvent::Command(command)),
            None => self,
        }
    }
}

/// The lifecycle coordinator. It alone holds the lifecycle state and the
/// accepted controls, and changes them only in `step`.
#[derive(Debug)]
pub struct Coordinator {
    state: LifecycleState,
    accepted: AcceptedControls,
}

impl View for Coordinator {
    type V = CoordinatorView;

    closed spec fn view(&self) -> CoordinatorView {
        CoordinatorView { state: self.state, accepted: self.accepted }
    }
}

impl Coordinator {
    #[verifier::type_invariant]
    spec fn inv(self) -> bool {
        self@.wf()
    }

    /// A coordinator in state Starting, which accepts no control.
    pub fn new() -> (c: Coordinator)
        ensures
            c@ == CoordinatorView::initial(),
            c@.wf(),
    {
        Coordinator { state: LifecycleState::Starting, accepted: AcceptedControls::none() }
    }

    /// The authoritative lifecycle state.
    pub fn state(&self) -> (s: LifecycleState)
        ensures
            s == self@.state,
            self@.wf(),
    {
        proof {
            use_type_invariant(self);
        }
        self.state
    }

    /// The controls accepted now.
    pub fn accepted(&self) -> (a: AcceptedControls)
        ensures
            a == self@.accepted,
            a == accepted_in(self@.state),
    {
        proof {
            use_type_invariant(self);
        }
        self.accepted
    }

    /// What the caller does next.
    pub fn directive(&self) -> (d: Directive)
        ensures
            d == directive_in(self@.state),
    {
        match self.state {
            LifecycleState::Starting => Directive::Register,
            LifecycleState::Running | LifecycleState::Paused => Directive::Supervise,
            LifecycleState::Stopped => Directive::Exit,
            _ => Directive::StopWorker,
        }
    }

    /// Takes one event, moves to the state that follows, and returns the
    /// status reports to send, in order.
    pub fn step(&mut self, event: CoordinatorEvent) -> (reports: Vec<StatusReport>)
        ensures
            final(self)@ == old(self)@.after(event),
            final(self)@.wf(),
            reports@ == reports_on(old(self)@.state, event),
    {
        proof {
            use_type_invariant(&*self);
        }
        let mut reports: Vec<StatusReport> = Vec::new();
        let next = match (self.state, event) {
            (LifecycleState::Starting, CoordinatorEvent::HandlerRegistered) => {
                LifecycleState::Running
            },
            (
                LifecycleState::Running | LifecycleState::Paused,
                CoordinatorEvent::Command(LifecycleCommand::Shutdown)
                | CoordinatorEvent::ChannelClosed,
            ) => LifecycleState::StoppedPending,
            (LifecycleState::Running, CoordinatorEvent::Command(LifecycleCommand::Pause)) => {
                reports.push(announce(LifecycleState::PausePending));
                LifecycleState::Paused
            },
            (LifecycleState::Paused, CoordinatorEvent::Command(LifecycleCommand::Continue)) => {
                reports.push(announce(LifecycleState::ContinuePending));
                LifecycleState::Running
            },
            (
                LifecycleState::Running | LifecycleState::Paused | LifecycleState::StoppedPending,
                CoordinatorEvent::WorkerExited,
            ) => LifecycleState::Stopped,
            (state, _) => state,
        };
        if next != self.state {
            if next != LifecycleState::StoppedPending {
                reports.push(announce(next));
            }
            *self = Coordinator { state: next, accepted: announce(next).accepted };
        }
        assert(reports@ =~= reports_on(old(self)@.state, event));
        reports
    }
}

/// Builds the report that announces `state`.
pub fn announce(state: LifecycleState) -> (r: StatusReport)
    ensures
        r == report_of(state),
{
    let accepted = match state {
        LifecycleState::Running | LifecycleState::Paused => AcceptedControls::stop_only(),
        _ => AcceptedControls::none(),
    };
    StatusReport { state, accepted, exit_code: NO_ERROR, checkpoint: 0, wait_hint_ms: 0 }
}

/// The state that the coordinator reaches from `state` over `events`, taken in
/// order.
pub open spec fn state_after(state: LifecycleState, events: Seq<CoordinatorEvent>) -> LifecycleState
    decreases events.len(),
{
    if events.len() == 0 {
        state
    } else {
        state_after(next_state(state, events[0]), events.drop_first())
    }
}

/// All the reports that the coordinator sends from `state` over `events`.
pub open spec fn reports_over(state: LifecycleState, events: Seq<CoordinatorEvent>) -> Seq<
    StatusReport,
>
    decreases events.len(),
{
    if events.len() == 0 {
        Seq::empty()
    } else {
        reports_on(state, events[0]) + reports_over(
            next_state(state, events[0]),
            events.drop_first(),
        )
    }
}

/// How often the worker loop ends from `state` over `events`: the number of
/// steps that lead from a state in which it runs to one in which it does not.
pub open spec fn worker_ends_over(state: LifecycleState, events: Seq<CoordinatorEvent>) -> nat
    decreases events.len(),
{
    if events.len() == 0 {
        0
    } else {
        let next = next_state(state, events[0]);
        let here: nat = if supervising(state) && !supervising(next) {
            1
        } else {
            0
        };
        here + worker_ends_over(next, events.drop_first())
    }
}

/// How many of `reports` announce Stopped.
pub open spec fn stopped_count(reports: Seq<StatusReport>) -> nat
    decreases reports.len(),
{
    if reports.len() == 0 {
        0
    } else {
        let here: nat = if reports[0].state == LifecycleState::Stopped {
            1
        } else {
            0
        };
        here + stopped_count(reports.drop_first())
    }
}

proof fn lemma_stopped_count_concat(a: Seq<StatusReport>, b: Seq<StatusReport>)
    ensures
        stopped_count(a + b) == stopped_count(a) + stopped_count(b),
    decreases a.len(),
{
    if a.len() == 0 {
        assert(a + b =~= b);
    } else {
        assert((a + b).drop_first() =~= a.drop_first() + b);
        lemma_stopped_count_concat(a.drop_first(), b);
    }
}

proof fn lemma_stopped_count_of_step(state: LifecycleState, event: CoordinatorEvent)
    ensures
        stopped_count(reports_on(state, event)) == if next_state(state, event)
            == LifecycleState::Stopped && state != LifecycleState::Stopped {
            1nat
        } else {
            0nat
        },
{
    let r = reports_on(state, event);
    let none = Seq::<StatusReport>::empty();
    assert(stopped_count(none) == 0);
    if r.len() == 1 {
        assert(r.drop_first() =~= none);
    } else if r.len() == 2 {
        assert(r.drop_first().drop_first() =~= none);
        assert(r.drop_first()[0] == r[1]);
        assert(stopped_count(r.drop_first()) == 0);
    }
}

/// Whatever happens, in whatever order, the worker loop ends at most once and
/// Stopped is reported at most once. Once the service is stopping, the
/// worker does not end again; once it has stopped, nothing is reported.
pub proof fn lemma_stops_at_most_once(state: LifecycleState, events: Seq<CoordinatorEvent>)
    ensures
        worker_ends_over(state, events) <= 1,
        stopped_count(reports_over(state, events)) <= 1,
        !supervising(state) && state != LifecycleState::Starting ==> worker_ends_over(state, events)
            == 0,
        state == LifecycleState::Stopped ==> reports_over(state, events) == Seq::<
            StatusReport,
        >::empty(),
    decreases events.len(),
{
    if events.len() > 0 {
        let next = next_state(state, events[0]);
        let rest = events.drop_first();
        lemma_stops_at_most_once(next, rest);
        lemma_stopped_count_of_step(state, events[0]);
        lemma_stopped_count_concat(reports_on(state, events[0]), reports_over(next, rest));
        if state == LifecycleState::Stopped {
            assert(reports_over(state, events) =~= Seq::<StatusReport>::empty());
        }
        if next == LifecycleState::Stopped {
            assert(stopped_count(reports_over(next, rest)) == 0);
        }
    }
}

/// However often the shutdown is requested, once or many times over, the
/// worker loop ends exactly once and Stopped is reported exactly once: the
/// first request moves a running or paused service to StoppedPending, the
/// others change nothing, and the worker's exit brings the one report.
pub proof fn lemma_duplicate_shutdowns_stop_once(
    state: LifecycleState,
    requests: Seq<CoordinatorEvent>,
)
    requires
        supervising(state),
        requests.len() >= 1,
        forall|i: int| 0 <= i < requests.len() ==> asks_to_stop(#[trigger] requests[i]),
    ensures
        state_after(state, requests) == LifecycleState::StoppedPending,
        state_after(state, requests.push(CoordinatorEvent::WorkerExited))
            == LifecycleState::Stopped,
        worker_ends_over(state, requests.push(CoordinatorEvent::WorkerExited)) == 1,
        reports_over(state, requests.push(CoordinatorEvent::WorkerExited)) == seq![
            report_of(LifecycleState::Stopped),
        ],
        stopped_count(reports_over(state, requests.push(CoordinatorEvent::WorkerExited))) == 1,
{
    let all = requests.push(CoordinatorEvent::WorkerExited);
    let rest = requests.drop_first();
    let pending = LifecycleState::StoppedPending;
    assert(all[0] == requests[0]);
    assert(asks_to_stop(requests[0]));
    assert(next_state(state, requests[0]) == pending);
    assert(all.drop_first() =~= rest.push(CoordinatorEvent::WorkerExited));
    assert forall|i: int| 0 <= i < rest.len() implies asks_to_stop(#[trigger] rest[i]) by {
        assert(rest[i] == requests[i + 1]);
    }
    lemma_repeated_requests_when_stopping(rest);
    assert(reports_over(state, all) =~= seq![report_of(LifecycleState::Stopped)]);
    lemma_stopped_count_of_step(pending, CoordinatorEvent::WorkerExited);
    assert(reports_on(pending, CoordinatorEvent::WorkerExited) =~= seq![
        report_of(LifecycleState::Stopped),
    ]);
}

proof fn lemma_repeated_requests_when_stopping(requests: Seq<CoordinatorEvent>)
    requires
        forall|i: int| 0 <= i < requests.len() ==> asks_to_stop(#[trigger] requests[i]),
    ensures
        state_after(LifecycleState::StoppedPending, requests) == LifecycleState::StoppedPending,
        state_after(LifecycleState::StoppedPending, requests.push(CoordinatorEvent::WorkerExited))
            == LifecycleState::Stopped,
        worker_ends_over(
            LifecycleState::StoppedPending,
            requests.push(CoordinatorEvent::WorkerExited),
        ) == 0,
        reports_over(LifecycleState::StoppedPending, requests.push(CoordinatorEvent::WorkerExited))
            == seq![report_of(LifecycleState::Stopped)],
    decreases requests.len(),
{
    let all = requests.push(CoordinatorEvent::WorkerExited);
    let pending = LifecycleState::StoppedPending;
    let stopped = LifecycleState::Stopped;
    let no_events = Seq::<CoordinatorEvent>::empty();
    if requests.len() == 0 {
        assert(all.drop_first() =~= no_events);
        assert(all[0] == CoordinatorEvent::WorkerExited);
        assert(next_state(pending, all[0]) == stopped);
        assert(state_after(stopped, no_events) == stopped);
        assert(worker_ends_over(stopped, no_events) == 0);
        assert(reports_over(stopped, no_events) =~= Seq::<StatusReport>::empty());
        assert(reports_over(pending, all) =~= seq![report_of(stopped)]);
    } else {
        let rest = requests.drop_first();
        assert(all[0] == requests[0]);
        assert(asks_to_stop(requests[0]));
        assert(next_state(pending, all[0]) == pending);
        assert(all.drop_first() =~= rest.push(CoordinatorEvent::WorkerExited));
        assert forall|i: int| 0 <= i < rest.len() implies asks_to_stop(#[trigger] rest[i]) by {
            assert(rest[i] == requests[i + 1]);
        }
        lemma_repeated_requests_when_stopping(rest);
        assert(reports_over(pending, all) =~= seq![report_of(stopped)]);
    }
}

/// An interrogation is answered as handled, forwards nothing, and leaves the
/// lifecycle state and the accepted controls as they are.
pub proof fn lemma_interrogate_changes_nothing(c: CoordinatorView)
    ensures
        response_to(ControlEvent::Interrogate) == HandlerResult::NoError,
        command_of(ControlEvent::Interrogate).is_none(),
        c.after_control(ControlEvent::Interrogate) == c,
{
}

/// The reserved user code is a stop in every respect: the same answer, the
/// same command, the same coordinator afterwards. Where the worker loop runs,
/// the step that takes the command has the worker stopped, so it yields at
/// the first wait that the command ends.
pub proof fn lemma_reserved_user_code_is_stop(c: CoordinatorView)
    ensures
        response_to(ControlEvent::UserEvent(SHUTDOWN_USER_CODE)) == response_to(
            ControlEvent::Stop,
        ),
        command_of(ControlEvent::UserEvent(SHUTDOWN_USER_CODE)) == command_of(
            ControlEvent::Stop,
        ),
        command_of(ControlEvent::Stop) == Some(LifecycleCommand::Shutdown),
        c.after_control(ControlEvent::UserEvent(SHUTDOWN_USER_CODE))
            == c.after_control(ControlEvent::Stop),
        supervising(c.state) ==> directive_in(c.after_control(ControlEvent::Stop).state)
            == Directive::StopWorker,
{
}

/// A signal that is neither an interrogation, a stop, a pause, a continue
/// nor the reserved user code is answered as not implemented and leaves the
/// lifecycle state and the accepted controls as they are.
pub proof fn lemma_other_signals_are_refused(c: CoordinatorView, event: ControlEvent)
    requires
        event != ControlEvent::Interrogate,
        event != ControlEvent::Stop,
        event != ControlEvent::Pause,
        event != ControlEvent::Continue,
        event != ControlEvent::UserEvent(SHUTDOWN_USER_CODE),
    ensures
        response_to(event) == HandlerResult::NotImplemented,
        command_of(event).is_none(),
        c.after_control(event) == c,
{
}

/// Every step keeps the coordinator well formed. Each report carries the
/// controls that its state accepts, and from the moment the service is
/// stopping these are none: the set is empty before Stopped is reported.
pub proof fn lemma_step_keeps_well_formed(c: CoordinatorView, event: CoordinatorEvent)
    requires
        c.wf(),
    ensures
        c.after(event).wf(),
        c.after(event).state == next_state(c.state, event),
        c.after(event).accepted == accepted_in(c.after(event).state),
        c.after(event).state == LifecycleState::StoppedPending || c.after(event).state
            == LifecycleState::Stopped ==> c.after(event).accepted@ == Set::<Control>::empty(),
        forall|i: int|
            0 <= i < reports_on(c.state, event).len() ==> (#[trigger] reports_on(c.state, event)[i])
                == report_of(reports_on(c.state, event)[i].state),
        report_of(LifecycleState::Stopped).accepted@ == Set::<Control>::empty(),
        report_of(LifecycleState::Running).accepted@ == Set::<Control>::empty().insert(
            Control::Stop,
        ),
{
    assert(accepted_in(LifecycleState::Stopped)@ =~= Set::<Control>::empty());
    assert(accepted_in(LifecycleState::StoppedPending)@ =~= Set::<Control>::empty());
    assert(accepted_in(LifecycleState::Running)@ =~= Set::<Control>::empty().insert(Control::Stop));
}

/// A whole run, from registration to the end: with the handler registered,
/// one or more requests to stop and the worker's exit, the service reports
/// Running, accepting a stop, and then Stopped, accepting nothing, and
/// reports nothing else.
pub proof fn lemma_run_reports_running_then_stopped(requests: Seq<CoordinatorEvent>)
    requires
        requests.len() >= 1,
        forall|i: int| 0 <= i < requests.len() ==> asks_to_stop(#[trigger] requests[i]),
    ensures
        reports_over(
            LifecycleState::Starting,
            seq![CoordinatorEvent::HandlerRegistered] + requests.push(
                CoordinatorEvent::WorkerExited,
            ),
        ) == seq![report_of(LifecycleState::Running), report_of(LifecycleState::Stopped)],
        state_after(
            LifecycleState::Starting,
            seq![CoordinatorEvent::HandlerRegistered] + requests.push(
                CoordinatorEvent::WorkerExited,
            ),
        ) == LifecycleState::Stopped,
{
    let tail = requests.push(CoordinatorEvent::WorkerExited);
    let all = seq![CoordinatorEvent::HandlerRegistered] + tail;
    assert(all[0] == CoordinatorEvent::HandlerRegistered);
    assert(all.drop_first() =~= tail);
    lemma_duplicate_shutdowns_stop_once(LifecycleState::Running, requests);
    assert(reports_on(LifecycleState::Starting, CoordinatorEvent::HandlerRegistered) =~= seq![
        report_of(LifecycleState::Running),
    ]);
    assert(reports_over(LifecycleState::Starting, all) =~= seq![
        report_of(LifecycleState::Running),
        report_of(LifecycleState::Stopped),
    ]);
}

/// The worker loop cooperates with a shutdown: while it runs, a wait that
/// runs out lets it go on, and a wait that brings the shutdown command, or
/// finds the channel closed, has it stopped at once. What brought the stop
/// makes no difference.
pub proof fn lemma_worker_yields_to_shutdown(state: LifecycleState)
    requires
        supervising(state),
    ensures
        next_state(state, CoordinatorEvent::TimedOut) == state,
        directive_in(next_state(state, CoordinatorEvent::TimedOut)) == Directive::Supervise,
        directive_in(next_state(state, CoordinatorEvent::Command(LifecycleCommand::Shutdown)))
            == Directive::StopWorker,
        directive_in(next_state(state, CoordinatorEvent::ChannelClosed)) == Directive::StopWorker,
        next_state(state, CoordinatorEvent::ChannelClosed) == next_state(
            state,
            CoordinatorEvent::Command(LifecycleCommand::Shutdown),
        ),
{
}

} // verus!
