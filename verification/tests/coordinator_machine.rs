use munin_service::control::{handle_control_event, ControlEvent, HandlerResult, LifecycleCommand};
use munin_service::coordinator::{announce, Coordinator, CoordinatorEvent, Directive};
use munin_service::lifecycle::{AcceptedControls, Control, LifecycleState, StatusReport, NO_ERROR};
use tokio::sync::mpsc::unbounded_channel;

fn report(state: LifecycleState, stop: bool) -> StatusReport {
    StatusReport {
        state,
        accepted: AcceptedControls { stop, pause_continue: false },
        exit_code: 0,
        checkpoint: 0,
        wait_hint_ms: 0,
    }
}

fn running() -> Coordinator {
    let mut c = Coordinator::new();
    c.step(CoordinatorEvent::HandlerRegistered);
    c
}

const SHUTDOWN: CoordinatorEvent = CoordinatorEvent::Command(LifecycleCommand::Shutdown);
const PAUSE: CoordinatorEvent = CoordinatorEvent::Command(LifecycleCommand::Pause);
const CONTINUE: CoordinatorEvent = CoordinatorEvent::Command(LifecycleCommand::Continue);

#[test]
fn a_new_coordinator_is_starting_and_accepts_nothing() {
    let c = Coordinator::new();
    assert_eq!(c.state(), LifecycleState::Starting);
    assert_eq!(c.accepted(), AcceptedControls::none());
    assert!(c.accepted().is_empty());
    assert_eq!(c.directive(), Directive::Register);
}

#[test]
fn registration_reports_running_with_stop_accepted() {
    let mut c = Coordinator::new();
    let reports = c.step(CoordinatorEvent::HandlerRegistered);
    assert_eq!(reports, vec![report(LifecycleState::Running, true)]);
    assert_eq!(c.state(), LifecycleState::Running);
    assert_eq!(c.accepted(), AcceptedControls::stop_only());
    assert!(c.accepted().contains(Control::Stop));
    assert!(!c.accepted().contains(Control::PauseContinue));
    assert_eq!(c.directive(), Directive::Supervise);
}

#[test]
fn announce_fills_in_the_fixed_fields() {
    let r = announce(LifecycleState::Running);
    assert_eq!(r.exit_code, NO_ERROR);
    assert_eq!(r.checkpoint, 0);
    assert_eq!(r.wait_hint_ms, 0);
    assert_eq!(r, report(LifecycleState::Running, true));
    assert_eq!(announce(LifecycleState::Paused), report(LifecycleState::Paused, true));
    for state in [
        LifecycleState::Starting,
        LifecycleState::PausePending,
        LifecycleState::ContinuePending,
        LifecycleState::StoppedPending,
        LifecycleState::Stopped,
    ] {
        assert_eq!(announce(state), report(state, false));
    }
}

#[test]
fn shutdown_stops_the_worker_then_reports_stopped() {
    let mut c = running();
    assert_eq!(c.step(SHUTDOWN), vec![]);
    assert_eq!(c.state(), LifecycleState::StoppedPending);
    assert!(c.accepted().is_empty());
    assert_eq!(c.directive(), Directive::StopWorker);
    assert_eq!(c.step(CoordinatorEvent::WorkerExited), vec![report(LifecycleState::Stopped, false)]);
    assert_eq!(c.state(), LifecycleState::Stopped);
    assert!(c.accepted().is_empty());
    assert_eq!(c.directive(), Directive::Exit);
}

#[test]
fn a_closed_channel_stops_the_worker_like_a_shutdown() {
    let mut c = running();
    assert_eq!(c.step(CoordinatorEvent::ChannelClosed), vec![]);
    assert_eq!(c.state(), LifecycleState::StoppedPending);
    assert_eq!(c.directive(), Directive::StopWorker);
}

#[test]
fn a_timeout_lets_the_worker_go_on() {
    let mut c = running();
    for _ in 0u32..3 {
        assert_eq!(c.step(CoordinatorEvent::TimedOut), vec![]);
        assert_eq!(c.state(), LifecycleState::Running);
        assert_eq!(c.directive(), Directive::Supervise);
    }
}

#[test]
fn duplicate_shutdowns_stop_the_worker_once_and_report_stopped_once() {
    for n in 1u32..=6 {
        let mut c = running();
        let mut reports = Vec::new();
        let mut worker_stops: u32 = 0;
        for _ in 0u32..n {
            let before = c.directive();
            reports.extend(c.step(SHUTDOWN));
            if before == Directive::Supervise && c.directive() == Directive::StopWorker {
                worker_stops += 1;
            }
        }
        reports.extend(c.step(CoordinatorEvent::WorkerExited));
        for _ in 0u32..n {
            reports.extend(c.step(SHUTDOWN));
        }
        assert_eq!(worker_stops, 1);
        assert_eq!(reports, vec![report(LifecycleState::Stopped, false)]);
        assert_eq!(c.state(), LifecycleState::Stopped);
    }
}

#[test]
fn nothing_happens_after_stopped() {
    let mut c = running();
    c.step(SHUTDOWN);
    c.step(CoordinatorEvent::WorkerExited);
    for event in [
        CoordinatorEvent::HandlerRegistered,
        SHUTDOWN,
        PAUSE,
        CONTINUE,
        CoordinatorEvent::ChannelClosed,
        CoordinatorEvent::TimedOut,
        CoordinatorEvent::WorkerExited,
    ] {
        assert_eq!(c.step(event), vec![]);
        assert_eq!(c.state(), LifecycleState::Stopped);
        assert_eq!(c.directive(), Directive::Exit);
    }
}

#[test]
fn before_registration_only_registration_counts() {
    for event in [
        SHUTDOWN,
        PAUSE,
        CONTINUE,
        CoordinatorEvent::ChannelClosed,
        CoordinatorEvent::TimedOut,
        CoordinatorEvent::WorkerExited,
    ] {
        let mut c = Coordinator::new();
        assert_eq!(c.step(event), vec![]);
        assert_eq!(c.state(), LifecycleState::Starting);
    }
}

#[test]
fn pause_reports_the_pending_state_then_paused() {
    let mut c = running();
    assert_eq!(
        c.step(PAUSE),
        vec![report(LifecycleState::PausePending, false), report(LifecycleState::Paused, true)]
    );
    assert_eq!(c.state(), LifecycleState::Paused);
    assert_eq!(c.accepted(), AcceptedControls::stop_only());
    assert_eq!(c.directive(), Directive::Supervise);
    assert_eq!(c.step(PAUSE), vec![]);
    assert_eq!(c.state(), LifecycleState::Paused);
}

#[test]
fn continue_reports_the_pending_state_then_running() {
    let mut c = running();
    assert_eq!(c.step(CONTINUE), vec![]);
    c.step(PAUSE);
    assert_eq!(
        c.step(CONTINUE),
        vec![report(LifecycleState::ContinuePending, false), report(LifecycleState::Running, true)]
    );
    assert_eq!(c.state(), LifecycleState::Running);
}

#[test]
fn a_paused_service_can_be_stopped() {
    let mut c = running();
    c.step(PAUSE);
    assert_eq!(c.step(SHUTDOWN), vec![]);
    assert_eq!(c.state(), LifecycleState::StoppedPending);
    assert_eq!(c.step(PAUSE), vec![]);
    assert_eq!(c.step(CONTINUE), vec![]);
    assert_eq!(c.step(CoordinatorEvent::WorkerExited), vec![report(LifecycleState::Stopped, false)]);
}

#[test]
fn a_worker_that_exits_on_its_own_is_reported_stopped() {
    let mut c = running();
    assert_eq!(c.step(CoordinatorEvent::WorkerExited), vec![report(LifecycleState::Stopped, false)]);
    assert_eq!(c.state(), LifecycleState::Stopped);
    assert!(c.accepted().is_empty());
}

fn deliver(c: &mut Coordinator, event: ControlEvent) -> (HandlerResult, Vec<StatusReport>) {
    let (tx, mut rx) = unbounded_channel::<LifecycleCommand>();
    let handled = handle_control_event(event, &tx);
    let mut reports = Vec::new();
    while let Ok(command) = rx.try_recv() {
        reports.extend(c.step(CoordinatorEvent::Command(command)));
    }
    (handled.result, reports)
}

#[test]
fn interrogate_changes_neither_state_nor_accepted_controls() {
    for paused in [false, true] {
        let mut c = running();
        if paused {
            c.step(PAUSE);
        }
        let (state, accepted) = (c.state(), c.accepted());
        assert_eq!(deliver(&mut c, ControlEvent::Interrogate), (HandlerResult::NoError, vec![]));
        assert_eq!((c.state(), c.accepted()), (state, accepted));
    }
}

#[test]
fn unknown_signals_leave_the_lifecycle_alone() {
    for event in [
        ControlEvent::UserEvent(128),
        ControlEvent::UserEvent(131),
        ControlEvent::Other(5),
        ControlEvent::Other(130),
    ] {
        let mut c = running();
        assert_eq!(deliver(&mut c, event), (HandlerResult::NotImplemented, vec![]));
        assert_eq!(c.state(), LifecycleState::Running);
        assert_eq!(c.accepted(), AcceptedControls::stop_only());
    }
}

#[test]
fn stop_and_the_reserved_user_code_have_the_same_effect() {
    let mut by_stop = running();
    let mut by_code = running();
    assert_eq!(
        deliver(&mut by_stop, ControlEvent::Stop),
        deliver(&mut by_code, ControlEvent::UserEvent(130))
    );
    assert_eq!(by_stop.state(), LifecycleState::StoppedPending);
    assert_eq!(by_code.state(), LifecycleState::StoppedPending);
    assert_eq!(by_stop.directive(), Directive::StopWorker);
    assert_eq!(by_code.directive(), Directive::StopWorker);
}

#[test]
fn a_service_run_reports_running_then_stopped() {
    let (tx, mut rx) = unbounded_channel::<LifecycleCommand>();
    let mut c = Coordinator::new();
    let mut reports = Vec::new();
    let mut accepted = vec![c.accepted()];
    loop {
        let event = match c.directive() {
            Directive::Register => CoordinatorEvent::HandlerRegistered,
            Directive::Supervise => {
                handle_control_event(ControlEvent::Stop, &tx);
                match rx.try_recv() {
                    Ok(command) => CoordinatorEvent::Command(command),
                    Err(_) => CoordinatorEvent::TimedOut,
                }
            }
            Directive::StopWorker => CoordinatorEvent::WorkerExited,
            Directive::Exit => break,
        };
        reports.extend(c.step(event));
        if accepted.last() != Some(&c.accepted()) {
            accepted.push(c.accepted());
        }
    }
    assert_eq!(
        reports,
        vec![report(LifecycleState::Running, true), report(LifecycleState::Stopped, false)]
    );
    assert_eq!(
        accepted,
        vec![AcceptedControls::none(), AcceptedControls::stop_only(), AcceptedControls::none()]
    );
}
