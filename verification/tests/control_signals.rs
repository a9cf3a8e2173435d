use munin_service::control::{
    conclude, handle_control_event, translate, ControlEvent, Delivery, Handled, HandlerResult,
    LifecycleCommand, Translation, SHUTDOWN_USER_CODE,
};
use tokio::sync::mpsc::error::TryRecvError;
use tokio::sync::mpsc::unbounded_channel;

#[test]
fn reserved_user_code_is_130() {
    assert_eq!(SHUTDOWN_USER_CODE, 130);
}

#[test]
fn interrogate_is_handled_and_forwards_nothing() {
    assert_eq!(
        translate(ControlEvent::Interrogate),
        Translation { result: HandlerResult::NoError, command: None }
    );
}

#[test]
fn stop_forwards_the_shutdown() {
    assert_eq!(
        translate(ControlEvent::Stop),
        Translation { result: HandlerResult::NoError, command: Some(LifecycleCommand::Shutdown) }
    );
}

#[test]
fn reserved_user_code_translates_as_stop() {
    assert_eq!(translate(ControlEvent::UserEvent(130)), translate(ControlEvent::Stop));
}

#[test]
fn pause_and_continue_forward_their_commands() {
    assert_eq!(
        translate(ControlEvent::Pause),
        Translation { result: HandlerResult::NoError, command: Some(LifecycleCommand::Pause) }
    );
    assert_eq!(
        translate(ControlEvent::Continue),
        Translation { result: HandlerResult::NoError, command: Some(LifecycleCommand::Continue) }
    );
}

#[test]
fn other_user_codes_are_not_implemented() {
    for code in [0u32, 1, 128, 129, 131, 255, u32::MAX] {
        assert_eq!(
            translate(ControlEvent::UserEvent(code)),
            Translation { result: HandlerResult::NotImplemented, command: None }
        );
    }
}

#[test]
fn unknown_signals_are_not_implemented() {
    for code in [0u32, 5, 14, 130, u32::MAX] {
        assert_eq!(
            translate(ControlEvent::Other(code)),
            Translation { result: HandlerResult::NotImplemented, command: None }
        );
    }
}

#[test]
fn conclude_reports_what_became_of_the_command() {
    assert_eq!(
        conclude(ControlEvent::Stop, true),
        Handled { result: HandlerResult::NoError, delivery: Delivery::Queued }
    );
    assert_eq!(
        conclude(ControlEvent::Stop, false),
        Handled { result: HandlerResult::NoError, delivery: Delivery::ReceiverGone }
    );
    assert_eq!(
        conclude(ControlEvent::Interrogate, true),
        Handled { result: HandlerResult::NoError, delivery: Delivery::Nothing }
    );
    assert_eq!(
        conclude(ControlEvent::Other(9), false),
        Handled { result: HandlerResult::NotImplemented, delivery: Delivery::Nothing }
    );
}

#[test]
fn handler_queues_the_shutdown_on_stop() {
    let (tx, mut rx) = unbounded_channel::<LifecycleCommand>();
    let handled = handle_control_event(ControlEvent::Stop, &tx);
    assert_eq!(handled, Handled { result: HandlerResult::NoError, delivery: Delivery::Queued });
    assert_eq!(rx.try_recv(), Ok(LifecycleCommand::Shutdown));
    assert_eq!(rx.try_recv(), Err(TryRecvError::Empty));
}

#[test]
fn handler_queues_the_shutdown_on_the_reserved_user_code() {
    let (tx, mut rx) = unbounded_channel::<LifecycleCommand>();
    let handled = handle_control_event(ControlEvent::UserEvent(130), &tx);
    assert_eq!(handled, Handled { result: HandlerResult::NoError, delivery: Delivery::Queued });
    assert_eq!(rx.try_recv(), Ok(LifecycleCommand::Shutdown));
}

#[test]
fn handler_queues_pause_and_continue() {
    let (tx, mut rx) = unbounded_channel::<LifecycleCommand>();
    assert_eq!(handle_control_event(ControlEvent::Pause, &tx).delivery, Delivery::Queued);
    assert_eq!(handle_control_event(ControlEvent::Continue, &tx).delivery, Delivery::Queued);
    assert_eq!(rx.try_recv(), Ok(LifecycleCommand::Pause));
    assert_eq!(rx.try_recv(), Ok(LifecycleCommand::Continue));
    assert_eq!(rx.try_recv(), Err(TryRecvError::Empty));
}

#[test]
fn handler_sends_nothing_on_interrogate_or_unknown_signals() {
    let (tx, mut rx) = unbounded_channel::<LifecycleCommand>();
    assert_eq!(
        handle_control_event(ControlEvent::Interrogate, &tx),
        Handled { result: HandlerResult::NoError, delivery: Delivery::Nothing }
    );
    assert_eq!(
        handle_control_event(ControlEvent::UserEvent(131), &tx),
        Handled { result: HandlerResult::NotImplemented, delivery: Delivery::Nothing }
    );
    assert_eq!(
        handle_control_event(ControlEvent::Other(11), &tx),
        Handled { result: HandlerResult::NotImplemented, delivery: Delivery::Nothing }
    );
    assert_eq!(rx.try_recv(), Err(TryRecvError::Empty));
}

#[test]
fn repeated_stops_are_all_handled() {
    let (tx, mut rx) = unbounded_channel::<LifecycleCommand>();
    for _ in 0u32..4 {
        assert_eq!(handle_control_event(ControlEvent::Stop, &tx).result, HandlerResult::NoError);
    }
    assert_eq!(rx.try_recv(), Ok(LifecycleCommand::Shutdown));
}

#[test]
fn stop_after_the_receiver_is_gone_is_still_handled() {
    let (tx, rx) = unbounded_channel::<LifecycleCommand>();
    drop(rx);
    assert_eq!(
        handle_control_event(ControlEvent::Stop, &tx),
        Handled { result: HandlerResult::NoError, delivery: Delivery::ReceiverGone }
    );
    assert_eq!(
        handle_control_event(ControlEvent::UserEvent(130), &tx),
        Handled { result: HandlerResult::NoError, delivery: Delivery::ReceiverGone }
    );
}

#[test]
fn stop_after_the_receiver_closed_is_still_handled() {
    let (tx, mut rx) = unbounded_channel::<LifecycleCommand>();
    rx.close();
    assert_eq!(
        handle_control_event(ControlEvent::Stop, &tx),
        Handled { result: HandlerResult::NoError, delivery: Delivery::ReceiverGone }
    );
    assert_eq!(rx.try_recv(), Err(TryRecvError::Disconnected));
}
