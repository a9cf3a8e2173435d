//! The control-signal handler: what each signal from the control plane means.
//!
//! The handler runs on the control plane's dispatch context, so it only
//! translates: it answers with a result code and, where the signal asks for a
//! lifecycle change, forwards a command to the coordinator without blocking.

use vstd::prelude::*;
use tokio::sync::mpsc::UnboundedSender;

verus! {

/// The user-defined control code that asks the service to stop.
pub const SHUTDOWN_USER_CODE: u32 = 130;

/// One signal delivered by the control plane.
#[derive(Clone, Copy, Debug, PartialEq, Eq, Structural)]
pub enum ControlEvent {
    /// Report the current status again.
    Interrogate,
    Stop,
    Pause,
    Continue,
    /// An application-defined signal with its code.
    UserEvent(u32),
    /// Any other signal, with its raw control code.
    Other(u32),
}

/// The handler's answer to the control plane.
#[derive(Clone, Copy, Debug, PartialEq, Eq, Structural)]
pub enum HandlerResult {
    /// The signal was handled.
    NoError,
    /// The service does not implement the signal.
    NotImplemented,
}

/// What the handler asks of the lifecycle coordinator.
#[derive(Clone, Copy, Debug, PartialEq, Eq, Structural)]
pub enum LifecycleCommand {
    /// The shutdown notification. Every source of a stop request sends this
    /// same command, and sending it again changes nothing.
    Shutdown,
    Pause,
    Continue,
}

/// The handler's whole reaction to one signal.
#[derive(Clone, Copy, Debug, PartialEq, Eq, Structural)]
pub struct Translation {
    /// The answer returned to the control plane.
    pub result: HandlerResult,
    /// The command forwarded to the coordinator, if the signal asks for one.
    pub command: Option<LifecycleCommand>,
}

/// Whether `event` is a request to stop the service.
pub open spec fn requests_shutdown(event: ControlEvent) -> bool {
    event == ControlEvent::Stop || event == ControlEvent::UserEvent(SHUTDOWN_USER_CODE)
}

/// The command that `event` forwards to the coordinator.
pub open spec fn command_of(event: ControlEvent) -> Option<LifecycleCommand> {
    if requests_shutdown(event) {
        Some(LifecycleCommand::Shutdown)
    } else if event == ControlEvent::Pause {
        Some(LifecycleCommand::Pause)
    } else if event == ControlEvent::Continue {
        Some(LifecycleCommand::Continue)
    } else {
        None
    }
}

/// The answer that `event` gets: handled for an interrogation and for every
/// signal that carries a command, not implemented for all others.
pub open spec fn response_to(event: ControlEvent) -> HandlerResult {
    if event == ControlEvent::Interrogate || command_of(event).is_some() {
        HandlerResult::NoError
    } else {
        HandlerResult::NotImplemented
    }
}

/// Translates one control signal, touching nothing.
pub fn translate(event: ControlEvent) -> (t: Translation)
    ensures
        t.result == response_to(event),
        t.command == command_of(event),
{
    match event {
        ControlEvent::Interrogate => Translation { result: HandlerResult::NoError, command: None },
        ControlEvent::Stop => Translation {
            result: HandlerResult::NoError,
            command: Some(LifecycleCommand::Shutdown),
        },
        ControlEvent::Pause => Translation {
            result: HandlerResult::NoError,
            command: Some(LifecycleCommand::Pause),
        },
        ControlEvent::Continue => Translation {
            result: HandlerResult::NoError,
            command: Some(LifecycleCommand::Continue),
        },
        ControlEvent::UserEvent(code) => {
            if code == SHUTDOWN_USER_CODE {
                Translation {
                    result: HandlerResult::NoError,
                    command: Some(LifecycleCommand::Shutdown),
                }
            } else {
                Translation { result: HandlerResult::NotImplemented, command: None }
            }
        },
        ControlEvent::Other(_) => Translation {
            result: HandlerResult::NotImplemented,
            command: None,
        },
    }
}

/// The sending half of tokio's unbounded channel, carried through as it is.
#[verifier::external_type_specification]
#[verifier::external_body]
#[verifier::reject_recursive_types(T)]
pub struct ExUnboundedSender<T>(tokio::sync::mpsc::UnboundedSender<T>);

/// Calls `UnboundedSender::send`, which never waits, and says whether the
/// command was queued. tokio queues it unless the receiving half is closed or
/// dropped. Which of the two happens depends on the other end of the channel,
/// so nothing is claimed of the answer.
#[verifier::external_body]
fn try_forward(commands: &UnboundedSender<LifecycleCommand>, command: LifecycleCommand) -> (queued: bool)
{
    commands.send(command).is_ok()
}

/// What became of the command that a signal carried.
#[derive(Clone, Copy, Debug, PartialEq, Eq, Structural)]
pub enum Delivery {
    /// The signal carried no command.
    Nothing,
    /// The command is queued for the coordinator.
    Queued,
    /// The coordinator no longer listens; the command was dropped.
    ReceiverGone,
}

/// A handled signal: the answer for the control plane, and what became of the
/// command.
#[derive(Clone, Copy, Debug, PartialEq, Eq, Structural)]
pub struct Handled {
    pub result: HandlerResult,
    pub delivery: Delivery,
}

/// The outcome of handling `event` when the channel answered `queued` to the
/// attempt to send. A command that could not be queued is dropped, and the
/// answer to the control plane is the same.
pub open spec fn handled(event: ControlEvent, queued: bool) -> Handled {
    Handled {
        result: response_to(event),
        delivery: if command_of(event).is_none() {
            Delivery::Nothing
        } else if queued {
            Delivery::Queued
        } else {
            Delivery::ReceiverGone
        },
    }
}

/// Closes the handling of `event` once the channel has answered `queued`.
/// Where the signal carries no command, `queued` is not looked at.
pub fn conclude(event: ControlEvent, queued: bool) -> (h: Handled)
    ensures
        h == handled(event, queued),
{
    let t = translate(event);
    let delivery = match t.command {
        None => Delivery::Nothing,
        Some(_) => if queued {
            Delivery::Queued
        } else {
            Delivery::ReceiverGone
        },
    };
    Handled { result: t.result, delivery }
}

/// Handles one control signal: forwards its command, if it carries one, over
/// `commands` without waiting, and returns the answer for the control plane.
///
/// Whether the command is queued depends on whether the coordinator still
/// listens, so the outcome is one of the two that `handled` describes.
pub fn handle_control_event(
    event: ControlEvent,
    commands: &UnboundedSender<LifecycleCommand>,
) -> (h: Handled)
    ensures
        h == handled(event, true) || h == handled(event, false),
        h.result == response_to(event),
        h.delivery is Nothing <==> command_of(event).is_none(),
{
    let queued = match translate(event).command {
        Some(command) => try_forward(commands, command),
        None => false,
    };
    conclude(event, queued)
}

} // verus!
