//! The entry dispatcher: whether the process runs as the service or as an
//! administrative command, and what the command does.

use vstd::prelude::*;
use crate::admin::{AdminOperation, AdminOutcome, AdminPlan, AdminPlanView};
use crate::args::{Args, Subcommand};
use crate::identity::SERVICE_NAME;

verus! {

/// What the process is.
#[derive(Clone, Copy, Debug, PartialEq, Eq, Structural)]
pub enum EntryMode {
    /// The platform launched it as the service. It ran until the service
    /// stopped, and nothing is left to do.
    Service,
    /// Somebody ran it from a console. It carries out one administrative
    /// command.
    Console,
}

/// Decides the mode from the attempt to hand the process to the platform's
/// service dispatcher: where the dispatcher took it, it is the service; where
/// the dispatcher refused, it was started from a console. The decision is
/// made once, from that one attempt.
pub fn entry_mode(dispatcher_accepted: bool) -> (mode: EntryMode)
    ensures
        mode == if dispatcher_accepted {
            EntryMode::Service
        } else {
            EntryMode::Console
        },
{
    if dispatcher_accepted {
        EntryMode::Service
    } else {
        EntryMode::Console
    }
}

/// The operation that `subcommand` names.
pub open spec fn operation_for(subcommand: Subcommand) -> AdminOperation {
    match subcommand {
        Subcommand::Install(_) => AdminOperation::Install,
        Subcommand::Uninstall(_) => AdminOperation::Uninstall,
        Subcommand::QueryConfig(_) => AdminOperation::QueryConfig,
        Subcommand::Pause(_) => AdminOperation::Pause,
        Subcommand::Resume(_) => AdminOperation::Resume,
        Subcommand::Start(_) => AdminOperation::Start,
        Subcommand::Stop(_) => AdminOperation::Stop,
    }
}

/// The operation that `subcommand` names.
pub fn operation_of(subcommand: &Subcommand) -> (op: AdminOperation)
    ensures
        op == operation_for(*subcommand),
{
    match subcommand {
        Subcommand::Install(_) => AdminOperation::Install,
        Subcommand::Uninstall(_) => AdminOperation::Uninstall,
        Subcommand::QueryConfig(_) => AdminOperation::QueryConfig,
        Subcommand::Pause(_) => AdminOperation::Pause,
        Subcommand::Resume(_) => AdminOperation::Resume,
        Subcommand::Start(_) => AdminOperation::Start,
        Subcommand::Stop(_) => AdminOperation::Stop,
    }
}

/// The plan of the one operation that the command line asks for.
pub fn plan_for(args: &Args) -> (plan: AdminPlan)
    ensures
        plan@ == AdminPlanView::start(operation_for(args.subcommand)),
{
    AdminPlan::new(operation_of(&args.subcommand))
}

/// Whether the process exits with success after `outcome`. Only a failure is
/// one: an uninstall that timed out has still marked the service for deletion.
pub fn exits_with_success(outcome: AdminOutcome) -> (ok: bool)
    ensures
        ok == !(outcome is Failed),
{
    match outcome {
        AdminOutcome::Failed(_) => false,
        _ => true,
    }
}

/// The line that an uninstall prints when `outcome` ends it without a
/// failure; no other outcome prints one.
pub open spec fn message_for(outcome: AdminOutcome) -> Option<Seq<char>> {
    match outcome {
        AdminOutcome::Deleted => Some(SERVICE_NAME@ + " is deleted."@),
        AdminOutcome::MarkedForDeletion => Some(SERVICE_NAME@ + " is marked for deletion."@),
        _ => None,
    }
}

/// The line to print after `outcome`, if it has one.
pub fn completion_message(outcome: AdminOutcome) -> (message: Option<&'static str>)
    ensures
        message.is_some() == message_for(outcome).is_some(),
        message matches Some(line) ==> Some(line@) == message_for(outcome),
{
    proof {
        reveal_strlit("munin_service");
        reveal_strlit(" is deleted.");
        reveal_strlit(" is marked for deletion.");
        reveal_strlit("munin_service is deleted.");
        reveal_strlit("munin_service is marked for deletion.");
    }
    match outcome {
        AdminOutcome::Deleted => {
            let line = "munin_service is deleted.";
            assert(line@ =~= SERVICE_NAME@ + " is deleted."@);
            Some(line)
        },
        AdminOutcome::MarkedForDeletion => {
            let line = "munin_service is marked for deletion.";
            assert(line@ =~= SERVICE_NAME@ + " is marked for deletion."@);
            Some(line)
        },
        _ => None,
    }
}

} // verus!
