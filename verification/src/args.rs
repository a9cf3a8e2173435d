//! The command line: one subcommand, no flags.

use vstd::prelude::*;

verus! {

/// The parsed command line.
#[derive(Debug, Clone, Copy, PartialEq, Eq, Structural)]
pub struct Args {
    pub subcommand: Subcommand,
}

/// The administrative subcommands.
#[derive(Debug, Clone, Copy, PartialEq, Eq, Structural)]
pub enum Subcommand {
    Install(Install),
    Uninstall(Uninstall),
    QueryConfig(QueryConfig),
    Pause(Pause),
    Resume(Resume),
    Start(Start),
    Stop(Stop),
}

/// Registers the service.
#[derive(Debug, Clone, Copy, PartialEq, Eq, Structural)]
pub struct Install {}

/// Marks the service for deletion and waits, within bounds, for it to go.
#[derive(Debug, Clone, Copy, PartialEq, Eq, Structural)]
pub struct Uninstall {}

/// Shows the configuration that the registry stores.
#[derive(Debug, Clone, Copy, PartialEq, Eq, Structural)]
pub struct QueryConfig {}

/// Asks the running service to pause.
#[derive(Debug, Clone, Copy, PartialEq, Eq, Structural)]
pub struct Pause {}

/// Asks the paused service to go on.
#[derive(Debug, Clone, Copy, PartialEq, Eq, Structural)]
pub struct Resume {}

/// Asks the platform to start the service.
#[derive(Debug, Clone, Copy, PartialEq, Eq, Structural)]
pub struct Start {}

/// Asks the running service to stop.
#[derive(Debug, Clone, Copy, PartialEq, Eq, Structural)]
pub struct Stop {}

} // verus!
