//! What an install submits to the registry.

use vstd::prelude::*;
use crate::identity::{service_identity, ServiceIdentity};
use crate::identity::{SERVICE_DESCRIPTION, SERVICE_DISPLAY_NAME, SERVICE_NAME};

verus! {

/// When the platform starts a registered service.
#[derive(Clone, Copy, Debug, PartialEq, Eq, Structural)]
pub enum StartType {
    /// With the system.
    AutoStart,
    /// When it is asked to.
    OnDemand,
    /// Never.
    Disabled,
}

/// What the platform does when the service fails to start.
#[derive(Clone, Copy, Debug, PartialEq, Eq, Structural)]
pub enum ErrorControl {
    Ignore,
    Normal,
    Severe,
    Critical,
}

/// The registration that an install submits.
#[derive(Clone, Debug)]
pub struct InstallRequest {
    pub identity: ServiceIdentity,
    /// The program that the platform runs as the service.
    pub executable_path: String,
    pub start_type: StartType,
    pub error_control: ErrorControl,
    /// Arguments handed to the program at each start.
    pub launch_arguments: Vec<String>,
    /// Names of the services that must run first.
    pub dependencies: Vec<String>,
    /// The account to run under; `None` is the system's default account.
    pub account_name: Option<String>,
    pub account_password: Option<String>,
}

impl InstallRequest {
    /// The registration of this service with `executable_path` as its
    /// program: started on demand, normal error control, no launch arguments,
    /// no dependencies, run under the default system account.
    pub fn new(executable_path: String) -> (request: InstallRequest)
        ensures
            request.executable_path@ == executable_path@,
            request.identity.name@ == SERVICE_NAME@,
            request.identity.display_name@ == SERVICE_DISPLAY_NAME@,
            request.identity.description@ == SERVICE_DESCRIPTION@,
            request.start_type == StartType::OnDemand,
            request.error_control == ErrorControl::Normal,
            request.launch_arguments@.len() == 0,
            request.dependencies@.len() == 0,
            request.account_name.is_none(),
            request.account_password.is_none(),
    {
        InstallRequest {
            identity: service_identity(),
            executable_path,
            start_type: StartType::OnDemand,
            error_control: ErrorControl::Normal,
            launch_arguments: Vec::new(),
            dependencies: Vec::new(),
            account_name: None,
            account_password: None,
        }
    }
}

} // verus!
