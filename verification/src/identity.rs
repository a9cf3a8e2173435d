//! Who the service is: the names under which it is registered, queried and
//! controlled.

use vstd::prelude::*;

verus! {

/// The name under which the service is registered. Every request to the
/// registry uses this name.
pub const SERVICE_NAME: &'static str = "munin_service";

/// The name shown to people.
pub const SERVICE_DISPLAY_NAME: &'static str = "Munin monitoring and control service";

/// The description stored with the registration.
pub const SERVICE_DESCRIPTION: &'static str = "Windows service example from windows-service-rs";

/// The identity of a service. It is fixed when the program is built.
#[derive(Clone, Copy, Debug)]
pub struct ServiceIdentity {
    pub name: &'static str,
    pub display_name: &'static str,
    pub description: &'static str,
}

/// The identity of this service.
pub fn service_identity() -> (id: ServiceIdentity)
    ensures
        id.name@ == SERVICE_NAME@,
        id.display_name@ == SERVICE_DISPLAY_NAME@,
        id.description@ == SERVICE_DESCRIPTION@,
{
    ServiceIdentity {
        name: SERVICE_NAME,
        display_name: SERVICE_DISPLAY_NAME,
        description: SERVICE_DESCRIPTION,
    }
}

} // verus!
