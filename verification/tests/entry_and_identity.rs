use munin_service::admin::{
    AdminAction, AdminError, AdminOperation, AdminOutcome, ManagerAccess, PlatformError,
};
use munin_service::args::{
    Args, Install, Pause, QueryConfig, Resume, Start, Stop, Subcommand, Uninstall,
};
use munin_service::entry::{
    completion_message, entry_mode, exits_with_success, operation_of, plan_for, EntryMode,
};
use munin_service::identity::{
    service_identity, SERVICE_DESCRIPTION, SERVICE_DISPLAY_NAME, SERVICE_NAME,
};
use munin_service::lifecycle::{AcceptedControls, Control};
use munin_service::registration::{ErrorControl, InstallRequest, StartType};

#[test]
fn the_identity_is_fixed() {
    assert_eq!(SERVICE_NAME, "munin_service");
    assert_eq!(SERVICE_DISPLAY_NAME, "Munin monitoring and control service");
    assert_eq!(SERVICE_DESCRIPTION, "Windows service example from windows-service-rs");
    let id = service_identity();
    assert_eq!(id.name, "munin_service");
    assert_eq!(id.display_name, "Munin monitoring and control service");
    assert_eq!(id.description, "Windows service example from windows-service-rs");
}

#[test]
fn an_install_request_keeps_the_path_it_was_given() {
    let path = String::from("C:\\Program Files\\Munin\\munin_service.exe");
    let request = InstallRequest::new(path.clone());
    assert_eq!(request.executable_path, path);
    assert_eq!(request.identity.name, "munin_service");
    assert_eq!(request.identity.display_name, "Munin monitoring and control service");
    assert_eq!(request.identity.description, "Windows service example from windows-service-rs");
    assert_eq!(request.start_type, StartType::OnDemand);
    assert_eq!(request.error_control, ErrorControl::Normal);
    assert!(request.launch_arguments.is_empty());
    assert!(request.dependencies.is_empty());
    assert_eq!(request.account_name, None);
    assert_eq!(request.account_password, None);
}

#[test]
fn an_install_request_takes_any_path() {
    assert_eq!(InstallRequest::new(String::new()).executable_path, "");
    assert_eq!(InstallRequest::new(String::from("/opt/münin")).executable_path, "/opt/münin");
}

#[test]
fn the_dispatcher_decides_the_mode() {
    assert_eq!(entry_mode(true), EntryMode::Service);
    assert_eq!(entry_mode(false), EntryMode::Console);
}

#[test]
fn each_subcommand_names_its_operation() {
    assert_eq!(operation_of(&Subcommand::Install(Install {})), AdminOperation::Install);
    assert_eq!(operation_of(&Subcommand::Uninstall(Uninstall {})), AdminOperation::Uninstall);
    assert_eq!(operation_of(&Subcommand::QueryConfig(QueryConfig {})), AdminOperation::QueryConfig);
    assert_eq!(operation_of(&Subcommand::Pause(Pause {})), AdminOperation::Pause);
    assert_eq!(operation_of(&Subcommand::Resume(Resume {})), AdminOperation::Resume);
    assert_eq!(operation_of(&Subcommand::Start(Start {})), AdminOperation::Start);
    assert_eq!(operation_of(&Subcommand::Stop(Stop {})), AdminOperation::Stop);
}

#[test]
fn the_command_line_gets_the_plan_of_its_operation() {
    let plan = plan_for(&Args { subcommand: Subcommand::Install(Install {}) });
    assert_eq!(plan.operation(), AdminOperation::Install);
    assert_eq!(
        plan.action(),
        AdminAction::Connect(ManagerAccess { connect: true, create_service: true })
    );
    assert_eq!(plan.outcome(), None);
    let plan = plan_for(&Args { subcommand: Subcommand::Stop(Stop {}) });
    assert_eq!(plan.operation(), AdminOperation::Stop);
    assert_eq!(
        plan.action(),
        AdminAction::Connect(ManagerAccess { connect: true, create_service: false })
    );
}

#[test]
fn only_a_failure_fails_the_process() {
    assert!(exits_with_success(AdminOutcome::Completed));
    assert!(exits_with_success(AdminOutcome::Deleted));
    assert!(exits_with_success(AdminOutcome::MarkedForDeletion));
    for error in [
        AdminError::NotFound,
        AdminError::Registration(PlatformError::Os(1073)),
        AdminError::ControlRejected(PlatformError::Os(1062)),
        AdminError::Platform(PlatformError::Other),
    ] {
        assert!(!exits_with_success(AdminOutcome::Failed(error)));
    }
}

#[test]
fn an_uninstall_says_how_it_ended() {
    assert_eq!(completion_message(AdminOutcome::Deleted), Some("munin_service is deleted."));
    assert_eq!(
        completion_message(AdminOutcome::MarkedForDeletion),
        Some("munin_service is marked for deletion.")
    );
    assert_eq!(completion_message(AdminOutcome::Completed), None);
    assert_eq!(completion_message(AdminOutcome::Failed(AdminError::NotFound)), None);
}

#[test]
fn accepted_controls_are_a_set() {
    let none = AcceptedControls::none();
    assert!(none.is_empty());
    assert!(!none.contains(Control::Stop));
    assert!(!none.contains(Control::PauseContinue));
    let stop = AcceptedControls::stop_only();
    assert!(!stop.is_empty());
    assert!(stop.contains(Control::Stop));
    assert!(!stop.contains(Control::PauseContinue));
    let both = AcceptedControls { stop: true, pause_continue: true };
    assert!(both.contains(Control::PauseContinue));
    assert!(!AcceptedControls { stop: false, pause_continue: true }.is_empty());
}
