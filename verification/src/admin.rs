//! The control-plane client: the administrative operations on the service's
//! registration, each as a plan of requests.
//!
//! A plan decides; the caller talks to the registry. The caller performs the
//! pending `AdminAction`, hands back what the registry said as an
//! `AdminEvent`, and goes on until the action is `AdminAction::Finish`. Every
//! handle it opened is released by then, whichever way the plan ended.

use vstd::prelude::*;
use crate::lifecycle::LifecycleState;

verus! {

/// How long an uninstall waits for the registration to disappear, in
/// milliseconds.
pub const POLL_TIMEOUT_MS: u64 = 5000;

/// How long an uninstall waits between two looks at the registry, in
/// milliseconds.
pub const POLL_INTERVAL_MS: u64 = 1000;

/// The most waits an uninstall makes: as many intervals as fit in the timeout.
pub const MAX_WAITS: u32 = 5;

/// The error code with which the registry says that no service has the name.
pub const SERVICE_DOES_NOT_EXIST: i32 = 1060;

/// An administrative operation.
#[derive(Clone, Copy, Debug, PartialEq, Eq, Structural)]
pub enum AdminOperation {
    Install,
    Uninstall,
    QueryConfig,
    Pause,
    Resume,
    Start,
    Stop,
}

/// The rights asked for when connecting to the service manager.
#[derive(Clone, Copy, Debug, PartialEq, Eq, Structural)]
pub struct ManagerAccess {
    pub connect: bool,
    pub create_service: bool,
}

/// The rights asked for when opening or creating the service.
#[derive(Clone, Copy, Debug, PartialEq, Eq, Structural)]
pub struct ServiceAccess {
    pub query_status: bool,
    pub start: bool,
    pub stop: bool,
    pub pause_continue: bool,
    pub query_config: bool,
    pub change_config: bool,
    pub delete: bool,
}

/// A failure reported by the platform.
#[derive(Clone, Copy, Debug, PartialEq, Eq, Structural)]
pub enum PlatformError {
    /// The operating system refused, with this error code.
    Os(i32),
    /// The request failed without an error code of the operating system.
    Other,
}

/// Why an administrative operation failed.
#[derive(Clone, Copy, Debug, PartialEq, Eq, Structural)]
pub enum AdminError {
    /// The service could not be registered: the name is taken, or the caller
    /// lacks the privilege.
    Registration(PlatformError),
    /// No service is registered under the name.
    NotFound,
    /// The platform refused a request to start, stop, pause or resume.
    ControlRejected(PlatformError),
    /// Any other failure of the platform.
    Platform(PlatformError),
}

/// How an administrative operation ended.
#[derive(Clone, Copy, Debug, PartialEq, Eq, Structural)]
pub enum AdminOutcome {
    /// The request was made and accepted.
    Completed,
    /// The registration is gone.
    Deleted,
    /// The wait for the registration to disappear timed out. The service is
    /// marked for deletion and goes with the next restart. This is a warning,
    /// not a failure.
    MarkedForDeletion,
    Failed(AdminError),
}

/// What the registry said to the pending action.
#[derive(Clone, Copy, Debug, PartialEq, Eq, Structural)]
pub enum AdminEvent {
    /// The request succeeded.
    Succeeded,
    /// The status query succeeded; the service is in this state.
    Status(LifecycleState),
    /// The request failed.
    Failed(PlatformError),
    /// The wait is over. So many milliseconds have passed since the caller
    /// released the service handle.
    Waited(u64),
}

/// The request that the caller makes next.
#[derive(Clone, Copy, Debug, PartialEq, Eq, Structural)]
pub enum AdminAction {
    /// Open a handle to the service manager of the local computer.
    Connect(ManagerAccess),
    /// Register the service, and keep the handle with these rights.
    CreateService(ServiceAccess),
    /// Store the service's description with the registration.
    SetDescription,
    /// Open a handle to the registered service.
    OpenService(ServiceAccess),
    /// Mark the service for deletion.
    MarkForDeletion,
    /// Ask the registry for the service's current state.
    QueryStatus,
    RequestStart,
    RequestStop,
    RequestPause,
    RequestResume,
    /// Fetch the stored configuration and show it.
    QueryConfig,
    /// Close the handle to the service. A service marked for deletion stays
    /// registered while a handle to it is open.
    ReleaseService,
    /// Try to open the service, to see whether the name still resolves.
    Probe(ServiceAccess),
    /// Wait this many milliseconds.
    Wait(u64),
    /// The operation is over.
    Finish(AdminOutcome),
}

/// Where a plan stands: the request whose answer it waits for.
#[derive(Clone, Copy, Debug, PartialEq, Eq, Structural)]
pub enum Stage {
    Connecting,
    Creating,
    Describing,
    Opening,
    Deleting,
    QueryingStatus,
    Stopping,
    Releasing,
    Probing,
    Waiting,
    Controlling,
    QueryingConfig,
    Finished(AdminOutcome),
}

/// The rights with which `op` connects to the service manager: to connect,
/// and for an install also to create a service.
pub open spec fn manager_access_for(op: AdminOperation) -> ManagerAccess {
    ManagerAccess { connect: true, create_service: op == AdminOperation::Install }
}

/// The rights with which `op` opens the service: those of the requests it
/// makes on the handle, and no others.
pub open spec fn service_access_for(op: AdminOperation) -> ServiceAccess {
    ServiceAccess {
        query_status: op == AdminOperation::Uninstall,
        start: op == AdminOperation::Start,
        stop: op == AdminOperation::Stop || op == AdminOperation::Uninstall,
        pause_continue: op == AdminOperation::Pause || op == AdminOperation::Resume,
        query_config: op == AdminOperation::QueryConfig,
        change_config: op == AdminOperation::Install,
        delete: op == AdminOperation::Uninstall,
    }
}

/// The rights with which an uninstall looks whether the name still resolves.
pub open spec fn probe_access() -> ServiceAccess {
    ServiceAccess {
        query_status: true,
        start: false,
        stop: false,
        pause_continue: false,
        query_config: false,
        change_config: false,
        delete: false,
    }
}

/// Whether `error` says that no service is registered under the name.
pub open spec fn is_missing(error: PlatformError) -> bool {
    error == PlatformError::Os(SERVICE_DOES_NOT_EXIST)
}

/// The kind of failure that `error` is for `op` at `stage`.
///
/// An install that fails did not register. Otherwise a missing registration
/// is told apart first; a refused stop, start, pause or resume is a rejected
/// control; everything else is the platform's failure.
pub open spec fn classify(op: AdminOperation, stage: Stage, error: PlatformError) -> AdminError {
    if op == AdminOperation::Install {
        AdminError::Registration(error)
    } else if is_missing(error) {
        AdminError::NotFound
    } else if stage == Stage::Controlling || stage == Stage::Stopping {
        AdminError::ControlRejected(error)
    } else {
        AdminError::Platform(error)
    }
}

/// The control request that `op` makes once the service is open.
pub open spec fn control_request(op: AdminOperation) -> AdminAction {
    match op {
        AdminOperation::Start => AdminAction::RequestStart,
        AdminOperation::Pause => AdminAction::RequestPause,
        AdminOperation::Resume => AdminAction::RequestResume,
        _ => AdminAction::RequestStop,
    }
}

/// What a plan holds.
pub struct AdminPlanView {
    pub op: AdminOperation,
    pub stage: Stage,
    /// The state in which the registry reported the service, once asked.
    pub seen: Option<LifecycleState>,
    /// Whether the uninstall has asked the service to stop.
    pub stop_requested: bool,
    /// How many waits are over.
    pub waits: nat,
}

impl AdminPlanView {
    /// The plan for `op` before its first request.
    pub open spec fn start(op: AdminOperation) -> AdminPlanView {
        AdminPlanView { op, stage: Stage::Connecting, seen: None, stop_requested: false, waits: 0 }
    }

    /// Whether the plan has ended.
    pub open spec fn finished(self) -> bool {
        self.stage is Finished
    }

    /// Whether the plan is polling for the registration to disappear, or has
    /// ended polling.
    pub open spec fn past_release(self) -> bool {
        ||| self.stage == Stage::Releasing
        ||| self.stage == Stage::Probing
        ||| self.stage == Stage::Waiting
        ||| self.stage == Stage::Finished(AdminOutcome::Deleted)
        ||| self.stage == Stage::Finished(AdminOutcome::MarkedForDeletion)
    }

    /// What holds of every plan that `start` and `after` produce.
    pub open spec fn wf(self) -> bool {
        &&& self.waits <= MAX_WAITS
        &&& self.waits > 0 ==> (self.stage == Stage::Probing || self.stage == Stage::Waiting
            || self.finished())
        &&& (self.stage == Stage::Probing || self.stage == Stage::Waiting) ==> self.waits
            < MAX_WAITS
        &&& (self.stage == Stage::Creating || self.stage == Stage::Describing) ==> self.op
            == AdminOperation::Install
        &&& self.stage == Stage::Opening ==> self.op != AdminOperation::Install
        &&& (self.stage == Stage::Deleting || self.stage == Stage::QueryingStatus || self.stage
            == Stage::Stopping || self.past_release()) ==> self.op == AdminOperation::Uninstall
        &&& self.stage == Stage::QueryingConfig ==> self.op == AdminOperation::QueryConfig
        &&& self.stage == Stage::Controlling ==> (self.op == AdminOperation::Start || self.op
            == AdminOperation::Stop || self.op == AdminOperation::Pause || self.op
            == AdminOperation::Resume)
        &&& self.stop_requested ==> self.op == AdminOperation::Uninstall && self.seen.is_some()
            && self.seen != Some(LifecycleState::Stopped)
        &&& (self.stage == Stage::Stopping || self.past_release()) ==> self.seen.is_some()
        &&& (self.stage == Stage::Stopping || self.past_release()) && self.seen != Some(
            LifecycleState::Stopped,
        ) ==> self.stop_requested
    }

    /// The request whose answer the plan waits for.
    pub open spec fn action(self) -> AdminAction {
        match self.stage {
            Stage::Connecting => AdminAction::Connect(manager_access_for(self.op)),
            Stage::Creating => AdminAction::CreateService(service_access_for(self.op)),
            Stage::Describing => AdminAction::SetDescription,
            Stage::Opening => AdminAction::OpenService(service_access_for(self.op)),
            Stage::Deleting => AdminAction::MarkForDeletion,
            Stage::QueryingStatus => AdminAction::QueryStatus,
            Stage::Stopping => AdminAction::RequestStop,
            Stage::Releasing => AdminAction::ReleaseService,
            Stage::Probing => AdminAction::Probe(probe_access()),
            Stage::Waiting => AdminAction::Wait(POLL_INTERVAL_MS),
            Stage::Controlling => control_request(self.op),
            Stage::QueryingConfig => AdminAction::QueryConfig,
            Stage::Finished(outcome) => AdminAction::Finish(outcome),
        }
    }

    /// Whether `event` is an answer to the pending request. A status answers
    /// the status query, the time waited answers a wait, success or failure
    /// answers every other request; closing a handle cannot fail, and a plan
    /// that has ended waits for nothing.
    pub open spec fn answers(self, event: AdminEvent) -> bool {
        match self.stage {
            Stage::Finished(_) => false,
            Stage::QueryingStatus => event is Status || event is Failed,
            Stage::Waiting => event is Waited,
            Stage::Releasing => event is Succeeded,
            _ => event is Succeeded || event is Failed,
        }
    }

    /// The plan with its stage changed.
    pub open spec fn at(self, stage: Stage) -> AdminPlanView {
        AdminPlanView { stage, ..self }
    }

    /// The plan after `event`. An event that does not answer the pending
    /// request is ignored: the request stands.
    pub open spec fn after(self, event: AdminEvent) -> AdminPlanView {
        if !self.answers(event) {
            self
        } else if self.stage == Stage::Probing {
            if event matches AdminEvent::Failed(e) && is_missing(e) {
                self.at(Stage::Finished(AdminOutcome::Deleted))
            } else {
                self.at(Stage::Waiting)
            }
        } else {
            match event {
                AdminEvent::Failed(e) => self.at(
                    Stage::Finished(AdminOutcome::Failed(classify(self.op, self.stage, e))),
                ),
                AdminEvent::Status(state) => AdminPlanView {
                    stage: if state == LifecycleState::Stopped {
                        Stage::Releasing
                    } else {
                        Stage::Stopping
                    },
                    seen: Some(state),
                    stop_requested: state != LifecycleState::Stopped,
                    ..self
                },
                AdminEvent::Waited(elapsed_ms) => AdminPlanView {
                    stage: if elapsed_ms < POLL_TIMEOUT_MS && self.waits + 1 < MAX_WAITS {
                        Stage::Probing
                    } else {
                        Stage::Finished(AdminOutcome::MarkedForDeletion)
                    },
                    waits: self.waits + 1,
                    ..self
                },
                AdminEvent::Succeeded => self.at(
                    match self.stage {
                        Stage::Connecting => if self.op == AdminOperation::Install {
                            Stage::Creating
                        } else {
                            Stage::Opening
                        },
                        Stage::Creating => Stage::Describing,
                        Stage::Opening => if self.op == AdminOperation::Uninstall {
                            Stage::Deleting
                        } else if self.op == AdminOperation::QueryConfig {
                            Stage::QueryingConfig
                        } else {
                            Stage::Controlling
                        },
                        Stage::Deleting => Stage::QueryingStatus,
                        Stage::Stopping => Stage::Releasing,
                        Stage::Releasing => Stage::Probing,
                        _ => Stage::Finished(AdminOutcome::Completed),
                    },
                ),
            }
        }
    }

    /// An upper bound on the answers that the plan can still take.
    pub open spec fn remaining(self) -> nat {
        let polling: nat = (2 * (MAX_WAITS - self.waits)) as nat;
        match self.stage {
            Stage::Finished(_) => 0,
            Stage::Waiting => (polling - 1) as nat,
            Stage::Probing => polling,
            Stage::Releasing => polling + 1,
            Stage::Stopping => polling + 2,
            Stage::QueryingStatus => polling + 3,
            Stage::Deleting => polling + 4,
            Stage::Opening => polling + 5,
            Stage::Connecting => polling + 6,
            Stage::Creating => 2,
            _ => 1,
        }
    }
}

/// Reads `ERROR_SERVICE_DOES_NOT_EXIST` of windows-sys, the code with which
/// the registry says that no service has the name. It is 1060.
#[verifier::external_body]
fn service_does_not_exist_code() -> (code: u32)
    ensures
        code == 1060,
{
    windows_sys::Win32::Foundation::ERROR_SERVICE_DOES_NOT_EXIST
}

/// Tells whether `error` says that no service is registered under the name.
pub fn reports_missing_service(error: PlatformError) -> (missing: bool)
    ensures
        missing == is_missing(error),
{
    match error {
        PlatformError::Os(code) => code >= 0 && code as u32 == service_does_not_exist_code(),
        PlatformError::Other => false,
    }
}

/// Sorts a failure of `op` at `stage` into its kind.
pub fn classify_failure(op: AdminOperation, stage: Stage, error: PlatformError) -> (kind: AdminError)
    ensures
        kind == classify(op, stage, error),
{
    if op == AdminOperation::Install {
        AdminError::Registration(error)
    } else if reports_missing_service(error) {
        AdminError::NotFound
    } else if stage == Stage::Controlling || stage == Stage::Stopping {
        AdminError::ControlRejected(error)
    } else {
        AdminError::Platform(error)
    }
}

/// The rights with which `op` connects to the service manager.
pub fn manager_access(op: AdminOperation) -> (access: ManagerAccess)
    ensures
        access == manager_access_for(op),
{
    ManagerAccess { connect: true, create_service: op == AdminOperation::Install }
}

/// The rights with which `op` opens, or creates, the service.
pub fn service_access(op: AdminOperation) -> (access: ServiceAccess)
    ensures
        access == service_access_for(op),
{
    ServiceAccess {
        query_status: op == AdminOperation::Uninstall,
        start: op == AdminOperation::Start,
        stop: op == AdminOperation::Stop || op == AdminOperation::Uninstall,
        pause_continue: op == AdminOperation::Pause || op == AdminOperation::Resume,
        query_config: op == AdminOperation::QueryConfig,
        change_config: op == AdminOperation::Install,
        delete: op == AdminOperation::Uninstall,
    }
}

/// The plan of one administrative operation.
#[derive(Debug)]
pub struct AdminPlan {
    op: AdminOperation,
    stage: Stage,
    seen: Option<LifecycleState>,
    stop_requested: bool,
    waits: u32,
}

impl View for AdminPlan {
    type V = AdminPlanView;

    closed spec fn view(&self) -> AdminPlanView {
        AdminPlanView {
            op: self.op,
            stage: self.stage,
            seen: self.seen,
            stop_requested: self.stop_requested,
            waits: self.waits as nat,
        }
    }
}

impl AdminPlan {
    #[verifier::type_invariant]
    spec fn inv(self) -> bool {
        self@.wf()
    }

    /// The plan for `op`. Its first request is to connect to the service
    /// manager.
    pub fn new(op: AdminOperation) -> (plan: AdminPlan)
        ensures
            plan@ == AdminPlanView::start(op),
            plan@.wf(),
    {
        AdminPlan { op, stage: Stage::Connecting, seen: None, stop_requested: false, waits: 0 }
    }

    /// The operation that the plan carries out.
    pub fn operation(&self) -> (op: AdminOperation)
        ensures
            op == self@.op,
    {
        self.op
    }

    /// Where the plan stands.
    pub fn stage(&self) -> (stage: Stage)
        ensures
            stage == self@.stage,
            self@.wf(),
    {
        proof {
            use_type_invariant(self);
        }
        self.stage
    }

    /// The state in which the registry reported the service, once the plan
    /// has asked.
    pub fn seen(&self) -> (seen: Option<LifecycleState>)
        ensures
            seen == self@.seen,
    {
        self.seen
    }

    /// Whether the uninstall has asked the service to stop.
    pub fn stop_requested(&self) -> (requested: bool)
        ensures
            requested == self@.stop_requested,
    {
        self.stop_requested
    }

    /// How the plan ended, once it has.
    pub fn outcome(&self) -> (outcome: Option<AdminOutcome>)
        ensures
            outcome.is_some() == self@.finished(),
            outcome matches Some(o) ==> self@.stage == Stage::Finished(o),
    {
        match self.stage {
            Stage::Finished(outcome) => Some(outcome),
            _ => None,
        }
    }

    /// The request that the caller makes next.
    pub fn action(&self) -> (action: AdminAction)
        ensures
            action == self@.action(),
    {
        match self.stage {
            Stage::Connecting => AdminAction::Connect(manager_access(self.op)),
            Stage::Creating => AdminAction::CreateService(service_access(self.op)),
            Stage::Describing => AdminAction::SetDescription,
            Stage::Opening => AdminAction::OpenService(service_access(self.op)),
            Stage::Deleting => AdminAction::MarkForDeletion,
            Stage::QueryingStatus => AdminAction::QueryStatus,
            Stage::Stopping => AdminAction::RequestStop,
            Stage::Releasing => AdminAction::ReleaseService,
            Stage::Probing => AdminAction::Probe(
                ServiceAccess {
                    query_status: true,
                    start: false,
                    stop: false,
                    pause_continue: false,
                    query_config: false,
                    change_config: false,
                    delete: false,
                },
            ),
            Stage::Waiting => AdminAction::Wait(POLL_INTERVAL_MS),
            Stage::Controlling => match self.op {
                AdminOperation::Start => AdminAction::RequestStart,
                AdminOperation::Pause => AdminAction::RequestPause,
                AdminOperation::Resume => AdminAction::RequestResume,
                _ => AdminAction::RequestStop,
            },
            Stage::QueryingConfig => AdminAction::QueryConfig,
            Stage::Finished(outcome) => AdminAction::Finish(outcome),
        }
    }

    /// Takes the registry's answer to the pending request, moves on, and
    /// returns the request that the caller makes next.
    pub fn advance(&mut self, event: AdminEvent) -> (action: AdminAction)
        ensures
            final(self)@ == old(self)@.after(event),
            final(self)@.wf(),
            action == final(self)@.action(),
    {
        proof {
            use_type_invariant(&*self);
        }
        let op = self.op;
        let stage = self.stage;
        let mut seen = self.seen;
        let mut stop_requested = self.stop_requested;
        let mut waits = self.waits;
        let next = match (stage, event) {
            (Stage::Finished(_), _) => stage,
            (Stage::Probing, AdminEvent::Failed(error)) => {
                if reports_missing_service(error) {
                    Stage::Finished(AdminOutcome::Deleted)
                } else {
                    Stage::Waiting
                }
            },
            (Stage::Probing, AdminEvent::Succeeded) => Stage::Waiting,
            (Stage::Waiting, AdminEvent::Waited(elapsed_ms)) => {
                waits = waits + 1;
                if elapsed_ms < POLL_TIMEOUT_MS && waits < MAX_WAITS {
                    Stage::Probing
                } else {
                    Stage::Finished(AdminOutcome::MarkedForDeletion)
                }
            },
            (Stage::QueryingStatus, AdminEvent::Status(state)) => {
                seen = Some(state);
                if state == LifecycleState::Stopped {
                    stop_requested = false;
                    Stage::Releasing
                } else {
                    stop_requested = true;
                    Stage::Stopping
                }
            },
            (Stage::Releasing, AdminEvent::Succeeded) => Stage::Probing,
            (Stage::QueryingStatus, AdminEvent::Succeeded | AdminEvent::Waited(_)) => stage,
            (Stage::Waiting | Stage::Releasing | Stage::Probing, _) => stage,
            (_, AdminEvent::Failed(error)) => Stage::Finished(
                AdminOutcome::Failed(classify_failure(op, stage, error)),
            ),
            (Stage::Connecting, AdminEvent::Succeeded) => {
                if op == AdminOperation::Install {
                    Stage::Creating
                } else {
                    Stage::Opening
                }
            },
            (Stage::Creating, AdminEvent::Succeeded) => Stage::Describing,
            (Stage::Opening, AdminEvent::Succeeded) => {
                if op == AdminOperation::Uninstall {
                    Stage::Deleting
                } else if op == AdminOperation::QueryConfig {
                    Stage::QueryingConfig
                } else {
                    Stage::Controlling
                }
            },
            (Stage::Deleting, AdminEvent::Succeeded) => Stage::QueryingStatus,
            (Stage::Stopping, AdminEvent::Succeeded) => Stage::Releasing,
            (_, AdminEvent::Succeeded) => Stage::Finished(AdminOutcome::Completed),
            (_, _) => stage,
        };
        proof {
            lemma_answer_brings_closer(old(self)@, event);
        }
        *self = AdminPlan { op, stage: next, seen, stop_requested, waits };
        self.action()
    }
}

/// An answer keeps a plan well formed and brings it closer to its end; any
/// other event changes nothing.
pub proof fn lemma_answer_brings_closer(plan: AdminPlanView, event: AdminEvent)
    requires
        plan.wf(),
    ensures
        plan.after(event).wf(),
        plan.after(event).op == plan.op,
        plan.answers(event) ==> plan.after(event).remaining() < plan.remaining(),
        !plan.answers(event) ==> plan.after(event) == plan,
        plan.remaining() <= 2 * MAX_WAITS + 6,
{
}

/// The plan that `plan` becomes over `events`, taken in order.
pub open spec fn plan_after(plan: AdminPlanView, events: Seq<AdminEvent>) -> AdminPlanView
    decreases events.len(),
{
    if events.len() == 0 {
        plan
    } else {
        plan_after(plan.after(events[0]), events.drop_first())
    }
}

/// Whether each of `events` answers the request that is pending when it
/// comes.
pub open spec fn all_answer(plan: AdminPlanView, events: Seq<AdminEvent>) -> bool
    decreases events.len(),
{
    events.len() == 0 || (plan.answers(events[0]) && all_answer(
        plan.after(events[0]),
        events.drop_first(),
    ))
}

/// A plan stays well formed and keeps its operation, whatever it is told.
pub proof fn lemma_plan_stays_well_formed(plan: AdminPlanView, events: Seq<AdminEvent>)
    requires
        plan.wf(),
    ensures
        plan_after(plan, events).wf(),
        plan_after(plan, events).op == plan.op,
    decreases events.len(),
{
    if events.len() > 0 {
        lemma_answer_brings_closer(plan, events[0]);
        lemma_plan_stays_well_formed(plan.after(events[0]), events.drop_first());
    }
}

/// No operation hangs: a plan takes at most `remaining` answers, which is
/// never more than sixteen, and an uninstall that has begun to poll takes at
/// most two for each wait that is left.
pub proof fn lemma_plan_is_bounded(plan: AdminPlanView, events: Seq<AdminEvent>)
    requires
        plan.wf(),
        all_answer(plan, events),
    ensures
        events.len() <= plan.remaining(),
        events.len() <= 2 * MAX_WAITS + 6,
        events.len() == plan.remaining() ==> plan_after(plan, events).finished(),
    decreases events.len(),
{
    lemma_answer_brings_closer(plan, AdminEvent::Succeeded);
    if events.len() > 0 {
        lemma_answer_brings_closer(plan, events[0]);
        lemma_plan_is_bounded(plan.after(events[0]), events.drop_first());
    }
}

/// An operation on a name that is not registered fails as not found: when
/// the registry answers a request of any operation but an install with its
/// code for a missing service, the plan ends with `AdminError::NotFound`. It
/// does not go on to poll, so it cannot end as marked for deletion.
pub proof fn lemma_missing_service_is_not_found(plan: AdminPlanView, error: PlatformError)
    requires
        plan.wf(),
        plan.op != AdminOperation::Install,
        plan.answers(AdminEvent::Failed(error)),
        !plan.past_release(),
        is_missing(error),
    ensures
        plan.after(AdminEvent::Failed(error)).stage == Stage::Finished(
            AdminOutcome::Failed(AdminError::NotFound),
        ),
{
}

/// An uninstall of a name that is not registered: the manager is reached,
/// opening the service fails with the code for a missing service, and the
/// plan ends with `AdminError::NotFound`.
pub proof fn lemma_uninstall_of_missing_service(error: PlatformError)
    requires
        is_missing(error),
    ensures
        AdminPlanView::start(AdminOperation::Uninstall).after(AdminEvent::Succeeded).action()
            == AdminAction::OpenService(service_access_for(AdminOperation::Uninstall)),
        AdminPlanView::start(AdminOperation::Uninstall).after(AdminEvent::Succeeded).after(
            AdminEvent::Failed(error),
        ).stage == Stage::Finished(AdminOutcome::Failed(AdminError::NotFound)),
{
}

/// An uninstall looks for the registration to disappear only after it has
/// marked the service for deletion, asked for its state and, unless that
/// state was Stopped, requested a stop that the registry accepted. This holds
/// of every plan an uninstall can reach, whatever it is told.
pub proof fn lemma_uninstall_stops_before_polling(events: Seq<AdminEvent>)
    ensures
        ({
            let plan = plan_after(AdminPlanView::start(AdminOperation::Uninstall), events);
            &&& plan.wf()
            &&& plan.past_release() ==> plan.seen.is_some()
            &&& plan.past_release() && plan.seen != Some(LifecycleState::Stopped)
                ==> plan.stop_requested
            &&& plan.stage == Stage::Finished(AdminOutcome::Deleted) || plan.stage
                == Stage::Finished(AdminOutcome::MarkedForDeletion) ==> plan.past_release()
        }),
{
    lemma_plan_stays_well_formed(AdminPlanView::start(AdminOperation::Uninstall), events);
}

/// The order of an uninstall of a service that is not stopped: connect, open,
/// mark for deletion, ask for the state, request the stop, release the
/// handle, and only then look whether the name still resolves.
pub proof fn lemma_uninstall_order(state: LifecycleState)
    requires
        state != LifecycleState::Stopped,
    ensures
        ({
            let connect = AdminPlanView::start(AdminOperation::Uninstall);
            let open = connect.after(AdminEvent::Succeeded);
            let mark = open.after(AdminEvent::Succeeded);
            let query = mark.after(AdminEvent::Succeeded);
            let stop = query.after(AdminEvent::Status(state));
            let release = stop.after(AdminEvent::Succeeded);
            let look = release.after(AdminEvent::Succeeded);
            &&& connect.action() == AdminAction::Connect(
                manager_access_for(AdminOperation::Uninstall),
            )
            &&& open.action() == AdminAction::OpenService(
                service_access_for(AdminOperation::Uninstall),
            )
            &&& mark.action() == AdminAction::MarkForDeletion
            &&& query.action() == AdminAction::QueryStatus
            &&& stop.action() == AdminAction::RequestStop
            &&& release.action() == AdminAction::ReleaseService
            &&& look.action() == AdminAction::Probe(probe_access())
            &&& look.stop_requested
        }),
{
}

/// How polling ends. A look that finds the name gone ends the uninstall as
/// deleted; any other look is followed by one wait of one interval. A wait
/// that ends at or past the timeout, or that is the last one allowed, ends
/// the uninstall as marked for deletion; any other wait is followed by a look.
pub proof fn lemma_polling_steps(plan: AdminPlanView, event: AdminEvent)
    requires
        plan.wf(),
        plan.stage == Stage::Probing || plan.stage == Stage::Waiting,
        plan.answers(event),
    ensures
        plan.stage == Stage::Probing ==> plan.after(event).stage == if event matches AdminEvent::Failed(
            e,
        ) && is_missing(e) {
            Stage::Finished(AdminOutcome::Deleted)
        } else {
            Stage::Waiting
        },
        plan.stage == Stage::Probing ==> plan.after(event).waits == plan.waits,
        plan.stage == Stage::Waiting ==> plan.action() == AdminAction::Wait(POLL_INTERVAL_MS),
        plan.stage == Stage::Waiting ==> plan.after(event).waits == plan.waits + 1,
        plan.stage == Stage::Waiting ==> (event matches AdminEvent::Waited(elapsed_ms)
            && plan.after(event).stage == if elapsed_ms >= POLL_TIMEOUT_MS || plan.waits + 1
            >= MAX_WAITS {
            Stage::Finished(AdminOutcome::MarkedForDeletion)
        } else {
            Stage::Probing
        }),
{
}

/// The count of waits never cuts the timeout short: where each wait lasts at
/// least one interval, the wait that is the last one allowed ends at or past
/// the timeout. So on a clock that runs, polling ends by the timeout alone.
pub proof fn lemma_last_wait_reaches_timeout(plan: AdminPlanView, elapsed_ms: u64)
    requires
        plan.wf(),
        plan.stage == Stage::Waiting,
        elapsed_ms >= (plan.waits + 1) * POLL_INTERVAL_MS,
        plan.after(AdminEvent::Waited(elapsed_ms)).finished(),
    ensures
        elapsed_ms >= POLL_TIMEOUT_MS,
        MAX_WAITS * POLL_INTERVAL_MS == POLL_TIMEOUT_MS,
{
}

} // verus!
