//! Remote instances: the records of the control plane, the requests that
//! create, upgrade and destroy an instance, and the rules by which a
//! long-running operation is waited for.

use vstd::prelude::*;
use vstd::string::StringExecFns;

verus! {

/// How long an operation may stay in progress, in milliseconds.
pub const OPERATION_WAIT_MILLIS: u64 = 300_000;

/// The pause before an operation is fetched again, in milliseconds.
pub const POLLING_INTERVAL_MILLIS: u64 = 1_000;

/// The pause between two frames of the progress indicator, in milliseconds.
pub const SPINNER_TICK_MILLIS: u64 = 100;

/// How long the list of instances may take to arrive, in seconds.
pub const LIST_TIMEOUT_SECS: u64 = 30;

/// The port of an instance when none is given.
pub const DEFAULT_PORT: u16 = 5656;

/// An instance as the control plane reports it.
#[derive(Clone, Debug, PartialEq, Eq)]
pub struct CloudInstance {
    pub id: String,
    pub name: String,
    pub org_slug: String,
    pub dsn: String,
    pub status: String,
    pub version: String,
    pub tls_ca: Option<String>,
}

/// An organization that owns instances.
#[derive(Clone, Debug, PartialEq, Eq)]
pub struct Org {
    pub id: String,
    pub name: String,
}

/// The request to create an instance.
#[derive(Clone, Debug, PartialEq, Eq)]
pub struct CloudInstanceCreate {
    pub name: String,
    pub org: String,
    pub version: String,
}

/// The request to upgrade an instance.
#[derive(Clone, Debug, PartialEq, Eq)]
pub struct CloudInstanceUpgrade {
    pub name: String,
    pub org: String,
    pub version: String,
}

/// Where a remote operation stands.
#[derive(Clone, Copy, Debug, PartialEq, Eq, Structural)]
pub enum OperationStatus {
    InProgress,
    Failed,
    Completed,
}

/// A unit of work that the control plane carries out on its own time.
#[derive(Clone, Debug, PartialEq, Eq)]
pub struct CloudOperation {
    pub id: String,
    pub status: OperationStatus,
    pub message: String,
}

/// The verb of a request to the control plane.
#[derive(Clone, Copy, Debug, PartialEq, Eq, Structural)]
pub enum Method {
    Get,
    Post,
    Put,
    Delete,
}

/// The body of a create or upgrade request.
#[derive(Clone, Debug, PartialEq, Eq)]
pub struct InstancePayload {
    pub name: String,
    pub org: String,
    pub version: String,
}

/// A request to the control plane, with its path below the base address.
#[derive(Clone, Debug, PartialEq, Eq)]
pub struct ApiRequest {
    pub method: Method,
    pub path: String,
    pub payload: Option<InstancePayload>,
}

/// Whether two texts hold the same characters.
fn same_text(a: &str, b: &str) -> (r: bool)
    ensures
        r == (a@ == b@),
{
    let left = a.to_owned();
    let right = b.to_owned();
    left == right
}

fn join3(a: &str, b: &str, c: &str) -> (r: String)
    ensures
        r@ == a@ + b@ + c@,
{
    let mut text = String::from_str(a);
    text.append(b);
    text.append(c);
    text
}

// ---------------------------------------------------------------------------
// Wire names and paths
// ---------------------------------------------------------------------------

impl OperationStatus {
    /// The status that a wire name stands for.
    pub open spec fn spec_from_wire(name: Seq<char>) -> Option<OperationStatus> {
        if name == "in_progress"@ {
            Some(OperationStatus::InProgress)
        } else if name == "failed"@ {
            Some(OperationStatus::Failed)
        } else if name == "completed"@ {
            Some(OperationStatus::Completed)
        } else {
            None
        }
    }

    /// Reads a status from its wire name: `in_progress`, `failed` or
    /// `completed`. Any other name is no status.
    pub fn from_wire(name: &str) -> (r: Option<OperationStatus>)
        ensures
            r == OperationStatus::spec_from_wire(name@),
    {
        if same_text(name, "in_progress") {
            Some(OperationStatus::InProgress)
        } else if same_text(name, "failed") {
            Some(OperationStatus::Failed)
        } else if same_text(name, "completed") {
            Some(OperationStatus::Completed)
        } else {
            None
        }
    }
}

/// The path of one instance: `orgs/{org}/instances/{name}`.
pub open spec fn spec_instance_path(org: Seq<char>, name: Seq<char>) -> Seq<char> {
    "orgs/"@ + org + "/instances/"@ + name
}

/// The path of an organization's instances: `orgs/{org}/instances`.
pub open spec fn spec_instances_path(org: Seq<char>) -> Seq<char> {
    "orgs/"@ + org + "/instances"@
}

/// The path of one operation: `operations/{id}`.
pub open spec fn spec_operation_path(id: Seq<char>) -> Seq<char> {
    "operations/"@ + id
}

pub fn instance_path(org: &str, name: &str) -> (r: String)
    ensures
        r@ == spec_instance_path(org@, name@),
{
    let mut path = join3("orgs/", org, "/instances/");
    path.append(name);
    path
}

pub fn instances_path(org: &str) -> (r: String)
    ensures
        r@ == spec_instances_path(org@),
{
    join3("orgs/", org, "/instances")
}

pub fn operation_path(id: &str) -> (r: String)
    ensures
        r@ == spec_operation_path(id@),
{
    let mut path = String::from_str("operations/");
    path.append(id);
    path
}

/// The path of the list of all instances of the authenticated principal.
pub fn list_path() -> (r: String)
    ensures
        r@ == "instances/"@,
{
    String::from_str("instances/")
}

// ---------------------------------------------------------------------------
// Requests
// ---------------------------------------------------------------------------

/// The request that fetches one instance by name.
pub fn find_cloud_instance_by_name(inst: &str, org: &str) -> (r: ApiRequest)
    ensures
        r.method == Method::Get,
        r.path@ == spec_instance_path(org@, inst@),
        r.payload.is_none(),
{
    ApiRequest { method: Method::Get, path: instance_path(org, inst), payload: None }
}

/// The request that creates an instance in its organization. The answer is an
/// operation, waited for under the label `creating`.
pub fn create_cloud_instance(request: &CloudInstanceCreate) -> (r: ApiRequest)
    ensures
        r.method == Method::Post,
        r.path@ == spec_instances_path(request.org@),
        r.payload == Some(
            InstancePayload { name: request.name, org: request.org, version: request.version },
        ),
{
    ApiRequest {
        method: Method::Post,
        path: instances_path(request.org.as_str()),
        payload: Some(
            InstancePayload {
                name: request.name.clone(),
                org: request.org.clone(),
                version: request.version.clone(),
            },
        ),
    }
}

/// The request that upgrades an instance. The answer is an operation, waited
/// for under the label `upgrading`.
pub fn upgrade_cloud_instance(request: &CloudInstanceUpgrade) -> (r: ApiRequest)
    ensures
        r.method == Method::Put,
        r.path@ == spec_instance_path(request.org@, request.name@),
        r.payload == Some(
            InstancePayload { name: request.name, org: request.org, version: request.version },
        ),
{
    ApiRequest {
        method: Method::Put,
        path: instance_path(request.org.as_str(), request.name.as_str()),
        payload: Some(
            InstancePayload {
                name: request.name.clone(),
                org: request.org.clone(),
                version: request.version.clone(),
            },
        ),
    }
}

/// The request that destroys an instance. Its answer has the form of an
/// operation and is not waited for.
pub fn try_to_destroy(name: &str, org: &str) -> (r: ApiRequest)
    ensures
        r.method == Method::Delete,
        r.path@ == spec_instance_path(org@, name@),
        r.payload.is_none(),
{
    ApiRequest { method: Method::Delete, path: instance_path(org, name), payload: None }
}

/// The end of a destroy request: an acknowledgement is success, and an error
/// of the call is passed on unchanged.
pub fn destroy<E>(acknowledgement: Result<CloudOperation, E>) -> (r: Result<(), E>)
    ensures
        match acknowledgement {
            Ok(_) => r.is_ok(),
            Err(error) => r == Err::<(), E>(error),
        },
{
    match acknowledgement {
        Ok(_) => Ok(()),
        Err(error) => Err(error),
    }
}

// ---------------------------------------------------------------------------
// Waiting for an operation
// ---------------------------------------------------------------------------

/// The kind of work that is waited for, used in the texts shown to the user.
#[derive(Clone, Copy, Debug, PartialEq, Eq, Structural)]
pub enum OperationType {
    Creating,
    Upgrading,
}

impl OperationType {
    pub open spec fn spec_label(self) -> Seq<char> {
        match self {
            OperationType::Creating => "creating"@,
            OperationType::Upgrading => "upgrading"@,
        }
    }

    /// The word for this kind of work.
    pub fn label(&self) -> (r: &'static str)
        ensures
            r@ == self.spec_label(),
    {
        match self {
            OperationType::Creating => "creating",
            OperationType::Upgrading => "upgrading",
        }
    }

    /// The text shown while waiting.
    pub fn progress_message(&self) -> (r: String)
        ensures
            r@ == "Waiting for the result of EdgeDB Cloud instance "@ + self.spec_label() + "..."@,
    {
        join3("Waiting for the result of EdgeDB Cloud instance ", self.label(), "...")
    }
}

/// Why waiting for an operation ended without an available instance.
#[derive(Clone, Debug, PartialEq, Eq)]
pub enum WaitError {
    /// The operation failed; the message is the control plane's.
    OperationFailed { message: String },
    /// The operation stayed in progress to the deadline, or the instance was
    /// not available after it completed.
    TimedOut,
}

impl WaitError {
    pub open spec fn spec_describe(self, operation_type: OperationType) -> Seq<char> {
        match self {
            WaitError::OperationFailed { message } =>
                "Failed to wait for EdgeDB Cloud instance to become available after "@
                + operation_type.spec_label() + " an instance: "@ + message@,
            WaitError::TimedOut => "Timed out."@,
        }
    }

    /// The text of this failure for the user.
    pub fn describe(&self, operation_type: OperationType) -> (r: String)
        ensures
            r@ == self.spec_describe(operation_type),
    {
        match self {
            WaitError::OperationFailed { message } => {
                let mut text = join3(
                    "Failed to wait for EdgeDB Cloud instance to become available after ",
                    operation_type.label(),
                    " an instance: ",
                );
                text.append(message.as_str());
                text
            },
            WaitError::TimedOut => String::from_str("Timed out."),
        }
    }
}

/// What to do after looking at an operation.
#[derive(Clone, Debug, PartialEq, Eq)]
pub enum PollStep {
    /// Pause for this many milliseconds, then fetch the operation again.
    Refetch { pause_millis: u64 },
    /// Fetch the instance and check that it is available.
    Verify,
    /// Give up with this error.
    Fail(WaitError),
}

/// The step that follows from an operation's status and message and from the
/// time spent waiting so far.
pub open spec fn spec_poll_step(
    status: OperationStatus,
    message: String,
    elapsed_millis: u64,
) -> PollStep {
    match status {
        OperationStatus::Failed => PollStep::Fail(WaitError::OperationFailed { message }),
        OperationStatus::Completed => PollStep::Verify,
        OperationStatus::InProgress => if elapsed_millis < OPERATION_WAIT_MILLIS {
            PollStep::Refetch { pause_millis: POLLING_INTERVAL_MILLIS }
        } else {
            PollStep::Fail(WaitError::TimedOut)
        },
    }
}

/// Decides the next step of waiting. A failed operation ends the wait at
/// once with its message; a completed one leads to the check of the instance;
/// one in progress is fetched again after the polling interval while the
/// deadline has not passed, and is a timeout after that.
pub fn poll_step(operation: &CloudOperation, elapsed_millis: u64) -> (r: PollStep)
    ensures
        r == spec_poll_step(operation.status, operation.message, elapsed_millis),
{
    match operation.status {
        OperationStatus::Failed => PollStep::Fail(
            WaitError::OperationFailed { message: operation.message.clone() },
        ),
        OperationStatus::Completed => PollStep::Verify,
        OperationStatus::InProgress => {
            if elapsed_millis < OPERATION_WAIT_MILLIS {
                PollStep::Refetch { pause_millis: POLLING_INTERVAL_MILLIS }
            } else {
                PollStep::Fail(WaitError::TimedOut)
            }
        },
    }
}

impl CloudInstance {
    /// An instance is available when it has a connection string and its
    /// status is the word `available`.
    pub open spec fn spec_is_available(self) -> bool {
        self.dsn@.len() > 0 && self.status@ == "available"@
    }

    pub fn is_available(&self) -> (r: bool)
        ensures
            r == self.spec_is_available(),
    {
        !self.dsn.as_str().is_empty() && same_text(self.status.as_str(), "available")
    }
}

/// The check after an operation completed: an available instance is the
/// result, any other is a timeout.
pub fn verify_instance(instance: CloudInstance) -> (r: Result<CloudInstance, WaitError>)
    ensures
        instance.spec_is_available() ==> r == Ok::<CloudInstance, WaitError>(instance),
        !instance.spec_is_available() ==> r == Err::<CloudInstance, WaitError>(WaitError::TimedOut),
{
    if instance.is_available() {
        Ok(instance)
    } else {
        Err(WaitError::TimedOut)
    }
}

/// One look at the operation while waiting: what a fetch returned, and the
/// time spent waiting when it was looked at.
pub struct Observation {
    pub elapsed_millis: u64,
    pub operation: CloudOperation,
}

/// How a recorded wait ends.
#[derive(Debug, PartialEq, Eq)]
pub enum WaitOutcome {
    /// The last observation asks for another fetch.
    Unfinished,
    /// The wait is over.
    Finished(Result<CloudInstance, WaitError>),
}

/// The outcome of the observations from index `from` on: the first one that
/// does not ask for another fetch decides, and later ones are not looked at.
pub open spec fn spec_wait(observations: Seq<Observation>, from: int, instance: CloudInstance)
    -> WaitOutcome
    decreases observations.len() - from,
{
    if from < 0 || from >= observations.len() {
        WaitOutcome::Unfinished
    } else {
        match spec_poll_step(
            observations[from].operation.status,
            observations[from].operation.message,
            observations[from].elapsed_millis,
        ) {
            PollStep::Refetch { .. } => spec_wait(observations, from + 1, instance),
            PollStep::Verify => WaitOutcome::Finished(
                if instance.spec_is_available() {
                    Ok(instance)
                } else {
                    Err(WaitError::TimedOut)
                },
            ),
            PollStep::Fail(error) => WaitOutcome::Finished(Err(error)),
        }
    }
}

/// Follows a recorded wait from its first observation: each observation in
/// progress before the deadline leads to the next one; a failed operation
/// ends the wait with its message; a completed one ends it with the check
/// of `instance`; one still in progress at the deadline is a timeout.
pub fn wait_instance_available_after_operation(
    observations: &Vec<Observation>,
    instance: CloudInstance,
) -> (r: WaitOutcome)
    ensures
        r == spec_wait(observations@, 0, instance),
{
    let mut i: usize = 0;
    while i < observations.len()
        invariant
            i <= observations.len(),
            spec_wait(observations@, 0, instance) == spec_wait(observations@, i as int, instance),
        decreases observations.len() - i,
    {
        match poll_step(&observations[i].operation, observations[i].elapsed_millis) {
            PollStep::Refetch { .. } => {},
            PollStep::Verify => {
                return WaitOutcome::Finished(verify_instance(instance));
            },
            PollStep::Fail(error) => {
                return WaitOutcome::Finished(Err(error));
            },
        }
        i = i + 1;
    }
    WaitOutcome::Unfinished
}

/// Follows a recorded wait for an instance that is being created.
pub fn wait_instance_create(observations: &Vec<Observation>, instance: CloudInstance) -> (r: (
    OperationType,
    WaitOutcome,
))
    ensures
        r.0 == OperationType::Creating,
        r.1 == spec_wait(observations@, 0, instance),
{
    (OperationType::Creating, wait_instance_available_after_operation(observations, instance))
}

/// Follows a recorded wait for an instance that is being upgraded.
pub fn wait_instance_upgrade(observations: &Vec<Observation>, instance: CloudInstance) -> (r: (
    OperationType,
    WaitOutcome,
))
    ensures
        r.0 == OperationType::Upgrading,
        r.1 == spec_wait(observations@, 0, instance),
{
    (OperationType::Upgrading, wait_instance_available_after_operation(observations, instance))
}

/// What a create or an upgrade reports once the wait is over: the instance
/// is of no further use, so success is just the absence of an error. A wait
/// that is not over reports nothing yet.
pub fn lifecycle_result(outcome: WaitOutcome) -> (r: Option<Result<(), WaitError>>)
    ensures
        r == match outcome {
            WaitOutcome::Unfinished => None::<Result<(), WaitError>>,
            WaitOutcome::Finished(Ok(_)) => Some(Ok(())),
            WaitOutcome::Finished(Err(error)) => Some(Err(error)),
        },
{
    match outcome {
        WaitOutcome::Unfinished => None,
        WaitOutcome::Finished(Ok(_)) => Some(Ok(())),
        WaitOutcome::Finished(Err(error)) => Some(Err(error)),
    }
}

/// Whether the observations before index `at` all ask for another fetch:
/// each is in progress and was looked at before the deadline.
pub open spec fn refetched_until(observations: Seq<Observation>, at: int) -> bool {
    forall|i: int|
        0 <= i < at ==> (#[trigger] observations[i]).operation.status
            == OperationStatus::InProgress && observations[i].elapsed_millis
            < OPERATION_WAIT_MILLIS
}

proof fn lemma_wait_skips_refetches(
    observations: Seq<Observation>,
    from: int,
    at: int,
    instance: CloudInstance,
)
    requires
        0 <= from <= at <= observations.len(),
        refetched_until(observations, at),
    ensures
        spec_wait(observations, from, instance) == spec_wait(observations, at, instance),
    decreases at - from,
{
    if from < at {
        assert(observations[from].operation.status == OperationStatus::InProgress);
        lemma_wait_skips_refetches(observations, from + 1, at, instance);
    }
}

/// An operation that completes after any number of fetches in progress
/// before the deadline, with an instance that is available, ends the wait
/// with that instance.
pub proof fn lemma_completed_wait_succeeds(
    observations: Seq<Observation>,
    at: int,
    instance: CloudInstance,
)
    requires
        0 <= at < observations.len(),
        refetched_until(observations, at),
        observations[at].operation.status == OperationStatus::Completed,
        instance.spec_is_available(),
    ensures
        spec_wait(observations, 0, instance) == WaitOutcome::Finished(Ok(instance)),
{
    lemma_wait_skips_refetches(observations, 0, at, instance);
}

/// A failed operation ends the wait at the poll that observes it, with its
/// own message, whatever the clock says: nothing recorded after that poll
/// changes the outcome.
pub proof fn lemma_failed_ends_wait(
    observations: Seq<Observation>,
    at: int,
    later: Seq<Observation>,
    instance: CloudInstance,
)
    requires
        0 <= at < observations.len(),
        refetched_until(observations, at),
        observations[at].operation.status == OperationStatus::Failed,
    ensures
        spec_wait(observations, 0, instance) == WaitOutcome::Finished(
            Err(WaitError::OperationFailed { message: observations[at].operation.message }),
        ),
        spec_wait(observations.take(at + 1) + later, 0, instance) == spec_wait(
            observations,
            0,
            instance,
        ),
{
    lemma_wait_skips_refetches(observations, 0, at, instance);
    let other = observations.take(at + 1) + later;
    assert forall|i: int| 0 <= i < at implies (#[trigger] other[i]).operation.status
        == OperationStatus::InProgress && other[i].elapsed_millis < OPERATION_WAIT_MILLIS by {
        assert(other[i] == observations[i]);
    }
    lemma_wait_skips_refetches(other, 0, at, instance);
    assert(other[at] == observations[at]);
}

/// An operation still in progress when the deadline has passed ends the
/// wait with a timeout, which is not the error of a failed operation.
pub proof fn lemma_deadline_ends_wait(
    observations: Seq<Observation>,
    at: int,
    instance: CloudInstance,
)
    requires
        0 <= at < observations.len(),
        refetched_until(observations, at),
        observations[at].operation.status == OperationStatus::InProgress,
        observations[at].elapsed_millis >= OPERATION_WAIT_MILLIS,
    ensures
        spec_wait(observations, 0, instance) == WaitOutcome::Finished(Err(WaitError::TimedOut)),
        !(WaitError::TimedOut is OperationFailed),
{
    lemma_wait_skips_refetches(observations, 0, at, instance);
}

// ---------------------------------------------------------------------------
// Authentication
// ---------------------------------------------------------------------------

/// What a command does about authentication before it talks to the control
/// plane.
#[derive(Clone, Copy, Debug, PartialEq, Eq, Structural)]
pub enum AuthDecision {
    /// The client is authenticated: go on.
    Proceed,
    /// Offer to log in, then set the client up again and check once more.
    Prompt,
    /// The check failed after a login: the command ends.
    Fatal,
}

pub open spec fn spec_auth_guard(authenticated: bool, prompted: bool) -> AuthDecision {
    if authenticated {
        AuthDecision::Proceed
    } else if prompted {
        AuthDecision::Fatal
    } else {
        AuthDecision::Prompt
    }
}

/// The guard of every remote entry point. The login is offered once: a
/// client that is still not authenticated after it is a fatal error.
pub fn auth_guard(authenticated: bool, prompted: bool) -> (r: AuthDecision)
    ensures
        r == spec_auth_guard(authenticated, prompted),
{
    if authenticated {
        AuthDecision::Proceed
    } else if prompted {
        AuthDecision::Fatal
    } else {
        AuthDecision::Prompt
    }
}

/// One action of an interactive login.
#[derive(Clone, Copy, Debug, PartialEq, Eq, Structural)]
pub enum LoginStep {
    Login,
    Reinit,
    EnsureAuthenticated,
}

/// The user declined to log in.
#[derive(Clone, Copy, Debug, PartialEq, Eq, Structural)]
pub struct Aborted;

/// The question put to a user who is not authenticated.
pub fn login_question() -> (r: &'static str)
    ensures
        r@ == "You're not authenticated to the EdgeDB Cloud yet, login now?"@,
{
    "You're not authenticated to the EdgeDB Cloud yet, login now?"
}

/// What follows the answer to the login question: after a yes, log in, set
/// the client up again and check the authentication, in this order; after a
/// no, the command is aborted.
pub fn prompt_cloud_login(confirmed: bool) -> (r: Result<Vec<LoginStep>, Aborted>)
    ensures
        confirmed ==> r.is_ok() && r.unwrap()@ == seq![
            LoginStep::Login,
            LoginStep::Reinit,
            LoginStep::EnsureAuthenticated,
        ],
        !confirmed ==> r == Err::<Vec<LoginStep>, Aborted>(Aborted),
{
    if confirmed {
        let mut steps: Vec<LoginStep> = Vec::new();
        steps.push(LoginStep::Login);
        steps.push(LoginStep::Reinit);
        steps.push(LoginStep::EnsureAuthenticated);
        proof {
            assert(steps@ =~= seq![
                LoginStep::Login,
                LoginStep::Reinit,
                LoginStep::EnsureAuthenticated,
            ]);
        }
        Ok(steps)
    } else {
        Err(Aborted)
    }
}

} // verus!
