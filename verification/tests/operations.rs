use edgedb_cli::async_util::{timeout, TimeoutError};
use edgedb_cli::ops::{
    auth_guard, create_cloud_instance, destroy, find_cloud_instance_by_name, instance_path,
    instances_path, lifecycle_result, list_path, login_question, operation_path, poll_step, prompt_cloud_login,
    try_to_destroy, upgrade_cloud_instance, verify_instance,
    wait_instance_available_after_operation, wait_instance_create, wait_instance_upgrade, Aborted,
    ApiRequest, AuthDecision, CloudInstance, CloudInstanceCreate, CloudInstanceUpgrade,
    CloudOperation, InstancePayload, LoginStep, Method, Observation, OperationStatus,
    OperationType, Org, PollStep, WaitError, WaitOutcome, LIST_TIMEOUT_SECS,
    OPERATION_WAIT_MILLIS, POLLING_INTERVAL_MILLIS, SPINNER_TICK_MILLIS,
};

fn operation(status: OperationStatus, message: &str) -> CloudOperation {
    CloudOperation { id: "op-1".to_string(), status, message: message.to_string() }
}

fn seen(at: u64, status: OperationStatus, message: &str) -> Observation {
    Observation { elapsed_millis: at, operation: operation(status, message) }
}

fn instance(dsn: &str, status: &str) -> CloudInstance {
    CloudInstance {
        id: "i-1".to_string(),
        name: "db1".to_string(),
        org_slug: "acme".to_string(),
        dsn: dsn.to_string(),
        status: status.to_string(),
        version: "2.0".to_string(),
        tls_ca: None,
    }
}

#[test]
fn limits_of_waiting() {
    assert_eq!(OPERATION_WAIT_MILLIS, 5 * 60 * 1000);
    assert_eq!(POLLING_INTERVAL_MILLIS, 1000);
    assert_eq!(SPINNER_TICK_MILLIS, 100);
    assert_eq!(LIST_TIMEOUT_SECS, 30);
}

#[test]
fn wire_names_of_status() {
    assert_eq!(OperationStatus::from_wire("in_progress"), Some(OperationStatus::InProgress));
    assert_eq!(OperationStatus::from_wire("failed"), Some(OperationStatus::Failed));
    assert_eq!(OperationStatus::from_wire("completed"), Some(OperationStatus::Completed));
    assert_eq!(OperationStatus::from_wire("InProgress"), None);
    assert_eq!(OperationStatus::from_wire(""), None);
}

#[test]
fn paths_of_the_api() {
    assert_eq!(instance_path("acme", "db1"), "orgs/acme/instances/db1");
    assert_eq!(instances_path("acme"), "orgs/acme/instances");
    assert_eq!(operation_path("op-1"), "operations/op-1");
    assert_eq!(list_path(), "instances/");
}

#[test]
fn requests_of_the_lifecycle() {
    let payload = InstancePayload {
        name: "db1".to_string(),
        org: "acme".to_string(),
        version: "2.0".to_string(),
    };
    let create = CloudInstanceCreate {
        name: "db1".to_string(),
        org: "acme".to_string(),
        version: "2.0".to_string(),
    };
    assert_eq!(
        create_cloud_instance(&create),
        ApiRequest {
            method: Method::Post,
            path: "orgs/acme/instances".to_string(),
            payload: Some(payload.clone()),
        }
    );
    let upgrade = CloudInstanceUpgrade {
        name: "db1".to_string(),
        org: "acme".to_string(),
        version: "2.0".to_string(),
    };
    assert_eq!(
        upgrade_cloud_instance(&upgrade),
        ApiRequest {
            method: Method::Put,
            path: "orgs/acme/instances/db1".to_string(),
            payload: Some(payload),
        }
    );
    assert_eq!(
        try_to_destroy("db1", "acme"),
        ApiRequest {
            method: Method::Delete,
            path: "orgs/acme/instances/db1".to_string(),
            payload: None,
        }
    );
    assert_eq!(
        find_cloud_instance_by_name("db1", "acme"),
        ApiRequest { method: Method::Get, path: "orgs/acme/instances/db1".to_string(), payload: None }
    );
    let org = Org { id: "o-1".to_string(), name: "acme".to_string() };
    assert_eq!(org.name, "acme");
}

#[test]
fn poll_step_by_status_and_clock() {
    assert_eq!(poll_step(&operation(OperationStatus::InProgress, ""), 0), PollStep::Refetch { pause_millis: 1_000 });
    assert_eq!(poll_step(&operation(OperationStatus::InProgress, ""), 299_999), PollStep::Refetch { pause_millis: 1_000 });
    assert_eq!(
        poll_step(&operation(OperationStatus::InProgress, ""), 300_000),
        PollStep::Fail(WaitError::TimedOut)
    );
    assert_eq!(poll_step(&operation(OperationStatus::Completed, ""), 0), PollStep::Verify);
    assert_eq!(poll_step(&operation(OperationStatus::Completed, ""), 900_000), PollStep::Verify);
    assert_eq!(
        poll_step(&operation(OperationStatus::Failed, "quota exceeded"), 5),
        PollStep::Fail(WaitError::OperationFailed { message: "quota exceeded".to_string() })
    );
    assert_eq!(
        poll_step(&operation(OperationStatus::Failed, "quota exceeded"), 900_000),
        PollStep::Fail(WaitError::OperationFailed { message: "quota exceeded".to_string() })
    );
}

#[test]
fn poller_succeeds_after_two_refetches() {
    let polls = vec![
        seen(0, OperationStatus::InProgress, ""),
        seen(1_000, OperationStatus::InProgress, ""),
        seen(2_000, OperationStatus::Completed, "done"),
    ];
    let target = instance("edgedb://acme/db1", "available");
    assert_eq!(
        wait_instance_available_after_operation(&polls, target.clone()),
        WaitOutcome::Finished(Ok(target))
    );
}

#[test]
fn poller_fails_at_once_on_failed() {
    let polls = vec![
        seen(0, OperationStatus::InProgress, ""),
        seen(1_000, OperationStatus::Failed, "no capacity"),
        seen(2_000, OperationStatus::Completed, "never looked at"),
    ];
    assert_eq!(
        wait_instance_available_after_operation(&polls, instance("edgedb://x", "available")),
        WaitOutcome::Finished(Err(WaitError::OperationFailed { message: "no capacity".to_string() }))
    );
    let first = vec![seen(0, OperationStatus::Failed, "denied")];
    assert_eq!(
        wait_instance_available_after_operation(&first, instance("edgedb://x", "available")),
        WaitOutcome::Finished(Err(WaitError::OperationFailed { message: "denied".to_string() }))
    );
}

#[test]
fn poller_times_out_past_the_deadline() {
    let polls = vec![
        seen(0, OperationStatus::InProgress, ""),
        seen(150_000, OperationStatus::InProgress, ""),
        seen(300_000, OperationStatus::InProgress, ""),
        seen(300_001, OperationStatus::Completed, ""),
    ];
    let outcome = wait_instance_available_after_operation(&polls, instance("edgedb://x", "available"));
    assert_eq!(outcome, WaitOutcome::Finished(Err(WaitError::TimedOut)));
    assert_ne!(
        outcome,
        WaitOutcome::Finished(Err(WaitError::OperationFailed { message: String::new() }))
    );
}

#[test]
fn poller_is_unfinished_while_in_progress() {
    let polls = vec![seen(0, OperationStatus::InProgress, "")];
    assert_eq!(
        wait_instance_available_after_operation(&polls, instance("edgedb://x", "available")),
        WaitOutcome::Unfinished
    );
    assert_eq!(
        wait_instance_available_after_operation(&Vec::new(), instance("edgedb://x", "available")),
        WaitOutcome::Unfinished
    );
}

#[test]
fn verification_needs_dsn_and_available() {
    let good = instance("edgedb://acme/db1", "available");
    assert_eq!(verify_instance(good.clone()), Ok(good));
    assert_eq!(verify_instance(instance("", "available")), Err(WaitError::TimedOut));
    assert_eq!(verify_instance(instance("edgedb://x", "creating")), Err(WaitError::TimedOut));
    assert_eq!(verify_instance(instance("edgedb://x", "Available")), Err(WaitError::TimedOut));
    assert!(instance("edgedb://x", "available").is_available());
    let polls = vec![seen(0, OperationStatus::Completed, "")];
    assert_eq!(
        wait_instance_available_after_operation(&polls, instance("", "available")),
        WaitOutcome::Finished(Err(WaitError::TimedOut))
    );
}

#[test]
fn scenario_create_succeeds() {
    let request = CloudInstanceCreate {
        name: "db1".to_string(),
        org: "acme".to_string(),
        version: "2.0".to_string(),
    };
    let sent = create_cloud_instance(&request);
    assert_eq!(sent.method, Method::Post);
    assert_eq!(sent.path, "orgs/acme/instances");
    let polls = vec![
        seen(0, OperationStatus::InProgress, ""),
        seen(1_000, OperationStatus::Completed, ""),
    ];
    let (label, outcome) = wait_instance_create(&polls, instance("edgedb://...", "available"));
    assert_eq!(label, OperationType::Creating);
    assert_eq!(outcome, WaitOutcome::Finished(Ok(instance("edgedb://...", "available"))));
    assert_eq!(lifecycle_result(outcome), Some(Ok(())));
    assert_eq!(lifecycle_result(WaitOutcome::Unfinished), None);
    assert_eq!(
        lifecycle_result(WaitOutcome::Finished(Err(WaitError::TimedOut))),
        Some(Err(WaitError::TimedOut))
    );
    let (label, outcome) = wait_instance_upgrade(&polls, instance("edgedb://...", "available"));
    assert_eq!(label, OperationType::Upgrading);
    assert!(matches!(outcome, WaitOutcome::Finished(Ok(_))));
}

#[test]
fn scenario_destroy_passes_the_error_on() {
    let failed: Result<CloudOperation, String> = Err("network failure".to_string());
    assert_eq!(destroy(failed), Err("network failure".to_string()));
    let acknowledged: Result<CloudOperation, String> = Ok(operation(OperationStatus::InProgress, ""));
    assert_eq!(destroy(acknowledged), Ok(()));
}

#[test]
fn texts_for_the_user() {
    assert_eq!(OperationType::Creating.label(), "creating");
    assert_eq!(OperationType::Upgrading.label(), "upgrading");
    assert_eq!(
        OperationType::Creating.progress_message(),
        "Waiting for the result of EdgeDB Cloud instance creating..."
    );
    assert_eq!(
        WaitError::OperationFailed { message: "boom".to_string() }.describe(OperationType::Upgrading),
        "Failed to wait for EdgeDB Cloud instance to become available after upgrading an instance: boom"
    );
    assert_eq!(WaitError::TimedOut.describe(OperationType::Creating), "Timed out.");
    assert_eq!(login_question(), "You're not authenticated to the EdgeDB Cloud yet, login now?");
}

#[test]
fn authentication_is_offered_once() {
    assert_eq!(auth_guard(true, false), AuthDecision::Proceed);
    assert_eq!(auth_guard(true, true), AuthDecision::Proceed);
    assert_eq!(auth_guard(false, false), AuthDecision::Prompt);
    assert_eq!(auth_guard(false, true), AuthDecision::Fatal);
    assert_eq!(
        prompt_cloud_login(true),
        Ok(vec![LoginStep::Login, LoginStep::Reinit, LoginStep::EnsureAuthenticated])
    );
    assert_eq!(prompt_cloud_login(false), Err(Aborted));
}

#[test]
fn timeout_flattens_the_outcome() {
    let in_time: Option<Result<u8, String>> = Some(Ok(7));
    assert_eq!(timeout(in_time), Ok(7));
    let failed: Option<Result<u8, String>> = Some(Err("refused".to_string()));
    assert_eq!(timeout(failed), Err(TimeoutError::Failed("refused".to_string())));
    let late: Option<Result<u8, String>> = None;
    assert_eq!(timeout(late), Err(TimeoutError::TimedOut));
}
