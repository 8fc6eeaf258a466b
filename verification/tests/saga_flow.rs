use student_registrator::action::{DeviceActionResult, DeviceConnectionResult};
use student_registrator::backend::StartProvisioningOutcome;
use student_registrator::devtime::DeviceTime;
use student_registrator::registry::DeviceConfig;
use student_registrator::saga::{
    forward_report_status, EnrollmentRequest, RegisterDeviceResult, Saga, SagaAction, SagaEvent,
};

fn device(id: &str, name: &str, host: &str) -> DeviceConfig {
    DeviceConfig {
        id: id.to_string(),
        name: name.to_string(),
        host: host.to_string(),
        port: 80,
        username: "admin".to_string(),
        password: "pw".to_string(),
    }
}

fn request() -> EnrollmentRequest {
    EnrollmentRequest {
        name: "Ali Valiyev".to_string(),
        gender: "male".to_string(),
        first_name: None,
        last_name: None,
        father_name: None,
        parent_phone: None,
        face_image_base64: "QUJD".to_string(),
        target_device_ids: None,
    }
}

fn now() -> DeviceTime {
    DeviceTime { year: 2024, month: 1, day: 15, hour: 10, minute: 30, second: 0 }
}

fn action_ok() -> DeviceActionResult {
    DeviceActionResult {
        ok: true,
        status_code: Some(1),
        status_string: Some("OK".to_string()),
        error_msg: None,
    }
}

fn action_failed(msg: &str) -> DeviceActionResult {
    DeviceActionResult {
        ok: false,
        status_code: Some(7),
        status_string: Some("Failed".to_string()),
        error_msg: Some(msg.to_string()),
    }
}

fn conn_ok() -> DeviceConnectionResult {
    DeviceConnectionResult { ok: true, message: None }
}

fn start_outcome(pid: &str, student_id: &str) -> StartProvisioningOutcome {
    StartProvisioningOutcome {
        provisioning_id: pid.to_string(),
        device_student_id: student_id.to_string(),
        target_devices: Vec::new(),
    }
}

fn new_saga(devices: Vec<DeviceConfig>, backend: bool) -> Saga {
    Saga::new(
        request(),
        devices,
        if backend { Some("http://backend".to_string()) } else { None },
        None,
        if backend { Some("school-1".to_string()) } else { None },
        None,
        "1234567890".to_string(),
        "key-1".to_string(),
        &now(),
    )
    .expect("valid request")
}

#[test]
fn end_to_end_three_devices_partial_failures_no_abort() {
    let devices = vec![
        device("dev-a", "Device A", "10.0.0.1"),
        device("dev-b", "Device B", "10.0.0.2"),
        device("dev-c", "Device C", "10.0.0.3"),
    ];
    let mut saga = new_saga(devices, true);

    assert!(matches!(saga.next_action(), SagaAction::StartBackend));
    saga.step(SagaEvent::BackendStarted(Ok(start_outcome("prov-1", "00012"))));
    // Numeric adoption: the backend's numeric identity supersedes the local one.
    assert_eq!(saga.employee_no, "00012");

    // Device A: create succeeds, upload fails.
    assert!(matches!(saga.next_action(), SagaAction::TestConnection { device: 0 }));
    saga.step(SagaEvent::ConnectionTested(conn_ok()));
    assert!(matches!(saga.next_action(), SagaAction::CreateIdentity { device: 0 }));
    saga.step(SagaEvent::IdentityCreated(action_ok()));
    assert!(matches!(saga.next_action(), SagaAction::UploadArtifact { device: 0 }));
    saga.step(SagaEvent::ArtifactUploaded(action_failed("upload broke")));
    assert!(matches!(saga.next_action(), SagaAction::ReportForward { device: 0 }));
    saga.step(SagaEvent::ForwardReported(Ok(())));

    // Device B: create fails.
    assert!(matches!(saga.next_action(), SagaAction::TestConnection { device: 1 }));
    saga.step(SagaEvent::ConnectionTested(conn_ok()));
    saga.step(SagaEvent::IdentityCreated(action_failed("create broke")));
    assert!(matches!(saga.next_action(), SagaAction::ReportForward { device: 1 }));
    saga.step(SagaEvent::ForwardReported(Ok(())));

    // Device C: everything succeeds.
    saga.step(SagaEvent::ConnectionTested(conn_ok()));
    saga.step(SagaEvent::IdentityCreated(action_ok()));
    saga.step(SagaEvent::ArtifactUploaded(action_ok()));
    saga.step(SagaEvent::ForwardReported(Ok(())));

    // Device-level failures alone never abort the saga.
    assert!(matches!(saga.next_action(), SagaAction::Finish));
    assert!(saga.abort_reason.is_none());
    assert_eq!(saga.successful.len(), 2);
    assert_eq!(saga.successful[0].device_index, 0);
    assert_eq!(saga.successful[1].device_index, 2);

    let result = saga.into_result();
    assert_eq!(result.employee_no, "00012");
    assert_eq!(result.provisioning_id.as_deref(), Some("prov-1"));
    assert_eq!(result.results.len(), 3);
    let a = &result.results[0];
    assert!(a.connection.ok);
    assert!(a.user_create.as_ref().unwrap().ok);
    assert!(!a.face_upload.as_ref().unwrap().ok);
    let b = &result.results[1];
    assert!(!b.user_create.as_ref().unwrap().ok);
    assert!(b.face_upload.is_none());
    let c = &result.results[2];
    assert!(c.user_create.as_ref().unwrap().ok);
    assert!(c.face_upload.as_ref().unwrap().ok);
}

#[test]
fn create_ok_lands_in_successful_entries() {
    let mut saga = new_saga(vec![device("dev-a", "Device A", "10.0.0.1")], false);
    saga.step(SagaEvent::ConnectionTested(conn_ok()));
    saga.step(SagaEvent::IdentityCreated(action_ok()));
    saga.step(SagaEvent::ArtifactUploaded(action_failed("upload broke")));
    // The create succeeded, so the device is owed a compensating delete.
    assert_eq!(saga.successful.len(), 1);
    assert_eq!(saga.successful[0].device_index, 0);
    assert_eq!(saga.successful[0].device_name, "Device A");
}

#[test]
fn failed_connection_owes_no_compensation() {
    let mut saga = new_saga(vec![device("dev-a", "Device A", "10.0.0.1")], false);
    saga.step(SagaEvent::ConnectionTested(DeviceConnectionResult {
        ok: false,
        message: Some("timeout".to_string()),
    }));
    assert!(matches!(saga.next_action(), SagaAction::Finish));
    assert_eq!(saga.successful.len(), 0);
    let result = saga.into_result();
    assert!(!result.results[0].connection.ok);
    assert!(result.results[0].user_create.is_none());
}

#[test]
fn numeric_adoption_keeps_local_number_for_non_numeric_backend_id() {
    let mut saga = new_saga(vec![device("dev-a", "Device A", "10.0.0.1")], true);
    saga.step(SagaEvent::BackendStarted(Ok(start_outcome("prov-1", "abc123"))));
    assert_eq!(saga.employee_no, "1234567890");
}

#[test]
fn backend_start_failure_is_terminal_with_no_rollback() {
    let mut saga = new_saga(vec![device("dev-a", "Device A", "10.0.0.1")], true);
    saga.step(SagaEvent::BackendStarted(Err("503 unavailable".to_string())));
    assert!(matches!(saga.next_action(), SagaAction::Finish));
    assert_eq!(
        saga.final_error.as_deref(),
        Some("Backend provisioning failed: 503 unavailable")
    );
    assert_eq!(saga.successful.len(), 0);
}

#[test]
fn aborted_saga_rolls_back_every_successful_entry_without_short_circuit() {
    let devices = vec![
        device("dev-a", "Device One", "10.0.0.1"),
        device("dev-b", "Device Two", "10.0.0.2"),
    ];
    let mut saga = new_saga(devices, true);
    saga.step(SagaEvent::BackendStarted(Ok(start_outcome("prov-1", "00012"))));

    // Both devices fully succeed.
    saga.step(SagaEvent::ConnectionTested(conn_ok()));
    saga.step(SagaEvent::IdentityCreated(action_ok()));
    saga.step(SagaEvent::ArtifactUploaded(action_ok()));
    saga.step(SagaEvent::ForwardReported(Ok(())));
    saga.step(SagaEvent::ConnectionTested(conn_ok()));
    saga.step(SagaEvent::IdentityCreated(action_ok()));
    saga.step(SagaEvent::ArtifactUploaded(action_ok()));
    // The forward report of the second device fails: the saga aborts.
    saga.step(SagaEvent::ForwardReported(Err("net down".to_string())));
    assert_eq!(saga.abort_reason.as_deref(), Some("Backend report failed: net down"));
    assert_eq!(saga.successful.len(), 2);

    // Rollback: exactly one delete per successful entry, in order, and a
    // failing delete does not stop the loop.
    let mut deletes = Vec::new();
    match saga.next_action() {
        SagaAction::DeleteIdentity { entry } => deletes.push(entry),
        other => panic!("expected a delete, got {:?}", tag(&other)),
    }
    assert_eq!(saga.rollback_reason(), "Rolled back due to failure: Backend report failed: net down");
    saga.step(SagaEvent::RollbackDeleted(action_failed("delete refused")));
    assert!(matches!(saga.next_action(), SagaAction::ReportRollback { entry: 0 }));
    assert_eq!(
        saga.rollback_report_error(),
        "Rolled back due to failure: Backend report failed: net down. Rollback delete failed: delete refused"
    );
    saga.step(SagaEvent::RollbackReported);
    match saga.next_action() {
        SagaAction::DeleteIdentity { entry } => deletes.push(entry),
        other => panic!("expected a delete, got {:?}", tag(&other)),
    }
    saga.step(SagaEvent::RollbackDeleted(action_ok()));
    assert!(matches!(saga.next_action(), SagaAction::ReportRollback { entry: 1 }));
    saga.step(SagaEvent::RollbackReported);
    assert_eq!(deletes, vec![0, 1]);

    // The rollback employee number is the adopted one.
    assert_eq!(saga.employee_no, "00012");

    // Finalize failure: the terminal error keeps every contributing cause.
    assert!(matches!(saga.next_action(), SagaAction::FinalizeFailure));
    assert_eq!(
        saga.finalize_reason(),
        "Rolled back due to failure: Backend report failed: net down. Rollback errors: Device One: delete refused"
    );
    saga.step(SagaEvent::FailureFinalized(Err("boom".to_string())));
    assert!(matches!(saga.next_action(), SagaAction::Finish));
    assert_eq!(
        saga.final_error.as_deref(),
        Some("Backend report failed: net down. Rollback errors: Device One: delete refused. Finalize failed: boom")
    );
}

#[test]
fn aborted_saga_with_clean_rollback_keeps_original_cause() {
    let mut saga = new_saga(vec![device("dev-a", "Device A", "10.0.0.1")], true);
    saga.step(SagaEvent::BackendStarted(Ok(start_outcome("prov-1", "00012"))));
    saga.step(SagaEvent::ConnectionTested(conn_ok()));
    saga.step(SagaEvent::IdentityCreated(action_ok()));
    saga.step(SagaEvent::ArtifactUploaded(action_ok()));
    saga.step(SagaEvent::ForwardReported(Err("net down".to_string())));
    saga.step(SagaEvent::RollbackDeleted(action_ok()));
    saga.step(SagaEvent::RollbackReported);
    saga.step(SagaEvent::FailureFinalized(Ok(())));
    assert_eq!(saga.final_error.as_deref(), Some("Backend report failed: net down"));
}

#[test]
fn backend_only_run_with_empty_target_set() {
    let mut req = request();
    req.target_device_ids = Some(Vec::new());
    let saga = Saga::new(
        req,
        Vec::new(),
        Some("http://backend".to_string()),
        None,
        Some("school-1".to_string()),
        None,
        "1234567890".to_string(),
        "key-1".to_string(),
        &now(),
    )
    .expect("backend-only is allowed");
    assert!(matches!(saga.next_action(), SagaAction::StartBackend));
}

#[test]
fn target_filter_selects_devices() {
    let mut req = request();
    req.target_device_ids = Some(vec![" dev-b ".to_string(), "".to_string()]);
    let devices = vec![
        device("dev-a", "Device A", "10.0.0.1"),
        device("dev-b", "Device B", "10.0.0.2"),
    ];
    let saga = Saga::new(
        req,
        devices,
        None,
        None,
        None,
        None,
        "1234567890".to_string(),
        "key-1".to_string(),
        &now(),
    )
    .expect("valid");
    assert_eq!(saga.devices.len(), 1);
    assert_eq!(saga.devices[0].id, "dev-b");
}

#[test]
fn forward_report_reflects_the_device_outcome() {
    let fully_ok = RegisterDeviceResult {
        device_id: "dev-a".to_string(),
        device_name: "Device A".to_string(),
        connection: conn_ok(),
        user_create: Some(action_ok()),
        face_upload: Some(action_ok()),
    };
    let (status, message) = forward_report_status(&fully_ok);
    assert_eq!(status, "OK");
    assert_eq!(message, None);

    let upload_failed = RegisterDeviceResult {
        device_id: "dev-a".to_string(),
        device_name: "Device A".to_string(),
        connection: conn_ok(),
        user_create: Some(action_ok()),
        face_upload: Some(action_failed("upload broke")),
    };
    let (status, message) = forward_report_status(&upload_failed);
    assert_eq!(status, "FAILED");
    assert_eq!(message.as_deref(), Some("upload broke"));

    let offline = RegisterDeviceResult {
        device_id: "dev-a".to_string(),
        device_name: "Device A".to_string(),
        connection: DeviceConnectionResult { ok: false, message: Some("timeout".to_string()) },
        user_create: None,
        face_upload: None,
    };
    let (status, message) = forward_report_status(&offline);
    assert_eq!(status, "FAILED");
    assert_eq!(message.as_deref(), Some("timeout"));
}

fn tag(a: &SagaAction) -> &'static str {
    match a {
        SagaAction::StartBackend => "start",
        SagaAction::TestConnection { .. } => "connect",
        SagaAction::CreateIdentity { .. } => "create",
        SagaAction::UploadArtifact { .. } => "upload",
        SagaAction::ReportForward { .. } => "report",
        SagaAction::DeleteIdentity { .. } => "delete",
        SagaAction::ReportRollback { .. } => "rollback-report",
        SagaAction::FinalizeFailure => "finalize",
        SagaAction::Finish => "finish",
    }
}
