use student_registrator::devtime::DeviceTime;
use student_registrator::employee::{adopt_employee_no, generate_employee_no, is_all_digits};
use student_registrator::registry::DeviceConfig;
use student_registrator::saga::{full_name_of, normalize_opt, EnrollmentRequest, Saga};

fn device(id: &str) -> DeviceConfig {
    DeviceConfig {
        id: id.to_string(),
        name: "Door".to_string(),
        host: "10.0.0.1".to_string(),
        port: 80,
        username: "admin".to_string(),
        password: "pw".to_string(),
    }
}

fn now() -> DeviceTime {
    DeviceTime { year: 2024, month: 1, day: 15, hour: 10, minute: 30, second: 0 }
}

fn request_with_face(face: String) -> EnrollmentRequest {
    EnrollmentRequest {
        name: "Ali".to_string(),
        gender: "male".to_string(),
        first_name: None,
        last_name: None,
        father_name: None,
        parent_phone: None,
        face_image_base64: face,
        target_device_ids: None,
    }
}

fn build_err(
    req: EnrollmentRequest,
    devices: Vec<DeviceConfig>,
    backend_url: Option<&str>,
    school_id: Option<&str>,
) -> String {
    match build(req, devices, backend_url, school_id) {
        Err(e) => e,
        Ok(_) => panic!("expected the request to be rejected"),
    }
}

fn build(
    req: EnrollmentRequest,
    devices: Vec<DeviceConfig>,
    backend_url: Option<&str>,
    school_id: Option<&str>,
) -> Result<Saga, String> {
    Saga::new(
        req,
        devices,
        backend_url.map(|s| s.to_string()),
        None,
        school_id.map(|s| s.to_string()),
        None,
        "1234567890".to_string(),
        "key-1".to_string(),
        &now(),
    )
}

#[test]
fn oversized_artifact_is_rejected_before_any_network_action() {
    // One character over limit*4/3 + 256.
    let oversized = "A".repeat(1048576 * 4 / 3 + 256 + 1);
    let err = build_err(request_with_face(oversized), vec![device("d")], None, None);
    assert_eq!(err, "Face image is too large. Max 1024 KB.");
}

#[test]
fn artifact_at_the_bound_is_accepted() {
    let at_bound = "A".repeat(1048576 * 4 / 3 + 256);
    assert!(build(request_with_face(at_bound), vec![device("d")], None, None).is_ok());
}

#[test]
fn empty_registry_is_rejected_unless_backend_only() {
    let err = build_err(request_with_face("QUJD".to_string()), Vec::new(), None, None);
    assert_eq!(err, "No devices configured");
}

#[test]
fn backend_url_requires_school_id() {
    let err = build_err(
        request_with_face("QUJD".to_string()),
        vec![device("d")],
        Some("http://backend"),
        None,
    );
    assert_eq!(err, "schoolId is required when backendUrl is set");
    // A blank school identifier counts as missing.
    let err2 = build_err(
        request_with_face("QUJD".to_string()),
        vec![device("d")],
        Some("http://backend"),
        Some("   "),
    );
    assert_eq!(err2, "schoolId is required when backendUrl is set");
}

#[test]
fn blank_backend_url_means_no_backend() {
    let saga = build(
        request_with_face("QUJD".to_string()),
        vec![device("d")],
        Some("  "),
        None,
    )
    .unwrap();
    assert!(saga.backend.is_none());
}

#[test]
fn full_name_combines_last_and_first() {
    assert_eq!(
        full_name_of("fallback", &Some(" John ".to_string()), &Some(" Doe ".to_string())),
        "Doe John"
    );
    assert_eq!(full_name_of(" Plain Name ", &None, &None), "Plain Name");
    assert_eq!(full_name_of("x", &Some("John".to_string()), &None), "John");
    assert_eq!(full_name_of("x", &None, &Some("Doe".to_string())), "Doe");
}

#[test]
fn normalization_drops_blank_settings() {
    assert_eq!(normalize_opt(Some("  ".to_string())), None);
    assert_eq!(normalize_opt(Some(" x ".to_string())), Some("x".to_string()));
    assert_eq!(normalize_opt(None), None);
}

#[test]
fn employee_numbers_are_ten_digits() {
    for _ in 0..20 {
        let n = generate_employee_no();
        assert_eq!(n.len(), 10);
        assert!(n.chars().all(|c| c.is_ascii_digit()));
    }
}

#[test]
fn begin_generates_number_and_key() {
    let saga = Saga::begin(
        request_with_face("QUJD".to_string()),
        vec![device("d")],
        None,
        None,
        None,
        None,
    )
    .unwrap_or_else(|e| panic!("valid request rejected: {}", e));
    assert_eq!(saga.employee_no.len(), 10);
    assert!(saga.employee_no.chars().all(|c| c.is_ascii_digit()));
    assert_eq!(saga.idempotency_key.len(), 36);
}

#[test]
fn digit_test_and_adoption() {
    assert!(is_all_digits("00012"));
    assert!(!is_all_digits("abc123"));
    assert_eq!(adopt_employee_no("1234567890", "00012"), "00012");
    assert_eq!(adopt_employee_no("1234567890", "abc123"), "1234567890");
    // An empty backend identity never supersedes the local number.
    assert_eq!(adopt_employee_no("1234567890", ""), "1234567890");
}
