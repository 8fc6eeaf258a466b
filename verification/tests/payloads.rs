use student_registrator::action::{
    interpret_action_fields, interpret_connection, interpret_device_transport,
    parse_action_result,
};
use student_registrator::artifact::{artifact_size_ok, decode_artifact};
use student_registrator::backend::{
    finalize_payload, interpret_backend_response, lookup_backend_id, parse_start_response,
    report_payload, start_payload, sync_payload, BackendDeviceRef,
};
use student_registrator::device::{
    base_url, create_user_payload, create_user_url, delete_url, delete_user_payload,
    device_info_url, employee_search_payload, face_record_payload, fresh_search_id,
    interpret_face_fetch, make_search_id, multipart_face_body, parse_search_response,
    resolve_face_url, search_payload, search_url, upload_face_url,
};

#[test]
fn urls_follow_the_device_scheme() {
    let base = base_url("192.168.1.10", 80);
    assert_eq!(base, "http://192.168.1.10:80");
    assert_eq!(
        device_info_url(&base),
        "http://192.168.1.10:80/ISAPI/System/deviceInfo?format=json"
    );
    assert_eq!(
        create_user_url(&base),
        "http://192.168.1.10:80/ISAPI/AccessControl/UserInfo/Record?format=json"
    );
    assert_eq!(
        search_url(&base),
        "http://192.168.1.10:80/ISAPI/AccessControl/UserInfo/Search?format=json"
    );
    assert_eq!(
        delete_url(&base),
        "http://192.168.1.10:80/ISAPI/AccessControl/UserInfo/Delete?format=json"
    );
    assert_eq!(
        upload_face_url(&base),
        "http://192.168.1.10:80/ISAPI/Intelligent/FDLib/FaceDataRecord?format=json"
    );
}

#[test]
fn create_user_payload_exact() {
    let p = create_user_payload("123", "Ali", "male", "2024-01-15T10:30:00", "2034-01-15T10:30:00");
    assert_eq!(
        p,
        "{\"UserInfo\":{\"employeeNo\":\"123\",\"name\":\"Ali\",\"userType\":\"normal\",\
         \"doorRight\":\"1\",\"RightPlan\":[{\"doorNo\":1,\"planTemplateNo\":\"1\"}],\
         \"Valid\":{\"enable\":true,\"beginTime\":\"2024-01-15T10:30:00\",\
         \"endTime\":\"2034-01-15T10:30:00\",\"timeType\":\"local\"},\"gender\":\"male\",\
         \"localUIRight\":false,\"maxOpenDoorTime\":0,\"userVerifyMode\":\"\"}}"
    );
}

#[test]
fn create_user_payload_escapes_fields() {
    let p = create_user_payload("1", "A\"B", "m", "t1", "t2");
    assert!(p.contains("\"name\":\"A\\\"B\""));
}

#[test]
fn face_record_payload_exact() {
    assert_eq!(
        face_record_payload("42", "Ali", "male"),
        "{\"faceLibType\":\"blackFD\",\"FDID\":\"1\",\"FPID\":\"42\",\"name\":\"Ali\",\"gender\":\"male\"}"
    );
}

#[test]
fn delete_payload_exact() {
    assert_eq!(
        delete_user_payload("42"),
        "{\"UserInfoDelCond\":{\"EmployeeNoList\":[{\"employeeNo\":\"42\"}]}}"
    );
}

#[test]
fn search_payloads_exact() {
    assert_eq!(make_search_id(5), "search-5");
    assert_eq!(
        search_payload("search-5", 0, 30),
        "{\"UserInfoSearchCond\":{\"searchID\":\"search-5\",\"maxResults\":30,\"searchResultPosition\":0}}"
    );
    assert_eq!(
        employee_search_payload("search-5", "42"),
        "{\"UserInfoSearchCond\":{\"searchID\":\"search-5\",\"maxResults\":1,\
         \"searchResultPosition\":0,\"EmployeeNoList\":[{\"employeeNo\":\"42\"}]}}"
    );
}

#[test]
fn face_url_resolution() {
    let base = "http://10.0.0.1:80";
    assert_eq!(
        resolve_face_url(base, "http://10.0.0.1/pic.jpg"),
        "http://10.0.0.1/pic.jpg"
    );
    assert_eq!(resolve_face_url(base, "/LOCALS/pic.jpg"), "http://10.0.0.1:80/LOCALS/pic.jpg");
    assert_eq!(resolve_face_url(base, "//x/pic.jpg"), "http://10.0.0.1:80/x/pic.jpg");
}

#[test]
fn action_result_rule_accepts_either_firmware_field() {
    let by_code = interpret_action_fields(Some(1), None, None);
    assert!(by_code.ok);
    let by_string = interpret_action_fields(None, Some("OK".to_string()), None);
    assert!(by_string.ok);
    let neither = interpret_action_fields(Some(0), Some("Failed".to_string()), None);
    assert!(!neither.ok);
}

#[test]
fn parse_action_result_reads_device_json() {
    let ok = parse_action_result("{\"statusCode\":1,\"statusString\":\"OK\"}");
    assert!(ok.ok);
    assert_eq!(ok.status_code, Some(1));
    assert_eq!(ok.status_string.as_deref(), Some("OK"));
    let failed = parse_action_result("{\"statusCode\":7,\"statusString\":\"Failed\",\"errorMsg\":\"bad card\"}");
    assert!(!failed.ok);
    assert_eq!(failed.status_code, Some(7));
    assert_eq!(failed.error_msg.as_deref(), Some("bad card"));
}

#[test]
fn parse_action_result_keeps_raw_body_on_parse_error() {
    let r = parse_action_result("<html>oops</html>");
    assert!(!r.ok);
    assert_eq!(r.status_code, None);
    assert_eq!(r.status_string.as_deref(), Some("ParseError"));
    assert_eq!(r.error_msg.as_deref(), Some("<html>oops</html>"));
}

#[test]
fn artifact_decode_round_trip() {
    let bytes = decode_artifact("aGVsbG8=").expect("valid base64");
    assert_eq!(bytes, b"hello");
}

#[test]
fn fresh_search_ids_carry_the_prefix() {
    let id = fresh_search_id();
    assert!(id.starts_with("search-"));
    assert!(id.len() > "search-".len());
}

#[test]
fn artifact_decode_rejects_invalid_image() {
    let err = decode_artifact("!!!not base64!!!").unwrap_err();
    assert!(!err.ok);
    assert_eq!(err.status_string.as_deref(), Some("InvalidImage"));
    assert!(err.error_msg.is_some());
}

#[test]
fn size_guard_boundary() {
    let limit = 1048576usize * 4 / 3 + 256;
    assert!(artifact_size_ok(limit));
    assert!(!artifact_size_ok(limit + 1));
}

#[test]
fn backend_payloads_exact() {
    let p = start_payload(
        "school-1",
        "Doe John",
        "male",
        "1234567890",
        &Some("class-9".to_string()),
        &Some("John".to_string()),
        &Some("Doe".to_string()),
        &None,
        &None,
        "QUJD",
        &Some(vec!["dev-a".to_string(), "dev-b".to_string()]),
        "key-1",
    );
    assert_eq!(
        p,
        "{\"schoolId\":\"school-1\",\"fullName\":\"Doe John\",\"gender\":\"male\",\
         \"deviceStudentId\":\"1234567890\",\"classId\":\"class-9\",\"firstName\":\"John\",\
         \"lastName\":\"Doe\",\"fatherName\":null,\"parentPhone\":null,\
         \"faceImageBase64\":\"QUJD\",\"targetDeviceIds\":[\"dev-a\",\"dev-b\"],\
         \"idempotencyKey\":\"key-1\"}"
    );
    let r = report_payload(
        "prov-1",
        &Some("row-1".to_string()),
        &Some("dev-a".to_string()),
        &Some("Front door".to_string()),
        &None,
        "FAILED",
        "1234567890",
        &Some("boom".to_string()),
    );
    assert_eq!(
        r,
        "{\"provisioningId\":\"prov-1\",\"deviceId\":\"row-1\",\"externalDeviceId\":\"dev-a\",\
         \"deviceName\":\"Front door\",\"deviceLocation\":null,\"status\":\"FAILED\",\
         \"employeeNo\":\"1234567890\",\"errorMessage\":\"boom\"}"
    );
    assert_eq!(
        finalize_payload("prov-1", "why"),
        "{\"provisioningId\":\"prov-1\",\"status\":\"FAILED\",\"reason\":\"why\"}"
    );
    assert_eq!(
        sync_payload("42", "Ali", "male"),
        "{\"employeeNo\":\"42\",\"name\":\"Ali\",\"gender\":\"male\",\"source\":\"desktop-registrator\"}"
    );
}

#[test]
fn backend_response_interpretation() {
    let ok = interpret_backend_response(Ok((201, String::new())));
    assert!(ok.ok);
    assert_eq!(ok.status_code, Some(201));
    assert_eq!(ok.status_string.as_deref(), Some("OK"));
    let failed = interpret_backend_response(Ok((500, "server".to_string())));
    assert!(!failed.ok);
    assert_eq!(failed.status_string.as_deref(), Some("RequestFailed"));
    assert_eq!(failed.error_msg.as_deref(), Some("server"));
    let network = interpret_backend_response(Err("timeout".to_string()));
    assert!(!network.ok);
    assert_eq!(network.status_string.as_deref(), Some("NetworkError"));
    assert_eq!(network.error_msg.as_deref(), Some("timeout"));
}

#[test]
fn start_response_parsing() {
    let body = "{\"provisioningId\":\"prov-9\",\"deviceStudentId\":\"00012\",\
                \"targetDevices\":[{\"id\":\"row-1\",\"deviceId\":\"dev-a\"}]}";
    let out = parse_start_response(body).expect("parses");
    assert_eq!(out.provisioning_id, "prov-9");
    assert_eq!(out.device_student_id, "00012");
    assert_eq!(out.target_devices.len(), 1);
    assert_eq!(out.target_devices[0].id, "row-1");
    assert_eq!(out.target_devices[0].device_id, "dev-a");
    assert!(parse_start_response("not json").is_none());
    assert!(parse_start_response("{\"deviceStudentId\":\"1\"}").is_none());
}

#[test]
fn start_response_skips_incomplete_target_rows() {
    let body = "{\"provisioningId\":\"p\",\"deviceStudentId\":\"1\",\"targetDevices\":[\
                {\"id\":\"row-1\"},{\"id\":\"row-2\",\"deviceId\":\"dev-b\"}]}";
    let out = parse_start_response(body).expect("parses");
    assert_eq!(out.target_devices.len(), 1);
    assert_eq!(out.target_devices[0].id, "row-2");
    assert_eq!(out.target_devices[0].device_id, "dev-b");
}

#[test]
fn device_transport_failures_carry_their_label() {
    let failed = interpret_device_transport(Err("timeout".to_string()), "RequestFailed");
    assert!(!failed.ok);
    assert_eq!(failed.status_string.as_deref(), Some("RequestFailed"));
    assert_eq!(failed.error_msg.as_deref(), Some("timeout"));
    let deleted = interpret_device_transport(Err("gone".to_string()), "DeleteFailed");
    assert_eq!(deleted.status_string.as_deref(), Some("DeleteFailed"));
    let parsed = interpret_device_transport(Ok("{\"statusCode\":1}".to_string()), "RequestFailed");
    assert!(parsed.ok);
    assert_eq!(parsed.status_code, Some(1));
}

#[test]
fn connection_requires_a_parseable_response() {
    let ok = interpret_connection(Ok("{\"deviceName\":\"door\"}".to_string()));
    assert!(ok.ok);
    assert_eq!(ok.message, None);
    let bad = interpret_connection(Ok("<html>offline portal</html>".to_string()));
    assert!(!bad.ok);
    assert_eq!(
        bad.message.as_deref(),
        Some("Unparseable device response: <html>offline portal</html>")
    );
    let err = interpret_connection(Err("timeout".to_string()));
    assert!(!err.ok);
    assert_eq!(err.message.as_deref(), Some("timeout"));
}

#[test]
fn multipart_body_frames_record_and_image() {
    let body = multipart_face_body("BOUND", "{\"FPID\":\"1\"}", &b"IMG".to_vec());
    let expected: Vec<u8> = b"--BOUND\r\n\
Content-Disposition: form-data; name=\"FaceDataRecord\"\r\n\r\n\
{\"FPID\":\"1\"}\r\n\
--BOUND\r\n\
Content-Disposition: form-data; name=\"FaceImage\"; filename=\"face.jpg\"\r\n\
Content-Type: image/jpeg\r\n\r\n\
IMG\r\n\
--BOUND--\r\n"
        .to_vec();
    assert_eq!(body, expected);
}

#[test]
fn face_fetch_status_decides_outcome() {
    let ok = interpret_face_fetch(200, b"img".to_vec()).expect("successful status");
    assert_eq!(ok, b"img");
    let err = match interpret_face_fetch(404, Vec::new()) {
        Err(e) => e,
        Ok(_) => panic!("expected a failure"),
    };
    assert_eq!(err, "Failed to fetch face image: HTTP 404");
}

#[test]
fn backend_id_lookup() {
    let map = vec![
        BackendDeviceRef { id: "row-1".to_string(), device_id: "dev-a".to_string() },
        BackendDeviceRef { id: "row-2".to_string(), device_id: "dev-b".to_string() },
    ];
    assert_eq!(lookup_backend_id(&map, "dev-b").as_deref(), Some("row-2"));
    assert_eq!(lookup_backend_id(&map, "dev-x"), None);
}

#[test]
fn search_response_parsing() {
    let body = "{\"UserInfoSearch\":{\"totalMatches\":2,\"UserInfo\":[\
                {\"employeeNo\":\"1\",\"name\":\"A\",\"faceURL\":\"/LOCALS/a.jpg\"},\
                {\"employeeNo\":\"2\",\"name\":\"B\"}]}}";
    let entries = parse_search_response(body).expect("parses");
    assert_eq!(entries.len(), 2);
    assert_eq!(entries[0].employee_no, "1");
    assert_eq!(entries[0].face_url.as_deref(), Some("/LOCALS/a.jpg"));
    assert_eq!(entries[1].face_url, None);
    assert!(parse_search_response("garbage").is_none());
    assert!(parse_search_response("{\"other\":1}").is_none());
}
