//! The backend provisioning API: request bodies, endpoint URLs, response
//! interpretation, and a verified model of the backend's idempotent
//! start-provisioning contract.

use vstd::prelude::*;

use crate::json::spec_json_parse_ok;
use crate::text::{spec_dec, spec_json_escaped, json_escape, u64_to_dec};

verus! {

/// Where and as whom the saga talks to the backend.
pub struct BackendConfig {
    pub base_url: String,
    pub token: Option<String>,
    pub school_id: String,
    pub class_id: Option<String>,
}

/// One device row the backend registered for this provisioning run.
pub struct BackendDeviceRef {
    /// The backend's own row identifier, used when reporting.
    pub id: String,
    /// The external device identifier the row stands for.
    pub device_id: String,
}

/// What a successful start-provisioning call returns.
pub struct StartProvisioningOutcome {
    pub provisioning_id: String,
    pub device_student_id: String,
    pub target_devices: Vec<BackendDeviceRef>,
}

pub open spec fn spec_start_url(base: Seq<char>) -> Seq<char> {
    base + "/api/provisioning/start"@
}

/// URL of the start-provisioning endpoint.
pub fn start_url(base: &str) -> (r: String)
    ensures
        r@ == spec_start_url(base@),
{
    let mut out = String::new();
    out.append(base);
    out.append("/api/provisioning/start");
    proof {
        assert(out@ =~= spec_start_url(base@));
    }
    out
}

pub open spec fn spec_report_url(base: Seq<char>) -> Seq<char> {
    base + "/api/provisioning/report-device"@
}

/// URL of the per-device report endpoint.
pub fn report_url(base: &str) -> (r: String)
    ensures
        r@ == spec_report_url(base@),
{
    let mut out = String::new();
    out.append(base);
    out.append("/api/provisioning/report-device");
    proof {
        assert(out@ =~= spec_report_url(base@));
    }
    out
}

pub open spec fn spec_finalize_url(base: Seq<char>) -> Seq<char> {
    base + "/api/provisioning/finalize-failure"@
}

/// URL of the failure-finalization endpoint.
pub fn finalize_url(base: &str) -> (r: String)
    ensures
        r@ == spec_finalize_url(base@),
{
    let mut out = String::new();
    out.append(base);
    out.append("/api/provisioning/finalize-failure");
    proof {
        assert(out@ =~= spec_finalize_url(base@));
    }
    out
}

pub open spec fn spec_sync_url(base: Seq<char>) -> Seq<char> {
    base + "/api/students/sync"@
}

/// URL of the legacy student-sync endpoint.
pub fn sync_url(base: &str) -> (r: String)
    ensures
        r@ == spec_sync_url(base@),
{
    let mut out = String::new();
    out.append(base);
    out.append("/api/students/sync");
    proof {
        assert(out@ =~= spec_sync_url(base@));
    }
    out
}

/// A JSON string literal, or `null` for an absent value.
pub open spec fn spec_opt_json_string(o: Option<Seq<char>>) -> Seq<char> {
    match o {
        Some(s) => "\""@ + spec_json_escaped(s) + "\""@,
        None => "null"@,
    }
}

/// Append a JSON string literal or `null`.
fn append_opt_json_string(out: &mut String, o: &Option<String>)
    ensures
        final(out)@ == old(out)@ + spec_opt_json_string(o.deep_view()),
{
    match o {
        Some(s) => {
            out.append("\"");
            let e = json_escape(s.as_str());
            out.append(e.as_str());
            out.append("\"");
            proof {
                assert(out@ =~= old(out)@ + spec_opt_json_string(o.deep_view()));
            }
        },
        None => {
            out.append("null");
            proof {
                assert(out@ =~= old(out)@ + spec_opt_json_string(o.deep_view()));
            }
        },
    }
}

/// The items of a JSON array of string literals, comma-separated.
pub open spec fn spec_quoted_list(items: Seq<Seq<char>>) -> Seq<char>
    decreases items.len(),
{
    if items.len() == 0 {
        Seq::empty()
    } else if items.len() == 1 {
        "\""@ + spec_json_escaped(items[0]) + "\""@
    } else {
        spec_quoted_list(items.drop_last()) + ","@ + "\""@ + spec_json_escaped(items.last())
            + "\""@
    }
}

/// Append a JSON array of string literals.
fn append_string_array(out: &mut String, items: &Vec<String>)
    ensures
        final(out)@ == old(out)@ + "["@ + spec_quoted_list(items.deep_view()) + "]"@,
{
    out.append("[");
    let mut i: usize = 0;
    while i < items.len()
        invariant
            i <= items@.len(),
            items.deep_view().len() == items@.len(),
            forall|j: int|
                0 <= j < items@.len() ==> items.deep_view()[j] == #[trigger] items@[j]@,
            out@ =~= old(out)@ + "["@ + spec_quoted_list(items.deep_view().subrange(0, i as int)),
        decreases items@.len() - i,
    {
        if i > 0 {
            out.append(",");
        }
        out.append("\"");
        let e = json_escape(items[i].as_str());
        out.append(e.as_str());
        out.append("\"");
        proof {
            let dv = items.deep_view();
            let full = dv.subrange(0, i as int + 1);
            assert(full.drop_last() =~= dv.subrange(0, i as int));
            assert(full.last() == dv[i as int]);
            assert(out@ =~= old(out)@ + "["@ + spec_quoted_list(full));
        }
        i = i + 1;
    }
    out.append("]");
    proof {
        assert(items.deep_view().subrange(0, items@.len() as int) =~= items.deep_view());
        assert(out@ =~= old(out)@ + "["@ + spec_quoted_list(items.deep_view()) + "]"@);
    }
}

/// The start-provisioning request: identity fields, the encoded artifact,
/// the requested device subset, and the per-attempt idempotency key that
/// makes backend-side retries safe to repeat.
pub open spec fn spec_start_payload(
    school_id: Seq<char>,
    full_name: Seq<char>,
    gender: Seq<char>,
    device_student_id: Seq<char>,
    class_id: Option<Seq<char>>,
    first_name: Option<Seq<char>>,
    last_name: Option<Seq<char>>,
    father_name: Option<Seq<char>>,
    parent_phone: Option<Seq<char>>,
    face_image_base64: Seq<char>,
    target_device_ids: Option<Seq<Seq<char>>>,
    idempotency_key: Seq<char>,
) -> Seq<char> {
    "{\"schoolId\":\""@ + spec_json_escaped(school_id) + "\",\"fullName\":\""@
        + spec_json_escaped(full_name) + "\",\"gender\":\""@ + spec_json_escaped(gender)
        + "\",\"deviceStudentId\":\""@ + spec_json_escaped(device_student_id) + "\",\"classId\":"@
        + spec_opt_json_string(class_id) + ",\"firstName\":"@ + spec_opt_json_string(first_name)
        + ",\"lastName\":"@ + spec_opt_json_string(last_name) + ",\"fatherName\":"@
        + spec_opt_json_string(father_name) + ",\"parentPhone\":"@ + spec_opt_json_string(
        parent_phone,
    ) + ",\"faceImageBase64\":\""@ + spec_json_escaped(face_image_base64)
        + "\",\"targetDeviceIds\":"@ + (match target_device_ids {
        Some(ids) => "["@ + spec_quoted_list(ids) + "]"@,
        None => "null"@,
    }) + ",\"idempotencyKey\":\""@ + spec_json_escaped(idempotency_key) + "\"}"@
}

/// Build the start-provisioning request body.
pub fn start_payload(
    school_id: &str,
    full_name: &str,
    gender: &str,
    device_student_id: &str,
    class_id: &Option<String>,
    first_name: &Option<String>,
    last_name: &Option<String>,
    father_name: &Option<String>,
    parent_phone: &Option<String>,
    face_image_base64: &str,
    target_device_ids: &Option<Vec<String>>,
    idempotency_key: &str,
) -> (r: String)
    ensures
        r@ == spec_start_payload(
            school_id@,
            full_name@,
            gender@,
            device_student_id@,
            class_id.deep_view(),
            first_name.deep_view(),
            last_name.deep_view(),
            father_name.deep_view(),
            parent_phone.deep_view(),
            face_image_base64@,
            target_device_ids.deep_view(),
            idempotency_key@,
        ),
{
    let mut out = String::new();
    out.append("{\"schoolId\":\"");
    let s = json_escape(school_id);
    out.append(s.as_str());
    out.append("\",\"fullName\":\"");
    let f = json_escape(full_name);
    out.append(f.as_str());
    out.append("\",\"gender\":\"");
    let g = json_escape(gender);
    out.append(g.as_str());
    out.append("\",\"deviceStudentId\":\"");
    let d = json_escape(device_student_id);
    out.append(d.as_str());
    out.append("\",\"classId\":");
    append_opt_json_string(&mut out, class_id);
    out.append(",\"firstName\":");
    append_opt_json_string(&mut out, first_name);
    out.append(",\"lastName\":");
    append_opt_json_string(&mut out, last_name);
    out.append(",\"fatherName\":");
    append_opt_json_string(&mut out, father_name);
    out.append(",\"parentPhone\":");
    append_opt_json_string(&mut out, parent_phone);
    out.append(",\"faceImageBase64\":\"");
    let face = json_escape(face_image_base64);
    out.append(face.as_str());
    out.append("\",\"targetDeviceIds\":");
    match target_device_ids {
        Some(ids) => append_string_array(&mut out, ids),
        None => out.append("null"),
    }
    out.append(",\"idempotencyKey\":\"");
    let k = json_escape(idempotency_key);
    out.append(k.as_str());
    out.append("\"}");
    proof {
        assert(out@ =~= spec_start_payload(
            school_id@,
            full_name@,
            gender@,
            device_student_id@,
            class_id.deep_view(),
            first_name.deep_view(),
            last_name.deep_view(),
            father_name.deep_view(),
            parent_phone.deep_view(),
            face_image_base64@,
            target_device_ids.deep_view(),
            idempotency_key@,
        ));
    }
    out
}

/// The per-device report: which backend row and device it concerns, the
/// outcome status, the employee number used, and any error message.
pub open spec fn spec_report_payload(
    provisioning_id: Seq<char>,
    backend_device_id: Option<Seq<char>>,
    external_device_id: Option<Seq<char>>,
    device_name: Option<Seq<char>>,
    device_location: Option<Seq<char>>,
    status: Seq<char>,
    employee_no: Seq<char>,
    error_message: Option<Seq<char>>,
) -> Seq<char> {
    "{\"provisioningId\":\""@ + spec_json_escaped(provisioning_id) + "\",\"deviceId\":"@
        + spec_opt_json_string(backend_device_id) + ",\"externalDeviceId\":"@
        + spec_opt_json_string(external_device_id) + ",\"deviceName\":"@ + spec_opt_json_string(
        device_name,
    ) + ",\"deviceLocation\":"@ + spec_opt_json_string(device_location) + ",\"status\":\""@
        + spec_json_escaped(status) + "\",\"employeeNo\":\""@ + spec_json_escaped(employee_no)
        + "\",\"errorMessage\":"@ + spec_opt_json_string(error_message) + "}"@
}

/// Build the per-device report request body.
pub fn report_payload(
    provisioning_id: &str,
    backend_device_id: &Option<String>,
    external_device_id: &Option<String>,
    device_name: &Option<String>,
    device_location: &Option<String>,
    status: &str,
    employee_no: &str,
    error_message: &Option<String>,
) -> (r: String)
    ensures
        r@ == spec_report_payload(
            provisioning_id@,
            backend_device_id.deep_view(),
            external_device_id.deep_view(),
            device_name.deep_view(),
            device_location.deep_view(),
            status@,
            employee_no@,
            error_message.deep_view(),
        ),
{
    let mut out = String::new();
    out.append("{\"provisioningId\":\"");
    let p = json_escape(provisioning_id);
    out.append(p.as_str());
    out.append("\",\"deviceId\":");
    append_opt_json_string(&mut out, backend_device_id);
    out.append(",\"externalDeviceId\":");
    append_opt_json_string(&mut out, external_device_id);
    out.append(",\"deviceName\":");
    append_opt_json_string(&mut out, device_name);
    out.append(",\"deviceLocation\":");
    append_opt_json_string(&mut out, device_location);
    out.append(",\"status\":\"");
    let st = json_escape(status);
    out.append(st.as_str());
    out.append("\",\"employeeNo\":\"");
    let e = json_escape(employee_no);
    out.append(e.as_str());
    out.append("\",\"errorMessage\":");
    append_opt_json_string(&mut out, error_message);
    out.append("}");
    proof {
        assert(out@ =~= spec_report_payload(
            provisioning_id@,
            backend_device_id.deep_view(),
            external_device_id.deep_view(),
            device_name.deep_view(),
            device_location.deep_view(),
            status@,
            employee_no@,
            error_message.deep_view(),
        ));
    }
    out
}

/// The failure-finalization request: the record to close and the
/// aggregated reason.
pub open spec fn spec_finalize_payload(provisioning_id: Seq<char>, reason: Seq<char>) -> Seq<
    char,
> {
    "{\"provisioningId\":\""@ + spec_json_escaped(provisioning_id) + "\",\"status\":\"FAILED\",\"reason\":\""@
        + spec_json_escaped(reason) + "\"}"@
}

/// Build the failure-finalization request body.
pub fn finalize_payload(provisioning_id: &str, reason: &str) -> (r: String)
    ensures
        r@ == spec_finalize_payload(provisioning_id@, reason@),
{
    let mut out = String::new();
    out.append("{\"provisioningId\":\"");
    let p = json_escape(provisioning_id);
    out.append(p.as_str());
    out.append("\",\"status\":\"FAILED\",\"reason\":\"");
    let r2 = json_escape(reason);
    out.append(r2.as_str());
    out.append("\"}");
    proof {
        assert(out@ =~= spec_finalize_payload(provisioning_id@, reason@));
    }
    out
}

/// The legacy student-sync request body.
pub open spec fn spec_sync_payload(
    employee_no: Seq<char>,
    name: Seq<char>,
    gender: Seq<char>,
) -> Seq<char> {
    "{\"employeeNo\":\""@ + spec_json_escaped(employee_no) + "\",\"name\":\""@
        + spec_json_escaped(name) + "\",\"gender\":\""@ + spec_json_escaped(gender)
        + "\",\"source\":\"desktop-registrator\"}"@
}

/// Build the legacy student-sync request body.
pub fn sync_payload(employee_no: &str, name: &str, gender: &str) -> (r: String)
    ensures
        r@ == spec_sync_payload(employee_no@, name@, gender@),
{
    let mut out = String::new();
    out.append("{\"employeeNo\":\"");
    let e = json_escape(employee_no);
    out.append(e.as_str());
    out.append("\",\"name\":\"");
    let n = json_escape(name);
    out.append(n.as_str());
    out.append("\",\"gender\":\"");
    let g = json_escape(gender);
    out.append(g.as_str());
    out.append("\",\"source\":\"desktop-registrator\"}");
    proof {
        assert(out@ =~= spec_sync_payload(employee_no@, name@, gender@));
    }
    out
}

/// Whether an HTTP status reports success.
pub open spec fn spec_status_ok(status: u16) -> bool {
    200 <= status < 300
}

/// The action result of a backend call, from its transport outcome: a
/// transport failure is a `NetworkError`, a non-success status a
/// `RequestFailed` carrying the response body, and a success carries its
/// status code.
pub fn interpret_backend_response(transport: Result<(u16, String), String>) -> (r:
    crate::action::DeviceActionResult)
    ensures
        transport matches Err(e) ==> {
            &&& r.ok == false
            &&& r.status_code is None
            &&& r.status_string matches Some(s) && s@ == "NetworkError"@
            &&& r.error_msg matches Some(m) && m@ == e@
        },
        transport matches Ok(p) ==> {
            &&& r.ok == spec_status_ok(p.0)
            &&& r.status_code == Some(p.0 as i64)
            &&& spec_status_ok(p.0) ==> (r.status_string matches Some(s) && s@ == "OK"@)
                && r.error_msg is None
            &&& !spec_status_ok(p.0) ==> (r.status_string matches Some(s) && s@
                == "RequestFailed"@) && (r.error_msg matches Some(m) && m@ == p.1@)
        },
{
    match transport {
        Ok((status, body)) => {
            if 200 <= status && status < 300 {
                crate::action::DeviceActionResult {
                    ok: true,
                    status_code: Some(status as i64),
                    status_string: Some("OK".to_owned()),
                    error_msg: None,
                }
            } else {
                crate::action::DeviceActionResult {
                    ok: false,
                    status_code: Some(status as i64),
                    status_string: Some("RequestFailed".to_owned()),
                    error_msg: Some(body),
                }
            }
        },
        Err(e) => crate::action::DeviceActionResult {
            ok: false,
            status_code: None,
            status_string: Some("NetworkError".to_owned()),
            error_msg: Some(e),
        },
    }
}

/// The `provisioningId` field of a parsed start-provisioning response,
/// when it is a string: a fixed function of the text alone.
pub uninterp spec fn spec_provisioning_id_of(text: Seq<char>) -> Option<Seq<char>>;

/// The `deviceStudentId` field of a parsed start-provisioning response,
/// when it is a string: a fixed function of the text alone.
pub uninterp spec fn spec_device_student_id_of(text: Seq<char>) -> Option<Seq<char>>;

/// The `targetDevices` entries of a parsed start-provisioning response:
/// each entry's `id` and `deviceId` string fields, in order (an absent
/// or non-array field gives the empty sequence).  A fixed function of
/// the text alone.
pub uninterp spec fn spec_target_entries_of(text: Seq<char>) -> Seq<
    (Option<Seq<char>>, Option<Seq<char>>),
>;

/// Relies on `serde_json::from_str::<Value>` and the `Value` accessors
/// `get` and `as_str`: reads the record and device identities of a
/// start-provisioning response body.  Parsing and both fields are fixed
/// functions of the text alone.
#[verifier::external_body]
fn extract_start_ids(text: &str) -> (r: Option<(Option<String>, Option<String>)>)
    ensures
        r is Some <==> spec_json_parse_ok(text@),
        r matches Some(t) ==> {
            &&& t.0.deep_view() == spec_provisioning_id_of(text@)
            &&& t.1.deep_view() == spec_device_student_id_of(text@)
        },
{
    let v: serde_json::Value = serde_json::from_str(text).ok()?;
    let pid = v.get("provisioningId").and_then(|x| x.as_str()).map(str::to_owned);
    let sid = v.get("deviceStudentId").and_then(|x| x.as_str()).map(str::to_owned);
    Some((pid, sid))
}

/// Relies on `serde_json::from_str::<Value>` and the `Value` accessors
/// `get`, `as_array` and `as_str`: reads the target-device rows of a
/// start-provisioning response body.  Parsing and every field are fixed
/// functions of the text alone.
#[verifier::external_body]
fn extract_start_targets(text: &str) -> (r: Option<Vec<(Option<String>, Option<String>)>>)
    ensures
        r is Some <==> spec_json_parse_ok(text@),
        r matches Some(t) ==> {
            &&& t@.len() == spec_target_entries_of(text@).len()
            &&& forall|i: int|
                0 <= i < t@.len() ==> {
                    &&& (#[trigger] t@[i]).0.deep_view() == spec_target_entries_of(text@)[i].0
                    &&& t@[i].1.deep_view() == spec_target_entries_of(text@)[i].1
                }
        },
{
    let v: serde_json::Value = serde_json::from_str(text).ok()?;
    let mut t = Vec::new();
    for e in v.get("targetDevices").and_then(|x| x.as_array()).into_iter().flatten() {
        t.push((
            e.get("id").and_then(|x| x.as_str()).map(str::to_owned),
            e.get("deviceId").and_then(|x| x.as_str()).map(str::to_owned),
        ));
    }
    Some(t)
}

/// The target rows kept from a start-provisioning response: those with
/// both identifiers present.
pub open spec fn spec_kept_targets(raw: Seq<(Option<Seq<char>>, Option<Seq<char>>)>) -> Seq<
    (Seq<char>, Seq<char>),
>
    decreases raw.len(),
{
    if raw.len() == 0 {
        Seq::empty()
    } else {
        let rest = spec_kept_targets(raw.drop_last());
        match (raw.last().0, raw.last().1) {
            (Some(id), Some(device_id)) => rest.push((id, device_id)),
            _ => rest,
        }
    }
}

/// Read the outcome of a successful start-provisioning response body:
/// the record and device identities are required, and target rows
/// lacking either identifier are skipped.  A body that is not JSON, or
/// without the required fields, yields nothing.
pub fn parse_start_response(text: &str) -> (r: Option<StartProvisioningOutcome>)
    ensures
        !spec_json_parse_ok(text@) ==> r is None,
        spec_json_parse_ok(text@) ==> (r is Some <==> (spec_provisioning_id_of(text@) is Some
            && spec_device_student_id_of(text@) is Some)),
        r matches Some(o) ==> {
            &&& spec_provisioning_id_of(text@) matches Some(p) && o.provisioning_id@ == p
            &&& spec_device_student_id_of(text@) matches Some(d) && o.device_student_id@ == d
            &&& o.target_devices@.len() == spec_kept_targets(spec_target_entries_of(text@)).len()
            &&& forall|i: int|
                0 <= i < o.target_devices@.len() ==> {
                    &&& (#[trigger] o.target_devices@[i]).id@ == spec_kept_targets(
                        spec_target_entries_of(text@),
                    )[i].0
                    &&& o.target_devices@[i].device_id@ == spec_kept_targets(
                        spec_target_entries_of(text@),
                    )[i].1
                }
        },
{
    let ids = match extract_start_ids(text) {
        Some(t) => t,
        None => {
            return None;
        },
    };
    let raw = match extract_start_targets(text) {
        Some(t) => t,
        None => {
            return None;
        },
    };
    let (pid, sid) = ids;
    let provisioning_id = match pid {
        Some(p) => p,
        None => {
            return None;
        },
    };
    let device_student_id = match sid {
        Some(d) => d,
        None => {
            return None;
        },
    };
    let ghost raw_view = spec_target_entries_of(text@);
    let mut rest = raw;
    let mut target_devices: Vec<BackendDeviceRef> = Vec::new();
    let ghost mut j: int = 0;
    while rest.len() > 0
        invariant
            0 <= j <= raw_view.len(),
            rest@.len() == raw_view.len() - j,
            forall|t: int|
                0 <= t < rest@.len() ==> {
                    &&& (#[trigger] rest@[t]).0.deep_view() == raw_view[j + t].0
                    &&& rest@[t].1.deep_view() == raw_view[j + t].1
                },
            target_devices@.len() == spec_kept_targets(raw_view.subrange(0, j)).len(),
            forall|k: int|
                0 <= k < target_devices@.len() ==> {
                    &&& (#[trigger] target_devices@[k]).id@ == spec_kept_targets(
                        raw_view.subrange(0, j),
                    )[k].0
                    &&& target_devices@[k].device_id@ == spec_kept_targets(
                        raw_view.subrange(0, j),
                    )[k].1
                },
        decreases rest@.len(),
    {
        let ghost prefix = raw_view.subrange(0, j);
        proof {
            assert(raw_view.subrange(0, j + 1).drop_last() =~= prefix);
            assert(raw_view.subrange(0, j + 1).last() == raw_view[j]);
            assert(rest@[0].0.deep_view() == raw_view[j].0);
            assert(rest@[0].1.deep_view() == raw_view[j].1);
        }
        let (id, device_id) = rest.remove(0);
        if let (Some(id), Some(device_id)) = (id, device_id) {
            target_devices.push(BackendDeviceRef { id, device_id });
        }
        proof {
            j = j + 1;
        }
    }
    proof {
        assert(j == raw_view.len());
        assert(raw_view.subrange(0, raw_view.len() as int) =~= raw_view);
    }
    Some(StartProvisioningOutcome { provisioning_id, device_student_id, target_devices })
}

/// The backend row identifier registered for an external device
/// identifier: the first matching row's, if any.
pub open spec fn spec_backend_id_of(map: Seq<BackendDeviceRef>, device_id: Seq<char>) -> Option<
    Seq<char>,
>
    decreases map.len(),
{
    if map.len() == 0 {
        None
    } else if map[0].device_id@ == device_id {
        Some(map[0].id@)
    } else {
        spec_backend_id_of(map.drop_first(), device_id)
    }
}

/// Find the backend row registered for an external device identifier.
pub fn lookup_backend_id(map: &Vec<BackendDeviceRef>, device_id: &str) -> (r: Option<String>)
    ensures
        r.deep_view() == spec_backend_id_of(map@, device_id@),
{
    let n = map.len();
    proof {
        assert(map@.subrange(0, n as int) =~= map@);
    }
    let target: String = device_id.to_owned();
    let mut i: usize = 0;
    while i < n
        invariant
            n == map@.len(),
            i <= n,
            target@ == device_id@,
            spec_backend_id_of(map@, device_id@) == spec_backend_id_of(
                map@.subrange(i as int, n as int),
                device_id@,
            ),
        decreases n - i,
    {
        proof {
            let cur = map@.subrange(i as int, n as int);
            let next = map@.subrange(i as int + 1, n as int);
            assert(cur[0] == map@[i as int]);
            assert(cur.drop_first() =~= next);
        }
        if map[i].device_id == target {
            return Some(map[i].id.clone());
        }
        i = i + 1;
    }
    None
}

/// One provisioning record as the backend keeps it.
pub struct ProvisioningRecordModel {
    pub idempotency_key: String,
    pub provisioning_id: String,
}

/// A model of the backend's record store, as the start-provisioning
/// contract constrains it: one record per idempotency key.
pub struct BackendModel {
    pub records: Vec<ProvisioningRecordModel>,
    pub next_id: u64,
}

pub open spec fn spec_has_key(records: Seq<ProvisioningRecordModel>, key: Seq<char>) -> bool {
    exists|j: int| 0 <= j < records.len() && records[j].idempotency_key@ == key
}

/// How one start-provisioning call may change the store: a known key
/// leaves it untouched, a new key appends exactly one record under it.
pub open spec fn spec_start_rel(
    pre: Seq<ProvisioningRecordModel>,
    post: Seq<ProvisioningRecordModel>,
    key: Seq<char>,
) -> bool {
    if spec_has_key(pre, key) {
        post == pre
    } else {
        &&& post.len() == pre.len() + 1
        &&& post.drop_last() == pre
        &&& post.last().idempotency_key@ == key
    }
}

impl BackendModel {
    /// Start (or recognize) a provisioning record for an idempotency key,
    /// returning its provisioning identifier.
    pub fn start_provisioning(&mut self, key: &str) -> (pid: String)
        requires
            old(self).next_id < u64::MAX,
        ensures
            spec_start_rel(old(self).records@, final(self).records@, key@),
            spec_has_key(final(self).records@, key@),
            !spec_has_key(old(self).records@, key@) ==> pid@ == final(self).records@.last().provisioning_id@,
            spec_has_key(old(self).records@, key@) ==> exists|j: int|
                {
                    &&& 0 <= j < old(self).records@.len()
                    &&& (#[trigger] old(self).records@[j]).idempotency_key@ == key@
                    &&& pid@ == old(self).records@[j].provisioning_id@
                    &&& forall|k: int|
                        0 <= k < j ==> old(self).records@[k].idempotency_key@ != key@
                },
    {
        let target: String = key.to_owned();
        let mut i: usize = 0;
        while i < self.records.len()
            invariant
                i <= self.records@.len(),
                target@ == key@,
                self.records@ == old(self).records@,
                self.next_id == old(self).next_id,
                forall|k: int| 0 <= k < i ==> self.records@[k].idempotency_key@ != key@,
            decreases self.records@.len() - i,
        {
            if self.records[i].idempotency_key == target {
                return self.records[i].provisioning_id.clone();
            }
            i = i + 1;
        }
        let mut pid = String::new();
        pid.append("prov-");
        let n = u64_to_dec(self.next_id);
        pid.append(n.as_str());
        self.next_id = self.next_id + 1;
        let record = ProvisioningRecordModel { idempotency_key: target, provisioning_id: pid };
        self.records.push(record);
        proof {
            assert(self.records@.drop_last() =~= old(self).records@);
        }
        let last = self.records.len() - 1;
        self.records[last].provisioning_id.clone()
    }
}

/// Idempotency of start-provisioning: repeating the call with the same
/// key leaves the record store exactly as the first call left it, so the
/// two calls create at most one record between them.
pub proof fn lemma_start_provisioning_idempotent(
    pre: Seq<ProvisioningRecordModel>,
    mid: Seq<ProvisioningRecordModel>,
    post: Seq<ProvisioningRecordModel>,
    key: Seq<char>,
)
    requires
        spec_start_rel(pre, mid, key),
        spec_start_rel(mid, post, key),
    ensures
        post == mid,
        mid.len() <= pre.len() + 1,
{
    if spec_has_key(pre, key) {
        assert(spec_has_key(mid, key));
    } else {
        assert(mid[mid.len() - 1].idempotency_key@ == key);
        assert(spec_has_key(mid, key));
    }
}

} // verus!
