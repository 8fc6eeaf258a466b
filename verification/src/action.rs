//! Structured results of one device or backend action, and the rule that
//! decides whether a device response body reports success.
//!
//! Different firmware revisions populate either a numeric status code or a
//! status string, so success is accepted from either: the numeric OK
//! sentinel, or the literal status string `OK`.

use vstd::prelude::*;

use crate::json::spec_json_parse_ok;

verus! {

/// The numeric status code a device reports on success.
pub const DEVICE_OK_CODE: i64 = 1;

/// Result of one device action: create, upload, delete or search.
#[derive(Debug)]
pub struct DeviceActionResult {
    pub ok: bool,
    pub status_code: Option<i64>,
    pub status_string: Option<String>,
    pub error_msg: Option<String>,
}

/// Result of a device connection test.
#[derive(Debug)]
pub struct DeviceConnectionResult {
    pub ok: bool,
    pub message: Option<String>,
}

/// The `statusCode` field of a parsed device response, when it is an
/// integer: a fixed function of the text alone.
pub uninterp spec fn spec_status_code_of(text: Seq<char>) -> Option<i64>;

/// The `statusString` field of a parsed device response, when it is a
/// string: a fixed function of the text alone.
pub uninterp spec fn spec_status_string_of(text: Seq<char>) -> Option<Seq<char>>;

/// The `errorMsg` field of a parsed device response, when it is a
/// string: a fixed function of the text alone.
pub uninterp spec fn spec_error_msg_of(text: Seq<char>) -> Option<Seq<char>>;

/// Relies on `serde_json::from_str::<Value>` and the `Value` accessors
/// `get`, `as_i64` and `as_str`: reads the three status fields of a
/// device response body.  Parsing and every field are fixed functions of
/// the text alone.
#[verifier::external_body]
fn extract_action_fields(text: &str) -> (r: Option<
    (Option<i64>, Option<String>, Option<String>),
>)
    ensures
        r is Some <==> spec_json_parse_ok(text@),
        r matches Some(t) ==> {
            &&& t.0 == spec_status_code_of(text@)
            &&& t.1.deep_view() == spec_status_string_of(text@)
            &&& t.2.deep_view() == spec_error_msg_of(text@)
        },
{
    let v: serde_json::Value = serde_json::from_str(text).ok()?;
    let code = v.get("statusCode").and_then(|x| x.as_i64());
    let status = v.get("statusString").and_then(|x| x.as_str()).map(str::to_owned);
    let error = v.get("errorMsg").and_then(|x| x.as_str()).map(str::to_owned);
    Some((code, status, error))
}

/// The success rule over the two status fields: the numeric sentinel or
/// the literal string `OK`, whichever the firmware populated.
pub open spec fn spec_action_ok(code: Option<i64>, status: Option<Seq<char>>) -> bool {
    code == Some(DEVICE_OK_CODE) || status == Some("OK"@)
}

impl DeviceActionResult {
    /// The fields of a response whose body could not be parsed: failed,
    /// no code, status `ParseError`, and the raw body kept for diagnosis.
    pub open spec fn spec_is_parse_failure(self, raw: Seq<char>) -> bool {
        &&& self.ok == false
        &&& self.status_code is None
        &&& self.status_string matches Some(s) && s@ == "ParseError"@
        &&& self.error_msg matches Some(m) && m@ == raw
    }

    /// The fields read out of a parseable device response, with the
    /// success rule applied to them.
    pub open spec fn spec_is_parsed_action(self, text: Seq<char>) -> bool {
        &&& self.status_code == spec_status_code_of(text)
        &&& self.status_string.deep_view() == spec_status_string_of(text)
        &&& self.error_msg.deep_view() == spec_error_msg_of(text)
        &&& self.ok == spec_action_ok(spec_status_code_of(text), spec_status_string_of(text))
    }
}

/// Build the action result from the plain fields extracted out of a
/// parsed device response.
pub fn interpret_action_fields(
    status_code: Option<i64>,
    status_string: Option<String>,
    error_msg: Option<String>,
) -> (r: DeviceActionResult)
    ensures
        r.ok == spec_action_ok(status_code, status_string.deep_view()),
        r.status_code == status_code,
        r.status_string == status_string,
        r.error_msg == error_msg,
{
    let code_ok = match &status_code {
        Some(c) => *c == DEVICE_OK_CODE,
        None => false,
    };
    let string_ok = match &status_string {
        Some(s) => {
            let okstr: String = "OK".to_owned();
            *s == okstr
        },
        None => false,
    };
    DeviceActionResult { ok: code_ok || string_ok, status_code, status_string, error_msg }
}

/// Interpret a device response body: parse it as JSON and apply the
/// success rule to its `statusCode` / `statusString` fields; keep the raw
/// body when it is not JSON at all.
pub fn parse_action_result(text: &str) -> (r: DeviceActionResult)
    ensures
        !spec_json_parse_ok(text@) ==> r.spec_is_parse_failure(text@),
        spec_json_parse_ok(text@) ==> r.spec_is_parsed_action(text@),
{
    match extract_action_fields(text) {
        Some((status_code, status_string, error_msg)) => interpret_action_fields(
            status_code,
            status_string,
            error_msg,
        ),
        None => DeviceActionResult {
            ok: false,
            status_code: None,
            status_string: Some("ParseError".to_owned()),
            error_msg: Some(text.to_owned()),
        },
    }
}

/// Interpret the transport outcome of one device action: a transport
/// failure is recorded under the caller's failure label with the
/// transport's message, and a response body goes through
/// `parse_action_result`.
pub fn interpret_device_transport(transport: Result<String, String>, failure_label: &str) -> (r:
    DeviceActionResult)
    ensures
        transport matches Err(e) ==> {
            &&& r.ok == false
            &&& r.status_code is None
            &&& r.status_string matches Some(s) && s@ == failure_label@
            &&& r.error_msg matches Some(m) && m@ == e@
        },
        transport matches Ok(text) ==> {
            &&& !spec_json_parse_ok(text@) ==> r.spec_is_parse_failure(text@)
            &&& spec_json_parse_ok(text@) ==> r.spec_is_parsed_action(text@)
        },
{
    match transport {
        Ok(text) => parse_action_result(text.as_str()),
        Err(e) => DeviceActionResult {
            ok: false,
            status_code: None,
            status_string: Some(failure_label.to_owned()),
            error_msg: Some(e),
        },
    }
}

/// Interpret the transport outcome of a connection test: the check
/// passes only when the digest-authenticated request succeeded with a
/// parseable response; an unparseable body fails it with a diagnostic
/// carrying the raw body.
pub fn interpret_connection(transport: Result<String, String>) -> (r: DeviceConnectionResult)
    ensures
        r.ok == (transport matches Ok(t) && spec_json_parse_ok(t@)),
        transport matches Err(e) ==> (r.message matches Some(m) && m@ == e@),
        transport matches Ok(t) ==> (spec_json_parse_ok(t@) ==> r.message is None),
        transport matches Ok(t) ==> (!spec_json_parse_ok(t@) ==> (r.message matches Some(m)
            && m@ == "Unparseable device response: "@ + t@)),
{
    match transport {
        Ok(text) => {
            if extract_action_fields(text.as_str()).is_some() {
                DeviceConnectionResult { ok: true, message: None }
            } else {
                let mut msg = String::new();
                msg.append("Unparseable device response: ");
                msg.append(text.as_str());
                proof {
                    assert(msg@ =~= "Unparseable device response: "@ + text@);
                }
                DeviceConnectionResult { ok: false, message: Some(msg) }
            }
        },
        Err(e) => DeviceConnectionResult { ok: false, message: Some(e) },
    }
}

} // verus!
