//! The device wire protocol: endpoint URLs and JSON request bodies for
//! the identity and biometric operations of one access-control device.
//!
//! Every builder has an exact character-sequence specification, with all
//! embedded fields JSON-escaped, so callers know the precise request text
//! that leaves the library.

use vstd::prelude::*;

use vstd::string::StringSliceAdditionalSpecFns;

use crate::text::{spec_dec, spec_dec_i64, spec_json_escaped, i64_to_dec, json_escape, u64_to_dec};

verus! {

/// `http://<host>:<port>`.
pub open spec fn spec_base_url(host: Seq<char>, port: u16) -> Seq<char> {
    "http://"@ + host + ":"@ + spec_dec(port as nat)
}

/// Build the root URL of a device from its network address.
pub fn base_url(host: &str, port: u16) -> (r: String)
    ensures
        r@ == spec_base_url(host@, port),
{
    let mut out = String::new();
    out.append("http://");
    out.append(host);
    out.append(":");
    let p = u64_to_dec(port as u64);
    out.append(p.as_str());
    proof {
        assert(out@ =~= spec_base_url(host@, port));
    }
    out
}

pub open spec fn spec_device_info_url(base: Seq<char>) -> Seq<char> {
    base + "/ISAPI/System/deviceInfo?format=json"@
}

/// URL of the device-info endpoint used by the connection test.
pub fn device_info_url(base: &str) -> (r: String)
    ensures
        r@ == spec_device_info_url(base@),
{
    let mut out = String::new();
    out.append(base);
    out.append("/ISAPI/System/deviceInfo?format=json");
    proof {
        assert(out@ =~= spec_device_info_url(base@));
    }
    out
}

pub open spec fn spec_create_user_url(base: Seq<char>) -> Seq<char> {
    base + "/ISAPI/AccessControl/UserInfo/Record?format=json"@
}

/// URL of the identity-create endpoint.
pub fn create_user_url(base: &str) -> (r: String)
    ensures
        r@ == spec_create_user_url(base@),
{
    let mut out = String::new();
    out.append(base);
    out.append("/ISAPI/AccessControl/UserInfo/Record?format=json");
    proof {
        assert(out@ =~= spec_create_user_url(base@));
    }
    out
}

pub open spec fn spec_search_url(base: Seq<char>) -> Seq<char> {
    base + "/ISAPI/AccessControl/UserInfo/Search?format=json"@
}

/// URL of the identity-search endpoint.
pub fn search_url(base: &str) -> (r: String)
    ensures
        r@ == spec_search_url(base@),
{
    let mut out = String::new();
    out.append(base);
    out.append("/ISAPI/AccessControl/UserInfo/Search?format=json");
    proof {
        assert(out@ =~= spec_search_url(base@));
    }
    out
}

pub open spec fn spec_delete_url(base: Seq<char>) -> Seq<char> {
    base + "/ISAPI/AccessControl/UserInfo/Delete?format=json"@
}

/// URL of the identity-delete endpoint.
pub fn delete_url(base: &str) -> (r: String)
    ensures
        r@ == spec_delete_url(base@),
{
    let mut out = String::new();
    out.append(base);
    out.append("/ISAPI/AccessControl/UserInfo/Delete?format=json");
    proof {
        assert(out@ =~= spec_delete_url(base@));
    }
    out
}

pub open spec fn spec_upload_face_url(base: Seq<char>) -> Seq<char> {
    base + "/ISAPI/Intelligent/FDLib/FaceDataRecord?format=json"@
}

/// URL of the biometric-upload endpoint.
pub fn upload_face_url(base: &str) -> (r: String)
    ensures
        r@ == spec_upload_face_url(base@),
{
    let mut out = String::new();
    out.append(base);
    out.append("/ISAPI/Intelligent/FDLib/FaceDataRecord?format=json");
    proof {
        assert(out@ =~= spec_upload_face_url(base@));
    }
    out
}

/// The identity record sent to a device: numeric employee key, name and
/// gender, a one-door access template, and the validity window.
pub open spec fn spec_create_user_payload(
    emp: Seq<char>,
    name: Seq<char>,
    gender: Seq<char>,
    begin: Seq<char>,
    end: Seq<char>,
) -> Seq<char> {
    "{\"UserInfo\":{\"employeeNo\":\""@ + spec_json_escaped(emp) + "\",\"name\":\""@
        + spec_json_escaped(name)
        + "\",\"userType\":\"normal\",\"doorRight\":\"1\",\"RightPlan\":[{\"doorNo\":1,\"planTemplateNo\":\"1\"}],\"Valid\":{\"enable\":true,\"beginTime\":\""@
        + spec_json_escaped(begin) + "\",\"endTime\":\""@ + spec_json_escaped(end)
        + "\",\"timeType\":\"local\"},\"gender\":\""@ + spec_json_escaped(gender)
        + "\",\"localUIRight\":false,\"maxOpenDoorTime\":0,\"userVerifyMode\":\"\"}}"@
}

/// Build the identity-create request body.
pub fn create_user_payload(
    emp: &str,
    name: &str,
    gender: &str,
    begin: &str,
    end: &str,
) -> (r: String)
    ensures
        r@ == spec_create_user_payload(emp@, name@, gender@, begin@, end@),
{
    let mut out = String::new();
    out.append("{\"UserInfo\":{\"employeeNo\":\"");
    let e = json_escape(emp);
    out.append(e.as_str());
    out.append("\",\"name\":\"");
    let n = json_escape(name);
    out.append(n.as_str());
    out.append(
        "\",\"userType\":\"normal\",\"doorRight\":\"1\",\"RightPlan\":[{\"doorNo\":1,\"planTemplateNo\":\"1\"}],\"Valid\":{\"enable\":true,\"beginTime\":\"",
    );
    let b = json_escape(begin);
    out.append(b.as_str());
    out.append("\",\"endTime\":\"");
    let en = json_escape(end);
    out.append(en.as_str());
    out.append("\",\"timeType\":\"local\"},\"gender\":\"");
    let g = json_escape(gender);
    out.append(g.as_str());
    out.append("\",\"localUIRight\":false,\"maxOpenDoorTime\":0,\"userVerifyMode\":\"\"}}");
    proof {
        assert(out@ =~= spec_create_user_payload(emp@, name@, gender@, begin@, end@));
    }
    out
}

/// The face-library record that accompanies an uploaded artifact.
pub open spec fn spec_face_record_payload(
    emp: Seq<char>,
    name: Seq<char>,
    gender: Seq<char>,
) -> Seq<char> {
    "{\"faceLibType\":\"blackFD\",\"FDID\":\"1\",\"FPID\":\""@ + spec_json_escaped(emp)
        + "\",\"name\":\""@ + spec_json_escaped(name) + "\",\"gender\":\""@ + spec_json_escaped(
        gender,
    ) + "\"}"@
}

/// Build the face-library record sent with a biometric upload.
pub fn face_record_payload(emp: &str, name: &str, gender: &str) -> (r: String)
    ensures
        r@ == spec_face_record_payload(emp@, name@, gender@),
{
    let mut out = String::new();
    out.append("{\"faceLibType\":\"blackFD\",\"FDID\":\"1\",\"FPID\":\"");
    let e = json_escape(emp);
    out.append(e.as_str());
    out.append("\",\"name\":\"");
    let n = json_escape(name);
    out.append(n.as_str());
    out.append("\",\"gender\":\"");
    let g = json_escape(gender);
    out.append(g.as_str());
    out.append("\"}");
    proof {
        assert(out@ =~= spec_face_record_payload(emp@, name@, gender@));
    }
    out
}

/// The identity-delete condition for one employee number.
pub open spec fn spec_delete_user_payload(emp: Seq<char>) -> Seq<char> {
    "{\"UserInfoDelCond\":{\"EmployeeNoList\":[{\"employeeNo\":\""@ + spec_json_escaped(emp)
        + "\"}]}}"@
}

/// Build the identity-delete request body.
pub fn delete_user_payload(emp: &str) -> (r: String)
    ensures
        r@ == spec_delete_user_payload(emp@),
{
    let mut out = String::new();
    out.append("{\"UserInfoDelCond\":{\"EmployeeNoList\":[{\"employeeNo\":\"");
    let e = json_escape(emp);
    out.append(e.as_str());
    out.append("\"}]}}");
    proof {
        assert(out@ =~= spec_delete_user_payload(emp@));
    }
    out
}

/// A paginated identity-search condition.
pub open spec fn spec_search_payload(search_id: Seq<char>, offset: int, limit: int) -> Seq<char> {
    "{\"UserInfoSearchCond\":{\"searchID\":\""@ + spec_json_escaped(search_id)
        + "\",\"maxResults\":"@ + spec_dec_i64(limit) + ",\"searchResultPosition\":"@
        + spec_dec_i64(offset) + "}}"@
}

/// Build the paginated identity-search request body.
pub fn search_payload(search_id: &str, offset: i32, limit: i32) -> (r: String)
    ensures
        r@ == spec_search_payload(search_id@, offset as int, limit as int),
{
    let mut out = String::new();
    out.append("{\"UserInfoSearchCond\":{\"searchID\":\"");
    let s = json_escape(search_id);
    out.append(s.as_str());
    out.append("\",\"maxResults\":");
    let l = i64_to_dec(limit as i64);
    out.append(l.as_str());
    out.append(",\"searchResultPosition\":");
    let o = i64_to_dec(offset as i64);
    out.append(o.as_str());
    out.append("}}");
    proof {
        assert(out@ =~= spec_search_payload(search_id@, offset as int, limit as int));
    }
    out
}

/// A single-identity search condition keyed by employee number.
pub open spec fn spec_employee_search_payload(search_id: Seq<char>, emp: Seq<char>) -> Seq<char> {
    "{\"UserInfoSearchCond\":{\"searchID\":\""@ + spec_json_escaped(search_id)
        + "\",\"maxResults\":1,\"searchResultPosition\":0,\"EmployeeNoList\":[{\"employeeNo\":\""@
        + spec_json_escaped(emp) + "\"}]}}"@
}

/// Build the single-identity search request body.
pub fn employee_search_payload(search_id: &str, emp: &str) -> (r: String)
    ensures
        r@ == spec_employee_search_payload(search_id@, emp@),
{
    let mut out = String::new();
    out.append("{\"UserInfoSearchCond\":{\"searchID\":\"");
    let s = json_escape(search_id);
    out.append(s.as_str());
    out.append("\",\"maxResults\":1,\"searchResultPosition\":0,\"EmployeeNoList\":[{\"employeeNo\":\"");
    let e = json_escape(emp);
    out.append(e.as_str());
    out.append("\"}]}}");
    proof {
        assert(out@ =~= spec_employee_search_payload(search_id@, emp@));
    }
    out
}

/// The search identifier for one search call, derived from a clock tick.
pub open spec fn spec_search_id(ts: int) -> Seq<char> {
    "search-"@ + spec_dec_i64(ts)
}

/// Build the search identifier carried in a search condition.
pub fn make_search_id(ts: i64) -> (r: String)
    ensures
        r@ == spec_search_id(ts as int),
{
    let mut out = String::new();
    out.append("search-");
    let t = i64_to_dec(ts);
    out.append(t.as_str());
    proof {
        assert(out@ =~= spec_search_id(ts as int));
    }
    out
}

/// One stored identity as a search reports it.
pub struct UserInfoEntry {
    pub employee_no: String,
    pub name: String,
    pub face_url: Option<String>,
}

/// The raw identity entries of a parsed search response: `None` when the
/// body lacks the search result object, else the `employeeNo`, `name`
/// and `faceURL` fields of each listed entry, in order.  A fixed
/// function of the text alone.
pub uninterp spec fn spec_search_entries_of(text: Seq<char>) -> Option<
    Seq<(Option<Seq<char>>, Option<Seq<char>>, Option<Seq<char>>)>,
>;

/// Relies on `serde_json::from_str::<Value>` and the `Value` accessors
/// `get`, `as_array` and `as_str`: reads the identity entries of a
/// search response body.  Parsing and every field are fixed functions of
/// the text alone.
#[verifier::external_body]
fn extract_search_entries(text: &str) -> (r: Option<
    Option<Vec<(Option<String>, Option<String>, Option<String>)>>,
>)
    ensures
        r is Some <==> crate::json::spec_json_parse_ok(text@),
        r matches Some(t) ==> {
            &&& t is Some <==> spec_search_entries_of(text@) is Some
            &&& (t matches Some(list) ==> (spec_search_entries_of(text@) matches Some(m) && {
                &&& list@.len() == m.len()
                &&& forall|i: int|
                    0 <= i < list@.len() ==> {
                        &&& (#[trigger] list@[i]).0.deep_view() == m[i].0
                        &&& list@[i].1.deep_view() == m[i].1
                        &&& list@[i].2.deep_view() == m[i].2
                    }
            }))
        },
{
    let v: serde_json::Value = serde_json::from_str(text).ok()?;
    let search = match v.get("UserInfoSearch") {
        Some(s) => s,
        None => return Some(None),
    };
    let mut t = Vec::new();
    for e in search.get("UserInfo").and_then(|x| x.as_array()).into_iter().flatten() {
        let emp = e.get("employeeNo").and_then(|x| x.as_str()).map(str::to_owned);
        let name = e.get("name").and_then(|x| x.as_str()).map(str::to_owned);
        let face = e.get("faceURL").and_then(|x| x.as_str()).map(str::to_owned);
        t.push((emp, name, face));
    }
    Some(Some(t))
}

/// The entries kept from a search: those with an employee number, the
/// missing name becoming empty.
pub open spec fn spec_kept_entries(
    raw: Seq<(Option<Seq<char>>, Option<Seq<char>>, Option<Seq<char>>)>,
) -> Seq<(Seq<char>, Seq<char>, Option<Seq<char>>)>
    decreases raw.len(),
{
    if raw.len() == 0 {
        Seq::empty()
    } else {
        let rest = spec_kept_entries(raw.drop_last());
        match raw.last().0 {
            Some(emp) => rest.push(
                (
                    emp,
                    match raw.last().1 {
                        Some(n) => n,
                        None => Seq::empty(),
                    },
                    raw.last().2,
                ),
            ),
            None => rest,
        }
    }
}

/// Read the identities out of a search response body: entries lacking an
/// employee number are skipped and a missing name becomes empty; a body
/// that is not JSON, or without the search result object, yields nothing.
pub fn parse_search_response(text: &str) -> (r: Option<Vec<UserInfoEntry>>)
    ensures
        !crate::json::spec_json_parse_ok(text@) ==> r is None,
        crate::json::spec_json_parse_ok(text@) ==> (r is Some <==> spec_search_entries_of(text@)
            is Some),
        r matches Some(entries) ==> (spec_search_entries_of(text@) matches Some(raw) && {
            &&& entries@.len() == spec_kept_entries(raw).len()
            &&& forall|i: int|
                0 <= i < entries@.len() ==> {
                    &&& (#[trigger] entries@[i]).employee_no@ == spec_kept_entries(raw)[i].0
                    &&& entries@[i].name@ == spec_kept_entries(raw)[i].1
                    &&& entries@[i].face_url.deep_view() == spec_kept_entries(raw)[i].2
                }
        }),
{
    let raw = match extract_search_entries(text) {
        Some(Some(list)) => list,
        Some(None) => {
            return None;
        },
        None => {
            return None;
        },
    };
    let ghost raw_view = spec_search_entries_of(text@)->Some_0;
    let mut rest = raw;
    let mut entries: Vec<UserInfoEntry> = Vec::new();
    let ghost mut j: int = 0;
    while rest.len() > 0
        invariant
            0 <= j <= raw_view.len(),
            rest@.len() == raw_view.len() - j,
            forall|t: int|
                0 <= t < rest@.len() ==> {
                    &&& (#[trigger] rest@[t]).0.deep_view() == raw_view[j + t].0
                    &&& rest@[t].1.deep_view() == raw_view[j + t].1
                    &&& rest@[t].2.deep_view() == raw_view[j + t].2
                },
            entries@.len() == spec_kept_entries(raw_view.subrange(0, j)).len(),
            forall|k: int|
                0 <= k < entries@.len() ==> {
                    &&& (#[trigger] entries@[k]).employee_no@ == spec_kept_entries(
                        raw_view.subrange(0, j),
                    )[k].0
                    &&& entries@[k].name@ == spec_kept_entries(raw_view.subrange(0, j))[k].1
                    &&& entries@[k].face_url.deep_view() == spec_kept_entries(
                        raw_view.subrange(0, j),
                    )[k].2
                },
        decreases rest@.len(),
    {
        let ghost prefix = raw_view.subrange(0, j);
        proof {
            assert(raw_view.subrange(0, j + 1).drop_last() =~= prefix);
            assert(raw_view.subrange(0, j + 1).last() == raw_view[j]);
            assert(rest@[0].0.deep_view() == raw_view[j].0);
            assert(rest@[0].1.deep_view() == raw_view[j].1);
            assert(rest@[0].2.deep_view() == raw_view[j].2);
        }
        let (employee_no, name, face_url) = rest.remove(0);
        if let Some(employee_no) = employee_no {
            let name = match name {
                Some(n) => n,
                None => String::new(),
            };
            entries.push(UserInfoEntry { employee_no, name, face_url });
        }
        proof {
            j = j + 1;
        }
    }
    proof {
        assert(j == raw_view.len());
        assert(raw_view.subrange(0, raw_view.len() as int) =~= raw_view);
    }
    Some(entries)
}

/// Append the UTF-8 bytes of `s`.
fn push_str_bytes(out: &mut Vec<u8>, s: &str)
    ensures
        final(out)@ == old(out)@ + s.spec_bytes(),
{
    let bytes = s.as_bytes();
    let mut i: usize = 0;
    while i < bytes.len()
        invariant
            bytes@ == s.spec_bytes(),
            i <= bytes@.len(),
            out@ =~= old(out)@ + bytes@.subrange(0, i as int),
        decreases bytes@.len() - i,
    {
        out.push(bytes[i]);
        i = i + 1;
    }
    proof {
        assert(bytes@.subrange(0, bytes@.len() as int) =~= bytes@);
        assert(out@ =~= old(out)@ + bytes@);
    }
}

/// Append the bytes of `v`.
fn push_vec_bytes(out: &mut Vec<u8>, v: &Vec<u8>)
    ensures
        final(out)@ == old(out)@ + v@,
{
    let mut i: usize = 0;
    while i < v.len()
        invariant
            i <= v@.len(),
            out@ =~= old(out)@ + v@.subrange(0, i as int),
        decreases v@.len() - i,
    {
        out.push(v[i]);
        i = i + 1;
    }
    proof {
        assert(v@.subrange(0, v@.len() as int) =~= v@);
        assert(out@ =~= old(out)@ + v@);
    }
}

/// The multipart/form-data request body of a biometric upload: the
/// face-library record part, then the image part, between the given
/// boundary markers.
pub open spec fn spec_multipart_face_body(
    boundary: Seq<u8>,
    record: Seq<u8>,
    image: Seq<u8>,
) -> Seq<u8> {
    "--".spec_bytes() + boundary + "\r\n".spec_bytes()
        + "Content-Disposition: form-data; name=\"FaceDataRecord\"\r\n\r\n".spec_bytes()
        + record + "\r\n--".spec_bytes() + boundary + "\r\n".spec_bytes()
        + "Content-Disposition: form-data; name=\"FaceImage\"; filename=\"face.jpg\"\r\nContent-Type: image/jpeg\r\n\r\n".spec_bytes()
        + image + "\r\n--".spec_bytes() + boundary + "--\r\n".spec_bytes()
}

/// Frame the multipart upload body around a caller-supplied boundary
/// (the transport draws the boundary; the framing is fixed).
pub fn multipart_face_body(boundary: &str, record: &str, image: &Vec<u8>) -> (r: Vec<u8>)
    ensures
        r@ == spec_multipart_face_body(boundary.spec_bytes(), record.spec_bytes(), image@),
{
    let mut out: Vec<u8> = Vec::new();
    push_str_bytes(&mut out, "--");
    push_str_bytes(&mut out, boundary);
    push_str_bytes(&mut out, "\r\n");
    push_str_bytes(&mut out, "Content-Disposition: form-data; name=\"FaceDataRecord\"\r\n\r\n");
    push_str_bytes(&mut out, record);
    push_str_bytes(&mut out, "\r\n--");
    push_str_bytes(&mut out, boundary);
    push_str_bytes(&mut out, "\r\n");
    push_str_bytes(
        &mut out,
        "Content-Disposition: form-data; name=\"FaceImage\"; filename=\"face.jpg\"\r\nContent-Type: image/jpeg\r\n\r\n",
    );
    push_vec_bytes(&mut out, image);
    push_str_bytes(&mut out, "\r\n--");
    push_str_bytes(&mut out, boundary);
    push_str_bytes(&mut out, "--\r\n");
    proof {
        assert(out@ =~= spec_multipart_face_body(
            boundary.spec_bytes(),
            record.spec_bytes(),
            image@,
        ));
    }
    out
}

/// Decide the outcome of fetching a stored artifact from the final
/// response: a successful status hands the body bytes back verbatim, any
/// other status an error naming it.
pub fn interpret_face_fetch(status: u16, bytes: Vec<u8>) -> (r: Result<Vec<u8>, String>)
    ensures
        crate::backend::spec_status_ok(status) ==> (r matches Ok(b) && b@ == bytes@),
        !crate::backend::spec_status_ok(status) ==> (r matches Err(m) && m@
            == "Failed to fetch face image: HTTP "@ + spec_dec(status as nat)),
{
    if 200 <= status && status < 300 {
        Ok(bytes)
    } else {
        let mut out = String::new();
        out.append("Failed to fetch face image: HTTP ");
        let code = u64_to_dec(status as u64);
        out.append(code.as_str());
        proof {
            assert(out@ =~= "Failed to fetch face image: HTTP "@ + spec_dec(status as nat));
        }
        Err(out)
    }
}

/// Build a search identifier salted with the current clock tick.
pub fn fresh_search_id() -> (r: String)
    ensures
        exists|ts: int| r@ == spec_search_id(ts),
{
    let ts = crate::devtime::now_timestamp();
    let id = make_search_id(ts);
    proof {
        assert(id@ == spec_search_id(ts as int));
    }
    id
}

pub open spec fn spec_starts_with(s: Seq<char>, p: Seq<char>) -> bool {
    s.len() >= p.len() && s.subrange(0, p.len() as int) == p
}

/// Whether `s` begins with `p`.
pub fn str_starts_with(s: &str, p: &str) -> (r: bool)
    ensures
        r == spec_starts_with(s@, p@),
{
    let sn = s.unicode_len();
    let pn = p.unicode_len();
    if sn < pn {
        proof {
            assert(!spec_starts_with(s@, p@));
        }
        return false;
    }
    let mut i: usize = 0;
    while i < pn
        invariant
            sn == s@.len(),
            pn == p@.len(),
            pn <= sn,
            i <= pn,
            forall|j: int| 0 <= j < i ==> s@[j] == p@[j],
        decreases pn - i,
    {
        if s.get_char(i) != p.get_char(i) {
            proof {
                assert(s@.subrange(0, pn as int)[i as int] != p@[i as int]);
            }
            return false;
        }
        i = i + 1;
    }
    proof {
        assert(s@.subrange(0, pn as int) =~= p@);
    }
    true
}

/// `s` with every leading `/` removed.
pub open spec fn spec_skip_slashes(s: Seq<char>) -> Seq<char>
    decreases s.len(),
{
    if s.len() > 0 && s[0] == '/' {
        spec_skip_slashes(s.drop_first())
    } else {
        s
    }
}

/// Where a stored artifact lives: an absolute URL is used as it stands; a
/// device-relative path is joined onto the device's root URL.
pub open spec fn spec_resolved_face_url(base: Seq<char>, face_url: Seq<char>) -> Seq<char> {
    if spec_starts_with(face_url, "http"@) {
        face_url
    } else {
        base + "/"@ + spec_skip_slashes(face_url)
    }
}

/// Resolve the URL from which a previously stored artifact is fetched.
pub fn resolve_face_url(base: &str, face_url: &str) -> (r: String)
    ensures
        r@ == spec_resolved_face_url(base@, face_url@),
{
    if str_starts_with(face_url, "http") {
        return face_url.to_owned();
    }
    let n = face_url.unicode_len();
    proof {
        assert(face_url@.subrange(0, n as int) =~= face_url@);
    }
    let mut i: usize = 0;
    while i < n && face_url.get_char(i) == '/'
        invariant
            n == face_url@.len(),
            i <= n,
            spec_skip_slashes(face_url@) == spec_skip_slashes(
                face_url@.subrange(i as int, n as int),
            ),
        decreases n - i,
    {
        proof {
            let cur = face_url@.subrange(i as int, n as int);
            let next = face_url@.subrange(i as int + 1, n as int);
            assert(cur[0] == face_url@[i as int]);
            assert(cur.drop_first() =~= next);
        }
        i = i + 1;
    }
    let tail = face_url.substring_char(i, n);
    proof {
        let cur = face_url@.subrange(i as int, n as int);
        if i < n {
            assert(cur[0] != '/');
        }
        assert(spec_skip_slashes(cur) == cur);
    }
    let mut out = String::new();
    out.append(base);
    out.append("/");
    out.append(tail);
    proof {
        assert(out@ =~= spec_resolved_face_url(base@, face_url@));
    }
    out
}

} // verus!
