//! The biometric artifact: a caller-supplied base64 payload that is
//! size-guarded and decoded before any network call.

use vstd::prelude::*;

use crate::action::DeviceActionResult;

verus! {

/// Upper bound on a decoded artifact, in bytes.
pub const MAX_FACE_IMAGE_BYTES: usize = 1048576;

/// The size guard on the encoded payload: base64 inflates data by a third,
/// so the encoded text may be at most the inflated bound plus fixed slack.
pub open spec fn spec_artifact_size_ok(encoded_len: int) -> bool {
    encoded_len <= MAX_FACE_IMAGE_BYTES as int * 4 / 3 + 256
}

/// Check the encoded artifact length against the size guard.
pub fn artifact_size_ok(encoded_len: usize) -> (r: bool)
    ensures
        r == spec_artifact_size_ok(encoded_len as int),
{
    let bound: u64 = (MAX_FACE_IMAGE_BYTES as u64) * 4 / 3 + 256;
    (encoded_len as u64) <= bound
}

/// What base64's standard-alphabet `decode` yields on `s`: the decoded
/// bytes, or nothing when `s` is not valid padded base64 text.  A fixed
/// function of the text alone.
pub uninterp spec fn spec_b64_decode(s: Seq<char>) -> Option<Seq<u8>>;

/// Relies on `base64::Engine::decode` with the `STANDARD` engine: decodes
/// padded standard-alphabet base64 text, failing exactly on invalid input.
#[verifier::external_body]
pub(crate) fn b64_decode(s: &str) -> (r: Result<Vec<u8>, String>)
    ensures
        r is Ok <==> spec_b64_decode(s@) is Some,
        r matches Ok(v) ==> spec_b64_decode(s@) == Some(v@),
{
    match base64::Engine::decode(&base64::engine::general_purpose::STANDARD, s) {
        Ok(v) => Ok(v),
        Err(e) => Err(e.to_string()),
    }
}

/// What base64's standard-alphabet `encode` yields on `b`: a fixed
/// function of the bytes alone.
pub uninterp spec fn spec_b64_encode(b: Seq<u8>) -> Seq<char>;

/// Relies on `base64::Engine::encode` with the `STANDARD` engine: encodes
/// bytes as padded standard-alphabet base64 text; empty input encodes to
/// the empty string.
#[verifier::external_body]
pub(crate) fn b64_encode(b: &Vec<u8>) -> (r: String)
    ensures
        r@ == spec_b64_encode(b@),
        b@.len() == 0 ==> r@.len() == 0,
{
    base64::Engine::encode(&base64::engine::general_purpose::STANDARD, b)
}

/// Decode the caller-supplied artifact, failing fast with an
/// `InvalidImage` action result before any network call when the payload
/// is not valid base64.
pub fn decode_artifact(encoded: &str) -> (r: Result<Vec<u8>, DeviceActionResult>)
    ensures
        r is Ok <==> spec_b64_decode(encoded@) is Some,
        r matches Ok(v) ==> spec_b64_decode(encoded@) == Some(v@),
        r matches Err(a) ==> {
            &&& a.ok == false
            &&& a.status_code is None
            &&& a.status_string matches Some(s) && s@ == "InvalidImage"@
            &&& a.error_msg is Some
        },
{
    match b64_decode(encoded) {
        Ok(bytes) => Ok(bytes),
        Err(e) => Err(
            DeviceActionResult {
                ok: false,
                status_code: None,
                status_string: Some("InvalidImage".to_owned()),
                error_msg: Some(e),
            },
        ),
    }
}

} // verus!
