//! The HTTP Digest challenge/response handshake against a device.
//!
//! The transport issues a request once unauthenticated and hands the
//! response here; this module decides whether the exchange is complete,
//! must be retried with a computed `Authorization` header, or has failed,
//! and that decision is verified.  The digest arithmetic itself is the
//! `digest_auth` crate's, behind one trusted wrapper.

use vstd::prelude::*;

use crate::text::{spec_ascii_chars, str_is_ascii};

verus! {

/// Whether `digest_auth::parse` accepts `header` as a digest challenge: a
/// fixed function of the header text alone.
pub uninterp spec fn spec_digest_parse_ok(header: Seq<char>) -> bool;

/// Relies on `digest_auth::parse`, `AuthContext::new_with_method`,
/// `WwwAuthenticateHeader::respond` and `AuthorizationHeader`'s `Display`
/// impl: parses the challenge and computes the digest answer from the
/// credentials, URI, method and challenge parameters.  The call succeeds
/// exactly when the challenge parses: for a parsed challenge, `respond`'s
/// only error concerns qop options the parser would have rejected, so it
/// cannot fire.  The answer carries a random client nonce and a nonce
/// count, so nothing is promised of its text.  `parse` slices the header
/// at character positions taken as byte offsets and panics on multi-byte
/// characters, so only ASCII headers are admitted.
#[verifier::external_body]
fn digest_answer(
    header: &str,
    username: &str,
    password: &str,
    uri: &str,
    method: &str,
) -> (r: Result<String, ()>)
    requires
        spec_ascii_chars(header@),
    ensures
        r is Ok <==> spec_digest_parse_ok(header@),
{
    let mut challenge = match digest_auth::parse(header) {
        Ok(c) => c,
        Err(_) => return Err(()),
    };
    let context = digest_auth::AuthContext::new_with_method(
        username, password, uri, Option::<&[u8]>::None, digest_auth::HttpMethod::from(method),
    );
    match challenge.respond(&context) {
        Ok(answer) => Ok(answer.to_string()),
        Err(_) => Err(()),
    }
}

/// Authentication failures of the handshake.
pub enum AuthError {
    /// The device answered unauthorized without offering a challenge.
    ChallengeMissing,
    /// The challenge header could not be used: it is not ASCII, does not
    /// parse as a digest challenge, or could not be answered.  The raw
    /// header is kept for diagnosis.
    ChallengeParse(String),
}

/// What the transport must do after the first, unauthenticated exchange.
pub enum HandshakeStep {
    /// The device did not ask for authentication: its body is the answer.
    Done(String),
    /// Reissue the request with this `Authorization` header value.
    Retry(String),
    /// The handshake failed; no second exchange is owed.
    Failed(AuthError),
}

/// HTTP status code a server uses to demand authentication.
pub const STATUS_UNAUTHORIZED: u16 = 401;

/// A challenge header the handshake can use: ASCII text that parses as a
/// digest challenge.
pub open spec fn spec_challenge_usable(h: Seq<char>) -> bool {
    spec_ascii_chars(h) && spec_digest_parse_ok(h)
}

/// Decide the handshake from the first response: a non-401 answer is
/// final after one exchange; a 401 without a challenge fails with
/// `ChallengeMissing` after one exchange; a 401 with a usable challenge
/// yields the digest-authorized retry, and with an unusable one a
/// `ChallengeParse` failure carrying the header.
pub fn handshake_step(
    status: u16,
    www_authenticate: Option<&String>,
    body: String,
    username: &str,
    password: &str,
    uri: &str,
    method: &str,
) -> (r: HandshakeStep)
    ensures
        status != STATUS_UNAUTHORIZED ==> (r matches HandshakeStep::Done(b) && b@ == body@),
        r is Done ==> status != STATUS_UNAUTHORIZED,
        (status == STATUS_UNAUTHORIZED && www_authenticate is None) <==> r
            == HandshakeStep::Failed(AuthError::ChallengeMissing),
        www_authenticate matches Some(h) ==> ((status == STATUS_UNAUTHORIZED
            && spec_challenge_usable(h@)) ==> r is Retry),
        r is Retry ==> (status == STATUS_UNAUTHORIZED && (www_authenticate matches Some(h)
            && spec_challenge_usable(h@))),
        www_authenticate matches Some(h) ==> ((status == STATUS_UNAUTHORIZED
            && !spec_challenge_usable(h@)) ==> (r matches HandshakeStep::Failed(
            AuthError::ChallengeParse(raw),
        ) && raw@ == h@)),
        r matches HandshakeStep::Failed(AuthError::ChallengeParse(raw)) ==> (status
            == STATUS_UNAUTHORIZED && (www_authenticate matches Some(h) && raw@ == h@
            && !spec_challenge_usable(h@))),
{
    if status != STATUS_UNAUTHORIZED {
        return HandshakeStep::Done(body);
    }
    match www_authenticate {
        None => HandshakeStep::Failed(AuthError::ChallengeMissing),
        Some(header) => {
            if !str_is_ascii(header.as_str()) {
                return HandshakeStep::Failed(AuthError::ChallengeParse(header.clone()));
            }
            match digest_answer(header.as_str(), username, password, uri, method) {
                Ok(authorization) => HandshakeStep::Retry(authorization),
                Err(_) => HandshakeStep::Failed(AuthError::ChallengeParse(header.clone())),
            }
        },
    }
}

/// Render an authentication failure the way transport errors are
/// reported: a fixed phrase, with the offending header kept verbatim.
pub fn auth_error_text(e: &AuthError) -> (r: String)
    ensures
        e is ChallengeMissing ==> r@ == "No WWW-Authenticate header"@,
        e matches AuthError::ChallengeParse(h) ==> r@ == "Parse digest error: "@ + h@,
{
    match e {
        AuthError::ChallengeMissing => "No WWW-Authenticate header".to_owned(),
        AuthError::ChallengeParse(h) => {
            let mut out = String::new();
            out.append("Parse digest error: ");
            out.append(h.as_str());
            proof {
                assert(out@ =~= "Parse digest error: "@ + h@);
            }
            out
        },
    }
}

} // verus!
