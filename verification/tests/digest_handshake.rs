use student_registrator::action::interpret_connection;
use student_registrator::digest::{auth_error_text, handshake_step, AuthError, HandshakeStep};

const VALID_CHALLENGE: &str = "Digest realm=\"testrealm@host.com\", qop=\"auth,auth-int\", \
     nonce=\"dcd98b7102dd2f0e8b11d0f600bfb0c093\", opaque=\"5ccc069c403ebaf9f0171e9517f40e41\"";

#[test]
fn handshake_completes_after_exactly_two_exchanges() {
    let mut exchanges = 0;
    // First exchange: the device demands authentication with a valid challenge.
    exchanges += 1;
    let challenge = VALID_CHALLENGE.to_string();
    let step = handshake_step(
        401,
        Some(&challenge),
        String::new(),
        "admin",
        "circle-of-life",
        "/ISAPI/System/deviceInfo?format=json",
        "GET",
    );
    let authorization = match step {
        HandshakeStep::Retry(h) => h,
        other => panic!("expected a retry, got {:?}", kind_of(&other)),
    };
    assert!(authorization.starts_with("Digest "));
    assert!(authorization.contains("username=\"admin\""));
    assert!(authorization.contains("response="));
    // Second exchange: the correctly digested request succeeds.
    exchanges += 1;
    let step2 = handshake_step(
        200,
        None,
        "{\"deviceName\":\"door\"}".to_string(),
        "admin",
        "circle-of-life",
        "/ISAPI/System/deviceInfo?format=json",
        "GET",
    );
    let body = match step2 {
        HandshakeStep::Done(body) => body,
        other => panic!("expected done, got {:?}", kind_of(&other)),
    };
    assert_eq!(body, "{\"deviceName\":\"door\"}");
    assert_eq!(exchanges, 2);
    // The connection test reports the completed handshake as ok.
    let connection = interpret_connection(Ok(body));
    assert!(connection.ok);
    assert_eq!(connection.message, None);
}

#[test]
fn unauthorized_without_challenge_fails_after_one_exchange() {
    let mut exchanges = 0;
    exchanges += 1;
    let step = handshake_step(401, None, String::new(), "admin", "pw", "/x", "GET");
    match step {
        HandshakeStep::Failed(AuthError::ChallengeMissing) => {}
        other => panic!("expected a missing-challenge failure, got {:?}", kind_of(&other)),
    }
    assert_eq!(exchanges, 1);
}

#[test]
fn malformed_challenge_is_a_parse_failure() {
    let garbage = "Basic realm=\"not digest\"".to_string();
    let step = handshake_step(401, Some(&garbage), String::new(), "admin", "pw", "/x", "GET");
    match step {
        HandshakeStep::Failed(AuthError::ChallengeParse(raw)) => {
            assert_eq!(raw, "Basic realm=\"not digest\"");
        }
        other => panic!("expected a parse failure, got {:?}", kind_of(&other)),
    }
}

#[test]
fn non_ascii_challenge_is_a_parse_failure_not_a_panic() {
    let odd = "Digest r\u{e9}alm=\"x\", nonce=\"abc\"".to_string();
    let step = handshake_step(401, Some(&odd), String::new(), "u", "p", "/x", "GET");
    match step {
        HandshakeStep::Failed(AuthError::ChallengeParse(raw)) => assert_eq!(raw, odd),
        other => panic!("expected a parse failure, got {:?}", kind_of(&other)),
    }
}

#[test]
fn non_unauthorized_answers_directly() {
    let step = handshake_step(500, None, "server error".to_string(), "u", "p", "/x", "POST");
    match step {
        HandshakeStep::Done(body) => assert_eq!(body, "server error"),
        other => panic!("expected done, got {:?}", kind_of(&other)),
    }
}

#[test]
fn auth_error_texts() {
    assert_eq!(auth_error_text(&AuthError::ChallengeMissing), "No WWW-Authenticate header");
    assert_eq!(
        auth_error_text(&AuthError::ChallengeParse("xyz".to_string())),
        "Parse digest error: xyz"
    );
}

fn kind_of(step: &HandshakeStep) -> &'static str {
    match step {
        HandshakeStep::Done(_) => "done",
        HandshakeStep::Retry(_) => "retry",
        HandshakeStep::Failed(AuthError::ChallengeMissing) => "missing",
        HandshakeStep::Failed(AuthError::ChallengeParse(_)) => "parse",
    }
}
