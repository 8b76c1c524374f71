use qefro_backend_sdk::auth::mask;
use qefro_backend_sdk::{
    AuthBuilder, AuthOutcome, AuthenticationContextPayload, ChallengePayload, ChallengeSignal,
    JsonValue, ToolContext, ToolError,
};

fn challenge_of(outcome: AuthOutcome) -> ChallengePayload {
    match outcome {
        AuthOutcome::Challenge(c) => c,
        other => panic!("unexpected {other:?}"),
    }
}

fn credential() -> AuthenticationContextPayload {
    AuthenticationContextPayload {
        credential_type: Some("bearer".into()),
        access_token: Some("at".into()),
        credential: None,
        refresh_token: None,
        expires_in: Some(60),
        customer_id: None,
    }
}

#[test]
fn masks_all_but_the_ends() {
    assert_eq!(mask("ada@example.com"), "ad***om");
    assert_eq!(mask("12345"), "12***45");
    assert_eq!(mask("1234"), "1234");
    assert_eq!(mask(""), "");
    assert_eq!(mask("\u{e9}abc\u{e9}"), "\u{e9}***\u{e9}");
}

#[test]
fn challenges_have_usual_messages() {
    let auth = AuthBuilder::new(None);
    let c = challenge_of(auth.email_otp("ada@example.com", None));
    assert_eq!(c.challenge_type, "email_otp");
    assert_eq!(c.message, "Enter the OTP sent to your email.");
    assert_eq!(c.destination_hint.as_deref(), Some("ad***om"));
    assert_eq!(c.login_url, None);
    let c = challenge_of(auth.sms_otp("+15551234", Some("Code?")));
    assert_eq!(c.challenge_type, "sms_otp");
    assert_eq!(c.message, "Code?");
    assert_eq!(c.destination_hint.as_deref(), Some("+1***34"));
    let c = challenge_of(auth.sms_otp("+15551234", None));
    assert_eq!(c.message, "Enter the OTP sent to your phone.");
    let c = challenge_of(auth.login("https://l", None));
    assert_eq!(c.challenge_type, "login");
    assert_eq!(c.message, "Please continue in your login page.");
    assert_eq!(c.destination_hint, None);
    assert_eq!(c.login_url.as_deref(), Some("https://l"));
}

#[test]
fn outcomes_are_built() {
    let auth = AuthBuilder::new(Some("1234".into()));
    assert_eq!(auth.response.as_deref(), Some("1234"));
    assert_eq!(auth.denied(), AuthOutcome::Denied);
    assert_eq!(auth.not_found(), AuthOutcome::NotFound);
    let own = ChallengePayload {
        challenge_type: "pin".into(),
        message: "PIN?".into(),
        destination_hint: None,
        login_url: None,
    };
    assert_eq!(challenge_of(auth.custom(own.clone())), own);
}

#[test]
fn challenges_and_credentials_as_json() {
    let wire = credential().to_json();
    assert_eq!(wire.text("type"), Some("bearer"));
    assert_eq!(wire.get("expires_in"), Some(&JsonValue::number(60)));
    assert!(wire.get("refresh_token").is_none());
    let c = challenge_of(AuthBuilder::new(None).login("https://l", Some("Go")));
    let wire = c.to_json();
    assert_eq!(wire.text("type"), Some("login"));
    assert_eq!(wire.text("message"), Some("Go"));
    assert_eq!(wire.text("login_url"), Some("https://l"));
    assert!(wire.get("destination_hint").is_none());
}

#[test]
fn a_tool_raises_a_challenge() {
    let c = challenge_of(AuthBuilder::new(None).login("https://l", Some("Go")));
    let signal = ChallengeSignal { challenge: c.clone() };
    assert_eq!(signal.message(), "Go");
    assert_eq!(ToolContext::raise_challenge(c), Err(ToolError::Challenge(signal)));
}

#[test]
fn a_credential_gets_the_id_of_its_customer() {
    let mut customer = qefro_backend_sdk::JsonObject::new();
    customer.insert_str("id", "c1");
    let customer = JsonValue::Object(customer);
    let auth = AuthBuilder::new(None);
    match auth.success(customer.clone(), credential()) {
        AuthOutcome::Success { customer: c, auth } => {
            assert_eq!(c, customer);
            assert_eq!(auth.customer_id.as_deref(), Some("c1"));
            assert_eq!(auth.access_token.as_deref(), Some("at"));
        }
        other => panic!("unexpected {other:?}"),
    }
    let mut named = credential();
    named.customer_id = Some("c2".into());
    match auth.success(customer, named) {
        AuthOutcome::Success { auth, .. } => assert_eq!(auth.customer_id.as_deref(), Some("c2")),
        other => panic!("unexpected {other:?}"),
    }
}
