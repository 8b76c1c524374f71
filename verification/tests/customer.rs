use qefro_backend_sdk::customer::{AuthorizeStep, CustomerApi, LookupStep};
use qefro_backend_sdk::customer_hub::CustomerState;
use qefro_backend_sdk::source::Draw;
use qefro_backend_sdk::{
    AuthOutcome, AuthenticationContextPayload, ChallengePayload, ChallengeSignal, JsonObject,
    JsonValue, Qefro, QefroConfig, ToolError,
};

fn object(entries: &[(&str, &str)]) -> JsonValue {
    let mut o = JsonObject::new();
    for (k, v) in entries {
        o.insert_str(k, v);
    }
    JsonValue::Object(o)
}

fn api(identity: JsonValue) -> CustomerApi {
    CustomerApi {
        identity,
        parameters: object(&[("order", "42")]),
        conversation_id: 7,
        channel: Some("web".into()),
        auth_response: Some("1234".into()),
    }
}

fn app() -> Qefro {
    let mut app: Qefro = Qefro::new(QefroConfig::new("secret"));
    app.customer(());
    app
}

fn success() -> AuthOutcome {
    AuthOutcome::Success {
        customer: object(&[("id", "c1")]),
        auth: AuthenticationContextPayload {
            credential_type: None,
            access_token: None,
            credential: None,
            refresh_token: None,
            expires_in: Some(10),
            customer_id: None,
        },
    }
}

fn draw(now_ms: i64) -> Draw {
    Draw { now_ms, conversation: 1, token: 2 }
}

fn failure<T: std::fmt::Debug>(result: Result<T, ToolError>) -> String {
    match result {
        Err(ToolError::Message(m)) => m,
        other => panic!("unexpected {other:?}"),
    }
}

#[test]
fn a_lookup_is_made_once() {
    let app = app();
    let api = api(object(&[("phone", "+1")]));
    let copy = api.clone();
    let mut state = CustomerState::default();
    match api.lookup(&app, &state) {
        Ok(LookupStep::Ask(ctx)) => {
            assert_eq!(ctx.identity, object(&[("phone", "+1")]));
            assert_eq!(ctx.parameters, object(&[("order", "42")]));
            assert_eq!(ctx.conversation.id, 7);
            assert_eq!(ctx.channel.as_deref(), Some("web"));
        }
        other => panic!("unexpected {other:?}"),
    }
    assert_eq!(api.get(&state), None);
    assert_eq!(failure(api.require(&state)), "customer_not_found");
    let found = Ok(Some(object(&[("id", "c1")])));
    assert_eq!(api.looked_up(&mut state, found), Ok(Some(object(&[("id", "c1")]))));
    match copy.lookup(&app, &state) {
        Ok(LookupStep::Done(found)) => assert_eq!(found, Some(object(&[("id", "c1")]))),
        other => panic!("unexpected {other:?}"),
    }
    assert_eq!(copy.get(&state), Some(object(&[("id", "c1")])));
    assert_eq!(copy.require(&state), Ok(object(&[("id", "c1")])));
}

#[test]
fn a_failed_lookup_is_made_again() {
    let app = app();
    let api = api(object(&[]));
    let mut state = CustomerState::default();
    let failed = Err(ToolError::new("down"));
    assert_eq!(failure(api.looked_up(&mut state, failed)), "down");
    assert!(matches!(api.lookup(&app, &state), Ok(LookupStep::Ask(_))));
    let failed = Err(ToolError::new("down"));
    assert_eq!(failure(api.authorize_looked_up(&mut state, None, failed)), "down");
    assert!(!state.lookup_completed);
    assert_eq!(api.looked_up(&mut state, Ok(None)), Ok(None));
    assert!(matches!(api.lookup(&app, &state), Ok(LookupStep::Done(None))));
}

#[test]
fn without_provider_nothing_is_looked_up() {
    let app: Qefro = Qefro::new(QefroConfig::new("secret"));
    let api = api(object(&[]));
    let mut state = CustomerState::default();
    assert_eq!(failure(api.lookup(&app, &state)), "customer_provider_missing");
    let step = api.lookup_by_phone(&app, &mut state, Some("+1"));
    assert_eq!(failure(step), "customer_provider_missing");
    let step = api.authorize(&app, &mut state, None);
    assert_eq!(failure(step), "customer_provider_missing");
    assert!(!state.lookup_completed);
}

#[test]
fn a_phone_number_is_looked_up() {
    let app = app();
    let api = api(object(&[("phone", " +1 "), ("name", "Ada")]));
    let mut state = CustomerState::default();
    match api.lookup_by_phone(&app, &mut state, Some("+2")) {
        Ok(LookupStep::Ask(ctx)) => {
            assert_eq!(ctx.identity.text("phone"), Some("+2"));
            assert_eq!(ctx.identity.text("name"), Some("Ada"));
        }
        other => panic!("unexpected {other:?}"),
    }
    match api.lookup_by_phone(&app, &mut state, None) {
        Ok(LookupStep::Ask(ctx)) => assert_eq!(ctx.identity.text("phone"), Some(" +1 ")),
        other => panic!("unexpected {other:?}"),
    }
}

#[test]
fn without_phone_number_there_is_no_customer() {
    let app = app();
    let api = api(object(&[("phone", "  ")]));
    let mut state = CustomerState {
        current: Some(object(&[("id", "c1")])),
        lookup_completed: true,
    };
    let step = api.lookup_by_phone(&app, &mut state, None);
    assert!(matches!(step, Ok(LookupStep::Done(None))));
    assert_eq!(api.get(&state), None);
    assert!(state.lookup_completed);
}

#[test]
fn an_authorization_goes_through_a_lookup() {
    let mut app = app();
    let api = api(object(&[]));
    let mut state = CustomerState::default();
    let step = api.authorize(&app, &mut state, Some("otp".into()));
    assert!(matches!(step, Ok(AuthorizeStep::Lookup(_))));
    let found = Ok(Some(object(&[("id", "c1")])));
    match api.authorize_looked_up(&mut state, Some("otp".into()), found) {
        Ok(AuthorizeStep::Authorize(ctx)) => {
            assert_eq!(ctx.customer, object(&[("id", "c1")]));
            assert_eq!(ctx.method.as_deref(), Some("otp"));
            assert_eq!(ctx.response.as_deref(), Some("1234"));
        }
        other => panic!("unexpected {other:?}"),
    }
    let given = api.authorized_at(&mut app, &mut state, success(), draw(5));
    assert_eq!(given, Ok(object(&[("id", "c1")])));
    match api.authorize_at(&app, &mut state, None, 10_004) {
        Ok(AuthorizeStep::Done(customer)) => assert_eq!(customer, object(&[("id", "c1")])),
        other => panic!("unexpected {other:?}"),
    }
    assert!(matches!(
        api.authorize_at(&app, &mut state, None, 10_005),
        Ok(AuthorizeStep::Authorize(_))
    ));
}

#[test]
fn an_authorization_needs_a_customer() {
    let api = api(object(&[]));
    let mut state = CustomerState::default();
    let step = api.authorize_looked_up(&mut state, None, Ok(None));
    assert_eq!(failure(step), "customer_not_found");
    let step = api.authorize(&app(), &mut state, None);
    assert_eq!(failure(step), "customer_not_found");
}

#[test]
fn an_authorization_can_fail() {
    let mut app = app();
    let api = api(object(&[]));
    let mut state = CustomerState::default();
    let given = api.authorized(&mut app, &mut state, AuthOutcome::Denied);
    assert_eq!(failure(given), "denied");
    let given = api.authorized(&mut app, &mut state, AuthOutcome::NotFound);
    assert_eq!(failure(given), "customer_not_found");
    let challenge = ChallengePayload {
        challenge_type: "otp".into(),
        message: "Code?".into(),
        destination_hint: None,
        login_url: None,
    };
    assert_eq!(
        api.authorized(&mut app, &mut state, AuthOutcome::Challenge(challenge.clone())),
        Err(ToolError::Challenge(ChallengeSignal { challenge }))
    );
    assert!(!state.lookup_completed);
    let given = api.authorized(&mut app, &mut state, success());
    assert_eq!(given, Ok(object(&[("id", "c1")])));
    assert_eq!(api.get(&state), Some(object(&[("id", "c1")])));
}
