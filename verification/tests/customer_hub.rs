use qefro_backend_sdk::customer_hub::{
    env_flag_true, hub_call, hub_customer_from_person, hub_parsed, hub_reply, is_customer_hub_enabled,
    is_customer_hub_optional, pick_identity, read_identity_phone, seed_from_person,
    ConsentContext, CustomerState, HubCall, HubOutcome, HubReply, HubRequest, HubSettings,
    MembershipContext, PlatformCapabilities, PlatformCustomerBinding, PlatformCustomerContext,
    PlatformStorageBinding, PlatformStorageContext, TimelineContext,
};
use qefro_backend_sdk::{JsonObject, JsonValue, ToolError};

fn object(entries: &[(&str, &str)]) -> JsonValue {
    let mut o = JsonObject::new();
    for (k, v) in entries {
        o.insert_str(k, v);
    }
    JsonValue::Object(o)
}

fn settings(enabled: Option<&str>, optional: Option<&str>) -> HubSettings {
    HubSettings {
        enabled: enabled.map(str::to_string),
        optional: optional.map(str::to_string),
        ..HubSettings::default()
    }
}

fn platform(base_url: Option<&str>, token: Option<&str>) -> PlatformCapabilities {
    PlatformCapabilities {
        storage: None,
        customer: Some(PlatformCustomerBinding {
            base_url: base_url.map(str::to_string),
            token: token.map(str::to_string),
            context: Some(PlatformCustomerContext {
                tenant_id: "t1".into(),
                workspace_id: "w1".into(),
                ..PlatformCustomerContext::default()
            }),
        }),
    }
}

fn posted(call: Result<HubCall, ToolError>) -> HubRequest {
    match call {
        Ok(HubCall::Post(request)) => request,
        other => panic!("unexpected {other:?}"),
    }
}

fn failure<T: std::fmt::Debug>(result: Result<T, ToolError>) -> String {
    match result {
        Err(ToolError::Message(m)) => m,
        other => panic!("unexpected {other:?}"),
    }
}

#[test]
fn flags_default_off_optional() {
    assert!(!is_customer_hub_enabled(None));
    assert!(is_customer_hub_optional(None));
}

#[test]
fn hub_customer_maps_person_fields() {
    let person = object(&[("id", "p1"), ("name", "Ada"), ("phone", "+1555"), ("email", "a@b.c")]);
    let hub = hub_customer_from_person(Some(&person)).unwrap();
    assert_eq!(hub.text("id"), Some("p1"));
    assert_eq!(hub.text("display_name"), Some("Ada"));
    assert_eq!(hub.text("phone_number"), Some("+1555"));
    assert_eq!(hub.text("whatsapp_number"), Some("+1555"));
    assert_eq!(hub.text("email"), Some("a@b.c"));
    assert!(hub_customer_from_person(Some(&object(&[("name", "x")]))).is_none());
    assert!(hub_customer_from_person(None).is_none());
}

#[test]
fn resolve_soft_skips_when_disabled() {
    let out = hub_call(
        &settings(Some("false"), Some("true")),
        None,
        "resolve",
        object(&[("phone_number", "+1")]),
    )
    .unwrap();
    assert!(matches!(out, HubCall::Skip));
}

#[test]
fn resolve_hard_fails_when_required() {
    let err = failure(hub_call(
        &settings(Some("true"), Some("false")),
        None,
        "resolve",
        object(&[("phone_number", "+1")]),
    ));
    assert!(err.contains("customer_hub_unavailable"));
}

#[test]
fn disabled_and_required_fails() {
    let err = failure(hub_call(&settings(None, Some("no")), None, "resolve", object(&[])));
    assert_eq!(err, "customer_hub_disabled");
}

#[test]
fn flags_read_words() {
    assert!(env_flag_true(Some(" Yes "), false));
    assert!(env_flag_true(Some("ON"), false));
    assert!(env_flag_true(Some("1"), false));
    assert!(!env_flag_true(Some("oFF"), true));
    assert!(!env_flag_true(Some("0"), true));
    assert!(env_flag_true(Some("maybe"), true));
    assert!(!env_flag_true(Some(""), false));
}

#[test]
fn identity_phone_is_the_first_that_is_not_blank() {
    let identity = object(&[("phone", "  "), ("whatsapp", "+3"), ("phone_number", " +2 ")]);
    assert_eq!(read_identity_phone(&identity).as_deref(), Some("+2"));
    assert_eq!(read_identity_phone(&object(&[("whatsapp", "+3")])).as_deref(), Some("+3"));
    assert_eq!(read_identity_phone(&JsonValue::Null), None);
}

#[test]
fn hub_customer_of_a_hub_customer() {
    let mut o = JsonObject::new();
    o.insert_str("id", " p1 ");
    o.insert("email", JsonValue::Bool(true));
    o.insert_str("tier", "gold");
    let hub = hub_customer_from_person(Some(&JsonValue::Object(o))).unwrap();
    assert_eq!(hub.text("id"), Some("p1"));
    assert_eq!(hub.get("email"), Some(&JsonValue::Null));
    assert_eq!(hub.get("phone_number"), Some(&JsonValue::Null));
    assert_eq!(hub.text("tier"), Some("gold"));
    assert_eq!(hub_customer_from_person(Some(&hub)), Some(hub));
}

#[test]
fn picked_identity_has_channel_and_identifier() {
    let identity = object(&[("phone", "+1"), ("email", "a@b.c"), ("name", "Ada")]);
    let picked = pick_identity(Some(&object(&[("phone", "+2")])), &identity);
    assert_eq!(picked.get("phone_number"), Some(&JsonValue::string("+2")));
    assert_eq!(picked.get("display_name"), Some(&JsonValue::string("Ada")));
    assert_eq!(picked.get("channel"), Some(&JsonValue::string("sms")));
    assert_eq!(picked.get("identifier"), Some(&JsonValue::string("+2")));
    assert!(picked.get("phone").is_none());
    let again = pick_identity(None, &JsonValue::Object(picked.clone()));
    assert_eq!(again, picked);
    let none = pick_identity(None, &JsonValue::Null);
    assert_eq!(none.get("channel"), Some(&JsonValue::string("api")));
    assert!(none.get("identifier").is_none());
    let email = pick_identity(None, &object(&[("email", "a@b.c")]));
    assert_eq!(email.get("channel"), Some(&JsonValue::string("email")));
    let whatsapp = pick_identity(None, &object(&[("whatsapp_number", "+9"), ("phone", "+1")]));
    assert_eq!(whatsapp.get("channel"), Some(&JsonValue::string("whatsapp")));
    assert_eq!(whatsapp.get("identifier"), Some(&JsonValue::string("+9")));
}

#[test]
fn hub_request_carries_context_and_token() {
    let request = posted(hub_call(
        &settings(Some("on"), None),
        Some(&platform(Some("https://hub.example//"), Some("tok"))),
        "resolve",
        object(&[("phone_number", "+1")]),
    ));
    assert_eq!(request.url, "https://hub.example/v1/internal/customer-hub/resolve");
    assert_eq!(request.bearer.as_deref(), Some("tok"));
    assert_eq!(request.payload.text("phone_number"), Some("+1"));
    let context = request.payload.get("context").unwrap();
    assert_eq!(context, &object(&[("tenant_id", "t1"), ("workspace_id", "w1")]));
}

#[test]
fn hub_address_and_token_fall_back_to_the_environment() {
    let mut s = settings(Some("1"), Some("false"));
    s.url = Some("http://env/".into());
    s.internal_token = Some("it".into());
    s.internal_bearer = Some("ib".into());
    let request = posted(hub_call(&s, Some(&platform(Some("//"), Some(""))), "op", object(&[])));
    assert_eq!(request.url, "http://env/v1/internal/customer-hub/op");
    assert_eq!(request.bearer.as_deref(), Some("it"));
    s.service_token = Some("".into());
    let request = posted(hub_call(&s, Some(&platform(None, None)), "op", JsonValue::Null));
    assert_eq!(request.bearer, None);
    assert_eq!(request.payload, JsonValue::Null);
}

#[test]
fn hub_needs_tenant_and_workspace() {
    let mut p = platform(Some("http://h"), None);
    if let Some(binding) = p.customer.as_mut() {
        if let Some(context) = binding.context.as_mut() {
            context.workspace_id = "".into();
        }
    }
    let s = settings(Some("1"), Some("0"));
    assert_eq!(failure(hub_call(&s, Some(&p), "op", object(&[]))), "customer_hub_unavailable");
}

#[test]
fn hub_replies_are_soft_while_optional() {
    let soft = settings(Some("1"), None);
    let unreachable = HubReply::Unreachable("refused".into());
    assert!(matches!(hub_reply(&soft, "op", unreachable), Ok(HubOutcome::Skip)));
    let missing = HubReply::Answered { status: 404, body: "x".into() };
    assert!(matches!(hub_reply(&soft, "op", missing), Ok(HubOutcome::Skip)));
    let fault = HubReply::Answered { status: 503, body: "x".into() };
    assert!(matches!(hub_reply(&soft, "op", fault), Ok(HubOutcome::Skip)));
    let forbidden = HubReply::Answered { status: 403, body: "no".into() };
    assert_eq!(failure(hub_reply(&soft, "op", forbidden)), "customer_hub.op failed (403): no");
}

#[test]
fn hub_replies_are_hard_while_required() {
    let hard = settings(Some("1"), Some("off"));
    let unreachable = HubReply::Unreachable("refused".into());
    assert_eq!(failure(hub_reply(&hard, "op", unreachable)), "customer_hub.op failed: refused");
    let fault = HubReply::Answered { status: 500, body: "".into() };
    assert_eq!(failure(hub_reply(&hard, "op", fault)), "customer_hub.op failed (500): ");
    let empty = HubReply::Answered { status: 204, body: "".into() };
    match hub_reply(&hard, "op", empty) {
        Ok(HubOutcome::Value(v)) => assert_eq!(v, object(&[])),
        other => panic!("unexpected {other:?}"),
    }
    let body = HubReply::Answered { status: 200, body: "[]".into() };
    match hub_reply(&hard, "op", body) {
        Ok(HubOutcome::Parse(t)) => assert_eq!(t, "[]"),
        other => panic!("unexpected {other:?}"),
    }
}

#[test]
fn timeline_appends_for_the_current_customer() {
    let state = CustomerState { current: Some(object(&[("id", "c1")])), lookup_completed: true };
    let timeline = TimelineContext { platform: Some(platform(Some("http://h"), None)), state };
    let s = settings(Some("1"), Some("0"));
    let request = posted(timeline.append(&s, &object(&[("event_type", " visit ")])));
    assert_eq!(request.url, "http://h/v1/internal/customer-hub/timeline_append");
    assert_eq!(request.payload.text("customer_id"), Some("c1"));
    assert_eq!(request.payload.text("event_type"), Some("visit"));
    assert_eq!(request.payload.text("source"), Some("sdk"));
    assert_eq!(request.payload.get("payload"), Some(&object(&[])));
    let named = object(&[("event_type", "visit"), ("customer_id", "c2"), ("source", "app")]);
    let request = posted(timeline.append(&s, &named));
    assert_eq!(request.payload.text("customer_id"), Some("c2"));
    assert_eq!(request.payload.text("source"), Some("app"));
    assert_eq!(failure(timeline.append(&s, &object(&[]))), "timeline_event_empty");
}

#[test]
fn a_call_without_customer_is_passed_over_or_fails() {
    let timeline = TimelineContext { platform: None, state: CustomerState::default() };
    let visit = object(&[("event_type", "visit")]);
    assert!(matches!(timeline.append(&settings(None, None), &visit), Ok(HubCall::Skip)));
    assert_eq!(
        failure(timeline.append(&settings(None, Some("0")), &visit)),
        "customer_not_found"
    );
    let membership =
        MembershipContext { platform: None, state: CustomerState::default(), solution_id: None };
    assert!(matches!(membership.attach(&settings(None, None), None), Ok(HubCall::Skip)));
    assert_eq!(
        failure(membership.detach(&settings(None, Some("0")), None)),
        "customer_not_found"
    );
}

#[test]
fn membership_names_the_solution() {
    let membership = MembershipContext {
        platform: Some(platform(Some("http://h"), None)),
        state: CustomerState { current: Some(object(&[("id", "c1")])), lookup_completed: true },
        solution_id: Some("s1".into()),
    };
    let s = settings(Some("1"), None);
    let request = posted(membership.attach(&s, None));
    assert_eq!(request.url, "http://h/v1/internal/customer-hub/membership_attach");
    assert_eq!(request.payload.text("solution_id"), Some("s1"));
    assert_eq!(request.payload.get("role"), Some(&JsonValue::Null));
    assert_eq!(request.payload.get("metadata"), Some(&object(&[])));
    let input = object(&[("solution_id", "s2"), ("role", "owner"), ("customer_id", "")]);
    let request = posted(membership.detach(&s, Some(&input)));
    assert_eq!(request.url, "http://h/v1/internal/customer-hub/membership_detach");
    assert_eq!(request.payload.text("customer_id"), Some("c1"));
    assert_eq!(request.payload.text("solution_id"), Some("s2"));
    assert_eq!(request.payload.text("role"), Some("owner"));
}

#[test]
fn consent_needs_a_purpose() {
    let consent = ConsentContext {
        platform: Some(platform(Some("http://h"), None)),
        state: CustomerState { current: Some(object(&[("id", "c1")])), lookup_completed: true },
    };
    let s = settings(Some("1"), None);
    assert_eq!(
        failure(consent.grant(&s, &object(&[("purpose", " ")]))),
        "consent_purpose_empty"
    );
    let request = posted(consent.grant(&s, &object(&[("purpose", " sms ")])));
    assert_eq!(request.url, "http://h/v1/internal/customer-hub/consent_grant");
    assert_eq!(request.payload.text("purpose"), Some("sms"));
    let request = posted(consent.revoke(&s, &object(&[("purpose", "sms")])));
    assert_eq!(request.url, "http://h/v1/internal/customer-hub/consent_revoke");
    assert_eq!(failure(consent.revoke(&s, &object(&[]))), "consent_purpose_empty");
}

#[test]
fn a_person_seeds_a_customer() {
    let seed = seed_from_person(&object(&[("id", " p "), ("phone", "+1"), ("name", "Ada")])).unwrap();
    assert_eq!(seed.text("id"), Some(" p "));
    assert_eq!(seed.text("phone_number"), Some("+1"));
    assert_eq!(seed.text("whatsapp_number"), Some("+1"));
    assert_eq!(seed.text("display_name"), Some("Ada"));
    assert_eq!(seed.get("status"), Some(&JsonValue::Null));
    assert!(seed_from_person(&object(&[("id", "")])).is_none());
    assert!(seed_from_person(&JsonValue::Null).is_none());
}

#[test]
fn a_reply_that_is_no_json_is_an_error() {
    assert_eq!(hub_parsed(Ok(object(&[("id", "c1")]))), Ok(Some(object(&[("id", "c1")]))));
    assert_eq!(failure(hub_parsed(Err("expected value".into()))), "expected value");
}

#[test]
fn platform_capabilities_as_json() {
    let mut p = platform(Some("http://h"), None);
    p.storage = Some(PlatformStorageBinding {
        base_url: None,
        token: Some("t".into()),
        context: Some(PlatformStorageContext {
            tenant_id: "t1".into(),
            solution_id: "s1".into(),
            ..PlatformStorageContext::default()
        }),
    });
    let wire = p.to_json();
    let customer = wire.get("customer").unwrap();
    assert_eq!(customer.text("base_url"), Some("http://h"));
    assert!(customer.get("token").is_none());
    assert_eq!(customer.get("context").unwrap().text("workspace_id"), Some("w1"));
    let storage = wire.get("storage").unwrap();
    assert_eq!(storage.text("token"), Some("t"));
    let context = storage.get("context").unwrap();
    assert_eq!(context.text("solution_id"), Some("s1"));
    assert_eq!(context.get("capabilities"), Some(&JsonValue::Array(vec![])));
    assert!(context.get("source").is_none());
    assert_eq!(PlatformCapabilities::default().to_json(), object(&[]));
}
