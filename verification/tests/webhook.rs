use qefro_backend_sdk::auth::{AuthOutcome, ChallengePayload, ChallengeSignal, ToolError};
use qefro_backend_sdk::invoke::{dispatch, InvokeStep, Invocation, Layer, ToolCall};
use qefro_backend_sdk::marketing::{MarketingChannel, MarketingDefinition};
use qefro_backend_sdk::qefro::PendingInvocation;
use qefro_backend_sdk::signature::sign;
use qefro_backend_sdk::source::Draw;
use qefro_backend_sdk::{
    AuthenticationContextPayload, Headers, JsonObject, JsonValue, ListenOptions, Qefro,
    QefroConfig, QefroRequest, QefroResponse, ToolAuthMode, ToolLookup, ToolMetadata, SDK_VERSION,
};

type App = Qefro<&'static str, &'static str, &'static str, &'static str, &'static str>;

fn object(entries: &[(&str, &str)]) -> JsonValue {
    let mut o = JsonObject::new();
    for (k, v) in entries {
        o.insert_str(k, v);
    }
    JsonValue::Object(o)
}

fn request(kind: &str) -> QefroRequest {
    QefroRequest {
        protocol_version: "1".into(),
        request_id: 1,
        request_type: kind.into(),
        organization_id: None,
        conversation_id: None,
        channel: None,
        identity: None,
        tool: None,
        parameters: None,
        authentication: None,
        resume_token: None,
        challenge_response: None,
    }
}

fn invoke_request(tool: &str) -> QefroRequest {
    let mut r = request("tool.invoke");
    r.tool = Some(tool.into());
    r.conversation_id = Some(7);
    r.channel = Some("web".into());
    r.identity = Some(object(&[("phone", "+1")]));
    r.parameters = Some(object(&[("order", "42")]));
    r
}

fn draw(now_ms: i64, token: u128) -> Draw {
    Draw { now_ms, conversation: 99, token }
}

fn app() -> App {
    let mut app: App = Qefro::new(QefroConfig::new("secret"));
    app.tool(ToolMetadata { name: "open".into(), ..Default::default() }, "open handler");
    app.tool(
        ToolMetadata {
            name: "closed".into(),
            auth: ToolAuthMode::Required,
            default_auth_method: Some("otp".into()),
            ..Default::default()
        },
        "closed handler",
    );
    app
}

fn challenge() -> ChallengePayload {
    ChallengePayload {
        challenge_type: "otp".into(),
        message: "Code?".into(),
        destination_hint: None,
        login_url: None,
    }
}

fn credential(expires_in: Option<i64>) -> AuthenticationContextPayload {
    AuthenticationContextPayload {
        credential_type: None,
        access_token: Some("at".into()),
        credential: None,
        refresh_token: None,
        expires_in,
        customer_id: None,
    }
}

fn success(expires_in: Option<i64>) -> AuthOutcome {
    AuthOutcome::Success { customer: object(&[("id", "c1")]), auth: credential(expires_in) }
}

fn error_of(step: InvokeStep) -> (String, String) {
    match step {
        InvokeStep::Respond(QefroResponse::Error { code, message }) => (code, message),
        other => panic!("unexpected {other:?}"),
    }
}

fn expect_error(step: InvokeStep, code: &str, message: &str) {
    assert_eq!(error_of(step), (code.to_string(), message.to_string()));
}

fn lookup_of(step: InvokeStep) -> Invocation {
    match step {
        InvokeStep::Lookup(call, ctx) => {
            assert_eq!(ctx.conversation.id, call.api.conversation_id);
            call
        }
        other => panic!("unexpected {other:?}"),
    }
}

fn authorize_of(step: InvokeStep) -> Invocation {
    match step {
        InvokeStep::Authorize(call, _) => call,
        other => panic!("unexpected {other:?}"),
    }
}

fn handle_of(step: InvokeStep) -> Invocation {
    match step {
        InvokeStep::Handle { call, .. } => call,
        other => panic!("unexpected {other:?}"),
    }
}

/// Brings a call of the closed tool to its authorization.
fn asked(app: &mut App, now_ms: i64) -> Invocation {
    let call = lookup_of(app.handle_with(invoke_request("closed"), draw(now_ms, 1)));
    let found = Ok(Some(object(&[("id", "c1")])));
    authorize_of(app.invoke_looked_up(call, found, draw(now_ms, 1)))
}

#[test]
fn tools_list_includes_lookup() {
    let mut app: Qefro = Qefro::new(QefroConfig::new("secret"));
    app.tool(
        ToolMetadata {
            name: "orders".into(),
            lookup: Some(ToolLookup { by: Some("email".into()), required: vec![] }),
            ..Default::default()
        },
        (),
    );
    match app.handle(request("tools.list")) {
        InvokeStep::Respond(QefroResponse::ToolsList { tools, .. }) => {
            assert_eq!(tools.len(), 1);
            assert_eq!(
                tools[0].lookup.as_ref().unwrap().required,
                vec!["email".to_string()]
            );
        }
        other => panic!("unexpected {other:?}"),
    }
}

#[test]
fn capabilities_list_includes_lookup() {
    let mut app: Qefro = Qefro::new(QefroConfig::new("secret"));
    app.tool(
        ToolMetadata {
            name: "orders".into(),
            lookup: Some(ToolLookup { by: Some("email".into()), required: vec![] }),
            ..Default::default()
        },
        (),
    );
    match app.handle(request("capabilities.list")) {
        InvokeStep::Respond(QefroResponse::CapabilitiesList {
            tools,
            flows,
            marketing,
            protocol_version,
            sdk_version,
        }) => {
            assert_eq!(tools.len(), 1);
            assert_eq!(tools[0].name, "orders");
            assert_eq!(
                tools[0].lookup.as_ref().unwrap().required,
                vec!["email".to_string()]
            );
            assert!(flows.is_empty());
            assert!(marketing.is_none());
            assert_eq!(protocol_version, "1");
            assert_eq!(sdk_version, SDK_VERSION);
        }
        other => panic!("unexpected {other:?}"),
    }
}

#[test]
fn capabilities_list_includes_marketing() {
    let mut app = app();
    let channel = MarketingChannel {
        id: " sms ".into(),
        provider: None,
        label: None,
        enabled: None,
    };
    let mut def = MarketingDefinition { channels: vec![channel], ..Default::default() };
    app.marketing(def.clone()).unwrap();
    def.version = Some(0);
    let refused = app.marketing(def).unwrap_err();
    assert_eq!(refused.message(), "marketing: version must be a positive integer");
    let wire = match app.handle(request("capabilities.list")) {
        InvokeStep::Respond(response) => response.to_json(),
        other => panic!("unexpected {other:?}"),
    };
    assert_eq!(wire.text("type"), Some("capabilities.list"));
    assert_eq!(wire.get("flows"), Some(&JsonValue::Array(vec![])));
    match wire.get("tools") {
        Some(JsonValue::Array(tools)) => assert_eq!(tools.len(), 2),
        other => panic!("unexpected {other:?}"),
    }
    let marketing = wire.get("marketing").unwrap();
    assert_eq!(marketing.get("version"), Some(&JsonValue::Number("1".into())));
    match marketing.get("metadata").unwrap().get("channels") {
        Some(JsonValue::Array(channels)) => assert_eq!(channels[0].text("id"), Some("sms")),
        other => panic!("unexpected {other:?}"),
    }
}

#[test]
fn ping_is_answered() {
    match app().handle(request("ping")) {
        InvokeStep::Respond(QefroResponse::Pong { protocol_version, sdk_version }) => {
            assert_eq!(protocol_version, "1");
            assert_eq!(sdk_version, SDK_VERSION);
        }
        other => panic!("unexpected {other:?}"),
    }
}

#[test]
fn bad_requests_are_refused() {
    let mut r = request("ping");
    r.protocol_version = "2".into();
    expect_error(app().handle(r), "protocol_mismatch", "Unsupported protocol version");
    expect_error(app().handle(request("pong")), "invalid_request", "Unsupported request type");
    expect_error(app().handle(request("tool.invoke")), "invalid_request", "tool is required");
    expect_error(app().handle(invoke_request("shut")), "not_found", "Unknown tool: shut");
    let mut r = request("tool.resume");
    expect_error(app().handle(r.clone()), "invalid_request", "resume_token is required");
    r.resume_token = Some("t".into());
    expect_error(app().handle(r.clone()), "invalid_request", "challenge_response is required");
    r.challenge_response = Some("1234".into());
    expect_error(app().handle(r), "not_found", "resume token not found or expired");
}

#[test]
fn registering_again_replaces() {
    let mut app = app();
    app.tool(
        ToolMetadata {
            name: "open".into(),
            description: Some("new".into()),
            ..Default::default()
        },
        "new handler",
    );
    let tools = app.list_tools();
    assert_eq!(tools.len(), 2);
    assert_eq!(tools[0].description.as_deref(), Some("new"));
    assert_eq!(app.handler("open"), Some(&"new handler"));
    assert_eq!(app.handler("closed"), Some(&"closed handler"));
    assert_eq!(app.handler("shut"), None);
}

#[test]
fn an_open_tool_runs_at_once() {
    let mut app = app();
    let call = handle_of(app.handle(invoke_request("open")));
    let ctx = call.context();
    assert_eq!(ctx.parameters, object(&[("order", "42")]));
    assert_eq!(ctx.identity, object(&[("phone", "+1")]));
    assert_eq!(ctx.conversation.id, 7);
    assert_eq!(ctx.channel.as_deref(), Some("web"));
    assert_eq!(ctx.customer, None);
    assert!(ctx.customer_api().is_some());
    match app.invoke_handled(call, Ok(object(&[("ok", "yes")])), draw(5, 1)) {
        InvokeStep::Respond(QefroResponse::Result { output, authentication_context }) => {
            assert_eq!(output, object(&[("ok", "yes")]));
            assert_eq!(authentication_context, None);
        }
        other => panic!("unexpected {other:?}"),
    }
}

#[test]
fn a_call_without_conversation_gets_one() {
    let mut app = app();
    let mut r = invoke_request("open");
    r.conversation_id = None;
    r.parameters = None;
    r.identity = None;
    let call = handle_of(app.handle_with(r.clone(), draw(5, 1)));
    assert_eq!(call.api.conversation_id, 99);
    assert_eq!(call.context().parameters, object(&[]));
    assert_eq!(call.context().identity, object(&[]));
    let one = handle_of(app.handle(r.clone())).api.conversation_id;
    let two = handle_of(app.handle(r)).api.conversation_id;
    assert_ne!(one, two);
    assert_eq!((one >> 76) & 0xf, 4);
    assert_eq!((one >> 62) & 0x3, 2);
}

#[test]
fn a_closed_tool_needs_a_provider() {
    expect_error(
        app().handle(invoke_request("closed")),
        "configuration_error",
        "Tool requires customer provider. Configure app.customer(...) first.",
    );
}

#[test]
fn a_closed_tool_runs_after_authorization() {
    let mut app = app();
    app.customer("provider");
    let call = lookup_of(app.handle_with(invoke_request("closed"), draw(1000, 1)));
    let found = Ok(Some(object(&[("id", "c1")])));
    let call = match app.invoke_looked_up(call, found, draw(1000, 1)) {
        InvokeStep::Authorize(call, ctx) => {
            assert_eq!(ctx.customer, object(&[("id", "c1")]));
            assert_eq!(ctx.method.as_deref(), Some("otp"));
            assert_eq!(ctx.response, None);
            call
        }
        other => panic!("unexpected {other:?}"),
    };
    let call = handle_of(app.invoke_authorized(call, Ok(success(Some(60))), draw(1000, 1)));
    assert_eq!(call.context().customer, Some(object(&[("id", "c1")])));
    match app.invoke_handled(call.clone(), Ok(JsonValue::Null), draw(60999, 1)) {
        InvokeStep::Respond(QefroResponse::Result { authentication_context, .. }) => {
            assert_eq!(authentication_context, Some(credential(Some(60))));
        }
        other => panic!("unexpected {other:?}"),
    }
    match app.invoke_handled(call, Ok(JsonValue::Null), draw(61000, 1)) {
        InvokeStep::Respond(QefroResponse::Result { authentication_context, .. }) => {
            assert_eq!(authentication_context, None);
        }
        other => panic!("unexpected {other:?}"),
    }
}

#[test]
fn an_authorized_customer_is_not_asked_again_until_expiry() {
    let mut app = app();
    app.customer("provider");
    let call = asked(&mut app, 1000);
    handle_of(app.invoke_authorized(call, Ok(success(None)), draw(1000, 1)));
    let again = handle_of(app.handle_with(invoke_request("closed"), draw(900_999, 1)));
    assert_eq!(again.context().customer, Some(object(&[("id", "c1")])));
    let open = handle_of(app.handle_with(invoke_request("open"), draw(900_999, 1)));
    assert_eq!(open.context().customer, Some(object(&[("id", "c1")])));
    lookup_of(app.handle_with(invoke_request("closed"), draw(901_000, 1)));
    let mut other = invoke_request("closed");
    other.conversation_id = Some(8);
    lookup_of(app.handle_with(other, draw(1000, 1)));
}

#[test]
fn a_credential_lives_for_a_second_at_least() {
    let mut app = app();
    app.customer("provider");
    let call = asked(&mut app, 0);
    handle_of(app.invoke_authorized(call, Ok(success(Some(-5))), draw(0, 1)));
    handle_of(app.handle_with(invoke_request("closed"), draw(999, 1)));
    lookup_of(app.handle_with(invoke_request("closed"), draw(1000, 1)));
}

#[test]
fn refused_authorizations_are_answered() {
    let mut app = app();
    app.customer("provider");
    let call = asked(&mut app, 0);
    let step = app.invoke_authorized(call, Ok(AuthOutcome::Denied), draw(0, 1));
    expect_error(step, "denied", "Authentication denied");
    let call = asked(&mut app, 0);
    let step = app.invoke_authorized(call, Ok(AuthOutcome::NotFound), draw(0, 1));
    expect_error(step, "customer_not_found", "Customer not found");
    let call = asked(&mut app, 0);
    let step = app.invoke_authorized(call, Err(ToolError::new("down")), draw(0, 1));
    expect_error(step, "internal_error", "down");
    let call = lookup_of(app.handle_with(invoke_request("closed"), draw(0, 1)));
    let step = app.invoke_looked_up(call, Ok(None), draw(0, 1));
    expect_error(step, "customer_not_found", "Customer not found");
}

#[test]
fn a_challenge_is_resumed_once() {
    let mut app = app();
    app.customer("provider");
    let call = asked(&mut app, 0);
    let token = 0x0123_4567_89ab_4def_8123_4567_89ab_cdef;
    let step = app.invoke_authorized(call, Ok(AuthOutcome::Challenge(challenge())), draw(0, token));
    let resume_token = match step {
        InvokeStep::Respond(QefroResponse::Challenge { resume_token, challenge: c }) => {
            assert_eq!(c, challenge());
            resume_token
        }
        other => panic!("unexpected {other:?}"),
    };
    assert_eq!(resume_token, "01234567-89ab-4def-8123-456789abcdef");
    let mut r = request("tool.resume");
    r.resume_token = Some(resume_token);
    r.challenge_response = Some("1234".into());
    let call = lookup_of(app.handle_with(r.clone(), draw(0, 2)));
    assert_eq!(call.tool, "closed");
    assert_eq!(call.api.conversation_id, 7);
    assert_eq!(call.api.parameters, object(&[("order", "42")]));
    assert_eq!(call.identity, Some(object(&[("phone", "+1")])));
    assert_eq!(call.api.channel.as_deref(), Some("web"));
    let found = Ok(Some(object(&[("id", "c1")])));
    match app.invoke_looked_up(call, found, draw(0, 2)) {
        InvokeStep::Authorize(_, ctx) => assert_eq!(ctx.response.as_deref(), Some("1234")),
        other => panic!("unexpected {other:?}"),
    }
    expect_error(app.handle(r), "not_found", "resume token not found or expired");
}

#[test]
fn a_handler_raises_a_challenge() {
    let mut app = app();
    let call = handle_of(app.handle(invoke_request("open")));
    let raised = Err(ToolError::Challenge(ChallengeSignal { challenge: challenge() }));
    match app.invoke_handled(call, raised, draw(0, 5)) {
        InvokeStep::Respond(QefroResponse::Challenge { resume_token, .. }) => {
            assert_eq!(resume_token, "00000000-0000-0000-0000-000000000005");
        }
        other => panic!("unexpected {other:?}"),
    }
    assert!(app.pending.contains_key("00000000-0000-0000-0000-000000000005"));
}

#[test]
fn hooks_run_in_order_round_the_handler() {
    let mut app = app();
    app.before("b0");
    app.before("b1");
    app.after("a0");
    app.after("a1");
    app.use_middleware("m0");
    let mut step = app.handle(invoke_request("open"));
    let mut seen: Vec<String> = Vec::new();
    loop {
        step = match step {
            InvokeStep::Before { call, next, count } => {
                seen.push(app.before_hooks[next].to_string());
                app.invoke_before_done(call, next, count, Ok(()), draw(0, 1))
            }
            InvokeStep::Handle { call, count } => {
                assert_eq!(count, 1);
                seen.push("handler".to_string());
                app.invoke_handled(call, Ok(JsonValue::number(0)), draw(0, 1))
            }
            InvokeStep::After { call, output, next, count } => {
                seen.push(app.after_hooks[next].to_string());
                let next_output = match output {
                    JsonValue::Number(n) => JsonValue::Number(format!("{n}{next}")),
                    other => other,
                };
                app.invoke_after_done(call, next, count, Ok(next_output), draw(0, 1))
            }
            InvokeStep::Respond(QefroResponse::Result { output, .. }) => {
                assert_eq!(output, JsonValue::Number("001".into()));
                break;
            }
            other => panic!("unexpected {other:?}"),
        };
    }
    assert_eq!(seen, vec!["b0", "b1", "handler", "a0", "a1"]);
}

#[test]
fn a_failing_hook_ends_the_call() {
    let mut app = app();
    app.before("b0");
    app.after("a0");
    match app.handle(invoke_request("open")) {
        InvokeStep::Before { call, next, count } => {
            let failed = Err(ToolError::new("denied"));
            let step = app.invoke_before_done(call.clone(), next, count, failed, draw(0, 1));
            expect_error(step, "denied", "Authentication denied");
            let failed = Err(ToolError::new("broken"));
            let step = app.invoke_after_done(call, 0, 1, failed, draw(0, 1));
            expect_error(step, "internal_error", "broken");
        }
        other => panic!("unexpected {other:?}"),
    }
}

#[test]
fn middlewares_are_entered_in_order() {
    assert_eq!(dispatch(0, 2), Layer::Middleware(0));
    assert_eq!(dispatch(1, 2), Layer::Middleware(1));
    assert_eq!(dispatch(2, 2), Layer::Handler);
    assert_eq!(dispatch(0, 0), Layer::Handler);
}

#[test]
fn a_handler_authenticates_by_itself() {
    let mut app = app();
    let parameters = object(&[("order", "42")]);
    let customer = app
        .require_authentication(7, success(Some(60)), "open", parameters.clone(), None, None)
        .unwrap();
    assert_eq!(customer, object(&[("id", "c1")]));
    assert!(app.auth_by_conversation.contains_key(&7));
    match app.require_authentication(
        8,
        AuthOutcome::Challenge(challenge()),
        "open",
        parameters.clone(),
        None,
        Some("sms".into()),
    ) {
        Err(QefroResponse::Challenge { resume_token, challenge: c }) => {
            assert_eq!(c, challenge());
            assert_eq!(resume_token.len(), 36);
            assert_eq!(resume_token.as_bytes()[14], b'4');
            let waiting: &PendingInvocation = app.pending.get(&resume_token).unwrap();
            assert_eq!(waiting.tool, "open");
            assert_eq!(waiting.conversation_id, 8);
            assert_eq!(waiting.parameters, parameters);
            assert_eq!(waiting.channel.as_deref(), Some("sms"));
        }
        other => panic!("unexpected {other:?}"),
    }
    match app.require_authentication(7, AuthOutcome::Denied, "open", object(&[]), None, None) {
        Err(QefroResponse::Error { code, message }) => {
            assert_eq!((code.as_str(), message.as_str()), ("denied", "Authentication denied"));
        }
        other => panic!("unexpected {other:?}"),
    }
    match app.require_authentication(7, AuthOutcome::NotFound, "open", object(&[]), None, None) {
        Err(QefroResponse::Error { code, message }) => {
            assert_eq!(
                (code.as_str(), message.as_str()),
                ("customer_not_found", "Customer not found")
            );
        }
        other => panic!("unexpected {other:?}"),
    }
}

fn headers(entries: &[(&str, &str)]) -> Headers {
    Headers {
        entries: entries
            .iter()
            .map(|(k, v)| (k.to_string(), v.as_bytes().to_vec()))
            .collect(),
    }
}

#[test]
fn signed_requests_are_handled() {
    let mut app = app();
    let ts = chrono::Utc::now().timestamp();
    let sig = sign("secret", ts, "body");
    let ts = ts.to_string();
    let good = headers(&[
        ("X-Qefro-Protocol", "1"),
        ("X-Qefro-Signature", &sig),
        ("x-qefro-timestamp", &ts),
    ]);
    let raw = app.handle_raw("body", &good, Ok(request("ping")));
    assert_eq!(raw.status, 200);
    assert!(matches!(raw.step, InvokeStep::Respond(QefroResponse::Pong { .. })));
    let raw = app.handle_raw("body", &good, Err("expected value".into()));
    assert_eq!(raw.status, 400);
    expect_error(raw.step, "invalid_request", "expected value");
    let raw = app.handle_raw("other body", &good, Ok(request("ping")));
    assert_eq!(raw.status, 401);
    expect_error(raw.step, "invalid_signature", "Invalid Qefro signature");
}

#[test]
fn unsigned_requests_are_refused() {
    let mut app = app();
    let sig = sign("secret", 1000, "body");
    let old = headers(&[("x-qefro-signature", &sig), ("x-qefro-timestamp", "1000")]);
    let raw = app.handle_raw("body", &old, Ok(request("ping")));
    assert_eq!(raw.status, 401);
    assert!(app.verify_request_at("body", &old, 1000));
    assert!(!app.verify_request_at("body", &old, 1301));
    let unsigned = headers(&[("x-qefro-timestamp", "1000")]);
    assert!(!app.verify_request_at("body", &unsigned, 1000));
    let untimed = headers(&[("x-qefro-signature", &sig), ("x-qefro-timestamp", "soon")]);
    assert!(!app.verify_request_at("body", &untimed, 1000));
}

#[test]
fn the_protocol_header_comes_first() {
    let mut app = app();
    let raw = app.handle_raw("", &headers(&[("x-qefro-protocol", "2")]), Ok(request("ping")));
    assert_eq!(raw.status, 400);
    expect_error(raw.step, "protocol_mismatch", "Unsupported protocol version 2");
    let long = headers(&[("X-Qefro-Protocol-Version", "3")]);
    let raw = app.handle_raw("", &long, Ok(request("ping")));
    expect_error(raw.step, "protocol_mismatch", "Unsupported protocol version 3");
    let both = headers(&[("x-qefro-protocol-version", "3"), ("x-qefro-protocol", "1")]);
    let raw = app.handle_raw("", &both, Ok(request("ping")));
    assert_eq!(raw.status, 401);
}

#[test]
fn the_webhook_listens_where_it_is_told() {
    let app = app();
    let plan = app.listen(ListenOptions { port: 8080, host: None, path: None });
    assert_eq!(plan.path, "/qefro");
    assert_eq!(plan.address, "0.0.0.0:8080");
    assert_eq!(plan.url, "http://0.0.0.0:8080/qefro");
    let plan = app.listen(ListenOptions {
        port: 1,
        host: Some("localhost".into()),
        path: Some("hook".into()),
    });
    assert_eq!(plan.url, "http://localhost:1/hook");
}

#[test]
fn a_tool_call_is_made_directly() {
    let mut app = app();
    let call = ToolCall {
        tool: Some("open".into()),
        parameters: JsonValue::Null,
        conversation_id: 3,
        identity: None,
        channel: None,
        authentication: Some(object(&[("token", "t")])),
        auth_response: Some("yes".into()),
    };
    let ctx = handle_of(app.invoke(call, draw(0, 1))).context();
    assert_eq!(ctx.authentication, Some(object(&[("token", "t")])));
    assert_eq!(ctx.auth_response.as_deref(), Some("yes"));
}
