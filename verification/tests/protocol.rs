use qefro_backend_sdk::protocol::{header_str, protocol_response_headers};
use qefro_backend_sdk::{
    AuthBuilder, Headers, JsonValue, QefroConfig, QefroRequest, QefroResponse, RegisteredTool, ToolAuthMode,
    ToolLookup, ToolMetadata, SDK_NAME, SDK_VERSION,
};

#[test]
fn the_usual_configuration() {
    let config = QefroConfig::new("s3cret");
    assert_eq!(config.signing_secret, "s3cret");
    assert_eq!(config.protocol_version, "1");
    assert_eq!(config.max_timestamp_skew_secs, 300);
    assert_eq!(config.endpoint_path, "/qefro");
}

#[test]
fn responses_name_protocol_and_sdk() {
    let mut config = QefroConfig::new("s");
    config.protocol_version = "2".into();
    let sent = protocol_response_headers(&config);
    let value = |name: &str| {
        sent.iter()
            .find(|(n, _)| n.eq_ignore_ascii_case(name))
            .map(|(_, v)| v.clone())
    };
    assert_eq!(value("x-qefro-protocol").as_deref(), Some("2"));
    assert_eq!(value("x-qefro-protocol-version").as_deref(), Some("2"));
    assert_eq!(value("x-qefro-sdk").as_deref(), Some(SDK_NAME));
    assert_eq!(value("x-qefro-version").as_deref(), Some(SDK_VERSION));
    assert_eq!(sent.len(), 4);
}

#[test]
fn a_version_that_is_no_header_value_becomes_one() {
    let mut config = QefroConfig::new("s");
    config.protocol_version = "1\n2".into();
    let sent = protocol_response_headers(&config);
    assert!(sent.iter().any(|(n, v)| n.eq_ignore_ascii_case("x-qefro-protocol") && v == "1"));
}

#[test]
fn headers_are_found_by_name() {
    let headers = Headers {
        entries: vec![
            ("X-One".into(), b"first".to_vec()),
            ("x-one".into(), b"second".to_vec()),
            ("X-Raw".into(), vec![0xe9]),
            ("x-tab".into(), b"a\tb".to_vec()),
        ],
    };
    assert_eq!(header_str(&headers, "x-one").as_deref(), Some("first"));
    assert_eq!(header_str(&headers, "x-raw"), None);
    assert_eq!(header_str(&headers, "x-two"), None);
    assert_eq!(header_str(&headers, "x-tab").as_deref(), Some("a\tb"));
}

#[test]
fn responses_as_json() {
    let pong = QefroResponse::Pong { protocol_version: "1".into(), sdk_version: "2".into() };
    let wire = pong.to_json();
    assert_eq!(wire.text("type"), Some("pong"));
    assert_eq!(wire.text("protocol_version"), Some("1"));
    assert_eq!(wire.text("sdk_version"), Some("2"));
    let wire = QefroResponse::error("denied", "No").to_json();
    assert_eq!(wire.text("type"), Some("error"));
    assert_eq!(wire.text("code"), Some("denied"));
    assert_eq!(wire.text("message"), Some("No"));
    let result =
        QefroResponse::Result { output: JsonValue::Bool(true), authentication_context: None };
    let wire = result.to_json();
    assert_eq!(wire.text("type"), Some("result"));
    assert_eq!(wire.get("output"), Some(&JsonValue::Bool(true)));
    assert!(wire.get("authentication_context").is_none());
    let challenge = match AuthBuilder::new(None).login("https://l", None) {
        qefro_backend_sdk::AuthOutcome::Challenge(c) => c,
        other => panic!("unexpected {other:?}"),
    };
    let wire = QefroResponse::Challenge { resume_token: "t".into(), challenge }.to_json();
    assert_eq!(wire.text("type"), Some("challenge"));
    assert_eq!(wire.text("resume_token"), Some("t"));
    assert_eq!(wire.get("challenge").unwrap().text("type"), Some("login"));
}

#[test]
fn a_listed_tool_as_json() {
    let metadata = ToolMetadata {
        name: "orders".into(),
        auth: ToolAuthMode::NoAuth,
        timeout: Some(5000),
        lookup: Some(ToolLookup { by: None, required: vec!["email".into()] }),
        ..Default::default()
    };
    let tool: RegisteredTool = metadata.list_entry();
    let response = QefroResponse::ToolsList {
        tools: vec![tool],
        protocol_version: "1".into(),
        sdk_version: "2".into(),
    };
    let wire = response.to_json();
    assert_eq!(wire.text("type"), Some("tools.list"));
    let tool = match wire.get("tools") {
        Some(JsonValue::Array(tools)) => tools[0].clone(),
        other => panic!("unexpected {other:?}"),
    };
    assert_eq!(tool.text("name"), Some("orders"));
    assert_eq!(tool.text("auth"), Some("none"));
    assert_eq!(tool.get("timeout"), Some(&JsonValue::Number("5000".into())));
    assert!(tool.get("permissions").is_none());
    assert!(tool.get("description").is_none());
    let lookup = tool.get("lookup").unwrap();
    assert_eq!(lookup.get("required"), Some(&JsonValue::Array(vec![JsonValue::string("email")])));
    assert!(lookup.get("by").is_none());
}

#[test]
fn tool_metadata_as_json() {
    let metadata = ToolMetadata {
        name: "orders".into(),
        default_auth_method: Some("otp".into()),
        permissions: vec!["read".into()],
        ..Default::default()
    };
    let wire = metadata.to_json();
    assert_eq!(wire.text("name"), Some("orders"));
    assert_eq!(wire.text("auth"), Some("optional"));
    assert_eq!(wire.text("default_auth_method"), Some("otp"));
    assert_eq!(wire.get("permissions"), Some(&JsonValue::Array(vec![JsonValue::string("read")])));
    assert!(wire.get("lookup").is_none());
    assert!(ToolMetadata::default().to_json().get("default_auth_method").is_none());
}

#[test]
fn a_request_as_json() {
    let request = QefroRequest {
        protocol_version: "1".into(),
        request_id: 1,
        request_type: "ping".into(),
        organization_id: None,
        conversation_id: Some(0xff),
        channel: Some("web".into()),
        identity: None,
        tool: None,
        parameters: Some(JsonValue::Bool(true)),
        authentication: None,
        resume_token: None,
        challenge_response: None,
    };
    let wire = request.to_json();
    assert_eq!(wire.text("type"), Some("ping"));
    assert_eq!(wire.text("request_id"), Some("00000000-0000-0000-0000-000000000001"));
    assert_eq!(wire.get("organization_id"), Some(&JsonValue::Null));
    assert_eq!(wire.text("conversation_id"), Some("00000000-0000-0000-0000-0000000000ff"));
    assert_eq!(wire.text("channel"), Some("web"));
    assert_eq!(wire.get("tool"), Some(&JsonValue::Null));
    assert_eq!(wire.get("parameters"), Some(&JsonValue::Bool(true)));
}
