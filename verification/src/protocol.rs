//! The webhook protocol: configuration, requests, responses and headers.

use crate::auth::{
    AuthenticationContextPayload, AuthenticationContextPayloadView, ChallengePayload,
    ChallengePayloadView,
};
use crate::customer_hub::as_text;
use crate::json;
use crate::json::{JsonObject, JsonValue, JsonView};
use crate::marketing::{MarketingCapability, MarketingCapabilityView};
use crate::source;
use crate::source::uuid_text;
use crate::text;
use crate::text::{begins_with, decimal, join, same_text};
use crate::tools::{RegisteredTool, RegisteredToolView};
use vstd::prelude::*;
use vstd::string::*;
use vstd::utf8::*;

verus! {

/// The package name that is reported to the runtime.
pub const SDK_NAME: &'static str = "qefro-backend-sdk";

/// The package version that is reported to the runtime.
pub const SDK_VERSION: &'static str = "1.7.0";

/// How the webhook is set up.
#[derive(Debug)]
pub struct QefroConfig {
    pub signing_secret: String,
    pub protocol_version: String,
    /// How far the time of a request may be off, in seconds.
    pub max_timestamp_skew_secs: i64,
    pub endpoint_path: String,
}

pub struct QefroConfigView {
    pub signing_secret: Seq<char>,
    pub protocol_version: Seq<char>,
    pub max_timestamp_skew_secs: i64,
    pub endpoint_path: Seq<char>,
}

impl DeepView for QefroConfig {
    type V = QefroConfigView;

    open spec fn deep_view(&self) -> QefroConfigView {
        QefroConfigView {
            signing_secret: self.signing_secret@,
            protocol_version: self.protocol_version@,
            max_timestamp_skew_secs: self.max_timestamp_skew_secs,
            endpoint_path: self.endpoint_path@,
        }
    }
}

impl Clone for QefroConfig {
    fn clone(&self) -> (r: Self)
        ensures
            r.deep_view() == self.deep_view(),
    {
        QefroConfig {
            signing_secret: self.signing_secret.clone(),
            protocol_version: self.protocol_version.clone(),
            max_timestamp_skew_secs: self.max_timestamp_skew_secs,
            endpoint_path: self.endpoint_path.clone(),
        }
    }
}

impl QefroConfig {
    /// The usual setup with a signing secret.
    pub fn new(signing_secret: &str) -> (r: Self)
        ensures
            r.deep_view() == (QefroConfigView {
                signing_secret: signing_secret@,
                protocol_version: "1"@,
                max_timestamp_skew_secs: 300,
                endpoint_path: "/qefro"@,
            }),
    {
        QefroConfig {
            signing_secret: signing_secret.to_owned(),
            protocol_version: "1".to_owned(),
            max_timestamp_skew_secs: 300,
            endpoint_path: "/qefro".to_owned(),
        }
    }
}

/// A request of the runtime. Ids are UUIDs, held as numbers.
#[derive(Debug)]
pub struct QefroRequest {
    pub protocol_version: String,
    pub request_id: u128,
    pub request_type: String,
    pub organization_id: Option<u128>,
    pub conversation_id: Option<u128>,
    pub channel: Option<String>,
    pub identity: Option<JsonValue>,
    pub tool: Option<String>,
    pub parameters: Option<JsonValue>,
    pub authentication: Option<JsonValue>,
    pub resume_token: Option<String>,
    pub challenge_response: Option<String>,
}

pub struct QefroRequestView {
    pub protocol_version: Seq<char>,
    pub request_id: u128,
    pub request_type: Seq<char>,
    pub organization_id: Option<u128>,
    pub conversation_id: Option<u128>,
    pub channel: Option<Seq<char>>,
    pub identity: Option<JsonView>,
    pub tool: Option<Seq<char>>,
    pub parameters: Option<JsonView>,
    pub authentication: Option<JsonView>,
    pub resume_token: Option<Seq<char>>,
    pub challenge_response: Option<Seq<char>>,
}

impl DeepView for QefroRequest {
    type V = QefroRequestView;

    open spec fn deep_view(&self) -> QefroRequestView {
        QefroRequestView {
            protocol_version: self.protocol_version@,
            request_id: self.request_id,
            request_type: self.request_type@,
            organization_id: self.organization_id,
            conversation_id: self.conversation_id,
            channel: self.channel.deep_view(),
            identity: self.identity.deep_view(),
            tool: self.tool.deep_view(),
            parameters: self.parameters.deep_view(),
            authentication: self.authentication.deep_view(),
            resume_token: self.resume_token.deep_view(),
            challenge_response: self.challenge_response.deep_view(),
        }
    }
}

impl Clone for QefroRequest {
    fn clone(&self) -> (r: Self)
        ensures
            r.deep_view() == self.deep_view(),
    {
        QefroRequest {
            protocol_version: self.protocol_version.clone(),
            request_id: self.request_id,
            request_type: self.request_type.clone(),
            organization_id: self.organization_id,
            conversation_id: self.conversation_id,
            channel: self.channel.clone(),
            identity: self.identity.clone(),
            tool: self.tool.clone(),
            parameters: self.parameters.clone(),
            authentication: self.authentication.clone(),
            resume_token: self.resume_token.clone(),
            challenge_response: self.challenge_response.clone(),
        }
    }
}

/// A UUID as JSON: its text, or null where there is none.
pub open spec fn id_or_null(id: Option<u128>) -> JsonView {
    match id {
        Some(id) => JsonView::Str(source::uuid_spec(id)),
        None => JsonView::Null,
    }
}

/// A value, or null where there is none.
pub open spec fn value_or_null(value: Option<JsonView>) -> JsonView {
    match value {
        Some(v) => v,
        None => JsonView::Null,
    }
}

fn id_to_json(id: Option<u128>) -> (r: JsonValue)
    ensures
        r.deep_view() == id_or_null(id),
{
    match id {
        Some(id) => JsonValue::Str(uuid_text(id)),
        None => JsonValue::Null,
    }
}

fn copy_or_null(value: &Option<JsonValue>) -> (r: JsonValue)
    ensures
        r.deep_view() == value_or_null(value.deep_view()),
{
    match value {
        Some(v) => v.clone(),
        None => JsonValue::Null,
    }
}

impl QefroRequestView {
    /// The request as JSON, with its kind under `type`; what is absent is null.
    pub open spec fn json(self) -> JsonView {
        JsonView::Object(
            Map::<Seq<char>, JsonView>::empty().insert(
                "protocol_version"@,
                JsonView::Str(self.protocol_version),
            ).insert("request_id"@, JsonView::Str(source::uuid_spec(self.request_id))).insert(
                "type"@,
                JsonView::Str(self.request_type),
            ).insert("organization_id"@, id_or_null(self.organization_id)).insert(
                "conversation_id"@,
                id_or_null(self.conversation_id),
            ).insert("channel"@, json::str_or_null(self.channel)).insert(
                "identity"@,
                value_or_null(self.identity),
            ).insert("tool"@, json::str_or_null(self.tool)).insert(
                "parameters"@,
                value_or_null(self.parameters),
            ).insert("authentication"@, value_or_null(self.authentication)).insert(
                "resume_token"@,
                json::str_or_null(self.resume_token),
            ).insert("challenge_response"@, json::str_or_null(self.challenge_response)),
        )
    }
}

impl QefroRequest {
    /// The request as JSON.
    pub fn to_json(&self) -> (r: JsonValue)
        ensures
            r.deep_view() == self.deep_view().json(),
    {
        let mut object = JsonObject::new();
        object.insert_str("protocol_version", self.protocol_version.as_str());
        object.insert_str("request_id", uuid_text(self.request_id).as_str());
        object.insert_str("type", self.request_type.as_str());
        object.insert("organization_id", id_to_json(self.organization_id));
        object.insert("conversation_id", id_to_json(self.conversation_id));
        object.insert_str_or_null("channel", as_text(&self.channel));
        object.insert("identity", copy_or_null(&self.identity));
        object.insert_str_or_null("tool", as_text(&self.tool));
        object.insert("parameters", copy_or_null(&self.parameters));
        object.insert("authentication", copy_or_null(&self.authentication));
        object.insert_str_or_null("resume_token", as_text(&self.resume_token));
        object.insert_str_or_null("challenge_response", as_text(&self.challenge_response));
        JsonValue::Object(object)
    }
}

/// A response to the runtime.
#[derive(Debug)]
pub enum QefroResponse {
    Pong { protocol_version: String, sdk_version: String },
    /// What the webhook offers: its tools, its business flows and, where it was
    /// registered, its marketing capability.
    CapabilitiesList {
        tools: Vec<RegisteredTool>,
        flows: Vec<JsonValue>,
        marketing: Option<MarketingCapability>,
        protocol_version: String,
        sdk_version: String,
    },
    ToolsList { tools: Vec<RegisteredTool>, protocol_version: String, sdk_version: String },
    Result {
        output: JsonValue,
        authentication_context: Option<AuthenticationContextPayload>,
    },
    Challenge { resume_token: String, challenge: ChallengePayload },
    Error { code: String, message: String },
}

pub enum QefroResponseView {
    Pong { protocol_version: Seq<char>, sdk_version: Seq<char> },
    CapabilitiesList {
        tools: Seq<RegisteredToolView>,
        flows: Seq<JsonView>,
        marketing: Option<MarketingCapabilityView>,
        protocol_version: Seq<char>,
        sdk_version: Seq<char>,
    },
    ToolsList {
        tools: Seq<RegisteredToolView>,
        protocol_version: Seq<char>,
        sdk_version: Seq<char>,
    },
    Result {
        output: JsonView,
        authentication_context: Option<AuthenticationContextPayloadView>,
    },
    Challenge { resume_token: Seq<char>, challenge: ChallengePayloadView },
    Error { code: Seq<char>, message: Seq<char> },
}

impl DeepView for QefroResponse {
    type V = QefroResponseView;

    open spec fn deep_view(&self) -> QefroResponseView {
        match self {
            QefroResponse::Pong { protocol_version, sdk_version } => QefroResponseView::Pong {
                protocol_version: protocol_version@,
                sdk_version: sdk_version@,
            },
            QefroResponse::CapabilitiesList {
                tools,
                flows,
                marketing,
                protocol_version,
                sdk_version,
            } => QefroResponseView::CapabilitiesList {
                tools: tools.deep_view(),
                flows: flows.deep_view(),
                marketing: marketing.deep_view(),
                protocol_version: protocol_version@,
                sdk_version: sdk_version@,
            },
            QefroResponse::ToolsList {
                tools,
                protocol_version,
                sdk_version,
            } => QefroResponseView::ToolsList {
                tools: tools.deep_view(),
                protocol_version: protocol_version@,
                sdk_version: sdk_version@,
            },
            QefroResponse::Result { output, authentication_context } => QefroResponseView::Result {
                output: output.deep_view(),
                authentication_context: authentication_context.deep_view(),
            },
            QefroResponse::Challenge { resume_token, challenge } => QefroResponseView::Challenge {
                resume_token: resume_token@,
                challenge: challenge.deep_view(),
            },
            QefroResponse::Error { code, message } => QefroResponseView::Error {
                code: code@,
                message: message@,
            },
        }
    }
}

/// An error response.
pub open spec fn error_view(code: Seq<char>, message: Seq<char>) -> QefroResponseView {
    QefroResponseView::Error { code, message }
}

/// Tools as JSON.
pub open spec fn tools_json(tools: Seq<RegisteredToolView>) -> JsonView {
    JsonView::Array(tools.map_values(|t: RegisteredToolView| t.json()))
}

impl QefroResponseView {
    /// The response as JSON, with its kind under `type`.
    pub open spec fn json(self) -> JsonView {
        let object = Map::<Seq<char>, JsonView>::empty();
        JsonView::Object(
            match self {
                QefroResponseView::Pong { protocol_version, sdk_version } => object.insert(
                    "type"@,
                    JsonView::Str("pong"@),
                ).insert("protocol_version"@, JsonView::Str(protocol_version)).insert(
                    "sdk_version"@,
                    JsonView::Str(sdk_version),
                ),
                QefroResponseView::CapabilitiesList {
                    tools,
                    flows,
                    marketing,
                    protocol_version,
                    sdk_version,
                } => json::with_opt(
                    object.insert("type"@, JsonView::Str("capabilities.list"@)).insert(
                        "tools"@,
                        tools_json(tools),
                    ).insert("flows"@, JsonView::Array(flows)).insert(
                        "protocol_version"@,
                        JsonView::Str(protocol_version),
                    ).insert("sdk_version"@, JsonView::Str(sdk_version)),
                    "marketing"@,
                    match marketing {
                        Some(m) => Some(m.json()),
                        None => None,
                    },
                ),
                QefroResponseView::ToolsList {
                    tools,
                    protocol_version,
                    sdk_version,
                } => object.insert("type"@, JsonView::Str("tools.list"@)).insert(
                    "tools"@,
                    tools_json(tools),
                ).insert("protocol_version"@, JsonView::Str(protocol_version)).insert(
                    "sdk_version"@,
                    JsonView::Str(sdk_version),
                ),
                QefroResponseView::Result { output, authentication_context } => json::with_opt(
                    object.insert("type"@, JsonView::Str("result"@)).insert("output"@, output),
                    "authentication_context"@,
                    match authentication_context {
                        Some(a) => Some(a.json()),
                        None => None,
                    },
                ),
                QefroResponseView::Challenge { resume_token, challenge } => object.insert(
                    "type"@,
                    JsonView::Str("challenge"@),
                ).insert("resume_token"@, JsonView::Str(resume_token)).insert(
                    "challenge"@,
                    challenge.json(),
                ),
                QefroResponseView::Error { code, message } => object.insert(
                    "type"@,
                    JsonView::Str("error"@),
                ).insert("code"@, JsonView::Str(code)).insert("message"@, JsonView::Str(message)),
            },
        )
    }
}

impl QefroResponse {
    /// An error response.
    pub fn error(code: &str, message: &str) -> (r: Self)
        ensures
            r.deep_view() == error_view(code@, message@),
    {
        QefroResponse::Error { code: code.to_owned(), message: message.to_owned() }
    }

    /// The response as JSON.
    pub fn to_json(&self) -> (r: JsonValue)
        ensures
            r.deep_view() == self.deep_view().json(),
    {
        let mut object = JsonObject::new();
        match self {
            QefroResponse::Pong { protocol_version, sdk_version } => {
                object.insert_str("type", "pong");
                object.insert_str("protocol_version", protocol_version.as_str());
                object.insert_str("sdk_version", sdk_version.as_str());
            },
            QefroResponse::CapabilitiesList {
                tools,
                flows,
                marketing,
                protocol_version,
                sdk_version,
            } => {
                object.insert_str("type", "capabilities.list");
                object.insert("tools", tools_to_json(tools));
                object.insert("flows", copy_array(flows));
                object.insert_str("protocol_version", protocol_version.as_str());
                object.insert_str("sdk_version", sdk_version.as_str());
                if let Some(m) = marketing {
                    object.insert("marketing", m.to_json());
                }
            },
            QefroResponse::ToolsList { tools, protocol_version, sdk_version } => {
                object.insert_str("type", "tools.list");
                object.insert("tools", tools_to_json(tools));
                object.insert_str("protocol_version", protocol_version.as_str());
                object.insert_str("sdk_version", sdk_version.as_str());
            },
            QefroResponse::Result { output, authentication_context } => {
                object.insert_str("type", "result");
                object.insert("output", output.clone());
                if let Some(a) = authentication_context {
                    object.insert("authentication_context", a.to_json());
                }
            },
            QefroResponse::Challenge { resume_token, challenge } => {
                object.insert_str("type", "challenge");
                object.insert_str("resume_token", resume_token.as_str());
                object.insert("challenge", challenge.to_json());
            },
            QefroResponse::Error { code, message } => {
                object.insert_str("type", "error");
                object.insert_str("code", code.as_str());
                object.insert_str("message", message.as_str());
            },
        }
        JsonValue::Object(object)
    }
}

fn copy_array(values: &Vec<JsonValue>) -> (r: JsonValue)
    ensures
        r.deep_view() == JsonView::Array(values.deep_view()),
{
    let mut items: Vec<JsonValue> = Vec::new();
    let mut i: usize = 0;
    while i < values.len()
        invariant
            i <= values.len(),
            items.len() == i,
            forall|j: int|
                0 <= j < i ==> json::json_view(#[trigger] items@[j]) == values@[j].deep_view(),
        decreases values.len() - i,
    {
        items.push(values[i].clone());
        i += 1;
    }
    proof {
        json::lemma_items_view(items@);
        assert(json::items_view(items@) =~= values.deep_view());
    }
    JsonValue::Array(items)
}

fn tools_to_json(tools: &Vec<RegisteredTool>) -> (r: JsonValue)
    ensures
        r.deep_view() == tools_json(tools.deep_view()),
{
    let mut items: Vec<JsonValue> = Vec::new();
    let mut i: usize = 0;
    while i < tools.len()
        invariant
            i <= tools.len(),
            items.len() == i,
            forall|j: int|
                0 <= j < i ==> json::json_view(#[trigger] items@[j])
                    == tools@[j].deep_view().json(),
        decreases tools.len() - i,
    {
        items.push(tools[i].to_json());
        i += 1;
    }
    proof {
        json::lemma_items_view(items@);
        assert(json::items_view(items@) =~= tools.deep_view().map_values(
            |t: RegisteredToolView| t.json(),
        ));
    }
    JsonValue::Array(items)
}

/// The headers of a request, in order; a name may occur more than once.
#[derive(Debug)]
pub struct Headers {
    pub entries: Vec<(String, Vec<u8>)>,
}

impl DeepView for Headers {
    type V = Seq<(Seq<char>, Seq<u8>)>;

    open spec fn deep_view(&self) -> Seq<(Seq<char>, Seq<u8>)> {
        Seq::new(self.entries@.len(), |i: int| (self.entries@[i].0@, self.entries@[i].1@))
    }
}

/// A byte that may occur in a header that is read as text.
pub open spec fn is_visible_ascii(b: u8) -> bool {
    32 <= b < 127 || b == 9
}

/// The text of a header value; nothing where it holds other than visible ASCII.
pub open spec fn visible_text(raw: Seq<u8>) -> Option<Seq<char>> {
    if forall|i: int| 0 <= i < raw.len() ==> is_visible_ascii(#[trigger] raw[i]) {
        Some(raw.map_values(|b: u8| b as char))
    } else {
        None
    }
}

/// The value of the first header with a name in lower case; the case of header
/// names does not matter.
pub open spec fn header_value(
    headers: Seq<(Seq<char>, Seq<u8>)>,
    name: Seq<char>,
) -> Option<Seq<u8>>
    decreases headers.len(),
{
    if headers.len() == 0 {
        None
    } else {
        json::or_else(
            header_value(headers.drop_last(), name),
            if text::lower_spec(headers.last().0) == name {
                Some(headers.last().1)
            } else {
                None
            },
        )
    }
}

/// The text of the first header with a name.
pub open spec fn header_text(
    headers: Seq<(Seq<char>, Seq<u8>)>,
    name: Seq<char>,
) -> Option<Seq<char>> {
    match header_value(headers, name) {
        Some(raw) => visible_text(raw),
        None => None,
    }
}

/// `HeaderValue::to_str` of the `http` crate gives the bytes of a header value as
/// text where every one of them is a tab or a visible ASCII character, and an
/// error otherwise. Bytes that are no header value at all give none either.
#[verifier::external_body]
fn header_value_to_str(raw: &[u8]) -> (r: Option<String>)
    ensures
        r.deep_view() == visible_text(raw@),
{
    let value = axum::http::HeaderValue::from_bytes(raw).ok()?;
    value.to_str().ok().map(str::to_string)
}

/// A byte that may occur in a header value.
pub open spec fn is_header_byte(b: u8) -> bool {
    b >= 32 && b != 127 || b == 9
}

/// Text that can be sent as a header value.
pub open spec fn is_header_text(s: Seq<char>) -> bool {
    forall|i: int|
        0 <= i < encode_utf8(s).len() ==> is_header_byte(#[trigger] encode_utf8(s)[i])
}

/// `HeaderValue::from_str` of the `http` crate accepts a text where none of its
/// bytes is a control character other than a tab.
#[verifier::external_body]
fn header_value_from_str(text: &str) -> (r: bool)
    ensures
        r == is_header_text(text@),
{
    axum::http::HeaderValue::from_str(text).is_ok()
}

proof fn lemma_header_value_prefix(headers: Seq<(Seq<char>, Seq<u8>)>, name: Seq<char>, k: int)
    requires
        0 <= k <= headers.len(),
        header_value(headers.take(k), name) is Some,
    ensures
        header_value(headers, name) == header_value(headers.take(k), name),
    decreases headers.len(),
{
    if k == headers.len() {
        assert(headers.take(k) =~= headers);
    } else {
        assert(headers.drop_last().take(k) =~= headers.take(k));
        lemma_header_value_prefix(headers.drop_last(), name, k);
    }
}

/// The text of the first header with a name in lower case.
pub fn header_str(headers: &Headers, name: &str) -> (r: Option<String>)
    ensures
        r.deep_view() == header_text(headers.deep_view(), name@),
{
    let ghost views = headers.deep_view();
    let mut i: usize = 0;
    assert(views.take(0) =~= Seq::empty());
    while i < headers.entries.len()
        invariant
            i <= headers.entries.len(),
            views == headers.deep_view(),
            header_value(views.take(i as int), name@) is None,
        decreases headers.entries.len() - i,
    {
        assert(views.take(i + 1).drop_last() =~= views.take(i as int));
        if same_text(headers.entries[i].0.as_str().to_ascii_lowercase().as_str(), name) {
            proof {
                lemma_header_value_prefix(views, name@, i + 1);
            }
            return header_value_to_str(headers.entries[i].1.as_slice());
        }
        i += 1;
    }
    assert(views.take(i as int) =~= views);
    None
}

/// The headers that every response carries. A protocol version that cannot be
/// sent as a header is given as `1`.
pub open spec fn response_headers(protocol_version: Seq<char>) -> Seq<(Seq<char>, Seq<char>)> {
    let version = if is_header_text(protocol_version) {
        protocol_version
    } else {
        "1"@
    };
    seq![
        ("X-Qefro-Protocol"@, version),
        ("X-Qefro-Protocol-Version"@, version),
        ("X-Qefro-SDK"@, SDK_NAME@),
        ("X-Qefro-Version"@, SDK_VERSION@),
    ]
}

/// The headers that every response carries.
pub fn protocol_response_headers(config: &QefroConfig) -> (r: Vec<(String, String)>)
    ensures
        r.deep_view() == response_headers(config.deep_view().protocol_version),
{
    let version = if header_value_from_str(config.protocol_version.as_str()) {
        config.protocol_version.clone()
    } else {
        "1".to_owned()
    };
    let mut r: Vec<(String, String)> = Vec::new();
    r.push(("X-Qefro-Protocol".to_owned(), version.clone()));
    r.push(("X-Qefro-Protocol-Version".to_owned(), version));
    r.push(("X-Qefro-SDK".to_owned(), SDK_NAME.to_owned()));
    r.push(("X-Qefro-Version".to_owned(), SDK_VERSION.to_owned()));
    assert(r.deep_view() =~= response_headers(config.deep_view().protocol_version));
    r
}

/// Where the webhook is served.
#[derive(Debug)]
pub struct ListenOptions {
    pub port: u16,
    pub host: Option<String>,
    pub path: Option<String>,
}

pub struct ListenOptionsView {
    pub port: u16,
    pub host: Option<Seq<char>>,
    pub path: Option<Seq<char>>,
}

impl DeepView for ListenOptions {
    type V = ListenOptionsView;

    open spec fn deep_view(&self) -> ListenOptionsView {
        ListenOptionsView {
            port: self.port,
            host: self.host.deep_view(),
            path: self.path.deep_view(),
        }
    }
}

impl Clone for ListenOptions {
    fn clone(&self) -> (r: Self)
        ensures
            r.deep_view() == self.deep_view(),
    {
        ListenOptions {
            port: self.port,
            host: self.host.clone(),
            path: self.path.clone(),
        }
    }
}

/// The route, the address to bind and the URL of the webhook.
#[derive(Debug)]
pub struct ListenPlan {
    pub path: String,
    pub address: String,
    pub url: String,
}

pub struct ListenPlanView {
    pub path: Seq<char>,
    pub address: Seq<char>,
    pub url: Seq<char>,
}

impl DeepView for ListenPlan {
    type V = ListenPlanView;

    open spec fn deep_view(&self) -> ListenPlanView {
        ListenPlanView {
            path: self.path@,
            address: self.address@,
            url: self.url@,
        }
    }
}

/// Where the webhook is served: on all interfaces and the configured path where
/// the options say nothing else. The path begins with a slash.
pub open spec fn listen_plan(config: QefroConfigView, options: ListenOptionsView) -> ListenPlanView {
    let host = match options.host {
        Some(h) => h,
        None => "0.0.0.0"@,
    };
    let given = match options.path {
        Some(p) => p,
        None => config.endpoint_path,
    };
    let path = if given.len() > 0 && given[0] == '/' {
        given
    } else {
        "/"@ + given
    };
    let address = host + ":"@ + text::decimal_spec(options.port as nat);
    ListenPlanView { path, address, url: "http://"@ + address + path }
}

/// Decides where the webhook is served.
pub fn plan_listen(config: &QefroConfig, options: ListenOptions) -> (r: ListenPlan)
    ensures
        r.deep_view() == listen_plan(config.deep_view(), options.deep_view()),
{
    let host = match options.host {
        Some(h) => h,
        None => "0.0.0.0".to_owned(),
    };
    let given = match options.path {
        Some(p) => p,
        None => config.endpoint_path.clone(),
    };
    let path = if begins_with(given.as_str(), '/') {
        given
    } else {
        join("/", given.as_str())
    };
    let address = join(
        join(host.as_str(), ":").as_str(),
        decimal(options.port as u64).as_str(),
    );
    let url = join(join("http://", address.as_str()).as_str(), path.as_str());
    ListenPlan { path, address, url }
}

} // verus!
