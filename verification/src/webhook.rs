//! The webhook: requests of the runtime, with their headers and signatures.

use crate::auth::{ChallengeSignalView, ToolErrorView};
use crate::invoke;
use crate::invoke::{InvokeStep, InvokeStepView, ToolCall, ToolCallView};
use crate::json;
use crate::json::JsonValue;
use crate::protocol;
use crate::protocol::{
    header_str, plan_listen, Headers, ListenOptions, ListenPlan, QefroRequest, QefroRequestView,
    QefroResponse, QefroResponseView, SDK_VERSION,
};
use crate::qefro;
use crate::qefro::{PendingInvocationView, Qefro, QefroView};
use crate::signature;
use crate::source::Draw;
use crate::text;
use crate::text::{join, parse_i64, same_text};
use crate::tools;
use vstd::prelude::*;

verus! {

/// What comes next for a raw request: the status of the response, and the step.
#[derive(Debug)]
pub struct RawStep {
    pub status: u16,
    pub step: InvokeStep,
}

pub struct RawStepView {
    pub status: u16,
    pub step: InvokeStepView,
}

impl DeepView for RawStep {
    type V = RawStepView;

    open spec fn deep_view(&self) -> RawStepView {
        RawStepView { status: self.status, step: self.step.deep_view() }
    }
}

/// What a body was read as: a request, or why it is none.
pub open spec fn parsed_view(parsed: Result<QefroRequest, String>) -> Result<
    QefroRequestView,
    Seq<char>,
> {
    match parsed {
        Ok(request) => Ok(request.deep_view()),
        Err(message) => Err(message@),
    }
}

/// An error response.
pub open spec fn refusal(code: Seq<char>, message: Seq<char>) -> InvokeStepView {
    InvokeStepView::Respond(protocol::error_view(code, message))
}

impl QefroRequestView {
    /// The call that the request asks for.
    pub open spec fn call(self, draw: Draw) -> ToolCallView {
        ToolCallView {
            tool: self.tool,
            parameters: match self.parameters {
                Some(parameters) => parameters,
                None => json::empty_object(),
            },
            conversation_id: match self.conversation_id {
                Some(id) => id,
                None => draw.conversation,
            },
            identity: self.identity,
            channel: self.channel,
            authentication: self.authentication,
            auth_response: None,
        }
    }
}

/// What a request to resume a call leaves in the webhook, and what comes next. The
/// token is used up.
pub open spec fn resume_spec(app: QefroView, request: QefroRequestView, draw: Draw) -> (
    QefroView,
    InvokeStepView,
) {
    match (request.resume_token, request.challenge_response) {
        (None, _) => (app, refusal("invalid_request"@, "resume_token is required"@)),
        (Some(_), None) => (app, refusal("invalid_request"@, "challenge_response is required"@)),
        (Some(token), Some(answer)) => if app.pending.contains_key(token) {
            invoke::invoke_spec(
                app.without_pending(token),
                app.pending[token].resumed(request.authentication, answer),
                draw,
            )
        } else {
            (app, refusal("not_found"@, "resume token not found or expired"@))
        },
    }
}

/// What a request leaves in the webhook, and what comes next.
pub open spec fn handle_spec(app: QefroView, request: QefroRequestView, draw: Draw) -> (
    QefroView,
    InvokeStepView,
) {
    if request.protocol_version != app.config.protocol_version {
        (app, refusal("protocol_mismatch"@, "Unsupported protocol version"@))
    } else if request.request_type == "ping"@ {
        (
            app,
            InvokeStepView::Respond(
                QefroResponseView::Pong {
                    protocol_version: app.config.protocol_version,
                    sdk_version: SDK_VERSION@,
                },
            ),
        )
    } else if request.request_type == "tools.list"@ {
        (
            app,
            InvokeStepView::Respond(
                QefroResponseView::ToolsList {
                    tools: app.listed(),
                    protocol_version: app.config.protocol_version,
                    sdk_version: SDK_VERSION@,
                },
            ),
        )
    } else if request.request_type == "tool.invoke"@ {
        invoke::invoke_spec(app, request.call(draw), draw)
    } else if request.request_type == "tool.resume"@ {
        resume_spec(app, request, draw)
    } else if request.request_type == "capabilities.list"@ {
        (
            app,
            InvokeStepView::Respond(
                QefroResponseView::CapabilitiesList {
                    tools: app.listed(),
                    flows: Seq::empty(),
                    marketing: app.marketing_capability(),
                    protocol_version: app.config.protocol_version,
                    sdk_version: SDK_VERSION@,
                },
            ),
        )
    } else {
        (app, refusal("invalid_request"@, "Unsupported request type"@))
    }
}

/// The protocol version that the headers name.
pub open spec fn protocol_header(headers: Seq<(Seq<char>, Seq<u8>)>) -> Option<Seq<char>> {
    json::or_else(
        protocol::header_text(headers, "x-qefro-protocol"@),
        protocol::header_text(headers, "x-qefro-protocol-version"@),
    )
}

/// The time that the headers name.
pub open spec fn timestamp_header(headers: Seq<(Seq<char>, Seq<u8>)>) -> Option<i64> {
    match protocol::header_text(headers, "x-qefro-timestamp"@) {
        Some(t) => text::parse_i64_spec(t),
        None => None,
    }
}

/// Whether the headers name a signature and a time that make the body a signed and
/// timely one at an instant.
pub open spec fn is_signed_request(
    app: QefroView,
    body: Seq<char>,
    headers: Seq<(Seq<char>, Seq<u8>)>,
    now_secs: i64,
) -> bool {
    match (
        protocol::header_text(headers, "x-qefro-signature"@),
        timestamp_header(headers),
    ) {
        (Some(sig), Some(timestamp)) => signature::is_signed(
            app.config,
            now_secs,
            sig,
            timestamp,
            body,
        ),
        _ => false,
    }
}

/// What a raw request leaves in the webhook, and what comes next, where it is known
/// whether it is signed and what its body was read as.
pub open spec fn receive_spec(
    app: QefroView,
    headers: Seq<(Seq<char>, Seq<u8>)>,
    signed: bool,
    parsed: Result<QefroRequestView, Seq<char>>,
    draw: Draw,
) -> (QefroView, RawStepView) {
    match protocol_header(headers) {
        Some(version) if version != app.config.protocol_version => (
            app,
            RawStepView {
                status: 400,
                step: refusal(
                    "protocol_mismatch"@,
                    "Unsupported protocol version "@ + version,
                ),
            },
        ),
        _ => if !signed {
            (
                app,
                RawStepView {
                    status: 401,
                    step: refusal("invalid_signature"@, "Invalid Qefro signature"@),
                },
            )
        } else {
            match parsed {
                Err(message) => (
                    app,
                    RawStepView { status: 400, step: refusal("invalid_request"@, message) },
                ),
                Ok(request) => {
                    let (after, step) = handle_spec(app, request, draw);
                    (after, RawStepView { status: 200, step })
                },
            }
        },
    }
}

fn refuse(code: &str, message: &str) -> (r: InvokeStep)
    ensures
        r.deep_view() == refusal(code@, message@),
{
    InvokeStep::Respond(QefroResponse::error(code, message))
}

impl<P, H, M, B, A> Qefro<P, H, M, B, A> {
    fn resume(&mut self, request: QefroRequest, draw: Draw) -> (r: InvokeStep)
        ensures
            (final(self)@, r.deep_view()) == resume_spec(old(self)@, request.deep_view(), draw),
            final(self).same_code(old(self)),
    {
        let ghost before = self@;
        let token = match request.resume_token {
            Some(token) => token,
            None => {
                return refuse("invalid_request", "resume_token is required");
            },
        };
        let answer = match request.challenge_response {
            Some(answer) => answer,
            None => {
                return refuse("invalid_request", "challenge_response is required");
            },
        };
        match self.take_pending(token.as_str()) {
            Some(pending) => {
                let call = ToolCall {
                    tool: Some(pending.tool),
                    parameters: pending.parameters,
                    conversation_id: pending.conversation_id,
                    identity: pending.identity,
                    channel: pending.channel,
                    authentication: request.authentication,
                    auth_response: Some(answer),
                };
                self.invoke(call, draw)
            },
            None => {
                assert(before.without_pending(token@).pending =~= before.pending);
                refuse("not_found", "resume token not found or expired")
            },
        }
    }

    /// Handles a request whose signature was checked, with what it needs from
    /// outside.
    pub fn handle_with(&mut self, request: QefroRequest, draw: Draw) -> (r: InvokeStep)
        ensures
            (final(self)@, r.deep_view()) == handle_spec(old(self)@, request.deep_view(), draw),
            final(self).same_code(old(self)),
    {
        let version = self.config.protocol_version.clone();
        if !same_text(request.protocol_version.as_str(), version.as_str()) {
            return refuse("protocol_mismatch", "Unsupported protocol version");
        }
        if same_text(request.request_type.as_str(), "ping") {
            return InvokeStep::Respond(
                QefroResponse::Pong {
                    protocol_version: version,
                    sdk_version: SDK_VERSION.to_owned(),
                },
            );
        }
        if same_text(request.request_type.as_str(), "tools.list") {
            return InvokeStep::Respond(
                QefroResponse::ToolsList {
                    tools: self.list_tools(),
                    protocol_version: version,
                    sdk_version: SDK_VERSION.to_owned(),
                },
            );
        }
        if same_text(request.request_type.as_str(), "tool.invoke") {
            let call = ToolCall {
                tool: request.tool,
                parameters: match request.parameters {
                    Some(parameters) => parameters,
                    None => JsonValue::empty_object(),
                },
                conversation_id: match request.conversation_id {
                    Some(id) => id,
                    None => draw.conversation,
                },
                identity: request.identity,
                channel: request.channel,
                authentication: request.authentication,
                auth_response: None,
            };
            return self.invoke(call, draw);
        }
        if same_text(request.request_type.as_str(), "tool.resume") {
            return self.resume(request, draw);
        }
        if same_text(request.request_type.as_str(), "capabilities.list") {
            let flows: Vec<JsonValue> = Vec::new();
            assert(flows.deep_view() =~= Seq::empty());
            return InvokeStep::Respond(
                QefroResponse::CapabilitiesList {
                    tools: self.list_tools(),
                    flows,
                    marketing: self.marketing_capability(),
                    protocol_version: version,
                    sdk_version: SDK_VERSION.to_owned(),
                },
            );
        }
        refuse("invalid_request", "Unsupported request type")
    }

    /// Handles a request whose signature was checked.
    pub fn handle(&mut self, request: QefroRequest) -> (r: InvokeStep)
        ensures
            exists|draw: Draw| #[trigger]
                draw.is_fresh() && (final(self)@, r.deep_view()) == handle_spec(
                    old(self)@,
                    request.deep_view(),
                    draw,
                ),
            final(self).same_code(old(self)),
    {
        let draw = Draw::take();
        self.handle_with(request, draw)
    }

    /// Decides where the webhook is served.
    pub fn listen(&self, options: ListenOptions) -> (r: ListenPlan)
        ensures
            r.deep_view() == protocol::listen_plan(self@.config, options.deep_view()),
    {
        plan_listen(&self.config, options)
    }

    /// Receives a raw request of which it is known whether it is signed.
    pub fn receive(
        &mut self,
        headers: &Headers,
        signed: bool,
        parsed: Result<QefroRequest, String>,
        draw: Draw,
    ) -> (r: RawStep)
        ensures
            (final(self)@, r.deep_view()) == receive_spec(
                old(self)@,
                headers.deep_view(),
                signed,
                parsed_view(parsed),
                draw,
            ),
            final(self).same_code(old(self)),
    {
        let version = match header_str(headers, "x-qefro-protocol") {
            Some(version) => Some(version),
            None => header_str(headers, "x-qefro-protocol-version"),
        };
        if let Some(version) = version {
            if !same_text(version.as_str(), self.config.protocol_version.as_str()) {
                let message = join("Unsupported protocol version ", version.as_str());
                return RawStep {
                    status: 400,
                    step: refuse("protocol_mismatch", message.as_str()),
                };
            }
        }
        if !signed {
            return RawStep {
                status: 401,
                step: refuse("invalid_signature", "Invalid Qefro signature"),
            };
        }
        match parsed {
            Ok(request) => RawStep { status: 200, step: self.handle_with(request, draw) },
            Err(message) => RawStep {
                status: 400,
                step: refuse("invalid_request", message.as_str()),
            },
        }
    }

    /// Whether a raw request is signed and timely at an instant.
    pub fn verify_request_at(&self, body: &str, headers: &Headers, now_secs: i64) -> (r: bool)
        ensures
            r == is_signed_request(self@, body@, headers.deep_view(), now_secs),
    {
        let timestamp = match header_str(headers, "x-qefro-timestamp") {
            Some(t) => parse_i64(t.as_str()),
            None => None,
        };
        match (header_str(headers, "x-qefro-signature"), timestamp) {
            (Some(sig), Some(ts)) => signature::verify_signature_at(
                &self.config,
                now_secs,
                sig.as_str(),
                ts,
                body,
            ),
            _ => false,
        }
    }

    /// Checks the protocol version and the signature of a raw request and handles
    /// it. `parsed` is what the body was read as.
    pub fn handle_raw(
        &mut self,
        body: &str,
        headers: &Headers,
        parsed: Result<QefroRequest, String>,
    ) -> (r: RawStep)
        ensures
            exists|draw: Draw| #[trigger]
                draw.is_fresh() && (final(self)@, r.deep_view()) == receive_spec(
                    old(self)@,
                    headers.deep_view(),
                    is_signed_request(
                        old(self)@,
                        body@,
                        headers.deep_view(),
                        (draw.now_ms / 1000) as i64,
                    ),
                    parsed_view(parsed),
                    draw,
                ),
            final(self).same_code(old(self)),
    {
        let draw = Draw::take();
        let signed: bool = self.verify_request_at(body, headers, draw.now_ms / 1000);
        self.receive(headers, signed, parsed, draw)
    }
}

/// A request that is not signed with the secret of the webhook, or is not timely,
/// is refused with an error, and the webhook stays as it is.
pub proof fn law_unsigned_refused(
    app: QefroView,
    body: Seq<char>,
    headers: Seq<(Seq<char>, Seq<u8>)>,
    now_secs: i64,
    parsed: Result<QefroRequestView, Seq<char>>,
    draw: Draw,
)
    requires
        !is_signed_request(app, body, headers, now_secs),
    ensures
        ({
            let signed = is_signed_request(app, body, headers, now_secs);
            let (after, raw) = receive_spec(app, headers, signed, parsed, draw);
            &&& after == app
            &&& raw.status == 400 || raw.status == 401
            &&& raw.step is Respond
            &&& raw.step->Respond_0 is Error
        }),
{
}

/// A timely request that carries its own signature, and no other protocol version,
/// is handled.
pub proof fn law_signed_handled(
    app: QefroView,
    body: Seq<char>,
    headers: Seq<(Seq<char>, Seq<u8>)>,
    timestamp: i64,
    now_secs: i64,
    request: QefroRequestView,
    draw: Draw,
)
    requires
        protocol::header_text(headers, "x-qefro-signature"@) == Some(
            signature::signature_spec(app.config.signing_secret, timestamp, body),
        ),
        timestamp_header(headers) == Some(timestamp),
        signature::is_timely(app.config.max_timestamp_skew_secs, now_secs, timestamp),
        match protocol_header(headers) {
            Some(version) => version == app.config.protocol_version,
            None => true,
        },
    ensures
        ({
            let signed = is_signed_request(app, body, headers, now_secs);
            let (after, raw) = receive_spec(app, headers, signed, Ok(request), draw);
            &&& (after, raw.step) == handle_spec(app, request, draw)
            &&& raw.status == 200
        }),
{
}

/// A request of another protocol version is refused, and the webhook stays as it
/// is: by the headers, signed or not, and by the request itself.
pub proof fn law_protocol_mismatch_refused(
    app: QefroView,
    headers: Seq<(Seq<char>, Seq<u8>)>,
    signed: bool,
    request: QefroRequestView,
    version: Seq<char>,
    draw: Draw,
)
    requires
        version != app.config.protocol_version,
    ensures
        protocol_header(headers) == Some(version) ==> receive_spec(
            app,
            headers,
            signed,
            Ok(request),
            draw,
        ) == (
            app,
            (RawStepView {
                status: 400u16,
                step: refusal("protocol_mismatch"@, "Unsupported protocol version "@ + version),
            }),
        ),
        request.protocol_version == version ==> handle_spec(app, request, draw) == (
            app,
            refusal("protocol_mismatch"@, "Unsupported protocol version"@),
        ),
{
}

/// A request that asks to resume a call with a token and an answer.
pub open spec fn is_resume(
    app: QefroView,
    request: QefroRequestView,
    token: Seq<char>,
    answer: Seq<char>,
) -> bool {
    &&& request.protocol_version == app.config.protocol_version
    &&& request.request_type == "tool.resume"@
    &&& request.resume_token == Some(token)
    &&& request.challenge_response == Some(answer)
}

pub proof fn lemma_request_types()
    ensures
        "tool.resume"@ != "ping"@,
        "tool.resume"@ != "tools.list"@,
        "tool.resume"@ != "tool.invoke"@,
        "tool.invoke"@ != "ping"@,
        "tool.invoke"@ != "tools.list"@,
        "tools.list"@ != "ping"@,
        "capabilities.list"@ != "ping"@,
        "capabilities.list"@ != "tools.list"@,
        "capabilities.list"@ != "tool.invoke"@,
        "capabilities.list"@ != "tool.resume"@,
{
    reveal_strlit("tool.resume");
    reveal_strlit("tool.invoke");
    reveal_strlit("tools.list");
    reveal_strlit("ping");
    reveal_strlit("capabilities.list");
    assert("capabilities.list"@.len() == 17);
    assert("tool.resume"@.len() == 11);
    assert("tool.invoke"@.len() == 11);
    assert("tools.list"@.len() == 10);
    assert("ping"@.len() == 4);
    assert("tool.resume"@[5] == 'r');
    assert("tool.invoke"@[5] == 'i');
}

/// A challenge that a call raises is answered with a token. A request to resume
/// with that token and an answer makes the same call again, of the same tool, with
/// the same parameters, conversation, identity and channel, and with the answer.
pub proof fn law_challenge_resume(
    app: QefroView,
    call: PendingInvocationView,
    signal: ChallengeSignalView,
    draw: Draw,
    request: QefroRequestView,
    answer: Seq<char>,
    later: Draw,
)
    requires
        is_resume(app, request, draw.token_text(), answer),
    ensures
        ({
            let (after, response) = invoke::map_error_spec(
                app,
                ToolErrorView::Challenge(signal),
                call,
                draw,
            );
            &&& response == QefroResponseView::Challenge {
                resume_token: draw.token_text(),
                challenge: signal.challenge,
            }
            &&& handle_spec(after, request, later) == invoke::invoke_spec(
                app.without_pending(draw.token_text()),
                call.resumed(request.authentication, answer),
                later,
            )
        }),
{
    lemma_request_types();
    let token = draw.token_text();
    assert(app.with_pending(token, call).without_pending(token).pending
        =~= app.without_pending(token).pending);
}

/// A token is good for one resume: after it, or where no call waits under the
/// token, a request to resume is refused, and the webhook stays as it is.
pub proof fn law_token_used_once(
    app: QefroView,
    request: QefroRequestView,
    again: QefroRequestView,
    token: Seq<char>,
    answer: Seq<char>,
    other: Seq<char>,
    draw: Draw,
    later: Draw,
)
    requires
        is_resume(app, request, token, answer),
        is_resume(app, again, token, other),
    ensures
        ({
            let after = handle_spec(app, request, draw).0;
            &&& after == app.without_pending(token)
            &&& handle_spec(after, again, later) == (
                after,
                refusal("not_found"@, "resume token not found or expired"@),
            )
        }),
{
    lemma_request_types();
    if app.pending.contains_key(token) {
        invoke::law_invoke_keeps(
            app.without_pending(token),
            app.pending[token].resumed(request.authentication, answer),
            draw,
        );
    } else {
        assert(app.without_pending(token).pending =~= app.pending);
    }
}

/// To resume one call leaves the others waiting.
pub proof fn law_resume_keeps_others(
    app: QefroView,
    request: QefroRequestView,
    token: Seq<char>,
    answer: Seq<char>,
    other: Seq<char>,
    draw: Draw,
)
    requires
        is_resume(app, request, token, answer),
        other != token,
        app.pending.contains_key(other),
    ensures
        handle_spec(app, request, draw).0.pending.contains_key(other),
        handle_spec(app, request, draw).0.pending[other] == app.pending[other],
{
    lemma_request_types();
    if app.pending.contains_key(token) {
        invoke::law_invoke_keeps(
            app.without_pending(token),
            app.pending[token].resumed(request.authentication, answer),
            draw,
        );
    }
}

/// Both requests for the tools, the full and the short one, are answered with
/// every tool, listed once with its lookup normalized, and leave the webhook as it
/// is. The full one also gives the marketing capability that was registered.
pub proof fn law_tools_discovered(app: QefroView, request: QefroRequestView, draw: Draw)
    requires
        app.wf(),
        request.protocol_version == app.config.protocol_version,
    ensures
        request.request_type == "capabilities.list"@ ==> {
            let (after, step) = handle_spec(app, request, draw);
            &&& after == app
            &&& step is Respond
            &&& step->Respond_0 is CapabilitiesList
            &&& step->Respond_0->CapabilitiesList_tools == app.listed()
            &&& step->Respond_0->CapabilitiesList_marketing == app.marketing_capability()
        },
        request.request_type == "tools.list"@ ==> {
            let (after, step) = handle_spec(app, request, draw);
            &&& after == app
            &&& step is Respond
            &&& step->Respond_0 is ToolsList
            &&& step->Respond_0->ToolsList_tools == app.listed()
        },
        app.listed().len() == app.tools.len(),
        forall|i: int|
            0 <= i < app.tools.len() ==> {
                &&& (#[trigger] app.listed()[i]) == app.tools[i].listed()
                &&& tools::normal_lookup(app.listed()[i].lookup) == app.listed()[i].lookup
            },
        forall|i: int, j: int|
            0 <= i < j < app.tools.len() ==> (#[trigger] app.listed()[i]).name != (
            #[trigger] app.listed()[j]).name,
{
    lemma_request_types();
    qefro::law_tools_listed_once(app);
}

/// No request changes the configuration or what was registered.
pub proof fn law_requests_keep_setup(app: QefroView, request: QefroRequestView, draw: Draw)
    ensures
        handle_spec(app, request, draw).0.same_setup(app),
{
}

/// Only a request to resume changes the webhook at its first step.
pub proof fn law_first_step_keeps(app: QefroView, request: QefroRequestView, draw: Draw)
    requires
        request.request_type != "tool.resume"@,
    ensures
        handle_spec(app, request, draw).0 == app,
{
    if request.request_type == "tool.invoke"@ {
        invoke::law_invoke_keeps(app, request.call(draw), draw);
    }
}

} // verus!
