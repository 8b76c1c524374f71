//! The course of a tool call. The host runs the provider, the hooks and the
//! handler; here it is decided what is run next, with what, and what is answered.

use crate::auth;
use crate::auth::{
    AuthOutcome, AuthOutcomeView, AuthenticationContextPayloadView, ToolError, ToolErrorView,
};
use crate::customer;
use crate::customer::{
    AuthorizeStep, AuthorizeStepView, Conversation, ConversationView, CustomerApi, CustomerApiView,
    CustomerAuthorizeContext, CustomerAuthorizeContextView, CustomerLookupContext,
    CustomerLookupContextView, ToolContext, ToolContextView,
};
use crate::customer_hub::{CustomerState, CustomerStateView};
use crate::json;
use crate::json::{JsonValue, JsonView};
use crate::protocol;
use crate::protocol::{QefroResponse, QefroResponseView};
use crate::qefro;
use crate::qefro::{PendingInvocation, PendingInvocationView, Qefro, QefroView};
use crate::source::{uuid_text, Draw};
use crate::text::{join, same_text};
use crate::tools::{ToolAuthMode, ToolMetadataView};
use vstd::prelude::*;

verus! {

/// A tool call as it is asked for.
#[derive(Debug)]
pub struct ToolCall {
    pub tool: Option<String>,
    pub parameters: JsonValue,
    pub conversation_id: u128,
    pub identity: Option<JsonValue>,
    pub channel: Option<String>,
    pub authentication: Option<JsonValue>,
    /// The answer to an earlier challenge.
    pub auth_response: Option<String>,
}

pub struct ToolCallView {
    pub tool: Option<Seq<char>>,
    pub parameters: JsonView,
    pub conversation_id: u128,
    pub identity: Option<JsonView>,
    pub channel: Option<Seq<char>>,
    pub authentication: Option<JsonView>,
    pub auth_response: Option<Seq<char>>,
}

impl DeepView for ToolCall {
    type V = ToolCallView;

    open spec fn deep_view(&self) -> ToolCallView {
        ToolCallView {
            tool: self.tool.deep_view(),
            parameters: self.parameters.deep_view(),
            conversation_id: self.conversation_id,
            identity: self.identity.deep_view(),
            channel: self.channel.deep_view(),
            authentication: self.authentication.deep_view(),
            auth_response: self.auth_response.deep_view(),
        }
    }
}

impl Clone for ToolCall {
    fn clone(&self) -> (r: Self)
        ensures
            r.deep_view() == self.deep_view(),
    {
        ToolCall {
            tool: self.tool.clone(),
            parameters: self.parameters.clone(),
            conversation_id: self.conversation_id,
            identity: self.identity.clone(),
            channel: self.channel.clone(),
            authentication: self.authentication.clone(),
            auth_response: self.auth_response.clone(),
        }
    }
}

/// A tool call under way.
#[derive(Debug)]
pub struct Invocation {
    pub tool: String,
    /// The way in which the tool has its customers authorized.
    pub method: Option<String>,
    /// The identity as it was given.
    pub identity: Option<JsonValue>,
    pub authentication: Option<JsonValue>,
    pub api: CustomerApi,
    /// What is known of the customer.
    pub state: CustomerState,
}

pub struct InvocationView {
    pub tool: Seq<char>,
    pub method: Option<Seq<char>>,
    pub identity: Option<JsonView>,
    pub authentication: Option<JsonView>,
    pub api: CustomerApiView,
    pub state: CustomerStateView,
}

impl DeepView for Invocation {
    type V = InvocationView;

    open spec fn deep_view(&self) -> InvocationView {
        InvocationView {
            tool: self.tool@,
            method: self.method.deep_view(),
            identity: self.identity.deep_view(),
            authentication: self.authentication.deep_view(),
            api: self.api.deep_view(),
            state: self.state.deep_view(),
        }
    }
}

impl Clone for Invocation {
    fn clone(&self) -> (r: Self)
        ensures
            r.deep_view() == self.deep_view(),
    {
        Invocation {
            tool: self.tool.clone(),
            method: self.method.clone(),
            identity: self.identity.clone(),
            authentication: self.authentication.clone(),
            api: self.api.clone(),
            state: self.state.clone(),
        }
    }
}

/// What comes next in a tool call.
#[derive(Debug)]
pub enum InvokeStep {
    /// The provider looks the customer up.
    Lookup(Invocation, CustomerLookupContext),
    /// The provider authorizes the customer.
    Authorize(Invocation, CustomerAuthorizeContext),
    /// Hook `next` of the `count` hooks before the tool runs.
    Before { call: Invocation, next: usize, count: usize },
    /// The handler runs, inside `count` middlewares.
    Handle { call: Invocation, count: usize },
    /// Hook `next` of the `count` hooks after the tool is given the output.
    After { call: Invocation, output: JsonValue, next: usize, count: usize },
    /// The call is answered.
    Respond(QefroResponse),
}

pub enum InvokeStepView {
    Lookup(InvocationView, CustomerLookupContextView),
    Authorize(InvocationView, CustomerAuthorizeContextView),
    Before { call: InvocationView, next: nat, count: nat },
    Handle { call: InvocationView, count: nat },
    After { call: InvocationView, output: JsonView, next: nat, count: nat },
    Respond(QefroResponseView),
}

impl DeepView for InvokeStep {
    type V = InvokeStepView;

    open spec fn deep_view(&self) -> InvokeStepView {
        match self {
            InvokeStep::Lookup(call, ctx) => InvokeStepView::Lookup(
                call.deep_view(),
                ctx.deep_view(),
            ),
            InvokeStep::Authorize(call, ctx) => InvokeStepView::Authorize(
                call.deep_view(),
                ctx.deep_view(),
            ),
            InvokeStep::Before { call, next, count } => InvokeStepView::Before {
                call: call.deep_view(),
                next: *next as nat,
                count: *count as nat,
            },
            InvokeStep::Handle { call, count } => InvokeStepView::Handle {
                call: call.deep_view(),
                count: *count as nat,
            },
            InvokeStep::After { call, output, next, count } => InvokeStepView::After {
                call: call.deep_view(),
                output: output.deep_view(),
                next: *next as nat,
                count: *count as nat,
            },
            InvokeStep::Respond(response) => InvokeStepView::Respond(response.deep_view()),
        }
    }
}

impl InvocationView {
    /// The call as it waits for the answer to a challenge.
    pub open spec fn pending(self) -> PendingInvocationView {
        PendingInvocationView {
            tool: self.tool,
            conversation_id: self.api.conversation_id,
            parameters: self.api.parameters,
            identity: self.identity,
            channel: self.api.channel,
        }
    }

    /// What the handler and the hooks are given.
    pub open spec fn context(self) -> ToolContextView {
        ToolContextView {
            identity: self.api.identity,
            parameters: self.api.parameters,
            conversation: ConversationView { id: self.api.conversation_id },
            channel: self.api.channel,
            authentication: self.authentication,
            auth_response: self.api.auth_response,
            customer: self.state.current,
            customer_api: Some(self.api),
        }
    }

    pub open spec fn with_state(self, state: CustomerStateView) -> InvocationView {
        InvocationView { state, ..self }
    }
}

impl PendingInvocationView {
    /// The call again, with the answer to the challenge.
    pub open spec fn resumed(
        self,
        authentication: Option<JsonView>,
        answer: Seq<char>,
    ) -> ToolCallView {
        ToolCallView {
            tool: Some(self.tool),
            parameters: self.parameters,
            conversation_id: self.conversation_id,
            identity: self.identity,
            channel: self.channel,
            authentication,
            auth_response: Some(answer),
        }
    }
}

/// The response to an error with a message.
pub open spec fn error_response(message: Seq<char>) -> QefroResponseView {
    if message == "denied"@ {
        qefro::denied_response()
    } else if message == "customer_not_found"@ {
        qefro::customer_missing_response()
    } else if message == "customer_provider_missing"@ {
        protocol::error_view(
            "configuration_error"@,
            "Tool requires customer provider. Configure app.customer(...) first."@,
        )
    } else {
        protocol::error_view("internal_error"@, message)
    }
}

/// The response to an error of a call, and what it leaves in the webhook: where a
/// challenge was raised, the call waits under the token.
pub open spec fn map_error_spec(
    app: QefroView,
    e: ToolErrorView,
    call: PendingInvocationView,
    draw: Draw,
) -> (QefroView, QefroResponseView) {
    match e {
        ToolErrorView::Challenge(signal) => (
            app.with_pending(draw.token_text(), call),
            QefroResponseView::Challenge {
                resume_token: draw.token_text(),
                challenge: signal.challenge,
            },
        ),
        ToolErrorView::Message(message) => (app, error_response(message)),
    }
}

pub open spec fn fail_spec(
    app: QefroView,
    call: InvocationView,
    e: ToolErrorView,
    draw: Draw,
) -> (QefroView, InvokeStepView) {
    let (after, response) = map_error_spec(app, e, call.pending(), draw);
    (after, InvokeStepView::Respond(response))
}

/// A call of a tool at its start. A customer that is authorized in the
/// conversation is known from the start.
pub open spec fn invocation(
    app: QefroView,
    tool: ToolMetadataView,
    call: ToolCallView,
    name: Seq<char>,
    now_ms: i64,
) -> InvocationView {
    InvocationView {
        tool: name,
        method: tool.default_auth_method,
        identity: call.identity,
        authentication: call.authentication,
        api: CustomerApiView {
            identity: match call.identity {
                Some(identity) => identity,
                None => json::empty_object(),
            },
            parameters: call.parameters,
            conversation_id: call.conversation_id,
            channel: call.channel,
            auth_response: call.auth_response,
        },
        state: match app.fresh_auth(call.conversation_id, now_ms) {
            Some(stored) => customer::state_after_lookup(Some(stored.customer)),
            None => CustomerStateView { current: None, lookup_completed: false },
        },
    }
}

/// The hooks before the tool, from one on; then the handler.
pub open spec fn before_step(
    app: QefroView,
    call: InvocationView,
    next: nat,
    count: nat,
) -> InvokeStepView {
    if next < count {
        InvokeStepView::Before { call, next, count }
    } else {
        InvokeStepView::Handle { call, count: app.middlewares }
    }
}

/// The hooks after the tool, from one on; then the response.
pub open spec fn after_step(
    app: QefroView,
    call: InvocationView,
    output: JsonView,
    next: nat,
    count: nat,
    now_ms: i64,
) -> InvokeStepView {
    if next < count {
        InvokeStepView::After { call, output, next, count }
    } else {
        InvokeStepView::Respond(
            QefroResponseView::Result {
                output,
                authentication_context: match app.fresh_auth(call.api.conversation_id, now_ms) {
                    Some(stored) => Some(stored.auth),
                    None => None,
                },
            },
        )
    }
}

/// The step of a call after a step of its authorization.
pub open spec fn authorize_step(
    app: QefroView,
    call: InvocationView,
    step: Result<AuthorizeStepView, ToolErrorView>,
    draw: Draw,
) -> (QefroView, InvokeStepView) {
    match step {
        Ok(AuthorizeStepView::Done(_)) => (app, before_step(app, call, 0, app.before_hooks)),
        Ok(AuthorizeStepView::Lookup(ctx)) => (app, InvokeStepView::Lookup(call, ctx)),
        Ok(AuthorizeStepView::Authorize(ctx)) => (app, InvokeStepView::Authorize(call, ctx)),
        Err(e) => fail_spec(app, call, e, draw),
    }
}

/// The first step of a call.
pub open spec fn invoke_spec(app: QefroView, call: ToolCallView, draw: Draw) -> (
    QefroView,
    InvokeStepView,
) {
    match call.tool {
        None => (
            app,
            InvokeStepView::Respond(protocol::error_view("invalid_request"@, "tool is required"@)),
        ),
        Some(name) => match qefro::find_tool(app.tools, name) {
            None => (
                app,
                InvokeStepView::Respond(
                    protocol::error_view("not_found"@, "Unknown tool: "@ + name),
                ),
            ),
            Some(tool) => {
                let call = invocation(app, tool, call, name, draw.now_ms);
                if tool.auth == ToolAuthMode::Required {
                    let (state, step) = call.api.authorize_spec(
                        app,
                        call.state,
                        call.method,
                        draw.now_ms,
                    );
                    authorize_step(app, call.with_state(state), step, draw)
                } else {
                    (app, before_step(app, call, 0, app.before_hooks))
                }
            },
        },
    }
}

/// The step of a call after the provider looked the customer up.
pub open spec fn looked_up_spec(
    app: QefroView,
    call: InvocationView,
    found: Result<Option<JsonView>, ToolErrorView>,
    draw: Draw,
) -> (QefroView, InvokeStepView) {
    authorize_step(
        app,
        call.with_state(customer::state_after_asking(call.state, found)),
        call.api.authorize_answered(call.method, found),
        draw,
    )
}

/// The step of a call after the provider was asked to authorize the customer.
pub open spec fn authorized_spec(
    app: QefroView,
    call: InvocationView,
    outcome: Result<AuthOutcomeView, ToolErrorView>,
    draw: Draw,
) -> (QefroView, InvokeStepView) {
    match outcome {
        Ok(o) => {
            let (after, result) = qefro::consume_spec(
                app,
                o,
                call.api.conversation_id,
                None,
                draw,
            );
            let call = call.with_state(qefro::state_after_outcome(call.state, o));
            match result {
                Ok(_) => (after, before_step(after, call, 0, after.before_hooks)),
                Err(e) => fail_spec(after, call, e, draw),
            }
        },
        Err(e) => fail_spec(app, call, e, draw),
    }
}

/// The step of a call after a hook before the tool.
pub open spec fn before_done_spec(
    app: QefroView,
    call: InvocationView,
    next: nat,
    count: nat,
    result: Result<(), ToolErrorView>,
    draw: Draw,
) -> (QefroView, InvokeStepView) {
    match result {
        Ok(_) => (app, before_step(app, call, next + 1, count)),
        Err(e) => fail_spec(app, call, e, draw),
    }
}

/// The step of a call after the handler.
pub open spec fn handled_spec(
    app: QefroView,
    call: InvocationView,
    result: Result<JsonView, ToolErrorView>,
    draw: Draw,
) -> (QefroView, InvokeStepView) {
    match result {
        Ok(output) => (app, after_step(app, call, output, 0, app.after_hooks, draw.now_ms)),
        Err(e) => fail_spec(app, call, e, draw),
    }
}

/// The step of a call after a hook after the tool.
pub open spec fn after_done_spec(
    app: QefroView,
    call: InvocationView,
    next: nat,
    count: nat,
    result: Result<JsonView, ToolErrorView>,
    draw: Draw,
) -> (QefroView, InvokeStepView) {
    match result {
        Ok(output) => (app, after_step(app, call, output, next + 1, count, draw.now_ms)),
        Err(e) => fail_spec(app, call, e, draw),
    }
}

/// The response to an error with a message.
pub fn respond_to_error(message: &str) -> (r: QefroResponse)
    ensures
        r.deep_view() == error_response(message@),
{
    if same_text(message, "denied") {
        QefroResponse::error("denied", "Authentication denied")
    } else if same_text(message, "customer_not_found") {
        QefroResponse::error("customer_not_found", "Customer not found")
    } else if same_text(message, "customer_provider_missing") {
        QefroResponse::error(
            "configuration_error",
            "Tool requires customer provider. Configure app.customer(...) first.",
        )
    } else {
        QefroResponse::error("internal_error", message)
    }
}

impl Invocation {
    /// The call as it waits for the answer to a challenge.
    fn pending(&self) -> (r: PendingInvocation)
        ensures
            r.deep_view() == self.deep_view().pending(),
    {
        PendingInvocation {
            tool: self.tool.clone(),
            conversation_id: self.api.conversation_id,
            parameters: self.api.parameters.clone(),
            identity: self.identity.clone(),
            channel: self.api.channel.clone(),
        }
    }

    /// What the handler and the hooks are given.
    pub fn context(&self) -> (r: ToolContext)
        ensures
            r.deep_view() == self.deep_view().context(),
    {
        ToolContext {
            identity: self.api.identity.clone(),
            parameters: self.api.parameters.clone(),
            conversation: Conversation { id: self.api.conversation_id },
            channel: self.api.channel.clone(),
            authentication: self.authentication.clone(),
            auth_response: self.api.auth_response.clone(),
            customer: self.state.current.clone(),
            customer_api: Some(self.api.clone()),
        }
    }
}

/// A layer of a call: a middleware, or the handler inside all of them.
#[derive(Debug, Clone, Copy, PartialEq, Eq, Structural)]
pub enum Layer {
    Middleware(usize),
    Handler,
}

/// The layer at a depth inside `count` middlewares.
pub open spec fn layer_at(depth: usize, count: usize) -> Layer {
    if depth < count {
        Layer::Middleware(depth)
    } else {
        Layer::Handler
    }
}

/// The layers from a depth inwards, where each middleware runs the next layer.
pub open spec fn layers_from(depth: usize, count: usize) -> Seq<Layer>
    decreases count - depth,
{
    match layer_at(depth, count) {
        Layer::Middleware(_) => seq![layer_at(depth, count)] + layers_from(
            (depth + 1) as usize,
            count,
        ),
        Layer::Handler => seq![Layer::Handler],
    }
}

/// The layer at a depth: the next one of middleware `i` is at depth `i + 1`.
pub fn dispatch(depth: usize, count: usize) -> (r: Layer)
    requires
        depth <= count,
    ensures
        r == layer_at(depth, count),
{
    if depth == count {
        Layer::Handler
    } else {
        Layer::Middleware(depth)
    }
}

impl<P, H, M, B, A> Qefro<P, H, M, B, A> {
    /// Answers an error of a call.
    pub fn map_invoke_error(&mut self, e: ToolError, call: PendingInvocation, draw: Draw) -> (r:
        QefroResponse)
        ensures
            (final(self)@, r.deep_view()) == map_error_spec(
                old(self)@,
                e.deep_view(),
                call.deep_view(),
                draw,
            ),
            final(self).same_code(old(self)),
    {
        match e {
            ToolError::Challenge(signal) => {
                let resume_token = uuid_text(draw.token);
                self.stash(resume_token.clone(), call);
                QefroResponse::Challenge { resume_token, challenge: signal.challenge }
            },
            ToolError::Message(message) => respond_to_error(message.as_str()),
        }
    }

    fn fail(&mut self, call: Invocation, e: ToolError, draw: Draw) -> (r: InvokeStep)
        ensures
            (final(self)@, r.deep_view()) == fail_spec(
                old(self)@,
                call.deep_view(),
                e.deep_view(),
                draw,
            ),
            final(self).same_code(old(self)),
    {
        InvokeStep::Respond(self.map_invoke_error(e, call.pending(), draw))
    }

    fn run_before(&self, call: Invocation, next: usize, count: usize) -> (r: InvokeStep)
        ensures
            r.deep_view() == before_step(self@, call.deep_view(), next as nat, count as nat),
    {
        if next < count {
            InvokeStep::Before { call, next, count }
        } else {
            InvokeStep::Handle { call, count: self.middlewares.len() }
        }
    }

    fn run_after(
        &self,
        call: Invocation,
        output: JsonValue,
        next: usize,
        count: usize,
        now_ms: i64,
    ) -> (r: InvokeStep)
        ensures
            r.deep_view() == after_step(
                self@,
                call.deep_view(),
                output.deep_view(),
                next as nat,
                count as nat,
                now_ms,
            ),
    {
        if next < count {
            InvokeStep::After { call, output, next, count }
        } else {
            let authentication_context = match self.fresh_auth(call.api.conversation_id, now_ms) {
                Some(stored) => Some(stored.auth.clone()),
                None => None,
            };
            InvokeStep::Respond(QefroResponse::Result { output, authentication_context })
        }
    }

    fn go_on(
        &mut self,
        call: Invocation,
        step: Result<AuthorizeStep, ToolError>,
        draw: Draw,
    ) -> (r: InvokeStep)
        ensures
            (final(self)@, r.deep_view()) == authorize_step(
                old(self)@,
                call.deep_view(),
                auth::result_view(step),
                draw,
            ),
            final(self).same_code(old(self)),
    {
        match step {
            Ok(AuthorizeStep::Done(_)) => self.run_before(call, 0, self.before_hooks.len()),
            Ok(AuthorizeStep::Lookup(ctx)) => InvokeStep::Lookup(call, ctx),
            Ok(AuthorizeStep::Authorize(ctx)) => InvokeStep::Authorize(call, ctx),
            Err(e) => self.fail(call, e, draw),
        }
    }

    /// Begins a call of a tool.
    pub fn invoke(&mut self, call: ToolCall, draw: Draw) -> (r: InvokeStep)
        ensures
            (final(self)@, r.deep_view()) == invoke_spec(old(self)@, call.deep_view(), draw),
            final(self).same_code(old(self)),
    {
        let name = match call.tool {
            Some(name) => name,
            None => {
                return InvokeStep::Respond(
                    QefroResponse::error("invalid_request", "tool is required"),
                );
            },
        };
        let found: usize = match self.index_of(name.as_str()) {
            Some(i) => i,
            None => {
                return InvokeStep::Respond(
                    QefroResponse::error("not_found", join("Unknown tool: ", name.as_str()).as_str()),
                );
            },
        };
        let required: bool = match self.tools[found].metadata.auth {
            ToolAuthMode::Required => true,
            _ => false,
        };
        let method = self.tools[found].metadata.default_auth_method.clone();
        let state = match self.fresh_auth(call.conversation_id, draw.now_ms) {
            Some(stored) => CustomerState {
                current: Some(stored.customer.clone()),
                lookup_completed: true,
            },
            None => CustomerState { current: None, lookup_completed: false },
        };
        let identity = match &call.identity {
            Some(identity) => identity.clone(),
            None => JsonValue::empty_object(),
        };
        let mut invocation = Invocation {
            tool: name,
            method,
            identity: call.identity,
            authentication: call.authentication,
            api: CustomerApi {
                identity,
                parameters: call.parameters,
                conversation_id: call.conversation_id,
                channel: call.channel,
                auth_response: call.auth_response,
            },
            state,
        };
        if required {
            let method = invocation.method.clone();
            let step = invocation.api.authorize_at(
                self,
                &mut invocation.state,
                method,
                draw.now_ms,
            );
            self.go_on(invocation, step, draw)
        } else {
            self.run_before(invocation, 0, self.before_hooks.len())
        }
    }

    /// Goes on after the provider looked the customer up.
    pub fn invoke_looked_up(
        &mut self,
        call: Invocation,
        found: Result<Option<JsonValue>, ToolError>,
        draw: Draw,
    ) -> (r: InvokeStep)
        ensures
            (final(self)@, r.deep_view()) == looked_up_spec(
                old(self)@,
                call.deep_view(),
                auth::result_view(found),
                draw,
            ),
            final(self).same_code(old(self)),
    {
        let mut call = call;
        let method = call.method.clone();
        let step = call.api.authorize_looked_up(&mut call.state, method, found);
        self.go_on(call, step, draw)
    }

    /// Goes on after the provider was asked to authorize the customer.
    pub fn invoke_authorized(
        &mut self,
        call: Invocation,
        outcome: Result<AuthOutcome, ToolError>,
        draw: Draw,
    ) -> (r: InvokeStep)
        requires
            match outcome {
                Ok(o) => qefro::expiry_fits(o.deep_view(), draw.now_ms as int),
                Err(_) => true,
            },
        ensures
            (final(self)@, r.deep_view()) == authorized_spec(
                old(self)@,
                call.deep_view(),
                auth::result_view(outcome),
                draw,
            ),
            final(self).same_code(old(self)),
    {
        match outcome {
            Ok(o) => {
                let mut call = call;
                match call.api.authorized_at(self, &mut call.state, o, draw) {
                    Ok(_) => self.run_before(call, 0, self.before_hooks.len()),
                    Err(e) => self.fail(call, e, draw),
                }
            },
            Err(e) => self.fail(call, e, draw),
        }
    }

    /// Goes on after hook `next` of `count` before the tool.
    pub fn invoke_before_done(
        &mut self,
        call: Invocation,
        next: usize,
        count: usize,
        result: Result<(), ToolError>,
        draw: Draw,
    ) -> (r: InvokeStep)
        requires
            next < count,
        ensures
            (final(self)@, r.deep_view()) == before_done_spec(
                old(self)@,
                call.deep_view(),
                next as nat,
                count as nat,
                auth::result_view(result),
                draw,
            ),
            final(self).same_code(old(self)),
    {
        match result {
            Ok(_) => self.run_before(call, next + 1, count),
            Err(e) => self.fail(call, e, draw),
        }
    }

    /// Goes on after the handler.
    pub fn invoke_handled(
        &mut self,
        call: Invocation,
        result: Result<JsonValue, ToolError>,
        draw: Draw,
    ) -> (r: InvokeStep)
        ensures
            (final(self)@, r.deep_view()) == handled_spec(
                old(self)@,
                call.deep_view(),
                auth::result_view(result),
                draw,
            ),
            final(self).same_code(old(self)),
    {
        match result {
            Ok(output) => self.run_after(call, output, 0, self.after_hooks.len(), draw.now_ms),
            Err(e) => self.fail(call, e, draw),
        }
    }

    /// Goes on after hook `next` of `count` after the tool.
    pub fn invoke_after_done(
        &mut self,
        call: Invocation,
        next: usize,
        count: usize,
        result: Result<JsonValue, ToolError>,
        draw: Draw,
    ) -> (r: InvokeStep)
        requires
            next < count,
        ensures
            (final(self)@, r.deep_view()) == after_done_spec(
                old(self)@,
                call.deep_view(),
                next as nat,
                count as nat,
                auth::result_view(result),
                draw,
            ),
            final(self).same_code(old(self)),
    {
        match result {
            Ok(output) => self.run_after(call, output, next + 1, count, draw.now_ms),
            Err(e) => self.fail(call, e, draw),
        }
    }
}

/// Where every middleware runs the next layer, a call passes each middleware once,
/// in the order in which they were added, and then the handler.
pub proof fn law_layers(depth: usize, count: usize)
    requires
        depth <= count,
    ensures
        layers_from(depth, count).len() == count - depth + 1,
        forall|i: int|
            0 <= i < count - depth ==> #[trigger] layers_from(depth, count)[i]
                == Layer::Middleware((depth + i) as usize),
        layers_from(depth, count).last() == Layer::Handler,
    decreases count - depth,
{
    if depth < count {
        law_layers((depth + 1) as usize, count);
        let inner = layers_from((depth + 1) as usize, count);
        let all = layers_from(depth, count);
        assert(all =~= seq![Layer::Middleware(depth)] + inner);
        assert forall|i: int| 0 <= i < count - depth implies #[trigger] all[i]
            == Layer::Middleware((depth + i) as usize) by {
            if i > 0 {
                assert(all[i] == inner[i - 1]);
            }
        }
    }
}

/// The first step of a call leaves the webhook as it is.
pub proof fn law_invoke_keeps(app: QefroView, call: ToolCallView, draw: Draw)
    ensures
        invoke_spec(app, call, draw).0 == app,
{
}

/// No step of a call changes the configuration or what was registered.
pub proof fn law_steps_keep_setup(
    app: QefroView,
    call: InvocationView,
    found: Result<Option<JsonView>, ToolErrorView>,
    outcome: Result<AuthOutcomeView, ToolErrorView>,
    hook: Result<(), ToolErrorView>,
    output: Result<JsonView, ToolErrorView>,
    next: nat,
    count: nat,
    draw: Draw,
)
    ensures
        looked_up_spec(app, call, found, draw).0.same_setup(app),
        authorized_spec(app, call, outcome, draw).0.same_setup(app),
        before_done_spec(app, call, next, count, hook, draw).0.same_setup(app),
        handled_spec(app, call, output, draw).0.same_setup(app),
        after_done_spec(app, call, next, count, output, draw).0.same_setup(app),
{
}

/// A challenge leaves the calls that wait under other tokens as they are, and
/// every error leaves the customers that are authorized.
pub proof fn law_error_keeps_others(
    app: QefroView,
    e: ToolErrorView,
    call: PendingInvocationView,
    draw: Draw,
    other: Seq<char>,
)
    requires
        other != draw.token_text(),
    ensures
        map_error_spec(app, e, call, draw).0.pending.contains_key(other)
            == app.pending.contains_key(other),
        app.pending.contains_key(other) ==> map_error_spec(app, e, call, draw).0.pending[other]
            == app.pending[other],
        map_error_spec(app, e, call, draw).0.auth == app.auth,
{
}

/// A tool that needs an authorized customer is not run before there is one: the
/// first step of its call is to ask the provider, or an answer that is no output,
/// unless the customer is authorized in the conversation. Then the call goes on
/// with that customer, and nobody is asked.
pub proof fn law_required_tool(
    app: QefroView,
    call: ToolCallView,
    name: Seq<char>,
    tool: ToolMetadataView,
    draw: Draw,
)
    requires
        call.tool == Some(name),
        qefro::find_tool(app.tools, name) == Some(tool),
        tool.auth == ToolAuthMode::Required,
    ensures
        match app.fresh_auth(call.conversation_id, draw.now_ms) {
            Some(stored) if app.has_provider => {
                let started = invocation(app, tool, call, name, draw.now_ms);
                &&& started.context().customer == Some(stored.customer)
                &&& invoke_spec(app, call, draw).1 == before_step(app, started, 0, app.before_hooks)
            },
            None if app.has_provider => {
                let started = invocation(app, tool, call, name, draw.now_ms);
                invoke_spec(app, call, draw).1 == InvokeStepView::Lookup(
                    started,
                    started.api.lookup_context(started.api.identity),
                )
            },
            _ => invoke_spec(app, call, draw).1 == InvokeStepView::Respond(
                error_response("customer_provider_missing"@),
            ),
        },
{
}

/// A tool that needs an authorized customer runs only after the provider said
/// that the customer is authorized: every other outcome is answered. An outcome
/// of success is kept, and the call goes on with its customer.
pub proof fn law_authorization_decides(
    app: QefroView,
    call: InvocationView,
    outcome: Result<AuthOutcomeView, ToolErrorView>,
    draw: Draw,
)
    ensures
        match outcome {
            Ok(AuthOutcomeView::Success { customer, auth }) => {
                let (after, step) = authorized_spec(app, call, outcome, draw);
                let known = call.with_state(customer::state_after_lookup(Some(customer)));
                &&& after == app.with_auth(
                    call.api.conversation_id,
                    qefro::stored_auth(customer, auth, draw.now_ms),
                )
                &&& step == before_step(after, known, 0, after.before_hooks)
                &&& known.context().customer == Some(customer)
            },
            _ => authorized_spec(app, call, outcome, draw).1 is Respond && !(authorized_spec(
                app,
                call,
                outcome,
                draw,
            ).1->Respond_0 is Result),
        },
{
}

/// An authorization that a call needs is answered as one that a handler asks for
/// by itself: with the same challenge and token, and the same errors; and the same
/// call waits.
pub proof fn law_authorization_answers_agree(
    app: QefroView,
    call: InvocationView,
    outcome: AuthOutcomeView,
    draw: Draw,
)
    requires
        !(outcome is Success),
    ensures
        ({
            let (after, answer) = qefro::require_spec(app, outcome, call.pending(), draw);
            authorized_spec(app, call, Ok(outcome), draw) == (
                after,
                InvokeStepView::Respond(answer->Err_0),
            )
        }),
{
    reveal_strlit("denied");
    reveal_strlit("customer_not_found");
    assert("denied"@.len() != "customer_not_found"@.len());
}

/// The output of a call carries the credential with which its customer was
/// authorized until it expires, and none afterwards.
pub proof fn law_output_carries_credential(
    app: QefroView,
    call: InvocationView,
    customer: JsonView,
    auth: AuthenticationContextPayloadView,
    output: JsonView,
    count: nat,
    draw: Draw,
    now_ms: i64,
)
    requires
        qefro::expiry_fits(AuthOutcomeView::Success { customer, auth }, draw.now_ms as int),
    ensures
        ({
            let outcome = Ok(AuthOutcomeView::Success { customer, auth });
            let (after, _) = authorized_spec(app, call, outcome, draw);
            after_step(after, call, output, count, count, now_ms) == InvokeStepView::Respond(
                QefroResponseView::Result {
                    output,
                    authentication_context: if now_ms < draw.now_ms + qefro::lifetime_secs(auth)
                        * 1000 {
                        Some(auth)
                    } else {
                        None
                    },
                },
            )
        }),
{
}

} // verus!

