//! Laws of tool calls: what is run, with what, and what is answered.

use crate::auth::{
    AuthOutcomeView, AuthenticationContextPayloadView, ChallengeSignalView, ToolErrorView,
};
use crate::customer;
use crate::customer::{AuthorizeStepView, CustomerApiView, LookupStepView};
use crate::customer_hub::CustomerStateView;
use crate::invoke;
use crate::invoke::{InvocationView, InvokeStepView, Layer, ToolCallView};
use crate::json::JsonView;
use crate::protocol::QefroResponseView;
use crate::qefro;
use crate::qefro::{PendingInvocationView, QefroView, StoredAuthView};
use crate::source;
use crate::source::Draw;
use crate::text;
use crate::tools::ToolAuthMode;
use vstd::prelude::*;

verus! {

/// A call under way is the one that was asked for, of its tool, with its identity,
/// parameters, conversation, channel, authentication and answer.
pub open spec fn is_call_of(call: InvocationView, asked: ToolCallView) -> bool {
    &&& asked.tool == Some(call.tool)
    &&& call.identity == asked.identity
    &&& call.authentication == asked.authentication
    &&& call.api.parameters == asked.parameters
    &&& call.api.conversation_id == asked.conversation_id
    &&& call.api.channel == asked.channel
    &&& call.api.auth_response == asked.auth_response
    &&& asked.identity is Some ==> call.api.identity == asked.identity->0
    &&& asked.identity is None ==> call.api.identity == JsonView::Object(Map::empty())
}

/// The next step is the first hook before the tool, or the handler inside all the
/// middlewares where there is no such hook.
pub open spec fn runs(app: QefroView, step: InvokeStepView, call: InvocationView) -> bool {
    &&& app.before_hooks > 0 ==> step == (InvokeStepView::Before {
        call,
        next: 0,
        count: app.before_hooks,
    })
    &&& app.before_hooks == 0 ==> step == (InvokeStepView::Handle { call, count: app.middlewares })
}

/// The webhook is the same, but for one call that waits under a token.
pub open spec fn only_waits(
    app: QefroView,
    after: QefroView,
    token: Seq<char>,
    waiting: PendingInvocationView,
) -> bool {
    &&& after.pending == app.pending.insert(token, waiting)
    &&& after.auth == app.auth
    &&& after.config == app.config
    &&& after.tools == app.tools
    &&& after.marketing == app.marketing
    &&& after.has_provider == app.has_provider
    &&& after.middlewares == app.middlewares
    &&& after.before_hooks == app.before_hooks
    &&& after.after_hooks == app.after_hooks
}

/// The webhook is the same, but for one customer that is authorized in a
/// conversation, from an instant on for the lifetime of the credential: the seconds
/// that it says, one at least, or 900 where it says none.
pub open spec fn only_authorizes(
    app: QefroView,
    after: QefroView,
    conversation_id: u128,
    customer: JsonView,
    auth: AuthenticationContextPayloadView,
    now_ms: i64,
) -> bool {
    &&& after.auth.dom() == app.auth.dom().insert(conversation_id)
    &&& forall|other: u128|
        other != conversation_id && app.auth.contains_key(other)
            ==> #[trigger] after.auth[other] == app.auth[other]
    &&& after.auth[conversation_id].customer == customer
    &&& after.auth[conversation_id].auth == auth
    &&& auth.expires_in is None ==> after.auth[conversation_id].expires_at_epoch_ms == now_ms
        + 900_000
    &&& auth.expires_in is Some && auth.expires_in->0 >= 1
        ==> after.auth[conversation_id].expires_at_epoch_ms == now_ms + auth.expires_in->0 * 1000
    &&& auth.expires_in is Some && auth.expires_in->0 < 1
        ==> after.auth[conversation_id].expires_at_epoch_ms == now_ms + 1000
    &&& after.pending == app.pending
    &&& after.config == app.config
    &&& after.tools == app.tools
    &&& after.marketing == app.marketing
    &&& after.has_provider == app.has_provider
    &&& after.middlewares == app.middlewares
    &&& after.before_hooks == app.before_hooks
    &&& after.after_hooks == app.after_hooks
}

/// An error of a call is answered: a challenge with its token, while the call waits
/// under it; the known errors with their codes; any other with its message.
pub open spec fn is_answered(
    app: QefroView,
    after: QefroView,
    response: QefroResponseView,
    e: ToolErrorView,
    waiting: PendingInvocationView,
    draw: Draw,
) -> bool {
    match e {
        ToolErrorView::Challenge(signal) => {
            &&& only_waits(app, after, source::uuid_spec(draw.token), waiting)
            &&& response is Challenge
            &&& response->Challenge_resume_token == source::uuid_spec(draw.token)
            &&& response->Challenge_challenge == signal.challenge
        },
        ToolErrorView::Message(m) => {
            &&& after == app
            &&& response is Error
            &&& m == "denied"@ ==> response->Error_code == "denied"@ && response->Error_message
                == "Authentication denied"@
            &&& m == "customer_not_found"@ ==> response->Error_code == "customer_not_found"@
                && response->Error_message == "Customer not found"@
            &&& m == "customer_provider_missing"@ ==> response->Error_code
                == "configuration_error"@ && response->Error_message
                == "Tool requires customer provider. Configure app.customer(...) first."@
            &&& m != "denied"@ && m != "customer_not_found"@ && m != "customer_provider_missing"@
                ==> response->Error_code == "internal_error"@ && response->Error_message == m
        },
    }
}

/// A step answers an error of a call under way.
pub open spec fn is_failure(
    app: QefroView,
    next: (QefroView, InvokeStepView),
    e: ToolErrorView,
    call: InvocationView,
    draw: Draw,
) -> bool {
    &&& next.1 is Respond
    &&& is_answered(
        app,
        next.0,
        next.1->Respond_0,
        e,
        PendingInvocationView {
            tool: call.tool,
            conversation_id: call.api.conversation_id,
            parameters: call.api.parameters,
            identity: call.identity,
            channel: call.api.channel,
        },
        draw,
    )
}

proof fn lemma_error_names()
    ensures
        "denied"@ != "customer_not_found"@,
        "denied"@ != "customer_provider_missing"@,
        "customer_not_found"@ != "customer_provider_missing"@,
{
    reveal_strlit("denied");
    reveal_strlit("customer_not_found");
    reveal_strlit("customer_provider_missing");
    assert("denied"@.len() == 6);
    assert("customer_not_found"@.len() == 18);
    assert("customer_provider_missing"@.len() == 25);
}

proof fn lemma_found(app: QefroView, i: int)
    requires
        0 <= i < app.tools.len(),
        forall|j: int|
            0 <= j < app.tools.len() && j != i ==> (#[trigger] app.tools[j]).name
                != app.tools[i].name,
    ensures
        qefro::find_tool(app.tools, app.tools[i].name) == Some(app.tools[i]),
{
    qefro::lemma_tool_index(app.tools, app.tools[i].name);
}

/// A tool that does not require authorization runs at once, with a provider or
/// without: nobody is asked and nothing is refused. It is given what was asked for,
/// and the customer that is authorized in the conversation, where there is one.
pub proof fn law_open_tool_runs(app: QefroView, asked: ToolCallView, i: int, draw: Draw)
    requires
        0 <= i < app.tools.len(),
        forall|j: int|
            0 <= j < app.tools.len() && j != i ==> (#[trigger] app.tools[j]).name
                != app.tools[i].name,
        asked.tool == Some(app.tools[i].name),
        app.tools[i].auth != ToolAuthMode::Required,
    ensures
        ({
            let (after, step) = invoke::invoke_spec(app, asked, draw);
            let conversation = asked.conversation_id;
            &&& after == app
            &&& exists|call: InvocationView| #[trigger]
                runs(app, step, call) && is_call_of(call, asked) && (if app.auth.contains_key(
                    conversation,
                ) && app.auth[conversation].expires_at_epoch_ms > draw.now_ms {
                    call.state.current == Some(app.auth[conversation].customer)
                        && call.state.lookup_completed
                } else {
                    call.state.current is None && !call.state.lookup_completed
                })
        }),
{
    lemma_found(app, i);
    let call = invoke::invocation(app, app.tools[i], asked, app.tools[i].name, draw.now_ms);
    assert(runs(app, invoke::invoke_spec(app, asked, draw).1, call));
}

/// A tool that requires authorization does not run without it. Without a provider
/// the call is refused; with a customer that is authorized in the conversation the
/// tool runs for that customer; otherwise the provider is asked first, for the
/// identity, parameters, conversation and channel of the call.
pub proof fn law_closed_tool_waits(app: QefroView, asked: ToolCallView, i: int, draw: Draw)
    requires
        0 <= i < app.tools.len(),
        forall|j: int|
            0 <= j < app.tools.len() && j != i ==> (#[trigger] app.tools[j]).name
                != app.tools[i].name,
        asked.tool == Some(app.tools[i].name),
        app.tools[i].auth == ToolAuthMode::Required,
    ensures
        ({
            let (after, step) = invoke::invoke_spec(app, asked, draw);
            let conversation = asked.conversation_id;
            let known = app.auth.contains_key(conversation)
                && app.auth[conversation].expires_at_epoch_ms > draw.now_ms;
            &&& after == app
            &&& !app.has_provider ==> step is Respond && step->Respond_0 is Error
                && step->Respond_0->Error_code == "configuration_error"@
                && step->Respond_0->Error_message
                == "Tool requires customer provider. Configure app.customer(...) first."@
            &&& app.has_provider && known ==> exists|call: InvocationView| #[trigger]
                runs(app, step, call) && is_call_of(call, asked) && call.state.current == Some(
                    app.auth[conversation].customer,
                ) && call.state.lookup_completed
            &&& app.has_provider && !known ==> {
                &&& step is Lookup
                &&& is_call_of(step->Lookup_0, asked)
                &&& step->Lookup_0.method == app.tools[i].default_auth_method
                &&& step->Lookup_0.state.current is None
                &&& step->Lookup_1.parameters == asked.parameters
                &&& step->Lookup_1.conversation.id == asked.conversation_id
                &&& step->Lookup_1.channel == asked.channel
                &&& asked.identity is Some ==> step->Lookup_1.identity == asked.identity->0
                &&& asked.identity is None ==> step->Lookup_1.identity == JsonView::Object(
                    Map::empty(),
                )
            }
        }),
{
    lemma_found(app, i);
    lemma_error_names();
    let call = invoke::invocation(app, app.tools[i], asked, app.tools[i].name, draw.now_ms);
    if app.has_provider && app.fresh_auth(asked.conversation_id, draw.now_ms) is Some {
        assert(runs(app, invoke::invoke_spec(app, asked, draw).1, call));
    }
}

/// A call without a tool, or of a tool that is not registered, is refused.
pub proof fn law_unknown_tool_refused(app: QefroView, asked: ToolCallView, draw: Draw)
    requires
        asked.tool is Some ==> forall|j: int|
            0 <= j < app.tools.len() ==> (#[trigger] app.tools[j]).name != asked.tool->0,
    ensures
        ({
            let (after, step) = invoke::invoke_spec(app, asked, draw);
            &&& after == app
            &&& step is Respond
            &&& step->Respond_0 is Error
            &&& asked.tool is None ==> step->Respond_0->Error_code == "invalid_request"@
                && step->Respond_0->Error_message == "tool is required"@
            &&& asked.tool is Some ==> step->Respond_0->Error_code == "not_found"@
                && step->Respond_0->Error_message == "Unknown tool: "@ + asked.tool->0
        }),
{
    if let Some(name) = asked.tool {
        qefro::lemma_tool_index(app.tools, name);
    }
}

/// After the lookup the customer that was found is authorized: the provider is
/// given that customer, the method of the tool, the answer to an earlier challenge,
/// and the identity, parameters, conversation and channel of the call. Without a
/// customer, or where the lookup failed, the call is answered.
pub proof fn law_found_customer_is_authorized(
    app: QefroView,
    call: InvocationView,
    found: Result<Option<JsonView>, ToolErrorView>,
    draw: Draw,
)
    ensures
        ({
            let next = invoke::looked_up_spec(app, call, found, draw);
            match found {
                Ok(Some(c)) => {
                    &&& next.0 == app
                    &&& next.1 is Authorize
                    &&& next.1->Authorize_1.customer == c
                    &&& next.1->Authorize_1.method == call.method
                    &&& next.1->Authorize_1.response == call.api.auth_response
                    &&& next.1->Authorize_1.identity == call.api.identity
                    &&& next.1->Authorize_1.parameters == call.api.parameters
                    &&& next.1->Authorize_1.conversation.id == call.api.conversation_id
                    &&& next.1->Authorize_1.channel == call.api.channel
                    &&& next.1->Authorize_0.tool == call.tool
                    &&& next.1->Authorize_0.method == call.method
                    &&& next.1->Authorize_0.identity == call.identity
                    &&& next.1->Authorize_0.authentication == call.authentication
                    &&& next.1->Authorize_0.api == call.api
                    &&& next.1->Authorize_0.state.current == Some(c)
                    &&& next.1->Authorize_0.state.lookup_completed
                },
                Ok(None) => is_failure(
                    app,
                    next,
                    ToolErrorView::Message("customer_not_found"@),
                    call,
                    draw,
                ),
                Err(e) => is_failure(app, next, e, call, draw),
            }
        }),
{
    lemma_error_names();
}

/// From the request to the authorization: what the provider is given to authorize
/// is what the call was asked with, and the customer is the one that it found.
pub proof fn law_authorized_with_what_was_asked(
    app: QefroView,
    asked: ToolCallView,
    first: Draw,
    later: QefroView,
    customer: JsonView,
    second: Draw,
)
    requires
        invoke::invoke_spec(app, asked, first).1 is Lookup,
    ensures
        ({
            let call = invoke::invoke_spec(app, asked, first).1->Lookup_0;
            let step = invoke::looked_up_spec(later, call, Ok(Some(customer)), second).1;
            &&& step is Authorize
            &&& step->Authorize_1.customer == customer
            &&& step->Authorize_1.parameters == asked.parameters
            &&& step->Authorize_1.conversation.id == asked.conversation_id
            &&& step->Authorize_1.channel == asked.channel
            &&& step->Authorize_1.response == asked.auth_response
            &&& asked.identity is Some ==> step->Authorize_1.identity == asked.identity->0
            &&& asked.identity is None ==> step->Authorize_1.identity == JsonView::Object(
                Map::empty(),
            )
            &&& is_call_of(step->Authorize_0, asked)
        }),
{
}

/// The outcome of an authorization decides: success is kept for the conversation,
/// and the tool runs for that customer; a challenge is handed on, and the call
/// waits; a denied or unknown customer, and an error, are answered.
pub proof fn law_outcome_decides(
    app: QefroView,
    call: InvocationView,
    outcome: Result<AuthOutcomeView, ToolErrorView>,
    draw: Draw,
)
    requires
        outcome is Ok ==> qefro::expiry_fits(outcome->Ok_0, draw.now_ms as int),
    ensures
        ({
            let next = invoke::authorized_spec(app, call, outcome, draw);
            match outcome {
                Ok(AuthOutcomeView::Success { customer, auth }) => {
                    &&& only_authorizes(
                        app,
                        next.0,
                        call.api.conversation_id,
                        customer,
                        auth,
                        draw.now_ms,
                    )
                    &&& runs(
                        next.0,
                        next.1,
                        InvocationView {
                            tool: call.tool,
                            method: call.method,
                            identity: call.identity,
                            authentication: call.authentication,
                            api: call.api,
                            state: CustomerStateView {
                                current: Some(customer),
                                lookup_completed: true,
                            },
                        },
                    )
                },
                Ok(AuthOutcomeView::Challenge(challenge)) => is_failure(
                    app,
                    next,
                    ToolErrorView::Challenge(ChallengeSignalView { challenge }),
                    call,
                    draw,
                ),
                Ok(AuthOutcomeView::Denied) => is_failure(
                    app,
                    next,
                    ToolErrorView::Message("denied"@),
                    call,
                    draw,
                ),
                Ok(AuthOutcomeView::NotFound) => is_failure(
                    app,
                    next,
                    ToolErrorView::Message("customer_not_found"@),
                    call,
                    draw,
                ),
                Err(e) => is_failure(app, next, e, call, draw),
            }
        }),
{
    lemma_error_names();
    if let Ok(AuthOutcomeView::Success { customer, auth }) = outcome {
        let after = invoke::authorized_spec(app, call, outcome, draw).0;
        assert(after.auth.dom() =~= app.auth.dom().insert(call.api.conversation_id));
    }
}

/// A hook before the tool that succeeds leads to the next one, the last one to the
/// handler inside all the middlewares. The call stays as it is. A hook that fails
/// ends the call.
pub proof fn law_before_hooks_in_order(
    app: QefroView,
    call: InvocationView,
    next: nat,
    count: nat,
    result: Result<(), ToolErrorView>,
    draw: Draw,
)
    requires
        next < count,
    ensures
        ({
            let step = invoke::before_done_spec(app, call, next, count, result, draw);
            match result {
                Ok(_) => {
                    &&& step.0 == app
                    &&& next + 1 < count ==> step.1 == (InvokeStepView::Before {
                        call,
                        next: next + 1,
                        count,
                    })
                    &&& next + 1 == count ==> step.1 == (InvokeStepView::Handle {
                        call,
                        count: app.middlewares,
                    })
                },
                Err(e) => is_failure(app, step, e, call, draw),
            }
        }),
{
    lemma_error_names();
}

/// A call is answered with an output and the credential of the customer that is
/// authorized in the conversation at that instant, or none.
pub open spec fn is_output(
    app: QefroView,
    step: InvokeStepView,
    call: InvocationView,
    output: JsonView,
    now_ms: i64,
) -> bool {
    let conversation = call.api.conversation_id;
    &&& step is Respond
    &&& step->Respond_0 is Result
    &&& step->Respond_0->Result_output == output
    &&& app.auth.contains_key(conversation) && app.auth[conversation].expires_at_epoch_ms > now_ms
        ==> step->Respond_0->Result_authentication_context == Some(app.auth[conversation].auth)
    &&& !(app.auth.contains_key(conversation) && app.auth[conversation].expires_at_epoch_ms
        > now_ms) ==> step->Respond_0->Result_authentication_context is None
}

/// The output of the handler goes to the first hook after the tool, or is the
/// answer where there is none. A handler that fails ends the call.
pub proof fn law_handler_output(
    app: QefroView,
    call: InvocationView,
    result: Result<JsonView, ToolErrorView>,
    draw: Draw,
)
    ensures
        ({
            let step = invoke::handled_spec(app, call, result, draw);
            match result {
                Ok(output) => {
                    &&& step.0 == app
                    &&& app.after_hooks > 0 ==> step.1 == (InvokeStepView::After {
                        call,
                        output,
                        next: 0,
                        count: app.after_hooks,
                    })
                    &&& app.after_hooks == 0 ==> is_output(app, step.1, call, output, draw.now_ms)
                },
                Err(e) => is_failure(app, step, e, call, draw),
            }
        }),
{
    lemma_error_names();
}

/// What a hook after the tool makes of the output goes to the next hook, and what
/// the last one makes of it is the answer. A hook that fails ends the call.
pub proof fn law_after_hooks_in_order(
    app: QefroView,
    call: InvocationView,
    next: nat,
    count: nat,
    result: Result<JsonView, ToolErrorView>,
    draw: Draw,
)
    requires
        next < count,
    ensures
        ({
            let step = invoke::after_done_spec(app, call, next, count, result, draw);
            match result {
                Ok(output) => {
                    &&& step.0 == app
                    &&& next + 1 < count ==> step.1 == (InvokeStepView::After {
                        call,
                        output,
                        next: next + 1,
                        count,
                    })
                    &&& next + 1 == count ==> is_output(app, step.1, call, output, draw.now_ms)
                },
                Err(e) => is_failure(app, step, e, call, draw),
            }
        }),
{
    lemma_error_names();
}

/// The handler and the hooks are given the identity, parameters, conversation,
/// channel, authentication and answer of the call, the customer that is known, and
/// the customer side of the call.
pub proof fn law_context_of_call(call: InvocationView)
    ensures
        call.context().identity == call.api.identity,
        call.context().parameters == call.api.parameters,
        call.context().conversation.id == call.api.conversation_id,
        call.context().channel == call.api.channel,
        call.context().authentication == call.authentication,
        call.context().auth_response == call.api.auth_response,
        call.context().customer == call.state.current,
        call.context().customer_api == Some(call.api),
{
}

/// Any error of a call is answered alike, whatever raised it.
pub proof fn law_errors_answered(
    app: QefroView,
    e: ToolErrorView,
    waiting: PendingInvocationView,
    draw: Draw,
)
    ensures
        ({
            let (after, response) = invoke::map_error_spec(app, e, waiting, draw);
            is_answered(app, after, response, e, waiting, draw)
        }),
        e matches ToolErrorView::Message(m) ==> invoke::error_response(m)
            == invoke::map_error_spec(app, e, waiting, draw).1,
{
    lemma_error_names();
}

/// A layer of a call at a depth is the middleware of that number, and inside all of
/// them is the handler.
pub proof fn law_layer_at(depth: usize, count: usize)
    requires
        depth <= count,
    ensures
        depth < count ==> invoke::layer_at(depth, count) == Layer::Middleware(depth),
        depth == count ==> invoke::layer_at(depth, count) == Layer::Handler,
{
}

/// A lookup asks the provider, for the identity, parameters, conversation and
/// channel of the call, unless the customer was looked up before; then what was
/// found counts.
pub proof fn law_lookup_asks(api: CustomerApiView, app: QefroView, state: CustomerStateView)
    ensures
        ({
            let step = api.lookup_spec(app, state);
            &&& !app.has_provider ==> step == Err::<LookupStepView, ToolErrorView>(
                ToolErrorView::Message("customer_provider_missing"@),
            )
            &&& app.has_provider && state.lookup_completed ==> step == Ok::<
                LookupStepView,
                ToolErrorView,
            >(LookupStepView::Done(state.current))
            &&& app.has_provider && !state.lookup_completed ==> {
                &&& step is Ok
                &&& step->Ok_0 is Ask
                &&& step->Ok_0->Ask_0.identity == api.identity
                &&& step->Ok_0->Ask_0.parameters == api.parameters
                &&& step->Ok_0->Ask_0.conversation.id == api.conversation_id
                &&& step->Ok_0->Ask_0.channel == api.channel
            }
        }),
{
}

/// A lookup by phone number asks the provider for the identity with that number
/// and is otherwise that of the call. The number is the one given, else the one of
/// the identity that is not blank, as it stands there. Without a number nobody is
/// asked: there is no customer.
pub proof fn law_lookup_by_phone_asks(
    api: CustomerApiView,
    app: QefroView,
    state: CustomerStateView,
    phone: Option<Seq<char>>,
    number: Seq<char>,
    key: Seq<char>,
)
    requires
        app.has_provider,
    ensures
        ({
            let (after, step) = api.lookup_by_phone_spec(app, state, phone);
            let own = api.identity.get("phone"@);
            let given = phone == Some(number) || (phone is None && own == Some(
                JsonView::Str(number),
            ) && text::trim_spec(number).len() > 0);
            &&& given ==> {
                &&& after == state
                &&& step is Ok
                &&& step->Ok_0 is Ask
                &&& step->Ok_0->Ask_0.parameters == api.parameters
                &&& step->Ok_0->Ask_0.conversation.id == api.conversation_id
                &&& step->Ok_0->Ask_0.channel == api.channel
                &&& api.identity is Object ==> step->Ok_0->Ask_0.identity.get("phone"@) == Some(
                    JsonView::Str(number),
                )
                &&& api.identity is Object && key != "phone"@
                    ==> step->Ok_0->Ask_0.identity.get(key) == api.identity.get(key)
                &&& !(api.identity is Object) ==> step->Ok_0->Ask_0.identity == api.identity
            }
            &&& phone is None && (!(own matches Some(JsonView::Str(s))) || text::trim_spec(
                own->0->Str_0,
            ).len() == 0) ==> {
                &&& step == Ok::<LookupStepView, ToolErrorView>(LookupStepView::Done(None))
                &&& after.lookup_completed
                &&& after.current is None
            }
        }),
{
}

/// What the provider finds is known from then on; a lookup that failed leaves what
/// was known.
pub proof fn law_lookup_is_remembered(
    state: CustomerStateView,
    found: Result<Option<JsonView>, ToolErrorView>,
)
    ensures
        found is Ok ==> customer::state_after_asking(state, found).current == found->Ok_0
            && customer::state_after_asking(state, found).lookup_completed,
        found is Err ==> customer::state_after_asking(state, found) == state,
{
}

/// An authorization gives the customer that is authorized in the conversation at
/// that instant, and that customer is known from then on. Otherwise the customer is
/// looked up, unless it was before, and then authorized.
pub proof fn law_authorize_asks(
    api: CustomerApiView,
    app: QefroView,
    state: CustomerStateView,
    method: Option<Seq<char>>,
    now_ms: i64,
)
    ensures
        ({
            let (after, step) = api.authorize_spec(app, state, method, now_ms);
            let conversation = api.conversation_id;
            let known = app.auth.contains_key(conversation)
                && app.auth[conversation].expires_at_epoch_ms > now_ms;
            &&& !app.has_provider ==> after == state && step == Err::<
                AuthorizeStepView,
                ToolErrorView,
            >(ToolErrorView::Message("customer_provider_missing"@))
            &&& app.has_provider && known ==> {
                &&& step == Ok::<AuthorizeStepView, ToolErrorView>(
                    AuthorizeStepView::Done(app.auth[conversation].customer),
                )
                &&& after.current == Some(app.auth[conversation].customer)
                &&& after.lookup_completed
            }
            &&& app.has_provider && !known ==> after == state
            &&& app.has_provider && !known && !state.lookup_completed ==> {
                &&& step is Ok
                &&& step->Ok_0 is Lookup
                &&& step->Ok_0->Lookup_0.identity == api.identity
                &&& step->Ok_0->Lookup_0.parameters == api.parameters
                &&& step->Ok_0->Lookup_0.conversation.id == api.conversation_id
                &&& step->Ok_0->Lookup_0.channel == api.channel
            }
            &&& app.has_provider && !known && state.lookup_completed ==> is_authorization_of(
                api,
                step,
                Ok(state.current),
                method,
            )
        }),
{
}

/// The customer that was found is authorized, with what the call was asked with.
pub open spec fn is_authorization_of(
    api: CustomerApiView,
    step: Result<AuthorizeStepView, ToolErrorView>,
    found: Result<Option<JsonView>, ToolErrorView>,
    method: Option<Seq<char>>,
) -> bool {
    match found {
        Ok(Some(c)) => {
            &&& step is Ok
            &&& step->Ok_0 is Authorize
            &&& step->Ok_0->Authorize_0.customer == c
            &&& step->Ok_0->Authorize_0.method == method
            &&& step->Ok_0->Authorize_0.response == api.auth_response
            &&& step->Ok_0->Authorize_0.identity == api.identity
            &&& step->Ok_0->Authorize_0.parameters == api.parameters
            &&& step->Ok_0->Authorize_0.conversation.id == api.conversation_id
            &&& step->Ok_0->Authorize_0.channel == api.channel
        },
        Ok(None) => step == Err::<AuthorizeStepView, ToolErrorView>(
            ToolErrorView::Message("customer_not_found"@),
        ),
        Err(e) => step == Err::<AuthorizeStepView, ToolErrorView>(e),
    }
}

/// After the lookup the customer that was found is authorized; without one, and
/// after a lookup that failed, there is an error.
pub proof fn law_authorize_found(
    api: CustomerApiView,
    found: Result<Option<JsonView>, ToolErrorView>,
    method: Option<Seq<char>>,
)
    ensures
        is_authorization_of(api, api.authorize_answered(method, found), found, method),
{
}

/// An outcome of success gives its customer, who is kept for the conversation and
/// known from then on. A challenge is an error that carries it, and a call that was
/// given waits for its answer. The others are errors, and change nothing.
pub proof fn law_outcome_consumed(
    app: QefroView,
    outcome: AuthOutcomeView,
    conversation_id: u128,
    call: Option<PendingInvocationView>,
    state: CustomerStateView,
    draw: Draw,
)
    requires
        qefro::expiry_fits(outcome, draw.now_ms as int),
    ensures
        ({
            let (after, result) = qefro::consume_spec(app, outcome, conversation_id, call, draw);
            let known = qefro::state_after_outcome(state, outcome);
            match outcome {
                AuthOutcomeView::Success { customer, auth } => {
                    &&& only_authorizes(app, after, conversation_id, customer, auth, draw.now_ms)
                    &&& result == Ok::<JsonView, ToolErrorView>(customer)
                    &&& known.current == Some(customer)
                    &&& known.lookup_completed
                },
                AuthOutcomeView::Challenge(challenge) => {
                    &&& call is None ==> after == app
                    &&& call is Some ==> only_waits(
                        app,
                        after,
                        source::uuid_spec(draw.token),
                        call->0,
                    )
                    &&& result is Err
                    &&& result->Err_0 is Challenge
                    &&& result->Err_0->Challenge_0.challenge == challenge
                    &&& known == state
                },
                AuthOutcomeView::Denied => after == app && known == state && result == Err::<
                    JsonView,
                    ToolErrorView,
                >(ToolErrorView::Message("denied"@)),
                AuthOutcomeView::NotFound => after == app && known == state && result == Err::<
                    JsonView,
                    ToolErrorView,
                >(ToolErrorView::Message("customer_not_found"@)),
            }
        }),
{
    if let AuthOutcomeView::Success { customer, auth } = outcome {
        let after = qefro::consume_spec(app, outcome, conversation_id, call, draw).0;
        assert(after.auth.dom() =~= app.auth.dom().insert(conversation_id));
    }
}

/// The same for a handler that asks by itself: it gets the customer, or the response
/// to give, and a challenge lets its call wait.
pub proof fn law_outcome_required(
    app: QefroView,
    outcome: AuthOutcomeView,
    call: PendingInvocationView,
    draw: Draw,
)
    requires
        qefro::expiry_fits(outcome, draw.now_ms as int),
    ensures
        ({
            let (after, result) = qefro::require_spec(app, outcome, call, draw);
            match outcome {
                AuthOutcomeView::Success { customer, auth } => {
                    &&& only_authorizes(
                        app,
                        after,
                        call.conversation_id,
                        customer,
                        auth,
                        draw.now_ms,
                    )
                    &&& result == Ok::<JsonView, QefroResponseView>(customer)
                },
                AuthOutcomeView::Challenge(challenge) => {
                    &&& only_waits(app, after, source::uuid_spec(draw.token), call)
                    &&& result is Err
                    &&& result->Err_0 is Challenge
                    &&& result->Err_0->Challenge_resume_token == source::uuid_spec(draw.token)
                    &&& result->Err_0->Challenge_challenge == challenge
                },
                AuthOutcomeView::Denied => {
                    &&& after == app
                    &&& result is Err
                    &&& result->Err_0 is Error
                    &&& result->Err_0->Error_code == "denied"@
                    &&& result->Err_0->Error_message == "Authentication denied"@
                },
                AuthOutcomeView::NotFound => {
                    &&& after == app
                    &&& result is Err
                    &&& result->Err_0 is Error
                    &&& result->Err_0->Error_code == "customer_not_found"@
                    &&& result->Err_0->Error_message == "Customer not found"@
                },
            }
        }),
{
    if let AuthOutcomeView::Success { customer, auth } = outcome {
        let after = qefro::require_spec(app, outcome, call, draw).0;
        assert(after.auth.dom() =~= app.auth.dom().insert(call.conversation_id));
    }
}

/// A customer counts as authorized in a conversation before the expiry that is kept
/// for it, and not from then on.
pub proof fn law_fresh_before_expiry(app: QefroView, conversation_id: u128, now_ms: i64)
    ensures
        ({
            let fresh: Option<StoredAuthView> = app.fresh_auth(conversation_id, now_ms);
            &&& fresh is Some <==> app.auth.contains_key(conversation_id) && now_ms
                < app.auth[conversation_id].expires_at_epoch_ms
            &&& fresh is Some ==> fresh->0 == app.auth[conversation_id]
        }),
{
}

/// An outcome can be taken where the end of its lifetime is a number of
/// milliseconds that fits; one that is no success always can.
pub proof fn law_expiry_fits(outcome: AuthOutcomeView, now_ms: int)
    ensures
        outcome matches AuthOutcomeView::Success { customer, auth } ==> (qefro::expiry_fits(
            outcome,
            now_ms,
        ) <==> {
            let secs: int = if auth.expires_in is None {
                900
            } else if auth.expires_in->0 < 1 {
                1
            } else {
                auth.expires_in->0 as int
            };
            secs * 1000 <= i64::MAX && now_ms + secs * 1000 <= i64::MAX
        }),
        !(outcome is Success) ==> qefro::expiry_fits(outcome, now_ms),
{
}

} // verus!
