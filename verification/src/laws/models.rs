//! Laws of the models: the model of a value has each of its fields, so that what is
//! stated of models is stated of values.

use crate::auth;
use crate::auth::{
    AuthOutcome, AuthOutcomeView, AuthenticationContextPayload, ChallengePayload, ChallengeSignal,
    ToolError, ToolErrorView,
};
use crate::customer::{
    AuthorizeStep, AuthorizeStepView, Conversation, CustomerApi, CustomerAuthorizeContext,
    CustomerLookupContext, LookupStep, LookupStepView, ToolContext,
};
use crate::customer_hub::{
    ConsentContext, CustomerState, HubCall, HubCallView, HubEndpoint, HubOutcome, HubOutcomeView,
    HubReply, HubReplyView, HubRequest, HubSettings, MembershipContext, PlatformCapabilities,
    PlatformCustomerBinding, PlatformCustomerContext, PlatformStorageBinding,
    PlatformStorageContext, TimelineContext,
};
use crate::invoke::{Invocation, InvokeStep, InvokeStepView, ToolCall};
use crate::json::{JsonValue, JsonView};
use crate::marketing::{
    MarketingAction, MarketingAudience, MarketingAudienceAppQuery, MarketingAudienceCustomerHub,
    MarketingCapability, MarketingChannel, MarketingDefinition, MarketingError,
    MarketingLandingPage, MarketingMetadata, MarketingRegistration, MarketingVariable,
};
use crate::protocol::{
    Headers, ListenOptions, ListenPlan, QefroConfig, QefroRequest, QefroRequestView, QefroResponse,
    QefroResponseView,
};
use crate::qefro;
use crate::qefro::{PendingInvocation, Qefro, StoredAuth};
use crate::tools::{RegisteredTool, ToolLookup, ToolMetadata};
use crate::webhook;
use crate::webhook::RawStep;
use vstd::prelude::*;

verus! {

/// The values of authorization are modelled field by field.
pub proof fn law_auth_models(
    authentication_context_payload: AuthenticationContextPayload,
    challenge_payload: ChallengePayload,
    challenge_signal: ChallengeSignal,
)
    ensures
        authentication_context_payload.deep_view().credential_type
            == authentication_context_payload.credential_type.deep_view(),
        authentication_context_payload.deep_view().access_token
            == authentication_context_payload.access_token.deep_view(),
        authentication_context_payload.deep_view().credential
            == authentication_context_payload.credential.deep_view(),
        authentication_context_payload.deep_view().refresh_token
            == authentication_context_payload.refresh_token.deep_view(),
        authentication_context_payload.deep_view().expires_in
            == authentication_context_payload.expires_in,
        authentication_context_payload.deep_view().customer_id
            == authentication_context_payload.customer_id.deep_view(),
        challenge_payload.deep_view().challenge_type == challenge_payload.challenge_type@,
        challenge_payload.deep_view().message == challenge_payload.message@,
        challenge_payload.deep_view().destination_hint
            == challenge_payload.destination_hint.deep_view(),
        challenge_payload.deep_view().login_url == challenge_payload.login_url.deep_view(),
        challenge_signal.deep_view().challenge == challenge_signal.challenge.deep_view(),
{
}

/// The values of the customer side of a call are modelled field by field.
pub proof fn law_customer_models(
    conversation: Conversation,
    customer_lookup_context: CustomerLookupContext,
    customer_authorize_context: CustomerAuthorizeContext,
    customer_api: CustomerApi,
    tool_context: ToolContext,
)
    ensures
        conversation.deep_view().id == conversation.id,
        customer_lookup_context.deep_view().identity
            == customer_lookup_context.identity.deep_view(),
        customer_lookup_context.deep_view().parameters
            == customer_lookup_context.parameters.deep_view(),
        customer_lookup_context.deep_view().conversation
            == customer_lookup_context.conversation.deep_view(),
        customer_lookup_context.deep_view().channel == customer_lookup_context.channel.deep_view(),
        customer_authorize_context.deep_view().customer
            == customer_authorize_context.customer.deep_view(),
        customer_authorize_context.deep_view().method
            == customer_authorize_context.method.deep_view(),
        customer_authorize_context.deep_view().response
            == customer_authorize_context.response.deep_view(),
        customer_authorize_context.deep_view().identity
            == customer_authorize_context.identity.deep_view(),
        customer_authorize_context.deep_view().parameters
            == customer_authorize_context.parameters.deep_view(),
        customer_authorize_context.deep_view().conversation
            == customer_authorize_context.conversation.deep_view(),
        customer_authorize_context.deep_view().channel
            == customer_authorize_context.channel.deep_view(),
        customer_api.deep_view().identity == customer_api.identity.deep_view(),
        customer_api.deep_view().parameters == customer_api.parameters.deep_view(),
        customer_api.deep_view().conversation_id == customer_api.conversation_id,
        customer_api.deep_view().channel == customer_api.channel.deep_view(),
        customer_api.deep_view().auth_response == customer_api.auth_response.deep_view(),
        tool_context.deep_view().identity == tool_context.identity.deep_view(),
        tool_context.deep_view().parameters == tool_context.parameters.deep_view(),
        tool_context.deep_view().conversation == tool_context.conversation.deep_view(),
        tool_context.deep_view().channel == tool_context.channel.deep_view(),
        tool_context.deep_view().authentication == tool_context.authentication.deep_view(),
        tool_context.deep_view().auth_response == tool_context.auth_response.deep_view(),
        tool_context.deep_view().customer == tool_context.customer.deep_view(),
        tool_context.deep_view().customer_api == tool_context.customer_api.deep_view(),
{
}

/// The values of the Customer Hub are modelled field by field.
pub proof fn law_customer_hub_models(
    platform_customer_context: PlatformCustomerContext,
    platform_storage_context: PlatformStorageContext,
    platform_storage_binding: PlatformStorageBinding,
    platform_customer_binding: PlatformCustomerBinding,
    platform_capabilities: PlatformCapabilities,
    customer_state: CustomerState,
    hub_settings: HubSettings,
    hub_endpoint: HubEndpoint,
    hub_request: HubRequest,
    timeline_context: TimelineContext,
    membership_context: MembershipContext,
    consent_context: ConsentContext,
)
    ensures
        platform_customer_context.deep_view().tenant_id == platform_customer_context.tenant_id@,
        platform_customer_context.deep_view().workspace_id
            == platform_customer_context.workspace_id@,
        platform_customer_context.deep_view().installation_id
            == platform_customer_context.installation_id.deep_view(),
        platform_customer_context.deep_view().solution_id
            == platform_customer_context.solution_id.deep_view(),
        platform_customer_context.deep_view().identity_id
            == platform_customer_context.identity_id.deep_view(),
        platform_customer_context.deep_view().conversation_id
            == platform_customer_context.conversation_id.deep_view(),
        platform_customer_context.deep_view().person_id
            == platform_customer_context.person_id.deep_view(),
        platform_customer_context.deep_view().capabilities
            == platform_customer_context.capabilities.deep_view(),
        platform_customer_context.deep_view().source
            == platform_customer_context.source.deep_view(),
        platform_storage_context.deep_view().tenant_id == platform_storage_context.tenant_id@,
        platform_storage_context.deep_view().workspace_id == platform_storage_context.workspace_id@,
        platform_storage_context.deep_view().installation_id
            == platform_storage_context.installation_id@,
        platform_storage_context.deep_view().solution_id == platform_storage_context.solution_id@,
        platform_storage_context.deep_view().identity_id
            == platform_storage_context.identity_id.deep_view(),
        platform_storage_context.deep_view().capabilities
            == platform_storage_context.capabilities.deep_view(),
        platform_storage_context.deep_view().source == platform_storage_context.source.deep_view(),
        platform_storage_binding.deep_view().base_url
            == platform_storage_binding.base_url.deep_view(),
        platform_storage_binding.deep_view().token == platform_storage_binding.token.deep_view(),
        platform_storage_binding.deep_view().context
            == platform_storage_binding.context.deep_view(),
        platform_customer_binding.deep_view().base_url
            == platform_customer_binding.base_url.deep_view(),
        platform_customer_binding.deep_view().token == platform_customer_binding.token.deep_view(),
        platform_customer_binding.deep_view().context
            == platform_customer_binding.context.deep_view(),
        platform_capabilities.deep_view().storage == platform_capabilities.storage.deep_view(),
        platform_capabilities.deep_view().customer == platform_capabilities.customer.deep_view(),
        customer_state.deep_view().current == customer_state.current.deep_view(),
        customer_state.deep_view().lookup_completed == customer_state.lookup_completed,
        hub_settings.deep_view().enabled == hub_settings.enabled.deep_view(),
        hub_settings.deep_view().optional == hub_settings.optional.deep_view(),
        hub_settings.deep_view().url == hub_settings.url.deep_view(),
        hub_settings.deep_view().service_token == hub_settings.service_token.deep_view(),
        hub_settings.deep_view().internal_token == hub_settings.internal_token.deep_view(),
        hub_settings.deep_view().internal_bearer == hub_settings.internal_bearer.deep_view(),
        hub_endpoint.deep_view().base_url == hub_endpoint.base_url@,
        hub_endpoint.deep_view().token == hub_endpoint.token@,
        hub_endpoint.deep_view().context == hub_endpoint.context.deep_view(),
        hub_request.deep_view().url == hub_request.url@,
        hub_request.deep_view().bearer == hub_request.bearer.deep_view(),
        hub_request.deep_view().payload == hub_request.payload.deep_view(),
        timeline_context.deep_view().platform == timeline_context.platform.deep_view(),
        timeline_context.deep_view().state == timeline_context.state.deep_view(),
        membership_context.deep_view().platform == membership_context.platform.deep_view(),
        membership_context.deep_view().state == membership_context.state.deep_view(),
        membership_context.deep_view().solution_id == membership_context.solution_id.deep_view(),
        consent_context.deep_view().platform == consent_context.platform.deep_view(),
        consent_context.deep_view().state == consent_context.state.deep_view(),
{
}

/// The values of a tool call are modelled field by field.
pub proof fn law_invoke_models(
    tool_call: ToolCall,
    invocation: Invocation,
)
    ensures
        tool_call.deep_view().tool == tool_call.tool.deep_view(),
        tool_call.deep_view().parameters == tool_call.parameters.deep_view(),
        tool_call.deep_view().conversation_id == tool_call.conversation_id,
        tool_call.deep_view().identity == tool_call.identity.deep_view(),
        tool_call.deep_view().channel == tool_call.channel.deep_view(),
        tool_call.deep_view().authentication == tool_call.authentication.deep_view(),
        tool_call.deep_view().auth_response == tool_call.auth_response.deep_view(),
        invocation.deep_view().tool == invocation.tool@,
        invocation.deep_view().method == invocation.method.deep_view(),
        invocation.deep_view().identity == invocation.identity.deep_view(),
        invocation.deep_view().authentication == invocation.authentication.deep_view(),
        invocation.deep_view().api == invocation.api.deep_view(),
        invocation.deep_view().state == invocation.state.deep_view(),
{
}

/// The values of marketing are modelled field by field.
pub proof fn law_marketing_models(
    marketing_audience_customer_hub: MarketingAudienceCustomerHub,
    marketing_audience_app_query: MarketingAudienceAppQuery,
    marketing_audience: MarketingAudience,
    marketing_variable: MarketingVariable,
    marketing_action: MarketingAction,
    marketing_landing_page: MarketingLandingPage,
    marketing_channel: MarketingChannel,
    marketing_definition: MarketingDefinition,
    marketing_registration: MarketingRegistration,
    marketing_metadata: MarketingMetadata,
    marketing_capability: MarketingCapability,
)
    ensures
        marketing_audience_customer_hub.deep_view().tags
            == marketing_audience_customer_hub.tags.deep_view(),
        marketing_audience_customer_hub.deep_view().consent_purpose
            == marketing_audience_customer_hub.consent_purpose.deep_view(),
        marketing_audience_customer_hub.deep_view().attrs
            == marketing_audience_customer_hub.attrs.deep_view(),
        marketing_audience_app_query.deep_view().tool == marketing_audience_app_query.tool@,
        marketing_audience_app_query.deep_view().input
            == marketing_audience_app_query.input.deep_view(),
        marketing_audience.deep_view().id == marketing_audience.id@,
        marketing_audience.deep_view().label == marketing_audience.label@,
        marketing_audience.deep_view().description == marketing_audience.description.deep_view(),
        marketing_audience.deep_view().source == marketing_audience.source@,
        marketing_audience.deep_view().customer_hub == marketing_audience.customer_hub.deep_view(),
        marketing_audience.deep_view().app_query == marketing_audience.app_query.deep_view(),
        marketing_audience.deep_view().static_filter
            == marketing_audience.static_filter.deep_view(),
        marketing_variable.deep_view().id == marketing_variable.id@,
        marketing_variable.deep_view().label == marketing_variable.label@,
        marketing_variable.deep_view().var_type == marketing_variable.var_type@,
        marketing_variable.deep_view().source == marketing_variable.source@,
        marketing_variable.deep_view().path == marketing_variable.path.deep_view(),
        marketing_variable.deep_view().required == marketing_variable.required,
        marketing_action.deep_view().id == marketing_action.id@,
        marketing_action.deep_view().label == marketing_action.label@,
        marketing_action.deep_view().kind == marketing_action.kind@,
        marketing_action.deep_view().landing_page_id
            == marketing_action.landing_page_id.deep_view(),
        marketing_action.deep_view().url_template == marketing_action.url_template.deep_view(),
        marketing_action.deep_view().payload == marketing_action.payload.deep_view(),
        marketing_landing_page.deep_view().id == marketing_landing_page.id@,
        marketing_landing_page.deep_view().label == marketing_landing_page.label@,
        marketing_landing_page.deep_view().path == marketing_landing_page.path@,
        marketing_landing_page.deep_view().host == marketing_landing_page.host@,
        marketing_channel.deep_view().id == marketing_channel.id@,
        marketing_channel.deep_view().provider == marketing_channel.provider.deep_view(),
        marketing_channel.deep_view().label == marketing_channel.label.deep_view(),
        marketing_channel.deep_view().enabled == marketing_channel.enabled,
        marketing_definition.deep_view().version == marketing_definition.version,
        marketing_definition.deep_view().audiences == marketing_definition.audiences.deep_view(),
        marketing_definition.deep_view().variables == marketing_definition.variables.deep_view(),
        marketing_definition.deep_view().actions == marketing_definition.actions.deep_view(),
        marketing_definition.deep_view().landing_pages
            == marketing_definition.landing_pages.deep_view(),
        marketing_definition.deep_view().channels == marketing_definition.channels.deep_view(),
        marketing_registration.deep_view().version == marketing_registration.version,
        marketing_registration.deep_view().audiences
            == marketing_registration.audiences.deep_view(),
        marketing_registration.deep_view().variables
            == marketing_registration.variables.deep_view(),
        marketing_registration.deep_view().actions == marketing_registration.actions.deep_view(),
        marketing_registration.deep_view().landing_pages
            == marketing_registration.landing_pages.deep_view(),
        marketing_registration.deep_view().channels == marketing_registration.channels.deep_view(),
        marketing_metadata.deep_view().audiences == marketing_metadata.audiences.deep_view(),
        marketing_metadata.deep_view().variables == marketing_metadata.variables.deep_view(),
        marketing_metadata.deep_view().actions == marketing_metadata.actions.deep_view(),
        marketing_metadata.deep_view().landing_pages
            == marketing_metadata.landing_pages.deep_view(),
        marketing_metadata.deep_view().channels == marketing_metadata.channels.deep_view(),
        marketing_capability.deep_view().version == marketing_capability.version,
        marketing_capability.deep_view().metadata == marketing_capability.metadata.deep_view(),
{
}

/// The values of the protocol are modelled field by field.
pub proof fn law_protocol_models(
    qefro_config: QefroConfig,
    qefro_request: QefroRequest,
    listen_options: ListenOptions,
    listen_plan: ListenPlan,
)
    ensures
        qefro_config.deep_view().signing_secret == qefro_config.signing_secret@,
        qefro_config.deep_view().protocol_version == qefro_config.protocol_version@,
        qefro_config.deep_view().max_timestamp_skew_secs == qefro_config.max_timestamp_skew_secs,
        qefro_config.deep_view().endpoint_path == qefro_config.endpoint_path@,
        qefro_request.deep_view().protocol_version == qefro_request.protocol_version@,
        qefro_request.deep_view().request_id == qefro_request.request_id,
        qefro_request.deep_view().request_type == qefro_request.request_type@,
        qefro_request.deep_view().organization_id == qefro_request.organization_id,
        qefro_request.deep_view().conversation_id == qefro_request.conversation_id,
        qefro_request.deep_view().channel == qefro_request.channel.deep_view(),
        qefro_request.deep_view().identity == qefro_request.identity.deep_view(),
        qefro_request.deep_view().tool == qefro_request.tool.deep_view(),
        qefro_request.deep_view().parameters == qefro_request.parameters.deep_view(),
        qefro_request.deep_view().authentication == qefro_request.authentication.deep_view(),
        qefro_request.deep_view().resume_token == qefro_request.resume_token.deep_view(),
        qefro_request.deep_view().challenge_response
            == qefro_request.challenge_response.deep_view(),
        listen_options.deep_view().port == listen_options.port,
        listen_options.deep_view().host == listen_options.host.deep_view(),
        listen_options.deep_view().path == listen_options.path.deep_view(),
        listen_plan.deep_view().path == listen_plan.path@,
        listen_plan.deep_view().address == listen_plan.address@,
        listen_plan.deep_view().url == listen_plan.url@,
{
}

/// The values of the state of a webhook are modelled field by field.
pub proof fn law_qefro_models(
    pending_invocation: PendingInvocation,
    stored_auth: StoredAuth,
)
    ensures
        pending_invocation.deep_view().tool == pending_invocation.tool@,
        pending_invocation.deep_view().conversation_id == pending_invocation.conversation_id,
        pending_invocation.deep_view().parameters == pending_invocation.parameters.deep_view(),
        pending_invocation.deep_view().identity == pending_invocation.identity.deep_view(),
        pending_invocation.deep_view().channel == pending_invocation.channel.deep_view(),
        stored_auth.deep_view().customer == stored_auth.customer.deep_view(),
        stored_auth.deep_view().auth == stored_auth.auth.deep_view(),
        stored_auth.deep_view().expires_at_epoch_ms == stored_auth.expires_at_epoch_ms,
{
}

/// The values of tools are modelled field by field.
pub proof fn law_tools_models(
    tool_lookup: ToolLookup,
    tool_metadata: ToolMetadata,
    registered_tool: RegisteredTool,
)
    ensures
        tool_lookup.deep_view().by == tool_lookup.by.deep_view(),
        tool_lookup.deep_view().required == tool_lookup.required.deep_view(),
        tool_metadata.deep_view().name == tool_metadata.name@,
        tool_metadata.deep_view().description == tool_metadata.description.deep_view(),
        tool_metadata.deep_view().input_schema == tool_metadata.input_schema.deep_view(),
        tool_metadata.deep_view().authentication_methods
            == tool_metadata.authentication_methods.deep_view(),
        tool_metadata.deep_view().auth == tool_metadata.auth,
        tool_metadata.deep_view().permissions == tool_metadata.permissions.deep_view(),
        tool_metadata.deep_view().timeout == tool_metadata.timeout,
        tool_metadata.deep_view().default_auth_method
            == tool_metadata.default_auth_method.deep_view(),
        tool_metadata.deep_view().lookup == tool_metadata.lookup.deep_view(),
        registered_tool.deep_view().name == registered_tool.name@,
        registered_tool.deep_view().description == registered_tool.description.deep_view(),
        registered_tool.deep_view().input_schema == registered_tool.input_schema.deep_view(),
        registered_tool.deep_view().authentication_methods
            == registered_tool.authentication_methods.deep_view(),
        registered_tool.deep_view().auth == registered_tool.auth,
        registered_tool.deep_view().permissions == registered_tool.permissions.deep_view(),
        registered_tool.deep_view().timeout == registered_tool.timeout,
        registered_tool.deep_view().lookup == registered_tool.lookup.deep_view(),
{
}

/// An outcome, an error and a result are modelled by what they carry.
pub proof fn law_outcome_models(outcome: AuthOutcome, e: ToolError, v: JsonValue)
    ensures
        match outcome {
            AuthOutcome::Success { customer, auth } => outcome.deep_view() == (
            AuthOutcomeView::Success { customer: customer.deep_view(), auth: auth.deep_view() }),
            AuthOutcome::Challenge(c) => outcome.deep_view() == AuthOutcomeView::Challenge(
                c.deep_view(),
            ),
            AuthOutcome::Denied => outcome.deep_view() is Denied,
            AuthOutcome::NotFound => outcome.deep_view() is NotFound,
        },
        match e {
            ToolError::Challenge(c) => e.deep_view() == ToolErrorView::Challenge(c.deep_view()),
            ToolError::Message(m) => e.deep_view() == ToolErrorView::Message(m@),
        },
        auth::result_view(Ok::<JsonValue, ToolError>(v)) == Ok::<JsonView, ToolErrorView>(
            v.deep_view(),
        ),
        auth::result_view(Err::<JsonValue, ToolError>(e)) == Err::<JsonView, ToolErrorView>(
            e.deep_view(),
        ),
{
}

/// A step of a lookup or of an authorization is modelled by what it carries.
pub proof fn law_customer_step_models(lookup: LookupStep, authorize: AuthorizeStep)
    ensures
        match lookup {
            LookupStep::Done(c) => lookup.deep_view() == LookupStepView::Done(c.deep_view()),
            LookupStep::Ask(c) => lookup.deep_view() == LookupStepView::Ask(c.deep_view()),
        },
        match authorize {
            AuthorizeStep::Done(c) => authorize.deep_view() == AuthorizeStepView::Done(
                c.deep_view(),
            ),
            AuthorizeStep::Lookup(c) => authorize.deep_view() == AuthorizeStepView::Lookup(
                c.deep_view(),
            ),
            AuthorizeStep::Authorize(c) => authorize.deep_view() == AuthorizeStepView::Authorize(
                c.deep_view(),
            ),
        },
{
}

/// A step of a call is modelled by what it carries.
pub proof fn law_invoke_step_models(step: InvokeStep, raw: RawStep)
    ensures
        match step {
            InvokeStep::Lookup(call, ctx) => step.deep_view() == InvokeStepView::Lookup(
                call.deep_view(),
                ctx.deep_view(),
            ),
            InvokeStep::Authorize(call, ctx) => step.deep_view() == InvokeStepView::Authorize(
                call.deep_view(),
                ctx.deep_view(),
            ),
            InvokeStep::Before { call, next, count } => step.deep_view() == (
            InvokeStepView::Before {
                call: call.deep_view(),
                next: next as nat,
                count: count as nat,
            }),
            InvokeStep::Handle { call, count } => step.deep_view() == (InvokeStepView::Handle {
                call: call.deep_view(),
                count: count as nat,
            }),
            InvokeStep::After { call, output, next, count } => step.deep_view() == (
            InvokeStepView::After {
                call: call.deep_view(),
                output: output.deep_view(),
                next: next as nat,
                count: count as nat,
            }),
            InvokeStep::Respond(r) => step.deep_view() == InvokeStepView::Respond(r.deep_view()),
        },
        raw.deep_view().status == raw.status,
        raw.deep_view().step == raw.step.deep_view(),
{
}

/// A response is modelled by what it carries.
pub proof fn law_response_models(response: QefroResponse, v: JsonValue)
    ensures
        match response {
            QefroResponse::Pong { protocol_version, sdk_version } => response.deep_view() == (
            QefroResponseView::Pong {
                protocol_version: protocol_version@,
                sdk_version: sdk_version@,
            }),
            QefroResponse::CapabilitiesList {
                tools,
                flows,
                marketing,
                protocol_version,
                sdk_version,
            } => response.deep_view() == (QefroResponseView::CapabilitiesList {
                tools: tools.deep_view(),
                flows: flows.deep_view(),
                marketing: marketing.deep_view(),
                protocol_version: protocol_version@,
                sdk_version: sdk_version@,
            }),
            QefroResponse::ToolsList { tools, protocol_version, sdk_version } => response.deep_view()
                == (QefroResponseView::ToolsList {
                tools: tools.deep_view(),
                protocol_version: protocol_version@,
                sdk_version: sdk_version@,
            }),
            QefroResponse::Result { output, authentication_context } => response.deep_view() == (
            QefroResponseView::Result {
                output: output.deep_view(),
                authentication_context: authentication_context.deep_view(),
            }),
            QefroResponse::Challenge { resume_token, challenge } => response.deep_view() == (
            QefroResponseView::Challenge {
                resume_token: resume_token@,
                challenge: challenge.deep_view(),
            }),
            QefroResponse::Error { code, message } => response.deep_view() == (
            QefroResponseView::Error { code: code@, message: message@ }),
        },
        qefro::required_view(Ok(v)) == Ok::<JsonView, QefroResponseView>(v.deep_view()),
        qefro::required_view(Err(response)) == Err::<JsonView, QefroResponseView>(
            response.deep_view(),
        ),
{
}

/// A call of the Hub, a reply and what it comes to are modelled by what they carry.
pub proof fn law_hub_call_models(call: HubCall, reply: HubReply, outcome: HubOutcome)
    ensures
        match call {
            HubCall::Skip => call.deep_view() is Skip,
            HubCall::Post(r) => call.deep_view() == HubCallView::Post(r.deep_view()),
        },
        match reply {
            HubReply::Unreachable(e) => reply.deep_view() == HubReplyView::Unreachable(e@),
            HubReply::Answered { status, body } => reply.deep_view() == (HubReplyView::Answered {
                status,
                body: body@,
            }),
        },
        match outcome {
            HubOutcome::Skip => outcome.deep_view() is Skip,
            HubOutcome::Value(v) => outcome.deep_view() == HubOutcomeView::Value(v.deep_view()),
            HubOutcome::Parse(s) => outcome.deep_view() == HubOutcomeView::Parse(s@),
        },
{
}

/// Headers and a body that was read are modelled as they are, in order.
pub proof fn law_request_models(
    headers: Headers,
    i: int,
    request: QefroRequest,
    message: String,
    e: MarketingError,
)
    requires
        0 <= i < headers.entries@.len(),
    ensures
        headers.deep_view().len() == headers.entries@.len(),
        headers.deep_view()[i].0 == headers.entries@[i].0@,
        headers.deep_view()[i].1 == headers.entries@[i].1@,
        webhook::parsed_view(Ok(request)) == Ok::<QefroRequestView, Seq<char>>(request.deep_view()),
        webhook::parsed_view(Err(message)) == Err::<QefroRequestView, Seq<char>>(message@),
        e matches MarketingError::Message(m) && e.deep_view() == m@,
{
}

/// A webhook is modelled by its configuration, its tools in order, the calls that
/// wait, the customers that are authorized, its marketing registration, and how many
/// hooks and middlewares it has.
pub proof fn law_webhook_model<P, H, M, B, A>(
    app: Qefro<P, H, M, B, A>,
    i: int,
    token: Seq<char>,
    conversation_id: u128,
)
    ensures
        app@.config == app.config.deep_view(),
        app@.tools.len() == app.tools@.len(),
        0 <= i < app.tools@.len() ==> app@.tools[i] == app.tools@[i].metadata.deep_view(),
        app@.pending.contains_key(token) <==> app.pending@.contains_key(token),
        app.pending@.contains_key(token) ==> app@.pending[token] == app.pending@[token].deep_view(),
        app@.auth.contains_key(conversation_id) <==> app.auth_by_conversation@.contains_key(
            conversation_id,
        ),
        app.auth_by_conversation@.contains_key(conversation_id) ==> app@.auth[conversation_id]
            == app.auth_by_conversation@[conversation_id].deep_view(),
        app@.marketing == app.marketing.deep_view(),
        app@.has_provider <==> app.customer_provider is Some,
        app@.middlewares == app.middlewares@.len(),
        app@.before_hooks == app.before_hooks@.len(),
        app@.after_hooks == app.after_hooks@.len(),
{
}

} // verus!
