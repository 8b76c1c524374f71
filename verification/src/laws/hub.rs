//! Laws of the Customer Hub: when it is called, with what, and what is made of a
//! reply.

use crate::auth::ToolErrorView;
use crate::customer_hub;
use crate::customer_hub::{
    ConsentContextView, CustomerStateView, HubCallView, HubOutcomeView, HubReplyView,
    HubSettingsView, MembershipContextView, PlatformCapabilitiesView, TimelineContextView,
};
use crate::json::JsonView;
use crate::text;
use vstd::prelude::*;

verus! {

/// The keys of persons and customers differ.
pub proof fn lemma_person_keys()
    ensures
        "id"@ != "name"@,
        "id"@ != "phone"@,
        "id"@ != "email"@,
        "id"@ != "status"@,
        "id"@ != "channel"@,
        "id"@ != "identifier"@,
        "id"@ != "phone_number"@,
        "id"@ != "display_name"@,
        "id"@ != "whatsapp_number"@,
        "id"@ != "workspace_id"@,
        "id"@ != "whatsapp"@,
        "name"@ != "phone"@,
        "name"@ != "email"@,
        "name"@ != "status"@,
        "name"@ != "channel"@,
        "name"@ != "identifier"@,
        "name"@ != "phone_number"@,
        "name"@ != "display_name"@,
        "name"@ != "whatsapp_number"@,
        "name"@ != "workspace_id"@,
        "name"@ != "whatsapp"@,
        "phone"@ != "email"@,
        "phone"@ != "status"@,
        "phone"@ != "channel"@,
        "phone"@ != "identifier"@,
        "phone"@ != "phone_number"@,
        "phone"@ != "display_name"@,
        "phone"@ != "whatsapp_number"@,
        "phone"@ != "workspace_id"@,
        "phone"@ != "whatsapp"@,
        "email"@ != "status"@,
        "email"@ != "channel"@,
        "email"@ != "identifier"@,
        "email"@ != "phone_number"@,
        "email"@ != "display_name"@,
        "email"@ != "whatsapp_number"@,
        "email"@ != "workspace_id"@,
        "email"@ != "whatsapp"@,
        "status"@ != "channel"@,
        "status"@ != "identifier"@,
        "status"@ != "phone_number"@,
        "status"@ != "display_name"@,
        "status"@ != "whatsapp_number"@,
        "status"@ != "workspace_id"@,
        "status"@ != "whatsapp"@,
        "channel"@ != "identifier"@,
        "channel"@ != "phone_number"@,
        "channel"@ != "display_name"@,
        "channel"@ != "whatsapp_number"@,
        "channel"@ != "workspace_id"@,
        "channel"@ != "whatsapp"@,
        "identifier"@ != "phone_number"@,
        "identifier"@ != "display_name"@,
        "identifier"@ != "whatsapp_number"@,
        "identifier"@ != "workspace_id"@,
        "identifier"@ != "whatsapp"@,
        "phone_number"@ != "display_name"@,
        "phone_number"@ != "whatsapp_number"@,
        "phone_number"@ != "workspace_id"@,
        "phone_number"@ != "whatsapp"@,
        "display_name"@ != "whatsapp_number"@,
        "display_name"@ != "workspace_id"@,
        "display_name"@ != "whatsapp"@,
        "whatsapp_number"@ != "workspace_id"@,
        "whatsapp_number"@ != "whatsapp"@,
        "workspace_id"@ != "whatsapp"@,
{
    reveal_strlit("id");
    reveal_strlit("name");
    reveal_strlit("phone");
    reveal_strlit("email");
    reveal_strlit("status");
    reveal_strlit("channel");
    reveal_strlit("identifier");
    reveal_strlit("phone_number");
    reveal_strlit("display_name");
    reveal_strlit("whatsapp_number");
    reveal_strlit("workspace_id");
    reveal_strlit("whatsapp");
    assert("id"@.len() == 2);
    assert("name"@.len() == 4);
    assert("phone"@.len() == 5);
    assert("email"@.len() == 5);
    assert("status"@.len() == 6);
    assert("channel"@.len() == 7);
    assert("identifier"@.len() == 10);
    assert("phone_number"@.len() == 12);
    assert("display_name"@.len() == 12);
    assert("whatsapp_number"@.len() == 15);
    assert("workspace_id"@.len() == 12);
    assert("whatsapp"@.len() == 8);
    assert("phone"@[0] == 'p' && "email"@[0] == 'e');
    assert("phone_number"@[0] == 'p' && "display_name"@[0] == 'd');
    assert("phone_number"@[0] == 'p' && "workspace_id"@[0] == 'w');
    assert("display_name"@[0] == 'd' && "workspace_id"@[0] == 'w');
}

/// The keys of what is sent differ.
pub proof fn lemma_body_keys()
    ensures
        "customer_id"@ != "event_type"@,
        "customer_id"@ != "payload"@,
        "customer_id"@ != "source"@,
        "customer_id"@ != "solution_id"@,
        "customer_id"@ != "role"@,
        "customer_id"@ != "metadata"@,
        "customer_id"@ != "purpose"@,
        "customer_id"@ != "context"@,
        "event_type"@ != "payload"@,
        "event_type"@ != "source"@,
        "event_type"@ != "solution_id"@,
        "event_type"@ != "role"@,
        "event_type"@ != "metadata"@,
        "event_type"@ != "purpose"@,
        "event_type"@ != "context"@,
        "payload"@ != "source"@,
        "payload"@ != "solution_id"@,
        "payload"@ != "role"@,
        "payload"@ != "metadata"@,
        "payload"@ != "purpose"@,
        "payload"@ != "context"@,
        "source"@ != "solution_id"@,
        "source"@ != "role"@,
        "source"@ != "metadata"@,
        "source"@ != "purpose"@,
        "source"@ != "context"@,
        "solution_id"@ != "role"@,
        "solution_id"@ != "metadata"@,
        "solution_id"@ != "purpose"@,
        "solution_id"@ != "context"@,
        "role"@ != "metadata"@,
        "role"@ != "purpose"@,
        "role"@ != "context"@,
        "metadata"@ != "purpose"@,
        "metadata"@ != "context"@,
        "purpose"@ != "context"@,
{
    reveal_strlit("customer_id");
    reveal_strlit("event_type");
    reveal_strlit("payload");
    reveal_strlit("source");
    reveal_strlit("solution_id");
    reveal_strlit("role");
    reveal_strlit("metadata");
    reveal_strlit("purpose");
    reveal_strlit("context");
    assert("customer_id"@.len() == 11);
    assert("event_type"@.len() == 10);
    assert("payload"@.len() == 7);
    assert("source"@.len() == 6);
    assert("solution_id"@.len() == 11);
    assert("role"@.len() == 4);
    assert("metadata"@.len() == 8);
    assert("purpose"@.len() == 7);
    assert("context"@.len() == 7);
    assert("customer_id"@[0] == 'c' && "solution_id"@[0] == 's');
    assert("payload"@[1] == 'a' && "purpose"@[1] == 'u');
    assert("payload"@[0] == 'p' && "context"@[0] == 'c');
    assert("purpose"@[0] == 'p' && "context"@[0] == 'c');
}

/// A variable says yes.
pub open spec fn says_yes(raw: Seq<char>) -> bool {
    let word = text::lower_spec(text::trim_spec(raw));
    word == "1"@ || word == "true"@ || word == "yes"@ || word == "on"@
}

/// A variable says no.
pub open spec fn says_no(raw: Seq<char>) -> bool {
    let word = text::lower_spec(text::trim_spec(raw));
    word == "0"@ || word == "false"@ || word == "no"@ || word == "off"@
}

proof fn lemma_flag_words()
    ensures
        forall|raw: Seq<char>| says_yes(raw) ==> !says_no(raw),
{
    reveal_strlit("1");
    reveal_strlit("true");
    reveal_strlit("yes");
    reveal_strlit("on");
    reveal_strlit("0");
    reveal_strlit("false");
    reveal_strlit("no");
    reveal_strlit("off");
    assert("1"@.len() == 1 && "0"@.len() == 1 && "1"@[0] == '1' && "0"@[0] == '0');
    assert("on"@.len() == 2 && "no"@.len() == 2 && "on"@[0] == 'o' && "no"@[0] == 'n');
    assert("yes"@.len() == 3 && "off"@.len() == 3 && "yes"@[0] == 'y' && "off"@[0] == 'o');
    assert("true"@.len() == 4 && "false"@.len() == 5);
}

/// A flag is on where its variable says yes and off where it says no, in any case of
/// letters and with whitespace around; it has its default where the variable is not
/// set, is empty or says anything else. The Hub is off, and optional, by default.
pub proof fn law_flags(raw: Option<Seq<char>>, default: bool, settings: HubSettingsView)
    ensures
        raw is Some && says_yes(raw->0) ==> customer_hub::flag_spec(raw, default),
        raw is Some && says_no(raw->0) ==> !customer_hub::flag_spec(raw, default),
        raw is None || (!says_yes(raw->0) && !says_no(raw->0)) ==> customer_hub::flag_spec(
            raw,
            default,
        ) == default,
        settings.is_enabled() <==> settings.enabled is Some && says_yes(settings.enabled->0),
        settings.is_optional() <==> settings.optional is None || !says_no(settings.optional->0),
{
    lemma_flag_words();
}

/// A key has no text, or a blank one.
pub open spec fn is_blank_at(object: JsonView, key: Seq<char>) -> bool {
    !(object.get(key) matches Some(JsonView::Str(s)) && text::trim_spec(s).len() > 0)
}

/// A key has no text, or an empty one.
pub open spec fn is_empty_at(object: JsonView, key: Seq<char>) -> bool {
    !(object.get(key) matches Some(JsonView::Str(s)) && s.len() > 0)
}

/// The text at a key that has one.
pub open spec fn text_at(object: JsonView, key: Seq<char>) -> Seq<char> {
    object.get(key)->0->Str_0
}

/// The phone number of an identity is the first of its four numbers that is not
/// blank, trimmed.
pub proof fn law_identity_phone(identity: JsonView)
    ensures
        ({
            let phone = customer_hub::identity_phone(identity);
            let a = is_blank_at(identity, "phone"@);
            let b = is_blank_at(identity, "phone_number"@);
            let c = is_blank_at(identity, "whatsapp_number"@);
            let d = is_blank_at(identity, "whatsapp"@);
            &&& !a ==> phone == Some(text::trim_spec(text_at(identity, "phone"@)))
            &&& a && !b ==> phone == Some(text::trim_spec(text_at(identity, "phone_number"@)))
            &&& a && b && !c ==> phone == Some(
                text::trim_spec(text_at(identity, "whatsapp_number"@)),
            )
            &&& a && b && c && !d ==> phone == Some(
                text::trim_spec(text_at(identity, "whatsapp"@)),
            )
            &&& a && b && c && d ==> phone is None
        }),
{
}

/// A person is a Hub customer exactly where it is an object with an id that is not
/// blank.
pub proof fn law_hub_customer_exists(person: JsonView)
    ensures
        customer_hub::hub_customer(person) is Some <==> !is_blank_at(person, "id"@),
{
}

/// A Hub customer has the id trimmed; a phone number, which is the canonical one or
/// else the short one; a WhatsApp number, which is its own or else the phone number;
/// a name, which is the canonical one or else the short one; and an email address.
/// What is missing is null. Every other key is that of the person.
pub proof fn law_hub_customer_fields(person: JsonView, key: Seq<char>)
    requires
        customer_hub::hub_customer(person) is Some,
    ensures
        ({
            let hub = customer_hub::hub_customer(person)->0;
            let no_number = is_empty_at(person, "phone_number"@);
            let no_phone = is_empty_at(person, "phone"@);
            let no_whatsapp = is_empty_at(person, "whatsapp_number"@);
            let no_display = is_empty_at(person, "display_name"@);
            let no_name = is_empty_at(person, "name"@);
            &&& hub.get("id"@) == Some(JsonView::Str(text::trim_spec(text_at(person, "id"@))))
            &&& !no_number ==> hub.get("phone_number"@) == person.get("phone_number"@)
            &&& no_number && !no_phone ==> hub.get("phone_number"@) == person.get("phone"@)
            &&& no_number && no_phone ==> hub.get("phone_number"@) == Some(JsonView::Null)
            &&& !no_whatsapp ==> hub.get("whatsapp_number"@) == person.get("whatsapp_number"@)
            &&& no_whatsapp ==> hub.get("whatsapp_number"@) == hub.get("phone_number"@)
            &&& !no_display ==> hub.get("display_name"@) == person.get("display_name"@)
            &&& no_display && !no_name ==> hub.get("display_name"@) == person.get("name"@)
            &&& no_display && no_name ==> hub.get("display_name"@) == Some(JsonView::Null)
            &&& person.get("email"@) matches Some(JsonView::Str(e)) ==> hub.get("email"@)
                == person.get("email"@)
            &&& !(person.get("email"@) matches Some(JsonView::Str(e))) ==> hub.get("email"@)
                == Some(JsonView::Null)
            &&& key != "id"@ && key != "phone_number"@ && key != "whatsapp_number"@ && key
                != "display_name"@ && key != "email"@ ==> hub.get(key) == person.get(key)
        }),
{
    lemma_person_keys();
}

/// An identity that is overlaid with an input has the keys of both, and where both
/// have a key, the value of the input. What is no object has no keys.
pub proof fn law_merged(input: Option<JsonView>, identity: JsonView, key: Seq<char>)
    ensures
        ({
            let merged = customer_hub::merged_identity(input, identity);
            let over = input is Some && input->0.get(key) is Some;
            &&& merged is Object
            &&& over ==> merged.get(key) == input->0.get(key)
            &&& !over ==> merged.get(key) == identity.get(key)
        }),
{
}

/// What the Hub is told of an identity: its id; its phone number, the canonical one
/// or else the short one; its WhatsApp number, email address and name where they are
/// not empty; its channel, or the one that its addresses suggest; and its identifier,
/// or else its first address, or else its id. Nothing else.
pub proof fn law_picked_fields(merged: JsonView, key: Seq<char>)
    ensures
        ({
            let picked = JsonView::Object(customer_hub::picked_identity(merged));
            let no_number = is_empty_at(merged, "phone_number"@);
            let no_phone = is_empty_at(merged, "phone"@);
            let no_whatsapp = is_empty_at(merged, "whatsapp_number"@);
            let no_email = is_empty_at(merged, "email"@);
            let no_display = is_empty_at(merged, "display_name"@);
            let no_name = is_empty_at(merged, "name"@);
            let no_channel = is_empty_at(merged, "channel"@);
            let no_identifier = is_empty_at(merged, "identifier"@);
            let has_id = merged.get("id"@) matches Some(JsonView::Str(s));
            &&& has_id ==> picked.get("id"@) == merged.get("id"@)
            &&& !has_id ==> picked.get("id"@) is None
            &&& !no_number ==> picked.get("phone_number"@) == merged.get("phone_number"@)
            &&& no_number && !no_phone ==> picked.get("phone_number"@) == merged.get("phone"@)
            &&& no_number && no_phone ==> picked.get("phone_number"@) is None
            &&& !no_whatsapp ==> picked.get("whatsapp_number"@) == merged.get("whatsapp_number"@)
            &&& no_whatsapp ==> picked.get("whatsapp_number"@) is None
            &&& !no_email ==> picked.get("email"@) == merged.get("email"@)
            &&& no_email ==> picked.get("email"@) is None
            &&& !no_display ==> picked.get("display_name"@) == merged.get("display_name"@)
            &&& no_display && !no_name ==> picked.get("display_name"@) == merged.get("name"@)
            &&& no_display && no_name ==> picked.get("display_name"@) is None
            &&& !no_channel ==> picked.get("channel"@) == merged.get("channel"@)
            &&& no_channel && !no_whatsapp ==> picked.get("channel"@) == Some(
                JsonView::Str("whatsapp"@),
            )
            &&& no_channel && no_whatsapp && !(no_number && no_phone) ==> picked.get("channel"@)
                == Some(JsonView::Str("sms"@))
            &&& no_channel && no_whatsapp && no_number && no_phone && !no_email ==> picked.get(
                "channel"@,
            ) == Some(JsonView::Str("email"@))
            &&& no_channel && no_whatsapp && no_number && no_phone && no_email ==> picked.get(
                "channel"@,
            ) == Some(JsonView::Str("api"@))
            &&& !no_identifier ==> picked.get("identifier"@) == merged.get("identifier"@)
            &&& no_identifier && !no_whatsapp ==> picked.get("identifier"@) == merged.get(
                "whatsapp_number"@,
            )
            &&& no_identifier && no_whatsapp && !(no_number && no_phone) ==> picked.get(
                "identifier"@,
            ) == picked.get("phone_number"@)
            &&& no_identifier && no_whatsapp && no_number && no_phone && !no_email ==> picked.get(
                "identifier"@,
            ) == merged.get("email"@)
            &&& no_identifier && no_whatsapp && no_number && no_phone && no_email ==> picked.get(
                "identifier"@,
            ) == picked.get("id"@)
            &&& key != "id"@ && key != "phone_number"@ && key != "whatsapp_number"@ && key
                != "email"@ && key != "display_name"@ && key != "channel"@ && key
                != "identifier"@ ==> picked.get(key) is None
        }),
{
    lemma_person_keys();
}

/// Nothing is done while the Hub is optional; otherwise there is an error.
pub open spec fn is_passed_over(
    call: Result<HubCallView, ToolErrorView>,
    settings: HubSettingsView,
    message: Seq<char>,
) -> bool {
    &&& settings.optional is None || !says_no(settings.optional->0) ==> call == Ok::<
        HubCallView,
        ToolErrorView,
    >(HubCallView::Skip)
    &&& !(settings.optional is None || !says_no(settings.optional->0)) ==> call == Err::<
        HubCallView,
        ToolErrorView,
    >(ToolErrorView::Message(message))
}

/// An address that is there once the slashes at its end are off.
pub open spec fn has_address(url: Option<Seq<char>>) -> bool {
    url is Some && text::strip_end_spec(url->0, '/').len() > 0
}

/// The Hub can be found: the platform binds it, with a context that names a tenant
/// and a workspace; and there is an address, of the binding or of the environment.
pub open spec fn is_found(
    platform: Option<PlatformCapabilitiesView>,
    settings: HubSettingsView,
) -> bool {
    &&& platform is Some
    &&& platform->0.customer is Some
    &&& platform->0.customer->0.context is Some
    &&& platform->0.customer->0.context->0.tenant_id.len() > 0
    &&& platform->0.customer->0.context->0.workspace_id.len() > 0
    &&& has_address(platform->0.customer->0.base_url) || has_address(settings.url)
}

/// The bearer is a token, or none where that is empty.
pub open spec fn is_bearer(bearer: Option<Seq<char>>, token: Seq<char>) -> bool {
    &&& token.len() > 0 ==> bearer == Some(token)
    &&& token.len() == 0 ==> bearer is None
}

/// A call of the Hub comes to a request exactly where the Hub is on and can be found.
/// The request goes to the operation, at the address of the binding or else of the
/// environment; its bearer is the token of the binding or else the first token of the
/// environment; and it says what the call says, and the context of the binding.
pub proof fn law_hub_called(
    settings: HubSettingsView,
    platform: Option<PlatformCapabilitiesView>,
    op: Seq<char>,
    body: JsonView,
    key: Seq<char>,
)
    ensures
        ({
            let call = customer_hub::hub_call_spec(settings, platform, op, body);
            let on = settings.enabled is Some && says_yes(settings.enabled->0);
            &&& !on ==> is_passed_over(call, settings, "customer_hub_disabled"@)
            &&& on && !is_found(platform, settings) ==> is_passed_over(
                call,
                settings,
                "customer_hub_unavailable"@,
            )
            &&& on && is_found(platform, settings) ==> {
                let binding = platform->0.customer->0;
                let sent = call->Ok_0->Post_0;
                &&& call is Ok
                &&& call->Ok_0 is Post
                &&& has_address(binding.base_url) ==> sent.url == text::strip_end_spec(
                    binding.base_url->0,
                    '/',
                ) + "/v1/internal/customer-hub/"@ + op
                &&& !has_address(binding.base_url) ==> sent.url == text::strip_end_spec(
                    settings.url->0,
                    '/',
                ) + "/v1/internal/customer-hub/"@ + op
                &&& binding.token is Some && binding.token->0.len() > 0 ==> is_bearer(
                    sent.bearer,
                    binding.token->0,
                )
                &&& binding.token is None || binding.token->0.len() == 0 ==> {
                    &&& settings.service_token is Some ==> is_bearer(
                        sent.bearer,
                        settings.service_token->0,
                    )
                    &&& settings.service_token is None && settings.internal_token is Some
                        ==> is_bearer(sent.bearer, settings.internal_token->0)
                    &&& settings.service_token is None && settings.internal_token is None
                        && settings.internal_bearer is Some ==> is_bearer(
                        sent.bearer,
                        settings.internal_bearer->0,
                    )
                    &&& settings.service_token is None && settings.internal_token is None
                        && settings.internal_bearer is None ==> sent.bearer is None
                }
                &&& body is Object ==> sent.payload is Object && sent.payload.get("context"@)
                    == Some(binding.context->0.json())
                &&& body is Object && key != "context"@ ==> sent.payload.get(key) == body.get(key)
                &&& !(body is Object) ==> sent.payload == body
            }
        }),
{
    lemma_flag_words();
}

/// The Hub is where the call of it goes.
pub proof fn law_endpoint(
    platform: Option<PlatformCapabilitiesView>,
    settings: HubSettingsView,
)
    ensures
        ({
            let endpoint = customer_hub::hub_endpoint(platform, settings);
            let binding = platform->0.customer->0;
            &&& endpoint is Some <==> is_found(platform, settings)
            &&& endpoint is Some ==> endpoint->0.context == binding.context->0
            &&& endpoint is Some && has_address(binding.base_url) ==> endpoint->0.base_url
                == text::strip_end_spec(binding.base_url->0, '/')
            &&& endpoint is Some && !has_address(binding.base_url) ==> endpoint->0.base_url
                == text::strip_end_spec(settings.url->0, '/')
            &&& endpoint is Some && binding.token is Some && binding.token->0.len() > 0
                ==> endpoint->0.token == binding.token->0
            &&& endpoint is Some && (binding.token is None || binding.token->0.len() == 0) ==> {
                &&& settings.service_token is Some ==> endpoint->0.token
                    == settings.service_token->0
                &&& settings.service_token is None && settings.internal_token is Some
                    ==> endpoint->0.token == settings.internal_token->0
                &&& settings.service_token is None && settings.internal_token is None
                    && settings.internal_bearer is Some ==> endpoint->0.token
                    == settings.internal_bearer->0
                &&& settings.service_token is None && settings.internal_token is None
                    && settings.internal_bearer is None ==> endpoint->0.token.len() == 0
            }
        }),
{
}

/// A reply of success gives its body, to be parsed, or an empty object where that is
/// empty. Another reply, and none, is an error that says so; while the Hub is
/// optional, one that the Hub is missing or at fault is passed over.
pub proof fn law_reply(settings: HubSettingsView, op: Seq<char>, reply: HubReplyView)
    ensures
        ({
            let outcome = customer_hub::hub_reply_spec(settings, op, reply);
            let optional = settings.optional is None || !says_no(settings.optional->0);
            match reply {
                HubReplyView::Unreachable(e) => {
                    &&& optional ==> outcome == Ok::<HubOutcomeView, ToolErrorView>(
                        HubOutcomeView::Skip,
                    )
                    &&& !optional ==> outcome == Err::<HubOutcomeView, ToolErrorView>(
                        ToolErrorView::Message("customer_hub."@ + op + " failed"@ + ": "@ + e),
                    )
                },
                HubReplyView::Answered { status, body } => {
                    let good = 200 <= status <= 299;
                    let soft = optional && (status == 404 || status >= 500);
                    &&& good && body.len() == 0 ==> outcome == Ok::<HubOutcomeView, ToolErrorView>(
                        HubOutcomeView::Value(JsonView::Object(Map::empty())),
                    )
                    &&& good && body.len() > 0 ==> outcome == Ok::<HubOutcomeView, ToolErrorView>(
                        HubOutcomeView::Parse(body),
                    )
                    &&& !good && soft ==> outcome == Ok::<HubOutcomeView, ToolErrorView>(
                        HubOutcomeView::Skip,
                    )
                    &&& !good && !soft ==> outcome == Err::<HubOutcomeView, ToolErrorView>(
                        ToolErrorView::Message(
                            "customer_hub."@ + op + " failed"@ + " ("@ + text::decimal_spec(
                                status as nat,
                            ) + "): "@ + body,
                        ),
                    )
                },
            }
        }),
{
    lemma_flag_words();
}

/// The customer of a call is the one that the input names; else the current one, by
/// its id where that is not empty.
pub open spec fn is_customer(
    id: Seq<char>,
    named: Option<Seq<char>>,
    state: CustomerStateView,
) -> bool {
    ||| named == Some(id)
    ||| named is None && state.current is Some && !is_empty_at(state.current->0, "id"@) && id
        == text_at(state.current->0, "id"@)
}

/// There is no customer for a call.
pub open spec fn has_no_customer(named: Option<Seq<char>>, state: CustomerStateView) -> bool {
    named is None && (state.current is None || is_empty_at(state.current->0, "id"@))
}

/// The customer of a call is chosen so; without one the call is passed over or fails.
pub proof fn law_customer_chosen(
    settings: HubSettingsView,
    state: CustomerStateView,
    named: Option<Seq<char>>,
    id: Seq<char>,
)
    ensures
        ({
            let chosen = customer_hub::chosen_customer_id(settings, state, named);
            let optional = settings.optional is None || !says_no(settings.optional->0);
            &&& is_customer(id, named, state) ==> chosen == Ok::<Option<Seq<char>>, ToolErrorView>(
                Some(id),
            )
            &&& has_no_customer(named, state) && optional ==> chosen == Ok::<
                Option<Seq<char>>,
                ToolErrorView,
            >(None)
            &&& has_no_customer(named, state) && !optional ==> chosen == Err::<
                Option<Seq<char>>,
                ToolErrorView,
            >(ToolErrorView::Message("customer_not_found"@))
            &&& named is None && is_customer(id, named, state)
                ==> customer_hub::known_customer_id(state) == Some(id)
            &&& has_no_customer(None, state) ==> customer_hub::known_customer_id(state) is None
        }),
{
    lemma_flag_words();
}

/// What is said at a key is what the input says there, or a default where the input
/// has no such key.
pub open spec fn passes_on(
    said: JsonView,
    key: Seq<char>,
    input: JsonView,
    default: JsonView,
) -> bool {
    &&& input.get(key) is Some ==> said.get(key) == input.get(key)
    &&& input.get(key) is None ==> said.get(key) == Some(default)
}

/// What an activity of a customer says to the Hub: the customer, the event, the
/// payload of the input or else an empty object, and the source of the input or else
/// `sdk`.
pub open spec fn says_activity(said: JsonView, input: JsonView, id: Seq<char>) -> bool {
    &&& said is Object
    &&& said.get("customer_id"@) == Some(JsonView::Str(id))
    &&& said.get("event_type"@) == Some(
        JsonView::Str(text::trim_spec(text_at(input, "event_type"@))),
    )
    &&& passes_on(said, "payload"@, input, JsonView::Object(Map::empty()))
    &&& input.get("source"@) matches Some(JsonView::Str(s)) ==> said.get("source"@)
        == input.get("source"@)
    &&& !(input.get("source"@) matches Some(JsonView::Str(s))) ==> said.get("source"@) == Some(
        JsonView::Str("sdk"@),
    )
    &&& forall|key: Seq<char>| #[trigger]
        said.get(key) is Some ==> key == "customer_id"@ || key == "event_type"@ || key
            == "payload"@ || key == "source"@
}

/// An activity needs an event that is not blank. Its customer is the one that the
/// input names, else the current one; without a customer it is passed over or fails.
/// Otherwise the Hub is called to append it, with what the input says.
pub proof fn law_activity_appended(
    timeline: TimelineContextView,
    settings: HubSettingsView,
    input: JsonView,
    id: Seq<char>,
)
    ensures
        ({
            let call = timeline.append_spec(settings, input);
            let named = if input.get("customer_id"@) matches Some(JsonView::Str(s)) {
                Some(text_at(input, "customer_id"@))
            } else {
                None::<Seq<char>>
            };
            let blank = is_blank_at(input, "event_type"@);
            &&& blank ==> call == Err::<HubCallView, ToolErrorView>(
                ToolErrorView::Message("timeline_event_empty"@),
            )
            &&& !blank && has_no_customer(named, timeline.state) ==> is_passed_over(
                call,
                settings,
                "customer_not_found"@,
            )
            &&& !blank && is_customer(id, named, timeline.state) ==> exists|said: JsonView|
                says_activity(said, input, id) && call == #[trigger] customer_hub::hub_call_spec(
                    settings,
                    timeline.platform,
                    "timeline_append"@,
                    said,
                )
        }),
{
    lemma_flag_words();
    lemma_body_keys();
    let said = customer_hub::timeline_body(input, id);
    if !is_blank_at(input, "event_type"@) {
        assert(says_activity(said, input, id));
    }
}

/// Where appending an activity comes to a request, the request carries the payload of
/// the input, whatever it is; an empty object only where the input has none.
pub proof fn law_payload_sent(
    timeline: TimelineContextView,
    settings: HubSettingsView,
    input: JsonView,
)
    requires
        timeline.append_spec(settings, input) matches Ok(HubCallView::Post(_)),
    ensures
        ({
            let sent = timeline.append_spec(settings, input)->Ok_0->Post_0;
            &&& passes_on(sent.payload, "payload"@, input, JsonView::Object(Map::empty()))
            &&& sent.payload.get("event_type"@) == Some(
                JsonView::Str(text::trim_spec(text_at(input, "event_type"@))),
            )
            &&& input.get("customer_id"@) matches Some(JsonView::Str(s)) ==> sent.payload.get(
                "customer_id"@,
            ) == input.get("customer_id"@)
        }),
{
    lemma_body_keys();
}

/// What a membership says to the Hub: the customer; the solution that the input
/// names, else the one of the context, else null; and the role and the metadata of
/// the input, else null and an empty object.
pub open spec fn says_membership(
    said: JsonView,
    own_solution: Option<Seq<char>>,
    input: JsonView,
    id: Seq<char>,
) -> bool {
    &&& said is Object
    &&& said.get("customer_id"@) == Some(JsonView::Str(id))
    &&& input.get("solution_id"@) matches Some(JsonView::Str(s)) ==> said.get("solution_id"@)
        == input.get("solution_id"@)
    &&& !(input.get("solution_id"@) matches Some(JsonView::Str(s))) && own_solution is Some
        ==> said.get("solution_id"@) == Some(JsonView::Str(own_solution->0))
    &&& !(input.get("solution_id"@) matches Some(JsonView::Str(s))) && own_solution is None
        ==> said.get("solution_id"@) == Some(JsonView::Null)
    &&& passes_on(said, "role"@, input, JsonView::Null)
    &&& passes_on(said, "metadata"@, input, JsonView::Object(Map::empty()))
    &&& forall|key: Seq<char>| #[trigger]
        said.get(key) is Some ==> key == "customer_id"@ || key == "solution_id"@ || key
            == "role"@ || key == "metadata"@
}

/// An operation on a membership is for the customer that the input names, where that
/// is not empty, else for the current one. Without one it is passed over or fails.
/// Otherwise the Hub is called for the operation, with what the input says.
pub proof fn law_membership_sent(
    membership: MembershipContextView,
    settings: HubSettingsView,
    op: Seq<char>,
    input: Option<JsonView>,
    id: Seq<char>,
)
    ensures
        ({
            let call = membership.call_spec(settings, op, input);
            let given = if input is Some {
                input->0
            } else {
                JsonView::Object(Map::empty())
            };
            let named = if is_empty_at(given, "customer_id"@) {
                None::<Seq<char>>
            } else {
                Some(text_at(given, "customer_id"@))
            };
            &&& has_no_customer(named, membership.state) ==> is_passed_over(
                call,
                settings,
                "customer_not_found"@,
            )
            &&& is_customer(id, named, membership.state) ==> exists|said: JsonView|
                says_membership(said, membership.solution_id, given, id) && call
                    == #[trigger] customer_hub::hub_call_spec(
                    settings,
                    membership.platform,
                    op,
                    said,
                )
        }),
{
    lemma_flag_words();
    lemma_body_keys();
    let given = if input is Some {
        input->0
    } else {
        JsonView::Object(Map::empty())
    };
    let said = membership.body(customer_hub::input_view(input), id);
    assert(says_membership(said, membership.solution_id, given, id));
}

/// What a consent says to the Hub: the customer, the purpose, and the metadata of the
/// input or else an empty object.
pub open spec fn says_consent(said: JsonView, input: JsonView, id: Seq<char>) -> bool {
    &&& said is Object
    &&& said.get("customer_id"@) == Some(JsonView::Str(id))
    &&& said.get("purpose"@) == Some(JsonView::Str(text::trim_spec(text_at(input, "purpose"@))))
    &&& passes_on(said, "metadata"@, input, JsonView::Object(Map::empty()))
    &&& forall|key: Seq<char>| #[trigger]
        said.get(key) is Some ==> key == "customer_id"@ || key == "purpose"@ || key
            == "metadata"@
}

/// An operation on a consent needs a purpose that is not blank. It is for the customer
/// that the input names, where that is not empty, else for the current one. Without
/// one it is passed over or fails. Otherwise the Hub is called for the operation, with
/// what the input says.
pub proof fn law_consent_sent(
    consent: ConsentContextView,
    settings: HubSettingsView,
    op: Seq<char>,
    input: JsonView,
    id: Seq<char>,
)
    ensures
        ({
            let call = consent.call_spec(settings, op, input);
            let named = if is_empty_at(input, "customer_id"@) {
                None::<Seq<char>>
            } else {
                Some(text_at(input, "customer_id"@))
            };
            let blank = is_blank_at(input, "purpose"@);
            &&& blank ==> call == Err::<HubCallView, ToolErrorView>(
                ToolErrorView::Message("consent_purpose_empty"@),
            )
            &&& !blank && has_no_customer(named, consent.state) ==> is_passed_over(
                call,
                settings,
                "customer_not_found"@,
            )
            &&& !blank && is_customer(id, named, consent.state) ==> exists|said: JsonView|
                says_consent(said, input, id) && call == #[trigger] customer_hub::hub_call_spec(
                    settings,
                    consent.platform,
                    op,
                    said,
                )
        }),
{
    lemma_flag_words();
    lemma_body_keys();
    let said = customer_hub::consent_body(input, id);
    if !is_blank_at(input, "purpose"@) {
        assert(says_consent(said, input, id));
    }
}

/// A value is moved from one key to another, or is null where it is missing.
pub open spec fn moves(to: JsonView, new: Seq<char>, from: JsonView, old_key: Seq<char>) -> bool {
    &&& from.get(old_key) is Some ==> to.get(new) == from.get(old_key)
    &&& from.get(old_key) is None ==> to.get(new) == Some(JsonView::Null)
}

/// A snapshot of a person with an id that is not empty is a customer with that id, the
/// phone number under both its keys, the name, email address, status and workspace,
/// and nothing else.
pub proof fn law_seeded_fields(person: JsonView, key: Seq<char>)
    ensures
        ({
            let seeded = customer_hub::seeded_customer(person);
            let hub = seeded->0;
            &&& seeded is Some <==> !is_empty_at(person, "id"@)
            &&& seeded is Some ==> {
                &&& hub.get("id"@) == person.get("id"@)
                &&& moves(hub, "phone_number"@, person, "phone"@)
                &&& moves(hub, "whatsapp_number"@, person, "phone"@)
                &&& moves(hub, "display_name"@, person, "name"@)
                &&& moves(hub, "email"@, person, "email"@)
                &&& moves(hub, "status"@, person, "status"@)
                &&& moves(hub, "workspace_id"@, person, "workspace_id"@)
                &&& hub.get(key) is Some ==> key == "id"@ || key == "phone_number"@ || key
                    == "whatsapp_number"@ || key == "display_name"@ || key == "email"@ || key
                    == "status"@ || key == "workspace_id"@
            }
        }),
{
    lemma_person_keys();
}

} // verus!
