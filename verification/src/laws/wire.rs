//! Laws of the wire: what each value says as JSON, key by key, and that it says
//! nothing else.

use crate::auth::{AuthenticationContextPayloadView, ChallengePayloadView};
use crate::customer_hub::{
    PlatformCapabilitiesView, PlatformCustomerBindingView, PlatformCustomerContextView,
    PlatformStorageBindingView, PlatformStorageContextView,
};
use crate::json::JsonView;
use crate::marketing::{
    MarketingAction, MarketingActionView, MarketingAudience, MarketingAudienceAppQueryView,
    MarketingAudienceCustomerHubView, MarketingAudienceView, MarketingCapabilityView,
    MarketingChannel, MarketingChannelView, MarketingDefinitionView, MarketingEntry,
    MarketingLandingPage, MarketingLandingPageView, MarketingMetadataView,
    MarketingRegistrationView, MarketingVariable, MarketingVariableView,
};
use crate::protocol::{QefroRequestView, QefroResponseView};
use crate::source;
use crate::text;
use crate::tools::{RegisteredToolView, ToolAuthMode, ToolLookupView, ToolMetadataView};
use vstd::prelude::*;

verus! {

/// A key has a text.
pub open spec fn has_text(j: JsonView, key: Seq<char>, s: Seq<char>) -> bool {
    j.get(key) == Some(JsonView::Str(s))
}

/// A key has a text, or is left out where there is none.
pub open spec fn may_have_text(j: JsonView, key: Seq<char>, s: Option<Seq<char>>) -> bool {
    &&& s is Some ==> has_text(j, key, s->0)
    &&& s is None ==> j.get(key) is None
}

/// A key has a text, or null where there is none.
pub open spec fn has_text_or_null(j: JsonView, key: Seq<char>, s: Option<Seq<char>>) -> bool {
    &&& s is Some ==> has_text(j, key, s->0)
    &&& s is None ==> j.get(key) == Some(JsonView::Null)
}

/// A key has an array of texts, in order.
pub open spec fn has_texts(j: JsonView, key: Seq<char>, texts: Seq<Seq<char>>) -> bool {
    &&& j.get(key) is Some
    &&& j.get(key)->0 is Array
    &&& j.get(key)->0->Array_0.len() == texts.len()
    &&& forall|i: int|
        0 <= i < texts.len() ==> #[trigger] j.get(key)->0->Array_0[i] == JsonView::Str(texts[i])
}

/// A key has an array of entries, in order, each as it is by itself.
pub open spec fn has_entries<T: MarketingEntry>(
    j: JsonView,
    key: Seq<char>,
    list: Seq<T::V>,
) -> bool {
    &&& j.get(key) is Some
    &&& j.get(key)->0 is Array
    &&& j.get(key)->0->Array_0.len() == list.len()
    &&& forall|i: int|
        0 <= i < list.len() ==> #[trigger] j.get(key)->0->Array_0[i] == T::entry_json(list[i])
}

proof fn lemma_tool_lookup_keys()
    ensures
        "by"@ != "required"@,
{
    reveal_strlit("by");
    reveal_strlit("required");
    assert("by"@.len() == 2);
    assert("required"@.len() == 8);
}

/// A lookup as JSON: each field under its key, and no other key.
pub proof fn law_tool_lookup_json(v: ToolLookupView, key: Seq<char>)
    ensures
        ({
            let j = v.json();
            &&& j is Object
            &&& may_have_text(j, "by"@, v.by)
            &&& v.required.len() > 0 ==> has_texts(j, "required"@, v.required)
            &&& v.required.len() == 0 ==> j.get("required"@) is None
            &&& j.get(key) is Some ==> key == "by"@ || key == "required"@
        }),
{
    lemma_tool_lookup_keys();
}

proof fn lemma_registered_tool_keys()
    ensures
        "name"@ != "description"@,
        "name"@ != "input_schema"@,
        "name"@ != "authentication_methods"@,
        "name"@ != "auth"@,
        "name"@ != "permissions"@,
        "name"@ != "timeout"@,
        "name"@ != "lookup"@,
        "description"@ != "input_schema"@,
        "description"@ != "authentication_methods"@,
        "description"@ != "auth"@,
        "description"@ != "permissions"@,
        "description"@ != "timeout"@,
        "description"@ != "lookup"@,
        "input_schema"@ != "authentication_methods"@,
        "input_schema"@ != "auth"@,
        "input_schema"@ != "permissions"@,
        "input_schema"@ != "timeout"@,
        "input_schema"@ != "lookup"@,
        "authentication_methods"@ != "auth"@,
        "authentication_methods"@ != "permissions"@,
        "authentication_methods"@ != "timeout"@,
        "authentication_methods"@ != "lookup"@,
        "auth"@ != "permissions"@,
        "auth"@ != "timeout"@,
        "auth"@ != "lookup"@,
        "permissions"@ != "timeout"@,
        "permissions"@ != "lookup"@,
        "timeout"@ != "lookup"@,
{
    reveal_strlit("name");
    reveal_strlit("description");
    reveal_strlit("input_schema");
    reveal_strlit("authentication_methods");
    reveal_strlit("auth");
    reveal_strlit("permissions");
    reveal_strlit("timeout");
    reveal_strlit("lookup");
    assert("name"@.len() == 4);
    assert("description"@.len() == 11);
    assert("input_schema"@.len() == 12);
    assert("authentication_methods"@.len() == 22);
    assert("auth"@.len() == 4);
    assert("permissions"@.len() == 11);
    assert("timeout"@.len() == 7);
    assert("lookup"@.len() == 6);
    assert("name"@[0] == 'n' && "auth"@[0] == 'a');
    assert("description"@[0] == 'd' && "permissions"@[0] == 'p');
}

/// A listed tool as JSON: each field under its key, and no other key.
pub proof fn law_registered_tool_json(v: RegisteredToolView, key: Seq<char>)
    ensures
        ({
            let j = v.json();
            &&& j is Object
            &&& has_text(j, "name"@, v.name)
            &&& may_have_text(j, "description"@, v.description)
            &&& j.get("input_schema"@) == v.input_schema
            &&& v.authentication_methods.len() > 0 ==> has_texts(j, "authentication_methods"@, v.authentication_methods)
            &&& v.authentication_methods.len() == 0 ==> j.get("authentication_methods"@) is None
            &&& v.auth == ToolAuthMode::NoAuth ==> has_text(j, "auth"@, "none"@)
            &&& v.auth == ToolAuthMode::Optional ==> has_text(j, "auth"@, "optional"@)
            &&& v.auth == ToolAuthMode::Required ==> has_text(j, "auth"@, "required"@)
            &&& v.permissions.len() > 0 ==> has_texts(j, "permissions"@, v.permissions)
            &&& v.permissions.len() == 0 ==> j.get("permissions"@) is None
            &&& v.timeout is Some ==> j.get("timeout"@) == Some(
                JsonView::Number(text::decimal_spec(v.timeout->0 as nat)),
            )
            &&& v.timeout is None ==> j.get("timeout"@) is None
            &&& v.lookup is Some ==> j.get("lookup"@) == Some(v.lookup->0.json())
            &&& v.lookup is None ==> j.get("lookup"@) is None
            &&& j.get(key) is Some ==> {
                ||| key == "name"@
                ||| key == "description"@
                ||| key == "input_schema"@
                ||| key == "authentication_methods"@
                ||| key == "auth"@
                ||| key == "permissions"@
                ||| key == "timeout"@
                ||| key == "lookup"@
            }
        }),
{
    lemma_registered_tool_keys();
}

proof fn lemma_tool_metadata_keys()
    ensures
        "name"@ != "description"@,
        "name"@ != "input_schema"@,
        "name"@ != "authentication_methods"@,
        "name"@ != "auth"@,
        "name"@ != "permissions"@,
        "name"@ != "timeout"@,
        "name"@ != "default_auth_method"@,
        "name"@ != "lookup"@,
        "description"@ != "input_schema"@,
        "description"@ != "authentication_methods"@,
        "description"@ != "auth"@,
        "description"@ != "permissions"@,
        "description"@ != "timeout"@,
        "description"@ != "default_auth_method"@,
        "description"@ != "lookup"@,
        "input_schema"@ != "authentication_methods"@,
        "input_schema"@ != "auth"@,
        "input_schema"@ != "permissions"@,
        "input_schema"@ != "timeout"@,
        "input_schema"@ != "default_auth_method"@,
        "input_schema"@ != "lookup"@,
        "authentication_methods"@ != "auth"@,
        "authentication_methods"@ != "permissions"@,
        "authentication_methods"@ != "timeout"@,
        "authentication_methods"@ != "default_auth_method"@,
        "authentication_methods"@ != "lookup"@,
        "auth"@ != "permissions"@,
        "auth"@ != "timeout"@,
        "auth"@ != "default_auth_method"@,
        "auth"@ != "lookup"@,
        "permissions"@ != "timeout"@,
        "permissions"@ != "default_auth_method"@,
        "permissions"@ != "lookup"@,
        "timeout"@ != "default_auth_method"@,
        "timeout"@ != "lookup"@,
        "default_auth_method"@ != "lookup"@,
{
    reveal_strlit("name");
    reveal_strlit("description");
    reveal_strlit("input_schema");
    reveal_strlit("authentication_methods");
    reveal_strlit("auth");
    reveal_strlit("permissions");
    reveal_strlit("timeout");
    reveal_strlit("default_auth_method");
    reveal_strlit("lookup");
    assert("name"@.len() == 4);
    assert("description"@.len() == 11);
    assert("input_schema"@.len() == 12);
    assert("authentication_methods"@.len() == 22);
    assert("auth"@.len() == 4);
    assert("permissions"@.len() == 11);
    assert("timeout"@.len() == 7);
    assert("default_auth_method"@.len() == 19);
    assert("lookup"@.len() == 6);
    assert("name"@[0] == 'n' && "auth"@[0] == 'a');
    assert("description"@[0] == 'd' && "permissions"@[0] == 'p');
}

/// The metadata of a tool as JSON: each field under its key, and no other key.
pub proof fn law_tool_metadata_json(v: ToolMetadataView, key: Seq<char>)
    ensures
        ({
            let j = v.json();
            &&& j is Object
            &&& has_text(j, "name"@, v.name)
            &&& may_have_text(j, "description"@, v.description)
            &&& j.get("input_schema"@) == v.input_schema
            &&& v.authentication_methods.len() > 0 ==> has_texts(j, "authentication_methods"@, v.authentication_methods)
            &&& v.authentication_methods.len() == 0 ==> j.get("authentication_methods"@) is None
            &&& v.auth == ToolAuthMode::NoAuth ==> has_text(j, "auth"@, "none"@)
            &&& v.auth == ToolAuthMode::Optional ==> has_text(j, "auth"@, "optional"@)
            &&& v.auth == ToolAuthMode::Required ==> has_text(j, "auth"@, "required"@)
            &&& v.permissions.len() > 0 ==> has_texts(j, "permissions"@, v.permissions)
            &&& v.permissions.len() == 0 ==> j.get("permissions"@) is None
            &&& v.timeout is Some ==> j.get("timeout"@) == Some(
                JsonView::Number(text::decimal_spec(v.timeout->0 as nat)),
            )
            &&& v.timeout is None ==> j.get("timeout"@) is None
            &&& may_have_text(j, "default_auth_method"@, v.default_auth_method)
            &&& v.lookup is Some ==> j.get("lookup"@) == Some(v.lookup->0.json())
            &&& v.lookup is None ==> j.get("lookup"@) is None
            &&& j.get(key) is Some ==> {
                ||| key == "name"@
                ||| key == "description"@
                ||| key == "input_schema"@
                ||| key == "authentication_methods"@
                ||| key == "auth"@
                ||| key == "permissions"@
                ||| key == "timeout"@
                ||| key == "default_auth_method"@
                ||| key == "lookup"@
            }
        }),
{
    lemma_tool_metadata_keys();
}

proof fn lemma_credential_keys()
    ensures
        "type"@ != "access_token"@,
        "type"@ != "credential"@,
        "type"@ != "refresh_token"@,
        "type"@ != "expires_in"@,
        "type"@ != "customer_id"@,
        "access_token"@ != "credential"@,
        "access_token"@ != "refresh_token"@,
        "access_token"@ != "expires_in"@,
        "access_token"@ != "customer_id"@,
        "credential"@ != "refresh_token"@,
        "credential"@ != "expires_in"@,
        "credential"@ != "customer_id"@,
        "refresh_token"@ != "expires_in"@,
        "refresh_token"@ != "customer_id"@,
        "expires_in"@ != "customer_id"@,
{
    reveal_strlit("type");
    reveal_strlit("access_token");
    reveal_strlit("credential");
    reveal_strlit("refresh_token");
    reveal_strlit("expires_in");
    reveal_strlit("customer_id");
    assert("type"@.len() == 4);
    assert("access_token"@.len() == 12);
    assert("credential"@.len() == 10);
    assert("refresh_token"@.len() == 13);
    assert("expires_in"@.len() == 10);
    assert("customer_id"@.len() == 11);
    assert("credential"@[0] == 'c' && "expires_in"@[0] == 'e');
}

/// A credential as JSON: each field under its key, and no other key.
pub proof fn law_credential_json(v: AuthenticationContextPayloadView, key: Seq<char>)
    ensures
        ({
            let j = v.json();
            &&& j is Object
            &&& may_have_text(j, "type"@, v.credential_type)
            &&& may_have_text(j, "access_token"@, v.access_token)
            &&& may_have_text(j, "credential"@, v.credential)
            &&& may_have_text(j, "refresh_token"@, v.refresh_token)
            &&& v.expires_in is Some ==> j.get("expires_in"@) == Some(
                JsonView::Number(text::decimal_int_spec(v.expires_in->0 as int)),
            )
            &&& v.expires_in is None ==> j.get("expires_in"@) is None
            &&& may_have_text(j, "customer_id"@, v.customer_id)
            &&& j.get(key) is Some ==> {
                ||| key == "type"@
                ||| key == "access_token"@
                ||| key == "credential"@
                ||| key == "refresh_token"@
                ||| key == "expires_in"@
                ||| key == "customer_id"@
            }
        }),
{
    lemma_credential_keys();
}

proof fn lemma_challenge_keys()
    ensures
        "type"@ != "message"@,
        "type"@ != "destination_hint"@,
        "type"@ != "login_url"@,
        "message"@ != "destination_hint"@,
        "message"@ != "login_url"@,
        "destination_hint"@ != "login_url"@,
{
    reveal_strlit("type");
    reveal_strlit("message");
    reveal_strlit("destination_hint");
    reveal_strlit("login_url");
    assert("type"@.len() == 4);
    assert("message"@.len() == 7);
    assert("destination_hint"@.len() == 16);
    assert("login_url"@.len() == 9);
}

/// A challenge as JSON: each field under its key, and no other key.
pub proof fn law_challenge_json(v: ChallengePayloadView, key: Seq<char>)
    ensures
        ({
            let j = v.json();
            &&& j is Object
            &&& has_text(j, "type"@, v.challenge_type)
            &&& has_text(j, "message"@, v.message)
            &&& may_have_text(j, "destination_hint"@, v.destination_hint)
            &&& may_have_text(j, "login_url"@, v.login_url)
            &&& j.get(key) is Some ==> {
                ||| key == "type"@
                ||| key == "message"@
                ||| key == "destination_hint"@
                ||| key == "login_url"@
            }
        }),
{
    lemma_challenge_keys();
}

proof fn lemma_request_keys()
    ensures
        "protocol_version"@ != "request_id"@,
        "protocol_version"@ != "type"@,
        "protocol_version"@ != "organization_id"@,
        "protocol_version"@ != "conversation_id"@,
        "protocol_version"@ != "channel"@,
        "protocol_version"@ != "identity"@,
        "protocol_version"@ != "tool"@,
        "protocol_version"@ != "parameters"@,
        "protocol_version"@ != "authentication"@,
        "protocol_version"@ != "resume_token"@,
        "protocol_version"@ != "challenge_response"@,
        "request_id"@ != "type"@,
        "request_id"@ != "organization_id"@,
        "request_id"@ != "conversation_id"@,
        "request_id"@ != "channel"@,
        "request_id"@ != "identity"@,
        "request_id"@ != "tool"@,
        "request_id"@ != "parameters"@,
        "request_id"@ != "authentication"@,
        "request_id"@ != "resume_token"@,
        "request_id"@ != "challenge_response"@,
        "type"@ != "organization_id"@,
        "type"@ != "conversation_id"@,
        "type"@ != "channel"@,
        "type"@ != "identity"@,
        "type"@ != "tool"@,
        "type"@ != "parameters"@,
        "type"@ != "authentication"@,
        "type"@ != "resume_token"@,
        "type"@ != "challenge_response"@,
        "organization_id"@ != "conversation_id"@,
        "organization_id"@ != "channel"@,
        "organization_id"@ != "identity"@,
        "organization_id"@ != "tool"@,
        "organization_id"@ != "parameters"@,
        "organization_id"@ != "authentication"@,
        "organization_id"@ != "resume_token"@,
        "organization_id"@ != "challenge_response"@,
        "conversation_id"@ != "channel"@,
        "conversation_id"@ != "identity"@,
        "conversation_id"@ != "tool"@,
        "conversation_id"@ != "parameters"@,
        "conversation_id"@ != "authentication"@,
        "conversation_id"@ != "resume_token"@,
        "conversation_id"@ != "challenge_response"@,
        "channel"@ != "identity"@,
        "channel"@ != "tool"@,
        "channel"@ != "parameters"@,
        "channel"@ != "authentication"@,
        "channel"@ != "resume_token"@,
        "channel"@ != "challenge_response"@,
        "identity"@ != "tool"@,
        "identity"@ != "parameters"@,
        "identity"@ != "authentication"@,
        "identity"@ != "resume_token"@,
        "identity"@ != "challenge_response"@,
        "tool"@ != "parameters"@,
        "tool"@ != "authentication"@,
        "tool"@ != "resume_token"@,
        "tool"@ != "challenge_response"@,
        "parameters"@ != "authentication"@,
        "parameters"@ != "resume_token"@,
        "parameters"@ != "challenge_response"@,
        "authentication"@ != "resume_token"@,
        "authentication"@ != "challenge_response"@,
        "resume_token"@ != "challenge_response"@,
{
    reveal_strlit("protocol_version");
    reveal_strlit("request_id");
    reveal_strlit("type");
    reveal_strlit("organization_id");
    reveal_strlit("conversation_id");
    reveal_strlit("channel");
    reveal_strlit("identity");
    reveal_strlit("tool");
    reveal_strlit("parameters");
    reveal_strlit("authentication");
    reveal_strlit("resume_token");
    reveal_strlit("challenge_response");
    assert("protocol_version"@.len() == 16);
    assert("request_id"@.len() == 10);
    assert("type"@.len() == 4);
    assert("organization_id"@.len() == 15);
    assert("conversation_id"@.len() == 15);
    assert("channel"@.len() == 7);
    assert("identity"@.len() == 8);
    assert("tool"@.len() == 4);
    assert("parameters"@.len() == 10);
    assert("authentication"@.len() == 14);
    assert("resume_token"@.len() == 12);
    assert("challenge_response"@.len() == 18);
    assert("request_id"@[0] == 'r' && "parameters"@[0] == 'p');
    assert("type"@[1] == 'y' && "tool"@[1] == 'o');
    assert("organization_id"@[0] == 'o' && "conversation_id"@[0] == 'c');
}

/// A request as JSON: each field under its key, and no other key.
pub proof fn law_request_json(v: QefroRequestView, key: Seq<char>)
    ensures
        ({
            let j = v.json();
            &&& j is Object
            &&& has_text(j, "protocol_version"@, v.protocol_version)
            &&& has_text(j, "request_id"@, source::uuid_spec(v.request_id))
            &&& has_text(j, "type"@, v.request_type)
            &&& v.organization_id is Some ==> has_text(j, "organization_id"@, source::uuid_spec(v.organization_id->0))
            &&& v.organization_id is None ==> j.get("organization_id"@) == Some(JsonView::Null)
            &&& v.conversation_id is Some ==> has_text(j, "conversation_id"@, source::uuid_spec(v.conversation_id->0))
            &&& v.conversation_id is None ==> j.get("conversation_id"@) == Some(JsonView::Null)
            &&& has_text_or_null(j, "channel"@, v.channel)
            &&& v.identity is Some ==> j.get("identity"@) == v.identity
            &&& v.identity is None ==> j.get("identity"@) == Some(JsonView::Null)
            &&& has_text_or_null(j, "tool"@, v.tool)
            &&& v.parameters is Some ==> j.get("parameters"@) == v.parameters
            &&& v.parameters is None ==> j.get("parameters"@) == Some(JsonView::Null)
            &&& v.authentication is Some ==> j.get("authentication"@) == v.authentication
            &&& v.authentication is None ==> j.get("authentication"@) == Some(JsonView::Null)
            &&& has_text_or_null(j, "resume_token"@, v.resume_token)
            &&& has_text_or_null(j, "challenge_response"@, v.challenge_response)
            &&& j.get(key) is Some ==> {
                ||| key == "protocol_version"@
                ||| key == "request_id"@
                ||| key == "type"@
                ||| key == "organization_id"@
                ||| key == "conversation_id"@
                ||| key == "channel"@
                ||| key == "identity"@
                ||| key == "tool"@
                ||| key == "parameters"@
                ||| key == "authentication"@
                ||| key == "resume_token"@
                ||| key == "challenge_response"@
            }
        }),
{
    lemma_request_keys();
}

proof fn lemma_audience_selection_keys()
    ensures
        "tags"@ != "consentPurpose"@,
        "tags"@ != "attrs"@,
        "consentPurpose"@ != "attrs"@,
{
    reveal_strlit("tags");
    reveal_strlit("consentPurpose");
    reveal_strlit("attrs");
    assert("tags"@.len() == 4);
    assert("consentPurpose"@.len() == 14);
    assert("attrs"@.len() == 5);
}

/// The Hub selection of an audience as JSON: each field under its key, and no other key.
pub proof fn law_audience_selection_json(v: MarketingAudienceCustomerHubView, key: Seq<char>)
    ensures
        ({
            let j = v.json();
            &&& j is Object
            &&& v.tags is Some ==> has_texts(j, "tags"@, v.tags->0)
            &&& v.tags is None ==> j.get("tags"@) is None
            &&& may_have_text(j, "consentPurpose"@, v.consent_purpose)
            &&& j.get("attrs"@) == v.attrs
            &&& j.get(key) is Some ==> {
                ||| key == "tags"@
                ||| key == "consentPurpose"@
                ||| key == "attrs"@
            }
        }),
{
    lemma_audience_selection_keys();
}

proof fn lemma_audience_query_keys()
    ensures
        "tool"@ != "input"@,
{
    reveal_strlit("tool");
    reveal_strlit("input");
    assert("tool"@.len() == 4);
    assert("input"@.len() == 5);
}

/// The query of an audience as JSON: each field under its key, and no other key.
pub proof fn law_audience_query_json(v: MarketingAudienceAppQueryView, key: Seq<char>)
    ensures
        ({
            let j = v.json();
            &&& j is Object
            &&& has_text(j, "tool"@, v.tool)
            &&& j.get("input"@) == v.input
            &&& j.get(key) is Some ==> key == "tool"@ || key == "input"@
        }),
{
    lemma_audience_query_keys();
}

proof fn lemma_audience_keys()
    ensures
        "id"@ != "label"@,
        "id"@ != "description"@,
        "id"@ != "source"@,
        "id"@ != "customerHub"@,
        "id"@ != "appQuery"@,
        "id"@ != "staticFilter"@,
        "label"@ != "description"@,
        "label"@ != "source"@,
        "label"@ != "customerHub"@,
        "label"@ != "appQuery"@,
        "label"@ != "staticFilter"@,
        "description"@ != "source"@,
        "description"@ != "customerHub"@,
        "description"@ != "appQuery"@,
        "description"@ != "staticFilter"@,
        "source"@ != "customerHub"@,
        "source"@ != "appQuery"@,
        "source"@ != "staticFilter"@,
        "customerHub"@ != "appQuery"@,
        "customerHub"@ != "staticFilter"@,
        "appQuery"@ != "staticFilter"@,
{
    reveal_strlit("id");
    reveal_strlit("label");
    reveal_strlit("description");
    reveal_strlit("source");
    reveal_strlit("customerHub");
    reveal_strlit("appQuery");
    reveal_strlit("staticFilter");
    assert("id"@.len() == 2);
    assert("label"@.len() == 5);
    assert("description"@.len() == 11);
    assert("source"@.len() == 6);
    assert("customerHub"@.len() == 11);
    assert("appQuery"@.len() == 8);
    assert("staticFilter"@.len() == 12);
    assert("description"@[0] == 'd' && "customerHub"@[0] == 'c');
}

/// An audience as JSON: each field under its key, and no other key.
pub proof fn law_audience_json(v: MarketingAudienceView, key: Seq<char>)
    ensures
        ({
            let j = MarketingAudience::entry_json(v);
            &&& j is Object
            &&& has_text(j, "id"@, v.id)
            &&& has_text(j, "label"@, v.label)
            &&& may_have_text(j, "description"@, v.description)
            &&& has_text(j, "source"@, v.source)
            &&& v.customer_hub is Some ==> j.get("customerHub"@) == Some(v.customer_hub->0.json())
            &&& v.customer_hub is None ==> j.get("customerHub"@) is None
            &&& v.app_query is Some ==> j.get("appQuery"@) == Some(v.app_query->0.json())
            &&& v.app_query is None ==> j.get("appQuery"@) is None
            &&& j.get("staticFilter"@) == v.static_filter
            &&& j.get(key) is Some ==> {
                ||| key == "id"@
                ||| key == "label"@
                ||| key == "description"@
                ||| key == "source"@
                ||| key == "customerHub"@
                ||| key == "appQuery"@
                ||| key == "staticFilter"@
            }
        }),
{
    lemma_audience_keys();
}

proof fn lemma_variable_keys()
    ensures
        "id"@ != "label"@,
        "id"@ != "type"@,
        "id"@ != "source"@,
        "id"@ != "path"@,
        "id"@ != "required"@,
        "label"@ != "type"@,
        "label"@ != "source"@,
        "label"@ != "path"@,
        "label"@ != "required"@,
        "type"@ != "source"@,
        "type"@ != "path"@,
        "type"@ != "required"@,
        "source"@ != "path"@,
        "source"@ != "required"@,
        "path"@ != "required"@,
{
    reveal_strlit("id");
    reveal_strlit("label");
    reveal_strlit("type");
    reveal_strlit("source");
    reveal_strlit("path");
    reveal_strlit("required");
    assert("id"@.len() == 2);
    assert("label"@.len() == 5);
    assert("type"@.len() == 4);
    assert("source"@.len() == 6);
    assert("path"@.len() == 4);
    assert("required"@.len() == 8);
    assert("type"@[0] == 't' && "path"@[0] == 'p');
}

/// A variable as JSON: each field under its key, and no other key.
pub proof fn law_variable_json(v: MarketingVariableView, key: Seq<char>)
    ensures
        ({
            let j = MarketingVariable::entry_json(v);
            &&& j is Object
            &&& has_text(j, "id"@, v.id)
            &&& has_text(j, "label"@, v.label)
            &&& has_text(j, "type"@, v.var_type)
            &&& has_text(j, "source"@, v.source)
            &&& may_have_text(j, "path"@, v.path)
            &&& v.required is Some ==> j.get("required"@) == Some(JsonView::Bool(v.required->0))
            &&& v.required is None ==> j.get("required"@) is None
            &&& j.get(key) is Some ==> {
                ||| key == "id"@
                ||| key == "label"@
                ||| key == "type"@
                ||| key == "source"@
                ||| key == "path"@
                ||| key == "required"@
            }
        }),
{
    lemma_variable_keys();
}

proof fn lemma_action_keys()
    ensures
        "id"@ != "label"@,
        "id"@ != "kind"@,
        "id"@ != "landingPageId"@,
        "id"@ != "urlTemplate"@,
        "id"@ != "payload"@,
        "label"@ != "kind"@,
        "label"@ != "landingPageId"@,
        "label"@ != "urlTemplate"@,
        "label"@ != "payload"@,
        "kind"@ != "landingPageId"@,
        "kind"@ != "urlTemplate"@,
        "kind"@ != "payload"@,
        "landingPageId"@ != "urlTemplate"@,
        "landingPageId"@ != "payload"@,
        "urlTemplate"@ != "payload"@,
{
    reveal_strlit("id");
    reveal_strlit("label");
    reveal_strlit("kind");
    reveal_strlit("landingPageId");
    reveal_strlit("urlTemplate");
    reveal_strlit("payload");
    assert("id"@.len() == 2);
    assert("label"@.len() == 5);
    assert("kind"@.len() == 4);
    assert("landingPageId"@.len() == 13);
    assert("urlTemplate"@.len() == 11);
    assert("payload"@.len() == 7);
}

/// An action as JSON: each field under its key, and no other key.
pub proof fn law_action_json(v: MarketingActionView, key: Seq<char>)
    ensures
        ({
            let j = MarketingAction::entry_json(v);
            &&& j is Object
            &&& has_text(j, "id"@, v.id)
            &&& has_text(j, "label"@, v.label)
            &&& has_text(j, "kind"@, v.kind)
            &&& may_have_text(j, "landingPageId"@, v.landing_page_id)
            &&& may_have_text(j, "urlTemplate"@, v.url_template)
            &&& j.get("payload"@) == v.payload
            &&& j.get(key) is Some ==> {
                ||| key == "id"@
                ||| key == "label"@
                ||| key == "kind"@
                ||| key == "landingPageId"@
                ||| key == "urlTemplate"@
                ||| key == "payload"@
            }
        }),
{
    lemma_action_keys();
}

proof fn lemma_landing_page_keys()
    ensures
        "id"@ != "label"@,
        "id"@ != "path"@,
        "id"@ != "host"@,
        "label"@ != "path"@,
        "label"@ != "host"@,
        "path"@ != "host"@,
{
    reveal_strlit("id");
    reveal_strlit("label");
    reveal_strlit("path");
    reveal_strlit("host");
    assert("id"@.len() == 2);
    assert("label"@.len() == 5);
    assert("path"@.len() == 4);
    assert("host"@.len() == 4);
    assert("path"@[0] == 'p' && "host"@[0] == 'h');
}

/// A landing page as JSON: each field under its key, and no other key.
pub proof fn law_landing_page_json(v: MarketingLandingPageView, key: Seq<char>)
    ensures
        ({
            let j = MarketingLandingPage::entry_json(v);
            &&& j is Object
            &&& has_text(j, "id"@, v.id)
            &&& has_text(j, "label"@, v.label)
            &&& has_text(j, "path"@, v.path)
            &&& has_text(j, "host"@, v.host)
            &&& j.get(key) is Some ==> {
                ||| key == "id"@
                ||| key == "label"@
                ||| key == "path"@
                ||| key == "host"@
            }
        }),
{
    lemma_landing_page_keys();
}

proof fn lemma_channel_keys()
    ensures
        "id"@ != "provider"@,
        "id"@ != "label"@,
        "id"@ != "enabled"@,
        "provider"@ != "label"@,
        "provider"@ != "enabled"@,
        "label"@ != "enabled"@,
{
    reveal_strlit("id");
    reveal_strlit("provider");
    reveal_strlit("label");
    reveal_strlit("enabled");
    assert("id"@.len() == 2);
    assert("provider"@.len() == 8);
    assert("label"@.len() == 5);
    assert("enabled"@.len() == 7);
}

/// A channel as JSON: each field under its key, and no other key.
pub proof fn law_channel_json(v: MarketingChannelView, key: Seq<char>)
    ensures
        ({
            let j = MarketingChannel::entry_json(v);
            &&& j is Object
            &&& has_text(j, "id"@, v.id)
            &&& may_have_text(j, "provider"@, v.provider)
            &&& may_have_text(j, "label"@, v.label)
            &&& v.enabled is Some ==> j.get("enabled"@) == Some(JsonView::Bool(v.enabled->0))
            &&& v.enabled is None ==> j.get("enabled"@) is None
            &&& j.get(key) is Some ==> {
                ||| key == "id"@
                ||| key == "provider"@
                ||| key == "label"@
                ||| key == "enabled"@
            }
        }),
{
    lemma_channel_keys();
}

proof fn lemma_definition_keys()
    ensures
        "version"@ != "audiences"@,
        "version"@ != "variables"@,
        "version"@ != "actions"@,
        "version"@ != "landingPages"@,
        "version"@ != "channels"@,
        "audiences"@ != "variables"@,
        "audiences"@ != "actions"@,
        "audiences"@ != "landingPages"@,
        "audiences"@ != "channels"@,
        "variables"@ != "actions"@,
        "variables"@ != "landingPages"@,
        "variables"@ != "channels"@,
        "actions"@ != "landingPages"@,
        "actions"@ != "channels"@,
        "landingPages"@ != "channels"@,
{
    reveal_strlit("version");
    reveal_strlit("audiences");
    reveal_strlit("variables");
    reveal_strlit("actions");
    reveal_strlit("landingPages");
    reveal_strlit("channels");
    assert("version"@.len() == 7);
    assert("audiences"@.len() == 9);
    assert("variables"@.len() == 9);
    assert("actions"@.len() == 7);
    assert("landingPages"@.len() == 12);
    assert("channels"@.len() == 8);
    assert("version"@[0] == 'v' && "actions"@[0] == 'a');
    assert("audiences"@[0] == 'a' && "variables"@[0] == 'v');
}

/// A marketing definition as JSON: each field under its key, and no other key.
pub proof fn law_definition_json(v: MarketingDefinitionView, key: Seq<char>)
    ensures
        ({
            let j = v.json();
            &&& j is Object
            &&& v.version is Some ==> j.get("version"@) == Some(
                JsonView::Number(text::decimal_spec(v.version->0 as nat)),
            )
            &&& v.version is None ==> j.get("version"@) is None
            &&& v.audiences.len() > 0 ==> has_entries::<MarketingAudience>(j, "audiences"@, v.audiences)
            &&& v.audiences.len() == 0 ==> j.get("audiences"@) is None
            &&& v.variables.len() > 0 ==> has_entries::<MarketingVariable>(j, "variables"@, v.variables)
            &&& v.variables.len() == 0 ==> j.get("variables"@) is None
            &&& v.actions.len() > 0 ==> has_entries::<MarketingAction>(j, "actions"@, v.actions)
            &&& v.actions.len() == 0 ==> j.get("actions"@) is None
            &&& v.landing_pages.len() > 0 ==> has_entries::<MarketingLandingPage>(j, "landingPages"@, v.landing_pages)
            &&& v.landing_pages.len() == 0 ==> j.get("landingPages"@) is None
            &&& v.channels.len() > 0 ==> has_entries::<MarketingChannel>(j, "channels"@, v.channels)
            &&& v.channels.len() == 0 ==> j.get("channels"@) is None
            &&& j.get(key) is Some ==> {
                ||| key == "version"@
                ||| key == "audiences"@
                ||| key == "variables"@
                ||| key == "actions"@
                ||| key == "landingPages"@
                ||| key == "channels"@
            }
        }),
{
    lemma_definition_keys();
}

proof fn lemma_registration_keys()
    ensures
        "version"@ != "audiences"@,
        "version"@ != "variables"@,
        "version"@ != "actions"@,
        "version"@ != "landingPages"@,
        "version"@ != "channels"@,
        "audiences"@ != "variables"@,
        "audiences"@ != "actions"@,
        "audiences"@ != "landingPages"@,
        "audiences"@ != "channels"@,
        "variables"@ != "actions"@,
        "variables"@ != "landingPages"@,
        "variables"@ != "channels"@,
        "actions"@ != "landingPages"@,
        "actions"@ != "channels"@,
        "landingPages"@ != "channels"@,
{
    reveal_strlit("version");
    reveal_strlit("audiences");
    reveal_strlit("variables");
    reveal_strlit("actions");
    reveal_strlit("landingPages");
    reveal_strlit("channels");
    assert("version"@.len() == 7);
    assert("audiences"@.len() == 9);
    assert("variables"@.len() == 9);
    assert("actions"@.len() == 7);
    assert("landingPages"@.len() == 12);
    assert("channels"@.len() == 8);
    assert("version"@[0] == 'v' && "actions"@[0] == 'a');
    assert("audiences"@[0] == 'a' && "variables"@[0] == 'v');
}

/// A marketing registration as JSON: each field under its key, and no other key.
pub proof fn law_registration_json(v: MarketingRegistrationView, key: Seq<char>)
    ensures
        ({
            let j = v.json();
            &&& j is Object
            &&& j.get("version"@) == Some(JsonView::Number(text::decimal_spec(v.version as nat)))
            &&& has_entries::<MarketingAudience>(j, "audiences"@, v.audiences)
            &&& has_entries::<MarketingVariable>(j, "variables"@, v.variables)
            &&& has_entries::<MarketingAction>(j, "actions"@, v.actions)
            &&& has_entries::<MarketingLandingPage>(j, "landingPages"@, v.landing_pages)
            &&& has_entries::<MarketingChannel>(j, "channels"@, v.channels)
            &&& j.get(key) is Some ==> {
                ||| key == "version"@
                ||| key == "audiences"@
                ||| key == "variables"@
                ||| key == "actions"@
                ||| key == "landingPages"@
                ||| key == "channels"@
            }
        }),
{
    lemma_registration_keys();
}

proof fn lemma_metadata_keys()
    ensures
        "audiences"@ != "variables"@,
        "audiences"@ != "actions"@,
        "audiences"@ != "landingPages"@,
        "audiences"@ != "channels"@,
        "variables"@ != "actions"@,
        "variables"@ != "landingPages"@,
        "variables"@ != "channels"@,
        "actions"@ != "landingPages"@,
        "actions"@ != "channels"@,
        "landingPages"@ != "channels"@,
{
    reveal_strlit("audiences");
    reveal_strlit("variables");
    reveal_strlit("actions");
    reveal_strlit("landingPages");
    reveal_strlit("channels");
    assert("audiences"@.len() == 9);
    assert("variables"@.len() == 9);
    assert("actions"@.len() == 7);
    assert("landingPages"@.len() == 12);
    assert("channels"@.len() == 8);
    assert("audiences"@[0] == 'a' && "variables"@[0] == 'v');
}

/// Marketing metadata as JSON: each field under its key, and no other key.
pub proof fn law_metadata_json(v: MarketingMetadataView, key: Seq<char>)
    ensures
        ({
            let j = v.json();
            &&& j is Object
            &&& has_entries::<MarketingAudience>(j, "audiences"@, v.audiences)
            &&& has_entries::<MarketingVariable>(j, "variables"@, v.variables)
            &&& has_entries::<MarketingAction>(j, "actions"@, v.actions)
            &&& has_entries::<MarketingLandingPage>(j, "landingPages"@, v.landing_pages)
            &&& has_entries::<MarketingChannel>(j, "channels"@, v.channels)
            &&& j.get(key) is Some ==> {
                ||| key == "audiences"@
                ||| key == "variables"@
                ||| key == "actions"@
                ||| key == "landingPages"@
                ||| key == "channels"@
            }
        }),
{
    lemma_metadata_keys();
}

proof fn lemma_capability_keys()
    ensures
        "version"@ != "metadata"@,
{
    reveal_strlit("version");
    reveal_strlit("metadata");
    assert("version"@.len() == 7);
    assert("metadata"@.len() == 8);
}

/// A marketing capability as JSON: each field under its key, and no other key.
pub proof fn law_capability_json(v: MarketingCapabilityView, key: Seq<char>)
    ensures
        ({
            let j = v.json();
            &&& j is Object
            &&& j.get("version"@) == Some(JsonView::Number(text::decimal_spec(v.version as nat)))
            &&& j.get("metadata"@) == Some(v.metadata.json())
            &&& j.get(key) is Some ==> key == "version"@ || key == "metadata"@
        }),
{
    lemma_capability_keys();
}

proof fn lemma_customer_context_keys()
    ensures
        "tenant_id"@ != "workspace_id"@,
        "tenant_id"@ != "installation_id"@,
        "tenant_id"@ != "solution_id"@,
        "tenant_id"@ != "identity_id"@,
        "tenant_id"@ != "conversation_id"@,
        "tenant_id"@ != "person_id"@,
        "tenant_id"@ != "capabilities"@,
        "tenant_id"@ != "source"@,
        "workspace_id"@ != "installation_id"@,
        "workspace_id"@ != "solution_id"@,
        "workspace_id"@ != "identity_id"@,
        "workspace_id"@ != "conversation_id"@,
        "workspace_id"@ != "person_id"@,
        "workspace_id"@ != "capabilities"@,
        "workspace_id"@ != "source"@,
        "installation_id"@ != "solution_id"@,
        "installation_id"@ != "identity_id"@,
        "installation_id"@ != "conversation_id"@,
        "installation_id"@ != "person_id"@,
        "installation_id"@ != "capabilities"@,
        "installation_id"@ != "source"@,
        "solution_id"@ != "identity_id"@,
        "solution_id"@ != "conversation_id"@,
        "solution_id"@ != "person_id"@,
        "solution_id"@ != "capabilities"@,
        "solution_id"@ != "source"@,
        "identity_id"@ != "conversation_id"@,
        "identity_id"@ != "person_id"@,
        "identity_id"@ != "capabilities"@,
        "identity_id"@ != "source"@,
        "conversation_id"@ != "person_id"@,
        "conversation_id"@ != "capabilities"@,
        "conversation_id"@ != "source"@,
        "person_id"@ != "capabilities"@,
        "person_id"@ != "source"@,
        "capabilities"@ != "source"@,
{
    reveal_strlit("tenant_id");
    reveal_strlit("workspace_id");
    reveal_strlit("installation_id");
    reveal_strlit("solution_id");
    reveal_strlit("identity_id");
    reveal_strlit("conversation_id");
    reveal_strlit("person_id");
    reveal_strlit("capabilities");
    reveal_strlit("source");
    assert("tenant_id"@.len() == 9);
    assert("workspace_id"@.len() == 12);
    assert("installation_id"@.len() == 15);
    assert("solution_id"@.len() == 11);
    assert("identity_id"@.len() == 11);
    assert("conversation_id"@.len() == 15);
    assert("person_id"@.len() == 9);
    assert("capabilities"@.len() == 12);
    assert("source"@.len() == 6);
    assert("tenant_id"@[0] == 't' && "person_id"@[0] == 'p');
    assert("workspace_id"@[0] == 'w' && "capabilities"@[0] == 'c');
    assert("installation_id"@[0] == 'i' && "conversation_id"@[0] == 'c');
    assert("solution_id"@[0] == 's' && "identity_id"@[0] == 'i');
}

/// A Hub context as JSON: each field under its key, and no other key.
pub proof fn law_customer_context_json(v: PlatformCustomerContextView, key: Seq<char>)
    ensures
        ({
            let j = v.json();
            &&& j is Object
            &&& has_text(j, "tenant_id"@, v.tenant_id)
            &&& has_text(j, "workspace_id"@, v.workspace_id)
            &&& may_have_text(j, "installation_id"@, v.installation_id)
            &&& may_have_text(j, "solution_id"@, v.solution_id)
            &&& may_have_text(j, "identity_id"@, v.identity_id)
            &&& may_have_text(j, "conversation_id"@, v.conversation_id)
            &&& may_have_text(j, "person_id"@, v.person_id)
            &&& v.capabilities is Some ==> has_texts(j, "capabilities"@, v.capabilities->0)
            &&& v.capabilities is None ==> j.get("capabilities"@) is None
            &&& may_have_text(j, "source"@, v.source)
            &&& j.get(key) is Some ==> {
                ||| key == "tenant_id"@
                ||| key == "workspace_id"@
                ||| key == "installation_id"@
                ||| key == "solution_id"@
                ||| key == "identity_id"@
                ||| key == "conversation_id"@
                ||| key == "person_id"@
                ||| key == "capabilities"@
                ||| key == "source"@
            }
        }),
{
    lemma_customer_context_keys();
}

proof fn lemma_storage_context_keys()
    ensures
        "tenant_id"@ != "workspace_id"@,
        "tenant_id"@ != "installation_id"@,
        "tenant_id"@ != "solution_id"@,
        "tenant_id"@ != "identity_id"@,
        "tenant_id"@ != "capabilities"@,
        "tenant_id"@ != "source"@,
        "workspace_id"@ != "installation_id"@,
        "workspace_id"@ != "solution_id"@,
        "workspace_id"@ != "identity_id"@,
        "workspace_id"@ != "capabilities"@,
        "workspace_id"@ != "source"@,
        "installation_id"@ != "solution_id"@,
        "installation_id"@ != "identity_id"@,
        "installation_id"@ != "capabilities"@,
        "installation_id"@ != "source"@,
        "solution_id"@ != "identity_id"@,
        "solution_id"@ != "capabilities"@,
        "solution_id"@ != "source"@,
        "identity_id"@ != "capabilities"@,
        "identity_id"@ != "source"@,
        "capabilities"@ != "source"@,
{
    reveal_strlit("tenant_id");
    reveal_strlit("workspace_id");
    reveal_strlit("installation_id");
    reveal_strlit("solution_id");
    reveal_strlit("identity_id");
    reveal_strlit("capabilities");
    reveal_strlit("source");
    assert("tenant_id"@.len() == 9);
    assert("workspace_id"@.len() == 12);
    assert("installation_id"@.len() == 15);
    assert("solution_id"@.len() == 11);
    assert("identity_id"@.len() == 11);
    assert("capabilities"@.len() == 12);
    assert("source"@.len() == 6);
    assert("workspace_id"@[0] == 'w' && "capabilities"@[0] == 'c');
    assert("solution_id"@[0] == 's' && "identity_id"@[0] == 'i');
}

/// A storage context as JSON: each field under its key, and no other key.
pub proof fn law_storage_context_json(v: PlatformStorageContextView, key: Seq<char>)
    ensures
        ({
            let j = v.json();
            &&& j is Object
            &&& has_text(j, "tenant_id"@, v.tenant_id)
            &&& has_text(j, "workspace_id"@, v.workspace_id)
            &&& has_text(j, "installation_id"@, v.installation_id)
            &&& has_text(j, "solution_id"@, v.solution_id)
            &&& may_have_text(j, "identity_id"@, v.identity_id)
            &&& has_texts(j, "capabilities"@, v.capabilities)
            &&& may_have_text(j, "source"@, v.source)
            &&& j.get(key) is Some ==> {
                ||| key == "tenant_id"@
                ||| key == "workspace_id"@
                ||| key == "installation_id"@
                ||| key == "solution_id"@
                ||| key == "identity_id"@
                ||| key == "capabilities"@
                ||| key == "source"@
            }
        }),
{
    lemma_storage_context_keys();
}

proof fn lemma_storage_binding_keys()
    ensures
        "base_url"@ != "token"@,
        "base_url"@ != "context"@,
        "token"@ != "context"@,
{
    reveal_strlit("base_url");
    reveal_strlit("token");
    reveal_strlit("context");
    assert("base_url"@.len() == 8);
    assert("token"@.len() == 5);
    assert("context"@.len() == 7);
}

/// A storage binding as JSON: each field under its key, and no other key.
pub proof fn law_storage_binding_json(v: PlatformStorageBindingView, key: Seq<char>)
    ensures
        ({
            let j = v.json();
            &&& j is Object
            &&& may_have_text(j, "base_url"@, v.base_url)
            &&& may_have_text(j, "token"@, v.token)
            &&& v.context is Some ==> j.get("context"@) == Some(v.context->0.json())
            &&& v.context is None ==> j.get("context"@) is None
            &&& j.get(key) is Some ==> key == "base_url"@ || key == "token"@ || key == "context"@
        }),
{
    lemma_storage_binding_keys();
}

proof fn lemma_customer_binding_keys()
    ensures
        "base_url"@ != "token"@,
        "base_url"@ != "context"@,
        "token"@ != "context"@,
{
    reveal_strlit("base_url");
    reveal_strlit("token");
    reveal_strlit("context");
    assert("base_url"@.len() == 8);
    assert("token"@.len() == 5);
    assert("context"@.len() == 7);
}

/// A Hub binding as JSON: each field under its key, and no other key.
pub proof fn law_customer_binding_json(v: PlatformCustomerBindingView, key: Seq<char>)
    ensures
        ({
            let j = v.json();
            &&& j is Object
            &&& may_have_text(j, "base_url"@, v.base_url)
            &&& may_have_text(j, "token"@, v.token)
            &&& v.context is Some ==> j.get("context"@) == Some(v.context->0.json())
            &&& v.context is None ==> j.get("context"@) is None
            &&& j.get(key) is Some ==> key == "base_url"@ || key == "token"@ || key == "context"@
        }),
{
    lemma_customer_binding_keys();
}

proof fn lemma_platform_keys()
    ensures
        "storage"@ != "customer"@,
{
    reveal_strlit("storage");
    reveal_strlit("customer");
    assert("storage"@.len() == 7);
    assert("customer"@.len() == 8);
}

/// Platform capabilities as JSON: each field under its key, and no other key.
pub proof fn law_platform_json(v: PlatformCapabilitiesView, key: Seq<char>)
    ensures
        ({
            let j = v.json();
            &&& j is Object
            &&& v.storage is Some ==> j.get("storage"@) == Some(v.storage->0.json())
            &&& v.storage is None ==> j.get("storage"@) is None
            &&& v.customer is Some ==> j.get("customer"@) == Some(v.customer->0.json())
            &&& v.customer is None ==> j.get("customer"@) is None
            &&& j.get(key) is Some ==> key == "storage"@ || key == "customer"@
        }),
{
    lemma_platform_keys();
}

proof fn lemma_response_keys()
    ensures
        "type"@ != "tools"@,
        "type"@ != "flows"@,
        "type"@ != "marketing"@,
        "type"@ != "protocol_version"@,
        "type"@ != "sdk_version"@,
        "type"@ != "output"@,
        "type"@ != "authentication_context"@,
        "type"@ != "resume_token"@,
        "type"@ != "challenge"@,
        "type"@ != "code"@,
        "type"@ != "message"@,
        "tools"@ != "flows"@,
        "tools"@ != "marketing"@,
        "tools"@ != "protocol_version"@,
        "tools"@ != "sdk_version"@,
        "tools"@ != "output"@,
        "tools"@ != "authentication_context"@,
        "tools"@ != "resume_token"@,
        "tools"@ != "challenge"@,
        "tools"@ != "code"@,
        "tools"@ != "message"@,
        "flows"@ != "marketing"@,
        "flows"@ != "protocol_version"@,
        "flows"@ != "sdk_version"@,
        "flows"@ != "output"@,
        "flows"@ != "authentication_context"@,
        "flows"@ != "resume_token"@,
        "flows"@ != "challenge"@,
        "flows"@ != "code"@,
        "flows"@ != "message"@,
        "marketing"@ != "protocol_version"@,
        "marketing"@ != "sdk_version"@,
        "marketing"@ != "output"@,
        "marketing"@ != "authentication_context"@,
        "marketing"@ != "resume_token"@,
        "marketing"@ != "challenge"@,
        "marketing"@ != "code"@,
        "marketing"@ != "message"@,
        "protocol_version"@ != "sdk_version"@,
        "protocol_version"@ != "output"@,
        "protocol_version"@ != "authentication_context"@,
        "protocol_version"@ != "resume_token"@,
        "protocol_version"@ != "challenge"@,
        "protocol_version"@ != "code"@,
        "protocol_version"@ != "message"@,
        "sdk_version"@ != "output"@,
        "sdk_version"@ != "authentication_context"@,
        "sdk_version"@ != "resume_token"@,
        "sdk_version"@ != "challenge"@,
        "sdk_version"@ != "code"@,
        "sdk_version"@ != "message"@,
        "output"@ != "authentication_context"@,
        "output"@ != "resume_token"@,
        "output"@ != "challenge"@,
        "output"@ != "code"@,
        "output"@ != "message"@,
        "authentication_context"@ != "resume_token"@,
        "authentication_context"@ != "challenge"@,
        "authentication_context"@ != "code"@,
        "authentication_context"@ != "message"@,
        "resume_token"@ != "challenge"@,
        "resume_token"@ != "code"@,
        "resume_token"@ != "message"@,
        "challenge"@ != "code"@,
        "challenge"@ != "message"@,
        "code"@ != "message"@,
{
    reveal_strlit("type");
    reveal_strlit("tools");
    reveal_strlit("flows");
    reveal_strlit("marketing");
    reveal_strlit("protocol_version");
    reveal_strlit("sdk_version");
    reveal_strlit("output");
    reveal_strlit("authentication_context");
    reveal_strlit("resume_token");
    reveal_strlit("challenge");
    reveal_strlit("code");
    reveal_strlit("message");
    assert("type"@.len() == 4);
    assert("tools"@.len() == 5);
    assert("flows"@.len() == 5);
    assert("marketing"@.len() == 9);
    assert("protocol_version"@.len() == 16);
    assert("sdk_version"@.len() == 11);
    assert("output"@.len() == 6);
    assert("authentication_context"@.len() == 22);
    assert("resume_token"@.len() == 12);
    assert("challenge"@.len() == 9);
    assert("code"@.len() == 4);
    assert("message"@.len() == 7);
    assert("type"@[0] == 't' && "code"@[0] == 'c');
    assert("tools"@[0] == 't' && "flows"@[0] == 'f');
    assert("marketing"@[0] == 'm' && "challenge"@[0] == 'c');
}

/// A response as JSON: its kind under `type`, and each of its parts under its key;
/// a credential or a marketing capability that is missing is left out.
pub proof fn law_response_json(v: QefroResponseView, key: Seq<char>)
    ensures
        ({
            let j = v.json();
            &&& j is Object
            &&& match v {
                QefroResponseView::Pong { protocol_version, sdk_version } => {
                    &&& has_text(j, "type"@, "pong"@)
                    &&& has_text(j, "protocol_version"@, protocol_version)
                    &&& has_text(j, "sdk_version"@, sdk_version)
                    &&& j.get(key) is Some ==> key == "type"@ || key == "protocol_version"@ || key
                        == "sdk_version"@
                },
                QefroResponseView::ToolsList { tools, protocol_version, sdk_version } => {
                    &&& has_text(j, "type"@, "tools.list"@)
                    &&& has_tools(j, tools)
                    &&& has_text(j, "protocol_version"@, protocol_version)
                    &&& has_text(j, "sdk_version"@, sdk_version)
                    &&& j.get(key) is Some ==> key == "type"@ || key == "tools"@ || key
                        == "protocol_version"@ || key == "sdk_version"@
                },
                QefroResponseView::CapabilitiesList {
                    tools,
                    flows,
                    marketing,
                    protocol_version,
                    sdk_version,
                } => {
                    &&& has_text(j, "type"@, "capabilities.list"@)
                    &&& has_tools(j, tools)
                    &&& j.get("flows"@) == Some(JsonView::Array(flows))
                    &&& marketing is Some ==> j.get("marketing"@) == Some(marketing->0.json())
                    &&& marketing is None ==> j.get("marketing"@) is None
                    &&& has_text(j, "protocol_version"@, protocol_version)
                    &&& has_text(j, "sdk_version"@, sdk_version)
                    &&& j.get(key) is Some ==> key == "type"@ || key == "tools"@ || key
                        == "flows"@ || key == "marketing"@ || key == "protocol_version"@ || key
                        == "sdk_version"@
                },
                QefroResponseView::Result { output, authentication_context } => {
                    &&& has_text(j, "type"@, "result"@)
                    &&& j.get("output"@) == Some(output)
                    &&& authentication_context is Some ==> j.get("authentication_context"@) == Some(
                        authentication_context->0.json(),
                    )
                    &&& authentication_context is None ==> j.get("authentication_context"@) is None
                    &&& j.get(key) is Some ==> key == "type"@ || key == "output"@ || key
                        == "authentication_context"@
                },
                QefroResponseView::Challenge { resume_token, challenge } => {
                    &&& has_text(j, "type"@, "challenge"@)
                    &&& has_text(j, "resume_token"@, resume_token)
                    &&& j.get("challenge"@) == Some(challenge.json())
                    &&& j.get(key) is Some ==> key == "type"@ || key == "resume_token"@ || key
                        == "challenge"@
                },
                QefroResponseView::Error { code, message } => {
                    &&& has_text(j, "type"@, "error"@)
                    &&& has_text(j, "code"@, code)
                    &&& has_text(j, "message"@, message)
                    &&& j.get(key) is Some ==> key == "type"@ || key == "code"@ || key
                        == "message"@
                },
            }
        }),
{
    lemma_response_keys();
}

/// A response has an array of tools, in order, each as it is by itself.
pub open spec fn has_tools(j: JsonView, tools: Seq<RegisteredToolView>) -> bool {
    &&& j.get("tools"@) is Some
    &&& j.get("tools"@)->0 is Array
    &&& j.get("tools"@)->0->Array_0.len() == tools.len()
    &&& forall|i: int|
        0 <= i < tools.len() ==> #[trigger] j.get("tools"@)->0->Array_0[i] == tools[i].json()
}

} // verus!
