//! Optional Customer Hub client.
//!
//! Taking part in the Hub is gated by two flags of the environment: whether it is
//! enabled (off by default) and whether it is optional (on by default). While it
//! is off or cannot be reached and is optional, a call is skipped instead of
//! failing the tool. What is sent to the Hub and what is made of its reply is
//! decided here; the host reads the environment and sends the request.

use crate::auth;
use crate::auth::{ToolError, ToolErrorView};
use crate::json;
use crate::json::{JsonObject, JsonValue, JsonView};
use crate::text;
use crate::text::{decimal, join, same_text, strip_end, trim};
use crate::tools::copy_texts;
use vstd::prelude::*;

verus! {

/// The variable that holds the master switch.
pub const CUSTOMER_HUB_ENABLED: &'static str = "QEFRO_CUSTOMER_HUB_ENABLED";

/// The variable that says whether the Hub is optional.
pub const CUSTOMER_HUB_OPTIONAL: &'static str = "QEFRO_CUSTOMER_HUB_OPTIONAL";

/// The variable that holds the address of the Hub.
pub const CUSTOMER_HUB_URL: &'static str = "QEFRO_CUSTOMER_HUB_URL";

/// The variables that can hold the service token, the first that is set counts.
pub const SERVICE_TOKEN: &'static str = "QEFRO_SERVICE_TOKEN";

pub const INTERNAL_TOKEN: &'static str = "QEFRO_INTERNAL_TOKEN";

pub const INTERNAL_BEARER: &'static str = "QEFRO_INTERNAL_BEARER";

/// Customer Hub gateway context, given with an invocation.
#[derive(Debug, PartialEq, Eq, Default)]
pub struct PlatformCustomerContext {
    pub tenant_id: String,
    pub workspace_id: String,
    pub installation_id: Option<String>,
    pub solution_id: Option<String>,
    pub identity_id: Option<String>,
    pub conversation_id: Option<String>,
    pub person_id: Option<String>,
    pub capabilities: Option<Vec<String>>,
    pub source: Option<String>,
}

pub struct PlatformCustomerContextView {
    pub tenant_id: Seq<char>,
    pub workspace_id: Seq<char>,
    pub installation_id: Option<Seq<char>>,
    pub solution_id: Option<Seq<char>>,
    pub identity_id: Option<Seq<char>>,
    pub conversation_id: Option<Seq<char>>,
    pub person_id: Option<Seq<char>>,
    pub capabilities: Option<Seq<Seq<char>>>,
    pub source: Option<Seq<char>>,
}

impl DeepView for PlatformCustomerContext {
    type V = PlatformCustomerContextView;

    open spec fn deep_view(&self) -> PlatformCustomerContextView {
        PlatformCustomerContextView {
            tenant_id: self.tenant_id@,
            workspace_id: self.workspace_id@,
            installation_id: self.installation_id.deep_view(),
            solution_id: self.solution_id.deep_view(),
            identity_id: self.identity_id.deep_view(),
            conversation_id: self.conversation_id.deep_view(),
            person_id: self.person_id.deep_view(),
            capabilities: self.capabilities.deep_view(),
            source: self.source.deep_view(),
        }
    }
}

impl Clone for PlatformCustomerContext {
    fn clone(&self) -> (r: Self)
        ensures
            r.deep_view() == self.deep_view(),
    {
        PlatformCustomerContext {
            tenant_id: self.tenant_id.clone(),
            workspace_id: self.workspace_id.clone(),
            installation_id: self.installation_id.clone(),
            solution_id: self.solution_id.clone(),
            identity_id: self.identity_id.clone(),
            conversation_id: self.conversation_id.clone(),
            person_id: self.person_id.clone(),
            capabilities: match &self.capabilities {
                Some(texts) => Some(copy_texts(texts)),
                None => None,
            },
            source: self.source.clone(),
        }
    }
}

/// Managed storage context; independent of the Hub.
#[derive(Debug, PartialEq, Eq, Default)]
pub struct PlatformStorageContext {
    pub tenant_id: String,
    pub workspace_id: String,
    pub installation_id: String,
    pub solution_id: String,
    pub identity_id: Option<String>,
    pub capabilities: Vec<String>,
    pub source: Option<String>,
}

pub struct PlatformStorageContextView {
    pub tenant_id: Seq<char>,
    pub workspace_id: Seq<char>,
    pub installation_id: Seq<char>,
    pub solution_id: Seq<char>,
    pub identity_id: Option<Seq<char>>,
    pub capabilities: Seq<Seq<char>>,
    pub source: Option<Seq<char>>,
}

impl DeepView for PlatformStorageContext {
    type V = PlatformStorageContextView;

    open spec fn deep_view(&self) -> PlatformStorageContextView {
        PlatformStorageContextView {
            tenant_id: self.tenant_id@,
            workspace_id: self.workspace_id@,
            installation_id: self.installation_id@,
            solution_id: self.solution_id@,
            identity_id: self.identity_id.deep_view(),
            capabilities: self.capabilities.deep_view(),
            source: self.source.deep_view(),
        }
    }
}

impl Clone for PlatformStorageContext {
    fn clone(&self) -> (r: Self)
        ensures
            r.deep_view() == self.deep_view(),
    {
        PlatformStorageContext {
            tenant_id: self.tenant_id.clone(),
            workspace_id: self.workspace_id.clone(),
            installation_id: self.installation_id.clone(),
            solution_id: self.solution_id.clone(),
            identity_id: self.identity_id.clone(),
            capabilities: copy_texts(&self.capabilities),
            source: self.source.clone(),
        }
    }
}

#[derive(Debug, PartialEq, Eq, Default)]
pub struct PlatformStorageBinding {
    pub base_url: Option<String>,
    pub token: Option<String>,
    pub context: Option<PlatformStorageContext>,
}

pub struct PlatformStorageBindingView {
    pub base_url: Option<Seq<char>>,
    pub token: Option<Seq<char>>,
    pub context: Option<PlatformStorageContextView>,
}

impl DeepView for PlatformStorageBinding {
    type V = PlatformStorageBindingView;

    open spec fn deep_view(&self) -> PlatformStorageBindingView {
        PlatformStorageBindingView {
            base_url: self.base_url.deep_view(),
            token: self.token.deep_view(),
            context: self.context.deep_view(),
        }
    }
}

impl Clone for PlatformStorageBinding {
    fn clone(&self) -> (r: Self)
        ensures
            r.deep_view() == self.deep_view(),
    {
        PlatformStorageBinding {
            base_url: self.base_url.clone(),
            token: self.token.clone(),
            context: self.context.clone(),
        }
    }
}

#[derive(Debug, PartialEq, Eq, Default)]
pub struct PlatformCustomerBinding {
    pub base_url: Option<String>,
    pub token: Option<String>,
    pub context: Option<PlatformCustomerContext>,
}

pub struct PlatformCustomerBindingView {
    pub base_url: Option<Seq<char>>,
    pub token: Option<Seq<char>>,
    pub context: Option<PlatformCustomerContextView>,
}

impl DeepView for PlatformCustomerBinding {
    type V = PlatformCustomerBindingView;

    open spec fn deep_view(&self) -> PlatformCustomerBindingView {
        PlatformCustomerBindingView {
            base_url: self.base_url.deep_view(),
            token: self.token.deep_view(),
            context: self.context.deep_view(),
        }
    }
}

impl Clone for PlatformCustomerBinding {
    fn clone(&self) -> (r: Self)
        ensures
            r.deep_view() == self.deep_view(),
    {
        PlatformCustomerBinding {
            base_url: self.base_url.clone(),
            token: self.token.clone(),
            context: self.context.clone(),
        }
    }
}

/// Platform capabilities, given with an invocation.
#[derive(Debug, PartialEq, Eq, Default)]
pub struct PlatformCapabilities {
    pub storage: Option<PlatformStorageBinding>,
    pub customer: Option<PlatformCustomerBinding>,
}

pub struct PlatformCapabilitiesView {
    pub storage: Option<PlatformStorageBindingView>,
    pub customer: Option<PlatformCustomerBindingView>,
}

impl DeepView for PlatformCapabilities {
    type V = PlatformCapabilitiesView;

    open spec fn deep_view(&self) -> PlatformCapabilitiesView {
        PlatformCapabilitiesView {
            storage: self.storage.deep_view(),
            customer: self.customer.deep_view(),
        }
    }
}

impl Clone for PlatformCapabilities {
    fn clone(&self) -> (r: Self)
        ensures
            r.deep_view() == self.deep_view(),
    {
        PlatformCapabilities {
            storage: self.storage.clone(),
            customer: self.customer.clone(),
        }
    }
}

/// The customer that is known so far, and whether a lookup was made.
#[derive(Debug, PartialEq)]
pub struct CustomerState {
    pub current: Option<JsonValue>,
    pub lookup_completed: bool,
}

pub struct CustomerStateView {
    pub current: Option<JsonView>,
    pub lookup_completed: bool,
}

impl DeepView for CustomerState {
    type V = CustomerStateView;

    open spec fn deep_view(&self) -> CustomerStateView {
        CustomerStateView {
            current: self.current.deep_view(),
            lookup_completed: self.lookup_completed,
        }
    }
}

impl Clone for CustomerState {
    fn clone(&self) -> (r: Self)
        ensures
            r.deep_view() == self.deep_view(),
    {
        CustomerState {
            current: self.current.clone(),
            lookup_completed: self.lookup_completed,
        }
    }
}

impl Default for CustomerState {
    fn default() -> (r: Self)
        ensures
            r.deep_view() == (CustomerStateView { current: None, lookup_completed: false }),
    {
        CustomerState { current: None, lookup_completed: false }
    }
}

/// The values of the variables that concern the Hub, as they are set.
#[derive(Debug, PartialEq, Eq, Default)]
pub struct HubSettings {
    pub enabled: Option<String>,
    pub optional: Option<String>,
    pub url: Option<String>,
    pub service_token: Option<String>,
    pub internal_token: Option<String>,
    pub internal_bearer: Option<String>,
}

pub struct HubSettingsView {
    pub enabled: Option<Seq<char>>,
    pub optional: Option<Seq<char>>,
    pub url: Option<Seq<char>>,
    pub service_token: Option<Seq<char>>,
    pub internal_token: Option<Seq<char>>,
    pub internal_bearer: Option<Seq<char>>,
}

impl DeepView for HubSettings {
    type V = HubSettingsView;

    open spec fn deep_view(&self) -> HubSettingsView {
        HubSettingsView {
            enabled: self.enabled.deep_view(),
            optional: self.optional.deep_view(),
            url: self.url.deep_view(),
            service_token: self.service_token.deep_view(),
            internal_token: self.internal_token.deep_view(),
            internal_bearer: self.internal_bearer.deep_view(),
        }
    }
}

impl Clone for HubSettings {
    fn clone(&self) -> (r: Self)
        ensures
            r.deep_view() == self.deep_view(),
    {
        HubSettings {
            enabled: self.enabled.clone(),
            optional: self.optional.clone(),
            url: self.url.clone(),
            service_token: self.service_token.clone(),
            internal_token: self.internal_token.clone(),
            internal_bearer: self.internal_bearer.clone(),
        }
    }
}

pub open spec fn is_yes(s: Seq<char>) -> bool {
    s == "1"@ || s == "true"@ || s == "yes"@ || s == "on"@
}

pub open spec fn is_no(s: Seq<char>) -> bool {
    s == "0"@ || s == "false"@ || s == "no"@ || s == "off"@
}

/// The flag that a variable holds. Case and surrounding whitespace do not
/// matter; where the variable is not set or says nothing known, the flag has its
/// default.
pub open spec fn flag_spec(raw: Option<Seq<char>>, default: bool) -> bool {
    match raw {
        Some(s) => {
            let word = text::lower_spec(text::trim_spec(s));
            if is_yes(word) {
                true
            } else if is_no(word) {
                false
            } else {
                default
            }
        },
        None => default,
    }
}

/// The flag that the value of a variable gives.
pub fn env_flag_true(raw: Option<&str>, default: bool) -> (r: bool)
    ensures
        r == flag_spec(raw.deep_view(), default),
{
    match raw {
        Some(s) => {
            let word = trim(s).as_str().to_ascii_lowercase();
            let word = word.as_str();
            if same_text(word, "1") || same_text(word, "true") || same_text(word, "yes")
                || same_text(word, "on") {
                true
            } else if same_text(word, "0") || same_text(word, "false") || same_text(word, "no")
                || same_text(word, "off") {
                false
            } else {
                default
            }
        },
        None => default,
    }
}

/// The master switch: while it is off the Hub is never called. It is off unless
/// set.
pub fn is_customer_hub_enabled(raw: Option<&str>) -> (r: bool)
    ensures
        r == flag_spec(raw.deep_view(), false),
{
    env_flag_true(raw, false)
}

/// Whether a Hub that is missing is passed over. It is so unless the flag says otherwise.
pub fn is_customer_hub_optional(raw: Option<&str>) -> (r: bool)
    ensures
        r == flag_spec(raw.deep_view(), true),
{
    env_flag_true(raw, true)
}

impl HubSettingsView {
    pub open spec fn is_enabled(self) -> bool {
        flag_spec(self.enabled, false)
    }

    pub open spec fn is_optional(self) -> bool {
        flag_spec(self.optional, true)
    }
}

/// The borrowed text of an optional string.
pub(crate) fn as_text(s: &Option<String>) -> (r: Option<&str>)
    ensures
        r.deep_view() == s.deep_view(),
{
    match s {
        Some(s) => Some(s.as_str()),
        None => None,
    }
}

/// An owned copy of an optional text.
pub(crate) fn to_text(s: Option<&str>) -> (r: Option<String>)
    ensures
        r.deep_view() == s.deep_view(),
{
    match s {
        Some(s) => Some(s.to_owned()),
        None => None,
    }
}

/// The first of two optional texts that is present.
pub(crate) fn or_text<'a>(a: Option<&'a str>, b: Option<&'a str>) -> (r: Option<&'a str>)
    ensures
        r.deep_view() == json::or_else(a.deep_view(), b.deep_view()),
{
    match a {
        Some(_) => a,
        None => b,
    }
}

impl HubSettings {
    /// Whether the Hub is enabled.
    pub fn is_enabled(&self) -> (r: bool)
        ensures
            r == self.deep_view().is_enabled(),
    {
        is_customer_hub_enabled(as_text(&self.enabled))
    }

    /// Whether the Hub is optional.
    pub fn is_optional(&self) -> (r: bool)
        ensures
            r == self.deep_view().is_optional(),
    {
        is_customer_hub_optional(as_text(&self.optional))
    }
}

/// The string under a key, trimmed, where it is not blank.
pub open spec fn trimmed_text(object: JsonView, key: Seq<char>) -> Option<Seq<char>> {
    match object.text(key) {
        Some(s) => json::filled(Some(text::trim_spec(s))),
        None => None,
    }
}

fn read_trimmed(object: &JsonValue, key: &str) -> (r: Option<String>)
    ensures
        r.deep_view() == trimmed_text(object.deep_view(), key@),
{
    match object.text(key) {
        Some(s) => {
            let trimmed = trim(s);
            if trimmed.as_str().is_empty() {
                None
            } else {
                Some(trimmed)
            }
        },
        None => None,
    }
}

/// The phone number of an identity: the first of four keys that is not blank.
pub open spec fn identity_phone(identity: JsonView) -> Option<Seq<char>> {
    json::or_else(
        trimmed_text(identity, "phone"@),
        json::or_else(
            trimmed_text(identity, "phone_number"@),
            json::or_else(
                trimmed_text(identity, "whatsapp_number"@),
                trimmed_text(identity, "whatsapp"@),
            ),
        ),
    )
}

/// The phone number of an identity.
pub fn read_identity_phone(identity: &JsonValue) -> (r: Option<String>)
    ensures
        r.deep_view() == identity_phone(identity.deep_view()),
{
    if let Some(s) = read_trimmed(identity, "phone") {
        return Some(s);
    }
    if let Some(s) = read_trimmed(identity, "phone_number") {
        return Some(s);
    }
    if let Some(s) = read_trimmed(identity, "whatsapp_number") {
        return Some(s);
    }
    read_trimmed(identity, "whatsapp")
}

/// The phone number of a person: the canonical key, then the short one.
pub open spec fn person_phone(person: JsonView) -> Option<Seq<char>> {
    json::or_else(person.filled_text("phone_number"@), person.filled_text("phone"@))
}

/// The name of a person: the canonical key, then the short one.
pub open spec fn person_name(person: JsonView) -> Option<Seq<char>> {
    json::or_else(person.filled_text("display_name"@), person.filled_text("name"@))
}

/// A person as a Hub customer: the person's own keys, with the canonical ones
/// set. There is none where the person has no id.
pub open spec fn hub_customer(person: JsonView) -> Option<JsonView> {
    match (person, trimmed_text(person, "id"@)) {
        (JsonView::Object(m), Some(id)) => Some(
            JsonView::Object(
                m.insert("id"@, JsonView::Str(id)).insert(
                    "phone_number"@,
                    json::str_or_null(person_phone(person)),
                ).insert(
                    "whatsapp_number"@,
                    json::str_or_null(
                        json::or_else(
                            person.filled_text("whatsapp_number"@),
                            person_phone(person),
                        ),
                    ),
                ).insert("display_name"@, json::str_or_null(person_name(person))).insert(
                    "email"@,
                    json::str_or_null(person.text("email"@)),
                ),
            ),
        ),
        _ => None,
    }
}

/// Maps a person to the canonical Hub customer.
pub fn hub_customer_from_person(person: Option<&JsonValue>) -> (r: Option<JsonValue>)
    ensures
        r.deep_view() == (match person.deep_view() {
            Some(p) => hub_customer(p),
            None => None,
        }),
{
    let person = match person {
        Some(p) => p,
        None => return None,
    };
    let object = match person {
        JsonValue::Object(o) => o,
        _ => return None,
    };
    let id = match read_trimmed(person, "id") {
        Some(id) => id,
        None => return None,
    };
    let phone = or_text(person.filled_text("phone_number"), person.filled_text("phone"));
    let whatsapp = or_text(person.filled_text("whatsapp_number"), phone);
    let display = or_text(person.filled_text("display_name"), person.filled_text("name"));
    let email = person.text("email");
    let mut out = object.clone();
    out.insert_str("id", id.as_str());
    out.insert_str_or_null("phone_number", phone);
    out.insert_str_or_null("whatsapp_number", whatsapp);
    out.insert_str_or_null("display_name", display);
    out.insert_str_or_null("email", email);
    Some(JsonValue::Object(out))
}

/// The entries of an object; none for a value of another kind.
pub open spec fn entries_of(value: JsonView) -> Map<Seq<char>, JsonView> {
    match value {
        JsonView::Object(m) => m,
        _ => Map::empty(),
    }
}

/// An identity overlaid with an input: where both have a key, the input counts.
pub open spec fn merged_identity(input: Option<JsonView>, identity: JsonView) -> JsonView {
    JsonView::Object(
        match input {
            Some(i) => entries_of(identity).union_prefer_right(entries_of(i)),
            None => entries_of(identity),
        },
    )
}

/// The channel of an identity: its own, else the one that its addresses suggest.
pub open spec fn identity_channel(merged: JsonView) -> Seq<char> {
    match merged.filled_text("channel"@) {
        Some(c) => c,
        None => if merged.filled_text("whatsapp_number"@) is Some {
            "whatsapp"@
        } else if person_phone(merged) is Some {
            "sms"@
        } else if merged.filled_text("email"@) is Some {
            "email"@
        } else {
            "api"@
        },
    }
}

/// The identifier of an identity: its own, else its first address, else its id.
pub open spec fn identity_identifier(merged: JsonView) -> Option<Seq<char>> {
    json::or_else(
        merged.filled_text("identifier"@),
        json::or_else(
            merged.filled_text("whatsapp_number"@),
            json::or_else(
                person_phone(merged),
                json::or_else(merged.filled_text("email"@), merged.text("id"@)),
            ),
        ),
    )
}

/// The identity that is sent to the Hub.
pub open spec fn picked_identity(merged: JsonView) -> Map<Seq<char>, JsonView> {
    let object = Map::<Seq<char>, JsonView>::empty();
    let object = json::with_opt(object, "id"@, json::opt_str(merged.text("id"@)));
    let object = json::with_opt(object, "phone_number"@, json::opt_str(person_phone(merged)));
    let object = json::with_opt(
        object,
        "whatsapp_number"@,
        json::opt_str(merged.filled_text("whatsapp_number"@)),
    );
    let object = json::with_opt(object, "email"@, json::opt_str(merged.filled_text("email"@)));
    let object = json::with_opt(object, "display_name"@, json::opt_str(person_name(merged)));
    let object = object.insert("channel"@, JsonView::Str(identity_channel(merged)));
    json::with_opt(object, "identifier"@, json::opt_str(identity_identifier(merged)))
}

/// Sets the keys of `over` in `base`.
fn overlay(base: JsonObject, over: &JsonObject) -> (r: JsonObject)
    ensures
        r.deep_view() == base.deep_view().union_prefer_right(over.deep_view()),
{
    let ghost start = base.deep_view();
    let mut r = base;
    let mut i: usize = 0;
    assert(over.entries@.take(0) =~= Seq::empty());
    assert(start.union_prefer_right(Map::empty()) =~= start);
    while i < over.entries.len()
        invariant
            i <= over.entries.len(),
            r.deep_view() == start.union_prefer_right(
                json::entries_view(over.entries@.take(i as int)),
            ),
        decreases over.entries.len() - i,
    {
        let ghost done = over.entries@.take(i as int);
        let ghost next = over.entries@.take(i + 1);
        assert(next.drop_last() =~= done);
        assert(next.last() == over.entries@[i as int]);
        r.insert(over.entries[i].0.as_str(), over.entries[i].1.clone());
        assert(r.deep_view() =~= start.union_prefer_right(json::entries_view(next)));
        i += 1;
    }
    assert(over.entries@.take(i as int) =~= over.entries@);
    r
}

/// Picks what the Hub needs to know of an identity.
pub fn pick_identity(input: Option<&JsonValue>, identity: &JsonValue) -> (r: JsonObject)
    ensures
        r.deep_view() == picked_identity(
            merged_identity(input.deep_view(), identity.deep_view()),
        ),
{
    let base = match identity {
        JsonValue::Object(o) => o.clone(),
        _ => JsonObject::new(),
    };
    let ghost base_view = base.deep_view();
    let merged = match input {
        Some(JsonValue::Object(o)) => overlay(base, o),
        _ => {
            assert(base_view.union_prefer_right(Map::empty()) =~= base_view);
            base
        },
    };
    let merged = JsonValue::Object(merged);
    assert(merged.deep_view() == merged_identity(input.deep_view(), identity.deep_view()));
    let id = merged.text("id");
    let phone = or_text(merged.filled_text("phone_number"), merged.filled_text("phone"));
    let whatsapp = merged.filled_text("whatsapp_number");
    let email = merged.filled_text("email");
    let display = or_text(merged.filled_text("display_name"), merged.filled_text("name"));
    let channel = match merged.filled_text("channel") {
        Some(c) => c,
        None => if whatsapp.is_some() {
            "whatsapp"
        } else if phone.is_some() {
            "sms"
        } else if email.is_some() {
            "email"
        } else {
            "api"
        },
    };
    let identifier = or_text(
        merged.filled_text("identifier"),
        or_text(whatsapp, or_text(phone, or_text(email, id))),
    );
    let mut out = JsonObject::new();
    out.insert_opt_str("id", &to_text(id));
    out.insert_opt_str("phone_number", &to_text(phone));
    out.insert_opt_str("whatsapp_number", &to_text(whatsapp));
    out.insert_opt_str("email", &to_text(email));
    out.insert_opt_str("display_name", &to_text(display));
    out.insert_str("channel", channel);
    out.insert_opt_str("identifier", &to_text(identifier));
    out
}

/// Where the Hub is and how it is addressed.
#[derive(Debug)]
pub struct HubEndpoint {
    pub base_url: String,
    pub token: String,
    pub context: PlatformCustomerContext,
}

pub struct HubEndpointView {
    pub base_url: Seq<char>,
    pub token: Seq<char>,
    pub context: PlatformCustomerContextView,
}

impl DeepView for HubEndpoint {
    type V = HubEndpointView;

    open spec fn deep_view(&self) -> HubEndpointView {
        HubEndpointView {
            base_url: self.base_url@,
            token: self.token@,
            context: self.context.deep_view(),
        }
    }
}

/// A request to the Hub, to be sent with POST.
#[derive(Debug)]
pub struct HubRequest {
    pub url: String,
    /// The bearer token, where there is one.
    pub bearer: Option<String>,
    pub payload: JsonValue,
}

pub struct HubRequestView {
    pub url: Seq<char>,
    pub bearer: Option<Seq<char>>,
    pub payload: JsonView,
}

impl DeepView for HubRequest {
    type V = HubRequestView;

    open spec fn deep_view(&self) -> HubRequestView {
        HubRequestView {
            url: self.url@,
            bearer: self.bearer.deep_view(),
            payload: self.payload.deep_view(),
        }
    }
}

/// What a call of the Hub comes to: nothing, or a request.
#[derive(Debug)]
pub enum HubCall {
    Skip,
    Post(HubRequest),
}

pub enum HubCallView {
    Skip,
    Post(HubRequestView),
}

impl DeepView for HubCall {
    type V = HubCallView;

    open spec fn deep_view(&self) -> HubCallView {
        match self {
            HubCall::Skip => HubCallView::Skip,
            HubCall::Post(r) => HubCallView::Post(r.deep_view()),
        }
    }
}

/// What came back for a request: nothing, with the error, or an answer.
#[derive(Debug)]
pub enum HubReply {
    Unreachable(String),
    Answered { status: u16, body: String },
}

pub enum HubReplyView {
    Unreachable(Seq<char>),
    Answered { status: u16, body: Seq<char> },
}

impl DeepView for HubReply {
    type V = HubReplyView;

    open spec fn deep_view(&self) -> HubReplyView {
        match self {
            HubReply::Unreachable(e) => HubReplyView::Unreachable(e@),
            HubReply::Answered { status, body } => HubReplyView::Answered {
                status: *status,
                body: body@,
            },
        }
    }
}

/// What a reply comes to: nothing, a value, or a JSON text that is yet to be
/// parsed.
#[derive(Debug)]
pub enum HubOutcome {
    Skip,
    Value(JsonValue),
    Parse(String),
}

pub enum HubOutcomeView {
    Skip,
    Value(JsonView),
    Parse(Seq<char>),
}

impl DeepView for HubOutcome {
    type V = HubOutcomeView;

    open spec fn deep_view(&self) -> HubOutcomeView {
        match self {
            HubOutcome::Skip => HubOutcomeView::Skip,
            HubOutcome::Value(v) => HubOutcomeView::Value(v.deep_view()),
            HubOutcome::Parse(s) => HubOutcomeView::Parse(s@),
        }
    }
}

impl PlatformCustomerContextView {
    /// The context as JSON; what is absent is left out.
    pub open spec fn json(self) -> JsonView {
        let object = Map::<Seq<char>, JsonView>::empty().insert(
            "tenant_id"@,
            JsonView::Str(self.tenant_id),
        ).insert("workspace_id"@, JsonView::Str(self.workspace_id));
        let object = json::with_opt(
            object,
            "installation_id"@,
            json::opt_str(self.installation_id),
        );
        let object = json::with_opt(object, "solution_id"@, json::opt_str(self.solution_id));
        let object = json::with_opt(object, "identity_id"@, json::opt_str(self.identity_id));
        let object = json::with_opt(
            object,
            "conversation_id"@,
            json::opt_str(self.conversation_id),
        );
        let object = json::with_opt(object, "person_id"@, json::opt_str(self.person_id));
        let object = json::with_opt(
            object,
            "capabilities"@,
            match self.capabilities {
                Some(c) => Some(json::str_array(c)),
                None => None,
            },
        );
        JsonView::Object(json::with_opt(object, "source"@, json::opt_str(self.source)))
    }
}

impl PlatformCustomerContext {
    /// The context as JSON.
    pub fn to_json(&self) -> (r: JsonValue)
        ensures
            r.deep_view() == self.deep_view().json(),
    {
        let mut object = JsonObject::new();
        object.insert_str("tenant_id", self.tenant_id.as_str());
        object.insert_str("workspace_id", self.workspace_id.as_str());
        object.insert_opt_str("installation_id", &self.installation_id);
        object.insert_opt_str("solution_id", &self.solution_id);
        object.insert_opt_str("identity_id", &self.identity_id);
        object.insert_opt_str("conversation_id", &self.conversation_id);
        object.insert_opt_str("person_id", &self.person_id);
        if let Some(c) = &self.capabilities {
            object.insert("capabilities", JsonValue::strings(c));
        }
        object.insert_opt_str("source", &self.source);
        JsonValue::Object(object)
    }
}

impl PlatformStorageContextView {
    /// The context as JSON; what is absent is left out.
    pub open spec fn json(self) -> JsonView {
        let object = Map::<Seq<char>, JsonView>::empty().insert(
            "tenant_id"@,
            JsonView::Str(self.tenant_id),
        ).insert("workspace_id"@, JsonView::Str(self.workspace_id)).insert(
            "installation_id"@,
            JsonView::Str(self.installation_id),
        ).insert("solution_id"@, JsonView::Str(self.solution_id));
        let object = json::with_opt(object, "identity_id"@, json::opt_str(self.identity_id));
        let object = object.insert("capabilities"@, json::str_array(self.capabilities));
        JsonView::Object(json::with_opt(object, "source"@, json::opt_str(self.source)))
    }
}

impl PlatformStorageContext {
    /// The context as JSON.
    pub fn to_json(&self) -> (r: JsonValue)
        ensures
            r.deep_view() == self.deep_view().json(),
    {
        let mut object = JsonObject::new();
        object.insert_str("tenant_id", self.tenant_id.as_str());
        object.insert_str("workspace_id", self.workspace_id.as_str());
        object.insert_str("installation_id", self.installation_id.as_str());
        object.insert_str("solution_id", self.solution_id.as_str());
        object.insert_opt_str("identity_id", &self.identity_id);
        object.insert("capabilities", JsonValue::strings(&self.capabilities));
        object.insert_opt_str("source", &self.source);
        JsonValue::Object(object)
    }
}

/// A binding as JSON; what is absent is left out.
pub open spec fn binding_json(
    base_url: Option<Seq<char>>,
    token: Option<Seq<char>>,
    context: Option<JsonView>,
) -> JsonView {
    let object = Map::<Seq<char>, JsonView>::empty();
    let object = json::with_opt(object, "base_url"@, json::opt_str(base_url));
    let object = json::with_opt(object, "token"@, json::opt_str(token));
    JsonView::Object(json::with_opt(object, "context"@, context))
}

fn binding_to_json(
    base_url: &Option<String>,
    token: &Option<String>,
    context: Option<JsonValue>,
) -> (r: JsonValue)
    ensures
        r.deep_view() == binding_json(
            base_url.deep_view(),
            token.deep_view(),
            context.deep_view(),
        ),
{
    let mut object = JsonObject::new();
    object.insert_opt_str("base_url", base_url);
    object.insert_opt_str("token", token);
    object.insert_opt("context", context);
    JsonValue::Object(object)
}

impl PlatformStorageBindingView {
    /// The binding as JSON.
    pub open spec fn json(self) -> JsonView {
        binding_json(
            self.base_url,
            self.token,
            match self.context {
                Some(c) => Some(c.json()),
                None => None,
            },
        )
    }
}

impl PlatformStorageBinding {
    /// The binding as JSON.
    pub fn to_json(&self) -> (r: JsonValue)
        ensures
            r.deep_view() == self.deep_view().json(),
    {
        let context = match &self.context {
            Some(c) => Some(c.to_json()),
            None => None,
        };
        binding_to_json(&self.base_url, &self.token, context)
    }
}

impl PlatformCustomerBindingView {
    /// The binding as JSON.
    pub open spec fn json(self) -> JsonView {
        binding_json(
            self.base_url,
            self.token,
            match self.context {
                Some(c) => Some(c.json()),
                None => None,
            },
        )
    }
}

impl PlatformCustomerBinding {
    /// The binding as JSON.
    pub fn to_json(&self) -> (r: JsonValue)
        ensures
            r.deep_view() == self.deep_view().json(),
    {
        let context = match &self.context {
            Some(c) => Some(c.to_json()),
            None => None,
        };
        binding_to_json(&self.base_url, &self.token, context)
    }
}

impl PlatformCapabilitiesView {
    /// The capabilities as JSON; what is absent is left out.
    pub open spec fn json(self) -> JsonView {
        let object = json::with_opt(
            Map::<Seq<char>, JsonView>::empty(),
            "storage"@,
            match self.storage {
                Some(b) => Some(b.json()),
                None => None,
            },
        );
        JsonView::Object(
            json::with_opt(
                object,
                "customer"@,
                match self.customer {
                    Some(b) => Some(b.json()),
                    None => None,
                },
            ),
        )
    }
}

impl PlatformCapabilities {
    /// The capabilities as JSON.
    pub fn to_json(&self) -> (r: JsonValue)
        ensures
            r.deep_view() == self.deep_view().json(),
    {
        let mut object = JsonObject::new();
        if let Some(b) = &self.storage {
            object.insert("storage", b.to_json());
        }
        if let Some(b) = &self.customer {
            object.insert("customer", b.to_json());
        }
        JsonValue::Object(object)
    }
}

/// An address without its trailing slashes; nothing where it is empty.
pub open spec fn base_address(url: Option<Seq<char>>) -> Option<Seq<char>> {
    match url {
        Some(u) => json::filled(Some(text::strip_end_spec(u, '/'))),
        None => None,
    }
}

fn read_address(url: &Option<String>) -> (r: Option<String>)
    ensures
        r.deep_view() == base_address(url.deep_view()),
{
    match url {
        Some(u) => {
            let base = strip_end(u.as_str(), '/');
            if base.as_str().is_empty() {
                None
            } else {
                Some(base)
            }
        },
        None => None,
    }
}

/// The Customer Hub binding of the platform.
pub open spec fn customer_binding(platform: Option<PlatformCapabilitiesView>) -> Option<
    PlatformCustomerBindingView,
> {
    match platform {
        Some(p) => p.customer,
        None => None,
    }
}

/// The token for the Hub: that of the binding, else the first of the environment,
/// else an empty one.
pub open spec fn hub_token(
    binding: PlatformCustomerBindingView,
    settings: HubSettingsView,
) -> Seq<char> {
    match json::or_else(
        json::filled(binding.token),
        json::or_else(
            settings.service_token,
            json::or_else(settings.internal_token, settings.internal_bearer),
        ),
    ) {
        Some(t) => t,
        None => Seq::empty(),
    }
}

/// Where the Hub is. The address is that of the binding, else that of the
/// environment. There is no endpoint without an address, or without a context
/// that names a tenant and a workspace.
pub open spec fn hub_endpoint(
    platform: Option<PlatformCapabilitiesView>,
    settings: HubSettingsView,
) -> Option<HubEndpointView> {
    match customer_binding(platform) {
        Some(binding) => match (
            json::or_else(base_address(binding.base_url), base_address(settings.url)),
            binding.context,
        ) {
            (Some(base_url), Some(context)) => if context.tenant_id.len() > 0
                && context.workspace_id.len() > 0 {
                Some(
                    HubEndpointView { base_url, token: hub_token(binding, settings), context },
                )
            } else {
                None
            },
            _ => None,
        },
        None => None,
    }
}

/// Finds the Hub.
pub fn resolve_hub_endpoint(platform: Option<&PlatformCapabilities>, settings: &HubSettings) -> (r:
    Option<HubEndpoint>)
    ensures
        r.deep_view() == hub_endpoint(platform.deep_view(), settings.deep_view()),
{
    let binding = match platform {
        Some(p) => match &p.customer {
            Some(c) => c,
            None => return None,
        },
        None => return None,
    };
    let base_url = match read_address(&binding.base_url) {
        Some(u) => u,
        None => match read_address(&settings.url) {
            Some(u) => u,
            None => return None,
        },
    };
    let context = match &binding.context {
        Some(c) => c,
        None => return None,
    };
    if context.tenant_id.as_str().is_empty() || context.workspace_id.as_str().is_empty() {
        return None;
    }
    let own = match &binding.token {
        Some(t) => if t.as_str().is_empty() {
            None
        } else {
            Some(t.as_str())
        },
        None => None,
    };
    let token = or_text(
        own,
        or_text(
            as_text(&settings.service_token),
            or_text(as_text(&settings.internal_token), as_text(&settings.internal_bearer)),
        ),
    );
    let token = match token {
        Some(t) => t.to_owned(),
        None => String::new(),
    };
    Some(HubEndpoint { base_url, token, context: context.clone() })
}

/// A body with the context of the Hub under `context`; a body that is not an
/// object stays as it is.
pub open spec fn with_context(body: JsonView, context: PlatformCustomerContextView) -> JsonView {
    match body {
        JsonView::Object(m) => JsonView::Object(m.insert("context"@, context.json())),
        _ => body,
    }
}

/// Nothing where the Hub is optional, else an error.
pub open spec fn skip_or_fail(settings: HubSettingsView, message: Seq<char>) -> Result<
    HubCallView,
    ToolErrorView,
> {
    if settings.is_optional() {
        Ok(HubCallView::Skip)
    } else {
        Err(ToolErrorView::Message(message))
    }
}

/// What a call of an operation of the Hub comes to.
pub open spec fn hub_call_spec(
    settings: HubSettingsView,
    platform: Option<PlatformCapabilitiesView>,
    op: Seq<char>,
    body: JsonView,
) -> Result<HubCallView, ToolErrorView> {
    if !settings.is_enabled() {
        skip_or_fail(settings, "customer_hub_disabled"@)
    } else {
        match hub_endpoint(platform, settings) {
            Some(e) => Ok(
                HubCallView::Post(
                    HubRequestView {
                        url: e.base_url + "/v1/internal/customer-hub/"@ + op,
                        bearer: json::filled(Some(e.token)),
                        payload: with_context(body, e.context),
                    },
                ),
            ),
            None => skip_or_fail(settings, "customer_hub_unavailable"@),
        }
    }
}

fn pass_over(settings: &HubSettings, message: &str) -> (r: Result<HubCall, ToolError>)
    ensures
        auth::result_view(r) == skip_or_fail(settings.deep_view(), message@),
{
    if settings.is_optional() {
        Ok(HubCall::Skip)
    } else {
        Err(ToolError::new(message))
    }
}

/// Decides a call of an operation of the Hub.
pub fn hub_call(
    settings: &HubSettings,
    platform: Option<&PlatformCapabilities>,
    op: &str,
    body: JsonValue,
) -> (r: Result<HubCall, ToolError>)
    ensures
        auth::result_view(r) == hub_call_spec(
            settings.deep_view(),
            platform.deep_view(),
            op@,
            body.deep_view(),
        ),
{
    if !settings.is_enabled() {
        return pass_over(settings, "customer_hub_disabled");
    }
    let endpoint = match resolve_hub_endpoint(platform, settings) {
        Some(e) => e,
        None => return pass_over(settings, "customer_hub_unavailable"),
    };
    let payload = match body {
        JsonValue::Object(o) => {
            let mut object = o;
            object.insert("context", endpoint.context.to_json());
            JsonValue::Object(object)
        },
        other => other,
    };
    let url = join(endpoint.base_url.as_str(), "/v1/internal/customer-hub/");
    let bearer = if endpoint.token.as_str().is_empty() {
        None
    } else {
        Some(endpoint.token)
    };
    Ok(HubCall::Post(HubRequest { url: join(url.as_str(), op), bearer, payload }))
}

pub open spec fn failed_prefix(op: Seq<char>) -> Seq<char> {
    "customer_hub."@ + op + " failed"@
}

/// What a reply comes to. While the Hub is optional, a Hub that cannot be
/// reached, does not know the operation or has a fault of its own is passed over.
pub open spec fn hub_reply_spec(
    settings: HubSettingsView,
    op: Seq<char>,
    reply: HubReplyView,
) -> Result<HubOutcomeView, ToolErrorView> {
    match reply {
        HubReplyView::Unreachable(e) => if settings.is_optional() {
            Ok(HubOutcomeView::Skip)
        } else {
            Err(ToolErrorView::Message(failed_prefix(op) + ": "@ + e))
        },
        HubReplyView::Answered { status, body } => if 200 <= status < 300 {
            if body.len() == 0 {
                Ok(HubOutcomeView::Value(json::empty_object()))
            } else {
                Ok(HubOutcomeView::Parse(body))
            }
        } else if settings.is_optional() && (status == 404 || status >= 500) {
            Ok(HubOutcomeView::Skip)
        } else {
            Err(
                ToolErrorView::Message(
                    failed_prefix(op) + " ("@ + text::decimal_spec(status as nat) + "): "@ + body,
                ),
            )
        },
    }
}

/// Decides what a reply of the Hub comes to.
pub fn hub_reply(settings: &HubSettings, op: &str, reply: HubReply) -> (r: Result<
    HubOutcome,
    ToolError,
>)
    ensures
        auth::result_view(r) == hub_reply_spec(settings.deep_view(), op@, reply.deep_view()),
{
    let failed = join(join("customer_hub.", op).as_str(), " failed");
    match reply {
        HubReply::Unreachable(e) => {
            if settings.is_optional() {
                return Ok(HubOutcome::Skip);
            }
            let m = join(failed.as_str(), ": ");
            Err(ToolError::Message(join(m.as_str(), e.as_str())))
        },
        HubReply::Answered { status, body } => {
            if 200 <= status && status < 300 {
                if body.as_str().is_empty() {
                    return Ok(HubOutcome::Value(JsonValue::empty_object()));
                }
                return Ok(HubOutcome::Parse(body));
            }
            if settings.is_optional() && (status == 404 || status >= 500) {
                return Ok(HubOutcome::Skip);
            }
            let m = join(failed.as_str(), " (");
            let m = join(m.as_str(), decimal(status as u64).as_str());
            let m = join(m.as_str(), "): ");
            Err(ToolError::Message(join(m.as_str(), body.as_str())))
        },
    }
}

/// What a reply whose text was parsed comes to: its value, or an error where the
/// text is no JSON. That the Hub is optional does not matter here.
pub fn hub_parsed(parsed: Result<JsonValue, String>) -> (r: Result<Option<JsonValue>, ToolError>)
    ensures
        auth::result_view(r) == (match parsed {
            Ok(v) => Ok::<Option<JsonView>, ToolErrorView>(Some(v.deep_view())),
            Err(m) => Err(ToolErrorView::Message(m@)),
        }),
{
    match parsed {
        Ok(v) => Ok(Some(v)),
        Err(m) => Err(ToolError::Message(m)),
    }
}

/// The id of the current customer.
pub open spec fn known_customer_id(state: CustomerStateView) -> Option<Seq<char>> {
    match state.current {
        Some(c) => c.filled_text("id"@),
        None => None,
    }
}

/// The id of the current customer.
pub fn current_customer_id(state: &CustomerState) -> (r: Option<&str>)
    ensures
        r.deep_view() == known_customer_id(state.deep_view()),
{
    match &state.current {
        Some(c) => c.filled_text("id"),
        None => None,
    }
}

/// The value under a key, or a default.
pub open spec fn get_or(object: JsonView, key: Seq<char>, default: JsonView) -> JsonView {
    match object.get(key) {
        Some(v) => v,
        None => default,
    }
}

fn read_or(object: &JsonValue, key: &str, default: JsonValue) -> (r: JsonValue)
    ensures
        r.deep_view() == get_or(object.deep_view(), key@, default.deep_view()),
{
    match object.get(key) {
        Some(v) => v.clone(),
        None => default,
    }
}

/// The string under a key, trimmed; empty where there is none.
pub open spec fn trimmed_or_empty(object: JsonView, key: Seq<char>) -> Seq<char> {
    match object.text(key) {
        Some(s) => text::trim_spec(s),
        None => Seq::empty(),
    }
}

fn read_trimmed_or_empty(object: &JsonValue, key: &str) -> (r: String)
    ensures
        r@ == trimmed_or_empty(object.deep_view(), key@),
{
    match object.text(key) {
        Some(s) => trim(s),
        None => String::new(),
    }
}

/// Appends activities to the timeline of a customer.
#[derive(Debug)]
pub struct TimelineContext {
    pub platform: Option<PlatformCapabilities>,
    pub state: CustomerState,
}

pub struct TimelineContextView {
    pub platform: Option<PlatformCapabilitiesView>,
    pub state: CustomerStateView,
}

impl DeepView for TimelineContext {
    type V = TimelineContextView;

    open spec fn deep_view(&self) -> TimelineContextView {
        TimelineContextView {
            platform: self.platform.deep_view(),
            state: self.state.deep_view(),
        }
    }
}

impl Clone for TimelineContext {
    fn clone(&self) -> (r: Self)
        ensures
            r.deep_view() == self.deep_view(),
    {
        TimelineContext {
            platform: self.platform.clone(),
            state: self.state.clone(),
        }
    }
}

/// What an activity says to the Hub.
pub open spec fn timeline_body(input: JsonView, customer_id: Seq<char>) -> JsonView {
    JsonView::Object(
        Map::<Seq<char>, JsonView>::empty().insert(
            "customer_id"@,
            JsonView::Str(customer_id),
        ).insert("event_type"@, JsonView::Str(trimmed_or_empty(input, "event_type"@))).insert(
            "payload"@,
            get_or(input, "payload"@, json::empty_object()),
        ).insert(
            "source"@,
            JsonView::Str(
                match input.text("source"@) {
                    Some(s) => s,
                    None => "sdk"@,
                },
            ),
        ),
    )
}

impl TimelineContextView {
    /// What appending an activity comes to.
    pub open spec fn append_spec(self, settings: HubSettingsView, input: JsonView) -> Result<
        HubCallView,
        ToolErrorView,
    > {
        if trimmed_or_empty(input, "event_type"@).len() == 0 {
            Err(ToolErrorView::Message("timeline_event_empty"@))
        } else {
            match json::or_else(input.text("customer_id"@), known_customer_id(self.state)) {
                Some(id) => hub_call_spec(
                    settings,
                    self.platform,
                    "timeline_append"@,
                    timeline_body(input, id),
                ),
                None => skip_or_fail(settings, "customer_not_found"@),
            }
        }
    }
}

impl TimelineContext {
    /// Appends an activity. The customer is the one that the input names, else the
    /// current one.
    pub fn append(&self, settings: &HubSettings, input: &JsonValue) -> (r: Result<
        HubCall,
        ToolError,
    >)
        ensures
            auth::result_view(r) == self.deep_view().append_spec(
                settings.deep_view(),
                input.deep_view(),
            ),
    {
        let event_type = read_trimmed_or_empty(input, "event_type");
        if event_type.as_str().is_empty() {
            return Err(ToolError::new("timeline_event_empty"));
        }
        let customer_id = match or_text(
            input.text("customer_id"),
            current_customer_id(&self.state),
        ) {
            Some(id) => id,
            None => return pass_over(settings, "customer_not_found"),
        };
        let source = match input.text("source") {
            Some(s) => s,
            None => "sdk",
        };
        let mut body = JsonObject::new();
        body.insert_str("customer_id", customer_id);
        body.insert_str("event_type", event_type.as_str());
        body.insert("payload", read_or(input, "payload", JsonValue::empty_object()));
        body.insert_str("source", source);
        hub_call(settings, self.platform.as_ref(), "timeline_append", JsonValue::Object(body))
    }
}

/// The customer that an input names, else the current one; nothing where there is
/// none and the Hub is optional.
pub open spec fn chosen_customer_id(
    settings: HubSettingsView,
    state: CustomerStateView,
    named: Option<Seq<char>>,
) -> Result<Option<Seq<char>>, ToolErrorView> {
    match json::or_else(named, known_customer_id(state)) {
        Some(id) => Ok(Some(id)),
        None => if settings.is_optional() {
            Ok(None)
        } else {
            Err(ToolErrorView::Message("customer_not_found"@))
        },
    }
}

/// Chooses the customer of a call.
pub fn customer_id_or_optional(
    settings: &HubSettings,
    state: &CustomerState,
    named: Option<&str>,
) -> (r: Result<Option<String>, ToolError>)
    ensures
        auth::result_view(r) == chosen_customer_id(
            settings.deep_view(),
            state.deep_view(),
            named.deep_view(),
        ),
{
    match or_text(named, current_customer_id(state)) {
        Some(id) => Ok(Some(id.to_owned())),
        None => if settings.is_optional() {
            Ok(None)
        } else {
            Err(ToolError::new("customer_not_found"))
        },
    }
}

/// Attaches a customer to a solution and detaches it.
#[derive(Debug)]
pub struct MembershipContext {
    pub platform: Option<PlatformCapabilities>,
    pub state: CustomerState,
    pub solution_id: Option<String>,
}

pub struct MembershipContextView {
    pub platform: Option<PlatformCapabilitiesView>,
    pub state: CustomerStateView,
    pub solution_id: Option<Seq<char>>,
}

impl DeepView for MembershipContext {
    type V = MembershipContextView;

    open spec fn deep_view(&self) -> MembershipContextView {
        MembershipContextView {
            platform: self.platform.deep_view(),
            state: self.state.deep_view(),
            solution_id: self.solution_id.deep_view(),
        }
    }
}

impl Clone for MembershipContext {
    fn clone(&self) -> (r: Self)
        ensures
            r.deep_view() == self.deep_view(),
    {
        MembershipContext {
            platform: self.platform.clone(),
            state: self.state.clone(),
            solution_id: self.solution_id.clone(),
        }
    }
}

/// An optional input as an object; an input that is absent has no keys.
pub open spec fn input_view(input: Option<JsonView>) -> JsonView {
    match input {
        Some(i) => i,
        None => JsonView::Null,
    }
}

impl MembershipContextView {
    /// What a membership says to the Hub.
    pub open spec fn body(self, input: JsonView, customer_id: Seq<char>) -> JsonView {
        JsonView::Object(
            Map::<Seq<char>, JsonView>::empty().insert(
                "customer_id"@,
                JsonView::Str(customer_id),
            ).insert(
                "solution_id"@,
                json::str_or_null(json::or_else(input.text("solution_id"@), self.solution_id)),
            ).insert("role"@, get_or(input, "role"@, JsonView::Null)).insert(
                "metadata"@,
                get_or(input, "metadata"@, json::empty_object()),
            ),
        )
    }

    /// What an operation on a membership comes to.
    pub open spec fn call_spec(
        self,
        settings: HubSettingsView,
        op: Seq<char>,
        input: Option<JsonView>,
    ) -> Result<HubCallView, ToolErrorView> {
        let input = input_view(input);
        match chosen_customer_id(settings, self.state, input.filled_text("customer_id"@)) {
            Ok(Some(id)) => hub_call_spec(settings, self.platform, op, self.body(input, id)),
            Ok(None) => Ok(HubCallView::Skip),
            Err(e) => Err(e),
        }
    }
}

impl MembershipContext {
    fn call(&self, settings: &HubSettings, op: &str, input: Option<&JsonValue>) -> (r: Result<
        HubCall,
        ToolError,
    >)
        ensures
            auth::result_view(r) == self.deep_view().call_spec(
                settings.deep_view(),
                op@,
                input.deep_view(),
            ),
    {
        let nothing = JsonValue::Null;
        let input = match input {
            Some(i) => i,
            None => &nothing,
        };
        let customer_id = match customer_id_or_optional(
            settings,
            &self.state,
            input.filled_text("customer_id"),
        ) {
            Ok(Some(id)) => id,
            Ok(None) => return Ok(HubCall::Skip),
            Err(e) => return Err(e),
        };
        let mut body = JsonObject::new();
        body.insert_str("customer_id", customer_id.as_str());
        body.insert_str_or_null(
            "solution_id",
            or_text(input.text("solution_id"), as_text(&self.solution_id)),
        );
        body.insert("role", read_or(input, "role", JsonValue::Null));
        body.insert("metadata", read_or(input, "metadata", JsonValue::empty_object()));
        hub_call(settings, self.platform.as_ref(), op, JsonValue::Object(body))
    }

    /// Attaches the customer to a solution.
    pub fn attach(&self, settings: &HubSettings, input: Option<&JsonValue>) -> (r: Result<
        HubCall,
        ToolError,
    >)
        ensures
            auth::result_view(r) == self.deep_view().call_spec(
                settings.deep_view(),
                "membership_attach"@,
                input.deep_view(),
            ),
    {
        self.call(settings, "membership_attach", input)
    }

    /// Detaches the customer from a solution.
    pub fn detach(&self, settings: &HubSettings, input: Option<&JsonValue>) -> (r: Result<
        HubCall,
        ToolError,
    >)
        ensures
            auth::result_view(r) == self.deep_view().call_spec(
                settings.deep_view(),
                "membership_detach"@,
                input.deep_view(),
            ),
    {
        self.call(settings, "membership_detach", input)
    }
}

/// Grants a consent of a customer and revokes it.
#[derive(Debug)]
pub struct ConsentContext {
    pub platform: Option<PlatformCapabilities>,
    pub state: CustomerState,
}

pub struct ConsentContextView {
    pub platform: Option<PlatformCapabilitiesView>,
    pub state: CustomerStateView,
}

impl DeepView for ConsentContext {
    type V = ConsentContextView;

    open spec fn deep_view(&self) -> ConsentContextView {
        ConsentContextView {
            platform: self.platform.deep_view(),
            state: self.state.deep_view(),
        }
    }
}

impl Clone for ConsentContext {
    fn clone(&self) -> (r: Self)
        ensures
            r.deep_view() == self.deep_view(),
    {
        ConsentContext {
            platform: self.platform.clone(),
            state: self.state.clone(),
        }
    }
}

/// What a consent says to the Hub.
pub open spec fn consent_body(input: JsonView, customer_id: Seq<char>) -> JsonView {
    JsonView::Object(
        Map::<Seq<char>, JsonView>::empty().insert(
            "customer_id"@,
            JsonView::Str(customer_id),
        ).insert("purpose"@, JsonView::Str(trimmed_or_empty(input, "purpose"@))).insert(
            "metadata"@,
            get_or(input, "metadata"@, json::empty_object()),
        ),
    )
}

impl ConsentContextView {
    /// What an operation on a consent comes to.
    pub open spec fn call_spec(
        self,
        settings: HubSettingsView,
        op: Seq<char>,
        input: JsonView,
    ) -> Result<HubCallView, ToolErrorView> {
        if trimmed_or_empty(input, "purpose"@).len() == 0 {
            Err(ToolErrorView::Message("consent_purpose_empty"@))
        } else {
            match chosen_customer_id(settings, self.state, input.filled_text("customer_id"@)) {
                Ok(Some(id)) => hub_call_spec(
                    settings,
                    self.platform,
                    op,
                    consent_body(input, id),
                ),
                Ok(None) => Ok(HubCallView::Skip),
                Err(e) => Err(e),
            }
        }
    }
}

impl ConsentContext {
    fn call(&self, settings: &HubSettings, op: &str, input: &JsonValue) -> (r: Result<
        HubCall,
        ToolError,
    >)
        ensures
            auth::result_view(r) == self.deep_view().call_spec(
                settings.deep_view(),
                op@,
                input.deep_view(),
            ),
    {
        let purpose = read_trimmed_or_empty(input, "purpose");
        if purpose.as_str().is_empty() {
            return Err(ToolError::new("consent_purpose_empty"));
        }
        let customer_id = match customer_id_or_optional(
            settings,
            &self.state,
            input.filled_text("customer_id"),
        ) {
            Ok(Some(id)) => id,
            Ok(None) => return Ok(HubCall::Skip),
            Err(e) => return Err(e),
        };
        let mut body = JsonObject::new();
        body.insert_str("customer_id", customer_id.as_str());
        body.insert_str("purpose", purpose.as_str());
        body.insert("metadata", read_or(input, "metadata", JsonValue::empty_object()));
        hub_call(settings, self.platform.as_ref(), op, JsonValue::Object(body))
    }

    /// Grants a consent.
    pub fn grant(&self, settings: &HubSettings, input: &JsonValue) -> (r: Result<
        HubCall,
        ToolError,
    >)
        ensures
            auth::result_view(r) == self.deep_view().call_spec(
                settings.deep_view(),
                "consent_grant"@,
                input.deep_view(),
            ),
    {
        self.call(settings, "consent_grant", input)
    }

    /// Revokes a consent.
    pub fn revoke(&self, settings: &HubSettings, input: &JsonValue) -> (r: Result<
        HubCall,
        ToolError,
    >)
        ensures
            auth::result_view(r) == self.deep_view().call_spec(
                settings.deep_view(),
                "consent_revoke"@,
                input.deep_view(),
            ),
    {
        self.call(settings, "consent_revoke", input)
    }
}

/// A snapshot of a person as a Hub customer. There is none where the person has
/// no id.
pub open spec fn seeded_customer(person: JsonView) -> Option<JsonView> {
    match person.filled_text("id"@) {
        Some(id) => Some(
            JsonView::Object(
                Map::<Seq<char>, JsonView>::empty().insert("id"@, JsonView::Str(id)).insert(
                    "phone_number"@,
                    get_or(person, "phone"@, JsonView::Null),
                ).insert("whatsapp_number"@, get_or(person, "phone"@, JsonView::Null)).insert(
                    "display_name"@,
                    get_or(person, "name"@, JsonView::Null),
                ).insert("email"@, get_or(person, "email"@, JsonView::Null)).insert(
                    "status"@,
                    get_or(person, "status"@, JsonView::Null),
                ).insert("workspace_id"@, get_or(person, "workspace_id"@, JsonView::Null)),
            ),
        ),
        None => None,
    }
}

/// Makes a Hub customer of the snapshot of a person that came with an invocation.
pub fn seed_from_person(person: &JsonValue) -> (r: Option<JsonValue>)
    ensures
        r.deep_view() == seeded_customer(person.deep_view()),
{
    let id = match person.filled_text("id") {
        Some(id) => id,
        None => return None,
    };
    let mut out = JsonObject::new();
    out.insert_str("id", id);
    out.insert("phone_number", read_or(person, "phone", JsonValue::Null));
    out.insert("whatsapp_number", read_or(person, "phone", JsonValue::Null));
    out.insert("display_name", read_or(person, "name", JsonValue::Null));
    out.insert("email", read_or(person, "email", JsonValue::Null));
    out.insert("status", read_or(person, "status", JsonValue::Null));
    out.insert("workspace_id", read_or(person, "workspace_id", JsonValue::Null));
    Some(JsonValue::Object(out))
}

/// The keys of a customer differ from one another.
proof fn lemma_customer_keys()
    ensures
        "id"@.len() == 2,
        "name"@.len() == 4,
        "phone"@.len() == 5,
        "email"@.len() == 5,
        "channel"@.len() == 7,
        "identifier"@.len() == 10,
        "phone_number"@.len() == 12,
        "display_name"@.len() == 12,
        "whatsapp_number"@.len() == 15,
        "phone"@ != "email"@,
        "phone_number"@ != "display_name"@,
{
    reveal_strlit("id");
    reveal_strlit("name");
    reveal_strlit("phone");
    reveal_strlit("email");
    reveal_strlit("channel");
    reveal_strlit("identifier");
    reveal_strlit("phone_number");
    reveal_strlit("display_name");
    reveal_strlit("whatsapp_number");
    assert("phone"@[0] == 'p' && "email"@[0] == 'e');
    assert("phone_number"@[0] == 'p' && "display_name"@[0] == 'd');
}

/// While the Hub is off it is never called; with both flags at their defaults a
/// call is passed over.
pub proof fn law_hub_off(
    settings: HubSettingsView,
    platform: Option<PlatformCapabilitiesView>,
    op: Seq<char>,
    body: JsonView,
)
    ensures
        !settings.is_enabled() ==> hub_call_spec(settings, platform, op, body) == skip_or_fail(
            settings,
            "customer_hub_disabled"@,
        ),
        settings.enabled is None && settings.optional is None ==> hub_call_spec(
            settings,
            platform,
            op,
            body,
        ) == Ok::<HubCallView, ToolErrorView>(HubCallView::Skip),
{
}

/// While the Hub is optional no call is refused, and neither is a reply that says
/// that the Hub is missing or at fault.
pub proof fn law_hub_optional_soft(
    settings: HubSettingsView,
    platform: Option<PlatformCapabilitiesView>,
    op: Seq<char>,
    body: JsonView,
    reply: HubReplyView,
)
    requires
        settings.is_optional(),
    ensures
        hub_call_spec(settings, platform, op, body) is Ok,
        reply is Unreachable || reply->Answered_status == 404 || reply->Answered_status >= 500
            ==> hub_reply_spec(settings, op, reply) == Ok::<HubOutcomeView, ToolErrorView>(
            HubOutcomeView::Skip,
        ),
{
}

/// While the Hub is not optional nothing is passed over: a call is sent or
/// refused, and a reply is used or refused.
pub proof fn law_hub_required_hard(
    settings: HubSettingsView,
    platform: Option<PlatformCapabilitiesView>,
    op: Seq<char>,
    body: JsonView,
    reply: HubReplyView,
)
    requires
        !settings.is_optional(),
    ensures
        hub_call_spec(settings, platform, op, body) != Ok::<HubCallView, ToolErrorView>(
            HubCallView::Skip,
        ),
        hub_reply_spec(settings, op, reply) != Ok::<HubOutcomeView, ToolErrorView>(
            HubOutcomeView::Skip,
        ),
{
}

/// A Hub customer, taken as a person, is the same Hub customer.
pub proof fn law_hub_customer_idempotent(person: JsonView)
    requires
        hub_customer(person) is Some,
    ensures
        hub_customer(hub_customer(person)->0) == hub_customer(person),
{
    lemma_customer_keys();
    let m = person->Object_0;
    let once = hub_customer(person)->0;
    let n = once->Object_0;
    let id = trimmed_text(person, "id"@)->0;
    text::law_trim(person.text("id"@)->0);
    assert(once.text("id"@) == Some(id));
    assert(trimmed_text(once, "id"@) == Some(id));
    assert(once.get("phone"@) == person.get("phone"@));
    assert(once.get("name"@) == person.get("name"@));
    assert(person_phone(once) == person_phone(person));
    assert(person_name(once) == person_name(person));
    let whatsapp = json::or_else(person.filled_text("whatsapp_number"@), person_phone(person));
    assert(json::or_else(once.filled_text("whatsapp_number"@), person_phone(once)) == whatsapp);
    assert(json::str_or_null(once.text("email"@)) == json::str_or_null(person.text("email"@)));
    let twice = hub_customer(once)->0->Object_0;
    assert(twice =~= n);
}

/// A Hub customer keeps every other key of the person.
pub proof fn law_hub_customer_keeps(person: JsonView, key: Seq<char>)
    requires
        hub_customer(person) is Some,
        key != "id"@,
        key != "phone_number"@,
        key != "whatsapp_number"@,
        key != "display_name"@,
        key != "email"@,
    ensures
        hub_customer(person)->0.get(key) == person.get(key),
{
}

/// Picking from what was picked gives it back.
pub proof fn law_pick_identity_idempotent(merged: JsonView)
    ensures
        picked_identity(merged_identity(None, JsonView::Object(picked_identity(merged))))
            == picked_identity(merged),
{
    lemma_customer_keys();
    let once = JsonView::Object(picked_identity(merged));
    assert(merged_identity(None, once) == once);
    assert(once.text("id"@) == merged.text("id"@));
    assert(once.get("phone"@) is None);
    assert(once.get("name"@) is None);
    assert(person_phone(once) == person_phone(merged));
    assert(person_name(once) == person_name(merged));
    assert(once.filled_text("whatsapp_number"@) == merged.filled_text("whatsapp_number"@));
    assert(once.filled_text("email"@) == merged.filled_text("email"@));
    reveal_strlit("whatsapp");
    reveal_strlit("sms");
    reveal_strlit("api");
    assert(identity_channel(once) == identity_channel(merged));
    assert(identity_identifier(once) == identity_identifier(merged));
    assert(picked_identity(once) =~= picked_identity(merged));
}

/// Where the input and the identity both have a key, the input counts.
pub proof fn law_input_over_identity(input: JsonView, identity: JsonView, key: Seq<char>)
    ensures
        merged_identity(Some(input), identity).get(key) == json::or_else(
            input.get(key),
            identity.get(key),
        ),
{
}

} // verus!
