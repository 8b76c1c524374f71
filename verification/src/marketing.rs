//! Marketing capability registration.
//!
//! An app registers metadata only: audiences, variables, actions, landing pages
//! and channels. Validation finds the first thing wrong with a definition, or
//! gives the definition in its normal form.

use crate::json;
use crate::json::{JsonObject, JsonValue, JsonView};
use crate::laws;
use crate::text;
use crate::text::{decimal, join, same_text, trim};
use crate::tools::copy_texts;
use vstd::prelude::*;

verus! {

/// What is wrong with a marketing definition.
#[derive(Debug, PartialEq, Eq)]
pub enum MarketingError {
    Message(String),
}

impl DeepView for MarketingError {
    type V = Seq<char>;

    open spec fn deep_view(&self) -> Seq<char> {
        match self {
            MarketingError::Message(m) => m@,
        }
    }
}

impl Clone for MarketingError {
    fn clone(&self) -> (r: Self)
        ensures
            r.deep_view() == self.deep_view(),
    {
        match self {
            MarketingError::Message(m) => MarketingError::Message(m.clone()),
        }
    }
}

impl MarketingError {
    /// The message of the error.
    pub fn message(&self) -> (r: &str)
        ensures
            r@ == self.deep_view(),
    {
        match self {
            MarketingError::Message(m) => m.as_str(),
        }
    }
}

fn err(message: String) -> (r: MarketingError)
    ensures
        r.deep_view() == message@,
{
    MarketingError::Message(message)
}

/// Customers that the Customer Hub selects.
#[derive(Debug, PartialEq)]
pub struct MarketingAudienceCustomerHub {
    pub tags: Option<Vec<String>>,
    pub consent_purpose: Option<String>,
    pub attrs: Option<JsonValue>,
}

pub struct MarketingAudienceCustomerHubView {
    pub tags: Option<Seq<Seq<char>>>,
    pub consent_purpose: Option<Seq<char>>,
    pub attrs: Option<JsonView>,
}

impl DeepView for MarketingAudienceCustomerHub {
    type V = MarketingAudienceCustomerHubView;

    open spec fn deep_view(&self) -> MarketingAudienceCustomerHubView {
        MarketingAudienceCustomerHubView {
            tags: self.tags.deep_view(),
            consent_purpose: self.consent_purpose.deep_view(),
            attrs: self.attrs.deep_view(),
        }
    }
}

impl Clone for MarketingAudienceCustomerHub {
    fn clone(&self) -> (r: Self)
        ensures
            r.deep_view() == self.deep_view(),
    {
        MarketingAudienceCustomerHub {
            tags: match &self.tags {
                Some(tags) => Some(copy_texts(tags)),
                None => None,
            },
            consent_purpose: self.consent_purpose.clone(),
            attrs: self.attrs.clone(),
        }
    }
}

/// An audience that a tool of the app selects.
#[derive(Debug, PartialEq)]
pub struct MarketingAudienceAppQuery {
    pub tool: String,
    pub input: Option<JsonValue>,
}

pub struct MarketingAudienceAppQueryView {
    pub tool: Seq<char>,
    pub input: Option<JsonView>,
}

impl DeepView for MarketingAudienceAppQuery {
    type V = MarketingAudienceAppQueryView;

    open spec fn deep_view(&self) -> MarketingAudienceAppQueryView {
        MarketingAudienceAppQueryView {
            tool: self.tool@,
            input: self.input.deep_view(),
        }
    }
}

impl Clone for MarketingAudienceAppQuery {
    fn clone(&self) -> (r: Self)
        ensures
            r.deep_view() == self.deep_view(),
    {
        MarketingAudienceAppQuery {
            tool: self.tool.clone(),
            input: self.input.clone(),
        }
    }
}

/// A set of customers that a campaign can address.
#[derive(Debug, PartialEq)]
pub struct MarketingAudience {
    pub id: String,
    pub label: String,
    pub description: Option<String>,
    pub source: String,
    pub customer_hub: Option<MarketingAudienceCustomerHub>,
    pub app_query: Option<MarketingAudienceAppQuery>,
    pub static_filter: Option<JsonValue>,
}

pub struct MarketingAudienceView {
    pub id: Seq<char>,
    pub label: Seq<char>,
    pub description: Option<Seq<char>>,
    pub source: Seq<char>,
    pub customer_hub: Option<MarketingAudienceCustomerHubView>,
    pub app_query: Option<MarketingAudienceAppQueryView>,
    pub static_filter: Option<JsonView>,
}

impl DeepView for MarketingAudience {
    type V = MarketingAudienceView;

    open spec fn deep_view(&self) -> MarketingAudienceView {
        MarketingAudienceView {
            id: self.id@,
            label: self.label@,
            description: self.description.deep_view(),
            source: self.source@,
            customer_hub: self.customer_hub.deep_view(),
            app_query: self.app_query.deep_view(),
            static_filter: self.static_filter.deep_view(),
        }
    }
}

impl Clone for MarketingAudience {
    fn clone(&self) -> (r: Self)
        ensures
            r.deep_view() == self.deep_view(),
    {
        MarketingAudience {
            id: self.id.clone(),
            label: self.label.clone(),
            description: self.description.clone(),
            source: self.source.clone(),
            customer_hub: self.customer_hub.clone(),
            app_query: self.app_query.clone(),
            static_filter: self.static_filter.clone(),
        }
    }
}

/// A value that a message template can use.
#[derive(Debug, PartialEq)]
pub struct MarketingVariable {
    pub id: String,
    pub label: String,
    pub var_type: String,
    pub source: String,
    pub path: Option<String>,
    pub required: Option<bool>,
}

pub struct MarketingVariableView {
    pub id: Seq<char>,
    pub label: Seq<char>,
    pub var_type: Seq<char>,
    pub source: Seq<char>,
    pub path: Option<Seq<char>>,
    pub required: Option<bool>,
}

impl DeepView for MarketingVariable {
    type V = MarketingVariableView;

    open spec fn deep_view(&self) -> MarketingVariableView {
        MarketingVariableView {
            id: self.id@,
            label: self.label@,
            var_type: self.var_type@,
            source: self.source@,
            path: self.path.deep_view(),
            required: self.required,
        }
    }
}

impl Clone for MarketingVariable {
    fn clone(&self) -> (r: Self)
        ensures
            r.deep_view() == self.deep_view(),
    {
        MarketingVariable {
            id: self.id.clone(),
            label: self.label.clone(),
            var_type: self.var_type.clone(),
            source: self.source.clone(),
            path: self.path.clone(),
            required: self.required,
        }
    }
}

/// What a customer can do with a message.
#[derive(Debug, PartialEq)]
pub struct MarketingAction {
    pub id: String,
    pub label: String,
    pub kind: String,
    pub landing_page_id: Option<String>,
    pub url_template: Option<String>,
    pub payload: Option<JsonValue>,
}

pub struct MarketingActionView {
    pub id: Seq<char>,
    pub label: Seq<char>,
    pub kind: Seq<char>,
    pub landing_page_id: Option<Seq<char>>,
    pub url_template: Option<Seq<char>>,
    pub payload: Option<JsonView>,
}

impl DeepView for MarketingAction {
    type V = MarketingActionView;

    open spec fn deep_view(&self) -> MarketingActionView {
        MarketingActionView {
            id: self.id@,
            label: self.label@,
            kind: self.kind@,
            landing_page_id: self.landing_page_id.deep_view(),
            url_template: self.url_template.deep_view(),
            payload: self.payload.deep_view(),
        }
    }
}

impl Clone for MarketingAction {
    fn clone(&self) -> (r: Self)
        ensures
            r.deep_view() == self.deep_view(),
    {
        MarketingAction {
            id: self.id.clone(),
            label: self.label.clone(),
            kind: self.kind.clone(),
            landing_page_id: self.landing_page_id.clone(),
            url_template: self.url_template.clone(),
            payload: self.payload.clone(),
        }
    }
}

/// A page that an action leads to.
#[derive(Debug, PartialEq)]
pub struct MarketingLandingPage {
    pub id: String,
    pub label: String,
    pub path: String,
    pub host: String,
}

pub struct MarketingLandingPageView {
    pub id: Seq<char>,
    pub label: Seq<char>,
    pub path: Seq<char>,
    pub host: Seq<char>,
}

impl DeepView for MarketingLandingPage {
    type V = MarketingLandingPageView;

    open spec fn deep_view(&self) -> MarketingLandingPageView {
        MarketingLandingPageView {
            id: self.id@,
            label: self.label@,
            path: self.path@,
            host: self.host@,
        }
    }
}

impl Clone for MarketingLandingPage {
    fn clone(&self) -> (r: Self)
        ensures
            r.deep_view() == self.deep_view(),
    {
        MarketingLandingPage {
            id: self.id.clone(),
            label: self.label.clone(),
            path: self.path.clone(),
            host: self.host.clone(),
        }
    }
}

/// A channel that the app supports. `provider` is for routing among several.
#[derive(Debug, PartialEq)]
pub struct MarketingChannel {
    pub id: String,
    pub provider: Option<String>,
    pub label: Option<String>,
    pub enabled: Option<bool>,
}

pub struct MarketingChannelView {
    pub id: Seq<char>,
    pub provider: Option<Seq<char>>,
    pub label: Option<Seq<char>>,
    pub enabled: Option<bool>,
}

impl DeepView for MarketingChannel {
    type V = MarketingChannelView;

    open spec fn deep_view(&self) -> MarketingChannelView {
        MarketingChannelView {
            id: self.id@,
            provider: self.provider.deep_view(),
            label: self.label.deep_view(),
            enabled: self.enabled,
        }
    }
}

impl Clone for MarketingChannel {
    fn clone(&self) -> (r: Self)
        ensures
            r.deep_view() == self.deep_view(),
    {
        MarketingChannel {
            id: self.id.clone(),
            provider: self.provider.clone(),
            label: self.label.clone(),
            enabled: self.enabled,
        }
    }
}

/// What an app registers.
#[derive(Debug, PartialEq)]
pub struct MarketingDefinition {
    pub version: Option<u32>,
    pub audiences: Vec<MarketingAudience>,
    pub variables: Vec<MarketingVariable>,
    pub actions: Vec<MarketingAction>,
    pub landing_pages: Vec<MarketingLandingPage>,
    pub channels: Vec<MarketingChannel>,
}

pub struct MarketingDefinitionView {
    pub version: Option<u32>,
    pub audiences: Seq<MarketingAudienceView>,
    pub variables: Seq<MarketingVariableView>,
    pub actions: Seq<MarketingActionView>,
    pub landing_pages: Seq<MarketingLandingPageView>,
    pub channels: Seq<MarketingChannelView>,
}

impl DeepView for MarketingDefinition {
    type V = MarketingDefinitionView;

    open spec fn deep_view(&self) -> MarketingDefinitionView {
        MarketingDefinitionView {
            version: self.version,
            audiences: self.audiences.deep_view(),
            variables: self.variables.deep_view(),
            actions: self.actions.deep_view(),
            landing_pages: self.landing_pages.deep_view(),
            channels: self.channels.deep_view(),
        }
    }
}

impl Default for MarketingDefinition {
    fn default() -> (r: Self)
        ensures
            r.deep_view() == (MarketingDefinitionView {
                version: None,
                audiences: Seq::empty(),
                variables: Seq::empty(),
                actions: Seq::empty(),
                landing_pages: Seq::empty(),
                channels: Seq::empty(),
            }),
    {
        let r = MarketingDefinition {
            version: None,
            audiences: Vec::new(),
            variables: Vec::new(),
            actions: Vec::new(),
            landing_pages: Vec::new(),
            channels: Vec::new(),
        };
        assert(r.deep_view().audiences =~= Seq::empty());
        assert(r.deep_view().variables =~= Seq::empty());
        assert(r.deep_view().actions =~= Seq::empty());
        assert(r.deep_view().landing_pages =~= Seq::empty());
        assert(r.deep_view().channels =~= Seq::empty());
        r
    }
}

impl Clone for MarketingDefinition {
    fn clone(&self) -> (r: Self)
        ensures
            r.deep_view() == self.deep_view(),
    {
        MarketingDefinition {
            version: self.version,
            audiences: copy_entries(&self.audiences),
            variables: copy_entries(&self.variables),
            actions: copy_entries(&self.actions),
            landing_pages: copy_entries(&self.landing_pages),
            channels: copy_entries(&self.channels),
        }
    }
}

/// A definition that was found valid, in its normal form.
#[derive(Debug, PartialEq)]
pub struct MarketingRegistration {
    pub version: u32,
    pub audiences: Vec<MarketingAudience>,
    pub variables: Vec<MarketingVariable>,
    pub actions: Vec<MarketingAction>,
    pub landing_pages: Vec<MarketingLandingPage>,
    pub channels: Vec<MarketingChannel>,
}

pub struct MarketingRegistrationView {
    pub version: u32,
    pub audiences: Seq<MarketingAudienceView>,
    pub variables: Seq<MarketingVariableView>,
    pub actions: Seq<MarketingActionView>,
    pub landing_pages: Seq<MarketingLandingPageView>,
    pub channels: Seq<MarketingChannelView>,
}

impl DeepView for MarketingRegistration {
    type V = MarketingRegistrationView;

    open spec fn deep_view(&self) -> MarketingRegistrationView {
        MarketingRegistrationView {
            version: self.version,
            audiences: self.audiences.deep_view(),
            variables: self.variables.deep_view(),
            actions: self.actions.deep_view(),
            landing_pages: self.landing_pages.deep_view(),
            channels: self.channels.deep_view(),
        }
    }
}

impl Clone for MarketingRegistration {
    fn clone(&self) -> (r: Self)
        ensures
            r.deep_view() == self.deep_view(),
    {
        MarketingRegistration {
            version: self.version,
            audiences: copy_entries(&self.audiences),
            variables: copy_entries(&self.variables),
            actions: copy_entries(&self.actions),
            landing_pages: copy_entries(&self.landing_pages),
            channels: copy_entries(&self.channels),
        }
    }
}

/// The lists of a registration.
#[derive(Debug, PartialEq)]
pub struct MarketingMetadata {
    pub audiences: Vec<MarketingAudience>,
    pub variables: Vec<MarketingVariable>,
    pub actions: Vec<MarketingAction>,
    pub landing_pages: Vec<MarketingLandingPage>,
    pub channels: Vec<MarketingChannel>,
}

pub struct MarketingMetadataView {
    pub audiences: Seq<MarketingAudienceView>,
    pub variables: Seq<MarketingVariableView>,
    pub actions: Seq<MarketingActionView>,
    pub landing_pages: Seq<MarketingLandingPageView>,
    pub channels: Seq<MarketingChannelView>,
}

impl DeepView for MarketingMetadata {
    type V = MarketingMetadataView;

    open spec fn deep_view(&self) -> MarketingMetadataView {
        MarketingMetadataView {
            audiences: self.audiences.deep_view(),
            variables: self.variables.deep_view(),
            actions: self.actions.deep_view(),
            landing_pages: self.landing_pages.deep_view(),
            channels: self.channels.deep_view(),
        }
    }
}

impl Clone for MarketingMetadata {
    fn clone(&self) -> (r: Self)
        ensures
            r.deep_view() == self.deep_view(),
    {
        MarketingMetadata {
            audiences: copy_entries(&self.audiences),
            variables: copy_entries(&self.variables),
            actions: copy_entries(&self.actions),
            landing_pages: copy_entries(&self.landing_pages),
            channels: copy_entries(&self.channels),
        }
    }
}

/// A registration as it is advertised.
#[derive(Debug, PartialEq)]
pub struct MarketingCapability {
    pub version: u32,
    pub metadata: MarketingMetadata,
}

pub struct MarketingCapabilityView {
    pub version: u32,
    pub metadata: MarketingMetadataView,
}

impl DeepView for MarketingCapability {
    type V = MarketingCapabilityView;

    open spec fn deep_view(&self) -> MarketingCapabilityView {
        MarketingCapabilityView {
            version: self.version,
            metadata: self.metadata.deep_view(),
        }
    }
}

impl Clone for MarketingCapability {
    fn clone(&self) -> (r: Self)
        ensures
            r.deep_view() == self.deep_view(),
    {
        MarketingCapability {
            version: self.version,
            metadata: self.metadata.clone(),
        }
    }
}

/// `list[index].field`, the place of a field in a definition.
pub open spec fn field_path_spec(list: Seq<char>, index: nat, field: Seq<char>) -> Seq<char> {
    list + "["@ + text::decimal_spec(index) + "]."@ + field
}

fn field_path(list: &str, index: usize, field: &str) -> (r: String)
    ensures
        r@ == field_path_spec(list@, index as nat, field@),
{
    let r = join(list, "[");
    let r = join(r.as_str(), decimal(index as u64).as_str());
    let r = join(r.as_str(), "].");
    join(r.as_str(), field)
}

/// The message for a text that must not be blank.
pub open spec fn blank_message(path: Seq<char>) -> Seq<char> {
    "marketing: "@ + path + " must be a non-empty string"@
}

/// The message for a text that must be one of a few words.
pub open spec fn choice_message(path: Seq<char>, choices: Seq<char>) -> Seq<char> {
    "marketing: "@ + path + " must be one of "@ + choices
}

/// The message for an id that occurs twice in a list.
pub open spec fn duplicate_message(kind: Seq<char>, id: Seq<char>) -> Seq<char> {
    "marketing: duplicate "@ + kind + " id \""@ + id + "\""@
}

/// The message for an action that leads to a page that is not defined.
pub open spec fn landing_message(index: nat, page: Seq<char>) -> Seq<char> {
    "marketing: actions["@ + text::decimal_spec(index) + "].landingPageId \""@ + page
        + "\" does not match any landingPages[].id"@
}

/// The message for a version that is not positive.
pub open spec fn version_message() -> Seq<char> {
    "marketing: version must be a positive integer"@
}

/// A text that is blank: nothing but whitespace.
pub open spec fn is_blank(s: Seq<char>) -> bool {
    text::trim_spec(s).len() == 0
}

/// An optional text, trimmed; nothing where it is blank.
pub open spec fn trimmed(s: Option<Seq<char>>) -> Option<Seq<char>> {
    match s {
        Some(s) => json::filled(Some(text::trim_spec(s))),
        None => None,
    }
}

proof fn lemma_trimmed(s: Option<Seq<char>>)
    ensures
        trimmed(trimmed(s)) == trimmed(s),
{
    if let Some(s) = s {
        text::law_trim(s);
    }
}

fn trim_opt(s: &Option<String>) -> (r: Option<String>)
    ensures
        r.deep_view() == trimmed(s.deep_view()),
{
    match s {
        Some(s) => {
            let t = trim(s.as_str());
            if t.as_str().is_empty() {
                None
            } else {
                Some(t)
            }
        },
        None => None,
    }
}

/// Whether a result is a refusal with a message.
pub open spec fn refused<T>(r: Result<T, MarketingError>, message: Seq<char>) -> bool {
    r is Err && r->Err_0.deep_view() == message
}

/// The text, trimmed, or the message for one that is blank.
pub open spec fn non_empty(value: Seq<char>, path: Seq<char>) -> Result<Seq<char>, Seq<char>> {
    if is_blank(value) {
        Err(blank_message(path))
    } else {
        Ok(text::trim_spec(value))
    }
}

/// The text, trimmed, unless it is blank.
pub fn require_non_empty(value: &str, path: &str) -> (r: Result<String, MarketingError>)
    ensures
        match non_empty(value@, path@) {
            Ok(s) => r is Ok && r->Ok_0@ == s,
            Err(m) => refused(r, m),
        },
        is_blank(value@) ==> refused(r, blank_message(path@)),
        !is_blank(value@) ==> r is Ok && r->Ok_0@ == text::trim_spec(value@),
{
    let trimmed = trim(value);
    if trimmed.as_str().is_empty() {
        let m = join("marketing: ", path);
        return Err(err(join(m.as_str(), " must be a non-empty string")));
    }
    Ok(trimmed)
}

fn not_one_of(path: &str, choices: &str) -> (r: MarketingError)
    ensures
        r.deep_view() == choice_message(path@, choices@),
{
    let m = join("marketing: ", path);
    let m = join(m.as_str(), " must be one of ");
    err(join(m.as_str(), choices))
}

pub open spec fn is_audience_source(s: Seq<char>) -> bool {
    s == "customer_hub"@ || s == "app_query"@ || s == "static_filter"@
}

pub open spec fn is_variable_type(s: Seq<char>) -> bool {
    s == "string"@ || s == "number"@ || s == "datetime"@ || s == "boolean"@ || s == "url"@ || s
        == "currency"@
}

pub open spec fn is_variable_source(s: Seq<char>) -> bool {
    s == "customer_hub"@ || s == "app_context"@ || s == "campaign"@ || s == "literal"@
}

pub open spec fn is_action_kind(s: Seq<char>) -> bool {
    s == "url"@ || s == "deep_link"@ || s == "quick_reply"@ || s == "whatsapp_cta"@ || s
        == "postback"@
}

pub open spec fn is_landing_host(s: Seq<char>) -> bool {
    s == "app"@ || s == "platform"@
}

fn audience_source(s: &str) -> (r: bool)
    ensures
        r == is_audience_source(s@),
{
    same_text(s, "customer_hub") || same_text(s, "app_query") || same_text(s, "static_filter")
}

fn variable_type(s: &str) -> (r: bool)
    ensures
        r == is_variable_type(s@),
{
    same_text(s, "string") || same_text(s, "number") || same_text(s, "datetime") || same_text(
        s,
        "boolean",
    ) || same_text(s, "url") || same_text(s, "currency")
}

fn variable_source(s: &str) -> (r: bool)
    ensures
        r == is_variable_source(s@),
{
    same_text(s, "customer_hub") || same_text(s, "app_context") || same_text(s, "campaign")
        || same_text(s, "literal")
}

fn action_kind(s: &str) -> (r: bool)
    ensures
        r == is_action_kind(s@),
{
    same_text(s, "url") || same_text(s, "deep_link") || same_text(s, "quick_reply") || same_text(
        s,
        "whatsapp_cta",
    ) || same_text(s, "postback")
}

fn landing_host(s: &str) -> (r: bool)
    ensures
        r == is_landing_host(s@),
{
    same_text(s, "app") || same_text(s, "platform")
}

/// An entry of one of the lists of a definition.
pub trait MarketingEntry: DeepView + Sized {
    /// The first thing wrong with the entry at a place in its list.
    spec fn entry_error(v: Self::V, index: nat) -> Option<Seq<char>>;

    /// The entry in its normal form.
    spec fn entry_normal(v: Self::V) -> Self::V;

    spec fn entry_id(v: Self::V) -> Seq<char>;

    spec fn entry_json(v: Self::V) -> JsonView;

    /// The entry in its normal form, or the first thing wrong with it.
    fn validate(&self, index: usize) -> (r: Result<Self, MarketingError>)
        ensures
            match Self::entry_error(self.deep_view(), index as nat) {
                Some(m) => refused(r, m),
                None => r is Ok && r->Ok_0.deep_view() == Self::entry_normal(self.deep_view()),
            },
    ;

    /// The normal form is valid where the entry is, and is its own normal form.
    proof fn entry_normal_stable(v: Self::V, index: nat)
        ensures
            Self::entry_error(Self::entry_normal(v), index) == Self::entry_error(v, index),
            Self::entry_normal(Self::entry_normal(v)) == Self::entry_normal(v),
    ;

    fn id_text(&self) -> (r: &str)
        ensures
            r@ == Self::entry_id(self.deep_view()),
    ;

    fn copy_entry(&self) -> (r: Self)
        ensures
            r.deep_view() == self.deep_view(),
    ;

    /// The entry as JSON.
    fn to_json(&self) -> (r: JsonValue)
        ensures
            r.deep_view() == Self::entry_json(self.deep_view()),
    ;
}

/// Copies a list.
fn copy_entries<T: MarketingEntry>(list: &Vec<T>) -> (r: Vec<T>)
    ensures
        r.deep_view() == list.deep_view(),
{
    let mut r: Vec<T> = Vec::new();
    let mut i: usize = 0;
    while i < list.len()
        invariant
            i <= list.len(),
            r.len() == i,
            forall|j: int| 0 <= j < i ==> (#[trigger] r@[j]).deep_view() == list@[j].deep_view(),
        decreases list.len() - i,
    {
        r.push(list[i].copy_entry());
        i += 1;
    }
    assert(r.deep_view() =~= list.deep_view());
    r
}

impl MarketingEntry for MarketingAudience {
    open spec fn entry_error(v: MarketingAudienceView, index: nat) -> Option<Seq<char>> {
        if is_blank(v.id) {
            Some(blank_message(field_path_spec("audiences"@, index, "id"@)))
        } else if is_blank(v.label) {
            Some(blank_message(field_path_spec("audiences"@, index, "label"@)))
        } else if is_blank(v.source) {
            Some(blank_message(field_path_spec("audiences"@, index, "source"@)))
        } else if !is_audience_source(text::trim_spec(v.source)) {
            Some(
                choice_message(
                    field_path_spec("audiences"@, index, "source"@),
                    "customer_hub|app_query|static_filter"@,
                ),
            )
        } else if v.app_query is Some && is_blank(v.app_query->0.tool) {
            Some(blank_message(field_path_spec("audiences"@, index, "appQuery.tool"@)))
        } else {
            None
        }
    }

    open spec fn entry_normal(v: MarketingAudienceView) -> MarketingAudienceView {
        MarketingAudienceView {
            id: text::trim_spec(v.id),
            label: text::trim_spec(v.label),
            description: trimmed(v.description),
            source: text::trim_spec(v.source),
            app_query: match v.app_query {
                Some(q) => Some(
                    MarketingAudienceAppQueryView { tool: text::trim_spec(q.tool), ..q },
                ),
                None => None,
            },
            ..v
        }
    }

    open spec fn entry_id(v: MarketingAudienceView) -> Seq<char> {
        v.id
    }

    open spec fn entry_json(v: MarketingAudienceView) -> JsonView {
        let object = Map::<Seq<char>, JsonView>::empty().insert("id"@, JsonView::Str(v.id)).insert(
            "label"@,
            JsonView::Str(v.label),
        );
        let object = json::with_opt(object, "description"@, json::opt_str(v.description));
        let object = object.insert("source"@, JsonView::Str(v.source));
        let object = json::with_opt(
            object,
            "customerHub"@,
            match v.customer_hub {
                Some(h) => Some(h.json()),
                None => None,
            },
        );
        let object = json::with_opt(
            object,
            "appQuery"@,
            match v.app_query {
                Some(q) => Some(q.json()),
                None => None,
            },
        );
        JsonView::Object(json::with_opt(object, "staticFilter"@, v.static_filter))
    }

    proof fn entry_normal_stable(v: MarketingAudienceView, index: nat) {
        text::law_trim(v.id);
        text::law_trim(v.label);
        text::law_trim(v.source);
        lemma_trimmed(v.description);
        if let Some(q) = v.app_query {
            text::law_trim(q.tool);
        }
    }

    fn validate(&self, index: usize) -> (r: Result<Self, MarketingError>) {
        validate_audience(self, index)
    }

    fn id_text(&self) -> (r: &str) {
        self.id.as_str()
    }

    fn copy_entry(&self) -> (r: Self) {
        self.clone()
    }

    fn to_json(&self) -> (r: JsonValue) {
        let mut object = JsonObject::new();
        object.insert_str("id", self.id.as_str());
        object.insert_str("label", self.label.as_str());
        object.insert_opt_str("description", &self.description);
        object.insert_str("source", self.source.as_str());
        if let Some(h) = &self.customer_hub {
            object.insert("customerHub", h.to_json());
        }
        if let Some(q) = &self.app_query {
            object.insert("appQuery", q.to_json());
        }
        object.insert_opt("staticFilter", self.static_filter.clone());
        JsonValue::Object(object)
    }
}

impl MarketingAudienceCustomerHubView {
    pub open spec fn json(self) -> JsonView {
        let object = Map::<Seq<char>, JsonView>::empty();
        let object = json::with_opt(
            object,
            "tags"@,
            match self.tags {
                Some(tags) => Some(json::str_array(tags)),
                None => None,
            },
        );
        let object = json::with_opt(
            object,
            "consentPurpose"@,
            json::opt_str(self.consent_purpose),
        );
        JsonView::Object(json::with_opt(object, "attrs"@, self.attrs))
    }
}

impl MarketingAudienceCustomerHub {
    /// The selection as JSON.
    pub fn to_json(&self) -> (r: JsonValue)
        ensures
            r.deep_view() == self.deep_view().json(),
    {
        let mut object = JsonObject::new();
        if let Some(tags) = &self.tags {
            object.insert("tags", JsonValue::strings(tags));
        }
        object.insert_opt_str("consentPurpose", &self.consent_purpose);
        object.insert_opt("attrs", self.attrs.clone());
        JsonValue::Object(object)
    }
}

impl MarketingAudienceAppQueryView {
    pub open spec fn json(self) -> JsonView {
        let object = Map::<Seq<char>, JsonView>::empty().insert("tool"@, JsonView::Str(self.tool));
        JsonView::Object(json::with_opt(object, "input"@, self.input))
    }
}

impl MarketingAudienceAppQuery {
    /// The query as JSON.
    pub fn to_json(&self) -> (r: JsonValue)
        ensures
            r.deep_view() == self.deep_view().json(),
    {
        let mut object = JsonObject::new();
        object.insert_str("tool", self.tool.as_str());
        object.insert_opt("input", self.input.clone());
        JsonValue::Object(object)
    }
}

/// An audience in its normal form, or the first thing wrong with it.
pub fn validate_audience(a: &MarketingAudience, index: usize) -> (r: Result<
    MarketingAudience,
    MarketingError,
>)
    ensures
        match MarketingAudience::entry_error(a.deep_view(), index as nat) {
            Some(m) => refused(r, m),
            None => r is Ok && r->Ok_0.deep_view() == MarketingAudience::entry_normal(
                a.deep_view(),
            ),
        },
{
    let id = match require_non_empty(
        a.id.as_str(),
        field_path("audiences", index, "id").as_str(),
    ) {
        Ok(s) => s,
        Err(e) => return Err(e),
    };
    let label = match require_non_empty(
        a.label.as_str(),
        field_path("audiences", index, "label").as_str(),
    ) {
        Ok(s) => s,
        Err(e) => return Err(e),
    };
    let source_path = field_path("audiences", index, "source");
    let source = match require_non_empty(a.source.as_str(), source_path.as_str()) {
        Ok(s) => s,
        Err(e) => return Err(e),
    };
    if !audience_source(source.as_str()) {
        return Err(not_one_of(source_path.as_str(), "customer_hub|app_query|static_filter"));
    }
    let app_query = match &a.app_query {
        Some(q) => {
            let tool = match require_non_empty(
                q.tool.as_str(),
                field_path("audiences", index, "appQuery.tool").as_str(),
            ) {
                Ok(s) => s,
                Err(e) => return Err(e),
            };
            Some(MarketingAudienceAppQuery { tool, input: q.input.clone() })
        },
        None => None,
    };
    Ok(
        MarketingAudience {
            id,
            label,
            description: trim_opt(&a.description),
            source,
            customer_hub: a.customer_hub.clone(),
            app_query,
            static_filter: a.static_filter.clone(),
        },
    )
}

impl MarketingEntry for MarketingVariable {
    open spec fn entry_error(v: MarketingVariableView, index: nat) -> Option<Seq<char>> {
        if is_blank(v.id) {
            Some(blank_message(field_path_spec("variables"@, index, "id"@)))
        } else if is_blank(v.label) {
            Some(blank_message(field_path_spec("variables"@, index, "label"@)))
        } else if is_blank(v.var_type) {
            Some(blank_message(field_path_spec("variables"@, index, "type"@)))
        } else if !is_variable_type(text::trim_spec(v.var_type)) {
            Some(
                choice_message(
                    field_path_spec("variables"@, index, "type"@),
                    "string|number|datetime|boolean|url|currency"@,
                ),
            )
        } else if is_blank(v.source) {
            Some(blank_message(field_path_spec("variables"@, index, "source"@)))
        } else if !is_variable_source(text::trim_spec(v.source)) {
            Some(
                choice_message(
                    field_path_spec("variables"@, index, "source"@),
                    "customer_hub|app_context|campaign|literal"@,
                ),
            )
        } else {
            None
        }
    }

    open spec fn entry_normal(v: MarketingVariableView) -> MarketingVariableView {
        MarketingVariableView {
            id: text::trim_spec(v.id),
            label: text::trim_spec(v.label),
            var_type: text::trim_spec(v.var_type),
            source: text::trim_spec(v.source),
            path: trimmed(v.path),
            required: v.required,
        }
    }

    open spec fn entry_id(v: MarketingVariableView) -> Seq<char> {
        v.id
    }

    open spec fn entry_json(v: MarketingVariableView) -> JsonView {
        let object = Map::<Seq<char>, JsonView>::empty().insert("id"@, JsonView::Str(v.id)).insert(
            "label"@,
            JsonView::Str(v.label),
        ).insert("type"@, JsonView::Str(v.var_type)).insert("source"@, JsonView::Str(v.source));
        let object = json::with_opt(object, "path"@, json::opt_str(v.path));
        JsonView::Object(json::with_opt(object, "required"@, json::opt_bool(v.required)))
    }

    proof fn entry_normal_stable(v: MarketingVariableView, index: nat) {
        text::law_trim(v.id);
        text::law_trim(v.label);
        text::law_trim(v.var_type);
        text::law_trim(v.source);
        lemma_trimmed(v.path);
    }

    fn validate(&self, index: usize) -> (r: Result<Self, MarketingError>) {
        validate_variable(self, index)
    }

    fn id_text(&self) -> (r: &str) {
        self.id.as_str()
    }

    fn copy_entry(&self) -> (r: Self) {
        self.clone()
    }

    fn to_json(&self) -> (r: JsonValue) {
        let mut object = JsonObject::new();
        object.insert_str("id", self.id.as_str());
        object.insert_str("label", self.label.as_str());
        object.insert_str("type", self.var_type.as_str());
        object.insert_str("source", self.source.as_str());
        object.insert_opt_str("path", &self.path);
        object.insert_opt_bool("required", self.required);
        JsonValue::Object(object)
    }
}

/// A variable in its normal form, or the first thing wrong with it.
pub fn validate_variable(v: &MarketingVariable, index: usize) -> (r: Result<
    MarketingVariable,
    MarketingError,
>)
    ensures
        match MarketingVariable::entry_error(v.deep_view(), index as nat) {
            Some(m) => refused(r, m),
            None => r is Ok && r->Ok_0.deep_view() == MarketingVariable::entry_normal(
                v.deep_view(),
            ),
        },
{
    let id = match require_non_empty(
        v.id.as_str(),
        field_path("variables", index, "id").as_str(),
    ) {
        Ok(s) => s,
        Err(e) => return Err(e),
    };
    let label = match require_non_empty(
        v.label.as_str(),
        field_path("variables", index, "label").as_str(),
    ) {
        Ok(s) => s,
        Err(e) => return Err(e),
    };
    let type_path = field_path("variables", index, "type");
    let var_type = match require_non_empty(v.var_type.as_str(), type_path.as_str()) {
        Ok(s) => s,
        Err(e) => return Err(e),
    };
    if !variable_type(var_type.as_str()) {
        return Err(not_one_of(type_path.as_str(), "string|number|datetime|boolean|url|currency"));
    }
    let source_path = field_path("variables", index, "source");
    let source = match require_non_empty(v.source.as_str(), source_path.as_str()) {
        Ok(s) => s,
        Err(e) => return Err(e),
    };
    if !variable_source(source.as_str()) {
        return Err(not_one_of(source_path.as_str(), "customer_hub|app_context|campaign|literal"));
    }
    Ok(
        MarketingVariable {
            id,
            label,
            var_type,
            source,
            path: trim_opt(&v.path),
            required: v.required,
        },
    )
}

impl MarketingEntry for MarketingAction {
    open spec fn entry_error(v: MarketingActionView, index: nat) -> Option<Seq<char>> {
        if is_blank(v.id) {
            Some(blank_message(field_path_spec("actions"@, index, "id"@)))
        } else if is_blank(v.label) {
            Some(blank_message(field_path_spec("actions"@, index, "label"@)))
        } else if is_blank(v.kind) {
            Some(blank_message(field_path_spec("actions"@, index, "kind"@)))
        } else if !is_action_kind(text::trim_spec(v.kind)) {
            Some(
                choice_message(
                    field_path_spec("actions"@, index, "kind"@),
                    "url|deep_link|quick_reply|whatsapp_cta|postback"@,
                ),
            )
        } else {
            None
        }
    }

    open spec fn entry_normal(v: MarketingActionView) -> MarketingActionView {
        MarketingActionView {
            id: text::trim_spec(v.id),
            label: text::trim_spec(v.label),
            kind: text::trim_spec(v.kind),
            landing_page_id: trimmed(v.landing_page_id),
            url_template: trimmed(v.url_template),
            payload: v.payload,
        }
    }

    open spec fn entry_id(v: MarketingActionView) -> Seq<char> {
        v.id
    }

    open spec fn entry_json(v: MarketingActionView) -> JsonView {
        let object = Map::<Seq<char>, JsonView>::empty().insert("id"@, JsonView::Str(v.id)).insert(
            "label"@,
            JsonView::Str(v.label),
        ).insert("kind"@, JsonView::Str(v.kind));
        let object = json::with_opt(object, "landingPageId"@, json::opt_str(v.landing_page_id));
        let object = json::with_opt(object, "urlTemplate"@, json::opt_str(v.url_template));
        JsonView::Object(json::with_opt(object, "payload"@, v.payload))
    }

    proof fn entry_normal_stable(v: MarketingActionView, index: nat) {
        text::law_trim(v.id);
        text::law_trim(v.label);
        text::law_trim(v.kind);
        lemma_trimmed(v.landing_page_id);
        lemma_trimmed(v.url_template);
    }

    fn validate(&self, index: usize) -> (r: Result<Self, MarketingError>) {
        validate_action(self, index)
    }

    fn id_text(&self) -> (r: &str) {
        self.id.as_str()
    }

    fn copy_entry(&self) -> (r: Self) {
        self.clone()
    }

    fn to_json(&self) -> (r: JsonValue) {
        let mut object = JsonObject::new();
        object.insert_str("id", self.id.as_str());
        object.insert_str("label", self.label.as_str());
        object.insert_str("kind", self.kind.as_str());
        object.insert_opt_str("landingPageId", &self.landing_page_id);
        object.insert_opt_str("urlTemplate", &self.url_template);
        object.insert_opt("payload", self.payload.clone());
        JsonValue::Object(object)
    }
}

/// An action in its normal form, or the first thing wrong with it.
pub fn validate_action(a: &MarketingAction, index: usize) -> (r: Result<
    MarketingAction,
    MarketingError,
>)
    ensures
        match MarketingAction::entry_error(a.deep_view(), index as nat) {
            Some(m) => refused(r, m),
            None => r is Ok && r->Ok_0.deep_view() == MarketingAction::entry_normal(a.deep_view()),
        },
{
    let id = match require_non_empty(a.id.as_str(), field_path("actions", index, "id").as_str()) {
        Ok(s) => s,
        Err(e) => return Err(e),
    };
    let label = match require_non_empty(
        a.label.as_str(),
        field_path("actions", index, "label").as_str(),
    ) {
        Ok(s) => s,
        Err(e) => return Err(e),
    };
    let kind_path = field_path("actions", index, "kind");
    let kind = match require_non_empty(a.kind.as_str(), kind_path.as_str()) {
        Ok(s) => s,
        Err(e) => return Err(e),
    };
    if !action_kind(kind.as_str()) {
        return Err(
            not_one_of(kind_path.as_str(), "url|deep_link|quick_reply|whatsapp_cta|postback"),
        );
    }
    Ok(
        MarketingAction {
            id,
            label,
            kind,
            landing_page_id: trim_opt(&a.landing_page_id),
            url_template: trim_opt(&a.url_template),
            payload: a.payload.clone(),
        },
    )
}

impl MarketingEntry for MarketingLandingPage {
    open spec fn entry_error(v: MarketingLandingPageView, index: nat) -> Option<Seq<char>> {
        if is_blank(v.id) {
            Some(blank_message(field_path_spec("landingPages"@, index, "id"@)))
        } else if is_blank(v.label) {
            Some(blank_message(field_path_spec("landingPages"@, index, "label"@)))
        } else if is_blank(v.path) {
            Some(blank_message(field_path_spec("landingPages"@, index, "path"@)))
        } else if is_blank(v.host) {
            Some(blank_message(field_path_spec("landingPages"@, index, "host"@)))
        } else if !is_landing_host(text::trim_spec(v.host)) {
            Some(
                choice_message(
                    field_path_spec("landingPages"@, index, "host"@),
                    "app|platform"@,
                ),
            )
        } else {
            None
        }
    }

    open spec fn entry_normal(v: MarketingLandingPageView) -> MarketingLandingPageView {
        MarketingLandingPageView {
            id: text::trim_spec(v.id),
            label: text::trim_spec(v.label),
            path: text::trim_spec(v.path),
            host: text::trim_spec(v.host),
        }
    }

    open spec fn entry_id(v: MarketingLandingPageView) -> Seq<char> {
        v.id
    }

    open spec fn entry_json(v: MarketingLandingPageView) -> JsonView {
        JsonView::Object(
            Map::<Seq<char>, JsonView>::empty().insert("id"@, JsonView::Str(v.id)).insert(
                "label"@,
                JsonView::Str(v.label),
            ).insert("path"@, JsonView::Str(v.path)).insert("host"@, JsonView::Str(v.host)),
        )
    }

    proof fn entry_normal_stable(v: MarketingLandingPageView, index: nat) {
        text::law_trim(v.id);
        text::law_trim(v.label);
        text::law_trim(v.path);
        text::law_trim(v.host);
    }

    fn validate(&self, index: usize) -> (r: Result<Self, MarketingError>) {
        validate_landing_page(self, index)
    }

    fn id_text(&self) -> (r: &str) {
        self.id.as_str()
    }

    fn copy_entry(&self) -> (r: Self) {
        self.clone()
    }

    fn to_json(&self) -> (r: JsonValue) {
        let mut object = JsonObject::new();
        object.insert_str("id", self.id.as_str());
        object.insert_str("label", self.label.as_str());
        object.insert_str("path", self.path.as_str());
        object.insert_str("host", self.host.as_str());
        JsonValue::Object(object)
    }
}

/// A landing page in its normal form, or the first thing wrong with it.
pub fn validate_landing_page(p: &MarketingLandingPage, index: usize) -> (r: Result<
    MarketingLandingPage,
    MarketingError,
>)
    ensures
        match MarketingLandingPage::entry_error(p.deep_view(), index as nat) {
            Some(m) => refused(r, m),
            None => r is Ok && r->Ok_0.deep_view() == MarketingLandingPage::entry_normal(
                p.deep_view(),
            ),
        },
{
    let id = match require_non_empty(
        p.id.as_str(),
        field_path("landingPages", index, "id").as_str(),
    ) {
        Ok(s) => s,
        Err(e) => return Err(e),
    };
    let label = match require_non_empty(
        p.label.as_str(),
        field_path("landingPages", index, "label").as_str(),
    ) {
        Ok(s) => s,
        Err(e) => return Err(e),
    };
    let path = match require_non_empty(
        p.path.as_str(),
        field_path("landingPages", index, "path").as_str(),
    ) {
        Ok(s) => s,
        Err(e) => return Err(e),
    };
    let host_path = field_path("landingPages", index, "host");
    let host = match require_non_empty(p.host.as_str(), host_path.as_str()) {
        Ok(s) => s,
        Err(e) => return Err(e),
    };
    if !landing_host(host.as_str()) {
        return Err(not_one_of(host_path.as_str(), "app|platform"));
    }
    Ok(MarketingLandingPage { id, label, path, host })
}

impl MarketingEntry for MarketingChannel {
    open spec fn entry_error(v: MarketingChannelView, index: nat) -> Option<Seq<char>> {
        if is_blank(v.id) {
            Some(blank_message(field_path_spec("channels"@, index, "id"@)))
        } else {
            None
        }
    }

    open spec fn entry_normal(v: MarketingChannelView) -> MarketingChannelView {
        MarketingChannelView {
            id: text::trim_spec(v.id),
            provider: trimmed(v.provider),
            label: trimmed(v.label),
            enabled: v.enabled,
        }
    }

    open spec fn entry_id(v: MarketingChannelView) -> Seq<char> {
        v.id
    }

    open spec fn entry_json(v: MarketingChannelView) -> JsonView {
        let object = Map::<Seq<char>, JsonView>::empty().insert("id"@, JsonView::Str(v.id));
        let object = json::with_opt(object, "provider"@, json::opt_str(v.provider));
        let object = json::with_opt(object, "label"@, json::opt_str(v.label));
        JsonView::Object(json::with_opt(object, "enabled"@, json::opt_bool(v.enabled)))
    }

    proof fn entry_normal_stable(v: MarketingChannelView, index: nat) {
        text::law_trim(v.id);
        lemma_trimmed(v.provider);
        lemma_trimmed(v.label);
    }

    fn validate(&self, index: usize) -> (r: Result<Self, MarketingError>) {
        validate_channel(self, index)
    }

    fn id_text(&self) -> (r: &str) {
        self.id.as_str()
    }

    fn copy_entry(&self) -> (r: Self) {
        self.clone()
    }

    fn to_json(&self) -> (r: JsonValue) {
        let mut object = JsonObject::new();
        object.insert_str("id", self.id.as_str());
        object.insert_opt_str("provider", &self.provider);
        object.insert_opt_str("label", &self.label);
        object.insert_opt_bool("enabled", self.enabled);
        JsonValue::Object(object)
    }
}

/// A channel in its normal form, or the first thing wrong with it.
pub fn validate_channel(c: &MarketingChannel, index: usize) -> (r: Result<
    MarketingChannel,
    MarketingError,
>)
    ensures
        match MarketingChannel::entry_error(c.deep_view(), index as nat) {
            Some(m) => refused(r, m),
            None => r is Ok && r->Ok_0.deep_view() == MarketingChannel::entry_normal(
                c.deep_view(),
            ),
        },
{
    let id = match require_non_empty(c.id.as_str(), field_path("channels", index, "id").as_str()) {
        Ok(s) => s,
        Err(e) => return Err(e),
    };
    Ok(
        MarketingChannel {
            id,
            provider: trim_opt(&c.provider),
            label: trim_opt(&c.label),
            enabled: c.enabled,
        },
    )
}

/// The first thing wrong with an entry of a list.
pub open spec fn list_error<T: MarketingEntry>(list: Seq<T::V>) -> Option<Seq<char>>
    decreases list.len(),
{
    if list.len() == 0 {
        None
    } else {
        json::or_else(
            list_error::<T>(list.drop_last()),
            T::entry_error(list.last(), (list.len() - 1) as nat),
        )
    }
}

/// A list with each entry in its normal form.
pub open spec fn list_normal<T: MarketingEntry>(list: Seq<T::V>) -> Seq<T::V> {
    list.map_values(|v: T::V| T::entry_normal(v))
}

/// The ids of a list.
pub open spec fn list_ids<T: MarketingEntry>(list: Seq<T::V>) -> Seq<Seq<char>> {
    list.map_values(|v: T::V| T::entry_id(v))
}

/// A list as JSON.
pub open spec fn list_json<T: MarketingEntry>(list: Seq<T::V>) -> JsonView {
    JsonView::Array(list.map_values(|v: T::V| T::entry_json(v)))
}

/// The message for the first id that occurs before in the list.
pub open spec fn unique_error(ids: Seq<Seq<char>>, kind: Seq<char>) -> Option<Seq<char>>
    decreases ids.len(),
{
    if ids.len() == 0 {
        None
    } else {
        json::or_else(
            unique_error(ids.drop_last(), kind),
            if ids.drop_last().contains(ids.last()) {
                Some(duplicate_message(kind, ids.last()))
            } else {
                None
            },
        )
    }
}

/// The message for the first action that leads to a page that is not defined.
pub open spec fn landing_error(
    actions: Seq<MarketingActionView>,
    pages: Seq<Seq<char>>,
) -> Option<Seq<char>>
    decreases actions.len(),
{
    if actions.len() == 0 {
        None
    } else {
        json::or_else(
            landing_error(actions.drop_last(), pages),
            match actions.last().landing_page_id {
                Some(page) => if pages.contains(page) {
                    None
                } else {
                    Some(landing_message((actions.len() - 1) as nat, page))
                },
                None => None,
            },
        )
    }
}

impl MarketingDefinitionView {
    /// The definition in its normal form.
    pub open spec fn registration(self) -> MarketingRegistrationView {
        MarketingRegistrationView {
            version: match self.version {
                Some(v) => v,
                None => 1,
            },
            audiences: list_normal::<MarketingAudience>(self.audiences),
            variables: list_normal::<MarketingVariable>(self.variables),
            actions: list_normal::<MarketingAction>(self.actions),
            landing_pages: list_normal::<MarketingLandingPage>(self.landing_pages),
            channels: list_normal::<MarketingChannel>(self.channels),
        }
    }

    /// The first thing wrong with an entry, list by list.
    pub open spec fn entries_error(self) -> Option<Seq<char>> {
        json::or_else(
            list_error::<MarketingAudience>(self.audiences),
            json::or_else(
                list_error::<MarketingVariable>(self.variables),
                json::or_else(
                    list_error::<MarketingAction>(self.actions),
                    json::or_else(
                        list_error::<MarketingLandingPage>(self.landing_pages),
                        list_error::<MarketingChannel>(self.channels),
                    ),
                ),
            ),
        )
    }

    /// The first thing wrong with the definition: its version, its entries,
    /// ids that repeat, then pages that are missing.
    pub open spec fn error(self) -> Option<Seq<char>> {
        let reg = self.registration();
        if self.version == Some(0u32) {
            Some(version_message())
        } else {
            json::or_else(
                self.entries_error(),
                json::or_else(
                    reg.ids_error(),
                    landing_error(
                        reg.actions,
                        list_ids::<MarketingLandingPage>(reg.landing_pages),
                    ),
                ),
            )
        }
    }
}

impl MarketingRegistrationView {
    /// The first id that repeats, list by list.
    pub open spec fn ids_error(self) -> Option<Seq<char>> {
        json::or_else(
            unique_error(list_ids::<MarketingAudience>(self.audiences), "audience"@),
            json::or_else(
                unique_error(list_ids::<MarketingVariable>(self.variables), "variable"@),
                json::or_else(
                    unique_error(list_ids::<MarketingAction>(self.actions), "action"@),
                    json::or_else(
                        unique_error(
                            list_ids::<MarketingLandingPage>(self.landing_pages),
                            "landingPage"@,
                        ),
                        unique_error(list_ids::<MarketingChannel>(self.channels), "channel"@),
                    ),
                ),
            ),
        )
    }

    /// The registration as a definition.
    pub open spec fn definition(self) -> MarketingDefinitionView {
        MarketingDefinitionView {
            version: Some(self.version),
            audiences: self.audiences,
            variables: self.variables,
            actions: self.actions,
            landing_pages: self.landing_pages,
            channels: self.channels,
        }
    }

    /// The registration as it is advertised.
    pub open spec fn capability(self) -> MarketingCapabilityView {
        MarketingCapabilityView {
            version: self.version,
            metadata: MarketingMetadataView {
                audiences: self.audiences,
                variables: self.variables,
                actions: self.actions,
                landing_pages: self.landing_pages,
                channels: self.channels,
            },
        }
    }
}

/// A list with a first error has that error whatever follows.
proof fn lemma_list_error_prefix<T: MarketingEntry>(list: Seq<T::V>, k: int)
    requires
        0 <= k <= list.len(),
        list_error::<T>(list.take(k)) is Some,
    ensures
        list_error::<T>(list) == list_error::<T>(list.take(k)),
    decreases list.len(),
{
    if k == list.len() {
        assert(list.take(k) =~= list);
    } else {
        assert(list.drop_last().take(k) =~= list.take(k));
        lemma_list_error_prefix::<T>(list.drop_last(), k);
    }
}

proof fn lemma_unique_error_prefix(ids: Seq<Seq<char>>, kind: Seq<char>, k: int)
    requires
        0 <= k <= ids.len(),
        unique_error(ids.take(k), kind) is Some,
    ensures
        unique_error(ids, kind) == unique_error(ids.take(k), kind),
    decreases ids.len(),
{
    if k == ids.len() {
        assert(ids.take(k) =~= ids);
    } else {
        assert(ids.drop_last().take(k) =~= ids.take(k));
        lemma_unique_error_prefix(ids.drop_last(), kind, k);
    }
}

proof fn lemma_landing_error_prefix(
    actions: Seq<MarketingActionView>,
    pages: Seq<Seq<char>>,
    k: int,
)
    requires
        0 <= k <= actions.len(),
        landing_error(actions.take(k), pages) is Some,
    ensures
        landing_error(actions, pages) == landing_error(actions.take(k), pages),
    decreases actions.len(),
{
    if k == actions.len() {
        assert(actions.take(k) =~= actions);
    } else {
        assert(actions.drop_last().take(k) =~= actions.take(k));
        lemma_landing_error_prefix(actions.drop_last(), pages, k);
    }
}

/// A list with each entry in its normal form, or the first thing wrong with it.
fn validate_entries<T: MarketingEntry>(list: &Vec<T>) -> (r: Result<Vec<T>, MarketingError>)
    ensures
        match list_error::<T>(list.deep_view()) {
            Some(m) => refused(r, m),
            None => r is Ok && r->Ok_0.deep_view() == list_normal::<T>(list.deep_view()),
        },
{
    let mut out: Vec<T> = Vec::new();
    let mut i: usize = 0;
    let ghost views = list.deep_view();
    assert(views.take(0) =~= Seq::empty());
    while i < list.len()
        invariant
            i <= list.len(),
            views == list.deep_view(),
            list_error::<T>(views.take(i as int)) is None,
            out.len() == i,
            forall|j: int|
                0 <= j < i ==> (#[trigger] out@[j]).deep_view() == T::entry_normal(views[j]),
        decreases list.len() - i,
    {
        assert(views.take(i + 1).drop_last() =~= views.take(i as int));
        assert(views.take(i + 1).last() == list@[i as int].deep_view());
        match list[i].validate(i) {
            Ok(entry) => {
                out.push(entry);
            },
            Err(e) => {
                proof {
                    lemma_list_error_prefix::<T>(views, i + 1);
                }
                return Err(e);
            },
        }
        i += 1;
    }
    assert(views.take(i as int) =~= views);
    assert(out.deep_view() =~= list_normal::<T>(views));
    Ok(out)
}

/// The ids of a list.
fn entry_ids<T: MarketingEntry>(list: &Vec<T>) -> (r: Vec<String>)
    ensures
        r.deep_view() == list_ids::<T>(list.deep_view()),
{
    let mut r: Vec<String> = Vec::new();
    let mut i: usize = 0;
    while i < list.len()
        invariant
            i <= list.len(),
            r.len() == i,
            forall|j: int|
                0 <= j < i ==> (#[trigger] r@[j])@ == T::entry_id(list@[j].deep_view()),
        decreases list.len() - i,
    {
        r.push(list[i].id_text().to_owned());
        i += 1;
    }
    assert(r.deep_view() =~= list_ids::<T>(list.deep_view()));
    r
}

/// Whether one of the first `count` texts is `text`.
fn listed_before(texts: &Vec<String>, count: usize, wanted: &str) -> (r: bool)
    requires
        count <= texts.len(),
    ensures
        r == texts.deep_view().take(count as int).contains(wanted@),
{
    let mut i: usize = 0;
    while i < count
        invariant
            i <= count <= texts.len(),
            forall|j: int| 0 <= j < i ==> texts.deep_view()[j] != wanted@,
        decreases count - i,
    {
        if same_text(texts[i].as_str(), wanted) {
            assert(texts.deep_view().take(count as int)[i as int] == wanted@);
            return true;
        }
        i += 1;
    }
    false
}

/// Refuses the first id that occurs before in the list.
pub fn assert_unique_ids(ids: &Vec<String>, kind: &str) -> (r: Result<(), MarketingError>)
    ensures
        match unique_error(ids.deep_view(), kind@) {
            Some(m) => refused(r, m),
            None => r is Ok,
        },
{
    let mut i: usize = 0;
    let ghost views = ids.deep_view();
    assert(views.take(0) =~= Seq::empty());
    while i < ids.len()
        invariant
            i <= ids.len(),
            views == ids.deep_view(),
            unique_error(views.take(i as int), kind@) is None,
        decreases ids.len() - i,
    {
        assert(views.take(i + 1).drop_last() =~= views.take(i as int));
        assert(views.take(i + 1).last() == ids@[i as int]@);
        if listed_before(ids, i, ids[i].as_str()) {
            proof {
                lemma_unique_error_prefix(views, kind@, i + 1);
            }
            let m = join("marketing: duplicate ", kind);
            let m = join(m.as_str(), " id \"");
            let m = join(m.as_str(), ids[i].as_str());
            return Err(err(join(m.as_str(), "\"")));
        }
        i += 1;
    }
    assert(views.take(i as int) =~= views);
    Ok(())
}

/// Refuses the first action that leads to a page that is not defined.
fn check_landing_pages(actions: &Vec<MarketingAction>, pages: &Vec<String>) -> (r: Result<
    (),
    MarketingError,
>)
    ensures
        match landing_error(actions.deep_view(), pages.deep_view()) {
            Some(m) => refused(r, m),
            None => r is Ok,
        },
{
    let mut i: usize = 0;
    let ghost views = actions.deep_view();
    assert(views.take(0) =~= Seq::empty());
    assert(pages.deep_view().take(pages.len() as int) =~= pages.deep_view());
    while i < actions.len()
        invariant
            i <= actions.len(),
            views == actions.deep_view(),
            pages.deep_view().take(pages.len() as int) == pages.deep_view(),
            landing_error(views.take(i as int), pages.deep_view()) is None,
        decreases actions.len() - i,
    {
        assert(views.take(i + 1).drop_last() =~= views.take(i as int));
        assert(views.take(i + 1).last() == actions@[i as int].deep_view());
        if let Some(page) = &actions[i].landing_page_id {
            if !listed_before(pages, pages.len(), page.as_str()) {
                proof {
                    lemma_landing_error_prefix(views, pages.deep_view(), i + 1);
                }
                let m = join("marketing: actions[", decimal(i as u64).as_str());
                let m = join(m.as_str(), "].landingPageId \"");
                let m = join(m.as_str(), page.as_str());
                return Err(
                    err(join(m.as_str(), "\" does not match any landingPages[].id")),
                );
            }
        }
        i += 1;
    }
    assert(views.take(i as int) =~= views);
    Ok(())
}

/// A definition in its normal form, or the first thing wrong with it.
pub fn validate_marketing_definition(def: MarketingDefinition) -> (r: Result<
    MarketingRegistration,
    MarketingError,
>)
    ensures
        match def.deep_view().error() {
            Some(m) => refused(r, m),
            None => r is Ok && r->Ok_0.deep_view() == def.deep_view().registration(),
        },
        r is Ok <==> laws::marketing::accepts(def.deep_view()),
{
    proof {
        laws::marketing::law_definition_accepted(def.deep_view());
    }
    let version: u32 = match def.version {
        None => 1,
        Some(v) => if v >= 1 {
            v
        } else {
            return Err(err("marketing: version must be a positive integer".to_owned()));
        },
    };
    let audiences = match validate_entries(&def.audiences) {
        Ok(list) => list,
        Err(e) => return Err(e),
    };
    let variables = match validate_entries(&def.variables) {
        Ok(list) => list,
        Err(e) => return Err(e),
    };
    let actions = match validate_entries(&def.actions) {
        Ok(list) => list,
        Err(e) => return Err(e),
    };
    let landing_pages = match validate_entries(&def.landing_pages) {
        Ok(list) => list,
        Err(e) => return Err(e),
    };
    let channels = match validate_entries(&def.channels) {
        Ok(list) => list,
        Err(e) => return Err(e),
    };
    if let Err(e) = assert_unique_ids(&entry_ids(&audiences), "audience") {
        return Err(e);
    }
    if let Err(e) = assert_unique_ids(&entry_ids(&variables), "variable") {
        return Err(e);
    }
    if let Err(e) = assert_unique_ids(&entry_ids(&actions), "action") {
        return Err(e);
    }
    let pages = entry_ids(&landing_pages);
    if let Err(e) = assert_unique_ids(&pages, "landingPage") {
        return Err(e);
    }
    if let Err(e) = assert_unique_ids(&entry_ids(&channels), "channel") {
        return Err(e);
    }
    if let Err(e) = check_landing_pages(&actions, &pages) {
        return Err(e);
    }
    Ok(MarketingRegistration { version, audiences, variables, actions, landing_pages, channels })
}

/// A registration as it is advertised.
pub fn to_marketing_capability(reg: &MarketingRegistration) -> (r: MarketingCapability)
    ensures
        r.deep_view() == reg.deep_view().capability(),
{
    MarketingCapability {
        version: reg.version,
        metadata: MarketingMetadata {
            audiences: copy_entries(&reg.audiences),
            variables: copy_entries(&reg.variables),
            actions: copy_entries(&reg.actions),
            landing_pages: copy_entries(&reg.landing_pages),
            channels: copy_entries(&reg.channels),
        },
    }
}

/// A list as JSON.
fn entries_json<T: MarketingEntry>(list: &Vec<T>) -> (r: JsonValue)
    ensures
        r.deep_view() == list_json::<T>(list.deep_view()),
{
    let mut items: Vec<JsonValue> = Vec::new();
    let mut i: usize = 0;
    while i < list.len()
        invariant
            i <= list.len(),
            items.len() == i,
            forall|j: int|
                0 <= j < i ==> json::json_view(#[trigger] items@[j]) == T::entry_json(
                    list@[j].deep_view(),
                ),
        decreases list.len() - i,
    {
        items.push(list[i].to_json());
        i += 1;
    }
    proof {
        json::lemma_items_view(items@);
        assert(json::items_view(items@) =~= list.deep_view().map_values(
            |v: T::V| T::entry_json(v),
        ));
    }
    JsonValue::Array(items)
}

impl MarketingMetadataView {
    pub open spec fn json(self) -> JsonView {
        JsonView::Object(
            Map::<Seq<char>, JsonView>::empty().insert(
                "audiences"@,
                list_json::<MarketingAudience>(self.audiences),
            ).insert("variables"@, list_json::<MarketingVariable>(self.variables)).insert(
                "actions"@,
                list_json::<MarketingAction>(self.actions),
            ).insert(
                "landingPages"@,
                list_json::<MarketingLandingPage>(self.landing_pages),
            ).insert("channels"@, list_json::<MarketingChannel>(self.channels)),
        )
    }
}

impl MarketingCapabilityView {
    /// The capability as JSON: the lists are nested under `metadata`.
    pub open spec fn json(self) -> JsonView {
        JsonView::Object(
            Map::<Seq<char>, JsonView>::empty().insert(
                "version"@,
                JsonView::Number(text::decimal_spec(self.version as nat)),
            ).insert("metadata"@, self.metadata.json()),
        )
    }
}

/// A list as JSON, where it is not empty.
pub open spec fn filled_list_json<T: MarketingEntry>(list: Seq<T::V>) -> Option<JsonView> {
    if list.len() > 0 {
        Some(list_json::<T>(list))
    } else {
        None
    }
}

fn filled_entries_json<T: MarketingEntry>(list: &Vec<T>) -> (r: Option<JsonValue>)
    ensures
        r.deep_view() == filled_list_json::<T>(list.deep_view()),
{
    if list.len() > 0 {
        Some(entries_json(list))
    } else {
        None
    }
}

impl MarketingDefinitionView {
    /// The definition as JSON; what is absent or empty is left out.
    pub open spec fn json(self) -> JsonView {
        let object = Map::<Seq<char>, JsonView>::empty();
        let object = json::with_opt(
            object,
            "version"@,
            match self.version {
                Some(v) => Some(JsonView::Number(text::decimal_spec(v as nat))),
                None => None,
            },
        );
        let object = json::with_opt(
            object,
            "audiences"@,
            filled_list_json::<MarketingAudience>(self.audiences),
        );
        let object = json::with_opt(
            object,
            "variables"@,
            filled_list_json::<MarketingVariable>(self.variables),
        );
        let object = json::with_opt(
            object,
            "actions"@,
            filled_list_json::<MarketingAction>(self.actions),
        );
        let object = json::with_opt(
            object,
            "landingPages"@,
            filled_list_json::<MarketingLandingPage>(self.landing_pages),
        );
        JsonView::Object(
            json::with_opt(
                object,
                "channels"@,
                filled_list_json::<MarketingChannel>(self.channels),
            ),
        )
    }
}

impl MarketingDefinition {
    /// The definition as JSON.
    pub fn to_json(&self) -> (r: JsonValue)
        ensures
            r.deep_view() == self.deep_view().json(),
    {
        let mut object = JsonObject::new();
        if let Some(v) = self.version {
            object.insert("version", JsonValue::Number(decimal(v as u64)));
        }
        object.insert_opt("audiences", filled_entries_json(&self.audiences));
        object.insert_opt("variables", filled_entries_json(&self.variables));
        object.insert_opt("actions", filled_entries_json(&self.actions));
        object.insert_opt("landingPages", filled_entries_json(&self.landing_pages));
        object.insert_opt("channels", filled_entries_json(&self.channels));
        JsonValue::Object(object)
    }
}

impl MarketingRegistrationView {
    /// The registration as JSON.
    pub open spec fn json(self) -> JsonView {
        JsonView::Object(
            Map::<Seq<char>, JsonView>::empty().insert(
                "version"@,
                JsonView::Number(text::decimal_spec(self.version as nat)),
            ).insert("audiences"@, list_json::<MarketingAudience>(self.audiences)).insert(
                "variables"@,
                list_json::<MarketingVariable>(self.variables),
            ).insert("actions"@, list_json::<MarketingAction>(self.actions)).insert(
                "landingPages"@,
                list_json::<MarketingLandingPage>(self.landing_pages),
            ).insert("channels"@, list_json::<MarketingChannel>(self.channels)),
        )
    }
}

impl MarketingRegistration {
    /// The registration as JSON.
    pub fn to_json(&self) -> (r: JsonValue)
        ensures
            r.deep_view() == self.deep_view().json(),
    {
        let mut object = JsonObject::new();
        object.insert("version", JsonValue::Number(decimal(self.version as u64)));
        object.insert("audiences", entries_json(&self.audiences));
        object.insert("variables", entries_json(&self.variables));
        object.insert("actions", entries_json(&self.actions));
        object.insert("landingPages", entries_json(&self.landing_pages));
        object.insert("channels", entries_json(&self.channels));
        JsonValue::Object(object)
    }
}

impl MarketingMetadata {
    /// The lists as JSON.
    pub fn to_json(&self) -> (r: JsonValue)
        ensures
            r.deep_view() == self.deep_view().json(),
    {
        let mut object = JsonObject::new();
        object.insert("audiences", entries_json(&self.audiences));
        object.insert("variables", entries_json(&self.variables));
        object.insert("actions", entries_json(&self.actions));
        object.insert("landingPages", entries_json(&self.landing_pages));
        object.insert("channels", entries_json(&self.channels));
        JsonValue::Object(object)
    }
}

impl MarketingCapability {
    /// The capability as JSON.
    pub fn to_json(&self) -> (r: JsonValue)
        ensures
            r.deep_view() == self.deep_view().json(),
    {
        let mut object = JsonObject::new();
        object.insert("version", JsonValue::Number(decimal(self.version as u64)));
        object.insert("metadata", self.metadata.to_json());
        JsonValue::Object(object)
    }
}

pub proof fn lemma_unique_ids(ids: Seq<Seq<char>>, kind: Seq<char>)
    ensures
        unique_error(ids, kind) is None <==> ids.no_duplicates(),
    decreases ids.len(),
{
    if ids.len() > 0 {
        let shorter = ids.drop_last();
        lemma_unique_ids(shorter, kind);
        assert(ids.last() == ids[ids.len() - 1]);
        if unique_error(ids, kind) is None {
            assert forall|i: int, j: int|
                0 <= i < ids.len() && 0 <= j < ids.len() && i != j implies ids[i] != ids[j] by {
                if i < shorter.len() && j < shorter.len() {
                    assert(shorter[i] == ids[i] && shorter[j] == ids[j]);
                } else if i < shorter.len() {
                    assert(shorter[i] == ids[i]);
                } else {
                    assert(shorter[j] == ids[j]);
                }
            }
        }
        if ids.no_duplicates() {
            assert forall|i: int, j: int|
                0 <= i < shorter.len() && 0 <= j < shorter.len() && i != j implies shorter[i]
                != shorter[j] by {
                assert(shorter[i] == ids[i] && shorter[j] == ids[j]);
            }
            if shorter.contains(ids.last()) {
                let i = choose|i: int| 0 <= i < shorter.len() && shorter[i] == ids.last();
                assert(ids[i] == ids.last());
            }
        }
    }
}

pub proof fn lemma_landing_pages(actions: Seq<MarketingActionView>, pages: Seq<Seq<char>>)
    ensures
        landing_error(actions, pages) is None <==> forall|i: int|
            0 <= i < actions.len() ==> {
                let page = (#[trigger] actions[i]).landing_page_id;
                page is Some ==> pages.contains(page->0)
            },
    decreases actions.len(),
{
    if actions.len() > 0 {
        let shorter = actions.drop_last();
        lemma_landing_pages(shorter, pages);
        assert(actions.last() == actions[actions.len() - 1]);
        if landing_error(actions, pages) is None {
            assert forall|i: int| 0 <= i < actions.len() implies {
                let page = (#[trigger] actions[i]).landing_page_id;
                page is Some ==> pages.contains(page->0)
            } by {
                if i < shorter.len() {
                    assert(shorter[i] == actions[i]);
                }
            }
        } else if landing_error(shorter, pages) is Some {
            let i = choose|i: int|
                0 <= i < shorter.len() && (#[trigger] shorter[i]).landing_page_id is Some
                    && !pages.contains(shorter[i].landing_page_id->0);
            assert(shorter[i] == actions[i]);
        }
    }
}

/// The normal form of a list is as valid as the list, and its own normal form.
proof fn lemma_list_stable<T: MarketingEntry>(list: Seq<T::V>)
    ensures
        list_error::<T>(list_normal::<T>(list)) == list_error::<T>(list),
        list_normal::<T>(list_normal::<T>(list)) == list_normal::<T>(list),
    decreases list.len(),
{
    if list.len() > 0 {
        let shorter = list.drop_last();
        lemma_list_stable::<T>(shorter);
        T::entry_normal_stable(list.last(), (list.len() - 1) as nat);
        assert(list_normal::<T>(list).drop_last() =~= list_normal::<T>(shorter));
        assert(list_normal::<T>(list) =~= list_normal::<T>(shorter).push(
            T::entry_normal(list.last()),
        ));
        let twice = list_normal::<T>(list_normal::<T>(list));
        assert(twice =~= list_normal::<T>(list_normal::<T>(shorter)).push(
            T::entry_normal(T::entry_normal(list.last())),
        ));
    } else {
        assert(list_normal::<T>(list_normal::<T>(list)) =~= list_normal::<T>(list));
        assert(list_normal::<T>(list) =~= list);
    }
}

/// In a list that has no error, no entry has one.
proof fn lemma_list_valid<T: MarketingEntry>(list: Seq<T::V>, i: int)
    requires
        list_error::<T>(list) is None,
        0 <= i < list.len(),
    ensures
        T::entry_error(list[i], i as nat) is None,
    decreases list.len(),
{
    if i < list.len() - 1 {
        lemma_list_valid::<T>(list.drop_last(), i);
        assert(list.drop_last()[i] == list[i]);
    }
}

/// Within each list of a registration the ids are distinct.
pub proof fn law_registration_ids_distinct(def: MarketingDefinitionView)
    requires
        def.error() is None,
    ensures
        list_ids::<MarketingAudience>(def.registration().audiences).no_duplicates(),
        list_ids::<MarketingVariable>(def.registration().variables).no_duplicates(),
        list_ids::<MarketingAction>(def.registration().actions).no_duplicates(),
        list_ids::<MarketingLandingPage>(def.registration().landing_pages).no_duplicates(),
        list_ids::<MarketingChannel>(def.registration().channels).no_duplicates(),
{
    let reg = def.registration();
    lemma_unique_ids(list_ids::<MarketingAudience>(reg.audiences), "audience"@);
    lemma_unique_ids(list_ids::<MarketingVariable>(reg.variables), "variable"@);
    lemma_unique_ids(list_ids::<MarketingAction>(reg.actions), "action"@);
    lemma_unique_ids(list_ids::<MarketingLandingPage>(reg.landing_pages), "landingPage"@);
    lemma_unique_ids(list_ids::<MarketingChannel>(reg.channels), "channel"@);
}

/// A landing page that an action of a registration names is among its landing
/// pages.
pub proof fn law_registration_pages_exist(def: MarketingDefinitionView, i: int)
    requires
        def.error() is None,
        0 <= i < def.registration().actions.len(),
        def.registration().actions[i].landing_page_id is Some,
    ensures
        list_ids::<MarketingLandingPage>(def.registration().landing_pages).contains(
            def.registration().actions[i].landing_page_id->0,
        ),
{
    let reg = def.registration();
    lemma_landing_pages(reg.actions, list_ids::<MarketingLandingPage>(reg.landing_pages));
}

/// Every entry of a registration is valid at its place, and the version is
/// positive.
pub proof fn law_registration_entries_valid(def: MarketingDefinitionView)
    requires
        def.error() is None,
    ensures
        def.registration().version >= 1,
        forall|i: int|
            0 <= i < def.registration().audiences.len() ==> MarketingAudience::entry_error(
                #[trigger] def.registration().audiences[i],
                i as nat,
            ) is None,
        forall|i: int|
            0 <= i < def.registration().variables.len() ==> MarketingVariable::entry_error(
                #[trigger] def.registration().variables[i],
                i as nat,
            ) is None,
        forall|i: int|
            0 <= i < def.registration().actions.len() ==> MarketingAction::entry_error(
                #[trigger] def.registration().actions[i],
                i as nat,
            ) is None,
        forall|i: int|
            0 <= i < def.registration().landing_pages.len() ==> MarketingLandingPage::entry_error(
                #[trigger] def.registration().landing_pages[i],
                i as nat,
            ) is None,
        forall|i: int|
            0 <= i < def.registration().channels.len() ==> MarketingChannel::entry_error(
                #[trigger] def.registration().channels[i],
                i as nat,
            ) is None,
{
    let reg = def.registration();
    lemma_list_stable::<MarketingAudience>(def.audiences);
    lemma_list_stable::<MarketingVariable>(def.variables);
    lemma_list_stable::<MarketingAction>(def.actions);
    lemma_list_stable::<MarketingLandingPage>(def.landing_pages);
    lemma_list_stable::<MarketingChannel>(def.channels);
    assert forall|i: int| 0 <= i < reg.audiences.len() implies MarketingAudience::entry_error(
        #[trigger] reg.audiences[i],
        i as nat,
    ) is None by {
        lemma_list_valid::<MarketingAudience>(reg.audiences, i);
    }
    assert forall|i: int| 0 <= i < reg.variables.len() implies MarketingVariable::entry_error(
        #[trigger] reg.variables[i],
        i as nat,
    ) is None by {
        lemma_list_valid::<MarketingVariable>(reg.variables, i);
    }
    assert forall|i: int| 0 <= i < reg.actions.len() implies MarketingAction::entry_error(
        #[trigger] reg.actions[i],
        i as nat,
    ) is None by {
        lemma_list_valid::<MarketingAction>(reg.actions, i);
    }
    assert forall|i: int|
        0 <= i < reg.landing_pages.len() implies MarketingLandingPage::entry_error(
        #[trigger] reg.landing_pages[i],
        i as nat,
    ) is None by {
        lemma_list_valid::<MarketingLandingPage>(reg.landing_pages, i);
    }
    assert forall|i: int| 0 <= i < reg.channels.len() implies MarketingChannel::entry_error(
        #[trigger] reg.channels[i],
        i as nat,
    ) is None by {
        lemma_list_valid::<MarketingChannel>(reg.channels, i);
    }
}

/// A text that was accepted is not blank, and is accepted again as it is,
/// whatever it is for.
pub proof fn law_non_empty_again(value: Seq<char>, path: Seq<char>, other: Seq<char>)
    requires
        non_empty(value, path) is Ok,
    ensures
        non_empty(value, path)->Ok_0.len() > 0,
        non_empty(non_empty(value, path)->Ok_0, other) == non_empty(value, path),
{
    text::law_trim(value);
}

/// A registration, taken as a definition, is valid and is its own normal form.
pub proof fn law_registration_idempotent(def: MarketingDefinitionView)
    requires
        def.error() is None,
    ensures
        def.registration().definition().error() is None,
        def.registration().definition().registration() == def.registration(),
{
    lemma_list_stable::<MarketingAudience>(def.audiences);
    lemma_list_stable::<MarketingVariable>(def.variables);
    lemma_list_stable::<MarketingAction>(def.actions);
    lemma_list_stable::<MarketingLandingPage>(def.landing_pages);
    lemma_list_stable::<MarketingChannel>(def.channels);
}

} // verus!
