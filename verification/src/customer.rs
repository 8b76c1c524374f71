//! The customer of a conversation: looking it up and having it authorized.
//!
//! A customer provider is asked by the host. Here it is decided whether it is
//! asked, with what, and what becomes of its answer.

use crate::auth;
use crate::auth::{
    AuthOutcome, ChallengePayload, ChallengeSignal, ChallengeSignalView, ToolError, ToolErrorView,
};
use crate::customer_hub::{CustomerState, CustomerStateView};
use crate::json::{JsonValue, JsonView};
use crate::qefro;
use crate::qefro::{Qefro, QefroView};
use crate::source;
use crate::source::{now_millis, Draw};
use crate::text;
use crate::text::trim;
use vstd::prelude::*;

verus! {

/// A conversation, by its id.
#[derive(Debug)]
pub struct Conversation {
    pub id: u128,
}

pub struct ConversationView {
    pub id: u128,
}

impl DeepView for Conversation {
    type V = ConversationView;

    open spec fn deep_view(&self) -> ConversationView {
        ConversationView {
            id: self.id,
        }
    }
}

impl Clone for Conversation {
    fn clone(&self) -> (r: Self)
        ensures
            r.deep_view() == self.deep_view(),
    {
        Conversation {
            id: self.id,
        }
    }
}

/// What a provider is given to look a customer up.
#[derive(Debug)]
pub struct CustomerLookupContext {
    pub identity: JsonValue,
    pub parameters: JsonValue,
    pub conversation: Conversation,
    pub channel: Option<String>,
}

pub struct CustomerLookupContextView {
    pub identity: JsonView,
    pub parameters: JsonView,
    pub conversation: ConversationView,
    pub channel: Option<Seq<char>>,
}

impl DeepView for CustomerLookupContext {
    type V = CustomerLookupContextView;

    open spec fn deep_view(&self) -> CustomerLookupContextView {
        CustomerLookupContextView {
            identity: self.identity.deep_view(),
            parameters: self.parameters.deep_view(),
            conversation: self.conversation.deep_view(),
            channel: self.channel.deep_view(),
        }
    }
}

impl Clone for CustomerLookupContext {
    fn clone(&self) -> (r: Self)
        ensures
            r.deep_view() == self.deep_view(),
    {
        CustomerLookupContext {
            identity: self.identity.clone(),
            parameters: self.parameters.clone(),
            conversation: self.conversation.clone(),
            channel: self.channel.clone(),
        }
    }
}

/// What a provider is given to authorize a customer.
#[derive(Debug)]
pub struct CustomerAuthorizeContext {
    pub customer: JsonValue,
    pub method: Option<String>,
    pub response: Option<String>,
    pub identity: JsonValue,
    pub parameters: JsonValue,
    pub conversation: Conversation,
    pub channel: Option<String>,
}

pub struct CustomerAuthorizeContextView {
    pub customer: JsonView,
    pub method: Option<Seq<char>>,
    pub response: Option<Seq<char>>,
    pub identity: JsonView,
    pub parameters: JsonView,
    pub conversation: ConversationView,
    pub channel: Option<Seq<char>>,
}

impl DeepView for CustomerAuthorizeContext {
    type V = CustomerAuthorizeContextView;

    open spec fn deep_view(&self) -> CustomerAuthorizeContextView {
        CustomerAuthorizeContextView {
            customer: self.customer.deep_view(),
            method: self.method.deep_view(),
            response: self.response.deep_view(),
            identity: self.identity.deep_view(),
            parameters: self.parameters.deep_view(),
            conversation: self.conversation.deep_view(),
            channel: self.channel.deep_view(),
        }
    }
}

impl Clone for CustomerAuthorizeContext {
    fn clone(&self) -> (r: Self)
        ensures
            r.deep_view() == self.deep_view(),
    {
        CustomerAuthorizeContext {
            customer: self.customer.clone(),
            method: self.method.clone(),
            response: self.response.clone(),
            identity: self.identity.clone(),
            parameters: self.parameters.clone(),
            conversation: self.conversation.clone(),
            channel: self.channel.clone(),
        }
    }
}

/// The customer side of an invocation. What is known of the customer is held
/// apart, in a [`CustomerState`] that all the copies of this value work on.
#[derive(Debug)]
pub struct CustomerApi {
    pub identity: JsonValue,
    pub parameters: JsonValue,
    pub conversation_id: u128,
    pub channel: Option<String>,
    /// The answer to an earlier challenge.
    pub auth_response: Option<String>,
}

pub struct CustomerApiView {
    pub identity: JsonView,
    pub parameters: JsonView,
    pub conversation_id: u128,
    pub channel: Option<Seq<char>>,
    pub auth_response: Option<Seq<char>>,
}

impl DeepView for CustomerApi {
    type V = CustomerApiView;

    open spec fn deep_view(&self) -> CustomerApiView {
        CustomerApiView {
            identity: self.identity.deep_view(),
            parameters: self.parameters.deep_view(),
            conversation_id: self.conversation_id,
            channel: self.channel.deep_view(),
            auth_response: self.auth_response.deep_view(),
        }
    }
}

impl Clone for CustomerApi {
    fn clone(&self) -> (r: Self)
        ensures
            r.deep_view() == self.deep_view(),
    {
        CustomerApi {
            identity: self.identity.clone(),
            parameters: self.parameters.clone(),
            conversation_id: self.conversation_id,
            channel: self.channel.clone(),
            auth_response: self.auth_response.clone(),
        }
    }
}

/// What a tool handler and the hooks round it are given.
#[derive(Debug)]
pub struct ToolContext {
    pub identity: JsonValue,
    pub parameters: JsonValue,
    pub conversation: Conversation,
    pub channel: Option<String>,
    pub authentication: Option<JsonValue>,
    pub auth_response: Option<String>,
    pub customer: Option<JsonValue>,
    pub customer_api: Option<CustomerApi>,
}

pub struct ToolContextView {
    pub identity: JsonView,
    pub parameters: JsonView,
    pub conversation: ConversationView,
    pub channel: Option<Seq<char>>,
    pub authentication: Option<JsonView>,
    pub auth_response: Option<Seq<char>>,
    pub customer: Option<JsonView>,
    pub customer_api: Option<CustomerApiView>,
}

impl DeepView for ToolContext {
    type V = ToolContextView;

    open spec fn deep_view(&self) -> ToolContextView {
        ToolContextView {
            identity: self.identity.deep_view(),
            parameters: self.parameters.deep_view(),
            conversation: self.conversation.deep_view(),
            channel: self.channel.deep_view(),
            authentication: self.authentication.deep_view(),
            auth_response: self.auth_response.deep_view(),
            customer: self.customer.deep_view(),
            customer_api: self.customer_api.deep_view(),
        }
    }
}

impl Clone for ToolContext {
    fn clone(&self) -> (r: Self)
        ensures
            r.deep_view() == self.deep_view(),
    {
        ToolContext {
            identity: self.identity.clone(),
            parameters: self.parameters.clone(),
            conversation: self.conversation.clone(),
            channel: self.channel.clone(),
            authentication: self.authentication.clone(),
            auth_response: self.auth_response.clone(),
            customer: self.customer.clone(),
            customer_api: self.customer_api.clone(),
        }
    }
}

/// The next step of a lookup: it is done, or the provider is asked.
#[derive(Debug)]
pub enum LookupStep {
    Done(Option<JsonValue>),
    Ask(CustomerLookupContext),
}

pub enum LookupStepView {
    Done(Option<JsonView>),
    Ask(CustomerLookupContextView),
}

impl DeepView for LookupStep {
    type V = LookupStepView;

    open spec fn deep_view(&self) -> LookupStepView {
        match self {
            LookupStep::Done(c) => LookupStepView::Done(c.deep_view()),
            LookupStep::Ask(c) => LookupStepView::Ask(c.deep_view()),
        }
    }
}

/// The next step of an authorization: it is done, or the provider is asked to
/// look the customer up or to authorize the customer.
#[derive(Debug)]
pub enum AuthorizeStep {
    Done(JsonValue),
    Lookup(CustomerLookupContext),
    Authorize(CustomerAuthorizeContext),
}

pub enum AuthorizeStepView {
    Done(JsonView),
    Lookup(CustomerLookupContextView),
    Authorize(CustomerAuthorizeContextView),
}

impl DeepView for AuthorizeStep {
    type V = AuthorizeStepView;

    open spec fn deep_view(&self) -> AuthorizeStepView {
        match self {
            AuthorizeStep::Done(c) => AuthorizeStepView::Done(c.deep_view()),
            AuthorizeStep::Lookup(c) => AuthorizeStepView::Lookup(c.deep_view()),
            AuthorizeStep::Authorize(c) => AuthorizeStepView::Authorize(c.deep_view()),
        }
    }
}

pub open spec fn provider_missing() -> ToolErrorView {
    ToolErrorView::Message("customer_provider_missing"@)
}

pub open spec fn customer_missing() -> ToolErrorView {
    ToolErrorView::Message("customer_not_found"@)
}

/// What is known after a lookup.
pub open spec fn state_after_lookup(customer: Option<JsonView>) -> CustomerStateView {
    CustomerStateView { current: customer, lookup_completed: true }
}

/// What is known after the provider was asked: a lookup that failed is not
/// remembered.
pub open spec fn state_after_asking(
    state: CustomerStateView,
    found: Result<Option<JsonView>, ToolErrorView>,
) -> CustomerStateView {
    match found {
        Ok(customer) => state_after_lookup(customer),
        Err(_) => state,
    }
}

/// An identity with its phone number set; an identity that is not an object
/// stays as it is.
pub open spec fn with_phone(identity: JsonView, phone: Seq<char>) -> JsonView {
    match identity {
        JsonView::Object(m) => JsonView::Object(m.insert("phone"@, JsonView::Str(phone))),
        _ => identity,
    }
}

impl CustomerApiView {
    /// What the provider is given to look the customer up.
    pub open spec fn lookup_context(self, identity: JsonView) -> CustomerLookupContextView {
        CustomerLookupContextView {
            identity,
            parameters: self.parameters,
            conversation: ConversationView { id: self.conversation_id },
            channel: self.channel,
        }
    }

    /// What the provider is given to authorize a customer.
    pub open spec fn authorize_context(
        self,
        customer: JsonView,
        method: Option<Seq<char>>,
    ) -> CustomerAuthorizeContextView {
        CustomerAuthorizeContextView {
            customer,
            method,
            response: self.auth_response,
            identity: self.identity,
            parameters: self.parameters,
            conversation: ConversationView { id: self.conversation_id },
            channel: self.channel,
        }
    }

    /// The first step of a lookup: the provider is asked unless it was before.
    pub open spec fn lookup_spec(self, app: QefroView, state: CustomerStateView) -> Result<
        LookupStepView,
        ToolErrorView,
    > {
        if !app.has_provider {
            Err(provider_missing())
        } else if state.lookup_completed {
            Ok(LookupStepView::Done(state.current))
        } else {
            Ok(LookupStepView::Ask(self.lookup_context(self.identity)))
        }
    }

    /// The phone number to look up: the one given, else that of the identity where
    /// it is not blank.
    pub open spec fn phone_to_find(self, phone: Option<Seq<char>>) -> Option<Seq<char>> {
        match phone {
            Some(p) => Some(p),
            None => match self.identity.text("phone"@) {
                Some(p) => if text::trim_spec(p).len() > 0 {
                    Some(p)
                } else {
                    None
                },
                None => None,
            },
        }
    }

    /// The first step of a lookup by phone number. Without a number there is no
    /// customer, and that is the result of the lookup.
    pub open spec fn lookup_by_phone_spec(
        self,
        app: QefroView,
        state: CustomerStateView,
        phone: Option<Seq<char>>,
    ) -> (CustomerStateView, Result<LookupStepView, ToolErrorView>) {
        if !app.has_provider {
            (state, Err(provider_missing()))
        } else {
            match self.phone_to_find(phone) {
                Some(p) => (
                    state,
                    Ok(LookupStepView::Ask(self.lookup_context(with_phone(self.identity, p)))),
                ),
                None => (state_after_lookup(None), Ok(LookupStepView::Done(None))),
            }
        }
    }

    /// The first step of an authorization at an instant. A customer that was
    /// authorized in this conversation and whose credential has not expired is not
    /// asked again.
    pub open spec fn authorize_spec(
        self,
        app: QefroView,
        state: CustomerStateView,
        method: Option<Seq<char>>,
        now_ms: i64,
    ) -> (CustomerStateView, Result<AuthorizeStepView, ToolErrorView>) {
        if !app.has_provider {
            (state, Err(provider_missing()))
        } else {
            match app.fresh_auth(self.conversation_id, now_ms) {
                Some(stored) => (
                    state_after_lookup(Some(stored.customer)),
                    Ok(AuthorizeStepView::Done(stored.customer)),
                ),
                None => if state.lookup_completed {
                    (state, self.authorize_found(method, state.current))
                } else {
                    (state, Ok(AuthorizeStepView::Lookup(self.lookup_context(self.identity))))
                },
            }
        }
    }

    /// The step of an authorization after a lookup.
    pub open spec fn authorize_found(
        self,
        method: Option<Seq<char>>,
        customer: Option<JsonView>,
    ) -> Result<AuthorizeStepView, ToolErrorView> {
        match customer {
            Some(c) => Ok(AuthorizeStepView::Authorize(self.authorize_context(c, method))),
            None => Err(customer_missing()),
        }
    }

    /// The step of an authorization after the provider was asked for the customer.
    pub open spec fn authorize_answered(
        self,
        method: Option<Seq<char>>,
        found: Result<Option<JsonView>, ToolErrorView>,
    ) -> Result<AuthorizeStepView, ToolErrorView> {
        match found {
            Ok(customer) => self.authorize_found(method, customer),
            Err(e) => Err(e),
        }
    }
}

impl CustomerApi {
    fn conversation(&self) -> (r: Conversation)
        ensures
            r.deep_view().id == self.conversation_id,
    {
        Conversation { id: self.conversation_id }
    }

    fn lookup_context(&self, identity: JsonValue) -> (r: CustomerLookupContext)
        ensures
            r.deep_view() == self.deep_view().lookup_context(identity.deep_view()),
    {
        CustomerLookupContext {
            identity,
            parameters: self.parameters.clone(),
            conversation: self.conversation(),
            channel: self.channel.clone(),
        }
    }

    fn authorize_context(&self, customer: JsonValue, method: Option<String>) -> (r:
        CustomerAuthorizeContext)
        ensures
            r.deep_view() == self.deep_view().authorize_context(
                customer.deep_view(),
                method.deep_view(),
            ),
    {
        CustomerAuthorizeContext {
            customer,
            method,
            response: self.auth_response.clone(),
            identity: self.identity.clone(),
            parameters: self.parameters.clone(),
            conversation: self.conversation(),
            channel: self.channel.clone(),
        }
    }

    /// Begins a lookup.
    pub fn lookup<P, H, M, B, A>(&self, app: &Qefro<P, H, M, B, A>, state: &CustomerState) -> (r:
        Result<LookupStep, ToolError>)
        ensures
            auth::result_view(r) == self.deep_view().lookup_spec(app@, state.deep_view()),
    {
        if app.customer_provider.is_none() {
            return Err(ToolError::new("customer_provider_missing"));
        }
        if state.lookup_completed {
            return Ok(LookupStep::Done(state.current.clone()));
        }
        Ok(LookupStep::Ask(self.lookup_context(self.identity.clone())))
    }

    /// Takes what the provider said to a lookup. A lookup is made once: the next one
    /// gives this customer again. One that failed is not remembered.
    pub fn looked_up(
        &self,
        state: &mut CustomerState,
        found: Result<Option<JsonValue>, ToolError>,
    ) -> (r: Result<Option<JsonValue>, ToolError>)
        ensures
            auth::result_view(r) == auth::result_view(found),
            final(state).deep_view() == state_after_asking(
                old(state).deep_view(),
                auth::result_view(found),
            ),
    {
        match found {
            Ok(customer) => {
                *state = CustomerState { current: customer.clone(), lookup_completed: true };
                Ok(customer)
            },
            Err(e) => Err(e),
        }
    }

    /// Begins a lookup by phone number.
    pub fn lookup_by_phone<P, H, M, B, A>(
        &self,
        app: &Qefro<P, H, M, B, A>,
        state: &mut CustomerState,
        phone: Option<&str>,
    ) -> (r: Result<LookupStep, ToolError>)
        ensures
            (final(state).deep_view(), auth::result_view(r))
                == self.deep_view().lookup_by_phone_spec(
                app@,
                old(state).deep_view(),
                phone.deep_view(),
            ),
    {
        if app.customer_provider.is_none() {
            return Err(ToolError::new("customer_provider_missing"));
        }
        let found = match phone {
            Some(p) => Some(p.to_owned()),
            None => match self.identity.text("phone") {
                Some(p) => if trim(p).as_str().is_empty() {
                    None
                } else {
                    Some(p.to_owned())
                },
                None => None,
            },
        };
        match found {
            Some(p) => {
                let identity = match self.identity.clone() {
                    JsonValue::Object(o) => {
                        let mut object = o;
                        object.insert_str("phone", p.as_str());
                        JsonValue::Object(object)
                    },
                    other => other,
                };
                Ok(LookupStep::Ask(self.lookup_context(identity)))
            },
            None => {
                *state = CustomerState { current: None, lookup_completed: true };
                Ok(LookupStep::Done(None))
            },
        }
    }

    /// Begins an authorization at an instant.
    pub fn authorize_at<P, H, M, B, A>(
        &self,
        app: &Qefro<P, H, M, B, A>,
        state: &mut CustomerState,
        method: Option<String>,
        now_ms: i64,
    ) -> (r: Result<AuthorizeStep, ToolError>)
        ensures
            (final(state).deep_view(), auth::result_view(r)) == self.deep_view().authorize_spec(
                app@,
                old(state).deep_view(),
                method.deep_view(),
                now_ms,
            ),
    {
        if app.customer_provider.is_none() {
            return Err(ToolError::new("customer_provider_missing"));
        }
        if let Some(stored) = app.fresh_auth(self.conversation_id, now_ms) {
            *state =
            CustomerState { current: Some(stored.customer.clone()), lookup_completed: true };
            return Ok(AuthorizeStep::Done(stored.customer.clone()));
        }
        if state.lookup_completed {
            return self.authorize_found(method, state.current.clone());
        }
        Ok(AuthorizeStep::Lookup(self.lookup_context(self.identity.clone())))
    }

    /// Begins an authorization now.
    pub fn authorize<P, H, M, B, A>(
        &self,
        app: &Qefro<P, H, M, B, A>,
        state: &mut CustomerState,
        method: Option<String>,
    ) -> (r: Result<AuthorizeStep, ToolError>)
        ensures
            exists|now_ms: i64| #[trigger]
                source::is_instant(now_ms) && (final(state).deep_view(), auth::result_view(r))
                    == self.deep_view().authorize_spec(
                    app@,
                    old(state).deep_view(),
                    method.deep_view(),
                    now_ms,
                ),
    {
        let now_ms: i64 = now_millis();
        self.authorize_at(app, state, method, now_ms)
    }

    fn authorize_found(&self, method: Option<String>, customer: Option<JsonValue>) -> (r: Result<
        AuthorizeStep,
        ToolError,
    >)
        ensures
            auth::result_view(r) == self.deep_view().authorize_found(
                method.deep_view(),
                customer.deep_view(),
            ),
    {
        match customer {
            Some(c) => Ok(AuthorizeStep::Authorize(self.authorize_context(c, method))),
            None => Err(ToolError::new("customer_not_found")),
        }
    }

    /// Goes on with an authorization after the provider was asked for the customer.
    pub fn authorize_looked_up(
        &self,
        state: &mut CustomerState,
        method: Option<String>,
        found: Result<Option<JsonValue>, ToolError>,
    ) -> (r: Result<AuthorizeStep, ToolError>)
        ensures
            final(state).deep_view() == state_after_asking(
                old(state).deep_view(),
                auth::result_view(found),
            ),
            auth::result_view(r) == self.deep_view().authorize_answered(
                method.deep_view(),
                auth::result_view(found),
            ),
    {
        match self.looked_up(state, found) {
            Ok(customer) => self.authorize_found(method, customer),
            Err(e) => Err(e),
        }
    }

    /// Ends an authorization with the outcome that the provider gave, at an instant.
    pub fn authorized_at<P, H, M, B, A>(
        &self,
        app: &mut Qefro<P, H, M, B, A>,
        state: &mut CustomerState,
        outcome: AuthOutcome,
        draw: Draw,
    ) -> (r: Result<JsonValue, ToolError>)
        requires
            qefro::expiry_fits(outcome.deep_view(), draw.now_ms as int),
        ensures
            final(state).deep_view() == qefro::state_after_outcome(
                old(state).deep_view(),
                outcome.deep_view(),
            ),
            (final(app)@, auth::result_view(r)) == qefro::consume_spec(
                old(app)@,
                outcome.deep_view(),
                self.conversation_id,
                None,
                draw,
            ),
            final(app).same_code(old(app)),
    {
        app.consume_auth_outcome(outcome, self.conversation_id, state, None, draw)
    }

    /// Ends an authorization with the outcome that the provider gave.
    pub fn authorized<P, H, M, B, A>(
        &self,
        app: &mut Qefro<P, H, M, B, A>,
        state: &mut CustomerState,
        outcome: AuthOutcome,
    ) -> (r: Result<JsonValue, ToolError>)
        requires
            qefro::expiry_fits(outcome.deep_view(), source::MAX_MILLIS as int),
        ensures
            final(state).deep_view() == qefro::state_after_outcome(
                old(state).deep_view(),
                outcome.deep_view(),
            ),
            exists|draw: Draw| #[trigger]
                draw.is_fresh() && (final(app)@, auth::result_view(r)) == qefro::consume_spec(
                    old(app)@,
                    outcome.deep_view(),
                    self.conversation_id,
                    None,
                    draw,
                ),
            final(app).same_code(old(app)),
    {
        let draw = Draw::take();
        self.authorized_at(app, state, outcome, draw)
    }

    /// The customer that is known so far.
    pub fn get(&self, state: &CustomerState) -> (r: Option<JsonValue>)
        ensures
            r.deep_view() == state.deep_view().current,
    {
        state.current.clone()
    }

    /// The customer that is known so far; an error where there is none.
    pub fn require(&self, state: &CustomerState) -> (r: Result<JsonValue, ToolError>)
        ensures
            auth::result_view(r) == (match state.deep_view().current {
                Some(c) => Ok(c),
                None => Err(customer_missing()),
            }),
    {
        match self.get(state) {
            Some(c) => Ok(c),
            None => Err(ToolError::new("customer_not_found")),
        }
    }
}

impl ToolContext {
    /// The customer side of the invocation.
    pub fn customer_api(&self) -> (r: Option<&CustomerApi>)
        ensures
            r.deep_view() == self.deep_view().customer_api,
    {
        self.customer_api.as_ref()
    }

    /// Stops the tool with a challenge for the customer.
    pub fn raise_challenge(challenge: ChallengePayload) -> (r: Result<JsonValue, ToolError>)
        ensures
            auth::result_view(r) == Err::<JsonView, ToolErrorView>(
                ToolErrorView::Challenge(
                    ChallengeSignalView { challenge: challenge.deep_view() },
                ),
            ),
    {
        Err(ToolError::Challenge(ChallengeSignal { challenge }))
    }
}

/// A lookup is made once, by whichever copy: after one copy of a customer side
/// took what the provider found, another copy gives that customer without
/// asking again. After a lookup that failed the provider is asked again.
pub proof fn law_lookup_once(
    api: CustomerApi,
    copy: CustomerApi,
    app: QefroView,
    state: CustomerStateView,
    found: Result<Option<JsonView>, ToolErrorView>,
)
    requires
        copy.deep_view() == api.deep_view(),
        app.has_provider,
        api.deep_view().lookup_spec(app, state) matches Ok(LookupStepView::Ask(_)),
    ensures
        ({
            let after = state_after_asking(state, found);
            match found {
                Ok(customer) => {
                    &&& copy.deep_view().lookup_spec(app, after) == Ok::<
                        LookupStepView,
                        ToolErrorView,
                    >(LookupStepView::Done(customer))
                    &&& after.current == customer
                },
                Err(_) => copy.deep_view().lookup_spec(app, after) == api.deep_view().lookup_spec(
                    app,
                    state,
                ),
            }
        }),
{
}

/// Without a provider nobody is asked: every way to a customer is an error, and
/// what is known stays.
pub proof fn law_no_provider(
    api: CustomerApiView,
    app: QefroView,
    state: CustomerStateView,
    phone: Option<Seq<char>>,
    method: Option<Seq<char>>,
    now_ms: i64,
)
    requires
        !app.has_provider,
    ensures
        api.lookup_spec(app, state) == Err::<LookupStepView, ToolErrorView>(provider_missing()),
        api.lookup_by_phone_spec(app, state, phone) == (
            state,
            Err::<LookupStepView, ToolErrorView>(provider_missing()),
        ),
        api.authorize_spec(app, state, method, now_ms) == (
            state,
            Err::<AuthorizeStepView, ToolErrorView>(provider_missing()),
        ),
{
}

} // verus!
