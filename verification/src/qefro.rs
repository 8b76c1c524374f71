//! The state of a webhook: its tools, its hooks, the calls that wait for an
//! answer and the customers that are authorized.

use crate::auth;
use crate::auth::{
    AuthOutcome, AuthOutcomeView, AuthenticationContextPayload, AuthenticationContextPayloadView,
    ChallengeSignal, ChallengeSignalView, ToolError, ToolErrorView,
};
use crate::customer;
use crate::customer_hub::{CustomerState, CustomerStateView};
use crate::json::{JsonValue, JsonView};
use crate::laws;
use crate::laws::registry;
use crate::marketing;
use crate::marketing::{
    to_marketing_capability, validate_marketing_definition, MarketingCapability,
    MarketingCapabilityView, MarketingDefinition, MarketingError, MarketingRegistration,
    MarketingRegistrationView,
};
use crate::protocol;
use crate::protocol::{QefroConfig, QefroConfigView, QefroResponse, QefroResponseView};
use crate::signature;
use crate::source;
use crate::source::{uuid_text, Draw};
use crate::text::same_text;
use crate::tools;
use crate::tools::{RegisteredTool, RegisteredToolView, ToolMetadata, ToolMetadataView};
use std::collections::HashMap;
use vstd::hash_map::StringHashMap;
use vstd::prelude::*;

verus! {

broadcast use vstd::std_specs::hash::group_hash_axioms;

/// A call that waits for the answer to a challenge.
#[derive(Debug)]
pub struct PendingInvocation {
    pub tool: String,
    pub conversation_id: u128,
    pub parameters: JsonValue,
    pub identity: Option<JsonValue>,
    pub channel: Option<String>,
}

pub struct PendingInvocationView {
    pub tool: Seq<char>,
    pub conversation_id: u128,
    pub parameters: JsonView,
    pub identity: Option<JsonView>,
    pub channel: Option<Seq<char>>,
}

impl DeepView for PendingInvocation {
    type V = PendingInvocationView;

    open spec fn deep_view(&self) -> PendingInvocationView {
        PendingInvocationView {
            tool: self.tool@,
            conversation_id: self.conversation_id,
            parameters: self.parameters.deep_view(),
            identity: self.identity.deep_view(),
            channel: self.channel.deep_view(),
        }
    }
}

impl Clone for PendingInvocation {
    fn clone(&self) -> (r: Self)
        ensures
            r.deep_view() == self.deep_view(),
    {
        PendingInvocation {
            tool: self.tool.clone(),
            conversation_id: self.conversation_id,
            parameters: self.parameters.clone(),
            identity: self.identity.clone(),
            channel: self.channel.clone(),
        }
    }
}

/// A customer that was authorized in a conversation.
#[derive(Debug)]
pub struct StoredAuth {
    pub customer: JsonValue,
    pub auth: AuthenticationContextPayload,
    pub expires_at_epoch_ms: i64,
}

pub struct StoredAuthView {
    pub customer: JsonView,
    pub auth: AuthenticationContextPayloadView,
    pub expires_at_epoch_ms: i64,
}

impl DeepView for StoredAuth {
    type V = StoredAuthView;

    open spec fn deep_view(&self) -> StoredAuthView {
        StoredAuthView {
            customer: self.customer.deep_view(),
            auth: self.auth.deep_view(),
            expires_at_epoch_ms: self.expires_at_epoch_ms,
        }
    }
}

impl Clone for StoredAuth {
    fn clone(&self) -> (r: Self)
        ensures
            r.deep_view() == self.deep_view(),
    {
        StoredAuth {
            customer: self.customer.clone(),
            auth: self.auth.clone(),
            expires_at_epoch_ms: self.expires_at_epoch_ms,
        }
    }
}

/// A tool and its handler.
pub struct ToolRegistration<H> {
    pub metadata: ToolMetadata,
    pub handler: H,
}

/// A webhook. `P` is the customer provider, `H` a tool handler, `M` a middleware,
/// and `B` and `A` are hooks that run before and after a tool.
pub struct Qefro<P = (), H = (), M = (), B = (), A = ()> {
    pub config: QefroConfig,
    pub tools: Vec<ToolRegistration<H>>,
    pub pending: StringHashMap<PendingInvocation>,
    pub auth_by_conversation: HashMap<u128, StoredAuth>,
    pub marketing: Option<MarketingRegistration>,
    pub customer_provider: Option<P>,
    pub middlewares: Vec<M>,
    pub before_hooks: Vec<B>,
    pub after_hooks: Vec<A>,
}

/// What a webhook holds, apart from the code that it was given.
pub struct QefroView {
    pub config: QefroConfigView,
    pub tools: Seq<ToolMetadataView>,
    pub pending: Map<Seq<char>, PendingInvocationView>,
    pub auth: Map<u128, StoredAuthView>,
    pub marketing: Option<MarketingRegistrationView>,
    pub has_provider: bool,
    pub middlewares: nat,
    pub before_hooks: nat,
    pub after_hooks: nat,
}

impl<P, H, M, B, A> View for Qefro<P, H, M, B, A> {
    type V = QefroView;

    open spec fn view(&self) -> QefroView {
        QefroView {
            config: self.config.deep_view(),
            tools: self.tools@.map_values(|t: ToolRegistration<H>| t.metadata.deep_view()),
            pending: self.pending@.map_values(|p: PendingInvocation| p.deep_view()),
            auth: self.auth_by_conversation@.map_values(|a: StoredAuth| a.deep_view()),
            marketing: self.marketing.deep_view(),
            has_provider: self.customer_provider is Some,
            middlewares: self.middlewares@.len(),
            before_hooks: self.before_hooks@.len(),
            after_hooks: self.after_hooks@.len(),
        }
    }
}

/// The place of the first tool with a name.
pub open spec fn tool_index(tools: Seq<ToolMetadataView>, name: Seq<char>) -> Option<int>
    decreases tools.len(),
{
    if tools.len() == 0 {
        None
    } else {
        match tool_index(tools.drop_last(), name) {
            Some(i) => Some(i),
            None => if tools.last().name == name {
                Some(tools.len() - 1)
            } else {
                None
            },
        }
    }
}

/// The metadata of the tool with a name.
pub open spec fn find_tool(tools: Seq<ToolMetadataView>, name: Seq<char>) -> Option<
    ToolMetadataView,
> {
    match tool_index(tools, name) {
        Some(i) => Some(tools[i]),
        None => None,
    }
}

/// Tools with one more: it takes the place of the one with its name, or comes last.
pub open spec fn with_tool(tools: Seq<ToolMetadataView>, tool: ToolMetadataView) -> Seq<
    ToolMetadataView,
> {
    match tool_index(tools, tool.name) {
        Some(i) => tools.update(i, tool),
        None => tools.push(tool),
    }
}

/// The lifetime of a credential in seconds: 15 minutes where it says none, and a
/// second at least.
pub open spec fn lifetime_secs(auth: AuthenticationContextPayloadView) -> int {
    match auth.expires_in {
        Some(secs) => if secs < 1 {
            1
        } else {
            secs as int
        },
        None => 900,
    }
}

/// Whether the expiry of what an outcome gives is a number of milliseconds that
/// fits.
pub open spec fn expiry_fits(outcome: AuthOutcomeView, now_ms: int) -> bool {
    match outcome {
        AuthOutcomeView::Success { customer, auth } => {
            &&& lifetime_secs(auth) * 1000 <= i64::MAX
            &&& now_ms + lifetime_secs(auth) * 1000 <= i64::MAX
        },
        _ => true,
    }
}

/// A customer that is authorized at an instant.
pub open spec fn stored_auth(
    customer: JsonView,
    auth: AuthenticationContextPayloadView,
    now_ms: i64,
) -> StoredAuthView {
    StoredAuthView {
        customer,
        auth,
        expires_at_epoch_ms: (now_ms + lifetime_secs(auth) * 1000) as i64,
    }
}

impl QefroView {
    /// The names of the tools are distinct, and their lookups are normalized.
    pub open spec fn wf(self) -> bool {
        &&& forall|i: int, j: int|
            0 <= i < j < self.tools.len() ==> (#[trigger] self.tools[i]).name != (
            #[trigger] self.tools[j]).name
        &&& forall|i: int|
            0 <= i < self.tools.len() ==> (#[trigger] self.tools[i]).normalized() == self.tools[i]
    }

    /// The customer that is authorized in a conversation at an instant.
    pub open spec fn fresh_auth(self, conversation_id: u128, now_ms: i64) -> Option<
        StoredAuthView,
    > {
        if self.auth.contains_key(conversation_id)
            && self.auth[conversation_id].expires_at_epoch_ms > now_ms {
            Some(self.auth[conversation_id])
        } else {
            None
        }
    }

    /// The tools as they are listed.
    pub open spec fn listed(self) -> Seq<RegisteredToolView> {
        self.tools.map_values(|t: ToolMetadataView| t.listed())
    }

    /// The configuration and what was registered are the same as those of another.
    pub open spec fn same_setup(self, other: Self) -> bool {
        &&& self.config == other.config
        &&& self.tools == other.tools
        &&& self.marketing == other.marketing
        &&& self.has_provider == other.has_provider
        &&& self.middlewares == other.middlewares
        &&& self.before_hooks == other.before_hooks
        &&& self.after_hooks == other.after_hooks
    }

    /// The marketing capability as it is advertised.
    pub open spec fn marketing_capability(self) -> Option<MarketingCapabilityView> {
        match self.marketing {
            Some(registration) => Some(registration.capability()),
            None => None,
        }
    }

    pub open spec fn with_pending(self, token: Seq<char>, call: PendingInvocationView) -> Self {
        QefroView { pending: self.pending.insert(token, call), ..self }
    }

    pub open spec fn without_pending(self, token: Seq<char>) -> Self {
        QefroView { pending: self.pending.remove(token), ..self }
    }

    pub open spec fn with_auth(self, conversation_id: u128, stored: StoredAuthView) -> Self {
        QefroView { auth: self.auth.insert(conversation_id, stored), ..self }
    }
}

/// What is known of the customer after an authorization.
pub open spec fn state_after_outcome(
    state: CustomerStateView,
    outcome: AuthOutcomeView,
) -> CustomerStateView {
    match outcome {
        AuthOutcomeView::Success { customer, auth } => customer::state_after_lookup(Some(customer)),
        _ => state,
    }
}

/// What an authorization leaves in the webhook, and what it gives. A customer that
/// is authorized is kept for the conversation until the credential expires. Where
/// a challenge is raised for a call, the call waits under the token.
pub open spec fn consume_spec(
    app: QefroView,
    outcome: AuthOutcomeView,
    conversation_id: u128,
    call: Option<PendingInvocationView>,
    draw: Draw,
) -> (QefroView, Result<JsonView, ToolErrorView>) {
    match outcome {
        AuthOutcomeView::Success { customer, auth } => (
            app.with_auth(conversation_id, stored_auth(customer, auth, draw.now_ms)),
            Ok(customer),
        ),
        AuthOutcomeView::Challenge(challenge) => (
            match call {
                Some(c) => app.with_pending(draw.token_text(), c),
                None => app,
            },
            Err(ToolErrorView::Challenge(ChallengeSignalView { challenge })),
        ),
        AuthOutcomeView::Denied => (app, Err(ToolErrorView::Message("denied"@))),
        AuthOutcomeView::NotFound => (app, Err(customer::customer_missing())),
    }
}

pub open spec fn denied_response() -> QefroResponseView {
    protocol::error_view("denied"@, "Authentication denied"@)
}

pub open spec fn customer_missing_response() -> QefroResponseView {
    protocol::error_view("customer_not_found"@, "Customer not found"@)
}

/// What an outcome leaves in the webhook for a call that a handler authorizes by
/// itself, and the customer or the response that it gives.
pub open spec fn require_spec(
    app: QefroView,
    outcome: AuthOutcomeView,
    call: PendingInvocationView,
    draw: Draw,
) -> (QefroView, Result<JsonView, QefroResponseView>) {
    match outcome {
        AuthOutcomeView::Success { customer, auth } => (
            app.with_auth(call.conversation_id, stored_auth(customer, auth, draw.now_ms)),
            Ok(customer),
        ),
        AuthOutcomeView::Challenge(challenge) => (
            app.with_pending(draw.token_text(), call),
            Err(QefroResponseView::Challenge { resume_token: draw.token_text(), challenge }),
        ),
        AuthOutcomeView::Denied => (app, Err(denied_response())),
        AuthOutcomeView::NotFound => (app, Err(customer_missing_response())),
    }
}

/// What a customer or a response is.
pub open spec fn required_view(r: Result<JsonValue, QefroResponse>) -> Result<
    JsonView,
    QefroResponseView,
> {
    match r {
        Ok(v) => Ok(v.deep_view()),
        Err(e) => Err(e.deep_view()),
    }
}

impl<P, H, M, B, A> Qefro<P, H, M, B, A> {
    /// The code that the webhook was given is the same as that of another.
    pub open spec fn same_code(&self, other: &Self) -> bool {
        &&& self.tools@ == other.tools@
        &&& self.customer_provider == other.customer_provider
        &&& self.middlewares@ == other.middlewares@
        &&& self.before_hooks@ == other.before_hooks@
        &&& self.after_hooks@ == other.after_hooks@
    }

    /// A webhook without tools.
    pub fn new(config: QefroConfig) -> (r: Self)
        ensures
            r@ == (QefroView {
                config: config.deep_view(),
                tools: Seq::empty(),
                pending: Map::empty(),
                auth: Map::empty(),
                marketing: None,
                has_provider: false,
                middlewares: 0,
                before_hooks: 0,
                after_hooks: 0,
            }),
            r@.wf(),
    {
        let r = Qefro {
            config,
            tools: Vec::new(),
            pending: StringHashMap::new(),
            auth_by_conversation: HashMap::new(),
            marketing: None,
            customer_provider: None,
            middlewares: Vec::new(),
            before_hooks: Vec::new(),
            after_hooks: Vec::new(),
        };
        assert(r@.tools =~= Seq::empty());
        assert(r@.pending =~= Map::empty());
        assert(r@.auth =~= Map::empty());
        r
    }

    /// Sets the customer provider.
    pub fn customer(&mut self, provider: P)
        ensures
            final(self)@ == (QefroView { has_provider: true, ..old(self)@ }),
            final(self).customer_provider == Some(provider),
            final(self).tools@ == old(self).tools@,
            final(self).middlewares@ == old(self).middlewares@,
            final(self).before_hooks@ == old(self).before_hooks@,
            final(self).after_hooks@ == old(self).after_hooks@,
    {
        self.customer_provider = Some(provider);
    }

    /// The place of a tool.
    pub(crate) fn index_of(&self, name: &str) -> (r: Option<usize>)
        ensures
            match r {
                Some(i) => i < self.tools.len() && tool_index(self@.tools, name@) == Some(
                    i as int,
                ),
                None => tool_index(self@.tools, name@) is None,
            },
    {
        let ghost views = self@.tools;
        let mut i: usize = 0;
        assert(views.take(0) =~= Seq::empty());
        while i < self.tools.len()
            invariant
                i <= self.tools.len(),
                views == self@.tools,
                tool_index(views.take(i as int), name@) is None,
            decreases self.tools.len() - i,
        {
            assert(views.take(i + 1).drop_last() =~= views.take(i as int));
            assert(views.take(i + 1).last() == self.tools[i as int].metadata.deep_view());
            if same_text(self.tools[i].metadata.name.as_str(), name) {
                proof {
                    lemma_tool_index_prefix(views, name@, i + 1);
                }
                return Some(i);
            }
            i += 1;
        }
        assert(views.take(i as int) =~= views);
        None
    }

    /// Registers a tool with its handler. A tool with the same name is replaced.
    pub fn tool(&mut self, metadata: ToolMetadata, handler: H)
        ensures
            final(self)@ == (QefroView {
                tools: with_tool(old(self)@.tools, metadata.deep_view().normalized()),
                ..old(self)@
            }),
            old(self)@.wf() ==> final(self)@.wf(),
            final(self).handler_of(metadata.name@) == Some(handler),
            exists|k: int|
                0 <= k < final(self).tools@.len() && registry::is_kept(
                    (#[trigger] final(self).tools@[k]).metadata.deep_view(),
                    metadata.deep_view(),
                ) && final(self).tools@[k].handler == handler,
            forall|name: Seq<char>|
                name != metadata.name@ ==> #[trigger] final(self).handler_of(name) == old(
                    self,
                ).handler_of(name),
            final(self).customer_provider == old(self).customer_provider,
            final(self).middlewares@ == old(self).middlewares@,
            final(self).before_hooks@ == old(self).before_hooks@,
            final(self).after_hooks@ == old(self).after_hooks@,
    {
        let ghost before = self@.tools;
        let ghost given = metadata.deep_view();
        let metadata = metadata.normalize();
        let ghost added = metadata.deep_view();
        let found = self.index_of(metadata.name.as_str());
        proof {
            assert forall|name: Seq<char>| true implies #[trigger] tool_index(
                with_tool(before, added),
                name,
            ) == (if name == added.name && tool_index(before, name) is None {
                Some(before.len() as int)
            } else {
                tool_index(before, name)
            }) by {
                lemma_with_tool(before, added, name);
            }
            assert forall|name: Seq<char>| true implies (match #[trigger] tool_index(before, name) {
                Some(i) => 0 <= i < before.len() && before[i].name == name,
                None => true,
            }) by {
                lemma_tool_index(before, name);
            }
            if self@.wf() {
                lemma_with_tool_wf(self@, given);
            }
        }
        proof {
            registry::law_metadata_kept(given);
        }
        let registration = ToolRegistration { metadata, handler };
        match found {
            Some(i) => {
                self.tools.set(i, registration);
                assert(self.tools@[i as int].metadata.deep_view() == added);
            },
            None => {
                self.tools.push(registration);
                assert(self.tools@[before.len() as int].metadata.deep_view() == added);
            },
        }
        assert(self@.tools =~= with_tool(before, added));
    }

    /// Registers the marketing metadata of the app, in its normal form. It takes the
    /// place of what was registered before. A definition that is not valid is
    /// refused, and the webhook stays as it is.
    pub fn marketing(&mut self, def: MarketingDefinition) -> (r: Result<(), MarketingError>)
        ensures
            match def.deep_view().error() {
                Some(m) => marketing::refused(r, m) && final(self)@ == old(self)@,
                None => r is Ok && final(self)@ == (QefroView {
                    marketing: Some(def.deep_view().registration()),
                    ..old(self)@
                }),
            },
            r is Ok <==> laws::marketing::accepts(def.deep_view()),
            final(self).same_code(old(self)),
    {
        proof {
            laws::marketing::law_definition_accepted(def.deep_view());
        }
        match validate_marketing_definition(def) {
            Ok(registration) => {
                self.marketing = Some(registration);
                Ok(())
            },
            Err(e) => Err(e),
        }
    }

    /// The marketing capability as it is advertised.
    pub fn marketing_capability(&self) -> (r: Option<MarketingCapability>)
        ensures
            r.deep_view() == self@.marketing_capability(),
    {
        match &self.marketing {
            Some(registration) => Some(to_marketing_capability(registration)),
            None => None,
        }
    }

    /// The handler of a tool.
    pub open spec fn handler_of(&self, name: Seq<char>) -> Option<H> {
        match tool_index(self@.tools, name) {
            Some(i) => Some(self.tools@[i].handler),
            None => None,
        }
    }

    /// The handler of a tool.
    pub fn handler(&self, name: &str) -> (r: Option<&H>)
        ensures
            match r {
                Some(h) => self.handler_of(name@) == Some(*h),
                None => self.handler_of(name@) is None,
            },
    {
        match self.index_of(name) {
            Some(i) => Some(&self.tools[i].handler),
            None => None,
        }
    }

    /// Adds a hook that runs before every tool.
    pub fn before(&mut self, hook: B)
        ensures
            final(self)@ == (QefroView {
                before_hooks: old(self)@.before_hooks + 1,
                ..old(self)@
            }),
            final(self).before_hooks@ == old(self).before_hooks@.push(hook),
            final(self).tools@ == old(self).tools@,
            final(self).customer_provider == old(self).customer_provider,
            final(self).middlewares@ == old(self).middlewares@,
            final(self).after_hooks@ == old(self).after_hooks@,
    {
        self.before_hooks.push(hook);
    }

    /// Adds a hook that runs after every tool.
    pub fn after(&mut self, hook: A)
        ensures
            final(self)@ == (QefroView { after_hooks: old(self)@.after_hooks + 1, ..old(self)@ }),
            final(self).after_hooks@ == old(self).after_hooks@.push(hook),
            final(self).tools@ == old(self).tools@,
            final(self).customer_provider == old(self).customer_provider,
            final(self).middlewares@ == old(self).middlewares@,
            final(self).before_hooks@ == old(self).before_hooks@,
    {
        self.after_hooks.push(hook);
    }

    /// Adds a middleware round every tool, inside those that were added before.
    pub fn use_middleware(&mut self, middleware: M)
        ensures
            final(self)@ == (QefroView { middlewares: old(self)@.middlewares + 1, ..old(self)@ }),
            final(self).middlewares@ == old(self).middlewares@.push(middleware),
            final(self).tools@ == old(self).tools@,
            final(self).customer_provider == old(self).customer_provider,
            final(self).before_hooks@ == old(self).before_hooks@,
            final(self).after_hooks@ == old(self).after_hooks@,
    {
        self.middlewares.push(middleware);
    }

    /// The tools as they are listed.
    pub fn list_tools(&self) -> (r: Vec<RegisteredTool>)
        ensures
            r.deep_view() == self@.listed(),
    {
        let mut r: Vec<RegisteredTool> = Vec::new();
        let mut i: usize = 0;
        while i < self.tools.len()
            invariant
                i <= self.tools.len(),
                r.len() == i,
                forall|k: int|
                    0 <= k < i ==> (#[trigger] r[k]).deep_view()
                        == self.tools[k].metadata.deep_view().listed(),
            decreases self.tools.len() - i,
        {
            r.push(self.tools[i].metadata.list_entry());
            i += 1;
        }
        assert(r.deep_view() =~= self@.listed());
        r
    }

    /// The customer that is authorized in a conversation at an instant.
    pub fn fresh_auth(&self, conversation_id: u128, now_ms: i64) -> (r: Option<&StoredAuth>)
        ensures
            r.deep_view() == self@.fresh_auth(conversation_id, now_ms),
    {
        match self.auth_by_conversation.get(&conversation_id) {
            Some(stored) => if stored.expires_at_epoch_ms > now_ms {
                Some(stored)
            } else {
                None
            },
            None => None,
        }
    }

    /// Lets a call wait under a token.
    pub(crate) fn stash(&mut self, token: String, call: PendingInvocation)
        ensures
            final(self)@ == old(self)@.with_pending(token@, call.deep_view()),
            final(self).same_code(old(self)),
    {
        let ghost before = self@;
        self.pending.insert(token, call);
        assert(self@.pending =~= before.with_pending(token@, call.deep_view()).pending);
    }

    /// Takes the call that waits under a token.
    pub(crate) fn take_pending(&mut self, token: &str) -> (r: Option<PendingInvocation>)
        ensures
            final(self)@ == old(self)@.without_pending(token@),
            r.deep_view() == (if old(self)@.pending.contains_key(token@) {
                Some(old(self)@.pending[token@])
            } else {
                None
            }),
            final(self).same_code(old(self)),
    {
        let ghost before = self@;
        let r = match self.pending.get(token) {
            Some(call) => Some(call.clone()),
            None => None,
        };
        self.pending.remove(token);
        assert(self@.pending =~= before.without_pending(token@).pending);
        r
    }

    /// Keeps a customer that is authorized.
    fn keep(
        &mut self,
        conversation_id: u128,
        customer: JsonValue,
        auth: AuthenticationContextPayload,
        now_ms: i64,
    )
        requires
            lifetime_secs(auth.deep_view()) * 1000 <= i64::MAX,
            now_ms + lifetime_secs(auth.deep_view()) * 1000 <= i64::MAX,
        ensures
            final(self)@ == old(self)@.with_auth(
                conversation_id,
                stored_auth(customer.deep_view(), auth.deep_view(), now_ms),
            ),
            final(self).same_code(old(self)),
    {
        let ghost before = self@;
        let secs: i64 = match auth.expires_in {
            Some(s) => if s < 1 {
                1
            } else {
                s
            },
            None => 900,
        };
        let stored = StoredAuth { customer, auth, expires_at_epoch_ms: now_ms + secs * 1000 };
        let ghost view = stored.deep_view();
        self.auth_by_conversation.insert(conversation_id, stored);
        assert(self@.auth =~= before.with_auth(conversation_id, view).auth);
    }

    /// Takes the outcome of an authorization.
    pub fn consume_auth_outcome(
        &mut self,
        outcome: AuthOutcome,
        conversation_id: u128,
        state: &mut CustomerState,
        call: Option<PendingInvocation>,
        draw: Draw,
    ) -> (r: Result<JsonValue, ToolError>)
        requires
            expiry_fits(outcome.deep_view(), draw.now_ms as int),
        ensures
            final(state).deep_view() == state_after_outcome(
                old(state).deep_view(),
                outcome.deep_view(),
            ),
            (final(self)@, auth::result_view(r)) == consume_spec(
                old(self)@,
                outcome.deep_view(),
                conversation_id,
                call.deep_view(),
                draw,
            ),
            final(self).same_code(old(self)),
    {
        match outcome {
            AuthOutcome::Success { customer, auth } => {
                self.keep(conversation_id, customer.clone(), auth, draw.now_ms);
                *state = CustomerState { current: Some(customer.clone()), lookup_completed: true };
                Ok(customer)
            },
            AuthOutcome::Challenge(challenge) => {
                if let Some(c) = call {
                    self.stash(uuid_text(draw.token), c);
                }
                Err(ToolError::Challenge(ChallengeSignal { challenge }))
            },
            AuthOutcome::Denied => Err(ToolError::new("denied")),
            AuthOutcome::NotFound => Err(ToolError::new("customer_not_found")),
        }
    }

    /// Takes the outcome of an authorization that a handler asked for by itself, at
    /// an instant. The customer comes out, or the response to give.
    pub fn require_authentication_at(
        &mut self,
        outcome: AuthOutcome,
        call: PendingInvocation,
        draw: Draw,
    ) -> (r: Result<JsonValue, QefroResponse>)
        requires
            expiry_fits(outcome.deep_view(), draw.now_ms as int),
        ensures
            (final(self)@, required_view(r)) == require_spec(
                old(self)@,
                outcome.deep_view(),
                call.deep_view(),
                draw,
            ),
            final(self).same_code(old(self)),
    {
        match outcome {
            AuthOutcome::Success { customer, auth } => {
                self.keep(call.conversation_id, customer.clone(), auth, draw.now_ms);
                Ok(customer)
            },
            AuthOutcome::Challenge(challenge) => {
                let resume_token = uuid_text(draw.token);
                self.stash(resume_token.clone(), call);
                Err(QefroResponse::Challenge { resume_token, challenge })
            },
            AuthOutcome::Denied => Err(QefroResponse::error("denied", "Authentication denied")),
            AuthOutcome::NotFound => Err(
                QefroResponse::error("customer_not_found", "Customer not found"),
            ),
        }
    }

    /// Takes the outcome of an authorization that a handler asked for by itself.
    pub fn require_authentication(
        &mut self,
        conversation_id: u128,
        outcome: AuthOutcome,
        tool: &str,
        parameters: JsonValue,
        identity: Option<JsonValue>,
        channel: Option<String>,
    ) -> (r: Result<JsonValue, QefroResponse>)
        requires
            expiry_fits(outcome.deep_view(), source::MAX_MILLIS as int),
        ensures
            exists|draw: Draw| #[trigger]
                draw.is_fresh() && (final(self)@, required_view(r)) == require_spec(
                    old(self)@,
                    outcome.deep_view(),
                    (PendingInvocationView {
                        tool: tool@,
                        conversation_id,
                        parameters: parameters.deep_view(),
                        identity: identity.deep_view(),
                        channel: channel.deep_view(),
                    }),
                    draw,
                ),
            r matches Err(QefroResponse::Challenge { resume_token, challenge }) ==> {
                let waiting = final(self)@.pending[resume_token@];
                &&& final(self)@.pending.contains_key(resume_token@)
                &&& waiting.tool == tool@
                &&& waiting.conversation_id == conversation_id
                &&& waiting.parameters == parameters.deep_view()
                &&& waiting.identity == identity.deep_view()
                &&& waiting.channel == channel.deep_view()
            },
            final(self).same_code(old(self)),
    {
        let draw = Draw::take();
        let call = PendingInvocation {
            tool: tool.to_owned(),
            conversation_id,
            parameters,
            identity,
            channel,
        };
        self.require_authentication_at(outcome, call, draw)
    }

    /// Whether a request is signed with the secret of the webhook and is timely.
    pub fn verify_signature(&self, signature: &str, timestamp: i64, body: &str) -> (r: bool)
        ensures
            exists|now_ms: i64| #[trigger]
                source::is_instant(now_ms) && r == signature::is_signed(
                    self@.config,
                    (now_ms / 1000) as i64,
                    signature@,
                    timestamp,
                    body@,
                ),
            r ==> signature@.len() == 67,
    {
        let now_ms: i64 = source::now_millis();
        signature::verify_signature_at(&self.config, now_ms / 1000, signature, timestamp, body)
    }
}

pub proof fn lemma_tool_index(tools: Seq<ToolMetadataView>, name: Seq<char>)
    ensures
        match tool_index(tools, name) {
            Some(i) => 0 <= i < tools.len() && tools[i].name == name && forall|j: int|
                0 <= j < i ==> (#[trigger] tools[j]).name != name,
            None => forall|j: int| 0 <= j < tools.len() ==> (#[trigger] tools[j]).name != name,
        },
    decreases tools.len(),
{
    if tools.len() > 0 {
        lemma_tool_index(tools.drop_last(), name);
        assert forall|j: int| 0 <= j < tools.len() - 1 implies #[trigger] tools[j]
            == tools.drop_last()[j] by {}
    }
}

proof fn lemma_tool_index_prefix(tools: Seq<ToolMetadataView>, name: Seq<char>, k: int)
    requires
        0 <= k <= tools.len(),
        tool_index(tools.take(k), name) is Some,
    ensures
        tool_index(tools, name) == tool_index(tools.take(k), name),
    decreases tools.len() - k,
{
    if k < tools.len() {
        assert(tools.take(k + 1).drop_last() =~= tools.take(k));
        lemma_tool_index_prefix(tools, name, k + 1);
    } else {
        assert(tools.take(k) =~= tools);
    }
}

proof fn lemma_with_tool(tools: Seq<ToolMetadataView>, tool: ToolMetadataView, name: Seq<char>)
    ensures
        tool_index(with_tool(tools, tool), name) == (if name == tool.name && tool_index(
            tools,
            name,
        ) is None {
            Some(tools.len() as int)
        } else {
            tool_index(tools, name)
        }),
{
    let after = with_tool(tools, tool);
    lemma_tool_index(tools, name);
    lemma_tool_index(tools, tool.name);
    lemma_tool_index(after, name);
    match tool_index(tools, tool.name) {
        Some(k) => {
            assert(after[k].name == tools[k].name);
            assert forall|j: int| 0 <= j < tools.len() implies #[trigger] after[j].name
                == tools[j].name by {}
            match (tool_index(tools, name), tool_index(after, name)) {
                (Some(a), Some(b)) => {
                    assert(after[a].name == name);
                    assert(tools[b].name == name);
                },
                (Some(a), None) => {
                    assert(after[a].name == name);
                },
                (None, Some(b)) => {
                    assert(tools[b].name == name);
                },
                (None, None) => {},
            }
        },
        None => {
            assert(after.drop_last() =~= tools);
        },
    }
}

proof fn lemma_with_tool_wf(app: QefroView, tool: ToolMetadataView)
    requires
        app.wf(),
    ensures
        (QefroView { tools: with_tool(app.tools, tool.normalized()), ..app }).wf(),
{
    let added = tool.normalized();
    let after = with_tool(app.tools, added);
    tools::law_normal_lookup_idempotent(tool.lookup);
    lemma_tool_index(app.tools, added.name);
    assert forall|i: int, j: int| 0 <= i < j < after.len() implies (#[trigger] after[i]).name != (
    #[trigger] after[j]).name by {
        match tool_index(app.tools, added.name) {
            Some(k) => {
                assert(i != k ==> after[i] == app.tools[i]);
                assert(j != k ==> after[j] == app.tools[j]);
                assert(app.tools[k].name == added.name);
                assert(app.tools[i].name != app.tools[j].name);
            },
            None => {
                assert(after[i] == app.tools[i]);
            },
        }
    }
}

/// Registering a tool keeps the names of the tools distinct and their lookups
/// normalized. Afterwards the name stands for this tool, with its lookup
/// normalized, and every other name for what it stood for.
pub proof fn law_tool_registered(app: QefroView, tool: ToolMetadataView, name: Seq<char>)
    requires
        app.wf(),
    ensures
        (QefroView { tools: with_tool(app.tools, tool.normalized()), ..app }).wf(),
        find_tool(with_tool(app.tools, tool.normalized()), name) == (if name == tool.name {
            Some(tool.normalized())
        } else {
            find_tool(app.tools, name)
        }),
{
    lemma_with_tool_wf(app, tool);
    lemma_with_tool(app.tools, tool.normalized(), name);
    lemma_tool_index(app.tools, name);
    lemma_tool_index(app.tools, tool.name);
}

/// A name finds a tool exactly where a tool with it is registered, and then that
/// tool.
pub proof fn law_find_tool(app: QefroView, i: int)
    requires
        app.wf(),
        0 <= i < app.tools.len(),
    ensures
        find_tool(app.tools, app.tools[i].name) == Some(app.tools[i]),
{
    lemma_tool_index(app.tools, app.tools[i].name);
}

/// A tool that is registered is listed, with its lookup normalized.
pub proof fn law_registered_tool_listed(app: QefroView, tool: ToolMetadataView)
    ensures
        (QefroView {
            tools: with_tool(app.tools, tool.normalized()),
            ..app
        }).listed().contains(tool.normalized().listed()),
{
    let added = tool.normalized();
    let after = QefroView { tools: with_tool(app.tools, added), ..app };
    lemma_tool_index(app.tools, added.name);
    let k = match tool_index(app.tools, added.name) {
        Some(i) => i,
        None => app.tools.len() as int,
    };
    assert(after.tools[k] == added);
    assert(after.listed()[k] == added.listed());
}

/// The tools are listed once each: as many as there are, with distinct names, and
/// with their lookups normalized.
pub proof fn law_tools_listed_once(app: QefroView)
    requires
        app.wf(),
    ensures
        app.listed().len() == app.tools.len(),
        forall|i: int|
            0 <= i < app.tools.len() ==> {
                &&& (#[trigger] app.listed()[i]) == app.tools[i].listed()
                &&& tools::normal_lookup(app.listed()[i].lookup) == app.listed()[i].lookup
            },
        forall|i: int, j: int|
            0 <= i < j < app.tools.len() ==> (#[trigger] app.listed()[i]).name != (
            #[trigger] app.listed()[j]).name,
{
    assert forall|i: int| 0 <= i < app.tools.len() implies {
        &&& (#[trigger] app.listed()[i]) == app.tools[i].listed()
        &&& tools::normal_lookup(app.listed()[i].lookup) == app.listed()[i].lookup
    } by {
        assert(app.tools[i].normalized() == app.tools[i]);
    }
}

/// A customer that was authorized stays so until the credential expires, and no
/// longer.
pub proof fn law_authorized_until_expiry(
    app: QefroView,
    customer: JsonView,
    auth: AuthenticationContextPayloadView,
    conversation_id: u128,
    call: Option<PendingInvocationView>,
    draw: Draw,
    now_ms: i64,
)
    requires
        expiry_fits(AuthOutcomeView::Success { customer, auth }, draw.now_ms as int),
    ensures
        ({
            let stored = stored_auth(customer, auth, draw.now_ms);
            consume_spec(
                app,
                AuthOutcomeView::Success { customer, auth },
                conversation_id,
                call,
                draw,
            ).0.fresh_auth(conversation_id, now_ms) == (if now_ms < draw.now_ms + lifetime_secs(auth)
                * 1000 {
                Some(stored)
            } else {
                None
            })
        }),
{
}

/// An authorization in one conversation leaves every other conversation as it is.
pub proof fn law_authorization_is_per_conversation(
    app: QefroView,
    outcome: AuthOutcomeView,
    conversation_id: u128,
    call: Option<PendingInvocationView>,
    draw: Draw,
    other: u128,
    now_ms: i64,
)
    requires
        other != conversation_id,
    ensures
        consume_spec(app, outcome, conversation_id, call, draw).0.fresh_auth(other, now_ms)
            == app.fresh_auth(other, now_ms),
{
}

} // verus!

