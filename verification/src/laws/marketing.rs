//! Laws of marketing definitions: which are accepted, what is kept of them, and what
//! is said of the others.

use crate::json::JsonView;
use crate::marketing;
use crate::marketing::{
    MarketingAction, MarketingActionView, MarketingAudience, MarketingAudienceView,
    MarketingChannel, MarketingChannelView, MarketingDefinitionView, MarketingEntry,
    MarketingError, MarketingLandingPage, MarketingLandingPageView, MarketingRegistrationView,
    MarketingVariable, MarketingVariableView,
};
use crate::text;
use vstd::prelude::*;

verus! {

/// An optional text is kept without the whitespace around it, exactly where it is
/// given and not blank.
pub open spec fn keeps_text(kept: Option<Seq<char>>, given: Option<Seq<char>>) -> bool {
    &&& kept is Some <==> given is Some && text::trim_spec(given->0).len() > 0
    &&& kept is Some ==> kept->0 == text::trim_spec(given->0)
}

/// An audience is kept with all its fields.
pub open spec fn keeps_audience(kept: MarketingAudienceView, given: MarketingAudienceView) -> bool {
    &&& kept.id == text::trim_spec(given.id)
    &&& kept.label == text::trim_spec(given.label)
    &&& keeps_text(kept.description, given.description)
    &&& kept.source == text::trim_spec(given.source)
    &&& kept.customer_hub == given.customer_hub
    &&& kept.app_query is Some <==> given.app_query is Some
    &&& kept.app_query is Some ==> kept.app_query->0.tool == text::trim_spec(
        given.app_query->0.tool,
    ) && kept.app_query->0.input == given.app_query->0.input
    &&& kept.static_filter == given.static_filter
}

/// A variable is kept with all its fields.
pub open spec fn keeps_variable(kept: MarketingVariableView, given: MarketingVariableView) -> bool {
    &&& kept.id == text::trim_spec(given.id)
    &&& kept.label == text::trim_spec(given.label)
    &&& kept.var_type == text::trim_spec(given.var_type)
    &&& kept.source == text::trim_spec(given.source)
    &&& keeps_text(kept.path, given.path)
    &&& kept.required == given.required
}

/// An action is kept with all its fields.
pub open spec fn keeps_action(kept: MarketingActionView, given: MarketingActionView) -> bool {
    &&& kept.id == text::trim_spec(given.id)
    &&& kept.label == text::trim_spec(given.label)
    &&& kept.kind == text::trim_spec(given.kind)
    &&& keeps_text(kept.landing_page_id, given.landing_page_id)
    &&& keeps_text(kept.url_template, given.url_template)
    &&& kept.payload == given.payload
}

/// A landing page is kept with all its fields.
pub open spec fn keeps_page(
    kept: MarketingLandingPageView,
    given: MarketingLandingPageView,
) -> bool {
    &&& kept.id == text::trim_spec(given.id)
    &&& kept.label == text::trim_spec(given.label)
    &&& kept.path == text::trim_spec(given.path)
    &&& kept.host == text::trim_spec(given.host)
}

/// A channel is kept with all its fields.
pub open spec fn keeps_channel(kept: MarketingChannelView, given: MarketingChannelView) -> bool {
    &&& kept.id == text::trim_spec(given.id)
    &&& keeps_text(kept.provider, given.provider)
    &&& keeps_text(kept.label, given.label)
    &&& kept.enabled == given.enabled
}

/// A registration has every entry of the definition, in order and with all its
/// fields: text without the whitespace around it, and what is absent or blank
/// absent. It has the version of the definition, or the first where that has none.
pub proof fn law_registration_keeps(def: MarketingDefinitionView, i: int)
    ensures
        ({
            let reg: MarketingRegistrationView = def.registration();
            &&& def.version is Some ==> reg.version == def.version->0
            &&& def.version is None ==> reg.version == 1
            &&& reg.audiences.len() == def.audiences.len()
            &&& reg.variables.len() == def.variables.len()
            &&& reg.actions.len() == def.actions.len()
            &&& reg.landing_pages.len() == def.landing_pages.len()
            &&& reg.channels.len() == def.channels.len()
            &&& 0 <= i < def.audiences.len() ==> keeps_audience(reg.audiences[i], def.audiences[i])
            &&& 0 <= i < def.variables.len() ==> keeps_variable(reg.variables[i], def.variables[i])
            &&& 0 <= i < def.actions.len() ==> keeps_action(reg.actions[i], def.actions[i])
            &&& 0 <= i < def.landing_pages.len() ==> keeps_page(
                reg.landing_pages[i],
                def.landing_pages[i],
            )
            &&& 0 <= i < def.channels.len() ==> keeps_channel(reg.channels[i], def.channels[i])
        }),
{
}

/// Each entry by itself is kept with all its fields.
pub proof fn law_entries_kept(
    audience: MarketingAudienceView,
    variable: MarketingVariableView,
    action: MarketingActionView,
    page: MarketingLandingPageView,
    channel: MarketingChannelView,
)
    ensures
        keeps_audience(MarketingAudience::entry_normal(audience), audience),
        keeps_variable(MarketingVariable::entry_normal(variable), variable),
        keeps_action(MarketingAction::entry_normal(action), action),
        keeps_page(MarketingLandingPage::entry_normal(page), page),
        keeps_channel(MarketingChannel::entry_normal(channel), channel),
{
}

/// A registration is advertised with its version and all its entries.
pub proof fn law_capability_keeps(reg: MarketingRegistrationView)
    ensures
        reg.capability().version == reg.version,
        reg.capability().metadata.audiences == reg.audiences,
        reg.capability().metadata.variables == reg.variables,
        reg.capability().metadata.actions == reg.actions,
        reg.capability().metadata.landing_pages == reg.landing_pages,
        reg.capability().metadata.channels == reg.channels,
{
}

/// A text that is not blank.
pub open spec fn is_filled(s: Seq<char>) -> bool {
    text::trim_spec(s).len() > 0
}

/// An audience that is accepted: it has an id and a label, a source that is known,
/// and a tool where it asks the app.
pub open spec fn accepts_audience(v: MarketingAudienceView) -> bool {
    let source = text::trim_spec(v.source);
    &&& is_filled(v.id)
    &&& is_filled(v.label)
    &&& source == "customer_hub"@ || source == "app_query"@ || source == "static_filter"@
    &&& v.app_query is Some ==> is_filled(v.app_query->0.tool)
}

/// A variable that is accepted: it has an id and a label, and a type and a source
/// that are known.
pub open spec fn accepts_variable(v: MarketingVariableView) -> bool {
    let kind = text::trim_spec(v.var_type);
    let source = text::trim_spec(v.source);
    &&& is_filled(v.id)
    &&& is_filled(v.label)
    &&& kind == "string"@ || kind == "number"@ || kind == "datetime"@ || kind == "boolean"@ || kind
        == "url"@ || kind == "currency"@
    &&& source == "customer_hub"@ || source == "app_context"@ || source == "campaign"@ || source
        == "literal"@
}

/// An action that is accepted: it has an id and a label, and a kind that is known.
pub open spec fn accepts_action(v: MarketingActionView) -> bool {
    let kind = text::trim_spec(v.kind);
    &&& is_filled(v.id)
    &&& is_filled(v.label)
    &&& kind == "url"@ || kind == "deep_link"@ || kind == "quick_reply"@ || kind
        == "whatsapp_cta"@ || kind == "postback"@
}

/// A landing page that is accepted: it has an id, a label and a path, and a host
/// that is known.
pub open spec fn accepts_page(v: MarketingLandingPageView) -> bool {
    let host = text::trim_spec(v.host);
    &&& is_filled(v.id)
    &&& is_filled(v.label)
    &&& is_filled(v.path)
    &&& host == "app"@ || host == "platform"@
}

/// A channel that is accepted: it has an id.
pub open spec fn accepts_channel(v: MarketingChannelView) -> bool {
    is_filled(v.id)
}

proof fn lemma_words()
    ensures
        "customer_hub"@.len() > 0,
        "app_query"@.len() > 0,
        "static_filter"@.len() > 0,
        "string"@.len() > 0,
        "number"@.len() > 0,
        "datetime"@.len() > 0,
        "boolean"@.len() > 0,
        "url"@.len() > 0,
        "currency"@.len() > 0,
        "app_context"@.len() > 0,
        "campaign"@.len() > 0,
        "literal"@.len() > 0,
        "deep_link"@.len() > 0,
        "quick_reply"@.len() > 0,
        "whatsapp_cta"@.len() > 0,
        "postback"@.len() > 0,
        "app"@.len() > 0,
        "platform"@.len() > 0,
{
    reveal_strlit("customer_hub");
    reveal_strlit("app_query");
    reveal_strlit("static_filter");
    reveal_strlit("string");
    reveal_strlit("number");
    reveal_strlit("datetime");
    reveal_strlit("boolean");
    reveal_strlit("url");
    reveal_strlit("currency");
    reveal_strlit("app_context");
    reveal_strlit("campaign");
    reveal_strlit("literal");
    reveal_strlit("deep_link");
    reveal_strlit("quick_reply");
    reveal_strlit("whatsapp_cta");
    reveal_strlit("postback");
    reveal_strlit("app");
    reveal_strlit("platform");
}

/// Each entry is accepted exactly where it has what it needs, wherever it stands.
pub proof fn law_entries_accepted(
    audience: MarketingAudienceView,
    variable: MarketingVariableView,
    action: MarketingActionView,
    page: MarketingLandingPageView,
    channel: MarketingChannelView,
    index: nat,
)
    ensures
        MarketingAudience::entry_error(audience, index) is None <==> accepts_audience(audience),
        MarketingVariable::entry_error(variable, index) is None <==> accepts_variable(variable),
        MarketingAction::entry_error(action, index) is None <==> accepts_action(action),
        MarketingLandingPage::entry_error(page, index) is None <==> accepts_page(page),
        MarketingChannel::entry_error(channel, index) is None <==> accepts_channel(channel),
{
    lemma_words();
}

/// Entry `i` is the first of a list with an error.
pub open spec fn is_first_error<T: MarketingEntry>(list: Seq<T::V>, i: int) -> bool {
    &&& 0 <= i < list.len()
    &&& T::entry_error(list[i], i as nat) is Some
    &&& forall|j: int| 0 <= j < i ==> T::entry_error(#[trigger] list[j], j as nat) is None
}

proof fn lemma_list_error<T: MarketingEntry>(list: Seq<T::V>)
    ensures
        marketing::list_error::<T>(list) is None <==> forall|i: int|
            0 <= i < list.len() ==> T::entry_error(#[trigger] list[i], i as nat) is None,
        marketing::list_error::<T>(list) is Some ==> exists|i: int| #[trigger]
            is_first_error::<T>(list, i) && marketing::list_error::<T>(list) == T::entry_error(
                list[i],
                i as nat,
            ),
    decreases list.len(),
{
    if list.len() > 0 {
        let shorter = list.drop_last();
        let n = list.len() - 1;
        lemma_list_error::<T>(shorter);
        assert(list.last() == list[n]);
        assert forall|i: int| 0 <= i < n implies #[trigger] list[i] == shorter[i] by {}
        if marketing::list_error::<T>(shorter) is Some {
            let i = choose|i: int| #[trigger]
                is_first_error::<T>(shorter, i) && marketing::list_error::<T>(shorter)
                    == T::entry_error(shorter[i], i as nat);
            assert(list[i] == shorter[i]);
            assert forall|j: int| 0 <= j < i implies T::entry_error(
                #[trigger] list[j],
                j as nat,
            ) is None by {
                assert(list[j] == shorter[j]);
            }
            assert(is_first_error::<T>(list, i));
        } else {
            assert forall|j: int| 0 <= j < n implies T::entry_error(
                #[trigger] list[j],
                j as nat,
            ) is None by {
                assert(list[j] == shorter[j]);
            }
            if T::entry_error(list[n], n as nat) is Some {
                assert(is_first_error::<T>(list, n));
            }
        }
    }
}

/// A definition that is accepted: its version is not zero, each entry has what it
/// needs, no two entries of a list have the same id, and every landing page that an
/// action names is there.
pub open spec fn accepts(def: MarketingDefinitionView) -> bool {
    &&& def.version != Some(0u32)
    &&& forall|i: int| 0 <= i < def.audiences.len() ==> accepts_audience(#[trigger] def.audiences[i])
    &&& forall|i: int| 0 <= i < def.variables.len() ==> accepts_variable(#[trigger] def.variables[i])
    &&& forall|i: int| 0 <= i < def.actions.len() ==> accepts_action(#[trigger] def.actions[i])
    &&& forall|i: int|
        0 <= i < def.landing_pages.len() ==> accepts_page(#[trigger] def.landing_pages[i])
    &&& forall|i: int| 0 <= i < def.channels.len() ==> accepts_channel(#[trigger] def.channels[i])
    &&& forall|i: int, j: int|
        0 <= i < j < def.audiences.len() ==> text::trim_spec((#[trigger] def.audiences[i]).id)
            != text::trim_spec((#[trigger] def.audiences[j]).id)
    &&& forall|i: int, j: int|
        0 <= i < j < def.variables.len() ==> text::trim_spec((#[trigger] def.variables[i]).id)
            != text::trim_spec((#[trigger] def.variables[j]).id)
    &&& forall|i: int, j: int|
        0 <= i < j < def.actions.len() ==> text::trim_spec((#[trigger] def.actions[i]).id)
            != text::trim_spec((#[trigger] def.actions[j]).id)
    &&& forall|i: int, j: int|
        0 <= i < j < def.landing_pages.len() ==> text::trim_spec((#[trigger] def.landing_pages[i]).id)
            != text::trim_spec((#[trigger] def.landing_pages[j]).id)
    &&& forall|i: int, j: int|
        0 <= i < j < def.channels.len() ==> text::trim_spec((#[trigger] def.channels[i]).id)
            != text::trim_spec((#[trigger] def.channels[j]).id)
    &&& forall|i: int|
        0 <= i < def.actions.len() && (#[trigger] def.actions[i]).landing_page_id is Some
            && is_filled(def.actions[i].landing_page_id->0) ==> exists|j: int|
            0 <= j < def.landing_pages.len() && text::trim_spec(
                (#[trigger] def.landing_pages[j]).id,
            ) == text::trim_spec(def.actions[i].landing_page_id->0)
}

proof fn lemma_audience_ids(def: MarketingDefinitionView)
    ensures
        marketing::list_ids::<MarketingAudience>(def.registration().audiences).no_duplicates() <==> (forall|
            i: int,
            j: int,
        |
            0 <= i < j < def.audiences.len() ==> text::trim_spec((#[trigger] def.audiences[i]).id)
                != text::trim_spec((#[trigger] def.audiences[j]).id)),
{
    let ids = marketing::list_ids::<MarketingAudience>(def.registration().audiences);
    assert(ids.len() == def.audiences.len());
    assert forall|i: int| 0 <= i < ids.len() implies #[trigger] ids[i] == text::trim_spec(
        def.audiences[i].id,
    ) by {}
    if ids.no_duplicates() {
        assert forall|i: int, j: int| 0 <= i < j < def.audiences.len() implies text::trim_spec(
            (#[trigger] def.audiences[i]).id,
        ) != text::trim_spec((#[trigger] def.audiences[j]).id) by {
            assert(ids[i] != ids[j]);
        }
    }
    if forall|i: int, j: int|
        0 <= i < j < def.audiences.len() ==> text::trim_spec((#[trigger] def.audiences[i]).id)
            != text::trim_spec((#[trigger] def.audiences[j]).id) {
        assert forall|i: int, j: int|
            0 <= i < ids.len() && 0 <= j < ids.len() && i != j implies ids[i] != ids[j] by {
            if i < j {
                assert(text::trim_spec(def.audiences[i].id) != text::trim_spec(def.audiences[j].id));
            } else {
                assert(text::trim_spec(def.audiences[j].id) != text::trim_spec(def.audiences[i].id));
            }
        }
    }
}

proof fn lemma_variable_ids(def: MarketingDefinitionView)
    ensures
        marketing::list_ids::<MarketingVariable>(def.registration().variables).no_duplicates() <==> (forall|
            i: int,
            j: int,
        |
            0 <= i < j < def.variables.len() ==> text::trim_spec((#[trigger] def.variables[i]).id)
                != text::trim_spec((#[trigger] def.variables[j]).id)),
{
    let ids = marketing::list_ids::<MarketingVariable>(def.registration().variables);
    assert(ids.len() == def.variables.len());
    assert forall|i: int| 0 <= i < ids.len() implies #[trigger] ids[i] == text::trim_spec(
        def.variables[i].id,
    ) by {}
    if ids.no_duplicates() {
        assert forall|i: int, j: int| 0 <= i < j < def.variables.len() implies text::trim_spec(
            (#[trigger] def.variables[i]).id,
        ) != text::trim_spec((#[trigger] def.variables[j]).id) by {
            assert(ids[i] != ids[j]);
        }
    }
    if forall|i: int, j: int|
        0 <= i < j < def.variables.len() ==> text::trim_spec((#[trigger] def.variables[i]).id)
            != text::trim_spec((#[trigger] def.variables[j]).id) {
        assert forall|i: int, j: int|
            0 <= i < ids.len() && 0 <= j < ids.len() && i != j implies ids[i] != ids[j] by {
            if i < j {
                assert(text::trim_spec(def.variables[i].id) != text::trim_spec(def.variables[j].id));
            } else {
                assert(text::trim_spec(def.variables[j].id) != text::trim_spec(def.variables[i].id));
            }
        }
    }
}

proof fn lemma_action_ids(def: MarketingDefinitionView)
    ensures
        marketing::list_ids::<MarketingAction>(def.registration().actions).no_duplicates() <==> (forall|
            i: int,
            j: int,
        |
            0 <= i < j < def.actions.len() ==> text::trim_spec((#[trigger] def.actions[i]).id)
                != text::trim_spec((#[trigger] def.actions[j]).id)),
{
    let ids = marketing::list_ids::<MarketingAction>(def.registration().actions);
    assert(ids.len() == def.actions.len());
    assert forall|i: int| 0 <= i < ids.len() implies #[trigger] ids[i] == text::trim_spec(
        def.actions[i].id,
    ) by {}
    if ids.no_duplicates() {
        assert forall|i: int, j: int| 0 <= i < j < def.actions.len() implies text::trim_spec(
            (#[trigger] def.actions[i]).id,
        ) != text::trim_spec((#[trigger] def.actions[j]).id) by {
            assert(ids[i] != ids[j]);
        }
    }
    if forall|i: int, j: int|
        0 <= i < j < def.actions.len() ==> text::trim_spec((#[trigger] def.actions[i]).id)
            != text::trim_spec((#[trigger] def.actions[j]).id) {
        assert forall|i: int, j: int|
            0 <= i < ids.len() && 0 <= j < ids.len() && i != j implies ids[i] != ids[j] by {
            if i < j {
                assert(text::trim_spec(def.actions[i].id) != text::trim_spec(def.actions[j].id));
            } else {
                assert(text::trim_spec(def.actions[j].id) != text::trim_spec(def.actions[i].id));
            }
        }
    }
}

proof fn lemma_page_ids(def: MarketingDefinitionView)
    ensures
        marketing::list_ids::<MarketingLandingPage>(def.registration().landing_pages).no_duplicates() <==> (forall|
            i: int,
            j: int,
        |
            0 <= i < j < def.landing_pages.len() ==> text::trim_spec((#[trigger] def.landing_pages[i]).id)
                != text::trim_spec((#[trigger] def.landing_pages[j]).id)),
{
    let ids = marketing::list_ids::<MarketingLandingPage>(def.registration().landing_pages);
    assert(ids.len() == def.landing_pages.len());
    assert forall|i: int| 0 <= i < ids.len() implies #[trigger] ids[i] == text::trim_spec(
        def.landing_pages[i].id,
    ) by {}
    if ids.no_duplicates() {
        assert forall|i: int, j: int| 0 <= i < j < def.landing_pages.len() implies text::trim_spec(
            (#[trigger] def.landing_pages[i]).id,
        ) != text::trim_spec((#[trigger] def.landing_pages[j]).id) by {
            assert(ids[i] != ids[j]);
        }
    }
    if forall|i: int, j: int|
        0 <= i < j < def.landing_pages.len() ==> text::trim_spec((#[trigger] def.landing_pages[i]).id)
            != text::trim_spec((#[trigger] def.landing_pages[j]).id) {
        assert forall|i: int, j: int|
            0 <= i < ids.len() && 0 <= j < ids.len() && i != j implies ids[i] != ids[j] by {
            if i < j {
                assert(text::trim_spec(def.landing_pages[i].id) != text::trim_spec(def.landing_pages[j].id));
            } else {
                assert(text::trim_spec(def.landing_pages[j].id) != text::trim_spec(def.landing_pages[i].id));
            }
        }
    }
}

proof fn lemma_channel_ids(def: MarketingDefinitionView)
    ensures
        marketing::list_ids::<MarketingChannel>(def.registration().channels).no_duplicates() <==> (forall|
            i: int,
            j: int,
        |
            0 <= i < j < def.channels.len() ==> text::trim_spec((#[trigger] def.channels[i]).id)
                != text::trim_spec((#[trigger] def.channels[j]).id)),
{
    let ids = marketing::list_ids::<MarketingChannel>(def.registration().channels);
    assert(ids.len() == def.channels.len());
    assert forall|i: int| 0 <= i < ids.len() implies #[trigger] ids[i] == text::trim_spec(
        def.channels[i].id,
    ) by {}
    if ids.no_duplicates() {
        assert forall|i: int, j: int| 0 <= i < j < def.channels.len() implies text::trim_spec(
            (#[trigger] def.channels[i]).id,
        ) != text::trim_spec((#[trigger] def.channels[j]).id) by {
            assert(ids[i] != ids[j]);
        }
    }
    if forall|i: int, j: int|
        0 <= i < j < def.channels.len() ==> text::trim_spec((#[trigger] def.channels[i]).id)
            != text::trim_spec((#[trigger] def.channels[j]).id) {
        assert forall|i: int, j: int|
            0 <= i < ids.len() && 0 <= j < ids.len() && i != j implies ids[i] != ids[j] by {
            if i < j {
                assert(text::trim_spec(def.channels[i].id) != text::trim_spec(def.channels[j].id));
            } else {
                assert(text::trim_spec(def.channels[j].id) != text::trim_spec(def.channels[i].id));
            }
        }
    }
}

proof fn lemma_pages(def: MarketingDefinitionView)
    ensures
        marketing::landing_error(
            def.registration().actions,
            marketing::list_ids::<MarketingLandingPage>(def.registration().landing_pages),
        ) is None <==> (forall|i: int|
            0 <= i < def.actions.len() && (#[trigger] def.actions[i]).landing_page_id is Some
                && is_filled(def.actions[i].landing_page_id->0) ==> exists|j: int|
                0 <= j < def.landing_pages.len() && text::trim_spec(
                    (#[trigger] def.landing_pages[j]).id,
                ) == text::trim_spec(def.actions[i].landing_page_id->0)),
{
    let reg = def.registration();
    let ids = marketing::list_ids::<MarketingLandingPage>(reg.landing_pages);
    marketing::lemma_landing_pages(reg.actions, ids);
    assert(ids.len() == def.landing_pages.len());
    assert forall|j: int| 0 <= j < ids.len() implies #[trigger] ids[j] == text::trim_spec(
        def.landing_pages[j].id,
    ) by {}
    assert forall|i: int| 0 <= i < def.actions.len() implies keeps_action(
        #[trigger] reg.actions[i],
        def.actions[i],
    ) by {}
    if marketing::landing_error(reg.actions, ids) is None {
        assert forall|i: int|
            0 <= i < def.actions.len() && (#[trigger] def.actions[i]).landing_page_id is Some
                && is_filled(def.actions[i].landing_page_id->0) implies exists|j: int|
            0 <= j < def.landing_pages.len() && text::trim_spec(
                (#[trigger] def.landing_pages[j]).id,
            ) == text::trim_spec(def.actions[i].landing_page_id->0) by {
            assert(keeps_action(reg.actions[i], def.actions[i]));
            let page = reg.actions[i].landing_page_id->0;
            assert(ids.contains(page));
            let j = choose|j: int| 0 <= j < ids.len() && ids[j] == page;
            assert(text::trim_spec(def.landing_pages[j].id) == page);
        }
    }
    if forall|i: int|
        0 <= i < def.actions.len() && (#[trigger] def.actions[i]).landing_page_id is Some
            && is_filled(def.actions[i].landing_page_id->0) ==> exists|j: int|
            0 <= j < def.landing_pages.len() && text::trim_spec(
                (#[trigger] def.landing_pages[j]).id,
            ) == text::trim_spec(def.actions[i].landing_page_id->0) {
        assert forall|i: int| 0 <= i < reg.actions.len() implies {
            let page = (#[trigger] reg.actions[i]).landing_page_id;
            page is Some ==> ids.contains(page->0)
        } by {
            assert(keeps_action(reg.actions[i], def.actions[i]));
            if reg.actions[i].landing_page_id is Some {
                let given = def.actions[i];
                let j = choose|j: int|
                    0 <= j < def.landing_pages.len() && text::trim_spec(
                        (#[trigger] def.landing_pages[j]).id,
                    ) == text::trim_spec(given.landing_page_id->0);
                assert(ids[j] == reg.actions[i].landing_page_id->0);
            }
        }
    }
}

/// A definition is accepted exactly where nothing is wrong with it.
pub proof fn law_definition_accepted(def: MarketingDefinitionView)
    ensures
        def.error() is None <==> accepts(def),
{
    let reg = def.registration();
    lemma_words();
    lemma_list_error::<MarketingAudience>(def.audiences);
    lemma_audience_ids(def);
    marketing::lemma_unique_ids(marketing::list_ids::<MarketingAudience>(reg.audiences), "audience"@);
    assert forall|i: int| 0 <= i < def.audiences.len() implies (MarketingAudience::entry_error(
        #[trigger] def.audiences[i],
        i as nat,
    ) is None <==> accepts_audience(def.audiences[i])) by {}
    assert(marketing::list_error::<MarketingAudience>(def.audiences) is None <==> forall|i: int|
        0 <= i < def.audiences.len() ==> accepts_audience(#[trigger] def.audiences[i]));
    lemma_list_error::<MarketingVariable>(def.variables);
    lemma_variable_ids(def);
    marketing::lemma_unique_ids(marketing::list_ids::<MarketingVariable>(reg.variables), "variable"@);
    assert forall|i: int| 0 <= i < def.variables.len() implies (MarketingVariable::entry_error(
        #[trigger] def.variables[i],
        i as nat,
    ) is None <==> accepts_variable(def.variables[i])) by {}
    assert(marketing::list_error::<MarketingVariable>(def.variables) is None <==> forall|i: int|
        0 <= i < def.variables.len() ==> accepts_variable(#[trigger] def.variables[i]));
    lemma_list_error::<MarketingAction>(def.actions);
    lemma_action_ids(def);
    marketing::lemma_unique_ids(marketing::list_ids::<MarketingAction>(reg.actions), "action"@);
    assert forall|i: int| 0 <= i < def.actions.len() implies (MarketingAction::entry_error(
        #[trigger] def.actions[i],
        i as nat,
    ) is None <==> accepts_action(def.actions[i])) by {}
    assert(marketing::list_error::<MarketingAction>(def.actions) is None <==> forall|i: int|
        0 <= i < def.actions.len() ==> accepts_action(#[trigger] def.actions[i]));
    lemma_list_error::<MarketingLandingPage>(def.landing_pages);
    lemma_page_ids(def);
    marketing::lemma_unique_ids(marketing::list_ids::<MarketingLandingPage>(reg.landing_pages), "landingPage"@);
    assert forall|i: int| 0 <= i < def.landing_pages.len() implies (MarketingLandingPage::entry_error(
        #[trigger] def.landing_pages[i],
        i as nat,
    ) is None <==> accepts_page(def.landing_pages[i])) by {}
    assert(marketing::list_error::<MarketingLandingPage>(def.landing_pages) is None <==> forall|i: int|
        0 <= i < def.landing_pages.len() ==> accepts_page(#[trigger] def.landing_pages[i]));
    lemma_list_error::<MarketingChannel>(def.channels);
    lemma_channel_ids(def);
    marketing::lemma_unique_ids(marketing::list_ids::<MarketingChannel>(reg.channels), "channel"@);
    assert forall|i: int| 0 <= i < def.channels.len() implies (MarketingChannel::entry_error(
        #[trigger] def.channels[i],
        i as nat,
    ) is None <==> accepts_channel(def.channels[i])) by {}
    assert(marketing::list_error::<MarketingChannel>(def.channels) is None <==> forall|i: int|
        0 <= i < def.channels.len() ==> accepts_channel(#[trigger] def.channels[i]));
    lemma_pages(def);
}

/// The place of a field, as messages name it.
pub open spec fn place(list: Seq<char>, index: nat, field: Seq<char>) -> Seq<char> {
    list + "["@ + text::decimal_spec(index) + "]."@ + field
}

/// The message of a refusal says that a field is blank.
pub open spec fn says_blank(
    message: Option<Seq<char>>,
    list: Seq<char>,
    index: nat,
    field: Seq<char>,
) -> bool {
    message == Some(
        "marketing: "@ + place(list, index, field) + " must be a non-empty string"@,
    )
}

/// The message of a refusal says which words a field may have.
pub open spec fn says_choice(
    message: Option<Seq<char>>,
    list: Seq<char>,
    index: nat,
    field: Seq<char>,
    words: Seq<char>,
) -> bool {
    message == Some("marketing: "@ + place(list, index, field) + " must be one of "@ + words)
}

/// The first thing wrong with an audience is said: which field it is, where the entry stands
/// in its list, and what the field may be.
pub proof fn law_audience_message(v: MarketingAudienceView, index: nat)
    ensures
        ({
            let m = MarketingAudience::entry_error(v, index);
            let source = text::trim_spec(v.source);
            let known_source = source == "customer_hub"@ || source == "app_query"@
                || source == "static_filter"@;
            &&& !is_filled(v.id) ==> says_blank(m, "audiences"@, index, "id"@)
            &&& is_filled(v.id) && !is_filled(v.label)
                ==> says_blank(m, "audiences"@, index, "label"@)
            &&& is_filled(v.id) && is_filled(v.label) && !is_filled(v.source)
                ==> says_blank(m, "audiences"@, index, "source"@)
            &&& is_filled(v.id) && is_filled(v.label) && is_filled(v.source) && !known_source ==> says_choice(
                m,
                "audiences"@,
                index,
                "source"@,
                "customer_hub|app_query|static_filter"@,
            )
            &&& is_filled(v.id) && is_filled(v.label) && known_source && v.app_query is Some && !is_filled(
                v.app_query->0.tool,
            ) ==> says_blank(m, "audiences"@, index, "appQuery.tool"@)
        }),
{
    lemma_words();
}

/// The first thing wrong with a variable is said: which field it is, where the entry stands
/// in its list, and what the field may be.
pub proof fn law_variable_message(v: MarketingVariableView, index: nat)
    ensures
        ({
            let m = MarketingVariable::entry_error(v, index);
            let var_type = text::trim_spec(v.var_type);
            let known_var_type = var_type == "string"@ || var_type == "number"@ || var_type == "datetime"@
                || var_type == "boolean"@ || var_type == "url"@ || var_type == "currency"@;
            let source = text::trim_spec(v.source);
            let known_source = source == "customer_hub"@ || source == "app_context"@ || source == "campaign"@
                || source == "literal"@;
            &&& !is_filled(v.id) ==> says_blank(m, "variables"@, index, "id"@)
            &&& is_filled(v.id) && !is_filled(v.label)
                ==> says_blank(m, "variables"@, index, "label"@)
            &&& is_filled(v.id) && is_filled(v.label) && !is_filled(v.var_type)
                ==> says_blank(m, "variables"@, index, "type"@)
            &&& is_filled(v.id) && is_filled(v.label) && is_filled(v.var_type) && !known_var_type ==> says_choice(
                m,
                "variables"@,
                index,
                "type"@,
                "string|number|datetime|boolean|url|currency"@,
            )
            &&& is_filled(v.id) && is_filled(v.label) && known_var_type && !is_filled(v.source)
                ==> says_blank(m, "variables"@, index, "source"@)
            &&& is_filled(v.id) && is_filled(v.label) && known_var_type && is_filled(v.source) && !known_source ==> says_choice(
                m,
                "variables"@,
                index,
                "source"@,
                "customer_hub|app_context|campaign|literal"@,
            )
        }),
{
    lemma_words();
}

/// The first thing wrong with an action is said: which field it is, where the entry stands
/// in its list, and what the field may be.
pub proof fn law_action_message(v: MarketingActionView, index: nat)
    ensures
        ({
            let m = MarketingAction::entry_error(v, index);
            let kind = text::trim_spec(v.kind);
            let known_kind = kind == "url"@ || kind == "deep_link"@ || kind == "quick_reply"@
                || kind == "whatsapp_cta"@ || kind == "postback"@;
            &&& !is_filled(v.id) ==> says_blank(m, "actions"@, index, "id"@)
            &&& is_filled(v.id) && !is_filled(v.label)
                ==> says_blank(m, "actions"@, index, "label"@)
            &&& is_filled(v.id) && is_filled(v.label) && !is_filled(v.kind)
                ==> says_blank(m, "actions"@, index, "kind"@)
            &&& is_filled(v.id) && is_filled(v.label) && is_filled(v.kind) && !known_kind ==> says_choice(
                m,
                "actions"@,
                index,
                "kind"@,
                "url|deep_link|quick_reply|whatsapp_cta|postback"@,
            )
        }),
{
    lemma_words();
}

/// The first thing wrong with a landing page is said: which field it is, where the entry stands
/// in its list, and what the field may be.
pub proof fn law_page_message(v: MarketingLandingPageView, index: nat)
    ensures
        ({
            let m = MarketingLandingPage::entry_error(v, index);
            let host = text::trim_spec(v.host);
            let known_host = host == "app"@ || host == "platform"@;
            &&& !is_filled(v.id) ==> says_blank(m, "landingPages"@, index, "id"@)
            &&& is_filled(v.id) && !is_filled(v.label)
                ==> says_blank(m, "landingPages"@, index, "label"@)
            &&& is_filled(v.id) && is_filled(v.label) && !is_filled(v.path)
                ==> says_blank(m, "landingPages"@, index, "path"@)
            &&& is_filled(v.id) && is_filled(v.label) && is_filled(v.path) && !is_filled(v.host)
                ==> says_blank(m, "landingPages"@, index, "host"@)
            &&& is_filled(v.id) && is_filled(v.label) && is_filled(v.path) && is_filled(v.host) && !known_host ==> says_choice(
                m,
                "landingPages"@,
                index,
                "host"@,
                "app|platform"@,
            )
        }),
{
    lemma_words();
}

/// The first thing wrong with a channel is said: which field it is, where the entry stands
/// in its list, and what the field may be.
pub proof fn law_channel_message(v: MarketingChannelView, index: nat)
    ensures
        ({
            let m = MarketingChannel::entry_error(v, index);
            &&& !is_filled(v.id) ==> says_blank(m, "channels"@, index, "id"@)
        }),
{
    lemma_words();
}

/// What is wrong with a definition is said in order: its version, then the first
/// entry that is not accepted, list by list.
pub proof fn law_definition_message(def: MarketingDefinitionView)
    ensures
        ({
            let m = def.error();
            let audiences = forall|i: int|
                0 <= i < def.audiences.len() ==> accepts_audience(#[trigger] def.audiences[i]);
            let variables = forall|i: int|
                0 <= i < def.variables.len() ==> accepts_variable(#[trigger] def.variables[i]);
            let actions = forall|i: int|
                0 <= i < def.actions.len() ==> accepts_action(#[trigger] def.actions[i]);
            let pages = forall|i: int|
                0 <= i < def.landing_pages.len() ==> accepts_page(#[trigger] def.landing_pages[i]);
            &&& def.version == Some(0u32) ==> m == Some(
                "marketing: version must be a positive integer"@,
            )
            &&& def.version != Some(0u32) && !audiences ==> exists|i: int| #[trigger]
                is_first_error::<MarketingAudience>(def.audiences, i) && m
                    == MarketingAudience::entry_error(def.audiences[i], i as nat)
            &&& def.version != Some(0u32) && audiences && !variables ==> exists|i: int| #[trigger]
                is_first_error::<MarketingVariable>(def.variables, i) && m
                    == MarketingVariable::entry_error(def.variables[i], i as nat)
            &&& def.version != Some(0u32) && audiences && variables && !actions ==> exists|
                i: int,
            | #[trigger]
                is_first_error::<MarketingAction>(def.actions, i) && m
                    == MarketingAction::entry_error(def.actions[i], i as nat)
            &&& def.version != Some(0u32) && audiences && variables && actions && !pages
                ==> exists|i: int| #[trigger]
                is_first_error::<MarketingLandingPage>(def.landing_pages, i) && m
                    == MarketingLandingPage::entry_error(def.landing_pages[i], i as nat)
            &&& def.version != Some(0u32) && audiences && variables && actions && pages && !(
            forall|i: int|
                0 <= i < def.channels.len() ==> accepts_channel(#[trigger] def.channels[i]))
                ==> exists|i: int| #[trigger]
                is_first_error::<MarketingChannel>(def.channels, i) && m
                    == MarketingChannel::entry_error(def.channels[i], i as nat)
        }),
{
    lemma_words();
    lemma_list_error::<MarketingAudience>(def.audiences);
    assert forall|i: int| 0 <= i < def.audiences.len() implies (MarketingAudience::entry_error(
        #[trigger] def.audiences[i],
        i as nat,
    ) is None <==> accepts_audience(def.audiences[i])) by {}
    assert(marketing::list_error::<MarketingAudience>(def.audiences) is None <==> forall|i: int|
        0 <= i < def.audiences.len() ==> accepts_audience(#[trigger] def.audiences[i]));
    lemma_list_error::<MarketingVariable>(def.variables);
    assert forall|i: int| 0 <= i < def.variables.len() implies (MarketingVariable::entry_error(
        #[trigger] def.variables[i],
        i as nat,
    ) is None <==> accepts_variable(def.variables[i])) by {}
    assert(marketing::list_error::<MarketingVariable>(def.variables) is None <==> forall|i: int|
        0 <= i < def.variables.len() ==> accepts_variable(#[trigger] def.variables[i]));
    lemma_list_error::<MarketingAction>(def.actions);
    assert forall|i: int| 0 <= i < def.actions.len() implies (MarketingAction::entry_error(
        #[trigger] def.actions[i],
        i as nat,
    ) is None <==> accepts_action(def.actions[i])) by {}
    assert(marketing::list_error::<MarketingAction>(def.actions) is None <==> forall|i: int|
        0 <= i < def.actions.len() ==> accepts_action(#[trigger] def.actions[i]));
    lemma_list_error::<MarketingLandingPage>(def.landing_pages);
    assert forall|i: int| 0 <= i < def.landing_pages.len() implies (MarketingLandingPage::entry_error(
        #[trigger] def.landing_pages[i],
        i as nat,
    ) is None <==> accepts_page(def.landing_pages[i])) by {}
    assert(marketing::list_error::<MarketingLandingPage>(def.landing_pages) is None <==> forall|i: int|
        0 <= i < def.landing_pages.len() ==> accepts_page(#[trigger] def.landing_pages[i]));
    lemma_list_error::<MarketingChannel>(def.channels);
    assert forall|i: int| 0 <= i < def.channels.len() implies (MarketingChannel::entry_error(
        #[trigger] def.channels[i],
        i as nat,
    ) is None <==> accepts_channel(def.channels[i])) by {}
    assert(marketing::list_error::<MarketingChannel>(def.channels) is None <==> forall|i: int|
        0 <= i < def.channels.len() ==> accepts_channel(#[trigger] def.channels[i]));
}

/// Of ids that repeat the first one is said, and of which list it is.
pub proof fn law_duplicate_message(ids: Seq<Seq<char>>, kind: Seq<char>)
    ensures
        ids.no_duplicates() ==> marketing::unique_error(ids, kind) is None,
        !ids.no_duplicates() ==> exists|j: int|
            {
                &&& 0 <= j < ids.len()
                &&& #[trigger] ids.take(j).contains(ids[j])
                &&& ids.take(j).no_duplicates()
                &&& marketing::unique_error(ids, kind) == Some(
                    "marketing: duplicate "@ + kind + " id \""@ + ids[j] + "\""@,
                )
            },
    decreases ids.len(),
{
    marketing::lemma_unique_ids(ids, kind);
    if ids.len() > 0 && !ids.no_duplicates() {
        let shorter = ids.drop_last();
        let n = ids.len() - 1;
        marketing::lemma_unique_ids(shorter, kind);
        if !shorter.no_duplicates() {
            law_duplicate_message(shorter, kind);
            let j = choose|j: int|
                {
                    &&& 0 <= j < shorter.len()
                    &&& #[trigger] shorter.take(j).contains(shorter[j])
                    &&& shorter.take(j).no_duplicates()
                    &&& marketing::unique_error(shorter, kind) == Some(
                        "marketing: duplicate "@ + kind + " id \""@ + shorter[j] + "\""@,
                    )
                };
            assert(shorter.take(j) =~= ids.take(j));
            assert(ids[j] == shorter[j]);
            assert(ids.take(j).contains(ids[j]));
        } else {
            assert(shorter =~= ids.take(n));
            assert(ids.take(n).contains(ids[n]));
        }
    }
}

/// Once every entry is accepted, ids that repeat are said list by list, and then the
/// first action whose landing page is not there.
pub proof fn law_ids_before_pages(def: MarketingDefinitionView)
    requires
        def.version != Some(0u32),
        def.entries_error() is None,
    ensures
        ({
            let reg = def.registration();
            let m = def.error();
            let a = marketing::unique_error(
                reg.audiences.map_values(|v: MarketingAudienceView| v.id),
                "audience"@,
            );
            let b = marketing::unique_error(
                reg.variables.map_values(|v: MarketingVariableView| v.id),
                "variable"@,
            );
            let c = marketing::unique_error(
                reg.actions.map_values(|v: MarketingActionView| v.id),
                "action"@,
            );
            let pages = reg.landing_pages.map_values(|v: MarketingLandingPageView| v.id);
            let d = marketing::unique_error(pages, "landingPage"@);
            let e = marketing::unique_error(
                reg.channels.map_values(|v: MarketingChannelView| v.id),
                "channel"@,
            );
            &&& a is Some ==> m == a
            &&& a is None && b is Some ==> m == b
            &&& a is None && b is None && c is Some ==> m == c
            &&& a is None && b is None && c is None && d is Some ==> m == d
            &&& a is None && b is None && c is None && d is None && e is Some ==> m == e
            &&& a is None && b is None && c is None && d is None && e is None ==> m
                == marketing::landing_error(reg.actions, pages)
        }),
{
    let reg = def.registration();
    assert(reg.audiences.map_values(|v: MarketingAudienceView| v.id) =~= marketing::list_ids::<
        MarketingAudience,
    >(reg.audiences));
    assert(reg.variables.map_values(|v: MarketingVariableView| v.id) =~= marketing::list_ids::<
        MarketingVariable,
    >(reg.variables));
    assert(reg.actions.map_values(|v: MarketingActionView| v.id) =~= marketing::list_ids::<
        MarketingAction,
    >(reg.actions));
    assert(reg.landing_pages.map_values(|v: MarketingLandingPageView| v.id)
        =~= marketing::list_ids::<MarketingLandingPage>(reg.landing_pages));
    assert(reg.channels.map_values(|v: MarketingChannelView| v.id) =~= marketing::list_ids::<
        MarketingChannel,
    >(reg.channels));
}

/// Of actions whose landing page is not there the first is said, with the page.
pub proof fn law_missing_page_message(actions: Seq<MarketingActionView>, pages: Seq<Seq<char>>)
    requires
        marketing::landing_error(actions, pages) is Some,
    ensures
        exists|i: int|
            {
                &&& 0 <= i < actions.len()
                &&& (#[trigger] actions[i]).landing_page_id is Some
                &&& !pages.contains(actions[i].landing_page_id->0)
                &&& forall|j: int|
                    0 <= j < i && (#[trigger] actions[j]).landing_page_id is Some
                        ==> pages.contains(actions[j].landing_page_id->0)
                &&& marketing::landing_error(actions, pages) == Some(
                    "marketing: actions["@ + text::decimal_spec(i as nat)
                        + "].landingPageId \""@ + actions[i].landing_page_id->0
                        + "\" does not match any landingPages[].id"@,
                )
            },
    decreases actions.len(),
{
    if actions.len() > 0 {
        let shorter = actions.drop_last();
        let n = actions.len() - 1;
        assert(actions.last() == actions[n]);
        if marketing::landing_error(shorter, pages) is Some {
            law_missing_page_message(shorter, pages);
            let i = choose|i: int|
                {
                    &&& 0 <= i < shorter.len()
                    &&& (#[trigger] shorter[i]).landing_page_id is Some
                    &&& !pages.contains(shorter[i].landing_page_id->0)
                    &&& forall|j: int|
                        0 <= j < i && (#[trigger] shorter[j]).landing_page_id is Some
                            ==> pages.contains(shorter[j].landing_page_id->0)
                    &&& marketing::landing_error(shorter, pages) == Some(
                        "marketing: actions["@ + text::decimal_spec(i as nat)
                            + "].landingPageId \""@ + shorter[i].landing_page_id->0
                            + "\" does not match any landingPages[].id"@,
                    )
                };
            assert(actions[i] == shorter[i]);
            assert forall|j: int|
                0 <= j < i && (#[trigger] actions[j]).landing_page_id is Some implies pages.contains(
                actions[j].landing_page_id->0,
            ) by {
                assert(shorter[j] == actions[j]);
            }
        } else {
            marketing::lemma_landing_pages(shorter, pages);
            assert forall|j: int|
                0 <= j < n && (#[trigger] actions[j]).landing_page_id is Some implies pages.contains(
                actions[j].landing_page_id->0,
            ) by {
                assert(shorter[j] == actions[j]);
            }
            assert(actions[n].landing_page_id is Some);
        }
    }
}

/// A refusal is an error with the very message; and what one text must be is said of
/// it alone.
pub proof fn law_refusal(s: String, message: Seq<char>, value: Seq<char>, path: Seq<char>)
    ensures
        marketing::refused::<JsonView>(Err(MarketingError::Message(s)), message) <==> s@ == message,
        forall|v: JsonView| !marketing::refused::<JsonView>(Ok(v), message),
        is_filled(value) ==> marketing::non_empty(value, path) == Ok::<Seq<char>, Seq<char>>(
            text::trim_spec(value),
        ),
        !is_filled(value) ==> marketing::non_empty(value, path) == Err::<Seq<char>, Seq<char>>(
            "marketing: "@ + path + " must be a non-empty string"@,
        ),
{
}

} // verus!
