//! Laws of what is registered: tools with their lookups, and challenges that a
//! provider builds.

use crate::auth;
use crate::auth::AuthOutcomeView;
use crate::qefro;
use crate::qefro::{Qefro, QefroView};
use crate::text;
use crate::tools;
use crate::tools::{RegisteredToolView, ToolAuthMode, ToolLookupView, ToolMetadataView};
use vstd::prelude::*;
use vstd::utf8::*;

verus! {

/// An attribute that a lookup names, in its list or by its shorthand: trimmed, in
/// lower case, and not blank.
pub open spec fn asks_for(lookup: ToolLookupView, key: Seq<char>) -> bool {
    &&& key.len() > 0
    &&& {
        ||| exists|j: int|
            0 <= j < lookup.required.len() && key == text::lower_spec(
                text::trim_spec(#[trigger] lookup.required[j]),
            )
        ||| lookup.by is Some && key == text::lower_spec(text::trim_spec(lookup.by->0))
    }
}

/// A lookup in normal form lists each attribute that the given one names once, and
/// no other, without a shorthand; where none is named there is no lookup.
pub open spec fn is_normal_form(
    normal: Option<ToolLookupView>,
    given: Option<ToolLookupView>,
) -> bool {
    &&& normal is Some ==> {
        &&& given is Some
        &&& normal->0.by is None
        &&& normal->0.required.len() > 0
        &&& normal->0.required.no_duplicates()
        &&& forall|key: Seq<char>| #[trigger]
            normal->0.required.contains(key) <==> asks_for(given->0, key)
    }
    &&& normal is None ==> given is None || forall|key: Seq<char>| !#[trigger] asks_for(
        given->0,
        key,
    )
}

proof fn lemma_asks_for(lookup: ToolLookupView, key: Seq<char>)
    ensures
        tools::lookup_attributes(Some(lookup)).contains(key) <==> asks_for(lookup, key),
{
    tools::law_lookup_attributes_complete(lookup, key);
    let names = tools::lookup_names(lookup);
    if asks_for(lookup, key) {
        if exists|j: int|
            0 <= j < lookup.required.len() && key == text::lower_spec(
                text::trim_spec(#[trigger] lookup.required[j]),
            ) {
            let j = choose|j: int|
                0 <= j < lookup.required.len() && key == text::lower_spec(
                    text::trim_spec(#[trigger] lookup.required[j]),
                );
            assert(names[j] == lookup.required[j]);
            assert(key == tools::attribute_key(names[j]));
        } else {
            assert(names[lookup.required.len() as int] == lookup.by->0);
            assert(key == tools::attribute_key(names[lookup.required.len() as int]));
        }
    }
    if tools::lookup_attributes(Some(lookup)).contains(key) {
        let j = choose|j: int|
            0 <= j < names.len() && key == tools::attribute_key(#[trigger] names[j]);
        if j < lookup.required.len() {
            assert(names[j] == lookup.required[j]);
            assert(key == text::lower_spec(text::trim_spec(lookup.required[j])));
        } else {
            assert(names[j] == lookup.by->0);
        }
    }
}

/// A lookup is kept in its normal form.
pub proof fn law_lookup_normal_form(lookup: Option<ToolLookupView>)
    ensures
        is_normal_form(tools::normal_lookup(lookup), lookup),
        lookup is None ==> tools::lookup_attributes(lookup).len() == 0,
        lookup is Some ==> forall|key: Seq<char>| #[trigger]
            tools::lookup_attributes(lookup).contains(key) <==> asks_for(lookup->0, key),
{
    tools::law_lookup_attributes_distinct(lookup);
    let keys = tools::lookup_attributes(lookup);
    if let Some(l) = lookup {
        assert forall|key: Seq<char>| #[trigger] keys.contains(key) <==> asks_for(l, key) by {
            lemma_asks_for(l, key);
        }
        assert forall|key: Seq<char>| keys.len() == 0 implies !#[trigger] asks_for(l, key) by {
            lemma_asks_for(l, key);
        }
    }
}

proof fn lemma_order(names: Seq<Seq<char>>, i: int, j: int)
    requires
        0 <= i < j < tools::attribute_keys(names).len(),
    ensures
        exists|p: int|
            {
                &&& 0 <= p < names.len()
                &&& tools::attribute_keys(names)[i] == text::lower_spec(
                    text::trim_spec(#[trigger] names[p]),
                )
                &&& forall|q: int|
                    0 <= q <= p ==> text::lower_spec(text::trim_spec(#[trigger] names[q]))
                        != tools::attribute_keys(names)[j]
            },
    decreases names.len(),
{
    let shorter = names.drop_last();
    let before = tools::attribute_keys(shorter);
    let all = tools::attribute_keys(names);
    if j < before.len() {
        lemma_order(shorter, i, j);
        let p = choose|p: int|
            {
                &&& 0 <= p < shorter.len()
                &&& before[i] == text::lower_spec(text::trim_spec(#[trigger] shorter[p]))
                &&& forall|q: int|
                    0 <= q <= p ==> text::lower_spec(text::trim_spec(#[trigger] shorter[q]))
                        != before[j]
            };
        assert(names[p] == shorter[p]);
        assert forall|q: int| 0 <= q <= p implies text::lower_spec(
            text::trim_spec(#[trigger] names[q]),
        ) != all[j] by {
            assert(names[q] == shorter[q]);
        }
    } else {
        let key = tools::attribute_key(names.last());
        assert(all == before.push(key));
        tools::lemma_attribute_keys(shorter);
        assert(before.contains(before[i]));
        let p = choose|p: int|
            0 <= p < shorter.len() && before[i] == tools::attribute_key(#[trigger] shorter[p]);
        assert(names[p] == shorter[p]);
        assert forall|q: int| 0 <= q <= p implies text::lower_spec(
            text::trim_spec(#[trigger] names[q]),
        ) != all[j] by {
            assert(names[q] == shorter[q]);
            if tools::attribute_key(shorter[q]) == key {
                assert(before.contains(key));
            }
        }
    }
}

/// The attributes of a lookup come in the order in which they are first named: the
/// list in its order, then the shorthand.
pub proof fn law_lookup_order(lookup: ToolLookupView, i: int, j: int)
    requires
        0 <= i < j < tools::lookup_attributes(Some(lookup)).len(),
    ensures
        ({
            let keys = tools::lookup_attributes(Some(lookup));
            exists|p: int|
                {
                    &&& 0 <= p < lookup.required.len()
                    &&& keys[i] == text::lower_spec(text::trim_spec(#[trigger] lookup.required[p]))
                    &&& forall|q: int|
                        0 <= q <= p ==> text::lower_spec(
                            text::trim_spec(#[trigger] lookup.required[q]),
                        ) != keys[j]
                }
        }),
{
    let names = tools::lookup_names(lookup);
    let keys = tools::lookup_attributes(Some(lookup));
    lemma_order(names, i, j);
    let p = choose|p: int|
        {
            &&& 0 <= p < names.len()
            &&& keys[i] == text::lower_spec(text::trim_spec(#[trigger] names[p]))
            &&& forall|q: int|
                0 <= q <= p ==> text::lower_spec(text::trim_spec(#[trigger] names[q])) != keys[j]
        };
    tools::lemma_attribute_keys(names);
    assert(keys.contains(keys[j]));
    let r = choose|r: int|
        0 <= r < names.len() && keys[j] == tools::attribute_key(#[trigger] names[r]);
    assert(r > p);
    assert(names[p] == lookup.required[p]);
    assert forall|q: int| 0 <= q <= p implies text::lower_spec(
        text::trim_spec(#[trigger] lookup.required[q]),
    ) != keys[j] by {
        assert(names[q] == lookup.required[q]);
    }
}

/// A tool that is kept or listed says of itself what was registered.
pub open spec fn is_kept(kept: ToolMetadataView, given: ToolMetadataView) -> bool {
    &&& kept.name == given.name
    &&& kept.description == given.description
    &&& kept.input_schema == given.input_schema
    &&& kept.authentication_methods == given.authentication_methods
    &&& kept.auth == given.auth
    &&& kept.permissions == given.permissions
    &&& kept.timeout == given.timeout
    &&& kept.default_auth_method == given.default_auth_method
    &&& is_normal_form(kept.lookup, given.lookup)
}

/// A listed tool has the name, description, input schema, authentication methods,
/// auth mode, permissions and timeout that were registered, and the lookup in its
/// normal form.
pub open spec fn is_listed_as(listed: RegisteredToolView, given: ToolMetadataView) -> bool {
    &&& listed.name == given.name
    &&& listed.description == given.description
    &&& listed.input_schema == given.input_schema
    &&& listed.authentication_methods == given.authentication_methods
    &&& listed.auth == given.auth
    &&& listed.permissions == given.permissions
    &&& listed.timeout == given.timeout
    &&& is_normal_form(listed.lookup, given.lookup)
}

/// A tool is registered with all that it was given, in the place of the one with its
/// name or behind the others, and the others stay as they are. It is listed with all
/// that it was given, and so are the others.
pub proof fn law_registered_and_listed(app: QefroView, given: ToolMetadataView)
    ensures
        ({
            let after = QefroView {
                tools: qefro::with_tool(app.tools, given.normalized()),
                ..app
            };
            exists|k: int|
                {
                    &&& 0 <= k < after.tools.len()
                    &&& is_kept(#[trigger] after.tools[k], given)
                    &&& after.listed().len() == after.tools.len()
                    &&& is_listed_as(after.listed()[k], given)
                    &&& k < app.tools.len() ==> app.tools[k].name == given.name
                        && after.tools.len() == app.tools.len()
                    &&& k == app.tools.len() ==> after.tools.len() == app.tools.len() + 1
                        && forall|j: int|
                        0 <= j < app.tools.len() ==> (#[trigger] app.tools[j]).name != given.name
                    &&& forall|j: int|
                        0 <= j < app.tools.len() && j != k ==> #[trigger] after.tools[j]
                            == app.tools[j] && after.listed()[j] == app.listed()[j]
                }
        }),
{
    let kept = given.normalized();
    let after = QefroView { tools: qefro::with_tool(app.tools, kept), ..app };
    qefro::lemma_tool_index(app.tools, given.name);
    law_lookup_normal_form(given.lookup);
    let k = match qefro::tool_index(app.tools, given.name) {
        Some(i) => i,
        None => app.tools.len() as int,
    };
    assert(after.tools[k] == kept);
    assert(is_kept(after.tools[k], given));
    assert forall|j: int| 0 <= j < app.tools.len() && j != k implies #[trigger] after.tools[j]
        == app.tools[j] && after.listed()[j] == app.listed()[j] by {}
}

/// Every tool is listed field by field as it is kept.
pub proof fn law_listed_field_by_field(app: QefroView, i: int)
    requires
        0 <= i < app.tools.len(),
    ensures
        app.listed().len() == app.tools.len(),
        app.listed()[i].name == app.tools[i].name,
        app.listed()[i].description == app.tools[i].description,
        app.listed()[i].input_schema == app.tools[i].input_schema,
        app.listed()[i].authentication_methods == app.tools[i].authentication_methods,
        app.listed()[i].auth == app.tools[i].auth,
        app.listed()[i].permissions == app.tools[i].permissions,
        app.listed()[i].timeout == app.tools[i].timeout,
        app.listed()[i].lookup == app.tools[i].lookup,
{
}

/// The metadata of one tool, listed or normalized, field by field.
pub proof fn law_metadata_kept(given: ToolMetadataView)
    ensures
        is_kept(given.normalized(), given),
        given.listed().name == given.name,
        given.listed().description == given.description,
        given.listed().input_schema == given.input_schema,
        given.listed().authentication_methods == given.authentication_methods,
        given.listed().auth == given.auth,
        given.listed().permissions == given.permissions,
        given.listed().timeout == given.timeout,
        given.listed().lookup == given.lookup,
{
    law_lookup_normal_form(given.lookup);
}

/// A name finds the tool that is registered under it, with its handler, and no
/// other; a name that is not registered finds none.
pub proof fn law_name_finds_tool<P, H, M, B, A>(app: Qefro<P, H, M, B, A>, i: int, name: Seq<char>)
    requires
        0 <= i < app.tools@.len(),
        forall|j: int|
            0 <= j < app.tools@.len() && j != i ==> (#[trigger] app.tools@[j]).metadata.name@
                != app.tools@[i].metadata.name@,
    ensures
        qefro::find_tool(app@.tools, app.tools@[i].metadata.name@) == Some(
            app.tools@[i].metadata.deep_view(),
        ),
        app.handler_of(app.tools@[i].metadata.name@) == Some(app.tools@[i].handler),
        (forall|j: int|
            0 <= j < app.tools@.len() ==> (#[trigger] app.tools@[j]).metadata.name@ != name)
            ==> app.handler_of(name) is None && qefro::find_tool(app@.tools, name) is None,
{
    qefro::lemma_tool_index(app@.tools, app.tools@[i].metadata.name@);
    qefro::lemma_tool_index(app@.tools, name);
    assert(app@.tools[i].name == app.tools@[i].metadata.name@);
    assert forall|j: int| 0 <= j < app@.tools.len() implies (#[trigger] app@.tools[j]).name
        == app.tools@[j].metadata.name@ by {}
}

/// A webhook is in order where no two tools have the same name and every lookup is
/// in normal form.
pub proof fn law_in_order(app: QefroView, i: int, j: int)
    requires
        app.wf(),
        0 <= i < j < app.tools.len(),
    ensures
        app.tools[i].name != app.tools[j].name,
        is_normal_form(app.tools[i].lookup, app.tools[i].lookup),
        is_normal_form(app.tools[j].lookup, app.tools[j].lookup),
{
    law_lookup_normal_form(app.tools[i].lookup);
    law_lookup_normal_form(app.tools[j].lookup);
    assert(app.tools[i].normalized() == app.tools[i]);
    assert(app.tools[j].normalized() == app.tools[j]);
}

/// What is registered and configured is the same where all of it is; and so is the
/// code that was given.
pub proof fn law_same<P, H, M, B, A>(
    a: Qefro<P, H, M, B, A>,
    b: Qefro<P, H, M, B, A>,
    x: QefroView,
    y: QefroView,
)
    ensures
        a.same_code(&b) <==> a.tools@ == b.tools@ && a.customer_provider == b.customer_provider
            && a.middlewares@ == b.middlewares@ && a.before_hooks@ == b.before_hooks@
            && a.after_hooks@ == b.after_hooks@,
        x.same_setup(y) <==> x == (QefroView { pending: x.pending, auth: x.auth, ..y }),
{
}

/// Each mode has its own name on the wire.
pub proof fn law_mode_names(mode: ToolAuthMode)
    ensures
        mode == ToolAuthMode::NoAuth ==> mode.name_spec() == "none"@,
        mode == ToolAuthMode::Optional ==> mode.name_spec() == "optional"@,
        mode == ToolAuthMode::Required ==> mode.name_spec() == "required"@,
{
}

/// A challenge has its kind, the message that was given or else the usual one, and
/// its hint and address.
pub proof fn law_challenge_built(
    kind: Seq<char>,
    message: Option<Seq<char>>,
    usual: Seq<char>,
    hint: Option<Seq<char>>,
    url: Option<Seq<char>>,
)
    ensures
        ({
            let built: AuthOutcomeView = auth::challenge_with(kind, message, usual, hint, url);
            &&& built is Challenge
            &&& built->Challenge_0.challenge_type == kind
            &&& message is Some ==> built->Challenge_0.message == message->0
            &&& message is None ==> built->Challenge_0.message == usual
            &&& built->Challenge_0.destination_hint == hint
            &&& built->Challenge_0.login_url == url
        }),
{
}

/// A text of more than four bytes is shown by its first two and its last two bytes
/// with three stars between them; a shorter one is shown as it is. A text can be
/// masked unless a character would be cut.
pub proof fn law_mask(value: Seq<char>)
    ensures
        ({
            let bytes = encode_utf8(value);
            let n = bytes.len() as int;
            &&& auth::can_mask(value) <==> n <= 4 || (is_char_boundary(bytes, 2)
                && is_char_boundary(bytes, n - 2))
            &&& n <= 4 ==> auth::masked(value) == value
            &&& n > 4 && auth::can_mask(value) ==> exists|head: Seq<char>, tail: Seq<char>|
                {
                    &&& #[trigger] encode_utf8(head) == bytes.take(2)
                    &&& #[trigger] encode_utf8(tail) == bytes.skip(n - 2)
                    &&& auth::masked(value) == head + "***"@ + tail
                }
        }),
{
    let bytes = encode_utf8(value);
    let n = bytes.len() as int;
    if n > 4 && auth::can_mask(value) {
        encode_utf8_valid_utf8(value);
        valid_utf8_split(bytes, 2);
        valid_utf8_split(bytes, n - 2);
        assert(bytes.take(2) =~= bytes.subrange(0, 2));
        assert(bytes.skip(n - 2) =~= bytes.subrange(n - 2, n));
        decode_utf8_encode_utf8(bytes.take(2));
        decode_utf8_encode_utf8(bytes.skip(n - 2));
        let head = decode_utf8(bytes.take(2));
        let tail = decode_utf8(bytes.skip(n - 2));
        assert(encode_utf8(head) == bytes.take(2));
        assert(encode_utf8(tail) == bytes.skip(n - 2));
    }
}

} // verus!
