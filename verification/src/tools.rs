//! Tool metadata and the identity attributes that a tool asks for.

use crate::json;
use crate::json::{JsonObject, JsonValue, JsonView};
use crate::text;
use crate::text::{decimal, trim};
use vstd::prelude::*;

verus! {

/// Whether a tool asks for an authorized customer.
#[derive(Debug, Clone, Copy, PartialEq, Eq, Structural)]
pub enum ToolAuthMode {
    NoAuth,
    Optional,
    Required,
}

impl Default for ToolAuthMode {
    fn default() -> (r: Self)
        ensures
            r == ToolAuthMode::Optional,
    {
        ToolAuthMode::Optional
    }
}

impl ToolAuthMode {
    pub open spec fn name_spec(self) -> Seq<char> {
        match self {
            ToolAuthMode::NoAuth => "none"@,
            ToolAuthMode::Optional => "optional"@,
            ToolAuthMode::Required => "required"@,
        }
    }

    /// The name of the mode on the wire.
    pub fn name(&self) -> (r: &'static str)
        ensures
            r@ == self.name_spec(),
    {
        match self {
            ToolAuthMode::NoAuth => "none",
            ToolAuthMode::Optional => "optional",
            ToolAuthMode::Required => "required",
        }
    }
}

/// Identity attributes that must be resolved before a tool is invoked.
#[derive(Debug, PartialEq, Eq)]
pub struct ToolLookup {
    /// Shorthand for a single required attribute, such as `email` or `phone`.
    pub by: Option<String>,
    /// Explicit list of required attributes.
    pub required: Vec<String>,
}

pub struct ToolLookupView {
    pub by: Option<Seq<char>>,
    pub required: Seq<Seq<char>>,
}

impl DeepView for ToolLookup {
    type V = ToolLookupView;

    open spec fn deep_view(&self) -> ToolLookupView {
        ToolLookupView { by: self.by.deep_view(), required: self.required.deep_view() }
    }
}

/// Copies a list of strings.
pub fn copy_texts(texts: &Vec<String>) -> (r: Vec<String>)
    ensures
        r.deep_view() == texts.deep_view(),
{
    let r = texts.clone();
    assert(r.deep_view() =~= texts.deep_view());
    r
}

impl Clone for ToolLookup {
    fn clone(&self) -> (r: Self)
        ensures
            r.deep_view() == self.deep_view(),
    {
        ToolLookup { by: self.by.clone(), required: copy_texts(&self.required) }
    }
}

impl Default for ToolLookup {
    fn default() -> (r: Self)
        ensures
            r.deep_view() == (ToolLookupView { by: None, required: Seq::empty() }),
    {
        let r = ToolLookup { by: None, required: Vec::new() };
        assert(r.required.deep_view() =~= Seq::empty());
        r
    }
}

/// An attribute name as it is compared: trimmed and in ASCII lower case.
pub open spec fn attribute_key(name: Seq<char>) -> Seq<char> {
    text::lower_spec(text::trim_spec(name))
}

/// The keys of a list of attribute names: each key that is not empty once, at
/// the place where it first occurs.
pub open spec fn attribute_keys(names: Seq<Seq<char>>) -> Seq<Seq<char>>
    decreases names.len(),
{
    if names.len() == 0 {
        Seq::empty()
    } else {
        let before = attribute_keys(names.drop_last());
        let key = attribute_key(names.last());
        if key.len() == 0 || before.contains(key) {
            before
        } else {
            before.push(key)
        }
    }
}

/// All the names of a lookup: the list, then the shorthand.
pub open spec fn lookup_names(lookup: ToolLookupView) -> Seq<Seq<char>> {
    match lookup.by {
        Some(by) => lookup.required.push(by),
        None => lookup.required,
    }
}

/// The attributes that an optional lookup asks for.
pub open spec fn lookup_attributes(lookup: Option<ToolLookupView>) -> Seq<Seq<char>> {
    match lookup {
        Some(l) => attribute_keys(lookup_names(l)),
        None => Seq::empty(),
    }
}

/// A lookup in its normal form: nothing where it asks for no attribute, else
/// the attributes as a list.
pub open spec fn normal_lookup(lookup: Option<ToolLookupView>) -> Option<ToolLookupView> {
    let attributes = lookup_attributes(lookup);
    if attributes.len() == 0 {
        None
    } else {
        Some(ToolLookupView { by: None, required: attributes })
    }
}

/// Adds the key of one attribute name to the keys found so far.
fn add_attribute(keys: &mut Vec<String>, name: &str)
    ensures
        final(keys).deep_view() == ({
            let key = attribute_key(name@);
            if key.len() == 0 || old(keys).deep_view().contains(key) {
                old(keys).deep_view()
            } else {
                old(keys).deep_view().push(key)
            }
        }),
{
    let key = trim(name).as_str().to_ascii_lowercase();
    if key.as_str().is_empty() {
        return;
    }
    let mut i: usize = 0;
    while i < keys.len()
        invariant
            *keys == *old(keys),
            i <= keys.len(),
            key@ == attribute_key(name@),
            key@.len() > 0,
            forall|j: int| 0 <= j < i ==> keys.deep_view()[j] != key@,
        decreases keys.len() - i,
    {
        if keys[i] == key {
            assert(keys.deep_view()[i as int] == key@);
            return;
        }
        i += 1;
    }
    assert(!keys.deep_view().contains(key@));
    keys.push(key);
    assert(keys.deep_view() =~= old(keys).deep_view().push(attribute_key(name@)));
}

/// The attributes that a lookup asks for, in lower case and without repetition.
pub fn normalize_lookup(lookup: Option<&ToolLookup>) -> (r: Vec<String>)
    ensures
        r.deep_view() == lookup_attributes(lookup.deep_view()),
{
    let mut keys: Vec<String> = Vec::new();
    assert(keys.deep_view() =~= Seq::empty());
    if let Some(l) = lookup {
        let ghost names = l.required.deep_view();
        let mut i: usize = 0;
        assert(names.take(0) =~= Seq::empty());
        while i < l.required.len()
            invariant
                i <= l.required.len(),
                names == l.required.deep_view(),
                keys.deep_view() == attribute_keys(names.take(i as int)),
            decreases l.required.len() - i,
        {
            assert(names.take(i + 1).drop_last() =~= names.take(i as int));
            add_attribute(&mut keys, l.required[i].as_str());
            i += 1;
        }
        assert(names.take(i as int) =~= names);
        if let Some(by) = &l.by {
            assert(names.push(by@).drop_last() =~= names);
            add_attribute(&mut keys, by.as_str());
        }
    }
    keys
}

/// A lookup in its normal form.
pub fn normalized_lookup_field(lookup: Option<&ToolLookup>) -> (r: Option<ToolLookup>)
    ensures
        r.deep_view() == normal_lookup(lookup.deep_view()),
{
    let attributes = normalize_lookup(lookup);
    if attributes.len() == 0 {
        None
    } else {
        Some(ToolLookup { by: None, required: attributes })
    }
}

/// What a tool is registered with.
#[derive(Debug)]
pub struct ToolMetadata {
    pub name: String,
    pub description: Option<String>,
    pub input_schema: Option<JsonValue>,
    pub authentication_methods: Vec<String>,
    pub auth: ToolAuthMode,
    pub permissions: Vec<String>,
    pub timeout: Option<u64>,
    pub default_auth_method: Option<String>,
    /// The identity that must be known before the tool is invoked.
    pub lookup: Option<ToolLookup>,
}

pub struct ToolMetadataView {
    pub name: Seq<char>,
    pub description: Option<Seq<char>>,
    pub input_schema: Option<JsonView>,
    pub authentication_methods: Seq<Seq<char>>,
    pub auth: ToolAuthMode,
    pub permissions: Seq<Seq<char>>,
    pub timeout: Option<u64>,
    pub default_auth_method: Option<Seq<char>>,
    pub lookup: Option<ToolLookupView>,
}

impl DeepView for ToolMetadata {
    type V = ToolMetadataView;

    open spec fn deep_view(&self) -> ToolMetadataView {
        ToolMetadataView {
            name: self.name@,
            description: self.description.deep_view(),
            input_schema: self.input_schema.deep_view(),
            authentication_methods: self.authentication_methods.deep_view(),
            auth: self.auth,
            permissions: self.permissions.deep_view(),
            timeout: self.timeout,
            default_auth_method: self.default_auth_method.deep_view(),
            lookup: self.lookup.deep_view(),
        }
    }
}

impl Default for ToolMetadata {
    fn default() -> (r: Self)
        ensures
            r.deep_view() == (ToolMetadataView {
                name: Seq::empty(),
                description: None,
                input_schema: None,
                authentication_methods: Seq::empty(),
                auth: ToolAuthMode::Optional,
                permissions: Seq::empty(),
                timeout: None,
                default_auth_method: None,
                lookup: None,
            }),
    {
        let r = ToolMetadata {
            name: String::new(),
            description: None,
            input_schema: None,
            authentication_methods: Vec::new(),
            auth: ToolAuthMode::Optional,
            permissions: Vec::new(),
            timeout: None,
            default_auth_method: None,
            lookup: None,
        };
        assert(r.authentication_methods.deep_view() =~= Seq::empty());
        assert(r.permissions.deep_view() =~= Seq::empty());
        r
    }
}

impl Clone for ToolMetadata {
    fn clone(&self) -> (r: Self)
        ensures
            r.deep_view() == self.deep_view(),
    {
        ToolMetadata {
            name: self.name.clone(),
            description: self.description.clone(),
            input_schema: self.input_schema.clone(),
            authentication_methods: copy_texts(&self.authentication_methods),
            auth: self.auth,
            permissions: copy_texts(&self.permissions),
            timeout: self.timeout,
            default_auth_method: self.default_auth_method.clone(),
            lookup: self.lookup.clone(),
        }
    }
}

/// A tool as it is listed.
#[derive(Debug)]
pub struct RegisteredTool {
    pub name: String,
    pub description: Option<String>,
    pub input_schema: Option<JsonValue>,
    pub authentication_methods: Vec<String>,
    pub auth: ToolAuthMode,
    pub permissions: Vec<String>,
    pub timeout: Option<u64>,
    pub lookup: Option<ToolLookup>,
}

pub struct RegisteredToolView {
    pub name: Seq<char>,
    pub description: Option<Seq<char>>,
    pub input_schema: Option<JsonView>,
    pub authentication_methods: Seq<Seq<char>>,
    pub auth: ToolAuthMode,
    pub permissions: Seq<Seq<char>>,
    pub timeout: Option<u64>,
    pub lookup: Option<ToolLookupView>,
}

impl DeepView for RegisteredTool {
    type V = RegisteredToolView;

    open spec fn deep_view(&self) -> RegisteredToolView {
        RegisteredToolView {
            name: self.name@,
            description: self.description.deep_view(),
            input_schema: self.input_schema.deep_view(),
            authentication_methods: self.authentication_methods.deep_view(),
            auth: self.auth,
            permissions: self.permissions.deep_view(),
            timeout: self.timeout,
            lookup: self.lookup.deep_view(),
        }
    }
}

impl ToolMetadataView {
    /// The metadata with its lookup in normal form, as the registry keeps it.
    pub open spec fn normalized(self) -> ToolMetadataView {
        ToolMetadataView { lookup: normal_lookup(self.lookup), ..self }
    }

    /// The tool as it is listed.
    pub open spec fn listed(self) -> RegisteredToolView {
        RegisteredToolView {
            name: self.name,
            description: self.description,
            input_schema: self.input_schema,
            authentication_methods: self.authentication_methods,
            auth: self.auth,
            permissions: self.permissions,
            timeout: self.timeout,
            lookup: self.lookup,
        }
    }
}

impl ToolMetadata {
    /// The metadata with its lookup in normal form.
    pub fn normalize(self) -> (r: Self)
        ensures
            r.deep_view() == self.deep_view().normalized(),
    {
        let lookup = normalized_lookup_field(self.lookup.as_ref());
        ToolMetadata { lookup, ..self }
    }

    /// The tool as it is listed.
    pub fn list_entry(&self) -> (r: RegisteredTool)
        ensures
            r.deep_view() == self.deep_view().listed(),
    {
        RegisteredTool {
            name: self.name.clone(),
            description: self.description.clone(),
            input_schema: self.input_schema.clone(),
            authentication_methods: copy_texts(&self.authentication_methods),
            auth: self.auth,
            permissions: copy_texts(&self.permissions),
            timeout: self.timeout,
            lookup: self.lookup.clone(),
        }
    }
}

impl ToolLookupView {
    /// The lookup as JSON; what is empty is left out.
    pub open spec fn json(self) -> JsonView {
        let object = Map::<Seq<char>, JsonView>::empty();
        let object = json::with_opt(object, "by"@, json::opt_str(self.by));
        JsonView::Object(
            json::with_opt(object, "required"@, json::opt_str_array(self.required)),
        )
    }
}

impl ToolLookup {
    /// The lookup as JSON.
    pub fn to_json(&self) -> (r: JsonValue)
        ensures
            r.deep_view() == self.deep_view().json(),
    {
        let mut object = JsonObject::new();
        object.insert_opt_str("by", &self.by);
        object.insert_opt("required", filled_strings(&self.required));
        JsonValue::Object(object)
    }
}

/// An array of strings, where there are any.
pub fn filled_strings(texts: &Vec<String>) -> (r: Option<JsonValue>)
    ensures
        r.deep_view() == json::opt_str_array(texts.deep_view()),
{
    if texts.len() > 0 {
        Some(JsonValue::strings(texts))
    } else {
        None
    }
}

impl RegisteredToolView {
    /// The tool as JSON; what is absent or empty is left out.
    pub open spec fn json(self) -> JsonView {
        let object = Map::<Seq<char>, JsonView>::empty().insert("name"@, JsonView::Str(self.name));
        let object = json::with_opt(object, "description"@, json::opt_str(self.description));
        let object = json::with_opt(object, "input_schema"@, self.input_schema);
        let object = json::with_opt(
            object,
            "authentication_methods"@,
            json::opt_str_array(self.authentication_methods),
        );
        let object = object.insert("auth"@, JsonView::Str(self.auth.name_spec()));
        let object = json::with_opt(
            object,
            "permissions"@,
            json::opt_str_array(self.permissions),
        );
        let object = json::with_opt(
            object,
            "timeout"@,
            match self.timeout {
                Some(t) => Some(JsonView::Number(text::decimal_spec(t as nat))),
                None => None,
            },
        );
        JsonView::Object(
            json::with_opt(
                object,
                "lookup"@,
                match self.lookup {
                    Some(l) => Some(l.json()),
                    None => None,
                },
            ),
        )
    }
}

impl RegisteredTool {
    /// The tool as JSON.
    pub fn to_json(&self) -> (r: JsonValue)
        ensures
            r.deep_view() == self.deep_view().json(),
    {
        JsonValue::Object(self.json_object())
    }

    fn json_object(&self) -> (r: JsonObject)
        ensures
            JsonView::Object(r.deep_view()) == self.deep_view().json(),
    {
        let mut object = JsonObject::new();
        object.insert_str("name", self.name.as_str());
        object.insert_opt_str("description", &self.description);
        object.insert_opt("input_schema", self.input_schema.clone());
        object.insert_opt("authentication_methods", filled_strings(&self.authentication_methods));
        object.insert_str("auth", self.auth.name());
        object.insert_opt("permissions", filled_strings(&self.permissions));
        if let Some(t) = self.timeout {
            object.insert("timeout", JsonValue::Number(decimal(t)));
        }
        if let Some(l) = &self.lookup {
            object.insert("lookup", l.to_json());
        }
        object
    }
}

impl ToolMetadataView {
    /// The metadata as JSON: that of the listed tool, and the default way to
    /// authorize where there is one.
    pub open spec fn json(self) -> JsonView {
        JsonView::Object(
            json::with_opt(
                self.listed().json()->Object_0,
                "default_auth_method"@,
                json::opt_str(self.default_auth_method),
            ),
        )
    }
}

impl ToolMetadata {
    /// The metadata as JSON.
    pub fn to_json(&self) -> (r: JsonValue)
        ensures
            r.deep_view() == self.deep_view().json(),
    {
        let mut object = self.list_entry().json_object();
        object.insert_opt_str("default_auth_method", &self.default_auth_method);
        JsonValue::Object(object)
    }
}

/// The key of a key is that key.
proof fn lemma_attribute_key(name: Seq<char>)
    ensures
        attribute_key(attribute_key(name)) == attribute_key(name),
{
    let trimmed = text::trim_spec(name);
    text::law_trim(name);
    text::law_lower(trimmed);
    text::law_trim(text::lower_spec(trimmed));
}

pub proof fn lemma_attribute_keys(names: Seq<Seq<char>>)
    ensures
        attribute_keys(names).no_duplicates(),
        forall|i: int|
            0 <= i < attribute_keys(names).len() ==> {
                let key = #[trigger] attribute_keys(names)[i];
                key.len() > 0 && attribute_key(key) == key
            },
        forall|key: Seq<char>| #[trigger]
            attribute_keys(names).contains(key) ==> key.len() > 0 && exists|j: int|
                0 <= j < names.len() && key == attribute_key(#[trigger] names[j]),
        forall|j: int|
            0 <= j < names.len() && attribute_key(#[trigger] names[j]).len() > 0
                ==> attribute_keys(names).contains(attribute_key(names[j])),
    decreases names.len(),
{
    if names.len() > 0 {
        let shorter = names.drop_last();
        let before = attribute_keys(shorter);
        let all = attribute_keys(names);
        let key = attribute_key(names.last());
        lemma_attribute_keys(shorter);
        lemma_attribute_key(names.last());
        assert(names.last() == names[names.len() - 1]);
        assert forall|k: Seq<char>| #[trigger] all.contains(k) implies k.len() > 0 && exists|j: int|
            0 <= j < names.len() && k == attribute_key(#[trigger] names[j]) by {
            if before.contains(k) {
                let j = choose|j: int|
                    0 <= j < shorter.len() && k == attribute_key(#[trigger] shorter[j]);
                assert(names[j] == shorter[j]);
            } else {
                let i = choose|i: int| 0 <= i < all.len() && all[i] == k;
                assert(i == before.len());
            }
        }
        assert forall|j: int|
            0 <= j < names.len() && attribute_key(#[trigger] names[j]).len()
                > 0 implies all.contains(attribute_key(names[j])) by {
            let k = attribute_key(names[j]);
            if j < shorter.len() {
                assert(shorter[j] == names[j]);
                let i = choose|i: int| 0 <= i < before.len() && before[i] == k;
                assert(all[i] == k);
            } else if before.contains(key) {
            } else {
                assert(all[before.len() as int] == key);
            }
        }
    }
}

/// A list of distinct keys, none of them empty, is its own list of keys.
proof fn lemma_attribute_keys_fixed(keys: Seq<Seq<char>>)
    requires
        keys.no_duplicates(),
        forall|i: int|
            0 <= i < keys.len() ==> (#[trigger] keys[i]).len() > 0 && attribute_key(keys[i])
                == keys[i],
    ensures
        attribute_keys(keys) == keys,
    decreases keys.len(),
{
    if keys.len() > 0 {
        let shorter = keys.drop_last();
        assert forall|i: int| 0 <= i < shorter.len() implies (#[trigger] shorter[i]).len() > 0
            && attribute_key(shorter[i]) == shorter[i] by {
            assert(shorter[i] == keys[i]);
        }
        lemma_attribute_keys_fixed(shorter);
        assert(keys.last() == keys[keys.len() - 1]);
        if shorter.contains(keys.last()) {
            let i = choose|i: int| 0 <= i < shorter.len() && shorter[i] == keys.last();
            assert(keys[i] == keys.last());
        }
        assert(shorter.push(keys.last()) =~= keys);
    } else {
        assert(keys =~= Seq::empty());
    }
}

/// The attributes of a lookup are distinct, none is empty, and each is trimmed
/// and in lower case.
pub proof fn law_lookup_attributes_distinct(lookup: Option<ToolLookupView>)
    ensures
        lookup_attributes(lookup).no_duplicates(),
        forall|i: int|
            0 <= i < lookup_attributes(lookup).len() ==> {
                let key = #[trigger] lookup_attributes(lookup)[i];
                key.len() > 0 && text::trim_spec(key) == key && text::lower_spec(key) == key
            },
{
    if let Some(l) = lookup {
        let names = lookup_names(l);
        lemma_attribute_keys(names);
        assert forall|i: int| 0 <= i < lookup_attributes(lookup).len() implies {
            let key = #[trigger] lookup_attributes(lookup)[i];
            key.len() > 0 && text::trim_spec(key) == key && text::lower_spec(key) == key
        } by {
            let key = lookup_attributes(lookup)[i];
            assert(attribute_keys(names)[i] == key);
            let trimmed = text::trim_spec(key);
            text::law_trim(key);
            text::law_lower(trimmed);
            text::law_trim(text::lower_spec(trimmed));
        }
    }
}

/// A lookup asks for exactly the keys of its names that are not empty.
pub proof fn law_lookup_attributes_complete(lookup: ToolLookupView, key: Seq<char>)
    ensures
        lookup_attributes(Some(lookup)).contains(key) <==> key.len() > 0 && exists|j: int|
            0 <= j < lookup_names(lookup).len() && key == attribute_key(
                #[trigger] lookup_names(lookup)[j],
            ),
{
    lemma_attribute_keys(lookup_names(lookup));
}

/// Normalizing a lookup twice is the same as normalizing it once.
pub proof fn law_normal_lookup_idempotent(lookup: Option<ToolLookupView>)
    ensures
        normal_lookup(normal_lookup(lookup)) == normal_lookup(lookup),
        lookup_attributes(normal_lookup(lookup)) == lookup_attributes(lookup),
{
    if let Some(l) = lookup {
        let keys = attribute_keys(lookup_names(l));
        lemma_attribute_keys(lookup_names(l));
        if keys.len() > 0 {
            lemma_attribute_keys_fixed(keys);
        } else {
            assert(keys =~= Seq::empty());
        }
    }
}

} // verus!
