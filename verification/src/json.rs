//! JSON values.
//!
//! A value is modelled by [`JsonView`]. An object is modelled by the map from
//! its keys to its values; the order of its entries does not matter, and where
//! a key occurs more than once the last entry counts.

use crate::text;
use crate::text::{decimal_i64, same_text};
use vstd::prelude::*;

verus! {

/// A JSON value. A number is held as its JSON text.
#[derive(Debug)]
pub enum JsonValue {
    Null,
    Bool(bool),
    Number(String),
    Str(String),
    Array(Vec<JsonValue>),
    Object(JsonObject),
}

/// A JSON object: keys with their values.
#[derive(Debug)]
pub struct JsonObject {
    pub entries: Vec<(String, JsonValue)>,
}

/// What a JSON value is.
pub enum JsonView {
    Null,
    Bool(bool),
    Number(Seq<char>),
    Str(Seq<char>),
    Array(Seq<JsonView>),
    Object(Map<Seq<char>, JsonView>),
}

pub open spec fn json_view(v: JsonValue) -> JsonView
    decreases v,
{
    match v {
        JsonValue::Null => JsonView::Null,
        JsonValue::Bool(b) => JsonView::Bool(b),
        JsonValue::Number(n) => JsonView::Number(n@),
        JsonValue::Str(s) => JsonView::Str(s@),
        JsonValue::Array(items) => JsonView::Array(items_view(items@)),
        JsonValue::Object(o) => JsonView::Object(entries_view(o.entries@)),
    }
}

pub open spec fn items_view(items: Seq<JsonValue>) -> Seq<JsonView>
    decreases items,
{
    if items.len() == 0 {
        Seq::empty()
    } else {
        items_view(items.drop_last()).push(json_view(items.last()))
    }
}

pub open spec fn entries_view(entries: Seq<(String, JsonValue)>) -> Map<Seq<char>, JsonView>
    decreases entries,
{
    if entries.len() == 0 {
        Map::empty()
    } else {
        entries_view(entries.drop_last()).insert(entries.last().0@, json_view(entries.last().1))
    }
}

impl DeepView for JsonValue {
    type V = JsonView;

    open spec fn deep_view(&self) -> JsonView {
        json_view(*self)
    }
}

impl DeepView for JsonObject {
    type V = Map<Seq<char>, JsonView>;

    open spec fn deep_view(&self) -> Map<Seq<char>, JsonView> {
        entries_view(self.entries@)
    }
}

impl JsonView {
    /// The value of a key of an object; nothing for a value of another kind.
    pub open spec fn get(self, key: Seq<char>) -> Option<JsonView> {
        match self {
            JsonView::Object(m) => if m.contains_key(key) {
                Some(m[key])
            } else {
                None
            },
            _ => None,
        }
    }

    /// The characters of a string; nothing for a value of another kind.
    pub open spec fn as_str(self) -> Option<Seq<char>> {
        match self {
            JsonView::Str(s) => Some(s),
            _ => None,
        }
    }

    /// The string under a key.
    pub open spec fn text(self, key: Seq<char>) -> Option<Seq<char>> {
        match self.get(key) {
            Some(v) => v.as_str(),
            None => None,
        }
    }

    /// The string under a key, where it is not empty.
    pub open spec fn filled_text(self, key: Seq<char>) -> Option<Seq<char>> {
        filled(self.text(key))
    }
}

/// The text, where it is not empty.
pub open spec fn filled(text: Option<Seq<char>>) -> Option<Seq<char>> {
    match text {
        Some(s) => if s.len() > 0 {
            Some(s)
        } else {
            None
        },
        None => None,
    }
}

/// The first of two options that is present.
pub open spec fn or_else<T>(a: Option<T>, b: Option<T>) -> Option<T> {
    match a {
        Some(x) => Some(x),
        None => b,
    }
}

/// A string, or null where there is none.
pub open spec fn str_or_null(text: Option<Seq<char>>) -> JsonView {
    match text {
        Some(s) => JsonView::Str(s),
        None => JsonView::Null,
    }
}

/// The empty object.
pub open spec fn empty_object() -> JsonView {
    JsonView::Object(Map::empty())
}

/// An object with a key set where there is a value for it.
pub open spec fn with_opt(
    object: Map<Seq<char>, JsonView>,
    key: Seq<char>,
    value: Option<JsonView>,
) -> Map<Seq<char>, JsonView> {
    match value {
        Some(v) => object.insert(key, v),
        None => object,
    }
}

/// A string value, where there is a text.
pub open spec fn opt_str(text: Option<Seq<char>>) -> Option<JsonView> {
    match text {
        Some(s) => Some(JsonView::Str(s)),
        None => None,
    }
}

/// A truth value, where there is one.
pub open spec fn opt_bool(b: Option<bool>) -> Option<JsonView> {
    match b {
        Some(b) => Some(JsonView::Bool(b)),
        None => None,
    }
}

/// An array of strings.
pub open spec fn str_array(texts: Seq<Seq<char>>) -> JsonView {
    JsonView::Array(texts.map_values(|s: Seq<char>| JsonView::Str(s)))
}

/// An array of strings, where there are any.
pub open spec fn opt_str_array(texts: Seq<Seq<char>>) -> Option<JsonView> {
    if texts.len() > 0 {
        Some(str_array(texts))
    } else {
        None
    }
}

pub proof fn lemma_items_view(items: Seq<JsonValue>)
    ensures
        items_view(items).len() == items.len(),
        forall|i: int|
            0 <= i < items.len() ==> #[trigger] items_view(items)[i] == json_view(items[i]),
    decreases items.len(),
{
    if items.len() > 0 {
        lemma_items_view(items.drop_last());
        assert forall|i: int| 0 <= i < items.len() implies #[trigger] items_view(items)[i]
            == json_view(items[i]) by {
            if i < items.len() - 1 {
                assert(items_view(items.drop_last())[i] == json_view(items.drop_last()[i]));
            }
        }
    }
}

/// A key that no entry of `entries` from `k` on has is found among the first `k`.
proof fn lemma_entries_prefix(entries: Seq<(String, JsonValue)>, k: int, key: Seq<char>)
    requires
        0 <= k <= entries.len(),
        forall|i: int| k <= i < entries.len() ==> (#[trigger] entries[i]).0@ != key,
    ensures
        entries_view(entries).contains_key(key) == entries_view(entries.take(k)).contains_key(key),
        entries_view(entries).contains_key(key) ==> entries_view(entries)[key] == entries_view(
            entries.take(k),
        )[key],
    decreases entries.len(),
{
    if k == entries.len() {
        assert(entries.take(k) =~= entries);
    } else {
        let shorter = entries.drop_last();
        assert(entries.last() == entries[entries.len() - 1]);
        assert forall|i: int| k <= i < shorter.len() implies (#[trigger] shorter[i]).0@ != key by {
            assert(shorter[i] == entries[i]);
        }
        lemma_entries_prefix(shorter, k, key);
        assert(shorter.take(k) =~= entries.take(k));
    }
}

/// The keys of an object are those of its entries.
proof fn lemma_entries_keys(entries: Seq<(String, JsonValue)>, key: Seq<char>)
    ensures
        entries_view(entries).contains_key(key) <==> exists|i: int|
            0 <= i < entries.len() && (#[trigger] entries[i]).0@ == key,
    decreases entries.len(),
{
    if entries.len() > 0 {
        let shorter = entries.drop_last();
        lemma_entries_keys(shorter, key);
        assert(entries.last() == entries[entries.len() - 1]);
        if exists|i: int| 0 <= i < shorter.len() && (#[trigger] shorter[i]).0@ == key {
            let i = choose|i: int| 0 <= i < shorter.len() && (#[trigger] shorter[i]).0@ == key;
            assert(entries[i].0@ == key);
        }
        if exists|i: int| 0 <= i < entries.len() && (#[trigger] entries[i]).0@ == key {
            let i = choose|i: int| 0 <= i < entries.len() && (#[trigger] entries[i]).0@ == key;
            if i < entries.len() - 1 {
                assert(shorter[i].0@ == key);
            }
        }
    }
}

/// Replacing the value of the last entry with a key replaces the key's value.
proof fn lemma_entries_update(entries: Seq<(String, JsonValue)>, k: int, value: JsonValue)
    requires
        0 <= k < entries.len(),
        forall|i: int| k < i < entries.len() ==> (#[trigger] entries[i]).0@ != entries[k].0@,
    ensures
        entries_view(entries.update(k, (entries[k].0, value))) == entries_view(entries).insert(
            entries[k].0@,
            json_view(value),
        ),
    decreases entries.len(),
{
    let changed = entries.update(k, (entries[k].0, value));
    let key = entries[k].0@;
    if k == entries.len() - 1 {
        assert(changed.drop_last() =~= entries.drop_last());
        assert(entries_view(changed) =~= entries_view(entries).insert(key, json_view(value)));
    } else {
        let shorter = entries.drop_last();
        assert(shorter[k] == entries[k]);
        assert forall|i: int| k < i < shorter.len() implies (#[trigger] shorter[i]).0@
            != shorter[k].0@ by {
            assert(shorter[i] == entries[i]);
        }
        lemma_entries_update(shorter, k, value);
        assert(changed.drop_last() =~= shorter.update(k, (shorter[k].0, value)));
        assert(changed.last() == entries.last());
        assert(entries[entries.len() - 1].0@ != key);
        assert(entries_view(changed) =~= entries_view(entries).insert(key, json_view(value)));
    }
}

impl JsonObject {
    /// The empty object.
    pub fn new() -> (r: Self)
        ensures
            r.deep_view() == Map::<Seq<char>, JsonView>::empty(),
    {
        JsonObject { entries: Vec::new() }
    }

    /// The index after the last entry with a key, zero where there is none.
    fn find(&self, key: &str) -> (r: usize)
        ensures
            r <= self.entries.len(),
            r > 0 ==> self.entries[r - 1].0@ == key@,
            forall|i: int|
                r <= i < self.entries.len() ==> (#[trigger] self.entries@[i]).0@ != key@,
    {
        let mut i: usize = self.entries.len();
        while i > 0
            invariant
                i <= self.entries.len(),
                forall|j: int|
                    i <= j < self.entries.len() ==> (#[trigger] self.entries@[j]).0@ != key@,
            decreases i,
        {
            if same_text(self.entries[i - 1].0.as_str(), key) {
                return i;
            }
            i -= 1;
        }
        0
    }

    /// The value of a key.
    pub fn get(&self, key: &str) -> (r: Option<&JsonValue>)
        ensures
            r.deep_view() == JsonView::Object(self.deep_view()).get(key@),
    {
        let k: usize = self.find(key);
        proof {
            lemma_entries_prefix(self.entries@, k as int, key@);
        }
        if k == 0 {
            assert(self.entries@.take(0).len() == 0);
            None
        } else {
            assert(self.entries@.take(k as int).last() == self.entries@[k - 1]);
            Some(&self.entries[k - 1].1)
        }
    }

    /// Sets the value of a key.
    pub fn insert(&mut self, key: &str, value: JsonValue)
        ensures
            final(self).deep_view() == old(self).deep_view().insert(key@, value.deep_view()),
    {
        let k: usize = self.find(key);
        if k == 0 {
            self.entries.push((key.to_owned(), value));
            assert(self.entries@.drop_last() =~= old(self).entries@);
        } else {
            proof {
                lemma_entries_update(self.entries@, k - 1, value);
            }
            let kept = self.entries[k - 1].0.clone();
            self.entries.set(k - 1, (kept, value));
        }
    }
}

impl JsonObject {
    /// Sets the value of a key, where there is a value.
    pub fn insert_opt(&mut self, key: &str, value: Option<JsonValue>)
        ensures
            final(self).deep_view() == with_opt(old(self).deep_view(), key@, value.deep_view()),
    {
        if let Some(v) = value {
            self.insert(key, v);
        }
    }

    /// Sets a key to a string.
    pub fn insert_str(&mut self, key: &str, value: &str)
        ensures
            final(self).deep_view() == old(self).deep_view().insert(
                key@,
                JsonView::Str(value@),
            ),
    {
        self.insert(key, JsonValue::string(value));
    }

    /// Sets a key to a string, where there is one.
    pub fn insert_opt_str(&mut self, key: &str, value: &Option<String>)
        ensures
            final(self).deep_view() == with_opt(
                old(self).deep_view(),
                key@,
                opt_str(value.deep_view()),
            ),
    {
        if let Some(v) = value {
            self.insert_str(key, v.as_str());
        }
    }

    /// Sets a key to a truth value, where there is one.
    pub fn insert_opt_bool(&mut self, key: &str, value: Option<bool>)
        ensures
            final(self).deep_view() == with_opt(old(self).deep_view(), key@, opt_bool(value)),
    {
        if let Some(b) = value {
            self.insert(key, JsonValue::Bool(b));
        }
    }

    /// Sets a key to a string, or to null where there is none.
    pub fn insert_str_or_null(&mut self, key: &str, value: Option<&str>)
        ensures
            final(self).deep_view() == old(self).deep_view().insert(
                key@,
                str_or_null(value.deep_view()),
            ),
    {
        match value {
            Some(v) => self.insert_str(key, v),
            None => self.insert(key, JsonValue::Null),
        }
    }
}

impl Clone for JsonValue {
    fn clone(&self) -> (r: Self)
        ensures
            r.deep_view() == self.deep_view(),
        decreases *self,
    {
        match self {
            JsonValue::Null => JsonValue::Null,
            JsonValue::Bool(b) => JsonValue::Bool(*b),
            JsonValue::Number(n) => JsonValue::Number(n.clone()),
            JsonValue::Str(s) => JsonValue::Str(s.clone()),
            JsonValue::Array(items) => {
                let mut copy: Vec<JsonValue> = Vec::new();
                let mut i: usize = 0;
                while i < items.len()
                    invariant
                        i <= items.len(),
                        decreases_to!(*self => items@),
                        copy.len() == i,
                        forall|j: int|
                            0 <= j < i ==> json_view(#[trigger] copy@[j]) == json_view(items@[j]),
                    decreases items.len() - i,
                {
                    let item = items[i].clone();
                    copy.push(item);
                    i += 1;
                }
                proof {
                    lemma_items_view(items@);
                    lemma_items_view(copy@);
                    assert(items_view(copy@) =~= items_view(items@));
                }
                JsonValue::Array(copy)
            },
            JsonValue::Object(o) => JsonValue::Object(o.clone()),
        }
    }
}

impl Clone for JsonObject {
    fn clone(&self) -> (r: Self)
        ensures
            r.deep_view() == self.deep_view(),
        decreases *self,
    {
        let mut copy: Vec<(String, JsonValue)> = Vec::new();
        let mut i: usize = 0;
        assert(self.entries@.take(0) =~= Seq::empty());
        while i < self.entries.len()
            invariant
                i <= self.entries.len(),
                entries_view(copy@) == entries_view(self.entries@.take(i as int)),
            decreases self.entries.len() - i,
        {
            let key = self.entries[i].0.clone();
            let value = self.entries[i].1.clone();
            let ghost before = copy@;
            copy.push((key, value));
            assert(copy@.drop_last() =~= before);
            assert(self.entries@.take(i + 1).drop_last() =~= self.entries@.take(i as int));
            i += 1;
        }
        assert(self.entries@.take(i as int) =~= self.entries@);
        JsonObject { entries: copy }
    }
}

/// Whether two values are the same.
fn same_value(a: &JsonValue, b: &JsonValue) -> (r: bool)
    ensures
        r == (json_view(*a) == json_view(*b)),
    decreases *a,
{
    match (a, b) {
        (JsonValue::Null, JsonValue::Null) => true,
        (JsonValue::Bool(x), JsonValue::Bool(y)) => *x == *y,
        (JsonValue::Number(x), JsonValue::Number(y)) => same_text(x.as_str(), y.as_str()),
        (JsonValue::Str(x), JsonValue::Str(y)) => same_text(x.as_str(), y.as_str()),
        (JsonValue::Array(x), JsonValue::Array(y)) => {
            proof {
                lemma_items_view(x@);
                lemma_items_view(y@);
            }
            if x.len() != y.len() {
                return false;
            }
            let mut i: usize = 0;
            while i < x.len()
                invariant
                    i <= x.len(),
                    x.len() == y.len(),
                    json_view(*a) == JsonView::Array(items_view(x@)),
                    json_view(*b) == JsonView::Array(items_view(y@)),
                    decreases_to!(*a => x@),
                    items_view(x@).len() == x.len(),
                    items_view(y@).len() == y.len(),
                    forall|j: int|
                        0 <= j < x.len() ==> #[trigger] items_view(x@)[j] == json_view(x@[j]),
                    forall|j: int|
                        0 <= j < y.len() ==> #[trigger] items_view(y@)[j] == json_view(y@[j]),
                    forall|j: int|
                        0 <= j < i ==> #[trigger] items_view(x@)[j] == items_view(y@)[j],
                decreases x.len() - i,
            {
                if !same_value(&x[i], &y[i]) {
                    assert(items_view(x@)[i as int] != items_view(y@)[i as int]);
                    return false;
                }
                i += 1;
            }
            assert(items_view(x@) =~= items_view(y@));
            true
        },
        (JsonValue::Object(x), JsonValue::Object(y)) => same_object(x, y),
        _ => false,
    }
}

/// Whether two objects are the same.
fn same_object(a: &JsonObject, b: &JsonObject) -> (r: bool)
    ensures
        r == (a.deep_view() == b.deep_view()),
    decreases *a,
{
    let ghost x = a.deep_view();
    let ghost y = b.deep_view();
    let mut i: usize = 0;
    while i < a.entries.len()
        invariant
            i <= a.entries.len(),
            x == a.deep_view(),
            y == b.deep_view(),
            forall|j: int|
                0 <= j < i ==> {
                    let key = (#[trigger] a.entries@[j]).0@;
                    x.contains_key(key) && y.contains_key(key) && x[key] == y[key]
                },
        decreases a.entries.len() - i,
    {
        let key = a.entries[i].0.as_str();
        proof {
            lemma_entries_keys(a.entries@, key@);
            assert(a.entries@[i as int].0@ == key@);
        }
        let k: usize = a.find(key);
        proof {
            lemma_entries_prefix(a.entries@, k as int, key@);
            if k == 0 {
                assert(a.entries@.take(0).len() == 0);
            } else {
                assert(a.entries@.take(k as int).last() == a.entries@[k - 1]);
            }
        }
        match b.get(key) {
            Some(value) => {
                if !same_value(&a.entries[k - 1].1, value) {
                    return false;
                }
            },
            None => {
                return false;
            },
        }
        i += 1;
    }
    let mut i: usize = 0;
    while i < b.entries.len()
        invariant
            i <= b.entries.len(),
            x == a.deep_view(),
            y == b.deep_view(),
            forall|j: int| 0 <= j < i ==> x.contains_key((#[trigger] b.entries@[j]).0@),
        decreases b.entries.len() - i,
    {
        let key = b.entries[i].0.as_str();
        proof {
            lemma_entries_keys(b.entries@, key@);
            assert(b.entries@[i as int].0@ == key@);
        }
        if a.get(key).is_none() {
            return false;
        }
        i += 1;
    }
    proof {
        assert forall|key: Seq<char>| #[trigger] x.contains_key(key) == #[trigger] y.contains_key(
            key,
        ) by {
            lemma_entries_keys(a.entries@, key);
            lemma_entries_keys(b.entries@, key);
        }
        assert forall|key: Seq<char>| x.contains_key(key) implies #[trigger] x[key] == y[key] by {
            lemma_entries_keys(a.entries@, key);
        }
        assert(x =~= y);
    }
    true
}

impl PartialEq for JsonValue {
    fn eq(&self, other: &Self) -> (r: bool) {
        same_value(self, other)
    }
}

impl vstd::std_specs::cmp::PartialEqSpecImpl for JsonValue {
    open spec fn obeys_eq_spec() -> bool {
        true
    }

    open spec fn eq_spec(&self, other: &Self) -> bool {
        self.deep_view() == other.deep_view()
    }
}

impl PartialEq for JsonObject {
    fn eq(&self, other: &Self) -> (r: bool) {
        same_object(self, other)
    }
}

impl vstd::std_specs::cmp::PartialEqSpecImpl for JsonObject {
    open spec fn obeys_eq_spec() -> bool {
        true
    }

    open spec fn eq_spec(&self, other: &Self) -> bool {
        self.deep_view() == other.deep_view()
    }
}

impl JsonValue {
    /// The value of a key of an object; nothing for a value of another kind.
    pub fn get(&self, key: &str) -> (r: Option<&JsonValue>)
        ensures
            r.deep_view() == self.deep_view().get(key@),
    {
        match self {
            JsonValue::Object(o) => o.get(key),
            _ => None,
        }
    }

    /// The text of a string; nothing for a value of another kind.
    pub fn as_str(&self) -> (r: Option<&str>)
        ensures
            r.deep_view() == self.deep_view().as_str(),
    {
        match self {
            JsonValue::Str(s) => Some(s.as_str()),
            _ => None,
        }
    }

    /// The string under a key.
    pub fn text(&self, key: &str) -> (r: Option<&str>)
        ensures
            r.deep_view() == self.deep_view().text(key@),
    {
        match self.get(key) {
            Some(v) => v.as_str(),
            None => None,
        }
    }

    /// The string under a key, where it is not empty.
    pub fn filled_text(&self, key: &str) -> (r: Option<&str>)
        ensures
            r.deep_view() == self.deep_view().filled_text(key@),
    {
        match self.text(key) {
            Some(s) => if s.is_empty() {
                None
            } else {
                Some(s)
            },
            None => None,
        }
    }

    /// A string value.
    pub fn string(s: &str) -> (r: Self)
        ensures
            r.deep_view() == JsonView::Str(s@),
    {
        JsonValue::Str(s.to_owned())
    }

    /// A number value.
    pub fn number(n: i64) -> (r: Self)
        ensures
            r.deep_view() == JsonView::Number(text::decimal_int_spec(n as int)),
    {
        JsonValue::Number(decimal_i64(n))
    }

    /// An array of strings.
    pub fn strings(texts: &Vec<String>) -> (r: Self)
        ensures
            r.deep_view() == str_array(texts.deep_view()),
    {
        let mut items: Vec<JsonValue> = Vec::new();
        let mut i: usize = 0;
        while i < texts.len()
            invariant
                i <= texts.len(),
                items.len() == i,
                forall|j: int|
                    0 <= j < i ==> json_view(#[trigger] items@[j]) == JsonView::Str(texts@[j]@),
            decreases texts.len() - i,
        {
            items.push(JsonValue::string(texts[i].as_str()));
            i += 1;
        }
        proof {
            lemma_items_view(items@);
            assert(items_view(items@) =~= texts.deep_view().map_values(
                |s: Seq<char>| JsonView::Str(s),
            ));
        }
        JsonValue::Array(items)
    }

    /// The empty object.
    pub fn empty_object() -> (r: Self)
        ensures
            r.deep_view() == empty_object(),
    {
        JsonValue::Object(JsonObject::new())
    }
}

} // verus!
