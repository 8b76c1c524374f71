//! Laws of text and of JSON values.

use crate::json;
use crate::json::{JsonObject, JsonValue, JsonView};
use crate::text;
use vstd::prelude::*;

verus! {

/// Whitespace is what Unicode calls so, by code point.
pub proof fn law_white_space(c: char)
    ensures
        text::is_white_space(c) <==> {
            let n = c as u32;
            ||| 9 <= n <= 13
            ||| 0x2000 <= n <= 0x200a
            ||| n == 32 || n == 0x85 || n == 0xa0 || n == 0x1680
            ||| n == 0x2028 || n == 0x2029 || n == 0x202f || n == 0x205f || n == 0x3000
        },
{
}

proof fn lemma_trim_start_cut(s: Seq<char>) -> (k: int)
    ensures
        0 <= k <= s.len(),
        text::trim_start_spec(s) == s.skip(k),
        forall|i: int| 0 <= i < k ==> text::is_white_space(#[trigger] s[i]),
        k < s.len() ==> !text::is_white_space(s[k]),
    decreases s.len(),
{
    if s.len() > 0 && text::is_white_space(s[0]) {
        let k = lemma_trim_start_cut(s.skip(1));
        assert(s.skip(1).skip(k) =~= s.skip(k + 1));
        assert forall|i: int| 0 <= i < k + 1 implies text::is_white_space(#[trigger] s[i]) by {
            if i > 0 {
                assert(s.skip(1)[i - 1] == s[i]);
            }
        }
        if k + 1 < s.len() {
            assert(s.skip(1)[k] == s[k + 1]);
        }
        k + 1
    } else {
        assert(s.skip(0) =~= s);
        0
    }
}

proof fn lemma_trim_end_cut(s: Seq<char>) -> (k: int)
    ensures
        0 <= k <= s.len(),
        text::trim_end_spec(s) == s.take(k),
        forall|i: int| k <= i < s.len() ==> text::is_white_space(#[trigger] s[i]),
        k > 0 ==> !text::is_white_space(s[k - 1]),
    decreases s.len(),
{
    if s.len() > 0 && text::is_white_space(s.last()) {
        let shorter = s.drop_last();
        let k = lemma_trim_end_cut(shorter);
        assert(shorter.take(k) =~= s.take(k));
        assert forall|i: int| k <= i < s.len() implies text::is_white_space(#[trigger] s[i]) by {
            if i < shorter.len() {
                assert(shorter[i] == s[i]);
            }
        }
        if k > 0 {
            assert(shorter[k - 1] == s[k - 1]);
        }
        k
    } else {
        assert(s.take(s.len() as int) =~= s);
        s.len() as int
    }
}

/// Trimming cuts whitespace off both ends, all of it and nothing else.
pub proof fn law_trim_cuts(s: Seq<char>)
    ensures
        exists|i: int, j: int|
            {
                &&& 0 <= i <= j <= s.len()
                &&& text::trim_spec(s) == #[trigger] s.subrange(i, j)
                &&& forall|k: int|
                    0 <= k < i || j <= k < s.len() ==> text::is_white_space(#[trigger] s[k])
                &&& i < j ==> !text::is_white_space(s[i]) && !text::is_white_space(s[j - 1])
            },
{
    let i = lemma_trim_start_cut(s);
    let rest = s.skip(i);
    let n = lemma_trim_end_cut(rest);
    let j = i + n;
    assert(rest.take(n) =~= s.subrange(i, j));
    assert forall|k: int| 0 <= k < i || j <= k < s.len() implies text::is_white_space(
        #[trigger] s[k],
    ) by {
        if k >= j {
            assert(rest[k - i] == s[k]);
        }
    }
    if i < j {
        assert(rest[0] == s[i]);
        assert(rest[n - 1] == s[j - 1]);
    }
    assert(text::trim_spec(s) == s.subrange(i, j));
}

/// A character is cut off the end as often as it stands there, and no other is.
pub proof fn law_strip_end_cuts(s: Seq<char>, c: char)
    ensures
        exists|j: int|
            {
                &&& 0 <= j <= s.len()
                &&& text::strip_end_spec(s, c) == #[trigger] s.take(j)
                &&& forall|k: int| j <= k < s.len() ==> #[trigger] s[k] == c
                &&& j > 0 ==> s[j - 1] != c
            },
    decreases s.len(),
{
    if s.len() > 0 && s.last() == c {
        let shorter = s.drop_last();
        law_strip_end_cuts(shorter, c);
        let j = choose|j: int|
            {
                &&& 0 <= j <= shorter.len()
                &&& text::strip_end_spec(shorter, c) == #[trigger] shorter.take(j)
                &&& forall|k: int| j <= k < shorter.len() ==> #[trigger] shorter[k] == c
                &&& j > 0 ==> shorter[j - 1] != c
            };
        assert(shorter.take(j) =~= s.take(j));
        assert forall|k: int| j <= k < s.len() implies #[trigger] s[k] == c by {
            if k < shorter.len() {
                assert(shorter[k] == s[k]);
            }
        }
    } else {
        assert(s.take(s.len() as int) =~= s);
    }
}

/// Lower casing changes the letters from `A` to `Z`, in place, and nothing else.
pub proof fn law_lower_letters(s: Seq<char>, i: int)
    requires
        0 <= i < s.len(),
    ensures
        text::lower_spec(s).len() == s.len(),
        65 <= s[i] as u32 <= 90 ==> text::lower_spec(s)[i] as u32 == s[i] as u32 + 32,
        !(65 <= s[i] as u32 <= 90) ==> text::lower_spec(s)[i] == s[i],
{
}

proof fn lemma_decimal(n: nat)
    ensures
        text::decimal_spec(n).len() > 0,
        text::all_digits(text::decimal_spec(n)),
        text::digits_value(text::decimal_spec(n)) == n,
        n >= 10 ==> text::decimal_spec(n)[0] != '0',
        n > 0 ==> text::decimal_spec(n)[0] != '0',
    decreases n,
{
    let s = text::decimal_spec(n);
    if n < 10 {
        assert(s.drop_last() =~= Seq::empty());
        assert(text::digits_value(s.drop_last()) == 0);
        assert(s.last() == text::digit_char(n));
    } else {
        let m = n / 10;
        lemma_decimal(m);
        let t = text::decimal_spec(m);
        assert(s.drop_last() =~= t);
        assert(s.last() == text::digit_char(n % 10));
        assert forall|i: int| 0 <= i < s.len() implies text::is_digit(#[trigger] s[i]) by {
            if i < t.len() {
                assert(t[i] == s[i]);
            }
        }
        assert(s[0] == t[0]);
    }
}

/// A number in decimal notation is digits only, without leading zeros, after a
/// minus sign where it is negative; and it is read back as that number.
pub proof fn law_decimal_roundtrip(n: i64)
    ensures
        text::parse_i64_spec(text::decimal_int_spec(n as int)) == Some(n),
        n < 0 <==> text::decimal_int_spec(n as int)[0] == '-',
        n > 0 ==> text::decimal_int_spec(n as int)[0] != '0',
        forall|i: int|
            1 <= i < text::decimal_int_spec(n as int).len() ==> '0'
                <= #[trigger] text::decimal_int_spec(n as int)[i] <= '9',
{
    let m: nat = if n < 0 {
        (-(n as int)) as nat
    } else {
        n as nat
    };
    lemma_decimal(m);
    let s = text::decimal_int_spec(n as int);
    let d = text::decimal_spec(m);
    assert(text::is_digit(d[0]));
    if n < 0 {
        assert(s.skip(1) =~= d);
        assert(text::unsigned_part(s) == d);
        assert forall|i: int| 1 <= i < s.len() implies '0' <= #[trigger] s[i] <= '9' by {
            assert(text::is_digit(d[i - 1]));
        }
    } else {
        assert(s == d);
        assert(text::unsigned_part(s) == d);
        assert forall|i: int| 1 <= i < s.len() implies '0' <= #[trigger] s[i] <= '9' by {
            assert(text::is_digit(d[i]));
        }
    }
}

/// A natural number in decimal notation has its value, digits only, and no
/// leading zero.
pub proof fn law_decimal(n: nat)
    ensures
        text::digits_value(text::decimal_spec(n)) == n,
        text::decimal_spec(n).len() > 0,
        forall|i: int|
            0 <= i < text::decimal_spec(n).len() ==> '0' <= #[trigger] text::decimal_spec(n)[i]
                <= '9',
        n > 0 ==> text::decimal_spec(n)[0] != '0',
{
    lemma_decimal(n);
    assert forall|i: int| 0 <= i < text::decimal_spec(n).len() implies '0'
        <= #[trigger] text::decimal_spec(n)[i] <= '9' by {
        assert(text::is_digit(text::decimal_spec(n)[i]));
    }
}

/// One more digit makes ten times the value and the digit.
pub proof fn law_digits_value(s: Seq<char>, d: char)
    ensures
        text::digits_value(Seq::empty()) == 0,
        text::digits_value(s.push(d)) == 10 * text::digits_value(s) + (d as u32 - 48),
{
    assert(s.push(d).drop_last() =~= s);
}

/// A number is read from digits, after one sign at most; a plus sign changes
/// nothing, a minus sign negates. Anything else is no number.
pub proof fn law_parse_signs(s: Seq<char>, i: int)
    ensures
        text::parse_i64_spec(Seq::empty()) is None,
        0 < i < s.len() && !('0' <= s[i] <= '9') ==> text::parse_i64_spec(s) is None,
        s.len() > 0 && !('0' <= s[0] <= '9') && s[0] != '-' && s[0] != '+'
            ==> text::parse_i64_spec(s) is None,
        s.len() > 0 && '0' <= s[0] <= '9' ==> text::parse_i64_spec(seq!['+'] + s)
            == text::parse_i64_spec(s),
        s.len() > 0 && '0' <= s[0] <= '9' && text::parse_i64_spec(s) is Some
            ==> text::parse_i64_spec(seq!['-'] + s) == Some(
            (-text::parse_i64_spec(s)->0) as i64,
        ) && text::parse_i64_spec(s)->0 == text::digits_value(s),
{
    let u = text::unsigned_part(s);
    if 0 < i < s.len() && !('0' <= s[i] <= '9') {
        if s[0] == '-' || s[0] == '+' {
            assert(u[i - 1] == s[i]);
            assert(!text::is_digit(u[i - 1]));
        } else {
            assert(!text::is_digit(u[i]));
        }
    }
    if s.len() > 0 && !('0' <= s[0] <= '9') && s[0] != '-' && s[0] != '+' {
        assert(!text::is_digit(u[0]));
    }
    if s.len() > 0 && '0' <= s[0] <= '9' {
        assert((seq!['+'] + s).skip(1) =~= s);
        assert((seq!['-'] + s).skip(1) =~= s);
        if text::parse_i64_spec(s) is Some {
            lemma_digits_not_negative(s);
        }
    }
}

proof fn lemma_digits_not_negative(s: Seq<char>)
    requires
        text::all_digits(s),
    ensures
        text::digits_value(s) >= 0,
    decreases s.len(),
{
    if s.len() > 0 {
        let shorter = s.drop_last();
        assert forall|i: int| 0 <= i < shorter.len() implies text::is_digit(
            #[trigger] shorter[i],
        ) by {
            assert(text::is_digit(s[i]));
        }
        lemma_digits_not_negative(shorter);
        assert(text::is_digit(s[s.len() - 1]));
    }
}

/// A key that was set has its value, the other keys keep theirs, and only objects
/// have keys.
pub proof fn law_get(
    object: Map<Seq<char>, JsonView>,
    key: Seq<char>,
    value: JsonView,
    other: Seq<char>,
)
    ensures
        JsonView::Object(object.insert(key, value)).get(key) == Some(value),
        other != key ==> JsonView::Object(object.insert(key, value)).get(other)
            == JsonView::Object(object).get(other),
        JsonView::Object(object.remove(key)).get(key) is None,
        !(value is Object) ==> value.get(key) is None,
{
}

/// A string under a key is read as its characters; another value, and a key that
/// is not there, as none. An empty string is passed over where a filled one is
/// asked for.
pub proof fn law_text(value: JsonView, key: Seq<char>)
    ensures
        value.get(key) is None ==> value.text(key) is None && value.filled_text(key) is None,
        value.get(key) matches Some(JsonView::Str(s)) ==> value.text(key) == Some(s) && (
        s.len() > 0 ==> value.filled_text(key) == Some(s)) && (s.len() == 0 ==> value.filled_text(
            key,
        ) is None),
        value.get(key) is Some && !(value.get(key)->0 is Str) ==> value.text(key) is None
            && value.filled_text(key) is None,
{
}

/// Of two optional things the first that is there counts; a blank is made of one
/// that is empty; and an absent one is null, or is left out.
pub proof fn law_optional(
    a: Option<Seq<char>>,
    b: Option<Seq<char>>,
    object: Map<Seq<char>, JsonView>,
    key: Seq<char>,
    value: JsonView,
)
    ensures
        a is Some ==> json::or_else(a, b) == a,
        a is None ==> json::or_else(a, b) == b,
        a is Some && a->0.len() > 0 ==> json::filled(a) == a,
        a is None || a->0.len() == 0 ==> json::filled(a) is None,
        a is Some ==> json::str_or_null(a) == JsonView::Str(a->0) && json::opt_str(a) == Some(
            JsonView::Str(a->0),
        ),
        a is None ==> json::str_or_null(a) is Null && json::opt_str(a) is None,
        json::with_opt(object, key, Some(value)) == object.insert(key, value),
        json::with_opt(object, key, None) == object,
        json::empty_object() is Object,
        json::empty_object().get(key) is None,
        json::opt_bool(Some(true)) == Some(JsonView::Bool(true)),
        json::opt_bool(Some(false)) == Some(JsonView::Bool(false)),
        json::opt_bool(None) is None,
{
}

/// An array of strings holds each of them, in order.
pub proof fn law_string_array(texts: Seq<Seq<char>>, i: int)
    requires
        0 <= i < texts.len(),
    ensures
        json::str_array(texts) is Array,
        json::str_array(texts)->Array_0.len() == texts.len(),
        json::str_array(texts)->Array_0[i] == JsonView::Str(texts[i]),
        json::opt_str_array(texts) == Some(json::str_array(texts)),
        json::opt_str_array(Seq::empty()) is None,
{
}

proof fn lemma_last_entry(entries: Seq<(String, JsonValue)>, k: int)
    requires
        0 <= k < entries.len(),
        forall|i: int| k < i < entries.len() ==> (#[trigger] entries[i]).0@ != entries[k].0@,
    ensures
        json::entries_view(entries).contains_key(entries[k].0@),
        json::entries_view(entries)[entries[k].0@] == json::json_view(entries[k].1),
    decreases entries.len(),
{
    let shorter = entries.drop_last();
    if k < entries.len() - 1 {
        assert(shorter[k] == entries[k]);
        assert forall|i: int| k < i < shorter.len() implies (#[trigger] shorter[i]).0@
            != shorter[k].0@ by {
            assert(shorter[i] == entries[i]);
        }
        lemma_last_entry(shorter, k);
        assert(entries.last() == entries[entries.len() - 1]);
    }
}

proof fn lemma_no_entry(entries: Seq<(String, JsonValue)>, key: Seq<char>)
    requires
        forall|i: int| 0 <= i < entries.len() ==> (#[trigger] entries[i]).0@ != key,
    ensures
        !json::entries_view(entries).contains_key(key),
    decreases entries.len(),
{
    if entries.len() > 0 {
        let shorter = entries.drop_last();
        assert forall|i: int| 0 <= i < shorter.len() implies (#[trigger] shorter[i]).0@ != key by {
            assert(shorter[i] == entries[i]);
        }
        lemma_no_entry(shorter, key);
        assert(entries.last() == entries[entries.len() - 1]);
    }
}

/// The value of a key of an object is that of the last entry with the key; a key
/// without entry has none.
pub proof fn law_last_entry_counts(object: JsonObject, k: int, key: Seq<char>)
    ensures
        0 <= k < object.entries@.len() && (forall|i: int|
            k < i < object.entries@.len() ==> (#[trigger] object.entries@[i]).0@
                != object.entries@[k].0@) ==> JsonValue::Object(object).deep_view().get(
            object.entries@[k].0@,
        ) == Some(object.entries@[k].1.deep_view()),
        (forall|i: int| 0 <= i < object.entries@.len() ==> (#[trigger] object.entries@[i]).0@ != key)
            ==> JsonValue::Object(object).deep_view().get(key) is None,
{
    if 0 <= k < object.entries@.len() && (forall|i: int|
        k < i < object.entries@.len() ==> (#[trigger] object.entries@[i]).0@
            != object.entries@[k].0@) {
        lemma_last_entry(object.entries@, k);
    }
    if forall|i: int| 0 <= i < object.entries@.len() ==> (#[trigger] object.entries@[i]).0@ != key {
        lemma_no_entry(object.entries@, key);
    }
}

/// A value is modelled by what it is: its text, its truth, its items in order.
pub proof fn law_json_model(s: String, b: bool, items: Vec<JsonValue>, i: int)
    requires
        0 <= i < items@.len(),
    ensures
        JsonValue::Null.deep_view() is Null,
        JsonValue::Bool(b).deep_view() == JsonView::Bool(b),
        JsonValue::Number(s).deep_view() == JsonView::Number(s@),
        JsonValue::Str(s).deep_view() == JsonView::Str(s@),
        JsonValue::Array(items).deep_view() is Array,
        JsonValue::Array(items).deep_view()->Array_0.len() == items@.len(),
        JsonValue::Array(items).deep_view()->Array_0[i] == items@[i].deep_view(),
{
    json::lemma_items_view(items@);
}

} // verus!
