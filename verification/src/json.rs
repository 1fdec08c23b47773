//! JSON: the mathematical value that a `serde_json::Value` stands for, and the calls into
//! `serde_json` that the library makes.
//!
//! Reading, building, parsing and writing JSON is `serde_json`'s work. The trusted items of
//! this file say what its functions do to the value that `json_of` names.

use serde_json::Value;
use vstd::prelude::*;

use crate::text;
use crate::text_map;
use crate::text_map::TextMap;

verus! {

broadcast use vstd::string::group_string_axioms;

/// A JSON value. A number that is not an integer is given by the bits of its `f64`.
pub enum Json {
    Null,
    Bool(bool),
    Unsigned(u64),
    Negative(i64),
    Float(u64),
    Text(Seq<char>),
    List(Seq<Json>),
    Object(Map<Seq<char>, Json>),
}

impl Json {
    /// What stands under `key`, where the value is an object that has it.
    pub open spec fn member(self, key: Seq<char>) -> Option<Json> {
        match self {
            Json::Object(m) => if m.contains_key(key) {
                Some(m[key])
            } else {
                None
            },
            _ => None,
        }
    }

    /// The text, where the value is one.
    pub open spec fn text(self) -> Option<Seq<char>> {
        match self {
            Json::Text(s) => Some(s),
            _ => None,
        }
    }

    /// The number, where the value is an integer that is not negative.
    pub open spec fn unsigned(self) -> Option<u64> {
        match self {
            Json::Unsigned(n) => Some(n),
            _ => None,
        }
    }

    /// The items under `key`; none where no array stands there.
    pub open spec fn member_items(self, key: Seq<char>) -> Seq<Json> {
        match self.member(key) {
            Some(Json::List(items)) => items,
            _ => Seq::empty(),
        }
    }

    /// The text under `key`.
    pub open spec fn member_text(self, key: Seq<char>) -> Option<Seq<char>> {
        match self.member(key) {
            Some(j) => j.text(),
            None => None,
        }
    }
}

/// The values that a row of `serde_json` values stands for.
pub open spec fn jsons(items: Seq<Value>) -> Seq<Json> {
    Seq::new(items.len(), |i: int| json_of(items[i]))
}

/// An optional text as JSON: `null` where it is absent.
pub open spec fn optional_text(s: Option<Seq<char>>) -> Json {
    match s {
        Some(t) => Json::Text(t),
        None => Json::Null,
    }
}

/// Texts as JSON.
pub open spec fn text_list(s: Seq<Seq<char>>) -> Json {
    Json::List(Seq::new(s.len(), |i: int| Json::Text(s[i])))
}

/// A map of texts as JSON.
pub open spec fn text_object(m: Map<Seq<char>, Seq<char>>) -> Json {
    Json::Object(Map::new(|k: Seq<char>| m.contains_key(k), |k: Seq<char>| Json::Text(m[k])))
}

/// The members of an empty object.
pub open spec fn no_members() -> Map<Seq<char>, Json> {
    Map::empty()
}

/// The keys of an object in the order of code points, none twice.
pub open spec fn in_order(keys: Seq<Seq<char>>) -> bool {
    forall|i: int, j: int|
        0 <= i < j < keys.len() ==> #[trigger] text::at_most(keys[i], keys[j]) && keys[i] != keys[j]
}

/// `keys` are the names of the members of an object.
pub open spec fn are_keys(m: Map<Seq<char>, Json>, keys: Seq<Seq<char>>) -> bool {
    forall|k: Seq<char>| #[trigger] m.contains_key(k) <==> keys.contains(k)
}

/// The names of the members of an object, in the order of code points.
pub open spec fn ordered_keys(m: Map<Seq<char>, Json>) -> Seq<Seq<char>> {
    choose|keys: Seq<Seq<char>>| are_keys(m, keys) && #[trigger] in_order(keys)
}

proof fn lemma_one_of_two(a: Seq<char>, b: Seq<char>, i: int)
    requires
        0 <= i <= a.len(),
        i <= b.len(),
        a.take(i) == b.take(i),
        text::at_most_from(a, b, i),
        text::at_most_from(b, a, i),
    ensures
        a == b,
    decreases a.len() - i,
{
    if i < a.len() && i < b.len() {
        assert(a.take(i + 1) =~= a.take(i).push(a[i]));
        assert(b.take(i + 1) =~= b.take(i).push(b[i]));
        lemma_one_of_two(a, b, i + 1);
    } else {
        assert(a.take(i) =~= a);
        assert(b.take(i) =~= b);
    }
}

proof fn lemma_same_last(a: Seq<Seq<char>>, b: Seq<Seq<char>>)
    requires
        in_order(a),
        in_order(b),
        a.len() > 0,
        b.len() > 0,
        forall|k: Seq<char>| #[trigger] a.contains(k) <==> b.contains(k),
    ensures
        a.last() == b.last(),
{
    let x = a.last();
    let y = b.last();
    assert(a.contains(x));
    assert(b.contains(y));
    assert(a.contains(y));
    let i = b.index_of(x);
    let j = a.index_of(y);
    if x != y {
        assert(i < b.len() - 1);
        assert(j < a.len() - 1);
        assert(text::at_most(b[i], b[b.len() - 1]));
        assert(text::at_most(a[j], a[a.len() - 1]));
        assert(x.take(0) =~= y.take(0));
        lemma_one_of_two(x, y, 0);
    }
}

/// There is one order of the names.
proof fn lemma_one_order(a: Seq<Seq<char>>, b: Seq<Seq<char>>)
    requires
        in_order(a),
        in_order(b),
        forall|k: Seq<char>| #[trigger] a.contains(k) <==> b.contains(k),
    ensures
        a == b,
    decreases a.len(),
{
    if a.len() == 0 {
        if b.len() > 0 {
            assert(b.contains(b[0]));
            assert(a.contains(b[0]));
        }
        assert(a =~= b);
    } else {
        assert(a.contains(a[0]));
        let x = a.drop_last();
        let y = b.drop_last();
        lemma_same_last(a, b);
        assert(in_order(x)) by {
            assert forall|i: int, j: int| 0 <= i < j < x.len() implies #[trigger] text::at_most(x[i], x[j]) && x[i] != x[j] by {
                assert(text::at_most(a[i], a[j]));
            }
        }
        assert(in_order(y)) by {
            assert forall|i: int, j: int| 0 <= i < j < y.len() implies #[trigger] text::at_most(y[i], y[j]) && y[i] != y[j] by {
                assert(text::at_most(b[i], b[j]));
            }
        }
        assert forall|k: Seq<char>| #[trigger] x.contains(k) <==> y.contains(k) by {
            lemma_without_last(a, k);
            lemma_without_last(b, k);
        }
        lemma_one_order(x, y);
        assert(a =~= x.push(a.last()));
        assert(b =~= y.push(b.last()));
    }
}

proof fn lemma_without_last(keys: Seq<Seq<char>>, k: Seq<char>)
    requires
        in_order(keys),
        keys.len() > 0,
    ensures
        keys.drop_last().contains(k) <==> keys.contains(k) && k != keys.last(),
{
    let rest = keys.drop_last();
    if rest.contains(k) {
        let i = rest.index_of(k);
        assert(keys[i] == k);
        assert(text::at_most(keys[i], keys[keys.len() - 1]));
    }
    if keys.contains(k) && k != keys.last() {
        let i = keys.index_of(k);
        assert(rest[i] == k);
    }
}

/// What lists the names in the order of code points is the order of the names.
pub proof fn lemma_ordered_keys(m: Map<Seq<char>, Json>, keys: Seq<Seq<char>>)
    requires
        are_keys(m, keys),
        in_order(keys),
    ensures
        ordered_keys(m) == keys,
{
    let order = ordered_keys(m);
    assert(are_keys(m, order) && in_order(order));
    assert forall|k: Seq<char>| #[trigger] order.contains(k) <==> keys.contains(k) by {
        assert(m.contains_key(k) <==> order.contains(k));
        assert(m.contains_key(k) <==> keys.contains(k));
    }
    lemma_one_order(order, keys);
}

// ---------------------------------------------------------------------------------------
// serde_json
// ---------------------------------------------------------------------------------------

#[verifier::external_type_specification]
#[verifier::external_body]
pub struct ExValue(serde_json::Value);

#[verifier::external_type_specification]
#[verifier::external_body]
#[verifier::reject_recursive_types(K)]
#[verifier::reject_recursive_types(V)]
pub struct ExMap<K, V>(serde_json::Map<K, V>);

/// The value that a `serde_json::Value` holds.
pub uninterp spec fn json_of(v: Value) -> Json;

/// The members that a `serde_json::Map` holds.
pub uninterp spec fn members(m: serde_json::Map<String, Value>) -> Map<Seq<char>, Json>;

/// The compact text that `serde_json` writes for a value.
pub uninterp spec fn compact_text(j: Json) -> Option<Seq<char>>;

/// The indented text that `serde_json` writes for a value.
pub uninterp spec fn pretty_text(j: Json) -> Option<Seq<char>>;

/// The value that `serde_json` reads from a text, where the text is JSON.
pub uninterp spec fn parsed(s: Seq<char>) -> Option<Json>;

/// `serde_json::from_str`, for a `Value`: what is read depends on the text alone.
#[verifier::external_body]
pub(crate) fn parse(s: &str) -> (r: Option<Value>)
    ensures
        match r {
            Some(v) => parsed(s@) == Some(json_of(v)),
            None => parsed(s@) is None,
        },
{
    serde_json::from_str(s).ok()
}

/// `serde_json::to_string`, for a `Value`: what is written depends on the value alone.
#[verifier::external_body]
pub(crate) fn write_compact(v: &Value) -> (r: Option<String>)
    ensures
        r.deep_view() == compact_text(json_of(*v)),
{
    serde_json::to_string(v).ok()
}

/// `serde_json::to_string_pretty`, for a `Value`: what is written depends on the value alone.
#[verifier::external_body]
pub(crate) fn write_pretty(v: &Value) -> (r: Option<String>)
    ensures
        r.deep_view() == pretty_text(json_of(*v)),
{
    serde_json::to_string_pretty(v).ok()
}

/// `Value::get` with a key: the member of that name, where the value is an object that has it.
#[verifier::external_body]
pub(crate) fn get<'a>(v: &'a Value, key: &str) -> (r: Option<&'a Value>)
    ensures
        match r {
            Some(w) => json_of(*v).member(key@) == Some(json_of(*w)),
            None => json_of(*v).member(key@) is None,
        },
{
    v.get(key)
}

/// `Value::as_str`: the text, where the value is one.
pub assume_specification[ Value::as_str ](v: &Value) -> (r: Option<&str>)
    ensures
        r.deep_view() == json_of(*v).text(),
;

/// `Value::as_u64`: the number, where the value is an integer that is not negative.
pub assume_specification[ Value::as_u64 ](v: &Value) -> (r: Option<u64>)
    ensures
        r == json_of(*v).unsigned(),
;

/// `Value::as_array`: the items, where the value is an array.
pub assume_specification[ Value::as_array ](v: &Value) -> (r: Option<&Vec<Value>>)
    ensures
        match r {
            Some(items) => json_of(*v) == Json::List(jsons(items@)),
            None => !(json_of(*v) is List),
        },
;

/// `Value::as_object`: the members, where the value is an object.
pub assume_specification[ Value::as_object ](v: &Value) -> (r: Option<&serde_json::Map<String, Value>>)
    ensures
        match r {
            Some(m) => json_of(*v) == Json::Object(members(*m)),
            None => !(json_of(*v) is Object),
        },
;

/// `Value::clone`: the copy holds the same value.
#[verifier::external_body]
pub(crate) fn copy(v: &Value) -> (r: Value)
    ensures
        json_of(r) == json_of(*v),
{
    v.clone()
}

/// `Map::new`: no members.
#[verifier::external_body]
pub(crate) fn new_members() -> (r: serde_json::Map<String, Value>)
    ensures
        members(r) == no_members(),
{
    serde_json::Map::new()
}

/// `Map::clone`: the copy has the same members.
#[verifier::external_body]
pub(crate) fn copy_members(m: &serde_json::Map<String, Value>) -> (r: serde_json::Map<String, Value>)
    ensures
        members(r) == members(*m),
{
    m.clone()
}

/// `Map::insert`: the member `key` holds `v`, the others stay.
#[verifier::external_body]
pub(crate) fn put(m: &mut serde_json::Map<String, Value>, key: &str, v: Value)
    ensures
        members(*final(m)) == members(*old(m)).insert(key@, json_of(v)),
{
    m.insert(key.to_owned(), v);
}

/// `Map::keys`: the names of the members, each once. The map is a `BTreeMap`, so they come in
/// the order of their bytes, which is that of their code points.
#[verifier::external_body]
pub(crate) fn keys(m: &serde_json::Map<String, Value>) -> (r: Vec<String>)
    ensures
        are_keys(members(*m), r.deep_view()),
        in_order(r.deep_view()),
{
    m.keys().cloned().collect()
}

/// `Value::Null`.
#[verifier::external_body]
pub(crate) fn null() -> (v: Value)
    ensures
        json_of(v) == Json::Null,
{
    Value::Null
}

/// `Value::Bool`.
#[verifier::external_body]
pub(crate) fn boolean(b: bool) -> (v: Value)
    ensures
        json_of(v) == Json::Bool(b),
{
    Value::Bool(b)
}

/// `Value::from` for `u64`.
#[verifier::external_body]
pub(crate) fn unsigned(n: u64) -> (v: Value)
    ensures
        json_of(v) == Json::Unsigned(n),
{
    Value::from(n)
}

/// `Value::from` for `i64`: a number that is not negative is held as an unsigned one.
#[verifier::external_body]
pub(crate) fn signed(n: i64) -> (v: Value)
    ensures
        json_of(v) == (if n < 0 { Json::Negative(n) } else { Json::Unsigned(n as u64) }),
{
    Value::from(n)
}

/// `Value::String`.
#[verifier::external_body]
pub(crate) fn string(s: &str) -> (v: Value)
    ensures
        json_of(v) == Json::Text(s@),
{
    Value::String(s.to_owned())
}

/// `Value::Array`.
#[verifier::external_body]
pub(crate) fn array(items: Vec<Value>) -> (v: Value)
    ensures
        json_of(v) == Json::List(jsons(items@)),
{
    Value::Array(items)
}

/// `Value::Object`.
#[verifier::external_body]
pub(crate) fn object(m: serde_json::Map<String, Value>) -> (v: Value)
    ensures
        json_of(v) == Json::Object(members(m)),
{
    Value::Object(m)
}

// ---------------------------------------------------------------------------------------
// What the library builds from these
// ---------------------------------------------------------------------------------------

/// The text under `key`.
pub(crate) fn get_text(v: &Value, key: &str) -> (r: Option<String>)
    ensures
        r.deep_view() == json_of(*v).member_text(key@),
{
    match get(v, key) {
        Some(w) => match w.as_str() {
            Some(s) => Some(s.to_owned()),
            None => None,
        },
        None => None,
    }
}

/// An optional text as JSON.
pub(crate) fn optional_string(s: &Option<String>) -> (v: Value)
    ensures
        json_of(v) == optional_text(s.deep_view()),
{
    match s {
        Some(t) => string(t.as_str()),
        None => null(),
    }
}

/// Texts as JSON.
pub(crate) fn strings(s: &Vec<String>) -> (v: Value)
    ensures
        json_of(v) == text_list(s.deep_view()),
{
    let mut items: Vec<Value> = Vec::new();
    let mut i: usize = 0;
    while i < s.len()
        invariant
            i <= s@.len(),
            items@.len() == i,
            forall|k: int| 0 <= k < i ==> json_of(#[trigger] items@[k]) == Json::Text(s.deep_view()[k]),
        decreases s@.len() - i,
    {
        items.push(string(s[i].as_str()));
        i = i + 1;
    }
    assert(jsons(items@) =~= text_list(s.deep_view())->List_0);
    array(items)
}

/// A map of texts as JSON.
pub(crate) fn string_map(m: &TextMap<String>) -> (v: Value)
    ensures
        json_of(v) == text_object(m@),
{
    let mut o = new_members();
    let mut i: usize = 0;
    let size: usize = m.len();
    while i < size
        invariant
            i <= size,
            size == m.keys().len(),
            forall|k: Seq<char>| #[trigger] members(o).contains_key(k) <==> m.keys().take(i as int).contains(k),
            forall|k: Seq<char>| #[trigger] members(o).contains_key(k) ==> m@.contains_key(k) && members(o)[k] == Json::Text(m@[k]),
        decreases m.keys().len() - i,
    {
        let k = m.key_at(i);
        let v = m.value_at(i);
        proof {
            text_map::lemma_one_more(m.keys(), i as int);
        }
        let ghost before = members(o);
        put(&mut o, k, string(v.as_str()));
        assert(forall|x: Seq<char>| #[trigger] members(o).contains_key(x) <==> x == k@ || before.contains_key(x));
        i = i + 1;
    }
    proof {
        assert(m.keys().take(i as int) =~= m.keys());
        assert(members(o) =~= text_object(m@)->Object_0);
    }
    object(o)
}

/// The compact text of `v`, or `otherwise` where it has none.
pub(crate) fn text_or(v: &Value, otherwise: &str) -> (r: String)
    ensures
        r@ == text::or_text(compact_text(json_of(*v)), otherwise@),
{
    match write_compact(v) {
        Some(s) => s,
        None => otherwise.to_owned(),
    }
}

}
