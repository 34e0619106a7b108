//! JSON as the library reads it: a tree of plain values, and the calls the
//! library makes through `serde_json`.

use vstd::prelude::*;

use crate::text::{clone_string, same_text};

verus! {

/// A JSON value held as plain values.  An object's members stand in the
/// order `serde_json` keeps them; a number is held as the text `serde_json`
/// writes for it, with its value when it is a non-negative integer that
/// fits in a `u64`.
#[derive(Debug)]
pub enum JsonTree {
    Null,
    Bool(bool),
    Number(String, Option<u64>),
    Text(String),
    Array(Vec<JsonTree>),
    Object(Vec<(String, JsonTree)>),
}

/// The mathematical form of a `JsonTree`.
pub enum JsonValue {
    Null,
    Bool(bool),
    Number(Seq<char>, Option<u64>),
    Text(Seq<char>),
    Array(Seq<JsonValue>),
    Object(Seq<(Seq<char>, JsonValue)>),
}

pub open spec fn tree_view(t: JsonTree) -> JsonValue
    decreases t,
{
    match t {
        JsonTree::Null => JsonValue::Null,
        JsonTree::Bool(b) => JsonValue::Bool(b),
        JsonTree::Number(s, n) => JsonValue::Number(s@, n),
        JsonTree::Text(s) => JsonValue::Text(s@),
        JsonTree::Array(items) => JsonValue::Array(
            Seq::new(
                items@.len(),
                |i: int|
                    {
                        if 0 <= i < items@.len() {
                            tree_view(items@[i])
                        } else {
                            JsonValue::Null
                        }
                    },
            ),
        ),
        JsonTree::Object(members) => JsonValue::Object(
            Seq::new(
                members@.len(),
                |i: int|
                    {
                        if 0 <= i < members@.len() {
                            (members@[i].0@, tree_view(members@[i].1))
                        } else {
                            (Seq::empty(), JsonValue::Null)
                        }
                    },
            ),
        ),
    }
}

impl View for JsonTree {
    type V = JsonValue;

    open spec fn view(&self) -> JsonValue {
        tree_view(*self)
    }
}

/// The member named `key` of an object, as `serde_json`'s `value[key]`
/// reads it: `Null` when `v` is no object or has no such member.
pub open spec fn member(v: JsonValue, key: Seq<char>) -> JsonValue {
    match v {
        JsonValue::Object(members) => member_of(members, key),
        _ => JsonValue::Null,
    }
}

pub open spec fn member_of(members: Seq<(Seq<char>, JsonValue)>, key: Seq<char>) -> JsonValue
    decreases members.len(),
{
    if members.len() == 0 {
        JsonValue::Null
    } else if members[0].0 == key {
        members[0].1
    } else {
        member_of(members.drop_first(), key)
    }
}

/// The text of a JSON string, `None` for any other value.
pub open spec fn text_of(v: JsonValue) -> Option<Seq<char>> {
    match v {
        JsonValue::Text(s) => Some(s),
        _ => None,
    }
}

/// The value of a non-negative integer that fits in a `u64`, `None` for
/// any other value.
pub open spec fn u64_of(v: JsonValue) -> Option<u64> {
    match v {
        JsonValue::Number(_, n) => n,
        _ => None,
    }
}

/// The text of member `key` of `v`, when it is a JSON string.
pub open spec fn member_text(v: JsonValue, key: Seq<char>) -> Option<Seq<char>> {
    text_of(member(v, key))
}

/// The value of member `key` of `v`, when it is a non-negative integer
/// that fits in a `u64`.
pub open spec fn member_u64(v: JsonValue, key: Seq<char>) -> Option<u64> {
    u64_of(member(v, key))
}

/// For a JSON array, the text of each item that is a JSON string (`None`
/// for the others); `None` for any other value.
pub open spec fn item_texts(v: JsonValue) -> Option<Seq<Option<Seq<char>>>> {
    match v {
        JsonValue::Array(items) => Some(items.map_values(|x: JsonValue| text_of(x))),
        _ => None,
    }
}

impl JsonTree {
    /// The member named `key`, when `self` is an object that has one
    /// (`None` reads as `Null`, as `serde_json`'s `value[key]` does).
    pub fn get(&self, key: &str) -> (r: Option<&JsonTree>)
        ensures
            match r {
                Some(t) => t@ == member(self@, key@),
                None => member(self@, key@) == JsonValue::Null,
            },
    {
        match self {
            JsonTree::Object(members) => {
                let ghost mv = self@->Object_0;
                assert forall|j: int| 0 <= j < members@.len() implies #[trigger] mv[j] == (
                    members@[j].0@,
                    members@[j].1@,
                ) by {}
                assert(mv.skip(0) =~= mv);
                let mut i: usize = 0;
                while i < members.len()
                    invariant
                        i <= members.len(),
                        self@ == JsonValue::Object(mv),
                        mv.len() == members@.len(),
                        forall|j: int|
                            0 <= j < members@.len() ==> #[trigger] mv[j] == (
                                members@[j].0@,
                                members@[j].1@,
                            ),
                        member_of(mv, key@) == member_of(mv.skip(i as int), key@),
                    decreases members.len() - i,
                {
                    assert(mv.skip(i as int)[0] == mv[i as int]);
                    assert(mv.skip(i as int).drop_first() =~= mv.skip(i + 1));
                    if same_text(members[i].0.as_str(), key) {
                        assert(mv.skip(i as int).len() > 0);
                        assert(member_of(mv.skip(i as int), key@) == mv[i as int].1);
                        assert(member(self@, key@) == member_of(mv, key@));
                        return Some(&members[i].1);
                    }
                    i = i + 1;
                }
                assert(mv.skip(i as int).len() == 0);
                None
            },
            _ => None,
        }
    }

    /// The text of member `key`, when it is a JSON string.
    pub fn text_at(&self, key: &str) -> (r: Option<String>)
        ensures
            r.deep_view() == member_text(self@, key@),
    {
        match self.get(key) {
            Some(t) => t.text(),
            None => None,
        }
    }

    /// The value of member `key`, when it is a non-negative integer that
    /// fits in a `u64`.
    pub fn u64_at(&self, key: &str) -> (r: Option<u64>)
        ensures
            r == member_u64(self@, key@),
    {
        match self.get(key) {
            Some(t) => t.as_u64(),
            None => None,
        }
    }

    /// For member `key`, when it is a JSON array, the text of each item that
    /// is a JSON string.
    pub fn texts_at(&self, key: &str) -> (r: Option<Vec<Option<String>>>)
        ensures
            r.deep_view() == item_texts(member(self@, key@)),
    {
        match self.get(key) {
            Some(t) => match t {
                JsonTree::Array(items) => {
                    let ghost iv = t@->Array_0;
                    assert forall|j: int| 0 <= j < items@.len() implies #[trigger] iv[j]
                        == items@[j]@ by {}
                    let mut out: Vec<Option<String>> = Vec::new();
                    let mut i: usize = 0;
                    while i < items.len()
                        invariant
                            i <= items.len(),
                            iv.len() == items@.len(),
                            forall|j: int| 0 <= j < items@.len() ==> #[trigger] iv[j] == items@[j]@,
                            out.deep_view() =~= iv.take(i as int).map_values(|x: JsonValue| text_of(x)),
                        decreases items.len() - i,
                    {
                        let ghost before = out.deep_view();
                        let x = items[i].text();
                        let ghost xv = x.deep_view();
                        out.push(x);
                        assert(out.deep_view() =~= before.push(xv));
                        assert(iv.take(i + 1) =~= iv.take(i as int).push(iv[i as int]));
                        i = i + 1;
                    }
                    assert(iv.take(i as int) =~= iv);
                    Some(out)
                },
                _ => None,
            },
            None => None,
        }
    }

    /// The text of a JSON string, `None` for any other value.
    pub fn text(&self) -> (r: Option<String>)
        ensures
            r.deep_view() == text_of(self@),
    {
        match self {
            JsonTree::Text(s) => Some(clone_string(s)),
            _ => None,
        }
    }

    /// The value of a non-negative integer that fits in a `u64`.
    pub fn as_u64(&self) -> (r: Option<u64>)
        ensures
            r == u64_of(self@),
    {
        match self {
            JsonTree::Number(_, n) => *n,
            _ => None,
        }
    }
}

/// Whether `serde_json` accepts `text` as one JSON value.
pub uninterp spec fn json_parses(text: Seq<char>) -> bool;

/// The value `serde_json` reads from `text`.
pub uninterp spec fn json_tree_of(text: Seq<char>) -> JsonValue;

/// The text of the error `serde_json` reports for `text`.
pub uninterp spec fn json_error_text(text: Seq<char>) -> Seq<char>;

/// The text `serde_json::to_string_pretty` writes for the value read from
/// `text`.
pub uninterp spec fn json_pretty(text: Seq<char>) -> Seq<char>;

/// The text `serde_json` writes (compactly, through `Display`) for the
/// value read from `text`.
pub uninterp spec fn json_compact(text: Seq<char>) -> Seq<char>;

#[verifier::external_type_specification]
#[verifier::external_body]
pub struct ExJsonValue(serde_json::Value);

/// Turns a parsed `serde_json::Value` into a `JsonTree`, variant for
/// variant.  Only `parse_json_tree` calls it; that function's contract
/// states what the pair of them returns.
#[verifier::external_body]
fn tree_of_value(v: &serde_json::Value) -> JsonTree {
    match v {
        serde_json::Value::Null => JsonTree::Null,
        serde_json::Value::Bool(b) => JsonTree::Bool(*b),
        serde_json::Value::Number(n) => JsonTree::Number(n.to_string(), n.as_u64()),
        serde_json::Value::String(s) => JsonTree::Text(s.clone()),
        serde_json::Value::Array(a) => JsonTree::Array(a.iter().map(tree_of_value).collect()),
        serde_json::Value::Object(m) => JsonTree::Object(
            m.iter().map(|(k, x)| (k.clone(), tree_of_value(x))).collect(),
        ),
    }
}

/// Calls `serde_json::from_str::<serde_json::Value>` and turns the value
/// into a `JsonTree`.  The contract claims that a tree comes back exactly
/// when the crate accepts the text, that it is the crate's value for the
/// text, and that the error is the crate's message for the text.
#[verifier::external_body]
pub(crate) fn parse_json_tree(text: &str) -> (r: Result<JsonTree, String>)
    ensures
        r is Ok <==> json_parses(text@),
        r matches Ok(t) ==> t@ == json_tree_of(text@),
        r matches Err(m) ==> m@ == json_error_text(text@),
{
    match serde_json::from_str::<serde_json::Value>(text) {
        Ok(v) => Ok(tree_of_value(&v)),
        Err(e) => Err(e.to_string()),
    }
}

/// Calls `serde_json::to_string_pretty` on the value `serde_json` reads
/// from `text` (the empty text in place of a serialisation error).  The
/// contract claims that a text comes back exactly when the crate accepts
/// `text`, and that it is the crate's pretty form of that value.
#[verifier::external_body]
pub(crate) fn pretty_json_text(text: &str) -> (r: Option<String>)
    ensures
        r is Some <==> json_parses(text@),
        r matches Some(p) ==> p@ == json_pretty(text@),
{
    serde_json::from_str::<serde_json::Value>(text).ok().map(
        |v| serde_json::to_string_pretty(&v).unwrap_or_default(),
    )
}

/// Writes, through `serde_json::Value`'s `Display`, the value `serde_json`
/// reads from `text`.  The contract claims that a text comes back exactly
/// when the crate accepts `text`, and that it is the crate's compact form
/// of that value.
#[verifier::external_body]
pub(crate) fn compact_json_text(text: &str) -> (r: Option<String>)
    ensures
        r is Some <==> json_parses(text@),
        r matches Some(p) ==> p@ == json_compact(text@),
{
    serde_json::from_str::<serde_json::Value>(text).ok().map(|v| v.to_string())
}

} // verus!
