//! JSON documents as the statistics service returns them, with lookups by
//! member key and by position.

use vstd::prelude::*;

verus! {

/// A JSON value.
pub enum Json {
    Null,
    Bool(bool),
    /// A number, kept as the decimal text it was written with.
    Number(String),
    Str(String),
    Array(Vec<Json>),
    /// The members of an object, in order; a key is looked up at its first
    /// member.
    Object(Vec<(String, Json)>),
}

/// The value under `key` among the members of an object (the first member with
/// that key).
pub open spec fn member_of(entries: Seq<(String, Json)>, key: Seq<char>) -> Option<Json>
    decreases entries.len(),
{
    if entries.len() == 0 {
        None
    } else if entries[0].0@ == key {
        Some(entries[0].1)
    } else {
        member_of(entries.drop_first(), key)
    }
}

/// `r` holds a reference to the value that `s` holds, or both hold nothing.
pub open spec fn same_value(r: Option<&Json>, s: Option<Json>) -> bool {
    match r {
        Some(v) => s == Some(*v),
        None => s is None,
    }
}

/// The text of a string value, if `j` is one.
pub open spec fn text_of(j: Option<Json>) -> Option<Seq<char>> {
    match j {
        Some(Json::Str(s)) => Some(s@),
        _ => None,
    }
}

/// The text of a string value, or `fallback` when `j` is absent or no string.
pub open spec fn text_or(j: Option<Json>, fallback: Seq<char>) -> Seq<char> {
    match text_of(j) {
        Some(t) => t,
        None => fallback,
    }
}

impl Json {
    /// The value under `key`, if this is an object that has it.
    pub open spec fn member(self, key: Seq<char>) -> Option<Json> {
        match self {
            Json::Object(entries) => member_of(entries@, key),
            _ => None,
        }
    }

    /// The elements, if this is an array.
    pub open spec fn elements(self) -> Option<Seq<Json>> {
        match self {
            Json::Array(items) => Some(items@),
            _ => None,
        }
    }

    /// Looks `key` up among the members of an object.
    pub fn get(&self, key: &str) -> (r: Option<&Json>)
        ensures
            same_value(r, self.member(key@)),
    {
        match self {
            Json::Object(entries) => {
                let k = key.to_owned();
                let mut i: usize = 0;
                assert(entries@.subrange(0, entries@.len() as int) =~= entries@);
                while i < entries.len()
                    invariant
                        i <= entries@.len(),
                        k@ == key@,
                        self.member(key@) == member_of(entries@, key@),
                        member_of(entries@, key@) == member_of(entries@.subrange(i as int, entries@.len() as int), key@),
                    decreases entries.len() - i,
                {
                    let ghost rest = entries@.subrange(i as int, entries@.len() as int);
                    assert(rest.drop_first() =~= entries@.subrange(i + 1, entries@.len() as int));
                    assert(rest[0] == entries@[i as int]);
                    if entries[i].0 == k {
                        assert(member_of(rest, key@) == Some(rest[0].1));
                        return Some(&entries[i].1);
                    }
                    i = i + 1;
                }
                None
            },
            _ => None,
        }
    }

    /// The elements, if this is an array.
    pub fn as_array(&self) -> (r: Option<&Vec<Json>>)
        ensures
            match r {
                Some(v) => self.elements() == Some(v@),
                None => self.elements() is None,
            },
    {
        match self {
            Json::Array(items) => Some(items),
            _ => None,
        }
    }

    /// Whether this is `null`.
    pub fn is_null(&self) -> (r: bool)
        ensures
            r == (*self is Null),
    {
        match self {
            Json::Null => true,
            _ => false,
        }
    }
}

/// The value under `k2` in the value under `k1` of `j`.
pub open spec fn member2(j: Json, k1: Seq<char>, k2: Seq<char>) -> Option<Json> {
    match j.member(k1) {
        Some(v) => v.member(k2),
        None => None,
    }
}

/// The value under `k1`, then `k2`, then `k3`, of `j`.
pub open spec fn member3(j: Json, k1: Seq<char>, k2: Seq<char>, k3: Seq<char>) -> Option<Json> {
    match member2(j, k1, k2) {
        Some(v) => v.member(k3),
        None => None,
    }
}

/// The address of the largest picture in `images`, a list of pictures from
/// the smallest to the largest, each with its address under `#text`; empty
/// when there is none.
pub open spec fn largest_image(images: Option<Json>) -> Seq<char> {
    match images {
        Some(Json::Array(list)) => if list@.len() > 0 {
            text_or(list@.last().member("#text"@), Seq::empty())
        } else {
            Seq::empty()
        },
        _ => Seq::empty(),
    }
}

impl Json {
    /// Looks `k1`, then `k2` up.
    pub fn get2(&self, k1: &str, k2: &str) -> (r: Option<&Json>)
        ensures
            same_value(r, member2(*self, k1@, k2@)),
    {
        match self.get(k1) {
            Some(v) => v.get(k2),
            None => None,
        }
    }

    /// Looks `k1`, then `k2`, then `k3` up.
    pub fn get3(&self, k1: &str, k2: &str, k3: &str) -> (r: Option<&Json>)
        ensures
            same_value(r, member3(*self, k1@, k2@, k3@)),
    {
        match self.get2(k1, k2) {
            Some(v) => v.get(k3),
            None => None,
        }
    }
}

/// The address of the largest picture in a list of pictures.
pub fn largest_image_text(images: Option<&Json>) -> (r: String)
    ensures
        r@ == largest_image(match images { Some(v) => Some(*v), None => None }),
{
    match images {
        Some(Json::Array(list)) => if list.len() > 0 {
            let last = &list[list.len() - 1];
            proof {
                reveal_strlit("");
            }
            text_or_else(last.get("#text"), "")
        } else {
            String::new()
        },
        _ => String::new(),
    }
}

/// The text of `j` when it is a string, else `fallback`.
pub fn text_or_else(j: Option<&Json>, fallback: &str) -> (r: String)
    ensures
        r@ == text_or(match j { Some(v) => Some(*v), None => None }, fallback@),
{
    match j {
        Some(Json::Str(s)) => s.clone(),
        _ => fallback.to_owned(),
    }
}

/// The document that `text` holds, when it is valid JSON.
pub uninterp spec fn json_document(text: Seq<char>) -> Option<Json>;

/// serde_json's JSON value, which `parse_json` reads text into.
#[verifier::external_type_specification]
#[verifier::external_body]
pub struct ExJsonValue(serde_json::Value);

/// Relies on serde_json::from_str: it reads the text as one JSON value, or
/// fails; what it reads depends on the text alone.
#[verifier::external_body]
pub(crate) fn parse_json(text: &str) -> (r: Option<Json>)
    ensures
        r == json_document(text@),
{
    serde_json::from_str::<serde_json::Value>(text).ok().map(json_from_value)
}

/// Relies on serde_json::Value's variants: each becomes the matching variant
/// of `Json`, one for one, for `parse_json`.
#[verifier::external_body]
fn json_from_value(v: serde_json::Value) -> Json {
    match v {
        serde_json::Value::Null => Json::Null,
        serde_json::Value::Bool(b) => Json::Bool(b),
        serde_json::Value::Number(n) => Json::Number(n.to_string()),
        serde_json::Value::String(s) => Json::Str(s),
        serde_json::Value::Array(a) => Json::Array(a.into_iter().map(json_from_value).collect()),
        serde_json::Value::Object(m) => Json::Object(
            m.into_iter().map(|(k, v)| (k, json_from_value(v))).collect(),
        ),
    }
}

} // verus!
