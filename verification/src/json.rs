//! JSON values as the services read and produce them (`serde_json::Value`).
//!
//! Integers are held as `Int` where they fit an `i64` and as `UInt` above
//! that; a floating-point number is held by the bits of its `f64`. An object
//! is the list of its entries in insertion order; where a key occurs twice the
//! later entry is the one that counts, as `Map::insert` has it.
use vstd::prelude::*;
use crate::text::{chars_of, eq_str};
use serde_json::Value;

verus! {

/// A JSON value.
#[derive(Debug)]
pub enum Json {
    Null,
    Bool(bool),
    Int(i64),
    UInt(u64),
    Float(u64),
    Str(String),
    Array(Vec<Json>),
    Object(Vec<(String, Json)>),
}

/// The mathematical value of a JSON value: integers of both kinds are one
/// integer, texts are character sequences.
pub enum JsonV {
    Null,
    Bool(bool),
    Int(int),
    Float(u64),
    Str(Seq<char>),
    Array(Seq<JsonV>),
    Object(Seq<(Seq<char>, JsonV)>),
}

pub open spec fn json_view(j: Json) -> JsonV
    decreases j,
{
    match j {
        Json::Null => JsonV::Null,
        Json::Bool(b) => JsonV::Bool(b),
        Json::Int(i) => JsonV::Int(i as int),
        Json::UInt(u) => JsonV::Int(u as int),
        Json::Float(bits) => JsonV::Float(bits),
        Json::Str(s) => JsonV::Str(s@),
        Json::Array(v) => JsonV::Array(json_views(v@)),
        Json::Object(o) => JsonV::Object(entry_views(o@)),
    }
}

pub open spec fn json_views(s: Seq<Json>) -> Seq<JsonV>
    decreases s,
{
    if s.len() == 0 {
        Seq::empty()
    } else {
        json_views(s.subrange(0, s.len() - 1)).push(json_view(s[s.len() - 1]))
    }
}

pub open spec fn entry_views(s: Seq<(String, Json)>) -> Seq<(Seq<char>, JsonV)>
    decreases s,
{
    if s.len() == 0 {
        Seq::empty()
    } else {
        entry_views(s.subrange(0, s.len() - 1)).push((s[s.len() - 1].0@, json_view(s[s.len() - 1].1)))
    }
}

impl View for Json {
    type V = JsonV;

    open spec fn view(&self) -> JsonV {
        json_view(*self)
    }
}

/// The value of `key` in an object's entries: the last entry with that key.
pub open spec fn entry_lookup(entries: Seq<(Seq<char>, JsonV)>, key: Seq<char>) -> Option<JsonV>
    decreases entries.len(),
{
    if entries.len() == 0 {
        None
    } else if entries.last().0 == key {
        Some(entries.last().1)
    } else {
        entry_lookup(entries.drop_last(), key)
    }
}

/// `Value::get` with a text key: the entry of an object, or nothing for any
/// other value.
pub open spec fn spec_get(j: JsonV, key: Seq<char>) -> Option<JsonV> {
    match j {
        JsonV::Object(entries) => entry_lookup(entries, key),
        _ => None,
    }
}

/// `Value::as_str`.
pub open spec fn spec_as_str(j: JsonV) -> Option<Seq<char>> {
    match j {
        JsonV::Str(s) => Some(s),
        _ => None,
    }
}

/// `Value::as_u64`: an integer from 0 to `u64::MAX`.
pub open spec fn spec_as_u64(j: JsonV) -> Option<nat> {
    match j {
        JsonV::Int(n) => if 0 <= n <= u64::MAX {
            Some(n as nat)
        } else {
            None
        },
        _ => None,
    }
}

/// `Value::as_i64`: an integer in the range of `i64`.
pub open spec fn spec_as_i64(j: JsonV) -> Option<int> {
    match j {
        JsonV::Int(n) => if i64::MIN <= n <= i64::MAX {
            Some(n)
        } else {
            None
        },
        _ => None,
    }
}

/// `Value::as_bool`.
pub open spec fn spec_as_bool(j: JsonV) -> Option<bool> {
    match j {
        JsonV::Bool(b) => Some(b),
        _ => None,
    }
}

pub proof fn lemma_json_views_len(s: Seq<Json>)
    ensures
        json_views(s).len() == s.len(),
    decreases s.len(),
{
    if s.len() > 0 {
        lemma_json_views_len(s.subrange(0, s.len() - 1));
    }
}

pub proof fn lemma_json_views_index(s: Seq<Json>, i: int)
    requires
        0 <= i < s.len(),
    ensures
        json_views(s)[i] == json_view(s[i]),
        json_views(s).len() == s.len(),
    decreases s.len(),
{
    lemma_json_views_len(s);
    if i < s.len() - 1 {
        lemma_json_views_index(s.subrange(0, s.len() - 1), i);
    }
}

pub proof fn lemma_entry_views_len(s: Seq<(String, Json)>)
    ensures
        entry_views(s).len() == s.len(),
    decreases s.len(),
{
    if s.len() > 0 {
        lemma_entry_views_len(s.subrange(0, s.len() - 1));
    }
}

pub proof fn lemma_entry_views_push(s: Seq<(String, Json)>, k: String, v: Json)
    ensures
        entry_views(s.push((k, v))) == entry_views(s).push((k@, json_view(v))),
{
    assert(s.push((k, v)).subrange(0, s.len() as int) =~= s);
}

pub proof fn lemma_json_views_push(s: Seq<Json>, v: Json)
    ensures
        json_views(s.push(v)) == json_views(s).push(json_view(v)),
{
    assert(s.push(v).subrange(0, s.len() as int) =~= s);
}

/// Reading a key of an object after an entry for it was appended gives that
/// entry's value; reading any other key gives what it gave before.
pub proof fn lemma_lookup_after_append(entries: Seq<(Seq<char>, JsonV)>, key: Seq<char>, value: JsonV, other: Seq<char>)
    ensures
        entry_lookup(entries.push((key, value)), key) == Some(value),
        other != key ==> entry_lookup(entries.push((key, value)), other) == entry_lookup(entries, other),
{
    assert(entries.push((key, value)).drop_last() =~= entries);
}

/// Appends an entry to the entries of an object under construction.
pub fn push_entry(entries: &mut Vec<(String, Json)>, key: &str, value: Json)
    ensures
        entry_views(final(entries)@) == entry_views(old(entries)@).push((key@, json_view(value))),
{
    let ghost before = entries@;
    let k = String::from_str(key);
    proof {
        lemma_entry_views_push(before, k, value);
    }
    entries.push((k, value));
}

impl Json {
    /// The entry for `key` of an object (`Value::get`).
    pub fn get(&self, key: &str) -> (r: Option<&Json>)
        ensures
            match (r, spec_get(self@, key@)) {
                (Some(a), Some(b)) => a@ == b,
                (None, None) => true,
                _ => false,
            },
    {
        match self {
            Json::Object(entries) => {
                let mut i = entries.len();
                assert(entries@.subrange(0, i as int) =~= entries@);
                while i > 0
                    invariant
                        0 <= i <= entries.len(),
                        *self == Json::Object(*entries),
                        entry_lookup(entry_views(entries@), key@) == entry_lookup(
                            entry_views(entries@.subrange(0, i as int)),
                            key@,
                        ),
                    decreases i,
                {
                    let ghost sub = entries@.subrange(0, i as int);
                    assert(sub.subrange(0, sub.len() - 1) =~= entries@.subrange(0, i - 1));
                    proof {
                        lemma_entry_views_len(sub.subrange(0, sub.len() - 1));
                    }
                    let ghost ev = entry_views(sub);
                    assert(ev == entry_views(sub.subrange(0, sub.len() - 1)).push(
                        (sub[sub.len() - 1].0@, json_view(sub[sub.len() - 1].1)),
                    ));
                    assert(sub[sub.len() - 1] == entries@[i - 1]);
                    assert(ev.last() == (entries@[i - 1].0@, json_view(entries@[i - 1].1)));
                    let k = chars_of(&entries[i - 1].0);
                    if eq_str(&k, key) {
                        assert(ev.last().0 == key@);
                        assert(entry_lookup(ev, key@) == Some(json_view(entries@[i - 1].1)));
                        assert(*self == Json::Object(*entries));
                        assert(json_view(Json::Object(*entries)) == JsonV::Object(entry_views(entries@)));
                        assert(self@ == JsonV::Object(entry_views(entries@)));
                        return Some(&entries[i - 1].1);
                    }
                    assert(entry_views(sub).drop_last() =~= entry_views(entries@.subrange(0, i - 1)));
                    i -= 1;
                }
                assert(entries@.subrange(0, 0) =~= Seq::<(String, Json)>::empty());
                None
            },
            _ => None,
        }
    }

    /// The text of a string value (`Value::as_str`).
    pub fn as_str(&self) -> (r: Option<&String>)
        ensures
            match (r, spec_as_str(self@)) {
                (Some(a), Some(b)) => a@ == b,
                (None, None) => true,
                _ => false,
            },
    {
        match self {
            Json::Str(s) => Some(s),
            _ => None,
        }
    }

    /// `Value::as_u64`.
    pub fn as_u64(&self) -> (r: Option<u64>)
        ensures
            match (r, spec_as_u64(self@)) {
                (Some(a), Some(b)) => a as nat == b,
                (None, None) => true,
                _ => false,
            },
    {
        match self {
            Json::Int(i) => if *i >= 0 {
                Some(*i as u64)
            } else {
                None
            },
            Json::UInt(u) => Some(*u),
            _ => None,
        }
    }

    /// `Value::as_i64`.
    pub fn as_i64(&self) -> (r: Option<i64>)
        ensures
            match (r, spec_as_i64(self@)) {
                (Some(a), Some(b)) => a as int == b,
                (None, None) => true,
                _ => false,
            },
    {
        match self {
            Json::Int(i) => Some(*i),
            Json::UInt(u) => if *u <= i64::MAX as u64 {
                Some(*u as i64)
            } else {
                None
            },
            _ => None,
        }
    }

    /// `Value::as_bool`.
    pub fn as_bool(&self) -> (r: Option<bool>)
        ensures
            r == spec_as_bool(self@),
    {
        match self {
            Json::Bool(b) => Some(*b),
            _ => None,
        }
    }

    /// Whether the value is `null`.
    pub fn is_null(&self) -> (r: bool)
        ensures
            r == (self@ is Null),
    {
        match self {
            Json::Null => true,
            _ => false,
        }
    }
}

/// `serde_json::Value`, which JSON text parses to.
#[verifier::external_type_specification]
#[verifier::external_body]
pub struct ExValue(Value);

/// What `serde_json::from_str` makes of a text as a `serde_json::Value`: the
/// value, or the text of the error.
pub uninterp spec fn json_parse(text: Seq<char>) -> Result<JsonV, Seq<char>>;

/// What `serde_json::from_slice` makes of bytes as a `Vec<serde_json::Value>`:
/// the values, or the text of the error.
pub uninterp spec fn json_rows_of(data: Seq<u8>) -> Result<Seq<JsonV>, Seq<char>>;

/// The library's form of a `serde_json::Value`, variant for variant: an
/// integer is `Int` where it fits an `i64` and `UInt` otherwise, a float is
/// held by its bits, an object keeps the map's order.
#[verifier::external_body]
fn json_of_value(v: &Value) -> (r: Json) {
    match v {
        Value::Null => Json::Null,
        Value::Bool(b) => Json::Bool(*b),
        Value::Number(n) => match (n.as_i64(), n.as_u64()) {
            (Some(i), _) => Json::Int(i),
            (None, Some(u)) => Json::UInt(u),
            _ => Json::Float(n.as_f64().map_or(0, |x| x.to_bits())),
        },
        Value::String(t) => Json::Str(t.clone()),
        Value::Array(a) => Json::Array(a.iter().map(json_of_value).collect()),
        Value::Object(m) => Json::Object(m.iter().map(|(k, x)| (k.clone(), json_of_value(x))).collect()),
    }
}

/// Parses JSON text (`serde_json::from_str` into a `serde_json::Value`).
#[verifier::external_body]
pub(crate) fn parse_json_text(text: &str) -> (r: Result<Json, String>)
    ensures
        match r {
            Ok(j) => json_parse(text@) == Ok::<JsonV, Seq<char>>(j@),
            Err(e) => json_parse(text@) == Err::<JsonV, Seq<char>>(e@),
        },
{
    match serde_json::from_str::<Value>(text) {
        Ok(v) => Ok(json_of_value(&v)),
        Err(e) => Err(e.to_string()),
    }
}

/// Parses bytes as a JSON array (`serde_json::from_slice` into a
/// `Vec<serde_json::Value>`).
#[verifier::external_body]
pub(crate) fn parse_json_rows(data: &[u8]) -> (r: Result<Vec<Json>, String>)
    ensures
        match r {
            Ok(rows) => json_rows_of(data@) == Ok::<Seq<JsonV>, Seq<char>>(json_views(rows@)),
            Err(e) => json_rows_of(data@) == Err::<Seq<JsonV>, Seq<char>>(e@),
        },
{
    match serde_json::from_slice::<Vec<Value>>(data) {
        Ok(v) => Ok(v.iter().map(json_of_value).collect()),
        Err(e) => Err(e.to_string()),
    }
}

} // verus!
