use vstd::prelude::*;

use crate::text::{text_eq, texts};

verus! {

/// A JSON document as the library reads and writes it.
///
/// Numbers that an `i64` holds are kept as such; any other number (a fraction,
/// an exponent, one out of range) is only known to be a number.
#[derive(Debug, PartialEq)]
pub enum JsonValue {
    Null,
    Bool(bool),
    Int(i64),
    OtherNumber,
    Str(String),
    Array(Vec<JsonValue>),
    Object(Vec<(String, JsonValue)>),
}

/// The value under `key` in an object's entries: the first entry with that key.
pub open spec fn lookup_field(entries: Seq<(String, JsonValue)>, key: Seq<char>) -> Option<
    JsonValue,
>
    decreases entries.len(),
{
    if entries.len() == 0 {
        None
    } else if entries[0].0@ == key {
        Some(entries[0].1)
    } else {
        lookup_field(entries.drop_first(), key)
    }
}

/// The strings of a list of values, where each of them is a string.
pub open spec fn strings_of(items: Seq<JsonValue>) -> Option<Seq<Seq<char>>> {
    if forall|i: int| 0 <= i < items.len() ==> (#[trigger] items[i]) is Str {
        Some(Seq::new(items.len(), |i: int| items[i]->Str_0@))
    } else {
        None
    }
}

/// A list of strings where absence and `null` both stand for the empty list.
pub open spec fn string_list_of(v: Option<JsonValue>) -> Option<Seq<Seq<char>>> {
    match v {
        None => Some(Seq::empty()),
        Some(JsonValue::Null) => Some(Seq::empty()),
        Some(JsonValue::Array(items)) => strings_of(items@),
        _ => None,
    }
}

/// The integer that `v` holds, if it is one that an `i64` holds.
pub open spec fn int_of(v: Option<JsonValue>) -> Option<i64> {
    match v {
        Some(JsonValue::Int(n)) => Some(n),
        _ => None,
    }
}

/// The text that `v` holds, if it is a string.
pub open spec fn string_of(v: Option<JsonValue>) -> Option<Seq<char>> {
    match v {
        Some(JsonValue::Str(s)) => Some(s@),
        _ => None,
    }
}

/// An object's entry under `key`.
pub fn get_field<'a>(entries: &'a Vec<(String, JsonValue)>, key: &str) -> (r: Option<&'a JsonValue>)
    ensures
        match r {
            Some(v) => lookup_field(entries@, key@) == Some(*v),
            None => lookup_field(entries@, key@) is None,
        },
{
    let mut i: usize = 0;
    assert(entries@.skip(0) =~= entries@);
    while i < entries.len()
        invariant
            i <= entries@.len(),
            lookup_field(entries@, key@) == lookup_field(entries@.skip(i as int), key@),
        decreases entries@.len() - i,
    {
        let ghost rest = entries@.skip(i as int);
        assert(rest[0] == entries@[i as int]);
        if text_eq(entries[i].0.as_str(), key) {
            return Some(&entries[i].1);
        }
        assert(rest.drop_first() =~= entries@.skip(i + 1));
        i = i + 1;
    }
    assert(entries@.skip(i as int).len() == 0);
    None
}

/// The integer under `key`, if it is one.
pub fn int_field(entries: &Vec<(String, JsonValue)>, key: &str) -> (r: Option<i64>)
    ensures
        r == int_of(lookup_field(entries@, key@)),
{
    match get_field(entries, key) {
        Some(JsonValue::Int(n)) => Some(*n),
        _ => None,
    }
}

/// The string under `key`, if it is one.
pub fn string_field(entries: &Vec<(String, JsonValue)>, key: &str) -> (r: Option<String>)
    ensures
        r is Some <==> string_of(lookup_field(entries@, key@)) is Some,
        r is Some ==> string_of(lookup_field(entries@, key@)) == Some(r->Some_0@),
{
    match get_field(entries, key) {
        Some(JsonValue::Str(s)) => Some(s.clone()),
        _ => None,
    }
}

/// The strings of `items`, where each of them is a string.
pub fn strings_from(items: &Vec<JsonValue>) -> (r: Option<Vec<String>>)
    ensures
        r is Some <==> strings_of(items@) is Some,
        r is Some ==> strings_of(items@) == Some(texts(r->Some_0@)),
{
    let mut out: Vec<String> = Vec::new();
    let mut i: usize = 0;
    while i < items.len()
        invariant
            i <= items@.len(),
            out@.len() == i,
            forall|j: int| 0 <= j < i ==> (#[trigger] items@[j]) is Str,
            forall|j: int| 0 <= j < i ==> (#[trigger] out@[j])@ == items@[j]->Str_0@,
        decreases items@.len() - i,
    {
        match &items[i] {
            JsonValue::Str(s) => {
                out.push(s.clone());
            },
            _ => {
                return None;
            },
        }
        i = i + 1;
    }
    assert(texts(out@) =~= Seq::new(items@.len(), |j: int| items@[j]->Str_0@));
    Some(out)
}

/// The list of strings under `key`; an absent entry or `null` gives the empty list.
pub fn string_list_field(entries: &Vec<(String, JsonValue)>, key: &str) -> (r: Option<Vec<String>>)
    ensures
        r is Some <==> string_list_of(lookup_field(entries@, key@)) is Some,
        r is Some ==> string_list_of(lookup_field(entries@, key@)) == Some(texts(r->Some_0@)),
{
    match get_field(entries, key) {
        None => {
            let v: Vec<String> = Vec::new();
            assert(texts(v@) =~= Seq::empty());
            Some(v)
        },
        Some(JsonValue::Null) => {
            let v: Vec<String> = Vec::new();
            assert(texts(v@) =~= Seq::empty());
            Some(v)
        },
        Some(JsonValue::Array(items)) => strings_from(items),
        _ => None,
    }
}

/// A JSON array of strings.
pub fn string_array(items: &Vec<String>) -> (r: JsonValue)
    ensures
        r is Array,
        strings_of(r->Array_0@) == Some(texts(items@)),
{
    let mut out: Vec<JsonValue> = Vec::new();
    let mut i: usize = 0;
    while i < items.len()
        invariant
            i <= items@.len(),
            out@.len() == i,
            forall|j: int| 0 <= j < i ==> (#[trigger] out@[j]) is Str,
            forall|j: int| 0 <= j < i ==> (#[trigger] out@[j])->Str_0@ == items@[j]@,
        decreases items@.len() - i,
    {
        out.push(JsonValue::Str(items[i].clone()));
        i = i + 1;
    }
    assert(Seq::new(out@.len(), |j: int| out@[j]->Str_0@) =~= texts(items@));
    JsonValue::Array(out)
}

} // verus!
