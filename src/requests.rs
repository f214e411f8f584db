use vstd::prelude::*;

use crate::json::{get_field, lookup_field, string_field, string_of, JsonValue};
use crate::sequence::{sequence_layout, sequence_views, OEISSequence, SequenceView};

verus! {

/// The arguments of a tool that takes none.
#[derive(Clone, Debug, PartialEq)]
pub struct EmptyRequest {}

/// The arguments of a lookup by id.
#[derive(Clone, Debug, PartialEq)]
pub struct FindRequest {
    pub id: String,
}

/// The arguments of a search by terms.
#[derive(Clone, Debug, PartialEq)]
pub struct SearchRequest {
    pub subsequence: Vec<i64>,
}

/// The arguments of the analysis prompt.
#[derive(Clone, Debug, PartialEq)]
pub struct SequenceAnalysisRequest {
    /// The id of the sequence to analyse, as `A000045`.
    pub sequence_id: String,
}

/// The answer of a lookup by id.
#[derive(Clone, Debug, PartialEq)]
pub struct FindResponse {
    pub result: OEISSequence,
}

/// The answer of a search by terms.
#[derive(Clone, Debug, PartialEq)]
pub struct SearchResponse {
    pub results: Vec<OEISSequence>,
}

/// The string argument under `key` of an arguments object.
pub open spec fn string_argument(args: JsonValue, key: Seq<char>) -> Option<Seq<char>> {
    match args {
        JsonValue::Object(entries) => string_of(lookup_field(entries@, key)),
        _ => None,
    }
}

/// The integers of a list of values, where each of them is one.
pub open spec fn ints_of(items: Seq<JsonValue>) -> Option<Seq<i64>> {
    if forall|i: int| 0 <= i < items.len() ==> (#[trigger] items[i]) is Int {
        Some(Seq::new(items.len(), |i: int| items[i]->Int_0))
    } else {
        None
    }
}

/// The list of integers under `key` of an arguments object.
pub open spec fn int_list_argument(args: JsonValue, key: Seq<char>) -> Option<Seq<i64>> {
    match args {
        JsonValue::Object(entries) => match lookup_field(entries@, key) {
            Some(JsonValue::Array(items)) => ints_of(items@),
            _ => None,
        },
        _ => None,
    }
}

/// Arguments that a tool without parameters accepts: an object, or none at all.
pub open spec fn empty_arguments(args: JsonValue) -> bool {
    args is Object || args is Null
}

/// The JSON answer of a lookup: `{"result": <record>}`.
pub open spec fn find_response_layout(j: JsonValue, s: SequenceView) -> bool {
    &&& j is Object
    &&& j->Object_0@.len() == 1
    &&& j->Object_0@[0].0@ == "result"@
    &&& sequence_layout(j->Object_0@[0].1, s)
}

/// The JSON answer of a search: `{"results": [<record>, ...]}`, in order.
pub open spec fn search_response_layout(j: JsonValue, s: Seq<SequenceView>) -> bool {
    &&& j is Object
    &&& j->Object_0@.len() == 1
    &&& j->Object_0@[0].0@ == "results"@
    &&& j->Object_0@[0].1 is Array
    &&& j->Object_0@[0].1->Array_0@.len() == s.len()
    &&& forall|i: int|
        0 <= i < s.len() ==> sequence_layout(#[trigger] j->Object_0@[0].1->Array_0@[i], s[i])
}

impl EmptyRequest {
    /// The request, where the arguments are an object or absent.
    pub fn from_json(args: &JsonValue) -> (r: Option<EmptyRequest>)
        ensures
            r is Some <==> empty_arguments(*args),
    {
        match args {
            JsonValue::Object(_) => Some(EmptyRequest {  }),
            JsonValue::Null => Some(EmptyRequest {  }),
            _ => None,
        }
    }
}

impl FindRequest {
    /// The request that the arguments describe: an object with a string `id`.
    pub fn from_json(args: &JsonValue) -> (r: Option<FindRequest>)
        ensures
            r is Some <==> string_argument(*args, "id"@) is Some,
            r is Some ==> string_argument(*args, "id"@) == Some(r->Some_0.id@),
    {
        match args {
            JsonValue::Object(entries) => match string_field(entries, "id") {
                Some(id) => Some(FindRequest { id }),
                None => None,
            },
            _ => None,
        }
    }
}

impl SequenceAnalysisRequest {
    /// The request that the arguments describe: an object with a string `sequence_id`.
    pub fn from_json(args: &JsonValue) -> (r: Option<SequenceAnalysisRequest>)
        ensures
            r is Some <==> string_argument(*args, "sequence_id"@) is Some,
            r is Some ==> string_argument(*args, "sequence_id"@) == Some(r->Some_0.sequence_id@),
    {
        match args {
            JsonValue::Object(entries) => match string_field(entries, "sequence_id") {
                Some(sequence_id) => Some(SequenceAnalysisRequest { sequence_id }),
                None => None,
            },
            _ => None,
        }
    }
}

impl SearchRequest {
    /// The request that the arguments describe: an object whose `subsequence`
    /// is an array of integers.
    pub fn from_json(args: &JsonValue) -> (r: Option<SearchRequest>)
        ensures
            r is Some <==> int_list_argument(*args, "subsequence"@) is Some,
            r is Some ==> int_list_argument(*args, "subsequence"@) == Some(
                r->Some_0.subsequence@,
            ),
    {
        let entries = match args {
            JsonValue::Object(entries) => entries,
            _ => {
                return None;
            },
        };
        let items = match get_field(entries, "subsequence") {
            Some(JsonValue::Array(items)) => items,
            _ => {
                return None;
            },
        };
        let mut out: Vec<i64> = Vec::new();
        let mut i: usize = 0;
        while i < items.len()
            invariant
                int_list_argument(*args, "subsequence"@) == ints_of(items@),
                i <= items@.len(),
                out@.len() == i,
                forall|j: int| 0 <= j < i ==> (#[trigger] items@[j]) is Int,
                forall|j: int| 0 <= j < i ==> items@[j]->Int_0 == #[trigger] out@[j],
            decreases items@.len() - i,
        {
            match &items[i] {
                JsonValue::Int(n) => out.push(*n),
                _ => {
                    return None;
                },
            }
            i = i + 1;
        }
        assert(out@ =~= Seq::new(items@.len(), |j: int| items@[j]->Int_0));
        Some(SearchRequest { subsequence: out })
    }
}

impl FindResponse {
    /// The answer as JSON: `{"result": <record>}`.
    pub fn to_json(&self) -> (r: JsonValue)
        ensures
            find_response_layout(r, self.result@),
    {
        let mut entries: Vec<(String, JsonValue)> = Vec::new();
        entries.push((String::from_str("result"), self.result.to_json()));
        JsonValue::Object(entries)
    }
}

impl SearchResponse {
    /// The answer as JSON: `{"results": [<record>, ...]}`.
    pub fn to_json(&self) -> (r: JsonValue)
        ensures
            search_response_layout(r, sequence_views(self.results@)),
    {
        let mut items: Vec<JsonValue> = Vec::new();
        let mut i: usize = 0;
        while i < self.results.len()
            invariant
                i <= self.results@.len(),
                items@.len() == i,
                forall|j: int|
                    0 <= j < i ==> sequence_layout(#[trigger] items@[j], self.results@[j]@),
            decreases self.results@.len() - i,
        {
            items.push(self.results[i].to_json());
            i = i + 1;
        }
        let mut entries: Vec<(String, JsonValue)> = Vec::new();
        entries.push((String::from_str("results"), JsonValue::Array(items)));
        JsonValue::Object(entries)
    }
}

} // verus!
