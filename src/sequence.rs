use vstd::prelude::*;

use crate::json::{
    int_field, int_of, lookup_field, string_array, string_field, string_list_field,
    string_list_of, string_of, strings_of, JsonValue,
};
use crate::text::texts;

verus! {

/// One integer sequence as the backend describes it.
///
/// The three lists are empty where the backend gave none, whether it sent
/// `null`, `[]` or nothing at all.
#[derive(Clone, Debug, PartialEq)]
pub struct OEISSequence {
    pub number: i64,
    pub data: String,
    pub name: String,
    pub comment: Vec<String>,
    pub formula: Vec<String>,
    pub xref: Vec<String>,
    pub keyword: String,
}

/// The mathematical content of an [`OEISSequence`].
pub struct SequenceView {
    pub number: int,
    pub data: Seq<char>,
    pub name: Seq<char>,
    pub comment: Seq<Seq<char>>,
    pub formula: Seq<Seq<char>>,
    pub xref: Seq<Seq<char>>,
    pub keyword: Seq<char>,
}

impl View for OEISSequence {
    type V = SequenceView;

    open spec fn view(&self) -> SequenceView {
        SequenceView {
            number: self.number as int,
            data: self.data@,
            name: self.name@,
            comment: texts(self.comment@),
            formula: texts(self.formula@),
            xref: texts(self.xref@),
            keyword: self.keyword@,
        }
    }
}

/// The views of a list of records.
pub open spec fn sequence_views(v: Seq<OEISSequence>) -> Seq<SequenceView> {
    v.map_values(|s: OEISSequence| s@)
}

/// The record that a JSON object describes: `number` an integer, `data`, `name`
/// and `keyword` strings, and `comment`, `formula` and `xref` lists of strings,
/// each of which may also be `null` or absent. Other entries are ignored.
pub open spec fn sequence_from_json(j: JsonValue) -> Option<SequenceView> {
    match j {
        JsonValue::Object(entries) => {
            let e = entries@;
            let number = int_of(lookup_field(e, "number"@));
            let data = string_of(lookup_field(e, "data"@));
            let name = string_of(lookup_field(e, "name"@));
            let comment = string_list_of(lookup_field(e, "comment"@));
            let formula = string_list_of(lookup_field(e, "formula"@));
            let xref = string_list_of(lookup_field(e, "xref"@));
            let keyword = string_of(lookup_field(e, "keyword"@));
            if number is Some && data is Some && name is Some && comment is Some && formula is Some
                && xref is Some && keyword is Some {
                Some(
                    SequenceView {
                        number: number->Some_0 as int,
                        data: data->Some_0,
                        name: name->Some_0,
                        comment: comment->Some_0,
                        formula: formula->Some_0,
                        xref: xref->Some_0,
                        keyword: keyword->Some_0,
                    },
                )
            } else {
                None
            }
        },
        _ => None,
    }
}

/// The JSON layout of a record: an object with the seven fields in the order
/// `number`, `data`, `name`, `comment`, `formula`, `xref`, `keyword`, each list
/// written as an array of strings.
pub open spec fn sequence_layout(j: JsonValue, s: SequenceView) -> bool {
    match j {
        JsonValue::Object(entries) => {
            let e = entries@;
            &&& e.len() == 7
            &&& e[0].0@ == "number"@ && e[0].1 is Int && e[0].1->Int_0 as int == s.number
            &&& e[1].0@ == "data"@ && e[1].1 is Str && e[1].1->Str_0@ == s.data
            &&& e[2].0@ == "name"@ && e[2].1 is Str && e[2].1->Str_0@ == s.name
            &&& e[3].0@ == "comment"@ && e[3].1 is Array && strings_of(e[3].1->Array_0@) == Some(
                s.comment,
            )
            &&& e[4].0@ == "formula"@ && e[4].1 is Array && strings_of(e[4].1->Array_0@) == Some(
                s.formula,
            )
            &&& e[5].0@ == "xref"@ && e[5].1 is Array && strings_of(e[5].1->Array_0@) == Some(
                s.xref,
            )
            &&& e[6].0@ == "keyword"@ && e[6].1 is Str && e[6].1->Str_0@ == s.keyword
        },
        _ => false,
    }
}

/// The entry at `k` is the first one with its key, so a lookup of that key finds it.
proof fn lemma_lookup_at(e: Seq<(String, JsonValue)>, key: Seq<char>, k: int)
    requires
        0 <= k < e.len(),
        e[k].0@ == key,
        forall|i: int| 0 <= i < k ==> (#[trigger] e[i]).0@ != key,
    ensures
        lookup_field(e, key) == Some(e[k].1),
    decreases k,
{
    if k > 0 {
        assert(e[0].0@ != key);
        assert forall|i: int| 0 <= i < k - 1 implies (#[trigger] e.drop_first()[i]).0@ != key by {
            assert(e.drop_first()[i] == e[i + 1]);
        }
        lemma_lookup_at(e.drop_first(), key, k - 1);
    }
}

/// Reading back the JSON layout of a record gives that record, field for field.
pub proof fn lemma_layout_round_trip(j: JsonValue, s: SequenceView)
    requires
        sequence_layout(j, s),
    ensures
        sequence_from_json(j) == Some(s),
{
    reveal_strlit("number");
    reveal_strlit("data");
    reveal_strlit("name");
    reveal_strlit("comment");
    reveal_strlit("formula");
    reveal_strlit("xref");
    reveal_strlit("keyword");
    let e = j->Object_0@;
    assert("data"@[0] != "name"@[0]);
    assert("number"@[1] != "name"@[1]);
    assert("comment"@[0] != "formula"@[0]);
    assert("comment"@[0] != "keyword"@[0]);
    assert("formula"@[0] != "keyword"@[0]);
    assert("data"@[0] != "xref"@[0]);
    assert("name"@[0] != "xref"@[0]);
    lemma_lookup_at(e, "number"@, 0);
    lemma_lookup_at(e, "data"@, 1);
    lemma_lookup_at(e, "name"@, 2);
    lemma_lookup_at(e, "comment"@, 3);
    lemma_lookup_at(e, "formula"@, 4);
    lemma_lookup_at(e, "xref"@, 5);
    lemma_lookup_at(e, "keyword"@, 6);
}

fn clone_texts(v: &Vec<String>) -> (r: Vec<String>)
    ensures
        texts(r@) == texts(v@),
{
    let mut out: Vec<String> = Vec::new();
    let mut i: usize = 0;
    while i < v.len()
        invariant
            i <= v@.len(),
            out@.len() == i,
            forall|j: int| 0 <= j < i ==> (#[trigger] out@[j])@ == v@[j]@,
        decreases v@.len() - i,
    {
        out.push(v[i].clone());
        i = i + 1;
    }
    assert(texts(out@) =~= texts(v@));
    out
}

impl OEISSequence {
    /// A copy of the record.
    pub fn duplicate(&self) -> (r: OEISSequence)
        ensures
            r@ == self@,
    {
        OEISSequence {
            number: self.number,
            data: self.data.clone(),
            name: self.name.clone(),
            comment: clone_texts(&self.comment),
            formula: clone_texts(&self.formula),
            xref: clone_texts(&self.xref),
            keyword: self.keyword.clone(),
        }
    }

    /// The record as a JSON object, in its layout.
    pub fn to_json(&self) -> (r: JsonValue)
        ensures
            sequence_layout(r, self@),
            sequence_from_json(r) == Some(self@),
    {
        let mut entries: Vec<(String, JsonValue)> = Vec::new();
        entries.push((String::from_str("number"), JsonValue::Int(self.number)));
        entries.push((String::from_str("data"), JsonValue::Str(self.data.clone())));
        entries.push((String::from_str("name"), JsonValue::Str(self.name.clone())));
        entries.push((String::from_str("comment"), string_array(&self.comment)));
        entries.push((String::from_str("formula"), string_array(&self.formula)));
        entries.push((String::from_str("xref"), string_array(&self.xref)));
        entries.push((String::from_str("keyword"), JsonValue::Str(self.keyword.clone())));
        let r = JsonValue::Object(entries);
        proof {
            lemma_layout_round_trip(r, self@);
        }
        r
    }

    /// The record that a JSON object describes, if it describes one.
    pub fn from_json(j: &JsonValue) -> (r: Option<OEISSequence>)
        ensures
            r is Some <==> sequence_from_json(*j) is Some,
            r is Some ==> sequence_from_json(*j) == Some(r->Some_0@),
    {
        match j {
            JsonValue::Object(entries) => {
                let number = int_field(entries, "number");
                let data = string_field(entries, "data");
                let name = string_field(entries, "name");
                let comment = string_list_field(entries, "comment");
                let formula = string_list_field(entries, "formula");
                let xref = string_list_field(entries, "xref");
                let keyword = string_field(entries, "keyword");
                match (number, data, name, comment, formula, xref, keyword) {
                    (
                        Some(number),
                        Some(data),
                        Some(name),
                        Some(comment),
                        Some(formula),
                        Some(xref),
                        Some(keyword),
                    ) => Some(OEISSequence { number, data, name, comment, formula, xref, keyword }),
                    _ => None,
                }
            },
            _ => None,
        }
    }
}

} // verus!
