use vstd::prelude::*;

use crate::json::JsonValue;
use crate::sequence::{
    lemma_layout_round_trip, sequence_from_json, sequence_layout, sequence_views, OEISSequence,
    SequenceView,
};
use crate::text::{id_query, id_query_text, subsequence_query, subsequence_query_text, text_eq};

verus! {

/// The endpoint that the network-backed client queries.
pub const SEARCH_URL: &'static str = "https://oeis.org/search";

/// A failure of the backend: the transport failed, or the body did not have
/// the expected shape.
#[derive(Clone, Debug, PartialEq)]
pub struct BackendError {
    pub message: String,
}

impl BackendError {
    /// A failure with the given description.
    pub fn new(message: &str) -> (r: BackendError)
        ensures
            r.message@ == message@,
    {
        BackendError { message: String::from_str(message) }
    }
}

/// The backend's two operations.
///
/// `find_by_id` gives `Ok(None)` where no record matches; `search_by_subsequence`
/// gives an empty list where none does. Only a failure to reach the backend or
/// to read its answer is an error.
///
/// An implementation may say, through `find_answer` and `search_answer`, which
/// answers it gives to which question; a client that asks a remote service
/// keeps the defaults, under which it may give any.
pub trait OEISClient {
    /// Whether `r` is an answer this client may give to a lookup of `id`;
    /// unless an implementation says more, any answer.
    open spec fn find_answer(
        &self,
        id: Seq<char>,
        r: Result<Option<OEISSequence>, BackendError>,
    ) -> bool {
        true
    }

    /// Whether `r` is an answer this client may give to a search for `terms`;
    /// unless an implementation says more, any answer.
    open spec fn search_answer(
        &self,
        terms: Seq<i64>,
        r: Result<Vec<OEISSequence>, BackendError>,
    ) -> bool {
        true
    }

    /// The record of `id`, if the backend has one.
    fn find_by_id(&self, id: &str) -> (r: Result<Option<OEISSequence>, BackendError>)
        ensures
            self.find_answer(id@, r),
    ;

    /// The records that hold `subsequence`, in the backend's order.
    fn search_by_subsequence(&self, subsequence: &[i64]) -> (r: Result<
        Vec<OEISSequence>,
        BackendError,
    >)
        ensures
            self.search_answer(subsequence@, r),
    ;
}

/// The records that each of `items` describes, where each describes one.
pub open spec fn sequences_of(items: Seq<JsonValue>) -> Option<Seq<SequenceView>> {
    if forall|i: int| 0 <= i < items.len() ==> (#[trigger] sequence_from_json(items[i])) is Some {
        Some(Seq::new(items.len(), |i: int| sequence_from_json(items[i])->Some_0))
    } else {
        None
    }
}

/// The records of a search answer: `null` means none, an array holds them.
pub open spec fn search_body(body: JsonValue) -> Option<Seq<SequenceView>> {
    match body {
        JsonValue::Null => Some(Seq::empty()),
        JsonValue::Array(items) => sequences_of(items@),
        _ => None,
    }
}

/// The record of a lookup answer: the first of its records, if it has one.
pub open spec fn find_body(body: JsonValue) -> Option<Option<SequenceView>> {
    match search_body(body) {
        Some(s) => Some(
            if s.len() == 0 {
                None
            } else {
                Some(s[0])
            },
        ),
        None => None,
    }
}

/// The query parameters of a request to the backend: `fmt=json` and `q=<query>`.
pub fn request_params(query: &str) -> (r: Vec<(String, String)>)
    ensures
        r@.len() == 2,
        r@[0].0@ == "fmt"@,
        r@[0].1@ == "json"@,
        r@[1].0@ == "q"@,
        r@[1].1@ == query@,
{
    let mut r: Vec<(String, String)> = Vec::new();
    r.push((String::from_str("fmt"), String::from_str("json")));
    r.push((String::from_str("q"), String::from_str(query)));
    r
}

/// The records of a search answer.
pub fn decode_search_body(body: &JsonValue) -> (r: Result<Vec<OEISSequence>, BackendError>)
    ensures
        r is Ok <==> search_body(*body) is Some,
        r is Ok ==> search_body(*body) == Some(sequence_views(r->Ok_0@)),
{
    match body {
        JsonValue::Null => {
            let v: Vec<OEISSequence> = Vec::new();
            assert(sequence_views(v@) =~= Seq::empty());
            Ok(v)
        },
        JsonValue::Array(items) => {
            let mut out: Vec<OEISSequence> = Vec::new();
            let mut i: usize = 0;
            while i < items.len()
                invariant
                    search_body(*body) == sequences_of(items@),
                    i <= items@.len(),
                    out@.len() == i,
                    forall|j: int|
                        0 <= j < i ==> sequence_from_json(#[trigger] items@[j]) == Some(
                            out@[j]@,
                        ),
                decreases items@.len() - i,
            {
                match OEISSequence::from_json(&items[i]) {
                    Some(s) => out.push(s),
                    None => {
                        assert(sequence_from_json(items@[i as int]) is None);
                        assert(!(forall|k: int|
                            0 <= k < items@.len() ==> (#[trigger] sequence_from_json(items@[k]))
                                is Some));
                        assert(sequences_of(items@) is None);
                        return Err(BackendError::new("response does not hold sequence records"));
                    },
                }
                i = i + 1;
            }
            assert(sequence_views(out@) =~= Seq::new(
                items@.len(),
                |j: int| sequence_from_json(items@[j])->Some_0,
            ));
            Ok(out)
        },
        _ => Err(BackendError::new("response is neither an array nor null")),
    }
}

/// The record of a lookup answer: the first that it holds, if any.
pub fn decode_find_body(body: &JsonValue) -> (r: Result<Option<OEISSequence>, BackendError>)
    ensures
        match r {
            Ok(Some(s)) => find_body(*body) == Some(Some(s@)),
            Ok(None) => find_body(*body) == Some(None::<SequenceView>),
            Err(_) => find_body(*body) is None,
        },
{
    match decode_search_body(body) {
        Ok(mut v) => {
            if v.len() == 0 {
                Ok(None)
            } else {
                Ok(Some(v.remove(0)))
            }
        },
        Err(e) => Err(e),
    }
}

/// A lookup answer that holds one record in its JSON layout gives back that
/// record, field for field.
pub proof fn lemma_record_survives_lookup_body(items: Vec<JsonValue>, s: SequenceView)
    requires
        items@.len() == 1,
        sequence_layout(items@[0], s),
    ensures
        search_body(JsonValue::Array(items)) == Some(seq![s]),
        find_body(JsonValue::Array(items)) == Some(Some(s)),
{
    lemma_layout_round_trip(items@[0], s);
    assert(Seq::new(1, |i: int| sequence_from_json(items@[i])->Some_0) =~= seq![s]);
}

/// An answer with no records, `null` or `[]`, is a successful empty search and
/// a lookup that found nothing; it is no failure.
pub proof fn lemma_empty_body_is_no_match(body: JsonValue)
    requires
        body is Null || (body is Array && body->Array_0@.len() == 0),
    ensures
        search_body(body) == Some(Seq::<SequenceView>::empty()),
        find_body(body) == Some(None::<SequenceView>),
{
    if body is Array {
        assert(Seq::new(0, |i: int| sequence_from_json(body->Array_0@[i])->Some_0)
            =~= Seq::<SequenceView>::empty());
    }
}

/// A canned answer of the in-memory client.
#[derive(Clone, Debug)]
pub enum MockResponse {
    /// These records match.
    Found(Vec<OEISSequence>),
    /// No record matches.
    NotFound,
    /// The backend fails.
    Error,
}

/// What a canned answer stands for.
pub enum MockOutcome {
    Found(Seq<SequenceView>),
    NotFound,
    Error,
}

impl View for MockResponse {
    type V = MockOutcome;

    open spec fn view(&self) -> MockOutcome {
        match self {
            MockResponse::Found(v) => MockOutcome::Found(sequence_views(v@)),
            MockResponse::NotFound => MockOutcome::NotFound,
            MockResponse::Error => MockOutcome::Error,
        }
    }
}

/// The answers by query, a later entry replacing an earlier one with the same query.
pub open spec fn response_table(entries: Seq<(String, MockResponse)>) -> Map<Seq<char>, MockOutcome>
    decreases entries.len(),
{
    if entries.len() == 0 {
        Map::empty()
    } else {
        response_table(entries.drop_last()).insert(entries.last().0@, entries.last().1@)
    }
}

/// What the in-memory client gives for a lookup by query.
pub open spec fn canned_find(table: Map<Seq<char>, MockOutcome>, query: Seq<char>) -> Result<
    Option<SequenceView>,
    (),
> {
    if table.contains_key(query) {
        match table[query] {
            MockOutcome::Found(s) => Ok(
                if s.len() == 0 {
                    None
                } else {
                    Some(s[0])
                },
            ),
            MockOutcome::NotFound => Ok(None),
            MockOutcome::Error => Err(()),
        }
    } else {
        Ok(None)
    }
}

/// What the in-memory client gives for a search by query.
pub open spec fn canned_search(table: Map<Seq<char>, MockOutcome>, query: Seq<char>) -> Result<
    Seq<SequenceView>,
    (),
> {
    if table.contains_key(query) {
        match table[query] {
            MockOutcome::Found(s) => Ok(s),
            MockOutcome::NotFound => Ok(Seq::empty()),
            MockOutcome::Error => Err(()),
        }
    } else {
        Ok(Seq::empty())
    }
}

/// Whether `r` is what the in-memory client answers to a lookup by `query`.
pub open spec fn canned_find_answer(
    table: Map<Seq<char>, MockOutcome>,
    query: Seq<char>,
    r: Result<Option<OEISSequence>, BackendError>,
) -> bool {
    match r {
        Ok(Some(s)) => canned_find(table, query) == Ok::<Option<SequenceView>, ()>(Some(s@)),
        Ok(None) => canned_find(table, query) == Ok::<Option<SequenceView>, ()>(None),
        Err(_) => canned_find(table, query) is Err,
    }
}

/// Whether `r` is what the in-memory client answers to a search by `query`.
pub open spec fn canned_search_answer(
    table: Map<Seq<char>, MockOutcome>,
    query: Seq<char>,
    r: Result<Vec<OEISSequence>, BackendError>,
) -> bool {
    match r {
        Ok(v) => canned_search(table, query) == Ok::<Seq<SequenceView>, ()>(sequence_views(v@)),
        Err(_) => canned_search(table, query) is Err,
    }
}

/// A client that answers from a table of canned answers, keyed by the query
/// that the network-backed client would send (`id:<id>` or `seq:<terms>`).
#[derive(Clone, Debug)]
pub struct MockOEISClient {
    responses: Vec<(String, MockResponse)>,
}

impl MockOEISClient {
    /// The answers by query.
    pub closed spec fn table(&self) -> Map<Seq<char>, MockOutcome> {
        response_table(self.responses@)
    }

    /// A client with no canned answer: every lookup finds nothing.
    pub fn new() -> (r: MockOEISClient)
        ensures
            r.table() == Map::<Seq<char>, MockOutcome>::empty(),
    {
        MockOEISClient { responses: Vec::new() }
    }

    /// This client, with `response` as the answer to `query`.
    pub fn with_response(self, query: String, response: MockResponse) -> (r: MockOEISClient)
        ensures
            r.table() == self.table().insert(query@, response@),
    {
        let mut responses = self.responses;
        responses.push((query, response));
        assert(responses@.drop_last() =~= self.responses@);
        MockOEISClient { responses }
    }

    /// This client, with `sequence` as the record of `id`.
    pub fn with_sequence(self, id: &str, sequence: OEISSequence) -> (r: MockOEISClient)
        ensures
            r.table() == self.table().insert(id_query(id@), MockOutcome::Found(seq![sequence@])),
    {
        let mut records: Vec<OEISSequence> = Vec::new();
        records.push(sequence);
        let response = MockResponse::Found(records);
        assert(sequence_views(records@) =~= seq![sequence@]);
        self.with_response(id_query_text(id), response)
    }

    /// This client, with no record for `id`.
    pub fn with_not_found(self, id: &str) -> (r: MockOEISClient)
        ensures
            r.table() == self.table().insert(id_query(id@), MockOutcome::NotFound),
    {
        self.with_response(id_query_text(id), MockResponse::NotFound)
    }

    /// This client, failing on a lookup of `id`.
    pub fn with_error(self, id: &str) -> (r: MockOEISClient)
        ensures
            r.table() == self.table().insert(id_query(id@), MockOutcome::Error),
    {
        self.with_response(id_query_text(id), MockResponse::Error)
    }

    /// This client, with `results` as the matches of `subsequence`.
    pub fn with_search_results(self, subsequence: &[i64], results: Vec<OEISSequence>) -> (r:
        MockOEISClient)
        ensures
            r.table() == self.table().insert(
                subsequence_query(subsequence@),
                MockOutcome::Found(sequence_views(results@)),
            ),
    {
        self.with_response(subsequence_query_text(subsequence), MockResponse::Found(results))
    }

    /// This client, failing on a search for `subsequence`.
    pub fn with_search_error(self, subsequence: &[i64]) -> (r: MockOEISClient)
        ensures
            r.table() == self.table().insert(subsequence_query(subsequence@), MockOutcome::Error),
    {
        self.with_response(subsequence_query_text(subsequence), MockResponse::Error)
    }

    /// The answer to `query`, if the table has one.
    pub fn response_for(&self, query: &str) -> (r: Option<&MockResponse>)
        ensures
            match r {
                Some(v) => self.table().contains_key(query@) && self.table()[query@] == v@,
                None => !self.table().contains_key(query@),
            },
    {
        let mut found: Option<&MockResponse> = None;
        let mut i: usize = 0;
        while i < self.responses.len()
            invariant
                i <= self.responses@.len(),
                match found {
                    Some(v) => response_table(self.responses@.take(i as int)).contains_key(query@)
                        && response_table(self.responses@.take(i as int))[query@] == v@,
                    None => !response_table(self.responses@.take(i as int)).contains_key(query@),
                },
            decreases self.responses@.len() - i,
        {
            assert(self.responses@.take(i + 1).drop_last() =~= self.responses@.take(i as int));
            if text_eq(self.responses[i].0.as_str(), query) {
                found = Some(&self.responses[i].1);
            }
            i = i + 1;
        }
        assert(self.responses@.take(i as int) =~= self.responses@);
        found
    }

    /// What this client answers to a lookup of `id`.
    pub fn canned_find_by_id(&self, id: &str) -> (r: Result<Option<OEISSequence>, BackendError>)
        ensures
            canned_find_answer(self.table(), id_query(id@), r),
    {
        let query = id_query_text(id);
        match self.response_for(query.as_str()) {
            Some(MockResponse::Found(v)) => {
                if v.len() == 0 {
                    Ok(None)
                } else {
                    Ok(Some(v[0].duplicate()))
                }
            },
            Some(MockResponse::NotFound) => Ok(None),
            Some(MockResponse::Error) => Err(BackendError::new("backend failure")),
            None => Ok(None),
        }
    }

    /// What this client answers to a search for `subsequence`.
    pub fn canned_search(&self, subsequence: &[i64]) -> (r: Result<Vec<OEISSequence>, BackendError>)
        ensures
            canned_search_answer(self.table(), subsequence_query(subsequence@), r),
    {
        let query = subsequence_query_text(subsequence);
        match self.response_for(query.as_str()) {
            Some(MockResponse::Found(v)) => {
                let mut out: Vec<OEISSequence> = Vec::new();
                let mut i: usize = 0;
                while i < v.len()
                    invariant
                        i <= v@.len(),
                        out@.len() == i,
                        forall|j: int| 0 <= j < i ==> (#[trigger] out@[j])@ == v@[j]@,
                    decreases v@.len() - i,
                {
                    out.push(v[i].duplicate());
                    i = i + 1;
                }
                assert(sequence_views(out@) =~= sequence_views(v@));
                Ok(out)
            },
            Some(MockResponse::NotFound) => {
                let v: Vec<OEISSequence> = Vec::new();
                assert(sequence_views(v@) =~= Seq::empty());
                Ok(v)
            },
            Some(MockResponse::Error) => Err(BackendError::new("backend failure")),
            None => {
                let v: Vec<OEISSequence> = Vec::new();
                assert(sequence_views(v@) =~= Seq::empty());
                Ok(v)
            },
        }
    }
}

impl OEISClient for MockOEISClient {
    open spec fn find_answer(
        &self,
        id: Seq<char>,
        r: Result<Option<OEISSequence>, BackendError>,
    ) -> bool {
        canned_find_answer(self.table(), id_query(id), r)
    }

    open spec fn search_answer(
        &self,
        terms: Seq<i64>,
        r: Result<Vec<OEISSequence>, BackendError>,
    ) -> bool {
        canned_search_answer(self.table(), subsequence_query(terms), r)
    }

    fn find_by_id(&self, id: &str) -> Result<Option<OEISSequence>, BackendError> {
        self.canned_find_by_id(id)
    }

    fn search_by_subsequence(&self, subsequence: &[i64]) -> Result<Vec<OEISSequence>, BackendError> {
        self.canned_search(subsequence)
    }
}

} // verus!
