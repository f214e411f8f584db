use vstd::prelude::*;

use crate::client::{BackendError, OEISClient};
use crate::errors::{
    is_error, lookup_result, not_found_message, resolve_lookup, resolve_search, ErrorCode,
    ServiceError,
};
use crate::json::{string_array, strings_of, JsonValue};
use crate::prompt::{
    analysis_text, build_assistant_messages, build_user_message, user_prompt_text, PromptMessage,
    Role,
};
use crate::requests::{
    empty_arguments, find_response_layout, int_list_argument, search_response_layout,
    string_argument, EmptyRequest, FindRequest, FindResponse, SearchRequest, SearchResponse,
    SequenceAnalysisRequest,
};
use crate::sequence::{
    lemma_layout_round_trip, sequence_from_json, sequence_layout, sequence_views, OEISSequence,
};
use crate::text::{has_prefix, strip_prefix_text, text_eq, texts};

verus! {

/// What a tool gives back: plain text, or a JSON payload.
#[derive(Debug, PartialEq)]
pub enum ToolOutput {
    Text(String),
    Structured(JsonValue),
}

/// A record read as a resource: its JSON, tagged with the URI that was read.
#[derive(Debug, PartialEq)]
pub struct ResourceContents {
    pub uri: String,
    pub json: JsonValue,
}

/// The pattern of the URIs that the service reads, as it advertises it.
#[derive(Clone, Debug, PartialEq)]
pub struct ResourceTemplate {
    pub uri_template: String,
    pub name: String,
    pub description: String,
    pub mime_type: String,
}

/// How the service presents itself: the protocol version it speaks, what it
/// offers, and a note for its callers.
#[derive(Clone, Debug, PartialEq)]
pub struct ServerInfo {
    pub protocol_version: String,
    pub tools: bool,
    pub prompts: bool,
    pub resources: bool,
    pub instructions: String,
}

/// A named operation of the catalog, with its description and the JSON
/// schema of its arguments.
#[derive(Debug, PartialEq)]
pub struct CatalogEntry {
    pub name: String,
    pub description: String,
    pub input_schema: JsonValue,
}

/// The note for callers that the service gives with its description.
pub open spec fn server_instructions() -> Seq<char> {
    "This server provides access to the OEIS (Online Encyclopedia of Integer Sequences) database. Tools: get_url (returns the OEIS homepage URL), find_by_id (search for a sequence by ID like 'A000045'), search_by_subsequence (search for sequences containing given terms). Prompts: sequence_analysis (provides comprehensive analysis of an OEIS sequence). Resources: scheme://sequence/{id} (direct access to sequence data as JSON). Use this server to look up integer sequences, analyze their mathematical properties, and explore relationships between sequences."@
}

/// The keys of an object's entries, in order.
pub open spec fn entry_keys(entries: Seq<(String, JsonValue)>) -> Seq<Seq<char>> {
    entries.map_values(|e: (String, JsonValue)| e.0@)
}

/// An arguments schema: `{"type": "object", "properties": {...}, "required": [...]}`,
/// with one property for each of `parameters`, all of them required.
pub open spec fn schema_requires(j: JsonValue, parameters: Seq<Seq<char>>) -> bool {
    &&& j is Object
    &&& j->Object_0@.len() == 3
    &&& j->Object_0@[0].0@ == "type"@
    &&& j->Object_0@[0].1 is Str
    &&& j->Object_0@[0].1->Str_0@ == "object"@
    &&& j->Object_0@[1].0@ == "properties"@
    &&& j->Object_0@[1].1 is Object
    &&& entry_keys(j->Object_0@[1].1->Object_0@) == parameters
    &&& j->Object_0@[2].0@ == "required"@
    &&& j->Object_0@[2].1 is Array
    &&& strings_of(j->Object_0@[2].1->Array_0@) == Some(parameters)
}

/// The parameters of each tool, in catalog order.
pub open spec fn tool_parameters() -> Seq<Seq<Seq<char>>> {
    seq![Seq::empty(), seq!["id"@], seq!["subsequence"@]]
}

/// What the `find_by_id` tool gives for `id`, the backend having answered `outcome`.
pub open spec fn find_tool_result(
    id: Seq<char>,
    outcome: Result<Option<OEISSequence>, BackendError>,
    r: Result<ToolOutput, ServiceError>,
) -> bool {
    match outcome {
        Err(e) => is_error(r, ErrorCode::InternalError, e.message@),
        Ok(None) => is_error(r, ErrorCode::InvalidParams, not_found_message(id)),
        Ok(Some(s)) => r is Ok && r->Ok_0 is Structured && find_response_layout(
            r->Ok_0->Structured_0,
            s@,
        ),
    }
}

/// What the `search_by_subsequence` tool gives, the backend having answered `outcome`.
pub open spec fn search_tool_result(
    outcome: Result<Vec<OEISSequence>, BackendError>,
    r: Result<ToolOutput, ServiceError>,
) -> bool {
    match outcome {
        Err(e) => is_error(r, ErrorCode::InternalError, e.message@),
        Ok(v) => r is Ok && r->Ok_0 is Structured && search_response_layout(
            r->Ok_0->Structured_0,
            sequence_views(v@),
        ),
    }
}

/// What the analysis prompt gives for `id`, the backend having answered `outcome`:
/// the user's request, then the assistant's digest of the record.
pub open spec fn analysis_result(
    id: Seq<char>,
    outcome: Result<Option<OEISSequence>, BackendError>,
    r: Result<Vec<PromptMessage>, ServiceError>,
) -> bool {
    match outcome {
        Err(e) => is_error(r, ErrorCode::InternalError, e.message@),
        Ok(None) => is_error(r, ErrorCode::InvalidParams, not_found_message(id)),
        Ok(Some(s)) => {
            &&& r is Ok
            &&& r->Ok_0@.len() == 2
            &&& r->Ok_0@[0].role == Role::User
            &&& r->Ok_0@[0].text@ == user_prompt_text(id)
            &&& r->Ok_0@[1].role == Role::Assistant
            &&& r->Ok_0@[1].text@ == analysis_text(s@)
        },
    }
}

/// The fixed beginning of every resource URI.
pub open spec fn resource_prefix() -> Seq<char> {
    "scheme://sequence/"@
}

/// The id that a resource URI names: what follows the fixed beginning.
pub open spec fn resource_id(uri: Seq<char>) -> Seq<char> {
    uri.subrange(resource_prefix().len() as int, uri.len() as int)
}

/// The message for a URI that does not begin as a resource URI does.
pub open spec fn invalid_uri_message(uri: Seq<char>) -> Seq<char> {
    "Invalid resource URI: "@ + uri + ". Expected format: scheme://sequence/{id}"@
}

/// What reading the resource `uri`, which names `id`, gives, the backend having
/// answered `outcome`: the record's JSON tagged with `uri`.
pub open spec fn resource_result(
    uri: Seq<char>,
    id: Seq<char>,
    outcome: Result<Option<OEISSequence>, BackendError>,
    r: Result<ResourceContents, ServiceError>,
) -> bool {
    match outcome {
        Err(e) => is_error(r, ErrorCode::InternalError, e.message@),
        Ok(None) => is_error(r, ErrorCode::InvalidParams, not_found_message(id)),
        Ok(Some(s)) => r is Ok && r->Ok_0.uri@ == uri && sequence_layout(r->Ok_0.json, s@),
    }
}

/// The names of the tools, in catalog order.
pub open spec fn tool_names() -> Seq<Seq<char>> {
    seq!["get_url"@, "find_by_id"@, "search_by_subsequence"@]
}

/// The names of the prompts, in catalog order.
pub open spec fn prompt_names() -> Seq<Seq<char>> {
    seq!["sequence_analysis"@]
}

/// The names of catalog entries.
pub open spec fn entry_names(entries: Seq<CatalogEntry>) -> Seq<Seq<char>> {
    entries.map_values(|e: CatalogEntry| e.name@)
}

/// The message for a tool name that the catalog does not hold.
pub open spec fn unknown_tool_message(name: Seq<char>) -> Seq<char> {
    "Unknown tool: "@ + name
}

/// The message for a prompt name that the catalog does not hold.
pub open spec fn unknown_prompt_message(name: Seq<char>) -> Seq<char> {
    "Unknown prompt: "@ + name
}

/// The message for arguments that do not fit the named operation.
pub open spec fn invalid_arguments_message(name: Seq<char>) -> Seq<char> {
    "Invalid arguments for "@ + name
}

/// The text that `get_url` gives.
pub open spec fn url_output(r: Result<ToolOutput, ServiceError>) -> bool {
    r is Ok && r->Ok_0 is Text && r->Ok_0->Text_0@ == "https://oeis.org"@
}

/// What the `find_by_id` tool gives for `id`, the backend having answered `outcome`.
pub fn respond_find(id: &str, outcome: Result<Option<OEISSequence>, BackendError>) -> (r: Result<
    ToolOutput,
    ServiceError,
>)
    ensures
        find_tool_result(id@, outcome, r),
{
    match resolve_lookup(id, outcome) {
        Ok(result) => Ok(ToolOutput::Structured(FindResponse { result }.to_json())),
        Err(e) => Err(e),
    }
}

/// What the `search_by_subsequence` tool gives, the backend having answered `outcome`.
pub fn respond_search(outcome: Result<Vec<OEISSequence>, BackendError>) -> (r: Result<
    ToolOutput,
    ServiceError,
>)
    ensures
        search_tool_result(outcome, r),
{
    match resolve_search(outcome) {
        Ok(results) => Ok(ToolOutput::Structured(SearchResponse { results }.to_json())),
        Err(e) => Err(e),
    }
}

/// What the analysis prompt gives for `sequence_id`, the backend having answered `outcome`.
pub fn respond_analysis(
    sequence_id: &str,
    outcome: Result<Option<OEISSequence>, BackendError>,
) -> (r: Result<Vec<PromptMessage>, ServiceError>)
    ensures
        analysis_result(sequence_id@, outcome, r),
{
    match resolve_lookup(sequence_id, outcome) {
        Ok(sequence) => {
            let mut messages: Vec<PromptMessage> = Vec::new();
            messages.push(build_user_message(sequence_id));
            messages.push(build_assistant_messages(&sequence));
            Ok(messages)
        },
        Err(e) => Err(e),
    }
}

/// What reading the resource `uri`, which names `id`, gives, the backend having
/// answered `outcome`.
pub fn respond_resource(
    uri: &str,
    id: &str,
    outcome: Result<Option<OEISSequence>, BackendError>,
) -> (r: Result<ResourceContents, ServiceError>)
    ensures
        resource_result(uri@, id@, outcome, r),
{
    match resolve_lookup(id, outcome) {
        Ok(sequence) => Ok(ResourceContents { uri: String::from_str(uri), json: sequence.to_json() }),
        Err(e) => Err(e),
    }
}

/// The id that a resource URI names, where it begins as a resource URI does.
pub fn parse_resource_uri(uri: &str) -> (r: Option<String>)
    ensures
        r is Some <==> has_prefix(uri@, resource_prefix()),
        r is Some ==> r->Some_0@ == resource_id(uri@),
{
    let r = strip_prefix_text(uri, "scheme://sequence/");
    match r {
        Some(id) => {
            assert(id@ =~= resource_id(uri@));
            Some(id)
        },
        None => None,
    }
}

/// The data of the error for a refused URI: `{"uri": <uri>}`.
pub open spec fn uri_data(d: Option<JsonValue>, uri: Seq<char>) -> bool {
    &&& d is Some
    &&& d->Some_0 is Object
    &&& d->Some_0->Object_0@.len() == 1
    &&& d->Some_0->Object_0@[0].0@ == "uri"@
    &&& d->Some_0->Object_0@[0].1 is Str
    &&& d->Some_0->Object_0@[0].1->Str_0@ == uri
}

/// The error for a URI that does not begin as a resource URI does; its data
/// names the URI.
pub fn invalid_uri_error(uri: &str) -> (r: ServiceError)
    ensures
        r.code == ErrorCode::InvalidParams,
        r.message@ == invalid_uri_message(uri@),
        uri_data(r.data, uri@),
{
    let mut message = String::from_str("Invalid resource URI: ");
    message.append(uri);
    message.append(". Expected format: scheme://sequence/{id}");
    let mut entries: Vec<(String, JsonValue)> = Vec::new();
    entries.push((String::from_str("uri"), JsonValue::Str(String::from_str(uri))));
    ServiceError { code: ErrorCode::InvalidParams, message, data: Some(JsonValue::Object(entries)) }
}

fn named_error(code: ErrorCode, lead: &str, name: &str) -> (r: ServiceError)
    ensures
        r.code == code,
        r.message@ == lead@ + name@,
        r.data is None,
{
    let mut message = String::from_str(lead);
    message.append(name);
    ServiceError { code, message, data: None }
}

fn type_schema(kind: &str) -> (r: JsonValue)
    ensures
        r is Object,
{
    let mut entries: Vec<(String, JsonValue)> = Vec::new();
    entries.push((String::from_str("type"), JsonValue::Str(String::from_str(kind))));
    JsonValue::Object(entries)
}

/// The name of the one parameter, if there is one.
spec fn parameter_names(parameter: Option<(&str, JsonValue)>) -> Seq<Seq<char>> {
    match parameter {
        Some(p) => seq![p.0@],
        None => Seq::empty(),
    }
}

fn object_schema(parameter: Option<(&str, JsonValue)>) -> (r: JsonValue)
    ensures
        schema_requires(r, parameter_names(parameter)),
{
    let ghost names = parameter_names(parameter);
    let mut properties: Vec<(String, JsonValue)> = Vec::new();
    let mut required: Vec<String> = Vec::new();
    match parameter {
        Some((name, schema)) => {
            properties.push((String::from_str(name), schema));
            required.push(String::from_str(name));
        },
        None => {},
    }
    assert(entry_keys(properties@) =~= names);
    assert(texts(required@) =~= names);
    let listed = string_array(&required);
    let mut entries: Vec<(String, JsonValue)> = Vec::new();
    entries.push((String::from_str("type"), JsonValue::Str(String::from_str("object"))));
    entries.push((String::from_str("properties"), JsonValue::Object(properties)));
    entries.push((String::from_str("required"), listed));
    JsonValue::Object(entries)
}

fn catalog_entry(name: &str, description: &str, input_schema: JsonValue) -> (r: CatalogEntry)
    ensures
        r.name@ == name@,
        r.description@ == description@,
        r.input_schema == input_schema,
{
    CatalogEntry {
        name: String::from_str(name),
        description: String::from_str(description),
        input_schema,
    }
}

/// The tools, in the order `get_url`, `find_by_id`, `search_by_subsequence`.
pub fn tool_catalog() -> (r: Vec<CatalogEntry>)
    ensures
        r@.len() == 3,
        entry_names(r@) == tool_names(),
        forall|i: int| 0 <= i < 3 ==> schema_requires(#[trigger] r@[i].input_schema, tool_parameters()[i]),
{
    let mut r: Vec<CatalogEntry> = Vec::new();
    r.push(catalog_entry("get_url", "Get a URL of OEIS entry.", object_schema(None)));
    r.push(
        catalog_entry(
            "find_by_id",
            "Find a sequence by its ID.",
            object_schema(Some(("id", type_schema("string")))),
        ),
    );
    let mut items: Vec<(String, JsonValue)> = Vec::new();
    items.push((String::from_str("type"), JsonValue::Str(String::from_str("array"))));
    items.push((String::from_str("items"), type_schema("integer")));
    r.push(
        catalog_entry(
            "search_by_subsequence",
            "Search for sequences that contain the given terms, in order.",
            object_schema(Some(("subsequence", JsonValue::Object(items)))),
        ),
    );
    assert(entry_names(r@) =~= tool_names());
    assert(tool_parameters()[0] =~= Seq::<Seq<char>>::empty());
    r
}

/// The prompts: `sequence_analysis` alone.
pub fn prompt_catalog() -> (r: Vec<CatalogEntry>)
    ensures
        r@.len() == 1,
        entry_names(r@) == prompt_names(),
        schema_requires(r@[0].input_schema, seq!["sequence_id"@]),
{
    let mut id_property: Vec<(String, JsonValue)> = Vec::new();
    id_property.push((String::from_str("type"), JsonValue::Str(String::from_str("string"))));
    id_property.push(
        (
            String::from_str("description"),
            JsonValue::Str(String::from_str("The OEIS sequence ID to analyze (e.g., \"A000045\")")),
        ),
    );
    let mut r: Vec<CatalogEntry> = Vec::new();
    r.push(
        catalog_entry(
            "sequence_analysis",
            "Analyzes an OEIS sequence in detail, providing mathematical context, patterns, and related sequences",
            object_schema(Some(("sequence_id", JsonValue::Object(id_property)))),
        ),
    );
    assert(entry_names(r@) =~= prompt_names());
    r
}

/// The place of the first entry named `name`.
pub fn entry_position(entries: &Vec<CatalogEntry>, name: &str) -> (r: Option<usize>)
    ensures
        match r {
            Some(i) => i < entries@.len() && entries@[i as int].name@ == name@ && forall|j: int|
                0 <= j < i ==> (#[trigger] entries@[j]).name@ != name@,
            None => forall|j: int| 0 <= j < entries@.len() ==> (#[trigger] entries@[j]).name@ != name@,
        },
{
    let mut i: usize = 0;
    while i < entries.len()
        invariant
            i <= entries@.len(),
            forall|j: int| 0 <= j < i ==> (#[trigger] entries@[j]).name@ != name@,
        decreases entries@.len() - i,
    {
        if text_eq(entries[i].name.as_str(), name) {
            return Some(i);
        }
        i = i + 1;
    }
    None
}

proof fn lemma_tool_names_distinct()
    ensures
        tool_names()[0] != tool_names()[1],
        tool_names()[0] != tool_names()[2],
        tool_names()[1] != tool_names()[2],
{
    reveal_strlit("get_url");
    reveal_strlit("find_by_id");
    reveal_strlit("search_by_subsequence");
    assert(tool_names()[0][0] != tool_names()[1][0]);
    assert(tool_names()[0][0] != tool_names()[2][0]);
    assert(tool_names()[1][0] != tool_names()[2][0]);
}

/// The service: the catalog of operations over a backend.
#[derive(Clone, Debug)]
pub struct OEIS<C: OEISClient> {
    client: C,
}

impl<C: OEISClient> OEIS<C> {
    /// The service over `client`.
    pub fn new(client: C) -> (r: OEIS<C>)
        ensures
            r.client() == client,
    {
        OEIS { client }
    }

    /// The backend that the service calls.
    pub closed spec fn client(&self) -> C {
        self.client
    }

    /// The record of `id`, whatever the backend answered.
    pub fn find_sequence(&self, id: &str) -> (r: Result<OEISSequence, ServiceError>)
        ensures
            exists|o: Result<Option<OEISSequence>, BackendError>|
                self.client().find_answer(id@, o) && lookup_result(id@, o, r),
    {
        let outcome = self.client.find_by_id(id);
        let ghost answered = outcome;
        let r = resolve_lookup(id, outcome);
        assert(lookup_result(id@, answered, r));
        r
    }

    /// The `get_url` tool: the backend's homepage.
    pub fn get_url(&self, _request: &EmptyRequest) -> (r: Result<ToolOutput, ServiceError>)
        ensures
            url_output(r),
    {
        Ok(ToolOutput::Text(String::from_str("https://oeis.org")))
    }

    /// The `find_by_id` tool: `{"result": <record>}` for the requested id.
    pub fn find_by_id(&self, request: &FindRequest) -> (r: Result<ToolOutput, ServiceError>)
        ensures
            exists|o: Result<Option<OEISSequence>, BackendError>|
                self.client().find_answer(request.id@, o) && find_tool_result(request.id@, o, r),
    {
        let outcome = self.client.find_by_id(request.id.as_str());
        let ghost answered = outcome;
        let r = respond_find(request.id.as_str(), outcome);
        assert(find_tool_result(request.id@, answered, r));
        r
    }

    /// The `search_by_subsequence` tool: `{"results": [...]}` for the requested terms.
    pub fn search_by_subsequence(&self, request: &SearchRequest) -> (r: Result<
        ToolOutput,
        ServiceError,
    >)
        ensures
            exists|o: Result<Vec<OEISSequence>, BackendError>|
                self.client().search_answer(request.subsequence@, o) && search_tool_result(o, r),
    {
        let outcome = self.client.search_by_subsequence(request.subsequence.as_slice());
        let ghost answered = outcome;
        let r = respond_search(outcome);
        assert(search_tool_result(answered, r));
        r
    }

    /// The `sequence_analysis` prompt: the user's request and the assistant's digest.
    pub fn sequence_analysis(&self, request: &SequenceAnalysisRequest) -> (r: Result<
        Vec<PromptMessage>,
        ServiceError,
    >)
        ensures
            exists|o: Result<Option<OEISSequence>, BackendError>|
                self.client().find_answer(request.sequence_id@, o) && analysis_result(
                    request.sequence_id@,
                    o,
                    r,
                ),
    {
        let outcome = self.client.find_by_id(request.sequence_id.as_str());
        let ghost answered = outcome;
        let r = respond_analysis(request.sequence_id.as_str(), outcome);
        assert(analysis_result(request.sequence_id@, answered, r));
        r
    }

    /// Reads the resource `uri`. A URI that does not begin with
    /// `scheme://sequence/` is refused before the backend is asked.
    pub fn read_resource(&self, uri: &str) -> (r: Result<ResourceContents, ServiceError>)
        ensures
            !has_prefix(uri@, resource_prefix()) ==> is_error(
                r,
                ErrorCode::InvalidParams,
                invalid_uri_message(uri@),
            ),
            !has_prefix(uri@, resource_prefix()) ==> uri_data(r->Err_0.data, uri@),
            has_prefix(uri@, resource_prefix()) ==> exists|
                o: Result<Option<OEISSequence>, BackendError>,
            | self.client().find_answer(resource_id(uri@), o) && resource_result(
                uri@,
                resource_id(uri@),
                o,
                r,
            ),
    {
        match parse_resource_uri(uri) {
            Some(id) => {
                let outcome = self.client.find_by_id(id.as_str());
                let ghost answered = outcome;
                let r = respond_resource(uri, id.as_str(), outcome);
                assert(resource_result(uri@, resource_id(uri@), answered, r));
                r
            },
            None => Err(invalid_uri_error(uri)),
        }
    }

    /// The resource pattern that the service advertises: `scheme://sequence/{id}`, as JSON.
    pub fn list_resource_templates(&self) -> (r: Vec<ResourceTemplate>)
        ensures
            r@.len() == 1,
            r@[0].uri_template@ == "scheme://sequence/{id}"@,
            r@[0].mime_type@ == "application/json"@,
    {
        let mut r: Vec<ResourceTemplate> = Vec::new();
        r.push(
            ResourceTemplate {
                uri_template: String::from_str("scheme://sequence/{id}"),
                name: String::from_str("OEIS Sequence"),
                description: String::from_str("OEIS sequence data by ID (e.g., A000045)"),
                mime_type: String::from_str("application/json"),
            },
        );
        r
    }

    /// What the service offers: protocol version 2025-06-18, tools, prompts and
    /// resources, with a note for callers.
    pub fn get_info(&self) -> (r: ServerInfo)
        ensures
            r.tools && r.prompts && r.resources,
            r.instructions@ == server_instructions(),
            r.protocol_version@ == "2025-06-18"@,
    {
        ServerInfo {
            protocol_version: String::from_str("2025-06-18"),
            tools: true,
            prompts: true,
            resources: true,
            instructions: String::from_str(
                "This server provides access to the OEIS (Online Encyclopedia of Integer Sequences) database. Tools: get_url (returns the OEIS homepage URL), find_by_id (search for a sequence by ID like 'A000045'), search_by_subsequence (search for sequences containing given terms). Prompts: sequence_analysis (provides comprehensive analysis of an OEIS sequence). Resources: scheme://sequence/{id} (direct access to sequence data as JSON). Use this server to look up integer sequences, analyze their mathematical properties, and explore relationships between sequences.",
            ),
        }
    }

    /// Calls the tool `name` of the catalog on `arguments`.
    pub fn call_tool(&self, name: &str, arguments: &JsonValue) -> (r: Result<ToolOutput, ServiceError>)
        ensures
            !tool_names().contains(name@) ==> is_error(
                r,
                ErrorCode::InvalidParams,
                unknown_tool_message(name@),
            ),
            name@ == tool_names()[0] ==> if empty_arguments(*arguments) {
                url_output(r)
            } else {
                is_error(r, ErrorCode::InvalidParams, invalid_arguments_message(name@))
            },
            name@ == tool_names()[1] ==> match string_argument(*arguments, "id"@) {
                Some(id) => exists|o: Result<Option<OEISSequence>, BackendError>|
                    self.client().find_answer(id, o) && find_tool_result(id, o, r),
                None => is_error(r, ErrorCode::InvalidParams, invalid_arguments_message(name@)),
            },
            name@ == tool_names()[2] ==> match int_list_argument(*arguments, "subsequence"@) {
                Some(terms) => exists|o: Result<Vec<OEISSequence>, BackendError>|
                    self.client().search_answer(terms, o) && search_tool_result(o, r),
                None => is_error(r, ErrorCode::InvalidParams, invalid_arguments_message(name@)),
            },
    {
        proof {
            lemma_tool_names_distinct();
        }
        let catalog = tool_catalog();
        let position = entry_position(&catalog, name);
        proof {
            assert(catalog@.len() == 3);
            assert(entry_names(catalog@)[0] == catalog@[0].name@);
            assert(entry_names(catalog@)[1] == catalog@[1].name@);
            assert(entry_names(catalog@)[2] == catalog@[2].name@);
            if !tool_names().contains(name@) {
                assert(position is None) by {
                    if position is Some {
                        assert(tool_names()[position->Some_0 as int] == name@);
                    }
                }
            }
            if position is None {
                assert(name@ != catalog@[0].name@);
                assert(name@ != catalog@[1].name@);
                assert(name@ != catalog@[2].name@);
            }
        }
        match position {
            None => Err(named_error(ErrorCode::InvalidParams, "Unknown tool: ", name)),
            Some(0) => match EmptyRequest::from_json(arguments) {
                Some(request) => self.get_url(&request),
                None => Err(named_error(ErrorCode::InvalidParams, "Invalid arguments for ", name)),
            },
            Some(1) => match FindRequest::from_json(arguments) {
                Some(request) => {
                    let r = self.find_by_id(&request);
                    proof {
                        let o = choose|o: Result<Option<OEISSequence>, BackendError>|
                            self.client().find_answer(request.id@, o) && find_tool_result(
                                request.id@,
                                o,
                                r,
                            );
                        assert(self.client().find_answer(
                            string_argument(*arguments, "id"@)->Some_0,
                            o,
                        ));
                        assert(find_tool_result(
                            string_argument(*arguments, "id"@)->Some_0,
                            o,
                            r,
                        ));
                    }
                    r
                },
                None => Err(named_error(ErrorCode::InvalidParams, "Invalid arguments for ", name)),
            },
            Some(_) => match SearchRequest::from_json(arguments) {
                Some(request) => self.search_by_subsequence(&request),
                None => Err(named_error(ErrorCode::InvalidParams, "Invalid arguments for ", name)),
            },
        }
    }

    /// Gets the prompt `name` of the catalog on `arguments`.
    pub fn get_prompt(&self, name: &str, arguments: &JsonValue) -> (r: Result<
        Vec<PromptMessage>,
        ServiceError,
    >)
        ensures
            name@ != prompt_names()[0] ==> is_error(
                r,
                ErrorCode::InvalidParams,
                unknown_prompt_message(name@),
            ),
            name@ == prompt_names()[0] ==> match string_argument(*arguments, "sequence_id"@) {
                Some(id) => exists|o: Result<Option<OEISSequence>, BackendError>|
                    self.client().find_answer(id, o) && analysis_result(id, o, r),
                None => is_error(r, ErrorCode::InvalidParams, invalid_arguments_message(name@)),
            },
    {
        let catalog = prompt_catalog();
        let position = entry_position(&catalog, name);
        proof {
            assert(catalog@.len() == 1);
            assert(entry_names(catalog@)[0] == catalog@[0].name@);
        }
        match position {
            None => Err(named_error(ErrorCode::InvalidParams, "Unknown prompt: ", name)),
            Some(_) => match SequenceAnalysisRequest::from_json(arguments) {
                Some(request) => {
                    let r = self.sequence_analysis(&request);
                    proof {
                        let o = choose|o: Result<Option<OEISSequence>, BackendError>|
                            self.client().find_answer(request.sequence_id@, o) && analysis_result(
                                request.sequence_id@,
                                o,
                                r,
                            );
                        assert(self.client().find_answer(
                            string_argument(*arguments, "sequence_id"@)->Some_0,
                            o,
                        ));
                        assert(analysis_result(
                            string_argument(*arguments, "sequence_id"@)->Some_0,
                            o,
                            r,
                        ));
                    }
                    r
                },
                None => Err(named_error(ErrorCode::InvalidParams, "Invalid arguments for ", name)),
            },
        }
    }
}

/// Reading the resource for `id` gives the same record as the `find_by_id`
/// tool for `id`, the backend answering alike, tagged with the URI; and the
/// same error where there is one.
pub proof fn lemma_resource_agrees_with_find(
    id: Seq<char>,
    outcome: Result<Option<OEISSequence>, BackendError>,
    found: Result<ToolOutput, ServiceError>,
    read: Result<ResourceContents, ServiceError>,
)
    requires
        find_tool_result(id, outcome, found),
        resource_result(resource_prefix() + id, id, outcome, read),
    ensures
        found is Ok <==> read is Ok,
        read is Ok ==> read->Ok_0.uri@ == resource_prefix() + id,
        read is Ok ==> sequence_from_json(read->Ok_0.json) == sequence_from_json(
            found->Ok_0->Structured_0->Object_0@[0].1,
        ),
        read is Ok ==> sequence_from_json(read->Ok_0.json) is Some,
        read is Err ==> read->Err_0.code == found->Err_0.code && read->Err_0.message@
            == found->Err_0.message@,
{
    match outcome {
        Ok(Some(s)) => {
            lemma_layout_round_trip(read->Ok_0.json, s@);
            lemma_layout_round_trip(
                found->Ok_0->Structured_0->Object_0@[0].1,
                s@,
            );
        },
        _ => {},
    }
}

/// The id that the resource URI for `id` names is `id`.
pub proof fn lemma_resource_uri_names_id(id: Seq<char>)
    ensures
        has_prefix(resource_prefix() + id, resource_prefix()),
        resource_id(resource_prefix() + id) == id,
{
    let uri = resource_prefix() + id;
    assert(uri.subrange(0, resource_prefix().len() as int) =~= resource_prefix());
    assert(resource_id(uri) =~= id);
}

/// Where the backend has no record for `id`, `find_by_id` gives invalid-parameters,
/// with a message that names the id after "No sequence found".
pub proof fn lemma_missing_id_is_invalid_params(id: Seq<char>, r: Result<ToolOutput, ServiceError>)
    requires
        find_tool_result(id, Ok(None), r),
    ensures
        r is Err,
        r->Err_0.code == ErrorCode::InvalidParams,
        r->Err_0.message@ == "No sequence found (by id: "@ + id + ")"@,
{
}

/// Where the backend has one record for `id`, `find_by_id` gives that record,
/// field for field.
pub proof fn lemma_found_record_unchanged(
    id: Seq<char>,
    s: OEISSequence,
    r: Result<ToolOutput, ServiceError>,
)
    requires
        find_tool_result(id, Ok(Some(s)), r),
    ensures
        r is Ok,
        r->Ok_0 is Structured,
        sequence_from_json(r->Ok_0->Structured_0->Object_0@[0].1) == Some(s@),
{
    lemma_layout_round_trip(r->Ok_0->Structured_0->Object_0@[0].1, s@);
}

/// A failure of the backend gives an internal error, never invalid-parameters,
/// to `find_by_id` and to `search_by_subsequence` alike.
pub proof fn lemma_backend_failure_is_internal(
    id: Seq<char>,
    e: BackendError,
    found: Result<ToolOutput, ServiceError>,
    searched: Result<ToolOutput, ServiceError>,
)
    requires
        find_tool_result(id, Err(e), found),
        search_tool_result(Err(e), searched),
    ensures
        found is Err && found->Err_0.code == ErrorCode::InternalError,
        searched is Err && searched->Err_0.code == ErrorCode::InternalError,
        found->Err_0.code != ErrorCode::InvalidParams,
        searched->Err_0.code != ErrorCode::InvalidParams,
{
}

/// Where the backend finds no match, `search_by_subsequence` succeeds with an
/// empty list of results.
pub proof fn lemma_no_match_is_empty_success(
    v: Vec<OEISSequence>,
    r: Result<ToolOutput, ServiceError>,
)
    requires
        v@.len() == 0,
        search_tool_result(Ok(v), r),
    ensures
        r is Ok,
        r->Ok_0 is Structured,
        r->Ok_0->Structured_0->Object_0@[0].0@ == "results"@,
        r->Ok_0->Structured_0->Object_0@[0].1->Array_0@.len() == 0,
{
}

} // verus!
