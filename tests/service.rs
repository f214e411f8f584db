use oeis_mcp::client::{MockOEISClient, OEISClient};
use oeis_mcp::errors::ErrorCode;
use oeis_mcp::json::JsonValue;
use oeis_mcp::prompt::Role;
use oeis_mcp::requests::{
    EmptyRequest, FindRequest, FindResponse, SearchRequest, SearchResponse,
    SequenceAnalysisRequest,
};
use oeis_mcp::sequence::OEISSequence;
use oeis_mcp::service::{parse_resource_uri, prompt_catalog, tool_catalog, ToolOutput, OEIS};

fn create_test_sequence(number: i64, name: &str) -> OEISSequence {
    OEISSequence {
        number,
        data: "0, 1, 1, 2, 3, 5, 8".to_string(),
        name: name.to_string(),
        comment: vec!["Test comment".to_string()],
        formula: vec!["Test formula".to_string()],
        xref: vec!["A000001".to_string()],
        keyword: "nonn".to_string(),
    }
}

fn object(entries: Vec<(&str, JsonValue)>) -> JsonValue {
    JsonValue::Object(entries.into_iter().map(|(k, v)| (k.to_string(), v)).collect())
}

#[test]
fn test_mock_client() {
    let fibonacci = create_test_sequence(45, "Fibonacci numbers");
    let client = MockOEISClient::new().with_sequence("A000045", fibonacci.clone());

    let result = client.find_by_id("A000045").unwrap();
    assert!(result.is_some());

    let sequence = result.unwrap();
    assert_eq!(sequence.number, 45);
    assert_eq!(sequence.name, "Fibonacci numbers");
}

#[test]
fn test_mock_client_not_found() {
    let client = MockOEISClient::new().with_not_found("NON_EXISTENT");

    let result = client.find_by_id("NON_EXISTENT").unwrap();
    assert!(result.is_none());
}

#[test]
fn test_uri_parsing() {
    let uri = "scheme://sequence/A000045";
    let id = parse_resource_uri(uri);
    assert_eq!(id, Some("A000045".to_string()));
}

#[test]
fn test_uri_parsing_invalid() {
    let invalid_uri = "invalid://uri";
    let id = parse_resource_uri(invalid_uri);
    assert_eq!(id, None);
}

#[test]
fn test_find_sequence_success() {
    let fibonacci = create_test_sequence(45, "Fibonacci numbers");
    let oeis = OEIS::new(MockOEISClient::new().with_sequence("A000045", fibonacci.clone()));

    let result = oeis.find_sequence("A000045");
    assert!(result.is_ok());

    let sequence = result.unwrap();
    assert_eq!(sequence.number, 45);
    assert_eq!(sequence.name, "Fibonacci numbers");
}

#[test]
fn test_find_sequence_not_found() {
    let oeis = OEIS::new(MockOEISClient::new().with_not_found("NON_EXISTENT"));

    let result = oeis.find_sequence("NON_EXISTENT");
    assert!(result.is_err());

    let error = result.unwrap_err();
    assert_eq!(error.code, ErrorCode::InvalidParams);
    assert!(error.message.contains("No sequence found"));
}

#[test]
fn test_find_sequence_error() {
    let oeis = OEIS::new(MockOEISClient::new().with_error("ERROR_CASE"));

    let result = oeis.find_sequence("ERROR_CASE");
    assert!(result.is_err());

    let error = result.unwrap_err();
    assert_eq!(error.code, ErrorCode::InternalError);
}

#[test]
fn test_tool_router_definition() {
    // get_url, find_by_id and search_by_subsequence
    assert!(tool_catalog().len() == 3);
}

#[test]
fn test_get_url_tool() {
    let oeis = OEIS::new(MockOEISClient::new());

    let result = oeis.get_url(&EmptyRequest {});
    assert!(result.is_ok());

    assert_eq!(result.unwrap(), ToolOutput::Text("https://oeis.org".to_string()));
}

#[test]
fn test_find_by_id_tool_found() {
    let fibonacci = create_test_sequence(45, "Fibonacci numbers");
    let oeis = OEIS::new(MockOEISClient::new().with_sequence("A000045", fibonacci.clone()));
    let params = FindRequest { id: "A000045".to_string() };

    let result = oeis.find_by_id(&params);
    assert!(result.is_ok());

    assert_eq!(
        result.unwrap(),
        ToolOutput::Structured(FindResponse { result: fibonacci }.to_json())
    );
}

#[test]
fn test_find_by_id_tool_not_found() {
    let oeis = OEIS::new(MockOEISClient::new().with_not_found("NON_EXISTENT"));
    let params = FindRequest { id: "NON_EXISTENT".to_string() };

    let result = oeis.find_by_id(&params);
    assert!(result.is_err());

    let error = result.unwrap_err();
    assert_eq!(error.code, ErrorCode::InvalidParams);
    assert!(error.message.contains("No sequence found"));
}

#[test]
fn test_find_by_id_tool_error() {
    let oeis = OEIS::new(MockOEISClient::new().with_error("ERROR_CASE"));
    let params = FindRequest { id: "ERROR_CASE".to_string() };

    let result = oeis.find_by_id(&params);
    assert!(result.is_err());

    let error = result.unwrap_err();
    assert_eq!(error.code, ErrorCode::InternalError);
}

#[test]
fn test_prompt_router_definition() {
    assert!(prompt_catalog().len() == 1);
}

#[test]
fn test_sequence_analysis_prompt() {
    let fibonacci = create_test_sequence(45, "Fibonacci numbers");
    let oeis = OEIS::new(MockOEISClient::new().with_sequence("A000045", fibonacci.clone()));

    let params = SequenceAnalysisRequest { sequence_id: "A000045".to_string() };

    let result = oeis.sequence_analysis(&params);
    assert!(result.is_ok());

    let messages = result.unwrap();
    assert_eq!(messages.len(), 2);

    assert_eq!(messages[0].role, Role::User);
    let text = &messages[0].text;
    assert!(text.contains("comprehensive analysis"));
    assert!(text.contains("A000045"));

    assert_eq!(messages[1].role, Role::Assistant);
    let text = &messages[1].text;
    assert!(text.contains("Fibonacci numbers"));
    assert!(text.contains("A000045"));
    assert!(text.contains("0, 1, 1, 2, 3, 5, 8"));
}

#[test]
fn test_sequence_analysis_prompt_not_found() {
    let oeis = OEIS::new(MockOEISClient::new().with_not_found("NON_EXISTENT"));

    let params = SequenceAnalysisRequest { sequence_id: "NON_EXISTENT".to_string() };

    let result = oeis.sequence_analysis(&params);
    assert!(result.is_err());

    let error = result.unwrap_err();
    assert_eq!(error.code, ErrorCode::InvalidParams);
    assert!(error.message.contains("No sequence found"));
}

#[test]
fn test_sequence_analysis_prompt_error() {
    let oeis = OEIS::new(MockOEISClient::new().with_error("ERROR_CASE"));

    let params = SequenceAnalysisRequest { sequence_id: "ERROR_CASE".to_string() };

    let result = oeis.sequence_analysis(&params);
    assert!(result.is_err());

    let error = result.unwrap_err();
    assert_eq!(error.code, ErrorCode::InternalError);
}

#[test]
fn missing_id_gives_exact_not_found_message() {
    let oeis = OEIS::new(MockOEISClient::new());
    let error = oeis.find_sequence("A999999").unwrap_err();
    assert_eq!(error.code, ErrorCode::InvalidParams);
    assert_eq!(error.message, "No sequence found (by id: A999999)");
}

#[test]
fn found_record_is_returned_unchanged() {
    let record = OEISSequence {
        number: 40,
        data: "2, 3, 5, 7, 11".to_string(),
        name: "The prime numbers.".to_string(),
        comment: vec!["first".to_string(), "second".to_string()],
        formula: vec![],
        xref: vec!["A000045".to_string()],
        keyword: "core,nonn".to_string(),
    };
    let oeis = OEIS::new(MockOEISClient::new().with_sequence("A000040", record.clone()));
    assert_eq!(oeis.find_sequence("A000040").unwrap(), record);
}

#[test]
fn backend_failure_is_internal_for_both_tools() {
    let client = MockOEISClient::new()
        .with_error("A000045")
        .with_search_error(&[1, 2, 3]);
    let oeis = OEIS::new(client);
    let found = oeis.find_by_id(&FindRequest { id: "A000045".to_string() });
    let searched = oeis.search_by_subsequence(&SearchRequest { subsequence: vec![1, 2, 3] });
    assert_eq!(found.unwrap_err().code, ErrorCode::InternalError);
    assert_eq!(searched.unwrap_err().code, ErrorCode::InternalError);
}

#[test]
fn search_with_no_match_is_empty_success() {
    let oeis = OEIS::new(MockOEISClient::new());
    let result = oeis
        .search_by_subsequence(&SearchRequest { subsequence: vec![999, 888, 777] })
        .unwrap();
    assert_eq!(
        result,
        ToolOutput::Structured(SearchResponse { results: vec![] }.to_json())
    );
    assert_eq!(
        result,
        ToolOutput::Structured(object(vec![("results", JsonValue::Array(vec![]))]))
    );
}

#[test]
fn search_returns_records_in_order() {
    let a = create_test_sequence(27, "Natural numbers");
    let b = create_test_sequence(290, "Primes and composites");
    let oeis = OEIS::new(
        MockOEISClient::new().with_search_results(&[1, 2, 3], vec![a.clone(), b.clone()]),
    );
    let result = oeis
        .search_by_subsequence(&SearchRequest { subsequence: vec![1, 2, 3] })
        .unwrap();
    assert_eq!(
        result,
        ToolOutput::Structured(object(vec![(
            "results",
            JsonValue::Array(vec![a.to_json(), b.to_json()])
        )]))
    );
}

#[test]
fn resource_read_matches_find_by_id() {
    let fibonacci = create_test_sequence(45, "Fibonacci numbers");
    let oeis = OEIS::new(MockOEISClient::new().with_sequence("A000045", fibonacci.clone()));
    let found = oeis.find_sequence("A000045").unwrap();
    let contents = oeis.read_resource("scheme://sequence/A000045").unwrap();
    assert_eq!(contents.uri, "scheme://sequence/A000045");
    assert_eq!(contents.json, found.to_json());
    assert_eq!(OEISSequence::from_json(&contents.json), Some(fibonacci));
}

#[test]
fn resource_read_of_missing_id_is_not_found() {
    let oeis = OEIS::new(MockOEISClient::new());
    let error = oeis.read_resource("scheme://sequence/A123456").unwrap_err();
    assert_eq!(error.code, ErrorCode::InvalidParams);
    assert_eq!(error.message, "No sequence found (by id: A123456)");
}

#[test]
fn invalid_resource_uri_is_refused_before_the_backend() {
    // Every lookup this URI could turn into fails at the backend, so an
    // invalid-parameters answer shows that none was made.
    let client = MockOEISClient::new()
        .with_error("invalid://uri")
        .with_error("uri")
        .with_error("");
    let oeis = OEIS::new(client);
    let error = oeis.read_resource("invalid://uri").unwrap_err();
    assert_eq!(error.code, ErrorCode::InvalidParams);
    assert!(error.message.contains("invalid://uri"));
    assert_eq!(
        error.message,
        "Invalid resource URI: invalid://uri. Expected format: scheme://sequence/{id}"
    );
}

#[test]
fn prompt_digest_leaves_out_empty_sections() {
    let record = OEISSequence {
        number: 45,
        data: "0,1,1,2,3,5,8".to_string(),
        name: "Fibonacci numbers".to_string(),
        comment: vec!["c1".to_string()],
        formula: vec![],
        xref: vec![],
        keyword: "nonn".to_string(),
    };
    let oeis = OEIS::new(MockOEISClient::new().with_sequence("A000045", record));
    let messages = oeis
        .sequence_analysis(&SequenceAnalysisRequest { sequence_id: "A000045".to_string() })
        .unwrap();
    let text = &messages[1].text;
    assert!(text.contains("# OEIS Sequence A000045"));
    assert!(text.contains("**Comments:**"));
    assert!(text.contains("c1"));
    assert!(!text.contains("**Formulas:**"));
    assert!(!text.contains("**Cross-references:**"));
    assert_eq!(
        text,
        "# OEIS Sequence A000045\n\n**Name:** Fibonacci numbers\n\n**Data (first few terms):** 0,1,1,2,3,5,8\n\n**Keywords:** nonn\n\n**Comments:**\nc1\n\n"
    );
}

#[test]
fn user_prompt_text_is_exact() {
    let oeis = OEIS::new(
        MockOEISClient::new().with_sequence("A000045", create_test_sequence(45, "Fibonacci numbers")),
    );
    let messages = oeis
        .sequence_analysis(&SequenceAnalysisRequest { sequence_id: "A000045".to_string() })
        .unwrap();
    assert_eq!(
        messages[0].text,
        "Please provide a comprehensive analysis of OEIS sequence A000045. Include:\n1. The definition and meaning of this sequence\n2. Mathematical properties and patterns\n3. Real-world applications or significance\n4. Relationships to other sequences\n5. Interesting facts or observations"
    );
}

#[test]
fn call_tool_dispatches_by_name() {
    let fibonacci = create_test_sequence(45, "Fibonacci numbers");
    let oeis = OEIS::new(
        MockOEISClient::new()
            .with_sequence("A000045", fibonacci.clone())
            .with_search_results(&[-1, 0, 1], vec![fibonacci.clone()]),
    );
    let url = oeis.call_tool("get_url", &JsonValue::Null).unwrap();
    assert_eq!(url, ToolOutput::Text("https://oeis.org".to_string()));

    let args = object(vec![("id", JsonValue::Str("A000045".to_string()))]);
    let found = oeis.call_tool("find_by_id", &args).unwrap();
    assert_eq!(
        found,
        ToolOutput::Structured(FindResponse { result: fibonacci.clone() }.to_json())
    );

    let args = object(vec![(
        "subsequence",
        JsonValue::Array(vec![JsonValue::Int(-1), JsonValue::Int(0), JsonValue::Int(1)]),
    )]);
    let searched = oeis.call_tool("search_by_subsequence", &args).unwrap();
    assert_eq!(
        searched,
        ToolOutput::Structured(SearchResponse { results: vec![fibonacci] }.to_json())
    );
}

#[test]
fn call_tool_refuses_unknown_name_and_bad_arguments() {
    let oeis = OEIS::new(MockOEISClient::new());
    let error = oeis.call_tool("delete_everything", &JsonValue::Null).unwrap_err();
    assert_eq!(error.code, ErrorCode::InvalidParams);
    assert_eq!(error.message, "Unknown tool: delete_everything");

    let args = object(vec![("id", JsonValue::Int(45))]);
    let error = oeis.call_tool("find_by_id", &args).unwrap_err();
    assert_eq!(error.code, ErrorCode::InvalidParams);
    assert_eq!(error.message, "Invalid arguments for find_by_id");

    let args = object(vec![(
        "subsequence",
        JsonValue::Array(vec![JsonValue::Int(1), JsonValue::Str("2".to_string())]),
    )]);
    let error = oeis.call_tool("search_by_subsequence", &args).unwrap_err();
    assert_eq!(error.message, "Invalid arguments for search_by_subsequence");

    let error = oeis.call_tool("get_url", &JsonValue::Int(3)).unwrap_err();
    assert_eq!(error.message, "Invalid arguments for get_url");
}

#[test]
fn get_prompt_dispatches_by_name() {
    let oeis = OEIS::new(
        MockOEISClient::new().with_sequence("A000045", create_test_sequence(45, "Fibonacci numbers")),
    );
    let args = object(vec![("sequence_id", JsonValue::Str("A000045".to_string()))]);
    let messages = oeis.get_prompt("sequence_analysis", &args).unwrap();
    assert_eq!(messages.len(), 2);
    assert_eq!(messages[1].role, Role::Assistant);

    let error = oeis.get_prompt("summary", &args).unwrap_err();
    assert_eq!(error.message, "Unknown prompt: summary");

    let error = oeis.get_prompt("sequence_analysis", &JsonValue::Null).unwrap_err();
    assert_eq!(error.message, "Invalid arguments for sequence_analysis");
}

#[test]
fn catalog_names_and_templates() {
    let names: Vec<String> = tool_catalog().into_iter().map(|e| e.name).collect();
    assert_eq!(names, vec!["get_url", "find_by_id", "search_by_subsequence"]);
    assert_eq!(prompt_catalog()[0].name, "sequence_analysis");

    let oeis = OEIS::new(MockOEISClient::new());
    let templates = oeis.list_resource_templates();
    assert_eq!(templates.len(), 1);
    assert_eq!(templates[0].uri_template, "scheme://sequence/{id}");
    assert_eq!(templates[0].mime_type, "application/json");
    let info = oeis.get_info();
    assert!(info.tools && info.prompts && info.resources);
}

#[test]
fn later_canned_answer_replaces_earlier() {
    let client = MockOEISClient::new()
        .with_error("A000045")
        .with_sequence("A000045", create_test_sequence(45, "Fibonacci numbers"));
    assert_eq!(client.find_by_id("A000045").unwrap().unwrap().number, 45);
}

#[test]
fn invalid_uri_error_carries_the_uri() {
    let oeis = OEIS::new(MockOEISClient::new());
    let error = oeis.read_resource("invalid://uri").unwrap_err();
    assert_eq!(
        error.data,
        Some(object(vec![("uri", JsonValue::Str("invalid://uri".to_string()))]))
    );
    let error = oeis.find_sequence("A1").unwrap_err();
    assert_eq!(error.data, None);
}

#[test]
fn catalog_holds_argument_schemas() {
    let tools = tool_catalog();
    assert_eq!(
        tools[1].input_schema,
        object(vec![
            ("type", JsonValue::Str("object".to_string())),
            (
                "properties",
                object(vec![("id", object(vec![("type", JsonValue::Str("string".to_string()))]))])
            ),
            ("required", JsonValue::Array(vec![JsonValue::Str("id".to_string())])),
        ])
    );
    assert_eq!(
        tools[0].input_schema,
        object(vec![
            ("type", JsonValue::Str("object".to_string())),
            ("properties", object(vec![])),
            ("required", JsonValue::Array(vec![])),
        ])
    );
    assert_eq!(
        tools[2].input_schema,
        object(vec![
            ("type", JsonValue::Str("object".to_string())),
            (
                "properties",
                object(vec![(
                    "subsequence",
                    object(vec![
                        ("type", JsonValue::Str("array".to_string())),
                        ("items", object(vec![("type", JsonValue::Str("integer".to_string()))])),
                    ])
                )])
            ),
            ("required", JsonValue::Array(vec![JsonValue::Str("subsequence".to_string())])),
        ])
    );
    match &prompt_catalog()[0].input_schema {
        JsonValue::Object(entries) => {
            assert_eq!(entries[2].1, JsonValue::Array(vec![JsonValue::Str("sequence_id".to_string())]))
        }
        _ => panic!("a schema is an object"),
    }
}

#[test]
fn server_instructions_name_every_operation() {
    let info = OEIS::new(MockOEISClient::new()).get_info();
    for word in ["get_url", "find_by_id", "search_by_subsequence", "sequence_analysis", "scheme://sequence/{id}"] {
        assert!(info.instructions.contains(word));
    }
}

#[test]
fn server_speaks_protocol_2025_06_18() {
    let info = OEIS::new(MockOEISClient::new()).get_info();
    assert_eq!(info.protocol_version, "2025-06-18");
}

#[test]
fn only_the_fixed_prefix_names_a_resource() {
    let fibonacci = create_test_sequence(45, "Fibonacci numbers");
    let oeis = OEIS::new(MockOEISClient::new().with_sequence("A000045", fibonacci.clone()));
    let contents = oeis.read_resource("scheme://sequence/A000045").unwrap();
    assert_eq!(contents.uri, "scheme://sequence/A000045");
    assert_eq!(OEISSequence::from_json(&contents.json), Some(fibonacci));
    let error = oeis.read_resource("oeis://sequence/A000045").unwrap_err();
    assert_eq!(error.code, ErrorCode::InvalidParams);
    assert_eq!(
        error.message,
        "Invalid resource URI: oeis://sequence/A000045. Expected format: scheme://sequence/{id}"
    );
}
