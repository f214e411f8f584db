use oeis_mcp::client::{
    decode_find_body, decode_search_body, request_params, BackendError, MockOEISClient,
    OEISClient, SEARCH_URL,
};
use oeis_mcp::json::JsonValue;
use oeis_mcp::sequence::OEISSequence;
use oeis_mcp::text::{id_query_text, subsequence_query_text};

fn strs(items: &[&str]) -> JsonValue {
    JsonValue::Array(items.iter().map(|s| JsonValue::Str(s.to_string())).collect())
}

fn record(
    number: i64,
    data: &str,
    name: &str,
    comment: &[&str],
    formula: &[&str],
    xref: &[&str],
    keyword: &str,
) -> JsonValue {
    JsonValue::Object(vec![
        ("number".to_string(), JsonValue::Int(number)),
        ("data".to_string(), JsonValue::Str(data.to_string())),
        ("name".to_string(), JsonValue::Str(name.to_string())),
        ("comment".to_string(), strs(comment)),
        ("formula".to_string(), strs(formula)),
        ("xref".to_string(), strs(xref)),
        ("keyword".to_string(), JsonValue::Str(keyword.to_string())),
    ])
}

#[test]
fn test_find_by_id() {
    assert_eq!(id_query_text("A000045"), "id:A000045");
    let body = JsonValue::Array(vec![record(
        45,
        "0, 1, 1, 2, 3, 5, 8, 13, 21, 34",
        "Fibonacci numbers",
        &["The Fibonacci sequence is defined by the recurrence relation F(n) = F(n-1) + F(n-2) with seed values F(0)=0 and F(1)=1."],
        &["F(n) = (phi^n - (1-phi)^n)/sqrt(5), where phi = (1 + sqrt(5))/2."],
        &["A000045", "A001519"],
        "nonn",
    )]);

    let result = decode_find_body(&body).unwrap();

    assert!(result.is_some());
    let found_sequence = result.unwrap();
    assert_eq!(found_sequence.number, 45);
    assert_eq!(found_sequence.name, "Fibonacci numbers");
}

#[test]
fn test_find_by_id_not_found() {
    assert_eq!(id_query_text("NON_EXISTENT"), "id:NON_EXISTENT");
    let result = decode_find_body(&JsonValue::Null).unwrap();

    assert!(result.is_none());
}

#[test]
fn test_find_by_id_error() {
    // A body that is not a list of records is a backend failure.
    let result = decode_find_body(&JsonValue::Str("Internal Server Error".to_string()));

    assert!(result.is_err());
}

#[test]
fn test_search_by_subsequence_single_result() {
    assert_eq!(subsequence_query_text(&[1, 1, 2, 3, 5]), "seq:1,1,2,3,5");
    let body = JsonValue::Array(vec![record(
        45,
        "0, 1, 1, 2, 3, 5, 8, 13, 21, 34",
        "Fibonacci numbers",
        &["The Fibonacci sequence"],
        &["F(n) = F(n-1) + F(n-2)"],
        &["A000045"],
        "nonn",
    )]);

    let result = decode_search_body(&body).unwrap();

    assert_eq!(result.len(), 1);
    assert_eq!(result[0].number, 45);
    assert_eq!(result[0].name, "Fibonacci numbers");
}

#[test]
fn test_search_by_subsequence_multiple_results() {
    assert_eq!(subsequence_query_text(&[1, 2, 3]), "seq:1,2,3");
    let body = JsonValue::Array(vec![
        record(
            27,
            "1, 2, 3, 4, 5",
            "Natural numbers",
            &["The natural numbers"],
            &["a(n) = n"],
            &[],
            "nonn",
        ),
        record(
            290,
            "1, 2, 3, 5, 7",
            "Primes and composites",
            &["Mixed sequence"],
            &[],
            &[],
            "nonn",
        ),
    ]);

    let result = decode_search_body(&body).unwrap();

    assert_eq!(result.len(), 2);
    assert_eq!(result[0].number, 27);
    assert_eq!(result[0].name, "Natural numbers");
    assert_eq!(result[1].number, 290);
    assert_eq!(result[1].name, "Primes and composites");
}

#[test]
fn test_search_by_subsequence_not_found() {
    assert_eq!(subsequence_query_text(&[999, 888, 777]), "seq:999,888,777");
    let result = decode_search_body(&JsonValue::Null).unwrap();

    assert_eq!(result.len(), 0);
}

#[test]
fn test_search_by_subsequence_empty_result() {
    assert_eq!(subsequence_query_text(&[123, 456, 789]), "seq:123,456,789");
    let result = decode_search_body(&JsonValue::Array(vec![])).unwrap();

    assert_eq!(result.len(), 0);
}

#[test]
fn test_search_by_subsequence_error() {
    let result = decode_search_body(&JsonValue::Bool(false));

    assert!(result.is_err());
}

#[test]
fn test_search_by_subsequence_negative_numbers() {
    assert_eq!(subsequence_query_text(&[-1, 0, 1]), "seq:-1,0,1");
    let body = JsonValue::Array(vec![record(
        12345,
        "-1, 0, 1, 0, -1",
        "Sequence with negative numbers",
        &[],
        &[],
        &[],
        "sign",
    )]);

    let result = decode_search_body(&body).unwrap();

    assert_eq!(result.len(), 1);
    assert_eq!(result[0].number, 12345);
    assert_eq!(result[0].name, "Sequence with negative numbers");
}

#[test]
fn test_search_by_subsequence_empty_input() {
    assert_eq!(subsequence_query_text(&[]), "seq:");
    let result = decode_search_body(&JsonValue::Null).unwrap();

    assert_eq!(result.len(), 0);
}

#[test]
fn query_keys_for_signed_and_empty_terms() {
    assert_eq!(subsequence_query_text(&[-1, 0, 1]), "seq:-1,0,1");
    assert_eq!(subsequence_query_text(&[]), "seq:");
    assert_eq!(
        subsequence_query_text(&[i64::MIN, i64::MAX]),
        "seq:-9223372036854775808,9223372036854775807"
    );
    assert_eq!(subsequence_query_text(&[7]), "seq:7");
}

#[test]
fn request_parameters() {
    let params = request_params("id:A000045");
    assert_eq!(
        params,
        vec![
            ("fmt".to_string(), "json".to_string()),
            ("q".to_string(), "id:A000045".to_string())
        ]
    );
    assert_eq!(SEARCH_URL, "https://oeis.org/search");
}

#[test]
fn lookup_takes_first_of_several_records() {
    let body = JsonValue::Array(vec![
        record(27, "1, 2, 3", "Natural numbers", &[], &[], &[], "nonn"),
        record(290, "1, 2, 3", "Other", &[], &[], &[], "nonn"),
    ]);
    assert_eq!(decode_find_body(&body).unwrap().unwrap().number, 27);
    assert_eq!(decode_find_body(&JsonValue::Array(vec![])).unwrap(), None);
}

#[test]
fn null_and_absent_lists_become_empty() {
    let body = JsonValue::Array(vec![JsonValue::Object(vec![
        ("number".to_string(), JsonValue::Int(1)),
        ("id".to_string(), JsonValue::Str("M0000".to_string())),
        ("data".to_string(), JsonValue::Str("1, 2".to_string())),
        ("name".to_string(), JsonValue::Str("Short".to_string())),
        ("comment".to_string(), JsonValue::Null),
        ("keyword".to_string(), JsonValue::Str("easy".to_string())),
    ])]);
    let found = decode_find_body(&body).unwrap().unwrap();
    assert_eq!(
        found,
        OEISSequence {
            number: 1,
            data: "1, 2".to_string(),
            name: "Short".to_string(),
            comment: vec![],
            formula: vec![],
            xref: vec![],
            keyword: "easy".to_string(),
        }
    );
}

#[test]
fn malformed_records_fail_the_whole_answer() {
    let good = record(27, "1, 2, 3", "Natural numbers", &[], &[], &[], "nonn");
    let no_name = JsonValue::Object(vec![
        ("number".to_string(), JsonValue::Int(1)),
        ("data".to_string(), JsonValue::Str("1".to_string())),
        ("keyword".to_string(), JsonValue::Str("easy".to_string())),
    ]);
    let body = JsonValue::Array(vec![good, no_name]);
    assert!(decode_search_body(&body).is_err());

    let fractional = JsonValue::Array(vec![JsonValue::Object(vec![
        ("number".to_string(), JsonValue::OtherNumber),
        ("data".to_string(), JsonValue::Str("1".to_string())),
        ("name".to_string(), JsonValue::Str("x".to_string())),
        ("keyword".to_string(), JsonValue::Str("easy".to_string())),
    ])]);
    assert!(decode_find_body(&fractional).is_err());

    let bad_list = JsonValue::Array(vec![JsonValue::Object(vec![
        ("number".to_string(), JsonValue::Int(1)),
        ("data".to_string(), JsonValue::Str("1".to_string())),
        ("name".to_string(), JsonValue::Str("x".to_string())),
        ("xref".to_string(), JsonValue::Array(vec![JsonValue::Int(3)])),
        ("keyword".to_string(), JsonValue::Str("easy".to_string())),
    ])]);
    assert!(decode_find_body(&bad_list).is_err());
}

#[test]
fn mock_search_answers() {
    let client = MockOEISClient::new().with_search_error(&[1, 2, 3]);
    let error: BackendError = client.search_by_subsequence(&[1, 2, 3]).unwrap_err();
    assert!(!error.message.is_empty());
    assert_eq!(client.search_by_subsequence(&[4, 5]).unwrap(), vec![]);
    assert_eq!(client.find_by_id("A000001").unwrap(), None);
}
