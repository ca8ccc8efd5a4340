use bytes::Bytes;
use opendal_boundary::d1::model::{
    column_bytes, D1Response, D1Result, DecodeErrorKind, Meta,
};
use serde_json::{Number, Value};

const GET_OBJECT: &str = r#"
        {
            "result": [
                {
                    "results": [
                        {
                            "CustomerId": "4",
                            "CompanyName": "Around the Horn",
                            "ContactName": "Thomas Hardy"
                        }
                    ],
                    "success": true,
                    "meta": {
                        "served_by": "v3-prod",
                        "duration": 0.2147,
                        "changes": 0,
                        "last_row_id": 0,
                        "changed_db": false,
                        "size_after": 2162688,
                        "rows_read": 3,
                        "rows_written": 2
                    }
                }
            ],
            "success": true,
            "errors": [],
            "messages": []
        }"#;

fn meta() -> Meta {
    Meta {
        served_by: String::from("v3-prod"),
        duration_bits: 0.5f64.to_bits(),
        changes: 0,
        last_row_id: 0,
        changed_db: false,
        size_after: 0,
        rows_read: 0,
        rows_written: 0,
    }
}

fn response_of_rows(rows: Vec<serde_json::Map<String, Value>>) -> D1Response {
    D1Response {
        result: vec![D1Result { meta: meta(), results: rows, success: true }],
        success: true,
        errors: Vec::new(),
        messages: Vec::new(),
    }
}

fn row(key: &str, value: Value) -> serde_json::Map<String, Value> {
    let mut row = serde_json::Map::new();
    row.insert(String::from(key), value);
    row
}

fn numbers(items: &[u64]) -> Value {
    Value::Array(items.iter().map(|n| Value::Number(Number::from(*n))).collect())
}

fn parse(body: &str) -> Result<D1Response, opendal_boundary::d1::model::DecodeError> {
    D1Response::parse(&Bytes::copy_from_slice(body.as_bytes()))
}

#[test]
fn test_deserialize_get_object_json_response() {
    let response: D1Response = parse(GET_OBJECT).unwrap();
    println!("{:?}", response.result[0].results[0]);
}

#[test]
fn parse_keeps_the_row_as_it_was_sent() {
    let response = parse(GET_OBJECT).unwrap();
    assert!(response.success);
    assert_eq!(response.result.len(), 1);
    assert_eq!(response.result[0].results.len(), 1);
    let mut expected = serde_json::Map::new();
    expected.insert(String::from("CustomerId"), Value::String(String::from("4")));
    expected.insert(String::from("CompanyName"), Value::String(String::from("Around the Horn")));
    expected.insert(String::from("ContactName"), Value::String(String::from("Thomas Hardy")));
    assert_eq!(response.result[0].results[0], expected);
}

#[test]
fn parse_reads_every_member_of_meta() {
    let response = parse(GET_OBJECT).unwrap();
    let statement = &response.result[0];
    assert!(statement.success);
    assert_eq!(statement.meta.served_by, "v3-prod");
    assert_eq!(f64::from_bits(statement.meta.duration_bits), 0.2147);
    assert_eq!(statement.meta.changes, 0);
    assert_eq!(statement.meta.last_row_id, 0);
    assert!(!statement.meta.changed_db);
    assert_eq!(statement.meta.size_after, 2162688);
    assert_eq!(statement.meta.rows_read, 3);
    assert_eq!(statement.meta.rows_written, 2);
    assert!(response.errors.is_empty());
    assert!(response.messages.is_empty());
}

#[test]
fn parse_takes_a_whole_number_for_the_duration() {
    let body = GET_OBJECT.replace("0.2147", "3");
    let response = parse(&body).unwrap();
    assert_eq!(f64::from_bits(response.result[0].meta.duration_bits), 3.0);
}

#[test]
fn parse_reads_errors_and_messages() {
    let body = r#"{"result": [], "success": true,
        "errors": [{"message": "first", "code": 7}, {"message": "second", "code": -2147483648}],
        "messages": [{"message": "note", "code": 2147483647, "extra": null}]}"#;
    let response = parse(body).unwrap();
    assert_eq!(response.errors.len(), 2);
    assert_eq!(response.errors[0].message, "first");
    assert_eq!(response.errors[0].code, 7);
    assert_eq!(response.errors[1].message, "second");
    assert_eq!(response.errors[1].code, i32::MIN);
    assert_eq!(response.messages.len(), 1);
    assert_eq!(response.messages[0].message, "note");
    assert_eq!(response.messages[0].code, i32::MAX);
    let copy = response.errors[0].clone();
    assert_eq!(copy.message, "first");
    assert_eq!(copy.code, 7);
}

#[test]
fn parse_reports_a_failed_query_with_the_body() {
    let body = r#"{"result": [], "success": false, "errors": [{"message": "no such table", "code": 7500}], "messages": []}"#;
    let error = parse(body).unwrap_err();
    assert_eq!(error.kind, DecodeErrorKind::BackendFailure);
    assert_eq!(error.message, body);
}

#[test]
fn parse_rejects_a_body_that_is_not_utf8() {
    let mut body = Vec::from(&br#"{"result": [], "success": false, "errors": [], "messages": [], "x": ""#[..]);
    body.push(0xff);
    body.extend_from_slice(br#""}"#);
    let error = D1Response::parse(&Bytes::from(body.clone())).unwrap_err();
    assert_eq!(error.kind, DecodeErrorKind::Malformed);
    assert!(error.message.starts_with("failed to parse error response: "));
}

#[test]
fn parse_rejects_a_truncated_body() {
    let error = parse(r#"{"result": ["#).unwrap_err();
    assert_eq!(error.kind, DecodeErrorKind::Malformed);
    assert_eq!(
        error.message,
        "failed to parse error response: EOF while parsing a list at line 1 column 12"
    );
}

#[test]
fn parse_rejects_what_follows_the_document() {
    let body = format!("{} []", GET_OBJECT);
    let error = parse(&body).unwrap_err();
    assert_eq!(error.kind, DecodeErrorKind::Malformed);
    assert!(error.message.starts_with("failed to parse error response: trailing characters"));
}

#[test]
fn parse_rejects_a_document_that_is_no_response() {
    for body in [
        "{}",
        "[]",
        "null",
        r#"{"result": [], "success": true, "errors": []}"#,
        r#"{"result": {}, "success": true, "errors": [], "messages": []}"#,
        r#"{"result": [], "success": "true", "errors": [], "messages": []}"#,
        r#"{"result": [], "success": true, "errors": [{"message": "m"}], "messages": []}"#,
        r#"{"result": [], "success": true, "errors": [], "messages": [{"message": 1, "code": 1}]}"#,
        r#"{"result": [], "success": true, "errors": [{"message": "m", "code": 2147483648}], "messages": []}"#,
        r#"{"result": [], "success": true, "errors": [{"message": "m", "code": 1.0}], "messages": []}"#,
        r#"{"result": [{"results": [], "success": true}], "success": true, "errors": [], "messages": []}"#,
    ] {
        let error = parse(body).unwrap_err();
        assert_eq!(error.kind, DecodeErrorKind::Malformed);
        assert_eq!(error.message, "failed to parse error response: the document is not a response");
    }
}

#[test]
fn parse_rejects_a_row_that_is_no_object() {
    let body = GET_OBJECT.replace(
        r#""results": ["#,
        r#""results": [ null, "#,
    );
    let error = parse(&body).unwrap_err();
    assert_eq!(error.kind, DecodeErrorKind::Malformed);
}

#[test]
fn parse_rejects_meta_with_a_member_missing() {
    let body = GET_OBJECT.replace(r#""rows_read": 3,"#, "");
    let error = parse(&body).unwrap_err();
    assert_eq!(error.kind, DecodeErrorKind::Malformed);
}

#[test]
fn decode_reads_a_response_that_reports_failure() {
    let document: Value =
        serde_json::from_str(r#"{"result": [], "success": false, "errors": [], "messages": []}"#)
            .unwrap();
    let response = D1Response::decode(&document).unwrap();
    assert!(!response.success);
    assert!(response.result.is_empty());
}

#[test]
fn from_document_judges_by_success() {
    let good: Value =
        serde_json::from_str(r#"{"result": [], "success": true, "errors": [], "messages": []}"#)
            .unwrap();
    assert!(D1Response::from_document(&good, b"ignored").unwrap().success);
    let bad: Value =
        serde_json::from_str(r#"{"result": [], "success": false, "errors": [], "messages": []}"#)
            .unwrap();
    let error = D1Response::from_document(&bad, b"the body").unwrap_err();
    assert_eq!(error.kind, DecodeErrorKind::BackendFailure);
    assert_eq!(error.message, "the body");
    let error = D1Response::from_document(&bad, &[b'a', 0xff, b'b']).unwrap_err();
    assert_eq!(error.message, "a\u{fffd}b");
    let error = D1Response::from_document(&Value::Null, b"null").unwrap_err();
    assert_eq!(error.kind, DecodeErrorKind::Malformed);
    assert_eq!(error.message, "failed to parse error response: the document is not a response");
}

#[test]
fn get_result_reads_an_array_of_bytes() {
    let response = response_of_rows(vec![row("Data", numbers(&[1, 2, 255]))]);
    assert_eq!(response.get_result("Data"), Some(vec![1u8, 2, 255]));
}

#[test]
fn get_result_of_a_string_is_none() {
    let response = response_of_rows(vec![row("Data", Value::String(String::from("x")))]);
    assert_eq!(response.get_result("Data"), None);
}

#[test]
fn get_result_without_statement_results_is_none() {
    let response =
        D1Response { result: Vec::new(), success: true, errors: Vec::new(), messages: Vec::new() };
    assert_eq!(response.get_result("Data"), None);
}

#[test]
fn get_result_without_rows_is_none() {
    let response = response_of_rows(Vec::new());
    assert_eq!(response.get_result("Data"), None);
}

#[test]
fn get_result_of_a_missing_column_is_none() {
    let response = response_of_rows(vec![row("Data", numbers(&[1]))]);
    assert_eq!(response.get_result("data"), None);
    assert_eq!(response.get_result(""), None);
}

#[test]
fn get_result_reads_the_first_row_of_the_first_statement_only() {
    let mut response =
        response_of_rows(vec![row("Data", numbers(&[7])), row("Data", numbers(&[8]))]);
    response.result.push(D1Result {
        meta: meta(),
        results: vec![row("Other", numbers(&[9]))],
        success: true,
    });
    assert_eq!(response.get_result("Data"), Some(vec![7u8]));
    assert_eq!(response.get_result("Other"), None);
}

#[test]
fn get_result_of_an_empty_array_is_empty() {
    let response = response_of_rows(vec![row("Data", Value::Array(Vec::new()))]);
    assert_eq!(response.get_result("Data"), Some(Vec::new()));
}

#[test]
fn get_result_after_parse() {
    let body = r#"{"result": [{"results": [{"Data": [1, 2, 255]}], "success": true,
        "meta": {"served_by": "x", "duration": 1, "changes": 0, "last_row_id": 0,
                 "changed_db": true, "size_after": 0, "rows_read": 0, "rows_written": 0}}],
        "success": true, "errors": [], "messages": []}"#;
    let response = parse(body).unwrap();
    assert!(response.result[0].meta.changed_db);
    assert_eq!(response.get_result("Data"), Some(vec![1u8, 2, 255]));
}

#[test]
fn column_bytes_takes_all_or_nothing() {
    assert_eq!(column_bytes(&numbers(&[0, 255])), Some(vec![0u8, 255]));
    assert_eq!(column_bytes(&numbers(&[0, 256])), None);
    assert_eq!(column_bytes(&numbers(&[u64::MAX])), None);
    let signed = Value::Array(vec![Value::Number(Number::from(-1i64))]);
    assert_eq!(column_bytes(&signed), None);
    let fraction = Value::Array(vec![Value::Number(Number::from_f64(1.5).unwrap())]);
    assert_eq!(column_bytes(&fraction), None);
    let whole_double = Value::Array(vec![Value::Number(Number::from_f64(1.0).unwrap())]);
    assert_eq!(column_bytes(&whole_double), None);
    let mixed = Value::Array(vec![Value::Number(Number::from(1u64)), Value::Bool(true)]);
    assert_eq!(column_bytes(&mixed), None);
    let nested = Value::Array(vec![numbers(&[1])]);
    assert_eq!(column_bytes(&nested), None);
}

#[test]
fn column_bytes_of_what_is_no_array_is_none() {
    assert_eq!(column_bytes(&Value::Null), None);
    assert_eq!(column_bytes(&Value::Bool(false)), None);
    assert_eq!(column_bytes(&Value::Number(Number::from(1u64))), None);
    assert_eq!(column_bytes(&Value::String(String::from("[1]"))), None);
    assert_eq!(column_bytes(&Value::Object(row("0", numbers(&[1])))), None);
}
