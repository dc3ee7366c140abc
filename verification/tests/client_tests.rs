// Tests for the call handle: argument validation, timeouts, and the typed
// decode path over call result content.
use kodegen_mcp_client::responses::StartCrawlResponse;
use kodegen_mcp_client::{
    extract_text, json_type_name, parse_json, prepare_arguments, ClientError, JsonValue,
    KodegenClient, ToolContent,
};

#[test]
fn test_object_arguments_pass_through() {
    let args = parse_json(r#"{"key": "value", "n": 3}"#).unwrap();
    let r = prepare_arguments(args).expect("an object is a valid argument shape");
    let fields = r.expect("an object maps to a present payload");
    assert_eq!(fields.len(), 2);
    assert_eq!(fields[0].0, "key");
}

#[test]
fn test_null_arguments_mean_absent() {
    let args = parse_json("null").unwrap();
    let r = prepare_arguments(args).expect("null is a valid argument shape");
    assert!(r.is_none());
}

#[test]
fn test_non_object_arguments_rejected_without_round_trip() {
    for (text, kind) in [
        (r#""a string""#, "string"),
        ("[1, 2]", "array"),
        ("7", "number"),
        ("true", "boolean"),
    ] {
        let args = parse_json(text).unwrap();
        match prepare_arguments(args) {
            Err(ClientError::Protocol(m)) => {
                assert_eq!(
                    m,
                    format!("Tool arguments must be a JSON object or null, got {}", kind)
                );
            }
            other => panic!("Expected Protocol error for {}, got: {:?}", text, other),
        }
    }
}

#[test]
fn test_json_type_name() {
    assert_eq!(json_type_name(&parse_json("null").unwrap()), "null");
    assert_eq!(json_type_name(&parse_json("false").unwrap()), "boolean");
    assert_eq!(json_type_name(&parse_json("1").unwrap()), "number");
    assert_eq!(json_type_name(&parse_json("\"s\"").unwrap()), "string");
    assert_eq!(json_type_name(&parse_json("[]").unwrap()), "array");
    assert_eq!(json_type_name(&parse_json("{}").unwrap()), "object");
}

#[test]
fn test_handle_timeouts_are_independent() {
    let h1 = KodegenClient::new();
    assert_eq!(h1.timeout_ms(), 30_000);
    let h2 = h1.with_timeout(60_000);
    assert_eq!(h2.timeout_ms(), 60_000);
    // h1 was consumed; a copy taken before reconfiguring keeps its own value.
    let h3 = KodegenClient::new();
    let h4 = h3;
    let h5 = h4.with_timeout(5_000);
    assert_eq!(h3.timeout_ms(), 30_000);
    assert_eq!(h5.timeout_ms(), 5_000);
}

#[test]
fn test_timeout_error_carries_handle_timeout() {
    let h = KodegenClient::new().with_timeout(100);
    match h.timeout_error("Tool 'slow'") {
        ClientError::Timeout { operation, duration_ms } => {
            assert_eq!(operation, "Tool 'slow'");
            assert_eq!(duration_ms, 100);
        }
        other => panic!("Expected Timeout, got: {:?}", other),
    }
}

#[test]
fn test_extract_text_finds_first_text() {
    let content = vec![
        ToolContent::Image,
        ToolContent::Text("first".to_string()),
        ToolContent::Text("second".to_string()),
    ];
    let t = extract_text("my_tool", &content).expect("a text item is present");
    assert_eq!(t, "first");
}

#[test]
fn test_extract_text_empty_content() {
    let content: Vec<ToolContent> = vec![];
    match extract_text("my_tool", &content) {
        Err(ClientError::Protocol(m)) => {
            assert_eq!(m, "Tool 'my_tool' returned empty content array");
        }
        other => panic!("Expected Protocol error, got: {:?}", other),
    }
}

#[test]
fn test_extract_text_names_non_text_kinds() {
    let content = vec![ToolContent::Image, ToolContent::Audio, ToolContent::ResourceLink];
    match extract_text("my_tool", &content) {
        Err(ClientError::Protocol(m)) => {
            assert_eq!(
                m,
                "Tool 'my_tool' returned 3 content item(s) but none were text: [image, audio, resource_link]"
            );
        }
        other => panic!("Expected Protocol error, got: {:?}", other),
    }
}

#[test]
fn test_extract_text_single_non_text_kind() {
    let content = vec![ToolContent::Image];
    match extract_text("my_tool", &content) {
        Err(ClientError::Protocol(m)) => {
            assert_eq!(
                m,
                "Tool 'my_tool' returned 1 content item(s) but none were text: [image]"
            );
        }
        other => panic!("Expected Protocol error, got: {:?}", other),
    }
}

#[test]
fn test_decode_tool_result_typed() {
    let content = vec![ToolContent::Text(r#"{"crawl_id": "c-9"}"#.to_string())];
    let r: StartCrawlResponse =
        kodegen_mcp_client::decode_tool_result("scrape_url", &content).expect("should decode");
    assert_eq!(r.crawl_id, "c-9");
}

#[test]
fn test_decode_tool_result_parse_error_names_tool() {
    let content = vec![ToolContent::Text("{broken".to_string())];
    let r: Result<StartCrawlResponse, ClientError> =
        kodegen_mcp_client::decode_tool_result("scrape_url", &content);
    match r {
        Err(ClientError::ParseError { tool_name, .. }) => {
            assert_eq!(tool_name, "scrape_url");
        }
        other => panic!("Expected ParseError, got: {:?}", other),
    }
}

#[test]
fn test_decode_tool_result_invalid_shape_names_tool() {
    let content = vec![ToolContent::Text(r#"{"crawl_id": ""}"#.to_string())];
    let r: Result<StartCrawlResponse, ClientError> =
        kodegen_mcp_client::decode_tool_result("scrape_url", &content);
    match r {
        Err(ClientError::ParseError { tool_name, cause }) => {
            assert_eq!(tool_name, "scrape_url");
            assert_eq!(cause, "string cannot be empty");
        }
        other => panic!("Expected ParseError, got: {:?}", other),
    }
}

#[test]
fn test_parse_json_number_shapes() {
    // Unsigned, signed and fractional numbers each map to their own shape.
    match parse_json("18446744073709551615").unwrap() {
        JsonValue::Num(n) => assert_eq!(format!("{:?}", n), "U(18446744073709551615)"),
        other => panic!("Expected number, got {:?}", other),
    }
    match parse_json("-5").unwrap() {
        JsonValue::Num(n) => assert_eq!(format!("{:?}", n), "I(-5)"),
        other => panic!("Expected number, got {:?}", other),
    }
    match parse_json("1.25").unwrap() {
        JsonValue::Num(n) => assert_eq!(format!("{:?}", n), "Other"),
        other => panic!("Expected number, got {:?}", other),
    }
}
