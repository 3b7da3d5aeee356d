use mcp_math::json::JsonValue;
use mcp_math::protocol::{handle_call_tool, handle_line, handle_request, RpcRequest};
use mcp_math::tools::list_tools;

fn request(method: &str, params: Option<JsonValue>, id: Option<JsonValue>) -> RpcRequest {
    RpcRequest { jsonrpc: "2.0".to_string(), method: method.to_string(), params, id }
}

fn one_field(key: &str, value: JsonValue) -> JsonValue {
    JsonValue::Obj(vec![(key.to_string(), value)])
}

fn call_params(name: &str, arguments: JsonValue) -> JsonValue {
    JsonValue::Obj(vec![
        ("name".to_string(), JsonValue::Text(name.to_string())),
        ("arguments".to_string(), arguments),
    ])
}

fn content_text(result: &JsonValue) -> &str {
    match result {
        JsonValue::Obj(fields) => match &fields[0].1 {
            JsonValue::Arr(items) => match &items[0] {
                JsonValue::Obj(block) => match &block[1].1 {
                    JsonValue::Text(t) => t,
                    other => panic!("expected text, got {:?}", other),
                },
                other => panic!("expected object block, got {:?}", other),
            },
            other => panic!("expected array, got {:?}", other),
        },
        other => panic!("expected object, got {:?}", other),
    }
}

#[test]
fn tools_list_idempotent() {
    let r1 = handle_request(request("tools/list", None, None));
    let r2 = handle_request(request("tools/list", None, None));
    assert_eq!(r1, r2);
    let result = r1.result.expect("tools/list must succeed");
    match &result {
        JsonValue::Obj(fields) => {
            assert_eq!(fields.len(), 1);
            assert_eq!(fields[0].0, "tools");
            match &fields[0].1 {
                JsonValue::Arr(items) => {
                    assert_eq!(items.len(), 2);
                    for (item, expected) in items.iter().zip(["calculate_math", "latex_to_expr"]) {
                        match item {
                            JsonValue::Obj(tool_fields) => {
                                assert_eq!(tool_fields[0].0, "name");
                                assert_eq!(
                                    tool_fields[0].1,
                                    JsonValue::Text(expected.to_string())
                                );
                            },
                            other => panic!("expected tool object, got {:?}", other),
                        }
                    }
                },
                other => panic!("expected array of tools, got {:?}", other),
            }
        },
        other => panic!("expected object, got {:?}", other),
    }
    assert!(r1.error.is_none());
}

#[test]
fn catalog_holds_two_tools() {
    let tools = list_tools();
    assert_eq!(tools.len(), 2);
    assert_eq!(tools[0].name, "calculate_math");
    assert_eq!(tools[1].name, "latex_to_expr");
}

#[test]
fn initialize_announces_version() {
    let r = handle_request(request("initialize", None, Some(JsonValue::Num(1u64))));
    assert!(r.error.is_none());
    assert_eq!(r.id, Some(JsonValue::Num(1u64)));
    match &r.result.unwrap() {
        JsonValue::Obj(fields) => {
            assert_eq!(fields[0].0, "protocolVersion");
            assert_eq!(fields[0].1, JsonValue::Text("2024-11-05".to_string()));
            assert_eq!(fields[1].0, "serverInfo");
            assert_eq!(
                fields[1].1,
                JsonValue::Obj(vec![
                    ("name".to_string(), JsonValue::Text("mcp-math-server".to_string())),
                    ("version".to_string(), JsonValue::Text("0.1.0".to_string())),
                ])
            );
        },
        other => panic!("expected object, got {:?}", other),
    }
}

#[test]
fn unknown_method_is_refused() {
    let r = handle_request(request("foo", None, Some(JsonValue::Text("42".to_string()))));
    assert!(r.result.is_none());
    let e = r.error.expect("unknown method must yield an error");
    assert_eq!(e.code, -32602);
    assert_eq!(e.message, "unknown method: foo");
    assert_eq!(r.id, Some(JsonValue::Text("42".to_string())));
}

#[test]
fn malformed_line_then_next_request() {
    let r = handle_line(Err("not json".to_string()));
    assert!(r.result.is_none());
    assert!(r.id.is_none());
    let e = r.error.expect("a malformed line must yield an error");
    assert_eq!(e.code, -32700);
    assert_eq!(e.message, "failed to parse JSON: not json");
    let next = handle_line(Ok(request("tools/list", None, None)));
    assert!(next.result.is_some());
    assert!(next.error.is_none());
}

#[test]
fn call_without_params_is_refused() {
    let r = handle_request(request("tools/call", None, None));
    assert_eq!(r.error.unwrap().message, "missing tool parameters");
}

#[test]
fn call_without_name_is_refused() {
    let params = one_field("arguments", JsonValue::Obj(vec![]));
    let r = handle_request(request("tools/call", Some(params), None));
    assert_eq!(r.error.unwrap().message, "tool name must not be empty");
}

#[test]
fn call_without_arguments_is_refused() {
    let params = one_field("name", JsonValue::Text("calculate_math".to_string()));
    let r = handle_request(request("tools/call", Some(params), None));
    assert_eq!(r.error.unwrap().message, "tool arguments must not be empty");
}

#[test]
fn call_of_unknown_tool_is_refused() {
    let params = call_params("no_such_tool", JsonValue::Obj(vec![]));
    let r = handle_request(request("tools/call", Some(params), None));
    assert_eq!(r.error.unwrap().message, "unknown tool");
}

#[test]
fn calculate_tool_reports_result() {
    let args = one_field("expression", JsonValue::Text("2+3".to_string()));
    let result = handle_call_tool("calculate_math", &args).unwrap();
    assert_eq!(content_text(&result), "expression: 2+3\nresult: 5\nconverted expression: 2+3");
}

#[test]
fn calculate_tool_reports_failure_inside_success_envelope() {
    let args = one_field("expression", JsonValue::Text("\\sqrt{-1}".to_string()));
    let result = handle_call_tool("calculate_math", &args).unwrap();
    assert_eq!(content_text(&result), "calculation error: invalid calculation result");
    match &result {
        JsonValue::Obj(fields) => {
            assert_eq!(fields[1].0, "isError");
            assert_eq!(fields[1].1, JsonValue::Bool(true));
        },
        other => panic!("expected object, got {:?}", other),
    }
}

#[test]
fn calculate_tool_without_expression_fails_inside_success_envelope() {
    let args = JsonValue::Obj(vec![]);
    let result = handle_call_tool("calculate_math", &args).unwrap();
    assert_eq!(content_text(&result), "math expression must not be empty");
    match &result {
        JsonValue::Obj(fields) => {
            assert_eq!(fields[1].0, "isError");
            assert_eq!(fields[1].1, JsonValue::Bool(true));
        },
        other => panic!("expected object, got {:?}", other),
    }
}

#[test]
fn calculate_tool_with_non_string_expression_fails_inside_success_envelope() {
    let args = one_field("expression", JsonValue::Num(3u64));
    let result = handle_call_tool("calculate_math", &args).unwrap();
    assert_eq!(content_text(&result), "math expression must not be empty");
}

#[test]
fn missing_argument_is_no_protocol_error() {
    let params = call_params("calculate_math", JsonValue::Obj(vec![]));
    let r = handle_request(request("tools/call", Some(params), None));
    assert!(r.error.is_none());
    let result = r.result.expect("a known tool's missing argument stays a success envelope");
    assert_eq!(content_text(&result), "math expression must not be empty");
}

#[test]
fn whitespace_expression_fails_inside_success_envelope() {
    let args = one_field("expression", JsonValue::Text("   ".to_string()));
    let result = handle_call_tool("calculate_math", &args).unwrap();
    assert_eq!(
        content_text(&result),
        "calculation error: math expression error: empty expression"
    );
}

#[test]
fn latex_tool_converts_without_evaluating() {
    let args = one_field("latex", JsonValue::Text("\\frac{1}{2}".to_string()));
    let result = handle_call_tool("latex_to_expr", &args).unwrap();
    assert_eq!(content_text(&result), "LaTeX: \\frac{1}{2}\nconverted expression: ((1)/(2))");
}

#[test]
fn latex_tool_without_latex_fails_inside_success_envelope() {
    let args = JsonValue::Obj(vec![]);
    let result = handle_call_tool("latex_to_expr", &args).unwrap();
    assert_eq!(content_text(&result), "LaTeX expression must not be empty");
}

#[test]
fn full_call_through_dispatch() {
    let params = call_params(
        "calculate_math",
        one_field("expression", JsonValue::Text("\\frac{\\frac{1}{2}}{4}".to_string())),
    );
    let r = handle_request(request("tools/call", Some(params), Some(JsonValue::Num(7u64))));
    assert!(r.error.is_none());
    assert_eq!(r.id, Some(JsonValue::Num(7u64)));
    let text = r.result.as_ref().map(content_text).unwrap().to_string();
    assert_eq!(
        text,
        "expression: \\frac{\\frac{1}{2}}{4}\nresult: 0.125\nconverted expression: ((((1)/(2)))/(4))"
    );
}
