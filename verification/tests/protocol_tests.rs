use desktop_mcp::json::JsonValue;
use desktop_mcp::protocol::{Handling, RpcRequest, finish_tool_reply, handle_request};
use desktop_mcp::render::render_compact;
use desktop_mcp::tools::{ToolStep, execute_tool};

fn obj(fields: Vec<(&str, JsonValue)>) -> JsonValue {
    JsonValue::Obj(fields.into_iter().map(|(k, v)| (String::from(k), v)).collect())
}

fn req(id: Option<JsonValue>, method: &str, params: JsonValue) -> RpcRequest {
    RpcRequest { id, method: String::from(method), params }
}

#[test]
fn notification_produces_no_reply() {
    let r = handle_request(req(None, "notifications/initialized", obj(vec![])));
    assert!(matches!(r, Handling::NoReply));
}

#[test]
fn notification_with_id_still_silent() {
    let r = handle_request(req(
        Some(JsonValue::Int(7)),
        "notifications/initialized",
        obj(vec![]),
    ));
    assert!(matches!(r, Handling::NoReply));
}

#[test]
fn unknown_method_reports_32601_with_id() {
    let r = handle_request(req(Some(JsonValue::Int(42)), "frobnicate", obj(vec![])));
    match r {
        Handling::Reply(v) => {
            assert_eq!(
                render_compact(&v),
                "{\"jsonrpc\":\"2.0\",\"id\":42,\"error\":{\"code\":-32601,\"message\":\"Method not found: frobnicate\"}}"
            );
        },
        _ => panic!("expected a reply"),
    }
}

#[test]
fn unknown_method_without_id_echoes_null() {
    let r = handle_request(req(None, "no/such/method", obj(vec![])));
    match r {
        Handling::Reply(v) => {
            let s = render_compact(&v);
            assert!(s.contains("\"id\":null"));
            assert!(s.contains("\"code\":-32601"));
            assert!(s.contains("Method not found: no/such/method"));
        },
        _ => panic!("expected a reply"),
    }
}

#[test]
fn initialize_reports_identity() {
    let r = handle_request(req(Some(JsonValue::Int(1)), "initialize", obj(vec![])));
    match r {
        Handling::Reply(v) => {
            assert_eq!(
                render_compact(&v),
                "{\"jsonrpc\":\"2.0\",\"id\":1,\"result\":{\"protocolVersion\":\"2024-11-05\",\"serverInfo\":{\"name\":\"desktop-mcp\",\"version\":\"0.1.0\"},\"capabilities\":{\"tools\":{}}}}"
            );
        },
        _ => panic!("expected a reply"),
    }
}

#[test]
fn tools_list_names_match_dispatch() {
    let expected = [
        "screen_capture",
        "mouse_move",
        "mouse_click",
        "mouse_drag",
        "key_tap",
        "type_text",
        "get_screen_info",
    ];
    let r = handle_request(req(Some(JsonValue::Int(2)), "tools/list", obj(vec![])));
    let reply = match r {
        Handling::Reply(v) => v,
        _ => panic!("expected a reply"),
    };
    let result = reply.get("result").expect("result");
    let tools = result.get("tools").expect("tools");
    let items = match tools {
        JsonValue::Arr(items) => items,
        _ => panic!("tools must be an array"),
    };
    assert_eq!(items.len(), expected.len());
    for (i, item) in items.iter().enumerate() {
        let name = item.get_str("name").expect("name");
        assert_eq!(name.as_str(), expected[i]);
        assert!(item.get_str("description").is_some());
        assert!(item.get("inputSchema").is_some());
        // every advertised name dispatches to a real tool
        let step = execute_tool(name.as_str(), &obj(vec![]));
        match step {
            ToolStep::Reject(msg) => {
                assert!(
                    !msg.as_str().starts_with("Unknown tool:"),
                    "advertised tool {} is not dispatched",
                    expected[i]
                );
            },
            _ => {},
        }
    }
    // and a name outside the list does not
    match execute_tool("not_a_tool", &obj(vec![])) {
        ToolStep::Reject(msg) => assert_eq!(msg.as_str(), "Unknown tool: not_a_tool"),
        _ => panic!("unknown tool must be rejected"),
    }
}

#[test]
fn tools_call_routes_name_and_arguments() {
    let params = obj(vec![
        ("name", JsonValue::Text(String::from("mouse_move"))),
        (
            "arguments",
            obj(vec![("x", JsonValue::Int(3)), ("y", JsonValue::Int(4))]),
        ),
    ]);
    let r = handle_request(req(Some(JsonValue::Int(9)), "tools/call", params));
    match r {
        Handling::Tool { id, step } => {
            assert_eq!(render_compact(&id), "9");
            match step {
                ToolStep::Inject { plan, result } => {
                    assert_eq!(plan.len(), 1);
                    assert_eq!(
                        render_compact(&result),
                        "{\"success\":true,\"position\":{\"x\":3,\"y\":4}}"
                    );
                },
                _ => panic!("mouse_move must inject"),
            }
        },
        _ => panic!("expected a tool call"),
    }
}

#[test]
fn tools_call_missing_arguments_defaults_to_empty() {
    let params = obj(vec![("name", JsonValue::Text(String::from("mouse_move")))]);
    let r = handle_request(req(Some(JsonValue::Int(9)), "tools/call", params));
    match r {
        Handling::Tool { step, .. } => match step {
            ToolStep::Reject(msg) => assert_eq!(msg.as_str(), "Missing x coordinate"),
            _ => panic!("expected a missing-argument rejection"),
        },
        _ => panic!("expected a tool call"),
    }
}

#[test]
fn tool_failure_stays_a_success_envelope() {
    let reply = finish_tool_reply(JsonValue::Int(5), Err(String::from("it broke")));
    assert_eq!(
        render_compact(&reply),
        "{\"jsonrpc\":\"2.0\",\"id\":5,\"result\":{\"content\":[{\"type\":\"text\",\"text\":\"Error: it broke\"}],\"isError\":true}}"
    );
}

#[test]
fn tool_success_embeds_pretty_result() {
    let result = obj(vec![("success", JsonValue::Bool(true)), ("n", JsonValue::Int(2))]);
    let reply = finish_tool_reply(JsonValue::Int(5), Ok(result));
    assert_eq!(
        render_compact(&reply),
        "{\"jsonrpc\":\"2.0\",\"id\":5,\"result\":{\"content\":[{\"type\":\"text\",\"text\":\"{\\n  \\\"success\\\": true,\\n  \\\"n\\\": 2\\n}\"}]}}"
    );
}

#[test]
fn extraction_is_idempotent() {
    let args = obj(vec![
        ("from_x", JsonValue::Int(1)),
        ("from_y", JsonValue::Int(2)),
        ("to_x", JsonValue::Int(30)),
        ("to_y", JsonValue::Int(40)),
        ("button", JsonValue::Text(String::from("middle"))),
    ]);
    let a = execute_tool("mouse_drag", &args);
    let b = execute_tool("mouse_drag", &args);
    match (a, b) {
        (
            ToolStep::Inject { plan: p1, result: r1 },
            ToolStep::Inject { plan: p2, result: r2 },
        ) => {
            assert_eq!(p1, p2);
            assert_eq!(render_compact(&r1), render_compact(&r2));
        },
        _ => panic!("expected identical injections"),
    }
}
