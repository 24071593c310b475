use roblox_studio_bridge::bridge::CommandKind;
use roblox_studio_bridge::mcp::{
    dispatch, handle_post, negotiate_protocol, route_request, tool_call_response, tool_text,
    McpBody, McpResult, McpStep, ToolDispatch,
};
use roblox_studio_bridge::tools::{snapshot_reply, status_reply, tools_schema, InsertScriptParams};
use serde_json::Value;

fn v(s: &str) -> Value {
    serde_json::from_str(s).unwrap()
}

fn respond(step: McpStep) -> roblox_studio_bridge::mcp::McpResponse {
    match step {
        McpStep::Respond(r) => r,
        McpStep::CallTool { .. } => panic!("expected an answer"),
    }
}

#[test]
fn protocol_negotiation() {
    assert_eq!(negotiate_protocol("2025-03-26"), "2025-03-26");
    assert_eq!(negotiate_protocol("2025-06-18"), "2025-03-26");
    assert_eq!(negotiate_protocol("2024-11-05"), "2024-11-05");
    assert_eq!(negotiate_protocol(""), "2024-11-05");
    let versions = ["", "2024-11-05", "2024-12-01", "2025-03-26", "2025-06-18", "9"];
    for a in versions {
        for b in versions {
            if a <= b {
                assert!(negotiate_protocol(a) <= negotiate_protocol(b), "{a} {b}");
            }
        }
        if a >= "2024-11-05" {
            assert!(negotiate_protocol(a) <= a, "{a}");
        }
    }
}

#[test]
fn bad_json_is_a_parse_error() {
    let r = respond(handle_post(b"not json", None));
    assert_eq!(r.status, 400);
    assert!(r.session_id.is_none());
    match r.body {
        McpBody::Error { id, code, message } => {
            assert_eq!(id, Value::Null);
            assert_eq!(code, -32700);
            assert!(message.starts_with("Parse error: "), "{message}");
        }
        _ => panic!("expected an error"),
    }
}

#[test]
fn notifications_are_accepted_silently() {
    let r = respond(handle_post(br#"{"jsonrpc":"2.0","method":"notifications/initialized"}"#, None));
    assert_eq!(r.status, 202);
    assert_eq!(r.headers, vec![("MCP-Protocol-Version", "2025-03-26")]);
    assert!(r.session_id.is_none());
    assert!(matches!(r.body, McpBody::NoBody));
}

#[test]
fn initialize_echoes_id_and_session() {
    let body = br#"{"jsonrpc":"2.0","id":7,"method":"initialize","params":{"protocolVersion":"2024-11-05"}}"#;
    let r = respond(handle_post(body, Some("sess-1".to_string())));
    assert_eq!(r.status, 200);
    assert_eq!(
        r.headers,
        vec![
            ("Content-Type", "application/json"),
            ("MCP-Protocol-Version", "2025-03-26"),
            ("Access-Control-Allow-Origin", "*"),
        ]
    );
    assert_eq!(r.session_id.as_deref(), Some("sess-1"));
    match r.body {
        McpBody::Success {
            id,
            result:
                McpResult::Initialize {
                    protocol_version,
                    server_name,
                    server_version,
                    tools_list_changed,
                    instructions,
                },
        } => {
            assert_eq!(id, v("7"));
            assert_eq!(protocol_version, "2024-11-05");
            assert_eq!(server_name, "roblox-studio-mcp");
            assert_eq!(server_version, "0.2.0");
            assert!(!tools_list_changed);
            assert!(instructions.starts_with("QUAN TRỌNG: 1. Gọi snapshot()"));
        }
        _ => panic!("expected initialize"),
    }
    let r = respond(handle_post(br#"{"id":"x","method":"initialize"}"#, Some("s".to_string())));
    match r.body {
        McpBody::Success { result: McpResult::Initialize { protocol_version, .. }, .. } => {
            assert_eq!(protocol_version, "2025-03-26")
        }
        _ => panic!("expected initialize"),
    }
}

#[test]
fn missing_session_gets_a_fresh_uuid() {
    let r = respond(handle_post(br#"{"id":1,"method":"ping"}"#, None));
    let sid = r.session_id.expect("session");
    assert_eq!(sid.len(), 36);
    assert_eq!(&sid[14..15], "4");
    assert!(matches!(r.body, McpBody::Success { result: McpResult::Empty, .. }));
}

#[test]
fn tools_list_and_unknown_methods() {
    let r = respond(route_request(&v(r#"{"id":2,"method":"tools/list"}"#), "s".to_string()));
    assert!(matches!(r.body, McpBody::Success { result: McpResult::ToolsList, .. }));
    let r = respond(route_request(&v(r#"{"id":3,"method":"frobnicate"}"#), "s".to_string()));
    assert_eq!(r.status, 200);
    match r.body {
        McpBody::Error { id, code, message } => {
            assert_eq!(id, v("3"));
            assert_eq!(code, -32601);
            assert_eq!(message, "Method not found: frobnicate");
        }
        _ => panic!("expected an error"),
    }
    let r = respond(route_request(&v(r#"{"id":4}"#), "s".to_string()));
    match r.body {
        McpBody::Error { message, .. } => assert_eq!(message, "Method not found: "),
        _ => panic!("expected an error"),
    }
}

#[test]
fn tools_call_is_handed_to_the_bridge() {
    let req = v(r#"{"id":5,"method":"tools/call","params":{"name":"run_code","arguments":{"code":"print(1)"}}}"#);
    match route_request(&req, "s".to_string()) {
        McpStep::CallTool { id, session_id, name, args } => {
            assert_eq!(id, v("5"));
            assert_eq!(session_id, "s");
            assert_eq!(name, "run_code");
            assert_eq!(args, v(r#"{"code":"print(1)"}"#));
        }
        _ => panic!("expected a tool call"),
    }
    let r = tool_call_response(v("5"), "s".to_string(), "out".to_string());
    match r.body {
        McpBody::Success { result: McpResult::ToolText { text }, .. } => assert_eq!(text, "out"),
        _ => panic!("expected tool text"),
    }
}

fn sent(d: ToolDispatch) -> CommandKind {
    match d {
        ToolDispatch::Send(c) => c,
        ToolDispatch::Reply(t) => panic!("unexpected reply {t}"),
    }
}

#[test]
fn offline_plugin_only_answers_status() {
    match dispatch(false, "snapshot", &Value::Null) {
        ToolDispatch::Reply(t) => assert_eq!(
            t,
            "❌ Plugin chưa kết nối. Mở Roblox Studio và click Connect trong widget Studio Bridge."
        ),
        _ => panic!("expected a reply"),
    }
    match sent(dispatch(false, "status", &Value::Null)) {
        CommandKind::RunCode { code } => assert_eq!(code, r#"print("✅ "..tostring(version()))"#),
        _ => panic!("expected run_code"),
    }
}

#[test]
fn tool_arguments_and_defaults() {
    assert!(matches!(sent(dispatch(true, "snapshot", &Value::Null)), CommandKind::Snapshot {}));
    assert!(matches!(sent(dispatch(true, "get_scripts", &Value::Null)), CommandKind::GetScripts {}));
    match sent(dispatch(true, "run_code", &v(r#"{"code":"x=1"}"#))) {
        CommandKind::RunCode { code } => assert_eq!(code, "x=1"),
        _ => panic!(),
    }
    match sent(dispatch(true, "run_code", &v(r#"{"code":5}"#))) {
        CommandKind::RunCode { code } => assert_eq!(code, ""),
        _ => panic!(),
    }
    match sent(dispatch(true, "get_instances", &Value::Null)) {
        CommandKind::GetInstances { path } => assert_eq!(path, "game"),
        _ => panic!(),
    }
    match sent(dispatch(true, "insert_part", &v(r#"{"name":"Box"}"#))) {
        CommandKind::InsertPart { name, parent } => {
            assert_eq!(name, "Box");
            assert_eq!(parent, "game.Workspace");
        }
        _ => panic!(),
    }
    match sent(dispatch(true, "batch_run", &v(r#"{"codes":["a",1,"b",null]}"#))) {
        CommandKind::BatchRun { codes } => assert_eq!(codes, vec!["a", "b"]),
        _ => panic!(),
    }
    match sent(dispatch(true, "batch_run", &v(r#"{"codes":"a"}"#))) {
        CommandKind::BatchRun { codes } => assert!(codes.is_empty()),
        _ => panic!(),
    }
    match dispatch(true, "fly", &Value::Null) {
        ToolDispatch::Reply(t) => assert_eq!(t, "❌ Unknown tool: fly"),
        _ => panic!(),
    }
}

#[test]
fn insert_script_quotes_its_strings() {
    let args = v(r#"{"name":"Door","script_type":"LocalScript","parent":"game.Workspace","source":"print(\"]=]\")\n"}"#);
    match sent(dispatch(true, "insert_script", &args)) {
        CommandKind::RunCode { code } => assert_eq!(
            code,
            "local s = Instance.new(\"LocalScript\")\ns.Name   = \"Door\"\ns.Source = \"print(\\\"]=]\\\")\\n\"\ns.Parent = game.Workspace\nprint(\"✅ \" .. s.Name)"
        ),
        _ => panic!(),
    }
    match sent(dispatch(true, "insert_script", &Value::Null)) {
        CommandKind::RunCode { code } => assert_eq!(
            code,
            "local s = Instance.new(\"Script\")\ns.Name   = \"Script\"\ns.Source = \"\"\ns.Parent = game.ServerScriptService\nprint(\"✅ \" .. s.Name)"
        ),
        _ => panic!(),
    }
}

#[test]
fn tool_text_marks_errors() {
    assert_eq!(tool_text(Ok("fine".to_string())), "fine");
    assert_eq!(tool_text(Err("Studio error: x".to_string())), "❌ Studio error: x");
}

#[test]
fn catalogue_lists_every_callable_tool() {
    let tools = tools_schema();
    let names: Vec<&str> = tools.iter().map(|t| t.name).collect();
    assert_eq!(
        names,
        vec!["snapshot", "batch_run", "run_code", "get_instances", "get_scripts", "insert_part", "insert_script", "status"]
    );
    for t in &tools {
        let d = dispatch(true, t.name, &Value::Null);
        assert!(matches!(d, ToolDispatch::Send(_)), "{}", t.name);
    }
    let script = &tools[6];
    assert_eq!(script.required, vec!["name", "script_type", "parent", "source"]);
    assert_eq!(script.params[1].choices, vec!["Script", "LocalScript", "ModuleScript"]);
}

#[test]
fn studio_tool_replies() {
    assert_eq!(snapshot_reply(Ok("{}".to_string())), "{}");
    assert_eq!(snapshot_reply(Err("Timeout".to_string())), "{\"error\":\"Timeout\"}");
    assert_eq!(status_reply(Ok("✅ 0.6".to_string())), "🟢 Connected\n✅ 0.6");
    assert_eq!(status_reply(Err("down".to_string())), "🔴 Not connected: down");
    let p = InsertScriptParams {
        name: "A".to_string(),
        script_type: "Script".to_string(),
        parent: "game.Workspace".to_string(),
        source: "print(1)".to_string(),
    };
    assert_eq!(
        p.long_bracket_code(),
        "local s=Instance.new(\"Script\")\ns.Name=\"A\"\ns.Source=[=[print(1)]=]\ns.Parent=game.Workspace\nprint(\"✅ \"..s.Name)"
    );
}
