use rs_adb_mcp::errors::ToolError;
use rs_adb_mcp::json::{JsonNumber, JsonValue};
use rs_adb_mcp::protocol::{parse_error_response, JsonRpcRequest, JsonRpcResponse};
use rs_adb_mcp::server::{AdbMcpServer, Route};

/// Compact JSON text, members in the order held.
fn render(v: &JsonValue) -> String {
    match v {
        JsonValue::Null => "null".to_string(),
        JsonValue::Bool(b) => b.to_string(),
        JsonValue::Number(JsonNumber::PosInt(u)) => u.to_string(),
        JsonValue::Number(JsonNumber::NegInt(i)) => i.to_string(),
        JsonValue::Number(JsonNumber::Float(t)) => t.clone(),
        JsonValue::Str(s) => serde_json::to_string(s).unwrap(),
        JsonValue::Array(items) => {
            format!("[{}]", items.iter().map(render).collect::<Vec<_>>().join(","))
        }
        JsonValue::Object(members) => format!(
            "{{{}}}",
            members
                .iter()
                .map(|(k, v)| format!("{}:{}", serde_json::to_string(k).unwrap(), render(v)))
                .collect::<Vec<_>>()
                .join(",")
        ),
    }
}

fn reply(r: JsonRpcResponse) -> String {
    render(&r.to_json())
}

fn request(id: JsonValue, method: &str, params: Option<JsonValue>) -> JsonRpcRequest {
    JsonRpcRequest { jsonrpc: "2.0".to_string(), id, method: method.to_string(), params }
}

fn number(n: u64) -> JsonValue {
    JsonValue::Number(JsonNumber::PosInt(n))
}

fn object(members: Vec<(&str, JsonValue)>) -> JsonValue {
    JsonValue::Object(members.into_iter().map(|(k, v)| (k.to_string(), v)).collect())
}

fn respond(route: Route) -> String {
    match route {
        Route::Respond(r) => reply(r),
        Route::CallTool { .. } => panic!("expected a direct response"),
    }
}

#[test]
fn parse_error_reply() {
    assert_eq!(
        reply(parse_error_response()),
        r#"{"jsonrpc":"2.0","id":null,"error":{"code":-32700,"message":"Parse error"}}"#
    );
}

#[test]
fn initialize_reply() {
    let server = AdbMcpServer::new();
    let out = respond(server.route(request(number(1), "initialize", None)));
    assert_eq!(
        out,
        r#"{"jsonrpc":"2.0","id":1,"result":{"capabilities":{"tools":{"listChanged":false}},"protocolVersion":"2024-11-05","serverInfo":{"name":"rs-adb-mcp","version":"0.1.0"}}}"#
    );
}

#[test]
fn unknown_method_reply() {
    let server = AdbMcpServer::new();
    let out = respond(server.route(request(JsonValue::Str("a".to_string()), "ping", None)));
    assert_eq!(
        out,
        r#"{"jsonrpc":"2.0","id":"a","error":{"code":-32601,"message":"Method not found: ping"}}"#
    );
}

#[test]
fn tools_call_without_params_reply() {
    let server = AdbMcpServer::new();
    let out = respond(server.route(request(number(4), "tools/call", None)));
    assert_eq!(
        out,
        r#"{"jsonrpc":"2.0","id":4,"error":{"code":-32602,"message":"Missing params"}}"#
    );
}

#[test]
fn tools_call_routes_to_the_tool() {
    let server = AdbMcpServer::new();
    let params = object(vec![
        ("name", JsonValue::Str("adb_shell".to_string())),
        ("arguments", object(vec![("command", JsonValue::Str("ls".to_string()))])),
    ]);
    match server.route(request(number(9), "tools/call", Some(params))) {
        Route::CallTool { id, name, arguments } => {
            assert_eq!(render(&id), "9");
            assert_eq!(name, "adb_shell");
            assert_eq!(render(&arguments), r#"{"command":"ls"}"#);
        }
        Route::Respond(_) => panic!("expected a tool call"),
    }
}

#[test]
fn tools_call_defaults_name_and_arguments() {
    let server = AdbMcpServer::new();
    let params = object(vec![("name", number(3))]);
    match server.route(request(JsonValue::Null, "tools/call", Some(params))) {
        Route::CallTool { id, name, arguments } => {
            assert_eq!(render(&id), "null");
            assert_eq!(name, "");
            assert_eq!(render(&arguments), "{}");
        }
        Route::Respond(_) => panic!("expected a tool call"),
    }
}

#[test]
fn tool_call_reply_on_success() {
    let server = AdbMcpServer::new();
    let out = reply(server.handle_tools_call(number(2), Ok("List of devices attached\n".to_string())));
    assert_eq!(
        out,
        r#"{"jsonrpc":"2.0","id":2,"result":{"content":[{"text":"List of devices attached\n","type":"text"}],"isError":false}}"#
    );
}

#[test]
fn tool_call_reply_on_failure() {
    let server = AdbMcpServer::new();
    let out = reply(server.handle_tools_call(
        number(3),
        Err(ToolError::MissingArgument("command".to_string())),
    ));
    assert_eq!(
        out,
        r#"{"jsonrpc":"2.0","id":3,"result":{"content":[{"text":"Error: Missing 'command' argument","type":"text"}],"isError":true}}"#
    );
}

#[test]
fn replies_echo_the_request_id() {
    let server = AdbMcpServer::new();
    for method in ["initialize", "tools/list", "tools/call", "nothing"] {
        let id = JsonValue::Str(format!("id-{}", method));
        match server.route(request(id, method, None)) {
            Route::Respond(r) => {
                let text = reply(r);
                assert!(text.starts_with(&format!(r#"{{"jsonrpc":"2.0","id":"id-{}","#, method)));
            }
            Route::CallTool { .. } => panic!("no params"),
        }
    }
}

#[test]
fn tools_list_reply() {
    let server = AdbMcpServer::new();
    let out = respond(server.route(request(number(1), "tools/list", None)));
    let expected = [
        r#"{"jsonrpc":"2.0","id":1,"result":{"tools":["#,
        r#"{"description":"Lists all connected Android devices and emulators with their status and details","inputSchema":{"properties":{},"required":[],"type":"object"},"name":"adb_devices"},"#,
        r#"{"description":"Executes a shell command on a connected Android device or emulator","inputSchema":{"properties":{"command":{"description":"Shell command to execute","type":"string"},"device":{"description":"Device ID (optional)","type":"string"}},"required":["command"],"type":"object"},"name":"adb_shell"},"#,
        r#"{"description":"Installs an Android application (APK) on a connected device or emulator","inputSchema":{"properties":{"apk_path":{"description":"Local path to APK file","type":"string"},"device":{"description":"Device ID (optional)","type":"string"}},"required":["apk_path"],"type":"object"},"name":"adb_install"},"#,
        r#"{"description":"Retrieves Android system and application logs from a connected device","inputSchema":{"properties":{"device":{"description":"Device ID (optional)","type":"string"},"filter":{"description":"Logcat filter expression (optional)","type":"string"},"lines":{"description":"Number of lines to return (default: 50)","type":"integer"}},"required":[],"type":"object"},"name":"adb_logcat"},"#,
        r#"{"description":"Transfers a file from a connected Android device","inputSchema":{"properties":{"as_base64":{"description":"Return as base64 (default: true)","type":"boolean"},"device":{"description":"Device ID (optional)","type":"string"},"remote_path":{"description":"Remote file path on the device","type":"string"}},"required":["remote_path"],"type":"object"},"name":"adb_pull"},"#,
        r#"{"description":"Transfers a file from the server to a connected Android device","inputSchema":{"properties":{"device":{"description":"Device ID (optional)","type":"string"},"file_base64":{"description":"Base64 encoded file content","type":"string"},"remote_path":{"description":"Remote file path on the device","type":"string"}},"required":["file_base64","remote_path"],"type":"object"},"name":"adb_push"},"#,
        r#"{"description":"Executes Activity Manager (am) commands on a connected Android device","inputSchema":{"properties":{"am_args":{"description":"Arguments for the am subcommand","type":"string"},"am_command":{"description":"Activity Manager subcommand (e.g., 'start', 'broadcast', 'force-stop')","type":"string"},"device":{"description":"Device ID (optional)","type":"string"}},"required":["am_command"],"type":"object"},"name":"adb_activity_manager"},"#,
        r#"{"description":"Executes Package Manager (pm) commands on a connected Android device","inputSchema":{"properties":{"device":{"description":"Device ID (optional)","type":"string"},"pm_args":{"description":"Arguments for the pm subcommand","type":"string"},"pm_command":{"description":"Package Manager subcommand (e.g., 'list', 'grant', 'revoke')","type":"string"}},"required":["pm_command"],"type":"object"},"name":"adb_package_manager"},"#,
        r#"{"description":"Captures the complete UI hierarchy of the current screen as XML","inputSchema":{"properties":{"as_base64":{"description":"Return XML as base64 (default: false)","type":"boolean"},"device":{"description":"Device ID (optional)","type":"string"}},"required":[],"type":"object"},"name":"adb_inspect_ui"},"#,
        r#"{"description":"Captures the current screen of a connected Android device","inputSchema":{"properties":{"as_base64":{"description":"Return as base64 (default: false)","type":"boolean"},"device":{"description":"Device ID (optional)","type":"string"}},"required":[],"type":"object"},"name":"adb_screenshot"}"#,
        r#"]}}"#,
    ]
    .join("");
    assert_eq!(out, expected);
}

#[test]
fn tool_schemas_match_serde_json_maps() {
    // A schema is what `serde_json::json!` builds: its members come out in key order.
    let server = AdbMcpServer::new();
    for tool in server.get_tools() {
        let text = render(&tool.input_schema);
        let reparsed: serde_json::Value = serde_json::from_str(&text).unwrap();
        assert_eq!(serde_json::to_string(&reparsed).unwrap(), text);
    }
}
