use mcp::file_read::{
    execute_file_read, get_tool_definition, guess_mime_type, is_within_sandbox,
    mime_type_for_extension, FileProbe, FileReadError, FileReadRequest,
};
use mcp::mcp::{McpServerState, McpTool, INVALID_PARAMS, METHOD_NOT_FOUND};
use mcp::server::{
    finish_file_read, handle_jsonrpc, CallParams, IncomingRequest, RpcResult, ServerReply,
    ServerStep, ToolArguments, ToolsCallRequest,
};
use mcp::McpServer;

fn tool(name: &str, description: &str) -> McpTool {
    McpTool {
        name: name.to_string(),
        description: Some(description.to_string()),
        inputSchema: None,
    }
}

fn request(id: &str, method: &str, params: CallParams) -> IncomingRequest {
    IncomingRequest { id: id.to_string(), method: method.to_string(), params }
}

fn call(name: &str, arguments: Option<ToolArguments>) -> CallParams {
    CallParams::Valid(ToolsCallRequest { name: name.to_string(), arguments })
}

fn file_args(path: &str) -> Option<ToolArguments> {
    Some(ToolArguments {
        text: format!("Object {{\"path\": String(\"{}\")}}", path),
        file_read: Ok(FileReadRequest { path: path.to_string() }),
    })
}

fn registry_with_file_read() -> McpServerState {
    let mut state = McpServerState::new();
    state.add_tool(get_tool_definition());
    state
}

fn reply(step: ServerStep) -> ServerReply {
    match step {
        ServerStep::Reply(r) => r,
        ServerStep::ReadFile { .. } => panic!("expected a reply"),
    }
}

fn error_of(step: ServerStep) -> (String, i32, String) {
    let r = reply(step);
    assert_eq!(r.jsonrpc, "2.0");
    match r.outcome {
        Err(e) => {
            assert!(e.data.is_none());
            (r.id, e.code, e.message)
        }
        Ok(_) => panic!("expected an error"),
    }
}

fn text_of(r: ServerReply) -> (String, String) {
    assert_eq!(r.jsonrpc, "2.0");
    match r.outcome {
        Ok(RpcResult::ToolsCall(resp)) => {
            assert_eq!(resp.content.len(), 1);
            assert_eq!(resp.content[0].content_type, "text");
            (r.id, resp.content[0].text.clone())
        }
        _ => panic!("expected a text result"),
    }
}

fn listed_names(state: &McpServerState) -> Vec<String> {
    let r = reply(handle_jsonrpc(state, request("l", "tools/list", CallParams::Missing)));
    match r.outcome {
        Ok(RpcResult::ToolsList(l)) => {
            let mut names: Vec<String> = l.tools.iter().map(|t| t.name.clone()).collect();
            names.sort();
            names
        }
        _ => panic!("expected a tool list"),
    }
}

#[test]
fn scenario_list_after_registering_file_read() {
    let state = registry_with_file_read();
    let r = reply(handle_jsonrpc(&state, request("1", "tools/list", CallParams::Missing)));
    assert_eq!(r.id, "1");
    match r.outcome {
        Ok(RpcResult::ToolsList(l)) => {
            assert_eq!(l.tools.len(), 1);
            assert_eq!(l.tools[0].name, "file_read");
            let d = l.tools[0].description.clone().unwrap();
            assert!(!d.is_empty());
        }
        _ => panic!("expected a tool list"),
    }
}

#[test]
fn list_is_the_registered_set_in_any_order() {
    let mut a = McpServerState::new();
    a.add_tool(tool("alpha", "a"));
    a.add_tool(tool("beta", "b"));
    a.add_tool(tool("gamma", "c"));
    let mut b = McpServerState::new();
    b.add_tool(tool("gamma", "c"));
    b.add_tool(tool("alpha", "a"));
    b.add_tool(tool("beta", "b"));
    b.add_tool(tool("alpha", "a"));
    assert_eq!(listed_names(&a), vec!["alpha", "beta", "gamma"]);
    assert_eq!(listed_names(&a), listed_names(&b));
}

#[test]
fn last_registration_wins() {
    let mut state = McpServerState::new();
    state.add_tool(tool("echo", "first"));
    state.add_tool(tool("echo", "second"));
    assert_eq!(state.get_tools().len(), 1);
    let t = state.get_tool("echo").unwrap();
    assert_eq!(t.description.unwrap(), "second");
    assert!(state.get_tool("missing").is_none());
}

#[test]
fn empty_registry_lists_nothing() {
    let state = McpServerState::new();
    assert!(listed_names(&state).is_empty());
}

#[test]
fn unregistered_tool_is_not_found() {
    let state = registry_with_file_read();
    let (id, code, message) =
        error_of(handle_jsonrpc(&state, request("7", "tools/call", call("nope", None))));
    assert_eq!(id, "7");
    assert_eq!(code, -32601);
    assert_eq!(code, METHOD_NOT_FOUND);
    assert_eq!(message, "Tool 'nope' not found");
}

#[test]
fn file_read_is_not_found_before_registration() {
    let state = McpServerState::new();
    let (_, code, _) = error_of(handle_jsonrpc(
        &state,
        request("8", "tools/call", call("file_read", file_args("/etc/passwd"))),
    ));
    assert_eq!(code, -32601);
}

#[test]
fn unknown_method_is_not_found() {
    let state = registry_with_file_read();
    let (_, code, message) =
        error_of(handle_jsonrpc(&state, request("2", "resources/list", CallParams::Missing)));
    assert_eq!(code, -32601);
    assert_eq!(message, "Method not found");
}

#[test]
fn missing_params_are_invalid() {
    let state = registry_with_file_read();
    let (_, code, message) =
        error_of(handle_jsonrpc(&state, request("3", "tools/call", CallParams::Missing)));
    assert_eq!(code, -32602);
    assert_eq!(code, INVALID_PARAMS);
    assert_eq!(message, "Missing params");
}

#[test]
fn ill_shaped_params_are_invalid() {
    let state = registry_with_file_read();
    let params = CallParams::Invalid("missing field `name`".to_string());
    let (_, code, message) = error_of(handle_jsonrpc(&state, request("4", "tools/call", params)));
    assert_eq!(code, -32602);
    assert_eq!(message, "Invalid params: missing field `name`");
}

#[test]
fn file_read_without_arguments_is_invalid() {
    let state = registry_with_file_read();
    let (_, code, message) =
        error_of(handle_jsonrpc(&state, request("5", "tools/call", call("file_read", None))));
    assert_eq!(code, -32602);
    assert_eq!(message, "file_read tool requires arguments");
}

#[test]
fn file_read_with_bad_arguments_is_invalid() {
    let state = registry_with_file_read();
    let args = Some(ToolArguments {
        text: "Number(3)".to_string(),
        file_read: Err("invalid type: integer `3`, expected struct FileReadRequest".to_string()),
    });
    let (_, code, message) =
        error_of(handle_jsonrpc(&state, request("6", "tools/call", call("file_read", args))));
    assert_eq!(code, -32602);
    assert_eq!(
        message,
        "Invalid file_read arguments: invalid type: integer `3`, expected struct FileReadRequest"
    );
}

#[test]
fn scenario_read_outside_sandbox_is_denied_as_content() {
    let state = registry_with_file_read();
    let step = handle_jsonrpc(
        &state,
        request("9", "tools/call", call("file_read", file_args("/etc/passwd"))),
    );
    let (id, text) = text_of(reply(step));
    assert_eq!(id, "9");
    assert_eq!(
        text,
        "Error reading file: Access denied: File path must be within /tmp/allowed_files/"
    );
    assert!(text.contains("Access denied"));
}

#[test]
fn traversal_is_judged_by_text_prefix() {
    assert!(!is_within_sandbox("/tmp/allowed_files"));
    assert!(!is_within_sandbox("tmp/allowed_files/a.txt"));
    assert!(is_within_sandbox("/tmp/allowed_files/../x"));
    assert!(is_within_sandbox("/tmp/allowed_files/a.txt"));
    assert!(!is_within_sandbox(""));
}

#[test]
fn scenario_read_inside_sandbox() {
    let state = registry_with_file_read();
    let step = handle_jsonrpc(
        &state,
        request("10", "tools/call", call("file_read", file_args("/tmp/allowed_files/a.txt"))),
    );
    let (id, req) = match step {
        ServerStep::ReadFile { id, request } => (id, request),
        ServerStep::Reply(_) => panic!("expected a read"),
    };
    assert_eq!(id, "10");
    assert_eq!(req.path, "/tmp/allowed_files/a.txt");
    let outcome = execute_file_read(req, FileProbe::Contents("hello".to_string()));
    let resp = match &outcome {
        Ok(resp) => resp,
        Err(_) => panic!("expected content"),
    };
    assert_eq!(resp.content, "hello");
    assert_eq!(resp.size, 5);
    assert_eq!(resp.mime_type.clone().unwrap(), "text/plain");
    let (id, text) = text_of(finish_file_read(id, outcome));
    assert_eq!(id, "10");
    assert_eq!(
        text,
        "File: /tmp/allowed_files/a.txt\nSize: 5 bytes\nMIME Type: text/plain\n\nContent:\nhello"
    );
}

#[test]
fn size_counts_bytes() {
    let req = FileReadRequest { path: "/tmp/allowed_files/u".to_string() };
    match execute_file_read(req, FileProbe::Contents("héllo".to_string())) {
        Ok(resp) => {
            assert_eq!(resp.size, 6);
            assert!(resp.mime_type.is_none());
        }
        Err(_) => panic!("expected content"),
    }
}

#[test]
fn read_failures_are_reported_as_content() {
    let path = "/tmp/allowed_files/b.md";
    let missing = execute_file_read(FileReadRequest { path: path.to_string() }, FileProbe::Missing);
    let (_, text) = text_of(finish_file_read("a".to_string(), missing));
    assert_eq!(text, "Error reading file: File not found: /tmp/allowed_files/b.md");

    let dir = execute_file_read(FileReadRequest { path: path.to_string() }, FileProbe::NotAFile);
    let (_, text) = text_of(finish_file_read("b".to_string(), dir));
    assert_eq!(text, "Error reading file: Path is not a file: /tmp/allowed_files/b.md");

    let bad = execute_file_read(
        FileReadRequest { path: path.to_string() },
        FileProbe::Unreadable("stream did not contain valid UTF-8".to_string()),
    );
    let (_, text) = text_of(finish_file_read("c".to_string(), bad));
    assert_eq!(
        text,
        "Error reading file: Failed to read file '/tmp/allowed_files/b.md': stream did not contain valid UTF-8"
    );
}

#[test]
fn outside_sandbox_wins_over_probe() {
    let r = execute_file_read(
        FileReadRequest { path: "/etc/passwd".to_string() },
        FileProbe::Contents("root".to_string()),
    );
    match r {
        Err(e) => {
            assert!(matches!(e, FileReadError::AccessDenied));
            assert_eq!(e.message(), "Access denied: File path must be within /tmp/allowed_files/");
        }
        Ok(_) => panic!("expected a denial"),
    }
}

#[test]
fn other_registered_tools_echo_their_arguments() {
    let mut state = McpServerState::new();
    state.add_tool(tool("echo", "echoes"));
    let args = Some(ToolArguments {
        text: "Object {\"x\": Number(1)}".to_string(),
        file_read: Err("missing field `path`".to_string()),
    });
    let (_, text) = text_of(reply(handle_jsonrpc(&state, request("e", "tools/call", call("echo", args)))));
    assert_eq!(
        text,
        "Tool 'echo' executed successfully with arguments: Some(Object {\"x\": Number(1)})"
    );
    let (_, text) = text_of(reply(handle_jsonrpc(&state, request("f", "tools/call", call("echo", None)))));
    assert_eq!(text, "Tool 'echo' executed successfully with arguments: None");
}

#[test]
fn mime_types_by_extension() {
    assert_eq!(guess_mime_type("/tmp/allowed_files/a.txt").unwrap(), "text/plain");
    assert_eq!(guess_mime_type("notes.md").unwrap(), "text/markdown");
    assert_eq!(guess_mime_type("x/main.rs").unwrap(), "text/x-rust");
    assert_eq!(guess_mime_type("a.yml").unwrap(), "application/x-yaml");
    assert_eq!(guess_mime_type("a.yaml").unwrap(), "application/x-yaml");
    assert_eq!(guess_mime_type("Cargo.toml").unwrap(), "application/toml");
    assert_eq!(guess_mime_type("dir.txt/file.json").unwrap(), "application/json");
    assert!(guess_mime_type("README").is_none());
    assert!(guess_mime_type(".txt").is_none());
    assert!(guess_mime_type("a.png").is_none());
    assert_eq!(mime_type_for_extension("css").unwrap(), "text/css");
    assert!(mime_type_for_extension("TXT").is_none());
}

#[test]
fn tool_definition_carries_its_schema() {
    let t = get_tool_definition();
    assert_eq!(t.name, "file_read");
    assert!(t.description.unwrap().contains("/tmp/allowed_files/"));
    let schema = t.inputSchema.unwrap();
    assert_eq!(schema["type"], serde_json::Value::String("object".to_string()));
    assert_eq!(schema["required"][0], serde_json::Value::String("path".to_string()));
}

#[test]
fn server_configuration() {
    let mut server = McpServer::new();
    assert_eq!(server.port(), 8080);
    server.add_tool(get_tool_definition());
    let state = server.into_state();
    assert_eq!(state.get_tools().len(), 1);
    assert_eq!(McpServer::with_port(3000).port(), 3000);
}
