use mcp::mcp::{
    accept_response, is_success_status, new_request, ErrorKind, Exchange, JsonRpcError,
    JsonRpcResponse, McpError,
};
use mcp::text::{decimal_string, has_prefix, same_text, signed_decimal_string};
use serde_json::Value;

fn envelope(id: &str, result: Option<Value>, error: Option<JsonRpcError>) -> Exchange<JsonRpcResponse> {
    Exchange::Delivered(Ok(JsonRpcResponse {
        jsonrpc: "2.0".to_string(),
        id: id.to_string(),
        result,
        error,
    }))
}

#[test]
fn requests_get_fresh_ids() {
    let a = new_request("tools/list", None);
    let b = new_request("tools/list", None);
    assert_eq!(a.jsonrpc, "2.0");
    assert_eq!(a.method, "tools/list");
    assert!(a.params.is_none());
    assert_eq!(a.id.len(), 36);
    assert_eq!(a.id.matches('-').count(), 4);
    assert_ne!(a.id, b.id);
}

#[test]
fn matching_reply_yields_result() {
    let r = accept_response("abc", envelope("abc", Some(Value::Bool(true)), None));
    assert_eq!(r.ok().unwrap(), Value::Bool(true));
}

#[test]
fn mismatched_id_is_protocol_error() {
    let r = accept_response("abc", envelope("xyz", Some(Value::Bool(true)), None));
    match r {
        Err(e) => {
            assert!(e.kind() == ErrorKind::Protocol);
            assert!(matches!(&e, McpError::IdMismatch { sent, received } if sent == "abc" && received == "xyz"));
            assert_eq!(e.describe(), "response id xyz does not match request id abc");
        }
        Ok(_) => panic!("expected a protocol error"),
    }
}

#[test]
fn error_member_is_protocol_error() {
    let err = JsonRpcError { code: -32601, message: "Method not found".to_string(), data: None };
    let r = accept_response("1", envelope("1", None, Some(err)));
    match r {
        Err(e) => {
            assert!(e.kind() == ErrorKind::Protocol);
            assert_eq!(e.describe(), "MCP server error -32601: Method not found");
        }
        Ok(_) => panic!("expected a protocol error"),
    }
}

#[test]
fn error_member_wins_over_result() {
    let err = JsonRpcError { code: -32602, message: "bad".to_string(), data: None };
    let r = accept_response("1", envelope("1", Some(Value::Null), Some(err)));
    assert!(matches!(r, Err(McpError::Protocol { code: -32602, .. })));
}

#[test]
fn empty_reply_fails_distinctly() {
    let r = accept_response("1", envelope("1", None, None));
    match r {
        Err(e) => {
            assert!(matches!(e, McpError::EmptyResponse));
            assert!(e.kind() == ErrorKind::Protocol);
            assert_eq!(e.describe(), "empty response");
        }
        Ok(_) => panic!("expected a failure"),
    }
}

#[test]
fn malformed_body_is_protocol_error() {
    let r = accept_response("1", Exchange::Delivered(Err("expected value".to_string())));
    match r {
        Err(e) => {
            assert!(e.kind() == ErrorKind::Protocol);
            assert_eq!(e.describe(), "malformed response: expected value");
        }
        Ok(_) => panic!("expected a failure"),
    }
}

#[test]
fn transport_failures_are_told_apart() {
    let refused = accept_response(
        "1",
        Exchange::Failed { timed_out: false, reason: "connection refused".to_string() },
    );
    let slow = accept_response("1", Exchange::Failed { timed_out: true, reason: "deadline".to_string() });
    let rejected = accept_response(
        "1",
        Exchange::Rejected { status: 503, body: "unavailable".to_string() },
    );
    match (refused, slow, rejected) {
        (Err(a), Err(b), Err(c)) => {
            assert!(a.kind() == ErrorKind::Transport);
            assert!(b.kind() == ErrorKind::Transport);
            assert!(c.kind() == ErrorKind::Transport);
            assert!(matches!(a, McpError::Unreachable(_)));
            assert!(matches!(b, McpError::TimedOut(_)));
            assert_eq!(a.describe(), "connection failed: connection refused");
            assert_eq!(b.describe(), "request timed out: deadline");
            assert_eq!(c.describe(), "HTTP error 503: unavailable");
        }
        _ => panic!("expected failures"),
    }
}

#[test]
fn decode_failure_kind() {
    let e = McpError::Decode("missing field `tools`".to_string());
    assert!(e.kind() == ErrorKind::Decode);
    assert_eq!(e.describe(), "unexpected result: missing field `tools`");
}

#[test]
fn success_statuses() {
    assert!(is_success_status(200));
    assert!(is_success_status(299));
    assert!(!is_success_status(199));
    assert!(!is_success_status(300));
    assert!(!is_success_status(404));
}

#[test]
fn decimal_rendering() {
    assert_eq!(decimal_string(0), "0");
    assert_eq!(decimal_string(7), "7");
    assert_eq!(decimal_string(1234567890), "1234567890");
    assert_eq!(decimal_string(u64::MAX), "18446744073709551615");
    assert_eq!(signed_decimal_string(-32700), "-32700");
    assert_eq!(signed_decimal_string(i64::MIN), "-9223372036854775808");
    assert_eq!(signed_decimal_string(42), "42");
}

#[test]
fn prefix_and_equality() {
    assert!(has_prefix("tools/call", "tools/"));
    assert!(has_prefix("abc", ""));
    assert!(!has_prefix("ab", "abc"));
    assert!(!has_prefix("abd", "abc"));
    assert!(same_text("tools/list", "tools/list"));
    assert!(!same_text("tools/list", "tools/call"));
    assert!(!same_text("a", "ab"));
}
