//! JSON-RPC 2.0 envelopes, tool definitions and the tool registry.

use vstd::prelude::*;
use vstd::string::*;
use crate::text::{concat2, concat3, decimal, decimal_string, same_text, signed_decimal, signed_decimal_string};

verus! {

/// A JSON value carried through the library without being read.
#[verifier::external_type_specification]
#[verifier::external_body]
pub struct ExValue(serde_json::Value);

/// Relies on the derived `Clone` of `serde_json::Value`: a deep copy, equal to the value copied.
pub assume_specification[ <serde_json::Value as Clone>::clone ](v: &serde_json::Value) -> (r:
    serde_json::Value)
    ensures
        r == *v,
;

/// The characters of an optional string.
pub open spec fn opt_text(o: Option<String>) -> Option<Seq<char>> {
    match o {
        Some(s) => Some(s@),
        None => None,
    }
}

/// Copies an optional string.
pub fn copy_opt_text(o: &Option<String>) -> (r: Option<String>)
    ensures
        opt_text(r) == opt_text(*o),
{
    match o {
        Some(s) => Some(s.clone()),
        None => None,
    }
}

/// Copies an optional JSON value.
pub fn copy_opt_value(o: &Option<serde_json::Value>) -> (r: Option<serde_json::Value>)
    ensures
        r == *o,
{
    match o {
        Some(v) => Some(v.clone()),
        None => None,
    }
}

/// A tool definition: its unique name, a description and the schema of its input.
#[allow(non_snake_case)]
pub struct McpTool {
    pub name: String,
    pub description: Option<String>,
    pub inputSchema: Option<serde_json::Value>,
}

/// What a tool definition holds.
pub struct McpToolView {
    pub name: Seq<char>,
    pub description: Option<Seq<char>>,
    pub input_schema: Option<serde_json::Value>,
}

impl View for McpTool {
    type V = McpToolView;

    open spec fn view(&self) -> McpToolView {
        McpToolView {
            name: self.name@,
            description: opt_text(self.description),
            input_schema: self.inputSchema,
        }
    }
}

impl McpTool {
    /// A copy of this definition.
    pub fn duplicate(&self) -> (r: McpTool)
        ensures
            r@ == self@,
    {
        McpTool {
            name: self.name.clone(),
            description: copy_opt_text(&self.description),
            inputSchema: copy_opt_value(&self.inputSchema),
        }
    }
}

/// The views of a sequence of tool definitions.
pub open spec fn tool_views(s: Seq<McpTool>) -> Seq<McpToolView> {
    s.map_values(|t: McpTool| t@)
}

/// No two entries share a name.
pub open spec fn names_unique(s: Seq<McpToolView>) -> bool {
    forall|i: int, j: int| 0 <= i < j < s.len() ==> s[i].name != s[j].name
}

/// Some entry carries the name `name`.
pub open spec fn has_name(s: Seq<McpToolView>, name: Seq<char>) -> bool {
    exists|i: int| 0 <= i < s.len() && s[i].name == name
}

/// The registry `reg` after registering `t`: an entry of the same name is replaced,
/// else `t` is added.
pub open spec fn apply_add(reg: Seq<McpToolView>, t: McpToolView) -> Seq<McpToolView> {
    if has_name(reg, t.name) {
        reg.update(choose|i: int| 0 <= i < reg.len() && reg[i].name == t.name, t)
    } else {
        reg.push(t)
    }
}

/// The registry after registering each of `adds`, in order, starting empty.
pub open spec fn register_all(adds: Seq<McpToolView>) -> Seq<McpToolView>
    decreases adds.len(),
{
    if adds.len() == 0 {
        Seq::empty()
    } else {
        apply_add(register_all(adds.drop_last()), adds.last())
    }
}

/// `adds[i]` is the last registration of its name in `adds`.
pub open spec fn is_last_of_name(adds: Seq<McpToolView>, i: int) -> bool {
    &&& 0 <= i < adds.len()
    &&& forall|j: int| i < j < adds.len() ==> adds[j].name != adds[i].name
}

proof fn lemma_apply_add(reg: Seq<McpToolView>, t: McpToolView)
    requires
        names_unique(reg),
    ensures
        names_unique(apply_add(reg, t)),
        forall|u: McpToolView|
            #[trigger] apply_add(reg, t).contains(u) <==> (u == t || (reg.contains(u) && u.name
                != t.name)),
{
    let r = apply_add(reg, t);
    if has_name(reg, t.name) {
        let i = choose|i: int| 0 <= i < reg.len() && reg[i].name == t.name;
        assert forall|u: McpToolView| r.contains(u) <==> (u == t || (reg.contains(u) && u.name
            != t.name)) by {
            if r.contains(u) {
                let k = choose|k: int| 0 <= k < r.len() && r[k] == u;
                if k != i {
                    assert(reg[k] == u);
                }
            }
            if u == t {
                assert(r[i] == u);
            } else if reg.contains(u) && u.name != t.name {
                let k = choose|k: int| 0 <= k < reg.len() && reg[k] == u;
                assert(k != i);
                assert(r[k] == u);
            }
        }
    } else {
        assert forall|u: McpToolView| r.contains(u) <==> (u == t || (reg.contains(u) && u.name
            != t.name)) by {
            if r.contains(u) {
                let k = choose|k: int| 0 <= k < r.len() && r[k] == u;
                if k < reg.len() {
                    assert(reg[k] == u);
                }
            }
            if u == t {
                assert(r[reg.len() as int] == u);
            } else if reg.contains(u) {
                let k = choose|k: int| 0 <= k < reg.len() && reg[k] == u;
                assert(r[k] == u);
            }
        }
    }
}

/// Whatever the order of registration, the registry holds exactly the last
/// registration of each name, each name once.
pub proof fn lemma_registered_set(adds: Seq<McpToolView>)
    ensures
        names_unique(register_all(adds)),
        forall|u: McpToolView|
            register_all(adds).contains(u) <==> exists|i: int|
                is_last_of_name(adds, i) && adds[i] == u,
    decreases adds.len(),
{
    if adds.len() == 0 {
        assert(register_all(adds) =~= Seq::<McpToolView>::empty());
    } else {
        let prefix = adds.drop_last();
        let t = adds.last();
        let n = adds.len() - 1;
        lemma_registered_set(prefix);
        lemma_apply_add(register_all(prefix), t);
        assert(register_all(adds) == apply_add(register_all(prefix), t));
        assert forall|u: McpToolView|
            register_all(adds).contains(u) <==> exists|i: int|
                is_last_of_name(adds, i) && adds[i] == u by {
            if register_all(adds).contains(u) {
                if u == t {
                    assert(is_last_of_name(adds, n) && adds[n] == u);
                } else {
                    assert(register_all(prefix).contains(u) && u.name != t.name);
                    let i = choose|i: int| is_last_of_name(prefix, i) && prefix[i] == u;
                    assert forall|j: int| i < j < adds.len() implies adds[j].name != adds[i].name by {
                        if j < n {
                            assert(prefix[j] == adds[j]);
                        }
                    }
                    assert(is_last_of_name(adds, i) && adds[i] == u);
                }
            }
            if exists|i: int| is_last_of_name(adds, i) && adds[i] == u {
                let i = choose|i: int| is_last_of_name(adds, i) && adds[i] == u;
                if i < n {
                    assert(adds[n].name != u.name);
                    assert forall|j: int| i < j < prefix.len() implies prefix[j].name
                        != prefix[i].name by {
                        assert(prefix[j] == adds[j]);
                    }
                    assert(is_last_of_name(prefix, i) && prefix[i] == u);
                    assert(register_all(prefix).contains(u));
                    assert(register_all(adds).contains(u));
                } else {
                    assert(u == t);
                    assert(apply_add(register_all(prefix), t).contains(u));
                }
            }
        }
    }
}

/// The registered tools, keyed by name: the last registration for a name wins.
pub struct McpServerState {
    tools: Vec<McpTool>,
}

impl View for McpServerState {
    type V = Seq<McpToolView>;

    closed spec fn view(&self) -> Seq<McpToolView> {
        tool_views(self.tools@)
    }
}

impl McpServerState {
    /// Names are unique.
    pub open spec fn wf(&self) -> bool {
        names_unique(self@)
    }

    /// An empty registry.
    pub fn new() -> (r: McpServerState)
        ensures
            r.wf(),
            r@.len() == 0,
    {
        let r = McpServerState { tools: Vec::new() };
        assert(r@ =~= Seq::<McpToolView>::empty());
        r
    }

    fn position(&self, name: &str) -> (r: Option<usize>)
        requires
            self.wf(),
        ensures
            match r {
                Some(i) => i < self@.len() && self@[i as int].name == name@,
                None => !has_name(self@, name@),
            },
    {
        let mut i: usize = 0;
        while i < self.tools.len()
            invariant
                i <= self.tools@.len(),
                self@ == tool_views(self.tools@),
                forall|j: int| 0 <= j < i ==> self@[j].name != name@,
            decreases self.tools@.len() - i,
        {
            if crate::text::same_text(self.tools[i].name.as_str(), name) {
                return Some(i);
            }
            i = i + 1;
        }
        None
    }

    /// Registers `tool`, replacing any tool of the same name.
    pub fn add_tool(&mut self, tool: McpTool)
        requires
            old(self).wf(),
        ensures
            final(self).wf(),
            has_name(old(self)@, tool.name@) ==> exists|i: int|
                0 <= i < old(self)@.len() && old(self)@[i].name == tool.name@ && final(self)@
                    == old(self)@.update(i, tool@),
            !has_name(old(self)@, tool.name@) ==> final(self)@ == old(self)@.push(tool@),
            final(self)@ == apply_add(old(self)@, tool@),
    {
        let ghost before = self@;
        match self.position(tool.name.as_str()) {
            Some(i) => {
                let ghost t = tool@;
                self.tools.set(i, tool);
                assert(self@ =~= before.update(i as int, t));
            },
            None => {
                let ghost t = tool@;
                self.tools.push(tool);
                assert(self@ =~= before.push(t));
            },
        }
    }

    /// A snapshot of all registered tools.
    pub fn get_tools(&self) -> (r: Vec<McpTool>)
        ensures
            tool_views(r@) == self@,
    {
        let mut r: Vec<McpTool> = Vec::new();
        let mut i: usize = 0;
        while i < self.tools.len()
            invariant
                i <= self.tools@.len(),
                self@ == tool_views(self.tools@),
                tool_views(r@) == self@.subrange(0, i as int),
            decreases self.tools@.len() - i,
        {
            let t = self.tools[i].duplicate();
            let ghost prev = r@;
            r.push(t);
            assert(r@ == prev.push(t));
            assert(tool_views(r@) =~= tool_views(prev).push(self@[i as int]));
            i = i + 1;
            assert(tool_views(r@) =~= self@.subrange(0, i as int));
        }
        assert(self@.subrange(0, i as int) =~= self@);
        r
    }

    /// The tool registered under `name`, if any.
    pub fn get_tool(&self, name: &str) -> (r: Option<McpTool>)
        requires
            self.wf(),
        ensures
            r.is_some() == has_name(self@, name@),
            r matches Some(t) ==> exists|i: int|
                0 <= i < self@.len() && self@[i] == t@ && t@.name == name@,
    {
        match self.position(name) {
            Some(i) => Some(self.tools[i].duplicate()),
            None => None,
        }
    }
}

} // verus!

verus! {

/// Malformed JSON.
pub const PARSE_ERROR: i32 = -32700;

/// A well-formed body that is not a request envelope.
pub const INVALID_REQUEST: i32 = -32600;

/// Unknown method, or unknown tool.
pub const METHOD_NOT_FOUND: i32 = -32601;

/// Missing or ill-shaped params.
pub const INVALID_PARAMS: i32 = -32602;

/// The error member of a JSON-RPC response.
pub struct JsonRpcError {
    pub code: i32,
    pub message: String,
    pub data: Option<serde_json::Value>,
}

/// The protocol version that every envelope carries.
pub fn protocol_version() -> (r: String)
    ensures
        r@ == "2.0"@,
{
    String::from_str("2.0")
}

} // verus!

verus! {

/// A request envelope as the client sends it.
pub struct JsonRpcRequest {
    pub jsonrpc: String,
    pub id: String,
    pub method: String,
    pub params: Option<serde_json::Value>,
}

/// A response envelope as the client receives it.
pub struct JsonRpcResponse {
    pub jsonrpc: String,
    pub id: String,
    pub result: Option<serde_json::Value>,
    pub error: Option<JsonRpcError>,
}

/// Relies on `uuid::Uuid::new_v4` and its `Display`: a fresh random identifier in
/// hyphenated form, 36 characters long.
#[verifier::external_body]
fn generate_id() -> (r: String)
    ensures
        r@.len() == 36,
{
    uuid::Uuid::new_v4().to_string()
}

/// A request for `method` with `params`, under a fresh correlation id.
pub fn new_request(method: &str, params: Option<serde_json::Value>) -> (r: JsonRpcRequest)
    ensures
        r.jsonrpc@ == "2.0"@,
        r.method@ == method@,
        r.params == params,
        r.id@.len() == 36,
{
    JsonRpcRequest {
        jsonrpc: protocol_version(),
        id: generate_id(),
        method: String::from_str(method),
        params,
    }
}

/// What one network exchange produced, as seen by the side that sent the request.
pub enum Exchange<T> {
    /// No response: the connection failed, or the timeout passed first.
    Failed { timed_out: bool, reason: String },
    /// A response whose status is not a success, with its body.
    Rejected { status: u16, body: String },
    /// A successful response, decoded into the expected shape or not.
    Delivered(Result<T, String>),
}

/// Whether an HTTP status reports success.
pub fn is_success_status(status: u16) -> (r: bool)
    ensures
        r == (200 <= status < 300),
{
    200 <= status && status < 300
}

/// The kinds of failure that callers tell apart. A tool that runs and fails is no
/// failure here: its report comes back as content.
#[derive(PartialEq, Eq, Structural)]
pub enum ErrorKind {
    /// Connection, timeout or HTTP status.
    Transport,
    /// An error member, or an envelope that is missing, empty or answers another request.
    Protocol,
    /// A result of the wrong shape.
    Decode,
}

/// A failed call to the tool server or to the completion endpoint.
pub enum McpError {
    /// The server could not be reached.
    Unreachable(String),
    /// The server did not answer in time.
    TimedOut(String),
    /// The server answered with a failure status.
    HttpStatus { status: u16, body: String },
    /// The envelope carries an error member.
    Protocol { code: i32, message: String, data: Option<serde_json::Value> },
    /// The body is not a response envelope.
    Malformed(String),
    /// The envelope answers another request.
    IdMismatch { sent: String, received: String },
    /// The envelope carries neither a result nor an error.
    EmptyResponse,
    /// The result does not have the shape the call expects.
    Decode(String),
}

/// The kind of a failure.
pub open spec fn kind_of(e: McpError) -> ErrorKind {
    match e {
        McpError::Unreachable(_) | McpError::TimedOut(_) | McpError::HttpStatus { .. } => ErrorKind::Transport,
        McpError::Protocol { .. } | McpError::Malformed(_) | McpError::IdMismatch { .. }
        | McpError::EmptyResponse => ErrorKind::Protocol,
        McpError::Decode(_) => ErrorKind::Decode,
    }
}

/// The human-readable text of a failure.
pub open spec fn describe_error(e: McpError) -> Seq<char> {
    match e {
        McpError::Unreachable(reason) => "connection failed: "@ + reason@,
        McpError::TimedOut(reason) => "request timed out: "@ + reason@,
        McpError::HttpStatus { status, body } => "HTTP error "@ + decimal(status as nat) + ": "@
            + body@,
        McpError::Protocol { code, message, .. } => "MCP server error "@ + signed_decimal(
            code as int,
        ) + ": "@ + message@,
        McpError::Malformed(reason) => "malformed response: "@ + reason@,
        McpError::IdMismatch { sent, received } => "response id "@ + received@
            + " does not match request id "@ + sent@,
        McpError::EmptyResponse => "empty response"@,
        McpError::Decode(reason) => "unexpected result: "@ + reason@,
    }
}

impl McpError {
    /// The kind of this failure.
    pub fn kind(&self) -> (r: ErrorKind)
        ensures
            r == kind_of(*self),
    {
        match self {
            McpError::Unreachable(_) | McpError::TimedOut(_) | McpError::HttpStatus { .. } => ErrorKind::Transport,
            McpError::Protocol { .. } | McpError::Malformed(_) | McpError::IdMismatch { .. }
            | McpError::EmptyResponse => ErrorKind::Protocol,
            McpError::Decode(_) => ErrorKind::Decode,
        }
    }

    /// The human-readable text of this failure.
    pub fn describe(&self) -> (r: String)
        ensures
            r@ == describe_error(*self),
    {
        match self {
            McpError::Unreachable(reason) => concat2("connection failed: ", reason.as_str()),
            McpError::TimedOut(reason) => concat2("request timed out: ", reason.as_str()),
            McpError::HttpStatus { status, body } => {
                let digits = decimal_string(*status as u64);
                let mut s = concat3("HTTP error ", digits.as_str(), ": ");
                s.append(body.as_str());
                s
            },
            McpError::Protocol { code, message, .. } => {
                let digits = signed_decimal_string(*code as i64);
                let mut s = concat3("MCP server error ", digits.as_str(), ": ");
                s.append(message.as_str());
                s
            },
            McpError::Malformed(reason) => concat2("malformed response: ", reason.as_str()),
            McpError::IdMismatch { sent, received } => {
                let mut s = concat3("response id ", received.as_str(), " does not match request id ");
                s.append(sent.as_str());
                s
            },
            McpError::EmptyResponse => String::from_str("empty response"),
            McpError::Decode(reason) => concat2("unexpected result: ", reason.as_str()),
        }
    }
}

/// The failure that an exchange without a delivered body stands for.
pub open spec fn transport_failure<T>(exchange: Exchange<T>, e: McpError) -> bool {
    match exchange {
        Exchange::Failed { timed_out: true, reason } => e matches McpError::TimedOut(r) && r@ == reason@,
        Exchange::Failed { timed_out: false, reason } => e matches McpError::Unreachable(r) && r@
            == reason@,
        Exchange::Rejected { status, body } => e matches McpError::HttpStatus { status: s, body: b }
            && s == status && b@ == body@,
        Exchange::Delivered(_) => false,
    }
}

/// What the client makes of the exchange for a request sent under `sent_id`.
pub open spec fn accepted(
    sent_id: Seq<char>,
    exchange: Exchange<JsonRpcResponse>,
    r: Result<serde_json::Value, McpError>,
) -> bool {
    match exchange {
        Exchange::Delivered(Err(reason)) => r matches Err(McpError::Malformed(m)) && m@ == reason@,
        Exchange::Delivered(Ok(resp)) => if resp.id@ != sent_id {
            r matches Err(McpError::IdMismatch { sent, received }) && sent@ == sent_id && received@
                == resp.id@
        } else {
            match resp.error {
                Some(err) => r matches Err(McpError::Protocol { code, message, data }) && code
                    == err.code && message@ == err.message@ && data == err.data,
                None => match resp.result {
                    Some(v) => r == Ok::<serde_json::Value, McpError>(v),
                    None => r matches Err(McpError::EmptyResponse),
                },
            }
        },
        _ => match r {
            Err(e) => transport_failure(exchange, e),
            Ok(_) => false,
        },
    }
}

/// The failure that an exchange without a delivered body stands for.
pub fn transport_error<T>(exchange: Exchange<T>) -> (r: McpError)
    requires
        !(exchange is Delivered),
    ensures
        transport_failure(exchange, r),
{
    match exchange {
        Exchange::Failed { timed_out, reason } => if timed_out {
            McpError::TimedOut(reason)
        } else {
            McpError::Unreachable(reason)
        },
        Exchange::Rejected { status, body } => McpError::HttpStatus { status, body },
        Exchange::Delivered(_) => McpError::EmptyResponse,
    }
}

/// Unwraps the result of a call sent under `sent_id`: the reply must echo that id,
/// and carry a result rather than an error.
pub fn accept_response(sent_id: &str, exchange: Exchange<JsonRpcResponse>) -> (r: Result<
    serde_json::Value,
    McpError,
>)
    ensures
        accepted(sent_id@, exchange, r),
{
    match exchange {
        Exchange::Delivered(Err(reason)) => Err(McpError::Malformed(reason)),
        Exchange::Delivered(Ok(resp)) => {
            if !same_text(resp.id.as_str(), sent_id) {
                return Err(McpError::IdMismatch { sent: String::from_str(sent_id), received: resp.id });
            }
            match resp.error {
                Some(err) => Err(McpError::Protocol { code: err.code, message: err.message, data: err.data }),
                None => match resp.result {
                    Some(v) => Ok(v),
                    None => Err(McpError::EmptyResponse),
                },
            }
        },
        _ => Err(transport_error(exchange)),
    }
}

/// Correlation: a call is accepted only where the reply echoes the id it was sent
/// under; a reply under another id is a protocol failure.
pub proof fn lemma_accepted_only_on_matching_id(
    sent_id: Seq<char>,
    exchange: Exchange<JsonRpcResponse>,
    r: Result<serde_json::Value, McpError>,
)
    requires
        accepted(sent_id, exchange, r),
    ensures
        r is Ok ==> (exchange matches Exchange::Delivered(Ok(resp)) && resp.id@ == sent_id),
        (exchange matches Exchange::Delivered(Ok(resp)) && resp.id@ != sent_id) ==> (r matches Err(
            e
        ) && kind_of(e) == ErrorKind::Protocol),
{
}

} // verus!
