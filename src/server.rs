//! The JSON-RPC server: dispatch of `tools/list` and `tools/call` against the
//! registry, and the replies that come of it.

use vstd::prelude::*;
use vstd::string::*;
use crate::file_read::{
    FileReadError, FileReadRequest, FileReadResponse, error_text, sandbox_root, is_within_sandbox,
};
use crate::mcp::{
    apply_add, names_unique, INVALID_PARAMS, JsonRpcError, METHOD_NOT_FOUND, McpServerState, McpTool, McpToolView, has_name,
    opt_text, protocol_version, tool_views,
};
use crate::text::{decimal, decimal_string, same_text, starts_with};

verus! {

/// The `arguments` member of a `tools/call` request.
pub struct ToolArguments {
    /// The value as received, rendered for display.
    pub text: String,
    /// The value read as the parameters of `file_read`, or why it could not be.
    pub file_read: Result<FileReadRequest, String>,
}

/// The params of a `tools/call` request, once decoded as `{name, arguments}`.
pub struct ToolsCallRequest {
    pub name: String,
    /// `None` where the member is absent or null.
    pub arguments: Option<ToolArguments>,
}

/// What the `params` member of a request decoded to.
pub enum CallParams {
    /// The member is absent.
    Missing,
    /// The member does not have the shape `{name, arguments}`; the reason is given.
    Invalid(String),
    Valid(ToolsCallRequest),
}

/// A request envelope as the server reads it.
pub struct IncomingRequest {
    pub id: String,
    pub method: String,
    pub params: CallParams,
}

/// One block of a tool's output.
pub struct ToolContent {
    pub content_type: String,
    pub text: String,
}

/// The result of `tools/call`.
pub struct ToolsCallResponse {
    pub content: Vec<ToolContent>,
}

/// The result of `tools/list`.
pub struct ToolsListResponse {
    pub tools: Vec<McpTool>,
}

/// The result member of a successful reply.
pub enum RpcResult {
    ToolsList(ToolsListResponse),
    ToolsCall(ToolsCallResponse),
}

/// A response envelope: a result or an error, never both.
pub struct ServerReply {
    pub jsonrpc: String,
    pub id: String,
    pub outcome: Result<RpcResult, JsonRpcError>,
}

/// What the server does next with a request.
pub enum ServerStep {
    /// Send this reply.
    Reply(ServerReply),
    /// Read the file named by `request`, whose path lies in the sandbox, and
    /// finish with `finish_file_read`.
    ReadFile { id: String, request: FileReadRequest },
}

/// `reply` answers `id` with an error of the given code and message.
pub open spec fn is_error_reply(reply: ServerReply, id: Seq<char>, code: i32, message: Seq<char>) -> bool {
    reply.jsonrpc@ == "2.0"@ && reply.id@ == id && match reply.outcome {
        Err(e) => e.code == code && e.message@ == message && e.data.is_none(),
        Ok(_) => false,
    }
}

/// `reply` answers `id` with a single text block holding `text`.
pub open spec fn is_text_reply(reply: ServerReply, id: Seq<char>, text: Seq<char>) -> bool {
    reply.jsonrpc@ == "2.0"@ && reply.id@ == id && match reply.outcome {
        Ok(RpcResult::ToolsCall(resp)) => resp.content@.len() == 1 && resp.content@[0].content_type@
            == "text"@ && resp.content@[0].text@ == text,
        _ => false,
    }
}

/// `step` sends an error reply.
pub open spec fn is_error_step(step: ServerStep, id: Seq<char>, code: i32, message: Seq<char>) -> bool {
    match step {
        ServerStep::Reply(r) => is_error_reply(r, id, code, message),
        _ => false,
    }
}

/// `step` sends a text reply.
pub open spec fn is_text_step(step: ServerStep, id: Seq<char>, text: Seq<char>) -> bool {
    match step {
        ServerStep::Reply(r) => is_text_reply(r, id, text),
        _ => false,
    }
}

/// How the arguments of a tool call are shown back to the caller.
pub open spec fn arguments_text(arguments: Option<ToolArguments>) -> Seq<char> {
    match arguments {
        Some(a) => "Some("@ + a.text@ + ")"@,
        None => "None"@,
    }
}

/// The text that `file_read` reports, by its outcome.
pub open spec fn file_read_text(outcome: Result<FileReadResponse, FileReadError>) -> Seq<char> {
    match outcome {
        Ok(resp) => "File: "@ + resp.path@ + "\nSize: "@ + decimal(resp.size as nat)
            + " bytes\nMIME Type: "@ + match opt_text(resp.mime_type) {
            Some(m) => m,
            None => "unknown"@,
        } + "\n\nContent:\n"@ + resp.content@,
        Err(e) => "Error reading file: "@ + error_text(e),
    }
}

/// What the server does with `req`, given the registered tools `reg`.
pub open spec fn dispatch(reg: Seq<McpToolView>, req: IncomingRequest, step: ServerStep) -> bool {
    let id = req.id@;
    if req.method@ == "tools/list"@ {
        match step {
            ServerStep::Reply(r) => r.jsonrpc@ == "2.0"@ && r.id@ == id && match r.outcome {
                Ok(RpcResult::ToolsList(l)) => tool_views(l.tools@) == reg,
                _ => false,
            },
            _ => false,
        }
    } else if req.method@ == "tools/call"@ {
        match req.params {
            CallParams::Missing => is_error_step(step, id, INVALID_PARAMS, "Missing params"@),
            CallParams::Invalid(reason) => is_error_step(
                step,
                id,
                INVALID_PARAMS,
                "Invalid params: "@ + reason@,
            ),
            CallParams::Valid(call) => if !has_name(reg, call.name@) {
                is_error_step(step, id, METHOD_NOT_FOUND, "Tool '"@ + call.name@ + "' not found"@)
            } else if call.name@ == "file_read"@ {
                match call.arguments {
                    None => is_error_step(
                        step,
                        id,
                        INVALID_PARAMS,
                        "file_read tool requires arguments"@,
                    ),
                    Some(args) => match args.file_read {
                        Err(reason) => is_error_step(
                            step,
                            id,
                            INVALID_PARAMS,
                            "Invalid file_read arguments: "@ + reason@,
                        ),
                        Ok(fr) => if starts_with(fr.path@, sandbox_root()) {
                            match step {
                                ServerStep::ReadFile { id: i, request } => i@ == id
                                    && request.path@ == fr.path@,
                                _ => false,
                            }
                        } else {
                            is_text_step(
                                step,
                                id,
                                file_read_text(Err(FileReadError::AccessDenied)),
                            )
                        },
                    },
                }
            } else {
                is_text_step(
                    step,
                    id,
                    "Tool '"@ + call.name@ + "' executed successfully with arguments: "@
                        + arguments_text(call.arguments),
                )
            },
        }
    } else {
        is_error_step(step, id, METHOD_NOT_FOUND, "Method not found"@)
    }
}

/// An error reply to `id`.
pub fn error_reply(id: String, code: i32, message: String) -> (r: ServerReply)
    ensures
        is_error_reply(r, id@, code, message@),
{
    ServerReply {
        jsonrpc: protocol_version(),
        id,
        outcome: Err(JsonRpcError { code, message, data: None }),
    }
}

/// A successful `tools/call` reply to `id` with one text block.
pub fn text_reply(id: String, text: String) -> (r: ServerReply)
    ensures
        is_text_reply(r, id@, text@),
{
    let mut content: Vec<ToolContent> = Vec::new();
    content.push(ToolContent { content_type: String::from_str("text"), text });
    ServerReply {
        jsonrpc: protocol_version(),
        id,
        outcome: Ok(RpcResult::ToolsCall(ToolsCallResponse { content })),
    }
}

/// Renders the outcome of `file_read` as the text block of its reply.
pub fn file_read_report(outcome: &Result<FileReadResponse, FileReadError>) -> (r: String)
    ensures
        r@ == file_read_text(*outcome),
{
    match outcome {
        Ok(resp) => {
            let mut s = String::from_str("File: ");
            s.append(resp.path.as_str());
            s.append("\nSize: ");
            let size = decimal_string(resp.size as u64);
            s.append(size.as_str());
            s.append(" bytes\nMIME Type: ");
            match &resp.mime_type {
                Some(m) => s.append(m.as_str()),
                None => s.append("unknown"),
            }
            s.append("\n\nContent:\n");
            s.append(resp.content.as_str());
            s
        },
        Err(e) => {
            let mut s = String::from_str("Error reading file: ");
            let m = e.message();
            s.append(m.as_str());
            s
        },
    }
}

/// The reply to a `file_read` call on `id`, given its outcome. A failure of the
/// tool is reported as content, not as a protocol error.
pub fn finish_file_read(id: String, outcome: Result<FileReadResponse, FileReadError>) -> (r:
    ServerReply)
    ensures
        is_text_reply(r, id@, file_read_text(outcome)),
{
    let text = file_read_report(&outcome);
    text_reply(id, text)
}

fn describe_arguments(arguments: &Option<ToolArguments>) -> (r: String)
    ensures
        r@ == arguments_text(*arguments),
{
    match arguments {
        Some(a) => {
            let mut s = String::from_str("Some(");
            s.append(a.text.as_str());
            s.append(")");
            s
        },
        None => String::from_str("None"),
    }
}

/// Dispatches one request against the registry.
pub fn handle_jsonrpc(state: &McpServerState, request: IncomingRequest) -> (r: ServerStep)
    requires
        state.wf(),
    ensures
        dispatch(state@, request, r),
{
    let ghost req = request;
    let IncomingRequest { id, method, params } = request;
    if same_text(method.as_str(), "tools/list") {
        let tools = state.get_tools();
        return ServerStep::Reply(
            ServerReply {
                jsonrpc: protocol_version(),
                id,
                outcome: Ok(RpcResult::ToolsList(ToolsListResponse { tools })),
            },
        );
    }
    if !same_text(method.as_str(), "tools/call") {
        return ServerStep::Reply(error_reply(id, METHOD_NOT_FOUND, String::from_str("Method not found")));
    }
    match params {
        CallParams::Missing => ServerStep::Reply(
            error_reply(id, INVALID_PARAMS, String::from_str("Missing params")),
        ),
        CallParams::Invalid(reason) => {
            let mut message = String::from_str("Invalid params: ");
            message.append(reason.as_str());
            ServerStep::Reply(error_reply(id, INVALID_PARAMS, message))
        },
        CallParams::Valid(call) => {
            let registered = state.get_tool(call.name.as_str()).is_some();
            if !registered {
                let mut message = String::from_str("Tool '");
                message.append(call.name.as_str());
                message.append("' not found");
                return ServerStep::Reply(error_reply(id, METHOD_NOT_FOUND, message));
            }
            if same_text(call.name.as_str(), "file_read") {
                match call.arguments {
                    None => ServerStep::Reply(
                        error_reply(
                            id,
                            INVALID_PARAMS,
                            String::from_str("file_read tool requires arguments"),
                        ),
                    ),
                    Some(args) => match args.file_read {
                        Err(reason) => {
                            let mut message = String::from_str("Invalid file_read arguments: ");
                            message.append(reason.as_str());
                            ServerStep::Reply(error_reply(id, INVALID_PARAMS, message))
                        },
                        Ok(fr) => {
                            if is_within_sandbox(fr.path.as_str()) {
                                ServerStep::ReadFile { id, request: fr }
                            } else {
                                ServerStep::Reply(
                                    finish_file_read(id, Err(FileReadError::AccessDenied)),
                                )
                            }
                        },
                    },
                }
            } else {
                let mut text = String::from_str("Tool '");
                text.append(call.name.as_str());
                text.append("' executed successfully with arguments: ");
                let shown = describe_arguments(&call.arguments);
                text.append(shown.as_str());
                ServerStep::Reply(text_reply(id, text))
            }
        },
    }
}

/// `tools/list` lists exactly the registered tools, whatever order they were
/// registered in: each registered tool once, nothing else, and under each name the
/// tool that a lookup of that name finds.
pub proof fn lemma_tools_list_exact(state: &McpServerState, request: IncomingRequest, step: ServerStep)
    requires
        state.wf(),
        request.method@ == "tools/list"@,
        dispatch(state@, request, step),
    ensures
        step matches ServerStep::Reply(r) && (r.outcome matches Ok(RpcResult::ToolsList(l)) && {
            let listed = tool_views(l.tools@);
            &&& names_unique(listed)
            &&& forall|t: McpToolView| listed.contains(t) <==> state@.contains(t)
            &&& forall|i: int, j: int|
                0 <= i < listed.len() && 0 <= j < state@.len() && listed[i].name == state@[j].name
                    ==> listed[i] == state@[j]
        }),
{
}

/// `tools/call` on a name that is not registered is refused as not found.
pub proof fn lemma_unregistered_tool_not_found(
    reg: Seq<McpToolView>,
    request: IncomingRequest,
    step: ServerStep,
)
    requires
        request.method@ == "tools/call"@,
        request.params matches CallParams::Valid(call) && !has_name(reg, call.name@),
        dispatch(reg, request, step),
    ensures
        step matches ServerStep::Reply(r) && (r.outcome matches Err(e) && e.code == METHOD_NOT_FOUND),
{
    reveal_strlit("tools/list");
    reveal_strlit("tools/call");
    assert("tools/list"@[6] != "tools/call"@[6]);
}

/// `file_read` on a path outside the sandbox succeeds at the protocol level with a
/// report of access denial, and nothing is read.
pub proof fn lemma_outside_sandbox_denied(
    reg: Seq<McpToolView>,
    request: IncomingRequest,
    step: ServerStep,
)
    requires
        request.method@ == "tools/call"@,
        request.params matches CallParams::Valid(call) && has_name(reg, call.name@) && call.name@
            == "file_read"@ && (call.arguments matches Some(args) && (args.file_read matches Ok(
            fr,
        ) && !starts_with(fr.path@, sandbox_root()))),
        dispatch(reg, request, step),
    ensures
        is_text_step(
            step,
            request.id@,
            "Error reading file: "@
                + "Access denied: File path must be within /tmp/allowed_files/"@,
        ),
{
    reveal_strlit("tools/list");
    reveal_strlit("tools/call");
    assert("tools/list"@[6] != "tools/call"@[6]);
}

/// A JSON-RPC server's configuration: its registry and the port it listens on.
pub struct McpServer {
    state: McpServerState,
    port: u16,
}

impl McpServer {
    /// Names in the registry are unique.
    pub closed spec fn wf(&self) -> bool {
        self.state.wf()
    }

    /// The registered tools.
    pub closed spec fn registered(&self) -> Seq<McpToolView> {
        self.state@
    }

    /// The port to listen on.
    pub closed spec fn listen_port(&self) -> u16 {
        self.port
    }

    /// A server with no tools, on port 8080.
    pub fn new() -> (r: McpServer)
        ensures
            r.wf(),
            r.registered().len() == 0,
            r.listen_port() == 8080,
    {
        McpServer { state: McpServerState::new(), port: 8080 }
    }

    /// A server with no tools, on `port`.
    pub fn with_port(port: u16) -> (r: McpServer)
        ensures
            r.wf(),
            r.registered().len() == 0,
            r.listen_port() == port,
    {
        McpServer { state: McpServerState::new(), port }
    }

    /// Registers `tool`, replacing any tool of the same name.
    pub fn add_tool(&mut self, tool: McpTool)
        requires
            old(self).wf(),
        ensures
            final(self).wf(),
            final(self).listen_port() == old(self).listen_port(),
            has_name(old(self).registered(), tool.name@) ==> exists|i: int|
                0 <= i < old(self).registered().len() && old(self).registered()[i].name == tool.name@
                    && final(self).registered() == old(self).registered().update(i, tool@),
            !has_name(old(self).registered(), tool.name@) ==> final(self).registered() == old(
                self,
            ).registered().push(tool@),
            final(self).registered() == apply_add(old(self).registered(), tool@),
    {
        self.state.add_tool(tool);
    }

    /// The port to listen on.
    pub fn port(&self) -> (r: u16)
        ensures
            r == self.listen_port(),
    {
        self.port
    }

    /// The registry, for serving.
    pub fn into_state(self) -> (r: McpServerState)
        ensures
            r@ == self.registered(),
            self.wf() ==> r.wf(),
    {
        self.state
    }
}

} // verus!
