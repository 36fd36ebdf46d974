//! Messages, tool manifests and request payloads of the chat completion endpoint.

use vstd::prelude::*;
use vstd::string::*;
use crate::mcp::{Exchange, McpError, transport_error, transport_failure};
use crate::text::concat2;

verus! {

/// A tool invocation that the model asked for.
pub struct OllamaFunctionCall {
    pub name: String,
    pub arguments: serde_json::Value,
}

/// A tool call from a completion response.
pub struct OllamaToolCall {
    pub function: OllamaFunctionCall,
}

/// What a tool call holds.
pub struct CallView {
    pub name: Seq<char>,
    pub arguments: serde_json::Value,
}

impl View for OllamaToolCall {
    type V = CallView;

    open spec fn view(&self) -> CallView {
        CallView { name: self.function.name@, arguments: self.function.arguments }
    }
}

/// The views of a sequence of tool calls.
pub open spec fn call_views(s: Seq<OllamaToolCall>) -> Seq<CallView> {
    s.map_values(|c: OllamaToolCall| c@)
}

impl OllamaToolCall {
    /// A copy of this call.
    pub fn duplicate(&self) -> (r: OllamaToolCall)
        ensures
            r@ == self@,
    {
        OllamaToolCall {
            function: OllamaFunctionCall {
                name: self.function.name.clone(),
                arguments: self.function.arguments.clone(),
            },
        }
    }
}

/// Copies a list of tool calls.
pub fn copy_calls(calls: &Vec<OllamaToolCall>) -> (r: Vec<OllamaToolCall>)
    ensures
        call_views(r@) == call_views(calls@),
{
    let mut r: Vec<OllamaToolCall> = Vec::new();
    let mut i: usize = 0;
    while i < calls.len()
        invariant
            i <= calls@.len(),
            call_views(r@) == call_views(calls@).subrange(0, i as int),
        decreases calls@.len() - i,
    {
        let c = calls[i].duplicate();
        let ghost prev = r@;
        r.push(c);
        assert(call_views(r@) =~= call_views(prev).push(calls@[i as int]@));
        i = i + 1;
        assert(call_views(r@) =~= call_views(calls@).subrange(0, i as int));
    }
    assert(call_views(calls@).subrange(0, i as int) =~= call_views(calls@));
    r
}

/// One message of a conversation. Only assistant messages carry tool calls.
pub struct ChatMessage {
    pub role: String,
    pub content: String,
    pub tool_calls: Option<Vec<OllamaToolCall>>,
}

/// What a message holds.
pub struct MessageView {
    pub role: Seq<char>,
    pub content: Seq<char>,
    pub tool_calls: Option<Seq<CallView>>,
}

impl View for ChatMessage {
    type V = MessageView;

    open spec fn view(&self) -> MessageView {
        MessageView {
            role: self.role@,
            content: self.content@,
            tool_calls: match self.tool_calls {
                Some(c) => Some(call_views(c@)),
                None => None,
            },
        }
    }
}

/// The views of a sequence of messages.
pub open spec fn message_views(s: Seq<ChatMessage>) -> Seq<MessageView> {
    s.map_values(|m: ChatMessage| m@)
}

impl ChatMessage {
    /// A user message.
    pub fn user(content: &str) -> (r: ChatMessage)
        ensures
            r@ == (MessageView { role: "user"@, content: content@, tool_calls: None }),
    {
        ChatMessage { role: String::from_str("user"), content: String::from_str(content), tool_calls: None }
    }

    /// An assistant message without tool calls.
    pub fn assistant(content: &str) -> (r: ChatMessage)
        ensures
            r@ == (MessageView { role: "assistant"@, content: content@, tool_calls: None }),
    {
        ChatMessage {
            role: String::from_str("assistant"),
            content: String::from_str(content),
            tool_calls: None,
        }
    }

    /// A system message.
    pub fn system(content: &str) -> (r: ChatMessage)
        ensures
            r@ == (MessageView { role: "system"@, content: content@, tool_calls: None }),
    {
        ChatMessage { role: String::from_str("system"), content: String::from_str(content), tool_calls: None }
    }

    /// An assistant message that carries tool calls.
    pub fn assistant_with_tools(content: &str, tool_calls: Vec<OllamaToolCall>) -> (r: ChatMessage)
        ensures
            r@ == (MessageView {
                role: "assistant"@,
                content: content@,
                tool_calls: Some(call_views(tool_calls@)),
            }),
    {
        ChatMessage {
            role: String::from_str("assistant"),
            content: String::from_str(content),
            tool_calls: Some(tool_calls),
        }
    }

    /// A copy of this message.
    pub fn duplicate(&self) -> (r: ChatMessage)
        ensures
            r@ == self@,
    {
        ChatMessage {
            role: self.role.clone(),
            content: self.content.clone(),
            tool_calls: match &self.tool_calls {
                Some(c) => Some(copy_calls(c)),
                None => None,
            },
        }
    }
}

/// Copies a list of messages.
pub fn copy_messages(messages: &Vec<ChatMessage>) -> (r: Vec<ChatMessage>)
    ensures
        message_views(r@) == message_views(messages@),
{
    let mut r: Vec<ChatMessage> = Vec::new();
    let mut i: usize = 0;
    while i < messages.len()
        invariant
            i <= messages@.len(),
            message_views(r@) == message_views(messages@).subrange(0, i as int),
        decreases messages@.len() - i,
    {
        let m = messages[i].duplicate();
        let ghost prev = r@;
        r.push(m);
        assert(message_views(r@) =~= message_views(prev).push(messages@[i as int]@));
        i = i + 1;
        assert(message_views(r@) =~= message_views(messages@).subrange(0, i as int));
    }
    assert(message_views(messages@).subrange(0, i as int) =~= message_views(messages@));
    r
}

/// The characters of each string.
pub open spec fn texts(s: Seq<String>) -> Seq<Seq<char>> {
    s.map_values(|t: String| t@)
}

/// Copies a list of strings.
pub fn copy_texts(v: &Vec<String>) -> (r: Vec<String>)
    ensures
        texts(r@) == texts(v@),
{
    let mut r: Vec<String> = Vec::new();
    let mut i: usize = 0;
    while i < v.len()
        invariant
            i <= v@.len(),
            texts(r@) == texts(v@).subrange(0, i as int),
        decreases v@.len() - i,
    {
        let ghost prev = r@;
        r.push(v[i].clone());
        assert(texts(r@) =~= texts(prev).push(v@[i as int]@));
        i = i + 1;
        assert(texts(r@) =~= texts(v@).subrange(0, i as int));
    }
    assert(texts(v@).subrange(0, i as int) =~= texts(v@));
    r
}

/// One parameter of a tool, as the model is told of it.
pub struct OllamaProperty {
    pub prop_type: String,
    pub description: String,
    /// The values allowed, where the parameter is an enumeration.
    pub enum_values: Option<Vec<String>>,
}

/// What a parameter description holds.
pub struct PropertyView {
    pub prop_type: Seq<char>,
    pub description: Seq<char>,
    pub enum_values: Option<Seq<Seq<char>>>,
}

impl View for OllamaProperty {
    type V = PropertyView;

    open spec fn view(&self) -> PropertyView {
        PropertyView {
            prop_type: self.prop_type@,
            description: self.description@,
            enum_values: match self.enum_values {
                Some(v) => Some(texts(v@)),
                None => None,
            },
        }
    }
}

impl OllamaProperty {
    /// A string parameter.
    pub fn string(description: &str) -> (r: OllamaProperty)
        ensures
            r@ == (PropertyView { prop_type: "string"@, description: description@, enum_values: None }),
    {
        OllamaProperty {
            prop_type: String::from_str("string"),
            description: String::from_str(description),
            enum_values: None,
        }
    }

    /// A string parameter restricted to `values`.
    pub fn string_enum(description: &str, values: Vec<String>) -> (r: OllamaProperty)
        ensures
            r@ == (PropertyView {
                prop_type: "string"@,
                description: description@,
                enum_values: Some(texts(values@)),
            }),
    {
        OllamaProperty {
            prop_type: String::from_str("string"),
            description: String::from_str(description),
            enum_values: Some(values),
        }
    }

    /// A number parameter.
    pub fn number(description: &str) -> (r: OllamaProperty)
        ensures
            r@ == (PropertyView { prop_type: "number"@, description: description@, enum_values: None }),
    {
        OllamaProperty {
            prop_type: String::from_str("number"),
            description: String::from_str(description),
            enum_values: None,
        }
    }

    /// A boolean parameter.
    pub fn boolean(description: &str) -> (r: OllamaProperty)
        ensures
            r@ == (PropertyView { prop_type: "boolean"@, description: description@, enum_values: None }),
    {
        OllamaProperty {
            prop_type: String::from_str("boolean"),
            description: String::from_str(description),
            enum_values: None,
        }
    }

    /// A copy of this parameter description.
    pub fn duplicate(&self) -> (r: OllamaProperty)
        ensures
            r@ == self@,
    {
        OllamaProperty {
            prop_type: self.prop_type.clone(),
            description: self.description.clone(),
            enum_values: match &self.enum_values {
                Some(v) => Some(copy_texts(v)),
                None => None,
            },
        }
    }
}

} // verus!

verus! {

/// The views of named parameter descriptions.
pub open spec fn property_views(s: Seq<(String, OllamaProperty)>) -> Seq<(Seq<char>, PropertyView)> {
    s.map_values(|p: (String, OllamaProperty)| (p.0@, p.1@))
}

/// No two parameters share a name.
pub open spec fn keys_unique(s: Seq<(Seq<char>, PropertyView)>) -> bool {
    forall|i: int, j: int| 0 <= i < j < s.len() ==> s[i].0 != s[j].0
}

/// The index of the first parameter named `name`, if any.
pub open spec fn first_key(s: Seq<(Seq<char>, PropertyView)>, name: Seq<char>, i: int) -> bool {
    0 <= i < s.len() && s[i].0 == name && forall|j: int| 0 <= j < i ==> s[j].0 != name
}

/// The position of the first parameter named `name`.
fn find_property(props: &Vec<(String, OllamaProperty)>, name: &str) -> (r: Option<usize>)
    ensures
        match r {
            Some(i) => first_key(property_views(props@), name@, i as int),
            None => forall|j: int|
                0 <= j < props@.len() ==> property_views(props@)[j].0 != name@,
        },
{
    let mut i: usize = 0;
    while i < props.len()
        invariant
            i <= props@.len(),
            forall|j: int| 0 <= j < i ==> property_views(props@)[j].0 != name@,
        decreases props@.len() - i,
    {
        if crate::text::same_text(props[i].0.as_str(), name) {
            return Some(i);
        }
        i = i + 1;
    }
    None
}

/// The schema of a tool's parameters.
pub struct OllamaParameters {
    pub param_type: String,
    pub properties: Vec<(String, OllamaProperty)>,
    pub required: Vec<String>,
}

/// What a parameter schema holds.
pub struct ParametersView {
    pub param_type: Seq<char>,
    pub properties: Seq<(Seq<char>, PropertyView)>,
    pub required: Seq<Seq<char>>,
}

impl View for OllamaParameters {
    type V = ParametersView;

    open spec fn view(&self) -> ParametersView {
        ParametersView {
            param_type: self.param_type@,
            properties: property_views(self.properties@),
            required: texts(self.required@),
        }
    }
}

impl OllamaParameters {
    /// An object schema with no parameters.
    pub fn new() -> (r: OllamaParameters)
        ensures
            r@.param_type == "object"@,
            r@.properties.len() == 0,
            r@.required.len() == 0,
    {
        let r = OllamaParameters {
            param_type: String::from_str("object"),
            properties: Vec::new(),
            required: Vec::new(),
        };
        assert(property_views(r.properties@) =~= Seq::<(Seq<char>, PropertyView)>::empty());
        assert(texts(r.required@) =~= Seq::<Seq<char>>::empty());
        r
    }

    /// Adds the parameter `name`, replacing the description of a parameter of that name.
    pub fn add_property(self, name: &str, property: OllamaProperty) -> (r: OllamaParameters)
        ensures
            r@.param_type == self@.param_type,
            r@.required == self@.required,
            forall|i: int| #[trigger]
                first_key(self@.properties, name@, i) ==> r@.properties == self@.properties.update(
                    i,
                    (name@, property@),
                ),
            (forall|i: int| 0 <= i < self@.properties.len() ==> self@.properties[i].0 != name@)
                ==> r@.properties == self@.properties.push((name@, property@)),
            keys_unique(self@.properties) ==> keys_unique(r@.properties),
    {
        let mut this = self;
        let ghost before = property_views(this.properties@);
        let ghost entry = (name@, property@);
        let found = find_property(&this.properties, name);
        let key = String::from_str(name);
        match found {
            Some(i) => {
                this.properties.set(i, (key, property));
                assert(property_views(this.properties@) =~= before.update(i as int, entry));
                assert forall|k: int| #[trigger] first_key(before, name@, k) implies k == i by {
                    if k > i {
                        assert(before[i as int].0 == name@);
                    }
                }
            },
            None => {
                this.properties.push((key, property));
                assert(property_views(this.properties@) =~= before.push(entry));
            },
        }
        this
    }

    /// Marks the parameter `name` as required.
    pub fn add_required(self, name: &str) -> (r: OllamaParameters)
        ensures
            r@.param_type == self@.param_type,
            r@.properties == self@.properties,
            r@.required == self@.required.push(name@),
    {
        let mut this = self;
        let ghost before = this.required@;
        this.required.push(String::from_str(name));
        assert(texts(this.required@) =~= texts(before).push(name@));
        this
    }

    /// A copy of this schema.
    pub fn duplicate(&self) -> (r: OllamaParameters)
        ensures
            r@ == self@,
    {
        let mut props: Vec<(String, OllamaProperty)> = Vec::new();
        let mut i: usize = 0;
        while i < self.properties.len()
            invariant
                i <= self.properties@.len(),
                property_views(props@) == property_views(self.properties@).subrange(0, i as int),
            decreases self.properties@.len() - i,
        {
            let ghost prev = props@;
            let p = (self.properties[i].0.clone(), self.properties[i].1.duplicate());
            props.push(p);
            assert(property_views(props@) =~= property_views(prev).push(
                property_views(self.properties@)[i as int],
            ));
            i = i + 1;
            assert(property_views(props@) =~= property_views(self.properties@).subrange(0, i as int));
        }
        assert(property_views(self.properties@).subrange(0, i as int) =~= property_views(
            self.properties@,
        ));
        OllamaParameters {
            param_type: self.param_type.clone(),
            properties: props,
            required: copy_texts(&self.required),
        }
    }
}

/// A function that the model may call.
pub struct OllamaFunction {
    pub name: String,
    pub description: String,
    pub parameters: OllamaParameters,
}

/// What a function description holds.
pub struct FunctionView {
    pub name: Seq<char>,
    pub description: Seq<char>,
    pub parameters: ParametersView,
}

impl View for OllamaFunction {
    type V = FunctionView;

    open spec fn view(&self) -> FunctionView {
        FunctionView {
            name: self.name@,
            description: self.description@,
            parameters: self.parameters@,
        }
    }
}

impl OllamaFunction {
    /// A function description.
    pub fn new(name: &str, description: &str, parameters: OllamaParameters) -> (r: OllamaFunction)
        ensures
            r@ == (FunctionView {
                name: name@,
                description: description@,
                parameters: parameters@,
            }),
    {
        OllamaFunction {
            name: String::from_str(name),
            description: String::from_str(description),
            parameters,
        }
    }
}

/// An entry of the tool manifest sent to the model.
pub struct OllamaTool {
    pub tool_type: String,
    pub function: OllamaFunction,
}

/// What a manifest entry holds.
pub struct ToolView {
    pub tool_type: Seq<char>,
    pub function: FunctionView,
}

impl View for OllamaTool {
    type V = ToolView;

    open spec fn view(&self) -> ToolView {
        ToolView { tool_type: self.tool_type@, function: self.function@ }
    }
}

/// The views of a tool manifest.
pub open spec fn manifest_views(s: Seq<OllamaTool>) -> Seq<ToolView> {
    s.map_values(|t: OllamaTool| t@)
}

impl OllamaTool {
    /// A manifest entry of type `function`.
    pub fn function(function: OllamaFunction) -> (r: OllamaTool)
        ensures
            r@ == (ToolView { tool_type: "function"@, function: function@ }),
    {
        OllamaTool { tool_type: String::from_str("function"), function }
    }

    /// A copy of this entry.
    pub fn duplicate(&self) -> (r: OllamaTool)
        ensures
            r@ == self@,
    {
        OllamaTool {
            tool_type: self.tool_type.clone(),
            function: OllamaFunction {
                name: self.function.name.clone(),
                description: self.function.description.clone(),
                parameters: self.function.parameters.duplicate(),
            },
        }
    }
}

/// Copies a tool manifest.
pub fn copy_manifest(tools: &Vec<OllamaTool>) -> (r: Vec<OllamaTool>)
    ensures
        manifest_views(r@) == manifest_views(tools@),
{
    let mut r: Vec<OllamaTool> = Vec::new();
    let mut i: usize = 0;
    while i < tools.len()
        invariant
            i <= tools@.len(),
            manifest_views(r@) == manifest_views(tools@).subrange(0, i as int),
        decreases tools@.len() - i,
    {
        let ghost prev = r@;
        r.push(tools[i].duplicate());
        assert(manifest_views(r@) =~= manifest_views(prev).push(tools@[i as int]@));
        i = i + 1;
        assert(manifest_views(r@) =~= manifest_views(tools@).subrange(0, i as int));
    }
    assert(manifest_views(tools@).subrange(0, i as int) =~= manifest_views(tools@));
    r
}

/// The payload of one completion request. Responses are never streamed.
pub struct ChatRequest {
    pub model: String,
    pub messages: Vec<ChatMessage>,
    pub tools: Vec<OllamaTool>,
    pub stream: bool,
}

/// A completion response.
pub struct ChatResponse {
    pub model: String,
    pub created_at: String,
    pub message: ChatMessage,
    pub done: bool,
    pub total_duration: Option<u64>,
    pub load_duration: Option<u64>,
    pub prompt_eval_count: Option<u32>,
    pub prompt_eval_duration: Option<u64>,
    pub eval_count: Option<u32>,
    pub eval_duration: Option<u64>,
}

/// The address of the completion endpoint under `base_url`.
pub fn chat_endpoint(base_url: &str) -> (r: String)
    ensures
        r@ == base_url@ + "/api/chat"@,
{
    concat2(base_url, "/api/chat")
}

/// The address at which the completion service is expected by default.
pub fn default_base_url() -> (r: String)
    ensures
        r@ == "http://localhost:11434"@,
{
    String::from_str("http://localhost:11434")
}

/// A one-message request: `message` from the user, to `model`, with `tools`.
pub fn chat_request(message: &str, model: &str, tools: &Vec<OllamaTool>) -> (r: ChatRequest)
    ensures
        r.model@ == model@,
        message_views(r.messages@) == seq![
            MessageView { role: "user"@, content: message@, tool_calls: None },
        ],
        manifest_views(r.tools@) == manifest_views(tools@),
        !r.stream,
{
    let mut messages: Vec<ChatMessage> = Vec::new();
    messages.push(ChatMessage::user(message));
    assert(message_views(messages@) =~= seq![
        MessageView { role: "user"@, content: message@, tool_calls: None },
    ]);
    ChatRequest {
        model: String::from_str(model),
        messages,
        tools: copy_manifest(tools),
        stream: false,
    }
}

/// The system prompt that opens a request made with tools.
pub open spec fn tool_system_prompt() -> Seq<char> {
    "You are Granite, developed by IBM. You are a helpful assistant with tools. When a tool is required to answer the user's query, respond only with <|tool_call|> followed by a JSON list of tools used. If a tool does not exist in the provided list of tools, notify the user that you do not have the ability to fulfill the request.<|end_of_text|>"@
}

/// A request with tools: the system prompt, then `message` from the user.
pub fn chat_with_tools_request(message: &str, model: &str, tools: Vec<OllamaTool>) -> (r:
    ChatRequest)
    ensures
        r.model@ == model@,
        message_views(r.messages@) == seq![
            MessageView { role: "system"@, content: tool_system_prompt(), tool_calls: None },
            MessageView { role: "user"@, content: message@, tool_calls: None },
        ],
        manifest_views(r.tools@) == manifest_views(tools@),
        !r.stream,
{
    let mut messages: Vec<ChatMessage> = Vec::new();
    messages.push(
        ChatMessage::system(
            "You are Granite, developed by IBM. You are a helpful assistant with tools. When a tool is required to answer the user's query, respond only with <|tool_call|> followed by a JSON list of tools used. If a tool does not exist in the provided list of tools, notify the user that you do not have the ability to fulfill the request.<|end_of_text|>",
        ),
    );
    messages.push(ChatMessage::user(message));
    assert(message_views(messages@) =~= seq![
        MessageView { role: "system"@, content: tool_system_prompt(), tool_calls: None },
        MessageView { role: "user"@, content: message@, tool_calls: None },
    ]);
    ChatRequest { model: String::from_str(model), messages, tools, stream: false }
}

/// What the completion client makes of an exchange: the response, or a transport
/// or decode failure.
pub open spec fn chat_accepted(exchange: Exchange<ChatResponse>, r: Result<ChatResponse, McpError>) -> bool {
    match exchange {
        Exchange::Delivered(Ok(resp)) => r == Ok::<ChatResponse, McpError>(resp),
        Exchange::Delivered(Err(reason)) => r matches Err(McpError::Decode(m)) && m@ == reason@,
        _ => match r {
            Err(e) => transport_failure(exchange, e),
            Ok(_) => false,
        },
    }
}

/// Unwraps the outcome of a completion request.
pub fn accept_chat_reply(exchange: Exchange<ChatResponse>) -> (r: Result<ChatResponse, McpError>)
    ensures
        chat_accepted(exchange, r),
{
    match exchange {
        Exchange::Delivered(Ok(resp)) => Ok(resp),
        Exchange::Delivered(Err(reason)) => Err(McpError::Decode(reason)),
        _ => Err(transport_error(exchange)),
    }
}

} // verus!
