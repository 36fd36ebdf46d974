//! The conversation orchestrator: one human turn at a time, with the tool calls
//! the model asks for fanned out one by one, each followed by its own completion.
//! The orchestrator decides; its caller performs each network call it asks for.

use vstd::prelude::*;
use vstd::string::*;
use crate::mcp::{McpError, describe_error};
use crate::ollama::{
    CallView, ChatMessage, ChatRequest, ChatResponse, MessageView, OllamaTool, OllamaToolCall,
    ToolView, call_views, copy_calls, copy_manifest, copy_messages, default_base_url,
    manifest_views, message_views,
};

verus! {

/// Only assistant messages carry tool calls, and each one that does follows a
/// message that is not the assistant's: the replies that come after it carry none.
pub open spec fn history_wf(h: Seq<MessageView>) -> bool {
    forall|j: int|
        0 <= j < h.len() && (#[trigger] h[j]).tool_calls is Some ==> h[j].role == "assistant"@ && j
            > 0 && h[j - 1].role != "assistant"@
}

/// The message that reports the outcome of a tool call back to the model.
pub open spec fn follow_up_text(name: Seq<char>, outcome: Result<String, McpError>) -> Seq<char> {
    match outcome {
        Ok(text) => "Tool '"@ + name + "' executed successfully. Result: "@ + text@,
        Err(e) => "Tool '"@ + name + "' execution failed: "@ + describe_error(e),
    }
}

/// A user message.
pub open spec fn user_view(content: Seq<char>) -> MessageView {
    MessageView { role: "user"@, content, tool_calls: None }
}

/// An assistant message, with or without tool calls.
pub open spec fn assistant_view(content: Seq<char>, calls: Option<Seq<CallView>>) -> MessageView {
    MessageView { role: "assistant"@, content, tool_calls: calls }
}

/// Where a turn stands.
pub enum Phase {
    Idle,
    /// The first completion of the turn is out.
    AwaitingReply,
    /// `calls[next]` has been handed out to run.
    AwaitingTool { calls: Vec<OllamaToolCall>, next: usize },
    /// The completion that follows `calls[next]` is out.
    AwaitingFollowUp { calls: Vec<OllamaToolCall>, next: usize },
}

/// What the caller of the orchestrator does next.
pub enum Action {
    /// Send this request to the completion endpoint, and report with `on_completion`.
    Complete(ChatRequest),
    /// Call this tool through the JSON-RPC client, and report with `on_tool_result`.
    CallTool { name: String, arguments: serde_json::Value },
    /// The turn is over.
    Finished,
    /// The turn was empty: nothing was sent or recorded.
    Ignored,
    /// The turn stopped on this failure.
    Failed(McpError),
}

/// `r` asks for a completion of exactly `messages`, under `model` and `manifest`.
pub open spec fn asks_completion(
    r: Action,
    model: Seq<char>,
    manifest: Seq<ToolView>,
    messages: Seq<MessageView>,
) -> bool {
    match r {
        Action::Complete(req) => req.model@ == model && manifest_views(req.tools@) == manifest
            && message_views(req.messages@) == messages && !req.stream,
        _ => false,
    }
}

/// `r` asks to run the tool call `c`.
pub open spec fn asks_tool(r: Action, c: CallView) -> bool {
    match r {
        Action::CallTool { name, arguments } => name@ == c.name && arguments == c.arguments,
        _ => false,
    }
}

/// A conversation with a model: its history, the tools offered to it, and the
/// turn in progress.
pub struct ChatSession {
    pub base_url: String,
    pub model: String,
    tools: Vec<OllamaTool>,
    messages: Vec<ChatMessage>,
    phase: Phase,
}

impl ChatSession {
    /// The messages exchanged so far.
    pub closed spec fn history(&self) -> Seq<MessageView> {
        message_views(self.messages@)
    }

    /// The model's name.
    pub closed spec fn model_name(&self) -> Seq<char> {
        self.model@
    }

    /// Where the completion service is reached.
    pub closed spec fn service_url(&self) -> Seq<char> {
        self.base_url@
    }

    /// The tools offered to the model.
    pub closed spec fn manifest(&self) -> Seq<ToolView> {
        manifest_views(self.tools@)
    }

    /// No turn is in progress.
    pub closed spec fn is_idle(&self) -> bool {
        self.phase is Idle
    }

    /// A completion is out; its outcome goes to `on_completion`.
    pub closed spec fn awaiting_completion(&self) -> bool {
        self.phase is AwaitingReply || self.phase is AwaitingFollowUp
    }

    /// The completion that is out is the first of its turn.
    pub closed spec fn awaiting_first_reply(&self) -> bool {
        self.phase is AwaitingReply
    }

    /// A tool call is out; its outcome goes to `on_tool_result`.
    pub closed spec fn awaiting_tool(&self) -> bool {
        self.phase is AwaitingTool
    }

    /// The tool calls of the turn in progress.
    pub closed spec fn pending_calls(&self) -> Seq<CallView> {
        match self.phase {
            Phase::AwaitingTool { calls, .. } => call_views(calls@),
            Phase::AwaitingFollowUp { calls, .. } => call_views(calls@),
            _ => Seq::empty(),
        }
    }

    /// The position of the tool call in progress among `pending_calls`.
    pub closed spec fn next_call(&self) -> int {
        match self.phase {
            Phase::AwaitingTool { next, .. } => next as int,
            Phase::AwaitingFollowUp { next, .. } => next as int,
            _ => 0,
        }
    }

    /// The history is well formed, and the turn in progress is consistent with it.
    pub closed spec fn wf(&self) -> bool {
        &&& history_wf(self.history())
        &&& self.phase is AwaitingReply ==> self.history().len() > 0 && self.history().last().role
            != "assistant"@
        &&& match self.phase {
            Phase::AwaitingTool { calls, next } => next < calls@.len(),
            Phase::AwaitingFollowUp { calls, next } => next < calls@.len(),
            _ => true,
        }
    }

    /// A session with `model` and the tools `tools`, with an empty history.
    #[allow(non_snake_case)]
    pub fn New(model: &str, tools: Vec<OllamaTool>) -> (r: ChatSession)
        ensures
            r.wf(),
            r.is_idle(),
            r.history().len() == 0,
            r.manifest() == manifest_views(tools@),
            r.model_name() == model@,
            r.service_url() == "http://localhost:11434"@,
    {
        let r = ChatSession {
            base_url: default_base_url(),
            model: String::from_str(model),
            tools,
            messages: Vec::new(),
            phase: Phase::Idle,
        };
        assert(r.history() =~= Seq::<MessageView>::empty());
        r
    }

    /// The messages exchanged so far.
    pub fn messages(&self) -> (r: &Vec<ChatMessage>)
        ensures
            message_views(r@) == self.history(),
    {
        &self.messages
    }

    /// Whether no turn is in progress.
    pub fn idle(&self) -> (r: bool)
        ensures
            r == self.is_idle(),
    {
        matches!(self.phase, Phase::Idle)
    }

    /// Whether a completion is out.
    pub fn expects_completion(&self) -> (r: bool)
        ensures
            r == self.awaiting_completion(),
    {
        matches!(self.phase, Phase::AwaitingReply | Phase::AwaitingFollowUp { .. })
    }

    /// Whether a tool call is out.
    pub fn expects_tool_result(&self) -> (r: bool)
        ensures
            r == self.awaiting_tool(),
    {
        matches!(self.phase, Phase::AwaitingTool { .. })
    }

    /// Appends a system message.
    pub fn add_system_message(&mut self, content: &str)
        requires
            old(self).wf(),
            old(self).is_idle(),
        ensures
            final(self).wf(),
            final(self).is_idle(),
            final(self).history() == old(self).history().push(
                MessageView { role: "system"@, content: content@, tool_calls: None },
            ),
            final(self).manifest() == old(self).manifest(),
            final(self).model_name() == old(self).model_name(),
    {
        let ghost before = self.history();
        let m = ChatMessage::system(content);
        self.messages.push(m);
        assert(self.history() =~= before.push(m@));
    }

    fn completion_request(&self, extra: Option<ChatMessage>) -> (r: ChatRequest)
        ensures
            r.model@ == self.model_name(),
            manifest_views(r.tools@) == self.manifest(),
            message_views(r.messages@) == match extra {
                Some(m) => self.history().push(m@),
                None => self.history(),
            },
            !r.stream,
    {
        let mut messages = copy_messages(&self.messages);
        match extra {
            Some(m) => {
                let ghost prev = messages@;
                let ghost v = m@;
                messages.push(m);
                assert(message_views(messages@) =~= message_views(prev).push(v));
            },
            None => {},
        }
        ChatRequest {
            model: self.model.clone(),
            messages,
            tools: copy_manifest(&self.tools),
            stream: false,
        }
    }

    /// Starts a turn with the user's `message`: records it, and asks for a
    /// completion of the whole history. An empty message starts nothing.
    pub fn send(&mut self, message: &str) -> (r: Action)
        requires
            old(self).wf(),
            old(self).is_idle(),
        ensures
            final(self).wf(),
            final(self).manifest() == old(self).manifest(),
            final(self).model_name() == old(self).model_name(),
            message@.len() == 0 ==> r is Ignored && final(self).is_idle() && final(self).history()
                == old(self).history(),
            message@.len() > 0 ==> final(self).history() == old(self).history().push(
                user_view(message@),
            ) && final(self).awaiting_first_reply() && final(self).awaiting_completion()
                && asks_completion(r, final(self).model_name(), final(self).manifest(), final(self).history()),
    {
        if message.is_empty() {
            return Action::Ignored;
        }
        let ghost before = self.history();
        let m = ChatMessage::user(message);
        self.messages.push(m);
        assert(self.history() =~= before.push(user_view(message@)));
        proof {
            reveal_strlit("user");
            reveal_strlit("assistant");
            assert("user"@.len() != "assistant"@.len());
        }
        self.phase = Phase::AwaitingReply;
        Action::Complete(self.completion_request(None))
    }

    /// Takes the outcome of the completion that is out.
    ///
    /// After the first completion of a turn: with no tool calls, its content closes
    /// the turn; with tool calls, the reply is recorded with them and the first call
    /// is handed out. After a follow-up completion: its content is recorded, and the
    /// next call is handed out, or the turn closes. A failure ends the turn and is
    /// returned as it came, with the history as it stood.
    pub fn on_completion(&mut self, reply: Result<ChatResponse, McpError>) -> (r: Action)
        requires
            old(self).wf(),
            old(self).awaiting_completion(),
        ensures
            final(self).wf(),
            final(self).manifest() == old(self).manifest(),
            final(self).model_name() == old(self).model_name(),
            match reply {
                Err(e) => r == Action::Failed(e) && final(self).is_idle() && final(self).history()
                    == old(self).history(),
                Ok(resp) => if old(self).awaiting_first_reply() {
                    match resp.message.tool_calls {
                        Some(calls) if calls@.len() > 0 => final(self).history() == old(
                            self,
                        ).history().push(
                            assistant_view(resp.message.content@, Some(call_views(calls@))),
                        ) && final(self).awaiting_tool() && final(self).pending_calls()
                            == call_views(calls@) && final(self).next_call() == 0 && asks_tool(
                            r,
                            call_views(calls@)[0],
                        ),
                        _ => final(self).history() == old(self).history().push(
                            assistant_view(resp.message.content@, None),
                        ) && final(self).is_idle() && r is Finished,
                    }
                } else {
                    final(self).history() == old(self).history().push(
                        assistant_view(resp.message.content@, None),
                    ) && if old(self).next_call() + 1 < old(self).pending_calls().len() {
                        final(self).awaiting_tool() && final(self).pending_calls() == old(
                            self,
                        ).pending_calls() && final(self).next_call() == old(self).next_call() + 1
                            && asks_tool(r, old(self).pending_calls()[old(self).next_call() + 1])
                    } else {
                        final(self).is_idle() && r is Finished
                    }
                },
            },
    {
        let ghost before = self.history();
        let ghost was = self.phase;
        let mut phase = Phase::Idle;
        std::mem::swap(&mut self.phase, &mut phase);
        assert(phase == was);
        let resp = match reply {
            Err(e) => return Action::Failed(e),
            Ok(resp) => resp,
        };
        match phase {
            Phase::AwaitingReply => {
                let has_calls = match &resp.message.tool_calls {
                    Some(calls) => calls.len() > 0,
                    None => false,
                };
                if has_calls {
                    let calls = match resp.message.tool_calls {
                        Some(calls) => calls,
                        None => Vec::new(),
                    };
                    let kept = copy_calls(&calls);
                    let m = ChatMessage::assistant_with_tools(resp.message.content.as_str(), kept);
                    self.messages.push(m);
                    assert(self.history() =~= before.push(m@));
                    let first = calls[0].duplicate();
                    self.phase = Phase::AwaitingTool { calls, next: 0 };
                    Action::CallTool { name: first.function.name, arguments: first.function.arguments }
                } else {
                    let m = ChatMessage::assistant(resp.message.content.as_str());
                    self.messages.push(m);
                    assert(self.history() =~= before.push(m@));
                    Action::Finished
                }
            },
            Phase::AwaitingFollowUp { calls, next } => {
                let m = ChatMessage::assistant(resp.message.content.as_str());
                self.messages.push(m);
                assert(self.history() =~= before.push(m@));
                if calls.len() > next && calls.len() - next > 1 {
                    let c = calls[next + 1].duplicate();
                    self.phase = Phase::AwaitingTool { calls, next: next + 1 };
                    Action::CallTool { name: c.function.name, arguments: c.function.arguments }
                } else {
                    Action::Finished
                }
            },
            _ => Action::Finished,
        }
    }

    /// Takes the outcome of the tool call that is out, `Ok` with the text of its
    /// result, and asks for a completion of the history followed by a message that
    /// reports that outcome. The report itself is not recorded; the reply will be.
    pub fn on_tool_result(&mut self, outcome: Result<String, McpError>) -> (r: Action)
        requires
            old(self).wf(),
            old(self).awaiting_tool(),
        ensures
            final(self).wf(),
            final(self).manifest() == old(self).manifest(),
            final(self).model_name() == old(self).model_name(),
            final(self).history() == old(self).history(),
            final(self).awaiting_completion(),
            !final(self).awaiting_first_reply(),
            final(self).pending_calls() == old(self).pending_calls(),
            final(self).next_call() == old(self).next_call(),
            asks_completion(
                r,
                old(self).model_name(),
                old(self).manifest(),
                old(self).history().push(
                    user_view(
                        follow_up_text(
                            old(self).pending_calls()[old(self).next_call()].name,
                            outcome,
                        ),
                    ),
                ),
            ),
    {
        let mut phase = Phase::Idle;
        std::mem::swap(&mut self.phase, &mut phase);
        match phase {
            Phase::AwaitingTool { calls, next } => {
                let name = calls[next].function.name.as_str();
                let mut text = String::from_str("Tool '");
                text.append(name);
                match &outcome {
                    Ok(result) => {
                        text.append("' executed successfully. Result: ");
                        text.append(result.as_str());
                    },
                    Err(e) => {
                        text.append("' execution failed: ");
                        let d = e.describe();
                        text.append(d.as_str());
                    },
                }
                let m = ChatMessage::user(text.as_str());
                let request = self.completion_request(Some(m));
                self.phase = Phase::AwaitingFollowUp { calls, next };
                Action::Complete(request)
            },
            _ => Action::Finished,
        }
    }
}

/// Whatever the turns taken, the history stays well formed: only the assistant
/// carries tool calls, and the replies that follow a message with tool calls carry
/// none.
pub proof fn lemma_history_well_formed(s: &ChatSession)
    requires
        s.wf(),
    ensures
        history_wf(s.history()),
{
}

} // verus!
