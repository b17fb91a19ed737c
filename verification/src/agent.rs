//! The agent's conversation and the decisions of its run loop: the system
//! prompt, what each completion reply leads to, and the events the
//! interface is told about. The requests, tool runs and clocks are the
//! caller's.
use vstd::prelude::*;
use vstd::string::StringExecFns;
use crate::text::{self, chars_of, contains_str, is_blank_str, trim_chars, string_of};
use crate::skills::ProjectMarkers;
use crate::provider::{self, ChatReply, ToolCall, ToolCallView, FunctionCall};
use crate::config;

verus! {

/// Who wrote a message.
#[derive(Debug, Clone, Copy, PartialEq, Eq)]
pub enum Role {
    System,
    User,
    Assistant,
    Tool,
}

/// One message of the conversation.
#[derive(Debug)]
pub struct ChatMessage {
    pub role: Role,
    pub content: Option<String>,
    pub tool_calls: Option<Vec<ToolCall>>,
    pub tool_call_id: Option<String>,
}

pub struct MessageView {
    pub role: Role,
    pub content: Option<Seq<char>>,
    pub tool_calls: Option<Seq<ToolCallView>>,
    pub tool_call_id: Option<Seq<char>>,
}

impl View for ChatMessage {
    type V = MessageView;

    open spec fn view(&self) -> MessageView {
        MessageView {
            role: self.role,
            content: config::opt_view(self.content),
            tool_calls: provider::calls_view(self.tool_calls),
            tool_call_id: config::opt_view(self.tool_call_id),
        }
    }
}

/// A conversation as plain values.
pub open spec fn history_view(h: Seq<ChatMessage>) -> Seq<MessageView> {
    h.map_values(|m: ChatMessage| m@)
}

impl ChatMessage {
    pub fn system(text: String) -> (m: ChatMessage)
        ensures
            m@ == (MessageView { role: Role::System, content: Some(text@), tool_calls: None, tool_call_id: None }),
    {
        ChatMessage { role: Role::System, content: Some(text), tool_calls: None, tool_call_id: None }
    }

    pub fn user(text: &str) -> (m: ChatMessage)
        ensures
            m@ == (MessageView { role: Role::User, content: Some(text@), tool_calls: None, tool_call_id: None }),
    {
        ChatMessage {
            role: Role::User,
            content: Some(String::from_str(text)),
            tool_calls: None,
            tool_call_id: None,
        }
    }

    pub fn assistant(content: Option<String>, tool_calls: Option<Vec<ToolCall>>) -> (m: ChatMessage)
        ensures
            m@ == (MessageView {
                role: Role::Assistant,
                content: config::opt_view(content),
                tool_calls: provider::calls_view(tool_calls),
                tool_call_id: None,
            }),
    {
        ChatMessage { role: Role::Assistant, content, tool_calls, tool_call_id: None }
    }

    pub fn tool(output: String, call_id: String) -> (m: ChatMessage)
        ensures
            m@ == (MessageView {
                role: Role::Tool,
                content: Some(output@),
                tool_calls: None,
                tool_call_id: Some(call_id@),
            }),
    {
        ChatMessage { role: Role::Tool, content: Some(output), tool_calls: None, tool_call_id: Some(call_id) }
    }
}

/// A copy of a tool call.
pub fn copy_call(c: &ToolCall) -> (d: ToolCall)
    ensures
        d@ == c@,
{
    ToolCall {
        id: c.id.clone(),
        call_type: c.call_type.clone(),
        function: FunctionCall { name: c.function.name.clone(), arguments: c.function.arguments.clone() },
    }
}

/// A copy of a list of tool calls.
pub fn copy_calls(v: &Vec<ToolCall>) -> (d: Vec<ToolCall>)
    ensures
        d@.map_values(|t: ToolCall| t@) == v@.map_values(|t: ToolCall| t@),
{
    let mut d: Vec<ToolCall> = Vec::new();
    let mut i: usize = 0;
    while i < v.len()
        invariant
            i <= v@.len(),
            d@.len() == i,
            forall|j: int| 0 <= j < i ==> (#[trigger] d@[j])@ == v@[j]@,
        decreases v@.len() - i,
    {
        d.push(copy_call(&v[i]));
        i = i + 1;
    }
    assert(d@.map_values(|t: ToolCall| t@) =~= v@.map_values(|t: ToolCall| t@));
    d
}

// ---------------------------------------------------------------------------
// The system prompt
// ---------------------------------------------------------------------------

/// The line naming the kind of project, from its marker files.
pub open spec fn project_type_line(m: ProjectMarkers) -> Option<Seq<char>> {
    if m.cargo_toml {
        Some("Project Type: Rust (Cargo)"@)
    } else if m.package_json {
        Some("Project Type: Node.js / TypeScript"@)
    } else if m.pyproject_toml || m.requirements_txt {
        Some("Project Type: Python"@)
    } else if m.go_mod {
        Some("Project Type: Go"@)
    } else {
        None
    }
}

/// The git block: present when `git status --short --branch` succeeded
/// with some non-blank output.
pub open spec fn git_status_block(out: Option<Seq<char>>) -> Option<Seq<char>> {
    match out {
        Some(o) => if text::trim(o).len() > 0 {
            Some("Git Workspace Status:\n"@ + text::trim(o))
        } else {
            None
        },
        None => None,
    }
}

/// The project context: the lines that are present, joined by `\n`.
pub open spec fn project_context_spec(m: ProjectMarkers, git_out: Option<Seq<char>>) -> Seq<char> {
    match (project_type_line(m), git_status_block(git_out)) {
        (Some(a), Some(b)) => a + "\n"@ + b,
        (Some(a), None) => a,
        (None, Some(b)) => b,
        (None, None) => Seq::empty(),
    }
}

/// Describes the workspace for the system prompt. `git_output` is the
/// standard output of `git status --short --branch` when that command
/// succeeded.
pub fn project_context(markers: &ProjectMarkers, git_output: Option<&str>) -> (s: String)
    ensures
        s@ == project_context_spec(*markers, match git_output {
            Some(o) => Some(o@),
            None => None,
        }),
{
    let type_line: Option<&str> = if markers.cargo_toml {
        Some("Project Type: Rust (Cargo)")
    } else if markers.package_json {
        Some("Project Type: Node.js / TypeScript")
    } else if markers.pyproject_toml || markers.requirements_txt {
        Some("Project Type: Python")
    } else if markers.go_mod {
        Some("Project Type: Go")
    } else {
        None
    };
    let git_block: Option<String> = match git_output {
        Some(o) => {
            let v = chars_of(o);
            let t = trim_chars(v.as_slice());
            if t.len() > 0 {
                let mut b = String::from_str("Git Workspace Status:\n");
                text::append_chars(&mut b, t.as_slice());
                Some(b)
            } else {
                None
            }
        },
        None => None,
    };
    let mut s = String::new();
    match type_line {
        Some(a) => {
            s.append(a);
        },
        None => {},
    }
    match git_block {
        Some(b) => {
            if type_line.is_some() {
                s.append("\n");
            }
            s.append(b.as_str());
        },
        None => {},
    }
    s
}

/// The opening of the system prompt.
pub open spec fn system_prompt_spec(workspace: Seq<char>, context: Seq<char>) -> Seq<char> {
    "You are APEX, an elite, high-performance autonomous coding agent operating directly in the user's terminal.\nCurrent Workspace: "@
        + workspace + "\n"@ + context
        + "\n\nCORE OPERATING PRINCIPLES:\n1. Precision & Verification: Always inspect files and locate symbols before modifying. After edits, run build/check/tests to verify.\n2. Minimal Disruption: Use surgical edits (`edit_file`) whenever possible rather than rewriting whole files.\n3. Tool Autonomy: You have full access to native ripgrep, file viewing, file writing/editing, terminal commands, and git diffs.\n4. Concise & Decisive: Avoid long conversational fluff. State actions clearly, execute tools proactively, and report verified results."@
}

/// Builds the system prompt for a workspace and its context.
pub fn system_prompt(workspace: &str, context: &str) -> (s: String)
    ensures
        s@ == system_prompt_spec(workspace@, context@),
{
    let mut s = String::from_str(
        "You are APEX, an elite, high-performance autonomous coding agent operating directly in the user's terminal.\nCurrent Workspace: ",
    );
    s.append(workspace);
    s.append("\n");
    s.append(context);
    s.append(
        "\n\nCORE OPERATING PRINCIPLES:\n1. Precision & Verification: Always inspect files and locate symbols before modifying. After edits, run build/check/tests to verify.\n2. Minimal Disruption: Use surgical edits (`edit_file`) whenever possible rather than rewriting whole files.\n3. Tool Autonomy: You have full access to native ripgrep, file viewing, file writing/editing, terminal commands, and git diffs.\n4. Concise & Decisive: Avoid long conversational fluff. State actions clearly, execute tools proactively, and report verified results.",
    );
    s
}

// ---------------------------------------------------------------------------
// Events
// ---------------------------------------------------------------------------

/// What the interface is told during a run. The estimated cost of a usage
/// update is computed by the caller from `free_tier` and the session
/// tokens.
#[derive(Debug)]
pub enum AgentEvent {
    ModelSelected(String),
    AssistantMessage(String),
    ToolExecuting { id: String, name: String, args: String },
    ToolCompleted { id: String, name: String, output: String, duration_ms: u128 },
    UsageUpdate { prompt_tokens: usize, completion_tokens: usize, session_tokens: usize, free_tier: bool },
    StepDone,
    Error(String),
}

/// Models on a free tier (`:free` in their name) cost nothing.
pub fn is_free_model(model: &str) -> (b: bool)
    ensures
        b == text::contains(model@, ":free"@),
{
    contains_str(model, ":free")
}

/// The output recorded when a tool fails.
pub fn tool_error_output(name: &str, error: &str) -> (s: String)
    ensures
        s@ == "Error executing tool '"@ + name@ + "': "@ + error@,
{
    let mut s = String::from_str("Error executing tool '");
    s.append(name);
    s.append("': ");
    s.append(error);
    s
}

// ---------------------------------------------------------------------------
// The session
// ---------------------------------------------------------------------------

/// What a reply leads to.
#[derive(Debug)]
pub enum StepOutcome {
    /// The assistant is done with this run.
    Finished,
    /// These tools are to run, in order, before the next request.
    RunTools(Vec<ToolCall>),
}

/// The conversation of an agent and the progress of its current run.
pub struct AgentEngine {
    pub history: Vec<ChatMessage>,
    pub session_tokens: usize,
    pub max_steps: usize,
    /// Requests the current run may still make.
    pub steps_left: usize,
}

impl AgentEngine {
    /// A session whose history holds the system prompt only.
    pub fn new(max_steps: usize, system_prompt: String) -> (s: AgentEngine)
        ensures
            history_view(s.history@) == seq![MessageView { role: Role::System, content: Some(system_prompt@), tool_calls: None, tool_call_id: None }],
            s.session_tokens == 0,
            s.max_steps == max_steps,
            s.steps_left == 0,
    {
        let mut history: Vec<ChatMessage> = Vec::new();
        history.push(ChatMessage::system(system_prompt));
        let s = AgentEngine { history, session_tokens: 0, max_steps, steps_left: 0 };
        assert(history_view(s.history@) =~= seq![MessageView { role: Role::System, content: Some(system_prompt@), tool_calls: None, tool_call_id: None }]);
        s
    }

    /// Reset conversation history while preserving system instructions.
    pub fn reset_history(&mut self)
        ensures
            final(self).history@ == old(self).history@.take(if old(self).history@.len() > 0 { 1 } else { 0 }),
            final(self).session_tokens == old(self).session_tokens,
            final(self).max_steps == old(self).max_steps,
            final(self).steps_left == old(self).steps_left,
    {
        self.history.truncate(1);
    }

    /// Starts a run on a prompt: the prompt joins the history and the run
    /// may make up to `max_steps` requests. Returns whether a first request
    /// is to be made.
    pub fn begin_run(&mut self, prompt: &str) -> (go: bool)
        ensures
            history_view(final(self).history@) == history_view(old(self).history@).push(MessageView { role: Role::User, content: Some(prompt@), tool_calls: None, tool_call_id: None }),
            final(self).steps_left == old(self).max_steps,
            final(self).max_steps == old(self).max_steps,
            final(self).session_tokens == old(self).session_tokens,
            go == (old(self).max_steps > 0),
    {
        let ghost h = history_view(self.history@);
        self.history.push(ChatMessage::user(prompt));
        self.steps_left = self.max_steps;
        assert(history_view(self.history@) =~= h.push(MessageView { role: Role::User, content: Some(prompt@), tool_calls: None, tool_call_id: None }));
        self.max_steps > 0
    }

    /// Takes in the reply of `model` to the latest request: counts its
    /// tokens, records the assistant message, and says which events to
    /// report (usage, the model, and the text when it is not blank) and
    /// whether tools are to run. One request of the run is used up.
    pub fn absorb_reply(&mut self, model: &str, reply: ChatReply) -> (r: (Vec<AgentEvent>, StepOutcome))
        requires
            old(self).steps_left > 0,
            old(self).session_tokens + reply.prompt_tokens + reply.completion_tokens <= usize::MAX,
        ensures
            final(self).session_tokens == old(self).session_tokens + reply.prompt_tokens + reply.completion_tokens,
            final(self).steps_left == old(self).steps_left - 1,
            final(self).max_steps == old(self).max_steps,
            history_view(final(self).history@) == history_view(old(self).history@).push(MessageView {
                role: Role::Assistant,
                content: config::opt_view(reply.content),
                tool_calls: provider::calls_view(reply.tool_calls),
                tool_call_id: None,
            }),
            reply_events_ok(r.0@, model@, reply, final(self).session_tokens),
            match r.1 {
                StepOutcome::Finished => match reply.tool_calls {
                    Some(calls) => calls@.len() == 0,
                    None => true,
                },
                StepOutcome::RunTools(calls) => reply.tool_calls is Some && calls@.len() > 0
                    && provider::calls_view(Some(calls)) == provider::calls_view(reply.tool_calls),
            },
    {
        self.session_tokens = self.session_tokens + reply.prompt_tokens + reply.completion_tokens;
        self.steps_left = self.steps_left - 1;
        let mut events: Vec<AgentEvent> = Vec::new();
        events.push(AgentEvent::UsageUpdate {
            prompt_tokens: reply.prompt_tokens,
            completion_tokens: reply.completion_tokens,
            session_tokens: self.session_tokens,
            free_tier: is_free_model(model),
        });
        events.push(AgentEvent::ModelSelected(String::from_str(model)));
        match &reply.content {
            Some(text) => {
                if !is_blank_str(text.as_str()) {
                    events.push(AgentEvent::AssistantMessage(text.clone()));
                }
            },
            None => {},
        }
        let outcome = match &reply.tool_calls {
            Some(calls) => {
                if calls.len() == 0 {
                    StepOutcome::Finished
                } else {
                    let copied = copy_calls(calls);
                    assert(copied@.map_values(|t: ToolCall| t@).len() == copied@.len());
                    assert(provider::calls_view(Some(copied)) == provider::calls_view(reply.tool_calls));
                    StepOutcome::RunTools(copied)
                }
            },
            None => StepOutcome::Finished,
        };
        let ghost h = history_view(self.history@);
        let ChatReply { content, tool_calls, prompt_tokens: _, completion_tokens: _ } = reply;
        self.history.push(ChatMessage::assistant(content, tool_calls));
        assert(history_view(self.history@) =~= h.push(MessageView {
            role: Role::Assistant,
            content: config::opt_view(reply.content),
            tool_calls: provider::calls_view(reply.tool_calls),
            tool_call_id: None,
        }));
        (events, outcome)
    }

    /// The event reported when a tool starts.
    pub fn tool_started(call: &ToolCall) -> (e: AgentEvent)
        ensures
            e matches AgentEvent::ToolExecuting { id, name, args } && id@ == call.id@ && name@
                == call.function.name@ && args@ == call.function.arguments@,
    {
        AgentEvent::ToolExecuting {
            id: call.id.clone(),
            name: call.function.name.clone(),
            args: call.function.arguments.clone(),
        }
    }

    /// Records the output of a finished tool in the history and returns the
    /// event reporting it.
    pub fn tool_finished(&mut self, call: &ToolCall, output: String, duration_ms: u128) -> (e: AgentEvent)
        ensures
            history_view(final(self).history@) == history_view(old(self).history@).push(MessageView {
                role: Role::Tool,
                content: Some(output@),
                tool_calls: None,
                tool_call_id: Some(call.id@),
            }),
            final(self).session_tokens == old(self).session_tokens,
            final(self).steps_left == old(self).steps_left,
            final(self).max_steps == old(self).max_steps,
            e matches AgentEvent::ToolCompleted { id, name, output: o, duration_ms: d } && id@
                == call.id@ && name@ == call.function.name@ && o@ == output@ && d == duration_ms,
    {
        let event = AgentEvent::ToolCompleted {
            id: call.id.clone(),
            name: call.function.name.clone(),
            output: output.clone(),
            duration_ms,
        };
        let ghost h = history_view(self.history@);
        self.history.push(ChatMessage::tool(output, call.id.clone()));
        assert(history_view(self.history@) =~= h.push(MessageView {
            role: Role::Tool,
            content: Some(output@),
            tool_calls: None,
            tool_call_id: Some(call.id@),
        }));
        event
    }

    /// A chat request failed with `err` (every model of the pool was tried,
    /// or the failure ends the step): the run stops and reports that one
    /// error.
    pub fn chat_failed(&mut self, err: &str) -> (events: Vec<AgentEvent>)
        ensures
            events@.len() == 1,
            events@[0] matches AgentEvent::Error(e) && e@ == err@,
            final(self).steps_left == 0,
            final(self).history@ == old(self).history@,
            final(self).session_tokens == old(self).session_tokens,
            final(self).max_steps == old(self).max_steps,
    {
        self.steps_left = 0;
        let mut events: Vec<AgentEvent> = Vec::new();
        events.push(AgentEvent::Error(String::from_str(err)));
        events
    }

    /// Ends a step whose tools have all run: returns whether the run may
    /// make another request.
    pub fn may_continue(&self) -> (go: bool)
        ensures
            go == (self.steps_left > 0),
    {
        self.steps_left > 0
    }
}

/// The events reported for a reply, in order: usage, the model, and the
/// assistant's text when it is not blank.
pub open spec fn reply_events_ok(events: Seq<AgentEvent>, model: Seq<char>, reply: ChatReply, session_tokens: usize) -> bool {
    let show_text = reply.content is Some && !text::is_blank(reply.content->0@);
    &&& events.len() == if show_text { 3int } else { 2int }
    &&& events[0] matches AgentEvent::UsageUpdate { prompt_tokens, completion_tokens, session_tokens: s, free_tier }
        && prompt_tokens == reply.prompt_tokens && completion_tokens == reply.completion_tokens
        && s == session_tokens && free_tier == text::contains(model, ":free"@)
    &&& events[1] matches AgentEvent::ModelSelected(m) && m@ == model
    &&& show_text ==> (events[2] matches AgentEvent::AssistantMessage(t) && t@ == reply.content->0@)
}

} // verus!
