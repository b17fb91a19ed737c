//! Decisions of the gateway client: credentials, the order in which models
//! are tried, which failures move on to the next model, the request
//! address and headers, and the reading of a completion reply.
use vstd::prelude::*;
use vstd::string::StringExecFns;
use crate::text::{self, chars_of, contains_str, string_of};
use crate::config::{self, ApexConfig, ModelPoolConfig};

verus! {

// ---------------------------------------------------------------------------
// Messages exchanged with the gateway
// ---------------------------------------------------------------------------

/// The function part of a tool call.
#[derive(Debug, Clone)]
pub struct FunctionCall {
    pub name: String,
    pub arguments: String,
}

/// A tool call requested by the model.
#[derive(Debug, Clone)]
pub struct ToolCall {
    pub id: String,
    pub call_type: String,
    pub function: FunctionCall,
}

pub struct ToolCallView {
    pub id: Seq<char>,
    pub call_type: Seq<char>,
    pub name: Seq<char>,
    pub arguments: Seq<char>,
}

impl View for ToolCall {
    type V = ToolCallView;

    open spec fn view(&self) -> ToolCallView {
        ToolCallView {
            id: self.id@,
            call_type: self.call_type@,
            name: self.function.name@,
            arguments: self.function.arguments@,
        }
    }
}

/// The `arguments` field of a tool call as it arrived.
#[derive(Debug, Clone)]
pub enum RawArguments {
    /// A JSON string: its text.
    Text(String),
    /// Any other JSON value: its serialisation.
    Json(String),
    /// No such field.
    Missing,
}

/// The `function` object of a tool call as it arrived; `name` is `None`
/// when absent or not a string.
#[derive(Debug, Clone)]
pub struct RawFunction {
    pub name: Option<String>,
    pub arguments: RawArguments,
}

/// A tool call as it arrived; string fields are `None` when absent or not
/// strings, `function` is `None` when absent.
#[derive(Debug, Clone)]
pub struct RawToolCall {
    pub id: Option<String>,
    pub call_type: Option<String>,
    pub function: Option<RawFunction>,
}

/// The parts of a chat completion reply that the agent reads.
#[derive(Debug, Clone)]
pub struct RawReply {
    /// `choices` is an array with a first element.
    pub has_choice: bool,
    /// That first choice has a `message`.
    pub has_message: bool,
    /// `message.content` when it is a string.
    pub content: Option<String>,
    /// `message.tool_calls` when it is an array.
    pub tool_calls: Option<Vec<RawToolCall>>,
    /// `usage.prompt_tokens` when it is an unsigned integer.
    pub prompt_tokens: Option<u64>,
    /// `usage.completion_tokens` when it is an unsigned integer.
    pub completion_tokens: Option<u64>,
}

/// A reply the agent can act on.
#[derive(Debug, Clone)]
pub struct ChatReply {
    pub content: Option<String>,
    pub tool_calls: Option<Vec<ToolCall>>,
    pub prompt_tokens: usize,
    pub completion_tokens: usize,
}

/// Why a chat step failed.
#[derive(Debug, Clone)]
pub enum ChatError {
    /// No key and the gateway is not on this machine.
    MissingApiKey { base_url: String },
    /// The reply has no choice.
    NoChoices,
    /// The first choice has no message.
    MissingMessage,
    /// A tool call has no `function` object.
    MissingFunction,
    /// A model failed and falling back is switched off; the text of that
    /// failure.
    ModelFailed { message: String },
    /// Every model failed; the text of the last failure.
    AllModelsFailed { last_error: String },
}

impl ChatError {
    /// The text reported for this error.
    pub fn message(&self) -> (m: String)
        ensures
            m@ == chat_error_message(*self),
    {
        match self {
            ChatError::MissingApiKey { base_url } => {
                let mut m = String::from_str("No API key found for gateway '");
                m.append(base_url.as_str());
                m.append("'!\nSet your key with: set OMNIROUTE_API_KEY=your_key or in .apex/config.toml");
                m
            },
            ChatError::NoChoices => String::from_str("No choices returned in API response"),
            ChatError::MissingMessage => String::from_str("Missing message in choice"),
            ChatError::MissingFunction => String::from_str("Missing function in tool_call"),
            ChatError::ModelFailed { message } => message.clone(),
            ChatError::AllModelsFailed { last_error } => {
                let mut m = String::from_str("All models in fallback pool failed. Last error: ");
                m.append(last_error.as_str());
                m
            },
        }
    }
}

/// The text of each chat error.
pub open spec fn chat_error_message(e: ChatError) -> Seq<char> {
    match e {
        ChatError::MissingApiKey { base_url } => "No API key found for gateway '"@ + base_url@
            + "'!\nSet your key with: set OMNIROUTE_API_KEY=your_key or in .apex/config.toml"@,
        ChatError::NoChoices => "No choices returned in API response"@,
        ChatError::MissingMessage => "Missing message in choice"@,
        ChatError::MissingFunction => "Missing function in tool_call"@,
        ChatError::ModelFailed { message } => message@,
        ChatError::AllModelsFailed { last_error } => "All models in fallback pool failed. Last error: "@
            + last_error@,
    }
}

// ---------------------------------------------------------------------------
// Credentials and request details
// ---------------------------------------------------------------------------

/// `url` points at a gateway on this machine.
pub fn is_local_gateway(url: &str) -> (b: bool)
    ensures
        b == config::is_local_url(url@),
{
    contains_str(url, "localhost") || contains_str(url, "127.0.0.1")
}

/// A request may go out unless there is no key and the gateway is remote.
pub fn check_credentials(api_key: &str, base_url: &str) -> (r: Result<(), ChatError>)
    ensures
        r is Ok <==> (api_key@.len() > 0 || config::is_local_url(base_url@)),
        r matches Err(e) ==> e == (ChatError::MissingApiKey { base_url: e->base_url })
            && e->base_url@ == base_url@,
{
    if api_key.is_empty() && !is_local_gateway(base_url) {
        Err(ChatError::MissingApiKey { base_url: String::from_str(base_url) })
    } else {
        Ok(())
    }
}

/// The key a client holds: the configured one, or empty.
pub fn client_api_key(config: &ApexConfig) -> (k: String)
    ensures
        k@ == match config::api_key_spec(config.provider@) {
            Some(k) => k,
            None => Seq::empty(),
        },
{
    match config.get_api_key() {
        Some(k) => k,
        None => String::new(),
    }
}

/// `s.trim_end_matches('/')`.
pub open spec fn trim_trailing_slashes(s: Seq<char>) -> Seq<char>
    decreases s.len(),
{
    if s.len() > 0 && s.last() == '/' {
        trim_trailing_slashes(s.drop_last())
    } else {
        s
    }
}

/// The completions endpoint under a gateway address.
pub open spec fn completions_url(base_url: Seq<char>) -> Seq<char> {
    trim_trailing_slashes(base_url) + "/chat/completions"@
}

/// `format!("{}/chat/completions", base_url.trim_end_matches('/'))`.
pub fn chat_completions_url(base_url: &str) -> (u: String)
    ensures
        u@ == completions_url(base_url@),
{
    let v = chars_of(base_url);
    let mut n = v.len();
    assert(v@.take(n as int) =~= v@);
    while n > 0 && v[n - 1] == '/'
        invariant
            n <= v@.len(),
            trim_trailing_slashes(v@) == trim_trailing_slashes(v@.take(n as int)),
        decreases n,
    {
        assert(v@.take(n as int).drop_last() =~= v@.take(n - 1));
        n = n - 1;
    }
    let mut u = string_of(crate::text::slice_range(v.as_slice(), 0, n).as_slice());
    u.append("/chat/completions");
    u
}

/// The bearer token: the key, or `omniroute` when it is empty.
pub open spec fn bearer_token(api_key: Seq<char>) -> Seq<char> {
    if api_key.len() > 0 {
        api_key
    } else {
        "omniroute"@
    }
}

/// The `Authorization` header value.
pub fn authorization_header(api_key: &str) -> (h: String)
    ensures
        h@ == "Bearer "@ + bearer_token(api_key@),
{
    let mut h = String::from_str("Bearer ");
    if !api_key.is_empty() {
        h.append(api_key);
    } else {
        h.append("omniroute");
    }
    h
}

/// OpenRouter wants referer and title headers.
pub fn needs_openrouter_headers(base_url: &str) -> (b: bool)
    ensures
        b == text::contains(base_url@, "openrouter.ai"@),
{
    contains_str(base_url, "openrouter.ai")
}

// ---------------------------------------------------------------------------
// The model pool
// ---------------------------------------------------------------------------

/// `acc` with `m` appended unless already present.
pub open spec fn push_unique(acc: Seq<Seq<char>>, m: Seq<char>) -> Seq<Seq<char>> {
    if acc.contains(m) {
        acc
    } else {
        acc.push(m)
    }
}

/// The primary model, then each model of the first `n` of the pool that is
/// not already listed.
pub open spec fn models_prefix(primary: Seq<char>, pool: Seq<Seq<char>>, n: nat) -> Seq<Seq<char>>
    decreases n,
{
    if n == 0 {
        seq![primary]
    } else {
        push_unique(models_prefix(primary, pool, (n - 1) as nat), pool[n - 1])
    }
}

/// The models tried for one chat step, in order.
pub open spec fn models_to_try_spec(primary: Seq<char>, pool: Seq<Seq<char>>) -> Seq<Seq<char>> {
    models_prefix(primary, pool, pool.len())
}

/// Lists the primary model and then the fallback pool without duplicates.
pub fn models_to_try(models: &ModelPoolConfig) -> (v: Vec<String>)
    ensures
        config::strings_view(v@) == models_to_try_spec(models.primary@, config::strings_view(
            models.fallback_pool@,
        )),
{
    let ghost pool = config::strings_view(models.fallback_pool@);
    let mut v: Vec<String> = Vec::new();
    v.push(models.primary.clone());
    assert(config::strings_view(v@) =~= models_prefix(models.primary@, pool, 0));
    let mut i: usize = 0;
    while i < models.fallback_pool.len()
        invariant
            i <= models.fallback_pool@.len(),
            pool == config::strings_view(models.fallback_pool@),
            config::strings_view(v@) == models_prefix(models.primary@, pool, i as nat),
        decreases models.fallback_pool@.len() - i,
    {
        let m = &models.fallback_pool[i];
        let mut found = false;
        let mut j: usize = 0;
        while j < v.len()
            invariant
                j <= v@.len(),
                found <==> exists|k: int| 0 <= k < j && v@[k]@ == m@,
            decreases v@.len() - j,
        {
            if v[j] == *m {
                found = true;
            }
            j = j + 1;
        }
        let ghost before = config::strings_view(v@);
        proof {
            if found {
                let k = choose|k: int| 0 <= k < j && v@[k]@ == m@;
                assert(before[k] == m@);
            } else {
                assert forall|k: int| 0 <= k < before.len() implies before[k] != m@ by {
                    assert(before[k] == v@[k]@);
                }
            }
        }
        if !found {
            v.push(m.clone());
        }
        i = i + 1;
        assert(pool[i - 1] == m@);
        assert(config::strings_view(v@) =~= models_prefix(models.primary@, pool, i as nat));
    }
    v
}

/// The order of models is the primary model first, each model at most
/// once, and exactly the primary model and the models of the pool.
pub proof fn lemma_models_to_try(primary: Seq<char>, pool: Seq<Seq<char>>)
    ensures
        models_to_try_spec(primary, pool).len() >= 1,
        models_to_try_spec(primary, pool)[0] == primary,
        models_to_try_spec(primary, pool).no_duplicates(),
        forall|m: Seq<char>| pool.contains(m) ==> #[trigger] models_to_try_spec(primary, pool).contains(m),
        forall|m: Seq<char>|
            #[trigger] models_to_try_spec(primary, pool).contains(m) ==> m == primary || pool.contains(m),
{
    lemma_models_prefix(primary, pool, pool.len());
}

proof fn lemma_models_prefix(primary: Seq<char>, pool: Seq<Seq<char>>, n: nat)
    requires
        n <= pool.len(),
    ensures
        models_prefix(primary, pool, n).len() >= 1,
        models_prefix(primary, pool, n)[0] == primary,
        models_prefix(primary, pool, n).no_duplicates(),
        forall|i: int| 0 <= i < n ==> #[trigger] models_prefix(primary, pool, n).contains(pool[i]),
        forall|m: Seq<char>|
            #[trigger] models_prefix(primary, pool, n).contains(m) ==> m == primary || exists|i: int|
                0 <= i < n && pool[i] == m,
    decreases n,
{
    if n > 0 {
        let prev = models_prefix(primary, pool, (n - 1) as nat);
        lemma_models_prefix(primary, pool, (n - 1) as nat);
        let cur = models_prefix(primary, pool, n);
        let m = pool[n - 1];
        if !prev.contains(m) {
            assert(cur == prev.push(m));
            assert(cur[cur.len() - 1] == m);
            assert(cur.contains(m));
            assert forall|i: int| 0 <= i < n implies #[trigger] cur.contains(pool[i]) by {
                if i < n - 1 {
                    assert(prev.contains(pool[i]));
                    let k = choose|k: int| 0 <= k < prev.len() && prev[k] == pool[i];
                    assert(cur[k] == pool[i]);
                }
            }
            assert forall|x: Seq<char>| #[trigger] cur.contains(x) implies x == primary || exists|i: int|
                0 <= i < n && pool[i] == x by {
                let k = choose|k: int| 0 <= k < cur.len() && cur[k] == x;
                if k < prev.len() {
                    assert(prev[k] == x);
                    assert(prev.contains(x));
                } else {
                    assert(pool[n - 1] == x);
                }
            }
            assert(cur.no_duplicates()) by {
                assert forall|a: int, b: int| 0 <= a < cur.len() && 0 <= b < cur.len() && a != b
                    implies cur[a] != cur[b] by {
                    if a < prev.len() && b < prev.len() {
                    } else if a < prev.len() {
                        assert(prev.contains(prev[a]));
                    } else {
                        assert(prev.contains(prev[b]));
                    }
                }
            }
        } else {
            assert(cur == prev);
            assert forall|i: int| 0 <= i < n implies #[trigger] cur.contains(pool[i]) by {
                if i < n - 1 {
                    assert(prev.contains(pool[i]));
                }
            }
            assert forall|x: Seq<char>| #[trigger] cur.contains(x) implies x == primary || exists|i: int|
                0 <= i < n && pool[i] == x by {
                if prev.contains(x) && x != primary {
                    let i = choose|i: int| 0 <= i < n - 1 && pool[i] == x;
                    assert(0 <= i < n && pool[i] == x);
                }
            }
        }
    }
}

/// What a failed request leads to.
#[derive(Debug, Clone, Copy, PartialEq, Eq)]
pub enum FailureAction {
    /// Rate limited or busy: wait briefly, then try the next model.
    BackOffAndTryNext,
    /// Another failure with falling back switched on: try the next model.
    TryNext,
    /// Another failure with falling back switched off: give up.
    Abort,
}

/// The failure text reports a rate limit or an overloaded model.
pub open spec fn is_rate_limited(err: Seq<char>) -> bool {
    text::contains(err, "429"@) || text::contains(err, "rate limit"@) || text::contains(err, "busy"@)
        || text::contains(err, "overloaded"@)
}

/// Decides what a failed request leads to.
pub fn classify_failure(err: &str, auto_fallback: bool) -> (a: FailureAction)
    ensures
        a == failure_action(err@, auto_fallback),
{
    if contains_str(err, "429") || contains_str(err, "rate limit") || contains_str(err, "busy")
        || contains_str(err, "overloaded") {
        FailureAction::BackOffAndTryNext
    } else if auto_fallback {
        FailureAction::TryNext
    } else {
        FailureAction::Abort
    }
}

// ---------------------------------------------------------------------------
// Reading a completion reply
// ---------------------------------------------------------------------------

/// The tool call a raw call becomes: missing `id` is `call_0`, missing
/// `type` is `function`, missing `name` is empty and missing arguments are
/// `{}`.
pub open spec fn normalized_call(r: RawToolCall) -> ToolCallView
    recommends
        r.function is Some,
{
    let f = r.function->0;
    ToolCallView {
        id: match r.id {
            Some(s) => s@,
            None => "call_0"@,
        },
        call_type: match r.call_type {
            Some(s) => s@,
            None => "function"@,
        },
        name: match f.name {
            Some(s) => s@,
            None => Seq::empty(),
        },
        arguments: match f.arguments {
            RawArguments::Text(s) => s@,
            RawArguments::Json(s) => s@,
            RawArguments::Missing => "{}"@,
        },
    }
}

/// Every raw call has a `function` object.
pub open spec fn all_have_function(calls: Seq<RawToolCall>) -> bool {
    forall|i: int| 0 <= i < calls.len() ==> (#[trigger] calls[i]).function is Some
}

/// A reply can be acted on.
pub open spec fn reply_ok(raw: RawReply) -> bool {
    &&& raw.has_choice
    &&& raw.has_message
    &&& match raw.tool_calls {
        Some(calls) => all_have_function(calls@),
        None => true,
    }
}

/// The tool calls of a reply that can be acted on: none when the array is
/// absent or empty.
pub open spec fn reply_calls(raw: RawReply) -> Option<Seq<ToolCallView>> {
    match raw.tool_calls {
        Some(calls) => if calls@.len() == 0 {
            None
        } else {
            Some(calls@.map_values(|c: RawToolCall| normalized_call(c)))
        },
        None => None,
    }
}

/// Tool calls as plain values.
pub open spec fn calls_view(c: Option<Vec<ToolCall>>) -> Option<Seq<ToolCallView>> {
    match c {
        Some(v) => Some(v@.map_values(|t: ToolCall| t@)),
        None => None,
    }
}

/// A token count; absent counts are zero.
pub open spec fn token_count(t: Option<u64>) -> usize {
    match t {
        Some(n) => n as usize,
        None => 0,
    }
}

fn normalize_call(r: &RawToolCall) -> (t: ToolCall)
    requires
        r.function is Some,
    ensures
        t@ == normalized_call(*r),
{
    let f = match &r.function {
        Some(f) => f,
        None => {
            return ToolCall {
                id: String::new(),
                call_type: String::new(),
                function: FunctionCall { name: String::new(), arguments: String::new() },
            };
        },
    };
    let id = match &r.id {
        Some(s) => s.clone(),
        None => String::from_str("call_0"),
    };
    let call_type = match &r.call_type {
        Some(s) => s.clone(),
        None => String::from_str("function"),
    };
    let name = match &f.name {
        Some(s) => s.clone(),
        None => String::new(),
    };
    let arguments = match &f.arguments {
        RawArguments::Text(s) => s.clone(),
        RawArguments::Json(s) => s.clone(),
        RawArguments::Missing => String::from_str("{}"),
    };
    ToolCall { id, call_type, function: FunctionCall { name, arguments } }
}

/// Reads the content, tool calls and token usage of a completion reply.
pub fn interpret_reply(raw: &RawReply) -> (r: Result<ChatReply, ChatError>)
    ensures
        r is Ok <==> reply_ok(*raw),
        r matches Err(e) ==> (if !raw.has_choice {
            e is NoChoices
        } else if !raw.has_message {
            e is MissingMessage
        } else {
            e is MissingFunction
        }),
        r matches Ok(reply) ==> {
            &&& config::opt_view(reply.content) == config::opt_view(raw.content)
            &&& calls_view(reply.tool_calls) == reply_calls(*raw)
            &&& reply.prompt_tokens == token_count(raw.prompt_tokens)
            &&& reply.completion_tokens == token_count(raw.completion_tokens)
        },
{
    if !raw.has_choice {
        return Err(ChatError::NoChoices);
    }
    if !raw.has_message {
        return Err(ChatError::MissingMessage);
    }
    let tool_calls = match &raw.tool_calls {
        Some(calls) => {
            let mut out: Vec<ToolCall> = Vec::new();
            let mut i: usize = 0;
            while i < calls.len()
                invariant
                    raw.has_choice,
                    raw.has_message,
                    raw.tool_calls == Some(*calls),
                    i <= calls@.len(),
                    out@.len() == i,
                    forall|j: int| 0 <= j < i ==> (#[trigger] calls@[j]).function is Some,
                    forall|j: int| 0 <= j < i ==> (#[trigger] out@[j])@ == normalized_call(calls@[j]),
                decreases calls@.len() - i,
            {
                if calls[i].function.is_none() {
                    return Err(ChatError::MissingFunction);
                }
                let t = normalize_call(&calls[i]);
                out.push(t);
                i = i + 1;
            }
            assert(out@.map_values(|t: ToolCall| t@) =~= calls@.map_values(
                |c: RawToolCall| normalized_call(c),
            ));
            if out.len() == 0 {
                None
            } else {
                Some(out)
            }
        },
        None => None,
    };
    let content = match &raw.content {
        Some(c) => Some(c.clone()),
        None => None,
    };
    let prompt_tokens: usize = match raw.prompt_tokens {
        Some(n) => n as usize,
        None => 0,
    };
    let completion_tokens: usize = match raw.completion_tokens {
        Some(n) => n as usize,
        None => 0,
    };
    Ok(ChatReply { content, tool_calls, prompt_tokens, completion_tokens })
}

// ---------------------------------------------------------------------------
// Texts of the gateway client
// ---------------------------------------------------------------------------

/// The context given to a failed connection.
pub fn connect_failure_context(url: &str) -> (m: String)
    ensures
        m@ == "Failed to connect to OmniRoute gateway at "@ + url@ + ". Ensure OmniRoute is running."@,
{
    let mut m = String::from_str("Failed to connect to OmniRoute gateway at ");
    m.append(url);
    m.append(". Ensure OmniRoute is running.");
    m
}

/// The context given to a reply that is not JSON.
pub fn parse_failure_context(url: &str) -> (m: String)
    ensures
        m@ == "Failed to parse JSON response from OmniRoute gateway at "@ + url@,
{
    let mut m = String::from_str("Failed to parse JSON response from OmniRoute gateway at ");
    m.append(url);
    m
}

/// The error of an unsuccessful HTTP status, with the status as it is
/// displayed and the body of the reply.
pub fn http_error_message(status: &str, body: &str) -> (m: String)
    ensures
        m@ == "OmniRoute gateway error (HTTP "@ + status@ + "): "@ + body@,
{
    let mut m = String::from_str("OmniRoute gateway error (HTTP ");
    m.append(status);
    m.append("): ");
    m.append(body);
    m
}

/// The text of the notice printed when `model` failed with `err` and the
/// next model is tried.
pub open spec fn failover_notice_text(action: FailureAction, model: Seq<char>, err: Seq<char>) -> Seq<char> {
    match action {
        FailureAction::BackOffAndTryNext => "\x1b[33m[!] Model '"@ + model
            + "' rate-limited or busy. Auto-routing to next fallback model in OmniRoute pool...\x1b[0m"@,
        _ => "\x1b[33m[!] Model '"@ + model + "' failed: "@ + err + ". Trying fallback...\x1b[0m"@,
    }
}

/// The notice printed when a model fails and the next one is tried.
pub fn failover_notice(action: FailureAction, model: &str, err: &str) -> (m: String)
    ensures
        m@ == failover_notice_text(action, model@, err@),
{
    match action {
        FailureAction::BackOffAndTryNext => {
            let mut m = String::from_str("\x1b[33m[!] Model '");
            m.append(model);
            m.append("' rate-limited or busy. Auto-routing to next fallback model in OmniRoute pool...\x1b[0m");
            m
        },
        _ => {
            let mut m = String::from_str("\x1b[33m[!] Model '");
            m.append(model);
            m.append("' failed: ");
            m.append(err);
            m.append(". Trying fallback...\x1b[0m");
            m
        },
    }
}


// ---------------------------------------------------------------------------
// Falling back through the model pool
// ---------------------------------------------------------------------------

/// The action a failure text leads to.
pub open spec fn failure_action(err: Seq<char>, auto_fallback: bool) -> FailureAction {
    if is_rate_limited(err) {
        FailureAction::BackOffAndTryNext
    } else if auto_fallback {
        FailureAction::TryNext
    } else {
        FailureAction::Abort
    }
}

/// Progress of one chat step through the models to try: the request goes
/// to `models[current]`.
pub struct FallbackRun {
    pub models: Vec<String>,
    pub current: usize,
    pub auto_fallback: bool,
}

/// What the client does after a failed request.
#[derive(Debug)]
pub struct FailoverStep {
    /// The notice to print, when the failure does not end the step at once.
    pub notice: Option<String>,
    /// Wait briefly before going on.
    pub back_off: bool,
    /// The next model to send the request to, or the error the step fails
    /// with.
    pub next: Result<String, ChatError>,
}

impl FallbackRun {
    /// The run points at one of its models.
    pub open spec fn wf(&self) -> bool {
        self.current < self.models@.len()
    }

    /// The models of the run as plain text.
    pub open spec fn models_view(&self) -> Seq<Seq<char>> {
        config::strings_view(self.models@)
    }

    /// Starts a chat step on the primary model.
    pub fn start(pool: &ModelPoolConfig) -> (r: FallbackRun)
        ensures
            r.wf(),
            r.models_view() == models_to_try_spec(pool.primary@, config::strings_view(
                pool.fallback_pool@,
            )),
            r.current == 0,
            r.auto_fallback == pool.auto_fallback,
    {
        let models = models_to_try(pool);
        proof {
            lemma_models_to_try(pool.primary@, config::strings_view(pool.fallback_pool@));
            assert(config::strings_view(models@).len() == models@.len());
        }
        FallbackRun { models, current: 0, auto_fallback: pool.auto_fallback }
    }

    /// The model the next request goes to.
    pub fn model(&self) -> (m: String)
        requires
            self.wf(),
        ensures
            m@ == self.models@[self.current as int]@,
    {
        self.models[self.current].clone()
    }

    /// Takes in the failure text `err` of the request to the current model:
    /// a rate limit or overload, or any failure when falling back is on,
    /// moves on to the next model (after a pause for the former) with a
    /// notice; past the last model the step fails with the last error.
    /// Any other failure ends the step with that failure.
    pub fn on_failure(&mut self, err: &str) -> (s: FailoverStep)
        requires
            old(self).wf(),
        ensures
            final(self).wf(),
            final(self).models@ == old(self).models@,
            final(self).auto_fallback == old(self).auto_fallback,
            ({
                let action = failure_action(err@, old(self).auto_fallback);
                let failed = old(self).models@[old(self).current as int]@;
                if action == FailureAction::Abort {
                    &&& s.notice is None
                    &&& !s.back_off
                    &&& final(self).current == old(self).current
                    &&& s.next matches Err(ChatError::ModelFailed { message }) && message@ == err@
                } else {
                    &&& s.notice matches Some(n) && n@ == failover_notice_text(action, failed, err@)
                    &&& s.back_off == (action == FailureAction::BackOffAndTryNext)
                    &&& if old(self).current + 1 < old(self).models@.len() {
                        &&& final(self).current == old(self).current + 1
                        &&& s.next matches Ok(m) && m@ == old(self).models@[old(self).current + 1]@
                    } else {
                        &&& final(self).current == old(self).current
                        &&& s.next matches Err(ChatError::AllModelsFailed { last_error }) && last_error@
                            == err@
                    }
                }
            }),
    {
        let action = classify_failure(err, self.auto_fallback);
        match action {
            FailureAction::Abort => {
                return FailoverStep {
                    notice: None,
                    back_off: false,
                    next: Err(ChatError::ModelFailed { message: String::from_str(err) }),
                };
            },
            _ => {},
        }
        let notice = failover_notice(action, self.models[self.current].as_str(), err);
        let back_off = match action {
            FailureAction::BackOffAndTryNext => true,
            _ => false,
        };
        if self.current < self.models.len() - 1 {
            self.current = self.current + 1;
            FailoverStep { notice: Some(notice), back_off, next: Ok(self.models[self.current].clone()) }
        } else {
            FailoverStep {
                notice: Some(notice),
                back_off,
                next: Err(ChatError::AllModelsFailed { last_error: String::from_str(err) }),
            }
        }
    }
}


/// Which failures count as rate limiting: exactly those whose text
/// mentions `429`, `rate limit`, `busy` or `overloaded`. Those pause and
/// move on to the next model whatever the fallback setting; any other
/// failure moves on only when falling back is switched on, and otherwise
/// ends the step.
pub proof fn lemma_rate_limit_words(err: Seq<char>, auto_fallback: bool)
    ensures
        (failure_action(err, auto_fallback) == FailureAction::BackOffAndTryNext) <==> (
        text::contains(err, "429"@) || text::contains(err, "rate limit"@) || text::contains(
            err,
            "busy"@,
        ) || text::contains(err, "overloaded"@)),
        !text::contains(err, "429"@) && !text::contains(err, "rate limit"@) && !text::contains(
            err,
            "busy"@,
        ) && !text::contains(err, "overloaded"@) ==> failure_action(err, auto_fallback) == (if auto_fallback {
            FailureAction::TryNext
        } else {
            FailureAction::Abort
        }),
        failure_action(err, false) != FailureAction::TryNext,
        failure_action(err, true) != FailureAction::Abort,
{
}

/// Reading a reply keeps each tool call as it arrived: the arguments are
/// exactly the text that was sent (a JSON string's text, or another JSON
/// value's serialisation), and only absent arguments become `{}`; a given
/// id, type and name are kept too.
pub proof fn lemma_reply_keeps_calls(raw: RawReply, i: int)
    requires
        reply_ok(raw),
        raw.tool_calls is Some,
        0 <= i < raw.tool_calls->0@.len(),
    ensures
        ({
            let given = raw.tool_calls->0@[i];
            let f = given.function->0;
            let read = reply_calls(raw)->0[i];
            &&& reply_calls(raw) is Some
            &&& reply_calls(raw)->0.len() == raw.tool_calls->0@.len()
            &&& (f.arguments matches RawArguments::Text(s) ==> read.arguments == s@)
            &&& (f.arguments matches RawArguments::Json(s) ==> read.arguments == s@)
            &&& (f.arguments is Missing ==> read.arguments == "{}"@)
            &&& (given.id matches Some(s) ==> read.id == s@)
            &&& (given.id is None ==> read.id == "call_0"@)
            &&& (given.call_type matches Some(s) ==> read.call_type == s@)
            &&& (f.name matches Some(s) ==> read.name == s@)
        }),
{
    let calls = raw.tool_calls->0@;
    assert(calls[i].function is Some);
}

} // verus!
