//! The agent's tools: their definitions, the reading of a tool call's
//! arguments, and what each tool computes around the file system and the
//! shell, which the caller reaches.
use vstd::prelude::*;
use vstd::string::StringExecFns;
use crate::text::{self, chars_of, contains_str, is_blank_str, push_decimal, string_of};

verus! {

// ---------------------------------------------------------------------------
// Tool definitions
// ---------------------------------------------------------------------------

/// The JSON type of a parameter.
#[derive(Debug, Clone, Copy, PartialEq, Eq)]
pub enum ParamType {
    String,
    Integer,
    Boolean,
}

/// One parameter of a tool.
#[derive(Debug)]
pub struct ToolParam {
    pub name: &'static str,
    pub param_type: ParamType,
    pub description: &'static str,
    pub required: bool,
}

/// A tool offered to the model: a function with an object of parameters.
#[derive(Debug)]
pub struct ToolDefinition {
    pub name: &'static str,
    pub description: &'static str,
    pub parameters: Vec<ToolParam>,
}

pub struct ParamView {
    pub name: Seq<char>,
    pub param_type: ParamType,
    pub description: Seq<char>,
    pub required: bool,
}

pub struct ToolView {
    pub name: Seq<char>,
    pub description: Seq<char>,
    pub parameters: Seq<ParamView>,
}

impl View for ToolParam {
    type V = ParamView;

    open spec fn view(&self) -> ParamView {
        ParamView {
            name: self.name@,
            param_type: self.param_type,
            description: self.description@,
            required: self.required,
        }
    }
}

impl View for ToolDefinition {
    type V = ToolView;

    open spec fn view(&self) -> ToolView {
        ToolView {
            name: self.name@,
            description: self.description@,
            parameters: self.parameters@.map_values(|p: ToolParam| p@),
        }
    }
}

pub open spec fn pv(name: Seq<char>, t: ParamType, description: Seq<char>, required: bool) -> ParamView {
    ParamView { name, param_type: t, description, required }
}

/// The tools, in the order they are offered.
pub open spec fn tool_definitions_spec() -> Seq<ToolView> {
    seq![
        ToolView {
            name: "ripgrep"@,
            description: "Search for text/regex patterns across files in the workspace (ignores gitignored files)"@,
            parameters: seq![
                pv("pattern"@, ParamType::String, "The regular expression or text pattern to search for"@, true),
                pv("path"@, ParamType::String, "Optional subdirectory to restrict the search to"@, false),
                pv("case_insensitive"@, ParamType::Boolean, "Whether to perform case-insensitive matching (default: false)"@, false),
            ],
        },
        ToolView {
            name: "find_files"@,
            description: "Find files and directories matching a query substring or extension across the workspace"@,
            parameters: seq![
                pv("query"@, ParamType::String, "Substring or extension to search for in filenames (e.g. 'auth', '.rs', 'config')"@, true),
            ],
        },
        ToolView {
            name: "view_file"@,
            description: "View file content with line numbers and optional line range window"@,
            parameters: seq![
                pv("path"@, ParamType::String, "Relative path of the file to read"@, true),
                pv("start_line"@, ParamType::Integer, "Optional starting line number (1-indexed)"@, false),
                pv("end_line"@, ParamType::Integer, "Optional ending line number (inclusive)"@, false),
            ],
        },
        ToolView {
            name: "write_file"@,
            description: "Create a new file or completely overwrite an existing file with the provided content"@,
            parameters: seq![
                pv("path"@, ParamType::String, "Relative path of the file to write"@, true),
                pv("content"@, ParamType::String, "The exact full text content to write"@, true),
                pv("overwrite"@, ParamType::Boolean, "Must be set to true if file already exists"@, false),
            ],
        },
        ToolView {
            name: "edit_file"@,
            description: "Make a surgical edit by replacing an exact, unique block of target content with replacement content"@,
            parameters: seq![
                pv("path"@, ParamType::String, "Relative path of the file to edit"@, true),
                pv("target_content"@, ParamType::String, "The exact existing lines to replace (must match uniquely)"@, true),
                pv("replacement_content"@, ParamType::String, "The new replacement lines"@, true),
            ],
        },
        ToolView {
            name: "run_command"@,
            description: "Execute a shell command in the project workspace with timeout and output capture"@,
            parameters: seq![
                pv("command"@, ParamType::String, "The shell command line to run (e.g. 'cargo check', 'npm test', 'ls')"@, true),
                pv("timeout_seconds"@, ParamType::Integer, "Optional timeout in seconds (default: 30)"@, false),
            ],
        },
        ToolView {
            name: "git_status"@,
            description: "Check current git branch, staged files, unstaged modifications, and untracked files"@,
            parameters: seq![],
        },
        ToolView {
            name: "git_diff"@,
            description: "Inspect current unstaged diffs across the repo or for a specific file"@,
            parameters: seq![
                pv("path"@, ParamType::String, "Optional specific file path to inspect diff for"@, false),
            ],
        },
    ]
}

fn param(name: &'static str, param_type: ParamType, description: &'static str, required: bool) -> (p: ToolParam)
    ensures
        p@ == pv(name@, param_type, description@, required),
{
    ToolParam { name, param_type, description, required }
}

fn tool(name: &'static str, description: &'static str, parameters: Vec<ToolParam>) -> (t: ToolDefinition)
    ensures
        t@ == (ToolView { name: name@, description: description@, parameters: parameters@.map_values(|p: ToolParam| p@) }),
{
    ToolDefinition { name, description, parameters }
}

/// The definitions of the tools offered to the model.
pub fn get_tool_definitions() -> (v: Vec<ToolDefinition>)
    ensures
        v@.map_values(|t: ToolDefinition| t@) == tool_definitions_spec(),
{
    let t0 = tool(
        "ripgrep",
        "Search for text/regex patterns across files in the workspace (ignores gitignored files)",
        vec![
            param("pattern", ParamType::String, "The regular expression or text pattern to search for", true),
            param("path", ParamType::String, "Optional subdirectory to restrict the search to", false),
            param("case_insensitive", ParamType::Boolean, "Whether to perform case-insensitive matching (default: false)", false),
        ],
    );
    let t1 = tool(
        "find_files",
        "Find files and directories matching a query substring or extension across the workspace",
        vec![
            param("query", ParamType::String, "Substring or extension to search for in filenames (e.g. 'auth', '.rs', 'config')", true),
        ],
    );
    let t2 = tool(
        "view_file",
        "View file content with line numbers and optional line range window",
        vec![
            param("path", ParamType::String, "Relative path of the file to read", true),
            param("start_line", ParamType::Integer, "Optional starting line number (1-indexed)", false),
            param("end_line", ParamType::Integer, "Optional ending line number (inclusive)", false),
        ],
    );
    let t3 = tool(
        "write_file",
        "Create a new file or completely overwrite an existing file with the provided content",
        vec![
            param("path", ParamType::String, "Relative path of the file to write", true),
            param("content", ParamType::String, "The exact full text content to write", true),
            param("overwrite", ParamType::Boolean, "Must be set to true if file already exists", false),
        ],
    );
    let t4 = tool(
        "edit_file",
        "Make a surgical edit by replacing an exact, unique block of target content with replacement content",
        vec![
            param("path", ParamType::String, "Relative path of the file to edit", true),
            param("target_content", ParamType::String, "The exact existing lines to replace (must match uniquely)", true),
            param("replacement_content", ParamType::String, "The new replacement lines", true),
        ],
    );
    let t5 = tool(
        "run_command",
        "Execute a shell command in the project workspace with timeout and output capture",
        vec![
            param("command", ParamType::String, "The shell command line to run (e.g. 'cargo check', 'npm test', 'ls')", true),
            param("timeout_seconds", ParamType::Integer, "Optional timeout in seconds (default: 30)", false),
        ],
    );
    let t6 = tool(
        "git_status",
        "Check current git branch, staged files, unstaged modifications, and untracked files",
        Vec::new(),
    );
    let t7 = tool(
        "git_diff",
        "Inspect current unstaged diffs across the repo or for a specific file",
        vec![
            param("path", ParamType::String, "Optional specific file path to inspect diff for", false),
        ],
    );
    let v = vec![t0, t1, t2, t3, t4, t5, t6, t7];
    assert(v@[0]@.parameters =~= tool_definitions_spec()[0].parameters);
    assert(v@[1]@.parameters =~= tool_definitions_spec()[1].parameters);
    assert(v@[2]@.parameters =~= tool_definitions_spec()[2].parameters);
    assert(v@[3]@.parameters =~= tool_definitions_spec()[3].parameters);
    assert(v@[4]@.parameters =~= tool_definitions_spec()[4].parameters);
    assert(v@[5]@.parameters =~= tool_definitions_spec()[5].parameters);
    assert(v@[6]@.parameters =~= tool_definitions_spec()[6].parameters);
    assert(v@[7]@.parameters =~= tool_definitions_spec()[7].parameters);
    assert(v@.map_values(|t: ToolDefinition| t@) =~= tool_definitions_spec());
    v
}

// ---------------------------------------------------------------------------
// Reading a tool call
// ---------------------------------------------------------------------------

/// A top-level field of the JSON object of a tool call's arguments.
#[derive(Debug, Clone)]
pub enum ArgValue {
    /// A string.
    Str(String),
    /// A boolean.
    Bool(bool),
    /// A number that is an unsigned 64-bit integer.
    UInt(u64),
    /// Anything else.
    Other,
}

/// The fields of a tool call's argument object, each key once. Arguments
/// that are not a JSON object have no fields.
#[derive(Debug, Clone)]
pub struct ToolArgs {
    pub fields: Vec<(String, ArgValue)>,
}

/// An argument value as a plain value.
pub enum ArgValueView {
    Str(Seq<char>),
    Bool(bool),
    UInt(u64),
    Other,
}

pub open spec fn arg_view(v: ArgValue) -> ArgValueView {
    match v {
        ArgValue::Str(s) => ArgValueView::Str(s@),
        ArgValue::Bool(b) => ArgValueView::Bool(b),
        ArgValue::UInt(n) => ArgValueView::UInt(n),
        ArgValue::Other => ArgValueView::Other,
    }
}

/// The fields of an argument object as plain values, in order.
pub open spec fn args_view(args: ToolArgs) -> Seq<(Seq<char>, ArgValueView)> {
    args.fields@.map_values(|f: (String, ArgValue)| (f.0@, arg_view(f.1)))
}

/// The fields of parsed arguments; none when there are no arguments.
pub open spec fn args_opt_view(args: Option<ToolArgs>) -> Option<Seq<(Seq<char>, ArgValueView)>> {
    match args {
        Some(a) => Some(args_view(a)),
        None => None,
    }
}

/// The value under `key`: the first field with that key.
pub open spec fn lookup_from(fields: Seq<(Seq<char>, ArgValueView)>, key: Seq<char>, i: int) -> Option<ArgValueView>
    decreases fields.len() - i,
{
    if i < 0 || i >= fields.len() {
        None
    } else if fields[i].0 == key {
        Some(fields[i].1)
    } else {
        lookup_from(fields, key, i + 1)
    }
}

pub open spec fn lookup(fields: Seq<(Seq<char>, ArgValueView)>, key: Seq<char>) -> Option<ArgValueView> {
    lookup_from(fields, key, 0)
}

/// `args.get(key).and_then(|v| v.as_str())`.
pub open spec fn arg_str(fields: Seq<(Seq<char>, ArgValueView)>, key: Seq<char>) -> Option<Seq<char>> {
    match lookup(fields, key) {
        Some(ArgValueView::Str(s)) => Some(s),
        _ => None,
    }
}

/// `args.get(key).and_then(|v| v.as_bool())`.
pub open spec fn arg_bool(fields: Seq<(Seq<char>, ArgValueView)>, key: Seq<char>) -> Option<bool> {
    match lookup(fields, key) {
        Some(ArgValueView::Bool(b)) => Some(b),
        _ => None,
    }
}

/// `args.get(key).and_then(|v| v.as_u64())`.
pub open spec fn arg_u64(fields: Seq<(Seq<char>, ArgValueView)>, key: Seq<char>) -> Option<u64> {
    match lookup(fields, key) {
        Some(ArgValueView::UInt(n)) => Some(n),
        _ => None,
    }
}

pub open spec fn str_or_empty(o: Option<Seq<char>>) -> Seq<char> {
    match o {
        Some(s) => s,
        None => Seq::empty(),
    }
}

/// One tool run, with the defaults of absent arguments filled in.
#[derive(Debug)]
pub enum ToolRequest {
    Ripgrep { pattern: String, path: Option<String>, case_insensitive: bool },
    FindFiles { query: String },
    ViewFile { path: String, start_line: Option<usize>, end_line: Option<usize> },
    WriteFile { path: String, content: String, overwrite: bool },
    EditFile { path: String, target: String, replacement: String },
    RunCommand { command: String, timeout_seconds: u64 },
    GitStatus,
    GitDiff { path: Option<String> },
}

pub enum RequestView {
    Ripgrep { pattern: Seq<char>, path: Option<Seq<char>>, case_insensitive: bool },
    FindFiles { query: Seq<char> },
    ViewFile { path: Seq<char>, start_line: Option<usize>, end_line: Option<usize> },
    WriteFile { path: Seq<char>, content: Seq<char>, overwrite: bool },
    EditFile { path: Seq<char>, target: Seq<char>, replacement: Seq<char> },
    RunCommand { command: Seq<char>, timeout_seconds: u64 },
    GitStatus,
    GitDiff { path: Option<Seq<char>> },
}

pub open spec fn ostr(o: Option<String>) -> Option<Seq<char>> {
    match o {
        Some(s) => Some(s@),
        None => None,
    }
}

impl View for ToolRequest {
    type V = RequestView;

    open spec fn view(&self) -> RequestView {
        match self {
            ToolRequest::Ripgrep { pattern, path, case_insensitive } => RequestView::Ripgrep {
                pattern: pattern@,
                path: ostr(*path),
                case_insensitive: *case_insensitive,
            },
            ToolRequest::FindFiles { query } => RequestView::FindFiles { query: query@ },
            ToolRequest::ViewFile { path, start_line, end_line } => RequestView::ViewFile {
                path: path@,
                start_line: *start_line,
                end_line: *end_line,
            },
            ToolRequest::WriteFile { path, content, overwrite } => RequestView::WriteFile {
                path: path@,
                content: content@,
                overwrite: *overwrite,
            },
            ToolRequest::EditFile { path, target, replacement } => RequestView::EditFile {
                path: path@,
                target: target@,
                replacement: replacement@,
            },
            ToolRequest::RunCommand { command, timeout_seconds } => RequestView::RunCommand {
                command: command@,
                timeout_seconds: *timeout_seconds,
            },
            ToolRequest::GitStatus => RequestView::GitStatus,
            ToolRequest::GitDiff { path } => RequestView::GitDiff { path: ostr(*path) },
        }
    }
}

/// The tool run a call asks for; `None` for an unknown tool. Absent string
/// arguments are empty, `case_insensitive` and `overwrite` default to
/// false (an existing file is replaced only when asked for) and
/// `timeout_seconds` to 30.
pub open spec fn plan_spec(name: Seq<char>, args: Seq<(Seq<char>, ArgValueView)>) -> Option<RequestView> {
    if name == "ripgrep"@ {
        Some(RequestView::Ripgrep {
            pattern: str_or_empty(arg_str(args, "pattern"@)),
            path: arg_str(args, "path"@),
            case_insensitive: match arg_bool(args, "case_insensitive"@) { Some(b) => b, None => false },
        })
    } else if name == "find_files"@ {
        Some(RequestView::FindFiles { query: str_or_empty(arg_str(args, "query"@)) })
    } else if name == "view_file"@ {
        Some(RequestView::ViewFile {
            path: str_or_empty(arg_str(args, "path"@)),
            start_line: match arg_u64(args, "start_line"@) { Some(n) => Some(n as usize), None => None },
            end_line: match arg_u64(args, "end_line"@) { Some(n) => Some(n as usize), None => None },
        })
    } else if name == "write_file"@ {
        Some(RequestView::WriteFile {
            path: str_or_empty(arg_str(args, "path"@)),
            content: str_or_empty(arg_str(args, "content"@)),
            overwrite: match arg_bool(args, "overwrite"@) { Some(b) => b, None => false },
        })
    } else if name == "edit_file"@ {
        Some(RequestView::EditFile {
            path: str_or_empty(arg_str(args, "path"@)),
            target: str_or_empty(arg_str(args, "target_content"@)),
            replacement: str_or_empty(arg_str(args, "replacement_content"@)),
        })
    } else if name == "run_command"@ {
        Some(RequestView::RunCommand {
            command: str_or_empty(arg_str(args, "command"@)),
            timeout_seconds: match arg_u64(args, "timeout_seconds"@) { Some(n) => n, None => 30 },
        })
    } else if name == "git_status"@ {
        Some(RequestView::GitStatus)
    } else if name == "git_diff"@ {
        Some(RequestView::GitDiff { path: arg_str(args, "path"@) })
    } else {
        None
    }
}

fn find_field<'a>(args: &'a ToolArgs, key: &str) -> (r: Option<&'a ArgValue>)
    ensures
        match r {
            Some(v) => lookup(args_view(*args), key@) == Some(arg_view(*v)),
            None => lookup(args_view(*args), key@) is None,
        },
{
    let k = String::from_str(key);
    let ghost view = args_view(*args);
    let mut i: usize = 0;
    while i < args.fields.len()
        invariant
            i <= args.fields@.len(),
            k@ == key@,
            view == args_view(*args),
            lookup(view, key@) == lookup_from(view, key@, i as int),
        decreases args.fields@.len() - i,
    {
        assert(view[i as int] == (args.fields@[i as int].0@, arg_view(args.fields@[i as int].1)));
        if args.fields[i].0 == k {
            return Some(&args.fields[i].1);
        }
        i = i + 1;
    }
    None
}

fn get_str(args: &ToolArgs, key: &str) -> (r: Option<String>)
    ensures
        ostr(r) == arg_str(args_view(*args), key@),
{
    match find_field(args, key) {
        Some(ArgValue::Str(s)) => Some(s.clone()),
        _ => None,
    }
}

fn get_str_or_empty(args: &ToolArgs, key: &str) -> (r: String)
    ensures
        r@ == str_or_empty(arg_str(args_view(*args), key@)),
{
    match get_str(args, key) {
        Some(s) => s,
        None => String::new(),
    }
}

fn get_bool(args: &ToolArgs, key: &str) -> (r: Option<bool>)
    ensures
        r == arg_bool(args_view(*args), key@),
{
    match find_field(args, key) {
        Some(ArgValue::Bool(b)) => Some(*b),
        _ => None,
    }
}

fn get_u64(args: &ToolArgs, key: &str) -> (r: Option<u64>)
    ensures
        r == arg_u64(args_view(*args), key@),
{
    match find_field(args, key) {
        Some(ArgValue::UInt(n)) => Some(*n),
        _ => None,
    }
}

/// An unknown tool was called.
#[derive(Debug)]
pub struct UnknownTool {
    pub name: String,
}

impl UnknownTool {
    /// `Unknown tool: <name>`.
    pub fn message(&self) -> (m: String)
        ensures
            m@ == "Unknown tool: "@ + self.name@,
    {
        let mut m = String::from_str("Unknown tool: ");
        m.append(self.name.as_str());
        m
    }
}

/// Reads a tool call into the tool run it asks for.
pub fn plan_tool_call(name: &str, args: &ToolArgs) -> (r: Result<ToolRequest, UnknownTool>)
    ensures
        match r {
            Ok(req) => plan_spec(name@, args_view(*args)) == Some(req@),
            Err(e) => plan_spec(name@, args_view(*args)) is None && e.name@ == name@,
        },
{
    let n = String::from_str(name);
    if n == String::from_str("ripgrep") {
        let case_insensitive = match get_bool(args, "case_insensitive") {
            Some(b) => b,
            None => false,
        };
        Ok(ToolRequest::Ripgrep {
            pattern: get_str_or_empty(args, "pattern"),
            path: get_str(args, "path"),
            case_insensitive,
        })
    } else if n == String::from_str("find_files") {
        Ok(ToolRequest::FindFiles { query: get_str_or_empty(args, "query") })
    } else if n == String::from_str("view_file") {
        let start_line = match get_u64(args, "start_line") {
            Some(v) => Some(v as usize),
            None => None,
        };
        let end_line = match get_u64(args, "end_line") {
            Some(v) => Some(v as usize),
            None => None,
        };
        Ok(ToolRequest::ViewFile { path: get_str_or_empty(args, "path"), start_line, end_line })
    } else if n == String::from_str("write_file") {
        let overwrite = match get_bool(args, "overwrite") {
            Some(b) => b,
            None => false,
        };
        Ok(ToolRequest::WriteFile {
            path: get_str_or_empty(args, "path"),
            content: get_str_or_empty(args, "content"),
            overwrite,
        })
    } else if n == String::from_str("edit_file") {
        Ok(ToolRequest::EditFile {
            path: get_str_or_empty(args, "path"),
            target: get_str_or_empty(args, "target_content"),
            replacement: get_str_or_empty(args, "replacement_content"),
        })
    } else if n == String::from_str("run_command") {
        let timeout_seconds = match get_u64(args, "timeout_seconds") {
            Some(v) => v,
            None => 30,
        };
        Ok(ToolRequest::RunCommand { command: get_str_or_empty(args, "command"), timeout_seconds })
    } else if n == String::from_str("git_status") {
        Ok(ToolRequest::GitStatus)
    } else if n == String::from_str("git_diff") {
        Ok(ToolRequest::GitDiff { path: get_str(args, "path") })
    } else {
        Err(UnknownTool { name: n })
    }
}

/// The top-level fields of `s` parsed as JSON (`serde_json::from_str`),
/// when it is a JSON object: each key with its value read as a string
/// (the decoded string, unchanged), a boolean, an unsigned 64-bit integer
/// or anything else. `None` when `s`
/// is not JSON or not an object. This depends on the text alone.
pub uninterp spec fn json_object_fields(s: Seq<char>) -> Option<Seq<(Seq<char>, ArgValueView)>>;

/// Parses the arguments of a tool call with `serde_json::from_str`; the
/// fields of a JSON object, `None` for anything else.
#[verifier::external_body]
pub fn parse_tool_args(arguments_json: &str) -> (r: Option<ToolArgs>)
    ensures
        args_opt_view(r) == json_object_fields(arguments_json@),
{
    let value: serde_json::Value = serde_json::from_str(arguments_json).ok()?;
    let fields = value.as_object()?.iter().map(|(k, v)| (k.clone(), match v {
        serde_json::Value::String(s) => ArgValue::Str(s.clone()),
        serde_json::Value::Bool(b) => ArgValue::Bool(*b),
        serde_json::Value::Number(n) => match n.as_u64() {
            Some(u) => ArgValue::UInt(u),
            None => ArgValue::Other,
        },
        _ => ArgValue::Other,
    })).collect();
    Some(ToolArgs { fields })
}

/// The argument fields a tool call's JSON text gives: those of an object,
/// none for anything else.
pub open spec fn json_args(arguments_json: Seq<char>) -> Seq<(Seq<char>, ArgValueView)> {
    match json_object_fields(arguments_json) {
        Some(f) => f,
        None => Seq::empty(),
    }
}

/// Reads a tool call, given by its name and the JSON text of its
/// arguments, into the tool run it asks for. Arguments that are not a JSON
/// object count as no arguments.
pub fn plan_tool_call_json(name: &str, arguments_json: &str) -> (r: Result<ToolRequest, UnknownTool>)
    ensures
        match r {
            Ok(req) => plan_spec(name@, json_args(arguments_json@)) == Some(req@),
            Err(e) => plan_spec(name@, json_args(arguments_json@)) is None && e.name@ == name@,
        },
{
    let args = match parse_tool_args(arguments_json) {
        Some(a) => a,
        None => {
            let a = ToolArgs { fields: Vec::new() };
            assert(args_view(a) =~= Seq::<(Seq<char>, ArgValueView)>::empty());
            a
        },
    };
    plan_tool_call(name, &args)
}

// ---------------------------------------------------------------------------
// Viewing and writing files
// ---------------------------------------------------------------------------

/// `format!("{:4} | {}", number, line)` preceded by a line break.
pub open spec fn numbered_line(number: nat, line: Seq<char>) -> Seq<char> {
    "\n"@ + text::padded_decimal(number, 4) + " | "@ + line
}

/// The numbered lines with indices `a..b`.
pub open spec fn numbered_lines(ls: Seq<Seq<char>>, a: int, b: int) -> Seq<char>
    decreases b - a,
{
    if b <= a {
        Seq::empty()
    } else {
        numbered_lines(ls, a, b - 1) + numbered_line(b as nat, ls[b - 1])
    }
}

/// The first line shown: `start_line`, at least 1.
pub open spec fn view_start(start_line: Option<usize>) -> nat {
    match start_line {
        Some(s) => if s >= 1 { s as nat } else { 1 },
        None => 1,
    }
}

/// The last line shown: `end_line`, at most the number of lines.
pub open spec fn view_end(end_line: Option<usize>, total: nat) -> nat {
    match end_line {
        Some(e) => if (e as nat) < total { e as nat } else { total },
        None => total,
    }
}

/// What viewing a file shows.
pub open spec fn view_text(path: Seq<char>, content: Seq<char>, start_line: Option<usize>, end_line: Option<usize>) -> Seq<char> {
    let ls = text::lines(content);
    let total = ls.len();
    let start = view_start(start_line);
    let end = view_end(end_line, total);
    if start > total {
        "File "@ + path + " has "@ + text::decimal(total) + " lines. Requested start line "@
            + text::decimal(start) + " is out of range."@
    } else {
        "--- "@ + path + " (Lines "@ + text::decimal(start) + "-"@ + text::decimal(end) + " of "@
            + text::decimal(total) + ") ---"@ + numbered_lines(ls, start - 1, end as int)
    }
}

/// Renders the requested window of a file's lines, numbered from 1.
pub fn render_file_view(path: &str, content: &str, start_line: Option<usize>, end_line: Option<usize>) -> (out: String)
    ensures
        out@ == view_text(path@, content@, start_line, end_line),
{
    let cv = chars_of(content);
    let ls = text::split_lines(cv.as_slice());
    let ghost lsv = text::lines(content@);
    let total = ls.len();
    let start: usize = match start_line {
        Some(s) => if s >= 1 { s } else { 1 },
        None => 1,
    };
    let end: usize = match end_line {
        Some(e) => if e < total { e } else { total },
        None => total,
    };
    if start > total {
        let mut out = String::from_str("File ");
        out.append(path);
        out.append(" has ");
        push_decimal(&mut out, total as u128);
        out.append(" lines. Requested start line ");
        push_decimal(&mut out, start as u128);
        out.append(" is out of range.");
        return out;
    }
    let mut out = String::from_str("--- ");
    out.append(path);
    out.append(" (Lines ");
    push_decimal(&mut out, start as u128);
    out.append("-");
    push_decimal(&mut out, end as u128);
    out.append(" of ");
    push_decimal(&mut out, total as u128);
    out.append(") ---");
    let ghost head = out@;
    let mut idx: usize = start - 1;
    while idx < end
        invariant
            start - 1 <= idx,
            end <= total == ls@.len() == lsv.len(),
            idx <= end || end < start - 1,
            end < start - 1 ==> idx == start - 1,
            forall|i: int| 0 <= i < ls@.len() ==> (#[trigger] ls@[i])@ == lsv[i],
            out@ == head + numbered_lines(lsv, start - 1, idx as int),
        decreases end - idx,
    {
        out.append("\n");
        text::push_padded_decimal(&mut out, (idx as u128) + 1, 4);
        out.append(" | ");
        text::append_chars(&mut out, ls[idx].as_slice());
        idx = idx + 1;
        assert(out@ =~= head + numbered_lines(lsv, start - 1, idx as int));
    }
    proof {
        if end < start - 1 {
            assert(numbered_lines(lsv, start - 1, end as int) == Seq::<char>::empty());
            assert(idx == start - 1);
            assert(numbered_lines(lsv, start - 1, idx as int) == Seq::<char>::empty());
        }
    }
    out
}

/// `File not found: <path>`.
pub fn file_not_found_message(path: &str) -> (m: String)
    ensures
        m@ == "File not found: "@ + path@,
{
    let mut m = String::from_str("File not found: ");
    m.append(path);
    m
}

/// A file may be written unless it exists and overwriting was not asked
/// for.
pub fn write_allowed(file_exists: bool, overwrite: bool) -> (b: bool)
    ensures
        b == (!file_exists || overwrite),
{
    !file_exists || overwrite
}

/// The refusal to replace an existing file.
pub fn file_exists_message(path: &str) -> (m: String)
    ensures
        m@ == "File already exists: "@ + path@ + ". Pass overwrite=true to replace."@,
{
    let mut m = String::from_str("File already exists: ");
    m.append(path);
    m.append(". Pass overwrite=true to replace.");
    m
}

/// The report of a written file, with the size of its content in bytes.
pub fn write_success_message(path: &str, content: &str) -> (m: String)
    ensures
        m@ == "Successfully wrote "@ + path@ + " ("@ + text::decimal(content.len() as nat)
            + " bytes)"@,
{
    let mut m = String::from_str("Successfully wrote ");
    m.append(path);
    m.append(" (");
    push_decimal(&mut m, content.len() as u128);
    m.append(" bytes)");
    m
}

// ---------------------------------------------------------------------------
// Git
// ---------------------------------------------------------------------------

/// The command that shows the branch and the changed files.
pub fn git_status_command() -> (c: String)
    ensures
        c@ == "git status --short --branch"@,
{
    String::from_str("git status --short --branch")
}

/// The command that shows unstaged changes, of one file when given.
pub fn git_diff_command(path: Option<&str>) -> (c: String)
    ensures
        c@ == match path {
            Some(p) => "git diff -- "@ + p@,
            None => "git diff"@,
        },
{
    match path {
        Some(p) => {
            let mut c = String::from_str("git diff -- ");
            c.append(p);
            c
        },
        None => String::from_str("git diff"),
    }
}

/// The output of `git diff` carries no diff: it is blank, or the command
/// succeeded without printing anything.
pub open spec fn diff_is_empty(out: Seq<char>) -> bool {
    text::trim(out).len() == 0 || (text::contains(out, "Exit Code: 0\n"@) && !text::contains(
        out,
        "--- STDOUT ---"@,
    ))
}

/// What the `git_diff` tool reports for the output of the command.
pub fn interpret_git_diff(out: &str) -> (r: String)
    ensures
        r@ == if diff_is_empty(out@) {
            "No unstaged git diffs found."@
        } else {
            out@
        },
{
    if is_blank_str(out) || contains_str(out, "Exit Code: 0\n") && !contains_str(out, "--- STDOUT ---") {
        String::from_str("No unstaged git diffs found.")
    } else {
        String::from_str(out)
    }
}

// ---------------------------------------------------------------------------
// Shell commands
// ---------------------------------------------------------------------------

/// The standard output as reported: cut after 10000 bytes with a note.
pub open spec fn reported_stdout(stdout: &str) -> Seq<char> {
    if stdout.len() > 10000 {
        vstd::utf8::decode_utf8(vstd::utf8::encode_utf8(stdout@).take(10000)) + "...\n(Output truncated at 10000 chars)"@
    } else {
        stdout@
    }
}

/// The report of a finished command: its exit code (-1 when killed by a
/// signal), then its standard output and standard error, each under a
/// heading and only when not blank.
pub open spec fn command_report(code: Option<i32>, stdout: &str, stderr: &str) -> Seq<char> {
    let out = reported_stdout(stdout);
    "Exit Code: "@ + text::signed_decimal(match code { Some(c) => c as int, None => -1 })
        + (if text::trim(out).len() > 0 { "\n--- STDOUT ---\n"@ + out } else { Seq::empty() })
        + (if text::trim(stderr@).len() > 0 { "\n--- STDERR ---\n"@ + stderr@ } else { Seq::empty() })
}

/// A report can be made unless the output is cut inside a character (the
/// cut falls on a byte boundary of the text).
pub open spec fn stdout_cuttable(stdout: &str) -> bool {
    stdout.len() > 10000 ==> vstd::utf8::is_char_boundary(vstd::utf8::encode_utf8(stdout@), 10000)
}

/// Formats the result of a finished command.
pub fn format_command_output(code: Option<i32>, stdout: &str, stderr: &str) -> (r: String)
    requires
        stdout_cuttable(stdout),
    ensures
        r@ == command_report(code, stdout, stderr),
{
    let mut r = String::from_str("Exit Code: ");
    let c: i64 = match code {
        Some(c) => c as i64,
        None => -1,
    };
    text::push_signed_decimal(&mut r, c);
    let truncated: String = if stdout.len() > 10000 {
        let (head, _tail) = stdout.split_at(10000);
        proof {
            vstd::utf8::encode_utf8_decode_utf8(head@);
            assert(vstd::utf8::encode_utf8(stdout@).take(10000) =~= vstd::utf8::encode_utf8(stdout@).subrange(0, 10000));
        }
        let mut t = String::from_str(head);
        t.append("...\n(Output truncated at 10000 chars)");
        t
    } else {
        String::from_str(stdout)
    };
    if !is_blank_str(truncated.as_str()) {
        r.append("\n--- STDOUT ---\n");
        r.append(truncated.as_str());
    }
    if !is_blank_str(stderr) {
        r.append("\n--- STDERR ---\n");
        r.append(stderr);
    }
    r
}

/// The report of a command stopped at its time limit.
pub fn timeout_message(timeout_seconds: u64, command: &str) -> (m: String)
    ensures
        m@ == "Command timed out after "@ + text::decimal(timeout_seconds as nat) + " seconds: "@
            + command@,
{
    let mut m = String::from_str("Command timed out after ");
    push_decimal(&mut m, timeout_seconds as u128);
    m.append(" seconds: ");
    m.append(command);
    m
}

} // verus!
