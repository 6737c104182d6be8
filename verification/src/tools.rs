//! The tool dispatcher: from a tool name and a raw argument payload to an executor call and
//! the text that reports its outcome.

use vstd::prelude::*;
use vstd::string::*;
use crate::executor::{ExecutionResult, Executor};
use crate::json::{
    fault_text, json_fault_text, json_member, json_reading, json_string, member, read_json,
    string_of,
};
use crate::message::optional_text;
use crate::text::{decimal_text, i32_to_string, join, joined, prefixed, same_text, string_views};

verus! {

/// The arguments of a tool invocation, by tool.
#[derive(Debug, PartialEq, Eq)]
pub enum ToolArguments {
    Bash { command: String },
    Read { path: String },
    Write { path: String, content: String },
    List { pattern: Option<String> },
}

/// The mathematical content of `ToolArguments`.
pub ghost enum ToolArgumentsView {
    Bash { command: Seq<char> },
    Read { path: Seq<char> },
    Write { path: Seq<char>, content: Seq<char> },
    List { pattern: Option<Seq<char>> },
}

impl View for ToolArguments {
    type V = ToolArgumentsView;

    open spec fn view(&self) -> ToolArgumentsView {
        match self {
            ToolArguments::Bash { command } => ToolArgumentsView::Bash { command: command@ },
            ToolArguments::Read { path } => ToolArgumentsView::Read { path: path@ },
            ToolArguments::Write { path, content } => ToolArgumentsView::Write {
                path: path@,
                content: content@,
            },
            ToolArguments::List { pattern } => ToolArgumentsView::List {
                pattern: optional_text(*pattern),
            },
        }
    }
}

/// Why a tool invocation failed.
#[derive(Debug, PartialEq, Eq)]
pub enum ToolError {
    /// No tool has this name.
    UnknownTool(String),
    /// The payload lacks this required string field.
    MissingArgument(String),
    /// The payload is not JSON; the parser's message.
    InvalidPayload(String),
    /// The executor failed; its message.
    Execution(String),
}

/// The mathematical content of a `ToolError`.
pub ghost enum ToolErrorView {
    UnknownTool(Seq<char>),
    MissingArgument(Seq<char>),
    InvalidPayload(Seq<char>),
    Execution(Seq<char>),
}

impl View for ToolError {
    type V = ToolErrorView;

    open spec fn view(&self) -> ToolErrorView {
        match self {
            ToolError::UnknownTool(name) => ToolErrorView::UnknownTool(name@),
            ToolError::MissingArgument(field) => ToolErrorView::MissingArgument(field@),
            ToolError::InvalidPayload(fault) => ToolErrorView::InvalidPayload(fault@),
            ToolError::Execution(fault) => ToolErrorView::Execution(fault@),
        }
    }
}

/// The text that reports an error.
pub open spec fn error_text(error: ToolErrorView) -> Seq<char> {
    match error {
        ToolErrorView::UnknownTool(name) => "Unknown tool: "@ + name,
        ToolErrorView::MissingArgument(field) => "Missing '"@ + field + "' argument"@,
        ToolErrorView::InvalidPayload(fault) => fault,
        ToolErrorView::Execution(fault) => fault,
    }
}

impl ToolError {
    /// The text that reports this error.
    pub fn message(&self) -> (r: String)
        ensures
            r@ == error_text(self@),
    {
        match self {
            ToolError::UnknownTool(name) => prefixed("Unknown tool: ", name.as_str()),
            ToolError::MissingArgument(field) => {
                let mut r = prefixed("Missing '", field.as_str());
                r.append("' argument");
                r
            },
            ToolError::InvalidPayload(fault) => fault.clone(),
            ToolError::Execution(fault) => fault.clone(),
        }
    }
}

/// The string fields of an argument payload that the tools read; a field that is absent or
/// not a string is `None`.
#[derive(Debug, PartialEq, Eq)]
pub struct ArgumentFields {
    pub command: Option<String>,
    pub path: Option<String>,
    pub content: Option<String>,
    pub pattern: Option<String>,
}

/// The mathematical content of `ArgumentFields`.
pub ghost struct ArgumentFieldsView {
    pub command: Option<Seq<char>>,
    pub path: Option<Seq<char>>,
    pub content: Option<Seq<char>>,
    pub pattern: Option<Seq<char>>,
}

impl View for ArgumentFields {
    type V = ArgumentFieldsView;

    open spec fn view(&self) -> ArgumentFieldsView {
        ArgumentFieldsView {
            command: optional_text(self.command),
            path: optional_text(self.path),
            content: optional_text(self.content),
            pattern: optional_text(self.pattern),
        }
    }
}

/// The content of a payload that was read, or of the fault that reading it gave.
pub open spec fn payload_view(payload: Result<ArgumentFields, String>) -> Result<
    ArgumentFieldsView,
    Seq<char>,
> {
    match payload {
        Ok(fields) => Ok(fields@),
        Err(fault) => Err(fault@),
    }
}

/// The content of a dispatcher result.
pub open spec fn request_view(request: Result<ToolArguments, ToolError>) -> Result<
    ToolArgumentsView,
    ToolErrorView,
> {
    match request {
        Ok(arguments) => Ok(arguments@),
        Err(error) => Err(error@),
    }
}

/// Whether a tool has this name.
pub open spec fn is_tool_name(name: Seq<char>) -> bool {
    name == "bash"@ || name == "read"@ || name == "write"@ || name == "list"@
}

/// The invocation that a tool name and a payload stand for: an unknown name is refused
/// whatever the payload, then a payload that could not be read, then a missing required
/// field, `path` before `content`.
pub open spec fn selection(name: Seq<char>, payload: Result<ArgumentFieldsView, Seq<char>>) -> Result<
    ToolArgumentsView,
    ToolErrorView,
> {
    if !is_tool_name(name) {
        Err(ToolErrorView::UnknownTool(name))
    } else {
        match payload {
            Err(fault) => Err(ToolErrorView::InvalidPayload(fault)),
            Ok(fields) => {
                if name == "bash"@ {
                    match fields.command {
                        Some(command) => Ok(ToolArgumentsView::Bash { command }),
                        None => Err(ToolErrorView::MissingArgument("command"@)),
                    }
                } else if name == "read"@ {
                    match fields.path {
                        Some(path) => Ok(ToolArgumentsView::Read { path }),
                        None => Err(ToolErrorView::MissingArgument("path"@)),
                    }
                } else if name == "write"@ {
                    match (fields.path, fields.content) {
                        (None, _) => Err(ToolErrorView::MissingArgument("path"@)),
                        (Some(_), None) => Err(ToolErrorView::MissingArgument("content"@)),
                        (Some(path), Some(content)) => Ok(
                            ToolArgumentsView::Write { path, content },
                        ),
                    }
                } else {
                    Ok(ToolArgumentsView::List { pattern: fields.pattern })
                }
            },
        }
    }
}

/// Chooses the invocation for a tool name and the payload as it was read.
pub fn select_arguments(tool_name: &str, payload: Result<ArgumentFields, String>) -> (r: Result<
    ToolArguments,
    ToolError,
>)
    ensures
        request_view(r) == selection(tool_name@, payload_view(payload)),
{
    let is_bash = same_text(tool_name, "bash");
    let is_read = same_text(tool_name, "read");
    let is_write = same_text(tool_name, "write");
    let is_list = same_text(tool_name, "list");
    if !is_bash && !is_read && !is_write && !is_list {
        return Err(ToolError::UnknownTool(String::from_str(tool_name)));
    }
    match payload {
        Err(fault) => Err(ToolError::InvalidPayload(fault)),
        Ok(fields) => {
            if is_bash {
                match fields.command {
                    Some(command) => Ok(ToolArguments::Bash { command }),
                    None => Err(ToolError::MissingArgument(String::from_str("command"))),
                }
            } else if is_read {
                match fields.path {
                    Some(path) => Ok(ToolArguments::Read { path }),
                    None => Err(ToolError::MissingArgument(String::from_str("path"))),
                }
            } else if is_write {
                match fields.path {
                    None => Err(ToolError::MissingArgument(String::from_str("path"))),
                    Some(path) => match fields.content {
                        None => Err(ToolError::MissingArgument(String::from_str("content"))),
                        Some(content) => Ok(ToolArguments::Write { path, content }),
                    },
                }
            } else {
                Ok(ToolArguments::List { pattern: fields.pattern })
            }
        },
    }
}

/// The fields that the tools read from a JSON value.
pub open spec fn fields_of(value: serde_json::Value) -> ArgumentFieldsView {
    ArgumentFieldsView {
        command: json_string(json_member(value, "command"@)),
        path: json_string(json_member(value, "path"@)),
        content: json_string(json_member(value, "content"@)),
        pattern: json_string(json_member(value, "pattern"@)),
    }
}

/// What reading a raw payload gives: its fields, or the parser's message.
pub open spec fn payload_of(raw: Seq<char>) -> Result<ArgumentFieldsView, Seq<char>> {
    match json_reading(raw) {
        Ok(value) => Ok(fields_of(value)),
        Err(fault) => Err(json_fault_text(fault)),
    }
}

/// Reads a raw payload as JSON and takes out the fields that the tools read.
pub fn read_payload(raw: &str) -> (r: Result<ArgumentFields, String>)
    ensures
        payload_view(r) == payload_of(raw@),
{
    match read_json(raw) {
        Err(fault) => Err(fault_text(&fault)),
        Ok(value) => {
            let command = string_of(member(&value, "command"));
            let path = string_of(member(&value, "path"));
            let content = string_of(member(&value, "content"));
            let pattern = string_of(member(&value, "pattern"));
            let fields = ArgumentFields { command, path, content, pattern };
            assert(fields@ == fields_of(value));
            Ok(fields)
        },
    }
}

/// The invocation that a tool name and a raw payload stand for.
pub open spec fn tool_request(name: Seq<char>, raw: Seq<char>) -> Result<
    ToolArgumentsView,
    ToolErrorView,
> {
    selection(name, payload_of(raw))
}

/// Parses a tool invocation: the name picks the tool, the raw payload is read as a JSON
/// object and gives the tool's arguments.
pub fn parse_tool_call(tool_name: &str, arguments: &str) -> (r: Result<ToolArguments, ToolError>)
    ensures
        request_view(r) == tool_request(tool_name@, arguments@),
{
    if !known_tool(tool_name) {
        return Err(ToolError::UnknownTool(String::from_str(tool_name)));
    }
    let payload = read_payload(arguments);
    select_arguments(tool_name, payload)
}

/// Whether a tool has this name.
pub fn known_tool(tool_name: &str) -> (r: bool)
    ensures
        r == is_tool_name(tool_name@),
{
    same_text(tool_name, "bash") || same_text(tool_name, "read") || same_text(tool_name, "write")
        || same_text(tool_name, "list")
}

/// The report of a finished command: a leading phrase that tells success from failure, the
/// exit code, then what the command printed.
pub open spec fn execution_text(
    success: bool,
    exit_code: int,
    stdout: Seq<char>,
    stderr: Seq<char>,
) -> Seq<char> {
    (if success {
        "Exit code: "@
    } else {
        "Command failed with exit code: "@
    }) + decimal_text(exit_code) + "\n\nStdout:\n"@ + stdout + "\n\nStderr:\n"@ + stderr
}

/// Renders the report of a finished command.
pub fn render_execution(result: &ExecutionResult) -> (r: String)
    ensures
        r@ == execution_text(
            result.success,
            result.exit_code as int,
            result.stdout@,
            result.stderr@,
        ),
{
    let mut r = if result.success {
        String::from_str("Exit code: ")
    } else {
        String::from_str("Command failed with exit code: ")
    };
    let code = i32_to_string(result.exit_code);
    r.append(code.as_str());
    r.append("\n\nStdout:\n");
    r.append(result.stdout.as_str());
    r.append("\n\nStderr:\n");
    r.append(result.stderr.as_str());
    r
}

/// The confirmation of a write to `path`.
pub open spec fn write_confirmation(path: Seq<char>) -> Seq<char> {
    "Successfully wrote to file: "@ + path
}

/// The content of the text or error that a tool gave.
pub open spec fn outcome_view(outcome: Result<String, ToolError>) -> Result<
    Seq<char>,
    ToolErrorView,
> {
    match outcome {
        Ok(text) => Ok(text@),
        Err(error) => Err(error@),
    }
}

/// The outcome of `bash`: the report of the finished command, or the executor's failure.
pub fn bash_outcome(run: Result<ExecutionResult, String>) -> (r: Result<String, ToolError>)
    ensures
        outcome_view(r) == (match run {
            Ok(result) => Ok(
                execution_text(
                    result.success,
                    result.exit_code as int,
                    result.stdout@,
                    result.stderr@,
                ),
            ),
            Err(fault) => Err(ToolErrorView::Execution(fault@)),
        }),
{
    match run {
        Ok(result) => Ok(render_execution(&result)),
        Err(fault) => Err(ToolError::Execution(fault)),
    }
}

/// The outcome of `read`: the literal file content, or the executor's failure.
pub fn read_outcome(read: Result<String, String>) -> (r: Result<String, ToolError>)
    ensures
        outcome_view(r) == (match read {
            Ok(content) => Ok(content@),
            Err(fault) => Err(ToolErrorView::Execution(fault@)),
        }),
{
    match read {
        Ok(content) => Ok(content),
        Err(fault) => Err(ToolError::Execution(fault)),
    }
}

/// The outcome of `write`: a confirmation that names the path, or the executor's failure.
pub fn write_outcome(path: &str, written: Result<(), String>) -> (r: Result<String, ToolError>)
    ensures
        outcome_view(r) == (match written {
            Ok(_) => Ok(write_confirmation(path@)),
            Err(fault) => Err(ToolErrorView::Execution(fault@)),
        }),
{
    match written {
        Ok(_) => Ok(prefixed("Successfully wrote to file: ", path)),
        Err(fault) => Err(ToolError::Execution(fault)),
    }
}

/// The outcome of `list`: the matched names, one per line, or the executor's failure.
pub fn list_outcome(listed: Result<Vec<String>, String>) -> (r: Result<String, ToolError>)
    ensures
        outcome_view(r) == (match listed {
            Ok(names) => Ok(joined(string_views(names@), "\n"@, names.len() as int)),
            Err(fault) => Err(ToolErrorView::Execution(fault@)),
        }),
{
    match listed {
        Ok(names) => Ok(join(&names, "\n")),
        Err(fault) => Err(ToolError::Execution(fault)),
    }
}

/// Whether a text is the report of some finished command.
pub open spec fn is_execution_text(text: Seq<char>) -> bool {
    exists|success: bool, exit_code: i32, stdout: Seq<char>, stderr: Seq<char>|
        text == #[trigger] execution_text(success, exit_code as int, stdout, stderr)
}

/// Whether a text is some list of names, one per line.
pub open spec fn is_listing_text(text: Seq<char>) -> bool {
    exists|names: Seq<Seq<char>>| text == #[trigger] joined(names, "\n"@, names.len() as int)
}

/// Whether running a parsed invocation can have this outcome, whatever the executor does:
/// a failure is the executor's; a text is a command report for `bash`, any content for
/// `read`, the confirmation of the path for `write`, a list of names for `list`.
pub open spec fn possible_outcome(
    arguments: ToolArgumentsView,
    outcome: Result<Seq<char>, ToolErrorView>,
) -> bool {
    match outcome {
        Err(error) => error is Execution,
        Ok(text) => match arguments {
            ToolArgumentsView::Bash { .. } => is_execution_text(text),
            ToolArgumentsView::Read { .. } => true,
            ToolArgumentsView::Write { path, .. } => text == write_confirmation(path),
            ToolArgumentsView::List { .. } => is_listing_text(text),
        },
    }
}

/// Whether dispatching a request can have this outcome: a request that does not parse has
/// its error and nothing else; one that parses has what running it can give.
pub open spec fn dispatch_allows(
    request: Result<ToolArgumentsView, ToolErrorView>,
    outcome: Result<Seq<char>, ToolErrorView>,
) -> bool {
    match request {
        Err(error) => outcome == Err::<Seq<char>, ToolErrorView>(error),
        Ok(arguments) => possible_outcome(arguments, outcome),
    }
}

/// Runs a parsed invocation on the executor and renders what came back.
pub fn run_tool<E: Executor>(arguments: &ToolArguments, executor: &E) -> (r: Result<
    String,
    ToolError,
>)
    ensures
        possible_outcome(arguments@, outcome_view(r)),
{
    match arguments {
        ToolArguments::Bash { command } => {
            let run = executor.execute(command.as_str());
            let ghost ran = run;
            let r = bash_outcome(run);
            proof {
                if let Ok(result) = ran {
                    assert(r->Ok_0@ == execution_text(
                        result.success,
                        result.exit_code as int,
                        result.stdout@,
                        result.stderr@,
                    ));
                }
            }
            r
        },
        ToolArguments::Read { path } => read_outcome(executor.read_file(path.as_str())),
        ToolArguments::Write { path, content } => write_outcome(
            path.as_str(),
            executor.write_file(path.as_str(), content.as_str()),
        ),
        ToolArguments::List { pattern } => {
            let listed = match pattern {
                Some(p) => executor.list_files(Some(p.as_str())),
                None => executor.list_files(None),
            };
            let ghost found = listed;
            let r = list_outcome(listed);
            proof {
                if let Ok(names) = found {
                    let views = string_views(names@);
                    assert(r->Ok_0@ == joined(views, "\n"@, views.len() as int));
                }
            }
            r
        },
    }
}

/// Executes a tool call: an invocation that does not parse is refused with its error and
/// the executor is not reached; one that parses is run on the executor, and what came back
/// is rendered.
pub fn execute_tool<E: Executor>(tool_name: &str, arguments: &str, executor: &E) -> (r: Result<
    String,
    ToolError,
>)
    ensures
        dispatch_allows(tool_request(tool_name@, arguments@), outcome_view(r)),
{
    match parse_tool_call(tool_name, arguments) {
        Err(error) => Err(error),
        Ok(parsed) => run_tool(&parsed, executor),
    }
}

} // verus!
