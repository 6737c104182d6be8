use std::cell::RefCell;

use aishell::catalog::get_tool_definitions;
use aishell::executor::{ExecutionResult, Executor};
use aishell::tools::{
    bash_outcome, execute_tool, known_tool, list_outcome, parse_tool_call, read_outcome,
    read_payload, render_execution, run_tool, select_arguments, write_outcome, ArgumentFields,
    ToolArguments, ToolError,
};

/// An executor that records what it is asked and answers from a script.
struct ScriptedExecutor {
    calls: RefCell<Vec<String>>,
}

impl ScriptedExecutor {
    fn new() -> Self {
        ScriptedExecutor { calls: RefCell::new(Vec::new()) }
    }

    fn calls(&self) -> Vec<String> {
        self.calls.borrow().clone()
    }
}

impl Executor for ScriptedExecutor {
    fn execute(&self, command: &str) -> Result<ExecutionResult, String> {
        self.calls.borrow_mut().push(format!("execute:{}", command));
        if command == "echo hi" {
            Ok(ExecutionResult {
                stdout: "hi\n".to_string(),
                stderr: String::new(),
                exit_code: 0,
                success: true,
            })
        } else if command == "spawn-fails" {
            Err("Failed to execute command".to_string())
        } else {
            Ok(ExecutionResult {
                stdout: String::new(),
                stderr: "boom".to_string(),
                exit_code: 2,
                success: false,
            })
        }
    }

    fn read_file(&self, path: &str) -> Result<String, String> {
        self.calls.borrow_mut().push(format!("read:{}", path));
        if path == "notes.txt" {
            Ok("line one\nline two\n".to_string())
        } else {
            Err(format!("Failed to read file: {}", path))
        }
    }

    fn write_file(&self, path: &str, content: &str) -> Result<(), String> {
        self.calls.borrow_mut().push(format!("write:{}:{}", path, content));
        if path == "/forbidden" {
            Err(format!("Failed to write file: {}", path))
        } else {
            Ok(())
        }
    }

    fn list_files(&self, pattern: Option<&str>) -> Result<Vec<String>, String> {
        self.calls.borrow_mut().push(format!("list:{:?}", pattern));
        match pattern {
            None => Ok(vec!["a.rs".to_string(), "b.txt".to_string()]),
            Some("*.rs") => Ok(vec!["a.rs".to_string()]),
            Some(_) => Ok(Vec::new()),
        }
    }
}

#[test]
fn catalog_lists_the_four_built_in_tools() {
    let tools = get_tool_definitions();
    let names: Vec<&str> = tools.iter().map(|t| t.function.name.as_str()).collect();
    assert_eq!(names, vec!["bash", "read", "write", "list"]);
    for tool in &tools {
        assert_eq!(tool.tool_type, "function");
        assert!(!tool.function.description.is_empty());
        assert_eq!(tool.function.parameters.schema_type, "object");
        for property in &tool.function.parameters.properties {
            assert_eq!(property.value_type, "string");
            assert!(!property.description.is_empty());
        }
    }
}

#[test]
fn catalog_schemas_require_the_documented_fields() {
    let tools = get_tool_definitions();
    assert_eq!(tools[0].function.parameters.required, vec!["command".to_string()]);
    assert_eq!(tools[1].function.parameters.required, vec!["path".to_string()]);
    assert_eq!(
        tools[2].function.parameters.required,
        vec!["path".to_string(), "content".to_string()]
    );
    assert!(tools[3].function.parameters.required.is_empty());
    let write_properties: Vec<&str> =
        tools[2].function.parameters.properties.iter().map(|p| p.name.as_str()).collect();
    assert_eq!(write_properties, vec!["path", "content"]);
    assert_eq!(tools[3].function.parameters.properties[0].name, "pattern");
    assert_eq!(
        tools[0].function.description,
        "Execute a bash command and return the output. Use this for running shell commands, git operations, package management, etc."
    );
}

#[test]
fn known_tool_names() {
    assert!(known_tool("bash"));
    assert!(known_tool("read"));
    assert!(known_tool("write"));
    assert!(known_tool("list"));
    assert!(!known_tool("Bash"));
    assert!(!known_tool(""));
    assert!(!known_tool("delete"));
}

#[test]
fn parse_bash_call() {
    assert_eq!(
        parse_tool_call("bash", "{\"command\":\"echo hi\"}"),
        Ok(ToolArguments::Bash { command: "echo hi".to_string() })
    );
}

#[test]
fn parse_read_call() {
    assert_eq!(
        parse_tool_call("read", "{\"path\":\"notes.txt\"}"),
        Ok(ToolArguments::Read { path: "notes.txt".to_string() })
    );
}

#[test]
fn parse_write_call() {
    assert_eq!(
        parse_tool_call("write", "{\"path\":\"out.txt\",\"content\":\"data\"}"),
        Ok(ToolArguments::Write { path: "out.txt".to_string(), content: "data".to_string() })
    );
}

#[test]
fn parse_list_call_with_and_without_pattern() {
    assert_eq!(parse_tool_call("list", "{}"), Ok(ToolArguments::List { pattern: None }));
    assert_eq!(
        parse_tool_call("list", "{\"pattern\":\"*.rs\"}"),
        Ok(ToolArguments::List { pattern: Some("*.rs".to_string()) })
    );
    assert_eq!(
        parse_tool_call("list", "{\"pattern\":7}"),
        Ok(ToolArguments::List { pattern: None })
    );
}

#[test]
fn unknown_tool_is_refused_before_the_payload_is_read() {
    assert_eq!(
        parse_tool_call("delete", "not json"),
        Err(ToolError::UnknownTool("delete".to_string()))
    );
    assert_eq!(
        ToolError::UnknownTool("delete".to_string()).message(),
        "Unknown tool: delete"
    );
}

#[test]
fn missing_arguments_are_named() {
    assert_eq!(
        parse_tool_call("bash", "{}"),
        Err(ToolError::MissingArgument("command".to_string()))
    );
    assert_eq!(
        parse_tool_call("bash", "{\"command\":5}"),
        Err(ToolError::MissingArgument("command".to_string()))
    );
    assert_eq!(
        parse_tool_call("read", "{\"file\":\"x\"}"),
        Err(ToolError::MissingArgument("path".to_string()))
    );
    assert_eq!(
        parse_tool_call("write", "{\"content\":\"x\"}"),
        Err(ToolError::MissingArgument("path".to_string()))
    );
    assert_eq!(
        parse_tool_call("write", "{\"path\":\"x\"}"),
        Err(ToolError::MissingArgument("content".to_string()))
    );
    assert_eq!(
        parse_tool_call("read", "[1,2]"),
        Err(ToolError::MissingArgument("path".to_string()))
    );
    assert_eq!(
        ToolError::MissingArgument("command".to_string()).message(),
        "Missing 'command' argument"
    );
}

#[test]
fn malformed_payload_is_invalid() {
    let raw = "{\"command\": ";
    match parse_tool_call("bash", raw) {
        Err(ToolError::InvalidPayload(fault)) => {
            assert!(!fault.is_empty());
            assert_ne!(fault, raw);
            assert!(fault.contains("line 1"));
        }
        other => panic!("unexpected: {:?}", other),
    }
    assert!(matches!(parse_tool_call("list", ""), Err(ToolError::InvalidPayload(_))));
}

#[test]
fn read_payload_takes_the_string_fields() {
    let fields = read_payload(
        "{\"command\":\"ls\",\"path\":\"p\",\"content\":\"c\",\"pattern\":\"*\",\"other\":1}",
    );
    assert_eq!(
        fields,
        Ok(ArgumentFields {
            command: Some("ls".to_string()),
            path: Some("p".to_string()),
            content: Some("c".to_string()),
            pattern: Some("*".to_string()),
        })
    );
    assert_eq!(
        read_payload("null"),
        Ok(ArgumentFields { command: None, path: None, content: None, pattern: None })
    );
    assert!(read_payload("{").is_err());
}

#[test]
fn select_arguments_on_given_payloads() {
    let empty = || ArgumentFields { command: None, path: None, content: None, pattern: None };
    assert_eq!(
        select_arguments("nope", Ok(empty())),
        Err(ToolError::UnknownTool("nope".to_string()))
    );
    assert_eq!(
        select_arguments("nope", Err("bad".to_string())),
        Err(ToolError::UnknownTool("nope".to_string()))
    );
    assert_eq!(
        select_arguments("bash", Err("bad".to_string())),
        Err(ToolError::InvalidPayload("bad".to_string()))
    );
    assert_eq!(select_arguments("list", Ok(empty())), Ok(ToolArguments::List { pattern: None }));
    let mut fields = empty();
    fields.path = Some("p".to_string());
    assert_eq!(
        select_arguments("write", Ok(fields)),
        Err(ToolError::MissingArgument("content".to_string()))
    );
}

#[test]
fn bash_echo_reports_exit_code_and_stdout() {
    let executor = ScriptedExecutor::new();
    let text = execute_tool("bash", "{\"command\":\"echo hi\"}", &executor).unwrap();
    assert_eq!(text, "Exit code: 0\n\nStdout:\nhi\n\n\nStderr:\n");
    assert!(text.contains("Exit code: 0"));
    let stdout_section = text.split("Stdout:\n").nth(1).unwrap();
    assert!(stdout_section.starts_with("hi"));
    assert_eq!(executor.calls(), vec!["execute:echo hi".to_string()]);
}

#[test]
fn failed_command_has_its_own_leading_phrase() {
    let executor = ScriptedExecutor::new();
    let text = execute_tool("bash", "{\"command\":\"false\"}", &executor).unwrap();
    assert_eq!(text, "Command failed with exit code: 2\n\nStdout:\n\n\nStderr:\nboom");
}

#[test]
fn render_execution_of_negative_exit_code() {
    let result = ExecutionResult {
        stdout: "o".to_string(),
        stderr: "e".to_string(),
        exit_code: -1,
        success: false,
    };
    assert_eq!(
        render_execution(&result),
        "Command failed with exit code: -1\n\nStdout:\no\n\nStderr:\ne"
    );
}

#[test]
fn read_gives_the_literal_content() {
    let executor = ScriptedExecutor::new();
    assert_eq!(
        execute_tool("read", "{\"path\":\"notes.txt\"}", &executor),
        Ok("line one\nline two\n".to_string())
    );
}

#[test]
fn read_failure_is_an_execution_error() {
    let executor = ScriptedExecutor::new();
    let error = execute_tool("read", "{\"path\":\"missing.txt\"}", &executor).unwrap_err();
    assert_eq!(error, ToolError::Execution("Failed to read file: missing.txt".to_string()));
    assert_eq!(error.message(), "Failed to read file: missing.txt");
}

#[test]
fn write_confirms_the_path() {
    let executor = ScriptedExecutor::new();
    assert_eq!(
        execute_tool("write", "{\"path\":\"out.txt\",\"content\":\"data\"}", &executor),
        Ok("Successfully wrote to file: out.txt".to_string())
    );
    assert_eq!(executor.calls(), vec!["write:out.txt:data".to_string()]);
    assert_eq!(
        execute_tool("write", "{\"path\":\"/forbidden\",\"content\":\"\"}", &executor),
        Err(ToolError::Execution("Failed to write file: /forbidden".to_string()))
    );
}

#[test]
fn list_joins_the_names_with_newlines() {
    let executor = ScriptedExecutor::new();
    assert_eq!(execute_tool("list", "{}", &executor), Ok("a.rs\nb.txt".to_string()));
    assert_eq!(
        execute_tool("list", "{\"pattern\":\"*.rs\"}", &executor),
        Ok("a.rs".to_string())
    );
    assert_eq!(execute_tool("list", "{\"pattern\":\"*.zip\"}", &executor), Ok(String::new()));
    assert_eq!(
        executor.calls(),
        vec![
            "list:None".to_string(),
            "list:Some(\"*.rs\")".to_string(),
            "list:Some(\"*.zip\")".to_string()
        ]
    );
}

#[test]
fn a_call_that_does_not_parse_never_reaches_the_executor() {
    let executor = ScriptedExecutor::new();
    assert!(execute_tool("bash", "{}", &executor).is_err());
    assert!(execute_tool("bash", "oops", &executor).is_err());
    assert!(execute_tool("unknown", "{}", &executor).is_err());
    assert!(executor.calls().is_empty());
}

#[test]
fn outcomes_for_each_executor_result() {
    assert_eq!(
        bash_outcome(Err("Failed to execute command".to_string())),
        Err(ToolError::Execution("Failed to execute command".to_string()))
    );
    assert_eq!(read_outcome(Ok("x".to_string())), Ok("x".to_string()));
    assert_eq!(read_outcome(Err("e".to_string())), Err(ToolError::Execution("e".to_string())));
    assert_eq!(
        write_outcome("p", Ok(())),
        Ok("Successfully wrote to file: p".to_string())
    );
    assert_eq!(write_outcome("p", Err("e".to_string())), Err(ToolError::Execution("e".to_string())));
    assert_eq!(list_outcome(Ok(Vec::new())), Ok(String::new()));
    assert_eq!(list_outcome(Ok(vec!["only".to_string()])), Ok("only".to_string()));
    assert_eq!(list_outcome(Err("e".to_string())), Err(ToolError::Execution("e".to_string())));
}

#[test]
fn run_tool_on_parsed_arguments() {
    let executor = ScriptedExecutor::new();
    assert_eq!(
        run_tool(&ToolArguments::Bash { command: "spawn-fails".to_string() }, &executor),
        Err(ToolError::Execution("Failed to execute command".to_string()))
    );
    assert_eq!(
        run_tool(&ToolArguments::List { pattern: None }, &executor),
        Ok("a.rs\nb.txt".to_string())
    );
}
