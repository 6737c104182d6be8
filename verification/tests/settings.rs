use aishell::backend::{
    create_provider, provider_for_lowercase, provider_kind, response_from_choice, tool_choice,
    OpenAIProvider, ProviderError, ProviderKind, TransportError,
};
use aishell::config::Config;
use aishell::executor::{
    list_command, listing_from_output, read_failure, write_failure, ExecutionResult,
    ShellExecutor, DEFAULT_TIMEOUT_SECS,
};
use aishell::message::{duplicate_tool_calls, FunctionCall, ToolCall};
use aishell::text::{digits_to_string, i32_to_string, join, prefixed, same_text};

#[test]
fn default_configuration() {
    let config = Config::default();
    assert_eq!(config.llm.default_provider, "openai");
    assert_eq!(config.llm.openai.model, "gpt-4");
    assert_eq!(config.llm.openai.base_url, None);
    assert_eq!(config.shell.max_execution_time, 300);
    assert_eq!(config.shell.workdir, None);
    assert_eq!(Config::load(), Ok(config));
}

#[test]
fn shell_executor_settings() {
    let executor = ShellExecutor::new("/tmp/work".to_string());
    assert_eq!(executor.workdir(), "/tmp/work");
    assert_eq!(executor.timeout_secs(), 300);
    assert_eq!(DEFAULT_TIMEOUT_SECS, 300);
    let executor = executor.with_timeout(5);
    assert_eq!(executor.workdir(), "/tmp/work");
    assert_eq!(executor.timeout_secs(), 5);
}

#[test]
fn execution_result_from_output() {
    let result = ExecutionResult::from_output("o".to_string(), "e".to_string(), Some(3), false);
    assert_eq!(
        result,
        ExecutionResult {
            stdout: "o".to_string(),
            stderr: "e".to_string(),
            exit_code: 3,
            success: false
        }
    );
    let killed = ExecutionResult::from_output(String::new(), String::new(), None, false);
    assert_eq!(killed.exit_code, -1);
    assert!(!killed.success);
}

#[test]
fn listing_commands_and_output() {
    assert_eq!(list_command(None), "ls -1 *");
    assert_eq!(list_command(Some("*.rs")), "ls -1 *.rs");
    assert_eq!(
        listing_from_output(true, "a.rs\nb.rs\n"),
        vec!["a.rs".to_string(), "b.rs".to_string()]
    );
    assert_eq!(listing_from_output(true, "one line"), vec!["one line".to_string()]);
    assert_eq!(listing_from_output(true, ""), Vec::<String>::new());
    assert_eq!(listing_from_output(false, "a.rs\nb.rs\n"), Vec::<String>::new());
}

#[test]
fn failure_messages_name_the_path() {
    assert_eq!(read_failure("missing.txt"), "Failed to read file: missing.txt");
    assert_eq!(write_failure("out/x"), "Failed to write file: out/x");
}

#[test]
fn decimal_rendering() {
    assert_eq!(digits_to_string(0), "0");
    assert_eq!(digits_to_string(9), "9");
    assert_eq!(digits_to_string(10), "10");
    assert_eq!(digits_to_string(u64::MAX), "18446744073709551615");
    assert_eq!(i32_to_string(0), "0");
    assert_eq!(i32_to_string(-1), "-1");
    assert_eq!(i32_to_string(127), "127");
    assert_eq!(i32_to_string(1050), "1050");
    assert_eq!(i32_to_string(i32::MAX), "2147483647");
    assert_eq!(i32_to_string(i32::MIN), "-2147483648");
}

#[test]
fn text_helpers() {
    assert!(same_text("abc", "abc"));
    assert!(!same_text("abc", "abd"));
    assert!(!same_text("abc", "ab"));
    assert_eq!(prefixed("ab", "cd"), "abcd");
    assert_eq!(join(&Vec::new(), "\n"), "");
    assert_eq!(join(&vec!["a".to_string()], "\n"), "a");
    assert_eq!(join(&vec!["a".to_string(), "".to_string(), "c".to_string()], ", "), "a, , c");
}

#[test]
fn duplicated_tool_calls_are_equal() {
    let calls = vec![
        ToolCall {
            id: "1".to_string(),
            call_type: "function".to_string(),
            function: FunctionCall { name: "bash".to_string(), arguments: "{}".to_string() },
        },
        ToolCall {
            id: "2".to_string(),
            call_type: "function".to_string(),
            function: FunctionCall { name: "list".to_string(), arguments: "{}".to_string() },
        },
    ];
    assert_eq!(duplicate_tool_calls(&calls), calls);
    assert_eq!(calls[1].duplicate(), calls[1]);
}

#[test]
fn provider_names() {
    assert_eq!(provider_kind("openai"), Ok(ProviderKind::OpenAI));
    assert_eq!(provider_kind("OpenAI"), Ok(ProviderKind::OpenAI));
    assert_eq!(
        provider_kind("Ollama"),
        Err(ProviderError::UnsupportedProvider("Ollama".to_string()))
    );
    assert_eq!(provider_for_lowercase("openai", "OPENAI"), Ok(ProviderKind::OpenAI));
    assert_eq!(
        provider_for_lowercase("OpenAI", "OpenAI"),
        Err(ProviderError::UnsupportedProvider("OpenAI".to_string()))
    );
}

#[test]
fn provider_error_messages() {
    assert_eq!(
        ProviderError::UnsupportedProvider("Ollama".to_string()).message(),
        "Unsupported provider: Ollama"
    );
    assert_eq!(
        ProviderError::MissingApiKey.message(),
        "OPENAI_API_KEY environment variable not set"
    );
}

#[test]
fn create_provider_checks_the_name_before_the_credential() {
    assert_eq!(
        create_provider("ollama", None, None, None, None),
        Err(ProviderError::UnsupportedProvider("ollama".to_string()))
    );
    assert_eq!(
        create_provider("openai", None, None, None, None),
        Err(ProviderError::MissingApiKey)
    );
    let provider =
        create_provider("OPENAI", Some("gpt-4o"), Some("k".to_string()), None, None).unwrap();
    assert_eq!(provider.model_name(), "gpt-4o");
    assert_eq!(provider.authorization(), "Bearer k");
    assert_eq!(provider.completions_url(), "https://api.openai.com/v1/chat/completions");
}

#[test]
fn provider_settings_from_the_environment() {
    assert_eq!(OpenAIProvider::new(Some("m"), None, None, None), Err(ProviderError::MissingApiKey));
    let provider = OpenAIProvider::new(None, Some("key".to_string()), None, None).unwrap();
    assert_eq!(provider.model_name(), "gpt-4");
    assert_eq!(provider.completions_url(), "https://api.openai.com/v1/chat/completions");
    assert_eq!(provider.authorization(), "Bearer key");
    let provider = OpenAIProvider::new(
        None,
        Some("key".to_string()),
        Some("http://localhost:8080/v1".to_string()),
        Some("env-model".to_string()),
    )
    .unwrap();
    assert_eq!(provider.model_name(), "env-model");
    assert_eq!(provider.completions_url(), "http://localhost:8080/v1/chat/completions");
    let provider = OpenAIProvider::new(
        Some("chosen"),
        Some("key".to_string()),
        None,
        Some("env-model".to_string()),
    )
    .unwrap();
    assert_eq!(provider.model_name(), "chosen");
}

#[test]
fn tool_choice_is_auto_with_tools() {
    assert_eq!(tool_choice(true), Some("auto".to_string()));
    assert_eq!(tool_choice(false), None);
}

#[test]
fn missing_content_of_a_choice_is_empty() {
    let response = response_from_choice(None, None, "stop".to_string());
    assert_eq!(response.content, "");
    assert_eq!(response.tool_calls, None);
    assert_eq!(response.finish_reason, "stop");
    let response = response_from_choice(Some("hi".to_string()), Some(Vec::new()), "x".to_string());
    assert_eq!(response.content, "hi");
    assert_eq!(response.tool_calls, Some(Vec::new()));
}

#[test]
fn transport_error_messages() {
    assert_eq!(
        TransportError::Unreachable("dns".to_string()).message(),
        "Failed to send request to OpenAI API"
    );
    assert_eq!(
        TransportError::Status {
            status: "401 Unauthorized".to_string(),
            body: "{\"error\":\"bad key\"}".to_string()
        }
        .message(),
        "OpenAI API error (401 Unauthorized): {\"error\":\"bad key\"}"
    );
    assert_eq!(
        TransportError::InvalidBody("eof".to_string()).message(),
        "Failed to parse OpenAI API response"
    );
    assert_eq!(TransportError::NoChoices.message(), "No choices in response");
}

#[test]
fn chat_request_has_auto_tool_choice_exactly_with_tools() {
    let provider = OpenAIProvider::new(Some("m1"), Some("k".to_string()), None, None).unwrap();
    let messages = vec![aishell::message::Message::user("hi".to_string())];
    let without = provider.chat_request(messages.clone(), None);
    assert_eq!(without.model, "m1");
    assert_eq!(without.messages, messages);
    assert_eq!(without.tools, None);
    assert_eq!(without.tool_choice, None);
    let tools = aishell::catalog::get_tool_definitions();
    let with = provider.chat_request(messages.clone(), Some(tools.clone()));
    assert_eq!(with.tools, Some(tools));
    assert_eq!(with.tool_choice, Some("auto".to_string()));
    let with_none = provider.chat_request(messages, Some(Vec::new()));
    assert_eq!(with_none.tool_choice, Some("auto".to_string()));
}
