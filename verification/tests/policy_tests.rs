use mcp_client_rust::security::{SecurityManager, ToolPolicy};
use mcp_client_rust::validation::InputValidator;
use mcp_client_rust::logging::{LogLevel, McpLogger};
use mcp_client_rust::tool_manager::ToolManager;
use mcp_client_rust::{Tool, JsonValue};

#[test]
fn default_policies_are_registered() {
    let m = SecurityManager::new();
    assert_eq!(m.tool_policies.len(), 3);
    assert_eq!(m.tool_policies[0].0, "file-write");
    assert_eq!(m.tool_policies[0].1.max_calls_per_minute, 5);
    assert!(m.tool_policies[0].1.requires_approval);
    assert_eq!(m.tool_policies[1].0, "execute-command");
    assert_eq!(m.tool_policies[1].1.max_calls_per_minute, 2);
    assert_eq!(m.tool_policies[2].0, "read-data");
    assert!(!m.tool_policies[2].1.requires_approval);
    assert_eq!(m.tool_policies[2].1.max_calls_per_minute, 20);
}

#[test]
fn rate_limit_refuses_the_call_over_the_cap() {
    let mut m = SecurityManager::new();
    for _ in 0..5 {
        assert!(m.check_tool_call("file-write"));
    }
    assert!(!m.check_tool_call("file-write"));
}

#[test]
fn unknown_tool_gets_the_default_cap() {
    let mut m = SecurityManager::new();
    for _ in 0..10 {
        assert!(m.check_tool_call("mystery"));
    }
    assert!(!m.check_tool_call("mystery"));
}

#[test]
fn tools_are_counted_apart() {
    let mut m = SecurityManager::new();
    assert!(m.check_tool_call("execute-command"));
    assert!(m.check_tool_call("execute-command"));
    assert!(!m.check_tool_call("execute-command"));
    assert!(m.check_tool_call("read-data"));
}

#[test]
fn set_tool_policy_overrides_the_cap() {
    let mut m = SecurityManager::new();
    m.set_tool_policy(
        "file-write".to_string(),
        ToolPolicy { requires_approval: false, max_calls_per_minute: 1 },
    );
    assert!(m.check_tool_call("file-write"));
    assert!(!m.check_tool_call("file-write"));
}

#[test]
fn file_paths_are_screened() {
    assert!(InputValidator::validate_file_path("notes/todo.txt"));
    assert!(InputValidator::validate_file_path("./notes/todo.txt"));
    assert!(!InputValidator::validate_file_path("../secrets"));
    assert!(!InputValidator::validate_file_path("/etc/passwd"));
    assert!(InputValidator::validate_file_path("./with..dots"));
}

#[test]
fn commands_are_screened() {
    assert!(InputValidator::validate_command("ls -la"));
    assert!(!InputValidator::validate_command("ls && rm x"));
    assert!(!InputValidator::validate_command("a; b"));
    assert!(!InputValidator::validate_command("a | b"));
}

#[test]
fn urls_are_screened() {
    assert!(InputValidator::validate_url("http://localhost:1234"));
    assert!(InputValidator::validate_url("https://example.com"));
    assert!(!InputValidator::validate_url("ftp://example.com"));
    assert!(!InputValidator::validate_url("localhost"));
}

#[test]
fn logger_threshold_decides_emission() {
    let quiet = McpLogger::new(LogLevel::Warn);
    assert!(!quiet.should_log(LogLevel::Debug));
    assert!(!quiet.should_log(LogLevel::Info));
    assert!(quiet.should_log(LogLevel::Warn));
    assert!(quiet.should_log(LogLevel::Error));
    let chatty = McpLogger::new(LogLevel::Debug);
    assert!(chatty.should_log(LogLevel::Debug));
}

#[test]
fn logger_formats_the_line() {
    let line = McpLogger::format_line("2024-11-05 12:00:00.000", LogLevel::Warn, "careful");
    assert_eq!(line, "[2024-11-05 12:00:00.000] [WARN] careful");
}

#[test]
fn logger_with_file_keeps_the_level() {
    let l = McpLogger::new(LogLevel::Info).with_file("out.log".to_string());
    assert_eq!(l.level, LogLevel::Info);
    assert_eq!(l.log_file.as_deref(), Some("out.log"));
}

fn tool(name: &str, description: Option<&str>) -> Tool {
    Tool {
        name: name.to_string(),
        description: description.map(|d| d.to_string()),
        input_schema: JsonValue::Obj(vec![(
            "type".to_string(),
            JsonValue::Str("object".to_string()),
        )]),
    }
}

#[test]
fn find_tool_takes_the_first_match() {
    let m = ToolManager::new(vec![tool("greet", Some("hello")), tool("sum", None)]);
    assert_eq!(m.find_tool("sum").map(|t| t.name.as_str()), Some("sum"));
    assert!(m.find_tool("absent").is_none());
    assert_eq!(m.get_all_tools().len(), 2);
}

#[test]
fn llm_rendering_carries_names_and_defaults() {
    let m = ToolManager::new(vec![tool("greet", Some("hello")), tool("sum", None)]);
    let rendered = m.format_for_llm();
    assert_eq!(rendered.len(), 2);
    match &rendered[0] {
        JsonValue::Obj(es) => {
            assert_eq!(es[0], ("name".to_string(), JsonValue::Str("greet".to_string())));
            assert_eq!(es[1], (
                "description".to_string(),
                JsonValue::Str("hello".to_string()),
            ));
            assert_eq!(es[2].0, "parameters");
            assert_eq!(
                es[2].1,
                JsonValue::Obj(vec![(
                    "type".to_string(),
                    JsonValue::Str("object".to_string()),
                )]),
            );
        },
        other => panic!("unexpected rendering: {:?}", other),
    }
    match &rendered[1] {
        JsonValue::Obj(es) => {
            assert_eq!(es[1], (
                "description".to_string(),
                JsonValue::Str("Tool: sum".to_string()),
            ));
        },
        other => panic!("unexpected rendering: {:?}", other),
    }
}
