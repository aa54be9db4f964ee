use zeroclaw_composio::code_generation::{build_prompt, clean_generated_code, code_from_response, dangerous_patterns_found, validate_code};

#[test]
fn test_clean_generated_code_with_markdown() {
    let code_with_markdown = "```python\nprint(\"Hello, World!\")\n```";
    let cleaned = clean_generated_code(code_with_markdown);
    assert_eq!(cleaned, r#"print("Hello, World!")"#);
}

#[test]
fn test_clean_generated_code_without_markdown() {
    let code = r#"print("Hello, World!")"#;
    let cleaned = clean_generated_code(code);
    assert_eq!(cleaned, r#"print("Hello, World!")"#);
}

#[test]
fn test_clean_generated_code_with_whitespace() {
    let code = "\n\n        print(\"Hello, World!\")\n        \n        ";
    let cleaned = clean_generated_code(code);
    assert_eq!(cleaned, r#"print("Hello, World!")"#);
}

#[test]
fn test_clean_generated_code_with_generic_markdown() {
    let code_with_markdown = "```\nprint(\"Hello, World!\")\n```";
    let cleaned = clean_generated_code(code_with_markdown);
    assert_eq!(cleaned, r#"print("Hello, World!")"#);
}

#[test]
fn test_validate_code_success() {
    let code = "result = run_composio_tool(\"GMAIL_SEND_EMAIL\", {\"to\": \"test@example.com\"})\nprint(f\"Result: {result}\")";
    assert!(validate_code(code).is_ok());
}

#[test]
fn test_validate_code_empty() {
    let result = validate_code("");
    assert!(result.is_err());
    assert!(result.unwrap_err().contains("empty"));
}

#[test]
fn test_validate_code_with_dangerous_patterns() {
    let code_with_eval = r#"eval("print('test')")"#;
    assert!(validate_code(code_with_eval).is_ok());
    let code_with_exec = r#"exec("print('test')")"#;
    assert!(validate_code(code_with_exec).is_ok());
}

#[test]
fn dangerous_patterns_are_listed() {
    let found = dangerous_patterns_found(r#"eval("x")"#);
    assert_eq!(found, vec!["eval(".to_string()]);
    assert!(dangerous_patterns_found("print(1)").is_empty());
}

#[test]
fn test_generate_workbench_code_success() {
    let response = "```python\nresult = run_composio_tool(\"GMAIL_SEND_EMAIL\", {\n    \"to\": \"test@example.com\"\n})\n```";
    let code = code_from_response(response).unwrap();
    assert!(code.contains("run_composio_tool"));
    assert!(code.contains("GMAIL_SEND_EMAIL"));
    assert!(!code.contains("```"));
}

#[test]
fn test_generate_workbench_code_empty_response() {
    let result = code_from_response("");
    assert!(result.is_err());
    assert!(result.unwrap_err().contains("empty"));
}

#[test]
fn prompt_holds_the_task() {
    let p = build_prompt("Send an email");
    assert!(p.starts_with("Generate Python code for Composio Workbench to accomplish the following task:"));
    assert!(p.contains("Send an email"));
}
