use std::sync::Arc;
use zeroclaw_composio::loading::boxed_registry_from_arcs;
use zeroclaw_composio::loading::{
    default_tools, delegate_fallback_credential, is_pattern_2, mcp_target, meta_tools_url, onboarding_choice, registry_plan,
    plan_mcp_tools, select_pattern, select_refresh_pattern, wants_composio, ComposioLoad, McpTarget, McpToolsPlan, OnboardingChoice, ToolKind,
};
use zeroclaw_composio::office_edit::SecurityPolicy;

fn policy() -> SecurityPolicy {
    SecurityPolicy { workspace_dir: "/workspace".to_string() }
}

#[test]
fn default_tools_has_expected_count() {
    let tools = default_tools(&policy());
    assert_eq!(tools.len(), 6);
}

#[test]
fn default_tools_are_the_file_and_shell_tools() {
    let tools = default_tools(&policy());
    assert_eq!(
        tools,
        vec![ToolKind::Shell, ToolKind::FileRead, ToolKind::FileWrite, ToolKind::FileEdit, ToolKind::GlobSearch, ToolKind::ContentSearch]
    );
}

#[test]
fn registry_excludes_browser_when_disabled() {
    let tools = registry_plan(false, false, false, false);
    assert!(!tools.contains(&ToolKind::BrowserOpen));
    assert!(tools.contains(&ToolKind::Schedule));
    assert!(tools.contains(&ToolKind::ModelRoutingConfig));
    assert!(tools.contains(&ToolKind::Pushover));
    assert!(tools.contains(&ToolKind::ProxyConfig));
    assert_eq!(tools.len(), 23);
}

#[test]
fn registry_includes_optional_tools_when_enabled() {
    let tools = registry_plan(true, true, true, true);
    assert!(tools.contains(&ToolKind::BrowserOpen));
    assert!(tools.contains(&ToolKind::Browser));
    assert!(tools.contains(&ToolKind::HttpRequest));
    assert!(tools.contains(&ToolKind::WebSearch));
    assert_eq!(tools.last(), Some(&ToolKind::Delegate));
    assert_eq!(tools.len(), 28);
}

#[test]
fn pattern_selection_prefers_mcp() {
    assert_eq!(select_pattern(false, true, Some("k")), ComposioLoad::Disabled);
    assert_eq!(select_pattern(true, true, Some("k")), ComposioLoad::Mcp("k".to_string()));
    assert_eq!(select_pattern(true, true, None), ComposioLoad::McpWithoutKey);
    assert_eq!(select_pattern(true, false, Some("k")), ComposioLoad::Rest("k".to_string()));
    assert_eq!(select_pattern(true, false, Some("")), ComposioLoad::EmptyKey);
    assert_eq!(select_pattern(true, false, None), ComposioLoad::Unconfigured);
}

#[test]
fn meta_tools_are_pattern_2() {
    let names = vec!["COMPOSIO_SEARCH_TOOLS".to_string(), "COMPOSIO_MULTI_EXECUTE_TOOL".to_string()];
    assert!(is_pattern_2(&names));
    assert!(!is_pattern_2(&vec!["GMAIL_SEND_EMAIL".to_string(), "COMPOSIO_SEARCH_TOOLS".to_string()]));
}

#[test]
fn tool_router_url_uses_server_and_user() {
    assert_eq!(
        meta_tools_url(None, Some("trs_1"), "u"),
        Ok("https://backend.composio.dev/tool_router/trs_1/mcp?include_composio_helper_actions=true&user_id=u".to_string())
    );
    assert_eq!(meta_tools_url(Some("https://x"), Some("s"), "u"), Ok("https://x".to_string()));
    assert_eq!(
        meta_tools_url(None, None, "u"),
        Err("MCP configuration requires either mcp_url or server_id".to_string())
    );
    assert_eq!(mcp_target(None, Some("s")), Ok(McpTarget::ServerId("s".to_string())));
}

#[test]
fn onboarding_follows_ui_mode() {
    assert_eq!(onboarding_choice(None, None), OnboardingChoice::CliAutoOpen);
    assert_eq!(onboarding_choice(Some("cli"), Some("TRUE")), OnboardingChoice::CliPrintOnly);
    assert_eq!(onboarding_choice(Some("cli"), Some("1")), OnboardingChoice::CliPrintOnly);
    assert_eq!(onboarding_choice(Some("cli"), Some("yes")), OnboardingChoice::CliAutoOpen);
    assert_eq!(onboarding_choice(Some("server"), None), OnboardingChoice::Server);
    assert_eq!(onboarding_choice(Some("web"), None), OnboardingChoice::Unavailable);
}

#[test]
fn composio_needs_a_key_and_the_switch() {
    assert!(wants_composio(Some("k"), true));
    assert!(!wants_composio(Some(""), true));
    assert!(!wants_composio(Some("k"), false));
    assert!(!wants_composio(None, true));
}

#[test]
fn delegate_credential_is_trimmed() {
    assert_eq!(delegate_fallback_credential(Some("  key ")), Some("key".to_string()));
    assert_eq!(delegate_fallback_credential(Some("   ")), None);
    assert_eq!(delegate_fallback_credential(None), None);
}

#[test]
fn boxed_registry_keeps_each_tool_in_order() {
    let tools: Vec<Arc<str>> = vec![Arc::from("shell"), Arc::from("file_read")];
    let boxed = boxed_registry_from_arcs(tools.clone());
    assert_eq!(boxed.len(), 2);
    assert!(Arc::ptr_eq(&boxed[0].inner, &tools[0]));
    assert!(Arc::ptr_eq(&boxed[1].inner, &tools[1]));
}

#[test]
fn refresh_selects_like_a_load() {
    assert_eq!(select_refresh_pattern(false, true, Some("k")), ComposioLoad::Disabled);
    assert_eq!(select_refresh_pattern(false, false, Some("k")), ComposioLoad::Disabled);
    assert_eq!(select_refresh_pattern(true, true, Some("k")), ComposioLoad::Mcp("k".to_string()));
    assert_eq!(select_refresh_pattern(true, false, Some("k")), ComposioLoad::Rest("k".to_string()));
    assert_eq!(select_refresh_pattern(true, false, None), ComposioLoad::Disabled);
    assert_eq!(select_refresh_pattern(true, true, None), ComposioLoad::McpWithoutKey);
}

#[test]
fn mcp_tools_plan_degrades_to_no_tools() {
    let names = |v: &[&str]| -> Vec<String> { v.iter().map(|s| s.to_string()).collect() };
    assert_eq!(plan_mcp_tools(false, Ok(names(&["GMAIL_SEND_EMAIL"]))), McpToolsPlan::NoTools);
    assert_eq!(plan_mcp_tools(true, Err("unreachable".to_string())), McpToolsPlan::NoTools);
    assert_eq!(plan_mcp_tools(true, Ok(Vec::new())), McpToolsPlan::NoTools);
    assert_eq!(
        plan_mcp_tools(true, Ok(names(&["COMPOSIO_MULTI_EXECUTE_TOOL", "X", "COMPOSIO_SEARCH_TOOLS"]))),
        McpToolsPlan::NaturalLanguage
    );
    assert_eq!(
        plan_mcp_tools(true, Ok(names(&["GMAIL_SEND_EMAIL", "COMPOSIO_SEARCH_TOOLS"]))),
        McpToolsPlan::Direct(names(&["GMAIL_SEND_EMAIL", "COMPOSIO_SEARCH_TOOLS"]))
    );
}
