use simulacra::coding::Coded;
use simulacra::json::Json;
use simulacra::types::{
    ActivityEvent, CapabilityDenied, CapabilityToken, CheckpointData, Cost, ExitReason, FinishReason, FsMetadata, HitId,
    JournalEntry, Locator, MemoryCapability, MemoryPath, MemoryVersion, Message, NetworkPermission, PathPattern,
    ProviderResponse, ProviderStreamEvent, ResourceBudget, Role, TenantId, TokenUsage, ToolCall, ToolDefinition,
    ToolOutput, ToolResult, VfsEvent, VfsSnapshot,
};
use simulacra::workflow::{
    WorkflowAgentCall, WorkflowEvent, WorkflowRun, WorkflowRunOptions, WorkflowScript, WorkflowScriptMeta, WorkflowStatus,
};

fn json(text: &str) -> Json {
    Json::parse(text).unwrap()
}

/// The text that a value reads from and is written as again.
fn again<T: Coded>(text: &str) -> String {
    match T::from_json(&json(text)) {
        Ok(value) => value.to_json().to_string(),
        Err(e) => panic!("{text}: {e}"),
    }
}

fn reason<T: Coded>(text: &str) -> String {
    match T::from_json(&json(text)) {
        Ok(value) => panic!("{text} was read as {}", value.to_json().to_string()),
        Err(e) => e,
    }
}

fn stays<T: Coded>(text: &str) {
    assert_eq!(again::<T>(text), json(text).to_string());
}

fn budget() -> ResourceBudget {
    ResourceBudget {
        max_tokens: 10,
        max_turns: 2,
        max_cost: Cost::new(150, 2),
        max_sub_agents: 3,
        max_vfs_bytes: 4,
        used_tokens: 5,
        used_turns: 1,
        used_cost: Cost::new(-25, 3),
        used_sub_agents: 0,
        used_vfs_bytes: 6,
        max_fuel: 7,
        used_fuel: 8,
    }
}

#[test]
fn records_are_read_from_lists_of_their_values() {
    assert_eq!(
        again::<WorkflowScriptMeta>(r#"["n", "d"]"#),
        json(r#"{"name": "n", "description": "d"}"#).to_string()
    );
    assert_eq!(
        again::<TokenUsage>("[1, 2]"),
        again::<TokenUsage>(r#"{"input_tokens": 1, "output_tokens": 2}"#)
    );
    assert_eq!(
        again::<TokenUsage>("[1, 2, 3]"),
        again::<TokenUsage>(r#"{"input_tokens": 1, "output_tokens": 2, "cache_read_input_tokens": 3}"#)
    );
    assert_eq!(reason::<TokenUsage>("[1]"), "expected an object");
    assert_eq!(reason::<TokenUsage>("[1, 2, 3, 4, 5]"), "expected an object");
    assert_eq!(
        again::<Message>(r#"["user", "hi", [["id", "shell", {"cmd": "ls"}]], null]"#),
        again::<Message>(
            r#"{"role": "user", "content": "hi", "tool_calls": [{"id": "id", "name": "shell", "arguments": {"cmd": "ls"}}],
                "tool_call_id": null}"#
        )
    );
    assert_eq!(
        again::<WorkflowAgentCall>(r#"["k", 3, null, "a"]"#),
        again::<WorkflowAgentCall>(r#"{"key": "k", "index": 3, "agent": "a"}"#)
    );
    assert_eq!(
        again::<WorkflowRun>(r#"["r", "/s.mjs", ["n", "d"], "Running"]"#),
        again::<WorkflowRun>(
            r#"{"run_id": "r", "script_path": "/s.mjs", "meta": {"name": "n", "description": "d"}, "status": "Running"}"#
        )
    );
}

#[test]
fn variants_are_read_from_lists_that_begin_with_their_tag() {
    assert_eq!(
        again::<JournalEntry>(r#"[3, "agent", 9, ["ShellCommand", "ls", -1]]"#),
        again::<JournalEntry>(
            r#"{"schema_version": 3, "agent_id": "agent", "timestamp_ms": 9,
                "entry": {"type": "ShellCommand", "command": "ls", "exit_code": -1}}"#
        )
    );
    assert_eq!(
        again::<JournalEntry>(r#"[3, "agent", 9, ["SubAgentSpawned", "c", "p", "b", "t"]]"#),
        again::<JournalEntry>(
            r#"{"schema_version": 3, "agent_id": "agent", "timestamp_ms": 9,
                "entry": {"type": "SubAgentSpawned", "child_id": "c", "placement": "p", "backend": "b", "task": "t"}}"#
        )
    );
    assert_eq!(again::<ActivityEvent>(r#"["TurnComplete"]"#), r#"{"type":"TurnComplete"}"#);
    assert_eq!(
        again::<ActivityEvent>(r#"["ChildActivity", "c", "p", ["ChildActivity", "d", "q", ["Token", "x"]]]"#),
        again::<ActivityEvent>(
            r#"{"type": "ChildActivity", "child_id": "c", "placement": "p", "event":
                {"type": "ChildActivity", "child_id": "d", "placement": "q", "event": {"type": "Token", "text": "x"}}}"#
        )
    );
    assert_eq!(
        again::<WorkflowEvent>(r#"["run_failed", "r", "e"]"#),
        again::<WorkflowEvent>(r#"{"type": "run_failed", "run_id": "r", "error": "e"}"#)
    );
    assert_eq!(again::<Locator>(r#"["jsonl_line", 4]"#), again::<Locator>(r#"{"kind": "jsonl_line", "line": 4}"#));
    assert_eq!(reason::<ActivityEvent>(r#"["Token"]"#), "expected an object");
    assert_eq!(
        reason::<ActivityEvent>(r#"["ChildActivity", "c", "p", ["Token", 1]]"#),
        "`event`: `text`: expected a text"
    );
}

#[test]
fn variants_without_members_are_read_from_their_name_or_from_an_object() {
    assert_eq!(again::<Role>(r#""tool""#), r#""tool""#);
    assert_eq!(again::<Role>(r#"{"tool": null}"#), r#""tool""#);
    assert_eq!(again::<WorkflowStatus>(r#"{"Failed": null}"#), r#""Failed""#);
    assert_eq!(again::<FinishReason>(r#"{"tool_use": null}"#), r#""tool_use""#);
    assert_eq!(reason::<Role>(r#"{"tool": 1}"#), "expected one of system, user, assistant, tool");
    assert_eq!(
        reason::<WorkflowStatus>(r#"{"Failed": null, "Running": null}"#),
        "expected one of Pending, Running, Completed, Failed, Cancelled"
    );
    assert_eq!(reason::<FinishReason>(r#""stop""#), "expected one of end_turn, tool_use, max_tokens, stop_sequence");
}

#[test]
fn reasons_name_the_member_at_fault() {
    assert_eq!(reason::<TokenUsage>(r#"{"input_tokens": 1}"#), "missing field `output_tokens`");
    assert_eq!(
        reason::<TokenUsage>(r#"{"input_tokens": -1, "output_tokens": 2}"#),
        "`input_tokens`: expected an unsigned integer"
    );
    assert_eq!(reason::<TokenUsage>("7"), "expected an object");
    assert_eq!(
        reason::<Message>(r#"{"role": "user", "content": "", "tool_calls": [{"id": "a", "name": "b"}], "tool_call_id": null}"#),
        "`tool_calls`: missing field `arguments`"
    );
    assert_eq!(
        reason::<Message>(r#"{"role": "user", "content": "", "tool_calls": {}, "tool_call_id": null}"#),
        "`tool_calls`: expected a list"
    );
    assert_eq!(reason::<ActivityEvent>(r#"{"type": "Unheard"}"#), "unknown variant `Unheard`");
    assert_eq!(reason::<ActivityEvent>("{}"), "missing field `type`");
    assert_eq!(reason::<ActivityEvent>(r#"{"type": 1}"#), "`type`: expected a text");
    assert_eq!(
        reason::<ActivityEvent>(r#"{"type": "ChildActivity", "child_id": "c", "placement": "p"}"#),
        "missing field `event`"
    );
    assert_eq!(
        reason::<WorkflowRun>(r#"{"run_id": "r", "script_path": "/s", "meta": {"name": "n"}, "status": "Running"}"#),
        "`meta`: missing field `description`"
    );
    assert_eq!(reason::<bool>("1"), "expected true or false");
    assert_eq!(reason::<u8>("256"), "expected an integer from 0 to 255");
    assert_eq!(reason::<u16>("65536"), "expected an integer from 0 to 65535");
    assert_eq!(reason::<u32>("-1"), "expected an integer of 32 bits without a sign");
    assert_eq!(reason::<i32>("3000000000"), "expected an integer of 32 bits");
}

#[test]
fn capability_tokens_read_back() {
    let token = CapabilityToken {
        network: vec![NetworkPermission("net:api.github.com".into())],
        mcp_tools: vec!["t".into()],
        shell: true,
        paths_read: vec![PathPattern("/workspace/**".into())],
        skill_patterns: vec!["skill:a".into()],
        memory: MemoryCapability {
            enabled: true,
            search_scopes: vec![MemoryPath::parse("/var/memory/self").unwrap()],
            write_scopes: vec![],
        },
        ..Default::default()
    };
    let text = token.to_json().to_string();
    stays::<CapabilityToken>(&text);
    let restored = CapabilityToken::from_json(&json(&text)).unwrap();
    assert!(restored.is_subset_of(&token) && token.is_subset_of(&restored));
    assert!(restored.check_shell().is_ok());

    let without_memory = CapabilityToken::from_json(&json(
        r#"{"network": [], "mcp_tools": [], "shell": false, "javascript": false, "python": true, "paths_write": [],
            "paths_read": [], "spawn_types": [], "skill_patterns": []}"#,
    ))
    .unwrap();
    assert!(!without_memory.memory.enabled);
    assert!(without_memory.check_python().is_ok());
    assert_eq!(
        reason::<CapabilityToken>(r#"{"network": [1]}"#),
        "`network`: expected a text"
    );
    stays::<CapabilityDenied>(r#"{"operation": "o", "reason": "r"}"#);
}

#[test]
fn memory_names_are_checked_when_they_are_read() {
    stays::<TenantId>(r#""acme-1""#);
    assert_eq!(reason::<TenantId>(r#""""#), "tenant id is empty");
    assert_eq!(reason::<TenantId>(r#""Acme""#), "tenant id must start with a lowercase letter or digit");
    let odd = TenantId::parse("a b").unwrap_err().to_string();
    assert_eq!(reason::<TenantId>(r#""a b""#), odd);
    let long = "a".repeat(65);
    let too_long = TenantId::parse(&long).unwrap_err().to_string();
    assert_eq!(reason::<TenantId>(&format!("\"{long}\"")), too_long);
    assert_eq!(reason::<TenantId>("1"), "expected a text");

    assert_eq!(again::<MemoryPath>(r#""/var/memory/self/""#), r#""/var/memory/self""#);
    assert_eq!(reason::<MemoryPath>(r#""/etc/x""#), "memory path must start with /var/memory/ or /mnt/");
    assert_eq!(
        reason::<MemoryCapability>(r#"{"enabled": true, "search_scopes": ["/mnt/../x"], "write_scopes": []}"#),
        "`search_scopes`: memory path contains '..' segment (parent traversal not allowed)"
    );
    stays::<MemoryVersion>("7");
    stays::<HitId>(r#""h-1""#);
    stays::<Locator>(r#"{"kind": "text", "byte_start": 1, "byte_end": 2}"#);
    stays::<Locator>(r#"{"kind": "pdf_page", "page": 1, "paragraph": 2}"#);
    stays::<Locator>(r#"{"kind": "html_selector", "selector": "p", "text_start": 1, "text_end": 2}"#);
    stays::<Locator>(r#"{"kind": "opaque", "format": "f", "payload": "p"}"#);
    assert_eq!(reason::<Locator>(r#"{"kind": "Text"}"#), "unknown variant `Text`");
}

#[test]
fn tools_read_back() {
    stays::<ToolDefinition>(r#"{"name": "n", "description": "d", "input_schema": {"type": "object"}}"#);
    stays::<ToolCall>(r#"{"id": "i", "name": "n", "arguments": [1, null]}"#);
    stays::<ToolResult>(r#"{"tool_call_id": "i", "content": "c", "is_error": false}"#);
    stays::<ToolOutput>(r#"{"content": "c", "is_error": true, "log_preview": "p"}"#);
    stays::<ToolOutput>(r#"{"content": "c", "is_error": true, "log_preview": "p", "structured": {"a": 1}, "hook_output": 2}"#);
    assert_eq!(
        again::<ToolOutput>(r#"{"content": "c", "is_error": true, "log_preview": "p", "structured": null}"#),
        again::<ToolOutput>(r#"["c", true, "p"]"#)
    );
    assert_eq!(reason::<ToolOutput>(r#"{"content": "c", "is_error": true}"#), "missing field `log_preview`");
}

#[test]
fn costs_are_written_as_texts_and_read_from_texts_and_numbers() {
    assert_eq!(Cost::new(150, 2).to_json().to_string(), r#""1.50""#);
    assert_eq!(Cost::new(-25, 3).to_json().to_string(), r#""-0.025""#);
    assert_eq!(Cost::zero().to_json().to_string(), r#""0""#);
    for (coefficient, scale) in [
        (0, 0),
        (0, 28),
        (7, 28),
        (-1, 1),
        (79_228_162_514_264_337_593_543_950_335, 0),
        (79_228_162_514_264_337_593_543_950_335, 28),
        (-79_228_162_514_264_337_593_543_950_335, 14),
    ] {
        let cost = Cost::from_parts(coefficient, scale).unwrap();
        let restored = Cost::from_json(&json(&cost.to_json().to_string())).unwrap();
        assert_eq!((restored.coefficient(), restored.scale()), (coefficient, scale));
    }
    let five = Cost::from_json(&json("5")).unwrap();
    assert_eq!((five.coefficient(), five.scale()), (5, 0));
    let half = Cost::from_json(&json("-0.5")).unwrap();
    assert_eq!((half.coefficient(), half.scale()), (-5, 1));
    let scientific = Cost::from_json(&json(r#""1e2""#)).unwrap();
    assert!(scientific.at_least(&Cost::new(100, 0)) && Cost::new(100, 0).at_least(&scientific));
    assert_eq!(reason::<Cost>(r#""much""#), "expected a decimal number");
    assert_eq!(reason::<Cost>("null"), "expected a decimal number");
    assert_eq!(reason::<Cost>("[]"), "expected a decimal number");
}

#[test]
fn checkpoints_read_back() {
    let checkpoint = CheckpointData {
        messages: vec![Message::from_json(&json(r#"["user", "hi", [], null]"#)).unwrap()],
        budget_snapshot: budget(),
        vfs_snapshot: Some(vec![0, 255]),
    };
    let text = checkpoint.to_json().to_string();
    stays::<CheckpointData>(&text);
    let restored = CheckpointData::from_json(&json(&text)).unwrap();
    assert_eq!(restored.vfs_snapshot, Some(vec![0, 255]));
    assert_eq!(restored.budget_snapshot.used_cost.coefficient(), -25);
    stays::<ResourceBudget>(&budget().to_json().to_string());
    assert_eq!(
        reason::<CheckpointData>(&text.replace("[0,255]", "[0,256]")),
        "`vfs_snapshot`: expected a list of bytes"
    );
    let none = CheckpointData {
        vfs_snapshot: None,
        ..restored
    };
    stays::<CheckpointData>(&none.to_json().to_string());
}

#[test]
fn provider_answers_read_back() {
    stays::<ProviderResponse>(
        r#"{"message": {"role": "assistant", "content": "c", "tool_calls": [], "tool_call_id": null},
            "token_usage": {"input_tokens": 1, "output_tokens": 2, "cache_read_input_tokens": 3, "cache_write_input_tokens": 4},
            "finish_reason": "end_turn", "provider_response_id": null, "model": "m"}"#,
    );
    stays::<ProviderStreamEvent>(r#"{"type": "text_delta", "text": "t"}"#);
    stays::<ProviderStreamEvent>(r#"{"type": "thinking_start"}"#);
    stays::<ProviderStreamEvent>(r#"{"type": "thinking_delta", "text": "t"}"#);
    stays::<ProviderStreamEvent>(r#"{"type": "thinking_end"}"#);
    assert_eq!(reason::<ProviderStreamEvent>(r#"{"type": "text_delta"}"#), "missing field `text`");
}

#[test]
fn exit_reasons_read_back() {
    for text in [
        r#""Complete""#,
        r#""MaxTurns""#,
        r#""BudgetExhausted""#,
        r#"{"GuardrailTripped":"g"}"#,
        r#""AwaitingApproval""#,
        r#""Cancelled""#,
        r#"{"PolicyKill":{"hook":"h","reason":"r"}}"#,
        r#"{"Error":"e"}"#,
    ] {
        stays::<ExitReason>(text);
    }
    assert_eq!(again::<ExitReason>(r#"{"Complete": null}"#), r#""Complete""#);
    assert_eq!(
        again::<ExitReason>(r#"{"PolicyKill": ["h", "r"]}"#),
        r#"{"PolicyKill":{"hook":"h","reason":"r"}}"#
    );
    assert_eq!(reason::<ExitReason>(r#""Error""#), "expected an exit reason");
    assert_eq!(reason::<ExitReason>(r#"{"Error": 1}"#), "`Error`: expected a text");
    assert_eq!(reason::<ExitReason>(r#"{"PolicyKill": {"hook": "h"}}"#), "`PolicyKill`: missing field `reason`");
}

#[test]
fn filesystem_values_read_back() {
    stays::<FsMetadata>(r#"{"is_file": true, "is_dir": false, "size": 3}"#);
    stays::<VfsSnapshot>(r#"{"data": [1, 2, 255]}"#);
    stays::<VfsEvent>(r#"{"Written": {"tenant": "acme", "path": "/a", "len": 1}}"#);
    stays::<VfsEvent>(r#"{"Removed": {"tenant": "acme", "path": "/a"}}"#);
    stays::<VfsEvent>(r#"{"Skipped": {"count": 2}}"#);
    assert_eq!(again::<VfsEvent>(r#"{"Skipped": [2]}"#), r#"{"Skipped":{"count":2}}"#);
    assert_eq!(
        reason::<VfsEvent>(r#"{"Removed": {"tenant": "", "path": "/a"}}"#),
        "`Removed`: `tenant`: tenant id is empty"
    );
    assert_eq!(reason::<VfsEvent>(r#"{"Moved": {}}"#), "expected a change of a filesystem");
}

#[test]
fn run_options_have_defaults() {
    let options = WorkflowRunOptions::from_json(&json(r#"{"script": "s"}"#)).unwrap();
    assert_eq!(options.script.as_deref(), Some("s"));
    assert_eq!(options.concurrency_limit, 16);
    assert!(options.args.is_null());
    assert_eq!(
        again::<WorkflowRunOptions>(r#"{"run_id": "r", "args": [1], "concurrency_limit": 2}"#),
        json(
            r#"{"run_id": "r", "script": null, "name": null, "script_path": null, "args": [1],
                "resume_from_run_id": null, "concurrency_limit": 2}"#
        )
        .to_string()
    );
    assert_eq!(
        again::<WorkflowRunOptions>(r#"["r", null, null, null, 5, null]"#),
        again::<WorkflowRunOptions>(r#"{"run_id": "r", "args": 5}"#)
    );
    assert_eq!(
        reason::<WorkflowRunOptions>(r#"{"concurrency_limit": null}"#),
        "`concurrency_limit`: expected an unsigned integer"
    );
    assert_eq!(reason::<WorkflowRunOptions>("7"), "expected an object");
    assert_eq!(reason::<WorkflowRunOptions>("[null]"), "expected an object");
    stays::<WorkflowScript>(r#"{"path": "/p", "source": "s", "meta": {"name": "n", "description": "d"}}"#);
}
