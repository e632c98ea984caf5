use simulacra::coding::Coded;
use simulacra::json::Json;
use simulacra::types::{
    ActivityEvent, AgentId, FinishReason, JournalEntry, Message, ProviderContentBlock, Role, TokenUsage,
    ToolCallMessage, JOURNAL_SCHEMA_VERSION,
};

fn json(text: &str) -> Json {
    Json::parse(text).unwrap()
}

#[test]
fn json_round_trip_nested_child_activity() {
    let inner = ActivityEvent::ToolStart {
        tool_call_id: "tc-1".into(),
        name: "shell_exec".into(),
        arguments: json(r#"{"cmd": "ls"}"#),
    };
    let wrapped = ActivityEvent::ChildActivity {
        child_id: "child-1".into(),
        placement: "researcher".into(),
        event: Box::new(ActivityEvent::ChildActivity {
            child_id: "grandchild-1".into(),
            placement: "coder".into(),
            event: Box::new(inner),
        }),
    };
    let text = wrapped.to_json().to_string();
    let restored = ActivityEvent::from_json(&json(&text)).unwrap();
    assert_eq!(text, restored.to_json().to_string());
}

#[test]
fn token_usage_cache_counters_default_roundtrip_and_do_not_affect_total() {
    let legacy = TokenUsage::from_json(&json(r#"{"input_tokens": 100, "output_tokens": 25}"#)).unwrap();
    assert_eq!(legacy.total(), 125);
    let legacy_json = legacy.to_json();
    assert_eq!(legacy_json.u64_field("cache_read_input_tokens"), Some(0));
    assert_eq!(legacy_json.u64_field("cache_write_input_tokens"), Some(0));

    let with_cache = TokenUsage::from_json(&json(
        r#"{
            "input_tokens": 100,
            "output_tokens": 25,
            "cache_read_input_tokens": 40,
            "cache_write_input_tokens": 15
        }"#,
    ))
    .unwrap();
    assert_eq!(with_cache.total(), 125);
    let with_cache_json = with_cache.to_json();
    assert_eq!(with_cache_json.u64_field("cache_read_input_tokens"), Some(40));
    assert_eq!(with_cache_json.u64_field("cache_write_input_tokens"), Some(15));
}

#[test]
fn s060_a33_child_activity_protocol_uses_only_placement_vocabulary() {
    let cases = [
        r#"{
            "type": "ChildSpawned",
            "child_id": "child-0123456789abcdef0123456789abcdef",
            "placement": "workspace",
            "task": "  preserve task bytes \n"
        }"#,
        r#"{
            "type": "ChildActivity",
            "child_id": "child-0123456789abcdef0123456789abcdef",
            "placement": "workspace",
            "event": { "type": "TurnComplete" }
        }"#,
        r#"{
            "type": "ChildFinished",
            "child_id": "child-0123456789abcdef0123456789abcdef",
            "placement": "workspace",
            "exit_reason": "complete",
            "duration_ms": 17,
            "tool_uses": 2,
            "token_count": 41
        }"#,
    ];

    for expected in cases {
        let event = ActivityEvent::from_json(&json(expected)).expect("child activity shape should be read");
        let encoded = event.to_json();
        assert_eq!(encoded.to_string(), json(expected).to_string());
        assert!(encoded.get("agent_type").is_none());
        assert!(encoded.get("child_agent_type").is_none());
    }
}

#[test]
fn s060_a34_journal_schema_version_is_exactly_three() {
    assert_eq!(JOURNAL_SCHEMA_VERSION, 3);
}

#[test]
fn s060_a34_v3_rejects_the_old_sub_agent_spawned_payload_instead_of_inferring_it() {
    let old_payload = json(
        r#"{
            "schema_version": 3,
            "agent_id": "parent-agent",
            "timestamp_ms": 7,
            "entry": {
                "type": "SubAgentSpawned",
                "child_id": "child-0123456789abcdef0123456789abcdef",
                "agent_type": "coder",
                "system_prompt": "legacy role prompt"
            }
        }"#,
    );
    let message = JournalEntry::from_json(&old_payload)
        .err()
        .expect("a v3 envelope must not decode the v2 SubAgentSpawned shape");
    assert!(
        message.contains("placement")
            || message.contains("backend")
            || message.contains("task")
            || message.contains("unknown field"),
        "malformed v3 payload should fail for its old spawn fields: {message}"
    );
}

#[test]
fn s060_a15_a35_v3_sub_agent_spawned_roundtrips_exact_effective_values() {
    let instructions = "  use the implementation skill\nkeep exact whitespace  ";
    let task = "  inspect only the requested slice \n";
    let expected = json(
        r#"{
            "schema_version": 3,
            "agent_id": "parent-agent",
            "timestamp_ms": 11,
            "entry": {
                "type": "SubAgentSpawned",
                "child_id": "child-0123456789abcdef0123456789abcdef",
                "placement": "workspace",
                "backend": "acp",
                "task": "  inspect only the requested slice \n",
                "instructions": "  use the implementation skill\nkeep exact whitespace  "
            }
        }"#,
    );

    let entry = JournalEntry::from_json(&expected).expect("the exact shape should be read");
    let encoded = entry.to_json();
    assert_eq!(encoded.to_string(), expected.to_string());

    let payload: serde_json::Value = serde_json::from_str(&encoded.get("entry").unwrap().to_string()).unwrap();
    let mut fields: Vec<&str> = payload
        .as_object()
        .expect("the payload should be an object")
        .keys()
        .map(String::as_str)
        .collect();
    fields.sort();
    assert_eq!(
        fields,
        ["backend", "child_id", "instructions", "placement", "task", "type"]
    );
    assert_eq!(payload["instructions"], instructions);
    assert_eq!(payload["task"], task);
}

#[test]
fn s060_a34_v3_rejects_hybrid_sub_agent_spawned_payload_with_legacy_fields() {
    let hybrid = json(
        r#"{
            "schema_version": 3,
            "agent_id": "parent-agent",
            "timestamp_ms": 12,
            "entry": {
                "type": "SubAgentSpawned",
                "child_id": "child-0123456789abcdef0123456789abcdef",
                "placement": "workspace",
                "backend": "acp",
                "task": "bounded task",
                "instructions": "shape independently",
                "agent_type": "coder",
                "system_prompt": "legacy role prompt"
            }
        }"#,
    );
    let message = JournalEntry::from_json(&hybrid)
        .err()
        .expect("legacy fields must not be ignored when all required v3 fields are present");
    assert!(
        message.contains("agent_type") || message.contains("system_prompt"),
        "hybrid payload rejection should identify a legacy field: {message}"
    );
    assert_eq!(message, "`entry`: unknown field `agent_type`");
}

#[test]
fn messages_read_back_as_they_were_written() {
    let message = Message {
        role: Role::Assistant,
        content: "hello".into(),
        tool_calls: vec![ToolCallMessage {
            id: "tc-1".into(),
            name: "shell_exec".into(),
            arguments: json(r#"{"cmd":"ls"}"#),
        }],
        tool_call_id: None,
        provider_content: vec![ProviderContentBlock {
            provider: "p".into(),
            value: json("[1,-2,true,null]"),
        }],
    };
    let text = message.to_json().to_string();
    let restored = Message::from_json(&json(&text)).unwrap();
    assert_eq!(restored.role, Role::Assistant);
    assert_eq!(restored.tool_calls[0].name, "shell_exec");
    assert_eq!(restored.to_json().to_string(), text);
}

#[test]
fn values_of_another_shape_are_not_read() {
    assert!(Role::from_json(&json(r#""assistant ""#)).is_err());
    assert!(AgentId::from_json(&json("7")).is_err());
    assert!(TokenUsage::from_json(&json(r#"{"input_tokens": 1}"#)).is_err());
    assert!(TokenUsage::from_json(&json(r#"{"input_tokens": -1, "output_tokens": 2}"#)).is_err());
    assert!(ActivityEvent::from_json(&json(r#"{"type": "Unheard"}"#)).is_err());
}

#[test]
fn finish_reasons_are_distinct() {
    assert_ne!(FinishReason::EndTurn, FinishReason::ToolUse);
}
