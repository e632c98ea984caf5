use simulacra::json::Json;
use simulacra::types::{
    arguments_from_hook_input, hook_input_payload, hook_output_payload, result_from_hook_output, truncate_chars,
    CapabilityToken, PathPattern, ProviderError, ToolError, ToolOutput, ToolSchema, TOOL_PREVIEW_MAX_CHARS,
};

fn json(text: &str) -> Json {
    Json::parse(text).unwrap()
}

#[test]
fn outputs_read_back_as_they_were_written() {
    let output = ToolOutput::success("fine").with_structured(json(r#"{"n":1}"#));
    let again = ToolOutput::from_value(output.to_value());
    assert_eq!(again.content, "fine");
    assert!(!again.is_error);
    assert_eq!(again.structured.unwrap().to_string(), r#"{"n":1}"#);
    assert!(ToolOutput::from_value(ToolOutput::error("bad").to_value()).is_error);
}

#[test]
fn values_of_another_shape_are_text() {
    let output = ToolOutput::from_value(json(r#"{"error":"looks bad"}"#));
    assert_eq!(output.content, r#"{"error":"looks bad"}"#);
    assert!(!output.is_error);
}

#[test]
fn previews_are_cut() {
    let long = "x".repeat(TOOL_PREVIEW_MAX_CHARS + 10);
    let output = ToolOutput::success(&long);
    assert_eq!(output.content, long);
    assert!(output.log_preview.chars().count() < long.chars().count());
    assert_eq!(truncate_chars("äöü", 2), ("äö".to_string(), true));
    assert_eq!(truncate_chars("äöü", 3), ("äöü".to_string(), false));
}

#[test]
fn hooks_can_replace_arguments_and_results() {
    let arguments = json(r#"{"path":"/a"}"#);
    let payload = hook_input_payload("read", &arguments);
    assert_eq!(arguments_from_hook_input(arguments.clone(), &payload).to_string(), arguments.to_string());
    let changed = json(r#"{"tool":"read","arguments":{"path":"/b"}}"#);
    assert_eq!(
        arguments_from_hook_input(arguments.clone(), &changed).to_string(),
        r#"{"path":"/b"}"#
    );
    let result = json(r#"{"ok":true}"#);
    let payload = hook_output_payload("read", &arguments, &result);
    assert_eq!(result_from_hook_output(result.clone(), &payload).to_string(), result.to_string());
}

#[test]
fn schemas_describe_objects() {
    let schema = ToolSchema::object(
        vec![("path".to_string(), ToolSchema::string("Where"))],
        vec!["path".to_string()],
    );
    assert_eq!(
        schema.to_string(),
        r#"{"properties":{"path":{"description":"Where","type":"string"}},"required":["path"],"type":"object"}"#
    );
    assert_eq!(ToolSchema::integer("n").text_field("type").as_deref(), Some("integer"));
    assert_eq!(ToolSchema::number("n").text_field("type").as_deref(), Some("number"));
    assert_eq!(ToolSchema::boolean("b").text_field("type").as_deref(), Some("boolean"));
}

#[test]
fn a_denied_capability_is_an_error_of_the_tool() {
    let denied = CapabilityToken::default().check_shell().unwrap_err();
    let message = denied.to_string();
    assert!(ToolError::CapabilityDenied(denied).to_string().contains(&message));
}

#[test]
fn only_transient_provider_errors_are_worth_another_try() {
    for status in [429, 500, 502, 503, 529] {
        assert!(ProviderError::classify(status, "later").is_retryable(), "{status}");
    }
    for status in [400, 401, 403, 404] {
        assert!(!ProviderError::classify(status, "never").is_retryable(), "{status}");
    }
}

#[test]
fn capabilities_only_get_narrower() {
    let wide = CapabilityToken {
        shell: true,
        paths_read: vec![PathPattern("/workspace/**".to_string())],
        ..Default::default()
    };
    let narrow = CapabilityToken {
        paths_read: vec![PathPattern("/workspace/project/**".to_string())],
        ..Default::default()
    };
    let both = wide.intersect(&narrow);
    assert!(both.is_subset_of(&wide));
    assert!(both.check_path_read("/workspace/project/a").is_ok());
    assert!(both.check_path_read("/workspace/other/a").is_err());
    assert!(both.check_shell().is_err());
    assert!(wide.check_javascript().is_err());
    assert!(wide.check_python().is_err());
    assert!(wide.check_skill("anything").is_ok());
}
