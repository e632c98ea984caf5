//! Tools: their schemas, their calls, and what they give back.
use crate::coding::{lemma_item_views, mark};
use crate::json::{bool_of, item_views, member, member_views, printed, put, text_of, Json, JsonView};
use crate::text::{concat, copy, take, texts};
use crate::types::capability::{denied_message, CapabilityDenied, DeniedView};
use vstd::prelude::*;
use vstd::string::*;

verus! {

broadcast use vstd::seq_lib::group_seq_properties;

/// How many characters of an output its preview shows.
pub const TOOL_PREVIEW_MAX_CHARS: usize = 4096;

/// Schema definition for a tool that can be offered to an LLM.
#[derive(Debug)]
pub struct ToolDefinition {
    pub name: String,
    pub description: String,
    pub input_schema: Json,
}

/// What a [`ToolDefinition`] says.
pub struct DefinitionView {
    pub name: Seq<char>,
    pub description: Seq<char>,
    pub input_schema: JsonView,
}

impl View for ToolDefinition {
    type V = DefinitionView;

    open spec fn view(&self) -> DefinitionView {
        DefinitionView { name: self.name@, description: self.description@, input_schema: self.input_schema@ }
    }
}

impl Clone for ToolDefinition {
    fn clone(&self) -> (r: Self)
        ensures
            r@ == self@,
    {
        ToolDefinition {
            name: self.name.clone(),
            description: self.description.clone(),
            input_schema: self.input_schema.clone(),
        }
    }
}

/// A concrete tool call from the LLM.
#[derive(Debug, Clone)]
pub struct ToolCall {
    pub id: String,
    pub name: String,
    pub arguments: Json,
}

/// Result of executing a tool.
#[derive(Debug, Clone, PartialEq, Eq)]
pub struct ToolResult {
    pub tool_call_id: String,
    pub content: String,
    pub is_error: bool,
}

// ---- Schemas -----------------------------------------------------------------

/// Small JSON Schema helper surface for tool definitions.
pub struct ToolSchema;

/// A list of texts as JSON.
pub open spec fn text_list(list: Seq<Seq<char>>) -> JsonView {
    JsonView::Array(Seq::new(list.len(), |i: int| JsonView::Text(list[i])))
}

fn texts_to_json(list: Vec<String>) -> (r: Json)
    ensures
        r@ == text_list(texts(list@)),
{
    let mut out: Vec<Json> = Vec::new();
    let mut i: usize = 0;
    while i < list.len()
        invariant
            i <= list@.len(),
            out@.len() == i,
            forall|k: int| 0 <= k < i ==> (#[trigger] out@[k])@ == JsonView::Text(list@[k]@),
        decreases list@.len() - i,
    {
        out.push(Json::Text(list[i].clone()));
        i = i + 1;
    }
    proof {
        lemma_item_views(out@);
        assert(item_views(out@) =~= text_list(texts(list@))->Array_0);
    }
    Json::Array(out)
}

/// The schema of an object with these properties and no others.
pub open spec fn object_schema(properties: Map<Seq<char>, JsonView>, required: Seq<Seq<char>>) -> JsonView {
    JsonView::Object(
        Map::empty().insert("type"@, JsonView::Text("object"@)).insert(
            "properties"@,
            JsonView::Object(properties),
        ).insert("required"@, text_list(required)).insert("additionalProperties"@, JsonView::Bool(false)),
    )
}

/// The schema of a simple value with a description.
pub open spec fn described(schema_type: Seq<char>, description: Seq<char>) -> JsonView {
    JsonView::Object(
        Map::empty().insert("type"@, JsonView::Text(schema_type)).insert(
            "description"@,
            JsonView::Text(description),
        ),
    )
}

fn described_schema(schema_type: &str, description: &str) -> (r: Json)
    ensures
        r@ == described(schema_type@, description@),
{
    let mut m: Vec<(String, Json)> = Vec::new();
    put(&mut m, "type", Json::text(schema_type));
    put(&mut m, "description", Json::text(description));
    Json::Object(m)
}

impl ToolSchema {
    /// An object with these properties and no others. Of two properties with one name the
    /// later one counts.
    pub fn object(properties: Vec<(String, Json)>, required: Vec<String>) -> (r: Json)
        ensures
            r@ == object_schema(member_views(properties@), texts(required@)),
    {
        let mut m: Vec<(String, Json)> = Vec::new();
        put(&mut m, "type", Json::text("object"));
        put(&mut m, "properties", Json::Object(properties));
        put(&mut m, "required", texts_to_json(required));
        put(&mut m, "additionalProperties", Json::Bool(false));
        Json::Object(m)
    }

    /// A text.
    pub fn string(description: &str) -> (r: Json)
        ensures
            r@ == described("string"@, description@),
    {
        described_schema("string", description)
    }

    /// A number.
    pub fn number(description: &str) -> (r: Json)
        ensures
            r@ == described("number"@, description@),
    {
        described_schema("number", description)
    }

    /// A whole number.
    pub fn integer(description: &str) -> (r: Json)
        ensures
            r@ == described("integer"@, description@),
    {
        described_schema("integer", description)
    }

    /// A truth value.
    pub fn boolean(description: &str) -> (r: Json)
        ensures
            r@ == described("boolean"@, description@),
    {
        described_schema("boolean", description)
    }
}

// ---- Outputs -----------------------------------------------------------------

/// The first `max_chars` characters.
pub open spec fn truncated(content: Seq<char>, max_chars: nat) -> Seq<char> {
    if content.len() <= max_chars {
        content
    } else {
        content.take(max_chars as int)
    }
}

/// The first `max_chars` characters, and whether there are more.
pub fn truncate_chars(content: &str, max_chars: usize) -> (r: (String, bool))
    ensures
        r.0@ == truncated(content@, max_chars as nat),
        r.1 == (content@.len() > max_chars),
{
    if content.unicode_len() <= max_chars {
        return (copy(content), false);
    }
    (copy(take(content, max_chars)), true)
}

/// What is shown of an output in a log.
pub open spec fn preview_of(content: Seq<char>) -> Seq<char> {
    truncated(content, TOOL_PREVIEW_MAX_CHARS as nat)
}

fn preview(content: &str) -> (r: String)
    ensures
        r@ == preview_of(content@),
{
    truncate_chars(content, TOOL_PREVIEW_MAX_CHARS).0
}

/// Typed output contract for tool execution.
///
/// `content` is the provider/model-visible text. `is_error` is authoritative:
/// callers must not infer error state from arbitrary structured fields.
#[derive(Debug, Clone)]
pub struct ToolOutput {
    pub content: String,
    pub is_error: bool,
    pub log_preview: String,
    pub structured: Option<Json>,
    pub hook_input: Option<Json>,
    pub hook_output: Option<Json>,
}

/// What a [`ToolOutput`] says.
pub struct ToolOutputView {
    pub content: Seq<char>,
    pub is_error: bool,
    pub log_preview: Seq<char>,
    pub structured: Option<JsonView>,
    pub hook_input: Option<JsonView>,
    pub hook_output: Option<JsonView>,
}

/// What an optional value is.
pub open spec fn maybe_json(json: Option<Json>) -> Option<JsonView> {
    match json {
        Some(json) => Some(json@),
        None => None,
    }
}

impl View for ToolOutput {
    type V = ToolOutputView;

    open spec fn view(&self) -> ToolOutputView {
        ToolOutputView {
            content: self.content@,
            is_error: self.is_error,
            log_preview: self.log_preview@,
            structured: maybe_json(self.structured),
            hook_input: maybe_json(self.hook_input),
            hook_output: maybe_json(self.hook_output),
        }
    }
}

/// An output that is a text alone.
pub open spec fn text_output(content: Seq<char>, is_error: bool) -> ToolOutputView {
    ToolOutputView {
        content,
        is_error,
        log_preview: preview_of(content),
        structured: None,
        hook_input: None,
        hook_output: None,
    }
}

/// The value is an explicit typed output: it says its content and whether it is an error.
pub open spec fn is_typed_output(json: JsonView) -> bool {
    text_of(member(json, "content"@)) is Some && bool_of(member(json, "is_error"@)) is Some
}

/// The output that a raw tool value stands for.
pub open spec fn output_of(json: JsonView) -> ToolOutputView {
    if is_typed_output(json) {
        let content = text_of(member(json, "content"@))->0;
        ToolOutputView {
            content,
            is_error: bool_of(member(json, "is_error"@))->0,
            log_preview: match text_of(member(json, "log_preview"@)) {
                Some(preview) => preview,
                None => preview_of(content),
            },
            structured: member(json, "structured"@),
            hook_input: member(json, "hook_input"@),
            hook_output: member(json, "hook_output"@),
        }
    } else {
        match json {
            JsonView::Text(content) => text_output(content, false),
            _ => ToolOutputView { structured: Some(json), ..text_output(printed(json), false) },
        }
    }
}

/// `members` with one more, where there is a value for it.
pub open spec fn with_member(members: Map<Seq<char>, JsonView>, key: Seq<char>, value: Option<JsonView>) -> Map<
    Seq<char>,
    JsonView,
> {
    match value {
        Some(value) => members.insert(key, value),
        None => members,
    }
}

/// The raw value of an output.
pub open spec fn output_value(v: ToolOutputView) -> JsonView {
    let members = Map::empty().insert("content"@, JsonView::Text(v.content)).insert(
        "is_error"@,
        JsonView::Bool(v.is_error),
    ).insert("log_preview"@, JsonView::Text(v.log_preview));
    let members = with_member(members, "structured"@, v.structured);
    let members = with_member(members, "hook_input"@, v.hook_input);
    JsonView::Object(with_member(members, "hook_output"@, v.hook_output))
}

fn put_maybe(members: &mut Vec<(String, Json)>, key: &str, value: &Option<Json>)
    ensures
        member_views(final(members)@) == with_member(member_views(old(members)@), key@, maybe_json(*value)),
{
    if let Some(value) = value {
        put(members, key, value.clone());
    }
}

fn get_maybe(json: &Json, key: &str) -> (r: Option<Json>)
    ensures
        maybe_json(r) == member(json@, key@),
{
    match json.get(key) {
        Some(value) => Some(value.clone()),
        None => None,
    }
}

impl ToolOutput {
    fn of_text(content: &str, is_error: bool) -> (r: Self)
        ensures
            r@ == text_output(content@, is_error),
    {
        ToolOutput {
            log_preview: preview(content),
            content: copy(content),
            is_error,
            structured: None,
            hook_input: None,
            hook_output: None,
        }
    }

    /// The output of a tool that succeeded.
    pub fn success(content: &str) -> (r: Self)
        ensures
            r@ == text_output(content@, false),
    {
        Self::of_text(content, false)
    }

    /// The output of a tool that failed.
    pub fn error(content: &str) -> (r: Self)
        ensures
            r@ == text_output(content@, true),
    {
        Self::of_text(content, true)
    }

    /// The same output with structured data.
    pub fn with_structured(self, structured: Json) -> (r: Self)
        ensures
            r@ == (ToolOutputView { structured: Some(structured@), ..self@ }),
    {
        let mut out = self;
        out.structured = Some(structured);
        out
    }

    /// The same output with what its hooks saw before.
    pub fn with_hook_input(self, hook_input: Json) -> (r: Self)
        ensures
            r@ == (ToolOutputView { hook_input: Some(hook_input@), ..self@ }),
    {
        let mut out = self;
        out.hook_input = Some(hook_input);
        out
    }

    /// The same output with what its hooks saw after.
    pub fn with_hook_output(self, hook_output: Json) -> (r: Self)
        ensures
            r@ == (ToolOutputView { hook_output: Some(hook_output@), ..self@ }),
    {
        let mut out = self;
        out.hook_output = Some(hook_output);
        out
    }

    /// Convert legacy/raw tool values into the typed contract.
    ///
    /// Objects with both `content` and `is_error` are treated as explicit typed
    /// payloads. Other values are successful legacy values; an `error` field by
    /// itself is preserved as structured data but does not set `is_error`.
    pub fn from_value(value: Json) -> (r: Self)
        ensures
            r@ == output_of(value@),
    {
        match (value.text_field("content"), value.bool_field("is_error")) {
            (Some(content), Some(is_error)) => {
                let log_preview = match value.text_field("log_preview") {
                    Some(text) => text,
                    None => preview(content.as_str()),
                };
                return ToolOutput {
                    content,
                    is_error,
                    log_preview,
                    structured: get_maybe(&value, "structured"),
                    hook_input: get_maybe(&value, "hook_input"),
                    hook_output: get_maybe(&value, "hook_output"),
                };
            },
            _ => {},
        }
        match &value {
            Json::Text(content) => Self::success(content.as_str()),
            _ => {
                let text = value.to_string();
                Self::success(text.as_str()).with_structured(value)
            },
        }
    }

    /// The raw value of the output.
    pub fn to_value(&self) -> (r: Json)
        ensures
            r@ == output_value(self@),
    {
        let mut m: Vec<(String, Json)> = Vec::new();
        put(&mut m, "content", Json::Text(self.content.clone()));
        put(&mut m, "is_error", Json::Bool(self.is_error));
        put(&mut m, "log_preview", Json::Text(self.log_preview.clone()));
        put_maybe(&mut m, "structured", &self.structured);
        put_maybe(&mut m, "hook_input", &self.hook_input);
        put_maybe(&mut m, "hook_output", &self.hook_output);
        Json::Object(m)
    }
}

// ---- Hooks -------------------------------------------------------------------

/// What the generic pre-tool hook sees.
pub open spec fn hook_input_of(tool_name: Seq<char>, arguments: JsonView) -> JsonView {
    JsonView::Object(
        Map::empty().insert("tool"@, JsonView::Text(tool_name)).insert("arguments"@, arguments),
    )
}

/// What the generic post-tool hook sees.
pub open spec fn hook_output_of(tool_name: Seq<char>, arguments: JsonView, result: JsonView) -> JsonView {
    JsonView::Object(
        Map::empty().insert("tool"@, JsonView::Text(tool_name)).insert("arguments"@, arguments).insert(
            "result"@,
            result,
        ),
    )
}

/// The member `key` of a payload, or else the value as it was.
pub open spec fn rewritten(original: JsonView, payload: JsonView, key: Seq<char>) -> JsonView {
    match member(payload, key) {
        Some(value) => value,
        None => original,
    }
}

/// Stable payload used by the generic pre-tool hook.
pub fn hook_input_payload(tool_name: &str, arguments: &Json) -> (r: Json)
    ensures
        r@ == hook_input_of(tool_name@, arguments@),
{
    let mut m: Vec<(String, Json)> = Vec::new();
    put(&mut m, "tool", Json::text(tool_name));
    put(&mut m, "arguments", arguments.clone());
    Json::Object(m)
}

/// Extract possibly rewritten arguments from a modified pre-hook payload.
pub fn arguments_from_hook_input(original: Json, payload: &Json) -> (r: Json)
    ensures
        r@ == rewritten(original@, payload@, "arguments"@),
{
    match payload.get("arguments") {
        Some(value) => value.clone(),
        None => original,
    }
}

/// Stable payload used by the generic post-tool hook.
pub fn hook_output_payload(tool_name: &str, arguments: &Json, result: &Json) -> (r: Json)
    ensures
        r@ == hook_output_of(tool_name@, arguments@, result@),
{
    let mut m: Vec<(String, Json)> = Vec::new();
    put(&mut m, "tool", Json::text(tool_name));
    put(&mut m, "arguments", arguments.clone());
    put(&mut m, "result", result.clone());
    Json::Object(m)
}

/// Extract possibly rewritten result from a modified post-hook payload.
pub fn result_from_hook_output(original: Json, payload: &Json) -> (r: Json)
    ensures
        r@ == rewritten(original@, payload@, "result"@),
{
    match payload.get("result") {
        Some(value) => value.clone(),
        None => original,
    }
}

// ---- Errors ------------------------------------------------------------------

/// Errors from tool execution.
#[derive(Debug)]
pub enum ToolError {
    CapabilityDenied(CapabilityDenied),
    InvalidArguments(String),
    ExecutionFailed(String),
}

/// What a [`ToolError`] says.
#[verifier::ext_equal]
pub enum ToolErrorView {
    CapabilityDenied(DeniedView),
    InvalidArguments(Seq<char>),
    ExecutionFailed(Seq<char>),
}

impl View for ToolError {
    type V = ToolErrorView;

    open spec fn view(&self) -> ToolErrorView {
        match self {
            ToolError::CapabilityDenied(e) => ToolErrorView::CapabilityDenied(e@),
            ToolError::InvalidArguments(text) => ToolErrorView::InvalidArguments(text@),
            ToolError::ExecutionFailed(text) => ToolErrorView::ExecutionFailed(text@),
        }
    }
}

/// The text of a [`ToolError`].
pub open spec fn tool_message(e: ToolErrorView) -> Seq<char> {
    match e {
        ToolErrorView::CapabilityDenied(e) => "capability denied: "@ + denied_message(e),
        ToolErrorView::InvalidArguments(text) => "invalid arguments: "@ + text,
        ToolErrorView::ExecutionFailed(text) => "execution failed: "@ + text,
    }
}

impl ToolError {
    /// What the error says.
    pub fn to_string(&self) -> (r: String)
        ensures
            r@ == tool_message(self@),
    {
        match self {
            ToolError::CapabilityDenied(e) => concat("capability denied: ", e.to_string().as_str()),
            ToolError::InvalidArguments(text) => concat("invalid arguments: ", text.as_str()),
            ToolError::ExecutionFailed(text) => concat("execution failed: ", text.as_str()),
        }
    }
}

// ---- Laws --------------------------------------------------------------------

/// The names of the members of an output differ.
pub proof fn lemma_output_names()
    ensures
        mark("content"@) == 7_099_116_116,
        mark("is_error"@) == 8_105_114_114,
        mark("log_preview"@) == 11_108_114_119,
        mark("structured"@) == 10_115_116_100,
        mark("hook_input"@) == 10_104_105_116,
        mark("hook_output"@) == 11_104_111_116,
{
    reveal_strlit("content");
    reveal_strlit("is_error");
    reveal_strlit("log_preview");
    reveal_strlit("structured");
    reveal_strlit("hook_input");
    reveal_strlit("hook_output");
}

/// The raw value of an output stands for that output.
pub proof fn output_round_trip(v: ToolOutputView)
    ensures
        output_of(output_value(v)) == v,
{
    lemma_output_names();
}

/// Only an explicit `is_error` next to a `content` makes an output an error.
pub proof fn errors_are_never_inferred(json: JsonView)
    requires
        output_of(json).is_error,
    ensures
        is_typed_output(json),
        member(json, "is_error"@) == Some(JsonView::Bool(true)),
{
}

/// A preview is the beginning of its content, and is no longer than the limit.
pub proof fn previews_are_short(content: Seq<char>)
    ensures
        preview_of(content).is_prefix_of(content),
        preview_of(content).len() <= TOOL_PREVIEW_MAX_CHARS,
{
    assert(preview_of(content) =~= content.subrange(0, preview_of(content).len() as int));
}

/// The names of the members of a hook payload differ.
pub proof fn lemma_hook_names()
    ensures
        mark("tool"@) == 4_116_111_108,
        mark("arguments"@) == 9_097_109_115,
        mark("result"@) == 6_114_117_116,
{
    reveal_strlit("tool");
    reveal_strlit("arguments");
    reveal_strlit("result");
}

/// A hook that hands its payload back as it was changes nothing.
pub proof fn untouched_payloads_change_nothing(tool_name: Seq<char>, arguments: JsonView, result: JsonView)
    ensures
        rewritten(arguments, hook_input_of(tool_name, arguments), "arguments"@) == arguments,
        rewritten(result, hook_output_of(tool_name, arguments, result), "result"@) == result,
{
    lemma_hook_names();
}

} // verus!
