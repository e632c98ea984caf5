//! Tools, their calls and their results as JSON.
use crate::coding::{mark, optional, optional_field, put_some, required, required_field, view_of, with_some, Coded};
use crate::json::{member, put, Json, JsonView};
use crate::record::{as_record, find_object_fault, find_optional_fault, find_required_fault, first, object_fault, optional_fault, record_of, required_fault, said, tell};
use crate::text::{copy, opt_text, texts};
use crate::types::message::ToolCallView;
use crate::types::tool::{DefinitionView, ToolCall, ToolDefinition, ToolOutput, ToolOutputView, ToolResult};
use vstd::prelude::*;

verus! {

broadcast use vstd::seq_lib::group_seq_properties;

/// The names of the members of a tool definition differ.
pub proof fn lemma_definition_names()
    ensures
        mark("name"@) == 4_110_109_101,
        mark("description"@) == 11_100_105_110,
        mark("input_schema"@) == 12_105_115_097,
{
    reveal_strlit("name");
    reveal_strlit("description");
    reveal_strlit("input_schema");
}

/// The value that the members of an object stand for, where they stand for a tool definition.
pub open spec fn definition_value(json: JsonView) -> Option<DefinitionView> {
    match (
        required::<String>(member(json, "name"@)),
        required::<String>(member(json, "description"@)),
        required::<Json>(member(json, "input_schema"@)),
    ) {
        (Some(name), Some(description), Some(input_schema)) => Some(
            DefinitionView { name, description, input_schema },
        ),
        _ => None,
    }
}

/// Reads the members of a tool definition.
fn read_definition_value(json: &Json) -> (r: Option<ToolDefinition>)
    ensures
        view_of(r) == definition_value(json@),
{
    match (
        required_field::<String>(json, "name"),
        required_field::<String>(json, "description"),
        required_field::<Json>(json, "input_schema"),
    ) {
        (Some(name), Some(description), Some(input_schema)) => Some(
            ToolDefinition { name, description, input_schema },
        ),
        _ => None,
    }
}

/// The members of a tool definition.
pub open spec fn definition_names() -> Seq<Seq<char>> {
    seq!["name"@, "description"@, "input_schema"@]
}

/// The object that a list stands for, where it stands for a tool definition.
fn definition_record(json: &Json) -> (r: Option<Json>)
    ensures
        match r {
            Some(record) => record@ == record_of(json@, definition_names(), 3),
            None => json@ == record_of(json@, definition_names(), 3),
        },
{
    let names: Vec<String> = vec![copy("name"), copy("description"), copy("input_schema")];
    assert(texts(names@) =~= definition_names());
    as_record(json, &names, 3)
}

/// What is wrong with the members of a tool definition.
pub open spec fn definition_fault(json: JsonView) -> Option<Seq<char>> {
    first(
        object_fault(json),
        first(
            required_fault::<String>(json, "name"@),
            first(
                required_fault::<String>(json, "description"@),
                required_fault::<Json>(json, "input_schema"@),
            ),
        ),
    )
}

/// Finds what is wrong with the members of a tool definition.
fn find_definition_fault(json: &Json) -> (r: Option<String>)
    ensures
        opt_text(r) == definition_fault(json@),
{
    let fault = find_object_fault(json);
    if fault.is_some() {
        return fault;
    }
    let fault = find_required_fault::<String>(json, "name");
    if fault.is_some() {
        return fault;
    }
    let fault = find_required_fault::<String>(json, "description");
    if fault.is_some() {
        return fault;
    }
    find_required_fault::<Json>(json, "input_schema")
}

impl Coded for ToolDefinition {
    open spec fn stable(v: DefinitionView) -> bool {
        true
    }

    open spec fn enc(v: DefinitionView) -> JsonView {
        JsonView::Object(
            Map::empty()
                .insert("name"@, String::enc(v.name))
                .insert("description"@, String::enc(v.description))
                .insert("input_schema"@, Json::enc(v.input_schema)),
        )
    }

    open spec fn dec(json: JsonView) -> Option<DefinitionView> {
        definition_value(record_of(json, definition_names(), 3))
    }

    open spec fn complaint(json: JsonView) -> Seq<char> {
        said(definition_fault(record_of(json, definition_names(), 3)))
    }

    proof fn round_trip(v: DefinitionView) {
        lemma_definition_names();
        let json = Self::enc(v);
        assert(member(json, "name"@) == Some(String::enc(v.name)));
        String::round_trip(v.name);
        assert(member(json, "description"@) == Some(String::enc(v.description)));
        String::round_trip(v.description);
        assert(member(json, "input_schema"@) == Some(Json::enc(v.input_schema)));
        Json::round_trip(v.input_schema);
    }

    fn to_json(&self) -> (r: Json) {
        let mut m: Vec<(String, Json)> = Vec::new();
        put(&mut m, "name", self.name.to_json());
        put(&mut m, "description", self.description.to_json());
        put(&mut m, "input_schema", self.input_schema.to_json());
        Json::Object(m)
    }

    fn read(json: &Json) -> (r: Option<Self>) {
        match definition_record(json) {
            Some(record) => read_definition_value(&record),
            None => read_definition_value(json),
        }
    }

    fn complain(json: &Json) -> (r: String) {
        match definition_record(json) {
            Some(record) => tell(find_definition_fault(&record)),
            None => tell(find_definition_fault(json)),
        }
    }
}

impl View for ToolCall {
    type V = ToolCallView;

    open spec fn view(&self) -> ToolCallView {
        ToolCallView { id: self.id@, name: self.name@, arguments: self.arguments@ }
    }
}

/// The names of the members of a tool call differ.
pub proof fn lemma_call_names()
    ensures
        mark("id"@) == 2_105_100_100,
        mark("name"@) == 4_110_109_101,
        mark("arguments"@) == 9_097_109_115,
{
    reveal_strlit("id");
    reveal_strlit("name");
    reveal_strlit("arguments");
}

/// The value that the members of an object stand for, where they stand for a tool call.
pub open spec fn call_value(json: JsonView) -> Option<ToolCallView> {
    match (
        required::<String>(member(json, "id"@)),
        required::<String>(member(json, "name"@)),
        required::<Json>(member(json, "arguments"@)),
    ) {
        (Some(id), Some(name), Some(arguments)) => Some(
            ToolCallView { id, name, arguments },
        ),
        _ => None,
    }
}

/// Reads the members of a tool call.
fn read_call_value(json: &Json) -> (r: Option<ToolCall>)
    ensures
        view_of(r) == call_value(json@),
{
    match (
        required_field::<String>(json, "id"),
        required_field::<String>(json, "name"),
        required_field::<Json>(json, "arguments"),
    ) {
        (Some(id), Some(name), Some(arguments)) => Some(
            ToolCall { id, name, arguments },
        ),
        _ => None,
    }
}

/// The members of a tool call.
pub open spec fn call_names() -> Seq<Seq<char>> {
    seq!["id"@, "name"@, "arguments"@]
}

/// The object that a list stands for, where it stands for a tool call.
fn call_record(json: &Json) -> (r: Option<Json>)
    ensures
        match r {
            Some(record) => record@ == record_of(json@, call_names(), 3),
            None => json@ == record_of(json@, call_names(), 3),
        },
{
    let names: Vec<String> = vec![copy("id"), copy("name"), copy("arguments")];
    assert(texts(names@) =~= call_names());
    as_record(json, &names, 3)
}

/// What is wrong with the members of a tool call.
pub open spec fn call_fault(json: JsonView) -> Option<Seq<char>> {
    first(
        object_fault(json),
        first(
            required_fault::<String>(json, "id"@),
            first(
                required_fault::<String>(json, "name"@),
                required_fault::<Json>(json, "arguments"@),
            ),
        ),
    )
}

/// Finds what is wrong with the members of a tool call.
fn find_call_fault(json: &Json) -> (r: Option<String>)
    ensures
        opt_text(r) == call_fault(json@),
{
    let fault = find_object_fault(json);
    if fault.is_some() {
        return fault;
    }
    let fault = find_required_fault::<String>(json, "id");
    if fault.is_some() {
        return fault;
    }
    let fault = find_required_fault::<String>(json, "name");
    if fault.is_some() {
        return fault;
    }
    find_required_fault::<Json>(json, "arguments")
}

impl Coded for ToolCall {
    open spec fn stable(v: ToolCallView) -> bool {
        true
    }

    open spec fn enc(v: ToolCallView) -> JsonView {
        JsonView::Object(
            Map::empty()
                .insert("id"@, String::enc(v.id))
                .insert("name"@, String::enc(v.name))
                .insert("arguments"@, Json::enc(v.arguments)),
        )
    }

    open spec fn dec(json: JsonView) -> Option<ToolCallView> {
        call_value(record_of(json, call_names(), 3))
    }

    open spec fn complaint(json: JsonView) -> Seq<char> {
        said(call_fault(record_of(json, call_names(), 3)))
    }

    proof fn round_trip(v: ToolCallView) {
        lemma_call_names();
        let json = Self::enc(v);
        assert(member(json, "id"@) == Some(String::enc(v.id)));
        String::round_trip(v.id);
        assert(member(json, "name"@) == Some(String::enc(v.name)));
        String::round_trip(v.name);
        assert(member(json, "arguments"@) == Some(Json::enc(v.arguments)));
        Json::round_trip(v.arguments);
    }

    fn to_json(&self) -> (r: Json) {
        let mut m: Vec<(String, Json)> = Vec::new();
        put(&mut m, "id", self.id.to_json());
        put(&mut m, "name", self.name.to_json());
        put(&mut m, "arguments", self.arguments.to_json());
        Json::Object(m)
    }

    fn read(json: &Json) -> (r: Option<Self>) {
        match call_record(json) {
            Some(record) => read_call_value(&record),
            None => read_call_value(json),
        }
    }

    fn complain(json: &Json) -> (r: String) {
        match call_record(json) {
            Some(record) => tell(find_call_fault(&record)),
            None => tell(find_call_fault(json)),
        }
    }
}

/// What a [`ToolResult`] says.
pub struct ToolResultView {
    pub tool_call_id: Seq<char>,
    pub content: Seq<char>,
    pub is_error: bool,
}

impl View for ToolResult {
    type V = ToolResultView;

    open spec fn view(&self) -> ToolResultView {
        ToolResultView { tool_call_id: self.tool_call_id@, content: self.content@, is_error: self.is_error }
    }
}

/// The names of the members of the result of a tool differ.
pub proof fn lemma_tool_result_names()
    ensures
        mark("tool_call_id"@) == 12_116_097_100,
        mark("content"@) == 7_099_116_116,
        mark("is_error"@) == 8_105_114_114,
{
    reveal_strlit("tool_call_id");
    reveal_strlit("content");
    reveal_strlit("is_error");
}

/// The value that the members of an object stand for, where they stand for the result of a tool.
pub open spec fn tool_result_value(json: JsonView) -> Option<ToolResultView> {
    match (
        required::<String>(member(json, "tool_call_id"@)),
        required::<String>(member(json, "content"@)),
        required::<bool>(member(json, "is_error"@)),
    ) {
        (Some(tool_call_id), Some(content), Some(is_error)) => Some(
            ToolResultView { tool_call_id, content, is_error },
        ),
        _ => None,
    }
}

/// Reads the members of the result of a tool.
fn read_tool_result_value(json: &Json) -> (r: Option<ToolResult>)
    ensures
        view_of(r) == tool_result_value(json@),
{
    match (
        required_field::<String>(json, "tool_call_id"),
        required_field::<String>(json, "content"),
        required_field::<bool>(json, "is_error"),
    ) {
        (Some(tool_call_id), Some(content), Some(is_error)) => Some(
            ToolResult { tool_call_id, content, is_error },
        ),
        _ => None,
    }
}

/// The members of the result of a tool.
pub open spec fn tool_result_names() -> Seq<Seq<char>> {
    seq!["tool_call_id"@, "content"@, "is_error"@]
}

/// The object that a list stands for, where it stands for the result of a tool.
fn tool_result_record(json: &Json) -> (r: Option<Json>)
    ensures
        match r {
            Some(record) => record@ == record_of(json@, tool_result_names(), 3),
            None => json@ == record_of(json@, tool_result_names(), 3),
        },
{
    let names: Vec<String> = vec![copy("tool_call_id"), copy("content"), copy("is_error")];
    assert(texts(names@) =~= tool_result_names());
    as_record(json, &names, 3)
}

/// What is wrong with the members of the result of a tool.
pub open spec fn tool_result_fault(json: JsonView) -> Option<Seq<char>> {
    first(
        object_fault(json),
        first(
            required_fault::<String>(json, "tool_call_id"@),
            first(
                required_fault::<String>(json, "content"@),
                required_fault::<bool>(json, "is_error"@),
            ),
        ),
    )
}

/// Finds what is wrong with the members of the result of a tool.
fn find_tool_result_fault(json: &Json) -> (r: Option<String>)
    ensures
        opt_text(r) == tool_result_fault(json@),
{
    let fault = find_object_fault(json);
    if fault.is_some() {
        return fault;
    }
    let fault = find_required_fault::<String>(json, "tool_call_id");
    if fault.is_some() {
        return fault;
    }
    let fault = find_required_fault::<String>(json, "content");
    if fault.is_some() {
        return fault;
    }
    find_required_fault::<bool>(json, "is_error")
}

impl Coded for ToolResult {
    open spec fn stable(v: ToolResultView) -> bool {
        true
    }

    open spec fn enc(v: ToolResultView) -> JsonView {
        JsonView::Object(
            Map::empty()
                .insert("tool_call_id"@, String::enc(v.tool_call_id))
                .insert("content"@, String::enc(v.content))
                .insert("is_error"@, bool::enc(v.is_error)),
        )
    }

    open spec fn dec(json: JsonView) -> Option<ToolResultView> {
        tool_result_value(record_of(json, tool_result_names(), 3))
    }

    open spec fn complaint(json: JsonView) -> Seq<char> {
        said(tool_result_fault(record_of(json, tool_result_names(), 3)))
    }

    proof fn round_trip(v: ToolResultView) {
        lemma_tool_result_names();
        let json = Self::enc(v);
        assert(member(json, "tool_call_id"@) == Some(String::enc(v.tool_call_id)));
        String::round_trip(v.tool_call_id);
        assert(member(json, "content"@) == Some(String::enc(v.content)));
        String::round_trip(v.content);
        assert(member(json, "is_error"@) == Some(bool::enc(v.is_error)));
        bool::round_trip(v.is_error);
    }

    fn to_json(&self) -> (r: Json) {
        let mut m: Vec<(String, Json)> = Vec::new();
        put(&mut m, "tool_call_id", self.tool_call_id.to_json());
        put(&mut m, "content", self.content.to_json());
        put(&mut m, "is_error", self.is_error.to_json());
        Json::Object(m)
    }

    fn read(json: &Json) -> (r: Option<Self>) {
        match tool_result_record(json) {
            Some(record) => read_tool_result_value(&record),
            None => read_tool_result_value(json),
        }
    }

    fn complain(json: &Json) -> (r: String) {
        match tool_result_record(json) {
            Some(record) => tell(find_tool_result_fault(&record)),
            None => tell(find_tool_result_fault(json)),
        }
    }
}

/// A value that is not null, where there is one. Null reads back as no value.
pub open spec fn not_null(json: Option<JsonView>) -> bool {
    json != Some(JsonView::Null)
}

/// The names of the members of the output of a tool differ.
pub proof fn lemma_output_names()
    ensures
        mark("content"@) == 7_099_116_116,
        mark("is_error"@) == 8_105_114_114,
        mark("log_preview"@) == 11_108_114_119,
        mark("structured"@) == 10_115_116_100,
        mark("hook_input"@) == 10_104_105_116,
        mark("hook_output"@) == 11_104_111_116,
{
    reveal_strlit("content");
    reveal_strlit("is_error");
    reveal_strlit("log_preview");
    reveal_strlit("structured");
    reveal_strlit("hook_input");
    reveal_strlit("hook_output");
}

/// The value that the members of an object stand for, where they stand for the output of a tool.
pub open spec fn output_value(json: JsonView) -> Option<ToolOutputView> {
    match (
        required::<String>(member(json, "content"@)),
        required::<bool>(member(json, "is_error"@)),
        required::<String>(member(json, "log_preview"@)),
        optional::<Json>(member(json, "structured"@)),
        optional::<Json>(member(json, "hook_input"@)),
        optional::<Json>(member(json, "hook_output"@)),
    ) {
        (
            Some(content),
            Some(is_error),
            Some(log_preview),
            Some(structured),
            Some(hook_input),
            Some(hook_output),
        ) => Some(
            ToolOutputView { content, is_error, log_preview, structured, hook_input, hook_output },
        ),
        _ => None,
    }
}

/// Reads the members of the output of a tool.
fn read_output_value(json: &Json) -> (r: Option<ToolOutput>)
    ensures
        view_of(r) == output_value(json@),
{
    match (
        required_field::<String>(json, "content"),
        required_field::<bool>(json, "is_error"),
        required_field::<String>(json, "log_preview"),
        optional_field::<Json>(json, "structured"),
        optional_field::<Json>(json, "hook_input"),
        optional_field::<Json>(json, "hook_output"),
    ) {
        (
            Some(content),
            Some(is_error),
            Some(log_preview),
            Some(structured),
            Some(hook_input),
            Some(hook_output),
        ) => Some(
            ToolOutput { content, is_error, log_preview, structured, hook_input, hook_output },
        ),
        _ => None,
    }
}

/// The members of the output of a tool.
pub open spec fn output_names() -> Seq<Seq<char>> {
    seq!["content"@, "is_error"@, "log_preview"@, "structured"@, "hook_input"@, "hook_output"@]
}

/// The object that a list stands for, where it stands for the output of a tool.
fn output_record(json: &Json) -> (r: Option<Json>)
    ensures
        match r {
            Some(record) => record@ == record_of(json@, output_names(), 3),
            None => json@ == record_of(json@, output_names(), 3),
        },
{
    let names: Vec<String> = vec![
        copy("content"),
        copy("is_error"),
        copy("log_preview"),
        copy("structured"),
        copy("hook_input"),
        copy("hook_output"),
    ];
    assert(texts(names@) =~= output_names());
    as_record(json, &names, 3)
}

/// What is wrong with the members of the output of a tool.
pub open spec fn output_fault(json: JsonView) -> Option<Seq<char>> {
    first(
        object_fault(json),
        first(
            required_fault::<String>(json, "content"@),
            first(
                required_fault::<bool>(json, "is_error"@),
                first(
                    required_fault::<String>(json, "log_preview"@),
                    first(
                        optional_fault::<Json>(json, "structured"@),
                        first(
                            optional_fault::<Json>(json, "hook_input"@),
                            optional_fault::<Json>(json, "hook_output"@),
                        ),
                    ),
                ),
            ),
        ),
    )
}

/// Finds what is wrong with the members of the output of a tool.
fn find_output_fault(json: &Json) -> (r: Option<String>)
    ensures
        opt_text(r) == output_fault(json@),
{
    let fault = find_object_fault(json);
    if fault.is_some() {
        return fault;
    }
    let fault = find_required_fault::<String>(json, "content");
    if fault.is_some() {
        return fault;
    }
    let fault = find_required_fault::<bool>(json, "is_error");
    if fault.is_some() {
        return fault;
    }
    let fault = find_required_fault::<String>(json, "log_preview");
    if fault.is_some() {
        return fault;
    }
    let fault = find_optional_fault::<Json>(json, "structured");
    if fault.is_some() {
        return fault;
    }
    let fault = find_optional_fault::<Json>(json, "hook_input");
    if fault.is_some() {
        return fault;
    }
    find_optional_fault::<Json>(json, "hook_output")
}

impl Coded for ToolOutput {
    open spec fn stable(v: ToolOutputView) -> bool {
        not_null(v.structured) && not_null(v.hook_input) && not_null(v.hook_output)
    }

    open spec fn enc(v: ToolOutputView) -> JsonView {
        JsonView::Object(
            with_some::<Json>(
                with_some::<Json>(
                    with_some::<Json>(
                        Map::empty()
                            .insert("content"@, String::enc(v.content))
                            .insert("is_error"@, bool::enc(v.is_error))
                            .insert("log_preview"@, String::enc(v.log_preview)),
                        "structured"@,
                        v.structured,
                    ),
                    "hook_input"@,
                    v.hook_input,
                ),
                "hook_output"@,
                v.hook_output,
            ),
        )
    }

    open spec fn dec(json: JsonView) -> Option<ToolOutputView> {
        output_value(record_of(json, output_names(), 3))
    }

    open spec fn complaint(json: JsonView) -> Seq<char> {
        said(output_fault(record_of(json, output_names(), 3)))
    }

    proof fn round_trip(v: ToolOutputView) {
        lemma_output_names();
        let json = Self::enc(v);
        assert(member(json, "content"@) == Some(String::enc(v.content)));
        String::round_trip(v.content);
        assert(member(json, "is_error"@) == Some(bool::enc(v.is_error)));
        bool::round_trip(v.is_error);
        assert(member(json, "log_preview"@) == Some(String::enc(v.log_preview)));
        String::round_trip(v.log_preview);
        assert(optional::<Json>(member(json, "structured"@)) == Some(v.structured));
        assert(optional::<Json>(member(json, "hook_input"@)) == Some(v.hook_input));
        assert(optional::<Json>(member(json, "hook_output"@)) == Some(v.hook_output));
    }

    fn to_json(&self) -> (r: Json) {
        let mut m: Vec<(String, Json)> = Vec::new();
        put(&mut m, "content", self.content.to_json());
        put(&mut m, "is_error", self.is_error.to_json());
        put(&mut m, "log_preview", self.log_preview.to_json());
        put_some(&mut m, "structured", &self.structured);
        put_some(&mut m, "hook_input", &self.hook_input);
        put_some(&mut m, "hook_output", &self.hook_output);
        Json::Object(m)
    }

    fn read(json: &Json) -> (r: Option<Self>) {
        match output_record(json) {
            Some(record) => read_output_value(&record),
            None => read_output_value(json),
        }
    }

    fn complain(json: &Json) -> (r: String) {
        match output_record(json) {
            Some(record) => tell(find_output_fault(&record)),
            None => tell(find_output_fault(json)),
        }
    }
}

/// What is said of a tool is refused where something is wrong with it, and only there.
pub proof fn refused_tool_values_are_explained(json: JsonView)
    ensures
        definition_fault(json) is Some <==> definition_value(json) is None,
        call_fault(json) is Some <==> call_value(json) is None,
        tool_result_fault(json) is Some <==> tool_result_value(json) is None,
        output_fault(json) is Some <==> output_value(json) is None,
{
}

} // verus!
