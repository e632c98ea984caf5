//! Laws of how activities and journal entries are written as JSON, and what is read of it.
use crate::coding::{enc_list, has_tag, Coded};
use crate::json::JsonView;
use crate::types::activity::{dec_activity, enc_activity, lemma_activity_fields, lemma_activity_tags, ActivityView};
use crate::types::journal::{dec_kind, enc_kind, lemma_entry_fields, lemma_kind_fields, lemma_kind_tags, EntryKindView, EntryView, JournalEntry};
use crate::types::message::{Message, TokenUsage};
use vstd::prelude::*;

verus! {

broadcast use vstd::seq_lib::group_seq_properties;

/// A text, or null.
pub open spec fn text_or_null(text: Option<Seq<char>>) -> JsonView {
    match text {
        Some(text) => JsonView::Text(text),
        None => JsonView::Null,
    }
}

/// A value, or null.
pub open spec fn value_or_null(value: Option<JsonView>) -> JsonView {
    match value {
        Some(value) => value,
        None => JsonView::Null,
    }
}

/// An integer, which JSON keeps apart by its sign.
pub open spec fn integer(n: i32) -> JsonView {
    if n >= 0 {
        JsonView::Unsigned(n as u64)
    } else {
        JsonView::Negative(n as i64)
    }
}

/// An integer, or null.
pub open spec fn integer_or_null(n: Option<i32>) -> JsonView {
    match n {
        Some(n) => integer(n),
        None => JsonView::Null,
    }
}

// ---- Activities --------------------------------------------------------------

/// The members that an activity is written with: its name under `type`, and each of its parts under the
/// name of the part.
pub open spec fn activity_written(v: ActivityView, m: Map<Seq<char>, JsonView>) -> bool {
    match v {
        ActivityView::Token { text } => {
            &&& m.dom() == set!["type"@, "text"@]
            &&& m["type"@] == JsonView::Text("Token"@)
            &&& m["text"@] == JsonView::Text(text)
        },
        ActivityView::ThinkStart => {
            &&& m.dom() == set!["type"@]
            &&& m["type"@] == JsonView::Text("ThinkStart"@)
        },
        ActivityView::ThinkDelta { text } => {
            &&& m.dom() == set!["type"@, "text"@]
            &&& m["type"@] == JsonView::Text("ThinkDelta"@)
            &&& m["text"@] == JsonView::Text(text)
        },
        ActivityView::ThinkEnd { think_duration_ms, think_tokens } => {
            &&& m.dom() == set!["type"@, "think_duration_ms"@, "think_tokens"@]
            &&& m["type"@] == JsonView::Text("ThinkEnd"@)
            &&& m["think_duration_ms"@] == JsonView::Unsigned(think_duration_ms as u64)
            &&& m["think_tokens"@] == JsonView::Unsigned(think_tokens as u64)
        },
        ActivityView::ToolStart { tool_call_id, name, arguments } => {
            &&& m.dom() == set!["type"@, "tool_call_id"@, "name"@, "arguments"@]
            &&& m["type"@] == JsonView::Text("ToolStart"@)
            &&& m["tool_call_id"@] == JsonView::Text(tool_call_id)
            &&& m["name"@] == JsonView::Text(name)
            &&& m["arguments"@] == arguments
        },
        ActivityView::ToolApprovalRequired { tool_call_id, name, arguments, reason } => {
            &&& m.dom() == set!["type"@, "tool_call_id"@, "name"@, "arguments"@, "reason"@]
            &&& m["type"@] == JsonView::Text("ToolApprovalRequired"@)
            &&& m["tool_call_id"@] == JsonView::Text(tool_call_id)
            &&& m["name"@] == JsonView::Text(name)
            &&& m["arguments"@] == arguments
            &&& m["reason"@] == text_or_null(reason)
        },
        ActivityView::ToolCallDelta { index, tool_call_id, name, arguments_delta } => {
            &&& m.dom() == set!["type"@, "index"@, "tool_call_id"@, "name"@, "arguments_delta"@]
            &&& m["type"@] == JsonView::Text("ToolCallDelta"@)
            &&& m["index"@] == JsonView::Unsigned(index as u64)
            &&& m["tool_call_id"@] == text_or_null(tool_call_id)
            &&& m["name"@] == text_or_null(name)
            &&& m["arguments_delta"@] == JsonView::Text(arguments_delta)
        },
        ActivityView::ToolOutput { tool_call_id, line } => {
            &&& m.dom() == set!["type"@, "tool_call_id"@, "line"@]
            &&& m["type"@] == JsonView::Text("ToolOutput"@)
            &&& m["tool_call_id"@] == JsonView::Text(tool_call_id)
            &&& m["line"@] == JsonView::Text(line)
        },
        ActivityView::InputRequired { prompt, schema } => {
            &&& m.dom() == set!["type"@, "prompt"@, "schema"@]
            &&& m["type"@] == JsonView::Text("InputRequired"@)
            &&& m["prompt"@] == JsonView::Text(prompt)
            &&& m["schema"@] == value_or_null(schema)
        },
        ActivityView::ToolFinish { tool_call_id, name, is_error, duration_ms, exit_code } => {
            &&& m.dom() == set!["type"@, "tool_call_id"@, "name"@, "is_error"@, "duration_ms"@, "exit_code"@]
            &&& m["type"@] == JsonView::Text("ToolFinish"@)
            &&& m["tool_call_id"@] == JsonView::Text(tool_call_id)
            &&& m["name"@] == JsonView::Text(name)
            &&& m["is_error"@] == JsonView::Bool(is_error)
            &&& m["duration_ms"@] == JsonView::Unsigned(duration_ms as u64)
            &&& m["exit_code"@] == integer_or_null(exit_code)
        },
        ActivityView::ChildSpawned { child_id, placement, task } => {
            &&& m.dom() == set!["type"@, "child_id"@, "placement"@, "task"@]
            &&& m["type"@] == JsonView::Text("ChildSpawned"@)
            &&& m["child_id"@] == JsonView::Text(child_id)
            &&& m["placement"@] == JsonView::Text(placement)
            &&& m["task"@] == JsonView::Text(task)
        },
        ActivityView::ChildActivity { child_id, placement, event } => {
            &&& m.dom() == set!["type"@, "child_id"@, "placement"@, "event"@]
            &&& m["type"@] == JsonView::Text("ChildActivity"@)
            &&& m["child_id"@] == JsonView::Text(child_id)
            &&& m["placement"@] == JsonView::Text(placement)
            &&& m["event"@] == enc_activity(*event)
        },
        ActivityView::ChildFinished { child_id, placement, exit_reason, duration_ms, tool_uses, token_count } => {
            &&& m.dom() == set!["type"@, "child_id"@, "placement"@, "exit_reason"@, "duration_ms"@, "tool_uses"@, "token_count"@]
            &&& m["type"@] == JsonView::Text("ChildFinished"@)
            &&& m["child_id"@] == JsonView::Text(child_id)
            &&& m["placement"@] == JsonView::Text(placement)
            &&& m["exit_reason"@] == JsonView::Text(exit_reason)
            &&& m["duration_ms"@] == JsonView::Unsigned(duration_ms as u64)
            &&& m["tool_uses"@] == JsonView::Unsigned(tool_uses as u64)
            &&& m["token_count"@] == JsonView::Unsigned(token_count as u64)
        },
        ActivityView::TurnComplete => {
            &&& m.dom() == set!["type"@]
            &&& m["type"@] == JsonView::Text("TurnComplete"@)
        },
    }
}

/// The members that an activity is read from. What may be missing may also be null.
pub open spec fn activity_readable(v: ActivityView, m: Map<Seq<char>, JsonView>) -> bool {
    match v {
        ActivityView::Token { text } => {
            &&& m.contains_key("type"@) && m["type"@] == JsonView::Text("Token"@)
            &&& m.contains_key("text"@) && m["text"@] == JsonView::Text(text)
        },
        ActivityView::ThinkStart => {
            &&& m.contains_key("type"@) && m["type"@] == JsonView::Text("ThinkStart"@)
        },
        ActivityView::ThinkDelta { text } => {
            &&& m.contains_key("type"@) && m["type"@] == JsonView::Text("ThinkDelta"@)
            &&& m.contains_key("text"@) && m["text"@] == JsonView::Text(text)
        },
        ActivityView::ThinkEnd { think_duration_ms, think_tokens } => {
            &&& m.contains_key("type"@) && m["type"@] == JsonView::Text("ThinkEnd"@)
            &&& m.contains_key("think_duration_ms"@) && m["think_duration_ms"@] == JsonView::Unsigned(think_duration_ms as u64)
            &&& m.contains_key("think_tokens"@) && m["think_tokens"@] == JsonView::Unsigned(think_tokens as u64)
        },
        ActivityView::ToolStart { tool_call_id, name, arguments } => {
            &&& m.contains_key("type"@) && m["type"@] == JsonView::Text("ToolStart"@)
            &&& m.contains_key("tool_call_id"@) && m["tool_call_id"@] == JsonView::Text(tool_call_id)
            &&& m.contains_key("name"@) && m["name"@] == JsonView::Text(name)
            &&& m.contains_key("arguments"@) && m["arguments"@] == arguments
        },
        ActivityView::ToolApprovalRequired { tool_call_id, name, arguments, reason } => {
            &&& m.contains_key("type"@) && m["type"@] == JsonView::Text("ToolApprovalRequired"@)
            &&& m.contains_key("tool_call_id"@) && m["tool_call_id"@] == JsonView::Text(tool_call_id)
            &&& m.contains_key("name"@) && m["name"@] == JsonView::Text(name)
            &&& m.contains_key("arguments"@) && m["arguments"@] == arguments
            &&& if reason is Some { m.contains_key("reason"@) && m["reason"@] == JsonView::Text(reason->0) } else { !m.contains_key("reason"@) || m["reason"@] is Null }
        },
        ActivityView::ToolCallDelta { index, tool_call_id, name, arguments_delta } => {
            &&& m.contains_key("type"@) && m["type"@] == JsonView::Text("ToolCallDelta"@)
            &&& m.contains_key("index"@) && m["index"@] == JsonView::Unsigned(index as u64)
            &&& if tool_call_id is Some { m.contains_key("tool_call_id"@) && m["tool_call_id"@] == JsonView::Text(tool_call_id->0) } else { !m.contains_key("tool_call_id"@) || m["tool_call_id"@] is Null }
            &&& if name is Some { m.contains_key("name"@) && m["name"@] == JsonView::Text(name->0) } else { !m.contains_key("name"@) || m["name"@] is Null }
            &&& m.contains_key("arguments_delta"@) && m["arguments_delta"@] == JsonView::Text(arguments_delta)
        },
        ActivityView::ToolOutput { tool_call_id, line } => {
            &&& m.contains_key("type"@) && m["type"@] == JsonView::Text("ToolOutput"@)
            &&& m.contains_key("tool_call_id"@) && m["tool_call_id"@] == JsonView::Text(tool_call_id)
            &&& m.contains_key("line"@) && m["line"@] == JsonView::Text(line)
        },
        ActivityView::InputRequired { prompt, schema } => {
            &&& m.contains_key("type"@) && m["type"@] == JsonView::Text("InputRequired"@)
            &&& m.contains_key("prompt"@) && m["prompt"@] == JsonView::Text(prompt)
            &&& if schema is Some { m.contains_key("schema"@) && m["schema"@] == schema->0 && !(schema->0 is Null) } else { !m.contains_key("schema"@) || m["schema"@] is Null }
        },
        ActivityView::ToolFinish { tool_call_id, name, is_error, duration_ms, exit_code } => {
            &&& m.contains_key("type"@) && m["type"@] == JsonView::Text("ToolFinish"@)
            &&& m.contains_key("tool_call_id"@) && m["tool_call_id"@] == JsonView::Text(tool_call_id)
            &&& m.contains_key("name"@) && m["name"@] == JsonView::Text(name)
            &&& m.contains_key("is_error"@) && m["is_error"@] == JsonView::Bool(is_error)
            &&& m.contains_key("duration_ms"@) && m["duration_ms"@] == JsonView::Unsigned(duration_ms as u64)
            &&& if exit_code is Some { m.contains_key("exit_code"@) && m["exit_code"@] == integer(exit_code->0) } else { !m.contains_key("exit_code"@) || m["exit_code"@] is Null }
        },
        ActivityView::ChildSpawned { child_id, placement, task } => {
            &&& m.contains_key("type"@) && m["type"@] == JsonView::Text("ChildSpawned"@)
            &&& m.contains_key("child_id"@) && m["child_id"@] == JsonView::Text(child_id)
            &&& m.contains_key("placement"@) && m["placement"@] == JsonView::Text(placement)
            &&& m.contains_key("task"@) && m["task"@] == JsonView::Text(task)
        },
        ActivityView::ChildActivity { child_id, placement, event } => {
            &&& m.contains_key("type"@) && m["type"@] == JsonView::Text("ChildActivity"@)
            &&& m.contains_key("child_id"@) && m["child_id"@] == JsonView::Text(child_id)
            &&& m.contains_key("placement"@) && m["placement"@] == JsonView::Text(placement)
            &&& m.contains_key("event"@) && dec_activity(m["event"@]) == Some(*event)
        },
        ActivityView::ChildFinished { child_id, placement, exit_reason, duration_ms, tool_uses, token_count } => {
            &&& m.contains_key("type"@) && m["type"@] == JsonView::Text("ChildFinished"@)
            &&& m.contains_key("child_id"@) && m["child_id"@] == JsonView::Text(child_id)
            &&& m.contains_key("placement"@) && m["placement"@] == JsonView::Text(placement)
            &&& m.contains_key("exit_reason"@) && m["exit_reason"@] == JsonView::Text(exit_reason)
            &&& m.contains_key("duration_ms"@) && m["duration_ms"@] == JsonView::Unsigned(duration_ms as u64)
            &&& m.contains_key("tool_uses"@) && m["tool_uses"@] == JsonView::Unsigned(tool_uses as u64)
            &&& m.contains_key("token_count"@) && m["token_count"@] == JsonView::Unsigned(token_count as u64)
        },
        ActivityView::TurnComplete => {
            &&& m.contains_key("type"@) && m["type"@] == JsonView::Text("TurnComplete"@)
        },
    }
}

/// An activity is written as its members and no others.
pub proof fn activities_are_written_by_name(v: ActivityView)
    ensures
        enc_activity(v) matches JsonView::Object(m) && activity_written(v, m),
{
    lemma_activity_tags();
    lemma_activity_fields();
    let m = enc_activity(v)->Object_0;
    match v {
        ActivityView::Token { text } => {
            assert(m.dom() =~= set!["type"@, "text"@]);
        },
        ActivityView::ThinkStart => {
            assert(m.dom() =~= set!["type"@]);
        },
        ActivityView::ThinkDelta { text } => {
            assert(m.dom() =~= set!["type"@, "text"@]);
        },
        ActivityView::ThinkEnd { think_duration_ms, think_tokens } => {
            assert(m.dom() =~= set!["type"@, "think_duration_ms"@, "think_tokens"@]);
        },
        ActivityView::ToolStart { tool_call_id, name, arguments } => {
            assert(m.dom() =~= set!["type"@, "tool_call_id"@, "name"@, "arguments"@]);
        },
        ActivityView::ToolApprovalRequired { tool_call_id, name, arguments, reason } => {
            assert(m.dom() =~= set!["type"@, "tool_call_id"@, "name"@, "arguments"@, "reason"@]);
        },
        ActivityView::ToolCallDelta { index, tool_call_id, name, arguments_delta } => {
            assert(m.dom() =~= set!["type"@, "index"@, "tool_call_id"@, "name"@, "arguments_delta"@]);
        },
        ActivityView::ToolOutput { tool_call_id, line } => {
            assert(m.dom() =~= set!["type"@, "tool_call_id"@, "line"@]);
        },
        ActivityView::InputRequired { prompt, schema } => {
            assert(m.dom() =~= set!["type"@, "prompt"@, "schema"@]);
        },
        ActivityView::ToolFinish { tool_call_id, name, is_error, duration_ms, exit_code } => {
            assert(m.dom() =~= set!["type"@, "tool_call_id"@, "name"@, "is_error"@, "duration_ms"@, "exit_code"@]);
        },
        ActivityView::ChildSpawned { child_id, placement, task } => {
            assert(m.dom() =~= set!["type"@, "child_id"@, "placement"@, "task"@]);
        },
        ActivityView::ChildActivity { child_id, placement, event } => {
            assert(m.dom() =~= set!["type"@, "child_id"@, "placement"@, "event"@]);
        },
        ActivityView::ChildFinished { child_id, placement, exit_reason, duration_ms, tool_uses, token_count } => {
            assert(m.dom() =~= set!["type"@, "child_id"@, "placement"@, "exit_reason"@, "duration_ms"@, "tool_uses"@, "token_count"@]);
        },
        ActivityView::TurnComplete => {
            assert(m.dom() =~= set!["type"@]);
        },
    }
}

/// An activity is read from its members, whatever other members stand beside them.
pub proof fn activities_are_read_by_name(v: ActivityView, m: Map<Seq<char>, JsonView>)
    requires
        activity_readable(v, m),
    ensures
        dec_activity(JsonView::Object(m)) == Some(v),
{
    lemma_activity_tags();
    lemma_activity_fields();
    let json = JsonView::Object(m);
    match v {
        ActivityView::Token { text } => {
            assert(has_tag(json, "Token"@));
        },
        ActivityView::ThinkStart => {
            assert(has_tag(json, "ThinkStart"@));
        },
        ActivityView::ThinkDelta { text } => {
            assert(has_tag(json, "ThinkDelta"@));
        },
        ActivityView::ThinkEnd { think_duration_ms, think_tokens } => {
            assert(has_tag(json, "ThinkEnd"@));
        },
        ActivityView::ToolStart { tool_call_id, name, arguments } => {
            assert(has_tag(json, "ToolStart"@));
        },
        ActivityView::ToolApprovalRequired { tool_call_id, name, arguments, reason } => {
            assert(has_tag(json, "ToolApprovalRequired"@));
        },
        ActivityView::ToolCallDelta { index, tool_call_id, name, arguments_delta } => {
            assert(has_tag(json, "ToolCallDelta"@));
        },
        ActivityView::ToolOutput { tool_call_id, line } => {
            assert(has_tag(json, "ToolOutput"@));
        },
        ActivityView::InputRequired { prompt, schema } => {
            assert(has_tag(json, "InputRequired"@));
        },
        ActivityView::ToolFinish { tool_call_id, name, is_error, duration_ms, exit_code } => {
            assert(has_tag(json, "ToolFinish"@));
        },
        ActivityView::ChildSpawned { child_id, placement, task } => {
            assert(has_tag(json, "ChildSpawned"@));
        },
        ActivityView::ChildActivity { child_id, placement, event } => {
            assert(has_tag(json, "ChildActivity"@));
        },
        ActivityView::ChildFinished { child_id, placement, exit_reason, duration_ms, tool_uses, token_count } => {
            assert(has_tag(json, "ChildFinished"@));
        },
        ActivityView::TurnComplete => {
            assert(has_tag(json, "TurnComplete"@));
        },
    }
}

// ---- Journal entries ---------------------------------------------------------

/// The members that the kind of an entry is written with: its name under `type`, and each of its parts under the
/// name of the part.
pub open spec fn kind_written(v: EntryKindView, m: Map<Seq<char>, JsonView>) -> bool {
    match v {
        EntryKindView::TurnStart => {
            &&& m.dom() == set!["type"@]
            &&& m["type"@] == JsonView::Text("TurnStart"@)
        },
        EntryKindView::LlmRequest { model, message_count } => {
            &&& m.dom() == set!["type"@, "model"@, "message_count"@]
            &&& m["type"@] == JsonView::Text("LlmRequest"@)
            &&& m["model"@] == JsonView::Text(model)
            &&& m["message_count"@] == JsonView::Unsigned(message_count as u64)
        },
        EntryKindView::LlmResponse { model, token_usage, finish_reason, assistant_message } => {
            &&& m.dom() == set!["type"@, "model"@, "token_usage"@, "finish_reason"@, "assistant_message"@]
            &&& m["type"@] == JsonView::Text("LlmResponse"@)
            &&& m["model"@] == JsonView::Text(model)
            &&& m["token_usage"@] == TokenUsage::enc(token_usage)
            &&& m["finish_reason"@] == JsonView::Text(finish_reason)
            &&& m["assistant_message"@] == (match assistant_message { Some(x) => Message::enc(x), None => JsonView::Null })
        },
        EntryKindView::ToolCall { tool_call_id, tool_name, arguments } => {
            &&& m.dom() == set!["type"@, "tool_call_id"@, "tool_name"@, "arguments"@]
            &&& m["type"@] == JsonView::Text("ToolCall"@)
            &&& m["tool_call_id"@] == text_or_null(tool_call_id)
            &&& m["tool_name"@] == JsonView::Text(tool_name)
            &&& m["arguments"@] == arguments
        },
        EntryKindView::ToolResult { tool_call_id, tool_name, content, is_error } => {
            &&& m.dom() == set!["type"@, "tool_call_id"@, "tool_name"@, "content"@, "is_error"@]
            &&& m["type"@] == JsonView::Text("ToolResult"@)
            &&& m["tool_call_id"@] == text_or_null(tool_call_id)
            &&& m["tool_name"@] == JsonView::Text(tool_name)
            &&& m["content"@] == JsonView::Text(content)
            &&& m["is_error"@] == JsonView::Bool(is_error)
        },
        EntryKindView::ShellCommand { command, exit_code } => {
            &&& m.dom() == set!["type"@, "command"@, "exit_code"@]
            &&& m["type"@] == JsonView::Text("ShellCommand"@)
            &&& m["command"@] == JsonView::Text(command)
            &&& m["exit_code"@] == integer(exit_code)
        },
        EntryKindView::CodeExecution { language } => {
            &&& m.dom() == set!["type"@, "language"@]
            &&& m["type"@] == JsonView::Text("CodeExecution"@)
            &&& m["language"@] == JsonView::Text(language)
        },
        EntryKindView::SubAgentSpawned { child_id, placement, backend, task, instructions } => {
            &&& m.dom() == set!["type"@, "child_id"@, "placement"@, "backend"@, "task"@, "instructions"@]
            &&& m["type"@] == JsonView::Text("SubAgentSpawned"@)
            &&& m["child_id"@] == JsonView::Text(child_id)
            &&& m["placement"@] == JsonView::Text(placement)
            &&& m["backend"@] == JsonView::Text(backend)
            &&& m["task"@] == JsonView::Text(task)
            &&& m["instructions"@] == text_or_null(instructions)
        },
        EntryKindView::SubAgentCompleted { child_id, success } => {
            &&& m.dom() == set!["type"@, "child_id"@, "success"@]
            &&& m["type"@] == JsonView::Text("SubAgentCompleted"@)
            &&& m["child_id"@] == JsonView::Text(child_id)
            &&& m["success"@] == JsonView::Bool(success)
        },
        EntryKindView::FileWrite { path, size_bytes } => {
            &&& m.dom() == set!["type"@, "path"@, "size_bytes"@]
            &&& m["type"@] == JsonView::Text("FileWrite"@)
            &&& m["path"@] == JsonView::Text(path)
            &&& m["size_bytes"@] == JsonView::Unsigned(size_bytes as u64)
        },
        EntryKindView::FileDelete { path } => {
            &&& m.dom() == set!["type"@, "path"@]
            &&& m["type"@] == JsonView::Text("FileDelete"@)
            &&& m["path"@] == JsonView::Text(path)
        },
        EntryKindView::FileMove { from, to } => {
            &&& m.dom() == set!["type"@, "from"@, "to"@]
            &&& m["type"@] == JsonView::Text("FileMove"@)
            &&& m["from"@] == JsonView::Text(from)
            &&& m["to"@] == JsonView::Text(to)
        },
        EntryKindView::HttpRequest { method, url, status } => {
            &&& m.dom() == set!["type"@, "method"@, "url"@, "status"@]
            &&& m["type"@] == JsonView::Text("HttpRequest"@)
            &&& m["method"@] == JsonView::Text(method)
            &&& m["url"@] == JsonView::Text(url)
            &&& m["status"@] == JsonView::Unsigned(status as u64)
        },
        EntryKindView::Checkpoint { snapshot_data } => {
            &&& m.dom() == set!["type"@, "snapshot_data"@]
            &&& m["type"@] == JsonView::Text("Checkpoint"@)
            &&& m["snapshot_data"@] == JsonView::Array(snapshot_data.map_values(|b: u8| JsonView::Unsigned(b as u64)))
        },
        EntryKindView::HookDenial { hook_name, operation, reason } => {
            &&& m.dom() == set!["type"@, "hook_name"@, "operation"@, "reason"@]
            &&& m["type"@] == JsonView::Text("HookDenial"@)
            &&& m["hook_name"@] == JsonView::Text(hook_name)
            &&& m["operation"@] == JsonView::Text(operation)
            &&& m["reason"@] == JsonView::Text(reason)
        },
        EntryKindView::HookKill { hook_name, operation, reason } => {
            &&& m.dom() == set!["type"@, "hook_name"@, "operation"@, "reason"@]
            &&& m["type"@] == JsonView::Text("HookKill"@)
            &&& m["hook_name"@] == JsonView::Text(hook_name)
            &&& m["operation"@] == JsonView::Text(operation)
            &&& m["reason"@] == JsonView::Text(reason)
        },
    }
}

/// The members that the kind of an entry is read from. What may be missing may also be null.
pub open spec fn kind_readable(v: EntryKindView, m: Map<Seq<char>, JsonView>) -> bool {
    match v {
        EntryKindView::TurnStart => {
            &&& m.contains_key("type"@) && m["type"@] == JsonView::Text("TurnStart"@)
        },
        EntryKindView::LlmRequest { model, message_count } => {
            &&& m.contains_key("type"@) && m["type"@] == JsonView::Text("LlmRequest"@)
            &&& m.contains_key("model"@) && m["model"@] == JsonView::Text(model)
            &&& m.contains_key("message_count"@) && m["message_count"@] == JsonView::Unsigned(message_count as u64)
        },
        EntryKindView::LlmResponse { model, token_usage, finish_reason, assistant_message } => {
            &&& m.contains_key("type"@) && m["type"@] == JsonView::Text("LlmResponse"@)
            &&& m.contains_key("model"@) && m["model"@] == JsonView::Text(model)
            &&& m.contains_key("token_usage"@) && TokenUsage::dec(m["token_usage"@]) == Some(token_usage)
            &&& m.contains_key("finish_reason"@) && m["finish_reason"@] == JsonView::Text(finish_reason)
            &&& if assistant_message is Some { m.contains_key("assistant_message"@) && Message::dec(m["assistant_message"@]) == assistant_message && !(m["assistant_message"@] is Null) } else { !m.contains_key("assistant_message"@) || m["assistant_message"@] is Null }
        },
        EntryKindView::ToolCall { tool_call_id, tool_name, arguments } => {
            &&& m.contains_key("type"@) && m["type"@] == JsonView::Text("ToolCall"@)
            &&& if tool_call_id is Some { m.contains_key("tool_call_id"@) && m["tool_call_id"@] == JsonView::Text(tool_call_id->0) } else { !m.contains_key("tool_call_id"@) || m["tool_call_id"@] is Null }
            &&& m.contains_key("tool_name"@) && m["tool_name"@] == JsonView::Text(tool_name)
            &&& m.contains_key("arguments"@) && m["arguments"@] == arguments
        },
        EntryKindView::ToolResult { tool_call_id, tool_name, content, is_error } => {
            &&& m.contains_key("type"@) && m["type"@] == JsonView::Text("ToolResult"@)
            &&& if tool_call_id is Some { m.contains_key("tool_call_id"@) && m["tool_call_id"@] == JsonView::Text(tool_call_id->0) } else { !m.contains_key("tool_call_id"@) || m["tool_call_id"@] is Null }
            &&& m.contains_key("tool_name"@) && m["tool_name"@] == JsonView::Text(tool_name)
            &&& m.contains_key("content"@) && m["content"@] == JsonView::Text(content)
            &&& m.contains_key("is_error"@) && m["is_error"@] == JsonView::Bool(is_error)
        },
        EntryKindView::ShellCommand { command, exit_code } => {
            &&& m.contains_key("type"@) && m["type"@] == JsonView::Text("ShellCommand"@)
            &&& m.contains_key("command"@) && m["command"@] == JsonView::Text(command)
            &&& m.contains_key("exit_code"@) && m["exit_code"@] == integer(exit_code)
        },
        EntryKindView::CodeExecution { language } => {
            &&& m.contains_key("type"@) && m["type"@] == JsonView::Text("CodeExecution"@)
            &&& m.contains_key("language"@) && m["language"@] == JsonView::Text(language)
        },
        EntryKindView::SubAgentSpawned { child_id, placement, backend, task, instructions } => {
            &&& m.contains_key("type"@) && m["type"@] == JsonView::Text("SubAgentSpawned"@)
            &&& m.contains_key("child_id"@) && m["child_id"@] == JsonView::Text(child_id)
            &&& m.contains_key("placement"@) && m["placement"@] == JsonView::Text(placement)
            &&& m.contains_key("backend"@) && m["backend"@] == JsonView::Text(backend)
            &&& m.contains_key("task"@) && m["task"@] == JsonView::Text(task)
            &&& if instructions is Some { m.contains_key("instructions"@) && m["instructions"@] == JsonView::Text(instructions->0) } else { !m.contains_key("instructions"@) || m["instructions"@] is Null }
            &&& forall|k: Seq<char>| #[trigger] m.contains_key(k) ==> k == "type"@ || k == "child_id"@ || k == "placement"@ || k == "backend"@ || k == "task"@ || k == "instructions"@
        },
        EntryKindView::SubAgentCompleted { child_id, success } => {
            &&& m.contains_key("type"@) && m["type"@] == JsonView::Text("SubAgentCompleted"@)
            &&& m.contains_key("child_id"@) && m["child_id"@] == JsonView::Text(child_id)
            &&& m.contains_key("success"@) && m["success"@] == JsonView::Bool(success)
        },
        EntryKindView::FileWrite { path, size_bytes } => {
            &&& m.contains_key("type"@) && m["type"@] == JsonView::Text("FileWrite"@)
            &&& m.contains_key("path"@) && m["path"@] == JsonView::Text(path)
            &&& m.contains_key("size_bytes"@) && m["size_bytes"@] == JsonView::Unsigned(size_bytes as u64)
        },
        EntryKindView::FileDelete { path } => {
            &&& m.contains_key("type"@) && m["type"@] == JsonView::Text("FileDelete"@)
            &&& m.contains_key("path"@) && m["path"@] == JsonView::Text(path)
        },
        EntryKindView::FileMove { from, to } => {
            &&& m.contains_key("type"@) && m["type"@] == JsonView::Text("FileMove"@)
            &&& m.contains_key("from"@) && m["from"@] == JsonView::Text(from)
            &&& m.contains_key("to"@) && m["to"@] == JsonView::Text(to)
        },
        EntryKindView::HttpRequest { method, url, status } => {
            &&& m.contains_key("type"@) && m["type"@] == JsonView::Text("HttpRequest"@)
            &&& m.contains_key("method"@) && m["method"@] == JsonView::Text(method)
            &&& m.contains_key("url"@) && m["url"@] == JsonView::Text(url)
            &&& m.contains_key("status"@) && m["status"@] == JsonView::Unsigned(status as u64)
        },
        EntryKindView::Checkpoint { snapshot_data } => {
            &&& m.contains_key("type"@) && m["type"@] == JsonView::Text("Checkpoint"@)
            &&& m.contains_key("snapshot_data"@) && m["snapshot_data"@] == JsonView::Array(snapshot_data.map_values(|b: u8| JsonView::Unsigned(b as u64)))
        },
        EntryKindView::HookDenial { hook_name, operation, reason } => {
            &&& m.contains_key("type"@) && m["type"@] == JsonView::Text("HookDenial"@)
            &&& m.contains_key("hook_name"@) && m["hook_name"@] == JsonView::Text(hook_name)
            &&& m.contains_key("operation"@) && m["operation"@] == JsonView::Text(operation)
            &&& m.contains_key("reason"@) && m["reason"@] == JsonView::Text(reason)
        },
        EntryKindView::HookKill { hook_name, operation, reason } => {
            &&& m.contains_key("type"@) && m["type"@] == JsonView::Text("HookKill"@)
            &&& m.contains_key("hook_name"@) && m["hook_name"@] == JsonView::Text(hook_name)
            &&& m.contains_key("operation"@) && m["operation"@] == JsonView::Text(operation)
            &&& m.contains_key("reason"@) && m["reason"@] == JsonView::Text(reason)
        },
    }
}

/// The kind of an entry is written as its members and no others.
pub proof fn entry_kinds_are_written_by_name(v: EntryKindView)
    ensures
        enc_kind(v) matches JsonView::Object(m) && kind_written(v, m),
{
    lemma_kind_tags();
    lemma_kind_fields();
    let m = enc_kind(v)->Object_0;
    match v {
        EntryKindView::TurnStart => {
            assert(m.dom() =~= set!["type"@]);
        },
        EntryKindView::LlmRequest { model, message_count } => {
            assert(m.dom() =~= set!["type"@, "model"@, "message_count"@]);
        },
        EntryKindView::LlmResponse { model, token_usage, finish_reason, assistant_message } => {
            assert(m.dom() =~= set!["type"@, "model"@, "token_usage"@, "finish_reason"@, "assistant_message"@]);
        },
        EntryKindView::ToolCall { tool_call_id, tool_name, arguments } => {
            assert(m.dom() =~= set!["type"@, "tool_call_id"@, "tool_name"@, "arguments"@]);
        },
        EntryKindView::ToolResult { tool_call_id, tool_name, content, is_error } => {
            assert(m.dom() =~= set!["type"@, "tool_call_id"@, "tool_name"@, "content"@, "is_error"@]);
        },
        EntryKindView::ShellCommand { command, exit_code } => {
            assert(m.dom() =~= set!["type"@, "command"@, "exit_code"@]);
        },
        EntryKindView::CodeExecution { language } => {
            assert(m.dom() =~= set!["type"@, "language"@]);
        },
        EntryKindView::SubAgentSpawned { child_id, placement, backend, task, instructions } => {
            assert(m.dom() =~= set!["type"@, "child_id"@, "placement"@, "backend"@, "task"@, "instructions"@]);
        },
        EntryKindView::SubAgentCompleted { child_id, success } => {
            assert(m.dom() =~= set!["type"@, "child_id"@, "success"@]);
        },
        EntryKindView::FileWrite { path, size_bytes } => {
            assert(m.dom() =~= set!["type"@, "path"@, "size_bytes"@]);
        },
        EntryKindView::FileDelete { path } => {
            assert(m.dom() =~= set!["type"@, "path"@]);
        },
        EntryKindView::FileMove { from, to } => {
            assert(m.dom() =~= set!["type"@, "from"@, "to"@]);
        },
        EntryKindView::HttpRequest { method, url, status } => {
            assert(m.dom() =~= set!["type"@, "method"@, "url"@, "status"@]);
        },
        EntryKindView::Checkpoint { snapshot_data } => {
            assert(m.dom() =~= set!["type"@, "snapshot_data"@]);
            assert(m["snapshot_data"@]->Array_0 =~= snapshot_data.map_values(|b: u8| JsonView::Unsigned(b as u64)));
        },
        EntryKindView::HookDenial { hook_name, operation, reason } => {
            assert(m.dom() =~= set!["type"@, "hook_name"@, "operation"@, "reason"@]);
        },
        EntryKindView::HookKill { hook_name, operation, reason } => {
            assert(m.dom() =~= set!["type"@, "hook_name"@, "operation"@, "reason"@]);
        },
    }
}

/// The kind of an entry is read from its members, whatever other members stand beside them; only a spawned agent may have no others.
pub proof fn entry_kinds_are_read_by_name(v: EntryKindView, m: Map<Seq<char>, JsonView>)
    requires
        kind_readable(v, m),
    ensures
        dec_kind(JsonView::Object(m)) == Some(v),
{
    lemma_kind_tags();
    lemma_kind_fields();
    let json = JsonView::Object(m);
    match v {
        EntryKindView::TurnStart => {
            assert(has_tag(json, "TurnStart"@));
        },
        EntryKindView::LlmRequest { model, message_count } => {
            assert(has_tag(json, "LlmRequest"@));
        },
        EntryKindView::LlmResponse { model, token_usage, finish_reason, assistant_message } => {
            assert(has_tag(json, "LlmResponse"@));
        },
        EntryKindView::ToolCall { tool_call_id, tool_name, arguments } => {
            assert(has_tag(json, "ToolCall"@));
        },
        EntryKindView::ToolResult { tool_call_id, tool_name, content, is_error } => {
            assert(has_tag(json, "ToolResult"@));
        },
        EntryKindView::ShellCommand { command, exit_code } => {
            assert(has_tag(json, "ShellCommand"@));
        },
        EntryKindView::CodeExecution { language } => {
            assert(has_tag(json, "CodeExecution"@));
        },
        EntryKindView::SubAgentSpawned { child_id, placement, backend, task, instructions } => {
            assert(has_tag(json, "SubAgentSpawned"@));
        },
        EntryKindView::SubAgentCompleted { child_id, success } => {
            assert(has_tag(json, "SubAgentCompleted"@));
        },
        EntryKindView::FileWrite { path, size_bytes } => {
            assert(has_tag(json, "FileWrite"@));
        },
        EntryKindView::FileDelete { path } => {
            assert(has_tag(json, "FileDelete"@));
        },
        EntryKindView::FileMove { from, to } => {
            assert(has_tag(json, "FileMove"@));
        },
        EntryKindView::HttpRequest { method, url, status } => {
            assert(has_tag(json, "HttpRequest"@));
        },
        EntryKindView::Checkpoint { snapshot_data } => {
            assert(has_tag(json, "Checkpoint"@));
            crate::coding::list_round_trip::<u8>(snapshot_data);
            assert(enc_list::<u8>(snapshot_data)->Array_0 =~= snapshot_data.map_values(|b: u8| JsonView::Unsigned(b as u64)));
        },
        EntryKindView::HookDenial { hook_name, operation, reason } => {
            assert(has_tag(json, "HookDenial"@));
        },
        EntryKindView::HookKill { hook_name, operation, reason } => {
            assert(has_tag(json, "HookKill"@));
        },
    }
}

/// An entry is written with its version, its agent, its time and its kind, and read from them.
pub proof fn entries_are_written_and_read_by_name(v: EntryView, m: Map<Seq<char>, JsonView>)
    ensures
        JournalEntry::enc(v) matches JsonView::Object(w) && {
            &&& w.dom() == set!["schema_version"@, "agent_id"@, "timestamp_ms"@, "entry"@]
            &&& w["schema_version"@] == JsonView::Unsigned(v.schema_version as u64)
            &&& w["agent_id"@] == JsonView::Text(v.agent_id)
            &&& w["timestamp_ms"@] == JsonView::Unsigned(v.timestamp_ms)
            &&& w["entry"@] == enc_kind(v.entry)
        },
        m.contains_key("schema_version"@) && m["schema_version"@] == JsonView::Unsigned(v.schema_version as u64) && m.contains_key(
            "agent_id"@,
        ) && m["agent_id"@] == JsonView::Text(v.agent_id) && m.contains_key("timestamp_ms"@) && m["timestamp_ms"@]
            == JsonView::Unsigned(v.timestamp_ms) && m.contains_key("entry"@) && dec_kind(m["entry"@]) == Some(v.entry)
            ==> JournalEntry::dec(JsonView::Object(m)) == Some(v),
        !(m.contains_key("schema_version"@) && m.contains_key("agent_id"@) && m.contains_key("timestamp_ms"@) && m.contains_key("entry"@))
            ==> JournalEntry::dec(JsonView::Object(m)) is None,
{
    lemma_entry_fields();
    let w = JournalEntry::enc(v)->Object_0;
    assert(w.dom() =~= set!["schema_version"@, "agent_id"@, "timestamp_ms"@, "entry"@]);
}

} // verus!
