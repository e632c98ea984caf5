//! The journal of an agent: append-only, schema-versioned entries.
use crate::coding::{enc_list, enc_optional, has_only, has_tag, list_field, list_round_trip, list_to_json, mark, only, optional, optional_field, optional_to_json, required, required_field, required_list, tagged, view_of, views, Coded};
use crate::json::{member, put, Json, JsonView};
use crate::record::{as_record, as_variant, find_list_fault, find_object_fault, find_optional_fault, find_required_fault, find_stranger_fault, find_tag_fault, first, first_stranger, leading_text, lemma_item_fault, list_fault, list_tag, object_fault, optional_fault, record_of, required_fault, said, shape_view, stranger_fault, tag_fault, tell, variant_of};
use crate::text::{concat, copy, decimal, number, opt_text, texts};
use crate::types::budget::ResourceBudget;
use crate::types::message::{AgentId, Message, MessageView, TokenUsage};
use vstd::prelude::*;
use vstd::string::*;

verus! {

broadcast use vstd::seq_lib::group_seq_properties;

/// Schema version for journal entries. Increments when the entries change.
pub const JOURNAL_SCHEMA_VERSION: u32 = 3;

/// Full-state snapshot taken at a checkpoint.
#[derive(Debug, Clone)]
pub struct CheckpointData {
    pub messages: Vec<Message>,
    pub budget_snapshot: ResourceBudget,
    pub vfs_snapshot: Option<Vec<u8>>,
}

// ---- Clocks ------------------------------------------------------------------

/// Injectable clock for deterministic replay.
pub trait Clock {
    /// Milliseconds since the start of 1970.
    fn now_ms(&self) -> (r: u64);
}

/// Real wall-clock implementation.
#[derive(Debug, Clone, Copy)]
pub struct SystemClock;

/// `std::time::SystemTime::now` as the time since the Unix epoch in milliseconds, where the
/// clock does not stand before it. Nothing is claimed of the time.
#[verifier::external_body]
fn since_epoch() -> (ms: Option<u128>) {
    std::time::SystemTime::now().duration_since(std::time::UNIX_EPOCH).ok().map(|d| d.as_millis())
}

/// A time since the Unix epoch as a timestamp: its lower sixty-four bits, and 0 for a clock
/// that stands before the epoch.
pub fn timestamp_of(since_epoch: Option<u128>) -> (r: u64)
    ensures
        r == match since_epoch {
            Some(ms) => ms as u64,
            None => 0u64,
        },
{
    match since_epoch {
        Some(ms) => #[verifier::truncate] (ms as u64),
        None => 0,
    }
}

impl Clock for SystemClock {
    fn now_ms(&self) -> (r: u64) {
        timestamp_of(since_epoch())
    }
}

// ---- Entries -----------------------------------------------------------------

/// The kind of journal entry.
#[derive(Debug, Clone)]
pub enum JournalEntryKind {
    /// A turn starts.
    TurnStart,
    /// A request to a model.
    LlmRequest { model: String, message_count: usize },
    /// The response of a model, with the full assistant message for replay.
    LlmResponse {
        model: String,
        token_usage: TokenUsage,
        finish_reason: String,
        assistant_message: Option<Message>,
    },
    /// A tool call. The id is missing in older journals and in synthetic entries.
    ToolCall { tool_call_id: Option<String>, tool_name: String, arguments: Json },
    /// What a tool gave back. Nested side effects leave the id unset.
    ToolResult { tool_call_id: Option<String>, tool_name: String, content: String, is_error: bool },
    /// A shell command.
    ShellCommand { command: String, exit_code: i32 },
    /// Code that was run.
    CodeExecution { language: String },
    /// A child agent, with its exact effective values.
    SubAgentSpawned {
        child_id: AgentId,
        placement: String,
        backend: String,
        task: String,
        instructions: Option<String>,
    },
    /// A child agent is done.
    SubAgentCompleted { child_id: AgentId, success: bool },
    /// A file was written.
    FileWrite { path: String, size_bytes: u64 },
    /// A file was deleted.
    FileDelete { path: String },
    /// A file was moved.
    FileMove { from: String, to: String },
    /// A request over the network.
    HttpRequest { method: String, url: String, status: u16 },
    /// A snapshot.
    Checkpoint { snapshot_data: Vec<u8> },
    /// A hook denied an operation.
    HookDenial { hook_name: String, operation: String, reason: String },
    /// A hook stopped the agent.
    HookKill { hook_name: String, operation: String, reason: String },
}

/// What a [`JournalEntryKind`] says.
pub enum EntryKindView {
    TurnStart,
    LlmRequest { model: Seq<char>, message_count: usize },
    LlmResponse {
        model: Seq<char>,
        token_usage: TokenUsage,
        finish_reason: Seq<char>,
        assistant_message: Option<MessageView>,
    },
    ToolCall { tool_call_id: Option<Seq<char>>, tool_name: Seq<char>, arguments: JsonView },
    ToolResult { tool_call_id: Option<Seq<char>>, tool_name: Seq<char>, content: Seq<char>, is_error: bool },
    ShellCommand { command: Seq<char>, exit_code: i32 },
    CodeExecution { language: Seq<char> },
    SubAgentSpawned {
        child_id: Seq<char>,
        placement: Seq<char>,
        backend: Seq<char>,
        task: Seq<char>,
        instructions: Option<Seq<char>>,
    },
    SubAgentCompleted { child_id: Seq<char>, success: bool },
    FileWrite { path: Seq<char>, size_bytes: u64 },
    FileDelete { path: Seq<char> },
    FileMove { from: Seq<char>, to: Seq<char> },
    HttpRequest { method: Seq<char>, url: Seq<char>, status: u16 },
    Checkpoint { snapshot_data: Seq<u8> },
    HookDenial { hook_name: Seq<char>, operation: Seq<char>, reason: Seq<char> },
    HookKill { hook_name: Seq<char>, operation: Seq<char>, reason: Seq<char> },
}

impl View for JournalEntryKind {
    type V = EntryKindView;

    open spec fn view(&self) -> EntryKindView {
        match self {
            JournalEntryKind::TurnStart => EntryKindView::TurnStart,
            JournalEntryKind::LlmRequest { model, message_count } => EntryKindView::LlmRequest { model: model@, message_count: message_count@ },
            JournalEntryKind::LlmResponse {
                model,
                token_usage,
                finish_reason,
                assistant_message,
            } => EntryKindView::LlmResponse {
                model: model@,
                token_usage: token_usage@,
                finish_reason: finish_reason@,
                assistant_message: view_of(*assistant_message),
            },
            JournalEntryKind::ToolCall { tool_call_id, tool_name, arguments } => EntryKindView::ToolCall {
                tool_call_id: view_of(*tool_call_id),
                tool_name: tool_name@,
                arguments: arguments@,
            },
            JournalEntryKind::ToolResult { tool_call_id, tool_name, content, is_error } => EntryKindView::ToolResult {
                tool_call_id: view_of(*tool_call_id),
                tool_name: tool_name@,
                content: content@,
                is_error: is_error@,
            },
            JournalEntryKind::ShellCommand { command, exit_code } => EntryKindView::ShellCommand { command: command@, exit_code: exit_code@ },
            JournalEntryKind::CodeExecution { language } => EntryKindView::CodeExecution { language: language@ },
            JournalEntryKind::SubAgentSpawned { child_id, placement, backend, task, instructions } => EntryKindView::SubAgentSpawned {
                child_id: child_id@,
                placement: placement@,
                backend: backend@,
                task: task@,
                instructions: view_of(*instructions),
            },
            JournalEntryKind::SubAgentCompleted { child_id, success } => EntryKindView::SubAgentCompleted { child_id: child_id@, success: success@ },
            JournalEntryKind::FileWrite { path, size_bytes } => EntryKindView::FileWrite { path: path@, size_bytes: size_bytes@ },
            JournalEntryKind::FileDelete { path } => EntryKindView::FileDelete { path: path@ },
            JournalEntryKind::FileMove { from, to } => EntryKindView::FileMove { from: from@, to: to@ },
            JournalEntryKind::HttpRequest { method, url, status } => EntryKindView::HttpRequest { method: method@, url: url@, status: status@ },
            JournalEntryKind::Checkpoint { snapshot_data } => EntryKindView::Checkpoint { snapshot_data: views(snapshot_data@) },
            JournalEntryKind::HookDenial { hook_name, operation, reason } => EntryKindView::HookDenial {
                hook_name: hook_name@,
                operation: operation@,
                reason: reason@,
            },
            JournalEntryKind::HookKill { hook_name, operation, reason } => EntryKindView::HookKill {
                hook_name: hook_name@,
                operation: operation@,
                reason: reason@,
            },
        }
    }
}

/// The JSON of an entry kind.
pub open spec fn enc_kind(v: EntryKindView) -> JsonView
{
    match v {
        EntryKindView::TurnStart => JsonView::Object(tagged("TurnStart"@)),
        EntryKindView::LlmRequest { model, message_count } => JsonView::Object(
            tagged("LlmRequest"@)
                .insert("model"@, String::enc(model))
                .insert("message_count"@, usize::enc(message_count)),
        ),
        EntryKindView::LlmResponse {
            model,
            token_usage,
            finish_reason,
            assistant_message,
        } => JsonView::Object(
            tagged("LlmResponse"@)
                .insert("model"@, String::enc(model))
                .insert("token_usage"@, TokenUsage::enc(token_usage))
                .insert("finish_reason"@, String::enc(finish_reason))
                .insert("assistant_message"@, enc_optional::<Message>(assistant_message)),
        ),
        EntryKindView::ToolCall { tool_call_id, tool_name, arguments } => JsonView::Object(
            tagged("ToolCall"@)
                .insert("tool_call_id"@, enc_optional::<String>(tool_call_id))
                .insert("tool_name"@, String::enc(tool_name))
                .insert("arguments"@, Json::enc(arguments)),
        ),
        EntryKindView::ToolResult { tool_call_id, tool_name, content, is_error } => JsonView::Object(
            tagged("ToolResult"@)
                .insert("tool_call_id"@, enc_optional::<String>(tool_call_id))
                .insert("tool_name"@, String::enc(tool_name))
                .insert("content"@, String::enc(content))
                .insert("is_error"@, bool::enc(is_error)),
        ),
        EntryKindView::ShellCommand { command, exit_code } => JsonView::Object(
            tagged("ShellCommand"@)
                .insert("command"@, String::enc(command))
                .insert("exit_code"@, i32::enc(exit_code)),
        ),
        EntryKindView::CodeExecution { language } => JsonView::Object(
            tagged("CodeExecution"@).insert("language"@, String::enc(language)),
        ),
        EntryKindView::SubAgentSpawned { child_id, placement, backend, task, instructions } => JsonView::Object(
            tagged("SubAgentSpawned"@)
                .insert("child_id"@, AgentId::enc(child_id))
                .insert("placement"@, String::enc(placement))
                .insert("backend"@, String::enc(backend))
                .insert("task"@, String::enc(task))
                .insert("instructions"@, enc_optional::<String>(instructions)),
        ),
        EntryKindView::SubAgentCompleted { child_id, success } => JsonView::Object(
            tagged("SubAgentCompleted"@)
                .insert("child_id"@, AgentId::enc(child_id))
                .insert("success"@, bool::enc(success)),
        ),
        EntryKindView::FileWrite { path, size_bytes } => JsonView::Object(
            tagged("FileWrite"@).insert("path"@, String::enc(path)).insert("size_bytes"@, u64::enc(size_bytes)),
        ),
        EntryKindView::FileDelete { path } => JsonView::Object(tagged("FileDelete"@).insert("path"@, String::enc(path))),
        EntryKindView::FileMove { from, to } => JsonView::Object(
            tagged("FileMove"@).insert("from"@, String::enc(from)).insert("to"@, String::enc(to)),
        ),
        EntryKindView::HttpRequest { method, url, status } => JsonView::Object(
            tagged("HttpRequest"@)
                .insert("method"@, String::enc(method))
                .insert("url"@, String::enc(url))
                .insert("status"@, u16::enc(status)),
        ),
        EntryKindView::Checkpoint { snapshot_data } => JsonView::Object(
            tagged("Checkpoint"@).insert("snapshot_data"@, enc_list::<u8>(snapshot_data)),
        ),
        EntryKindView::HookDenial { hook_name, operation, reason } => JsonView::Object(
            tagged("HookDenial"@)
                .insert("hook_name"@, String::enc(hook_name))
                .insert("operation"@, String::enc(operation))
                .insert("reason"@, String::enc(reason)),
        ),
        EntryKindView::HookKill { hook_name, operation, reason } => JsonView::Object(
            tagged("HookKill"@)
                .insert("hook_name"@, String::enc(hook_name))
                .insert("operation"@, String::enc(operation))
                .insert("reason"@, String::enc(reason)),
        ),
    }
}

/// The members that a `SubAgentSpawned` may have.
pub open spec fn sub_agent_spawned_members() -> Seq<Seq<char>> {
    seq!["type"@, "child_id"@, "placement"@, "backend"@, "task"@, "instructions"@]
}

/// What the members of an object say of an entry kind, where they say something.
pub open spec fn kind_value(json: JsonView) -> Option<EntryKindView>
{
    if has_tag(json, "TurnStart"@) {
        Some(EntryKindView::TurnStart)
    } else if has_tag(json, "LlmRequest"@) {
        match (
            required::<String>(member(json, "model"@)),
            required::<usize>(member(json, "message_count"@)),
        ) {
            (Some(model), Some(message_count)) => Some(EntryKindView::LlmRequest { model, message_count }),
            _ => None,
        }
    } else if has_tag(json, "LlmResponse"@) {
        match (
            required::<String>(member(json, "model"@)),
            required::<TokenUsage>(member(json, "token_usage"@)),
            required::<String>(member(json, "finish_reason"@)),
            optional::<Message>(member(json, "assistant_message"@)),
        ) {
            (
                Some(model),
                Some(token_usage),
                Some(finish_reason),
                Some(assistant_message),
            ) => Some(EntryKindView::LlmResponse { model, token_usage, finish_reason, assistant_message }),
            _ => None,
        }
    } else if has_tag(json, "ToolCall"@) {
        match (
            optional::<String>(member(json, "tool_call_id"@)),
            required::<String>(member(json, "tool_name"@)),
            required::<Json>(member(json, "arguments"@)),
        ) {
            (
                Some(tool_call_id),
                Some(tool_name),
                Some(arguments),
            ) => Some(EntryKindView::ToolCall { tool_call_id, tool_name, arguments }),
            _ => None,
        }
    } else if has_tag(json, "ToolResult"@) {
        match (
            optional::<String>(member(json, "tool_call_id"@)),
            required::<String>(member(json, "tool_name"@)),
            required::<String>(member(json, "content"@)),
            required::<bool>(member(json, "is_error"@)),
        ) {
            (
                Some(tool_call_id),
                Some(tool_name),
                Some(content),
                Some(is_error),
            ) => Some(EntryKindView::ToolResult { tool_call_id, tool_name, content, is_error }),
            _ => None,
        }
    } else if has_tag(json, "ShellCommand"@) {
        match (
            required::<String>(member(json, "command"@)),
            required::<i32>(member(json, "exit_code"@)),
        ) {
            (Some(command), Some(exit_code)) => Some(EntryKindView::ShellCommand { command, exit_code }),
            _ => None,
        }
    } else if has_tag(json, "CodeExecution"@) {
        match required::<String>(member(json, "language"@)) {
            Some(language) => Some(EntryKindView::CodeExecution { language }),
            None => None,
        }
    } else if has_tag(json, "SubAgentSpawned"@) && only(json, sub_agent_spawned_members()) {
        match (
            required::<AgentId>(member(json, "child_id"@)),
            required::<String>(member(json, "placement"@)),
            required::<String>(member(json, "backend"@)),
            required::<String>(member(json, "task"@)),
            optional::<String>(member(json, "instructions"@)),
        ) {
            (
                Some(child_id),
                Some(placement),
                Some(backend),
                Some(task),
                Some(instructions),
            ) => Some(EntryKindView::SubAgentSpawned { child_id, placement, backend, task, instructions }),
            _ => None,
        }
    } else if has_tag(json, "SubAgentCompleted"@) {
        match (
            required::<AgentId>(member(json, "child_id"@)),
            required::<bool>(member(json, "success"@)),
        ) {
            (Some(child_id), Some(success)) => Some(EntryKindView::SubAgentCompleted { child_id, success }),
            _ => None,
        }
    } else if has_tag(json, "FileWrite"@) {
        match (
            required::<String>(member(json, "path"@)),
            required::<u64>(member(json, "size_bytes"@)),
        ) {
            (Some(path), Some(size_bytes)) => Some(EntryKindView::FileWrite { path, size_bytes }),
            _ => None,
        }
    } else if has_tag(json, "FileDelete"@) {
        match required::<String>(member(json, "path"@)) {
            Some(path) => Some(EntryKindView::FileDelete { path }),
            None => None,
        }
    } else if has_tag(json, "FileMove"@) {
        match (
            required::<String>(member(json, "from"@)),
            required::<String>(member(json, "to"@)),
        ) {
            (Some(from), Some(to)) => Some(EntryKindView::FileMove { from, to }),
            _ => None,
        }
    } else if has_tag(json, "HttpRequest"@) {
        match (
            required::<String>(member(json, "method"@)),
            required::<String>(member(json, "url"@)),
            required::<u16>(member(json, "status"@)),
        ) {
            (Some(method), Some(url), Some(status)) => Some(EntryKindView::HttpRequest { method, url, status }),
            _ => None,
        }
    } else if has_tag(json, "Checkpoint"@) {
        match required_list::<u8>(member(json, "snapshot_data"@)) {
            Some(snapshot_data) => Some(EntryKindView::Checkpoint { snapshot_data }),
            None => None,
        }
    } else if has_tag(json, "HookDenial"@) {
        match (
            required::<String>(member(json, "hook_name"@)),
            required::<String>(member(json, "operation"@)),
            required::<String>(member(json, "reason"@)),
        ) {
            (Some(hook_name), Some(operation), Some(reason)) => Some(EntryKindView::HookDenial { hook_name, operation, reason }),
            _ => None,
        }
    } else if has_tag(json, "HookKill"@) {
        match (
            required::<String>(member(json, "hook_name"@)),
            required::<String>(member(json, "operation"@)),
            required::<String>(member(json, "reason"@)),
        ) {
            (Some(hook_name), Some(operation), Some(reason)) => Some(EntryKindView::HookKill { hook_name, operation, reason }),
            _ => None,
        }
    } else {
        None
    }
}

/// The members of each variant of a journal entry, the tag first.
pub open spec fn kind_shape(tag: Seq<char>) -> Option<(Seq<Seq<char>>, nat)> {
    if tag == "TurnStart"@ {
        Some((seq!["type"@], 1))
    } else if tag == "LlmRequest"@ {
        Some((seq!["type"@, "model"@, "message_count"@], 3))
    } else if tag == "LlmResponse"@ {
        Some((seq!["type"@, "model"@, "token_usage"@, "finish_reason"@, "assistant_message"@], 4))
    } else if tag == "ToolCall"@ {
        Some((seq!["type"@, "tool_call_id"@, "tool_name"@, "arguments"@], 4))
    } else if tag == "ToolResult"@ {
        Some((seq!["type"@, "tool_call_id"@, "tool_name"@, "content"@, "is_error"@], 5))
    } else if tag == "ShellCommand"@ {
        Some((seq!["type"@, "command"@, "exit_code"@], 3))
    } else if tag == "CodeExecution"@ {
        Some((seq!["type"@, "language"@], 2))
    } else if tag == "SubAgentSpawned"@ {
        Some((seq!["type"@, "child_id"@, "placement"@, "backend"@, "task"@, "instructions"@], 5))
    } else if tag == "SubAgentCompleted"@ {
        Some((seq!["type"@, "child_id"@, "success"@], 3))
    } else if tag == "FileWrite"@ {
        Some((seq!["type"@, "path"@, "size_bytes"@], 3))
    } else if tag == "FileDelete"@ {
        Some((seq!["type"@, "path"@], 2))
    } else if tag == "FileMove"@ {
        Some((seq!["type"@, "from"@, "to"@], 3))
    } else if tag == "HttpRequest"@ {
        Some((seq!["type"@, "method"@, "url"@, "status"@], 4))
    } else if tag == "Checkpoint"@ {
        Some((seq!["type"@, "snapshot_data"@], 2))
    } else if tag == "HookDenial"@ {
        Some((seq!["type"@, "hook_name"@, "operation"@, "reason"@], 4))
    } else if tag == "HookKill"@ {
        Some((seq!["type"@, "hook_name"@, "operation"@, "reason"@], 4))
    } else {
        None
    }
}

/// The object that stands for a journal entry, which may be written as the list of a tag and of the
/// values of the variant's members.
pub open spec fn kind_record(json: JsonView) -> JsonView {
    match leading_text(json) {
        Some(tag) => variant_of(json, kind_shape(tag)),
        None => json,
    }
}

/// The members of each variant of a journal entry, the tag first.
fn shape_of_kind(tag: &str) -> (r: Option<(Vec<String>, usize)>)
    ensures
        shape_view(r) == kind_shape(tag@),
{
    if *tag == *"TurnStart" {
        let names: Vec<String> = vec![copy("type")];
        assert(texts(names@) =~= seq!["type"@]);
        Some((names, 1))
    } else if *tag == *"LlmRequest" {
        let names: Vec<String> = vec![copy("type"), copy("model"), copy("message_count")];
        assert(texts(names@) =~= seq!["type"@, "model"@, "message_count"@]);
        Some((names, 3))
    } else if *tag == *"LlmResponse" {
        let names: Vec<String> = vec![
            copy("type"),
            copy("model"),
            copy("token_usage"),
            copy("finish_reason"),
            copy("assistant_message"),
        ];
        assert(texts(names@) =~= seq![
            "type"@,
            "model"@,
            "token_usage"@,
            "finish_reason"@,
            "assistant_message"@,
        ]);
        Some((names, 4))
    } else if *tag == *"ToolCall" {
        let names: Vec<String> = vec![copy("type"), copy("tool_call_id"), copy("tool_name"), copy("arguments")];
        assert(texts(names@) =~= seq!["type"@, "tool_call_id"@, "tool_name"@, "arguments"@]);
        Some((names, 4))
    } else if *tag == *"ToolResult" {
        let names: Vec<String> = vec![
            copy("type"),
            copy("tool_call_id"),
            copy("tool_name"),
            copy("content"),
            copy("is_error"),
        ];
        assert(texts(names@) =~= seq!["type"@, "tool_call_id"@, "tool_name"@, "content"@, "is_error"@]);
        Some((names, 5))
    } else if *tag == *"ShellCommand" {
        let names: Vec<String> = vec![copy("type"), copy("command"), copy("exit_code")];
        assert(texts(names@) =~= seq!["type"@, "command"@, "exit_code"@]);
        Some((names, 3))
    } else if *tag == *"CodeExecution" {
        let names: Vec<String> = vec![copy("type"), copy("language")];
        assert(texts(names@) =~= seq!["type"@, "language"@]);
        Some((names, 2))
    } else if *tag == *"SubAgentSpawned" {
        let names: Vec<String> = vec![
            copy("type"),
            copy("child_id"),
            copy("placement"),
            copy("backend"),
            copy("task"),
            copy("instructions"),
        ];
        assert(texts(names@) =~= seq![
            "type"@,
            "child_id"@,
            "placement"@,
            "backend"@,
            "task"@,
            "instructions"@,
        ]);
        Some((names, 5))
    } else if *tag == *"SubAgentCompleted" {
        let names: Vec<String> = vec![copy("type"), copy("child_id"), copy("success")];
        assert(texts(names@) =~= seq!["type"@, "child_id"@, "success"@]);
        Some((names, 3))
    } else if *tag == *"FileWrite" {
        let names: Vec<String> = vec![copy("type"), copy("path"), copy("size_bytes")];
        assert(texts(names@) =~= seq!["type"@, "path"@, "size_bytes"@]);
        Some((names, 3))
    } else if *tag == *"FileDelete" {
        let names: Vec<String> = vec![copy("type"), copy("path")];
        assert(texts(names@) =~= seq!["type"@, "path"@]);
        Some((names, 2))
    } else if *tag == *"FileMove" {
        let names: Vec<String> = vec![copy("type"), copy("from"), copy("to")];
        assert(texts(names@) =~= seq!["type"@, "from"@, "to"@]);
        Some((names, 3))
    } else if *tag == *"HttpRequest" {
        let names: Vec<String> = vec![copy("type"), copy("method"), copy("url"), copy("status")];
        assert(texts(names@) =~= seq!["type"@, "method"@, "url"@, "status"@]);
        Some((names, 4))
    } else if *tag == *"Checkpoint" {
        let names: Vec<String> = vec![copy("type"), copy("snapshot_data")];
        assert(texts(names@) =~= seq!["type"@, "snapshot_data"@]);
        Some((names, 2))
    } else if *tag == *"HookDenial" {
        let names: Vec<String> = vec![copy("type"), copy("hook_name"), copy("operation"), copy("reason")];
        assert(texts(names@) =~= seq!["type"@, "hook_name"@, "operation"@, "reason"@]);
        Some((names, 4))
    } else if *tag == *"HookKill" {
        let names: Vec<String> = vec![copy("type"), copy("hook_name"), copy("operation"), copy("reason")];
        assert(texts(names@) =~= seq!["type"@, "hook_name"@, "operation"@, "reason"@]);
        Some((names, 4))
    } else {
        None
    }
}

/// The object that a list stands for, where it stands for a journal entry.
fn record_of_kind(json: &Json) -> (r: Option<Json>)
    ensures
        match r {
            Some(record) => record@ == kind_record(json@),
            None => json@ == kind_record(json@),
        },
{
    match list_tag(json) {
        Some(tag) => as_variant(json, &shape_of_kind(tag.as_str())),
        None => None,
    }
}

/// What is wrong with the members of a journal entry.
pub open spec fn kind_fault(json: JsonView) -> Option<Seq<char>> {
    if has_tag(json, "TurnStart"@) {
        None
    } else if has_tag(json, "LlmRequest"@) {
        first(
            required_fault::<String>(json, "model"@),
            required_fault::<usize>(json, "message_count"@),
        )
    } else if has_tag(json, "LlmResponse"@) {
        first(
            required_fault::<String>(json, "model"@),
            first(
                required_fault::<TokenUsage>(json, "token_usage"@),
                first(
                    required_fault::<String>(json, "finish_reason"@),
                    optional_fault::<Message>(json, "assistant_message"@),
                ),
            ),
        )
    } else if has_tag(json, "ToolCall"@) {
        first(
            optional_fault::<String>(json, "tool_call_id"@),
            first(
                required_fault::<String>(json, "tool_name"@),
                required_fault::<Json>(json, "arguments"@),
            ),
        )
    } else if has_tag(json, "ToolResult"@) {
        first(
            optional_fault::<String>(json, "tool_call_id"@),
            first(
                required_fault::<String>(json, "tool_name"@),
                first(
                    required_fault::<String>(json, "content"@),
                    required_fault::<bool>(json, "is_error"@),
                ),
            ),
        )
    } else if has_tag(json, "ShellCommand"@) {
        first(
            required_fault::<String>(json, "command"@),
            required_fault::<i32>(json, "exit_code"@),
        )
    } else if has_tag(json, "CodeExecution"@) {
        required_fault::<String>(json, "language"@)
    } else if has_tag(json, "SubAgentSpawned"@) {
        first(
            stranger_fault(json, sub_agent_spawned_members()),
            first(
                required_fault::<AgentId>(json, "child_id"@),
                first(
                    required_fault::<String>(json, "placement"@),
                    first(
                        required_fault::<String>(json, "backend"@),
                        first(
                            required_fault::<String>(json, "task"@),
                            optional_fault::<String>(json, "instructions"@),
                        ),
                    ),
                ),
            ),
        )
    } else if has_tag(json, "SubAgentCompleted"@) {
        first(
            required_fault::<AgentId>(json, "child_id"@),
            required_fault::<bool>(json, "success"@),
        )
    } else if has_tag(json, "FileWrite"@) {
        first(
            required_fault::<String>(json, "path"@),
            required_fault::<u64>(json, "size_bytes"@),
        )
    } else if has_tag(json, "FileDelete"@) {
        required_fault::<String>(json, "path"@)
    } else if has_tag(json, "FileMove"@) {
        first(
            required_fault::<String>(json, "from"@),
            required_fault::<String>(json, "to"@),
        )
    } else if has_tag(json, "HttpRequest"@) {
        first(
            required_fault::<String>(json, "method"@),
            first(
                required_fault::<String>(json, "url"@),
                required_fault::<u16>(json, "status"@),
            ),
        )
    } else if has_tag(json, "Checkpoint"@) {
        list_fault::<u8>(json, "snapshot_data"@)
    } else if has_tag(json, "HookDenial"@) {
        first(
            required_fault::<String>(json, "hook_name"@),
            first(
                required_fault::<String>(json, "operation"@),
                required_fault::<String>(json, "reason"@),
            ),
        )
    } else if has_tag(json, "HookKill"@) {
        first(
            required_fault::<String>(json, "hook_name"@),
            first(
                required_fault::<String>(json, "operation"@),
                required_fault::<String>(json, "reason"@),
            ),
        )
    } else {
        Some(tag_fault(json, "type"@))
    }
}

/// Finds what is wrong with the members of a journal entry.
fn find_kind_fault(json: &Json) -> (r: Option<String>)
    ensures
        opt_text(r) == kind_fault(json@),
{
    let tag = match json.get("type") {
        Some(Json::Text(tag)) => tag.as_str(),
        _ => {
            return Some(find_tag_fault(json, "type"));
        },
    };
    if *tag == *"TurnStart" {
        None
    } else if *tag == *"LlmRequest" {
        let fault = find_required_fault::<String>(json, "model");
        if fault.is_some() {
            return fault;
        }
        find_required_fault::<usize>(json, "message_count")
    } else if *tag == *"LlmResponse" {
        let fault = find_required_fault::<String>(json, "model");
        if fault.is_some() {
            return fault;
        }
        let fault = find_required_fault::<TokenUsage>(json, "token_usage");
        if fault.is_some() {
            return fault;
        }
        let fault = find_required_fault::<String>(json, "finish_reason");
        if fault.is_some() {
            return fault;
        }
        find_optional_fault::<Message>(json, "assistant_message")
    } else if *tag == *"ToolCall" {
        let fault = find_optional_fault::<String>(json, "tool_call_id");
        if fault.is_some() {
            return fault;
        }
        let fault = find_required_fault::<String>(json, "tool_name");
        if fault.is_some() {
            return fault;
        }
        find_required_fault::<Json>(json, "arguments")
    } else if *tag == *"ToolResult" {
        let fault = find_optional_fault::<String>(json, "tool_call_id");
        if fault.is_some() {
            return fault;
        }
        let fault = find_required_fault::<String>(json, "tool_name");
        if fault.is_some() {
            return fault;
        }
        let fault = find_required_fault::<String>(json, "content");
        if fault.is_some() {
            return fault;
        }
        find_required_fault::<bool>(json, "is_error")
    } else if *tag == *"ShellCommand" {
        let fault = find_required_fault::<String>(json, "command");
        if fault.is_some() {
            return fault;
        }
        find_required_fault::<i32>(json, "exit_code")
    } else if *tag == *"CodeExecution" {
        find_required_fault::<String>(json, "language")
    } else if *tag == *"SubAgentSpawned" {
        let fault = find_spawn_stranger(json);
        if fault.is_some() {
            return fault;
        }
        let fault = find_required_fault::<AgentId>(json, "child_id");
        if fault.is_some() {
            return fault;
        }
        let fault = find_required_fault::<String>(json, "placement");
        if fault.is_some() {
            return fault;
        }
        let fault = find_required_fault::<String>(json, "backend");
        if fault.is_some() {
            return fault;
        }
        let fault = find_required_fault::<String>(json, "task");
        if fault.is_some() {
            return fault;
        }
        find_optional_fault::<String>(json, "instructions")
    } else if *tag == *"SubAgentCompleted" {
        let fault = find_required_fault::<AgentId>(json, "child_id");
        if fault.is_some() {
            return fault;
        }
        find_required_fault::<bool>(json, "success")
    } else if *tag == *"FileWrite" {
        let fault = find_required_fault::<String>(json, "path");
        if fault.is_some() {
            return fault;
        }
        find_required_fault::<u64>(json, "size_bytes")
    } else if *tag == *"FileDelete" {
        find_required_fault::<String>(json, "path")
    } else if *tag == *"FileMove" {
        let fault = find_required_fault::<String>(json, "from");
        if fault.is_some() {
            return fault;
        }
        find_required_fault::<String>(json, "to")
    } else if *tag == *"HttpRequest" {
        let fault = find_required_fault::<String>(json, "method");
        if fault.is_some() {
            return fault;
        }
        let fault = find_required_fault::<String>(json, "url");
        if fault.is_some() {
            return fault;
        }
        find_required_fault::<u16>(json, "status")
    } else if *tag == *"Checkpoint" {
        find_list_fault::<u8>(json, "snapshot_data")
    } else if *tag == *"HookDenial" {
        let fault = find_required_fault::<String>(json, "hook_name");
        if fault.is_some() {
            return fault;
        }
        let fault = find_required_fault::<String>(json, "operation");
        if fault.is_some() {
            return fault;
        }
        find_required_fault::<String>(json, "reason")
    } else if *tag == *"HookKill" {
        let fault = find_required_fault::<String>(json, "hook_name");
        if fault.is_some() {
            return fault;
        }
        let fault = find_required_fault::<String>(json, "operation");
        if fault.is_some() {
            return fault;
        }
        find_required_fault::<String>(json, "reason")
    } else {
        Some(find_tag_fault(json, "type"))
    }
}

/// The journal entry that a JSON value stands for, where it stands for one.
pub open spec fn dec_kind(json: JsonView) -> Option<EntryKindView> {
    kind_value(kind_record(json))
}

/// The names of the variants differ.
pub proof fn lemma_kind_tags()
    ensures
        mark("TurnStart"@) == 9_084_083_116,
        mark("LlmRequest"@) == 10_076_113_116,
        mark("LlmResponse"@) == 11_076_115_101,
        mark("ToolCall"@) == 8_084_067_108,
        mark("ToolResult"@) == 10_084_101_116,
        mark("ShellCommand"@) == 12_083_111_100,
        mark("CodeExecution"@) == 13_067_101_110,
        mark("SubAgentSpawned"@) == 15_083_116_100,
        mark("SubAgentCompleted"@) == 17_083_067_100,
        mark("FileWrite"@) == 9_070_087_101,
        mark("FileDelete"@) == 10_070_101_101,
        mark("FileMove"@) == 8_070_077_101,
        mark("HttpRequest"@) == 11_072_101_116,
        mark("Checkpoint"@) == 10_067_112_116,
        mark("HookDenial"@) == 10_072_101_108,
        mark("HookKill"@) == 8_072_075_108,
{
    reveal_strlit("TurnStart");
    reveal_strlit("LlmRequest");
    reveal_strlit("LlmResponse");
    reveal_strlit("ToolCall");
    reveal_strlit("ToolResult");
    reveal_strlit("ShellCommand");
    reveal_strlit("CodeExecution");
    reveal_strlit("SubAgentSpawned");
    reveal_strlit("SubAgentCompleted");
    reveal_strlit("FileWrite");
    reveal_strlit("FileDelete");
    reveal_strlit("FileMove");
    reveal_strlit("HttpRequest");
    reveal_strlit("Checkpoint");
    reveal_strlit("HookDenial");
    reveal_strlit("HookKill");
}

/// The names of the members differ.
pub proof fn lemma_kind_fields()
    ensures
        mark("type"@) == 4_116_112_101,
        mark("model"@) == 5_109_100_108,
        mark("message_count"@) == 13_109_101_116,
        mark("token_usage"@) == 11_116_095_101,
        mark("finish_reason"@) == 13_102_095_110,
        mark("assistant_message"@) == 17_097_116_101,
        mark("tool_call_id"@) == 12_116_097_100,
        mark("tool_name"@) == 9_116_095_101,
        mark("arguments"@) == 9_097_109_115,
        mark("content"@) == 7_099_116_116,
        mark("is_error"@) == 8_105_114_114,
        mark("command"@) == 7_099_109_100,
        mark("exit_code"@) == 9_101_095_101,
        mark("language"@) == 8_108_117_101,
        mark("child_id"@) == 8_099_100_100,
        mark("placement"@) == 9_112_101_116,
        mark("backend"@) == 7_098_107_100,
        mark("task"@) == 4_116_115_107,
        mark("instructions"@) == 12_105_099_115,
        mark("success"@) == 7_115_099_115,
        mark("path"@) == 4_112_116_104,
        mark("size_bytes"@) == 10_115_098_115,
        mark("from"@) == 4_102_111_109,
        mark("to"@) == 2_116_111_111,
        mark("method"@) == 6_109_104_100,
        mark("url"@) == 3_117_114_108,
        mark("status"@) == 6_115_116_115,
        mark("snapshot_data"@) == 13_115_111_097,
        mark("hook_name"@) == 9_104_095_101,
        mark("operation"@) == 9_111_097_110,
        mark("reason"@) == 6_114_115_110,
{
    reveal_strlit("type");
    reveal_strlit("model");
    reveal_strlit("message_count");
    reveal_strlit("token_usage");
    reveal_strlit("finish_reason");
    reveal_strlit("assistant_message");
    reveal_strlit("tool_call_id");
    reveal_strlit("tool_name");
    reveal_strlit("arguments");
    reveal_strlit("content");
    reveal_strlit("is_error");
    reveal_strlit("command");
    reveal_strlit("exit_code");
    reveal_strlit("language");
    reveal_strlit("child_id");
    reveal_strlit("placement");
    reveal_strlit("backend");
    reveal_strlit("task");
    reveal_strlit("instructions");
    reveal_strlit("success");
    reveal_strlit("path");
    reveal_strlit("size_bytes");
    reveal_strlit("from");
    reveal_strlit("to");
    reveal_strlit("method");
    reveal_strlit("url");
    reveal_strlit("status");
    reveal_strlit("snapshot_data");
    reveal_strlit("hook_name");
    reveal_strlit("operation");
    reveal_strlit("reason");
}

/// What was written down of an entry kind reads back as it was.
pub proof fn kind_round_trip(v: EntryKindView)
    ensures
        dec_kind(enc_kind(v)) == Some(v),
{
    lemma_kind_tags();
    lemma_kind_fields();
    let json = enc_kind(v);
    match v {
        EntryKindView::TurnStart => {
            assert(has_tag(json, "TurnStart"@));
        },
        EntryKindView::LlmRequest { model, message_count } => {
            assert(has_tag(json, "LlmRequest"@));
            assert(member(json, "model"@) == Some(String::enc(model)));
            assert(member(json, "message_count"@) == Some(usize::enc(message_count)));
        },
        EntryKindView::LlmResponse { model, token_usage, finish_reason, assistant_message } => {
            assert(has_tag(json, "LlmResponse"@));
            assert(member(json, "model"@) == Some(String::enc(model)));
            assert(member(json, "token_usage"@) == Some(TokenUsage::enc(token_usage)));
            TokenUsage::round_trip(token_usage);
            assert(member(json, "finish_reason"@) == Some(String::enc(finish_reason)));
            assert(member(json, "assistant_message"@) == Some(enc_optional::<Message>(assistant_message)));
            if let Some(m) = assistant_message {
                Message::round_trip(m);
            }
        },
        EntryKindView::ToolCall { tool_call_id, tool_name, arguments } => {
            assert(has_tag(json, "ToolCall"@));
            assert(member(json, "tool_call_id"@) == Some(enc_optional::<String>(tool_call_id)));
            assert(member(json, "tool_name"@) == Some(String::enc(tool_name)));
            assert(member(json, "arguments"@) == Some(Json::enc(arguments)));
        },
        EntryKindView::ToolResult { tool_call_id, tool_name, content, is_error } => {
            assert(has_tag(json, "ToolResult"@));
            assert(member(json, "tool_call_id"@) == Some(enc_optional::<String>(tool_call_id)));
            assert(member(json, "tool_name"@) == Some(String::enc(tool_name)));
            assert(member(json, "content"@) == Some(String::enc(content)));
            assert(member(json, "is_error"@) == Some(bool::enc(is_error)));
        },
        EntryKindView::ShellCommand { command, exit_code } => {
            assert(has_tag(json, "ShellCommand"@));
            assert(member(json, "command"@) == Some(String::enc(command)));
            assert(member(json, "exit_code"@) == Some(i32::enc(exit_code)));
        },
        EntryKindView::CodeExecution { language } => {
            assert(has_tag(json, "CodeExecution"@));
            assert(member(json, "language"@) == Some(String::enc(language)));
        },
        EntryKindView::SubAgentSpawned { child_id, placement, backend, task, instructions } => {
            assert(has_tag(json, "SubAgentSpawned"@));
            assert(member(json, "child_id"@) == Some(AgentId::enc(child_id)));
            assert(member(json, "placement"@) == Some(String::enc(placement)));
            assert(member(json, "backend"@) == Some(String::enc(backend)));
            assert(member(json, "task"@) == Some(String::enc(task)));
            assert(member(json, "instructions"@) == Some(enc_optional::<String>(instructions)));
            assert forall|k: Seq<char>| json->Object_0.contains_key(k) implies sub_agent_spawned_members().contains(k) by {
                assert(sub_agent_spawned_members()[0] == "type"@);
                assert(sub_agent_spawned_members()[1] == "child_id"@);
                assert(sub_agent_spawned_members()[2] == "placement"@);
                assert(sub_agent_spawned_members()[3] == "backend"@);
                assert(sub_agent_spawned_members()[4] == "task"@);
                assert(sub_agent_spawned_members()[5] == "instructions"@);
            }
        },
        EntryKindView::SubAgentCompleted { child_id, success } => {
            assert(has_tag(json, "SubAgentCompleted"@));
            assert(member(json, "child_id"@) == Some(AgentId::enc(child_id)));
            assert(member(json, "success"@) == Some(bool::enc(success)));
        },
        EntryKindView::FileWrite { path, size_bytes } => {
            assert(has_tag(json, "FileWrite"@));
            assert(member(json, "path"@) == Some(String::enc(path)));
            assert(member(json, "size_bytes"@) == Some(u64::enc(size_bytes)));
        },
        EntryKindView::FileDelete { path } => {
            assert(has_tag(json, "FileDelete"@));
            assert(member(json, "path"@) == Some(String::enc(path)));
        },
        EntryKindView::FileMove { from, to } => {
            assert(has_tag(json, "FileMove"@));
            assert(member(json, "from"@) == Some(String::enc(from)));
            assert(member(json, "to"@) == Some(String::enc(to)));
        },
        EntryKindView::HttpRequest { method, url, status } => {
            assert(has_tag(json, "HttpRequest"@));
            assert(member(json, "method"@) == Some(String::enc(method)));
            assert(member(json, "url"@) == Some(String::enc(url)));
            assert(member(json, "status"@) == Some(u16::enc(status)));
        },
        EntryKindView::Checkpoint { snapshot_data } => {
            assert(has_tag(json, "Checkpoint"@));
            assert(member(json, "snapshot_data"@) == Some(enc_list::<u8>(snapshot_data)));
            list_round_trip::<u8>(snapshot_data);
        },
        EntryKindView::HookDenial { hook_name, operation, reason } => {
            assert(has_tag(json, "HookDenial"@));
            assert(member(json, "hook_name"@) == Some(String::enc(hook_name)));
            assert(member(json, "operation"@) == Some(String::enc(operation)));
            assert(member(json, "reason"@) == Some(String::enc(reason)));
        },
        EntryKindView::HookKill { hook_name, operation, reason } => {
            assert(has_tag(json, "HookKill"@));
            assert(member(json, "hook_name"@) == Some(String::enc(hook_name)));
            assert(member(json, "operation"@) == Some(String::enc(operation)));
            assert(member(json, "reason"@) == Some(String::enc(reason)));
        },
    }
}

/// Reads the members of a journal entry.
fn read_kind_value(json: &Json) -> (r: Option<JournalEntryKind>)
    ensures
        view_of(r) == kind_value(json@),
{
    let tag = match json.get("type") {
        Some(Json::Text(tag)) => tag.as_str(),
        _ => {
            return None;
        },
    };
    if *tag == *"TurnStart" {
        Some(JournalEntryKind::TurnStart)
    } else if *tag == *"LlmRequest" {
        match (
            required_field::<String>(json, "model"),
            required_field::<usize>(json, "message_count"),
        ) {
            (Some(model), Some(message_count)) => Some(JournalEntryKind::LlmRequest { model, message_count }),
            _ => None,
        }
    } else if *tag == *"LlmResponse" {
        match (
            required_field::<String>(json, "model"),
            required_field::<TokenUsage>(json, "token_usage"),
            required_field::<String>(json, "finish_reason"),
            optional_field::<Message>(json, "assistant_message"),
        ) {
            (
                Some(model),
                Some(token_usage),
                Some(finish_reason),
                Some(assistant_message),
            ) => Some(JournalEntryKind::LlmResponse { model, token_usage, finish_reason, assistant_message }),
            _ => None,
        }
    } else if *tag == *"ToolCall" {
        match (
            optional_field::<String>(json, "tool_call_id"),
            required_field::<String>(json, "tool_name"),
            required_field::<Json>(json, "arguments"),
        ) {
            (
                Some(tool_call_id),
                Some(tool_name),
                Some(arguments),
            ) => Some(JournalEntryKind::ToolCall { tool_call_id, tool_name, arguments }),
            _ => None,
        }
    } else if *tag == *"ToolResult" {
        match (
            optional_field::<String>(json, "tool_call_id"),
            required_field::<String>(json, "tool_name"),
            required_field::<String>(json, "content"),
            required_field::<bool>(json, "is_error"),
        ) {
            (
                Some(tool_call_id),
                Some(tool_name),
                Some(content),
                Some(is_error),
            ) => Some(JournalEntryKind::ToolResult { tool_call_id, tool_name, content, is_error }),
            _ => None,
        }
    } else if *tag == *"ShellCommand" {
        match (
            required_field::<String>(json, "command"),
            required_field::<i32>(json, "exit_code"),
        ) {
            (Some(command), Some(exit_code)) => Some(JournalEntryKind::ShellCommand { command, exit_code }),
            _ => None,
        }
    } else if *tag == *"CodeExecution" {
        match required_field::<String>(json, "language") {
            Some(language) => Some(JournalEntryKind::CodeExecution { language }),
            None => None,
        }
    } else if *tag == *"SubAgentSpawned" && has_only_sub_agent_spawned(json) {
        match (
            required_field::<AgentId>(json, "child_id"),
            required_field::<String>(json, "placement"),
            required_field::<String>(json, "backend"),
            required_field::<String>(json, "task"),
            optional_field::<String>(json, "instructions"),
        ) {
            (
                Some(child_id),
                Some(placement),
                Some(backend),
                Some(task),
                Some(instructions),
            ) => Some(JournalEntryKind::SubAgentSpawned { child_id, placement, backend, task, instructions }),
            _ => None,
        }
    } else if *tag == *"SubAgentCompleted" {
        match (
            required_field::<AgentId>(json, "child_id"),
            required_field::<bool>(json, "success"),
        ) {
            (Some(child_id), Some(success)) => Some(JournalEntryKind::SubAgentCompleted { child_id, success }),
            _ => None,
        }
    } else if *tag == *"FileWrite" {
        match (
            required_field::<String>(json, "path"),
            required_field::<u64>(json, "size_bytes"),
        ) {
            (Some(path), Some(size_bytes)) => Some(JournalEntryKind::FileWrite { path, size_bytes }),
            _ => None,
        }
    } else if *tag == *"FileDelete" {
        match required_field::<String>(json, "path") {
            Some(path) => Some(JournalEntryKind::FileDelete { path }),
            None => None,
        }
    } else if *tag == *"FileMove" {
        match (
            required_field::<String>(json, "from"),
            required_field::<String>(json, "to"),
        ) {
            (Some(from), Some(to)) => Some(JournalEntryKind::FileMove { from, to }),
            _ => None,
        }
    } else if *tag == *"HttpRequest" {
        match (
            required_field::<String>(json, "method"),
            required_field::<String>(json, "url"),
            required_field::<u16>(json, "status"),
        ) {
            (Some(method), Some(url), Some(status)) => Some(JournalEntryKind::HttpRequest { method, url, status }),
            _ => None,
        }
    } else if *tag == *"Checkpoint" {
        match list_field::<u8>(json, "snapshot_data") {
            Some(snapshot_data) => Some(JournalEntryKind::Checkpoint { snapshot_data }),
            None => None,
        }
    } else if *tag == *"HookDenial" {
        match (
            required_field::<String>(json, "hook_name"),
            required_field::<String>(json, "operation"),
            required_field::<String>(json, "reason"),
        ) {
            (Some(hook_name), Some(operation), Some(reason)) => Some(JournalEntryKind::HookDenial { hook_name, operation, reason }),
            _ => None,
        }
    } else if *tag == *"HookKill" {
        match (
            required_field::<String>(json, "hook_name"),
            required_field::<String>(json, "operation"),
            required_field::<String>(json, "reason"),
        ) {
            (Some(hook_name), Some(operation), Some(reason)) => Some(JournalEntryKind::HookKill { hook_name, operation, reason }),
            _ => None,
        }
    } else {
        None
    }
}

impl Coded for JournalEntryKind {
    open spec fn stable(v: EntryKindView) -> bool {
        true
    }

    open spec fn enc(v: EntryKindView) -> JsonView {
        enc_kind(v)
    }

    open spec fn dec(json: JsonView) -> Option<EntryKindView> {
        dec_kind(json)
    }

    open spec fn complaint(json: JsonView) -> Seq<char> {
        said(kind_fault(kind_record(json)))
    }

    proof fn round_trip(v: EntryKindView) {
        kind_round_trip(v);
    }

    fn to_json(&self) -> (r: Json)
    {
        let mut m: Vec<(String, Json)> = Vec::new();
        match self {
            JournalEntryKind::TurnStart => {
                put(&mut m, "type", Json::text("TurnStart"));
            },
            JournalEntryKind::LlmRequest { model, message_count } => {
                put(&mut m, "type", Json::text("LlmRequest"));
                put(&mut m, "model", model.to_json());
                put(&mut m, "message_count", message_count.to_json());
            },
            JournalEntryKind::LlmResponse { model, token_usage, finish_reason, assistant_message } => {
                put(&mut m, "type", Json::text("LlmResponse"));
                put(&mut m, "model", model.to_json());
                put(&mut m, "token_usage", token_usage.to_json());
                put(&mut m, "finish_reason", finish_reason.to_json());
                put(&mut m, "assistant_message", optional_to_json(assistant_message));
            },
            JournalEntryKind::ToolCall { tool_call_id, tool_name, arguments } => {
                put(&mut m, "type", Json::text("ToolCall"));
                put(&mut m, "tool_call_id", optional_to_json(tool_call_id));
                put(&mut m, "tool_name", tool_name.to_json());
                put(&mut m, "arguments", arguments.to_json());
            },
            JournalEntryKind::ToolResult { tool_call_id, tool_name, content, is_error } => {
                put(&mut m, "type", Json::text("ToolResult"));
                put(&mut m, "tool_call_id", optional_to_json(tool_call_id));
                put(&mut m, "tool_name", tool_name.to_json());
                put(&mut m, "content", content.to_json());
                put(&mut m, "is_error", is_error.to_json());
            },
            JournalEntryKind::ShellCommand { command, exit_code } => {
                put(&mut m, "type", Json::text("ShellCommand"));
                put(&mut m, "command", command.to_json());
                put(&mut m, "exit_code", exit_code.to_json());
            },
            JournalEntryKind::CodeExecution { language } => {
                put(&mut m, "type", Json::text("CodeExecution"));
                put(&mut m, "language", language.to_json());
            },
            JournalEntryKind::SubAgentSpawned { child_id, placement, backend, task, instructions } => {
                put(&mut m, "type", Json::text("SubAgentSpawned"));
                put(&mut m, "child_id", child_id.to_json());
                put(&mut m, "placement", placement.to_json());
                put(&mut m, "backend", backend.to_json());
                put(&mut m, "task", task.to_json());
                put(&mut m, "instructions", optional_to_json(instructions));
            },
            JournalEntryKind::SubAgentCompleted { child_id, success } => {
                put(&mut m, "type", Json::text("SubAgentCompleted"));
                put(&mut m, "child_id", child_id.to_json());
                put(&mut m, "success", success.to_json());
            },
            JournalEntryKind::FileWrite { path, size_bytes } => {
                put(&mut m, "type", Json::text("FileWrite"));
                put(&mut m, "path", path.to_json());
                put(&mut m, "size_bytes", size_bytes.to_json());
            },
            JournalEntryKind::FileDelete { path } => {
                put(&mut m, "type", Json::text("FileDelete"));
                put(&mut m, "path", path.to_json());
            },
            JournalEntryKind::FileMove { from, to } => {
                put(&mut m, "type", Json::text("FileMove"));
                put(&mut m, "from", from.to_json());
                put(&mut m, "to", to.to_json());
            },
            JournalEntryKind::HttpRequest { method, url, status } => {
                put(&mut m, "type", Json::text("HttpRequest"));
                put(&mut m, "method", method.to_json());
                put(&mut m, "url", url.to_json());
                put(&mut m, "status", status.to_json());
            },
            JournalEntryKind::Checkpoint { snapshot_data } => {
                put(&mut m, "type", Json::text("Checkpoint"));
                put(&mut m, "snapshot_data", list_to_json(snapshot_data));
            },
            JournalEntryKind::HookDenial { hook_name, operation, reason } => {
                put(&mut m, "type", Json::text("HookDenial"));
                put(&mut m, "hook_name", hook_name.to_json());
                put(&mut m, "operation", operation.to_json());
                put(&mut m, "reason", reason.to_json());
            },
            JournalEntryKind::HookKill { hook_name, operation, reason } => {
                put(&mut m, "type", Json::text("HookKill"));
                put(&mut m, "hook_name", hook_name.to_json());
                put(&mut m, "operation", operation.to_json());
                put(&mut m, "reason", reason.to_json());
            },
        }
        Json::Object(m)
    }

    fn read(json: &Json) -> (r: Option<Self>) {
        match record_of_kind(json) {
            Some(record) => read_kind_value(&record),
            None => read_kind_value(json),
        }
    }

    fn complain(json: &Json) -> (r: String) {
        match record_of_kind(json) {
            Some(record) => tell(find_kind_fault(&record)),
            None => tell(find_kind_fault(json)),
        }
    }
}

fn has_only_sub_agent_spawned(json: &Json) -> (r: bool)
    requires
        json@ is Object,
    ensures
        r == only(json@, sub_agent_spawned_members()),
{
    let keys = vec![
        copy("type"),
        copy("child_id"),
        copy("placement"),
        copy("backend"),
        copy("task"),
        copy("instructions"),
    ];
    assert(texts(keys@) =~= sub_agent_spawned_members());
    has_only(json, &keys)
}

/// Finds the first member that a spawned sub-agent does not have.
fn find_spawn_stranger(json: &Json) -> (r: Option<String>)
    requires
        json@ is Object,
    ensures
        opt_text(r) == stranger_fault(json@, sub_agent_spawned_members()),
{
    let keys: Vec<String> = vec![
        copy("type"),
        copy("child_id"),
        copy("placement"),
        copy("backend"),
        copy("task"),
        copy("instructions"),
    ];
    assert(texts(keys@) =~= sub_agent_spawned_members());
    find_stranger_fault(json, &keys)
}

/// A single journal entry. Append-only, schema-versioned.
#[derive(Debug, Clone)]
pub struct JournalEntry {
    pub schema_version: u32,
    pub agent_id: AgentId,
    pub timestamp_ms: u64,
    pub entry: JournalEntryKind,
}

/// What a [`JournalEntry`] says.
pub struct EntryView {
    pub schema_version: u32,
    pub agent_id: Seq<char>,
    pub timestamp_ms: u64,
    pub entry: EntryKindView,
}

impl View for JournalEntry {
    type V = EntryView;

    open spec fn view(&self) -> EntryView {
        EntryView {
            schema_version: self.schema_version,
            agent_id: self.agent_id@,
            timestamp_ms: self.timestamp_ms,
            entry: self.entry@,
        }
    }
}

/// The names of the members of an entry differ.
pub proof fn lemma_entry_fields()
    ensures
        mark("schema_version"@) == 14_115_118_110,
        mark("agent_id"@) == 8_097_116_100,
        mark("timestamp_ms"@) == 12_116_097_115,
        mark("entry"@) == 5_101_116_121,
{
    reveal_strlit("schema_version");
    reveal_strlit("agent_id");
    reveal_strlit("timestamp_ms");
    reveal_strlit("entry");
}

/// The value that the members of an object stand for, where they stand for an entry of the journal.
pub open spec fn entry_value(json: JsonView) -> Option<EntryView> {
    match (
        required::<u32>(member(json, "schema_version"@)),
        required::<AgentId>(member(json, "agent_id"@)),
        required::<u64>(member(json, "timestamp_ms"@)),
        required::<JournalEntryKind>(member(json, "entry"@)),
    ) {
        (Some(schema_version), Some(agent_id), Some(timestamp_ms), Some(entry)) => Some(
            EntryView { schema_version, agent_id, timestamp_ms, entry },
        ),
        _ => None,
    }
}

/// Reads the members of an entry of the journal.
fn read_entry_value(json: &Json) -> (r: Option<JournalEntry>)
    ensures
        view_of(r) == entry_value(json@),
{
    match (
        required_field::<u32>(json, "schema_version"),
        required_field::<AgentId>(json, "agent_id"),
        required_field::<u64>(json, "timestamp_ms"),
        required_field::<JournalEntryKind>(json, "entry"),
    ) {
        (Some(schema_version), Some(agent_id), Some(timestamp_ms), Some(entry)) => Some(
            JournalEntry { schema_version, agent_id, timestamp_ms, entry },
        ),
        _ => None,
    }
}

/// The members of an entry of the journal.
pub open spec fn entry_names() -> Seq<Seq<char>> {
    seq!["schema_version"@, "agent_id"@, "timestamp_ms"@, "entry"@]
}

/// The object that a list stands for, where it stands for an entry of the journal.
fn entry_record(json: &Json) -> (r: Option<Json>)
    ensures
        match r {
            Some(record) => record@ == record_of(json@, entry_names(), 4),
            None => json@ == record_of(json@, entry_names(), 4),
        },
{
    let names: Vec<String> = vec![
        copy("schema_version"),
        copy("agent_id"),
        copy("timestamp_ms"),
        copy("entry"),
    ];
    assert(texts(names@) =~= entry_names());
    as_record(json, &names, 4)
}

/// What is wrong with the members of an entry of the journal.
pub open spec fn entry_fault(json: JsonView) -> Option<Seq<char>> {
    first(
        object_fault(json),
        first(
            required_fault::<u32>(json, "schema_version"@),
            first(
                required_fault::<AgentId>(json, "agent_id"@),
                first(
                    required_fault::<u64>(json, "timestamp_ms"@),
                    required_fault::<JournalEntryKind>(json, "entry"@),
                ),
            ),
        ),
    )
}

/// Finds what is wrong with the members of an entry of the journal.
fn find_entry_fault(json: &Json) -> (r: Option<String>)
    ensures
        opt_text(r) == entry_fault(json@),
{
    let fault = find_object_fault(json);
    if fault.is_some() {
        return fault;
    }
    let fault = find_required_fault::<u32>(json, "schema_version");
    if fault.is_some() {
        return fault;
    }
    let fault = find_required_fault::<AgentId>(json, "agent_id");
    if fault.is_some() {
        return fault;
    }
    let fault = find_required_fault::<u64>(json, "timestamp_ms");
    if fault.is_some() {
        return fault;
    }
    find_required_fault::<JournalEntryKind>(json, "entry")
}

impl Coded for JournalEntry {
    open spec fn stable(v: EntryView) -> bool {
        true
    }

    open spec fn enc(v: EntryView) -> JsonView {
        JsonView::Object(
            Map::empty().insert("schema_version"@, u32::enc(v.schema_version)).insert(
                "agent_id"@,
                AgentId::enc(v.agent_id),
            ).insert("timestamp_ms"@, u64::enc(v.timestamp_ms)).insert("entry"@, enc_kind(v.entry)),
        )
    }

    open spec fn dec(json: JsonView) -> Option<EntryView> {
        entry_value(record_of(json, entry_names(), 4))
    }

    open spec fn complaint(json: JsonView) -> Seq<char> {
        said(entry_fault(record_of(json, entry_names(), 4)))
    }

    proof fn round_trip(v: EntryView) {
        lemma_entry_fields();
        kind_round_trip(v.entry);
        let json = Self::enc(v);
        assert(member(json, "schema_version"@) == Some(u32::enc(v.schema_version)));
        assert(member(json, "agent_id"@) == Some(AgentId::enc(v.agent_id)));
        assert(member(json, "timestamp_ms"@) == Some(u64::enc(v.timestamp_ms)));
        assert(member(json, "entry"@) == Some(enc_kind(v.entry)));
    }

    fn to_json(&self) -> (r: Json) {
        let mut m: Vec<(String, Json)> = Vec::new();
        put(&mut m, "schema_version", self.schema_version.to_json());
        put(&mut m, "agent_id", self.agent_id.to_json());
        put(&mut m, "timestamp_ms", self.timestamp_ms.to_json());
        put(&mut m, "entry", self.entry.to_json());
        Json::Object(m)
    }

    fn read(json: &Json) -> (r: Option<Self>) {
        match entry_record(json) {
            Some(record) => read_entry_value(&record),
            None => read_entry_value(json),
        }
    }

    fn complain(json: &Json) -> (r: String) {
        match entry_record(json) {
            Some(record) => tell(find_entry_fault(&record)),
            None => tell(find_entry_fault(json)),
        }
    }
}

/// An entry is refused where something is wrong with it, and only there.
pub proof fn refused_entries_are_explained(json: JsonView)
    ensures
        kind_fault(json) is Some <==> kind_value(json) is None,
        entry_fault(json) is Some <==> entry_value(json) is None,
{
    lemma_kind_tags();
    match member(json, "snapshot_data"@) {
        Some(JsonView::Array(items)) => {
            lemma_item_fault::<u8>(items);
        },
        _ => {},
    }
}

/// An entry about a spawned child with a member that is none of its own is no entry, and the
/// reason names the first such member.
pub proof fn foreign_spawn_members_are_rejected(json: JsonView, key: Seq<char>)
    requires
        json is Object,
        has_tag(json, "SubAgentSpawned"@),
        json->Object_0.contains_key(key),
        !sub_agent_spawned_members().contains(key),
    ensures
        dec_kind(json) is None,
        JournalEntryKind::complaint(json) == "unknown field `"@ + first_stranger(json, sub_agent_spawned_members()) + "`"@,
{
    lemma_kind_tags();
    assert(!only(json, sub_agent_spawned_members()));
}

// ---- Storage -----------------------------------------------------------------

/// Storage backend for journal entries.
pub trait JournalStorage: Sized {
    /// Adds an entry at the end.
    fn append(&mut self, entry: JournalEntry) -> (r: Result<(), JournalError>);

    /// All entries of an agent, in order.
    fn read_all(&self, agent_id: &AgentId) -> (r: Result<Vec<JournalEntry>, JournalError>);

    /// The tokens that an agent used.
    fn query_token_usage(&self, agent_id: &AgentId) -> (r: Result<TokenUsage, JournalError>);

    /// Save a checkpoint after the given entry index.
    fn save_checkpoint(&mut self, agent_id: &AgentId, after_entry: usize, data: CheckpointData) -> (r: Result<
        (),
        JournalError,
    >);

    /// Fork from a checkpoint: the entries from the checkpoint onward (inclusive).
    fn fork_from(&self, agent_id: &AgentId, checkpoint_idx: usize) -> (r: Result<Vec<JournalEntry>, JournalError>);

    /// The entries from `start_index` on (for replay-from-checkpoint).
    fn read_from(&self, agent_id: &AgentId, start_index: usize) -> (r: Result<Vec<JournalEntry>, JournalError>);
}

/// Errors from journal operations.
#[derive(Debug, PartialEq, Eq)]
pub enum JournalError {
    SchemaVersionMismatch { expected: u32, got: u32 },
    Storage(String),
    NotFound(String),
    InvalidCheckpointIndex(usize),
}

/// What a [`JournalError`] says.
#[verifier::ext_equal]
pub enum JournalErrorView {
    SchemaVersionMismatch { expected: nat, got: nat },
    Storage(Seq<char>),
    NotFound(Seq<char>),
    InvalidCheckpointIndex(nat),
}

impl View for JournalError {
    type V = JournalErrorView;

    open spec fn view(&self) -> JournalErrorView {
        match self {
            JournalError::SchemaVersionMismatch { expected, got } => JournalErrorView::SchemaVersionMismatch {
                expected: *expected as nat,
                got: *got as nat,
            },
            JournalError::Storage(text) => JournalErrorView::Storage(text@),
            JournalError::NotFound(text) => JournalErrorView::NotFound(text@),
            JournalError::InvalidCheckpointIndex(n) => JournalErrorView::InvalidCheckpointIndex(*n as nat),
        }
    }
}

/// The text of a [`JournalError`].
pub open spec fn journal_message(e: JournalErrorView) -> Seq<char> {
    match e {
        JournalErrorView::SchemaVersionMismatch { expected, got } => "schema version mismatch: expected "@
            + decimal(expected) + ", got "@ + decimal(got),
        JournalErrorView::Storage(text) => "storage error: "@ + text,
        JournalErrorView::NotFound(text) => "not found: "@ + text,
        JournalErrorView::InvalidCheckpointIndex(n) => "invalid checkpoint index: "@ + decimal(n),
    }
}

impl JournalError {
    /// What the error says.
    pub fn to_string(&self) -> (r: String)
        ensures
            r@ == journal_message(self@),
    {
        match self {
            JournalError::SchemaVersionMismatch { expected, got } => {
                let mut r = copy("schema version mismatch: expected ");
                r.append(number(*expected as u64).as_str());
                r.append(", got ");
                r.append(number(*got as u64).as_str());
                r
            },
            JournalError::Storage(text) => concat("storage error: ", text.as_str()),
            JournalError::NotFound(text) => concat("not found: ", text.as_str()),
            JournalError::InvalidCheckpointIndex(n) => concat(
                "invalid checkpoint index: ",
                number(*n as u64).as_str(),
            ),
        }
    }
}

} // verus!
