//! Activity events for real-time observability of agent work.
use crate::coding::{enc_optional, has_tag, lemma_item_views, mark, optional, optional_field, optional_to_json, required, required_field, tagged, view_of, Coded};
use crate::json::{member, put, Json, JsonView};
use crate::record::{as_variant, find_optional_fault, find_required_fault, find_tag_fault, find_value_fault, first, leading_text, list_tag, missing, optional_fault, required_fault, said, say_missing, say_within, shape_view, tag_fault, tell, value_fault, variant_of, within};
use crate::text::{copy, opt_text, texts};
use vstd::prelude::*;

verus! {

broadcast use vstd::seq_lib::group_seq_properties;

/// Events emitted during agent execution for real-time observability.
#[derive(Debug)]
pub enum ActivityEvent {
    /// LLM token arrived (streaming response text).
    Token { text: String },
    /// Model has started an extended thinking block.
    ThinkStart,
    /// A chunk of thinking text arrived (streaming).
    ThinkDelta { text: String },
    /// Model thinking block has ended, after a time and with an approximate token count.
    ThinkEnd { think_duration_ms: u64, think_tokens: u64 },
    /// A tool call has started. The arguments are complete; displays truncate them.
    ToolStart { tool_call_id: String, name: String, arguments: Json },
    /// A tool call is waiting for human approval before execution starts.
    ToolApprovalRequired { tool_call_id: String, name: String, arguments: Json, reason: Option<String> },
    /// A provider streamed part of a tool-call argument payload. Display-only.
    ToolCallDelta { index: u64, tool_call_id: Option<String>, name: Option<String>, arguments_delta: String },
    /// A line of output from a running tool (e.g. shell stdout/stderr).
    ToolOutput { tool_call_id: String, line: String },
    /// The agent is waiting for user-provided input.
    InputRequired { prompt: String, schema: Option<Json> },
    /// A tool call has finished. Shell tools have an exit code.
    ToolFinish { tool_call_id: String, name: String, is_error: bool, duration_ms: u64, exit_code: Option<i32> },
    /// A child agent has been spawned.
    ChildSpawned { child_id: String, placement: String, task: String },
    /// A forwarded event from a running child agent.
    ChildActivity { child_id: String, placement: String, event: Box<ActivityEvent> },
    /// A child agent has finished.
    ChildFinished {
        child_id: String,
        placement: String,
        exit_reason: String,
        duration_ms: u64,
        tool_uses: u32,
        token_count: u64,
    },
    /// The agent turn has completed.
    TurnComplete,
}

/// What an [`ActivityEvent`] says.
pub enum ActivityView {
    Token { text: Seq<char> },
    ThinkStart,
    ThinkDelta { text: Seq<char> },
    ThinkEnd { think_duration_ms: u64, think_tokens: u64 },
    ToolStart { tool_call_id: Seq<char>, name: Seq<char>, arguments: JsonView },
    ToolApprovalRequired {
        tool_call_id: Seq<char>,
        name: Seq<char>,
        arguments: JsonView,
        reason: Option<Seq<char>>,
    },
    ToolCallDelta {
        index: u64,
        tool_call_id: Option<Seq<char>>,
        name: Option<Seq<char>>,
        arguments_delta: Seq<char>,
    },
    ToolOutput { tool_call_id: Seq<char>, line: Seq<char> },
    InputRequired { prompt: Seq<char>, schema: Option<JsonView> },
    ToolFinish {
        tool_call_id: Seq<char>,
        name: Seq<char>,
        is_error: bool,
        duration_ms: u64,
        exit_code: Option<i32>,
    },
    ChildSpawned { child_id: Seq<char>, placement: Seq<char>, task: Seq<char> },
    ChildActivity { child_id: Seq<char>, placement: Seq<char>, event: Box<ActivityView> },
    ChildFinished {
        child_id: Seq<char>,
        placement: Seq<char>,
        exit_reason: Seq<char>,
        duration_ms: u64,
        tool_uses: u32,
        token_count: u64,
    },
    TurnComplete,
}

/// What the event says.
pub open spec fn activity_view(e: ActivityEvent) -> ActivityView
    decreases e,
{
    match e {
        ActivityEvent::Token { text } => ActivityView::Token { text: text@ },
        ActivityEvent::ThinkStart => ActivityView::ThinkStart,
        ActivityEvent::ThinkDelta { text } => ActivityView::ThinkDelta { text: text@ },
        ActivityEvent::ThinkEnd { think_duration_ms, think_tokens } => ActivityView::ThinkEnd {
            think_duration_ms: think_duration_ms@,
            think_tokens: think_tokens@,
        },
        ActivityEvent::ToolStart { tool_call_id, name, arguments } => ActivityView::ToolStart {
            tool_call_id: tool_call_id@,
            name: name@,
            arguments: arguments@,
        },
        ActivityEvent::ToolApprovalRequired { tool_call_id, name, arguments, reason } => ActivityView::ToolApprovalRequired {
            tool_call_id: tool_call_id@,
            name: name@,
            arguments: arguments@,
            reason: view_of(reason),
        },
        ActivityEvent::ToolCallDelta { index, tool_call_id, name, arguments_delta } => ActivityView::ToolCallDelta {
            index: index@,
            tool_call_id: view_of(tool_call_id),
            name: view_of(name),
            arguments_delta: arguments_delta@,
        },
        ActivityEvent::ToolOutput { tool_call_id, line } => ActivityView::ToolOutput { tool_call_id: tool_call_id@, line: line@ },
        ActivityEvent::InputRequired { prompt, schema } => ActivityView::InputRequired { prompt: prompt@, schema: view_of(schema) },
        ActivityEvent::ToolFinish {
            tool_call_id,
            name,
            is_error,
            duration_ms,
            exit_code,
        } => ActivityView::ToolFinish {
            tool_call_id: tool_call_id@,
            name: name@,
            is_error: is_error@,
            duration_ms: duration_ms@,
            exit_code: view_of(exit_code),
        },
        ActivityEvent::ChildSpawned { child_id, placement, task } => ActivityView::ChildSpawned {
            child_id: child_id@,
            placement: placement@,
            task: task@,
        },
        ActivityEvent::ChildActivity { child_id, placement, event } => ActivityView::ChildActivity {
            child_id: child_id@,
            placement: placement@,
            event: Box::new(activity_view(*event)),
        },
        ActivityEvent::ChildFinished {
            child_id,
            placement,
            exit_reason,
            duration_ms,
            tool_uses,
            token_count,
        } => ActivityView::ChildFinished {
            child_id: child_id@,
            placement: placement@,
            exit_reason: exit_reason@,
            duration_ms: duration_ms@,
            tool_uses: tool_uses@,
            token_count: token_count@,
        },
        ActivityEvent::TurnComplete => ActivityView::TurnComplete,
    }
}

impl View for ActivityEvent {
    type V = ActivityView;

    open spec fn view(&self) -> ActivityView {
        activity_view(*self)
    }
}

/// The JSON of an activity.
pub open spec fn enc_activity(v: ActivityView) -> JsonView
    decreases v,
{
    match v {
        ActivityView::Token { text } => JsonView::Object(tagged("Token"@).insert("text"@, String::enc(text))),
        ActivityView::ThinkStart => JsonView::Object(tagged("ThinkStart"@)),
        ActivityView::ThinkDelta { text } => JsonView::Object(tagged("ThinkDelta"@).insert("text"@, String::enc(text))),
        ActivityView::ThinkEnd { think_duration_ms, think_tokens } => JsonView::Object(
            tagged("ThinkEnd"@)
                .insert("think_duration_ms"@, u64::enc(think_duration_ms))
                .insert("think_tokens"@, u64::enc(think_tokens)),
        ),
        ActivityView::ToolStart { tool_call_id, name, arguments } => JsonView::Object(
            tagged("ToolStart"@)
                .insert("tool_call_id"@, String::enc(tool_call_id))
                .insert("name"@, String::enc(name))
                .insert("arguments"@, Json::enc(arguments)),
        ),
        ActivityView::ToolApprovalRequired { tool_call_id, name, arguments, reason } => JsonView::Object(
            tagged("ToolApprovalRequired"@)
                .insert("tool_call_id"@, String::enc(tool_call_id))
                .insert("name"@, String::enc(name))
                .insert("arguments"@, Json::enc(arguments))
                .insert("reason"@, enc_optional::<String>(reason)),
        ),
        ActivityView::ToolCallDelta { index, tool_call_id, name, arguments_delta } => JsonView::Object(
            tagged("ToolCallDelta"@)
                .insert("index"@, u64::enc(index))
                .insert("tool_call_id"@, enc_optional::<String>(tool_call_id))
                .insert("name"@, enc_optional::<String>(name))
                .insert("arguments_delta"@, String::enc(arguments_delta)),
        ),
        ActivityView::ToolOutput { tool_call_id, line } => JsonView::Object(
            tagged("ToolOutput"@)
                .insert("tool_call_id"@, String::enc(tool_call_id))
                .insert("line"@, String::enc(line)),
        ),
        ActivityView::InputRequired { prompt, schema } => JsonView::Object(
            tagged("InputRequired"@)
                .insert("prompt"@, String::enc(prompt))
                .insert("schema"@, enc_optional::<Json>(schema)),
        ),
        ActivityView::ToolFinish {
            tool_call_id,
            name,
            is_error,
            duration_ms,
            exit_code,
        } => JsonView::Object(
            tagged("ToolFinish"@)
                .insert("tool_call_id"@, String::enc(tool_call_id))
                .insert("name"@, String::enc(name))
                .insert("is_error"@, bool::enc(is_error))
                .insert("duration_ms"@, u64::enc(duration_ms))
                .insert("exit_code"@, enc_optional::<i32>(exit_code)),
        ),
        ActivityView::ChildSpawned { child_id, placement, task } => JsonView::Object(
            tagged("ChildSpawned"@)
                .insert("child_id"@, String::enc(child_id))
                .insert("placement"@, String::enc(placement))
                .insert("task"@, String::enc(task)),
        ),
        ActivityView::ChildActivity { child_id, placement, event } => JsonView::Object(
            tagged("ChildActivity"@)
                .insert("child_id"@, String::enc(child_id))
                .insert("placement"@, String::enc(placement))
                .insert("event"@, enc_activity(*event)),
        ),
        ActivityView::ChildFinished {
            child_id,
            placement,
            exit_reason,
            duration_ms,
            tool_uses,
            token_count,
        } => JsonView::Object(
            tagged("ChildFinished"@)
                .insert("child_id"@, String::enc(child_id))
                .insert("placement"@, String::enc(placement))
                .insert("exit_reason"@, String::enc(exit_reason))
                .insert("duration_ms"@, u64::enc(duration_ms))
                .insert("tool_uses"@, u32::enc(tool_uses))
                .insert("token_count"@, u64::enc(token_count)),
        ),
        ActivityView::TurnComplete => JsonView::Object(tagged("TurnComplete"@)),
    }
}

/// What the members of an object say of an activity that holds no other one, where they say
/// something.
pub open spec fn activity_value(json: JsonView) -> Option<ActivityView> {
    if has_tag(json, "Token"@) {
        match required::<String>(member(json, "text"@)) {
            Some(text) => Some(ActivityView::Token { text }),
            None => None,
        }
    } else if has_tag(json, "ThinkStart"@) {
        Some(ActivityView::ThinkStart)
    } else if has_tag(json, "ThinkDelta"@) {
        match required::<String>(member(json, "text"@)) {
            Some(text) => Some(ActivityView::ThinkDelta { text }),
            None => None,
        }
    } else if has_tag(json, "ThinkEnd"@) {
        match (
            required::<u64>(member(json, "think_duration_ms"@)),
            required::<u64>(member(json, "think_tokens"@)),
        ) {
            (Some(think_duration_ms), Some(think_tokens)) => Some(ActivityView::ThinkEnd { think_duration_ms, think_tokens }),
            _ => None,
        }
    } else if has_tag(json, "ToolStart"@) {
        match (
            required::<String>(member(json, "tool_call_id"@)),
            required::<String>(member(json, "name"@)),
            required::<Json>(member(json, "arguments"@)),
        ) {
            (Some(tool_call_id), Some(name), Some(arguments)) => Some(ActivityView::ToolStart { tool_call_id, name, arguments }),
            _ => None,
        }
    } else if has_tag(json, "ToolApprovalRequired"@) {
        match (
            required::<String>(member(json, "tool_call_id"@)),
            required::<String>(member(json, "name"@)),
            required::<Json>(member(json, "arguments"@)),
            optional::<String>(member(json, "reason"@)),
        ) {
            (
                Some(tool_call_id),
                Some(name),
                Some(arguments),
                Some(reason),
            ) => Some(ActivityView::ToolApprovalRequired { tool_call_id, name, arguments, reason }),
            _ => None,
        }
    } else if has_tag(json, "ToolCallDelta"@) {
        match (
            required::<u64>(member(json, "index"@)),
            optional::<String>(member(json, "tool_call_id"@)),
            optional::<String>(member(json, "name"@)),
            required::<String>(member(json, "arguments_delta"@)),
        ) {
            (
                Some(index),
                Some(tool_call_id),
                Some(name),
                Some(arguments_delta),
            ) => Some(ActivityView::ToolCallDelta { index, tool_call_id, name, arguments_delta }),
            _ => None,
        }
    } else if has_tag(json, "ToolOutput"@) {
        match (
            required::<String>(member(json, "tool_call_id"@)),
            required::<String>(member(json, "line"@)),
        ) {
            (Some(tool_call_id), Some(line)) => Some(ActivityView::ToolOutput { tool_call_id, line }),
            _ => None,
        }
    } else if has_tag(json, "InputRequired"@) {
        match (
            required::<String>(member(json, "prompt"@)),
            optional::<Json>(member(json, "schema"@)),
        ) {
            (Some(prompt), Some(schema)) => Some(ActivityView::InputRequired { prompt, schema }),
            _ => None,
        }
    } else if has_tag(json, "ToolFinish"@) {
        match (
            required::<String>(member(json, "tool_call_id"@)),
            required::<String>(member(json, "name"@)),
            required::<bool>(member(json, "is_error"@)),
            required::<u64>(member(json, "duration_ms"@)),
            optional::<i32>(member(json, "exit_code"@)),
        ) {
            (
                Some(tool_call_id),
                Some(name),
                Some(is_error),
                Some(duration_ms),
                Some(exit_code),
            ) => Some(ActivityView::ToolFinish { tool_call_id, name, is_error, duration_ms, exit_code }),
            _ => None,
        }
    } else if has_tag(json, "ChildSpawned"@) {
        match (
            required::<String>(member(json, "child_id"@)),
            required::<String>(member(json, "placement"@)),
            required::<String>(member(json, "task"@)),
        ) {
            (Some(child_id), Some(placement), Some(task)) => Some(ActivityView::ChildSpawned { child_id, placement, task }),
            _ => None,
        }
    } else if has_tag(json, "ChildFinished"@) {
        match (
            required::<String>(member(json, "child_id"@)),
            required::<String>(member(json, "placement"@)),
            required::<String>(member(json, "exit_reason"@)),
            required::<u64>(member(json, "duration_ms"@)),
            required::<u32>(member(json, "tool_uses"@)),
            required::<u64>(member(json, "token_count"@)),
        ) {
            (
                Some(child_id),
                Some(placement),
                Some(exit_reason),
                Some(duration_ms),
                Some(tool_uses),
                Some(token_count),
            ) => Some(ActivityView::ChildFinished {
                child_id,
                placement,
                exit_reason,
                duration_ms,
                tool_uses,
                token_count,
            }),
            _ => None,
        }
    } else if has_tag(json, "TurnComplete"@) {
        Some(ActivityView::TurnComplete)
    } else {
        None
    }
}

/// The members of each variant of an activity, the tag first.
pub open spec fn activity_shape(tag: Seq<char>) -> Option<(Seq<Seq<char>>, nat)> {
    if tag == "Token"@ {
        Some((seq!["type"@, "text"@], 2))
    } else if tag == "ThinkStart"@ {
        Some((seq!["type"@], 1))
    } else if tag == "ThinkDelta"@ {
        Some((seq!["type"@, "text"@], 2))
    } else if tag == "ThinkEnd"@ {
        Some((seq!["type"@, "think_duration_ms"@, "think_tokens"@], 3))
    } else if tag == "ToolStart"@ {
        Some((seq!["type"@, "tool_call_id"@, "name"@, "arguments"@], 4))
    } else if tag == "ToolApprovalRequired"@ {
        Some((seq!["type"@, "tool_call_id"@, "name"@, "arguments"@, "reason"@], 5))
    } else if tag == "ToolCallDelta"@ {
        Some((seq!["type"@, "index"@, "tool_call_id"@, "name"@, "arguments_delta"@], 5))
    } else if tag == "ToolOutput"@ {
        Some((seq!["type"@, "tool_call_id"@, "line"@], 3))
    } else if tag == "InputRequired"@ {
        Some((seq!["type"@, "prompt"@, "schema"@], 3))
    } else if tag == "ToolFinish"@ {
        Some((seq!["type"@, "tool_call_id"@, "name"@, "is_error"@, "duration_ms"@, "exit_code"@], 6))
    } else if tag == "ChildSpawned"@ {
        Some((seq!["type"@, "child_id"@, "placement"@, "task"@], 4))
    } else if tag == "ChildFinished"@ {
        Some((
            seq![
                "type"@,
                "child_id"@,
                "placement"@,
                "exit_reason"@,
                "duration_ms"@,
                "tool_uses"@,
                "token_count"@,
            ],
            7,
        ))
    } else if tag == "TurnComplete"@ {
        Some((seq!["type"@], 1))
    } else {
        None
    }
}

/// The object that stands for an activity, which may be written as the list of a tag and of the
/// values of the variant's members.
pub open spec fn activity_record(json: JsonView) -> JsonView {
    match leading_text(json) {
        Some(tag) => variant_of(json, activity_shape(tag)),
        None => json,
    }
}

/// The members of each variant of an activity, the tag first.
fn shape_of_activity(tag: &str) -> (r: Option<(Vec<String>, usize)>)
    ensures
        shape_view(r) == activity_shape(tag@),
{
    if *tag == *"Token" {
        let names: Vec<String> = vec![copy("type"), copy("text")];
        assert(texts(names@) =~= seq!["type"@, "text"@]);
        Some((names, 2))
    } else if *tag == *"ThinkStart" {
        let names: Vec<String> = vec![copy("type")];
        assert(texts(names@) =~= seq!["type"@]);
        Some((names, 1))
    } else if *tag == *"ThinkDelta" {
        let names: Vec<String> = vec![copy("type"), copy("text")];
        assert(texts(names@) =~= seq!["type"@, "text"@]);
        Some((names, 2))
    } else if *tag == *"ThinkEnd" {
        let names: Vec<String> = vec![copy("type"), copy("think_duration_ms"), copy("think_tokens")];
        assert(texts(names@) =~= seq!["type"@, "think_duration_ms"@, "think_tokens"@]);
        Some((names, 3))
    } else if *tag == *"ToolStart" {
        let names: Vec<String> = vec![copy("type"), copy("tool_call_id"), copy("name"), copy("arguments")];
        assert(texts(names@) =~= seq!["type"@, "tool_call_id"@, "name"@, "arguments"@]);
        Some((names, 4))
    } else if *tag == *"ToolApprovalRequired" {
        let names: Vec<String> = vec![
            copy("type"),
            copy("tool_call_id"),
            copy("name"),
            copy("arguments"),
            copy("reason"),
        ];
        assert(texts(names@) =~= seq!["type"@, "tool_call_id"@, "name"@, "arguments"@, "reason"@]);
        Some((names, 5))
    } else if *tag == *"ToolCallDelta" {
        let names: Vec<String> = vec![
            copy("type"),
            copy("index"),
            copy("tool_call_id"),
            copy("name"),
            copy("arguments_delta"),
        ];
        assert(texts(names@) =~= seq!["type"@, "index"@, "tool_call_id"@, "name"@, "arguments_delta"@]);
        Some((names, 5))
    } else if *tag == *"ToolOutput" {
        let names: Vec<String> = vec![copy("type"), copy("tool_call_id"), copy("line")];
        assert(texts(names@) =~= seq!["type"@, "tool_call_id"@, "line"@]);
        Some((names, 3))
    } else if *tag == *"InputRequired" {
        let names: Vec<String> = vec![copy("type"), copy("prompt"), copy("schema")];
        assert(texts(names@) =~= seq!["type"@, "prompt"@, "schema"@]);
        Some((names, 3))
    } else if *tag == *"ToolFinish" {
        let names: Vec<String> = vec![
            copy("type"),
            copy("tool_call_id"),
            copy("name"),
            copy("is_error"),
            copy("duration_ms"),
            copy("exit_code"),
        ];
        assert(texts(names@) =~= seq![
            "type"@,
            "tool_call_id"@,
            "name"@,
            "is_error"@,
            "duration_ms"@,
            "exit_code"@,
        ]);
        Some((names, 6))
    } else if *tag == *"ChildSpawned" {
        let names: Vec<String> = vec![copy("type"), copy("child_id"), copy("placement"), copy("task")];
        assert(texts(names@) =~= seq!["type"@, "child_id"@, "placement"@, "task"@]);
        Some((names, 4))
    } else if *tag == *"ChildFinished" {
        let names: Vec<String> = vec![
            copy("type"),
            copy("child_id"),
            copy("placement"),
            copy("exit_reason"),
            copy("duration_ms"),
            copy("tool_uses"),
            copy("token_count"),
        ];
        assert(texts(names@) =~= seq![
            "type"@,
            "child_id"@,
            "placement"@,
            "exit_reason"@,
            "duration_ms"@,
            "tool_uses"@,
            "token_count"@,
        ]);
        Some((names, 7))
    } else if *tag == *"TurnComplete" {
        let names: Vec<String> = vec![copy("type")];
        assert(texts(names@) =~= seq!["type"@]);
        Some((names, 1))
    } else {
        None
    }
}

/// The object that a list stands for, where it stands for an activity.
fn record_of_activity(json: &Json) -> (r: Option<Json>)
    ensures
        match r {
            Some(record) => record@ == activity_record(json@),
            None => json@ == activity_record(json@),
        },
{
    match list_tag(json) {
        Some(tag) => as_variant(json, &shape_of_activity(tag.as_str())),
        None => None,
    }
}

/// What is wrong with the members of an activity.
pub open spec fn activity_fault(json: JsonView) -> Option<Seq<char>> {
    if has_tag(json, "Token"@) {
        required_fault::<String>(json, "text"@)
    } else if has_tag(json, "ThinkStart"@) {
        None
    } else if has_tag(json, "ThinkDelta"@) {
        required_fault::<String>(json, "text"@)
    } else if has_tag(json, "ThinkEnd"@) {
        first(
            required_fault::<u64>(json, "think_duration_ms"@),
            required_fault::<u64>(json, "think_tokens"@),
        )
    } else if has_tag(json, "ToolStart"@) {
        first(
            required_fault::<String>(json, "tool_call_id"@),
            first(
                required_fault::<String>(json, "name"@),
                required_fault::<Json>(json, "arguments"@),
            ),
        )
    } else if has_tag(json, "ToolApprovalRequired"@) {
        first(
            required_fault::<String>(json, "tool_call_id"@),
            first(
                required_fault::<String>(json, "name"@),
                first(
                    required_fault::<Json>(json, "arguments"@),
                    optional_fault::<String>(json, "reason"@),
                ),
            ),
        )
    } else if has_tag(json, "ToolCallDelta"@) {
        first(
            required_fault::<u64>(json, "index"@),
            first(
                optional_fault::<String>(json, "tool_call_id"@),
                first(
                    optional_fault::<String>(json, "name"@),
                    required_fault::<String>(json, "arguments_delta"@),
                ),
            ),
        )
    } else if has_tag(json, "ToolOutput"@) {
        first(
            required_fault::<String>(json, "tool_call_id"@),
            required_fault::<String>(json, "line"@),
        )
    } else if has_tag(json, "InputRequired"@) {
        first(
            required_fault::<String>(json, "prompt"@),
            optional_fault::<Json>(json, "schema"@),
        )
    } else if has_tag(json, "ToolFinish"@) {
        first(
            required_fault::<String>(json, "tool_call_id"@),
            first(
                required_fault::<String>(json, "name"@),
                first(
                    required_fault::<bool>(json, "is_error"@),
                    first(
                        required_fault::<u64>(json, "duration_ms"@),
                        optional_fault::<i32>(json, "exit_code"@),
                    ),
                ),
            ),
        )
    } else if has_tag(json, "ChildSpawned"@) {
        first(
            required_fault::<String>(json, "child_id"@),
            first(
                required_fault::<String>(json, "placement"@),
                required_fault::<String>(json, "task"@),
            ),
        )
    } else if has_tag(json, "ChildFinished"@) {
        first(
            required_fault::<String>(json, "child_id"@),
            first(
                required_fault::<String>(json, "placement"@),
                first(
                    required_fault::<String>(json, "exit_reason"@),
                    first(
                        required_fault::<u64>(json, "duration_ms"@),
                        first(
                            required_fault::<u32>(json, "tool_uses"@),
                            required_fault::<u64>(json, "token_count"@),
                        ),
                    ),
                ),
            ),
        )
    } else if has_tag(json, "TurnComplete"@) {
        None
    } else {
        Some(tag_fault(json, "type"@))
    }
}

/// Finds what is wrong with the members of an activity.
fn find_activity_fault(json: &Json) -> (r: Option<String>)
    ensures
        opt_text(r) == activity_fault(json@),
{
    let tag = match json.get("type") {
        Some(Json::Text(tag)) => tag.as_str(),
        _ => {
            return Some(find_tag_fault(json, "type"));
        },
    };
    if *tag == *"Token" {
        find_required_fault::<String>(json, "text")
    } else if *tag == *"ThinkStart" {
        None
    } else if *tag == *"ThinkDelta" {
        find_required_fault::<String>(json, "text")
    } else if *tag == *"ThinkEnd" {
        let fault = find_required_fault::<u64>(json, "think_duration_ms");
        if fault.is_some() {
            return fault;
        }
        find_required_fault::<u64>(json, "think_tokens")
    } else if *tag == *"ToolStart" {
        let fault = find_required_fault::<String>(json, "tool_call_id");
        if fault.is_some() {
            return fault;
        }
        let fault = find_required_fault::<String>(json, "name");
        if fault.is_some() {
            return fault;
        }
        find_required_fault::<Json>(json, "arguments")
    } else if *tag == *"ToolApprovalRequired" {
        let fault = find_required_fault::<String>(json, "tool_call_id");
        if fault.is_some() {
            return fault;
        }
        let fault = find_required_fault::<String>(json, "name");
        if fault.is_some() {
            return fault;
        }
        let fault = find_required_fault::<Json>(json, "arguments");
        if fault.is_some() {
            return fault;
        }
        find_optional_fault::<String>(json, "reason")
    } else if *tag == *"ToolCallDelta" {
        let fault = find_required_fault::<u64>(json, "index");
        if fault.is_some() {
            return fault;
        }
        let fault = find_optional_fault::<String>(json, "tool_call_id");
        if fault.is_some() {
            return fault;
        }
        let fault = find_optional_fault::<String>(json, "name");
        if fault.is_some() {
            return fault;
        }
        find_required_fault::<String>(json, "arguments_delta")
    } else if *tag == *"ToolOutput" {
        let fault = find_required_fault::<String>(json, "tool_call_id");
        if fault.is_some() {
            return fault;
        }
        find_required_fault::<String>(json, "line")
    } else if *tag == *"InputRequired" {
        let fault = find_required_fault::<String>(json, "prompt");
        if fault.is_some() {
            return fault;
        }
        find_optional_fault::<Json>(json, "schema")
    } else if *tag == *"ToolFinish" {
        let fault = find_required_fault::<String>(json, "tool_call_id");
        if fault.is_some() {
            return fault;
        }
        let fault = find_required_fault::<String>(json, "name");
        if fault.is_some() {
            return fault;
        }
        let fault = find_required_fault::<bool>(json, "is_error");
        if fault.is_some() {
            return fault;
        }
        let fault = find_required_fault::<u64>(json, "duration_ms");
        if fault.is_some() {
            return fault;
        }
        find_optional_fault::<i32>(json, "exit_code")
    } else if *tag == *"ChildSpawned" {
        let fault = find_required_fault::<String>(json, "child_id");
        if fault.is_some() {
            return fault;
        }
        let fault = find_required_fault::<String>(json, "placement");
        if fault.is_some() {
            return fault;
        }
        find_required_fault::<String>(json, "task")
    } else if *tag == *"ChildFinished" {
        let fault = find_required_fault::<String>(json, "child_id");
        if fault.is_some() {
            return fault;
        }
        let fault = find_required_fault::<String>(json, "placement");
        if fault.is_some() {
            return fault;
        }
        let fault = find_required_fault::<String>(json, "exit_reason");
        if fault.is_some() {
            return fault;
        }
        let fault = find_required_fault::<u64>(json, "duration_ms");
        if fault.is_some() {
            return fault;
        }
        let fault = find_required_fault::<u32>(json, "tool_uses");
        if fault.is_some() {
            return fault;
        }
        find_required_fault::<u64>(json, "token_count")
    } else if *tag == *"TurnComplete" {
        None
    } else {
        Some(find_tag_fault(json, "type"))
    }
}

/// What a JSON value says of an activity, where it says something: an object, or the list of
/// a tag and of the values of the members.
pub open spec fn dec_activity(json: JsonView) -> Option<ActivityView>
    decreases json,
{
    match json {
        JsonView::Array(items) => if leading_text(json) == Some("ChildActivity"@) {
            if items.len() == 4 {
                match (String::dec(items[1]), String::dec(items[2]), dec_activity(items[3])) {
                    (Some(child_id), Some(placement), Some(e)) => Some(
                        ActivityView::ChildActivity { child_id, placement, event: Box::new(e) },
                    ),
                    _ => None,
                }
            } else {
                None
            }
        } else {
            activity_value(activity_record(json))
        },
        _ => if has_tag(json, "ChildActivity"@) {
            match (
                required::<String>(member(json, "child_id"@)),
                required::<String>(member(json, "placement"@)),
                member(json, "event"@),
            ) {
                (Some(child_id), Some(placement), Some(event)) => match dec_activity(event) {
                    Some(e) => Some(ActivityView::ChildActivity { child_id, placement, event: Box::new(e) }),
                    None => None,
                },
                _ => None,
            }
        } else {
            activity_value(json)
        },
    }
}

/// What is wrong with an activity that is said to be in a member.
pub open spec fn event_fault(json: JsonView, complaint: Seq<char>) -> Option<Seq<char>> {
    if dec_activity(json) is Some {
        None
    } else {
        Some(within("event"@, complaint))
    }
}

/// What is wrong with JSON that says nothing of an activity.
pub open spec fn activity_complaint(json: JsonView) -> Seq<char>
    decreases json,
{
    match json {
        JsonView::Array(items) => if leading_text(json) == Some("ChildActivity"@) {
            if items.len() == 4 {
                said(
                    first(
                        value_fault::<String>(items[1], "child_id"@),
                        first(
                            value_fault::<String>(items[2], "placement"@),
                            event_fault(items[3], activity_complaint(items[3])),
                        ),
                    ),
                )
            } else {
                "expected an object"@
            }
        } else {
            said(activity_fault(activity_record(json)))
        },
        _ => if has_tag(json, "ChildActivity"@) {
            said(
                first(
                    required_fault::<String>(json, "child_id"@),
                    first(
                        required_fault::<String>(json, "placement"@),
                        match member(json, "event"@) {
                            Some(event) => event_fault(event, activity_complaint(event)),
                            None => Some(missing("event"@)),
                        },
                    ),
                ),
            )
        } else {
            said(activity_fault(json))
        },
    }
}

/// The names of the variants differ.
pub proof fn lemma_activity_tags()
    ensures
        mark("Token"@) == 5_084_107_110,
        mark("ThinkStart"@) == 10_084_083_116,
        mark("ThinkDelta"@) == 10_084_068_097,
        mark("ThinkEnd"@) == 8_084_107_100,
        mark("ToolStart"@) == 9_084_083_116,
        mark("ToolApprovalRequired"@) == 20_084_097_100,
        mark("ToolCallDelta"@) == 13_084_108_097,
        mark("ToolOutput"@) == 10_084_117_116,
        mark("InputRequired"@) == 13_073_101_100,
        mark("ToolFinish"@) == 10_084_105_104,
        mark("ChildSpawned"@) == 12_067_112_100,
        mark("ChildActivity"@) == 13_067_099_121,
        mark("ChildFinished"@) == 13_067_105_100,
        mark("TurnComplete"@) == 12_084_109_101,
{
    reveal_strlit("Token");
    reveal_strlit("ThinkStart");
    reveal_strlit("ThinkDelta");
    reveal_strlit("ThinkEnd");
    reveal_strlit("ToolStart");
    reveal_strlit("ToolApprovalRequired");
    reveal_strlit("ToolCallDelta");
    reveal_strlit("ToolOutput");
    reveal_strlit("InputRequired");
    reveal_strlit("ToolFinish");
    reveal_strlit("ChildSpawned");
    reveal_strlit("ChildActivity");
    reveal_strlit("ChildFinished");
    reveal_strlit("TurnComplete");
}

/// The names of the members differ.
pub proof fn lemma_activity_fields()
    ensures
        mark("type"@) == 4_116_112_101,
        mark("text"@) == 4_116_120_116,
        mark("think_duration_ms"@) == 17_116_114_115,
        mark("think_tokens"@) == 12_116_116_115,
        mark("tool_call_id"@) == 12_116_097_100,
        mark("name"@) == 4_110_109_101,
        mark("arguments"@) == 9_097_109_115,
        mark("reason"@) == 6_114_115_110,
        mark("index"@) == 5_105_100_120,
        mark("arguments_delta"@) == 15_097_116_097,
        mark("line"@) == 4_108_110_101,
        mark("prompt"@) == 6_112_109_116,
        mark("schema"@) == 6_115_101_097,
        mark("is_error"@) == 8_105_114_114,
        mark("duration_ms"@) == 11_100_105_115,
        mark("exit_code"@) == 9_101_095_101,
        mark("child_id"@) == 8_099_100_100,
        mark("placement"@) == 9_112_101_116,
        mark("task"@) == 4_116_115_107,
        mark("event"@) == 5_101_101_116,
        mark("exit_reason"@) == 11_101_114_110,
        mark("tool_uses"@) == 9_116_095_115,
        mark("token_count"@) == 11_116_095_116,
{
    reveal_strlit("type");
    reveal_strlit("text");
    reveal_strlit("think_duration_ms");
    reveal_strlit("think_tokens");
    reveal_strlit("tool_call_id");
    reveal_strlit("name");
    reveal_strlit("arguments");
    reveal_strlit("reason");
    reveal_strlit("index");
    reveal_strlit("arguments_delta");
    reveal_strlit("line");
    reveal_strlit("prompt");
    reveal_strlit("schema");
    reveal_strlit("is_error");
    reveal_strlit("duration_ms");
    reveal_strlit("exit_code");
    reveal_strlit("child_id");
    reveal_strlit("placement");
    reveal_strlit("task");
    reveal_strlit("event");
    reveal_strlit("exit_reason");
    reveal_strlit("tool_uses");
    reveal_strlit("token_count");
}

/// The value reads back as it was written down. An optional value that is null reads
/// back as missing.
pub open spec fn stable_activity(v: ActivityView) -> bool
    decreases v,
{
    match v {
        ActivityView::InputRequired { prompt, schema } => schema != Some(JsonView::Null),
        ActivityView::ChildActivity { child_id, placement, event } => stable_activity(*event),
        _ => true,
    }
}

/// What was written down of an activity reads back as it was.
pub proof fn activity_round_trip(v: ActivityView)
    requires
        stable_activity(v),
    ensures
        dec_activity(enc_activity(v)) == Some(v),
    decreases v,
{
    lemma_activity_tags();
    lemma_activity_fields();
    let json = enc_activity(v);
    match v {
        ActivityView::Token { text } => {
            assert(has_tag(json, "Token"@));
            assert(member(json, "text"@) == Some(String::enc(text)));
        },
        ActivityView::ThinkStart => {
            assert(has_tag(json, "ThinkStart"@));
        },
        ActivityView::ThinkDelta { text } => {
            assert(has_tag(json, "ThinkDelta"@));
            assert(member(json, "text"@) == Some(String::enc(text)));
        },
        ActivityView::ThinkEnd { think_duration_ms, think_tokens } => {
            assert(has_tag(json, "ThinkEnd"@));
            assert(member(json, "think_duration_ms"@) == Some(u64::enc(think_duration_ms)));
            assert(member(json, "think_tokens"@) == Some(u64::enc(think_tokens)));
        },
        ActivityView::ToolStart { tool_call_id, name, arguments } => {
            assert(has_tag(json, "ToolStart"@));
            assert(member(json, "tool_call_id"@) == Some(String::enc(tool_call_id)));
            assert(member(json, "name"@) == Some(String::enc(name)));
            assert(member(json, "arguments"@) == Some(Json::enc(arguments)));
        },
        ActivityView::ToolApprovalRequired { tool_call_id, name, arguments, reason } => {
            assert(has_tag(json, "ToolApprovalRequired"@));
            assert(member(json, "tool_call_id"@) == Some(String::enc(tool_call_id)));
            assert(member(json, "name"@) == Some(String::enc(name)));
            assert(member(json, "arguments"@) == Some(Json::enc(arguments)));
            assert(member(json, "reason"@) == Some(enc_optional::<String>(reason)));
        },
        ActivityView::ToolCallDelta { index, tool_call_id, name, arguments_delta } => {
            assert(has_tag(json, "ToolCallDelta"@));
            assert(member(json, "index"@) == Some(u64::enc(index)));
            assert(member(json, "tool_call_id"@) == Some(enc_optional::<String>(tool_call_id)));
            assert(member(json, "name"@) == Some(enc_optional::<String>(name)));
            assert(member(json, "arguments_delta"@) == Some(String::enc(arguments_delta)));
        },
        ActivityView::ToolOutput { tool_call_id, line } => {
            assert(has_tag(json, "ToolOutput"@));
            assert(member(json, "tool_call_id"@) == Some(String::enc(tool_call_id)));
            assert(member(json, "line"@) == Some(String::enc(line)));
        },
        ActivityView::InputRequired { prompt, schema } => {
            assert(has_tag(json, "InputRequired"@));
            assert(member(json, "prompt"@) == Some(String::enc(prompt)));
            assert(member(json, "schema"@) == Some(enc_optional::<Json>(schema)));
        },
        ActivityView::ToolFinish { tool_call_id, name, is_error, duration_ms, exit_code } => {
            assert(has_tag(json, "ToolFinish"@));
            assert(member(json, "tool_call_id"@) == Some(String::enc(tool_call_id)));
            assert(member(json, "name"@) == Some(String::enc(name)));
            assert(member(json, "is_error"@) == Some(bool::enc(is_error)));
            assert(member(json, "duration_ms"@) == Some(u64::enc(duration_ms)));
            assert(member(json, "exit_code"@) == Some(enc_optional::<i32>(exit_code)));
            if let Some(n) = exit_code {
                i32::round_trip(n);
            }
        },
        ActivityView::ChildSpawned { child_id, placement, task } => {
            assert(has_tag(json, "ChildSpawned"@));
            assert(member(json, "child_id"@) == Some(String::enc(child_id)));
            assert(member(json, "placement"@) == Some(String::enc(placement)));
            assert(member(json, "task"@) == Some(String::enc(task)));
        },
        ActivityView::ChildActivity { child_id, placement, event } => {
            assert(has_tag(json, "ChildActivity"@));
            assert(member(json, "child_id"@) == Some(String::enc(child_id)));
            assert(member(json, "placement"@) == Some(String::enc(placement)));
            assert(member(json, "event"@) == Some(enc_activity(*event)));
            activity_round_trip(*event);
        },
        ActivityView::ChildFinished {
            child_id,
            placement,
            exit_reason,
            duration_ms,
            tool_uses,
            token_count,
        } => {
            assert(has_tag(json, "ChildFinished"@));
            assert(member(json, "child_id"@) == Some(String::enc(child_id)));
            assert(member(json, "placement"@) == Some(String::enc(placement)));
            assert(member(json, "exit_reason"@) == Some(String::enc(exit_reason)));
            assert(member(json, "duration_ms"@) == Some(u64::enc(duration_ms)));
            assert(member(json, "tool_uses"@) == Some(u32::enc(tool_uses)));
            assert(member(json, "token_count"@) == Some(u64::enc(token_count)));
        },
        ActivityView::TurnComplete => {
            assert(has_tag(json, "TurnComplete"@));
        },
    }
}

/// Reads the members of an activity that holds no other one.
fn read_activity_value(json: &Json) -> (r: Option<ActivityEvent>)
    ensures
        view_of(r) == activity_value(json@),
{
    let tag = match json.get("type") {
        Some(Json::Text(tag)) => tag.as_str(),
        _ => {
            return None;
        },
    };
    if *tag == *"Token" {
        match required_field::<String>(json, "text") {
            Some(text) => Some(ActivityEvent::Token { text }),
            None => None,
        }
    } else if *tag == *"ThinkStart" {
        Some(ActivityEvent::ThinkStart)
    } else if *tag == *"ThinkDelta" {
        match required_field::<String>(json, "text") {
            Some(text) => Some(ActivityEvent::ThinkDelta { text }),
            None => None,
        }
    } else if *tag == *"ThinkEnd" {
        match (
            required_field::<u64>(json, "think_duration_ms"),
            required_field::<u64>(json, "think_tokens"),
        ) {
            (Some(think_duration_ms), Some(think_tokens)) => Some(ActivityEvent::ThinkEnd { think_duration_ms, think_tokens }),
            _ => None,
        }
    } else if *tag == *"ToolStart" {
        match (
            required_field::<String>(json, "tool_call_id"),
            required_field::<String>(json, "name"),
            required_field::<Json>(json, "arguments"),
        ) {
            (Some(tool_call_id), Some(name), Some(arguments)) => Some(ActivityEvent::ToolStart { tool_call_id, name, arguments }),
            _ => None,
        }
    } else if *tag == *"ToolApprovalRequired" {
        match (
            required_field::<String>(json, "tool_call_id"),
            required_field::<String>(json, "name"),
            required_field::<Json>(json, "arguments"),
            optional_field::<String>(json, "reason"),
        ) {
            (
                Some(tool_call_id),
                Some(name),
                Some(arguments),
                Some(reason),
            ) => Some(ActivityEvent::ToolApprovalRequired { tool_call_id, name, arguments, reason }),
            _ => None,
        }
    } else if *tag == *"ToolCallDelta" {
        match (
            required_field::<u64>(json, "index"),
            optional_field::<String>(json, "tool_call_id"),
            optional_field::<String>(json, "name"),
            required_field::<String>(json, "arguments_delta"),
        ) {
            (
                Some(index),
                Some(tool_call_id),
                Some(name),
                Some(arguments_delta),
            ) => Some(ActivityEvent::ToolCallDelta { index, tool_call_id, name, arguments_delta }),
            _ => None,
        }
    } else if *tag == *"ToolOutput" {
        match (
            required_field::<String>(json, "tool_call_id"),
            required_field::<String>(json, "line"),
        ) {
            (Some(tool_call_id), Some(line)) => Some(ActivityEvent::ToolOutput { tool_call_id, line }),
            _ => None,
        }
    } else if *tag == *"InputRequired" {
        match (
            required_field::<String>(json, "prompt"),
            optional_field::<Json>(json, "schema"),
        ) {
            (Some(prompt), Some(schema)) => Some(ActivityEvent::InputRequired { prompt, schema }),
            _ => None,
        }
    } else if *tag == *"ToolFinish" {
        match (
            required_field::<String>(json, "tool_call_id"),
            required_field::<String>(json, "name"),
            required_field::<bool>(json, "is_error"),
            required_field::<u64>(json, "duration_ms"),
            optional_field::<i32>(json, "exit_code"),
        ) {
            (
                Some(tool_call_id),
                Some(name),
                Some(is_error),
                Some(duration_ms),
                Some(exit_code),
            ) => Some(ActivityEvent::ToolFinish { tool_call_id, name, is_error, duration_ms, exit_code }),
            _ => None,
        }
    } else if *tag == *"ChildSpawned" {
        match (
            required_field::<String>(json, "child_id"),
            required_field::<String>(json, "placement"),
            required_field::<String>(json, "task"),
        ) {
            (Some(child_id), Some(placement), Some(task)) => Some(ActivityEvent::ChildSpawned { child_id, placement, task }),
            _ => None,
        }
    } else if *tag == *"ChildFinished" {
        match (
            required_field::<String>(json, "child_id"),
            required_field::<String>(json, "placement"),
            required_field::<String>(json, "exit_reason"),
            required_field::<u64>(json, "duration_ms"),
            required_field::<u32>(json, "tool_uses"),
            required_field::<u64>(json, "token_count"),
        ) {
            (
                Some(child_id),
                Some(placement),
                Some(exit_reason),
                Some(duration_ms),
                Some(tool_uses),
                Some(token_count),
            ) => Some(ActivityEvent::ChildFinished {
                child_id,
                placement,
                exit_reason,
                duration_ms,
                tool_uses,
                token_count,
            }),
            _ => None,
        }
    } else if *tag == *"TurnComplete" {
        Some(ActivityEvent::TurnComplete)
    } else {
        None
    }
}

impl Coded for ActivityEvent {
    open spec fn stable(v: ActivityView) -> bool {
        stable_activity(v)
    }

    open spec fn enc(v: ActivityView) -> JsonView {
        enc_activity(v)
    }

    open spec fn dec(json: JsonView) -> Option<ActivityView> {
        dec_activity(json)
    }

    open spec fn complaint(json: JsonView) -> Seq<char> {
        activity_complaint(json)
    }

    proof fn round_trip(v: ActivityView) {
        activity_round_trip(v);
    }

    fn to_json(&self) -> (r: Json)
        decreases self,
    {
        let mut m: Vec<(String, Json)> = Vec::new();
        match self {
            ActivityEvent::Token { text } => {
                put(&mut m, "type", Json::text("Token"));
                put(&mut m, "text", text.to_json());
            },
            ActivityEvent::ThinkStart => {
                put(&mut m, "type", Json::text("ThinkStart"));
            },
            ActivityEvent::ThinkDelta { text } => {
                put(&mut m, "type", Json::text("ThinkDelta"));
                put(&mut m, "text", text.to_json());
            },
            ActivityEvent::ThinkEnd { think_duration_ms, think_tokens } => {
                put(&mut m, "type", Json::text("ThinkEnd"));
                put(&mut m, "think_duration_ms", think_duration_ms.to_json());
                put(&mut m, "think_tokens", think_tokens.to_json());
            },
            ActivityEvent::ToolStart { tool_call_id, name, arguments } => {
                put(&mut m, "type", Json::text("ToolStart"));
                put(&mut m, "tool_call_id", tool_call_id.to_json());
                put(&mut m, "name", name.to_json());
                put(&mut m, "arguments", arguments.to_json());
            },
            ActivityEvent::ToolApprovalRequired { tool_call_id, name, arguments, reason } => {
                put(&mut m, "type", Json::text("ToolApprovalRequired"));
                put(&mut m, "tool_call_id", tool_call_id.to_json());
                put(&mut m, "name", name.to_json());
                put(&mut m, "arguments", arguments.to_json());
                put(&mut m, "reason", optional_to_json(reason));
            },
            ActivityEvent::ToolCallDelta { index, tool_call_id, name, arguments_delta } => {
                put(&mut m, "type", Json::text("ToolCallDelta"));
                put(&mut m, "index", index.to_json());
                put(&mut m, "tool_call_id", optional_to_json(tool_call_id));
                put(&mut m, "name", optional_to_json(name));
                put(&mut m, "arguments_delta", arguments_delta.to_json());
            },
            ActivityEvent::ToolOutput { tool_call_id, line } => {
                put(&mut m, "type", Json::text("ToolOutput"));
                put(&mut m, "tool_call_id", tool_call_id.to_json());
                put(&mut m, "line", line.to_json());
            },
            ActivityEvent::InputRequired { prompt, schema } => {
                put(&mut m, "type", Json::text("InputRequired"));
                put(&mut m, "prompt", prompt.to_json());
                put(&mut m, "schema", optional_to_json(schema));
            },
            ActivityEvent::ToolFinish { tool_call_id, name, is_error, duration_ms, exit_code } => {
                put(&mut m, "type", Json::text("ToolFinish"));
                put(&mut m, "tool_call_id", tool_call_id.to_json());
                put(&mut m, "name", name.to_json());
                put(&mut m, "is_error", is_error.to_json());
                put(&mut m, "duration_ms", duration_ms.to_json());
                put(&mut m, "exit_code", optional_to_json(exit_code));
            },
            ActivityEvent::ChildSpawned { child_id, placement, task } => {
                put(&mut m, "type", Json::text("ChildSpawned"));
                put(&mut m, "child_id", child_id.to_json());
                put(&mut m, "placement", placement.to_json());
                put(&mut m, "task", task.to_json());
            },
            ActivityEvent::ChildActivity { child_id, placement, event } => {
                put(&mut m, "type", Json::text("ChildActivity"));
                put(&mut m, "child_id", child_id.to_json());
                put(&mut m, "placement", placement.to_json());
                put(&mut m, "event", event.to_json());
            },
            ActivityEvent::ChildFinished {
                child_id,
                placement,
                exit_reason,
                duration_ms,
                tool_uses,
                token_count,
            } => {
                put(&mut m, "type", Json::text("ChildFinished"));
                put(&mut m, "child_id", child_id.to_json());
                put(&mut m, "placement", placement.to_json());
                put(&mut m, "exit_reason", exit_reason.to_json());
                put(&mut m, "duration_ms", duration_ms.to_json());
                put(&mut m, "tool_uses", tool_uses.to_json());
                put(&mut m, "token_count", token_count.to_json());
            },
            ActivityEvent::TurnComplete => {
                put(&mut m, "type", Json::text("TurnComplete"));
            },
        }
        Json::Object(m)
    }

    fn read(json: &Json) -> (r: Option<Self>)
        decreases json,
    {
        match json {
            Json::Array(items) => {
                proof {
                    lemma_item_views(items@);
                }
                let child = match list_tag(json) {
                    Some(tag) => *tag.as_str() == *"ChildActivity",
                    None => false,
                };
                if child {
                    if items.len() != 4 {
                        return None;
                    }
                    let event = &items[3];
                    proof {
                        assert(decreases_to!(*json => json->Array_0));
                        assert(decreases_to!(*items => items@));
                        assert(decreases_to!(items@ => items@[3]));
                    }
                    match (String::read(&items[1]), String::read(&items[2]), ActivityEvent::read(event)) {
                        (Some(child_id), Some(placement), Some(e)) => Some(
                            ActivityEvent::ChildActivity { child_id, placement, event: Box::new(e) },
                        ),
                        _ => None,
                    }
                } else {
                    match record_of_activity(json) {
                        Some(record) => read_activity_value(&record),
                        None => read_activity_value(json),
                    }
                }
            },
            _ => {
                let child = match json.get("type") {
                    Some(Json::Text(tag)) => *tag.as_str() == *"ChildActivity",
                    _ => false,
                };
                if child {
                    match (
                        required_field::<String>(json, "child_id"),
                        required_field::<String>(json, "placement"),
                        json.get("event"),
                    ) {
                        (Some(child_id), Some(placement), Some(event)) => {
                            match ActivityEvent::read(event) {
                                Some(e) => Some(ActivityEvent::ChildActivity { child_id, placement, event: Box::new(e) }),
                                None => None,
                            }
                        },
                        _ => None,
                    }
                } else {
                    read_activity_value(json)
                }
            },
        }
    }

    fn complain(json: &Json) -> (r: String)
        decreases json,
    {
        match json {
            Json::Array(items) => {
                proof {
                    lemma_item_views(items@);
                }
                let child = match list_tag(json) {
                    Some(tag) => *tag.as_str() == *"ChildActivity",
                    None => false,
                };
                if child {
                    if items.len() != 4 {
                        return copy("expected an object");
                    }
                    let fault = find_value_fault::<String>(&items[1], "child_id");
                    if fault.is_some() {
                        return tell(fault);
                    }
                    let fault = find_value_fault::<String>(&items[2], "placement");
                    if fault.is_some() {
                        return tell(fault);
                    }
                    let event = &items[3];
                    proof {
                        assert(decreases_to!(*json => json->Array_0));
                        assert(decreases_to!(*items => items@));
                        assert(decreases_to!(items@ => items@[3]));
                    }
                    match ActivityEvent::read(event) {
                        Some(_) => tell(None),
                        None => {
                            let e = ActivityEvent::complain(event);
                            say_within("event", e.as_str())
                        },
                    }
                } else {
                    match record_of_activity(json) {
                        Some(record) => tell(find_activity_fault(&record)),
                        None => tell(find_activity_fault(json)),
                    }
                }
            },
            _ => {
                let child = match json.get("type") {
                    Some(Json::Text(tag)) => *tag.as_str() == *"ChildActivity",
                    _ => false,
                };
                if child {
                    let fault = find_required_fault::<String>(json, "child_id");
                    if fault.is_some() {
                        return tell(fault);
                    }
                    let fault = find_required_fault::<String>(json, "placement");
                    if fault.is_some() {
                        return tell(fault);
                    }
                    match json.get("event") {
                        Some(event) => match ActivityEvent::read(event) {
                            Some(_) => tell(None),
                            None => {
                                let e = ActivityEvent::complain(event);
                                say_within("event", e.as_str())
                            },
                        },
                        None => say_missing("event"),
                    }
                } else {
                    tell(find_activity_fault(json))
                }
            },
        }
    }
}

/// An activity that holds no other one is refused where something is wrong with it, and only
/// there.
pub proof fn refused_activities_are_explained(json: JsonView)
    ensures
        activity_fault(json) is Some <==> activity_value(json) is None,
{
}

} // verus!
