//! Laws of how the values of the library are written as JSON, and what is read of it.
use crate::coding::{dec_list, enc_list, Coded};
use crate::json::{Json, JsonView};
use crate::record::record_map;
use crate::types::ExitReason;
use crate::types::budget::{cost_text, Cost, ResourceBudget};
use crate::types::capability::{CapabilityDenied, CapabilityToken, DeniedView, NetworkPermission, PathPattern, TokenView};
use crate::types::event_laws::text_or_null;
use crate::types::forms::capability::no_memory;
use crate::types::forms::exit::ExitView;
use crate::types::forms::journal::CheckpointView;
use crate::types::forms::memory::LocatorView;
use crate::types::forms::provider::{ResponseView, StreamEventView};
use crate::types::forms::tool::ToolResultView;
use crate::types::forms::vfs::SnapshotView;
use crate::types::journal::CheckpointData;
use crate::types::memory::{HitId, Locator, MemoryCapability, MemoryCapabilityView, MemoryPath, MemoryVersion, TenantId};
use crate::types::message::{AgentId, Message, TokenUsage, ToolCallView};
use crate::types::provider::{FinishReason, ProviderResponse, ProviderStreamEvent};
use crate::types::tool::{DefinitionView, ToolCall, ToolDefinition, ToolOutput, ToolOutputView, ToolResult};
use crate::types::vfs::{FsMetadata, VfsEvent, VfsEventView, VfsSnapshot};
use vstd::prelude::*;

verus! {

broadcast use vstd::seq_lib::group_seq_properties;

/// The record of items is the map that they were taken from.
pub proof fn lemma_record_of(names: Seq<Seq<char>>, items: Seq<JsonView>, m: Map<Seq<char>, JsonView>)
    requires
        names.len() == items.len(),
        forall|i: int| 0 <= i < names.len() ==> m.contains_key(#[trigger] names[i]) && items[i] == m[names[i]],
        forall|k: Seq<char>| #[trigger] m.contains_key(k) ==> exists|i: int| 0 <= i < names.len() && names[i] == k,
    ensures
        record_map(names, items) == m,
{
    lemma_partial_record(names, items, m);
    assert(record_map(names, items) =~= m);
}

proof fn lemma_partial_record(names: Seq<Seq<char>>, items: Seq<JsonView>, m: Map<Seq<char>, JsonView>)
    requires
        items.len() <= names.len(),
        forall|i: int| 0 <= i < items.len() ==> items[i] == m[#[trigger] names[i]],
    ensures
        forall|k: Seq<char>| #[trigger]
            record_map(names, items).contains_key(k) ==> record_map(names, items)[k] == m[k] && exists|i: int|
                0 <= i < items.len() && names[i] == k,
        forall|i: int| 0 <= i < items.len() ==> record_map(names, items).contains_key(#[trigger] names[i]),
    decreases items.len(),
{
    if items.len() > 0 {
        lemma_partial_record(names, items.drop_last(), m);
        let n = items.len() - 1;
        assert(items[n] == m[names[n]]);
        let (was, now) = (record_map(names, items.drop_last()), record_map(names, items));
        assert(now == was.insert(names[n], items[n]));
        assert forall|k: Seq<char>| #[trigger] now.contains_key(k) implies now[k] == m[k] && exists|i: int|
            0 <= i < items.len() && names[i] == k by {
            if k != names[n] {
                assert(was.contains_key(k));
                let i = choose|i: int| 0 <= i < items.drop_last().len() && names[i] == k;
                assert(names[i] == k);
            } else {
                assert(names[n] == k);
            }
        }
        assert forall|i: int| 0 <= i < items.len() implies now.contains_key(#[trigger] names[i]) by {
            assert(i < n ==> was.contains_key(names[i]));
        }
    }
}

/// A budget is written by the names of its members.
pub proof fn budgets_are_written_by_name(v: ResourceBudget)
    ensures
        ResourceBudget::enc(v) matches JsonView::Object(w) && {
            &&& w.dom() == set!["max_tokens"@, "max_turns"@, "max_cost"@, "max_sub_agents"@, "max_vfs_bytes"@, "used_tokens"@, "used_turns"@, "used_cost"@, "used_sub_agents"@, "used_vfs_bytes"@, "max_fuel"@, "used_fuel"@]
            &&& w["max_tokens"@] == JsonView::Unsigned(v.max_tokens)
            &&& w["max_turns"@] == JsonView::Unsigned(v.max_turns as u64)
            &&& w["max_cost"@] == Cost::enc(v.max_cost)
            &&& w["max_sub_agents"@] == JsonView::Unsigned(v.max_sub_agents as u64)
            &&& w["max_vfs_bytes"@] == JsonView::Unsigned(v.max_vfs_bytes)
            &&& w["used_tokens"@] == JsonView::Unsigned(v.used_tokens)
            &&& w["used_turns"@] == JsonView::Unsigned(v.used_turns as u64)
            &&& w["used_cost"@] == Cost::enc(v.used_cost)
            &&& w["used_sub_agents"@] == JsonView::Unsigned(v.used_sub_agents as u64)
            &&& w["used_vfs_bytes"@] == JsonView::Unsigned(v.used_vfs_bytes)
            &&& w["max_fuel"@] == JsonView::Unsigned(v.max_fuel)
            &&& w["used_fuel"@] == JsonView::Unsigned(v.used_fuel)
        },
{
    crate::types::forms::budget::lemma_budget_names();
    assert(ResourceBudget::enc(v)->Object_0.dom() =~= set!["max_tokens"@, "max_turns"@, "max_cost"@, "max_sub_agents"@, "max_vfs_bytes"@, "used_tokens"@, "used_turns"@, "used_cost"@, "used_sub_agents"@, "used_vfs_bytes"@, "max_fuel"@, "used_fuel"@]);
}

/// A budget is read by the names of its members, all of which must be there.
pub proof fn budgets_are_read_by_name(v: ResourceBudget, m: Map<Seq<char>, JsonView>)
    ensures
        ResourceBudget::dec(JsonView::Object(m)) == Some(v) <==> {
            &&& m.contains_key("max_tokens"@) && m["max_tokens"@] == JsonView::Unsigned(v.max_tokens)
            &&& m.contains_key("max_turns"@) && m["max_turns"@] == JsonView::Unsigned(v.max_turns as u64)
            &&& m.contains_key("max_cost"@) && Cost::dec(m["max_cost"@]) == Some(v.max_cost)
            &&& m.contains_key("max_sub_agents"@) && m["max_sub_agents"@] == JsonView::Unsigned(v.max_sub_agents as u64)
            &&& m.contains_key("max_vfs_bytes"@) && m["max_vfs_bytes"@] == JsonView::Unsigned(v.max_vfs_bytes)
            &&& m.contains_key("used_tokens"@) && m["used_tokens"@] == JsonView::Unsigned(v.used_tokens)
            &&& m.contains_key("used_turns"@) && m["used_turns"@] == JsonView::Unsigned(v.used_turns as u64)
            &&& m.contains_key("used_cost"@) && Cost::dec(m["used_cost"@]) == Some(v.used_cost)
            &&& m.contains_key("used_sub_agents"@) && m["used_sub_agents"@] == JsonView::Unsigned(v.used_sub_agents as u64)
            &&& m.contains_key("used_vfs_bytes"@) && m["used_vfs_bytes"@] == JsonView::Unsigned(v.used_vfs_bytes)
            &&& m.contains_key("max_fuel"@) && m["max_fuel"@] == JsonView::Unsigned(v.max_fuel)
            &&& m.contains_key("used_fuel"@) && m["used_fuel"@] == JsonView::Unsigned(v.used_fuel)
        },
{
    crate::types::forms::budget::lemma_budget_names();
}

/// A budget may also be a list of the values of its members, in their order.
pub proof fn budgets_are_read_from_a_list(m: Map<Seq<char>, JsonView>)
    requires
        m.dom() == set!["max_tokens"@, "max_turns"@, "max_cost"@, "max_sub_agents"@, "max_vfs_bytes"@, "used_tokens"@, "used_turns"@, "used_cost"@, "used_sub_agents"@, "used_vfs_bytes"@, "max_fuel"@, "used_fuel"@],
    ensures
        ResourceBudget::dec(JsonView::Array(seq![m["max_tokens"@], m["max_turns"@], m["max_cost"@], m["max_sub_agents"@], m["max_vfs_bytes"@], m["used_tokens"@], m["used_turns"@], m["used_cost"@], m["used_sub_agents"@], m["used_vfs_bytes"@], m["max_fuel"@], m["used_fuel"@]])) == ResourceBudget::dec(JsonView::Object(m)),
{
    crate::types::forms::budget::lemma_budget_names();
    let names = seq!["max_tokens"@, "max_turns"@, "max_cost"@, "max_sub_agents"@, "max_vfs_bytes"@, "used_tokens"@, "used_turns"@, "used_cost"@, "used_sub_agents"@, "used_vfs_bytes"@, "max_fuel"@, "used_fuel"@];
    let items = seq![m["max_tokens"@], m["max_turns"@], m["max_cost"@], m["max_sub_agents"@], m["max_vfs_bytes"@], m["used_tokens"@], m["used_turns"@], m["used_cost"@], m["used_sub_agents"@], m["used_vfs_bytes"@], m["max_fuel"@], m["used_fuel"@]];
    lemma_record_of(names, items, m);
}

/// A token is written by the names of its members.
pub proof fn tokens_are_written_by_name(v: TokenView)
    ensures
        CapabilityToken::enc(v) matches JsonView::Object(w) && {
            &&& w.dom() == set!["network"@, "mcp_tools"@, "shell"@, "javascript"@, "python"@, "paths_write"@, "paths_read"@, "spawn_types"@, "skill_patterns"@, "memory"@]
            &&& w["network"@] == enc_list::<NetworkPermission>(v.network)
            &&& w["mcp_tools"@] == enc_list::<String>(v.mcp_tools)
            &&& w["shell"@] == JsonView::Bool(v.shell)
            &&& w["javascript"@] == JsonView::Bool(v.javascript)
            &&& w["python"@] == JsonView::Bool(v.python)
            &&& w["paths_write"@] == enc_list::<PathPattern>(v.paths_write)
            &&& w["paths_read"@] == enc_list::<PathPattern>(v.paths_read)
            &&& w["spawn_types"@] == enc_list::<String>(v.spawn_types)
            &&& w["skill_patterns"@] == enc_list::<String>(v.skill_patterns)
            &&& w["memory"@] == MemoryCapability::enc(v.memory)
        },
{
    crate::types::forms::capability::lemma_token_names();
    assert(CapabilityToken::enc(v)->Object_0.dom() =~= set!["network"@, "mcp_tools"@, "shell"@, "javascript"@, "python"@, "paths_write"@, "paths_read"@, "spawn_types"@, "skill_patterns"@, "memory"@]);
}

/// A token is read by the names of its members, of which some may be missing.
pub proof fn tokens_are_read_by_name(v: TokenView, m: Map<Seq<char>, JsonView>)
    ensures
        CapabilityToken::dec(JsonView::Object(m)) == Some(v) <==> {
            &&& m.contains_key("network"@) && dec_list::<NetworkPermission>(m["network"@]) == Some(v.network)
            &&& m.contains_key("mcp_tools"@) && dec_list::<String>(m["mcp_tools"@]) == Some(v.mcp_tools)
            &&& m.contains_key("shell"@) && m["shell"@] == JsonView::Bool(v.shell)
            &&& m.contains_key("javascript"@) && m["javascript"@] == JsonView::Bool(v.javascript)
            &&& m.contains_key("python"@) && m["python"@] == JsonView::Bool(v.python)
            &&& m.contains_key("paths_write"@) && dec_list::<PathPattern>(m["paths_write"@]) == Some(v.paths_write)
            &&& m.contains_key("paths_read"@) && dec_list::<PathPattern>(m["paths_read"@]) == Some(v.paths_read)
            &&& m.contains_key("spawn_types"@) && dec_list::<String>(m["spawn_types"@]) == Some(v.spawn_types)
            &&& m.contains_key("skill_patterns"@) && dec_list::<String>(m["skill_patterns"@]) == Some(v.skill_patterns)
            &&& if m.contains_key("memory"@) {
                MemoryCapability::dec(m["memory"@]) == Some(v.memory)
            } else {
                v.memory == no_memory()
            }
        },
{
    crate::types::forms::capability::lemma_token_names();
}

/// A token may also be a list of the values of its members, in their order.
pub proof fn tokens_are_read_from_a_list(m: Map<Seq<char>, JsonView>)
    requires
        m.dom() == set!["network"@, "mcp_tools"@, "shell"@, "javascript"@, "python"@, "paths_write"@, "paths_read"@, "spawn_types"@, "skill_patterns"@, "memory"@],
    ensures
        CapabilityToken::dec(JsonView::Array(seq![m["network"@], m["mcp_tools"@], m["shell"@], m["javascript"@], m["python"@], m["paths_write"@], m["paths_read"@], m["spawn_types"@], m["skill_patterns"@], m["memory"@]])) == CapabilityToken::dec(JsonView::Object(m)),
{
    crate::types::forms::capability::lemma_token_names();
    let names = seq!["network"@, "mcp_tools"@, "shell"@, "javascript"@, "python"@, "paths_write"@, "paths_read"@, "spawn_types"@, "skill_patterns"@, "memory"@];
    let items = seq![m["network"@], m["mcp_tools"@], m["shell"@], m["javascript"@], m["python"@], m["paths_write"@], m["paths_read"@], m["spawn_types"@], m["skill_patterns"@], m["memory"@]];
    lemma_record_of(names, items, m);
}

/// A refusal is written by the names of its members.
pub proof fn refusals_are_written_by_name(v: DeniedView)
    ensures
        CapabilityDenied::enc(v) matches JsonView::Object(w) && {
            &&& w.dom() == set!["operation"@, "reason"@]
            &&& w["operation"@] == JsonView::Text(v.operation)
            &&& w["reason"@] == JsonView::Text(v.reason)
        },
{
    crate::types::forms::capability::lemma_denied_names();
    assert(CapabilityDenied::enc(v)->Object_0.dom() =~= set!["operation"@, "reason"@]);
}

/// A refusal is read by the names of its members, all of which must be there.
pub proof fn refusals_are_read_by_name(v: DeniedView, m: Map<Seq<char>, JsonView>)
    ensures
        CapabilityDenied::dec(JsonView::Object(m)) == Some(v) <==> {
            &&& m.contains_key("operation"@) && m["operation"@] == JsonView::Text(v.operation)
            &&& m.contains_key("reason"@) && m["reason"@] == JsonView::Text(v.reason)
        },
{
    crate::types::forms::capability::lemma_denied_names();
}

/// A refusal may also be a list of the values of its members, in their order.
pub proof fn refusals_are_read_from_a_list(m: Map<Seq<char>, JsonView>)
    requires
        m.dom() == set!["operation"@, "reason"@],
    ensures
        CapabilityDenied::dec(JsonView::Array(seq![m["operation"@], m["reason"@]])) == CapabilityDenied::dec(JsonView::Object(m)),
{
    crate::types::forms::capability::lemma_denied_names();
    let names = seq!["operation"@, "reason"@];
    let items = seq![m["operation"@], m["reason"@]];
    lemma_record_of(names, items, m);
}

/// A capability of the memory is written by the names of its members.
pub proof fn memory_capabilities_are_written_by_name(v: MemoryCapabilityView)
    ensures
        MemoryCapability::enc(v) matches JsonView::Object(w) && {
            &&& w.dom() == set!["enabled"@, "search_scopes"@, "write_scopes"@]
            &&& w["enabled"@] == JsonView::Bool(v.enabled)
            &&& w["search_scopes"@] == enc_list::<MemoryPath>(v.search_scopes)
            &&& w["write_scopes"@] == enc_list::<MemoryPath>(v.write_scopes)
        },
{
    crate::types::forms::memory::lemma_memory_names();
    assert(MemoryCapability::enc(v)->Object_0.dom() =~= set!["enabled"@, "search_scopes"@, "write_scopes"@]);
}

/// A capability of the memory is read by the names of its members, all of which must be there.
pub proof fn memory_capabilities_are_read_by_name(v: MemoryCapabilityView, m: Map<Seq<char>, JsonView>)
    ensures
        MemoryCapability::dec(JsonView::Object(m)) == Some(v) <==> {
            &&& m.contains_key("enabled"@) && m["enabled"@] == JsonView::Bool(v.enabled)
            &&& m.contains_key("search_scopes"@) && dec_list::<MemoryPath>(m["search_scopes"@]) == Some(v.search_scopes)
            &&& m.contains_key("write_scopes"@) && dec_list::<MemoryPath>(m["write_scopes"@]) == Some(v.write_scopes)
        },
{
    crate::types::forms::memory::lemma_memory_names();
}

/// A capability of the memory may also be a list of the values of its members, in their order.
pub proof fn memory_capabilities_are_read_from_a_list(m: Map<Seq<char>, JsonView>)
    requires
        m.dom() == set!["enabled"@, "search_scopes"@, "write_scopes"@],
    ensures
        MemoryCapability::dec(JsonView::Array(seq![m["enabled"@], m["search_scopes"@], m["write_scopes"@]])) == MemoryCapability::dec(JsonView::Object(m)),
{
    crate::types::forms::memory::lemma_memory_names();
    let names = seq!["enabled"@, "search_scopes"@, "write_scopes"@];
    let items = seq![m["enabled"@], m["search_scopes"@], m["write_scopes"@]];
    lemma_record_of(names, items, m);
}

/// A response is written by the names of its members.
pub proof fn responses_are_written_by_name(v: ResponseView)
    ensures
        ProviderResponse::enc(v) matches JsonView::Object(w) && {
            &&& w.dom() == set!["message"@, "token_usage"@, "finish_reason"@, "provider_response_id"@, "model"@]
            &&& w["message"@] == Message::enc(v.message)
            &&& w["token_usage"@] == TokenUsage::enc(v.token_usage)
            &&& w["finish_reason"@] == FinishReason::enc(v.finish_reason)
            &&& w["provider_response_id"@] == text_or_null(v.provider_response_id)
            &&& w["model"@] == JsonView::Text(v.model)
        },
{
    crate::types::forms::provider::lemma_response_names();
    assert(ProviderResponse::enc(v)->Object_0.dom() =~= set!["message"@, "token_usage"@, "finish_reason"@, "provider_response_id"@, "model"@]);
}

/// A response is read by the names of its members, of which some may be missing.
pub proof fn responses_are_read_by_name(v: ResponseView, m: Map<Seq<char>, JsonView>)
    ensures
        ProviderResponse::dec(JsonView::Object(m)) == Some(v) <==> {
            &&& m.contains_key("message"@) && Message::dec(m["message"@]) == Some(v.message)
            &&& m.contains_key("token_usage"@) && TokenUsage::dec(m["token_usage"@]) == Some(v.token_usage)
            &&& m.contains_key("finish_reason"@) && FinishReason::dec(m["finish_reason"@]) == Some(v.finish_reason)
            &&& if m.contains_key("provider_response_id"@) {
                m["provider_response_id"@] == text_or_null(v.provider_response_id)
            } else {
                v.provider_response_id is None
            }
            &&& m.contains_key("model"@) && m["model"@] == JsonView::Text(v.model)
        },
{
    crate::types::forms::provider::lemma_response_names();
}

/// A response may also be a list of the values of its members, in their order.
pub proof fn responses_are_read_from_a_list(m: Map<Seq<char>, JsonView>)
    requires
        m.dom() == set!["message"@, "token_usage"@, "finish_reason"@, "provider_response_id"@, "model"@],
    ensures
        ProviderResponse::dec(JsonView::Array(seq![m["message"@], m["token_usage"@], m["finish_reason"@], m["provider_response_id"@], m["model"@]])) == ProviderResponse::dec(JsonView::Object(m)),
{
    crate::types::forms::provider::lemma_response_names();
    let names = seq!["message"@, "token_usage"@, "finish_reason"@, "provider_response_id"@, "model"@];
    let items = seq![m["message"@], m["token_usage"@], m["finish_reason"@], m["provider_response_id"@], m["model"@]];
    lemma_record_of(names, items, m);
}

/// The definition of a tool is written by the names of its members.
pub proof fn definitions_are_written_by_name(v: DefinitionView)
    ensures
        ToolDefinition::enc(v) matches JsonView::Object(w) && {
            &&& w.dom() == set!["name"@, "description"@, "input_schema"@]
            &&& w["name"@] == JsonView::Text(v.name)
            &&& w["description"@] == JsonView::Text(v.description)
            &&& w["input_schema"@] == v.input_schema
        },
{
    crate::types::forms::tool::lemma_definition_names();
    assert(ToolDefinition::enc(v)->Object_0.dom() =~= set!["name"@, "description"@, "input_schema"@]);
}

/// The definition of a tool is read by the names of its members, all of which must be there.
pub proof fn definitions_are_read_by_name(v: DefinitionView, m: Map<Seq<char>, JsonView>)
    ensures
        ToolDefinition::dec(JsonView::Object(m)) == Some(v) <==> {
            &&& m.contains_key("name"@) && m["name"@] == JsonView::Text(v.name)
            &&& m.contains_key("description"@) && m["description"@] == JsonView::Text(v.description)
            &&& m.contains_key("input_schema"@) && m["input_schema"@] == v.input_schema
        },
{
    crate::types::forms::tool::lemma_definition_names();
}

/// The definition of a tool may also be a list of the values of its members, in their order.
pub proof fn definitions_are_read_from_a_list(m: Map<Seq<char>, JsonView>)
    requires
        m.dom() == set!["name"@, "description"@, "input_schema"@],
    ensures
        ToolDefinition::dec(JsonView::Array(seq![m["name"@], m["description"@], m["input_schema"@]])) == ToolDefinition::dec(JsonView::Object(m)),
{
    crate::types::forms::tool::lemma_definition_names();
    let names = seq!["name"@, "description"@, "input_schema"@];
    let items = seq![m["name"@], m["description"@], m["input_schema"@]];
    lemma_record_of(names, items, m);
}

/// A call of a tool is written by the names of its members.
pub proof fn calls_are_written_by_name(v: ToolCallView)
    ensures
        ToolCall::enc(v) matches JsonView::Object(w) && {
            &&& w.dom() == set!["id"@, "name"@, "arguments"@]
            &&& w["id"@] == JsonView::Text(v.id)
            &&& w["name"@] == JsonView::Text(v.name)
            &&& w["arguments"@] == v.arguments
        },
{
    crate::types::forms::tool::lemma_call_names();
    assert(ToolCall::enc(v)->Object_0.dom() =~= set!["id"@, "name"@, "arguments"@]);
}

/// A call of a tool is read by the names of its members, all of which must be there.
pub proof fn calls_are_read_by_name(v: ToolCallView, m: Map<Seq<char>, JsonView>)
    ensures
        ToolCall::dec(JsonView::Object(m)) == Some(v) <==> {
            &&& m.contains_key("id"@) && m["id"@] == JsonView::Text(v.id)
            &&& m.contains_key("name"@) && m["name"@] == JsonView::Text(v.name)
            &&& m.contains_key("arguments"@) && m["arguments"@] == v.arguments
        },
{
    crate::types::forms::tool::lemma_call_names();
}

/// A call of a tool may also be a list of the values of its members, in their order.
pub proof fn calls_are_read_from_a_list(m: Map<Seq<char>, JsonView>)
    requires
        m.dom() == set!["id"@, "name"@, "arguments"@],
    ensures
        ToolCall::dec(JsonView::Array(seq![m["id"@], m["name"@], m["arguments"@]])) == ToolCall::dec(JsonView::Object(m)),
{
    crate::types::forms::tool::lemma_call_names();
    let names = seq!["id"@, "name"@, "arguments"@];
    let items = seq![m["id"@], m["name"@], m["arguments"@]];
    lemma_record_of(names, items, m);
}

/// The result of a tool is written by the names of its members.
pub proof fn results_are_written_by_name(v: ToolResultView)
    ensures
        ToolResult::enc(v) matches JsonView::Object(w) && {
            &&& w.dom() == set!["tool_call_id"@, "content"@, "is_error"@]
            &&& w["tool_call_id"@] == JsonView::Text(v.tool_call_id)
            &&& w["content"@] == JsonView::Text(v.content)
            &&& w["is_error"@] == JsonView::Bool(v.is_error)
        },
{
    crate::types::forms::tool::lemma_tool_result_names();
    assert(ToolResult::enc(v)->Object_0.dom() =~= set!["tool_call_id"@, "content"@, "is_error"@]);
}

/// The result of a tool is read by the names of its members, all of which must be there.
pub proof fn results_are_read_by_name(v: ToolResultView, m: Map<Seq<char>, JsonView>)
    ensures
        ToolResult::dec(JsonView::Object(m)) == Some(v) <==> {
            &&& m.contains_key("tool_call_id"@) && m["tool_call_id"@] == JsonView::Text(v.tool_call_id)
            &&& m.contains_key("content"@) && m["content"@] == JsonView::Text(v.content)
            &&& m.contains_key("is_error"@) && m["is_error"@] == JsonView::Bool(v.is_error)
        },
{
    crate::types::forms::tool::lemma_tool_result_names();
}

/// The result of a tool may also be a list of the values of its members, in their order.
pub proof fn results_are_read_from_a_list(m: Map<Seq<char>, JsonView>)
    requires
        m.dom() == set!["tool_call_id"@, "content"@, "is_error"@],
    ensures
        ToolResult::dec(JsonView::Array(seq![m["tool_call_id"@], m["content"@], m["is_error"@]])) == ToolResult::dec(JsonView::Object(m)),
{
    crate::types::forms::tool::lemma_tool_result_names();
    let names = seq!["tool_call_id"@, "content"@, "is_error"@];
    let items = seq![m["tool_call_id"@], m["content"@], m["is_error"@]];
    lemma_record_of(names, items, m);
}

/// The output of a tool is written by the names of its members, of which those without a value are left out.
pub proof fn outputs_are_written_by_name(v: ToolOutputView)
    ensures
        ToolOutput::enc(v) matches JsonView::Object(w) && {
            &&& w.contains_key("content"@) && w["content"@] == JsonView::Text(v.content)
            &&& w.contains_key("is_error"@) && w["is_error"@] == JsonView::Bool(v.is_error)
            &&& w.contains_key("log_preview"@) && w["log_preview"@] == JsonView::Text(v.log_preview)
            &&& w.contains_key("structured"@) <==> v.structured is Some
            &&& v.structured is Some ==> w["structured"@] == v.structured->0
            &&& w.contains_key("hook_input"@) <==> v.hook_input is Some
            &&& v.hook_input is Some ==> w["hook_input"@] == v.hook_input->0
            &&& w.contains_key("hook_output"@) <==> v.hook_output is Some
            &&& v.hook_output is Some ==> w["hook_output"@] == v.hook_output->0
        },
{
    crate::types::forms::tool::lemma_output_names();
}

/// The output of a tool is read by the names of its members, of which some may be missing.
pub proof fn outputs_are_read_by_name(v: ToolOutputView, m: Map<Seq<char>, JsonView>)
    ensures
        ToolOutput::dec(JsonView::Object(m)) == Some(v) <==> {
            &&& m.contains_key("content"@) && m["content"@] == JsonView::Text(v.content)
            &&& m.contains_key("is_error"@) && m["is_error"@] == JsonView::Bool(v.is_error)
            &&& m.contains_key("log_preview"@) && m["log_preview"@] == JsonView::Text(v.log_preview)
            &&& if m.contains_key("structured"@) && !(m["structured"@] is Null) {
                v.structured is Some && m["structured"@] == v.structured->0
            } else {
                v.structured is None
            }
            &&& if m.contains_key("hook_input"@) && !(m["hook_input"@] is Null) {
                v.hook_input is Some && m["hook_input"@] == v.hook_input->0
            } else {
                v.hook_input is None
            }
            &&& if m.contains_key("hook_output"@) && !(m["hook_output"@] is Null) {
                v.hook_output is Some && m["hook_output"@] == v.hook_output->0
            } else {
                v.hook_output is None
            }
        },
{
    crate::types::forms::tool::lemma_output_names();
}

/// The output of a tool may also be a list of the values of its members, in their order.
pub proof fn outputs_are_read_from_a_list(m: Map<Seq<char>, JsonView>)
    requires
        m.dom() == set!["content"@, "is_error"@, "log_preview"@, "structured"@, "hook_input"@, "hook_output"@],
    ensures
        ToolOutput::dec(JsonView::Array(seq![m["content"@], m["is_error"@], m["log_preview"@], m["structured"@], m["hook_input"@], m["hook_output"@]])) == ToolOutput::dec(JsonView::Object(m)),
{
    crate::types::forms::tool::lemma_output_names();
    let names = seq!["content"@, "is_error"@, "log_preview"@, "structured"@, "hook_input"@, "hook_output"@];
    let items = seq![m["content"@], m["is_error"@], m["log_preview"@], m["structured"@], m["hook_input"@], m["hook_output"@]];
    lemma_record_of(names, items, m);
}

/// What is known of an entry is written by the names of its members.
pub proof fn metadata_are_written_by_name(v: FsMetadata)
    ensures
        FsMetadata::enc(v) matches JsonView::Object(w) && {
            &&& w.dom() == set!["is_file"@, "is_dir"@, "size"@]
            &&& w["is_file"@] == JsonView::Bool(v.is_file)
            &&& w["is_dir"@] == JsonView::Bool(v.is_dir)
            &&& w["size"@] == JsonView::Unsigned(v.size)
        },
{
    crate::types::forms::vfs::lemma_metadata_names();
    assert(FsMetadata::enc(v)->Object_0.dom() =~= set!["is_file"@, "is_dir"@, "size"@]);
}

/// What is known of an entry is read by the names of its members, all of which must be there.
pub proof fn metadata_are_read_by_name(v: FsMetadata, m: Map<Seq<char>, JsonView>)
    ensures
        FsMetadata::dec(JsonView::Object(m)) == Some(v) <==> {
            &&& m.contains_key("is_file"@) && m["is_file"@] == JsonView::Bool(v.is_file)
            &&& m.contains_key("is_dir"@) && m["is_dir"@] == JsonView::Bool(v.is_dir)
            &&& m.contains_key("size"@) && m["size"@] == JsonView::Unsigned(v.size)
        },
{
    crate::types::forms::vfs::lemma_metadata_names();
}

/// What is known of an entry may also be a list of the values of its members, in their order.
pub proof fn metadata_are_read_from_a_list(m: Map<Seq<char>, JsonView>)
    requires
        m.dom() == set!["is_file"@, "is_dir"@, "size"@],
    ensures
        FsMetadata::dec(JsonView::Array(seq![m["is_file"@], m["is_dir"@], m["size"@]])) == FsMetadata::dec(JsonView::Object(m)),
{
    crate::types::forms::vfs::lemma_metadata_names();
    let names = seq!["is_file"@, "is_dir"@, "size"@];
    let items = seq![m["is_file"@], m["is_dir"@], m["size"@]];
    lemma_record_of(names, items, m);
}

/// A snapshot is written by the names of its members.
pub proof fn snapshots_are_written_by_name(v: SnapshotView)
    ensures
        VfsSnapshot::enc(v) matches JsonView::Object(w) && {
            &&& w.dom() == set!["data"@]
            &&& w["data"@] == Vec::<u8>::enc(v.data)
        },
{
    crate::types::forms::vfs::lemma_snapshot_names();
    assert(VfsSnapshot::enc(v)->Object_0.dom() =~= set!["data"@]);
}

/// A snapshot is read by the names of its members, all of which must be there.
pub proof fn snapshots_are_read_by_name(v: SnapshotView, m: Map<Seq<char>, JsonView>)
    ensures
        VfsSnapshot::dec(JsonView::Object(m)) == Some(v) <==> {
            &&& m.contains_key("data"@) && Vec::<u8>::dec(m["data"@]) == Some(v.data)
        },
{
    crate::types::forms::vfs::lemma_snapshot_names();
}

/// A snapshot may also be a list of the values of its members, in their order.
pub proof fn snapshots_are_read_from_a_list(m: Map<Seq<char>, JsonView>)
    requires
        m.dom() == set!["data"@],
    ensures
        VfsSnapshot::dec(JsonView::Array(seq![m["data"@]])) == VfsSnapshot::dec(JsonView::Object(m)),
{
    crate::types::forms::vfs::lemma_snapshot_names();
    let names = seq!["data"@];
    let items = seq![m["data"@]];
    lemma_record_of(names, items, m);
}

/// A checkpoint is written by the names of its members.
pub proof fn checkpoints_are_written_by_name(v: CheckpointView)
    ensures
        CheckpointData::enc(v) matches JsonView::Object(w) && {
            &&& w.dom() == set!["messages"@, "budget_snapshot"@, "vfs_snapshot"@]
            &&& w["messages"@] == enc_list::<Message>(v.messages)
            &&& w["budget_snapshot"@] == ResourceBudget::enc(v.budget_snapshot)
            &&& w["vfs_snapshot"@] == (match v.vfs_snapshot { Some(x) => Vec::<u8>::enc(x), None => JsonView::Null })
        },
{
    crate::types::forms::journal::lemma_checkpoint_names();
    assert(CheckpointData::enc(v)->Object_0.dom() =~= set!["messages"@, "budget_snapshot"@, "vfs_snapshot"@]);
}

/// A checkpoint is read by the names of its members, of which some may be missing.
pub proof fn checkpoints_are_read_by_name(v: CheckpointView, m: Map<Seq<char>, JsonView>)
    ensures
        CheckpointData::dec(JsonView::Object(m)) == Some(v) <==> {
            &&& m.contains_key("messages"@) && dec_list::<Message>(m["messages"@]) == Some(v.messages)
            &&& m.contains_key("budget_snapshot"@) && ResourceBudget::dec(m["budget_snapshot"@]) == Some(v.budget_snapshot)
            &&& if m.contains_key("vfs_snapshot"@) && !(m["vfs_snapshot"@] is Null) {
                v.vfs_snapshot is Some && Vec::<u8>::dec(m["vfs_snapshot"@]) == Some(v.vfs_snapshot->0)
            } else {
                v.vfs_snapshot is None
            }
        },
{
    crate::types::forms::journal::lemma_checkpoint_names();
}

/// A checkpoint may also be a list of the values of its members, in their order.
pub proof fn checkpoints_are_read_from_a_list(m: Map<Seq<char>, JsonView>)
    requires
        m.dom() == set!["messages"@, "budget_snapshot"@, "vfs_snapshot"@],
    ensures
        CheckpointData::dec(JsonView::Array(seq![m["messages"@], m["budget_snapshot"@], m["vfs_snapshot"@]])) == CheckpointData::dec(JsonView::Object(m)),
{
    crate::types::forms::journal::lemma_checkpoint_names();
    let names = seq!["messages"@, "budget_snapshot"@, "vfs_snapshot"@];
    let items = seq![m["messages"@], m["budget_snapshot"@], m["vfs_snapshot"@]];
    lemma_record_of(names, items, m);
}

// ---- Plain values ------------------------------------------------------------

/// Texts, truth values and numbers are written as they are, and read back from nothing else.
pub proof fn plain_values_are_written_as_they_are(t: Seq<char>, b: bool, n: u64, m: u32, k: usize, s: u16, c: u8, i: i32, json: JsonView)
    ensures
        String::enc(t) == JsonView::Text(t),
        bool::enc(b) == JsonView::Bool(b),
        u64::enc(n) == JsonView::Unsigned(n),
        u32::enc(m) == JsonView::Unsigned(m as u64),
        usize::enc(k) == JsonView::Unsigned(k as u64),
        u16::enc(s) == JsonView::Unsigned(s as u64),
        u8::enc(c) == JsonView::Unsigned(c as u64),
        i32::enc(i) == (if i >= 0 { JsonView::Unsigned(i as u64) } else { JsonView::Negative(i as i64) }),
        String::dec(json) == Some(t) <==> json == JsonView::Text(t),
        bool::dec(json) == Some(b) <==> json == JsonView::Bool(b),
        u64::dec(json) == Some(n) <==> json == JsonView::Unsigned(n),
        u32::dec(json) == Some(m) <==> json == JsonView::Unsigned(m as u64),
        usize::dec(json) == Some(k) <==> json == JsonView::Unsigned(k as u64),
        u16::dec(json) == Some(s) <==> json == JsonView::Unsigned(s as u64),
        u8::dec(json) == Some(c) <==> json == JsonView::Unsigned(c as u64),
        Json::enc(json) == json,
        Json::dec(json) == Some(json),
{
}

/// Bytes are written as the list of their numbers.
pub proof fn bytes_are_written_as_numbers(bytes: Seq<u8>, i: int)
    ensures
        Vec::<u8>::enc(bytes) matches JsonView::Array(items) && items.len() == bytes.len() && (0 <= i < bytes.len() ==> items[i]
            == JsonView::Unsigned(bytes[i] as u64)),
{
}

/// Names are written as their texts. A tenant and a path of the memory are read only where they are
/// one, the path in its canonical form.
pub proof fn names_are_written_as_texts(t: Seq<char>, n: u64, json: JsonView)
    ensures
        AgentId::enc(t) == JsonView::Text(t),
        NetworkPermission::enc(t) == JsonView::Text(t),
        PathPattern::enc(t) == JsonView::Text(t),
        TenantId::enc(t) == JsonView::Text(t),
        MemoryPath::enc(t) == JsonView::Text(t),
        HitId::enc(t) == JsonView::Text(t),
        MemoryVersion::enc(n) == JsonView::Unsigned(n),
        AgentId::dec(json) == Some(t) <==> json == JsonView::Text(t),
        NetworkPermission::dec(json) == Some(t) <==> json == JsonView::Text(t),
        PathPattern::dec(json) == Some(t) <==> json == JsonView::Text(t),
        HitId::dec(json) == Some(t) <==> json == JsonView::Text(t),
        MemoryVersion::dec(json) == Some(n) <==> json == JsonView::Unsigned(n),
        TenantId::dec(json) == Some(t) <==> json == JsonView::Text(t) && crate::types::memory::is_tenant_id(t),
        MemoryPath::dec(json) == Some(t) <==> (json is Text && crate::types::memory::parsed_memory_path(json->Text_0) == Ok::<
            Seq<char>,
            crate::types::memory::MemoryPathError,
        >(t)),
{
}

/// A cost is written as the text of its decimal number, and read back from it.
pub proof fn costs_are_written_as_texts(c: Cost)
    requires
        -79228162514264337593543950335 <= c.units() <= 79228162514264337593543950335,
        c.places() <= 28,
    ensures
        Cost::enc(c) == JsonView::Text(cost_text(c.units(), c.places(), c.places())),
        Cost::dec(JsonView::Text(cost_text(c.units(), c.places(), c.places()))) == Some(c),
{
    Cost::round_trip(c);
}

// ---- Alternatives ------------------------------------------------------------

/// A reason to stop is written by its name, and read from it.
pub proof fn finish_reasons_are_written_and_read_by_name()
    ensures
        FinishReason::enc(FinishReason::EndTurn) == JsonView::Text("end_turn"@),
        FinishReason::enc(FinishReason::ToolUse) == JsonView::Text("tool_use"@),
        FinishReason::enc(FinishReason::MaxTokens) == JsonView::Text("max_tokens"@),
        FinishReason::enc(FinishReason::StopSequence) == JsonView::Text("stop_sequence"@),
        FinishReason::dec(JsonView::Text("end_turn"@)) == Some(FinishReason::EndTurn),
        FinishReason::dec(JsonView::Text("tool_use"@)) == Some(FinishReason::ToolUse),
        FinishReason::dec(JsonView::Text("max_tokens"@)) == Some(FinishReason::MaxTokens),
        FinishReason::dec(JsonView::Text("stop_sequence"@)) == Some(FinishReason::StopSequence),
{
    crate::types::forms::provider::lemma_finish_names();
}

/// An event of a stream is written with its kind as its `type`, and its text where it has one.
pub proof fn stream_events_are_written_by_name(v: StreamEventView)
    ensures
        ProviderStreamEvent::enc(v) matches JsonView::Object(w) && w.contains_key("type"@) && w["type"@] == JsonView::Text(
            match v {
                StreamEventView::TextDelta { .. } => "text_delta"@,
                StreamEventView::ThinkingStart => "thinking_start"@,
                StreamEventView::ThinkingDelta { .. } => "thinking_delta"@,
                StreamEventView::ThinkingEnd => "thinking_end"@,
            },
        ) && match v {
            StreamEventView::TextDelta { text } => w.dom() == set!["type"@, "text"@] && w["text"@] == JsonView::Text(text),
            StreamEventView::ThinkingDelta { text } => w.dom() == set!["type"@, "text"@] && w["text"@] == JsonView::Text(text),
            _ => w.dom() == set!["type"@],
        },
{
    crate::types::forms::provider::lemma_stream_event_names();
    let w = ProviderStreamEvent::enc(v)->Object_0;
    match v {
        StreamEventView::TextDelta { .. } => assert(w.dom() =~= set!["type"@, "text"@]),
        StreamEventView::ThinkingDelta { .. } => assert(w.dom() =~= set!["type"@, "text"@]),
        _ => assert(w.dom() =~= set!["type"@]),
    }
}

/// An event of a stream is read by its `type`; a delta must have its text.
pub proof fn stream_events_are_read_by_name(v: StreamEventView, m: Map<Seq<char>, JsonView>)
    ensures
        ProviderStreamEvent::dec(JsonView::Object(m)) == Some(v) <==> m.contains_key("type"@) && match v {
            StreamEventView::TextDelta { text } => m["type"@] == JsonView::Text("text_delta"@) && m.contains_key("text"@) && m["text"@]
                == JsonView::Text(text),
            StreamEventView::ThinkingStart => m["type"@] == JsonView::Text("thinking_start"@),
            StreamEventView::ThinkingDelta { text } => m["type"@] == JsonView::Text("thinking_delta"@) && m.contains_key("text"@)
                && m["text"@] == JsonView::Text(text),
            StreamEventView::ThinkingEnd => m["type"@] == JsonView::Text("thinking_end"@),
        },
{
    crate::types::forms::provider::lemma_stream_event_names();
    crate::types::forms::provider::lemma_stream_event_tags();
}

/// A place in a document is written with its kind as its `kind`, and what the kind needs.
pub proof fn places_are_written_by_name(v: LocatorView)
    ensures
        Locator::enc(v) matches JsonView::Object(w) && w.contains_key("kind"@) && match v {
            LocatorView::Text { byte_start, byte_end } => {
                &&& w.dom() == set!["kind"@, "byte_start"@, "byte_end"@]
                &&& w["kind"@] == JsonView::Text("text"@)
                &&& w["byte_start"@] == JsonView::Unsigned(byte_start as u64)
                &&& w["byte_end"@] == JsonView::Unsigned(byte_end as u64)
            },
            LocatorView::PdfPage { page, paragraph } => {
                &&& w.dom() == set!["kind"@, "page"@, "paragraph"@]
                &&& w["kind"@] == JsonView::Text("pdf_page"@)
                &&& w["page"@] == JsonView::Unsigned(page as u64)
                &&& w["paragraph"@] == JsonView::Unsigned(paragraph as u64)
            },
            LocatorView::HtmlSelector { selector, text_start, text_end } => {
                &&& w.dom() == set!["kind"@, "selector"@, "text_start"@, "text_end"@]
                &&& w["kind"@] == JsonView::Text("html_selector"@)
                &&& w["selector"@] == JsonView::Text(selector)
                &&& w["text_start"@] == JsonView::Unsigned(text_start as u64)
                &&& w["text_end"@] == JsonView::Unsigned(text_end as u64)
            },
            LocatorView::JsonlLine { line } => {
                &&& w.dom() == set!["kind"@, "line"@]
                &&& w["kind"@] == JsonView::Text("jsonl_line"@)
                &&& w["line"@] == JsonView::Unsigned(line)
            },
            LocatorView::Opaque { format, payload } => {
                &&& w.dom() == set!["kind"@, "format"@, "payload"@]
                &&& w["kind"@] == JsonView::Text("opaque"@)
                &&& w["format"@] == JsonView::Text(format)
                &&& w["payload"@] == JsonView::Text(payload)
            },
        },
{
    crate::types::forms::memory::lemma_locator_names();
    let w = Locator::enc(v)->Object_0;
    match v {
        LocatorView::Text { .. } => assert(w.dom() =~= set!["kind"@, "byte_start"@, "byte_end"@]),
        LocatorView::PdfPage { .. } => assert(w.dom() =~= set!["kind"@, "page"@, "paragraph"@]),
        LocatorView::HtmlSelector { .. } => assert(w.dom() =~= set!["kind"@, "selector"@, "text_start"@, "text_end"@]),
        LocatorView::JsonlLine { .. } => assert(w.dom() =~= set!["kind"@, "line"@]),
        LocatorView::Opaque { .. } => assert(w.dom() =~= set!["kind"@, "format"@, "payload"@]),
    }
}

/// A place in a document is read by its `kind`, with all that the kind needs.
pub proof fn places_are_read_by_name(v: LocatorView, m: Map<Seq<char>, JsonView>)
    ensures
        Locator::dec(JsonView::Object(m)) == Some(v) <==> m.contains_key("kind"@) && match v {
            LocatorView::Text { byte_start, byte_end } => {
                &&& m["kind"@] == JsonView::Text("text"@)
                &&& m.contains_key("byte_start"@) && m["byte_start"@] == JsonView::Unsigned(byte_start as u64)
                &&& m.contains_key("byte_end"@) && m["byte_end"@] == JsonView::Unsigned(byte_end as u64)
            },
            LocatorView::PdfPage { page, paragraph } => {
                &&& m["kind"@] == JsonView::Text("pdf_page"@)
                &&& m.contains_key("page"@) && m["page"@] == JsonView::Unsigned(page as u64)
                &&& m.contains_key("paragraph"@) && m["paragraph"@] == JsonView::Unsigned(paragraph as u64)
            },
            LocatorView::HtmlSelector { selector, text_start, text_end } => {
                &&& m["kind"@] == JsonView::Text("html_selector"@)
                &&& m.contains_key("selector"@) && m["selector"@] == JsonView::Text(selector)
                &&& m.contains_key("text_start"@) && m["text_start"@] == JsonView::Unsigned(text_start as u64)
                &&& m.contains_key("text_end"@) && m["text_end"@] == JsonView::Unsigned(text_end as u64)
            },
            LocatorView::JsonlLine { line } => {
                &&& m["kind"@] == JsonView::Text("jsonl_line"@)
                &&& m.contains_key("line"@) && m["line"@] == JsonView::Unsigned(line)
            },
            LocatorView::Opaque { format, payload } => {
                &&& m["kind"@] == JsonView::Text("opaque"@)
                &&& m.contains_key("format"@) && m["format"@] == JsonView::Text(format)
                &&& m.contains_key("payload"@) && m["payload"@] == JsonView::Text(payload)
            },
        },
{
    crate::types::forms::memory::lemma_locator_names();
    crate::types::forms::memory::lemma_locator_tags();
}

/// The object has one member, of this name and this value.
pub open spec fn is_sole(json: JsonView, name: Seq<char>, value: JsonView) -> bool {
    json matches JsonView::Object(m) && m.dom() == set![name] && m[name] == value
}

/// A reason to end is written as its name, or as the one member of its name with what it says.
pub proof fn exits_are_written_by_name(v: ExitView)
    ensures
        match v {
            ExitView::Complete => ExitReason::enc(v) == JsonView::Text("Complete"@),
            ExitView::MaxTurns => ExitReason::enc(v) == JsonView::Text("MaxTurns"@),
            ExitView::BudgetExhausted => ExitReason::enc(v) == JsonView::Text("BudgetExhausted"@),
            ExitView::AwaitingApproval => ExitReason::enc(v) == JsonView::Text("AwaitingApproval"@),
            ExitView::Cancelled => ExitReason::enc(v) == JsonView::Text("Cancelled"@),
            ExitView::GuardrailTripped(text) => is_sole(ExitReason::enc(v), "GuardrailTripped"@, JsonView::Text(text)),
            ExitView::Error(text) => is_sole(ExitReason::enc(v), "Error"@, JsonView::Text(text)),
            ExitView::PolicyKill { hook, reason } => {
                &&& ExitReason::enc(v) is Object && ExitReason::enc(v)->Object_0.dom() == set!["PolicyKill"@]
                &&& ExitReason::enc(v)->Object_0["PolicyKill"@] matches JsonView::Object(said) && said.dom() == set![
                    "hook"@,
                    "reason"@,
                ] && said["hook"@] == JsonView::Text(hook) && said["reason"@] == JsonView::Text(reason)
            },
        },
        ExitReason::dec(ExitReason::enc(v)) == Some(v),
{
    crate::types::forms::exit::lemma_exit_policy_kill_names();
    ExitReason::round_trip(v);
    if ExitReason::enc(v) is Object {
        let m = ExitReason::enc(v)->Object_0;
        match v {
            ExitView::GuardrailTripped(_) => assert(m.dom() =~= set!["GuardrailTripped"@]),
            ExitView::Error(_) => assert(m.dom() =~= set!["Error"@]),
            ExitView::PolicyKill { .. } => {
                assert(m.dom() =~= set!["PolicyKill"@]);
                assert(m["PolicyKill"@]->Object_0.dom() =~= set!["hook"@, "reason"@]);
            },
            _ => {},
        }
    }
}

/// A change of a filesystem is written as the one member of its name, with the tenant, the path and
/// what else it says.
pub proof fn changes_are_written_by_name(v: VfsEventView)
    requires
        VfsEvent::stable(v),
    ensures
        VfsEvent::enc(v) matches JsonView::Object(m) && match v {
            VfsEventView::Written { tenant, path, len } => {
                &&& m.dom() == set!["Written"@]
                &&& m["Written"@] matches JsonView::Object(w) && w.dom() == set!["tenant"@, "path"@, "len"@] && w["tenant"@]
                    == JsonView::Text(tenant) && w["path"@] == JsonView::Text(path) && w["len"@] == JsonView::Unsigned(len)
            },
            VfsEventView::Removed { tenant, path } => {
                &&& m.dom() == set!["Removed"@]
                &&& m["Removed"@] matches JsonView::Object(w) && w.dom() == set!["tenant"@, "path"@] && w["tenant"@]
                    == JsonView::Text(tenant) && w["path"@] == JsonView::Text(path)
            },
            VfsEventView::Skipped { count } => {
                &&& m.dom() == set!["Skipped"@]
                &&& m["Skipped"@] matches JsonView::Object(w) && w.dom() == set!["count"@] && w["count"@] == JsonView::Unsigned(count)
            },
        },
        VfsEvent::dec(VfsEvent::enc(v)) == Some(v),
{
    crate::types::forms::vfs_event::lemma_vfs_event_written_names();
    VfsEvent::round_trip(v);
    let m = VfsEvent::enc(v)->Object_0;
    match v {
        VfsEventView::Written { .. } => {
            assert(m.dom() =~= set!["Written"@]);
            assert(m["Written"@]->Object_0.dom() =~= set!["tenant"@, "path"@, "len"@]);
        },
        VfsEventView::Removed { .. } => {
            assert(m.dom() =~= set!["Removed"@]);
            assert(m["Removed"@]->Object_0.dom() =~= set!["tenant"@, "path"@]);
        },
        VfsEventView::Skipped { .. } => {
            assert(m.dom() =~= set!["Skipped"@]);
            assert(m["Skipped"@]->Object_0.dom() =~= set!["count"@]);
        },
    }
}

} // verus!
