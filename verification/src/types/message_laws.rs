//! Laws of messages, tools and provider errors, said of their inputs and results.
use crate::coding::{dec_list, enc_list, Coded};
use crate::json::{Json, JsonView};
use crate::text::{decimal, texts};
use crate::types::event_laws::text_or_null;
use crate::types::message::{lemma_block_names, lemma_message_names, lemma_role_names, lemma_tool_call_names, lemma_usage_names, ContentBlockView, Message, MessageView, ProviderContentBlock, Role, TokenUsage, ToolCallMessage, ToolCallView};
use crate::types::provider::ProviderError;
use crate::types::tool::{arguments_from_hook_input, hook_input_payload, hook_output_payload, lemma_hook_names, lemma_output_names, output_of, output_value, result_from_hook_output, truncate_chars, ToolOutput, ToolOutputView, ToolSchema};
use vstd::prelude::*;

verus! {

broadcast use vstd::seq_lib::group_seq_properties;

// ---- Messages ----------------------------------------------------------------

/// Roles are written in lower case.
pub proof fn roles_are_written_by_name()
    ensures
        Role::enc(Role::System) == JsonView::Text("system"@),
        Role::enc(Role::User) == JsonView::Text("user"@),
        Role::enc(Role::Assistant) == JsonView::Text("assistant"@),
        Role::enc(Role::Tool) == JsonView::Text("tool"@),
        Role::dec(JsonView::Text("system"@)) == Some(Role::System),
        Role::dec(JsonView::Text("user"@)) == Some(Role::User),
        Role::dec(JsonView::Text("assistant"@)) == Some(Role::Assistant),
        Role::dec(JsonView::Text("tool"@)) == Some(Role::Tool),
{
    lemma_role_names();
}

/// A tool call is written with its identifier, its name and its arguments, and read from them,
/// all three of which must be there.
pub proof fn tool_calls_are_written_and_read_by_name(v: ToolCallView, m: Map<Seq<char>, JsonView>)
    ensures
        ToolCallMessage::enc(v) matches JsonView::Object(w) && {
            &&& w.dom() == set!["id"@, "name"@, "arguments"@]
            &&& w["id"@] == JsonView::Text(v.id)
            &&& w["name"@] == JsonView::Text(v.name)
            &&& w["arguments"@] == v.arguments
        },
        ToolCallMessage::dec(JsonView::Object(m)) == Some(v) <==> {
            &&& m.contains_key("id"@) && m["id"@] == JsonView::Text(v.id)
            &&& m.contains_key("name"@) && m["name"@] == JsonView::Text(v.name)
            &&& m.contains_key("arguments"@) && m["arguments"@] == v.arguments
        },
{
    lemma_tool_call_names();
    assert(ToolCallMessage::enc(v)->Object_0.dom() =~= set!["id"@, "name"@, "arguments"@]);
}

/// A block of a provider is written with the provider and the value, and read from them.
pub proof fn blocks_are_written_and_read_by_name(v: ContentBlockView, m: Map<Seq<char>, JsonView>)
    ensures
        ProviderContentBlock::enc(v) matches JsonView::Object(w) && {
            &&& w.dom() == set!["provider"@, "value"@]
            &&& w["provider"@] == JsonView::Text(v.provider)
            &&& w["value"@] == v.value
        },
        ProviderContentBlock::dec(JsonView::Object(m)) == Some(v) <==> {
            &&& m.contains_key("provider"@) && m["provider"@] == JsonView::Text(v.provider)
            &&& m.contains_key("value"@) && m["value"@] == v.value
        },
{
    lemma_block_names();
    assert(ProviderContentBlock::enc(v)->Object_0.dom() =~= set!["provider"@, "value"@]);
}

/// A message is written with its role, its content, its tool calls and the call that it answers;
/// the blocks of the provider are written only where there are any.
pub proof fn messages_are_written_by_name(v: MessageView)
    ensures
        Message::enc(v) matches JsonView::Object(w) && {
            &&& w.contains_key("role"@) && w["role"@] == Role::enc(v.role)
            &&& w.contains_key("content"@) && w["content"@] == JsonView::Text(v.content)
            &&& w.contains_key("tool_calls"@) && w["tool_calls"@] == enc_list::<ToolCallMessage>(v.tool_calls)
            &&& w.contains_key("tool_call_id"@) && w["tool_call_id"@] == text_or_null(v.tool_call_id)
            &&& w.contains_key("provider_content"@) <==> v.provider_content.len() > 0
            &&& v.provider_content.len() > 0 ==> w["provider_content"@] == enc_list::<ProviderContentBlock>(v.provider_content)
            &&& forall|k: Seq<char>| #[trigger]
                w.contains_key(k) ==> k == "role"@ || k == "content"@ || k == "tool_calls"@ || k == "tool_call_id"@ || k
                    == "provider_content"@
        },
{
    lemma_message_names();
}

/// A message is read from its members. The call that it answers may be missing or null, and the
/// blocks of the provider may be missing; the rest must be there.
pub proof fn messages_are_read_by_name(v: MessageView, m: Map<Seq<char>, JsonView>)
    ensures
        Message::dec(JsonView::Object(m)) == Some(v) <==> {
            &&& m.contains_key("role"@) && Role::dec(m["role"@]) == Some(v.role)
            &&& m.contains_key("content"@) && m["content"@] == JsonView::Text(v.content)
            &&& m.contains_key("tool_calls"@) && dec_list::<ToolCallMessage>(m["tool_calls"@]) == Some(v.tool_calls)
            &&& if m.contains_key("tool_call_id"@) {
                m["tool_call_id"@] == text_or_null(v.tool_call_id)
            } else {
                v.tool_call_id is None
            }
            &&& if m.contains_key("provider_content"@) {
                dec_list::<ProviderContentBlock>(m["provider_content"@]) == Some(v.provider_content)
            } else {
                v.provider_content == Seq::<ContentBlockView>::empty()
            }
        },
{
    lemma_message_names();
}

/// The use of tokens is written with its four counts, and read from them; the counts of cached
/// tokens may be missing, and are nothing then.
pub proof fn usage_is_written_and_read_by_name(v: TokenUsage, m: Map<Seq<char>, JsonView>)
    ensures
        TokenUsage::enc(v) matches JsonView::Object(w) && {
            &&& w.dom() == set!["input_tokens"@, "output_tokens"@, "cache_read_input_tokens"@, "cache_write_input_tokens"@]
            &&& w["input_tokens"@] == JsonView::Unsigned(v.input_tokens)
            &&& w["output_tokens"@] == JsonView::Unsigned(v.output_tokens)
            &&& w["cache_read_input_tokens"@] == JsonView::Unsigned(v.cache_read_input_tokens)
            &&& w["cache_write_input_tokens"@] == JsonView::Unsigned(v.cache_write_input_tokens)
        },
        TokenUsage::dec(JsonView::Object(m)) == Some(v) <==> {
            &&& m.contains_key("input_tokens"@) && m["input_tokens"@] == JsonView::Unsigned(v.input_tokens)
            &&& m.contains_key("output_tokens"@) && m["output_tokens"@] == JsonView::Unsigned(v.output_tokens)
            &&& if m.contains_key("cache_read_input_tokens"@) {
                m["cache_read_input_tokens"@] == JsonView::Unsigned(v.cache_read_input_tokens)
            } else {
                v.cache_read_input_tokens == 0
            }
            &&& if m.contains_key("cache_write_input_tokens"@) {
                m["cache_write_input_tokens"@] == JsonView::Unsigned(v.cache_write_input_tokens)
            } else {
                v.cache_write_input_tokens == 0
            }
        },
{
    lemma_usage_names();
    assert(TokenUsage::enc(v)->Object_0.dom() =~= set![
        "input_tokens"@,
        "output_tokens"@,
        "cache_read_input_tokens"@,
        "cache_write_input_tokens"@,
    ]);
}

/// The total is what went in and what came out, or the largest number where that is more.
pub proof fn totals_count_in_and_out(usage: TokenUsage, r: u64)
    requires
        call_ensures(TokenUsage::total, (&usage,), r),
    ensures
        r == usage.input_tokens + usage.output_tokens || (r == u64::MAX && usage.input_tokens + usage.output_tokens > u64::MAX),
{
}

// ---- Providers ---------------------------------------------------------------

/// Each status stands for its own error, which keeps the message of the provider; a status that
/// stands for none is told with the message.
pub proof fn statuses_are_told_apart(status: u16, message: &str, r: ProviderError, again: bool)
    requires
        call_ensures(ProviderError::classify, (status, message), r),
    ensures
        status == 401 || status == 403 <==> r is AuthError,
        status == 400 <==> r is BadRequest,
        status == 429 <==> r is RateLimit,
        status == 529 <==> r is Overloaded,
        500 <= status <= 599 && status != 529 <==> r is ServerError,
        !(r is BudgetExhausted),
        r matches ProviderError::AuthError(text) ==> text@ == message@,
        r matches ProviderError::BadRequest(text) ==> text@ == message@,
        r matches ProviderError::ServerError(text) ==> text@ == message@,
        r matches ProviderError::Overloaded(text) ==> text@ == message@,
        r matches ProviderError::RateLimit { retry_after_ms } ==> retry_after_ms is None,
        r matches ProviderError::Other(text) ==> text@ == "HTTP "@ + decimal(status as nat) + ": "@ + message@,
        call_ensures(ProviderError::is_retryable, (&r,), again) ==> (again <==> status == 429 || 500 <= status <= 599),
{
}

/// Only what is limited, overloaded or broken on the other side is worth another try.
pub proof fn only_transient_errors_are_tried_again(e: ProviderError, r: bool)
    requires
        call_ensures(ProviderError::is_retryable, (&e,), r),
    ensures
        r <==> e is RateLimit || e is ServerError || e is Overloaded,
{
}

// ---- Tools -------------------------------------------------------------------

/// A text is cut to so many characters where it has more, and says so; else it stays whole.
pub proof fn texts_are_cut_to_their_limit(content: &str, max_chars: usize, r: (String, bool))
    requires
        call_ensures(truncate_chars, (content, max_chars), r),
    ensures
        r.1 <==> content@.len() > max_chars,
        !r.1 ==> r.0@ == content@,
        r.1 ==> r.0@.len() == max_chars && r.0@.is_prefix_of(content@),
{
    if r.1 {
        assert(r.0@ =~= content@.subrange(0, max_chars as int));
    }
}

/// The output of a tool that succeeded or failed has the content, no structure, and a preview of at
/// most 4096 characters.
pub proof fn outputs_hold_their_content(content: &str, r: ToolOutput)
    ensures
        call_ensures(ToolOutput::success, (content,), r) ==> !r.is_error,
        call_ensures(ToolOutput::error, (content,), r) ==> r.is_error,
        call_ensures(ToolOutput::success, (content,), r) || call_ensures(ToolOutput::error, (content,), r) ==> {
            &&& r.content@ == content@
            &&& r.structured is None && r.hook_input is None && r.hook_output is None
            &&& content@.len() <= 4096 ==> r.log_preview@ == content@
            &&& content@.len() > 4096 ==> r.log_preview@ == content@.take(4096)
        },
{
}

/// The value of an output has its content, its error flag and its preview, and what else it holds.
pub proof fn outputs_are_written_by_name(v: ToolOutputView)
    ensures
        output_value(v) matches JsonView::Object(w) && {
            &&& w.contains_key("content"@) && w["content"@] == JsonView::Text(v.content)
            &&& w.contains_key("is_error"@) && w["is_error"@] == JsonView::Bool(v.is_error)
            &&& w.contains_key("log_preview"@) && w["log_preview"@] == JsonView::Text(v.log_preview)
            &&& w.contains_key("structured"@) <==> v.structured is Some
            &&& v.structured is Some ==> w["structured"@] == v.structured->0
            &&& w.contains_key("hook_input"@) <==> v.hook_input is Some
            &&& v.hook_input is Some ==> w["hook_input"@] == v.hook_input->0
            &&& w.contains_key("hook_output"@) <==> v.hook_output is Some
            &&& v.hook_output is Some ==> w["hook_output"@] == v.hook_output->0
        },
{
    lemma_output_names();
}

/// A text is an output that succeeded, an object with a content and an error flag is what it says,
/// and any other value is an output that succeeded with that structure.
pub proof fn values_are_read_as_outputs(json: JsonView)
    ensures
        json matches JsonView::Text(text) ==> {
            &&& output_of(json).content == text
            &&& !output_of(json).is_error
            &&& output_of(json).structured is None
        },
        json matches JsonView::Object(m) && m.contains_key("content"@) && m["content"@] is Text && m.contains_key("is_error"@)
            && m["is_error"@] is Bool ==> {
            let m = json->Object_0;
            &&& output_of(json).content == m["content"@]->Text_0
            &&& output_of(json).is_error == m["is_error"@]->Bool_0
            &&& m.contains_key("log_preview"@) && m["log_preview"@] is Text ==> output_of(json).log_preview
                == m["log_preview"@]->Text_0
            &&& output_of(json).structured == if m.contains_key("structured"@) { Some(m["structured"@]) } else { None }
            &&& output_of(json).hook_input == if m.contains_key("hook_input"@) { Some(m["hook_input"@]) } else { None }
            &&& output_of(json).hook_output == if m.contains_key("hook_output"@) { Some(m["hook_output"@]) } else { None }
        },
        !(json is Text) && !(json matches JsonView::Object(m) && m.contains_key("content"@) && m["content"@] is Text
            && m.contains_key("is_error"@) && m["is_error"@] is Bool) ==> {
            &&& !output_of(json).is_error
            &&& output_of(json).structured == Some(json)
            &&& output_of(json).content == crate::json::printed(json)
        },
{
}

/// An output is written and read as these values, and what is added to it leaves the rest.
pub proof fn outputs_are_values(o: ToolOutput, value: Json, r: Json, s: ToolOutput)
    ensures
        call_ensures(ToolOutput::to_value, (&o,), r) ==> r@ == output_value(o@),
        call_ensures(ToolOutput::from_value, (value,), s) ==> s@ == output_of(value@),
        call_ensures(ToolOutput::with_structured, (o, value), s) ==> s@.structured == Some(value@) && s@.hook_input == o@.hook_input
            && s@.hook_output == o@.hook_output && s@.content == o@.content && s.is_error == o.is_error && s@.log_preview
            == o@.log_preview,
        call_ensures(ToolOutput::with_hook_input, (o, value), s) ==> s@.hook_input == Some(value@) && s@.structured == o@.structured
            && s@.hook_output == o@.hook_output && s@.content == o@.content && s.is_error == o.is_error && s@.log_preview
            == o@.log_preview,
        call_ensures(ToolOutput::with_hook_output, (o, value), s) ==> s@.hook_output == Some(value@) && s@.structured == o@.structured
            && s@.hook_input == o@.hook_input && s@.content == o@.content && s.is_error == o.is_error && s@.log_preview
            == o@.log_preview,
{
}

/// The schema of an object has its properties and the names that must be there, and allows no
/// others; the schema of a plain value has its type and its description.
pub proof fn schemas_say_what_is_allowed(properties: Vec<(String, Json)>, required: Vec<String>, description: &str, r: Json)
    ensures
        call_ensures(ToolSchema::object, (properties, required), r) ==> (r@ matches JsonView::Object(m) && {
            &&& m.dom() == set!["type"@, "properties"@, "required"@, "additionalProperties"@]
            &&& m["type"@] == JsonView::Text("object"@)
            &&& m["properties"@] == JsonView::Object(crate::json::member_views(properties@))
            &&& m["additionalProperties"@] == JsonView::Bool(false)
            &&& m["required"@] matches JsonView::Array(names) && names.len() == required@.len() && forall|i: int|
                0 <= i < names.len() ==> #[trigger] names[i] == JsonView::Text(required@[i]@)
        }),
        call_ensures(ToolSchema::string, (description,), r) ==> is_plain_schema(r@, "string"@, description@),
        call_ensures(ToolSchema::number, (description,), r) ==> is_plain_schema(r@, "number"@, description@),
        call_ensures(ToolSchema::integer, (description,), r) ==> is_plain_schema(r@, "integer"@, description@),
        call_ensures(ToolSchema::boolean, (description,), r) ==> is_plain_schema(r@, "boolean"@, description@),
{
    reveal_strlit("type");
    reveal_strlit("description");
    reveal_strlit("properties");
    reveal_strlit("required");
    reveal_strlit("additionalProperties");
    assert("type"@.len() == 4 && "description"@.len() == 11 && "properties"@.len() == 10 && "required"@.len() == 8);
    assert("additionalProperties"@.len() == 20);
    if call_ensures(ToolSchema::object, (properties, required), r) {
        assert(r@->Object_0.dom() =~= set!["type"@, "properties"@, "required"@, "additionalProperties"@]);
        assert forall|i: int| 0 <= i < required@.len() implies #[trigger] r@->Object_0["required"@]->Array_0[i] == JsonView::Text(required@[i]@) by {
            assert(texts(required@)[i] == required@[i]@);
        }
    }
    if r@ is Object {
        let m = r@->Object_0;
        assert(m.dom() =~= set!["type"@, "description"@] || m.dom() != set!["type"@, "description"@]);
        if call_ensures(ToolSchema::string, (description,), r) || call_ensures(ToolSchema::number, (description,), r) || call_ensures(
            ToolSchema::integer,
            (description,),
            r,
        ) || call_ensures(ToolSchema::boolean, (description,), r) {
            assert(m.dom() =~= set!["type"@, "description"@]);
        }
    }
}

/// A schema of a type with a description, and nothing else.
pub open spec fn is_plain_schema(json: JsonView, kind: Seq<char>, description: Seq<char>) -> bool {
    json matches JsonView::Object(m) && m.dom() == set!["type"@, "description"@] && m["type"@] == JsonView::Text(kind)
        && m["description"@] == JsonView::Text(description)
}

/// A hook is told the tool and its arguments, and after the call the result too. What it hands back
/// in their place counts; where it hands nothing back, the original stays.
pub proof fn hooks_see_and_replace(
    name: &str,
    arguments: Json,
    result: Json,
    payload: Json,
    r: Json,
)
    ensures
        call_ensures(hook_input_payload, (name, &arguments), r) ==> (r@ matches JsonView::Object(m) && m.dom() == set![
            "tool"@,
            "arguments"@,
        ] && m["tool"@] == JsonView::Text(name@) && m["arguments"@] == arguments@),
        call_ensures(hook_output_payload, (name, &arguments, &result), r) ==> (r@ matches JsonView::Object(m) && m.dom() == set![
            "tool"@,
            "arguments"@,
            "result"@,
        ] && m["tool"@] == JsonView::Text(name@) && m["arguments"@] == arguments@ && m["result"@] == result@),
        call_ensures(arguments_from_hook_input, (arguments, &payload), r) ==> r@ == match payload@ {
            JsonView::Object(m) => if m.contains_key("arguments"@) { m["arguments"@] } else { arguments@ },
            _ => arguments@,
        },
        call_ensures(result_from_hook_output, (result, &payload), r) ==> r@ == match payload@ {
            JsonView::Object(m) => if m.contains_key("result"@) { m["result"@] } else { result@ },
            _ => result@,
        },
{
    lemma_hook_names();
    if call_ensures(hook_input_payload, (name, &arguments), r) {
        assert(r@->Object_0.dom() =~= set!["tool"@, "arguments"@]);
    }
    if call_ensures(hook_output_payload, (name, &arguments, &result), r) {
        assert(r@->Object_0.dom() =~= set!["tool"@, "arguments"@, "result"@]);
    }
}

} // verus!
