//! What a model provider answers, as JSON.
use crate::coding::{enc_optional, has_tag, mark, optional, optional_field, optional_to_json, required, required_field, tagged, view_of, Coded};
use crate::json::{member, put, Json, JsonView};
use crate::record::{as_record, as_variant, find_object_fault, find_optional_fault, find_required_fault, find_tag_fault, first, leading_text, list_tag, names_unit, object_fault, optional_fault, record_of, required_fault, said, shape_view, tag_fault, tell, unit_name, variant_of};
use crate::text::{copy, opt_text, texts};
use crate::types::message::{Message, MessageView, TokenUsage};
use crate::types::provider::{FinishReason, ProviderResponse, ProviderStreamEvent};
use vstd::prelude::*;

verus! {

broadcast use vstd::seq_lib::group_seq_properties;

/// The names of a reason to stop differ.
pub proof fn lemma_finish_names()
    ensures
        mark("end_turn"@) == 8_101_116_110,
        mark("tool_use"@) == 8_116_095_101,
        mark("max_tokens"@) == 10_109_111_115,
        mark("stop_sequence"@) == 13_115_101_101,
{
    reveal_strlit("end_turn");
    reveal_strlit("tool_use");
    reveal_strlit("max_tokens");
    reveal_strlit("stop_sequence");
}

/// The name of a reason to stop.
pub open spec fn finish_name(v: FinishReason) -> Seq<char> {
    match v {
        FinishReason::EndTurn => "end_turn"@,
        FinishReason::ToolUse => "tool_use"@,
        FinishReason::MaxTokens => "max_tokens"@,
        FinishReason::StopSequence => "stop_sequence"@,
    }
}

impl View for FinishReason {
    type V = FinishReason;

    open spec fn view(&self) -> FinishReason {
        *self
    }
}

impl Coded for FinishReason {
    open spec fn stable(v: FinishReason) -> bool {
        true
    }

    open spec fn enc(v: FinishReason) -> JsonView {
        JsonView::Text(finish_name(v))
    }

    open spec fn dec(json: JsonView) -> Option<FinishReason> {
        if names_unit(json, "end_turn"@) {
            Some(FinishReason::EndTurn)
        } else if names_unit(json, "tool_use"@) {
            Some(FinishReason::ToolUse)
        } else if names_unit(json, "max_tokens"@) {
            Some(FinishReason::MaxTokens)
        } else if names_unit(json, "stop_sequence"@) {
            Some(FinishReason::StopSequence)
        } else {
            None
        }
    }

    open spec fn complaint(json: JsonView) -> Seq<char> {
        "expected one of end_turn, tool_use, max_tokens, stop_sequence"@
    }

    proof fn round_trip(v: FinishReason) {
        lemma_finish_names();
    }

    fn to_json(&self) -> (r: Json) {
        Json::text(
            match self {
                FinishReason::EndTurn => "end_turn",
                FinishReason::ToolUse => "tool_use",
                FinishReason::MaxTokens => "max_tokens",
                FinishReason::StopSequence => "stop_sequence",
            },
        )
    }

    fn read(json: &Json) -> (r: Option<Self>) {
        proof {
            lemma_finish_names();
        }
        match unit_name(json) {
            Some(name) => {
                if *name.as_str() == *"end_turn" {
                    Some(FinishReason::EndTurn)
                } else if *name.as_str() == *"tool_use" {
                    Some(FinishReason::ToolUse)
                } else if *name.as_str() == *"max_tokens" {
                    Some(FinishReason::MaxTokens)
                } else if *name.as_str() == *"stop_sequence" {
                    Some(FinishReason::StopSequence)
                } else {
                    None
                }
            },
            None => None,
        }
    }

    fn complain(json: &Json) -> (r: String) {
        copy("expected one of end_turn, tool_use, max_tokens, stop_sequence")
    }
}

/// What a [`ProviderResponse`] says.
pub struct ResponseView {
    pub message: MessageView,
    pub token_usage: TokenUsage,
    pub finish_reason: FinishReason,
    pub provider_response_id: Option<Seq<char>>,
    pub model: Seq<char>,
}

impl View for ProviderResponse {
    type V = ResponseView;

    open spec fn view(&self) -> ResponseView {
        ResponseView {
            message: self.message@,
            token_usage: self.token_usage,
            finish_reason: self.finish_reason,
            provider_response_id: opt_text(self.provider_response_id),
            model: self.model@,
        }
    }
}

/// The names of the members of a response differ.
pub proof fn lemma_response_names()
    ensures
        mark("message"@) == 7_109_115_101,
        mark("token_usage"@) == 11_116_095_101,
        mark("finish_reason"@) == 13_102_095_110,
        mark("provider_response_id"@) == 20_112_101_100,
        mark("model"@) == 5_109_100_108,
{
    reveal_strlit("message");
    reveal_strlit("token_usage");
    reveal_strlit("finish_reason");
    reveal_strlit("provider_response_id");
    reveal_strlit("model");
}

/// The value that the members of an object stand for, where they stand for a response.
pub open spec fn response_value(json: JsonView) -> Option<ResponseView> {
    match (
        required::<Message>(member(json, "message"@)),
        required::<TokenUsage>(member(json, "token_usage"@)),
        required::<FinishReason>(member(json, "finish_reason"@)),
        optional::<String>(member(json, "provider_response_id"@)),
        required::<String>(member(json, "model"@)),
    ) {
        (
            Some(message),
            Some(token_usage),
            Some(finish_reason),
            Some(provider_response_id),
            Some(model),
        ) => Some(
            ResponseView { message, token_usage, finish_reason, provider_response_id, model },
        ),
        _ => None,
    }
}

/// Reads the members of a response.
fn read_response_value(json: &Json) -> (r: Option<ProviderResponse>)
    ensures
        view_of(r) == response_value(json@),
{
    match (
        required_field::<Message>(json, "message"),
        required_field::<TokenUsage>(json, "token_usage"),
        required_field::<FinishReason>(json, "finish_reason"),
        optional_field::<String>(json, "provider_response_id"),
        required_field::<String>(json, "model"),
    ) {
        (
            Some(message),
            Some(token_usage),
            Some(finish_reason),
            Some(provider_response_id),
            Some(model),
        ) => Some(
            ProviderResponse { message, token_usage, finish_reason, provider_response_id, model },
        ),
        _ => None,
    }
}

/// The members of a response.
pub open spec fn response_names() -> Seq<Seq<char>> {
    seq!["message"@, "token_usage"@, "finish_reason"@, "provider_response_id"@, "model"@]
}

/// The object that a list stands for, where it stands for a response.
fn response_record(json: &Json) -> (r: Option<Json>)
    ensures
        match r {
            Some(record) => record@ == record_of(json@, response_names(), 5),
            None => json@ == record_of(json@, response_names(), 5),
        },
{
    let names: Vec<String> = vec![
        copy("message"),
        copy("token_usage"),
        copy("finish_reason"),
        copy("provider_response_id"),
        copy("model"),
    ];
    assert(texts(names@) =~= response_names());
    as_record(json, &names, 5)
}

/// What is wrong with the members of a response.
pub open spec fn response_fault(json: JsonView) -> Option<Seq<char>> {
    first(
        object_fault(json),
        first(
            required_fault::<Message>(json, "message"@),
            first(
                required_fault::<TokenUsage>(json, "token_usage"@),
                first(
                    required_fault::<FinishReason>(json, "finish_reason"@),
                    first(
                        optional_fault::<String>(json, "provider_response_id"@),
                        required_fault::<String>(json, "model"@),
                    ),
                ),
            ),
        ),
    )
}

/// Finds what is wrong with the members of a response.
fn find_response_fault(json: &Json) -> (r: Option<String>)
    ensures
        opt_text(r) == response_fault(json@),
{
    let fault = find_object_fault(json);
    if fault.is_some() {
        return fault;
    }
    let fault = find_required_fault::<Message>(json, "message");
    if fault.is_some() {
        return fault;
    }
    let fault = find_required_fault::<TokenUsage>(json, "token_usage");
    if fault.is_some() {
        return fault;
    }
    let fault = find_required_fault::<FinishReason>(json, "finish_reason");
    if fault.is_some() {
        return fault;
    }
    let fault = find_optional_fault::<String>(json, "provider_response_id");
    if fault.is_some() {
        return fault;
    }
    find_required_fault::<String>(json, "model")
}

impl Coded for ProviderResponse {
    open spec fn stable(v: ResponseView) -> bool {
        true
    }

    open spec fn enc(v: ResponseView) -> JsonView {
        JsonView::Object(
            Map::empty()
                .insert("message"@, Message::enc(v.message))
                .insert("token_usage"@, TokenUsage::enc(v.token_usage))
                .insert("finish_reason"@, FinishReason::enc(v.finish_reason))
                .insert("provider_response_id"@, enc_optional::<String>(v.provider_response_id))
                .insert("model"@, String::enc(v.model)),
        )
    }

    open spec fn dec(json: JsonView) -> Option<ResponseView> {
        response_value(record_of(json, response_names(), 5))
    }

    open spec fn complaint(json: JsonView) -> Seq<char> {
        said(response_fault(record_of(json, response_names(), 5)))
    }

    proof fn round_trip(v: ResponseView) {
        lemma_response_names();
        let json = Self::enc(v);
        assert(member(json, "message"@) == Some(Message::enc(v.message)));
        Message::round_trip(v.message);
        assert(member(json, "token_usage"@) == Some(TokenUsage::enc(v.token_usage)));
        TokenUsage::round_trip(v.token_usage);
        assert(member(json, "finish_reason"@) == Some(FinishReason::enc(v.finish_reason)));
        FinishReason::round_trip(v.finish_reason);
        assert(member(json, "provider_response_id"@) == Some(enc_optional::<String>(v.provider_response_id)));
        if v.provider_response_id is Some {
            String::round_trip(v.provider_response_id->0);
        }
        assert(member(json, "model"@) == Some(String::enc(v.model)));
        String::round_trip(v.model);
    }

    fn to_json(&self) -> (r: Json) {
        let mut m: Vec<(String, Json)> = Vec::new();
        put(&mut m, "message", self.message.to_json());
        put(&mut m, "token_usage", self.token_usage.to_json());
        put(&mut m, "finish_reason", self.finish_reason.to_json());
        put(&mut m, "provider_response_id", optional_to_json(&self.provider_response_id));
        put(&mut m, "model", self.model.to_json());
        Json::Object(m)
    }

    fn read(json: &Json) -> (r: Option<Self>) {
        match response_record(json) {
            Some(record) => read_response_value(&record),
            None => read_response_value(json),
        }
    }

    fn complain(json: &Json) -> (r: String) {
        match response_record(json) {
            Some(record) => tell(find_response_fault(&record)),
            None => tell(find_response_fault(json)),
        }
    }
}

/// What a [`ProviderStreamEvent`] says.
pub enum StreamEventView {
    TextDelta { text: Seq<char> },
    ThinkingStart,
    ThinkingDelta { text: Seq<char> },
    ThinkingEnd,
}

impl View for ProviderStreamEvent {
    type V = StreamEventView;

    open spec fn view(&self) -> StreamEventView {
        match self {
            ProviderStreamEvent::TextDelta { text } => StreamEventView::TextDelta { text: text@ },
            ProviderStreamEvent::ThinkingStart => StreamEventView::ThinkingStart,
            ProviderStreamEvent::ThinkingDelta { text } => StreamEventView::ThinkingDelta { text: text@ },
            ProviderStreamEvent::ThinkingEnd => StreamEventView::ThinkingEnd,
        }
    }
}

/// The names of the members of a streamed event differ.
pub proof fn lemma_stream_event_names()
    ensures
        mark("type"@) == 4_116_112_101,
        mark("text"@) == 4_116_120_116,
{
    reveal_strlit("type");
    reveal_strlit("text");
}

/// The names of the variants of a streamed event differ.
pub proof fn lemma_stream_event_tags()
    ensures
        mark("text_delta"@) == 10_116_100_097,
        mark("thinking_start"@) == 14_116_103_116,
        mark("thinking_delta"@) == 14_116_103_097,
        mark("thinking_end"@) == 12_116_110_100,
{
    reveal_strlit("text_delta");
    reveal_strlit("thinking_start");
    reveal_strlit("thinking_delta");
    reveal_strlit("thinking_end");
}

/// The value that the members of an object stand for, where they stand for a streamed event.
pub open spec fn stream_event_value(json: JsonView) -> Option<StreamEventView> {
    if has_tag(json, "text_delta"@) {
        match required::<String>(member(json, "text"@)) {
            Some(text) => Some(
                StreamEventView::TextDelta { text },
            ),
            _ => None,
        }
    } else if has_tag(json, "thinking_start"@) {
        Some(StreamEventView::ThinkingStart)
    } else if has_tag(json, "thinking_delta"@) {
        match required::<String>(member(json, "text"@)) {
            Some(text) => Some(
                StreamEventView::ThinkingDelta { text },
            ),
            _ => None,
        }
    } else if has_tag(json, "thinking_end"@) {
        Some(StreamEventView::ThinkingEnd)
    } else {
        None
    }
}

/// Reads the members of a streamed event.
fn read_stream_event_value(json: &Json) -> (r: Option<ProviderStreamEvent>)
    ensures
        view_of(r) == stream_event_value(json@),
{
    let tag = match json.get("type") {
        Some(Json::Text(tag)) => tag.as_str(),
        _ => {
            return None;
        },
    };
    if *tag == *"text_delta" {
        match required_field::<String>(json, "text") {
            Some(text) => Some(
                ProviderStreamEvent::TextDelta { text },
            ),
            _ => None,
        }
    } else if *tag == *"thinking_start" {
        Some(ProviderStreamEvent::ThinkingStart)
    } else if *tag == *"thinking_delta" {
        match required_field::<String>(json, "text") {
            Some(text) => Some(
                ProviderStreamEvent::ThinkingDelta { text },
            ),
            _ => None,
        }
    } else if *tag == *"thinking_end" {
        Some(ProviderStreamEvent::ThinkingEnd)
    } else {
        None
    }
}

/// The members of each variant of a streamed event, the tag first.
pub open spec fn stream_event_shape(tag: Seq<char>) -> Option<(Seq<Seq<char>>, nat)> {
    if tag == "text_delta"@ {
        Some((seq!["type"@, "text"@], 2))
    } else if tag == "thinking_start"@ {
        Some((seq!["type"@], 1))
    } else if tag == "thinking_delta"@ {
        Some((seq!["type"@, "text"@], 2))
    } else if tag == "thinking_end"@ {
        Some((seq!["type"@], 1))
    } else {
        None
    }
}

/// The object that stands for a streamed event, which may be written as the list of a tag and of the
/// values of the variant's members.
pub open spec fn stream_event_record(json: JsonView) -> JsonView {
    match leading_text(json) {
        Some(tag) => variant_of(json, stream_event_shape(tag)),
        None => json,
    }
}

/// The members of each variant of a streamed event, the tag first.
fn shape_of_stream_event(tag: &str) -> (r: Option<(Vec<String>, usize)>)
    ensures
        shape_view(r) == stream_event_shape(tag@),
{
    if *tag == *"text_delta" {
        let names: Vec<String> = vec![copy("type"), copy("text")];
        assert(texts(names@) =~= seq!["type"@, "text"@]);
        Some((names, 2))
    } else if *tag == *"thinking_start" {
        let names: Vec<String> = vec![copy("type")];
        assert(texts(names@) =~= seq!["type"@]);
        Some((names, 1))
    } else if *tag == *"thinking_delta" {
        let names: Vec<String> = vec![copy("type"), copy("text")];
        assert(texts(names@) =~= seq!["type"@, "text"@]);
        Some((names, 2))
    } else if *tag == *"thinking_end" {
        let names: Vec<String> = vec![copy("type")];
        assert(texts(names@) =~= seq!["type"@]);
        Some((names, 1))
    } else {
        None
    }
}

/// The object that a list stands for, where it stands for a streamed event.
fn record_of_stream_event(json: &Json) -> (r: Option<Json>)
    ensures
        match r {
            Some(record) => record@ == stream_event_record(json@),
            None => json@ == stream_event_record(json@),
        },
{
    match list_tag(json) {
        Some(tag) => as_variant(json, &shape_of_stream_event(tag.as_str())),
        None => None,
    }
}

/// What is wrong with the members of a streamed event.
pub open spec fn stream_event_fault(json: JsonView) -> Option<Seq<char>> {
    if has_tag(json, "text_delta"@) {
        required_fault::<String>(json, "text"@)
    } else if has_tag(json, "thinking_start"@) {
        None
    } else if has_tag(json, "thinking_delta"@) {
        required_fault::<String>(json, "text"@)
    } else if has_tag(json, "thinking_end"@) {
        None
    } else {
        Some(tag_fault(json, "type"@))
    }
}

/// Finds what is wrong with the members of a streamed event.
fn find_stream_event_fault(json: &Json) -> (r: Option<String>)
    ensures
        opt_text(r) == stream_event_fault(json@),
{
    let tag = match json.get("type") {
        Some(Json::Text(tag)) => tag.as_str(),
        _ => {
            return Some(find_tag_fault(json, "type"));
        },
    };
    if *tag == *"text_delta" {
        find_required_fault::<String>(json, "text")
    } else if *tag == *"thinking_start" {
        None
    } else if *tag == *"thinking_delta" {
        find_required_fault::<String>(json, "text")
    } else if *tag == *"thinking_end" {
        None
    } else {
        Some(find_tag_fault(json, "type"))
    }
}

impl Coded for ProviderStreamEvent {
    open spec fn stable(v: StreamEventView) -> bool {
        true
    }

    open spec fn enc(v: StreamEventView) -> JsonView {
        match v {
            StreamEventView::TextDelta { text } => JsonView::Object(
                tagged("text_delta"@).insert("text"@, String::enc(text)),
            ),
            StreamEventView::ThinkingStart => JsonView::Object(
                tagged("thinking_start"@),
            ),
            StreamEventView::ThinkingDelta { text } => JsonView::Object(
                tagged("thinking_delta"@).insert("text"@, String::enc(text)),
            ),
            StreamEventView::ThinkingEnd => JsonView::Object(
                tagged("thinking_end"@),
            ),
        }
    }

    open spec fn dec(json: JsonView) -> Option<StreamEventView> {
        stream_event_value(stream_event_record(json))
    }

    open spec fn complaint(json: JsonView) -> Seq<char> {
        said(stream_event_fault(stream_event_record(json)))
    }

    proof fn round_trip(v: StreamEventView) {
        lemma_stream_event_names();
        lemma_stream_event_tags();
        let json = Self::enc(v);
        match v {
            StreamEventView::TextDelta { text } => {
                assert(has_tag(json, "text_delta"@));
                assert(member(json, "text"@) == Some(String::enc(text)));
            },
            StreamEventView::ThinkingStart => {
                assert(has_tag(json, "thinking_start"@));
            },
            StreamEventView::ThinkingDelta { text } => {
                assert(has_tag(json, "thinking_delta"@));
                assert(member(json, "text"@) == Some(String::enc(text)));
            },
            StreamEventView::ThinkingEnd => {
                assert(has_tag(json, "thinking_end"@));
            },
        }
    }

    fn to_json(&self) -> (r: Json) {
        let mut m: Vec<(String, Json)> = Vec::new();
        match self {
            ProviderStreamEvent::TextDelta { text } => {
                put(&mut m, "type", Json::text("text_delta"));
                put(&mut m, "text", text.to_json());
            },
            ProviderStreamEvent::ThinkingStart => {
                put(&mut m, "type", Json::text("thinking_start"));
            },
            ProviderStreamEvent::ThinkingDelta { text } => {
                put(&mut m, "type", Json::text("thinking_delta"));
                put(&mut m, "text", text.to_json());
            },
            ProviderStreamEvent::ThinkingEnd => {
                put(&mut m, "type", Json::text("thinking_end"));
            },
        }
        Json::Object(m)
    }

    fn read(json: &Json) -> (r: Option<Self>) {
        match record_of_stream_event(json) {
            Some(record) => read_stream_event_value(&record),
            None => read_stream_event_value(json),
        }
    }

    fn complain(json: &Json) -> (r: String) {
        match record_of_stream_event(json) {
            Some(record) => tell(find_stream_event_fault(&record)),
            None => tell(find_stream_event_fault(json)),
        }
    }
}

/// An answer of a provider is refused where something is wrong with it, and only there.
pub proof fn refused_answers_are_explained(json: JsonView)
    ensures
        response_fault(json) is Some <==> response_value(json) is None,
        stream_event_fault(json) is Some <==> stream_event_value(json) is None,
{
}

} // verus!
