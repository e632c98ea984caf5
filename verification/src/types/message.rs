//! Conversations: messages, tool calls, and what they cost in tokens.
use crate::coding::{dec_list, enc_list, list_from_json, list_round_trip, list_to_json, mark, view_of, views, Coded};
use crate::json::{maybe_text_of, member, nullable, put, text_of, unsigned_of, Json, JsonView};
use crate::record::{as_record, default_fault, default_list_fault, find_default_fault, find_default_list_fault, find_list_fault, find_object_fault, find_optional_fault, find_required_fault, first, lemma_item_fault, list_fault, names_unit, object_fault, optional_fault, record_of, required_fault, said, tell, unit_name};
use crate::text::{copy, opt_text, texts};
use vstd::prelude::*;

verus! {

broadcast use vstd::seq_lib::group_seq_properties;

/// Unique identifier for an agent instance.
#[derive(Debug, PartialEq, Eq, Hash)]
pub struct AgentId(pub String);

impl View for AgentId {
    type V = Seq<char>;

    open spec fn view(&self) -> Seq<char> {
        self.0@
    }
}

impl Clone for AgentId {
    fn clone(&self) -> (r: Self)
        ensures
            r@ == self@,
    {
        AgentId(self.0.clone())
    }
}

impl Coded for AgentId {
    open spec fn stable(v: Seq<char>) -> bool {
        true
    }

    open spec fn enc(v: Seq<char>) -> JsonView {
        JsonView::Text(v)
    }

    open spec fn dec(json: JsonView) -> Option<Seq<char>> {
        text_of(Some(json))
    }

    open spec fn complaint(json: JsonView) -> Seq<char> {
        String::complaint(json)
    }

    proof fn round_trip(v: Seq<char>) {
    }

    fn to_json(&self) -> (r: Json) {
        Json::Text(self.0.clone())
    }

    fn read(json: &Json) -> (r: Option<Self>) {
        match json {
            Json::Text(id) => Some(AgentId(id.clone())),
            _ => None,
        }
    }

    fn complain(json: &Json) -> (r: String) {
        String::complain(json)
    }
}

/// Role in a conversation.
#[derive(Debug, Clone, Copy, PartialEq, Eq)]
pub enum Role {
    System,
    User,
    Assistant,
    Tool,
}

impl View for Role {
    type V = Role;

    open spec fn view(&self) -> Role {
        *self
    }
}

/// The name of a role.
pub open spec fn role_name(role: Role) -> Seq<char> {
    match role {
        Role::System => "system"@,
        Role::User => "user"@,
        Role::Assistant => "assistant"@,
        Role::Tool => "tool"@,
    }
}

/// The names of the roles differ.
pub proof fn lemma_role_names()
    ensures
        mark("system"@) == 6_115_116_109,
        mark("user"@) == 4_117_101_114,
        mark("assistant"@) == 9_097_115_116,
        mark("tool"@) == 4_116_111_108,
{
    reveal_strlit("system");
    reveal_strlit("user");
    reveal_strlit("assistant");
    reveal_strlit("tool");
}

impl Coded for Role {
    open spec fn stable(v: Role) -> bool {
        true
    }

    open spec fn enc(v: Role) -> JsonView {
        JsonView::Text(role_name(v))
    }

    open spec fn dec(json: JsonView) -> Option<Role> {
        if names_unit(json, "system"@) {
            Some(Role::System)
        } else if names_unit(json, "user"@) {
            Some(Role::User)
        } else if names_unit(json, "assistant"@) {
            Some(Role::Assistant)
        } else if names_unit(json, "tool"@) {
            Some(Role::Tool)
        } else {
            None
        }
    }

    open spec fn complaint(json: JsonView) -> Seq<char> {
        "expected one of system, user, assistant, tool"@
    }

    proof fn round_trip(v: Role) {
        lemma_role_names();
    }

    fn to_json(&self) -> (r: Json) {
        Json::text(
            match self {
                Role::System => "system",
                Role::User => "user",
                Role::Assistant => "assistant",
                Role::Tool => "tool",
            },
        )
    }

    fn read(json: &Json) -> (r: Option<Self>) {
        proof {
            lemma_role_names();
        }
        match unit_name(json) {
            Some(name) => if *name.as_str() == *"system" {
                Some(Role::System)
            } else if *name.as_str() == *"user" {
                Some(Role::User)
            } else if *name.as_str() == *"assistant" {
                Some(Role::Assistant)
            } else if *name.as_str() == *"tool" {
                Some(Role::Tool)
            } else {
                None
            },
            _ => None,
        }
    }

    fn complain(json: &Json) -> (r: String) {
        copy("expected one of system, user, assistant, tool")
    }
}

/// A tool call embedded in an assistant message.
#[derive(Debug)]
pub struct ToolCallMessage {
    pub id: String,
    pub name: String,
    pub arguments: Json,
}

/// What a [`ToolCallMessage`] says.
pub struct ToolCallView {
    pub id: Seq<char>,
    pub name: Seq<char>,
    pub arguments: JsonView,
}

impl View for ToolCallMessage {
    type V = ToolCallView;

    open spec fn view(&self) -> ToolCallView {
        ToolCallView { id: self.id@, name: self.name@, arguments: self.arguments@ }
    }
}

impl Clone for ToolCallMessage {
    fn clone(&self) -> (r: Self)
        ensures
            r@ == self@,
    {
        ToolCallMessage { id: self.id.clone(), name: self.name.clone(), arguments: self.arguments.clone() }
    }
}

/// The names of the members of a tool call differ.
pub proof fn lemma_tool_call_names()
    ensures
        mark("id"@) == 2_105_100_100,
        mark("name"@) == 4_110_109_101,
        mark("arguments"@) == 9_097_109_115,
{
    reveal_strlit("id");
    reveal_strlit("name");
    reveal_strlit("arguments");
}

/// The value that the members of an object stand for, where they stand for a tool call.
pub open spec fn tool_call_message_value(json: JsonView) -> Option<ToolCallView> {
    match (text_of(member(json, "id"@)), text_of(member(json, "name"@)), member(json, "arguments"@)) {
        (Some(id), Some(name), Some(arguments)) => Some(ToolCallView { id, name, arguments }),
        _ => None,
    }
}

/// Reads the members of a tool call.
fn read_tool_call_message_value(json: &Json) -> (r: Option<ToolCallMessage>)
    ensures
        view_of(r) == tool_call_message_value(json@),
{
    match (json.text_field("id"), json.text_field("name"), json.get("arguments")) {
        (Some(id), Some(name), Some(arguments)) => Some(
            ToolCallMessage { id, name, arguments: arguments.clone() },
        ),
        _ => None,
    }
}

/// The members of a tool call.
pub open spec fn tool_call_message_names() -> Seq<Seq<char>> {
    seq!["id"@, "name"@, "arguments"@]
}

/// The object that a list stands for, where it stands for a tool call.
fn tool_call_message_record(json: &Json) -> (r: Option<Json>)
    ensures
        match r {
            Some(record) => record@ == record_of(json@, tool_call_message_names(), 3),
            None => json@ == record_of(json@, tool_call_message_names(), 3),
        },
{
    let names: Vec<String> = vec![copy("id"), copy("name"), copy("arguments")];
    assert(texts(names@) =~= tool_call_message_names());
    as_record(json, &names, 3)
}

/// What is wrong with the members of a tool call.
pub open spec fn tool_call_message_fault(json: JsonView) -> Option<Seq<char>> {
    first(
        object_fault(json),
        first(
            required_fault::<String>(json, "id"@),
            first(
                required_fault::<String>(json, "name"@),
                required_fault::<Json>(json, "arguments"@),
            ),
        ),
    )
}

/// Finds what is wrong with the members of a tool call.
fn find_tool_call_message_fault(json: &Json) -> (r: Option<String>)
    ensures
        opt_text(r) == tool_call_message_fault(json@),
{
    let fault = find_object_fault(json);
    if fault.is_some() {
        return fault;
    }
    let fault = find_required_fault::<String>(json, "id");
    if fault.is_some() {
        return fault;
    }
    let fault = find_required_fault::<String>(json, "name");
    if fault.is_some() {
        return fault;
    }
    find_required_fault::<Json>(json, "arguments")
}

impl Coded for ToolCallMessage {
    open spec fn stable(v: ToolCallView) -> bool {
        true
    }

    open spec fn enc(v: ToolCallView) -> JsonView {
        JsonView::Object(
            Map::empty().insert("id"@, JsonView::Text(v.id)).insert("name"@, JsonView::Text(v.name)).insert(
                "arguments"@,
                v.arguments,
            ),
        )
    }

    open spec fn dec(json: JsonView) -> Option<ToolCallView> {
        tool_call_message_value(record_of(json, tool_call_message_names(), 3))
    }

    open spec fn complaint(json: JsonView) -> Seq<char> {
        said(tool_call_message_fault(record_of(json, tool_call_message_names(), 3)))
    }

    proof fn round_trip(v: ToolCallView) {
        lemma_tool_call_names();
    }

    fn to_json(&self) -> (r: Json) {
        let mut m: Vec<(String, Json)> = Vec::new();
        put(&mut m, "id", Json::Text(self.id.clone()));
        put(&mut m, "name", Json::Text(self.name.clone()));
        put(&mut m, "arguments", self.arguments.clone());
        Json::Object(m)
    }

    fn read(json: &Json) -> (r: Option<Self>) {
        match tool_call_message_record(json) {
            Some(record) => read_tool_call_message_value(&record),
            None => read_tool_call_message_value(json),
        }
    }

    fn complain(json: &Json) -> (r: String) {
        match tool_call_message_record(json) {
            Some(record) => tell(find_tool_call_message_fault(&record)),
            None => tell(find_tool_call_message_fault(json)),
        }
    }
}

/// Provider-specific content that is not assistant-visible text or a tool call.
#[derive(Debug)]
pub struct ProviderContentBlock {
    pub provider: String,
    pub value: Json,
}

/// What a [`ProviderContentBlock`] says.
pub struct ContentBlockView {
    pub provider: Seq<char>,
    pub value: JsonView,
}

impl View for ProviderContentBlock {
    type V = ContentBlockView;

    open spec fn view(&self) -> ContentBlockView {
        ContentBlockView { provider: self.provider@, value: self.value@ }
    }
}

impl Clone for ProviderContentBlock {
    fn clone(&self) -> (r: Self)
        ensures
            r@ == self@,
    {
        ProviderContentBlock { provider: self.provider.clone(), value: self.value.clone() }
    }
}

/// The names of the members of a content block differ.
pub proof fn lemma_block_names()
    ensures
        mark("provider"@) == 8_112_105_114,
        mark("value"@) == 5_118_108_101,
{
    reveal_strlit("provider");
    reveal_strlit("value");
}

/// The value that the members of an object stand for, where they stand for a content block.
pub open spec fn content_block_value(json: JsonView) -> Option<ContentBlockView> {
    match (text_of(member(json, "provider"@)), member(json, "value"@)) {
        (Some(provider), Some(value)) => Some(ContentBlockView { provider, value }),
        _ => None,
    }
}

/// Reads the members of a content block.
fn read_content_block_value(json: &Json) -> (r: Option<ProviderContentBlock>)
    ensures
        view_of(r) == content_block_value(json@),
{
    match (json.text_field("provider"), json.get("value")) {
        (Some(provider), Some(value)) => Some(ProviderContentBlock { provider, value: value.clone() }),
        _ => None,
    }
}

/// The members of a content block.
pub open spec fn content_block_names() -> Seq<Seq<char>> {
    seq!["provider"@, "value"@]
}

/// The object that a list stands for, where it stands for a content block.
fn content_block_record(json: &Json) -> (r: Option<Json>)
    ensures
        match r {
            Some(record) => record@ == record_of(json@, content_block_names(), 2),
            None => json@ == record_of(json@, content_block_names(), 2),
        },
{
    let names: Vec<String> = vec![copy("provider"), copy("value")];
    assert(texts(names@) =~= content_block_names());
    as_record(json, &names, 2)
}

/// What is wrong with the members of a content block.
pub open spec fn content_block_fault(json: JsonView) -> Option<Seq<char>> {
    first(
        object_fault(json),
        first(
            required_fault::<String>(json, "provider"@),
            required_fault::<Json>(json, "value"@),
        ),
    )
}

/// Finds what is wrong with the members of a content block.
fn find_content_block_fault(json: &Json) -> (r: Option<String>)
    ensures
        opt_text(r) == content_block_fault(json@),
{
    let fault = find_object_fault(json);
    if fault.is_some() {
        return fault;
    }
    let fault = find_required_fault::<String>(json, "provider");
    if fault.is_some() {
        return fault;
    }
    find_required_fault::<Json>(json, "value")
}

impl Coded for ProviderContentBlock {
    open spec fn stable(v: ContentBlockView) -> bool {
        true
    }

    open spec fn enc(v: ContentBlockView) -> JsonView {
        JsonView::Object(Map::empty().insert("provider"@, JsonView::Text(v.provider)).insert("value"@, v.value))
    }

    open spec fn dec(json: JsonView) -> Option<ContentBlockView> {
        content_block_value(record_of(json, content_block_names(), 2))
    }

    open spec fn complaint(json: JsonView) -> Seq<char> {
        said(content_block_fault(record_of(json, content_block_names(), 2)))
    }

    proof fn round_trip(v: ContentBlockView) {
        lemma_block_names();
    }

    fn to_json(&self) -> (r: Json) {
        let mut m: Vec<(String, Json)> = Vec::new();
        put(&mut m, "provider", Json::Text(self.provider.clone()));
        put(&mut m, "value", self.value.clone());
        Json::Object(m)
    }

    fn read(json: &Json) -> (r: Option<Self>) {
        match content_block_record(json) {
            Some(record) => read_content_block_value(&record),
            None => read_content_block_value(json),
        }
    }

    fn complain(json: &Json) -> (r: String) {
        match content_block_record(json) {
            Some(record) => tell(find_content_block_fault(&record)),
            None => tell(find_content_block_fault(json)),
        }
    }
}

/// A single message in a conversation.
#[derive(Debug, Clone)]
pub struct Message {
    pub role: Role,
    pub content: String,
    pub tool_calls: Vec<ToolCallMessage>,
    pub tool_call_id: Option<String>,
    /// Provider-native content blocks that must round-trip unchanged.
    pub provider_content: Vec<ProviderContentBlock>,
}

/// What a [`Message`] says.
pub struct MessageView {
    pub role: Role,
    pub content: Seq<char>,
    pub tool_calls: Seq<ToolCallView>,
    pub tool_call_id: Option<Seq<char>>,
    pub provider_content: Seq<ContentBlockView>,
}

impl View for Message {
    type V = MessageView;

    open spec fn view(&self) -> MessageView {
        MessageView {
            role: self.role,
            content: self.content@,
            tool_calls: views(self.tool_calls@),
            tool_call_id: opt_text(self.tool_call_id),
            provider_content: views(self.provider_content@),
        }
    }
}

/// A message without provider content, as JSON members.
pub open spec fn message_members(v: MessageView) -> Map<Seq<char>, JsonView> {
    Map::empty().insert("role"@, Role::enc(v.role)).insert("content"@, JsonView::Text(v.content)).insert(
        "tool_calls"@,
        enc_list::<ToolCallMessage>(v.tool_calls),
    ).insert("tool_call_id"@, nullable(v.tool_call_id))
}

/// Provider content, which may be missing.
pub open spec fn dec_provider_content(json: Option<JsonView>) -> Option<Seq<ContentBlockView>> {
    match json {
        Some(list) => dec_list::<ProviderContentBlock>(list),
        None => Some(Seq::empty()),
    }
}

/// Tool calls, which must be there.
pub open spec fn dec_tool_calls(json: Option<JsonView>) -> Option<Seq<ToolCallView>> {
    match json {
        Some(list) => dec_list::<ToolCallMessage>(list),
        None => None,
    }
}

/// A role, which must be there.
pub open spec fn dec_role(json: Option<JsonView>) -> Option<Role> {
    match json {
        Some(name) => Role::dec(name),
        None => None,
    }
}

/// The names of the members of a message differ.
pub proof fn lemma_message_names()
    ensures
        mark("role"@) == 4_114_108_101,
        mark("content"@) == 7_099_116_116,
        mark("tool_calls"@) == 10_116_099_115,
        mark("tool_call_id"@) == 12_116_097_100,
        mark("provider_content"@) == 16_112_095_116,
{
    reveal_strlit("role");
    reveal_strlit("content");
    reveal_strlit("tool_calls");
    reveal_strlit("tool_call_id");
    reveal_strlit("provider_content");
}

/// The value that the members of an object stand for, where they stand for a message.
pub open spec fn message_value(json: JsonView) -> Option<MessageView> {
    match (
        dec_role(member(json, "role"@)),
        text_of(member(json, "content"@)),
        dec_tool_calls(member(json, "tool_calls"@)),
        maybe_text_of(member(json, "tool_call_id"@)),
        dec_provider_content(member(json, "provider_content"@)),
    ) {
        (Some(role), Some(content), Some(tool_calls), Some(tool_call_id), Some(provider_content)) => Some(
            MessageView { role, content, tool_calls, tool_call_id, provider_content },
        ),
        _ => None,
    }
}

/// Reads the members of a message.
fn read_message_value(json: &Json) -> (r: Option<Message>)
    ensures
        view_of(r) == message_value(json@),
{
    let role = match json.get("role") {
        Some(name) => Role::read(name),
        None => None,
    };
    let tool_calls: Option<Vec<ToolCallMessage>> = match json.get("tool_calls") {
        Some(list) => list_from_json(list),
        None => None,
    };
    let provider_content: Option<Vec<ProviderContentBlock>> = match json.get("provider_content") {
        Some(list) => list_from_json(list),
        None => {
            let none: Vec<ProviderContentBlock> = Vec::new();
            assert(views(none@) =~= Seq::empty());
            Some(none)
        },
    };
    match (
        role,
        json.text_field("content"),
        tool_calls,
        json.maybe_text_field("tool_call_id"),
        provider_content,
    ) {
        (Some(role), Some(content), Some(tool_calls), Some(tool_call_id), Some(provider_content)) => Some(
            Message { role, content, tool_calls, tool_call_id, provider_content },
        ),
        _ => None,
    }
}

/// The members of a message.
pub open spec fn message_names() -> Seq<Seq<char>> {
    seq!["role"@, "content"@, "tool_calls"@, "tool_call_id"@, "provider_content"@]
}

/// The object that a list stands for, where it stands for a message.
fn message_record(json: &Json) -> (r: Option<Json>)
    ensures
        match r {
            Some(record) => record@ == record_of(json@, message_names(), 4),
            None => json@ == record_of(json@, message_names(), 4),
        },
{
    let names: Vec<String> = vec![
        copy("role"),
        copy("content"),
        copy("tool_calls"),
        copy("tool_call_id"),
        copy("provider_content"),
    ];
    assert(texts(names@) =~= message_names());
    as_record(json, &names, 4)
}

/// What is wrong with the members of a message.
pub open spec fn message_fault(json: JsonView) -> Option<Seq<char>> {
    first(
        object_fault(json),
        first(
            required_fault::<Role>(json, "role"@),
            first(
                required_fault::<String>(json, "content"@),
                first(
                    list_fault::<ToolCallMessage>(json, "tool_calls"@),
                    first(
                        optional_fault::<String>(json, "tool_call_id"@),
                        default_list_fault::<ProviderContentBlock>(json, "provider_content"@),
                    ),
                ),
            ),
        ),
    )
}

/// Finds what is wrong with the members of a message.
fn find_message_fault(json: &Json) -> (r: Option<String>)
    ensures
        opt_text(r) == message_fault(json@),
{
    let fault = find_object_fault(json);
    if fault.is_some() {
        return fault;
    }
    let fault = find_required_fault::<Role>(json, "role");
    if fault.is_some() {
        return fault;
    }
    let fault = find_required_fault::<String>(json, "content");
    if fault.is_some() {
        return fault;
    }
    let fault = find_list_fault::<ToolCallMessage>(json, "tool_calls");
    if fault.is_some() {
        return fault;
    }
    let fault = find_optional_fault::<String>(json, "tool_call_id");
    if fault.is_some() {
        return fault;
    }
    find_default_list_fault::<ProviderContentBlock>(json, "provider_content")
}

impl Coded for Message {
    open spec fn stable(v: MessageView) -> bool {
        true
    }

    open spec fn enc(v: MessageView) -> JsonView {
        if v.provider_content.len() == 0 {
            JsonView::Object(message_members(v))
        } else {
            JsonView::Object(
                message_members(v).insert(
                    "provider_content"@,
                    enc_list::<ProviderContentBlock>(v.provider_content),
                ),
            )
        }
    }

    open spec fn dec(json: JsonView) -> Option<MessageView> {
        message_value(record_of(json, message_names(), 4))
    }

    open spec fn complaint(json: JsonView) -> Seq<char> {
        said(message_fault(record_of(json, message_names(), 4)))
    }

    proof fn round_trip(v: MessageView) {
        lemma_message_names();
        Role::round_trip(v.role);
        list_round_trip::<ToolCallMessage>(v.tool_calls);
        list_round_trip::<ProviderContentBlock>(v.provider_content);
        let json = Self::enc(v);
        assert(member(json, "role"@) == Some(Role::enc(v.role)));
        assert(member(json, "content"@) == Some(JsonView::Text(v.content)));
        assert(member(json, "tool_calls"@) == Some(enc_list::<ToolCallMessage>(v.tool_calls)));
        assert(member(json, "tool_call_id"@) == Some(nullable(v.tool_call_id)));
        if v.provider_content.len() == 0 {
            assert(v.provider_content =~= Seq::empty());
        }
    }

    fn to_json(&self) -> (r: Json) {
        let mut m: Vec<(String, Json)> = Vec::new();
        put(&mut m, "role", self.role.to_json());
        put(&mut m, "content", Json::Text(self.content.clone()));
        put(&mut m, "tool_calls", list_to_json(&self.tool_calls));
        put(&mut m, "tool_call_id", Json::maybe_text(&self.tool_call_id));
        if self.provider_content.len() > 0 {
            put(&mut m, "provider_content", list_to_json(&self.provider_content));
        }
        Json::Object(m)
    }

    fn read(json: &Json) -> (r: Option<Self>) {
        match message_record(json) {
            Some(record) => read_message_value(&record),
            None => read_message_value(json),
        }
    }

    fn complain(json: &Json) -> (r: String) {
        match message_record(json) {
            Some(record) => tell(find_message_fault(&record)),
            None => tell(find_message_fault(json)),
        }
    }
}

/// Token usage from a provider response.
#[derive(Debug, Clone, Copy, PartialEq, Eq)]
pub struct TokenUsage {
    pub input_tokens: u64,
    pub output_tokens: u64,
    pub cache_read_input_tokens: u64,
    pub cache_write_input_tokens: u64,
}

impl View for TokenUsage {
    type V = TokenUsage;

    open spec fn view(&self) -> TokenUsage {
        *self
    }
}

/// No tokens.
pub open spec fn no_tokens() -> TokenUsage {
    TokenUsage {
        input_tokens: 0,
        output_tokens: 0,
        cache_read_input_tokens: 0,
        cache_write_input_tokens: 0,
    }
}

impl Default for TokenUsage {
    fn default() -> (r: Self)
        ensures
            r == no_tokens(),
    {
        TokenUsage {
            input_tokens: 0,
            output_tokens: 0,
            cache_read_input_tokens: 0,
            cache_write_input_tokens: 0,
        }
    }
}

/// All tokens of a response, at most as many as can be counted. The cached ones are among
/// the input tokens, and are not counted again.
pub open spec fn total_tokens(usage: TokenUsage) -> u64 {
    if usage.input_tokens + usage.output_tokens > u64::MAX {
        u64::MAX
    } else {
        (usage.input_tokens + usage.output_tokens) as u64
    }
}

impl TokenUsage {
    /// All tokens, input and output.
    pub fn total(&self) -> (r: u64)
        ensures
            r == total_tokens(*self),
    {
        self.input_tokens.saturating_add(self.output_tokens)
    }
}

/// A count that may be missing, and is 0 then.
pub open spec fn count_or_zero(json: Option<JsonView>) -> Option<u64> {
    match json {
        None => Some(0),
        _ => unsigned_of(json),
    }
}

fn count_field(json: &Json, key: &str) -> (r: Option<u64>)
    ensures
        r == count_or_zero(member(json@, key@)),
{
    match json.get(key) {
        None => Some(0),
        Some(Json::Unsigned(n)) => Some(*n),
        Some(_) => None,
    }
}

/// The names of the members of a token usage differ.
pub proof fn lemma_usage_names()
    ensures
        mark("input_tokens"@) == 12_105_116_115,
        mark("output_tokens"@) == 13_111_095_115,
        mark("cache_read_input_tokens"@) == 23_099_105_115,
        mark("cache_write_input_tokens"@) == 24_099_105_115,
{
    reveal_strlit("input_tokens");
    reveal_strlit("output_tokens");
    reveal_strlit("cache_read_input_tokens");
    reveal_strlit("cache_write_input_tokens");
}

/// The value that the members of an object stand for, where they stand for token usage.
pub open spec fn usage_value(json: JsonView) -> Option<TokenUsage> {
    match (
        unsigned_of(member(json, "input_tokens"@)),
        unsigned_of(member(json, "output_tokens"@)),
        count_or_zero(member(json, "cache_read_input_tokens"@)),
        count_or_zero(member(json, "cache_write_input_tokens"@)),
    ) {
        (
            Some(input_tokens),
            Some(output_tokens),
            Some(cache_read_input_tokens),
            Some(cache_write_input_tokens),
        ) => Some(
            TokenUsage { input_tokens, output_tokens, cache_read_input_tokens, cache_write_input_tokens },
        ),
        _ => None,
    }
}

/// Reads the members of token usage.
fn read_usage_value(json: &Json) -> (r: Option<TokenUsage>)
    ensures
        view_of(r) == usage_value(json@),
{
    match (
        json.u64_field("input_tokens"),
        json.u64_field("output_tokens"),
        count_field(json, "cache_read_input_tokens"),
        count_field(json, "cache_write_input_tokens"),
    ) {
        (
            Some(input_tokens),
            Some(output_tokens),
            Some(cache_read_input_tokens),
            Some(cache_write_input_tokens),
        ) => Some(
            TokenUsage { input_tokens, output_tokens, cache_read_input_tokens, cache_write_input_tokens },
        ),
        _ => None,
    }
}

/// The members of token usage.
pub open spec fn usage_names() -> Seq<Seq<char>> {
    seq!["input_tokens"@, "output_tokens"@, "cache_read_input_tokens"@, "cache_write_input_tokens"@]
}

/// The object that a list stands for, where it stands for token usage.
fn usage_record(json: &Json) -> (r: Option<Json>)
    ensures
        match r {
            Some(record) => record@ == record_of(json@, usage_names(), 2),
            None => json@ == record_of(json@, usage_names(), 2),
        },
{
    let names: Vec<String> = vec![
        copy("input_tokens"),
        copy("output_tokens"),
        copy("cache_read_input_tokens"),
        copy("cache_write_input_tokens"),
    ];
    assert(texts(names@) =~= usage_names());
    as_record(json, &names, 2)
}

/// What is wrong with the members of token usage.
pub open spec fn usage_fault(json: JsonView) -> Option<Seq<char>> {
    first(
        object_fault(json),
        first(
            required_fault::<u64>(json, "input_tokens"@),
            first(
                required_fault::<u64>(json, "output_tokens"@),
                first(
                    default_fault::<u64>(json, "cache_read_input_tokens"@),
                    default_fault::<u64>(json, "cache_write_input_tokens"@),
                ),
            ),
        ),
    )
}

/// Finds what is wrong with the members of token usage.
fn find_usage_fault(json: &Json) -> (r: Option<String>)
    ensures
        opt_text(r) == usage_fault(json@),
{
    let fault = find_object_fault(json);
    if fault.is_some() {
        return fault;
    }
    let fault = find_required_fault::<u64>(json, "input_tokens");
    if fault.is_some() {
        return fault;
    }
    let fault = find_required_fault::<u64>(json, "output_tokens");
    if fault.is_some() {
        return fault;
    }
    let fault = find_default_fault::<u64>(json, "cache_read_input_tokens");
    if fault.is_some() {
        return fault;
    }
    find_default_fault::<u64>(json, "cache_write_input_tokens")
}

impl Coded for TokenUsage {
    open spec fn stable(v: TokenUsage) -> bool {
        true
    }

    open spec fn enc(v: TokenUsage) -> JsonView {
        JsonView::Object(
            Map::empty().insert("input_tokens"@, JsonView::Unsigned(v.input_tokens)).insert(
                "output_tokens"@,
                JsonView::Unsigned(v.output_tokens),
            ).insert("cache_read_input_tokens"@, JsonView::Unsigned(v.cache_read_input_tokens)).insert(
                "cache_write_input_tokens"@,
                JsonView::Unsigned(v.cache_write_input_tokens),
            ),
        )
    }

    open spec fn dec(json: JsonView) -> Option<TokenUsage> {
        usage_value(record_of(json, usage_names(), 2))
    }

    open spec fn complaint(json: JsonView) -> Seq<char> {
        said(usage_fault(record_of(json, usage_names(), 2)))
    }

    proof fn round_trip(v: TokenUsage) {
        lemma_usage_names();
    }

    fn to_json(&self) -> (r: Json) {
        let mut m: Vec<(String, Json)> = Vec::new();
        put(&mut m, "input_tokens", Json::Unsigned(self.input_tokens));
        put(&mut m, "output_tokens", Json::Unsigned(self.output_tokens));
        put(&mut m, "cache_read_input_tokens", Json::Unsigned(self.cache_read_input_tokens));
        put(&mut m, "cache_write_input_tokens", Json::Unsigned(self.cache_write_input_tokens));
        Json::Object(m)
    }

    fn read(json: &Json) -> (r: Option<Self>) {
        match usage_record(json) {
            Some(record) => read_usage_value(&record),
            None => read_usage_value(json),
        }
    }

    fn complain(json: &Json) -> (r: String) {
        match usage_record(json) {
            Some(record) => tell(find_usage_fault(&record)),
            None => tell(find_usage_fault(json)),
        }
    }
}

/// A message and token usage are refused where something is wrong with them, and only there.
pub proof fn refused_messages_are_explained(json: JsonView)
    ensures
        message_fault(json) is Some <==> message_value(json) is None,
        tool_call_message_fault(json) is Some <==> tool_call_message_value(json) is None,
        content_block_fault(json) is Some <==> content_block_value(json) is None,
        usage_fault(json) is Some <==> usage_value(json) is None,
{
    match member(json, "tool_calls"@) {
        Some(JsonView::Array(items)) => {
            lemma_item_fault::<ToolCallMessage>(items);
        },
        _ => {},
    }
    match member(json, "provider_content"@) {
        Some(JsonView::Array(items)) => {
            lemma_item_fault::<ProviderContentBlock>(items);
        },
        _ => {},
    }
}

/// The cache counters do not change the total.
pub proof fn cached_tokens_are_not_counted_again(usage: TokenUsage, cache_read: u64, cache_write: u64)
    ensures
        total_tokens(
            TokenUsage { cache_read_input_tokens: cache_read, cache_write_input_tokens: cache_write, ..usage },
        ) == total_tokens(usage),
{
}

} // verus!
