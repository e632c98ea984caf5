//! Capability tokens as JSON.
use crate::coding::{default_field, defaulted, enc_list, list_field, list_round_trip, list_to_json, mark, required, required_field, required_list, view_of, views, Coded};
use crate::json::{member, put, Json, JsonView};
use crate::record::{as_record, default_fault, find_default_fault, find_list_fault, find_object_fault, find_required_fault, first, lemma_item_fault, list_fault, object_fault, record_of, required_fault, said, tell};
use crate::text::{copy, opt_text, texts};
use crate::types::capability::{CapabilityDenied, CapabilityToken, DeniedView, NetworkPermission, PathPattern, TokenView};
use crate::types::memory::{MemoryCapability, MemoryCapabilityView};
use vstd::prelude::*;

verus! {

broadcast use vstd::seq_lib::group_seq_properties;

impl Coded for NetworkPermission {
    open spec fn stable(v: Seq<char>) -> bool {
        true
    }

    open spec fn enc(v: Seq<char>) -> JsonView {
        JsonView::Text(v)
    }

    open spec fn dec(json: JsonView) -> Option<Seq<char>> {
        String::dec(json)
    }

    open spec fn complaint(json: JsonView) -> Seq<char> {
        String::complaint(json)
    }

    proof fn round_trip(v: Seq<char>) {
    }

    fn to_json(&self) -> (r: Json) {
        Json::Text(self.0.clone())
    }

    fn read(json: &Json) -> (r: Option<Self>) {
        match String::read(json) {
            Some(t) => Some(NetworkPermission(t)),
            None => None,
        }
    }

    fn complain(json: &Json) -> (r: String) {
        String::complain(json)
    }
}

impl Coded for PathPattern {
    open spec fn stable(v: Seq<char>) -> bool {
        true
    }

    open spec fn enc(v: Seq<char>) -> JsonView {
        JsonView::Text(v)
    }

    open spec fn dec(json: JsonView) -> Option<Seq<char>> {
        String::dec(json)
    }

    open spec fn complaint(json: JsonView) -> Seq<char> {
        String::complaint(json)
    }

    proof fn round_trip(v: Seq<char>) {
    }

    fn to_json(&self) -> (r: Json) {
        Json::Text(self.0.clone())
    }

    fn read(json: &Json) -> (r: Option<Self>) {
        match String::read(json) {
            Some(t) => Some(PathPattern(t)),
            None => None,
        }
    }

    fn complain(json: &Json) -> (r: String) {
        String::complain(json)
    }
}

/// No access to memory.
pub open spec fn no_memory() -> MemoryCapabilityView {
    MemoryCapabilityView { enabled: false, search_scopes: Seq::empty(), write_scopes: Seq::empty() }
}

/// The names of the members of a capability token differ.
pub proof fn lemma_token_names()
    ensures
        mark("network"@) == 7_110_119_107,
        mark("mcp_tools"@) == 9_109_116_115,
        mark("shell"@) == 5_115_101_108,
        mark("javascript"@) == 10_106_099_116,
        mark("python"@) == 6_112_104_110,
        mark("paths_write"@) == 11_112_095_101,
        mark("paths_read"@) == 10_112_095_100,
        mark("spawn_types"@) == 11_115_095_115,
        mark("skill_patterns"@) == 14_115_097_115,
        mark("memory"@) == 6_109_111_121,
{
    reveal_strlit("network");
    reveal_strlit("mcp_tools");
    reveal_strlit("shell");
    reveal_strlit("javascript");
    reveal_strlit("python");
    reveal_strlit("paths_write");
    reveal_strlit("paths_read");
    reveal_strlit("spawn_types");
    reveal_strlit("skill_patterns");
    reveal_strlit("memory");
}

/// The value that the members of an object stand for, where they stand for a capability token.
pub open spec fn token_value(json: JsonView) -> Option<TokenView> {
    match (
        required_list::<NetworkPermission>(member(json, "network"@)),
        required_list::<String>(member(json, "mcp_tools"@)),
        required::<bool>(member(json, "shell"@)),
        required::<bool>(member(json, "javascript"@)),
        required::<bool>(member(json, "python"@)),
        required_list::<PathPattern>(member(json, "paths_write"@)),
        required_list::<PathPattern>(member(json, "paths_read"@)),
        required_list::<String>(member(json, "spawn_types"@)),
        required_list::<String>(member(json, "skill_patterns"@)),
        defaulted::<MemoryCapability>(member(json, "memory"@), no_memory()),
    ) {
        (
            Some(network),
            Some(mcp_tools),
            Some(shell),
            Some(javascript),
            Some(python),
            Some(paths_write),
            Some(paths_read),
            Some(spawn_types),
            Some(skill_patterns),
            Some(memory),
        ) => Some(
            TokenView {
                network,
                mcp_tools,
                shell,
                javascript,
                python,
                paths_write,
                paths_read,
                spawn_types,
                skill_patterns,
                memory,
            },
        ),
        _ => None,
    }
}

/// Reads the members of a capability token.
fn read_token_value(json: &Json) -> (r: Option<CapabilityToken>)
    ensures
        view_of(r) == token_value(json@),
{
    let nothing = MemoryCapability::default();
    proof {
        assert(texts(nothing.search_scopes@) =~= Seq::empty());
        assert(texts(nothing.write_scopes@) =~= Seq::empty());
    }
    match (
        list_field::<NetworkPermission>(json, "network"),
        list_field::<String>(json, "mcp_tools"),
        required_field::<bool>(json, "shell"),
        required_field::<bool>(json, "javascript"),
        required_field::<bool>(json, "python"),
        list_field::<PathPattern>(json, "paths_write"),
        list_field::<PathPattern>(json, "paths_read"),
        list_field::<String>(json, "spawn_types"),
        list_field::<String>(json, "skill_patterns"),
        default_field::<MemoryCapability>(json, "memory", nothing),
    ) {
        (
            Some(network),
            Some(mcp_tools),
            Some(shell),
            Some(javascript),
            Some(python),
            Some(paths_write),
            Some(paths_read),
            Some(spawn_types),
            Some(skill_patterns),
            Some(memory),
        ) => {
            proof {
                assert(texts(network@) =~= views(network@));
                assert(texts(mcp_tools@) =~= views(mcp_tools@));
                assert(texts(paths_write@) =~= views(paths_write@));
                assert(texts(paths_read@) =~= views(paths_read@));
                assert(texts(spawn_types@) =~= views(spawn_types@));
                assert(texts(skill_patterns@) =~= views(skill_patterns@));
            }
            Some(CapabilityToken {
                network,
                mcp_tools,
                shell,
                javascript,
                python,
                paths_write,
                paths_read,
                spawn_types,
                skill_patterns,
                memory,
            })
        },
        _ => None,
    }
}

/// The members of a capability token.
pub open spec fn token_names() -> Seq<Seq<char>> {
    seq![
        "network"@,
        "mcp_tools"@,
        "shell"@,
        "javascript"@,
        "python"@,
        "paths_write"@,
        "paths_read"@,
        "spawn_types"@,
        "skill_patterns"@,
        "memory"@,
    ]
}

/// The object that a list stands for, where it stands for a capability token.
fn token_record(json: &Json) -> (r: Option<Json>)
    ensures
        match r {
            Some(record) => record@ == record_of(json@, token_names(), 9),
            None => json@ == record_of(json@, token_names(), 9),
        },
{
    let names: Vec<String> = vec![
        copy("network"),
        copy("mcp_tools"),
        copy("shell"),
        copy("javascript"),
        copy("python"),
        copy("paths_write"),
        copy("paths_read"),
        copy("spawn_types"),
        copy("skill_patterns"),
        copy("memory"),
    ];
    assert(texts(names@) =~= token_names());
    as_record(json, &names, 9)
}

/// What is wrong with the members of a capability token.
pub open spec fn token_fault(json: JsonView) -> Option<Seq<char>> {
    first(
        object_fault(json),
        first(
            list_fault::<NetworkPermission>(json, "network"@),
            first(
                list_fault::<String>(json, "mcp_tools"@),
                first(
                    required_fault::<bool>(json, "shell"@),
                    first(
                        required_fault::<bool>(json, "javascript"@),
                        first(
                            required_fault::<bool>(json, "python"@),
                            first(
                                list_fault::<PathPattern>(json, "paths_write"@),
                                first(
                                    list_fault::<PathPattern>(json, "paths_read"@),
                                    first(
                                        list_fault::<String>(json, "spawn_types"@),
                                        first(
                                            list_fault::<String>(json, "skill_patterns"@),
                                            default_fault::<MemoryCapability>(json, "memory"@),
                                        ),
                                    ),
                                ),
                            ),
                        ),
                    ),
                ),
            ),
        ),
    )
}

/// Finds what is wrong with the members of a capability token.
fn find_token_fault(json: &Json) -> (r: Option<String>)
    ensures
        opt_text(r) == token_fault(json@),
{
    let fault = find_object_fault(json);
    if fault.is_some() {
        return fault;
    }
    let fault = find_list_fault::<NetworkPermission>(json, "network");
    if fault.is_some() {
        return fault;
    }
    let fault = find_list_fault::<String>(json, "mcp_tools");
    if fault.is_some() {
        return fault;
    }
    let fault = find_required_fault::<bool>(json, "shell");
    if fault.is_some() {
        return fault;
    }
    let fault = find_required_fault::<bool>(json, "javascript");
    if fault.is_some() {
        return fault;
    }
    let fault = find_required_fault::<bool>(json, "python");
    if fault.is_some() {
        return fault;
    }
    let fault = find_list_fault::<PathPattern>(json, "paths_write");
    if fault.is_some() {
        return fault;
    }
    let fault = find_list_fault::<PathPattern>(json, "paths_read");
    if fault.is_some() {
        return fault;
    }
    let fault = find_list_fault::<String>(json, "spawn_types");
    if fault.is_some() {
        return fault;
    }
    let fault = find_list_fault::<String>(json, "skill_patterns");
    if fault.is_some() {
        return fault;
    }
    find_default_fault::<MemoryCapability>(json, "memory")
}

impl Coded for CapabilityToken {
    open spec fn stable(v: TokenView) -> bool {
        MemoryCapability::stable(v.memory)
    }

    open spec fn enc(v: TokenView) -> JsonView {
        JsonView::Object(
            Map::empty()
                .insert("network"@, enc_list::<NetworkPermission>(v.network))
                .insert("mcp_tools"@, enc_list::<String>(v.mcp_tools))
                .insert("shell"@, bool::enc(v.shell))
                .insert("javascript"@, bool::enc(v.javascript))
                .insert("python"@, bool::enc(v.python))
                .insert("paths_write"@, enc_list::<PathPattern>(v.paths_write))
                .insert("paths_read"@, enc_list::<PathPattern>(v.paths_read))
                .insert("spawn_types"@, enc_list::<String>(v.spawn_types))
                .insert("skill_patterns"@, enc_list::<String>(v.skill_patterns))
                .insert("memory"@, MemoryCapability::enc(v.memory)),
        )
    }

    open spec fn dec(json: JsonView) -> Option<TokenView> {
        token_value(record_of(json, token_names(), 9))
    }

    open spec fn complaint(json: JsonView) -> Seq<char> {
        said(token_fault(record_of(json, token_names(), 9)))
    }

    proof fn round_trip(v: TokenView) {
        lemma_token_names();
        let json = Self::enc(v);
        assert(member(json, "network"@) == Some(enc_list::<NetworkPermission>(v.network)));
        list_round_trip::<NetworkPermission>(v.network);
        assert(member(json, "mcp_tools"@) == Some(enc_list::<String>(v.mcp_tools)));
        list_round_trip::<String>(v.mcp_tools);
        assert(member(json, "shell"@) == Some(bool::enc(v.shell)));
        bool::round_trip(v.shell);
        assert(member(json, "javascript"@) == Some(bool::enc(v.javascript)));
        bool::round_trip(v.javascript);
        assert(member(json, "python"@) == Some(bool::enc(v.python)));
        bool::round_trip(v.python);
        assert(member(json, "paths_write"@) == Some(enc_list::<PathPattern>(v.paths_write)));
        list_round_trip::<PathPattern>(v.paths_write);
        assert(member(json, "paths_read"@) == Some(enc_list::<PathPattern>(v.paths_read)));
        list_round_trip::<PathPattern>(v.paths_read);
        assert(member(json, "spawn_types"@) == Some(enc_list::<String>(v.spawn_types)));
        list_round_trip::<String>(v.spawn_types);
        assert(member(json, "skill_patterns"@) == Some(enc_list::<String>(v.skill_patterns)));
        list_round_trip::<String>(v.skill_patterns);
        assert(member(json, "memory"@) == Some(MemoryCapability::enc(v.memory)));
        MemoryCapability::round_trip(v.memory);
    }

    fn to_json(&self) -> (r: Json) {
        let mut m: Vec<(String, Json)> = Vec::new();
        put(&mut m, "network", list_to_json(&self.network));
        put(&mut m, "mcp_tools", list_to_json(&self.mcp_tools));
        put(&mut m, "shell", self.shell.to_json());
        put(&mut m, "javascript", self.javascript.to_json());
        put(&mut m, "python", self.python.to_json());
        put(&mut m, "paths_write", list_to_json(&self.paths_write));
        put(&mut m, "paths_read", list_to_json(&self.paths_read));
        put(&mut m, "spawn_types", list_to_json(&self.spawn_types));
        put(&mut m, "skill_patterns", list_to_json(&self.skill_patterns));
        put(&mut m, "memory", self.memory.to_json());
        proof {
            assert(texts(self.network@) =~= views(self.network@));
            assert(texts(self.mcp_tools@) =~= views(self.mcp_tools@));
            assert(texts(self.paths_write@) =~= views(self.paths_write@));
            assert(texts(self.paths_read@) =~= views(self.paths_read@));
            assert(texts(self.spawn_types@) =~= views(self.spawn_types@));
            assert(texts(self.skill_patterns@) =~= views(self.skill_patterns@));
        }
        Json::Object(m)
    }

    fn read(json: &Json) -> (r: Option<Self>) {
        match token_record(json) {
            Some(record) => read_token_value(&record),
            None => read_token_value(json),
        }
    }

    fn complain(json: &Json) -> (r: String) {
        match token_record(json) {
            Some(record) => tell(find_token_fault(&record)),
            None => tell(find_token_fault(json)),
        }
    }
}

/// The names of the members of a denial differ.
pub proof fn lemma_denied_names()
    ensures
        mark("operation"@) == 9_111_097_110,
        mark("reason"@) == 6_114_115_110,
{
    reveal_strlit("operation");
    reveal_strlit("reason");
}

/// The value that the members of an object stand for, where they stand for a denial.
pub open spec fn denied_value(json: JsonView) -> Option<DeniedView> {
    match (
        required::<String>(member(json, "operation"@)),
        required::<String>(member(json, "reason"@)),
    ) {
        (Some(operation), Some(reason)) => Some(
            DeniedView { operation, reason },
        ),
        _ => None,
    }
}

/// Reads the members of a denial.
fn read_denied_value(json: &Json) -> (r: Option<CapabilityDenied>)
    ensures
        view_of(r) == denied_value(json@),
{
    match (
        required_field::<String>(json, "operation"),
        required_field::<String>(json, "reason"),
    ) {
        (Some(operation), Some(reason)) => Some(
            CapabilityDenied { operation, reason },
        ),
        _ => None,
    }
}

/// The members of a denial.
pub open spec fn denied_names() -> Seq<Seq<char>> {
    seq!["operation"@, "reason"@]
}

/// The object that a list stands for, where it stands for a denial.
fn denied_record(json: &Json) -> (r: Option<Json>)
    ensures
        match r {
            Some(record) => record@ == record_of(json@, denied_names(), 2),
            None => json@ == record_of(json@, denied_names(), 2),
        },
{
    let names: Vec<String> = vec![copy("operation"), copy("reason")];
    assert(texts(names@) =~= denied_names());
    as_record(json, &names, 2)
}

/// What is wrong with the members of a denial.
pub open spec fn denied_fault(json: JsonView) -> Option<Seq<char>> {
    first(
        object_fault(json),
        first(
            required_fault::<String>(json, "operation"@),
            required_fault::<String>(json, "reason"@),
        ),
    )
}

/// Finds what is wrong with the members of a denial.
fn find_denied_fault(json: &Json) -> (r: Option<String>)
    ensures
        opt_text(r) == denied_fault(json@),
{
    let fault = find_object_fault(json);
    if fault.is_some() {
        return fault;
    }
    let fault = find_required_fault::<String>(json, "operation");
    if fault.is_some() {
        return fault;
    }
    find_required_fault::<String>(json, "reason")
}

impl Coded for CapabilityDenied {
    open spec fn stable(v: DeniedView) -> bool {
        true
    }

    open spec fn enc(v: DeniedView) -> JsonView {
        JsonView::Object(
            Map::empty()
                .insert("operation"@, String::enc(v.operation))
                .insert("reason"@, String::enc(v.reason)),
        )
    }

    open spec fn dec(json: JsonView) -> Option<DeniedView> {
        denied_value(record_of(json, denied_names(), 2))
    }

    open spec fn complaint(json: JsonView) -> Seq<char> {
        said(denied_fault(record_of(json, denied_names(), 2)))
    }

    proof fn round_trip(v: DeniedView) {
        lemma_denied_names();
        let json = Self::enc(v);
        assert(member(json, "operation"@) == Some(String::enc(v.operation)));
        String::round_trip(v.operation);
        assert(member(json, "reason"@) == Some(String::enc(v.reason)));
        String::round_trip(v.reason);
    }

    fn to_json(&self) -> (r: Json) {
        let mut m: Vec<(String, Json)> = Vec::new();
        put(&mut m, "operation", self.operation.to_json());
        put(&mut m, "reason", self.reason.to_json());
        Json::Object(m)
    }

    fn read(json: &Json) -> (r: Option<Self>) {
        match denied_record(json) {
            Some(record) => read_denied_value(&record),
            None => read_denied_value(json),
        }
    }

    fn complain(json: &Json) -> (r: String) {
        match denied_record(json) {
            Some(record) => tell(find_denied_fault(&record)),
            None => tell(find_denied_fault(json)),
        }
    }
}

/// A token or a denial is refused where something is wrong with it, and only there.
pub proof fn refused_tokens_are_explained(json: JsonView)
    ensures
        token_fault(json) is Some <==> token_value(json) is None,
        denied_fault(json) is Some <==> denied_value(json) is None,
{
    match member(json, "network"@) {
        Some(JsonView::Array(items)) => {
            lemma_item_fault::<NetworkPermission>(items);
        },
        _ => {},
    }
    match member(json, "mcp_tools"@) {
        Some(JsonView::Array(items)) => {
            lemma_item_fault::<String>(items);
        },
        _ => {},
    }
    match member(json, "paths_write"@) {
        Some(JsonView::Array(items)) => {
            lemma_item_fault::<PathPattern>(items);
        },
        _ => {},
    }
    match member(json, "paths_read"@) {
        Some(JsonView::Array(items)) => {
            lemma_item_fault::<PathPattern>(items);
        },
        _ => {},
    }
    match member(json, "spawn_types"@) {
        Some(JsonView::Array(items)) => {
            lemma_item_fault::<String>(items);
        },
        _ => {},
    }
    match member(json, "skill_patterns"@) {
        Some(JsonView::Array(items)) => {
            lemma_item_fault::<String>(items);
        },
        _ => {},
    }
}

} // verus!
