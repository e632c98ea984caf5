//! Budgets as JSON.
use crate::coding::{mark, required, required_field, view_of, Coded};
use crate::json::{member, put, Json, JsonView};
use crate::record::{as_record, find_object_fault, find_required_fault, first, object_fault, record_of, required_fault, said, tell};
use crate::text::{copy, opt_text, texts};
use crate::types::budget::{Cost, ResourceBudget};
use vstd::prelude::*;

verus! {

broadcast use vstd::seq_lib::group_seq_properties;

impl View for ResourceBudget {
    type V = ResourceBudget;

    open spec fn view(&self) -> ResourceBudget {
        *self
    }
}

/// The names of the members of a budget differ.
pub proof fn lemma_budget_names()
    ensures
        mark("max_tokens"@) == 10_109_111_115,
        mark("max_turns"@) == 9_109_116_115,
        mark("max_cost"@) == 8_109_099_116,
        mark("max_sub_agents"@) == 14_109_095_115,
        mark("max_vfs_bytes"@) == 13_109_115_115,
        mark("used_tokens"@) == 11_117_116_115,
        mark("used_turns"@) == 10_117_116_115,
        mark("used_cost"@) == 9_117_095_116,
        mark("used_sub_agents"@) == 15_117_098_115,
        mark("used_vfs_bytes"@) == 14_117_115_115,
        mark("max_fuel"@) == 8_109_102_108,
        mark("used_fuel"@) == 9_117_095_108,
{
    reveal_strlit("max_tokens");
    reveal_strlit("max_turns");
    reveal_strlit("max_cost");
    reveal_strlit("max_sub_agents");
    reveal_strlit("max_vfs_bytes");
    reveal_strlit("used_tokens");
    reveal_strlit("used_turns");
    reveal_strlit("used_cost");
    reveal_strlit("used_sub_agents");
    reveal_strlit("used_vfs_bytes");
    reveal_strlit("max_fuel");
    reveal_strlit("used_fuel");
}

/// The value that the members of an object stand for, where they stand for a budget.
pub open spec fn budget_value(json: JsonView) -> Option<ResourceBudget> {
    match (
        required::<u64>(member(json, "max_tokens"@)),
        required::<u32>(member(json, "max_turns"@)),
        required::<Cost>(member(json, "max_cost"@)),
        required::<u32>(member(json, "max_sub_agents"@)),
        required::<u64>(member(json, "max_vfs_bytes"@)),
        required::<u64>(member(json, "used_tokens"@)),
        required::<u32>(member(json, "used_turns"@)),
        required::<Cost>(member(json, "used_cost"@)),
        required::<u32>(member(json, "used_sub_agents"@)),
        required::<u64>(member(json, "used_vfs_bytes"@)),
        required::<u64>(member(json, "max_fuel"@)),
        required::<u64>(member(json, "used_fuel"@)),
    ) {
        (
            Some(max_tokens),
            Some(max_turns),
            Some(max_cost),
            Some(max_sub_agents),
            Some(max_vfs_bytes),
            Some(used_tokens),
            Some(used_turns),
            Some(used_cost),
            Some(used_sub_agents),
            Some(used_vfs_bytes),
            Some(max_fuel),
            Some(used_fuel),
        ) => Some(
            ResourceBudget {
                max_tokens,
                max_turns,
                max_cost,
                max_sub_agents,
                max_vfs_bytes,
                used_tokens,
                used_turns,
                used_cost,
                used_sub_agents,
                used_vfs_bytes,
                max_fuel,
                used_fuel,
            },
        ),
        _ => None,
    }
}

/// Reads the members of a budget.
fn read_budget_value(json: &Json) -> (r: Option<ResourceBudget>)
    ensures
        view_of(r) == budget_value(json@),
{
    match (
        required_field::<u64>(json, "max_tokens"),
        required_field::<u32>(json, "max_turns"),
        required_field::<Cost>(json, "max_cost"),
        required_field::<u32>(json, "max_sub_agents"),
        required_field::<u64>(json, "max_vfs_bytes"),
        required_field::<u64>(json, "used_tokens"),
        required_field::<u32>(json, "used_turns"),
        required_field::<Cost>(json, "used_cost"),
        required_field::<u32>(json, "used_sub_agents"),
        required_field::<u64>(json, "used_vfs_bytes"),
        required_field::<u64>(json, "max_fuel"),
        required_field::<u64>(json, "used_fuel"),
    ) {
        (
            Some(max_tokens),
            Some(max_turns),
            Some(max_cost),
            Some(max_sub_agents),
            Some(max_vfs_bytes),
            Some(used_tokens),
            Some(used_turns),
            Some(used_cost),
            Some(used_sub_agents),
            Some(used_vfs_bytes),
            Some(max_fuel),
            Some(used_fuel),
        ) => Some(
            ResourceBudget {
                max_tokens,
                max_turns,
                max_cost,
                max_sub_agents,
                max_vfs_bytes,
                used_tokens,
                used_turns,
                used_cost,
                used_sub_agents,
                used_vfs_bytes,
                max_fuel,
                used_fuel,
            },
        ),
        _ => None,
    }
}

/// The members of a budget.
pub open spec fn budget_names() -> Seq<Seq<char>> {
    seq![
        "max_tokens"@,
        "max_turns"@,
        "max_cost"@,
        "max_sub_agents"@,
        "max_vfs_bytes"@,
        "used_tokens"@,
        "used_turns"@,
        "used_cost"@,
        "used_sub_agents"@,
        "used_vfs_bytes"@,
        "max_fuel"@,
        "used_fuel"@,
    ]
}

/// The object that a list stands for, where it stands for a budget.
fn budget_record(json: &Json) -> (r: Option<Json>)
    ensures
        match r {
            Some(record) => record@ == record_of(json@, budget_names(), 12),
            None => json@ == record_of(json@, budget_names(), 12),
        },
{
    let names: Vec<String> = vec![
        copy("max_tokens"),
        copy("max_turns"),
        copy("max_cost"),
        copy("max_sub_agents"),
        copy("max_vfs_bytes"),
        copy("used_tokens"),
        copy("used_turns"),
        copy("used_cost"),
        copy("used_sub_agents"),
        copy("used_vfs_bytes"),
        copy("max_fuel"),
        copy("used_fuel"),
    ];
    assert(texts(names@) =~= budget_names());
    as_record(json, &names, 12)
}

/// What is wrong with the members of a budget.
pub open spec fn budget_fault(json: JsonView) -> Option<Seq<char>> {
    first(
        object_fault(json),
        first(
            required_fault::<u64>(json, "max_tokens"@),
            first(
                required_fault::<u32>(json, "max_turns"@),
                first(
                    required_fault::<Cost>(json, "max_cost"@),
                    first(
                        required_fault::<u32>(json, "max_sub_agents"@),
                        first(
                            required_fault::<u64>(json, "max_vfs_bytes"@),
                            first(
                                required_fault::<u64>(json, "used_tokens"@),
                                first(
                                    required_fault::<u32>(json, "used_turns"@),
                                    first(
                                        required_fault::<Cost>(json, "used_cost"@),
                                        first(
                                            required_fault::<u32>(json, "used_sub_agents"@),
                                            first(
                                                required_fault::<u64>(json, "used_vfs_bytes"@),
                                                first(
                                                    required_fault::<u64>(json, "max_fuel"@),
                                                    required_fault::<u64>(json, "used_fuel"@),
                                                ),
                                            ),
                                        ),
                                    ),
                                ),
                            ),
                        ),
                    ),
                ),
            ),
        ),
    )
}

/// Finds what is wrong with the members of a budget.
fn find_budget_fault(json: &Json) -> (r: Option<String>)
    ensures
        opt_text(r) == budget_fault(json@),
{
    let fault = find_object_fault(json);
    if fault.is_some() {
        return fault;
    }
    let fault = find_required_fault::<u64>(json, "max_tokens");
    if fault.is_some() {
        return fault;
    }
    let fault = find_required_fault::<u32>(json, "max_turns");
    if fault.is_some() {
        return fault;
    }
    let fault = find_required_fault::<Cost>(json, "max_cost");
    if fault.is_some() {
        return fault;
    }
    let fault = find_required_fault::<u32>(json, "max_sub_agents");
    if fault.is_some() {
        return fault;
    }
    let fault = find_required_fault::<u64>(json, "max_vfs_bytes");
    if fault.is_some() {
        return fault;
    }
    let fault = find_required_fault::<u64>(json, "used_tokens");
    if fault.is_some() {
        return fault;
    }
    let fault = find_required_fault::<u32>(json, "used_turns");
    if fault.is_some() {
        return fault;
    }
    let fault = find_required_fault::<Cost>(json, "used_cost");
    if fault.is_some() {
        return fault;
    }
    let fault = find_required_fault::<u32>(json, "used_sub_agents");
    if fault.is_some() {
        return fault;
    }
    let fault = find_required_fault::<u64>(json, "used_vfs_bytes");
    if fault.is_some() {
        return fault;
    }
    let fault = find_required_fault::<u64>(json, "max_fuel");
    if fault.is_some() {
        return fault;
    }
    find_required_fault::<u64>(json, "used_fuel")
}

impl Coded for ResourceBudget {
    open spec fn stable(v: ResourceBudget) -> bool {
        Cost::stable(v.max_cost) && Cost::stable(v.used_cost)
    }

    open spec fn enc(v: ResourceBudget) -> JsonView {
        JsonView::Object(
            Map::empty()
                .insert("max_tokens"@, u64::enc(v.max_tokens))
                .insert("max_turns"@, u32::enc(v.max_turns))
                .insert("max_cost"@, Cost::enc(v.max_cost))
                .insert("max_sub_agents"@, u32::enc(v.max_sub_agents))
                .insert("max_vfs_bytes"@, u64::enc(v.max_vfs_bytes))
                .insert("used_tokens"@, u64::enc(v.used_tokens))
                .insert("used_turns"@, u32::enc(v.used_turns))
                .insert("used_cost"@, Cost::enc(v.used_cost))
                .insert("used_sub_agents"@, u32::enc(v.used_sub_agents))
                .insert("used_vfs_bytes"@, u64::enc(v.used_vfs_bytes))
                .insert("max_fuel"@, u64::enc(v.max_fuel))
                .insert("used_fuel"@, u64::enc(v.used_fuel)),
        )
    }

    open spec fn dec(json: JsonView) -> Option<ResourceBudget> {
        budget_value(record_of(json, budget_names(), 12))
    }

    open spec fn complaint(json: JsonView) -> Seq<char> {
        said(budget_fault(record_of(json, budget_names(), 12)))
    }

    proof fn round_trip(v: ResourceBudget) {
        lemma_budget_names();
        let json = Self::enc(v);
        assert(member(json, "max_tokens"@) == Some(u64::enc(v.max_tokens)));
        u64::round_trip(v.max_tokens);
        assert(member(json, "max_turns"@) == Some(u32::enc(v.max_turns)));
        u32::round_trip(v.max_turns);
        assert(member(json, "max_cost"@) == Some(Cost::enc(v.max_cost)));
        Cost::round_trip(v.max_cost);
        assert(member(json, "max_sub_agents"@) == Some(u32::enc(v.max_sub_agents)));
        u32::round_trip(v.max_sub_agents);
        assert(member(json, "max_vfs_bytes"@) == Some(u64::enc(v.max_vfs_bytes)));
        u64::round_trip(v.max_vfs_bytes);
        assert(member(json, "used_tokens"@) == Some(u64::enc(v.used_tokens)));
        u64::round_trip(v.used_tokens);
        assert(member(json, "used_turns"@) == Some(u32::enc(v.used_turns)));
        u32::round_trip(v.used_turns);
        assert(member(json, "used_cost"@) == Some(Cost::enc(v.used_cost)));
        Cost::round_trip(v.used_cost);
        assert(member(json, "used_sub_agents"@) == Some(u32::enc(v.used_sub_agents)));
        u32::round_trip(v.used_sub_agents);
        assert(member(json, "used_vfs_bytes"@) == Some(u64::enc(v.used_vfs_bytes)));
        u64::round_trip(v.used_vfs_bytes);
        assert(member(json, "max_fuel"@) == Some(u64::enc(v.max_fuel)));
        u64::round_trip(v.max_fuel);
        assert(member(json, "used_fuel"@) == Some(u64::enc(v.used_fuel)));
        u64::round_trip(v.used_fuel);
    }

    fn to_json(&self) -> (r: Json) {
        let mut m: Vec<(String, Json)> = Vec::new();
        put(&mut m, "max_tokens", self.max_tokens.to_json());
        put(&mut m, "max_turns", self.max_turns.to_json());
        put(&mut m, "max_cost", self.max_cost.to_json());
        put(&mut m, "max_sub_agents", self.max_sub_agents.to_json());
        put(&mut m, "max_vfs_bytes", self.max_vfs_bytes.to_json());
        put(&mut m, "used_tokens", self.used_tokens.to_json());
        put(&mut m, "used_turns", self.used_turns.to_json());
        put(&mut m, "used_cost", self.used_cost.to_json());
        put(&mut m, "used_sub_agents", self.used_sub_agents.to_json());
        put(&mut m, "used_vfs_bytes", self.used_vfs_bytes.to_json());
        put(&mut m, "max_fuel", self.max_fuel.to_json());
        put(&mut m, "used_fuel", self.used_fuel.to_json());
        Json::Object(m)
    }

    fn read(json: &Json) -> (r: Option<Self>) {
        match budget_record(json) {
            Some(record) => read_budget_value(&record),
            None => read_budget_value(json),
        }
    }

    fn complain(json: &Json) -> (r: String) {
        match budget_record(json) {
            Some(record) => tell(find_budget_fault(&record)),
            None => tell(find_budget_fault(json)),
        }
    }
}

/// A budget is refused where something is wrong with it, and only there.
pub proof fn refused_budgets_are_explained(json: JsonView)
    ensures
        budget_fault(json) is Some <==> budget_value(json) is None,
{
}

} // verus!
