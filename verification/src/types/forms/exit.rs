//! Why an agent loop ended, as JSON.
use crate::coding::{mark, required, required_field, view_of, Coded};
use crate::json::{member, put, Json, JsonView};
use crate::record::{as_record, find_object_fault, find_required_fault, first, names_unit, object_fault, record_of, required_fault, said, say_within, sole_member, tell, unit_name, within, wraps};
use crate::text::{copy, opt_text, texts};
use crate::types::provider::ExitReason;
use vstd::prelude::*;

verus! {

broadcast use vstd::seq_lib::group_seq_properties;

/// Why an agent loop ended.
pub enum ExitView {
    Complete,
    MaxTurns,
    BudgetExhausted,
    GuardrailTripped(Seq<char>),
    AwaitingApproval,
    Cancelled,
    PolicyKill { hook: Seq<char>, reason: Seq<char> },
    Error(Seq<char>),
}

impl View for ExitReason {
    type V = ExitView;

    open spec fn view(&self) -> ExitView {
        match self {
            ExitReason::Complete => ExitView::Complete,
            ExitReason::MaxTurns => ExitView::MaxTurns,
            ExitReason::BudgetExhausted => ExitView::BudgetExhausted,
            ExitReason::GuardrailTripped(text) => ExitView::GuardrailTripped(text@),
            ExitReason::AwaitingApproval => ExitView::AwaitingApproval,
            ExitReason::Cancelled => ExitView::Cancelled,
            ExitReason::PolicyKill { hook, reason } => ExitView::PolicyKill { hook: hook@, reason: reason@ },
            ExitReason::Error(text) => ExitView::Error(text@),
        }
    }
}

/// The names of the variants of an exit reason differ.
proof fn lemma_exit_tags()
    ensures
        mark("Complete"@) == 8_067_108_101,
        mark("MaxTurns"@) == 8_077_117_115,
        mark("BudgetExhausted"@) == 15_066_120_100,
        mark("GuardrailTripped"@) == 16_071_108_100,
        mark("AwaitingApproval"@) == 16_065_065_108,
        mark("Cancelled"@) == 9_067_101_100,
        mark("PolicyKill"@) == 10_080_121_108,
        mark("Error"@) == 5_069_114_114,
{
    reveal_strlit("Complete");
    reveal_strlit("MaxTurns");
    reveal_strlit("BudgetExhausted");
    reveal_strlit("GuardrailTripped");
    reveal_strlit("AwaitingApproval");
    reveal_strlit("Cancelled");
    reveal_strlit("PolicyKill");
    reveal_strlit("Error");
}

/// The names of the members of the variant `PolicyKill` differ.
pub proof fn lemma_exit_policy_kill_names()
    ensures
        mark("hook"@) == 4_104_111_107,
        mark("reason"@) == 6_114_115_110,
{
    reveal_strlit("hook");
    reveal_strlit("reason");
}

/// The value that the members of an object stand for, where they stand for the variant `PolicyKill`.
pub open spec fn exit_policy_kill_value(json: JsonView) -> Option<ExitView> {
    match (
        required::<String>(member(json, "hook"@)),
        required::<String>(member(json, "reason"@)),
    ) {
        (Some(hook), Some(reason)) => Some(
            ExitView::PolicyKill { hook, reason },
        ),
        _ => None,
    }
}

/// Reads the members of the variant `PolicyKill`.
fn read_exit_policy_kill_value(json: &Json) -> (r: Option<ExitReason>)
    ensures
        view_of(r) == exit_policy_kill_value(json@),
{
    match (
        required_field::<String>(json, "hook"),
        required_field::<String>(json, "reason"),
    ) {
        (Some(hook), Some(reason)) => Some(
            ExitReason::PolicyKill { hook, reason },
        ),
        _ => None,
    }
}

/// The members of the variant `PolicyKill`.
pub open spec fn exit_policy_kill_names() -> Seq<Seq<char>> {
    seq!["hook"@, "reason"@]
}

/// The object that a list stands for, where it stands for the variant `PolicyKill`.
fn exit_policy_kill_record(json: &Json) -> (r: Option<Json>)
    ensures
        match r {
            Some(record) => record@ == record_of(json@, exit_policy_kill_names(), 2),
            None => json@ == record_of(json@, exit_policy_kill_names(), 2),
        },
{
    let names: Vec<String> = vec![copy("hook"), copy("reason")];
    assert(texts(names@) =~= exit_policy_kill_names());
    as_record(json, &names, 2)
}

/// What is wrong with the members of the variant `PolicyKill`.
pub open spec fn exit_policy_kill_fault(json: JsonView) -> Option<Seq<char>> {
    first(
        object_fault(json),
        first(
            required_fault::<String>(json, "hook"@),
            required_fault::<String>(json, "reason"@),
        ),
    )
}

/// Finds what is wrong with the members of the variant `PolicyKill`.
fn find_exit_policy_kill_fault(json: &Json) -> (r: Option<String>)
    ensures
        opt_text(r) == exit_policy_kill_fault(json@),
{
    let fault = find_object_fault(json);
    if fault.is_some() {
        return fault;
    }
    let fault = find_required_fault::<String>(json, "hook");
    if fault.is_some() {
        return fault;
    }
    find_required_fault::<String>(json, "reason")
}

impl Coded for ExitReason {
    open spec fn stable(v: ExitView) -> bool {
        true
    }

    open spec fn enc(v: ExitView) -> JsonView {
        match v {
            ExitView::Complete => JsonView::Text("Complete"@),
            ExitView::MaxTurns => JsonView::Text("MaxTurns"@),
            ExitView::BudgetExhausted => JsonView::Text("BudgetExhausted"@),
            ExitView::GuardrailTripped(text) => JsonView::Object(Map::empty().insert("GuardrailTripped"@, String::enc(text))),
            ExitView::AwaitingApproval => JsonView::Text("AwaitingApproval"@),
            ExitView::Cancelled => JsonView::Text("Cancelled"@),
            ExitView::PolicyKill { hook, reason } => JsonView::Object(
                Map::empty().insert(
                    "PolicyKill"@,
                    JsonView::Object(
                        Map::empty().insert("hook"@, String::enc(hook)).insert("reason"@, String::enc(reason)),
                    ),
                ),
            ),
            ExitView::Error(text) => JsonView::Object(Map::empty().insert("Error"@, String::enc(text))),
        }
    }

    open spec fn dec(json: JsonView) -> Option<ExitView> {
        if names_unit(json, "Complete"@) {
            Some(ExitView::Complete)
        } else if names_unit(json, "MaxTurns"@) {
            Some(ExitView::MaxTurns)
        } else if names_unit(json, "BudgetExhausted"@) {
            Some(ExitView::BudgetExhausted)
        } else if wraps(json, "GuardrailTripped"@) {
            match String::dec(json->Object_0["GuardrailTripped"@]) {
                Some(text) => Some(ExitView::GuardrailTripped(text)),
                None => None,
            }
        } else if names_unit(json, "AwaitingApproval"@) {
            Some(ExitView::AwaitingApproval)
        } else if names_unit(json, "Cancelled"@) {
            Some(ExitView::Cancelled)
        } else if wraps(json, "PolicyKill"@) {
            exit_policy_kill_value(record_of(json->Object_0["PolicyKill"@], exit_policy_kill_names(), 2))
        } else if wraps(json, "Error"@) {
            match String::dec(json->Object_0["Error"@]) {
                Some(text) => Some(ExitView::Error(text)),
                None => None,
            }
        } else {
            None
        }
    }

    open spec fn complaint(json: JsonView) -> Seq<char> {
        if wraps(json, "GuardrailTripped"@) {
            within("GuardrailTripped"@, String::complaint(json->Object_0["GuardrailTripped"@]))
        } else if wraps(json, "PolicyKill"@) {
            within(
                "PolicyKill"@,
                said(exit_policy_kill_fault(record_of(
                    json->Object_0["PolicyKill"@],
                    exit_policy_kill_names(),
                    2,
                ))),
            )
        } else if wraps(json, "Error"@) {
            within("Error"@, String::complaint(json->Object_0["Error"@]))
        } else {
            "expected an exit reason"@
        }
    }

    proof fn round_trip(v: ExitView) {
        lemma_exit_tags();
        let json = Self::enc(v);
        match v {
            ExitView::Complete => {
                assert(names_unit(json, "Complete"@));
            },
            ExitView::MaxTurns => {
                assert(names_unit(json, "MaxTurns"@));
            },
            ExitView::BudgetExhausted => {
                assert(names_unit(json, "BudgetExhausted"@));
            },
            ExitView::GuardrailTripped(text) => {
                assert(json->Object_0.contains_key("GuardrailTripped"@));
                assert(wraps(json, "GuardrailTripped"@));
            },
            ExitView::AwaitingApproval => {
                assert(names_unit(json, "AwaitingApproval"@));
            },
            ExitView::Cancelled => {
                assert(names_unit(json, "Cancelled"@));
            },
            ExitView::PolicyKill { hook, reason } => {
                lemma_exit_policy_kill_names();
                assert(json->Object_0.contains_key("PolicyKill"@));
                assert(wraps(json, "PolicyKill"@));
                let inner = json->Object_0["PolicyKill"@];
                assert(member(inner, "hook"@) == Some(String::enc(hook)));
                assert(member(inner, "reason"@) == Some(String::enc(reason)));
            },
            ExitView::Error(text) => {
                assert(json->Object_0.contains_key("Error"@));
                assert(wraps(json, "Error"@));
            },
        }
    }

    fn to_json(&self) -> (r: Json) {
        match self {
            ExitReason::Complete => Json::text("Complete"),
            ExitReason::MaxTurns => Json::text("MaxTurns"),
            ExitReason::BudgetExhausted => Json::text("BudgetExhausted"),
            ExitReason::GuardrailTripped(text) => {
                let mut m: Vec<(String, Json)> = Vec::new();
                put(&mut m, "GuardrailTripped", text.to_json());
                Json::Object(m)
            },
            ExitReason::AwaitingApproval => Json::text("AwaitingApproval"),
            ExitReason::Cancelled => Json::text("Cancelled"),
            ExitReason::PolicyKill { hook, reason } => {
                let mut m: Vec<(String, Json)> = Vec::new();
                put(&mut m, "hook", hook.to_json());
                put(&mut m, "reason", reason.to_json());
                let mut whole: Vec<(String, Json)> = Vec::new();
                put(&mut whole, "PolicyKill", Json::Object(m));
                Json::Object(whole)
            },
            ExitReason::Error(text) => {
                let mut m: Vec<(String, Json)> = Vec::new();
                put(&mut m, "Error", text.to_json());
                Json::Object(m)
            },
        }
    }

    fn read(json: &Json) -> (r: Option<Self>) {
        proof {
            lemma_exit_tags();
        }
        match unit_name(json) {
            Some(name) => {
                assert(names_unit(json@, name@));
                if *name.as_str() == *"Complete" {
                    return Some(ExitReason::Complete);
                } else if *name.as_str() == *"MaxTurns" {
                    return Some(ExitReason::MaxTurns);
                } else if *name.as_str() == *"BudgetExhausted" {
                    return Some(ExitReason::BudgetExhausted);
                } else if *name.as_str() == *"AwaitingApproval" {
                    return Some(ExitReason::AwaitingApproval);
                } else if *name.as_str() == *"Cancelled" {
                    return Some(ExitReason::Cancelled);
                }
            },
            None => {},
        }
        match sole_member(json) {
            Some(m) => {
                assert(wraps(json@, m.0@));
                if *m.0.as_str() == *"GuardrailTripped" {
                    match String::read(&m.1) {
                        Some(text) => Some(ExitReason::GuardrailTripped(text)),
                        None => None,
                    }
                } else if *m.0.as_str() == *"PolicyKill" {
                    match exit_policy_kill_record(&m.1) {
                        Some(record) => read_exit_policy_kill_value(&record),
                        None => read_exit_policy_kill_value(&m.1),
                    }
                } else if *m.0.as_str() == *"Error" {
                    match String::read(&m.1) {
                        Some(text) => Some(ExitReason::Error(text)),
                        None => None,
                    }
                } else {
                    None
                }
            },
            None => None,
        }
    }

    fn complain(json: &Json) -> (r: String) {
        proof {
            lemma_exit_tags();
        }
        match sole_member(json) {
            Some(m) => {
                assert(wraps(json@, m.0@));
                if *m.0.as_str() == *"GuardrailTripped" {
                    let e = String::complain(&m.1);
                    say_within("GuardrailTripped", e.as_str())
                } else if *m.0.as_str() == *"PolicyKill" {
                    let e = match exit_policy_kill_record(&m.1) {
                        Some(record) => tell(find_exit_policy_kill_fault(&record)),
                        None => tell(find_exit_policy_kill_fault(&m.1)),
                    };
                    say_within("PolicyKill", e.as_str())
                } else if *m.0.as_str() == *"Error" {
                    let e = String::complain(&m.1);
                    say_within("Error", e.as_str())
                } else {
                    copy("expected an exit reason")
                }
            },
            None => copy("expected an exit reason"),
        }
    }
}

} // verus!
