//! Checkpoints as JSON.
use crate::coding::{enc_list, enc_optional, list_field, list_round_trip, list_to_json, mark, optional, optional_field, optional_to_json, required, required_field, required_list, view_of, views, Coded};
use crate::json::{member, put, Json, JsonView};
use crate::record::{as_record, find_list_fault, find_object_fault, find_optional_fault, find_required_fault, first, lemma_item_fault, list_fault, object_fault, optional_fault, record_of, required_fault, said, tell};
use crate::text::{copy, opt_text, texts};
use crate::types::budget::ResourceBudget;
use crate::types::journal::CheckpointData;
use crate::types::message::{Message, MessageView};
use vstd::prelude::*;

verus! {

broadcast use vstd::seq_lib::group_seq_properties;

/// What a [`CheckpointData`] says.
pub struct CheckpointView {
    pub messages: Seq<MessageView>,
    pub budget_snapshot: ResourceBudget,
    pub vfs_snapshot: Option<Seq<u8>>,
}

impl View for CheckpointData {
    type V = CheckpointView;

    open spec fn view(&self) -> CheckpointView {
        CheckpointView {
            messages: views(self.messages@),
            budget_snapshot: self.budget_snapshot,
            vfs_snapshot: view_of(self.vfs_snapshot),
        }
    }
}

/// The names of the members of a checkpoint differ.
pub proof fn lemma_checkpoint_names()
    ensures
        mark("messages"@) == 8_109_097_115,
        mark("budget_snapshot"@) == 15_098_115_116,
        mark("vfs_snapshot"@) == 12_118_097_116,
{
    reveal_strlit("messages");
    reveal_strlit("budget_snapshot");
    reveal_strlit("vfs_snapshot");
}

/// The value that the members of an object stand for, where they stand for a checkpoint.
pub open spec fn checkpoint_value(json: JsonView) -> Option<CheckpointView> {
    match (
        required_list::<Message>(member(json, "messages"@)),
        required::<ResourceBudget>(member(json, "budget_snapshot"@)),
        optional::<Vec<u8>>(member(json, "vfs_snapshot"@)),
    ) {
        (Some(messages), Some(budget_snapshot), Some(vfs_snapshot)) => Some(
            CheckpointView { messages, budget_snapshot, vfs_snapshot },
        ),
        _ => None,
    }
}

/// Reads the members of a checkpoint.
fn read_checkpoint_value(json: &Json) -> (r: Option<CheckpointData>)
    ensures
        view_of(r) == checkpoint_value(json@),
{
    match (
        list_field::<Message>(json, "messages"),
        required_field::<ResourceBudget>(json, "budget_snapshot"),
        optional_field::<Vec<u8>>(json, "vfs_snapshot"),
    ) {
        (Some(messages), Some(budget_snapshot), Some(vfs_snapshot)) => Some(
            CheckpointData { messages, budget_snapshot, vfs_snapshot },
        ),
        _ => None,
    }
}

/// The members of a checkpoint.
pub open spec fn checkpoint_names() -> Seq<Seq<char>> {
    seq!["messages"@, "budget_snapshot"@, "vfs_snapshot"@]
}

/// The object that a list stands for, where it stands for a checkpoint.
fn checkpoint_record(json: &Json) -> (r: Option<Json>)
    ensures
        match r {
            Some(record) => record@ == record_of(json@, checkpoint_names(), 3),
            None => json@ == record_of(json@, checkpoint_names(), 3),
        },
{
    let names: Vec<String> = vec![copy("messages"), copy("budget_snapshot"), copy("vfs_snapshot")];
    assert(texts(names@) =~= checkpoint_names());
    as_record(json, &names, 3)
}

/// What is wrong with the members of a checkpoint.
pub open spec fn checkpoint_fault(json: JsonView) -> Option<Seq<char>> {
    first(
        object_fault(json),
        first(
            list_fault::<Message>(json, "messages"@),
            first(
                required_fault::<ResourceBudget>(json, "budget_snapshot"@),
                optional_fault::<Vec<u8>>(json, "vfs_snapshot"@),
            ),
        ),
    )
}

/// Finds what is wrong with the members of a checkpoint.
fn find_checkpoint_fault(json: &Json) -> (r: Option<String>)
    ensures
        opt_text(r) == checkpoint_fault(json@),
{
    let fault = find_object_fault(json);
    if fault.is_some() {
        return fault;
    }
    let fault = find_list_fault::<Message>(json, "messages");
    if fault.is_some() {
        return fault;
    }
    let fault = find_required_fault::<ResourceBudget>(json, "budget_snapshot");
    if fault.is_some() {
        return fault;
    }
    find_optional_fault::<Vec<u8>>(json, "vfs_snapshot")
}

impl Coded for CheckpointData {
    open spec fn stable(v: CheckpointView) -> bool {
        ResourceBudget::stable(v.budget_snapshot)
    }

    open spec fn enc(v: CheckpointView) -> JsonView {
        JsonView::Object(
            Map::empty()
                .insert("messages"@, enc_list::<Message>(v.messages))
                .insert("budget_snapshot"@, ResourceBudget::enc(v.budget_snapshot))
                .insert("vfs_snapshot"@, enc_optional::<Vec<u8>>(v.vfs_snapshot)),
        )
    }

    open spec fn dec(json: JsonView) -> Option<CheckpointView> {
        checkpoint_value(record_of(json, checkpoint_names(), 3))
    }

    open spec fn complaint(json: JsonView) -> Seq<char> {
        said(checkpoint_fault(record_of(json, checkpoint_names(), 3)))
    }

    proof fn round_trip(v: CheckpointView) {
        lemma_checkpoint_names();
        let json = Self::enc(v);
        assert(member(json, "messages"@) == Some(enc_list::<Message>(v.messages)));
        list_round_trip::<Message>(v.messages);
        assert(member(json, "budget_snapshot"@) == Some(ResourceBudget::enc(v.budget_snapshot)));
        ResourceBudget::round_trip(v.budget_snapshot);
        assert(member(json, "vfs_snapshot"@) == Some(enc_optional::<Vec<u8>>(v.vfs_snapshot)));
        if v.vfs_snapshot is Some {
            Vec::<u8>::round_trip(v.vfs_snapshot->0);
        }
    }

    fn to_json(&self) -> (r: Json) {
        let mut m: Vec<(String, Json)> = Vec::new();
        put(&mut m, "messages", list_to_json(&self.messages));
        put(&mut m, "budget_snapshot", self.budget_snapshot.to_json());
        put(&mut m, "vfs_snapshot", optional_to_json(&self.vfs_snapshot));
        Json::Object(m)
    }

    fn read(json: &Json) -> (r: Option<Self>) {
        match checkpoint_record(json) {
            Some(record) => read_checkpoint_value(&record),
            None => read_checkpoint_value(json),
        }
    }

    fn complain(json: &Json) -> (r: String) {
        match checkpoint_record(json) {
            Some(record) => tell(find_checkpoint_fault(&record)),
            None => tell(find_checkpoint_fault(json)),
        }
    }
}

/// A checkpoint is refused where something is wrong with it, and only there.
pub proof fn refused_checkpoints_are_explained(json: JsonView)
    ensures
        checkpoint_fault(json) is Some <==> checkpoint_value(json) is None,
{
    match member(json, "messages"@) {
        Some(JsonView::Array(items)) => {
            lemma_item_fault::<Message>(items);
        },
        _ => {},
    }
}

} // verus!
