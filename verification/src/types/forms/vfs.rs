//! What a filesystem tells of itself, as JSON.
use crate::coding::{mark, required, required_field, view_of, Coded};
use crate::json::{member, put, Json, JsonView};
use crate::record::{as_record, find_object_fault, find_required_fault, first, object_fault, record_of, required_fault, said, tell};
use crate::text::{copy, opt_text, texts};
use crate::types::vfs::{FsMetadata, VfsSnapshot};
use vstd::prelude::*;

verus! {

broadcast use vstd::seq_lib::group_seq_properties;

impl View for FsMetadata {
    type V = FsMetadata;

    open spec fn view(&self) -> FsMetadata {
        *self
    }
}

/// The names of the members of metadata differ.
pub proof fn lemma_metadata_names()
    ensures
        mark("is_file"@) == 7_105_102_101,
        mark("is_dir"@) == 6_105_100_114,
        mark("size"@) == 4_115_122_101,
{
    reveal_strlit("is_file");
    reveal_strlit("is_dir");
    reveal_strlit("size");
}

/// The value that the members of an object stand for, where they stand for metadata.
pub open spec fn metadata_value(json: JsonView) -> Option<FsMetadata> {
    match (
        required::<bool>(member(json, "is_file"@)),
        required::<bool>(member(json, "is_dir"@)),
        required::<u64>(member(json, "size"@)),
    ) {
        (Some(is_file), Some(is_dir), Some(size)) => Some(
            FsMetadata { is_file, is_dir, size },
        ),
        _ => None,
    }
}

/// Reads the members of metadata.
fn read_metadata_value(json: &Json) -> (r: Option<FsMetadata>)
    ensures
        view_of(r) == metadata_value(json@),
{
    match (
        required_field::<bool>(json, "is_file"),
        required_field::<bool>(json, "is_dir"),
        required_field::<u64>(json, "size"),
    ) {
        (Some(is_file), Some(is_dir), Some(size)) => Some(
            FsMetadata { is_file, is_dir, size },
        ),
        _ => None,
    }
}

/// The members of metadata.
pub open spec fn metadata_names() -> Seq<Seq<char>> {
    seq!["is_file"@, "is_dir"@, "size"@]
}

/// The object that a list stands for, where it stands for metadata.
fn metadata_record(json: &Json) -> (r: Option<Json>)
    ensures
        match r {
            Some(record) => record@ == record_of(json@, metadata_names(), 3),
            None => json@ == record_of(json@, metadata_names(), 3),
        },
{
    let names: Vec<String> = vec![copy("is_file"), copy("is_dir"), copy("size")];
    assert(texts(names@) =~= metadata_names());
    as_record(json, &names, 3)
}

/// What is wrong with the members of metadata.
pub open spec fn metadata_fault(json: JsonView) -> Option<Seq<char>> {
    first(
        object_fault(json),
        first(
            required_fault::<bool>(json, "is_file"@),
            first(
                required_fault::<bool>(json, "is_dir"@),
                required_fault::<u64>(json, "size"@),
            ),
        ),
    )
}

/// Finds what is wrong with the members of metadata.
fn find_metadata_fault(json: &Json) -> (r: Option<String>)
    ensures
        opt_text(r) == metadata_fault(json@),
{
    let fault = find_object_fault(json);
    if fault.is_some() {
        return fault;
    }
    let fault = find_required_fault::<bool>(json, "is_file");
    if fault.is_some() {
        return fault;
    }
    let fault = find_required_fault::<bool>(json, "is_dir");
    if fault.is_some() {
        return fault;
    }
    find_required_fault::<u64>(json, "size")
}

impl Coded for FsMetadata {
    open spec fn stable(v: FsMetadata) -> bool {
        true
    }

    open spec fn enc(v: FsMetadata) -> JsonView {
        JsonView::Object(
            Map::empty()
                .insert("is_file"@, bool::enc(v.is_file))
                .insert("is_dir"@, bool::enc(v.is_dir))
                .insert("size"@, u64::enc(v.size)),
        )
    }

    open spec fn dec(json: JsonView) -> Option<FsMetadata> {
        metadata_value(record_of(json, metadata_names(), 3))
    }

    open spec fn complaint(json: JsonView) -> Seq<char> {
        said(metadata_fault(record_of(json, metadata_names(), 3)))
    }

    proof fn round_trip(v: FsMetadata) {
        lemma_metadata_names();
        let json = Self::enc(v);
        assert(member(json, "is_file"@) == Some(bool::enc(v.is_file)));
        bool::round_trip(v.is_file);
        assert(member(json, "is_dir"@) == Some(bool::enc(v.is_dir)));
        bool::round_trip(v.is_dir);
        assert(member(json, "size"@) == Some(u64::enc(v.size)));
        u64::round_trip(v.size);
    }

    fn to_json(&self) -> (r: Json) {
        let mut m: Vec<(String, Json)> = Vec::new();
        put(&mut m, "is_file", self.is_file.to_json());
        put(&mut m, "is_dir", self.is_dir.to_json());
        put(&mut m, "size", self.size.to_json());
        Json::Object(m)
    }

    fn read(json: &Json) -> (r: Option<Self>) {
        match metadata_record(json) {
            Some(record) => read_metadata_value(&record),
            None => read_metadata_value(json),
        }
    }

    fn complain(json: &Json) -> (r: String) {
        match metadata_record(json) {
            Some(record) => tell(find_metadata_fault(&record)),
            None => tell(find_metadata_fault(json)),
        }
    }
}

/// What a [`VfsSnapshot`] says.
pub struct SnapshotView {
    pub data: Seq<u8>,
}

impl View for VfsSnapshot {
    type V = SnapshotView;

    open spec fn view(&self) -> SnapshotView {
        SnapshotView { data: self.data@ }
    }
}

/// The names of the members of a snapshot differ.
pub proof fn lemma_snapshot_names()
    ensures
        mark("data"@) == 4_100_116_097,
{
    reveal_strlit("data");
}

/// The value that the members of an object stand for, where they stand for a snapshot.
pub open spec fn snapshot_value(json: JsonView) -> Option<SnapshotView> {
    match required::<Vec<u8>>(member(json, "data"@)) {
        Some(data) => Some(
            SnapshotView { data },
        ),
        _ => None,
    }
}

/// Reads the members of a snapshot.
fn read_snapshot_value(json: &Json) -> (r: Option<VfsSnapshot>)
    ensures
        view_of(r) == snapshot_value(json@),
{
    match required_field::<Vec<u8>>(json, "data") {
        Some(data) => Some(
            VfsSnapshot { data },
        ),
        _ => None,
    }
}

/// The members of a snapshot.
pub open spec fn snapshot_names() -> Seq<Seq<char>> {
    seq!["data"@]
}

/// The object that a list stands for, where it stands for a snapshot.
fn snapshot_record(json: &Json) -> (r: Option<Json>)
    ensures
        match r {
            Some(record) => record@ == record_of(json@, snapshot_names(), 1),
            None => json@ == record_of(json@, snapshot_names(), 1),
        },
{
    let names: Vec<String> = vec![copy("data")];
    assert(texts(names@) =~= snapshot_names());
    as_record(json, &names, 1)
}

/// What is wrong with the members of a snapshot.
pub open spec fn snapshot_fault(json: JsonView) -> Option<Seq<char>> {
    first(
        object_fault(json),
        required_fault::<Vec<u8>>(json, "data"@),
    )
}

/// Finds what is wrong with the members of a snapshot.
fn find_snapshot_fault(json: &Json) -> (r: Option<String>)
    ensures
        opt_text(r) == snapshot_fault(json@),
{
    let fault = find_object_fault(json);
    if fault.is_some() {
        return fault;
    }
    find_required_fault::<Vec<u8>>(json, "data")
}

impl Coded for VfsSnapshot {
    open spec fn stable(v: SnapshotView) -> bool {
        true
    }

    open spec fn enc(v: SnapshotView) -> JsonView {
        JsonView::Object(
            Map::empty().insert("data"@, Vec::<u8>::enc(v.data)),
        )
    }

    open spec fn dec(json: JsonView) -> Option<SnapshotView> {
        snapshot_value(record_of(json, snapshot_names(), 1))
    }

    open spec fn complaint(json: JsonView) -> Seq<char> {
        said(snapshot_fault(record_of(json, snapshot_names(), 1)))
    }

    proof fn round_trip(v: SnapshotView) {
        lemma_snapshot_names();
        let json = Self::enc(v);
        assert(member(json, "data"@) == Some(Vec::<u8>::enc(v.data)));
        Vec::<u8>::round_trip(v.data);
    }

    fn to_json(&self) -> (r: Json) {
        let mut m: Vec<(String, Json)> = Vec::new();
        put(&mut m, "data", self.data.to_json());
        Json::Object(m)
    }

    fn read(json: &Json) -> (r: Option<Self>) {
        match snapshot_record(json) {
            Some(record) => read_snapshot_value(&record),
            None => read_snapshot_value(json),
        }
    }

    fn complain(json: &Json) -> (r: String) {
        match snapshot_record(json) {
            Some(record) => tell(find_snapshot_fault(&record)),
            None => tell(find_snapshot_fault(json)),
        }
    }
}

/// Metadata or a snapshot is refused where something is wrong with it, and only there.
pub proof fn refused_filesystem_values_are_explained(json: JsonView)
    ensures
        metadata_fault(json) is Some <==> metadata_value(json) is None,
        snapshot_fault(json) is Some <==> snapshot_value(json) is None,
{
}

} // verus!
