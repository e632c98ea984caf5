//! Changes of a filesystem as JSON.
use crate::coding::{mark, required, required_field, view_of, Coded};
use crate::json::{member, put, Json, JsonView};
use crate::record::{as_record, find_object_fault, find_required_fault, first, object_fault, record_of, required_fault, said, say_within, sole_member, tell, within, wraps};
use crate::text::{copy, opt_text, texts};
use crate::types::memory::TenantId;
use crate::types::vfs::{VfsEvent, VfsEventView};
use vstd::prelude::*;

verus! {

broadcast use vstd::seq_lib::group_seq_properties;

/// The names of the variants of a change differ.
proof fn lemma_vfs_event_tags()
    ensures
        mark("Written"@) == 7_087_116_110,
        mark("Removed"@) == 7_082_111_100,
        mark("Skipped"@) == 7_083_112_100,
{
    reveal_strlit("Written");
    reveal_strlit("Removed");
    reveal_strlit("Skipped");
}

/// The names of the members of the variant `Written` differ.
pub proof fn lemma_vfs_event_written_names()
    ensures
        mark("tenant"@) == 6_116_097_116,
        mark("path"@) == 4_112_116_104,
        mark("len"@) == 3_108_101_110,
{
    reveal_strlit("tenant");
    reveal_strlit("path");
    reveal_strlit("len");
}

/// The value that the members of an object stand for, where they stand for the variant `Written`.
pub open spec fn vfs_event_written_value(json: JsonView) -> Option<VfsEventView> {
    match (
        required::<TenantId>(member(json, "tenant"@)),
        required::<String>(member(json, "path"@)),
        required::<u64>(member(json, "len"@)),
    ) {
        (Some(tenant), Some(path), Some(len)) => Some(
            VfsEventView::Written { tenant, path, len },
        ),
        _ => None,
    }
}

/// Reads the members of the variant `Written`.
fn read_vfs_event_written_value(json: &Json) -> (r: Option<VfsEvent>)
    ensures
        view_of(r) == vfs_event_written_value(json@),
{
    match (
        required_field::<TenantId>(json, "tenant"),
        required_field::<String>(json, "path"),
        required_field::<u64>(json, "len"),
    ) {
        (Some(tenant), Some(path), Some(len)) => Some(
            VfsEvent::Written { tenant, path, len },
        ),
        _ => None,
    }
}

/// The members of the variant `Written`.
pub open spec fn vfs_event_written_names() -> Seq<Seq<char>> {
    seq!["tenant"@, "path"@, "len"@]
}

/// The object that a list stands for, where it stands for the variant `Written`.
fn vfs_event_written_record(json: &Json) -> (r: Option<Json>)
    ensures
        match r {
            Some(record) => record@ == record_of(json@, vfs_event_written_names(), 3),
            None => json@ == record_of(json@, vfs_event_written_names(), 3),
        },
{
    let names: Vec<String> = vec![copy("tenant"), copy("path"), copy("len")];
    assert(texts(names@) =~= vfs_event_written_names());
    as_record(json, &names, 3)
}

/// What is wrong with the members of the variant `Written`.
pub open spec fn vfs_event_written_fault(json: JsonView) -> Option<Seq<char>> {
    first(
        object_fault(json),
        first(
            required_fault::<TenantId>(json, "tenant"@),
            first(
                required_fault::<String>(json, "path"@),
                required_fault::<u64>(json, "len"@),
            ),
        ),
    )
}

/// Finds what is wrong with the members of the variant `Written`.
fn find_vfs_event_written_fault(json: &Json) -> (r: Option<String>)
    ensures
        opt_text(r) == vfs_event_written_fault(json@),
{
    let fault = find_object_fault(json);
    if fault.is_some() {
        return fault;
    }
    let fault = find_required_fault::<TenantId>(json, "tenant");
    if fault.is_some() {
        return fault;
    }
    let fault = find_required_fault::<String>(json, "path");
    if fault.is_some() {
        return fault;
    }
    find_required_fault::<u64>(json, "len")
}

/// The names of the members of the variant `Removed` differ.
proof fn lemma_vfs_event_removed_names()
    ensures
        mark("tenant"@) == 6_116_097_116,
        mark("path"@) == 4_112_116_104,
{
    reveal_strlit("tenant");
    reveal_strlit("path");
}

/// The value that the members of an object stand for, where they stand for the variant `Removed`.
pub open spec fn vfs_event_removed_value(json: JsonView) -> Option<VfsEventView> {
    match (
        required::<TenantId>(member(json, "tenant"@)),
        required::<String>(member(json, "path"@)),
    ) {
        (Some(tenant), Some(path)) => Some(
            VfsEventView::Removed { tenant, path },
        ),
        _ => None,
    }
}

/// Reads the members of the variant `Removed`.
fn read_vfs_event_removed_value(json: &Json) -> (r: Option<VfsEvent>)
    ensures
        view_of(r) == vfs_event_removed_value(json@),
{
    match (
        required_field::<TenantId>(json, "tenant"),
        required_field::<String>(json, "path"),
    ) {
        (Some(tenant), Some(path)) => Some(
            VfsEvent::Removed { tenant, path },
        ),
        _ => None,
    }
}

/// The members of the variant `Removed`.
pub open spec fn vfs_event_removed_names() -> Seq<Seq<char>> {
    seq!["tenant"@, "path"@]
}

/// The object that a list stands for, where it stands for the variant `Removed`.
fn vfs_event_removed_record(json: &Json) -> (r: Option<Json>)
    ensures
        match r {
            Some(record) => record@ == record_of(json@, vfs_event_removed_names(), 2),
            None => json@ == record_of(json@, vfs_event_removed_names(), 2),
        },
{
    let names: Vec<String> = vec![copy("tenant"), copy("path")];
    assert(texts(names@) =~= vfs_event_removed_names());
    as_record(json, &names, 2)
}

/// What is wrong with the members of the variant `Removed`.
pub open spec fn vfs_event_removed_fault(json: JsonView) -> Option<Seq<char>> {
    first(
        object_fault(json),
        first(
            required_fault::<TenantId>(json, "tenant"@),
            required_fault::<String>(json, "path"@),
        ),
    )
}

/// Finds what is wrong with the members of the variant `Removed`.
fn find_vfs_event_removed_fault(json: &Json) -> (r: Option<String>)
    ensures
        opt_text(r) == vfs_event_removed_fault(json@),
{
    let fault = find_object_fault(json);
    if fault.is_some() {
        return fault;
    }
    let fault = find_required_fault::<TenantId>(json, "tenant");
    if fault.is_some() {
        return fault;
    }
    find_required_fault::<String>(json, "path")
}

/// The names of the members of the variant `Skipped` differ.
proof fn lemma_vfs_event_skipped_names()
    ensures
        mark("count"@) == 5_099_117_116,
{
    reveal_strlit("count");
}

/// The value that the members of an object stand for, where they stand for the variant `Skipped`.
pub open spec fn vfs_event_skipped_value(json: JsonView) -> Option<VfsEventView> {
    match required::<u64>(member(json, "count"@)) {
        Some(count) => Some(
            VfsEventView::Skipped { count },
        ),
        _ => None,
    }
}

/// Reads the members of the variant `Skipped`.
fn read_vfs_event_skipped_value(json: &Json) -> (r: Option<VfsEvent>)
    ensures
        view_of(r) == vfs_event_skipped_value(json@),
{
    match required_field::<u64>(json, "count") {
        Some(count) => Some(
            VfsEvent::Skipped { count },
        ),
        _ => None,
    }
}

/// The members of the variant `Skipped`.
pub open spec fn vfs_event_skipped_names() -> Seq<Seq<char>> {
    seq!["count"@]
}

/// The object that a list stands for, where it stands for the variant `Skipped`.
fn vfs_event_skipped_record(json: &Json) -> (r: Option<Json>)
    ensures
        match r {
            Some(record) => record@ == record_of(json@, vfs_event_skipped_names(), 1),
            None => json@ == record_of(json@, vfs_event_skipped_names(), 1),
        },
{
    let names: Vec<String> = vec![copy("count")];
    assert(texts(names@) =~= vfs_event_skipped_names());
    as_record(json, &names, 1)
}

/// What is wrong with the members of the variant `Skipped`.
pub open spec fn vfs_event_skipped_fault(json: JsonView) -> Option<Seq<char>> {
    first(
        object_fault(json),
        required_fault::<u64>(json, "count"@),
    )
}

/// Finds what is wrong with the members of the variant `Skipped`.
fn find_vfs_event_skipped_fault(json: &Json) -> (r: Option<String>)
    ensures
        opt_text(r) == vfs_event_skipped_fault(json@),
{
    let fault = find_object_fault(json);
    if fault.is_some() {
        return fault;
    }
    find_required_fault::<u64>(json, "count")
}

impl Coded for VfsEvent {
    open spec fn stable(v: VfsEventView) -> bool {
        match v {
            VfsEventView::Written { tenant, path, len } => TenantId::stable(tenant),
            VfsEventView::Removed { tenant, path } => TenantId::stable(tenant),
            VfsEventView::Skipped { count } => true,
        }
    }

    open spec fn enc(v: VfsEventView) -> JsonView {
        match v {
            VfsEventView::Written { tenant, path, len } => JsonView::Object(
                Map::empty().insert(
                    "Written"@,
                    JsonView::Object(
                        Map::empty()
                            .insert("tenant"@, TenantId::enc(tenant))
                            .insert("path"@, String::enc(path))
                            .insert("len"@, u64::enc(len)),
                    ),
                ),
            ),
            VfsEventView::Removed { tenant, path } => JsonView::Object(
                Map::empty().insert(
                    "Removed"@,
                    JsonView::Object(
                        Map::empty()
                            .insert("tenant"@, TenantId::enc(tenant))
                            .insert("path"@, String::enc(path)),
                    ),
                ),
            ),
            VfsEventView::Skipped { count } => JsonView::Object(
                Map::empty().insert(
                    "Skipped"@,
                    JsonView::Object(Map::empty().insert("count"@, u64::enc(count))),
                ),
            ),
        }
    }

    open spec fn dec(json: JsonView) -> Option<VfsEventView> {
        if wraps(json, "Written"@) {
            vfs_event_written_value(record_of(json->Object_0["Written"@], vfs_event_written_names(), 3))
        } else if wraps(json, "Removed"@) {
            vfs_event_removed_value(record_of(json->Object_0["Removed"@], vfs_event_removed_names(), 2))
        } else if wraps(json, "Skipped"@) {
            vfs_event_skipped_value(record_of(json->Object_0["Skipped"@], vfs_event_skipped_names(), 1))
        } else {
            None
        }
    }

    open spec fn complaint(json: JsonView) -> Seq<char> {
        if wraps(json, "Written"@) {
            within(
                "Written"@,
                said(vfs_event_written_fault(record_of(
                    json->Object_0["Written"@],
                    vfs_event_written_names(),
                    3,
                ))),
            )
        } else if wraps(json, "Removed"@) {
            within(
                "Removed"@,
                said(vfs_event_removed_fault(record_of(
                    json->Object_0["Removed"@],
                    vfs_event_removed_names(),
                    2,
                ))),
            )
        } else if wraps(json, "Skipped"@) {
            within(
                "Skipped"@,
                said(vfs_event_skipped_fault(record_of(
                    json->Object_0["Skipped"@],
                    vfs_event_skipped_names(),
                    1,
                ))),
            )
        } else {
            "expected a change of a filesystem"@
        }
    }

    proof fn round_trip(v: VfsEventView) {
        lemma_vfs_event_tags();
        let json = Self::enc(v);
        match v {
            VfsEventView::Written { tenant, path, len } => {
                lemma_vfs_event_written_names();
                assert(json->Object_0.contains_key("Written"@));
                assert(wraps(json, "Written"@));
                let inner = json->Object_0["Written"@];
                assert(member(inner, "tenant"@) == Some(TenantId::enc(tenant)));
                TenantId::round_trip(tenant);
                assert(member(inner, "path"@) == Some(String::enc(path)));
                assert(member(inner, "len"@) == Some(u64::enc(len)));
            },
            VfsEventView::Removed { tenant, path } => {
                lemma_vfs_event_removed_names();
                assert(json->Object_0.contains_key("Removed"@));
                assert(wraps(json, "Removed"@));
                let inner = json->Object_0["Removed"@];
                assert(member(inner, "tenant"@) == Some(TenantId::enc(tenant)));
                TenantId::round_trip(tenant);
                assert(member(inner, "path"@) == Some(String::enc(path)));
            },
            VfsEventView::Skipped { count } => {
                lemma_vfs_event_skipped_names();
                assert(json->Object_0.contains_key("Skipped"@));
                assert(wraps(json, "Skipped"@));
                let inner = json->Object_0["Skipped"@];
                assert(member(inner, "count"@) == Some(u64::enc(count)));
            },
        }
    }

    fn to_json(&self) -> (r: Json) {
        match self {
            VfsEvent::Written { tenant, path, len } => {
                let mut m: Vec<(String, Json)> = Vec::new();
                put(&mut m, "tenant", tenant.to_json());
                put(&mut m, "path", path.to_json());
                put(&mut m, "len", len.to_json());
                let mut whole: Vec<(String, Json)> = Vec::new();
                put(&mut whole, "Written", Json::Object(m));
                Json::Object(whole)
            },
            VfsEvent::Removed { tenant, path } => {
                let mut m: Vec<(String, Json)> = Vec::new();
                put(&mut m, "tenant", tenant.to_json());
                put(&mut m, "path", path.to_json());
                let mut whole: Vec<(String, Json)> = Vec::new();
                put(&mut whole, "Removed", Json::Object(m));
                Json::Object(whole)
            },
            VfsEvent::Skipped { count } => {
                let mut m: Vec<(String, Json)> = Vec::new();
                put(&mut m, "count", count.to_json());
                let mut whole: Vec<(String, Json)> = Vec::new();
                put(&mut whole, "Skipped", Json::Object(m));
                Json::Object(whole)
            },
        }
    }

    fn read(json: &Json) -> (r: Option<Self>) {
        proof {
            lemma_vfs_event_tags();
        }
        match sole_member(json) {
            Some(m) => {
                assert(wraps(json@, m.0@));
                if *m.0.as_str() == *"Written" {
                    match vfs_event_written_record(&m.1) {
                        Some(record) => read_vfs_event_written_value(&record),
                        None => read_vfs_event_written_value(&m.1),
                    }
                } else if *m.0.as_str() == *"Removed" {
                    match vfs_event_removed_record(&m.1) {
                        Some(record) => read_vfs_event_removed_value(&record),
                        None => read_vfs_event_removed_value(&m.1),
                    }
                } else if *m.0.as_str() == *"Skipped" {
                    match vfs_event_skipped_record(&m.1) {
                        Some(record) => read_vfs_event_skipped_value(&record),
                        None => read_vfs_event_skipped_value(&m.1),
                    }
                } else {
                    None
                }
            },
            None => None,
        }
    }

    fn complain(json: &Json) -> (r: String) {
        proof {
            lemma_vfs_event_tags();
        }
        match sole_member(json) {
            Some(m) => {
                assert(wraps(json@, m.0@));
                if *m.0.as_str() == *"Written" {
                    let e = match vfs_event_written_record(&m.1) {
                        Some(record) => tell(find_vfs_event_written_fault(&record)),
                        None => tell(find_vfs_event_written_fault(&m.1)),
                    };
                    say_within("Written", e.as_str())
                } else if *m.0.as_str() == *"Removed" {
                    let e = match vfs_event_removed_record(&m.1) {
                        Some(record) => tell(find_vfs_event_removed_fault(&record)),
                        None => tell(find_vfs_event_removed_fault(&m.1)),
                    };
                    say_within("Removed", e.as_str())
                } else if *m.0.as_str() == *"Skipped" {
                    let e = match vfs_event_skipped_record(&m.1) {
                        Some(record) => tell(find_vfs_event_skipped_fault(&record)),
                        None => tell(find_vfs_event_skipped_fault(&m.1)),
                    };
                    say_within("Skipped", e.as_str())
                } else {
                    copy("expected a change of a filesystem")
                }
            },
            None => copy("expected a change of a filesystem"),
        }
    }
}

} // verus!
