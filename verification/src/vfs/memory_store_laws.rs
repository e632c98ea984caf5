//! What holds of a [`MemoryStoreFs`], whatever its store is.
use crate::path::under;
use crate::types::capability::{plain_path, read_denial, write_denial, TokenView};
use crate::types::memory::{in_scope, is_memory_path, lemma_parsed_under_mnt, parsed_memory_path, MemoryVersion};
use crate::types::vfs::{FsMetadata, VfsErrorView, VfsEventView, VirtualFs};
use crate::vfs::memory_store_fs::{forwarded, read_gate_of, write_gate_of, MemoryErrorView, MemoryEvent, MemoryStore, MemoryStoreFs};
use vstd::prelude::*;

verus! {

/// A memory path can be read: it is valid, and a search scope of an enabled capability
/// grants it.
pub open spec fn readable<V: VirtualFs, S: MemoryStore>(fs: MemoryStoreFs<V, S>, path: Seq<char>) -> bool {
    &&& parsed_memory_path(path) is Ok
    &&& fs.grants().enabled
    &&& in_scope(parsed_memory_path(path)->Ok_0, fs.grants().search_scopes)
}

/// A memory path outside the search scopes shows nothing: reading, listing and describing
/// it are denied, and it does not seem to exist.
pub proof fn unreadable_memory_is_hidden<V: VirtualFs, S: MemoryStore>(
    fs: MemoryStoreFs<V, S>,
    path: Seq<char>,
    bytes: Result<Seq<u8>, VfsErrorView>,
    there: bool,
    names: Result<Seq<Seq<char>>, VfsErrorView>,
    metadata: Result<FsMetadata, VfsErrorView>,
)
    requires
        is_memory_path(path),
        !readable(fs, path),
        fs.reads(path, bytes),
        fs.has(path, there),
        fs.lists(path, names),
        fs.describes(path, metadata),
    ensures
        bytes is Err && bytes->Err_0 is PermissionDenied,
        !there,
        names is Err && names->Err_0 is PermissionDenied,
        metadata is Err && metadata->Err_0 is PermissionDenied,
{
}

/// A memory path outside the write scopes cannot be changed, and an attempt changes
/// nothing.
pub proof fn unwritable_memory_never_changes<V: VirtualFs, S: MemoryStore>(
    fs: MemoryStoreFs<V, S>,
    path: Seq<char>,
    data: Seq<u8>,
    after: MemoryStoreFs<V, S>,
    out: Result<(), VfsErrorView>,
)
    requires
        is_memory_path(path),
        parsed_memory_path(path) is Ok && fs.grants().enabled ==> !in_scope(
            parsed_memory_path(path)->Ok_0,
            fs.grants().write_scopes,
        ),
        fs.writes(path, data, after, out) || fs.makes_dir(path, after, out) || fs.removes(path, after, out),
    ensures
        out is Err && out->Err_0 is PermissionDenied,
        fs.unchanged(after),
{
}

/// Nothing under `/mnt` can be changed, whatever the capability grants.
pub proof fn ingested_memory_never_changes<V: VirtualFs, S: MemoryStore>(
    fs: MemoryStoreFs<V, S>,
    path: Seq<char>,
    data: Seq<u8>,
    after: MemoryStoreFs<V, S>,
    out: Result<(), VfsErrorView>,
)
    requires
        under(path, "/mnt"@),
        fs.writes(path, data, after, out) || fs.makes_dir(path, after, out) || fs.removes(path, after, out),
    ensures
        out is Err && out->Err_0 is PermissionDenied,
        fs.unchanged(after),
{
    if parsed_memory_path(path) is Ok {
        lemma_parsed_under_mnt(path);
    }
}

/// The store gives back what it was given: after `data` was stored, `path` reads as
/// `data`.
pub open spec fn memory_gives_back<S: MemoryStore>(
    after: S,
    tenant: Seq<char>,
    path: Seq<char>,
    data: Seq<u8>,
) -> bool {
    forall|got: Result<(Seq<u8>, MemoryVersion), MemoryErrorView>| #[trigger]
        after.gets(tenant, path, got) ==> got is Ok && got->Ok_0.0 == data
}

/// A memory write that succeeded is read back wherever it may be read, if the store
/// gives back what it was given.
pub proof fn memory_read_gives_back_the_write<V: VirtualFs, S: MemoryStore>(
    fs: MemoryStoreFs<V, S>,
    path: Seq<char>,
    data: Seq<u8>,
    after: MemoryStoreFs<V, S>,
    out: Result<(), VfsErrorView>,
    read: Result<Seq<u8>, VfsErrorView>,
)
    requires
        is_memory_path(path),
        fs.writes(path, data, after, out),
        out is Ok,
        readable(fs, path),
        memory_gives_back(after.memory(), fs.owner(), parsed_memory_path(path)->Ok_0, data),
        after.reads(path, read),
    ensures
        read == Ok::<Seq<u8>, VfsErrorView>(data),
{
}

/// Every memory write that succeeds is recorded for the same run, where writes are
/// collected; none that fails is.
pub proof fn the_run_sees_its_writes<V: VirtualFs, S: MemoryStore>(
    fs: MemoryStoreFs<V, S>,
    path: Seq<char>,
    data: Seq<u8>,
    after: MemoryStoreFs<V, S>,
    out: Result<(), VfsErrorView>,
)
    requires
        is_memory_path(path),
        fs.writes(path, data, after, out),
        fs.recent() is Some,
    ensures
        out is Ok ==> {
            &&& after.recent() is Some
            &&& after.recent()->0.len() == fs.recent()->0.len() + 1
            &&& after.recent()->0.last().path == parsed_memory_path(path)->Ok_0
            &&& after.recent()->0.last().data == data
        },
        out is Err ==> after.recent() == fs.recent(),
{
}

/// The check of a capability token and this layer agree on every plain memory path.
pub proof fn both_gates_agree(token: TokenView, what: Seq<char>, path: Seq<char>)
    requires
        plain_path(path) == path,
        is_memory_path(path),
    ensures
        read_denial(token, path) is None <==> read_gate_of(token.memory, what, path) is Ok,
        write_denial(token, path) is None <==> write_gate_of(token.memory, what, path) is Ok,
{
}

/// Only the changes of the tenant's own memory are forwarded, and they carry the tenant.
pub proof fn tenants_stay_apart(bound_tenant: Seq<char>, event: MemoryEvent)
    requires
        forwarded(bound_tenant, event) is Some,
    ensures
        match forwarded(bound_tenant, event)->0 {
            VfsEventView::Written { tenant, path, len } => tenant == bound_tenant,
            VfsEventView::Removed { tenant, path } => tenant == bound_tenant,
            VfsEventView::Skipped { count } => false,
        },
{
}

/// Paths outside the memory are those of the filesystem inside, and leave the memory alone.
pub proof fn paths_outside_the_memory_pass_through<V: VirtualFs, S: MemoryStore>(
    fs: MemoryStoreFs<V, S>,
    path: Seq<char>,
    data: Seq<u8>,
    after: MemoryStoreFs<V, S>,
    out: Result<(), VfsErrorView>,
    bytes: Result<Seq<u8>, VfsErrorView>,
    names: Result<Seq<Seq<char>>, VfsErrorView>,
    metadata: Result<FsMetadata, VfsErrorView>,
    there: bool,
)
    requires
        !is_memory_path(path),
    ensures
        fs.reads(path, bytes) <==> fs.inner_fs().reads(path, bytes),
        fs.has(path, there) <==> fs.inner_fs().has(path, there),
        fs.lists(path, names) <==> fs.inner_fs().lists(path, names),
        fs.describes(path, metadata) <==> fs.inner_fs().describes(path, metadata),
        fs.writes(path, data, after, out) ==> fs.inner_fs().writes(path, data, after.inner_fs(), out) && after.memory()
            == fs.memory(),
        fs.makes_dir(path, after, out) ==> fs.inner_fs().makes_dir(path, after.inner_fs(), out) && after.memory()
            == fs.memory(),
        fs.removes(path, after, out) ==> fs.inner_fs().removes(path, after.inner_fs(), out) && after.memory()
            == fs.memory(),
{
}

} // verus!
