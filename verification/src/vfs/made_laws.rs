//! Laws of how the layers are made, and of what they hand over.
use crate::path::normalized;
use crate::text::texts;
use crate::types::artifact::ArtifactStore;
use crate::types::grants::at_or_below;
use crate::types::memory::{parsed_memory_path, within_scopes, HitId, MemoryCapability, MemoryPath, MemoryVersion, TenantId};
use crate::types::vfs::{FsMetadata, VfsError, VfsErrorView, VfsEvent, VirtualFs};
use crate::vfs::listing::any_under;
use crate::vfs::mailboxfs::{notice_views, ArtifactNotice, MailboxFs};
use crate::vfs::memory_fs::{root, MemoryFs};
use crate::vfs::memory_store_fs::{parse_memory_path, write_views, MemoryStore, MemoryStoreFs, RecentWrite};
use crate::vfs::mount::{expand_tilde, join_path, names_prompt_file, resolve_mount_source, write_prompt, MountError};
use crate::vfs::mount_laws::behind;
use crate::vfs::notifying::{event_views, NotifyingFsLayer};
use crate::vfs::overlay::OverlayFs;
use crate::vfs::procfs::{proc_entry_names, HookLister, ProcFs, ProcState, ToolLister};
use crate::vfs::servicefs::{IntegrationLister, ServiceFs};
use crate::vfs::synthetic::{found_text, read_only_error, sorted_listing};
use vstd::prelude::*;
use vstd::utf8::encode_utf8;

verus! {

broadcast use vstd::seq_lib::group_seq_properties;

// ---- Making ------------------------------------------------------------------

/// A new filesystem in memory has its root and nothing else.
pub proof fn new_filesystems_are_empty(fs: MemoryFs, path: Seq<char>, there: bool, bytes: Result<Seq<u8>, VfsErrorView>)
    requires
        call_ensures(MemoryFs::new, (), fs),
        fs.has(path, there),
        fs.reads(path, bytes),
    ensures
        there <==> normalized(path) == root(),
        bytes is Err,
{
}

/// A new overlay shows its lower layer wherever its upper layer has nothing: nothing is hidden.
pub proof fn new_overlays_hide_nothing<L: VirtualFs, U: VirtualFs>(lower: L, upper: U, r: OverlayFs<L, U>, path: Seq<char>)
    requires
        call_ensures(OverlayFs::<L, U>::new, (lower, upper), r),
    ensures
        r.lower_layer() == lower && r.upper_layer() == upper,
        !r.hidden().contains(path) && !r.shadowed().contains(path),
{
}

/// A layer works on what it was made with.
pub proof fn layers_work_on_what_they_were_made_with<V: VirtualFs, I: IntegrationLister, T: ToolLister, H: HookLister>(
    inner: V,
    integrations: I,
    state: ProcState<T, H>,
    service: ServiceFs<V, I>,
    proc_fs: ProcFs<V, T, H>,
    shown: &V,
)
    ensures
        call_ensures(ServiceFs::<V, I>::new, (inner, integrations), service) ==> service.inner_fs() == inner && service.lister()
            == integrations,
        call_ensures(ServiceFs::<V, I>::inner, (&service,), shown) ==> *shown == service.inner_fs(),
        call_ensures(ProcFs::<V, T, H>::new, (inner, state), proc_fs) ==> proc_fs.inner_fs() == inner && proc_fs.proc_state() == state,
        call_ensures(ProcFs::<V, T, H>::inner, (&proc_fs,), shown) ==> *shown == proc_fs.inner_fs(),
{
}

// ---- Handing over ------------------------------------------------------------

/// The events of a layer are handed over once, in their order, and the layer stays as it is.
pub proof fn events_are_handed_over_once<V: VirtualFs>(
    tenant: TenantId,
    inner: V,
    capacity: usize,
    made: NotifyingFsLayer<V>,
    layer: &mut NotifyingFsLayer<V>,
    r: Vec<VfsEvent>,
)
    requires
        call_ensures(NotifyingFsLayer::<V>::take_events, (layer,), r),
    ensures
        r@.len() == old(layer).pending().len(),
        forall|i: int| 0 <= i < r@.len() ==> (#[trigger] r@[i])@ == old(layer).pending()[i],
        final(layer).pending().len() == 0,
        final(layer).inner_fs() == old(layer).inner_fs() && final(layer).owner() == old(layer).owner() && final(layer).ring()
            == old(layer).ring(),
        call_ensures(NotifyingFsLayer::<V>::for_tenant, (tenant, inner), made) ==> made.pending().len() == 0 && made.inner_fs()
            == inner && made.owner() == tenant@ && made.ring() == 256,
        call_ensures(NotifyingFsLayer::<V>::for_tenant_with_capacity, (tenant, inner, capacity), made) ==> made.pending().len() == 0
            && made.inner_fs() == inner && made.owner() == tenant@ && made.ring() == capacity,
{
    assert(event_views(r@).len() == r@.len());
    assert forall|i: int| 0 <= i < r@.len() implies (#[trigger] r@[i])@ == old(layer).pending()[i] by {
        assert(event_views(r@)[i] == r@[i]@);
    }
}

/// The capacity of a layer is the one that it was made with.
pub proof fn layers_have_their_capacity<V: VirtualFs>(layer: NotifyingFsLayer<V>, r: usize)
    requires
        call_ensures(NotifyingFsLayer::<V>::capacity, (&layer,), r),
    ensures
        r == layer.ring(),
{
}

/// The notices of a mailbox are handed over once, in their order; a mailbox without a sink has none.
pub proof fn notices_are_handed_over_once<V: VirtualFs, S: ArtifactStore>(
    mailbox: &mut MailboxFs<V, S>,
    r: Vec<ArtifactNotice>,
    plain: MailboxFs<V, S>,
    made: MailboxFs<V, S>,
)
    requires
        call_ensures(MailboxFs::<V, S>::take_notices, (mailbox,), r),
    ensures
        old(mailbox).notices() is None ==> r@.len() == 0 && final(mailbox).notices() is None,
        old(mailbox).notices() matches Some(all) ==> r@.len() == all.len() && (forall|i: int|
            0 <= i < all.len() ==> (#[trigger] r@[i])@ == all[i]) && (final(mailbox).notices() matches Some(left) && left.len() == 0),
        final(mailbox).inner_fs() == old(mailbox).inner_fs() && final(mailbox).artifacts() == old(mailbox).artifacts(),
        final(mailbox).task() == old(mailbox).task() && final(mailbox).owner() == old(mailbox).owner(),
        call_ensures(MailboxFs::<V, S>::with_artifact_sink, (plain,), made) ==> made.inner_fs() == plain.inner_fs()
            && made.artifacts() == plain.artifacts() && made.task() == plain.task() && made.owner() == plain.owner() && (
        made.notices() matches Some(none) && none.len() == 0),
{
    if let Some(all) = old(mailbox).notices() {
        assert(notice_views(r@).len() == r@.len());
        assert forall|i: int| 0 <= i < all.len() implies (#[trigger] r@[i])@ == all[i] by {
            assert(notice_views(r@)[i] == r@[i]@);
        }
    }
}

/// The recent writes of a memory are handed over once, in their order; a memory that does not record
/// them has none.
pub proof fn recent_writes_are_handed_over_once<V: VirtualFs, S: MemoryStore>(
    memory: &mut MemoryStoreFs<V, S>,
    r: Vec<RecentWrite>,
    plain: MemoryStoreFs<V, S>,
    made: MemoryStoreFs<V, S>,
)
    requires
        call_ensures(MemoryStoreFs::<V, S>::take_recent, (memory,), r),
    ensures
        old(memory).recent() is None ==> r@.len() == 0 && final(memory).recent() is None,
        old(memory).recent() matches Some(all) ==> r@.len() == all.len() && (forall|i: int|
            0 <= i < all.len() ==> (#[trigger] r@[i])@ == all[i]) && (final(memory).recent() matches Some(left) && left.len() == 0),
        final(memory).inner_fs() == old(memory).inner_fs() && final(memory).memory() == old(memory).memory(),
        final(memory).owner() == old(memory).owner() && final(memory).grants() == old(memory).grants(),
        call_ensures(MemoryStoreFs::<V, S>::with_rrwb, (plain,), made) ==> made.inner_fs() == plain.inner_fs() && made.memory()
            == plain.memory() && made.owner() == plain.owner() && made.grants() == plain.grants() && (made.recent() matches Some(none)
            && none.len() == 0),
{
    if let Some(all) = old(memory).recent() {
        assert(write_views(r@).len() == r@.len());
        assert forall|i: int| 0 <= i < all.len() implies (#[trigger] r@[i])@ == all[i] by {
            assert(write_views(r@)[i] == r@[i]@);
        }
    }
}

/// A mailbox and a memory are made for their store, their owner and what may be done with them.
pub proof fn stores_are_made_for_their_owner<V: VirtualFs, S: ArtifactStore, M: MemoryStore>(
    inner: V,
    task: String,
    owner: String,
    artifacts: S,
    mailbox: MailboxFs<V, S>,
    tenant: TenantId,
    store: M,
    capability: MemoryCapability,
    memory: MemoryStoreFs<V, M>,
)
    ensures
        call_ensures(MailboxFs::<V, S>::new, (inner, task, owner, artifacts), mailbox) ==> mailbox.inner_fs() == inner
            && mailbox.artifacts() == artifacts && mailbox.task() == task@ && mailbox.owner() == owner@ && mailbox.notices() is None,
        call_ensures(MemoryStoreFs::<V, M>::new, (inner, tenant, store, capability), memory) ==> memory.inner_fs() == inner
            && memory.memory() == store && memory.owner() == tenant@ && memory.grants() == capability@ && memory.recent() is None,
{
}

// ---- Made-up files -----------------------------------------------------------

/// A text that was found is read as its bytes, and one that was not is missing; a change of what
/// cannot change is denied, and a listing has every name once more, in order.
pub proof fn made_up_files_are_read_only(path: &str, value: Option<String>, r: Result<Vec<u8>, VfsError>, e: VfsError, names: Vec<String>, all: Result<
    Vec<String>,
    VfsError,
>)
    ensures
        call_ensures(found_text, (path, value), r) ==> match value {
            Some(text) => r matches Ok(bytes) && bytes@ == encode_utf8(text@),
            None => r matches Err(VfsError::NotFound(at)) && at@ == path@,
        },
        call_ensures(read_only_error, (path,), e) ==> (e matches VfsError::PermissionDenied(why) && why@ == path@ + " is read-only"@),
        call_ensures(sorted_listing, (names,), all) ==> all is Ok && texts(all->Ok_0@).to_multiset() == texts(names@).to_multiset(),
        call_ensures(sorted_listing, (names,), all) ==> forall|i: int, j: int|
            0 <= i < j < all->Ok_0@.len() ==> !crate::text::before((#[trigger] all->Ok_0@[j])@, (#[trigger] all->Ok_0@[i])@),
{
    if call_ensures(sorted_listing, (names,), all) {
        let out = all->Ok_0@;
        assert forall|i: int, j: int| 0 <= i < j < out.len() implies !crate::text::before((#[trigger] out[j])@, (#[trigger] out[i])@) by {
            assert(texts(out)[i] == out[i]@ && texts(out)[j] == out[j]@);
        }
    }
}

/// A directory has no size, a file the size of its contents, and each is only one of the two.
pub proof fn metadata_tells_files_from_directories(len: usize, r: FsMetadata, e: VfsError, missing: bool)
    ensures
        call_ensures(FsMetadata::dir, (), r) ==> r.is_dir && !r.is_file && r.size == 0,
        call_ensures(FsMetadata::file, (len,), r) ==> r.is_file && !r.is_dir && r.size == len,
        call_ensures(VfsError::is_not_found, (&e,), missing) ==> (missing <==> e is NotFound),
{
}

/// Some entry lies under a directory where its path begins with the directory and a slash.
pub proof fn entries_lie_under_their_directory(entries: Vec<String>, dir: &str, r: bool)
    requires
        call_ensures(any_under::<String>, (&entries, dir), r),
    ensures
        r <==> exists|i: int| 0 <= i < entries@.len() && (dir@ + "/"@).is_prefix_of((#[trigger] entries@[i])@),
{
    reveal_strlit("/");
    assert("/"@ =~= seq!['/']);
    if r {
        let i = choose|i: int| 0 <= i < texts(entries@).len() && (dir@ + seq!['/']).is_prefix_of(#[trigger] texts(entries@)[i]);
        assert((dir@ + "/"@).is_prefix_of(entries@[i]@));
    }
    if exists|i: int| 0 <= i < entries@.len() && (dir@ + "/"@).is_prefix_of((#[trigger] entries@[i])@) {
        let i = choose|i: int| 0 <= i < entries@.len() && (dir@ + "/"@).is_prefix_of((#[trigger] entries@[i])@);
        assert(texts(entries@)[i] == entries@[i]@);
        assert((dir@ + seq!['/']).is_prefix_of(texts(entries@)[i]));
    }
}

/// What stands in `/proc` and in each of its directories, in order.
pub proof fn the_directories_are_listed(tail: &str, r: Option<Vec<String>>)
    ensures
        call_ensures(proc_entry_names, (None::<&str>,), r) ==> r is Some && texts(r->0@) == seq![
            "agent"@,
            "budget"@,
            "capabilities"@,
            "hooks"@,
            "mailbox"@,
            "session"@,
            "tools"@,
        ],
        call_ensures(proc_entry_names, (Some(tail),), r) && tail@ == "agent"@ ==> r is Some && texts(r->0@) == seq![
            "id"@,
            "model"@,
            "name"@,
            "parent_id"@,
            "turn"@,
        ],
        call_ensures(proc_entry_names, (Some(tail),), r) && tail@ == "budget"@ ==> r is Some && texts(r->0@) == seq![
            "max_cost"@,
            "max_fuel"@,
            "max_tokens"@,
            "max_turns"@,
            "remaining_tokens"@,
            "remaining_turns"@,
            "used_cost"@,
            "used_fuel"@,
            "used_tokens"@,
            "used_turns"@,
        ],
        call_ensures(proc_entry_names, (Some(tail),), r) && tail@ == "capabilities"@ ==> r is Some && texts(r->0@) == seq![
            "javascript"@,
            "mcp_tools"@,
            "network"@,
            "paths_read"@,
            "paths_write"@,
            "python"@,
            "shell"@,
        ],
        call_ensures(proc_entry_names, (Some(tail),), r) && tail@ == "session"@ ==> r is Some && texts(r->0@) == seq![
            "id"@,
            "journal_entries"@,
            "uptime_ms"@,
        ],
        call_ensures(proc_entry_names, (Some(tail),), r) && tail@ == "hooks"@ ==> r is Some && texts(r->0@) == seq![
            "http_request"@,
            "llm"@,
            "spawn"@,
            "tool_call"@,
        ],
{
    reveal_strlit("session");
    reveal_strlit("hooks");
    reveal_strlit("agent");
    reveal_strlit("budget");
    reveal_strlit("capabilities");
    assert("session"@.len() == 7 && "budget"@.len() == 6 && "capabilities"@.len() == 12);
    assert("hooks"@.len() == 5 && "agent"@.len() == 5 && "hooks"@[0] == 'h' && "agent"@[0] == 'a');
}

// ---- Memory paths ------------------------------------------------------------

/// The text of a name is the name, and a path of the memory lies where its segments say.
pub proof fn memory_names_say_where_they_are(
    t: TenantId,
    p: MemoryPath,
    q: MemoryPath,
    v: MemoryVersion,
    h: HitId,
    text: &str,
    s: String,
    r: bool,
)
    ensures
        call_ensures(TenantId::as_str, (&t,), text) ==> text@ == t@,
        call_ensures(TenantId::as_fs_segment, (&t,), text) ==> text@ == t@,
        call_ensures(TenantId::to_string, (&t,), s) ==> s@ == t@,
        call_ensures(MemoryPath::as_str, (&p,), text) ==> text@ == p@,
        call_ensures(MemoryPath::to_string, (&p,), s) ==> s@ == p@,
        call_ensures(HitId::to_string, (&h,), s) ==> s@ == h@,
        call_ensures(MemoryPath::starts_with_prefix, (&p, &q), r) ==> (r <==> at_or_below(p@, q@)),
        call_ensures(MemoryPath::is_dedup, (&p,), r) ==> (r <==> at_or_below(p@, "/var/memory/dedup"@)),
        call_ensures(MemoryPath::is_mnt, (&p,), r) ==> (r <==> at_or_below(p@, "/mnt"@)),
        call_ensures(MemoryPath::is_memory_path_str, (text,), r) ==> (r <==> at_or_below(text@, "/var/memory"@) || at_or_below(
            text@,
            "/mnt"@,
        )),
        call_ensures(MemoryVersion::zero, (), v) ==> v@ == 0,
{
    lemma_below(p@, q@);
    lemma_below(p@, "/var/memory/dedup"@);
    lemma_below(p@, "/mnt"@);
    lemma_below(text@, "/var/memory"@);
    lemma_below(text@, "/mnt"@);
}

proof fn lemma_below(path: Seq<char>, top: Seq<char>)
    ensures
        at_or_below(path, top) <==> crate::path::under(path, top),
{
    reveal_strlit("/");
    assert(top + "/"@ =~= top.push('/'));
}

/// A capability of the memory opens a path where it is enabled and one of its scopes is at the path
/// or above it: the search scopes for reading, the write scopes for writing.
pub proof fn scopes_open_what_is_below_them(c: MemoryCapability, p: MemoryPath, scopes: Vec<MemoryPath>, r: bool)
    ensures
        call_ensures(within_scopes, (&p, &scopes), r) ==> (r <==> exists|i: int|
            0 <= i < scopes@.len() && at_or_below(p@, (#[trigger] scopes@[i])@)),
        call_ensures(MemoryCapability::can_read, (&c, &p), r) ==> (r <==> c.enabled && exists|i: int|
            0 <= i < c.search_scopes@.len() && at_or_below(p@, (#[trigger] c.search_scopes@[i])@)),
        call_ensures(MemoryCapability::can_write, (&c, &p), r) ==> (r <==> c.enabled && exists|i: int|
            0 <= i < c.write_scopes@.len() && at_or_below(p@, (#[trigger] c.write_scopes@[i])@)),
{
    lemma_scopes(p@, scopes@);
    lemma_scopes(p@, c.search_scopes@);
    lemma_scopes(p@, c.write_scopes@);
}

proof fn lemma_scopes(path: Seq<char>, scopes: Seq<MemoryPath>)
    ensures
        crate::types::memory::in_scope(path, texts(scopes)) <==> exists|i: int|
            0 <= i < scopes.len() && at_or_below(path, (#[trigger] scopes[i])@),
{
    assert forall|i: int| 0 <= i < scopes.len() implies at_or_below(path, (#[trigger] scopes[i])@) == crate::path::under(
        path,
        texts(scopes)[i],
    ) by {
        lemma_below(path, scopes[i]@);
    }
    if crate::types::memory::in_scope(path, texts(scopes)) {
        let i = choose|i: int| 0 <= i < texts(scopes).len() && crate::path::under(path, #[trigger] texts(scopes)[i]);
        assert(at_or_below(path, scopes[i]@));
    }
    if exists|i: int| 0 <= i < scopes.len() && at_or_below(path, (#[trigger] scopes[i])@) {
        let i = choose|i: int| 0 <= i < scopes.len() && at_or_below(path, (#[trigger] scopes[i])@);
        assert(crate::path::under(path, texts(scopes)[i]));
    }
}

/// A text that is no path of the memory is denied with what is wrong with it.
pub proof fn bad_memory_paths_are_denied(raw: &str, r: Result<MemoryPath, VfsError>)
    requires
        call_ensures(parse_memory_path, (raw,), r),
    ensures
        match parsed_memory_path(raw@) {
            Ok(path) => r matches Ok(p) && p@ == path,
            Err(e) => r matches Err(VfsError::PermissionDenied(why)) && why@ == "invalid memory path '"@ + raw@ + "': "@ + e.message(),
        },
{
}

// ---- Mounts ------------------------------------------------------------------

/// A tilde at the start stands for the home directory, and a relative path stands behind its base.
pub proof fn sources_are_made_absolute(path: &str, base: &str, home: &str, rest: Seq<char>, r: String)
    requires
        base@.len() > 0,
    ensures
        call_ensures(expand_tilde, (path, Some(home)), r) && path@ == "~/"@ + rest ==> r@ == home@ + "/"@ + rest,
        call_ensures(expand_tilde, (path, Some(home)), r) && path@ == "~"@ ==> r@ == home@,
        call_ensures(expand_tilde, (path, Some(home)), r) && (path@.len() == 0 || path@[0] != '~') ==> r@ == path@,
        call_ensures(expand_tilde, (path, None), r) ==> r@ == path@,
        call_ensures(join_path, (base, path), r) && path@.len() > 0 && path@[0] == '/' ==> r@ == path@,
        call_ensures(join_path, (base, path), r) && path@.len() > 0 && path@[0] != '/' ==> r@ == behind(base@, path@),
        call_ensures(resolve_mount_source, (path, None, base), r) && path@.len() > 0 && path@[0] == '/' ==> r@ == path@,
        call_ensures(resolve_mount_source, (path, None, base), r) && path@.len() > 0 && path@[0] != '/' ==> r@ == behind(base@, path@),
        call_ensures(resolve_mount_source, (path, Some(home), base), r) && path@ == "~/"@ + rest && home@.len() > 0 && home@[0] == '/'
            ==> r@ == home@ + "/"@ + rest,
{
    reveal_strlit("~/");
    reveal_strlit("~");
    reveal_strlit("/");
    assert("/"@ =~= seq!['/']);
    if path@ == "~/"@ + rest {
        assert("~/"@ =~= path@.subrange(0, 2));
        assert(home@ + path@.skip(1) =~= home@ + "/"@ + rest);
    }
    if path@ == "~"@ {
        assert(home@ + path@.skip(1) =~= home@);
    }
    if "~/"@.is_prefix_of(path@) {
        assert("~/"@ =~= path@.subrange(0, 2));
        assert(path@[0] == "~/"@[0]);
    }
}

/// A system prompt names a file where it is a relative path with a slash.
pub proof fn prompts_name_files_by_a_slash(prompt: &str, r: bool)
    requires
        call_ensures(names_prompt_file, (prompt,), r),
    ensures
        r <==> prompt@.contains('/') && prompt@[0] != '/' && prompt@[0] != '~',
{
}

/// A prompt that was written is read back where it was written.
pub proof fn prompts_are_written(
    vfs: &mut MemoryFs,
    path: &str,
    data: &[u8],
    r: Result<(), MountError>,
    read: Result<Seq<u8>, VfsErrorView>,
)
    requires
        call_ensures(write_prompt::<MemoryFs>, (vfs, path, data), r),
        final(vfs).reads(path@, read),
    ensures
        r is Ok <==> normalized(path@) != root(),
        r is Ok ==> read == Ok::<Seq<u8>, VfsErrorView>(data@),
{
    crate::vfs::mount_laws::written_prompts_are_read_back(
        *old(vfs),
        path@,
        data@,
        *final(vfs),
        crate::vfs::mount::check_out(r),
        read,
    );
}

} // verus!
