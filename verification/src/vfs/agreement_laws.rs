//! Laws of how the operations of a filesystem agree with one another.
use crate::path::{normalize_is_idempotent, normalized, under};
use crate::text::lemma_before_total;
use crate::types::vfs::{FsMetadata, VfsErrorView, VirtualFs};
use crate::vfs::memory_fs::{root, MemoryFs};
use crate::vfs::overlay::{at_or_above, hides, OverlayFs};
use vstd::prelude::*;

verus! {

broadcast use vstd::seq_lib::group_seq_properties;

/// What reading, describing and looking for one path say of it fits together: a file is there
/// and has the size of what is read, a directory is there and cannot be read, and what is not
/// there is not found.
pub open spec fn fits(bytes: Result<Seq<u8>, VfsErrorView>, metadata: Result<FsMetadata, VfsErrorView>, there: bool) -> bool {
    &&& bytes matches Ok(data) ==> there && metadata is Ok && metadata->Ok_0.is_file && (data.len() <= u64::MAX
        ==> metadata->Ok_0.size == data.len())
    &&& metadata matches Ok(m) ==> there && m.is_dir == !m.is_file && (m.is_file <==> bytes is Ok)
    &&& metadata matches Ok(m) ==> m.is_dir ==> m.size == 0 && bytes is Err && bytes->Err_0 is NotAFile
    &&& there <==> metadata is Ok
    &&& !there ==> bytes is Err && bytes->Err_0 is NotFound && metadata->Err_0 is NotFound
}

/// In memory, reading, describing and looking for a path agree.
pub proof fn memory_agrees_with_itself(
    fs: MemoryFs,
    path: Seq<char>,
    bytes: Result<Seq<u8>, VfsErrorView>,
    metadata: Result<FsMetadata, VfsErrorView>,
    there: bool,
)
    requires
        fs.reads(path, bytes),
        fs.describes(path, metadata),
        fs.has(path, there),
    ensures
        fits(bytes, metadata, there),
{
}

/// Over layers in memory, reading, describing and looking for a path agree: the metadata is that
/// of what is read.
pub proof fn the_overlay_agrees_with_itself(
    fs: OverlayFs<MemoryFs, MemoryFs>,
    path: Seq<char>,
    bytes: Result<Seq<u8>, VfsErrorView>,
    metadata: Result<FsMetadata, VfsErrorView>,
    there: bool,
)
    requires
        fs.reads(path, bytes),
        fs.describes(path, metadata),
        fs.has(path, there),
    ensures
        fits(bytes, metadata, there),
{
    normalize_is_idempotent(path);
}

/// A file that was written is there, and its metadata says how long it is.
pub proof fn written_files_are_described(
    fs: MemoryFs,
    path: Seq<char>,
    data: Seq<u8>,
    after: MemoryFs,
    metadata: Result<FsMetadata, VfsErrorView>,
    there: bool,
)
    requires
        fs.writes(path, data, after, Ok(())),
        after.describes(path, metadata),
        after.has(path, there),
    ensures
        there,
        metadata is Ok,
        metadata->Ok_0.is_file,
        !metadata->Ok_0.is_dir,
        data.len() <= u64::MAX ==> metadata->Ok_0.size == data.len(),
{
}

/// A file that was written to an overlay is there, and its metadata says how long it is, whatever
/// the lower layer has.
pub proof fn overlay_writes_are_described(
    fs: OverlayFs<MemoryFs, MemoryFs>,
    path: Seq<char>,
    data: Seq<u8>,
    after: OverlayFs<MemoryFs, MemoryFs>,
    metadata: Result<FsMetadata, VfsErrorView>,
    there: bool,
)
    requires
        fs.writes(path, data, after, Ok(())),
        after.describes(path, metadata),
        after.has(path, there),
    ensures
        there,
        metadata is Ok,
        metadata->Ok_0.is_file,
        !metadata->Ok_0.is_dir,
        data.len() <= u64::MAX ==> metadata->Ok_0.size == data.len(),
{
    normalize_is_idempotent(path);
}

/// The path of the entry `name` of the directory `dir`.
pub open spec fn entry(dir: Seq<char>, name: Seq<char>) -> Seq<char> {
    if dir == "/"@ {
        "/"@ + name
    } else {
        dir + "/"@ + name
    }
}

/// In memory, a directory lists the names of the entries that are there, each once, and nothing
/// but a directory can be listed.
pub proof fn memory_lists_what_is_there(
    fs: MemoryFs,
    path: Seq<char>,
    out: Result<Seq<Seq<char>>, VfsErrorView>,
    metadata: Result<FsMetadata, VfsErrorView>,
    name: Seq<char>,
)
    requires
        fs.lists(path, out),
        fs.describes(path, metadata),
    ensures
        out is Ok <==> metadata is Ok && metadata->Ok_0.is_dir,
        out matches Ok(names) ==> (names.contains(name) <==> name.len() > 0 && !name.contains('/')
            && fs.nodes().contains_key(entry(normalized(path), name))),
        out matches Ok(names) ==> names.no_duplicates(),
        metadata is Err ==> out == Err::<Seq<Seq<char>>, VfsErrorView>(VfsErrorView::NotFound(normalized(path))),
        metadata is Ok && metadata->Ok_0.is_file ==> out == Err::<Seq<Seq<char>>, VfsErrorView>(
            VfsErrorView::NotADirectory(normalized(path)),
        ),
{
    reveal_strlit("/");
    assert("/"@ =~= root());
    let p = normalized(path);
    assert(crate::vfs::memory_fs::child(p, name) =~= entry(p, name));
    if let Ok(names) = out {
        assert forall|i: int, j: int| 0 <= i < names.len() && 0 <= j < names.len() && i != j implies names[i] != names[j] by {
            lemma_before_total(names[i], names[j]);
            lemma_before_total(names[j], names[i]);
        }
    }
}

/// Making a directory fails only where a file is, and says which.
pub proof fn directories_are_made_where_no_file_is(
    fs: MemoryFs,
    path: Seq<char>,
    after: MemoryFs,
    out: Result<(), VfsErrorView>,
    before: Result<FsMetadata, VfsErrorView>,
    then: Result<FsMetadata, VfsErrorView>,
)
    requires
        fs.makes_dir(path, after, out),
        fs.describes(path, before),
        after.describes(path, then),
    ensures
        out is Err <==> before is Ok && before->Ok_0.is_file,
        out is Ok ==> then is Ok && then->Ok_0.is_dir && !then->Ok_0.is_file,
        out is Err ==> then == before,
{
}

/// Removing succeeds exactly below the root and where something is.
pub proof fn what_is_there_can_be_removed(
    fs: MemoryFs,
    path: Seq<char>,
    after: MemoryFs,
    out: Result<(), VfsErrorView>,
    there: bool,
)
    requires
        fs.removes(path, after, out),
        fs.has(path, there),
    ensures
        out is Ok <==> there && normalized(path) != root(),
        normalized(path) != root() && !there ==> out == Err::<(), VfsErrorView>(VfsErrorView::NotFound(normalized(path))),
{
}

/// From an overlay, what is there can be removed, the root too.
pub proof fn what_the_overlay_shows_can_be_removed(
    fs: OverlayFs<MemoryFs, MemoryFs>,
    path: Seq<char>,
    after: OverlayFs<MemoryFs, MemoryFs>,
    out: Result<(), VfsErrorView>,
    there: bool,
)
    requires
        fs.removes(path, after, out),
        fs.has(path, there),
    ensures
        out is Ok <==> there,
        !there ==> out == Err::<(), VfsErrorView>(VfsErrorView::NotFound(normalized(path))),
{
    normalize_is_idempotent(path);
}

// ---- What stands apart -------------------------------------------------------

/// A path is hidden by the set exactly where the set has the root, the path, or a directory
/// above it.
pub proof fn whiteouts_hide_what_is_under_them(hidden: Set<Seq<char>>, p: Seq<char>)
    requires
        from_root(p),
        forall|q: Seq<char>| #[trigger] hidden.contains(q) ==> from_root(q),
    ensures
        hides(hidden, p) <==> exists|q: Seq<char>|
            #[trigger] hidden.contains(q) && (q == "/"@ || q == p || (q + "/"@).is_prefix_of(p)),
{
    reveal_strlit("/");
    assert("/"@ =~= root());
    assert forall|q: Seq<char>| #[trigger] hidden.contains(q) implies at_or_above(q, p) == (q == "/"@ || q == p || (q
        + "/"@).is_prefix_of(p)) by {
        lemma_above(q, p);
    }
}

/// The path begins with a slash.
pub open spec fn from_root(path: Seq<char>) -> bool {
    path.len() > 0 && path[0] == '/'
}

proof fn lemma_above(q: Seq<char>, p: Seq<char>)
    requires
        from_root(q),
        from_root(p),
    ensures
        at_or_above(q, p) == (q == "/"@ || q == p || (q + "/"@).is_prefix_of(p)),
{
    reveal_strlit("/");
    assert("/"@ =~= root());
    let n = q.len() as int;
    if (q + "/"@).is_prefix_of(p) {
        assert(p.subrange(0, n + 1)[n] == '/');
        assert(q =~= p.take(n)) by {
            assert forall|k: int| 0 <= k < n implies q[k] == p[k] by {
                assert((q + "/"@)[k] == p.subrange(0, n + 1)[k]);
            }
        }
    } else if n < p.len() && p[n] == '/' && q == p.take(n) {
        assert(q + "/"@ =~= p.subrange(0, n + 1));
    }
}

/// Removing a path from an overlay leaves everything that does not stand under it.
pub proof fn removal_leaves_the_rest(
    fs: OverlayFs<MemoryFs, MemoryFs>,
    path: Seq<char>,
    after: OverlayFs<MemoryFs, MemoryFs>,
    out: Result<(), VfsErrorView>,
    other: Seq<char>,
    bytes: Result<Seq<u8>, VfsErrorView>,
    metadata: Result<FsMetadata, VfsErrorView>,
    there: bool,
)
    requires
        fs.removes(path, after, out),
        normalized(path) != root(),
        !under(normalized(other), normalized(path)),
    ensures
        after.reads(other, bytes) <==> fs.reads(other, bytes),
        after.describes(other, metadata) <==> fs.describes(other, metadata),
        after.has(other, there) <==> fs.has(other, there),
{
    let p = normalized(path);
    let o = normalized(other);
    normalize_is_idempotent(path);
    normalize_is_idempotent(other);
    reveal_strlit("/");
    lemma_above(p, o);
    assert(p + "/"@ =~= p.push('/'));
    assert(!at_or_above(p, o));
    if out is Ok {
        assert forall|q: Seq<char>| #[trigger] after.hidden().contains(q) && at_or_above(q, o) implies fs.hidden().contains(q) by {
            if q == p {
                assert(false);
            }
        }
        if hides(fs.hidden(), o) {
            let q = choose|q: Seq<char>| #[trigger] fs.hidden().contains(q) && at_or_above(q, o);
            assert(after.hidden().contains(q));
        }
        assert(hides(after.hidden(), o) == hides(fs.hidden(), o));
        let u = fs.upper_layer().nodes();
        let v = after.upper_layer().nodes();
        assert(v.contains_key(o) == u.contains_key(o));
        assert(u.contains_key(o) ==> v[o] == u[o]);
    }
    assert(after.reads(other, bytes) <==> fs.reads(other, bytes)) by {
        lemma_same_reads(fs, after, other, bytes);
    }
    lemma_same_describes(fs, after, other, metadata);
    lemma_same_has(fs, after, other, there);
}

/// The two overlays show the same at `p`.
pub open spec fn same_at(a: OverlayFs<MemoryFs, MemoryFs>, b: OverlayFs<MemoryFs, MemoryFs>, p: Seq<char>) -> bool {
    &&& a.lower_layer() == b.lower_layer()
    &&& hides(a.hidden(), p) == hides(b.hidden(), p)
    &&& hides(a.shadowed(), p) == hides(b.shadowed(), p)
    &&& a.upper_layer().nodes().contains_key(p) == b.upper_layer().nodes().contains_key(p)
    &&& a.upper_layer().nodes().contains_key(p) ==> a.upper_layer().nodes()[p] == b.upper_layer().nodes()[p]
}

proof fn lemma_same_reads(
    a: OverlayFs<MemoryFs, MemoryFs>,
    b: OverlayFs<MemoryFs, MemoryFs>,
    path: Seq<char>,
    out: Result<Seq<u8>, VfsErrorView>,
)
    requires
        same_at(a, b, normalized(path)),
    ensures
        a.reads(path, out) == b.reads(path, out),
{
    normalize_is_idempotent(path);
    let p = normalized(path);
    let u = crate::vfs::memory_fs::read_of(a.upper_layer().nodes(), p);
    assert(a.upper_layer().reads(p, u));
    assert(b.upper_layer().reads(p, u));
}

proof fn lemma_same_describes(
    a: OverlayFs<MemoryFs, MemoryFs>,
    b: OverlayFs<MemoryFs, MemoryFs>,
    path: Seq<char>,
    out: Result<FsMetadata, VfsErrorView>,
)
    requires
        same_at(a, b, normalized(path)),
    ensures
        a.describes(path, out) == b.describes(path, out),
{
    normalize_is_idempotent(path);
    let p = normalized(path);
    let u = crate::vfs::memory_fs::metadata_of(a.upper_layer().nodes(), p);
    assert(a.upper_layer().describes(p, u));
    assert(b.upper_layer().describes(p, u));
}

proof fn lemma_same_has(a: OverlayFs<MemoryFs, MemoryFs>, b: OverlayFs<MemoryFs, MemoryFs>, path: Seq<char>, out: bool)
    requires
        same_at(a, b, normalized(path)),
    ensures
        a.has(path, out) == b.has(path, out),
{
    normalize_is_idempotent(path);
    let p = normalized(path);
    let u = a.upper_layer().nodes().contains_key(p);
    assert(a.upper_layer().has(p, u));
    assert(b.upper_layer().has(p, u));
}

} // verus!
