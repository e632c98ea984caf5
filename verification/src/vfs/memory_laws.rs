//! Laws of the filesystem in memory.
use crate::path::{all_names, components, lemma_components, lemma_components_of_rooted, lemma_rooted_under, normalize_is_idempotent, normalized, rooted, under, under_is_transitive};
use crate::types::vfs::{directory, FsMetadata, VfsErrorView, VirtualFs};
use crate::vfs::memory_fs::{items_json, lemma_listing_restores, root, with_dirs, with_parents, MemoryFs, Node};
use vstd::prelude::*;

verus! {

broadcast use vstd::seq_lib::group_seq_properties;

/// A successful write is what a read of the same path gives, however the path is
/// spelled.
pub proof fn read_gives_back_the_write(
    fs: MemoryFs,
    path: Seq<char>,
    data: Seq<u8>,
    after: MemoryFs,
    other_spelling: Seq<char>,
    out: Result<Seq<u8>, VfsErrorView>,
)
    requires
        fs.writes(path, data, after, Ok(())),
        normalized(other_spelling) == normalized(path),
        after.reads(other_spelling, out),
    ensures
        out == Ok::<Seq<u8>, VfsErrorView>(data),
{
}

/// A write succeeds everywhere but at the root.
pub proof fn write_succeeds_below_the_root(
    fs: MemoryFs,
    path: Seq<char>,
    data: Seq<u8>,
    after: MemoryFs,
    out: Result<(), VfsErrorView>,
)
    requires
        fs.writes(path, data, after, out),
    ensures
        out is Ok <==> normalized(path) != root(),
{
}

/// Adding missing directories takes nothing away, and adds only directories on the
/// way.
proof fn lemma_with_dirs(nodes: Map<Seq<char>, Node>, names: Seq<Seq<char>>, n: int)
    requires
        n <= names.len(),
    ensures
        forall|k: Seq<char>| #[trigger]
            nodes.contains_key(k) ==> with_dirs(nodes, names, n).contains_key(k) && with_dirs(nodes, names, n)[k]
                == nodes[k],
        forall|i: int|
            #![trigger names.take(i)]
            0 < i <= n ==> with_dirs(nodes, names, n).contains_key(rooted(names.take(i))),
        forall|k: Seq<char>| #[trigger]
            with_dirs(nodes, names, n).contains_key(k) && !nodes.contains_key(k) ==> with_dirs(nodes, names, n)[k]
                == Node::Dir && exists|i: int| #![trigger names.take(i)] 0 < i <= n && k == rooted(names.take(i)),
    decreases n,
{
    if n > 0 {
        lemma_with_dirs(nodes, names, n - 1);
        let less = with_dirs(nodes, names, n - 1);
        let m = with_dirs(nodes, names, n);
        assert forall|k: Seq<char>| #[trigger] m.contains_key(k) && !nodes.contains_key(k) implies m[k] == Node::Dir
            && exists|i: int| #![trigger names.take(i)] 0 < i <= n && k == rooted(names.take(i)) by {
            if less.contains_key(k) {
                let i = choose|i: int| #![trigger names.take(i)] 0 < i <= n - 1 && k == rooted(names.take(i));
                assert(k == rooted(names.take(i)));
            } else {
                assert(k == rooted(names.take(n)));
            }
        }
    }
}

/// A write leaves every other entry as it was.
pub proof fn write_leaves_other_entries(
    fs: MemoryFs,
    path: Seq<char>,
    data: Seq<u8>,
    after: MemoryFs,
    out: Result<(), VfsErrorView>,
    other: Seq<char>,
)
    requires
        fs.writes(path, data, after, out),
        fs.nodes().contains_key(other),
        other != normalized(path),
    ensures
        after.nodes().contains_key(other),
        after.nodes()[other] == fs.nodes()[other],
{
    let p = normalized(path);
    lemma_with_dirs(fs.nodes(), components(p), components(p).len() - 1);
}

/// After a successful write there is an entry at every path above: a directory, or what
/// stood there before.
pub proof fn write_creates_parents(fs: MemoryFs, path: Seq<char>, data: Seq<u8>, after: MemoryFs, depth: int)
    requires
        fs.writes(path, data, after, Ok(())),
        0 < depth < components(path).len(),
    ensures
        ({
            let above = rooted(components(path).take(depth));
            &&& after.nodes().contains_key(above)
            &&& after.nodes()[above] == if fs.nodes().contains_key(above) {
                fs.nodes()[above]
            } else {
                Node::Dir
            }
        }),
{
    let p = normalized(path);
    lemma_components(path);
    lemma_with_dirs(fs.nodes(), components(p), components(p).len() - 1);
    let names = components(path);
    let above = rooted(names.take(depth));
    assert(components(p).take(depth) == names.take(depth));
    assert(above != p) by {
        lemma_components_of_rooted(names);
        lemma_components_of_rooted(names.take(depth));
    }
    assert(with_parents(fs.nodes(), p).contains_key(above));
}

/// An operation that fails changes nothing.
pub proof fn failure_changes_nothing(
    fs: MemoryFs,
    path: Seq<char>,
    data: Seq<u8>,
    after: MemoryFs,
    e: VfsErrorView,
)
    requires
        fs.writes(path, data, after, Err(e)) || fs.makes_dir(path, after, Err(e)) || fs.removes(
            path,
            after,
            Err(e),
        ) || fs.restores(data, after, Err(e)),
    ensures
        after.nodes() == fs.nodes(),
{
}

/// After a successful removal the entry and all under it are gone, and everything
/// else is as it was.
pub proof fn removal_takes_the_tree(fs: MemoryFs, path: Seq<char>, after: MemoryFs, other: Seq<char>)
    requires
        fs.removes(path, after, Ok(())),
    ensures
        after.has(path, false),
        under(other, normalized(path)) ==> !after.nodes().contains_key(other),
        !under(other, normalized(path)) ==> after.nodes().contains_key(other) == fs.nodes().contains_key(other),
        !under(other, normalized(path)) && fs.nodes().contains_key(other) ==> after.nodes()[other] == fs.nodes()[other],
{
}

/// A directory that was created is a directory, and creating it again changes
/// nothing.
pub proof fn created_directory_is_there(fs: MemoryFs, path: Seq<char>, after: MemoryFs, again: MemoryFs)
    requires
        fs.makes_dir(path, after, Ok(())),
        after.makes_dir(path, again, Ok(())),
    ensures
        after.describes(path, Ok(directory())),
        again.nodes() == after.nodes(),
{
}

/// A state that was saved comes back, into whatever filesystem it is restored.
pub proof fn restore_gives_back_the_snapshot(
    saved: MemoryFs,
    data: Seq<u8>,
    target: MemoryFs,
    after: MemoryFs,
    out: Result<(), VfsErrorView>,
)
    requires
        saved.saves(Ok(data)),
        target.restores(data, after, out),
    ensures
        out is Ok,
        after.nodes() == saved.nodes(),
{
    let items = choose|items: Seq<(Seq<char>, bool, Seq<u8>)>|
        data == #[trigger] items_json(items) && crate::vfs::memory_fs::is_listing(saved.nodes(), items);
    lemma_listing_restores(saved.nodes(), items);
}

/// Nothing depends on how a path is spelled.
pub proof fn spelling_does_not_matter(
    fs: MemoryFs,
    path: Seq<char>,
    data: Seq<u8>,
    after: MemoryFs,
    out: Result<(), VfsErrorView>,
    bytes: Result<Seq<u8>, VfsErrorView>,
    names: Result<Seq<Seq<char>>, VfsErrorView>,
    metadata: Result<FsMetadata, VfsErrorView>,
    there: bool,
)
    ensures
        fs.has(path, there) == fs.has(normalized(path), there),
        fs.writes(path, data, after, out) == fs.writes(normalized(path), data, after, out),
        fs.makes_dir(path, after, out) == fs.makes_dir(normalized(path), after, out),
        fs.removes(path, after, out) == fs.removes(normalized(path), after, out),
        fs.reads(path, bytes) == fs.reads(normalized(path), bytes),
        fs.lists(path, names) == fs.lists(normalized(path), names),
        fs.describes(path, metadata) == fs.describes(normalized(path), metadata),
{
    normalize_is_idempotent(path);
}

// ---- The tree ----------------------------------------------------------------

/// Every path is canonical, and everything above an entry is there.
pub open spec fn is_tree_of(nodes: Map<Seq<char>, Node>) -> bool {
    &&& nodes.contains_key(root())
    &&& forall|k: Seq<char>| #[trigger] nodes.contains_key(k) ==> has_parents(nodes, k)
}

/// `path` is canonical, and everything above it is in `nodes`.
pub open spec fn has_parents(nodes: Map<Seq<char>, Node>, path: Seq<char>) -> bool {
    &&& normalized(path) == path
    &&& forall|i: int|
        #![trigger components(path).take(i)]
        0 < i < components(path).len() ==> nodes.contains_key(rooted(components(path).take(i)))
}

/// A new filesystem is a tree.
pub proof fn new_is_a_tree()
    ensures
        is_tree_of(Map::<Seq<char>, Node>::empty().insert(root(), Node::Dir)),
{
    lemma_root();
}

proof fn lemma_root()
    ensures
        normalized(root()) == root(),
        components(root()).len() == 0,
{
    lemma_components_of_rooted(Seq::<Seq<char>>::empty());
    assert(rooted(Seq::<Seq<char>>::empty()) =~= root());
}

/// The part of a canonical path down to one of its names is canonical, and the names
/// above it are above the path.
proof fn lemma_part(names: Seq<Seq<char>>, i: int)
    requires
        all_names(names),
        0 <= i <= names.len(),
    ensures
        components(rooted(names.take(i))) == names.take(i),
        normalized(rooted(names.take(i))) == rooted(names.take(i)),
{
    assert forall|k: int| 0 <= k < i implies crate::path::is_name(#[trigger] names.take(i)[k]) by {
        assert(crate::path::is_name(names[k]));
    }
    lemma_components_of_rooted(names.take(i));
}

proof fn lemma_added_is_tree(nodes: Map<Seq<char>, Node>, p: Seq<char>, node: Node)
    requires
        is_tree_of(nodes),
        normalized(p) == p,
    ensures
        is_tree_of(with_parents(nodes, p).insert(p, node)),
{
    let names = components(p);
    let n = names.len() - 1;
    let dirs = with_dirs(nodes, names, n);
    let m = dirs.insert(p, node);
    lemma_components(p);
    lemma_with_dirs(nodes, names, n);
    assert forall|k: Seq<char>| #[trigger] m.contains_key(k) implies has_parents(m, k) by {
        if k == p {
            assert forall|i: int| #![trigger components(k).take(i)] 0 < i < components(k).len() implies m.contains_key(
                rooted(components(k).take(i)),
            ) by {
                assert(dirs.contains_key(rooted(names.take(i))));
            }
        } else if nodes.contains_key(k) {
            assert(has_parents(nodes, k));
            assert forall|i: int| #![trigger components(k).take(i)] 0 < i < components(k).len() implies m.contains_key(
                rooted(components(k).take(i)),
            ) by {
                assert(nodes.contains_key(rooted(components(k).take(i))));
            }
        } else {
            let j = choose|j: int| #![trigger names.take(j)] 0 < j <= n && k == rooted(names.take(j));
            lemma_part(names, j);
            assert forall|i: int| #![trigger components(k).take(i)] 0 < i < components(k).len() implies m.contains_key(
                rooted(components(k).take(i)),
            ) by {
                assert(names.take(j).take(i) =~= names.take(i));
                assert(dirs.contains_key(rooted(names.take(i))));
            }
        }
    }
}

/// Writing into a tree gives a tree.
pub proof fn write_keeps_the_tree(
    fs: MemoryFs,
    path: Seq<char>,
    data: Seq<u8>,
    after: MemoryFs,
    out: Result<(), VfsErrorView>,
)
    requires
        is_tree_of(fs.nodes()),
        fs.writes(path, data, after, out),
    ensures
        is_tree_of(after.nodes()),
{
    normalize_is_idempotent(path);
    lemma_added_is_tree(fs.nodes(), normalized(path), Node::File(data));
}

/// Creating a directory in a tree gives a tree.
pub proof fn mkdir_keeps_the_tree(fs: MemoryFs, path: Seq<char>, after: MemoryFs, out: Result<(), VfsErrorView>)
    requires
        is_tree_of(fs.nodes()),
        fs.makes_dir(path, after, out),
    ensures
        is_tree_of(after.nodes()),
{
    normalize_is_idempotent(path);
    lemma_added_is_tree(fs.nodes(), normalized(path), Node::Dir);
}

/// Removing from a tree gives a tree.
pub proof fn remove_keeps_the_tree(fs: MemoryFs, path: Seq<char>, after: MemoryFs, out: Result<(), VfsErrorView>)
    requires
        is_tree_of(fs.nodes()),
        fs.removes(path, after, out),
    ensures
        is_tree_of(after.nodes()),
{
    let p = normalized(path);
    if out is Ok {
        let m = after.nodes();
        assert(!under(root(), p)) by {
            assert(p[0] == '/');
            if under(root(), p) && p != root() {
                assert(p.push('/').len() <= 1);
            }
        }
        assert forall|k: Seq<char>| #[trigger] m.contains_key(k) implies has_parents(m, k) by {
            let names = components(k);
            assert(has_parents(fs.nodes(), k));
            assert forall|i: int| #![trigger components(k).take(i)] 0 < i < components(k).len() implies m.contains_key(
                rooted(components(k).take(i)),
            ) by {
                let above = rooted(names.take(i));
                assert(fs.nodes().contains_key(above));
                lemma_rooted_under(names, i);
                if under(above, p) {
                    under_is_transitive(k, above, p);
                }
            }
        }
    }
}

} // verus!
