//! A filesystem in memory.
use crate::path::{all_names, components, is_under, lemma_components, lemma_split_rooted, normalize, normalized, rooted, under};
use crate::text::{ascending, before, concat, copy, has_char, lemma_before_total, split, split_at_char, strip_prefix, texts};
use crate::text_map::TextMap;
use crate::types::vfs::{directory, file_of, FsMetadata, VfsError, VfsErrorView, VfsSnapshot, VirtualFs};
use vstd::prelude::*;
use vstd::slice::slice_to_vec;
use vstd::string::*;

verus! {

broadcast use vstd::seq_lib::group_seq_properties;

/// What stands at a path.
#[derive(Debug)]
pub enum Entry {
    File(Vec<u8>),
    Dir,
}

/// What stands at a path.
#[verifier::ext_equal]
pub enum Node {
    File(Seq<u8>),
    Dir,
}

impl View for Entry {
    type V = Node;

    open spec fn view(&self) -> Node {
        match self {
            Entry::File(data) => Node::File(data@),
            Entry::Dir => Node::Dir,
        }
    }
}

/// The root.
pub open spec fn root() -> Seq<char> {
    seq!['/']
}

/// The path of the entry `name` in the directory `dir`.
pub open spec fn child(dir: Seq<char>, name: Seq<char>) -> Seq<char> {
    if dir == root() {
        dir + name
    } else {
        dir.push('/') + name
    }
}

/// `nodes` with a directory at each missing one of the first `n` paths from the root
/// along `names`.
pub open spec fn with_dirs(nodes: Map<Seq<char>, Node>, names: Seq<Seq<char>>, n: int) -> Map<Seq<char>, Node>
    decreases n,
{
    if n <= 0 {
        nodes
    } else {
        let less = with_dirs(nodes, names, n - 1);
        let dir = rooted(names.take(n));
        if less.contains_key(dir) {
            less
        } else {
            less.insert(dir, Node::Dir)
        }
    }
}

/// `nodes` with the missing directories above `path`.
pub open spec fn with_parents(nodes: Map<Seq<char>, Node>, path: Seq<char>) -> Map<Seq<char>, Node> {
    with_dirs(nodes, components(path), components(path).len() - 1)
}

/// What reading the path `p` gives.
pub open spec fn read_of(nodes: Map<Seq<char>, Node>, p: Seq<char>) -> Result<Seq<u8>, VfsErrorView> {
    if nodes.contains_key(p) {
        match nodes[p] {
            Node::File(data) => Ok(data),
            Node::Dir => Err(VfsErrorView::NotAFile(p)),
        }
    } else {
        Err(VfsErrorView::NotFound(p))
    }
}

/// What the metadata of the path `p` is.
pub open spec fn metadata_of(nodes: Map<Seq<char>, Node>, p: Seq<char>) -> Result<FsMetadata, VfsErrorView> {
    if nodes.contains_key(p) {
        match nodes[p] {
            Node::File(data) => Ok(file_of(data.len())),
            Node::Dir => Ok(directory()),
        }
    } else {
        Err(VfsErrorView::NotFound(p))
    }
}

/// `name` stands directly in the directory `p`.
pub open spec fn is_child(nodes: Map<Seq<char>, Node>, p: Seq<char>, name: Seq<char>) -> bool {
    &&& name.len() > 0
    &&& !name.contains('/')
    &&& nodes.contains_key(child(p, name))
}

/// What listing the path `p` gives: the names of its children in ascending order.
pub open spec fn list_of(
    nodes: Map<Seq<char>, Node>,
    p: Seq<char>,
    out: Result<Seq<Seq<char>>, VfsErrorView>,
) -> bool {
    if !nodes.contains_key(p) {
        out == Err::<Seq<Seq<char>>, VfsErrorView>(VfsErrorView::NotFound(p))
    } else if nodes[p] is File {
        out == Err::<Seq<Seq<char>>, VfsErrorView>(VfsErrorView::NotADirectory(p))
    } else {
        &&& out is Ok
        &&& ascending(out->Ok_0)
        &&& forall|name: Seq<char>| #[trigger] out->Ok_0.contains(name) <==> is_child(nodes, p, name)
    }
}

/// The state after writing `data` to the path `p`, and what the write gives.
pub open spec fn write_of(
    nodes: Map<Seq<char>, Node>,
    p: Seq<char>,
    data: Seq<u8>,
) -> (Map<Seq<char>, Node>, Result<(), VfsErrorView>) {
    if p == root() {
        (nodes, Err(VfsErrorView::NotAFile(p)))
    } else {
        (with_parents(nodes, p).insert(p, Node::File(data)), Ok(()))
    }
}

/// The state after creating the directory `p`, and what that gives.
pub open spec fn mkdir_of(nodes: Map<Seq<char>, Node>, p: Seq<char>) -> (
    Map<Seq<char>, Node>,
    Result<(), VfsErrorView>,
) {
    if nodes.contains_key(p) {
        (
            nodes,
            match nodes[p] {
                Node::Dir => Ok(()),
                Node::File(_) => Err(VfsErrorView::NotAFile(p)),
            },
        )
    } else {
        (with_parents(nodes, p).insert(p, Node::Dir), Ok(()))
    }
}

/// `nodes` without `p` and all under it.
pub open spec fn without_tree(nodes: Map<Seq<char>, Node>, p: Seq<char>) -> Map<Seq<char>, Node> {
    Map::new(|k: Seq<char>| nodes.contains_key(k) && !under(k, p), |k: Seq<char>| nodes[k])
}

/// The state after removing `p`, and what that gives.
pub open spec fn remove_of(nodes: Map<Seq<char>, Node>, p: Seq<char>) -> (
    Map<Seq<char>, Node>,
    Result<(), VfsErrorView>,
) {
    if p == root() {
        (nodes, Err(VfsErrorView::Io("cannot remove root"@)))
    } else if !nodes.contains_key(p) {
        (nodes, Err(VfsErrorView::NotFound(p)))
    } else {
        (without_tree(nodes, p), Ok(()))
    }
}

/// The nodes of a map of entries.
pub open spec fn nodes_of(entries: Map<Seq<char>, Entry>) -> Map<Seq<char>, Node> {
    Map::new(|k: Seq<char>| entries.contains_key(k), |k: Seq<char>| entries[k]@)
}

/// A fully in-memory virtual filesystem.
///
/// All paths are absolute and start with `/`. `write` creates the missing parent
/// directories.
pub struct MemoryFs {
    entries: TextMap<Entry>,
}

/// Ensure that all ancestor directories of the normalized `path` exist in `map`.
fn ensure_parents(map: &mut TextMap<Entry>, path: &str)
    requires
        old(map).wf(),
        path@ == normalized(path@),
    ensures
        final(map).wf(),
        nodes_of(final(map).map()) == with_parents(nodes_of(old(map).map()), path@),
{
    let ghost names = components(path@);
    let ghost start = nodes_of(map.map());
    let segments = split(path, '/');
    proof {
        lemma_components(path@);
        if names.len() > 0 {
            lemma_split_rooted(names);
            assert(texts(segments@) == seq![Seq::<char>::empty()] + names);
        } else {
            lemma_split_root(path@);
        }
    }
    let mut cur = String::new();
    let last: usize = segments.len() - 1;
    let mut k: usize = 1;
    while k < last
        invariant
            1 <= k <= segments@.len(),
            last == segments@.len() - 1,
            map.wf(),
            all_names(names),
            names.len() > 0 ==> texts(segments@) == seq![Seq::<char>::empty()] + names && k <= names.len(),
            names.len() == 0 ==> segments@.len() == 2 && k == 1,
            k == 1 ==> cur@.len() == 0,
            k > 1 ==> cur@ == rooted(names.take(k - 1)),
            nodes_of(map.map()) == with_dirs(start, names, k - 1),
        decreases segments@.len() - k,
    {
        let ghost was = cur@;
        cur.push('/');
        cur.append(segments[k].as_str());
        proof {
            assert(texts(segments@)[k as int] == names[k - 1]);
            assert(names.take(k as int).drop_last() =~= names.take(k - 1));
            if k == 1 {
                assert(cur@ =~= rooted(names.take(1)));
            } else {
                assert(cur@ =~= rooted(names.take(k as int)));
            }
        }
        let ghost had = map.map();
        if !map.contains(cur.as_str()) {
            map.insert(copy(cur.as_str()), Entry::Dir);
            assert(nodes_of(map.map()) =~= nodes_of(had).insert(cur@, Node::Dir));
        }
        k = k + 1;
    }
}

/// The pieces of the root.
proof fn lemma_split_root(path: Seq<char>)
    requires
        path == normalized(path),
        components(path).len() == 0,
    ensures
        split_at_char(path, '/') == seq![Seq::<char>::empty(), Seq::<char>::empty()],
{
    assert(path =~= seq!['/']);
    assert(seq!['/'].drop_last() =~= Seq::<char>::empty());
    reveal_with_fuel(split_at_char, 2);
    assert(split_at_char(seq!['/'], '/') =~= seq![Seq::<char>::empty(), Seq::<char>::empty()]);
}

impl MemoryFs {
    /// What stands where.
    pub closed spec fn nodes(&self) -> Map<Seq<char>, Node> {
        nodes_of(self.entries.map())
    }

    /// Create a new empty filesystem with only the root directory.
    pub fn new() -> (r: Self)
        ensures
            r.wf(),
            r.nodes() == Map::<Seq<char>, Node>::empty().insert(root(), Node::Dir),
    {
        let mut entries: TextMap<Entry> = TextMap::new();
        entries.insert(copy("/"), Entry::Dir);
        proof {
            reveal_strlit("/");
            assert("/"@ =~= root());
        }
        let r = MemoryFs { entries };
        assert(r.nodes() =~= Map::<Seq<char>, Node>::empty().insert(root(), Node::Dir));
        r
    }
}

/// One entry as a snapshot holds it.
pub open spec fn item(path: Seq<char>, node: Node) -> (Seq<char>, bool, Seq<u8>) {
    match node {
        Node::File(data) => (path, true, data),
        Node::Dir => (path, false, Seq::empty()),
    }
}

impl Default for MemoryFs {
    fn default() -> (r: Self)
        ensures
            r.wf(),
            r.nodes() == Map::<Seq<char>, Node>::empty().insert(root(), Node::Dir),
    {
        MemoryFs::new()
    }
}

/// A common prefix does not change the order.
pub proof fn lemma_before_prefix(p: Seq<char>, a: Seq<char>, b: Seq<char>)
    ensures
        before(p + a, p + b) == before(a, b),
    decreases p.len(),
{
    if p.len() == 0 {
        assert(p + a =~= a);
        assert(p + b =~= b);
    } else {
        assert((p + a).skip(1) =~= p.skip(1) + a);
        assert((p + b).skip(1) =~= p.skip(1) + b);
        lemma_before_prefix(p.skip(1), a, b);
    }
}

// ---- Snapshots ---------------------------------------------------------------

/// The items of a snapshot.
pub open spec fn items_view(items: Seq<(String, bool, Vec<u8>)>) -> Seq<(Seq<char>, bool, Seq<u8>)> {
    Seq::new(items.len(), |i: int| (items[i].0@, items[i].1, items[i].2@))
}

/// The paths of the items.
pub open spec fn item_paths(items: Seq<(Seq<char>, bool, Seq<u8>)>) -> Seq<Seq<char>> {
    Seq::new(items.len(), |i: int| items[i].0)
}

/// The items list all nodes, in the order of their paths.
pub open spec fn is_listing(nodes: Map<Seq<char>, Node>, items: Seq<(Seq<char>, bool, Seq<u8>)>) -> bool {
    &&& ascending(item_paths(items))
    &&& forall|i: int|
        0 <= i < items.len() ==> {
            let path = (#[trigger] items[i]).0;
            nodes.contains_key(path) && items[i] == item(path, nodes[path])
        }
    &&& forall|path: Seq<char>| #[trigger] nodes.contains_key(path) ==> item_paths(items).contains(path)
}

/// The nodes that the items of a snapshot put back, the later ones first.
pub open spec fn restored(items: Seq<(Seq<char>, bool, Seq<u8>)>) -> Map<Seq<char>, Node>
    decreases items.len(),
{
    if items.len() == 0 {
        Map::empty()
    } else {
        restored(items.drop_last()).insert(
            items.last().0,
            if items.last().1 {
                Node::File(items.last().2)
            } else {
                Node::Dir
            },
        )
    }
}

/// The JSON text of the items of a snapshot.
pub uninterp spec fn items_json(items: Seq<(Seq<char>, bool, Seq<u8>)>) -> Seq<u8>;

/// The items that the bytes of a snapshot spell, or what the parser says against them.
pub uninterp spec fn items_parsed(bytes: Seq<u8>) -> Result<Seq<(Seq<char>, bool, Seq<u8>)>, Seq<char>>;

/// What came of parsing the bytes of a snapshot.
pub open spec fn items_out(r: Result<Vec<(String, bool, Vec<u8>)>, String>) -> Result<
    Seq<(Seq<char>, bool, Seq<u8>)>,
    Seq<char>,
> {
    match r {
        Ok(items) => Ok(items_view(items@)),
        Err(e) => Err(e@),
    }
}

/// The items came of parsing.
pub open spec fn gives_items(
    r: Result<Vec<(String, bool, Vec<u8>)>, String>,
    items: Seq<(Seq<char>, bool, Seq<u8>)>,
) -> bool {
    r is Ok && items_view(r->Ok_0@) == items
}

/// `serde_json::to_vec` on the items of a snapshot: it succeeds, because nothing in
/// the items can refuse to be serialized, and the bytes depend on the items alone.
#[verifier::external_body]
fn items_to_json(items: &Vec<(String, bool, Vec<u8>)>) -> (r: Result<Vec<u8>, String>)
    ensures
        r is Ok,
        r->Ok_0@ == items_json(items_view(items@)),
{
    serde_json::to_vec(items).map_err(|e| e.to_string())
}

/// `serde_json::from_slice` to the items of a snapshot: the outcome depends on the
/// bytes alone, and bytes that were made from items give these items back.
#[verifier::external_body]
fn items_from_json(bytes: &[u8]) -> (r: Result<Vec<(String, bool, Vec<u8>)>, String>)
    ensures
        items_out(r) == items_parsed(bytes@),
        forall|items: Seq<(Seq<char>, bool, Seq<u8>)>|
            bytes@ == #[trigger] items_json(items) ==> gives_items(r, items),
{
    serde_json::from_slice(bytes).map_err(|e| e.to_string())
}

// ---- The filesystem ----------------------------------------------------------

impl VirtualFs for MemoryFs {
    closed spec fn wf(&self) -> bool {
        self.entries.wf()
    }

    open spec fn reads(&self, path: Seq<char>, out: Result<Seq<u8>, VfsErrorView>) -> bool {
        out == read_of(self.nodes(), normalized(path))
    }

    open spec fn writes(
        &self,
        path: Seq<char>,
        data: Seq<u8>,
        after: Self,
        out: Result<(), VfsErrorView>,
    ) -> bool {
        (after.nodes(), out) == write_of(self.nodes(), normalized(path), data)
    }

    open spec fn has(&self, path: Seq<char>, out: bool) -> bool {
        out == self.nodes().contains_key(normalized(path))
    }

    open spec fn lists(&self, path: Seq<char>, out: Result<Seq<Seq<char>>, VfsErrorView>) -> bool {
        list_of(self.nodes(), normalized(path), out)
    }

    open spec fn makes_dir(&self, path: Seq<char>, after: Self, out: Result<(), VfsErrorView>) -> bool {
        (after.nodes(), out) == mkdir_of(self.nodes(), normalized(path))
    }

    open spec fn removes(&self, path: Seq<char>, after: Self, out: Result<(), VfsErrorView>) -> bool {
        (after.nodes(), out) == remove_of(self.nodes(), normalized(path))
    }

    open spec fn describes(&self, path: Seq<char>, out: Result<FsMetadata, VfsErrorView>) -> bool {
        out == metadata_of(self.nodes(), normalized(path))
    }

    open spec fn saves(&self, out: Result<Seq<u8>, VfsErrorView>) -> bool {
        exists|items: Seq<(Seq<char>, bool, Seq<u8>)>|
            out == Ok::<Seq<u8>, VfsErrorView>(#[trigger] items_json(items)) && is_listing(self.nodes(), items)
    }

    open spec fn restores(&self, data: Seq<u8>, after: Self, out: Result<(), VfsErrorView>) -> bool {
        &&& match items_parsed(data) {
            Ok(items) => out is Ok && after.nodes() == restored(items),
            Err(e) => out == Err::<(), VfsErrorView>(VfsErrorView::Io(e)) && after.nodes() == self.nodes(),
        }
        &&& forall|items: Seq<(Seq<char>, bool, Seq<u8>)>|
            data == #[trigger] items_json(items) ==> out is Ok && after.nodes() == restored(items)
    }

    fn read(&self, path: &str) -> (r: Result<Vec<u8>, VfsError>) {
        let path = normalize(path);
        match self.entries.get(path.as_str()) {
            Some(Entry::File(data)) => Ok(slice_to_vec(data.as_slice())),
            Some(Entry::Dir) => Err(VfsError::NotAFile(path)),
            None => Err(VfsError::NotFound(path)),
        }
    }

    fn write(&mut self, path: &str, data: &[u8]) -> (r: Result<(), VfsError>) {
        let ghost raw = path@;
        let path = normalize(path);
        proof {
            reveal_strlit("/");
            assert("/"@ =~= root());
            lemma_components(raw);
        }
        if *path.as_str() == *"/" {
            return Err(VfsError::NotAFile(path));
        }
        ensure_parents(&mut self.entries, path.as_str());
        let ghost had = self.entries.map();
        let file = Entry::File(slice_to_vec(data));
        self.entries.insert(path, file);
        assert(self.nodes() =~= nodes_of(had).insert(normalized(raw), Node::File(data@)));
        Ok(())
    }

    fn entry_exists(&self, path: &str) -> (r: bool) {
        let path = normalize(path);
        self.entries.contains(path.as_str())
    }

    fn list_dir(&self, path: &str) -> (r: Result<Vec<String>, VfsError>) {
        let path = normalize(path);
        let ghost p = path@;
        match self.entries.get(path.as_str()) {
            Some(Entry::Dir) => {},
            Some(Entry::File(_)) => {
                return Err(VfsError::NotADirectory(path));
            },
            None => {
                return Err(VfsError::NotFound(path));
            },
        }
        proof {
            reveal_strlit("/");
            assert("/"@ =~= root());
        }
        let prefix = if *path.as_str() == *"/" {
            copy("/")
        } else {
            concat(path.as_str(), "/")
        };
        assert(forall|name: Seq<char>| #[trigger] child(p, name) =~= prefix@ + name);
        let mut names: Vec<String> = Vec::new();
        let mut i: usize = 0;
        let ghost keys = self.entries.keys();
        proof {
            self.entries.lemma_positions();
        }
        while i < self.entries.len()
            invariant
                self.wf(),
                i <= keys.len(),
                keys == self.entries.keys(),
                ascending(keys),
                ascending(texts(names@)),
                forall|j: int|
                    0 <= j < names@.len() ==> {
                        let name = #[trigger] texts(names@)[j];
                        &&& name.len() > 0
                        &&& !name.contains('/')
                        &&& exists|k: int| 0 <= k < i && keys[k] == prefix@ + name
                    },
                forall|k: int, name: Seq<char>|
                    0 <= k < i && #[trigger] keys[k] == #[trigger] (prefix@ + name) && name.len() > 0 && !name.contains('/')
                        ==> texts(names@).contains(name),
            decreases keys.len() - i,
        {
            let key = self.entries.key(i);
            let ghost was = texts(names@);
            match strip_prefix(key, prefix.as_str()) {
                Some(rest) => {
                    assert(prefix@ + rest@ =~= key@) by {
                        assert(key@.subrange(0, prefix@.len() as int) == prefix@);
                    }
                    if !has_char(rest, '/') && !rest.is_empty() {
                        names.push(copy(rest));
                        proof {
                            assert(texts(names@) =~= was.push(rest@));
                            assert(was.push(rest@)[was.len() as int] == rest@);
                            assert forall|j: int| 0 <= j < was.len() implies before(#[trigger] was[j], rest@) by {
                                let k = choose|k: int| 0 <= k < i && keys[k] == prefix@ + was[j];
                                assert(before(keys[k], keys[i as int]));
                                lemma_before_prefix(prefix@, was[j], rest@);
                            }
                            assert forall|k: int, name: Seq<char>|
                                0 <= k < i + 1 && #[trigger] keys[k] == #[trigger] (prefix@ + name) && name.len() > 0
                                    && !name.contains('/') implies texts(names@).contains(name) by {
                                if k == i {
                                    assert(name =~= (prefix@ + name).skip(prefix@.len() as int));
                                    assert(rest@ =~= key@.skip(prefix@.len() as int));
                                    assert(name == rest@);
                                } else {
                                    assert(was.contains(name));
                                    let j = choose|j: int| 0 <= j < was.len() && was[j] == name;
                                    assert(texts(names@)[j] == name);
                                }
                            }
                        }
                    } else {
                        proof {
                            assert forall|name: Seq<char>| keys[i as int] == #[trigger] (prefix@ + name) implies name
                                == rest@ by {
                                assert(name =~= (prefix@ + name).skip(prefix@.len() as int));
                            }
                        }
                    }
                },
                None => {
                    proof {
                        assert forall|name: Seq<char>| keys[i as int] != #[trigger] (prefix@ + name) by {
                            if keys[i as int] == prefix@ + name {
                                assert(prefix@ =~= (prefix@ + name).subrange(0, prefix@.len() as int));
                            }
                        }
                    }
                },
            }
            i = i + 1;
        }
        proof {
            self.entries.lemma_positions();
            let out = texts(names@);
            assert forall|name: Seq<char>| #[trigger] out.contains(name) <==> is_child(self.nodes(), p, name) by {
                assert(child(p, name) == prefix@ + name);
                if out.contains(name) {
                    let j = choose|j: int| 0 <= j < out.len() && out[j] == name;
                    assert(out[j] == name);
                    let k = choose|k: int| 0 <= k < i && keys[k] == prefix@ + name;
                    assert(self.entries.map().contains_key(keys[k]));
                }
                if is_child(self.nodes(), p, name) {
                    assert(self.entries.map().contains_key(prefix@ + name));
                    let k = choose|k: int| 0 <= k < keys.len() && keys[k] == prefix@ + name;
                    assert(keys[k] == prefix@ + name);
                }
            }
        }
        Ok(names)
    }

    fn mkdir(&mut self, path: &str) -> (r: Result<(), VfsError>) {
        let ghost raw = path@;
        let path = normalize(path);
        proof {
            lemma_components(raw);
        }
        match self.entries.get(path.as_str()) {
            Some(Entry::Dir) => {
                return Ok(());
            },
            Some(Entry::File(_)) => {
                return Err(VfsError::NotAFile(path));
            },
            None => {},
        }
        ensure_parents(&mut self.entries, path.as_str());
        let ghost had = self.entries.map();
        self.entries.insert(path, Entry::Dir);
        assert(self.nodes() =~= nodes_of(had).insert(normalized(raw), Node::Dir));
        Ok(())
    }

    fn remove(&mut self, path: &str) -> (r: Result<(), VfsError>) {
        let path = normalize(path);
        proof {
            reveal_strlit("/");
            assert("/"@ =~= root());
        }
        if *path.as_str() == *"/" {
            return Err(VfsError::Io(copy("cannot remove root")));
        }
        if !self.entries.contains(path.as_str()) {
            return Err(VfsError::NotFound(path));
        }
        let ghost had = self.entries.map();
        let mut n: usize = self.entries.len();
        while n > 0
            invariant
                self.entries.wf(),
                n <= self.entries.keys().len(),
                forall|k: Seq<char>| #[trigger]
                    self.entries.map().contains_key(k) ==> had.contains_key(k) && self.entries.map()[k] == had[k],
                forall|k: Seq<char>| #[trigger]
                    had.contains_key(k) && !under(k, path@) ==> self.entries.map().contains_key(k),
                forall|i: int|
                    n <= i < self.entries.keys().len() ==> !under(#[trigger] self.entries.keys()[i], path@),
            decreases n,
        {
            n = n - 1;
            let ghost keys = self.entries.keys();
            if is_under(self.entries.key(n), path.as_str()) {
                proof {
                    keys.remove_ensures(n as int);
                }
                self.entries.remove_at(n);
                assert forall|i: int| n <= i < self.entries.keys().len() implies !under(
                    #[trigger] self.entries.keys()[i],
                    path@,
                ) by {
                    assert(self.entries.keys()[i] == keys[i + 1]);
                }
            }
        }
        proof {
            self.entries.lemma_positions();
            assert(self.nodes() =~= without_tree(nodes_of(had), path@));
        }
        Ok(())
    }

    fn metadata(&self, path: &str) -> (r: Result<FsMetadata, VfsError>) {
        let path = normalize(path);
        match self.entries.get(path.as_str()) {
            Some(Entry::File(data)) => Ok(FsMetadata::file(data.len())),
            Some(Entry::Dir) => Ok(FsMetadata::dir()),
            None => Err(VfsError::NotFound(path)),
        }
    }

    fn snapshot(&self) -> (r: Result<VfsSnapshot, VfsError>) {
        let mut items: Vec<(String, bool, Vec<u8>)> = Vec::new();
        let mut i: usize = 0;
        while i < self.entries.len()
            invariant
                self.wf(),
                i <= self.entries.keys().len(),
                items@.len() == i,
                forall|j: int|
                    0 <= j < i ==> #[trigger] items_view(items@)[j] == item(
                        self.entries.keys()[j],
                        self.entries.values()[j]@,
                    ),
            decreases self.entries.keys().len() - i,
        {
            let path = copy(self.entries.key(i));
            let ghost was = items_view(items@);
            match self.entries.value(i) {
                Entry::File(data) => {
                    items.push((path, true, slice_to_vec(data.as_slice())));
                },
                Entry::Dir => {
                    items.push((path, false, Vec::new()));
                },
            }
            proof {
                assert forall|j: int| 0 <= j < i + 1 implies #[trigger] items_view(items@)[j] == item(
                    self.entries.keys()[j],
                    self.entries.values()[j]@,
                ) by {
                    if j < i {
                        assert(items_view(items@)[j] == was[j]);
                    }
                }
            }
            i = i + 1;
        }
        proof {
            let all = items_view(items@);
            let keys = self.entries.keys();
            self.entries.lemma_positions();
            assert(item_paths(all) =~= keys);
            assert forall|j: int| 0 <= j < all.len() implies {
                let path = (#[trigger] all[j]).0;
                self.nodes().contains_key(path) && all[j] == item(path, self.nodes()[path])
            } by {
                assert(self.entries.map().contains_key(keys[j]));
            }
            assert(is_listing(self.nodes(), all));
        }
        match items_to_json(&items) {
            Ok(data) => Ok(VfsSnapshot { data }),
            Err(e) => Err(VfsError::Io(e)),
        }
    }

    fn restore(&mut self, snapshot: &VfsSnapshot) -> (r: Result<(), VfsError>) {
        let items = match items_from_json(snapshot.data.as_slice()) {
            Ok(items) => items,
            Err(e) => {
                return Err(VfsError::Io(e));
            },
        };
        let mut entries: TextMap<Entry> = TextMap::new();
        let mut i: usize = 0;
        assert(nodes_of(entries.map()) =~= restored(items_view(items@).take(0)));
        while i < items.len()
            invariant
                entries.wf(),
                i <= items@.len(),
                nodes_of(entries.map()) == restored(items_view(items@).take(i as int)),
            decreases items@.len() - i,
        {
            let it = &items[i];
            let ghost had = entries.map();
            let entry = if it.1 {
                Entry::File(slice_to_vec(it.2.as_slice()))
            } else {
                Entry::Dir
            };
            let ghost node = entry@;
            entries.insert(copy(it.0.as_str()), entry);
            proof {
                assert(items_view(items@).take(i + 1).drop_last() =~= items_view(items@).take(i as int));
                assert(nodes_of(entries.map()) =~= nodes_of(had).insert(it.0@, node));
            }
            i = i + 1;
        }
        assert(items_view(items@).take(i as int) =~= items_view(items@));
        self.entries = entries;
        Ok(())
    }
}

/// A listing of the nodes puts the nodes back.
pub proof fn lemma_listing_restores(nodes: Map<Seq<char>, Node>, items: Seq<(Seq<char>, bool, Seq<u8>)>)
    requires
        is_listing(nodes, items),
    ensures
        restored(items) == nodes,
{
    lemma_restored_first(items, items.len() as int);
    assert(items.take(items.len() as int) =~= items);
    assert forall|k: Seq<char>| restored(items).contains_key(k) == nodes.contains_key(k) by {
        if nodes.contains_key(k) {
            let i = choose|i: int| 0 <= i < items.len() && item_paths(items)[i] == k;
            assert(items[i].0 == k);
        }
    }
    assert(restored(items) =~= nodes);
}

/// The first `n` items put back what they say.
proof fn lemma_restored_first(items: Seq<(Seq<char>, bool, Seq<u8>)>, n: int)
    requires
        ascending(item_paths(items)),
        0 <= n <= items.len(),
    ensures
        forall|k: Seq<char>| #[trigger]
            restored(items.take(n)).contains_key(k) ==> exists|i: int| 0 <= i < n && (#[trigger] items[i]).0 == k,
        forall|i: int|
            0 <= i < n ==> {
                &&& restored(items.take(n)).contains_key((#[trigger] items[i]).0)
                &&& restored(items.take(n))[items[i].0] == if items[i].1 {
                    Node::File(items[i].2)
                } else {
                    Node::Dir
                }
            },
    decreases n,
{
    if n > 0 {
        lemma_restored_first(items, n - 1);
        let less = restored(items.take(n - 1));
        let m = restored(items.take(n));
        assert(items.take(n).drop_last() =~= items.take(n - 1));
        assert(items.take(n).last() == items[n - 1]);
        assert forall|i: int| 0 <= i < n implies {
            &&& m.contains_key((#[trigger] items[i]).0)
            &&& m[items[i].0] == if items[i].1 {
                Node::File(items[i].2)
            } else {
                Node::Dir
            }
        } by {
            if i < n - 1 {
                let paths = item_paths(items);
                assert(before(paths[i], paths[n - 1]));
                lemma_before_total(paths[i], paths[n - 1]);
            }
        }
    } else {
        assert(items.take(0) =~= Seq::empty());
    }
}

} // verus!
