//! A copy-on-write filesystem over a read-only one.
use crate::coding::lemma_item_views;
use crate::json::{item_views, json_view, member, parse_depth, parse_json_bytes, parsed_bytes, plain, print_json, printed, put, Json, JsonView};
use crate::path::{normalize, normalized};
use crate::record::{as_record, default_list_fault, find_default_list_fault, find_list_fault, find_object_fault, first, list_fault, object_fault, record_of, said, tell};
use crate::text::{ascending, chars_of, concat, copy, opt_text, string_of, texts};
use crate::text_map::TextMap;
use crate::types::vfs::{bytes_out, metadata_out, names_out, snapshot_out, unit_out, FsMetadata, VfsError, VfsErrorView, VfsSnapshot, VirtualFs};
use crate::vfs::memory_fs::{child, root};
use vstd::prelude::*;
use vstd::slice::slice_to_vec;
use vstd::string::*;
use vstd::utf8::encode_utf8;

verus! {

broadcast use vstd::seq_lib::group_seq_properties;

/// `q` is `p`, a part of `p` that ends before one of its slashes, or the root of an
/// absolute `p`.
pub open spec fn at_or_above(q: Seq<char>, p: Seq<char>) -> bool {
    ||| q == p
    ||| q == root() && p.len() > 0 && p[0] == '/'
    ||| 0 < q.len() < p.len() && p[q.len() as int] == '/' && q == p.take(q.len() as int)
}

/// A whiteout at `p` or above it.
pub open spec fn hides(whiteouts: Set<Seq<char>>, p: Seq<char>) -> bool {
    exists|q: Seq<char>| #[trigger] whiteouts.contains(q) && at_or_above(q, p)
}

/// The whiteouts without those at `p` and above it.
pub open spec fn revealed(whiteouts: Set<Seq<char>>, p: Seq<char>) -> Set<Seq<char>> {
    Set::new(|q: Seq<char>| whiteouts.contains(q) && !at_or_above(q, p))
}

/// The whiteouts at `p` and above it.
pub open spec fn buried(whiteouts: Set<Seq<char>>, p: Seq<char>) -> Set<Seq<char>> {
    Set::new(|q: Seq<char>| whiteouts.contains(q) && at_or_above(q, p))
}

/// Whether one of the paths in `set` stands at `path` or above it.
fn hidden_by(set: &TextMap<()>, path: &str) -> (r: bool)
    requires
        set.wf(),
    ensures
        r == hides(set.map().dom(), path@),
{
    let ghost hidden = set.map().dom();
    if set.contains(path) {
        assert(hidden.contains(path@));
        return true;
    }
    let chars = chars_of(path);
    proof {
        reveal_strlit("/");
        assert("/"@ =~= root());
    }
    if chars.len() > 0 && chars[0] == '/' && set.contains("/") {
        assert(hidden.contains(root()));
        return true;
    }
    let mut n: usize = 1;
    while n < chars.len()
        invariant
            n >= 1,
            chars@ == path@,
            set.wf(),
            hidden == set.map().dom(),
            !hidden.contains(path@),
            path@.len() > 0 && path@[0] == '/' ==> !hidden.contains(root()),
            forall|k: int|
                #![trigger path@.take(k)]
                0 < k < n && k < path@.len() && path@[k] == '/' ==> !hidden.contains(path@.take(k)),
        decreases chars@.len() - n,
    {
        if chars[n] == '/' {
            let part = string_of(&chars, 0, n);
            assert(part@ =~= path@.take(n as int));
            if set.contains(part.as_str()) {
                assert(hidden.contains(part@));
                return true;
            }
        }
        n = n + 1;
    }
    proof {
        assert forall|q: Seq<char>| #[trigger] hidden.contains(q) implies !at_or_above(q, path@) by {
            if 0 < q.len() < path@.len() && path@[q.len() as int] == '/' && q == path@.take(q.len() as int) {
                assert(!hidden.contains(path@.take(q.len() as int)));
            }
        }
    }
    false
}

/// A copy-on-write overlay combining a read-only lower layer and a
/// read-write upper layer. Deletions in the upper layer shadow the lower
/// layer via a whiteout set.
///
/// Where something is written at or under a path that was removed, the path is shown again,
/// but what the lower layer has there stays removed.
pub struct OverlayFs<L: VirtualFs, U: VirtualFs> {
    lower: L,
    upper: U,
    whiteouts: TextMap<()>,
    shadows: TextMap<()>,
}

impl<L: VirtualFs, U: VirtualFs> OverlayFs<L, U> {
    /// The lower layer.
    pub closed spec fn lower_layer(&self) -> L {
        self.lower
    }

    /// The upper layer.
    pub closed spec fn upper_layer(&self) -> U {
        self.upper
    }

    /// The paths that are hidden, with all under them.
    pub closed spec fn hidden(&self) -> Set<Seq<char>> {
        self.whiteouts.map().dom()
    }

    /// The paths that are shown again, but not what the lower layer has there and under them.
    pub closed spec fn shadowed(&self) -> Set<Seq<char>> {
        self.shadows.map().dom()
    }

    /// The lower layer does not show at `p`.
    pub open spec fn covers_lower(&self, p: Seq<char>) -> bool {
        hides(self.hidden(), p) || hides(self.shadowed(), p)
    }

    /// Whether the lower layer has `p`, as far as it is not shadowed.
    pub open spec fn lower_has(&self, p: Seq<char>, out: bool) -> bool {
        if hides(self.shadowed(), p) {
            !out
        } else {
            self.lower_layer().has(p, out)
        }
    }

    /// What reading `p` from the lower layer may give, as far as it is not shadowed.
    pub open spec fn lower_reads(&self, p: Seq<char>, out: Result<Seq<u8>, VfsErrorView>) -> bool {
        if hides(self.shadowed(), p) {
            out == Err::<Seq<u8>, VfsErrorView>(VfsErrorView::NotFound(p))
        } else {
            self.lower_layer().reads(p, out)
        }
    }

    /// What the metadata of `p` in the lower layer may be, as far as it is not shadowed.
    pub open spec fn lower_describes(&self, p: Seq<char>, out: Result<FsMetadata, VfsErrorView>) -> bool {
        if hides(self.shadowed(), p) {
            out == Err::<FsMetadata, VfsErrorView>(VfsErrorView::NotFound(p))
        } else {
            self.lower_layer().describes(p, out)
        }
    }

    /// What was hidden at `p` and above it is shown again; the lower layer stays shadowed.
    pub open spec fn shows_again(&self, p: Seq<char>, after: Self) -> bool {
        &&& after.hidden() == revealed(self.hidden(), p)
        &&& after.shadowed() == self.shadowed().union(buried(self.hidden(), p))
    }

    /// An overlay of `upper` over `lower`, with nothing hidden.
    pub fn new(lower: L, upper: U) -> (r: Self)
        requires
            lower.wf(),
            upper.wf(),
        ensures
            r.wf(),
            r.lower_layer() == lower,
            r.upper_layer() == upper,
            r.hidden() == Set::<Seq<char>>::empty(),
            r.shadowed() == Set::<Seq<char>>::empty(),
    {
        let r = OverlayFs { lower, upper, whiteouts: TextMap::new(), shadows: TextMap::new() };
        assert(r.hidden() =~= Set::<Seq<char>>::empty());
        assert(r.shadowed() =~= Set::<Seq<char>>::empty());
        r
    }

    /// The lower layer.
    pub fn lower(&self) -> (r: &L)
        ensures
            *r == self.lower_layer(),
    {
        &self.lower
    }

    /// The upper layer.
    pub fn upper(&self) -> (r: &U)
        ensures
            *r == self.upper_layer(),
    {
        &self.upper
    }

    fn is_whited_out(&self, path: &str) -> (r: bool)
        requires
            self.whiteouts.wf(),
        ensures
            r == hides(self.hidden(), path@),
    {
        hidden_by(&self.whiteouts, path)
    }

    /// Whether the lower layer has `path`, as far as it is not shadowed.
    fn exists_in_lower(&self, path: &str) -> (r: bool)
        requires
            self.wf(),
        ensures
            self.lower_has(path@, r),
    {
        if hidden_by(&self.shadows, path) {
            false
        } else {
            self.lower.entry_exists(path)
        }
    }

    /// Keeps what the lower layer has at the whiteouts that are about to go removed.
    fn shadow_whiteouts(&mut self, path: &str)
        requires
            old(self).whiteouts.wf(),
            old(self).shadows.wf(),
        ensures
            final(self).whiteouts == old(self).whiteouts,
            final(self).lower == old(self).lower,
            final(self).upper == old(self).upper,
            final(self).shadows.wf(),
            final(self).shadowed() == old(self).shadowed().union(buried(old(self).hidden(), path@)),
    {
        let ghost was = self.shadowed();
        let ghost hidden = self.hidden();
        if self.whiteouts.contains(path) {
            self.shadows.insert(copy(path), ());
        }
        let chars = chars_of(path);
        proof {
            reveal_strlit("/");
            assert("/"@ =~= root());
        }
        if chars.len() > 0 && chars[0] == '/' && self.whiteouts.contains("/") {
            self.shadows.insert(copy("/"), ());
        }
        let mut n: usize = 1;
        while n < chars.len()
            invariant
                n >= 1,
                chars@ == path@,
                self.whiteouts == old(self).whiteouts,
                self.lower == old(self).lower,
                self.upper == old(self).upper,
                self.whiteouts.wf(),
                self.shadows.wf(),
                hidden == old(self).hidden(),
                forall|q: Seq<char>| #[trigger]
                    self.shadowed().contains(q) <==> was.contains(q) || hidden.contains(q) && at_or_above(q, path@) && (
                    q == path@ || q == root() && path@.len() > 0 && path@[0] == '/' || q.len() < n),
            decreases chars@.len() - n,
        {
            let ghost step = self.shadowed();
            if chars[n] == '/' {
                let part = string_of(&chars, 0, n);
                assert(part@ =~= path@.take(n as int));
                if self.whiteouts.contains(part.as_str()) {
                    self.shadows.insert(part, ());
                    assert(self.shadowed() =~= step.insert(path@.take(n as int)));
                }
            }
            proof {
                let part = path@.take(n as int);
                assert forall|q: Seq<char>| #[trigger] self.shadowed().contains(q) <==> was.contains(q) || hidden.contains(
                    q,
                ) && at_or_above(q, path@) && (q == path@ || q == root() && path@.len() > 0 && path@[0] == '/' || q.len()
                    < n + 1) by {
                    if q == part {
                        assert(q.len() == n);
                    } else if q.len() == n && at_or_above(q, path@) {
                        assert(q == path@ || q == root());
                    }
                    assert(step.contains(q) == (was.contains(q) || hidden.contains(q) && at_or_above(q, path@) && (q
                        == path@ || q == root() && path@.len() > 0 && path@[0] == '/' || q.len() < n)));
                }
            }
            n = n + 1;
        }
        assert(self.shadowed() =~= was.union(buried(hidden, path@)));
    }

    /// Also clears the ancestors: writing a file implies reviving its parents.
    fn clear_whiteouts_recursive(&mut self, path: &str)
        requires
            old(self).whiteouts.wf(),
        ensures
            final(self).whiteouts.wf(),
            final(self).hidden() == revealed(old(self).hidden(), path@),
            final(self).lower_layer() == old(self).lower_layer(),
            final(self).upper_layer() == old(self).upper_layer(),
            final(self).shadows == old(self).shadows,
    {
        let ghost was = self.hidden();
        self.whiteouts.remove(path);
        let chars = chars_of(path);
        proof {
            reveal_strlit("/");
            assert("/"@ =~= root());
        }
        if chars.len() > 0 && chars[0] == '/' {
            self.whiteouts.remove("/");
        }
        let mut n: usize = 1;
        while n < chars.len()
            invariant
                n >= 1,
                chars@ == path@,
                self.whiteouts.wf(),
                self.lower_layer() == old(self).lower_layer(),
                self.upper_layer() == old(self).upper_layer(),
                self.shadows == old(self).shadows,
                forall|q: Seq<char>| #[trigger]
                    self.hidden().contains(q) <==> was.contains(q) && !(at_or_above(q, path@) && (q == path@ || q
                        == root() && path@.len() > 0 && path@[0] == '/' || q.len() < n)),
            decreases chars@.len() - n,
        {
            let ghost step = self.hidden();
            if chars[n] == '/' {
                let part = string_of(&chars, 0, n);
                assert(part@ =~= path@.take(n as int));
                self.whiteouts.remove(part.as_str());
                assert(self.hidden() =~= step.remove(part@));
            }
            proof {
                let part = path@.take(n as int);
                assert forall|q: Seq<char>| #[trigger] self.hidden().contains(q) <==> was.contains(q) && !(at_or_above(
                    q,
                    path@,
                ) && (q == path@ || q == root() && path@.len() > 0 && path@[0] == '/' || q.len() < n + 1)) by {
                    if q == part {
                        assert(q.len() == n);
                    } else if q.len() == n && at_or_above(q, path@) {
                        assert(q == path@ || q == root());
                    }
                    assert(step.contains(q) == (was.contains(q) && !(at_or_above(q, path@) && (q == path@ || q == root()
                        && path@.len() > 0 && path@[0] == '/' || q.len() < n))));
                }
            }
            n = n + 1;
        }
        assert(self.hidden() =~= revealed(was, path@));
    }
}

// ---- Snapshots ---------------------------------------------------------------

/// The bytes as JSON numbers.
pub open spec fn byte_items(data: Seq<u8>) -> Seq<JsonView> {
    Seq::new(data.len(), |i: int| JsonView::Unsigned(data[i] as u64))
}

/// The texts as JSON texts.
pub open spec fn text_items(names: Seq<Seq<char>>) -> Seq<JsonView> {
    Seq::new(names.len(), |i: int| JsonView::Text(names[i]))
}

/// The members of a snapshot that are always there.
pub open spec fn overlay_members(upper: Seq<u8>, whiteouts: Seq<Seq<char>>) -> Map<Seq<char>, JsonView> {
    Map::<Seq<char>, JsonView>::empty().insert("upper"@, JsonView::Array(byte_items(upper))).insert(
        "whiteouts"@,
        JsonView::Array(text_items(whiteouts)),
    )
}

/// The JSON value of a snapshot: the snapshot of the upper layer, the whiteouts, and the
/// paths where the lower layer is shadowed, where there are any.
pub open spec fn overlay_json(upper: Seq<u8>, whiteouts: Seq<Seq<char>>, shadows: Seq<Seq<char>>) -> JsonView {
    JsonView::Object(
        if shadows.len() == 0 {
            overlay_members(upper, whiteouts)
        } else {
            overlay_members(upper, whiteouts).insert("shadows"@, JsonView::Array(text_items(shadows)))
        },
    )
}

/// The bytes that JSON numbers stand for, where each is one.
pub open spec fn bytes_in(items: Seq<JsonView>) -> Option<Seq<u8>>
    decreases items.len(),
{
    if items.len() == 0 {
        Some(Seq::empty())
    } else {
        match (bytes_in(items.drop_last()), items.last()) {
            (Some(before), JsonView::Unsigned(n)) => if n < 256 {
                Some(before.push(n as u8))
            } else {
                None
            },
            _ => None,
        }
    }
}

/// The texts of JSON texts, where each is one.
pub open spec fn texts_in(items: Seq<JsonView>) -> Option<Seq<Seq<char>>>
    decreases items.len(),
{
    if items.len() == 0 {
        Some(Seq::empty())
    } else {
        match (texts_in(items.drop_last()), items.last()) {
            (Some(before), JsonView::Text(t)) => Some(before.push(t)),
            _ => None,
        }
    }
}

/// The items of a value that is an array.
pub open spec fn array_items(json: Option<JsonView>) -> Option<Seq<JsonView>> {
    match json {
        Some(JsonView::Array(items)) => Some(items),
        _ => None,
    }
}

/// The snapshot of the upper layer in the JSON value of a snapshot.
pub open spec fn upper_in(json: JsonView) -> Option<Seq<u8>> {
    match array_items(member(json, "upper"@)) {
        Some(items) => bytes_in(items),
        None => None,
    }
}

/// The whiteouts in the JSON value of a snapshot.
pub open spec fn whiteouts_in(json: JsonView) -> Option<Seq<Seq<char>>> {
    match array_items(member(json, "whiteouts"@)) {
        Some(items) => texts_in(items),
        None => None,
    }
}

/// The shadowed paths in the JSON value of a snapshot. A snapshot may have none.
pub open spec fn shadows_in(json: JsonView) -> Option<Seq<Seq<char>>> {
    match member(json, "shadows"@) {
        None => Some(Seq::empty()),
        value => match array_items(value) {
            Some(items) => texts_in(items),
            None => None,
        },
    }
}

/// The texts, once each, in ascending order.
pub open spec fn is_sorted_set(names: Seq<Seq<char>>, set: Set<Seq<char>>) -> bool {
    &&& ascending(names)
    &&& forall|name: Seq<char>| #[trigger] names.contains(name) <==> set.contains(name)
}

proof fn lemma_bytes_in(data: Seq<u8>)
    ensures
        bytes_in(byte_items(data)) == Some(data),
    decreases data.len(),
{
    if data.len() > 0 {
        lemma_bytes_in(data.drop_last());
        assert(byte_items(data).drop_last() =~= byte_items(data.drop_last()));
        assert(data.drop_last().push(data.last()) =~= data);
    } else {
        assert(data =~= Seq::empty());
    }
}

proof fn lemma_texts_in(names: Seq<Seq<char>>)
    ensures
        texts_in(text_items(names)) == Some(names),
    decreases names.len(),
{
    if names.len() > 0 {
        lemma_texts_in(names.drop_last());
        assert(text_items(names).drop_last() =~= text_items(names.drop_last()));
        assert(names.drop_last().push(names.last()) =~= names);
    } else {
        assert(names =~= Seq::empty());
    }
}

/// The parts of a snapshot can be read back from its value.
pub proof fn lemma_overlay_json(upper: Seq<u8>, whiteouts: Seq<Seq<char>>, shadows: Seq<Seq<char>>)
    ensures
        upper_in(overlay_json(upper, whiteouts, shadows)) == Some(upper),
        whiteouts_in(overlay_json(upper, whiteouts, shadows)) == Some(whiteouts),
        shadows_in(overlay_json(upper, whiteouts, shadows)) == Some(shadows),
        plain(overlay_json(upper, whiteouts, shadows), parse_depth()),
{
    reveal_strlit("upper");
    reveal_strlit("whiteouts");
    reveal_strlit("shadows");
    assert("upper"@.len() == 5 && "whiteouts"@.len() == 9 && "shadows"@.len() == 7);
    lemma_bytes_in(upper);
    lemma_texts_in(whiteouts);
    lemma_texts_in(shadows);
    if shadows.len() == 0 {
        assert(shadows =~= Seq::empty());
    }
    let d = parse_depth();
    assert forall|i: int| 0 <= i < upper.len() implies plain(#[trigger] byte_items(upper)[i], (d - 2) as nat) by {}
    assert forall|i: int| 0 <= i < whiteouts.len() implies plain(
        #[trigger] text_items(whiteouts)[i],
        (d - 2) as nat,
    ) by {}
    assert forall|i: int| 0 <= i < shadows.len() implies plain(
        #[trigger] text_items(shadows)[i],
        (d - 2) as nat,
    ) by {}
    assert(plain(JsonView::Array(byte_items(upper)), (d - 1) as nat));
    assert(plain(JsonView::Array(text_items(whiteouts)), (d - 1) as nat));
    assert(plain(JsonView::Array(text_items(shadows)), (d - 1) as nat));
}

/// The bytes as a JSON array.
fn json_of_bytes(data: &Vec<u8>) -> (r: Json)
    ensures
        r@ == JsonView::Array(byte_items(data@)),
{
    let mut items: Vec<Json> = Vec::new();
    let mut i: usize = 0;
    assert(item_views(items@) =~= byte_items(data@.take(0)));
    while i < data.len()
        invariant
            i <= data@.len(),
            item_views(items@) == byte_items(data@.take(i as int)),
        decreases data@.len() - i,
    {
        let ghost was = items@;
        let item = Json::Unsigned(data[i] as u64);
        assert(json_view(item) == JsonView::Unsigned(data@[i as int] as u64));
        items.push(item);
        proof {
            assert(items@.drop_last() =~= was);
            assert(byte_items(data@.take(i + 1)) =~= byte_items(data@.take(i as int)).push(
                JsonView::Unsigned(data@[i as int] as u64),
            ));
        }
        i = i + 1;
    }
    assert(data@.take(i as int) =~= data@);
    Json::Array(items)
}

/// The texts as a JSON array.
fn json_of_texts(names: &Vec<String>) -> (r: Json)
    ensures
        r@ == JsonView::Array(text_items(texts(names@))),
{
    let mut items: Vec<Json> = Vec::new();
    let mut i: usize = 0;
    assert(item_views(items@) =~= text_items(texts(names@).take(0)));
    while i < names.len()
        invariant
            i <= names@.len(),
            item_views(items@) == text_items(texts(names@).take(i as int)),
        decreases names@.len() - i,
    {
        let ghost was = items@;
        let item = Json::Text(names[i].clone());
        assert(json_view(item) == JsonView::Text(names@[i as int]@));
        items.push(item);
        proof {
            assert(items@.drop_last() =~= was);
            assert(text_items(texts(names@).take(i + 1)) =~= text_items(texts(names@).take(i as int)).push(
                JsonView::Text(names@[i as int]@),
            ));
        }
        i = i + 1;
    }
    assert(texts(names@).take(i as int) =~= texts(names@));
    Json::Array(items)
}

/// One item too many, or one that is no byte, stays one.
proof fn lemma_bytes_in_prefix(items: Seq<JsonView>, n: int)
    requires
        0 <= n <= items.len(),
        bytes_in(items.take(n)) is None,
    ensures
        bytes_in(items) is None,
    decreases items.len() - n,
{
    if n < items.len() {
        assert(items.take(n + 1).drop_last() =~= items.take(n));
        lemma_bytes_in_prefix(items, n + 1);
    } else {
        assert(items.take(n) =~= items);
    }
}

proof fn lemma_texts_in_prefix(items: Seq<JsonView>, n: int)
    requires
        0 <= n <= items.len(),
        texts_in(items.take(n)) is None,
    ensures
        texts_in(items) is None,
    decreases items.len() - n,
{
    if n < items.len() {
        assert(items.take(n + 1).drop_last() =~= items.take(n));
        lemma_texts_in_prefix(items, n + 1);
    } else {
        assert(items.take(n) =~= items);
    }
}

/// The bytes that a JSON array of numbers stands for.
fn bytes_of_json(json: Option<&Json>) -> (r: Option<Vec<u8>>)
    ensures
        match r {
            Some(data) => json is Some && array_items(Some(json->0@)) is Some && bytes_in(
                array_items(Some(json->0@))->0,
            ) == Some(data@),
            None => json is None || array_items(Some(json->0@)) is None || bytes_in(
                array_items(Some(json->0@))->0,
            ) is None,
        },
{
    match json {
        Some(Json::Array(items)) => {
            let ghost all = item_views(items@);
            let mut data: Vec<u8> = Vec::new();
            let mut i: usize = 0;
            proof {
                lemma_item_views(items@);
                assert(all.take(0) =~= Seq::<JsonView>::empty());
            }
            while i < items.len()
                invariant
                    i <= items@.len(),
                    all == item_views(items@),
                    all.len() == items@.len(),
                    json == Some(&Json::Array(*items)),
                    forall|j: int| 0 <= j < items@.len() ==> #[trigger] all[j] == json_view(items@[j]),
                    bytes_in(all.take(i as int)) == Some(data@),
                decreases items@.len() - i,
            {
                assert(all.take(i + 1).drop_last() =~= all.take(i as int));
                assert(all[i as int] == json_view(items@[i as int]));
                match &items[i] {
                    Json::Unsigned(n) => {
                        if *n < 256 {
                            data.push(*n as u8);
                        } else {
                            proof {
                                lemma_bytes_in_prefix(all, i + 1);
                            }
                            return None;
                        }
                    },
                    _ => {
                        proof {
                            lemma_bytes_in_prefix(all, i + 1);
                        }
                        return None;
                    },
                }
                i = i + 1;
            }
            assert(all.take(i as int) =~= all);
            Some(data)
        },
        _ => None,
    }
}

/// The texts of a JSON array of texts.
fn texts_of_json(json: Option<&Json>) -> (r: Option<Vec<String>>)
    ensures
        match r {
            Some(names) => json is Some && array_items(Some(json->0@)) is Some && texts_in(
                array_items(Some(json->0@))->0,
            ) == Some(texts(names@)),
            None => json is None || array_items(Some(json->0@)) is None || texts_in(
                array_items(Some(json->0@))->0,
            ) is None,
        },
{
    match json {
        Some(Json::Array(items)) => {
            let ghost all = item_views(items@);
            let mut names: Vec<String> = Vec::new();
            let mut i: usize = 0;
            proof {
                lemma_item_views(items@);
                assert(all.take(0) =~= Seq::<JsonView>::empty());
                assert(texts(names@) =~= Seq::<Seq<char>>::empty());
            }
            while i < items.len()
                invariant
                    i <= items@.len(),
                    all == item_views(items@),
                    all.len() == items@.len(),
                    json == Some(&Json::Array(*items)),
                    forall|j: int| 0 <= j < items@.len() ==> #[trigger] all[j] == json_view(items@[j]),
                    texts_in(all.take(i as int)) == Some(texts(names@)),
                decreases items@.len() - i,
            {
                assert(all.take(i + 1).drop_last() =~= all.take(i as int));
                assert(all[i as int] == json_view(items@[i as int]));
                match &items[i] {
                    Json::Text(t) => {
                        let ghost was = texts(names@);
                        names.push(t.clone());
                        assert(texts(names@) =~= was.push(t@));
                    },
                    _ => {
                        proof {
                            lemma_texts_in_prefix(all, i + 1);
                        }
                        return None;
                    },
                }
                i = i + 1;
            }
            assert(all.take(i as int) =~= all);
            Some(names)
        },
        _ => None,
    }
}

/// The set of the texts.
fn set_of(names: &Vec<String>) -> (r: TextMap<()>)
    ensures
        r.wf(),
        forall|name: Seq<char>| #[trigger] r.map().contains_key(name) <==> texts(names@).contains(name),
{
    let mut all: TextMap<()> = TextMap::new();
    let mut i: usize = 0;
    while i < names.len()
        invariant
            i <= names@.len(),
            all.wf(),
            forall|name: Seq<char>| #[trigger]
                all.map().contains_key(name) <==> texts(names@).take(i as int).contains(name),
        decreases names@.len() - i,
    {
        all.insert(names[i].clone(), ());
        proof {
            lemma_contains_next(texts(names@), i as int);
        }
        i = i + 1;
    }
    assert(texts(names@).take(i as int) =~= texts(names@));
    all
}

/// The members of a snapshot. The last one may be missing.
pub open spec fn overlay_names() -> Seq<Seq<char>> {
    seq!["upper"@, "whiteouts"@, "shadows"@]
}

/// What is wrong with the members of a snapshot.
pub open spec fn overlay_fault(json: JsonView) -> Option<Seq<char>> {
    first(
        object_fault(json),
        first(
            list_fault::<u8>(json, "upper"@),
            first(list_fault::<String>(json, "whiteouts"@), default_list_fault::<String>(json, "shadows"@)),
        ),
    )
}

/// Finds what is wrong with the members of a snapshot.
fn find_overlay_fault(json: &Json) -> (r: Option<String>)
    ensures
        opt_text(r) == overlay_fault(json@),
{
    let fault = find_object_fault(json);
    if fault.is_some() {
        return fault;
    }
    let fault = find_list_fault::<u8>(json, "upper");
    if fault.is_some() {
        return fault;
    }
    let fault = find_list_fault::<String>(json, "whiteouts");
    if fault.is_some() {
        return fault;
    }
    find_default_list_fault::<String>(json, "shadows")
}

// ---- The filesystem ----------------------------------------------------------

/// `out` is the text of the JSON value `json` of a snapshot, with the whiteouts and the
/// shadowed paths in ascending order.
pub open spec fn is_snapshot(
    upper: Seq<u8>,
    hidden: Set<Seq<char>>,
    shadowed: Set<Seq<char>>,
    json: Json,
    names: Seq<Seq<char>>,
    shadows: Seq<Seq<char>>,
    out: Seq<u8>,
) -> bool {
    &&& is_sorted_set(names, hidden)
    &&& is_sorted_set(shadows, shadowed)
    &&& json@ == overlay_json(upper, names, shadows)
    &&& out == encode_utf8(printed(json@))
}

/// `out` is the text of a JSON value of a snapshot.
pub open spec fn is_some_snapshot(
    upper: Seq<u8>,
    hidden: Set<Seq<char>>,
    shadowed: Set<Seq<char>>,
    out: Seq<u8>,
) -> bool {
    exists|json: Json, names: Seq<Seq<char>>, shadows: Seq<Seq<char>>| #[trigger]
        is_snapshot(upper, hidden, shadowed, json, names, shadows, out)
}

/// The snapshot of the overlay, from that of the upper layer.
pub open spec fn saved_with(
    upper: Result<Seq<u8>, VfsErrorView>,
    hidden: Set<Seq<char>>,
    shadowed: Set<Seq<char>>,
    out: Result<Seq<u8>, VfsErrorView>,
) -> bool {
    match upper {
        Err(e) => out == Err::<Seq<u8>, VfsErrorView>(e),
        Ok(data) => out is Ok && is_some_snapshot(data, hidden, shadowed, out->Ok_0),
    }
}

/// What a look into the upper layer, and where it says that nothing is there a look
/// into the lower one, may give.
pub open spec fn falls_through<T>(
    upper: Result<T, VfsErrorView>,
    lower: spec_fn(Result<T, VfsErrorView>) -> bool,
    out: Result<T, VfsErrorView>,
) -> bool {
    if upper is Err && upper->Err_0 is NotFound {
        lower(out)
    } else {
        out == upper
    }
}

/// The names of a directory, from what each layer lists there (nothing, where the
/// layer does not have it): those of the lower layer that are not hidden, and those of
/// the upper one, once each, in ascending order.
pub open spec fn is_merged(
    hidden: Set<Seq<char>>,
    shadowed: Set<Seq<char>>,
    p: Seq<char>,
    lower: Option<Result<Seq<Seq<char>>, VfsErrorView>>,
    upper: Option<Result<Seq<Seq<char>>, VfsErrorView>>,
    names: Seq<Seq<char>>,
) -> bool {
    &&& ascending(names)
    &&& forall|name: Seq<char>| #[trigger]
        names.contains(name) <==> {
            ||| listed(lower, name) && !hides(hidden, child(p, name)) && !hides(shadowed, child(p, name))
            ||| listed(upper, name)
        }
}

/// A listing that succeeded has the name.
pub open spec fn listed(names: Option<Result<Seq<Seq<char>>, VfsErrorView>>, name: Seq<char>) -> bool {
    names is Some && names->0 is Ok && names->0->Ok_0.contains(name)
}

/// A layer is asked for a listing exactly where it has the path.
pub open spec fn asked<F: VirtualFs>(
    fs: F,
    p: Seq<char>,
    present: bool,
    names: Option<Result<Seq<Seq<char>>, VfsErrorView>>,
) -> bool {
    match names {
        Some(out) => present && fs.lists(p, out),
        None => !present,
    }
}

impl<L: VirtualFs, U: VirtualFs> OverlayFs<L, U> {
    /// Nothing changed but perhaps the upper layer and the whiteouts.
    pub open spec fn same_lower(&self, after: Self) -> bool {
        after.lower_layer() == self.lower_layer()
    }

    /// Nothing changed.
    pub open spec fn unchanged(&self, after: Self) -> bool {
        &&& after.lower_layer() == self.lower_layer()
        &&& after.upper_layer() == self.upper_layer()
        &&& after.hidden() == self.hidden()
        &&& after.shadowed() == self.shadowed()
    }
}

impl<L: VirtualFs, U: VirtualFs> VirtualFs for OverlayFs<L, U> {
    closed spec fn wf(&self) -> bool {
        &&& self.lower.wf()
        &&& self.upper.wf()
        &&& self.whiteouts.wf()
        &&& self.shadows.wf()
    }

    open spec fn reads(&self, path: Seq<char>, out: Result<Seq<u8>, VfsErrorView>) -> bool {
        let p = normalized(path);
        if hides(self.hidden(), p) {
            out == Err::<Seq<u8>, VfsErrorView>(VfsErrorView::NotFound(p))
        } else {
            exists|u: Result<Seq<u8>, VfsErrorView>| #[trigger]
                self.upper_layer().reads(p, u) && falls_through(
                    u,
                    |o: Result<Seq<u8>, VfsErrorView>| self.lower_reads(p, o),
                    out,
                )
        }
    }

    open spec fn writes(
        &self,
        path: Seq<char>,
        data: Seq<u8>,
        after: Self,
        out: Result<(), VfsErrorView>,
    ) -> bool {
        let p = normalized(path);
        &&& self.same_lower(after)
        &&& self.shows_again(p, after)
        &&& self.upper_layer().writes(p, data, after.upper_layer(), out)
    }

    open spec fn has(&self, path: Seq<char>, out: bool) -> bool {
        let p = normalized(path);
        if hides(self.hidden(), p) {
            !out
        } else {
            exists|u: bool| #[trigger]
                self.upper_layer().has(p, u) && if u {
                    out
                } else {
                    self.lower_has(p, out)
                }
        }
    }

    open spec fn lists(&self, path: Seq<char>, out: Result<Seq<Seq<char>>, VfsErrorView>) -> bool {
        let p = normalized(path);
        if hides(self.hidden(), p) {
            out == Err::<Seq<Seq<char>>, VfsErrorView>(VfsErrorView::NotFound(p))
        } else {
            exists|u: bool, l: bool|
                #![trigger self.upper_layer().has(p, u), self.lower_has(p, l)]
                {
                    &&& self.upper_layer().has(p, u)
                    &&& self.lower_has(p, l)
                    &&& if !u && !l {
                        out == Err::<Seq<Seq<char>>, VfsErrorView>(VfsErrorView::NotFound(p))
                    } else {
                        exists|
                            us: Option<Result<Seq<Seq<char>>, VfsErrorView>>,
                            ls: Option<Result<Seq<Seq<char>>, VfsErrorView>>,
                        |
                            #![trigger asked(self.upper_layer(), p, u, us), asked(self.lower_layer(), p, l, ls)]
                            {
                                &&& asked(self.upper_layer(), p, u, us)
                                &&& asked(self.lower_layer(), p, l, ls)
                                &&& out is Ok
                                &&& is_merged(self.hidden(), self.shadowed(), p, ls, us, out->Ok_0)
                            }
                    }
                }
        }
    }

    open spec fn makes_dir(&self, path: Seq<char>, after: Self, out: Result<(), VfsErrorView>) -> bool {
        let p = normalized(path);
        &&& self.same_lower(after)
        &&& self.shows_again(p, after)
        &&& self.upper_layer().makes_dir(p, after.upper_layer(), out)
    }

    open spec fn removes(&self, path: Seq<char>, after: Self, out: Result<(), VfsErrorView>) -> bool {
        let p = normalized(path);
        exists|present: bool| #[trigger]
            self.has(p, present) && if present {
                &&& self.same_lower(after)
                &&& after.hidden() == self.hidden().insert(p)
                &&& after.shadowed() == self.shadowed()
                &&& exists|u: Result<(), VfsErrorView>| #[trigger]
                    self.upper_layer().removes(p, after.upper_layer(), u)
                &&& out is Ok
            } else {
                &&& self.unchanged(after)
                &&& out == Err::<(), VfsErrorView>(VfsErrorView::NotFound(p))
            }
    }

    open spec fn describes(&self, path: Seq<char>, out: Result<FsMetadata, VfsErrorView>) -> bool {
        let p = normalized(path);
        if hides(self.hidden(), p) {
            out == Err::<FsMetadata, VfsErrorView>(VfsErrorView::NotFound(p))
        } else {
            exists|u: Result<FsMetadata, VfsErrorView>| #[trigger]
                self.upper_layer().describes(p, u) && falls_through(
                    u,
                    |o: Result<FsMetadata, VfsErrorView>| self.lower_describes(p, o),
                    out,
                )
        }
    }

    open spec fn saves(&self, out: Result<Seq<u8>, VfsErrorView>) -> bool {
        exists|u: Result<Seq<u8>, VfsErrorView>| #[trigger]
            self.upper_layer().saves(u) && saved_with(u, self.hidden(), self.shadowed(), out)
    }

    open spec fn restores(&self, data: Seq<u8>, after: Self, out: Result<(), VfsErrorView>) -> bool {
        &&& match parsed_bytes(data) {
            Err(e) => self.unchanged(after) && out == Err::<(), VfsErrorView>(VfsErrorView::Io(e)),
            Ok(parsed) => {
                let json = record_of(parsed, overlay_names(), 2);
                if upper_in(json) is None || whiteouts_in(json) is None || shadows_in(json) is None {
                    self.unchanged(after) && out == Err::<(), VfsErrorView>(
                        VfsErrorView::Io(said(overlay_fault(json))),
                    )
                } else {
                    &&& self.same_lower(after)
                    &&& self.upper_layer().restores(upper_in(json)->0, after.upper_layer(), out)
                    &&& after.hidden() == if out is Ok {
                        whiteouts_in(json)->0.to_set()
                    } else {
                        self.hidden()
                    }
                    &&& after.shadowed() == if out is Ok {
                        shadows_in(json)->0.to_set()
                    } else {
                        self.shadowed()
                    }
                }
            },
        }
        &&& forall|json: Json|
            plain(json@, parse_depth()) && data == encode_utf8(#[trigger] printed(json@)) ==> parsed_bytes(data)
                == Ok::<JsonView, Seq<char>>(json@)
    }

    fn read(&self, path: &str) -> (r: Result<Vec<u8>, VfsError>) {
        let path = normalize(path);
        if self.is_whited_out(path.as_str()) {
            return Err(VfsError::NotFound(path));
        }
        let upper = self.upper.read(path.as_str());
        assert(self.upper_layer().reads(path@, bytes_out(upper)));
        match upper {
            Ok(data) => Ok(data),
            Err(e) => if e.is_not_found() {
                if hidden_by(&self.shadows, path.as_str()) {
                    Err(VfsError::NotFound(path))
                } else {
                    self.lower.read(path.as_str())
                }
            } else {
                Err(e)
            },
        }
    }

    fn write(&mut self, path: &str, data: &[u8]) -> (r: Result<(), VfsError>) {
        let path = normalize(path);
        self.shadow_whiteouts(path.as_str());
        self.clear_whiteouts_recursive(path.as_str());
        self.upper.write(path.as_str(), data)
    }

    fn entry_exists(&self, path: &str) -> (r: bool) {
        let path = normalize(path);
        if self.is_whited_out(path.as_str()) {
            return false;
        }
        let upper = self.upper.entry_exists(path.as_str());
        assert(self.upper_layer().has(path@, upper));
        upper || self.exists_in_lower(path.as_str())
    }

    fn list_dir(&self, path: &str) -> (r: Result<Vec<String>, VfsError>) {
        let path = normalize(path);
        let ghost p = path@;
        if self.is_whited_out(path.as_str()) {
            return Err(VfsError::NotFound(path));
        }
        let upper_exists = self.upper.entry_exists(path.as_str());
        let lower_exists = self.exists_in_lower(path.as_str());
        assert(self.upper_layer().has(p, upper_exists) && self.lower_has(p, lower_exists));
        if !upper_exists && !lower_exists {
            return Err(VfsError::NotFound(path));
        }
        let mut names: TextMap<()> = TextMap::new();
        let ghost mut lower_names: Option<Result<Seq<Seq<char>>, VfsErrorView>> = None;
        let ghost mut upper_names: Option<Result<Seq<Seq<char>>, VfsErrorView>> = None;
        proof {
            reveal_strlit("/");
            assert("/"@ =~= root());
        }
        let prefix = if *path.as_str() == *"/" {
            copy("/")
        } else {
            concat(path.as_str(), "/")
        };
        assert(forall|name: Seq<char>| #[trigger] child(p, name) =~= prefix@ + name);
        if lower_exists {
            let entries = self.lower.list_dir(path.as_str());
            proof {
                lower_names = Some(names_out(entries));
            }
            if let Ok(entries) = entries {
                let mut i: usize = 0;
                while i < entries.len()
                    invariant
                        i <= entries@.len(),
                        self.whiteouts.wf(),
                        self.shadows.wf(),
                        names.wf(),
                        forall|name: Seq<char>| #[trigger] child(p, name) == prefix@ + name,
                        forall|name: Seq<char>| #[trigger]
                            names.map().contains_key(name) <==> texts(entries@).take(i as int).contains(name)
                                && !self.covers_lower(child(p, name)),
                    decreases entries@.len() - i,
                {
                    let ghost had = names.map();
                    let full = concat(prefix.as_str(), entries[i].as_str());
                    if !self.is_whited_out(full.as_str()) && !hidden_by(&self.shadows, full.as_str()) {
                        names.insert(entries[i].clone(), ());
                    }
                    proof {
                        lemma_contains_next(texts(entries@), i as int);
                        assert(full@ == child(p, entries@[i as int]@));
                    }
                    i = i + 1;
                }
                assert(texts(entries@).take(i as int) =~= texts(entries@));
            }
        }
        let ghost from_lower = names.map();
        if upper_exists {
            let entries = self.upper.list_dir(path.as_str());
            proof {
                upper_names = Some(names_out(entries));
            }
            if let Ok(entries) = entries {
                let mut i: usize = 0;
                while i < entries.len()
                    invariant
                        i <= entries@.len(),
                        names.wf(),
                        forall|name: Seq<char>| #[trigger]
                            names.map().contains_key(name) <==> from_lower.contains_key(name) || texts(entries@).take(
                                i as int,
                            ).contains(name),
                    decreases entries@.len() - i,
                {
                    names.insert(entries[i].clone(), ());
                    proof {
                        lemma_contains_next(texts(entries@), i as int);
                    }
                    i = i + 1;
                }
                assert(texts(entries@).take(i as int) =~= texts(entries@));
            }
        }
        let out = names.all_keys();
        proof {
            names.lemma_positions();
            assert(asked(self.upper_layer(), p, upper_exists, upper_names));
            assert(asked(self.lower_layer(), p, lower_exists, lower_names));
            assert forall|name: Seq<char>| #[trigger] texts(out@).contains(name) <==> {
                ||| listed(lower_names, name) && !self.covers_lower(child(p, name))
                ||| listed(upper_names, name)
            } by {
                assert(names.keys().contains(name) <==> names.map().contains_key(name));
            }
            assert(is_merged(self.hidden(), self.shadowed(), p, lower_names, upper_names, texts(out@)));
        }
        Ok(out)
    }

    fn mkdir(&mut self, path: &str) -> (r: Result<(), VfsError>) {
        let path = normalize(path);
        self.shadow_whiteouts(path.as_str());
        self.clear_whiteouts_recursive(path.as_str());
        self.upper.mkdir(path.as_str())
    }

    fn remove(&mut self, path: &str) -> (r: Result<(), VfsError>) {
        let ghost raw = path@;
        let path = normalize(path);
        let present = self.entry_exists(path.as_str());
        assert(old(self).has(path@, present));
        if !present {
            return Err(VfsError::NotFound(path));
        }
        let removed = self.upper.remove(path.as_str());
        self.whiteouts.insert(path, ());
        assert(old(self).upper_layer().removes(normalized(raw), self.upper_layer(), unit_out(removed)));
        assert(self.hidden() =~= old(self).hidden().insert(normalized(raw)));
        Ok(())
    }

    fn metadata(&self, path: &str) -> (r: Result<FsMetadata, VfsError>) {
        let path = normalize(path);
        if self.is_whited_out(path.as_str()) {
            return Err(VfsError::NotFound(path));
        }
        let upper = self.upper.metadata(path.as_str());
        assert(self.upper_layer().describes(path@, metadata_out(upper)));
        match upper {
            Ok(m) => Ok(m),
            Err(e) => if e.is_not_found() {
                if hidden_by(&self.shadows, path.as_str()) {
                    Err(VfsError::NotFound(path))
                } else {
                    self.lower.metadata(path.as_str())
                }
            } else {
                Err(e)
            },
        }
    }

    fn snapshot(&self) -> (r: Result<VfsSnapshot, VfsError>) {
        let saved = self.upper.snapshot();
        let ghost from_upper = snapshot_out(saved);
        assert(self.upper_layer().saves(from_upper));
        let upper = match saved {
            Ok(s) => s,
            Err(e) => {
                return Err(e);
            },
        };
        let names = self.whiteouts.all_keys();
        let shadows = self.shadows.all_keys();
        let mut members: Vec<(String, Json)> = Vec::new();
        put(&mut members, "upper", json_of_bytes(&upper.data));
        put(&mut members, "whiteouts", json_of_texts(&names));
        if shadows.len() > 0 {
            put(&mut members, "shadows", json_of_texts(&shadows));
        }
        let json = Json::Object(members);
        let text = print_json(&json);
        proof {
            self.whiteouts.lemma_positions();
            assert forall|name: Seq<char>| #[trigger] texts(names@).contains(name) <==> self.hidden().contains(name) by {}
            assert(is_sorted_set(texts(names@), self.hidden()));
            self.shadows.lemma_positions();
            assert forall|name: Seq<char>| #[trigger] texts(shadows@).contains(name) <==> self.shadowed().contains(name) by {}
            assert(is_sorted_set(texts(shadows@), self.shadowed()));
            assert(json@ == overlay_json(upper.data@, texts(names@), texts(shadows@)));
        }
        let data = slice_to_vec(text.as_str().as_bytes());
        proof {
            assert(is_snapshot(
                upper.data@,
                self.hidden(),
                self.shadowed(),
                json,
                texts(names@),
                texts(shadows@),
                data@,
            ));
            assert(from_upper == Ok::<Seq<u8>, VfsErrorView>(upper.data@));
            assert(is_some_snapshot(upper.data@, self.hidden(), self.shadowed(), data@));
        }
        Ok(VfsSnapshot { data })
    }

    fn restore(&mut self, snapshot: &VfsSnapshot) -> (r: Result<(), VfsError>) {
        let parsed = match parse_json_bytes(snapshot.data.as_slice()) {
            Ok(json) => json,
            Err(e) => {
                return Err(VfsError::Io(e));
            },
        };
        let names: Vec<String> = vec![copy("upper"), copy("whiteouts"), copy("shadows")];
        assert(texts(names@) =~= overlay_names());
        let json = match as_record(&parsed, &names, 2) {
            Some(record) => record,
            None => parsed,
        };
        let upper = bytes_of_json(json.get("upper"));
        let names = texts_of_json(json.get("whiteouts"));
        let shadows = match json.get("shadows") {
            None => Some(Vec::new()),
            value => texts_of_json(value),
        };
        assert(texts(Seq::<String>::empty()) =~= Seq::<Seq<char>>::empty());
        match (upper, names, shadows) {
            (Some(data), Some(names), Some(shadows)) => {
                let upper_snapshot = VfsSnapshot { data };
                match self.upper.restore(&upper_snapshot) {
                    Ok(()) => {
                        self.whiteouts = set_of(&names);
                        self.shadows = set_of(&shadows);
                        assert(self.hidden() =~= texts(names@).to_set());
                        assert(self.shadowed() =~= texts(shadows@).to_set());
                        Ok(())
                    },
                    Err(e) => Err(e),
                }
            },
            _ => Err(VfsError::Io(tell(find_overlay_fault(&json)))),
        }
    }
}

/// The first `i + 1` texts are the first `i` and the next one.
pub proof fn lemma_contains_next(s: Seq<Seq<char>>, i: int)
    requires
        0 <= i < s.len(),
    ensures
        forall|x: Seq<char>| #[trigger] s.take(i + 1).contains(x) <==> s.take(i).contains(x) || x == s[i],
{
    let less = s.take(i);
    let more = s.take(i + 1);
    assert(more =~= less.push(s[i]));
    assert forall|x: Seq<char>| #[trigger] more.contains(x) <==> less.contains(x) || x == s[i] by {
        if less.contains(x) {
            let j = choose|j: int| 0 <= j < less.len() && less[j] == x;
            assert(more[j] == x);
        }
        if x == s[i] {
            assert(more[i] == x);
        }
        if more.contains(x) && x != s[i] {
            let j = choose|j: int| 0 <= j < more.len() && more[j] == x;
            assert(less[j] == x);
        }
    }
}

} // verus!
