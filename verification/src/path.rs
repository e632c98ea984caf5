//! Slash-separated paths.
use crate::text::{chars_of, copy, join, join_with, lemma_split_join, lemma_split_pieces, split, split_at_char, starts_with, string_of, texts};
use vstd::prelude::*;
use vstd::string::*;

verus! {

broadcast use vstd::seq_lib::group_seq_properties;

/// The segment `.`.
pub open spec fn dot() -> Seq<char> {
    seq!['.']
}

/// The segment `..`.
pub open spec fn dot_dot() -> Seq<char> {
    seq!['.', '.']
}

/// A segment that names an entry: not empty, not `.`, not `..`, and without a
/// slash.
pub open spec fn is_name(segment: Seq<char>) -> bool {
    &&& segment.len() > 0
    &&& segment != dot()
    &&& segment != dot_dot()
    &&& !segment.contains('/')
}

/// Only names.
pub open spec fn all_names(segments: Seq<Seq<char>>) -> bool {
    forall|i: int| 0 <= i < segments.len() ==> is_name(#[trigger] segments[i])
}

/// Walks `segments` from `start`: an empty segment and `.` stay where they are,
/// `..` goes up one level (and stays where there is none), a name goes down.
pub open spec fn walk(start: Seq<Seq<char>>, segments: Seq<Seq<char>>) -> Seq<Seq<char>>
    decreases segments.len(),
{
    if segments.len() == 0 {
        start
    } else {
        let at = walk(start, segments.drop_last());
        let segment = segments.last();
        if segment.len() == 0 || segment == dot() {
            at
        } else if segment == dot_dot() {
            if at.len() > 0 {
                at.drop_last()
            } else {
                at
            }
        } else {
            at.push(segment)
        }
    }
}

/// The names that lead from the root to `path`.
pub open spec fn components(path: Seq<char>) -> Seq<Seq<char>> {
    walk(Seq::empty(), split_at_char(path, '/'))
}

/// The absolute path of the names `names`.
pub open spec fn rooted(names: Seq<Seq<char>>) -> Seq<char> {
    seq!['/'] + join_with(names, '/')
}

/// The canonical absolute form of `path`.
pub open spec fn normalized(path: Seq<char>) -> Seq<char> {
    rooted(components(path))
}

/// `path` is `prefix` itself, or goes on with a slash after it.
pub open spec fn under(path: Seq<char>, prefix: Seq<char>) -> bool {
    path == prefix || prefix.push('/').is_prefix_of(path)
}

/// `s` without the slashes at its end.
pub open spec fn trim_slashes(s: Seq<char>) -> Seq<char>
    decreases s.len(),
{
    if s.len() > 0 && s.last() == '/' {
        trim_slashes(s.drop_last())
    } else {
        s
    }
}

/// `s` without the slashes at its start.
pub open spec fn trim_leading(s: Seq<char>) -> Seq<char>
    decreases s.len(),
{
    if s.len() > 0 && s[0] == '/' {
        trim_leading(s.skip(1))
    } else {
        s
    }
}

/// `s` without the slashes at its start.
pub fn without_leading_slashes(s: &str) -> (r: String)
    ensures
        r@ == trim_leading(s@),
{
    let chars = chars_of(s);
    let mut n: usize = 0;
    assert(s@.skip(0) =~= s@);
    while n < chars.len() && chars[n] == '/'
        invariant
            n <= chars@.len(),
            chars@ == s@,
            trim_leading(s@) == trim_leading(s@.skip(n as int)),
        decreases chars@.len() - n,
    {
        assert(s@.skip(n as int).skip(1) =~= s@.skip(n + 1));
        n = n + 1;
    }
    let r = string_of(&chars, n, chars.len());
    assert(r@ =~= s@.skip(n as int));
    r
}

fn walk_from(start: Vec<String>, segments: &Vec<String>) -> (r: Vec<String>)
    ensures
        texts(r@) == walk(texts(start@), texts(segments@)),
{
    let ghost from = texts(start@);
    let mut at: Vec<String> = start;
    let mut i: usize = 0;
    assert(texts(segments@).take(0) =~= Seq::<Seq<char>>::empty());
    while i < segments.len()
        invariant
            i <= segments@.len(),
            texts(at@) == walk(from, texts(segments@).take(i as int)),
        decreases segments@.len() - i,
    {
        let segment: &str = segments[i].as_str();
        let ghost was = texts(at@);
        proof {
            reveal_strlit(".");
            reveal_strlit("..");
            assert(texts(segments@).take(i + 1).drop_last() =~= texts(segments@).take(i as int));
            assert("."@ =~= dot());
            assert(".."@ =~= dot_dot());
        }
        if segment.is_empty() || *segment == *"." {
        } else if *segment == *".." {
            at.pop();
            assert(texts(at@) =~= if was.len() > 0 { was.drop_last() } else { was });
        } else {
            at.push(copy(segment));
            assert(texts(at@) =~= was.push(segment@));
        }
        i = i + 1;
    }
    assert(texts(segments@).take(i as int) =~= texts(segments@));
    at
}

/// The canonical absolute form of `path`: no empty segment, no `.`, no `..`,
/// nothing above the root.
pub fn normalize(path: &str) -> (r: String)
    ensures
        r@ == normalized(path@),
{
    let names = walk_from(Vec::new(), &split(path, '/'));
    assert(texts(Seq::<String>::empty()) =~= Seq::empty());
    let joined = join(&names, '/');
    proof {
        reveal_strlit("/");
        assert("/"@ =~= seq!['/']);
    }
    crate::text::concat("/", joined.as_str())
}

/// Resolves `relative` against the directory `base_dir`. The base is taken as it
/// is; only the segments of `relative` are walked.
pub fn resolve_relative(base_dir: &str, relative: &str) -> (r: String)
    ensures
        r@ == join_with(
            walk(
                if base_dir@.len() == 0 {
                    Seq::empty()
                } else {
                    split_at_char(base_dir@, '/')
                },
                split_at_char(relative@, '/'),
            ),
            '/',
        ),
{
    let start: Vec<String> = if base_dir.is_empty() {
        Vec::new()
    } else {
        split(base_dir, '/')
    };
    assert(texts(Seq::<String>::empty()) =~= Seq::empty());
    let at = walk_from(start, &split(relative, '/'));
    join(&at, '/')
}

/// Whether `path` is `prefix` or lies under it, by whole segments.
pub fn is_under(path: &str, prefix: &str) -> (r: bool)
    ensures
        r == under(path@, prefix@),
{
    if *path == *prefix {
        return true;
    }
    let mut with_slash = copy(prefix);
    with_slash.push('/');
    starts_with(path, with_slash.as_str())
}

/// The text without the slashes at its end.
pub fn without_trailing_slashes(s: &str) -> (r: String)
    ensures
        r@ == trim_slashes(s@),
{
    let chars = chars_of(s);
    let mut n: usize = chars.len();
    assert(s@.take(n as int) =~= s@);
    while n > 0 && chars[n - 1] == '/'
        invariant
            n <= chars@.len(),
            chars@ == s@,
            trim_slashes(s@.take(n as int)) == trim_slashes(s@),
        decreases n,
    {
        assert(s@.take(n as int).drop_last() =~= s@.take(n - 1));
        n = n - 1;
    }
    string_of(&chars, 0, n)
}

/// Walking from names over pieces without slashes leads to names.
pub proof fn lemma_walk_names(start: Seq<Seq<char>>, segments: Seq<Seq<char>>)
    requires
        all_names(start),
        forall|i: int| 0 <= i < segments.len() ==> !(#[trigger] segments[i]).contains('/'),
    ensures
        all_names(walk(start, segments)),
    decreases segments.len(),
{
    if segments.len() > 0 {
        let init = segments.drop_last();
        assert forall|i: int| 0 <= i < init.len() implies !(#[trigger] init[i]).contains('/') by {
            assert(init[i] == segments[i]);
        }
        lemma_walk_names(start, init);
        assert(!segments.last().contains('/'));
    }
}

/// Walking over names appends them.
pub proof fn lemma_walk_over_names(start: Seq<Seq<char>>, names: Seq<Seq<char>>)
    requires
        all_names(names),
    ensures
        walk(start, names) == start + names,
    decreases names.len(),
{
    if names.len() == 0 {
        assert(start + names =~= start);
    } else {
        let init = names.drop_last();
        assert forall|i: int| 0 <= i < init.len() implies is_name(#[trigger] init[i]) by {
            assert(init[i] == names[i]);
        }
        lemma_walk_over_names(start, init);
        assert(is_name(names.last()));
        assert((start + init).push(names.last()) =~= start + names);
    }
}

/// An empty segment in front changes nothing.
proof fn lemma_walk_empty_first(segments: Seq<Seq<char>>)
    ensures
        walk(Seq::empty(), seq![Seq::<char>::empty()] + segments) == walk(Seq::empty(), segments),
    decreases segments.len(),
{
    let e = seq![Seq::<char>::empty()];
    if segments.len() == 0 {
        assert(e + segments =~= e);
        assert(e.drop_last() =~= Seq::<Seq<char>>::empty());
        reveal_with_fuel(walk, 2);
    } else {
        assert((e + segments).drop_last() =~= e + segments.drop_last());
        assert((e + segments).last() == segments.last());
        lemma_walk_empty_first(segments.drop_last());
    }
}

/// Walking over one list and then another is walking over both.
proof fn lemma_walk_append(start: Seq<Seq<char>>, a: Seq<Seq<char>>, b: Seq<Seq<char>>)
    ensures
        walk(start, a + b) == walk(walk(start, a), b),
    decreases b.len(),
{
    if b.len() == 0 {
        assert(a + b =~= a);
    } else {
        assert((a + b).drop_last() =~= a + b.drop_last());
        assert((a + b).last() == b.last());
        lemma_walk_append(start, a, b.drop_last());
    }
}

/// The pieces of an absolute path behind `/..`.
proof fn lemma_split_behind_up(path: Seq<char>)
    requires
        path.len() > 0,
        path[0] == '/',
    ensures
        split_at_char(path, '/').len() > 0,
        split_at_char(path, '/') == seq![Seq::<char>::empty()] + split_at_char(path, '/').skip(1),
        split_at_char("/.."@ + path, '/') == seq![Seq::<char>::empty(), dot_dot()] + split_at_char(path, '/').skip(1),
    decreases path.len(),
{
    reveal_strlit("/..");
    let e = Seq::<char>::empty();
    let up = "/.."@;
    let init = path.drop_last();
    assert((up + path).drop_last() =~= up + init);
    assert((up + path).last() == path.last());
    if path.len() == 1 {
        assert(init =~= e);
        assert(up + init =~= up);
        assert(up.drop_last() =~= seq!['/', '.']);
        assert(seq!['/', '.'].drop_last() =~= seq!['/']);
        assert(seq!['/'].drop_last() =~= e);
        reveal_with_fuel(split_at_char, 5);
        assert(split_at_char(seq!['/'], '/') =~= seq![e, e]);
        assert(e.push('.') =~= seq!['.']);
        assert(split_at_char(seq!['/', '.'], '/') =~= seq![e, seq!['.']]);
        assert(seq!['.'].push('.') =~= seq!['.', '.']);
        assert(seq![e, seq!['.']].drop_last() =~= seq![e]);
        assert(split_at_char(up, '/') =~= seq![e].push(seq!['.', '.']));
        assert(dot_dot() =~= seq!['.', '.']);
        assert(split_at_char(path, '/') =~= seq![e, e]);
        assert(split_at_char(up + path, '/') =~= seq![e, dot_dot(), e]);
        assert(seq![e, e].skip(1) =~= seq![e]);
        assert(seq![e] + seq![e] =~= seq![e, e]);
        assert(seq![e, dot_dot()] + seq![e] =~= seq![e, dot_dot(), e]);
    } else {
        lemma_split_behind_up(init);
        let b = split_at_char(init, '/');
        let rest = b.skip(1);
        let lead = seq![e, dot_dot()];
        if path.last() == '/' {
            assert(split_at_char(path, '/') =~= seq![e] + rest.push(e));
            assert(split_at_char(path, '/').skip(1) =~= rest.push(e));
            assert(split_at_char(up + path, '/') =~= lead + rest.push(e));
        } else {
            lemma_second_piece(init);
            let l = rest.last().push(path.last());
            assert(b.last() == rest.last());
            assert(split_at_char(path, '/') =~= seq![e] + rest.drop_last().push(l));
            assert(split_at_char(path, '/').skip(1) =~= rest.drop_last().push(l));
            assert((lead + rest).drop_last() =~= lead + rest.drop_last());
            assert((lead + rest).last() == rest.last());
            assert(split_at_char(up + path, '/') =~= lead + rest.drop_last().push(l));
        }
    }
}

/// An absolute path has two pieces at least.
proof fn lemma_second_piece(path: Seq<char>)
    requires
        path.len() > 0,
        path[0] == '/',
    ensures
        split_at_char(path, '/').len() >= 2,
    decreases path.len(),
{
    let init = path.drop_last();
    if path.len() == 1 {
        reveal_with_fuel(split_at_char, 2);
    } else {
        lemma_second_piece(init);
    }
}

/// From the root, `..` leads nowhere.
pub proof fn lemma_up_from_root(path: Seq<char>)
    requires
        path.len() > 0,
        path[0] == '/',
    ensures
        components("/.."@ + path) == components(path),
{
    let e = Seq::<char>::empty();
    let none = Seq::<Seq<char>>::empty();
    lemma_split_behind_up(path);
    let rest = split_at_char(path, '/').skip(1);
    let lead = seq![e, dot_dot()];
    lemma_walk_append(none, lead, rest);
    lemma_walk_append(none, seq![e], rest);
    reveal_with_fuel(walk, 3);
    assert(lead.drop_last() =~= seq![e]);
    assert(seq![e].drop_last() =~= none);
    assert(walk(none, lead) =~= none);
    assert(walk(none, seq![e]) =~= none);
}

/// The components of a path are names, and the path rooted at them has the same
/// components: nothing in a normalized path is empty, `.` or `..`.
pub proof fn lemma_components(path: Seq<char>)
    ensures
        all_names(components(path)),
        components(normalized(path)) == components(path),
{
    lemma_split_pieces(path, '/');
    lemma_walk_names(Seq::empty(), split_at_char(path, '/'));
    lemma_components_of_rooted(components(path));
}

/// The components of a rooted sequence of names are these names.
pub proof fn lemma_components_of_rooted(names: Seq<Seq<char>>)
    requires
        all_names(names),
    ensures
        components(rooted(names)) == names,
{
    let e = Seq::<char>::empty();
    if names.len() == 0 {
        assert(rooted(names) =~= seq!['/']);
        assert(seq!['/'].drop_last() =~= e);
        reveal_with_fuel(split_at_char, 2);
        assert(split_at_char(seq!['/'], '/') =~= seq![e] + seq![e]);
        lemma_walk_empty_first(seq![e]);
        assert(seq![e] =~= seq![e] + Seq::<Seq<char>>::empty());
        lemma_walk_empty_first(Seq::empty());
        assert(names =~= Seq::empty());
    } else {
        lemma_split_rooted(names);
        lemma_walk_empty_first(names);
        lemma_walk_over_names(Seq::empty(), names);
        assert(Seq::<Seq<char>>::empty() + names =~= names);
    }
}

/// A rooted sequence of names is cut into an empty piece and the names.
pub proof fn lemma_split_rooted(names: Seq<Seq<char>>)
    requires
        all_names(names),
        names.len() > 0,
    ensures
        split_at_char(rooted(names), '/') == seq![Seq::<char>::empty()] + names,
{
    let parts = seq![Seq::<char>::empty()] + names;
    assert forall|i: int| 0 <= i < parts.len() implies !(#[trigger] parts[i]).contains('/') by {
        if i > 0 {
            assert(is_name(names[i - 1]));
        }
    }
    lemma_join_empty_first(names);
    lemma_split_join(parts, '/');
}

/// The pieces of a prefix are the first pieces of a path under it.
pub proof fn lemma_split_under(path: Seq<char>, prefix: Seq<char>)
    requires
        under(path, prefix),
    ensures
        split_at_char(prefix, '/').is_prefix_of(split_at_char(path, '/')),
        path != prefix ==> split_at_char(path, '/').len() > split_at_char(prefix, '/').len(),
    decreases path.len(),
{
    if path != prefix {
        let init = path.drop_last();
        if path.len() == prefix.len() + 1 {
            assert(path =~= prefix.push('/'));
            assert(init =~= prefix);
        } else {
            assert(prefix.push('/').is_prefix_of(init));
            lemma_split_pieces(init, '/');
            lemma_split_under(init, prefix);
            let p = split_at_char(prefix, '/');
            let q = split_at_char(init, '/');
            assert(init != prefix);
            assert(p =~= split_at_char(path, '/').subrange(0, p.len() as int));
        }
    }
}

/// A path of names lies under the path of its first names.
pub proof fn lemma_rooted_under(names: Seq<Seq<char>>, n: int)
    requires
        0 < n <= names.len(),
    ensures
        under(rooted(names), rooted(names.take(n))),
    decreases names.len(),
{
    if n == names.len() {
        assert(names.take(n) =~= names);
    } else {
        let init = names.drop_last();
        lemma_rooted_under(init, n);
        assert(init.take(n) =~= names.take(n));
        let p = rooted(names.take(n));
        assert(rooted(names) =~= rooted(init).push('/') + names.last());
        if rooted(init) == p {
            assert(p.push('/').is_prefix_of(rooted(names)));
        } else {
            assert(p.push('/') =~= rooted(names).subrange(0, p.len() as int + 1));
        }
    }
}

/// Joining with an empty part in front puts one separator in front.
proof fn lemma_join_empty_first(names: Seq<Seq<char>>)
    requires
        names.len() > 0,
    ensures
        join_with(seq![Seq::<char>::empty()] + names, '/') == rooted(names),
    decreases names.len(),
{
    let e = seq![Seq::<char>::empty()];
    assert((e + names).drop_last() =~= e + names.drop_last());
    assert((e + names).last() == names.last());
    if names.len() == 1 {
        assert(e + names.drop_last() =~= e);
        assert(join_with(e, '/').push('/') + names[0] =~= rooted(names));
    } else {
        lemma_join_empty_first(names.drop_last());
        assert(rooted(names.drop_last()).push('/') + names.last() =~= rooted(names));
    }
}

/// Lying under is transitive.
pub proof fn under_is_transitive(a: Seq<char>, b: Seq<char>, c: Seq<char>)
    requires
        under(a, b),
        under(b, c),
    ensures
        under(a, c),
{
    if a != b && b != c {
        assert(c.push('/') =~= a.subrange(0, c.len() as int + 1));
    }
}

/// Normalizing a normalized path changes nothing.
pub proof fn normalize_is_idempotent(path: Seq<char>)
    ensures
        normalized(normalized(path)) == normalized(path),
{
    lemma_components(path);
}

} // verus!
