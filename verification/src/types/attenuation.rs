//! Laws of capability tokens: narrowing and intersecting only take away, memory
//! is gated apart from the path patterns, and spelling a path differently gains
//! nothing.
use crate::path::{all_names, components, is_name, lemma_components, lemma_up_from_root, lemma_walk_over_names, rooted, under, under_is_transitive, walk};
use crate::text::{join_with, lemma_split_join, split_at_char};
use crate::types::capability::{add_kept, held_by, host_pattern, is_tree, label_before, meet, network_allowed, network_allows, network_covered, network_covers, network_denial, network_meet, no_skill, nothing_granted, one_label_below, path_allowed, path_allows, path_covered, path_covers, path_meet, paths_within, plain_path, read_denial, scope_meet, skill_covers, skill_denial, skill_within, subset_of, tree_base, within_any_scope, within_network, within_paths, write_denial, TokenView};
use crate::types::memory::{in_scope, is_memory_path, lemma_parsed_under_mnt, parsed_memory_path};
use vstd::prelude::*;

verus! {

broadcast use vstd::seq_lib::group_seq_properties;

/// Every token is a subset of itself.
pub proof fn subset_is_reflexive(token: TokenView)
    ensures
        subset_of(token, token),
{
    assert forall|i: int| 0 <= i < token.network.len() implies network_covered(#[trigger] token.network[i], token.network) by {
        assert(network_covers(token.network[i], token.network[i]));
    }
    assert forall|i: int| 0 <= i < token.paths_write.len() implies path_covered(#[trigger] token.paths_write[i], token.paths_write) by {
        assert(path_covers(token.paths_write[i], token.paths_write[i]));
    }
    assert forall|i: int| 0 <= i < token.paths_read.len() implies path_covered(#[trigger] token.paths_read[i], token.paths_read) by {
        assert(path_covers(token.paths_read[i], token.paths_read[i]));
    }
    assert forall|i: int| 0 <= i < token.skill_patterns.len() implies skill_within(#[trigger] token.skill_patterns[i], token.skill_patterns) by {
        assert(skill_covers(token.skill_patterns[i], token.skill_patterns[i]));
    }
    let m = token.memory;
    assert forall|i: int| 0 <= i < m.search_scopes.len() implies in_scope(#[trigger] m.search_scopes[i], m.search_scopes) by {
        assert(under(m.search_scopes[i], m.search_scopes[i]));
    }
    assert forall|i: int| 0 <= i < m.write_scopes.len() implies in_scope(#[trigger] m.write_scopes[i], m.write_scopes) by {
        assert(under(m.write_scopes[i], m.write_scopes[i]));
    }
}

// ---- Patterns ----------------------------------------------------------------

proof fn lemma_path_covers(parent: Seq<char>, child: Seq<char>, path: Seq<char>)
    requires
        path_covers(parent, child),
        path_allows(child, path),
    ensures
        path_allows(parent, path),
{
    reveal_strlit("/**");
    if parent != child && parent != "/**"@ {
        let base = tree_base(parent);
        if child == "/**"@ {
            assert(tree_base(child).len() == 0);
            assert(base.len() == 0);
            assert(parent =~= "/**"@);
        } else if is_tree(child) {
            under_is_transitive(path, tree_base(child), base);
        }
    }
}

proof fn lemma_paths_allowed(
    parents: Seq<Seq<char>>,
    children: Seq<Seq<char>>,
    path: Seq<char>,
)
    requires
        forall|i: int| 0 <= i < children.len() ==> path_covered(#[trigger] children[i], parents),
        path_allowed(children, path),
    ensures
        path_allowed(parents, path),
{
    let i = choose|i: int| 0 <= i < children.len() && path_allows(#[trigger] children[i], path);
    assert(path_covered(children[i], parents));
    let j = choose|j: int| 0 <= j < parents.len() && path_covers(#[trigger] parents[j], children[i]);
    lemma_path_covers(parents[j], children[i], path);
}

proof fn lemma_scopes(parents: Seq<Seq<char>>, children: Seq<Seq<char>>, path: Seq<char>)
    requires
        forall|i: int| 0 <= i < children.len() ==> in_scope(#[trigger] children[i], parents),
        in_scope(path, children),
    ensures
        in_scope(path, parents),
{
    let i = choose|i: int| 0 <= i < children.len() && under(path, #[trigger] children[i]);
    assert(in_scope(children[i], parents));
    let j = choose|j: int| 0 <= j < parents.len() && under(children[i], #[trigger] parents[j]);
    under_is_transitive(path, children[i], parents[j]);
}

/// `net:*`, which the coverage of patterns takes for "every host" and the check of
/// a host takes for the host `*`.
pub open spec fn is_prefixed_star(pattern: Seq<char>) -> bool {
    pattern != "*"@ && host_pattern(pattern) == "*"@
}

/// None of the network patterns is `net:*`.
pub open spec fn no_prefixed_star(patterns: Seq<Seq<char>>) -> bool {
    forall|i: int| 0 <= i < patterns.len() ==> !is_prefixed_star(#[trigger] patterns[i])
}

proof fn lemma_network_covers(parent: Seq<char>, child: Seq<char>, host: Seq<char>)
    requires
        network_covers(parent, child),
        network_allows(child, host),
        !is_prefixed_star(parent),
    ensures
        network_allows(parent, host),
{
    reveal_strlit("*");
    reveal_strlit("*.");
    reveal_strlit("net:");
    let p = host_pattern(parent);
    let c = host_pattern(child);
    if p != "*"@ {
        if child == "*"@ {
            assert(c == "*"@) by {
                if "net:"@.is_prefix_of(child) {
                    assert(child.len() >= 4);
                }
            }
        }
        if p != c {
            let label = label_before(p, c);
            assert(one_label_below(p, c));
            if c == "*"@ {
                // The star itself is no host below a domain.
                assert(p.skip(1)[0] == '.');
                assert(c.subrange((c.len() - p.skip(1).len()) as int, c.len() as int)[0] == '*');
                assert(false);
            }
            if c != host {
                // A wildcard child would start with the star that coverage rules out.
                assert(one_label_below(c, host));
                assert("*."@.is_prefix_of(c));
                assert(c[0] == '*') by {
                    assert(c.subrange(0, 2)[0] == '*');
                }
                if label.len() > 0 {
                    assert(label[0] == '*');
                    assert("*"@ =~= label.subrange(0, 1));
                    assert(false);
                } else {
                    assert(c =~= p.skip(1));
                    assert(p[1] == '.') by {
                        assert(p.subrange(0, 2)[1] == '.');
                    }
                    assert(false);
                }
            }
        }
    }
}

proof fn lemma_network_allowed(parents: Seq<Seq<char>>, children: Seq<Seq<char>>, host: Seq<char>)
    requires
        forall|i: int| 0 <= i < children.len() ==> network_covered(#[trigger] children[i], parents),
        no_prefixed_star(parents),
        network_allowed(children, host),
    ensures
        network_allowed(parents, host),
{
    let i = choose|i: int| 0 <= i < children.len() && network_allows(#[trigger] children[i], host);
    assert(network_covered(children[i], parents));
    let j = choose|j: int| 0 <= j < parents.len() && network_covers(#[trigger] parents[j], children[i]);
    lemma_network_covers(parents[j], children[i], host);
}

/// A skill pattern that ends in two stars. Coverage takes the first of them for a
/// character of a child's pattern, where that pattern has its own star.
pub open spec fn is_double_star(pattern: Seq<char>) -> bool {
    "**"@.is_suffix_of(pattern)
}

/// None of the skill patterns ends in two stars.
pub open spec fn no_double_star(patterns: Seq<Seq<char>>) -> bool {
    forall|i: int| 0 <= i < patterns.len() ==> !is_double_star(#[trigger] patterns[i])
}

proof fn lemma_skill_covers(parent: Seq<char>, child: Seq<char>, text: Seq<char>)
    requires
        skill_covers(parent, child),
        skill_covers(child, text),
        !is_double_star(parent),
    ensures
        skill_covers(parent, text),
{
    reveal_strlit("*");
    reveal_strlit("**");
    if parent != child && child != text {
        let q = parent.take(parent.len() - 1);
        let p = child.take(child.len() - 1);
        if q.len() <= p.len() {
            assert(q =~= text.subrange(0, q.len() as int)) by {
                assert forall|k: int| 0 <= k < q.len() implies q[k] == text[k] by {
                    assert(q[k] == child.subrange(0, q.len() as int)[k]);
                    assert(p[k] == text.subrange(0, p.len() as int)[k]);
                }
            }
        } else {
            assert(q =~= child);
            assert(parent.last() == '*') by {
                assert(parent.subrange(parent.len() - 1, parent.len() as int)[0] == '*');
            }
            assert(child.last() == '*') by {
                assert(child.subrange(child.len() - 1, child.len() as int)[0] == '*');
            }
            assert("**"@ =~= parent.subrange(parent.len() - 2, parent.len() as int));
        }
    }
}

/// No skill matches the pattern that stands for none.
proof fn lemma_no_skill(skill: Seq<char>)
    ensures
        !skill_covers(no_skill(), "skill:"@ + skill),
{
    reveal_strlit("*");
    reveal_strlit("skill:");
    assert(("skill:"@ + skill).len() > 0);
}

// ---- Narrowing ---------------------------------------------------------------

/// A token narrowed from `parent` is denied everything that `parent` is denied:
/// whatever the checks allow the child, they allow the parent.
///
/// For hosts this is said of parents without the network pattern `net:*`, and for
/// skills of parents without a pattern that ends in two stars.
pub proof fn narrowing_takes_nothing_new(
    child: TokenView,
    parent: TokenView,
    path: Seq<char>,
    host: Seq<char>,
    skill: Seq<char>,
)
    requires
        subset_of(child, parent),
    ensures
        child.shell ==> parent.shell,
        child.javascript ==> parent.javascript,
        child.python ==> parent.python,
        read_denial(child, path) is None ==> read_denial(parent, path) is None,
        write_denial(child, path) is None ==> write_denial(parent, path) is None,
        no_prefixed_star(parent.network) && network_denial(child, host) is None ==> network_denial(
            parent,
            host,
        ) is None,
        no_double_star(parent.skill_patterns) && skill_denial(child, skill) is None ==> skill_denial(
            parent,
            skill,
        ) is None,
{
    let plain = plain_path(path);
    if read_denial(child, path) is None {
        if is_memory_path(plain) {
            lemma_scopes(
                parent.memory.search_scopes,
                child.memory.search_scopes,
                parsed_memory_path(plain)->Ok_0,
            );
        } else {
            lemma_paths_allowed(parent.paths_read, child.paths_read, plain);
        }
    }
    if write_denial(child, path) is None {
        if is_memory_path(plain) {
            lemma_scopes(
                parent.memory.write_scopes,
                child.memory.write_scopes,
                parsed_memory_path(plain)->Ok_0,
            );
        } else {
            lemma_paths_allowed(parent.paths_write, child.paths_write, plain);
        }
    }
    if no_prefixed_star(parent.network) && network_denial(child, host) is None {
        lemma_network_allowed(parent.network, child.network, host);
    }
    if no_double_star(parent.skill_patterns) && skill_denial(child, skill) is None && parent.skill_patterns.len() > 0 {
        let text = "skill:"@ + skill;
        lemma_no_skill(skill);
        let i = choose|i: int|
            0 <= i < child.skill_patterns.len() && skill_covers(#[trigger] child.skill_patterns[i], text);
        assert(skill_within(child.skill_patterns[i], parent.skill_patterns));
        let j = choose|j: int|
            0 <= j < parent.skill_patterns.len() && skill_covers(
                #[trigger] parent.skill_patterns[j],
                child.skill_patterns[i],
            );
        lemma_skill_covers(parent.skill_patterns[j], child.skill_patterns[i], text);
    }
}

proof fn lemma_path_covers_covered(parent: Seq<char>, child: Seq<char>, grandchild: Seq<char>)
    requires
        path_covers(parent, child),
        path_covers(child, grandchild),
    ensures
        path_covers(parent, grandchild),
{
    reveal_strlit("/**");
    if parent != child && child != grandchild && parent != "/**"@ {
        let base = tree_base(parent);
        if child == "/**"@ {
            assert(tree_base(child).len() == 0);
            assert(base.len() == 0);
            assert(parent =~= "/**"@);
        } else {
            under_is_transitive(tree_base(grandchild), tree_base(child), base);
        }
    }
}

proof fn lemma_network_covers_covered(parent: Seq<char>, child: Seq<char>, grandchild: Seq<char>)
    requires
        network_covers(parent, child),
        network_covers(child, grandchild),
    ensures
        network_covers(parent, grandchild),
{
    reveal_strlit("*");
    reveal_strlit("*.");
    let p = host_pattern(parent);
    let c = host_pattern(child);
    if p != "*"@ && p != c {
        let label = label_before(p, c);
        assert(p[1] == '.') by {
            assert(p.subrange(0, 2)[1] == '.');
        }
        assert(p.skip(1)[0] == '.');
        let at = c.len() - p.skip(1).len();
        assert(c[at] == '.') by {
            assert(c.subrange(at, c.len() as int)[0] == p.skip(1)[0]);
        }
        // The child is a host of its own, no wildcard.
        assert(c[0] != '*') by {
            if c[0] == '*' && label.len() > 0 {
                assert(label[0] == '*');
                assert("*"@ =~= label.subrange(0, 1));
            }
        }
        if "*."@.is_prefix_of(c) {
            assert(c.subrange(0, 2)[0] == '*');
        }
    }
}

proof fn lemma_paths_within(parents: Seq<Seq<char>>, children: Seq<Seq<char>>, grandchildren: Seq<Seq<char>>)
    requires
        paths_within(children, parents),
        paths_within(grandchildren, children),
    ensures
        paths_within(grandchildren, parents),
{
    assert forall|i: int| 0 <= i < grandchildren.len() implies path_covered(#[trigger] grandchildren[i], parents) by {
        let g = grandchildren[i];
        assert(path_covered(g, children));
        let k = choose|k: int| 0 <= k < children.len() && path_covers(#[trigger] children[k], g);
        assert(path_covered(children[k], parents));
        let j = choose|j: int| 0 <= j < parents.len() && path_covers(#[trigger] parents[j], children[k]);
        lemma_path_covers_covered(parents[j], children[k], g);
    }
}

/// What is narrowed from a narrowed token is narrowed from the first one too, however
/// many agents stand between, where the first has no skill pattern that ends in two
/// stars.
pub proof fn narrowing_is_transitive(parent: TokenView, child: TokenView, grandchild: TokenView)
    requires
        subset_of(child, parent),
        subset_of(grandchild, child),
        no_double_star(parent.skill_patterns),
    ensures
        subset_of(grandchild, parent),
{
    assert forall|i: int| 0 <= i < grandchild.network.len() implies network_covered(
        #[trigger] grandchild.network[i],
        parent.network,
    ) by {
        let g = grandchild.network[i];
        assert(network_covered(g, child.network));
        let k = choose|k: int| 0 <= k < child.network.len() && network_covers(#[trigger] child.network[k], g);
        assert(network_covered(child.network[k], parent.network));
        let j = choose|j: int|
            0 <= j < parent.network.len() && network_covers(#[trigger] parent.network[j], child.network[k]);
        lemma_network_covers_covered(parent.network[j], child.network[k], g);
    }
    assert forall|i: int| 0 <= i < grandchild.skill_patterns.len() implies skill_within(
        #[trigger] grandchild.skill_patterns[i],
        parent.skill_patterns,
    ) by {
        let g = grandchild.skill_patterns[i];
        assert(skill_within(g, child.skill_patterns));
        if parent.skill_patterns.len() > 0 && g != no_skill() {
            let k = choose|k: int|
                0 <= k < child.skill_patterns.len() && skill_covers(#[trigger] child.skill_patterns[k], g);
            assert(skill_within(child.skill_patterns[k], parent.skill_patterns));
            assert(child.skill_patterns[k] != no_skill()) by {
                reveal_strlit("*");
            }
            let j = choose|j: int|
                0 <= j < parent.skill_patterns.len() && skill_covers(
                    #[trigger] parent.skill_patterns[j],
                    child.skill_patterns[k],
                );
            lemma_skill_covers(parent.skill_patterns[j], child.skill_patterns[k], g);
        }
    }
    assert forall|i: int| 0 <= i < grandchild.spawn_types.len() implies parent.spawn_types.contains(
        #[trigger] grandchild.spawn_types[i],
    ) by {
        let g = grandchild.spawn_types[i];
        assert(child.spawn_types.contains(g));
        let k = choose|k: int| 0 <= k < child.spawn_types.len() && child.spawn_types[k] == g;
        assert(parent.spawn_types.contains(child.spawn_types[k]));
    }
    assert forall|i: int| 0 <= i < grandchild.mcp_tools.len() implies parent.mcp_tools.contains(
        #[trigger] grandchild.mcp_tools[i],
    ) by {
        let g = grandchild.mcp_tools[i];
        assert(child.mcp_tools.contains(g));
        let k = choose|k: int| 0 <= k < child.mcp_tools.len() && child.mcp_tools[k] == g;
        assert(parent.mcp_tools.contains(child.mcp_tools[k]));
    }
    lemma_paths_within(parent.paths_write, child.paths_write, grandchild.paths_write);
    lemma_paths_within(parent.paths_read, child.paths_read, grandchild.paths_read);
    assert forall|i: int| 0 <= i < grandchild.memory.search_scopes.len() implies in_scope(
        #[trigger] grandchild.memory.search_scopes[i],
        parent.memory.search_scopes,
    ) by {
        lemma_scopes(parent.memory.search_scopes, child.memory.search_scopes, grandchild.memory.search_scopes[i]);
    }
    assert forall|i: int| 0 <= i < grandchild.memory.write_scopes.len() implies in_scope(
        #[trigger] grandchild.memory.write_scopes[i],
        parent.memory.write_scopes,
    ) by {
        lemma_scopes(parent.memory.write_scopes, child.memory.write_scopes, grandchild.memory.write_scopes[i]);
    }
}

// ---- Intersection ------------------------------------------------------------

/// What was added was in the list and was to be kept.
proof fn lemma_add_kept(acc: Seq<Seq<char>>, xs: Seq<Seq<char>>, keep: spec_fn(Seq<char>) -> bool, x: Seq<char>)
    requires
        add_kept(acc, xs, keep).contains(x),
    ensures
        acc.contains(x) || (xs.contains(x) && keep(x)),
    decreases xs.len(),
{
    if xs.len() > 0 {
        let init = xs.drop_last();
        let before = add_kept(acc, init, keep);
        if before.contains(x) {
            lemma_add_kept(acc, init, keep, x);
            if init.contains(x) {
                let k = choose|k: int| 0 <= k < init.len() && init[k] == x;
                assert(xs[k] == x);
            }
        } else {
            let whole = add_kept(acc, xs, keep);
            let k = choose|k: int| 0 <= k < whole.len() && whole[k] == x;
            assert(x == xs.last()) by {
                if k < before.len() {
                    assert(before[k] == x);
                }
            }
            assert(xs[xs.len() - 1] == x);
        }
    }
}

/// What two rounds of adding leave was in one list and kept by the other.
proof fn lemma_kept_twice(
    a: Seq<Seq<char>>,
    b: Seq<Seq<char>>,
    by_b: spec_fn(Seq<char>) -> bool,
    by_a: spec_fn(Seq<char>) -> bool,
    x: Seq<char>,
)
    requires
        add_kept(add_kept(Seq::empty(), a, by_b), b, by_a).contains(x),
    ensures
        (a.contains(x) && by_b(x)) || (b.contains(x) && by_a(x)),
{
    let first = add_kept(Seq::empty(), a, by_b);
    lemma_add_kept(first, b, by_a, x);
    if first.contains(x) {
        lemma_add_kept(Seq::empty(), a, by_b, x);
    }
}

proof fn lemma_filter_held(a: Seq<Seq<char>>, b: Seq<Seq<char>>, i: int)
    requires
        0 <= i < a.filter(held_by(b)).len(),
    ensures
        a.contains(a.filter(held_by(b))[i]),
        b.contains(a.filter(held_by(b))[i]),
{
    broadcast use vstd::seq_lib::group_filter_ensures;

    a.lemma_filter_contains_rev(held_by(b), a.filter(held_by(b))[i]);
}

/// The lists of an intersection are within the lists of either side.
proof fn lemma_meet_lists(a: TokenView, b: TokenView)
    ensures
        forall|i: int| 0 <= i < meet(a, b).network.len() ==> {
            &&& network_covered(#[trigger] meet(a, b).network[i], a.network)
            &&& network_covered(meet(a, b).network[i], b.network)
        },
        forall|i: int| 0 <= i < meet(a, b).paths_read.len() ==> {
            &&& path_covered(#[trigger] meet(a, b).paths_read[i], a.paths_read)
            &&& path_covered(meet(a, b).paths_read[i], b.paths_read)
        },
        forall|i: int| 0 <= i < meet(a, b).paths_write.len() ==> {
            &&& path_covered(#[trigger] meet(a, b).paths_write[i], a.paths_write)
            &&& path_covered(meet(a, b).paths_write[i], b.paths_write)
        },
        forall|i: int| 0 <= i < meet(a, b).memory.search_scopes.len() ==> {
            &&& in_scope(#[trigger] meet(a, b).memory.search_scopes[i], a.memory.search_scopes)
            &&& in_scope(meet(a, b).memory.search_scopes[i], b.memory.search_scopes)
        },
        forall|i: int| 0 <= i < meet(a, b).memory.write_scopes.len() ==> {
            &&& in_scope(#[trigger] meet(a, b).memory.write_scopes[i], a.memory.write_scopes)
            &&& in_scope(meet(a, b).memory.write_scopes[i], b.memory.write_scopes)
        },
{
    let m = meet(a, b);
    assert forall|i: int| 0 <= i < m.network.len() implies network_covered(#[trigger] m.network[i], a.network)
        && network_covered(m.network[i], b.network) by {
        let x = m.network[i];
        lemma_kept_twice(a.network, b.network, within_network(b.network), within_network(a.network), x);
        assert(network_covers(x, x));
    }
    assert forall|i: int| 0 <= i < m.paths_read.len() implies path_covered(#[trigger] m.paths_read[i], a.paths_read)
        && path_covered(m.paths_read[i], b.paths_read) by {
        let x = m.paths_read[i];
        lemma_kept_twice(a.paths_read, b.paths_read, within_paths(b.paths_read), within_paths(a.paths_read), x);
        assert(path_covers(x, x));
    }
    assert forall|i: int| 0 <= i < m.paths_write.len() implies path_covered(#[trigger] m.paths_write[i], a.paths_write)
        && path_covered(m.paths_write[i], b.paths_write) by {
        let x = m.paths_write[i];
        lemma_kept_twice(a.paths_write, b.paths_write, within_paths(b.paths_write), within_paths(a.paths_write), x);
        assert(path_covers(x, x));
    }
    assert forall|i: int| 0 <= i < m.memory.search_scopes.len() implies in_scope(#[trigger] m.memory.search_scopes[i], a.memory.search_scopes)
        && in_scope(m.memory.search_scopes[i], b.memory.search_scopes) by {
        let x = m.memory.search_scopes[i];
        lemma_kept_twice(
            a.memory.search_scopes,
            b.memory.search_scopes,
            within_any_scope(b.memory.search_scopes),
            within_any_scope(a.memory.search_scopes),
            x,
        );
        assert(under(x, x));
    }
    assert forall|i: int| 0 <= i < m.memory.write_scopes.len() implies in_scope(#[trigger] m.memory.write_scopes[i], a.memory.write_scopes)
        && in_scope(m.memory.write_scopes[i], b.memory.write_scopes) by {
        let x = m.memory.write_scopes[i];
        lemma_kept_twice(
            a.memory.write_scopes,
            b.memory.write_scopes,
            within_any_scope(b.memory.write_scopes),
            within_any_scope(a.memory.write_scopes),
            x,
        );
        assert(under(x, x));
    }
}

/// The intersection of two tokens allows only what both of them allow.
///
/// For hosts this is said of tokens without the network pattern `net:*`.
pub proof fn intersection_takes_nothing_new(
    a: TokenView,
    b: TokenView,
    path: Seq<char>,
    host: Seq<char>,
    skill: Seq<char>,
)
    ensures
        meet(a, b).shell ==> a.shell && b.shell,
        meet(a, b).javascript ==> a.javascript && b.javascript,
        meet(a, b).python ==> a.python && b.python,
        read_denial(meet(a, b), path) is None ==> read_denial(a, path) is None && read_denial(b, path) is None,
        write_denial(meet(a, b), path) is None ==> write_denial(a, path) is None && write_denial(b, path) is None,
        no_prefixed_star(a.network) && network_denial(meet(a, b), host) is None ==> network_denial(a, host) is None,
        no_prefixed_star(b.network) && network_denial(meet(a, b), host) is None ==> network_denial(b, host) is None,
        skill_denial(meet(a, b), skill) is None ==> skill_denial(a, skill) is None
            && skill_denial(b, skill) is None,
{
    let m = meet(a, b);
    let plain = plain_path(path);
    lemma_meet_lists(a, b);
    if read_denial(m, path) is None {
        if is_memory_path(plain) {
            let p = parsed_memory_path(plain)->Ok_0;
            lemma_scopes(a.memory.search_scopes, m.memory.search_scopes, p);
            lemma_scopes(b.memory.search_scopes, m.memory.search_scopes, p);
        } else {
            lemma_paths_allowed(a.paths_read, m.paths_read, plain);
            lemma_paths_allowed(b.paths_read, m.paths_read, plain);
        }
    }
    if write_denial(m, path) is None {
        if is_memory_path(plain) {
            let p = parsed_memory_path(plain)->Ok_0;
            lemma_scopes(a.memory.write_scopes, m.memory.write_scopes, p);
            lemma_scopes(b.memory.write_scopes, m.memory.write_scopes, p);
        } else {
            lemma_paths_allowed(a.paths_write, m.paths_write, plain);
            lemma_paths_allowed(b.paths_write, m.paths_write, plain);
        }
    }
    if network_denial(m, host) is None {
        if no_prefixed_star(a.network) {
            lemma_network_allowed(a.network, m.network, host);
        }
        if no_prefixed_star(b.network) {
            lemma_network_allowed(b.network, m.network, host);
        }
    }
    if skill_denial(m, skill) is None && a.skill_patterns.len() > 0 && b.skill_patterns.len() > 0 {
        let text = "skill:"@ + skill;
        let i = choose|i: int|
            0 <= i < m.skill_patterns.len() && skill_covers(#[trigger] m.skill_patterns[i], text);
        lemma_no_skill(skill);
        lemma_filter_held(a.skill_patterns, b.skill_patterns, i);
    }
}

/// The intersection of two tokens is a subset of either of them.
pub proof fn intersection_is_subset(a: TokenView, b: TokenView)
    ensures
        subset_of(meet(a, b), a),
        subset_of(meet(a, b), b),
{
    let m = meet(a, b);
    lemma_meet_lists(a, b);
    assert forall|i: int| 0 <= i < m.spawn_types.len() implies a.spawn_types.contains(#[trigger] m.spawn_types[i])
        && b.spawn_types.contains(m.spawn_types[i]) by {
        lemma_filter_held(a.spawn_types, b.spawn_types, i);
    }
    assert forall|i: int| 0 <= i < m.mcp_tools.len() implies a.mcp_tools.contains(#[trigger] m.mcp_tools[i])
        && b.mcp_tools.contains(m.mcp_tools[i]) by {
        lemma_filter_held(a.mcp_tools, b.mcp_tools, i);
    }
    let skills = m.skill_patterns;
    assert forall|i: int| 0 <= i < skills.len() implies skill_within(#[trigger] skills[i], a.skill_patterns)
        && skill_within(skills[i], b.skill_patterns) by {
        if a.skill_patterns.len() > 0 && b.skill_patterns.len() > 0 && skills[i] != no_skill() {
            lemma_filter_held(a.skill_patterns, b.skill_patterns, i);
        }
        assert(skill_covers(skills[i], skills[i]));
    }
}

/// `path` lies under both, so one of the two lies under the other.
proof fn lemma_nested(path: Seq<char>, a: Seq<char>, b: Seq<char>)
    requires
        under(path, a),
        under(path, b),
        a.len() <= b.len(),
    ensures
        under(b, a),
{
    if a.len() == b.len() {
        assert(a =~= path.subrange(0, a.len() as int));
        assert(b =~= path.subrange(0, b.len() as int));
    } else {
        assert(b =~= path.subrange(0, b.len() as int));
        assert(path != a);
        assert(a.push('/') =~= b.subrange(0, a.len() as int + 1)) by {
            assert forall|k: int| 0 <= k <= a.len() implies a.push('/')[k] == b[k] by {
                assert(a.push('/')[k] == path.subrange(0, a.len() as int + 1)[k]);
                assert(b[k] == path.subrange(0, b.len() as int)[k]);
            }
        }
    }
}

/// Two path patterns that allow the same path cover one another, one way at least.
proof fn lemma_paths_nested(p: Seq<char>, q: Seq<char>, path: Seq<char>)
    requires
        path_allows(p, path),
        path_allows(q, path),
    ensures
        path_covers(p, q) || path_covers(q, p),
{
    if p != "/**"@ && q != "/**"@ && p != q {
        let a = tree_base(p);
        let b = tree_base(q);
        if is_tree(p) && is_tree(q) {
            if a.len() <= b.len() {
                lemma_nested(path, a, b);
            } else {
                lemma_nested(path, b, a);
            }
        }
    }
}

/// Two network patterns that allow the same host cover one another, one way at least.
proof fn lemma_networks_nested(p: Seq<char>, q: Seq<char>, host: Seq<char>)
    requires
        network_allows(p, host),
        network_allows(q, host),
        !is_prefixed_star(p),
        !is_prefixed_star(q),
        !"*"@.is_prefix_of(host),
    ensures
        network_covers(p, q) || network_covers(q, p),
{
    reveal_strlit("*");
    reveal_strlit("*.");
    reveal_strlit("net:");
    let a = host_pattern(p);
    let b = host_pattern(q);
    assert(p == "*"@ ==> a == "*"@);
    assert(q == "*"@ ==> b == "*"@);
    if p != "*"@ && q != "*"@ && a != b {
        assert forall|c: Seq<char>| #[trigger] one_label_below(c, host) implies !"*"@.is_prefix_of(label_before(c, host)) by {
            let label = label_before(c, host);
            if "*"@.is_prefix_of(label) {
                assert(label.subrange(0, 1)[0] == '*');
                assert("*"@ =~= host.subrange(0, 1));
            }
        }
        if one_label_below(a, host) && one_label_below(b, host) {
            lemma_dot_behind_label(a, host);
            lemma_dot_behind_label(b, host);
            let x = label_before(a, host);
            let y = label_before(b, host);
            if x.len() < y.len() {
                assert(y[x.len() as int] == '.');
            } else if y.len() < x.len() {
                assert(x[y.len() as int] == '.');
            } else {
                assert(a.skip(1) == b.skip(1));
                assert(a[0] == '*' && b[0] == '*') by {
                    assert(a.subrange(0, 2)[0] == '*' && b.subrange(0, 2)[0] == '*');
                }
                assert(a =~= b) by {
                    assert forall|k: int| 0 <= k < a.len() implies a[k] == b[k] by {
                        if k > 0 {
                            assert(a[k] == a.skip(1)[k - 1] && b[k] == b.skip(1)[k - 1]);
                        }
                    }
                }
            }
        }
    }
}

/// A dot stands behind the label.
proof fn lemma_dot_behind_label(pattern: Seq<char>, host: Seq<char>)
    requires
        one_label_below(pattern, host),
    ensures
        label_before(pattern, host).len() < host.len(),
        host[label_before(pattern, host).len() as int] == '.',
        host.skip(label_before(pattern, host).len() as int) == pattern.skip(1),
{
    reveal_strlit("*.");
    let n = label_before(pattern, host).len() as int;
    assert(pattern.skip(1)[0] == '.') by {
        assert(pattern.subrange(0, 2)[1] == '.');
    }
    assert(host.skip(n) =~= host.subrange(n, host.len() as int));
    assert(host.skip(n)[0] == host[n]);
}

/// What is to be kept is there.
proof fn lemma_kept_is_there(acc: Seq<Seq<char>>, xs: Seq<Seq<char>>, keep: spec_fn(Seq<char>) -> bool, x: Seq<char>)
    requires
        acc.contains(x) || (xs.contains(x) && keep(x)),
    ensures
        add_kept(acc, xs, keep).contains(x),
    decreases xs.len(),
{
    if xs.len() > 0 {
        let init = xs.drop_last();
        let before = add_kept(acc, init, keep);
        let whole = add_kept(acc, xs, keep);
        if acc.contains(x) || init.contains(x) {
            lemma_kept_is_there(acc, init, keep, x);
            let k = choose|k: int| 0 <= k < before.len() && before[k] == x;
            assert(whole[k] == x);
        } else {
            let k = choose|k: int| 0 <= k < xs.len() && xs[k] == x;
            assert(k == xs.len() - 1) by {
                if k < xs.len() - 1 {
                    assert(init[k] == x);
                }
            }
            if !before.contains(x) {
                assert(whole[before.len() as int] == x);
            }
        }
    }
}

/// Nothing is added twice.
proof fn lemma_kept_once(acc: Seq<Seq<char>>, xs: Seq<Seq<char>>, keep: spec_fn(Seq<char>) -> bool)
    requires
        acc.no_duplicates(),
    ensures
        add_kept(acc, xs, keep).no_duplicates(),
    decreases xs.len(),
{
    if xs.len() > 0 {
        lemma_kept_once(acc, xs.drop_last(), keep);
    }
}

/// What is kept of either list is in the meet.
proof fn lemma_kept_of_either(
    a: Seq<Seq<char>>,
    b: Seq<Seq<char>>,
    by_b: spec_fn(Seq<char>) -> bool,
    by_a: spec_fn(Seq<char>) -> bool,
    x: Seq<char>,
)
    requires
        (a.contains(x) && by_b(x)) || (b.contains(x) && by_a(x)),
    ensures
        add_kept(add_kept(Seq::empty(), a, by_b), b, by_a).contains(x),
{
    let first = add_kept(Seq::empty(), a, by_b);
    if a.contains(x) && by_b(x) {
        lemma_kept_is_there(Seq::empty(), a, by_b, x);
    }
    lemma_kept_is_there(first, b, by_a, x);
}

proof fn lemma_paths_both(a: Seq<Seq<char>>, b: Seq<Seq<char>>, path: Seq<char>)
    requires
        path_allowed(a, path),
        path_allowed(b, path),
    ensures
        path_allowed(path_meet(a, b), path),
{
    let i = choose|i: int| 0 <= i < a.len() && path_allows(#[trigger] a[i], path);
    let j = choose|j: int| 0 <= j < b.len() && path_allows(#[trigger] b[j], path);
    lemma_paths_nested(a[i], b[j], path);
    let x = if path_covers(b[j], a[i]) {
        a[i]
    } else {
        b[j]
    };
    lemma_kept_of_either(a, b, within_paths(b), within_paths(a), x);
    let m = path_meet(a, b);
    let k = choose|k: int| 0 <= k < m.len() && m[k] == x;
    assert(path_allows(m[k], path));
}

proof fn lemma_scopes_both(a: Seq<Seq<char>>, b: Seq<Seq<char>>, path: Seq<char>)
    requires
        in_scope(path, a),
        in_scope(path, b),
    ensures
        in_scope(path, scope_meet(a, b)),
{
    let i = choose|i: int| 0 <= i < a.len() && under(path, #[trigger] a[i]);
    let j = choose|j: int| 0 <= j < b.len() && under(path, #[trigger] b[j]);
    let x = if a[i].len() <= b[j].len() {
        lemma_nested(path, a[i], b[j]);
        b[j]
    } else {
        lemma_nested(path, b[j], a[i]);
        a[i]
    };
    lemma_kept_of_either(a, b, within_any_scope(b), within_any_scope(a), x);
    let m = scope_meet(a, b);
    let k = choose|k: int| 0 <= k < m.len() && m[k] == x;
    assert(under(path, m[k]));
}

proof fn lemma_networks_both(a: Seq<Seq<char>>, b: Seq<Seq<char>>, host: Seq<char>)
    requires
        network_allowed(a, host),
        network_allowed(b, host),
        no_prefixed_star(a),
        no_prefixed_star(b),
        !"*"@.is_prefix_of(host),
    ensures
        network_allowed(network_meet(a, b), host),
{
    let i = choose|i: int| 0 <= i < a.len() && network_allows(#[trigger] a[i], host);
    let j = choose|j: int| 0 <= j < b.len() && network_allows(#[trigger] b[j], host);
    lemma_networks_nested(a[i], b[j], host);
    let x = if network_covers(b[j], a[i]) {
        a[i]
    } else {
        b[j]
    };
    lemma_kept_of_either(a, b, within_network(b), within_network(a), x);
    let m = network_meet(a, b);
    let k = choose|k: int| 0 <= k < m.len() && m[k] == x;
    assert(network_allows(m[k], host));
}

/// The intersection of two tokens allows exactly the paths, memory paths too, and exactly the
/// hosts that both of them allow, and names no pattern twice.
///
/// For hosts this is said of tokens without the network pattern `net:*`, and of hosts that do
/// not begin with a star.
pub proof fn intersection_grants_what_both_grant(a: TokenView, b: TokenView, path: Seq<char>, host: Seq<char>)
    ensures
        read_denial(meet(a, b), path) is None <==> read_denial(a, path) is None && read_denial(b, path) is None,
        write_denial(meet(a, b), path) is None <==> write_denial(a, path) is None && write_denial(b, path) is None,
        no_prefixed_star(a.network) && no_prefixed_star(b.network) && !"*"@.is_prefix_of(host) ==> (network_denial(
            meet(a, b),
            host,
        ) is None <==> network_denial(a, host) is None && network_denial(b, host) is None),
        meet(a, b).network.no_duplicates(),
        meet(a, b).paths_read.no_duplicates(),
        meet(a, b).paths_write.no_duplicates(),
{
    let plain = plain_path(path);
    intersection_takes_nothing_new(a, b, path, host, Seq::empty());
    if read_denial(a, path) is None && read_denial(b, path) is None {
        if is_memory_path(plain) {
            lemma_scopes_both(a.memory.search_scopes, b.memory.search_scopes, parsed_memory_path(plain)->Ok_0);
        } else {
            lemma_paths_both(a.paths_read, b.paths_read, plain);
        }
    }
    if write_denial(a, path) is None && write_denial(b, path) is None {
        if is_memory_path(plain) {
            lemma_scopes_both(a.memory.write_scopes, b.memory.write_scopes, parsed_memory_path(plain)->Ok_0);
        } else {
            lemma_paths_both(a.paths_write, b.paths_write, plain);
        }
    }
    if no_prefixed_star(a.network) && no_prefixed_star(b.network) && !"*"@.is_prefix_of(host) && network_denial(
        a,
        host,
    ) is None && network_denial(b, host) is None {
        lemma_networks_both(a.network, b.network, host);
    }
    lemma_kept_once(Seq::empty(), a.network, within_network(b.network));
    lemma_kept_once(
        add_kept(Seq::empty(), a.network, within_network(b.network)),
        b.network,
        within_network(a.network),
    );
    lemma_kept_once(Seq::empty(), a.paths_read, within_paths(b.paths_read));
    lemma_kept_once(
        add_kept(Seq::empty(), a.paths_read, within_paths(b.paths_read)),
        b.paths_read,
        within_paths(a.paths_read),
    );
    lemma_kept_once(Seq::empty(), a.paths_write, within_paths(b.paths_write));
    lemma_kept_once(
        add_kept(Seq::empty(), a.paths_write, within_paths(b.paths_write)),
        b.paths_write,
        within_paths(a.paths_write),
    );
}

// ---- Memory ------------------------------------------------------------------

/// Two tokens with the same memory capability get the same answer for a memory
/// path, whatever path patterns they have.
pub proof fn memory_ignores_path_patterns(a: TokenView, b: TokenView, path: Seq<char>)
    requires
        a.memory == b.memory,
        is_memory_path(plain_path(path)),
    ensures
        read_denial(a, path) == read_denial(b, path),
        write_denial(a, path) == write_denial(b, path),
{
}

/// A token whose memory is disabled can neither read nor write any memory path.
pub proof fn disabled_memory_denies(token: TokenView, path: Seq<char>)
    requires
        !token.memory.enabled,
        is_memory_path(plain_path(path)),
    ensures
        read_denial(token, path) is Some,
        write_denial(token, path) is Some,
{
}

/// No token can write under `/mnt`.
pub proof fn mnt_is_never_writable(token: TokenView, path: Seq<char>)
    requires
        under(plain_path(path), "/mnt"@),
    ensures
        write_denial(token, path) is Some,
{
    let plain = plain_path(path);
    if parsed_memory_path(plain) is Ok {
        lemma_parsed_under_mnt(plain);
    }
}

// ---- Spelling ----------------------------------------------------------------

/// Normalizing twice is normalizing once, for relative paths too.
pub proof fn plain_path_is_idempotent(path: Seq<char>)
    ensures
        plain_path(plain_path(path)) == plain_path(path),
{
    let names = components(path);
    lemma_components(path);
    if !(path.len() > 0 && path[0] == '/') {
        let p = join_with(names, '/');
        if names.len() == 0 {
            reveal_with_fuel(walk, 2);
            assert(split_at_char(p, '/') =~= seq![Seq::<char>::empty()]);
            assert(seq![Seq::<char>::empty()].drop_last() =~= Seq::<Seq<char>>::empty());
            assert(components(p) =~= names);
        } else {
            assert forall|i: int| 0 <= i < names.len() implies !(#[trigger] names[i]).contains('/') by {
                assert(is_name(names[i]));
            }
            lemma_split_join(names, '/');
            lemma_walk_over_names(Seq::empty(), names);
            assert(Seq::<Seq<char>>::empty() + names =~= names);
            lemma_join_starts(names);
            assert(is_name(names[0]));
            assert(names[0][0] != '/') by {
                if names[0][0] == '/' {
                    assert(names[0].contains('/'));
                }
            }
        }
    }
}

proof fn lemma_join_starts(names: Seq<Seq<char>>)
    requires
        names.len() > 0,
        names[0].len() > 0,
    ensures
        join_with(names, '/').len() > 0,
        join_with(names, '/')[0] == names[0][0],
    decreases names.len(),
{
    if names.len() > 1 {
        lemma_join_starts(names.drop_last());
    }
}

/// The plain form of a path begins with a slash exactly where the path does. Apart from that
/// slash none of its segments is empty, `.` or `..`, where it has any. From the root `..`
/// leads nowhere.
pub proof fn plain_paths_are_plain(path: Seq<char>)
    ensures
        begins_with_slash(plain_path(path)) == begins_with_slash(path),
        begins_with_slash(path) ==> all_names(segments_of(plain_path(path).skip(1))),
        !begins_with_slash(path) ==> all_names(segments_of(plain_path(path))),
        begins_with_slash(path) ==> plain_path("/.."@ + path) == plain_path(path),
{
    let names = components(path);
    lemma_components(path);
    let joined = join_with(names, '/');
    if names.len() > 0 {
        assert forall|i: int| 0 <= i < names.len() implies !(#[trigger] names[i]).contains('/') by {
            assert(is_name(names[i]));
        }
        lemma_split_join(names, '/');
        assert(is_name(names[0]));
        lemma_join_starts(names);
        assert(names[0][0] != '/') by {
            if names[0][0] == '/' {
                assert(names[0].contains('/'));
            }
        }
    } else {
        assert(joined.len() == 0);
    }
    assert(rooted(names).skip(1) =~= joined);
    if begins_with_slash(path) {
        reveal_strlit("/..");
        assert(("/.."@ + path)[0] == '/');
        lemma_up_from_root(path);
    }
}

/// The path begins with a slash.
pub open spec fn begins_with_slash(path: Seq<char>) -> bool {
    path.len() > 0 && path[0] == '/'
}

/// The segments of a path without its leading slash: none where nothing is left.
pub open spec fn segments_of(path: Seq<char>) -> Seq<Seq<char>> {
    if path.len() == 0 {
        Seq::empty()
    } else {
        split_at_char(path, '/')
    }
}

/// A check answers for a path what it answers for its normalized form: detours
/// over `.`, `..` and double slashes gain nothing.
pub proof fn checks_see_the_plain_path(token: TokenView, path: Seq<char>)
    ensures
        read_denial(token, plain_path(path)) == read_denial(token, path),
        write_denial(token, plain_path(path)) == write_denial(token, path),
{
    plain_path_is_idempotent(path);
}

/// An agent that was granted nothing can run nothing, read and write nothing, and
/// reach no host.
pub proof fn nothing_granted_denies(path: Seq<char>, host: Seq<char>)
    ensures
        !nothing_granted().shell,
        !nothing_granted().javascript,
        !nothing_granted().python,
        read_denial(nothing_granted(), path) is Some,
        write_denial(nothing_granted(), path) is Some,
        network_denial(nothing_granted(), host) is Some,
{
}

} // verus!
