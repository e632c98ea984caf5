//! Capability tokens: what an agent may do, and how a token is narrowed.
use crate::path::{components, is_under, normalize, normalized, under};
use crate::text::{concat, concat3, copy, copy_all, debug_text, ends_with, has_char, holds, join_with, quoted, skip, starts_with, strip_prefix, strip_suffix, texts, Named};
use crate::types::memory::{in_scope, is_memory_path, parsed_memory_path, within_scopes, MemoryCapability, MemoryCapabilityView, MemoryPath};
use vstd::prelude::*;
use vstd::string::*;

verus! {

broadcast use vstd::seq_lib::group_seq_properties;

/// Host pattern with wildcard support for network permissions.
#[derive(Debug, PartialEq, Eq)]
pub struct NetworkPermission(pub String);

/// Glob-style path pattern for filesystem permissions.
#[derive(Debug, PartialEq, Eq)]
pub struct PathPattern(pub String);

impl View for NetworkPermission {
    type V = Seq<char>;

    open spec fn view(&self) -> Seq<char> {
        self.0@
    }
}

impl Named for NetworkPermission {
    open spec fn text(&self) -> Seq<char> {
        self.0@
    }

    fn duplicate(&self) -> (r: Self) {
        NetworkPermission(self.0.clone())
    }

    fn as_text(&self) -> (r: &str) {
        self.0.as_str()
    }
}

impl View for PathPattern {
    type V = Seq<char>;

    open spec fn view(&self) -> Seq<char> {
        self.0@
    }
}

impl Named for PathPattern {
    open spec fn text(&self) -> Seq<char> {
        self.0@
    }

    fn duplicate(&self) -> (r: Self) {
        PathPattern(self.0.clone())
    }

    fn as_text(&self) -> (r: &str) {
        self.0.as_str()
    }
}

impl Clone for NetworkPermission {
    fn clone(&self) -> (r: Self)
        ensures
            r.0@ == self.0@,
    {
        NetworkPermission(self.0.clone())
    }
}

impl Clone for PathPattern {
    fn clone(&self) -> (r: Self)
        ensures
            r.0@ == self.0@,
    {
        PathPattern(self.0.clone())
    }
}

/// Capability token assigned to an agent at creation.
/// Checked at the proxy layer before any side-effecting operation.
#[derive(Debug)]
pub struct CapabilityToken {
    pub network: Vec<NetworkPermission>,
    pub mcp_tools: Vec<String>,
    pub shell: bool,
    pub javascript: bool,
    pub python: bool,
    pub paths_write: Vec<PathPattern>,
    pub paths_read: Vec<PathPattern>,
    pub spawn_types: Vec<String>,
    /// Skill patterns in the `skill:<name>` namespace, with glob semantics. An
    /// empty list allows every skill.
    pub skill_patterns: Vec<String>,
    /// Opt-in long-term memory access. Memory paths (`/var/memory/**`, `/mnt/**`)
    /// are gated by this alone, never by `paths_read` or `paths_write`.
    pub memory: MemoryCapability,
}

/// What a token grants.
#[verifier::ext_equal]
pub struct TokenView {
    pub network: Seq<Seq<char>>,
    pub mcp_tools: Seq<Seq<char>>,
    pub shell: bool,
    pub javascript: bool,
    pub python: bool,
    pub paths_write: Seq<Seq<char>>,
    pub paths_read: Seq<Seq<char>>,
    pub spawn_types: Seq<Seq<char>>,
    pub skill_patterns: Seq<Seq<char>>,
    pub memory: MemoryCapabilityView,
}

impl View for CapabilityToken {
    type V = TokenView;

    open spec fn view(&self) -> TokenView {
        TokenView {
            network: texts(self.network@),
            mcp_tools: texts(self.mcp_tools@),
            shell: self.shell,
            javascript: self.javascript,
            python: self.python,
            paths_write: texts(self.paths_write@),
            paths_read: texts(self.paths_read@),
            spawn_types: texts(self.spawn_types@),
            skill_patterns: texts(self.skill_patterns@),
            memory: self.memory@,
        }
    }
}

impl Clone for CapabilityToken {
    fn clone(&self) -> (r: Self)
        ensures
            r@ == self@,
    {
        CapabilityToken {
            network: copy_all(&self.network),
            mcp_tools: copy_all(&self.mcp_tools),
            shell: self.shell,
            javascript: self.javascript,
            python: self.python,
            paths_write: copy_all(&self.paths_write),
            paths_read: copy_all(&self.paths_read),
            spawn_types: copy_all(&self.spawn_types),
            skill_patterns: copy_all(&self.skill_patterns),
            memory: self.memory.clone(),
        }
    }
}

/// The token of an agent that was granted nothing.
pub open spec fn nothing_granted() -> TokenView {
    TokenView {
        network: Seq::empty(),
        mcp_tools: Seq::empty(),
        shell: false,
        javascript: false,
        python: false,
        paths_write: Seq::empty(),
        paths_read: Seq::empty(),
        spawn_types: Seq::empty(),
        skill_patterns: Seq::empty(),
        memory: MemoryCapabilityView {
            enabled: false,
            search_scopes: Seq::empty(),
            write_scopes: Seq::empty(),
        },
    }
}

impl Default for CapabilityToken {
    fn default() -> (r: Self)
        ensures
            r@ == nothing_granted(),
    {
        CapabilityToken {
            network: Vec::new(),
            mcp_tools: Vec::new(),
            shell: false,
            javascript: false,
            python: false,
            paths_write: Vec::new(),
            paths_read: Vec::new(),
            spawn_types: Vec::new(),
            skill_patterns: Vec::new(),
            memory: MemoryCapability::default(),
        }
    }
}

// ---- Patterns ----------------------------------------------------------------

/// A network pattern without its optional `net:` prefix.
pub open spec fn host_pattern(pattern: Seq<char>) -> Seq<char> {
    if "net:"@.is_prefix_of(pattern) {
        pattern.skip(4)
    } else {
        pattern
    }
}

/// `host` is one label followed by what the pattern `*.<domain>` has after its
/// star. Only a single subdomain level matches.
pub open spec fn one_label_below(pattern: Seq<char>, host: Seq<char>) -> bool {
    &&& "*."@.is_prefix_of(pattern)
    &&& pattern.skip(1).is_suffix_of(host)
    &&& !label_before(pattern, host).contains('.')
}

/// What stands in `host` before the domain of the pattern `*.<domain>`.
pub open spec fn label_before(pattern: Seq<char>, host: Seq<char>) -> Seq<char> {
    host.take(host.len() - (pattern.len() - 1))
}

/// The network pattern `parent` grants at least what `child` does.
pub open spec fn network_covers(parent: Seq<char>, child: Seq<char>) -> bool {
    let p = host_pattern(parent);
    let c = host_pattern(child);
    ||| p == "*"@
    ||| p == c
    ||| one_label_below(p, c) && !"*"@.is_prefix_of(label_before(p, c))
}

/// The network pattern allows `host`. The bare `*` allows all hosts.
pub open spec fn network_allows(pattern: Seq<char>, host: Seq<char>) -> bool {
    ||| pattern == "*"@
    ||| host_pattern(pattern) == host
    ||| one_label_below(host_pattern(pattern), host)
}

/// A path pattern of the form `<base>/**`.
pub open spec fn is_tree(pattern: Seq<char>) -> bool {
    "/**"@.is_suffix_of(pattern)
}

/// A path pattern without its `/**`.
pub open spec fn tree_base(pattern: Seq<char>) -> Seq<char> {
    if is_tree(pattern) {
        pattern.take(pattern.len() - 3)
    } else {
        pattern
    }
}

/// The path pattern `parent` grants at least what `child` does.
pub open spec fn path_covers(parent: Seq<char>, child: Seq<char>) -> bool {
    ||| parent == child
    ||| parent == "/**"@
    ||| is_tree(parent) && under(tree_base(child), tree_base(parent))
}

/// The path pattern allows `path`: `/**` any path, `<base>/**` the base and all
/// under it, any other pattern the path that is spelled like it.
pub open spec fn path_allows(pattern: Seq<char>, path: Seq<char>) -> bool {
    ||| pattern == "/**"@
    ||| if is_tree(pattern) {
        under(path, tree_base(pattern))
    } else {
        pattern == path
    }
}

/// The skill pattern is the text itself, or ends in `*` and the text begins with
/// what stands before the star.
pub open spec fn skill_covers(pattern: Seq<char>, text: Seq<char>) -> bool {
    ||| pattern == text
    ||| "*"@.is_suffix_of(pattern) && pattern.take(pattern.len() - 1).is_prefix_of(text)
}

/// One of the network patterns covers `child`.
pub open spec fn network_covered(child: Seq<char>, parents: Seq<Seq<char>>) -> bool {
    exists|i: int| 0 <= i < parents.len() && network_covers(#[trigger] parents[i], child)
}

/// One of the path patterns covers `child`.
pub open spec fn path_covered(child: Seq<char>, parents: Seq<Seq<char>>) -> bool {
    exists|i: int| 0 <= i < parents.len() && path_covers(#[trigger] parents[i], child)
}

/// One of the skill patterns covers `text`.
pub open spec fn skill_covered(text: Seq<char>, patterns: Seq<Seq<char>>) -> bool {
    exists|i: int| 0 <= i < patterns.len() && skill_covers(#[trigger] patterns[i], text)
}

/// One of the network patterns allows `host`.
pub open spec fn network_allowed(patterns: Seq<Seq<char>>, host: Seq<char>) -> bool {
    exists|i: int| 0 <= i < patterns.len() && network_allows(#[trigger] patterns[i], host)
}

/// One of the path patterns allows `path`.
pub open spec fn path_allowed(patterns: Seq<Seq<char>>, path: Seq<char>) -> bool {
    exists|i: int| 0 <= i < patterns.len() && path_allows(#[trigger] patterns[i], path)
}

/// Every text of `xs` is in `ys`.
pub open spec fn all_in(xs: Seq<Seq<char>>, ys: Seq<Seq<char>>) -> bool {
    forall|i: int| 0 <= i < xs.len() ==> ys.contains(#[trigger] xs[i])
}

/// Every path pattern of `xs` is covered by one of `ys`.
pub open spec fn paths_within(xs: Seq<Seq<char>>, ys: Seq<Seq<char>>) -> bool {
    forall|i: int| 0 <= i < xs.len() ==> path_covered(#[trigger] xs[i], ys)
}

/// Every scope of `xs` lies within a scope of `ys`.
pub open spec fn scopes_within(xs: Seq<Seq<char>>, ys: Seq<Seq<char>>) -> bool {
    forall|i: int| 0 <= i < xs.len() ==> in_scope(#[trigger] xs[i], ys)
}

/// A skill pattern that no skill matches. It stands in a list that grants no skill, because
/// the empty list grants them all.
pub open spec fn no_skill() -> Seq<char> {
    Seq::empty()
}

/// The skill pattern `child` may stand under the list `parents`: the list is empty and allows
/// every skill, the pattern matches no skill, or one of the list covers it.
pub open spec fn skill_within(child: Seq<char>, parents: Seq<Seq<char>>) -> bool {
    parents.len() == 0 || child == no_skill() || skill_covered(child, parents)
}

/// `child` grants nothing that `parent` does not: the rule for narrowing a token
/// when an agent spawns another one.
///
/// An empty list of skill patterns allows every skill, so it may only stand under
/// an empty one, and every list may stand under it.
pub open spec fn subset_of(child: TokenView, parent: TokenView) -> bool {
    &&& child.shell ==> parent.shell
    &&& child.javascript ==> parent.javascript
    &&& child.python ==> parent.python
    &&& forall|i: int|
        0 <= i < child.network.len() ==> network_covered(#[trigger] child.network[i], parent.network)
    &&& all_in(child.spawn_types, parent.spawn_types)
    &&& all_in(child.mcp_tools, parent.mcp_tools)
    &&& paths_within(child.paths_write, parent.paths_write)
    &&& paths_within(child.paths_read, parent.paths_read)
    &&& child.skill_patterns.len() == 0 ==> parent.skill_patterns.len() == 0
    &&& forall|i: int|
        0 <= i < child.skill_patterns.len() ==> skill_within(
            #[trigger] child.skill_patterns[i],
            parent.skill_patterns,
        )
    &&& child.memory.enabled ==> parent.memory.enabled
    &&& scopes_within(child.memory.search_scopes, parent.memory.search_scopes)
    &&& scopes_within(child.memory.write_scopes, parent.memory.write_scopes)
}

// ---- Coverage ----------------------------------------------------------------

/// The pattern without its optional `net:` prefix.
fn without_net_prefix(pattern: &str) -> (r: &str)
    ensures
        r@ == host_pattern(pattern@),
{
    proof {
        reveal_strlit("net:");
    }
    match strip_prefix(pattern, "net:") {
        Some(rest) => rest,
        None => pattern,
    }
}

/// What stands in `host` before the domain of `*.<domain>`, where one label does.
fn label_below<'a>(pattern: &str, host: &'a str) -> (r: Option<&'a str>)
    ensures
        match r {
            Some(label) => one_label_below(pattern@, host@) && label@ == label_before(pattern@, host@),
            None => !one_label_below(pattern@, host@),
        },
{
    proof {
        reveal_strlit("*.");
    }
    if !starts_with(pattern, "*.") {
        return None;
    }
    let suffix = skip(pattern, 1);
    match strip_suffix(host, suffix) {
        Some(label) => if has_char(label, '.') {
            None
        } else {
            Some(label)
        },
        None => None,
    }
}

/// Check if a child network permission is covered by a parent.
fn network_perm_covered_by(child: &str, parent: &str) -> (r: bool)
    ensures
        r == network_covers(parent@, child@),
{
    let child_pat = without_net_prefix(child);
    let parent_pat = without_net_prefix(parent);
    if *parent_pat == *"*" {
        return true;
    }
    if *parent_pat == *child_pat {
        return true;
    }
    match label_below(parent_pat, child_pat) {
        Some(label) => !starts_with(label, "*"),
        None => false,
    }
}

/// Check if a network permission is covered by one of the list.
fn network_covered_by_any(child: &str, parents: &Vec<NetworkPermission>) -> (r: bool)
    ensures
        r == network_covered(child@, texts(parents@)),
{
    let mut i: usize = 0;
    while i < parents.len()
        invariant
            i <= parents@.len(),
            forall|j: int| 0 <= j < i ==> !network_covers(#[trigger] texts(parents@)[j], child@),
        decreases parents@.len() - i,
    {
        if network_perm_covered_by(child, parents[i].0.as_str()) {
            assert(network_covers(texts(parents@)[i as int], child@));
            return true;
        }
        i = i + 1;
    }
    false
}

/// The base of a path pattern.
fn base_of(pattern: &str) -> (r: &str)
    ensures
        r@ == tree_base(pattern@),
{
    proof {
        reveal_strlit("/**");
    }
    match strip_suffix(pattern, "/**") {
        Some(base) => base,
        None => pattern,
    }
}

/// Check if a child path pattern is covered by any parent pattern using glob
/// semantics: `/workspace/project/**` is covered by `/workspace/**`.
fn path_pattern_covered_by(child: &str, parents: &Vec<PathPattern>) -> (r: bool)
    ensures
        r == path_covered(child@, texts(parents@)),
{
    let mut i: usize = 0;
    while i < parents.len()
        invariant
            i <= parents@.len(),
            forall|j: int| 0 <= j < i ==> !path_covers(#[trigger] texts(parents@)[j], child@),
        decreases parents@.len() - i,
    {
        let parent: &str = parents[i].0.as_str();
        let covers = *parent == *child || *parent == *"/**" || (ends_with(parent, "/**") && is_under(
            base_of(child),
            base_of(parent),
        ));
        assert(covers == path_covers(texts(parents@)[i as int], child@));
        if covers {
            return true;
        }
        i = i + 1;
    }
    false
}

/// Check if a skill pattern or name is covered by any of the patterns.
fn skill_covered_by_any(text: &str, patterns: &Vec<String>) -> (r: bool)
    ensures
        r == skill_covered(text@, texts(patterns@)),
{
    proof {
        reveal_strlit("*");
    }
    let mut i: usize = 0;
    while i < patterns.len()
        invariant
            i <= patterns@.len(),
            "*"@.len() == 1,
            forall|j: int| 0 <= j < i ==> !skill_covers(#[trigger] texts(patterns@)[j], text@),
        decreases patterns@.len() - i,
    {
        let pattern: &str = patterns[i].as_str();
        let covers = if *pattern == *text {
            true
        } else {
            match strip_suffix(pattern, "*") {
                Some(prefix) => starts_with(text, prefix),
                None => false,
            }
        };
        assert(covers == skill_covers(texts(patterns@)[i as int], text@));
        if covers {
            return true;
        }
        i = i + 1;
    }
    false
}

/// Whether the list `ys` holds every text of `xs`.
fn all_held(xs: &Vec<String>, ys: &Vec<String>) -> (r: bool)
    ensures
        r == all_in(texts(xs@), texts(ys@)),
{
    let mut i: usize = 0;
    while i < xs.len()
        invariant
            i <= xs@.len(),
            forall|j: int| 0 <= j < i ==> texts(ys@).contains(#[trigger] texts(xs@)[j]),
        decreases xs@.len() - i,
    {
        if !holds(ys, xs[i].as_str()) {
            assert(!texts(ys@).contains(texts(xs@)[i as int]));
            return false;
        }
        i = i + 1;
    }
    true
}

/// Whether every path pattern of `xs` is covered by one of `ys`.
fn all_paths_covered(xs: &Vec<PathPattern>, ys: &Vec<PathPattern>) -> (r: bool)
    ensures
        r == paths_within(texts(xs@), texts(ys@)),
{
    let mut i: usize = 0;
    while i < xs.len()
        invariant
            i <= xs@.len(),
            forall|j: int| 0 <= j < i ==> path_covered(#[trigger] texts(xs@)[j], texts(ys@)),
        decreases xs@.len() - i,
    {
        if !path_pattern_covered_by(xs[i].0.as_str(), ys) {
            assert(!path_covered(texts(xs@)[i as int], texts(ys@)));
            return false;
        }
        i = i + 1;
    }
    true
}

/// Whether every scope of `xs` lies within a scope of `ys`.
fn all_scopes_within(xs: &Vec<MemoryPath>, ys: &Vec<MemoryPath>) -> (r: bool)
    ensures
        r == scopes_within(texts(xs@), texts(ys@)),
{
    let mut i: usize = 0;
    while i < xs.len()
        invariant
            i <= xs@.len(),
            forall|j: int| 0 <= j < i ==> in_scope(#[trigger] texts(xs@)[j], texts(ys@)),
        decreases xs@.len() - i,
    {
        if !within_scopes(&xs[i], ys) {
            assert(!in_scope(texts(xs@)[i as int], texts(ys@)));
            return false;
        }
        i = i + 1;
    }
    true
}

impl CapabilityToken {
    /// Check if this token is a valid subset of `parent`.
    /// Used for capability attenuation on sub-agent spawn.
    pub fn is_subset_of(&self, parent: &CapabilityToken) -> (r: bool)
        ensures
            r == subset_of(self@, parent@),
    {
        if self.shell && !parent.shell {
            return false;
        }
        if self.javascript && !parent.javascript {
            return false;
        }
        if self.python && !parent.python {
            return false;
        }
        let mut i: usize = 0;
        while i < self.network.len()
            invariant
                i <= self.network@.len(),
                forall|j: int| 0 <= j < i ==> network_covered(#[trigger] self@.network[j], parent@.network),
            decreases self.network@.len() - i,
        {
            if !network_covered_by_any(self.network[i].0.as_str(), &parent.network) {
                assert(!network_covered(self@.network[i as int], parent@.network));
                return false;
            }
            i = i + 1;
        }
        if !all_held(&self.spawn_types, &parent.spawn_types) {
            return false;
        }
        if !all_held(&self.mcp_tools, &parent.mcp_tools) {
            return false;
        }
        if !all_paths_covered(&self.paths_write, &parent.paths_write) {
            return false;
        }
        if !all_paths_covered(&self.paths_read, &parent.paths_read) {
            return false;
        }
        if self.skill_patterns.is_empty() && !parent.skill_patterns.is_empty() {
            return false;
        }
        let mut k: usize = 0;
        while k < self.skill_patterns.len()
            invariant
                k <= self.skill_patterns@.len(),
                forall|j: int|
                    0 <= j < k ==> skill_within(#[trigger] self@.skill_patterns[j], parent@.skill_patterns),
            decreases self.skill_patterns@.len() - k,
        {
            let pattern: &str = self.skill_patterns[k].as_str();
            let within = parent.skill_patterns.is_empty() || pattern.is_empty() || skill_covered_by_any(
                pattern,
                &parent.skill_patterns,
            );
            proof {
                assert(pattern@.len() == 0 <==> pattern@ =~= no_skill());
                assert(within == skill_within(self@.skill_patterns[k as int], parent@.skill_patterns));
            }
            if !within {
                return false;
            }
            k = k + 1;
        }
        if self.memory.enabled && !parent.memory.enabled {
            return false;
        }
        all_scopes_within(&self.memory.search_scopes, &parent.memory.search_scopes)
            && all_scopes_within(&self.memory.write_scopes, &parent.memory.write_scopes)
    }
}

// ---- Intersection ------------------------------------------------------------

/// `acc`, and after it each text of `xs` that `keep` accepts and that is not there
/// yet.
pub open spec fn add_kept(
    acc: Seq<Seq<char>>,
    xs: Seq<Seq<char>>,
    keep: spec_fn(Seq<char>) -> bool,
) -> Seq<Seq<char>>
    decreases xs.len(),
{
    if xs.len() == 0 {
        acc
    } else {
        let before = add_kept(acc, xs.drop_last(), keep);
        if keep(xs.last()) && !before.contains(xs.last()) {
            before.push(xs.last())
        } else {
            before
        }
    }
}

/// What one of the network patterns covers.
pub open spec fn within_network(parents: Seq<Seq<char>>) -> spec_fn(Seq<char>) -> bool {
    |child: Seq<char>| network_covered(child, parents)
}

/// What one of the path patterns covers.
pub open spec fn within_paths(parents: Seq<Seq<char>>) -> spec_fn(Seq<char>) -> bool {
    |child: Seq<char>| path_covered(child, parents)
}

/// What lies within one of the scopes.
pub open spec fn within_any_scope(parents: Seq<Seq<char>>) -> spec_fn(Seq<char>) -> bool {
    |child: Seq<char>| in_scope(child, parents)
}

/// The texts that `ys` holds.
pub open spec fn held_by(ys: Seq<Seq<char>>) -> spec_fn(Seq<char>) -> bool {
    |x: Seq<char>| ys.contains(x)
}

/// The narrower of each two network patterns, one of either list, each once: first
/// those of `a`, then those of `b`.
pub open spec fn network_meet(a: Seq<Seq<char>>, b: Seq<Seq<char>>) -> Seq<Seq<char>> {
    add_kept(add_kept(Seq::empty(), a, within_network(b)), b, within_network(a))
}

/// The same for path patterns.
pub open spec fn path_meet(a: Seq<Seq<char>>, b: Seq<Seq<char>>) -> Seq<Seq<char>> {
    add_kept(add_kept(Seq::empty(), a, within_paths(b)), b, within_paths(a))
}

/// The same for memory scopes.
pub open spec fn scope_meet(a: Seq<Seq<char>>, b: Seq<Seq<char>>) -> Seq<Seq<char>> {
    add_kept(add_kept(Seq::empty(), a, within_any_scope(b)), b, within_any_scope(a))
}

/// The skill patterns of both lists, where an empty list allows every skill. Lists that share
/// no pattern leave one that no skill matches.
pub open spec fn skill_meet(a: Seq<Seq<char>>, b: Seq<Seq<char>>) -> Seq<Seq<char>> {
    if a.len() == 0 {
        b
    } else if b.len() == 0 {
        a
    } else if a.filter(held_by(b)).len() == 0 {
        seq![no_skill()]
    } else {
        a.filter(held_by(b))
    }
}

/// What both tokens grant.
pub open spec fn meet(a: TokenView, b: TokenView) -> TokenView {
    TokenView {
        network: network_meet(a.network, b.network),
        mcp_tools: a.mcp_tools.filter(held_by(b.mcp_tools)),
        shell: a.shell && b.shell,
        javascript: a.javascript && b.javascript,
        python: a.python && b.python,
        paths_write: path_meet(a.paths_write, b.paths_write),
        paths_read: path_meet(a.paths_read, b.paths_read),
        spawn_types: a.spawn_types.filter(held_by(b.spawn_types)),
        skill_patterns: skill_meet(a.skill_patterns, b.skill_patterns),
        memory: MemoryCapabilityView {
            enabled: a.memory.enabled && b.memory.enabled,
            search_scopes: scope_meet(a.memory.search_scopes, b.memory.search_scopes),
            write_scopes: scope_meet(a.memory.write_scopes, b.memory.write_scopes),
        },
    }
}

/// Adds the permissions of `xs` that one of `ys` covers, each once.
fn keep_network(acc: Vec<NetworkPermission>, xs: &Vec<NetworkPermission>, ys: &Vec<NetworkPermission>) -> (r: Vec<NetworkPermission>)
    ensures
        texts(r@) == add_kept(texts(acc@), texts(xs@), within_network(texts(ys@))),
{
    let ghost start = texts(acc@);
    let mut out: Vec<NetworkPermission> = acc;
    let mut i: usize = 0;
    assert(texts(xs@).take(0) =~= Seq::<Seq<char>>::empty());
    while i < xs.len()
        invariant
            i <= xs@.len(),
            texts(out@) == add_kept(start, texts(xs@).take(i as int), within_network(texts(ys@))),
        decreases xs@.len() - i,
    {
        let ghost was = texts(out@);
        assert(texts(xs@).take(i + 1).drop_last() =~= texts(xs@).take(i as int));
        if network_covered_by_any(xs[i].as_text(), ys) && !holds(&out, xs[i].as_text()) {
            out.push(xs[i].duplicate());
            assert(texts(out@) =~= was.push(xs@[i as int].text()));
        }
        i = i + 1;
    }
    assert(texts(xs@).take(i as int) =~= texts(xs@));
    out
}

/// Adds the patterns of `xs` that one of `ys` covers, each once.
fn keep_paths(acc: Vec<PathPattern>, xs: &Vec<PathPattern>, ys: &Vec<PathPattern>) -> (r: Vec<PathPattern>)
    ensures
        texts(r@) == add_kept(texts(acc@), texts(xs@), within_paths(texts(ys@))),
{
    let ghost start = texts(acc@);
    let mut out: Vec<PathPattern> = acc;
    let mut i: usize = 0;
    assert(texts(xs@).take(0) =~= Seq::<Seq<char>>::empty());
    while i < xs.len()
        invariant
            i <= xs@.len(),
            texts(out@) == add_kept(start, texts(xs@).take(i as int), within_paths(texts(ys@))),
        decreases xs@.len() - i,
    {
        let ghost was = texts(out@);
        assert(texts(xs@).take(i + 1).drop_last() =~= texts(xs@).take(i as int));
        if path_pattern_covered_by(xs[i].as_text(), ys) && !holds(&out, xs[i].as_text()) {
            out.push(xs[i].duplicate());
            assert(texts(out@) =~= was.push(xs@[i as int].text()));
        }
        i = i + 1;
    }
    assert(texts(xs@).take(i as int) =~= texts(xs@));
    out
}

/// Adds the scopes of `xs` that lie within one of `ys`, each once.
fn keep_scopes(acc: Vec<MemoryPath>, xs: &Vec<MemoryPath>, ys: &Vec<MemoryPath>) -> (r: Vec<MemoryPath>)
    ensures
        texts(r@) == add_kept(texts(acc@), texts(xs@), within_any_scope(texts(ys@))),
{
    let ghost start = texts(acc@);
    let mut out: Vec<MemoryPath> = acc;
    let mut i: usize = 0;
    assert(texts(xs@).take(0) =~= Seq::<Seq<char>>::empty());
    while i < xs.len()
        invariant
            i <= xs@.len(),
            texts(out@) == add_kept(start, texts(xs@).take(i as int), within_any_scope(texts(ys@))),
        decreases xs@.len() - i,
    {
        let ghost was = texts(out@);
        assert(texts(xs@).take(i + 1).drop_last() =~= texts(xs@).take(i as int));
        if within_scopes(&xs[i], ys) && !holds(&out, xs[i].as_text()) {
            out.push(xs[i].duplicate());
            assert(texts(out@) =~= was.push(xs@[i as int].text()));
        }
        i = i + 1;
    }
    assert(texts(xs@).take(i as int) =~= texts(xs@));
    out
}

/// Intersect two sets of network permissions using subset-aware logic.
fn intersect_network_perms(a: &Vec<NetworkPermission>, b: &Vec<NetworkPermission>) -> (r: Vec<NetworkPermission>)
    ensures
        texts(r@) == network_meet(texts(a@), texts(b@)),
{
    let none: Vec<NetworkPermission> = Vec::new();
    assert(texts(none@) =~= Seq::empty());
    keep_network(keep_network(none, a, b), b, a)
}

/// Intersect two sets of path patterns: a pattern of either side is kept if some
/// pattern of the other covers it.
fn intersect_path_patterns(a: &Vec<PathPattern>, b: &Vec<PathPattern>) -> (r: Vec<PathPattern>)
    ensures
        texts(r@) == path_meet(texts(a@), texts(b@)),
{
    let none: Vec<PathPattern> = Vec::new();
    assert(texts(none@) =~= Seq::empty());
    keep_paths(keep_paths(none, a, b), b, a)
}

/// Prefix-aware intersection of two memory scope lists: a scope is kept if it is
/// at or under some scope of the other list.
fn intersect_memory_scopes(a: &Vec<MemoryPath>, b: &Vec<MemoryPath>) -> (r: Vec<MemoryPath>)
    ensures
        texts(r@) == scope_meet(texts(a@), texts(b@)),
{
    let none: Vec<MemoryPath> = Vec::new();
    assert(texts(none@) =~= Seq::empty());
    keep_scopes(keep_scopes(none, a, b), b, a)
}

/// The texts of `xs` that `ys` holds too.
fn in_both(xs: &Vec<String>, ys: &Vec<String>) -> (r: Vec<String>)
    ensures
        texts(r@) == texts(xs@).filter(held_by(texts(ys@))),
{
    let mut out: Vec<String> = Vec::new();
    let mut i: usize = 0;
    let ghost keep = held_by(texts(ys@));
    proof {
        reveal(Seq::filter);
        assert(texts(xs@).take(0) =~= Seq::<Seq<char>>::empty());
        assert(texts(out@) =~= texts(xs@).take(0).filter(keep));
    }
    while i < xs.len()
        invariant
            i <= xs@.len(),
            keep == held_by(texts(ys@)),
            texts(out@) == texts(xs@).take(i as int).filter(keep),
        decreases xs@.len() - i,
    {
        let ghost was = texts(out@);
        proof {
            reveal(Seq::filter);
            assert(texts(xs@).take(i + 1).drop_last() =~= texts(xs@).take(i as int));
        }
        if holds(ys, xs[i].as_str()) {
            out.push(xs[i].clone());
            assert(texts(out@) =~= was.push(xs@[i as int]@));
        }
        i = i + 1;
    }
    assert(texts(xs@).take(i as int) =~= texts(xs@));
    out
}

/// The skill patterns, or one that no skill matches where there are none.
fn some_skills(patterns: Vec<String>) -> (r: Vec<String>)
    ensures
        texts(r@) == if patterns@.len() == 0 {
            seq![no_skill()]
        } else {
            texts(patterns@)
        },
{
    if patterns.is_empty() {
        let mut none: Vec<String> = Vec::new();
        none.push(copy(""));
        proof {
            reveal_strlit("");
            assert(""@ =~= no_skill());
            assert(texts(none@) =~= seq![no_skill()]);
        }
        none
    } else {
        patterns
    }
}

impl CapabilityToken {
    /// Compute the intersection of two capability tokens.
    ///
    /// For booleans, AND. For lists, the items that both sides grant, with
    /// patterns and scopes narrowed to the narrower one. The result is the most
    /// restrictive combination of both tokens.
    pub fn intersect(&self, other: &CapabilityToken) -> (r: CapabilityToken)
        ensures
            r@ == meet(self@, other@),
    {
        CapabilityToken {
            network: intersect_network_perms(&self.network, &other.network),
            mcp_tools: in_both(&self.mcp_tools, &other.mcp_tools),
            shell: self.shell && other.shell,
            javascript: self.javascript && other.javascript,
            python: self.python && other.python,
            paths_write: intersect_path_patterns(&self.paths_write, &other.paths_write),
            paths_read: intersect_path_patterns(&self.paths_read, &other.paths_read),
            spawn_types: in_both(&self.spawn_types, &other.spawn_types),
            skill_patterns: if self.skill_patterns.is_empty() {
                copy_all(&other.skill_patterns)
            } else if other.skill_patterns.is_empty() {
                copy_all(&self.skill_patterns)
            } else {
                some_skills(in_both(&self.skill_patterns, &other.skill_patterns))
            },
            memory: MemoryCapability {
                enabled: self.memory.enabled && other.memory.enabled,
                search_scopes: intersect_memory_scopes(
                    &self.memory.search_scopes,
                    &other.memory.search_scopes,
                ),
                write_scopes: intersect_memory_scopes(
                    &self.memory.write_scopes,
                    &other.memory.write_scopes,
                ),
            },
        }
    }
}

// ---- Checks ------------------------------------------------------------------

/// Error returned when a capability check fails.
#[derive(Debug, Clone)]
pub struct CapabilityDenied {
    pub operation: String,
    pub reason: String,
}

/// What a denial says.
#[verifier::ext_equal]
pub struct DeniedView {
    pub operation: Seq<char>,
    pub reason: Seq<char>,
}

impl View for CapabilityDenied {
    type V = DeniedView;

    open spec fn view(&self) -> DeniedView {
        DeniedView { operation: self.operation@, reason: self.reason@ }
    }
}

/// The text of a denial.
pub open spec fn denied_message(e: DeniedView) -> Seq<char> {
    "capability denied: "@ + e.operation + " — "@ + e.reason
}

impl CapabilityDenied {
    /// What the error says.
    pub fn to_string(&self) -> (r: String)
        ensures
            r@ == denied_message(self@),
    {
        let mut out = copy("capability denied: ");
        out.append(self.operation.as_str());
        out.append(" — ");
        out.append(self.reason.as_str());
        out
    }
}

/// The outcome of a check: `denial` is what it denies with, where it does.
pub open spec fn answers(r: Result<(), CapabilityDenied>, denial: Option<DeniedView>) -> bool {
    match r {
        Ok(()) => denial is None,
        Err(d) => denial == Some(d@),
    }
}

fn denied(operation: &str, reason: String) -> (r: CapabilityDenied)
    ensures
        r@ == (DeniedView { operation: operation@, reason: reason@ }),
{
    CapabilityDenied { operation: copy(operation), reason }
}

/// The canonical form of a path; one that does not start with a slash stays
/// relative.
pub open spec fn plain_path(path: Seq<char>) -> Seq<char> {
    if path.len() > 0 && path[0] == '/' {
        normalized(path)
    } else {
        join_with(components(path), '/')
    }
}

/// Normalize a filesystem path by resolving `.`, `..`, and duplicate `/` segments.
/// `..` does not go above the root, and the leading `/` of an absolute path stays.
fn normalize_path(path: &str) -> (r: String)
    ensures
        r@ == plain_path(path@),
{
    let absolute = normalize(path);
    proof {
        reveal_strlit("/");
        assert("/"@.is_prefix_of(path@) == (path@.len() > 0 && path@[0] == '/')) by {
            if path@.len() > 0 && path@[0] == '/' {
                assert("/"@ =~= path@.subrange(0, 1));
            } else if "/"@.is_prefix_of(path@) {
                assert(path@.subrange(0, 1)[0] == '/');
            }
        }
        assert(normalized(path@).skip(1) =~= join_with(components(path@), '/'));
    }
    if starts_with(path, "/") {
        absolute
    } else {
        copy(skip(absolute.as_str(), 1))
    }
}

/// Check whether a path matches any of the given glob-style patterns. An empty
/// list matches nothing.
fn path_matches(patterns: &Vec<PathPattern>, path: &str) -> (r: bool)
    ensures
        r == path_allowed(texts(patterns@), path@),
{
    let mut i: usize = 0;
    while i < patterns.len()
        invariant
            i <= patterns@.len(),
            forall|j: int| 0 <= j < i ==> !path_allows(#[trigger] texts(patterns@)[j], path@),
        decreases patterns@.len() - i,
    {
        let pattern: &str = patterns[i].0.as_str();
        let allows = *pattern == *"/**" || if ends_with(pattern, "/**") {
            is_under(path, base_of(pattern))
        } else {
            *pattern == *path
        };
        assert(allows == path_allows(texts(patterns@)[i as int], path@));
        if allows {
            return true;
        }
        i = i + 1;
    }
    false
}

/// What a read of the memory path `path` is denied with.
pub open spec fn memory_read_denial(memory: MemoryCapabilityView, path: Seq<char>) -> Option<DeniedView> {
    match parsed_memory_path(path) {
        Err(e) => Some(
            DeniedView {
                operation: "read_file"@,
                reason: "invalid memory path '"@ + path + "': "@ + e.message(),
            },
        ),
        Ok(p) => if memory.enabled && in_scope(p, memory.search_scopes) {
            None
        } else {
            Some(
                DeniedView {
                    operation: "read_file"@,
                    reason: "memory read denied for "@ + path
                        + ": not in any MemoryCapability.search_scopes"@,
                },
            )
        },
    }
}

/// What a write of the memory path `path` is denied with. Nothing under `/mnt` can
/// be written.
pub open spec fn memory_write_denial(memory: MemoryCapabilityView, path: Seq<char>) -> Option<DeniedView> {
    match parsed_memory_path(path) {
        Err(e) => Some(
            DeniedView {
                operation: "write_file"@,
                reason: "invalid memory path '"@ + path + "': "@ + e.message(),
            },
        ),
        Ok(p) => if under(p, "/mnt"@) {
            Some(
                DeniedView {
                    operation: "write_file"@,
                    reason: "memory write denied for "@ + path + ": /mnt is admin-ingested only"@,
                },
            )
        } else if memory.enabled && in_scope(p, memory.write_scopes) {
            None
        } else {
            Some(
                DeniedView {
                    operation: "write_file"@,
                    reason: "memory write denied for "@ + path
                        + ": not in any MemoryCapability.write_scopes"@,
                },
            )
        },
    }
}

/// What reading `raw` is denied with. Memory paths go by the memory capability
/// alone, all others by the read patterns.
pub open spec fn read_denial(token: TokenView, raw: Seq<char>) -> Option<DeniedView> {
    let path = plain_path(raw);
    if is_memory_path(path) {
        memory_read_denial(token.memory, path)
    } else if path_allowed(token.paths_read, path) {
        None
    } else {
        Some(DeniedView { operation: "read_file"@, reason: "read access denied for "@ + path })
    }
}

/// What writing `raw` is denied with.
pub open spec fn write_denial(token: TokenView, raw: Seq<char>) -> Option<DeniedView> {
    let path = plain_path(raw);
    if is_memory_path(path) {
        memory_write_denial(token.memory, path)
    } else if path_allowed(token.paths_write, path) {
        None
    } else {
        Some(DeniedView { operation: "write_file"@, reason: "write access denied for "@ + path })
    }
}

/// What the skill `name` is denied with.
pub open spec fn skill_denial(token: TokenView, name: Seq<char>) -> Option<DeniedView> {
    if token.skill_patterns.len() == 0 || skill_covered("skill:"@ + name, token.skill_patterns) {
        None
    } else {
        Some(
            DeniedView {
                operation: "skill:"@ + name,
                reason: "skill "@ + quoted(name) + " not allowed by capability token"@,
            },
        )
    }
}

/// What a request to `host` is denied with.
pub open spec fn network_denial(token: TokenView, host: Seq<char>) -> Option<DeniedView> {
    if network_allowed(token.network, host) {
        None
    } else {
        Some(DeniedView { operation: "network:"@ + host, reason: "no network permission for "@ + host })
    }
}

/// What an operation that one flag grants is denied with.
pub open spec fn flag_denial(granted: bool, operation: Seq<char>, reason: Seq<char>) -> Option<DeniedView> {
    if granted {
        None
    } else {
        Some(DeniedView { operation, reason })
    }
}

fn check_memory_path_read(memory: &MemoryCapability, path: &str) -> (r: Result<(), CapabilityDenied>)
    ensures
        answers(r, memory_read_denial(memory@, path@)),
{
    match MemoryPath::parse(path) {
        Err(e) => {
            let mut reason = concat3("invalid memory path '", path, "': ");
            reason.append(e.to_string().as_str());
            Err(denied("read_file", reason))
        },
        Ok(parsed) => if memory.can_read(&parsed) {
            Ok(())
        } else {
            Err(
                denied(
                    "read_file",
                    concat3(
                        "memory read denied for ",
                        path,
                        ": not in any MemoryCapability.search_scopes",
                    ),
                ),
            )
        },
    }
}

fn check_memory_path_write(memory: &MemoryCapability, path: &str) -> (r: Result<(), CapabilityDenied>)
    ensures
        answers(r, memory_write_denial(memory@, path@)),
{
    match MemoryPath::parse(path) {
        Err(e) => {
            let mut reason = concat3("invalid memory path '", path, "': ");
            reason.append(e.to_string().as_str());
            Err(denied("write_file", reason))
        },
        Ok(parsed) => if parsed.is_mnt() {
            Err(
                denied(
                    "write_file",
                    concat3("memory write denied for ", path, ": /mnt is admin-ingested only"),
                ),
            )
        } else if memory.can_write(&parsed) {
            Ok(())
        } else {
            Err(
                denied(
                    "write_file",
                    concat3(
                        "memory write denied for ",
                        path,
                        ": not in any MemoryCapability.write_scopes",
                    ),
                ),
            )
        },
    }
}

impl CapabilityToken {
    /// Check if a shell command is allowed.
    pub fn check_shell(&self) -> (r: Result<(), CapabilityDenied>)
        ensures
            answers(r, flag_denial(self.shell, "shell"@, "shell capability not granted"@)),
    {
        if self.shell {
            Ok(())
        } else {
            Err(denied("shell", copy("shell capability not granted")))
        }
    }

    /// Check if reading the given path is allowed.
    ///
    /// Memory paths (`/var/memory/**` and `/mnt/**`) are gated by
    /// [`MemoryCapability::can_read`] instead of the `paths_read` patterns: with
    /// `paths_read = "/**"` an agent still reads no memory path that
    /// `search_scopes` does not grant. The path is normalized before it is
    /// checked, so `/workspace/../etc/secret` is checked as `/etc/secret`.
    pub fn check_path_read(&self, path: &str) -> (r: Result<(), CapabilityDenied>)
        ensures
            answers(r, read_denial(self@, path@)),
    {
        let path = normalize_path(path);
        if MemoryPath::is_memory_path_str(path.as_str()) {
            return check_memory_path_read(&self.memory, path.as_str());
        }
        if path_matches(&self.paths_read, path.as_str()) {
            Ok(())
        } else {
            Err(denied("read_file", concat("read access denied for ", path.as_str())))
        }
    }

    /// Check if writing the given path is allowed.
    ///
    /// Memory paths are gated by [`MemoryCapability::can_write`] instead of the
    /// `paths_write` patterns, and nothing under `/mnt` can be written: only the
    /// admin ingestion writes there. The path is normalized before it is checked.
    pub fn check_path_write(&self, path: &str) -> (r: Result<(), CapabilityDenied>)
        ensures
            answers(r, write_denial(self@, path@)),
    {
        let path = normalize_path(path);
        if MemoryPath::is_memory_path_str(path.as_str()) {
            return check_memory_path_write(&self.memory, path.as_str());
        }
        if path_matches(&self.paths_write, path.as_str()) {
            Ok(())
        } else {
            Err(denied("write_file", concat("write access denied for ", path.as_str())))
        }
    }

    /// Check if JavaScript execution is allowed.
    pub fn check_javascript(&self) -> (r: Result<(), CapabilityDenied>)
        ensures
            answers(r, flag_denial(self.javascript, "javascript"@, "javascript capability not granted"@)),
    {
        if self.javascript {
            Ok(())
        } else {
            Err(denied("javascript", copy("javascript capability not granted")))
        }
    }

    /// Check if Python execution is allowed.
    pub fn check_python(&self) -> (r: Result<(), CapabilityDenied>)
        ensures
            answers(r, flag_denial(self.python, "python"@, "python capability not granted"@)),
    {
        if self.python {
            Ok(())
        } else {
            Err(denied("python", copy("python capability not granted")))
        }
    }

    /// Check if a `skill:<name>` is allowed by the capability token.
    pub fn check_skill(&self, skill_name: &str) -> (r: Result<(), CapabilityDenied>)
        ensures
            answers(r, skill_denial(self@, skill_name@)),
    {
        if self.skill_patterns.is_empty() {
            return Ok(());
        }
        let target = concat("skill:", skill_name);
        if skill_covered_by_any(target.as_str(), &self.skill_patterns) {
            return Ok(());
        }
        Err(
            denied(
                target.as_str(),
                concat3(
                    "skill ",
                    debug_text(skill_name).as_str(),
                    " not allowed by capability token",
                ),
            ),
        )
    }

    /// Check if a network request to the given host is allowed.
    pub fn check_network(&self, host: &str) -> (r: Result<(), CapabilityDenied>)
        ensures
            answers(r, network_denial(self@, host@)),
    {
        let mut i: usize = 0;
        while i < self.network.len()
            invariant
                i <= self.network@.len(),
                forall|j: int| 0 <= j < i ==> !network_allows(#[trigger] self@.network[j], host@),
            decreases self.network@.len() - i,
        {
            let pattern: &str = self.network[i].0.as_str();
            let pat = without_net_prefix(pattern);
            let allows = *pattern == *"*" || *pat == *host || label_below(pat, host).is_some();
            assert(allows == network_allows(self@.network[i as int], host@));
            if allows {
                return Ok(());
            }
            i = i + 1;
        }
        Err(
            denied(
                concat("network:", host).as_str(),
                concat("no network permission for ", host),
            ),
        )
    }
}

} // verus!
