//! Laws of what a token grants, said of its patterns, lists and flags as they are spelled.
use crate::text::texts;
use crate::types::capability::{add_kept, held_by, host_pattern, is_tree, label_before, meet, network_allows, network_covered, network_covers, no_skill, one_label_below, path_allowed, path_allows, path_covered, path_covers, plain_path, skill_covered, skill_covers, skill_within, subset_of, tree_base, within_any_scope, within_network, within_paths, CapabilityDenied, CapabilityToken, PathPattern, TokenView};
use crate::types::memory::{in_scope, is_memory_path, parsed_memory_path, MemoryCapability, MemoryPath};
use vstd::prelude::*;

verus! {

broadcast use vstd::seq_lib::group_seq_properties;

// ---- Patterns ----------------------------------------------------------------

/// The network pattern says `host`, behind its optional `net:`.
pub open spec fn says(pattern: Seq<char>, host: Seq<char>) -> bool {
    pattern == "net:"@ + host || (pattern == host && !"net:"@.is_prefix_of(pattern))
}

/// `host` is one label and a dot before `domain`.
pub open spec fn below(label: Seq<char>, domain: Seq<char>, host: Seq<char>) -> bool {
    host == label + "."@ + domain && !label.contains('.')
}

/// The network pattern reaches `host`: it is the bare star, it says the host, or it says
/// `*.<domain>` and the host is one label below the domain.
pub open spec fn reaches(pattern: Seq<char>, host: Seq<char>) -> bool {
    ||| pattern == "*"@
    ||| says(pattern, host)
    ||| exists|label: Seq<char>, domain: Seq<char>|
        #[trigger] below(label, domain, host) && says(pattern, "*."@ + domain)
}

/// `path` is `top`, or goes on behind it with a slash.
pub open spec fn at_or_below(path: Seq<char>, top: Seq<char>) -> bool {
    path == top || (top + "/"@).is_prefix_of(path)
}

/// The path pattern opens `path`: it is `/**`, it is `<top>/**` and the path is at or below the
/// top, or it is no such pattern and is the path.
pub open spec fn opens(pattern: Seq<char>, path: Seq<char>) -> bool {
    ||| pattern == "/**"@
    ||| pattern == path && !"/**"@.is_suffix_of(pattern)
    ||| exists|top: Seq<char>| #[trigger] at_or_below(path, top) && pattern == top + "/**"@
}

/// The skill pattern is the text, or a beginning of it and a star.
pub open spec fn matches_skill(pattern: Seq<char>, text: Seq<char>) -> bool {
    pattern == text || exists|n: int| 0 <= n <= text.len() && pattern == #[trigger] text.take(n) + "*"@
}

proof fn lemma_says(pattern: Seq<char>, host: Seq<char>)
    ensures
        says(pattern, host) <==> host_pattern(pattern) == host,
{
    reveal_strlit("net:");
    if "net:"@.is_prefix_of(pattern) {
        assert(pattern =~= "net:"@ + pattern.skip(4));
        if pattern == "net:"@ + host {
            assert(pattern.skip(4) =~= host);
        }
    } else if pattern == "net:"@ + host {
        assert("net:"@ =~= pattern.subrange(0, 4));
    }
}

proof fn lemma_below(pattern: Seq<char>, host: Seq<char>)
    ensures
        one_label_below(pattern, host) <==> exists|label: Seq<char>, domain: Seq<char>|
            #[trigger] below(label, domain, host) && pattern == "*."@ + domain,
        forall|label: Seq<char>, domain: Seq<char>|
            #[trigger] below(label, domain, host) && pattern == "*."@ + domain ==> label == label_before(pattern, host),
{
    reveal_strlit("*.");
    reveal_strlit(".");
    if one_label_below(pattern, host) {
        let label = label_before(pattern, host);
        let domain = pattern.skip(2);
        assert(pattern =~= "*."@ + domain);
        assert(pattern.skip(1) =~= "."@ + domain);
        assert(host =~= label + "."@ + domain);
        assert(below(label, domain, host));
    }
    assert forall|label: Seq<char>, domain: Seq<char>|
        #[trigger] below(label, domain, host) && pattern == "*."@ + domain implies one_label_below(pattern, host)
        && label == label_before(pattern, host) by {
        assert(pattern.skip(1) =~= "."@ + domain);
        assert(pattern.subrange(0, 2) =~= "*."@);
        assert(label_before(pattern, host) =~= label);
        assert(pattern.skip(1) =~= host.subrange(host.len() - (domain.len() + 1), host.len() as int));
    }
}

proof fn lemma_reaches(pattern: Seq<char>, host: Seq<char>)
    ensures
        network_allows(pattern, host) <==> reaches(pattern, host),
{
    lemma_says(pattern, host);
    let bare = host_pattern(pattern);
    lemma_below(bare, host);
    if one_label_below(bare, host) {
        let (label, domain) = choose|label: Seq<char>, domain: Seq<char>|
            #[trigger] below(label, domain, host) && bare == "*."@ + domain;
        lemma_says(pattern, "*."@ + domain);
    }
    assert forall|label: Seq<char>, domain: Seq<char>|
        #[trigger] below(label, domain, host) && says(pattern, "*."@ + domain) implies network_allows(pattern, host) by {
        lemma_says(pattern, "*."@ + domain);
    }
}

proof fn lemma_at_or_below(path: Seq<char>, top: Seq<char>)
    ensures
        at_or_below(path, top) <==> crate::path::under(path, top),
{
    reveal_strlit("/");
    assert(top + "/"@ =~= top.push('/'));
}

proof fn lemma_opens(pattern: Seq<char>, path: Seq<char>)
    ensures
        path_allows(pattern, path) <==> opens(pattern, path),
{
    reveal_strlit("/**");
    if is_tree(pattern) {
        let top = tree_base(pattern);
        assert(pattern =~= top + "/**"@);
        lemma_at_or_below(path, top);
    }
    assert forall|top: Seq<char>| #[trigger] at_or_below(path, top) && pattern == top + "/**"@ implies path_allows(pattern, path) by {
        assert("/**"@ =~= pattern.subrange(pattern.len() - 3, pattern.len() as int));
        assert(tree_base(pattern) =~= top);
        lemma_at_or_below(path, top);
    }
}

proof fn lemma_matches(pattern: Seq<char>, text: Seq<char>)
    ensures
        skill_covers(pattern, text) <==> matches_skill(pattern, text),
{
    reveal_strlit("*");
    if pattern != text {
        if skill_covers(pattern, text) {
            let n = pattern.len() - 1;
            assert(pattern =~= text.take(n) + "*"@);
        }
        assert forall|n: int| 0 <= n <= text.len() && pattern == #[trigger] text.take(n) + "*"@ implies skill_covers(pattern, text) by {
            assert(pattern.take(pattern.len() - 1) =~= text.take(n));
            assert("*"@ =~= pattern.subrange(pattern.len() - 1, pattern.len() as int));
        }
    }
}

// ---- Checks ------------------------------------------------------------------

/// Shell, JavaScript and Python each go by their own flag, and a denial names the operation.
pub proof fn flags_go_by_themselves(token: CapabilityToken, r: Result<(), CapabilityDenied>)
    ensures
        call_ensures(CapabilityToken::check_shell, (&token,), r) ==> (r is Ok <==> token.shell) && (r matches Err(e) ==> e.operation@ == "shell"@),
        call_ensures(CapabilityToken::check_javascript, (&token,), r) ==> (r is Ok <==> token.javascript) && (r matches Err(e) ==> e.operation@ == "javascript"@),
        call_ensures(CapabilityToken::check_python, (&token,), r) ==> (r is Ok <==> token.python) && (r matches Err(e) ==> e.operation@ == "python"@),
{
}

/// A host may be asked exactly where one of the network patterns reaches it.
pub proof fn hosts_go_by_the_network_patterns(token: CapabilityToken, host: &str, r: Result<(), CapabilityDenied>)
    requires
        call_ensures(CapabilityToken::check_network, (&token, host), r),
    ensures
        r is Ok <==> exists|i: int| 0 <= i < token.network@.len() && reaches((#[trigger] token.network@[i]).0@, host@),
        r matches Err(e) ==> e.operation@ == "network:"@ + host@,
{
    let patterns = token@.network;
    assert forall|i: int| 0 <= i < patterns.len() implies network_allows(#[trigger] patterns[i], host@) == reaches(token.network@[i].0@, host@) by {
        lemma_reaches(patterns[i], host@);
    }
    if r is Ok {
        let i = choose|i: int| 0 <= i < patterns.len() && network_allows(#[trigger] patterns[i], host@);
        assert(reaches(token.network@[i].0@, host@));
    } else {
        assert forall|i: int| 0 <= i < token.network@.len() implies !reaches((#[trigger] token.network@[i]).0@, host@) by {
            assert(!network_allows(patterns[i], host@));
        }
    }
}

/// A skill may be used where no skill pattern stands, or one matches `skill:<name>`.
pub proof fn skills_go_by_the_skill_patterns(token: CapabilityToken, name: &str, r: Result<(), CapabilityDenied>)
    requires
        call_ensures(CapabilityToken::check_skill, (&token, name), r),
    ensures
        r is Ok <==> token.skill_patterns@.len() == 0 || exists|i: int|
            0 <= i < token.skill_patterns@.len() && matches_skill((#[trigger] token.skill_patterns@[i])@, "skill:"@ + name@),
        r matches Err(e) ==> e.operation@ == "skill:"@ + name@,
{
    let patterns = token@.skill_patterns;
    let text = "skill:"@ + name@;
    assert forall|i: int| 0 <= i < patterns.len() implies skill_covers(#[trigger] patterns[i], text) == matches_skill(token.skill_patterns@[i]@, text) by {
        lemma_matches(patterns[i], text);
    }
    if r is Ok && patterns.len() > 0 {
        let i = choose|i: int| 0 <= i < patterns.len() && skill_covers(#[trigger] patterns[i], text);
        assert(matches_skill(token.skill_patterns@[i]@, text));
    } else if r is Err {
        assert forall|i: int| 0 <= i < token.skill_patterns@.len() implies !matches_skill((#[trigger] token.skill_patterns@[i])@, text) by {
            assert(!skill_covers(patterns[i], text));
        }
    }
}

/// A path is one of the memory: `/var/memory`, `/mnt`, or below one of them.
pub open spec fn in_memory(path: Seq<char>) -> bool {
    at_or_below(path, "/var/memory"@) || at_or_below(path, "/mnt"@)
}

proof fn lemma_in_memory(path: Seq<char>)
    ensures
        is_memory_path(path) <==> in_memory(path),
{
    lemma_at_or_below(path, "/var/memory"@);
    lemma_at_or_below(path, "/mnt"@);
}

/// One of the patterns opens the path.
pub open spec fn some_opens(patterns: Seq<PathPattern>, path: Seq<char>) -> bool {
    exists|i: int| 0 <= i < patterns.len() && opens((#[trigger] patterns[i]).0@, path)
}

/// The path is at or below one of the scopes.
pub open spec fn some_holds(scopes: Seq<MemoryPath>, path: Seq<char>) -> bool {
    exists|i: int| 0 <= i < scopes.len() && at_or_below(path, (#[trigger] scopes[i])@)
}

proof fn lemma_some_opens(patterns: Seq<PathPattern>, path: Seq<char>)
    ensures
        path_allowed(texts(patterns), path) <==> some_opens(patterns, path),
{
    let all = texts(patterns);
    assert forall|i: int| 0 <= i < patterns.len() implies path_allows(#[trigger] all[i], path) == opens(patterns[i].0@, path) by {
        lemma_opens(all[i], path);
    }
    if path_allowed(all, path) {
        let i = choose|i: int| 0 <= i < all.len() && path_allows(#[trigger] all[i], path);
        assert(opens(patterns[i].0@, path));
    }
    if some_opens(patterns, path) {
        let i = choose|i: int| 0 <= i < patterns.len() && opens((#[trigger] patterns[i]).0@, path);
        assert(path_allows(all[i], path));
    }
}

proof fn lemma_some_holds(scopes: Seq<MemoryPath>, path: Seq<char>)
    ensures
        in_scope(path, texts(scopes)) <==> some_holds(scopes, path),
{
    let all = texts(scopes);
    assert forall|i: int| 0 <= i < scopes.len() implies crate::path::under(path, #[trigger] all[i]) == at_or_below(path, scopes[i]@) by {
        lemma_at_or_below(path, all[i]);
    }
    if in_scope(path, all) {
        let i = choose|i: int| 0 <= i < all.len() && crate::path::under(path, #[trigger] all[i]);
        assert(at_or_below(path, scopes[i]@));
    }
    if some_holds(scopes, path) {
        let i = choose|i: int| 0 <= i < scopes.len() && at_or_below(path, (#[trigger] scopes[i])@);
        assert(crate::path::under(path, all[i]));
    }
}

/// Reading goes by the plain form of the path: outside the memory by the read patterns alone,
/// in the memory by its search scopes alone, and only where it is enabled.
pub proof fn reading_goes_by_the_read_patterns(token: CapabilityToken, path: &str, r: Result<(), CapabilityDenied>)
    requires
        call_ensures(CapabilityToken::check_path_read, (&token, path), r),
    ensures
        !in_memory(plain_path(path@)) ==> (r is Ok <==> some_opens(token.paths_read@, plain_path(path@))),
        in_memory(plain_path(path@)) ==> (r is Ok <==> token.memory.enabled && (parsed_memory_path(plain_path(path@)) matches Ok(
            p,
        ) && some_holds(token.memory.search_scopes@, p))),
        r matches Err(e) ==> e.operation@ == "read_file"@,
{
    let p = plain_path(path@);
    lemma_in_memory(p);
    lemma_some_opens(token.paths_read@, p);
    if let Ok(q) = parsed_memory_path(p) {
        lemma_some_holds(token.memory.search_scopes@, q);
    }
}

/// Writing goes by the plain form of the path: outside the memory by the write patterns alone, in
/// the memory by its write scopes alone, only where it is enabled, and never under `/mnt`.
pub proof fn writing_goes_by_the_write_patterns(token: CapabilityToken, path: &str, r: Result<(), CapabilityDenied>)
    requires
        call_ensures(CapabilityToken::check_path_write, (&token, path), r),
    ensures
        !in_memory(plain_path(path@)) ==> (r is Ok <==> some_opens(token.paths_write@, plain_path(path@))),
        in_memory(plain_path(path@)) ==> (r is Ok <==> token.memory.enabled && (parsed_memory_path(plain_path(path@)) matches Ok(
            p,
        ) && !at_or_below(p, "/mnt"@) && some_holds(token.memory.write_scopes@, p))),
        r matches Err(e) ==> e.operation@ == "write_file"@,
{
    let p = plain_path(path@);
    lemma_in_memory(p);
    lemma_some_opens(token.paths_write@, p);
    if let Ok(q) = parsed_memory_path(p) {
        lemma_some_holds(token.memory.write_scopes@, q);
        lemma_at_or_below(q, "/mnt"@);
    }
}

/// The memory is read within its search scopes and written within its write scopes, where it is
/// enabled.
pub proof fn memory_goes_by_its_scopes(memory: MemoryCapability, path: MemoryPath, r: bool)
    ensures
        call_ensures(MemoryCapability::can_read, (&memory, &path), r) ==> (r <==> memory.enabled && some_holds(
            memory.search_scopes@,
            path@,
        )),
        call_ensures(MemoryCapability::can_write, (&memory, &path), r) ==> (r <==> memory.enabled && some_holds(
            memory.write_scopes@,
            path@,
        )),
{
    lemma_some_holds(memory.search_scopes@, path@);
    lemma_some_holds(memory.write_scopes@, path@);
}

// ---- Narrowing ---------------------------------------------------------------

/// The network pattern `wide` takes in the pattern `narrow`: it says the star, says the same, or
/// says `*.<domain>` where the other says one label without a star below the domain.
pub open spec fn takes_in_host(wide: Seq<char>, narrow: Seq<char>) -> bool {
    ||| says(wide, "*"@)
    ||| exists|host: Seq<char>| #[trigger] says(narrow, host) && says(wide, host)
    ||| exists|label: Seq<char>, domain: Seq<char>, host: Seq<char>|
        #![trigger below(label, domain, host), says(narrow, host)]
        below(label, domain, host) && says(narrow, host) && says(wide, "*."@ + domain) && !"*"@.is_prefix_of(label)
}

/// The path pattern `wide` takes in the pattern `narrow`: it is the same, it is `/**`, or it is
/// `<top>/**` and the other one, without its own `/**`, is at or below the top.
pub open spec fn takes_in_path(wide: Seq<char>, narrow: Seq<char>) -> bool {
    ||| wide == narrow
    ||| wide == "/**"@
    ||| exists|top: Seq<char>, place: Seq<char>|
        #[trigger] at_or_below(place, top) && wide == top + "/**"@ && (narrow == place + "/**"@ || (narrow == place
            && !"/**"@.is_suffix_of(narrow)))
}

/// One of the patterns takes in the pattern.
pub open spec fn some_takes_in_host(wide: Seq<Seq<char>>, narrow: Seq<char>) -> bool {
    exists|i: int| 0 <= i < wide.len() && takes_in_host(#[trigger] wide[i], narrow)
}

/// One of the patterns takes in the pattern.
pub open spec fn some_takes_in_path(wide: Seq<Seq<char>>, narrow: Seq<char>) -> bool {
    exists|i: int| 0 <= i < wide.len() && takes_in_path(#[trigger] wide[i], narrow)
}

/// One of the scopes is the scope or above it.
pub open spec fn some_scope_above(wide: Seq<Seq<char>>, narrow: Seq<char>) -> bool {
    exists|i: int| 0 <= i < wide.len() && at_or_below(narrow, #[trigger] wide[i])
}

/// One of the skill patterns matches the pattern.
pub open spec fn some_matches_skill(wide: Seq<Seq<char>>, narrow: Seq<char>) -> bool {
    exists|i: int| 0 <= i < wide.len() && matches_skill(#[trigger] wide[i], narrow)
}

proof fn lemma_takes_in_host(wide: Seq<char>, narrow: Seq<char>)
    ensures
        network_covers(wide, narrow) <==> takes_in_host(wide, narrow),
{
    let p = host_pattern(wide);
    let c = host_pattern(narrow);
    lemma_says(wide, "*"@);
    lemma_says(narrow, c);
    lemma_says(wide, c);
    lemma_below(p, c);
    assert forall|host: Seq<char>| #[trigger] says(narrow, host) implies host == c by {
        lemma_says(narrow, host);
    }
    if one_label_below(p, c) && !"*"@.is_prefix_of(label_before(p, c)) {
        let (label, domain) = choose|label: Seq<char>, domain: Seq<char>|
            #[trigger] below(label, domain, c) && p == "*."@ + domain;
        lemma_says(wide, "*."@ + domain);
        assert(below(label, domain, c) && says(narrow, c));
    }
    assert forall|label: Seq<char>, domain: Seq<char>, host: Seq<char>|
        #![trigger below(label, domain, host), says(narrow, host)]
        below(label, domain, host) && says(narrow, host) && says(wide, "*."@ + domain) && !"*"@.is_prefix_of(label) implies network_covers(wide, narrow) by {
        lemma_says(wide, "*."@ + domain);
        assert(below(label, domain, c) && p == "*."@ + domain);
    }
}

proof fn lemma_takes_in_path(wide: Seq<char>, narrow: Seq<char>)
    ensures
        path_covers(wide, narrow) <==> takes_in_path(wide, narrow),
{
    reveal_strlit("/**");
    if is_tree(wide) {
        let top = tree_base(wide);
        let place = tree_base(narrow);
        assert(wide =~= top + "/**"@);
        if is_tree(narrow) {
            assert(narrow =~= place + "/**"@);
        }
        lemma_at_or_below(place, top);
        if path_covers(wide, narrow) && wide != narrow && wide != "/**"@ {
            assert(at_or_below(place, top));
        }
    }
    assert forall|top: Seq<char>, place: Seq<char>|
        #[trigger] at_or_below(place, top) && wide == top + "/**"@ && (narrow == place + "/**"@ || (narrow == place
            && !"/**"@.is_suffix_of(narrow))) implies path_covers(wide, narrow) by {
        assert("/**"@ =~= wide.subrange(wide.len() - 3, wide.len() as int));
        assert(tree_base(wide) =~= top);
        lemma_at_or_below(place, top);
        if narrow == place + "/**"@ {
            assert("/**"@ =~= narrow.subrange(narrow.len() - 3, narrow.len() as int));
            assert(tree_base(narrow) =~= place);
        }
    }
}

proof fn lemma_some_takes_in(wide: Seq<Seq<char>>, narrow: Seq<char>)
    ensures
        network_covered(narrow, wide) <==> some_takes_in_host(wide, narrow),
        path_covered(narrow, wide) <==> some_takes_in_path(wide, narrow),
        in_scope(narrow, wide) <==> some_scope_above(wide, narrow),
        skill_covered(narrow, wide) <==> some_matches_skill(wide, narrow),
{
    assert forall|i: int| 0 <= i < wide.len() implies network_covers(#[trigger] wide[i], narrow) == takes_in_host(wide[i], narrow)
        && path_covers(wide[i], narrow) == takes_in_path(wide[i], narrow) && skill_covers(wide[i], narrow) == matches_skill(wide[i], narrow)
        && crate::path::under(narrow, wide[i]) == at_or_below(narrow, wide[i]) by {
        lemma_takes_in_host(wide[i], narrow);
        lemma_takes_in_path(wide[i], narrow);
        lemma_matches(wide[i], narrow);
        lemma_at_or_below(narrow, wide[i]);
    }
}

/// A narrowed token names no tool and no type of agent to spawn that its parent does not name,
/// holds no flag that the parent does not hold, and has no memory where the parent has none.
pub proof fn narrowing_names_nothing_new(child: TokenView, parent: TokenView, x: Seq<char>)
    requires
        subset_of(child, parent),
    ensures
        child.mcp_tools.contains(x) ==> parent.mcp_tools.contains(x),
        child.spawn_types.contains(x) ==> parent.spawn_types.contains(x),
        child.shell ==> parent.shell,
        child.javascript ==> parent.javascript,
        child.python ==> parent.python,
        child.memory.enabled ==> parent.memory.enabled,
        child.network.contains(x) ==> some_takes_in_host(parent.network, x),
        child.paths_write.contains(x) ==> some_takes_in_path(parent.paths_write, x),
        child.paths_read.contains(x) ==> some_takes_in_path(parent.paths_read, x),
        child.memory.search_scopes.contains(x) ==> some_scope_above(parent.memory.search_scopes, x),
        child.memory.write_scopes.contains(x) ==> some_scope_above(parent.memory.write_scopes, x),
        parent.skill_patterns.len() > 0 ==> child.skill_patterns.len() > 0,
        parent.skill_patterns.len() > 0 && child.skill_patterns.contains(x) ==> x.len() == 0 || some_matches_skill(
            parent.skill_patterns,
            x,
        ),
{
    lemma_some_takes_in(parent.network, x);
    lemma_some_takes_in(parent.paths_write, x);
    lemma_some_takes_in(parent.paths_read, x);
    lemma_some_takes_in(parent.memory.search_scopes, x);
    lemma_some_takes_in(parent.memory.write_scopes, x);
    lemma_some_takes_in(parent.skill_patterns, x);
    if child.skill_patterns.contains(x) {
        let i = choose|i: int| 0 <= i < child.skill_patterns.len() && child.skill_patterns[i] == x;
        assert(skill_within(child.skill_patterns[i], parent.skill_patterns));
    }
}

/// Whatever names nothing new is a subset: nothing else is asked of a narrowed token.
pub proof fn nothing_new_is_a_subset(child: TokenView, parent: TokenView)
    requires
        forall|x: Seq<char>| #[trigger] child.mcp_tools.contains(x) ==> parent.mcp_tools.contains(x),
        forall|x: Seq<char>| #[trigger] child.spawn_types.contains(x) ==> parent.spawn_types.contains(x),
        child.shell ==> parent.shell,
        child.javascript ==> parent.javascript,
        child.python ==> parent.python,
        child.memory.enabled ==> parent.memory.enabled,
        forall|x: Seq<char>| #[trigger] child.network.contains(x) ==> some_takes_in_host(parent.network, x),
        forall|x: Seq<char>| #[trigger] child.paths_write.contains(x) ==> some_takes_in_path(parent.paths_write, x),
        forall|x: Seq<char>| #[trigger] child.paths_read.contains(x) ==> some_takes_in_path(parent.paths_read, x),
        forall|x: Seq<char>| #[trigger] child.memory.search_scopes.contains(x) ==> some_scope_above(parent.memory.search_scopes, x),
        forall|x: Seq<char>| #[trigger] child.memory.write_scopes.contains(x) ==> some_scope_above(parent.memory.write_scopes, x),
        parent.skill_patterns.len() > 0 ==> child.skill_patterns.len() > 0,
        parent.skill_patterns.len() > 0 ==> forall|x: Seq<char>| #[trigger]
            child.skill_patterns.contains(x) ==> x.len() == 0 || some_matches_skill(parent.skill_patterns, x),
    ensures
        subset_of(child, parent),
{
    assert forall|i: int| 0 <= i < child.network.len() implies network_covered(#[trigger] child.network[i], parent.network) by {
        assert(child.network.contains(child.network[i]));
        lemma_some_takes_in(parent.network, child.network[i]);
    }
    assert forall|i: int| 0 <= i < child.paths_write.len() implies path_covered(#[trigger] child.paths_write[i], parent.paths_write) by {
        assert(child.paths_write.contains(child.paths_write[i]));
        lemma_some_takes_in(parent.paths_write, child.paths_write[i]);
    }
    assert forall|i: int| 0 <= i < child.paths_read.len() implies path_covered(#[trigger] child.paths_read[i], parent.paths_read) by {
        assert(child.paths_read.contains(child.paths_read[i]));
        lemma_some_takes_in(parent.paths_read, child.paths_read[i]);
    }
    let m = child.memory;
    assert forall|i: int| 0 <= i < m.search_scopes.len() implies in_scope(#[trigger] m.search_scopes[i], parent.memory.search_scopes) by {
        assert(m.search_scopes.contains(m.search_scopes[i]));
        lemma_some_takes_in(parent.memory.search_scopes, m.search_scopes[i]);
    }
    assert forall|i: int| 0 <= i < m.write_scopes.len() implies in_scope(#[trigger] m.write_scopes[i], parent.memory.write_scopes) by {
        assert(m.write_scopes.contains(m.write_scopes[i]));
        lemma_some_takes_in(parent.memory.write_scopes, m.write_scopes[i]);
    }
    assert forall|i: int| 0 <= i < child.skill_patterns.len() implies skill_within(#[trigger] child.skill_patterns[i], parent.skill_patterns) by {
        let x = child.skill_patterns[i];
        assert(child.skill_patterns.contains(x));
        lemma_some_takes_in(parent.skill_patterns, x);
        if x.len() == 0 {
            assert(x =~= no_skill());
        }
    }
    assert forall|i: int| 0 <= i < child.spawn_types.len() implies parent.spawn_types.contains(#[trigger] child.spawn_types[i]) by {
        assert(child.spawn_types.contains(child.spawn_types[i]));
    }
    assert forall|i: int| 0 <= i < child.mcp_tools.len() implies parent.mcp_tools.contains(#[trigger] child.mcp_tools[i]) by {
        assert(child.mcp_tools.contains(child.mcp_tools[i]));
    }
}

// ---- Intersecting ------------------------------------------------------------

/// The intersection holds the flags and names the tools and types of agent that both tokens do,
/// and of two patterns or scopes, one of either token, the one that the other takes in. Skills
/// are those that both name, where a token that names none allows all.
pub proof fn intersection_names_what_both_name(a: TokenView, b: TokenView, x: Seq<char>)
    ensures
        ({
            let m = meet(a, b);
            &&& m.shell <==> a.shell && b.shell
            &&& m.javascript <==> a.javascript && b.javascript
            &&& m.python <==> a.python && b.python
            &&& m.memory.enabled <==> a.memory.enabled && b.memory.enabled
            &&& m.mcp_tools.contains(x) <==> a.mcp_tools.contains(x) && b.mcp_tools.contains(x)
            &&& m.spawn_types.contains(x) <==> a.spawn_types.contains(x) && b.spawn_types.contains(x)
            &&& m.network.contains(x) <==> (a.network.contains(x) && some_takes_in_host(b.network, x)) || (
            b.network.contains(x) && some_takes_in_host(a.network, x))
            &&& m.paths_write.contains(x) <==> (a.paths_write.contains(x) && some_takes_in_path(b.paths_write, x)) || (
            b.paths_write.contains(x) && some_takes_in_path(a.paths_write, x))
            &&& m.paths_read.contains(x) <==> (a.paths_read.contains(x) && some_takes_in_path(b.paths_read, x)) || (
            b.paths_read.contains(x) && some_takes_in_path(a.paths_read, x))
            &&& m.memory.search_scopes.contains(x) <==> (a.memory.search_scopes.contains(x) && some_scope_above(
                b.memory.search_scopes,
                x,
            )) || (b.memory.search_scopes.contains(x) && some_scope_above(a.memory.search_scopes, x))
            &&& m.memory.write_scopes.contains(x) <==> (a.memory.write_scopes.contains(x) && some_scope_above(
                b.memory.write_scopes,
                x,
            )) || (b.memory.write_scopes.contains(x) && some_scope_above(a.memory.write_scopes, x))
            &&& a.skill_patterns.len() == 0 ==> m.skill_patterns == b.skill_patterns
            &&& b.skill_patterns.len() == 0 ==> m.skill_patterns == a.skill_patterns
            &&& a.skill_patterns.len() > 0 && b.skill_patterns.len() > 0 ==> m.skill_patterns.len() > 0
            &&& a.skill_patterns.len() > 0 && b.skill_patterns.len() > 0 && x.len() > 0 ==> (m.skill_patterns.contains(x)
                <==> a.skill_patterns.contains(x) && b.skill_patterns.contains(x))
        }),
{
    broadcast use vstd::seq_lib::group_filter_ensures;

    let m = meet(a, b);
    lemma_filtered(a.mcp_tools, b.mcp_tools, x);
    lemma_filtered(a.spawn_types, b.spawn_types, x);
    lemma_filtered(a.skill_patterns, b.skill_patterns, x);
    lemma_met(a.network, b.network, within_network(b.network), within_network(a.network), x);
    lemma_some_takes_in(a.network, x);
    lemma_some_takes_in(b.network, x);
    lemma_met(a.paths_write, b.paths_write, within_paths(b.paths_write), within_paths(a.paths_write), x);
    lemma_some_takes_in(a.paths_write, x);
    lemma_some_takes_in(b.paths_write, x);
    lemma_met(a.paths_read, b.paths_read, within_paths(b.paths_read), within_paths(a.paths_read), x);
    lemma_some_takes_in(a.paths_read, x);
    lemma_some_takes_in(b.paths_read, x);
    let s = a.memory.search_scopes;
    let t = b.memory.search_scopes;
    lemma_met(s, t, within_any_scope(t), within_any_scope(s), x);
    lemma_some_takes_in(s, x);
    lemma_some_takes_in(t, x);
    let v = a.memory.write_scopes;
    let w = b.memory.write_scopes;
    lemma_met(v, w, within_any_scope(w), within_any_scope(v), x);
    lemma_some_takes_in(v, x);
    lemma_some_takes_in(w, x);
    let shared = a.skill_patterns.filter(held_by(b.skill_patterns));
    if a.skill_patterns.len() == 0 {
        assert(m.skill_patterns == b.skill_patterns);
    } else if b.skill_patterns.len() > 0 && x.len() > 0 && shared.len() == 0 {
        assert(!shared.contains(x));
        assert(m.skill_patterns =~= seq![no_skill()]);
        if m.skill_patterns.contains(x) {
            assert(x =~= no_skill());
        }
    }
    if b.skill_patterns.len() == 0 && a.skill_patterns.len() == 0 {
        assert(a.skill_patterns =~= b.skill_patterns);
    }
}

proof fn lemma_filtered(a: Seq<Seq<char>>, b: Seq<Seq<char>>, x: Seq<char>)
    ensures
        a.filter(held_by(b)).contains(x) <==> a.contains(x) && b.contains(x),
{
    broadcast use vstd::seq_lib::group_filter_ensures;

    let f = a.filter(held_by(b));
    if f.contains(x) {
        a.lemma_filter_contains_rev(held_by(b), x);
        let i = choose|i: int| 0 <= i < f.len() && f[i] == x;
        assert(held_by(b)(f[i]));
    }
    if a.contains(x) && b.contains(x) {
        let i = choose|i: int| 0 <= i < a.len() && a[i] == x;
        assert(held_by(b)(a[i]));
    }
}

proof fn lemma_met(
    a: Seq<Seq<char>>,
    b: Seq<Seq<char>>,
    by_b: spec_fn(Seq<char>) -> bool,
    by_a: spec_fn(Seq<char>) -> bool,
    x: Seq<char>,
)
    ensures
        add_kept(add_kept(Seq::empty(), a, by_b), b, by_a).contains(x) <==> (a.contains(x) && by_b(x)) || (b.contains(x)
            && by_a(x)),
{
    let first = add_kept(Seq::empty(), a, by_b);
    lemma_kept(Seq::empty(), a, by_b, x);
    lemma_kept(first, b, by_a, x);
}

proof fn lemma_kept(acc: Seq<Seq<char>>, xs: Seq<Seq<char>>, keep: spec_fn(Seq<char>) -> bool, x: Seq<char>)
    ensures
        add_kept(acc, xs, keep).contains(x) <==> acc.contains(x) || (xs.contains(x) && keep(x)),
    decreases xs.len(),
{
    if xs.len() > 0 {
        let init = xs.drop_last();
        let last = xs.last();
        lemma_kept(acc, init, keep, x);
        assert(init.push(last) =~= xs);
    }
}

/// The operations on tokens give what narrowing and intersecting say.
pub proof fn tokens_are_narrowed_and_intersected(a: CapabilityToken, b: CapabilityToken, r: bool, m: CapabilityToken)
    ensures
        call_ensures(CapabilityToken::is_subset_of, (&a, &b), r) ==> (r <==> subset_of(a@, b@)),
        call_ensures(CapabilityToken::intersect, (&a, &b), m) ==> m@ == meet(a@, b@),
{
}

} // verus!
