use simulacra::types::{CapabilityToken, MemoryCapability, MemoryPath, NetworkPermission, PathPattern};

#[test]
fn exact_network_permission_allows_matching_host() {
    let token = CapabilityToken {
        network: vec![NetworkPermission("net:api.github.com".into())],
        ..Default::default()
    };

    assert!(token.check_network("api.github.com").is_ok());
}

#[test]
fn exact_network_permission_denies_other_host_with_reason() {
    let token = CapabilityToken {
        network: vec![NetworkPermission("net:api.github.com".into())],
        ..Default::default()
    };

    let denied = token
        .check_network("api.stripe.com")
        .expect_err("unexpectedly allowed a non-granted host");

    assert_eq!(denied.operation, "network:api.stripe.com");
    assert_eq!(denied.reason, "no network permission for api.stripe.com");
}

#[test]
fn wildcard_parent_network_can_attenuate_to_exact_child_host() {
    let parent = CapabilityToken {
        network: vec![NetworkPermission("net:*.github.com".into())],
        ..Default::default()
    };
    let child = CapabilityToken {
        network: vec![NetworkPermission("net:api.github.com".into())],
        ..Default::default()
    };

    assert!(
        child.is_subset_of(&parent),
        "expected child host permission to be accepted as a subset of the parent's wildcard"
    );
}

#[test]
fn exact_host_parent_cannot_attenuate_to_wider_network_wildcard() {
    let parent = CapabilityToken {
        network: vec![NetworkPermission("net:api.github.com".into())],
        ..Default::default()
    };
    let child = CapabilityToken {
        network: vec![NetworkPermission("net:*.github.com".into())],
        ..Default::default()
    };

    assert!(
        !child.is_subset_of(&parent),
        "wider child network capability must be rejected during attenuation"
    );
}

#[test]
fn shell_capability_cannot_expand_from_false_to_true() {
    let parent = CapabilityToken {
        shell: false,
        ..Default::default()
    };
    let child = CapabilityToken {
        shell: true,
        ..Default::default()
    };

    assert!(
        !child.is_subset_of(&parent),
        "child shell access must be rejected when parent shell access is false"
    );
}

#[test]
fn child_spawn_type_must_be_granted_by_parent() {
    let parent = CapabilityToken {
        spawn_types: vec!["worker".into()],
        ..Default::default()
    };
    let child = CapabilityToken {
        spawn_types: vec!["supervisor".into()],
        ..Default::default()
    };

    assert!(
        !child.is_subset_of(&parent),
        "child spawn types must be validated as a subset of the parent's spawn permissions"
    );
}

#[test]
fn wildcard_network_permission_does_not_cover_multi_level_subdomains() {
    let token = CapabilityToken {
        network: vec![NetworkPermission("net:*.example.com".into())],
        ..Default::default()
    };

    let denied = token
        .check_network("sub.sub.example.com")
        .expect_err("multi-level subdomains must not be covered by a single-level wildcard");

    assert_eq!(denied.operation, "network:sub.sub.example.com");
    assert_eq!(
        denied.reason,
        "no network permission for sub.sub.example.com"
    );
}

#[test]
fn bare_wildcard_network_permission_allows_any_host() {
    let token = CapabilityToken {
        network: vec![NetworkPermission("*".into())],
        ..Default::default()
    };

    assert!(token.check_network("esm.sh").is_ok());
    assert!(token.check_network("api.github.com").is_ok());
}

#[test]
fn network_permission_without_net_prefix_allows_matching_host() {
    let token = CapabilityToken {
        network: vec![NetworkPermission("esm.sh".into())],
        ..Default::default()
    };

    assert!(token.check_network("esm.sh").is_ok());
}

#[test]
fn empty_child_skill_patterns_is_not_subset_of_restricted_parent() {
    let parent = CapabilityToken {
        skill_patterns: vec!["skill:rust-dev".into()],
        ..Default::default()
    };
    let child = CapabilityToken {
        skill_patterns: vec![],
        ..Default::default()
    };

    assert!(
        !child.is_subset_of(&parent),
        "empty child skill_patterns (allow-all) must not be a subset of a restricted parent"
    );
}

#[test]
fn empty_child_skill_patterns_is_subset_of_empty_parent() {
    let parent = CapabilityToken {
        skill_patterns: vec![],
        ..Default::default()
    };
    let child = CapabilityToken {
        skill_patterns: vec![],
        ..Default::default()
    };

    assert!(
        child.is_subset_of(&parent),
        "both empty (allow-all) should be a valid subset"
    );
}

#[test]
fn intersect_allow_all_skills_with_restricted_yields_restricted() {
    let allow_all = CapabilityToken {
        skill_patterns: vec![],
        ..Default::default()
    };
    let restricted = CapabilityToken {
        skill_patterns: vec!["skill:rust-dev".into()],
        ..Default::default()
    };

    let result = allow_all.intersect(&restricted);
    assert_eq!(result.skill_patterns, vec!["skill:rust-dev".to_string()]);

    let result2 = restricted.intersect(&allow_all);
    assert_eq!(result2.skill_patterns, vec!["skill:rust-dev".to_string()]);
}

#[test]
fn intersect_both_allow_all_skills_yields_allow_all() {
    let a = CapabilityToken {
        skill_patterns: vec![],
        ..Default::default()
    };
    let b = CapabilityToken {
        skill_patterns: vec![],
        ..Default::default()
    };

    let result = a.intersect(&b);
    assert!(result.skill_patterns.is_empty());
}

#[test]
fn bare_wildcard_parent_network_covers_any_child_network_permission() {
    let parent = CapabilityToken {
        network: vec![NetworkPermission("*".into())],
        ..Default::default()
    };
    let child = CapabilityToken {
        network: vec![NetworkPermission("net:esm.sh".into())],
        ..Default::default()
    };

    assert!(
        child.is_subset_of(&parent),
        "expected a bare wildcard parent network permission to cover any child network permission"
    );
}

#[test]
fn path_traversal_is_blocked_by_normalization() {
    let token = CapabilityToken {
        paths_read: vec![PathPattern("/workspace/**".into())],
        paths_write: vec![PathPattern("/workspace/**".into())],
        ..Default::default()
    };

    token
        .check_path_read("/workspace/../etc/secret")
        .expect_err("traversal must be blocked");
    token
        .check_path_write("/workspace/../etc/secret")
        .expect_err("traversal must be blocked");

    token
        .check_path_read("/workspace/./file")
        .expect("dot segment should normalize and allow");
}

#[test]
fn duplicate_slashes_are_normalized() {
    let token = CapabilityToken {
        paths_read: vec![PathPattern("/workspace/**".into())],
        ..Default::default()
    };
    token
        .check_path_read("/workspace//subdir///file.txt")
        .expect("duplicate slashes should normalize");
}

#[test]
fn child_glob_under_parent_glob_is_a_valid_subset() {
    let parent = CapabilityToken {
        paths_read: vec![PathPattern("/workspace/**".into())],
        paths_write: vec![PathPattern("/workspace/**".into())],
        ..Default::default()
    };
    let child = CapabilityToken {
        paths_read: vec![PathPattern("/workspace/project/**".into())],
        paths_write: vec![PathPattern("/workspace/project/**".into())],
        ..Default::default()
    };

    assert!(
        child.is_subset_of(&parent),
        "child /workspace/project/** must be a subset of parent /workspace/**"
    );
}

#[test]
fn intersect_keeps_narrower_path_pattern() {
    let wide = CapabilityToken {
        paths_read: vec![PathPattern("/workspace/**".into())],
        ..Default::default()
    };
    let narrow = CapabilityToken {
        paths_read: vec![PathPattern("/workspace/project/**".into())],
        ..Default::default()
    };

    let result = wide.intersect(&narrow);
    assert_eq!(result.paths_read.len(), 1);
    assert_eq!(result.paths_read[0].0, "/workspace/project/**");
}

#[test]
fn bare_star_without_dot_does_not_match_suffix() {
    let token = CapabilityToken {
        network: vec![NetworkPermission("*github.com".into())],
        ..Default::default()
    };

    token
        .check_network("evilgithub.com")
        .expect_err("*github.com must NOT match evilgithub.com");
    token
        .check_network("api.github.com")
        .expect_err("*github.com must NOT match api.github.com (missing dot)");
}

#[test]
fn dotted_wildcard_still_works() {
    let token = CapabilityToken {
        network: vec![NetworkPermission("*.github.com".into())],
        ..Default::default()
    };

    token
        .check_network("api.github.com")
        .expect("*.github.com must match api.github.com");
    token
        .check_network("evilgithub.com")
        .expect_err("*.github.com must NOT match evilgithub.com");
}

#[test]
fn intersect_network_with_wildcard_parent_keeps_child() {
    let wide = CapabilityToken {
        network: vec![NetworkPermission("*".into())],
        ..Default::default()
    };
    let narrow = CapabilityToken {
        network: vec![NetworkPermission("net:api.github.com".into())],
        ..Default::default()
    };

    let result = wide.intersect(&narrow);
    assert_eq!(result.network.len(), 1);
    assert_eq!(result.network[0].0, "net:api.github.com");
}

fn token_with_paths(read: &str, write: &str) -> CapabilityToken {
    CapabilityToken {
        paths_read: vec![PathPattern(read.into())],
        paths_write: vec![PathPattern(write.into())],
        ..Default::default()
    }
}

#[test]
fn check_path_write_rejects_var_memory_when_memory_disabled_even_if_paths_write_is_global() {
    let token = token_with_paths("/**", "/**");
    let err = token
        .check_path_write("/var/memory/self/note.md")
        .expect_err("memory write must be denied when memory disabled");
    assert_eq!(err.operation, "write_file");
    assert!(
        err.reason
            .contains("not in any MemoryCapability.write_scopes")
    );
}

#[test]
fn check_path_read_rejects_var_memory_when_memory_disabled_even_if_paths_read_is_global() {
    let token = token_with_paths("/**", "/**");
    let err = token
        .check_path_read("/var/memory/self/note.md")
        .expect_err("memory read must be denied when memory disabled");
    assert_eq!(err.operation, "read_file");
    assert!(
        err.reason
            .contains("not in any MemoryCapability.search_scopes")
    );
}

#[test]
fn check_path_write_allows_var_memory_when_memory_capability_grants_the_scope() {
    let token = CapabilityToken {
        paths_write: vec![PathPattern("/workspace/**".into())],
        paths_read: vec![PathPattern("/**".into())],
        memory: MemoryCapability {
            enabled: true,
            search_scopes: vec![MemoryPath::parse("/var/memory/self").unwrap()],
            write_scopes: vec![MemoryPath::parse("/var/memory/self").unwrap()],
        },
        ..Default::default()
    };

    token
        .check_path_write("/var/memory/self/note.md")
        .expect("memory write inside scope must be allowed");
    token
        .check_path_read("/var/memory/self/note.md")
        .expect("memory read inside scope must be allowed");
}

#[test]
fn check_path_write_denies_var_memory_outside_write_scopes_even_when_memory_enabled() {
    let token = CapabilityToken {
        paths_write: vec![PathPattern("/**".into())],
        paths_read: vec![PathPattern("/**".into())],
        memory: MemoryCapability {
            enabled: true,
            search_scopes: vec![MemoryPath::parse("/var/memory/self").unwrap()],
            write_scopes: vec![MemoryPath::parse("/var/memory/self").unwrap()],
        },
        ..Default::default()
    };

    let err = token
        .check_path_write("/var/memory/users/brian.md")
        .expect_err("write outside write_scopes must be denied");
    assert!(
        err.reason
            .contains("not in any MemoryCapability.write_scopes")
    );
}

#[test]
fn check_path_write_always_denies_mnt_for_agents_even_when_memory_enabled() {
    let token = CapabilityToken {
        paths_write: vec![PathPattern("/**".into())],
        paths_read: vec![PathPattern("/**".into())],
        memory: MemoryCapability {
            enabled: true,
            search_scopes: vec![MemoryPath::parse("/mnt").unwrap()],
            write_scopes: vec![MemoryPath::parse("/mnt").unwrap()],
        },
        ..Default::default()
    };

    let err = token
        .check_path_write("/mnt/policies/hr.md")
        .expect_err("/mnt writes must always be denied for agents");
    assert!(err.reason.contains("admin-ingested only"));
}

#[test]
fn check_path_read_allows_mnt_when_memory_grants_search_scope() {
    let token = CapabilityToken {
        paths_read: vec![PathPattern("/workspace/**".into())],
        paths_write: vec![],
        memory: MemoryCapability {
            enabled: true,
            search_scopes: vec![MemoryPath::parse("/mnt").unwrap()],
            write_scopes: vec![],
        },
        ..Default::default()
    };

    token
        .check_path_read("/mnt/policies/hr.md")
        .expect("/mnt read with memory grant must be allowed");
}

#[test]
fn non_memory_paths_still_use_paths_write_glob() {
    let token = token_with_paths("/workspace/**", "/workspace/**");
    token
        .check_path_write("/workspace/file.md")
        .expect("workspace write must be allowed");
    token
        .check_path_read("/workspace/file.md")
        .expect("workspace read must be allowed");
    token
        .check_path_write("/etc/passwd")
        .expect_err("non-workspace write must be denied");
}

#[test]
fn invalid_memory_path_returns_capability_denied_not_panic() {
    let token = CapabilityToken {
        memory: MemoryCapability {
            enabled: true,
            search_scopes: vec![MemoryPath::parse("/var/memory/self").unwrap()],
            write_scopes: vec![MemoryPath::parse("/var/memory/self").unwrap()],
        },
        ..Default::default()
    };

    let err = token
        .check_path_write("/var/memory/self/../escape.md")
        .expect_err("parent traversal must be rejected");
    assert!(
        err.reason.contains("not in any MemoryCapability")
            || err.reason.contains("invalid memory path"),
    );
}

#[test]
fn lookalike_paths_fall_through_to_generic_paths_globs_not_memory() {
    let token = token_with_paths("/**", "/**");
    token
        .check_path_write("/var/memory.bak/foo.md")
        .expect("lookalike must use generic glob, not memory");
    token
        .check_path_write("/mntfoo/bar.md")
        .expect("lookalike must use generic glob, not memory");
    token
        .check_path_read("/Var/Memory/file.md")
        .expect("uppercase must NOT match /var/memory case-sensitively");
}

#[test]
fn exact_root_var_memory_with_no_trailing_path_is_a_memory_path() {
    let token = token_with_paths("/**", "/**");
    let err = token
        .check_path_write("/var/memory")
        .expect_err("exact /var/memory write must be denied without memory grant");
    assert!(err.reason.contains("not in any MemoryCapability"));
}

#[test]
fn exact_root_mnt_with_no_trailing_path_is_a_memory_path() {
    let token = token_with_paths("/**", "/**");
    let err = token
        .check_path_read("/mnt")
        .expect_err("exact /mnt read must be denied without memory grant");
    assert!(err.reason.contains("not in any MemoryCapability"));
}

#[test]
fn empty_path_is_not_a_memory_path_and_falls_through_to_glob() {
    let token = token_with_paths("/**", "/**");
    token
        .check_path_read("")
        .expect("empty path goes through generic glob, not memory");
    token
        .check_path_write("")
        .expect("empty path goes through generic glob, not memory");

    let no_grant = CapabilityToken::default();
    let err = no_grant
        .check_path_write("")
        .expect_err("empty path with no grant must be denied");
    assert_eq!(err.operation, "write_file");
    assert!(
        !err.reason.contains("MemoryCapability"),
        "empty path must be denied via generic glob, not memory dispatch; got: {}",
        err.reason
    );
}

#[test]
fn trailing_slash_var_memory_dispatches_to_memory_check() {
    let token = token_with_paths("/**", "/**");
    let err = token
        .check_path_write("/var/memory/")
        .expect_err("trailing slash root must dispatch to memory and be rejected");
    assert!(
        err.reason.contains("invalid memory path") || err.reason.contains("MemoryCapability"),
        "trailing-slash dispatch should hit memory path, got: {}",
        err.reason
    );
}

#[test]
fn intersect_memory_scopes_narrows_when_child_is_inside_parent() {
    let parent = CapabilityToken {
        memory: MemoryCapability {
            enabled: true,
            search_scopes: vec![MemoryPath::parse("/var/memory/self").unwrap()],
            write_scopes: vec![MemoryPath::parse("/var/memory/self").unwrap()],
        },
        ..Default::default()
    };
    let child = CapabilityToken {
        memory: MemoryCapability {
            enabled: true,
            search_scopes: vec![MemoryPath::parse("/var/memory/self/notes").unwrap()],
            write_scopes: vec![MemoryPath::parse("/var/memory/self/notes").unwrap()],
        },
        ..Default::default()
    };

    let intersected = parent.intersect(&child);
    assert!(intersected.memory.enabled);
    assert_eq!(intersected.memory.search_scopes.len(), 1);
    assert_eq!(
        intersected.memory.search_scopes[0].as_str(),
        "/var/memory/self/notes",
        "child narrower scope must be honored, not dropped to empty"
    );
    assert_eq!(intersected.memory.write_scopes.len(), 1);
}

#[test]
fn intersect_memory_scopes_drops_child_scopes_outside_parent() {
    let parent = CapabilityToken {
        memory: MemoryCapability {
            enabled: true,
            search_scopes: vec![MemoryPath::parse("/var/memory/self").unwrap()],
            write_scopes: vec![],
        },
        ..Default::default()
    };
    let child = CapabilityToken {
        memory: MemoryCapability {
            enabled: true,
            search_scopes: vec![
                MemoryPath::parse("/var/memory/self/notes").unwrap(),
                MemoryPath::parse("/var/memory/users").unwrap(),
            ],
            write_scopes: vec![],
        },
        ..Default::default()
    };

    let intersected = parent.intersect(&child);
    let scopes: Vec<&str> = intersected
        .memory
        .search_scopes
        .iter()
        .map(|p| p.as_str())
        .collect();
    assert_eq!(scopes, vec!["/var/memory/self/notes"]);
}

#[test]
fn intersect_memory_disabled_when_either_side_disabled() {
    let parent = CapabilityToken {
        memory: MemoryCapability {
            enabled: true,
            search_scopes: vec![MemoryPath::parse("/var/memory/self").unwrap()],
            write_scopes: vec![],
        },
        ..Default::default()
    };
    let child = CapabilityToken {
        memory: MemoryCapability::default(),
        ..Default::default()
    };

    let intersected = parent.intersect(&child);
    assert!(!intersected.memory.enabled);
}

#[test]
fn is_subset_of_rejects_child_memory_scope_outside_parent() {
    let parent = CapabilityToken {
        memory: MemoryCapability {
            enabled: true,
            search_scopes: vec![MemoryPath::parse("/var/memory/self").unwrap()],
            write_scopes: vec![MemoryPath::parse("/var/memory/self").unwrap()],
        },
        ..Default::default()
    };
    let child_with_extra = CapabilityToken {
        memory: MemoryCapability {
            enabled: true,
            search_scopes: vec![
                MemoryPath::parse("/var/memory/self/notes").unwrap(),
                MemoryPath::parse("/var/memory/users").unwrap(),
            ],
            write_scopes: vec![],
        },
        ..Default::default()
    };

    assert!(
        !child_with_extra.is_subset_of(&parent),
        "child claiming /var/memory/users when parent only grants /var/memory/self must NOT be a subset"
    );
}

#[test]
fn is_subset_of_accepts_child_narrower_memory_scope() {
    let parent = CapabilityToken {
        memory: MemoryCapability {
            enabled: true,
            search_scopes: vec![MemoryPath::parse("/var/memory/self").unwrap()],
            write_scopes: vec![MemoryPath::parse("/var/memory/self").unwrap()],
        },
        ..Default::default()
    };
    let child_narrower = CapabilityToken {
        memory: MemoryCapability {
            enabled: true,
            search_scopes: vec![MemoryPath::parse("/var/memory/self/notes").unwrap()],
            write_scopes: vec![MemoryPath::parse("/var/memory/self/notes").unwrap()],
        },
        ..Default::default()
    };

    assert!(
        child_narrower.is_subset_of(&parent),
        "child narrowing parent's memory scope must be a valid subset"
    );
}

#[test]
fn is_subset_of_rejects_child_enabling_memory_when_parent_disabled() {
    let parent = CapabilityToken {
        memory: MemoryCapability::default(),
        ..Default::default()
    };
    let child = CapabilityToken {
        memory: MemoryCapability {
            enabled: true,
            search_scopes: vec![MemoryPath::parse("/var/memory/self").unwrap()],
            write_scopes: vec![],
        },
        ..Default::default()
    };

    assert!(
        !child.is_subset_of(&parent),
        "child cannot enable memory when parent has it disabled"
    );
}
