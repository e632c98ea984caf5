use simulacra::types::{MemoryCapability, MemoryPath, MemoryPathError, TenantId, TenantIdError};

#[test]
fn tenant_id_accepts_valid_format() {
    assert!(TenantId::parse("acme").is_ok());
    assert!(TenantId::parse("acme-corp").is_ok());
    assert!(TenantId::parse("acme_corp").is_ok());
    assert!(TenantId::parse("a1b2c3").is_ok());
    assert!(TenantId::parse("0").is_ok());
    assert!(TenantId::parse(&"a".repeat(64)).is_ok());
}

#[test]
fn tenant_id_rejects_empty() {
    assert!(matches!(TenantId::parse(""), Err(TenantIdError::Empty)));
}

#[test]
fn tenant_id_rejects_too_long() {
    assert!(matches!(
        TenantId::parse(&"a".repeat(65)),
        Err(TenantIdError::TooLong(65))
    ));
}

#[test]
fn tenant_id_rejects_uppercase() {
    assert!(matches!(
        TenantId::parse("Acme"),
        Err(TenantIdError::InvalidStart)
    ));
    assert!(matches!(
        TenantId::parse("acmE"),
        Err(TenantIdError::InvalidChar('E'))
    ));
}

#[test]
fn tenant_id_rejects_path_separators() {
    assert!(matches!(
        TenantId::parse("acme/corp"),
        Err(TenantIdError::InvalidChar('/'))
    ));
    assert!(matches!(
        TenantId::parse("../etc"),
        Err(TenantIdError::InvalidStart)
    ));
    assert!(matches!(
        TenantId::parse("acme.corp"),
        Err(TenantIdError::InvalidChar('.'))
    ));
}

#[test]
fn tenant_id_rejects_starting_dash_or_underscore() {
    assert!(matches!(
        TenantId::parse("-acme"),
        Err(TenantIdError::InvalidStart)
    ));
    assert!(matches!(
        TenantId::parse("_acme"),
        Err(TenantIdError::InvalidStart)
    ));
}

#[test]
fn memory_path_accepts_valid() {
    assert!(MemoryPath::parse("/var/memory/self/note.md").is_ok());
    assert!(MemoryPath::parse("/var/memory/users/brian.md").is_ok());
    assert!(MemoryPath::parse("/mnt/policies/hr.pdf").is_ok());
    assert!(MemoryPath::parse("/var/memory/entities/customers/X.md").is_ok());
}

#[test]
fn memory_path_rejects_parent_traversal() {
    assert!(matches!(
        MemoryPath::parse("/var/memory/self/../users/x.md"),
        Err(MemoryPathError::ParentSegment)
    ));
    assert!(matches!(
        MemoryPath::parse("/var/memory/.."),
        Err(MemoryPathError::ParentSegment)
    ));
}

#[test]
fn memory_path_rejects_invalid_prefix() {
    assert!(matches!(
        MemoryPath::parse("/etc/passwd"),
        Err(MemoryPathError::InvalidPrefix)
    ));
    assert!(matches!(
        MemoryPath::parse("/workspace/note.md"),
        Err(MemoryPathError::InvalidPrefix)
    ));
    assert!(matches!(
        MemoryPath::parse("var/memory/x.md"),
        Err(MemoryPathError::InvalidPrefix)
    ));
}

#[test]
fn memory_path_rejects_null_and_control_chars() {
    assert!(matches!(
        MemoryPath::parse("/var/memory/x\0y.md"),
        Err(MemoryPathError::NullByte)
    ));
    assert!(matches!(
        MemoryPath::parse("/var/memory/x\ny.md"),
        Err(MemoryPathError::ControlChar(_))
    ));
}

#[test]
fn memory_path_collapses_trailing_slash() {
    let p = MemoryPath::parse("/var/memory/self/").unwrap();
    assert_eq!(p.as_str(), "/var/memory/self");
}

#[test]
fn memory_path_segment_boundary_prefix_match() {
    let prefix = MemoryPath::parse("/var/memory/self").unwrap();
    let inside = MemoryPath::parse("/var/memory/self/note.md").unwrap();
    let lookalike = MemoryPath::parse("/var/memory/selfish/note.md").unwrap();
    assert!(inside.starts_with_prefix(&prefix));
    assert!(!lookalike.starts_with_prefix(&prefix));
}

#[test]
fn memory_path_exact_match_is_prefix() {
    let p = MemoryPath::parse("/var/memory/self").unwrap();
    assert!(p.starts_with_prefix(&p));
}

#[test]
fn memory_path_dedup_detection() {
    let dedup = MemoryPath::parse("/var/memory/dedup/foo").unwrap();
    let other = MemoryPath::parse("/var/memory/self/foo.md").unwrap();
    assert!(dedup.is_dedup());
    assert!(!other.is_dedup());
}

#[test]
fn memory_capability_default_disabled() {
    let cap = MemoryCapability::default();
    assert!(!cap.enabled);
    assert!(cap.search_scopes.is_empty());
    assert!(cap.write_scopes.is_empty());
}

#[test]
fn memory_capability_disabled_blocks_everything() {
    let cap = MemoryCapability::default();
    let path = MemoryPath::parse("/var/memory/self/x.md").unwrap();
    assert!(!cap.can_read(&path));
    assert!(!cap.can_write(&path));
}

#[test]
fn memory_capability_enforces_scopes() {
    let cap = MemoryCapability {
        enabled: true,
        search_scopes: vec![MemoryPath::parse("/var/memory/self").unwrap()],
        write_scopes: vec![MemoryPath::parse("/var/memory/self").unwrap()],
    };
    let inside = MemoryPath::parse("/var/memory/self/x.md").unwrap();
    let outside = MemoryPath::parse("/var/memory/users/x.md").unwrap();
    assert!(cap.can_read(&inside));
    assert!(cap.can_write(&inside));
    assert!(!cap.can_read(&outside));
    assert!(!cap.can_write(&outside));
}
