use simulacra::path::{normalize, resolve_relative};
use simulacra::types::{
    CapabilityToken, FsMetadata, MemoryCapability, MemoryPath, MemoryPathError, NetworkPermission,
    PathPattern, TenantId, TokenUsage, ToolOutput, VfsError, VfsSnapshot, VirtualFs,
};
use simulacra::vfs::mount::strip_private_prefix;
use simulacra::vfs::{MemoryFs, OverlayFs, ReadOnlyPathGuard};
use simulacra::json::Json;

fn token(network: &[&str], paths: &[&str], skills: &[&str]) -> CapabilityToken {
    CapabilityToken {
        network: network.iter().map(|n| NetworkPermission(n.to_string())).collect(),
        paths_read: paths.iter().map(|p| PathPattern(p.to_string())).collect(),
        skill_patterns: skills.iter().map(|s| s.to_string()).collect(),
        ..Default::default()
    }
}

#[test]
fn a_token_is_a_subset_of_itself() {
    let t = token(&["net:*.github.com", "*"], &["/workspace/**", "/etc/hosts"], &["skill:rust-*"]);
    assert!(t.is_subset_of(&t));
    assert!(CapabilityToken::default().is_subset_of(&CapabilityToken::default()));
}

#[test]
fn narrowing_twice_is_narrowing() {
    let parent = token(&["*.github.com"], &["/workspace/**"], &["skill:rust-*"]);
    let child = token(&["net:api.github.com"], &["/workspace/a/**"], &["skill:rust-dev*"]);
    let grandchild = token(&["api.github.com"], &["/workspace/a/b.txt"], &["skill:rust-developer"]);
    assert!(child.is_subset_of(&parent));
    assert!(grandchild.is_subset_of(&child));
    assert!(grandchild.is_subset_of(&parent));
    assert!(!parent.is_subset_of(&grandchild));
}

#[test]
fn two_stars_break_the_chain_of_skills() {
    let parent = token(&[], &[], &["a**"]);
    let child = token(&[], &[], &["a*"]);
    let grandchild = token(&[], &[], &["ab"]);
    assert!(child.is_subset_of(&parent));
    assert!(grandchild.is_subset_of(&child));
    assert!(!grandchild.is_subset_of(&parent));
}

#[test]
fn what_a_narrowed_token_may_do_its_parent_may_do() {
    let parent = token(&["*.github.com"], &["/workspace/**"], &["skill:rust-*"]);
    let child = token(&["api.github.com"], &["/workspace/a/**"], &["skill:rust-dev"]);
    assert!(child.is_subset_of(&parent));
    assert!(child.check_network("api.github.com").is_ok());
    assert!(parent.check_network("api.github.com").is_ok());
    assert!(child.check_path_read("/workspace/a/x").is_ok());
    assert!(parent.check_path_read("/workspace/a/x").is_ok());
    assert!(child.check_skill("rust-dev").is_ok());
    assert!(parent.check_skill("rust-dev").is_ok());
}

#[test]
fn a_prefixed_star_covers_hosts_that_it_does_not_allow() {
    let parent = token(&["net:*"], &[], &[]);
    let child = token(&["api.github.com"], &[], &[]);
    assert!(child.is_subset_of(&parent));
    assert!(child.check_network("api.github.com").is_ok());
    assert!(parent.check_network("api.github.com").is_err());
}

#[test]
fn an_intersection_lies_within_both_sides() {
    let a = token(&["*"], &["/workspace/**", "/etc/hosts"], &["skill:a", "skill:b"]);
    let b = token(&["api.github.com"], &["/workspace/project/**"], &["skill:b"]);
    let both = a.intersect(&b);
    assert!(both.is_subset_of(&a));
    assert!(both.is_subset_of(&b));
    assert_eq!(both.network.len(), 1);
    assert_eq!(both.network[0].0, "api.github.com");
    assert_eq!(both.paths_read.len(), 1);
    assert_eq!(both.paths_read[0].0, "/workspace/project/**");
    assert_eq!(both.skill_patterns, vec!["skill:b".to_string()]);
}

#[test]
fn tokens_that_share_no_skill_intersect_to_no_skill() {
    let a = token(&[], &[], &["skill:a"]);
    let b = token(&[], &[], &["skill:b"]);
    let both = a.intersect(&b);
    for name in ["a", "b", "c", ""] {
        assert!(both.check_skill(name).is_err());
    }
    assert!(both.is_subset_of(&a));
    assert!(both.is_subset_of(&b));
    assert!(both.is_subset_of(&CapabilityToken::default()));
    assert!(!a.is_subset_of(&both));
}

#[test]
fn named_skills_narrow_a_token_that_allows_all() {
    let all = CapabilityToken::default();
    let some = token(&[], &[], &["skill:rust-dev"]);
    assert!(some.is_subset_of(&all));
    assert!(!all.is_subset_of(&some));
}

#[test]
fn an_intersection_grants_what_both_sides_grant() {
    let a = token(&["*.github.com", "example.org"], &["/workspace/**", "/etc/hosts"], &[]);
    let b = token(&["api.github.com", "example.org"], &["/workspace/project/**", "/etc/**"], &[]);
    let both = a.intersect(&b);
    for path in ["/workspace/project/x", "/workspace/x", "/etc/hosts", "/etc/passwd", "/tmp"] {
        let granted = a.check_path_read(path).is_ok() && b.check_path_read(path).is_ok();
        assert_eq!(both.check_path_read(path).is_ok(), granted, "{path}");
    }
    for host in ["api.github.com", "raw.github.com", "example.org", "example.com"] {
        let granted = a.check_network(host).is_ok() && b.check_network(host).is_ok();
        assert_eq!(both.check_network(host).is_ok(), granted, "{host}");
    }
    let twice = token(&["example.org", "example.org"], &[], &[]);
    assert_eq!(twice.intersect(&twice).network.len(), 1);
}

#[test]
fn plain_paths_have_no_dots_and_no_empty_segments() {
    for path in ["/a/../../b//./c/", "../x", "/..", "a//b"] {
        let plain = normalize(path);
        assert!(plain.starts_with('/'));
        for segment in plain.split('/').skip(1).filter(|s| !s.is_empty() || plain.len() > 1) {
            assert!(!segment.is_empty() && segment != "." && segment != "..", "{plain}");
        }
    }
}

#[test]
fn without_grants_everything_is_denied() {
    let none = CapabilityToken::default();
    assert!(none.check_shell().is_err());
    assert!(none.check_javascript().is_err());
    assert!(none.check_python().is_err());
    assert!(none.check_path_read("/workspace/a").is_err());
    assert!(none.check_path_write("/workspace/a").is_err());
    assert!(none.check_path_read("/var/memory/self/a").is_err());
    assert!(none.check_network("api.github.com").is_err());
}

#[test]
fn denials_say_what_was_denied() {
    let t = token(&[], &[], &["skill:a"]);
    let skill = t.check_skill("b\"c").unwrap_err();
    assert_eq!(skill.operation, "skill:b\"c");
    assert_eq!(skill.reason, "skill \"b\\\"c\" not allowed by capability token");
    let path = t.check_path_read("/a/./b/../c").unwrap_err();
    assert_eq!(path.operation, "read_file");
    assert_eq!(path.reason, "read access denied for /a/c");
    assert_eq!(
        path.to_string(),
        "capability denied: read_file — read access denied for /a/c"
    );
}

#[test]
fn memory_ignores_the_path_patterns() {
    let memory = MemoryCapability {
        enabled: true,
        search_scopes: vec![MemoryPath::parse("/var/memory/self").unwrap()],
        write_scopes: Vec::new(),
    };
    for patterns in [&[][..], &["/**"][..]] {
        let t = CapabilityToken {
            memory: memory.clone(),
            ..token(&[], patterns, &[])
        };
        assert!(t.check_path_read("/var/memory/self/a.md").is_ok());
        assert!(t.check_path_read("/var/memory/self/../other").is_err());
        assert!(t.check_path_write("/var/memory/self/a.md").is_err());
    }
}

#[test]
fn a_parsed_memory_path_parses_to_itself() {
    for raw in ["/var/memory/self/./a.md", "/mnt/docs/", "/var/memory"] {
        let once = MemoryPath::parse(raw).unwrap();
        let twice = MemoryPath::parse(once.as_str()).unwrap();
        assert_eq!(once.as_str(), twice.as_str());
        assert_eq!(normalize(once.as_str()), once.as_str());
    }
    assert!(matches!(
        MemoryPath::parse("/var/memory/../etc"),
        Err(MemoryPathError::ParentSegment)
    ));
}

#[test]
fn a_tenant_is_a_segment_of_a_path() {
    let tenant = TenantId::parse("acme-1").unwrap();
    assert_eq!(tenant.as_str(), "acme-1");
    assert_eq!(tenant.as_fs_segment(), "acme-1");
    assert!(TenantId::parse("").is_err());
    assert!(TenantId::parse("a/b").is_err());
}

#[test]
fn normalizing_twice_is_normalizing_once() {
    for raw in ["a//b/../c", "/../..", "", "/a/./b/", "a"] {
        let once = normalize(raw);
        assert_eq!(normalize(&once), once);
    }
    assert_eq!(normalize("a//b/../c"), "/a/c");
    assert_eq!(normalize("/../.."), "/");
}

#[test]
fn relative_paths_are_walked_from_their_base() {
    assert_eq!(resolve_relative("/workspace", "../../etc/passwd"), "etc/passwd");
    assert_eq!(resolve_relative("/a/b", "../../../c"), "c");
    assert_eq!(resolve_relative("", "./x//y"), "x/y");
    assert_eq!(resolve_relative("a/../b", "c"), "a/../b/c");
}

#[test]
fn private_directories_have_a_visible_form() {
    assert_eq!(strip_private_prefix("/private/var/folders/x"), "/var/folders/x");
    assert_eq!(strip_private_prefix("/private/tmp/x"), "/tmp/x");
    assert_eq!(strip_private_prefix("/private/etc/hosts"), "/etc/hosts");
    assert_eq!(strip_private_prefix("/private/var"), "/private/var");
    assert_eq!(strip_private_prefix("/home/x"), "/home/x");
}

#[test]
fn totals_leave_the_cache_out() {
    let usage = TokenUsage {
        input_tokens: 7,
        output_tokens: 5,
        cache_read_input_tokens: 100,
        cache_write_input_tokens: 200,
    };
    assert_eq!(usage.total(), 12);
}

#[test]
fn outputs_carry_what_their_hooks_saw() {
    let output = ToolOutput::success("done")
        .with_hook_input(Json::text("in"))
        .with_hook_output(Json::text("out"));
    assert!(matches!(&output.hook_input, Some(Json::Text(t)) if t == "in"));
    assert!(matches!(&output.hook_output, Some(Json::Text(t)) if t == "out"));
    let back = ToolOutput::from_value(output.to_value());
    assert_eq!(back.content, "done");
    assert!(!back.is_error);
    assert!(matches!(&back.hook_output, Some(Json::Text(t)) if t == "out"));
}

#[test]
fn spelling_a_path_differently_finds_the_same_entry() {
    let mut fs = MemoryFs::new();
    fs.write("/a/./b/../c.txt", b"x").unwrap();
    assert_eq!(fs.read("a//c.txt").unwrap(), b"x");
    assert!(fs.entry_exists("/a/x/../c.txt"));
    fs.remove("//a/c.txt/").unwrap();
    assert!(!fs.entry_exists("/a/c.txt"));
}

#[test]
fn writing_leaves_the_rest_and_makes_what_is_above() {
    let mut fs = MemoryFs::new();
    fs.write("/a/keep.txt", b"keep").unwrap();
    fs.write("/a/b/c/new.txt", b"new").unwrap();
    assert_eq!(fs.read("/a/keep.txt").unwrap(), b"keep");
    assert_eq!(fs.metadata("/a/b").unwrap(), FsMetadata::dir());
    assert_eq!(fs.metadata("/a/b/c").unwrap(), FsMetadata::dir());
    assert_eq!(fs.metadata("/a/b/c/new.txt").unwrap(), FsMetadata::file(3));
    assert!(matches!(fs.write("/", b"x"), Err(VfsError::NotAFile(p)) if p == "/"));
}

#[test]
fn failures_change_nothing() {
    let mut fs = MemoryFs::new();
    fs.write("/file", b"x").unwrap();
    assert!(matches!(fs.mkdir("/file"), Err(VfsError::NotAFile(p)) if p == "/file"));
    assert!(matches!(fs.remove("/other"), Err(VfsError::NotFound(p)) if p == "/other"));
    let broken = simulacra::types::VfsSnapshot { data: b"no json".to_vec() };
    assert!(matches!(fs.restore(&broken), Err(VfsError::Io(_))));
    assert_eq!(fs.read("/file").unwrap(), b"x");
    assert_eq!(fs.list_dir("/").unwrap(), vec!["file".to_string()]);
}

#[test]
fn removing_takes_all_below_and_nothing_beside() {
    let mut fs = MemoryFs::new();
    fs.write("/dir/a/b.txt", b"1").unwrap();
    fs.write("/dir2/c.txt", b"2").unwrap();
    fs.remove("/dir").unwrap();
    assert!(!fs.entry_exists("/dir"));
    assert!(!fs.entry_exists("/dir/a/b.txt"));
    assert_eq!(fs.read("/dir2/c.txt").unwrap(), b"2");
}

#[test]
fn directories_are_made_once() {
    let mut fs = MemoryFs::new();
    fs.mkdir("/x/y").unwrap();
    fs.mkdir("/x/y").unwrap();
    assert_eq!(fs.metadata("/x/y").unwrap(), FsMetadata::dir());
    assert_eq!(fs.list_dir("/x").unwrap(), vec!["y".to_string()]);
}

#[test]
fn snapshots_restore_into_any_filesystem() {
    let mut saved = MemoryFs::new();
    saved.write("/a/b.bin", &[0, 255, 10]).unwrap();
    saved.mkdir("/empty").unwrap();
    let snapshot = saved.snapshot().unwrap();
    let mut target = MemoryFs::new();
    target.write("/gone", b"x").unwrap();
    target.restore(&snapshot).unwrap();
    assert_eq!(target.read("/a/b.bin").unwrap(), vec![0, 255, 10]);
    assert_eq!(target.metadata("/empty").unwrap(), FsMetadata::dir());
    assert!(!target.entry_exists("/gone"));
}

#[test]
fn overlays_bring_back_what_they_had_hidden() {
    let mut lower = MemoryFs::new();
    lower.write("/low/a.txt", b"low").unwrap();
    lower.write("/low/b.txt", b"low").unwrap();
    let mut fs = OverlayFs::new(lower, MemoryFs::new());
    fs.write("/low/a.txt", b"high").unwrap();
    fs.remove("/low/b.txt").unwrap();
    let snapshot = fs.snapshot().unwrap();
    fs.write("/low/b.txt", b"again").unwrap();
    fs.remove("/low").unwrap();
    assert!(matches!(fs.read("/low/a.txt"), Err(VfsError::NotFound(_))));
    fs.restore(&snapshot).unwrap();
    assert_eq!(fs.read("/low/a.txt").unwrap(), b"high");
    assert!(matches!(fs.read("/low/b.txt"), Err(VfsError::NotFound(_))));
    fs.remove("/low/a.txt").unwrap();
    assert!(!fs.entry_exists("/low/a.txt"));
}

#[test]
fn what_was_removed_from_below_stays_removed() {
    let mut lower = MemoryFs::new();
    lower.write("/dir/old.txt", b"old").unwrap();
    lower.write("/dir/sub/deep.txt", b"deep").unwrap();
    let mut fs = OverlayFs::new(lower, MemoryFs::new());
    fs.remove("/dir").unwrap();
    fs.write("/dir/new.txt", b"new").unwrap();
    assert!(matches!(fs.read("/dir/old.txt"), Err(VfsError::NotFound(_))));
    assert!(!fs.entry_exists("/dir/sub"));
    assert_eq!(fs.read("/dir/new.txt").unwrap(), b"new");
    assert_eq!(fs.list_dir("/dir").unwrap(), vec!["new.txt".to_string()]);
    let snapshot = fs.snapshot().unwrap();
    fs.mkdir("/dir/sub").unwrap();
    assert_eq!(fs.list_dir("/dir/sub").unwrap(), Vec::<String>::new());
    fs.restore(&snapshot).unwrap();
    assert!(matches!(fs.read("/dir/old.txt"), Err(VfsError::NotFound(_))));
    assert!(!fs.entry_exists("/dir/sub"));
    fs.write("/dir/old.txt", b"again").unwrap();
    assert_eq!(fs.read("/dir/old.txt").unwrap(), b"again");
}

#[test]
fn snapshots_of_overlays_are_records() {
    let mut lower = MemoryFs::new();
    lower.write("/low/a.txt", b"low").unwrap();
    let mut fs = OverlayFs::new(lower, MemoryFs::new());
    fs.write("/high.txt", b"high").unwrap();
    fs.remove("/low/a.txt").unwrap();
    let snapshot = fs.snapshot().unwrap();
    let object: serde_json::Value = serde_json::from_slice(&snapshot.data).unwrap();
    let list = serde_json::Value::Array(vec![object["upper"].clone(), object["whiteouts"].clone()]);
    assert!(object.get("shadows").is_none());
    fs.remove("/high.txt").unwrap();
    fs.restore(&VfsSnapshot { data: serde_json::to_vec(&list).unwrap() }).unwrap();
    assert_eq!(fs.read("/high.txt").unwrap(), b"high");
    assert!(!fs.entry_exists("/low/a.txt"));

    for (text, reason) in [
        (r#"{"upper": [1]}"#, "missing field `whiteouts`"),
        (r#"{"upper": [256], "whiteouts": []}"#, "`upper`: expected an integer from 0 to 255"),
        (r#"{"upper": [], "whiteouts": 1}"#, "`whiteouts`: expected a list"),
        ("7", "expected an object"),
    ] {
        match fs.restore(&VfsSnapshot { data: text.as_bytes().to_vec() }) {
            Err(VfsError::Io(e)) => assert_eq!(e, reason),
            other => panic!("expected an error, got {other:?}"),
        }
        assert_eq!(fs.read("/high.txt").unwrap(), b"high");
    }
}

#[test]
fn an_overlay_lists_what_is_there() {
    let mut lower = MemoryFs::new();
    lower.write("/d/low.txt", b"").unwrap();
    lower.write("/d/gone.txt", b"").unwrap();
    let mut fs = OverlayFs::new(lower, MemoryFs::new());
    fs.write("/d/high.txt", b"").unwrap();
    fs.remove("/d/gone.txt").unwrap();
    let names = fs.list_dir("/d").unwrap();
    assert_eq!(names, vec!["high.txt".to_string(), "low.txt".to_string()]);
    for name in &names {
        assert!(fs.entry_exists(&format!("/d/{name}")));
    }
}

#[test]
fn locked_paths_stay_as_they_are() {
    let mut inner = MemoryFs::new();
    inner.write("/skills/a/SKILL.md", b"text").unwrap();
    let mut fs = ReadOnlyPathGuard::new(inner, "/skills");
    for path in ["/skills/a/SKILL.md", "/other/../skills/a/SKILL.md", "skills//a/SKILL.md"] {
        assert!(matches!(fs.write(path, b"x"), Err(VfsError::PermissionDenied(_))));
        assert!(matches!(fs.remove(path), Err(VfsError::PermissionDenied(_))));
        assert!(matches!(fs.mkdir(path), Err(VfsError::PermissionDenied(_))));
    }
    assert_eq!(fs.read("/skills/a/SKILL.md").unwrap(), b"text");
    fs.write("/skillset", b"free").unwrap();
    assert_eq!(fs.read("/skillset").unwrap(), b"free");
}
