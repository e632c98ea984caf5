use simulacra::types::VirtualFs;
use simulacra::vfs::mount::{
    check_inside, check_prompt_size, check_target, join_path, AgentPrompt, MountConfig, MountSettings,
};
use simulacra::vfs::mount_copy::{unreadable_file, CopyJob, CopyLimits, EntryStep, HostEntry};
use simulacra::vfs::mount_run::{MountAsk, MountRun};
use simulacra::vfs::{MemoryFs, MountError};
use std::collections::BTreeMap;

/// What stands in a directory of a host.
#[derive(Clone)]
enum HostNode {
    Dir { inode: u64, path: String },
    File { path: String },
    Socket,
}

/// A host: its directories and its files.
#[derive(Default)]
struct Host {
    dirs: BTreeMap<String, Vec<(String, HostNode)>>,
    files: BTreeMap<String, Vec<u8>>,
    inodes: BTreeMap<String, u64>,
    canonical: BTreeMap<String, String>,
}

impl Host {
    fn add_dir(&mut self, path: &str) {
        if self.dirs.contains_key(path) {
            return;
        }
        self.dirs.insert(path.to_string(), Vec::new());
        let inode = self.inodes.len() as u64 + 1;
        self.inodes.insert(path.to_string(), inode);
        if let Some((parent, name)) = path.rsplit_once('/') {
            if !parent.is_empty() {
                self.add_dir(parent);
                self.link_dir(parent, name, path);
            }
        }
    }

    fn link_dir(&mut self, parent: &str, name: &str, path: &str) {
        let inode = self.inodes[path];
        self.dirs.get_mut(parent).unwrap().push((
            name.to_string(),
            HostNode::Dir {
                inode,
                path: path.to_string(),
            },
        ));
    }

    fn add_file(&mut self, path: &str, data: &[u8]) {
        let (parent, name) = path.rsplit_once('/').unwrap();
        self.add_dir(parent);
        self.files.insert(path.to_string(), data.to_vec());
        self.link_file(parent, name, path);
    }

    fn link_file(&mut self, parent: &str, name: &str, path: &str) {
        self.dirs.get_mut(parent).unwrap().push((
            name.to_string(),
            HostNode::File { path: path.to_string() },
        ));
    }
}

fn limits(max_files: usize, max_bytes: u64) -> CopyLimits {
    CopyLimits {
        max_files,
        max_bytes,
        file_threshold: (max_files as f64 * 0.8) as usize,
        byte_threshold: (max_bytes as f64 * 0.8) as u64,
    }
}

/// Copies a directory of the host: the number of files, the number of bytes, the warnings.
fn copy_dir(
    host: &Host,
    root: &str,
    target: &str,
    vfs: &mut MemoryFs,
    limits: CopyLimits,
) -> Result<(usize, u64, Vec<String>), MountError> {
    let mut warnings = Vec::new();
    let mut job = CopyJob::new(root, target, limits, target);
    while let Some(dir) = job.next_dir(vfs) {
        for (name, node) in host.dirs[&dir.host].clone() {
            let (at, entry) = match &node {
                HostNode::Dir { inode, path } => (
                    path.clone(),
                    HostEntry::Dir {
                        device: 1,
                        inode: *inode,
                    },
                ),
                HostNode::File { path } => (
                    path.clone(),
                    HostEntry::File {
                        size: host.files[path].len() as u64,
                    },
                ),
                HostNode::Socket => (name.clone(), HostEntry::Other),
            };
            if let EntryStep::Read { target } = job.take_entry(&dir.target, &at, &name, entry)? {
                warnings.extend(job.write_file(vfs, &target, &host.files[&at])?);
            }
        }
    }
    Ok((job.files(), job.bytes(), warnings))
}

fn settings(mounts: Vec<MountConfig>, prompts: Vec<AgentPrompt>) -> MountSettings {
    MountSettings {
        auto_mount_skills: false,
        prompts,
        mounts,
        project_root: "/project".to_string(),
        home: Some("/home/user".to_string()),
        entry_agent: "default".to_string(),
    }
}

fn mount(source: &str, target: &str) -> MountConfig {
    MountConfig {
        source: source.to_string(),
        target: target.to_string(),
    }
}

fn prompt(agent: &str, path: &str) -> AgentPrompt {
    AgentPrompt {
        agent: agent.to_string(),
        system_prompt: Some(path.to_string()),
    }
}

/// Performs all mounts of the settings: the number of mounts and of files.
fn process(host: &Host, settings: MountSettings, vfs: &mut MemoryFs) -> Result<(usize, usize), MountError> {
    let (mut run, first) = MountRun::start(settings);
    let mut ask = first?;
    loop {
        ask = match ask {
            MountAsk::IsDir { path } => run.answer_flag(host.dirs.contains_key(&path))?,
            MountAsk::Exists { path } => {
                run.answer_flag(host.dirs.contains_key(&path) || host.files.contains_key(&path))?
            }
            MountAsk::Canonical { path } => {
                let canonical = host.canonical.get(&path).cloned().unwrap_or(path);
                run.answer_path(Ok(canonical))?
            }
            MountAsk::Size { path } => run.answer_size(Ok(host.files[&path].len() as u64))?,
            MountAsk::Read { path } => run.answer_bytes(vfs, Ok(host.files[&path].clone()))?,
            MountAsk::Copy { source, target } => {
                let (files, _, _) = copy_dir(host, &source, &target, vfs, limits(10_000, 104_857_600))?;
                run.answer_copied(files)?
            }
            MountAsk::Done { mounts, files } => return Ok((mounts, files)),
        };
    }
}

#[test]
fn copy_host_dir_copies_files_recursively_into_vfs() {
    let mut host = Host::default();
    host.add_file("/host/top.txt", b"top content");
    host.add_file("/host/sub/mid.txt", b"mid content");
    host.add_file("/host/sub/nested/deep.txt", b"deep content");
    let mut vfs = MemoryFs::new();
    let (files, bytes, warnings) = copy_dir(&host, "/host", "/mount", &mut vfs, limits(1000, 10_000_000)).unwrap();
    assert_eq!(files, 3);
    assert_eq!(bytes, 34);
    assert!(warnings.is_empty());
    assert_eq!(vfs.read("/mount/top.txt").unwrap(), b"top content");
    assert_eq!(vfs.read("/mount/sub/mid.txt").unwrap(), b"mid content");
    assert_eq!(vfs.read("/mount/sub/nested/deep.txt").unwrap(), b"deep content");
}

#[test]
fn copy_host_dir_creates_empty_directories_in_vfs() {
    let mut host = Host::default();
    host.add_dir("/host/empty_dir");
    let mut vfs = MemoryFs::new();
    let (files, _, _) = copy_dir(&host, "/host", "/mount", &mut vfs, limits(1000, 10_000_000)).unwrap();
    assert_eq!(files, 0);
    assert!(vfs.entry_exists("/mount/empty_dir"));
    assert!(vfs.list_dir("/mount/empty_dir").unwrap().is_empty());
}

#[test]
fn copy_host_dir_file_limit_exceeded_returns_error() {
    let mut host = Host::default();
    for i in 0..5 {
        host.add_file(&format!("/host/file{i}.txt"), b"data");
    }
    let mut vfs = MemoryFs::new();
    let err = copy_dir(&host, "/host", "/mount", &mut vfs, limits(3, 10_000_000)).unwrap_err();
    assert_eq!(
        err,
        MountError::FileLimitExceeded {
            mount_target: "/mount".to_string(),
            actual: 4,
            limit: 3
        }
    );
    assert_eq!(err.to_string(), "mount '/mount' exceeds file limit: 4 files > 3");
}

#[test]
fn copy_host_dir_byte_limit_exceeded_returns_error() {
    let mut host = Host::default();
    host.add_file("/host/big.bin", &[0u8; 500]);
    let mut vfs = MemoryFs::new();
    let err = copy_dir(&host, "/host", "/mount", &mut vfs, limits(1000, 100)).unwrap_err();
    assert_eq!(
        err,
        MountError::SizeLimitExceeded {
            mount_target: "/mount".to_string(),
            actual: 500,
            limit: 100
        }
    );
    assert_eq!(err.to_string(), "mount '/mount' exceeds size limit: 500 bytes > 100");
    assert!(!vfs.entry_exists("/mount/big.bin"));
}

#[test]
fn copy_host_dir_limits_are_per_mount_not_global() {
    let mut host = Host::default();
    for i in 0..3 {
        host.add_file(&format!("/one/a{i}.txt"), b"data");
        host.add_file(&format!("/two/b{i}.txt"), b"data");
    }
    let mut vfs = MemoryFs::new();
    assert!(copy_dir(&host, "/one", "/m1", &mut vfs, limits(5, 10_000_000)).is_ok());
    assert!(copy_dir(&host, "/two", "/m2", &mut vfs, limits(5, 10_000_000)).is_ok());
}

#[test]
fn copy_host_dir_follows_symlinks() {
    let mut host = Host::default();
    host.add_file("/host/real.txt", b"real content");
    host.link_file("/host", "link.txt", "/host/real.txt");
    let mut vfs = MemoryFs::new();
    let (files, _, _) = copy_dir(&host, "/host", "/mount", &mut vfs, limits(1000, 10_000_000)).unwrap();
    assert_eq!(files, 2);
    assert_eq!(vfs.read("/mount/real.txt").unwrap(), b"real content");
    assert_eq!(vfs.read("/mount/link.txt").unwrap(), b"real content");
}

#[test]
fn copy_host_dir_detects_symlink_loops() {
    let mut host = Host::default();
    host.add_dir("/host/dir_a");
    host.add_file("/host/dir_a/file.txt", b"content");
    host.link_dir("/host/dir_a", "loop", "/host");
    let mut vfs = MemoryFs::new();
    copy_dir(&host, "/host", "/mount", &mut vfs, limits(10_000, 100_000_000)).unwrap();
    assert_eq!(vfs.read("/mount/dir_a/file.txt").unwrap(), b"content");
}

#[test]
fn copy_host_dir_80pct_file_threshold_warning_fires() {
    let mut host = Host::default();
    for i in 0..4 {
        host.add_file(&format!("/host/f{i}.txt"), b"data");
    }
    let mut vfs = MemoryFs::new();
    let (files, _, warnings) = copy_dir(&host, "/host", "/mount", &mut vfs, limits(5, 10_000_000)).unwrap();
    assert_eq!(files, 4);
    assert_eq!(warnings, vec!["mount '/mount' approaching file limit: 4/5"]);
}

#[test]
fn copy_host_dir_80pct_byte_threshold_warning_fires() {
    let mut host = Host::default();
    host.add_file("/host/big.txt", &[b'x'; 85]);
    let mut vfs = MemoryFs::new();
    let (files, bytes, warnings) = copy_dir(&host, "/host", "/mount", &mut vfs, limits(1000, 100)).unwrap();
    assert_eq!(files, 1);
    assert_eq!(bytes, 85);
    assert_eq!(warnings, vec!["mount '/mount' approaching size limit: 85/100"]);
}

#[test]
fn entries_that_are_neither_file_nor_directory_are_passed_over() {
    let mut host = Host::default();
    host.add_file("/host/a.txt", b"a");
    host.dirs
        .get_mut("/host")
        .unwrap()
        .push(("socket".to_string(), HostNode::Socket));
    let mut vfs = MemoryFs::new();
    let (files, _, _) = copy_dir(&host, "/host", "/", &mut vfs, limits(10, 1000)).unwrap();
    assert_eq!(files, 1);
    assert_eq!(vfs.list_dir("/").unwrap(), vec!["a.txt"]);
}

#[test]
fn process_host_mounts_auto_mounts_skills_directory() {
    let mut host = Host::default();
    host.add_file("/project/skills/rust-dev/prompt.md", b"skill prompt");
    let mut vfs = MemoryFs::new();
    let mut config = settings(vec![], vec![]);
    config.auto_mount_skills = true;
    process(&host, config, &mut vfs).unwrap();
    assert_eq!(vfs.read("/skills/rust-dev/prompt.md").unwrap(), b"skill prompt");
}

#[test]
fn process_host_mounts_auto_mount_skills_false_skips_skills() {
    let mut host = Host::default();
    host.add_file("/project/skills/something.md", b"content");
    let mut vfs = MemoryFs::new();
    process(&host, settings(vec![], vec![]), &mut vfs).unwrap();
    assert!(!vfs.entry_exists("/skills/something.md"));
}

#[test]
fn process_host_mounts_configured_mount_copies_directory() {
    let mut host = Host::default();
    host.add_file("/project/prompts/system.md", b"system prompt text");
    let mut vfs = MemoryFs::new();
    process(&host, settings(vec![mount("prompts", "/prompts")], vec![]), &mut vfs).unwrap();
    assert_eq!(vfs.read("/prompts/system.md").unwrap(), b"system prompt text");
}

#[test]
fn process_host_mounts_invalid_target_no_leading_slash() {
    let err = process(
        &Host::default(),
        settings(vec![mount("data", "no-slash")], vec![]),
        &mut MemoryFs::new(),
    )
    .unwrap_err();
    assert_eq!(
        err.to_string(),
        "mount target 'no-slash' must be an absolute path (start with '/')"
    );
}

#[test]
fn process_host_mounts_mounting_to_root_is_error() {
    let mut host = Host::default();
    host.add_file("/project/data/a.txt", b"a");
    let mut vfs = MemoryFs::new();
    let before = vfs.snapshot().unwrap();
    let err = process(&host, settings(vec![mount("data", "/")], vec![]), &mut vfs).unwrap_err();
    assert!(matches!(&err, MountError::InvalidMountTarget(msg) if msg.contains("root")));
    assert_eq!(vfs.snapshot().unwrap(), before);
    assert_eq!(check_target("/").unwrap_err(), err);
}

#[test]
fn a_copy_counts_the_files_and_the_bytes_that_it_wrote() {
    let mut host = Host::default();
    host.add_file("/data/a.txt", b"four");
    host.add_file("/data/sub/b.bin", &[0; 10]);
    host.add_file("/data/sub/empty", b"");
    let mut vfs = MemoryFs::new();
    let (files, bytes, _) = copy_dir(&host, "/data", "/mnt/data", &mut vfs, limits(10, 100)).unwrap();
    assert_eq!((files, bytes), (3, 14));
    assert_eq!(vfs.list_dir("/mnt/data").unwrap(), vec!["a.txt".to_string(), "sub".to_string()]);
    assert_eq!(vfs.list_dir("/mnt/data/sub").unwrap(), vec!["b.bin".to_string(), "empty".to_string()]);
    assert_eq!(vfs.read("/mnt/data/a.txt").unwrap(), b"four");
    assert_eq!(vfs.read("/mnt/data/sub/b.bin").unwrap(), vec![0; 10]);
}

#[test]
fn process_host_mounts_nonexistent_source_is_error() {
    let err = process(
        &Host::default(),
        settings(vec![mount("does_not_exist", "/target")], vec![]),
        &mut MemoryFs::new(),
    )
    .unwrap_err();
    assert_eq!(
        err,
        MountError::SourceNotFound {
            source_path: "/project/does_not_exist".to_string(),
            target: "/target".to_string()
        }
    );
}

#[test]
fn process_host_mounts_system_prompt_relative_path_mounted() {
    let mut host = Host::default();
    host.add_file("/project/prompts/planner.md", b"planner system prompt");
    let mut vfs = MemoryFs::new();
    process(&host, settings(vec![], vec![prompt("planner", "prompts/planner.md")]), &mut vfs).unwrap();
    assert_eq!(vfs.read("/prompts/planner.md").unwrap(), b"planner system prompt");
}

#[test]
fn process_host_mounts_absolute_system_prompt_not_mounted() {
    let mut vfs = MemoryFs::new();
    let config = settings(
        vec![],
        vec![
            prompt("agent1", "/absolute/path/prompt.md"),
            prompt("agent2", "~/prompt.md"),
            prompt("agent3", "You are helpful."),
        ],
    );
    process(&Host::default(), config, &mut vfs).unwrap();
    assert!(!vfs.entry_exists("/absolute/path/prompt.md"));
}

#[test]
fn process_host_mounts_missing_entry_agent_prompt_is_error() {
    let mut config = settings(vec![], vec![prompt("entry", "prompts/missing.md")]);
    config.entry_agent = "entry".to_string();
    let err = process(&Host::default(), config, &mut MemoryFs::new()).unwrap_err();
    assert_eq!(
        err,
        MountError::EntryPromptNotFound {
            prompt_path: "prompts/missing.md".to_string(),
            resolved: "/project/prompts/missing.md".to_string()
        }
    );
}

#[test]
fn process_host_mounts_missing_non_entry_agent_prompt_skips_silently() {
    let config = settings(vec![], vec![prompt("helper", "prompts/optional.md")]);
    assert!(process(&Host::default(), config, &mut MemoryFs::new()).is_ok());
}

#[test]
fn process_host_mounts_system_prompt_path_traversal_is_error() {
    let mut host = Host::default();
    host.add_file("/project/prompts/evil.md", b"secret");
    host.canonical.insert(
        "/project/prompts/evil.md".to_string(),
        "/outside/secret.txt".to_string(),
    );
    let mut vfs = MemoryFs::new();
    let config = settings(vec![], vec![prompt("agent1", "prompts/evil.md")]);
    let err = process(&host, config, &mut vfs).unwrap_err();
    assert_eq!(
        err,
        MountError::PathTraversal {
            prompt_path: "prompts/evil.md".to_string(),
            resolved: "/outside/secret.txt".to_string(),
            root: "/project".to_string()
        }
    );
    assert!(!vfs.entry_exists("/prompts/evil.md"));
    assert!(check_inside("p", "/project2/p", "/project").is_err());
    assert!(check_inside("p", "/project/p", "/project").is_ok());
}

#[test]
fn process_host_mounts_system_prompt_too_large_is_error() {
    let mut host = Host::default();
    host.add_file("/project/prompts/huge.md", &vec![b'x'; 1_048_577]);
    let config = settings(vec![], vec![prompt("agent1", "prompts/huge.md")]);
    let err = process(&host, config, &mut MemoryFs::new()).unwrap_err();
    assert_eq!(
        err,
        MountError::PromptTooLarge {
            prompt_path: "prompts/huge.md".to_string(),
            size: 1_048_577
        }
    );
    assert!(check_prompt_size("prompts/huge.md", 1_048_576).is_ok());
}

#[test]
fn what_the_host_says_becomes_the_error() {
    let config = settings(vec![], vec![prompt("agent1", "prompts/p.md")]);
    let (mut run, first) = MountRun::start(config);
    assert_eq!(
        first.unwrap(),
        MountAsk::Exists {
            path: "/project/prompts/p.md".to_string()
        }
    );
    assert_eq!(
        run.answer_flag(true).unwrap(),
        MountAsk::Canonical {
            path: "/project/prompts/p.md".to_string()
        }
    );
    let err = run.answer_path(Err("denied".to_string())).unwrap_err();
    assert_eq!(
        err.to_string(),
        "failed to canonicalize system prompt path: /project/prompts/p.md: denied"
    );
    assert_eq!(
        unreadable_file("/host/x", "gone").to_string(),
        "failed to read file for mount: /host/x: gone"
    );
}

#[test]
fn mounts_and_files_are_counted() {
    let mut host = Host::default();
    host.add_file("/project/skills/a.md", b"a");
    host.add_file("/project/skills/b.md", b"b");
    host.add_file("/project/prompts/p.md", b"p");
    host.add_file("/project/data/d.txt", b"d");
    let mut config = settings(vec![mount("data", "/data")], vec![prompt("agent1", "prompts/p.md")]);
    config.auto_mount_skills = true;
    assert_eq!(process(&host, config, &mut MemoryFs::new()).unwrap(), (3, 4));
}

#[test]
fn process_host_mounts_mount_ordering_skills_before_config() {
    let mut host = Host::default();
    host.add_file("/project/skills/shared.md", b"from skills auto-mount");
    host.add_file("/project/override/shared.md", b"from config mount");
    let mut vfs = MemoryFs::new();
    let mut config = settings(vec![mount("override", "/skills")], vec![]);
    config.auto_mount_skills = true;
    process(&host, config, &mut vfs).unwrap();
    assert_eq!(vfs.read("/skills/shared.md").unwrap(), b"from config mount");
}

#[test]
fn process_host_mounts_overlapping_mounts_union_merge_directories() {
    let mut host = Host::default();
    host.add_file("/project/source_a/a.txt", b"from A");
    host.add_file("/project/source_b/b.txt", b"from B");
    let mut vfs = MemoryFs::new();
    let config = settings(vec![mount("source_a", "/shared"), mount("source_b", "/shared")], vec![]);
    process(&host, config, &mut vfs).unwrap();
    assert_eq!(vfs.read("/shared/a.txt").unwrap(), b"from A");
    assert_eq!(vfs.read("/shared/b.txt").unwrap(), b"from B");
}

#[test]
fn paths_are_joined_as_on_a_host() {
    assert_eq!(join_path("/project", "skills"), "/project/skills");
    assert_eq!(join_path("/project/", "skills"), "/project/skills");
    assert_eq!(join_path("/project", "/abs"), "/abs");
}

#[test]
fn copy_copy_host_dir_includes_hidden_files() {
    let mut host = Host::default();
    host.add_file("/host/.hidden", b"secret");
    host.add_file("/host/visible", b"public");
    let mut vfs = MemoryFs::new();
    let (files, _, _) = copy_dir(&host, "/host", "/mount", &mut vfs, limits(1000, 10_000_000)).unwrap();
    assert_eq!(files, 2);
    assert_eq!(vfs.read("/mount/.hidden").unwrap(), b"secret");
    assert_eq!(vfs.read("/mount/visible").unwrap(), b"public");
}

#[test]
fn tests_copy_host_dir_includes_hidden_files() {
    copy_copy_host_dir_includes_hidden_files();
}

#[test]
fn copy_copy_host_dir_copies_binary_files_as_raw_bytes() {
    let binary_data: Vec<u8> = (0u8..=255).collect();
    let mut host = Host::default();
    host.add_file("/host/binary.bin", &binary_data);
    let mut vfs = MemoryFs::new();
    copy_dir(&host, "/host", "/mount", &mut vfs, limits(1000, 10_000_000)).unwrap();
    assert_eq!(vfs.read("/mount/binary.bin").unwrap(), binary_data);
}

#[test]
fn tests_copy_host_dir_copies_binary_files_as_raw_bytes() {
    copy_copy_host_dir_copies_binary_files_as_raw_bytes();
}

#[test]
fn process_process_host_mounts_no_skills_dir_is_fine() {
    let mut host = Host::default();
    host.add_dir("/project");
    let mut vfs = MemoryFs::new();
    let mut config = settings(Vec::new(), Vec::new());
    config.auto_mount_skills = true;
    let result = process(&host, config, &mut vfs);
    assert!(result.is_ok());
    assert!(!vfs.entry_exists("/skills"));
}

#[test]
fn tests_process_host_mounts_no_skills_dir_is_fine() {
    process_process_host_mounts_no_skills_dir_is_fine();
}

#[test]
fn process_process_host_mounts_empty_mounts_array_is_valid() {
    let mut host = Host::default();
    host.add_dir("/project");
    let mut vfs = MemoryFs::new();
    let result = process(&host, settings(Vec::new(), Vec::new()), &mut vfs);
    assert!(result.is_ok());
    assert_eq!(result.unwrap(), (0, 0));
}

#[test]
fn tests_process_host_mounts_empty_mounts_array_is_valid() {
    process_process_host_mounts_empty_mounts_array_is_valid();
}
