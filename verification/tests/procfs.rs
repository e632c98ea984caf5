#![allow(unused_mut)]

use simulacra::types::{CapabilityToken, Cost, NetworkPermission, PathPattern, ResourceBudget, VfsError, VirtualFs};
use simulacra::vfs::procfs::proc_category;
use simulacra::vfs::{HookLister, MemoryFs, ProcFs, ProcState, ToolLister};
use std::time::Instant;

struct FakeToolLister {
    tools: Vec<(String, String)>,
}

impl FakeToolLister {
    fn default_tools() -> Self {
        Self {
            tools: vec![
                (
                    "file_read".to_string(),
                    "{\"description\":\"Read a file\",\"input_schema\":{\"type\":\"object\"},\"name\":\"file_read\"}".to_string(),
                ),
                (
                    "list_dir".to_string(),
                    "{\"description\":\"List a directory\",\"input_schema\":{\"type\":\"object\"},\"name\":\"list_dir\"}".to_string(),
                ),
            ],
        }
    }
}

impl ToolLister for FakeToolLister {
    fn tool_names(&self) -> Vec<String> {
        self.tools.iter().map(|(n, _)| n.clone()).collect()
    }

    fn tool_json(&self, name: &str) -> Option<String> {
        self.tools.iter().find(|(n, _)| n == name).map(|(_, v)| v.clone())
    }
}

struct FakeHookLister {
    hooks: Vec<(String, Vec<String>)>,
}

impl FakeHookLister {
    fn with_tool_call_hooks() -> Self {
        Self {
            hooks: vec![("tool_call".to_string(), vec!["audit".to_string(), "enforce".to_string()])],
        }
    }

    fn empty() -> Self {
        Self { hooks: vec![] }
    }
}

impl HookLister for FakeHookLister {
    fn hook_names(&self, operation: &str) -> Vec<String> {
        self.hooks
            .iter()
            .find(|(n, _)| n == operation)
            .map(|(_, names)| names.clone())
            .unwrap_or_default()
    }
}

type Proc = ProcFs<MemoryFs, FakeToolLister, FakeHookLister>;

fn default_budget() -> ResourceBudget {
    let mut b = ResourceBudget::new(100_000, 10, Cost::zero(), 0);
    b.used_tokens = 4_521;
    b.used_turns = 3;
    b.used_cost = Cost::new(12, 2);
    b
}

fn default_capabilities() -> CapabilityToken {
    CapabilityToken {
        shell: true,
        javascript: true,
        python: false,
        network: vec![
            NetworkPermission("*".to_string()),
            NetworkPermission("*.github.com".to_string()),
        ],
        mcp_tools: vec!["mcp:*:*".to_string()],
        paths_read: vec![
            PathPattern("/workspace/**".to_string()),
            PathPattern("/proc/**".to_string()),
        ],
        paths_write: vec![
            PathPattern("/workspace/**".to_string()),
            PathPattern("/proc/mailbox/**".to_string()),
        ],
        ..Default::default()
    }
}

fn make_procfs() -> Proc {
    let state = ProcState {
        agent_id: "agent-abc123".to_string(),
        agent_name: "researcher".to_string(),
        model: "sonnet-4-6".to_string(),
        parent_id: None,
        budget: default_budget(),
        capabilities: default_capabilities(),
        tools: FakeToolLister::default_tools(),
        session_id: "session-xyz".to_string(),
        session_start: Instant::now(),
        journal_entries: 42,
        hooks: FakeHookLister::with_tool_call_hooks(),
        turn: 3,
    };
    ProcFs::new(MemoryFs::new(), state)
}

fn make_procfs_child() -> Proc {
    let state = ProcState {
        agent_id: "child-agent".to_string(),
        agent_name: "worker".to_string(),
        model: "sonnet-4-6".to_string(),
        parent_id: Some("parent-agent".to_string()),
        budget: default_budget(),
        capabilities: default_capabilities(),
        tools: FakeToolLister::default_tools(),
        session_id: "session-xyz".to_string(),
        session_start: Instant::now(),
        journal_entries: 0,
        hooks: FakeHookLister::empty(),
        turn: 1,
    };
    ProcFs::new(MemoryFs::new(), state)
}

fn make_procfs_unlimited_budget() -> Proc {
    let mut budget = ResourceBudget::new(0, 0, Cost::zero(), 0);
    budget.used_tokens = 500;
    let state = ProcState {
        agent_id: "agent-unlimited".to_string(),
        agent_name: "default".to_string(),
        model: "sonnet-4-6".to_string(),
        parent_id: None,
        budget,
        capabilities: CapabilityToken::default(),
        tools: FakeToolLister::default_tools(),
        session_id: "session-unlimited".to_string(),
        session_start: Instant::now(),
        journal_entries: 0,
        hooks: FakeHookLister::empty(),
        turn: 0,
    };
    ProcFs::new(MemoryFs::new(), state)
}

fn make_procfs_no_caps() -> Proc {
    let state = ProcState {
        agent_id: "agent-nocaps".to_string(),
        agent_name: "restricted".to_string(),
        model: "sonnet-4-6".to_string(),
        parent_id: None,
        budget: default_budget(),
        capabilities: CapabilityToken {
            shell: false,
            javascript: false,
            python: false,
            ..Default::default()
        },
        tools: FakeToolLister::default_tools(),
        session_id: "session-nocaps".to_string(),
        session_start: Instant::now(),
        journal_entries: 0,
        hooks: FakeHookLister::empty(),
        turn: 0,
    };
    ProcFs::new(MemoryFs::new(), state)
}

fn procfs_read_str(vfs: &Proc, path: &str) -> String {
    String::from_utf8(
        vfs.read(path)
            .unwrap_or_else(|e| panic!("read({path}) failed: {e:?}")),
    )
    .unwrap()
}

fn assert_permission_denied(err: &VfsError) {
    assert!(
        err.to_string().to_ascii_lowercase().contains("permission"),
        "expected a permission-denied error, got {err:?}"
    );
}

#[test]
fn agent_budget_procfs_agent_id_returns_the_agents_configured_id() {
    let mut fs = make_procfs();
    assert_eq!(procfs_read_str(&fs, "/proc/agent/id"), "agent-abc123");
}

#[test]
fn tests_procfs_agent_id_returns_the_agents_configured_id() {
    agent_budget_procfs_agent_id_returns_the_agents_configured_id();
}

#[test]
fn agent_budget_procfs_agent_name_returns_the_agent_type_name() {
    let mut fs = make_procfs();
    assert_eq!(procfs_read_str(&fs, "/proc/agent/name"), "researcher");
}

#[test]
fn tests_procfs_agent_name_returns_the_agent_type_name() {
    agent_budget_procfs_agent_name_returns_the_agent_type_name();
}

#[test]
fn agent_budget_procfs_agent_model_returns_the_model_string() {
    let mut fs = make_procfs();
    assert_eq!(
        procfs_read_str(&fs, "/proc/agent/model"),
        "sonnet-4-6"
    );
}

#[test]
fn tests_procfs_agent_model_returns_the_model_string() {
    agent_budget_procfs_agent_model_returns_the_model_string();
}

#[test]
fn agent_budget_procfs_agent_turn_returns_the_current_turn_number_as_a_string() {
    let mut fs = make_procfs();
    assert_eq!(procfs_read_str(&fs, "/proc/agent/turn"), "3");
}

#[test]
fn tests_procfs_agent_turn_returns_the_current_turn_number_as_a_string() {
    agent_budget_procfs_agent_turn_returns_the_current_turn_number_as_a_string();
}

#[test]
fn agent_budget_procfs_agent_parent_id_returns_empty_string_for_root_agent() {
    let mut fs = make_procfs();
    assert_eq!(procfs_read_str(&fs, "/proc/agent/parent_id"), "");
}

#[test]
fn tests_procfs_agent_parent_id_returns_empty_string_for_root_agent() {
    agent_budget_procfs_agent_parent_id_returns_empty_string_for_root_agent();
}

#[test]
fn agent_budget_procfs_agent_parent_id_returns_parent_id_for_child_agent() {
    let mut fs = make_procfs_child();
    assert_eq!(
        procfs_read_str(&fs, "/proc/agent/parent_id"),
        "parent-agent"
    );
}

#[test]
fn tests_procfs_agent_parent_id_returns_parent_id_for_child_agent() {
    agent_budget_procfs_agent_parent_id_returns_parent_id_for_child_agent();
}

#[test]
fn agent_budget_procfs_budget_max_tokens_returns_the_configured_token_limit() {
    let mut fs = make_procfs();
    assert_eq!(procfs_read_str(&fs, "/proc/budget/max_tokens"), "100000");
}

#[test]
fn tests_procfs_budget_max_tokens_returns_the_configured_token_limit() {
    agent_budget_procfs_budget_max_tokens_returns_the_configured_token_limit();
}

#[test]
fn agent_budget_procfs_budget_used_tokens_returns_current_token_usage() {
    let mut fs = make_procfs();
    assert_eq!(procfs_read_str(&fs, "/proc/budget/used_tokens"), "4521");
}

#[test]
fn tests_procfs_budget_used_tokens_returns_current_token_usage() {
    agent_budget_procfs_budget_used_tokens_returns_current_token_usage();
}

#[test]
fn agent_budget_procfs_budget_remaining_tokens_returns_max_minus_used() {
    let mut fs = make_procfs();
    assert_eq!(
        procfs_read_str(&fs, "/proc/budget/remaining_tokens"),
        "95479"
    );
}

#[test]
fn tests_procfs_budget_remaining_tokens_returns_max_minus_used() {
    agent_budget_procfs_budget_remaining_tokens_returns_max_minus_used();
}

#[test]
fn agent_budget_procfs_budget_remaining_tokens_returns_zero_when_max_tokens_is_zero_unlimited() {
    let mut fs = make_procfs_unlimited_budget();
    assert_eq!(
        procfs_read_str(&fs, "/proc/budget/remaining_tokens"),
        "0",
        "unlimited budget (max=0) should report remaining_tokens as 0"
    );
}

#[test]
fn tests_procfs_budget_remaining_tokens_returns_zero_when_max_tokens_is_zero_unlimited() {
    agent_budget_procfs_budget_remaining_tokens_returns_zero_when_max_tokens_is_zero_unlimited();
}

#[test]
fn agent_budget_procfs_budget_max_turns_returns_the_configured_turn_limit() {
    let mut fs = make_procfs();
    assert_eq!(procfs_read_str(&fs, "/proc/budget/max_turns"), "10");
}

#[test]
fn tests_procfs_budget_max_turns_returns_the_configured_turn_limit() {
    agent_budget_procfs_budget_max_turns_returns_the_configured_turn_limit();
}

#[test]
fn agent_budget_procfs_budget_remaining_turns_returns_max_minus_used() {
    let mut fs = make_procfs();
    assert_eq!(procfs_read_str(&fs, "/proc/budget/remaining_turns"), "7");
}

#[test]
fn tests_procfs_budget_remaining_turns_returns_max_minus_used() {
    agent_budget_procfs_budget_remaining_turns_returns_max_minus_used();
}

#[test]
fn agent_budget_procfs_budget_used_cost_returns_cost_with_two_decimal_places() {
    let mut fs = make_procfs();
    assert_eq!(procfs_read_str(&fs, "/proc/budget/used_cost"), "0.12");
}

#[test]
fn tests_procfs_budget_used_cost_returns_cost_with_two_decimal_places() {
    agent_budget_procfs_budget_used_cost_returns_cost_with_two_decimal_places();
}

#[test]
fn agent_budget_procfs_budget_values_are_dynamic_at_read_time() {
    let state = ProcState {
        agent_id: "agent-dynamic".to_string(),
        agent_name: "default".to_string(),
        model: "model".to_string(),
        parent_id: None,
        budget: ResourceBudget::new(100_000, 10, Cost::zero(), 0),
        capabilities: CapabilityToken::default(),
        tools: FakeToolLister::default_tools(),
        session_id: "s".to_string(),
        session_start: Instant::now(),
        journal_entries: 0,
        hooks: FakeHookLister::empty(),
        turn: 0,
    };
    let mut fs = ProcFs::new(MemoryFs::new(), state);

    let before = procfs_read_str(&fs, "/proc/budget/used_tokens");
    fs.state_mut().budget.used_tokens = 999;
    let after = procfs_read_str(&fs, "/proc/budget/used_tokens");

    assert_eq!(before, "0");
    assert_eq!(after, "999");
}

#[test]
fn tests_procfs_budget_values_are_dynamic_at_read_time() {
    agent_budget_procfs_budget_values_are_dynamic_at_read_time();
}

#[test]
fn directories_procfs_root_directory_listing_returns_expected_sorted_children() {
    let mut fs = make_procfs();
    assert_eq!(
        fs.list_dir("/proc").unwrap(),
        vec![
            "agent",
            "budget",
            "capabilities",
            "hooks",
            "mailbox",
            "session",
            "tools"
        ]
    );
}

#[test]
fn tests_procfs_root_directory_listing_returns_expected_sorted_children() {
    directories_procfs_root_directory_listing_returns_expected_sorted_children();
}

#[test]
fn directories_procfs_agent_directory_listing_returns_all_agent_file_names_sorted() {
    let mut fs = make_procfs();
    assert_eq!(
        fs.list_dir("/proc/agent").unwrap(),
        vec!["id", "model", "name", "parent_id", "turn"]
    );
}

#[test]
fn tests_procfs_agent_directory_listing_returns_all_agent_file_names_sorted() {
    directories_procfs_agent_directory_listing_returns_all_agent_file_names_sorted();
}

#[test]
fn directories_procfs_tools_directory_listing_returns_one_entry_per_tool() {
    let mut fs = make_procfs();
    assert_eq!(
        fs.list_dir("/proc/tools").unwrap(),
        vec!["file_read", "list_dir"]
    );
}

#[test]
fn tests_procfs_tools_directory_listing_returns_one_entry_per_tool() {
    directories_procfs_tools_directory_listing_returns_one_entry_per_tool();
}

#[test]
fn directories_procfs_budget_directory_listing_returns_all_budget_file_names_sorted() {
    let mut fs = make_procfs();
    assert_eq!(
        fs.list_dir("/proc/budget").unwrap(),
        vec![
            "max_cost",
            "max_fuel",
            "max_tokens",
            "max_turns",
            "remaining_tokens",
            "remaining_turns",
            "used_cost",
            "used_fuel",
            "used_tokens",
            "used_turns",
        ]
    );
}

#[test]
fn tests_procfs_budget_directory_listing_returns_all_budget_file_names_sorted() {
    directories_procfs_budget_directory_listing_returns_all_budget_file_names_sorted();
}

#[test]
fn directories_procfs_mailbox_directory_listing_delegates_to_inner_vfs() {
    let mut fs = make_procfs();
    let vfs = &mut fs;
    vfs.write("/proc/mailbox/report.md", b"body").unwrap();
    vfs.write("/proc/mailbox/data.json", b"{}").unwrap();
    let mut names = vfs.list_dir("/proc/mailbox").unwrap();
    names.sort();
    assert_eq!(names, vec!["data.json", "report.md"]);
}

#[test]
fn tests_procfs_mailbox_directory_listing_delegates_to_inner_vfs() {
    directories_procfs_mailbox_directory_listing_delegates_to_inner_vfs();
}

#[test]
fn directories_procfs_mailbox_listing_on_fresh_vfs_returns_empty_list() {
    let mut fs = make_procfs();
    let names = fs.list_dir("/proc/mailbox").unwrap();
    assert!(
        names.is_empty(),
        "empty mailbox should return [] not NotFound; got {names:?}"
    );
}

#[test]
fn tests_procfs_mailbox_listing_on_fresh_vfs_returns_empty_list() {
    directories_procfs_mailbox_listing_on_fresh_vfs_returns_empty_list();
}

#[test]
fn directories_procfs_list_dir_with_trailing_slash_on_proc_root_returns_expected_children() {
    let mut fs = make_procfs();
    assert_eq!(
        fs.list_dir("/proc/").unwrap(),
        vec![
            "agent",
            "budget",
            "capabilities",
            "hooks",
            "mailbox",
            "session",
            "tools"
        ]
    );
}

#[test]
fn tests_procfs_list_dir_with_trailing_slash_on_proc_root_returns_expected_children() {
    directories_procfs_list_dir_with_trailing_slash_on_proc_root_returns_expected_children();
}

#[test]
fn directories_procfs_list_dir_with_trailing_slash_on_agent_subdirectory_returns_expected_children() {
    let mut fs = make_procfs();
    assert_eq!(
        fs.list_dir("/proc/agent/").unwrap(),
        vec!["id", "model", "name", "parent_id", "turn"]
    );
}

#[test]
fn tests_procfs_list_dir_with_trailing_slash_on_agent_subdirectory_returns_expected_children() {
    directories_procfs_list_dir_with_trailing_slash_on_agent_subdirectory_returns_expected_children();
}

#[test]
fn directories_procfs_list_dir_with_trailing_slash_on_budget_subdirectory_returns_expected_children() {
    let mut fs = make_procfs();
    let listing = fs.list_dir("/proc/budget/").unwrap();
    assert!(listing.contains(&"max_tokens".to_string()));
    assert!(listing.contains(&"used_tokens".to_string()));
    assert!(listing.contains(&"remaining_tokens".to_string()));
}

#[test]
fn tests_procfs_list_dir_with_trailing_slash_on_budget_subdirectory_returns_expected_children() {
    directories_procfs_list_dir_with_trailing_slash_on_budget_subdirectory_returns_expected_children();
}

#[test]
fn directories_procfs_metadata_for_proc_root_with_trailing_slash_returns_directory_metadata() {
    let mut fs = make_procfs();
    let meta = fs.metadata("/proc/").unwrap();
    assert!(meta.is_dir);
    assert!(!meta.is_file);
}

#[test]
fn tests_procfs_metadata_for_proc_root_with_trailing_slash_returns_directory_metadata() {
    directories_procfs_metadata_for_proc_root_with_trailing_slash_returns_directory_metadata();
}

#[test]
fn directories_procfs_write_to_agent_id_returns_permission_denied() {
    let mut fs = make_procfs();
    let err = fs
        .write("/proc/agent/id", b"mutated")
        .expect_err("/proc/agent/id should be read-only");
    assert_permission_denied(&err);
}

#[test]
fn tests_procfs_write_to_agent_id_returns_permission_denied() {
    directories_procfs_write_to_agent_id_returns_permission_denied();
}

#[test]
fn directories_procfs_write_to_budget_max_tokens_returns_permission_denied() {
    let mut fs = make_procfs();
    let err = fs
        .write("/proc/budget/max_tokens", b"999")
        .expect_err("/proc/budget/* should be read-only");
    assert_permission_denied(&err);
}

#[test]
fn tests_procfs_write_to_budget_max_tokens_returns_permission_denied() {
    directories_procfs_write_to_budget_max_tokens_returns_permission_denied();
}

#[test]
fn directories_procfs_remove_tool_entry_returns_permission_denied() {
    let mut fs = make_procfs();
    let err = fs
        .remove("/proc/tools/file_read")
        .expect_err("/proc/tools/* should be immutable");
    assert_permission_denied(&err);
}

#[test]
fn tests_procfs_remove_tool_entry_returns_permission_denied() {
    directories_procfs_remove_tool_entry_returns_permission_denied();
}

#[test]
fn directories_procfs_mkdir_under_proc_returns_permission_denied() {
    let mut fs = make_procfs();
    let err = fs
        .mkdir("/proc/custom")
        .expect_err("creating /proc directories should be rejected");
    assert_permission_denied(&err);
}

#[test]
fn tests_procfs_mkdir_under_proc_returns_permission_denied() {
    directories_procfs_mkdir_under_proc_returns_permission_denied();
}

#[test]
fn directories_procfs_rejects_all_non_mailbox_write_operations() {
    let mut fs = make_procfs();
    let vfs = &mut fs;
    assert_permission_denied(
        &vfs.write("/proc/session/id", b"x")
            .expect_err("session id write should be denied"),
    );
    assert_permission_denied(
        &vfs.remove("/proc/agent/id")
            .expect_err("agent id remove should be denied"),
    );
    assert_permission_denied(
        &vfs.mkdir("/proc/budget/new")
            .expect_err("budget mkdir should be denied"),
    );
}

#[test]
fn tests_procfs_rejects_all_non_mailbox_write_operations() {
    directories_procfs_rejects_all_non_mailbox_write_operations();
}

#[test]
fn directories_procfs_mailbox_write_to_report_md_succeeds() {
    let mut fs = make_procfs();
    let vfs = &mut fs;
    vfs.write("/proc/mailbox/report.md", b"report body")
        .unwrap();
}

#[test]
fn tests_procfs_mailbox_write_to_report_md_succeeds() {
    directories_procfs_mailbox_write_to_report_md_succeeds();
}

#[test]
fn directories_procfs_mailbox_read_returns_written_content() {
    let mut fs = make_procfs();
    let vfs = &mut fs;
    vfs.write("/proc/mailbox/report.md", b"report body")
        .unwrap();
    assert_eq!(vfs.read("/proc/mailbox/report.md").unwrap(), b"report body");
}

#[test]
fn tests_procfs_mailbox_read_returns_written_content() {
    directories_procfs_mailbox_read_returns_written_content();
}

#[test]
fn directories_procfs_mailbox_list_dir_shows_written_files() {
    let mut fs = make_procfs();
    let vfs = &mut fs;
    vfs.write("/proc/mailbox/report.md", b"body").unwrap();
    vfs.write("/proc/mailbox/analysis.json", b"{}").unwrap();
    let mut names = vfs.list_dir("/proc/mailbox").unwrap();
    names.sort();
    assert_eq!(names, vec!["analysis.json", "report.md"]);
}

#[test]
fn tests_procfs_mailbox_list_dir_shows_written_files() {
    directories_procfs_mailbox_list_dir_shows_written_files();
}

#[test]
fn directories_procfs_mailbox_files_survive_snapshot_and_restore() {
    let mut fs = make_procfs();
    let vfs = &mut fs;
    vfs.write("/proc/mailbox/report.md", b"report body")
        .unwrap();
    let snap = vfs.snapshot().unwrap();
    vfs.remove("/proc/mailbox/report.md").unwrap();
    vfs.restore(&snap).unwrap();
    assert_eq!(vfs.read("/proc/mailbox/report.md").unwrap(), b"report body");
}

#[test]
fn tests_procfs_mailbox_files_survive_snapshot_and_restore() {
    directories_procfs_mailbox_files_survive_snapshot_and_restore();
}

#[test]
fn metadata_procfs_exists_returns_true_for_agent_id() {
    let mut fs = make_procfs();
    assert!(fs.entry_exists("/proc/agent/id"));
}

#[test]
fn tests_procfs_exists_returns_true_for_agent_id() {
    metadata_procfs_exists_returns_true_for_agent_id();
}

#[test]
fn metadata_procfs_exists_returns_false_for_nonexistent_proc_path() {
    let mut fs = make_procfs();
    assert!(!fs.entry_exists("/proc/nonexistent"));
}

#[test]
fn tests_procfs_exists_returns_false_for_nonexistent_proc_path() {
    metadata_procfs_exists_returns_false_for_nonexistent_proc_path();
}

#[test]
fn metadata_procfs_metadata_for_agent_directory_returns_directory_metadata() {
    let mut fs = make_procfs();
    let md = fs.metadata("/proc/agent").unwrap();
    assert!(md.is_dir);
    assert!(!md.is_file);
}

#[test]
fn tests_procfs_metadata_for_agent_directory_returns_directory_metadata() {
    metadata_procfs_metadata_for_agent_directory_returns_directory_metadata();
}

#[test]
fn metadata_procfs_metadata_for_agent_id_returns_file_metadata_with_correct_size() {
    let mut fs = make_procfs();
    let md = fs.metadata("/proc/agent/id").unwrap();
    assert!(md.is_file);
    assert!(!md.is_dir);
    assert_eq!(md.size, "agent-abc123".len() as u64);
}

#[test]
fn tests_procfs_metadata_for_agent_id_returns_file_metadata_with_correct_size() {
    metadata_procfs_metadata_for_agent_id_returns_file_metadata_with_correct_size();
}

#[test]
fn metadata_procfs_metadata_for_proc_root_returns_directory_metadata() {
    let mut fs = make_procfs();
    let md = fs.metadata("/proc").unwrap();
    assert!(md.is_dir);
    assert!(!md.is_file);
}

#[test]
fn tests_procfs_metadata_for_proc_root_returns_directory_metadata() {
    metadata_procfs_metadata_for_proc_root_returns_directory_metadata();
}

#[test]
fn metadata_procfs_read_unknown_proc_path_returns_not_found() {
    let mut fs = make_procfs();
    assert!(matches!(
        fs.read("/proc/nonexistent"),
        Err(VfsError::NotFound(_))
    ));
}

#[test]
fn tests_procfs_read_unknown_proc_path_returns_not_found() {
    metadata_procfs_read_unknown_proc_path_returns_not_found();
}

#[test]
fn metadata_procfs_read_unknown_agent_child_path_returns_not_found() {
    let mut fs = make_procfs();
    assert!(matches!(
        fs.read("/proc/agent/nonexistent"),
        Err(VfsError::NotFound(_))
    ));
}

#[test]
fn tests_procfs_read_unknown_agent_child_path_returns_not_found() {
    metadata_procfs_read_unknown_agent_child_path_returns_not_found();
}

#[test]
fn metadata_procfs_list_dir_unknown_subtree_returns_not_found() {
    let mut fs = make_procfs();
    assert!(matches!(
        fs.list_dir("/proc/nonexistent"),
        Err(VfsError::NotFound(_))
    ));
}

#[test]
fn tests_procfs_list_dir_unknown_subtree_returns_not_found() {
    metadata_procfs_list_dir_unknown_subtree_returns_not_found();
}

#[test]
fn metadata_procfs_non_proc_paths_delegate_to_inner_vfs() {
    let mut fs = make_procfs();
    let vfs = &mut fs;
    vfs.write("/workspace/file.txt", b"hello").unwrap();
    assert_eq!(vfs.read("/workspace/file.txt").unwrap(), b"hello");
}

#[test]
fn tests_procfs_non_proc_paths_delegate_to_inner_vfs() {
    metadata_procfs_non_proc_paths_delegate_to_inner_vfs();
}

#[test]
fn tools_session_hooks_procfs_capabilities_shell_returns_true_when_shell_is_granted() {
    let mut fs = make_procfs();
    assert_eq!(procfs_read_str(&fs, "/proc/capabilities/shell"), "true");
}

#[test]
fn tests_procfs_capabilities_shell_returns_true_when_shell_is_granted() {
    tools_session_hooks_procfs_capabilities_shell_returns_true_when_shell_is_granted();
}

#[test]
fn tools_session_hooks_procfs_capabilities_shell_returns_false_when_shell_is_not_granted() {
    let mut fs = make_procfs_no_caps();
    assert_eq!(procfs_read_str(&fs, "/proc/capabilities/shell"), "false");
}

#[test]
fn tests_procfs_capabilities_shell_returns_false_when_shell_is_not_granted() {
    tools_session_hooks_procfs_capabilities_shell_returns_false_when_shell_is_not_granted();
}

#[test]
fn tools_session_hooks_procfs_capabilities_network_returns_newline_separated_patterns() {
    let mut fs = make_procfs();
    assert_eq!(
        procfs_read_str(&fs, "/proc/capabilities/network"),
        "*\n*.github.com"
    );
}

#[test]
fn tests_procfs_capabilities_network_returns_newline_separated_patterns() {
    tools_session_hooks_procfs_capabilities_network_returns_newline_separated_patterns();
}

#[test]
fn tools_session_hooks_procfs_capabilities_network_returns_empty_string_when_no_network_access() {
    let mut fs = make_procfs_no_caps();
    assert_eq!(procfs_read_str(&fs, "/proc/capabilities/network"), "");
}

#[test]
fn tests_procfs_capabilities_network_returns_empty_string_when_no_network_access() {
    tools_session_hooks_procfs_capabilities_network_returns_empty_string_when_no_network_access();
}

#[test]
fn tools_session_hooks_procfs_capabilities_paths_read_returns_newline_separated_patterns() {
    let mut fs = make_procfs();
    assert_eq!(
        procfs_read_str(&fs, "/proc/capabilities/paths_read"),
        "/workspace/**\n/proc/**"
    );
}

#[test]
fn tests_procfs_capabilities_paths_read_returns_newline_separated_patterns() {
    tools_session_hooks_procfs_capabilities_paths_read_returns_newline_separated_patterns();
}

#[test]
fn tools_session_hooks_procfs_capabilities_mcp_tools_returns_newline_separated_patterns() {
    let mut fs = make_procfs();
    assert_eq!(
        procfs_read_str(&fs, "/proc/capabilities/mcp_tools"),
        "mcp:*:*"
    );
}

#[test]
fn tests_procfs_capabilities_mcp_tools_returns_newline_separated_patterns() {
    tools_session_hooks_procfs_capabilities_mcp_tools_returns_newline_separated_patterns();
}

#[test]
fn tools_session_hooks_procfs_capabilities_paths_write_returns_newline_separated_patterns() {
    let mut fs = make_procfs();
    assert_eq!(
        procfs_read_str(&fs, "/proc/capabilities/paths_write"),
        "/workspace/**\n/proc/mailbox/**"
    );
}

#[test]
fn tests_procfs_capabilities_paths_write_returns_newline_separated_patterns() {
    tools_session_hooks_procfs_capabilities_paths_write_returns_newline_separated_patterns();
}

#[test]
fn tools_session_hooks_procfs_tools_listing_returns_registered_tool_names_sorted() {
    let mut fs = make_procfs();
    let names = fs.list_dir("/proc/tools").unwrap();
    assert_eq!(names, vec!["file_read", "list_dir"]);
}

#[test]
fn tests_procfs_tools_listing_returns_registered_tool_names_sorted() {
    tools_session_hooks_procfs_tools_listing_returns_registered_tool_names_sorted();
}

#[test]
fn tools_session_hooks_procfs_tools_named_entry_returns_json_with_name_description_and_input_schema() {
    let mut fs = make_procfs();
    let raw = procfs_read_str(&fs, "/proc/tools/file_read");
    let v: serde_json::Value = serde_json::from_str(&raw).expect("tool JSON must be valid");
    assert_eq!(v["name"], "file_read");
    assert!(v["description"].is_string());
    assert!(v["input_schema"].is_object());
}

#[test]
fn tests_procfs_tools_named_entry_returns_json_with_name_description_and_input_schema() {
    tools_session_hooks_procfs_tools_named_entry_returns_json_with_name_description_and_input_schema();
}

#[test]
fn tools_session_hooks_procfs_tools_nonexistent_tool_returns_not_found_error() {
    let mut fs = make_procfs();
    assert!(matches!(
        fs.read("/proc/tools/nosuch"),
        Err(VfsError::NotFound(_))
    ));
}

#[test]
fn tests_procfs_tools_nonexistent_tool_returns_not_found_error() {
    tools_session_hooks_procfs_tools_nonexistent_tool_returns_not_found_error();
}

#[test]
fn tools_session_hooks_procfs_tool_listing_reflects_dynamic_registry_changes() {
    let state = ProcState {
        agent_id: "a".to_string(),
        agent_name: "a".to_string(),
        model: "m".to_string(),
        parent_id: None,
        budget: default_budget(),
        capabilities: CapabilityToken::default(),
        tools: FakeToolLister {
            tools: vec![("tool_a".to_string(), String::new())],
        },
        session_id: "s".to_string(),
        session_start: Instant::now(),
        journal_entries: 0,
        hooks: FakeHookLister::empty(),
        turn: 0,
    };
    let mut fs = ProcFs::new(MemoryFs::new(), state);

    let before = fs.list_dir("/proc/tools").unwrap();
    fs.state_mut().tools.tools.push(("tool_b".to_string(), String::new()));
    let after = fs.list_dir("/proc/tools").unwrap();

    assert_eq!(before, vec!["tool_a"]);
    assert_eq!(after, vec!["tool_a", "tool_b"]);
}

#[test]
fn tests_procfs_tool_listing_reflects_dynamic_registry_changes() {
    tools_session_hooks_procfs_tool_listing_reflects_dynamic_registry_changes();
}

#[test]
fn tools_session_hooks_procfs_session_id_returns_the_session_id() {
    let mut fs = make_procfs();
    assert_eq!(procfs_read_str(&fs, "/proc/session/id"), "session-xyz");
}

#[test]
fn tests_procfs_session_id_returns_the_session_id() {
    tools_session_hooks_procfs_session_id_returns_the_session_id();
}

#[test]
fn tools_session_hooks_procfs_session_uptime_ms_returns_a_numeric_string_that_increases_over_time() {
    let fs = make_procfs();
    let first: u64 = procfs_read_str(&fs, "/proc/session/uptime_ms")
        .parse()
        .expect("uptime_ms should be a number");
    let start = Instant::now();
    while start.elapsed() < std::time::Duration::from_millis(2) {}
    let second: u64 = procfs_read_str(&fs, "/proc/session/uptime_ms")
        .parse()
        .expect("uptime_ms should stay numeric");
    assert!(second >= first, "uptime_ms should not decrease");
}

#[test]
fn tests_procfs_session_uptime_ms_returns_a_numeric_string_that_increases_over_time() {
    tools_session_hooks_procfs_session_uptime_ms_returns_a_numeric_string_that_increases_over_time();
}

#[test]
fn tools_session_hooks_procfs_session_journal_entries_returns_current_count() {
    let mut fs = make_procfs();
    assert_eq!(procfs_read_str(&fs, "/proc/session/journal_entries"), "42");
}

#[test]
fn tests_procfs_session_journal_entries_returns_current_count() {
    tools_session_hooks_procfs_session_journal_entries_returns_current_count();
}

#[test]
fn tools_session_hooks_procfs_hooks_tool_call_returns_newline_separated_hook_names() {
    let mut fs = make_procfs();
    assert_eq!(
        procfs_read_str(&fs, "/proc/hooks/tool_call"),
        "audit\nenforce"
    );
}

#[test]
fn tests_procfs_hooks_tool_call_returns_newline_separated_hook_names() {
    tools_session_hooks_procfs_hooks_tool_call_returns_newline_separated_hook_names();
}

#[test]
fn tools_session_hooks_procfs_hooks_tool_call_returns_empty_string_when_no_hooks_registered() {
    let mut fs = make_procfs_child();
    assert_eq!(procfs_read_str(&fs, "/proc/hooks/tool_call"), "");
}

#[test]
fn tests_procfs_hooks_tool_call_returns_empty_string_when_no_hooks_registered() {
    tools_session_hooks_procfs_hooks_tool_call_returns_empty_string_when_no_hooks_registered();
}

#[test]
fn tools_session_hooks_procfs_hooks_directory_lists_all_four_operation_types() {
    let mut fs = make_procfs();
    let names = fs.list_dir("/proc/hooks").unwrap();
    assert_eq!(names, vec!["http_request", "llm", "spawn", "tool_call"]);
}

#[test]
fn tests_procfs_hooks_directory_lists_all_four_operation_types() {
    tools_session_hooks_procfs_hooks_directory_lists_all_four_operation_types();
}

#[test]
fn paths_of_the_state_have_a_category() {
    assert_eq!(proc_category("/proc/budget/max_tokens").as_deref(), Some("budget"));
    assert_eq!(proc_category("/proc//tools/").as_deref(), Some("tools"));
    assert_eq!(proc_category("/proc").as_deref(), Some("proc"));
    assert_eq!(proc_category("/proc/mailbox/a"), None);
    assert_eq!(proc_category("/workspace/a"), None);
}
