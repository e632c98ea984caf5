//! Host-filesystem mounts: what is copied from where to where, and within which limits.
//!
//! Everything here decides; the host filesystem is asked elsewhere, and its answers are
//! handed in. Host paths are texts with `/` between their components.
use crate::path::{is_under, under};
use crate::text::{before_last_slash, concat, concat3, copy, decimal, ends_with, has_char, number, parent, skip, starts_with, strip_prefix};
use crate::types::vfs::{unit_out, vfs_message, VfsErrorView, VirtualFs};
use vstd::prelude::*;
use vstd::string::*;

verus! {

broadcast use vstd::seq_lib::group_seq_properties;

// ---- Errors ------------------------------------------------------------------

/// Errors that can occur during VFS mount operations.
#[derive(Debug, PartialEq, Eq)]
pub enum MountError {
    /// An I/O operation failed (reading host files, stat, canonicalize, etc.).
    Io { context: String, source: String },
    /// A VFS write operation failed.
    VfsWrite { path: String, detail: String },
    /// A mount exceeded the per-mount file count limit.
    FileLimitExceeded { mount_target: String, actual: usize, limit: usize },
    /// A mount exceeded the per-mount byte size limit.
    SizeLimitExceeded { mount_target: String, actual: u64, limit: u64 },
    /// A config path has no parent directory.
    NoParentDirectory,
    /// A system prompt resolved outside the project root (path traversal).
    PathTraversal { prompt_path: String, resolved: String, root: String },
    /// A system prompt file exceeds the size limit.
    PromptTooLarge { prompt_path: String, size: u64 },
    /// A mount target path is invalid.
    InvalidMountTarget(String),
    /// A mount source path does not exist.
    SourceNotFound { source_path: String, target: String },
    /// An entry agent's system prompt file was not found.
    EntryPromptNotFound { prompt_path: String, resolved: String },
}

/// What a [`MountError`] says.
#[verifier::ext_equal]
pub enum MountErrorView {
    Io { context: Seq<char>, source: Seq<char> },
    VfsWrite { path: Seq<char>, detail: Seq<char> },
    FileLimitExceeded { mount_target: Seq<char>, actual: nat, limit: nat },
    SizeLimitExceeded { mount_target: Seq<char>, actual: nat, limit: nat },
    NoParentDirectory,
    PathTraversal { prompt_path: Seq<char>, resolved: Seq<char>, root: Seq<char> },
    PromptTooLarge { prompt_path: Seq<char>, size: nat },
    InvalidMountTarget(Seq<char>),
    SourceNotFound { source_path: Seq<char>, target: Seq<char> },
    EntryPromptNotFound { prompt_path: Seq<char>, resolved: Seq<char> },
}

impl View for MountError {
    type V = MountErrorView;

    open spec fn view(&self) -> MountErrorView {
        match self {
            MountError::Io { context, source } => MountErrorView::Io { context: context@, source: source@ },
            MountError::VfsWrite { path, detail } => MountErrorView::VfsWrite { path: path@, detail: detail@ },
            MountError::FileLimitExceeded { mount_target, actual, limit } => MountErrorView::FileLimitExceeded {
                mount_target: mount_target@,
                actual: *actual as nat,
                limit: *limit as nat,
            },
            MountError::SizeLimitExceeded { mount_target, actual, limit } => MountErrorView::SizeLimitExceeded {
                mount_target: mount_target@,
                actual: *actual as nat,
                limit: *limit as nat,
            },
            MountError::NoParentDirectory => MountErrorView::NoParentDirectory,
            MountError::PathTraversal { prompt_path, resolved, root } => MountErrorView::PathTraversal {
                prompt_path: prompt_path@,
                resolved: resolved@,
                root: root@,
            },
            MountError::PromptTooLarge { prompt_path, size } => MountErrorView::PromptTooLarge {
                prompt_path: prompt_path@,
                size: *size as nat,
            },
            MountError::InvalidMountTarget(text) => MountErrorView::InvalidMountTarget(text@),
            MountError::SourceNotFound { source_path, target } => MountErrorView::SourceNotFound {
                source_path: source_path@,
                target: target@,
            },
            MountError::EntryPromptNotFound { prompt_path, resolved } => MountErrorView::EntryPromptNotFound {
                prompt_path: prompt_path@,
                resolved: resolved@,
            },
        }
    }
}

/// The text of a [`MountError`].
pub open spec fn mount_message(e: MountErrorView) -> Seq<char> {
    match e {
        MountErrorView::Io { context, source } => context + ": "@ + source,
        MountErrorView::VfsWrite { path, detail } => "failed to write to VFS at "@ + path + ": "@ + detail,
        MountErrorView::FileLimitExceeded { mount_target, actual, limit } => "mount '"@ + mount_target
            + "' exceeds file limit: "@ + decimal(actual) + " files > "@ + decimal(limit),
        MountErrorView::SizeLimitExceeded { mount_target, actual, limit } => "mount '"@ + mount_target
            + "' exceeds size limit: "@ + decimal(actual) + " bytes > "@ + decimal(limit),
        MountErrorView::NoParentDirectory => "config path has no parent directory"@,
        MountErrorView::PathTraversal { prompt_path, resolved, root } => "system prompt '"@ + prompt_path
            + "' resolves to "@ + resolved + " which is outside the project root "@ + root,
        MountErrorView::PromptTooLarge { prompt_path, size } => "system prompt '"@ + prompt_path + "' is "@
            + decimal(size) + " bytes, which exceeds the 1 MB limit"@,
        MountErrorView::InvalidMountTarget(text) => text,
        MountErrorView::SourceNotFound { source_path, target } => "mount source does not exist: "@ + source_path
            + " (for mount target '"@ + target + "')"@,
        MountErrorView::EntryPromptNotFound { prompt_path, resolved } => "entry agent system prompt not found: "@
            + prompt_path + " (resolved to "@ + resolved + ")"@,
    }
}

impl MountError {
    /// What the error says.
    pub fn to_string(&self) -> (r: String)
        ensures
            r@ == mount_message(self@),
    {
        match self {
            MountError::Io { context, source } => concat3(context.as_str(), ": ", source.as_str()),
            MountError::VfsWrite { path, detail } => {
                let mut r = concat3("failed to write to VFS at ", path.as_str(), ": ");
                r.append(detail.as_str());
                r
            },
            MountError::FileLimitExceeded { mount_target, actual, limit } => {
                let mut r = concat3("mount '", mount_target.as_str(), "' exceeds file limit: ");
                r.append(number(*actual as u64).as_str());
                r.append(" files > ");
                r.append(number(*limit as u64).as_str());
                r
            },
            MountError::SizeLimitExceeded { mount_target, actual, limit } => {
                let mut r = concat3("mount '", mount_target.as_str(), "' exceeds size limit: ");
                r.append(number(*actual).as_str());
                r.append(" bytes > ");
                r.append(number(*limit).as_str());
                r
            },
            MountError::NoParentDirectory => copy("config path has no parent directory"),
            MountError::PathTraversal { prompt_path, resolved, root } => {
                let mut r = concat3("system prompt '", prompt_path.as_str(), "' resolves to ");
                r.append(resolved.as_str());
                r.append(" which is outside the project root ");
                r.append(root.as_str());
                r
            },
            MountError::PromptTooLarge { prompt_path, size } => {
                let mut r = concat3("system prompt '", prompt_path.as_str(), "' is ");
                r.append(number(*size).as_str());
                r.append(" bytes, which exceeds the 1 MB limit");
                r
            },
            MountError::InvalidMountTarget(text) => text.clone(),
            MountError::SourceNotFound { source_path, target } => {
                let mut r = concat3("mount source does not exist: ", source_path.as_str(), " (for mount target '");
                r.append(target.as_str());
                r.append("')");
                r
            },
            MountError::EntryPromptNotFound { prompt_path, resolved } => {
                let mut r = concat3(
                    "entry agent system prompt not found: ",
                    prompt_path.as_str(),
                    " (resolved to ",
                );
                r.append(resolved.as_str());
                r.append(")");
                r
            },
        }
    }
}

// ---- Host paths --------------------------------------------------------------

/// The path starts at the root.
pub open spec fn is_absolute(path: Seq<char>) -> bool {
    path.len() > 0 && path[0] == '/'
}

fn starts_at_root(path: &str) -> (r: bool)
    ensures
        r == is_absolute(path@),
{
    path.unicode_len() > 0 && path.get_char(0) == '/'
}

/// `path` seen from `base`: `path` itself where it is absolute, else below `base`.
pub open spec fn joined(base: Seq<char>, path: Seq<char>) -> Seq<char> {
    if is_absolute(path) {
        path
    } else if base.len() == 0 || base.last() == '/' {
        base + path
    } else {
        base + seq!['/'] + path
    }
}

/// `path` seen from `base`.
pub fn join_path(base: &str, path: &str) -> (r: String)
    ensures
        r@ == joined(base@, path@),
{
    proof {
        reveal_strlit("/");
        assert("/"@ =~= seq!['/']);
    }
    if starts_at_root(path) {
        copy(path)
    } else if base.is_empty() || ends_with(base, "/") {
        proof {
            if base@.len() > 0 {
                assert(base@.last() == base@.skip(base@.len() - 1)[0]);
            }
        }
        concat(base, path)
    } else {
        proof {
            if base@.last() == '/' {
                assert(base@.skip(base@.len() - 1) =~= "/"@);
            }
        }
        concat3(base, "/", path)
    }
}

/// Without slashes and `.` components at the end.
pub open spec fn without_empty_end(path: Seq<char>) -> Seq<char>
    decreases path.len(),
{
    if path.len() > 0 && path.last() == '/' {
        without_empty_end(path.drop_last())
    } else if path.len() > 1 && path.last() == '.' && path[path.len() - 2] == '/' {
        without_empty_end(path.drop_last())
    } else {
        path
    }
}

fn trim_end(path: &str) -> (r: String)
    ensures
        r@ == without_empty_end(path@),
{
    let chars = crate::text::chars_of(path);
    let mut n: usize = chars.len();
    assert(path@.take(n as int) =~= path@);
    while n > 0 && (chars[n - 1] == '/' || (n > 1 && chars[n - 1] == '.' && chars[n - 2] == '/'))
        invariant
            n <= chars@.len(),
            chars@ == path@,
            without_empty_end(path@) == without_empty_end(path@.take(n as int)),
        decreases n,
    {
        assert(path@.take(n as int).drop_last() =~= path@.take(n - 1));
        n = n - 1;
    }
    crate::text::string_of(&chars, 0, n)
}

/// The directory that an absolute path stands in. The root stands in none.
pub open spec fn host_parent(path: Seq<char>) -> Option<Seq<char>> {
    match before_last_slash(without_empty_end(path)) {
        None => None,
        Some(dir) => if without_empty_end(dir).len() == 0 {
            Some(seq!['/'])
        } else {
            Some(without_empty_end(dir))
        },
    }
}

/// The directory that an absolute path stands in.
pub fn parent_dir(path: &str) -> (r: Option<String>)
    ensures
        crate::text::opt_text(r) == host_parent(path@),
{
    let trimmed = trim_end(path);
    match parent(trimmed.as_str()) {
        None => None,
        Some(dir) => {
            let dir = trim_end(dir.as_str());
            if dir.as_str().is_empty() {
                proof {
                    reveal_strlit("/");
                    assert("/"@ =~= seq!['/']);
                }
                Some(copy("/"))
            } else {
                Some(dir)
            }
        },
    }
}

/// A canonical path lies in the directory `root`, or is it.
pub open spec fn lies_in(path: Seq<char>, root: Seq<char>) -> bool {
    root == "/"@ || under(path, root)
}

/// The user-visible form of a path of a system whose `/var`, `/tmp` and `/etc` are links
/// to directories under `/private`.
pub open spec fn without_private(path: Seq<char>) -> Seq<char> {
    if "/private/var/"@.is_prefix_of(path) {
        "/var/"@ + path.skip("/private/var/"@.len() as int)
    } else if "/private/tmp/"@.is_prefix_of(path) {
        "/tmp/"@ + path.skip("/private/tmp/"@.len() as int)
    } else if "/private/etc/"@.is_prefix_of(path) {
        "/etc/"@ + path.skip("/private/etc/"@.len() as int)
    } else {
        path
    }
}

/// The user-visible form of a path of a system whose `/var`, `/tmp` and `/etc` are links
/// to directories under `/private`.
pub fn strip_private_prefix(path: &str) -> (r: String)
    ensures
        r@ == without_private(path@),
{
    if let Some(rest) = strip_prefix(path, "/private/var/") {
        return concat("/var/", rest);
    }
    if let Some(rest) = strip_prefix(path, "/private/tmp/") {
        return concat("/tmp/", rest);
    }
    if let Some(rest) = strip_prefix(path, "/private/etc/") {
        return concat("/etc/", rest);
    }
    copy(path)
}

/// `path` with a leading `~` replaced by the home directory, where there is one.
pub open spec fn tilde_expanded(path: Seq<char>, home: Option<Seq<char>>) -> Seq<char> {
    if home is Some && (path == "~"@ || "~/"@.is_prefix_of(path)) {
        home->0 + path.skip(1)
    } else {
        path
    }
}

/// The text behind an optional reference.
pub open spec fn opt_str(s: Option<&str>) -> Option<Seq<char>> {
    match s {
        Some(t) => Some(t@),
        None => None,
    }
}

/// Expand a leading `~/` or a lone `~` to the home directory. Without a home directory
/// the path stays as it is.
pub fn expand_tilde(path: &str, home: Option<&str>) -> (r: String)
    ensures
        r@ == tilde_expanded(path@, opt_str(home)),
{
    match home {
        Some(home) => if *path == *"~" || starts_with(path, "~/") {
            proof {
                reveal_strlit("~");
                reveal_strlit("~/");
            }
            concat(home, skip(path, 1))
        } else {
            copy(path)
        },
        None => copy(path),
    }
}

/// Resolve a mount source path against the project root.
/// - Absolute paths are used directly.
/// - Tilde-prefixed paths are expanded first.
/// - Relative paths are joined with the project root.
/// - Environment variables are NOT expanded.
pub fn resolve_mount_source(source: &str, home: Option<&str>, project_root: &str) -> (r: String)
    ensures
        r@ == joined(project_root@, tilde_expanded(source@, opt_str(home))),
{
    let expanded = expand_tilde(source, home);
    join_path(project_root, expanded.as_str())
}

/// The working directory, or why it cannot be told.
pub open spec fn cwd_view(cwd: Result<String, String>) -> Result<Seq<char>, Seq<char>> {
    match cwd {
        Ok(dir) => Ok(dir@),
        Err(e) => Err(e@),
    }
}

/// The project root: the directory of the config file, or the working directory where
/// there is no config file.
pub open spec fn project_root_of(
    config_path: Seq<char>,
    is_adhoc: bool,
    cwd: Result<Seq<char>, Seq<char>>,
) -> Result<Seq<char>, MountErrorView> {
    if is_adhoc {
        match cwd {
            Ok(dir) => Ok(dir),
            Err(source) => Err(
                MountErrorView::Io { context: "failed to determine current working directory"@, source },
            ),
        }
    } else if !is_absolute(config_path) && cwd is Err {
        Err(
            MountErrorView::Io { context: "failed to get cwd for config resolution"@, source: cwd->Err_0 },
        )
    } else {
        let resolved = if is_absolute(config_path) {
            config_path
        } else {
            joined(cwd->Ok_0, config_path)
        };
        match host_parent(resolved) {
            Some(dir) => Ok(dir),
            None => Err(MountErrorView::NoParentDirectory),
        }
    }
}

/// What is told of a path, over views.
pub open spec fn path_out(r: Result<String, MountError>) -> Result<Seq<char>, MountErrorView> {
    match r {
        Ok(path) => Ok(path@),
        Err(e) => Err(e@),
    }
}

/// Determine the "project root" used for resolving relative mount paths.
///
/// - Config-based: parent directory of the resolved config path.
/// - Ad-hoc: current working directory.
///
/// `cwd` is the working directory in its user-visible form, or why it cannot be told.
pub fn detect_project_root(config_path: &str, is_adhoc: bool, cwd: Result<String, String>) -> (r: Result<
    String,
    MountError,
>)
    ensures
        path_out(r) == project_root_of(config_path@, is_adhoc, cwd_view(cwd)),
{
    if is_adhoc {
        return match cwd {
            Ok(dir) => Ok(dir),
            Err(source) => Err(
                MountError::Io { context: copy("failed to determine current working directory"), source },
            ),
        };
    }
    let resolved = if starts_at_root(config_path) {
        copy(config_path)
    } else {
        match cwd {
            Ok(dir) => join_path(dir.as_str(), config_path),
            Err(source) => {
                return Err(MountError::Io { context: copy("failed to get cwd for config resolution"), source });
            },
        }
    };
    match parent_dir(resolved.as_str()) {
        Some(dir) => Ok(dir),
        None => Err(MountError::NoParentDirectory),
    }
}

// ---- Settings ----------------------------------------------------------------

/// A directory of the host and where it is mounted.
#[derive(Debug, PartialEq, Eq)]
pub struct MountConfig {
    pub source: String,
    pub target: String,
}

/// An agent type and its system prompt.
#[derive(Debug, PartialEq, Eq)]
pub struct AgentPrompt {
    pub agent: String,
    pub system_prompt: Option<String>,
}

/// What is to be mounted.
#[derive(Debug, PartialEq, Eq)]
pub struct MountSettings {
    pub auto_mount_skills: bool,
    pub prompts: Vec<AgentPrompt>,
    pub mounts: Vec<MountConfig>,
    pub project_root: String,
    pub home: Option<String>,
    pub entry_agent: String,
}

/// The next thing to mount.
#[derive(Debug, PartialEq, Eq)]
pub enum MountAction {
    /// Nothing.
    Nothing,
    /// The directory `source` at `/skills`, if there is one.
    Skills { source: String },
    /// The system prompt file `source` at `target`.
    Prompt { agent: String, prompt_path: String, source: String, target: String },
    /// The directory `source` at `target`.
    Mount { source: String, target: String },
}

/// What a [`MountAction`] says.
#[verifier::ext_equal]
pub enum MountActionView {
    Nothing,
    Skills { source: Seq<char> },
    Prompt { agent: Seq<char>, prompt_path: Seq<char>, source: Seq<char>, target: Seq<char> },
    Mount { source: Seq<char>, target: Seq<char> },
}

impl View for MountAction {
    type V = MountActionView;

    open spec fn view(&self) -> MountActionView {
        match self {
            MountAction::Nothing => MountActionView::Nothing,
            MountAction::Skills { source } => MountActionView::Skills { source: source@ },
            MountAction::Prompt { agent, prompt_path, source, target } => MountActionView::Prompt {
                agent: agent@,
                prompt_path: prompt_path@,
                source: source@,
                target: target@,
            },
            MountAction::Mount { source, target } => MountActionView::Mount { source: source@, target: target@ },
        }
    }
}

/// A system prompt that names a file of the project: a relative path with a slash in it.
pub open spec fn is_prompt_file(prompt: Seq<char>) -> bool {
    &&& !(prompt.len() > 0 && prompt[0] == '/')
    &&& !(prompt.len() > 0 && prompt[0] == '~')
    &&& prompt.contains('/')
}

/// Whether a system prompt names a file of the project.
pub fn names_prompt_file(prompt: &str) -> (r: bool)
    ensures
        r == is_prompt_file(prompt@),
{
    if prompt.unicode_len() == 0 {
        return false;
    }
    let first = prompt.get_char(0);
    first != '/' && first != '~' && has_char(prompt, '/')
}

/// Why nothing can be mounted at `target`.
pub open spec fn target_error(target: Seq<char>) -> Option<MountErrorView> {
    if !is_absolute(target) {
        Some(
            MountErrorView::InvalidMountTarget(
                "mount target '"@ + target + "' must be an absolute path (start with '/')"@,
            ),
        )
    } else if target == "/"@ {
        Some(
            MountErrorView::InvalidMountTarget(
                "mount target '/' is the root — mounting to root is not allowed"@,
            ),
        )
    } else {
        None
    }
}

/// What a check gives, over views.
pub open spec fn check_out(r: Result<(), MountError>) -> Option<MountErrorView> {
    match r {
        Ok(()) => None,
        Err(e) => Some(e@),
    }
}

/// Something can be mounted at `target`.
pub fn check_target(target: &str) -> (r: Result<(), MountError>)
    ensures
        check_out(r) == target_error(target@),
{
    if !starts_at_root(target) {
        return Err(
            MountError::InvalidMountTarget(
                concat3("mount target '", target, "' must be an absolute path (start with '/')"),
            ),
        );
    }
    if *target == *"/" {
        return Err(
            MountError::InvalidMountTarget(
                copy("mount target '/' is the root — mounting to root is not allowed"),
            ),
        );
    }
    Ok(())
}

/// What an action or its error says.
pub open spec fn action_out(r: Result<MountAction, MountError>) -> Result<MountActionView, MountErrorView> {
    match r {
        Ok(action) => Ok(action@),
        Err(e) => Err(e@),
    }
}

/// What is to be done about the skills directory.
pub open spec fn skills_action(settings: MountSettings) -> MountActionView {
    if settings.auto_mount_skills {
        MountActionView::Skills { source: joined(settings.project_root@, "skills"@) }
    } else {
        MountActionView::Nothing
    }
}

/// What is to be done about the system prompt of an agent type.
pub open spec fn prompt_action(root: Seq<char>, prompt: AgentPrompt) -> MountActionView {
    match prompt.system_prompt {
        Some(path) => if is_prompt_file(path@) {
            MountActionView::Prompt {
                agent: prompt.agent@,
                prompt_path: path@,
                source: joined(root, path@),
                target: "/"@ + path@,
            }
        } else {
            MountActionView::Nothing
        },
        None => MountActionView::Nothing,
    }
}

/// What is to be done about a configured mount.
pub open spec fn mount_action(root: Seq<char>, home: Option<Seq<char>>, mount: MountConfig) -> Result<
    MountActionView,
    MountErrorView,
> {
    match target_error(mount.target@) {
        Some(e) => Err(e),
        None => Ok(
            MountActionView::Mount {
                source: joined(root, tilde_expanded(mount.source@, home)),
                target: mount.target@,
            },
        ),
    }
}

/// The number of steps: the skills directory, the system prompts, the configured mounts.
pub open spec fn step_count(settings: MountSettings) -> nat {
    1 + settings.prompts@.len() + settings.mounts@.len()
}

/// What is to be done in a step.
pub open spec fn action_at(settings: MountSettings, step: int) -> Result<MountActionView, MountErrorView> {
    if step == 0 {
        Ok(skills_action(settings))
    } else if step <= settings.prompts@.len() {
        Ok(prompt_action(settings.project_root@, settings.prompts@[step - 1]))
    } else {
        mount_action(
            settings.project_root@,
            crate::text::opt_text(settings.home),
            settings.mounts@[step - 1 - settings.prompts@.len()],
        )
    }
}

impl MountSettings {
    /// The number of steps.
    pub fn steps(&self) -> (n: usize)
        requires
            step_count(*self) <= usize::MAX,
        ensures
            n == step_count(*self),
    {
        1 + self.prompts.len() + self.mounts.len()
    }

    /// What is to be done in a step: the skills directory first, then the system prompts,
    /// then the configured mounts.
    pub fn action(&self, step: usize) -> (r: Result<MountAction, MountError>)
        requires
            step_count(*self) <= usize::MAX,
            step < step_count(*self),
        ensures
            action_out(r) == action_at(*self, step as int),
    {
        if step == 0 {
            return if self.auto_mount_skills {
                Ok(MountAction::Skills { source: join_path(self.project_root.as_str(), "skills") })
            } else {
                Ok(MountAction::Nothing)
            };
        }
        if step <= self.prompts.len() {
            let prompt = &self.prompts[step - 1];
            return match &prompt.system_prompt {
                Some(path) => if names_prompt_file(path.as_str()) {
                    Ok(
                        MountAction::Prompt {
                            agent: prompt.agent.clone(),
                            prompt_path: path.clone(),
                            source: join_path(self.project_root.as_str(), path.as_str()),
                            target: concat("/", path.as_str()),
                        },
                    )
                } else {
                    Ok(MountAction::Nothing)
                },
                None => Ok(MountAction::Nothing),
            };
        }
        let mount = &self.mounts[step - 1 - self.prompts.len()];
        match check_target(mount.target.as_str()) {
            Err(e) => Err(e),
            Ok(()) => {
                let home = match &self.home {
                    Some(home) => Some(home.as_str()),
                    None => None,
                };
                Ok(
                    MountAction::Mount {
                        source: resolve_mount_source(mount.source.as_str(), home, self.project_root.as_str()),
                        target: mount.target.clone(),
                    },
                )
            },
        }
    }

    /// A system prompt file is not there. That is an error for the entry agent alone.
    pub fn prompt_missing(&self, agent: &str, prompt_path: &str, source: &str) -> (r: Result<(), MountError>)
        ensures
            check_out(r) == if agent@ == self.entry_agent@ {
                Some(MountErrorView::EntryPromptNotFound { prompt_path: prompt_path@, resolved: source@ })
            } else {
                None
            },
    {
        if *agent == *self.entry_agent.as_str() {
            Err(MountError::EntryPromptNotFound { prompt_path: copy(prompt_path), resolved: copy(source) })
        } else {
            Ok(())
        }
    }
}

/// The source of a mount is there.
pub fn check_source(there: bool, source: &str, target: &str) -> (r: Result<(), MountError>)
    ensures
        check_out(r) == if there {
            None
        } else {
            Some(MountErrorView::SourceNotFound { source_path: source@, target: target@ })
        },
{
    if there {
        Ok(())
    } else {
        Err(MountError::SourceNotFound { source_path: copy(source), target: copy(target) })
    }
}

/// The most bytes that a system prompt file may have.
pub const MAX_SYSTEM_PROMPT_BYTES: u64 = 1_048_576;

/// A system prompt file lies in the project. Both paths are canonical.
pub fn check_inside(prompt_path: &str, canonical_host: &str, canonical_root: &str) -> (r: Result<(), MountError>)
    ensures
        check_out(r) == if lies_in(canonical_host@, canonical_root@) {
            None
        } else {
            Some(
                MountErrorView::PathTraversal {
                    prompt_path: prompt_path@,
                    resolved: canonical_host@,
                    root: canonical_root@,
                },
            )
        },
{
    if *canonical_root == *"/" || is_under(canonical_host, canonical_root) {
        Ok(())
    } else {
        Err(
            MountError::PathTraversal {
                prompt_path: copy(prompt_path),
                resolved: copy(canonical_host),
                root: copy(canonical_root),
            },
        )
    }
}

/// A system prompt file is not too large.
pub fn check_prompt_size(prompt_path: &str, size: u64) -> (r: Result<(), MountError>)
    ensures
        check_out(r) == if size <= MAX_SYSTEM_PROMPT_BYTES {
            None
        } else {
            Some(MountErrorView::PromptTooLarge { prompt_path: prompt_path@, size: size as nat })
        },
{
    if size > MAX_SYSTEM_PROMPT_BYTES {
        Err(MountError::PromptTooLarge { prompt_path: copy(prompt_path), size })
    } else {
        Ok(())
    }
}

/// The error of a write that failed.
pub open spec fn write_error(path: Seq<char>, e: VfsErrorView) -> MountErrorView {
    MountErrorView::VfsWrite { path, detail: vfs_message(e) }
}

/// What became of a write.
pub open spec fn write_outcome(path: Seq<char>, written: Result<(), VfsErrorView>) -> Option<MountErrorView> {
    match written {
        Ok(()) => None,
        Err(e) => Some(write_error(path, e)),
    }
}

/// The parent directory of `path` was made, as far as the filesystem allows it. The root
/// is not made.
pub open spec fn parent_made<V: VirtualFs>(before: V, path: Seq<char>, after: V) -> bool {
    match host_parent(path) {
        Some(dir) => if dir == "/"@ {
            after == before
        } else {
            dir_made(before, dir, after)
        },
        None => after == before,
    }
}

/// A directory was made, as far as the filesystem allows it.
pub open spec fn dir_made<V: VirtualFs>(before: V, dir: Seq<char>, after: V) -> bool {
    exists|out: Result<(), VfsErrorView>| #[trigger] before.makes_dir(dir, after, out)
}

/// What writing a system prompt file may give: the parent directory, then the file.
pub open spec fn prompt_written<V: VirtualFs>(
    before: V,
    path: Seq<char>,
    data: Seq<u8>,
    after: V,
    out: Option<MountErrorView>,
) -> bool {
    exists|made: V, written: Result<(), VfsErrorView>| #[trigger]
        made.writes(path, data, after, written) && parent_made(before, path, made) && out == write_outcome(
            path,
            written,
        )
}

/// Writes a system prompt file.
pub fn write_prompt<V: VirtualFs>(vfs: &mut V, path: &str, data: &[u8]) -> (r: Result<(), MountError>)
    requires
        old(vfs).wf(),
    ensures
        final(vfs).wf(),
        prompt_written(*old(vfs), path@, data@, *final(vfs), check_out(r)),
{
    let ghost before = *vfs;
    match parent_dir(path) {
        Some(dir) => {
            if !(*dir.as_str() == *"/") {
                let made = vfs.mkdir(dir.as_str());
                assert(before.makes_dir(dir@, *vfs, unit_out(made)));
                assert(dir_made(before, dir@, *vfs));
            }
        },
        None => {},
    }
    let ghost made = *vfs;
    assert(parent_made(before, path@, made));
    let written = vfs.write(path, data);
    assert(made.writes(path@, data@, *vfs, unit_out(written)));
    match written {
        Ok(()) => Ok(()),
        Err(e) => Err(MountError::VfsWrite { path: copy(path), detail: e.to_string() }),
    }
}

// ---- Laws --------------------------------------------------------------------

/// Nothing is ever mounted at the root, nor at a relative path.
pub proof fn mounts_have_a_place(settings: MountSettings, step: int)
    requires
        0 <= step < step_count(settings),
        action_at(settings, step) is Ok,
        action_at(settings, step)->Ok_0 is Mount,
    ensures
        is_absolute(action_at(settings, step)->Ok_0->Mount_target),
        action_at(settings, step)->Ok_0->Mount_target != "/"@,
{
}

/// A mount source that does not begin with a tilde is used as it is where it is absolute,
/// and lies below the project root where it is relative. One that begins with the home
/// directory is used as it is where that directory is absolute.
pub proof fn sources_are_resolved(source: Seq<char>, home: Option<Seq<char>>, root: Seq<char>)
    ensures
        is_absolute(source) ==> joined(root, tilde_expanded(source, home)) == source,
        !is_absolute(tilde_expanded(source, home)) ==> root.is_prefix_of(
            joined(root, tilde_expanded(source, home)),
        ),
        is_absolute(tilde_expanded(source, home)) ==> joined(root, tilde_expanded(source, home))
            == tilde_expanded(source, home),
        !"~"@.is_prefix_of(source) ==> tilde_expanded(source, home) == source,
{
    reveal_strlit("~");
    reveal_strlit("~/");
    if "~/"@.is_prefix_of(source) {
        assert(source[0] == '~') by {
            assert(source.subrange(0, 2)[0] == "~/"@[0]);
        }
        assert("~"@ =~= source.subrange(0, 1));
    }
    let expanded = tilde_expanded(source, home);
    assert(root =~= joined(root, expanded).subrange(0, root.len() as int) || is_absolute(expanded));
}

} // verus!
