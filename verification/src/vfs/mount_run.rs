//! All host mounts, one question to the host at a time.
//!
//! The run asks; whoever drives it looks at the host and hands the answer in.
use crate::text::{concat, copy};
use crate::types::vfs::VirtualFs;
use crate::vfs::mount::{action_at, action_out, check_inside, check_out, check_prompt_size, check_source, lies_in, prompt_written, step_count, write_prompt, MountAction, MountActionView, MountError, MountErrorView, MountSettings, MAX_SYSTEM_PROMPT_BYTES};
use vstd::prelude::*;

verus! {

/// What the run wants to know or to have done.
#[derive(Debug, PartialEq, Eq)]
pub enum MountAsk {
    /// Whether there is a directory.
    IsDir { path: String },
    /// Whether there is anything.
    Exists { path: String },
    /// The canonical path.
    Canonical { path: String },
    /// The size of a file.
    Size { path: String },
    /// The bytes of a file.
    Read { path: String },
    /// Copy a directory, and tell how many files that were.
    Copy { source: String, target: String },
    /// Nothing more.
    Done { mounts: usize, files: usize },
}

/// What a [`MountAsk`] says.
pub enum MountAskView {
    IsDir { path: Seq<char> },
    Exists { path: Seq<char> },
    Canonical { path: Seq<char> },
    Size { path: Seq<char> },
    Read { path: Seq<char> },
    Copy { source: Seq<char>, target: Seq<char> },
    Done { mounts: nat, files: nat },
}

impl View for MountAsk {
    type V = MountAskView;

    open spec fn view(&self) -> MountAskView {
        match self {
            MountAsk::IsDir { path } => MountAskView::IsDir { path: path@ },
            MountAsk::Exists { path } => MountAskView::Exists { path: path@ },
            MountAsk::Canonical { path } => MountAskView::Canonical { path: path@ },
            MountAsk::Size { path } => MountAskView::Size { path: path@ },
            MountAsk::Read { path } => MountAskView::Read { path: path@ },
            MountAsk::Copy { source, target } => MountAskView::Copy { source: source@, target: target@ },
            MountAsk::Done { mounts, files } => MountAskView::Done { mounts: *mounts as nat, files: *files as nat },
        }
    }
}

/// A system prompt file on its way.
struct PromptFile {
    agent: String,
    prompt_path: String,
    source: String,
    target: String,
}

/// A system prompt file on its way.
pub struct PromptView {
    pub agent: Seq<char>,
    pub prompt_path: Seq<char>,
    pub source: Seq<char>,
    pub target: Seq<char>,
}

impl PromptFile {
    spec fn says(&self) -> PromptView {
        PromptView {
            agent: self.agent@,
            prompt_path: self.prompt_path@,
            source: self.source@,
            target: self.target@,
        }
    }
}

/// What the run waits for.
enum Stage {
    SkillsDir { source: String },
    SkillsCopy,
    PromptThere(PromptFile),
    PromptCanonical(PromptFile),
    PromptRoot(PromptFile, String),
    PromptSize(PromptFile),
    PromptRead(PromptFile),
    SourceThere { source: String, target: String },
    SourceCopy,
    Over,
}

/// What the run waits for.
pub enum StageView {
    /// Whether there is a skills directory.
    SkillsDir { source: Seq<char> },
    /// The copy of the skills directory.
    SkillsCopy,
    /// Whether there is a system prompt file.
    PromptThere(PromptView),
    /// Its canonical path.
    PromptCanonical(PromptView),
    /// The canonical project root; the canonical path of the file is known.
    PromptRoot(PromptView, Seq<char>),
    /// Its size.
    PromptSize(PromptView),
    /// Its bytes.
    PromptRead(PromptView),
    /// Whether there is a mount source.
    SourceThere { source: Seq<char>, target: Seq<char> },
    /// The copy of a mount source.
    SourceCopy,
    /// Nothing.
    Over,
}

impl Stage {
    spec fn says(&self) -> StageView {
        match self {
            Stage::SkillsDir { source } => StageView::SkillsDir { source: source@ },
            Stage::SkillsCopy => StageView::SkillsCopy,
            Stage::PromptThere(p) => StageView::PromptThere(p.says()),
            Stage::PromptCanonical(p) => StageView::PromptCanonical(p.says()),
            Stage::PromptRoot(p, host) => StageView::PromptRoot(p.says(), host@),
            Stage::PromptSize(p) => StageView::PromptSize(p.says()),
            Stage::PromptRead(p) => StageView::PromptRead(p.says()),
            Stage::SourceThere { source, target } => StageView::SourceThere { source: source@, target: target@ },
            Stage::SourceCopy => StageView::SourceCopy,
            Stage::Over => StageView::Over,
        }
    }
}

/// All host mounts, under way.
pub struct MountRun {
    settings: MountSettings,
    step: usize,
    stage: Stage,
    mounts: usize,
    files: usize,
}

/// The state of a run.
pub struct MountRunView {
    /// The step of the settings that is under way.
    pub step: nat,
    pub stage: StageView,
    /// The mounts that were made.
    pub mounts: nat,
    /// The files that were copied.
    pub files: nat,
}

impl View for MountRun {
    type V = MountRunView;

    closed spec fn view(&self) -> MountRunView {
        MountRunView {
            step: self.step as nat,
            stage: self.stage.says(),
            mounts: self.mounts as nat,
            files: self.files as nat,
        }
    }
}

/// The mount under way is an automatic one.
pub open spec fn automatic(stage: StageView) -> bool {
    !(stage is SourceThere) && !(stage is SourceCopy) && !(stage is Over)
}

/// Where a system prompt file goes whose size or bytes are asked for.
pub open spec fn prompt_goes_to(stage: StageView) -> Option<Seq<char>> {
    match stage {
        StageView::PromptSize(p) => Some(p.target),
        StageView::PromptRead(p) => Some(p.target),
        _ => None,
    }
}

/// A new state, and what comes next.
pub type Advance = (MountRunView, Result<MountAskView, MountErrorView>);

/// The run is over because of an error.
pub open spec fn failed(run: MountRunView, e: MountErrorView) -> Advance {
    (MountRunView { stage: StageView::Over, ..run }, Err(e))
}

/// The run waits for an answer.
pub open spec fn waits(run: MountRunView, stage: StageView, ask: MountAskView) -> Advance {
    (MountRunView { stage, ..run }, Ok(ask))
}

/// The run at the start of the step `step`, with so many mounts and files behind it. Steps
/// without anything to do are passed over.
pub open spec fn at_step(settings: MountSettings, step: nat, mounts: nat, files: nat) -> Advance
    decreases step_count(settings) - step,
{
    let here = MountRunView { step, stage: StageView::Over, mounts, files };
    if step >= step_count(settings) {
        waits(here, StageView::Over, MountAskView::Done { mounts, files })
    } else {
        match action_at(settings, step as int) {
            Err(e) => failed(here, e),
            Ok(MountActionView::Nothing) => at_step(settings, step + 1, mounts, files),
            Ok(MountActionView::Skills { source }) => waits(
                here,
                StageView::SkillsDir { source },
                MountAskView::IsDir { path: source },
            ),
            Ok(MountActionView::Prompt { agent, prompt_path, source, target }) => waits(
                here,
                StageView::PromptThere(PromptView { agent, prompt_path, source, target }),
                MountAskView::Exists { path: source },
            ),
            Ok(MountActionView::Mount { source, target }) => waits(
                here,
                StageView::SourceThere { source, target },
                MountAskView::Exists { path: source },
            ),
        }
    }
}

/// The run after a step in which nothing was mounted.
pub open spec fn passed_over(settings: MountSettings, run: MountRunView) -> Advance {
    at_step(settings, run.step + 1, run.mounts, run.files)
}

/// The run after `files` files more, one mount more, and the step.
pub open spec fn mounted(settings: MountSettings, run: MountRunView, files: nat) -> Advance {
    at_step(settings, run.step + 1, run.mounts + 1, run.files + files)
}

/// The run waits for a yes or no.
pub open spec fn wants_flag(stage: StageView) -> bool {
    stage is SkillsDir || stage is PromptThere || stage is SourceThere
}

/// The run waits for a canonical path.
pub open spec fn wants_path(stage: StageView) -> bool {
    stage is PromptCanonical || stage is PromptRoot
}

/// The run waits for a copy.
pub open spec fn wants_copy(stage: StageView) -> bool {
    stage is SkillsCopy || stage is SourceCopy
}

/// The run after a yes or no. An answer that was not asked for ends it.
pub open spec fn flag_taken(settings: MountSettings, run: MountRunView, there: bool) -> Advance {
    match run.stage {
        StageView::SkillsDir { source } => if there {
            waits(run, StageView::SkillsCopy, MountAskView::Copy { source, target: "/skills"@ })
        } else {
            passed_over(settings, run)
        },
        StageView::PromptThere(p) => if there {
            waits(run, StageView::PromptCanonical(p), MountAskView::Canonical { path: p.source })
        } else if p.agent == settings.entry_agent@ {
            failed(run, MountErrorView::EntryPromptNotFound { prompt_path: p.prompt_path, resolved: p.source })
        } else {
            passed_over(settings, run)
        },
        StageView::SourceThere { source, target } => if there {
            waits(run, StageView::SourceCopy, MountAskView::Copy { source, target })
        } else {
            failed(run, MountErrorView::SourceNotFound { source_path: source, target })
        },
        _ => failed(run, MountErrorView::NoParentDirectory),
    }
}

/// The host said `source` of what `context` is about.
pub open spec fn io(context: Seq<char>, source: Seq<char>) -> MountErrorView {
    MountErrorView::Io { context, source }
}

/// The run after a canonical path, or the error of the host.
pub open spec fn path_taken(
    settings: MountSettings,
    run: MountRunView,
    path: Result<Seq<char>, Seq<char>>,
) -> Advance {
    match run.stage {
        StageView::PromptCanonical(p) => match path {
            Err(e) => failed(run, io("failed to canonicalize system prompt path: "@ + p.source, e)),
            Ok(host) => waits(
                run,
                StageView::PromptRoot(p, host),
                MountAskView::Canonical { path: settings.project_root@ },
            ),
        },
        StageView::PromptRoot(p, host) => match path {
            Err(e) => failed(run, io("failed to canonicalize project root: "@ + settings.project_root@, e)),
            Ok(root) => if lies_in(host, root) {
                waits(run, StageView::PromptSize(p), MountAskView::Size { path: p.source })
            } else {
                failed(
                    run,
                    MountErrorView::PathTraversal { prompt_path: p.prompt_path, resolved: host, root },
                )
            },
        },
        _ => failed(run, MountErrorView::NoParentDirectory),
    }
}

/// The run after the size of a system prompt file, or the error of the host.
pub open spec fn size_taken(run: MountRunView, size: Result<u64, Seq<char>>) -> Advance {
    match run.stage {
        StageView::PromptSize(p) => match size {
            Err(e) => failed(run, io("failed to stat system prompt: "@ + p.source, e)),
            Ok(n) => if n > MAX_SYSTEM_PROMPT_BYTES {
                failed(run, MountErrorView::PromptTooLarge { prompt_path: p.prompt_path, size: n as nat })
            } else {
                waits(run, StageView::PromptRead(p), MountAskView::Read { path: p.source })
            },
        },
        _ => failed(run, MountErrorView::NoParentDirectory),
    }
}

/// The run after the bytes of a system prompt file were written with the outcome `written`.
pub open spec fn prompt_done(settings: MountSettings, run: MountRunView, written: Option<MountErrorView>) -> Advance {
    match written {
        Some(e) => failed(run, e),
        None => mounted(settings, run, 1),
    }
}

/// The bytes of a system prompt file are written, and the run goes on.
pub open spec fn prompt_taken<V: VirtualFs>(
    settings: MountSettings,
    run: MountRunView,
    before: V,
    target: Seq<char>,
    data: Seq<u8>,
    after: V,
    next: Advance,
) -> bool {
    exists|written: Option<MountErrorView>| #[trigger]
        prompt_written(before, target, data, after, written) && next == prompt_done(settings, run, written)
}

/// What the bytes of a system prompt file, or the error of the host, may lead to.
pub open spec fn bytes_taken<V: VirtualFs>(
    settings: MountSettings,
    run: MountRunView,
    before: V,
    bytes: Result<Seq<u8>, Seq<char>>,
    after: V,
    next: Advance,
) -> bool {
    match run.stage {
        StageView::PromptRead(p) => match bytes {
            Err(e) => after == before && next == failed(run, io("failed to read system prompt: "@ + p.source, e)),
            Ok(data) => prompt_taken(settings, run, before, p.target, data, after, next),
        },
        _ => false,
    }
}

/// A question or an error, over views.
pub open spec fn ask_out(r: Result<MountAsk, MountError>) -> Result<MountAskView, MountErrorView> {
    match r {
        Ok(ask) => Ok(ask@),
        Err(e) => Err(e@),
    }
}

/// An answer of the host, over views.
pub open spec fn host_text(r: Result<String, String>) -> Result<Seq<char>, Seq<char>> {
    match r {
        Ok(text) => Ok(text@),
        Err(e) => Err(e@),
    }
}

/// A size, over views.
pub open spec fn host_size(r: Result<u64, String>) -> Result<u64, Seq<char>> {
    match r {
        Ok(n) => Ok(n),
        Err(e) => Err(e@),
    }
}

/// Bytes, over views.
pub open spec fn host_bytes(r: Result<Vec<u8>, String>) -> Result<Seq<u8>, Seq<char>> {
    match r {
        Ok(bytes) => Ok(bytes@),
        Err(e) => Err(e@),
    }
}

fn io_error(context: &str, path: &str, e: String) -> (r: MountError)
    ensures
        r@ == io(context@ + path@, e@),
{
    MountError::Io { context: concat(context, path), source: e }
}

impl MountRun {
    /// The settings of the run.
    pub closed spec fn config(&self) -> MountSettings {
        self.settings
    }

    /// What a run keeps: it makes no more mounts than it takes steps.
    pub closed spec fn wf(&self) -> bool {
        &&& step_count(self.settings) < usize::MAX
        &&& self.step <= step_count(self.settings)
        &&& self.mounts <= self.step
        &&& !(self.stage is Over) ==> self.step < step_count(self.settings)
    }

    /// A run that waits stands before the end of its steps.
    pub proof fn steps_are_left(&self)
        requires
            self.wf(),
        ensures
            self@.step <= step_count(self.config()),
            !(self@.stage is Over) ==> self@.step < step_count(self.config()),
    {
    }

    /// Starts with the first step.
    pub fn start(settings: MountSettings) -> (r: (MountRun, Result<MountAsk, MountError>))
        requires
            step_count(settings) < usize::MAX,
        ensures
            r.0.wf(),
            r.0.config() == settings,
            (r.0@, ask_out(r.1)) == at_step(settings, 0, 0, 0),
    {
        let mut run = MountRun { settings, step: 0, stage: Stage::Over, mounts: 0, files: 0 };
        let ask = run.enter(0);
        (run, ask)
    }

    fn enter(&mut self, first: usize) -> (r: Result<MountAsk, MountError>)
        requires
            step_count(old(self).settings) < usize::MAX,
            old(self).mounts <= first <= step_count(old(self).settings),
        ensures
            final(self).wf(),
            final(self).settings == old(self).settings,
            (final(self)@, ask_out(r)) == at_step(
                old(self).settings,
                first as nat,
                old(self).mounts as nat,
                old(self).files as nat,
            ),
    {
        let ghost config = self.settings;
        let ghost mounts = self.mounts as nat;
        let ghost files = self.files as nat;
        let n = self.settings.steps();
        let mut step: usize = first;
        while step < n
            invariant
                n == step_count(config),
                n < usize::MAX,
                config == old(self).settings,
                mounts == old(self).mounts,
                files == old(self).files,
                self.settings == config,
                self.mounts == mounts,
                self.files == files,
                self.mounts <= first <= step <= n,
                at_step(config, first as nat, mounts, files) == at_step(config, step as nat, mounts, files),
            decreases n - step,
        {
            let action = self.settings.action(step);
            assert(action_out(action) == action_at(config, step as int));
            match action {
                Err(e) => {
                    self.step = step;
                    self.stage = Stage::Over;
                    return Err(e);
                },
                Ok(MountAction::Nothing) => {
                    step = step + 1;
                },
                Ok(MountAction::Skills { source }) => {
                    let path = source.clone();
                    self.step = step;
                    self.stage = Stage::SkillsDir { source };
                    return Ok(MountAsk::IsDir { path });
                },
                Ok(MountAction::Prompt { agent, prompt_path, source, target }) => {
                    let path = source.clone();
                    self.step = step;
                    self.stage = Stage::PromptThere(PromptFile { agent, prompt_path, source, target });
                    return Ok(MountAsk::Exists { path });
                },
                Ok(MountAction::Mount { source, target }) => {
                    let path = source.clone();
                    self.step = step;
                    self.stage = Stage::SourceThere { source, target };
                    return Ok(MountAsk::Exists { path });
                },
            }
        }
        self.step = step;
        self.stage = Stage::Over;
        Ok(MountAsk::Done { mounts: self.mounts, files: self.files })
    }

    fn take_stage(&mut self) -> (r: Stage)
        ensures
            r == old(self).stage,
            *final(self) == (MountRun { stage: Stage::Over, ..*old(self) }),
    {
        let mut stage = Stage::Over;
        std::mem::swap(&mut stage, &mut self.stage);
        stage
    }

    /// Takes a yes or no.
    pub fn answer_flag(&mut self, there: bool) -> (r: Result<MountAsk, MountError>)
        requires
            old(self).wf(),
            wants_flag(old(self)@.stage),
        ensures
            final(self).wf(),
            final(self).config() == old(self).config(),
            (final(self)@, ask_out(r)) == flag_taken(old(self).config(), old(self)@, there),
    {
        let stage = self.take_stage();
        match stage {
            Stage::SkillsDir { source } => {
                if there {
                    self.stage = Stage::SkillsCopy;
                    return Ok(MountAsk::Copy { source, target: copy("/skills") });
                }
            },
            Stage::PromptThere(p) => {
                if there {
                    let path = p.source.clone();
                    self.stage = Stage::PromptCanonical(p);
                    return Ok(MountAsk::Canonical { path });
                }
                match self.settings.prompt_missing(p.agent.as_str(), p.prompt_path.as_str(), p.source.as_str()) {
                    Err(e) => {
                        return Err(e);
                    },
                    Ok(()) => {},
                }
            },
            Stage::SourceThere { source, target } => {
                match check_source(there, source.as_str(), target.as_str()) {
                    Err(e) => {
                        return Err(e);
                    },
                    Ok(()) => {},
                }
                self.stage = Stage::SourceCopy;
                return Ok(MountAsk::Copy { source, target });
            },
            _ => {},
        }
        self.enter(self.step + 1)
    }

    /// Takes the canonical path that was asked for, or what the host said.
    pub fn answer_path(&mut self, path: Result<String, String>) -> (r: Result<MountAsk, MountError>)
        requires
            old(self).wf(),
            wants_path(old(self)@.stage),
        ensures
            final(self).wf(),
            final(self).config() == old(self).config(),
            (final(self)@, ask_out(r)) == path_taken(old(self).config(), old(self)@, host_text(path)),
    {
        let stage = self.take_stage();
        match stage {
            Stage::PromptCanonical(p) => match path {
                Err(e) => Err(io_error("failed to canonicalize system prompt path: ", p.source.as_str(), e)),
                Ok(host) => {
                    self.stage = Stage::PromptRoot(p, host);
                    Ok(MountAsk::Canonical { path: self.settings.project_root.clone() })
                },
            },
            Stage::PromptRoot(p, host) => match path {
                Err(e) => Err(
                    io_error("failed to canonicalize project root: ", self.settings.project_root.as_str(), e),
                ),
                Ok(root) => {
                    match check_inside(p.prompt_path.as_str(), host.as_str(), root.as_str()) {
                        Err(e) => {
                            return Err(e);
                        },
                        Ok(()) => {},
                    }
                    let path = p.source.clone();
                    self.stage = Stage::PromptSize(p);
                    Ok(MountAsk::Size { path })
                },
            },
            _ => Err(MountError::NoParentDirectory),
        }
    }

    /// Takes the size that was asked for, or what the host said.
    pub fn answer_size(&mut self, size: Result<u64, String>) -> (r: Result<MountAsk, MountError>)
        requires
            old(self).wf(),
            old(self)@.stage is PromptSize,
        ensures
            final(self).wf(),
            final(self).config() == old(self).config(),
            (final(self)@, ask_out(r)) == size_taken(old(self)@, host_size(size)),
    {
        let stage = self.take_stage();
        match stage {
            Stage::PromptSize(p) => match size {
                Err(e) => Err(io_error("failed to stat system prompt: ", p.source.as_str(), e)),
                Ok(n) => {
                    match check_prompt_size(p.prompt_path.as_str(), n) {
                        Err(e) => {
                            return Err(e);
                        },
                        Ok(()) => {},
                    }
                    let path = p.source.clone();
                    self.stage = Stage::PromptRead(p);
                    Ok(MountAsk::Read { path })
                },
            },
            _ => Err(MountError::NoParentDirectory),
        }
    }

    /// Takes the bytes that were asked for, or what the host said, and writes them.
    pub fn answer_bytes<V: VirtualFs>(&mut self, vfs: &mut V, bytes: Result<Vec<u8>, String>) -> (r: Result<
        MountAsk,
        MountError,
    >)
        requires
            old(self).wf(),
            old(vfs).wf(),
            old(self)@.stage is PromptRead,
            old(self)@.files < usize::MAX,
        ensures
            final(self).wf(),
            final(vfs).wf(),
            final(self).config() == old(self).config(),
            bytes_taken(
                old(self).config(),
                old(self)@,
                *old(vfs),
                host_bytes(bytes),
                *final(vfs),
                (final(self)@, ask_out(r)),
            ),
    {
        let ghost run = self@;
        let ghost config = self.settings;
        let ghost before = *vfs;
        let stage = self.take_stage();
        match stage {
            Stage::PromptRead(p) => match bytes {
                Err(e) => Err(io_error("failed to read system prompt: ", p.source.as_str(), e)),
                Ok(data) => {
                    let written = write_prompt(vfs, p.target.as_str(), data.as_slice());
                    let ghost outcome = check_out(written);
                    assert(prompt_written(before, p.target@, data@, *vfs, outcome));
                    match written {
                        Err(e) => Err(e),
                        Ok(()) => {
                            self.mounts = self.mounts + 1;
                            self.files = self.files + 1;
                            let r = self.enter(self.step + 1);
                            assert((self@, ask_out(r)) == prompt_done(config, run, outcome));
                            r
                        },
                    }
                },
            },
            _ => Err(MountError::NoParentDirectory),
        }
    }

    /// Takes the number of files that were copied.
    pub fn answer_copied(&mut self, files: usize) -> (r: Result<MountAsk, MountError>)
        requires
            old(self).wf(),
            wants_copy(old(self)@.stage),
            old(self)@.files + files <= usize::MAX,
        ensures
            final(self).wf(),
            final(self).config() == old(self).config(),
            (final(self)@, ask_out(r)) == mounted(old(self).config(), old(self)@, files as nat),
    {
        self.mounts = self.mounts + 1;
        self.files = self.files + files;
        self.enter(self.step + 1)
    }

    /// Whether the mount under way is an automatic one, and not one of the settings.
    pub fn is_automatic(&self) -> (r: bool)
        ensures
            r == automatic(self@.stage),
    {
        match &self.stage {
            Stage::SourceThere { .. } => false,
            Stage::SourceCopy => false,
            Stage::Over => false,
            _ => true,
        }
    }

    /// Where the system prompt file under way goes, once its size or its bytes are asked for.
    pub fn prompt_target(&self) -> (r: Option<&str>)
        ensures
            match r {
                Some(target) => prompt_goes_to(self@.stage) == Some(target@),
                None => prompt_goes_to(self@.stage) is None,
            },
    {
        match &self.stage {
            Stage::PromptSize(p) => Some(p.target.as_str()),
            Stage::PromptRead(p) => Some(p.target.as_str()),
            _ => None,
        }
    }

    /// The files that were copied so far.
    pub fn files(&self) -> (r: usize)
        ensures
            r == self@.files,
    {
        self.files
    }
}

// ---- Laws --------------------------------------------------------------------

/// A system prompt file that lies outside the project is never measured, and one that is too
/// large is never read.
pub proof fn foreign_and_large_prompts_are_not_read(
    settings: MountSettings,
    run: MountRunView,
    root: Seq<char>,
    size: u64,
)
    ensures
        run.stage is PromptRoot && !lies_in(run.stage->PromptRoot_1, root) ==> path_taken(settings, run, Ok(root)).1
            is Err,
        run.stage is PromptSize && size > MAX_SYSTEM_PROMPT_BYTES ==> size_taken(run, Ok(size)).1 is Err,
{
}

/// The steps are taken in order, each at most once: the skills directory, the system prompts,
/// the configured mounts. Passing over steps mounts nothing.
pub proof fn steps_go_forward(settings: MountSettings, step: nat, mounts: nat, files: nat)
    ensures
        at_step(settings, step, mounts, files).0.step >= step,
        at_step(settings, step, mounts, files).0.mounts == mounts,
        at_step(settings, step, mounts, files).0.files == files,
    decreases step_count(settings) - step,
{
    if step < step_count(settings) && action_at(settings, step as int) == Ok::<MountActionView, MountErrorView>(
        MountActionView::Nothing,
    ) {
        steps_go_forward(settings, step + 1, mounts, files);
    }
}

/// A missing system prompt ends the run for the entry agent alone.
pub proof fn only_the_entry_prompt_must_be_there(settings: MountSettings, run: MountRunView)
    requires
        run.stage is PromptThere,
    ensures
        run.stage->PromptThere_0.agent != settings.entry_agent@ ==> flag_taken(settings, run, false) == passed_over(
            settings,
            run,
        ),
        run.stage->PromptThere_0.agent == settings.entry_agent@ ==> flag_taken(settings, run, false).1 is Err,
{
}

} // verus!
