//! Artifact storage for durable task output.
use crate::text::{concat, Named};
use vstd::prelude::*;

verus! {

/// Metadata for a single artifact.
#[derive(Debug, PartialEq, Eq)]
pub struct ArtifactEntry {
    /// Relative path within the task's artifact namespace (e.g. "summary.md", "reports/q1.csv").
    pub path: String,
    /// Size in bytes.
    pub size: u64,
}

/// What an [`ArtifactEntry`] says.
#[verifier::ext_equal]
pub struct ArtifactEntryView {
    pub path: Seq<char>,
    pub size: u64,
}

impl View for ArtifactEntry {
    type V = ArtifactEntryView;

    open spec fn view(&self) -> ArtifactEntryView {
        ArtifactEntryView { path: self.path@, size: self.size }
    }
}

impl Clone for ArtifactEntry {
    fn clone(&self) -> (r: Self)
        ensures
            r@ == self@,
    {
        ArtifactEntry { path: self.path.clone(), size: self.size }
    }
}

impl Named for ArtifactEntry {
    open spec fn text(&self) -> Seq<char> {
        self.path@
    }

    fn duplicate(&self) -> (r: Self) {
        self.clone()
    }

    fn as_text(&self) -> (r: &str) {
        self.path.as_str()
    }
}

/// The paths of a listing.
pub open spec fn entry_paths(entries: Seq<ArtifactEntryView>) -> Seq<Seq<char>> {
    Seq::new(entries.len(), |i: int| entries[i].path)
}

/// What a listing says.
pub open spec fn entry_views(entries: Seq<ArtifactEntry>) -> Seq<ArtifactEntryView> {
    Seq::new(entries.len(), |i: int| entries[i]@)
}

/// Errors from artifact store operations.
#[derive(Debug, PartialEq, Eq)]
pub enum ArtifactError {
    NotFound(String),
    InvalidPath(String),
    Io(String),
}

/// What an [`ArtifactError`] says.
#[verifier::ext_equal]
pub enum ArtifactErrorView {
    NotFound(Seq<char>),
    InvalidPath(Seq<char>),
    Io(Seq<char>),
}

impl View for ArtifactError {
    type V = ArtifactErrorView;

    open spec fn view(&self) -> ArtifactErrorView {
        match self {
            ArtifactError::NotFound(s) => ArtifactErrorView::NotFound(s@),
            ArtifactError::InvalidPath(s) => ArtifactErrorView::InvalidPath(s@),
            ArtifactError::Io(s) => ArtifactErrorView::Io(s@),
        }
    }
}

/// The text of an [`ArtifactError`].
pub open spec fn artifact_message(e: ArtifactErrorView) -> Seq<char> {
    match e {
        ArtifactErrorView::NotFound(s) => "artifact not found: "@ + s,
        ArtifactErrorView::InvalidPath(s) => "invalid artifact path: "@ + s,
        ArtifactErrorView::Io(s) => "io error: "@ + s,
    }
}

impl ArtifactError {
    /// What the error says.
    pub fn to_string(&self) -> (r: String)
        ensures
            r@ == artifact_message(self@),
    {
        match self {
            ArtifactError::NotFound(s) => concat("artifact not found: ", s.as_str()),
            ArtifactError::InvalidPath(s) => concat("invalid artifact path: ", s.as_str()),
            ArtifactError::Io(s) => concat("io error: ", s.as_str()),
        }
    }
}

/// The outcome of storing or deleting.
pub open spec fn done_out(r: Result<(), ArtifactError>) -> Result<(), ArtifactErrorView> {
    match r {
        Ok(()) => Ok(()),
        Err(e) => Err(e@),
    }
}

/// The outcome of fetching an artifact.
pub open spec fn artifact_out(r: Result<Vec<u8>, ArtifactError>) -> Result<Seq<u8>, ArtifactErrorView> {
    match r {
        Ok(data) => Ok(data@),
        Err(e) => Err(e@),
    }
}

/// The outcome of listing artifacts.
pub open spec fn entries_out(r: Result<Vec<ArtifactEntry>, ArtifactError>) -> Result<
    Seq<ArtifactEntryView>,
    ArtifactErrorView,
> {
    match r {
        Ok(entries) => Ok(entry_views(entries@)),
        Err(e) => Err(e@),
    }
}

/// Durable artifact storage, keyed by tenant, task and path.
///
/// A store says by its spec functions what its operations may give, and, for those that
/// change it, the state after. One that does not say allows everything.
pub trait ArtifactStore: Sized {
    /// What storing an artifact may give, and the state after it.
    open spec fn puts(
        &self,
        task_id: Seq<char>,
        tenant: Seq<char>,
        path: Seq<char>,
        data: Seq<u8>,
        after: Self,
        out: Result<(), ArtifactErrorView>,
    ) -> bool {
        true
    }

    /// What fetching an artifact may give.
    open spec fn gets(
        &self,
        tenant: Seq<char>,
        task_id: Seq<char>,
        path: Seq<char>,
        out: Result<Seq<u8>, ArtifactErrorView>,
    ) -> bool {
        true
    }

    /// What listing the artifacts of a task may give.
    open spec fn lists(
        &self,
        tenant: Seq<char>,
        task_id: Seq<char>,
        out: Result<Seq<ArtifactEntryView>, ArtifactErrorView>,
    ) -> bool {
        true
    }

    /// What deleting the artifacts of a task may give, and the state after it.
    open spec fn deletes(
        &self,
        tenant: Seq<char>,
        task_id: Seq<char>,
        after: Self,
        out: Result<(), ArtifactErrorView>,
    ) -> bool {
        true
    }

    /// Persist an artifact. Overwrites if path exists. Must be atomic:
    /// readers see either the old content or the new content, never partial.
    fn put(&mut self, task_id: &str, tenant: &str, path: &str, data: &[u8]) -> (r: Result<(), ArtifactError>)
        ensures
            old(self).puts(task_id@, tenant@, path@, data@, *final(self), done_out(r)),
    ;

    /// Retrieve artifact bytes. `ArtifactError::NotFound` if missing.
    /// The `tenant` parameter scopes the lookup to prevent cross-tenant reads.
    fn get(&self, tenant: &str, task_id: &str, path: &str) -> (r: Result<Vec<u8>, ArtifactError>)
        ensures
            self.gets(tenant@, task_id@, path@, artifact_out(r)),
    ;

    /// List all artifacts for a task. Recursive. Returns relative paths + sizes.
    /// The `tenant` parameter scopes the listing to prevent cross-tenant reads.
    fn list(&self, tenant: &str, task_id: &str) -> (r: Result<Vec<ArtifactEntry>, ArtifactError>)
        ensures
            self.lists(tenant@, task_id@, entries_out(r)),
    ;

    /// Delete all artifacts for a task (cleanup/retention).
    /// The `tenant` parameter scopes the deletion to prevent cross-tenant operations.
    fn delete_task(&mut self, tenant: &str, task_id: &str) -> (r: Result<(), ArtifactError>)
        ensures
            old(self).deletes(tenant@, task_id@, *final(self), done_out(r)),
    ;
}

} // verus!
