//! What can go wrong with a workflow.
use crate::text::{concat, concat3, copy};
use crate::types::vfs::{vfs_message, VfsError, VfsErrorView};
use vstd::prelude::*;
use vstd::string::*;

verus! {

/// Errors of workflows.
#[derive(Debug, PartialEq, Eq)]
pub enum WorkflowError {
    InvalidScriptPath { path: String, reason: String },
    InvalidMetadata(String),
    InvalidScript(String),
    RunNotFound { run_id: String },
    WorkerFailed { key: String, message: String },
    Cancelled,
    Vfs(VfsError),
    Serde(String),
    Join(String),
    Internal(String),
}

/// What a [`WorkflowError`] says.
#[verifier::ext_equal]
pub enum WorkflowErrorView {
    InvalidScriptPath { path: Seq<char>, reason: Seq<char> },
    InvalidMetadata(Seq<char>),
    InvalidScript(Seq<char>),
    RunNotFound { run_id: Seq<char> },
    WorkerFailed { key: Seq<char>, message: Seq<char> },
    Cancelled,
    Vfs(VfsErrorView),
    Serde(Seq<char>),
    Join(Seq<char>),
    Internal(Seq<char>),
}

impl View for WorkflowError {
    type V = WorkflowErrorView;

    open spec fn view(&self) -> WorkflowErrorView {
        match self {
            WorkflowError::InvalidScriptPath { path, reason } => WorkflowErrorView::InvalidScriptPath {
                path: path@,
                reason: reason@,
            },
            WorkflowError::InvalidMetadata(text) => WorkflowErrorView::InvalidMetadata(text@),
            WorkflowError::InvalidScript(text) => WorkflowErrorView::InvalidScript(text@),
            WorkflowError::RunNotFound { run_id } => WorkflowErrorView::RunNotFound { run_id: run_id@ },
            WorkflowError::WorkerFailed { key, message } => WorkflowErrorView::WorkerFailed {
                key: key@,
                message: message@,
            },
            WorkflowError::Cancelled => WorkflowErrorView::Cancelled,
            WorkflowError::Vfs(e) => WorkflowErrorView::Vfs(e@),
            WorkflowError::Serde(text) => WorkflowErrorView::Serde(text@),
            WorkflowError::Join(text) => WorkflowErrorView::Join(text@),
            WorkflowError::Internal(text) => WorkflowErrorView::Internal(text@),
        }
    }
}

/// The text of a [`WorkflowError`].
pub open spec fn workflow_message(e: WorkflowErrorView) -> Seq<char> {
    match e {
        WorkflowErrorView::InvalidScriptPath { path, reason } => "invalid workflow script path `"@ + path + "`: "@
            + reason,
        WorkflowErrorView::InvalidMetadata(text) => "invalid workflow script metadata: "@ + text,
        WorkflowErrorView::InvalidScript(text) => "invalid workflow script: "@ + text,
        WorkflowErrorView::RunNotFound { run_id } => "workflow run `"@ + run_id + "` was not found"@,
        WorkflowErrorView::WorkerFailed { key, message } => "workflow worker failed for call `"@ + key + "`: "@
            + message,
        WorkflowErrorView::Cancelled => "workflow run was cancelled"@,
        WorkflowErrorView::Vfs(e) => "virtual filesystem error: "@ + vfs_message(e),
        WorkflowErrorView::Serde(text) => "serialization error: "@ + text,
        WorkflowErrorView::Join(text) => "task join error: "@ + text,
        WorkflowErrorView::Internal(text) => "internal workflow error: "@ + text,
    }
}

impl WorkflowError {
    /// What the error says.
    pub fn to_string(&self) -> (r: String)
        ensures
            r@ == workflow_message(self@),
    {
        match self {
            WorkflowError::InvalidScriptPath { path, reason } => {
                let mut r = concat3("invalid workflow script path `", path.as_str(), "`: ");
                r.append(reason.as_str());
                r
            },
            WorkflowError::InvalidMetadata(text) => concat("invalid workflow script metadata: ", text.as_str()),
            WorkflowError::InvalidScript(text) => concat("invalid workflow script: ", text.as_str()),
            WorkflowError::RunNotFound { run_id } => concat3("workflow run `", run_id.as_str(), "` was not found"),
            WorkflowError::WorkerFailed { key, message } => {
                let mut r = concat3("workflow worker failed for call `", key.as_str(), "`: ");
                r.append(message.as_str());
                r
            },
            WorkflowError::Cancelled => copy("workflow run was cancelled"),
            WorkflowError::Vfs(e) => concat("virtual filesystem error: ", e.to_string().as_str()),
            WorkflowError::Serde(text) => concat("serialization error: ", text.as_str()),
            WorkflowError::Join(text) => concat("task join error: ", text.as_str()),
            WorkflowError::Internal(text) => concat("internal workflow error: ", text.as_str()),
        }
    }
}

} // verus!
