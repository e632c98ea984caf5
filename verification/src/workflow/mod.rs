//! Workflows: scripts that orchestrate agents, and the state that is kept of their runs.
pub mod call_laws;
pub mod error;
pub mod event_laws;
pub mod form_laws;
pub mod forms;
pub mod laws;
pub mod options;
pub mod record_laws;
pub mod resume_laws;
pub mod session_laws;
pub mod run;
pub mod store;
pub mod types;

pub use error::WorkflowError;
pub use options::WorkflowRunOptions;
pub use run::{CallStep, RunSession};
pub use store::WorkflowStore;
pub use types::{WorkflowAgentCall, WorkflowAgentResult, WorkflowEvent, WorkflowRun, WorkflowScript, WorkflowScriptMeta, WorkflowStatus};
