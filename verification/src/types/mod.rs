//! The types and rules that the rest of the crate shares.
pub mod activity;
pub mod artifact;
pub mod attenuation;
pub mod budget;
pub mod capability;
pub mod context;
pub mod event_laws;
pub mod form_laws;
pub mod forms;
pub mod grants;
pub mod journal;
pub mod memory;
pub mod memory_laws;
pub mod message;
pub mod message_laws;
pub mod provider;
pub mod tool;
pub mod vfs;

pub use activity::ActivityEvent;
pub use artifact::{ArtifactEntry, ArtifactError, ArtifactStore};
pub use budget::{BudgetExhausted, Cost, ResourceBudget};
pub use capability::{CapabilityDenied, CapabilityToken, NetworkPermission, PathPattern};
pub use context::ContextStrategy;
pub use journal::{CheckpointData, Clock, JournalEntry, JournalEntryKind, JournalError, JournalStorage, SystemClock, JOURNAL_SCHEMA_VERSION};
pub use memory::{HitId, Locator, MemoryCapability, MemoryPath, MemoryPathError, MemoryVersion, TenantId, TenantIdError, HIT_ID_CACHE_MAX, HIT_ID_TTL_SECONDS, MEMORY_SNIPPET_CHARS, RRWB_MAX_BYTES_PER_ENTRY, RRWB_MAX_ENTRIES, RRWB_MAX_TOTAL_BYTES};
pub use message::{AgentId, Message, ProviderContentBlock, Role, TokenUsage, ToolCallMessage};
pub use provider::{ExitReason, FinishReason, ProviderError, ProviderResponse, ProviderStreamEvent, ProviderStreamSink};
pub use tool::{arguments_from_hook_input, hook_input_payload, hook_output_payload, result_from_hook_output, truncate_chars, ToolCall, ToolDefinition, ToolError, ToolOutput, ToolResult, ToolSchema, TOOL_PREVIEW_MAX_CHARS};
pub use vfs::{path_matches_prefix, Delivery, FsMetadata, Received, VfsError, VfsEvent, VfsSnapshot, VirtualFs};
