//! The core of an agent runtime.
pub mod coding;
pub mod error_laws;
pub mod fault_laws;
pub mod form;
pub mod json;
pub mod operation_laws;
pub mod path;
pub mod path_laws;
pub mod record;
pub mod text;
pub mod text_laws;
pub mod text_map;
pub mod text_map_laws;
pub mod types;
pub mod vfs;
pub mod wasm;
pub mod wasm_laws;
pub mod workflow;
