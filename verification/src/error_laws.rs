//! What each error says.
use crate::text::{decimal, hex, quoted};
use crate::types::artifact::ArtifactError;
use crate::types::budget::BudgetExhausted;
use crate::types::capability::{plain_path, CapabilityDenied, CapabilityToken};
use crate::types::grants::{at_or_below, in_memory};
use crate::types::journal::JournalError;
use crate::types::memory::{parsed_memory_path, MemoryPathError, TenantIdError};
use crate::types::provider::ProviderError;
use crate::types::tool::ToolError;
use crate::types::vfs::VfsError;
use crate::vfs::memory_store_fs::MemoryError;
use crate::vfs::mount::{check_inside, check_prompt_size, check_source, check_target, MountError, MountSettings};
use crate::wasm::WasmError;
use crate::workflow::error::WorkflowError;
use vstd::prelude::*;

verus! {

/// The errors of filesystems say what went wrong, then the path or the reason.
pub proof fn filesystem_errors_say_what_went_wrong(e: VfsError, r: String)
    requires
        call_ensures(VfsError::to_string, (&e,), r),
    ensures
        r@ == match e {
            VfsError::NotFound(s) => "not found: "@ + s@,
            VfsError::AlreadyExists(s) => "already exists: "@ + s@,
            VfsError::NotADirectory(s) => "not a directory: "@ + s@,
            VfsError::NotAFile(s) => "not a file: "@ + s@,
            VfsError::Io(s) => "io error: "@ + s@,
            VfsError::PermissionDenied(s) => "permission denied: "@ + s@,
            VfsError::HookDenied { reason } => "hook denied: "@ + reason@,
            VfsError::HookKilled { reason } => "hook killed: "@ + reason@,
            VfsError::HookContractViolation => "hook contract violation"@,
        },
{
}

/// The errors of stores say what went wrong.
pub proof fn store_errors_say_what_went_wrong(a: ArtifactError, m: MemoryError, j: JournalError, r: String)
    ensures
        call_ensures(ArtifactError::to_string, (&a,), r) ==> r@ == match a {
            ArtifactError::NotFound(s) => "artifact not found: "@ + s@,
            ArtifactError::InvalidPath(s) => "invalid artifact path: "@ + s@,
            ArtifactError::Io(s) => "io error: "@ + s@,
        },
        call_ensures(MemoryError::to_string, (&m,), r) ==> r@ == match m {
            MemoryError::NotFound { path, message } => message@,
            MemoryError::Other { message } => message@,
        },
        call_ensures(JournalError::to_string, (&j,), r) ==> r@ == match j {
            JournalError::SchemaVersionMismatch { expected, got } => "schema version mismatch: expected "@ + decimal(
                expected as nat,
            ) + ", got "@ + decimal(got as nat),
            JournalError::Storage(s) => "storage error: "@ + s@,
            JournalError::NotFound(s) => "not found: "@ + s@,
            JournalError::InvalidCheckpointIndex(n) => "invalid checkpoint index: "@ + decimal(n as nat),
        },
{
}

/// A refusal says the operation and the reason, and an exhausted budget the resource, what was used
/// of it and its limit.
pub proof fn refusals_say_what_was_refused(d: CapabilityDenied, b: BudgetExhausted, r: String)
    ensures
        call_ensures(CapabilityDenied::to_string, (&d,), r) ==> r@ == "capability denied: "@ + d.operation@ + " — "@ + d.reason@,
        call_ensures(BudgetExhausted::to_string, (&b,), r) ==> r@ == "budget exhausted: "@ + b.resource@ + " — used "@ + b.used@
            + ", limit "@ + b.limit@,
{
}

/// Each refusal of a token gives the operation and the reason, with the plain form of a path.
pub proof fn refusals_give_their_reason(token: CapabilityToken, text: &str, r: Result<(), CapabilityDenied>)
    requires
        r is Err,
    ensures
        call_ensures(CapabilityToken::check_shell, (&token,), r) ==> refused(r, "shell"@, "shell capability not granted"@),
        call_ensures(CapabilityToken::check_javascript, (&token,), r) ==> refused(
            r,
            "javascript"@,
            "javascript capability not granted"@,
        ),
        call_ensures(CapabilityToken::check_python, (&token,), r) ==> refused(r, "python"@, "python capability not granted"@),
        call_ensures(CapabilityToken::check_network, (&token, text), r) ==> refused(
            r,
            "network:"@ + text@,
            "no network permission for "@ + text@,
        ),
        call_ensures(CapabilityToken::check_skill, (&token, text), r) ==> refused(
            r,
            "skill:"@ + text@,
            "skill "@ + quoted(text@) + " not allowed by capability token"@,
        ),
        call_ensures(CapabilityToken::check_path_read, (&token, text), r) && !in_memory(plain_path(text@)) ==> refused(
            r,
            "read_file"@,
            "read access denied for "@ + plain_path(text@),
        ),
        call_ensures(CapabilityToken::check_path_write, (&token, text), r) && !in_memory(plain_path(text@)) ==> refused(
            r,
            "write_file"@,
            "write access denied for "@ + plain_path(text@),
        ),
        call_ensures(CapabilityToken::check_path_read, (&token, text), r) && in_memory(plain_path(text@)) ==> refused(
            r,
            "read_file"@,
            match parsed_memory_path(plain_path(text@)) {
                Err(e) => "invalid memory path '"@ + plain_path(text@) + "': "@ + e.message(),
                Ok(_) => "memory read denied for "@ + plain_path(text@) + ": not in any MemoryCapability.search_scopes"@,
            },
        ),
        call_ensures(CapabilityToken::check_path_write, (&token, text), r) && in_memory(plain_path(text@)) ==> refused(
            r,
            "write_file"@,
            match parsed_memory_path(plain_path(text@)) {
                Err(e) => "invalid memory path '"@ + plain_path(text@) + "': "@ + e.message(),
                Ok(p) => if at_or_below(p, "/mnt"@) {
                    "memory write denied for "@ + plain_path(text@) + ": /mnt is admin-ingested only"@
                } else {
                    "memory write denied for "@ + plain_path(text@) + ": not in any MemoryCapability.write_scopes"@
                },
            },
        ),
{
    reveal_strlit("/");
    let path = plain_path(text@);
    assert("/var/memory"@ + "/"@ =~= "/var/memory"@.push('/'));
    assert("/mnt"@ + "/"@ =~= "/mnt"@.push('/'));
    assert(in_memory(path) <==> crate::types::memory::is_memory_path(path));
}

/// The call was refused with this operation and this reason.
pub open spec fn refused(r: Result<(), CapabilityDenied>, operation: Seq<char>, reason: Seq<char>) -> bool {
    r matches Err(e) && e.operation@ == operation && e.reason@ == reason
}

/// The checks of mounts say what is wrong: a target must be absolute and not the root, a source must
/// be there, a prompt must be small and lie in the project, and that of the entry agent must be there.
pub proof fn mount_checks_say_what_is_wrong(
    settings: MountSettings,
    a: &str,
    b: &str,
    c: &str,
    there: bool,
    size: u64,
    r: Result<(), MountError>,
)
    requires
        r is Err,
    ensures
        call_ensures(check_target, (a,), r) ==> (r->Err_0 matches MountError::InvalidMountTarget(text) && text@ == (if a@.len() > 0
            && a@[0] == '/' {
            "mount target '/' is the root — mounting to root is not allowed"@
        } else {
            "mount target '"@ + a@ + "' must be an absolute path (start with '/')"@
        })),
        call_ensures(check_source, (there, a, b), r) ==> (r->Err_0 matches MountError::SourceNotFound { source_path, target }
            && source_path@ == a@ && target@ == b@),
        call_ensures(check_prompt_size, (a, size), r) ==> (r->Err_0 matches MountError::PromptTooLarge { prompt_path, size: n }
            && prompt_path@ == a@ && n == size),
        call_ensures(check_inside, (a, b, c), r) ==> (r->Err_0 matches MountError::PathTraversal { prompt_path, resolved, root }
            && prompt_path@ == a@ && resolved@ == b@ && root@ == c@),
        call_ensures(MountSettings::prompt_missing, (&settings, a, b, c), r) ==> (r->Err_0 matches MountError::EntryPromptNotFound {
            prompt_path,
            resolved,
        } && prompt_path@ == b@ && resolved@ == c@),
{
}

/// The errors of tools say what went wrong, and repeat a refusal as it is.
pub proof fn tool_errors_say_what_went_wrong(e: ToolError, r: String, inner: String)
    requires
        call_ensures(ToolError::to_string, (&e,), r),
        e matches ToolError::CapabilityDenied(d) ==> call_ensures(CapabilityDenied::to_string, (&d,), inner),
    ensures
        r@ == match e {
            ToolError::CapabilityDenied(_) => "capability denied: "@ + inner@,
            ToolError::InvalidArguments(s) => "invalid arguments: "@ + s@,
            ToolError::ExecutionFailed(s) => "execution failed: "@ + s@,
        },
{
}

/// The errors of providers say what went wrong, and repeat an exhausted budget as it is.
pub proof fn provider_errors_say_what_went_wrong(e: ProviderError, r: String, inner: String)
    requires
        call_ensures(ProviderError::to_string, (&e,), r),
        e matches ProviderError::BudgetExhausted(b) ==> call_ensures(BudgetExhausted::to_string, (&b,), inner),
    ensures
        r@ == match e {
            ProviderError::RateLimit { retry_after_ms: None } => "rate limited: retry after "@ + "None"@ + "ms"@,
            ProviderError::RateLimit { retry_after_ms: Some(n) } => "rate limited: retry after "@ + ("Some("@ + decimal(n as nat)
                + ")"@) + "ms"@,
            ProviderError::AuthError(s) => "authentication error: "@ + s@,
            ProviderError::BadRequest(s) => "bad request: "@ + s@,
            ProviderError::ServerError(s) => "server error: "@ + s@,
            ProviderError::Overloaded(s) => "overloaded: "@ + s@,
            ProviderError::BudgetExhausted(_) => "budget exhausted: "@ + inner@,
            ProviderError::Other(s) => "other: "@ + s@,
        },
{
}

/// The errors of tenant identifiers and memory paths say what is wrong with the text.
pub proof fn path_errors_say_what_is_wrong(t: TenantIdError, p: MemoryPathError, r: String)
    ensures
        call_ensures(TenantIdError::to_string, (&t,), r) ==> r@ == match t {
            TenantIdError::Empty => "tenant id is empty"@,
            TenantIdError::TooLong(n) => "tenant id too long: max 64 characters, got "@ + decimal(n as nat),
            TenantIdError::InvalidStart => "tenant id must start with a lowercase letter or digit"@,
            TenantIdError::InvalidChar(c) => "tenant id contains invalid character: '"@.push(c) + "' (allowed: a-z, 0-9, _, -)"@,
        },
        call_ensures(MemoryPathError::to_string, (&p,), r) ==> r@ == match p {
            MemoryPathError::Empty => "memory path is empty"@,
            MemoryPathError::InvalidPrefix => "memory path must start with /var/memory/ or /mnt/"@,
            MemoryPathError::ParentSegment => "memory path contains '..' segment (parent traversal not allowed)"@,
            MemoryPathError::NullByte => "memory path contains null byte"@,
            MemoryPathError::ControlChar(c) => "memory path contains control character: U+"@ + hex(c as nat, 4),
            MemoryPathError::SegmentTooLong(n) => "path segment too long: max 255 bytes, got "@ + decimal(n as nat),
            MemoryPathError::PathTooLong(n) => "memory path too long: max 1024 bytes, got "@ + decimal(n as nat),
            MemoryPathError::EmptySegment => "memory path contains empty segment (consecutive slashes)"@,
        },
{
}

/// The errors of mounts say what could not be mounted, and why.
pub proof fn mount_errors_say_what_went_wrong(e: MountError, r: String)
    requires
        call_ensures(MountError::to_string, (&e,), r),
    ensures
        r@ == match e {
            MountError::Io { context, source } => context@ + ": "@ + source@,
            MountError::VfsWrite { path, detail } => "failed to write to VFS at "@ + path@ + ": "@ + detail@,
            MountError::FileLimitExceeded { mount_target, actual, limit } => "mount '"@ + mount_target@
                + "' exceeds file limit: "@ + decimal(actual as nat) + " files > "@ + decimal(limit as nat),
            MountError::SizeLimitExceeded { mount_target, actual, limit } => "mount '"@ + mount_target@
                + "' exceeds size limit: "@ + decimal(actual as nat) + " bytes > "@ + decimal(limit as nat),
            MountError::NoParentDirectory => "config path has no parent directory"@,
            MountError::PathTraversal { prompt_path, resolved, root } => "system prompt '"@ + prompt_path@ + "' resolves to "@
                + resolved@ + " which is outside the project root "@ + root@,
            MountError::PromptTooLarge { prompt_path, size } => "system prompt '"@ + prompt_path@ + "' is "@ + decimal(
                size as nat,
            ) + " bytes, which exceeds the 1 MB limit"@,
            MountError::InvalidMountTarget(text) => text@,
            MountError::SourceNotFound { source_path, target } => "mount source does not exist: "@ + source_path@
                + " (for mount target '"@ + target@ + "')"@,
            MountError::EntryPromptNotFound { prompt_path, resolved } => "entry agent system prompt not found: "@ + prompt_path@
                + " (resolved to "@ + resolved@ + ")"@,
        },
{
}

/// The errors of WASM tools say where the tool failed.
pub proof fn wasm_errors_say_what_went_wrong(e: WasmError, r: String)
    requires
        call_ensures(WasmError::to_string, (&e,), r),
    ensures
        r@ == match e {
            WasmError::ModuleLoadFailed(s) => "module load failed: "@ + s@,
            WasmError::InstantiationFailed(s) => "instantiation failed: "@ + s@,
            WasmError::FuelExhausted { consumed } => "fuel exhausted after "@ + decimal(consumed as nat) + " units"@,
            WasmError::ToolError(s) => "tool error: "@ + s@,
            WasmError::Trap(s) => "wasm trap: "@ + s@,
        },
{
}

/// The errors of workflows say what went wrong, and repeat an error of the filesystem as it is.
pub proof fn workflow_errors_say_what_went_wrong(e: WorkflowError, r: String, inner: String)
    requires
        call_ensures(WorkflowError::to_string, (&e,), r),
        e matches WorkflowError::Vfs(v) ==> call_ensures(VfsError::to_string, (&v,), inner),
    ensures
        r@ == match e {
            WorkflowError::InvalidScriptPath { path, reason } => "invalid workflow script path `"@ + path@ + "`: "@ + reason@,
            WorkflowError::InvalidMetadata(s) => "invalid workflow script metadata: "@ + s@,
            WorkflowError::InvalidScript(s) => "invalid workflow script: "@ + s@,
            WorkflowError::RunNotFound { run_id } => "workflow run `"@ + run_id@ + "` was not found"@,
            WorkflowError::WorkerFailed { key, message } => "workflow worker failed for call `"@ + key@ + "`: "@ + message@,
            WorkflowError::Cancelled => "workflow run was cancelled"@,
            WorkflowError::Vfs(_) => "virtual filesystem error: "@ + inner@,
            WorkflowError::Serde(s) => "serialization error: "@ + s@,
            WorkflowError::Join(s) => "task join error: "@ + s@,
            WorkflowError::Internal(s) => "internal workflow error: "@ + s@,
        },
{
}

} // verus!
