//! Hosting of WASM tools: what a sandbox may see, how fuel is shared, and what became of a
//! call.
use crate::coding::views;
use crate::json::{parse_json, parse_view, parsed, put, Json, JsonView};
use crate::path::{trim_leading, without_leading_slashes};
use crate::text::{after_first, before_first, concat, concat3, copy, copy_all, decimal, number, split_first, starts_with, strip_prefix, texts};
use crate::types::capability::{read_denial, write_denial, CapabilityToken, TokenView};
use crate::types::tool::{DefinitionView, ToolDefinition, ToolError, ToolErrorView};
use vstd::prelude::*;
use vstd::string::*;

verus! {

broadcast use vstd::seq_lib::group_seq_properties;

// ---- Errors ------------------------------------------------------------------

/// Errors of WASM tools.
#[derive(Debug, PartialEq, Eq)]
pub enum WasmError {
    ModuleLoadFailed(String),
    InstantiationFailed(String),
    FuelExhausted { consumed: u64 },
    ToolError(String),
    Trap(String),
}

/// What a [`WasmError`] says.
#[verifier::ext_equal]
pub enum WasmErrorView {
    ModuleLoadFailed(Seq<char>),
    InstantiationFailed(Seq<char>),
    FuelExhausted { consumed: u64 },
    ToolError(Seq<char>),
    Trap(Seq<char>),
}

impl View for WasmError {
    type V = WasmErrorView;

    open spec fn view(&self) -> WasmErrorView {
        match self {
            WasmError::ModuleLoadFailed(text) => WasmErrorView::ModuleLoadFailed(text@),
            WasmError::InstantiationFailed(text) => WasmErrorView::InstantiationFailed(text@),
            WasmError::FuelExhausted { consumed } => WasmErrorView::FuelExhausted { consumed: *consumed },
            WasmError::ToolError(text) => WasmErrorView::ToolError(text@),
            WasmError::Trap(text) => WasmErrorView::Trap(text@),
        }
    }
}

/// The text of a [`WasmError`].
pub open spec fn wasm_message(e: WasmErrorView) -> Seq<char> {
    match e {
        WasmErrorView::ModuleLoadFailed(text) => "module load failed: "@ + text,
        WasmErrorView::InstantiationFailed(text) => "instantiation failed: "@ + text,
        WasmErrorView::FuelExhausted { consumed } => "fuel exhausted after "@ + decimal(consumed as nat)
            + " units"@,
        WasmErrorView::ToolError(text) => "tool error: "@ + text,
        WasmErrorView::Trap(text) => "wasm trap: "@ + text,
    }
}

impl WasmError {
    /// What the error says.
    pub fn to_string(&self) -> (r: String)
        ensures
            r@ == wasm_message(self@),
    {
        match self {
            WasmError::ModuleLoadFailed(text) => concat("module load failed: ", text.as_str()),
            WasmError::InstantiationFailed(text) => concat("instantiation failed: ", text.as_str()),
            WasmError::FuelExhausted { consumed } => concat3(
                "fuel exhausted after ",
                number(*consumed).as_str(),
                " units",
            ),
            WasmError::ToolError(text) => concat("tool error: ", text.as_str()),
            WasmError::Trap(text) => concat("wasm trap: ", text.as_str()),
        }
    }
}

/// What a failed call is reported as. Complaints about the arguments are told from other
/// failures by how they begin.
pub open spec fn reported(e: WasmErrorView) -> ToolErrorView {
    match e {
        WasmErrorView::FuelExhausted { consumed } => ToolErrorView::ExecutionFailed(
            "fuel exhausted after "@ + decimal(consumed as nat) + " units"@,
        ),
        WasmErrorView::ToolError(text) => if "invalid arguments: "@.is_prefix_of(text) {
            ToolErrorView::InvalidArguments(text.skip("invalid arguments: "@.len() as int))
        } else if "invalid arguments:"@.is_prefix_of(text) {
            ToolErrorView::InvalidArguments(text)
        } else {
            ToolErrorView::ExecutionFailed(wasm_message(e))
        },
        _ => ToolErrorView::ExecutionFailed(wasm_message(e)),
    }
}

/// What a failed call is reported as.
pub fn report(e: WasmError) -> (r: ToolError)
    ensures
        r@ == reported(e@),
{
    match &e {
        WasmError::FuelExhausted { consumed } => ToolError::ExecutionFailed(
            concat3("fuel exhausted after ", number(*consumed).as_str(), " units"),
        ),
        WasmError::ToolError(text) => {
            match strip_prefix(text.as_str(), "invalid arguments: ") {
                Some(rest) => ToolError::InvalidArguments(copy(rest)),
                None => if starts_with(text.as_str(), "invalid arguments:") {
                    ToolError::InvalidArguments(text.clone())
                } else {
                    ToolError::ExecutionFailed(e.to_string())
                },
            }
        },
        _ => ToolError::ExecutionFailed(e.to_string()),
    }
}

// ---- Sandboxes ---------------------------------------------------------------

/// Filesystem mount for a WASI tool sandbox.
#[derive(Debug, PartialEq, Eq)]
pub struct WasiMount {
    /// Path on the host filesystem.
    pub host: String,
    /// Path inside the WASI guest.
    pub guest: String,
    /// Permission mode: `"ro"` or `"rw"`.
    pub perms: String,
}

/// What a [`WasiMount`] says.
#[verifier::ext_equal]
pub struct WasiMountView {
    pub host: Seq<char>,
    pub guest: Seq<char>,
    pub perms: Seq<char>,
}

impl View for WasiMount {
    type V = WasiMountView;

    open spec fn view(&self) -> WasiMountView {
        WasiMountView { host: self.host@, guest: self.guest@, perms: self.perms@ }
    }
}

impl Clone for WasiMount {
    fn clone(&self) -> (r: Self)
        ensures
            r@ == self@,
    {
        WasiMount { host: self.host.clone(), guest: self.guest.clone(), perms: self.perms.clone() }
    }
}

/// WASI sandbox configuration for a tool.
#[derive(Debug, PartialEq, Eq)]
pub struct WasiToolConfig {
    /// Preopened directory mounts.
    pub fs: Vec<WasiMount>,
    /// Environment variables, as `KEY=VALUE`. Bare names are ignored: the host process
    /// environment is not inherited.
    pub env: Vec<String>,
}

/// What a [`WasiToolConfig`] says.
#[verifier::ext_equal]
pub struct WasiConfigView {
    pub fs: Seq<WasiMountView>,
    pub env: Seq<Seq<char>>,
}

impl View for WasiToolConfig {
    type V = WasiConfigView;

    open spec fn view(&self) -> WasiConfigView {
        WasiConfigView { fs: views(self.fs@), env: texts(self.env@) }
    }
}

impl Default for WasiToolConfig {
    fn default() -> (r: Self)
        ensures
            r@ == (WasiConfigView { fs: Seq::empty(), env: Seq::empty() }),
    {
        let r = WasiToolConfig { fs: Vec::new(), env: Vec::new() };
        assert(r@.fs =~= Seq::empty());
        assert(r@.env =~= Seq::empty());
        r
    }
}

impl Clone for WasiToolConfig {
    fn clone(&self) -> (r: Self)
        ensures
            r@ == self@,
    {
        let mut fs: Vec<WasiMount> = Vec::new();
        let mut i: usize = 0;
        while i < self.fs.len()
            invariant
                i <= self.fs@.len(),
                fs@.len() == i,
                forall|k: int| 0 <= k < i ==> (#[trigger] fs@[k])@ == self.fs@[k]@,
            decreases self.fs@.len() - i,
        {
            fs.push(self.fs[i].clone());
            i = i + 1;
        }
        assert(views(fs@) =~= views(self.fs@));
        WasiToolConfig { fs, env: copy_all(&self.env) }
    }
}

/// A directory of the host that a sandbox sees.
#[derive(Debug, PartialEq, Eq)]
pub struct Preopen {
    /// Path on the host filesystem.
    pub host: String,
    /// Path inside the guest, as configured.
    pub guest: String,
    /// Name inside the guest: the path without slashes at the start.
    pub guest_name: String,
    /// Whether the guest may write.
    pub writable: bool,
}

/// What a [`Preopen`] says.
#[verifier::ext_equal]
pub struct PreopenView {
    pub host: Seq<char>,
    pub guest: Seq<char>,
    pub guest_name: Seq<char>,
    pub writable: bool,
}

impl View for Preopen {
    type V = PreopenView;

    open spec fn view(&self) -> PreopenView {
        PreopenView {
            host: self.host@,
            guest: self.guest@,
            guest_name: self.guest_name@,
            writable: self.writable,
        }
    }
}

/// What a sandbox sees of the host, and what was left out.
#[derive(Debug, PartialEq, Eq)]
pub struct Sandbox {
    /// The environment variables.
    pub env: Vec<(String, String)>,
    /// The environment entries that were ignored.
    pub ignored_env: Vec<String>,
    /// The directories.
    pub preopens: Vec<Preopen>,
    /// For each directory that the capability denies, the host path and the reason.
    pub dropped: Vec<(String, String)>,
}

/// A name and a value.
pub open spec fn pair_views(pairs: Seq<(String, String)>) -> Seq<(Seq<char>, Seq<char>)> {
    Seq::new(pairs.len(), |i: int| (pairs[i].0@, pairs[i].1@))
}

/// The environment variables of `KEY=VALUE` entries, in order.
pub open spec fn env_of(entries: Seq<Seq<char>>) -> Seq<(Seq<char>, Seq<char>)>
    decreases entries.len(),
{
    if entries.len() == 0 {
        Seq::empty()
    } else {
        let entry = entries.last();
        match after_first(entry, '=') {
            Some(value) => env_of(entries.drop_last()).push((before_first(entry, '='), value)),
            None => env_of(entries.drop_last()),
        }
    }
}

/// The entries that are no `KEY=VALUE`, in order.
pub open spec fn bare_entries(entries: Seq<Seq<char>>) -> Seq<Seq<char>>
    decreases entries.len(),
{
    if entries.len() == 0 {
        Seq::empty()
    } else if after_first(entries.last(), '=') is None {
        bare_entries(entries.drop_last()).push(entries.last())
    } else {
        bare_entries(entries.drop_last())
    }
}

/// What a mount is denied with: writable ones by the write rules, all others by the read
/// rules.
pub open spec fn mount_denial(token: TokenView, mount: WasiMountView) -> Option<Seq<char>> {
    let denial = if mount.perms == "rw"@ {
        write_denial(token, mount.host)
    } else {
        read_denial(token, mount.host)
    };
    match denial {
        Some(e) => Some(e.reason),
        None => None,
    }
}

/// What a sandbox sees of a mount that is allowed.
pub open spec fn preopened(mount: WasiMountView) -> PreopenView {
    PreopenView {
        host: mount.host,
        guest: mount.guest,
        guest_name: trim_leading(mount.guest),
        writable: mount.perms == "rw"@,
    }
}

/// The mounts that the capability allows, in order.
pub open spec fn preopens_of(token: TokenView, mounts: Seq<WasiMountView>) -> Seq<PreopenView>
    decreases mounts.len(),
{
    if mounts.len() == 0 {
        Seq::empty()
    } else if mount_denial(token, mounts.last()) is None {
        preopens_of(token, mounts.drop_last()).push(preopened(mounts.last()))
    } else {
        preopens_of(token, mounts.drop_last())
    }
}

/// The mounts that the capability denies, in order, with the reason.
pub open spec fn dropped_of(token: TokenView, mounts: Seq<WasiMountView>) -> Seq<(Seq<char>, Seq<char>)>
    decreases mounts.len(),
{
    if mounts.len() == 0 {
        Seq::empty()
    } else {
        match mount_denial(token, mounts.last()) {
            Some(reason) => dropped_of(token, mounts.drop_last()).push((mounts.last().host, reason)),
            None => dropped_of(token, mounts.drop_last()),
        }
    }
}

/// Checks a mount against a capability.
fn check_mount(mount: &WasiMount, capability: &CapabilityToken) -> (r: Option<String>)
    ensures
        crate::text::opt_text(r) == mount_denial(capability@, mount@),
{
    let checked = if *mount.perms.as_str() == *"rw" {
        capability.check_path_write(mount.host.as_str())
    } else {
        capability.check_path_read(mount.host.as_str())
    };
    match checked {
        Ok(()) => None,
        Err(denied) => Some(denied.reason),
    }
}

impl WasiToolConfig {
    /// What a sandbox with this configuration sees when a caller with `capability` uses it.
    ///
    /// - **Environment variables**: only explicit `KEY=VALUE` entries.
    /// - **Directories**: a writable mount must pass the write check of the caller's
    ///   capability, every other mount the read check. What does not pass is dropped.
    pub fn sandbox(&self, capability: &CapabilityToken) -> (r: Sandbox)
        ensures
            pair_views(r.env@) == env_of(self@.env),
            texts(r.ignored_env@) == bare_entries(self@.env),
            views(r.preopens@) == preopens_of(capability@, self@.fs),
            pair_views(r.dropped@) == dropped_of(capability@, self@.fs),
    {
        let mut env: Vec<(String, String)> = Vec::new();
        let mut ignored_env: Vec<String> = Vec::new();
        let ghost entries = texts(self.env@);
        let mut i: usize = 0;
        assert(entries.take(0) =~= Seq::empty());
        assert(pair_views(env@) =~= Seq::empty());
        assert(texts(ignored_env@) =~= Seq::empty());
        while i < self.env.len()
            invariant
                i <= self.env@.len(),
                entries == texts(self.env@),
                pair_views(env@) == env_of(entries.take(i as int)),
                texts(ignored_env@) == bare_entries(entries.take(i as int)),
            decreases self.env@.len() - i,
        {
            let ghost was = pair_views(env@);
            let ghost was_ignored = texts(ignored_env@);
            let entry = self.env[i].as_str();
            proof {
                assert(entries.take(i + 1).drop_last() =~= entries.take(i as int));
                assert(entries.take(i + 1).last() == entry@);
            }
            let (key, value) = split_first(entry, '=');
            match value {
                Some(value) => {
                    let ghost pair = (key@, value@);
                    env.push((key, value));
                    assert(pair_views(env@) =~= was.push(pair));
                },
                None => {
                    ignored_env.push(copy(entry));
                    assert(texts(ignored_env@) =~= was_ignored.push(entry@));
                },
            }
            i = i + 1;
        }
        assert(entries.take(i as int) =~= entries);
        let mut preopens: Vec<Preopen> = Vec::new();
        let mut dropped: Vec<(String, String)> = Vec::new();
        let ghost mounts = views(self.fs@);
        let mut k: usize = 0;
        assert(mounts.take(0) =~= Seq::empty());
        assert(views(preopens@) =~= Seq::empty());
        assert(pair_views(dropped@) =~= Seq::empty());
        while k < self.fs.len()
            invariant
                k <= self.fs@.len(),
                mounts == views(self.fs@),
                views(preopens@) == preopens_of(capability@, mounts.take(k as int)),
                pair_views(dropped@) == dropped_of(capability@, mounts.take(k as int)),
            decreases self.fs@.len() - k,
        {
            let ghost was = views(preopens@);
            let ghost was_dropped = pair_views(dropped@);
            let mount = &self.fs[k];
            proof {
                assert(mounts.take(k + 1).drop_last() =~= mounts.take(k as int));
                assert(mounts.take(k + 1).last() == mount@);
            }
            match check_mount(mount, capability) {
                Some(reason) => {
                    let ghost pair = (mount.host@, reason@);
                    dropped.push((mount.host.clone(), reason));
                    assert(pair_views(dropped@) =~= was_dropped.push(pair));
                },
                None => {
                    preopens.push(
                        Preopen {
                            host: mount.host.clone(),
                            guest: mount.guest.clone(),
                            guest_name: without_leading_slashes(mount.guest.as_str()),
                            writable: *mount.perms.as_str() == *"rw",
                        },
                    );
                    assert(views(preopens@) =~= was.push(preopened(mount@)));
                },
            }
            k = k + 1;
        }
        assert(mounts.take(k as int) =~= mounts);
        Sandbox { env, ignored_env, preopens, dropped }
    }
}

/// What is said of a directory that could not be opened.
pub fn preopen_error(host: &str, guest: &str, error: &str) -> (r: WasmError)
    ensures
        r@ == WasmErrorView::InstantiationFailed(
            "failed to preopen '"@ + host@ + "' -> '"@ + guest@ + "': "@ + error@,
        ),
{
    let mut text = concat3("failed to preopen '", host, "' -> '");
    text.append(guest);
    text.append("': ");
    text.append(error);
    WasmError::InstantiationFailed(text)
}

// ---- Fuel --------------------------------------------------------------------

/// The fuel of a call. A limit of 0 means unlimited.
pub open spec fn module_fuel_of(fuel_limit: u64) -> u64 {
    if fuel_limit == 0 {
        u64::MAX
    } else {
        fuel_limit
    }
}

/// The fuel of a call. A limit of 0 means unlimited.
pub fn module_fuel(fuel_limit: u64) -> (r: u64)
    ensures
        r == module_fuel_of(fuel_limit),
{
    if fuel_limit == 0 {
        u64::MAX
    } else {
        fuel_limit
    }
}

/// What is reserved of the fuel of an agent: what the call may use, as far as it is there.
pub open spec fn taken(remaining: u64, module_fuel: u64) -> u64 {
    if module_fuel < remaining {
        module_fuel
    } else {
        remaining
    }
}

/// Reserve fuel from the agent-level budget.
///
/// `remaining` is what the agent has left, `None` for an agent without a limit. Gives what
/// was reserved and what is left then. Nothing left means exhausted.
pub fn reserve_agent_fuel(remaining: Option<u64>, module_fuel: u64) -> (r: Result<(u64, Option<u64>), WasmError>)
    ensures
        match remaining {
            None => r is Ok && r->Ok_0 == (module_fuel, None::<u64>),
            Some(0) => r is Err && r->Err_0@ == (WasmErrorView::FuelExhausted { consumed: 0 }),
            Some(n) => r is Ok && r->Ok_0 == (taken(n, module_fuel), Some((n - taken(n, module_fuel)) as u64)),
        },
{
    match remaining {
        None => Ok((module_fuel, None)),
        Some(n) => {
            if n == 0 {
                return Err(WasmError::FuelExhausted { consumed: 0 });
            }
            let take: u64 = if module_fuel < n {
                module_fuel
            } else {
                n
            };
            Ok((take, Some(n - take)))
        },
    }
}

/// The part of a reservation that was not used.
pub open spec fn unused(reserved: u64, consumed: u64) -> u64 {
    if reserved > consumed {
        (reserved - consumed) as u64
    } else {
        0
    }
}

/// What a call consumed: what was reserved, without what the store has left.
pub fn fuel_consumed(reserved: u64, remaining_fuel: u64) -> (r: u64)
    ensures
        r == unused(reserved, remaining_fuel),
{
    reserved.saturating_sub(remaining_fuel)
}

/// What is to be given back of a reservation.
pub fn fuel_refund(reserved: u64, consumed: u64) -> (r: u64)
    ensures
        r == unused(reserved, consumed),
{
    reserved.saturating_sub(consumed)
}

/// What an agent has after the unused portion of a reservation was given back. Behind the
/// largest number comes zero.
pub open spec fn refunded(remaining: u64, reserved: u64, consumed: u64) -> int {
    let sum = remaining + unused(reserved, consumed);
    if sum <= u64::MAX {
        sum
    } else {
        sum - u64::MAX - 1
    }
}

/// Give the unused portion of a reservation back to the agent.
pub fn refund_agent_fuel(remaining: Option<u64>, reserved: u64, consumed: u64) -> (r: Option<u64>)
    ensures
        match remaining {
            None => r is None,
            Some(n) => r is Some && r->0 == refunded(n, reserved, consumed),
        },
{
    match remaining {
        None => None,
        Some(n) => Some(n.wrapping_add(fuel_refund(reserved, consumed))),
    }
}

// ---- Calls -------------------------------------------------------------------

/// What became of a call.
#[derive(Debug, PartialEq, Eq)]
pub enum CallOutcome {
    /// The tool returned a text.
    Returned(String),
    /// The tool complained about its arguments.
    InvalidArguments(String),
    /// The tool failed.
    ExecutionFailed(String),
    /// The fuel ran out.
    OutOfFuel,
    /// The guest trapped.
    Trapped(String),
}

/// The outcome of a value or an error.
pub open spec fn value_out(r: Result<Json, WasmError>) -> Result<JsonView, WasmErrorView> {
    match r {
        Ok(value) => Ok(value@),
        Err(e) => Err(e@),
    }
}

/// The value that a tool returned, where its text parses as `parse`.
pub open spec fn returned_of(parse: Result<JsonView, Seq<char>>) -> Result<JsonView, WasmErrorView> {
    match parse {
        Ok(value) => Ok(value),
        Err(e) => Err(WasmErrorView::ToolError("invalid JSON response from tool: "@ + e)),
    }
}

/// The result of a call that consumed `consumed` units.
pub open spec fn result_of(outcome: CallOutcome, consumed: u64) -> Result<JsonView, WasmErrorView> {
    match outcome {
        CallOutcome::Returned(text) => returned_of(parsed(text@)),
        CallOutcome::InvalidArguments(text) => Err(WasmErrorView::ToolError("invalid arguments: "@ + text@)),
        CallOutcome::ExecutionFailed(text) => Err(WasmErrorView::ToolError("execution failed: "@ + text@)),
        CallOutcome::OutOfFuel => Err(WasmErrorView::FuelExhausted { consumed }),
        CallOutcome::Trapped(text) => Err(WasmErrorView::Trap(text@)),
    }
}

/// The value that a tool returned, where its text parses as `parse`.
pub fn returned_value(parse: Result<Json, String>) -> (r: Result<Json, WasmError>)
    ensures
        value_out(r) == returned_of(parse_view(parse)),
{
    match parse {
        Ok(value) => Ok(value),
        Err(e) => Err(WasmError::ToolError(concat("invalid JSON response from tool: ", e.as_str()))),
    }
}

/// The result of a call that consumed `consumed` units.
pub fn call_result(outcome: CallOutcome, consumed: u64) -> (r: Result<Json, WasmError>)
    ensures
        value_out(r) == result_of(outcome, consumed),
{
    match outcome {
        CallOutcome::Returned(text) => returned_value(parse_json(text.as_str())),
        CallOutcome::InvalidArguments(text) => Err(
            WasmError::ToolError(concat("invalid arguments: ", text.as_str())),
        ),
        CallOutcome::ExecutionFailed(text) => Err(
            WasmError::ToolError(concat("execution failed: ", text.as_str())),
        ),
        CallOutcome::OutOfFuel => Err(WasmError::FuelExhausted { consumed }),
        CallOutcome::Trapped(text) => Err(WasmError::Trap(text)),
    }
}

// ---- Discovery ---------------------------------------------------------------

/// Fuel budget for `list-tools` discovery. Enough for typical enumeration but bounded, so
/// that no module can hang the start.
pub const DISCOVER_FUEL_LIMIT: u64 = 1_000_000;

/// The schema of a tool that gives none that can be read.
pub open spec fn fallback_schema() -> JsonView {
    JsonView::Object(Map::empty().insert("type"@, JsonView::Text("object"@)))
}

/// The schema of a tool, where its text parses as `parse`.
pub open spec fn schema_of(parse: Result<JsonView, Seq<char>>) -> JsonView {
    match parse {
        Ok(schema) => schema,
        Err(_) => fallback_schema(),
    }
}

/// The schema of a tool, where its text parses as `parse`.
pub fn schema_or_fallback(parse: Result<Json, String>) -> (r: Json)
    ensures
        r@ == schema_of(parse_view(parse)),
{
    match parse {
        Ok(schema) => schema,
        Err(_) => {
            let mut m: Vec<(String, Json)> = Vec::new();
            put(&mut m, "type", Json::text("object"));
            Json::Object(m)
        },
    }
}

/// The definition of a discovered tool. A schema that cannot be read becomes that of any
/// object.
pub fn discovered_tool(name: &str, description: &str, input_schema: &str) -> (r: ToolDefinition)
    ensures
        r@ == (DefinitionView {
            name: name@,
            description: description@,
            input_schema: schema_of(parsed(input_schema@)),
        }),
{
    ToolDefinition {
        name: copy(name),
        description: copy(description),
        input_schema: schema_or_fallback(parse_json(input_schema)),
    }
}

/// What is said of a module that is not loaded.
pub fn not_loaded(name: &str) -> (r: WasmError)
    ensures
        r@ == WasmErrorView::ModuleLoadFailed("module '"@ + name@ + "' not loaded"@),
{
    WasmError::ModuleLoadFailed(concat3("module '", name, "' not loaded"))
}

/// Why discovery failed: the fuel ran out, or `error`.
pub open spec fn discovery_failure(name: Seq<char>, out_of_fuel: bool, error: Seq<char>) -> WasmErrorView {
    WasmErrorView::InstantiationFailed(
        if out_of_fuel {
            "module '"@ + name + "' exhausted "@ + decimal(DISCOVER_FUEL_LIMIT as nat)
                + " fuel during list-tools"@
        } else {
            error
        },
    )
}

/// Why discovery failed: the fuel ran out, or `error`.
pub fn discovery_error(name: &str, out_of_fuel: bool, error: &str) -> (r: WasmError)
    ensures
        r@ == discovery_failure(name@, out_of_fuel, error@),
{
    if out_of_fuel {
        let mut text = concat3("module '", name, "' exhausted ");
        text.append(number(DISCOVER_FUEL_LIMIT).as_str());
        text.append(" fuel during list-tools");
        WasmError::InstantiationFailed(text)
    } else {
        WasmError::InstantiationFailed(copy(error))
    }
}

/// A module that is to be loaded.
#[derive(Debug, PartialEq, Eq)]
pub struct WasmModule {
    pub name: String,
    pub path: String,
    /// Fuel per call; 0 means unlimited.
    pub fuel_limit: u64,
    pub wasi: WasiToolConfig,
}

/// A tool of a module.
#[derive(Debug)]
pub struct WasmToolSpec {
    /// The place of its module among the configured ones.
    pub entry: usize,
    pub module: String,
    pub definition: ToolDefinition,
    pub wasi: WasiToolConfig,
    pub fuel_limit: u64,
}

/// What a [`WasmToolSpec`] says.
pub struct WasmToolView {
    pub entry: nat,
    pub module: Seq<char>,
    pub definition: DefinitionView,
    pub wasi: WasiConfigView,
    pub fuel_limit: u64,
}

impl View for WasmToolSpec {
    type V = WasmToolView;

    open spec fn view(&self) -> WasmToolView {
        WasmToolView {
            entry: self.entry as nat,
            module: self.module@,
            definition: self.definition@,
            wasi: self.wasi@,
            fuel_limit: self.fuel_limit,
        }
    }
}

/// The tools of a module, in the order in which they were discovered.
pub open spec fn module_tools(entry: nat, module: WasmModule, definitions: Seq<DefinitionView>) -> Seq<WasmToolView> {
    Seq::new(
        definitions.len(),
        |i: int|
            WasmToolView {
                entry,
                module: module.name@,
                definition: definitions[i],
                wasi: module.wasi@,
                fuel_limit: module.fuel_limit,
            },
    )
}

/// The tools of all modules that could be loaded, in order.
pub open spec fn all_tools(
    modules: Seq<WasmModule>,
    discovered: Seq<Result<Vec<ToolDefinition>, WasmError>>,
) -> Seq<WasmToolView>
    decreases modules.len(),
{
    if modules.len() == 0 {
        Seq::empty()
    } else {
        let before = all_tools(modules.drop_last(), discovered.drop_last());
        match discovered.last() {
            Ok(definitions) => before + module_tools((modules.len() - 1) as nat, modules.last(), views(definitions@)),
            Err(_) => before,
        }
    }
}

/// The tools of the modules in `tools_config`, where loading and discovery gave
/// `discovered` for each. A module that failed to load, or whose tools could not be
/// discovered, is skipped.
pub fn create_wasm_tools(
    tools_config: &Vec<WasmModule>,
    discovered: &Vec<Result<Vec<ToolDefinition>, WasmError>>,
) -> (r: Vec<WasmToolSpec>)
    requires
        discovered@.len() == tools_config@.len(),
    ensures
        views(r@) == all_tools(tools_config@, discovered@),
{
    let mut tools: Vec<WasmToolSpec> = Vec::new();
    let mut i: usize = 0;
    assert(views(tools@) =~= Seq::empty());
    assert(tools_config@.take(0) =~= Seq::empty());
    while i < tools_config.len()
        invariant
            i <= tools_config@.len(),
            discovered@.len() == tools_config@.len(),
            views(tools@) == all_tools(tools_config@.take(i as int), discovered@.take(i as int)),
        decreases tools_config@.len() - i,
    {
        let module = &tools_config[i];
        let ghost was = views(tools@);
        proof {
            assert(tools_config@.take(i + 1).drop_last() =~= tools_config@.take(i as int));
            assert(discovered@.take(i + 1).drop_last() =~= discovered@.take(i as int));
        }
        match &discovered[i] {
            Ok(definitions) => {
                let ghost all = module_tools(i as nat, *module, views(definitions@));
                let mut k: usize = 0;
                assert(was + all.take(0) =~= was);
                while k < definitions.len()
                    invariant
                        k <= definitions@.len(),
                        all == module_tools(i as nat, *module, views(definitions@)),
                        views(tools@) == was + all.take(k as int),
                    decreases definitions@.len() - k,
                {
                    let ghost before = views(tools@);
                    tools.push(
                        WasmToolSpec {
                            entry: i,
                            module: module.name.clone(),
                            definition: definitions[k].clone(),
                            wasi: module.wasi.clone(),
                            fuel_limit: module.fuel_limit,
                        },
                    );
                    assert(views(tools@) =~= before.push(all[k as int]));
                    assert(was + all.take(k + 1) =~= before.push(all[k as int]));
                    k = k + 1;
                }
                assert(all.take(k as int) =~= all);
            },
            Err(_) => {},
        }
        i = i + 1;
    }
    assert(tools_config@.take(i as int) =~= tools_config@);
    assert(discovered@.take(i as int) =~= discovered@);
    tools
}

// ---- Laws --------------------------------------------------------------------

/// Every directory that a sandbox sees is allowed by the capability: for writing where the
/// guest may write, for reading otherwise.
pub proof fn sandboxes_see_only_what_is_granted(token: TokenView, mounts: Seq<WasiMountView>, i: int)
    requires
        0 <= i < preopens_of(token, mounts).len(),
    ensures
        preopens_of(token, mounts)[i].writable ==> write_denial(token, preopens_of(token, mounts)[i].host) is None,
        !preopens_of(token, mounts)[i].writable ==> read_denial(token, preopens_of(token, mounts)[i].host) is None,
    decreases mounts.len(),
{
    if mounts.len() > 0 {
        let before = preopens_of(token, mounts.drop_last());
        if i < before.len() {
            sandboxes_see_only_what_is_granted(token, mounts.drop_last(), i);
        }
    }
}

/// Every mount is either seen or dropped.
pub proof fn no_mount_is_lost(token: TokenView, mounts: Seq<WasiMountView>)
    ensures
        preopens_of(token, mounts).len() + dropped_of(token, mounts).len() == mounts.len(),
    decreases mounts.len(),
{
    if mounts.len() > 0 {
        no_mount_is_lost(token, mounts.drop_last());
    }
}

/// Every variable of a sandbox is the name and the value of a `KEY=VALUE` entry; bare names
/// are all left out.
pub proof fn bare_names_are_left_out(entries: Seq<Seq<char>>, i: int)
    requires
        0 <= i < env_of(entries).len(),
    ensures
        exists|k: int|
            0 <= k < entries.len() && after_first(#[trigger] entries[k], '=') == Some(env_of(entries)[i].1)
                && before_first(entries[k], '=') == env_of(entries)[i].0,
        env_of(entries).len() + bare_entries(entries).len() == entries.len(),
    decreases entries.len(),
{
    lemma_entry_counts(entries);
    let init = entries.drop_last();
    let n = entries.len() - 1;
    if i < env_of(init).len() {
        bare_names_are_left_out(init, i);
        let k = choose|k: int|
            0 <= k < init.len() && after_first(#[trigger] init[k], '=') == Some(env_of(init)[i].1) && before_first(
                init[k],
                '=',
            ) == env_of(init)[i].0;
        assert(entries[k] == init[k]);
    } else {
        assert(entries[n] == entries.last());
    }
}

proof fn lemma_entry_counts(entries: Seq<Seq<char>>)
    ensures
        env_of(entries).len() + bare_entries(entries).len() == entries.len(),
    decreases entries.len(),
{
    if entries.len() > 0 {
        lemma_entry_counts(entries.drop_last());
    }
}

/// A reservation is never larger than what is left nor than what the call may use, and it is
/// empty only where nothing is left or nothing may be used.
pub proof fn reservations_are_bounded(remaining: u64, module_fuel: u64)
    ensures
        taken(remaining, module_fuel) <= module_fuel,
        taken(remaining, module_fuel) <= remaining,
        taken(remaining, module_fuel) == 0 ==> remaining == 0 || module_fuel == 0,
{
}

/// After a call, its agent has exactly what the call consumed less than before.
pub proof fn a_call_costs_what_it_consumed(remaining: u64, module_fuel: u64, left_in_store: u64)
    requires
        remaining > 0,
        left_in_store <= taken(remaining, module_fuel),
    ensures
        ({
            let reserved = taken(remaining, module_fuel);
            let consumed = unused(reserved, left_in_store);
            refunded((remaining - reserved) as u64, reserved, consumed) == remaining - consumed
        }),
{
}

/// Two calls at the same time never spend more than there is: whatever the second reserves
/// while the first runs, the two reservations together are no more than was there.
pub proof fn concurrent_calls_share_the_fuel(remaining: u64, first: u64, second: u64)
    ensures
        taken(remaining, first) + taken((remaining - taken(remaining, first)) as u64, second) <= remaining,
{
}

} // verus!
