//! Laws of hosting WASM tools, said of what goes in and what comes out.
use crate::coding::views;
use crate::json::{Json, JsonView};
use crate::text::{decimal, texts};
use crate::text_laws::{texts_are_cut_at_the_first, trimming_takes_slashes_only};
use crate::types::capability::{CapabilityDenied, CapabilityToken};
use crate::types::tool::{ToolDefinition, ToolError};
use crate::wasm::{call_result, create_wasm_tools, discovered_tool, discovery_error, fuel_consumed, fuel_refund, module_fuel, module_tools, not_loaded, pair_views, preopen_error, preopened, refund_agent_fuel, report, reserve_agent_fuel, returned_value, schema_or_fallback, CallOutcome, Sandbox, WasiMount, WasiToolConfig, WasmError, WasmModule, WasmToolSpec};
use vstd::prelude::*;

verus! {

broadcast use vstd::seq_lib::group_seq_properties;

// ---- Sandboxes ---------------------------------------------------------------

/// The sandbox of an empty configuration shows nothing.
pub proof fn empty_sandboxes_show_nothing(config: WasiToolConfig, token: CapabilityToken, r: Sandbox)
    requires
        call_ensures(WasiToolConfig::sandbox, (&config, &token), r),
    ensures
        config.fs@.len() == 0 ==> r.preopens@.len() == 0 && r.dropped@.len() == 0,
        config.env@.len() == 0 ==> r.env@.len() == 0 && r.ignored_env@.len() == 0,
{
    assert(pair_views(r.env@).len() == r.env@.len());
    assert(pair_views(r.dropped@).len() == r.dropped@.len());
    assert(texts(r.ignored_env@).len() == r.ignored_env@.len());
    assert(views(r.preopens@).len() == r.preopens@.len());
}

/// One mount more is shown after the others where the token lets its directory be read, or written
/// for a mount of `rw`: under the name of the guest without its leading slashes. Otherwise it is
/// dropped, with the reason of the refusal. The other mounts stay as they are.
pub proof fn mounts_are_shown_as_granted(
    config: WasiToolConfig,
    more: WasiToolConfig,
    mount: WasiMount,
    token: CapabilityToken,
    host: &str,
    checked: Result<(), CapabilityDenied>,
    r: Sandbox,
    s: Sandbox,
)
    requires
        call_ensures(WasiToolConfig::sandbox, (&config, &token), r),
        call_ensures(WasiToolConfig::sandbox, (&more, &token), s),
        more.fs@ == config.fs@.push(mount),
        host@ == mount.host@,
        mount.perms@ == "rw"@ ==> call_ensures(CapabilityToken::check_path_write, (&token, host), checked),
        mount.perms@ != "rw"@ ==> call_ensures(CapabilityToken::check_path_read, (&token, host), checked),
    ensures
        s.preopens@.len() == r.preopens@.len() + if checked is Ok { 1int } else { 0int },
        forall|i: int| 0 <= i < r.preopens@.len() ==> (#[trigger] s.preopens@[i])@ == r.preopens@[i]@,
        s.dropped@.len() == r.dropped@.len() + if checked is Ok { 0int } else { 1int },
        forall|i: int|
            0 <= i < r.dropped@.len() ==> (#[trigger] s.dropped@[i]).0@ == r.dropped@[i].0@ && s.dropped@[i].1@
                == r.dropped@[i].1@,
        checked matches Err(e) ==> s.dropped@.last().0@ == mount.host@ && s.dropped@.last().1@ == e.reason@,
        checked is Ok ==> {
            let shown = s.preopens@.last();
            &&& shown.host@ == mount.host@
            &&& shown.guest@ == mount.guest@
            &&& shown.writable <==> mount.perms@ == "rw"@
            &&& shown.guest_name@.is_suffix_of(mount.guest@)
            &&& shown.guest_name@.len() > 0 ==> shown.guest_name@[0] != '/'
            &&& forall|i: int| 0 <= i < mount.guest@.len() - shown.guest_name@.len() ==> #[trigger] mount.guest@[i] == '/'
        },
{
    trimming_takes_slashes_only(mount.guest@);
    let (was, now) = (views(config.fs@), views(more.fs@));
    assert(now =~= was.push(mount@));
    assert(now.drop_last() =~= was);
    let (p, q) = (views(r.preopens@), views(s.preopens@));
    let (d, e) = (pair_views(r.dropped@), pair_views(s.dropped@));
    assert(p.len() == r.preopens@.len() && q.len() == s.preopens@.len());
    assert(d.len() == r.dropped@.len() && e.len() == s.dropped@.len());
    if checked is Ok {
        assert(q == p.push(preopened(mount@)));
        assert(e == d);
        assert(q[p.len() as int] == s.preopens@.last()@);
    } else {
        assert(q == p);
        assert(e == d.push((mount.host@, checked->Err_0.reason@)));
        assert(e[d.len() as int] == (s.dropped@.last().0@, s.dropped@.last().1@));
    }
    assert forall|i: int| 0 <= i < r.preopens@.len() implies (#[trigger] s.preopens@[i])@ == r.preopens@[i]@ by {
        assert(p[i] == q[i]);
    }
    assert forall|i: int| 0 <= i < r.dropped@.len() implies (#[trigger] s.dropped@[i]).0@ == r.dropped@[i].0@ && s.dropped@[i].1@
        == r.dropped@[i].1@ by {
        assert(d[i] == e[i]);
    }
}

/// One entry more sets one variable more where it is a name, an equals sign and a value, and is
/// ignored where it has no equals sign. The other entries stay as they are.
pub proof fn entries_set_variables(
    config: WasiToolConfig,
    more: WasiToolConfig,
    entry: String,
    name: Seq<char>,
    value: Seq<char>,
    token: CapabilityToken,
    r: Sandbox,
    s: Sandbox,
)
    requires
        call_ensures(WasiToolConfig::sandbox, (&config, &token), r),
        call_ensures(WasiToolConfig::sandbox, (&more, &token), s),
        more.env@ == config.env@.push(entry),
        !name.contains('='),
        entry@ == name + seq!['='] + value || entry@ == name,
    ensures
        forall|i: int| 0 <= i < r.env@.len() ==> (#[trigger] s.env@[i]).0@ == r.env@[i].0@ && s.env@[i].1@ == r.env@[i].1@,
        forall|i: int| 0 <= i < r.ignored_env@.len() ==> (#[trigger] s.ignored_env@[i])@ == r.ignored_env@[i]@,
        entry@ == name + seq!['='] + value ==> {
            &&& s.env@.len() == r.env@.len() + 1
            &&& s.env@.last().0@ == name && s.env@.last().1@ == value
            &&& s.ignored_env@.len() == r.ignored_env@.len()
        },
        entry@ == name ==> {
            &&& s.env@.len() == r.env@.len()
            &&& s.ignored_env@.len() == r.ignored_env@.len() + 1
            &&& s.ignored_env@.last()@ == entry@
        },
{
    texts_are_cut_at_the_first(name, '=', value);
    let (was, now) = (texts(config.env@), texts(more.env@));
    assert(now =~= was.push(entry@));
    assert(now.drop_last() =~= was);
    let (p, q) = (pair_views(r.env@), pair_views(s.env@));
    let (d, e) = (texts(r.ignored_env@), texts(s.ignored_env@));
    assert(p.len() == r.env@.len() && q.len() == s.env@.len());
    assert(d.len() == r.ignored_env@.len() && e.len() == s.ignored_env@.len());
    if entry@ == name {
        assert(q == p);
        assert(e == d.push(entry@));
        assert(e[d.len() as int] == s.ignored_env@.last()@);
        if entry@ == name + seq!['='] + value {
            assert(name.len() == name.len() + 1 + value.len());
        }
    } else {
        assert(q == p.push((name, value)));
        assert(e == d);
        assert(q[p.len() as int] == (s.env@.last().0@, s.env@.last().1@));
    }
    assert forall|i: int| 0 <= i < r.env@.len() implies (#[trigger] s.env@[i]).0@ == r.env@[i].0@ && s.env@[i].1@
        == r.env@[i].1@ by {
        assert(p[i] == q[i]);
    }
    assert forall|i: int| 0 <= i < r.ignored_env@.len() implies (#[trigger] s.ignored_env@[i])@ == r.ignored_env@[i]@ by {
        assert(d[i] == e[i]);
    }
}

// ---- Fuel --------------------------------------------------------------------

/// A module without a limit has all the fuel there is, and any other has its limit.
pub proof fn modules_have_their_fuel(limit: u64, r: u64)
    requires
        call_ensures(module_fuel, (limit,), r),
    ensures
        limit > 0 ==> r == limit,
        limit == 0 ==> r == u64::MAX,
{
}

/// A call takes what the module may use, or what the agent has left where that is less, and what it
/// takes is gone from the agent. An agent without fuel gets none, and one without a limit pays
/// nothing.
pub proof fn fuel_is_taken_from_the_agent(
    remaining: Option<u64>,
    fuel: u64,
    r: Result<(u64, Option<u64>), WasmError>,
)
    requires
        call_ensures(reserve_agent_fuel, (remaining, fuel), r),
    ensures
        r is Err <==> remaining == Some(0u64),
        remaining is None ==> r == Ok::<(u64, Option<u64>), WasmError>((fuel, None)),
        remaining matches Some(n) && n > 0 ==> {
            &&& r->Ok_0.1 is Some
            &&& r->Ok_0.0 + r->Ok_0.1->0 == remaining->0
            &&& r->Ok_0.0 <= fuel
            &&& r->Ok_0.0 == fuel || r->Ok_0.1 == Some(0u64)
        },
        r matches Err(e) ==> (e matches WasmError::FuelExhausted { consumed } && consumed == 0),
{
}

/// What a call consumed and what it leaves over add up to what it reserved.
pub proof fn fuel_adds_up(reserved: u64, left: u64, consumed: u64, refund: u64)
    requires
        left <= reserved,
        call_ensures(fuel_consumed, (reserved, left), consumed),
        call_ensures(fuel_refund, (reserved, consumed), refund),
    ensures
        consumed + left == reserved,
        refund == left,
{
}

/// Nothing more is consumed than was reserved, and nothing is paid back for more than that.
pub proof fn fuel_is_never_made_up(reserved: u64, other: u64, r: u64)
    ensures
        call_ensures(fuel_consumed, (reserved, other), r) ==> r <= reserved && (other >= reserved ==> r == 0),
        call_ensures(fuel_refund, (reserved, other), r) ==> r <= reserved && (other >= reserved ==> r == 0),
{
}

/// After reserving, consuming and paying back, the agent has lost what the call consumed.
pub proof fn agents_pay_what_was_consumed(
    remaining: u64,
    fuel: u64,
    reserved: Result<(u64, Option<u64>), WasmError>,
    consumed: u64,
    r: Option<u64>,
)
    requires
        remaining > 0,
        call_ensures(reserve_agent_fuel, (Some(remaining), fuel), reserved),
        consumed <= reserved->Ok_0.0,
        call_ensures(refund_agent_fuel, (reserved->Ok_0.1, reserved->Ok_0.0, consumed), r),
    ensures
        r == Some((remaining - consumed) as u64),
{
}

/// An agent without a limit is paid nothing back.
pub proof fn unlimited_agents_stay_unlimited(reserved: u64, consumed: u64, r: Option<u64>)
    requires
        call_ensures(refund_agent_fuel, (None::<u64>, reserved, consumed), r),
    ensures
        r is None,
{
}

// ---- Calls -------------------------------------------------------------------

/// A tool that complains of its arguments is reported as such, with what it said; every other
/// failure is a failed execution.
pub proof fn failures_are_reported(e: WasmError, r: ToolError, text: Seq<char>)
    requires
        call_ensures(report, (e,), r),
    ensures
        e matches WasmError::ToolError(said) && said@ == "invalid arguments: "@ + text ==> (r matches ToolError::InvalidArguments(
            told,
        ) && told@ == text),
        e matches WasmError::ToolError(said) && !"invalid arguments:"@.is_prefix_of(said@) ==> (r matches ToolError::ExecutionFailed(
            told,
        ) && told@ == "tool error: "@ + e->ToolError_0@),
        e matches WasmError::Trap(said) ==> (r matches ToolError::ExecutionFailed(told) && told@ == "wasm trap: "@ + said@),
        e matches WasmError::ModuleLoadFailed(said) ==> (r matches ToolError::ExecutionFailed(told) && told@
            == "module load failed: "@ + said@),
        e matches WasmError::InstantiationFailed(said) ==> (r matches ToolError::ExecutionFailed(told) && told@
            == "instantiation failed: "@ + said@),
        e matches WasmError::FuelExhausted { consumed } ==> (r matches ToolError::ExecutionFailed(told) && told@
            == "fuel exhausted after "@ + decimal(consumed as nat) + " units"@),
        e matches WasmError::ToolError(said) && said@ == "invalid arguments:"@ + text && (text.len() == 0 || text[0] != ' ') ==> (
        r matches ToolError::InvalidArguments(told) && told@ == e->ToolError_0@),
        r is InvalidArguments ==> e is ToolError,
{
    reveal_strlit("invalid arguments: ");
    reveal_strlit("invalid arguments:");
    if let WasmError::ToolError(said) = e {
        if said@ == "invalid arguments: "@ + text {
            assert("invalid arguments: "@ =~= said@.subrange(0, "invalid arguments: "@.len() as int));
            assert(said@.skip("invalid arguments: "@.len() as int) =~= text);
        }
        if said@ == "invalid arguments:"@ + text {
            assert("invalid arguments:"@ =~= said@.subrange(0, 18));
            if "invalid arguments: "@.is_prefix_of(said@) {
                assert("invalid arguments: "@ =~= said@.subrange(0, 19));
                assert(said@[18] == "invalid arguments: "@[18]);
            }
        }
        if "invalid arguments: "@.is_prefix_of(said@) {
            assert("invalid arguments:"@ =~= "invalid arguments: "@.subrange(0, 18));
            assert("invalid arguments:"@ =~= said@.subrange(0, 18));
        }
    }
}

/// What a call that returned nothing usable gives: its own error for each way to end.
pub proof fn calls_that_fail_say_how(outcome: CallOutcome, consumed: u64, r: Result<Json, WasmError>)
    requires
        call_ensures(call_result, (outcome, consumed), r),
    ensures
        outcome is OutOfFuel ==> (r matches Err(WasmError::FuelExhausted { consumed: n }) && n == consumed),
        outcome matches CallOutcome::Trapped(text) ==> (r matches Err(WasmError::Trap(told)) && told@ == text@),
        outcome matches CallOutcome::InvalidArguments(text) ==> (r matches Err(WasmError::ToolError(told)) && told@
            == "invalid arguments: "@ + text@),
        outcome matches CallOutcome::ExecutionFailed(text) ==> (r matches Err(WasmError::ToolError(told)) && told@
            == "execution failed: "@ + text@),
        r is Ok ==> outcome is Returned,
{
}

/// A call that returned gives the value of its text, whenever the text is the text of a value.
pub proof fn returned_values_are_handed_on(parse: Result<Json, String>, r: Result<Json, WasmError>, schema: Json)
    ensures
        call_ensures(returned_value, (parse,), r) ==> (r is Ok <==> parse is Ok) && (parse is Ok ==> r->Ok_0@ == parse->Ok_0@)
            && (r matches Err(e) ==> (e matches WasmError::ToolError(told) && told@ == "invalid JSON response from tool: "@
            + parse->Err_0@)),
        call_ensures(schema_or_fallback, (parse,), schema) ==> match parse {
            Ok(value) => schema@ == value@,
            Err(_) => schema@ matches JsonView::Object(m) && m.dom() == set!["type"@] && m["type"@] == JsonView::Text(
                "object"@,
            ),
        },
{
    if call_ensures(schema_or_fallback, (parse,), schema) && parse is Err {
        assert(schema@->Object_0.dom() =~= set!["type"@]);
    }
}

/// A discovered tool keeps its name and its description, and a module that ran out of fuel while it
/// was asked is told apart from one that failed.
pub proof fn discoveries_keep_what_was_said(
    name: &str,
    text: &str,
    schema: &str,
    tool: ToolDefinition,
    out_of_fuel: bool,
    e: WasmError,
)
    ensures
        call_ensures(discovered_tool, (name, text, schema), tool) ==> tool.name@ == name@ && tool.description@ == text@,
        call_ensures(discovery_error, (name, out_of_fuel, text), e) ==> (e matches WasmError::InstantiationFailed(told) && (
        !out_of_fuel ==> told@ == text@) && (out_of_fuel ==> told@ == "module '"@ + name@ + "' exhausted "@ + decimal(1_000_000) + " fuel during list-tools"@)),
        call_ensures(not_loaded, (name,), e) ==> (e matches WasmError::ModuleLoadFailed(told) && told@ == "module '"@ + name@
            + "' not loaded"@),
        call_ensures(preopen_error, (name, text, schema), e) ==> (e matches WasmError::InstantiationFailed(told) && told@
            == "failed to preopen '"@ + name@ + "' -> '"@ + text@ + "': "@ + schema@),
{
}

/// One module more gives a tool more for each of its definitions, in their order and with the
/// settings of the module, and none where it could not be asked. Without modules there are none.
pub proof fn modules_give_their_tools(
    modules: Vec<WasmModule>,
    discovered: Vec<Result<Vec<ToolDefinition>, WasmError>>,
    more: Vec<WasmModule>,
    found: Vec<Result<Vec<ToolDefinition>, WasmError>>,
    module: WasmModule,
    answer: Result<Vec<ToolDefinition>, WasmError>,
    r: Vec<WasmToolSpec>,
    s: Vec<WasmToolSpec>,
)
    requires
        discovered@.len() == modules@.len(),
        more@ == modules@.push(module),
        found@ == discovered@.push(answer),
        call_ensures(create_wasm_tools, (&modules, &discovered), r),
        call_ensures(create_wasm_tools, (&more, &found), s),
    ensures
        modules@.len() == 0 ==> r@.len() == 0,
        forall|i: int| 0 <= i < r@.len() ==> (#[trigger] s@[i])@ == r@[i]@,
        answer is Err ==> s@.len() == r@.len(),
        answer matches Ok(definitions) ==> {
            &&& s@.len() == r@.len() + definitions@.len()
            &&& forall|k: int|
                0 <= k < definitions@.len() ==> {
                    let tool = #[trigger] s@[r@.len() + k];
                    &&& tool.entry == modules@.len()
                    &&& tool.module@ == module.name@
                    &&& tool.definition@ == definitions@[k]@
                    &&& tool.wasi@ == module.wasi@
                    &&& tool.fuel_limit == module.fuel_limit
                }
        },
{
    let (p, q) = (views(r@), views(s@));
    assert(p.len() == r@.len() && q.len() == s@.len());
    assert(more@.drop_last() =~= modules@);
    assert(found@.drop_last() =~= discovered@);
    assert(found@.last() == answer);
    if let Ok(definitions) = answer {
        let tools = module_tools(modules@.len(), module, views(definitions@));
        assert(q == p + tools);
        assert forall|k: int| 0 <= k < definitions@.len() implies {
            let tool = #[trigger] s@[r@.len() + k];
            &&& tool.entry == modules@.len()
            &&& tool.module@ == module.name@
            &&& tool.definition@ == definitions@[k]@
            &&& tool.wasi@ == module.wasi@
            &&& tool.fuel_limit == module.fuel_limit
        } by {
            assert(q[p.len() + k] == tools[k]);
            assert(q[p.len() + k] == s@[r@.len() + k]@);
            assert(views(definitions@)[k] == definitions@[k]@);
        }
    } else {
        assert(q == p);
    }
    assert forall|i: int| 0 <= i < r@.len() implies (#[trigger] s@[i])@ == r@[i]@ by {
        assert(q[i] == p[i]);
    }
}

} // verus!
