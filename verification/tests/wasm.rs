use simulacra::json::Json;
use simulacra::types::{CapabilityToken, PathPattern, ToolDefinition};
use simulacra::wasm::{
    call_result, create_wasm_tools, discovered_tool, discovery_error, fuel_consumed, fuel_refund, module_fuel,
    not_loaded, preopen_error, refund_agent_fuel, report, reserve_agent_fuel, returned_value, schema_or_fallback,
    CallOutcome, Preopen, WasiMount, WasiToolConfig, WasmError, WasmModule,
};

fn mount(host: &str, perms: &str) -> WasiMount {
    WasiMount {
        host: host.to_string(),
        guest: "/data".to_string(),
        perms: perms.to_string(),
    }
}

fn reading(pattern: &str) -> CapabilityToken {
    CapabilityToken {
        paths_read: vec![PathPattern(pattern.to_string())],
        ..Default::default()
    }
}

fn writing(pattern: &str) -> CapabilityToken {
    CapabilityToken {
        paths_write: vec![PathPattern(pattern.to_string())],
        ..Default::default()
    }
}

#[test]
fn a_read_only_mount_needs_the_right_to_read() {
    let config = WasiToolConfig {
        fs: vec![mount("/srv/data", "ro")],
        env: vec![],
    };
    let sandbox = config.sandbox(&reading("/srv/data/**"));
    assert_eq!(
        sandbox.preopens,
        vec![Preopen {
            host: "/srv/data".to_string(),
            guest: "/data".to_string(),
            guest_name: "data".to_string(),
            writable: false
        }]
    );
    assert!(sandbox.dropped.is_empty());

    let sandbox = config.sandbox(&CapabilityToken::default());
    assert!(sandbox.preopens.is_empty());
    assert_eq!(
        sandbox.dropped,
        vec![("/srv/data".to_string(), "read access denied for /srv/data".to_string())]
    );
}

#[test]
fn a_writable_mount_needs_the_right_to_write() {
    let config = WasiToolConfig {
        fs: vec![mount("/srv/data", "rw")],
        env: vec![],
    };
    assert!(config.sandbox(&writing("/srv/data/**")).preopens[0].writable);
    assert!(config.sandbox(&reading("/srv/data/**")).preopens.is_empty());
}

#[test]
fn wasi_env_only_allowlisted_vars_visible() {
    let config = WasiToolConfig {
        fs: vec![],
        env: vec![
            "SIMULACRA_SANDBOX_TEST_ALLOWED=visible".to_string(),
            "SIMULACRA_SANDBOX_TEST_SECRET".to_string(),
        ],
    };
    let sandbox = config.sandbox(&CapabilityToken::default());
    assert_eq!(
        sandbox.env,
        vec![("SIMULACRA_SANDBOX_TEST_ALLOWED".to_string(), "visible".to_string())]
    );
    assert_eq!(sandbox.ignored_env, vec!["SIMULACRA_SANDBOX_TEST_SECRET".to_string()]);
}

#[test]
fn no_limit_means_all_fuel() {
    assert_eq!(module_fuel(0), u64::MAX);
    assert_eq!(module_fuel(7), 7);
}

#[test]
fn agent_fuel_budget_subtracts_consumed() {
    let (reserved, left) = reserve_agent_fuel(Some(100), 40).unwrap();
    assert_eq!((reserved, left), (40, Some(60)));
    let consumed = fuel_consumed(reserved, 25);
    assert_eq!(consumed, 15);
    assert_eq!(fuel_refund(reserved, consumed), 25);
    assert_eq!(refund_agent_fuel(left, reserved, consumed), Some(85));
}

#[test]
fn agent_fuel_budget_exhausted_fails_without_instantiation() {
    let err = reserve_agent_fuel(Some(0), 40).unwrap_err();
    assert!(err.to_string().to_lowercase().contains("fuel"));
}

#[test]
fn agent_fuel_caps_the_reservation() {
    assert_eq!(reserve_agent_fuel(Some(30), 40).unwrap(), (30, Some(0)));
    assert_eq!(reserve_agent_fuel(None, 40).unwrap(), (40, None));
}

#[test]
fn concurrent_calls_never_use_more_than_there_is() {
    let (first, left) = reserve_agent_fuel(Some(50), 40).unwrap();
    let (second, left) = reserve_agent_fuel(left, 40).unwrap();
    assert_eq!((first, second, left), (40, 10, Some(0)));
    assert!(reserve_agent_fuel(left, 40).is_err());
}

#[test]
fn wasm_tool_fuel_exhaustion_returns_error() {
    let err = call_result(CallOutcome::OutOfFuel, 1).unwrap_err();
    assert_eq!(err, WasmError::FuelExhausted { consumed: 1 });
    assert!(report(err).to_string().to_lowercase().contains("fuel"));
}

#[test]
fn wasm_tool_call_returns_correct_result() {
    let value = call_result(CallOutcome::Returned(r#"{"message":"hello world"}"#.to_string()), 9).unwrap();
    assert_eq!(value.to_string(), r#"{"message":"hello world"}"#);
    assert!(call_result(CallOutcome::Returned("{".to_string()), 9).is_err());
    assert!(returned_value(Err("broken".to_string())).is_err());
    assert!(call_result(CallOutcome::InvalidArguments("a".to_string()), 9).is_err());
    assert!(call_result(CallOutcome::ExecutionFailed("b".to_string()), 9).is_err());
    assert_eq!(
        call_result(CallOutcome::Trapped("c".to_string()), 9).unwrap_err(),
        WasmError::Trap("c".to_string())
    );
}

#[test]
fn a_schema_that_cannot_be_read_is_replaced() {
    let tool = discovered_tool("echo", "Echoes", r#"{"type":"object","required":["message"]}"#);
    assert_eq!(tool.input_schema.to_string(), r#"{"required":["message"],"type":"object"}"#);
    let tool = discovered_tool("echo", "Echoes", "not JSON");
    assert_eq!(tool.input_schema.to_string(), schema_or_fallback(Err(String::new())).to_string());
    assert!(tool.input_schema.is_object());
}

#[test]
fn errors_name_what_went_wrong() {
    assert!(matches!(not_loaded("echo"), WasmError::ModuleLoadFailed(msg) if msg.contains("echo")));
    assert!(discovery_error("echo", true, "trap").to_string().contains("echo"));
    assert!(preopen_error("/srv", "/data", "denied").to_string().contains("denied"));
}

fn module(name: &str, fuel_limit: u64) -> WasmModule {
    WasmModule {
        name: name.to_string(),
        path: format!("/modules/{name}.wasm"),
        fuel_limit,
        wasi: WasiToolConfig::default(),
    }
}

fn definition(name: &str) -> ToolDefinition {
    ToolDefinition {
        name: name.to_string(),
        description: "A tool".to_string(),
        input_schema: Json::parse("{}").unwrap(),
    }
}

#[test]
fn modules_that_cannot_be_loaded_are_passed_over() {
    let modules = vec![module("broken", 1), module("pair", 2)];
    let discovered = vec![
        Err(WasmError::ModuleLoadFailed("gone".to_string())),
        Ok(vec![definition("first"), definition("second")]),
    ];
    let tools = create_wasm_tools(&modules, &discovered);
    assert_eq!(tools.len(), 2);
    assert_eq!(tools[0].definition.name, "first");
    assert_eq!(tools[1].definition.name, "second");
    assert_eq!(tools[1].module, "pair");
    assert_eq!(tools[1].entry, 1);
    assert_eq!(tools[1].fuel_limit, 2);
}

#[test]
fn entries_with_one_name_keep_their_places() {
    let modules = vec![module("same", 1), module("same", 2)];
    let discovered = vec![Ok(vec![definition("first")]), Ok(vec![definition("second")])];
    let tools = create_wasm_tools(&modules, &discovered);
    assert_eq!((tools[0].entry, tools[0].fuel_limit), (0, 1));
    assert_eq!((tools[1].entry, tools[1].fuel_limit), (1, 2));
}
