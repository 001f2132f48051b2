use zephir::config::ZephirConfig;
use zephir::engine::{
    graceful_shutdown_message, i32_to_decimal, lua_finish_message, lua_print_line,
    lua_start_message, native_exit_result, native_stderr_line, native_stdout_line, wasm_finish_message,
    wasm_fuel, wasm_start_message, ZephirEngine, ZephirInvokationError,
};

fn engine() -> ZephirEngine {
    ZephirEngine::new(ZephirConfig::sane_defaults())
}

#[test]
fn unpack_plan_derives_every_path_from_the_config() {
    let e = engine();
    let plan = e.unpack_plan(false, false, 1700000000);
    assert_eq!(plan.cache_root, "zephir-cache/");
    assert_eq!(plan.sandbox_root, "zephir-sandbox/");
    assert_eq!(plan.artifact_cache, "zephir-cache/artifact-cache");
    assert_eq!(plan.sandbox_path, "zephir-sandbox/1700000000");
    assert_eq!(plan.bundle_path, "function.zephir");
    assert!(plan.populate_cache);
    assert!(!plan.extract_direct);
}

#[test]
fn prepopulated_cache_is_left_alone_and_copied() {
    let e = engine();
    let plan = e.unpack_plan(false, true, 7);
    assert!(!plan.populate_cache);
    assert!(!plan.extract_direct);
}

#[test]
fn no_cache_extracts_straight_into_the_sandbox() {
    let e = engine();
    let plan = e.unpack_plan(true, false, 7);
    assert!(!plan.populate_cache);
    assert!(plan.extract_direct);
    let plan = e.unpack_plan(true, true, 7);
    assert!(!plan.populate_cache);
    assert!(plan.extract_direct);
}

#[test]
fn sequential_invocations_use_distinct_sandboxes() {
    let e = engine();
    let first = e.unpack_plan(false, true, 1700000000);
    let second = e.unpack_plan(false, true, 1700000001);
    assert_ne!(first.sandbox_path, second.sandbox_path);
}

#[test]
fn zero_cpu_limit_disables_fuel_metering() {
    assert_eq!(wasm_fuel(0), None);
}

#[test]
fn fuel_is_a_million_units_per_cpu_second() {
    assert_eq!(wasm_fuel(10), Some(10_000_000));
    assert_eq!(wasm_fuel(1), Some(1_000_000));
}

#[test]
fn zero_exit_status_succeeds() {
    assert!(native_exit_result(0).is_ok());
}

#[test]
fn nonzero_exit_status_fails_naming_the_status() {
    match native_exit_result(7) {
        Err(ZephirInvokationError::Other { message }) => {
            assert_eq!(message, "Native process exited with 7");
            assert!(message.contains('7'));
        },
        other => panic!("expected an Other error, got {:?}", other),
    }
    match native_exit_result(-3) {
        Err(ZephirInvokationError::Other { message }) => {
            assert_eq!(message, "Native process exited with -3");
        },
        other => panic!("expected an Other error, got {:?}", other),
    }
}

#[test]
fn signed_decimal_rendering_is_exact() {
    assert_eq!(i32_to_decimal(0), "0");
    assert_eq!(i32_to_decimal(7), "7");
    assert_eq!(i32_to_decimal(-5), "-5");
    assert_eq!(i32_to_decimal(i32::MIN), "-2147483648");
}

#[test]
fn log_lines_carry_the_function_name() {
    assert_eq!(native_stdout_line("fn1", "hello"), "[fn1_info] hello");
    assert_eq!(native_stderr_line("fn1", "oops"), "[fn1_error] oops");
    assert_eq!(wasm_start_message("fn1"), "[fn1] Starting WASM module");
    assert_eq!(wasm_finish_message("fn1"), "[fn1] WASM module finished");
    assert_eq!(lua_start_message("fn1"), "[fn1] Starting Lua script");
    assert_eq!(lua_finish_message("fn1"), "[fn1] Lua script finished");
    assert_eq!(lua_print_line("hi"), "[Lua] hi");
    assert_eq!(graceful_shutdown_message(), "Graceful shutdown requested. Cleaning up...");
}

#[test]
fn script_path_resolves_inside_the_sandbox() {
    let mut c = ZephirConfig::sane_defaults();
    c.function.app.entry = "main.lua".to_string();
    let e = ZephirEngine::new(c);
    assert_eq!(e.script_path("zephir-sandbox/9"), "zephir-sandbox/9/main.lua");
}

#[test]
fn error_messages_carry_their_kind() {
    let e = ZephirInvokationError::Io { message: "gone".to_string() };
    assert_eq!(e.message(), "IO error: gone");
    let e = ZephirInvokationError::Wasm { message: "trap".to_string() };
    assert_eq!(e.message(), "WASM execution error: trap");
    let e = ZephirInvokationError::Lua { message: "bad".to_string() };
    assert_eq!(e.message(), "Lua execution error: bad");
    let e = ZephirInvokationError::Other { message: "odd".to_string() };
    assert_eq!(e.message(), "Other error: odd");
}
