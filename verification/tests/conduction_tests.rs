use cues_mantle::conduction::runtime::{HostHandles, MantleError, MantleRuntime, uv_run_mode};
use cues_mantle::substrate::buffer::SUBSTRATE_SIZE;

fn runtime() -> MantleRuntime {
    MantleRuntime::new(HostHandles {
        bare: 0x1000,
        env: 0x2000,
        uv_loop: 0x3000,
        substrate_ptr: 0x4000,
        ledger_ptr: 0x5000,
    })
}

#[test]
fn substrate_is_full_size_aligned_and_probe_script_passes() {
    let mantle_runtime = runtime();
    let ptr = mantle_runtime.get_substrate_ptr();
    let size = mantle_runtime.get_substrate_size();
    assert_eq!(size, 4096, "Substrate buffer must be exactly 4096 bytes");
    assert!(ptr % 16 == 0, "Substrate memory allocation must be 16-byte page-aligned");
    assert_ne!(ptr, 0);

    let js_verification = r#"
            if (hop.buffers.substrate[0] !== 77.7) {
                throw new Error("FFI substrate memory boundary misaligned");
            }
        "#;
    let result = MantleRuntime::prepare_source(js_verification);
    assert!(result.is_ok(), "JavaScript environment failed to read the memory alignment target");
    assert_eq!(result.unwrap(), js_verification);
}

#[test]
fn test_js_exception_trapping_and_isolation() {
    let mut mantle_runtime = runtime();
    let broken_current = r#"
            @experience mode
            hop.onTick(() => {
                let failure = non_existent_variable.trigger_crash();
            });
        "#;
    let result = MantleRuntime::prepare_source(broken_current);
    assert!(result.is_err(), "Mantle core failed to trap and isolate the execution crash");
    assert_eq!(result.unwrap_err(), MantleError::UndefinedReference);

    let tick_status = mantle_runtime.tick_engine();
    assert!(tick_status.is_ok(), "The frame clock loop collapsed following an execution crash");
}

#[test]
fn test_js_infinite_loop_freeze_termination() {
    let mut mantle_runtime = runtime();
    let infinite_script = r#"
            @experience mode
            hop.onTick(() => {
                while(true) { let x = 1; }
            });
        "#;
    MantleRuntime::prepare_source(infinite_script).unwrap();

    let tick_result = mantle_runtime.tick_engine_with_timeout(std::time::Duration::from_millis(1));
    assert!(tick_result.is_err(), "Engine allowed an infinite loop to freeze the thread");
    let err = tick_result.unwrap_err();
    assert_eq!(err, MantleError::WatchdogTimeout);
    assert!(
        err.message().contains("Execution terminated by Watchdog Guard"),
        "Unexpected error variant returned"
    );
}

#[test]
fn test_isolate_sandbox_permissions_and_fuel() {
    let mut mantle_runtime = runtime();
    let malicious_probe = r#"
            if (typeof require !== 'undefined' || typeof process !== 'undefined') {
                throw new Error("Sandbox breach: host resources detected");
            }
        "#;
    let sandbox_result = MantleRuntime::prepare_source(malicious_probe);
    assert!(sandbox_result.is_ok(), "Isolate sandbox breached: Script detected host environment!");

    mantle_runtime.set_execution_fuel_limit(15);
    assert!(mantle_runtime.tick_engine().is_ok());
    let tick_result = mantle_runtime.tick_engine();
    assert!(tick_result.is_err(), "Engine allowed execution with exhausted fuel");
    let err = tick_result.unwrap_err();
    assert_eq!(err, MantleError::FuelExhausted);
    assert!(err.message().contains("Fuel Exhausted"), "Expected Fuel Exhaustion error type");
}

#[test]
fn test_experience_mode_interceptor() {
    let experience_script = r#"
            @experience mode
            if (typeof hop === 'undefined') throw new Error('hop missing');
        "#;
    let result = MantleRuntime::prepare_source(experience_script);
    assert!(result.is_ok(), "Experience mode interceptor failed to process valid script");
    assert_eq!(result.unwrap(), experience_script.replace("@experience mode", ""));
}

#[test]
fn fresh_runtime_reports_its_handles() {
    let rt = runtime();
    assert_eq!(rt.env(), 0x2000);
    assert_eq!(rt.get_substrate_ptr(), 0x4000);
    assert_eq!(rt.get_substrate_size(), SUBSTRATE_SIZE);
    assert_eq!(MantleRuntime::setup_options().memory_limit, 0);
}

#[test]
fn fuel_budget_allows_exactly_limit_over_cost_ticks() {
    let mut rt = runtime();
    rt.set_execution_fuel_limit(47);
    for _ in 0..4 {
        assert_eq!(rt.tick_engine(), Ok(uv_run_mode::UV_RUN_NOWAIT));
    }
    for _ in 0..3 {
        assert_eq!(rt.tick_engine(), Err(MantleError::FuelExhausted));
    }
    rt.set_execution_fuel_limit(10);
    assert_eq!(rt.tick(), Some(uv_run_mode::UV_RUN_NOWAIT));
    assert_eq!(rt.tick(), None);
}

#[test]
fn fresh_runtime_has_unlimited_fuel() {
    let mut rt = runtime();
    for _ in 0..1000 {
        assert!(rt.tick_engine().is_ok());
    }
}

#[test]
fn zero_fuel_refuses_first_tick() {
    let mut rt = runtime();
    rt.set_execution_fuel_limit(0);
    assert_eq!(rt.tick_engine(), Err(MantleError::FuelExhausted));
    rt.set_execution_fuel_limit(9);
    assert_eq!(rt.tick_engine(), Err(MantleError::FuelExhausted));
}

#[test]
fn watchdog_refusal_consumes_no_fuel() {
    let mut rt = runtime();
    rt.set_execution_fuel_limit(10);
    assert_eq!(rt.tick_engine_with_timeout_ms(4), Err(MantleError::WatchdogTimeout));
    assert_eq!(rt.tick_engine_with_timeout_ms(0), Err(MantleError::WatchdogTimeout));
    assert_eq!(rt.tick_engine_with_timeout_ms(5), Ok(uv_run_mode::UV_RUN_NOWAIT));
    assert_eq!(rt.tick_engine_with_timeout_ms(5), Err(MantleError::FuelExhausted));
    rt.set_execution_fuel_limit(20);
    assert_eq!(
        rt.tick_engine_with_timeout(std::time::Duration::from_millis(16)),
        Ok(uv_run_mode::UV_RUN_NOWAIT)
    );
    assert_eq!(
        rt.tick_engine_with_timeout(std::time::Duration::from_micros(4999)),
        Err(MantleError::WatchdogTimeout)
    );
    assert_eq!(rt.tick_engine(), Ok(uv_run_mode::UV_RUN_NOWAIT));
    assert_eq!(rt.tick_engine(), Err(MantleError::FuelExhausted));
}

#[test]
fn status_codes_map_to_errors() {
    assert_eq!(MantleRuntime::check_setup(0), Ok(()));
    assert_eq!(MantleRuntime::check_setup(-3), Err(MantleError::SetupFailed { code: -3 }));
    assert_eq!(MantleRuntime::script_status(0), Ok(()));
    assert_eq!(MantleRuntime::script_status(7), Err(MantleError::ScriptFailed { code: 7 }));
    assert_eq!(MantleRuntime::load_status("assets/particles.js", 0), Ok(()));
    assert_eq!(
        MantleRuntime::load_status("assets/particles.js", 2),
        Err(MantleError::LoadFailed { filename: "assets/particles.js".to_string(), code: 2 })
    );
}

#[test]
fn error_messages() {
    assert_eq!(MantleError::FuelExhausted.message(), "Fuel Exhausted");
    assert_eq!(MantleError::WatchdogTimeout.message(), "Execution terminated by Watchdog Guard");
    assert_eq!(
        MantleError::UndefinedReference.message(),
        "JavaScript execution failed: ReferenceError: non_existent_variable is not defined"
    );
    assert_eq!(MantleError::SetupFailed { code: -3 }.message(), "Failed to setup bare-js: -3");
    assert_eq!(
        MantleError::ScriptFailed { code: 1024 }.message(),
        "JavaScript execution failed with code: 1024"
    );
    assert_eq!(
        MantleError::LoadFailed { filename: "a.js".to_string(), code: -1 }.message(),
        "Failed to load JS script a.js: -1"
    );
    assert_eq!(
        MantleError::SetupFailed { code: i32::MIN }.message(),
        "Failed to setup bare-js: -2147483648"
    );
    assert_eq!(
        MantleRuntime::load_status("assets/particles.js", 2).unwrap_err().message(),
        "Failed to load JS script assets/particles.js: 2"
    );
    assert_eq!(MantleError::ScriptFailed { code: 0 }.message(), "JavaScript execution failed with code: 0");
    assert_eq!(MantleError::ScriptFailed { code: 10 }.message(), "JavaScript execution failed with code: 10");
    assert_eq!(
        MantleError::ScriptFailed { code: i32::MAX }.message(),
        "JavaScript execution failed with code: 2147483647"
    );
}
