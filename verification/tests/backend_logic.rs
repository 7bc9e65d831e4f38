use std::time::Duration;
use stdiobus::text::{decimal_string, signed_decimal_string};
use stdiobus::backends::{
    config_file_text, config_mount, connect_failure, container_name, container_start_result,
    docker_not_connected, docker_run_args, docker_stop_args, framed_line, local_address,
    native_client_count, native_create_failure, native_ingest_result, native_send_target,
    native_start_result, native_worker_count, needs_pull, pull_result, pull_step,
    require_config_file, should_retry_connect, startup_timeout_error, temp_config_file_name,
    PullStep,
};
use stdiobus::{
    resolve_backend, state_to_u8, u8_to_state, BackendCore, BackendKind, BackendMode, BackendPlan,
    BusConfig, BusPtr, BusState, Error, PoolConfig,
};

#[test]
fn test_state_conversion() {
    assert_eq!(u8_to_state(0), BusState::Created);
    assert_eq!(u8_to_state(1), BusState::Starting);
    assert_eq!(u8_to_state(2), BusState::Running);
    assert_eq!(u8_to_state(3), BusState::Stopping);
    assert_eq!(u8_to_state(4), BusState::Stopped);
    assert_eq!(u8_to_state(255), BusState::Created);

    assert_eq!(state_to_u8(BusState::Created), 0);
    assert_eq!(state_to_u8(BusState::Starting), 1);
    assert_eq!(state_to_u8(BusState::Running), 2);
    assert_eq!(state_to_u8(BusState::Stopping), 3);
    assert_eq!(state_to_u8(BusState::Stopped), 4);
}

#[test]
fn test_bus_ptr_operations() {
    let mut ptr = BusPtr::new();
    assert!(ptr.get().is_none());

    let fake_ptr: usize = 0x12345678;
    ptr.set(fake_ptr);

    assert!(ptr.get().is_some());
    assert_eq!(ptr.get().unwrap(), 0x12345678);

    let taken = ptr.take();
    assert!(taken.is_some());
    assert!(ptr.get().is_none());
}

#[test]
fn backend_core_lifecycle() {
    let mut core = BackendCore::new();
    assert_eq!(core.state(), BusState::Created);
    assert_eq!(core.stats().messages_in, 0);
    assert!(core.begin_start().is_ok());
    assert_eq!(core.state(), BusState::Starting);
    match core.begin_start() {
        Err(Error::InvalidState { expected, actual }) => {
            assert!(expected.contains("CREATED"));
            assert_eq!(actual, "STARTING");
        }
        other => panic!("unexpected {:?}", other),
    }
    core.finish_start();
    assert_eq!(core.state(), BusState::Running);
    match core.begin_start() {
        Err(Error::InvalidState { expected, actual }) => {
            assert!(expected.contains("CREATED"));
            assert!(actual.contains("RUNNING"));
        }
        other => panic!("unexpected {:?}", other),
    }
    core.record_sent(12);
    core.record_received(30);
    assert_eq!(core.stats().messages_in, 1);
    assert_eq!(core.stats().bytes_in, 12);
    assert_eq!(core.stats().messages_out, 1);
    assert_eq!(core.stats().bytes_out, 30);
    core.begin_stop();
    assert_eq!(core.state(), BusState::Stopping);
    core.finish_stop();
    assert_eq!(core.state(), BusState::Stopped);
    assert!(core.begin_start().is_ok());
}

#[test]
fn backend_core_stop_from_created() {
    let mut core = BackendCore::new();
    core.begin_stop();
    core.finish_stop();
    assert_eq!(core.state(), BusState::Stopped);
}

#[test]
fn backend_core_receiver_single_owner() {
    let mut core = BackendCore::new();
    assert!(core.take_receiver());
    assert!(!core.take_receiver());
    assert!(!core.take_receiver());
}

#[test]
fn resolve_backend_plans() {
    let p = |first, fallback_to_docker| BackendPlan { first, fallback_to_docker };
    assert_eq!(resolve_backend(BackendMode::Auto, false, true, true).unwrap(), p(BackendKind::Native, true));
    assert_eq!(resolve_backend(BackendMode::Auto, true, true, true).unwrap(), p(BackendKind::Docker, false));
    assert_eq!(resolve_backend(BackendMode::Auto, false, false, true).unwrap(), p(BackendKind::Docker, false));
    assert_eq!(resolve_backend(BackendMode::Native, true, true, false).unwrap(), p(BackendKind::Native, false));
    assert_eq!(resolve_backend(BackendMode::Docker, false, true, true).unwrap(), p(BackendKind::Docker, false));
    match resolve_backend(BackendMode::Native, false, false, true) {
        Err(Error::InvalidArgument { message }) => {
            assert_eq!(message, "Native backend not available (compile with 'native' feature)")
        }
        other => panic!("unexpected {:?}", other),
    }
    match resolve_backend(BackendMode::Docker, false, true, false) {
        Err(Error::InvalidArgument { message }) => {
            assert_eq!(message, "Docker backend not available (compile with 'docker' feature)")
        }
        other => panic!("unexpected {:?}", other),
    }
    assert!(resolve_backend(BackendMode::Auto, true, true, false).is_err());
}

#[test]
fn docker_config_file_and_checks() {
    assert_eq!(temp_config_file_name(4242), "stdiobus-4242.json");
    let cfg = BusConfig {
        pools: vec![PoolConfig { id: "p".into(), command: "c".into(), args: vec![], instances: 1 }],
        limits: None,
    };
    assert_eq!(config_file_text(&cfg).unwrap(), cfg.to_json().unwrap());
    assert!(require_config_file("/x.json", true).is_ok());
    match require_config_file("/nonexistent/path.json", false) {
        Err(Error::InvalidArgument { message }) => {
            assert!(message.contains("not found"));
            assert_eq!(message, "Config file not found: /nonexistent/path.json");
        }
        other => panic!("unexpected {:?}", other),
    }
}

#[test]
fn docker_pull_decisions() {
    assert_eq!(pull_step("never"), PullStep::Skip);
    assert_eq!(pull_step("if-missing"), PullStep::InspectFirst);
    assert_eq!(pull_step("always"), PullStep::Pull);
    assert_eq!(pull_step("whatever"), PullStep::Pull);
    assert!(needs_pull(false));
    assert!(!needs_pull(true));
    assert!(pull_result(true, "img").is_ok());
    match pull_result(false, "img:1") {
        Err(Error::TransportError { message }) => assert_eq!(message, "Failed to pull image: img:1"),
        other => panic!("unexpected {:?}", other),
    }
}

#[test]
fn docker_run_arguments() {
    let env = vec![("DEBUG".to_string(), "1".to_string()), ("A".to_string(), "b=c".to_string())];
    let extra = vec!["--memory=512m".to_string()];
    let name = container_name("stdiobus", "abc");
    assert_eq!(name, "stdiobus-abc");
    let mount = config_mount("/tmp/c.json");
    assert_eq!(mount, "/tmp/c.json:/config.json:ro");
    let args = docker_run_args(&name, &mount, 40123, &env, &extra, "stdiobus/stdiobus:node20");
    let expected: Vec<&str> = vec![
        "run", "-d", "--rm", "--name", "stdiobus-abc", "-v", "/tmp/c.json:/config.json:ro", "-p",
        "127.0.0.1:40123:8080", "-e", "DEBUG=1", "-e", "A=b=c", "--memory=512m",
        "stdiobus/stdiobus:node20", "--config", "/config.json", "--tcp", "0.0.0.0:8080",
    ];
    assert_eq!(args, expected);
    let plain = docker_run_args("n", "m", 1, &vec![], &vec![], "i");
    assert_eq!(plain.len(), 14);
    assert_eq!(docker_stop_args(30, "cid"), vec!["stop", "-t", "30", "cid"]);
    let fresh = stdiobus::backends::fresh_container_name("bus");
    assert!(fresh.starts_with("bus-"));
    assert_eq!(fresh.len(), 4 + 36);
}

#[test]
fn docker_connection_decisions() {
    assert_eq!(local_address(8080), "127.0.0.1:8080");
    assert!(should_retry_connect(0));
    assert!(should_retry_connect(29));
    assert!(!should_retry_connect(30));
    match connect_failure("127.0.0.1:1", "refused") {
        Error::TransportError { message } => assert_eq!(message, "Failed to connect to 127.0.0.1:1: refused"),
        other => panic!("unexpected {:?}", other),
    }
    match startup_timeout_error(Duration::from_secs(15)) {
        Error::Timeout { timeout_ms } => assert_eq!(timeout_ms, 15000),
        other => panic!("unexpected {:?}", other),
    }
    match container_start_result(false, "no such image") {
        Err(Error::TransportError { message }) => assert_eq!(message, "Failed to start container: no such image"),
        other => panic!("unexpected {:?}", other),
    }
    assert!(container_start_result(true, "").is_ok());
    match docker_not_connected() {
        Error::InvalidState { expected, actual } => {
            assert_eq!(expected, "RUNNING with active connection");
            assert_eq!(actual, "no connection");
        }
        other => panic!("unexpected {:?}", other),
    }
    assert_eq!(framed_line("{\"a\":1}"), "{\"a\":1}\n");
}

#[test]
fn native_decisions() {
    assert!(native_start_result(0).is_ok());
    match native_start_result(-10) {
        Err(Error::InternalError { message }) => assert_eq!(message, "Failed to start bus: error code -10"),
        other => panic!("unexpected {:?}", other),
    }
    assert!(native_ingest_result(0).is_ok());
    match native_ingest_result(-4) {
        Err(Error::TransportError { message }) => assert_eq!(message, "Failed to send message: error code -4"),
        other => panic!("unexpected {:?}", other),
    }
    match native_create_failure() {
        Error::InternalError { message } => assert_eq!(message, "Failed to create bus"),
        other => panic!("unexpected {:?}", other),
    }
    let mut ptr = BusPtr::new();
    match native_send_target(&ptr) {
        Err(Error::InvalidState { expected, actual }) => {
            assert_eq!(expected, "RUNNING");
            assert_eq!(actual, "not initialized");
        }
        other => panic!("unexpected {:?}", other),
    }
    ptr.set(77);
    assert_eq!(native_send_target(&ptr).unwrap(), 77);
    assert_eq!(native_worker_count(None), -1);
    assert_eq!(native_worker_count(Some(2)), 2);
    assert_eq!(native_client_count(None), 0);
    assert_eq!(native_client_count(Some(3)), 3);
}

#[test]
fn decimal_rendering() {
    assert_eq!(decimal_string(0), "0");
    assert_eq!(decimal_string(7), "7");
    assert_eq!(decimal_string(10), "10");
    assert_eq!(decimal_string(u128::MAX), u128::MAX.to_string());
    assert_eq!(signed_decimal_string(-32600), "-32600");
    assert_eq!(signed_decimal_string(i64::MIN), i64::MIN.to_string());
    assert_eq!(signed_decimal_string(i64::MAX), i64::MAX.to_string());
    assert_eq!(stdiobus::text::concat_strings(&vec!["a".into(), "".into(), "bc".into()]), "abc");
}

#[test]
fn container_id_is_trimmed_output() {
    assert_eq!(stdiobus::backends::container_id("abc123\n"), "abc123");
    assert_eq!(stdiobus::backends::container_id("  \t3f2e \r\n"), "3f2e");
    assert_eq!(stdiobus::backends::container_id(" \n"), "");
    for s in ["\u{a0}x\u{3000}", "\u{85}a b\u{2029}", "x\u{200b}"] {
        assert_eq!(stdiobus::backends::container_id(s), s.trim());
    }
}

#[test]
fn incoming_lines() {
    assert_eq!(stdiobus::backends::incoming_line("{\"a\":1}\n").as_deref(), Some("{\"a\":1}"));
    assert_eq!(stdiobus::backends::incoming_line(" \r\n"), None);
    assert_eq!(stdiobus::backends::incoming_line(""), None);
}

#[test]
fn native_config_texts_without_nul() {
    assert!(stdiobus::backends::native_config_path_check("./config.json").is_ok());
    match stdiobus::backends::native_config_path_check("a\0b") {
        Err(stdiobus::Error::InvalidArgument { message }) => assert_eq!(message, "Invalid config path"),
        _ => panic!(),
    }
    assert!(stdiobus::backends::native_config_json_check("{}").is_ok());
    match stdiobus::backends::native_config_json_check("{\"a\":\"\0\"}") {
        Err(stdiobus::Error::InvalidArgument { message }) => assert_eq!(message, "Invalid config JSON"),
        _ => panic!(),
    }
}
