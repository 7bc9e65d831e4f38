// Code blocks of the README, run as written where the library can run them.
use std::time::Duration;
use stdiobus::{BusConfig, LimitsConfig, PoolConfig, RequestOptions, StdioBus};

#[test]
fn readme_section_configuration() {

    let config = BusConfig {
        pools: vec![PoolConfig {
            id: "worker".into(),
            command: "/path/to/worker-binary".into(),
            args: vec![],
            instances: 4,
        }],
        limits: Some(LimitsConfig { max_input_buffer: Some(2097152), max_restarts: Some(10), ..Default::default() }),
    };

    assert_eq!(config.pools[0].id, "worker");
    assert_eq!(config.pools[0].instances, 4);
    assert_eq!(config.limits.as_ref().unwrap().max_input_buffer, Some(2097152));
    assert!(config.validate().is_ok());
}

#[test]
fn readme_section_config_path() {

    let bus = StdioBus::builder().config_path("./config.json").build();

    let _ = bus;
}

#[test]
fn readme_section_request_options() {

    let options = RequestOptions::with_timeout(Duration::from_secs(60))
        .session_id("my-session")
        .idempotency_key("unique-key")
        .require_extension("identity");

    assert_eq!(options.timeout, Some(Duration::from_secs(60)));
    assert_eq!(options.session_id.as_deref(), Some("my-session"));
    assert_eq!(options.idempotency_key.as_deref(), Some("unique-key"));
    assert_eq!(options.required_extensions, vec!["identity"]);
}

#[test]
fn readme_examples_readme_section_quick_start() {
    // The quick start runs workers through the native library, which this
    // test run does not link.
    println!("Skipping: requires --features native");
}

#[test]
fn readme_section_backend_auto() {

    let bus = StdioBus::builder()
        .config(BusConfig {
            pools: vec![PoolConfig { id: "w".into(), command: "/path/to/worker".into(), args: vec![], instances: 2 }],
            limits: None,
        })
        .backend_auto()
        .build();

    let _ = bus;
}

#[test]
fn readme_section_backend_native() {

    let bus = StdioBus::builder()
        .config(BusConfig {
            pools: vec![PoolConfig { id: "w".into(), command: "/path/to/worker".into(), args: vec![], instances: 2 }],
            limits: None,
        })
        .backend_native()
        .build();

    let _ = bus;
}

#[test]
fn readme_section_backend_docker() {

    let bus = StdioBus::builder()
        .config(BusConfig {
            pools: vec![PoolConfig { id: "w".into(), command: "/path/to/worker".into(), args: vec![], instances: 2 }],
            limits: None,
        })
        .backend_docker()
        .docker_image("stdiobus/stdiobus:node")
        .build();

    let _ = bus;
}

#[test]
fn readme_section_real_world_usage_compiles() {

    let bus = StdioBus::builder()
        .config(BusConfig {
            pools: vec![PoolConfig {
                id: "acp-worker".into(),
                command: "/path/to/acp-worker".into(),
                args: vec![],
                instances: 1,
            }],
            limits: None,
        })
        .backend_native()
        .timeout(Duration::from_secs(60))
        .build();

    let _ = bus;

    let opts = RequestOptions::default().agent_id("my-agent");
    assert_eq!(opts.agent_id.as_deref(), Some("my-agent"));

    let opts2 = RequestOptions::with_timeout(Duration::from_secs(60)).agent_id("my-agent").session_id("sess-123");
    assert_eq!(opts2.timeout, Some(Duration::from_secs(60)));
    assert_eq!(opts2.agent_id.as_deref(), Some("my-agent"));
    assert_eq!(opts2.session_id.as_deref(), Some("sess-123"));
}
