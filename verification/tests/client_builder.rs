use std::time::Duration;
use stdiobus::json::parse_json;
use stdiobus::{
    BackendMode, BusConfig, ConfigSource, DockerOptions, Error, LimitsConfig, PoolConfig,
    StdioBus, StdioBusBuilder,
};

#[test]
fn test_builder_default() {
    let builder = StdioBusBuilder::new();
    assert!(builder.clone().build().is_err()); // No config path
}

#[test]
fn test_builder_config_path_required() {
    let result = StdioBusBuilder::new().build();

    assert!(result.is_err());
    if let Err(Error::InvalidArgument { message }) = result {
        assert!(message.contains("config_path"));
    } else {
        panic!("Expected InvalidArgument error");
    }
}

#[test]
fn test_builder_with_config_path() {
    let builder = StdioBusBuilder::new().config_path("./config.json");
    let result = builder.build();
    assert!(result.is_ok() || result.is_err());
}

#[test]
fn test_builder_backend_modes() {
    let builder = StdioBusBuilder::new().config_path("./config.json").backend_auto();
    let _ = builder.build();

    let builder = StdioBusBuilder::new().config_path("./config.json").backend_docker();
    let _ = builder.build();

    let builder = StdioBusBuilder::new().config_path("./config.json").backend_native();
    let _ = builder.build();
}

#[test]
fn test_builder_backend_enum() {
    let builder = StdioBusBuilder::new().config_path("./config.json").backend(BackendMode::Docker);
    let _ = builder.build();
}

#[test]
fn test_builder_timeout() {
    let builder = StdioBusBuilder::new().config_path("./config.json").timeout(Duration::from_secs(60));
    let _ = builder.build();
}

#[test]
fn test_builder_docker_options() {
    let opts = DockerOptions { image: "custom:latest".to_string(), ..Default::default() };

    let builder = StdioBusBuilder::new().config_path("./config.json").backend_docker().docker_options(opts);
    let _ = builder.build();
}

#[test]
fn test_builder_docker_image() {
    let builder = StdioBusBuilder::new().config_path("./config.json").backend_docker().docker_image("my-image:v1");
    let _ = builder.build();
}

#[test]
fn test_builder_chain() {
    let builder = StdioBusBuilder::new()
        .config_path("./config.json")
        .backend_docker()
        .timeout(Duration::from_secs(120))
        .docker_image("stdiobus/stdiobus:latest");

    let _ = builder.build();
}

#[test]
fn test_builder_clone() {
    let builder1 = StdioBusBuilder::new().config_path("./config.json").timeout(Duration::from_secs(30));

    let builder2 = builder1.clone();

    let _ = builder1.build();
    let _ = builder2.build();
}

#[test]
fn test_builder_debug() {
    let builder = StdioBusBuilder::new().config_path("./config.json");

    let debug = format!("{:?}", builder);
    assert!(debug.contains("config.json"));
}

#[test]
fn test_stdiobus_builder_method() {
    let builder = StdioBus::builder();
    let _ = builder.config_path("./config.json");
}

#[test]
fn test_builder_config_object() {
    let builder = StdioBusBuilder::new().config(BusConfig {
        pools: vec![PoolConfig { id: "echo".into(), command: "/bin/cat".into(), args: vec![], instances: 1 }],
        limits: None,
    });

    let result = builder.build();
    assert!(result.is_ok() || result.is_err());
}

#[test]
fn test_builder_config_with_limits() {
    let builder = StdioBusBuilder::new().config(BusConfig {
        pools: vec![PoolConfig {
            id: "worker".into(),
            command: "node".into(),
            args: vec!["worker.js".into()],
            instances: 4,
        }],
        limits: Some(LimitsConfig { max_input_buffer: Some(2097152), max_restarts: Some(10), ..Default::default() }),
    });

    let _ = builder.build();
}

#[test]
fn test_builder_no_config_source_fails() {
    let result = StdioBusBuilder::new().build();
    assert!(result.is_err());
    if let Err(Error::InvalidArgument { message }) = result {
        assert!(message.contains("config"));
    }
}

#[test]
fn test_builder_empty_pools_fails() {
    let result = StdioBusBuilder::new().config(BusConfig { pools: vec![], limits: None }).build();

    assert!(result.is_err());
    if let Err(Error::InvalidArgument { message }) = result {
        assert!(message.contains("pool"));
    }
}

#[test]
fn test_builder_zero_instances_fails() {
    let result = StdioBusBuilder::new()
        .config(BusConfig {
            pools: vec![PoolConfig { id: "bad".into(), command: "/bin/echo".into(), args: vec![], instances: 0 }],
            limits: None,
        })
        .build();

    assert!(result.is_err());
    if let Err(Error::InvalidArgument { message }) = result {
        assert!(message.contains("instances"));
    }
}

#[test]
fn test_builder_missing_pool_id_fails() {
    let result = StdioBusBuilder::new()
        .config(BusConfig {
            pools: vec![PoolConfig { id: "".into(), command: "/bin/echo".into(), args: vec![], instances: 1 }],
            limits: None,
        })
        .build();

    assert!(result.is_err());
    if let Err(Error::InvalidArgument { message }) = result {
        assert!(message.contains("id"));
    }
}

#[test]
fn test_bus_config_to_json() {
    let config = BusConfig {
        pools: vec![PoolConfig {
            id: "test".into(),
            command: "node".into(),
            args: vec!["worker.js".into()],
            instances: 2,
        }],
        limits: None,
    };

    let json = config.to_json().unwrap();
    assert!(json.contains("\"id\":\"test\""));
    assert!(json.contains("\"command\":\"node\""));
    assert!(json.contains("\"instances\":2"));
}

#[test]
fn test_bus_config_roundtrip() {
    let config = BusConfig {
        pools: vec![PoolConfig {
            id: "w1".into(),
            command: "/bin/cat".into(),
            args: vec!["--flag".into()],
            instances: 3,
        }],
        limits: Some(LimitsConfig { max_input_buffer: Some(999), max_restarts: Some(7), ..Default::default() }),
    };

    let json = config.to_json().unwrap();
    let parsed = BusConfig::from_value(&parse_json(&json).unwrap()).unwrap();

    assert_eq!(parsed.pools.len(), 1);
    assert_eq!(parsed.pools[0].id, "w1");
    assert_eq!(parsed.pools[0].instances, 3);
    assert_eq!(parsed.limits.as_ref().unwrap().max_input_buffer, Some(999));
    assert_eq!(parsed.limits.as_ref().unwrap().max_restarts, Some(7));
    assert_eq!(parsed.limits.as_ref().unwrap().drain_timeout_sec, None);
}

#[test]
fn bus_config_json_exact_text() {
    let config = BusConfig {
        pools: vec![
            PoolConfig { id: "a".into(), command: "say \"hi\"".into(), args: vec![], instances: 1 },
            PoolConfig { id: "b".into(), command: "node".into(), args: vec!["x.js".into(), "--v".into()], instances: 12 },
        ],
        limits: Some(LimitsConfig { max_restarts: Some(3), drain_timeout_sec: Some(5), ..Default::default() }),
    };
    assert_eq!(
        config.to_json().unwrap(),
        "{\"pools\":[{\"id\":\"a\",\"command\":\"say \\\"hi\\\"\",\"args\":[],\"instances\":1},\
         {\"id\":\"b\",\"command\":\"node\",\"args\":[\"x.js\",\"--v\"],\"instances\":12}],\
         \"limits\":{\"max_restarts\":3,\"drain_timeout_sec\":5}}"
    );
    let empty_limits = BusConfig {
        pools: vec![PoolConfig { id: "a".into(), command: "c".into(), args: vec![], instances: 1 }],
        limits: Some(LimitsConfig::default()),
    };
    assert_eq!(
        empty_limits.to_json().unwrap(),
        "{\"pools\":[{\"id\":\"a\",\"command\":\"c\",\"args\":[],\"instances\":1}],\"limits\":{}}"
    );
}

#[test]
fn bus_config_validate_messages() {
    let empty = BusConfig { pools: vec![], limits: None };
    match empty.validate() {
        Err(Error::InvalidArgument { message }) => assert_eq!(message, "at least one pool must be configured"),
        other => panic!("unexpected {:?}", other),
    }
    let two_bad = BusConfig {
        pools: vec![
            PoolConfig { id: "ok".into(), command: "c".into(), args: vec![], instances: 1 },
            PoolConfig { id: "zero".into(), command: "c".into(), args: vec![], instances: 0 },
            PoolConfig { id: "".into(), command: "c".into(), args: vec![], instances: 1 },
        ],
        limits: None,
    };
    match two_bad.validate() {
        Err(Error::InvalidArgument { message }) => assert_eq!(message, "pool 'zero': instances must be at least 1"),
        other => panic!("unexpected {:?}", other),
    }
    let no_id = BusConfig {
        pools: vec![PoolConfig { id: "".into(), command: "c".into(), args: vec![], instances: 0 }],
        limits: None,
    };
    match no_id.validate() {
        Err(Error::InvalidArgument { message }) => assert_eq!(message, "pool id must not be empty"),
        other => panic!("unexpected {:?}", other),
    }
}

#[test]
fn builder_build_plan_carries_settings() {
    let plan = StdioBusBuilder::new()
        .config_path("/etc/bus.json")
        .backend_native()
        .timeout(Duration::from_secs(60))
        .docker_pull_policy("never")
        .build()
        .unwrap();
    match plan.config_source {
        ConfigSource::Path(p) => assert_eq!(p, "/etc/bus.json"),
        other => panic!("unexpected {:?}", other),
    }
    assert_eq!(plan.backend, BackendMode::Native);
    assert_eq!(plan.timeout, Duration::from_secs(60));
    let docker = plan.docker_options.unwrap();
    assert_eq!(docker.pull_policy, "never");
    assert_eq!(docker.image, "stdiobus/stdiobus:node20");

    let plan = StdioBusBuilder::new().config_path("x.json").build().unwrap();
    assert_eq!(plan.timeout, Duration::from_secs(30));
    assert_eq!(plan.backend, BackendMode::Auto);
    assert!(plan.docker_options.is_none());

    // `.config()` and `.config_path()` replace each other.
    let plan = StdioBusBuilder::new()
        .config_path("x.json")
        .config(BusConfig {
            pools: vec![PoolConfig { id: "p".into(), command: "c".into(), args: vec![], instances: 1 }],
            limits: None,
        })
        .build()
        .unwrap();
    assert!(matches!(plan.config_source, ConfigSource::Config(_)));
}

#[test]
fn bus_config_reading() {
    let read = |t: &str| BusConfig::from_value(&parse_json(t).unwrap());
    let c = read(r#"{"pools":[{"id":"a","command":"node","args":["x.js","--v"],"instances":2,"extra":1}],"limits":null}"#).unwrap();
    assert_eq!(c.pools.len(), 1);
    assert_eq!(c.pools[0].id, "a");
    assert_eq!(c.pools[0].command, "node");
    assert_eq!(c.pools[0].args, vec!["x.js".to_string(), "--v".to_string()]);
    assert_eq!(c.pools[0].instances, 2);
    assert!(c.limits.is_none());
    let c = read(r#"{"pools":[],"limits":{"max_output_queue":18446744073709551615}}"#).unwrap();
    assert!(c.pools.is_empty());
    assert_eq!(c.limits.unwrap().max_output_queue, Some(u64::MAX));
    assert!(read(r#"{"pools":[{"id":"a","command":"c","args":[],"instances":4294967296}]}"#).is_none());
    assert!(read(r#"{"pools":[{"id":"a","command":"c","args":[1],"instances":1}]}"#).is_none());
    assert!(read(r#"{"pools":[{"id":"a","command":"c","instances":1}]}"#).is_none());
    assert!(read(r#"{"pools":[{"id":"a","command":"c","args":[],"instances":-1}]}"#).is_none());
    assert!(read(r#"{"pools":[],"limits":{"max_restarts":1.5}}"#).is_none());
    assert!(read(r#"{"limits":{}}"#).is_none());
    assert!(read("[]").is_none());
}

#[test]
fn bus_config_reads_back_what_it_renders() {
    let config = BusConfig {
        pools: vec![
            PoolConfig { id: "p\"1".into(), command: "/bin/sh".into(), args: vec!["-c".into(), "echo\n".into()], instances: 4294967295 },
        ],
        limits: Some(LimitsConfig { backpressure_timeout_sec: Some(0), ..Default::default() }),
    };
    let back = BusConfig::from_value(&parse_json(&config.to_json().unwrap()).unwrap()).unwrap();
    assert_eq!(back.pools[0].id, config.pools[0].id);
    assert_eq!(back.pools[0].args, config.pools[0].args);
    assert_eq!(back.pools[0].instances, 4294967295);
    assert_eq!(back.limits.unwrap().backpressure_timeout_sec, Some(0));
}
