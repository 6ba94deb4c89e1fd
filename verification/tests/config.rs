use via_core_ext::clients::da_clients::{client_plan, ClientPlan};
use via_core_ext::config::{
    Config, ConfigError, DaBackend, Environment, DA_AUTH_TOKEN, DA_BACKEND, DA_BLOB_SIZE_LIMIT,
    DA_NODE_URL, DEFAULT_BLOB_SIZE_LIMIT, METRICS_PORT, PORT,
};
use via_core_ext::decimal::to_decimal;

fn text(value: &str) -> Option<String> {
    Some(value.to_string())
}

fn minimal() -> Environment {
    Environment {
        port: text("8080"),
        metrics_port: text("9090"),
        da_backend: None,
        da_node_url: None,
        da_auth_token: None,
        da_blob_size_limit: None,
    }
}

#[test]
fn variable_names() {
    assert_eq!(PORT, "PORT");
    assert_eq!(METRICS_PORT, "METRICS_PORT");
    assert_eq!(DA_BACKEND, "VIA_DA_CLIENT_DA_BACKEND");
    assert_eq!(DA_NODE_URL, "VIA_DA_CLIENT_API_NODE_URL");
    assert_eq!(DA_AUTH_TOKEN, "VIA_DA_CLIENT_AUTH_TOKEN");
    assert_eq!(DA_BLOB_SIZE_LIMIT, "VIA_DA_CLIENT_BLOB_SIZE_LIMIT");
    assert_eq!(DEFAULT_BLOB_SIZE_LIMIT, 1_048_576);
}

#[test]
fn default_backend_is_in_memory() {
    assert_eq!(DaBackend::default(), DaBackend::InMemory);
}

#[test]
fn minimal_environment_gives_the_defaults() {
    let config = Config::from_vars(minimal()).unwrap();
    assert_eq!(config.port, 8080);
    assert_eq!(config.app_address, "0.0.0.0:8080");
    assert_eq!(config.metrics_port, 9090);
    assert_eq!(config.metrics_address, "0.0.0.0:9090");
    assert_eq!(config.da_backend, DaBackend::InMemory);
    assert_eq!(config.da_node_url, None);
    assert_eq!(config.da_auth_token, None);
    assert_eq!(config.da_blob_size_limit, 1024 * 1024);
}

#[test]
fn ports_are_required_and_checked_in_order() {
    let mut env = minimal();
    env.port = None;
    env.metrics_port = None;
    assert_eq!(Config::from_vars(env).unwrap_err(), ConfigError::MissingPort);

    let mut env = minimal();
    env.port = text("http");
    env.metrics_port = None;
    assert_eq!(Config::from_vars(env).unwrap_err(), ConfigError::InvalidPort);

    let mut env = minimal();
    env.metrics_port = None;
    assert_eq!(
        Config::from_vars(env).unwrap_err(),
        ConfigError::MissingMetricsPort
    );

    let mut env = minimal();
    env.metrics_port = text("65536");
    env.da_backend = text("nonsense");
    assert_eq!(
        Config::from_vars(env).unwrap_err(),
        ConfigError::InvalidMetricsPort
    );
}

#[test]
fn port_numbers_are_plain_decimal() {
    for (spelled, port) in [("0", 0u16), ("+80", 80), ("0080", 80), ("65535", 65535)] {
        let mut env = minimal();
        env.port = text(spelled);
        assert_eq!(Config::from_vars(env).unwrap().port, port);
    }
    for spelled in ["", "+", "-1", " 80", "80 ", "8_0", "0x50", "65536", "১২"] {
        let mut env = minimal();
        env.port = text(spelled);
        assert_eq!(Config::from_vars(env).unwrap_err(), ConfigError::InvalidPort);
    }
}

#[test]
fn backend_is_selected_by_name_in_any_case() {
    for name in ["inmemory", "InMemory", "INMEMORY", ""] {
        let mut env = minimal();
        env.da_backend = text(name);
        assert_eq!(
            Config::from_vars(env).unwrap().da_backend,
            DaBackend::InMemory
        );
    }
    for name in ["celestia", "Celestia", "CELESTIA"] {
        let mut env = minimal();
        env.da_backend = text(name);
        env.da_node_url = text("http://node");
        env.da_auth_token = text("token");
        assert_eq!(
            Config::from_vars(env).unwrap().da_backend,
            DaBackend::Celestia
        );
    }
}

#[test]
fn unknown_backend_is_refused_with_its_lowercase_name() {
    let mut env = minimal();
    env.da_backend = text("Avail");
    assert_eq!(
        Config::from_vars(env).unwrap_err(),
        ConfigError::InvalidBackend("avail".to_string())
    );
    let mut env = minimal();
    env.da_backend = text(" inmemory");
    assert_eq!(
        Config::from_vars(env).unwrap_err(),
        ConfigError::InvalidBackend(" inmemory".to_string())
    );
}

#[test]
fn backend_from_name_takes_lowercase_only() {
    assert_eq!(
        DaBackend::from_name("celestia".to_string()),
        Ok(DaBackend::Celestia)
    );
    assert_eq!(
        DaBackend::from_name("inmemory".to_string()),
        Ok(DaBackend::InMemory)
    );
    assert_eq!(DaBackend::from_name(String::new()), Ok(DaBackend::InMemory));
    assert_eq!(
        DaBackend::from_name("Celestia".to_string()),
        Err(ConfigError::InvalidBackend("Celestia".to_string()))
    );
}

#[test]
fn celestia_needs_node_url_then_auth_token() {
    let mut env = minimal();
    env.da_backend = text("celestia");
    assert_eq!(
        Config::from_vars(env).unwrap_err(),
        ConfigError::MissingNodeUrl
    );

    let mut env = minimal();
    env.da_backend = text("celestia");
    env.da_auth_token = text("token");
    assert_eq!(
        Config::from_vars(env).unwrap_err(),
        ConfigError::MissingNodeUrl
    );

    let mut env = minimal();
    env.da_backend = text("celestia");
    env.da_node_url = text("http://node:26658");
    assert_eq!(
        Config::from_vars(env).unwrap_err(),
        ConfigError::MissingAuthToken
    );

    let mut env = minimal();
    env.da_backend = text("celestia");
    env.da_node_url = text("http://node:26658");
    env.da_auth_token = text("SECRET-REDACTED");
    let config = Config::from_vars(env).unwrap();
    assert_eq!(config.da_node_url, text("http://node:26658"));
    assert_eq!(config.da_auth_token, text("SECRET-REDACTED"));
}

#[test]
fn in_memory_keeps_node_url_and_token_if_set() {
    let mut env = minimal();
    env.da_node_url = text("http://node");
    let config = Config::from_vars(env).unwrap();
    assert_eq!(config.da_backend, DaBackend::InMemory);
    assert_eq!(config.da_node_url, text("http://node"));
    assert_eq!(config.da_auth_token, None);
}

#[test]
fn blob_size_limit_falls_back_to_one_megabyte() {
    for (spelled, limit) in [
        ("4096", 4096usize),
        ("0", 0),
        ("+12", 12),
        ("", 1024 * 1024),
        ("4k", 1024 * 1024),
        ("-1", 1024 * 1024),
        ("99999999999999999999999999", 1024 * 1024),
    ] {
        let mut env = minimal();
        env.da_blob_size_limit = text(spelled);
        assert_eq!(Config::from_vars(env).unwrap().da_blob_size_limit, limit);
    }
}

#[test]
fn decimal_of_a_port() {
    for (n, digits) in [
        (0usize, "0"),
        (7, "7"),
        (10, "10"),
        (80, "80"),
        (443, "443"),
        (8080, "8080"),
        (65535, "65535"),
        (1_048_576, "1048576"),
        (4_294_967_295, "4294967295"),
    ] {
        assert_eq!(to_decimal(n), digits);
    }
    assert_eq!(to_decimal(usize::MAX), usize::MAX.to_string());
}

#[test]
fn plan_for_the_in_memory_client() {
    let mut env = minimal();
    env.da_blob_size_limit = text("2048");
    let config = Config::from_vars(env).unwrap();
    match client_plan(config).unwrap() {
        ClientPlan::InMemory { blob_size_limit } => assert_eq!(blob_size_limit, 2048),
        ClientPlan::Celestia { .. } => panic!("the in-memory client was asked for"),
    }
}

#[test]
fn plan_for_the_celestia_client() {
    let mut env = minimal();
    env.da_backend = text("celestia");
    env.da_node_url = text("ws://node");
    env.da_auth_token = text("token");
    let config = Config::from_vars(env).unwrap();
    match client_plan(config.clone()).unwrap() {
        ClientPlan::Celestia {
            node_url,
            auth_token,
            blob_size_limit,
        } => {
            assert_eq!(node_url, "ws://node");
            assert_eq!(auth_token, "token");
            assert_eq!(blob_size_limit, 1024 * 1024);
        }
        ClientPlan::InMemory { .. } => panic!("the Celestia client was asked for"),
    }

    let mut incomplete = config.clone();
    incomplete.da_node_url = None;
    assert_eq!(
        client_plan(incomplete).unwrap_err(),
        ConfigError::MissingNodeUrl
    );
    let mut incomplete = config;
    incomplete.da_auth_token = None;
    assert_eq!(
        client_plan(incomplete).unwrap_err(),
        ConfigError::MissingAuthToken
    );
}

#[test]
fn config_faults_in_words() {
    let cases = [
        (ConfigError::MissingPort, "PORT is required"),
        (ConfigError::InvalidPort, "PORT is not a port number"),
        (ConfigError::MissingMetricsPort, "METRICS_PORT is required"),
        (
            ConfigError::InvalidMetricsPort,
            "METRICS_PORT is not a port number",
        ),
        (
            ConfigError::InvalidBackend("avail".to_string()),
            "Invalid DA_BACKEND value: avail",
        ),
        (
            ConfigError::MissingNodeUrl,
            "DA_NODE_URL is required for Celestia backend",
        ),
        (
            ConfigError::MissingAuthToken,
            "DA_NODE_AUTH_TOKEN is required for Celestia backend",
        ),
    ];
    for (fault, words) in cases {
        assert_eq!(fault.message(), words);
    }
}
