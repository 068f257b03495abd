use tagoio_mqtt_relay::schema::{
    config_file_in, get_relay_list, resolve_config_path, ConfigError, ConfigFile, Mqtt, RelayConfig,
};

fn sample_config(subscribe: Vec<String>) -> ConfigFile {
    ConfigFile {
        network_token: "network_token".to_string(),
        authorization_token: "authorization_token".to_string(),
        tagoio_url: None,
        downlink_port: None,
        mqtt: Mqtt {
            client_id: None,
            tls_enabled: false,
            address: "localhost".to_string(),
            port: 1883,
            subscribe,
            username: None,
            password: None,
            broker_tls_ca: None,
            broker_tls_cert: None,
            broker_tls_key: None,
        },
    }
}

#[test]
fn test_relay_config_new_with_defaults() {
    let config = sample_config(vec![]);

    let relay_config = RelayConfig::new_with_defaults(None, config).unwrap();

    assert_eq!(relay_config.id, "self-hosted");
    assert_eq!(relay_config.profile_id.unwrap(), "self-hosted");
    assert_eq!(relay_config.config.tagoio_url.unwrap(), "https://api.tago.io");
    assert_eq!(relay_config.config.downlink_port.unwrap(), 3000);
    assert_eq!(relay_config.config.mqtt.client_id.unwrap(), "tagoio-relay");
}

#[test]
fn test_config_file_with_defaults() {
    let config = sample_config(vec![]);

    let config_with_defaults = config.with_defaults().unwrap();

    assert_eq!(config_with_defaults.tagoio_url.unwrap(), "https://api.tago.io");
    assert_eq!(config_with_defaults.downlink_port.unwrap(), 3000);
    assert_eq!(config_with_defaults.mqtt.client_id.unwrap(), "tagoio-relay");
}

#[test]
fn test_mqtt_with_defaults() {
    let mqtt = Mqtt {
        client_id: None,
        tls_enabled: false,
        address: "localhost".to_string(),
        port: 1883,
        subscribe: vec!["/tago/#".to_string(), "/device/+".to_string()],
        username: None,
        password: None,
        broker_tls_ca: None,
        broker_tls_cert: None,
        broker_tls_key: None,
    };

    let mqtt_with_defaults = mqtt.with_defaults().unwrap();

    assert_eq!(mqtt_with_defaults.client_id.unwrap(), "tagoio-relay");
}

#[test]
fn defaults_keep_configured_values() {
    let mut config = sample_config(vec!["a/b".to_string()]);
    config.tagoio_url = Some("https://mock".to_string());
    config.downlink_port = Some(8443);
    config.mqtt.client_id = Some("mine".to_string());
    let relay = RelayConfig::new_with_defaults(Some("profile".to_string()), config).unwrap();
    assert_eq!(relay.id, "self-hosted");
    assert_eq!(relay.profile_id.unwrap(), "profile");
    assert_eq!(relay.config.tagoio_url.unwrap(), "https://mock");
    assert_eq!(relay.config.downlink_port, Some(8443));
    assert_eq!(relay.config.mqtt.client_id.unwrap(), "mine");
    assert_eq!(relay.config.mqtt.subscribe, vec!["a/b".to_string()]);
    assert!(relay.network_id.is_none());
}

#[test]
fn validate_reports_each_broken_invariant() {
    assert_eq!(sample_config(vec![]).validate(), Ok(()));

    let mut c = sample_config(vec![]);
    c.network_token = String::new();
    assert_eq!(c.validate(), Err(ConfigError::EmptyNetworkToken));

    let mut c = sample_config(vec![]);
    c.authorization_token = String::new();
    assert_eq!(c.validate(), Err(ConfigError::EmptyAuthorizationToken));

    let mut c = sample_config(vec![]);
    c.mqtt.username = Some("user".to_string());
    assert_eq!(c.validate(), Err(ConfigError::MissingPassword));
    c.mqtt.password = Some("pass".to_string());
    assert_eq!(c.validate(), Ok(()));

    let mut c = sample_config(vec![]);
    c.downlink_port = Some(0);
    assert_eq!(c.validate(), Err(ConfigError::InvalidDownlinkPort));
    c.downlink_port = Some(65535);
    assert_eq!(c.validate(), Ok(()));
}

#[test]
fn relay_list_from_loaded_configuration() {
    assert!(matches!(get_relay_list(None), Err(ConfigError::Missing)));
    let relays = get_relay_list(Some(sample_config(vec![]))).unwrap();
    assert_eq!(relays.len(), 1);
    assert_eq!(relays[0].id, "self-hosted");
    assert_eq!(relays[0].profile_id.as_deref(), Some("self-hosted"));
    assert_eq!(relays[0].config.tagoio_url.as_deref(), Some("https://api.tago.io"));
}

#[test]
fn test_get_config_path_with_user_path() {
    let user_path = Some(String::from("/custom/path/config.toml"));
    let result = resolve_config_path(user_path, Some("/from/env.toml".to_string()), Some("/home/u".to_string()));
    assert_eq!(result, "/custom/path/config.toml");
}

#[test]
fn test_get_config_path_without_user_path() {
    let home_dir = home::home_dir().expect("Failed to get home directory");
    let home = home_dir.display().to_string();
    let result = resolve_config_path(None, None, Some(home));
    let expected_path = home_dir.join(".config/.tagoio-mqtt-relay.toml");
    assert_eq!(result, expected_path.display().to_string());
}

#[test]
fn config_path_precedence_and_fallbacks() {
    assert_eq!(resolve_config_path(None, Some("/env/c.toml".to_string()), Some("/h".to_string())), "/env/c.toml");
    assert_eq!(resolve_config_path(None, None, None), "./.config/.tagoio-mqtt-relay.toml");
    assert_eq!(config_file_in("/etc/relay"), "/etc/relay/.tagoio-mqtt-relay.toml");
    assert_eq!(config_file_in("/etc/relay/"), "/etc/relay/.tagoio-mqtt-relay.toml");
}
