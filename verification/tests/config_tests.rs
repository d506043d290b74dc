use heartbeater::config::{Config, ConfigError, DEFAULT_CLIENT_ID, DEFAULT_CONFIG_PATH, DEFAULT_TOPIC};

fn full() -> Config {
    Config {
        broker_address: "broker:1883".to_string(),
        topic: "site/edge1".to_string(),
        client_id: "edge1".to_string(),
        interval_millis: 5000,
    }
}

#[test]
fn resolves_a_complete_document() {
    let text = "mqtt:\n  host: \"broker:1883\"\n  topic: site/edge1\nclient:\n  id: edge1\n  interval: 5000\n";
    assert_eq!(Config::from_yaml(text), Ok(full()));
}

#[test]
fn resolves_from_fields() {
    let r = Config::resolve(
        Some("broker:1883".to_string()),
        Some("site/edge1".to_string()),
        Some("edge1".to_string()),
        Some(5000),
    );
    assert_eq!(r, Ok(full()));
}

#[test]
fn missing_host_is_rejected() {
    let text = "mqtt:\n  topic: site/edge1\nclient:\n  id: edge1\n  interval: 5000\n";
    assert_eq!(Config::from_yaml(text), Err(ConfigError::MissingHost));
    assert_eq!(
        Config::resolve(None, Some("t".to_string()), Some("c".to_string()), Some(1)),
        Err(ConfigError::MissingHost)
    );
}

#[test]
fn missing_mqtt_section_is_rejected() {
    let text = "client:\n  id: edge1\n  interval: 5000\n";
    assert_eq!(Config::from_yaml(text), Err(ConfigError::MissingHost));
}

#[test]
fn missing_interval_is_rejected() {
    let text = "mqtt:\n  host: broker:1883\n  topic: site/edge1\nclient:\n  id: edge1\n";
    assert_eq!(Config::from_yaml(text), Err(ConfigError::MissingInterval));
    assert_eq!(
        Config::resolve(Some("h".to_string()), None, None, None),
        Err(ConfigError::MissingInterval)
    );
}

#[test]
fn missing_host_comes_before_missing_interval() {
    assert_eq!(Config::from_yaml("other: 1\n"), Err(ConfigError::MissingHost));
    assert_eq!(Config::resolve(None, None, None, None), Err(ConfigError::MissingHost));
}

#[test]
fn host_of_the_wrong_type_is_rejected() {
    let text = "mqtt:\n  host: 1883\nclient:\n  interval: 5000\n";
    assert_eq!(Config::from_yaml(text), Err(ConfigError::MissingHost));
}

#[test]
fn interval_of_the_wrong_type_is_rejected() {
    let text = "mqtt:\n  host: broker:1883\nclient:\n  interval: soon\n";
    assert_eq!(Config::from_yaml(text), Err(ConfigError::MissingInterval));
    let quoted = "mqtt:\n  host: broker:1883\nclient:\n  interval: \"5000\"\n";
    assert_eq!(Config::from_yaml(quoted), Err(ConfigError::MissingInterval));
}

#[test]
fn missing_topic_and_id_fall_back_to_defaults() {
    let text = "mqtt:\n  host: broker:1883\nclient:\n  interval: 250\n";
    let config = Config::from_yaml(text).unwrap();
    assert_eq!(config.broker_address, "broker:1883");
    assert_eq!(config.topic, "krakeniot");
    assert_eq!(config.client_id, "kraken_edge_heartbeater");
    assert_eq!(config.interval_millis, 250);
}

#[test]
fn missing_topic_alone_falls_back() {
    let text = "mqtt:\n  host: broker:1883\nclient:\n  id: edge7\n  interval: 250\n";
    let config = Config::from_yaml(text).unwrap();
    assert_eq!(config.topic, DEFAULT_TOPIC);
    assert_eq!(config.client_id, "edge7");
}

#[test]
fn missing_id_alone_falls_back() {
    let text = "mqtt:\n  host: broker:1883\n  topic: a/b\nclient:\n  interval: 250\n";
    let config = Config::from_yaml(text).unwrap();
    assert_eq!(config.topic, "a/b");
    assert_eq!(config.client_id, DEFAULT_CLIENT_ID);
}

#[test]
fn topic_of_the_wrong_type_falls_back() {
    let text = "mqtt:\n  host: broker:1883\n  topic: 17\nclient:\n  id: [a, b]\n  interval: 250\n";
    let config = Config::from_yaml(text).unwrap();
    assert_eq!(config.topic, "krakeniot");
    assert_eq!(config.client_id, "kraken_edge_heartbeater");
}

#[test]
fn defaults_have_their_documented_values() {
    assert_eq!(DEFAULT_TOPIC, "krakeniot");
    assert_eq!(DEFAULT_CLIENT_ID, "kraken_edge_heartbeater");
    assert_eq!(DEFAULT_CONFIG_PATH, "config.yaml");
}

#[test]
fn text_that_is_no_yaml_is_rejected() {
    assert_eq!(Config::from_yaml("mqtt: [broker, 1883"), Err(ConfigError::Unparseable));
}

#[test]
fn text_without_a_document_is_rejected() {
    assert_eq!(Config::from_yaml(""), Err(ConfigError::NoDocument));
}

#[test]
fn only_the_first_document_counts() {
    let text = "mqtt:\n  host: first\nclient:\n  interval: 1\n---\nmqtt:\n  host: second\nclient:\n  interval: 2\n";
    let config = Config::from_yaml(text).unwrap();
    assert_eq!(config.broker_address, "first");
    assert_eq!(config.interval_millis, 1);
}

#[test]
fn zero_interval_is_kept() {
    let config = Config::resolve(Some("h".to_string()), None, None, Some(0)).unwrap();
    assert_eq!(config.interval_millis, 0);
}

#[test]
fn negative_interval_is_read_as_unsigned() {
    let config = Config::resolve(Some("h".to_string()), None, None, Some(-1)).unwrap();
    assert_eq!(config.interval_millis, u64::MAX);
    let config = Config::resolve(Some("h".to_string()), None, None, Some(i64::MIN)).unwrap();
    assert_eq!(config.interval_millis, 1u64 << 63);
    let text = "mqtt:\n  host: h\nclient:\n  interval: -5000\n";
    assert_eq!(Config::from_yaml(text).unwrap().interval_millis, u64::MAX - 4999);
}

#[test]
fn largest_interval_is_kept() {
    let config = Config::resolve(Some("h".to_string()), None, None, Some(i64::MAX)).unwrap();
    assert_eq!(config.interval_millis, i64::MAX as u64);
}
