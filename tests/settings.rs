use telemetry_bridge::config::{parse_port, AppConfig, ConfigError};
use telemetry_bridge::entity::{parse_entity_key, EntityKey, KeyError};

#[test]
fn port_parses_decimal() {
    assert_eq!(parse_port("1883"), Some(1883));
    assert_eq!(parse_port("+8883"), Some(8883));
    assert_eq!(parse_port("0"), Some(0));
    assert_eq!(parse_port("65535"), Some(65535));
    assert_eq!(parse_port("007"), Some(7));
}

#[test]
fn port_rejects_bad_text() {
    assert_eq!(parse_port("65536"), None);
    assert_eq!(parse_port("99999999999999999999"), None);
    assert_eq!(parse_port(""), None);
    assert_eq!(parse_port("+"), None);
    assert_eq!(parse_port("-1"), None);
    assert_eq!(parse_port("18a3"), None);
    assert_eq!(parse_port(" 1883"), None);
    assert_eq!(parse_port("++1"), None);
}

#[test]
fn config_from_values() {
    let c = AppConfig::from_values(
        "mongodb://db".to_string(),
        "broker.example".to_string(),
        "8883",
        "drone".to_string(),
        "SECRET-REDACTED".to_string(),
        "/etc/ca.pem".to_string(),
    )
    .unwrap();
    assert_eq!(c.mqtt_port, 8883);
    assert_eq!(c.mqtt_host, "broker.example");
    assert_eq!(c.mongodb_uri, "mongodb://db");
    assert_eq!(c.mqtt_username, "drone");
    assert_eq!(c.ca_cert_path, "/etc/ca.pem");
}

#[test]
fn config_with_bad_port_is_refused() {
    let r = AppConfig::from_values(
        String::new(),
        String::new(),
        "port",
        String::new(),
        String::new(),
        String::new(),
    );
    assert!(matches!(r, Err(ConfigError::InvalidPort)));
}

#[test]
fn entity_key_from_hex() {
    let k = parse_entity_key("507f1f77bcf86cd799439011").unwrap();
    assert_eq!(
        k,
        EntityKey { bytes: [0x50, 0x7f, 0x1f, 0x77, 0xbc, 0xf8, 0x6c, 0xd7, 0x99, 0x43, 0x90, 0x11] }
    );
    let upper = parse_entity_key("507F1F77BCF86CD799439011").unwrap();
    assert_eq!(upper, k);
}

#[test]
fn entity_key_rejects_bad_ids() {
    assert_eq!(parse_entity_key("ABC123"), Err(KeyError::InvalidEntityId));
    assert_eq!(parse_entity_key("507f1f77bcf86cd79943901"), Err(KeyError::InvalidEntityId));
    assert_eq!(parse_entity_key("507f1f77bcf86cd7994390110"), Err(KeyError::InvalidEntityId));
    assert_eq!(parse_entity_key("507f1f77bcf86cd79943901g"), Err(KeyError::InvalidEntityId));
    assert_eq!(parse_entity_key(""), Err(KeyError::InvalidEntityId));
}
