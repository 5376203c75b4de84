use stream_auth::config::{parse_port, read_port, Config, ConfigError};
use stream_auth::utils::get_check_twitch_id;

#[test]
fn parse_port_reads_digits() {
    assert_eq!(parse_port(&"8080".to_string()), Some(8080));
    assert_eq!(parse_port(&"1".to_string()), Some(1));
    assert_eq!(parse_port(&"65535".to_string()), Some(65535));
    assert_eq!(parse_port(&"070".to_string()), Some(70));
}

#[test]
fn parse_port_rejects_other_shapes() {
    assert_eq!(parse_port(&String::new()), None);
    assert_eq!(parse_port(&"12a".to_string()), None);
    assert_eq!(parse_port(&"-1".to_string()), None);
    assert_eq!(parse_port(&" 80".to_string()), None);
    assert_eq!(parse_port(&"65536".to_string()), None);
    assert_eq!(parse_port(&"99999999999999999999".to_string()), None);
}

#[test]
fn read_port_defaults_to_8000() {
    assert_eq!(read_port(None), 8000);
    assert_eq!(read_port(Some("not-a-port".to_string())), 8000);
    assert_eq!(read_port(Some("9000".to_string())), 9000);
}

#[test]
fn check_id_falls_back_to_fixed_value() {
    assert_eq!(get_check_twitch_id(None), "41701337");
    assert_eq!(get_check_twitch_id(Some("123".to_string())), "123");
}

#[test]
fn resolve_requires_provider_values() {
    let resolved = Config::resolve(
        Some("cid".to_string()),
        Some("sec".to_string()),
        Some("http://localhost:8000".to_string()),
        Some("9001".to_string()),
        Some("99".to_string()),
    );
    let cfg = match resolved {
        Ok(c) => c,
        Err(_) => panic!("all values were present"),
    };
    assert_eq!(cfg.client_id, "cid");
    assert_eq!(cfg.client_secret, "sec");
    assert_eq!(cfg.base_url, "http://localhost:8000");
    assert_eq!(cfg.port, 9001);
    assert_eq!(cfg.check_id, "99");

    let missing = Config::resolve(
        None,
        Some("sec".to_string()),
        Some("http://localhost:8000".to_string()),
        None,
        None,
    );
    assert!(matches!(missing, Err(ConfigError::Missing)));
}

#[test]
fn resolve_applies_defaults() {
    let resolved = Config::resolve(
        Some("cid".to_string()),
        Some("sec".to_string()),
        Some("http://localhost:8000".to_string()),
        None,
        None,
    );
    let cfg = match resolved {
        Ok(c) => c,
        Err(_) => panic!("all required values were present"),
    };
    assert_eq!(cfg.port, 8000);
    assert_eq!(cfg.check_id, "41701337");
}
