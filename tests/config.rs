use redis_vector_store::{get_redis_config, RedisConfig, VectorStoreError};

#[test]
fn url_without_password() {
    let c = RedisConfig::new("localhost", 6379, None);
    assert_eq!(c.get_url(), "redis://localhost:6379");
    assert_eq!(c.hostname, "localhost");
    assert_eq!(c.port, 6379);
    assert_eq!(c.password, None);
}

#[test]
fn url_with_password() {
    let c = RedisConfig::new("db.example", 6380, Some("pw"));
    assert_eq!(c.url, "redis://:pw@db.example:6380");
    assert_eq!(c.password, Some("pw".to_string()));
}

#[test]
fn settings_default_to_localhost_and_6379() {
    let c = RedisConfig::from_values(None, None, None);
    assert_eq!(c.url, "redis://localhost:6379");
}

#[test]
fn invalid_port_text_falls_back() {
    assert_eq!(RedisConfig::from_values(None, Some("abc".to_string()), None).port, 6379);
    assert_eq!(RedisConfig::from_values(None, Some("70000".to_string()), None).port, 6379);
    assert_eq!(RedisConfig::from_values(None, Some("".to_string()), None).port, 6379);
    assert_eq!(RedisConfig::from_values(None, Some("+80".to_string()), None).port, 80);
    assert_eq!(RedisConfig::from_values(None, Some("65535".to_string()), None).port, 65535);
}

#[test]
fn redis_config_tuple() {
    let (url, host, port, password) =
        get_redis_config(Some("h".to_string()), Some("1234".to_string()), Some("s".to_string()));
    assert_eq!(url, "redis://:s@h:1234");
    assert_eq!(host, "h");
    assert_eq!(port, 1234);
    assert_eq!(password, Some("s".to_string()));
}

#[test]
fn error_messages_carry_their_kind() {
    assert_eq!(VectorStoreError::RedisError("down".to_string()).to_string(), "Redis error: down");
    assert_eq!(
        VectorStoreError::IntegrityError("x".to_string()).to_string(),
        "Integrity error: x"
    );
    assert_eq!(VectorStoreError::Other("y".to_string()).to_string(), "Error: y");
}
