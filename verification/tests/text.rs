use actix_todo::config::ServerConfig;
use actix_todo::models::Status;
use actix_todo::text::{i32_decimal, u32_decimal};

#[test]
fn test_u32_decimal() {
    assert_eq!(u32_decimal(0), "0".to_string());
    assert_eq!(u32_decimal(7), "7".to_string());
    assert_eq!(u32_decimal(10), "10".to_string());
    assert_eq!(u32_decimal(305), "305".to_string());
    assert_eq!(u32_decimal(4294967295), "4294967295".to_string());
}

#[test]
fn test_i32_decimal() {
    assert_eq!(i32_decimal(0), "0".to_string());
    assert_eq!(i32_decimal(42), "42".to_string());
    assert_eq!(i32_decimal(-5), "-5".to_string());
    assert_eq!(i32_decimal(2147483647), "2147483647".to_string());
    assert_eq!(i32_decimal(-2147483648), "-2147483648".to_string());
}

#[test]
fn test_status_up() {
    assert_eq!(Status::up().status, "Up".to_string());
}

#[test]
fn test_server_config_default() {
    let config = ServerConfig::default();
    assert_eq!(config.host, "127.0.0.1".to_string());
    assert_eq!(config.port, 8080);
}
