use rtpproxy::config::{Config, LoggingConfig, ServerConfig};
use rtpproxy::text::decimal_text;

#[test]
fn default_control_address() {
    assert_eq!(Config::default().grpc_address(), "[::]:50051");
}

#[test]
fn default_logging() {
    let logging = LoggingConfig::default();
    assert!(logging.file_enabled);
    assert_eq!(logging.directory, "./logs");
    assert_eq!(logging.file_prefix, "rtpproxy");
    assert_eq!(logging.max_file_size, 100);
    assert_eq!(logging.max_log_files, 5);
}

#[test]
fn unreadable_configuration_falls_back_to_the_defaults() {
    let config = Config::load(Err("no such file".to_string()));
    assert_eq!(config.server.grpc_listen_address, "[::]");
    assert_eq!(config.server.grpc_listen_port, 50051);
    assert_eq!(config.logging.max_log_files, 5);
}

#[test]
fn readable_configuration_is_used() {
    let config = Config::load(Ok(Config {
        server: ServerConfig {
            grpc_listen_address: "127.0.0.1".to_string(),
            grpc_listen_port: 65535,
        },
        logging: LoggingConfig::default(),
    }));
    assert_eq!(config.grpc_address(), "127.0.0.1:65535");
}

#[test]
fn decimal_numbers() {
    assert_eq!(decimal_text(0), "0");
    assert_eq!(decimal_text(9), "9");
    assert_eq!(decimal_text(10), "10");
    assert_eq!(decimal_text(50051), "50051");
    assert_eq!(decimal_text(4294967295), "4294967295");
}
