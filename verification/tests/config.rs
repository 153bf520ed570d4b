use server_bootstrap::Server;
use server_bootstrap::ServerConfig;

#[test]
fn test_server_config_default() {
    let config = ServerConfig::default();
    assert_eq!(config.host, "127.0.0.1");
    assert_eq!(config.port, 8080);
    assert!(config.cors_enabled);
}

#[test]
fn test_server_config_custom() {
    let config = ServerConfig {
        host: "0.0.0.0".to_string(),
        port: 3000,
        cors_enabled: false,
    };
    assert_eq!(config.host, "0.0.0.0");
    assert_eq!(config.port, 3000);
    assert!(!config.cors_enabled);
}

#[test]
fn test_server_config_host_port_combinations() {
    let config = ServerConfig {
        host: "192.168.1.100".to_string(),
        port: 443,
        cors_enabled: true,
    };
    assert_eq!(config.host, "192.168.1.100");
    assert_eq!(config.port, 443);
}

#[test]
fn test_server_config_ipv6() {
    let config = ServerConfig {
        host: "::1".to_string(),
        port: 8080,
        cors_enabled: false,
    };
    assert_eq!(config.host, "::1");
}

#[test]
fn test_server_config_wildcard() {
    let config = ServerConfig {
        host: "0.0.0.0".to_string(),
        port: 80,
        cors_enabled: true,
    };
    assert_eq!(config.host, "0.0.0.0");
    assert_eq!(config.port, 80);
}

#[test]
fn default_is_the_same_every_time() {
    let first = ServerConfig::default();
    let second = ServerConfig::default();
    assert_eq!(first.host, second.host);
    assert_eq!(first.port, second.port);
    assert_eq!(first.cors_enabled, second.cors_enabled);
}

#[test]
fn explicit_fields_read_back() {
    let cases: Vec<(&str, u16, bool)> = vec![
        ("0.0.0.0", 3000, false),
        ("192.168.1.100", 443, true),
        ("::1", 8080, false),
        ("0.0.0.0", 80, true),
        ("", 0, false),
        ("not an address", 65535, true),
    ];
    for (host, port, cors_enabled) in cases {
        let config = ServerConfig { host: host.to_string(), port, cors_enabled };
        assert_eq!(config.host, host);
        assert_eq!(config.port, port);
        assert_eq!(config.cors_enabled, cors_enabled);
    }
}

#[test]
fn new_keeps_config_and_state() {
    let config = ServerConfig { host: "10.1.2.3".to_string(), port: 9000, cors_enabled: false };
    let server = Server::new(vec![1u8, 2, 3], config);
    assert_eq!(server.config().host, "10.1.2.3");
    assert_eq!(server.config().port, 9000);
    assert!(!server.config().cors_enabled);
    assert_eq!(server.state(), &vec![1u8, 2, 3]);
}

#[test]
fn with_defaults_uses_default_config() {
    let server = Server::with_defaults("state");
    assert_eq!(server.config().host, "127.0.0.1");
    assert_eq!(server.config().port, 8080);
    assert!(server.config().cors_enabled);
    assert_eq!(*server.state(), "state");
    assert_eq!(server.address(), "127.0.0.1:8080");
}
