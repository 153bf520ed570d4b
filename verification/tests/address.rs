use server_bootstrap::address::format_address;
use server_bootstrap::address::push_decimal;
use server_bootstrap::Server;
use server_bootstrap::ServerConfig;

fn server(host: &str, port: u16) -> Server<()> {
    Server::new((), ServerConfig { host: host.to_string(), port, cors_enabled: true })
}

#[test]
fn address_joins_host_and_port() {
    assert_eq!(server("0.0.0.0", 3000).address(), "0.0.0.0:3000");
    assert_eq!(server("192.168.1.100", 443).address(), "192.168.1.100:443");
    assert_eq!(server("0.0.0.0", 80).address(), "0.0.0.0:80");
    assert_eq!(server("localhost", 8080).address(), "localhost:8080");
}

#[test]
fn address_does_not_bracket_ipv6() {
    assert_eq!(server("::1", 8080).address(), "::1:8080");
    assert_eq!(server("[::1]", 8080).address(), "[::1]:8080");
}

#[test]
fn address_of_empty_host() {
    assert_eq!(server("", 8080).address(), ":8080");
}

#[test]
fn address_keeps_host_as_written() {
    assert_eq!(server(" spaced host ", 1).address(), " spaced host :1");
    assert_eq!(server("h\u{f6}st", 22).address(), "h\u{f6}st:22");
    assert_eq!(server("a:b", 5).address(), "a:b:5");
}

#[test]
fn address_twice_is_the_same() {
    let server = server("example.org", 8443);
    let first = server.address();
    let second = server.address();
    assert_eq!(first, second);
    assert_eq!(first, "example.org:8443");
}

#[test]
fn address_port_bounds() {
    assert_eq!(server("h", 0).address(), "h:0");
    assert_eq!(server("h", 65535).address(), "h:65535");
}

#[test]
fn format_address_matches_std_formatting() {
    let ports: Vec<u16> = vec![
        0, 1, 9, 10, 11, 99, 100, 101, 999, 1000, 1001, 8080, 9999, 10000, 10001, 32768, 60000,
        65534, 65535,
    ];
    for port in ports {
        assert_eq!(format_address("host", port), format!("{}:{}", "host", port));
    }
}

#[test]
fn push_decimal_appends_digits() {
    let mut text = String::from("port ");
    push_decimal(&mut text, 8080);
    assert_eq!(text, "port 8080");
    push_decimal(&mut text, 0);
    assert_eq!(text, "port 80800");
    push_decimal(&mut text, 307);
    assert_eq!(text, "port 80800307");
}

#[test]
fn push_decimal_every_port() {
    let mut port: u16 = 0;
    loop {
        let mut text = String::new();
        push_decimal(&mut text, port);
        assert_eq!(text, port.to_string());
        if port == u16::MAX {
            break;
        }
        port += 1;
    }
}
