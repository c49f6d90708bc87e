use socks5::server::SOCKS5Server;

#[test]
fn server_keeps_its_address_and_port() {
    let server = SOCKS5Server::new("127.0.0.1".to_string(), 1080);
    assert_eq!(server.address(), "127.0.0.1");
    assert_eq!(server.port(), 1080);
}

#[test]
fn bind_address_is_host_colon_port() {
    let server = SOCKS5Server::new("127.0.0.1".to_string(), 1080);
    assert_eq!(server.bind_address(), "127.0.0.1:1080");
    let server = SOCKS5Server::new("localhost".to_string(), 8080);
    assert_eq!(server.bind_address(), "localhost:8080");
}

#[test]
fn bind_address_writes_the_port_in_decimal() {
    let ports: [u16; 9] = [0, 1, 9, 10, 99, 100, 1000, 10101, 65535];
    for port in ports {
        let server = SOCKS5Server::new("0.0.0.0".to_string(), port);
        assert_eq!(server.bind_address(), format!("0.0.0.0:{}", port));
    }
}

#[test]
fn bind_address_agrees_with_formatting_for_every_port() {
    let mut port: u32 = 0;
    while port <= 65535 {
        let server = SOCKS5Server::new("h".to_string(), port as u16);
        assert_eq!(server.bind_address(), format!("h:{}", port));
        port += 1;
    }
}

#[test]
fn bind_address_keeps_an_empty_or_unusual_host() {
    assert_eq!(SOCKS5Server::new(String::new(), 80).bind_address(), ":80");
    assert_eq!(SOCKS5Server::new("::1".to_string(), 80).bind_address(), "::1:80");
    assert_eq!(SOCKS5Server::new("b\u{fc}cher.example".to_string(), 7).bind_address(), "b\u{fc}cher.example:7");
}
