use tunelo::url_parts::UrlParts;
use tunelo::client::ProxyStream;
use tunelo::common::{HostAddress, HostAddressError, ProxyHost, ProxyStrategy};
use tunelo::net::{parse_ip, parse_socket, IpAddress, Ipv4Address, Ipv6Address, SocketAddress};
use std::sync::Arc;

fn chars(s: &str) -> Vec<char> {
    s.chars().collect()
}

#[test]
fn ip_text_round_trip() {
    for text in ["0.0.0.0", "192.168.1.254", "::", "::1", "2001:db8::8a2e:370:7334", "::ffff:1.2.3.4"] {
        let ip = parse_ip(&chars(text)).unwrap();
        assert_eq!(ip.to_text(), text);
        assert_eq!(parse_ip(&chars(&ip.to_text())), Some(ip));
    }
    assert_eq!(
        IpAddress::V6(Ipv6Address(1, 0, 0, 1, 0, 0, 0, 1)).to_text(),
        "1:0:0:1::1"
    );
    assert_eq!(parse_ip(&chars("256.0.0.1")), None);
    assert_eq!(parse_ip(&chars("1.2.3")), None);
    assert_eq!(parse_ip(&chars("1:2:3:4:5:6:7:8:9")), None);
}

#[test]
fn socket_text_round_trip() {
    for text in ["127.0.0.1:8080", "[::1]:443", "[2001:db8::1]:0"] {
        let s = parse_socket(&chars(text)).unwrap();
        assert_eq!(s.to_text(), text);
    }
    let s = SocketAddress::new(IpAddress::V4(Ipv4Address(10, 0, 0, 1)), 53);
    assert_eq!(s.to_text(), "10.0.0.1:53");
    assert_eq!(parse_socket(&chars("10.0.0.1")), None);
}

#[test]
fn host_address_round_trip() {
    for text in ["example.com:80", "127.0.0.1:3128", "[::1]:1080"] {
        let a = HostAddress::from_str(text).unwrap();
        assert_eq!(a.to_string(), text);
        assert_eq!(HostAddress::from_str(&a.to_string()).unwrap(), a);
    }
    let mut a = HostAddress::new("1.2.3.4", 80);
    assert!(matches!(a, HostAddress::Socket(_)));
    a.set_port(8080);
    assert_eq!(a.port(), 8080);
    let mut d = HostAddress::DomainName("10.0.0.1".to_owned(), 22);
    d.fit();
    assert!(d.eq_socket(&SocketAddress::V4 { ip: Ipv4Address(10, 0, 0, 1), port: 22 }));
    let mut d2 = d.clone();
    d2.fit();
    assert_eq!(d2, d);
    assert!(matches!(HostAddress::from_str("example.com"), Err(HostAddressError::InvalidFormat { .. })));
    assert!(matches!(HostAddress::from_str("example.com:99999"), Err(HostAddressError::ParsePortNumber { .. })));
}

#[test]
fn proxy_streams() {
    let strategy = Arc::new(ProxyStrategy::Single(ProxyHost::from_str("socks5://127.0.0.1:1080").unwrap()));
    let mut s = ProxyStream::from_raw(7u32, strategy);
    *s.as_mut() = 8;
    assert_eq!(*s.as_ref(), 8);
    assert_eq!(s.proxy_strategy().to_string(), "socks5://127.0.0.1:1080");
    assert_eq!(s.into_inner(), 8);
}

#[test]
fn error_texts() {
    assert_eq!(
        HostAddress::from_str("example.com").unwrap_err().to_string(),
        "Invalid host address format: example.com"
    );
    assert_eq!(
        HostAddress::from_str("example.com:http").unwrap_err().to_string(),
        "Could not parse port number, error invalid digit found in string"
    );
    assert_eq!(ProxyHost::from_str("socks5://1.2.3.4").unwrap_err().to_string(), "No port number");
    assert_eq!(ProxyHost::from_str("ftp://1.2.3.4:21").unwrap_err().to_string(), "Invalid scheme: ftp");
    assert!(ProxyHost::from_str("::").unwrap_err().to_string().starts_with("Could not parse URL, error: "));
}

#[test]
fn proxy_hosts_from_given_url_parts() {
    let parts = |scheme: &str, host: Option<&str>, port: Option<u16>, user: &str| UrlParts {
        serialization: String::new(),
        scheme: scheme.to_owned(),
        username: user.to_owned(),
        password: Some("pw".to_owned()),
        host: host.map(str::to_owned),
        port,
        path: "/".to_owned(),
    };
    match ProxyHost::from_url(parts("socks5", Some("h"), Some(1), "u")).unwrap() {
        ProxyHost::Socks5 { host, port, username, password } => {
            assert_eq!((host.as_str(), port), ("h", 1));
            assert_eq!(username.as_deref(), Some("u"));
            assert_eq!(password.as_deref(), Some("pw"));
        }
        other => panic!("unexpected {:?}", other),
    }
    match ProxyHost::from_url(parts("http", Some("h"), None, "")).unwrap() {
        ProxyHost::HttpTunnel { port, username, .. } => {
            assert_eq!(port, 80);
            assert_eq!(username, None);
        }
        other => panic!("unexpected {:?}", other),
    }
    assert!(matches!(ProxyHost::from_url(parts("socks4", Some("h"), Some(2), "")), Ok(ProxyHost::Socks4a { .. })));
    assert!(matches!(ProxyHost::from_url(parts("socks5", Some("h"), None, "")), Err(tunelo::common::ProxyHostError::NoPortNumber)));
    assert!(matches!(ProxyHost::from_url(parts("http", None, Some(1), "")), Err(tunelo::common::ProxyHostError::NoHostName)));
    assert!(matches!(ProxyHost::from_url(parts("gopher", Some("h"), Some(1), "")), Err(tunelo::common::ProxyHostError::InvalidScheme { .. })));
}
