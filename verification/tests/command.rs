use std::collections::HashSet;

use tunelo::checker::{HttpMethod, Prober, TaskReport};
use tunelo::command::http_server;
use tunelo::command::multi_proxy::{self, collect_errors, ProxyServer};
use tunelo::command::options::{self, HttpOptions, SocksOptions};
use tunelo::command::proxy_chain::{self, chain_file_format, ChainSource, FileFormat};
use tunelo::command::proxy_checker::{
    self, available_proxy_servers, checkers, report_tables, ProberConfig, ProxyServerFile,
};
use tunelo::command::server_options::port_set;
use tunelo::command::socks_server;
use tunelo::command::Error;
use tunelo::checker::prober::LivenessProberReport;
use tunelo::common::{HostAddress, ProxyHost};
use tunelo::net::{IpAddress, Ipv4Address};
use tunelo::protocol::socks::{SocksCommand, SocksVersion};

fn localhost() -> IpAddress {
    IpAddress::V4(Ipv4Address(127, 0, 0, 1))
}

#[test]
fn it_works() {
    let v: Vec<Result<i32, i32>> = vec![Ok(1), Err(3), Ok(2), Err(4)];
    assert_eq!(collect_errors(v), vec![3, 4]);
}

#[test]
fn proxy_server_file_from_text() {
    let text = r#"
socks4://50.235.92.65:32100
socks5://96.69.174.252:39593
socks4a://67.204.1.222:64312
   http://50.233.42.98:30717
http://52.2.42.8

http://70.83.106.82:55801

socks4a://45.5.94.34:56731
socks5://50.30.24.217:54321
"#;

    let file = ProxyServerFile {
        proxy_servers: vec![
            ProxyHost::Socks4a { host: "50.235.92.65".to_owned(), port: 32100, id: None },
            ProxyHost::Socks5 { host: "96.69.174.252".to_owned(), port: 39593, username: None, password: None },
            ProxyHost::Socks4a { host: "67.204.1.222".to_owned(), port: 64312, id: None },
            ProxyHost::HttpTunnel {
                host: "50.233.42.98".to_owned(),
                port: 30717,
                user_agent: None,
                username: None,
                password: None,
            },
            ProxyHost::HttpTunnel {
                host: "52.2.42.8".to_owned(),
                port: 80,
                user_agent: None,
                username: None,
                password: None,
            },
            ProxyHost::HttpTunnel {
                host: "70.83.106.82".to_owned(),
                port: 55801,
                user_agent: None,
                username: None,
                password: None,
            },
            ProxyHost::Socks4a { host: "45.5.94.34".to_owned(), port: 56731, id: None },
            ProxyHost::Socks5 { host: "50.30.24.217".to_owned(), port: 54321, username: None, password: None },
        ],
    };

    assert_eq!(ProxyServerFile::from_text(text).unwrap(), file);
}

#[test]
fn proxy_server_file_skips_bad_lines() {
    let file = ProxyServerFile::from_text("ftp://1.2.3.4:21\nnot a url\nsocks5://[::1]:1080").unwrap();
    assert_eq!(file.proxy_servers.len(), 1);
    assert_eq!(file.proxy_servers[0].port(), 1080);
    assert_eq!(file.proxy_servers[0].proxy_type_str(), "socks5");
}

#[test]
fn proxy_server_file_formats() {
    assert!(matches!(ProxyServerFile::format(Some("txt"), "a.txt"), Ok(FileFormat::Text)));
    assert!(matches!(ProxyServerFile::format(Some("json"), "a.json"), Ok(FileFormat::Json)));
    assert!(matches!(ProxyServerFile::format(Some("toml"), "a.toml"), Ok(FileFormat::Toml)));
    match ProxyServerFile::format(Some("yaml"), "a.yaml") {
        Err(Error::ProxyChainFormatNotSupported { format }) => assert_eq!(format, "yaml"),
        other => panic!("unexpected {:?}", other),
    }
    match ProxyServerFile::format(None, "proxies") {
        Err(Error::DetectProxyChainFormat { file_path }) => assert_eq!(file_path, "proxies"),
        other => panic!("unexpected {:?}", other),
    }
    assert!(matches!(chain_file_format(Some("txt"), "a.txt"), Err(Error::ProxyChainFormatNotSupported { .. })));
    assert!(matches!(chain_file_format(Some("json"), "a.json"), Ok(FileFormat::Json)));
}

#[test]
fn prober_config_from_text() {
    assert!(matches!(ProberConfig::from_str("Liveness"), Ok(ProberConfig::Liveness)));
    match ProberConfig::from_str(" HTTP-GET , https://httpbin.org/ip , 200 ") {
        Ok(ProberConfig::HttpGet { url, expected_response_code }) => {
            assert_eq!(url, "https://httpbin.org/ip");
            assert_eq!(expected_response_code, 200);
        }
        other => panic!("unexpected {:?}", other),
    }
    assert!(matches!(
        ProberConfig::from_str("http-head,http://a.b/,404"),
        Ok(ProberConfig::HttpHead { expected_response_code: 404, .. })
    ));
    assert!(matches!(
        ProberConfig::from_str("http-delete,http://a.b/,+204"),
        Ok(ProberConfig::HttpDelete { expected_response_code: 204, .. })
    ));
    match ProberConfig::from_str("basic, 127.0.0.1:80") {
        Ok(ProberConfig::Basic { destination_address }) => {
            assert_eq!(destination_address.to_string(), "127.0.0.1:80")
        }
        other => panic!("unexpected {:?}", other),
    }
    for bad in ["http-get,http://a.b/", "http-get,http://a.b/,70000", "http-post,http://a.b/,200", "basic", "ping"] {
        match ProberConfig::from_str(bad) {
            Err(Error::InvalidProxyProber { prober }) => assert_eq!(prober, bad),
            other => panic!("unexpected {:?} for {}", other, bad),
        }
    }
    assert!(matches!(ProberConfig::from_str("basic,example.com"), Err(Error::ParseHostAddress { .. })));
}

#[test]
fn prober_config_into_prober() {
    assert!(matches!(ProberConfig::Liveness.try_into(), Ok(Prober::Liveness(_))));
    let p = ProberConfig::HttpHead { url: "https://example.com:8443/a".to_owned(), expected_response_code: 200 }
        .try_into()
        .unwrap();
    match p {
        Prober::Http(h) => {
            assert_eq!(h.method(), HttpMethod::Head);
            assert_eq!(h.port().unwrap(), 8443);
            assert_eq!(h.host().unwrap(), "example.com");
        }
        other => panic!("unexpected {:?}", other),
    }
    match (ProberConfig::HttpGet { url: "not a url".to_owned(), expected_response_code: 200 }).try_into() {
        Err(Error::ParseUrl { url, .. }) => assert_eq!(url, "not a url"),
        other => panic!("unexpected {:?}", other),
    }
}

#[test]
fn proxy_checker_config_merge_and_checkers() {
    let config = proxy_checker::Config::default();
    assert_eq!(config.probers.len(), 2);
    assert_eq!(config.max_timeout_per_probe.unwrap().as_secs(), 1);
    assert_eq!(config.max_timeout_per_probe.unwrap().subsec_nanos(), 500_000_000);
    assert!(matches!(checkers(config.clone(), None), Err(Error::NoProxyHostProvided)));

    let opts = proxy_checker::Options {
        proxy_servers: vec![ProxyHost::from_str("socks5://127.0.0.1:1080").unwrap()],
        proxy_server_file: None,
        output_path: None,
        probers: vec![],
        max_timeout_per_probe: Some(250),
    };
    let merged = config.merge(opts);
    assert_eq!(merged.proxy_servers.len(), 1);
    assert_eq!(merged.probers.len(), 2);
    assert_eq!(merged.max_timeout_per_probe.unwrap().subsec_nanos(), 250_000_000);
    let cs = checkers(merged.clone(), None).unwrap();
    assert_eq!(cs.len(), 1);
    assert_eq!(cs[0].proxy_server().to_string(), "socks5://127.0.0.1:1080");

    let file = ProxyServerFile::from_text("http://1.1.1.1:8080\nhttp://2.2.2.2:8080").unwrap();
    assert_eq!(checkers(merged.clone(), Some(file)).unwrap().len(), 2);

    let mut no_probers = merged;
    no_probers.probers = vec![ProberConfig::HttpGet { url: "bad".to_owned(), expected_response_code: 200 }];
    assert!(matches!(checkers(no_probers, None), Err(Error::NoProxyProberProvided)));
}

#[test]
fn report_tables_and_available_servers() {
    let alive = TaskReport::new(
        ProxyHost::from_str("socks5://127.0.0.1:1080").unwrap(),
        LivenessProberReport { alive: true, error: None },
    );
    let dead = TaskReport::new(ProxyHost::from_str("http://10.0.0.1:3128").unwrap(), LivenessProberReport::timeout());
    let file = available_proxy_servers(&[alive.clone(), dead.clone()]);
    assert_eq!(file.proxy_servers.len(), 1);
    assert_eq!(file.proxy_servers[0].host(), "127.0.0.1");

    let tables = report_tables(&dead);
    assert_eq!(tables.len(), 1);
    assert_eq!(tables[0].header, vec!["Server", "Type", "Host", "Port", "Alive", "Error"]);
    assert_eq!(
        tables[0].rows,
        vec![vec![
            "http://10.0.0.1:3128".to_owned(),
            "http".to_owned(),
            "10.0.0.1".to_owned(),
            "3128".to_owned(),
            "false".to_owned(),
            "Operation timed out".to_owned(),
        ]]
    );
}

#[test]
fn socks_options_rules() {
    let opts = SocksOptions {
        disable_socks4a: true,
        disable_socks5: true,
        enable_tcp_connect: true,
        enable_tcp_bind: false,
        enable_udp_associate: false,
        connection_timeout: 20,
        ip: localhost(),
        port: 3128,
        udp_ports: vec![],
    };
    assert!(matches!(opts.try_into(), Err(options::Error::NoSocksServiceEnabled)));

    let opts = SocksOptions {
        disable_socks4a: false,
        disable_socks5: true,
        enable_tcp_connect: true,
        enable_tcp_bind: false,
        enable_udp_associate: true,
        connection_timeout: 20,
        ip: localhost(),
        port: 3128,
        udp_ports: vec![],
    };
    assert!(matches!(opts.try_into(), Err(options::Error::NoUdpPortProvided)));

    let opts = SocksOptions {
        disable_socks4a: false,
        disable_socks5: false,
        enable_tcp_connect: false,
        enable_tcp_bind: false,
        enable_udp_associate: false,
        connection_timeout: 20,
        ip: localhost(),
        port: 3128,
        udp_ports: vec![],
    };
    assert!(matches!(opts.try_into(), Err(options::Error::NoSocksCommandEnabled)));

    let opts = SocksOptions {
        disable_socks4a: false,
        disable_socks5: false,
        enable_tcp_connect: true,
        enable_tcp_bind: true,
        enable_udp_associate: true,
        connection_timeout: 7,
        ip: localhost(),
        port: 1080,
        udp_ports: vec![3129, 3130, 3129],
    };
    let o = opts.try_into().unwrap();
    assert_eq!(o.supported_versions, vec![SocksVersion::V4, SocksVersion::V5]);
    assert_eq!(
        o.supported_commands,
        vec![SocksCommand::TcpConnect, SocksCommand::UdpAssociate, SocksCommand::TcpBind]
    );
    assert_eq!(o.udp_ports, HashSet::from([3129, 3130]));
    assert_eq!(o.connection_timeout.as_secs(), 7);
    assert_eq!(o.udp_cache_expiry_duration.subsec_nanos(), 30_000_000);
    assert_eq!(o.tcp_keepalive.as_secs(), 5);
    assert_eq!(o.listen_socket().port(), 1080);

    let h = HttpOptions { ip: localhost(), port: 8118 }.into();
    assert_eq!(h.listen_port, 8118);
}

#[test]
fn socks_server_config_merge_and_rules() {
    let config = socks_server::Config::default();
    assert_eq!(config.port, 3128);
    assert_eq!(config.udp_ports, vec![3129]);
    let opts = socks_server::Options {
        ip: None,
        port: Some(9050),
        disable_socks4a: Some(true),
        disable_socks5: None,
        enable_tcp_connect: None,
        enable_tcp_bind: None,
        enable_udp_associate: None,
        udp_ports: Some(vec![]),
        connection_timeout: None,
    };
    let merged = config.merge(opts);
    assert_eq!(merged.port, 9050);
    assert!(merged.disable_socks4a);
    assert!(!merged.disable_socks5);
    assert!(matches!(merged.try_into(), Err(Error::NoSocksUdpPort)));

    let o = socks_server::Config::default().try_into().unwrap();
    assert_eq!(o.listen_port, 3128);
    assert_eq!(o.supported_commands, vec![SocksCommand::TcpConnect, SocksCommand::UdpAssociate]);
}

#[test]
fn http_server_config_merge() {
    let c = http_server::Config::default();
    assert_eq!(c.port, 8118);
    let m = c.merge(http_server::Options { ip: None, port: Some(80) });
    assert_eq!(m.port, 80);
    assert_eq!(m.ip, localhost());
    let unchanged = c.merge(http_server::Options { ip: None, port: None });
    assert_eq!(unchanged, c);
    assert_eq!(m.into().listen_port, 80);
}

#[test]
fn multi_proxy_config() {
    assert_eq!(ProxyServer::from_str("SOCKS").unwrap(), ProxyServer::Socks);
    assert_eq!(ProxyServer::from_str("http").unwrap(), ProxyServer::Http);
    match ProxyServer::from_str("ftp") {
        Err(Error::InvalidProxyServer { server }) => assert_eq!(server, "ftp"),
        other => panic!("unexpected {:?}", other),
    }
    assert_eq!(ProxyServer::Socks.to_string(), "socks");
    let config = multi_proxy::Config::default();
    assert!(config.enable_socks());
    assert!(config.enable_http());
    let mut only_http = config.clone();
    only_http.proxy_servers = vec![ProxyServer::Http];
    assert!(!only_http.enable_socks());
    let socks = multi_proxy::SocksServer::default();
    assert_eq!(socks.listen_socket().port(), 3128);
    let o = socks.into();
    assert_eq!(o.supported_commands, vec![SocksCommand::TcpConnect]);
    assert_eq!(o.udp_cache_expiry_duration.as_secs(), 30);
    let mut with_udp = multi_proxy::SocksServer::default();
    with_udp.enable_udp_associate = true;
    with_udp.udp_ports = vec![];
    assert_eq!(with_udp.into().supported_commands, vec![SocksCommand::TcpConnect]);
    assert_eq!(multi_proxy::HttpServer::default().listen_socket().port(), 8080);
}

#[test]
fn proxy_chain_servers() {
    let config = proxy_chain::Config::default();
    assert!(matches!(config.clone().servers(), Err(Error::NoProxyChain)));
    let opts = proxy_chain::Options {
        disable_socks4a: false,
        disable_socks5: true,
        disable_http: true,
        socks_ip: None,
        socks_port: Some(1081),
        http_ip: None,
        http_port: None,
        proxy_chain_file: None,
        proxy_chain: Some(vec![ProxyHost::from_str("socks5://127.0.0.1:1080").unwrap()]),
    };
    let merged = config.merge(opts);
    let servers = merged.servers().unwrap();
    assert!(servers.http.is_none());
    let socks = servers.socks.as_ref().unwrap();
    assert_eq!(socks.supported_versions, vec![SocksVersion::V4]);
    assert_eq!(socks.supported_commands, vec![SocksCommand::TcpConnect]);
    assert_eq!(socks.listen_port, 1081);
    assert_eq!(socks.connection_timeout.as_secs(), 10);
    assert!(matches!(servers.chain, ChainSource::Chain(ref c) if c.len() == 1));
    assert!(servers.require_server().is_ok());

    let mut no_port = proxy_chain::Config::default();
    no_port.http_port = None;
    no_port.proxy_chain_file = Some("chain.json".to_owned());
    assert!(matches!(no_port.servers(), Err(Error::NoHttpListenPort)));

    let none = proxy_chain::Options {
        disable_socks4a: true,
        disable_socks5: true,
        disable_http: true,
        socks_ip: None,
        socks_port: None,
        http_ip: None,
        http_port: None,
        proxy_chain_file: Some("chain.toml".to_owned()),
        proxy_chain: None,
    };
    let s = proxy_chain::Config::default().merge(none).servers().unwrap();
    assert!(matches!(s.chain, ChainSource::File(ref f) if f == "chain.toml"));
    assert!(matches!(s.require_server(), Err(Error::NoProxyServer)));
}

#[test]
fn ports_are_kept_once() {
    let ports = port_set(&[5, 5, 6, 5, 7, 6]);
    assert_eq!(ports.len(), 3);
    assert_eq!(ports, HashSet::from([5, 6, 7]));
    assert!(port_set(&[]).is_empty());
}

#[test]
fn host_address_of_basic_prober_config_parses() {
    let a = HostAddress::from_str("[::1]:8080").unwrap();
    assert_eq!(a.port(), 8080);
}

#[test]
fn names_from_given_lower_case() {
    assert_eq!(ProxyServer::from_lower("socks", "SoCkS").unwrap(), ProxyServer::Socks);
    match ProxyServer::from_lower("SOCKS", "SOCKS") {
        Err(Error::InvalidProxyServer { server }) => assert_eq!(server, "SOCKS"),
        other => panic!("unexpected {:?}", other),
    }
    let parts: Vec<Vec<char>> = vec!["LIVENESS".chars().collect()];
    assert!(matches!(ProberConfig::from_pieces("LIVENESS", "liveness", &parts), Ok(ProberConfig::Liveness)));
    let parts: Vec<Vec<char>> = vec!["HTTP-GET".chars().collect(), "u".chars().collect(), "204".chars().collect()];
    assert!(matches!(
        ProberConfig::from_pieces("HTTP-GET,u,204", "http-get", &parts),
        Ok(ProberConfig::HttpGet { expected_response_code: 204, .. })
    ));
    assert!(matches!(
        ProberConfig::from_pieces("HTTP-GET,u,204", "HTTP-GET", &parts),
        Err(Error::InvalidProxyProber { .. })
    ));
}
