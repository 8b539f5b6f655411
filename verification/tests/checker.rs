use tunelo::checker::prober::http::record_head;
use tunelo::protocol::http::HttpHead;
use tunelo::checker::error::{Error, ReportError};
use tunelo::checker::prober::http::{finish_report, tls_transport, HttpTransport};
use tunelo::checker::{
    BasicProber, BasicProberReport, HttpMethod, HttpProber, HttpProberReport, LivenessProber,
    LivenessProberReport, Prober, ProberReport, SimpleProxyChecker, TaskReport,
};
use tunelo::client::Error as ClientError;
use tunelo::common::{HostAddress, ProxyHost};
use tunelo::protocol::http::HttpParseError;
use tunelo::url_parts::UrlParts;

fn url(scheme: &str, host: Option<&str>, port: Option<u16>, path: &str) -> UrlParts {
    UrlParts {
        serialization: format!("{}://{}{}", scheme, host.unwrap_or(""), path),
        scheme: scheme.to_owned(),
        username: String::new(),
        password: None,
        host: host.map(str::to_owned),
        port,
        path: path.to_owned(),
    }
}

#[test]
fn http_prober_request() {
    let p = HttpProber::get(url("http", Some("httpbin.org"), None, "/ip"), 200);
    assert_eq!(p.build_request().unwrap(), b"GET /ip HTTP/1.1\r\nHost: httpbin.org\r\n\r\n".to_vec());
    assert_eq!(p.port().unwrap(), 80);
    assert_eq!(p.destination_address().unwrap().to_string(), "httpbin.org:80");
    assert!(matches!(p.transport(), Ok(HttpTransport::Plain)));
    let d = HttpProber::delete(url("https", Some("a.b"), Some(8443), "/x"), 204);
    assert_eq!(d.build_request().unwrap(), b"DELETE /x HTTP/1.1\r\nHost: a.b\r\n\r\n".to_vec());
    assert_eq!(d.destination_address().unwrap().to_string(), "a.b:8443");
    assert!(matches!(d.transport(), Ok(HttpTransport::Tls { host }) if host == "a.b"));
    let h = HttpProber::head(url("gopher", Some("a.b"), None, "/"), 200);
    assert!(matches!(h.port(), Err(Error::NoPortProvided)));
    assert!(matches!(h.transport(), Err(Error::UnknownScheme { scheme }) if scheme == "gopher"));
    let n = HttpProber::get(url("http", None, None, "/"), 200);
    assert!(matches!(n.destination_address(), Err(Error::NoHostProvided)));
    assert_eq!(HttpMethod::Head.to_string(), "HEAD");
}

#[test]
fn http_prober_response() {
    let p = HttpProber::get(url("http", Some("a.b"), None, "/"), 200);
    let mut report = HttpProberReport::default();
    let dest = p.begin(&mut report).unwrap();
    assert_eq!(dest.to_string(), "a.b:80");
    assert_eq!(report.method, Some(HttpMethod::Get));
    let mut buf = b"HTTP/1.1 404 Not Found\r\n\r\n".to_vec();
    buf.resize(1024, 0);
    assert!(p.read_response(&buf, &mut report).is_ok());
    assert_eq!(report.response_code, Some(404));
    assert!(matches!(p.read_response(b"HTTP/1.1 2", &mut report), Err(Error::IncompleteHttpResponse)));
    assert!(matches!(p.read_response(b"xyz \r\n", &mut report), Err(Error::ParseHttpResponse { .. })));
    finish_report(&mut report, Err(Error::IncompleteHttpResponse));
    assert_eq!(report.error, Some(ReportError::IncompleteHttpResponse));
    assert!(report.has_error());
}

#[test]
fn report_errors() {
    let e = ReportError::from(Error::UnknownScheme { scheme: "ftp".to_owned() });
    assert_eq!(e, ReportError::UnknownScheme { scheme: "ftp".to_owned() });
    assert_eq!(e.to_string(), "Unknown scheme: ftp");
    let e = ReportError::from(Error::ConnectProxyServer { source: ClientError::NoProxyServiceProvided });
    assert_eq!(
        e,
        ReportError::ConnectProxyServer { message: "Remote host does not provide proxy service".to_owned() }
    );
    let e = ReportError::from(Error::ParseHttpResponse { source: HttpParseError::Version });
    assert_eq!(e.to_string(), "Could not parse HTTP response, error: invalid HTTP version");
    assert_eq!(ReportError::Timeout.to_string(), "Operation timed out");
    assert_eq!(
        ReportError::InvalidDnsName { dns_name: "x y".to_owned() }.to_string(),
        "Invalid DNS name `x y`"
    );
}

#[test]
fn probers_and_reports() {
    let dest = HostAddress::from_str("127.0.0.1:80").unwrap();
    let basic = BasicProber::new(dest.clone());
    let r = basic.report(Ok(Ok(())));
    assert!(r.destination_reachable && r.error.is_none());
    assert_eq!(r.destination, Some(dest.clone()));
    let r = basic.report(Err(ClientError::Timeout));
    assert!(!r.destination_reachable);
    assert_eq!(r.error, Some(ReportError::ConnectProxyServer { message: "Connection timed out".to_owned() }));

    let live = LivenessProber.report(Ok(()));
    assert!(live.alive && !live.has_error());
    let dead = LivenessProber.report(Err(ClientError::NoProxyServiceProvided));
    assert!(!dead.alive && dead.has_error());

    let probers: Vec<Prober> = vec![
        LivenessProber.into(),
        basic.clone().into(),
        HttpProber::get(url("http", Some("a.b"), None, "/"), 200).into(),
    ];
    let kinds: Vec<usize> = probers.iter().map(|p| p.precedence()).collect();
    assert_eq!(kinds, vec![0, 1, 2]);
    for p in &probers {
        let t = p.timeout_report();
        assert_eq!(t.precedence(), p.precedence());
        assert!(t.has_error());
    }
    match probers[1].timeout_report() {
        ProberReport::Basic(b) => assert_eq!(b, BasicProberReport::timeout(dest.clone())),
        other => panic!("unexpected {:?}", other),
    }

    let proxy = ProxyHost::from_str("socks5://127.0.0.1:1080").unwrap();
    let mut checker = SimpleProxyChecker::with_probers(proxy.clone(), &probers[1..]);
    checker.add_prober(LivenessProber.into());
    let dead_task = checker.begin_task(LivenessProberReport::timeout());
    assert!(checker.probers_to_run(&dead_task).is_empty());
    let mut task = checker.begin_task(LivenessProberReport { alive: true, error: None });
    let to_run = checker.probers_to_run(&task);
    assert_eq!(to_run.len(), 3);
    for p in &to_run {
        task.add_report(p.timeout_report());
    }
    assert_eq!(task.basic_report_count(), 1);
    assert_eq!(task.http_report_count(), 1);
    assert_eq!(task.prober_reports.len(), 3);
    assert!(task.is_proxy_server_alive());
    assert_eq!(checker.proxy_server(), &proxy);
    let empty = TaskReport::new(proxy, LivenessProberReport::default());
    assert_eq!(empty.basic_reports().len(), 0);
}

#[test]
fn recording_given_heads() {
    let mut report = HttpProberReport::default();
    assert!(record_head(Ok(HttpHead::Complete { len: 40, code: Some(301) }), &mut report).is_ok());
    assert_eq!(report.response_code, Some(301));
    assert!(matches!(record_head(Ok(HttpHead::Partial), &mut report), Err(Error::IncompleteHttpResponse)));
    assert!(matches!(
        record_head(Err(HttpParseError::Status), &mut report),
        Err(Error::ParseHttpResponse { source: HttpParseError::Status })
    ));
    assert_eq!(report.response_code, Some(301));
}

#[test]
fn one_report_per_probe_in_order() {
    let dest = HostAddress::from_str("127.0.0.1:80").unwrap();
    let probers: Vec<Prober> = vec![
        HttpProber::get(url("http", Some("a.b"), None, "/"), 200).into(),
        BasicProber::new(dest).into(),
    ];
    let proxy = ProxyHost::from_str("socks5://127.0.0.1:1080").unwrap();
    let checker = SimpleProxyChecker::with_probers(proxy.clone(), &probers);

    let task = checker.begin_task(LivenessProberReport { alive: true, error: None });
    let reports: Vec<ProberReport> = checker.probers_to_run(&task).iter().map(|p| p.timeout_report()).collect();
    let done = checker.finish_task(task, reports);
    let kinds: Vec<usize> = done.prober_reports.iter().map(|r| r.precedence()).collect();
    assert_eq!(kinds, vec![2, 1]);
    assert_eq!(done.proxy_server, proxy);

    let dead = checker.begin_task(LivenessProberReport::timeout());
    assert!(checker.probers_to_run(&dead).is_empty());
    let extra = vec![probers[0].timeout_report()];
    let done = checker.finish_task(dead, extra);
    assert!(done.prober_reports.is_empty());
    assert!(!done.liveness_report.alive);
}

#[test]
fn tls_needs_a_dns_name() {
    let bad = HttpProber::get(url("https", Some("a..b"), None, "/"), 200);
    assert!(matches!(bad.transport(), Err(Error::InvalidDnsName { dns_name }) if dns_name == "a..b"));
    assert!(matches!(tls_transport("x.y".to_owned(), true), Ok(HttpTransport::Tls { host }) if host == "x.y"));
    assert!(matches!(tls_transport("x.y".to_owned(), false), Err(Error::InvalidDnsName { dns_name }) if dns_name == "x.y"));
    assert_eq!(HttpParseError::Status.message(), "invalid response status");
    assert_eq!(HttpParseError::TooManyHeaders.message(), "too many headers");
}
