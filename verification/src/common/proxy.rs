//! Proxy servers and the ways of going through them.
use vstd::prelude::*;

use crate::common::host_address::{host_address_of, HostAddress, HostAddressView};
use crate::text::{chars_of, dec_text, push_all, push_dec, push_str, str_eq_str, string_of};
use crate::url_parts::{clone_opt_str, known_port, opt_str_view, parse_url, parsed_url, UrlParts, UrlPartsView};

verus! {

/// A proxy server.
#[derive(Debug, PartialEq, Eq, Hash)]
pub enum ProxyHost {
    Socks4a { host: String, port: u16, id: Option<String> },
    Socks5 { host: String, port: u16, username: Option<String>, password: Option<String> },
    HttpTunnel {
        host: String,
        port: u16,
        user_agent: Option<String>,
        username: Option<String>,
        password: Option<String>,
    },
}

pub enum ProxyHostView {
    Socks4a { host: Seq<char>, port: u16, id: Option<Seq<char>> },
    Socks5 {
        host: Seq<char>,
        port: u16,
        username: Option<Seq<char>>,
        password: Option<Seq<char>>,
    },
    HttpTunnel {
        host: Seq<char>,
        port: u16,
        user_agent: Option<Seq<char>>,
        username: Option<Seq<char>>,
        password: Option<Seq<char>>,
    },
}

impl View for ProxyHost {
    type V = ProxyHostView;

    open spec fn view(&self) -> ProxyHostView {
        match self {
            ProxyHost::Socks4a { host, port, id } => ProxyHostView::Socks4a {
                host: host@,
                port: *port,
                id: opt_str_view(*id),
            },
            ProxyHost::Socks5 { host, port, username, password } => ProxyHostView::Socks5 {
                host: host@,
                port: *port,
                username: opt_str_view(*username),
                password: opt_str_view(*password),
            },
            ProxyHost::HttpTunnel { host, port, user_agent, username, password } =>
                ProxyHostView::HttpTunnel {
                host: host@,
                port: *port,
                user_agent: opt_str_view(*user_agent),
                username: opt_str_view(*username),
                password: opt_str_view(*password),
            },
        }
    }
}

impl ProxyHostView {
    pub open spec fn host(self) -> Seq<char> {
        match self {
            ProxyHostView::Socks4a { host, .. } => host,
            ProxyHostView::Socks5 { host, .. } => host,
            ProxyHostView::HttpTunnel { host, .. } => host,
        }
    }

    pub open spec fn port(self) -> u16 {
        match self {
            ProxyHostView::Socks4a { port, .. } => port,
            ProxyHostView::Socks5 { port, .. } => port,
            ProxyHostView::HttpTunnel { port, .. } => port,
        }
    }

    /// The address to connect to for this proxy.
    pub open spec fn host_address(self) -> HostAddressView {
        host_address_of(self.host(), self.port())
    }

    pub open spec fn type_str(self) -> Seq<char> {
        match self {
            ProxyHostView::Socks4a { .. } => "socks4a"@,
            ProxyHostView::Socks5 { .. } => "socks5"@,
            ProxyHostView::HttpTunnel { .. } => "http"@,
        }
    }

    pub open spec fn scheme_prefix(self) -> Seq<char> {
        match self {
            ProxyHostView::Socks4a { .. } => "socks4a://"@,
            ProxyHostView::Socks5 { .. } => "socks5://"@,
            ProxyHostView::HttpTunnel { .. } => "http://"@,
        }
    }

    /// The proxy's URL: its scheme, "://", the host, ':' and the port.
    pub open spec fn text(self) -> Seq<char> {
        self.scheme_prefix() + self.host() + seq![':'] + dec_text(self.port() as nat)
    }
}

impl Clone for ProxyHost {
    fn clone(&self) -> (r: ProxyHost)
        ensures
            r@ == self@,
    {
        match self {
            ProxyHost::Socks4a { host, port, id } => ProxyHost::Socks4a {
                host: host.clone(),
                port: *port,
                id: clone_opt_str(id),
            },
            ProxyHost::Socks5 { host, port, username, password } => ProxyHost::Socks5 {
                host: host.clone(),
                port: *port,
                username: clone_opt_str(username),
                password: clone_opt_str(password),
            },
            ProxyHost::HttpTunnel { host, port, user_agent, username, password } =>
                ProxyHost::HttpTunnel {
                host: host.clone(),
                port: *port,
                user_agent: clone_opt_str(user_agent),
                username: clone_opt_str(username),
                password: clone_opt_str(password),
            },
        }
    }
}

/// Why a text is not a proxy server's URL.
#[derive(Debug)]
pub enum ProxyHostError {
    NoHostName,
    NoPortNumber,
    ParseUrlError { source: url::ParseError },
    InvalidScheme { scheme: String },
}

pub enum ProxyHostErrorView {
    NoHostName,
    NoPortNumber,
    ParseUrlError,
    InvalidScheme { scheme: Seq<char> },
}

impl View for ProxyHostError {
    type V = ProxyHostErrorView;

    open spec fn view(&self) -> ProxyHostErrorView {
        match self {
            ProxyHostError::NoHostName => ProxyHostErrorView::NoHostName,
            ProxyHostError::NoPortNumber => ProxyHostErrorView::NoPortNumber,
            ProxyHostError::ParseUrlError { .. } => ProxyHostErrorView::ParseUrlError,
            ProxyHostError::InvalidScheme { scheme } => ProxyHostErrorView::InvalidScheme {
                scheme: scheme@,
            },
        }
    }
}

impl ProxyHostError {
    /// The text of the error; that of a URL that does not parse continues
    /// with the `url` crate's message.
    pub fn to_string(&self) -> (r: String)
        ensures
            match self@ {
                ProxyHostErrorView::NoHostName => r@ == "No host name"@,
                ProxyHostErrorView::NoPortNumber => r@ == "No port number"@,
                ProxyHostErrorView::ParseUrlError => "Could not parse URL, error: "@.is_prefix_of(r@),
                ProxyHostErrorView::InvalidScheme { scheme } => r@ == "Invalid scheme: "@ + scheme,
            },
    {
        let mut out: Vec<char> = Vec::new();
        match self {
            ProxyHostError::NoHostName => push_str(&mut out, "No host name"),
            ProxyHostError::NoPortNumber => push_str(&mut out, "No port number"),
            ProxyHostError::ParseUrlError { source } => {
                push_str(&mut out, "Could not parse URL, error: ");
                let t = crate::url_parts::url_error_text(source);
                push_str(&mut out, t.as_str());
                assert(out@.take(("Could not parse URL, error: "@).len() as int) =~= "Could not parse URL, error: "@);
            },
            ProxyHostError::InvalidScheme { scheme } => {
                push_str(&mut out, "Invalid scheme: ");
                push_str(&mut out, scheme.as_str());
            },
        }
        proof {
            if !(self@ is ParseUrlError) {
                assert(out@ =~= match self@ {
                    ProxyHostErrorView::NoHostName => "No host name"@,
                    ProxyHostErrorView::NoPortNumber => "No port number"@,
                    ProxyHostErrorView::InvalidScheme { scheme } => "Invalid scheme: "@ + scheme,
                    _ => out@,
                });
            }
        }
        string_of(out.as_slice())
    }
}

/// The proxy server that the parts of a URL give: its host, its port or the
/// scheme's default, the user name where it is not empty and the password;
/// the scheme chooses the kind.
pub open spec fn proxy_host_from_url(u: UrlPartsView) -> Result<ProxyHostView, ProxyHostErrorView> {
    match u.host {
        None => Err(ProxyHostErrorView::NoHostName),
        Some(host) => match known_port(u) {
            None => Err(ProxyHostErrorView::NoPortNumber),
            Some(port) => {
                let username = if u.username.len() != 0 {
                    Some(u.username)
                } else {
                    None
                };
                if u.scheme == "socks4a"@ || u.scheme == "socks4"@ {
                    Ok(ProxyHostView::Socks4a { host, port, id: None })
                } else if u.scheme == "socks5"@ {
                    Ok(ProxyHostView::Socks5 { host, port, username, password: u.password })
                } else if u.scheme == "http"@ {
                    Ok(
                        ProxyHostView::HttpTunnel {
                            host,
                            port,
                            username,
                            password: u.password,
                            user_agent: None,
                        },
                    )
                } else {
                    Err(ProxyHostErrorView::InvalidScheme { scheme: u.scheme })
                }
            },
        },
    }
}

/// The proxy server that a URL text names.
pub open spec fn proxy_host_from_text(text: Seq<char>) -> Result<ProxyHostView, ProxyHostErrorView> {
    match parsed_url(text) {
        None => Err(ProxyHostErrorView::ParseUrlError),
        Some(u) => proxy_host_from_url(u),
    }
}

pub open spec fn proxy_result_view(r: Result<ProxyHost, ProxyHostError>) -> Result<
    ProxyHostView,
    ProxyHostErrorView,
> {
    match r {
        Ok(p) => Ok(p@),
        Err(e) => Err(e@),
    }
}

impl ProxyHost {
    /// The proxy server's host.
    pub fn host(&self) -> (r: &str)
        ensures
            r@ == self@.host(),
    {
        match self {
            ProxyHost::HttpTunnel { host, .. } => host.as_str(),
            ProxyHost::Socks4a { host, .. } => host.as_str(),
            ProxyHost::Socks5 { host, .. } => host.as_str(),
        }
    }

    /// The proxy server's port.
    pub fn port(&self) -> (r: u16)
        ensures
            r == self@.port(),
    {
        match self {
            ProxyHost::HttpTunnel { port, .. } => *port,
            ProxyHost::Socks4a { port, .. } => *port,
            ProxyHost::Socks5 { port, .. } => *port,
        }
    }

    /// The address to connect to for this proxy server.
    pub fn host_address(&self) -> (r: HostAddress)
        ensures
            r@ == self@.host_address(),
    {
        let port = self.port();
        let host = self.host();
        HostAddress::new(host, port)
    }

    /// The kind of the proxy server: "socks4a", "socks5" or "http".
    pub fn proxy_type_str(&self) -> (r: &'static str)
        ensures
            r@ == self@.type_str(),
    {
        match self {
            ProxyHost::Socks4a { .. } => "socks4a",
            ProxyHost::Socks5 { .. } => "socks5",
            ProxyHost::HttpTunnel { .. } => "http",
        }
    }

    /// Reads a proxy server from its URL, such as `socks5://127.0.0.1:1080`.
    pub fn from_str(url: &str) -> (r: Result<ProxyHost, ProxyHostError>)
        ensures
            proxy_result_view(r) == proxy_host_from_text(url@),
    {
        match parse_url(url) {
            Ok(u) => ProxyHost::from_url(u),
            Err(source) => Err(ProxyHostError::ParseUrlError { source }),
        }
    }

    /// The proxy server that the parts of a parsed URL give: its host, its
    /// port or the scheme's default, the user name where it is not empty and
    /// the password; the scheme chooses the kind.
    pub fn from_url(u: UrlParts) -> (r: Result<ProxyHost, ProxyHostError>)
        ensures
            proxy_result_view(r) == proxy_host_from_url(u@),
    {
        let port_opt = u.port_or_known_default();
        let host = match u.host {
            Some(h) => h,
            None => return Err(ProxyHostError::NoHostName),
        };
        let port = match port_opt {
            Some(p) => p,
            None => return Err(ProxyHostError::NoPortNumber),
        };
        let username = if u.username.as_str().unicode_len() != 0 {
            Some(u.username)
        } else {
            None
        };
        let password = u.password;
        let scheme = u.scheme.as_str();
        if str_eq_str(scheme, "socks4a") || str_eq_str(scheme, "socks4") {
            Ok(ProxyHost::Socks4a { host, port, id: None })
        } else if str_eq_str(scheme, "socks5") {
            Ok(ProxyHost::Socks5 { host, port, username, password })
        } else if str_eq_str(scheme, "http") {
            Ok(ProxyHost::HttpTunnel { host, port, username, password, user_agent: None })
        } else {
            Err(ProxyHostError::InvalidScheme { scheme: u.scheme.clone() })
        }
    }

    /// The proxy server's URL, such as `socks5://127.0.0.1:1080`.
    pub fn to_string(&self) -> (r: String)
        ensures
            r@ == self@.text(),
    {
        let mut out: Vec<char> = Vec::new();
        match self {
            ProxyHost::Socks4a { .. } => push_str(&mut out, "socks4a://"),
            ProxyHost::Socks5 { .. } => push_str(&mut out, "socks5://"),
            ProxyHost::HttpTunnel { .. } => push_str(&mut out, "http://"),
        }
        push_str(&mut out, self.host());
        out.push(':');
        push_dec(&mut out, self.port() as u32);
        assert(out@ =~= self@.text());
        string_of(out.as_slice())
    }
}

/// How to reach hosts: through one proxy server, or through a chain of them.
#[derive(Debug, PartialEq, Eq, Hash)]
pub enum ProxyStrategy {
    Single(ProxyHost),
    Chained(Vec<ProxyHost>),
}

pub enum ProxyStrategyView {
    Single(ProxyHostView),
    Chained(Seq<ProxyHostView>),
}

pub open spec fn proxies_view(v: Seq<ProxyHost>) -> Seq<ProxyHostView> {
    v.map_values(|p: ProxyHost| p@)
}

impl View for ProxyStrategy {
    type V = ProxyStrategyView;

    open spec fn view(&self) -> ProxyStrategyView {
        match self {
            ProxyStrategy::Single(p) => ProxyStrategyView::Single(p@),
            ProxyStrategy::Chained(v) => ProxyStrategyView::Chained(proxies_view(v@)),
        }
    }
}

/// A copy of a list of proxy servers.
pub fn clone_proxies(v: &Vec<ProxyHost>) -> (r: Vec<ProxyHost>)
    ensures
        proxies_view(r@) == proxies_view(v@),
{
    let mut r: Vec<ProxyHost> = Vec::new();
    let mut i: usize = 0;
    while i < v.len()
        invariant
            i <= v@.len(),
            proxies_view(r@) == proxies_view(v@.take(i as int)),
        decreases v@.len() - i,
    {
        let ghost before = r@;
        let c = v[i].clone();
        r.push(c);
        assert(proxies_view(r@) =~= proxies_view(before).push(c@));
        i = i + 1;
        assert(proxies_view(r@) =~= proxies_view(v@.take(i as int)));
    }
    assert(v@.take(v@.len() as int) =~= v@);
    r
}

impl Clone for ProxyStrategy {
    fn clone(&self) -> (r: ProxyStrategy)
        ensures
            r@ == self@,
    {
        match self {
            ProxyStrategy::Single(p) => ProxyStrategy::Single(p.clone()),
            ProxyStrategy::Chained(v) => ProxyStrategy::Chained(clone_proxies(v)),
        }
    }
}

/// The texts of a chain of proxies, separated by " ➔ ".
pub open spec fn chain_text(v: Seq<ProxyHostView>) -> Seq<char>
    decreases v.len(),
{
    if v.len() == 0 {
        seq![]
    } else if v.len() == 1 {
        v[0].text()
    } else {
        chain_text(v.drop_last()) + " \u{2794} "@ + v.last().text()
    }
}

impl ProxyStrategyView {
    /// A single proxy's URL; a chain's URLs in brackets.
    pub open spec fn text(self) -> Seq<char> {
        match self {
            ProxyStrategyView::Single(p) => p.text(),
            ProxyStrategyView::Chained(v) => seq!['['] + chain_text(v) + seq![']'],
        }
    }
}

impl ProxyStrategy {
    /// A single proxy's URL; a chain's URLs in brackets, separated by " ➔ ".
    pub fn to_string(&self) -> (r: String)
        ensures
            r@ == self@.text(),
    {
        match self {
            ProxyStrategy::Single(p) => p.to_string(),
            ProxyStrategy::Chained(chain) => {
                let mut out: Vec<char> = Vec::new();
                out.push('[');
                let mut i: usize = 0;
                while i < chain.len()
                    invariant
                        i <= chain@.len(),
                        out@ == seq!['['] + chain_text(proxies_view(chain@.take(i as int))),
                    decreases chain@.len() - i,
                {
                    if i > 0 {
                        push_str(&mut out, " \u{2794} ");
                    }
                    let t = chain[i].to_string();
                    let tc = chars_of(t.as_str());
                    push_all(&mut out, tc.as_slice());
                    proof {
                        let before = proxies_view(chain@.take(i as int));
                        let after = proxies_view(chain@.take(i + 1));
                        assert(after.drop_last() =~= before);
                        assert(after.last() == chain@[i as int]@);
                        if i == 0 {
                            assert(before.len() == 0);
                        }
                    }
                    i = i + 1;
                    assert(out@ =~= seq!['['] + chain_text(proxies_view(chain@.take(i as int))));
                }
                out.push(']');
                assert(chain@.take(chain@.len() as int) =~= chain@);
                assert(out@ =~= self@.text());
                string_of(out.as_slice())
            },
        }
    }
}

/// The user name and password a proxy server is reached with: none for a
/// SOCKS4a server.
pub open spec fn credentials(p: ProxyHostView) -> Option<(Option<Seq<char>>, Option<Seq<char>>)> {
    match p {
        ProxyHostView::Socks4a { .. } => None,
        ProxyHostView::Socks5 { username, password, .. } => Some((username, password)),
        ProxyHostView::HttpTunnel { username, password, .. } => Some((username, password)),
    }
}

/// A proxy server read from a URL keeps the URL's host, and its port or
/// the scheme's default; the scheme decides the kind (`socks4a` and
/// `socks4`, `socks5`, `http`); a SOCKS5 or HTTP-tunnel server has the
/// URL's user name exactly when it is not empty, and the URL's password.
pub proof fn law_proxy_from_url_parts(u: UrlPartsView)
    ensures
        proxy_host_from_url(u) matches Ok(p) ==> {
            &&& u.host == Some(p.host())
            &&& known_port(u) == Some(p.port())
            &&& (p is Socks4a <==> (u.scheme == "socks4a"@ || u.scheme == "socks4"@))
            &&& (p is Socks5 <==> u.scheme == "socks5"@)
            &&& (p is HttpTunnel <==> u.scheme == "http"@)
            &&& match credentials(p) {
                Some((username, password)) => {
                    &&& (username is Some <==> u.username.len() > 0)
                    &&& (username matches Some(n) ==> n == u.username)
                    &&& password == u.password
                },
                None => p is Socks4a,
            }
        },
        u.host is Some && known_port(u) is Some && (u.scheme == "socks4a"@ || u.scheme == "socks4"@
            || u.scheme == "socks5"@ || u.scheme == "http"@) ==> proxy_host_from_url(u) is Ok,
{
    reveal_strlit("socks4a");
    reveal_strlit("socks4");
    reveal_strlit("socks5");
    reveal_strlit("http");
    assert("socks4"@ != "socks5"@) by {
        assert("socks4"@[5] != "socks5"@[5]);
    }
    assert("socks4a"@.len() == 7 && "socks5"@.len() == 6 && "socks4"@.len() == 6 && "http"@.len()
        == 4);
    assert("socks4a"@ != "socks5"@);
    assert("socks4a"@ != "http"@);
    assert("socks4"@ != "http"@);
    assert("socks5"@ != "http"@);
}

}
