//! The configuration of the proxy checker, the probes named on the command
//! line, and files of proxy servers.
use vstd::prelude::*;

use crate::checker::prober::{BasicProber, HttpProber, LivenessProber, Prober, ProberView};
use crate::checker::error::report_error_text;
use crate::checker::prober::http::method_name;
use crate::checker::prober::{BasicProberReport, HttpProberReport};
use crate::checker::report::{basic_reports_of, http_reports_of, TaskReport};
use crate::common::host_address::host_address_text;
use crate::text::{dec_text, push_dec};
use crate::checker::error::ReportError;
use crate::checker::simple::{probers_view, SimpleProxyChecker};
use crate::command::proxy_chain::FileFormat;
use crate::command::Error;
use crate::common::host_address::{host_address_from_text, HostAddress, HostAddressErrorView, HostAddressView};
use crate::common::proxy::{proxies_view, proxy_host_from_text, ProxyHost, ProxyHostView};
use crate::common::utils::Duration;
use crate::text::{chars_of, lines_chars, lines_of, lowercase, parse_u16, parse_u16_text, split_chars, split_on, starts_with_chars, str_eq_str, string_of, to_lowercase, trim, trim_chars};
use crate::url_parts::{parse_url, parsed_url};

verus! {

/// A probe as a configuration names it.
#[derive(Clone, Debug)]
pub enum ProberConfig {
    Liveness,
    Basic { destination_address: HostAddress },
    HttpGet { url: String, expected_response_code: u16 },
    HttpHead { url: String, expected_response_code: u16 },
    HttpDelete { url: String, expected_response_code: u16 },
}

pub enum ProberConfigView {
    Liveness,
    Basic { destination_address: HostAddressView },
    HttpGet { url: Seq<char>, expected_response_code: u16 },
    HttpHead { url: Seq<char>, expected_response_code: u16 },
    HttpDelete { url: Seq<char>, expected_response_code: u16 },
}

impl View for ProberConfig {
    type V = ProberConfigView;

    open spec fn view(&self) -> ProberConfigView {
        match self {
            ProberConfig::Liveness => ProberConfigView::Liveness,
            ProberConfig::Basic { destination_address } => ProberConfigView::Basic {
                destination_address: destination_address@,
            },
            ProberConfig::HttpGet { url, expected_response_code } => ProberConfigView::HttpGet {
                url: url@,
                expected_response_code: *expected_response_code,
            },
            ProberConfig::HttpHead { url, expected_response_code } => ProberConfigView::HttpHead {
                url: url@,
                expected_response_code: *expected_response_code,
            },
            ProberConfig::HttpDelete { url, expected_response_code } =>
                ProberConfigView::HttpDelete {
                url: url@,
                expected_response_code: *expected_response_code,
            },
        }
    }
}

/// Why a text does not name a probe.
pub enum ProberTextError {
    /// Not a probe.
    Invalid,
    /// A basic probe whose destination is not an address.
    Destination(HostAddressErrorView),
}

/// The pieces of a text between commas, each trimmed.
pub open spec fn trimmed_parts(s: Seq<char>) -> Seq<Seq<char>> {
    split_on(s, ',').map_values(|p: Seq<char>| trim(p))
}

/// The probe a text names: pieces separated by commas, each trimmed; the
/// first, in lower case, is the kind.
pub open spec fn prober_config_of(s: Seq<char>) -> Result<ProberConfigView, ProberTextError> {
    prober_config_from(lowercase(trimmed_parts(s)[0]), trimmed_parts(s))
}

/// The probe that pieces name, `kind` being the first in lower case.
/// `http-get`, `http-head` and `http-delete` take a URL and an expected
/// status code; `liveness` takes nothing; `basic` takes a destination
/// address.
pub open spec fn prober_config_from(kind: Seq<char>, parts: Seq<Seq<char>>) -> Result<
    ProberConfigView,
    ProberTextError,
> {
    if kind.len() >= 4 && kind.take(4) == "http"@ {
        if parts.len() < 3 {
            Err(ProberTextError::Invalid)
        } else {
            match parse_u16_text(parts[2]) {
                Err(_) => Err(ProberTextError::Invalid),
                Ok(code) => if kind == "http-get"@ {
                    Ok(ProberConfigView::HttpGet { url: parts[1], expected_response_code: code })
                } else if kind == "http-head"@ {
                    Ok(ProberConfigView::HttpHead { url: parts[1], expected_response_code: code })
                } else if kind == "http-delete"@ {
                    Ok(
                        ProberConfigView::HttpDelete {
                            url: parts[1],
                            expected_response_code: code,
                        },
                    )
                } else {
                    Err(ProberTextError::Invalid)
                },
            }
        }
    } else if kind == "liveness"@ {
        Ok(ProberConfigView::Liveness)
    } else if kind == "basic"@ {
        if parts.len() < 2 {
            Err(ProberTextError::Invalid)
        } else {
            match host_address_from_text(parts[1]) {
                Ok(a) => Ok(ProberConfigView::Basic { destination_address: a }),
                Err(e) => Err(ProberTextError::Destination(e)),
            }
        }
    } else {
        Err(ProberTextError::Invalid)
    }
}

/// Whether `r` is how `from_str` answers for a text `s` that names what
/// `expected` says.
pub open spec fn prober_text_result(
    r: Result<ProberConfig, Error>,
    s: Seq<char>,
    expected: Result<ProberConfigView, ProberTextError>,
) -> bool {
    match expected {
        Ok(v) => r matches Ok(c) && c@ == v,
        Err(ProberTextError::Invalid) => r matches Err(Error::InvalidProxyProber { prober })
            && prober@ == s,
        Err(ProberTextError::Destination(e)) => r matches Err(Error::ParseHostAddress { source })
            && source@ == e,
    }
}

/// The texts of pieces.
pub open spec fn texts_of(v: Seq<Vec<char>>) -> Seq<Seq<char>> {
    v.map_values(|p: Vec<char>| p@)
}

fn trimmed_pieces(s: &str) -> (r: Vec<Vec<char>>)
    ensures
        r@.len() == split_on(s@, ',').len(),
        forall|k: int| 0 <= k < r@.len() ==> #[trigger] r@[k]@ == trim(split_on(s@, ',')[k]),
{
    let cs = chars_of(s);
    let pieces = split_chars(cs.as_slice(), ',');
    let mut out: Vec<Vec<char>> = Vec::new();
    let mut i: usize = 0;
    while i < pieces.len()
        invariant
            i <= pieces@.len(),
            cs@ == s@,
            pieces@.len() == split_on(s@, ',').len(),
            forall|k: int| 0 <= k < pieces@.len() ==> #[trigger] pieces@[k]@ == split_on(s@, ',')[k],
            out@.len() == i,
            forall|k: int| 0 <= k < i ==> #[trigger] out@[k]@ == trim(split_on(s@, ',')[k]),
        decreases pieces@.len() - i,
    {
        let t = trim_chars(pieces[i].as_slice());
        out.push(t);
        i = i + 1;
    }
    out
}

impl ProberConfig {
    /// The probe a text names.
    pub fn from_str(s: &str) -> (r: Result<ProberConfig, Error>)
        ensures
            prober_text_result(r, s@, prober_config_of(s@)),
    {
        let parts = trimmed_pieces(s);
        proof {
            crate::text::lemma_split_on_len(s@, ',');
            assert(texts_of(parts@) =~= trimmed_parts(s@));
        }
        let first = string_of(parts[0].as_slice());
        let lower = to_lowercase(first.as_str());
        ProberConfig::from_pieces(s, lower.as_str(), &parts)
    }

    /// The probe that the pieces of the text `s` name, `kind` being the
    /// first piece in lower case.
    pub fn from_pieces(s: &str, kind: &str, parts: &Vec<Vec<char>>) -> (r: Result<
        ProberConfig,
        Error,
    >)
        ensures
            prober_text_result(r, s@, prober_config_from(kind@, texts_of(parts@))),
    {
        let ghost pv = texts_of(parts@);
        let kind_chars = chars_of(kind);
        let http = vec!['h', 't', 't', 'p'];
        proof {
            reveal_strlit("http");
            assert(http@ =~= "http"@);
        }
        if starts_with_chars(kind_chars.as_slice(), http.as_slice()) {
            if parts.len() < 3 {
                return Err(Error::InvalidProxyProber { prober: String::from_str(s) });
            }
            let url = string_of(parts[1].as_slice());
            assert(pv[1] == parts@[1]@);
            assert(pv[2] == parts@[2]@);
            let expected_response_code = match parse_u16(parts[2].as_slice()) {
                Ok(c) => c,
                Err(_) => return Err(Error::InvalidProxyProber { prober: String::from_str(s) }),
            };
            if str_eq_str(kind, "http-get") {
                Ok(ProberConfig::HttpGet { url, expected_response_code })
            } else if str_eq_str(kind, "http-head") {
                Ok(ProberConfig::HttpHead { url, expected_response_code })
            } else if str_eq_str(kind, "http-delete") {
                Ok(ProberConfig::HttpDelete { url, expected_response_code })
            } else {
                Err(Error::InvalidProxyProber { prober: String::from_str(s) })
            }
        } else if str_eq_str(kind, "liveness") {
            Ok(ProberConfig::Liveness)
        } else if str_eq_str(kind, "basic") {
            if parts.len() < 2 {
                return Err(Error::InvalidProxyProber { prober: String::from_str(s) });
            }
            assert(pv[1] == parts@[1]@);
            let dest = string_of(parts[1].as_slice());
            match HostAddress::from_str(dest.as_str()) {
                Ok(destination_address) => Ok(ProberConfig::Basic { destination_address }),
                Err(source) => Err(Error::ParseHostAddress { source }),
            }
        } else {
            Err(Error::InvalidProxyProber { prober: String::from_str(s) })
        }
    }
}

/// The probe a named probe makes, for a URL as `url` parses it.
pub open spec fn prober_of(c: ProberConfigView) -> Option<ProberView> {
    match c {
        ProberConfigView::Liveness => Some(ProberView::Liveness),
        ProberConfigView::Basic { destination_address } => Some(
            ProberView::Basic { destination: destination_address },
        ),
        ProberConfigView::HttpGet { url, expected_response_code } => match parsed_url(url) {
            Some(u) => Some(
                ProberView::Http {
                    method: crate::checker::prober::HttpMethod::Get,
                    url: u,
                    expected_response_code,
                },
            ),
            None => None,
        },
        ProberConfigView::HttpHead { url, expected_response_code } => match parsed_url(url) {
            Some(u) => Some(
                ProberView::Http {
                    method: crate::checker::prober::HttpMethod::Head,
                    url: u,
                    expected_response_code,
                },
            ),
            None => None,
        },
        ProberConfigView::HttpDelete { url, expected_response_code } => match parsed_url(url) {
            Some(u) => Some(
                ProberView::Http {
                    method: crate::checker::prober::HttpMethod::Delete,
                    url: u,
                    expected_response_code,
                },
            ),
            None => None,
        },
    }
}

/// The URL of a named HTTP probe.
pub open spec fn config_url(c: ProberConfigView) -> Seq<char> {
    match c {
        ProberConfigView::HttpGet { url, .. } => url,
        ProberConfigView::HttpHead { url, .. } => url,
        ProberConfigView::HttpDelete { url, .. } => url,
        _ => Seq::empty(),
    }
}

impl ProberConfig {
    /// The probe named; an HTTP probe whose URL does not parse is refused.
    pub fn try_into(self) -> (r: Result<Prober, Error>)
        ensures
            match prober_of(self@) {
                Some(p) => r matches Ok(q) && q@ == p,
                None => r matches Err(Error::ParseUrl { url, .. }) && url@ == config_url(self@),
            },
    {
        match self {
            ProberConfig::Liveness => Ok(Prober::Liveness(LivenessProber)),
            ProberConfig::Basic { destination_address } => Ok(
                Prober::Basic(BasicProber::new(destination_address)),
            ),
            ProberConfig::HttpGet { url, expected_response_code } => match parse_url(
                url.as_str(),
            ) {
                Ok(u) => Ok(Prober::Http(HttpProber::get(u, expected_response_code))),
                Err(source) => Err(Error::ParseUrl { source, url }),
            },
            ProberConfig::HttpHead { url, expected_response_code } => match parse_url(
                url.as_str(),
            ) {
                Ok(u) => Ok(Prober::Http(HttpProber::head(u, expected_response_code))),
                Err(source) => Err(Error::ParseUrl { source, url }),
            },
            ProberConfig::HttpDelete { url, expected_response_code } => match parse_url(
                url.as_str(),
            ) {
                Ok(u) => Ok(Prober::Http(HttpProber::delete(u, expected_response_code))),
                Err(source) => Err(Error::ParseUrl { source, url }),
            },
        }
    }
}

/// A file of proxy servers.
#[derive(Clone, Debug, PartialEq, Eq)]
pub struct ProxyServerFile {
    pub proxy_servers: Vec<ProxyHost>,
}

/// The proxy servers that lines of text name: each line trimmed and read as
/// a proxy's URL; lines that are not are left out.
pub open spec fn proxies_in_lines(lines: Seq<Seq<char>>) -> Seq<ProxyHostView>
    decreases lines.len(),
{
    if lines.len() == 0 {
        Seq::empty()
    } else {
        let rest = proxies_in_lines(lines.drop_last());
        match proxy_host_from_text(trim(lines.last())) {
            Ok(p) => rest.push(p),
            Err(_) => rest,
        }
    }
}

/// Lines are read one by one, in order: no more servers than lines, and
/// where every trimmed line names a server, the servers are those, in the
/// order of the lines.
pub proof fn law_lines_read_in_order(lines: Seq<Seq<char>>)
    ensures
        proxies_in_lines(lines).len() <= lines.len(),
        (forall|i: int| 0 <= i < lines.len() ==> #[trigger] proxy_host_from_text(trim(lines[i])) is Ok)
            ==> proxies_in_lines(lines).len() == lines.len() && forall|i: int|
            0 <= i < lines.len() ==> Ok::<ProxyHostView, crate::common::proxy::ProxyHostErrorView>(
                #[trigger] proxies_in_lines(lines)[i],
            ) == proxy_host_from_text(trim(lines[i])),
    decreases lines.len(),
{
    if lines.len() > 0 {
        let rest = lines.drop_last();
        law_lines_read_in_order(rest);
        if forall|i: int| 0 <= i < lines.len() ==> #[trigger] proxy_host_from_text(trim(lines[i])) is Ok {
            assert forall|i: int| 0 <= i < rest.len() implies #[trigger] proxy_host_from_text(trim(rest[i])) is Ok by {
                assert(rest[i] == lines[i]);
            }
            assert(proxy_host_from_text(trim(lines[lines.len() - 1])) is Ok);
        }
    }
}

impl ProxyServerFile {
    /// The proxy servers named by the lines of a text, one per line, lines
    /// that name none left out.
    pub fn from_text(text: &str) -> (r: Result<ProxyServerFile, Error>)
        ensures
            r matches Ok(f) && proxies_view(f.proxy_servers@) == proxies_in_lines(lines_of(text@)),
    {
        let cs = chars_of(text);
        let lines = lines_chars(cs.as_slice());
        let ghost ls = lines_of(text@);
        let mut proxy_servers: Vec<ProxyHost> = Vec::new();
        let mut i: usize = 0;
        while i < lines.len()
            invariant
                i <= lines@.len(),
                lines@.len() == ls.len(),
                forall|k: int| 0 <= k < lines@.len() ==> #[trigger] lines@[k]@ == ls[k],
                proxies_view(proxy_servers@) == proxies_in_lines(ls.take(i as int)),
            decreases lines@.len() - i,
        {
            let t = trim_chars(lines[i].as_slice());
            let line = string_of(t.as_slice());
            let ghost before = proxy_servers@;
            assert(ls.take(i + 1).drop_last() =~= ls.take(i as int));
            assert(ls.take(i + 1).last() == lines@[i as int]@);
            match ProxyHost::from_str(line.as_str()) {
                Ok(p) => {
                    proxy_servers.push(p);
                    assert(proxies_view(proxy_servers@) =~= proxies_view(before).push(p@));
                },
                Err(_) => {},
            }
            i = i + 1;
        }
        assert(ls.take(i as int) =~= ls);
        Ok(ProxyServerFile { proxy_servers })
    }

    /// The format of a file of proxy servers: `txt`, `json` or `toml` by
    /// its extension; a file without one cannot be read, one with another
    /// is not supported.
    pub fn format(extension: Option<&str>, file_path: &str) -> (r: Result<FileFormat, Error>)
        ensures
            match extension {
                None => r matches Err(Error::DetectProxyChainFormat { file_path: p }) && p@
                    == file_path@,
                Some(ext) => if ext@ == "txt"@ {
                    r == Ok::<FileFormat, Error>(FileFormat::Text)
                } else if ext@ == "json"@ {
                    r == Ok::<FileFormat, Error>(FileFormat::Json)
                } else if ext@ == "toml"@ {
                    r == Ok::<FileFormat, Error>(FileFormat::Toml)
                } else {
                    r matches Err(Error::ProxyChainFormatNotSupported { format }) && format@
                        == ext@
                },
            },
    {
        match extension {
            None => Err(Error::DetectProxyChainFormat { file_path: String::from_str(file_path) }),
            Some(ext) => {
                if str_eq_str(ext, "txt") {
                    Ok(FileFormat::Text)
                } else if str_eq_str(ext, "json") {
                    Ok(FileFormat::Json)
                } else if str_eq_str(ext, "toml") {
                    Ok(FileFormat::Toml)
                } else {
                    Err(Error::ProxyChainFormatNotSupported { format: String::from_str(ext) })
                }
            },
        }
    }
}

/// Options of the proxy checker given on the command line.
#[derive(Clone, Debug)]
pub struct Options {
    pub proxy_servers: Vec<ProxyHost>,
    pub proxy_server_file: Option<String>,
    pub output_path: Option<String>,
    pub probers: Vec<ProberConfig>,
    /// In milliseconds.
    pub max_timeout_per_probe: Option<u64>,
}

/// The configuration of the proxy checker.
#[derive(Clone, Debug)]
pub struct Config {
    pub proxy_servers: Vec<ProxyHost>,
    pub proxy_server_file: Option<String>,
    pub probers: Vec<ProberConfig>,
    pub max_timeout_per_probe: Option<Duration>,
}

/// The views of named probes.
pub open spec fn configs_view(v: Seq<ProberConfig>) -> Seq<ProberConfigView> {
    v.map_values(|c: ProberConfig| c@)
}

impl Default for Config {
    /// No proxy server; the probes liveness and `GET https://httpbin.org/ip`
    /// expecting 200; 1.5 s per probe.
    fn default() -> (r: Config)
        ensures
            r.proxy_servers@.len() == 0,
            r.proxy_server_file is None,
            configs_view(r.probers@) == seq![
                ProberConfigView::Liveness,
                ProberConfigView::HttpGet {
                    url: "https://httpbin.org/ip"@,
                    expected_response_code: 200,
                },
            ],
            r.max_timeout_per_probe matches Some(d) && d@ == 1_500_000_000,
    {
        let mut probers: Vec<ProberConfig> = Vec::new();
        probers.push(ProberConfig::Liveness);
        probers.push(
            ProberConfig::HttpGet {
                url: String::from_str("https://httpbin.org/ip"),
                expected_response_code: 200,
            },
        );
        let r = Config {
            proxy_servers: Vec::new(),
            proxy_server_file: None,
            probers,
            max_timeout_per_probe: Some(Duration::from_millis(1500)),
        };
        assert(configs_view(r.probers@) =~= seq![
            ProberConfigView::Liveness,
            ProberConfigView::HttpGet {
                url: "https://httpbin.org/ip"@,
                expected_response_code: 200,
            },
        ]);
        r
    }
}

impl Config {
    /// The configuration with the options given on the command line: a
    /// non-empty list of servers or of probes, a file and a time limit take
    /// the place of the configured ones.
    pub fn merge(self, opts: Options) -> (r: Config)
        ensures
            r.proxy_servers == if opts.proxy_servers@.len() > 0 {
                opts.proxy_servers
            } else {
                self.proxy_servers
            },
            r.probers == if opts.probers@.len() > 0 {
                opts.probers
            } else {
                self.probers
            },
            r.proxy_server_file == if opts.proxy_server_file is Some {
                opts.proxy_server_file
            } else {
                self.proxy_server_file
            },
            match opts.max_timeout_per_probe {
                Some(ms) => r.max_timeout_per_probe matches Some(d) && d@ == ms * 1_000_000,
                None => r.max_timeout_per_probe == self.max_timeout_per_probe,
            },
    {
        let mut c = self;
        let Options { proxy_servers, proxy_server_file, output_path: _, probers, max_timeout_per_probe } =
            opts;
        if proxy_servers.len() > 0 {
            c.proxy_servers = proxy_servers;
        }
        if probers.len() > 0 {
            c.probers = probers;
        }
        if proxy_server_file.is_some() {
            c.proxy_server_file = proxy_server_file;
        }
        if let Some(ms) = max_timeout_per_probe {
            c.max_timeout_per_probe = Some(Duration::from_millis(ms));
        }
        c
    }
}

/// The probes that named probes make, those whose URL does not parse left
/// out.
pub open spec fn probers_of(configs: Seq<ProberConfigView>) -> Seq<ProberView>
    decreases configs.len(),
{
    if configs.len() == 0 {
        Seq::empty()
    } else {
        let rest = probers_of(configs.drop_last());
        match prober_of(configs.last()) {
            Some(p) => rest.push(p),
            None => rest,
        }
    }
}

/// The checkers to run: one per proxy server (those of the file where one
/// was loaded, else those configured), each with every probe that can be
/// made. No server, or no probe, is refused.
pub fn checkers(config: Config, file: Option<ProxyServerFile>) -> (r: Result<
    Vec<SimpleProxyChecker>,
    Error,
>)
    ensures
        ({
            let servers = match file {
                Some(f) => f.proxy_servers@,
                None => config.proxy_servers@,
            };
            let probers = probers_of(configs_view(config.probers@));
            if servers.len() == 0 {
                r matches Err(Error::NoProxyHostProvided)
            } else if probers.len() == 0 {
                r matches Err(Error::NoProxyProberProvided)
            } else {
                r matches Ok(cs) && cs@.len() == servers.len() && forall|i: int|
                    0 <= i < cs@.len() ==> #[trigger] cs@[i].proxy_server_spec() == servers[i]@
                        && cs@[i].probers_spec() == probers
            }
        }),
{
    let proxy_servers = match file {
        Some(f) => f.proxy_servers,
        None => config.proxy_servers,
    };
    if proxy_servers.len() == 0 {
        return Err(Error::NoProxyHostProvided);
    }
    let ghost cv = configs_view(config.probers@);
    let mut probers: Vec<Prober> = Vec::new();
    let ghost all = config.probers@;
    for c in it: config.probers
        invariant
            it.seq() == all,
            cv == configs_view(all),
            probers_view(probers@) == probers_of(cv.take(it.index() as int)),
    {
        assert(cv.take(it.index() + 1).drop_last() =~= cv.take(it.index() as int));
        assert(cv.take(it.index() + 1).last() == c@);
        let ghost before = probers@;
        match c.try_into() {
            Ok(p) => {
                probers.push(p);
                assert(probers_view(probers@) =~= probers_view(before).push(p@));
            },
            Err(_) => {},
        }
    }
    assert(cv.take(cv.len() as int) =~= cv);
    if probers.len() == 0 {
        return Err(Error::NoProxyProberProvided);
    }
    let mut checkers: Vec<SimpleProxyChecker> = Vec::new();
    let mut j: usize = 0;
    while j < proxy_servers.len()
        invariant
            j <= proxy_servers@.len(),
            checkers@.len() == j,
            forall|k: int|
                0 <= k < j ==> #[trigger] checkers@[k].proxy_server_spec() == proxy_servers@[k]@
                    && checkers@[k].probers_spec() == probers_view(probers@),
        decreases proxy_servers@.len() - j,
    {
        let c = SimpleProxyChecker::with_probers(proxy_servers[j].clone(), probers.as_slice());
        checkers.push(c);
        j = j + 1;
    }
    Ok(checkers)
}

/// The proxy servers that answered, in order.
pub open spec fn alive_servers(reports: Seq<TaskReport>) -> Seq<ProxyHostView>
    decreases reports.len(),
{
    if reports.len() == 0 {
        Seq::empty()
    } else {
        let rest = alive_servers(reports.drop_last());
        if reports.last().liveness_report.alive {
            rest.push(reports.last().proxy_server@)
        } else {
            rest
        }
    }
}

/// The proxy servers that answered, in order, to be written to a file.
pub fn available_proxy_servers(reports: &[TaskReport]) -> (r: ProxyServerFile)
    ensures
        proxies_view(r.proxy_servers@) == alive_servers(reports@),
{
    let mut proxy_servers: Vec<ProxyHost> = Vec::new();
    let mut i: usize = 0;
    while i < reports.len()
        invariant
            i <= reports@.len(),
            proxies_view(proxy_servers@) == alive_servers(reports@.take(i as int)),
        decreases reports@.len() - i,
    {
        assert(reports@.take(i + 1).drop_last() =~= reports@.take(i as int));
        let ghost before = proxy_servers@;
        if reports[i].is_proxy_server_alive() {
            let p = reports[i].proxy_server.clone();
            proxy_servers.push(p);
            assert(proxies_view(proxy_servers@) =~= proxies_view(before).push(p@));
        }
        i = i + 1;
    }
    assert(reports@.take(i as int) =~= reports@);
    ProxyServerFile { proxy_servers }
}

/// A table of text: a header and rows of cells.
#[derive(Clone, Debug)]
pub struct Table {
    pub header: Vec<String>,
    pub rows: Vec<Vec<String>>,
}

pub struct TableView {
    pub header: Seq<Seq<char>>,
    pub rows: Seq<Seq<Seq<char>>>,
}

/// The texts of strings.
pub open spec fn texts(v: Seq<String>) -> Seq<Seq<char>> {
    v.map_values(|s: String| s@)
}

impl View for Table {
    type V = TableView;

    open spec fn view(&self) -> TableView {
        TableView {
            header: texts(self.header@),
            rows: self.rows@.map_values(|row: Vec<String>| texts(row@)),
        }
    }
}

/// `true` or `false`.
pub open spec fn bool_text(b: bool) -> Seq<char> {
    if b {
        "true"@
    } else {
        "false"@
    }
}

/// The text of a report's error; empty where there is none.
pub open spec fn error_cell(e: Option<ReportError>) -> Seq<char> {
    match e {
        Some(x) => report_error_text(x),
        None => Seq::empty(),
    }
}

/// The table of a proxy server: its URL, kind, host, port, whether it
/// answered and the error of its liveness probe.
pub open spec fn server_table(report: TaskReport) -> TableView {
    let p = report.proxy_server@;
    TableView {
        header: seq!["Server"@, "Type"@, "Host"@, "Port"@, "Alive"@, "Error"@],
        rows: seq![
            seq![
                p.text(),
                p.type_str(),
                p.host(),
                dec_text(p.port() as nat),
                bool_text(report.liveness_report.alive),
                error_cell(report.liveness_report.error),
            ],
        ],
    }
}

/// The row of a basic probe: an empty cell, the destination, whether it
/// was reached, the error.
pub open spec fn basic_row(r: BasicProberReport) -> Seq<Seq<char>> {
    seq![
        Seq::empty(),
        match r.destination {
            Some(d) => host_address_text(d@),
            None => Seq::empty(),
        },
        bool_text(r.destination_reachable),
        error_cell(r.error),
    ]
}

/// The row of an HTTP probe: an empty cell, the method, the URL, the
/// status code (`N/A` where there is none), the error.
pub open spec fn http_row(r: HttpProberReport) -> Seq<Seq<char>> {
    seq![
        Seq::empty(),
        match r.method {
            Some(m) => method_name(m),
            None => Seq::empty(),
        },
        match r.url {
            Some(u) => u@.serialization,
            None => Seq::empty(),
        },
        match r.response_code {
            Some(c) => dec_text(c as nat),
            None => "N/A"@,
        },
        error_cell(r.error),
    ]
}

/// The tables of one proxy server: its own; that of its basic probes where
/// there are any; that of its HTTP probes where there are any.
pub open spec fn tables_of_report(report: TaskReport) -> Seq<TableView> {
    let basic = basic_reports_of(report.prober_reports@);
    let http = http_reports_of(report.prober_reports@);
    seq![server_table(report)] + (if basic.len() != 0 {
        seq![
            TableView {
                header: seq!["Basic Probe"@, "Destination"@, "Connected"@, "Error"@],
                rows: basic.map_values(|b: BasicProberReport| basic_row(b)),
            },
        ]
    } else {
        Seq::empty()
    }) + (if http.len() != 0 {
        seq![
            TableView {
                header: seq!["HTTP Probe"@, "Method "@, "URL"@, "Resp. Code"@, "Error"@],
                rows: http.map_values(|h: HttpProberReport| http_row(h)),
            },
        ]
    } else {
        Seq::empty()
    })
}

/// The tables of the reports, report by report.
pub open spec fn report_tables_of(reports: Seq<TaskReport>) -> Seq<TableView>
    decreases reports.len(),
{
    if reports.len() == 0 {
        Seq::empty()
    } else {
        report_tables_of(reports.drop_last()) + tables_of_report(reports.last())
    }
}

fn text_of(s: &str) -> (r: String)
    ensures
        r@ == s@,
{
    String::from_str(s)
}

fn bool_string(b: bool) -> (r: String)
    ensures
        r@ == bool_text(b),
{
    if b {
        String::from_str("true")
    } else {
        String::from_str("false")
    }
}

fn dec_string(n: u16) -> (r: String)
    ensures
        r@ == dec_text(n as nat),
{
    let mut out: Vec<char> = Vec::new();
    push_dec(&mut out, n as u32);
    assert(out@ =~= dec_text(n as nat));
    string_of(out.as_slice())
}

fn error_string(e: &Option<ReportError>) -> (r: String)
    ensures
        r@ == error_cell(*e),
{
    match e {
        Some(x) => x.to_string(),
        None => String::new(),
    }
}

fn server_table_of(report: &TaskReport) -> (r: Table)
    ensures
        r@ == server_table(*report),
{
    let p = &report.proxy_server;
    let header = vec![
        text_of("Server"),
        text_of("Type"),
        text_of("Host"),
        text_of("Port"),
        text_of("Alive"),
        text_of("Error"),
    ];
    let row = vec![
        p.to_string(),
        text_of(p.proxy_type_str()),
        text_of(p.host()),
        dec_string(p.port()),
        bool_string(report.liveness_report.alive),
        error_string(&report.liveness_report.error),
    ];
    let rows = vec![row];
    let t = Table { header, rows };
    assert(t@.header =~= server_table(*report).header);
    assert(t@.rows[0] =~= server_table(*report).rows[0]);
    assert(t@.rows =~= server_table(*report).rows);
    t
}

fn basic_row_of(r: &BasicProberReport) -> (x: Vec<String>)
    ensures
        texts(x@) == basic_row(*r),
{
    let destination = match &r.destination {
        Some(d) => d.to_string(),
        None => String::new(),
    };
    let x = vec![String::new(), destination, bool_string(r.destination_reachable), error_string(&r.error)];
    assert(texts(x@) =~= basic_row(*r));
    x
}

fn http_row_of(r: &HttpProberReport) -> (x: Vec<String>)
    ensures
        texts(x@) == http_row(*r),
{
    let method = match &r.method {
        Some(m) => m.to_string(),
        None => String::new(),
    };
    let url = match &r.url {
        Some(u) => u.serialization.clone(),
        None => String::new(),
    };
    let code = match r.response_code {
        Some(c) => dec_string(c),
        None => text_of("N/A"),
    };
    let x = vec![String::new(), method, url, code, error_string(&r.error)];
    assert(texts(x@) =~= http_row(*r));
    x
}

/// The tables of one proxy server's report.
pub fn report_tables(report: &TaskReport) -> (r: Vec<Table>)
    ensures
        r@.map_values(|t: Table| t@) == tables_of_report(*report),
{
    let mut tables: Vec<Table> = Vec::new();
    tables.push(server_table_of(report));
    let basic = report.basic_reports();
    let ghost bseq = basic_reports_of(report.prober_reports@);
    if basic.len() != 0 {
        let mut rows: Vec<Vec<String>> = Vec::new();
        let mut i: usize = 0;
        while i < basic.len()
            invariant
                i <= basic@.len(),
                basic@.map_values(|x: &BasicProberReport| *x) == bseq,
                rows@.map_values(|row: Vec<String>| texts(row@)) == bseq.take(i as int).map_values(
                    |b: BasicProberReport| basic_row(b),
                ),
            decreases basic@.len() - i,
        {
            let row = basic_row_of(basic[i]);
            let ghost before = rows@;
            rows.push(row);
            proof {
                assert(basic@.map_values(|x: &BasicProberReport| *x)[i as int] == *basic@[i as int]);
                assert(bseq.take(i + 1) =~= bseq.take(i as int).push(bseq[i as int]));
                assert(rows@ =~= before.push(row));
                assert(rows@.map_values(|row: Vec<String>| texts(row@)) =~= before.map_values(
                    |row: Vec<String>| texts(row@),
                ).push(texts(row@)));
                assert(bseq.take(i + 1).map_values(|b: BasicProberReport| basic_row(b))
                    =~= bseq.take(i as int).map_values(|b: BasicProberReport| basic_row(b)).push(
                    basic_row(bseq[i as int]),
                ));
            }
            i = i + 1;
        }
        assert(bseq.take(i as int) =~= bseq);
        let header = vec![
            text_of("Basic Probe"),
            text_of("Destination"),
            text_of("Connected"),
            text_of("Error"),
        ];
        let t = Table { header, rows };
        assert(t@.header =~= seq!["Basic Probe"@, "Destination"@, "Connected"@, "Error"@]);
        tables.push(t);
    }
    let http = report.http_reports();
    let ghost hseq = http_reports_of(report.prober_reports@);
    if http.len() != 0 {
        let mut rows: Vec<Vec<String>> = Vec::new();
        let mut i: usize = 0;
        while i < http.len()
            invariant
                i <= http@.len(),
                http@.map_values(|x: &HttpProberReport| *x) == hseq,
                rows@.map_values(|row: Vec<String>| texts(row@)) == hseq.take(i as int).map_values(
                    |h: HttpProberReport| http_row(h),
                ),
            decreases http@.len() - i,
        {
            let row = http_row_of(http[i]);
            let ghost before = rows@;
            rows.push(row);
            proof {
                assert(http@.map_values(|x: &HttpProberReport| *x)[i as int] == *http@[i as int]);
                assert(hseq.take(i + 1) =~= hseq.take(i as int).push(hseq[i as int]));
                assert(rows@ =~= before.push(row));
                assert(rows@.map_values(|row: Vec<String>| texts(row@)) =~= before.map_values(
                    |row: Vec<String>| texts(row@),
                ).push(texts(row@)));
                assert(hseq.take(i + 1).map_values(|h: HttpProberReport| http_row(h))
                    =~= hseq.take(i as int).map_values(|h: HttpProberReport| http_row(h)).push(
                    http_row(hseq[i as int]),
                ));
            }
            i = i + 1;
        }
        assert(hseq.take(i as int) =~= hseq);
        let header = vec![
            text_of("HTTP Probe"),
            text_of("Method "),
            text_of("URL"),
            text_of("Resp. Code"),
            text_of("Error"),
        ];
        let t = Table { header, rows };
        assert(t@.header =~= seq!["HTTP Probe"@, "Method "@, "URL"@, "Resp. Code"@, "Error"@]);
        tables.push(t);
    }
    assert(tables@.map_values(|t: Table| t@) =~= tables_of_report(*report));
    tables
}

/// The tables of all the reports, report by report.
pub fn reports_tables(reports: &[TaskReport]) -> (r: Vec<Table>)
    ensures
        r@.map_values(|t: Table| t@) == report_tables_of(reports@),
{
    let mut tables: Vec<Table> = Vec::new();
    let mut i: usize = 0;
    while i < reports.len()
        invariant
            i <= reports@.len(),
            tables@.map_values(|t: Table| t@) == report_tables_of(reports@.take(i as int)),
        decreases reports@.len() - i,
    {
        let ghost before = tables@;
        let mut more = report_tables(&reports[i]);
        let ghost added = more@;
        tables.append(&mut more);
        assert(tables@.map_values(|t: Table| t@) =~= before.map_values(|t: Table| t@)
            + added.map_values(|t: Table| t@));
        assert(reports@.take(i + 1).drop_last() =~= reports@.take(i as int));
        i = i + 1;
    }
    assert(reports@.take(i as int) =~= reports@);
    tables
}

/// The HTTP probe named `http-get`, `http-head` or `http-delete` sends its
/// request by the method its name gives (`GET`, `HEAD`, `DELETE`), to the
/// URL of the second piece as `url` parses it, expecting the code of the
/// third; no other name gives an HTTP probe.
pub proof fn law_probe_method_from_name(kind: Seq<char>, parts: Seq<Seq<char>>)
    ensures
        prober_config_from(kind, parts) matches Ok(c) ==> match prober_of(c) {
            Some(ProberView::Http { method, url, expected_response_code }) => {
                &&& (kind == "http-get"@ <==> method_name(method) == "GET"@)
                &&& (kind == "http-head"@ <==> method_name(method) == "HEAD"@)
                &&& (kind == "http-delete"@ <==> method_name(method) == "DELETE"@)
                &&& parts.len() >= 3 && parsed_url(parts[1]) == Some(url)
                &&& parse_u16_text(parts[2]) matches Ok(code) && code == expected_response_code
            },
            Some(_) => kind != "http-get"@ && kind != "http-head"@ && kind != "http-delete"@,
            None => parts.len() >= 3 && parsed_url(parts[1]) is None,
        },
{
    reveal_strlit("http-get");
    reveal_strlit("http-head");
    reveal_strlit("http-delete");
    reveal_strlit("GET");
    reveal_strlit("HEAD");
    reveal_strlit("DELETE");
    reveal_strlit("http");
    reveal_strlit("liveness");
    reveal_strlit("basic");
    assert("http-get"@.len() == 8 && "http-head"@.len() == 9 && "http-delete"@.len() == 11);
    assert("GET"@.len() == 3 && "HEAD"@.len() == 4 && "DELETE"@.len() == 6);
    assert("liveness"@.len() == 8 && "basic"@.len() == 5);
    assert("http-get"@ != "liveness"@) by {
        assert("http-get"@[0] != "liveness"@[0]);
    }
    assert("http-get"@.take(4) =~= "http"@);
    assert("http-head"@.take(4) =~= "http"@);
    assert("http-delete"@.take(4) =~= "http"@);
}

} // verus!
