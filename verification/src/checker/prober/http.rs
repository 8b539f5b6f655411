//! Whether an HTTP request through a proxy server is answered.
use vstd::prelude::*;
use vstd::utf8::encode_utf8;

use crate::checker::error::{reported, Error, ReportError};
use crate::common::host_address::{host_address_of, HostAddress};
use crate::protocol::http::{parse_response_head, parsed_response_head, HttpHead, HttpParseError};
use crate::text::{push_str, string_of};
use crate::url_parts::{known_port, UrlParts, UrlPartsView};

verus! {

/// The method of an HTTP request.
#[derive(Clone, Copy, Debug, Eq, Hash, Ord, PartialEq, Structural, PartialOrd)]
pub enum HttpMethod {
    Head,
    Get,
    Delete,
}

/// The name of a method as a request writes it.
pub open spec fn method_name(m: HttpMethod) -> Seq<char> {
    match m {
        HttpMethod::Get => "GET"@,
        HttpMethod::Head => "HEAD"@,
        HttpMethod::Delete => "DELETE"@,
    }
}

impl HttpMethod {
    /// The name of the method as a request writes it.
    pub fn to_string(&self) -> (r: String)
        ensures
            r@ == method_name(*self),
    {
        let s = match self {
            HttpMethod::Get => "GET",
            HttpMethod::Head => "HEAD",
            HttpMethod::Delete => "DELETE",
        };
        String::from_str(s)
    }
}

/// What an HTTP probe found.
#[derive(Clone, Debug, PartialEq, Eq)]
pub struct HttpProberReport {
    pub destination_reachable: bool,
    pub method: Option<HttpMethod>,
    pub url: Option<UrlParts>,
    pub response_code: Option<u16>,
    pub error: Option<ReportError>,
}

impl Default for HttpProberReport {
    fn default() -> (r: HttpProberReport)
        ensures
            !r.destination_reachable,
            r.method is None,
            r.url is None,
            r.response_code is None,
            r.error is None,
    {
        HttpProberReport {
            destination_reachable: false,
            method: None,
            url: None,
            response_code: None,
            error: None,
        }
    }
}

impl HttpProberReport {
    /// The report of a probe of `url` by `method` that ran out of time.
    pub fn timeout(method: HttpMethod, url: UrlParts) -> (r: HttpProberReport)
        ensures
            !r.destination_reachable,
            r.method == Some(method),
            r.url == Some(url),
            r.response_code is None,
            r.error == Some(ReportError::Timeout),
    {
        HttpProberReport {
            destination_reachable: false,
            method: Some(method),
            url: Some(url),
            response_code: None,
            error: Some(ReportError::Timeout),
        }
    }

    /// Whether the probe failed with an error.
    pub fn has_error(&self) -> (r: bool)
        ensures
            r == self.error is Some,
    {
        self.error.is_some()
    }
}

/// How a request goes to the destination: as it is, or inside TLS with the
/// server named `host`.
#[derive(Debug)]
pub enum HttpTransport {
    Plain,
    Tls { host: String },
}

/// Name for whether `webpki` takes a text as a DNS name to check a server's
/// certificate against.
pub uninterp spec fn is_dns_name(text: Seq<char>) -> bool;

/// `webpki::DNSNameRef::try_from_ascii_str`, and whether it succeeds.
/// Claimed: it succeeds on the texts for which `is_dns_name` holds (its
/// source decides by the text's bytes alone).
#[verifier::external_body]
pub(crate) fn dns_name_ok(text: &str) -> (r: bool)
    ensures
        r == is_dns_name(text@),
{
    webpki::DNSNameRef::try_from_ascii_str(text).is_ok()
}

/// TLS with the server named `host` where `webpki` takes it as a DNS name
/// (`valid`); else the name is refused.
pub fn tls_transport(host: String, valid: bool) -> (r: Result<HttpTransport, Error>)
    ensures
        valid ==> (r matches Ok(HttpTransport::Tls { host: h }) && h@ == host@),
        !valid ==> (r matches Err(Error::InvalidDnsName { dns_name }) && dns_name@ == host@),
{
    if valid {
        Ok(HttpTransport::Tls { host })
    } else {
        Err(Error::InvalidDnsName { dns_name: host })
    }
}

/// The request of a probe: `METHOD path HTTP/1.1`, a `Host` header and an
/// empty line, each line ended by CR LF.
pub open spec fn probe_request_text(method: HttpMethod, path: Seq<char>, host: Seq<char>) -> Seq<
    char,
> {
    method_name(method) + " "@ + path + " HTTP/1.1\r\nHost: "@ + host + "\r\n\r\n"@
}

/// Checks that a request by `method` to `url` through a proxy is answered.
#[derive(Debug, PartialEq, Eq, Hash)]
pub struct HttpProber {
    method: HttpMethod,
    url: UrlParts,
    expected_response_code: u16,
}

impl Clone for HttpProber {
    fn clone(&self) -> (r: HttpProber)
        ensures
            r.method_spec() == self.method_spec(),
            r.url_spec() == self.url_spec(),
            r.expected_response_code_spec() == self.expected_response_code_spec(),
    {
        HttpProber {
            method: self.method,
            url: self.url.clone(),
            expected_response_code: self.expected_response_code,
        }
    }
}

impl HttpProber {
    pub closed spec fn method_spec(&self) -> HttpMethod {
        self.method
    }

    pub closed spec fn url_spec(&self) -> UrlPartsView {
        self.url@
    }

    pub closed spec fn expected_response_code_spec(&self) -> u16 {
        self.expected_response_code
    }

    /// A probe by `GET`.
    pub fn get(url: UrlParts, expected_response_code: u16) -> (r: HttpProber)
        ensures
            r.method_spec() == HttpMethod::Get,
            r.url_spec() == url@,
            r.expected_response_code_spec() == expected_response_code,
    {
        HttpProber { url, expected_response_code, method: HttpMethod::Get }
    }

    /// A probe by `HEAD`.
    pub fn head(url: UrlParts, expected_response_code: u16) -> (r: HttpProber)
        ensures
            r.method_spec() == HttpMethod::Head,
            r.url_spec() == url@,
            r.expected_response_code_spec() == expected_response_code,
    {
        HttpProber { url, expected_response_code, method: HttpMethod::Head }
    }

    /// A probe by `DELETE`.
    pub fn delete(url: UrlParts, expected_response_code: u16) -> (r: HttpProber)
        ensures
            r.method_spec() == HttpMethod::Delete,
            r.url_spec() == url@,
            r.expected_response_code_spec() == expected_response_code,
    {
        HttpProber { url, expected_response_code, method: HttpMethod::Delete }
    }

    /// The method.
    pub fn method(&self) -> (r: HttpMethod)
        ensures
            r == self.method_spec(),
    {
        self.method
    }

    /// The URL.
    pub fn url(&self) -> (r: &UrlParts)
        ensures
            r@ == self.url_spec(),
    {
        &self.url
    }

    /// The host of the URL; a URL without one is refused.
    pub fn host(&self) -> (r: Result<String, Error>)
        ensures
            match self.url_spec().host {
                Some(h) => r matches Ok(s) && s@ == h,
                None => r matches Err(Error::NoHostProvided),
            },
    {
        match &self.url.host {
            Some(h) => Ok(h.clone()),
            None => Err(Error::NoHostProvided),
        }
    }

    /// The port of the URL, or its scheme's default; a URL with neither is
    /// refused.
    pub fn port(&self) -> (r: Result<u16, Error>)
        ensures
            match known_port(self.url_spec()) {
                Some(p) => r matches Ok(q) && q == p,
                None => r matches Err(Error::NoPortProvided),
            },
    {
        match self.url.port_or_known_default() {
            Some(p) => Ok(p),
            None => Err(Error::NoPortProvided),
        }
    }

    /// The path of the URL.
    pub fn path(&self) -> (r: Result<String, Error>)
        ensures
            r matches Ok(s) && s@ == self.url_spec().path,
    {
        Ok(self.url.path.clone())
    }

    /// The address to connect to: the URL's host and port.
    pub fn destination_address(&self) -> (r: Result<HostAddress, Error>)
        ensures
            match (self.url_spec().host, known_port(self.url_spec())) {
                (Some(h), Some(p)) => r matches Ok(a) && a@ == host_address_of(h, p),
                (None, _) => r matches Err(Error::NoHostProvided),
                (Some(_), None) => r matches Err(Error::NoPortProvided),
            },
    {
        let host = self.host()?;
        let port = self.port()?;
        Ok(HostAddress::new(host.as_str(), port))
    }

    /// The bytes of the request.
    pub fn build_request(&self) -> (r: Result<Vec<u8>, Error>)
        ensures
            match self.url_spec().host {
                Some(h) => r matches Ok(b) && b@ == encode_utf8(
                    probe_request_text(self.method_spec(), self.url_spec().path, h),
                ),
                None => r matches Err(Error::NoHostProvided),
            },
    {
        let host = self.host()?;
        let path = self.path()?;
        let mut out: Vec<char> = Vec::new();
        let name = self.method.to_string();
        push_str(&mut out, name.as_str());
        push_str(&mut out, " ");
        push_str(&mut out, path.as_str());
        push_str(&mut out, " HTTP/1.1\r\nHost: ");
        push_str(&mut out, host.as_str());
        push_str(&mut out, "\r\n\r\n");
        assert(out@ =~= probe_request_text(self.method, self.url@.path, host@));
        let text = string_of(out.as_slice());
        let mut bytes: Vec<u8> = Vec::new();
        crate::protocol::bytes::push_bytes(&mut bytes, text.as_str().as_bytes());
        assert(bytes@ =~= encode_utf8(text@));
        Ok(bytes)
    }

    /// Starts the report of a probe: the method and URL are recorded; the
    /// address to connect to is given.
    pub fn begin(&self, report: &mut HttpProberReport) -> (r: Result<HostAddress, Error>)
        ensures
            final(report).method == Some(self.method_spec()),
            final(report).url matches Some(u) && u@ == self.url_spec(),
            final(report).destination_reachable == old(report).destination_reachable,
            final(report).response_code == old(report).response_code,
            final(report).error == old(report).error,
            match (self.url_spec().host, known_port(self.url_spec())) {
                (Some(h), Some(p)) => r matches Ok(a) && a@ == host_address_of(h, p),
                (None, _) => r matches Err(Error::NoHostProvided),
                (Some(_), None) => r matches Err(Error::NoPortProvided),
            },
    {
        report.url = Some(self.url.clone());
        report.method = Some(self.method);
        self.destination_address()
    }

    /// How the request goes once the proxy has connected: as it is for
    /// `http`, inside TLS with the URL's host for `https` (refused where
    /// `webpki` does not take the host as a DNS name); another scheme is
    /// refused.
    pub fn transport(&self) -> (r: Result<HttpTransport, Error>)
        ensures
            if self.url_spec().scheme == "http"@ {
                r matches Ok(HttpTransport::Plain)
            } else if self.url_spec().scheme == "https"@ {
                match self.url_spec().host {
                    Some(h) => if is_dns_name(h) {
                        r matches Ok(HttpTransport::Tls { host }) && host@ == h
                    } else {
                        r matches Err(Error::InvalidDnsName { dns_name }) && dns_name@ == h
                    },
                    None => r matches Err(Error::NoHostProvided),
                }
            } else {
                r matches Err(Error::UnknownScheme { scheme }) && scheme@ == self.url_spec().scheme
            },
    {
        let scheme = self.url.scheme.as_str();
        if crate::text::str_eq_str(scheme, "http") {
            Ok(HttpTransport::Plain)
        } else if crate::text::str_eq_str(scheme, "https") {
            let host = self.host()?;
            let valid = dns_name_ok(host.as_str());
            tls_transport(host, valid)
        } else {
            Err(Error::UnknownScheme { scheme: self.url.scheme.clone() })
        }
    }

    /// Reads the response: a whole head gives its status code to the
    /// report; one that is not whole, or that cannot be parsed, is an
    /// error.
    pub fn read_response(&self, response: &[u8], report: &mut HttpProberReport) -> (r: Result<
        (),
        Error,
    >)
        ensures
            final(report).method == old(report).method,
            final(report).url == old(report).url,
            final(report).destination_reachable == old(report).destination_reachable,
            final(report).error == old(report).error,
            match parsed_response_head(response@) {
                Err(e) => r matches Err(Error::ParseHttpResponse { source }) && source == e
                    && final(report).response_code == old(report).response_code,
                Ok(HttpHead::Partial) => r matches Err(Error::IncompleteHttpResponse)
                    && final(report).response_code == old(report).response_code,
                Ok(HttpHead::Complete { code, .. }) => r is Ok && final(report).response_code
                    == code,
            },
    {
        record_head(parse_response_head(response), report)
    }
}

/// Records the head of the response as `httparse` read it: a whole head
/// gives its status code to the report; one that is not whole, or that was
/// refused, is an error.
pub fn record_head(head: Result<HttpHead, HttpParseError>, report: &mut HttpProberReport) -> (r:
    Result<(), Error>)
    ensures
        final(report).method == old(report).method,
        final(report).url == old(report).url,
        final(report).destination_reachable == old(report).destination_reachable,
        final(report).error == old(report).error,
        match head {
            Err(e) => r matches Err(Error::ParseHttpResponse { source }) && source == e
                && final(report).response_code == old(report).response_code,
            Ok(HttpHead::Partial) => r matches Err(Error::IncompleteHttpResponse)
                && final(report).response_code == old(report).response_code,
            Ok(HttpHead::Complete { code, .. }) => r is Ok && final(report).response_code == code,
        },
{
    match head {
        Err(source) => Err(Error::ParseHttpResponse { source }),
        Ok(HttpHead::Partial) => Err(Error::IncompleteHttpResponse),
        Ok(HttpHead::Complete { code, .. }) => {
            report.response_code = code;
            Ok(())
        },
    }
}

/// Ends the report of a probe with its outcome: an error is recorded.
pub fn finish_report(report: &mut HttpProberReport, outcome: Result<(), Error>)
    ensures
        final(report).method == old(report).method,
        final(report).url == old(report).url,
        final(report).destination_reachable == old(report).destination_reachable,
        final(report).response_code == old(report).response_code,
        match outcome {
            Ok(()) => final(report).error == old(report).error,
            Err(e) => final(report).error matches Some(x) && reported(e, x),
        },
{
    if let Err(e) = outcome {
        report.error = Some(ReportError::from(e));
    }
}

} // verus!
