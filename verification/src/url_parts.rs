//! What the library reads of a URL, parsed by the `url` crate.
use vstd::prelude::*;

verus! {

#[verifier::external_type_specification]
#[verifier::external_body]
pub struct ExUrlParseError(url::ParseError);

/// The parts of a parsed URL that the library reads.
#[derive(Debug, PartialEq, Eq, Hash)]
pub struct UrlParts {
    /// The URL's serialization (its text after parsing).
    pub serialization: String,
    pub scheme: String,
    /// The user name; empty where there is none.
    pub username: String,
    pub password: Option<String>,
    pub host: Option<String>,
    /// The port written in the URL; none where it is left out or is the
    /// scheme's default.
    pub port: Option<u16>,
    pub path: String,
}

pub struct UrlPartsView {
    pub serialization: Seq<char>,
    pub scheme: Seq<char>,
    pub username: Seq<char>,
    pub password: Option<Seq<char>>,
    pub host: Option<Seq<char>>,
    pub port: Option<u16>,
    pub path: Seq<char>,
}

pub open spec fn opt_str_view(o: Option<String>) -> Option<Seq<char>> {
    match o {
        Some(s) => Some(s@),
        None => None,
    }
}

/// A copy of an optional string.
pub fn clone_opt_str(o: &Option<String>) -> (r: Option<String>)
    ensures
        opt_str_view(r) == opt_str_view(*o),
{
    match o {
        Some(s) => Some(s.clone()),
        None => None,
    }
}

impl View for UrlParts {
    type V = UrlPartsView;

    open spec fn view(&self) -> UrlPartsView {
        UrlPartsView {
            serialization: self.serialization@,
            scheme: self.scheme@,
            username: self.username@,
            password: opt_str_view(self.password),
            host: opt_str_view(self.host),
            port: self.port,
            path: self.path@,
        }
    }
}

/// Name for the parts of the URL that `url::Url::parse` reads from a text;
/// none where it refuses the text.
pub uninterp spec fn parsed_url(text: Seq<char>) -> Option<UrlPartsView>;

/// `url::Url::parse`, then its accessors `as_str`, `scheme`, `username`,
/// `password`, `host_str`, `port` and `path`. Claimed: the parse succeeds on
/// the same texts for which `parsed_url` is some, and the parts are those
/// that it names. Nothing is claimed of the error value.
#[verifier::external_body]
pub(crate) fn parse_url(text: &str) -> (r: Result<UrlParts, url::ParseError>)
    ensures
        r is Ok <==> parsed_url(text@) is Some,
        r matches Ok(u) ==> parsed_url(text@) == Some(u@),
{
    let url = url::Url::parse(text)?;
    Ok(UrlParts {
        serialization: url.as_str().to_owned(),
        scheme: url.scheme().to_owned(),
        username: url.username().to_owned(),
        password: url.password().map(str::to_owned),
        host: url.host_str().map(str::to_owned),
        port: url.port(),
        path: url.path().to_owned(),
    })
}

impl Clone for UrlParts {
    fn clone(&self) -> (r: UrlParts)
        ensures
            r@ == self@,
    {
        UrlParts {
            serialization: self.serialization.clone(),
            scheme: self.scheme.clone(),
            username: self.username.clone(),
            password: clone_opt_str(&self.password),
            host: clone_opt_str(&self.host),
            port: self.port,
            path: self.path.clone(),
        }
    }
}

/// The message of a URL error (`Display` of `url::ParseError`). Nothing is
/// claimed of it.
#[verifier::external_body]
pub(crate) fn url_error_text(e: &url::ParseError) -> (r: String) {
    e.to_string()
}

/// The default port of a scheme, as `url` knows it.
pub open spec fn default_port(scheme: Seq<char>) -> Option<u16> {
    if scheme == "http"@ || scheme == "ws"@ {
        Some(80)
    } else if scheme == "https"@ || scheme == "wss"@ {
        Some(443)
    } else if scheme == "ftp"@ {
        Some(21)
    } else {
        None
    }
}

/// The port of the URL, or else its scheme's default.
pub open spec fn known_port(u: UrlPartsView) -> Option<u16> {
    match u.port {
        Some(p) => Some(p),
        None => default_port(u.scheme),
    }
}

impl UrlParts {
    /// The port of the URL, or else its scheme's default
    /// (`Url::port_or_known_default`).
    pub fn port_or_known_default(&self) -> (r: Option<u16>)
        ensures
            r == known_port(self@),
    {
        match self.port {
            Some(p) => Some(p),
            None => {
                let s = self.scheme.as_str();
                if crate::text::str_eq_str(s, "http") || crate::text::str_eq_str(s, "ws") {
                    Some(80)
                } else if crate::text::str_eq_str(s, "https") || crate::text::str_eq_str(s, "wss") {
                    Some(443)
                } else if crate::text::str_eq_str(s, "ftp") {
                    Some(21)
                } else {
                    None
                }
            },
        }
    }
}

}
