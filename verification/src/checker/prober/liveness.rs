//! Whether a proxy server answers at all.
use vstd::prelude::*;

use crate::checker::error::{reported, Error, ReportError};
use crate::client::Error as ClientError;
use crate::common::proxy::{ProxyHost, ProxyStrategy, ProxyStrategyView};

verus! {

/// Checks that a proxy server accepts connections.
#[derive(Clone, Copy, Debug, PartialEq, Eq, Structural, Hash)]
pub struct LivenessProber;

impl Default for LivenessProber {
    fn default() -> (r: LivenessProber) {
        LivenessProber
    }
}

/// What a liveness probe found.
#[derive(Clone, Debug)]
pub struct LivenessProberReport {
    pub alive: bool,
    pub error: Option<ReportError>,
}

impl Default for LivenessProberReport {
    fn default() -> (r: LivenessProberReport)
        ensures
            !r.alive,
            r.error is None,
    {
        LivenessProberReport { alive: false, error: None }
    }
}

impl LivenessProberReport {
    /// The report of a probe that ran out of time.
    pub fn timeout() -> (r: LivenessProberReport)
        ensures
            !r.alive,
            r.error == Some(ReportError::Timeout),
    {
        LivenessProberReport { alive: false, error: Some(ReportError::Timeout) }
    }

    /// Whether the probe failed with an error.
    pub fn has_error(&self) -> (r: bool)
        ensures
            r == self.error is Some,
    {
        self.error.is_some()
    }
}

impl LivenessProber {
    /// The strategy a liveness probe of `proxy_server` connects by: that
    /// proxy alone.
    pub fn strategy(&self, proxy_server: &ProxyHost) -> (r: ProxyStrategy)
        ensures
            r@ == ProxyStrategyView::Single(proxy_server@),
    {
        ProxyStrategy::Single(proxy_server.clone())
    }

    /// The report of a liveness probe: a proxy that was reached (and the
    /// connection to it shut down) is alive with no error; one that was not
    /// is not alive, with the error.
    pub fn report(&self, outcome: Result<(), ClientError>) -> (r: LivenessProberReport)
        ensures
            r.alive <==> outcome is Ok,
            match outcome {
                Ok(()) => r.error is None,
                Err(source) => r.error matches Some(e) && reported(
                    Error::ConnectProxyServer { source },
                    e,
                ),
            },
    {
        let mut report = LivenessProberReport::default();
        match outcome {
            Ok(()) => {
                report.alive = true;
                report.error = None;
            },
            Err(source) => {
                report.alive = false;
                report.error = Some(ReportError::from(Error::ConnectProxyServer { source }));
            },
        }
        report
    }
}

} // verus!
