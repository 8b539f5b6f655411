//! Whether a destination can be reached through a proxy server.
use vstd::prelude::*;

use crate::checker::error::{reported, Error, ReportError};
use crate::client::Error as ClientError;
use crate::common::host_address::{HostAddress, HostAddressView};

verus! {

/// What a basic probe found.
#[derive(Clone, Debug, PartialEq, Eq)]
pub struct BasicProberReport {
    pub destination_reachable: bool,
    pub destination: Option<HostAddress>,
    pub error: Option<ReportError>,
}

impl Default for BasicProberReport {
    fn default() -> (r: BasicProberReport)
        ensures
            !r.destination_reachable,
            r.destination is None,
            r.error is None,
    {
        BasicProberReport { destination_reachable: false, destination: None, error: None }
    }
}

impl BasicProberReport {
    /// The report of a probe of `destination` that ran out of time.
    pub fn timeout(destination: HostAddress) -> (r: BasicProberReport)
        ensures
            !r.destination_reachable,
            r.destination == Some(destination),
            r.error == Some(ReportError::Timeout),
    {
        BasicProberReport {
            destination_reachable: false,
            destination: Some(destination),
            error: Some(ReportError::Timeout),
        }
    }

    /// Whether the probe failed with an error.
    pub fn has_error(&self) -> (r: bool)
        ensures
            r == self.error is Some,
    {
        self.error.is_some()
    }
}

/// Checks that a destination can be reached through a proxy server.
#[derive(Debug, PartialEq, Eq, Hash)]
pub struct BasicProber {
    destination: HostAddress,
}

impl Clone for BasicProber {
    fn clone(&self) -> (r: BasicProber)
        ensures
            r.destination_spec() == self.destination_spec(),
    {
        BasicProber { destination: self.destination.clone() }
    }
}

impl BasicProber {
    pub closed spec fn destination_spec(&self) -> HostAddressView {
        self.destination@
    }

    /// A probe of `destination`.
    pub fn new(destination: HostAddress) -> (r: BasicProber)
        ensures
            r.destination_spec() == destination@,
    {
        BasicProber { destination }
    }

    /// The destination probed.
    pub fn destination(&self) -> (r: &HostAddress)
        ensures
            r@ == self.destination_spec(),
    {
        &self.destination
    }

    /// The report of a probe: `Err` where the connection through the proxy
    /// failed, else whether closing it failed. The destination is recorded;
    /// it was reached where the connection was made; the first failure is
    /// the report's error.
    pub fn report(&self, outcome: Result<Result<(), std::io::Error>, ClientError>) -> (r:
        BasicProberReport)
        ensures
            r.destination matches Some(d) && d@ == self.destination_spec(),
            match outcome {
                Err(source) => r.error matches Some(e) && reported(
                    Error::ConnectProxyServer { source },
                    e,
                ) && !r.destination_reachable,
                Ok(Err(source)) => r.error matches Some(e) && reported(
                    Error::Shutdown { source },
                    e,
                ) && r.destination_reachable,
                Ok(Ok(())) => r.destination_reachable && r.error is None,
            },
    {
        let mut report = BasicProberReport::default();
        report.destination = Some(self.destination.clone());
        match outcome {
            Err(source) => {
                report.error = Some(ReportError::from(Error::ConnectProxyServer { source }));
            },
            Ok(shutdown) => {
                report.destination_reachable = true;
                if let Err(source) = shutdown {
                    report.error = Some(ReportError::from(Error::Shutdown { source }));
                }
            },
        }
        report
    }
}

} // verus!
