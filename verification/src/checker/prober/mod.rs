//! The probes a proxy server is put to, and what they report.
use vstd::prelude::*;

pub mod basic;
pub mod http;
pub mod liveness;

pub use self::basic::{BasicProber, BasicProberReport};
pub use self::http::{HttpMethod, HttpProber, HttpProberReport};
pub use self::liveness::{LivenessProber, LivenessProberReport};

use crate::checker::error::ReportError;
use crate::common::host_address::HostAddressView;
use crate::url_parts::UrlPartsView;

verus! {

/// A probe of a proxy server.
#[derive(Debug, Hash)]
pub enum Prober {
    Liveness(LivenessProber),
    Basic(BasicProber),
    Http(HttpProber),
}

/// What a probe is: its kind and what it is set to.
pub enum ProberView {
    Liveness,
    Basic { destination: HostAddressView },
    Http { method: HttpMethod, url: UrlPartsView, expected_response_code: u16 },
}

impl View for Prober {
    type V = ProberView;

    open spec fn view(&self) -> ProberView {
        match self {
            Prober::Liveness(_) => ProberView::Liveness,
            Prober::Basic(p) => ProberView::Basic { destination: p.destination_spec() },
            Prober::Http(p) => ProberView::Http {
                method: p.method_spec(),
                url: p.url_spec(),
                expected_response_code: p.expected_response_code_spec(),
            },
        }
    }
}

impl Clone for Prober {
    fn clone(&self) -> (r: Prober)
        ensures
            r@ == self@,
    {
        match self {
            Prober::Liveness(p) => Prober::Liveness(*p),
            Prober::Basic(p) => Prober::Basic(p.clone()),
            Prober::Http(p) => Prober::Http(p.clone()),
        }
    }
}

/// The order of the kinds of probes: liveness, basic, HTTP.
pub open spec fn kind_precedence(liveness: bool, basic: bool) -> usize {
    if liveness {
        0
    } else if basic {
        1
    } else {
        2
    }
}

impl Prober {
    /// Where the probe's kind comes: liveness first, then basic, then HTTP.
    pub fn precedence(&self) -> (r: usize)
        ensures
            r == kind_precedence(self is Liveness, self is Basic),
    {
        match self {
            Prober::Liveness(_) => 0,
            Prober::Basic(_) => 1,
            Prober::Http(_) => 2,
        }
    }

    /// The report of this probe when it runs out of time: of the same kind,
    /// with what the probe is set to and the error `Timeout`.
    pub fn timeout_report(&self) -> (r: ProberReport)
        ensures
            r.has_timed_out(),
            match (self, r) {
                (Prober::Liveness(_), ProberReport::Liveness(x)) => !x.alive,
                (Prober::Basic(p), ProberReport::Basic(x)) => x.destination matches Some(d) && d@
                    == p.destination_spec() && !x.destination_reachable,
                (Prober::Http(p), ProberReport::Http(x)) => x.url matches Some(u) && u@
                    == p.url_spec() && !x.destination_reachable && x.method == Some(
                    p.method_spec(),
                ) && x.response_code is None,
                _ => false,
            },
    {
        match self {
            Prober::Liveness(_) => ProberReport::Liveness(LivenessProberReport::timeout()),
            Prober::Basic(p) => ProberReport::Basic(
                BasicProberReport::timeout(p.destination().clone()),
            ),
            Prober::Http(p) => ProberReport::Http(
                HttpProberReport::timeout(p.method(), p.url().clone()),
            ),
        }
    }
}

impl From<LivenessProber> for Prober {
    fn from(prober: LivenessProber) -> (r: Prober) {
        Prober::Liveness(prober)
    }
}

impl vstd::std_specs::convert::FromSpecImpl<LivenessProber> for Prober {
    open spec fn obeys_from_spec() -> bool {
        true
    }

    open spec fn from_spec(prober: LivenessProber) -> Prober {
        Prober::Liveness(prober)
    }
}

impl From<BasicProber> for Prober {
    fn from(prober: BasicProber) -> (r: Prober) {
        Prober::Basic(prober)
    }
}

impl vstd::std_specs::convert::FromSpecImpl<BasicProber> for Prober {
    open spec fn obeys_from_spec() -> bool {
        true
    }

    open spec fn from_spec(prober: BasicProber) -> Prober {
        Prober::Basic(prober)
    }
}

impl From<HttpProber> for Prober {
    fn from(prober: HttpProber) -> (r: Prober) {
        Prober::Http(prober)
    }
}

impl vstd::std_specs::convert::FromSpecImpl<HttpProber> for Prober {
    open spec fn obeys_from_spec() -> bool {
        true
    }

    open spec fn from_spec(prober: HttpProber) -> Prober {
        Prober::Http(prober)
    }
}

/// What a probe found.
#[derive(Clone, Debug)]
pub enum ProberReport {
    Liveness(LivenessProberReport),
    Basic(BasicProberReport),
    Http(HttpProberReport),
}

impl ProberReport {
    /// The error of the report.
    pub open spec fn error_spec(self) -> Option<ReportError> {
        match self {
            ProberReport::Liveness(r) => r.error,
            ProberReport::Basic(r) => r.error,
            ProberReport::Http(r) => r.error,
        }
    }

    /// Whether the report is that of a probe that ran out of time.
    pub open spec fn has_timed_out(self) -> bool {
        self.error_spec() == Some(ReportError::Timeout)
    }

    /// Where the report's kind comes, as for probes.
    pub fn precedence(&self) -> (r: usize)
        ensures
            r == kind_precedence(self is Liveness, self is Basic),
    {
        match self {
            ProberReport::Liveness(_) => 0,
            ProberReport::Basic(_) => 1,
            ProberReport::Http(_) => 2,
        }
    }

    /// Whether the probe failed with an error.
    pub fn has_error(&self) -> (r: bool)
        ensures
            r == self.error_spec() is Some,
    {
        match self {
            ProberReport::Liveness(r) => r.has_error(),
            ProberReport::Basic(r) => r.has_error(),
            ProberReport::Http(r) => r.has_error(),
        }
    }
}

impl From<LivenessProberReport> for ProberReport {
    fn from(report: LivenessProberReport) -> (r: ProberReport) {
        ProberReport::Liveness(report)
    }
}

impl vstd::std_specs::convert::FromSpecImpl<LivenessProberReport> for ProberReport {
    open spec fn obeys_from_spec() -> bool {
        true
    }

    open spec fn from_spec(report: LivenessProberReport) -> ProberReport {
        ProberReport::Liveness(report)
    }
}

impl From<BasicProberReport> for ProberReport {
    fn from(report: BasicProberReport) -> (r: ProberReport) {
        ProberReport::Basic(report)
    }
}

impl vstd::std_specs::convert::FromSpecImpl<BasicProberReport> for ProberReport {
    open spec fn obeys_from_spec() -> bool {
        true
    }

    open spec fn from_spec(report: BasicProberReport) -> ProberReport {
        ProberReport::Basic(report)
    }
}

impl From<HttpProberReport> for ProberReport {
    fn from(report: HttpProberReport) -> (r: ProberReport) {
        ProberReport::Http(report)
    }
}

impl vstd::std_specs::convert::FromSpecImpl<HttpProberReport> for ProberReport {
    open spec fn obeys_from_spec() -> bool {
        true
    }

    open spec fn from_spec(report: HttpProberReport) -> ProberReport {
        ProberReport::Http(report)
    }
}

/// A probe that runs out of time reports in its own kind.
pub proof fn law_timeout_report_same_kind(p: Prober, r: ProberReport)
    requires
        match (p, r) {
            (Prober::Liveness(_), ProberReport::Liveness(_)) => true,
            (Prober::Basic(_), ProberReport::Basic(_)) => true,
            (Prober::Http(_), ProberReport::Http(_)) => true,
            _ => false,
        },
    ensures
        kind_precedence(r is Liveness, r is Basic) == kind_precedence(p is Liveness, p is Basic),
{
}

} // verus!
