//! The report of checking one proxy server.
use vstd::prelude::*;

use crate::checker::prober::{
    BasicProberReport, HttpProberReport, LivenessProberReport, ProberReport,
};
use crate::common::proxy::ProxyHost;

verus! {

/// What checking one proxy server found: whether it answers, and the
/// reports of the probes run through it.
#[derive(Debug, Clone)]
pub struct TaskReport {
    pub proxy_server: ProxyHost,
    pub liveness_report: LivenessProberReport,
    pub prober_reports: Vec<ProberReport>,
}

/// The basic reports among `reports`, in order.
pub open spec fn basic_reports_of(reports: Seq<ProberReport>) -> Seq<BasicProberReport>
    decreases reports.len(),
{
    if reports.len() == 0 {
        Seq::empty()
    } else {
        let rest = basic_reports_of(reports.drop_last());
        match reports.last() {
            ProberReport::Basic(r) => rest.push(r),
            _ => rest,
        }
    }
}

/// The HTTP reports among `reports`, in order.
pub open spec fn http_reports_of(reports: Seq<ProberReport>) -> Seq<HttpProberReport>
    decreases reports.len(),
{
    if reports.len() == 0 {
        Seq::empty()
    } else {
        let rest = http_reports_of(reports.drop_last());
        match reports.last() {
            ProberReport::Http(r) => rest.push(r),
            _ => rest,
        }
    }
}

impl TaskReport {
    /// A report of `proxy_server` with its liveness report and no probe yet.
    pub fn new(proxy_server: ProxyHost, liveness_report: LivenessProberReport) -> (r: TaskReport)
        ensures
            r.proxy_server == proxy_server,
            r.liveness_report == liveness_report,
            r.prober_reports@ == Seq::<ProberReport>::empty(),
    {
        TaskReport { proxy_server, liveness_report, prober_reports: Vec::new() }
    }

    /// Whether the proxy server answered.
    pub fn is_proxy_server_alive(&self) -> (r: bool)
        ensures
            r == self.liveness_report.alive,
    {
        self.liveness_report.alive
    }

    /// The liveness report.
    pub fn liveness_report(&self) -> (r: &LivenessProberReport)
        ensures
            *r == self.liveness_report,
    {
        &self.liveness_report
    }

    /// Adds the report of a probe.
    pub fn add_report(&mut self, report: ProberReport)
        ensures
            final(self).proxy_server == old(self).proxy_server,
            final(self).liveness_report == old(self).liveness_report,
            final(self).prober_reports@ == old(self).prober_reports@.push(report),
    {
        self.prober_reports.push(report);
    }

    /// The basic reports, in order.
    pub fn basic_reports(&self) -> (r: Vec<&BasicProberReport>)
        ensures
            r@.map_values(|x: &BasicProberReport| *x) == basic_reports_of(self.prober_reports@),
    {
        let mut r: Vec<&BasicProberReport> = Vec::new();
        let mut i: usize = 0;
        while i < self.prober_reports.len()
            invariant
                i <= self.prober_reports@.len(),
                r@.map_values(|x: &BasicProberReport| *x) == basic_reports_of(
                    self.prober_reports@.take(i as int),
                ),
            decreases self.prober_reports@.len() - i,
        {
            let ghost before = r@;
            let ghost taken = self.prober_reports@.take(i + 1);
            assert(taken.drop_last() =~= self.prober_reports@.take(i as int));
            if let ProberReport::Basic(b) = &self.prober_reports[i] {
                r.push(b);
                assert(r@.map_values(|x: &BasicProberReport| *x) =~= before.map_values(
                    |x: &BasicProberReport| *x,
                ).push(*b));
            }
            i = i + 1;
        }
        assert(self.prober_reports@.take(i as int) =~= self.prober_reports@);
        r
    }

    /// The HTTP reports, in order.
    pub fn http_reports(&self) -> (r: Vec<&HttpProberReport>)
        ensures
            r@.map_values(|x: &HttpProberReport| *x) == http_reports_of(self.prober_reports@),
    {
        let mut r: Vec<&HttpProberReport> = Vec::new();
        let mut i: usize = 0;
        while i < self.prober_reports.len()
            invariant
                i <= self.prober_reports@.len(),
                r@.map_values(|x: &HttpProberReport| *x) == http_reports_of(
                    self.prober_reports@.take(i as int),
                ),
            decreases self.prober_reports@.len() - i,
        {
            let ghost before = r@;
            let ghost taken = self.prober_reports@.take(i + 1);
            assert(taken.drop_last() =~= self.prober_reports@.take(i as int));
            if let ProberReport::Http(h) = &self.prober_reports[i] {
                r.push(h);
                assert(r@.map_values(|x: &HttpProberReport| *x) =~= before.map_values(
                    |x: &HttpProberReport| *x,
                ).push(*h));
            }
            i = i + 1;
        }
        assert(self.prober_reports@.take(i as int) =~= self.prober_reports@);
        r
    }

    /// The number of basic reports.
    pub fn basic_report_count(&self) -> (r: usize)
        ensures
            r == basic_reports_of(self.prober_reports@).len(),
    {
        self.basic_reports().len()
    }

    /// The number of HTTP reports.
    pub fn http_report_count(&self) -> (r: usize)
        ensures
            r == http_reports_of(self.prober_reports@).len(),
    {
        self.http_reports().len()
    }
}

/// No more basic and HTTP reports than reports.
pub proof fn law_report_counts_bounded(reports: Seq<ProberReport>)
    ensures
        basic_reports_of(reports).len() + http_reports_of(reports).len() <= reports.len(),
    decreases reports.len(),
{
    if reports.len() > 0 {
        law_report_counts_bounded(reports.drop_last());
    }
}

/// Adding a report of one kind adds it to the reports of that kind alone.
pub proof fn law_add_report_kind(reports: Seq<ProberReport>, report: ProberReport)
    ensures
        basic_reports_of(reports.push(report)) == match report {
            ProberReport::Basic(b) => basic_reports_of(reports).push(b),
            _ => basic_reports_of(reports),
        },
        http_reports_of(reports.push(report)) == match report {
            ProberReport::Http(h) => http_reports_of(reports).push(h),
            _ => http_reports_of(reports),
        },
{
    assert(reports.push(report).drop_last() =~= reports);
}

} // verus!
