//! Checking one proxy server with a list of probes.
use vstd::prelude::*;

use crate::checker::prober::{LivenessProberReport, Prober, ProberReport, ProberView};
use crate::checker::report::TaskReport;
use crate::common::proxy::{ProxyHost, ProxyHostView};

verus! {

/// Checks one proxy server: first whether it answers, then, where it does,
/// each probe in order.
#[derive(Clone, Debug)]
pub struct SimpleProxyChecker {
    proxy_server: ProxyHost,
    probers: Vec<Prober>,
}

/// The views of a list of probes.
pub open spec fn probers_view(probers: Seq<Prober>) -> Seq<ProberView> {
    probers.map_values(|p: Prober| p@)
}

impl SimpleProxyChecker {
    pub closed spec fn proxy_server_spec(&self) -> ProxyHostView {
        self.proxy_server@
    }

    pub closed spec fn probers_spec(&self) -> Seq<ProberView> {
        probers_view(self.probers@)
    }

    /// A checker of `proxy_server` with no probe.
    pub fn new(proxy_server: ProxyHost) -> (r: SimpleProxyChecker)
        ensures
            r.proxy_server_spec() == proxy_server@,
            r.probers_spec() == Seq::<ProberView>::empty(),
    {
        let r = SimpleProxyChecker { proxy_server, probers: Vec::new() };
        assert(r.probers_spec() =~= Seq::<ProberView>::empty());
        r
    }

    /// A checker of `proxy_server` with the probes `probers`.
    pub fn with_probers(proxy_server: ProxyHost, probers: &[Prober]) -> (r: SimpleProxyChecker)
        ensures
            r.proxy_server_spec() == proxy_server@,
            r.probers_spec() == probers_view(probers@),
    {
        let mut v: Vec<Prober> = Vec::new();
        let mut i: usize = 0;
        while i < probers.len()
            invariant
                i <= probers@.len(),
                probers_view(v@) == probers_view(probers@.take(i as int)),
            decreases probers@.len() - i,
        {
            let ghost before = v@;
            let p = probers[i].clone();
            v.push(p);
            assert(probers_view(v@) =~= probers_view(before).push(p@));
            i = i + 1;
            assert(probers_view(v@) =~= probers_view(probers@.take(i as int)));
        }
        assert(probers@.take(probers@.len() as int) =~= probers@);
        SimpleProxyChecker { proxy_server, probers: v }
    }

    /// Adds a probe after the others.
    pub fn add_prober(&mut self, prober: Prober)
        ensures
            final(self).proxy_server_spec() == old(self).proxy_server_spec(),
            final(self).probers_spec() == old(self).probers_spec().push(prober@),
    {
        let ghost before = self.probers@;
        self.probers.push(prober);
        assert(probers_view(self.probers@) =~= probers_view(before).push(prober@));
    }

    /// The proxy server checked.
    pub fn proxy_server(&self) -> (r: &ProxyHost)
        ensures
            r@ == self.proxy_server_spec(),
    {
        &self.proxy_server
    }

    /// Starts the report of a check, once the liveness probe has reported:
    /// no probe report yet.
    pub fn begin_task(&self, liveness_report: LivenessProberReport) -> (r: TaskReport)
        ensures
            r.proxy_server@ == self.proxy_server_spec(),
            r.liveness_report == liveness_report,
            r.prober_reports@.len() == 0,
    {
        TaskReport::new(self.proxy_server.clone(), liveness_report)
    }

    /// The probes to run once the liveness probe has reported: all of them,
    /// in order, where the proxy answered; none where it did not.
    pub fn probers_to_run(&self, task: &TaskReport) -> (r: Vec<Prober>)
        ensures
            task.liveness_report.alive ==> probers_view(r@) == self.probers_spec(),
            !task.liveness_report.alive ==> r@.len() == 0,
    {
        if !task.is_proxy_server_alive() {
            return Vec::new();
        }
        let mut v: Vec<Prober> = Vec::new();
        let mut i: usize = 0;
        while i < self.probers.len()
            invariant
                i <= self.probers@.len(),
                probers_view(v@) == probers_view(self.probers@.take(i as int)),
            decreases self.probers@.len() - i,
        {
            let ghost before = v@;
            let p = self.probers[i].clone();
            v.push(p);
            assert(probers_view(v@) =~= probers_view(before).push(p@));
            i = i + 1;
            assert(probers_view(v@) =~= probers_view(self.probers@.take(i as int)));
        }
        assert(self.probers@.take(self.probers@.len() as int) =~= self.probers@);
        v
    }

    /// The report of the check once the probes run have reported: where the
    /// proxy answered, their reports follow in the order given; where it did
    /// not, no probe report is kept.
    pub fn finish_task(&self, task: TaskReport, reports: Vec<ProberReport>) -> (r: TaskReport)
        ensures
            r.proxy_server == task.proxy_server,
            r.liveness_report == task.liveness_report,
            r.prober_reports@ == if task.liveness_report.alive {
                task.prober_reports@ + reports@
            } else {
                task.prober_reports@
            },
    {
        let mut task = task;
        if !task.is_proxy_server_alive() {
            return task;
        }
        let ghost target = task.prober_reports@ + reports@;
        let ghost proxy = task.proxy_server;
        let ghost liveness = task.liveness_report;
        let mut rest = reports;
        while rest.len() > 0
            invariant
                task.prober_reports@ + rest@ == target,
                task.proxy_server == proxy,
                task.liveness_report == liveness,
            decreases rest@.len(),
        {
            let ghost before = task.prober_reports@;
            let ghost rest_before = rest@;
            let report = rest.remove(0);
            task.add_report(report);
            assert(task.prober_reports@ + rest@ =~= before + rest_before);
        }
        assert(task.prober_reports@ =~= target);
        task
    }
}

/// Whether a report is of the kind of a probe.
pub open spec fn report_of_kind(report: ProberReport, prober: ProberView) -> bool {
    match prober {
        ProberView::Liveness => report is Liveness,
        ProberView::Basic { .. } => report is Basic,
        ProberView::Http { .. } => report is Http,
    }
}

/// A check of one proxy server, made of the probes that
/// [`SimpleProxyChecker::probers_to_run`] gives (`to_run`), one report of
/// each in turn (`reports`), and [`SimpleProxyChecker::finish_task`] from
/// [`SimpleProxyChecker::begin_task`] (`kept`): where the proxy does not
/// answer no probe runs and no probe report is kept; where it answers,
/// there is one report per probe of the checker, in the order of the probes.
pub proof fn law_one_report_per_probe(
    checker: SimpleProxyChecker,
    alive: bool,
    to_run: Seq<ProberView>,
    reports: Seq<ProberReport>,
    kept: Seq<ProberReport>,
)
    requires
        alive ==> to_run == checker.probers_spec(),
        !alive ==> to_run.len() == 0,
        reports.len() == to_run.len(),
        forall|i: int| 0 <= i < reports.len() ==> report_of_kind(#[trigger] reports[i], to_run[i]),
        kept == if alive {
            Seq::<ProberReport>::empty() + reports
        } else {
            Seq::<ProberReport>::empty()
        },
    ensures
        !alive ==> to_run.len() == 0 && kept.len() == 0,
        alive ==> kept.len() == checker.probers_spec().len() && forall|i: int|
            0 <= i < kept.len() ==> report_of_kind(#[trigger] kept[i], checker.probers_spec()[i]),
{
    if alive {
        assert(kept =~= reports);
    }
}

} // verus!
