//! Which proxies to go through, and what to ask each of them, on the way to
//! a host.
use std::sync::Arc;
use vstd::prelude::*;

use crate::client::Error;
use crate::common::host_address::{HostAddress, HostAddressView};
use crate::common::proxy::{ProxyHost, ProxyHostView, ProxyStrategy, ProxyStrategyView};

verus! {

/// One handshake on the way: ask `proxy` for a connection to `target`.
#[derive(Debug)]
pub struct Hop {
    pub proxy: ProxyHost,
    pub target: HostAddress,
}

pub struct HopView {
    pub proxy: ProxyHostView,
    pub target: HostAddressView,
}

impl View for Hop {
    type V = HopView;

    open spec fn view(&self) -> HopView {
        HopView { proxy: self.proxy@, target: self.target@ }
    }
}

/// How to reach a host: open a connection to `first`, then make the
/// handshakes of `hops` on it, in order.
#[derive(Debug)]
pub struct ConnectPlan {
    pub first: HostAddress,
    pub hops: Vec<Hop>,
}

pub struct ConnectPlanView {
    pub first: HostAddressView,
    pub hops: Seq<HopView>,
}

impl View for ConnectPlan {
    type V = ConnectPlanView;

    open spec fn view(&self) -> ConnectPlanView {
        ConnectPlanView { first: self.first@, hops: self.hops@.map_values(|h: Hop| h@) }
    }
}

/// The handshakes between the proxies of a chain: each proxy is asked for a
/// connection to the next one.
pub open spec fn chain_hops(proxies: Seq<ProxyHostView>) -> Seq<HopView> {
    Seq::new(
        (proxies.len() - 1) as nat,
        |i: int| HopView { proxy: proxies[i], target: proxies[i + 1].host_address() },
    )
}

/// The way to `host`: through a single proxy, one handshake with it; through
/// a chain, a connection to its first proxy, the handshakes between its
/// proxies, and the last proxy asked for `host`. An empty chain gives none.
pub open spec fn connect_plan(strategy: ProxyStrategyView, host: HostAddressView) -> Option<
    ConnectPlanView,
> {
    match strategy {
        ProxyStrategyView::Single(p) => Some(
            ConnectPlanView { first: p.host_address(), hops: seq![HopView { proxy: p, target: host }] },
        ),
        ProxyStrategyView::Chained(ps) => if ps.len() == 0 {
            None
        } else {
            Some(
                ConnectPlanView {
                    first: ps[0].host_address(),
                    hops: chain_hops(ps).push(HopView { proxy: ps.last(), target: host }),
                },
            )
        },
    }
}

/// The way to check that the proxies answer: a connection to the first
/// proxy and, through a chain, the handshakes between its proxies.
pub open spec fn liveness_plan(strategy: ProxyStrategyView) -> Option<ConnectPlanView> {
    match strategy {
        ProxyStrategyView::Single(p) => Some(
            ConnectPlanView { first: p.host_address(), hops: Seq::empty() },
        ),
        ProxyStrategyView::Chained(ps) => if ps.len() == 0 {
            None
        } else {
            Some(ConnectPlanView { first: ps[0].host_address(), hops: chain_hops(ps) })
        },
    }
}

/// What a handshake asks of a proxy, by its kind: SOCKS4a sends no user id;
/// SOCKS5 offers the user name and password; an HTTP tunnel sends the user
/// agent.
#[derive(Debug)]
pub enum HandshakeMethod {
    Socks4a,
    Socks5 { username: Option<String>, password: Option<String> },
    HttpTunnel { user_agent: Option<String> },
}

pub open spec fn same_opt_str(a: Option<String>, b: Option<String>) -> bool {
    crate::url_parts::opt_str_view(a) == crate::url_parts::opt_str_view(b)
}

/// The handshake to make with `proxy`.
pub fn handshake_method(proxy: &ProxyHost) -> (r: HandshakeMethod)
    ensures
        match (proxy, r) {
            (ProxyHost::Socks4a { .. }, HandshakeMethod::Socks4a) => true,
            (
                ProxyHost::Socks5 { username, password, .. },
                HandshakeMethod::Socks5 { username: u, password: p },
            ) => same_opt_str(*username, u) && same_opt_str(*password, p),
            (
                ProxyHost::HttpTunnel { user_agent, .. },
                HandshakeMethod::HttpTunnel { user_agent: ua },
            ) => same_opt_str(*user_agent, ua),
            _ => false,
        },
{
    match proxy {
        ProxyHost::Socks4a { .. } => HandshakeMethod::Socks4a,
        ProxyHost::Socks5 { username, password, .. } => HandshakeMethod::Socks5 {
            username: crate::url_parts::clone_opt_str(username),
            password: crate::url_parts::clone_opt_str(password),
        },
        ProxyHost::HttpTunnel { user_agent, .. } => HandshakeMethod::HttpTunnel {
            user_agent: crate::url_parts::clone_opt_str(user_agent),
        },
    }
}

/// Reaches hosts by a strategy of proxies.
#[derive(Clone, Debug)]
pub struct ProxyConnector {
    strategy: Arc<ProxyStrategy>,
}

/// The handshakes between the proxies of `proxies`, in order.
fn hops_between(proxies: &Vec<ProxyHost>) -> (r: Vec<Hop>)
    requires
        proxies@.len() > 0,
    ensures
        r@.map_values(|h: Hop| h@) == chain_hops(crate::common::proxy::proxies_view(proxies@)),
{
    let ghost pv = crate::common::proxy::proxies_view(proxies@);
    let mut hops: Vec<Hop> = Vec::new();
    let mut i: usize = 0;
    while i < proxies.len() - 1
        invariant
            proxies@.len() > 0,
            i <= proxies@.len() - 1,
            pv == crate::common::proxy::proxies_view(proxies@),
            hops@.map_values(|h: Hop| h@) == chain_hops(pv).take(i as int),
        decreases proxies@.len() - i,
    {
        let hop = Hop { proxy: proxies[i].clone(), target: proxies[i + 1].host_address() };
        assert(hop@ == chain_hops(pv)[i as int]);
        let ghost before = hops@;
        hops.push(hop);
        assert(hops@.map_values(|h: Hop| h@) =~= before.map_values(|h: Hop| h@).push(hop@));
        i = i + 1;
        assert(hops@.map_values(|h: Hop| h@) =~= chain_hops(pv).take(i as int));
    }
    assert(chain_hops(pv).take(i as int) =~= chain_hops(pv));
    hops
}

impl ProxyConnector {
    pub closed spec fn strategy_spec(&self) -> ProxyStrategyView {
        (*self.strategy)@
    }

    /// A connector for `strategy`; it is always made.
    pub fn new(strategy: Arc<ProxyStrategy>) -> (r: Result<ProxyConnector, Error>)
        ensures
            r matches Ok(c) && c.strategy_spec() == (*strategy)@,
    {
        Ok(ProxyConnector { strategy })
    }

    /// The strategy.
    pub fn strategy(&self) -> (r: &ProxyStrategy)
        ensures
            r@ == self.strategy_spec(),
    {
        &*self.strategy
    }

    /// The way to `host` by this connector's strategy; an empty chain
    /// provides no proxy service.
    pub fn plan(&self, host: &HostAddress) -> (r: Result<ConnectPlan, Error>)
        ensures
            match connect_plan(self.strategy_spec(), host@) {
                Some(p) => r matches Ok(q) && q@ == p,
                None => r matches Err(Error::NoProxyServiceProvided),
            },
    {
        plan_for(&*self.strategy, host)
    }

    /// The way to check that the proxies of `strategy` answer.
    pub fn liveness_plan(strategy: &ProxyStrategy) -> (r: Result<ConnectPlan, Error>)
        ensures
            match liveness_plan(strategy@) {
                Some(p) => r matches Ok(q) && q@ == p,
                None => r matches Err(Error::NoProxyServiceProvided),
            },
    {
        match strategy {
            ProxyStrategy::Single(p) => {
                let plan = ConnectPlan { first: p.host_address(), hops: Vec::new() };
                assert(plan@.hops =~= Seq::<HopView>::empty());
                Ok(plan)
            },
            ProxyStrategy::Chained(ps) => {
                if ps.len() == 0 {
                    return Err(Error::NoProxyServiceProvided);
                }
                let hops = hops_between(ps);
                let plan = ConnectPlan { first: ps[0].host_address(), hops };
                Ok(plan)
            },
        }
    }
}

/// The way to `host` by `strategy`.
pub fn plan_for(strategy: &ProxyStrategy, host: &HostAddress) -> (r: Result<ConnectPlan, Error>)
    ensures
        match connect_plan(strategy@, host@) {
            Some(p) => r matches Ok(q) && q@ == p,
            None => r matches Err(Error::NoProxyServiceProvided),
        },
{
    match strategy {
        ProxyStrategy::Single(p) => {
            let mut hops: Vec<Hop> = Vec::new();
            hops.push(Hop { proxy: p.clone(), target: host.clone() });
            let plan = ConnectPlan { first: p.host_address(), hops };
            assert(plan@.hops =~= seq![HopView { proxy: p@, target: host@ }]);
            Ok(plan)
        },
        ProxyStrategy::Chained(ps) => {
            if ps.len() == 0 {
                return Err(Error::NoProxyServiceProvided);
            }
            let ghost pv = crate::common::proxy::proxies_view(ps@);
            let mut hops = hops_between(ps);
            let ghost before = hops@;
            let last = ps.len() - 1;
            hops.push(Hop { proxy: ps[last].clone(), target: host.clone() });
            assert(hops@.map_values(|h: Hop| h@) =~= before.map_values(|h: Hop| h@).push(
                HopView { proxy: pv.last(), target: host@ },
            ));
            let plan = ConnectPlan { first: ps[0].host_address(), hops };
            Ok(plan)
        },
    }
}

/// Through a chain, the first connection goes to the first proxy, each
/// handshake but the last asks a proxy for the next one, and the last asks
/// the last proxy for the host: as many handshakes as proxies.
pub proof fn law_chain_plan(proxies: Seq<ProxyHostView>, host: HostAddressView)
    requires
        proxies.len() > 0,
    ensures
        connect_plan(ProxyStrategyView::Chained(proxies), host) matches Some(p) && p.first
            == proxies[0].host_address() && p.hops.len() == proxies.len() && (forall|i: int|
            0 <= i < proxies.len() ==> #[trigger] p.hops[i].proxy == proxies[i]) && (forall|i: int|
            0 <= i < proxies.len() - 1 ==> #[trigger] p.hops[i].target == proxies[i
                + 1].host_address()) && p.hops[proxies.len() - 1].target == host,
{
}

/// A single proxy is the chain of that one proxy.
pub proof fn law_single_is_chain_of_one(p: ProxyHostView, host: HostAddressView)
    ensures
        connect_plan(ProxyStrategyView::Single(p), host) == connect_plan(
            ProxyStrategyView::Chained(seq![p]),
            host,
        ),
{
    let a = connect_plan(ProxyStrategyView::Single(p), host).unwrap();
    let b = connect_plan(ProxyStrategyView::Chained(seq![p]), host).unwrap();
    assert(chain_hops(seq![p]) =~= Seq::<HopView>::empty());
    assert(a.hops =~= b.hops);
}

/// Checking that the proxies answer makes the handshakes of the way to a
/// host but the last.
pub proof fn law_liveness_is_prefix(strategy: ProxyStrategyView, host: HostAddressView)
    ensures
        match (liveness_plan(strategy), connect_plan(strategy, host)) {
            (Some(l), Some(c)) => l.first == c.first && l.hops == c.hops.drop_last(),
            (None, None) => true,
            _ => false,
        },
{
    match strategy {
        ProxyStrategyView::Single(p) => {
            let c = connect_plan(strategy, host).unwrap();
            assert(c.hops.drop_last() =~= Seq::<HopView>::empty());
        },
        ProxyStrategyView::Chained(ps) => {
            if ps.len() > 0 {
                let c = connect_plan(strategy, host).unwrap();
                assert(c.hops.drop_last() =~= chain_hops(ps));
            }
        },
    }
}

} // verus!
