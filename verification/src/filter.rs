//! Filters that allow or deny hosts, and their composition.
use vstd::prelude::*;

use crate::common::host_address::{HostAddress, HostAddressView};
use crate::common::proxy::{proxies_view, ProxyHostView, ProxyStrategy, ProxyStrategyView};
use crate::net::{IpAddress, SocketAddress};

verus! {

/// Whether a filter's lists name what is allowed or what is denied.
#[derive(Clone, Copy, Debug, PartialEq, Eq, Hash, Structural)]
pub enum FilterMode {
    AllowList,
    DenyList,
}

impl Default for FilterMode {
    fn default() -> (r: FilterMode)
        ensures
            r == FilterMode::DenyList,
    {
        FilterMode::DenyList
    }
}

/// What a filter decides of a host.
#[derive(Clone, Copy, Debug, PartialEq, Eq, Hash, Structural)]
pub enum FilterAction {
    Allow,
    Deny,
}

/// A filter of hosts. Each kind of filter says by its spec functions what it
/// decides.
pub trait HostFilter {
    spec fn spec_filter_socket(&self, socket: SocketAddress) -> FilterAction;

    spec fn spec_filter_host(&self, host: Seq<char>, port: u16) -> FilterAction;

    spec fn spec_filter_hostname(&self, hostname: Seq<char>) -> FilterAction;

    spec fn spec_filter_address(&self, addr: IpAddress) -> FilterAction;

    spec fn spec_filter_port(&self, port: u16) -> FilterAction;

    fn filter_socket(&self, socket: &SocketAddress) -> (r: FilterAction)
        ensures
            r == self.spec_filter_socket(*socket),
    ;

    fn filter_host(&self, host: &str, port: u16) -> (r: FilterAction)
        ensures
            r == self.spec_filter_host(host@, port),
    ;

    fn filter_hostname(&self, hostname: &str) -> (r: FilterAction)
        ensures
            r == self.spec_filter_hostname(hostname@),
    ;

    fn filter_address(&self, addr: &IpAddress) -> (r: FilterAction)
        ensures
            r == self.spec_filter_address(*addr),
    ;

    fn filter_port(&self, port: u16) -> (r: FilterAction)
        ensures
            r == self.spec_filter_port(port),
    ;

    /// A socket address is filtered as a socket, a domain name as a host
    /// and a port.
    fn filter_host_address(&self, addr: &HostAddress) -> (r: FilterAction)
        ensures
            r == match addr@ {
                HostAddressView::Socket(s) => self.spec_filter_socket(s),
                HostAddressView::DomainName(h, p) => self.spec_filter_host(h, p),
            },
    {
        match addr {
            HostAddress::Socket(socket) => self.filter_socket(socket),
            HostAddress::DomainName(host, port) => self.filter_host(host.as_str(), *port),
        }
    }
}

pub open spec fn addresses_view(v: Seq<HostAddress>) -> Seq<HostAddressView> {
    v.map_values(|a: HostAddress| a@)
}

/// The decision of a filter on a host address.
pub open spec fn spec_filter_host_address<F: HostFilter + ?Sized>(f: &F, addr: HostAddressView) -> FilterAction {
    match addr {
        HostAddressView::Socket(s) => f.spec_filter_socket(s),
        HostAddressView::DomainName(h, p) => f.spec_filter_host(h, p),
    }
}

/// The addresses of the proxies that a filter denies, in order.
pub open spec fn denied_addresses<F: HostFilter + ?Sized>(f: &F, proxies: Seq<ProxyHostView>) -> Seq<HostAddressView>
    decreases proxies.len(),
{
    if proxies.len() == 0 {
        seq![]
    } else {
        let rest = denied_addresses(f, proxies.drop_last());
        let addr = proxies.last().host_address();
        if spec_filter_host_address(f, addr) == FilterAction::Deny {
            rest.push(addr)
        } else {
            rest
        }
    }
}

/// Whether no proxy server of a strategy is denied, and the addresses of
/// those that are.
pub open spec fn check_strategy<F: HostFilter + ?Sized>(f: &F, s: ProxyStrategyView) -> (bool, Seq<HostAddressView>) {
    match s {
        ProxyStrategyView::Single(p) => if spec_filter_host_address(f, p.host_address())
            == FilterAction::Deny {
            (false, seq![p.host_address()])
        } else {
            (true, seq![])
        },
        ProxyStrategyView::Chained(ps) => {
            let d = denied_addresses(f, ps);
            (d.len() == 0, d)
        },
    }
}

/// Checks the proxy servers of a strategy: whether none is denied, and
/// the addresses of those that are.
pub fn check_proxy_strategy<F: HostFilter + ?Sized>(f: &F, strategy: &ProxyStrategy) -> (r: (bool, Vec<HostAddress>))
    ensures
        r.0 == check_strategy(f, strategy@).0,
        addresses_view(r.1@) == check_strategy(f, strategy@).1,
{
    match strategy {
        ProxyStrategy::Single(proxy) => {
            let addr = proxy.host_address();
            if f.filter_host_address(&addr) == FilterAction::Deny {
                let mut v: Vec<HostAddress> = Vec::new();
                v.push(addr);
                assert(addresses_view(v@) =~= seq![proxy@.host_address()]);
                return (false, v);
            }
            let v: Vec<HostAddress> = Vec::new();
            assert(addresses_view(v@) =~= Seq::<HostAddressView>::empty());
            (true, v)
        },
        ProxyStrategy::Chained(proxies) => {
            let mut denied: Vec<HostAddress> = Vec::new();
            let mut i: usize = 0;
            while i < proxies.len()
                invariant
                    i <= proxies@.len(),
                    addresses_view(denied@) == denied_addresses(
                        f,
                        proxies_view(proxies@.take(i as int)),
                    ),
                decreases proxies@.len() - i,
            {
                let addr = proxies[i].host_address();
                let ghost before = denied@;
                if f.filter_host_address(&addr) == FilterAction::Deny {
                    denied.push(addr);
                }
                proof {
                    let pv = proxies_view(proxies@.take(i + 1));
                    assert(pv.drop_last() =~= proxies_view(proxies@.take(i as int)));
                    assert(pv.last() == proxies@[i as int]@);
                    assert(addresses_view(denied@) =~= denied_addresses(f, pv));
                }
                i = i + 1;
            }
            assert(proxies@.take(proxies@.len() as int) =~= proxies@);
            let ok = denied.len() == 0;
            (ok, denied)
        },
    }
}

/// Filters that deny what any of their members denies.
pub struct ComposerFilter<F> {
    filters: Vec<F>,
}

impl<F: HostFilter> ComposerFilter<F> {
    pub closed spec fn members(&self) -> Seq<F> {
        self.filters@
    }

    /// A composition of no filters, which allows everything.
    pub fn new() -> (r: Self)
        ensures
            r.members() == Seq::<F>::empty(),
    {
        ComposerFilter { filters: Vec::new() }
    }

    /// Adds a filter.
    pub fn add_filter(&mut self, filter: F)
        ensures
            final(self).members() == old(self).members().push(filter),
    {
        self.filters.push(filter);
    }

    /// The filters, in the order they were added.
    pub fn destruct(self) -> (r: Vec<F>)
        ensures
            r@ == self.members(),
    {
        self.filters
    }

    /// Whether some member denies the port.
    fn any_denies_port(&self, port: u16) -> (r: bool)
        ensures
            r == exists|i: int|
                0 <= i < self.members().len() && #[trigger] self.members()[i].spec_filter_port(port)
                    == FilterAction::Deny,
    {
        let mut i: usize = 0;
        while i < self.filters.len()
            invariant
                i <= self.filters@.len(),
                forall|j: int| 0 <= j < i ==> #[trigger] self.filters@[j].spec_filter_port(port) != FilterAction::Deny,
            decreases self.filters@.len() - i,
        {
            if self.filters[i].filter_port(port) == FilterAction::Deny {
                return true;
            }
            i = i + 1;
        }
        false
    }

    fn any_denies_hostname(&self, hostname: &str) -> (r: bool)
        ensures
            r == exists|i: int|
                0 <= i < self.members().len() && #[trigger] self.members()[i].spec_filter_hostname(hostname@)
                    == FilterAction::Deny,
    {
        let mut i: usize = 0;
        while i < self.filters.len()
            invariant
                i <= self.filters@.len(),
                forall|j: int| 0 <= j < i ==> #[trigger] self.filters@[j].spec_filter_hostname(hostname@) != FilterAction::Deny,
            decreases self.filters@.len() - i,
        {
            if self.filters[i].filter_hostname(hostname) == FilterAction::Deny {
                return true;
            }
            i = i + 1;
        }
        false
    }

    fn any_denies_address(&self, addr: &IpAddress) -> (r: bool)
        ensures
            r == exists|i: int|
                0 <= i < self.members().len() && #[trigger] self.members()[i].spec_filter_address(*addr)
                    == FilterAction::Deny,
    {
        let mut i: usize = 0;
        while i < self.filters.len()
            invariant
                i <= self.filters@.len(),
                forall|j: int| 0 <= j < i ==> #[trigger] self.filters@[j].spec_filter_address(*addr) != FilterAction::Deny,
            decreases self.filters@.len() - i,
        {
            if self.filters[i].filter_address(addr) == FilterAction::Deny {
                return true;
            }
            i = i + 1;
        }
        false
    }

    fn any_denies_socket(&self, socket: &SocketAddress) -> (r: bool)
        ensures
            r == exists|i: int|
                0 <= i < self.members().len() && #[trigger] self.members()[i].spec_filter_socket(*socket)
                    == FilterAction::Deny,
    {
        let mut i: usize = 0;
        while i < self.filters.len()
            invariant
                i <= self.filters@.len(),
                forall|j: int| 0 <= j < i ==> #[trigger] self.filters@[j].spec_filter_socket(*socket) != FilterAction::Deny,
            decreases self.filters@.len() - i,
        {
            if self.filters[i].filter_socket(socket) == FilterAction::Deny {
                return true;
            }
            i = i + 1;
        }
        false
    }

    fn any_denies_host(&self, host: &str, port: u16) -> (r: bool)
        ensures
            r == exists|i: int|
                0 <= i < self.members().len() && #[trigger] self.members()[i].spec_filter_host(host@, port)
                    == FilterAction::Deny,
    {
        let mut i: usize = 0;
        while i < self.filters.len()
            invariant
                i <= self.filters@.len(),
                forall|j: int| 0 <= j < i ==> #[trigger] self.filters@[j].spec_filter_host(host@, port) != FilterAction::Deny,
            decreases self.filters@.len() - i,
        {
            if self.filters[i].filter_host(host, port) == FilterAction::Deny {
                return true;
            }
            i = i + 1;
        }
        false
    }
}

/// Deny where some member denies, else allow.
pub open spec fn deny_if(b: bool) -> FilterAction {
    if b {
        FilterAction::Deny
    } else {
        FilterAction::Allow
    }
}

impl<F: HostFilter> HostFilter for ComposerFilter<F> {
    open spec fn spec_filter_socket(&self, socket: SocketAddress) -> FilterAction {
        deny_if(exists|i: int| 0 <= i < self.members().len() && #[trigger] self.members()[i].spec_filter_socket(socket) == FilterAction::Deny)
    }

    open spec fn spec_filter_host(&self, host: Seq<char>, port: u16) -> FilterAction {
        deny_if(exists|i: int| 0 <= i < self.members().len() && #[trigger] self.members()[i].spec_filter_host(host, port) == FilterAction::Deny)
    }

    open spec fn spec_filter_hostname(&self, hostname: Seq<char>) -> FilterAction {
        deny_if(exists|i: int| 0 <= i < self.members().len() && #[trigger] self.members()[i].spec_filter_hostname(hostname) == FilterAction::Deny)
    }

    open spec fn spec_filter_address(&self, addr: IpAddress) -> FilterAction {
        deny_if(exists|i: int| 0 <= i < self.members().len() && #[trigger] self.members()[i].spec_filter_address(addr) == FilterAction::Deny)
    }

    open spec fn spec_filter_port(&self, port: u16) -> FilterAction {
        deny_if(exists|i: int| 0 <= i < self.members().len() && #[trigger] self.members()[i].spec_filter_port(port) == FilterAction::Deny)
    }

    fn filter_port(&self, port: u16) -> (r: FilterAction) {
        if self.any_denies_port(port) {
            FilterAction::Deny
        } else {
            FilterAction::Allow
        }
    }

    fn filter_hostname(&self, hostname: &str) -> (r: FilterAction) {
        if self.any_denies_hostname(hostname) {
            FilterAction::Deny
        } else {
            FilterAction::Allow
        }
    }

    fn filter_address(&self, addr: &IpAddress) -> (r: FilterAction) {
        if self.any_denies_address(addr) {
            FilterAction::Deny
        } else {
            FilterAction::Allow
        }
    }

    fn filter_socket(&self, socket: &SocketAddress) -> (r: FilterAction) {
        if self.any_denies_socket(socket) {
            FilterAction::Deny
        } else {
            FilterAction::Allow
        }
    }

    fn filter_host(&self, host: &str, port: u16) -> (r: FilterAction) {
        if self.any_denies_host(host, port) {
            FilterAction::Deny
        } else {
            FilterAction::Allow
        }
    }
}

}

verus! {

/// A strategy passes the check exactly when no address is reported denied.
pub proof fn law_strategy_ok_iff_none_denied<F: HostFilter + ?Sized>(f: &F, s: ProxyStrategyView)
    ensures
        check_strategy(f, s).0 <==> check_strategy(f, s).1.len() == 0,
{
}

/// Every reported address is the address of one of the proxies, and the
/// filter denies it; every proxy whose address the filter denies is reported.
pub proof fn law_denied_addresses_exact<F: HostFilter + ?Sized>(f: &F, proxies: Seq<ProxyHostView>)
    ensures
        forall|k: int|
            0 <= k < denied_addresses(f, proxies).len() ==> spec_filter_host_address(
                f,
                #[trigger] denied_addresses(f, proxies)[k],
            ) == FilterAction::Deny && exists|j: int|
                0 <= j < proxies.len() && #[trigger] proxies[j].host_address()
                    == denied_addresses(f, proxies)[k],
        forall|j: int|
            0 <= j < proxies.len() && spec_filter_host_address(f, #[trigger] proxies[j].host_address())
                == FilterAction::Deny ==> denied_addresses(f, proxies).contains(
                proxies[j].host_address(),
            ),
    decreases proxies.len(),
{
    if proxies.len() > 0 {
        let init = proxies.drop_last();
        law_denied_addresses_exact(f, init);
        let d = denied_addresses(f, proxies);
        let di = denied_addresses(f, init);
        assert forall|k: int| 0 <= k < d.len() implies spec_filter_host_address(f, #[trigger] d[k])
            == FilterAction::Deny && exists|j: int|
            0 <= j < proxies.len() && #[trigger] proxies[j].host_address() == d[k] by {
            if k < di.len() {
                assert(d[k] == di[k]);
                let j = choose|j: int| 0 <= j < init.len() && #[trigger] init[j].host_address() == di[k];
                assert(proxies[j] == init[j]);
            } else {
                assert(proxies[proxies.len() - 1].host_address() == d[k]);
            }
        }
        assert forall|j: int|
            0 <= j < proxies.len() && spec_filter_host_address(f, #[trigger] proxies[j].host_address())
                == FilterAction::Deny implies d.contains(proxies[j].host_address()) by {
            if j < init.len() {
                assert(init[j] == proxies[j]);
                let k = choose|k: int| 0 <= k < di.len() && di[k] == init[j].host_address();
                assert(d[k] == di[k]);
            } else {
                assert(d[d.len() - 1] == proxies[j].host_address());
            }
        }
    }
}

/// A single proxy passes the check exactly when the filter does not deny
/// its address; it is reported, alone, exactly when it is denied; and the
/// answer is the one for the chain made of that proxy alone.
pub proof fn law_single_proxy_check<F: HostFilter + ?Sized>(f: &F, p: ProxyHostView)
    ensures
        check_strategy(f, ProxyStrategyView::Single(p)).0 <==> spec_filter_host_address(
            f,
            p.host_address(),
        ) != FilterAction::Deny,
        spec_filter_host_address(f, p.host_address()) == FilterAction::Deny ==> check_strategy(
            f,
            ProxyStrategyView::Single(p),
        ).1 == seq![p.host_address()],
        spec_filter_host_address(f, p.host_address()) != FilterAction::Deny ==> check_strategy(
            f,
            ProxyStrategyView::Single(p),
        ).1.len() == 0,
        check_strategy(f, ProxyStrategyView::Single(p)) == check_strategy(
            f,
            ProxyStrategyView::Chained(seq![p]),
        ),
{
    let d = denied_addresses(f, seq![p]);
    assert(seq![p].drop_last() =~= Seq::<ProxyHostView>::empty());
    assert(denied_addresses(f, Seq::<ProxyHostView>::empty()) =~= Seq::<HostAddressView>::empty());
    if spec_filter_host_address(f, p.host_address()) == FilterAction::Deny {
        assert(d =~= seq![p.host_address()]);
    } else {
        assert(d =~= Seq::<HostAddressView>::empty());
    }
}

/// A composition of no filters allows everything.
pub proof fn law_empty_composer_allows<F: HostFilter>(c: ComposerFilter<F>, port: u16, host: Seq<char>, socket: SocketAddress)
    requires
        c.members().len() == 0,
    ensures
        c.spec_filter_port(port) == FilterAction::Allow,
        c.spec_filter_hostname(host) == FilterAction::Allow,
        c.spec_filter_host(host, port) == FilterAction::Allow,
        c.spec_filter_socket(socket) == FilterAction::Allow,
{
}

/// Adding a filter to a composition keeps every denial: what was denied
/// stays denied, and what the new filter denies is denied.
pub proof fn law_composer_add_keeps_denials<F: HostFilter>(c1: ComposerFilter<F>, c2: ComposerFilter<F>, f: F, port: u16)
    requires
        c2.members() == c1.members().push(f),
    ensures
        c1.spec_filter_port(port) == FilterAction::Deny ==> c2.spec_filter_port(port) == FilterAction::Deny,
        f.spec_filter_port(port) == FilterAction::Deny ==> c2.spec_filter_port(port) == FilterAction::Deny,
{
    if c1.spec_filter_port(port) == FilterAction::Deny {
        let i = choose|i: int| 0 <= i < c1.members().len() && #[trigger] c1.members()[i].spec_filter_port(port) == FilterAction::Deny;
        assert(c2.members()[i] == c1.members()[i]);
    }
    if f.spec_filter_port(port) == FilterAction::Deny {
        assert(c2.members()[c1.members().len() as int] == f);
    }
}

}
