//! IP configuration strategies.
//!
//! A [`Configurator`] is polled once per driver tick and answers with the
//! desired IP configuration — [`Config::Down`], [`Config::Up`] with address,
//! gateway and DNS servers — or `None` for "no change this tick", in which
//! case the caller keeps the previously applied configuration.
//!
//! The [`StaticConfigurator`] always answers with the fixed configuration it
//! was built with.  The [`DhcpConfigurator`] wraps a DHCP client capability:
//! it lazily creates the client on first poll, resets it and answers `Down`
//! whenever the link is down, and otherwise maps the client's current lease
//! to a configuration.

use vstd::prelude::*;

verus! {

/// Greatest number of DNS servers a configuration may carry.
pub const MAX_DNS_SERVERS: usize = 3;

/// An IPv4 address as four octets.
#[derive(PartialEq, Eq, Structural, Clone, Copy, Debug)]
pub struct Ipv4Address(pub u8, pub u8, pub u8, pub u8);

impl Ipv4Address {
    /// The unspecified address 0.0.0.0.
    pub fn unspecified() -> (a: Ipv4Address)
        ensures
            a == Ipv4Address(0u8, 0u8, 0u8, 0u8),
    {
        Ipv4Address(0u8, 0u8, 0u8, 0u8)
    }
}

/// An IPv4 address together with its network prefix length.
#[derive(PartialEq, Eq, Structural, Clone, Copy, Debug)]
pub struct Ipv4Cidr {
    pub address: Ipv4Address,
    pub prefix_len: u8,
}

impl Ipv4Cidr {
    /// A prefix length never exceeds the 32 address bits.
    pub open spec fn wf(self) -> bool {
        self.prefix_len <= 32
    }

    /// The host route placeholder: unspecified address with prefix 32.
    pub fn unspecified() -> (c: Ipv4Cidr)
        ensures
            c == (Ipv4Cidr { address: Ipv4Address(0u8, 0u8, 0u8, 0u8), prefix_len: 32u8 }),
            c.wf(),
    {
        Ipv4Cidr { address: Ipv4Address::unspecified(), prefix_len: 32u8 }
    }
}

/// An applied "interface up" configuration.
pub struct UpConfig {
    pub address: Ipv4Cidr,
    pub gateway: Ipv4Address,
    pub dns_servers: Vec<Ipv4Address>,
}

impl UpConfig {
    pub open spec fn wf(self) -> bool {
        &&& self.address.wf()
        &&& self.dns_servers@.len() <= MAX_DNS_SERVERS
    }
}

/// The desired IP configuration for one tick.
pub enum Config {
    Down,
    Up(UpConfig),
}

impl Config {
    pub open spec fn wf(self) -> bool {
        match self {
            Config::Down => true,
            Config::Up(u) => u.wf(),
        }
    }
}

/// Copy a DNS server list.
fn copy_addrs(v: &Vec<Ipv4Address>) -> (r: Vec<Ipv4Address>)
    ensures
        r@ == v@,
{
    let mut r: Vec<Ipv4Address> = Vec::new();
    let mut i: usize = 0;
    while i < v.len()
        invariant
            i <= v@.len(),
            r@ =~= v@.take(i as int),
        decreases v@.len() - i,
    {
        r.push(v[i]);
        proof {
            assert(r@ =~= v@.take(i + 1));
        }
        i = i + 1;
    }
    proof {
        assert(v@.take(i as int) =~= v@);
    }
    r
}

/// A pluggable IP configuration strategy, polled once per driver tick.
pub trait Configurator {
    /// Invariant the strategy maintains across polls.
    spec fn inv(&self) -> bool;

    /// Answer with the desired configuration, or `None` for "no change this
    /// tick" (the caller then retains the previously applied one).
    fn poll(&mut self, link_up: bool) -> (r: Option<Config>)
        requires
            old(self).inv(),
        ensures
            final(self).inv(),
            match r {
                Some(c) => c.wf(),
                None => true,
            },
    ;
}

/// Strategy that always desires one fixed `Up` configuration.
pub struct StaticConfigurator {
    config: UpConfig,
}

impl StaticConfigurator {
    /// The configuration this strategy was built with.
    pub closed spec fn config_spec(self) -> UpConfig {
        self.config
    }

    pub fn new(config: UpConfig) -> (s: StaticConfigurator)
        requires
            config.wf(),
        ensures
            s.config_spec() == config,
            s.inv(),
    {
        StaticConfigurator { config }
    }
}

impl Configurator for StaticConfigurator {
    open spec fn inv(&self) -> bool {
        self.config_spec().wf()
    }

    /// Idempotent: every poll answers `Up` with the same fixed
    /// configuration.
    fn poll(&mut self, link_up: bool) -> (r: Option<Config>)
        ensures
            final(self).config_spec() == old(self).config_spec(),
            (match r {
                Some(c) => c matches Config::Up(u) && u.address == old(self).config_spec().address
                    && u.gateway == old(self).config_spec().gateway && u.dns_servers@ == old(
                    self,
                ).config_spec().dns_servers@,
                None => false,
            }),
    {
        let dns_servers = copy_addrs(&self.config.dns_servers);
        Some(
            Config::Up(
                UpConfig {
                    address: self.config.address,
                    gateway: self.config.gateway,
                    dns_servers,
                },
            ),
        )
    }
}

/// What a DHCP client knows after one of its own poll steps: the currently
/// leased address, the router option and the offered DNS servers, any of
/// which may be absent.
pub struct DhcpLease {
    pub address: Option<Ipv4Cidr>,
    pub router: Option<Ipv4Address>,
    pub dns_servers: Vec<Option<Ipv4Address>>,
}

impl DhcpLease {
    pub open spec fn wf(self) -> bool {
        &&& (self.address matches Some(a) ==> a.wf())
        &&& self.dns_servers@.len() <= MAX_DNS_SERVERS
    }
}

/// Capability surface of the raw-socket DHCP client (the wire protocol
/// itself is an external collaborator; only this poll contract is relied
/// on).
pub trait DhcpClient {
    /// Invariant the client maintains.
    spec fn inv(&self) -> bool;

    /// Whether the client currently holds a lease.
    spec fn has_lease(&self) -> bool;

    /// Create the client from its one-shot reserved buffer storage.
    fn create() -> (c: Self) where Self: core::marker::Sized
        ensures
            c.inv(),
            !c.has_lease(),
    ;

    /// Forget any lease and restart the wire exchange from scratch.
    fn reset(&mut self)
        requires
            old(self).inv(),
        ensures
            final(self).inv(),
            !final(self).has_lease(),
    ;

    /// Drive the wire exchange one step.  `None` means nothing changed this
    /// tick; an answer reports the current lease state: a leased address is
    /// present in the answer exactly when the client holds a lease.
    fn poll_step(&mut self) -> (r: Option<DhcpLease>)
        requires
            old(self).inv(),
        ensures
            final(self).inv(),
            match r {
                Some(l) => l.wf() && (l.address is Some <==> final(self).has_lease()),
                None => final(self).has_lease() == old(self).has_lease(),
            },
    ;
}

/// Collect the present entries of a DNS server list, in order.
pub open spec fn collect_dns(s: Seq<Option<Ipv4Address>>) -> Seq<Ipv4Address>
    decreases s.len(),
{
    if s.len() == 0 {
        Seq::empty()
    } else {
        let rest = collect_dns(s.drop_last());
        match s.last() {
            Some(a) => rest.push(a),
            None => rest,
        }
    }
}

/// Collecting never yields more entries than were offered.
pub proof fn lemma_collect_dns_len(s: Seq<Option<Ipv4Address>>)
    ensures
        collect_dns(s).len() <= s.len(),
    decreases s.len(),
{
    if s.len() > 0 {
        lemma_collect_dns_len(s.drop_last());
    }
}

/// Map a DHCP lease report to the desired configuration: no leased address
/// means `Down`; otherwise `Up` with the leased address, the router
/// (defaulting to the unspecified address if absent) and the present DNS
/// servers in order, dropping unset entries.
pub fn config_from_dhcp(l: &DhcpLease) -> (r: Config)
    requires
        l.wf(),
    ensures
        r.wf(),
        match l.address {
            None => r matches Config::Down,
            Some(addr) => (match r {
                Config::Up(u) => u.address == addr && u.gateway == (match l.router {
                    Some(g) => g,
                    None => Ipv4Address(0u8, 0u8, 0u8, 0u8),
                }) && u.dns_servers@ == collect_dns(l.dns_servers@),
                Config::Down => false,
            }),
        },
{
    let addr = match &l.address {
        None => {
            return Config::Down;
        },
        Some(a) => *a,
    };
    let gateway = match &l.router {
        Some(g) => *g,
        None => Ipv4Address::unspecified(),
    };
    let mut dns_servers: Vec<Ipv4Address> = Vec::new();
    let mut i: usize = 0;
    while i < l.dns_servers.len()
        invariant
            i <= l.dns_servers@.len(),
            dns_servers@ == collect_dns(l.dns_servers@.take(i as int)),
        decreases l.dns_servers@.len() - i,
    {
        proof {
            assert(l.dns_servers@.take(i + 1).drop_last() =~= l.dns_servers@.take(i as int));
            assert(l.dns_servers@.take(i + 1).last() == l.dns_servers@[i as int]);
        }
        match &l.dns_servers[i] {
            Some(a) => dns_servers.push(*a),
            None => (),
        }
        i = i + 1;
    }
    proof {
        assert(l.dns_servers@.take(i as int) =~= l.dns_servers@);
        lemma_collect_dns_len(l.dns_servers@);
    }
    Config::Up(UpConfig { address: addr, gateway, dns_servers })
}

/// Strategy that desires whatever a DHCP client has leased.
///
/// The client is created lazily on the first poll (state `uninitialized`
/// until then, `active` after).  A down link resets the client, so any
/// subsequent `Up` answer requires a fresh lease.
pub struct DhcpConfigurator<C: DhcpClient> {
    client: Option<C>,
}

impl<C: DhcpClient> DhcpConfigurator<C> {
    /// The wrapped client, absent until the first poll.
    pub closed spec fn client_spec(self) -> Option<C> {
        self.client
    }

    /// Whether the underlying client has been created.
    pub open spec fn started(self) -> bool {
        self.client_spec() is Some
    }

    /// Whether the underlying client currently holds a lease.
    pub open spec fn leased(self) -> bool {
        self.client_spec() matches Some(c) && c.has_lease()
    }

    pub fn new() -> (s: DhcpConfigurator<C>)
        ensures
            s.inv(),
            !s.started(),
    {
        DhcpConfigurator { client: None }
    }
}

impl<C: DhcpClient> Configurator for DhcpConfigurator<C> {
    open spec fn inv(&self) -> bool {
        match self.client_spec() {
            Some(c) => c.inv(),
            None => true,
        }
    }

    /// Link-down reset law: with the link down the answer is always `Down`,
    /// whatever was leased before, and the client is left without a lease —
    /// so a later `Up` answer (which implies a held lease) requires a fresh
    /// one.  `None` is only ever answered on a no-change tick of the client.
    fn poll(&mut self, link_up: bool) -> (r: Option<Config>)
        ensures
            final(self).started(),
            !link_up ==> (match r {
                Some(c) => c matches Config::Down,
                None => false,
            }) && !final(self).leased(),
            (match r {
                Some(c) => c matches Config::Up(_),
                None => false,
            }) ==> final(self).leased(),
            r is None ==> final(self).leased() == old(self).leased(),
            link_up ==> (match r {
                Some(c) => ((c matches Config::Up(_)) <==> final(self).leased()),
                None => final(self).leased() == old(self).leased(),
            }),
    {
        if self.client.is_none() {
            self.client = Some(C::create());
        }
        match &mut self.client {
            Some(client) => {
                if !link_up {
                    client.reset();
                    return Some(Config::Down);
                }
                match client.poll_step() {
                    None => None,
                    Some(lease) => Some(config_from_dhcp(&lease)),
                }
            },
            None => vstd::pervasive::unreached(),
        }
    }
}

} // verus!
