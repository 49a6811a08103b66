//! Stack driver state.
//!
//! One driver tick re-reads the link state, asks the configurator for a
//! desired IP configuration and reconciles the interface's address and
//! default-route entries with it, changing an entry — and reporting a change
//! event — only when the desired value differs from the installed one.  The
//! stack also issues ephemeral local ports sequentially with wraparound.
//!
//! Driving the protocol engine itself (feeding it frames and the clock) is
//! the surrounding task's step before each tick; the engine is an external
//! collaborator.

use vstd::prelude::*;

use crate::config::{Config, Configurator, Ipv4Address, Ipv4Cidr};
use crate::device::{Device, Medium, Phy};

verus! {

/// Smallest ephemeral local port.
pub const LOCAL_PORT_MIN: u16 = 1025;

/// Largest ephemeral local port.
pub const LOCAL_PORT_MAX: u16 = 65535;

/// Change events of one reconciliation, used as the log surface: an event
/// fires exactly when the corresponding table entry was rewritten.
pub struct ApplyEvents {
    pub addr_changed: bool,
    pub gateway_changed: bool,
}

/// Change events of one full driver tick.
pub struct PollEvents {
    pub link_changed: bool,
    pub addr_changed: bool,
    pub gateway_changed: bool,
}

/// The pair an accepted configuration maps to: interface address entry and
/// optional default gateway.  `Down` maps to the unspecified address with
/// prefix 32 and no gateway.
pub open spec fn reconciled(c: Config) -> (Ipv4Cidr, Option<Ipv4Address>) {
    match c {
        Config::Up(u) => (u.address, Some(u.gateway)),
        Config::Down => (
            Ipv4Cidr { address: Ipv4Address(0u8, 0u8, 0u8, 0u8), prefix_len: 32u8 },
            None,
        ),
    }
}

/// Outcome of reconciling installed state `(addr0, gw)` on a device of
/// `medium` with configuration `c`: the new address entry, the new gateway,
/// and the two change events.  Only Ethernet media manage a default route.
pub open spec fn apply_outcome(
    addr0: Ipv4Cidr,
    gw: Option<Ipv4Address>,
    medium: Medium,
    c: Config,
) -> (Ipv4Cidr, Option<Ipv4Address>, bool, bool) {
    let na = reconciled(c).0;
    let ng = reconciled(c).1;
    if medium == Medium::Ethernet {
        (na, ng, addr0 != na, gw != ng)
    } else {
        (na, gw, addr0 != na, false)
    }
}

/// Configuration idempotence law: reconciling with a configuration the
/// tables already reflect rewrites nothing and fires no change event, so a
/// configurator that answers the same `Up` value on consecutive ticks leaves
/// the tables identical and logs only the first change.
pub proof fn lemma_apply_idempotent(
    addr0: Ipv4Cidr,
    gw: Option<Ipv4Address>,
    medium: Medium,
    c: Config,
)
    ensures
        ({
            let once = apply_outcome(addr0, gw, medium, c);
            let twice = apply_outcome(once.0, once.1, medium, c);
            &&& twice.0 == once.0
            &&& twice.1 == once.1
            &&& !twice.2
            &&& !twice.3
        }),
{
}

/// The stack driver state: the device adapter, the active configurator,
/// the last observed link and IP state, the ephemeral port counter and the
/// installed address and default-route entries.
pub struct StackInner<C: Configurator, P: Phy> {
    device: Device<P>,
    configurator: C,
    link_up: bool,
    ip_up: bool,
    next_local_port: u16,
    addresses: Vec<Ipv4Cidr>,
    gateway: Option<Ipv4Address>,
}

impl<C: Configurator, P: Phy> StackInner<C, P> {
    /// Last observed link state.
    pub closed spec fn link_up_spec(self) -> bool {
        self.link_up
    }

    /// Last observed IP state.
    pub closed spec fn ip_up_spec(self) -> bool {
        self.ip_up
    }

    /// The next ephemeral port to issue.
    pub closed spec fn next_local_port_spec(self) -> u16 {
        self.next_local_port
    }

    /// The interface's address table (one entry).
    pub closed spec fn addresses_spec(self) -> Seq<Ipv4Cidr> {
        self.addresses@
    }

    /// The installed default gateway, if any.
    pub closed spec fn gateway_spec(self) -> Option<Ipv4Address> {
        self.gateway
    }

    /// The active configurator.
    pub closed spec fn configurator_spec(self) -> C {
        self.configurator
    }

    /// The device's link medium, cached by the adapter.
    pub closed spec fn medium(self) -> Medium {
        self.device.caps_spec().medium
    }

    pub open spec fn wf(self) -> bool {
        &&& self.addresses_spec().len() == 1
        &&& self.addresses_spec()[0].wf()
        &&& LOCAL_PORT_MIN <= self.next_local_port_spec() <= LOCAL_PORT_MAX
        &&& self.configurator_spec().inv()
    }

    /// Issue the next ephemeral local port and advance the counter by one,
    /// wrapping from the largest port back to the smallest.  No collision
    /// detection is performed: the engine's own bind-conflict rejection is
    /// the backstop.
    pub fn get_local_port(&mut self) -> (r: u16)
        requires
            old(self).wf(),
        ensures
            final(self).wf(),
            r == old(self).next_local_port_spec(),
            final(self).next_local_port_spec() == (if r >= LOCAL_PORT_MAX {
                LOCAL_PORT_MIN
            } else {
                (r + 1) as u16
            }),
            final(self).link_up_spec() == old(self).link_up_spec(),
            final(self).ip_up_spec() == old(self).ip_up_spec(),
            final(self).addresses_spec() == old(self).addresses_spec(),
            final(self).gateway_spec() == old(self).gateway_spec(),
            final(self).configurator_spec() == old(self).configurator_spec(),
            final(self).medium() == old(self).medium(),
    {
        let res = self.next_local_port;
        self.next_local_port = if res >= LOCAL_PORT_MAX {
            LOCAL_PORT_MIN
        } else {
            res + 1
        };
        res
    }

    /// Reconcile the address and route tables with `config`, rewriting an
    /// entry — and reporting it changed — only when the desired value
    /// differs from the installed one.
    pub fn apply_config(&mut self, config: Config) -> (ev: ApplyEvents)
        requires
            old(self).wf(),
            config.wf(),
        ensures
            final(self).wf(),
            ({
                let o = apply_outcome(
                    old(self).addresses_spec()[0],
                    old(self).gateway_spec(),
                    old(self).medium(),
                    config,
                );
                &&& final(self).addresses_spec().len() == 1
                &&& final(self).addresses_spec()[0] == o.0
                &&& final(self).gateway_spec() == o.1
                &&& ev.addr_changed == o.2
                &&& ev.gateway_changed == o.3
            }),
            final(self).link_up_spec() == old(self).link_up_spec(),
            final(self).ip_up_spec() == old(self).ip_up_spec(),
            final(self).next_local_port_spec() == old(self).next_local_port_spec(),
            final(self).configurator_spec() == old(self).configurator_spec(),
            final(self).medium() == old(self).medium(),
    {
        let desired: (Ipv4Cidr, Option<Ipv4Address>) = match config {
            Config::Up(u) => (u.address, Some(u.gateway)),
            Config::Down => (Ipv4Cidr::unspecified(), None),
        };
        let addr_changed = !(self.addresses[0] == desired.0);
        if addr_changed {
            self.addresses[0] = desired.0;
        }
        let mut gateway_changed = false;
        if self.device.capabilities().medium == Medium::Ethernet {
            if !eq_opt_addr(&self.gateway, &desired.1) {
                self.gateway = desired.1;
                gateway_changed = true;
            }
        }
        ApplyEvents { addr_changed, gateway_changed }
    }

    /// One driver tick: re-read the link state, and — if the link is up now
    /// or was up before this tick (covering the down transition) — ask the
    /// configurator and reconcile any answered configuration.  `None` from
    /// the configurator retains the applied configuration.  Each returned
    /// event fires exactly when the corresponding state actually changed.
    pub fn poll(&mut self) -> (ev: PollEvents)
        requires
            old(self).wf(),
        ensures
            final(self).wf(),
            ev.link_changed == (old(self).link_up_spec() != final(self).link_up_spec()),
            ev.addr_changed == (old(self).addresses_spec()[0] != final(self).addresses_spec()[0]),
            ev.gateway_changed == (old(self).gateway_spec() != final(self).gateway_spec()),
            final(self).addresses_spec().len() == 1,
            final(self).next_local_port_spec() == old(self).next_local_port_spec(),
            final(self).ip_up_spec() == old(self).ip_up_spec(),
            final(self).medium() == old(self).medium(),
            final(self).medium() != Medium::Ethernet ==> final(self).gateway_spec() == old(self).gateway_spec(),
            (!old(self).link_up_spec() && !final(self).link_up_spec()) ==> (final(self).addresses_spec() == old(self).addresses_spec() && final(self).gateway_spec() == old(self).gateway_spec()),
            (!old(self).link_up_spec() && !final(self).link_up_spec()) ==> final(self).configurator_spec() == old(self).configurator_spec(),
            (final(self).addresses_spec()[0] != old(self).addresses_spec()[0] || final(self).gateway_spec() != old(self).gateway_spec()) ==> exists|c: Config|
                c.wf() && ({
                    let o = apply_outcome(
                        old(self).addresses_spec()[0],
                        old(self).gateway_spec(),
                        old(self).medium(),
                        c,
                    );
                    final(self).addresses_spec()[0] == o.0 && final(self).gateway_spec() == o.1
                }),
    {
        let old_link_up = self.link_up;
        self.link_up = self.device.link_up();
        let link_changed = old_link_up != self.link_up;
        let mut addr_changed = false;
        let mut gateway_changed = false;
        if old_link_up || self.link_up {
            match self.configurator.poll(self.link_up) {
                Some(config) => {
                    let ghost cw: Config = config;
                    let appev = self.apply_config(config);
                    addr_changed = appev.addr_changed;
                    gateway_changed = appev.gateway_changed;
                    proof {
                        let o = apply_outcome(
                            old(self).addresses_spec()[0],
                            old(self).gateway_spec(),
                            old(self).medium(),
                            cw,
                        );
                        assert(cw.wf() && self.addresses_spec()[0] == o.0
                            && self.gateway_spec() == o.1);
                    }
                },
                None => {},
            }
        }
        PollEvents { link_changed, addr_changed, gateway_changed }
    }
}

/// Whether two optional addresses are the same.
fn eq_opt_addr(a: &Option<Ipv4Address>, b: &Option<Ipv4Address>) -> (r: bool)
    ensures
        r == (*a == *b),
{
    match (a, b) {
        (Some(x), Some(y)) => *x == *y,
        (None, None) => true,
        _ => false,
    }
}

/// Turn two freshly drawn entropy bytes into an ephemeral port seed:
/// the little-endian 16-bit value, accepted exactly when it falls in the
/// ephemeral port range.  The caller draws again on `None`.
pub fn port_from_entropy(b0: u8, b1: u8) -> (r: Option<u16>)
    ensures
        ({
            let p = b0 + 256 * (b1 as int);
            &&& (match r {
                Some(q) => q == p && LOCAL_PORT_MIN <= q <= LOCAL_PORT_MAX,
                None => !(LOCAL_PORT_MIN <= p <= LOCAL_PORT_MAX),
            })
        }),
{
    let port: u16 = (b0 as u16) + (b1 as u16) * 256;
    if port >= LOCAL_PORT_MIN {
        Some(port)
    } else {
        None
    }
}

/// Build the stack state once at startup: link and IP observed down, the
/// address table holding the unspecified placeholder entry, no default
/// route installed, and the ephemeral port counter seeded from entropy
/// (see [`port_from_entropy`]).
pub fn init<C: Configurator, P: Phy>(device: Device<P>, configurator: C, local_port: u16) -> (s:
    StackInner<C, P>)
    requires
        LOCAL_PORT_MIN <= local_port <= LOCAL_PORT_MAX,
        configurator.inv(),
    ensures
        s.wf(),
        !s.link_up_spec(),
        !s.ip_up_spec(),
        s.next_local_port_spec() == local_port,
        s.addresses_spec().len() == 1,
        s.addresses_spec()[0] == (Ipv4Cidr {
            address: Ipv4Address(0u8, 0u8, 0u8, 0u8),
            prefix_len: 32u8,
        }),
        s.gateway_spec() is None,
        s.medium() == device.caps_spec().medium,
        s.configurator_spec() == configurator,
{
    let mut addresses: Vec<Ipv4Cidr> = Vec::new();
    addresses.push(Ipv4Cidr::unspecified());
    StackInner {
        device,
        configurator,
        link_up: false,
        ip_up: false,
        next_local_port: local_port,
        addresses,
        gateway: None,
    }
}

} // verus!
