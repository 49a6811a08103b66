//! Device adapter: bridges a hardware driver capability surface to the
//! protocol engine's transmit/receive token contract.
//!
//! A receive opportunity exists when the driver reports a waiting frame;
//! producing the receive token additionally allocates a fresh transmit-side
//! buffer, so that a received frame can be answered immediately.  A transmit
//! opportunity exists when the driver can send and a buffer can be
//! allocated.  Either allocation failing drops the opportunity for this tick
//! — that is the pool's backpressure policy.

use vstd::prelude::*;

use crate::packet_pool::{packets_wf, Packet, PacketBox, PacketPool, MTU};

verus! {

/// The link-layer type of a device.
#[derive(PartialEq, Eq, Structural, Clone, Copy, Debug)]
pub enum Medium {
    /// Ethernet: neighbor discovery and default-route management apply.
    Ethernet,
    /// Raw IP: no default route is managed.
    Ip,
}

/// Static device capabilities, cached by the adapter at construction.
#[derive(PartialEq, Eq, Structural, Clone, Copy, Debug)]
pub struct DeviceCaps {
    pub medium: Medium,
    pub mtu: usize,
    pub checksum_offload: bool,
}

/// Capability surface of a hardware network driver.
///
/// Implementations live outside this crate (one per board or test harness).
/// The contracts on `receive` and `transmit` record the discipline every
/// driver must follow with the shared packet pool: a handed-out frame
/// occupies a freshly allocated slot, and a driver never disturbs slots it
/// does not own.
pub trait Phy {
    /// Report the current link state.
    fn is_link_up(&mut self) -> bool;

    /// The device capabilities an implementation reports.
    spec fn caps_spec(&self) -> DeviceCaps;

    /// Report the static device capabilities.
    fn capabilities(&self) -> (c: DeviceCaps)
        ensures
            c == self.caps_spec(),
    ;

    /// Whether the driver can accept a frame for transmission now.
    fn can_transmit(&mut self) -> bool;

    /// Whether a received frame is waiting.
    fn can_receive(&mut self) -> bool;

    /// Hand over the waiting received frame: the driver allocates a slot
    /// from `pool`, fills it with the frame bytes and returns the owning
    /// handle with the frame length.  `None` means no frame could be handed
    /// over this tick (nothing waiting after all, or no free slot).
    fn receive(&mut self, pool: &mut PacketPool) -> (r: Option<(PacketBox, usize)>)
        requires
            old(pool).wf(),
            packets_wf(*old(pool)),
        ensures
            final(pool).wf(),
            packets_wf(*final(pool)),
            final(pool)@.len() == old(pool)@.len(),
            match r {
                Some((b, len)) => {
                    &&& 0 <= b.idx() < old(pool)@.len()
                    &&& old(pool)@[b.idx()] is None
                    &&& final(pool)@[b.idx()] is Some
                    &&& len <= MTU
                    &&& forall|j: int|
                        0 <= j < old(pool)@.len() && j != b.idx()
                            ==> final(pool)@[j] == old(pool)@[j]
                },
                None => final(pool)@ == old(pool)@,
            };

    /// Take ownership of the live buffer `pkt` and transmit its first `len`
    /// bytes.  The driver frees the slot once the transmission completes, so
    /// only the slot owned by `pkt` may change; all other slots are left
    /// untouched.
    fn transmit(&mut self, pool: &mut PacketPool, pkt: PacketBox, len: usize)
        requires
            old(pool).wf(),
            packets_wf(*old(pool)),
            0 <= pkt.idx() < old(pool)@.len(),
            old(pool)@[pkt.idx()] is Some,
            len <= MTU,
        ensures
            final(pool).wf(),
            packets_wf(*final(pool)),
            final(pool)@.len() == old(pool)@.len(),
            forall|j: int|
                0 <= j < old(pool)@.len() && j != pkt.idx() ==> final(pool)@[j] == old(pool)@[j];
}

/// Receive token: owns the buffer holding one received frame.
pub struct RxToken {
    pkt: PacketBox,
    len: usize,
}

impl RxToken {
    /// The pool slot holding the received frame.
    pub closed spec fn idx(self) -> int {
        self.pkt.idx()
    }

    /// The length of the received frame.
    pub closed spec fn len_spec(self) -> int {
        self.len as int
    }

    /// Read the frame length.
    pub fn len(&self) -> (n: usize)
        ensures
            n == self.len_spec(),
    {
        self.len
    }

    /// Finish processing the received frame: copy its bytes out and release
    /// the buffer back to the pool.
    pub fn consume(self, pool: &mut PacketPool) -> (bytes: Vec<u8>)
        requires
            old(pool).wf(),
            packets_wf(*old(pool)),
            0 <= self.idx() < old(pool)@.len(),
            old(pool)@[self.idx()] is Some,
            self.len_spec() <= MTU,
        ensures
            final(pool).wf(),
            packets_wf(*final(pool)),
            final(pool)@ == old(pool)@.update(self.idx(), None),
            bytes@.len() == self.len_spec(),
            match old(pool)@[self.idx()] {
                Some(pkt) => bytes@ == pkt.0@.take(self.len_spec()),
                None => false,
            },
    {
        let pkt = pool.free(self.pkt);
        let mut bytes: Vec<u8> = Vec::new();
        let mut i: usize = 0;
        while i < self.len
            invariant
                i <= self.len,
                self.len <= MTU,
                pkt.0@.len() == MTU,
                bytes@ =~= pkt.0@.take(i as int),
            decreases self.len - i,
        {
            bytes.push(pkt.0[i]);
            proof {
                assert(bytes@ =~= pkt.0@.take(i + 1));
            }
            i = i + 1;
        }
        proof {
            assert forall|j: int|
                0 <= j < final(pool)@.len() implies ((#[trigger] final(pool)@[j]) matches Some(pk)
                ==> pk.wf()) by {}
        }
        bytes
    }
}

/// Transmit token: owns a freshly allocated buffer a frame may be written
/// into.
pub struct TxToken {
    pkt: PacketBox,
}

impl TxToken {
    /// The pool slot owned by this token.
    pub closed spec fn idx(self) -> int {
        self.pkt.idx()
    }

    /// Write `data` into the owned buffer and hand the buffer over to the
    /// driver for transmission: the frame handed over is exactly
    /// `Packet::from_frame(data)` — `data` followed by zeroes — and the
    /// byte range passed to the driver is exactly `data.len()`.  Ownership
    /// of the buffer passes to the driver, which frees the slot when the
    /// transmission completes.
    pub fn consume<P: Phy>(self, phy: &mut P, pool: &mut PacketPool, data: &[u8])
        requires
            old(pool).wf(),
            packets_wf(*old(pool)),
            0 <= self.idx() < old(pool)@.len(),
            old(pool)@[self.idx()] is Some,
            data@.len() <= MTU,
        ensures
            final(pool).wf(),
            packets_wf(*final(pool)),
            final(pool)@.len() == old(pool)@.len(),
            forall|j: int|
                0 <= j < old(pool)@.len() && j != self.idx() ==> final(pool)@[j] == old(pool)@[j],
    {
        let pkt = Packet::from_frame(data);
        let _prev = pool.replace(&self.pkt, pkt);
        proof {
            assert forall|j: int|
                0 <= j < pool@.len() implies ((#[trigger] pool@[j]) matches Some(pk)
                ==> pk.wf()) by {}
        }
        phy.transmit(pool, self.pkt, data.len());
    }
}

/// Device adapter: implements the engine's token contract on top of a
/// driver capability and the packet buffer pool.
pub struct Device<P: Phy> {
    pub phy: P,
    caps: DeviceCaps,
}

impl<P: Phy> Device<P> {
    /// The wrapped driver.
    pub closed spec fn phy_spec(self) -> P {
        self.phy
    }

    /// The capabilities cached at construction.
    pub closed spec fn caps_spec(self) -> DeviceCaps {
        self.caps
    }

    /// Build the adapter around a driver, caching its capabilities at
    /// construction; later capability queries answer from the cache.
    pub fn new(phy: P) -> (d: Device<P>)
        ensures
            d.phy_spec() == phy,
            d.caps_spec() == phy.caps_spec(),
    {
        let caps = phy.capabilities();
        Device { phy, caps }
    }

    /// Return the cached capabilities verbatim.
    pub fn capabilities(&self) -> (c: DeviceCaps)
        ensures
            c == self.caps_spec(),
    {
        self.caps
    }

    /// Report the driver's current link state.  The cached capabilities are
    /// not re-read.
    pub fn link_up(&mut self) -> (r: bool)
        ensures
            final(self).caps_spec() == old(self).caps_spec(),
    {
        self.phy.is_link_up()
    }

    /// Produce a receive opportunity.
    ///
    /// A receive token is produced only if the driver has a frame waiting
    /// and a fresh transmit-side buffer can also be allocated; otherwise the
    /// opportunity is dropped and the pool is left as it was.  In
    /// particular, a pool with no free slot never yields a receive token —
    /// a congested transmit path starves receive processing until a buffer
    /// frees up.
    pub fn receive(&mut self, pool: &mut PacketPool) -> (r: Option<(RxToken, TxToken)>)
        requires
            old(pool).wf(),
            packets_wf(*old(pool)),
        ensures
            final(pool).wf(),
            packets_wf(*final(pool)),
            final(pool)@.len() == old(pool)@.len(),
            match r {
                Some((rx, tx)) => {
                    &&& rx.idx() != tx.idx()
                    &&& 0 <= rx.idx() < old(pool)@.len()
                    &&& 0 <= tx.idx() < old(pool)@.len()
                    &&& old(pool)@[rx.idx()] is None
                    &&& old(pool)@[tx.idx()] is None
                    &&& final(pool)@[rx.idx()] is Some
                    &&& final(pool)@[tx.idx()] is Some
                    &&& rx.len_spec() <= MTU
                    &&& forall|j: int|
                        0 <= j < old(pool)@.len() && j != rx.idx() && j != tx.idx()
                            ==> final(pool)@[j] == old(pool)@[j]
                },
                None => final(pool)@ == old(pool)@,
            },
            old(pool).num_used() == old(pool)@.len() ==> r is None,
            r is Some ==> final(pool).num_used() == old(pool).num_used() + 2,
            r is None ==> final(pool).num_used() == old(pool).num_used(),
    {
        let ghost pool0: PacketPool = *pool;
        if !self.phy.can_receive() {
            proof {
                if pool0.num_used() == pool0@.len() {
                    crate::pool::lemma_count_used_full(pool0@);
                }
            }
            return None;
        }
        let tx_pkt = match pool.allocate(Packet::new()) {
            Some(b) => b,
            None => {
                return None;
            },
        };
        proof {
            if pool0.num_used() == pool0@.len() {
                crate::pool::lemma_count_used_full(pool0@);
            }
            assert forall|j: int|
                0 <= j < pool@.len() implies ((#[trigger] pool@[j]) matches Some(pk)
                ==> pk.wf()) by {}
        }
        let ghost pool1: PacketPool = *pool;
        match self.phy.receive(pool) {
            Some((rx_pkt, len)) => {
                proof {
                    assert(pool@ =~= pool1@.update(rx_pkt.idx(), pool@[rx_pkt.idx()]));
                    crate::pool::lemma_count_used_update(pool1@, rx_pkt.idx(), pool@[rx_pkt.idx()]);
                }
                Some((RxToken { pkt: rx_pkt, len }, TxToken { pkt: tx_pkt }))
            },
            None => {
                pool.free(tx_pkt);
                proof {
                    assert(pool@ =~= pool0@);
                }
                None
            },
        }
    }

    /// Produce a transmit opportunity: available only if the driver can
    /// send and a buffer can be allocated.  A full pool never yields a
    /// token.
    pub fn transmit(&mut self, pool: &mut PacketPool) -> (r: Option<TxToken>)
        requires
            old(pool).wf(),
            packets_wf(*old(pool)),
        ensures
            final(pool).wf(),
            packets_wf(*final(pool)),
            final(pool)@.len() == old(pool)@.len(),
            match r {
                Some(tx) => {
                    &&& 0 <= tx.idx() < old(pool)@.len()
                    &&& old(pool)@[tx.idx()] is None
                    &&& final(pool)@[tx.idx()] is Some
                    &&& forall|j: int|
                        0 <= j < old(pool)@.len() && j != tx.idx()
                            ==> final(pool)@[j] == old(pool)@[j]
                },
                None => final(pool)@ == old(pool)@,
            },
            old(pool).num_used() == old(pool)@.len() ==> r is None,
            r is Some ==> final(pool).num_used() == old(pool).num_used() + 1,
            r is None ==> final(pool).num_used() == old(pool).num_used(),
    {
        let ghost pool0: PacketPool = *pool;
        if !self.phy.can_transmit() {
            proof {
                if pool0.num_used() == pool0@.len() {
                    crate::pool::lemma_count_used_full(pool0@);
                }
            }
            return None;
        }
        match pool.allocate(Packet::new()) {
            Some(b) => {
                proof {
                    if pool0.num_used() == pool0@.len() {
                        crate::pool::lemma_count_used_full(pool0@);
                    }
                    assert forall|j: int|
                        0 <= j < pool@.len() implies ((#[trigger] pool@[j]) matches Some(pk)
                        ==> pk.wf()) by {}
                    assert(pool@ =~= pool0@.update(b.idx(), pool@[b.idx()]));
                }
                Some(TxToken { pkt: b })
            },
            None => None,
        }
    }
}

} // verus!
