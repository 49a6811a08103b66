//! MTU-sized packet buffers and the pool they are drawn from.
//!
//! The packet pool holds exactly two buffers: one may be in flight for
//! receive and one for transmit at any time.  Buffer exhaustion is the
//! backpressure point — the device adapter drops the current I/O opportunity
//! and retries on a later tick.

use vstd::prelude::*;

use crate::pool::{BitPool, PoolBox};

verus! {

/// Size of one packet buffer in bytes.
pub const MTU: usize = 1514;

/// Number of concurrently outstanding packet buffers.
pub const PACKET_POOL_SIZE: usize = 2;

/// A fixed MTU-sized byte buffer.
pub struct Packet(pub Vec<u8>);

impl Packet {
    /// A packet always holds exactly `MTU` bytes.
    pub open spec fn wf(self) -> bool {
        self.0@.len() == MTU
    }

    /// A fresh, zero-filled packet buffer.
    pub fn new() -> (p: Packet)
        ensures
            p.wf(),
            forall|i: int| 0 <= i < MTU ==> p.0@[i] == 0,
    {
        let mut bytes: Vec<u8> = Vec::new();
        while bytes.len() < MTU
            invariant
                bytes.len() <= MTU,
                forall|i: int| 0 <= i < bytes@.len() ==> bytes@[i] == 0,
            decreases MTU - bytes.len(),
        {
            bytes.push(0u8);
        }
        Packet(bytes)
    }

    /// The MTU-sized frame holding exactly `data` followed by zeroes: what
    /// the transmit path writes into a buffer before handing it to the
    /// driver.
    pub fn from_frame(data: &[u8]) -> (p: Packet)
        requires
            data@.len() <= MTU,
        ensures
            p.wf(),
            p.0@.take(data@.len() as int) == data@,
            forall|i: int| data@.len() <= i < MTU ==> p.0@[i] == 0,
    {
        let mut bytes: Vec<u8> = Vec::new();
        let mut i: usize = 0;
        while i < data.len()
            invariant
                i <= data@.len(),
                bytes@ =~= data@.take(i as int),
            decreases data@.len() - i,
        {
            bytes.push(data[i]);
            proof {
                assert(bytes@ =~= data@.take(i + 1));
            }
            i = i + 1;
        }
        while bytes.len() < MTU
            invariant
                data@.len() <= bytes@.len() <= MTU,
                bytes@.take(data@.len() as int) =~= data@,
                forall|j: int| data@.len() <= j < bytes@.len() ==> bytes@[j] == 0,
            decreases MTU - bytes.len(),
        {
            bytes.push(0u8);
            proof {
                assert(bytes@.take(data@.len() as int) =~= data@);
            }
        }
        proof {
            assert(bytes@.take(data@.len() as int) =~= data@);
        }
        Packet(bytes)
    }
}

/// The pool packet buffers are drawn from.
pub type PacketPool = BitPool<Packet>;

/// Move-only ownership token for one live packet buffer.
pub type PacketBox = PoolBox;

/// Every live buffer in the pool holds exactly `MTU` bytes.
pub open spec fn packets_wf(p: PacketPool) -> bool {
    forall|i: int|
        0 <= i < p@.len() ==> ((#[trigger] p@[i]) matches Some(pkt) ==> pkt.wf())
}

/// Create the packet pool: two slots, both free.
pub fn new_packet_pool() -> (p: PacketPool)
    ensures
        p.wf(),
        packets_wf(p),
        p@.len() == PACKET_POOL_SIZE,
        forall|i: int| 0 <= i < p@.len() ==> p@[i] is None,
{
    BitPool::new(PACKET_POOL_SIZE)
}

} // verus!
