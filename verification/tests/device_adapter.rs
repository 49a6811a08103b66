use embassy_net::device::{Device, DeviceCaps, Medium, Phy};
use embassy_net::packet_pool::{new_packet_pool, Packet, PacketBox, PacketPool, MTU};

/// Simulated driver: link up, always ready in both directions, and every
/// "received" frame is three bytes long.
struct SimPhy {
    frame: Vec<u8>,
    transmitted: Vec<Vec<u8>>,
}

impl SimPhy {
    fn new() -> SimPhy {
        SimPhy { frame: vec![0xab, 0xcd, 0xef], transmitted: Vec::new() }
    }
}

impl Phy for SimPhy {
    fn caps_spec(&self) -> DeviceCaps {
        self.capabilities()
    }

    fn is_link_up(&mut self) -> bool {
        true
    }

    fn capabilities(&self) -> DeviceCaps {
        DeviceCaps { medium: Medium::Ethernet, mtu: MTU, checksum_offload: false }
    }

    fn can_transmit(&mut self) -> bool {
        true
    }

    fn can_receive(&mut self) -> bool {
        true
    }

    fn receive(&mut self, pool: &mut PacketPool) -> Option<(PacketBox, usize)> {
        let handle = pool.allocate(Packet::new())?;
        let mut pkt = Packet::new();
        for (i, b) in self.frame.iter().enumerate() {
            pkt.0[i] = *b;
        }
        pool.replace(&handle, pkt);
        Some((handle, self.frame.len()))
    }

    fn transmit(&mut self, pool: &mut PacketPool, pkt: PacketBox, len: usize) {
        let packet = pool.free(pkt);
        self.transmitted.push(packet.0[..len].to_vec());
    }
}

#[test]
fn device_caches_capabilities() {
    let dev = Device::new(SimPhy::new());
    let caps = dev.capabilities();
    assert_eq!(caps.medium, Medium::Ethernet);
    assert_eq!(caps.mtu, MTU);
    let again = dev.capabilities();
    assert_eq!(caps, again);
}

#[test]
fn full_cycle_succeeds_on_empty_pool() {
    // End-to-end: with a 2-slot pool and a driver that always reports both
    // directions ready, a full transmit+receive cycle succeeds when the
    // pool starts empty.
    let mut pool = new_packet_pool();
    let mut dev = Device::new(SimPhy::new());

    let (rx, tx) = dev.receive(&mut pool).expect("receive token on empty pool");
    assert_eq!(pool.num_live(), 2);
    assert_eq!(rx.len(), 3);

    let reply = [1u8, 2, 3, 4];
    tx.consume(&mut dev.phy, &mut pool, &reply);
    assert_eq!(dev.phy.transmitted.len(), 1);
    assert_eq!(dev.phy.transmitted[0], vec![1u8, 2, 3, 4]);

    let frame = rx.consume(&mut pool);
    assert_eq!(frame, vec![0xab, 0xcd, 0xef]);
    assert_eq!(pool.num_live(), 0);
}

#[test]
fn receive_token_denied_on_full_pool() {
    // End-to-end, backpressure half: with 2 live handles no receive token
    // is produced.
    let mut pool = new_packet_pool();
    let mut dev = Device::new(SimPhy::new());
    let a = pool.allocate(Packet::new()).unwrap();
    let b = pool.allocate(Packet::new()).unwrap();
    assert!(dev.receive(&mut pool).is_none());
    assert!(dev.transmit(&mut pool).is_none());
    pool.free(a);
    assert!(dev.receive(&mut pool).is_none(), "one free slot cannot host rx and tx");
    let tx = dev.transmit(&mut pool).expect("one free slot suffices for transmit");
    tx.consume(&mut dev.phy, &mut pool, &[9u8]);
    pool.free(b);
    assert_eq!(pool.num_live(), 0);
}

#[test]
fn transmit_pads_frame_with_written_prefix() {
    let mut pool = new_packet_pool();
    let mut dev = Device::new(SimPhy::new());
    let tx = dev.transmit(&mut pool).unwrap();
    tx.consume(&mut dev.phy, &mut pool, &[7u8, 8u8]);
    assert_eq!(dev.phy.transmitted[0], vec![7u8, 8u8]);
    assert_eq!(pool.num_live(), 0);
}

#[test]
fn transmit_accepts_a_full_mtu_frame() {
    let mut pool = new_packet_pool();
    let mut dev = Device::new(SimPhy::new());
    let tx = dev.transmit(&mut pool).unwrap();
    let frame = vec![0x5au8; MTU];
    tx.consume(&mut dev.phy, &mut pool, &frame);
    assert_eq!(dev.phy.transmitted[0].len(), MTU);
    assert_eq!(pool.num_live(), 0);
}
