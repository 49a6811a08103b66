use embassy_net::packet_pool::{new_packet_pool, Packet, MTU, PACKET_POOL_SIZE};
use embassy_net::pool::BitPool;

#[test]
fn pool_starts_empty() {
    let p: BitPool<u32> = BitPool::new(4);
    assert_eq!(p.num_live(), 0);
    for i in 0..4 {
        assert!(!p.is_live(i));
    }
}

#[test]
fn pool_alloc_lowest_free_slot() {
    let mut p: BitPool<u32> = BitPool::new(4);
    let a = p.allocate(10).unwrap();
    assert_eq!(a.slot(), 0);
    let b = p.allocate(20).unwrap();
    assert_eq!(b.slot(), 1);
    let va = p.free(a);
    assert_eq!(va, 10);
    let c = p.allocate(30).unwrap();
    assert_eq!(c.slot(), 0);
    assert_eq!(p.num_live(), 2);
    assert_eq!(p.free(c), 30);
    assert_eq!(p.free(b), 20);
    assert_eq!(p.num_live(), 0);
}

#[test]
fn pool_exhaustion_and_recovery() {
    // After N successful allocations on an N-capacity pool the next
    // allocation reports no space; after freeing one handle the next
    // allocation succeeds and reuses a slot index below N.
    let n: usize = 5;
    let mut p: BitPool<u64> = BitPool::new(n);
    let mut handles = Vec::new();
    for i in 0..n {
        let h = p.allocate(i as u64).expect("allocation within capacity succeeds");
        assert!(h.slot() < n);
        handles.push(h);
    }
    assert_eq!(p.num_live(), n);
    assert!(p.allocate(99).is_none());
    let h = handles.pop().unwrap();
    let freed_slot = h.slot();
    p.free(h);
    let again = p.allocate(77).expect("allocation succeeds after a free");
    assert!(again.slot() < n);
    assert_eq!(again.slot(), freed_slot);
}

#[test]
fn pool_round_trip_never_exceeds_capacity_or_aliases() {
    // Interleaved allocations and frees: the live count never exceeds the
    // capacity and live handles always sit on distinct slots.
    let mut p: BitPool<u8> = BitPool::new(3);
    let mut live: Vec<embassy_net::pool::PoolBox> = Vec::new();
    let script: [bool; 12] = [
        true, true, false, true, true, false, false, true, true, false, true, false,
    ];
    let mut next: u8 = 0;
    for step in script {
        if step {
            if let Some(h) = p.allocate(next) {
                next = next.wrapping_add(1);
                for other in &live {
                    assert_ne!(h.slot(), other.slot());
                }
                live.push(h);
            } else {
                assert_eq!(live.len(), 3);
            }
        } else if let Some(h) = live.pop() {
            p.free(h);
        }
        assert!(p.num_live() <= 3);
        assert_eq!(p.num_live(), live.len());
    }
}

#[test]
fn pool_replace_keeps_slot_live() {
    let mut p: BitPool<u32> = BitPool::new(2);
    let h = p.allocate(1).unwrap();
    let prev = p.replace(&h, 2);
    assert_eq!(prev, 1);
    assert_eq!(p.num_live(), 1);
    assert_eq!(p.free(h), 2);
}

#[test]
fn packet_pool_has_two_mtu_buffers() {
    let mut p = new_packet_pool();
    assert_eq!(PACKET_POOL_SIZE, 2);
    let pkt = Packet::new();
    assert_eq!(pkt.0.len(), MTU);
    assert_eq!(MTU, 1514);
    let a = p.allocate(Packet::new()).unwrap();
    let b = p.allocate(Packet::new()).unwrap();
    assert!(p.allocate(Packet::new()).is_none());
    p.free(a);
    p.free(b);
    assert_eq!(p.num_live(), 0);
}

#[test]
fn zero_capacity_pool_rejects_everything() {
    let mut p: BitPool<u8> = BitPool::new(0);
    assert_eq!(p.num_live(), 0);
    assert!(p.allocate(1).is_none());
}

#[test]
fn full_capacity_pool_uses_all_32_slots() {
    let mut p: BitPool<usize> = BitPool::new(32);
    for i in 0..32 {
        assert_eq!(p.allocate(i).unwrap().slot(), i);
    }
    assert!(p.allocate(99).is_none());
    assert_eq!(p.num_live(), 32);
}

#[test]
fn packet_new_is_zero_filled() {
    let pkt = Packet::new();
    assert_eq!(pkt.0.len(), MTU);
    assert!(pkt.0.iter().all(|b| *b == 0));
}

#[test]
fn packet_from_frame_pads_with_zeroes() {
    let pkt = Packet::from_frame(&[9u8, 8, 7]);
    assert_eq!(pkt.0.len(), MTU);
    assert_eq!(&pkt.0[..3], &[9u8, 8, 7]);
    assert!(pkt.0[3..].iter().all(|b| *b == 0));
}
