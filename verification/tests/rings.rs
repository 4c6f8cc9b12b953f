use eth_driver_core::layout::DmaPtr;
use eth_driver_core::layout::DmaPtrs;
use eth_driver_core::rx::RxRing;
use eth_driver_core::tx::TxDummy;
use eth_driver_core::tx::TxRing;

const N: usize = 4;
const SMALL_MTU: usize = 64;

fn rx_ptrs() -> DmaPtrs {
    DmaPtrs {
        desc: DmaPtr { vaddr: 0x1000, paddr: 0x2000 },
        buf: DmaPtr { vaddr: 0x1020, paddr: 0x2020 },
    }
}

fn tx_ptrs() -> DmaPtrs {
    DmaPtrs {
        desc: DmaPtr { vaddr: 0x1120, paddr: 0x2120 },
        buf: DmaPtr { vaddr: 0x1140, paddr: 0x2140 },
    }
}

#[test]
fn rx_setup_wrap_bit_on_last_only() {
    let ring = RxRing::new(&rx_ptrs(), N, SMALL_MTU);
    for i in 0..N {
        assert_eq!(ring.descriptor(i).is_last(), i == N - 1);
    }
}

#[test]
fn tx_setup_wrap_bit_on_last_only() {
    let ring = TxRing::new(&tx_ptrs(), N, SMALL_MTU);
    for i in 0..N {
        assert_eq!(ring.descriptor(i).is_last(), i == N - 1);
    }
}

#[test]
fn rx_setup_descriptor_addresses() {
    let ring = RxRing::new(&rx_ptrs(), N, SMALL_MTU);
    for i in 0..N {
        assert_eq!(ring.descriptor(i).addr(), 0x2020 + i * SMALL_MTU);
    }
}

#[test]
fn tx_setup_descriptor_addresses() {
    let ring = TxRing::new(&tx_ptrs(), N, SMALL_MTU);
    for i in 0..N {
        assert_eq!(ring.descriptor(i).addr(), 0x2140 + i * SMALL_MTU);
    }
}

#[test]
fn rx_fresh_not_available() {
    let mut ring = RxRing::new(&rx_ptrs(), N, SMALL_MTU);
    for i in 0..N {
        assert!(!ring.descriptor(i).is_available());
    }
    assert!(!ring.next_entry_available());
    let frame = vec![0xAAu8; 16];
    ring.hw_write_frame(0, &frame, 16);
    assert!(ring.next_entry_available());
}

#[test]
fn rx_mark_done_advances_cursor_by_one() {
    let mut ring = RxRing::new(&rx_ptrs(), N, SMALL_MTU);
    assert_eq!(ring.current_entry(), 0);
    for i in 0..N {
        assert_eq!(ring.current_entry(), i);
        ring.mark_done();
    }
    assert_eq!(ring.current_entry(), 0);
}

#[test]
fn rx_mark_done_releases_exactly_its_slot() {
    let mut ring = RxRing::new(&rx_ptrs(), N, SMALL_MTU);
    let frame = vec![0x55u8; 8];
    ring.hw_write_frame(0, &frame, 8);
    ring.hw_write_frame(1, &frame, 8);
    assert!(ring.descriptor(0).is_available());
    assert!(ring.descriptor(1).is_available());
    ring.mark_done();
    assert!(!ring.descriptor(0).is_available());
    assert!(ring.descriptor(1).is_available());
    assert_eq!(ring.current_entry(), 1);
}

#[test]
fn rx_recv_next_exposes_slot_buffer() {
    let mut ring = RxRing::new(&rx_ptrs(), N, SMALL_MTU);
    let frame = vec![1u8, 2, 3];
    ring.hw_write_frame(0, &frame, 3);
    let buf = ring.recv_next();
    assert_eq!(buf.len(), SMALL_MTU);
    assert_eq!(&buf[..3], &[1, 2, 3]);
    assert!(buf[3..].iter().all(|b| *b == 0));
}

#[test]
fn tx_fresh_all_available() {
    let ring = TxRing::new(&tx_ptrs(), N, SMALL_MTU);
    for i in 0..N {
        assert!(ring.descriptor(i).is_available());
        assert_eq!(ring.descriptor(i).frame_len(), 0);
        assert!(!ring.descriptor(i).is_frame_end());
    }
    assert!(ring.next_entry_available());
}

#[test]
fn tx_claim_then_hw_completion_cycle() {
    let mut ring = TxRing::new(&tx_ptrs(), N, SMALL_MTU);
    assert!(ring.next_entry_available());
    let _ = ring.get_next_buffer(32);
    assert!(!ring.next_entry_available());
    ring.hw_complete_send(0);
    assert!(ring.next_entry_available());
}

#[test]
fn tx_get_next_buffer_records_exact_len() {
    let mut ring = TxRing::new(&tx_ptrs(), N, SMALL_MTU);
    let _ = ring.get_next_buffer(32);
    assert_eq!(ring.descriptor(0).frame_len(), 32);
    assert!(ring.descriptor(0).is_frame_end());
    assert!(!ring.descriptor(0).is_available());
    let _ = ring.send_complete();
    let _ = ring.get_next_buffer(SMALL_MTU);
    assert_eq!(ring.descriptor(1).frame_len(), SMALL_MTU);
}

#[test]
fn tx_fill_next_buffer_copies_bytes() {
    let mut ring = TxRing::new(&tx_ptrs(), N, SMALL_MTU);
    let _ = ring.get_next_buffer(3);
    let data = vec![9u8, 8, 7];
    ring.fill_next_buffer(&data, 3);
    let buf = ring.buffer_at(0);
    assert_eq!(&buf[..3], &[9, 8, 7]);
    assert!(buf[3..].iter().all(|b| *b == 0));
}

#[test]
fn tx_send_complete_returns_descriptor_paddr() {
    let mut ring = TxRing::new(&tx_ptrs(), N, SMALL_MTU);
    let _ = ring.get_next_buffer(10);
    assert_eq!(ring.send_complete(), 0x2120);
    let _ = ring.get_next_buffer(10);
    assert_eq!(ring.send_complete(), 0x2128);
    assert_eq!(ring.current_entry(), 2);
}

#[test]
fn tx_dummy_setup_state() {
    let dummy = TxDummy::new(&DmaPtr { vaddr: 0x1240, paddr: 0x2240 });
    assert!(dummy.desc().is_available());
    assert!(dummy.desc().is_last());
    assert!(!dummy.desc().is_frame_end());
    assert_eq!(dummy.desc().frame_len(), 0);
    assert_eq!(dummy.paddr(), 0x2240);
}

#[test]
fn scenario_tx_claim_complete_then_advance() {
    let mut ring = TxRing::new(&tx_ptrs(), N, SMALL_MTU);
    let buf = ring.get_next_buffer(32);
    for i in 0..32 {
        buf[i] = i as u8;
    }
    assert!(!ring.descriptor(0).is_available());
    assert_eq!(ring.descriptor(0).frame_len(), 32);
    assert!(ring.descriptor(0).is_frame_end());
    ring.hw_complete_send(0);
    assert!(ring.next_entry_available());
    assert_eq!(ring.current_entry(), 0);
    let _ = ring.send_complete();
    assert_eq!(ring.current_entry(), 1);
}

#[test]
fn scenario_rx_single_completion() {
    let mut ring = RxRing::new(&rx_ptrs(), N, SMALL_MTU);
    let frame = vec![0xEEu8; 20];
    ring.hw_write_frame(0, &frame, 20);
    assert_eq!(ring.current_entry(), 0);
    assert!(ring.next_entry_available());
    ring.mark_done();
    assert_eq!(ring.current_entry(), 1);
    assert!(!ring.descriptor(0).is_available());
}

#[test]
fn scenario_full_wrap_preserves_end_of_ring() {
    let mut rx_ring = RxRing::new(&rx_ptrs(), N, SMALL_MTU);
    for _ in 0..N {
        rx_ring.mark_done();
    }
    assert_eq!(rx_ring.current_entry(), 0);
    for i in 0..N {
        assert_eq!(rx_ring.descriptor(i).is_last(), i == N - 1);
    }

    let mut tx_ring = TxRing::new(&tx_ptrs(), N, SMALL_MTU);
    for _ in 0..N {
        let _ = tx_ring.get_next_buffer(8);
        let _ = tx_ring.send_complete();
    }
    assert_eq!(tx_ring.current_entry(), 0);
    for i in 0..N {
        assert_eq!(tx_ring.descriptor(i).is_last(), i == N - 1);
    }
}
