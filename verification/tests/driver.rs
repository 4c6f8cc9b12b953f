use eth_driver_core::Driver;
use eth_driver_core::IrqType;
use eth_driver_core::MAC;
use eth_driver_core::MTU;
use eth_driver_core::NUM_BUFS;
use eth_driver_core::layout::DmaDef;
use eth_driver_core::layout::alloc_dma;

const N: usize = 4;
const SMALL_MTU: usize = 64;

// 2 descriptor tables of 8 * N bytes, 2 buffer pools of N * SMALL_MTU bytes,
// 1 dummy descriptor of 8 bytes.
const SMALL_REQUIRED: usize = 2 * 8 * N + 2 * N * SMALL_MTU + 8;

fn small_dma(size: usize) -> DmaDef {
    DmaDef { vaddr: 0x1000, paddr: 0x2000, size }
}

#[test]
fn alloc_dma_exact_minimum_layout() {
    let p = alloc_dma(small_dma(SMALL_REQUIRED), N, SMALL_MTU).unwrap();
    assert_eq!(p.rx.desc.vaddr, 0x1000);
    assert_eq!(p.rx.desc.paddr, 0x2000);
    assert_eq!(p.rx.buf.paddr, 0x2000 + 8 * N);
    assert_eq!(p.tx.desc.paddr, 0x2000 + 8 * N + N * SMALL_MTU);
    assert_eq!(p.tx.buf.paddr, 0x2000 + 16 * N + N * SMALL_MTU);
    assert_eq!(p.tx_dummy.paddr, 0x2000 + 16 * N + 2 * N * SMALL_MTU);
    assert_eq!(p.tx_dummy.vaddr, 0x1000 + 16 * N + 2 * N * SMALL_MTU);
}

#[test]
fn alloc_dma_one_byte_short_fails() {
    assert!(alloc_dma(small_dma(SMALL_REQUIRED - 1), N, SMALL_MTU).is_none());
}

#[test]
fn alloc_dma_production_geometry() {
    let required = 2 * 8 * NUM_BUFS + 2 * NUM_BUFS * MTU + 8;
    let dma = DmaDef { vaddr: 0x10_0000, paddr: 0x20_0000, size: required };
    let p = alloc_dma(dma, NUM_BUFS, MTU).unwrap();
    assert_eq!(p.rx.buf.paddr, 0x20_0000 + 8 * NUM_BUFS);
    assert_eq!(p.tx_dummy.paddr, 0x20_0000 + 16 * NUM_BUFS + 2 * NUM_BUFS * MTU);
    assert!(alloc_dma(DmaDef { vaddr: 0x10_0000, paddr: 0x20_0000, size: required - 1 }, NUM_BUFS, MTU).is_none());
}

#[test]
fn driver_new_exact_minimum_succeeds_one_byte_short_fails() {
    assert!(Driver::new(small_dma(SMALL_REQUIRED), N, SMALL_MTU, MAC).is_some());
    assert!(Driver::new(small_dma(SMALL_REQUIRED - 1), N, SMALL_MTU, MAC).is_none());
}

#[test]
fn driver_capabilities_report() {
    let drv = Driver::new(small_dma(SMALL_REQUIRED), N, SMALL_MTU, MAC).unwrap();
    let caps = drv.capabilities();
    assert!(caps.medium_ethernet);
    assert_eq!(caps.mtu, SMALL_MTU);
    assert_eq!(caps.max_burst_size, 1);
    assert!(!caps.checksum_offload);
}

#[test]
fn driver_irq_classification() {
    let drv = Driver::new(small_dma(SMALL_REQUIRED), N, SMALL_MTU, MAC).unwrap();
    assert_eq!(drv.get_irq_type(true, false), IrqType::RxComplete);
    assert_eq!(drv.get_irq_type(false, true), IrqType::TxComplete);
    assert_eq!(drv.get_irq_type(true, true), IrqType::RxComplete);
    assert_eq!(drv.get_irq_type(false, false), IrqType::Unknown);
}

#[test]
fn driver_mac_address() {
    let drv = Driver::new(small_dma(SMALL_REQUIRED), N, SMALL_MTU, MAC).unwrap();
    assert_eq!(drv.get_mac_address(), [0x00, 0x0A, 0x35, 0x03, 0x78, 0xA1]);
}

#[test]
fn driver_layout_getters() {
    let drv = Driver::new(small_dma(SMALL_REQUIRED), N, SMALL_MTU, MAC).unwrap();
    let p = drv.dma_ptrs();
    assert_eq!(p.rx.desc.paddr, 0x2000);
    assert_eq!(p.tx.desc.paddr, 0x2000 + 8 * N + N * SMALL_MTU);
    assert_eq!(p.tx_dummy.paddr, 0x2000 + 16 * N + 2 * N * SMALL_MTU);
}

#[test]
fn driver_receive_not_ready_when_fresh() {
    let mut drv = Driver::new(small_dma(SMALL_REQUIRED), N, SMALL_MTU, MAC).unwrap();
    assert!(!drv.rx_available());
    assert!(drv.tx_available());
    assert!(drv.receive().is_none());
}

#[test]
fn driver_receive_returns_frame_bytes() {
    let mut drv = Driver::new(small_dma(SMALL_REQUIRED), N, SMALL_MTU, MAC).unwrap();
    let frame = vec![1u8, 2, 3, 4];
    drv.rx_mut().hw_write_frame(0, &frame, 4);
    assert!(drv.rx_available());
    let got = drv.receive().unwrap();
    assert_eq!(got.len(), SMALL_MTU);
    assert_eq!(&got[..4], &[1, 2, 3, 4]);
    assert!(got[4..].iter().all(|b| *b == 0));
    // the slot went back to the hardware and the cursor moved on
    assert!(!drv.rx().descriptor(0).is_available());
    assert_eq!(drv.rx().current_entry(), 1);
}

#[test]
fn driver_receive_requires_free_transmit_slot() {
    let mut drv = Driver::new(small_dma(SMALL_REQUIRED), N, SMALL_MTU, MAC).unwrap();
    // exhaust every transmit slot without simulating completions
    for _ in 0..N {
        assert!(drv.transmit(&vec![0u8; 8]).is_some());
    }
    assert!(!drv.tx_available());
    let frame = vec![7u8; 8];
    drv.rx_mut().hw_write_frame(0, &frame, 8);
    assert!(drv.rx_available());
    assert!(drv.receive().is_none());
    // once the hardware frees a transmit slot, the receive goes through
    drv.tx_mut().hw_complete_send(0);
    assert!(drv.receive().is_some());
}

#[test]
fn driver_transmit_copies_frame_and_returns_descriptor_paddr() {
    let mut drv = Driver::new(small_dma(SMALL_REQUIRED), N, SMALL_MTU, MAC).unwrap();
    let frame = vec![0xABu8, 0xCD, 0xEF];
    let paddr = drv.transmit(&frame).unwrap();
    assert_eq!(paddr, (0x2000 + 8 * N + N * SMALL_MTU) as u32);
    assert_eq!(drv.tx().descriptor(0).frame_len(), 3);
    assert!(drv.tx().descriptor(0).is_frame_end());
    assert!(!drv.tx().descriptor(0).is_available());
    assert_eq!(drv.tx().current_entry(), 1);
    let buf = drv.tx().buffer_at(0);
    assert_eq!(&buf[..3], &[0xAB, 0xCD, 0xEF]);
    assert!(buf[3..].iter().all(|b| *b == 0));
}

#[test]
fn driver_transmit_truncates_oversize_frame() {
    // the documented policy: a frame longer than the buffer size is
    // truncated to the buffer size, never split across slots
    let mut drv = Driver::new(small_dma(SMALL_REQUIRED), N, SMALL_MTU, MAC).unwrap();
    let mut frame = Vec::new();
    for i in 0..(SMALL_MTU + 10) {
        frame.push(i as u8);
    }
    assert!(drv.transmit(&frame).is_some());
    assert_eq!(drv.tx().descriptor(0).frame_len(), SMALL_MTU);
    let buf = drv.tx().buffer_at(0);
    for i in 0..SMALL_MTU {
        assert_eq!(buf[i], i as u8);
    }
}

#[test]
fn driver_transmit_not_ready_when_ring_full() {
    let mut drv = Driver::new(small_dma(SMALL_REQUIRED), N, SMALL_MTU, MAC).unwrap();
    for _ in 0..N {
        assert!(drv.transmit(&vec![0u8; 8]).is_some());
    }
    assert!(drv.transmit(&vec![0u8; 8]).is_none());
    drv.tx_mut().hw_complete_send(0);
    assert!(drv.transmit(&vec![0u8; 8]).is_some());
}
