pub mod buffer;
pub mod layout;
pub mod rx;
pub mod tx;

use vstd::prelude::*;

use crate::layout::DmaDef;
use crate::layout::GemDmaPtrs;
use crate::layout::alloc_dma;
use crate::layout::spec_dma_layout;
use crate::layout::spec_required_dma_size;
use crate::layout::spec_rx_buf_offset;
use crate::layout::spec_tx_buf_offset;
use crate::layout::spec_tx_desc_offset;
use crate::layout::spec_tx_dummy_offset;
use crate::layout::valid_ring_geometry;
use crate::rx::RxRing;
use crate::rx::rx_avail_bit;
use crate::rx::rx_setup_state;
use crate::tx::TxDummy;
use crate::tx::TxRing;
use crate::tx::tx_frame_end_bit;
use crate::tx::tx_len_field;
use crate::tx::tx_setup_state;
use crate::tx::tx_used_bit;
use crate::tx::tx_wrap_bit;

verus! {

/// Number of descriptor slots in each ring in the production configuration.
pub const NUM_BUFS: usize = 128;

/// Size in bytes of one packet buffer in the production configuration.
pub const MTU: usize = 1600;

/// The station (MAC) address of the production board.
pub const MAC: [u8; 6] = [0x00, 0x0A, 0x35, 0x03, 0x78, 0xA1];

/// Classification of a hardware interrupt, derived from a snapshot of the
/// controller's completion flags.
#[derive(Debug, PartialEq, Eq, Structural)]
pub enum IrqType {
    TxComplete,
    RxComplete,
    Unknown,
}

/// What an interrupt with the given completion flags means: receive
/// completion takes priority when both flags are raised.
pub open spec fn spec_irq_type(rx_complete: bool, tx_complete: bool) -> IrqType {
    if rx_complete {
        IrqType::RxComplete
    } else if tx_complete {
        IrqType::TxComplete
    } else {
        IrqType::Unknown
    }
}

/// How many bytes of a requested transmit length are actually sent: requests
/// beyond the buffer size are truncated to the buffer size. This clamp is the
/// documented policy for oversize requests, chosen deliberately to match the
/// ring's fixed single-buffer frames; callers that must not lose bytes have
/// to keep their frames within the configured buffer size.
pub open spec fn spec_send_len(len: int, mtu: int) -> int {
    if len <= mtu {
        len
    } else {
        mtu
    }
}

/// What the network stack may rely on from this device: Ethernet medium, the
/// configured buffer size as maximum transmission unit, one frame per poll
/// cycle, and no checksum offload.
pub struct DeviceCaps {
    pub medium_ethernet: bool,
    pub mtu: usize,
    pub max_burst_size: usize,
    pub checksum_offload: bool,
}

/// The ring engine of the controller: both rings, the dummy descriptor for
/// the secondary transmit queue, the computed region layout, and the station
/// address. The hardware handle itself (registers, PHY) lives outside; this
/// type owns everything the ownership protocol speaks about.
pub struct Driver {
    rx_ring: RxRing,
    tx_ring: TxRing,
    tx_dummy: TxDummy,
    ptrs: GemDmaPtrs,
    mac: [u8; 6],
}

impl Driver {
    /// The receive ring.
    pub closed spec fn spec_rx(&self) -> RxRing {
        self.rx_ring
    }

    /// The transmit ring.
    pub closed spec fn spec_tx(&self) -> TxRing {
        self.tx_ring
    }

    /// The dummy transmit descriptor.
    pub closed spec fn spec_dummy(&self) -> TxDummy {
        self.tx_dummy
    }

    /// The computed layout of the DMA region.
    pub closed spec fn spec_ptrs(&self) -> GemDmaPtrs {
        self.ptrs
    }

    /// The configured station (MAC) address.
    pub closed spec fn spec_mac(&self) -> [u8; 6] {
        self.mac
    }

    /// Well-formedness: both rings well formed, of one depth and one buffer
    /// size.
    pub open spec fn wf(&self) -> bool {
        &&& self.spec_rx().wf()
        &&& self.spec_tx().wf()
        &&& self.spec_rx().num_slots() == self.spec_tx().num_slots()
        &&& self.spec_rx().spec_mtu() == self.spec_tx().spec_mtu()
    }

    /// Carve the caller-supplied DMA region into the fixed layout, set up
    /// both rings and the dummy descriptor, and record the station address.
    /// Returns `None` when the region is smaller than the layout needs: that
    /// is a fatal configuration error with no degraded mode, and the caller
    /// must abort initialization. The region's physical side must lie in
    /// 32-bit space (the controller knows no wider addressing) and be word
    /// aligned.
    pub fn new(dma: DmaDef, num_bufs: usize, mtu: usize, mac: [u8; 6]) -> (r: Option<Driver>)
        requires
            valid_ring_geometry(num_bufs as int, mtu as int),
            dma.paddr % 4 == 0,
            dma.paddr + dma.size <= 0xFFFF_FFFF,
            dma.vaddr + dma.size <= usize::MAX,
        ensures
            r is Some <==> dma.size >= spec_required_dma_size(num_bufs as int, mtu as int),
            r matches Some(d) ==> {
                &&& d.wf()
                &&& d.spec_rx().num_slots() == num_bufs
                &&& d.spec_rx().spec_mtu() == mtu
                &&& d.spec_rx().cursor() == 0
                &&& d.spec_tx().cursor() == 0
                &&& spec_dma_layout(dma, num_bufs as int, mtu as int, d.spec_ptrs())
                &&& rx_setup_state(
                    d.spec_rx().descs(),
                    dma.paddr + spec_rx_buf_offset(num_bufs as int, mtu as int),
                    mtu as int,
                )
                &&& tx_setup_state(
                    d.spec_tx().descs(),
                    dma.paddr + spec_tx_buf_offset(num_bufs as int, mtu as int),
                    mtu as int,
                )
                &&& d.spec_tx().desc_base_paddr() == dma.paddr + spec_tx_desc_offset(
                    num_bufs as int,
                    mtu as int,
                )
                &&& tx_used_bit(d.spec_dummy().spec_desc().status_word())
                &&& tx_wrap_bit(d.spec_dummy().spec_desc().status_word())
                &&& !tx_frame_end_bit(d.spec_dummy().spec_desc().status_word())
                &&& tx_len_field(d.spec_dummy().spec_desc().status_word()) == 0
                &&& d.spec_dummy().spec_paddr() == dma.paddr + spec_tx_dummy_offset(
                    num_bufs as int,
                    mtu as int,
                )
                &&& d.spec_mac() == mac
            },
    {
        let ptrs_opt = alloc_dma(dma, num_bufs, mtu);
        match ptrs_opt {
            None => None,
            Some(ptrs) => {
                proof {
                    let n = num_bufs as int;
                    let m = mtu as int;
                    crate::layout::lemma_scaled_size_word_aligned(n, m);
                    crate::layout::lemma_scaled_size_word_aligned(n, 8);
                    assert((8 * n) % 4 == 0);
                }
                let rx_ring = RxRing::new(&ptrs.rx, num_bufs, mtu);
                let tx_ring = TxRing::new(&ptrs.tx, num_bufs, mtu);
                let tx_dummy = TxDummy::new(&ptrs.tx_dummy);
                Some(Driver { rx_ring, tx_ring, tx_dummy, ptrs, mac })
            },
        }
    }

    /// Classify an interrupt from a snapshot of the controller's receive-
    /// and transmit-complete flags. Pure: reading and clearing the underlying
    /// status registers is the caller's responsibility.
    pub fn get_irq_type(&self, rx_complete: bool, tx_complete: bool) -> (t: IrqType)
        ensures
            t == spec_irq_type(rx_complete, tx_complete),
    {
        if rx_complete {
            IrqType::RxComplete
        } else if tx_complete {
            IrqType::TxComplete
        } else {
            IrqType::Unknown
        }
    }

    /// Whether the receive slot at the cursor holds a completed frame.
    pub fn rx_available(&self) -> (r: bool)
        requires
            self.wf(),
        ensures
            r == rx_avail_bit(self.spec_rx().descs()[self.spec_rx().cursor()].addr_word()),
    {
        self.rx_ring.next_entry_available()
    }

    /// Whether the transmit slot at the cursor is free to fill.
    pub fn tx_available(&self) -> (r: bool)
        requires
            self.wf(),
        ensures
            r == tx_used_bit(self.spec_tx().descs()[self.spec_tx().cursor()].status_word()),
    {
        self.tx_ring.next_entry_available()
    }

    /// What the network stack may rely on from this device.
    pub fn capabilities(&self) -> (c: DeviceCaps)
        requires
            self.wf(),
        ensures
            c.medium_ethernet,
            c.mtu == self.spec_tx().spec_mtu(),
            c.max_burst_size == 1,
            !c.checksum_offload,
    {
        DeviceCaps {
            medium_ethernet: true,
            mtu: self.tx_ring.mtu(),
            max_burst_size: 1,
            checksum_offload: false,
        }
    }

    /// The configured station (MAC) address.
    pub fn get_mac_address(&self) -> (r: [u8; 6])
        ensures
            r == self.spec_mac(),
    {
        self.mac
    }

    /// The computed layout of the DMA region, for programming the
    /// controller's descriptor-table base registers.
    pub fn dma_ptrs(&self) -> (r: GemDmaPtrs)
        ensures
            r == self.spec_ptrs(),
    {
        self.ptrs
    }

    /// Borrow the receive ring.
    pub fn rx(&self) -> (r: &RxRing)
        ensures
            *r == self.spec_rx(),
    {
        &self.rx_ring
    }

    /// Borrow the transmit ring.
    pub fn tx(&self) -> (r: &TxRing)
        ensures
            *r == self.spec_tx(),
    {
        &self.tx_ring
    }

    /// Borrow the receive ring for driving its hardware side. The driver
    /// stays well formed as long as the borrower leaves the ring well formed
    /// with its depth and buffer size unchanged.
    pub fn rx_mut(&mut self) -> (r: &mut RxRing)
        ensures
            *r == old(self).spec_rx(),
            final(self).spec_rx() == *final(r),
            final(self).spec_tx() == old(self).spec_tx(),
            final(self).spec_dummy() == old(self).spec_dummy(),
            final(self).spec_ptrs() == old(self).spec_ptrs(),
            final(self).spec_mac() == old(self).spec_mac(),
    {
        &mut self.rx_ring
    }

    /// Borrow the transmit ring for driving its hardware side. The driver
    /// stays well formed as long as the borrower leaves the ring well formed
    /// with its depth and buffer size unchanged.
    pub fn tx_mut(&mut self) -> (r: &mut TxRing)
        ensures
            *r == old(self).spec_tx(),
            final(self).spec_tx() == *final(r),
            final(self).spec_rx() == old(self).spec_rx(),
            final(self).spec_dummy() == old(self).spec_dummy(),
            final(self).spec_ptrs() == old(self).spec_ptrs(),
            final(self).spec_mac() == old(self).spec_mac(),
    {
        &mut self.tx_ring
    }

    /// One whole receive operation, the collapsed form of the single-use
    /// receive token: when both a completed receive slot and a free transmit
    /// slot are at hand (receiving may need a transmit slot free for a
    /// protocol reply), copy the ready frame's buffer out, hand the slot
    /// back to the DMA engine, and advance the receive cursor by exactly
    /// one. Otherwise nothing changes and `None` says: not ready, poll
    /// again later.
    pub fn receive(&mut self) -> (r: Option<Vec<u8>>)
        requires
            old(self).wf(),
        ensures
            final(self).wf(),
            r is Some <==> {
                &&& rx_avail_bit(
                    old(self).spec_rx().descs()[old(self).spec_rx().cursor()].addr_word(),
                )
                &&& tx_used_bit(
                    old(self).spec_tx().descs()[old(self).spec_tx().cursor()].status_word(),
                )
            },
            r matches Some(frame) ==> {
                let c = old(self).spec_rx().cursor();
                &&& frame@ == old(self).spec_rx().bufs()[c]@
                &&& final(self).spec_rx().cursor() == (c + 1) % old(self).spec_rx().num_slots()
                &&& !rx_avail_bit(final(self).spec_rx().descs()[c].addr_word())
                &&& forall|i: int|
                    0 <= i < old(self).spec_rx().num_slots() && i != c
                        ==> final(self).spec_rx().descs()[i] == old(self).spec_rx().descs()[i]
                &&& final(self).spec_rx().bufs() == old(self).spec_rx().bufs()
                &&& final(self).spec_tx() == old(self).spec_tx()
                &&& final(self).spec_dummy() == old(self).spec_dummy()
                &&& final(self).spec_mac() == old(self).spec_mac()
                &&& final(self).spec_ptrs() == old(self).spec_ptrs()
            },
            r is None ==> *final(self) == *old(self),
    {
        if !(self.tx_ring.next_entry_available() && self.rx_ring.next_entry_available()) {
            return None;
        }
        let ghost rx0 = self.rx_ring;
        let buf = self.rx_ring.recv_next();
        let frame = buf.clone();
        proof {
            // a clone of a byte buffer carries the same bytes, and an
            // untouched borrow leaves the pool as it was
            assert(frame@ =~= rx0.bufs()[rx0.cursor()]@);
            assert(self.rx_ring.bufs() =~= rx0.bufs());
        }
        self.rx_ring.mark_done();
        Some(frame)
    }

    /// One whole transmit operation, the collapsed form of the single-use
    /// transmit token: when the transmit slot at the cursor is free, claim
    /// it for the frame — clearing old status, recording the (clamped)
    /// length, marking the single-buffer frame complete, committing the slot
    /// to the DMA engine — copy the frame's bytes in, advance the cursor,
    /// and return the physical address of the claimed descriptor. The caller
    /// must then kick the controller's transmit machinery, pointing it at
    /// that address: claim, then fill, then kick. Otherwise nothing changes
    /// and `None` says: not ready, poll again later. Frames longer than the
    /// buffer size are truncated to it, the documented oversize policy (see
    /// `spec_send_len`).
    pub fn transmit(&mut self, frame: &Vec<u8>) -> (r: Option<u32>)
        requires
            old(self).wf(),
        ensures
            final(self).wf(),
            r is Some <==> tx_used_bit(
                old(self).spec_tx().descs()[old(self).spec_tx().cursor()].status_word(),
            ),
            r matches Some(paddr) ==> {
                let c = old(self).spec_tx().cursor();
                let m = old(self).spec_tx().spec_mtu();
                let sl = spec_send_len(frame@.len() as int, m);
                &&& paddr == old(self).spec_tx().desc_base_paddr() + c * crate::tx::DESC_SIZE
                &&& final(self).spec_tx().cursor() == (c + 1) % old(self).spec_tx().num_slots()
                &&& !tx_used_bit(final(self).spec_tx().descs()[c].status_word())
                &&& tx_len_field(final(self).spec_tx().descs()[c].status_word()) == sl
                &&& tx_frame_end_bit(final(self).spec_tx().descs()[c].status_word())
                &&& tx_wrap_bit(final(self).spec_tx().descs()[c].status_word()) == tx_wrap_bit(
                    old(self).spec_tx().descs()[c].status_word(),
                )
                &&& final(self).spec_tx().descs()[c].addr_word() == old(self).spec_tx().descs()[
                    c
                ].addr_word()
                &&& forall|i: int|
                    0 <= i < old(self).spec_tx().num_slots() && i != c
                        ==> final(self).spec_tx().descs()[i] == old(self).spec_tx().descs()[i]
                &&& final(self).spec_tx().bufs()[c]@ == frame@.subrange(0, sl) + old(
                    self,
                ).spec_tx().bufs()[c]@.subrange(sl, m)
                &&& forall|i: int|
                    0 <= i < old(self).spec_tx().num_slots() && i != c
                        ==> final(self).spec_tx().bufs()[i] == old(self).spec_tx().bufs()[i]
                &&& final(self).spec_rx() == old(self).spec_rx()
                &&& final(self).spec_dummy() == old(self).spec_dummy()
                &&& final(self).spec_mac() == old(self).spec_mac()
                &&& final(self).spec_ptrs() == old(self).spec_ptrs()
            },
            r is None ==> *final(self) == *old(self),
    {
        if !self.tx_ring.next_entry_available() {
            return None;
        }
        let mtu = self.tx_ring.mtu();
        let len = frame.len();
        let send_len = if len > mtu {
            mtu
        } else {
            len
        };
        let ghost tx0 = self.tx_ring;
        let _ = self.tx_ring.get_next_buffer(send_len);
        proof {
            assert(self.tx_ring.bufs() =~= tx0.bufs());
        }
        self.tx_ring.fill_next_buffer(frame, send_len);
        let paddr = self.tx_ring.send_complete();
        Some(paddr)
    }
}

} // verus!
