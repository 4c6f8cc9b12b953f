use vstd::prelude::*;

use crate::buffer::DataBuf;
use crate::layout::DmaPtr;
use crate::layout::DmaPtrs;
use crate::layout::valid_ring_geometry;

verus! {

/// Size in bytes of one transmit descriptor: two 32-bit words, as laid down
/// by the controller's buffer-descriptor format.
pub const DESC_SIZE: usize = 8;

/// Ownership bit of the status word (bit 31). Set means the slot belongs to
/// software and is free to fill; clear means the DMA engine owns it.
pub open spec fn tx_used_bit(s: u32) -> bool {
    s & 0x8000_0000 == 0x8000_0000
}

/// End-of-ring bit of the status word (bit 30). Set on exactly one descriptor,
/// where the hardware's circular traversal wraps back to slot 0.
pub open spec fn tx_wrap_bit(s: u32) -> bool {
    s & 0x4000_0000 == 0x4000_0000
}

/// Frame-end bit of the status word (bit 15). Set on the last descriptor of a
/// frame; always set here, since multi-descriptor frames are unsupported.
pub open spec fn tx_frame_end_bit(s: u32) -> bool {
    s & 0x8000 == 0x8000
}

/// Frame length carried by the status word: bits 0..14.
pub open spec fn tx_len_field(s: u32) -> u32 {
    s & 0x3FFF
}

/// One transmit buffer descriptor: a 32-bit buffer address word and a 32-bit
/// status word holding the ownership bit, the end-of-ring bit, the frame-end
/// bit and the frame length. The layout is the controller's, byte for byte.
pub struct Descriptor {
    addr: u32,
    status: u32,
}

impl Descriptor {
    /// The buffer address word as the hardware sees it.
    pub closed spec fn addr_word(&self) -> u32 {
        self.addr
    }

    /// The status word as the hardware sees it.
    pub closed spec fn status_word(&self) -> u32 {
        self.status
    }

    /// A descriptor with both words zeroed: DMA-owned, not end-of-ring, no
    /// frame-end, length 0, address 0.
    pub fn new() -> (d: Descriptor)
        ensures
            d.addr_word() == 0,
            d.status_word() == 0,
    {
        Descriptor { addr: 0, status: 0 }
    }

    /// Point this descriptor at buffer address `a`; the status word is
    /// untouched. `a` must fit the controller's 32-bit addressing.
    pub fn set_addr(&mut self, a: usize)
        requires
            a <= 0xFFFF_FFFF,
        ensures
            final(self).addr_word() == a as u32,
            final(self).status_word() == old(self).status_word(),
    {
        self.addr = a as u32;
    }

    /// The buffer address this descriptor points at.
    pub fn addr(&self) -> (r: usize)
        ensures
            r == self.addr_word(),
    {
        self.addr as usize
    }

    /// Whether software owns this slot, i.e. it is free to fill and send.
    pub fn is_available(&self) -> (r: bool)
        ensures
            r == tx_used_bit(self.status_word()),
    {
        self.status & 0x8000_0000 == 0x8000_0000
    }

    /// Hand the slot to the DMA engine for transmission: clear the ownership
    /// bit. Everything else is untouched.
    pub fn mark_gem_owned(&mut self)
        ensures
            !tx_used_bit(final(self).status_word()),
            tx_wrap_bit(final(self).status_word()) == tx_wrap_bit(old(self).status_word()),
            tx_frame_end_bit(final(self).status_word()) == tx_frame_end_bit(
                old(self).status_word(),
            ),
            tx_len_field(final(self).status_word()) == tx_len_field(old(self).status_word()),
            final(self).addr_word() == old(self).addr_word(),
    {
        let s = self.status;
        self.status = self.status & 0x7FFF_FFFF;
        proof {
            assert({
                let v = s & 0x7FFF_FFFFu32;
                &&& !(v & 0x8000_0000 == 0x8000_0000)
                &&& (v & 0x4000_0000 == 0x4000_0000) == (s & 0x4000_0000 == 0x4000_0000)
                &&& (v & 0x8000 == 0x8000) == (s & 0x8000 == 0x8000)
                &&& v & 0x3FFF == s & 0x3FFF
            }) by (bit_vector);
        }
    }

    /// Give the slot back to software: set the ownership bit. Everything else
    /// is untouched.
    pub fn mark_sw_owned(&mut self)
        ensures
            tx_used_bit(final(self).status_word()),
            tx_wrap_bit(final(self).status_word()) == tx_wrap_bit(old(self).status_word()),
            tx_frame_end_bit(final(self).status_word()) == tx_frame_end_bit(
                old(self).status_word(),
            ),
            tx_len_field(final(self).status_word()) == tx_len_field(old(self).status_word()),
            final(self).addr_word() == old(self).addr_word(),
    {
        let s = self.status;
        self.status = self.status | 0x8000_0000;
        proof {
            assert({
                let v = s | 0x8000_0000u32;
                &&& v & 0x8000_0000 == 0x8000_0000
                &&& (v & 0x4000_0000 == 0x4000_0000) == (s & 0x4000_0000 == 0x4000_0000)
                &&& (v & 0x8000 == 0x8000) == (s & 0x8000 == 0x8000)
                &&& v & 0x3FFF == s & 0x3FFF
            }) by (bit_vector);
        }
    }

    /// Clear every status flag written by a previous transmission, keeping
    /// only the ownership and end-of-ring bits. Afterwards the frame-end bit
    /// is clear and the length field is 0.
    pub fn clear_status(&mut self)
        ensures
            tx_used_bit(final(self).status_word()) == tx_used_bit(old(self).status_word()),
            tx_wrap_bit(final(self).status_word()) == tx_wrap_bit(old(self).status_word()),
            !tx_frame_end_bit(final(self).status_word()),
            tx_len_field(final(self).status_word()) == 0,
            final(self).status_word() & 0x3FFF_FFFF == 0,
            final(self).addr_word() == old(self).addr_word(),
    {
        let s = self.status;
        self.status = self.status & 0xC000_0000;
        proof {
            assert({
                let v = s & 0xC000_0000u32;
                &&& (v & 0x8000_0000 == 0x8000_0000) == (s & 0x8000_0000 == 0x8000_0000)
                &&& (v & 0x4000_0000 == 0x4000_0000) == (s & 0x4000_0000 == 0x4000_0000)
                &&& !(v & 0x8000 == 0x8000)
                &&& v & 0x3FFF == 0
                &&& v & 0x3FFF_FFFF == 0
            }) by (bit_vector);
        }
    }

    /// Record the frame length in the status word's length field. Everything
    /// outside the field is untouched.
    pub fn set_len(&mut self, len: usize)
        requires
            len <= 0x3FFF,
        ensures
            tx_len_field(final(self).status_word()) == len as u32,
            tx_used_bit(final(self).status_word()) == tx_used_bit(old(self).status_word()),
            tx_wrap_bit(final(self).status_word()) == tx_wrap_bit(old(self).status_word()),
            tx_frame_end_bit(final(self).status_word()) == tx_frame_end_bit(
                old(self).status_word(),
            ),
            final(self).addr_word() == old(self).addr_word(),
    {
        let lu: u32 = len as u32;
        let s = self.status;
        self.status = (self.status & 0xFFFF_C000) | lu;
        proof {
            assert(lu <= 0x3FFF ==> {
                let v = (s & 0xFFFF_C000u32) | lu;
                &&& v & 0x3FFF == lu
                &&& (v & 0x8000_0000 == 0x8000_0000) == (s & 0x8000_0000 == 0x8000_0000)
                &&& (v & 0x4000_0000 == 0x4000_0000) == (s & 0x4000_0000 == 0x4000_0000)
                &&& (v & 0x8000 == 0x8000) == (s & 0x8000 == 0x8000)
            }) by (bit_vector);
        }
    }

    /// Mark the slot as carrying the end of its frame: set the frame-end bit,
    /// everything else untouched. Every frame is a single-buffer frame here.
    pub fn mark_frame_end(&mut self)
        ensures
            tx_frame_end_bit(final(self).status_word()),
            tx_used_bit(final(self).status_word()) == tx_used_bit(old(self).status_word()),
            tx_wrap_bit(final(self).status_word()) == tx_wrap_bit(old(self).status_word()),
            tx_len_field(final(self).status_word()) == tx_len_field(old(self).status_word()),
            final(self).addr_word() == old(self).addr_word(),
    {
        let s = self.status;
        self.status = self.status | 0x8000;
        proof {
            assert({
                let v = s | 0x8000u32;
                &&& v & 0x8000 == 0x8000
                &&& (v & 0x8000_0000 == 0x8000_0000) == (s & 0x8000_0000 == 0x8000_0000)
                &&& (v & 0x4000_0000 == 0x4000_0000) == (s & 0x4000_0000 == 0x4000_0000)
                &&& v & 0x3FFF == s & 0x3FFF
            }) by (bit_vector);
        }
    }

    /// Mark this descriptor as the last of its table: set the end-of-ring
    /// bit, everything else untouched.
    pub fn mark_last(&mut self)
        ensures
            tx_wrap_bit(final(self).status_word()),
            tx_used_bit(final(self).status_word()) == tx_used_bit(old(self).status_word()),
            tx_frame_end_bit(final(self).status_word()) == tx_frame_end_bit(
                old(self).status_word(),
            ),
            tx_len_field(final(self).status_word()) == tx_len_field(old(self).status_word()),
            final(self).addr_word() == old(self).addr_word(),
    {
        let s = self.status;
        self.status = self.status | 0x4000_0000;
        proof {
            assert({
                let v = s | 0x4000_0000u32;
                &&& v & 0x4000_0000 == 0x4000_0000
                &&& (v & 0x8000_0000 == 0x8000_0000) == (s & 0x8000_0000 == 0x8000_0000)
                &&& (v & 0x8000 == 0x8000) == (s & 0x8000 == 0x8000)
                &&& v & 0x3FFF == s & 0x3FFF
            }) by (bit_vector);
        }
    }
    /// Whether this descriptor is marked as the last of its table.
    pub fn is_last(&self) -> (r: bool)
        ensures
            r == tx_wrap_bit(self.status_word()),
    {
        self.status & 0x4000_0000 == 0x4000_0000
    }

    /// Whether this descriptor is marked as carrying the end of its frame.
    pub fn is_frame_end(&self) -> (r: bool)
        ensures
            r == tx_frame_end_bit(self.status_word()),
    {
        self.status & 0x8000 == 0x8000
    }

    /// The frame length recorded in the status word.
    pub fn frame_len(&self) -> (r: usize)
        ensures
            r == tx_len_field(self.status_word()),
    {
        (self.status & 0x3FFF) as usize
    }
}

/// A zeroed status word carries no flags and length 0.
pub proof fn lemma_tx_zero_word()
    by (bit_vector)
    ensures
        !tx_used_bit(0u32),
        !tx_wrap_bit(0u32),
        !tx_frame_end_bit(0u32),
        tx_len_field(0u32) == 0u32,
{
}

/// The state `setup` leaves a fresh descriptor table in: descriptor `i`
/// points at buffer `i` of a pool based at `buf_paddr`, every slot is owned
/// by software and free to fill, no frame flags or lengths are recorded yet,
/// and the end-of-ring bit is set on the last descriptor and on no other.
pub open spec fn tx_setup_state(descs: Seq<Descriptor>, buf_paddr: int, mtu: int) -> bool {
    forall|i: int|
        0 <= i < descs.len() ==> {
            &&& (#[trigger] descs[i]).addr_word() == buf_paddr + i * mtu
            &&& tx_used_bit(descs[i].status_word())
            &&& tx_wrap_bit(descs[i].status_word()) == (i == descs.len() - 1)
            &&& !tx_frame_end_bit(descs[i].status_word())
            &&& tx_len_field(descs[i].status_word()) == 0
        }
}

/// Exactly one descriptor of a freshly set up table carries the end-of-ring
/// bit: the last one.
pub proof fn lemma_tx_end_of_ring_unique(descs: Seq<Descriptor>, buf_paddr: int, mtu: int)
    requires
        descs.len() >= 1,
        tx_setup_state(descs, buf_paddr, mtu),
    ensures
        tx_wrap_bit(descs[descs.len() - 1].status_word()),
        forall|i: int|
            0 <= i < descs.len() - 1 ==> !tx_wrap_bit((#[trigger] descs[i]).status_word()),
{
}

/// After setup, descriptor `k` points at buffer `k`: its address word is
/// the buffer pool base plus `k` times the buffer size.
pub proof fn lemma_tx_setup_addresses(descs: Seq<Descriptor>, buf_paddr: int, mtu: int, k: int)
    requires
        tx_setup_state(descs, buf_paddr, mtu),
        0 <= k < descs.len(),
    ensures
        descs[k].addr_word() == buf_paddr + k * mtu,
{
}

/// Every slot of a freshly set up transmit table is available to software:
/// every slot starts free to fill, whatever the cursor points at.
pub proof fn lemma_tx_fresh_slot_available(
    descs: Seq<Descriptor>,
    buf_paddr: int,
    mtu: int,
    k: int,
)
    requires
        tx_setup_state(descs, buf_paddr, mtu),
        0 <= k < descs.len(),
    ensures
        tx_used_bit(descs[k].status_word()),
{
}

/// The single inert descriptor handed to the controller's secondary
/// transmit-queue register. It is set up once — software-owned, end-of-ring,
/// no frame — and never touched again; its only purpose is to give that
/// queue a valid, harmless target.
pub struct TxDummy {
    desc: Descriptor,
    paddr: usize,
}

impl TxDummy {
    /// The descriptor as the hardware sees it.
    pub closed spec fn spec_desc(&self) -> Descriptor {
        self.desc
    }

    /// The physical address the descriptor was placed at.
    pub closed spec fn spec_paddr(&self) -> int {
        self.paddr as int
    }

    /// Set up the dummy descriptor at the sub-region in `dma_ptr`:
    /// software-owned, sole (hence last) entry of its one-slot ring, no frame
    /// flags, no length, no buffer.
    pub fn new(dma_ptr: &DmaPtr) -> (d: TxDummy)
        ensures
            tx_used_bit(d.spec_desc().status_word()),
            tx_wrap_bit(d.spec_desc().status_word()),
            !tx_frame_end_bit(d.spec_desc().status_word()),
            tx_len_field(d.spec_desc().status_word()) == 0,
            d.spec_desc().addr_word() == 0,
            d.spec_paddr() == dma_ptr.paddr,
    {
        let mut dummy = TxDummy { desc: Descriptor::new(), paddr: dma_ptr.paddr };
        dummy.setup();
        dummy
    }

    /// Clear the status, take software ownership, and mark the descriptor as
    /// the last of its (one-entry) table.
    fn setup(&mut self)
        ensures
            tx_used_bit(final(self).spec_desc().status_word()),
            tx_wrap_bit(final(self).spec_desc().status_word()),
            !tx_frame_end_bit(final(self).spec_desc().status_word()),
            tx_len_field(final(self).spec_desc().status_word()) == 0,
            final(self).spec_desc().addr_word() == old(self).spec_desc().addr_word(),
            final(self).spec_paddr() == old(self).spec_paddr(),
    {
        self.desc.clear_status();
        self.desc.mark_sw_owned();
        self.desc.mark_last();
    }

    /// Look at the descriptor.
    pub fn desc(&self) -> (d: &Descriptor)
        ensures
            *d == self.spec_desc(),
    {
        &self.desc
    }

    /// The physical address the descriptor was placed at, for the secondary
    /// transmit-queue register.
    pub fn paddr(&self) -> (r: usize)
        ensures
            r == self.spec_paddr(),
    {
        self.paddr
    }
}

/// The transmit ring: the descriptor table and the buffer pool it was paired
/// with, the physical base address of the table, and the cursor of the next
/// slot software will claim. Slots move `software-owned -> DMA-owned` when
/// software commits a frame with `get_next_buffer`, and back when the
/// hardware finishes sending it.
pub struct TxRing {
    curr_entry: usize,
    buffer: DataBuf,
    base_paddr: usize,
    entries: Vec<Descriptor>,
}

impl TxRing {
    /// The cursor: index of the next slot software claims.
    pub closed spec fn cursor(&self) -> int {
        self.curr_entry as int
    }

    /// The descriptor table, slot by slot.
    pub closed spec fn descs(&self) -> Seq<Descriptor> {
        self.entries@
    }

    /// The buffer pool, slot by slot.
    pub closed spec fn bufs(&self) -> Seq<Vec<u8>> {
        self.buffer@
    }

    /// The configured size in bytes of each buffer.
    pub closed spec fn spec_mtu(&self) -> int {
        self.buffer.spec_mtu()
    }

    /// The physical base address of the descriptor table.
    pub closed spec fn desc_base_paddr(&self) -> int {
        self.base_paddr as int
    }

    /// The number of slots in the ring.
    pub open spec fn num_slots(&self) -> int {
        self.descs().len() as int
    }

    /// Well-formedness: at least one slot, descriptors and buffers paired
    /// 1:1, the cursor in range, every buffer at its configured size, the
    /// buffer size within what the descriptor's length field can carry, and
    /// every descriptor's physical address within 32-bit reach.
    pub open spec fn wf(&self) -> bool {
        &&& 1 <= self.num_slots()
        &&& self.bufs().len() == self.num_slots()
        &&& 0 <= self.cursor() < self.num_slots()
        &&& forall|i: int|
            0 <= i < self.num_slots() ==> (#[trigger] self.bufs()[i])@.len() == self.spec_mtu()
        &&& self.spec_mtu() <= 0x3FFC
        &&& self.desc_base_paddr() + self.num_slots() * DESC_SIZE <= 0xFFFF_FFFF
    }

    /// Build and set up a transmit ring of `num_bufs` slots of `mtu` bytes
    /// each, its descriptor table placed at the table sub-region in
    /// `dma_ptrs` and its buffers taken from the pool sub-region. Every slot
    /// starts software-owned with a zeroed buffer; the cursor starts at 0.
    pub fn new(dma_ptrs: &DmaPtrs, num_bufs: usize, mtu: usize) -> (ring: TxRing)
        requires
            valid_ring_geometry(num_bufs as int, mtu as int),
            dma_ptrs.buf.paddr + num_bufs * mtu <= 0xFFFF_FFFF,
            dma_ptrs.desc.paddr + num_bufs * DESC_SIZE <= 0xFFFF_FFFF,
        ensures
            ring.wf(),
            ring.num_slots() == num_bufs,
            ring.spec_mtu() == mtu,
            ring.cursor() == 0,
            ring.desc_base_paddr() == dma_ptrs.desc.paddr,
            tx_setup_state(ring.descs(), dma_ptrs.buf.paddr as int, mtu as int),
            forall|i: int, j: int|
                0 <= i < num_bufs && 0 <= j < mtu ==> #[trigger] ring.bufs()[i]@[j] == 0u8,
    {
        let mut entries: Vec<Descriptor> = Vec::new();
        let mut i: usize = 0;
        while i < num_bufs
            invariant
                i <= num_bufs,
                entries@.len() == i,
                forall|k: int|
                    0 <= k < i ==> (#[trigger] entries@[k]).addr_word() == 0
                        && entries@[k].status_word() == 0,
            decreases num_bufs - i,
        {
            entries.push(Descriptor::new());
            i = i + 1;
        }
        let mut ring = TxRing {
            curr_entry: 0,
            buffer: DataBuf::new(num_bufs, mtu),
            base_paddr: dma_ptrs.desc.paddr,
            entries,
        };
        ring.setup(dma_ptrs.buf.paddr);
        ring
    }

    /// Write each slot's buffer address into its descriptor, give every slot
    /// to software, and mark the last descriptor as end-of-ring.
    fn setup(&mut self, buffers_paddr: usize)
        requires
            old(self).wf(),
            buffers_paddr + old(self).num_slots() * old(self).spec_mtu() <= 0xFFFF_FFFF,
            forall|i: int|
                0 <= i < old(self).num_slots() ==> (#[trigger] old(self).descs()[i]).addr_word()
                    == 0 && old(self).descs()[i].status_word() == 0,
        ensures
            final(self).wf(),
            final(self).num_slots() == old(self).num_slots(),
            final(self).cursor() == old(self).cursor(),
            final(self).bufs() == old(self).bufs(),
            final(self).spec_mtu() == old(self).spec_mtu(),
            final(self).desc_base_paddr() == old(self).desc_base_paddr(),
            tx_setup_state(final(self).descs(), buffers_paddr as int, old(self).spec_mtu()),
    {
        let n = self.entries.len();
        let mtu = self.buffer.mtu();
        let mut i: usize = 0;
        while i < n
            invariant
                n == self.entries@.len(),
                i <= n,
                self.buffer == old(self).buffer,
                self.curr_entry == old(self).curr_entry,
                self.base_paddr == old(self).base_paddr,
                mtu == self.buffer.spec_mtu(),
                buffers_paddr + n * mtu <= 0xFFFF_FFFF,
                forall|k: int|
                    i <= k < n ==> (#[trigger] self.entries@[k]).addr_word() == 0
                        && self.entries@[k].status_word() == 0,
                forall|k: int|
                    0 <= k < i ==> {
                        let d = #[trigger] self.entries@[k];
                        &&& d.addr_word() == buffers_paddr + k * mtu
                        &&& tx_used_bit(d.status_word())
                        &&& !tx_wrap_bit(d.status_word())
                        &&& !tx_frame_end_bit(d.status_word())
                        &&& tx_len_field(d.status_word()) == 0
                    },
            decreases n - i,
        {
            proof {
                assert(i * mtu <= n * mtu) by (nonlinear_arith)
                    requires
                        0 <= i <= n,
                        0 <= mtu,
                ;
                lemma_tx_zero_word();
            }
            let a = buffers_paddr + i * mtu;
            self.entries[i].set_addr(a);
            self.entries[i].mark_sw_owned();
            i = i + 1;
        }
        let last = n - 1;
        self.entries[last].mark_last();
    }

    /// The number of slots in the ring.
    pub fn num_entries(&self) -> (r: usize)
        ensures
            r == self.num_slots(),
    {
        self.entries.len()
    }

    /// The configured size in bytes of each buffer.
    pub fn mtu(&self) -> (r: usize)
        ensures
            r == self.spec_mtu(),
    {
        self.buffer.mtu()
    }

    /// The cursor: index of the next slot software claims.
    pub fn current_entry(&self) -> (r: usize)
        ensures
            r == self.cursor(),
    {
        self.curr_entry
    }

    /// Look at descriptor `i` of the table.
    pub fn descriptor(&self, i: usize) -> (d: &Descriptor)
        requires
            i < self.num_slots(),
        ensures
            *d == self.descs()[i as int],
    {
        &self.entries[i]
    }

    /// Look at the buffer of slot `i`.
    pub fn buffer_at(&self, i: usize) -> (r: &Vec<u8>)
        requires
            self.wf(),
            i < self.num_slots(),
        ensures
            *r == self.bufs()[i as int],
    {
        self.buffer.read(i)
    }

    /// Whether the slot at the cursor is owned by software, i.e. free to
    /// fill and send. Non-blocking and side-effect free.
    pub fn next_entry_available(&self) -> (r: bool)
        requires
            self.wf(),
        ensures
            r == tx_used_bit(self.descs()[self.cursor()].status_word()),
    {
        self.entries[self.curr_entry].is_available()
    }

    /// Claim the slot at the cursor for a frame of `len` bytes: clear the
    /// previous completion status, record the length, mark the slot as a
    /// complete single-buffer frame, commit it to the DMA engine, and borrow
    /// the buffer for the caller to fill. The cursor does not move — that is
    /// `send_complete`'s job. Ownership is committed before the caller
    /// fills the buffer, so the fill must happen in the same synchronous
    /// step, before the transmit kick: the documented sequence is
    /// claim, then fill, then kick.
    pub fn get_next_buffer(&mut self, len: usize) -> (r: &mut Vec<u8>)
        requires
            old(self).wf(),
            len <= old(self).spec_mtu(),
        ensures
            *r == old(self).bufs()[old(self).cursor()],
            final(self).bufs() == old(self).bufs().update(old(self).cursor(), *final(r)),
            final(self).cursor() == old(self).cursor(),
            final(self).num_slots() == old(self).num_slots(),
            final(self).spec_mtu() == old(self).spec_mtu(),
            final(self).desc_base_paddr() == old(self).desc_base_paddr(),
            !tx_used_bit(final(self).descs()[old(self).cursor()].status_word()),
            tx_len_field(final(self).descs()[old(self).cursor()].status_word()) == len as u32,
            tx_frame_end_bit(final(self).descs()[old(self).cursor()].status_word()),
            tx_wrap_bit(final(self).descs()[old(self).cursor()].status_word()) == tx_wrap_bit(
                old(self).descs()[old(self).cursor()].status_word(),
            ),
            final(self).descs()[old(self).cursor()].addr_word() == old(self).descs()[old(
                self,
            ).cursor()].addr_word(),
            forall|i: int|
                0 <= i < old(self).num_slots() && i != old(self).cursor() ==> final(self).descs()[i]
                    == old(self).descs()[i],
            (*final(r))@.len() == old(self).spec_mtu() ==> final(self).wf(),
    {
        let curr = self.curr_entry;
        self.entries[curr].clear_status();
        self.entries[curr].set_len(len);
        self.entries[curr].mark_frame_end();
        self.entries[curr].mark_gem_owned();
        self.buffer.get(curr)
    }

    /// Copy the first `k` bytes of `data` into the buffer of the slot at the
    /// cursor, leaving the rest of that buffer, every other buffer, and
    /// every descriptor as they were: the fill step of the claim-fill-kick
    /// sequence, for callers that hand frames over by value.
    pub fn fill_next_buffer(&mut self, data: &Vec<u8>, k: usize)
        requires
            old(self).wf(),
            k <= data@.len(),
            k <= old(self).spec_mtu(),
        ensures
            final(self).wf(),
            final(self).num_slots() == old(self).num_slots(),
            final(self).spec_mtu() == old(self).spec_mtu(),
            final(self).cursor() == old(self).cursor(),
            final(self).descs() == old(self).descs(),
            final(self).desc_base_paddr() == old(self).desc_base_paddr(),
            final(self).bufs()[old(self).cursor()]@ == data@.subrange(0, k as int) + old(
                self,
            ).bufs()[old(self).cursor()]@.subrange(k as int, old(self).spec_mtu()),
            forall|i: int|
                0 <= i < old(self).num_slots() && i != old(self).cursor() ==> final(self).bufs()[i]
                    == old(self).bufs()[i],
    {
        let curr = self.curr_entry;
        self.buffer.fill(curr, data, k);
    }

    /// The physical address of descriptor `idx` of the table.
    fn desc_paddr(&self, idx: usize) -> (r: u32)
        requires
            self.wf(),
            idx < self.num_slots(),
        ensures
            r == self.desc_base_paddr() + idx * DESC_SIZE,
    {
        (self.base_paddr + idx * DESC_SIZE) as u32
    }

    /// Advance the cursor by exactly one, wrapping past the last slot.
    fn increment_idx(&mut self)
        requires
            old(self).wf(),
        ensures
            final(self).cursor() == (old(self).cursor() + 1) % old(self).num_slots(),
            final(self).descs() == old(self).descs(),
            final(self).bufs() == old(self).bufs(),
            final(self).spec_mtu() == old(self).spec_mtu(),
            final(self).desc_base_paddr() == old(self).desc_base_paddr(),
            final(self).wf(),
    {
        let n = self.entries.len();
        self.curr_entry = (self.curr_entry + 1) % n;
    }

    /// Step past the slot just claimed: advance the cursor by exactly one,
    /// wrapping past the last slot, and return the physical address of that
    /// slot's descriptor, for the caller to point the hardware at when it
    /// kicks transmission. Nothing else changes.
    pub fn send_complete(&mut self) -> (r: u32)
        requires
            old(self).wf(),
        ensures
            r == old(self).desc_base_paddr() + old(self).cursor() * DESC_SIZE,
            final(self).cursor() == (old(self).cursor() + 1) % old(self).num_slots(),
            final(self).descs() == old(self).descs(),
            final(self).bufs() == old(self).bufs(),
            final(self).num_slots() == old(self).num_slots(),
            final(self).spec_mtu() == old(self).spec_mtu(),
            final(self).desc_base_paddr() == old(self).desc_base_paddr(),
            final(self).wf(),
    {
        let curr = self.curr_entry;
        let r = self.desc_paddr(curr);
        self.increment_idx();
        r
    }

    /// Model of the DMA engine's side of the protocol: once the frame in
    /// slot `slot` has been sent, the hardware hands the slot back to
    /// software by setting its ownership bit. In a deployment this happens
    /// asynchronously in hardware; it is exposed so the other party of the
    /// ownership protocol can be driven explicitly.
    pub fn hw_complete_send(&mut self, slot: usize)
        requires
            old(self).wf(),
            slot < old(self).num_slots(),
        ensures
            final(self).wf(),
            final(self).num_slots() == old(self).num_slots(),
            final(self).spec_mtu() == old(self).spec_mtu(),
            final(self).cursor() == old(self).cursor(),
            final(self).bufs() == old(self).bufs(),
            final(self).desc_base_paddr() == old(self).desc_base_paddr(),
            tx_used_bit(final(self).descs()[slot as int].status_word()),
            tx_wrap_bit(final(self).descs()[slot as int].status_word()) == tx_wrap_bit(
                old(self).descs()[slot as int].status_word(),
            ),
            tx_frame_end_bit(final(self).descs()[slot as int].status_word()) == tx_frame_end_bit(
                old(self).descs()[slot as int].status_word(),
            ),
            tx_len_field(final(self).descs()[slot as int].status_word()) == tx_len_field(
                old(self).descs()[slot as int].status_word(),
            ),
            final(self).descs()[slot as int].addr_word() == old(self).descs()[slot as int].addr_word(),
            forall|i: int|
                0 <= i < old(self).num_slots() && i != slot ==> final(self).descs()[i] == old(
                    self,
                ).descs()[i],
    {
        self.entries[slot].mark_sw_owned();
    }
}

} // verus!
