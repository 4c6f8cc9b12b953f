use vstd::prelude::*;

use crate::buffer::DataBuf;
use crate::layout::DmaPtrs;
use crate::layout::valid_ring_geometry;

verus! {

/// Size in bytes of one receive descriptor: two 32-bit words, as laid down by
/// the controller's buffer-descriptor format.
pub const DESC_SIZE: usize = 8;

/// Ownership bit of the address word (bit 0). Set means the slot holds a
/// completed frame and belongs to software; clear means the DMA engine owns it.
pub open spec fn rx_avail_bit(w: u32) -> bool {
    w & 0x1 == 0x1
}

/// End-of-ring bit of the address word (bit 1). Set on exactly one descriptor,
/// where the hardware's circular traversal wraps back to slot 0.
pub open spec fn rx_wrap_bit(w: u32) -> bool {
    w & 0x2 == 0x2
}

/// Buffer address carried by the address word: bits 2..32, i.e. the word with
/// its two flag bits masked off. The hardware requires word alignment, so an
/// aligned address is stored and recovered exactly.
pub open spec fn rx_addr_field(w: u32) -> u32 {
    w & 0xFFFF_FFFC
}

/// One receive buffer descriptor: a 32-bit address-control word (buffer
/// address plus ownership and end-of-ring flags) and a 32-bit status word
/// written by the hardware. The layout is the controller's, byte for byte.
pub struct Descriptor {
    addr: u32,
    status: u32,
}

impl Descriptor {
    /// The address-control word as the hardware sees it.
    pub closed spec fn addr_word(&self) -> u32 {
        self.addr
    }

    /// The status word as the hardware sees it.
    pub closed spec fn status_word(&self) -> u32 {
        self.status
    }

    /// A descriptor with both words zeroed: DMA-owned, not end-of-ring,
    /// address 0.
    pub fn new() -> (d: Descriptor)
        ensures
            d.addr_word() == 0,
            d.status_word() == 0,
    {
        Descriptor { addr: 0, status: 0 }
    }

    /// The buffer address this descriptor points at.
    pub fn addr(&self) -> (r: usize)
        ensures
            r == rx_addr_field(self.addr_word()),
    {
        let unshifted: u32 = self.addr >> 2;
        let w = self.addr;
        proof {
            assert((w >> 2) << 2 == w & 0xFFFF_FFFCu32) by (bit_vector);
        }
        (unshifted << 2) as usize
    }

    /// Point this descriptor at buffer address `a`. The two flag bits and the
    /// status word are untouched. `a` must be word aligned and fit the
    /// controller's 32-bit addressing.
    pub fn set_addr(&mut self, a: usize)
        requires
            a % 4 == 0,
            a <= 0xFFFF_FFFF,
        ensures
            rx_addr_field(final(self).addr_word()) == a as u32,
            rx_avail_bit(final(self).addr_word()) == rx_avail_bit(old(self).addr_word()),
            rx_wrap_bit(final(self).addr_word()) == rx_wrap_bit(old(self).addr_word()),
            final(self).status_word() == old(self).status_word(),
    {
        let au: u32 = a as u32;
        let w = self.addr;
        self.addr = (self.addr & 0x3) | ((au >> 2) << 2);
        proof {
            assert(au % 4 == 0 ==> {
                let v = (w & 0x3) | ((au >> 2) << 2);
                &&& v & 0xFFFF_FFFCu32 == au
                &&& (v & 0x1 == 0x1) == (w & 0x1 == 0x1)
                &&& (v & 0x2 == 0x2) == (w & 0x2 == 0x2)
            }) by (bit_vector);
        }
    }

    /// Whether software owns this slot, i.e. a received frame is ready in it.
    pub fn is_available(&self) -> (r: bool)
        ensures
            r == rx_avail_bit(self.addr_word()),
    {
        self.addr & 0x1 == 0x1
    }

    /// Hand the slot back to the DMA engine: clear the ownership bit. The
    /// address and end-of-ring bit are untouched.
    pub fn mark_done(&mut self)
        ensures
            !rx_avail_bit(final(self).addr_word()),
            rx_wrap_bit(final(self).addr_word()) == rx_wrap_bit(old(self).addr_word()),
            rx_addr_field(final(self).addr_word()) == rx_addr_field(old(self).addr_word()),
            final(self).status_word() == old(self).status_word(),
    {
        let w = self.addr;
        self.addr = self.addr & 0xFFFF_FFFE;
        proof {
            assert({
                let v = w & 0xFFFF_FFFEu32;
                &&& !(v & 0x1 == 0x1)
                &&& (v & 0x2 == 0x2) == (w & 0x2 == 0x2)
                &&& v & 0xFFFF_FFFCu32 == w & 0xFFFF_FFFCu32
            }) by (bit_vector);
        }
    }

    /// Mark this descriptor as the last of its table: set the end-of-ring
    /// bit, everything else untouched.
    pub fn mark_last(&mut self)
        ensures
            rx_wrap_bit(final(self).addr_word()),
            rx_avail_bit(final(self).addr_word()) == rx_avail_bit(old(self).addr_word()),
            rx_addr_field(final(self).addr_word()) == rx_addr_field(old(self).addr_word()),
            final(self).status_word() == old(self).status_word(),
    {
        let w = self.addr;
        self.addr = self.addr | 0x2;
        proof {
            assert({
                let v = w | 0x2u32;
                &&& v & 0x2 == 0x2
                &&& (v & 0x1 == 0x1) == (w & 0x1 == 0x1)
                &&& v & 0xFFFF_FFFCu32 == w & 0xFFFF_FFFCu32
            }) by (bit_vector);
        }
    }

    /// Model of the DMA engine's completion write: the hardware sets the
    /// ownership bit once it has stored a frame in the slot's buffer. In a
    /// deployment this transition happens asynchronously in hardware; it is
    /// exposed so that the other party of the ownership protocol can be
    /// driven explicitly.
    pub fn hw_mark_available(&mut self)
        ensures
            rx_avail_bit(final(self).addr_word()),
            rx_wrap_bit(final(self).addr_word()) == rx_wrap_bit(old(self).addr_word()),
            rx_addr_field(final(self).addr_word()) == rx_addr_field(old(self).addr_word()),
            final(self).status_word() == old(self).status_word(),
    {
        let w = self.addr;
        self.addr = self.addr | 0x1;
        proof {
            assert({
                let v = w | 0x1u32;
                &&& v & 0x1 == 0x1
                &&& (v & 0x2 == 0x2) == (w & 0x2 == 0x2)
                &&& v & 0xFFFF_FFFCu32 == w & 0xFFFF_FFFCu32
            }) by (bit_vector);
        }
    }

    /// Whether this descriptor is marked as the last of its table.
    pub fn is_last(&self) -> (r: bool)
        ensures
            r == rx_wrap_bit(self.addr_word()),
    {
        self.addr & 0x2 == 0x2
    }
}

/// A zeroed address-control word carries no flags and address 0.
pub proof fn lemma_rx_zero_word()
    by (bit_vector)
    ensures
        !rx_avail_bit(0u32),
        !rx_wrap_bit(0u32),
        rx_addr_field(0u32) == 0u32,
{
}

/// The state `setup` leaves a fresh descriptor table in: descriptor `i`
/// points at buffer `i` of a pool based at `buf_paddr`, every slot is owned
/// by the DMA engine, and the end-of-ring bit is set on the last descriptor
/// and on no other.
pub open spec fn rx_setup_state(descs: Seq<Descriptor>, buf_paddr: int, mtu: int) -> bool {
    forall|i: int|
        0 <= i < descs.len() ==> {
            &&& rx_addr_field((#[trigger] descs[i]).addr_word()) == buf_paddr + i * mtu
            &&& !rx_avail_bit(descs[i].addr_word())
            &&& rx_wrap_bit(descs[i].addr_word()) == (i == descs.len() - 1)
        }
}

/// Exactly one descriptor of a freshly set up table carries the end-of-ring
/// bit: the last one.
pub proof fn lemma_rx_end_of_ring_unique(descs: Seq<Descriptor>, buf_paddr: int, mtu: int)
    requires
        descs.len() >= 1,
        rx_setup_state(descs, buf_paddr, mtu),
    ensures
        rx_wrap_bit(descs[descs.len() - 1].addr_word()),
        forall|i: int|
            0 <= i < descs.len() - 1 ==> !rx_wrap_bit((#[trigger] descs[i]).addr_word()),
{
}

/// After setup, descriptor `k` points at buffer `k`: its address field is
/// the buffer pool base plus `k` times the buffer size.
pub proof fn lemma_rx_setup_addresses(descs: Seq<Descriptor>, buf_paddr: int, mtu: int, k: int)
    requires
        rx_setup_state(descs, buf_paddr, mtu),
        0 <= k < descs.len(),
    ensures
        rx_addr_field(descs[k].addr_word()) == buf_paddr + k * mtu,
{
}

/// No slot of a freshly set up receive table is available to software: every
/// slot starts in the DMA engine's hands, whatever the cursor points at.
pub proof fn lemma_rx_fresh_slot_unavailable(
    descs: Seq<Descriptor>,
    buf_paddr: int,
    mtu: int,
    k: int,
)
    requires
        rx_setup_state(descs, buf_paddr, mtu),
        0 <= k < descs.len(),
    ensures
        !rx_avail_bit(descs[k].addr_word()),
{
}

/// The receive ring: the descriptor table and the buffer pool it was paired
/// with, plus the cursor of the next slot software will inspect. Slots move
/// `DMA-owned -> software-owned` when the hardware stores a frame, and back
/// when software hands the slot over with `mark_done`.
pub struct RxRing {
    curr_entry: usize,
    buffer: DataBuf,
    entries: Vec<Descriptor>,
}

impl RxRing {
    /// The cursor: index of the next slot software inspects.
    pub closed spec fn cursor(&self) -> int {
        self.curr_entry as int
    }

    /// The descriptor table, slot by slot.
    pub closed spec fn descs(&self) -> Seq<Descriptor> {
        self.entries@
    }

    /// The buffer pool, slot by slot.
    pub closed spec fn bufs(&self) -> Seq<Vec<u8>> {
        self.buffer@
    }

    /// The configured size in bytes of each buffer.
    pub closed spec fn spec_mtu(&self) -> int {
        self.buffer.spec_mtu()
    }

    /// The number of slots in the ring.
    pub open spec fn num_slots(&self) -> int {
        self.descs().len() as int
    }

    /// Well-formedness: at least one slot, descriptors and buffers paired
    /// 1:1, the cursor in range, and every buffer at its configured size.
    pub open spec fn wf(&self) -> bool {
        &&& 1 <= self.num_slots()
        &&& self.bufs().len() == self.num_slots()
        &&& 0 <= self.cursor() < self.num_slots()
        &&& forall|i: int|
            0 <= i < self.num_slots() ==> (#[trigger] self.bufs()[i])@.len() == self.spec_mtu()
    }

    /// Build and set up a receive ring of `num_bufs` slots of `mtu` bytes
    /// each, its buffers taken from the pool sub-region in `dma_ptrs`. Every
    /// slot starts DMA-owned with a zeroed buffer; the cursor starts at 0.
    pub fn new(dma_ptrs: &DmaPtrs, num_bufs: usize, mtu: usize) -> (ring: RxRing)
        requires
            valid_ring_geometry(num_bufs as int, mtu as int),
            dma_ptrs.buf.paddr % 4 == 0,
            dma_ptrs.buf.paddr + num_bufs * mtu <= 0xFFFF_FFFF,
        ensures
            ring.wf(),
            ring.num_slots() == num_bufs,
            ring.spec_mtu() == mtu,
            ring.cursor() == 0,
            rx_setup_state(ring.descs(), dma_ptrs.buf.paddr as int, mtu as int),
            forall|i: int, j: int|
                0 <= i < num_bufs && 0 <= j < mtu ==> #[trigger] ring.bufs()[i]@[j] == 0u8,
    {
        let mut entries: Vec<Descriptor> = Vec::new();
        let mut i: usize = 0;
        while i < num_bufs
            invariant
                i <= num_bufs,
                entries@.len() == i,
                forall|k: int|
                    0 <= k < i ==> (#[trigger] entries@[k]).addr_word() == 0
                        && entries@[k].status_word() == 0,
            decreases num_bufs - i,
        {
            entries.push(Descriptor::new());
            i = i + 1;
        }
        let mut ring = RxRing { curr_entry: 0, buffer: DataBuf::new(num_bufs, mtu), entries };
        ring.setup(dma_ptrs.buf.paddr);
        ring
    }

    /// Write each slot's buffer address into its descriptor, hand every slot
    /// to the DMA engine, and mark the last descriptor as end-of-ring.
    fn setup(&mut self, buffers_paddr: usize)
        requires
            old(self).wf(),
            old(self).spec_mtu() % 4 == 0,
            buffers_paddr % 4 == 0,
            buffers_paddr + old(self).num_slots() * old(self).spec_mtu() <= 0xFFFF_FFFF,
            forall|i: int|
                0 <= i < old(self).num_slots() ==> (#[trigger] old(self).descs()[i]).addr_word()
                    == 0,
        ensures
            final(self).wf(),
            final(self).num_slots() == old(self).num_slots(),
            final(self).cursor() == old(self).cursor(),
            final(self).bufs() == old(self).bufs(),
            final(self).spec_mtu() == old(self).spec_mtu(),
            rx_setup_state(final(self).descs(), buffers_paddr as int, old(self).spec_mtu()),
    {
        let n = self.entries.len();
        let mtu = self.buffer.mtu();
        let mut i: usize = 0;
        while i < n
            invariant
                n == self.entries@.len(),
                i <= n,
                self.buffer == old(self).buffer,
                self.curr_entry == old(self).curr_entry,
                mtu == self.buffer.spec_mtu(),
                mtu % 4 == 0,
                buffers_paddr % 4 == 0,
                buffers_paddr + n * mtu <= 0xFFFF_FFFF,
                forall|k: int|
                    i <= k < n ==> (#[trigger] self.entries@[k]).addr_word() == 0,
                forall|k: int|
                    0 <= k < i ==> {
                        let w = (#[trigger] self.entries@[k]).addr_word();
                        &&& rx_addr_field(w) == buffers_paddr + k * mtu
                        &&& !rx_avail_bit(w)
                        &&& !rx_wrap_bit(w)
                    },
            decreases n - i,
        {
            proof {
                assert(i * mtu <= n * mtu) by (nonlinear_arith)
                    requires
                        0 <= i <= n,
                        0 <= mtu,
                ;
                crate::layout::lemma_scaled_size_word_aligned(i as int, mtu as int);
            }
            proof {
                lemma_rx_zero_word();
            }
            let a = buffers_paddr + i * mtu;
            self.entries[i].set_addr(a);
            self.entries[i].mark_done();
            i = i + 1;
        }
        let last = n - 1;
        self.entries[last].mark_last();
    }

    /// The number of slots in the ring.
    pub fn num_entries(&self) -> (r: usize)
        ensures
            r == self.num_slots(),
    {
        self.entries.len()
    }

    /// The configured size in bytes of each buffer.
    pub fn mtu(&self) -> (r: usize)
        ensures
            r == self.spec_mtu(),
    {
        self.buffer.mtu()
    }

    /// The cursor: index of the next slot software inspects.
    pub fn current_entry(&self) -> (r: usize)
        ensures
            r == self.cursor(),
    {
        self.curr_entry
    }

    /// Look at descriptor `i` of the table.
    pub fn descriptor(&self, i: usize) -> (d: &Descriptor)
        requires
            i < self.num_slots(),
        ensures
            *d == self.descs()[i as int],
    {
        &self.entries[i]
    }

    /// Look at the buffer of slot `i`.
    pub fn buffer_at(&self, i: usize) -> (r: &Vec<u8>)
        requires
            self.wf(),
            i < self.num_slots(),
        ensures
            *r == self.bufs()[i as int],
    {
        self.buffer.read(i)
    }

    /// Whether the slot at the cursor holds a completed frame, i.e. is owned
    /// by software. Non-blocking and side-effect free.
    pub fn next_entry_available(&self) -> (r: bool)
        requires
            self.wf(),
        ensures
            r == rx_avail_bit(self.descs()[self.cursor()].addr_word()),
    {
        self.entries[self.curr_entry].is_available()
    }

    /// Borrow the buffer of the slot at the cursor. The caller must have
    /// confirmed availability already; this neither checks nor changes
    /// ownership. The ring stays well formed as long as the borrower leaves
    /// the buffer at its configured size.
    pub fn recv_next(&mut self) -> (r: &mut Vec<u8>)
        requires
            old(self).wf(),
        ensures
            *r == old(self).bufs()[old(self).cursor()],
            final(self).bufs() == old(self).bufs().update(old(self).cursor(), *final(r)),
            final(self).descs() == old(self).descs(),
            final(self).cursor() == old(self).cursor(),
            final(self).spec_mtu() == old(self).spec_mtu(),
            (*final(r))@.len() == old(self).spec_mtu() ==> final(self).wf(),
    {
        self.buffer.get(self.curr_entry)
    }

    /// Hand the slot at the cursor back to the DMA engine and advance the
    /// cursor by exactly one, wrapping past the last slot. Only the cursor
    /// slot's ownership bit changes; every other descriptor, every buffer,
    /// and the slot's address and end-of-ring bit are untouched. Must be
    /// called exactly once per consumed frame, after all reads of the buffer
    /// are finished.
    pub fn mark_done(&mut self)
        requires
            old(self).wf(),
        ensures
            final(self).wf(),
            final(self).num_slots() == old(self).num_slots(),
            final(self).spec_mtu() == old(self).spec_mtu(),
            final(self).bufs() == old(self).bufs(),
            final(self).cursor() == (old(self).cursor() + 1) % old(self).num_slots(),
            !rx_avail_bit(final(self).descs()[old(self).cursor()].addr_word()),
            rx_wrap_bit(final(self).descs()[old(self).cursor()].addr_word()) == rx_wrap_bit(
                old(self).descs()[old(self).cursor()].addr_word(),
            ),
            rx_addr_field(final(self).descs()[old(self).cursor()].addr_word()) == rx_addr_field(
                old(self).descs()[old(self).cursor()].addr_word(),
            ),
            final(self).descs()[old(self).cursor()].status_word() == old(self).descs()[old(
                self,
            ).cursor()].status_word(),
            forall|i: int|
                0 <= i < old(self).num_slots() && i != old(self).cursor() ==> final(self).descs()[i]
                    == old(self).descs()[i],
    {
        let curr = self.curr_entry;
        self.entries[curr].mark_done();
        let n = self.entries.len();
        self.curr_entry = (curr + 1) % n;
    }

    /// Model of the DMA engine's side of the protocol: the hardware stores a
    /// received frame of `k` bytes in slot `slot`'s buffer and hands the slot
    /// to software by setting its ownership bit. In a deployment this happens
    /// asynchronously in hardware; it is exposed so the other party of the
    /// ownership protocol can be driven explicitly.
    pub fn hw_write_frame(&mut self, slot: usize, frame: &Vec<u8>, k: usize)
        requires
            old(self).wf(),
            slot < old(self).num_slots(),
            k <= frame@.len(),
            k <= old(self).spec_mtu(),
        ensures
            final(self).wf(),
            final(self).num_slots() == old(self).num_slots(),
            final(self).spec_mtu() == old(self).spec_mtu(),
            final(self).cursor() == old(self).cursor(),
            rx_avail_bit(final(self).descs()[slot as int].addr_word()),
            rx_wrap_bit(final(self).descs()[slot as int].addr_word()) == rx_wrap_bit(
                old(self).descs()[slot as int].addr_word(),
            ),
            rx_addr_field(final(self).descs()[slot as int].addr_word()) == rx_addr_field(
                old(self).descs()[slot as int].addr_word(),
            ),
            forall|i: int|
                0 <= i < old(self).num_slots() && i != slot ==> final(self).descs()[i] == old(
                    self,
                ).descs()[i],
            final(self).bufs()[slot as int]@ == frame@.subrange(0, k as int) + old(self).bufs()[
                slot as int
            ]@.subrange(k as int, old(self).spec_mtu()),
            forall|i: int|
                0 <= i < old(self).num_slots() && i != slot ==> final(self).bufs()[i] == old(
                    self,
                ).bufs()[i],
    {
        self.buffer.fill(slot, frame, k);
        self.entries[slot].hw_mark_available();
    }
}

} // verus!
