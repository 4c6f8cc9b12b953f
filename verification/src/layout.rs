use vstd::prelude::*;

use crate::rx;
use crate::tx;

verus! {

/// The caller-supplied DMA region: one contiguous block of memory known by a
/// process-local (virtual) address and a hardware-visible (physical) address,
/// plus its byte length. Both addresses reference the same bytes.
#[derive(Clone, Copy)]
pub struct DmaDef {
    pub vaddr: usize,
    pub paddr: usize,
    pub size: usize,
}

/// A paired virtual/physical base address of one sub-region.
#[derive(Clone, Copy)]
pub struct DmaPtr {
    pub vaddr: usize,
    pub paddr: usize,
}

/// The two sub-regions backing one ring: its descriptor table and its packet
/// buffer pool.
#[derive(Clone, Copy)]
pub struct DmaPtrs {
    pub desc: DmaPtr,
    pub buf: DmaPtr,
}

/// The computed layout of the whole DMA region: receive ring, transmit ring,
/// and the single dummy transmit descriptor, back to back in that order.
#[derive(Clone, Copy)]
pub struct GemDmaPtrs {
    pub rx: DmaPtrs,
    pub tx: DmaPtrs,
    pub tx_dummy: DmaPtr,
}

/// Acceptable ring geometry: at least one slot, and buffer sizes that the
/// descriptor format can carry. The buffer size must be word aligned (so that
/// every buffer of an aligned pool is aligned) and fit the 14-bit length
/// field; the slot count is bounded so that every layout size fits 32-bit
/// addressing.
pub open spec fn valid_ring_geometry(n: int, mtu: int) -> bool {
    &&& 1 <= n <= 0x1_0000
    &&& 4 <= mtu <= 0x3FFC
    &&& mtu % 4 == 0
}

/// Whether `num_bufs` slots of `mtu`-byte buffers are an acceptable ring
/// geometry.
pub fn check_ring_geometry(num_bufs: usize, mtu: usize) -> (r: bool)
    ensures
        r == valid_ring_geometry(num_bufs as int, mtu as int),
{
    1 <= num_bufs && num_bufs <= 0x1_0000 && 4 <= mtu && mtu <= 0x3FFC && mtu % 4 == 0
}

/// A multiple of a word-aligned size is word aligned: scaling a size whose
/// low two bits are clear keeps them clear, so descriptor tables and buffer
/// pools laid out at such offsets stay aligned.
pub proof fn lemma_scaled_size_word_aligned(a: int, b: int)
    requires
        b % 4 == 0,
    ensures
        (a * b) % 4 == 0,
{
    let q: int = b / 4;
    vstd::arithmetic::div_mod::lemma_fundamental_div_mod(b, 4);
    assert(b == 4 * q);
    assert(a * b == (a * q) * 4) by (nonlinear_arith)
        requires
            b == 4 * q,
    ;
    vstd::arithmetic::div_mod::lemma_mod_multiples_basic(a * q, 4);
}

/// Byte offset of the receive buffer pool from the region base.
pub open spec fn spec_rx_buf_offset(n: int, mtu: int) -> int {
    rx::DESC_SIZE * n
}

/// Byte offset of the transmit descriptor table from the region base.
pub open spec fn spec_tx_desc_offset(n: int, mtu: int) -> int {
    rx::DESC_SIZE * n + n * mtu
}

/// Byte offset of the transmit buffer pool from the region base.
pub open spec fn spec_tx_buf_offset(n: int, mtu: int) -> int {
    rx::DESC_SIZE * n + n * mtu + tx::DESC_SIZE * n
}

/// Byte offset of the dummy transmit descriptor from the region base.
pub open spec fn spec_tx_dummy_offset(n: int, mtu: int) -> int {
    rx::DESC_SIZE * n + n * mtu + tx::DESC_SIZE * n + n * mtu
}

/// Total number of bytes the layout needs: both descriptor tables, both
/// buffer pools, and one dummy descriptor.
pub open spec fn spec_required_dma_size(n: int, mtu: int) -> int {
    spec_tx_dummy_offset(n, mtu) + tx::DESC_SIZE
}

/// The exact layout the allocator computes for a region and geometry: each
/// sub-region base is the region base plus the fixed offset, on the virtual
/// and the physical side alike.
pub open spec fn spec_dma_layout(dma: DmaDef, n: int, mtu: int, p: GemDmaPtrs) -> bool {
    &&& p.rx.desc.vaddr == dma.vaddr
    &&& p.rx.desc.paddr == dma.paddr
    &&& p.rx.buf.vaddr == dma.vaddr + spec_rx_buf_offset(n, mtu)
    &&& p.rx.buf.paddr == dma.paddr + spec_rx_buf_offset(n, mtu)
    &&& p.tx.desc.vaddr == dma.vaddr + spec_tx_desc_offset(n, mtu)
    &&& p.tx.desc.paddr == dma.paddr + spec_tx_desc_offset(n, mtu)
    &&& p.tx.buf.vaddr == dma.vaddr + spec_tx_buf_offset(n, mtu)
    &&& p.tx.buf.paddr == dma.paddr + spec_tx_buf_offset(n, mtu)
    &&& p.tx_dummy.vaddr == dma.vaddr + spec_tx_dummy_offset(n, mtu)
    &&& p.tx_dummy.paddr == dma.paddr + spec_tx_dummy_offset(n, mtu)
}

/// Carve the DMA region into the five sub-regions of the fixed layout order:
/// receive descriptor table, receive buffers, transmit descriptor table,
/// transmit buffers, dummy transmit descriptor. Returns `None` when the
/// region is smaller than the layout needs — insufficient DMA memory is a
/// fatal configuration error that the caller must not continue past.
pub fn alloc_dma(dma: DmaDef, num_bufs: usize, mtu: usize) -> (r: Option<GemDmaPtrs>)
    requires
        valid_ring_geometry(num_bufs as int, mtu as int),
        dma.vaddr + dma.size <= usize::MAX,
        dma.paddr + dma.size <= usize::MAX,
    ensures
        r is Some <==> dma.size >= spec_required_dma_size(num_bufs as int, mtu as int),
        r matches Some(p) ==> spec_dma_layout(dma, num_bufs as int, mtu as int, p),
{
    proof {
        assert(num_bufs * mtu <= 0x1_0000 * 0x3FFC) by (nonlinear_arith)
            requires
                num_bufs <= 0x1_0000,
                mtu <= 0x3FFC,
                num_bufs >= 1,
                mtu >= 4,
        ;
    }
    let rx_desc_table: usize = rx::DESC_SIZE * num_bufs;
    let tx_desc_table: usize = tx::DESC_SIZE * num_bufs;
    let buf_pool: usize = num_bufs * mtu;
    let required: usize = rx_desc_table + buf_pool + tx_desc_table + buf_pool + tx::DESC_SIZE;
    if dma.size < required {
        return None;
    }
    let rx_buf_off: usize = rx_desc_table;
    let tx_desc_off: usize = rx_desc_table + buf_pool;
    let tx_buf_off: usize = rx_desc_table + buf_pool + tx_desc_table;
    let tx_dummy_off: usize = rx_desc_table + buf_pool + tx_desc_table + buf_pool;
    Some(
        GemDmaPtrs {
            rx: DmaPtrs {
                desc: DmaPtr { vaddr: dma.vaddr, paddr: dma.paddr },
                buf: DmaPtr { vaddr: dma.vaddr + rx_buf_off, paddr: dma.paddr + rx_buf_off },
            },
            tx: DmaPtrs {
                desc: DmaPtr { vaddr: dma.vaddr + tx_desc_off, paddr: dma.paddr + tx_desc_off },
                buf: DmaPtr { vaddr: dma.vaddr + tx_buf_off, paddr: dma.paddr + tx_buf_off },
            },
            tx_dummy: DmaPtr {
                vaddr: dma.vaddr + tx_dummy_off,
                paddr: dma.paddr + tx_dummy_off,
            },
        },
    )
}

} // verus!
