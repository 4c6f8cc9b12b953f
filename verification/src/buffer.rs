use vstd::prelude::*;

verus! {

/// The packet buffer pool of one ring: a fixed number of equally sized
/// buffers, one per descriptor slot, paired 1:1 with the descriptor table at
/// setup time and never reassigned. Slot `i` of the pool is the buffer that
/// descriptor `i` points at.
pub struct DataBuf {
    bufs: Vec<Vec<u8>>,
    mtu: usize,
}

impl DataBuf {
    /// The buffers, slot by slot.
    pub closed spec fn view(&self) -> Seq<Vec<u8>> {
        self.bufs@
    }

    /// The configured size in bytes of each buffer.
    pub closed spec fn spec_mtu(&self) -> int {
        self.mtu as int
    }

    /// Every slot holds exactly one buffer of `mtu` bytes.
    pub open spec fn wf(&self) -> bool {
        forall|i: int| 0 <= i < self@.len() ==> (#[trigger] self@[i])@.len() == self.spec_mtu()
    }

    /// A pool of `num_bufs` zero-filled buffers of `mtu` bytes each.
    pub fn new(num_bufs: usize, mtu: usize) -> (b: DataBuf)
        ensures
            b.wf(),
            b@.len() == num_bufs,
            b.spec_mtu() == mtu,
            forall|i: int, j: int|
                0 <= i < num_bufs && 0 <= j < mtu ==> #[trigger] b@[i]@[j] == 0u8,
    {
        let mut bufs: Vec<Vec<u8>> = Vec::new();
        let mut i: usize = 0;
        while i < num_bufs
            invariant
                i <= num_bufs,
                bufs@.len() == i,
                forall|k: int| 0 <= k < i ==> (#[trigger] bufs@[k])@.len() == mtu,
                forall|k: int, j: int|
                    0 <= k < i && 0 <= j < mtu ==> #[trigger] bufs@[k]@[j] == 0u8,
            decreases num_bufs - i,
        {
            let mut buf: Vec<u8> = Vec::new();
            let mut j: usize = 0;
            while j < mtu
                invariant
                    j <= mtu,
                    buf@.len() == j,
                    forall|l: int| 0 <= l < j ==> buf@[l] == 0u8,
                decreases mtu - j,
            {
                buf.push(0u8);
                j = j + 1;
            }
            bufs.push(buf);
            i = i + 1;
        }
        DataBuf { bufs, mtu }
    }

    /// Borrow the buffer of slot `curr_entry` for reading or filling. The
    /// pool stays well formed as long as the borrower leaves the buffer at
    /// its configured size.
    pub fn get(&mut self, curr_entry: usize) -> (r: &mut Vec<u8>)
        requires
            curr_entry < old(self)@.len(),
        ensures
            *r == old(self)@[curr_entry as int],
            final(self)@ == old(self)@.update(curr_entry as int, *final(r)),
            final(self).spec_mtu() == old(self).spec_mtu(),
    {
        &mut self.bufs[curr_entry]
    }

    /// The configured size in bytes of each buffer.
    pub fn mtu(&self) -> (r: usize)
        ensures
            r == self.spec_mtu(),
    {
        self.mtu
    }

    /// The number of slots in the pool.
    pub fn num_slots(&self) -> (r: usize)
        ensures
            r == self@.len(),
    {
        self.bufs.len()
    }

    /// Copy the first `k` bytes of `data` over the start of slot `i`'s
    /// buffer, leaving the rest of that buffer and every other slot as they
    /// were.
    pub fn fill(&mut self, i: usize, data: &Vec<u8>, k: usize)
        requires
            old(self).wf(),
            i < old(self)@.len(),
            k <= data@.len(),
            k <= old(self).spec_mtu(),
        ensures
            final(self).wf(),
            final(self)@.len() == old(self)@.len(),
            final(self).spec_mtu() == old(self).spec_mtu(),
            final(self)@[i as int]@ == data@.subrange(0, k as int) + old(self)@[i as int]@.subrange(
                k as int,
                old(self).spec_mtu(),
            ),
            forall|j: int| 0 <= j < old(self)@.len() && j != i ==> final(self)@[j] == old(self)@[j],
    {
        let mut nb: Vec<u8> = Vec::new();
        let mut j: usize = 0;
        while j < k
            invariant
                j <= k,
                k <= data@.len(),
                nb@ == data@.subrange(0, j as int),
            decreases k - j,
        {
            nb.push(data[j]);
            proof {
                assert(nb@ =~= data@.subrange(0, j + 1));
            }
            j = j + 1;
        }
        let mtu = self.mtu;
        while j < mtu
            invariant
                self == old(self),
                old(self).wf(),
                i < old(self)@.len(),
                k <= j <= mtu,
                mtu == old(self).spec_mtu(),
                k <= data@.len(),
                nb@ == data@.subrange(0, k as int) + old(self)@[i as int]@.subrange(
                    k as int,
                    j as int,
                ),
            decreases mtu - j,
        {
            let byte: u8 = self.bufs[i][j];
            nb.push(byte);
            proof {
                assert(nb@ =~= data@.subrange(0, k as int) + old(self)@[i as int]@.subrange(
                    k as int,
                    j + 1,
                ));
            }
            j = j + 1;
        }
        self.bufs[i] = nb;
    }

    /// Read the buffer of slot `i` without touching the pool.
    pub fn read(&self, i: usize) -> (r: &Vec<u8>)
        requires
            i < self@.len(),
        ensures
            *r == self@[i as int],
    {
        &self.bufs[i]
    }
}

} // verus!
