use vstd::prelude::*;
use vstd::slice::slice_subrange;

verus! {

/// Size in bytes of the main substrate buffer shared with the script engine.
pub const SUBSTRATE_SIZE: usize = 4096;

/// Size in bytes of the coherence ledger buffer.
pub const LEDGER_SIZE: usize = 1024;

/// Alignment in bytes that the host gives the shared buffers.
pub const ALIGNMENT: usize = 16;

/// Whether a buffer of `size` bytes can be laid out with `ALIGNMENT`:
/// a non-empty region whose size, rounded up to the alignment, fits in `isize`.
pub open spec fn valid_buffer_size(size: int) -> bool {
    0 < size <= isize::MAX - (ALIGNMENT - 1)
}

/// Address of the first byte of `s`: std's `<[u8]>::as_ptr`, taken as an
/// integer. What the allocator chose is not stated; what is stated is std's
/// invariant of every slice, that its pointer is non-null and its bytes do
/// not wrap around the end of the address space.
#[verifier::external_body]
fn slice_address(s: &[u8]) -> (addr: usize)
    ensures
        addr != 0,
        addr + s@.len() <= usize::MAX + 1,
{
    s.as_ptr() as usize
}

/// How far past `base` the first `ALIGNMENT`-aligned address lies.
pub open spec fn spec_aligned_offset(base: int) -> int {
    (ALIGNMENT as int - base % (ALIGNMENT as int)) % (ALIGNMENT as int)
}

/// How far past the address `base` the first `ALIGNMENT`-aligned address lies.
pub fn aligned_offset(base: usize) -> (o: usize)
    ensures
        o == spec_aligned_offset(base as int),
        o < ALIGNMENT,
        (base + o) % (ALIGNMENT as int) == 0,
{
    let misalign: usize = base % ALIGNMENT;
    if misalign == 0 {
        0
    } else {
        ALIGNMENT - misalign
    }
}

/// A zero-initialised region of `size` bytes that starts at the
/// `ALIGNMENT`-aligned address `ptr`. It lies inside the allocation
/// `storage` of `size + ALIGNMENT - 1` bytes, which starts at the address
/// `base`, at the first aligned position `offset`.
pub struct SubstrateBuffer {
    pub storage: Vec<u8>,
    pub base: usize,
    pub offset: usize,
    pub ptr: usize,
    pub size: usize,
}

impl SubstrateBuffer {
    /// The region is laid out: `size` bytes at an aligned `ptr` inside the
    /// allocation.
    pub open spec fn wf(&self) -> bool {
        &&& self.storage@.len() == self.size + ALIGNMENT - 1
        &&& self.base != 0
        &&& self.offset == spec_aligned_offset(self.base as int)
        &&& self.ptr == self.base + self.offset
        &&& self.ptr % ALIGNMENT == 0
    }

    /// The bytes of the region.
    pub open spec fn bytes(&self) -> Seq<u8> {
        self.storage@.subrange(self.offset as int, self.offset + self.size)
    }

    /// Allocates a region of `size` bytes, all zero, at an address aligned to
    /// `ALIGNMENT`.
    pub fn new(size: usize) -> (buf: Self)
        requires
            valid_buffer_size(size as int),
        ensures
            buf.wf(),
            buf.size == size,
            buf.ptr % ALIGNMENT == 0,
            buf.ptr != 0,
            buf.bytes().len() == size,
            forall|i: int| 0 <= i < size ==> buf.bytes()[i] == 0u8,
    {
        let total: usize = size + (ALIGNMENT - 1);
        let mut storage: Vec<u8> = Vec::with_capacity(total);
        let mut i: usize = 0;
        while i < total
            invariant
                i <= total,
                storage@.len() == i,
                forall|j: int| 0 <= j < i ==> storage@[j] == 0u8,
            decreases total - i,
        {
            storage.push(0u8);
            i = i + 1;
        }
        let base = slice_address(storage.as_slice());
        let offset = aligned_offset(base);
        let ptr: usize = base + offset;
        SubstrateBuffer { storage, base, offset, ptr, size }
    }

    /// The bytes of the region.
    pub fn as_bytes(&self) -> (b: &[u8])
        requires
            self.wf(),
        ensures
            b@ == self.bytes(),
    {
        let len: usize = self.storage.len();
        assert(self.offset + self.size <= len);
        slice_subrange(self.storage.as_slice(), self.offset, self.offset + self.size)
    }
}

/// The pair of host buffers that back the shared memory of the runtime.
pub struct MemorySubstrate {
    pub main: SubstrateBuffer,
    pub ledger: SubstrateBuffer,
}

impl MemorySubstrate {
    /// A zeroed main substrate of `SUBSTRATE_SIZE` bytes and a zeroed ledger
    /// of `LEDGER_SIZE` bytes, both at addresses aligned to `ALIGNMENT`.
    pub fn new() -> (m: Self)
        ensures
            m.main.wf(),
            m.ledger.wf(),
            m.main.size == SUBSTRATE_SIZE,
            m.ledger.size == LEDGER_SIZE,
            m.main.ptr % ALIGNMENT == 0,
            m.ledger.ptr % ALIGNMENT == 0,
            m.main.ptr != 0,
            m.ledger.ptr != 0,
            m.main.bytes().len() == SUBSTRATE_SIZE,
            m.ledger.bytes().len() == LEDGER_SIZE,
            forall|i: int| 0 <= i < SUBSTRATE_SIZE ==> m.main.bytes()[i] == 0u8,
            forall|i: int| 0 <= i < LEDGER_SIZE ==> m.ledger.bytes()[i] == 0u8,
    {
        MemorySubstrate {
            main: SubstrateBuffer::new(SUBSTRATE_SIZE),
            ledger: SubstrateBuffer::new(LEDGER_SIZE),
        }
    }
}

} // verus!
