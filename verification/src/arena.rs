//! Arena allocation for WASM guests: a bump allocator over one owned,
//! growable byte region. Offsets into the region stand for guest pointers,
//! allocations are never freed one by one, and a reset reclaims everything
//! at the end of each top-level call.

use vstd::prelude::*;

verus! {

broadcast use vstd::std_specs::vec::axiom_spec_len;

/// Arena allocator for guest memory: bump allocation with bulk
/// deallocation on reset.
pub struct GuestArena {
    buf: Vec<u8>,
}

impl GuestArena {
    /// The bytes the arena holds, allocation order front to back.
    pub closed spec fn spec_bytes(&self) -> Seq<u8> {
        self.buf@
    }

    /// How many bytes have been allocated since the last reset.
    pub open spec fn spec_allocated(&self) -> int {
        self.spec_bytes().len() as int
    }

    /// Create a new, empty arena.
    pub fn new() -> (r: GuestArena)
        ensures
            r.spec_allocated() == 0,
            r.spec_bytes() == Seq::<u8>::empty(),
    {
        GuestArena { buf: Vec::new() }
    }

    /// Allocate `len` bytes of zeroed storage and return their offset: the
    /// next allocation always starts where the previous one ended.
    pub fn allocate(&mut self, len: usize) -> (ptr: usize)
        requires
            old(self).spec_allocated() + len <= usize::MAX,
        ensures
            ptr == old(self).spec_allocated(),
            final(self).spec_allocated() == old(self).spec_allocated() + len,
            final(self).spec_bytes() == old(self).spec_bytes() + Seq::<u8>::new(
                len as nat,
                |i: int| 0u8,
            ),
    {
        let ptr = self.buf.len();
        let mut fresh: Vec<u8> = vec![0u8; len];
        self.buf.append(&mut fresh);
        ptr
    }

    /// Allocate storage holding a copy of the data, returning its offset.
    pub fn alloc_copy(&mut self, data: &[u8]) -> (ptr: usize)
        requires
            old(self).spec_allocated() + data@.len() <= usize::MAX,
        ensures
            ptr == old(self).spec_allocated(),
            final(self).spec_allocated() == old(self).spec_allocated() + data@.len(),
            final(self).spec_bytes() == old(self).spec_bytes() + data@,
    {
        let ptr = self.buf.len();
        let mut copied = vstd::slice::slice_to_vec(data);
        self.buf.append(&mut copied);
        ptr
    }

    /// Reset the arena, reclaiming every allocation: afterwards no bytes are
    /// allocated and the next allocation starts at offset 0.
    pub fn reset(&mut self)
        ensures
            final(self).spec_allocated() == 0,
            final(self).spec_bytes() == Seq::<u8>::empty(),
    {
        self.buf.clear();
    }

    /// Get the number of bytes allocated since the last reset.
    pub fn allocated_bytes(&self) -> (r: usize)
        ensures
            r == self.spec_allocated(),
    {
        self.buf.len()
    }

    /// Read back an allocated region, given its offset and length.
    pub fn slice_at(&self, ptr: usize, len: usize) -> (r: &[u8])
        requires
            ptr + len <= self.spec_allocated(),
        ensures
            r@ == self.spec_bytes().subrange(ptr as int, ptr + len),
    {
        let total = self.buf.len();
        proof {
            assert(ptr + len <= total);
        }
        vstd::slice::slice_subrange(self.buf.as_slice(), ptr, ptr + len)
    }
}

impl Default for GuestArena {
    /// The default arena is empty.
    fn default() -> (r: GuestArena)
        ensures
            r.spec_allocated() == 0,
            r.spec_bytes() == Seq::<u8>::empty(),
    {
        GuestArena::new()
    }
}

/// Allocate from an arena: the offset handed out is always the arena's fill
/// level, so allocation after a reset starts at offset 0.
pub fn arena_alloc(arena: &mut GuestArena, len: usize) -> (ptr: usize)
    requires
        old(arena).spec_allocated() + len <= usize::MAX,
    ensures
        ptr == old(arena).spec_allocated(),
        final(arena).spec_allocated() == old(arena).spec_allocated() + len,
        final(arena).spec_bytes() == old(arena).spec_bytes() + Seq::<u8>::new(
            len as nat,
            |i: int| 0u8,
        ),
{
    arena.allocate(len)
}

/// Allocate from an arena and copy the data in.
pub fn arena_alloc_copy(arena: &mut GuestArena, data: &[u8]) -> (ptr: usize)
    requires
        old(arena).spec_allocated() + data@.len() <= usize::MAX,
    ensures
        ptr == old(arena).spec_allocated(),
        final(arena).spec_allocated() == old(arena).spec_allocated() + data@.len(),
        final(arena).spec_bytes() == old(arena).spec_bytes() + data@,
{
    arena.alloc_copy(data)
}

/// Reset an arena.
pub fn arena_reset(arena: &mut GuestArena)
    ensures
        final(arena).spec_allocated() == 0,
        final(arena).spec_bytes() == Seq::<u8>::empty(),
{
    arena.reset()
}

} // verus!
