//! The linear (GPU-visible) memory region.
//!
//! Index buffers handed to the GPU are read by DMA and must reside in the
//! platform's linear allocation pool. [`LinearPool`] models that pool as a
//! contiguous address range with a bump allocator over it; its membership
//! test is the residency check the draw dispatcher relies on.

use vstd::prelude::*;

verus! {

/// The linear allocation pool: a contiguous, GPU-addressable address range.
#[derive(Clone, Copy, Debug, PartialEq, Eq, Structural)]
pub struct LinearPool {
    base: usize,
    size: usize,
    next: usize,
}

impl LinearPool {
    /// First address of the region.
    pub closed spec fn spec_base(self) -> usize {
        self.base
    }

    /// Length of the region in bytes.
    pub closed spec fn spec_size(self) -> usize {
        self.size
    }

    /// How many bytes have been handed out so far.
    pub closed spec fn spec_used(self) -> int {
        self.next - self.base
    }

    /// Whether `addr` lies inside the linear region.
    pub open spec fn spec_contains(self, addr: usize) -> bool {
        self.spec_base() <= addr < self.spec_base() + self.spec_size()
    }

    /// The pool's allocation cursor stays inside the region.
    pub closed spec fn wf(self) -> bool {
        &&& self.base <= self.next <= self.base + self.size
        &&& self.base + self.size <= usize::MAX
    }

    /// Model the linear region starting at `base` and spanning `size` bytes,
    /// with nothing allocated yet.
    pub fn new(base: usize, size: usize) -> (r: LinearPool)
        requires
            base + size <= usize::MAX,
        ensures
            r.wf(),
            r.spec_base() == base,
            r.spec_size() == size,
            r.spec_used() == 0,
    {
        LinearPool { base, size, next: base }
    }

    /// Allocate `bytes` bytes from the pool. Returns the address of the
    /// allocation, which lies inside the linear region, or `None` when the
    /// pool is exhausted (allocations of zero bytes are also refused).
    pub fn allocate(&mut self, bytes: usize) -> (r: Option<usize>)
        requires
            old(self).wf(),
        ensures
            final(self).wf(),
            final(self).spec_base() == old(self).spec_base(),
            final(self).spec_size() == old(self).spec_size(),
            r is Some <==> (0 < bytes
                <= old(self).spec_size() - old(self).spec_used()),
            r matches Some(addr) ==> {
                &&& addr == old(self).spec_base() + old(self).spec_used()
                &&& old(self).spec_contains(addr)
                &&& final(self).spec_used() == old(self).spec_used() + bytes
            },
            r is None ==> *final(self) == *old(self),
    {
        if bytes > 0 && bytes <= self.size - (self.next - self.base) {
            let addr: usize = self.next;
            self.next = self.next + bytes;
            Some(addr)
        } else {
            None
        }
    }

    /// The residency membership test: whether `addr` lies in the linear
    /// region.
    pub fn contains(&self, addr: usize) -> (r: bool)
        requires
            self.wf(),
        ensures
            r == self.spec_contains(addr),
    {
        self.base <= addr && addr - self.base < self.size
    }
}

} // verus!
