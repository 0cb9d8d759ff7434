//! Guest memory and the physical frame allocator model.
//!
//! The frame allocator collaborator hands out 4 KiB-aligned physical frames.
//! It is modeled here as a bump allocator over a bounded arena: frames are
//! never reused, and exhaustion is how `OutOfMemory` failures arise.

use vstd::prelude::*;
use crate::HypervisorError;

verus! {

/// Guest physical address.
pub type Gpa = u64;

/// Host physical address.
pub type Hpa = u64;

/// Size of a physical frame in bytes.
pub const PAGE_SIZE: u64 = 4096;

/// One past the largest supported physical address (52-bit physical space).
pub const PHYS_LIMIT: u64 = 0x0010_0000_0000_0000;

/// A 4 KiB physical frame.
#[derive(Debug, Clone, Copy, PartialEq, Eq, Structural)]
pub struct Frame {
    /// Base physical address, 4 KiB aligned.
    pub base: u64,
}

impl Frame {
    /// The frame's base physical address.
    pub open spec fn spec_base(self) -> u64 {
        self.base
    }

    /// The frame's base physical address.
    pub fn base(self) -> (r: u64)
        ensures
            r == self.spec_base(),
    {
        self.base
    }
}

/// Bounded physical frame allocator.
///
/// Allocation is monotonic: each allocated frame base is the previous one
/// plus `PAGE_SIZE`, and deallocated frames are not handed out again.
pub struct FrameAllocator {
    next_base: u64,
    remaining: usize,
}

impl FrameAllocator {
    /// The base address of the next frame to be handed out.
    pub closed spec fn spec_next_base(self) -> u64 {
        self.next_base
    }

    /// How many frames can still be allocated.
    pub closed spec fn spec_remaining(self) -> nat {
        self.remaining as nat
    }

    /// Frames are aligned and the whole arena stays inside the physical
    /// address space.
    pub open spec fn wf(self) -> bool {
        &&& self.spec_next_base() % 4096 == 0
        &&& self.spec_next_base() + self.spec_remaining() * 4096 <= PHYS_LIMIT
    }

    /// A fresh allocator over `capacity` frames starting at `base`.
    pub fn new(base: u64, capacity: usize) -> (r: Self)
        requires
            base % 4096 == 0,
            base + capacity * 4096 <= PHYS_LIMIT,
        ensures
            r.wf(),
            r.spec_next_base() == base,
            r.spec_remaining() == capacity,
    {
        FrameAllocator { next_base: base, remaining: capacity }
    }

    /// Hand out the next frame, or `None` when the arena is exhausted.
    pub fn allocate_frame(&mut self) -> (r: Option<Frame>)
        requires
            old(self).wf(),
        ensures
            final(self).wf(),
            old(self).spec_remaining() == 0 ==> r is None && *final(self) == *old(self),
            old(self).spec_remaining() > 0 ==> {
                &&& r matches Some(f) && f.spec_base() == old(self).spec_next_base()
                &&& final(self).spec_next_base() == old(self).spec_next_base() + 4096
                &&& final(self).spec_remaining() == old(self).spec_remaining() - 1
                &&& old(self).spec_next_base() % 4096 == 0
                &&& old(self).spec_next_base() + 4096 <= PHYS_LIMIT
            },
    {
        if self.remaining == 0 {
            None
        } else {
            let f = Frame { base: self.next_base };
            self.next_base = self.next_base + 4096;
            self.remaining = self.remaining - 1;
            Some(f)
        }
    }

    /// Return a frame to the allocator.
    ///
    /// Frames are not reused in this model, so this is bookkeeping only.
    pub fn deallocate_frame(&mut self, frame: Frame)
        requires
            old(self).wf(),
        ensures
            final(self).wf(),
            *final(self) == *old(self),
    {
        let _ = frame;
    }
}

/// Guest physical memory: one contiguous block of host memory backing a
/// guest's linear address space.
pub struct GuestMemory {
    size: usize,
    base_hpa: Hpa,
}

impl GuestMemory {
    /// The total size in bytes.
    pub closed spec fn spec_size(self) -> usize {
        self.size
    }

    /// The backing block's base host physical address.
    pub closed spec fn spec_base_hpa(self) -> Hpa {
        self.base_hpa
    }

    /// Allocate guest memory of the given size.
    ///
    /// The backing block is obtained from the frame allocator; fails with
    /// `OutOfMemory` when it cannot supply the frames.
    pub fn allocate(size: usize, alloc: &mut FrameAllocator) -> (r: crate::Result<Self>)
        requires
            old(alloc).wf(),
            size + 4095 <= usize::MAX,
        ensures
            final(alloc).wf(),
            ({
                let frames = (size + 4095) / 4096;
                if frames <= old(alloc).spec_remaining() {
                    &&& r is Ok
                    &&& r matches Ok(m) && m.spec_size() == size
                        && m.spec_base_hpa() == old(alloc).spec_next_base()
                        && m.spec_base_hpa() % 4096 == 0
                        && m.spec_base_hpa() + size <= PHYS_LIMIT
                    &&& final(alloc).spec_remaining() == old(alloc).spec_remaining() - frames
                    &&& final(alloc).spec_next_base()
                        == old(alloc).spec_next_base() + frames * 4096
                } else {
                    r == crate::Result::<Self>::Err(HypervisorError::OutOfMemory)
                        && *final(alloc) == *old(alloc)
                }
            }),
    {
        let frames: usize = (size + 4095) / 4096;
        if frames > alloc.remaining {
            return Err(HypervisorError::OutOfMemory);
        }
        let base_hpa = alloc.next_base;
        let ghost next0 = alloc.next_base as int;
        let ghost rem0 = alloc.remaining as int;
        proof {
            assert(frames * 4096 >= size && frames * 4096 <= rem0 * 4096)
                by (nonlinear_arith)
                requires
                    frames == (size + 4095) / 4096,
                    frames <= rem0,
                    size + 4095 <= usize::MAX,
            ;
            assert(next0 + rem0 * 4096 <= PHYS_LIMIT);
        }
        alloc.next_base = alloc.next_base + (frames as u64) * 4096;
        alloc.remaining = alloc.remaining - frames;
        proof {
            assert(next0 + frames * 4096 + (rem0 - frames) * 4096 == next0 + rem0 * 4096)
                by (nonlinear_arith);
            assert((next0 + frames * 4096) % 4096 == 0) by (nonlinear_arith)
                requires next0 % 4096 == 0,
            ;
        }
        Ok(GuestMemory { size, base_hpa })
    }

    /// Get the size of guest memory.
    pub fn size(&self) -> (r: usize)
        ensures
            r == self.spec_size(),
    {
        self.size
    }

    /// Get the base host physical address.
    pub fn base_hpa(&self) -> (r: Hpa)
        ensures
            r == self.spec_base_hpa(),
    {
        self.base_hpa
    }

    /// Translate a guest physical address to a host physical address.
    ///
    /// In-bounds addresses translate linearly from the backing block's base;
    /// out-of-bounds addresses do not translate.
    pub fn translate(&self, gpa: Gpa) -> (r: Option<Hpa>)
        requires
            self.spec_base_hpa() + self.spec_size() <= u64::MAX,
        ensures
            (gpa as int) < self.spec_size()
                ==> r == Some((self.spec_base_hpa() + gpa) as Hpa),
            (gpa as int) >= self.spec_size() ==> r is None,
    {
        if gpa < self.size as u64 {
            Some(self.base_hpa + gpa)
        } else {
            None
        }
    }

    /// Read from guest memory.
    ///
    /// Checks that the address translates; the transfer itself belongs to the
    /// platform layer holding the backing block.
    pub fn read(&self, gpa: Gpa, buf: &mut Vec<u8>) -> (r: crate::Result<()>)
        requires
            self.spec_base_hpa() + self.spec_size() <= u64::MAX,
        ensures
            r is Ok <==> (gpa as int) < self.spec_size(),
            r is Err ==> r == crate::Result::<()>::Err(HypervisorError::InvalidMemoryRegion),
            final(buf)@ == old(buf)@,
    {
        let _hpa = match self.translate(gpa) {
            Some(h) => h,
            None => {
                return Err(HypervisorError::InvalidMemoryRegion);
            },
        };
        Ok(())
    }

    /// Write to guest memory.
    ///
    /// Checks that the address translates; the transfer itself belongs to the
    /// platform layer holding the backing block.
    pub fn write(&self, gpa: Gpa, buf: &Vec<u8>) -> (r: crate::Result<()>)
        requires
            self.spec_base_hpa() + self.spec_size() <= u64::MAX,
        ensures
            r is Ok <==> (gpa as int) < self.spec_size(),
            r is Err ==> r == crate::Result::<()>::Err(HypervisorError::InvalidMemoryRegion),
    {
        let _ = buf;
        let _hpa = match self.translate(gpa) {
            Some(h) => h,
            None => {
                return Err(HypervisorError::InvalidMemoryRegion);
            },
        };
        Ok(())
    }
}

} // verus!
