//! Extended page tables: the Intel-format second-level translation backend.
//!
//! EPT entries carry read/write/execute permission in bits 0-2 and a memory
//! type in bits 3-5; an entry is present when any permission bit is set.
//! The walk itself is the generic engine in `translation`.

use vstd::prelude::*;
use crate::HypervisorError;
use crate::memory::{FrameAllocator, PHYS_LIMIT};
use crate::translation::{
    entry_present, leaf_entry_spec, leaf_result, root_node_count, same_slot, NestedPageTable,
    TableFormat, ENTRY_ADDR_MASK, GPA_LIMIT,
};

verus! {

/// EPT memory types.
#[derive(Debug, Clone, Copy, PartialEq, Eq, Structural)]
pub enum EptMemoryType {
    /// Uncacheable.
    Uncacheable,
    /// Write combining.
    WriteCombining,
    /// Write through.
    WriteThrough,
    /// Write protected.
    WriteProtected,
    /// Write back (most common).
    WriteBack,
}

impl EptMemoryType {
    /// The encoding of this memory type in an EPT entry.
    pub open spec fn spec_value(self) -> u64 {
        match self {
            EptMemoryType::Uncacheable => 0,
            EptMemoryType::WriteCombining => 1,
            EptMemoryType::WriteThrough => 4,
            EptMemoryType::WriteProtected => 5,
            EptMemoryType::WriteBack => 6,
        }
    }

    /// The memory type a raw encoding denotes; unassigned encodings fall
    /// back to write back, the most common type.
    pub open spec fn spec_from_value(v: u64) -> Self {
        if v == 0 {
            EptMemoryType::Uncacheable
        } else if v == 1 {
            EptMemoryType::WriteCombining
        } else if v == 4 {
            EptMemoryType::WriteThrough
        } else if v == 5 {
            EptMemoryType::WriteProtected
        } else {
            EptMemoryType::WriteBack
        }
    }

    /// The encoding of this memory type in an EPT entry.
    pub fn value(self) -> (r: u64)
        ensures
            r == self.spec_value(),
            r <= 6,
    {
        match self {
            EptMemoryType::Uncacheable => 0,
            EptMemoryType::WriteCombining => 1,
            EptMemoryType::WriteThrough => 4,
            EptMemoryType::WriteProtected => 5,
            EptMemoryType::WriteBack => 6,
        }
    }

    /// Decode a raw encoding.
    pub fn from_value(v: u64) -> (r: Self)
        ensures
            r == Self::spec_from_value(v),
    {
        if v == 0 {
            EptMemoryType::Uncacheable
        } else if v == 1 {
            EptMemoryType::WriteCombining
        } else if v == 4 {
            EptMemoryType::WriteThrough
        } else if v == 5 {
            EptMemoryType::WriteProtected
        } else {
            EptMemoryType::WriteBack
        }
    }
}

/// EPT leaf permission and memory-type flags.
#[derive(Debug, Clone, Copy, PartialEq, Eq, Structural)]
pub struct EptFlags {
    /// Read permission.
    pub read: bool,
    /// Write permission.
    pub write: bool,
    /// Execute permission.
    pub execute: bool,
    /// Memory type.
    pub memory_type: EptMemoryType,
    /// Ignore the guest's page attribute table.
    pub ignore_pat: bool,
}

impl EptFlags {
    /// Create new EPT flags with the given permissions, write-back memory
    /// type and the page attribute table honoured.
    pub fn new(read: bool, write: bool, execute: bool) -> (r: Self)
        ensures
            r.read == read,
            r.write == write,
            r.execute == execute,
            r.memory_type == EptMemoryType::WriteBack,
            !r.ignore_pat,
    {
        EptFlags {
            read,
            write,
            execute,
            memory_type: EptMemoryType::WriteBack,
            ignore_pat: false,
        }
    }

    /// Read-write-execute flags (common for guest RAM).
    pub fn read_write_execute() -> (r: Self)
        ensures
            r.read && r.write && r.execute,
            r.memory_type == EptMemoryType::WriteBack,
            !r.ignore_pat,
    {
        Self::new(true, true, true)
    }

    /// Read-execute flags (common for guest code).
    pub fn read_execute() -> (r: Self)
        ensures
            r.read && !r.write && r.execute,
            r.memory_type == EptMemoryType::WriteBack,
            !r.ignore_pat,
    {
        Self::new(true, false, true)
    }

    /// Read-write flags (common for guest data).
    pub fn read_write() -> (r: Self)
        ensures
            r.read && r.write && !r.execute,
            r.memory_type == EptMemoryType::WriteBack,
            !r.ignore_pat,
    {
        Self::new(true, true, false)
    }

    /// Replace the memory type.
    pub fn with_memory_type(self, memory_type: EptMemoryType) -> (r: Self)
        ensures
            r.read == self.read,
            r.write == self.write,
            r.execute == self.execute,
            r.memory_type == memory_type,
            r.ignore_pat == self.ignore_pat,
    {
        EptFlags { memory_type, ..self }
    }

    /// Convert to raw EPT entry bits: permissions in bits 0-2, memory type
    /// in bits 3-5, ignore-PAT in bit 6.
    pub fn to_ept_entry(&self) -> (r: u64)
        ensures
            (r & 1 != 0) == self.read,
            (r & 2 != 0) == self.write,
            (r & 4 != 0) == self.execute,
            (r >> 3) & 7 == self.memory_type.spec_value(),
            (r & 0x40 != 0) == self.ignore_pat,
            r & ENTRY_ADDR_MASK == 0,
            r < 0x80,
            r == flags_bits(*self),
            entry_present(TableFormat::Ept, r) == (self.read || self.write || self.execute),
    {
        let rb: u64 = if self.read {
            1
        } else {
            0
        };
        let wb: u64 = if self.write {
            1
        } else {
            0
        };
        let xb: u64 = if self.execute {
            1
        } else {
            0
        };
        let ib: u64 = if self.ignore_pat {
            1
        } else {
            0
        };
        let mt: u64 = self.memory_type.value();
        let entry: u64 = rb | (wb << 1) | (xb << 2) | (mt << 3) | (ib << 6);
        proof {
            assert((entry & 1 != 0) == (rb == 1) && (entry & 2 != 0) == (wb == 1) && (entry & 4
                != 0) == (xb == 1) && ((entry >> 3) & 7 == mt) && (entry & 0x40 != 0) == (ib == 1)
                && entry & 0x000F_FFFF_FFFF_F000u64 == 0 && entry < 0x80 && (entry & 7 != 0)
                == (rb == 1 || wb == 1 || xb == 1)) by (bit_vector)
                requires
                    rb <= 1 && wb <= 1 && xb <= 1 && ib <= 1 && mt <= 6,
                    entry == rb | (wb << 1) | (xb << 2) | (mt << 3) | (ib << 6),
            ;
        }
        entry
    }

    /// Parse raw EPT entry bits.
    pub fn from_ept_entry(entry: u64) -> (r: Self)
        ensures
            r.read == (entry & 1 != 0),
            r.write == (entry & 2 != 0),
            r.execute == (entry & 4 != 0),
            r.memory_type == EptMemoryType::spec_from_value((entry >> 3) & 7),
            r.ignore_pat == (entry & 0x40 != 0),
    {
        EptFlags {
            read: entry & 1 != 0,
            write: entry & 2 != 0,
            execute: entry & 4 != 0,
            memory_type: EptMemoryType::from_value((entry >> 3) & 7),
            ignore_pat: entry & 0x40 != 0,
        }
    }
}

/// The raw entry bits `EptFlags::to_ept_entry` produces.
pub open spec fn flags_bits(f: EptFlags) -> u64 {
    (if f.read { 1u64 } else { 0u64 }) | ((if f.write { 1u64 } else { 0u64 }) << 1) | ((
    if f.execute { 1u64 } else { 0u64 }) << 2) | (f.memory_type.spec_value() << 3) | ((
    if f.ignore_pat { 1u64 } else { 0u64 }) << 6)
}

/// One raw EPT entry.
#[derive(Debug, Clone, Copy, PartialEq, Eq, Structural)]
pub struct EptEntry {
    /// The raw entry bits.
    pub bits: u64,
}

impl EptEntry {
    /// Create an empty (not present) entry.
    pub fn new() -> (r: Self)
        ensures
            r.bits == 0,
    {
        EptEntry { bits: 0 }
    }

    /// Whether the entry is present (any permission bit set).
    pub fn is_present(&self) -> (r: bool)
        ensures
            r == entry_present(TableFormat::Ept, self.bits),
    {
        self.bits & 7 != 0
    }

    /// The physical address the entry points at (bits 12-51).
    pub fn address(&self) -> (r: u64)
        ensures
            r == self.bits & ENTRY_ADDR_MASK,
    {
        self.bits & ENTRY_ADDR_MASK
    }

    /// Point the entry at `addr` with the given flags, keeping bits 52-63.
    pub fn set_address(&mut self, addr: u64, flags: EptFlags)
        ensures
            final(self).bits & ENTRY_ADDR_MASK == addr & ENTRY_ADDR_MASK,
            (final(self).bits & 1 != 0) == flags.read,
            (final(self).bits & 2 != 0) == flags.write,
            (final(self).bits & 4 != 0) == flags.execute,
            final(self).bits & 0xFFF0_0000_0000_0000u64 == old(self).bits
                & 0xFFF0_0000_0000_0000u64,
    {
        let kept: u64 = self.bits & !0x000F_FFFF_FFFF_FFFFu64;
        let perms: u64 = flags.to_ept_entry();
        let bits: u64 = kept | (addr & ENTRY_ADDR_MASK) | perms;
        proof {
            let old_bits = old(self).bits;
            assert(bits & 0x000F_FFFF_FFFF_F000u64 == addr & 0x000F_FFFF_FFFF_F000u64 && (bits
                & 1) == (perms & 1) && (bits & 2) == (perms & 2) && (bits & 4) == (perms & 4)
                && bits & 0xFFF0_0000_0000_0000u64 == old_bits & 0xFFF0_0000_0000_0000u64)
                by (bit_vector)
                requires
                    kept == old_bits & !0x000F_FFFF_FFFF_FFFFu64,
                    perms < 0x80,
                    bits == kept | (addr & 0x000F_FFFF_FFFF_F000u64) | perms,
            ;
            assert((perms & 1 != 0) == flags.read && (perms & 2 != 0) == flags.write && (perms
                & 4 != 0) == flags.execute);
        }
        self.bits = bits;
    }

    /// Whether this entry maps a huge page (bit 7).
    pub fn is_huge_page(&self) -> (r: bool)
        ensures
            r == (self.bits & 0x80 != 0),
    {
        self.bits & 0x80 != 0
    }
}

/// EPT mapper: an Intel-format nested page table.
pub struct EptMapper {
    /// The four-level table, in EPT entry format.
    pub table: NestedPageTable,
}

impl EptMapper {
    /// Structural well-formedness of the table.
    pub open spec fn wf(self) -> bool {
        self.table.wf() && self.table.spec_format() == TableFormat::Ept
    }

    /// The leaf entry the hardware walk reaches for `gpa`.
    pub open spec fn lookup(self, gpa: u64) -> Option<u64> {
        self.table.lookup(gpa)
    }

    /// The host physical address `gpa` translates to.
    pub open spec fn translate_spec(self, gpa: u64) -> Option<u64> {
        match self.table.lookup(gpa) {
            Some(bits) => Some(bits & ENTRY_ADDR_MASK),
            None => None,
        }
    }

    /// The EPT pointer: root address, four-level walk, write-back walks.
    pub open spec fn spec_ept_pointer(self) -> u64 {
        (self.table.spec_root_addr() & ENTRY_ADDR_MASK) | 0x1E
    }

    /// Create a new mapper with a zeroed root table.
    pub fn new(alloc: &mut FrameAllocator) -> (r: crate::Result<Self>)
        requires
            old(alloc).wf(),
        ensures
            final(alloc).wf(),
            old(alloc).spec_remaining() == 0 ==> r == crate::Result::<Self>::Err(
                HypervisorError::OutOfMemory,
            ),
            old(alloc).spec_remaining() > 0 ==> {
                &&& r is Ok
                &&& r matches Ok(m) && m.wf() && (forall|g: u64| #[trigger] m.lookup(g) is None)
                    && (forall|g: u64| #[trigger] m.table.missing_tables(g) == 3)
                &&& final(alloc).spec_remaining() == old(alloc).spec_remaining() - 1
            },
    {
        let table = match NestedPageTable::new(TableFormat::Ept, alloc) {
            Ok(t) => t,
            Err(e) => {
                return Err(e);
            },
        };
        Ok(EptMapper { table })
    }

    /// The EPT pointer value to bind this table into a VMCS: bits 0-2 hold
    /// the walk memory type (write back), bits 4-5 the walk length minus
    /// one, bits 12-51 the root table address.
    pub fn ept_pointer(&self) -> (r: u64)
        ensures
            r == self.spec_ept_pointer(),
    {
        let memory_type: u64 = 6;
        let page_walk_length: u64 = 3;
        let addr_bits: u64 = self.table.root_addr() & ENTRY_ADDR_MASK;
        let r: u64 = addr_bits | (page_walk_length << 3) | memory_type;
        proof {
            assert(addr_bits | (3u64 << 3) | 6u64 == addr_bits | 0x1Eu64) by (bit_vector);
        }
        r
    }

    /// Map `gpa` to `hpa` with the given leaf flags.
    ///
    /// Succeeds exactly when the allocator can supply the nodes the walk
    /// still misses (at most three). An existing mapping at `gpa` is
    /// overwritten without reclaiming the old host frame: the caller must
    /// unmap first if it needs the frame back.
    pub fn map(&mut self, gpa: u64, hpa: u64, flags: EptFlags, alloc: &mut FrameAllocator) -> (r:
        crate::Result<()>)
        requires
            old(self).wf(),
            old(alloc).wf(),
            gpa % 4096 == 0,
            gpa < GPA_LIMIT,
            hpa % 4096 == 0,
            hpa < PHYS_LIMIT,
        ensures
            final(self).wf(),
            final(alloc).wf(),
            final(self).table.spec_root_addr() == old(self).table.spec_root_addr(),
            r is Ok <==> old(alloc).spec_remaining() >= old(self).table.missing_tables(gpa),
            r is Err ==> r == crate::Result::<()>::Err(HypervisorError::OutOfMemory),
            final(alloc).spec_remaining() >= old(alloc).spec_remaining() - 3,
            r is Ok ==> final(self).lookup(gpa) == leaf_result(
                TableFormat::Ept,
                leaf_entry_spec(hpa, flags_bits(flags)),
            ),
            r is Ok && (flags.read || flags.write || flags.execute) ==> final(self).translate_spec(gpa) == Some(hpa),
            forall|g: u64| !same_slot(g, gpa) ==> #[trigger] final(self).lookup(g) == old(self).lookup(g),
            r is Err ==> forall|g: u64| #[trigger] final(self).lookup(g) == old(self).lookup(g),
    {
        let bits = flags.to_ept_entry();
        let r = self.table.map(gpa, hpa, bits, alloc);
        proof {
            if r is Ok && (flags.read || flags.write || flags.execute) {
                let entry = leaf_entry_spec(hpa, bits);
                assert(self.lookup(gpa) == leaf_result(TableFormat::Ept, entry));
                assert(entry & 0x000F_FFFF_FFFF_F000u64 == hpa && (entry & 7 != 0) == (bits & 7
                    != 0)) by (bit_vector)
                    requires
                        entry == (hpa & 0x000F_FFFF_FFFF_F000u64) | bits,
                        hpa % 4096 == 0,
                        hpa < 0x0010_0000_0000_0000u64,
                        bits & 0x000F_FFFF_FFFF_F000u64 == 0,
                ;
            }
            assert(old(self).table.missing_tables(gpa) <= 3);
        }
        r
    }

    /// Unmap `gpa`.
    ///
    /// Clears the leaf slot when the walk reaches it; an address that was
    /// never mapped (or is already unmapped) is a successful no-op.
    pub fn unmap(&mut self, gpa: u64) -> (r: crate::Result<()>)
        requires
            old(self).wf(),
            gpa % 4096 == 0,
            gpa < GPA_LIMIT,
        ensures
            final(self).wf(),
            final(self).table.spec_root_addr() == old(self).table.spec_root_addr(),
            r is Ok,
            final(self).translate_spec(gpa) is None,
            forall|g: u64| !same_slot(g, gpa) ==> #[trigger] final(self).lookup(g) == old(self).lookup(g),
            old(self).lookup(gpa) is None ==> forall|g: u64| #[trigger] final(self).lookup(g)
                == old(self).lookup(g),
    {
        self.table.unmap(gpa)
    }

    /// Tear the table down: walk every allocated node and return its
    /// frame to the allocator, the root last.
    pub fn destroy(self, alloc: &mut FrameAllocator) -> (freed: u64)
        requires
            self.wf(),
            old(alloc).wf(),
        ensures
            final(alloc).wf(),
            freed == root_node_count(self.table.root),
    {
        self.table.destroy(alloc)
    }

    /// Read the host physical address `gpa` currently translates to.
    pub fn translate(&self, gpa: u64) -> (r: Option<u64>)
        requires
            self.wf(),
        ensures
            r == self.translate_spec(gpa),
    {
        match self.table.translate_entry(gpa) {
            Some(bits) => Some(bits & ENTRY_ADDR_MASK),
            None => None,
        }
    }
}

} // verus!
