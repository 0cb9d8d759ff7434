//! Nested page tables: the AMD-format second-level translation backend.
//!
//! NPT entries use the standard long-mode layout: present bit 0, writable
//! bit 1, user bit 2, and no-execute bit 63. The walk itself is the generic
//! engine in `translation`.

use vstd::prelude::*;
use crate::HypervisorError;
use crate::memory::{FrameAllocator, PHYS_LIMIT};
use crate::translation::{
    entry_present, leaf_entry_spec, leaf_result, lemma_same_slot_is_equality, root_node_count,
    same_slot, NestedPageTable, TableFormat, ENTRY_ADDR_MASK, GPA_LIMIT,
};

verus! {

/// NPT leaf permission flags.
#[derive(Debug, Clone, Copy, PartialEq, Eq, Structural)]
pub struct NptFlags {
    /// Present bit.
    pub present: bool,
    /// Writable bit.
    pub writable: bool,
    /// User/supervisor bit (set for guest pages).
    pub user: bool,
    /// No-execute bit: when set, execution is disabled.
    pub no_execute: bool,
}

impl NptFlags {
    /// Create new NPT flags with execution enabled.
    pub fn new(present: bool, writable: bool, user: bool) -> (r: Self)
        ensures
            r.present == present,
            r.writable == writable,
            r.user == user,
            !r.no_execute,
    {
        NptFlags { present, writable, user, no_execute: false }
    }

    /// Read-write flags (common for guest pages).
    pub fn read_write() -> (r: Self)
        ensures
            r.present && r.writable && r.user && !r.no_execute,
    {
        Self::new(true, true, true)
    }

    /// Read-only flags.
    pub fn read_only() -> (r: Self)
        ensures
            r.present && !r.writable && r.user && !r.no_execute,
    {
        Self::new(true, false, true)
    }

    /// Read-execute flags (write-xor-execute).
    pub fn read_execute() -> (r: Self)
        ensures
            r.present && !r.writable && r.user && !r.no_execute,
    {
        Self::new(true, false, true).with_execute()
    }

    /// Enable execution.
    pub fn with_execute(self) -> (r: Self)
        ensures
            r.present == self.present,
            r.writable == self.writable,
            r.user == self.user,
            !r.no_execute,
    {
        NptFlags { no_execute: false, ..self }
    }

    /// Disable execution.
    pub fn no_execute(self) -> (r: Self)
        ensures
            r.present == self.present,
            r.writable == self.writable,
            r.user == self.user,
            r.no_execute,
    {
        NptFlags { no_execute: true, ..self }
    }

    /// Convert to raw NPT entry bits: present bit 0, writable bit 1, user
    /// bit 2, no-execute bit 63.
    pub fn to_npt_entry(&self) -> (r: u64)
        ensures
            (r & 1 != 0) == self.present,
            (r & 2 != 0) == self.writable,
            (r & 4 != 0) == self.user,
            (r & 0x8000_0000_0000_0000u64 != 0) == self.no_execute,
            r & ENTRY_ADDR_MASK == 0,
            entry_present(TableFormat::Npt, r) == self.present,
            r == flags_bits(*self),
    {
        let pb: u64 = if self.present {
            1
        } else {
            0
        };
        let wb: u64 = if self.writable {
            1
        } else {
            0
        };
        let ub: u64 = if self.user {
            1
        } else {
            0
        };
        let nx: u64 = if self.no_execute {
            1
        } else {
            0
        };
        let entry: u64 = pb | (wb << 1) | (ub << 2) | (nx << 63);
        proof {
            assert((entry & 1 != 0) == (pb == 1) && (entry & 2 != 0) == (wb == 1) && (entry & 4
                != 0) == (ub == 1) && (entry & 0x8000_0000_0000_0000u64 != 0) == (nx == 1)
                && entry & 0x000F_FFFF_FFFF_F000u64 == 0) by (bit_vector)
                requires
                    pb <= 1 && wb <= 1 && ub <= 1 && nx <= 1,
                    entry == pb | (wb << 1) | (ub << 2) | (nx << 63),
            ;
        }
        entry
    }

    /// Parse raw NPT entry bits.
    pub fn from_npt_entry(entry: u64) -> (r: Self)
        ensures
            r.present == (entry & 1 != 0),
            r.writable == (entry & 2 != 0),
            r.user == (entry & 4 != 0),
            r.no_execute == (entry & 0x8000_0000_0000_0000u64 != 0),
    {
        NptFlags {
            present: entry & 1 != 0,
            writable: entry & 2 != 0,
            user: entry & 4 != 0,
            no_execute: entry & 0x8000_0000_0000_0000u64 != 0,
        }
    }
}

/// One raw NPT entry.
#[derive(Debug, Clone, Copy, PartialEq, Eq, Structural)]
pub struct NptEntry {
    /// The raw entry bits.
    pub bits: u64,
}

impl NptEntry {
    /// Create an empty (not present) entry.
    pub fn new() -> (r: Self)
        ensures
            r.bits == 0,
    {
        NptEntry { bits: 0 }
    }

    /// Whether the entry is present (bit 0).
    pub fn is_present(&self) -> (r: bool)
        ensures
            r == entry_present(TableFormat::Npt, self.bits),
    {
        self.bits & 1 != 0
    }

    /// The physical address the entry points at (bits 12-51).
    pub fn address(&self) -> (r: u64)
        ensures
            r == self.bits & ENTRY_ADDR_MASK,
    {
        self.bits & ENTRY_ADDR_MASK
    }

    /// Point the entry at `addr` with the given flags, clearing everything
    /// else.
    pub fn set_address(&mut self, addr: u64, flags: NptFlags)
        ensures
            final(self).bits & ENTRY_ADDR_MASK == addr & ENTRY_ADDR_MASK,
            (final(self).bits & 1 != 0) == flags.present,
            (final(self).bits & 2 != 0) == flags.writable,
            (final(self).bits & 4 != 0) == flags.user,
            (final(self).bits & 0x8000_0000_0000_0000u64 != 0) == flags.no_execute,
    {
        let perms: u64 = flags.to_npt_entry();
        let bits: u64 = (addr & ENTRY_ADDR_MASK) | perms;
        proof {
            assert(bits & 0x000F_FFFF_FFFF_F000u64 == addr & 0x000F_FFFF_FFFF_F000u64 && (bits
                & 1) == (perms & 1) && (bits & 2) == (perms & 2) && (bits & 4) == (perms & 4)
                && (bits & 0x8000_0000_0000_0000u64) == (perms & 0x8000_0000_0000_0000u64))
                by (bit_vector)
                requires
                    perms & 0x000F_FFFF_FFFF_F000u64 == 0,
                    bits == (addr & 0x000F_FFFF_FFFF_F000u64) | perms,
            ;
        }
        self.bits = bits;
    }

    /// Whether this entry maps a huge page (bit 7).
    pub fn is_huge_page(&self) -> (r: bool)
        ensures
            r == (self.bits & 0x80 != 0),
    {
        self.bits & 0x80 != 0
    }
}

/// NPT mapper: an AMD-format nested page table.
pub struct NptMapper {
    /// The four-level table, in NPT entry format.
    pub table: NestedPageTable,
}

impl NptMapper {
    /// Structural well-formedness of the table.
    pub open spec fn wf(self) -> bool {
        self.table.wf() && self.table.spec_format() == TableFormat::Npt
    }

    /// The leaf entry the hardware walk reaches for `gpa`.
    pub open spec fn lookup(self, gpa: u64) -> Option<u64> {
        self.table.lookup(gpa)
    }

    /// The host physical address `gpa` translates to.
    pub open spec fn translate_spec(self, gpa: u64) -> Option<u64> {
        match self.table.lookup(gpa) {
            Some(bits) => Some(bits & ENTRY_ADDR_MASK),
            None => None,
        }
    }

    /// Create a new mapper with a zeroed root table.
    pub fn new(alloc: &mut FrameAllocator) -> (r: crate::Result<Self>)
        requires
            old(alloc).wf(),
        ensures
            final(alloc).wf(),
            old(alloc).spec_remaining() == 0 ==> r == crate::Result::<Self>::Err(
                HypervisorError::OutOfMemory,
            ),
            old(alloc).spec_remaining() > 0 ==> {
                &&& r is Ok
                &&& r matches Ok(m) && m.wf() && (forall|g: u64| #[trigger] m.lookup(g) is None)
                    && (forall|g: u64| #[trigger] m.table.missing_tables(g) == 3)
                &&& final(alloc).spec_remaining() == old(alloc).spec_remaining() - 1
            },
    {
        let table = match NestedPageTable::new(TableFormat::Npt, alloc) {
            Ok(t) => t,
            Err(e) => {
                return Err(e);
            },
        };
        Ok(NptMapper { table })
    }

    /// The nested CR3 value to bind this table into a VMCB: the root table
    /// physical address, with no extra control bits.
    pub fn npt_cr3(&self) -> (r: u64)
        ensures
            r == self.table.spec_root_addr() & ENTRY_ADDR_MASK,
    {
        self.table.root_addr() & ENTRY_ADDR_MASK
    }

    /// Map `gpa` to `hpa` with the given leaf flags.
    ///
    /// Succeeds exactly when the allocator can supply the nodes the walk
    /// still misses (at most three). An existing mapping at `gpa` is
    /// overwritten without reclaiming the old host frame: the caller must
    /// unmap first if it needs the frame back.
    pub fn map(&mut self, gpa: u64, hpa: u64, flags: NptFlags, alloc: &mut FrameAllocator) -> (r:
        crate::Result<()>)
        requires
            old(self).wf(),
            old(alloc).wf(),
            gpa % 4096 == 0,
            gpa < GPA_LIMIT,
            hpa % 4096 == 0,
            hpa < PHYS_LIMIT,
        ensures
            final(self).wf(),
            final(alloc).wf(),
            final(self).table.spec_root_addr() == old(self).table.spec_root_addr(),
            r is Ok <==> old(alloc).spec_remaining() >= old(self).table.missing_tables(gpa),
            r is Err ==> r == crate::Result::<()>::Err(HypervisorError::OutOfMemory),
            final(alloc).spec_remaining() >= old(alloc).spec_remaining() - 3,
            r is Ok && flags.present ==> final(self).translate_spec(gpa) == Some(hpa),
            r is Ok ==> final(self).lookup(gpa) == leaf_result(
                TableFormat::Npt,
                leaf_entry_spec(hpa, flags_bits(flags)),
            ),
            forall|g: u64| !same_slot(g, gpa) ==> #[trigger] final(self).lookup(g) == old(self).lookup(g),
            r is Err ==> forall|g: u64| #[trigger] final(self).lookup(g) == old(self).lookup(g),
    {
        let bits = flags.to_npt_entry();
        let r = self.table.map(gpa, hpa, bits, alloc);
        proof {
            if r is Ok && flags.present {
                let entry = leaf_entry_spec(hpa, bits);
                assert(self.lookup(gpa) == leaf_result(TableFormat::Npt, entry));
                assert(entry & 0x000F_FFFF_FFFF_F000u64 == hpa && (entry & 1 != 0) == (bits & 1
                    != 0)) by (bit_vector)
                    requires
                        entry == (hpa & 0x000F_FFFF_FFFF_F000u64) | bits,
                        hpa % 4096 == 0,
                        hpa < 0x0010_0000_0000_0000u64,
                        bits & 0x000F_FFFF_FFFF_F000u64 == 0,
                ;
            }
            assert(old(self).table.missing_tables(gpa) <= 3);
        }
        r
    }

    /// Unmap `gpa`.
    ///
    /// Clears the leaf slot when the walk reaches it; an address that was
    /// never mapped (or is already unmapped) is a successful no-op.
    pub fn unmap(&mut self, gpa: u64) -> (r: crate::Result<()>)
        requires
            old(self).wf(),
            gpa % 4096 == 0,
            gpa < GPA_LIMIT,
        ensures
            final(self).wf(),
            final(self).table.spec_root_addr() == old(self).table.spec_root_addr(),
            r is Ok,
            final(self).translate_spec(gpa) is None,
            forall|g: u64| !same_slot(g, gpa) ==> #[trigger] final(self).lookup(g) == old(self).lookup(g),
            old(self).lookup(gpa) is None ==> forall|g: u64| #[trigger] final(self).lookup(g)
                == old(self).lookup(g),
    {
        self.table.unmap(gpa)
    }

    /// Tear the table down: walk every allocated node and return its
    /// frame to the allocator, the root last.
    pub fn destroy(self, alloc: &mut FrameAllocator) -> (freed: u64)
        requires
            self.wf(),
            old(alloc).wf(),
        ensures
            final(alloc).wf(),
            freed == root_node_count(self.table.root),
    {
        self.table.destroy(alloc)
    }

    /// Read the host physical address `gpa` currently translates to.
    pub fn translate(&self, gpa: u64) -> (r: Option<u64>)
        requires
            self.wf(),
        ensures
            r == self.translate_spec(gpa),
    {
        match self.table.translate_entry(gpa) {
            Some(bits) => Some(bits & ENTRY_ADDR_MASK),
            None => None,
        }
    }

    /// Map a contiguous range of guest frames to host frames, page by page.
    ///
    /// The range covers `size` bytes rounded up to whole frames. Mapping
    /// stops at the first page the allocator cannot serve; pages mapped
    /// before that stay mapped.
    pub fn map_range(
        &mut self,
        gpa_start: u64,
        hpa_start: u64,
        size: usize,
        flags: NptFlags,
        alloc: &mut FrameAllocator,
    ) -> (r: crate::Result<()>)
        requires
            old(self).wf(),
            old(alloc).wf(),
            gpa_start % 4096 == 0,
            hpa_start % 4096 == 0,
            size + 4095 <= usize::MAX,
            gpa_start + ((size + 4095) / 4096) * 4096 <= GPA_LIMIT,
            hpa_start + ((size + 4095) / 4096) * 4096 <= PHYS_LIMIT,
        ensures
            final(self).wf(),
            final(alloc).wf(),
            final(self).table.spec_root_addr() == old(self).table.spec_root_addr(),
            r is Err ==> r == crate::Result::<()>::Err(HypervisorError::OutOfMemory),
            old(alloc).spec_remaining() >= 3 * ((size + 4095) / 4096) ==> r is Ok,
            r is Ok ==> forall|k: int| 0 <= k < ((size + 4095) / 4096)
                ==> #[trigger] final(self).lookup((gpa_start + k * 4096) as u64) == leaf_result(
                    TableFormat::Npt,
                    leaf_entry_spec((hpa_start + k * 4096) as u64, flags_bits(flags)),
                ),
            r is Ok && flags.present ==> forall|k: int| 0 <= k < ((size + 4095) / 4096)
                ==> #[trigger] final(self).translate_spec((gpa_start + k * 4096) as u64)
                    == Some((hpa_start + k * 4096) as u64),
            forall|g: u64|
                (forall|k: int| 0 <= k < ((size + 4095) / 4096)
                    ==> !(#[trigger] same_slot(g, (gpa_start + k * 4096) as u64)))
                    ==> #[trigger] final(self).lookup(g) == old(self).lookup(g),
    {
        let page_count: usize = (size + 4095) / 4096;
        let ghost pages = page_count as int;
        let mut i: usize = 0;
        proof {
            assert(pages * 4096 >= 0) by (nonlinear_arith)
                requires pages >= 0,
            ;
        }
        while i < page_count
            invariant
                self.wf(),
                alloc.wf(),
                pages == page_count as int,
                pages == ((size + 4095) / 4096) as int,
                i <= page_count,
                gpa_start % 4096 == 0,
                hpa_start % 4096 == 0,
                gpa_start + pages * 4096 <= GPA_LIMIT,
                hpa_start + pages * 4096 <= PHYS_LIMIT,
                self.table.spec_root_addr() == old(self).table.spec_root_addr(),
                alloc.spec_remaining() >= old(alloc).spec_remaining() - 3 * i,
                forall|k: int| 0 <= k < i ==> #[trigger] self.lookup((gpa_start + k * 4096) as u64)
                    == leaf_result(
                    TableFormat::Npt,
                    leaf_entry_spec((hpa_start + k * 4096) as u64, flags_bits(flags)),
                ),
                flags.present ==> forall|k: int| 0 <= k < i
                    ==> #[trigger] self.translate_spec((gpa_start + k * 4096) as u64) == Some(
                    (hpa_start + k * 4096) as u64,
                ),
                forall|g: u64|
                    (forall|k: int| 0 <= k < i ==> !(#[trigger] same_slot(
                        g,
                        (gpa_start + k * 4096) as u64,
                    ))) ==> #[trigger] self.lookup(g) == old(self).lookup(g),
            decreases page_count - i,
        {
            let ghost ki = i as int;
            proof {
                assert(ki * 4096 < pages * 4096 && (ki + 1) * 4096 <= pages * 4096 && ki * 4096
                    >= 0) by (nonlinear_arith)
                    requires 0 <= ki < pages,
                ;
                assert((gpa_start + ki * 4096) % 4096 == 0 && (hpa_start + ki * 4096) % 4096
                    == 0) by (nonlinear_arith)
                    requires gpa_start % 4096 == 0 && hpa_start % 4096 == 0 && ki >= 0,
                ;
            }
            let gpa: u64 = gpa_start + (i as u64) * 4096;
            let hpa: u64 = hpa_start + (i as u64) * 4096;
            let ghost pre = *self;
            let ghost pre_alloc = *alloc;
            match self.map(gpa, hpa, flags, alloc) {
                Ok(()) => {},
                Err(e) => {
                    proof {
                        assert(pre.table.missing_tables(gpa) <= 3);
                        assert(pre_alloc.spec_remaining() < 3);
                        lemma_map_range_err(
                            old(alloc).spec_remaining() as int,
                            pre_alloc.spec_remaining() as int,
                            ki,
                            pages,
                        );
                        assert forall|g: u64|
                            (forall|k: int| 0 <= k < pages ==> !(#[trigger] same_slot(
                                g,
                                (gpa_start + k * 4096) as u64,
                            ))) implies #[trigger] self.lookup(g) == old(self).lookup(g) by {
                            assert(forall|k: int| 0 <= k < ki ==> !(#[trigger] same_slot(
                                g,
                                (gpa_start + k * 4096) as u64,
                            )));
                            assert(pre.lookup(g) == old(self).lookup(g));
                        }
                    }
                    return Err(e);
                },
            }
            proof {
                assert forall|k: int| 0 <= k < ki + 1 implies #[trigger] self.lookup(
                    (gpa_start + k * 4096) as u64,
                ) == leaf_result(
                    TableFormat::Npt,
                    leaf_entry_spec((hpa_start + k * 4096) as u64, flags_bits(flags)),
                ) by {
                    if k < ki {
                        let g = (gpa_start + k * 4096) as u64;
                        assert(k * 4096 < pages * 4096 && k * 4096 >= 0 && (gpa_start + k * 4096)
                            % 4096 == 0 && (hpa_start + k * 4096) % 4096 == 0)
                            by (nonlinear_arith)
                            requires
                                0 <= k < pages,
                                gpa_start % 4096 == 0,
                                hpa_start % 4096 == 0,
                        ;
                        if same_slot(g, gpa) {
                            lemma_same_slot_is_equality(g, gpa);
                        }
                    }
                }
                if flags.present {
                    assert forall|k: int| 0 <= k < ki + 1 implies #[trigger] self.translate_spec(
                        (gpa_start + k * 4096) as u64,
                    ) == Some((hpa_start + k * 4096) as u64) by {
                        if k < ki {
                            let g = (gpa_start + k * 4096) as u64;
                            assert(k * 4096 < pages * 4096 && k * 4096 >= 0 && (gpa_start + k
                                * 4096) % 4096 == 0) by (nonlinear_arith)
                                requires
                                    0 <= k < pages,
                                    gpa_start % 4096 == 0,
                            ;
                            if same_slot(g, gpa) {
                                lemma_same_slot_is_equality(g, gpa);
                            }
                            assert(pre.translate_spec(g) == Some((hpa_start + k * 4096) as u64));
                            assert(self.lookup(g) == pre.lookup(g));
                        } else {
                            assert(k == ki);
                            assert(k * 4096 == ki * 4096) by (nonlinear_arith)
                                requires k == ki,
                            ;
                            assert((gpa_start + k * 4096) as u64 == gpa);
                            assert((hpa_start + k * 4096) as u64 == hpa);
                        }
                    }
                }
                assert forall|g: u64|
                    (forall|k: int| 0 <= k < ki + 1 ==> !(#[trigger] same_slot(
                        g,
                        (gpa_start + k * 4096) as u64,
                    ))) implies #[trigger] self.lookup(g) == old(self).lookup(g) by {
                    assert(!same_slot(g, (gpa_start + ki * 4096) as u64));
                    assert(pre.lookup(g) == old(self).lookup(g));
                }
            }
            i = i + 1;
        }
        Ok(())
    }
}

/// The raw entry bits `NptFlags::to_npt_entry` produces.
pub open spec fn flags_bits(f: NptFlags) -> u64 {
    (if f.present { 1u64 } else { 0u64 }) | ((if f.writable { 1u64 } else { 0u64 }) << 1) | ((
    if f.user { 1u64 } else { 0u64 }) << 2) | ((if f.no_execute { 1u64 } else { 0u64 }) << 63)
}

proof fn lemma_map_range_err(rem0: int, rem_i: int, i: int, pages: int)
    requires
        rem_i < 3,
        rem_i >= rem0 - 3 * i,
        0 <= i < pages,
    ensures
        rem0 < 3 * pages,
{
    assert(3 * i + 3 <= 3 * pages) by (nonlinear_arith)
        requires i < pages,
    ;
}

/// An NPT violation: the faulting address and the decoded fault bits from
/// the VM-exit information word.
#[derive(Debug, Clone, Copy, PartialEq, Eq, Structural)]
pub struct NptViolation {
    /// Guest physical address that caused the fault.
    pub gpa: u64,
    /// Was the access a write?
    pub write: bool,
    /// Was the access an instruction fetch?
    pub fetch: bool,
    /// Was the access from user mode?
    pub user: bool,
    /// Was the page present?
    pub present: bool,
}

impl NptViolation {
    /// Parse an NPT violation from the exit information fields: bit 0
    /// present, bit 1 write, bit 2 user, bit 4 instruction fetch.
    pub fn from_exitinfo(gpa: u64, exitinfo1: u64) -> (r: Self)
        ensures
            r.gpa == gpa,
            r.present == (exitinfo1 & 1 != 0),
            r.write == (exitinfo1 & 2 != 0),
            r.user == (exitinfo1 & 4 != 0),
            r.fetch == (exitinfo1 & 0x10 != 0),
    {
        NptViolation {
            gpa,
            present: exitinfo1 & 1 != 0,
            write: exitinfo1 & 2 != 0,
            user: exitinfo1 & 4 != 0,
            fetch: exitinfo1 & 0x10 != 0,
        }
    }
}

} // verus!
