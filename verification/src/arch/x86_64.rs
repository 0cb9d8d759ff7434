//! x86-64 hypervisor backend: Intel VMX and AMD SVM.

pub mod ept;
pub mod npt;
pub mod svm;
pub mod vmcb;
pub mod vmcs;
pub mod vmx;

use vstd::prelude::*;
use crate::HypervisorError;
use crate::arch::CpuInfo;
use crate::memory::{FrameAllocator, PHYS_LIMIT};
use crate::translation::{same_slot, lemma_same_slot_is_equality, GPA_LIMIT};
use crate::vcpu::{VcpuExit, VcpuRegs};
use crate::vm::{MemoryFlags, MemoryRegion};
use ept::{EptFlags, EptMapper, EptMemoryType};
use npt::{NptFlags, NptMapper};
use vmcb::Vmcb;
use vmcb::VmcbHandle;
use vmcs::{Vmcs, VmcsField, VmcsHandle};

verus! {

/// Snapshot of the host processor state that an execution control block's
/// host-state area is populated from: what the processor restores on VM
/// exit.
#[derive(Debug, Clone, Copy, PartialEq, Eq, Structural)]
pub struct HostState {
    /// Control register 0.
    pub cr0: u64,
    /// Control register 3 (page table base).
    pub cr3: u64,
    /// Control register 4.
    pub cr4: u64,
    /// Extended feature enable register.
    pub efer: u64,
    /// Code segment selector.
    pub cs: u16,
    /// Stack segment selector.
    pub ss: u16,
    /// Data segment selector.
    pub ds: u16,
    /// Extra segment selector.
    pub es: u16,
    /// FS segment selector.
    pub fs: u16,
    /// GS segment selector.
    pub gs: u16,
    /// Task register selector.
    pub tr: u16,
    /// FS base address.
    pub fs_base: u64,
    /// GS base address.
    pub gs_base: u64,
    /// Kernel GS base address.
    pub kernel_gs_base: u64,
    /// Global descriptor table base.
    pub gdtr_base: u64,
    /// Global descriptor table limit.
    pub gdtr_limit: u32,
    /// Interrupt descriptor table base.
    pub idtr_base: u64,
    /// Interrupt descriptor table limit.
    pub idtr_limit: u32,
}


/// Virtualization technology type.
#[derive(Debug, Clone, Copy, PartialEq, Eq, Structural)]
pub enum VirtTech {
    /// Intel virtual machine extensions.
    Vmx,
    /// AMD secure virtual machine.
    Svm,
}

/// Which virtualization technology the processor offers, the Intel one
/// taking precedence when both feature bits are set.
pub open spec fn spec_detect_virt_tech(cpu: CpuInfo) -> crate::Result<VirtTech> {
    if vmx::spec_is_available(cpu) {
        Ok(VirtTech::Vmx)
    } else if svm::spec_is_available(cpu) {
        Ok(VirtTech::Svm)
    } else {
        Err(HypervisorError::NotSupported)
    }
}

/// Detect which virtualization technology is available.
pub fn detect_virt_tech(cpu: &CpuInfo) -> (r: crate::Result<VirtTech>)
    ensures
        r == spec_detect_virt_tech(*cpu),
{
    if vmx::is_available(cpu) {
        return Ok(VirtTech::Vmx);
    }
    if svm::is_available(cpu) {
        return Ok(VirtTech::Svm);
    }
    Err(HypervisorError::NotSupported)
}

/// The capability report for this backend: hardware virtualization with
/// all three modes, no nested virtualization.
pub open spec fn spec_detect_capabilities(cpu: CpuInfo) -> crate::Result<crate::HypervisorCaps> {
    if spec_detect_virt_tech(cpu) is Ok {
        Ok(
            crate::HypervisorCaps {
                hw_virt_available: true,
                arch: crate::HypervisorArch::X86_64,
                max_vms: 64,
                max_vcpus_per_vm: 256,
                nested_virt: false,
                supported_modes: crate::ModeSupportFlags { bits: 7 },
            },
        )
    } else {
        Err(HypervisorError::NotSupported)
    }
}

/// Detect hardware virtualization capabilities.
pub fn detect_capabilities(cpu: &CpuInfo) -> (r: crate::Result<crate::HypervisorCaps>)
    ensures
        r == spec_detect_capabilities(*cpu),
{
    match detect_virt_tech(cpu) {
        Ok(_) => {},
        Err(e) => {
            return Err(e);
        },
    }
    let supported_modes = crate::ModeSupportFlags::all();
    Ok(
        crate::HypervisorCaps {
            hw_virt_available: true,
            arch: crate::HypervisorArch::X86_64,
            max_vms: 64,
            max_vcpus_per_vm: 256,
            nested_virt: false,
            supported_modes,
        },
    )
}

/// What backend initialization returns for a given snapshot and frame
/// budget.
pub open spec fn spec_init_result(cpu: CpuInfo, frames: nat) -> crate::Result<()> {
    if vmx::spec_is_available(cpu) {
        vmx::spec_init_result(cpu, frames)
    } else if svm::spec_is_available(cpu) {
        svm::spec_init_result(cpu, frames)
    } else {
        Err(HypervisorError::NotSupported)
    }
}

/// Initialize the x86-64 hypervisor backend for whichever technology the
/// processor offers.
pub fn init(cpu: &CpuInfo, alloc: &mut FrameAllocator) -> (r: crate::Result<()>)
    requires
        old(alloc).wf(),
    ensures
        final(alloc).wf(),
        r == spec_init_result(*cpu, old(alloc).spec_remaining()),
{
    let tech = match detect_virt_tech(cpu) {
        Ok(t) => t,
        Err(e) => {
            return Err(e);
        },
    };
    match tech {
        VirtTech::Vmx => vmx::init(cpu, alloc),
        VirtTech::Svm => svm::init(cpu, alloc),
    }
}

/// The second-level translation table a VM owns, in the entry format of
/// the active technology.
pub enum VmPageTable {
    /// Intel extended page tables.
    Ept(EptMapper),
    /// AMD nested page tables.
    Npt(NptMapper),
}

/// The EPT leaf flags a memory region's permission flags pack into.
pub open spec fn spec_ept_flags_for(f: MemoryFlags) -> EptFlags {
    EptFlags {
        read: f.spec_bits() & 1 != 0,
        write: f.spec_bits() & 2 != 0,
        execute: f.spec_bits() & 4 != 0,
        memory_type: if f.spec_bits() & 8 != 0 {
            EptMemoryType::Uncacheable
        } else {
            EptMemoryType::WriteBack
        },
        ignore_pat: false,
    }
}

/// Pack a memory region's permission flags into EPT leaf flags: device
/// regions become uncacheable, everything else write back.
pub fn ept_flags_for(f: MemoryFlags) -> (r: EptFlags)
    ensures
        r == spec_ept_flags_for(f),
{
    let memory_type = if f.bits() & 8 != 0 {
        EptMemoryType::Uncacheable
    } else {
        EptMemoryType::WriteBack
    };
    EptFlags::new(f.bits() & 1 != 0, f.bits() & 2 != 0, f.bits() & 4 != 0).with_memory_type(
        memory_type,
    )
}

/// The NPT leaf flags a memory region's permission flags pack into.
pub open spec fn spec_npt_flags_for(f: MemoryFlags) -> NptFlags {
    NptFlags {
        present: f.spec_bits() & 1 != 0,
        writable: f.spec_bits() & 2 != 0,
        user: true,
        no_execute: f.spec_bits() & 4 == 0,
    }
}

/// Pack a memory region's permission flags into NPT leaf flags: guest
/// pages are user pages, and execution is fenced off unless the region is
/// executable.
pub fn npt_flags_for(f: MemoryFlags) -> (r: NptFlags)
    ensures
        r == spec_npt_flags_for(f),
{
    let flags = NptFlags::new(f.bits() & 1 != 0, f.bits() & 2 != 0, true);
    if f.bits() & 4 == 0 {
        flags.no_execute()
    } else {
        flags
    }
}

/// x86-64 specific VM data: the technology in use and the second-level
/// translation table it owns.
pub struct ArchVmData {
    /// Virtualization technology in use.
    pub virt_tech: VirtTech,
    /// The VM's second-level translation table.
    pub table: VmPageTable,
}

impl ArchVmData {
    /// The table matches the technology and is structurally sound.
    pub open spec fn wf(self) -> bool {
        match self.table {
            VmPageTable::Ept(m) => self.virt_tech == VirtTech::Vmx && m.wf(),
            VmPageTable::Npt(m) => self.virt_tech == VirtTech::Svm && m.wf(),
        }
    }

    /// The leaf entry the hardware walk reaches for `gpa`.
    pub open spec fn lookup(self, gpa: u64) -> Option<u64> {
        match self.table {
            VmPageTable::Ept(m) => m.lookup(gpa),
            VmPageTable::Npt(m) => m.lookup(gpa),
        }
    }

    /// The host physical address `gpa` translates to.
    pub open spec fn translate_spec(self, gpa: u64) -> Option<u64> {
        match self.table {
            VmPageTable::Ept(m) => m.translate_spec(gpa),
            VmPageTable::Npt(m) => m.translate_spec(gpa),
        }
    }

    /// How many nodes a map of `gpa` would have to create.
    pub open spec fn missing_tables(self, gpa: u64) -> int {
        match self.table {
            VmPageTable::Ept(m) => m.table.missing_tables(gpa),
            VmPageTable::Npt(m) => m.table.missing_tables(gpa),
        }
    }

    /// Create the VM data for whichever technology the processor offers,
    /// with a fresh translation table root.
    pub fn new(cpu: &CpuInfo, alloc: &mut FrameAllocator) -> (r: crate::Result<Self>)
        requires
            old(alloc).wf(),
        ensures
            final(alloc).wf(),
            spec_detect_virt_tech(*cpu) is Err ==> r == crate::Result::<Self>::Err(
                HypervisorError::NotSupported,
            ) && *final(alloc) == *old(alloc),
            spec_detect_virt_tech(*cpu) is Ok && old(alloc).spec_remaining() == 0 ==> r
                == crate::Result::<Self>::Err(HypervisorError::OutOfMemory),
            spec_detect_virt_tech(*cpu) is Ok && old(alloc).spec_remaining() > 0 ==> {
                &&& r is Ok
                &&& r matches Ok(d) && d.wf() && crate::Result::<VirtTech>::Ok(d.virt_tech)
                    == spec_detect_virt_tech(*cpu)
                    && (forall|g: u64| #[trigger] d.lookup(g) is None)
                    && (forall|g: u64| #[trigger] d.missing_tables(g) == 3)
                &&& final(alloc).spec_remaining() == old(alloc).spec_remaining() - 1
            },
    {
        let tech = match detect_virt_tech(cpu) {
            Ok(t) => t,
            Err(_) => {
                return Err(HypervisorError::NotSupported);
            },
        };
        let table = match tech {
            VirtTech::Vmx => {
                match EptMapper::new(alloc) {
                    Ok(m) => VmPageTable::Ept(m),
                    Err(e) => {
                        return Err(e);
                    },
                }
            },
            VirtTech::Svm => {
                match NptMapper::new(alloc) {
                    Ok(m) => VmPageTable::Npt(m),
                    Err(e) => {
                        return Err(e);
                    },
                }
            },
        };
        Ok(ArchVmData { virt_tech: tech, table })
    }

    /// The control value that binds this table into an execution control
    /// block: the EPT pointer for the Intel format, the raw nested CR3 for
    /// the AMD one.
    pub fn page_table_root(&self) -> (r: u64)
        ensures
            (match self.table {
                VmPageTable::Ept(m) => r == m.spec_ept_pointer(),
                VmPageTable::Npt(m) => r == m.table.spec_root_addr() & 0x000F_FFFF_FFFF_F000u64,
            }),
    {
        match &self.table {
            VmPageTable::Ept(m) => m.ept_pointer(),
            VmPageTable::Npt(m) => m.npt_cr3(),
        }
    }

    /// Map one guest frame to one host frame with a region's permission
    /// flags packed into the active entry format.
    fn map_page(&mut self, gpa: u64, hpa: u64, flags: MemoryFlags, alloc: &mut FrameAllocator)
        -> (r: crate::Result<()>)
        requires
            old(self).wf(),
            old(alloc).wf(),
            gpa % 4096 == 0,
            gpa < GPA_LIMIT,
            hpa % 4096 == 0,
            hpa < PHYS_LIMIT,
        ensures
            final(self).wf(),
            final(alloc).wf(),
            final(self).virt_tech == old(self).virt_tech,
            r is Ok <==> old(alloc).spec_remaining() >= old(self).missing_tables(gpa),
            r is Err ==> r == crate::Result::<()>::Err(HypervisorError::OutOfMemory),
            final(alloc).spec_remaining() >= old(alloc).spec_remaining() - 3,
            r is Ok && flags.spec_bits() & 1 != 0 ==> final(self).translate_spec(gpa) == Some(
                hpa,
            ),
            forall|g: u64| !same_slot(g, gpa) ==> #[trigger] final(self).lookup(g) == old(self).lookup(g),
            r is Err ==> forall|g: u64| #[trigger] final(self).lookup(g) == old(self).lookup(g),
    {
        match &mut self.table {
            VmPageTable::Ept(m) => m.map(gpa, hpa, ept_flags_for(flags), alloc),
            VmPageTable::Npt(m) => m.map(gpa, hpa, npt_flags_for(flags), alloc),
        }
    }

    /// Unmap one guest frame.
    fn unmap_page(&mut self, gpa: u64) -> (r: crate::Result<()>)
        requires
            old(self).wf(),
            gpa % 4096 == 0,
            gpa < GPA_LIMIT,
        ensures
            final(self).wf(),
            final(self).virt_tech == old(self).virt_tech,
            r is Ok,
            final(self).translate_spec(gpa) is None,
            forall|g: u64| !same_slot(g, gpa) ==> #[trigger] final(self).lookup(g) == old(self).lookup(g),
    {
        match &mut self.table {
            VmPageTable::Ept(m) => m.unmap(gpa),
            VmPageTable::Npt(m) => m.unmap(gpa),
        }
    }

    /// Map a guest physical memory region, page by page.
    ///
    /// Mapping stops at the first page the frame allocator cannot serve;
    /// pages mapped before that stay mapped.
    pub fn map_memory(&mut self, region: &MemoryRegion, alloc: &mut FrameAllocator) -> (r:
        crate::Result<()>)
        requires
            old(self).wf(),
            old(alloc).wf(),
            region.wf(),
        ensures
            final(self).wf(),
            final(alloc).wf(),
            final(self).virt_tech == old(self).virt_tech,
            r is Err ==> r == crate::Result::<()>::Err(HypervisorError::OutOfMemory),
            old(alloc).spec_remaining() >= 3 * region.spec_pages() ==> r is Ok,
            r is Ok && region.flags.spec_bits() & 1 != 0 ==> forall|k: int|
                0 <= k < region.spec_pages() ==> #[trigger] final(self).translate_spec(
                    (region.gpa + k * 4096) as u64,
                ) == Some((region.hpa + k * 4096) as u64),
            forall|g: u64|
                (forall|k: int| 0 <= k < region.spec_pages() ==> !(#[trigger] same_slot(
                    g,
                    (region.gpa + k * 4096) as u64,
                ))) ==> #[trigger] final(self).lookup(g) == old(self).lookup(g),
    {
        let page_count: usize = (region.size + 4095) / 4096;
        let ghost pages = page_count as int;
        let gpa_start = region.gpa;
        let hpa_start = region.hpa;
        let flags = region.flags;
        let mut i: usize = 0;
        while i < page_count
            invariant
                self.wf(),
                alloc.wf(),
                pages == page_count as int,
                pages == region.spec_pages(),
                i <= page_count,
                gpa_start == region.gpa,
                hpa_start == region.hpa,
                flags == region.flags,
                gpa_start % 4096 == 0,
                hpa_start % 4096 == 0,
                gpa_start + pages * 4096 <= GPA_LIMIT,
                hpa_start + pages * 4096 <= PHYS_LIMIT,
                self.virt_tech == old(self).virt_tech,
                alloc.spec_remaining() >= old(alloc).spec_remaining() - 3 * i,
                flags.spec_bits() & 1 != 0 ==> forall|k: int| 0 <= k < i
                    ==> #[trigger] self.translate_spec((gpa_start + k * 4096) as u64) == Some(
                    (hpa_start + k * 4096) as u64,
                ),
                forall|g: u64|
                    (forall|k: int| 0 <= k < i ==> !(#[trigger] same_slot(
                        g,
                        (gpa_start + k * 4096) as u64,
                    ))) ==> #[trigger] self.lookup(g) == old(self).lookup(g),
            decreases page_count - i,
        {
            let ghost ki = i as int;
            proof {
                assert(ki * 4096 < pages * 4096 && (ki + 1) * 4096 <= pages * 4096 && ki * 4096
                    >= 0) by (nonlinear_arith)
                    requires 0 <= ki < pages,
                ;
                assert((gpa_start + ki * 4096) % 4096 == 0 && (hpa_start + ki * 4096) % 4096
                    == 0) by (nonlinear_arith)
                    requires gpa_start % 4096 == 0 && hpa_start % 4096 == 0 && ki >= 0,
                ;
            }
            let gpa: u64 = gpa_start + (i as u64) * 4096;
            let hpa: u64 = hpa_start + (i as u64) * 4096;
            let ghost pre = *self;
            let ghost pre_alloc = *alloc;
            match self.map_page(gpa, hpa, flags, alloc) {
                Ok(()) => {},
                Err(e) => {
                    proof {
                        assert(pre.missing_tables(gpa) <= 3);
                        assert(pre_alloc.spec_remaining() < 3);
                        lemma_budget_short(
                            old(alloc).spec_remaining() as int,
                            pre_alloc.spec_remaining() as int,
                            ki,
                            pages,
                        );
                        assert forall|g: u64|
                            (forall|k: int| 0 <= k < pages ==> !(#[trigger] same_slot(
                                g,
                                (gpa_start + k * 4096) as u64,
                            ))) implies #[trigger] self.lookup(g) == old(self).lookup(g) by {
                            assert(forall|k: int| 0 <= k < ki ==> !(#[trigger] same_slot(
                                g,
                                (gpa_start + k * 4096) as u64,
                            )));
                            assert(pre.lookup(g) == old(self).lookup(g));
                        }
                    }
                    return Err(e);
                },
            }
            proof {
                if flags.spec_bits() & 1 != 0 {
                    assert forall|k: int| 0 <= k < ki + 1 implies #[trigger] self.translate_spec(
                        (gpa_start + k * 4096) as u64,
                    ) == Some((hpa_start + k * 4096) as u64) by {
                        if k < ki {
                            let g = (gpa_start + k * 4096) as u64;
                            assert(k * 4096 < pages * 4096 && k * 4096 >= 0 && (gpa_start + k
                                * 4096) % 4096 == 0) by (nonlinear_arith)
                                requires
                                    0 <= k < pages,
                                    gpa_start % 4096 == 0,
                            ;
                            if same_slot(g, gpa) {
                                lemma_same_slot_is_equality(g, gpa);
                            }
                            assert(pre.translate_spec(g) == Some((hpa_start + k * 4096) as u64));
                            assert(self.lookup(g) == pre.lookup(g));
                        } else {
                            assert(k == ki);
                            assert(k * 4096 == ki * 4096) by (nonlinear_arith)
                                requires k == ki,
                            ;
                            assert((gpa_start + k * 4096) as u64 == gpa);
                            assert((hpa_start + k * 4096) as u64 == hpa);
                        }
                    }
                }
                assert forall|g: u64|
                    (forall|k: int| 0 <= k < ki + 1 ==> !(#[trigger] same_slot(
                        g,
                        (gpa_start + k * 4096) as u64,
                    ))) implies #[trigger] self.lookup(g) == old(self).lookup(g) by {
                    assert(!same_slot(g, (gpa_start + ki * 4096) as u64));
                    assert(pre.lookup(g) == old(self).lookup(g));
                }
            }
            i = i + 1;
        }
        Ok(())
    }

    /// Unmap a guest physical memory region, page by page.
    pub fn unmap_memory(&mut self, region: &MemoryRegion) -> (r: crate::Result<()>)
        requires
            old(self).wf(),
            region.wf(),
        ensures
            final(self).wf(),
            final(self).virt_tech == old(self).virt_tech,
            r is Ok,
            forall|k: int| 0 <= k < region.spec_pages() ==> #[trigger] final(self).translate_spec(
                (region.gpa + k * 4096) as u64,
            ) is None,
            forall|g: u64|
                (forall|k: int| 0 <= k < region.spec_pages() ==> !(#[trigger] same_slot(
                    g,
                    (region.gpa + k * 4096) as u64,
                ))) ==> #[trigger] final(self).lookup(g) == old(self).lookup(g),
    {
        let page_count: usize = (region.size + 4095) / 4096;
        let ghost pages = page_count as int;
        let gpa_start = region.gpa;
        let mut i: usize = 0;
        while i < page_count
            invariant
                self.wf(),
                pages == page_count as int,
                pages == region.spec_pages(),
                i <= page_count,
                gpa_start == region.gpa,
                gpa_start % 4096 == 0,
                gpa_start + pages * 4096 <= GPA_LIMIT,
                self.virt_tech == old(self).virt_tech,
                forall|k: int| 0 <= k < i ==> #[trigger] self.translate_spec(
                    (gpa_start + k * 4096) as u64,
                ) is None,
                forall|g: u64|
                    (forall|k: int| 0 <= k < i ==> !(#[trigger] same_slot(
                        g,
                        (gpa_start + k * 4096) as u64,
                    ))) ==> #[trigger] self.lookup(g) == old(self).lookup(g),
            decreases page_count - i,
        {
            let ghost ki = i as int;
            proof {
                assert(ki * 4096 < pages * 4096 && (ki + 1) * 4096 <= pages * 4096 && ki * 4096
                    >= 0) by (nonlinear_arith)
                    requires 0 <= ki < pages,
                ;
                assert((gpa_start + ki * 4096) % 4096 == 0) by (nonlinear_arith)
                    requires gpa_start % 4096 == 0 && ki >= 0,
                ;
            }
            let gpa: u64 = gpa_start + (i as u64) * 4096;
            let ghost pre = *self;
            let _ = self.unmap_page(gpa);
            proof {
                assert forall|k: int| 0 <= k < ki + 1 implies #[trigger] self.translate_spec(
                    (gpa_start + k * 4096) as u64,
                ) is None by {
                    if k < ki {
                        let g = (gpa_start + k * 4096) as u64;
                        assert(k * 4096 < pages * 4096 && k * 4096 >= 0 && (gpa_start + k * 4096)
                            % 4096 == 0) by (nonlinear_arith)
                            requires
                                0 <= k < pages,
                                gpa_start % 4096 == 0,
                        ;
                        if same_slot(g, gpa) {
                            lemma_same_slot_is_equality(g, gpa);
                        }
                        assert(pre.translate_spec(g) is None);
                        assert(self.lookup(g) == pre.lookup(g));
                    } else {
                        assert(k == ki);
                        assert(k * 4096 == ki * 4096) by (nonlinear_arith)
                            requires k == ki,
                        ;
                        assert((gpa_start + k * 4096) as u64 == gpa);
                    }
                }
                assert forall|g: u64|
                    (forall|k: int| 0 <= k < ki + 1 ==> !(#[trigger] same_slot(
                        g,
                        (gpa_start + k * 4096) as u64,
                    ))) implies #[trigger] self.lookup(g) == old(self).lookup(g) by {
                    assert(!same_slot(g, (gpa_start + ki * 4096) as u64));
                    assert(pre.lookup(g) == old(self).lookup(g));
                }
            }
            i = i + 1;
        }
        Ok(())
    }
}

proof fn lemma_budget_short(rem0: int, rem_i: int, i: int, pages: int)
    requires
        rem_i < 3,
        rem_i >= rem0 - 3 * i,
        0 <= i < pages,
    ensures
        rem0 < 3 * pages,
{
    assert(3 * i + 3 <= 3 * pages) by (nonlinear_arith)
        requires i < pages,
    ;
}

/// The exit reason an AMD-format exit code denotes: external interrupt,
/// the exception range (vector offset into it), halt, shutdown, and the
/// guest call instruction with its call number taken from the saved
/// accumulator. Codes this layer does not classify stay unknown.
pub open spec fn spec_decode_svm_exit(code: u64, rax: u64) -> VcpuExit {
    if code == 0x60 {
        VcpuExit::ExternalInterrupt
    } else if 0x40 <= code && code < 0x60 {
        VcpuExit::Exception((code - 0x40) as u32)
    } else if code == 0x78 {
        VcpuExit::Halt
    } else if code == 0x7F {
        VcpuExit::Shutdown
    } else if code == 0x81 {
        VcpuExit::Hypercall { nr: rax }
    } else {
        VcpuExit::Unknown
    }
}

/// Decode an AMD-format exit code.
pub fn decode_svm_exit(code: u64, rax: u64) -> (r: VcpuExit)
    ensures
        r == spec_decode_svm_exit(code, rax),
{
    if code == 0x60 {
        VcpuExit::ExternalInterrupt
    } else if 0x40 <= code && code < 0x60 {
        VcpuExit::Exception((code - 0x40) as u32)
    } else if code == 0x78 {
        VcpuExit::Halt
    } else if code == 0x7F {
        VcpuExit::Shutdown
    } else if code == 0x81 {
        VcpuExit::Hypercall { nr: rax }
    } else {
        VcpuExit::Unknown
    }
}

/// The exit reason an Intel-format basic exit reason denotes: external
/// interrupt, triple fault (reported as shutdown), the halt instruction,
/// and the guest call instruction with its call number taken from the
/// saved accumulator register. Reasons this layer does not classify stay
/// unknown.
pub open spec fn spec_decode_vmx_exit(reason: u64, rax: u64) -> VcpuExit {
    if reason == 1 {
        VcpuExit::ExternalInterrupt
    } else if reason == 2 {
        VcpuExit::Shutdown
    } else if reason == 12 {
        VcpuExit::Halt
    } else if reason == 18 {
        VcpuExit::Hypercall { nr: rax }
    } else {
        VcpuExit::Unknown
    }
}

/// Decode an Intel-format basic exit reason.
pub fn decode_vmx_exit(reason: u64, rax: u64) -> (r: VcpuExit)
    ensures
        r == spec_decode_vmx_exit(reason, rax),
{
    if reason == 1 {
        VcpuExit::ExternalInterrupt
    } else if reason == 2 {
        VcpuExit::Shutdown
    } else if reason == 12 {
        VcpuExit::Halt
    } else if reason == 18 {
        VcpuExit::Hypercall { nr: rax }
    } else {
        VcpuExit::Unknown
    }
}

/// The value written into an execution control block's event-injection
/// field for an external interrupt: vector in bits 0-7, event type zero
/// (external interrupt) in bits 8-10, valid bit 31.
pub open spec fn spec_event_injection(vector: u32) -> u64 {
    ((vector & 0xFF) as u64) | 0x8000_0000
}

/// The execution control block a VCPU owns, in the format of the active
/// technology.
pub enum Ecb {
    /// Intel virtual machine control structure.
    Vmcs(VmcsHandle),
    /// AMD virtual machine control block.
    Vmcb(VmcbHandle),
}

/// x86-64 specific VCPU data: the technology in use, the execution control
/// block, and the general purpose register snapshot the block does not
/// hold.
pub struct ArchVcpuData {
    vm_id: u64,
    virt_tech: VirtTech,
    ecb: Ecb,
    gpr: [u64; 32],
}

impl ArchVcpuData {
    /// The owning VM's ID.
    pub closed spec fn spec_vm_id(self) -> u64 {
        self.vm_id
    }

    /// The technology in use.
    pub closed spec fn spec_virt_tech(self) -> VirtTech {
        self.virt_tech
    }

    /// The block matches the technology, and an Intel block is loaded as
    /// current so field accesses reach it.
    pub closed spec fn wf(self) -> bool {
        match self.ecb {
            Ecb::Vmcs(h) => self.virt_tech == VirtTech::Vmx && h.spec_active(),
            Ecb::Vmcb(_) => self.virt_tech == VirtTech::Svm,
        }
    }

    /// The guest instruction pointer recorded in the block.
    pub closed spec fn spec_pc(self) -> u64 {
        match self.ecb {
            Ecb::Vmcs(h) => h.spec_read(VmcsField::GuestRip.spec_encoding()),
            Ecb::Vmcb(h) => h.vmcb.save.rip,
        }
    }

    /// The guest stack pointer recorded in the block.
    pub closed spec fn spec_sp(self) -> u64 {
        match self.ecb {
            Ecb::Vmcs(h) => h.spec_read(VmcsField::GuestRsp.spec_encoding()),
            Ecb::Vmcb(h) => h.vmcb.save.rsp,
        }
    }

    /// The guest flags register recorded in the block.
    pub closed spec fn spec_flags(self) -> u64 {
        match self.ecb {
            Ecb::Vmcs(h) => h.spec_read(VmcsField::GuestRflags.spec_encoding()),
            Ecb::Vmcb(h) => h.vmcb.save.rflags,
        }
    }

    /// The general purpose register snapshot.
    pub closed spec fn spec_gpr(self) -> [u64; 32] {
        self.gpr
    }

    /// The exit reason the block currently records, decoded in the active
    /// format; the call number of a guest call comes from the saved
    /// accumulator (the AMD save area, or the first saved general purpose
    /// register on the Intel side, whose block does not hold it).
    pub closed spec fn spec_exit_reason(self) -> VcpuExit {
        match self.ecb {
            Ecb::Vmcs(h) => spec_decode_vmx_exit(
                h.spec_read(VmcsField::VmExitReason.spec_encoding()),
                self.gpr@[0],
            ),
            Ecb::Vmcb(h) => spec_decode_svm_exit(h.vmcb.control.exitcode, h.vmcb.save.rax),
        }
    }

    /// The exit reason the block would record after `regs` is pushed into
    /// it: the recorded exit fields are untouched by a register push, only
    /// the saved accumulator a guest call's number is read from moves.
    pub closed spec fn spec_exit_after(self, regs: VcpuRegs) -> VcpuExit {
        match self.ecb {
            Ecb::Vmcs(h) => spec_decode_vmx_exit(
                h.spec_read(VmcsField::VmExitReason.spec_encoding()),
                regs.gpr@[0],
            ),
            Ecb::Vmcb(h) => spec_decode_svm_exit(h.vmcb.control.exitcode, h.vmcb.save.rax),
        }
    }

    /// The event-injection word the block currently holds.
    pub closed spec fn spec_pending_interrupt(self) -> u64 {
        match self.ecb {
            Ecb::Vmcs(h) => h.spec_read(VmcsField::VmEntryIntrInfoField.spec_encoding()),
            Ecb::Vmcb(h) => h.vmcb.control.eventinj,
        }
    }

    /// Create the VCPU data for whichever technology the processor offers:
    /// allocate its execution control block and make it current.
    pub fn new(vm_id: u64, cpu: &CpuInfo, alloc: &mut FrameAllocator) -> (r: crate::Result<Self>)
        requires
            old(alloc).wf(),
        ensures
            final(alloc).wf(),
            spec_detect_virt_tech(*cpu) is Err ==> r == crate::Result::<Self>::Err(
                HypervisorError::NotSupported,
            ) && *final(alloc) == *old(alloc),
            spec_detect_virt_tech(*cpu) is Ok && old(alloc).spec_remaining() == 0 ==> r
                == crate::Result::<Self>::Err(HypervisorError::OutOfMemory),
            spec_detect_virt_tech(*cpu) is Ok && old(alloc).spec_remaining() > 0 ==> {
                &&& r is Ok
                &&& r matches Ok(d) && d.wf() && d.spec_vm_id() == vm_id
                    && crate::Result::<VirtTech>::Ok(d.spec_virt_tech())
                    == spec_detect_virt_tech(*cpu)
                &&& final(alloc).spec_remaining() == old(alloc).spec_remaining() - 1
            },
    {
        let tech = match detect_virt_tech(cpu) {
            Ok(t) => t,
            Err(_) => {
                return Err(HypervisorError::NotSupported);
            },
        };
        let ecb = match tech {
            VirtTech::Vmx => {
                let revision = vmx::vmcs_revision_id(cpu);
                let mut h = match Vmcs::new(revision, alloc) {
                    Ok(h) => h,
                    Err(e) => {
                        return Err(e);
                    },
                };
                let _ = h.load();
                Ecb::Vmcs(h)
            },
            VirtTech::Svm => {
                let h = match Vmcb::new(alloc) {
                    Ok(h) => h,
                    Err(e) => {
                        return Err(e);
                    },
                };
                Ecb::Vmcb(h)
            },
        };
        Ok(ArchVcpuData { vm_id, virt_tech: tech, ecb, gpr: [0; 32] })
    }

    /// The physical address of the execution control block.
    pub closed spec fn spec_control_structure(self) -> u64 {
        match self.ecb {
            Ecb::Vmcs(h) => h.spec_phys_addr(),
            Ecb::Vmcb(h) => h.spec_phys_addr(),
        }
    }

    /// Get the physical address of the execution control block.
    pub fn control_structure(&self) -> (r: u64)
        ensures
            r == self.spec_control_structure(),
    {
        match &self.ecb {
            Ecb::Vmcs(h) => h.phys_addr(),
            Ecb::Vmcb(h) => h.phys_addr(),
        }
    }

    /// Read the register snapshot back out of the execution control block.
    pub fn get_regs(&self) -> (r: crate::Result<VcpuRegs>)
        requires
            self.wf(),
        ensures
            r matches Ok(regs) && regs.pc == self.spec_pc() && regs.sp == self.spec_sp()
                && regs.flags == self.spec_flags() && regs.gpr == self.spec_gpr(),
    {
        match &self.ecb {
            Ecb::Vmcs(h) => {
                let pc = match h.read(VmcsField::GuestRip) {
                    Ok(v) => v,
                    Err(e) => {
                        return Err(e);
                    },
                };
                let sp = match h.read(VmcsField::GuestRsp) {
                    Ok(v) => v,
                    Err(e) => {
                        return Err(e);
                    },
                };
                let flags = match h.read(VmcsField::GuestRflags) {
                    Ok(v) => v,
                    Err(e) => {
                        return Err(e);
                    },
                };
                Ok(VcpuRegs { pc, sp, gpr: self.gpr, flags })
            },
            Ecb::Vmcb(h) => {
                let save = h.save();
                Ok(VcpuRegs { pc: save.rip, sp: save.rsp, gpr: self.gpr, flags: save.rflags })
            },
        }
    }

    /// Push a register snapshot into the execution control block.
    pub fn set_regs(&mut self, regs: &VcpuRegs) -> (r: crate::Result<()>)
        requires
            old(self).wf(),
        ensures
            final(self).wf(),
            r is Ok,
            final(self).spec_vm_id() == old(self).spec_vm_id(),
            final(self).spec_virt_tech() == old(self).spec_virt_tech(),
            final(self).spec_pc() == regs.pc,
            final(self).spec_sp() == regs.sp,
            final(self).spec_flags() == regs.flags,
            final(self).spec_gpr() == regs.gpr,
            final(self).spec_exit_reason() == old(self).spec_exit_after(*regs),
            final(self).spec_pending_interrupt() == old(self).spec_pending_interrupt(),
    {
        match &mut self.ecb {
            Ecb::Vmcs(h) => {
                let _ = h.write(VmcsField::GuestRip, regs.pc);
                let _ = h.write(VmcsField::GuestRsp, regs.sp);
                let _ = h.write(VmcsField::GuestRflags, regs.flags);
            },
            Ecb::Vmcb(h) => {
                let save = h.save_mut();
                save.rip = regs.pc;
                save.rsp = regs.sp;
                save.rflags = regs.flags;
            },
        }
        self.gpr = regs.gpr;
        Ok(())
    }

    /// Run the VCPU: enter the guest and return the exit reason the block
    /// records, decoded in the active format.
    ///
    /// The vendor entry instruction belongs to the platform layer, which
    /// leaves the exit information in the block; this layer reads and
    /// decodes what the block holds. A freshly allocated block decodes to
    /// an unknown exit.
    pub fn run(&mut self) -> (r: crate::Result<VcpuExit>)
        requires
            old(self).wf(),
        ensures
            *final(self) == *old(self),
            r == crate::Result::<VcpuExit>::Ok(old(self).spec_exit_reason()),
    {
        let rax = self.gpr[0];
        match &mut self.ecb {
            Ecb::Vmcs(h) => {
                let reason = match h.read(VmcsField::VmExitReason) {
                    Ok(v) => v,
                    Err(e) => {
                        return Err(e);
                    },
                };
                Ok(decode_vmx_exit(reason, rax))
            },
            Ecb::Vmcb(h) => {
                let code = match h.run() {
                    Ok(v) => v,
                    Err(e) => {
                        return Err(e);
                    },
                };
                let save_rax = h.save().rax;
                Ok(decode_svm_exit(code, save_rax))
            },
        }
    }

    /// Record an external interrupt to be injected on the next guest
    /// entry: write the block's event-injection field with the vector and
    /// the valid bit.
    pub fn inject_interrupt(&mut self, vector: u32) -> (r: crate::Result<()>)
        requires
            old(self).wf(),
        ensures
            final(self).wf(),
            r is Ok,
            final(self).spec_vm_id() == old(self).spec_vm_id(),
            final(self).spec_virt_tech() == old(self).spec_virt_tech(),
            final(self).spec_pending_interrupt() == spec_event_injection(vector),
            final(self).spec_pc() == old(self).spec_pc(),
            final(self).spec_sp() == old(self).spec_sp(),
            final(self).spec_flags() == old(self).spec_flags(),
            final(self).spec_gpr() == old(self).spec_gpr(),
            final(self).spec_exit_reason() == old(self).spec_exit_reason(),
    {
        let word: u64 = ((vector & 0xFF) as u64) | 0x8000_0000;
        match &mut self.ecb {
            Ecb::Vmcs(h) => {
                let _ = h.write(VmcsField::VmEntryIntrInfoField, word);
            },
            Ecb::Vmcb(h) => {
                h.vmcb.control.eventinj = word;
            },
        }
        Ok(())
    }
}

} // verus!
