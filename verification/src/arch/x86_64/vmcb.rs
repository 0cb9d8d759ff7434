//! Virtual machine control block: the AMD-format execution control block.
//!
//! The hardware block is one 4 KiB frame split into a control area
//! (intercepts, exit information, nested paging controls) and a state save
//! area (guest register and segment state). It is a flat in-memory record,
//! modeled here as an owning handle over typed areas so that no caller can
//! alias the frame with an incompatible shape.

use vstd::prelude::*;
use crate::HypervisorError;
use crate::memory::{Frame, FrameAllocator};
use crate::arch::x86_64::HostState;

verus! {

/// VMCB control area: execution controls, intercepts and exit information.
#[derive(Debug, Clone, Copy, PartialEq)]
pub struct VmcbControlArea {
    /// Control register read intercept mask.
    pub cr_read_intercept: u16,
    /// Control register write intercept mask.
    pub cr_write_intercept: u16,
    /// Debug register read intercept mask.
    pub dr_read_intercept: u16,
    /// Debug register write intercept mask.
    pub dr_write_intercept: u16,
    /// Exception intercept bitmap.
    pub exception_intercept: u32,
    /// First miscellaneous intercept word.
    pub intercept_misc1: u32,
    /// Second miscellaneous intercept word.
    pub intercept_misc2: u32,
    /// Third miscellaneous intercept word.
    pub intercept_misc3: u32,
    /// Pause filter threshold.
    pub pause_filter_thresh: u16,
    /// Pause filter count.
    pub pause_filter_count: u16,
    /// I/O permission map base physical address.
    pub iopm_base_pa: u64,
    /// MSR permission map base physical address.
    pub msrpm_base_pa: u64,
    /// Time stamp counter offset.
    pub tsc_offset: u64,
    /// Guest address space identifier.
    pub guest_asid: u32,
    /// TLB control.
    pub tlb_control: u32,
    /// Virtual interrupt control.
    pub vintr: u64,
    /// Interrupt shadow state.
    pub interrupt_shadow: u64,
    /// VM exit code.
    pub exitcode: u64,
    /// First VM exit information word.
    pub exitinfo1: u64,
    /// Second VM exit information word.
    pub exitinfo2: u64,
    /// Exit interrupt information.
    pub exitintinfo: u64,
    /// Nested paging enable.
    pub np_enable: u64,
    /// AVIC APIC base address register.
    pub avic_apic_bar: u64,
    /// Guest physical address of the GHCB.
    pub guest_pa_of_ghcb: u64,
    /// Event injection control.
    pub eventinj: u64,
    /// Nested page table root (nested CR3).
    pub n_cr3: u64,
    /// Last branch record virtualization enable.
    pub lbr_virt_enable: u64,
    /// Clean bits.
    pub vmcb_clean: u64,
    /// Next sequential instruction pointer.
    pub nrip: u64,
    /// How many instruction bytes the decode assist fetched.
    pub num_of_bytes_fetched: u8,
    /// The fetched instruction bytes.
    pub guest_instr_bytes: [u8; 15],
    /// AVIC backing page pointer.
    pub avic_apic_backing_page_ptr: u64,
    /// AVIC logical table pointer.
    pub avic_logical_table_ptr: u64,
    /// AVIC physical table pointer.
    pub avic_physical_table_ptr: u64,
    /// Save state area pointer.
    pub vmcb_save_state_ptr: u64,
}

impl VmcbControlArea {
    /// Every field is zero.
    pub open spec fn is_zeroed(self) -> bool {
        &&& self.cr_read_intercept == 0
        &&& self.cr_write_intercept == 0
        &&& self.dr_read_intercept == 0
        &&& self.dr_write_intercept == 0
        &&& self.exception_intercept == 0
        &&& self.intercept_misc1 == 0
        &&& self.intercept_misc2 == 0
        &&& self.intercept_misc3 == 0
        &&& self.pause_filter_thresh == 0
        &&& self.pause_filter_count == 0
        &&& self.iopm_base_pa == 0
        &&& self.msrpm_base_pa == 0
        &&& self.tsc_offset == 0
        &&& self.guest_asid == 0
        &&& self.tlb_control == 0
        &&& self.vintr == 0
        &&& self.interrupt_shadow == 0
        &&& self.exitcode == 0
        &&& self.exitinfo1 == 0
        &&& self.exitinfo2 == 0
        &&& self.exitintinfo == 0
        &&& self.np_enable == 0
        &&& self.avic_apic_bar == 0
        &&& self.guest_pa_of_ghcb == 0
        &&& self.eventinj == 0
        &&& self.n_cr3 == 0
        &&& self.lbr_virt_enable == 0
        &&& self.vmcb_clean == 0
        &&& self.nrip == 0
        &&& self.num_of_bytes_fetched == 0
        &&& forall|i: int| 0 <= i < 15 ==> self.guest_instr_bytes@[i] == 0
        &&& self.avic_apic_backing_page_ptr == 0
        &&& self.avic_logical_table_ptr == 0
        &&& self.avic_physical_table_ptr == 0
        &&& self.vmcb_save_state_ptr == 0
    }

    /// A zeroed area, as a freshly allocated frame holds.
    pub fn zeroed() -> (r: Self)
        ensures
            r.is_zeroed(),
    {
        VmcbControlArea {
            cr_read_intercept: 0,
            cr_write_intercept: 0,
            dr_read_intercept: 0,
            dr_write_intercept: 0,
            exception_intercept: 0,
            intercept_misc1: 0,
            intercept_misc2: 0,
            intercept_misc3: 0,
            pause_filter_thresh: 0,
            pause_filter_count: 0,
            iopm_base_pa: 0,
            msrpm_base_pa: 0,
            tsc_offset: 0,
            guest_asid: 0,
            tlb_control: 0,
            vintr: 0,
            interrupt_shadow: 0,
            exitcode: 0,
            exitinfo1: 0,
            exitinfo2: 0,
            exitintinfo: 0,
            np_enable: 0,
            avic_apic_bar: 0,
            guest_pa_of_ghcb: 0,
            eventinj: 0,
            n_cr3: 0,
            lbr_virt_enable: 0,
            vmcb_clean: 0,
            nrip: 0,
            num_of_bytes_fetched: 0,
            guest_instr_bytes: [0; 15],
            avic_apic_backing_page_ptr: 0,
            avic_logical_table_ptr: 0,
            avic_physical_table_ptr: 0,
            vmcb_save_state_ptr: 0,
        }
    }
}

/// VMCB state save area: guest register, segment and descriptor state.
#[derive(Debug, Clone, Copy, PartialEq, Eq, Structural)]
pub struct VmcbStateSaveArea {
    /// ES selector.
    pub es_selector: u16,
    /// ES attributes.
    pub es_attrib: u16,
    /// ES limit.
    pub es_limit: u32,
    /// ES base address.
    pub es_base: u64,
    /// CS selector.
    pub cs_selector: u16,
    /// CS attributes.
    pub cs_attrib: u16,
    /// CS limit.
    pub cs_limit: u32,
    /// CS base address.
    pub cs_base: u64,
    /// SS selector.
    pub ss_selector: u16,
    /// SS attributes.
    pub ss_attrib: u16,
    /// SS limit.
    pub ss_limit: u32,
    /// SS base address.
    pub ss_base: u64,
    /// DS selector.
    pub ds_selector: u16,
    /// DS attributes.
    pub ds_attrib: u16,
    /// DS limit.
    pub ds_limit: u32,
    /// DS base address.
    pub ds_base: u64,
    /// FS selector.
    pub fs_selector: u16,
    /// FS attributes.
    pub fs_attrib: u16,
    /// FS limit.
    pub fs_limit: u32,
    /// FS base address.
    pub fs_base: u64,
    /// GS selector.
    pub gs_selector: u16,
    /// GS attributes.
    pub gs_attrib: u16,
    /// GS limit.
    pub gs_limit: u32,
    /// GS base address.
    pub gs_base: u64,
    /// GDTR selector.
    pub gdtr_selector: u16,
    /// GDTR attributes.
    pub gdtr_attrib: u16,
    /// GDTR limit.
    pub gdtr_limit: u32,
    /// GDTR base address.
    pub gdtr_base: u64,
    /// LDTR selector.
    pub ldtr_selector: u16,
    /// LDTR attributes.
    pub ldtr_attrib: u16,
    /// LDTR limit.
    pub ldtr_limit: u32,
    /// LDTR base address.
    pub ldtr_base: u64,
    /// IDTR selector.
    pub idtr_selector: u16,
    /// IDTR attributes.
    pub idtr_attrib: u16,
    /// IDTR limit.
    pub idtr_limit: u32,
    /// IDTR base address.
    pub idtr_base: u64,
    /// TR selector.
    pub tr_selector: u16,
    /// TR attributes.
    pub tr_attrib: u16,
    /// TR limit.
    pub tr_limit: u32,
    /// TR base address.
    pub tr_base: u64,
    /// Current privilege level.
    pub cpl: u8,
    /// Extended feature enable register.
    pub efer: u64,
    /// Control register 4.
    pub cr4: u64,
    /// Control register 3.
    pub cr3: u64,
    /// Control register 0.
    pub cr0: u64,
    /// Debug register 7.
    pub dr7: u64,
    /// Debug register 6.
    pub dr6: u64,
    /// Flags register.
    pub rflags: u64,
    /// Instruction pointer.
    pub rip: u64,
    /// Stack pointer.
    pub rsp: u64,
    /// Accumulator register.
    pub rax: u64,
    /// Legacy syscall target address.
    pub star: u64,
    /// Long-mode syscall target address.
    pub lstar: u64,
    /// Compatibility-mode syscall target address.
    pub cstar: u64,
    /// Syscall flag mask.
    pub sfmask: u64,
    /// Kernel GS base address.
    pub kernel_gs_base: u64,
    /// Sysenter code segment.
    pub sysenter_cs: u64,
    /// Sysenter stack pointer.
    pub sysenter_esp: u64,
    /// Sysenter instruction pointer.
    pub sysenter_eip: u64,
    /// Control register 2 (fault address).
    pub cr2: u64,
    /// Guest page attribute table.
    pub g_pat: u64,
    /// Debug control register.
    pub dbgctl: u64,
    /// Last branch from address.
    pub br_from: u64,
    /// Last branch to address.
    pub br_to: u64,
    /// Last exception from address.
    pub last_excp_from: u64,
    /// Last exception to address.
    pub last_excp_to: u64,
}

impl VmcbStateSaveArea {
    /// Every field is zero.
    pub open spec fn is_zeroed(self) -> bool {
        &&& self.es_selector == 0
        &&& self.es_attrib == 0
        &&& self.es_limit == 0
        &&& self.es_base == 0
        &&& self.cs_selector == 0
        &&& self.cs_attrib == 0
        &&& self.cs_limit == 0
        &&& self.cs_base == 0
        &&& self.ss_selector == 0
        &&& self.ss_attrib == 0
        &&& self.ss_limit == 0
        &&& self.ss_base == 0
        &&& self.ds_selector == 0
        &&& self.ds_attrib == 0
        &&& self.ds_limit == 0
        &&& self.ds_base == 0
        &&& self.fs_selector == 0
        &&& self.fs_attrib == 0
        &&& self.fs_limit == 0
        &&& self.fs_base == 0
        &&& self.gs_selector == 0
        &&& self.gs_attrib == 0
        &&& self.gs_limit == 0
        &&& self.gs_base == 0
        &&& self.gdtr_selector == 0
        &&& self.gdtr_attrib == 0
        &&& self.gdtr_limit == 0
        &&& self.gdtr_base == 0
        &&& self.ldtr_selector == 0
        &&& self.ldtr_attrib == 0
        &&& self.ldtr_limit == 0
        &&& self.ldtr_base == 0
        &&& self.idtr_selector == 0
        &&& self.idtr_attrib == 0
        &&& self.idtr_limit == 0
        &&& self.idtr_base == 0
        &&& self.tr_selector == 0
        &&& self.tr_attrib == 0
        &&& self.tr_limit == 0
        &&& self.tr_base == 0
        &&& self.cpl == 0
        &&& self.efer == 0
        &&& self.cr4 == 0
        &&& self.cr3 == 0
        &&& self.cr0 == 0
        &&& self.dr7 == 0
        &&& self.dr6 == 0
        &&& self.rflags == 0
        &&& self.rip == 0
        &&& self.rsp == 0
        &&& self.rax == 0
        &&& self.star == 0
        &&& self.lstar == 0
        &&& self.cstar == 0
        &&& self.sfmask == 0
        &&& self.kernel_gs_base == 0
        &&& self.sysenter_cs == 0
        &&& self.sysenter_esp == 0
        &&& self.sysenter_eip == 0
        &&& self.cr2 == 0
        &&& self.g_pat == 0
        &&& self.dbgctl == 0
        &&& self.br_from == 0
        &&& self.br_to == 0
        &&& self.last_excp_from == 0
        &&& self.last_excp_to == 0
    }

    /// A zeroed area, as a freshly allocated frame holds.
    pub fn zeroed() -> (r: Self)
        ensures
            r.is_zeroed(),
    {
        VmcbStateSaveArea {
            es_selector: 0,
            es_attrib: 0,
            es_limit: 0,
            es_base: 0,
            cs_selector: 0,
            cs_attrib: 0,
            cs_limit: 0,
            cs_base: 0,
            ss_selector: 0,
            ss_attrib: 0,
            ss_limit: 0,
            ss_base: 0,
            ds_selector: 0,
            ds_attrib: 0,
            ds_limit: 0,
            ds_base: 0,
            fs_selector: 0,
            fs_attrib: 0,
            fs_limit: 0,
            fs_base: 0,
            gs_selector: 0,
            gs_attrib: 0,
            gs_limit: 0,
            gs_base: 0,
            gdtr_selector: 0,
            gdtr_attrib: 0,
            gdtr_limit: 0,
            gdtr_base: 0,
            ldtr_selector: 0,
            ldtr_attrib: 0,
            ldtr_limit: 0,
            ldtr_base: 0,
            idtr_selector: 0,
            idtr_attrib: 0,
            idtr_limit: 0,
            idtr_base: 0,
            tr_selector: 0,
            tr_attrib: 0,
            tr_limit: 0,
            tr_base: 0,
            cpl: 0,
            efer: 0,
            cr4: 0,
            cr3: 0,
            cr0: 0,
            dr7: 0,
            dr6: 0,
            rflags: 0,
            rip: 0,
            rsp: 0,
            rax: 0,
            star: 0,
            lstar: 0,
            cstar: 0,
            sfmask: 0,
            kernel_gs_base: 0,
            sysenter_cs: 0,
            sysenter_esp: 0,
            sysenter_eip: 0,
            cr2: 0,
            g_pat: 0,
            dbgctl: 0,
            br_from: 0,
            br_to: 0,
            last_excp_from: 0,
            last_excp_to: 0,
        }
    }
}

/// A complete VMCB: control area followed by the state save area.
#[derive(Debug, Clone, Copy, PartialEq)]
pub struct Vmcb {
    /// The control area.
    pub control: VmcbControlArea,
    /// The state save area.
    pub save: VmcbStateSaveArea,
}

impl Vmcb {
    /// Allocate a zeroed VMCB frame.
    pub fn new(alloc: &mut FrameAllocator) -> (r: crate::Result<VmcbHandle>)
        requires
            old(alloc).wf(),
        ensures
            final(alloc).wf(),
            old(alloc).spec_remaining() == 0 ==> r == crate::Result::<VmcbHandle>::Err(
                HypervisorError::OutOfMemory,
            ),
            old(alloc).spec_remaining() > 0 ==> {
                &&& r is Ok
                &&& r matches Ok(h) && h.spec_phys_addr() == old(alloc).spec_next_base()
                    && h.vmcb.control.is_zeroed() && h.vmcb.save.is_zeroed()
                &&& final(alloc).spec_remaining() == old(alloc).spec_remaining() - 1
            },
    {
        let frame = match alloc.allocate_frame() {
            Some(f) => f,
            None => {
                return Err(HypervisorError::OutOfMemory);
            },
        };
        Ok(VmcbHandle {
            phys_addr: frame.base(),
            vmcb: Vmcb { control: VmcbControlArea::zeroed(), save: VmcbStateSaveArea::zeroed() },
        })
    }

    /// The control area.
    pub fn control(&self) -> (r: &VmcbControlArea)
        ensures
            *r == self.control,
    {
        &self.control
    }

    /// The state save area.
    pub fn save(&self) -> (r: &VmcbStateSaveArea)
        ensures
            *r == self.save,
    {
        &self.save
    }

    /// The control area, writable.
    pub fn control_mut(&mut self) -> (r: &mut VmcbControlArea)
        ensures
            *r == old(self).control,
            final(self).control == *final(r),
            final(self).save == old(self).save,
    {
        &mut self.control
    }

    /// The state save area, writable.
    pub fn save_mut(&mut self) -> (r: &mut VmcbStateSaveArea)
        ensures
            *r == old(self).save,
            final(self).save == *final(r),
            final(self).control == old(self).control,
    {
        &mut self.save
    }
}

/// Handle to one VMCB frame.
pub struct VmcbHandle {
    /// The block's physical address.
    pub phys_addr: u64,
    /// The block's contents.
    pub vmcb: Vmcb,
}

impl VmcbHandle {
    /// The block's physical address.
    pub open spec fn spec_phys_addr(self) -> u64 {
        self.phys_addr
    }

    /// Get the block's physical address.
    pub fn phys_addr(&self) -> (r: u64)
        ensures
            r == self.spec_phys_addr(),
    {
        self.phys_addr
    }

    /// The control area.
    pub fn control(&self) -> (r: &VmcbControlArea)
        ensures
            *r == self.vmcb.control,
    {
        &self.vmcb.control
    }

    /// The state save area.
    pub fn save(&self) -> (r: &VmcbStateSaveArea)
        ensures
            *r == self.vmcb.save,
    {
        &self.vmcb.save
    }

    /// The control area, writable.
    pub fn control_mut(&mut self) -> (r: &mut VmcbControlArea)
        ensures
            *r == old(self).vmcb.control,
            final(self).vmcb.control == *final(r),
            final(self).vmcb.save == old(self).vmcb.save,
            final(self).spec_phys_addr() == old(self).spec_phys_addr(),
    {
        &mut self.vmcb.control
    }

    /// The state save area, writable.
    pub fn save_mut(&mut self) -> (r: &mut VmcbStateSaveArea)
        ensures
            *r == old(self).vmcb.save,
            final(self).vmcb.save == *final(r),
            final(self).vmcb.control == old(self).vmcb.control,
            final(self).spec_phys_addr() == old(self).spec_phys_addr(),
    {
        &mut self.vmcb.save
    }

    /// Release the block: return its backing frame to the allocator.
    pub fn free(self, alloc: &mut FrameAllocator)
        requires
            old(alloc).wf(),
        ensures
            final(alloc).wf(),
    {
        alloc.deallocate_frame(Frame { base: self.phys_addr });
    }

    /// Initialize the block: intercept all exceptions and the sensitive
    /// control register accesses, set the guest address space identifier,
    /// enable nested paging and bind its root, flush the TLB on entry, and
    /// snapshot the host's control registers, segments and descriptor
    /// tables into the state save area.
    pub fn initialize(&mut self, guest_asid: u32, n_cr3: u64, host: &HostState) -> (r:
        crate::Result<()>)
        ensures
            r is Ok,
            final(self).spec_phys_addr() == old(self).spec_phys_addr(),
            final(self).vmcb.control.exception_intercept == 0xFFFF_FFFFu32,
            final(self).vmcb.control.cr_read_intercept == 0x0001u16,
            final(self).vmcb.control.cr_write_intercept == 0x0011u16,
            final(self).vmcb.control.guest_asid == guest_asid,
            final(self).vmcb.control.np_enable == 1,
            final(self).vmcb.control.n_cr3 == n_cr3,
            final(self).vmcb.control.tlb_control == 1,
            final(self).vmcb.save.cr0 == host.cr0,
            final(self).vmcb.save.cr3 == host.cr3,
            final(self).vmcb.save.cr4 == host.cr4,
            final(self).vmcb.save.efer == host.efer,
            final(self).vmcb.save.cs_selector == host.cs,
            final(self).vmcb.save.ss_selector == host.ss,
            final(self).vmcb.save.ds_selector == host.ds,
            final(self).vmcb.save.es_selector == host.es,
            final(self).vmcb.save.fs_selector == host.fs,
            final(self).vmcb.save.gs_selector == host.gs,
            final(self).vmcb.save.gdtr_base == host.gdtr_base,
            final(self).vmcb.save.gdtr_limit == host.gdtr_limit,
            final(self).vmcb.save.idtr_base == host.idtr_base,
            final(self).vmcb.save.idtr_limit == host.idtr_limit,
            final(self).vmcb.save.fs_base == host.fs_base,
            final(self).vmcb.save.gs_base == host.gs_base,
            final(self).vmcb.save.kernel_gs_base == host.kernel_gs_base,
            final(self).vmcb.control.exitcode == old(self).vmcb.control.exitcode,
            final(self).vmcb.save.rip == old(self).vmcb.save.rip,
            final(self).vmcb.save.rsp == old(self).vmcb.save.rsp,
            final(self).vmcb.save.rflags == old(self).vmcb.save.rflags,
    {
        let control = self.control_mut();
        control.exception_intercept = 0xFFFF_FFFF;
        control.cr_read_intercept = 0x0001;
        control.cr_write_intercept = 0x0011;
        control.guest_asid = guest_asid;
        control.np_enable = 1;
        control.n_cr3 = n_cr3;
        control.tlb_control = 1;
        let save = self.save_mut();
        save.cr0 = host.cr0;
        save.cr3 = host.cr3;
        save.cr4 = host.cr4;
        save.efer = host.efer;
        save.cs_selector = host.cs;
        save.ss_selector = host.ss;
        save.ds_selector = host.ds;
        save.es_selector = host.es;
        save.fs_selector = host.fs;
        save.gs_selector = host.gs;
        save.gdtr_base = host.gdtr_base;
        save.gdtr_limit = host.gdtr_limit;
        save.idtr_base = host.idtr_base;
        save.idtr_limit = host.idtr_limit;
        save.fs_base = host.fs_base;
        save.gs_base = host.gs_base;
        save.kernel_gs_base = host.kernel_gs_base;
        Ok(())
    }

    /// Guest entry: the vendor run instruction transfers to the guest and
    /// returns on the next VM exit with the exit code recorded in the
    /// control area. The hardware dispatch itself lives in the platform
    /// layer; this layer returns the recorded exit code.
    pub fn run(&mut self) -> (r: crate::Result<u64>)
        ensures
            *final(self) == *old(self),
            r == crate::Result::<u64>::Ok(old(self).vmcb.control.exitcode),
    {
        Ok(self.vmcb.control.exitcode)
    }
}

/// VM exit codes the vendor run instruction reports.
#[derive(Debug, Clone, Copy, PartialEq, Eq, Structural)]
pub enum VmexitCode {
    CrRead,
    CrWrite,
    DrRead,
    DrWrite,
    Exception,
    Intr,
    Nmi,
    Smi,
    Init,
    Vintr,
    Cr0Selective,
    IdtrRead,
    GdtrRead,
    LdtrRead,
    TrRead,
    IdtrWrite,
    GdtrWrite,
    LdtrWrite,
    TrWrite,
    Rdtsc,
    Rdpmc,
    Pushf,
    Popf,
    Cpuid,
    Rsm,
    Iret,
    Int,
    Invd,
    Pause,
    Hlt,
    Invlpg,
    Invlpga,
    Ioio,
    Msr,
    TaskSwitch,
    FerrFreeze,
    Shutdown,
    Vmrun,
    Vmmcall,
    Vmload,
    Vmsave,
    Stgi,
    Clgi,
    Skinit,
    Rdtscp,
    Icebp,
    Wbinvd,
    Monitor,
    Mwait,
    MwaitCond,
    Xsetbv,
    Rdpru,
    Efer,
    Cr0Trap,
    NptFault,
    Invalid,
}

impl VmexitCode {
    /// The numeric exit code.
    pub open spec fn spec_code(self) -> u64 {
        match self {
            VmexitCode::CrRead => 0x00,
            VmexitCode::CrWrite => 0x10,
            VmexitCode::DrRead => 0x20,
            VmexitCode::DrWrite => 0x30,
            VmexitCode::Exception => 0x40,
            VmexitCode::Intr => 0x60,
            VmexitCode::Nmi => 0x61,
            VmexitCode::Smi => 0x62,
            VmexitCode::Init => 0x63,
            VmexitCode::Vintr => 0x64,
            VmexitCode::Cr0Selective => 0x65,
            VmexitCode::IdtrRead => 0x66,
            VmexitCode::GdtrRead => 0x67,
            VmexitCode::LdtrRead => 0x68,
            VmexitCode::TrRead => 0x69,
            VmexitCode::IdtrWrite => 0x6A,
            VmexitCode::GdtrWrite => 0x6B,
            VmexitCode::LdtrWrite => 0x6C,
            VmexitCode::TrWrite => 0x6D,
            VmexitCode::Rdtsc => 0x6E,
            VmexitCode::Rdpmc => 0x6F,
            VmexitCode::Pushf => 0x70,
            VmexitCode::Popf => 0x71,
            VmexitCode::Cpuid => 0x72,
            VmexitCode::Rsm => 0x73,
            VmexitCode::Iret => 0x74,
            VmexitCode::Int => 0x75,
            VmexitCode::Invd => 0x76,
            VmexitCode::Pause => 0x77,
            VmexitCode::Hlt => 0x78,
            VmexitCode::Invlpg => 0x79,
            VmexitCode::Invlpga => 0x7A,
            VmexitCode::Ioio => 0x7B,
            VmexitCode::Msr => 0x7C,
            VmexitCode::TaskSwitch => 0x7D,
            VmexitCode::FerrFreeze => 0x7E,
            VmexitCode::Shutdown => 0x7F,
            VmexitCode::Vmrun => 0x80,
            VmexitCode::Vmmcall => 0x81,
            VmexitCode::Vmload => 0x82,
            VmexitCode::Vmsave => 0x83,
            VmexitCode::Stgi => 0x84,
            VmexitCode::Clgi => 0x85,
            VmexitCode::Skinit => 0x86,
            VmexitCode::Rdtscp => 0x87,
            VmexitCode::Icebp => 0x88,
            VmexitCode::Wbinvd => 0x89,
            VmexitCode::Monitor => 0x8A,
            VmexitCode::Mwait => 0x8B,
            VmexitCode::MwaitCond => 0x8C,
            VmexitCode::Xsetbv => 0x8D,
            VmexitCode::Rdpru => 0x8E,
            VmexitCode::Efer => 0x8F,
            VmexitCode::Cr0Trap => 0x90,
            VmexitCode::NptFault => 0x400,
            VmexitCode::Invalid => 0xFFFF_FFFF_FFFF_FFFF,
        }
    }

    /// The numeric exit code.
    pub fn code(self) -> (r: u64)
        ensures
            r == self.spec_code(),
    {
        match self {
            VmexitCode::CrRead => 0x00,
            VmexitCode::CrWrite => 0x10,
            VmexitCode::DrRead => 0x20,
            VmexitCode::DrWrite => 0x30,
            VmexitCode::Exception => 0x40,
            VmexitCode::Intr => 0x60,
            VmexitCode::Nmi => 0x61,
            VmexitCode::Smi => 0x62,
            VmexitCode::Init => 0x63,
            VmexitCode::Vintr => 0x64,
            VmexitCode::Cr0Selective => 0x65,
            VmexitCode::IdtrRead => 0x66,
            VmexitCode::GdtrRead => 0x67,
            VmexitCode::LdtrRead => 0x68,
            VmexitCode::TrRead => 0x69,
            VmexitCode::IdtrWrite => 0x6A,
            VmexitCode::GdtrWrite => 0x6B,
            VmexitCode::LdtrWrite => 0x6C,
            VmexitCode::TrWrite => 0x6D,
            VmexitCode::Rdtsc => 0x6E,
            VmexitCode::Rdpmc => 0x6F,
            VmexitCode::Pushf => 0x70,
            VmexitCode::Popf => 0x71,
            VmexitCode::Cpuid => 0x72,
            VmexitCode::Rsm => 0x73,
            VmexitCode::Iret => 0x74,
            VmexitCode::Int => 0x75,
            VmexitCode::Invd => 0x76,
            VmexitCode::Pause => 0x77,
            VmexitCode::Hlt => 0x78,
            VmexitCode::Invlpg => 0x79,
            VmexitCode::Invlpga => 0x7A,
            VmexitCode::Ioio => 0x7B,
            VmexitCode::Msr => 0x7C,
            VmexitCode::TaskSwitch => 0x7D,
            VmexitCode::FerrFreeze => 0x7E,
            VmexitCode::Shutdown => 0x7F,
            VmexitCode::Vmrun => 0x80,
            VmexitCode::Vmmcall => 0x81,
            VmexitCode::Vmload => 0x82,
            VmexitCode::Vmsave => 0x83,
            VmexitCode::Stgi => 0x84,
            VmexitCode::Clgi => 0x85,
            VmexitCode::Skinit => 0x86,
            VmexitCode::Rdtscp => 0x87,
            VmexitCode::Icebp => 0x88,
            VmexitCode::Wbinvd => 0x89,
            VmexitCode::Monitor => 0x8A,
            VmexitCode::Mwait => 0x8B,
            VmexitCode::MwaitCond => 0x8C,
            VmexitCode::Xsetbv => 0x8D,
            VmexitCode::Rdpru => 0x8E,
            VmexitCode::Efer => 0x8F,
            VmexitCode::Cr0Trap => 0x90,
            VmexitCode::NptFault => 0x400,
            VmexitCode::Invalid => 0xFFFF_FFFF_FFFF_FFFF,
        }
    }
}

} // verus!
