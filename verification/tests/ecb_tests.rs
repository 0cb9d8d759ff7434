//! Tests for the execution control block models.

use hypervisor::arch::x86_64::vmcb::{Vmcb, VmcbControlArea, VmcbStateSaveArea};
use hypervisor::arch::x86_64::vmcs::{Vmcs, VmcsField};
use hypervisor::arch::x86_64::HostState;
use hypervisor::arch::x86_64::{decode_svm_exit, decode_vmx_exit, svm, vmx};
use hypervisor::vcpu::VcpuExit;
use hypervisor::arch::CpuInfo;
use hypervisor::memory::FrameAllocator;
use hypervisor::HypervisorError;

fn allocator() -> FrameAllocator {
    FrameAllocator::new(0x30_0000, 16)
}

fn host() -> HostState {
    HostState {
        cr0: 0x8005_0033,
        cr3: 0x1000,
        cr4: 0x2020,
        efer: 0xD01,
        cs: 0x08,
        ss: 0x10,
        ds: 0x10,
        es: 0x10,
        fs: 0,
        gs: 0,
        tr: 0x40,
        fs_base: 0x7F00_0000,
        gs_base: 0x7F10_0000,
        kernel_gs_base: 0x7F20_0000,
        gdtr_base: 0xFFFF_8000_0000_1000,
        gdtr_limit: 0x7F,
        idtr_base: 0xFFFF_8000_0000_2000,
        idtr_limit: 0xFFF,
    }
}

#[test]
fn vmcs_write_then_read_round_trips() {
    let mut alloc = allocator();
    let mut h = Vmcs::new(0x12345, &mut alloc).unwrap();
    h.load().unwrap();
    h.write(VmcsField::GuestRip, 0xCAFE_0000).unwrap();
    assert_eq!(h.read(VmcsField::GuestRip), Ok(0xCAFE_0000));
    // Rewriting shadows the earlier value.
    h.write(VmcsField::GuestRip, 0xBEEF_0000).unwrap();
    assert_eq!(h.read(VmcsField::GuestRip), Ok(0xBEEF_0000));
    // Untouched fields read as zero.
    assert_eq!(h.read(VmcsField::GuestRsp), Ok(0));
}

#[test]
fn vmcs_access_without_load_is_invalid_parameter() {
    let mut alloc = allocator();
    let mut h = Vmcs::new(0x12345, &mut alloc).unwrap();
    assert_eq!(h.read(VmcsField::GuestRip), Err(HypervisorError::InvalidParameter));
    assert_eq!(
        h.write(VmcsField::GuestRip, 1),
        Err(HypervisorError::InvalidParameter)
    );
    h.load().unwrap();
    assert!(h.write(VmcsField::GuestRip, 1).is_ok());
    h.clear().unwrap();
    assert_eq!(h.read(VmcsField::GuestRip), Err(HypervisorError::InvalidParameter));
}

#[test]
fn vmcs_revision_clears_bit_31() {
    let mut alloc = allocator();
    let h = Vmcs::new(0x8000_0007, &mut alloc).unwrap();
    // Bit 31 must be zero in the region header.
    assert_eq!(h.revision_id(), 0x7);
    let h2 = Vmcs::new(0x7, &mut alloc).unwrap();
    assert_eq!(h2.revision_id(), 0x7);
    assert_eq!(h2.phys_addr(), 0x30_1000);
}

#[test]
fn vmcs_initialize_populates_host_state_and_controls() {
    let mut alloc = allocator();
    let mut h = Vmcs::new(0x1, &mut alloc).unwrap();
    let hs = host();
    h.initialize(&hs, 0x10_001E).unwrap();
    assert_eq!(h.read(VmcsField::HostCr0), Ok(hs.cr0));
    assert_eq!(h.read(VmcsField::HostCr3), Ok(hs.cr3));
    assert_eq!(h.read(VmcsField::HostCr4), Ok(hs.cr4));
    assert_eq!(h.read(VmcsField::HostCsSelector), Ok(hs.cs as u64));
    assert_eq!(h.read(VmcsField::HostTrSelector), Ok(hs.tr as u64));
    assert_eq!(h.read(VmcsField::HostFsBase), Ok(hs.fs_base));
    assert_eq!(h.read(VmcsField::HostGdtrBase), Ok(hs.gdtr_base));
    assert_eq!(h.read(VmcsField::HostIdtrBase), Ok(hs.idtr_base));
    // 64-bit host and guest mode bits.
    assert_eq!(h.read(VmcsField::VmExitControls), Ok(0x200));
    assert_eq!(h.read(VmcsField::VmEntryControls), Ok(0x200));
    // The second-level translation root is bound.
    assert_eq!(h.read(VmcsField::EptPointer), Ok(0x10_001E));
}

#[test]
fn vmcb_new_is_zeroed_and_addressable() {
    let mut alloc = allocator();
    let h = Vmcb::new(&mut alloc).unwrap();
    assert_eq!(h.phys_addr(), 0x30_0000);
    assert_eq!(h.control().exitcode, 0);
    assert_eq!(h.save().rip, 0);
}

#[test]
fn vmcb_initialize_sets_intercepts_and_host_snapshot() {
    let mut alloc = allocator();
    let mut h = Vmcb::new(&mut alloc).unwrap();
    let hs = host();
    h.initialize(7, 0x40_0000, &hs).unwrap();
    assert_eq!(h.control().exception_intercept, 0xFFFF_FFFF);
    assert_eq!(h.control().cr_read_intercept, 0x0001);
    assert_eq!(h.control().cr_write_intercept, 0x0011);
    assert_eq!(h.control().guest_asid, 7);
    assert_eq!(h.control().np_enable, 1);
    assert_eq!(h.control().n_cr3, 0x40_0000);
    assert_eq!(h.control().tlb_control, 1);
    assert_eq!(h.save().cr0, hs.cr0);
    assert_eq!(h.save().efer, hs.efer);
    assert_eq!(h.save().cs_selector, hs.cs);
    assert_eq!(h.save().gdtr_base, hs.gdtr_base);
    assert_eq!(h.save().gdtr_limit, hs.gdtr_limit);
    assert_eq!(h.save().kernel_gs_base, hs.kernel_gs_base);
}

#[test]
fn vmcb_run_returns_recorded_exit_code() {
    let mut alloc = allocator();
    let mut h = Vmcb::new(&mut alloc).unwrap();
    assert_eq!(h.run(), Ok(0));
    h.control_mut().exitcode = 0x78;
    assert_eq!(h.run(), Ok(0x78));
}

#[test]
fn vmcb_areas_are_writable_through_accessors() {
    let mut alloc = allocator();
    let mut h = Vmcb::new(&mut alloc).unwrap();
    h.save_mut().rax = 0x1234;
    h.control_mut().tsc_offset = 0x5678;
    assert_eq!(h.save().rax, 0x1234);
    assert_eq!(h.control().tsc_offset, 0x5678);
    let zeroed_control = VmcbControlArea::zeroed();
    assert_eq!(zeroed_control.guest_asid, 0);
    let zeroed_save = VmcbStateSaveArea::zeroed();
    assert_eq!(zeroed_save.cr3, 0);
}

#[test]
fn vmx_feature_detection_reads_the_right_bits() {
    let cpu = CpuInfo {
        cpuid_1_ecx: 0x20,
        cpuid_ext_max_leaf: 0,
        cpuid_ext1_ecx: 0,
        msr_feature_control: 0b101,
        msr_vm_cr: 0,
        msr_vmx_basic: 0x8001_2345,
        enable_ok: true,
    };
    assert!(vmx::is_available(&cpu));
    assert!(vmx::is_enabled_in_firmware(&cpu));
    assert_eq!(vmx::vmcs_revision_id(&cpu), 0x0001_2345);
    let mut no_vmx = cpu;
    no_vmx.cpuid_1_ecx = !0x20;
    assert!(!vmx::is_available(&no_vmx));
    let mut unlocked = cpu;
    unlocked.msr_feature_control = 0b100;
    assert!(!vmx::is_enabled_in_firmware(&unlocked));
}

#[test]
fn svm_feature_detection_reads_the_right_bits() {
    let cpu = CpuInfo {
        cpuid_1_ecx: 0,
        cpuid_ext_max_leaf: 0x8000_0001,
        cpuid_ext1_ecx: 0x4,
        msr_feature_control: 0,
        msr_vm_cr: 0,
        msr_vmx_basic: 0,
        enable_ok: true,
    };
    assert!(svm::is_available(&cpu));
    assert!(!svm::is_disabled_in_firmware(&cpu));
    let mut no_ext = cpu;
    no_ext.cpuid_ext_max_leaf = 0x8000_0000;
    assert!(!svm::is_available(&no_ext));
    let mut disabled = cpu;
    disabled.msr_vm_cr = 0x10;
    assert!(svm::is_disabled_in_firmware(&disabled));
}

#[test]
fn svm_init_error_cases() {
    let mut alloc = allocator();
    let cpu = CpuInfo {
        cpuid_1_ecx: 0,
        cpuid_ext_max_leaf: 0x8000_0001,
        cpuid_ext1_ecx: 0x4,
        msr_feature_control: 0,
        msr_vm_cr: 0x10,
        msr_vmx_basic: 0,
        enable_ok: true,
    };
    assert_eq!(svm::init(&cpu, &mut alloc), Err(HypervisorError::NotSupported));
    let mut sticky = cpu;
    sticky.msr_vm_cr = 0;
    sticky.enable_ok = false;
    assert_eq!(svm::init(&sticky, &mut alloc), Err(HypervisorError::InitializationFailed));
    sticky.enable_ok = true;
    assert!(svm::init(&sticky, &mut alloc).is_ok());
}

#[test]
fn ecb_handles_release_their_frames() {
    let mut alloc = allocator();
    let vmcs = Vmcs::new(0x1, &mut alloc).unwrap();
    vmcs.free(&mut alloc);
    let vmcb = Vmcb::new(&mut alloc).unwrap();
    vmcb.free(&mut alloc);
}

#[test]
fn exit_decoders_classify_the_documented_codes() {
    // AMD format: the exit code table.
    assert_eq!(decode_svm_exit(0x60, 0), VcpuExit::ExternalInterrupt);
    assert_eq!(decode_svm_exit(0x78, 0), VcpuExit::Halt);
    assert_eq!(decode_svm_exit(0x7F, 0), VcpuExit::Shutdown);
    assert_eq!(decode_svm_exit(0x81, 42), VcpuExit::Hypercall { nr: 42 });
    assert_eq!(decode_svm_exit(0x45, 0), VcpuExit::Exception(5));
    assert_eq!(decode_svm_exit(0x40, 0), VcpuExit::Exception(0));
    assert_eq!(decode_svm_exit(0, 0), VcpuExit::Unknown);
    assert_eq!(decode_svm_exit(0x72, 0), VcpuExit::Unknown);
    // Intel format: the basic exit reasons.
    assert_eq!(decode_vmx_exit(1, 0), VcpuExit::ExternalInterrupt);
    assert_eq!(decode_vmx_exit(2, 0), VcpuExit::Shutdown);
    assert_eq!(decode_vmx_exit(12, 0), VcpuExit::Halt);
    assert_eq!(decode_vmx_exit(18, 7), VcpuExit::Hypercall { nr: 7 });
    assert_eq!(decode_vmx_exit(0, 0), VcpuExit::Unknown);
    assert_eq!(decode_vmx_exit(30, 0), VcpuExit::Unknown);
}

#[test]
fn vmcs_exit_reason_field_has_its_encoding() {
    assert_eq!(VmcsField::VmExitReason.encoding(), 0x4402);
    assert_eq!(VmcsField::VmEntryIntrInfoField.encoding(), 0x4016);
}
