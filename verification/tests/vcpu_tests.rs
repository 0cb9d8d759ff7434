//! Tests for the VCPU state machine and register round trips.

use hypervisor::arch::CpuInfo;
use hypervisor::memory::FrameAllocator;
use hypervisor::vcpu::{
    allocate_vcpu_id, Vcpu, VcpuConfig, VcpuExit, VcpuRegs, VcpuState,
};
use hypervisor::{HypervisorError, IdCounter};

fn vmx_cpu() -> CpuInfo {
    CpuInfo {
        cpuid_1_ecx: 0x20,
        cpuid_ext_max_leaf: 0,
        cpuid_ext1_ecx: 0,
        msr_feature_control: 0b101,
        msr_vm_cr: 0,
        msr_vmx_basic: 0x0001_2345,
        enable_ok: true,
    }
}

fn svm_cpu() -> CpuInfo {
    CpuInfo {
        cpuid_1_ecx: 0,
        cpuid_ext_max_leaf: 0x8000_0001,
        cpuid_ext1_ecx: 0x4,
        msr_feature_control: 0,
        msr_vm_cr: 0,
        msr_vmx_basic: 0,
        enable_ok: true,
    }
}

fn allocator() -> FrameAllocator {
    FrameAllocator::new(0x20_0000, 64)
}

fn config() -> VcpuConfig {
    VcpuConfig { index: 0, initial_regs: None }
}

#[test]
fn new_vcpu_is_stopped_with_zero_regs() {
    let mut alloc = allocator();
    let v = Vcpu::new(1, 2, config(), &vmx_cpu(), &mut alloc).unwrap();
    assert_eq!(v.id(), 1);
    assert_eq!(v.vm_id(), 2);
    assert_eq!(v.state(), VcpuState::Stopped);
    assert_eq!(v.last_exit(), VcpuExit::Unknown);
    assert_eq!(v.regs().pc, 0);
    assert_eq!(v.regs().sp, 0);
}

#[test]
fn run_on_stopped_vcpu_lands_in_exited() {
    let mut alloc = allocator();
    let mut v = Vcpu::new(0, 0, config(), &vmx_cpu(), &mut alloc).unwrap();
    let exit = v.run().unwrap();
    assert_eq!(exit, VcpuExit::Unknown);
    assert_eq!(v.state(), VcpuState::Exited);
    assert_eq!(v.last_exit(), VcpuExit::Unknown);
}

#[test]
fn run_on_non_stopped_vcpu_fails_with_arch_error() {
    let mut alloc = allocator();
    let mut v = Vcpu::new(0, 0, config(), &vmx_cpu(), &mut alloc).unwrap();
    v.set_state(VcpuState::Running);
    assert_eq!(v.run(), Err(HypervisorError::ArchError(0)));
    v.set_state(VcpuState::Exited);
    assert_eq!(v.run(), Err(HypervisorError::ArchError(0)));
    v.set_state(VcpuState::Waiting);
    assert_eq!(v.run(), Err(HypervisorError::ArchError(0)));
}

#[test]
fn resume_requires_exited_state() {
    let mut alloc = allocator();
    let mut v = Vcpu::new(0, 0, config(), &vmx_cpu(), &mut alloc).unwrap();
    // Not yet exited: resume is an illegal transition.
    assert_eq!(v.resume(), Err(HypervisorError::ArchError(1)));
    v.run().unwrap();
    // Exited: resume dispatches again and lands in exited.
    assert!(v.resume().is_ok());
    assert_eq!(v.state(), VcpuState::Exited);
}

#[test]
fn stop_returns_vcpu_to_stopped() {
    let mut alloc = allocator();
    let mut v = Vcpu::new(0, 0, config(), &vmx_cpu(), &mut alloc).unwrap();
    v.run().unwrap();
    v.stop().unwrap();
    assert_eq!(v.state(), VcpuState::Stopped);
    // Stopped again, so a fresh run is legal.
    assert!(v.run().is_ok());
}

#[test]
fn registers_round_trip_through_dispatch() {
    let mut alloc = allocator();
    let mut v = Vcpu::new(0, 0, config(), &vmx_cpu(), &mut alloc).unwrap();
    let mut regs = VcpuRegs::default();
    regs.pc = 0x1000;
    regs.sp = 0x8000;
    regs.flags = 0x202;
    regs.gpr[0] = 42;
    regs.gpr[31] = 7;
    v.set_regs(regs);
    v.run().unwrap();
    // The dispatch pushes the snapshot into the block and pulls it back.
    assert_eq!(v.regs().pc, 0x1000);
    assert_eq!(v.regs().sp, 0x8000);
    assert_eq!(v.regs().flags, 0x202);
    assert_eq!(v.regs().gpr[0], 42);
    assert_eq!(v.regs().gpr[31], 7);
}

#[test]
fn registers_round_trip_on_svm_too() {
    let mut alloc = allocator();
    let mut v = Vcpu::new(0, 0, config(), &svm_cpu(), &mut alloc).unwrap();
    let mut regs = VcpuRegs::default();
    regs.pc = 0xFFFF_0000;
    regs.sp = 0x7000;
    v.set_regs(regs);
    v.run().unwrap();
    assert_eq!(v.regs().pc, 0xFFFF_0000);
    assert_eq!(v.regs().sp, 0x7000);
}

#[test]
fn initial_regs_from_config_are_used() {
    let mut alloc = allocator();
    let mut regs = VcpuRegs::default();
    regs.pc = 0xB000;
    let cfg = VcpuConfig { index: 0, initial_regs: Some(regs) };
    let v = Vcpu::new(0, 0, cfg, &vmx_cpu(), &mut alloc).unwrap();
    assert_eq!(v.regs().pc, 0xB000);
}

#[test]
fn vcpu_state_tags_round_trip() {
    assert_eq!(VcpuState::from(0u8), VcpuState::Stopped);
    assert_eq!(VcpuState::from(1u8), VcpuState::Running);
    assert_eq!(VcpuState::from(2u8), VcpuState::Waiting);
    assert_eq!(VcpuState::from(3u8), VcpuState::Exited);
    assert_eq!(VcpuState::from(200u8), VcpuState::Stopped);
    assert_eq!(VcpuState::Exited.as_u8(), 3);
}

#[test]
fn vcpu_id_allocation_is_monotonic() {
    let mut counter = IdCounter::new();
    assert_eq!(allocate_vcpu_id(&mut counter), 0);
    assert_eq!(allocate_vcpu_id(&mut counter), 1);
}

#[test]
fn vcpu_new_fails_without_frames() {
    let mut alloc = FrameAllocator::new(0x20_0000, 0);
    assert_eq!(
        Vcpu::new(0, 0, config(), &vmx_cpu(), &mut alloc).err(),
        Some(HypervisorError::OutOfMemory)
    );
}
