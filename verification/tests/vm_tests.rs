//! Tests for VM lifecycle, memory regions and overlap checking.

use hypervisor::arch::CpuInfo;
use hypervisor::memory::FrameAllocator;
use hypervisor::vm::{
    allocate_vm_id, regions_overlap, MemoryFlags, MemoryRegion, Vm, VmConfig, VmState,
    MEMORY_READ, MEMORY_WRITE,
};
use hypervisor::{HypervisorError, IdCounter};

fn vmx_cpu() -> CpuInfo {
    CpuInfo {
        cpuid_1_ecx: 0x20,
        cpuid_ext_max_leaf: 0,
        cpuid_ext1_ecx: 0,
        msr_feature_control: 0b101,
        msr_vm_cr: 0,
        msr_vmx_basic: 0x0001_2345,
        enable_ok: true,
    }
}

fn allocator() -> FrameAllocator {
    FrameAllocator::new(0x20_0000, 256)
}

fn region(gpa: u64, hpa: u64, size: usize) -> MemoryRegion {
    MemoryRegion { gpa, hpa, size, flags: MemoryFlags::from_bits(MEMORY_READ | MEMORY_WRITE) }
}

#[test]
fn non_overlapping_regions_both_map() {
    let mut alloc = allocator();
    let mut vm = Vm::new(0, VmConfig::default(), &vmx_cpu(), &mut alloc).unwrap();
    let a = region(0x0, 0x100000, 0x1000);
    let b = region(0x1000, 0x200000, 0x1000);
    assert!(vm.map_memory(a, &mut alloc).is_ok());
    assert!(vm.map_memory(b, &mut alloc).is_ok());
    assert_eq!(vm.memory_regions().len(), 2);
}

#[test]
fn overlapping_region_is_rejected() {
    let mut alloc = allocator();
    let mut vm = Vm::new(0, VmConfig::default(), &vmx_cpu(), &mut alloc).unwrap();
    let a = region(0x0, 0x100000, 0x2000);
    let b = region(0x1000, 0x200000, 0x2000);
    assert!(vm.map_memory(a, &mut alloc).is_ok());
    assert_eq!(vm.map_memory(b, &mut alloc), Err(HypervisorError::InvalidMemoryRegion));
    assert_eq!(vm.memory_regions().len(), 1);
}

#[test]
fn map_scenario_single_region_then_duplicate_fails() {
    // One VCPU, 128 MiB of guest memory; map one read-write frame at zero.
    let mut alloc = allocator();
    let config = VmConfig::default();
    assert_eq!(config.num_vcpus, 1);
    assert_eq!(config.memory_size, 128 * 1024 * 1024);
    let mut vm = Vm::new(1, config, &vmx_cpu(), &mut alloc).unwrap();
    let first = region(0x0, 0x300000, 0x1000);
    assert!(vm.map_memory(first, &mut alloc).is_ok());
    assert_eq!(vm.memory_regions().len(), 1);
    let second = region(0x0, 0x400000, 0x1000);
    assert_eq!(vm.map_memory(second, &mut alloc), Err(HypervisorError::InvalidMemoryRegion));
    assert_eq!(vm.memory_regions().len(), 1);
}

#[test]
fn unmap_requires_exact_match() {
    let mut alloc = allocator();
    let mut vm = Vm::new(0, VmConfig::default(), &vmx_cpu(), &mut alloc).unwrap();
    let a = region(0x2000, 0x100000, 0x2000);
    vm.map_memory(a, &mut alloc).unwrap();
    // Wrong size.
    assert_eq!(vm.unmap_memory(0x2000, 0x1000), Err(HypervisorError::InvalidMemoryRegion));
    // Wrong address.
    assert_eq!(vm.unmap_memory(0x3000, 0x2000), Err(HypervisorError::InvalidMemoryRegion));
    // Exact match.
    assert!(vm.unmap_memory(0x2000, 0x2000).is_ok());
    assert_eq!(vm.memory_regions().len(), 0);
}

#[test]
fn unaligned_region_is_rejected() {
    let mut alloc = allocator();
    let mut vm = Vm::new(0, VmConfig::default(), &vmx_cpu(), &mut alloc).unwrap();
    let bad = region(0x10, 0x100000, 0x1000);
    assert_eq!(vm.map_memory(bad, &mut alloc), Err(HypervisorError::InvalidMemoryRegion));
    let empty = region(0x0, 0x100000, 0);
    assert_eq!(vm.map_memory(empty, &mut alloc), Err(HypervisorError::InvalidMemoryRegion));
}

#[test]
fn add_vcpu_respects_configured_cap() {
    let mut alloc = allocator();
    let mut config = VmConfig::default();
    config.num_vcpus = 2;
    let mut vm = Vm::new(0, config, &vmx_cpu(), &mut alloc).unwrap();
    assert!(vm.add_vcpu(10).is_ok());
    assert!(vm.add_vcpu(11).is_ok());
    assert_eq!(vm.add_vcpu(12), Err(HypervisorError::MaxVcpusReached));
    assert_eq!(vm.vcpu_ids().len(), 2);
    assert_eq!(vm.vcpu_ids()[0], 10);
    assert_eq!(vm.vcpu_ids()[1], 11);
}

#[test]
fn vm_state_transitions_and_tags() {
    let mut alloc = allocator();
    let mut vm = Vm::new(7, VmConfig::default(), &vmx_cpu(), &mut alloc).unwrap();
    assert_eq!(vm.id(), 7);
    assert_eq!(vm.state(), VmState::Creating);
    vm.set_state(VmState::Running);
    assert_eq!(vm.state(), VmState::Running);
    assert_eq!(VmState::from(0u8), VmState::Creating);
    assert_eq!(VmState::from(2u8), VmState::Running);
    assert_eq!(VmState::from(4u8), VmState::Destroying);
    assert_eq!(VmState::from(99u8), VmState::Stopped);
    assert_eq!(VmState::Paused.as_u8(), 3);
}

#[test]
fn regions_overlap_matches_interval_arithmetic() {
    let a = region(0x0, 0x0, 0x2000);
    let b = region(0x2000, 0x0, 0x1000);
    let c = region(0x1000, 0x0, 0x1000);
    assert!(!regions_overlap(&a, &b));
    assert!(regions_overlap(&a, &c));
    assert!(regions_overlap(&c, &a));
    assert!(!regions_overlap(&b, &c));
}

#[test]
fn vm_new_fails_without_hardware_support() {
    let mut alloc = allocator();
    let mut cpu = vmx_cpu();
    cpu.cpuid_1_ecx = 0;
    assert_eq!(
        Vm::new(0, VmConfig::default(), &cpu, &mut alloc).err(),
        Some(HypervisorError::NotSupported)
    );
}

#[test]
fn vm_map_fails_with_out_of_memory_when_exhausted() {
    let mut alloc = FrameAllocator::new(0x20_0000, 1);
    let mut vm = Vm::new(0, VmConfig::default(), &vmx_cpu(), &mut alloc).unwrap();
    let a = region(0x0, 0x100000, 0x1000);
    assert_eq!(vm.map_memory(a, &mut alloc), Err(HypervisorError::OutOfMemory));
    assert_eq!(vm.memory_regions().len(), 0);
}

#[test]
fn vm_id_allocation_is_monotonic() {
    let mut counter = IdCounter::new();
    assert_eq!(allocate_vm_id(&mut counter), 0);
    assert_eq!(allocate_vm_id(&mut counter), 1);
    assert_eq!(allocate_vm_id(&mut counter), 2);
}

#[test]
fn vm_transitions_follow_the_legal_order() {
    let mut alloc = allocator();
    let mut vm = Vm::new(0, VmConfig::default(), &vmx_cpu(), &mut alloc).unwrap();
    assert_eq!(vm.state(), VmState::Creating);
    // Creation completes into stopped.
    assert!(vm.transition(VmState::Stopped).is_ok());
    // A stopped VM cannot pause.
    assert_eq!(vm.transition(VmState::Paused), Err(HypervisorError::ArchError(2)));
    assert!(vm.transition(VmState::Running).is_ok());
    assert!(vm.transition(VmState::Paused).is_ok());
    // A paused VM resumes to running, not to stopped.
    assert_eq!(vm.transition(VmState::Stopped), Err(HypervisorError::ArchError(2)));
    assert!(vm.transition(VmState::Running).is_ok());
    assert!(vm.transition(VmState::Stopped).is_ok());
    // Destroying is reachable from any non-terminal state and terminal.
    assert!(vm.transition(VmState::Destroying).is_ok());
    assert_eq!(vm.transition(VmState::Running), Err(HypervisorError::ArchError(2)));
    assert_eq!(vm.transition(VmState::Destroying), Err(HypervisorError::ArchError(2)));
    // Creating is never re-entered.
    let mut vm2 = Vm::new(1, VmConfig::default(), &vmx_cpu(), &mut alloc).unwrap();
    vm2.transition(VmState::Stopped).unwrap();
    assert_eq!(vm2.transition(VmState::Creating), Err(HypervisorError::ArchError(2)));
}
