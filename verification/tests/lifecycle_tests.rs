//! Tests for global initialization, mode selection and the mode
//! dispatcher.

use hypervisor::arch::CpuInfo;
use hypervisor::memory::{FrameAllocator, GuestMemory};
use hypervisor::mode::{
    HvtConfig, HypervisorMode, ModeConfig, Type1Config, VirtIOConfig, VirtIOTransport,
};
use hypervisor::modes::{create_mode, ModeDispatcher};
use hypervisor::vm::{MemoryFlags, MemoryRegion, VmConfig, MEMORY_READ, MEMORY_WRITE};
use hypervisor::vcpu::{VcpuConfig, VcpuExit};
use hypervisor::{
    init, is_initialized, HypervisorArch, HypervisorError, HypervisorState, IdCounter,
};

fn vmx_cpu() -> CpuInfo {
    CpuInfo {
        cpuid_1_ecx: 0x20,
        cpuid_ext_max_leaf: 0,
        cpuid_ext1_ecx: 0,
        msr_feature_control: 0b101,
        msr_vm_cr: 0,
        msr_vmx_basic: 0x0001_2345,
        enable_ok: true,
    }
}

fn svm_cpu() -> CpuInfo {
    CpuInfo {
        cpuid_1_ecx: 0,
        cpuid_ext_max_leaf: 0x8000_0001,
        cpuid_ext1_ecx: 0x4,
        msr_feature_control: 0,
        msr_vm_cr: 0,
        msr_vmx_basic: 0,
        enable_ok: true,
    }
}

fn allocator() -> FrameAllocator {
    FrameAllocator::new(0x20_0000, 64)
}

#[test]
fn init_twice_reports_already_initialized() {
    let mut state = HypervisorState::new();
    let mut alloc = allocator();
    assert!(!is_initialized(&state));
    let caps = init(&mut state, &vmx_cpu(), &mut alloc).unwrap();
    assert!(caps.hw_virt_available);
    assert_eq!(caps.arch, HypervisorArch::X86_64);
    assert_eq!(caps.max_vms, 64);
    assert_eq!(caps.max_vcpus_per_vm, 256);
    assert!(!caps.nested_virt);
    assert_eq!(caps.supported_modes.bits(), 7);
    assert!(is_initialized(&state));
    assert_eq!(
        init(&mut state, &vmx_cpu(), &mut alloc).err(),
        Some(HypervisorError::AlreadyInitialized)
    );
    assert!(is_initialized(&state));
}

#[test]
fn init_without_hardware_support_rolls_back() {
    let mut state = HypervisorState::new();
    let mut alloc = allocator();
    let mut cpu = vmx_cpu();
    cpu.cpuid_1_ecx = 0;
    assert_eq!(init(&mut state, &cpu, &mut alloc).err(), Some(HypervisorError::NotSupported));
    // Rolled back: a later attempt with capable hardware succeeds.
    assert!(!is_initialized(&state));
    assert!(init(&mut state, &vmx_cpu(), &mut alloc).is_ok());
}

#[test]
fn init_with_firmware_disabled_vmx_is_not_supported() {
    let mut state = HypervisorState::new();
    let mut alloc = allocator();
    let mut cpu = vmx_cpu();
    cpu.msr_feature_control = 0;
    assert_eq!(init(&mut state, &cpu, &mut alloc).err(), Some(HypervisorError::NotSupported));
    assert!(!is_initialized(&state));
}

#[test]
fn init_enable_failure_reports_initialization_failed() {
    let mut state = HypervisorState::new();
    let mut alloc = allocator();
    let mut cpu = vmx_cpu();
    cpu.enable_ok = false;
    assert_eq!(
        init(&mut state, &cpu, &mut alloc).err(),
        Some(HypervisorError::InitializationFailed)
    );
    assert!(!is_initialized(&state));
}

#[test]
fn init_without_frames_reports_out_of_memory() {
    let mut state = HypervisorState::new();
    let mut alloc = FrameAllocator::new(0x20_0000, 0);
    assert_eq!(
        init(&mut state, &vmx_cpu(), &mut alloc).err(),
        Some(HypervisorError::OutOfMemory)
    );
    assert!(!is_initialized(&state));
}

#[test]
fn init_on_svm_hardware_succeeds() {
    let mut state = HypervisorState::new();
    let mut alloc = allocator();
    assert!(init(&mut state, &svm_cpu(), &mut alloc).is_ok());
}

#[test]
fn mode_names_round_trip() {
    assert_eq!(HypervisorMode::Type1.name(), "type1");
    assert_eq!(HypervisorMode::VirtIO.name(), "virtio");
    assert_eq!(HypervisorMode::Hvt.name(), "hvt");
    assert_eq!(HypervisorMode::from_str("type1"), Some(HypervisorMode::Type1));
    assert_eq!(HypervisorMode::from_str("virtio"), Some(HypervisorMode::VirtIO));
    assert_eq!(HypervisorMode::from_str("hvt"), Some(HypervisorMode::Hvt));
    assert_eq!(HypervisorMode::from_str("kvm"), None);
    assert_eq!(HypervisorMode::from_str(""), None);
    assert_eq!(HypervisorMode::from_str("type"), None);
}

#[test]
fn hvt_pause_is_not_supported() {
    // The scenario: a minimal-tender mode instance rejects pausing, even
    // for a VM it really tracks.
    let config = ModeConfig::Hvt(HvtConfig::default());
    let cpu = vmx_cpu();
    let mut mode = create_mode(HypervisorMode::Hvt, &config, &cpu).unwrap();
    assert_eq!(mode.mode(), HypervisorMode::Hvt);
    let mut vm_ids = IdCounter::new();
    let mut alloc = allocator();
    let vm = mode.create_vm(VmConfig::default(), &cpu, &mut vm_ids, &mut alloc).unwrap();
    assert_eq!(mode.pause_vm(vm), Err(HypervisorError::NotSupported));
    assert_eq!(mode.resume_vm(vm), Err(HypervisorError::NotSupported));
    assert_eq!(mode.inject_interrupt(vm, 0, 32), Err(HypervisorError::NotSupported));
}

#[test]
fn type1_supports_pause_and_interrupts() {
    let config = ModeConfig::Type1(Type1Config::default());
    let cpu = vmx_cpu();
    let mut mode = create_mode(HypervisorMode::Type1, &config, &cpu).unwrap();
    assert_eq!(mode.mode(), HypervisorMode::Type1);
    let mut vm_ids = IdCounter::new();
    let mut vcpu_ids = IdCounter::new();
    let mut alloc = allocator();
    let vm = mode.create_vm(VmConfig::default(), &cpu, &mut vm_ids, &mut alloc).unwrap();
    mode.start_vm(vm).unwrap();
    assert!(mode.pause_vm(vm).is_ok());
    assert!(mode.resume_vm(vm).is_ok());
    let vcpu = mode
        .create_vcpu(vm, VcpuConfig { index: 0, initial_regs: None }, &cpu, &mut vcpu_ids,
            &mut alloc)
        .unwrap();
    assert!(mode.inject_interrupt(vm, vcpu, 32).is_ok());
}

#[test]
fn mode_capabilities_reflect_each_mode() {
    let cpu = vmx_cpu();
    let t1 = create_mode(HypervisorMode::Type1, &ModeConfig::Type1(Type1Config::default()), &cpu)
        .unwrap();
    let caps = t1.capabilities();
    assert_eq!(caps.mode, HypervisorMode::Type1);
    assert_eq!(caps.max_vms, 64);
    assert_eq!(caps.boot_time_ms, 1000);
    assert!(!caps.device_passthrough);

    let vio =
        create_mode(HypervisorMode::VirtIO, &ModeConfig::VirtIO(VirtIOConfig::default()), &cpu)
            .unwrap();
    let caps = vio.capabilities();
    assert_eq!(caps.mode, HypervisorMode::VirtIO);
    assert_eq!(caps.max_vms, 128);
    assert!(caps.device_passthrough);
    assert_eq!(caps.boot_time_ms, 500);

    let hvt = create_mode(HypervisorMode::Hvt, &ModeConfig::Hvt(HvtConfig::default()), &cpu)
        .unwrap();
    let caps = hvt.capabilities();
    assert_eq!(caps.mode, HypervisorMode::Hvt);
    assert_eq!(caps.max_vms, 256);
    assert_eq!(caps.max_vcpus_per_vm, 1);
    assert_eq!(caps.boot_time_ms, 5);
}

#[test]
fn dispatcher_vm_and_vcpu_lifecycle() {
    let cpu = vmx_cpu();
    let mut mode =
        create_mode(HypervisorMode::Type1, &ModeConfig::Type1(Type1Config::default()), &cpu)
            .unwrap();
    let mut vm_ids = IdCounter::new();
    let mut vcpu_ids = IdCounter::new();
    let mut alloc = allocator();
    let vm1 = mode.create_vm(VmConfig::default(), &cpu, &mut vm_ids, &mut alloc).unwrap();
    let vm2 = mode.create_vm(VmConfig::default(), &cpu, &mut vm_ids, &mut alloc).unwrap();
    assert_eq!(vm1, 0);
    assert_eq!(vm2, 1);
    // A created VM is stopped; start and stop are real transitions.
    assert!(mode.start_vm(vm1).is_ok());
    assert!(mode.stop_vm(vm1).is_ok());
    // Stopping a VM that is already stopped is an illegal transition.
    assert_eq!(mode.stop_vm(vm1), Err(HypervisorError::ArchError(2)));
    // Pausing requires the VM to be running.
    assert_eq!(mode.pause_vm(vm1), Err(HypervisorError::ArchError(2)));
    let vcpu = mode
        .create_vcpu(vm1, VcpuConfig { index: 0, initial_regs: None }, &cpu, &mut vcpu_ids,
            &mut alloc)
        .unwrap();
    assert_eq!(vcpu, 0);
    // A fresh block records no exit yet, so the dispatch reports none.
    assert_eq!(mode.run_vcpu(vm1, vcpu), Ok(VcpuExit::Unknown));
    // The dispatch left the VCPU exited; a second run resumes it.
    assert_eq!(mode.run_vcpu(vm1, vcpu), Ok(VcpuExit::Unknown));
    assert!(mode.destroy_vm(vm2).is_ok());
    // Unknown IDs are lookup misses.
    assert_eq!(mode.start_vm(vm2), Err(HypervisorError::InvalidVmId));
    assert_eq!(mode.run_vcpu(vm1, 77), Err(HypervisorError::InvalidVcpuId));
    assert_eq!(mode.run_vcpu(99, vcpu), Err(HypervisorError::InvalidVmId));
}

#[test]
fn hvt_vcpu_lifecycle_caps_at_one_vcpu() {
    let cpu = vmx_cpu();
    let mut mode = create_mode(HypervisorMode::Hvt, &ModeConfig::Hvt(HvtConfig::default()), &cpu)
        .unwrap();
    let mut vm_ids = IdCounter::new();
    let mut vcpu_ids = IdCounter::new();
    let mut alloc = allocator();
    // Unikernels use one VCPU.
    let vm = mode.create_vm(VmConfig::default(), &cpu, &mut vm_ids, &mut alloc).unwrap();
    let vcpu = mode
        .create_vcpu(vm, VcpuConfig { index: 0, initial_regs: None }, &cpu, &mut vcpu_ids,
            &mut alloc)
        .unwrap();
    assert_eq!(
        mode.create_vcpu(vm, VcpuConfig { index: 1, initial_regs: None }, &cpu, &mut vcpu_ids,
            &mut alloc),
        Err(HypervisorError::MaxVcpusReached)
    );
    assert_eq!(mode.run_vcpu(vm, vcpu), Ok(VcpuExit::Unknown));
    // The tender's flat address space takes mappings without table work.
    let region = MemoryRegion {
        gpa: 0,
        hpa: 0x100000,
        size: 0x1000,
        flags: MemoryFlags::from_bits(MEMORY_READ | MEMORY_WRITE),
    };
    assert!(mode.map_memory(vm, region, &mut alloc).is_ok());
    assert!(mode.unmap_memory(vm, 0, 0x1000).is_ok());
}

#[test]
fn virtio_default_transport_is_mmio() {
    assert_eq!(VirtIOConfig::default().transport, VirtIOTransport::Mmio);
    let t1 = Type1Config::default();
    assert!(!t1.nested_virt);
    assert!(t1.large_pages);
    let hvt = HvtConfig::default();
    assert!(hvt.unikernel_path.is_none());
    assert!(hvt.use_manifest);
}

#[test]
fn guest_memory_translates_linearly() {
    let mut alloc = allocator();
    let mem = GuestMemory::allocate(0x4000, &mut alloc).unwrap();
    assert_eq!(mem.size(), 0x4000);
    let base = mem.base_hpa();
    assert_eq!(base % 4096, 0);
    assert_eq!(mem.translate(0x0), Some(base));
    assert_eq!(mem.translate(0x1234), Some(base + 0x1234));
    assert_eq!(mem.translate(0x4000), None);
    let mut buf = vec![0u8; 16];
    assert!(mem.read(0x0, &mut buf).is_ok());
    assert!(mem.write(0x100, &buf).is_ok());
    assert_eq!(mem.read(0x4000, &mut buf), Err(HypervisorError::InvalidMemoryRegion));
    assert_eq!(mem.write(0x4000, &buf), Err(HypervisorError::InvalidMemoryRegion));
}

#[test]
fn guest_memory_allocation_can_exhaust_frames() {
    let mut alloc = FrameAllocator::new(0x20_0000, 2);
    assert!(GuestMemory::allocate(0x3000, &mut alloc).is_err());
    let mut alloc2 = FrameAllocator::new(0x20_0000, 2);
    assert!(GuestMemory::allocate(0x2000, &mut alloc2).is_ok());
}

#[test]
fn dispatcher_matches_selected_mode() {
    let cpu = svm_cpu();
    let mode = create_mode(HypervisorMode::VirtIO, &ModeConfig::VirtIO(VirtIOConfig::default()),
        &cpu)
        .unwrap();
    match mode {
        ModeDispatcher::VirtIO(_) => {},
        _ => panic!("wrong dispatcher variant"),
    }
}

#[test]
fn create_type1_mode_without_hardware_fails() {
    let mut cpu = vmx_cpu();
    cpu.cpuid_1_ecx = 0;
    let r = create_mode(HypervisorMode::Type1, &ModeConfig::Type1(Type1Config::default()), &cpu);
    assert!(r.is_err());
}

#[test]
fn dispatcher_map_memory_rejects_overlap() {
    let cpu = vmx_cpu();
    let mut mode =
        create_mode(HypervisorMode::Type1, &ModeConfig::Type1(Type1Config::default()), &cpu)
            .unwrap();
    let mut vm_ids = IdCounter::new();
    let mut alloc = allocator();
    let vm = mode.create_vm(VmConfig::default(), &cpu, &mut vm_ids, &mut alloc).unwrap();
    let region = MemoryRegion {
        gpa: 0,
        hpa: 0x30_0000,
        size: 0x2000,
        flags: MemoryFlags::from_bits(MEMORY_READ | MEMORY_WRITE),
    };
    assert!(mode.map_memory(vm, region, &mut alloc).is_ok());
    // The same range again overlaps and is rejected through the mode
    // interface.
    let overlapping = MemoryRegion {
        gpa: 0x1000,
        hpa: 0x40_0000,
        size: 0x1000,
        flags: MemoryFlags::from_bits(MEMORY_READ),
    };
    assert_eq!(
        mode.map_memory(vm, overlapping, &mut alloc),
        Err(HypervisorError::InvalidMemoryRegion)
    );
    // Exact-match unmap through the mode interface.
    assert_eq!(mode.unmap_memory(vm, 0, 0x1000), Err(HypervisorError::InvalidMemoryRegion));
    assert!(mode.unmap_memory(vm, 0, 0x2000).is_ok());
    // A missing VM is a lookup miss.
    assert_eq!(
        mode.map_memory(42, region, &mut alloc),
        Err(HypervisorError::InvalidVmId)
    );
}

#[test]
fn dispatcher_regs_round_trip_through_registry() {
    let cpu = svm_cpu();
    let mut mode =
        create_mode(HypervisorMode::VirtIO, &ModeConfig::VirtIO(VirtIOConfig::default()), &cpu)
            .unwrap();
    let mut vm_ids = IdCounter::new();
    let mut vcpu_ids = IdCounter::new();
    let mut alloc = allocator();
    let vm = mode.create_vm(VmConfig::default(), &cpu, &mut vm_ids, &mut alloc).unwrap();
    let vcpu = mode
        .create_vcpu(vm, VcpuConfig { index: 0, initial_regs: None }, &cpu, &mut vcpu_ids,
            &mut alloc)
        .unwrap();
    let mut regs = mode.get_vcpu_regs(vm, vcpu).unwrap();
    assert_eq!(regs.pc, 0);
    regs.pc = 0x7000;
    regs.gpr[3] = 9;
    mode.set_vcpu_regs(vm, vcpu, &regs).unwrap();
    let back = mode.get_vcpu_regs(vm, vcpu).unwrap();
    assert_eq!(back.pc, 0x7000);
    assert_eq!(back.gpr[3], 9);
    assert_eq!(mode.get_vcpu_regs(vm, 9).err(), Some(HypervisorError::InvalidVcpuId));
    assert_eq!(mode.get_vcpu_regs(5, vcpu).err(), Some(HypervisorError::InvalidVmId));
}
