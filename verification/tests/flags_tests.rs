//! Tests for the entry flag codecs and the small bitsets.

use hypervisor::arch::x86_64::ept::{EptEntry, EptFlags, EptMemoryType};
use hypervisor::arch::x86_64::npt::{NptEntry, NptFlags};
use hypervisor::arch::x86_64::vmcb::VmexitCode;
use hypervisor::arch::x86_64::vmcs::VmcsField;
use hypervisor::vm::{MemoryFlags, MEMORY_EXEC, MEMORY_READ, MEMORY_WRITE};
use hypervisor::{ModeSupportFlags, MODE_SUPPORT_HVT, MODE_SUPPORT_TYPE1, MODE_SUPPORT_VIRTIO};

#[test]
fn ept_flags_pack_exact_bits() {
    let f = EptFlags::read_write_execute();
    // Read, write, execute in bits 0-2; write back (6) in bits 3-5.
    assert_eq!(f.to_ept_entry(), 0b110_111);
    let rw = EptFlags::read_write();
    assert_eq!(rw.to_ept_entry(), 0b110_011);
    let rx = EptFlags::read_execute();
    assert_eq!(rx.to_ept_entry(), 0b110_101);
}

#[test]
fn ept_flags_memory_type_and_roundtrip() {
    let f = EptFlags::new(true, false, false).with_memory_type(EptMemoryType::Uncacheable);
    let bits = f.to_ept_entry();
    assert_eq!(bits, 1);
    let parsed = EptFlags::from_ept_entry(bits);
    assert_eq!(parsed, f);
    let g = EptFlags::read_write_execute().with_memory_type(EptMemoryType::WriteThrough);
    assert_eq!(EptFlags::from_ept_entry(g.to_ept_entry()), g);
}

#[test]
fn npt_flags_pack_exact_bits() {
    let f = NptFlags::read_write();
    // Present, writable, user.
    assert_eq!(f.to_npt_entry(), 0b111);
    let ro = NptFlags::read_only();
    assert_eq!(ro.to_npt_entry(), 0b101);
    let nx = NptFlags::read_write().no_execute();
    assert_eq!(nx.to_npt_entry(), 0x8000_0000_0000_0007);
}

#[test]
fn npt_flags_roundtrip() {
    for f in [
        NptFlags::read_write(),
        NptFlags::read_only(),
        NptFlags::read_execute(),
        NptFlags::new(false, true, false).no_execute(),
    ] {
        assert_eq!(NptFlags::from_npt_entry(f.to_npt_entry()), f);
    }
}

#[test]
fn ept_entry_set_address_and_accessors() {
    let mut e = EptEntry::new();
    assert!(!e.is_present());
    e.set_address(0x1234_5000, EptFlags::read_write());
    assert!(e.is_present());
    assert_eq!(e.address(), 0x1234_5000);
    assert!(!e.is_huge_page());
}

#[test]
fn npt_entry_set_address_and_accessors() {
    let mut e = NptEntry::new();
    assert!(!e.is_present());
    e.set_address(0xABC000, NptFlags::read_write());
    assert!(e.is_present());
    assert_eq!(e.address(), 0xABC000);
    assert!(!e.is_huge_page());
}

#[test]
fn mode_support_flags_bitset() {
    assert_eq!(ModeSupportFlags::empty().bits(), 0);
    assert_eq!(ModeSupportFlags::all().bits(), 7);
    let t = ModeSupportFlags::from_bits(MODE_SUPPORT_TYPE1);
    let v = ModeSupportFlags::from_bits(MODE_SUPPORT_VIRTIO);
    let both = t.union(v);
    assert_eq!(both.bits(), 3);
    assert!(both.contains(t));
    assert!(!both.contains(ModeSupportFlags::from_bits(MODE_SUPPORT_HVT)));
    assert!(ModeSupportFlags::all().contains(both));
}

#[test]
fn memory_flags_bitset() {
    let rw = MemoryFlags::from_bits(MEMORY_READ | MEMORY_WRITE);
    assert_eq!(rw.bits(), 3);
    assert!(rw.contains(MemoryFlags::from_bits(MEMORY_READ)));
    assert!(!rw.contains(MemoryFlags::from_bits(MEMORY_EXEC)));
    assert_eq!(rw.union(MemoryFlags::from_bits(MEMORY_EXEC)).bits(), 7);
    assert_eq!(MemoryFlags::empty().bits(), 0);
}

#[test]
fn vmexit_codes_match_hardware_values() {
    assert_eq!(VmexitCode::Hlt.code(), 0x78);
    assert_eq!(VmexitCode::Ioio.code(), 0x7B);
    assert_eq!(VmexitCode::Vmmcall.code(), 0x81);
    assert_eq!(VmexitCode::NptFault.code(), 0x400);
    assert_eq!(VmexitCode::Shutdown.code(), 0x7F);
    assert_eq!(VmexitCode::Invalid.code(), u64::MAX);
}

#[test]
fn vmcs_field_encodings_match_hardware_values() {
    assert_eq!(VmcsField::VirtualProcessorId.encoding(), 0x0000);
    assert_eq!(VmcsField::GuestRip.encoding(), 0x681E);
    assert_eq!(VmcsField::GuestRsp.encoding(), 0x681C);
    assert_eq!(VmcsField::HostCr0.encoding(), 0x6C00);
    assert_eq!(VmcsField::EptPointer.encoding(), 0x201A);
    assert_eq!(VmcsField::VmExitControls.encoding(), 0x400C);
}
