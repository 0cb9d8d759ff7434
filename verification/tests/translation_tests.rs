//! Tests for the second-level translation engine and its two entry
//! formats.

use hypervisor::memory::FrameAllocator;
use hypervisor::arch::x86_64::ept::{EptFlags, EptMapper, EptMemoryType};
use hypervisor::arch::x86_64::npt::{NptFlags, NptMapper, NptViolation};
use hypervisor::HypervisorError;

fn allocator(frames: usize) -> FrameAllocator {
    FrameAllocator::new(0x10_0000, frames)
}

#[test]
fn ept_map_then_translate_returns_hpa() {
    let mut alloc = allocator(64);
    let mut m = EptMapper::new(&mut alloc).unwrap();
    m.map(0x0, 0x5000, EptFlags::read_write(), &mut alloc).unwrap();
    assert_eq!(m.translate(0x0), Some(0x5000));
}

#[test]
fn ept_unmap_then_translate_returns_none() {
    let mut alloc = allocator(64);
    let mut m = EptMapper::new(&mut alloc).unwrap();
    m.map(0x2000, 0x7000, EptFlags::read_write_execute(), &mut alloc).unwrap();
    assert_eq!(m.translate(0x2000), Some(0x7000));
    m.unmap(0x2000).unwrap();
    assert_eq!(m.translate(0x2000), None);
}

#[test]
fn ept_unmap_never_mapped_is_noop_ok() {
    let mut alloc = allocator(64);
    let mut m = EptMapper::new(&mut alloc).unwrap();
    assert!(m.unmap(0x123000).is_ok());
    assert_eq!(m.translate(0x123000), None);
    // Unmapping twice is also fine.
    assert!(m.unmap(0x123000).is_ok());
}

#[test]
fn ept_map_two_addresses_do_not_interfere() {
    let mut alloc = allocator(64);
    let mut m = EptMapper::new(&mut alloc).unwrap();
    m.map(0x1000, 0xA000, EptFlags::read_write(), &mut alloc).unwrap();
    // A guest address in a completely different top-level slot.
    m.map(0x80_0000_0000, 0xB000, EptFlags::read_write(), &mut alloc).unwrap();
    assert_eq!(m.translate(0x1000), Some(0xA000));
    assert_eq!(m.translate(0x80_0000_0000), Some(0xB000));
    m.unmap(0x1000).unwrap();
    assert_eq!(m.translate(0x1000), None);
    assert_eq!(m.translate(0x80_0000_0000), Some(0xB000));
}

#[test]
fn ept_map_overwrites_existing_leaf() {
    let mut alloc = allocator(64);
    let mut m = EptMapper::new(&mut alloc).unwrap();
    m.map(0x4000, 0xC000, EptFlags::read_write(), &mut alloc).unwrap();
    m.map(0x4000, 0xD000, EptFlags::read_write(), &mut alloc).unwrap();
    assert_eq!(m.translate(0x4000), Some(0xD000));
}

#[test]
fn ept_map_fails_with_out_of_memory_when_exhausted() {
    // One frame: enough for the root only.
    let mut alloc = allocator(1);
    let mut m = EptMapper::new(&mut alloc).unwrap();
    let r = m.map(0x0, 0x5000, EptFlags::read_write(), &mut alloc);
    assert_eq!(r, Err(HypervisorError::OutOfMemory));
    assert_eq!(m.translate(0x0), None);
}

#[test]
fn ept_new_fails_with_out_of_memory_when_no_frames() {
    let mut alloc = allocator(0);
    assert!(EptMapper::new(&mut alloc).is_err());
}

#[test]
fn ept_pointer_encodes_root_and_walk_controls() {
    let mut alloc = allocator(4);
    let m = EptMapper::new(&mut alloc).unwrap();
    let ptr = m.ept_pointer();
    // Bits 0-2: write-back walks (6); bits 4-5: walk length minus one (3).
    assert_eq!(ptr & 0x7, 6);
    assert_eq!((ptr >> 3) & 0x3, 3);
    // Bits 12-51 hold the root address: the first allocated frame.
    assert_eq!(ptr & 0x000F_FFFF_FFFF_F000, 0x10_0000);
}

#[test]
fn ept_nonpresent_flags_leave_address_unmapped() {
    let mut alloc = allocator(64);
    let mut m = EptMapper::new(&mut alloc).unwrap();
    // No permission bit at all: the leaf entry is written but not present.
    m.map(0x8000, 0xE000, EptFlags::new(false, false, false), &mut alloc).unwrap();
    assert_eq!(m.translate(0x8000), None);
}

#[test]
fn npt_map_then_translate_returns_hpa() {
    let mut alloc = allocator(64);
    let mut m = NptMapper::new(&mut alloc).unwrap();
    m.map(0x3000, 0x9000, NptFlags::read_write(), &mut alloc).unwrap();
    assert_eq!(m.translate(0x3000), Some(0x9000));
    m.unmap(0x3000).unwrap();
    assert_eq!(m.translate(0x3000), None);
}

#[test]
fn npt_cr3_is_root_address() {
    let mut alloc = allocator(4);
    let m = NptMapper::new(&mut alloc).unwrap();
    assert_eq!(m.npt_cr3(), 0x10_0000);
}

#[test]
fn npt_map_range_maps_every_page() {
    let mut alloc = allocator(64);
    let mut m = NptMapper::new(&mut alloc).unwrap();
    m.map_range(0x10000, 0x40000, 0x3000, NptFlags::read_write(), &mut alloc).unwrap();
    assert_eq!(m.translate(0x10000), Some(0x40000));
    assert_eq!(m.translate(0x11000), Some(0x41000));
    assert_eq!(m.translate(0x12000), Some(0x42000));
    assert_eq!(m.translate(0x13000), None);
}

#[test]
fn npt_map_range_rounds_size_up() {
    let mut alloc = allocator(64);
    let mut m = NptMapper::new(&mut alloc).unwrap();
    // 5000 bytes cover two frames.
    m.map_range(0x0, 0x80000, 5000, NptFlags::read_write(), &mut alloc).unwrap();
    assert_eq!(m.translate(0x0), Some(0x80000));
    assert_eq!(m.translate(0x1000), Some(0x81000));
    assert_eq!(m.translate(0x2000), None);
}

#[test]
fn npt_violation_decodes_exitinfo_bits() {
    let v = NptViolation::from_exitinfo(0xDEAD000, 0b10011);
    assert_eq!(v.gpa, 0xDEAD000);
    assert!(v.present);
    assert!(v.write);
    assert!(!v.user);
    assert!(v.fetch);
    let v2 = NptViolation::from_exitinfo(0x1000, 0b00100);
    assert!(!v2.present && !v2.write && v2.user && !v2.fetch);
}

#[test]
fn frame_allocator_hands_out_sequential_frames() {
    let mut alloc = allocator(2);
    let f1 = alloc.allocate_frame().unwrap();
    let f2 = alloc.allocate_frame().unwrap();
    assert_eq!(f1.base(), 0x10_0000);
    assert_eq!(f2.base(), 0x10_1000);
    assert!(alloc.allocate_frame().is_none());
}

#[test]
fn ept_memory_type_encodings() {
    assert_eq!(EptMemoryType::Uncacheable.value(), 0);
    assert_eq!(EptMemoryType::WriteCombining.value(), 1);
    assert_eq!(EptMemoryType::WriteThrough.value(), 4);
    assert_eq!(EptMemoryType::WriteProtected.value(), 5);
    assert_eq!(EptMemoryType::WriteBack.value(), 6);
    assert_eq!(EptMemoryType::from_value(2), EptMemoryType::WriteBack);
}

#[test]
fn ept_destroy_counts_every_allocated_node() {
    let mut alloc = allocator(64);
    let mut m = EptMapper::new(&mut alloc).unwrap();
    // Root only.
    let fresh = EptMapper::new(&mut alloc).unwrap();
    assert_eq!(fresh.destroy(&mut alloc), 1);
    // One mapping allocates the three missing levels below the root.
    m.map(0x0, 0x5000, EptFlags::read_write(), &mut alloc).unwrap();
    // A second mapping in the same leaf table allocates nothing new.
    m.map(0x1000, 0x6000, EptFlags::read_write(), &mut alloc).unwrap();
    assert_eq!(m.destroy(&mut alloc), 4);
}

#[test]
fn npt_destroy_counts_every_allocated_node() {
    let mut alloc = allocator(64);
    let mut m = NptMapper::new(&mut alloc).unwrap();
    m.map(0x0, 0x5000, NptFlags::read_write(), &mut alloc).unwrap();
    // A distant address shares no intermediate node with the first.
    m.map(0x80_0000_0000, 0x6000, NptFlags::read_write(), &mut alloc).unwrap();
    assert_eq!(m.destroy(&mut alloc), 7);
}
