//! Virtual machine control structure: the Intel-format execution control
//! block.
//!
//! The hardware block is one 4 KiB frame accessed through dedicated
//! instructions against the processor's current VMCS. It is modeled here as
//! an owning handle over a typed field store: reads and writes go through
//! the field encodings, and an access against a handle that has not been
//! loaded as current fails with `InvalidParameter` as the instruction would.

use vstd::prelude::*;
use crate::HypervisorError;
use crate::memory::{Frame, FrameAllocator};
use crate::arch::x86_64::HostState;

verus! {

/// A field store: encoding/value pairs, later writes shadowing earlier ones.
pub open spec fn assoc_get(s: Seq<(u64, u64)>, key: u64) -> Option<u64>
    decreases s.len(),
{
    if s.len() == 0 {
        None
    } else if s[s.len() - 1].0 == key {
        Some(s[s.len() - 1].1)
    } else {
        assoc_get(s.drop_last(), key)
    }
}

proof fn lemma_assoc_get_push(s: Seq<(u64, u64)>, key: u64, val: u64, e: u64)
    ensures
        assoc_get(s.push((key, val)), e) == (if e == key {
            Some(val)
        } else {
            assoc_get(s, e)
        }),
{
    let t = s.push((key, val));
    assert(t.len() == s.len() + 1);
    assert(t[t.len() - 1] == (key, val));
    if e != key {
        assert(t.drop_last() =~= s);
    }
}

proof fn lemma_assoc_get_absent(s: Seq<(u64, u64)>, key: u64)
    requires
        forall|j: int| 0 <= j < s.len() ==> (#[trigger] s[j]).0 != key,
    ensures
        assoc_get(s, key) is None,
    decreases s.len(),
{
    if s.len() > 0 {
        assert(s.drop_last() =~= s.subrange(0, s.len() - 1));
        lemma_assoc_get_absent(s.drop_last(), key);
    }
}

proof fn lemma_assoc_get_found(s: Seq<(u64, u64)>, key: u64, i: int)
    requires
        0 <= i < s.len(),
        (#[trigger] s[i]).0 == key,
        forall|j: int| i < j < s.len() ==> (#[trigger] s[j]).0 != key,
    ensures
        assoc_get(s, key) == Some(s[i].1),
    decreases s.len(),
{
    if i < s.len() - 1 {
        lemma_assoc_get_found(s.drop_last(), key, i);
    }
}

/// The VMCS region: one frame, headed by the revision identifier the
/// processor reports, holding guest state, host state and controls.
pub struct Vmcs {
    /// The revision identifier written into the region's first word.
    pub revision_id: u32,
}

impl Vmcs {
    /// Allocate a VMCS region tagged with the given revision identifier
    /// (bit 31 cleared, as the region format requires), zeroed.
    pub fn new(revision_id: u32, alloc: &mut FrameAllocator) -> (r: crate::Result<VmcsHandle>)
        requires
            old(alloc).wf(),
        ensures
            final(alloc).wf(),
            old(alloc).spec_remaining() == 0 ==> r == crate::Result::<VmcsHandle>::Err(
                HypervisorError::OutOfMemory,
            ),
            old(alloc).spec_remaining() > 0 ==> {
                &&& r is Ok
                &&& r matches Ok(h) && h.spec_revision_id() == revision_id & 0x7FFF_FFFFu32
                    && !h.spec_active() && h.spec_phys_addr() == old(alloc).spec_next_base()
                    && (forall|e: u64| #[trigger] h.spec_read(e) == 0)
                &&& final(alloc).spec_remaining() == old(alloc).spec_remaining() - 1
            },
    {
        let frame = match alloc.allocate_frame() {
            Some(f) => f,
            None => {
                return Err(HypervisorError::OutOfMemory);
            },
        };
        let h = VmcsHandle {
            phys_addr: frame.base(),
            revision_id: revision_id & 0x7FFF_FFFF,
            active: false,
            fields: Vec::new(),
        };
        Ok(h)
    }
}

/// Handle to one VMCS region.
pub struct VmcsHandle {
    phys_addr: u64,
    revision_id: u32,
    active: bool,
    fields: Vec<(u64, u64)>,
}

impl VmcsHandle {
    /// The region's physical address.
    pub closed spec fn spec_phys_addr(self) -> u64 {
        self.phys_addr
    }

    /// The revision identifier the region was tagged with.
    pub closed spec fn spec_revision_id(self) -> u32 {
        self.revision_id
    }

    /// Whether this region is loaded as the current VMCS.
    pub closed spec fn spec_active(self) -> bool {
        self.active
    }

    /// The value stored under a field encoding; never-written fields read
    /// as zero, as the region is zeroed on allocation.
    pub closed spec fn spec_read(self, encoding: u64) -> u64 {
        match assoc_get(self.fields@, encoding) {
            Some(v) => v,
            None => 0,
        }
    }

    /// Get the revision identifier the region was tagged with.
    pub fn revision_id(&self) -> (r: u32)
        ensures
            r == self.spec_revision_id(),
    {
        self.revision_id
    }

    /// Get the region's physical address.
    pub fn phys_addr(&self) -> (r: u64)
        ensures
            r == self.spec_phys_addr(),
    {
        self.phys_addr
    }

    /// Release the region: return its backing frame to the allocator.
    pub fn free(self, alloc: &mut FrameAllocator)
        requires
            old(alloc).wf(),
        ensures
            final(alloc).wf(),
    {
        alloc.deallocate_frame(Frame { base: self.phys_addr });
    }

    /// Clear the region: it stops being the current VMCS and is ready for
    /// initialization. Stored state is written back, not lost.
    pub fn clear(&mut self) -> (r: crate::Result<()>)
        ensures
            r is Ok,
            !final(self).spec_active(),
            final(self).spec_phys_addr() == old(self).spec_phys_addr(),
            final(self).spec_revision_id() == old(self).spec_revision_id(),
            forall|e: u64| #[trigger] final(self).spec_read(e) == old(self).spec_read(e),
    {
        self.active = false;
        Ok(())
    }

    /// Load the region as the current VMCS: field accesses address it from
    /// now on.
    pub fn load(&mut self) -> (r: crate::Result<()>)
        ensures
            r is Ok,
            final(self).spec_active(),
            final(self).spec_phys_addr() == old(self).spec_phys_addr(),
            final(self).spec_revision_id() == old(self).spec_revision_id(),
            forall|e: u64| #[trigger] final(self).spec_read(e) == old(self).spec_read(e),
    {
        self.active = true;
        Ok(())
    }

    /// Read a field of the current VMCS; fails with `InvalidParameter` when
    /// this region is not current, as the hardware read instruction would.
    pub fn read(&self, field: VmcsField) -> (r: crate::Result<u64>)
        ensures
            self.spec_active() ==> r == crate::Result::<u64>::Ok(
                self.spec_read(field.spec_encoding()),
            ),
            !self.spec_active() ==> r == crate::Result::<u64>::Err(
                HypervisorError::InvalidParameter,
            ),
    {
        if !self.active {
            return Err(HypervisorError::InvalidParameter);
        }
        let key = field.encoding();
        let n = self.fields.len();
        let mut i = n;
        while i > 0
            invariant
                i <= n,
                n == self.fields@.len(),
                self.spec_active(),
                key == field.spec_encoding(),
                forall|j: int| i <= j < n ==> (#[trigger] self.fields@[j]).0 != key,
            decreases i,
        {
            i = i - 1;
            let pair = self.fields[i];
            if pair.0 == key {
                proof {
                    lemma_assoc_get_found(self.fields@, key, i as int);
                }
                return Ok(pair.1);
            }
        }
        proof {
            lemma_assoc_get_absent(self.fields@, key);
        }
        Ok(0)
    }

    /// Write a field of the current VMCS; fails with `InvalidParameter`
    /// when this region is not current, as the hardware write instruction
    /// would.
    pub fn write(&mut self, field: VmcsField, value: u64) -> (r: crate::Result<()>)
        ensures
            old(self).spec_active() ==> {
                &&& r is Ok
                &&& final(self).spec_active()
                &&& final(self).spec_phys_addr() == old(self).spec_phys_addr()
                &&& final(self).spec_revision_id() == old(self).spec_revision_id()
                &&& forall|e: u64| #[trigger] final(self).spec_read(e) == (if e
                    == field.spec_encoding() {
                    value
                } else {
                    old(self).spec_read(e)
                })
            },
            !old(self).spec_active() ==> r == crate::Result::<()>::Err(
                HypervisorError::InvalidParameter,
            ) && *final(self) == *old(self),
    {
        if !self.active {
            return Err(HypervisorError::InvalidParameter);
        }
        let key = field.encoding();
        self.fields.push((key, value));
        proof {
            assert forall|e: u64| #[trigger] final(self).spec_read(e) == (if e
                == field.spec_encoding() {
                value
            } else {
                old(self).spec_read(e)
            }) by {
                lemma_assoc_get_push(old(self).fields@, key, value, e);
            }
        }
        Ok(())
    }

    /// Initialize the current VMCS: snapshot the host's control registers,
    /// segment state and descriptor tables (the state restored on VM exit),
    /// set 64-bit entry and exit controls, and bind the second-level
    /// translation root.
    pub fn initialize(&mut self, host: &HostState, ept_pointer: u64) -> (r: crate::Result<()>)
        ensures
            r is Ok,
            final(self).spec_active(),
            final(self).spec_phys_addr() == old(self).spec_phys_addr(),
            final(self).spec_revision_id() == old(self).spec_revision_id(),
            final(self).spec_read(VmcsField::HostCr0.spec_encoding()) == host.cr0,
            final(self).spec_read(VmcsField::HostCr3.spec_encoding()) == host.cr3,
            final(self).spec_read(VmcsField::HostCr4.spec_encoding()) == host.cr4,
            final(self).spec_read(VmcsField::HostCsSelector.spec_encoding()) == host.cs as u64,
            final(self).spec_read(VmcsField::HostSsSelector.spec_encoding()) == host.ss as u64,
            final(self).spec_read(VmcsField::HostDsSelector.spec_encoding()) == host.ds as u64,
            final(self).spec_read(VmcsField::HostEsSelector.spec_encoding()) == host.es as u64,
            final(self).spec_read(VmcsField::HostFsSelector.spec_encoding()) == host.fs as u64,
            final(self).spec_read(VmcsField::HostGsSelector.spec_encoding()) == host.gs as u64,
            final(self).spec_read(VmcsField::HostTrSelector.spec_encoding()) == host.tr as u64,
            final(self).spec_read(VmcsField::HostFsBase.spec_encoding()) == host.fs_base,
            final(self).spec_read(VmcsField::HostGsBase.spec_encoding()) == host.gs_base,
            final(self).spec_read(VmcsField::HostTrBase.spec_encoding()) == 0,
            final(self).spec_read(VmcsField::HostGdtrBase.spec_encoding()) == host.gdtr_base,
            final(self).spec_read(VmcsField::HostIdtrBase.spec_encoding()) == host.idtr_base,
            final(self).spec_read(VmcsField::PinBasedVmExecControl.spec_encoding()) == 0,
            final(self).spec_read(VmcsField::PrimaryProcBasedVmExecControl.spec_encoding()) == 0,
            final(self).spec_read(VmcsField::VmExitControls.spec_encoding()) == 0x200,
            final(self).spec_read(VmcsField::VmEntryControls.spec_encoding()) == 0x200,
            final(self).spec_read(VmcsField::EptPointer.spec_encoding()) == ept_pointer,
    {
        let _ = self.clear();
        let _ = self.load();
        let _ = self.write(VmcsField::HostCr0, host.cr0);
        let _ = self.write(VmcsField::HostCr3, host.cr3);
        let _ = self.write(VmcsField::HostCr4, host.cr4);
        let _ = self.write(VmcsField::HostCsSelector, host.cs as u64);
        let _ = self.write(VmcsField::HostSsSelector, host.ss as u64);
        let _ = self.write(VmcsField::HostDsSelector, host.ds as u64);
        let _ = self.write(VmcsField::HostEsSelector, host.es as u64);
        let _ = self.write(VmcsField::HostFsSelector, host.fs as u64);
        let _ = self.write(VmcsField::HostGsSelector, host.gs as u64);
        let _ = self.write(VmcsField::HostTrSelector, host.tr as u64);
        let _ = self.write(VmcsField::HostFsBase, host.fs_base);
        let _ = self.write(VmcsField::HostGsBase, host.gs_base);
        let _ = self.write(VmcsField::HostTrBase, 0);
        let _ = self.write(VmcsField::HostGdtrBase, host.gdtr_base);
        let _ = self.write(VmcsField::HostIdtrBase, host.idtr_base);
        let _ = self.write(VmcsField::PinBasedVmExecControl, 0);
        let _ = self.write(VmcsField::PrimaryProcBasedVmExecControl, 0);
        let exit_controls: u64 = 1u64 << 9;
        let entry_controls: u64 = 1u64 << 9;
        proof {
            assert(1u64 << 9 == 0x200) by (bit_vector);
        }
        let _ = self.write(VmcsField::VmExitControls, exit_controls);
        let _ = self.write(VmcsField::VmEntryControls, entry_controls);
        let _ = self.write(VmcsField::EptPointer, ept_pointer);
        Ok(())
    }
}

/// VMCS field encodings, grouped by width and by guest, host and control
/// areas as the hardware defines them.
#[derive(Debug, Clone, Copy, PartialEq, Eq, Structural)]
pub enum VmcsField {
    VirtualProcessorId,
    PostedIntrNotifVector,
    EptpIndex,
    GuestEsSelector,
    GuestCsSelector,
    GuestSsSelector,
    GuestDsSelector,
    GuestFsSelector,
    GuestGsSelector,
    GuestLdtrSelector,
    GuestTrSelector,
    HostEsSelector,
    HostCsSelector,
    HostSsSelector,
    HostDsSelector,
    HostFsSelector,
    HostGsSelector,
    HostTrSelector,
    IobitMapA,
    IobitMapB,
    MsrBitmap,
    VmExitMsrStoreAddr,
    VmExitMsrLoadAddr,
    VmEntryMsrLoadAddr,
    ExecutiveVmcsPointer,
    TscOffset,
    VirtualApicPageAddr,
    ApicAccessAddr,
    EptPointer,
    VmcsLinkPointer,
    GuestIa32Debugctl,
    GuestIa32Pat,
    GuestIa32Efer,
    HostIa32Pat,
    HostIa32Efer,
    PinBasedVmExecControl,
    PrimaryProcBasedVmExecControl,
    ExceptionBitmap,
    PageFaultErrorCodeMask,
    PageFaultErrorCodeMatch,
    Cr3TargetCount,
    VmExitControls,
    VmExitMsrStoreCount,
    VmExitMsrLoadCount,
    VmEntryControls,
    VmEntryMsrLoadCount,
    VmEntryIntrInfoField,
    SecondaryProcBasedVmExecControl,
    VmExitReason,
    GuestEsLimit,
    GuestCsLimit,
    GuestSsLimit,
    GuestDsLimit,
    GuestFsLimit,
    GuestGsLimit,
    GuestLdtrLimit,
    GuestTrLimit,
    GuestGdtrLimit,
    GuestIdtrLimit,
    GuestEsArBytes,
    GuestCsArBytes,
    GuestSsArBytes,
    GuestDsArBytes,
    GuestFsArBytes,
    GuestGsArBytes,
    GuestLdtrArBytes,
    GuestTrArBytes,
    GuestInterruptibilityInfo,
    GuestActivityState,
    GuestSysenterCs,
    Cr0GuestHostMask,
    Cr4GuestHostMask,
    Cr0ReadShadow,
    Cr4ReadShadow,
    GuestCr0,
    GuestCr3,
    GuestCr4,
    GuestEsBase,
    GuestCsBase,
    GuestSsBase,
    GuestDsBase,
    GuestFsBase,
    GuestGsBase,
    GuestLdtrBase,
    GuestTrBase,
    GuestGdtrBase,
    GuestIdtrBase,
    GuestDr7,
    GuestRsp,
    GuestRip,
    GuestRflags,
    GuestPendingDbgExceptions,
    GuestSysenterEsp,
    GuestSysenterEip,
    HostCr0,
    HostCr3,
    HostCr4,
    HostFsBase,
    HostGsBase,
    HostTrBase,
    HostGdtrBase,
    HostIdtrBase,
    HostSysenterEsp,
    HostSysenterEip,
    HostRsp,
    HostRip,
}

impl VmcsField {
    /// The architectural encoding of this field.
    pub open spec fn spec_encoding(self) -> u64 {
        match self {
            VmcsField::VirtualProcessorId => 0x0000,
            VmcsField::PostedIntrNotifVector => 0x0002,
            VmcsField::EptpIndex => 0x0004,
            VmcsField::GuestEsSelector => 0x0800,
            VmcsField::GuestCsSelector => 0x0802,
            VmcsField::GuestSsSelector => 0x0804,
            VmcsField::GuestDsSelector => 0x0806,
            VmcsField::GuestFsSelector => 0x0808,
            VmcsField::GuestGsSelector => 0x080A,
            VmcsField::GuestLdtrSelector => 0x080C,
            VmcsField::GuestTrSelector => 0x080E,
            VmcsField::HostEsSelector => 0x0C00,
            VmcsField::HostCsSelector => 0x0C02,
            VmcsField::HostSsSelector => 0x0C04,
            VmcsField::HostDsSelector => 0x0C06,
            VmcsField::HostFsSelector => 0x0C08,
            VmcsField::HostGsSelector => 0x0C0A,
            VmcsField::HostTrSelector => 0x0C0C,
            VmcsField::IobitMapA => 0x2000,
            VmcsField::IobitMapB => 0x2002,
            VmcsField::MsrBitmap => 0x2004,
            VmcsField::VmExitMsrStoreAddr => 0x2006,
            VmcsField::VmExitMsrLoadAddr => 0x2008,
            VmcsField::VmEntryMsrLoadAddr => 0x200A,
            VmcsField::ExecutiveVmcsPointer => 0x200C,
            VmcsField::TscOffset => 0x2010,
            VmcsField::VirtualApicPageAddr => 0x2012,
            VmcsField::ApicAccessAddr => 0x2014,
            VmcsField::EptPointer => 0x201A,
            VmcsField::VmcsLinkPointer => 0x2800,
            VmcsField::GuestIa32Debugctl => 0x2802,
            VmcsField::GuestIa32Pat => 0x2804,
            VmcsField::GuestIa32Efer => 0x2806,
            VmcsField::HostIa32Pat => 0x2C00,
            VmcsField::HostIa32Efer => 0x2C02,
            VmcsField::PinBasedVmExecControl => 0x4000,
            VmcsField::PrimaryProcBasedVmExecControl => 0x4002,
            VmcsField::ExceptionBitmap => 0x4004,
            VmcsField::PageFaultErrorCodeMask => 0x4006,
            VmcsField::PageFaultErrorCodeMatch => 0x4008,
            VmcsField::Cr3TargetCount => 0x400A,
            VmcsField::VmExitControls => 0x400C,
            VmcsField::VmExitMsrStoreCount => 0x400E,
            VmcsField::VmExitMsrLoadCount => 0x4010,
            VmcsField::VmEntryControls => 0x4012,
            VmcsField::VmEntryMsrLoadCount => 0x4014,
            VmcsField::VmEntryIntrInfoField => 0x4016,
            VmcsField::SecondaryProcBasedVmExecControl => 0x401E,
            VmcsField::VmExitReason => 0x4402,
            VmcsField::GuestEsLimit => 0x4800,
            VmcsField::GuestCsLimit => 0x4802,
            VmcsField::GuestSsLimit => 0x4804,
            VmcsField::GuestDsLimit => 0x4806,
            VmcsField::GuestFsLimit => 0x4808,
            VmcsField::GuestGsLimit => 0x480A,
            VmcsField::GuestLdtrLimit => 0x480C,
            VmcsField::GuestTrLimit => 0x480E,
            VmcsField::GuestGdtrLimit => 0x4810,
            VmcsField::GuestIdtrLimit => 0x4812,
            VmcsField::GuestEsArBytes => 0x4814,
            VmcsField::GuestCsArBytes => 0x4816,
            VmcsField::GuestSsArBytes => 0x4818,
            VmcsField::GuestDsArBytes => 0x481A,
            VmcsField::GuestFsArBytes => 0x481C,
            VmcsField::GuestGsArBytes => 0x481E,
            VmcsField::GuestLdtrArBytes => 0x4820,
            VmcsField::GuestTrArBytes => 0x4822,
            VmcsField::GuestInterruptibilityInfo => 0x4824,
            VmcsField::GuestActivityState => 0x4826,
            VmcsField::GuestSysenterCs => 0x482A,
            VmcsField::Cr0GuestHostMask => 0x6000,
            VmcsField::Cr4GuestHostMask => 0x6002,
            VmcsField::Cr0ReadShadow => 0x6004,
            VmcsField::Cr4ReadShadow => 0x6006,
            VmcsField::GuestCr0 => 0x6800,
            VmcsField::GuestCr3 => 0x6802,
            VmcsField::GuestCr4 => 0x6804,
            VmcsField::GuestEsBase => 0x6806,
            VmcsField::GuestCsBase => 0x6808,
            VmcsField::GuestSsBase => 0x680A,
            VmcsField::GuestDsBase => 0x680C,
            VmcsField::GuestFsBase => 0x680E,
            VmcsField::GuestGsBase => 0x6810,
            VmcsField::GuestLdtrBase => 0x6812,
            VmcsField::GuestTrBase => 0x6814,
            VmcsField::GuestGdtrBase => 0x6816,
            VmcsField::GuestIdtrBase => 0x6818,
            VmcsField::GuestDr7 => 0x681A,
            VmcsField::GuestRsp => 0x681C,
            VmcsField::GuestRip => 0x681E,
            VmcsField::GuestRflags => 0x6820,
            VmcsField::GuestPendingDbgExceptions => 0x6822,
            VmcsField::GuestSysenterEsp => 0x6824,
            VmcsField::GuestSysenterEip => 0x6826,
            VmcsField::HostCr0 => 0x6C00,
            VmcsField::HostCr3 => 0x6C02,
            VmcsField::HostCr4 => 0x6C04,
            VmcsField::HostFsBase => 0x6C06,
            VmcsField::HostGsBase => 0x6C08,
            VmcsField::HostTrBase => 0x6C0A,
            VmcsField::HostGdtrBase => 0x6C0C,
            VmcsField::HostIdtrBase => 0x6C0E,
            VmcsField::HostSysenterEsp => 0x6C10,
            VmcsField::HostSysenterEip => 0x6C12,
            VmcsField::HostRsp => 0x6C14,
            VmcsField::HostRip => 0x6C16,
        }
    }

    /// The architectural encoding of this field.
    pub fn encoding(self) -> (r: u64)
        ensures
            r == self.spec_encoding(),
    {
        match self {
            VmcsField::VirtualProcessorId => 0x0000,
            VmcsField::PostedIntrNotifVector => 0x0002,
            VmcsField::EptpIndex => 0x0004,
            VmcsField::GuestEsSelector => 0x0800,
            VmcsField::GuestCsSelector => 0x0802,
            VmcsField::GuestSsSelector => 0x0804,
            VmcsField::GuestDsSelector => 0x0806,
            VmcsField::GuestFsSelector => 0x0808,
            VmcsField::GuestGsSelector => 0x080A,
            VmcsField::GuestLdtrSelector => 0x080C,
            VmcsField::GuestTrSelector => 0x080E,
            VmcsField::HostEsSelector => 0x0C00,
            VmcsField::HostCsSelector => 0x0C02,
            VmcsField::HostSsSelector => 0x0C04,
            VmcsField::HostDsSelector => 0x0C06,
            VmcsField::HostFsSelector => 0x0C08,
            VmcsField::HostGsSelector => 0x0C0A,
            VmcsField::HostTrSelector => 0x0C0C,
            VmcsField::IobitMapA => 0x2000,
            VmcsField::IobitMapB => 0x2002,
            VmcsField::MsrBitmap => 0x2004,
            VmcsField::VmExitMsrStoreAddr => 0x2006,
            VmcsField::VmExitMsrLoadAddr => 0x2008,
            VmcsField::VmEntryMsrLoadAddr => 0x200A,
            VmcsField::ExecutiveVmcsPointer => 0x200C,
            VmcsField::TscOffset => 0x2010,
            VmcsField::VirtualApicPageAddr => 0x2012,
            VmcsField::ApicAccessAddr => 0x2014,
            VmcsField::EptPointer => 0x201A,
            VmcsField::VmcsLinkPointer => 0x2800,
            VmcsField::GuestIa32Debugctl => 0x2802,
            VmcsField::GuestIa32Pat => 0x2804,
            VmcsField::GuestIa32Efer => 0x2806,
            VmcsField::HostIa32Pat => 0x2C00,
            VmcsField::HostIa32Efer => 0x2C02,
            VmcsField::PinBasedVmExecControl => 0x4000,
            VmcsField::PrimaryProcBasedVmExecControl => 0x4002,
            VmcsField::ExceptionBitmap => 0x4004,
            VmcsField::PageFaultErrorCodeMask => 0x4006,
            VmcsField::PageFaultErrorCodeMatch => 0x4008,
            VmcsField::Cr3TargetCount => 0x400A,
            VmcsField::VmExitControls => 0x400C,
            VmcsField::VmExitMsrStoreCount => 0x400E,
            VmcsField::VmExitMsrLoadCount => 0x4010,
            VmcsField::VmEntryControls => 0x4012,
            VmcsField::VmEntryMsrLoadCount => 0x4014,
            VmcsField::VmEntryIntrInfoField => 0x4016,
            VmcsField::SecondaryProcBasedVmExecControl => 0x401E,
            VmcsField::VmExitReason => 0x4402,
            VmcsField::GuestEsLimit => 0x4800,
            VmcsField::GuestCsLimit => 0x4802,
            VmcsField::GuestSsLimit => 0x4804,
            VmcsField::GuestDsLimit => 0x4806,
            VmcsField::GuestFsLimit => 0x4808,
            VmcsField::GuestGsLimit => 0x480A,
            VmcsField::GuestLdtrLimit => 0x480C,
            VmcsField::GuestTrLimit => 0x480E,
            VmcsField::GuestGdtrLimit => 0x4810,
            VmcsField::GuestIdtrLimit => 0x4812,
            VmcsField::GuestEsArBytes => 0x4814,
            VmcsField::GuestCsArBytes => 0x4816,
            VmcsField::GuestSsArBytes => 0x4818,
            VmcsField::GuestDsArBytes => 0x481A,
            VmcsField::GuestFsArBytes => 0x481C,
            VmcsField::GuestGsArBytes => 0x481E,
            VmcsField::GuestLdtrArBytes => 0x4820,
            VmcsField::GuestTrArBytes => 0x4822,
            VmcsField::GuestInterruptibilityInfo => 0x4824,
            VmcsField::GuestActivityState => 0x4826,
            VmcsField::GuestSysenterCs => 0x482A,
            VmcsField::Cr0GuestHostMask => 0x6000,
            VmcsField::Cr4GuestHostMask => 0x6002,
            VmcsField::Cr0ReadShadow => 0x6004,
            VmcsField::Cr4ReadShadow => 0x6006,
            VmcsField::GuestCr0 => 0x6800,
            VmcsField::GuestCr3 => 0x6802,
            VmcsField::GuestCr4 => 0x6804,
            VmcsField::GuestEsBase => 0x6806,
            VmcsField::GuestCsBase => 0x6808,
            VmcsField::GuestSsBase => 0x680A,
            VmcsField::GuestDsBase => 0x680C,
            VmcsField::GuestFsBase => 0x680E,
            VmcsField::GuestGsBase => 0x6810,
            VmcsField::GuestLdtrBase => 0x6812,
            VmcsField::GuestTrBase => 0x6814,
            VmcsField::GuestGdtrBase => 0x6816,
            VmcsField::GuestIdtrBase => 0x6818,
            VmcsField::GuestDr7 => 0x681A,
            VmcsField::GuestRsp => 0x681C,
            VmcsField::GuestRip => 0x681E,
            VmcsField::GuestRflags => 0x6820,
            VmcsField::GuestPendingDbgExceptions => 0x6822,
            VmcsField::GuestSysenterEsp => 0x6824,
            VmcsField::GuestSysenterEip => 0x6826,
            VmcsField::HostCr0 => 0x6C00,
            VmcsField::HostCr3 => 0x6C02,
            VmcsField::HostCr4 => 0x6C04,
            VmcsField::HostFsBase => 0x6C06,
            VmcsField::HostGsBase => 0x6C08,
            VmcsField::HostTrBase => 0x6C0A,
            VmcsField::HostGdtrBase => 0x6C0C,
            VmcsField::HostIdtrBase => 0x6C0E,
            VmcsField::HostSysenterEsp => 0x6C10,
            VmcsField::HostSysenterEip => 0x6C12,
            VmcsField::HostRsp => 0x6C14,
            VmcsField::HostRip => 0x6C16,
        }
    }
}

} // verus!
