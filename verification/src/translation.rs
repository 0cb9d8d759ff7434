//! Second-level address translation engine.
//!
//! One generic four-level radix page table maps guest physical addresses to
//! host physical frames. Each node is one physical frame holding 512 entries;
//! an entry encodes the child or leaf physical address in bits 12-51 plus
//! permission bits whose layout the table format (vendor backend) fixes.
//! Intermediate entries always carry full permission so page walks can
//! proceed; only leaf entries encode real guest permissions.
//!
//! Nodes are created lazily on the first map that touches their range, and
//! are not reclaimed on unmap. A map that runs out of frames mid-walk leaves
//! the tables allocated so far in place and fails with `OutOfMemory`.

use vstd::prelude::*;
use crate::HypervisorError;
use crate::memory::{Frame, FrameAllocator, PHYS_LIMIT};

verus! {

/// Entry layout of a nested page table: the two supported hardware formats
/// differ in how an entry states its permissions.
#[derive(Debug, Clone, Copy, PartialEq, Eq, Structural)]
pub enum TableFormat {
    /// Read/write/execute permission bits in bits 0-2; an entry is present
    /// when any of them is set.
    Ept,
    /// Standard long-mode layout: present bit 0, writable bit 1, user bit 2;
    /// an entry is present when bit 0 is set.
    Npt,
}

/// Bits 12-51 of an entry hold the child or leaf physical address.
pub const ENTRY_ADDR_MASK: u64 = 0x000F_FFFF_FFFF_F000;

/// Permission bits of an intermediate entry: full permission in either
/// format, so the hardware walk can always continue past it.
pub const INTERMEDIATE_PERMS: u64 = 7;

/// One past the largest guest physical address the four-level walk covers
/// (bits 12-47 index the walk).
pub const GPA_LIMIT: u64 = 0x1_0000_0000_0000;

/// Whether an entry is present under the given format.
pub open spec fn entry_present(format: TableFormat, bits: u64) -> bool {
    match format {
        TableFormat::Ept => bits & 7 != 0,
        TableFormat::Npt => bits & 1 != 0,
    }
}

/// Index into the level-4 (root) table: bits 39-47.
pub open spec fn idx4(gpa: u64) -> int {
    ((gpa >> 39) & 0x1ff) as int
}

/// Index into the level-3 table: bits 30-38.
pub open spec fn idx3(gpa: u64) -> int {
    ((gpa >> 30) & 0x1ff) as int
}

/// Index into the level-2 table: bits 21-29.
pub open spec fn idx2(gpa: u64) -> int {
    ((gpa >> 21) & 0x1ff) as int
}

/// Index into the level-1 (leaf) table: bits 12-20.
pub open spec fn idx1(gpa: u64) -> int {
    ((gpa >> 12) & 0x1ff) as int
}

/// Two guest addresses select the same leaf slot.
pub open spec fn same_slot(a: u64, b: u64) -> bool {
    idx4(a) == idx4(b) && idx3(a) == idx3(b) && idx2(a) == idx2(b) && idx1(a) == idx1(b)
}

/// Frame-aligned addresses below `GPA_LIMIT` select the same leaf slot only
/// when they are equal: the walk indices and the alignment recover every bit.
pub proof fn lemma_same_slot_is_equality(a: u64, b: u64)
    requires
        a % 4096 == 0,
        b % 4096 == 0,
        a < GPA_LIMIT,
        b < GPA_LIMIT,
        same_slot(a, b),
    ensures
        a == b,
{
    assert(a == b) by (bit_vector)
        requires
            a % 4096 == 0,
            b % 4096 == 0,
            a < 0x1_0000_0000_0000,
            b < 0x1_0000_0000_0000,
            ((a >> 39) & 0x1ff) == ((b >> 39) & 0x1ff),
            ((a >> 30) & 0x1ff) == ((b >> 30) & 0x1ff),
            ((a >> 21) & 0x1ff) == ((b >> 21) & 0x1ff),
            ((a >> 12) & 0x1ff) == ((b >> 12) & 0x1ff),
    ;
}

/// The value written into a leaf slot for host frame `hpa` with packed
/// permission bits `perms`.
pub open spec fn leaf_entry_spec(hpa: u64, perms: u64) -> u64 {
    (hpa & ENTRY_ADDR_MASK) | perms
}

/// What a lookup returns once the walk reaches a leaf slot holding `bits`.
pub open spec fn leaf_result(format: TableFormat, bits: u64) -> Option<u64> {
    if entry_present(format, bits) {
        Some(bits)
    } else {
        None
    }
}

/// A node address is one physical frame inside the supported address space.
pub open spec fn table_addr_ok(addr: u64) -> bool {
    addr % 4096 == 0 && addr < PHYS_LIMIT
}

/// An intermediate entry holds its child's frame address and full permission.
pub open spec fn inter_entry_ok(bits: u64, child_addr: u64) -> bool {
    bits == child_addr | INTERMEDIATE_PERMS
}

proof fn lemma_inter_entry_present(format: TableFormat, addr: u64)
    ensures
        entry_present(format, addr | INTERMEDIATE_PERMS),
{
    assert((addr | 7u64) & 7 != 0) by (bit_vector);
    assert((addr | 7u64) & 1 != 0) by (bit_vector);
}

proof fn lemma_zero_not_present(format: TableFormat)
    ensures
        !entry_present(format, 0),
{
    assert(0u64 & 7 == 0) by (bit_vector);
    assert(0u64 & 1 == 0) by (bit_vector);
}

/// Level-1 node: 512 leaf entries backed by the frame at `addr`.
#[verifier::ext_equal]
pub struct LeafTable {
    pub addr: u64,
    pub entries: Vec<u64>,
}

/// Level-2 node: 512 entries, each optionally pointing to a level-1 node.
#[verifier::ext_equal]
pub struct PageDirectory {
    pub addr: u64,
    pub entries: Vec<u64>,
    pub children: Vec<Option<LeafTable>>,
}

/// Level-3 node: 512 entries, each optionally pointing to a level-2 node.
#[verifier::ext_equal]
pub struct PageDirPointer {
    pub addr: u64,
    pub entries: Vec<u64>,
    pub children: Vec<Option<PageDirectory>>,
}

/// Level-4 (root) node: 512 entries, each optionally pointing to a level-3
/// node.
#[verifier::ext_equal]
pub struct RootTable {
    pub addr: u64,
    pub entries: Vec<u64>,
    pub children: Vec<Option<PageDirPointer>>,
}

pub open spec fn leaf_wf(t: LeafTable) -> bool {
    &&& t.entries@.len() == 512
    &&& table_addr_ok(t.addr)
}

pub open spec fn dir_wf(d: PageDirectory, format: TableFormat) -> bool {
    &&& d.entries@.len() == 512
    &&& d.children@.len() == 512
    &&& table_addr_ok(d.addr)
    &&& forall|i: int| 0 <= i < 512
        ==> (entry_present(format, #[trigger] d.entries@[i]) <==> d.children@[i] is Some)
    &&& forall|i: int| 0 <= i < 512 ==> match #[trigger] d.children@[i] {
            Some(c) => leaf_wf(c) && inter_entry_ok(d.entries@[i], c.addr),
            None => true,
        }
}

pub open spec fn pdp_wf(p: PageDirPointer, format: TableFormat) -> bool {
    &&& p.entries@.len() == 512
    &&& p.children@.len() == 512
    &&& table_addr_ok(p.addr)
    &&& forall|i: int| 0 <= i < 512
        ==> (entry_present(format, #[trigger] p.entries@[i]) <==> p.children@[i] is Some)
    &&& forall|i: int| 0 <= i < 512 ==> match #[trigger] p.children@[i] {
            Some(c) => dir_wf(c, format) && inter_entry_ok(p.entries@[i], c.addr),
            None => true,
        }
}

pub open spec fn root_wf(r: RootTable, format: TableFormat) -> bool {
    &&& r.entries@.len() == 512
    &&& r.children@.len() == 512
    &&& table_addr_ok(r.addr)
    &&& forall|i: int| 0 <= i < 512
        ==> (entry_present(format, #[trigger] r.entries@[i]) <==> r.children@[i] is Some)
    &&& forall|i: int| 0 <= i < 512 ==> match #[trigger] r.children@[i] {
            Some(c) => pdp_wf(c, format) && inter_entry_ok(r.entries@[i], c.addr),
            None => true,
        }
}

pub open spec fn leaf_lookup(t: LeafTable, format: TableFormat, i1: int) -> Option<u64> {
    leaf_result(format, t.entries@[i1])
}

pub open spec fn dir_lookup(d: PageDirectory, format: TableFormat, i2: int, i1: int) -> Option<
    u64,
> {
    match d.children@[i2] {
        Some(c) => leaf_lookup(c, format, i1),
        None => None,
    }
}

pub open spec fn pdp_lookup(
    p: PageDirPointer,
    format: TableFormat,
    i3: int,
    i2: int,
    i1: int,
) -> Option<u64> {
    match p.children@[i3] {
        Some(c) => dir_lookup(c, format, i2, i1),
        None => None,
    }
}

pub open spec fn root_lookup(
    r: RootTable,
    format: TableFormat,
    i4: int,
    i3: int,
    i2: int,
    i1: int,
) -> Option<u64> {
    match r.children@[i4] {
        Some(c) => pdp_lookup(c, format, i3, i2, i1),
        None => None,
    }
}

/// How many nodes the walk to this slot still has to create.
pub open spec fn dir_missing(d: PageDirectory, i2: int) -> int {
    if d.children@[i2] is Some {
        0
    } else {
        1
    }
}

pub open spec fn pdp_missing(p: PageDirPointer, i3: int, i2: int) -> int {
    match p.children@[i3] {
        Some(c) => dir_missing(c, i2),
        None => 2,
    }
}

pub open spec fn root_missing(r: RootTable, i4: int, i3: int, i2: int) -> int {
    match r.children@[i4] {
        Some(c) => pdp_missing(c, i3, i2),
        None => 3,
    }
}

/// How many nodes the first `n` child slots of a level-2 node hold.
pub open spec fn dir_children_count(s: Seq<Option<LeafTable>>, n: int) -> int
    decreases n,
{
    if n <= 0 {
        0
    } else {
        dir_children_count(s, n - 1) + (if s[n - 1] is Some {
            1int
        } else {
            0int
        })
    }
}

/// How many nodes a level-2 node and everything below it hold.
pub open spec fn dir_node_count(d: PageDirectory) -> int {
    1 + dir_children_count(d.children@, 512)
}

/// How many nodes the first `n` child slots of a level-3 node hold.
pub open spec fn pdp_children_count(s: Seq<Option<PageDirectory>>, n: int) -> int
    decreases n,
{
    if n <= 0 {
        0
    } else {
        pdp_children_count(s, n - 1) + (match s[n - 1] {
            Some(d) => dir_node_count(d),
            None => 0,
        })
    }
}

/// How many nodes a level-3 node and everything below it hold.
pub open spec fn pdp_node_count(p: PageDirPointer) -> int {
    1 + pdp_children_count(p.children@, 512)
}

/// How many nodes the first `n` child slots of the root hold.
pub open spec fn root_children_count(s: Seq<Option<PageDirPointer>>, n: int) -> int
    decreases n,
{
    if n <= 0 {
        0
    } else {
        root_children_count(s, n - 1) + (match s[n - 1] {
            Some(p) => pdp_node_count(p),
            None => 0,
        })
    }
}

/// How many nodes the whole table holds, root included.
pub open spec fn root_node_count(r: RootTable) -> int {
    1 + root_children_count(r.children@, 512)
}

proof fn lemma_dir_children_count_bounds(s: Seq<Option<LeafTable>>, n: int)
    requires
        0 <= n,
    ensures
        0 <= dir_children_count(s, n) <= n,
    decreases n,
{
    if n > 0 {
        lemma_dir_children_count_bounds(s, n - 1);
    }
}

proof fn lemma_pdp_children_count_bounds(s: Seq<Option<PageDirectory>>, n: int)
    requires
        0 <= n,
    ensures
        0 <= pdp_children_count(s, n) <= n * 513,
    decreases n,
{
    if n > 0 {
        lemma_pdp_children_count_bounds(s, n - 1);
        match s[n - 1] {
            Some(d) => {
                lemma_dir_children_count_bounds(d.children@, 512);
            },
            None => {},
        }
        assert((n - 1) * 513 + 513 == n * 513) by (nonlinear_arith);
    } else {
        assert(n * 513 == 0) by (nonlinear_arith)
            requires n == 0,
        ;
    }
}

proof fn lemma_root_children_count_bounds(s: Seq<Option<PageDirPointer>>, n: int)
    requires
        0 <= n,
    ensures
        0 <= root_children_count(s, n) <= n * 513 * 513,
    decreases n,
{
    if n > 0 {
        lemma_root_children_count_bounds(s, n - 1);
        match s[n - 1] {
            Some(p) => {
                lemma_pdp_children_count_bounds(p.children@, 512);
                assert(1 + 512 * 513 <= 513 * 513) by (nonlinear_arith);
            },
            None => {},
        }
        assert((n - 1) * 513 * 513 + 513 * 513 == n * 513 * 513) by (nonlinear_arith);
    } else {
        assert(n * 513 * 513 == 0) by (nonlinear_arith)
            requires n == 0,
        ;
    }
}

/// Return a level-2 node's frames to the allocator: its leaf tables, then
/// the node itself.
fn dir_destroy(d: PageDirectory, alloc: &mut FrameAllocator) -> (freed: u64)
    requires
        d.children@.len() == 512,
        old(alloc).wf(),
    ensures
        final(alloc).wf(),
        *final(alloc) == *old(alloc),
        freed == dir_node_count(d),
{
    proof {
        lemma_dir_children_count_bounds(d.children@, 512);
    }
    let mut freed: u64 = 0;
    let n = d.children.len();
    let mut i: usize = 0;
    while i < n
        invariant
            i <= n,
            n == 512,
            n == d.children@.len(),
            alloc.wf(),
            *alloc == *old(alloc),
            freed == dir_children_count(d.children@, i as int),
            freed <= i,
        decreases n - i,
    {
        match &d.children[i] {
            Some(c) => {
                alloc.deallocate_frame(Frame { base: c.addr });
                freed = freed + 1;
            },
            None => {},
        }
        i = i + 1;
    }
    alloc.deallocate_frame(Frame { base: d.addr });
    freed + 1
}

/// Return a level-3 node's frames to the allocator: everything below it,
/// then the node itself.
fn pdp_destroy(p: PageDirPointer, alloc: &mut FrameAllocator) -> (freed: u64)
    requires
        pdp_wf(p, TableFormat::Ept) || pdp_wf(p, TableFormat::Npt),
        old(alloc).wf(),
    ensures
        final(alloc).wf(),
        *final(alloc) == *old(alloc),
        freed == pdp_node_count(p),
{
    proof {
        lemma_pdp_children_count_bounds(p.children@, 512);
    }
    let ghost pview = p.children@;
    let mut freed: u64 = 0;
    let mut children = p.children;
    let n = children.len();
    let mut i: usize = 0;
    while i < n
        invariant
            i <= n,
            n == 512,
            pview.len() == 512,
            children@ =~= pview.skip(i as int),
            alloc.wf(),
            *alloc == *old(alloc),
            freed == pdp_children_count(pview, i as int),
            0 <= freed <= i * 513,
            forall|j: int| 0 <= j < 512 ==> match #[trigger] pview[j] {
                Some(d) => d.children@.len() == 512,
                None => true,
            },
        decreases n - i,
    {
        let child = children.remove(0);
        proof {
            assert(pview.skip(i as int)[0] == pview[i as int]);
            assert(pview.skip(i as int).remove(0) =~= pview.skip(i + 1));
            lemma_pdp_children_count_bounds(pview, i as int);
            match pview[i as int] {
                Some(d) => {
                    lemma_dir_children_count_bounds(d.children@, 512);
                },
                None => {},
            }
            assert(i * 513 + 513 == (i + 1) * 513) by (nonlinear_arith);
            assert((i + 1) * 513 <= 512 * 513) by (nonlinear_arith)
                requires 0 <= i < 512,
            ;
        }
        match child {
            Some(d) => {
                let k = dir_destroy(d, alloc);
                freed = freed + k;
            },
            None => {},
        }
        i = i + 1;
    }
    alloc.deallocate_frame(Frame { base: p.addr });
    freed + 1
}

/// 512 zeroed entries, as a freshly allocated node frame holds.
fn zeroed_entries() -> (v: Vec<u64>)
    ensures
        v@.len() == 512,
        forall|i: int| 0 <= i < 512 ==> v@[i] == 0u64,
{
    let mut v: Vec<u64> = Vec::new();
    let mut i: usize = 0;
    while i < 512
        invariant
            i <= 512,
            v@.len() == i,
            forall|j: int| 0 <= j < i ==> v@[j] == 0u64,
        decreases 512 - i,
    {
        v.push(0);
        i = i + 1;
    }
    v
}

/// 512 empty child slots.
fn empty_slots<T>() -> (v: Vec<Option<T>>)
    ensures
        v@.len() == 512,
        forall|i: int| 0 <= i < 512 ==> v@[i] is None,
{
    let mut v: Vec<Option<T>> = Vec::new();
    let mut i: usize = 0;
    while i < 512
        invariant
            i <= 512,
            v@.len() == i,
            forall|j: int| 0 <= j < i ==> v@[j] is None,
        decreases 512 - i,
    {
        v.push(None);
        i = i + 1;
    }
    v
}

fn new_leaf_table(addr: u64) -> (t: LeafTable)
    requires
        table_addr_ok(addr),
    ensures
        leaf_wf(t),
        t.addr == addr,
        forall|i1: int| 0 <= i1 < 512 ==> t.entries@[i1] == 0u64,
{
    let t = LeafTable { addr, entries: zeroed_entries() };
    proof {
        lemma_zero_not_present(TableFormat::Ept);
        lemma_zero_not_present(TableFormat::Npt);
    }
    t
}

fn new_page_directory(addr: u64) -> (d: PageDirectory)
    requires
        table_addr_ok(addr),
    ensures
        forall|format: TableFormat| dir_wf(d, format),
        d.addr == addr,
        forall|i2: int| 0 <= i2 < 512 ==> d.entries@[i2] == 0u64,
        forall|i2: int| 0 <= i2 < 512 ==> d.children@[i2] is None,
{
    let d = PageDirectory { addr, entries: zeroed_entries(), children: empty_slots() };
    proof {
        lemma_zero_not_present(TableFormat::Ept);
        lemma_zero_not_present(TableFormat::Npt);
    }
    d
}

fn new_page_dir_pointer(addr: u64) -> (p: PageDirPointer)
    requires
        table_addr_ok(addr),
    ensures
        forall|format: TableFormat| pdp_wf(p, format),
        p.addr == addr,
        forall|i3: int| 0 <= i3 < 512 ==> p.entries@[i3] == 0u64,
        forall|i3: int| 0 <= i3 < 512 ==> p.children@[i3] is None,
{
    let p = PageDirPointer { addr, entries: zeroed_entries(), children: empty_slots() };
    proof {
        lemma_zero_not_present(TableFormat::Ept);
        lemma_zero_not_present(TableFormat::Npt);
    }
    p
}

fn new_root_table(addr: u64) -> (r: RootTable)
    requires
        table_addr_ok(addr),
    ensures
        forall|format: TableFormat| root_wf(r, format),
        r.addr == addr,
        forall|i4: int| 0 <= i4 < 512 ==> r.entries@[i4] == 0u64,
        forall|i4: int| 0 <= i4 < 512 ==> r.children@[i4] is None,
{
    let r = RootTable { addr, entries: zeroed_entries(), children: empty_slots() };
    proof {
        lemma_zero_not_present(TableFormat::Ept);
        lemma_zero_not_present(TableFormat::Npt);
    }
    r
}

/// Whether an entry is present under the given format.
fn entry_present_exec(format: TableFormat, bits: u64) -> (r: bool)
    ensures
        r == entry_present(format, bits),
{
    match format {
        TableFormat::Ept => bits & 7 != 0,
        TableFormat::Npt => bits & 1 != 0,
    }
}

/// The four walk indices of a guest physical address, each below 512.
fn walk_indices(gpa: u64) -> (r: (usize, usize, usize, usize))
    ensures
        r.0 == idx4(gpa),
        r.1 == idx3(gpa),
        r.2 == idx2(gpa),
        r.3 == idx1(gpa),
        r.0 < 512 && r.1 < 512 && r.2 < 512 && r.3 < 512,
{
    proof {
        assert(((gpa >> 39) & 0x1ff) < 512 && ((gpa >> 30) & 0x1ff) < 512 && ((gpa >> 21)
            & 0x1ff) < 512 && ((gpa >> 12) & 0x1ff) < 512) by (bit_vector);
    }
    let i4: usize = ((gpa >> 39) & 0x1ff) as usize;
    let i3: usize = ((gpa >> 30) & 0x1ff) as usize;
    let i2: usize = ((gpa >> 21) & 0x1ff) as usize;
    let i1: usize = ((gpa >> 12) & 0x1ff) as usize;
    (i4, i3, i2, i1)
}

/// Write one leaf entry.
fn leaf_set(t: &mut LeafTable, i1: usize, bits: u64)
    requires
        leaf_wf(*old(t)),
        i1 < 512,
    ensures
        leaf_wf(*final(t)),
        final(t).addr == old(t).addr,
        final(t).entries@ == old(t).entries@.update(i1 as int, bits),
{
    t.entries[i1] = bits;
}

/// Ensure the level-1 child exists, then write the leaf slot.
fn dir_map(
    d: &mut PageDirectory,
    format: TableFormat,
    i2: usize,
    i1: usize,
    bits: u64,
    alloc: &mut FrameAllocator,
) -> (r: crate::Result<()>)
    requires
        dir_wf(*old(d), format),
        i2 < 512,
        i1 < 512,
        old(alloc).wf(),
    ensures
        dir_wf(*final(d), format),
        final(d).addr == old(d).addr,
        final(alloc).wf(),
        final(alloc).spec_remaining() >= old(alloc).spec_remaining() - dir_missing(
            *old(d),
            i2 as int,
        ),
        r is Ok <==> old(alloc).spec_remaining() >= dir_missing(*old(d), i2 as int),
        r is Err ==> r == crate::Result::<()>::Err(HypervisorError::OutOfMemory),
        forall|j2: int, j1: int| 0 <= j2 < 512 && 0 <= j1 < 512
            ==> #[trigger] dir_lookup(*final(d), format, j2, j1) == (if r is Ok && j2 == i2
                && j1 == i1 {
                leaf_result(format, bits)
            } else {
                dir_lookup(*old(d), format, j2, j1)
            }),
{
    let present = entry_present_exec(format, d.entries[i2]);
    if !present {
        let frame = match alloc.allocate_frame() {
            Some(f) => f,
            None => {
                return Err(HypervisorError::OutOfMemory);
            },
        };
        let base: u64 = frame.base();
        let child = new_leaf_table(base);
        let entry: u64 = base | INTERMEDIATE_PERMS;
        proof {
            lemma_inter_entry_present(format, base);
            lemma_zero_not_present(format);
        }
        d.children[i2] = Some(child);
        d.entries[i2] = entry;
    }
    match &mut d.children[i2] {
        Some(c) => {
            leaf_set(c, i1, bits);
        },
        None => {
            proof {
                assert(false);
            }
        },
    }
    Ok(())
}

/// Ensure the level-2 child exists, then map below it.
fn pdp_map(
    p: &mut PageDirPointer,
    format: TableFormat,
    i3: usize,
    i2: usize,
    i1: usize,
    bits: u64,
    alloc: &mut FrameAllocator,
) -> (r: crate::Result<()>)
    requires
        pdp_wf(*old(p), format),
        i3 < 512,
        i2 < 512,
        i1 < 512,
        old(alloc).wf(),
    ensures
        pdp_wf(*final(p), format),
        final(p).addr == old(p).addr,
        final(alloc).wf(),
        final(alloc).spec_remaining() >= old(alloc).spec_remaining() - pdp_missing(
            *old(p),
            i3 as int,
            i2 as int,
        ),
        r is Ok <==> old(alloc).spec_remaining() >= pdp_missing(*old(p), i3 as int, i2 as int),
        r is Err ==> r == crate::Result::<()>::Err(HypervisorError::OutOfMemory),
        forall|j3: int, j2: int, j1: int| 0 <= j3 < 512 && 0 <= j2 < 512 && 0 <= j1 < 512
            ==> #[trigger] pdp_lookup(*final(p), format, j3, j2, j1) == (if r is Ok && j3 == i3
                && j2 == i2 && j1 == i1 {
                leaf_result(format, bits)
            } else {
                pdp_lookup(*old(p), format, j3, j2, j1)
            }),
{
    let present = entry_present_exec(format, p.entries[i3]);
    if !present {
        let frame = match alloc.allocate_frame() {
            Some(f) => f,
            None => {
                return Err(HypervisorError::OutOfMemory);
            },
        };
        let base: u64 = frame.base();
        let child = new_page_directory(base);
        let entry: u64 = base | INTERMEDIATE_PERMS;
        proof {
            lemma_inter_entry_present(format, base);
        }
        p.children[i3] = Some(child);
        p.entries[i3] = entry;
    }
    match &mut p.children[i3] {
        Some(c) => dir_map(c, format, i2, i1, bits, alloc),
        None => {
            proof {
                assert(false);
            }
            Err(HypervisorError::OutOfMemory)
        },
    }
}

/// Ensure the level-3 child exists, then map below it.
fn root_map(
    r: &mut RootTable,
    format: TableFormat,
    i4: usize,
    i3: usize,
    i2: usize,
    i1: usize,
    bits: u64,
    alloc: &mut FrameAllocator,
) -> (res: crate::Result<()>)
    requires
        root_wf(*old(r), format),
        i4 < 512,
        i3 < 512,
        i2 < 512,
        i1 < 512,
        old(alloc).wf(),
    ensures
        root_wf(*final(r), format),
        final(r).addr == old(r).addr,
        final(alloc).wf(),
        final(alloc).spec_remaining() >= old(alloc).spec_remaining() - root_missing(
            *old(r),
            i4 as int,
            i3 as int,
            i2 as int,
        ),
        res is Ok <==> old(alloc).spec_remaining() >= root_missing(
            *old(r),
            i4 as int,
            i3 as int,
            i2 as int,
        ),
        res is Err ==> res == crate::Result::<()>::Err(HypervisorError::OutOfMemory),
        forall|j4: int, j3: int, j2: int, j1: int|
            0 <= j4 < 512 && 0 <= j3 < 512 && 0 <= j2 < 512 && 0 <= j1 < 512
                ==> #[trigger] root_lookup(*final(r), format, j4, j3, j2, j1) == (if res is Ok
                    && j4 == i4 && j3 == i3 && j2 == i2 && j1 == i1 {
                    leaf_result(format, bits)
                } else {
                    root_lookup(*old(r), format, j4, j3, j2, j1)
                }),
{
    let present = entry_present_exec(format, r.entries[i4]);
    if !present {
        let frame = match alloc.allocate_frame() {
            Some(f) => f,
            None => {
                return Err(HypervisorError::OutOfMemory);
            },
        };
        let base: u64 = frame.base();
        let child = new_page_dir_pointer(base);
        let entry: u64 = base | INTERMEDIATE_PERMS;
        proof {
            lemma_inter_entry_present(format, base);
        }
        r.children[i4] = Some(child);
        r.entries[i4] = entry;
    }
    match &mut r.children[i4] {
        Some(c) => pdp_map(c, format, i3, i2, i1, bits, alloc),
        None => {
            proof {
                assert(false);
            }
            Err(HypervisorError::OutOfMemory)
        },
    }
}

/// Clear the leaf slot below a level-2 node, if the walk reaches it.
fn dir_unmap(d: &mut PageDirectory, format: TableFormat, i2: usize, i1: usize)
    requires
        dir_wf(*old(d), format),
        i2 < 512,
        i1 < 512,
    ensures
        dir_wf(*final(d), format),
        final(d).addr == old(d).addr,
        forall|j2: int, j1: int| 0 <= j2 < 512 && 0 <= j1 < 512
            ==> #[trigger] dir_lookup(*final(d), format, j2, j1) == (if j2 == i2 && j1 == i1 {
                None
            } else {
                dir_lookup(*old(d), format, j2, j1)
            }),
{
    let present = entry_present_exec(format, d.entries[i2]);
    proof {
        lemma_zero_not_present(format);
    }
    if !present {
        return;
    }
    match &mut d.children[i2] {
        Some(c) => {
            leaf_set(c, i1, 0);
        },
        None => {
            proof {
                assert(false);
            }
        },
    }
}

/// Clear the leaf slot below a level-3 node, if the walk reaches it.
fn pdp_unmap(p: &mut PageDirPointer, format: TableFormat, i3: usize, i2: usize, i1: usize)
    requires
        pdp_wf(*old(p), format),
        i3 < 512,
        i2 < 512,
        i1 < 512,
    ensures
        pdp_wf(*final(p), format),
        final(p).addr == old(p).addr,
        forall|j3: int, j2: int, j1: int| 0 <= j3 < 512 && 0 <= j2 < 512 && 0 <= j1 < 512
            ==> #[trigger] pdp_lookup(*final(p), format, j3, j2, j1) == (if j3 == i3 && j2 == i2
                && j1 == i1 {
                None
            } else {
                pdp_lookup(*old(p), format, j3, j2, j1)
            }),
{
    let present = entry_present_exec(format, p.entries[i3]);
    if !present {
        return;
    }
    match &mut p.children[i3] {
        Some(c) => {
            dir_unmap(c, format, i2, i1);
        },
        None => {
            proof {
                assert(false);
            }
        },
    }
}

/// Clear the leaf slot below the root, if the walk reaches it.
fn root_unmap(r: &mut RootTable, format: TableFormat, i4: usize, i3: usize, i2: usize, i1: usize)
    requires
        root_wf(*old(r), format),
        i4 < 512,
        i3 < 512,
        i2 < 512,
        i1 < 512,
    ensures
        root_wf(*final(r), format),
        final(r).addr == old(r).addr,
        forall|j4: int, j3: int, j2: int, j1: int|
            0 <= j4 < 512 && 0 <= j3 < 512 && 0 <= j2 < 512 && 0 <= j1 < 512
                ==> #[trigger] root_lookup(*final(r), format, j4, j3, j2, j1) == (if j4 == i4
                    && j3 == i3 && j2 == i2 && j1 == i1 {
                    None
                } else {
                    root_lookup(*old(r), format, j4, j3, j2, j1)
                }),
{
    let present = entry_present_exec(format, r.entries[i4]);
    if !present {
        return;
    }
    match &mut r.children[i4] {
        Some(c) => {
            pdp_unmap(c, format, i3, i2, i1);
        },
        None => {
            proof {
                assert(false);
            }
        },
    }
}

/// A four-level nested page table with its root node.
pub struct NestedPageTable {
    pub format: TableFormat,
    pub root: RootTable,
}

impl NestedPageTable {
    /// Structural well-formedness of the whole tree.
    pub open spec fn wf(self) -> bool {
        root_wf(self.root, self.format)
    }

    /// The entry format of this table.
    pub open spec fn spec_format(self) -> TableFormat {
        self.format
    }

    /// The root node's physical address.
    pub open spec fn spec_root_addr(self) -> u64 {
        self.root.addr
    }

    /// The leaf entry the walk for `gpa` reaches, if every level is present.
    pub open spec fn lookup(self, gpa: u64) -> Option<u64> {
        root_lookup(self.root, self.format, idx4(gpa), idx3(gpa), idx2(gpa), idx1(gpa))
    }

    /// How many nodes a map of `gpa` would have to create.
    pub open spec fn missing_tables(self, gpa: u64) -> int {
        root_missing(self.root, idx4(gpa), idx3(gpa), idx2(gpa))
    }

    /// Allocate and zero the root node; fails with `OutOfMemory` when the
    /// frame allocator is exhausted.
    pub fn new(format: TableFormat, alloc: &mut FrameAllocator) -> (r: crate::Result<Self>)
        requires
            old(alloc).wf(),
        ensures
            final(alloc).wf(),
            old(alloc).spec_remaining() == 0 ==> r == crate::Result::<Self>::Err(
                HypervisorError::OutOfMemory,
            ),
            old(alloc).spec_remaining() > 0 ==> {
                &&& r is Ok
                &&& r matches Ok(t) && t.wf() && t.spec_format() == format
                    && table_addr_ok(t.spec_root_addr())
                    && (forall|g: u64| #[trigger] t.lookup(g) is None)
                    && (forall|g: u64| #[trigger] t.missing_tables(g) == 3)
                &&& final(alloc).spec_remaining() == old(alloc).spec_remaining() - 1
            },
    {
        let frame = match alloc.allocate_frame() {
            Some(f) => f,
            None => {
                return Err(HypervisorError::OutOfMemory);
            },
        };
        let root = new_root_table(frame.base());
        let t = NestedPageTable { format, root };
        proof {
            assert forall|g: u64| #[trigger] t.lookup(g) is None by {
                assert(((g >> 39) & 0x1ff) < 512 && ((g >> 30) & 0x1ff) < 512 && ((g >> 21)
                    & 0x1ff) < 512 && ((g >> 12) & 0x1ff) < 512) by (bit_vector);
            }
            assert forall|g: u64| #[trigger] t.missing_tables(g) == 3 by {
                assert(((g >> 39) & 0x1ff) < 512) by (bit_vector);
            }
        }
        Ok(t)
    }

    /// Map `gpa` to the leaf entry `(hpa & ENTRY_ADDR_MASK) | perms`,
    /// creating intermediate nodes as needed.
    ///
    /// Succeeds exactly when the allocator can supply the missing nodes; on
    /// failure the mapping is unchanged (nodes created before the failure
    /// stay allocated). An existing leaf entry is overwritten without
    /// reclaiming the frame it pointed to.
    pub fn map(&mut self, gpa: u64, hpa: u64, perms: u64, alloc: &mut FrameAllocator) -> (r:
        crate::Result<()>)
        requires
            old(self).wf(),
            old(alloc).wf(),
            gpa % 4096 == 0,
            gpa < GPA_LIMIT,
            hpa % 4096 == 0,
            hpa < PHYS_LIMIT,
        ensures
            final(self).wf(),
            final(alloc).wf(),
            final(self).spec_format() == old(self).spec_format(),
            final(self).spec_root_addr() == old(self).spec_root_addr(),
            r is Ok <==> old(alloc).spec_remaining() >= old(self).missing_tables(gpa),
            r is Err ==> r == crate::Result::<()>::Err(HypervisorError::OutOfMemory),
            final(alloc).spec_remaining() >= old(alloc).spec_remaining() - old(
                self,
            ).missing_tables(gpa),
            forall|g: u64| #[trigger] final(self).lookup(g) == (if r is Ok && same_slot(g, gpa) {
                leaf_result(old(self).spec_format(), leaf_entry_spec(hpa, perms))
            } else {
                old(self).lookup(g)
            }),
    {
        let format = self.format;
        let (i4, i3, i2, i1) = walk_indices(gpa);
        let bits: u64 = (hpa & ENTRY_ADDR_MASK) | perms;
        let res = root_map(&mut self.root, format, i4, i3, i2, i1, bits, alloc);
        proof {
            assert forall|g: u64| #[trigger] final(self).lookup(g) == (if res is Ok && same_slot(
                g,
                gpa,
            ) {
                leaf_result(old(self).spec_format(), leaf_entry_spec(hpa, perms))
            } else {
                old(self).lookup(g)
            }) by {
                assert(((g >> 39) & 0x1ff) < 512 && ((g >> 30) & 0x1ff) < 512 && ((g >> 21)
                    & 0x1ff) < 512 && ((g >> 12) & 0x1ff) < 512) by (bit_vector);
            }
        }
        res
    }

    /// Clear the leaf slot for `gpa`.
    ///
    /// Walks read-only: when any level on the path is absent the table is
    /// returned untouched (unmapping an unmapped address is a no-op).
    /// Intermediate nodes are never reclaimed, and no hardware translation
    /// cache is invalidated here.
    pub fn unmap(&mut self, gpa: u64) -> (r: crate::Result<()>)
        requires
            old(self).wf(),
            gpa % 4096 == 0,
            gpa < GPA_LIMIT,
        ensures
            final(self).wf(),
            final(self).spec_format() == old(self).spec_format(),
            final(self).spec_root_addr() == old(self).spec_root_addr(),
            r is Ok,
            forall|g: u64| #[trigger] final(self).lookup(g) == (if same_slot(g, gpa) {
                None
            } else {
                old(self).lookup(g)
            }),
            old(self).lookup(gpa) is None ==> forall|g: u64|
                #[trigger] final(self).lookup(g) == old(self).lookup(g),
    {
        let format = self.format;
        let (i4, i3, i2, i1) = walk_indices(gpa);
        root_unmap(&mut self.root, format, i4, i3, i2, i1);
        proof {
            assert forall|g: u64| #[trigger] final(self).lookup(g) == (if same_slot(g, gpa) {
                None
            } else {
                old(self).lookup(g)
            }) by {
                assert(((g >> 39) & 0x1ff) < 512 && ((g >> 30) & 0x1ff) < 512 && ((g >> 21)
                    & 0x1ff) < 512 && ((g >> 12) & 0x1ff) < 512) by (bit_vector);
            }
        }
        Ok(())
    }

    /// Tear the table down: walk every allocated node and return its
    /// frame to the allocator, the root last.
    pub fn destroy(self, alloc: &mut FrameAllocator) -> (freed: u64)
        requires
            self.wf(),
            old(alloc).wf(),
        ensures
            final(alloc).wf(),
            *final(alloc) == *old(alloc),
            freed == root_node_count(self.root),
    {
        proof {
            lemma_root_children_count_bounds(self.root.children@, 512);
        }
        let ghost rview = self.root.children@;
        let root_addr = self.root.addr;
        let mut freed: u64 = 0;
        let mut children = self.root.children;
        let n = children.len();
        let mut i: usize = 0;
        while i < n
            invariant
                i <= n,
                n == 512,
                rview.len() == 512,
                children@ =~= rview.skip(i as int),
                alloc.wf(),
                *alloc == *old(alloc),
                freed == root_children_count(rview, i as int),
                0 <= freed <= i * 513 * 513,
                forall|j: int| 0 <= j < 512 ==> match #[trigger] rview[j] {
                    Some(p) => pdp_wf(p, TableFormat::Ept) || pdp_wf(p, TableFormat::Npt),
                    None => true,
                },
            decreases n - i,
        {
            let child = children.remove(0);
            proof {
                assert(rview.skip(i as int)[0] == rview[i as int]);
                assert(rview.skip(i as int).remove(0) =~= rview.skip(i + 1));
                lemma_root_children_count_bounds(rview, i as int);
                match rview[i as int] {
                    Some(p) => {
                        lemma_pdp_children_count_bounds(p.children@, 512);
                        assert(1 + 512 * 513 <= 513 * 513) by (nonlinear_arith);
                    },
                    None => {},
                }
                assert(i * 513 * 513 + 513 * 513 == (i + 1) * 513 * 513) by (nonlinear_arith);
                assert((i + 1) * 513 * 513 <= 512 * 513 * 513) by (nonlinear_arith)
                    requires 0 <= i < 512,
                ;
            }
            match child {
                Some(p) => {
                    let k = pdp_destroy(p, alloc);
                    freed = freed + k;
                },
                None => {},
            }
            i = i + 1;
        }
        alloc.deallocate_frame(Frame { base: root_addr });
        freed + 1
    }

    /// Read the leaf entry the hardware walk would reach for `gpa`.
    pub fn translate_entry(&self, gpa: u64) -> (r: Option<u64>)
        requires
            self.wf(),
        ensures
            r == self.lookup(gpa),
    {
        let format = self.format;
        let (i4, i3, i2, i1) = walk_indices(gpa);
        if !entry_present_exec(format, self.root.entries[i4]) {
            return None;
        }
        let p = match &self.root.children[i4] {
            Some(p) => p,
            None => {
                proof {
                    assert(false);
                }
                return None;
            },
        };
        if !entry_present_exec(format, p.entries[i3]) {
            return None;
        }
        let d = match &p.children[i3] {
            Some(d) => d,
            None => {
                proof {
                    assert(false);
                }
                return None;
            },
        };
        if !entry_present_exec(format, d.entries[i2]) {
            return None;
        }
        let t = match &d.children[i2] {
            Some(t) => t,
            None => {
                proof {
                    assert(false);
                }
                return None;
            },
        };
        let bits = t.entries[i1];
        if entry_present_exec(format, bits) {
            Some(bits)
        } else {
            None
        }
    }

    /// The root node's physical address, for binding into an execution
    /// control block.
    pub fn root_addr(&self) -> (r: u64)
        ensures
            r == self.spec_root_addr(),
    {
        self.root.addr
    }
}

} // verus!
