use vstd::prelude::*;
use crate::constants::{aligned, is_aligned, ObjectType, VMRights, PAGE_SIZE_NORMAL};
use crate::mork_cspace::mork_alloc_object;
use crate::hal::{invocation, invoke, Syscall, SyscallArgs};
use crate::message_info::pack;
use crate::message_info::{InvocationLabel, ResponseLabel};

verus! {

/// Maps `frame` at `vaddr` in address space `vspace` with `vm_rights`.
/// A `vaddr` that is not page aligned is refused with `InvalidParam` and
/// nothing is sent.
pub fn mork_map_frame(vspace: usize, frame: usize, vaddr: usize, vm_rights: VMRights) -> (r: Result<SyscallArgs, ResponseLabel>)
    ensures
        !aligned(vaddr, PAGE_SIZE_NORMAL) ==> r == Err::<SyscallArgs, ResponseLabel>(ResponseLabel::InvalidParam),
        aligned(vaddr, PAGE_SIZE_NORMAL) ==> r == Ok::<SyscallArgs, ResponseLabel>(
            invocation(vspace, InvocationLabel::PageMap, 4, frame, vaddr, vm_rights.bits, 0)),
        vaddr % 4096 != 0 ==> r == Err::<SyscallArgs, ResponseLabel>(ResponseLabel::InvalidParam),
        vaddr % 4096 == 0 ==> (r matches Ok(a) && a.sys == Syscall::Syscall && a.dest == vspace && a.info == 0xC004
            && a.mr0 == frame && a.mr1 == vaddr && a.mr2 == vm_rights.bits && a.mr3 == 0),
{
    proof {
        lemma_page_map_words();
    }
    if !is_aligned(vaddr, PAGE_SIZE_NORMAL) {
        return Err(ResponseLabel::InvalidParam);
    }
    Ok(invoke(vspace, InvocationLabel::PageMap, 4, frame, vaddr, vm_rights.bits(), 0))
}

/// Unmaps `frame` from address space `vspace`.
pub fn mork_unmap_frame(vspace: usize, frame: usize) -> (a: SyscallArgs)
    ensures
        a == invocation(vspace, InvocationLabel::PageUnmap, 1, frame, 0, 0, 0),
{
    invoke(vspace, InvocationLabel::PageUnmap, 1, frame, 0, 0, 0)
}

/// Maps `page_table` in address space `vspace` so that it covers `vaddr`.
/// A `vaddr` that is not page aligned is refused with `InvalidParam` and
/// nothing is sent.
pub fn mork_map_page_table(vspace: usize, page_table: usize, vaddr: usize) -> (r: Result<SyscallArgs, ResponseLabel>)
    ensures
        !aligned(vaddr, PAGE_SIZE_NORMAL) ==> r == Err::<SyscallArgs, ResponseLabel>(ResponseLabel::InvalidParam),
        aligned(vaddr, PAGE_SIZE_NORMAL) ==> r == Ok::<SyscallArgs, ResponseLabel>(
            invocation(vspace, InvocationLabel::PageTableMap, 2, page_table, vaddr, 0, 0)),
        vaddr % 4096 != 0 ==> r == Err::<SyscallArgs, ResponseLabel>(ResponseLabel::InvalidParam),
        vaddr % 4096 == 0 ==> (r matches Ok(a) && a.sys == Syscall::Syscall && a.dest == vspace && a.info == 0xE002
            && a.mr0 == page_table && a.mr1 == vaddr && a.mr2 == 0 && a.mr3 == 0),
{
    proof {
        lemma_page_map_words();
    }
    if !is_aligned(vaddr, PAGE_SIZE_NORMAL) {
        return Err(ResponseLabel::InvalidParam);
    }
    Ok(invoke(vspace, InvocationLabel::PageTableMap, 2, page_table, vaddr, 0, 0))
}

/// Unmaps `page_table` from address space `vspace`.
pub fn mork_unmap_page_table(vspace: usize, page_table: usize) -> (a: SyscallArgs)
    ensures
        a == invocation(vspace, InvocationLabel::PageTableUnmap, 1, page_table, 0, 0, 0),
{
    invoke(vspace, InvocationLabel::PageTableUnmap, 1, page_table, 0, 0, 0)
}

/// The message words of the mapping requests: a page map carries its label
/// and four registers, a page-table map its label and two, a page-table
/// allocation its label and one.
pub proof fn lemma_page_map_words()
    ensures
        pack(InvocationLabel::PageMap.code(), 0, 0, 4) == 0xC004,
        pack(InvocationLabel::PageTableMap.code(), 0, 0, 2) == 0xE002,
        pack(InvocationLabel::CNodeAlloc.code(), 0, 0, 1) == 0x2001,
{
    assert(((12usize << 12usize) | ((0usize & 0x7) << 9usize) | ((0usize & 0x3) << 7usize) | (4usize & 0x7f)) == 0xC004usize) by (bit_vector);
    assert(((14usize << 12usize) | ((0usize & 0x7) << 9usize) | ((0usize & 0x3) << 7usize) | (2usize & 0x7f)) == 0xE002usize) by (bit_vector);
    assert(((2usize << 12usize) | ((0usize & 0x7) << 9usize) | ((0usize & 0x3) << 7usize) | (1usize & 0x7f)) == 0x2001usize) by (bit_vector);
}

/// Where a `MapFrameAnyway` stands, and so what must be done next.
#[derive(Clone, Copy, Debug, PartialEq, Eq, Structural)]
pub enum MapStep {
    /// Send `mork_map_frame(vspace, frame, vaddr, vm_rights)` and report
    /// its result with `on_map_frame`.
    MapFrame,
    /// Send `mork_alloc_object(task, PageTable)` and report its result with
    /// `on_page_table_allocated`.
    AllocPageTable,
    /// Send `mork_map_page_table(vspace, page_table, vaddr)` and report its
    /// result with `on_page_table_mapped`.
    MapPageTable { page_table: usize },
    /// The frame is mapped.
    Mapped,
    /// Gave up with this outcome.
    Failed { resp: ResponseLabel },
}

/// Maps a frame, allocating and mapping page tables for as long as the
/// kernel reports a missing page table. The page tables that were
/// allocated and mapped are appended, in order, to `alloc_page_table` when
/// it holds a list.
pub struct MapFrameAnyway {
    pub task: usize,
    pub vspace: usize,
    pub frame: usize,
    pub vaddr: usize,
    pub vm_rights: VMRights,
    pub alloc_page_table: Option<Vec<usize>>,
    pub step: MapStep,
}

impl MapFrameAnyway {
    /// The request is the same in `self` and `other`.
    pub open spec fn same_request(self, other: Self) -> bool {
        &&& self.task == other.task
        &&& self.vspace == other.vspace
        &&& self.frame == other.frame
        &&& self.vaddr == other.vaddr
        &&& self.vm_rights == other.vm_rights
    }

    /// The page-table list of `self` is that of `other`.
    pub open spec fn same_list(self, other: Self) -> bool {
        match (self.alloc_page_table, other.alloc_page_table) {
            (None, None) => true,
            (Some(a), Some(b)) => a@ == b@,
            _ => false,
        }
    }

    /// The result once the machine has stopped.
    pub open spec fn outcome(self) -> Option<Result<(), ResponseLabel>> {
        match self.step {
            MapStep::Mapped => Some(Ok(())),
            MapStep::Failed { resp } => Some(Err(resp)),
            _ => None,
        }
    }

    /// The kernel request of the current step: the frame map (which is
    /// refused with `InvalidParam`, unsent, at an unaligned address), the
    /// page-table allocation from `task`'s space, or the page-table map at
    /// `vaddr`. A machine that has stopped sends none.
    pub open spec fn spec_request(self) -> Option<Result<SyscallArgs, ResponseLabel>> {
        match self.step {
            MapStep::MapFrame => Some(if aligned(self.vaddr, PAGE_SIZE_NORMAL) {
                Ok(invocation(self.vspace, InvocationLabel::PageMap, 4, self.frame, self.vaddr, self.vm_rights.bits, 0))
            } else {
                Err(ResponseLabel::InvalidParam)
            }),
            MapStep::AllocPageTable => Some(Ok(invocation(self.task, InvocationLabel::CNodeAlloc, 1, ObjectType::PageTable.code(), 0, 0, 0))),
            MapStep::MapPageTable { page_table } => Some(if aligned(self.vaddr, PAGE_SIZE_NORMAL) {
                Ok(invocation(self.vspace, InvocationLabel::PageTableMap, 2, page_table, self.vaddr, 0, 0))
            } else {
                Err(ResponseLabel::InvalidParam)
            }),
            _ => None,
        }
    }

    /// The kernel request of the current step (see `spec_request`).
    pub fn request(&self) -> (r: Option<Result<SyscallArgs, ResponseLabel>>)
        ensures
            r == self.spec_request(),
    {
        match self.step {
            MapStep::MapFrame => Some(mork_map_frame(self.vspace, self.frame, self.vaddr, self.vm_rights)),
            MapStep::AllocPageTable => Some(Ok(mork_alloc_object(self.task, ObjectType::PageTable))),
            MapStep::MapPageTable { page_table } => Some(mork_map_page_table(self.vspace, page_table, self.vaddr)),
            _ => None,
        }
    }

    /// Starts by asking for the map itself.
    pub fn new(task: usize, vspace: usize, frame: usize, vaddr: usize, vm_rights: VMRights, alloc_page_table: Option<Vec<usize>>) -> (m: Self)
        ensures
            m.task == task,
            m.vspace == vspace,
            m.frame == frame,
            m.vaddr == vaddr,
            m.vm_rights == vm_rights,
            m.alloc_page_table == alloc_page_table,
            m.step == MapStep::MapFrame,
    {
        MapFrameAnyway { task, vspace, frame, vaddr, vm_rights, alloc_page_table, step: MapStep::MapFrame }
    }

    /// The map request answered `r`: done on success, a page table is
    /// needed on `PageTableMiss`, and any other outcome is given up with.
    pub fn on_map_frame(&mut self, r: Result<(), ResponseLabel>)
        requires
            old(self).step == MapStep::MapFrame,
        ensures
            final(self).same_request(*old(self)),
            final(self).same_list(*old(self)),
            r is Ok ==> final(self).step == MapStep::Mapped,
            r == Err::<(), ResponseLabel>(ResponseLabel::PageTableMiss) ==> final(self).step == MapStep::AllocPageTable,
            r matches Err(e) ==> (e != ResponseLabel::PageTableMiss ==> final(self).step == (MapStep::Failed { resp: e })),
    {
        match r {
            Ok(()) => {
                self.step = MapStep::Mapped;
            },
            Err(resp) => {
                if resp == ResponseLabel::PageTableMiss {
                    self.step = MapStep::AllocPageTable;
                } else {
                    self.step = MapStep::Failed { resp };
                }
            },
        }
    }

    /// The page-table allocation answered `r`: map the new page table, or
    /// give up with the outcome.
    pub fn on_page_table_allocated(&mut self, r: Result<usize, ResponseLabel>)
        requires
            old(self).step == MapStep::AllocPageTable,
        ensures
            final(self).same_request(*old(self)),
            final(self).same_list(*old(self)),
            r matches Ok(pt) ==> final(self).step == (MapStep::MapPageTable { page_table: pt }),
            r matches Err(e) ==> final(self).step == (MapStep::Failed { resp: e }),
    {
        match r {
            Ok(page_table) => {
                self.step = MapStep::MapPageTable { page_table };
            },
            Err(resp) => {
                self.step = MapStep::Failed { resp };
            },
        }
    }

    /// The page-table map answered `r`: record the page table and try the
    /// frame again, or give up with the outcome.
    pub fn on_page_table_mapped(&mut self, r: Result<(), ResponseLabel>)
        requires
            old(self).step is MapPageTable,
        ensures
            final(self).same_request(*old(self)),
            r is Ok ==> final(self).step == MapStep::MapFrame,
            r is Ok ==> match (old(self).alloc_page_table, final(self).alloc_page_table) {
                (None, None) => true,
                (Some(a), Some(b)) => b@ == a@.push(old(self).step->page_table),
                _ => false,
            },
            r matches Err(e) ==> final(self).step == (MapStep::Failed { resp: e }),
            r is Err ==> final(self).same_list(*old(self)),
    {
        let page_table = match self.step {
            MapStep::MapPageTable { page_table } => page_table,
            _ => 0,
        };
        match r {
            Ok(()) => {
                match self.alloc_page_table.take() {
                    Some(mut list) => {
                        list.push(page_table);
                        self.alloc_page_table = Some(list);
                    },
                    None => {},
                }
                self.step = MapStep::MapFrame;
            },
            Err(resp) => {
                self.step = MapStep::Failed { resp };
            },
        }
    }

    /// The result, once the machine has stopped.
    pub fn result(&self) -> (r: Option<Result<(), ResponseLabel>>)
        ensures
            r == self.outcome(),
    {
        match self.step {
            MapStep::Mapped => Some(Ok(())),
            MapStep::Failed { resp } => Some(Err(resp)),
            _ => None,
        }
    }

    /// Hands back the page-table list.
    pub fn into_page_tables(self) -> (l: Option<Vec<usize>>)
        ensures
            l == self.alloc_page_table,
    {
        self.alloc_page_table
    }
}

/// Each step of the mapping sends the machine's own request: the frame map
/// of `frame` at `vaddr` in `vspace` with the machine's rights, the
/// allocation of a page table (kind 3) from `task`, or the map of the page
/// table at `vaddr`; a `vaddr` that is not a multiple of 4096 is refused
/// with `InvalidParam` before anything is sent; a stopped machine sends
/// nothing.
pub proof fn lemma_map_anyway_requests(m: MapFrameAnyway)
    ensures
        m.step == MapStep::MapFrame && m.vaddr % 4096 == 0 ==> m.spec_request() == Some(Ok::<SyscallArgs, ResponseLabel>(
            SyscallArgs { sys: Syscall::Syscall, dest: m.vspace, info: 0xC004, mr0: m.frame, mr1: m.vaddr, mr2: m.vm_rights.bits, mr3: 0 })),
        m.step == MapStep::MapFrame && m.vaddr % 4096 != 0 ==> m.spec_request() == Some(Err::<SyscallArgs, ResponseLabel>(ResponseLabel::InvalidParam)),
        m.step == MapStep::AllocPageTable ==> m.spec_request() == Some(Ok::<SyscallArgs, ResponseLabel>(
            SyscallArgs { sys: Syscall::Syscall, dest: m.task, info: 0x2001, mr0: 3, mr1: 0, mr2: 0, mr3: 0 })),
        m.step is MapPageTable && m.vaddr % 4096 == 0 ==> m.spec_request() == Some(Ok::<SyscallArgs, ResponseLabel>(
            SyscallArgs { sys: Syscall::Syscall, dest: m.vspace, info: 0xE002, mr0: m.step->page_table, mr1: m.vaddr, mr2: 0, mr3: 0 })),
        m.step is MapPageTable && m.vaddr % 4096 != 0 ==> m.spec_request() == Some(Err::<SyscallArgs, ResponseLabel>(ResponseLabel::InvalidParam)),
        m.step is Mapped || m.step is Failed ==> m.spec_request() is None,
{
    lemma_page_map_words();
}

} // verus!
