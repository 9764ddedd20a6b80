use vstd::prelude::*;

verus! {

/// Size of an ordinary page.
pub const PAGE_SIZE_NORMAL: usize = 4096;

/// Slots of the initial thread's capability space that the library uses.
#[derive(Clone, Copy, Debug, PartialEq, Eq, Structural)]
pub enum CNodeSlot {
    /// The thread's own control block.
    CapInitThread,
    /// The thread's address space.
    CapInitVSpace,
    /// The notification shared with the parent that created the thread.
    CapParentCom,
}

impl CNodeSlot {
    /// The slot number.
    pub open spec fn code(self) -> usize {
        match self {
            CNodeSlot::CapInitThread => 1,
            CNodeSlot::CapInitVSpace => 2,
            CNodeSlot::CapParentCom => 3,
        }
    }

    pub fn as_usize(&self) -> (c: usize)
        ensures
            c == self.code(),
    {
        match self {
            CNodeSlot::CapInitThread => 1,
            CNodeSlot::CapInitVSpace => 2,
            CNodeSlot::CapParentCom => 3,
        }
    }
}

/// Kinds of kernel object that can be allocated.
#[derive(Clone, Copy, Debug, PartialEq, Eq, Structural)]
pub enum ObjectType {
    Thread,
    Notification,
    PageTable,
    Frame2M,
}

impl ObjectType {
    /// The number by which the kernel knows the kind.
    pub open spec fn code(self) -> usize {
        match self {
            ObjectType::Thread => 1,
            ObjectType::Notification => 2,
            ObjectType::PageTable => 3,
            ObjectType::Frame2M => 4,
        }
    }

    pub fn as_usize(&self) -> (c: usize)
        ensures
            c == self.code(),
    {
        match self {
            ObjectType::Thread => 1,
            ObjectType::Notification => 2,
            ObjectType::PageTable => 3,
            ObjectType::Frame2M => 4,
        }
    }
}

/// Access rights of a mapping, as a set of bits.
#[derive(Clone, Copy, Debug, PartialEq, Eq, Structural)]
pub struct VMRights {
    pub bits: usize,
}

impl VMRights {
    /// Readable.
    pub fn r() -> (v: VMRights)
        ensures
            v.bits == 1,
    {
        VMRights { bits: 1 }
    }

    /// Writable.
    pub fn w() -> (v: VMRights)
        ensures
            v.bits == 2,
    {
        VMRights { bits: 2 }
    }

    /// Executable.
    pub fn x() -> (v: VMRights)
        ensures
            v.bits == 4,
    {
        VMRights { bits: 4 }
    }

    /// The rights of either set.
    pub fn union(self, other: VMRights) -> (v: VMRights)
        ensures
            v.bits == self.bits | other.bits,
    {
        VMRights { bits: self.bits | other.bits }
    }

    /// The bits as the kernel reads them.
    pub fn bits(&self) -> (b: usize)
        ensures
            b == self.bits,
    {
        self.bits
    }
}

/// `addr` is a multiple of `align`.
pub open spec fn aligned(addr: usize, align: usize) -> bool {
    addr % align == 0
}

/// Whether `addr` is a multiple of `align`.
pub fn is_aligned(addr: usize, align: usize) -> (b: bool)
    requires
        align > 0,
    ensures
        b == aligned(addr, align),
        b == (addr % align == 0),
{
    addr % align == 0
}

/// An address is aligned exactly when it is a whole multiple of the
/// alignment.
pub proof fn lemma_aligned_is_multiple(addr: usize, align: usize)
    requires
        align > 0,
    ensures
        aligned(addr, align) <==> (exists|k: nat| #[trigger] (k * align) == addr),
{
    if aligned(addr, align) {
        vstd::arithmetic::div_mod::lemma_fundamental_div_mod(addr as int, align as int);
        let k = (addr / align) as nat;
        assert(k * align == addr) by (nonlinear_arith)
            requires
                addr == align * (addr / align) + addr % align,
                addr % align == 0,
                k == addr / align;
    }
    if exists|k: nat| #[trigger] (k * align) == addr {
        let k = choose|k: nat| #[trigger] (k * align) == addr;
        vstd::arithmetic::div_mod::lemma_mod_multiples_basic(k as int, align as int);
    }
}

/// Page alignment means a multiple of 4096: any address with a remainder by
/// 4096 is refused, any whole multiple accepted.
pub proof fn lemma_page_aligned(addr: usize)
    ensures
        aligned(addr, PAGE_SIZE_NORMAL) <==> addr % 4096 == 0,
        aligned(addr, PAGE_SIZE_NORMAL) <==> (exists|k: nat| #[trigger] (k * 4096) == addr),
{
    lemma_aligned_is_multiple(addr, PAGE_SIZE_NORMAL);
    if aligned(addr, PAGE_SIZE_NORMAL) {
        let k = choose|k: nat| #[trigger] (k * PAGE_SIZE_NORMAL) == addr;
        assert(k * 4096 == addr);
    }
    if exists|k: nat| #[trigger] (k * 4096) == addr {
        let k = choose|k: nat| #[trigger] (k * 4096) == addr;
        assert(k * PAGE_SIZE_NORMAL == addr);
    }
}

} // verus!
