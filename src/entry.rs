//! The architecture-independent page-table-entry model.
use vstd::prelude::*;

use crate::page::PhyPageNumber;

verus! {

/// Access rights of a mapped page.
#[derive(Clone, Copy, Debug, PartialEq, Eq, Structural, Hash)]
pub enum PagePrivilege {
    ReadOnly,
    ExecuteOnly,
    ReadExecute,
    ReadWrite,
    ReadWriteExecute,
}

impl Default for PagePrivilege {
    fn default() -> (r: PagePrivilege)
        ensures
            r == PagePrivilege::ReadOnly,
    {
        PagePrivilege::ReadOnly
    }
}

/// Memory type of a mapped page.
#[derive(Clone, Copy, Debug, PartialEq, Eq, Structural, Hash)]
pub enum PageCache {
    Cacheable,
    NonCacheable,
    IO,
}

impl Default for PageCache {
    fn default() -> (r: PageCache)
        ensures
            r == PageCache::Cacheable,
    {
        PageCache::Cacheable
    }
}

/// An absent entry. Its word is free for software use (a stashed pointer,
/// a counter) and must keep bit 0, the hardware's valid bit, clear.
#[derive(Clone, Copy, Debug, PartialEq, Eq, Structural, Hash, Default)]
pub struct InvalidPageTableEntry(pub u64);

/// An entry that points to a child table.
#[derive(Clone, Copy, Debug, PartialEq, Eq, Structural, Hash)]
pub struct PointerPageTableEntry {
    pub to: PhyPageNumber,
    pub global: bool,
    pub reserved: bool,
}

/// An entry that maps one page (or an aligned run of pages) to physical memory.
#[derive(Clone, Copy, Debug, PartialEq, Eq, Structural, Hash)]
pub struct LeafPageTableEntry {
    pub to: PhyPageNumber,
    pub privilege: PagePrivilege,
    pub cache: PageCache,
    pub global: bool,
    pub user: bool,
    pub accessed: bool,
    pub dirty: bool,
    pub reserved: bool,
}

/// One slot of a page table.
#[derive(Clone, Copy, Debug, PartialEq, Eq, Structural, Hash)]
pub enum PageTableEntry {
    Pointer(PointerPageTableEntry),
    Leaf(LeafPageTableEntry),
    Invalid(InvalidPageTableEntry),
}

impl PageTableEntry {
    /// The default entry: absent, with a null word.
    pub open spec fn default_spec() -> PageTableEntry {
        PageTableEntry::Invalid(InvalidPageTableEntry(0))
    }
}

impl Default for PageTableEntry {
    fn default() -> (r: PageTableEntry)
        ensures
            r == PageTableEntry::default_spec(),
    {
        PageTableEntry::Invalid(InvalidPageTableEntry(0))
    }
}

impl From<u64> for InvalidPageTableEntry {
    fn from(value: u64) -> (r: InvalidPageTableEntry) {
        InvalidPageTableEntry(value)
    }
}

impl vstd::std_specs::convert::FromSpecImpl<u64> for InvalidPageTableEntry {
    open spec fn obeys_from_spec() -> bool {
        true
    }

    open spec fn from_spec(v: u64) -> InvalidPageTableEntry {
        InvalidPageTableEntry(v)
    }
}

} // verus!
