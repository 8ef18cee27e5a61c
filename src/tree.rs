//! The page tree: a root table, the tables below it, and the map and unmap
//! walks over them.
use vstd::prelude::*;

use crate::arch::ArchImpl;
use crate::entry::{
    InvalidPageTableEntry, LeafPageTableEntry, PageCache, PagePrivilege, PageTableEntry,
    PointerPageTableEntry,
};
use crate::page::{same_half, vpn_valid, PagingMode, PhyPageNumber, VirtPageNumber};
use crate::riscv64::{decode, encode, lemma_round_trip, PPN_LIMIT};
use crate::table::{is_entry_update, PageTable, ENTRY_COUNT};

verus! {

/// The allocator has no page left.
#[derive(Clone, Copy, Debug, PartialEq, Eq, Structural, Hash)]
pub struct PhysicalPageAllocError;

impl PhysicalPageAllocError {
    /// The error as a sentence.
    pub fn message(&self) -> (r: &'static str)
        ensures
            r@ == "Failed to allocate physical page"@,
    {
        "Failed to allocate physical page"
    }
}

/// Why a map or unmap request failed.
#[derive(Clone, Copy, Debug, PartialEq, Eq, Structural, Hash)]
pub enum PageTreeError {
    /// A table page could not be allocated.
    PhysicalPageAllocError,
    /// The virtual or physical range is not valid; nothing was changed.
    InvalidRange,
    /// A page of the range is already mapped, or a larger mapping covers it.
    MappingConflict,
    /// A page of the range is not mapped; nothing was changed.
    UnmappedRange,
    /// The architecture cannot translate under the requested paging mode.
    UnsupportedMode,
}

/// Access to one physical page, held for as long as the guard lives.
pub trait PhysicalPageAccessGuard {
    /// The page table stored in the page.
    fn table(&self) -> &PageTable;
}

/// Gives access to physical pages that hold page tables.
pub trait PhysicalPageAccessor {
    type Guard<'a>: PhysicalPageAccessGuard where Self: 'a;

    /// A guard for the physical page `phy_page_number`.
    fn access_phy_page<'a>(&'a self, phy_page_number: PhyPageNumber) -> Self::Guard<'a>;
}

/// Hands out and takes back physical pages; safe to share between walkers.
pub trait PhysicalPageAllocator {
    /// Allocates one page.
    fn allocate(&self) -> Result<PhyPageNumber, PhysicalPageAllocError> {
        self.allocate_contiguous(1)
    }

    /// Allocates `count` contiguous pages and returns the first.
    fn allocate_contiguous(&self, count: usize) -> Result<PhyPageNumber, PhysicalPageAllocError>;

    /// Takes back a page that this allocator handed out and nothing uses.
    fn deallocate(&self, page: PhyPageNumber);

    /// Takes back `count` contiguous pages from `page` on.
    fn deallocate_contiguous(&self, page: PhyPageNumber, count: u64)
        requires
            page.0 + count <= u64::MAX,
    {
        let mut i: u64 = 0;
        while i < count
            invariant
                i <= count,
                page.0 + count <= u64::MAX,
            decreases count - i,
        {
            self.deallocate(PhyPageNumber(page.0 + i));
            i = i + 1;
        }
    }
}

/// Whether a virtual range of `len` pages from `virt` may be mapped or
/// unmapped: its first page and, when it is not empty, its last page are
/// valid and lie in the same canonical half.
pub open spec fn virt_range_valid(virt: VirtPageNumber, len: u64, mode: PagingMode) -> bool {
    &&& vpn_valid(virt.0 as int, mode)
    &&& len > 0 ==> {
        &&& virt.0 + len - 1 <= u64::MAX
        &&& vpn_valid(virt.0 + len - 1, mode)
        &&& same_half(virt.0 as int, virt.0 + len - 1, mode)
    }
}

/// Whether a physical range of `len` pages from `phys` fits in entries.
pub open spec fn phys_range_valid(phys: PhyPageNumber, len: u64) -> bool {
    phys.0 + len <= PPN_LIMIT
}

/// Index into the table of `level` (0 for the last) of a virtual page.
pub open spec fn table_index(virt: u64, level: nat) -> u64 {
    (virt >> (9 * level) as u64) & 511
}

/// The leaf that `map` installs for one page.
pub open spec fn leaf_for(phys: PhyPageNumber, privilege: PagePrivilege, cache: PageCache) -> PageTableEntry {
    PageTableEntry::Leaf(
        LeafPageTableEntry {
            to: phys,
            privilege,
            cache,
            global: false,
            user: false,
            accessed: false,
            dirty: false,
            reserved: false,
        },
    )
}

/// The pointer that `map` installs for a new child table in `page`.
pub open spec fn pointer_to(page: PhyPageNumber) -> PageTableEntry {
    PageTableEntry::Pointer(PointerPageTableEntry { to: page, global: false, reserved: false })
}

/// Word of the absent entry that marks a slot of a table being reclaimed:
/// no walker fills such a slot.
pub const RETIRED_WORD: u64 = 2;

/// The absent entry that marks a slot of a table being reclaimed.
pub open spec fn retired() -> PageTableEntry {
    PageTableEntry::Invalid(InvalidPageTableEntry(RETIRED_WORD))
}

/// The slot update that installs `new` in a slot holding the default entry
/// and declines otherwise: how `map` places child tables and leaves.
pub open spec fn fill_if_absent(e: PageTableEntry, new: PageTableEntry) -> Option<PageTableEntry> {
    if e == PageTableEntry::default_spec() {
        Some(new)
    } else {
        None
    }
}

/// The slot update that marks a default slot retired and declines
/// otherwise: the first step of reclaiming an empty table.
pub open spec fn retire_if_absent(e: PageTableEntry) -> Option<PageTableEntry> {
    if e == PageTableEntry::default_spec() {
        Some(retired())
    } else {
        None
    }
}

/// The slot update that puts a retired slot back to the default entry and
/// declines otherwise: how an abandoned reclamation is rolled back.
pub open spec fn restore_if_retired(e: PageTableEntry) -> Option<PageTableEntry> {
    if e == retired() {
        Some(PageTableEntry::default_spec())
    } else {
        None
    }
}

/// The slot update that clears a leaf and declines otherwise: how `unmap`
/// removes a page's mapping.
pub open spec fn clear_if_leaf(e: PageTableEntry) -> Option<PageTableEntry> {
    if e is Leaf {
        Some(PageTableEntry::Invalid(InvalidPageTableEntry(0)))
    } else {
        None
    }
}

/// The slot update that clears a pointer to `child` and declines otherwise:
/// how `unmap` unlinks an emptied table.
pub open spec fn detach_if_points_to(e: PageTableEntry, child: PhyPageNumber) -> Option<
    PageTableEntry,
> {
    if e is Pointer && e->Pointer_0.to == child {
        Some(PageTableEntry::Invalid(InvalidPageTableEntry(0)))
    } else {
        None
    }
}

/// A slot that `map` filled with a leaf declines a second fill, whatever
/// it offers; `unmap` clears it back to the default entry, after which a
/// fill succeeds again. A slot that was never filled declines `unmap`'s
/// clear. A slot retired for reclamation keeps that mark through its word
/// and declines both the fill and the clear.
pub proof fn lemma_slot_map_unmap(
    phys: PhyPageNumber,
    privilege: PagePrivilege,
    cache: PageCache,
    other: PageTableEntry,
)
    requires
        phys.0 < PPN_LIMIT,
    ensures
        fill_if_absent(decode(encode(leaf_for(phys, privilege, cache))), other) is None,
        clear_if_leaf(decode(encode(leaf_for(phys, privilege, cache))))
            == Some(PageTableEntry::default_spec()),
        fill_if_absent(decode(encode(PageTableEntry::default_spec())), other) == Some(other),
        clear_if_leaf(decode(encode(PageTableEntry::default_spec()))) is None,
        decode(encode(retired())) == retired(),
        fill_if_absent(retired(), other) is None,
        clear_if_leaf(retired()) is None,
{
    lemma_round_trip(leaf_for(phys, privilege, cache));
    lemma_round_trip(PageTableEntry::default_spec());
    lemma_round_trip(retired());
}

/// What a walk does with the entry it meets above the last level.
#[derive(Clone, Copy, Debug, PartialEq, Eq, Structural)]
pub enum WalkStep {
    /// Go down into the child table.
    Descend(PhyPageNumber),
    /// A mapping stops the walk here.
    Blocked,
    /// No table below yet.
    Missing,
}

/// What a walk finds in the last-level slot of a page.
#[derive(Clone, Copy, Debug, PartialEq, Eq, Structural)]
pub enum LeafStep {
    /// The page is mapped by this leaf.
    Mapped(LeafPageTableEntry),
    /// The page is not mapped.
    Unmapped,
}

/// What a walk concludes from the last-level entry of a page.
pub fn leaf_step(e: PageTableEntry) -> (r: LeafStep)
    ensures
        r == (match e {
            PageTableEntry::Leaf(l) => LeafStep::Mapped(l),
            _ => LeafStep::Unmapped,
        }),
{
    match e {
        PageTableEntry::Leaf(l) => LeafStep::Mapped(l),
        _ => LeafStep::Unmapped,
    }
}

/// The step a walk takes at an entry above the last level.
pub fn walk_step(e: PageTableEntry) -> (r: WalkStep)
    ensures
        r == (match e {
            PageTableEntry::Pointer(p) => WalkStep::Descend(p.to),
            PageTableEntry::Leaf(_) => WalkStep::Blocked,
            PageTableEntry::Invalid(_) => WalkStep::Missing,
        }),
{
    match e {
        PageTableEntry::Pointer(p) => WalkStep::Descend(p.to),
        PageTableEntry::Leaf(_) => WalkStep::Blocked,
        PageTableEntry::Invalid(_) => WalkStep::Missing,
    }
}

fn index_at(virt: u64, level: usize) -> (r: usize)
    requires
        level < 5,
    ensures
        r == table_index(virt, level as nat),
        r < ENTRY_COUNT,
{
    let shift = (9 * level) as u64;
    let i = (virt >> shift) & 511;
    assert(i < 512) by (bit_vector)
        requires
            i == (virt >> shift) & 511,
    ;
    i as usize
}

/// A tree of page tables under one root, with the accessor that reaches
/// table pages and the allocator that supplies them.
pub struct PageTree<C: PhysicalPageAccessor, A: PhysicalPageAllocator> {
    phy_accessor: C,
    root_ppn: PhyPageNumber,
    allocator: A,
    mode: PagingMode,
}

impl<C: PhysicalPageAccessor, A: PhysicalPageAllocator> PageTree<C, A> {
    /// The paging mode of the tree.
    pub closed spec fn paging_mode(&self) -> PagingMode {
        self.mode
    }

    /// The physical page of the root table.
    pub closed spec fn root_page(&self) -> PhyPageNumber {
        self.root_ppn
    }

    /// Creates a tree with an empty root table in a newly allocated page.
    pub fn new(phy_accessor: C, allocator: A, mode: PagingMode) -> (r: Result<
        Self,
        PhysicalPageAllocError,
    >)
        ensures
            r is Ok ==> r->Ok_0.paging_mode() == mode,
    {
        let root_ppn = match allocator.allocate() {
            Ok(p) => p,
            Err(e) => {
                return Err(e);
            },
        };
        phy_accessor.access_phy_page(root_ppn).table().reset();
        Ok(PageTree { phy_accessor, root_ppn, allocator, mode })
    }

    /// Creates a tree for architecture `H`: a paging mode that `H` does not
    /// support is refused before anything is allocated.
    pub fn new_checked<H: ArchImpl>(phy_accessor: C, allocator: A, mode: PagingMode) -> (r: Result<
        Self,
        PageTreeError,
    >)
        ensures
            r is Ok ==> r->Ok_0.paging_mode() == mode,
            r is Err ==> r->Err_0 == PageTreeError::UnsupportedMode || r->Err_0
                == PageTreeError::PhysicalPageAllocError,
    {
        if !H::supports_paging_mode(mode) {
            return Err(PageTreeError::UnsupportedMode);
        }
        match Self::new(phy_accessor, allocator, mode) {
            Ok(tree) => Ok(tree),
            Err(_) => Err(PageTreeError::PhysicalPageAllocError),
        }
    }

    /// The paging mode of the tree.
    pub fn mode(&self) -> (r: PagingMode)
        ensures
            r == self.paging_mode(),
    {
        self.mode
    }

    /// The physical page of the root table.
    pub fn root(&self) -> (r: PhyPageNumber)
        ensures
            r == self.root_page(),
    {
        self.root_ppn
    }

    /// Makes this tree the translation root of `addr_space` on architecture
    /// `H`, and reports whether the hardware took it. The caller flushes.
    pub fn set_mmu<H: ArchImpl>(&self, addr_space: u16, mode: PagingMode) -> bool {
        H::set_mmu(addr_space, mode, self.root_ppn)
    }

    /// Makes sure that slot `index` of `table` points to a child table and
    /// returns the child's page, and whether this call installed it. An
    /// absent slot gets a newly allocated empty table; when another walker
    /// installed one first, that one is used and the new page goes back to
    /// the allocator.
    fn install_child(&self, table: &PageTable, index: usize) -> (r: Result<
        (PhyPageNumber, bool),
        PageTreeError,
    >)
        requires
            index < ENTRY_COUNT,
        ensures
            r is Err ==> r->Err_0 == PageTreeError::PhysicalPageAllocError || r->Err_0
                == PageTreeError::MappingConflict,
    {
        let page = match self.allocator.allocate() {
            Ok(p) => p,
            Err(_) => {
                return Err(PageTreeError::PhysicalPageAllocError);
            },
        };
        if page.0 >= PPN_LIMIT {
            self.allocator.deallocate(page);
            return Err(PageTreeError::PhysicalPageAllocError);
        }
        self.phy_accessor.access_phy_page(page).table().reset();
        let install = |e: PageTableEntry| -> (o: Option<PageTableEntry>)
            ensures
                o == fill_if_absent(e, pointer_to(page)),
            {
                if e == PageTableEntry::Invalid(InvalidPageTableEntry(0)) {
                    Some(
                        PageTableEntry::Pointer(
                            PointerPageTableEntry { to: page, global: false, reserved: false },
                        ),
                    )
                } else {
                    None
                }
            };
        match table.update_at(index, install) {
            Ok(_) => Ok((page, true)),
            Err(current) => {
                self.allocator.deallocate(page);
                match walk_step(current) {
                    WalkStep::Descend(child) => Ok((child, false)),
                    _ => Err(PageTreeError::MappingConflict),
                }
            },
        }
    }

    /// Maps one virtual page to one physical page. Each child table this
    /// call installs is recorded in `installed` as (parent, slot, child).
    fn map_page(
        &self,
        phys: PhyPageNumber,
        virt: VirtPageNumber,
        privilege: PagePrivilege,
        cache: PageCache,
        installed: &mut Vec<(PhyPageNumber, usize, PhyPageNumber)>,
    ) -> (r: Result<(), PageTreeError>)
        requires
            phys.0 < PPN_LIMIT,
            forall|k: int|
                0 <= k < old(installed).len() ==> (#[trigger] old(installed)[k]).1 < ENTRY_COUNT,
        ensures
            forall|k: int|
                0 <= k < final(installed).len() ==> (#[trigger] final(installed)[k]).1
                    < ENTRY_COUNT,
            r is Err ==> r->Err_0 == PageTreeError::PhysicalPageAllocError || r->Err_0
                == PageTreeError::MappingConflict,
    {
        let mut table_ppn = self.root_ppn;
        let mut level: usize = self.mode.layers() - 1;
        while level > 0
            invariant
                level < 5,
                forall|k: int| 0 <= k < installed.len() ==> (#[trigger] installed[k]).1 < ENTRY_COUNT,
            decreases level,
        {
            let index = index_at(virt.0, level);
            let guard = self.phy_accessor.access_phy_page(table_ppn);
            let table = guard.table();
            match walk_step(table.load_at(index)) {
                WalkStep::Descend(child) => {
                    table_ppn = child;
                },
                WalkStep::Blocked => {
                    return Err(PageTreeError::MappingConflict);
                },
                WalkStep::Missing => {
                    match self.install_child(table, index) {
                        Ok((child, fresh)) => {
                            if fresh {
                                installed.push((table_ppn, index, child));
                            }
                            table_ppn = child;
                        },
                        Err(e) => {
                            return Err(e);
                        },
                    }
                },
            }
            level = level - 1;
        }
        let index = index_at(virt.0, 0);
        let guard = self.phy_accessor.access_phy_page(table_ppn);
        let table = guard.table();
        let install = |e: PageTableEntry| -> (o: Option<PageTableEntry>)
            ensures
                o == fill_if_absent(e, leaf_for(phys, privilege, cache)),
            {
                if e == PageTableEntry::Invalid(InvalidPageTableEntry(0)) {
                    Some(
                        PageTableEntry::Leaf(
                            LeafPageTableEntry {
                                to: phys,
                                privilege,
                                cache,
                                global: false,
                                user: false,
                                accessed: false,
                                dirty: false,
                                reserved: false,
                            },
                        ),
                    )
                } else {
                    None
                }
            };
        match table.update_at(index, install) {
            Ok(_) => Ok(()),
            Err(_) => Err(PageTreeError::MappingConflict),
        }
    }

    /// Puts the retired slots among the first `count` slots of `table` back
    /// to the default entry.
    fn restore_retired(&self, table: &PageTable, count: usize)
        requires
            count <= ENTRY_COUNT,
    {
        let restore = |e: PageTableEntry| -> (o: Option<PageTableEntry>)
            ensures
                o == restore_if_retired(e),
            {
                if e == PageTableEntry::Invalid(InvalidPageTableEntry(RETIRED_WORD)) {
                    Some(PageTableEntry::Invalid(InvalidPageTableEntry(0)))
                } else {
                    None
                }
            };
        let mut i: usize = 0;
        while i < count
            invariant
                i <= count <= ENTRY_COUNT,
                is_entry_update(restore),
            decreases count - i,
        {
            let _ = table.update_at(i, restore);
            i = i + 1;
        }
    }

    /// Frees the table `child` if slot `slot` of `parent` still points to it
    /// and every slot of it holds the default entry. Its slots are first
    /// marked retired, so that a walker that already reached it cannot fill
    /// one; then it is unlinked from the parent and freed. When a slot is
    /// not empty, or the parent changed meanwhile, the marks are rolled back
    /// and the table stays. Returns whether the table was freed.
    fn reclaim(&self, parent: PhyPageNumber, slot: usize, child: PhyPageNumber) -> (r: bool)
        requires
            slot < ENTRY_COUNT,
    {
        let parent_guard = self.phy_accessor.access_phy_page(parent);
        let parent_table = parent_guard.table();
        match walk_step(parent_table.load_at(slot)) {
            WalkStep::Descend(c) => {
                if c != child {
                    return false;
                }
            },
            _ => {
                return false;
            },
        }
        let child_guard = self.phy_accessor.access_phy_page(child);
        let child_table = child_guard.table();
        let retire = |e: PageTableEntry| -> (o: Option<PageTableEntry>)
            ensures
                o == retire_if_absent(e),
            {
                if e == PageTableEntry::Invalid(InvalidPageTableEntry(0)) {
                    Some(PageTableEntry::Invalid(InvalidPageTableEntry(RETIRED_WORD)))
                } else {
                    None
                }
            };
        let mut i: usize = 0;
        while i < ENTRY_COUNT
            invariant
                i <= ENTRY_COUNT,
                is_entry_update(retire),
            decreases ENTRY_COUNT - i,
        {
            if child_table.update_at(i, retire).is_err() {
                self.restore_retired(child_table, i);
                return false;
            }
            i = i + 1;
        }
        let detach = |e: PageTableEntry| -> (o: Option<PageTableEntry>)
            ensures
                o == detach_if_points_to(e, child),
            {
                match e {
                    PageTableEntry::Pointer(p) => {
                        if p.to == child {
                            Some(PageTableEntry::Invalid(InvalidPageTableEntry(0)))
                        } else {
                            None
                        }
                    },
                    _ => None,
                }
            };
        if parent_table.update_at(slot, detach).is_err() {
            self.restore_retired(child_table, ENTRY_COUNT);
            return false;
        }
        self.allocator.deallocate(child);
        true
    }

    /// Undoes the first `count` pages of a map request from `virt`, then
    /// frees the tables that the request installed and that are empty, the
    /// last installed first.
    fn undo_map(
        &self,
        virt: VirtPageNumber,
        count: u64,
        installed: &Vec<(PhyPageNumber, usize, PhyPageNumber)>,
    )
        requires
            virt.0 + count <= u64::MAX,
            forall|k: int| 0 <= k < installed.len() ==> (#[trigger] installed[k]).1 < ENTRY_COUNT,
    {
        let mut i: u64 = 0;
        while i < count
            invariant
                i <= count,
                virt.0 + count <= u64::MAX,
            decreases count - i,
        {
            let _ = self.unmap_page(VirtPageNumber(virt.0 + i));
            i = i + 1;
        }
        let mut k: usize = installed.len();
        while k > 0
            invariant
                k <= installed.len(),
                forall|j: int| 0 <= j < installed.len() ==> (#[trigger] installed[j]).1 < ENTRY_COUNT,
            decreases k,
        {
            k = k - 1;
            let (parent, slot, child) = installed[k];
            let _ = self.reclaim(parent, slot, child);
        }
    }

    /// Maps `len` virtual pages from `virt` to as many physical pages from
    /// `phys`, one leaf per page, with the given privilege and memory type.
    /// An invalid range is rejected before any change. A page that is
    /// already mapped stops the request with `MappingConflict`; pages mapped
    /// before it stay mapped. A table page that cannot be allocated stops it
    /// with `PhysicalPageAllocError`, after the pages that this request
    /// mapped are unmapped again and the tables it installed are freed.
    /// An empty range maps nothing and succeeds.
    pub fn map(
        &self,
        phys: PhyPageNumber,
        virt: VirtPageNumber,
        len: u64,
        privilege: PagePrivilege,
        cache: PageCache,
    ) -> (r: Result<(), PageTreeError>)
        ensures
            r == Err::<(), PageTreeError>(PageTreeError::InvalidRange) <==> !(virt_range_valid(
                virt,
                len,
                self.paging_mode(),
            ) && phys_range_valid(phys, len)),
            len == 0 && virt_range_valid(virt, len, self.paging_mode()) && phys_range_valid(
                phys,
                len,
            ) ==> r == Ok::<(), PageTreeError>(()),
            r is Err ==> r->Err_0 != PageTreeError::UnmappedRange,
    {
        if !self.range_ok(virt, len) || phys.0 > PPN_LIMIT || len > PPN_LIMIT - phys.0 {
            return Err(PageTreeError::InvalidRange);
        }
        let mut installed: Vec<(PhyPageNumber, usize, PhyPageNumber)> = Vec::new();
        let mut i: u64 = 0;
        while i < len
            invariant
                i <= len,
                phys.0 + len <= PPN_LIMIT,
                virt_range_valid(virt, len, self.paging_mode()),
                forall|k: int| 0 <= k < installed.len() ==> (#[trigger] installed[k]).1 < ENTRY_COUNT,
            decreases len - i,
        {
            match self.map_page(
                PhyPageNumber(phys.0 + i),
                VirtPageNumber(virt.0 + i),
                privilege,
                cache,
                &mut installed,
            ) {
                Ok(()) => {},
                Err(PageTreeError::PhysicalPageAllocError) => {
                    self.undo_map(virt, i, &installed);
                    return Err(PageTreeError::PhysicalPageAllocError);
                },
                Err(e) => {
                    return Err(e);
                },
            }
            i = i + 1;
        }
        Ok(())
    }

    /// Walks to the last-level leaf of `virt`: `UnmappedRange` when a table
    /// or the leaf is absent, `MappingConflict` when a larger mapping covers
    /// the page.
    fn find_leaf(&self, virt: VirtPageNumber) -> (r: Result<LeafPageTableEntry, PageTreeError>)
        ensures
            r is Err ==> r->Err_0 == PageTreeError::UnmappedRange || r->Err_0
                == PageTreeError::MappingConflict,
    {
        let mut table_ppn = self.root_ppn;
        let mut level: usize = self.mode.layers() - 1;
        while level > 0
            invariant
                level < 5,
            decreases level,
        {
            let index = index_at(virt.0, level);
            let guard = self.phy_accessor.access_phy_page(table_ppn);
            let table = guard.table();
            match walk_step(table.load_at(index)) {
                WalkStep::Descend(child) => {
                    table_ppn = child;
                },
                WalkStep::Blocked => {
                    return Err(PageTreeError::MappingConflict);
                },
                WalkStep::Missing => {
                    return Err(PageTreeError::UnmappedRange);
                },
            }
            level = level - 1;
        }
        let index = index_at(virt.0, 0);
        match leaf_step(self.phy_accessor.access_phy_page(table_ppn).table().load_at(index)) {
            LeafStep::Mapped(leaf) => Ok(leaf),
            LeafStep::Unmapped => Err(PageTreeError::UnmappedRange),
        }
    }

    /// The leaf that maps `virt`, if a last-level leaf does.
    pub fn translate(&self, virt: VirtPageNumber) -> (r: Option<LeafPageTableEntry>)
        ensures
            !vpn_valid(virt.0 as int, self.paging_mode()) ==> r is None,
    {
        if !virt.is_valid(self.mode) {
            return None;
        }
        match self.find_leaf(virt) {
            Ok(leaf) => Some(leaf),
            Err(_) => None,
        }
    }

    /// Clears the leaf of one page, then reclaims each table on the way back
    /// up that is left empty.
    fn unmap_page(&self, virt: VirtPageNumber) -> (r: Result<(), PageTreeError>)
        ensures
            r is Err ==> r->Err_0 == PageTreeError::UnmappedRange || r->Err_0
                == PageTreeError::MappingConflict,
    {
        let mut path: Vec<(PhyPageNumber, usize)> = Vec::new();
        let mut table_ppn = self.root_ppn;
        let mut level: usize = self.mode.layers() - 1;
        while level > 0
            invariant
                level < 5,
                forall|k: int| 0 <= k < path.len() ==> (#[trigger] path[k]).1 < ENTRY_COUNT,
            decreases level,
        {
            let index = index_at(virt.0, level);
            let guard = self.phy_accessor.access_phy_page(table_ppn);
            let table = guard.table();
            match walk_step(table.load_at(index)) {
                WalkStep::Descend(child) => {
                    path.push((table_ppn, index));
                    table_ppn = child;
                },
                WalkStep::Blocked => {
                    return Err(PageTreeError::MappingConflict);
                },
                WalkStep::Missing => {
                    return Err(PageTreeError::UnmappedRange);
                },
            }
            level = level - 1;
        }
        let index = index_at(virt.0, 0);
        let clear = |e: PageTableEntry| -> (o: Option<PageTableEntry>)
            ensures
                o == clear_if_leaf(e),
            {
                match e {
                    PageTableEntry::Leaf(_) => Some(PageTableEntry::Invalid(InvalidPageTableEntry(0))),
                    _ => None,
                }
            };
        let found = match self.phy_accessor.access_phy_page(table_ppn).table().update_at(
            index,
            clear,
        ) {
            Ok(previous) => leaf_step(previous),
            Err(current) => leaf_step(current),
        };
        if found == LeafStep::Unmapped {
            return Err(PageTreeError::UnmappedRange);
        }
        let mut child = table_ppn;
        let mut k: usize = path.len();
        while k > 0
            invariant
                k <= path.len(),
                forall|j: int| 0 <= j < path.len() ==> (#[trigger] path[j]).1 < ENTRY_COUNT,
            decreases k,
        {
            k = k - 1;
            let (parent, slot) = path[k];
            if !self.reclaim(parent, slot, child) {
                return Ok(());
            }
            child = parent;
        }
        Ok(())
    }

    /// Unmaps `len` virtual pages from `virt`. An invalid range is rejected
    /// before any change; so is a range with a page that no last-level leaf
    /// maps (`UnmappedRange`, or `MappingConflict` where a larger mapping
    /// covers it). Tables left empty are freed, bottom-up; mapped physical
    /// pages are never freed.
    pub fn unmap(&self, virt: VirtPageNumber, len: u64) -> (r: Result<(), PageTreeError>)
        ensures
            r == Err::<(), PageTreeError>(PageTreeError::InvalidRange) <==> !virt_range_valid(
                virt,
                len,
                self.paging_mode(),
            ),
            len == 0 && virt_range_valid(virt, len, self.paging_mode()) ==> r == Ok::<
                (),
                PageTreeError,
            >(()),
            r is Err ==> r->Err_0 != PageTreeError::PhysicalPageAllocError,
    {
        if !self.range_ok(virt, len) {
            return Err(PageTreeError::InvalidRange);
        }
        let mut i: u64 = 0;
        while i < len
            invariant
                i <= len,
                virt_range_valid(virt, len, self.paging_mode()),
            decreases len - i,
        {
            match self.find_leaf(VirtPageNumber(virt.0 + i)) {
                Ok(_) => {},
                Err(e) => {
                    return Err(e);
                },
            }
            i = i + 1;
        }
        let mut i: u64 = 0;
        while i < len
            invariant
                i <= len,
                virt_range_valid(virt, len, self.paging_mode()),
            decreases len - i,
        {
            match self.unmap_page(VirtPageNumber(virt.0 + i)) {
                Ok(()) => {},
                Err(e) => {
                    return Err(e);
                },
            }
            i = i + 1;
        }
        Ok(())
    }

    /// Frees the table at `ppn` of `level` and, above the last level, every
    /// table that it points to; mapped pages are left alone.
    fn free_table(&self, ppn: PhyPageNumber, level: usize)
        requires
            level < 5,
        decreases level,
    {
        if level > 0 {
            let entries = self.phy_accessor.access_phy_page(ppn).table().iter();
            let mut i: usize = 0;
            while i < entries.len()
                invariant
                    0 < level < 5,
                decreases entries.len() - i,
            {
                match entries[i] {
                    PageTableEntry::Pointer(p) => {
                        self.free_table(p.to, level - 1);
                    },
                    _ => {},
                }
                i = i + 1;
            }
        }
        self.allocator.deallocate(ppn);
    }

    /// Frees every table of the tree, the root last; mapped physical pages
    /// are not the tree's and stay allocated.
    pub fn release(self) {
        self.free_table(self.root_ppn, self.mode.layers() - 1);
    }

    /// Whether a virtual range is valid in the tree's paging mode.
    fn range_ok(&self, virt: VirtPageNumber, len: u64) -> (r: bool)
        ensures
            r == virt_range_valid(virt, len, self.paging_mode()),
    {
        if !virt.is_valid(self.mode) {
            return false;
        }
        if len == 0 {
            return true;
        }
        if virt.0 > u64::MAX - (len - 1) {
            return false;
        }
        let last = VirtPageNumber(virt.0 + (len - 1));
        let half = self.mode.half_pages();
        last.is_valid(self.mode) && ((virt.0 < half) == (last.0 < half))
    }
}

} // verus!
