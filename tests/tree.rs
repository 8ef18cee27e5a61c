use std::cell::{Cell, RefCell};

use paging::entry::{PageCache, PagePrivilege, PageTableEntry};
use paging::page::{PagingMode, PhyPageNumber, VirtPageNumber};
use paging::table::PageTable;
use paging::tree::{
    PageTree, PageTreeError, PhysicalPageAccessGuard, PhysicalPageAccessor, PhysicalPageAllocError, PhysicalPageAllocator,
};

/// Table pages backed by an in-memory pool; page numbers index the pool.
struct Pool {
    tables: Vec<PageTable>,
    free: RefCell<Vec<u64>>,
    outstanding: Cell<usize>,
}

impl Pool {
    fn new(pages: u64) -> Pool {
        Pool {
            tables: (0..pages).map(|_| PageTable::new()).collect(),
            free: RefCell::new((0..pages).rev().collect()),
            outstanding: Cell::new(0),
        }
    }
}

struct Access<'a>(&'a Pool);

struct Guard<'a>(&'a PageTable);

impl PhysicalPageAccessGuard for Guard<'_> {
    fn table(&self) -> &PageTable {
        self.0
    }
}

impl PhysicalPageAccessor for Access<'_> {
    type Guard<'g> = Guard<'g> where Self: 'g;

    fn access_phy_page<'g>(&'g self, phy_page_number: PhyPageNumber) -> Guard<'g> {
        Guard(&self.0.tables[phy_page_number.0 as usize])
    }
}

struct Alloc<'a>(&'a Pool);

impl PhysicalPageAllocator for Alloc<'_> {
    fn allocate_contiguous(&self, count: usize) -> Result<PhyPageNumber, PhysicalPageAllocError> {
        if count != 1 {
            return Err(PhysicalPageAllocError);
        }
        match self.0.free.borrow_mut().pop() {
            Some(p) => {
                self.0.outstanding.set(self.0.outstanding.get() + 1);
                Ok(PhyPageNumber(p))
            }
            None => Err(PhysicalPageAllocError),
        }
    }

    fn deallocate(&self, page: PhyPageNumber) {
        assert!(!self.0.free.borrow().contains(&page.0), "double free of {page:?}");
        self.0.outstanding.set(self.0.outstanding.get() - 1);
        self.0.free.borrow_mut().push(page.0);
    }
}

fn tree(pool: &Pool, mode: PagingMode) -> PageTree<Access<'_>, Alloc<'_>> {
    PageTree::new(Access(pool), Alloc(pool), mode).unwrap()
}

/// The pages of every table reachable from the root, root included.
fn reachable(pool: &Pool, root: PhyPageNumber, levels: usize) -> Vec<u64> {
    let mut out = vec![root.0];
    if levels > 1 {
        for e in pool.tables[root.0 as usize].iter() {
            if let PageTableEntry::Pointer(p) = e {
                out.extend(reachable(pool, p.to, levels - 1));
            }
        }
    }
    out.sort();
    out
}

#[test]
fn map_then_walk_finds_leaf() {
    let pool = Pool::new(16);
    let t = tree(&pool, PagingMode::Layer3);
    assert_eq!(
        t.map(PhyPageNumber(0x10), VirtPageNumber(0x1), 1, PagePrivilege::ReadWrite, PageCache::Cacheable),
        Ok(())
    );
    // root, one middle table, one last-level table
    assert_eq!(pool.outstanding.get(), 3);
    let leaf = t.translate(VirtPageNumber(0x1)).unwrap();
    assert_eq!(leaf.to, PhyPageNumber(0x10));
    assert_eq!(leaf.privilege, PagePrivilege::ReadWrite);
    assert_eq!(leaf.cache, PageCache::Cacheable);
    // walk by hand: slot 0 of the root and of the middle table, slot 1 of the last
    let root = &pool.tables[t.root().0 as usize];
    let PageTableEntry::Pointer(mid) = root.iter()[0] else { panic!("no middle table") };
    let PageTableEntry::Pointer(last) = pool.tables[mid.to.0 as usize].iter()[0] else {
        panic!("no last table")
    };
    let PageTableEntry::Leaf(l) = pool.tables[last.to.0 as usize].iter()[1] else { panic!("no leaf") };
    assert_eq!(l.to, PhyPageNumber(0x10));
    assert_eq!(l.privilege, PagePrivilege::ReadWrite);

    assert_eq!(t.unmap(VirtPageNumber(0x1), 1), Ok(()));
    assert!(t.translate(VirtPageNumber(0x1)).is_none());
    assert!(matches!(root.iter()[0], PageTableEntry::Invalid(_)));
    assert_eq!(pool.outstanding.get(), 1);
}

#[test]
fn map_unmap_restores_reachable_tables() {
    for (mode, levels) in [(PagingMode::Layer3, 3), (PagingMode::Layer4, 4), (PagingMode::Layer5, 5)] {
        let pool = Pool::new(64);
        let t = tree(&pool, mode);
        assert_eq!(t.map(PhyPageNumber(0x40), VirtPageNumber(0x1FF), 3, PagePrivilege::ReadOnly, PageCache::IO), Ok(()));
        let before = reachable(&pool, t.root(), 1);
        assert_eq!(before, vec![t.root().0]);
        assert!(reachable(&pool, t.root(), levels).len() > 1);
        assert_eq!(t.unmap(VirtPageNumber(0x1FF), 3), Ok(()));
        assert_eq!(reachable(&pool, t.root(), levels), vec![t.root().0]);
    }
}

#[test]
fn mapping_twice_conflicts() {
    let pool = Pool::new(16);
    let t = tree(&pool, PagingMode::Layer3);
    assert_eq!(t.map(PhyPageNumber(1), VirtPageNumber(5), 1, PagePrivilege::ReadWrite, PageCache::Cacheable), Ok(()));
    assert_eq!(
        t.map(PhyPageNumber(2), VirtPageNumber(5), 1, PagePrivilege::ReadOnly, PageCache::Cacheable),
        Err(PageTreeError::MappingConflict)
    );
    assert_eq!(t.translate(VirtPageNumber(5)).unwrap().to, PhyPageNumber(1));
}

#[test]
fn unmapping_never_mapped_page_fails() {
    let pool = Pool::new(16);
    let t = tree(&pool, PagingMode::Layer3);
    assert_eq!(t.unmap(VirtPageNumber(7), 1), Err(PageTreeError::UnmappedRange));
}

#[test]
fn unmap_over_gap_changes_nothing() {
    let pool = Pool::new(16);
    let t = tree(&pool, PagingMode::Layer3);
    assert_eq!(t.map(PhyPageNumber(1), VirtPageNumber(10), 2, PagePrivilege::ReadWrite, PageCache::Cacheable), Ok(()));
    assert_eq!(t.unmap(VirtPageNumber(10), 3), Err(PageTreeError::UnmappedRange));
    assert_eq!(t.translate(VirtPageNumber(10)).unwrap().to, PhyPageNumber(1));
    assert_eq!(t.translate(VirtPageNumber(11)).unwrap().to, PhyPageNumber(2));
}

#[test]
fn allocation_returns_to_root_only() {
    let pool = Pool::new(64);
    let t = tree(&pool, PagingMode::Layer4);
    let after_new = pool.outstanding.get();
    assert_eq!(after_new, 1);
    let pages = [1u64, 0x200, 0x4_0000, 0x800_0000, 0x3FF];
    for (k, v) in pages.iter().enumerate() {
        assert_eq!(t.map(PhyPageNumber(100 + k as u64), VirtPageNumber(*v), 1, PagePrivilege::ReadWriteExecute, PageCache::NonCacheable), Ok(()));
    }
    assert!(pool.outstanding.get() > after_new);
    for v in pages {
        assert_eq!(t.unmap(VirtPageNumber(v), 1), Ok(()));
    }
    assert_eq!(pool.outstanding.get(), after_new);
}

#[test]
fn invalid_ranges_are_rejected() {
    let pool = Pool::new(16);
    let t = tree(&pool, PagingMode::Layer3);
    let rw = PagePrivilege::ReadWrite;
    let c = PageCache::Cacheable;
    assert_eq!(t.map(PhyPageNumber(1), VirtPageNumber(0), 1, rw, c), Err(PageTreeError::InvalidRange));
    // crosses the canonical gap
    assert_eq!(t.map(PhyPageNumber(1), VirtPageNumber(0x3FF_FFFF), 2, rw, c), Err(PageTreeError::InvalidRange));
    // physical range beyond what an entry holds
    assert_eq!(t.map(PhyPageNumber(0x3_FFFF_FFFF_FFFF), VirtPageNumber(1), 2, rw, c), Err(PageTreeError::InvalidRange));
    assert_eq!(t.unmap(VirtPageNumber(0x400_0000), 1), Err(PageTreeError::InvalidRange));
    assert_eq!(t.unmap(VirtPageNumber(u64::MAX), 2), Err(PageTreeError::InvalidRange));
    assert_eq!(pool.outstanding.get(), 1);
}

#[test]
fn high_half_mapping() {
    let pool = Pool::new(16);
    let t = tree(&pool, PagingMode::Layer3);
    let v = VirtPageNumber(0xF_FFFF_FC00_0000);
    assert_eq!(t.map(PhyPageNumber(9), v, 1, PagePrivilege::ExecuteOnly, PageCache::Cacheable), Ok(()));
    assert_eq!(t.translate(v).unwrap().to, PhyPageNumber(9));
    assert!(t.translate(VirtPageNumber(1)).is_none());
    assert_eq!(t.unmap(v, 1), Ok(()));
    assert_eq!(pool.outstanding.get(), 1);
}

#[test]
fn allocation_failure_is_reported() {
    let pool = Pool::new(2);
    let t = tree(&pool, PagingMode::Layer3);
    assert_eq!(
        t.map(PhyPageNumber(1), VirtPageNumber(1), 1, PagePrivilege::ReadWrite, PageCache::Cacheable),
        Err(PageTreeError::PhysicalPageAllocError)
    );
    // the middle table installed before the failure is freed again
    assert_eq!(pool.outstanding.get(), 1);
    assert!(matches!(pool.tables[t.root().0 as usize].iter()[0], PageTableEntry::Invalid(_)));
    let empty = Pool::new(0);
    assert!(PageTree::new(Access(&empty), Alloc(&empty), PagingMode::Layer3).is_err());
}

#[test]
fn release_frees_every_table() {
    let pool = Pool::new(32);
    let t = tree(&pool, PagingMode::Layer3);
    assert_eq!(t.map(PhyPageNumber(1), VirtPageNumber(1), 600, PagePrivilege::ReadWrite, PageCache::Cacheable), Ok(()));
    assert_eq!(pool.outstanding.get(), 4);
    assert_eq!(t.mode(), PagingMode::Layer3);
    t.release();
    assert_eq!(pool.outstanding.get(), 0);
}

#[test]
fn larger_mapping_blocks_map_and_unmap() {
    let pool = Pool::new(16);
    let t = tree(&pool, PagingMode::Layer3);
    let huge = PageTableEntry::Leaf(paging::entry::LeafPageTableEntry {
        to: PhyPageNumber(0x4_0000),
        privilege: PagePrivilege::ReadWrite,
        cache: PageCache::Cacheable,
        global: false,
        user: false,
        accessed: false,
        dirty: false,
        reserved: false,
    });
    // root slot 2 covers virtual pages 0x8_0000 .. 0xC_0000
    let root = &pool.tables[t.root().0 as usize];
    assert!(root.update_at(2, |_| Some(huge)).is_ok());
    assert_eq!(
        t.map(PhyPageNumber(1), VirtPageNumber(0x8_0001), 1, PagePrivilege::ReadOnly, PageCache::Cacheable),
        Err(PageTreeError::MappingConflict)
    );
    assert_eq!(t.unmap(VirtPageNumber(0x8_0001), 1), Err(PageTreeError::MappingConflict));
    assert!(t.translate(VirtPageNumber(0x8_0001)).is_none());
    assert_eq!(pool.outstanding.get(), 1);
}

#[test]
fn alloc_error_message() {
    assert_eq!(PhysicalPageAllocError.message(), "Failed to allocate physical page");
}

#[test]
fn allocation_failure_undoes_earlier_pages() {
    // root, middle and one last-level table: page 0x200 needs a second one
    let pool = Pool::new(3);
    let t = tree(&pool, PagingMode::Layer3);
    assert_eq!(
        t.map(PhyPageNumber(7), VirtPageNumber(0x1F0), 0x20, PagePrivilege::ReadWrite, PageCache::Cacheable),
        Err(PageTreeError::PhysicalPageAllocError)
    );
    assert!(t.translate(VirtPageNumber(0x1F0)).is_none());
    assert!(t.translate(VirtPageNumber(0x1FF)).is_none());
    assert_eq!(pool.outstanding.get(), 1);
    assert_eq!(reachable(&pool, t.root(), 3), vec![t.root().0]);
    // pages mapped before the request stay
    let pool = Pool::new(3);
    let t = tree(&pool, PagingMode::Layer3);
    assert_eq!(t.map(PhyPageNumber(1), VirtPageNumber(0x10), 1, PagePrivilege::ReadOnly, PageCache::Cacheable), Ok(()));
    assert_eq!(
        t.map(PhyPageNumber(7), VirtPageNumber(0x1F0), 0x20, PagePrivilege::ReadWrite, PageCache::Cacheable),
        Err(PageTreeError::PhysicalPageAllocError)
    );
    assert_eq!(t.translate(VirtPageNumber(0x10)).unwrap().to, PhyPageNumber(1));
    assert!(t.translate(VirtPageNumber(0x1F0)).is_none());
    assert_eq!(pool.outstanding.get(), 3);
}

#[test]
fn empty_ranges_succeed() {
    let pool = Pool::new(4);
    let t = tree(&pool, PagingMode::Layer3);
    assert_eq!(t.map(PhyPageNumber(1), VirtPageNumber(1), 0, PagePrivilege::ReadOnly, PageCache::Cacheable), Ok(()));
    assert_eq!(t.unmap(VirtPageNumber(1), 0), Ok(()));
    assert_eq!(t.unmap(VirtPageNumber(0), 0), Err(PageTreeError::InvalidRange));
    assert_eq!(pool.outstanding.get(), 1);
}

struct ThreeLevelOnly;

impl paging::arch::ArchImpl for ThreeLevelOnly {
    fn flush_mmu(_addr_space: Option<usize>, _addr: Option<usize>) {}
    fn set_mmu(_addr_space: u16, _mode: PagingMode, _root_paging: PhyPageNumber) -> bool {
        false
    }
    fn get_max_address_space() -> u16 {
        0
    }
    fn get_default_paging_mode() -> PagingMode {
        PagingMode::Layer3
    }
    fn supports_paging_mode(mode: PagingMode) -> bool {
        mode == PagingMode::Layer3
    }
    fn arch_rand() -> usize {
        0
    }
}

#[test]
fn unsupported_mode_is_refused() {
    let pool = Pool::new(4);
    let r = PageTree::new_checked::<ThreeLevelOnly>(Access(&pool), Alloc(&pool), PagingMode::Layer4);
    assert!(matches!(r, Err(PageTreeError::UnsupportedMode)));
    assert_eq!(pool.outstanding.get(), 0);
    let t = PageTree::new_checked::<ThreeLevelOnly>(Access(&pool), Alloc(&pool), PagingMode::Layer3).unwrap();
    assert_eq!(t.mode(), PagingMode::Layer3);
    assert_eq!(pool.outstanding.get(), 1);
    let t5 = PageTree::new_checked::<paging::arch::TestArch>(Access(&pool), Alloc(&pool), PagingMode::Layer5).unwrap();
    assert_eq!(t5.mode(), PagingMode::Layer5);
}

#[test]
fn table_in_use_is_not_reclaimed() {
    let pool = Pool::new(8);
    let t = tree(&pool, PagingMode::Layer3);
    let rw = PagePrivilege::ReadWrite;
    let c = PageCache::Cacheable;
    assert_eq!(t.map(PhyPageNumber(1), VirtPageNumber(1), 1, rw, c), Ok(()));
    assert_eq!(t.map(PhyPageNumber(2), VirtPageNumber(2), 1, rw, c), Ok(()));
    assert_eq!(t.unmap(VirtPageNumber(1), 1), Ok(()));
    // the last-level table still holds page 2, so nothing was freed
    assert_eq!(pool.outstanding.get(), 3);
    assert_eq!(t.translate(VirtPageNumber(2)).unwrap().to, PhyPageNumber(2));
    // a retired slot marks a table being reclaimed: mapping into it is refused
    let root = &pool.tables[t.root().0 as usize];
    let PageTableEntry::Pointer(mid) = root.iter()[0] else { panic!("no middle table") };
    let PageTableEntry::Pointer(last) = pool.tables[mid.to.0 as usize].iter()[0] else { panic!("no last table") };
    let last_table = &pool.tables[last.to.0 as usize];
    assert!(last_table.update_at(3, |_| Some(PageTableEntry::Invalid(paging::entry::InvalidPageTableEntry(2)))).is_ok());
    assert_eq!(t.map(PhyPageNumber(3), VirtPageNumber(3), 1, rw, c), Err(PageTreeError::MappingConflict));
    assert_eq!(t.unmap(VirtPageNumber(3), 1), Err(PageTreeError::UnmappedRange));
}
