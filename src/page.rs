//! Page-granular addresses and paging modes.
use vstd::prelude::*;

verus! {

/// Number of distinct virtual page numbers of a 64-bit address space.
pub const VIRT_PAGE_SPACE: u64 = 0x10_0000_0000_0000;

/// One page of memory.
pub struct Page(pub [u8; 4096]);

impl Page {
    pub const SIZE: usize = 4096;

    pub const BITS: usize = 12;
}

/// Paging modes, each a width of the virtual address space.
#[derive(Clone, Copy, Debug, PartialEq, Eq, Structural, Hash)]
pub enum PagingMode {
    Layer3,
    Layer4,
    Layer5,
}

/// Width in bits of the virtual addresses of a paging mode.
pub open spec fn virt_bits(mode: PagingMode) -> nat {
    match mode {
        PagingMode::Layer3 => 39,
        PagingMode::Layer4 => 48,
        PagingMode::Layer5 => 57,
    }
}

/// Number of table levels that a walk goes through in a paging mode.
pub open spec fn layer_count(mode: PagingMode) -> nat {
    match mode {
        PagingMode::Layer3 => 3,
        PagingMode::Layer4 => 4,
        PagingMode::Layer5 => 5,
    }
}

/// Number of virtual pages in each canonical half of the address space:
/// `2^(virt_bits - 1 - Page::BITS)`.
pub open spec fn half_span(mode: PagingMode) -> int {
    match mode {
        PagingMode::Layer3 => 0x400_0000,
        PagingMode::Layer4 => 0x8_0000_0000,
        PagingMode::Layer5 => 0x1000_0000_0000,
    }
}

/// A virtual page number is valid when its address is canonical (the
/// unused high bits repeat the topmost used bit), and it is neither the
/// null page nor the last page of the address space.
pub open spec fn vpn_valid(v: int, mode: PagingMode) -> bool {
    (1 <= v < half_span(mode))
        || (VIRT_PAGE_SPACE - half_span(mode) <= v < VIRT_PAGE_SPACE - 1)
}

/// Whether both page numbers lie in the same canonical half.
pub open spec fn same_half(a: int, b: int, mode: PagingMode) -> bool {
    (a < half_span(mode)) == (b < half_span(mode))
}

impl PagingMode {
    pub const MAX_LAYERS: usize = 6;

    /// Width in bits of the virtual addresses.
    pub fn virt_size(self) -> (r: usize)
        ensures
            r == virt_bits(self),
    {
        match self {
            PagingMode::Layer3 => 39,
            PagingMode::Layer4 => 48,
            PagingMode::Layer5 => 57,
        }
    }

    /// Number of table levels of a walk.
    pub fn layers(self) -> (r: usize)
        ensures
            r == layer_count(self),
            3 <= r <= 5,
    {
        match self {
            PagingMode::Layer3 => 3,
            PagingMode::Layer4 => 4,
            PagingMode::Layer5 => 5,
        }
    }

    /// Number of virtual pages in each canonical half of the address space.
    pub fn half_pages(self) -> (r: u64)
        ensures
            r == half_span(self),
    {
        match self {
            PagingMode::Layer3 => 0x400_0000,
            PagingMode::Layer4 => 0x8_0000_0000,
            PagingMode::Layer5 => 0x1000_0000_0000,
        }
    }
}

/// A physical page number: a physical address divided by the page size.
#[derive(Clone, Copy, Debug, PartialEq, Eq, Structural, PartialOrd, Ord, Hash)]
pub struct PhyPageNumber(pub u64);

/// A virtual page number: a virtual address divided by the page size.
#[derive(Clone, Copy, Debug, PartialEq, Eq, Structural, PartialOrd, Ord, Hash)]
pub struct VirtPageNumber(pub u64);

impl PhyPageNumber {
    /// Number of steps from `start` to `end`, with `None` as upper bound when
    /// `end` lies before `start`.
    pub fn steps_between(start: &Self, end: &Self) -> (r: (u64, Option<u64>))
        ensures
            start.0 <= end.0 ==> r == (((end.0 - start.0) as u64, Some((end.0 - start.0) as u64))),
            start.0 > end.0 ==> r == (0u64, None::<u64>),
    {
        if start.0 > end.0 {
            return (0, None);
        }
        let steps = end.0 - start.0;
        (steps, Some(steps))
    }

    /// The page `count` pages after `start`, if it fits in 64 bits.
    pub fn forward_checked(start: Self, count: u64) -> (r: Option<Self>)
        ensures
            r == (if start.0 + count <= u64::MAX {
                Some(PhyPageNumber((start.0 + count) as u64))
            } else {
                None
            }),
    {
        match start.0.checked_add(count) {
            Some(n) => Some(PhyPageNumber(n)),
            None => None,
        }
    }

    /// The page `count` pages before `start`, if it is not below zero.
    pub fn backward_checked(start: Self, count: u64) -> (r: Option<Self>)
        ensures
            r == (if start.0 >= count {
                Some(PhyPageNumber((start.0 - count) as u64))
            } else {
                None
            }),
    {
        match start.0.checked_sub(count) {
            Some(n) => Some(PhyPageNumber(n)),
            None => None,
        }
    }
}

impl VirtPageNumber {
    /// Number of steps from `start` to `end`, with `None` as upper bound when
    /// `end` lies before `start`.
    pub fn steps_between(start: &Self, end: &Self) -> (r: (u64, Option<u64>))
        ensures
            start.0 <= end.0 ==> r == (((end.0 - start.0) as u64, Some((end.0 - start.0) as u64))),
            start.0 > end.0 ==> r == (0u64, None::<u64>),
    {
        if start.0 > end.0 {
            return (0, None);
        }
        let steps = end.0 - start.0;
        (steps, Some(steps))
    }

    /// The page `count` pages after `start`, if it fits in 64 bits.
    pub fn forward_checked(start: Self, count: u64) -> (r: Option<Self>)
        ensures
            r == (if start.0 + count <= u64::MAX {
                Some(VirtPageNumber((start.0 + count) as u64))
            } else {
                None
            }),
    {
        match start.0.checked_add(count) {
            Some(n) => Some(VirtPageNumber(n)),
            None => None,
        }
    }

    /// The page `count` pages before `start`, if it is not below zero.
    pub fn backward_checked(start: Self, count: u64) -> (r: Option<Self>)
        ensures
            r == (if start.0 >= count {
                Some(VirtPageNumber((start.0 - count) as u64))
            } else {
                None
            }),
    {
        match start.0.checked_sub(count) {
            Some(n) => Some(VirtPageNumber(n)),
            None => None,
        }
    }

    /// Whether this page number is valid under `paging_mode`: not the null
    /// page, not the last page, and canonical.
    pub fn is_valid(&self, paging_mode: PagingMode) -> (r: bool)
        ensures
            r == vpn_valid(self.0 as int, paging_mode),
    {
        let half = paging_mode.half_pages();
        if self.0 == 0 {
            return false;
        }
        if self.0 >= VIRT_PAGE_SPACE - 1 {
            return false;
        }
        self.0 < half || self.0 >= VIRT_PAGE_SPACE - half
    }
}

/// The validity predicate at its boundaries: the null page is invalid, the
/// first page is valid, the last page below the canonical gap and the first
/// page above it are valid, and the highest page inside the gap is invalid.
pub proof fn lemma_validity_boundaries(mode: PagingMode)
    ensures
        !vpn_valid(0, mode),
        vpn_valid(1, mode),
        vpn_valid(half_span(mode) - 1, mode),
        !vpn_valid(half_span(mode), mode),
        !vpn_valid(VIRT_PAGE_SPACE - half_span(mode) - 1, mode),
        vpn_valid(VIRT_PAGE_SPACE - half_span(mode), mode),
        !vpn_valid(VIRT_PAGE_SPACE - 1, mode),
{
}

impl From<usize> for PhyPageNumber {
    fn from(value: usize) -> (r: PhyPageNumber) {
        PhyPageNumber(value as u64)
    }
}

impl vstd::std_specs::convert::FromSpecImpl<usize> for PhyPageNumber {
    open spec fn obeys_from_spec() -> bool {
        true
    }

    open spec fn from_spec(v: usize) -> PhyPageNumber {
        PhyPageNumber(v as u64)
    }
}

impl From<usize> for VirtPageNumber {
    fn from(value: usize) -> (r: VirtPageNumber) {
        VirtPageNumber(value as u64)
    }
}

impl vstd::std_specs::convert::FromSpecImpl<usize> for VirtPageNumber {
    open spec fn obeys_from_spec() -> bool {
        true
    }

    open spec fn from_spec(v: usize) -> VirtPageNumber {
        VirtPageNumber(v as u64)
    }
}

} // verus!
