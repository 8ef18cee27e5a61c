//! The RISC-V 64 page-table-entry format and translation-control word.
use vstd::prelude::*;

use crate::entry::{
    InvalidPageTableEntry, LeafPageTableEntry, PageCache, PagePrivilege, PageTableEntry,
    PointerPageTableEntry,
};
use crate::page::{PagingMode, PhyPageNumber};

verus! {

pub const VALID_BIT: u64 = 1;

pub const PRIVILEGE_OFFSET: u64 = 1;

pub const PRIVILEGE_MASK: u64 = 7;

pub const USER_OFFSET: u64 = 4;

pub const GLOBAL_OFFSET: u64 = 5;

pub const ACCESS_OFFSET: u64 = 6;

pub const DIRTY_OFFSET: u64 = 7;

pub const RESERVED_OFFSET: u64 = 8;

pub const PPN_OFFSET: u64 = 10;

pub const PPN_MASK: u64 = 0x3_FFFF_FFFF_FFFF;

pub const CACHE_OFFSET: u64 = 61;

pub const CACHE_MASK: u64 = 3;

/// Physical page numbers below this bound fit in an entry.
pub const PPN_LIMIT: u64 = 0x4_0000_0000_0000;

/// The field of `w` that starts at bit `offset` and is selected by `mask`.
pub open spec fn field(w: u64, offset: u64, mask: u64) -> u64 {
    (w >> offset) & mask
}

/// Code of a privilege in the R, W, X permission bits.
pub open spec fn privilege_code(p: PagePrivilege) -> u64 {
    match p {
        PagePrivilege::ReadOnly => 1,
        PagePrivilege::ExecuteOnly => 4,
        PagePrivilege::ReadExecute => 5,
        PagePrivilege::ReadWrite => 3,
        PagePrivilege::ReadWriteExecute => 7,
    }
}

/// Whether a nonzero permission code names a privilege (write without
/// read is reserved).
pub open spec fn is_privilege_code(c: u64) -> bool {
    c == 1 || c == 3 || c == 4 || c == 5 || c == 7
}

/// The privilege that a permission code names.
pub open spec fn privilege_of_code(c: u64) -> PagePrivilege {
    if c == 1 {
        PagePrivilege::ReadOnly
    } else if c == 4 {
        PagePrivilege::ExecuteOnly
    } else if c == 5 {
        PagePrivilege::ReadExecute
    } else if c == 3 {
        PagePrivilege::ReadWrite
    } else {
        PagePrivilege::ReadWriteExecute
    }
}

/// Code of a memory type in the page-based memory-type bits.
pub open spec fn cache_code(c: PageCache) -> u64 {
    match c {
        PageCache::Cacheable => 0,
        PageCache::NonCacheable => 1,
        PageCache::IO => 2,
    }
}

/// The memory type that a code names (code 3 is reserved).
pub open spec fn cache_of_code(c: u64) -> PageCache {
    if c == 0 {
        PageCache::Cacheable
    } else if c == 1 {
        PageCache::NonCacheable
    } else {
        PageCache::IO
    }
}

pub open spec fn flag(b: bool) -> u64 {
    if b {
        1
    } else {
        0
    }
}

/// Whether an entry has an encoding: a target page that fits in the
/// page-number field, or an absent entry whose word keeps bit 0 clear.
pub open spec fn representable(e: PageTableEntry) -> bool {
    match e {
        PageTableEntry::Pointer(p) => p.to.0 < PPN_LIMIT,
        PageTableEntry::Leaf(l) => l.to.0 < PPN_LIMIT,
        PageTableEntry::Invalid(i) => i.0 % 2 == 0,
    }
}

/// The word of an entry.
pub open spec fn encode(e: PageTableEntry) -> u64 {
    match e {
        PageTableEntry::Pointer(p) => VALID_BIT | (p.to.0 << PPN_OFFSET) | (flag(p.reserved)
            << RESERVED_OFFSET) | (flag(p.global) << GLOBAL_OFFSET),
        PageTableEntry::Leaf(l) => VALID_BIT | (l.to.0 << PPN_OFFSET) | (privilege_code(
            l.privilege,
        ) << PRIVILEGE_OFFSET) | (cache_code(l.cache) << CACHE_OFFSET) | (flag(l.reserved)
            << RESERVED_OFFSET) | (flag(l.global) << GLOBAL_OFFSET) | (flag(l.user)
            << USER_OFFSET) | (flag(l.accessed) << ACCESS_OFFSET) | (flag(l.dirty)
            << DIRTY_OFFSET),
        PageTableEntry::Invalid(i) => i.0,
    }
}

/// The entry that a word holds. A word with the valid bit clear is absent
/// and keeps its whole word; a valid word with permission code 0 points to
/// a child table; one with a privilege code and a defined memory type is a
/// leaf. A valid word with a reserved permission or memory-type code is
/// treated as absent, as the hardware faults on it.
pub open spec fn decode(w: u64) -> PageTableEntry {
    if w & 1 == 0 {
        PageTableEntry::Invalid(InvalidPageTableEntry(w))
    } else if field(w, PRIVILEGE_OFFSET, PRIVILEGE_MASK) == 0 {
        PageTableEntry::Pointer(
            PointerPageTableEntry {
                to: PhyPageNumber(field(w, PPN_OFFSET, PPN_MASK)),
                global: field(w, GLOBAL_OFFSET, 1) == 1,
                reserved: field(w, RESERVED_OFFSET, 1) == 1,
            },
        )
    } else if is_privilege_code(field(w, PRIVILEGE_OFFSET, PRIVILEGE_MASK)) && field(
        w,
        CACHE_OFFSET,
        CACHE_MASK,
    ) < 3 {
        PageTableEntry::Leaf(
            LeafPageTableEntry {
                to: PhyPageNumber(field(w, PPN_OFFSET, PPN_MASK)),
                privilege: privilege_of_code(field(w, PRIVILEGE_OFFSET, PRIVILEGE_MASK)),
                cache: cache_of_code(field(w, CACHE_OFFSET, CACHE_MASK)),
                global: field(w, GLOBAL_OFFSET, 1) == 1,
                user: field(w, USER_OFFSET, 1) == 1,
                accessed: field(w, ACCESS_OFFSET, 1) == 1,
                dirty: field(w, DIRTY_OFFSET, 1) == 1,
                reserved: field(w, RESERVED_OFFSET, 1) == 1,
            },
        )
    } else {
        PageTableEntry::Invalid(InvalidPageTableEntry(w))
    }
}

/// Translation-control mode code of a paging mode.
pub open spec fn mode_code(mode: PagingMode) -> u64 {
    match mode {
        PagingMode::Layer3 => 8,
        PagingMode::Layer4 => 9,
        PagingMode::Layer5 => 10,
    }
}

/// Root page numbers below this bound fit in the translation-control word.
pub const SATP_PPN_LIMIT: u64 = 0x1000_0000_0000;

/// The translation-control word: mode at bit 60, address-space id at bit
/// 44, root table page number in the low bits.
pub open spec fn satp_word(addr_space: u16, mode: PagingMode, root: PhyPageNumber) -> u64 {
    (mode_code(mode) << 60u64) | ((addr_space as u64) << 44u64) | root.0
}

/// The RISC-V 64 architecture.
#[derive(Clone, Copy, Debug, PartialEq, Eq, Structural, Hash, Default)]
pub struct Riscv64;

/// The architecture whose entry format page tables use.
pub type Arch = Riscv64;

fn flag_bit(b: bool) -> (r: u64)
    ensures
        r == flag(b),
{
    if b {
        1
    } else {
        0
    }
}

fn privilege_to_number(p: PagePrivilege) -> (r: u64)
    ensures
        r == privilege_code(p),
        is_privilege_code(r),
{
    match p {
        PagePrivilege::ReadOnly => 1,
        PagePrivilege::ExecuteOnly => 4,
        PagePrivilege::ReadExecute => 5,
        PagePrivilege::ReadWrite => 3,
        PagePrivilege::ReadWriteExecute => 7,
    }
}

fn number_to_privilege(num: u64) -> (r: PagePrivilege)
    requires
        is_privilege_code(num),
    ensures
        r == privilege_of_code(num),
        privilege_code(r) == num,
{
    if num == 1 {
        PagePrivilege::ReadOnly
    } else if num == 4 {
        PagePrivilege::ExecuteOnly
    } else if num == 5 {
        PagePrivilege::ReadExecute
    } else if num == 3 {
        PagePrivilege::ReadWrite
    } else {
        PagePrivilege::ReadWriteExecute
    }
}

fn number_to_cache(num: u64) -> (r: PageCache)
    requires
        num < 3,
    ensures
        r == cache_of_code(num),
        cache_code(r) == num,
{
    if num == 0 {
        PageCache::Cacheable
    } else if num == 1 {
        PageCache::NonCacheable
    } else {
        PageCache::IO
    }
}

fn cache_to_number(c: PageCache) -> (r: u64)
    ensures
        r == cache_code(c),
        r < 3,
{
    match c {
        PageCache::Cacheable => 0,
        PageCache::NonCacheable => 1,
        PageCache::IO => 2,
    }
}

impl Riscv64 {
    /// The word of a page-table entry.
    pub fn pte_to_num(pte: PageTableEntry) -> (r: u64)
        requires
            representable(pte),
        ensures
            r == encode(pte),
    {
        match pte {
            PageTableEntry::Pointer(p) => VALID_BIT | (p.to.0 << PPN_OFFSET) | (flag_bit(p.reserved)
                << RESERVED_OFFSET) | (flag_bit(p.global) << GLOBAL_OFFSET),
            PageTableEntry::Leaf(l) => VALID_BIT | (l.to.0 << PPN_OFFSET) | (privilege_to_number(
                l.privilege,
            ) << PRIVILEGE_OFFSET) | (cache_to_number(l.cache) << CACHE_OFFSET) | (flag_bit(
                l.reserved,
            ) << RESERVED_OFFSET) | (flag_bit(l.global) << GLOBAL_OFFSET) | (flag_bit(l.user)
                << USER_OFFSET) | (flag_bit(l.accessed) << ACCESS_OFFSET) | (flag_bit(l.dirty)
                << DIRTY_OFFSET),
            PageTableEntry::Invalid(i) => i.0,
        }
    }

    /// The page-table entry that a word holds.
    pub fn num_to_pte(num: u64) -> (r: PageTableEntry)
        ensures
            r == decode(num),
    {
        let code = (num >> PRIVILEGE_OFFSET) & PRIVILEGE_MASK;
        let cache = (num >> CACHE_OFFSET) & CACHE_MASK;
        if num & 1 == 0 {
            PageTableEntry::Invalid(InvalidPageTableEntry(num))
        } else if code == 0 {
            PageTableEntry::Pointer(
                PointerPageTableEntry {
                    to: PhyPageNumber((num >> PPN_OFFSET) & PPN_MASK),
                    global: (num >> GLOBAL_OFFSET) & 1 == 1,
                    reserved: (num >> RESERVED_OFFSET) & 1 == 1,
                },
            )
        } else if (code == 1 || code == 3 || code == 4 || code == 5 || code == 7) && cache < 3 {
            PageTableEntry::Leaf(
                LeafPageTableEntry {
                    to: PhyPageNumber((num >> PPN_OFFSET) & PPN_MASK),
                    privilege: number_to_privilege(code),
                    cache: number_to_cache(cache),
                    global: (num >> GLOBAL_OFFSET) & 1 == 1,
                    user: (num >> USER_OFFSET) & 1 == 1,
                    accessed: (num >> ACCESS_OFFSET) & 1 == 1,
                    dirty: (num >> DIRTY_OFFSET) & 1 == 1,
                    reserved: (num >> RESERVED_OFFSET) & 1 == 1,
                },
            )
        } else {
            PageTableEntry::Invalid(InvalidPageTableEntry(num))
        }
    }

    /// The translation-control word that selects `root` as the root table
    /// of `addr_space` under `mode`.
    pub fn satp_value(addr_space: u16, mode: PagingMode, root: PhyPageNumber) -> (r: u64)
        requires
            root.0 < SATP_PPN_LIMIT,
        ensures
            r == satp_word(addr_space, mode, root),
    {
        let code: u64 = match mode {
            PagingMode::Layer3 => 8,
            PagingMode::Layer4 => 9,
            PagingMode::Layer5 => 10,
        };
        (code << 60u64) | ((addr_space as u64) << 44u64) | root.0
    }

    /// The address-space id field of a translation-control word.
    pub fn address_space_of(satp: u64) -> (r: u16)
        ensures
            r as u64 == (satp >> 44u64) & 0xFFFF,
    {
        let v = (satp >> 44u64) & 0xFFFF;
        assert(v < 0x1_0000) by (bit_vector)
            requires
                v == (satp >> 44u64) & 0xFFFF,
        ;
        v as u16
    }

    /// The paging mode that this architecture starts in.
    pub fn get_default_paging_mode() -> (r: PagingMode)
        ensures
            r == PagingMode::Layer3,
    {
        PagingMode::Layer3
    }
}

/// Decoding a word written by `satp_value` gives the address-space id back.
pub proof fn lemma_satp_address_space(addr_space: u16, mode: PagingMode, root: PhyPageNumber)
    requires
        root.0 < SATP_PPN_LIMIT,
    ensures
        (satp_word(addr_space, mode, root) >> 44u64) & 0xFFFF == addr_space as u64,
        satp_word(addr_space, mode, root) & 0xFFF_FFFF_FFFF == root.0,
        satp_word(addr_space, mode, root) >> 60u64 == mode_code(mode),
{
    let c = mode_code(mode);
    let a = addr_space as u64;
    let p = root.0;
    assert({
        let w = (c << 60u64) | (a << 44u64) | p;
        &&& (w >> 44u64) & 0xFFFF == a
        &&& w & 0xFFF_FFFF_FFFF == p
        &&& w >> 60u64 == c
    }) by (bit_vector)
        requires
            8 <= c <= 10,
            a < 0x1_0000,
            p < 0x1000_0000_0000,
    ;
}

proof fn lemma_leaf_word(to: u64, p: u64, c: u64, r: u64, g: u64, u: u64, a: u64, d: u64)
    by (bit_vector)
    requires
        to < 0x4_0000_0000_0000,
        1 <= p < 8,
        c < 3,
        r < 2,
        g < 2,
        u < 2,
        a < 2,
        d < 2,
    ensures
        ({
            let w = 1u64 | (to << 10u64) | (p << 1u64) | (c << 61u64) | (r << 8u64) | (g << 5u64)
                | (u << 4u64) | (a << 6u64) | (d << 7u64);
            &&& w & 1 == 1
            &&& (w >> 1u64) & 7 == p
            &&& (w >> 10u64) & 0x3_FFFF_FFFF_FFFF == to
            &&& (w >> 61u64) & 3 == c
            &&& (w >> 8u64) & 1 == r
            &&& (w >> 5u64) & 1 == g
            &&& (w >> 4u64) & 1 == u
            &&& (w >> 6u64) & 1 == a
            &&& (w >> 7u64) & 1 == d
        }),
{
}

proof fn lemma_pointer_word(to: u64, r: u64, g: u64)
    by (bit_vector)
    requires
        to < 0x4_0000_0000_0000,
        r < 2,
        g < 2,
    ensures
        ({
            let w = 1u64 | (to << 10u64) | (r << 8u64) | (g << 5u64);
            &&& w & 1 == 1
            &&& (w >> 1u64) & 7 == 0
            &&& (w >> 10u64) & 0x3_FFFF_FFFF_FFFF == to
            &&& (w >> 8u64) & 1 == r
            &&& (w >> 5u64) & 1 == g
        }),
{
}

/// Decoding the encoding of a representable entry gives the entry back.
pub proof fn lemma_round_trip(e: PageTableEntry)
    requires
        representable(e),
    ensures
        decode(encode(e)) == e,
{
    match e {
        PageTableEntry::Pointer(p) => {
            lemma_pointer_word(p.to.0, flag(p.reserved), flag(p.global));
        },
        PageTableEntry::Leaf(l) => {
            lemma_leaf_word(
                l.to.0,
                privilege_code(l.privilege),
                cache_code(l.cache),
                flag(l.reserved),
                flag(l.global),
                flag(l.user),
                flag(l.accessed),
                flag(l.dirty),
            );
        },
        PageTableEntry::Invalid(i) => {
            let x = i.0;
            assert(x & 1 == 0) by (bit_vector)
                requires
                    x % 2 == 0,
            ;
        },
    }
}

} // verus!
