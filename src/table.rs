//! A page-sized table of atomically updated entry words.
use vstd::prelude::*;

use core::sync::atomic::{AtomicU64, Ordering};

use crate::entry::{PageTableEntry, InvalidPageTableEntry};
use crate::riscv64::{decode, encode, representable, Arch};

verus! {

/// Number of entries in one table: a page of 8-byte words.
pub const ENTRY_COUNT: usize = 512;

/// Whether an entry is what some word decodes to.
pub open spec fn decodes(e: PageTableEntry) -> bool {
    exists|w: u64| e == #[trigger] decode(w)
}

/// Whether `f` can be used to update an entry: it accepts every entry, and
/// every replacement it offers has an encoding.
pub open spec fn is_entry_update<F: Fn(PageTableEntry) -> Option<PageTableEntry>>(f: F) -> bool {
    &&& forall|e: PageTableEntry| #[trigger] f.requires((e,))
    &&& forall|e: PageTableEntry, o: Option<PageTableEntry>|
        #[trigger] f.ensures((e,), o) && o is Some ==> representable(o->Some_0)
}

/// Whether `f`, shown `e`, may offer a replacement.
pub open spec fn replaces<F: Fn(PageTableEntry) -> Option<PageTableEntry>>(
    f: F,
    e: PageTableEntry,
) -> bool {
    exists|n: PageTableEntry| #[trigger] f.ensures((e,), Some(n))
}

/// Whether `f`, shown `e`, may decline to replace it.
pub open spec fn declines<F: Fn(PageTableEntry) -> Option<PageTableEntry>>(
    f: F,
    e: PageTableEntry,
) -> bool {
    f.ensures((e,), None)
}

/// One step of an entry update on words: decode, apply `f`, encode.
fn next_word<F: Fn(PageTableEntry) -> Option<PageTableEntry>>(f: &F, w: u64) -> (r: Option<u64>)
    requires
        is_entry_update(*f),
    ensures
        r is Some ==> exists|e: PageTableEntry|
            #[trigger] (*f).ensures((decode(w),), Some(e)) && r->Some_0 == encode(e),
        r is None ==> declines(*f, decode(w)),
{
    let e = Arch::num_to_pte(w);
    let o = f(e);
    match o {
        Some(n) => Some(Arch::pte_to_num(n)),
        None => None,
    }
}

/// Relies on `AtomicU64::fetch_update`: it applies the step to the current
/// word, stores the new word when the step gives one (retrying when another
/// writer came first), and returns `Ok(previous)` when the step gave a word,
/// else `Err(previous)`.
#[verifier::external_body]
fn fetch_update_word<F: Fn(PageTableEntry) -> Option<PageTableEntry>>(
    cell: &AtomicU64,
    f: &F,
) -> (r: Result<u64, u64>)
    requires
        is_entry_update(*f),
    ensures
        r is Ok ==> replaces(*f, decode(r->Ok_0)),
        r is Err ==> declines(*f, decode(r->Err_0)),
{
    cell.fetch_update(Ordering::Relaxed, Ordering::Relaxed, |w| next_word(f, w))
}

/// An entry word that holds the default, absent entry.
fn empty_word() -> (r: AtomicU64) {
    AtomicU64::new(Arch::pte_to_num(PageTableEntry::Invalid(InvalidPageTableEntry(0))))
}

/// Relies on `core::array::from_fn`: it builds the array from one call of
/// the closure per element, in index order.
#[verifier::external_body]
fn empty_words() -> (r: [AtomicU64; 512]) {
    core::array::from_fn(|_| empty_word())
}

/// A page table: `ENTRY_COUNT` entry words held in the table itself (one
/// page of 8-byte words), each loaded and updated atomically so that
/// walkers on several processors can share it.
pub struct PageTable {
    entries: [AtomicU64; 512],
}

impl PageTable {
    pub const COUNT: usize = ENTRY_COUNT;

    /// A table whose entries are all the default, absent entry.
    pub fn new() -> (r: PageTable) {
        PageTable { entries: empty_words() }
    }

    /// Sets every entry back to the default, absent entry.
    pub fn reset(&self) {
        let empty = Arch::pte_to_num(PageTableEntry::Invalid(InvalidPageTableEntry(0)));
        let mut i: usize = 0;
        while i < ENTRY_COUNT
            decreases ENTRY_COUNT - i,
        {
            self.entries[i].store(empty, Ordering::Relaxed);
            i = i + 1;
        }
    }

    /// The entry at `index`, as loaded at one moment.
    pub fn load_at(&self, index: usize) -> (r: PageTableEntry)
        requires
            index < ENTRY_COUNT,
        ensures
            decodes(r),
    {
        Arch::num_to_pte(self.entries[index].load(Ordering::Relaxed))
    }

    /// The entries in index order, each decoded from its word as loaded
    /// while walking the table (a snapshot per entry, not of the table).
    pub fn iter(&self) -> (r: Vec<PageTableEntry>)
        ensures
            r.len() == ENTRY_COUNT,
            forall|i: int| 0 <= i < r.len() ==> decodes(#[trigger] r[i]),
    {
        let mut out: Vec<PageTableEntry> = Vec::new();
        let mut i: usize = 0;
        while i < ENTRY_COUNT
            invariant
                i <= ENTRY_COUNT,
                out.len() == i,
                forall|k: int| 0 <= k < out.len() ==> decodes(#[trigger] out[k]),
            decreases ENTRY_COUNT - i,
        {
            out.push(Arch::num_to_pte(self.entries[i].load(Ordering::Relaxed)));
            i = i + 1;
        }
        out
    }

    /// Updates the entry at `index` atomically: `f` sees the current entry;
    /// when it offers a replacement, the replacement is stored unless another
    /// writer changed the entry first, in which case `f` is asked again.
    /// Returns `Ok(previous)` once a replacement is stored, or `Err(current)`
    /// when `f` declines, leaving the entry as it is.
    pub fn update_at<F: Fn(PageTableEntry) -> Option<PageTableEntry>>(
        &self,
        index: usize,
        f: F,
    ) -> (r: Result<PageTableEntry, PageTableEntry>)
        requires
            index < ENTRY_COUNT,
            is_entry_update(f),
        ensures
            r is Ok ==> replaces(f, r->Ok_0),
            r is Err ==> declines(f, r->Err_0),
    {
        match fetch_update_word(&self.entries[index], &f) {
            Ok(w) => Ok(Arch::num_to_pte(w)),
            Err(w) => Err(Arch::num_to_pte(w)),
        }
    }
}

/// Whether every entry of a snapshot is absent.
pub fn all_invalid(entries: &Vec<PageTableEntry>) -> (r: bool)
    ensures
        r == forall|i: int| 0 <= i < entries.len() ==> (#[trigger] entries[i]) is Invalid,
{
    let mut i: usize = 0;
    while i < entries.len()
        invariant
            i <= entries.len(),
            forall|k: int| 0 <= k < i ==> (#[trigger] entries[k]) is Invalid,
        decreases entries.len() - i,
    {
        match entries[i] {
            PageTableEntry::Invalid(_) => {},
            _ => {
                return false;
            },
        }
        i = i + 1;
    }
    true
}

} // verus!
