//! The hardware capabilities that an architecture offers the paging core.
use vstd::prelude::*;

use crate::page::{PagingMode, PhyPageNumber};

verus! {

/// Privileged operations of a processor architecture. The entry format is
/// not part of it: page tables use the `Arch` encoding.
pub trait ArchImpl {
    /// Invalidates cached translations: of one address space or all (`None`),
    /// for one address or all (`None`).
    fn flush_mmu(addr_space: Option<usize>, addr: Option<usize>);

    /// Makes `root_paging` the translation root of `addr_space` under `mode`,
    /// and reports whether the hardware took it. The caller flushes afterwards.
    fn set_mmu(addr_space: u16, mode: PagingMode, root_paging: PhyPageNumber) -> bool;

    /// The largest address-space id that the hardware latches.
    fn get_max_address_space() -> u16;

    /// The paging mode that the architecture starts in.
    fn get_default_paging_mode() -> PagingMode;

    /// Whether the hardware can translate under `mode`.
    fn supports_paging_mode(mode: PagingMode) -> bool;

    /// A best-effort, low-quality entropy word.
    fn arch_rand() -> usize;
}

/// A stand-in architecture for running the paging logic off hardware: it has
/// no MMU to program or flush, a full address-space id range, every paging
/// mode with the three-level one as default, and no entropy.
#[derive(Clone, Copy, Debug, PartialEq, Eq, Structural, Hash, Default)]
pub struct TestArch;

impl ArchImpl for TestArch {
    fn flush_mmu(addr_space: Option<usize>, addr: Option<usize>) {
    }

    fn set_mmu(addr_space: u16, mode: PagingMode, root_paging: PhyPageNumber) -> bool {
        false
    }

    fn get_max_address_space() -> u16 {
        u16::MAX
    }

    fn get_default_paging_mode() -> PagingMode {
        PagingMode::Layer3
    }

    fn supports_paging_mode(mode: PagingMode) -> bool {
        true
    }

    fn arch_rand() -> usize {
        0
    }
}

} // verus!
