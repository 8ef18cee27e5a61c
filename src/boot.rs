//! What the boot stage reports, in pages: memory regions and the kernel's
//! own segments.
use vstd::prelude::*;

use crate::page::{PhyPageNumber, VirtPageNumber};

verus! {

/// Kinds of firmware-reported memory that the kernel tracks.
#[derive(Clone, Copy, Debug, PartialEq, Eq, Structural, Hash)]
pub enum MemoryMapType {
    Unused,
    Reserved,
    BootloaderReserved,
}

/// A run of `len` pages at `phy_base` that is mapped at `virt_base`.
#[derive(Clone, Copy, Debug, PartialEq, Eq, Structural, Hash)]
pub struct PhyVirtMap {
    pub phy_base: PhyPageNumber,
    pub virt_base: VirtPageNumber,
    pub len: u64,
}

/// The kernel image's segments: code, read-only data, data, and what the
/// boot stage may drop once the kernel runs.
#[derive(Clone, Copy, Debug, PartialEq, Eq, Structural, Hash)]
pub struct KernelAddress {
    pub text: PhyVirtMap,
    pub ro: PhyVirtMap,
    pub data: PhyVirtMap,
    pub bl: PhyVirtMap,
}

/// Whether an address is page aligned.
pub open spec fn aligned(a: u64) -> bool {
    a % 4096 == 0
}

/// A byte region as pages: its first page and page count, when both its
/// base and its length are page aligned.
pub fn page_range(base: u64, length: u64) -> (r: Option<(PhyPageNumber, u64)>)
    ensures
        r == (if aligned(base) && aligned(length) {
            Some((PhyPageNumber(base / 4096), length / 4096))
        } else {
            None::<(PhyPageNumber, u64)>
        }),
{
    if base % 4096 != 0 || length % 4096 != 0 {
        return None;
    }
    Some((PhyPageNumber(base / 4096), length / 4096))
}

/// A boot-stage region that must stay mapped after boot, at `offset` above
/// its physical address: its physical page, virtual page and page count,
/// when all are page aligned and the virtual address fits in 64 bits.
pub fn offset_mapping(base: u64, length: u64, offset: u64) -> (r: Option<
    (PhyPageNumber, VirtPageNumber, u64),
>)
    ensures
        r == (if aligned(base) && aligned(length) && aligned(offset) && offset + base
            <= u64::MAX {
            Some(
                (
                    PhyPageNumber(base / 4096),
                    VirtPageNumber(((offset + base) / 4096) as u64),
                    length / 4096,
                ),
            )
        } else {
            None::<(PhyPageNumber, VirtPageNumber, u64)>
        }),
{
    if base % 4096 != 0 || length % 4096 != 0 || offset % 4096 != 0 || offset > u64::MAX - base {
        return None;
    }
    Some((PhyPageNumber(base / 4096), VirtPageNumber((offset + base) / 4096), length / 4096))
}

/// Whether the kernel's load addresses and segment boundaries can be laid
/// out: all page aligned, and the boundaries in order from `vbase` on.
pub open spec fn layout_ok(
    pbase: u64,
    vbase: u64,
    text_end: u64,
    ro_end: u64,
    data_end: u64,
    bl_end: u64,
) -> bool {
    &&& aligned(pbase) && aligned(vbase) && aligned(text_end) && aligned(ro_end)
    &&& aligned(data_end) && aligned(bl_end)
    &&& vbase <= text_end <= ro_end <= data_end <= bl_end
}

/// The segment that starts `offset` pages into the image and spans `len`
/// pages.
pub open spec fn segment(pbase: u64, vbase: u64, offset: int, len: int) -> PhyVirtMap {
    PhyVirtMap {
        phy_base: PhyPageNumber((pbase / 4096 + offset) as u64),
        virt_base: VirtPageNumber((vbase / 4096 + offset) as u64),
        len: len as u64,
    }
}

/// The kernel's segments in pages, from its physical and virtual load
/// addresses and the virtual addresses where text, read-only data, data
/// and the droppable part end. `None` when they cannot be laid out.
pub fn kernel_layout(
    pbase: u64,
    vbase: u64,
    text_end: u64,
    ro_end: u64,
    data_end: u64,
    bl_end: u64,
) -> (r: Option<KernelAddress>)
    ensures
        r == (if layout_ok(pbase, vbase, text_end, ro_end, data_end, bl_end) {
            Some(
                KernelAddress {
                    text: segment(pbase, vbase, 0, (text_end - vbase) / 4096),
                    ro: segment(pbase, vbase, (text_end - vbase) / 4096, (ro_end - text_end) / 4096),
                    data: segment(
                        pbase,
                        vbase,
                        (ro_end - vbase) / 4096,
                        (data_end - ro_end) / 4096,
                    ),
                    bl: segment(pbase, vbase, (data_end - vbase) / 4096, (bl_end - data_end) / 4096),
                },
            )
        } else {
            None::<KernelAddress>
        }),
{
    if pbase % 4096 != 0 || vbase % 4096 != 0 || text_end % 4096 != 0 || ro_end % 4096 != 0
        || data_end % 4096 != 0 || bl_end % 4096 != 0 {
        return None;
    }
    if !(vbase <= text_end && text_end <= ro_end && ro_end <= data_end && data_end <= bl_end) {
        return None;
    }
    let p = pbase / 4096;
    let v = vbase / 4096;
    let text_len = (text_end - vbase) / 4096;
    let ro_len = (ro_end - text_end) / 4096;
    let data_len = (data_end - ro_end) / 4096;
    let bl_len = (bl_end - data_end) / 4096;
    let ro_off = text_len;
    let data_off = ro_off + ro_len;
    let bl_off = data_off + data_len;
    assert(data_off == (ro_end - vbase) / 4096);
    assert(bl_off == (data_end - vbase) / 4096);
    Some(
        KernelAddress {
            text: PhyVirtMap { phy_base: PhyPageNumber(p), virt_base: VirtPageNumber(v), len: text_len },
            ro: PhyVirtMap {
                phy_base: PhyPageNumber(p + ro_off),
                virt_base: VirtPageNumber(v + ro_off),
                len: ro_len,
            },
            data: PhyVirtMap {
                phy_base: PhyPageNumber(p + data_off),
                virt_base: VirtPageNumber(v + data_off),
                len: data_len,
            },
            bl: PhyVirtMap {
                phy_base: PhyPageNumber(p + bl_off),
                virt_base: VirtPageNumber(v + bl_off),
                len: bl_len,
            },
        },
    )
}

} // verus!
