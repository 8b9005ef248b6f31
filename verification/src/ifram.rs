//! The physical transfer region a driver owns: one contiguous block of
//! memory the DMA engine can reach by physical address.  The allocator that
//! hands such blocks out is an external collaborator; this model keeps the
//! part of the contract the driver relies on — the block's physical base
//! and length — as plain values.

use vstd::prelude::*;

verus! {

/// Physical base at which a freshly requested region is modeled to sit when
/// the caller gives no placement hint.
pub const IFRAM_DEFAULT_BASE: u32 = 0x5000_0000;

/// A DMA-reachable memory region: physical base address and byte length.
///
/// The region is exclusively owned by one driver instance for that
/// instance's whole lifetime; nothing here shares or resizes it.
#[derive(Clone, Copy, PartialEq, Eq, Structural, Debug)]
pub struct IframRange {
    /// Physical base address of the region; never zero.
    pub phys_base: u32,
    /// Length of the region in bytes.
    pub len_bytes: usize,
}

impl IframRange {
    /// The region descriptor is usable: its base is nonzero and the region
    /// fits the physical address space.
    pub open spec fn spec_valid(self) -> bool {
        &&& self.phys_base != 0
        &&& self.phys_base + self.len_bytes <= u32::MAX
    }

    /// Obtains a region of exactly `len_bytes` bytes, placed at the hint if
    /// one is given.  Models the request/obtain contract of the external
    /// allocator; in this model a request within the address space always
    /// succeeds.
    pub fn request(len_bytes: usize, phys_hint: Option<u32>) -> (r: Option<IframRange>)
        requires
            phys_hint matches Some(base) ==> base != 0 && base + len_bytes <= u32::MAX,
            phys_hint is None ==> IFRAM_DEFAULT_BASE + len_bytes <= u32::MAX,
        ensures
            r matches Some(region) ==> {
                &&& region.spec_valid()
                &&& region.len_bytes == len_bytes
                &&& region.phys_base == match phys_hint {
                    Some(base) => base,
                    None => IFRAM_DEFAULT_BASE,
                }
            },
            r is Some,
    {
        match phys_hint {
            Some(base) => Some(IframRange { phys_base: base, len_bytes }),
            None => Some(IframRange { phys_base: IFRAM_DEFAULT_BASE, len_bytes }),
        }
    }
}

} // verus!
