//! Address translation for the shim's own memory.
//!
//! The shim sees its physical memory at a fixed virtual offset. Each physical location
//! has two aliases: the encrypted one, with the encryption bit set, and the unencrypted
//! one that the host can read. No page table is consulted: every conversion is a check
//! against the loaded region followed by fixed arithmetic.

use vstd::prelude::*;

verus! {

/// Distance from a shim physical address to the virtual address that maps it.
pub const SHIM_VIRT_OFFSET: u64 = 0xFFFF_FF80_0000_0000;

/// An address lies outside the shim's region, or its aliases are inconsistent.
#[derive(Debug, Clone, Copy, PartialEq, Eq, Structural)]
pub struct AddressTranslationError;

/// A virtual address in the shim's own address space.
#[derive(Debug, Clone, Copy, PartialEq, Eq, Structural)]
pub struct ShimVirtAddr(pub u64);

/// A physical address of shim memory with the encryption bit applied.
#[derive(Debug, Clone, Copy, PartialEq, Eq, Structural)]
pub struct ShimPhysAddr(pub u64);

/// A physical address of shim memory without the encryption bit: the host-visible alias.
#[derive(Debug, Clone, Copy, PartialEq, Eq, Structural)]
pub struct ShimPhysUnencryptedAddr(pub u64);

/// The physical range `[start, end)` into which the shim was loaded, together with
/// the encryption-control mask in force.
#[derive(Debug, Clone, Copy, PartialEq, Eq, Structural)]
pub struct AddressTranslator {
    pub start: u64,
    pub end: u64,
    pub cbit_mask: u64,
}

impl AddressTranslator {
    /// `p` is an unencrypted physical address inside the loaded region.
    pub open spec fn holds_phys(self, p: int) -> bool {
        self.start <= p < self.end
    }

    /// `v` is the virtual address of a location inside the loaded region.
    pub open spec fn holds_virt(self, v: int) -> bool {
        self.holds_phys(v - SHIM_VIRT_OFFSET)
    }

    /// `v` is the virtual address of a location inside the loaded region whose
    /// physical address has the encryption bit clear: it has an unencrypted alias.
    pub open spec fn valid_virt(self, v: u64) -> bool {
        self.holds_virt(v as int) && self.bit_clear((v - SHIM_VIRT_OFFSET) as u64)
    }

    /// The encryption bit is clear in `p`.
    pub open spec fn bit_clear(self, p: u64) -> bool {
        p & self.cbit_mask == 0
    }

    /// The encryption bit is set in `p`.
    pub open spec fn bit_set(self, p: u64) -> bool {
        p & self.cbit_mask == self.cbit_mask
    }

    /// `p` with the encryption bit stripped.
    pub open spec fn clear_bit(self, p: u64) -> u64 {
        p & !self.cbit_mask
    }

    /// `p` with the encryption bit applied.
    pub open spec fn set_bit(self, p: u64) -> u64 {
        p | self.cbit_mask
    }

    /// The unencrypted alias of a virtual address inside the region; refused where the
    /// physical address would carry the encryption bit.
    pub open spec fn virt_to_phys_unencrypted_spec(self, v: ShimVirtAddr) -> Result<ShimPhysUnencryptedAddr, AddressTranslationError> {
        if self.valid_virt(v.0) {
            Ok::<ShimPhysUnencryptedAddr, AddressTranslationError>(
                ShimPhysUnencryptedAddr((v.0 - SHIM_VIRT_OFFSET) as u64),
            )
        } else {
            Err(AddressTranslationError)
        }
    }

    /// The virtual address of an unencrypted alias inside the region; an address with
    /// the encryption bit set is no unencrypted alias and is refused.
    pub open spec fn phys_unencrypted_to_virt_spec(self, p: ShimPhysUnencryptedAddr) -> Result<ShimVirtAddr, AddressTranslationError> {
        if self.holds_phys(p.0 as int) && self.bit_clear(p.0) && p.0 + SHIM_VIRT_OFFSET <= u64::MAX {
            Ok::<ShimVirtAddr, AddressTranslationError>(
                ShimVirtAddr((p.0 + SHIM_VIRT_OFFSET) as u64),
            )
        } else {
            Err(AddressTranslationError)
        }
    }

    /// The encrypted alias of an unencrypted one inside the region.
    pub open spec fn phys_unencrypted_to_encrypted_spec(self, p: ShimPhysUnencryptedAddr) -> Result<ShimPhysAddr, AddressTranslationError> {
        if self.holds_phys(p.0 as int) && self.bit_clear(p.0) {
            Ok::<ShimPhysAddr, AddressTranslationError>(ShimPhysAddr(self.set_bit(p.0)))
        } else {
            Err(AddressTranslationError)
        }
    }

    /// The unencrypted alias of an encrypted address inside the region.
    pub open spec fn phys_encrypted_to_unencrypted_spec(self, e: ShimPhysAddr) -> Result<ShimPhysUnencryptedAddr, AddressTranslationError> {
        if self.bit_set(e.0) && self.holds_phys(self.clear_bit(e.0) as int) {
            Ok::<ShimPhysUnencryptedAddr, AddressTranslationError>(
                ShimPhysUnencryptedAddr(self.clear_bit(e.0)),
            )
        } else {
            Err(AddressTranslationError)
        }
    }

    /// Virtual address to the unencrypted physical alias.
    pub fn virt_to_phys_unencrypted(&self, v: ShimVirtAddr) -> (r: Result<
        ShimPhysUnencryptedAddr,
        AddressTranslationError,
    >)
        ensures
            r == self.virt_to_phys_unencrypted_spec(v),
    {
        if v.0 < SHIM_VIRT_OFFSET {
            return Err(AddressTranslationError);
        }
        let p = v.0 - SHIM_VIRT_OFFSET;
        if self.start <= p && p < self.end && p & self.cbit_mask == 0 {
            Ok(ShimPhysUnencryptedAddr(p))
        } else {
            Err(AddressTranslationError)
        }
    }

    /// Unencrypted physical alias back to the virtual address.
    pub fn phys_unencrypted_to_virt(&self, p: ShimPhysUnencryptedAddr) -> (r: Result<
        ShimVirtAddr,
        AddressTranslationError,
    >)
        ensures
            r == self.phys_unencrypted_to_virt_spec(p),
    {
        if self.start <= p.0 && p.0 < self.end && p.0 & self.cbit_mask == 0 && p.0 <= u64::MAX
            - SHIM_VIRT_OFFSET {
            Ok(ShimVirtAddr(p.0 + SHIM_VIRT_OFFSET))
        } else {
            Err(AddressTranslationError)
        }
    }

    /// Unencrypted physical alias to the encrypted one: the encryption bit is applied.
    pub fn phys_unencrypted_to_encrypted(&self, p: ShimPhysUnencryptedAddr) -> (r: Result<
        ShimPhysAddr,
        AddressTranslationError,
    >)
        ensures
            r == self.phys_unencrypted_to_encrypted_spec(p),
    {
        if self.start <= p.0 && p.0 < self.end && p.0 & self.cbit_mask == 0 {
            Ok(ShimPhysAddr(p.0 | self.cbit_mask))
        } else {
            Err(AddressTranslationError)
        }
    }

    /// Encrypted physical address to the unencrypted alias: the encryption bit is stripped.
    pub fn phys_encrypted_to_unencrypted(&self, e: ShimPhysAddr) -> (r: Result<
        ShimPhysUnencryptedAddr,
        AddressTranslationError,
    >)
        ensures
            r == self.phys_encrypted_to_unencrypted_spec(e),
    {
        let p = e.0 & !self.cbit_mask;
        if e.0 & self.cbit_mask == self.cbit_mask && self.start <= p && p < self.end {
            Ok(ShimPhysUnencryptedAddr(p))
        } else {
            Err(AddressTranslationError)
        }
    }
}

/// Stripping a clear bit after applying it gives back the original value.
proof fn lemma_set_then_clear(p: u64, m: u64)
    requires
        p & m == 0,
    ensures
        (p | m) & m == m,
        (p | m) & !m == p,
{
    assert((p | m) & m == m) by (bit_vector);
    assert((p | m) & !m == p) by (bit_vector)
        requires
            p & m == 0,
    ;
}

/// A virtual address inside the loaded region converts to its unencrypted physical
/// alias, which has the encryption bit clear, and back to itself; one outside the
/// region, or whose physical address carries the encryption bit, is refused.
pub proof fn lemma_virt_round_trip(t: AddressTranslator, v: ShimVirtAddr)
    ensures
        t.valid_virt(v.0) ==> ({
            let p = t.virt_to_phys_unencrypted_spec(v);
            p is Ok && t.bit_clear(p->Ok_0.0) && t.phys_unencrypted_to_virt_spec(p->Ok_0) == Ok::<
                ShimVirtAddr,
                AddressTranslationError,
            >(v)
        }),
        !t.valid_virt(v.0) ==> t.virt_to_phys_unencrypted_spec(v) == Err::<
            ShimPhysUnencryptedAddr,
            AddressTranslationError,
        >(AddressTranslationError),
{
}

/// Applying the encryption bit to an unencrypted alias inside the region and then
/// stripping it again gives back the same alias.
pub proof fn lemma_encryption_round_trip(t: AddressTranslator, p: ShimPhysUnencryptedAddr)
    requires
        t.holds_phys(p.0 as int),
        t.bit_clear(p.0),
    ensures
        ({
            let e = t.phys_unencrypted_to_encrypted_spec(p);
            e is Ok && t.phys_encrypted_to_unencrypted_spec(e->Ok_0) == Ok::<
                ShimPhysUnencryptedAddr,
                AddressTranslationError,
            >(p)
        }),
{
    lemma_set_then_clear(p.0, t.cbit_mask);
}

} // verus!
