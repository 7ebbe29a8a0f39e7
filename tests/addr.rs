use shim_sev::addr::{
    AddressTranslationError, AddressTranslator, ShimPhysAddr, ShimPhysUnencryptedAddr,
    ShimVirtAddr, SHIM_VIRT_OFFSET,
};

fn translator() -> AddressTranslator {
    AddressTranslator { start: 0x10_0000, end: 0x20_0000, cbit_mask: 1 << 47 }
}

#[test]
fn virt_to_phys_inside_region() {
    let t = translator();
    let v = ShimVirtAddr(SHIM_VIRT_OFFSET + 0x10_1000);
    assert_eq!(t.virt_to_phys_unencrypted(v), Ok(ShimPhysUnencryptedAddr(0x10_1000)));
}

#[test]
fn virt_round_trip_inside_region() {
    let t = translator();
    for off in [0x10_0000u64, 0x15_5558, 0x1F_FFFF] {
        let v = ShimVirtAddr(SHIM_VIRT_OFFSET + off);
        let p = t.virt_to_phys_unencrypted(v).unwrap();
        assert_eq!(t.phys_unencrypted_to_virt(p), Ok(v));
    }
}

#[test]
fn virt_outside_region_fails() {
    let t = translator();
    let below = ShimVirtAddr(SHIM_VIRT_OFFSET + 0x0F_FFFF);
    let above = ShimVirtAddr(SHIM_VIRT_OFFSET + 0x20_0000);
    let low_half = ShimVirtAddr(0x10_1000);
    assert_eq!(t.virt_to_phys_unencrypted(below), Err(AddressTranslationError));
    assert_eq!(t.virt_to_phys_unencrypted(above), Err(AddressTranslationError));
    assert_eq!(t.virt_to_phys_unencrypted(low_half), Err(AddressTranslationError));
}

#[test]
fn phys_outside_region_fails() {
    let t = translator();
    assert_eq!(
        t.phys_unencrypted_to_virt(ShimPhysUnencryptedAddr(0x20_0000)),
        Err(AddressTranslationError)
    );
}

#[test]
fn encryption_bit_applied_and_stripped() {
    let t = translator();
    let p = ShimPhysUnencryptedAddr(0x10_2000);
    let e = t.phys_unencrypted_to_encrypted(p).unwrap();
    assert_eq!(e, ShimPhysAddr(0x8000_0010_2000));
    assert_eq!(t.phys_encrypted_to_unencrypted(e), Ok(p));
}

#[test]
fn encrypted_without_bit_fails() {
    let t = translator();
    assert_eq!(
        t.phys_encrypted_to_unencrypted(ShimPhysAddr(0x10_2000)),
        Err(AddressTranslationError)
    );
}

#[test]
fn zero_mask_keeps_addresses() {
    let t = AddressTranslator { start: 0x1000, end: 0x2000, cbit_mask: 0 };
    let p = ShimPhysUnencryptedAddr(0x1800);
    assert_eq!(t.phys_unencrypted_to_encrypted(p), Ok(ShimPhysAddr(0x1800)));
    assert_eq!(t.phys_encrypted_to_unencrypted(ShimPhysAddr(0x1800)), Ok(p));
}

#[test]
fn virt_with_encryption_bit_in_physical_is_refused() {
    let t = AddressTranslator { start: 0x10_0000, end: 0x20_0000, cbit_mask: 0x10_0000 };
    let v = ShimVirtAddr(SHIM_VIRT_OFFSET + 0x10_4000);
    assert_eq!(t.virt_to_phys_unencrypted(v), Err(AddressTranslationError));
    assert_eq!(
        t.phys_unencrypted_to_virt(ShimPhysUnencryptedAddr(0x10_4000)),
        Err(AddressTranslationError)
    );
}
