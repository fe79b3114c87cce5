use formula::flags::Flags;

#[test]
fn default_is_all_clear() {
    let f = Flags::default();
    assert_eq!(f.bits(), 0x00);
    assert!(!f.z());
    assert!(!f.n());
    assert!(!f.h());
    assert!(!f.c());
}

#[test]
fn each_setter_toggles_its_bit() {
    let mut f = Flags::default();

    f.set_z(true);
    assert!(f.z());
    assert_eq!(f.bits(), 0b1000_0000);

    f.set_n(true);
    assert_eq!(f.bits(), 0b1100_0000);

    f.set_h(true);
    assert_eq!(f.bits(), 0b1110_0000);

    f.set_c(true);
    assert_eq!(f.bits(), 0b1111_0000);

    f.set_z(false);
    assert!(!f.z());
    assert_eq!(f.bits(), 0b0111_0000);
}

#[test]
fn from_bits_masks_lower_nibble() {
    assert_eq!(Flags::from_bits(0xff).bits(), 0xf0);
    assert_eq!(Flags::from_bits(0xa5).bits(), 0xa0);
    assert_eq!(Flags::from_bits(0x0f).bits(), 0x00);
}

#[test]
fn setters_preserve_lower_nibble_invariant() {
    // even if from_bits is called with garbage, every setter must keep low nibble at zero
    let mut f = Flags::from_bits(0xff);
    assert_eq!(f.bits(), 0xf0);

    f.set_c(false);
    assert_eq!(f.bits() & 0x0f, 0x00);

    f.set_h(false);
    f.set_z(true);
    f.set_n(true);
    assert_eq!(f.bits() & 0x0f, 0x00);
}
