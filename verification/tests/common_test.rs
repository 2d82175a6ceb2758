//! Bit utilities over the unsigned integer widths.

use arm7tdmi::common::BitOperation;

#[test]
fn test_modify_bit() {
    assert_eq!(0b01011_u32, 0b01001_u32.set_bit(1));
    assert_eq!(0b01011_u8, 0b01001_u8.set_bit(1));
    assert_eq!(0b00001_u32, 0b01001_u32.clear_bit(3));
    assert_eq!(0b00001_u32, 0b01001_u32.flip_bit(3));
    assert_eq!(0b00000_u16, 0b00001_u16.flip_bit(0));
}

#[test]
fn test_check_bits() {
    assert_eq!(true, 0b01001_u32.is_bit_set(3));
    assert_eq!(false, 0b01001_u32.is_bit_set(2));
    assert_eq!(false, 0b01001_u32.is_bit_clear(3));
    assert_eq!(true, 0b01001_u32.is_bit_clear(2));
    assert_eq!(0xaa, 0x08ae21aa_u32.get_range(7, 0));
    assert_eq!(0xe, 0x08ae21aa_u32.get_range(19, 16));
}

#[test]
fn test_bits_wide() {
    assert_eq!(0xffff_ffff_u32.get_range(31, 0), 0xffff_ffff);
    assert_eq!(0xaabb_ccdd_1122_3344_u64.get_range(63, 32), 0xaabb_ccdd);
    assert_eq!(0xaabb_ccdd_1122_3344_u64.get_range(31, 0), 0x1122_3344);
    assert!(0x8000_0000_0000_0000_u64.is_bit_set(63));
    assert_eq!(0x80_u8.get_range(7, 4), 0x8);
}

#[test]
fn test_wrapping_helpers() {
    assert_eq!(arm7tdmi::common::wrapping_add_u32(0xffff_ffff, 2), 1);
    assert_eq!(arm7tdmi::common::wrapping_sub_u32(1, 2), 0xffff_ffff);
    assert_eq!(arm7tdmi::common::ror32(0x0000_00ff, 8), 0xff00_0000);
    assert_eq!(arm7tdmi::common::ror32(0x1234_5678, 0), 0x1234_5678);
    assert_eq!(arm7tdmi::common::ror32(0x1234_5678, 32), 0x1234_5678);
    assert_eq!(arm7tdmi::common::sign_extend_byte(0x80), 0xffff_ff80);
    assert_eq!(arm7tdmi::common::sign_extend_byte(0x7f), 0x7f);
    assert_eq!(arm7tdmi::common::sign_extend_half(0x8000), 0xffff_8000);
    assert_eq!(arm7tdmi::common::sign_extend_half(0x7fff), 0x7fff);
}
