use orca_rs::bits::has_flag;
use orca_rs::bits::mask_if;
use orca_rs::wire::i32_from_bits;
use orca_rs::wire::i32_to_bits;
use orca_rs::wire::push_i32_be;
use orca_rs::wire::push_u16_be;
use orca_rs::wire::push_u16_le;
use orca_rs::wire::push_u32_be;
use orca_rs::wire::read_i32_be;
use orca_rs::wire::read_u16_be;
use orca_rs::wire::read_u16_le;
use orca_rs::wire::read_u32_be;

#[test]
fn sixteen_bits_high_byte_first() {
    let mut out = vec![0xEE];
    push_u16_be(&mut out, 0x5E56);
    assert_eq!(out, vec![0xEE, 0x5E, 0x56]);
    assert_eq!(read_u16_be(&out, 1), 24150);
    assert_eq!(read_u16_be(&[0x00, 0x19], 0), 25);
}

#[test]
fn sixteen_bits_low_byte_first() {
    let mut out = Vec::new();
    push_u16_le(&mut out, 0xC1A4);
    assert_eq!(out, vec![0xA4, 0xC1]);
    assert_eq!(read_u16_le(&out, 0), 0xC1A4);
}

#[test]
fn thirty_two_bits_high_byte_first() {
    let mut out = Vec::new();
    push_u32_be(&mut out, 625000);
    assert_eq!(out, vec![0x00, 0x09, 0x89, 0x68]);
    assert_eq!(read_u32_be(&out, 0), 625000);
    assert_eq!(read_u32_be(&[0xFF, 0xFF, 0xFF, 0xFF, 0xFF], 1), u32::MAX);
}

#[test]
fn signed_values_in_twos_complement() {
    let cases = [
        (0i32, 0u32),
        (1, 1),
        (-1, 0xFFFF_FFFF),
        (-2, 0xFFFF_FFFE),
        (i32::MAX, 0x7FFF_FFFF),
        (i32::MIN, 0x8000_0000),
        (80000, 0x0001_3880),
        (-80000, 0xFFFE_C780),
    ];
    for (value, bits) in cases {
        assert_eq!(i32_to_bits(value), bits);
        assert_eq!(i32_from_bits(bits), value);
        let mut out = Vec::new();
        push_i32_be(&mut out, value);
        assert_eq!(out, bits.to_be_bytes().to_vec());
        assert_eq!(read_i32_be(&out, 0), value);
    }
}

#[test]
fn every_sixteen_bit_value_is_read_back() {
    for value in 0..=u16::MAX {
        let mut out = Vec::new();
        push_u16_be(&mut out, value);
        push_u16_le(&mut out, value);
        assert_eq!(out[0..2], value.to_be_bytes());
        assert_eq!(out[2..4], value.to_le_bytes());
        assert_eq!(read_u16_be(&out, 0), value);
        assert_eq!(read_u16_le(&out, 2), value);
    }
}

#[test]
fn flags_and_masks() {
    assert_eq!(mask_if(true, 0x0400), 0x0400);
    assert_eq!(mask_if(false, 0x0400), 0);
    assert!(has_flag(0x0400, 0x0400));
    assert!(!has_flag(0x0200, 0x0400));
    assert!(has_flag(0xFFFF, 0x8000));
}
