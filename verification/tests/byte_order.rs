use socket2::layout::{read_le16, read_le32, to_le16, to_le32, to_signed, to_widened};
use socket2::{hton, ntoh, NetInt};

#[test]
fn hton_puts_the_most_significant_byte_first() {
    let port: [u8; 2] = hton(0x1234u16);
    assert_eq!(port, [0x12, 0x34]);
    let bits: [u8; 4] = hton(0x0102_0304u32);
    assert_eq!(bits, [1, 2, 3, 4]);
}

#[test]
fn ntoh_reads_the_most_significant_byte_first() {
    let port: u16 = ntoh([0x12, 0x34]);
    assert_eq!(port, 0x1234);
    let bits: u32 = ntoh([0xc0, 0xa8, 0x00, 0x01]);
    assert_eq!(bits, 0xc0a8_0001);
}

#[test]
fn hton_of_the_extremes() {
    assert_eq!(hton(0u16), [0, 0]);
    assert_eq!(hton(u16::MAX), [0xff, 0xff]);
    assert_eq!(hton(0u32), [0, 0, 0, 0]);
    assert_eq!(hton(u32::MAX), [0xff, 0xff, 0xff, 0xff]);
    assert_eq!(hton(1u16), [0, 1]);
    assert_eq!(hton(0x8000_0000u32), [0x80, 0, 0, 0]);
}

#[test]
fn ntoh_undoes_hton() {
    for x in [0u16, 1, 80, 255, 256, 8080, 0x1234, 0xff00, u16::MAX] {
        let back: u16 = ntoh(hton(x));
        assert_eq!(back, x);
    }
    for x in [0u32, 1, 255, 256, 0xffff, 0x1_0000, 0x7f00_0001, 0xe000_00fb, u32::MAX] {
        let back: u32 = ntoh(hton(x));
        assert_eq!(back, x);
    }
}

#[test]
fn hton_undoes_ntoh() {
    for bytes in [[0u8, 0], [0, 1], [1, 0], [0x1f, 0x90], [0xff, 0xff]] {
        let x: u16 = ntoh(bytes);
        assert_eq!(hton(x), bytes);
    }
    for bytes in [[0u8, 0, 0, 0], [127, 0, 0, 1], [224, 0, 0, 251], [255, 255, 255, 255]] {
        let x: u32 = ntoh(bytes);
        assert_eq!(hton(x), bytes);
    }
}

#[test]
fn net_int_methods_agree_with_hton_and_ntoh() {
    assert_eq!(<u16 as NetInt<2>>::to_be(0xabcd), hton(0xabcdu16));
    assert_eq!(<u16 as NetInt<2>>::from_be([0xab, 0xcd]), 0xabcd);
    assert_eq!(<u32 as NetInt<4>>::to_be(0xdead_beef), [0xde, 0xad, 0xbe, 0xef]);
    assert_eq!(<u32 as NetInt<4>>::from_be([0xde, 0xad, 0xbe, 0xef]), 0xdead_beef);
}

#[test]
fn host_order_is_least_significant_byte_first() {
    assert_eq!(to_le16(0x1234), [0x34, 0x12]);
    assert_eq!(to_le16(23), [23, 0]);
    assert_eq!(to_le32(0x0102_0304), [4, 3, 2, 1]);
    assert_eq!(to_le32(1), [1, 0, 0, 0]);
    assert_eq!(to_le32(u32::MAX), [0xff, 0xff, 0xff, 0xff]);
}

#[test]
fn host_order_is_read_at_an_offset() {
    let bytes = [9u8, 0x34, 0x12, 4, 3, 2, 1, 9];
    assert_eq!(read_le16(&bytes, 1), 0x1234);
    assert_eq!(read_le32(&bytes, 3), 0x0102_0304);
    assert_eq!(read_le16(&bytes, 6), 0x0901);
    assert_eq!(read_le32(&bytes, 4), 0x0901_0203);
}

#[test]
fn host_order_round_trip() {
    for x in [0u32, 1, 0xff, 0x100, 0xffff, 0x1_0000, 0x00ff_ffff, 0x0100_0000, u32::MAX] {
        assert_eq!(read_le32(&to_le32(x), 0), x);
    }
    for x in [0u16, 1, 0xff, 0x100, u16::MAX] {
        assert_eq!(read_le16(&to_le16(x), 0), x);
    }
}

#[test]
fn signed_keeps_the_bit_pattern() {
    assert_eq!(to_signed(0), 0);
    assert_eq!(to_signed(1), 1);
    assert_eq!(to_signed(0x7fff_ffff), i32::MAX);
    assert_eq!(to_signed(0x8000_0000), i32::MIN);
    assert_eq!(to_signed(0xffff_ffff), -1);
    assert_eq!(to_signed(0x8004_667e), -2147195266);
    assert_eq!(to_signed(10058), 10058);
}

#[test]
fn widened_fills_the_upper_bits_of_a_negative_integer() {
    assert_eq!(to_widened(0), 0);
    assert_eq!(to_widened(65536), 65536);
    assert_eq!(to_widened(i32::MAX), 0x7fff_ffff);
    assert_eq!(to_widened(-1), usize::MAX);
    assert_eq!(to_widened(-2), usize::MAX - 1);
    assert_eq!(to_widened(i32::MIN), usize::MAX - 0x7fff_ffff);
}
