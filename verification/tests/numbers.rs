use endian_type::order::order_of_probe;
use endian_type::{native_order, BitPattern, ByteOrder};

#[test]
fn bits_of_unsigned_numbers_are_the_numbers() {
    assert_eq!(0u8.to_bits(), 0);
    assert_eq!(u8::MAX.to_bits(), 0xff);
    assert_eq!(0x1234u16.to_bits(), 0x1234);
    assert_eq!(u32::MAX.to_bits(), 0xffff_ffff);
    assert_eq!(u64::MAX.to_bits(), u64::MAX);
}

#[test]
fn bits_of_signed_numbers_are_their_twos_complement() {
    assert_eq!(5i8.to_bits(), 5);
    assert_eq!((-1i8).to_bits(), 0xff);
    assert_eq!(i8::MIN.to_bits(), 0x80);
    assert_eq!((-2i16).to_bits(), 0xfffe);
    assert_eq!(i16::MAX.to_bits(), 0x7fff);
    assert_eq!((-1i32).to_bits(), 0xffff_ffff);
    assert_eq!(i32::MIN.to_bits(), 0x8000_0000);
    assert_eq!((-1i64).to_bits(), u64::MAX);
    assert_eq!(i64::MIN.to_bits(), 1 << 63);
    assert_eq!(i64::MAX.to_bits(), (1 << 63) - 1);
}

#[test]
fn of_bits_gives_the_number_with_those_bits() {
    assert_eq!(u8::of_bits(0xab), 0xab);
    assert_eq!(u16::of_bits(0xabcd), 0xabcd);
    assert_eq!(u32::of_bits(0xdead_beef), 0xdead_beef);
    assert_eq!(u64::of_bits(u64::MAX), u64::MAX);
    assert_eq!(i8::of_bits(0x7f), i8::MAX);
    assert_eq!(i8::of_bits(0x80), i8::MIN);
    assert_eq!(i8::of_bits(0xff), -1);
    assert_eq!(i16::of_bits(0xfffe), -2);
    assert_eq!(i32::of_bits(0x8000_0000), i32::MIN);
    assert_eq!(i32::of_bits(0x7fff_ffff), i32::MAX);
    assert_eq!(i64::of_bits(u64::MAX), -1);
    assert_eq!(i64::of_bits(1 << 63), i64::MIN);
}

#[test]
fn of_bits_looks_at_the_low_bytes_only() {
    assert_eq!(u8::of_bits(0x1234), 0x34);
    assert_eq!(u16::of_bits(0x0001_0002), 2);
    assert_eq!(u32::of_bits(0x0000_0001_0000_0005), 5);
    assert_eq!(i8::of_bits(0x01ff), -1);
    assert_eq!(i16::of_bits(0x0001_8000), i16::MIN);
    assert_eq!(i32::of_bits(0xffff_ffff_0000_0001), 1);
}

#[test]
fn of_bits_undoes_to_bits() {
    for v in i8::MIN..=i8::MAX {
        assert_eq!(i8::of_bits(v.to_bits()), v);
    }
    for v in u8::MIN..=u8::MAX {
        assert_eq!(u8::of_bits(v.to_bits()), v);
    }
    for v in i16::MIN..=i16::MAX {
        assert_eq!(i16::of_bits(v.to_bits()), v);
    }
    for v in [0i32, 1, -1, i32::MIN, i32::MAX] {
        assert_eq!(i32::of_bits(v.to_bits()), v);
    }
    for v in [0i64, 1, -1, i64::MIN, i64::MAX] {
        assert_eq!(i64::of_bits(v.to_bits()), v);
    }
    for v in [0u64, 1, u64::MAX] {
        assert_eq!(u64::of_bits(v.to_bits()), v);
    }
}

#[test]
fn native_order_is_the_order_of_this_machine() {
    let expected = if u16::from_ne_bytes([0x00, 0x01]) == 1 {
        ByteOrder::BigEndian
    } else {
        ByteOrder::LittleEndian
    };
    assert_eq!(native_order(), expected);
    assert_eq!(native_order(), native_order());
}

#[test]
fn native_order_tells_the_two_standard_encodings_apart() {
    let v = 0x0102_0304u32;
    match native_order() {
        ByteOrder::BigEndian => assert_eq!(v.to_ne_bytes(), v.to_be_bytes()),
        ByteOrder::LittleEndian => assert_eq!(v.to_ne_bytes(), v.to_le_bytes()),
    }
}

#[test]
fn order_of_probe_goes_by_where_the_zero_byte_lies() {
    assert_eq!(order_of_probe([0x00, 0x01]), ByteOrder::BigEndian);
    assert_eq!(order_of_probe([0x01, 0x00]), ByteOrder::LittleEndian);
    assert_eq!(order_of_probe(1u16.to_be_bytes()), ByteOrder::BigEndian);
    assert_eq!(order_of_probe(1u16.to_le_bytes()), ByteOrder::LittleEndian);
    assert_eq!(order_of_probe(1u16.to_ne_bytes()), native_order());
    assert_eq!(order_of_probe([0x00, 0x00]), ByteOrder::BigEndian);
    assert_eq!(order_of_probe([0x07, 0x01]), ByteOrder::LittleEndian);
}
