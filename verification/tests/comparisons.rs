use endian_type::{Big, Little};
use std::cmp::Ordering;

#[test]
fn wrappers_of_one_tag_are_equal_when_their_numbers_are() {
    assert!(Big::new(5u32) == Big::new(5u32));
    assert!(Big::new(5u32) != Big::new(6u32));
    assert!(Little::new(-7i16) == Little::new(-7i16));
    assert!(Little::new(-7i16) != Little::new(7i16));
    assert!(Big::<u16>([0x01, 0x02]) == Big::<u16>([0x01, 0x02]));
    assert!(Big::<u16>([0x01, 0x02]) != Big::<u16>([0x02, 0x01]));
}

#[test]
fn wrappers_of_different_tags_are_equal_when_their_numbers_are() {
    let big = Big::new(5u32);
    let little = Little::new(5u32);
    assert_ne!(big.0, little.0);
    assert!(big == little);
    assert!(little == big);
    assert!(Big::new(5u32) != Little::new(6u32));
    assert!(Little::new(5u32) != Big::new(0x0500_0000u32));
    assert!(Big::<u32>([0, 0, 0, 5]) == Little::<u32>([5, 0, 0, 0]));
    assert!(Big::<u32>([0, 0, 0, 5]) != Little::<u32>([0, 0, 0, 5]));
}

#[test]
fn wrappers_are_ordered_as_their_numbers_are() {
    assert!(Big::new(1u32) < Big::new(2u32));
    assert!(Big::new(0x0100u16) > Big::new(0x00ffu16));
    assert!(Little::new(0x0100u16) > Little::new(0x00ffu16));
    assert!(Little::new(3u64) <= Little::new(3u64));
    assert!(Little::new(3u64) >= Little::new(3u64));
    assert!(!(Big::new(9u8) < Big::new(9u8)));
}

#[test]
fn negative_numbers_come_before_positive_ones() {
    assert!(Big::new(-1i32) < Big::new(1i32));
    assert!(Little::new(-1i32) < Little::new(1i32));
    assert!(Big::new(i64::MIN) < Big::new(i64::MAX));
    assert!(Little::new(-128i8) < Little::new(-127i8));
    assert!(Big::new(-1i16) > Big::new(-2i16));
}

#[test]
fn wrappers_of_different_tags_are_ordered_as_their_numbers_are() {
    assert!(Big::new(1u32) < Little::new(2u32));
    assert!(Little::new(1u32) < Big::new(2u32));
    assert!(Big::new(0x0100u16) > Little::new(0x00ffu16));
    assert!(Little::new(-5i32) <= Big::new(-5i32));
    assert!(Big::new(-5i32) >= Little::new(-5i32));
    assert!(Big::<u16>([0x00, 0x01]) < Little::<u16>([0x00, 0x01]));
}

#[test]
fn partial_cmp_gives_the_order_of_the_numbers() {
    assert_eq!(Big::new(1u8).partial_cmp(&Big::new(2u8)), Some(Ordering::Less));
    assert_eq!(Big::new(2u8).partial_cmp(&Big::new(2u8)), Some(Ordering::Equal));
    assert_eq!(Little::new(3i64).partial_cmp(&Little::new(-3i64)), Some(Ordering::Greater));
    assert_eq!(Big::new(7u32).partial_cmp(&Little::new(7u32)), Some(Ordering::Equal));
    assert_eq!(Little::new(7u32).partial_cmp(&Big::new(8u32)), Some(Ordering::Less));
}
