//! What holds of the wrappers whatever number, bytes or machine they meet.

use crate::buffer::{
    encoded, lemma_decoded_encoded, lemma_encoded_decoded, EndianBufFor, FromBuf,
};
use crate::encoding::{lemma_reverse_short, lemma_reverse_twice};
use crate::numeric::BitPattern;
use crate::order::ByteOrder;
use crate::tagged::{Big, IntoNativeEndian, Little};
use vstd::prelude::*;

verus! {

/// A number stored most significant byte first resolves to itself: if
/// `stored` is what `Big::new(value)` returns, `stored.native()` is `value`.
pub proof fn law_big_round_trip<T: FromBuf>(value: T, stored: Big<T>)
    requires
        stored@ == encoded(value, ByteOrder::BigEndian),
    ensures
        stored.resolved() == value,
{
    lemma_decoded_encoded(value, ByteOrder::BigEndian);
}

/// A number stored least significant byte first resolves to itself: if
/// `stored` is what `Little::new(value)` returns, `stored.native()` is
/// `value`.
pub proof fn law_little_round_trip<T: FromBuf>(value: T, stored: Little<T>)
    requires
        stored@ == encoded(value, ByteOrder::LittleEndian),
    ensures
        stored.resolved() == value,
{
    lemma_decoded_encoded(value, ByteOrder::LittleEndian);
}

/// The same number stored under the two tags resolves to the same number,
/// the one that was stored, and the bytes under one tag are those under the
/// other in reverse.
pub proof fn law_tags_agree<T: FromBuf>(value: T, big: Big<T>, little: Little<T>)
    requires
        big@ == encoded(value, ByteOrder::BigEndian),
        little@ == encoded(value, ByteOrder::LittleEndian),
    ensures
        big.resolved() == little.resolved(),
        little.resolved() == value,
        big@ == little@.reverse(),
{
    law_big_round_trip(value, big);
    law_little_round_trip(value, little);
    lemma_reverse_twice(big@);
}

/// Reversing a buffer twice gives the buffer back: if `once` is `start`
/// after one call of `reverse` and `twice` is `once` after another, `twice`
/// is `start`.
pub proof fn law_reverse_twice<T: BitPattern, B: EndianBufFor<T>>(start: B, once: B, twice: B)
    requires
        once@ == start@.reverse(),
        twice@ == once@.reverse(),
    ensures
        twice == start,
{
    lemma_reverse_twice(start@);
    twice.lemma_only_bytes(&start);
}

/// For a number of one byte the tag makes no difference: the same byte
/// resolves to the same number under both.
pub proof fn law_single_byte<T: FromBuf>(big: Big<T>, little: Little<T>)
    requires
        T::byte_width() == 1,
        big@ == little@,
    ensures
        big.resolved() == little.resolved(),
{
    big.0.lemma_len();
    lemma_reverse_short(big@);
}

/// Whatever bytes a `Big` is made from, the number it resolves to is the one
/// whose bytes, most significant first, are exactly those.
pub proof fn law_big_raw_bytes<T: FromBuf>(stored: Big<T>)
    ensures
        encoded(stored.resolved(), ByteOrder::BigEndian) == stored@,
{
    stored.0.lemma_len();
    lemma_encoded_decoded::<T>(stored@, ByteOrder::BigEndian);
}

/// Whatever bytes a `Little` is made from, the number it resolves to is the
/// one whose bytes, least significant first, are exactly those.
pub proof fn law_little_raw_bytes<T: FromBuf>(stored: Little<T>)
    ensures
        encoded(stored.resolved(), ByteOrder::LittleEndian) == stored@,
{
    stored.0.lemma_len();
    lemma_encoded_decoded::<T>(stored@, ByteOrder::LittleEndian);
}

} // verus!
