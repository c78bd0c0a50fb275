//! Byte buffers of the width of a number, and the numbers that have one.

use crate::encoding::{
    bytes_in, bytes_of, lemma_bytes_of_value, lemma_value_of_bytes, reverse_bytes, value_in,
    value_of,
};
use crate::numeric::BitPattern;
use crate::order::{native_order, ByteOrder};
use vstd::prelude::*;

verus! {

/// The bytes that hold `value` when they are laid out in `order`.
pub open spec fn encoded<T: BitPattern>(value: T, order: ByteOrder) -> Seq<u8> {
    bytes_in(order, value.bits(), T::byte_width())
}

/// The value that `bytes` hold when they are read in `order`.
pub open spec fn decoded<T: BitPattern>(bytes: Seq<u8>, order: ByteOrder) -> T {
    T::from_bits(value_in(order, bytes))
}

/// Storing a value and reading the bytes back in the same order gives the
/// value, and the bytes are as many as the value is wide.
pub proof fn lemma_decoded_encoded<T: BitPattern>(value: T, order: ByteOrder)
    ensures
        decoded::<T>(encoded(value, order), order) == value,
        encoded(value, order).len() == T::byte_width(),
{
    value.lemma_bits_fit();
    value.lemma_from_bits_of_bits();
    lemma_value_of_bytes(order, value.bits(), T::byte_width());
}

/// Reading bytes of the right width and storing the value in the same order
/// gives the bytes.
pub proof fn lemma_encoded_decoded<T: BitPattern>(bytes: Seq<u8>, order: ByteOrder)
    requires
        bytes.len() == T::byte_width(),
    ensures
        encoded(decoded::<T>(bytes, order), order) == bytes,
{
    lemma_bytes_of_value(order, bytes);
    T::lemma_bits_of_from_bits(value_in(order, bytes));
}

/// A buffer of exactly the bytes of one `Out`.
///
/// Its view is the bytes it holds, first byte first.
pub trait EndianBufFor<Out: BitPattern>: Sized + View<V = Seq<u8>> {
    /// A buffer is as long as the number is wide.
    proof fn lemma_len(&self)
        ensures
            self@.len() == Out::byte_width(),
    ;

    /// A buffer is nothing but its bytes: two that hold the same bytes are
    /// the same buffer.
    proof fn lemma_only_bytes(&self, other: &Self)
        requires
            self@ == other@,
        ensures
            self == other,
    ;

    /// Reverses the order of the bytes in place.
    fn reverse(&mut self)
        ensures
            final(self)@ == old(self)@.reverse(),
    ;

    /// The number that the bytes hold when they are read in `order`.
    fn native_in(self, order: ByteOrder) -> (out: Out)
        ensures
            out == decoded::<Out>(self@, order),
            encoded(out, order) == self@,
    ;

    /// The number that the bytes hold when they are read in the order of
    /// this machine, which is one of the two.
    fn native(self) -> (out: Out)
        ensures
            out == decoded::<Out>(self@, ByteOrder::BigEndian) || out == decoded::<Out>(
                self@,
                ByteOrder::LittleEndian,
            ),
    {
        self.native_in(native_order())
    }
}

/// A number that has a buffer of its own width.
pub trait FromBuf: BitPattern + Sized + Clone {
    /// The buffer that holds one value of this type.
    type Buf: EndianBufFor<Self>;

    /// The number that `buf` holds when it is read in the order of this
    /// machine, which is one of the two.
    fn from_buf(buf: Self::Buf) -> (out: Self)
        ensures
            out == decoded::<Self>(buf@, ByteOrder::BigEndian) || out == decoded::<Self>(
                buf@,
                ByteOrder::LittleEndian,
            ),
    {
        buf.native()
    }

    /// The bytes of `self` in the order of this machine, which is one of the
    /// two.
    fn into_buf(self) -> (buf: Self::Buf)
        ensures
            buf@ == encoded(self, ByteOrder::BigEndian) || buf@ == encoded(
                self,
                ByteOrder::LittleEndian,
            ),
    {
        self.into_buf_in(native_order())
    }

    /// The number that `buf` holds when it is read in `order`.
    fn from_buf_in(buf: Self::Buf, order: ByteOrder) -> (out: Self)
        ensures
            out == decoded::<Self>(buf@, order),
            encoded(out, order) == buf@,
    {
        buf.native_in(order)
    }

    /// The bytes of `self` laid out in `order`.
    fn into_buf_in(self, order: ByteOrder) -> (buf: Self::Buf)
        ensures
            buf@ == encoded(self, order),
    ;
}

impl EndianBufFor<u8> for [u8; 1] {
    proof fn lemma_len(&self) {
    }

    proof fn lemma_only_bytes(&self, other: &Self) {
        assert(*self =~= *other);
    }

    fn reverse(&mut self) {
        reverse_bytes(self);
    }

    fn native_in(self, order: ByteOrder) -> (out: u8) {
        proof {
            lemma_encoded_decoded::<u8>(self@, order);
        }
        u8::of_bits(value_of(&self, order))
    }
}

impl FromBuf for u8 {
    type Buf = [u8; 1];

    fn into_buf_in(self, order: ByteOrder) -> (buf: [u8; 1]) {
        bytes_of(self.to_bits(), order)
    }
}

impl EndianBufFor<u16> for [u8; 2] {
    proof fn lemma_len(&self) {
    }

    proof fn lemma_only_bytes(&self, other: &Self) {
        assert(*self =~= *other);
    }

    fn reverse(&mut self) {
        reverse_bytes(self);
    }

    fn native_in(self, order: ByteOrder) -> (out: u16) {
        proof {
            lemma_encoded_decoded::<u16>(self@, order);
        }
        u16::of_bits(value_of(&self, order))
    }
}

impl FromBuf for u16 {
    type Buf = [u8; 2];

    fn into_buf_in(self, order: ByteOrder) -> (buf: [u8; 2]) {
        bytes_of(self.to_bits(), order)
    }
}

impl EndianBufFor<u32> for [u8; 4] {
    proof fn lemma_len(&self) {
    }

    proof fn lemma_only_bytes(&self, other: &Self) {
        assert(*self =~= *other);
    }

    fn reverse(&mut self) {
        reverse_bytes(self);
    }

    fn native_in(self, order: ByteOrder) -> (out: u32) {
        proof {
            lemma_encoded_decoded::<u32>(self@, order);
        }
        u32::of_bits(value_of(&self, order))
    }
}

impl FromBuf for u32 {
    type Buf = [u8; 4];

    fn into_buf_in(self, order: ByteOrder) -> (buf: [u8; 4]) {
        bytes_of(self.to_bits(), order)
    }
}

impl EndianBufFor<u64> for [u8; 8] {
    proof fn lemma_len(&self) {
    }

    proof fn lemma_only_bytes(&self, other: &Self) {
        assert(*self =~= *other);
    }

    fn reverse(&mut self) {
        reverse_bytes(self);
    }

    fn native_in(self, order: ByteOrder) -> (out: u64) {
        proof {
            lemma_encoded_decoded::<u64>(self@, order);
        }
        u64::of_bits(value_of(&self, order))
    }
}

impl FromBuf for u64 {
    type Buf = [u8; 8];

    fn into_buf_in(self, order: ByteOrder) -> (buf: [u8; 8]) {
        bytes_of(self.to_bits(), order)
    }
}

impl EndianBufFor<i8> for [u8; 1] {
    proof fn lemma_len(&self) {
    }

    proof fn lemma_only_bytes(&self, other: &Self) {
        assert(*self =~= *other);
    }

    fn reverse(&mut self) {
        reverse_bytes(self);
    }

    fn native_in(self, order: ByteOrder) -> (out: i8) {
        proof {
            lemma_encoded_decoded::<i8>(self@, order);
        }
        i8::of_bits(value_of(&self, order))
    }
}

impl FromBuf for i8 {
    type Buf = [u8; 1];

    fn into_buf_in(self, order: ByteOrder) -> (buf: [u8; 1]) {
        bytes_of(self.to_bits(), order)
    }
}

impl EndianBufFor<i16> for [u8; 2] {
    proof fn lemma_len(&self) {
    }

    proof fn lemma_only_bytes(&self, other: &Self) {
        assert(*self =~= *other);
    }

    fn reverse(&mut self) {
        reverse_bytes(self);
    }

    fn native_in(self, order: ByteOrder) -> (out: i16) {
        proof {
            lemma_encoded_decoded::<i16>(self@, order);
        }
        i16::of_bits(value_of(&self, order))
    }
}

impl FromBuf for i16 {
    type Buf = [u8; 2];

    fn into_buf_in(self, order: ByteOrder) -> (buf: [u8; 2]) {
        bytes_of(self.to_bits(), order)
    }
}

impl EndianBufFor<i32> for [u8; 4] {
    proof fn lemma_len(&self) {
    }

    proof fn lemma_only_bytes(&self, other: &Self) {
        assert(*self =~= *other);
    }

    fn reverse(&mut self) {
        reverse_bytes(self);
    }

    fn native_in(self, order: ByteOrder) -> (out: i32) {
        proof {
            lemma_encoded_decoded::<i32>(self@, order);
        }
        i32::of_bits(value_of(&self, order))
    }
}

impl FromBuf for i32 {
    type Buf = [u8; 4];

    fn into_buf_in(self, order: ByteOrder) -> (buf: [u8; 4]) {
        bytes_of(self.to_bits(), order)
    }
}

impl EndianBufFor<i64> for [u8; 8] {
    proof fn lemma_len(&self) {
    }

    proof fn lemma_only_bytes(&self, other: &Self) {
        assert(*self =~= *other);
    }

    fn reverse(&mut self) {
        reverse_bytes(self);
    }

    fn native_in(self, order: ByteOrder) -> (out: i64) {
        proof {
            lemma_encoded_decoded::<i64>(self@, order);
        }
        i64::of_bits(value_of(&self, order))
    }
}

impl FromBuf for i64 {
    type Buf = [u8; 8];

    fn into_buf_in(self, order: ByteOrder) -> (buf: [u8; 8]) {
        bytes_of(self.to_bits(), order)
    }
}

} // verus!
