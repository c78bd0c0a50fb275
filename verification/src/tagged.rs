//! The two wrappers: a buffer together with the order its bytes are in.

use crate::buffer::{decoded, encoded, EndianBufFor, FromBuf};
use crate::encoding::lemma_reverse_twice;
use crate::order::{native_order, ByteOrder};
use vstd::prelude::*;

verus! {

/// Something stored in a fixed byte order that can be turned into the number
/// it stands for.
pub trait IntoNativeEndian: Sized {
    /// The type of the number.
    type Out;

    /// The number that `self` stands for.
    spec fn resolved(self) -> Self::Out;

    /// Gives the number that `self` stands for, whatever the order of this
    /// machine is.
    fn native(self) -> (out: Self::Out)
        ensures
            out == self.resolved(),
    ;
}

/// The bytes of `inner` laid out in the order `tag`, on a machine whose own
/// order is `platform`: the bytes are taken as the machine holds them and
/// reversed if the two orders differ.
pub fn store<T: FromBuf>(inner: T, tag: ByteOrder, platform: ByteOrder) -> (buf: T::Buf)
    ensures
        buf@ == encoded(inner, tag),
{
    let mut buf = inner.into_buf_in(platform);
    if tag != platform {
        proof {
            lemma_reverse_twice(encoded(inner, tag));
        }
        buf.reverse();
    }
    buf
}

/// The number that `buf` holds in the order `tag`, on a machine whose own
/// order is `platform`: the bytes are reversed if the two orders differ and
/// then read as the machine reads them.
pub fn resolve<T: FromBuf>(buf: T::Buf, tag: ByteOrder, platform: ByteOrder) -> (out: T)
    ensures
        out == decoded::<T>(buf@, tag),
        encoded(out, tag) == buf@,
{
    let mut bytes = buf;
    if tag != platform {
        proof {
            lemma_reverse_twice(buf@);
        }
        bytes.reverse();
    }
    let out = T::from_buf_in(bytes, platform);
    proof {
        lemma_reverse_twice(encoded(out, tag));
    }
    out
}

/// A number stored most significant byte first.
pub struct Big<T: FromBuf>(pub T::Buf);

/// A number stored least significant byte first.
pub struct Little<T: FromBuf>(pub T::Buf);

impl<T: FromBuf> Clone for Big<T> where T::Buf: Copy {
    fn clone(&self) -> (copy: Self)
        ensures
            copy == *self,
    {
        Big(self.0)
    }
}

impl<T: FromBuf> Copy for Big<T> where T::Buf: Copy {
}

impl<T: FromBuf> Clone for Little<T> where T::Buf: Copy {
    fn clone(&self) -> (copy: Self)
        ensures
            copy == *self,
    {
        Little(self.0)
    }
}

impl<T: FromBuf> Copy for Little<T> where T::Buf: Copy {
}

impl<T: FromBuf> View for Big<T> {
    type V = Seq<u8>;

    /// The stored bytes, first byte first.
    open spec fn view(&self) -> Seq<u8> {
        self.0@
    }
}

impl<T: FromBuf> View for Little<T> {
    type V = Seq<u8>;

    /// The stored bytes, first byte first.
    open spec fn view(&self) -> Seq<u8> {
        self.0@
    }
}

impl<T: FromBuf> Big<T> {
    /// Stores `inner` most significant byte first.
    pub fn new(inner: T) -> (stored: Self)
        ensures
            stored@ == encoded(inner, ByteOrder::BigEndian),
    {
        Self::new_on(inner, native_order())
    }

    /// What `new` does on a machine whose own order is `platform`.
    pub fn new_on(inner: T, platform: ByteOrder) -> (stored: Self)
        ensures
            stored@ == encoded(inner, ByteOrder::BigEndian),
    {
        Big(store(inner, ByteOrder::BigEndian, platform))
    }

    /// What `native` does on a machine whose own order is `platform`.
    pub fn native_on(self, platform: ByteOrder) -> (out: T)
        ensures
            out == self.resolved(),
            encoded(out, ByteOrder::BigEndian) == self@,
    {
        resolve(self.0, ByteOrder::BigEndian, platform)
    }
}

impl<T: FromBuf> Little<T> {
    /// Stores `inner` least significant byte first.
    pub fn new(inner: T) -> (stored: Self)
        ensures
            stored@ == encoded(inner, ByteOrder::LittleEndian),
    {
        Self::new_on(inner, native_order())
    }

    /// What `new` does on a machine whose own order is `platform`.
    pub fn new_on(inner: T, platform: ByteOrder) -> (stored: Self)
        ensures
            stored@ == encoded(inner, ByteOrder::LittleEndian),
    {
        Little(store(inner, ByteOrder::LittleEndian, platform))
    }

    /// What `native` does on a machine whose own order is `platform`.
    pub fn native_on(self, platform: ByteOrder) -> (out: T)
        ensures
            out == self.resolved(),
            encoded(out, ByteOrder::LittleEndian) == self@,
    {
        resolve(self.0, ByteOrder::LittleEndian, platform)
    }
}

impl<T: FromBuf> IntoNativeEndian for Big<T> {
    type Out = T;

    open spec fn resolved(self) -> T {
        decoded::<T>(self@, ByteOrder::BigEndian)
    }

    fn native(self) -> (out: T)
        ensures
            encoded(out, ByteOrder::BigEndian) == self@,
    {
        self.native_on(native_order())
    }
}

impl<T: FromBuf> IntoNativeEndian for Little<T> {
    type Out = T;

    open spec fn resolved(self) -> T {
        decoded::<T>(self@, ByteOrder::LittleEndian)
    }

    fn native(self) -> (out: T)
        ensures
            encoded(out, ByteOrder::LittleEndian) == self@,
    {
        self.native_on(native_order())
    }
}

} // verus!
