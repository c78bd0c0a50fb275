//! Comparing stored numbers: two wrappers compare as the numbers they stand
//! for do, whatever their tags.

use crate::buffer::FromBuf;
use crate::order::{native_order, ByteOrder};
use crate::tagged::{resolve, Big, IntoNativeEndian, Little};
use core::cmp::Ordering;
use vstd::prelude::*;
use vstd::std_specs::cmp::{PartialEqSpec, PartialEqSpecImpl, PartialOrdSpec, PartialOrdSpecImpl};

verus! {

/// Equality of two `Big`s: that of the numbers they stand for.
impl<T: FromBuf + PartialEq> PartialEq for Big<T> where T::Buf: Copy {
    fn eq(&self, other: &Self) -> (equal: bool) {
        let platform = native_order();
        let left: T = resolve(self.0, ByteOrder::BigEndian, platform);
        let right: T = resolve(other.0, ByteOrder::BigEndian, platform);
        left == right
    }
}

impl<T: FromBuf + PartialEq> PartialEqSpecImpl for Big<T> where T::Buf: Copy {
    open spec fn obeys_eq_spec() -> bool {
        T::obeys_eq_spec()
    }

    open spec fn eq_spec(&self, other: &Self) -> bool {
        self.resolved().eq_spec(&other.resolved())
    }
}

/// The order of two `Big`s: that of the numbers they stand for.
impl<T: FromBuf + PartialOrd> PartialOrd for Big<T> where T::Buf: Copy {
    fn partial_cmp(&self, other: &Self) -> (order: Option<Ordering>) {
        let platform = native_order();
        let left: T = resolve(self.0, ByteOrder::BigEndian, platform);
        let right: T = resolve(other.0, ByteOrder::BigEndian, platform);
        left.partial_cmp(&right)
    }
}

impl<T: FromBuf + PartialOrd> PartialOrdSpecImpl for Big<T> where T::Buf: Copy {
    open spec fn obeys_partial_cmp_spec() -> bool {
        T::obeys_partial_cmp_spec()
    }

    open spec fn partial_cmp_spec(&self, other: &Self) -> Option<Ordering> {
        self.resolved().partial_cmp_spec(&other.resolved())
    }
}

/// Equality of two `Little`s: that of the numbers they stand for.
impl<T: FromBuf + PartialEq> PartialEq for Little<T> where T::Buf: Copy {
    fn eq(&self, other: &Self) -> (equal: bool) {
        let platform = native_order();
        let left: T = resolve(self.0, ByteOrder::LittleEndian, platform);
        let right: T = resolve(other.0, ByteOrder::LittleEndian, platform);
        left == right
    }
}

impl<T: FromBuf + PartialEq> PartialEqSpecImpl for Little<T> where T::Buf: Copy {
    open spec fn obeys_eq_spec() -> bool {
        T::obeys_eq_spec()
    }

    open spec fn eq_spec(&self, other: &Self) -> bool {
        self.resolved().eq_spec(&other.resolved())
    }
}

/// The order of two `Little`s: that of the numbers they stand for.
impl<T: FromBuf + PartialOrd> PartialOrd for Little<T> where T::Buf: Copy {
    fn partial_cmp(&self, other: &Self) -> (order: Option<Ordering>) {
        let platform = native_order();
        let left: T = resolve(self.0, ByteOrder::LittleEndian, platform);
        let right: T = resolve(other.0, ByteOrder::LittleEndian, platform);
        left.partial_cmp(&right)
    }
}

impl<T: FromBuf + PartialOrd> PartialOrdSpecImpl for Little<T> where T::Buf: Copy {
    open spec fn obeys_partial_cmp_spec() -> bool {
        T::obeys_partial_cmp_spec()
    }

    open spec fn partial_cmp_spec(&self, other: &Self) -> Option<Ordering> {
        self.resolved().partial_cmp_spec(&other.resolved())
    }
}

/// Equality of a `Big` and a `Little`: that of the numbers they stand for.
impl<T: FromBuf + PartialEq> PartialEq<Little<T>> for Big<T> where T::Buf: Copy {
    fn eq(&self, other: &Little<T>) -> (equal: bool) {
        let platform = native_order();
        let left: T = resolve(self.0, ByteOrder::BigEndian, platform);
        let right: T = resolve(other.0, ByteOrder::LittleEndian, platform);
        left == right
    }
}

impl<T: FromBuf + PartialEq> PartialEqSpecImpl<Little<T>> for Big<T> where T::Buf: Copy {
    open spec fn obeys_eq_spec() -> bool {
        T::obeys_eq_spec()
    }

    open spec fn eq_spec(&self, other: &Little<T>) -> bool {
        self.resolved().eq_spec(&other.resolved())
    }
}

/// The order of a `Big` and a `Little`: that of the numbers they stand for.
impl<T: FromBuf + PartialOrd> PartialOrd<Little<T>> for Big<T> where T::Buf: Copy {
    fn partial_cmp(&self, other: &Little<T>) -> (order: Option<Ordering>) {
        let platform = native_order();
        let left: T = resolve(self.0, ByteOrder::BigEndian, platform);
        let right: T = resolve(other.0, ByteOrder::LittleEndian, platform);
        left.partial_cmp(&right)
    }
}

impl<T: FromBuf + PartialOrd> PartialOrdSpecImpl<Little<T>> for Big<T> where T::Buf: Copy {
    open spec fn obeys_partial_cmp_spec() -> bool {
        T::obeys_partial_cmp_spec()
    }

    open spec fn partial_cmp_spec(&self, other: &Little<T>) -> Option<Ordering> {
        self.resolved().partial_cmp_spec(&other.resolved())
    }
}

/// Equality of a `Little` and a `Big`: that of the numbers they stand for.
impl<T: FromBuf + PartialEq> PartialEq<Big<T>> for Little<T> where T::Buf: Copy {
    fn eq(&self, other: &Big<T>) -> (equal: bool) {
        let platform = native_order();
        let left: T = resolve(self.0, ByteOrder::LittleEndian, platform);
        let right: T = resolve(other.0, ByteOrder::BigEndian, platform);
        left == right
    }
}

impl<T: FromBuf + PartialEq> PartialEqSpecImpl<Big<T>> for Little<T> where T::Buf: Copy {
    open spec fn obeys_eq_spec() -> bool {
        T::obeys_eq_spec()
    }

    open spec fn eq_spec(&self, other: &Big<T>) -> bool {
        self.resolved().eq_spec(&other.resolved())
    }
}

/// The order of a `Little` and a `Big`: that of the numbers they stand for.
impl<T: FromBuf + PartialOrd> PartialOrd<Big<T>> for Little<T> where T::Buf: Copy {
    fn partial_cmp(&self, other: &Big<T>) -> (order: Option<Ordering>) {
        let platform = native_order();
        let left: T = resolve(self.0, ByteOrder::LittleEndian, platform);
        let right: T = resolve(other.0, ByteOrder::BigEndian, platform);
        left.partial_cmp(&right)
    }
}

impl<T: FromBuf + PartialOrd> PartialOrdSpecImpl<Big<T>> for Little<T> where T::Buf: Copy {
    open spec fn obeys_partial_cmp_spec() -> bool {
        T::obeys_partial_cmp_spec()
    }

    open spec fn partial_cmp_spec(&self, other: &Big<T>) -> Option<Ordering> {
        self.resolved().partial_cmp_spec(&other.resolved())
    }
}

} // verus!
