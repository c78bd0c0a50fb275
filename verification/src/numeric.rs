//! The numbers that can be stored: what each is as a pattern of bits.

use crate::encoding::{lemma_patterns_of_widths, patterns};
use vstd::prelude::*;

verus! {

/// A number of a fixed width, seen as the pattern of bits that the machine
/// holds for it.
///
/// The pattern is given as the unsigned number with the same bits: for an
/// unsigned type the value itself, for a signed type its two's complement.
pub trait BitPattern: Sized {
    /// How many bytes a value of this type takes.
    spec fn byte_width() -> nat;

    /// The bits of `self`, read as an unsigned number.
    spec fn bits(self) -> nat;

    /// The value whose bits are the low `byte_width()` bytes of `bits`.
    spec fn from_bits(bits: nat) -> Self;

    /// A value takes one, two, four or eight bytes.
    proof fn lemma_width()
        ensures
            Self::byte_width() == 1 || Self::byte_width() == 2 || Self::byte_width() == 4
                || Self::byte_width() == 8,
    ;

    /// The bits of a value fit in its width.
    proof fn lemma_bits_fit(self)
        ensures
            self.bits() < patterns(Self::byte_width()),
    ;

    /// A value is the one that has its bits.
    proof fn lemma_from_bits_of_bits(self)
        ensures
            Self::from_bits(self.bits()) == self,
    ;

    /// A pattern that fits is the bits of the value that it gives.
    proof fn lemma_bits_of_from_bits(bits: nat)
        requires
            bits < patterns(Self::byte_width()),
        ensures
            Self::from_bits(bits).bits() == bits,
    ;

    /// The bits of `self`.
    fn to_bits(self) -> (bits: u64)
        ensures
            bits == self.bits(),
    ;

    /// The value whose bits are the low `byte_width()` bytes of `bits`.
    fn of_bits(bits: u64) -> (value: Self)
        ensures
            value == Self::from_bits(bits as nat),
    ;
}

impl BitPattern for u8 {
    open spec fn byte_width() -> nat {
        1
    }

    open spec fn bits(self) -> nat {
        self as nat
    }

    open spec fn from_bits(bits: nat) -> u8 {
        (bits % 0x100) as u8
    }

    proof fn lemma_width() {
    }

    proof fn lemma_bits_fit(self) {
        lemma_patterns_of_widths();
    }

    proof fn lemma_from_bits_of_bits(self) {
    }

    proof fn lemma_bits_of_from_bits(bits: nat) {
        lemma_patterns_of_widths();
    }

    fn to_bits(self) -> (bits: u64) {
        self as u64
    }

    fn of_bits(bits: u64) -> (value: u8) {
        (bits % 0x100) as u8
    }
}

impl BitPattern for u16 {
    open spec fn byte_width() -> nat {
        2
    }

    open spec fn bits(self) -> nat {
        self as nat
    }

    open spec fn from_bits(bits: nat) -> u16 {
        (bits % 0x1_0000) as u16
    }

    proof fn lemma_width() {
    }

    proof fn lemma_bits_fit(self) {
        lemma_patterns_of_widths();
    }

    proof fn lemma_from_bits_of_bits(self) {
    }

    proof fn lemma_bits_of_from_bits(bits: nat) {
        lemma_patterns_of_widths();
    }

    fn to_bits(self) -> (bits: u64) {
        self as u64
    }

    fn of_bits(bits: u64) -> (value: u16) {
        (bits % 0x1_0000) as u16
    }
}

impl BitPattern for u32 {
    open spec fn byte_width() -> nat {
        4
    }

    open spec fn bits(self) -> nat {
        self as nat
    }

    open spec fn from_bits(bits: nat) -> u32 {
        (bits % 0x1_0000_0000) as u32
    }

    proof fn lemma_width() {
    }

    proof fn lemma_bits_fit(self) {
        lemma_patterns_of_widths();
    }

    proof fn lemma_from_bits_of_bits(self) {
    }

    proof fn lemma_bits_of_from_bits(bits: nat) {
        lemma_patterns_of_widths();
    }

    fn to_bits(self) -> (bits: u64) {
        self as u64
    }

    fn of_bits(bits: u64) -> (value: u32) {
        (bits % 0x1_0000_0000) as u32
    }
}

impl BitPattern for u64 {
    open spec fn byte_width() -> nat {
        8
    }

    open spec fn bits(self) -> nat {
        self as nat
    }

    open spec fn from_bits(bits: nat) -> u64 {
        (bits % 0x1_0000_0000_0000_0000) as u64
    }

    proof fn lemma_width() {
    }

    proof fn lemma_bits_fit(self) {
        lemma_patterns_of_widths();
    }

    proof fn lemma_from_bits_of_bits(self) {
    }

    proof fn lemma_bits_of_from_bits(bits: nat) {
        lemma_patterns_of_widths();
    }

    fn to_bits(self) -> (bits: u64) {
        self
    }

    fn of_bits(bits: u64) -> (value: u64) {
        bits
    }
}

impl BitPattern for i8 {
    open spec fn byte_width() -> nat {
        1
    }

    open spec fn bits(self) -> nat {
        if self >= 0 {
            self as nat
        } else {
            (self + 0x100) as nat
        }
    }

    open spec fn from_bits(bits: nat) -> i8 {
        let low = bits % 0x100;
        if low < 0x80 {
            low as i8
        } else {
            (low - 0x100) as i8
        }
    }

    proof fn lemma_width() {
    }

    proof fn lemma_bits_fit(self) {
        lemma_patterns_of_widths();
    }

    proof fn lemma_from_bits_of_bits(self) {
    }

    proof fn lemma_bits_of_from_bits(bits: nat) {
        lemma_patterns_of_widths();
    }

    fn to_bits(self) -> (bits: u64) {
        let unsigned: u8 = self as u8;
        assert(unsigned == if self >= 0 {
            self as int
        } else {
            self + 0x100
        }) by (bit_vector)
            requires
                unsigned == self as u8,
        ;
        unsigned as u64
    }

    fn of_bits(bits: u64) -> (value: i8) {
        let low: u8 = (bits % 0x100) as u8;
        let value: i8 = low as i8;
        assert(value == if low < 0x80 {
            low as int
        } else {
            low - 0x100
        }) by (bit_vector)
            requires
                value == low as i8,
        ;
        value
    }
}

impl BitPattern for i16 {
    open spec fn byte_width() -> nat {
        2
    }

    open spec fn bits(self) -> nat {
        if self >= 0 {
            self as nat
        } else {
            (self + 0x1_0000) as nat
        }
    }

    open spec fn from_bits(bits: nat) -> i16 {
        let low = bits % 0x1_0000;
        if low < 0x8000 {
            low as i16
        } else {
            (low - 0x1_0000) as i16
        }
    }

    proof fn lemma_width() {
    }

    proof fn lemma_bits_fit(self) {
        lemma_patterns_of_widths();
    }

    proof fn lemma_from_bits_of_bits(self) {
    }

    proof fn lemma_bits_of_from_bits(bits: nat) {
        lemma_patterns_of_widths();
    }

    fn to_bits(self) -> (bits: u64) {
        let unsigned: u16 = self as u16;
        assert(unsigned == if self >= 0 {
            self as int
        } else {
            self + 0x1_0000
        }) by (bit_vector)
            requires
                unsigned == self as u16,
        ;
        unsigned as u64
    }

    fn of_bits(bits: u64) -> (value: i16) {
        let low: u16 = (bits % 0x1_0000) as u16;
        let value: i16 = low as i16;
        assert(value == if low < 0x8000 {
            low as int
        } else {
            low - 0x1_0000
        }) by (bit_vector)
            requires
                value == low as i16,
        ;
        value
    }
}

impl BitPattern for i32 {
    open spec fn byte_width() -> nat {
        4
    }

    open spec fn bits(self) -> nat {
        if self >= 0 {
            self as nat
        } else {
            (self + 0x1_0000_0000) as nat
        }
    }

    open spec fn from_bits(bits: nat) -> i32 {
        let low = bits % 0x1_0000_0000;
        if low < 0x8000_0000 {
            low as i32
        } else {
            (low - 0x1_0000_0000) as i32
        }
    }

    proof fn lemma_width() {
    }

    proof fn lemma_bits_fit(self) {
        lemma_patterns_of_widths();
    }

    proof fn lemma_from_bits_of_bits(self) {
    }

    proof fn lemma_bits_of_from_bits(bits: nat) {
        lemma_patterns_of_widths();
    }

    fn to_bits(self) -> (bits: u64) {
        let unsigned: u32 = self as u32;
        assert(unsigned == if self >= 0 {
            self as int
        } else {
            self + 0x1_0000_0000
        }) by (bit_vector)
            requires
                unsigned == self as u32,
        ;
        unsigned as u64
    }

    fn of_bits(bits: u64) -> (value: i32) {
        let low: u32 = (bits % 0x1_0000_0000) as u32;
        let value: i32 = low as i32;
        assert(value == if low < 0x8000_0000 {
            low as int
        } else {
            low - 0x1_0000_0000
        }) by (bit_vector)
            requires
                value == low as i32,
        ;
        value
    }
}

impl BitPattern for i64 {
    open spec fn byte_width() -> nat {
        8
    }

    open spec fn bits(self) -> nat {
        if self >= 0 {
            self as nat
        } else {
            (self + 0x1_0000_0000_0000_0000) as nat
        }
    }

    open spec fn from_bits(bits: nat) -> i64 {
        let low = bits % 0x1_0000_0000_0000_0000;
        if low < 0x8000_0000_0000_0000 {
            low as i64
        } else {
            (low - 0x1_0000_0000_0000_0000) as i64
        }
    }

    proof fn lemma_width() {
    }

    proof fn lemma_bits_fit(self) {
        lemma_patterns_of_widths();
    }

    proof fn lemma_from_bits_of_bits(self) {
    }

    proof fn lemma_bits_of_from_bits(bits: nat) {
        lemma_patterns_of_widths();
    }

    fn to_bits(self) -> (bits: u64) {
        let unsigned: u64 = self as u64;
        assert(unsigned == if self >= 0 {
            self as int
        } else {
            self + 0x1_0000_0000_0000_0000
        }) by (bit_vector)
            requires
                unsigned == self as u64,
        ;
        unsigned
    }

    fn of_bits(bits: u64) -> (value: i64) {
        let value: i64 = bits as i64;
        assert(value == if bits < 0x8000_0000_0000_0000 {
            bits as int
        } else {
            bits - 0x1_0000_0000_0000_0000
        }) by (bit_vector)
            requires
                value == bits as i64,
        ;
        value
    }
}

} // verus!
