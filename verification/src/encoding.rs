//! Numbers as sequences of bytes: the model that every contract of this
//! crate is stated over, and the loops that compute it.
//!
//! A number of `w` bytes is a natural number below `patterns(w)`. Its
//! big-endian encoding lists its base-256 digits from the most significant
//! one down; its little-endian encoding is the same list read backwards.

use crate::order::ByteOrder;
use vstd::prelude::*;

verus! {

/// How many different values `w` bytes can hold: 256 to the power `w`.
pub open spec fn patterns(w: nat) -> nat
    decreases w,
{
    if w == 0 {
        1
    } else {
        256 * patterns((w - 1) as nat)
    }
}

/// The number that `s` spells when its first byte is the most significant.
pub open spec fn be_value(s: Seq<u8>) -> nat
    decreases s.len(),
{
    if s.len() == 0 {
        0
    } else {
        256 * be_value(s.drop_last()) + s.last() as nat
    }
}

/// The `w` least significant base-256 digits of `n`, most significant first.
pub open spec fn be_bytes(n: nat, w: nat) -> Seq<u8>
    decreases w,
{
    if w == 0 {
        Seq::empty()
    } else {
        be_bytes(n / 256, (w - 1) as nat).push((n % 256) as u8)
    }
}

/// Takes bytes laid out in `order` to the same bytes with the most
/// significant first, and bytes with the most significant first to the same
/// bytes laid out in `order`.
pub open spec fn reordered(order: ByteOrder, s: Seq<u8>) -> Seq<u8> {
    match order {
        ByteOrder::BigEndian => s,
        ByteOrder::LittleEndian => s.reverse(),
    }
}

/// The number that `s` spells when it is read in `order`.
pub open spec fn value_in(order: ByteOrder, s: Seq<u8>) -> nat {
    be_value(reordered(order, s))
}

/// The encoding of `n` in `w` bytes laid out in `order`.
pub open spec fn bytes_in(order: ByteOrder, n: nat, w: nat) -> Seq<u8> {
    reordered(order, be_bytes(n, w))
}

/// Where the byte at place `j` of a most-significant-first reading of `n`
/// bytes lies once they are laid out in `order`.
pub open spec fn place_in(order: ByteOrder, n: int, j: int) -> int {
    match order {
        ByteOrder::BigEndian => j,
        ByteOrder::LittleEndian => n - 1 - j,
    }
}

/// Reversing a sequence twice gives the sequence back.
pub proof fn lemma_reverse_twice(s: Seq<u8>)
    ensures
        s.reverse().reverse() == s,
{
    assert(s.reverse().reverse() =~= s);
}

/// A sequence of one byte or none reads the same in both directions.
pub proof fn lemma_reverse_short(s: Seq<u8>)
    requires
        s.len() <= 1,
    ensures
        s.reverse() == s,
{
    assert(s.reverse() =~= s);
}

/// Reordering for an order is undone by reordering for it again.
pub proof fn lemma_reordered_twice(order: ByteOrder, s: Seq<u8>)
    ensures
        reordered(order, reordered(order, s)) == s,
        reordered(order, s).len() == s.len(),
{
    lemma_reverse_twice(s);
}

/// `patterns` never shrinks as the width grows.
pub proof fn lemma_patterns_grow(a: nat, b: nat)
    requires
        a <= b,
    ensures
        0 < patterns(a) <= patterns(b),
    decreases b,
{
    if a < b {
        lemma_patterns_grow(a, (b - 1) as nat);
    } else if a > 0 {
        lemma_patterns_grow((a - 1) as nat, (a - 1) as nat);
    }
}

/// The values of `patterns` at the widths that the machine's integers have.
pub proof fn lemma_patterns_of_widths()
    ensures
        patterns(0) == 1,
        patterns(1) == 0x100,
        patterns(2) == 0x1_0000,
        patterns(4) == 0x1_0000_0000,
        patterns(8) == 0x1_0000_0000_0000_0000,
{
    reveal_with_fuel(patterns, 9);
}

/// An encoding in `w` bytes has `w` bytes.
pub proof fn lemma_be_bytes_len(n: nat, w: nat)
    ensures
        be_bytes(n, w).len() == w,
    decreases w,
{
    if w > 0 {
        lemma_be_bytes_len(n / 256, (w - 1) as nat);
    }
}

/// What `w` bytes spell is below `patterns(w)`.
pub proof fn lemma_be_value_bound(s: Seq<u8>)
    ensures
        be_value(s) < patterns(s.len()),
    decreases s.len(),
{
    if s.len() > 0 {
        lemma_be_value_bound(s.drop_last());
    }
}

/// Encoding a number that fits and reading the bytes back gives the number.
pub proof fn lemma_be_value_of_bytes(n: nat, w: nat)
    requires
        n < patterns(w),
    ensures
        be_value(be_bytes(n, w)) == n,
    decreases w,
{
    if w > 0 {
        let head = be_bytes(n / 256, (w - 1) as nat);
        lemma_be_value_of_bytes(n / 256, (w - 1) as nat);
        lemma_be_bytes_len(n / 256, (w - 1) as nat);
        assert(be_bytes(n, w).drop_last() =~= head);
    }
}

/// Reading bytes and encoding the number in as many bytes gives the bytes.
pub proof fn lemma_be_bytes_of_value(s: Seq<u8>)
    ensures
        be_bytes(be_value(s), s.len()) == s,
    decreases s.len(),
{
    if s.len() > 0 {
        let n = be_value(s);
        lemma_be_bytes_of_value(s.drop_last());
        assert(n / 256 == be_value(s.drop_last()));
        assert(n % 256 == s.last() as nat);
        assert(be_bytes(n, s.len()) =~= s);
    } else {
        assert(be_bytes(be_value(s), s.len()) =~= s);
    }
}

/// In either order, encoding a number that fits and reading the bytes back
/// gives the number.
pub proof fn lemma_value_of_bytes(order: ByteOrder, n: nat, w: nat)
    requires
        n < patterns(w),
    ensures
        value_in(order, bytes_in(order, n, w)) == n,
        bytes_in(order, n, w).len() == w,
{
    lemma_be_bytes_len(n, w);
    lemma_be_value_of_bytes(n, w);
    lemma_reordered_twice(order, be_bytes(n, w));
}

/// In either order, reading bytes and encoding the number in as many bytes
/// gives the bytes.
pub proof fn lemma_bytes_of_value(order: ByteOrder, s: Seq<u8>)
    ensures
        bytes_in(order, value_in(order, s), s.len()) == s,
        value_in(order, s) < patterns(s.len()),
{
    let t = reordered(order, s);
    lemma_reordered_twice(order, s);
    lemma_be_bytes_of_value(t);
    lemma_be_value_bound(t);
}

/// Reverses the bytes of `buf` in place.
pub fn reverse_bytes<const N: usize>(buf: &mut [u8; N])
    ensures
        final(buf)@ == old(buf)@.reverse(),
{
    let mut i: usize = 0;
    while i < N / 2
        invariant
            i <= N / 2,
            forall|j: int| 0 <= j < i ==> buf@[j] == old(buf)@[N - 1 - j],
            forall|j: int| 0 <= j < i ==> buf@[N - 1 - j] == old(buf)@[j],
            forall|j: int| i <= j < N - i ==> buf@[j] == old(buf)@[j],
        decreases N / 2 - i,
    {
        let low: u8 = buf[i];
        let high: u8 = buf[N - 1 - i];
        buf[i] = high;
        buf[N - 1 - i] = low;
        i += 1;
    }
    assert(buf@ =~= old(buf)@.reverse());
}

/// Lays the `N` low bytes of `bits` out in `order`.
pub fn bytes_of<const N: usize>(bits: u64, order: ByteOrder) -> (buf: [u8; N])
    ensures
        buf@ == bytes_in(order, bits as nat, N as nat),
{
    let ghost target = be_bytes(bits as nat, N as nat);
    let mut buf: [u8; N] = [0u8; N];
    let mut rest: u64 = bits;
    let mut k: usize = 0;
    proof {
        lemma_be_bytes_len(bits as nat, N as nat);
        assert(target.subrange(0, N as int) =~= target);
    }
    while k < N
        invariant
            k <= N,
            target == be_bytes(bits as nat, N as nat),
            target.len() == N,
            target.subrange(0, N - k) == be_bytes(rest as nat, (N - k) as nat),
            forall|j: int| N - k <= j < N ==> buf@[place_in(order, N as int, j)] == target[j],
        decreases N - k,
    {
        let digit: u8 = (rest % 256) as u8;
        let at: usize = match order {
            ByteOrder::BigEndian => N - 1 - k,
            ByteOrder::LittleEndian => k,
        };
        proof {
            let head = be_bytes(rest as nat, (N - k) as nat);
            lemma_be_bytes_len((rest / 256) as nat, (N - k - 1) as nat);
            assert(head.last() == digit);
            assert(head.drop_last() =~= be_bytes((rest / 256) as nat, (N - k - 1) as nat));
            assert(target.subrange(0, N - k - 1) =~= head.drop_last());
            assert(target[N - k - 1] == head[N - k - 1]);
        }
        buf[at] = digit;
        rest = rest / 256;
        k += 1;
    }
    assert(buf@ =~= bytes_in(order, bits as nat, N as nat));
    buf
}

/// Reads the bytes of `buf` as a number laid out in `order`.
pub fn value_of<const N: usize>(buf: &[u8; N], order: ByteOrder) -> (bits: u64)
    requires
        N <= 8,
    ensures
        bits == value_in(order, buf@),
{
    let ghost s = reordered(order, buf@);
    let mut bits: u64 = 0;
    let mut k: usize = 0;
    while k < N
        invariant
            k <= N <= 8,
            s == reordered(order, buf@),
            s.len() == N,
            bits == be_value(s.take(k as int)),
        decreases N - k,
    {
        let at: usize = match order {
            ByteOrder::BigEndian => k,
            ByteOrder::LittleEndian => N - 1 - k,
        };
        let digit: u8 = buf[at];
        proof {
            let read = s.take(k + 1);
            assert(read.drop_last() =~= s.take(k as int));
            assert(read.last() == digit);
            lemma_be_value_bound(s.take(k as int));
            lemma_patterns_grow((k + 1) as nat, 8);
            lemma_patterns_of_widths();
        }
        bits = bits * 256 + digit as u64;
        k += 1;
    }
    assert(s.take(N as int) =~= s);
    bits
}

} // verus!
