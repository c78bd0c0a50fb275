//! Byte orders, and the one this machine uses.

use crate::encoding::{be_value, value_in};
use vstd::prelude::*;

verus! {

/// The order in which the bytes of a number are laid out.
#[derive(Clone, Copy, Debug, PartialEq, Eq, Structural)]
pub enum ByteOrder {
    /// Most significant byte first.
    BigEndian,
    /// Least significant byte first.
    LittleEndian,
}

/// Calls `u16::to_ne_bytes`, which is not verified here. It hands back the
/// two bytes of `v` as they lie in memory, which is one of the two possible
/// orders; which of them depends on the machine, so the contract leaves that
/// open.
#[verifier::external_body]
fn memory_bytes(v: u16) -> (bytes: [u8; 2])
    ensures
        bytes@ == seq![(v / 256) as u8, (v % 256) as u8] || bytes@ == seq![
            (v % 256) as u8,
            (v / 256) as u8,
        ],
{
    v.to_ne_bytes()
}

/// The order that a machine uses if `probe` is how it holds the number one
/// in two bytes: big-endian if the zero byte comes first, little-endian if
/// not. Where `probe` spells one in one of the two orders, that is the
/// order.
pub fn order_of_probe(probe: [u8; 2]) -> (order: ByteOrder)
    ensures
        order == ByteOrder::BigEndian <==> probe@[0] == 0,
        forall|o: ByteOrder| #[trigger] value_in(o, probe@) == 1 ==> order == o,
{
    proof {
        reveal_with_fuel(be_value, 3);
        assert(probe@.reverse().drop_last() =~= seq![probe@[1]]);
        assert(probe@.drop_last() =~= seq![probe@[0]]);
    }
    if probe[0] == 0 {
        ByteOrder::BigEndian
    } else {
        ByteOrder::LittleEndian
    }
}

/// The byte order of the machine this code runs on.
///
/// The answer is found by looking at how the machine lays out the number one
/// in two bytes. It is fixed for a given build, but nothing is known about it
/// in proofs: every caller is verified for both answers.
pub fn native_order() -> (order: ByteOrder) {
    order_of_probe(memory_bytes(1))
}

} // verus!
