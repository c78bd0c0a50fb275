//! Fixed-width numbers stored in an explicit byte order.
//!
//! `Big<T>` holds the bytes of a `T` most significant byte first, `Little<T>`
//! least significant byte first. Either is made from a number with `new` or
//! straight from bytes already in that order, and gives the number back with
//! `native`, on a machine of either byte order.
//!
//! - `order`: the two byte orders, and which one this machine uses.
//! - `encoding`: numbers as sequences of bytes, the model behind every
//!   contract.
//! - `numeric`: the integer types that can be stored, as patterns of bits.
//! - `buffer`: the byte buffers, one width for each type.
//! - `tagged`: `Big` and `Little`.
//! - `compare`: equality and order of stored numbers.
//! - `text`: stored numbers as text.
//! - `laws`: what holds of all of the above, proved.

pub mod buffer;
pub mod compare;
pub mod encoding;
pub mod laws;
pub mod numeric;
pub mod order;
pub mod tagged;
pub mod text;

pub use buffer::{EndianBufFor, FromBuf};
pub use numeric::BitPattern;
pub use order::{native_order, ByteOrder};
pub use tagged::{Big, IntoNativeEndian, Little};
