//! Stored numbers as text: the number a wrapper stands for, written as its
//! own type writes it.

use crate::buffer::FromBuf;
use crate::order::{native_order, ByteOrder};
use crate::tagged::{resolve, Big, IntoNativeEndian, Little};
use vstd::prelude::*;
use vstd::string::{to_string_from_display_ensures, StringExecFns};

verus! {

/// `inner` between brackets, with `label` in front.
pub open spec fn labelled(label: Seq<char>, inner: Seq<char>) -> Seq<char> {
    label + seq!['('] + inner + seq![')']
}

/// Whether `text` is `label`, an opening bracket, `value` as its type writes
/// it and a closing bracket.
pub open spec fn is_labelled_text<T: core::fmt::Display>(
    label: Seq<char>,
    value: T,
    text: Seq<char>,
) -> bool {
    exists|inner: String| #[trigger]
        to_string_from_display_ensures::<T>(&value, inner) && text == labelled(label, inner@)
}

/// Writes `value` as its type does and puts it between brackets, with
/// `label` in front.
pub fn label_value<T: core::fmt::Display>(label: &str, value: T) -> (text: String)
    ensures
        is_labelled_text(label@, value, text@),
{
    let inner = value.to_string();
    let mut text = String::from_str(label);
    text.append("(");
    text.append(inner.as_str());
    text.append(")");
    proof {
        reveal_strlit("(");
        reveal_strlit(")");
        assert("("@ =~= seq!['(']);
        assert(")"@ =~= seq![')']);
        assert(text@ =~= labelled(label@, inner@));
    }
    text
}

impl<T: FromBuf + core::fmt::Display> Big<T> where T::Buf: Copy {
    /// The number that `self` stands for, written as its type writes it.
    pub fn to_string(&self) -> (text: String)
        ensures
            to_string_from_display_ensures::<T>(&self.resolved(), text),
    {
        let value: T = resolve(self.0, ByteOrder::BigEndian, native_order());
        value.to_string()
    }

    /// The text of `to_string` between brackets behind the name of the tag,
    /// as in `Big(5)`.
    pub fn to_debug_string(&self) -> (text: String)
        ensures
            is_labelled_text("Big"@, self.resolved(), text@),
    {
        let value: T = resolve(self.0, ByteOrder::BigEndian, native_order());
        label_value("Big", value)
    }
}

impl<T: FromBuf + core::fmt::Display> Little<T> where T::Buf: Copy {
    /// The number that `self` stands for, written as its type writes it.
    pub fn to_string(&self) -> (text: String)
        ensures
            to_string_from_display_ensures::<T>(&self.resolved(), text),
    {
        let value: T = resolve(self.0, ByteOrder::LittleEndian, native_order());
        value.to_string()
    }

    /// The text of `to_string` between brackets behind the name of the tag,
    /// as in `Little(5)`.
    pub fn to_debug_string(&self) -> (text: String)
        ensures
            is_labelled_text("Little"@, self.resolved(), text@),
    {
        let value: T = resolve(self.0, ByteOrder::LittleEndian, native_order());
        label_value("Little", value)
    }
}

} // verus!
