//! Conversions of what the managed side hands over into native values.

use crate::string::CSharpNativeString;
use crate::Bool32;
use vstd::prelude::*;
use vstd::std_specs::convert::FromSpecImpl;

verus! {

/// Whether a boolean of the managed side is true: any number above zero is.
pub open spec fn bool32_truth(value: Bool32) -> bool {
    value.0 > 0
}

/// The number that stands for a boolean on the boundary: 1 for true, 0 for
/// false.
pub open spec fn bool32_of(flag: bool) -> Bool32 {
    Bool32(
        if flag {
            1
        } else {
            0
        },
    )
}

/// The text of a native string, a null string read as the empty text.
pub open spec fn text_or_empty(string: Option<Seq<char>>) -> Seq<char> {
    match string {
        Some(text) => text,
        None => Seq::empty(),
    }
}

/// A native type that can be made from the representation `T` that the
/// managed side uses for it.
pub trait FromCSharp<T>: Sized {
    /// Whether `value` is what `csharp_value` converts to.
    spec fn converts(csharp_value: T, value: Self) -> bool;

    /// Converts a value received from the managed side.
    fn from_csharp(csharp_value: T) -> (value: Self)
        ensures
            Self::converts(csharp_value, value),
    ;
}

impl FromCSharp<Bool32> for bool {
    open spec fn converts(csharp_value: Bool32, value: bool) -> bool {
        value == bool32_truth(csharp_value)
    }

    fn from_csharp(csharp_value: Bool32) -> (value: bool) {
        csharp_value.0 > 0
    }
}

impl FromSpecImpl<Bool32> for bool {
    open spec fn obeys_from_spec() -> bool {
        true
    }

    open spec fn from_spec(value: Bool32) -> bool {
        bool32_truth(value)
    }
}

impl From<Bool32> for bool {
    fn from(value: Bool32) -> (truth: bool) {
        bool::from_csharp(value)
    }
}

impl FromSpecImpl<bool> for Bool32 {
    open spec fn obeys_from_spec() -> bool {
        true
    }

    open spec fn from_spec(value: bool) -> Bool32 {
        bool32_of(value)
    }
}

impl From<bool> for Bool32 {
    fn from(value: bool) -> (crossing: Bool32) {
        if value {
            Bool32(1)
        } else {
            Bool32(0)
        }
    }
}

impl FromCSharp<CSharpNativeString> for String {
    open spec fn converts(csharp_value: CSharpNativeString, value: String) -> bool {
        value@ == text_or_empty(csharp_value@)
    }

    fn from_csharp(csharp_value: CSharpNativeString) -> (value: String) {
        match csharp_value.to_text() {
            Some(text) => text,
            None => String::new(),
        }
    }
}

impl<T> FromCSharp<T> for T {
    open spec fn converts(csharp_value: T, value: T) -> bool {
        value == csharp_value
    }

    /// A value that has the same representation on both sides is taken as
    /// it is.
    fn from_csharp(csharp_value: T) -> (value: T) {
        csharp_value
    }
}

/// A boolean that is sent and read back is unchanged.
pub proof fn lemma_bool32_round_trip(value: bool)
    ensures
        bool32_truth(bool32_of(value)) == value,
{
}

} // verus!
