//! A verified core for a bridge that hosts a managed runtime inside a native
//! process.
//!
//! The library decides; it never crosses the foreign boundary itself. Every
//! operation that needs the managed side is a step function: it is handed the
//! reply to the call that it asked for last, and answers with the next call to
//! make, with its result, or with the reason why the reply cannot be used.

pub mod assembly;
pub mod coral_managed_fns;
pub mod from_csharp;
pub mod host_instance;
pub mod managed_call;
pub mod managed_object;
pub mod managed_type;
pub mod message_level;
pub mod meta_info;
pub mod sharp_type;
pub mod string;
pub mod type_cache;

pub use sharp_type::TypeFns;
pub use type_cache::TypeCacheError;

use netcorehost::pdcstring::PdCString;
use vstd::prelude::*;

verus! {

/// The number that identifies a managed type within a session.
pub type TypeId = i32;

/// The number that identifies a method, field, property or attribute.
pub type ManagedHandle = i32;

/// A boolean as the managed side passes it: an unsigned 32-bit number.
#[derive(Debug, Clone, Copy, PartialEq, Eq, Structural)]
pub struct Bool32(pub u32);

/// A native function that managed code may call, under the name that the
/// managed side knows it by.
pub struct InternalCall {
    pub name: PdCString,
    pub native_function_ptr: usize,
}

/// Who may see a managed member.
#[derive(Debug, Clone, Copy, PartialEq, Eq, Structural)]
pub enum TypeAccessibility {
    Public,
    Private,
    Protected,
    Internal,
    ProtectedPublic,
    PrivateProtected,
}

impl TypeAccessibility {
    /// The number that stands for the accessibility on the foreign boundary.
    pub open spec fn spec_raw(self) -> int {
        match self {
            TypeAccessibility::Public => 0,
            TypeAccessibility::Private => 1,
            TypeAccessibility::Protected => 2,
            TypeAccessibility::Internal => 3,
            TypeAccessibility::ProtectedPublic => 4,
            TypeAccessibility::PrivateProtected => 5,
        }
    }

    /// Reads an accessibility received from the managed side. A number
    /// outside the enumeration is none.
    pub fn from_raw(raw: i32) -> (accessibility: Option<TypeAccessibility>)
        ensures
            accessibility is Some <==> 0 <= raw <= 5,
            accessibility matches Some(a) ==> a.spec_raw() == raw,
    {
        match raw {
            0 => Some(TypeAccessibility::Public),
            1 => Some(TypeAccessibility::Private),
            2 => Some(TypeAccessibility::Protected),
            3 => Some(TypeAccessibility::Internal),
            4 => Some(TypeAccessibility::ProtectedPublic),
            5 => Some(TypeAccessibility::PrivateProtected),
            _ => None,
        }
    }
}

} // verus!
