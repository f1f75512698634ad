//! The calls that cross the boundary, and what comes back.
//!
//! A step function never calls the managed side. It answers with a
//! [`ManagedCall`] that says which entry point to invoke and with what, and
//! is handed the [`ManagedReply`] once the call has been made.

use crate::coral_managed_fns::EntryPoint;
use crate::from_csharp::{bool32_truth, text_or_empty, FromCSharp};
use crate::managed_type::{ArgumentSlot, ManagedType, MarshaledArguments, NativeModel, NativeValue};
use crate::string::CSharpNativeString;
use crate::{Bool32, InternalCall, ManagedHandle, TypeId};
use vstd::prelude::*;

verus! {

/// One call of an entry point, with its arguments as plain values.
///
/// `capacity` belongs to the two-call protocol of the enumerations: `None`
/// passes a null buffer and asks for the count alone, `Some(n)` passes a
/// buffer with room for `n` entries. `result` is the zeroed buffer that the
/// managed side writes a returned value of kind `kind` into.
pub enum ManagedCall {
    CreateAssemblyLoadContext { name: CSharpNativeString },
    SetInternalCalls { calls: Vec<InternalCall> },
    LoadAssembly { context_id: i32, path: CSharpNativeString },
    LoadAssemblyFromMemory { context_id: i32, bytes: Vec<u8> },
    UnloadAssemblyLoadContext { context_id: i32 },
    GetLastLoadStatus,
    GetAssemblyName { assembly_id: i32 },
    GetAssemblyTypes { assembly_id: i32, capacity: Option<usize> },
    GetTypeId { name: CSharpNativeString },
    GetFullTypeName { type_id: TypeId },
    GetAssemblyQualifiedName { type_id: TypeId },
    GetBaseType { type_id: TypeId },
    GetTypeSize { type_id: TypeId },
    IsTypeSubclassOf { type_id: TypeId, other: TypeId },
    IsTypeAssignableTo { type_id: TypeId, other: TypeId },
    IsTypeAssignableFrom { type_id: TypeId, other: TypeId },
    IsTypeSZArray { type_id: TypeId },
    GetElementType { type_id: TypeId },
    GetTypeMethods { type_id: TypeId, capacity: Option<usize> },
    GetTypeFields { type_id: TypeId, capacity: Option<usize> },
    GetTypeProperties { type_id: TypeId, capacity: Option<usize> },
    HasTypeAttribute { type_id: TypeId, attribute: TypeId },
    GetTypeAttributes { type_id: TypeId, capacity: Option<usize> },
    GetTypeManagedType { type_id: TypeId },
    InvokeMethod { object: usize, name: CSharpNativeString, arguments: MarshaledArguments },
    InvokeMethodRet {
        object: usize,
        name: CSharpNativeString,
        arguments: MarshaledArguments,
        kind: ManagedType,
        result: Vec<u8>,
    },
    InvokeStaticMethod { type_id: TypeId, name: CSharpNativeString, arguments: MarshaledArguments },
    InvokeStaticMethodRet {
        type_id: TypeId,
        name: CSharpNativeString,
        arguments: MarshaledArguments,
        kind: ManagedType,
        result: Vec<u8>,
    },
    GetMethodInfoName { handle: ManagedHandle },
    GetMethodInfoReturnType { handle: ManagedHandle },
    GetMethodInfoParameterTypes { handle: ManagedHandle, capacity: Option<usize> },
    GetMethodInfoAccessibility { handle: ManagedHandle },
    GetMethodInfoAttributes { handle: ManagedHandle, capacity: Option<usize> },
    GetFieldInfoName { handle: ManagedHandle },
    GetFieldInfoType { handle: ManagedHandle },
    GetFieldInfoAccessibility { handle: ManagedHandle },
    GetFieldInfoAttributes { handle: ManagedHandle, capacity: Option<usize> },
    GetPropertyInfoName { handle: ManagedHandle },
    GetPropertyInfoType { handle: ManagedHandle },
    GetPropertyInfoAttributes { handle: ManagedHandle, capacity: Option<usize> },
    GetAttributeFieldValue {
        handle: ManagedHandle,
        name: CSharpNativeString,
        kind: ManagedType,
        result: Vec<u8>,
    },
    GetAttributeType { handle: ManagedHandle },
    CreateObject { type_id: TypeId, weak: Bool32, arguments: MarshaledArguments },
    DestroyObject { object: usize },
    GetObjectTypeId { object: usize },
    SetFieldValue { object: usize, name: CSharpNativeString, value: ArgumentSlot },
    GetFieldValue { object: usize, name: CSharpNativeString, kind: ManagedType, result: Vec<u8> },
    SetPropertyValue { object: usize, name: CSharpNativeString, value: ArgumentSlot },
    GetPropertyValue {
        object: usize,
        name: CSharpNativeString,
        kind: ManagedType,
        result: Vec<u8>,
    },
}

impl ManagedCall {
    /// The entry point that the call invokes.
    pub open spec fn spec_entry_point(&self) -> EntryPoint {
        match self {
            ManagedCall::CreateAssemblyLoadContext { .. } => EntryPoint::CreateAssemblyLoadContext,
            ManagedCall::SetInternalCalls { .. } => EntryPoint::SetInternalCalls,
            ManagedCall::LoadAssembly { .. } => EntryPoint::LoadAssembly,
            ManagedCall::LoadAssemblyFromMemory { .. } => EntryPoint::LoadAssemblyFromMemory,
            ManagedCall::UnloadAssemblyLoadContext { .. } => EntryPoint::UnloadAssemblyLoadContext,
            ManagedCall::GetLastLoadStatus => EntryPoint::GetLastLoadStatus,
            ManagedCall::GetAssemblyName { .. } => EntryPoint::GetAssemblyName,
            ManagedCall::GetAssemblyTypes { .. } => EntryPoint::GetAssemblyTypes,
            ManagedCall::GetTypeId { .. } => EntryPoint::GetTypeId,
            ManagedCall::GetFullTypeName { .. } => EntryPoint::GetFullTypeName,
            ManagedCall::GetAssemblyQualifiedName { .. } => EntryPoint::GetAssemblyQualifiedName,
            ManagedCall::GetBaseType { .. } => EntryPoint::GetBaseType,
            ManagedCall::GetTypeSize { .. } => EntryPoint::GetTypeSize,
            ManagedCall::IsTypeSubclassOf { .. } => EntryPoint::IsTypeSubclassOf,
            ManagedCall::IsTypeAssignableTo { .. } => EntryPoint::IsTypeAssignableTo,
            ManagedCall::IsTypeAssignableFrom { .. } => EntryPoint::IsTypeAssignableFrom,
            ManagedCall::IsTypeSZArray { .. } => EntryPoint::IsTypeSZArray,
            ManagedCall::GetElementType { .. } => EntryPoint::GetElementType,
            ManagedCall::GetTypeMethods { .. } => EntryPoint::GetTypeMethods,
            ManagedCall::GetTypeFields { .. } => EntryPoint::GetTypeFields,
            ManagedCall::GetTypeProperties { .. } => EntryPoint::GetTypeProperties,
            ManagedCall::HasTypeAttribute { .. } => EntryPoint::HasTypeAttribute,
            ManagedCall::GetTypeAttributes { .. } => EntryPoint::GetTypeAttributes,
            ManagedCall::GetTypeManagedType { .. } => EntryPoint::GetTypeManagedType,
            ManagedCall::InvokeMethod { .. } => EntryPoint::InvokeMethod,
            ManagedCall::InvokeMethodRet { .. } => EntryPoint::InvokeMethodRet,
            ManagedCall::InvokeStaticMethod { .. } => EntryPoint::InvokeStaticMethod,
            ManagedCall::InvokeStaticMethodRet { .. } => EntryPoint::InvokeStaticMethodRet,
            ManagedCall::GetMethodInfoName { .. } => EntryPoint::GetMethodInfoName,
            ManagedCall::GetMethodInfoReturnType { .. } => EntryPoint::GetMethodInfoReturnType,
            ManagedCall::GetMethodInfoParameterTypes { .. } => EntryPoint::GetMethodInfoParameterTypes,
            ManagedCall::GetMethodInfoAccessibility { .. } => EntryPoint::GetMethodInfoAccessibility,
            ManagedCall::GetMethodInfoAttributes { .. } => EntryPoint::GetMethodInfoAttributes,
            ManagedCall::GetFieldInfoName { .. } => EntryPoint::GetFieldInfoName,
            ManagedCall::GetFieldInfoType { .. } => EntryPoint::GetFieldInfoType,
            ManagedCall::GetFieldInfoAccessibility { .. } => EntryPoint::GetFieldInfoAccessibility,
            ManagedCall::GetFieldInfoAttributes { .. } => EntryPoint::GetFieldInfoAttributes,
            ManagedCall::GetPropertyInfoName { .. } => EntryPoint::GetPropertyInfoName,
            ManagedCall::GetPropertyInfoType { .. } => EntryPoint::GetPropertyInfoType,
            ManagedCall::GetPropertyInfoAttributes { .. } => EntryPoint::GetPropertyInfoAttributes,
            ManagedCall::GetAttributeFieldValue { .. } => EntryPoint::GetAttributeFieldValue,
            ManagedCall::GetAttributeType { .. } => EntryPoint::GetAttributeType,
            ManagedCall::CreateObject { .. } => EntryPoint::CreateObject,
            ManagedCall::DestroyObject { .. } => EntryPoint::DestroyObject,
            ManagedCall::GetObjectTypeId { .. } => EntryPoint::GetObjectTypeId,
            ManagedCall::SetFieldValue { .. } => EntryPoint::SetFieldValue,
            ManagedCall::GetFieldValue { .. } => EntryPoint::GetFieldValue,
            ManagedCall::SetPropertyValue { .. } => EntryPoint::SetPropertyValue,
            ManagedCall::GetPropertyValue { .. } => EntryPoint::GetPropertyValue,
        }
    }

    /// The entry point that the call invokes.
    pub fn entry_point(&self) -> (entry: EntryPoint)
        ensures
            entry == self.spec_entry_point(),
    {
        match self {
            ManagedCall::CreateAssemblyLoadContext { .. } => EntryPoint::CreateAssemblyLoadContext,
            ManagedCall::SetInternalCalls { .. } => EntryPoint::SetInternalCalls,
            ManagedCall::LoadAssembly { .. } => EntryPoint::LoadAssembly,
            ManagedCall::LoadAssemblyFromMemory { .. } => EntryPoint::LoadAssemblyFromMemory,
            ManagedCall::UnloadAssemblyLoadContext { .. } => EntryPoint::UnloadAssemblyLoadContext,
            ManagedCall::GetLastLoadStatus => EntryPoint::GetLastLoadStatus,
            ManagedCall::GetAssemblyName { .. } => EntryPoint::GetAssemblyName,
            ManagedCall::GetAssemblyTypes { .. } => EntryPoint::GetAssemblyTypes,
            ManagedCall::GetTypeId { .. } => EntryPoint::GetTypeId,
            ManagedCall::GetFullTypeName { .. } => EntryPoint::GetFullTypeName,
            ManagedCall::GetAssemblyQualifiedName { .. } => EntryPoint::GetAssemblyQualifiedName,
            ManagedCall::GetBaseType { .. } => EntryPoint::GetBaseType,
            ManagedCall::GetTypeSize { .. } => EntryPoint::GetTypeSize,
            ManagedCall::IsTypeSubclassOf { .. } => EntryPoint::IsTypeSubclassOf,
            ManagedCall::IsTypeAssignableTo { .. } => EntryPoint::IsTypeAssignableTo,
            ManagedCall::IsTypeAssignableFrom { .. } => EntryPoint::IsTypeAssignableFrom,
            ManagedCall::IsTypeSZArray { .. } => EntryPoint::IsTypeSZArray,
            ManagedCall::GetElementType { .. } => EntryPoint::GetElementType,
            ManagedCall::GetTypeMethods { .. } => EntryPoint::GetTypeMethods,
            ManagedCall::GetTypeFields { .. } => EntryPoint::GetTypeFields,
            ManagedCall::GetTypeProperties { .. } => EntryPoint::GetTypeProperties,
            ManagedCall::HasTypeAttribute { .. } => EntryPoint::HasTypeAttribute,
            ManagedCall::GetTypeAttributes { .. } => EntryPoint::GetTypeAttributes,
            ManagedCall::GetTypeManagedType { .. } => EntryPoint::GetTypeManagedType,
            ManagedCall::InvokeMethod { .. } => EntryPoint::InvokeMethod,
            ManagedCall::InvokeMethodRet { .. } => EntryPoint::InvokeMethodRet,
            ManagedCall::InvokeStaticMethod { .. } => EntryPoint::InvokeStaticMethod,
            ManagedCall::InvokeStaticMethodRet { .. } => EntryPoint::InvokeStaticMethodRet,
            ManagedCall::GetMethodInfoName { .. } => EntryPoint::GetMethodInfoName,
            ManagedCall::GetMethodInfoReturnType { .. } => EntryPoint::GetMethodInfoReturnType,
            ManagedCall::GetMethodInfoParameterTypes { .. } => EntryPoint::GetMethodInfoParameterTypes,
            ManagedCall::GetMethodInfoAccessibility { .. } => EntryPoint::GetMethodInfoAccessibility,
            ManagedCall::GetMethodInfoAttributes { .. } => EntryPoint::GetMethodInfoAttributes,
            ManagedCall::GetFieldInfoName { .. } => EntryPoint::GetFieldInfoName,
            ManagedCall::GetFieldInfoType { .. } => EntryPoint::GetFieldInfoType,
            ManagedCall::GetFieldInfoAccessibility { .. } => EntryPoint::GetFieldInfoAccessibility,
            ManagedCall::GetFieldInfoAttributes { .. } => EntryPoint::GetFieldInfoAttributes,
            ManagedCall::GetPropertyInfoName { .. } => EntryPoint::GetPropertyInfoName,
            ManagedCall::GetPropertyInfoType { .. } => EntryPoint::GetPropertyInfoType,
            ManagedCall::GetPropertyInfoAttributes { .. } => EntryPoint::GetPropertyInfoAttributes,
            ManagedCall::GetAttributeFieldValue { .. } => EntryPoint::GetAttributeFieldValue,
            ManagedCall::GetAttributeType { .. } => EntryPoint::GetAttributeType,
            ManagedCall::CreateObject { .. } => EntryPoint::CreateObject,
            ManagedCall::DestroyObject { .. } => EntryPoint::DestroyObject,
            ManagedCall::GetObjectTypeId { .. } => EntryPoint::GetObjectTypeId,
            ManagedCall::SetFieldValue { .. } => EntryPoint::SetFieldValue,
            ManagedCall::GetFieldValue { .. } => EntryPoint::GetFieldValue,
            ManagedCall::SetPropertyValue { .. } => EntryPoint::SetPropertyValue,
            ManagedCall::GetPropertyValue { .. } => EntryPoint::GetPropertyValue,
        }
    }
}

/// Why a reply cannot be used.
#[derive(Debug, Clone, Copy, PartialEq, Eq, Structural)]
pub enum ProtocolError {
    /// The reply is not of the kind that the call gives.
    UnexpectedReply,
    /// An enumeration reported a count below zero.
    NegativeCount,
    /// An enumeration reported more entries than its buffer has room for.
    CountExceedsCapacity,
    /// A number does not stand for any value of the enumeration it is read
    /// as.
    InvalidEnumValue,
    /// A returned buffer has not the size of the value that was asked for.
    SizeMismatch,
}

/// What came back from a call.
pub enum ManagedReply {
    /// The call gives nothing back.
    Unit,
    /// A number: a plain result, an identifier written through an out
    /// parameter, a count, or what stands for a value of an enumeration.
    Int(i32),
    /// A boolean of the managed side.
    Flag(Bool32),
    /// A string that the managed side handed over.
    Text(CSharpNativeString),
    /// The address of a managed object.
    Object(usize),
    /// The buffer of an enumeration after the call, and the count that the
    /// managed side reported beside it.
    Items { items: Vec<i32>, count: i32 },
    /// The result buffer after the call.
    Bytes(Vec<u8>),
}

/// The entries of an enumeration buffer that the managed side filled: the
/// first `count`, if the buffer has room for that many.
pub open spec fn kept_items(items: Seq<i32>, count: i32) -> Result<Seq<i32>, ProtocolError> {
    if count < 0 {
        Err(ProtocolError::NegativeCount)
    } else if count > items.len() {
        Err(ProtocolError::CountExceedsCapacity)
    } else {
        Ok(items.take(count as int))
    }
}

impl ManagedReply {
    /// The reply read as nothing.
    pub open spec fn as_unit(&self) -> Result<(), ProtocolError> {
        match self {
            ManagedReply::Unit => Ok(()),
            _ => Err(ProtocolError::UnexpectedReply),
        }
    }

    /// The reply read as a number.
    pub open spec fn as_int(&self) -> Result<i32, ProtocolError> {
        match self {
            ManagedReply::Int(value) => Ok(*value),
            _ => Err(ProtocolError::UnexpectedReply),
        }
    }

    /// The reply read as a boolean: any number above zero is true.
    pub open spec fn as_flag(&self) -> Result<bool, ProtocolError> {
        match self {
            ManagedReply::Flag(value) => Ok(bool32_truth(*value)),
            _ => Err(ProtocolError::UnexpectedReply),
        }
    }

    /// The reply read as text, a null string as the empty text.
    pub open spec fn as_text(&self) -> Result<Seq<char>, ProtocolError> {
        match self {
            ManagedReply::Text(string) => Ok(text_or_empty(string@)),
            _ => Err(ProtocolError::UnexpectedReply),
        }
    }

    /// The reply read as the address of an object.
    pub open spec fn as_object(&self) -> Result<usize, ProtocolError> {
        match self {
            ManagedReply::Object(address) => Ok(*address),
            _ => Err(ProtocolError::UnexpectedReply),
        }
    }

    /// The reply read as a returned value of kind `kind`: a string from a
    /// native string, anything else from a buffer of the size of its kind.
    pub open spec fn as_value(&self, kind: ManagedType) -> Result<NativeModel, ProtocolError> {
        match self {
            ManagedReply::Text(string) => if kind == ManagedType::String {
                Ok(NativeModel::String(text_or_empty(string@)))
            } else {
                Err(ProtocolError::UnexpectedReply)
            },
            ManagedReply::Bytes(bytes) => if kind == ManagedType::String {
                Err(ProtocolError::UnexpectedReply)
            } else {
                match NativeModel::from_bytes(kind, bytes@) {
                    Some(value) => Ok(value),
                    None => Err(ProtocolError::SizeMismatch),
                }
            },
            _ => Err(ProtocolError::UnexpectedReply),
        }
    }

    /// The reply read as the bytes of a returned value of `size` bytes, of a
    /// type that the protocol has no tag for.
    pub open spec fn as_raw(&self, size: usize) -> Result<Seq<u8>, ProtocolError> {
        match self {
            ManagedReply::Bytes(bytes) => if bytes@.len() == size {
                Ok(bytes@)
            } else {
                Err(ProtocolError::SizeMismatch)
            },
            _ => Err(ProtocolError::UnexpectedReply),
        }
    }

    /// Reads the reply of a call that yields a value of `size` bytes, of a
    /// type that the protocol has no tag for: the bytes as they came.
    pub fn into_raw(self, size: usize) -> (read: Result<Vec<u8>, ProtocolError>)
        ensures
            read is Ok <==> self.as_raw(size) is Ok,
            read matches Ok(bytes) ==> Ok::<Seq<u8>, ProtocolError>(bytes@) == self.as_raw(size),
            read matches Err(e) ==> Err::<Seq<u8>, ProtocolError>(e) == self.as_raw(size),
    {
        match self {
            ManagedReply::Bytes(bytes) => {
                if bytes.len() == size {
                    Ok(bytes)
                } else {
                    Err(ProtocolError::SizeMismatch)
                }
            },
            _ => Err(ProtocolError::UnexpectedReply),
        }
    }

    /// Reads the reply of a call that gives nothing back.
    pub fn into_unit(self) -> (read: Result<(), ProtocolError>)
        ensures
            read == self.as_unit(),
    {
        match self {
            ManagedReply::Unit => Ok(()),
            _ => Err(ProtocolError::UnexpectedReply),
        }
    }

    /// Reads the reply of a call that yields a number.
    pub fn into_int(self) -> (read: Result<i32, ProtocolError>)
        ensures
            read == self.as_int(),
    {
        match self {
            ManagedReply::Int(value) => Ok(value),
            _ => Err(ProtocolError::UnexpectedReply),
        }
    }

    /// Reads the reply of a call that yields a boolean.
    pub fn into_flag(self) -> (read: Result<bool, ProtocolError>)
        ensures
            read == self.as_flag(),
    {
        match self {
            ManagedReply::Flag(value) => Ok(bool::from_csharp(value)),
            _ => Err(ProtocolError::UnexpectedReply),
        }
    }

    /// Reads the reply of a call that yields a string, and releases the
    /// native string.
    pub fn into_text(self) -> (read: Result<String, ProtocolError>)
        ensures
            read is Ok <==> self.as_text() is Ok,
            read matches Ok(text) ==> Ok::<Seq<char>, ProtocolError>(text@) == self.as_text(),
            read matches Err(e) ==> Err::<Seq<char>, ProtocolError>(e) == self.as_text(),
    {
        match self {
            ManagedReply::Text(string) => Ok(String::from_csharp(string)),
            _ => Err(ProtocolError::UnexpectedReply),
        }
    }

    /// Reads the reply of a call that yields the address of an object.
    pub fn into_object(self) -> (read: Result<usize, ProtocolError>)
        ensures
            read == self.as_object(),
    {
        match self {
            ManagedReply::Object(address) => Ok(address),
            _ => Err(ProtocolError::UnexpectedReply),
        }
    }

    /// Reads the reply of a call that yields a value of kind `kind`.
    pub fn into_value(self, kind: ManagedType) -> (read: Result<NativeValue, ProtocolError>)
        ensures
            read is Ok <==> self.as_value(kind) is Ok,
            read matches Ok(value) ==> Ok::<NativeModel, ProtocolError>(value@) == self.as_value(kind),
            read matches Err(e) ==> Err::<NativeModel, ProtocolError>(e) == self.as_value(kind),
    {
        match self {
            ManagedReply::Text(string) => {
                if kind == ManagedType::String {
                    Ok(NativeValue::String(String::from_csharp(string)))
                } else {
                    Err(ProtocolError::UnexpectedReply)
                }
            },
            ManagedReply::Bytes(bytes) => {
                if kind == ManagedType::String {
                    Err(ProtocolError::UnexpectedReply)
                } else {
                    match NativeValue::from_bytes(kind, &bytes) {
                        Some(value) => Ok(value),
                        None => Err(ProtocolError::SizeMismatch),
                    }
                }
            },
            _ => Err(ProtocolError::UnexpectedReply),
        }
    }
}

/// What a step function answers: the next call to make, the result, or the
/// reason why the reply cannot be used.
pub enum Step<T> {
    Call(ManagedCall),
    Done(T),
    Failed(ProtocolError),
}

impl<T> Step<T> {
    /// The step that ends an operation with what was read from the last
    /// reply.
    pub open spec fn spec_finish(read: Result<T, ProtocolError>) -> Step<T> {
        match read {
            Ok(value) => Step::Done(value),
            Err(error) => Step::Failed(error),
        }
    }

    /// The step that ends an operation with what was read from the last
    /// reply.
    pub fn finish(read: Result<T, ProtocolError>) -> (step: Step<T>)
        ensures
            step == Self::spec_finish(read),
    {
        match read {
            Ok(value) => Step::Done(value),
            Err(error) => Step::Failed(error),
        }
    }
}

impl<T> Step<T> {
    /// Whether `step` is the step of a two-call enumeration after `reply`.
    /// `ask` gives the call for a capacity, and `holds` says whether a
    /// result is made of the entries that were kept.
    ///
    /// Without a reply the enumeration asks for the count, with a null
    /// buffer. The count that comes back sizes the buffer of the second
    /// call; a count below zero is refused. Of the buffer that comes back
    /// the first `count` entries are kept; a count that the buffer has no
    /// room for is refused.
    pub open spec fn enumerates(
        step: Step<T>,
        reply: Option<ManagedReply>,
        ask: spec_fn(Option<usize>) -> ManagedCall,
        holds: spec_fn(Seq<i32>, T) -> bool,
    ) -> bool {
        match reply {
            None => step == Step::<T>::Call(ask(None)),
            Some(ManagedReply::Int(count)) => if count < 0 {
                step == Step::<T>::Failed(ProtocolError::NegativeCount)
            } else {
                step == Step::<T>::Call(ask(Some(count as usize)))
            },
            Some(ManagedReply::Items { items, count }) => match kept_items(items@, count) {
                Ok(kept) => step matches Step::Done(made) && holds(kept, made),
                Err(error) => step == Step::<T>::Failed(error),
            },
            Some(_) => step == Step::<T>::Failed(ProtocolError::UnexpectedReply),
        }
    }
}

impl Step<String> {
    /// Whether `step` ends an operation with the text of `reply`.
    pub open spec fn read_text(step: Step<String>, reply: ManagedReply) -> bool {
        match reply.as_text() {
            Ok(text) => step matches Step::Done(read) && read@ == text,
            Err(error) => step == Step::<String>::Failed(error),
        }
    }

    /// The step that ends an operation with the text of the reply.
    pub fn text(reply: ManagedReply) -> (step: Step<String>)
        ensures
            Self::read_text(step, reply),
    {
        Step::finish(reply.into_text())
    }
}

impl Step<Vec<u8>> {
    /// Whether `step` ends an operation with the `size` bytes that `reply`
    /// holds.
    pub open spec fn read_raw(step: Step<Vec<u8>>, reply: ManagedReply, size: usize) -> bool {
        match reply.as_raw(size) {
            Ok(bytes) => step matches Step::Done(read) && read@ == bytes,
            Err(error) => step == Step::<Vec<u8>>::Failed(error),
        }
    }

    /// The step that ends an operation with the `size` bytes that the reply
    /// holds.
    pub fn raw(reply: ManagedReply, size: usize) -> (step: Step<Vec<u8>>)
        ensures
            Self::read_raw(step, reply, size),
    {
        Step::finish(reply.into_raw(size))
    }
}

impl Step<NativeValue> {
    /// Whether `step` ends an operation with the value of kind `kind` that
    /// `reply` holds.
    pub open spec fn read_value(step: Step<NativeValue>, reply: ManagedReply, kind: ManagedType) -> bool {
        match reply.as_value(kind) {
            Ok(value) => step matches Step::Done(read) && read@ == value,
            Err(error) => step == Step::<NativeValue>::Failed(error),
        }
    }

    /// The step that ends an operation with the value of kind `kind` that
    /// the reply holds.
    pub fn value(reply: ManagedReply, kind: ManagedType) -> (step: Step<NativeValue>)
        ensures
            Self::read_value(step, reply, kind),
    {
        Step::finish(reply.into_value(kind))
    }
}

/// Where a two-call enumeration stands after a reply.
pub enum Enumeration {
    /// Ask for the count alone, with a null buffer.
    AskCount,
    /// Ask again, with a buffer that has room for `capacity` entries.
    AskItems { capacity: usize },
    /// The entries that the managed side filled in.
    Done { items: Vec<i32> },
    Failed(ProtocolError),
}

impl Enumeration {
    /// Decides how a two-call enumeration goes on. Without a reply it asks
    /// for the count. The count that comes back sizes the buffer of the
    /// second call, and of the buffer that comes back the first `count`
    /// entries are kept: a count below zero or beyond the buffer is refused.
    pub fn step(reply: Option<ManagedReply>) -> (next: Enumeration)
        ensures
            match reply {
                None => next == Enumeration::AskCount,
                Some(ManagedReply::Int(count)) => if count < 0 {
                    next == Enumeration::Failed(ProtocolError::NegativeCount)
                } else {
                    next == (Enumeration::AskItems { capacity: count as usize })
                },
                Some(ManagedReply::Items { items, count }) => match kept_items(items@, count) {
                    Ok(kept) => next matches Enumeration::Done { items: filled } && filled@ == kept,
                    Err(error) => next == Enumeration::Failed(error),
                },
                Some(_) => next == Enumeration::Failed(ProtocolError::UnexpectedReply),
            },
    {
        match reply {
            None => Enumeration::AskCount,
            Some(ManagedReply::Int(count)) => {
                if count < 0 {
                    Enumeration::Failed(ProtocolError::NegativeCount)
                } else {
                    Enumeration::AskItems { capacity: count as usize }
                }
            },
            Some(ManagedReply::Items { items, count }) => {
                if count < 0 {
                    Enumeration::Failed(ProtocolError::NegativeCount)
                } else if count as usize > items.len() {
                    Enumeration::Failed(ProtocolError::CountExceedsCapacity)
                } else {
                    let mut items = items;
                    items.truncate(count as usize);
                    Enumeration::Done { items }
                }
            },
            Some(_) => Enumeration::Failed(ProtocolError::UnexpectedReply),
        }
    }
}

/// A buffer that was sized by the count of the first call, and for which the
/// second call reports that count again, comes back with exactly that many
/// entries.
pub proof fn lemma_enumeration_keeps_count(count: i32, items: Seq<i32>)
    requires
        0 <= count,
        items.len() == count,
    ensures
        kept_items(items, count) == Ok::<Seq<i32>, ProtocolError>(items),
        kept_items(items, count)->Ok_0.len() == count,
{
    assert(items.take(count as int) =~= items);
}

} // verus!
