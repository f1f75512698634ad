//! The foreign entry points of the managed support assembly, and the table
//! that holds them once they are resolved.

use vstd::prelude::*;

verus! {

/// What the managed side reports about the last attempt to load an assembly.
#[derive(Debug, Clone, Copy, PartialEq, Eq, Structural)]
pub enum AssemblyLoadStatus {
    Success,
    FileNotFound,
    FileLoadFailure,
    InvalidFilePath,
    InvalidAssembly,
    UnknownError,
}

impl AssemblyLoadStatus {
    /// The number that stands for the status on the foreign boundary.
    pub open spec fn spec_raw(self) -> int {
        match self {
            AssemblyLoadStatus::Success => 0,
            AssemblyLoadStatus::FileNotFound => 1,
            AssemblyLoadStatus::FileLoadFailure => 2,
            AssemblyLoadStatus::InvalidFilePath => 3,
            AssemblyLoadStatus::InvalidAssembly => 4,
            AssemblyLoadStatus::UnknownError => 5,
        }
    }

    /// The number that stands for the status on the foreign boundary.
    pub fn raw(self) -> (raw: i32)
        ensures
            raw == self.spec_raw(),
    {
        match self {
            AssemblyLoadStatus::Success => 0,
            AssemblyLoadStatus::FileNotFound => 1,
            AssemblyLoadStatus::FileLoadFailure => 2,
            AssemblyLoadStatus::InvalidFilePath => 3,
            AssemblyLoadStatus::InvalidAssembly => 4,
            AssemblyLoadStatus::UnknownError => 5,
        }
    }

    /// Reads a status received from the managed side. A number outside the
    /// enumeration is not a status.
    pub fn from_raw(raw: i32) -> (status: Option<AssemblyLoadStatus>)
        ensures
            status is Some <==> 0 <= raw <= 5,
            status matches Some(s) ==> s.spec_raw() == raw,
    {
        match raw {
            0 => Some(AssemblyLoadStatus::Success),
            1 => Some(AssemblyLoadStatus::FileNotFound),
            2 => Some(AssemblyLoadStatus::FileLoadFailure),
            3 => Some(AssemblyLoadStatus::InvalidFilePath),
            4 => Some(AssemblyLoadStatus::InvalidAssembly),
            5 => Some(AssemblyLoadStatus::UnknownError),
            _ => None,
        }
    }
}

/// The managed classes that export entry points.
#[derive(Debug, Clone, Copy, PartialEq, Eq, Structural)]
pub enum ManagedClass {
    ManagedHost,
    AssemblyLoader,
    InternalCallsManager,
    TypeInterface,
    ManagedObject,
}

impl ManagedClass {
    /// The assembly-qualified name under which the class is looked up.
    pub open spec fn spec_qualified_name(self) -> Seq<char> {
        match self {
            ManagedClass::ManagedHost => "Coral.Managed.ManagedHost, Coral.Managed"@,
            ManagedClass::AssemblyLoader => "Coral.Managed.AssemblyLoader, Coral.Managed"@,
            ManagedClass::InternalCallsManager => "Coral.Managed.Interop.InternalCallsManager, Coral.Managed"@,
            ManagedClass::TypeInterface => "Coral.Managed.TypeInterface, Coral.Managed"@,
            ManagedClass::ManagedObject => "Coral.Managed.ManagedObject, Coral.Managed"@,
        }
    }

    /// The assembly-qualified name under which the class is looked up.
    pub fn qualified_name(self) -> (name: &'static str)
        ensures
            name@ == self.spec_qualified_name(),
    {
        match self {
            ManagedClass::ManagedHost => "Coral.Managed.ManagedHost, Coral.Managed",
            ManagedClass::AssemblyLoader => "Coral.Managed.AssemblyLoader, Coral.Managed",
            ManagedClass::InternalCallsManager => "Coral.Managed.Interop.InternalCallsManager, Coral.Managed",
            ManagedClass::TypeInterface => "Coral.Managed.TypeInterface, Coral.Managed",
            ManagedClass::ManagedObject => "Coral.Managed.ManagedObject, Coral.Managed",
        }
    }
}

/// How many entry points the function table holds.
pub const ENTRY_POINT_COUNT: usize = 49;

/// The entry points of the function table, in the order in which they are
/// resolved at startup.
#[derive(Debug, Clone, Copy, PartialEq, Eq, Structural)]
pub enum EntryPoint {
    CreateAssemblyLoadContext,
    SetInternalCalls,
    LoadAssembly,
    LoadAssemblyFromMemory,
    UnloadAssemblyLoadContext,
    GetLastLoadStatus,
    GetAssemblyName,
    GetAssemblyTypes,
    GetTypeId,
    GetFullTypeName,
    GetAssemblyQualifiedName,
    GetBaseType,
    GetTypeSize,
    IsTypeSubclassOf,
    IsTypeAssignableTo,
    IsTypeAssignableFrom,
    IsTypeSZArray,
    GetElementType,
    GetTypeMethods,
    GetTypeFields,
    GetTypeProperties,
    HasTypeAttribute,
    GetTypeAttributes,
    GetTypeManagedType,
    InvokeMethod,
    InvokeMethodRet,
    InvokeStaticMethod,
    InvokeStaticMethodRet,
    GetMethodInfoName,
    GetMethodInfoReturnType,
    GetMethodInfoParameterTypes,
    GetMethodInfoAccessibility,
    GetMethodInfoAttributes,
    GetFieldInfoName,
    GetFieldInfoType,
    GetFieldInfoAccessibility,
    GetFieldInfoAttributes,
    GetPropertyInfoName,
    GetPropertyInfoType,
    GetPropertyInfoAttributes,
    GetAttributeFieldValue,
    GetAttributeType,
    CreateObject,
    DestroyObject,
    GetObjectTypeId,
    SetFieldValue,
    GetFieldValue,
    SetPropertyValue,
    GetPropertyValue,
}

impl EntryPoint {
    /// The position of the entry point in the resolution order, from 0.
    pub open spec fn spec_index(self) -> int {
        match self {
            EntryPoint::CreateAssemblyLoadContext => 0,
            EntryPoint::SetInternalCalls => 1,
            EntryPoint::LoadAssembly => 2,
            EntryPoint::LoadAssemblyFromMemory => 3,
            EntryPoint::UnloadAssemblyLoadContext => 4,
            EntryPoint::GetLastLoadStatus => 5,
            EntryPoint::GetAssemblyName => 6,
            EntryPoint::GetAssemblyTypes => 7,
            EntryPoint::GetTypeId => 8,
            EntryPoint::GetFullTypeName => 9,
            EntryPoint::GetAssemblyQualifiedName => 10,
            EntryPoint::GetBaseType => 11,
            EntryPoint::GetTypeSize => 12,
            EntryPoint::IsTypeSubclassOf => 13,
            EntryPoint::IsTypeAssignableTo => 14,
            EntryPoint::IsTypeAssignableFrom => 15,
            EntryPoint::IsTypeSZArray => 16,
            EntryPoint::GetElementType => 17,
            EntryPoint::GetTypeMethods => 18,
            EntryPoint::GetTypeFields => 19,
            EntryPoint::GetTypeProperties => 20,
            EntryPoint::HasTypeAttribute => 21,
            EntryPoint::GetTypeAttributes => 22,
            EntryPoint::GetTypeManagedType => 23,
            EntryPoint::InvokeMethod => 24,
            EntryPoint::InvokeMethodRet => 25,
            EntryPoint::InvokeStaticMethod => 26,
            EntryPoint::InvokeStaticMethodRet => 27,
            EntryPoint::GetMethodInfoName => 28,
            EntryPoint::GetMethodInfoReturnType => 29,
            EntryPoint::GetMethodInfoParameterTypes => 30,
            EntryPoint::GetMethodInfoAccessibility => 31,
            EntryPoint::GetMethodInfoAttributes => 32,
            EntryPoint::GetFieldInfoName => 33,
            EntryPoint::GetFieldInfoType => 34,
            EntryPoint::GetFieldInfoAccessibility => 35,
            EntryPoint::GetFieldInfoAttributes => 36,
            EntryPoint::GetPropertyInfoName => 37,
            EntryPoint::GetPropertyInfoType => 38,
            EntryPoint::GetPropertyInfoAttributes => 39,
            EntryPoint::GetAttributeFieldValue => 40,
            EntryPoint::GetAttributeType => 41,
            EntryPoint::CreateObject => 42,
            EntryPoint::DestroyObject => 43,
            EntryPoint::GetObjectTypeId => 44,
            EntryPoint::SetFieldValue => 45,
            EntryPoint::GetFieldValue => 46,
            EntryPoint::SetPropertyValue => 47,
            EntryPoint::GetPropertyValue => 48,
        }
    }

    /// The position of the entry point in the resolution order, from 0.
    pub fn index(self) -> (index: usize)
        ensures
            index == self.spec_index(),
            index < ENTRY_POINT_COUNT,
    {
        match self {
            EntryPoint::CreateAssemblyLoadContext => 0,
            EntryPoint::SetInternalCalls => 1,
            EntryPoint::LoadAssembly => 2,
            EntryPoint::LoadAssemblyFromMemory => 3,
            EntryPoint::UnloadAssemblyLoadContext => 4,
            EntryPoint::GetLastLoadStatus => 5,
            EntryPoint::GetAssemblyName => 6,
            EntryPoint::GetAssemblyTypes => 7,
            EntryPoint::GetTypeId => 8,
            EntryPoint::GetFullTypeName => 9,
            EntryPoint::GetAssemblyQualifiedName => 10,
            EntryPoint::GetBaseType => 11,
            EntryPoint::GetTypeSize => 12,
            EntryPoint::IsTypeSubclassOf => 13,
            EntryPoint::IsTypeAssignableTo => 14,
            EntryPoint::IsTypeAssignableFrom => 15,
            EntryPoint::IsTypeSZArray => 16,
            EntryPoint::GetElementType => 17,
            EntryPoint::GetTypeMethods => 18,
            EntryPoint::GetTypeFields => 19,
            EntryPoint::GetTypeProperties => 20,
            EntryPoint::HasTypeAttribute => 21,
            EntryPoint::GetTypeAttributes => 22,
            EntryPoint::GetTypeManagedType => 23,
            EntryPoint::InvokeMethod => 24,
            EntryPoint::InvokeMethodRet => 25,
            EntryPoint::InvokeStaticMethod => 26,
            EntryPoint::InvokeStaticMethodRet => 27,
            EntryPoint::GetMethodInfoName => 28,
            EntryPoint::GetMethodInfoReturnType => 29,
            EntryPoint::GetMethodInfoParameterTypes => 30,
            EntryPoint::GetMethodInfoAccessibility => 31,
            EntryPoint::GetMethodInfoAttributes => 32,
            EntryPoint::GetFieldInfoName => 33,
            EntryPoint::GetFieldInfoType => 34,
            EntryPoint::GetFieldInfoAccessibility => 35,
            EntryPoint::GetFieldInfoAttributes => 36,
            EntryPoint::GetPropertyInfoName => 37,
            EntryPoint::GetPropertyInfoType => 38,
            EntryPoint::GetPropertyInfoAttributes => 39,
            EntryPoint::GetAttributeFieldValue => 40,
            EntryPoint::GetAttributeType => 41,
            EntryPoint::CreateObject => 42,
            EntryPoint::DestroyObject => 43,
            EntryPoint::GetObjectTypeId => 44,
            EntryPoint::SetFieldValue => 45,
            EntryPoint::GetFieldValue => 46,
            EntryPoint::SetPropertyValue => 47,
            EntryPoint::GetPropertyValue => 48,
        }
    }

    /// The entry point at a position of the resolution order, if there is one.
    pub fn from_index(index: usize) -> (entry: Option<EntryPoint>)
        ensures
            entry is Some <==> index < ENTRY_POINT_COUNT,
            entry matches Some(e) ==> e.spec_index() == index,
    {
        match index {
            0 => Some(EntryPoint::CreateAssemblyLoadContext),
            1 => Some(EntryPoint::SetInternalCalls),
            2 => Some(EntryPoint::LoadAssembly),
            3 => Some(EntryPoint::LoadAssemblyFromMemory),
            4 => Some(EntryPoint::UnloadAssemblyLoadContext),
            5 => Some(EntryPoint::GetLastLoadStatus),
            6 => Some(EntryPoint::GetAssemblyName),
            7 => Some(EntryPoint::GetAssemblyTypes),
            8 => Some(EntryPoint::GetTypeId),
            9 => Some(EntryPoint::GetFullTypeName),
            10 => Some(EntryPoint::GetAssemblyQualifiedName),
            11 => Some(EntryPoint::GetBaseType),
            12 => Some(EntryPoint::GetTypeSize),
            13 => Some(EntryPoint::IsTypeSubclassOf),
            14 => Some(EntryPoint::IsTypeAssignableTo),
            15 => Some(EntryPoint::IsTypeAssignableFrom),
            16 => Some(EntryPoint::IsTypeSZArray),
            17 => Some(EntryPoint::GetElementType),
            18 => Some(EntryPoint::GetTypeMethods),
            19 => Some(EntryPoint::GetTypeFields),
            20 => Some(EntryPoint::GetTypeProperties),
            21 => Some(EntryPoint::HasTypeAttribute),
            22 => Some(EntryPoint::GetTypeAttributes),
            23 => Some(EntryPoint::GetTypeManagedType),
            24 => Some(EntryPoint::InvokeMethod),
            25 => Some(EntryPoint::InvokeMethodRet),
            26 => Some(EntryPoint::InvokeStaticMethod),
            27 => Some(EntryPoint::InvokeStaticMethodRet),
            28 => Some(EntryPoint::GetMethodInfoName),
            29 => Some(EntryPoint::GetMethodInfoReturnType),
            30 => Some(EntryPoint::GetMethodInfoParameterTypes),
            31 => Some(EntryPoint::GetMethodInfoAccessibility),
            32 => Some(EntryPoint::GetMethodInfoAttributes),
            33 => Some(EntryPoint::GetFieldInfoName),
            34 => Some(EntryPoint::GetFieldInfoType),
            35 => Some(EntryPoint::GetFieldInfoAccessibility),
            36 => Some(EntryPoint::GetFieldInfoAttributes),
            37 => Some(EntryPoint::GetPropertyInfoName),
            38 => Some(EntryPoint::GetPropertyInfoType),
            39 => Some(EntryPoint::GetPropertyInfoAttributes),
            40 => Some(EntryPoint::GetAttributeFieldValue),
            41 => Some(EntryPoint::GetAttributeType),
            42 => Some(EntryPoint::CreateObject),
            43 => Some(EntryPoint::DestroyObject),
            44 => Some(EntryPoint::GetObjectTypeId),
            45 => Some(EntryPoint::SetFieldValue),
            46 => Some(EntryPoint::GetFieldValue),
            47 => Some(EntryPoint::SetPropertyValue),
            48 => Some(EntryPoint::GetPropertyValue),
            _ => None,
        }
    }

    /// The managed class that exports the entry point.
    pub open spec fn spec_class(self) -> ManagedClass {
        match self {
            EntryPoint::CreateAssemblyLoadContext
            | EntryPoint::LoadAssembly
            | EntryPoint::LoadAssemblyFromMemory
            | EntryPoint::UnloadAssemblyLoadContext
            | EntryPoint::GetLastLoadStatus
            | EntryPoint::GetAssemblyName => ManagedClass::AssemblyLoader,
            EntryPoint::SetInternalCalls => ManagedClass::InternalCallsManager,
            EntryPoint::InvokeMethod
            | EntryPoint::InvokeMethodRet
            | EntryPoint::InvokeStaticMethod
            | EntryPoint::InvokeStaticMethodRet
            | EntryPoint::CreateObject
            | EntryPoint::DestroyObject
            | EntryPoint::GetObjectTypeId
            | EntryPoint::SetFieldValue
            | EntryPoint::GetFieldValue
            | EntryPoint::SetPropertyValue
            | EntryPoint::GetPropertyValue => ManagedClass::ManagedObject,
            _ => ManagedClass::TypeInterface,
        }
    }

    /// The managed class that exports the entry point.
    pub fn class(self) -> (class: ManagedClass)
        ensures
            class == self.spec_class(),
    {
        match self {
            EntryPoint::CreateAssemblyLoadContext
            | EntryPoint::LoadAssembly
            | EntryPoint::LoadAssemblyFromMemory
            | EntryPoint::UnloadAssemblyLoadContext
            | EntryPoint::GetLastLoadStatus
            | EntryPoint::GetAssemblyName => ManagedClass::AssemblyLoader,
            EntryPoint::SetInternalCalls => ManagedClass::InternalCallsManager,
            EntryPoint::InvokeMethod
            | EntryPoint::InvokeMethodRet
            | EntryPoint::InvokeStaticMethod
            | EntryPoint::InvokeStaticMethodRet
            | EntryPoint::CreateObject
            | EntryPoint::DestroyObject
            | EntryPoint::GetObjectTypeId
            | EntryPoint::SetFieldValue
            | EntryPoint::GetFieldValue
            | EntryPoint::SetPropertyValue
            | EntryPoint::GetPropertyValue => ManagedClass::ManagedObject,
            _ => ManagedClass::TypeInterface,
        }
    }

    /// The assembly-qualified name of the class under which the entry point
    /// is looked up.
    pub fn class_name(self) -> (name: &'static str)
        ensures
            name@ == self.spec_class().spec_qualified_name(),
    {
        self.class().qualified_name()
    }

    /// The name of the managed method behind the entry point.
    pub open spec fn spec_method_name(self) -> Seq<char> {
        match self {
            EntryPoint::CreateAssemblyLoadContext => "CreateAssemblyLoadContext"@,
            EntryPoint::SetInternalCalls => "SetInternalCalls"@,
            EntryPoint::LoadAssembly => "LoadAssembly"@,
            EntryPoint::LoadAssemblyFromMemory => "LoadAssemblyFromMemory"@,
            EntryPoint::UnloadAssemblyLoadContext => "UnloadAssemblyLoadContext"@,
            EntryPoint::GetLastLoadStatus => "GetLastLoadStatus"@,
            EntryPoint::GetAssemblyName => "GetAssemblyName"@,
            EntryPoint::GetAssemblyTypes => "GetAssemblyTypes"@,
            EntryPoint::GetTypeId => "GetTypeId"@,
            EntryPoint::GetFullTypeName => "GetFullTypeName"@,
            EntryPoint::GetAssemblyQualifiedName => "GetAssemblyQualifiedName"@,
            EntryPoint::GetBaseType => "GetBaseType"@,
            EntryPoint::GetTypeSize => "GetTypeSize"@,
            EntryPoint::IsTypeSubclassOf => "IsTypeSubclassOf"@,
            EntryPoint::IsTypeAssignableTo => "IsTypeAssignableTo"@,
            EntryPoint::IsTypeAssignableFrom => "IsTypeAssignableFrom"@,
            EntryPoint::IsTypeSZArray => "IsTypeSZArray"@,
            EntryPoint::GetElementType => "GetElementType"@,
            EntryPoint::GetTypeMethods => "GetTypeMethods"@,
            EntryPoint::GetTypeFields => "GetTypeFields"@,
            EntryPoint::GetTypeProperties => "GetTypeProperties"@,
            EntryPoint::HasTypeAttribute => "HasTypeAttribute"@,
            EntryPoint::GetTypeAttributes => "GetTypeAttributes"@,
            EntryPoint::GetTypeManagedType => "GetTypeManagedType"@,
            EntryPoint::InvokeMethod => "InvokeMethod"@,
            EntryPoint::InvokeMethodRet => "InvokeMethodRet"@,
            EntryPoint::InvokeStaticMethod => "InvokeStaticMethod"@,
            EntryPoint::InvokeStaticMethodRet => "InvokeStaticMethodRet"@,
            EntryPoint::GetMethodInfoName => "GetMethodInfoName"@,
            EntryPoint::GetMethodInfoReturnType => "GetMethodInfoReturnType"@,
            EntryPoint::GetMethodInfoParameterTypes => "GetMethodInfoParameterTypes"@,
            EntryPoint::GetMethodInfoAccessibility => "GetMethodInfoAccessibility"@,
            EntryPoint::GetMethodInfoAttributes => "GetMethodInfoAttributes"@,
            EntryPoint::GetFieldInfoName => "GetFieldInfoName"@,
            EntryPoint::GetFieldInfoType => "GetFieldInfoType"@,
            EntryPoint::GetFieldInfoAccessibility => "GetFieldInfoAccessibility"@,
            EntryPoint::GetFieldInfoAttributes => "GetFieldInfoAttributes"@,
            EntryPoint::GetPropertyInfoName => "GetPropertyInfoName"@,
            EntryPoint::GetPropertyInfoType => "GetPropertyInfoType"@,
            EntryPoint::GetPropertyInfoAttributes => "GetPropertyInfoAttributes"@,
            EntryPoint::GetAttributeFieldValue => "GetAttributeFieldValue"@,
            EntryPoint::GetAttributeType => "GetAttributeType"@,
            EntryPoint::CreateObject => "CreateObject"@,
            EntryPoint::DestroyObject => "DestroyObject"@,
            EntryPoint::GetObjectTypeId => "GetObjectTypeId"@,
            EntryPoint::SetFieldValue => "SetFieldValue"@,
            EntryPoint::GetFieldValue => "GetFieldValue"@,
            EntryPoint::SetPropertyValue => "SetPropertyValue"@,
            EntryPoint::GetPropertyValue => "GetPropertyValue"@,
        }
    }

    /// The name of the managed method behind the entry point.
    pub fn method_name(self) -> (name: &'static str)
        ensures
            name@ == self.spec_method_name(),
    {
        match self {
            EntryPoint::CreateAssemblyLoadContext => "CreateAssemblyLoadContext",
            EntryPoint::SetInternalCalls => "SetInternalCalls",
            EntryPoint::LoadAssembly => "LoadAssembly",
            EntryPoint::LoadAssemblyFromMemory => "LoadAssemblyFromMemory",
            EntryPoint::UnloadAssemblyLoadContext => "UnloadAssemblyLoadContext",
            EntryPoint::GetLastLoadStatus => "GetLastLoadStatus",
            EntryPoint::GetAssemblyName => "GetAssemblyName",
            EntryPoint::GetAssemblyTypes => "GetAssemblyTypes",
            EntryPoint::GetTypeId => "GetTypeId",
            EntryPoint::GetFullTypeName => "GetFullTypeName",
            EntryPoint::GetAssemblyQualifiedName => "GetAssemblyQualifiedName",
            EntryPoint::GetBaseType => "GetBaseType",
            EntryPoint::GetTypeSize => "GetTypeSize",
            EntryPoint::IsTypeSubclassOf => "IsTypeSubclassOf",
            EntryPoint::IsTypeAssignableTo => "IsTypeAssignableTo",
            EntryPoint::IsTypeAssignableFrom => "IsTypeAssignableFrom",
            EntryPoint::IsTypeSZArray => "IsTypeSZArray",
            EntryPoint::GetElementType => "GetElementType",
            EntryPoint::GetTypeMethods => "GetTypeMethods",
            EntryPoint::GetTypeFields => "GetTypeFields",
            EntryPoint::GetTypeProperties => "GetTypeProperties",
            EntryPoint::HasTypeAttribute => "HasTypeAttribute",
            EntryPoint::GetTypeAttributes => "GetTypeAttributes",
            EntryPoint::GetTypeManagedType => "GetTypeManagedType",
            EntryPoint::InvokeMethod => "InvokeMethod",
            EntryPoint::InvokeMethodRet => "InvokeMethodRet",
            EntryPoint::InvokeStaticMethod => "InvokeStaticMethod",
            EntryPoint::InvokeStaticMethodRet => "InvokeStaticMethodRet",
            EntryPoint::GetMethodInfoName => "GetMethodInfoName",
            EntryPoint::GetMethodInfoReturnType => "GetMethodInfoReturnType",
            EntryPoint::GetMethodInfoParameterTypes => "GetMethodInfoParameterTypes",
            EntryPoint::GetMethodInfoAccessibility => "GetMethodInfoAccessibility",
            EntryPoint::GetMethodInfoAttributes => "GetMethodInfoAttributes",
            EntryPoint::GetFieldInfoName => "GetFieldInfoName",
            EntryPoint::GetFieldInfoType => "GetFieldInfoType",
            EntryPoint::GetFieldInfoAccessibility => "GetFieldInfoAccessibility",
            EntryPoint::GetFieldInfoAttributes => "GetFieldInfoAttributes",
            EntryPoint::GetPropertyInfoName => "GetPropertyInfoName",
            EntryPoint::GetPropertyInfoType => "GetPropertyInfoType",
            EntryPoint::GetPropertyInfoAttributes => "GetPropertyInfoAttributes",
            EntryPoint::GetAttributeFieldValue => "GetAttributeFieldValue",
            EntryPoint::GetAttributeType => "GetAttributeType",
            EntryPoint::CreateObject => "CreateObject",
            EntryPoint::DestroyObject => "DestroyObject",
            EntryPoint::GetObjectTypeId => "GetObjectTypeId",
            EntryPoint::SetFieldValue => "SetFieldValue",
            EntryPoint::GetFieldValue => "GetFieldValue",
            EntryPoint::SetPropertyValue => "SetPropertyValue",
            EntryPoint::GetPropertyValue => "GetPropertyValue",
        }
    }
}

/// The function table: the address of every entry point, in the order of
/// resolution. A table exists only whole, and it never changes.
pub struct CoralManagedFunctions {
    addresses: Vec<usize>,
}

/// Whether `addresses` make a whole table: one for each entry point, none of
/// them null.
pub open spec fn is_whole_table(addresses: Seq<usize>) -> bool {
    &&& addresses.len() == ENTRY_POINT_COUNT
    &&& forall|i: int| 0 <= i < addresses.len() ==> addresses[i] != 0
}

impl CoralManagedFunctions {
    /// The addresses in the table, in the order of resolution.
    pub closed spec fn addresses(&self) -> Seq<usize> {
        self.addresses@
    }

    /// The table holds an address for each entry point, and none is null.
    #[verifier::type_invariant]
    closed spec fn whole(&self) -> bool {
        is_whole_table(self.addresses@)
    }

    /// The table of these addresses, if they make a whole table.
    pub fn new(addresses: Vec<usize>) -> (table: Option<CoralManagedFunctions>)
        ensures
            table is Some <==> is_whole_table(addresses@),
            table matches Some(t) ==> t.addresses() == addresses@,
    {
        if addresses.len() != ENTRY_POINT_COUNT {
            return None;
        }
        let mut at: usize = 0;
        while at < addresses.len()
            invariant
                at <= addresses@.len(),
                forall|i: int| 0 <= i < at ==> addresses@[i] != 0,
            decreases addresses@.len() - at,
        {
            if addresses[at] == 0 {
                return None;
            }
            at += 1;
        }
        Some(CoralManagedFunctions { addresses })
    }

    /// The address of an entry point.
    pub fn address_of(&self, entry: EntryPoint) -> (address: usize)
        ensures
            address == self.addresses()[entry.spec_index()],
            address != 0,
    {
        proof {
            use_type_invariant(self);
        }
        self.addresses[entry.index()]
    }
}

} // verus!
