//! The type tags of the marshaling protocol, and the values that they
//! classify.
//!
//! An argument crosses the boundary as a slot of raw bytes and a tag that
//! tells the managed side how to read them. All numbers are laid out
//! little-endian, a boolean as a 32-bit number, and a floating-point number
//! as its IEEE 754 bits.

use crate::from_csharp::{bool32_of, bool32_truth, FromCSharp};
use crate::string::{before_nul, CSharpNativeString};
use crate::Bool32;
use vstd::bytes::*;
use vstd::prelude::*;
use vstd::string::*;

verus! {

/// The tag that classifies the native representation of a marshaled value.
#[derive(Debug, Clone, Copy, PartialEq, Eq, PartialOrd, Ord, Structural)]
pub enum ManagedType {
    Unknown,
    SByte,
    Byte,
    Short,
    UShort,
    Int,
    UInt,
    Long,
    ULong,
    Float,
    Double,
    Bool,
    String,
    Pointer,
}

/// A buffer of `len` zero bytes.
pub open spec fn zeros(len: nat) -> Seq<u8> {
    Seq::new(len, |i: int| 0u8)
}

/// How many bytes a pointer takes on this machine.
pub open spec fn pointer_size() -> nat {
    (usize::BITS / 8) as nat
}

impl ManagedType {
    /// The number that stands for the tag on the foreign boundary.
    pub open spec fn spec_raw(self) -> int {
        match self {
            ManagedType::Unknown => 0,
            ManagedType::SByte => 1,
            ManagedType::Byte => 2,
            ManagedType::Short => 3,
            ManagedType::UShort => 4,
            ManagedType::Int => 5,
            ManagedType::UInt => 6,
            ManagedType::Long => 7,
            ManagedType::ULong => 8,
            ManagedType::Float => 9,
            ManagedType::Double => 10,
            ManagedType::Bool => 11,
            ManagedType::String => 12,
            ManagedType::Pointer => 13,
        }
    }

    /// The number that stands for the tag on the foreign boundary.
    pub fn raw(self) -> (raw: i32)
        ensures
            raw == self.spec_raw(),
    {
        match self {
            ManagedType::Unknown => 0,
            ManagedType::SByte => 1,
            ManagedType::Byte => 2,
            ManagedType::Short => 3,
            ManagedType::UShort => 4,
            ManagedType::Int => 5,
            ManagedType::UInt => 6,
            ManagedType::Long => 7,
            ManagedType::ULong => 8,
            ManagedType::Float => 9,
            ManagedType::Double => 10,
            ManagedType::Bool => 11,
            ManagedType::String => 12,
            ManagedType::Pointer => 13,
        }
    }

    /// Reads a tag received from the managed side. A number outside the
    /// enumeration is no tag.
    pub fn from_raw(raw: i32) -> (tag: Option<ManagedType>)
        ensures
            tag is Some <==> 0 <= raw <= 13,
            tag matches Some(t) ==> t.spec_raw() == raw,
    {
        match raw {
            0 => Some(ManagedType::Unknown),
            1 => Some(ManagedType::SByte),
            2 => Some(ManagedType::Byte),
            3 => Some(ManagedType::Short),
            4 => Some(ManagedType::UShort),
            5 => Some(ManagedType::Int),
            6 => Some(ManagedType::UInt),
            7 => Some(ManagedType::Long),
            8 => Some(ManagedType::ULong),
            9 => Some(ManagedType::Float),
            10 => Some(ManagedType::Double),
            11 => Some(ManagedType::Bool),
            12 => Some(ManagedType::String),
            13 => Some(ManagedType::Pointer),
            _ => None,
        }
    }

    /// How many bytes the managed side writes for a returned value with this
    /// tag. A string comes back as a native string, not as bytes, and nothing
    /// is read back for `Unknown`.
    pub open spec fn spec_size(self) -> nat {
        match self {
            ManagedType::Unknown | ManagedType::String => 0,
            ManagedType::SByte | ManagedType::Byte => 1,
            ManagedType::Short | ManagedType::UShort => 2,
            ManagedType::Int | ManagedType::UInt | ManagedType::Float | ManagedType::Bool => 4,
            ManagedType::Long | ManagedType::ULong | ManagedType::Double => 8,
            ManagedType::Pointer => pointer_size(),
        }
    }

    /// How many bytes the managed side writes for a returned value with this
    /// tag.
    pub fn size(self) -> (size: usize)
        ensures
            size == self.spec_size(),
            size <= 8,
    {
        match self {
            ManagedType::Unknown | ManagedType::String => 0,
            ManagedType::SByte | ManagedType::Byte => 1,
            ManagedType::Short | ManagedType::UShort => 2,
            ManagedType::Int | ManagedType::UInt | ManagedType::Float | ManagedType::Bool => 4,
            ManagedType::Long | ManagedType::ULong | ManagedType::Double => 8,
            ManagedType::Pointer => if usize::BITS == 64 {
                8
            } else {
                4
            },
        }
    }

    /// A buffer of zeros that is large enough for a returned value with this
    /// tag. The managed side writes the value into it.
    pub fn zeroed(self) -> (buffer: Vec<u8>)
        ensures
            buffer@ == zeros(self.spec_size()),
    {
        zeroed_buffer(self.size())
    }
}

/// A buffer of `size` zeros, for a returned value of a type that the
/// protocol has no tag for: its size is all that is known of it.
pub fn zeroed_buffer(size: usize) -> (buffer: Vec<u8>)
    ensures
        buffer@ == zeros(size as nat),
{
    let mut buffer: Vec<u8> = Vec::new();
    while buffer.len() < size
        invariant
            buffer@.len() <= size,
            forall|i: int| 0 <= i < buffer@.len() ==> buffer@[i] == 0,
        decreases size - buffer@.len(),
    {
        buffer.push(0);
    }
    assert(buffer@ =~= zeros(size as nat));
    buffer
}

/// Types whose values have a tag of their own.
pub trait GetManagedType {
    /// The tag of the type.
    spec fn spec_managed_type() -> ManagedType;

    /// The tag of the type.
    fn get_managed_type() -> (tag: ManagedType)
        ensures
            tag == Self::spec_managed_type(),
    ;
}

impl GetManagedType for i8 {
    open spec fn spec_managed_type() -> ManagedType {
        ManagedType::SByte
    }

    fn get_managed_type() -> (tag: ManagedType) {
        ManagedType::SByte
    }
}

impl GetManagedType for u8 {
    open spec fn spec_managed_type() -> ManagedType {
        ManagedType::Byte
    }

    fn get_managed_type() -> (tag: ManagedType) {
        ManagedType::Byte
    }
}

impl GetManagedType for i16 {
    open spec fn spec_managed_type() -> ManagedType {
        ManagedType::Short
    }

    fn get_managed_type() -> (tag: ManagedType) {
        ManagedType::Short
    }
}

impl GetManagedType for u16 {
    open spec fn spec_managed_type() -> ManagedType {
        ManagedType::UShort
    }

    fn get_managed_type() -> (tag: ManagedType) {
        ManagedType::UShort
    }
}

impl GetManagedType for i32 {
    open spec fn spec_managed_type() -> ManagedType {
        ManagedType::Int
    }

    fn get_managed_type() -> (tag: ManagedType) {
        ManagedType::Int
    }
}

impl GetManagedType for u32 {
    open spec fn spec_managed_type() -> ManagedType {
        ManagedType::UInt
    }

    fn get_managed_type() -> (tag: ManagedType) {
        ManagedType::UInt
    }
}

impl GetManagedType for i64 {
    open spec fn spec_managed_type() -> ManagedType {
        ManagedType::Long
    }

    fn get_managed_type() -> (tag: ManagedType) {
        ManagedType::Long
    }
}

impl GetManagedType for u64 {
    open spec fn spec_managed_type() -> ManagedType {
        ManagedType::ULong
    }

    fn get_managed_type() -> (tag: ManagedType) {
        ManagedType::ULong
    }
}

impl GetManagedType for bool {
    open spec fn spec_managed_type() -> ManagedType {
        ManagedType::Bool
    }

    fn get_managed_type() -> (tag: ManagedType) {
        ManagedType::Bool
    }
}

impl GetManagedType for String {
    open spec fn spec_managed_type() -> ManagedType {
        ManagedType::String
    }

    fn get_managed_type() -> (tag: ManagedType) {
        ManagedType::String
    }
}

/// Whether `text` begins with `prefix`.
pub fn starts_with(text: &str, prefix: &str) -> (begins: bool)
    ensures
        begins == prefix@.is_prefix_of(text@),
{
    let text_len = text.unicode_len();
    let prefix_len = prefix.unicode_len();
    if prefix_len > text_len {
        return false;
    }
    let mut at: usize = 0;
    while at < prefix_len
        invariant
            prefix_len == prefix@.len(),
            text_len == text@.len(),
            prefix_len <= text_len,
            at <= prefix_len,
            forall|j: int| 0 <= j < at ==> prefix@[j] == text@[j],
        decreases prefix_len - at,
    {
        if prefix.get_char(at) != text.get_char(at) {
            proof {
                if prefix@.is_prefix_of(text@) {
                    assert(text@.subrange(0, prefix@.len() as int)[at as int] == prefix@[at as int]);
                }
            }
            return false;
        }
        at += 1;
    }
    assert(text@.subrange(0, prefix@.len() as int) =~= prefix@);
    true
}

/// Whether a type with this name is a raw pointer: the name of such a type
/// begins with `*mut` or with `*const`.
pub fn is_type_a_ptr(name: &str) -> (pointer: bool)
    ensures
        pointer == ("*mut"@.is_prefix_of(name@) || "*const"@.is_prefix_of(name@)),
{
    if starts_with(name, "*mut") || starts_with(name, "*const") {
        true
    } else {
        false
    }
}

/// A native value together with what classifies it. The two floating-point
/// kinds hold the IEEE 754 bits of the number.
#[derive(Debug)]
pub enum NativeValue {
    SByte(i8),
    Byte(u8),
    Short(i16),
    UShort(u16),
    Int(i32),
    UInt(u32),
    Long(i64),
    ULong(u64),
    Float(u32),
    Double(u64),
    Bool(bool),
    String(String),
    Pointer(usize),
    /// A value of a type that the protocol has no tag for, as the bytes of
    /// its native representation.
    Unknown(Vec<u8>),
}

/// What a native value is, as plain data.
pub ghost enum NativeModel {
    SByte(i8),
    Byte(u8),
    Short(i16),
    UShort(u16),
    Int(i32),
    UInt(u32),
    Long(i64),
    ULong(u64),
    Float(u32),
    Double(u64),
    Bool(bool),
    String(Seq<char>),
    Pointer(usize),
    Unknown(Seq<u8>),
}

impl View for NativeValue {
    type V = NativeModel;

    open spec fn view(&self) -> NativeModel {
        match self {
            NativeValue::SByte(x) => NativeModel::SByte(*x),
            NativeValue::Byte(x) => NativeModel::Byte(*x),
            NativeValue::Short(x) => NativeModel::Short(*x),
            NativeValue::UShort(x) => NativeModel::UShort(*x),
            NativeValue::Int(x) => NativeModel::Int(*x),
            NativeValue::UInt(x) => NativeModel::UInt(*x),
            NativeValue::Long(x) => NativeModel::Long(*x),
            NativeValue::ULong(x) => NativeModel::ULong(*x),
            NativeValue::Float(bits) => NativeModel::Float(*bits),
            NativeValue::Double(bits) => NativeModel::Double(*bits),
            NativeValue::Bool(flag) => NativeModel::Bool(*flag),
            NativeValue::String(text) => NativeModel::String(text@),
            NativeValue::Pointer(address) => NativeModel::Pointer(*address),
            NativeValue::Unknown(bytes) => NativeModel::Unknown(bytes@),
        }
    }
}

/// The bytes of a pointer-sized number.
pub open spec fn spec_pointer_bytes(address: usize) -> Seq<u8> {
    if usize::BITS == 64 {
        spec_u64_to_le_bytes(address as u64)
    } else {
        spec_u32_to_le_bytes(address as u32)
    }
}

impl NativeModel {
    /// The tag of the value.
    pub open spec fn managed_type(self) -> ManagedType {
        match self {
            NativeModel::SByte(_) => ManagedType::SByte,
            NativeModel::Byte(_) => ManagedType::Byte,
            NativeModel::Short(_) => ManagedType::Short,
            NativeModel::UShort(_) => ManagedType::UShort,
            NativeModel::Int(_) => ManagedType::Int,
            NativeModel::UInt(_) => ManagedType::UInt,
            NativeModel::Long(_) => ManagedType::Long,
            NativeModel::ULong(_) => ManagedType::ULong,
            NativeModel::Float(_) => ManagedType::Float,
            NativeModel::Double(_) => ManagedType::Double,
            NativeModel::Bool(_) => ManagedType::Bool,
            NativeModel::String(_) => ManagedType::String,
            NativeModel::Pointer(_) => ManagedType::Pointer,
            NativeModel::Unknown(_) => ManagedType::Unknown,
        }
    }

    /// The bytes of the native representation of the value. A string has
    /// none: it crosses as a native string.
    pub open spec fn bytes(self) -> Option<Seq<u8>> {
        match self {
            NativeModel::SByte(x) => Some(seq![x as u8]),
            NativeModel::Byte(x) => Some(seq![x]),
            NativeModel::Short(x) => Some(spec_u16_to_le_bytes(x as u16)),
            NativeModel::UShort(x) => Some(spec_u16_to_le_bytes(x)),
            NativeModel::Int(x) => Some(spec_u32_to_le_bytes(x as u32)),
            NativeModel::UInt(x) => Some(spec_u32_to_le_bytes(x)),
            NativeModel::Long(x) => Some(spec_u64_to_le_bytes(x as u64)),
            NativeModel::ULong(x) => Some(spec_u64_to_le_bytes(x)),
            NativeModel::Float(bits) => Some(spec_u32_to_le_bytes(bits)),
            NativeModel::Double(bits) => Some(spec_u64_to_le_bytes(bits)),
            NativeModel::Bool(flag) => Some(spec_u32_to_le_bytes(bool32_of(flag).0)),
            NativeModel::String(_) => None,
            NativeModel::Pointer(address) => Some(spec_pointer_bytes(address)),
            NativeModel::Unknown(bytes) => Some(bytes),
        }
    }

    /// The value that a returned buffer holds, read as the tag says. The
    /// buffer must have the size that goes with the tag; a string is never
    /// read from bytes, and nothing is read back for `Unknown`.
    pub open spec fn from_bytes(tag: ManagedType, bytes: Seq<u8>) -> Option<NativeModel> {
        if tag == ManagedType::String || bytes.len() != tag.spec_size() {
            None
        } else {
            Some(
                match tag {
                    ManagedType::SByte => NativeModel::SByte(bytes[0] as i8),
                    ManagedType::Byte => NativeModel::Byte(bytes[0]),
                    ManagedType::Short => NativeModel::Short(spec_u16_from_le_bytes(bytes) as i16),
                    ManagedType::UShort => NativeModel::UShort(spec_u16_from_le_bytes(bytes)),
                    ManagedType::Int => NativeModel::Int(spec_u32_from_le_bytes(bytes) as i32),
                    ManagedType::UInt => NativeModel::UInt(spec_u32_from_le_bytes(bytes)),
                    ManagedType::Long => NativeModel::Long(spec_u64_from_le_bytes(bytes) as i64),
                    ManagedType::ULong => NativeModel::ULong(spec_u64_from_le_bytes(bytes)),
                    ManagedType::Float => NativeModel::Float(spec_u32_from_le_bytes(bytes)),
                    ManagedType::Double => NativeModel::Double(spec_u64_from_le_bytes(bytes)),
                    ManagedType::Bool => NativeModel::Bool(
                        bool32_truth(Bool32(spec_u32_from_le_bytes(bytes))),
                    ),
                    ManagedType::Pointer => NativeModel::Pointer(
                        if usize::BITS == 64 {
                            spec_u64_from_le_bytes(bytes) as usize
                        } else {
                            spec_u32_from_le_bytes(bytes) as usize
                        },
                    ),
                    _ => NativeModel::Unknown(Seq::empty()),
                },
            )
        }
    }
}

impl NativeValue {
    /// The tag of the value: that of the type of what it holds.
    pub fn managed_type(&self) -> (tag: ManagedType)
        ensures
            tag == self@.managed_type(),
    {
        match self {
            NativeValue::SByte(_) => i8::get_managed_type(),
            NativeValue::Byte(_) => u8::get_managed_type(),
            NativeValue::Short(_) => i16::get_managed_type(),
            NativeValue::UShort(_) => u16::get_managed_type(),
            NativeValue::Int(_) => i32::get_managed_type(),
            NativeValue::UInt(_) => u32::get_managed_type(),
            NativeValue::Long(_) => i64::get_managed_type(),
            NativeValue::ULong(_) => u64::get_managed_type(),
            NativeValue::Float(_) => ManagedType::Float,
            NativeValue::Double(_) => ManagedType::Double,
            NativeValue::Bool(_) => bool::get_managed_type(),
            NativeValue::String(_) => String::get_managed_type(),
            NativeValue::Pointer(_) => ManagedType::Pointer,
            NativeValue::Unknown(_) => ManagedType::Unknown,
        }
    }

    /// The bytes of the native representation of the value, or `None` for a
    /// string.
    pub fn to_bytes(&self) -> (bytes: Option<Vec<u8>>)
        ensures
            bytes is Some <==> self@.bytes() is Some,
            bytes matches Some(b) ==> Some(b@) == self@.bytes(),
    {
        match self {
            NativeValue::SByte(x) => {
                let mut bytes: Vec<u8> = Vec::new();
                bytes.push(*x as u8);
                assert(bytes@ =~= seq![*x as u8]);
                Some(bytes)
            },
            NativeValue::Byte(x) => {
                let mut bytes: Vec<u8> = Vec::new();
                bytes.push(*x);
                assert(bytes@ =~= seq![*x]);
                Some(bytes)
            },
            NativeValue::Short(x) => Some(u16_to_le_bytes(*x as u16)),
            NativeValue::UShort(x) => Some(u16_to_le_bytes(*x)),
            NativeValue::Int(x) => Some(u32_to_le_bytes(*x as u32)),
            NativeValue::UInt(x) => Some(u32_to_le_bytes(*x)),
            NativeValue::Long(x) => Some(u64_to_le_bytes(*x as u64)),
            NativeValue::ULong(x) => Some(u64_to_le_bytes(*x)),
            NativeValue::Float(bits) => Some(u32_to_le_bytes(*bits)),
            NativeValue::Double(bits) => Some(u64_to_le_bytes(*bits)),
            NativeValue::Bool(flag) => {
                let crossing: Bool32 = Bool32::from(*flag);
                Some(u32_to_le_bytes(crossing.0))
            },
            NativeValue::String(_) => None,
            NativeValue::Pointer(address) => {
                if usize::BITS == 64 {
                    Some(u64_to_le_bytes(*address as u64))
                } else {
                    Some(u32_to_le_bytes(*address as u32))
                }
            },
            NativeValue::Unknown(bytes) => Some(bytes.clone()),
        }
    }

    /// The slot that hands the value to the managed side: a native string
    /// for a string, the bytes of anything else.
    pub fn to_slot(&self) -> (slot: ArgumentSlot)
        ensures
            slot.holds(self@),
    {
        match self {
            NativeValue::String(text) => ArgumentSlot::Text(CSharpNativeString::new(text.as_str())),
            _ => {
                match self.to_bytes() {
                    Some(bytes) => ArgumentSlot::Bytes(bytes),
                    None => unreached(),
                }
            },
        }
    }

    /// Reads the value that the managed side wrote into a returned buffer, as
    /// the tag says. `None` if the buffer has not the size that goes with the
    /// tag, or if the tag is that of a string.
    pub fn from_bytes(tag: ManagedType, bytes: &Vec<u8>) -> (value: Option<NativeValue>)
        ensures
            value is Some <==> NativeModel::from_bytes(tag, bytes@) is Some,
            value matches Some(v) ==> Some(v@) == NativeModel::from_bytes(tag, bytes@),
    {
        if bytes.len() != tag.size() {
            return None;
        }
        let buffer = bytes.as_slice();
        match tag {
            ManagedType::String => None,
            ManagedType::Unknown => {
                let value = NativeValue::Unknown(Vec::new());
                assert(value@ == NativeModel::Unknown(Seq::empty()));
                Some(value)
            },
            ManagedType::SByte => Some(NativeValue::SByte(bytes[0] as i8)),
            ManagedType::Byte => Some(NativeValue::Byte(bytes[0])),
            ManagedType::Short => Some(NativeValue::Short(u16_from_le_bytes(buffer) as i16)),
            ManagedType::UShort => Some(NativeValue::UShort(u16_from_le_bytes(buffer))),
            ManagedType::Int => Some(NativeValue::Int(u32_from_le_bytes(buffer) as i32)),
            ManagedType::UInt => Some(NativeValue::UInt(u32_from_le_bytes(buffer))),
            ManagedType::Long => Some(NativeValue::Long(u64_from_le_bytes(buffer) as i64)),
            ManagedType::ULong => Some(NativeValue::ULong(u64_from_le_bytes(buffer))),
            ManagedType::Float => Some(NativeValue::Float(u32_from_le_bytes(buffer))),
            ManagedType::Double => Some(NativeValue::Double(u64_from_le_bytes(buffer))),
            ManagedType::Bool => Some(
                NativeValue::Bool(bool::from_csharp(Bool32(u32_from_le_bytes(buffer)))),
            ),
            ManagedType::Pointer => {
                if usize::BITS == 64 {
                    Some(NativeValue::Pointer(u64_from_le_bytes(buffer) as usize))
                } else {
                    Some(NativeValue::Pointer(u32_from_le_bytes(buffer) as usize))
                }
            },
        }
    }
}

/// A value that was written out as bytes is read back unchanged, under its
/// own tag. This holds of every value that has bytes, but for an untagged
/// value, of which nothing is read back.
pub proof fn lemma_bytes_round_trip(value: NativeModel)
    requires
        !(value is String),
        !(value is Unknown),
    ensures
        value.bytes() is Some,
        value.bytes()->0.len() == value.managed_type().spec_size(),
        NativeModel::from_bytes(value.managed_type(), value.bytes()->0) == Some(value),
{
    lemma_auto_spec_u16_to_from_le_bytes();
    lemma_auto_spec_u32_to_from_le_bytes();
    lemma_auto_spec_u64_to_from_le_bytes();
    match value {
        NativeModel::SByte(x) => {
            assert((x as u8) as i8 == x) by (bit_vector);
        },
        NativeModel::Short(x) => {
            assert((x as u16) as i16 == x) by (bit_vector);
        },
        NativeModel::Int(x) => {
            assert((x as u32) as i32 == x) by (bit_vector);
        },
        NativeModel::Long(x) => {
            assert((x as u64) as i64 == x) by (bit_vector);
        },
        NativeModel::Pointer(address) => {
            if usize::BITS == 64 {
                assert((address as u64) as usize == address);
            } else {
                assert((address as u32) as usize == address);
            }
        },
        _ => {},
    }
}

/// What a sequence of native values is, as plain data.
pub open spec fn models(values: Seq<NativeValue>) -> Seq<NativeModel> {
    values.map_values(|value: NativeValue| value@)
}

/// One argument as it is handed to the managed side.
pub enum ArgumentSlot {
    /// The bytes of the native representation of the argument.
    Bytes(Vec<u8>),
    /// A native string that holds the text of a string argument.
    Text(CSharpNativeString),
}

impl ArgumentSlot {
    /// Whether the slot holds what stands for `value` on the boundary.
    pub open spec fn holds(&self, value: NativeModel) -> bool {
        match value {
            NativeModel::String(text) => *self matches ArgumentSlot::Text(string) && string@
                == Some(before_nul(text)),
            _ => *self matches ArgumentSlot::Bytes(bytes) && Some(bytes@) == value.bytes(),
        }
    }
}

/// The arguments of one call: a slot for each, and beside it the tags that
/// classify them, one for one.
pub struct MarshaledArguments {
    pub slots: Vec<ArgumentSlot>,
    pub tags: Vec<ManagedType>,
}

impl MarshaledArguments {
    /// Whether these are the arguments `values` as they cross the boundary:
    /// as many slots and tags as there are values, each slot holding its
    /// value, each tag that of its value.
    pub open spec fn carries(&self, values: Seq<NativeModel>) -> bool {
        &&& self.slots@.len() == values.len()
        &&& self.tags@.len() == values.len()
        &&& forall|i: int|
            0 <= i < values.len() ==> (#[trigger] self.slots@[i]).holds(values[i])
        &&& forall|i: int|
            0 <= i < values.len() ==> #[trigger] self.tags@[i] == values[i].managed_type()
    }

    /// Packs the arguments of a call. A call without arguments has no slots
    /// and no tags: it passes null and a length of zero.
    pub fn pack(values: &Vec<NativeValue>) -> (packed: MarshaledArguments)
        ensures
            packed.carries(models(values@)),
    {
        let mut slots: Vec<ArgumentSlot> = Vec::new();
        let mut tags: Vec<ManagedType> = Vec::new();
        let mut at: usize = 0;
        while at < values.len()
            invariant
                at <= values@.len(),
                slots@.len() == at,
                tags@.len() == at,
                forall|i: int| 0 <= i < at ==> (#[trigger] slots@[i]).holds(values@[i]@),
                forall|i: int| 0 <= i < at ==> #[trigger] tags@[i] == values@[i]@.managed_type(),
            decreases values@.len() - at,
        {
            let value = &values[at];
            slots.push(value.to_slot());
            tags.push(value.managed_type());
            at += 1;
        }
        MarshaledArguments { slots, tags }
    }

    /// How many arguments there are.
    pub fn len(&self) -> (count: usize)
        ensures
            count == self.slots@.len(),
    {
        self.slots.len()
    }

    /// Whether the call passes null for both arrays.
    pub fn is_empty(&self) -> (empty: bool)
        ensures
            empty == (self.slots@.len() == 0),
    {
        self.slots.len() == 0
    }
}

} // verus!
