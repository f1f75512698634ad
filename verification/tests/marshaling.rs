use sharpen::coral_managed_fns::EntryPoint;
use sharpen::managed_call::{Enumeration, ManagedCall, ManagedReply, ProtocolError, Step};
use sharpen::managed_type::{
    is_type_a_ptr, starts_with, ArgumentSlot, GetManagedType, ManagedType, MarshaledArguments,
    NativeValue,
};
use sharpen::string::CSharpNativeString;
use sharpen::Bool32;

fn bytes_of(value: &NativeValue) -> Vec<u8> {
    value.to_bytes().unwrap()
}

fn slot_bytes(slot: &ArgumentSlot) -> Vec<u8> {
    match slot {
        ArgumentSlot::Bytes(bytes) => bytes.clone(),
        ArgumentSlot::Text(_) => panic!("a slot of bytes was expected"),
    }
}

#[test]
fn tags_cross_the_boundary_as_numbers() {
    let tags = [
        ManagedType::Unknown,
        ManagedType::SByte,
        ManagedType::Byte,
        ManagedType::Short,
        ManagedType::UShort,
        ManagedType::Int,
        ManagedType::UInt,
        ManagedType::Long,
        ManagedType::ULong,
        ManagedType::Float,
        ManagedType::Double,
        ManagedType::Bool,
        ManagedType::String,
        ManagedType::Pointer,
    ];
    for (number, tag) in tags.iter().enumerate() {
        assert_eq!(tag.raw(), number as i32);
        assert_eq!(ManagedType::from_raw(number as i32), Some(*tag));
    }
    assert_eq!(ManagedType::from_raw(14), None);
    assert_eq!(ManagedType::from_raw(-1), None);
}

#[test]
fn every_native_type_has_its_tag() {
    assert_eq!(<i8 as GetManagedType>::get_managed_type(), ManagedType::SByte);
    assert_eq!(<u8 as GetManagedType>::get_managed_type(), ManagedType::Byte);
    assert_eq!(<i16 as GetManagedType>::get_managed_type(), ManagedType::Short);
    assert_eq!(<u16 as GetManagedType>::get_managed_type(), ManagedType::UShort);
    assert_eq!(<i32 as GetManagedType>::get_managed_type(), ManagedType::Int);
    assert_eq!(<u32 as GetManagedType>::get_managed_type(), ManagedType::UInt);
    assert_eq!(<i64 as GetManagedType>::get_managed_type(), ManagedType::Long);
    assert_eq!(<u64 as GetManagedType>::get_managed_type(), ManagedType::ULong);
    assert_eq!(<bool as GetManagedType>::get_managed_type(), ManagedType::Bool);
    assert_eq!(<String as GetManagedType>::get_managed_type(), ManagedType::String);
}

#[test]
fn a_value_carries_the_tag_of_what_it_holds() {
    assert_eq!(NativeValue::SByte(-1).managed_type(), ManagedType::SByte);
    assert_eq!(NativeValue::Byte(1).managed_type(), ManagedType::Byte);
    assert_eq!(NativeValue::Short(-1).managed_type(), ManagedType::Short);
    assert_eq!(NativeValue::UShort(1).managed_type(), ManagedType::UShort);
    assert_eq!(NativeValue::Int(50).managed_type(), ManagedType::Int);
    assert_eq!(NativeValue::UInt(50).managed_type(), ManagedType::UInt);
    assert_eq!(NativeValue::Long(50).managed_type(), ManagedType::Long);
    assert_eq!(NativeValue::ULong(50).managed_type(), ManagedType::ULong);
    assert_eq!(NativeValue::Float(50.0f32.to_bits()).managed_type(), ManagedType::Float);
    assert_eq!(NativeValue::Double(50.0f64.to_bits()).managed_type(), ManagedType::Double);
    assert_eq!(NativeValue::Bool(true).managed_type(), ManagedType::Bool);
    assert_eq!(NativeValue::String("x".to_string()).managed_type(), ManagedType::String);
    assert_eq!(NativeValue::Pointer(16).managed_type(), ManagedType::Pointer);
    assert_eq!(NativeValue::Unknown(vec![1, 2, 3]).managed_type(), ManagedType::Unknown);
}

#[test]
fn pointer_types_are_known_by_their_names() {
    assert!(is_type_a_ptr("*mut core::ffi::c_void"));
    assert!(is_type_a_ptr("*const u8"));
    assert!(is_type_a_ptr("*mut"));
    assert!(!is_type_a_ptr("i32"));
    assert!(!is_type_a_ptr("&mut i32"));
    assert!(!is_type_a_ptr("*mu"));
    assert!(!is_type_a_ptr(""));
    assert!(!is_type_a_ptr("alloc::boxed::Box<*mut u8>"));
    assert!(starts_with("abc", ""));
    assert!(starts_with("abc", "abc"));
    assert!(!starts_with("ab", "abc"));
    assert!(!starts_with("xbc", "abc"));
}

#[test]
fn numbers_are_laid_out_little_endian() {
    assert_eq!(bytes_of(&NativeValue::Int(50)), vec![50, 0, 0, 0]);
    assert_eq!(bytes_of(&NativeValue::Int(-2)), vec![0xfe, 0xff, 0xff, 0xff]);
    assert_eq!(bytes_of(&NativeValue::UInt(0x01020304)), vec![4, 3, 2, 1]);
    assert_eq!(bytes_of(&NativeValue::SByte(-1)), vec![0xff]);
    assert_eq!(bytes_of(&NativeValue::Byte(200)), vec![200]);
    assert_eq!(bytes_of(&NativeValue::Short(-2)), vec![0xfe, 0xff]);
    assert_eq!(bytes_of(&NativeValue::UShort(0x0102)), vec![2, 1]);
    assert_eq!(
        bytes_of(&NativeValue::Long(-2)),
        vec![0xfe, 0xff, 0xff, 0xff, 0xff, 0xff, 0xff, 0xff]
    );
    assert_eq!(
        bytes_of(&NativeValue::ULong(0x0102030405060708)),
        vec![8, 7, 6, 5, 4, 3, 2, 1]
    );
    assert_eq!(
        bytes_of(&NativeValue::Float(50.0f32.to_bits())),
        50.0f32.to_le_bytes().to_vec()
    );
    assert_eq!(
        bytes_of(&NativeValue::Double((-0.5f64).to_bits())),
        (-0.5f64).to_le_bytes().to_vec()
    );
    assert_eq!(bytes_of(&NativeValue::Bool(true)), vec![1, 0, 0, 0]);
    assert_eq!(bytes_of(&NativeValue::Bool(false)), vec![0, 0, 0, 0]);
    assert_eq!(
        bytes_of(&NativeValue::Pointer(0x1000)),
        0x1000usize.to_le_bytes().to_vec()
    );
    assert_eq!(bytes_of(&NativeValue::Unknown(vec![9, 8, 7])), vec![9, 8, 7]);
    assert!(NativeValue::String("text".to_string()).to_bytes().is_none());
}

#[test]
fn a_value_is_read_back_as_it_was_written() {
    let values = vec![
        NativeValue::SByte(i8::MIN),
        NativeValue::Byte(u8::MAX),
        NativeValue::Short(i16::MIN),
        NativeValue::UShort(u16::MAX),
        NativeValue::Int(i32::MIN),
        NativeValue::Int(50),
        NativeValue::UInt(u32::MAX),
        NativeValue::Long(i64::MIN),
        NativeValue::ULong(u64::MAX),
        NativeValue::Float(40.0f32.to_bits()),
        NativeValue::Double(1.5f64.to_bits()),
        NativeValue::Bool(true),
        NativeValue::Bool(false),
        NativeValue::Pointer(usize::MAX),
    ];
    for value in values {
        let bytes = bytes_of(&value);
        assert_eq!(bytes.len(), value.managed_type().size());
        let read = NativeValue::from_bytes(value.managed_type(), &bytes).unwrap();
        assert_eq!(format!("{:?}", read), format!("{:?}", value));
    }
}

#[test]
fn a_buffer_of_the_wrong_size_is_not_read() {
    assert!(NativeValue::from_bytes(ManagedType::Int, &vec![1, 2, 3]).is_none());
    assert!(NativeValue::from_bytes(ManagedType::Int, &vec![1, 2, 3, 4, 5]).is_none());
    assert!(NativeValue::from_bytes(ManagedType::Byte, &vec![]).is_none());
    assert!(NativeValue::from_bytes(ManagedType::String, &vec![]).is_none());
    assert!(NativeValue::from_bytes(ManagedType::Unknown, &vec![1]).is_none());
    match NativeValue::from_bytes(ManagedType::Unknown, &vec![]) {
        Some(NativeValue::Unknown(bytes)) => assert!(bytes.is_empty()),
        _ => panic!("nothing is read back for an untagged value"),
    }
}

#[test]
fn a_returned_boolean_is_true_above_zero() {
    match NativeValue::from_bytes(ManagedType::Bool, &vec![0, 0, 1, 0]) {
        Some(NativeValue::Bool(flag)) => assert!(flag),
        _ => panic!("a boolean was expected"),
    }
    match NativeValue::from_bytes(ManagedType::Bool, &vec![0, 0, 0, 0]) {
        Some(NativeValue::Bool(flag)) => assert!(!flag),
        _ => panic!("a boolean was expected"),
    }
}

#[test]
fn result_buffers_are_zeroed_and_sized_by_the_tag() {
    assert_eq!(ManagedType::Unknown.size(), 0);
    assert_eq!(ManagedType::SByte.size(), 1);
    assert_eq!(ManagedType::Byte.size(), 1);
    assert_eq!(ManagedType::Short.size(), 2);
    assert_eq!(ManagedType::UShort.size(), 2);
    assert_eq!(ManagedType::Int.size(), 4);
    assert_eq!(ManagedType::UInt.size(), 4);
    assert_eq!(ManagedType::Float.size(), 4);
    assert_eq!(ManagedType::Bool.size(), 4);
    assert_eq!(ManagedType::Long.size(), 8);
    assert_eq!(ManagedType::ULong.size(), 8);
    assert_eq!(ManagedType::Double.size(), 8);
    assert_eq!(ManagedType::String.size(), 0);
    assert_eq!(ManagedType::Pointer.size(), std::mem::size_of::<usize>());
    assert_eq!(ManagedType::Int.zeroed(), vec![0, 0, 0, 0]);
    assert_eq!(ManagedType::Double.zeroed(), vec![0; 8]);
    assert_eq!(ManagedType::Unknown.zeroed(), Vec::<u8>::new());
}

#[test]
fn arguments_are_packed_with_their_tags_one_for_one() {
    let args = vec![
        NativeValue::Int(50),
        NativeValue::Float(50.0f32.to_bits()),
        NativeValue::String("name\0rest".to_string()),
        NativeValue::Bool(true),
        NativeValue::Unknown(vec![0, 0, 32, 65, 0, 0, 32, 65, 0, 0, 32, 65]),
    ];
    let packed = MarshaledArguments::pack(&args);
    assert_eq!(packed.len(), 5);
    assert!(!packed.is_empty());
    assert_eq!(
        packed.tags,
        vec![
            ManagedType::Int,
            ManagedType::Float,
            ManagedType::String,
            ManagedType::Bool,
            ManagedType::Unknown
        ]
    );
    assert_eq!(slot_bytes(&packed.slots[0]), vec![50, 0, 0, 0]);
    assert_eq!(slot_bytes(&packed.slots[1]), 50.0f32.to_le_bytes().to_vec());
    match &packed.slots[2] {
        ArgumentSlot::Text(text) => assert_eq!(text.to_string(), "name"),
        ArgumentSlot::Bytes(_) => panic!("a string crosses as a native string"),
    }
    assert_eq!(slot_bytes(&packed.slots[3]), vec![1, 0, 0, 0]);
    assert_eq!(slot_bytes(&packed.slots[4]).len(), 12);
}

#[test]
fn a_call_without_arguments_passes_nothing() {
    let packed = MarshaledArguments::pack(&Vec::new());
    assert!(packed.is_empty());
    assert_eq!(packed.len(), 0);
    assert!(packed.slots.is_empty());
    assert!(packed.tags.is_empty());
}

#[test]
fn replies_are_read_by_their_kind() {
    assert_eq!(ManagedReply::Unit.into_unit(), Ok(()));
    assert_eq!(ManagedReply::Int(1).into_unit(), Err(ProtocolError::UnexpectedReply));
    assert_eq!(ManagedReply::Int(-7).into_int(), Ok(-7));
    assert_eq!(ManagedReply::Unit.into_int(), Err(ProtocolError::UnexpectedReply));
    assert_eq!(ManagedReply::Flag(Bool32(3)).into_flag(), Ok(true));
    assert_eq!(ManagedReply::Flag(Bool32(0)).into_flag(), Ok(false));
    assert_eq!(ManagedReply::Int(1).into_flag(), Err(ProtocolError::UnexpectedReply));
    assert_eq!(
        ManagedReply::Text(CSharpNativeString::new("Name")).into_text(),
        Ok("Name".to_string())
    );
    assert_eq!(
        ManagedReply::Text(CSharpNativeString::null()).into_text(),
        Ok(String::new())
    );
    assert_eq!(ManagedReply::Unit.into_text(), Err(ProtocolError::UnexpectedReply));
    assert_eq!(ManagedReply::Object(4096).into_object(), Ok(4096));
    assert_eq!(ManagedReply::Int(4096).into_object(), Err(ProtocolError::UnexpectedReply));
}

#[test]
fn returned_values_are_read_as_the_kind_that_was_asked_for() {
    match ManagedReply::Bytes(vec![40, 0, 0, 0]).into_value(ManagedType::Int) {
        Ok(NativeValue::Int(value)) => assert_eq!(value, 40),
        _ => panic!("an integer was expected"),
    }
    match ManagedReply::Bytes(40.0f32.to_le_bytes().to_vec()).into_value(ManagedType::Float) {
        Ok(NativeValue::Float(bits)) => assert_eq!(f32::from_bits(bits), 40.0),
        _ => panic!("a float was expected"),
    }
    match ManagedReply::Text(CSharpNativeString::new("text")).into_value(ManagedType::String) {
        Ok(NativeValue::String(text)) => assert_eq!(text, "text"),
        _ => panic!("a string was expected"),
    }
    assert!(matches!(
        ManagedReply::Bytes(vec![1, 2]).into_value(ManagedType::Int),
        Err(ProtocolError::SizeMismatch)
    ));
    assert!(matches!(
        ManagedReply::Bytes(vec![]).into_value(ManagedType::String),
        Err(ProtocolError::UnexpectedReply)
    ));
    assert!(matches!(
        ManagedReply::Text(CSharpNativeString::new("text")).into_value(ManagedType::Int),
        Err(ProtocolError::UnexpectedReply)
    ));
    assert!(matches!(
        ManagedReply::Unit.into_value(ManagedType::Int),
        Err(ProtocolError::UnexpectedReply)
    ));
}

#[test]
fn an_enumeration_takes_two_calls() {
    assert!(matches!(Enumeration::step(None), Enumeration::AskCount));
    match Enumeration::step(Some(ManagedReply::Int(3))) {
        Enumeration::AskItems { capacity } => assert_eq!(capacity, 3),
        _ => panic!("the second call was expected"),
    }
    match Enumeration::step(Some(ManagedReply::Int(0))) {
        Enumeration::AskItems { capacity } => assert_eq!(capacity, 0),
        _ => panic!("the second call was expected"),
    }
    match Enumeration::step(Some(ManagedReply::Items { items: vec![7, 8, 9], count: 3 })) {
        Enumeration::Done { items } => assert_eq!(items, vec![7, 8, 9]),
        _ => panic!("the entries were expected"),
    }
    match Enumeration::step(Some(ManagedReply::Items { items: vec![7, 8, 0], count: 2 })) {
        Enumeration::Done { items } => assert_eq!(items, vec![7, 8]),
        _ => panic!("the entries were expected"),
    }
}

#[test]
fn an_enumeration_refuses_counts_that_cannot_be() {
    assert!(matches!(
        Enumeration::step(Some(ManagedReply::Int(-1))),
        Enumeration::Failed(ProtocolError::NegativeCount)
    ));
    assert!(matches!(
        Enumeration::step(Some(ManagedReply::Items { items: vec![1], count: -1 })),
        Enumeration::Failed(ProtocolError::NegativeCount)
    ));
    assert!(matches!(
        Enumeration::step(Some(ManagedReply::Items { items: vec![1, 2], count: 3 })),
        Enumeration::Failed(ProtocolError::CountExceedsCapacity)
    ));
    assert!(matches!(
        Enumeration::step(Some(ManagedReply::Unit)),
        Enumeration::Failed(ProtocolError::UnexpectedReply)
    ));
}

#[test]
fn the_same_count_twice_gives_that_many_entries() {
    let count = match Enumeration::step(Some(ManagedReply::Int(4))) {
        Enumeration::AskItems { capacity } => capacity,
        _ => panic!("the second call was expected"),
    };
    let buffer = vec![11, 12, 13, 14];
    assert_eq!(buffer.len(), count);
    match Enumeration::step(Some(ManagedReply::Items { items: buffer, count: 4 })) {
        Enumeration::Done { items } => assert_eq!(items.len(), 4),
        _ => panic!("the entries were expected"),
    }
}

#[test]
fn a_step_ends_with_what_was_read() {
    assert!(matches!(Step::finish(Ok(5)), Step::Done(5)));
    assert!(matches!(
        Step::<i32>::finish(Err(ProtocolError::SizeMismatch)),
        Step::Failed(ProtocolError::SizeMismatch)
    ));
    match Step::text(ManagedReply::Text(CSharpNativeString::new("t"))) {
        Step::Done(text) => assert_eq!(text, "t"),
        _ => panic!("text was expected"),
    }
}

#[test]
fn a_call_names_its_entry_point() {
    assert_eq!(ManagedCall::GetLastLoadStatus.entry_point(), EntryPoint::GetLastLoadStatus);
    assert_eq!(
        ManagedCall::GetTypeSize { type_id: 3 }.entry_point(),
        EntryPoint::GetTypeSize
    );
    assert_eq!(
        ManagedCall::DestroyObject { object: 8 }.entry_point(),
        EntryPoint::DestroyObject
    );
    assert_eq!(
        ManagedCall::GetTypeMethods { type_id: 3, capacity: None }.entry_point(),
        EntryPoint::GetTypeMethods
    );
    assert_eq!(
        ManagedCall::LoadAssembly { context_id: 1, path: CSharpNativeString::new("a.dll") }
            .entry_point(),
        EntryPoint::LoadAssembly
    );
}

#[test]
fn tags_are_ordered_as_they_are_declared() {
    assert!(ManagedType::Unknown < ManagedType::SByte);
    assert!(ManagedType::SByte < ManagedType::Byte);
    assert!(ManagedType::Int < ManagedType::UInt);
    assert!(ManagedType::Double < ManagedType::Bool);
    assert!(ManagedType::String < ManagedType::Pointer);
    assert!(ManagedType::Pointer > ManagedType::Unknown);
    assert_eq!(ManagedType::Float.min(ManagedType::Long), ManagedType::Long);
}
