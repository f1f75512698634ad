use sharpen::managed_call::{ManagedCall, ManagedReply, ProtocolError, Step};
use sharpen::managed_object::{ManagedObject, ManagedObjectFns};
use sharpen::managed_type::{ArgumentSlot, ManagedType, NativeValue};
use sharpen::meta_info::{Attribute, FieldInfo, MethodInfo, PropertyInfo};
use sharpen::sharp_type::{Type, TypeFns};
use sharpen::string::CSharpNativeString;
use sharpen::type_cache::TypeCache;
use sharpen::{Bool32, TypeAccessibility};
use std::sync::Arc;

fn text(value: &str) -> ManagedReply {
    ManagedReply::Text(CSharpNativeString::new(value))
}

#[test]
fn types_are_equal_by_their_id_alone() {
    let mut cache = TypeCache::new();
    let mut with_base = Type::from_id(5);
    assert!(matches!(
        with_base.get_base_type(&mut cache, Some(ManagedReply::Int(1))),
        Step::Call(ManagedCall::GetFullTypeName { type_id: 1 })
    ));
    match with_base.get_base_type(&mut cache, Some(text("System.Object"))) {
        Step::Done(base) => assert_eq!(base.get_type_id(), 1),
        _ => panic!("the base type was expected"),
    }
    let plain = Type::from_id(5);
    assert!(with_base == plain);
    assert!(plain == with_base);
    assert!(!(Type::from_id(5) == Type::from_id(6)));
    assert!(Type::uninit() == Type::from_id(-1));
    assert_eq!(Type::uninit().get_type_id(), -1);
}

#[test]
fn a_type_asks_for_its_names() {
    let ty = Type::from_id(12);
    assert!(matches!(
        ty.get_full_name(None),
        Step::Call(ManagedCall::GetFullTypeName { type_id: 12 })
    ));
    match ty.get_full_name(Some(text("Example.Managed.ExampleClass"))) {
        Step::Done(name) => assert_eq!(name, "Example.Managed.ExampleClass"),
        _ => panic!("the name was expected"),
    }
    assert!(matches!(
        ty.get_full_name(Some(ManagedReply::Int(1))),
        Step::Failed(ProtocolError::UnexpectedReply)
    ));
    assert!(matches!(
        ty.get_assembly_qualified_name(None),
        Step::Call(ManagedCall::GetAssemblyQualifiedName { type_id: 12 })
    ));
    match ty.get_assembly_qualified_name(Some(text("Example.Managed.ExampleClass, Example"))) {
        Step::Done(name) => assert_eq!(name, "Example.Managed.ExampleClass, Example"),
        _ => panic!("the name was expected"),
    }
}

#[test]
fn a_type_answers_plain_questions_with_one_call() {
    let ty = Type::from_id(3);
    let other = Type::from_id(4);
    assert!(matches!(ty.get_size(None), Step::Call(ManagedCall::GetTypeSize { type_id: 3 })));
    assert!(matches!(ty.get_size(Some(ManagedReply::Int(24))), Step::Done(24)));
    assert!(matches!(
        ty.get_size(Some(ManagedReply::Unit)),
        Step::Failed(ProtocolError::UnexpectedReply)
    ));
    assert!(matches!(
        ty.is_subclass_of(&other, None),
        Step::Call(ManagedCall::IsTypeSubclassOf { type_id: 3, other: 4 })
    ));
    assert!(matches!(
        ty.is_subclass_of(&other, Some(ManagedReply::Flag(Bool32(1)))),
        Step::Done(true)
    ));
    assert!(matches!(
        ty.is_assignable_to(&other, None),
        Step::Call(ManagedCall::IsTypeAssignableTo { type_id: 3, other: 4 })
    ));
    assert!(matches!(
        ty.is_assignable_to(&other, Some(ManagedReply::Flag(Bool32(0)))),
        Step::Done(false)
    ));
    assert!(matches!(
        ty.is_assignable_from(&other, None),
        Step::Call(ManagedCall::IsTypeAssignableFrom { type_id: 3, other: 4 })
    ));
    assert!(matches!(
        ty.is_assignable_from(&other, Some(ManagedReply::Flag(Bool32(9)))),
        Step::Done(true)
    ));
    assert!(matches!(
        ty.has_attribute(&other, None),
        Step::Call(ManagedCall::HasTypeAttribute { type_id: 3, attribute: 4 })
    ));
    assert!(matches!(
        ty.has_attribute(&other, Some(ManagedReply::Flag(Bool32(1)))),
        Step::Done(true)
    ));
    assert!(matches!(
        ty.is_sz_array(None),
        Step::Call(ManagedCall::IsTypeSZArray { type_id: 3 })
    ));
    assert!(matches!(ty.is_sz_array(Some(ManagedReply::Flag(Bool32(0)))), Step::Done(false)));
    assert!(matches!(
        ty.is_sz_array(Some(ManagedReply::Int(0))),
        Step::Failed(ProtocolError::UnexpectedReply)
    ));
}

#[test]
fn a_type_reads_its_tag_from_a_number() {
    let ty = Type::from_id(3);
    assert!(matches!(
        ty.get_managed_type(None),
        Step::Call(ManagedCall::GetTypeManagedType { type_id: 3 })
    ));
    assert!(matches!(
        ty.get_managed_type(Some(ManagedReply::Int(5))),
        Step::Done(ManagedType::Int)
    ));
    assert!(matches!(
        ty.get_managed_type(Some(ManagedReply::Int(14))),
        Step::Failed(ProtocolError::InvalidEnumValue)
    ));
    assert!(matches!(
        ty.get_managed_type(Some(ManagedReply::Unit)),
        Step::Failed(ProtocolError::UnexpectedReply)
    ));
}

#[test]
fn the_base_type_is_asked_for_once() {
    let mut cache = TypeCache::new();
    let mut ty = Type::from_id(3);
    assert!(matches!(
        ty.get_base_type(&mut cache, None),
        Step::Call(ManagedCall::GetBaseType { type_id: 3 })
    ));
    assert!(matches!(
        ty.get_base_type(&mut cache, Some(ManagedReply::Unit)),
        Step::Failed(ProtocolError::UnexpectedReply)
    ));
    assert!(matches!(
        ty.get_base_type(&mut cache, Some(ManagedReply::Int(2))),
        Step::Call(ManagedCall::GetFullTypeName { type_id: 2 })
    ));
    let base = match ty.get_base_type(&mut cache, Some(text("Example.Managed.Base"))) {
        Step::Done(base) => base,
        _ => panic!("the base type was expected"),
    };
    assert_eq!(base.get_type_id(), 2);
    match ty.get_base_type(&mut cache, None) {
        Step::Done(kept) => assert!(Arc::ptr_eq(&kept, &base)),
        _ => panic!("the base type is kept"),
    }
}

#[test]
fn the_base_type_is_entered_in_the_cache() {
    let mut cache = TypeCache::new();
    let mut ty = Type::from_id(3);
    ty.get_base_type(&mut cache, None);
    ty.get_base_type(&mut cache, Some(ManagedReply::Int(2)));
    assert!(cache.get_type_by_id(2).is_err());
    let base = match ty.get_base_type(&mut cache, Some(text("Example.Managed.Base"))) {
        Step::Done(base) => base,
        _ => panic!("the base type was expected"),
    };
    assert!(Arc::ptr_eq(&cache.get_type_by_id(2).unwrap(), &base));
    assert!(Arc::ptr_eq(&cache.get_type_by_name("Example.Managed.Base").unwrap(), &base));
}

#[test]
fn a_lookup_hands_out_the_handle_that_the_cache_holds() {
    let mut cache = TypeCache::new();
    let held = Arc::new(Type::from_id(40));
    cache.cache_type("System.Single".to_string(), held.clone());
    let mut method = MethodInfo::from_handle(100);
    method.get_return_type(&mut cache, None);
    assert!(matches!(
        method.get_return_type(&mut cache, Some(ManagedReply::Int(40))),
        Step::Call(ManagedCall::GetFullTypeName { type_id: 40 })
    ));
    let found = match method.get_return_type(&mut cache, Some(text("System.Single"))) {
        Step::Done(found) => found,
        _ => panic!("the type was expected"),
    };
    assert!(Arc::ptr_eq(&found, &held));
    assert!(Arc::ptr_eq(&cache.get_type_by_id(40).unwrap(), &held));
    assert!(Arc::ptr_eq(&cache.get_type_by_name("System.Single").unwrap(), &held));
}

#[test]
fn two_members_of_one_type_share_its_handle() {
    let mut cache = TypeCache::new();
    let mut field = FieldInfo::from_handle(1);
    field.get_type(&mut cache, None);
    field.get_type(&mut cache, Some(ManagedReply::Int(9)));
    let first = match field.get_type(&mut cache, Some(text("System.Int32"))) {
        Step::Done(found) => found,
        _ => panic!("the type was expected"),
    };
    let mut property = PropertyInfo::from_handle(2);
    property.get_type(&mut cache, None);
    property.get_type(&mut cache, Some(ManagedReply::Int(9)));
    let second = match property.get_type(&mut cache, Some(text("int"))) {
        Step::Done(found) => found,
        _ => panic!("the type was expected"),
    };
    assert!(Arc::ptr_eq(&first, &second));
    assert!(Arc::ptr_eq(&cache.get_type_by_id(9).unwrap(), &first));
    assert!(Arc::ptr_eq(&cache.get_type_by_name("System.Int32").unwrap(), &first));
    assert!(Arc::ptr_eq(&cache.get_type_by_name("int").unwrap(), &first));
}

#[test]
fn parameter_types_that_the_cache_holds_are_handed_out_as_they_are() {
    let mut cache = TypeCache::new();
    let held = Arc::new(Type::from_id(42));
    cache.cache_type("System.String".to_string(), held.clone());
    let mut method = MethodInfo::from_handle(100);
    method.get_parameter_types(&mut cache, None);
    method.get_parameter_types(&mut cache, Some(ManagedReply::Int(3)));
    method.get_parameter_types(
        &mut cache,
        Some(ManagedReply::Items { items: vec![41, 42, 41], count: 3 }),
    );
    method.get_parameter_types(&mut cache, Some(text("System.Int32")));
    assert!(matches!(
        method.get_parameter_types(&mut cache, Some(text("System.String"))),
        Step::Call(ManagedCall::GetFullTypeName { type_id: 41 })
    ));
    let types = match method.get_parameter_types(&mut cache, Some(text("System.Int32"))) {
        Step::Done(types) => types,
        _ => panic!("the types were expected"),
    };
    assert_eq!(types.len(), 3);
    assert!(Arc::ptr_eq(&types[1], &held));
    assert!(Arc::ptr_eq(&types[0], &types[2]));
    assert!(Arc::ptr_eq(&cache.get_type_by_id(41).unwrap(), &types[0]));
    assert!(Arc::ptr_eq(&cache.get_type_by_id(42).unwrap(), &held));
}

#[test]
fn a_value_of_a_type_without_a_tag_is_read_by_its_size() {
    let object = ManagedObject::new(0x5000, Arc::new(Type::from_id(12)));
    match object.get_field_value_raw("Position", 12, None) {
        Step::Call(ManagedCall::GetFieldValue { object, name, kind, result }) => {
            assert_eq!(object, 0x5000);
            assert_eq!(name.to_text().as_deref(), Some("Position"));
            assert_eq!(kind, ManagedType::Unknown);
            assert_eq!(result, vec![0u8; 12]);
        }
        _ => panic!("a call was expected"),
    }
    let bytes: Vec<u8> = vec![1, 0, 0, 0, 2, 0, 0, 0, 3, 0, 0, 0];
    match object.get_field_value_raw("Position", 12, Some(ManagedReply::Bytes(bytes.clone()))) {
        Step::Done(read) => assert_eq!(read, bytes),
        _ => panic!("the bytes were expected"),
    }
    assert!(matches!(
        object.get_field_value_raw("Position", 12, Some(ManagedReply::Bytes(vec![1, 2, 3]))),
        Step::Failed(ProtocolError::SizeMismatch)
    ));
    assert!(matches!(
        object.get_field_value_raw("Position", 12, Some(ManagedReply::Unit)),
        Step::Failed(ProtocolError::UnexpectedReply)
    ));
    match object.get_property_value_raw("Bounds", 3, None) {
        Step::Call(ManagedCall::GetPropertyValue { object, name, kind, result }) => {
            assert_eq!(object, 0x5000);
            assert_eq!(name.to_text().as_deref(), Some("Bounds"));
            assert_eq!(kind, ManagedType::Unknown);
            assert_eq!(result, vec![0u8; 3]);
        }
        _ => panic!("a call was expected"),
    }
    match object.get_property_value_raw("Bounds", 3, Some(ManagedReply::Bytes(vec![7, 8, 9]))) {
        Step::Done(read) => assert_eq!(read, vec![7u8, 8, 9]),
        _ => panic!("the bytes were expected"),
    }
}

#[test]
fn a_method_that_gives_back_a_type_without_a_tag_is_read_by_its_size() {
    let object = ManagedObject::new(0x5000, Arc::new(Type::from_id(12)));
    let args = vec![NativeValue::Int(4)];
    match object.invoke_method_raw("Corner", &args, 8, None) {
        Step::Call(ManagedCall::InvokeMethodRet { object, name, arguments, kind, result }) => {
            assert_eq!(object, 0x5000);
            assert_eq!(name.to_text().as_deref(), Some("Corner"));
            assert_eq!(arguments.len(), 1);
            assert_eq!(kind, ManagedType::Unknown);
            assert_eq!(result, vec![0u8; 8]);
        }
        _ => panic!("a call was expected"),
    }
    match object.invoke_method_raw("Corner", &args, 8, Some(ManagedReply::Bytes(vec![5; 8]))) {
        Step::Done(read) => assert_eq!(read, vec![5u8; 8]),
        _ => panic!("the bytes were expected"),
    }
    let ty = Type::from_id(12);
    match ty.invoke_static_method_raw("Origin", &Vec::new(), 16, None) {
        Step::Call(ManagedCall::InvokeStaticMethodRet { type_id, name, arguments, kind, result }) => {
            assert_eq!(type_id, 12);
            assert_eq!(name.to_text().as_deref(), Some("Origin"));
            assert!(arguments.is_empty());
            assert_eq!(kind, ManagedType::Unknown);
            assert_eq!(result, vec![0u8; 16]);
        }
        _ => panic!("a call was expected"),
    }
    assert!(matches!(
        ty.invoke_static_method_raw("Origin", &Vec::new(), 16, Some(ManagedReply::Bytes(vec![0; 15]))),
        Step::Failed(ProtocolError::SizeMismatch)
    ));
    let attribute = Attribute::from_handle(77);
    match attribute.get_field_value_raw("Range", 2, None) {
        Step::Call(ManagedCall::GetAttributeFieldValue { handle, name, kind, result }) => {
            assert_eq!(handle, 77);
            assert_eq!(name.to_text().as_deref(), Some("Range"));
            assert_eq!(kind, ManagedType::Unknown);
            assert_eq!(result, vec![0u8; 2]);
        }
        _ => panic!("a call was expected"),
    }
    match attribute.get_field_value_raw("Range", 2, Some(ManagedReply::Bytes(vec![1, 2]))) {
        Step::Done(read) => assert_eq!(read, vec![1u8, 2]),
        _ => panic!("the bytes were expected"),
    }
}

#[test]
fn the_element_type_is_looked_up_named_and_cached() {
    let mut cache = TypeCache::new();
    let mut ty = Type::from_id(30);
    assert!(matches!(
        ty.get_element_type(&mut cache, None),
        Step::Call(ManagedCall::GetElementType { type_id: 30 })
    ));
    assert!(matches!(
        ty.get_element_type(&mut cache, Some(ManagedReply::Int(31))),
        Step::Call(ManagedCall::GetFullTypeName { type_id: 31 })
    ));
    assert!(cache.get_type_by_id(31).is_err());
    let element = match ty.get_element_type(&mut cache, Some(text("System.Int32"))) {
        Step::Done(element) => element,
        _ => panic!("the element type was expected"),
    };
    assert_eq!(element.get_type_id(), 31);
    assert!(Arc::ptr_eq(&cache.get_type_by_id(31).unwrap(), &element));
    assert!(Arc::ptr_eq(&cache.get_type_by_name("System.Int32").unwrap(), &element));
    match ty.get_element_type(&mut cache, None) {
        Step::Done(kept) => assert!(Arc::ptr_eq(&kept, &element)),
        _ => panic!("the element type is kept"),
    }
}

#[test]
fn a_name_without_an_identifier_before_it_is_refused() {
    let mut cache = TypeCache::new();
    let mut ty = Type::from_id(30);
    assert!(matches!(
        ty.get_element_type(&mut cache, Some(text("System.Int32"))),
        Step::Failed(ProtocolError::UnexpectedReply)
    ));
    assert!(cache.get_type_by_name("System.Int32").is_err());
    assert!(matches!(
        ty.get_element_type(&mut cache, Some(ManagedReply::Int(31))),
        Step::Call(ManagedCall::GetFullTypeName { type_id: 31 })
    ));
    assert!(matches!(
        ty.get_element_type(&mut cache, Some(ManagedReply::Text(CSharpNativeString::null()))),
        Step::Failed(ProtocolError::UnexpectedReply)
    ));
    assert!(matches!(
        ty.get_element_type(&mut cache, Some(ManagedReply::Unit)),
        Step::Failed(ProtocolError::UnexpectedReply)
    ));
}

#[test]
fn the_members_of_a_type_are_enumerated_in_two_calls() {
    let ty = Type::from_id(9);
    assert!(matches!(
        ty.get_methods(None),
        Step::Call(ManagedCall::GetTypeMethods { type_id: 9, capacity: None })
    ));
    assert!(matches!(
        ty.get_methods(Some(ManagedReply::Int(2))),
        Step::Call(ManagedCall::GetTypeMethods { type_id: 9, capacity: Some(2) })
    ));
    match ty.get_methods(Some(ManagedReply::Items { items: vec![100, 101], count: 2 })) {
        Step::Done(methods) => {
            assert_eq!(methods.len(), 2);
            assert_eq!(methods[0].handle(), 100);
            assert_eq!(methods[1].handle(), 101);
        }
        _ => panic!("the methods were expected"),
    }
    assert!(matches!(
        ty.get_fields(None),
        Step::Call(ManagedCall::GetTypeFields { type_id: 9, capacity: None })
    ));
    assert!(matches!(
        ty.get_fields(Some(ManagedReply::Int(1))),
        Step::Call(ManagedCall::GetTypeFields { type_id: 9, capacity: Some(1) })
    ));
    match ty.get_fields(Some(ManagedReply::Items { items: vec![200], count: 1 })) {
        Step::Done(fields) => {
            assert_eq!(fields.len(), 1);
            assert_eq!(fields[0].handle(), 200);
        }
        _ => panic!("the fields were expected"),
    }
    assert!(matches!(
        ty.get_properties(None),
        Step::Call(ManagedCall::GetTypeProperties { type_id: 9, capacity: None })
    ));
    match ty.get_properties(Some(ManagedReply::Items { items: vec![300, 301, 0], count: 2 })) {
        Step::Done(properties) => {
            assert_eq!(properties.len(), 2);
            assert_eq!(properties[1].handle(), 301);
        }
        _ => panic!("the properties were expected"),
    }
    assert!(matches!(
        ty.get_attributes(None),
        Step::Call(ManagedCall::GetTypeAttributes { type_id: 9, capacity: None })
    ));
    match ty.get_attributes(Some(ManagedReply::Items { items: vec![], count: 0 })) {
        Step::Done(attributes) => assert!(attributes.is_empty()),
        _ => panic!("no attributes were expected"),
    }
    assert!(matches!(
        ty.get_attributes(Some(ManagedReply::Int(-3))),
        Step::Failed(ProtocolError::NegativeCount)
    ));
    assert!(matches!(
        ty.get_methods(Some(ManagedReply::Items { items: vec![1], count: 2 })),
        Step::Failed(ProtocolError::CountExceedsCapacity)
    ));
}

#[test]
fn a_method_tells_its_name_and_who_may_see_it() {
    let method = MethodInfo::from_handle(100);
    assert_eq!(method.handle(), 100);
    assert!(matches!(
        method.get_name(None),
        Step::Call(ManagedCall::GetMethodInfoName { handle: 100 })
    ));
    match method.get_name(Some(text("StaticMethod"))) {
        Step::Done(name) => assert_eq!(name.to_string(), "StaticMethod"),
        _ => panic!("the name was expected"),
    }
    assert!(matches!(
        method.get_name(Some(ManagedReply::Int(0))),
        Step::Failed(ProtocolError::UnexpectedReply)
    ));
    assert!(matches!(
        method.get_accessibility(None),
        Step::Call(ManagedCall::GetMethodInfoAccessibility { handle: 100 })
    ));
    assert!(matches!(
        method.get_accessibility(Some(ManagedReply::Int(0))),
        Step::Done(TypeAccessibility::Public)
    ));
    assert!(matches!(
        method.get_accessibility(Some(ManagedReply::Int(5))),
        Step::Done(TypeAccessibility::PrivateProtected)
    ));
    assert!(matches!(
        method.get_accessibility(Some(ManagedReply::Int(6))),
        Step::Failed(ProtocolError::InvalidEnumValue)
    ));
    assert!(matches!(
        method.get_accessibility(Some(ManagedReply::Unit)),
        Step::Failed(ProtocolError::UnexpectedReply)
    ));
}

#[test]
fn a_method_looks_its_return_type_up_once() {
    let mut cache = TypeCache::new();
    let mut method = MethodInfo::from_handle(100);
    assert!(matches!(
        method.get_return_type(&mut cache, None),
        Step::Call(ManagedCall::GetMethodInfoReturnType { handle: 100 })
    ));
    assert!(matches!(
        method.get_return_type(&mut cache, Some(ManagedReply::Int(40))),
        Step::Call(ManagedCall::GetFullTypeName { type_id: 40 })
    ));
    let found = match method.get_return_type(&mut cache, Some(text("System.Single"))) {
        Step::Done(found) => found,
        _ => panic!("the type was expected"),
    };
    assert_eq!(found.get_type_id(), 40);
    assert!(Arc::ptr_eq(&cache.get_type_by_name("System.Single").unwrap(), &found));
    match method.get_return_type(&mut cache, None) {
        Step::Done(kept) => assert!(Arc::ptr_eq(&kept, &found)),
        _ => panic!("the type is kept"),
    }
}

#[test]
fn the_parameter_types_are_enumerated_then_named_in_order() {
    let mut cache = TypeCache::new();
    let mut method = MethodInfo::from_handle(100);
    assert!(matches!(
        method.get_parameter_types(&mut cache, None),
        Step::Call(ManagedCall::GetMethodInfoParameterTypes { handle: 100, capacity: None })
    ));
    assert!(matches!(
        method.get_parameter_types(&mut cache, Some(ManagedReply::Int(2))),
        Step::Call(ManagedCall::GetMethodInfoParameterTypes { handle: 100, capacity: Some(2) })
    ));
    assert!(matches!(
        method.get_parameter_types(
            &mut cache,
            Some(ManagedReply::Items { items: vec![41, 42], count: 2 })
        ),
        Step::Call(ManagedCall::GetFullTypeName { type_id: 41 })
    ));
    assert!(matches!(
        method.get_parameter_types(&mut cache, Some(text("System.Int32"))),
        Step::Call(ManagedCall::GetFullTypeName { type_id: 42 })
    ));
    let types = match method.get_parameter_types(&mut cache, Some(text("System.String"))) {
        Step::Done(types) => types,
        _ => panic!("the types were expected"),
    };
    assert_eq!(types.len(), 2);
    assert_eq!(types[0].get_type_id(), 41);
    assert_eq!(types[1].get_type_id(), 42);
    assert!(Arc::ptr_eq(&cache.get_type_by_name("System.Int32").unwrap(), &types[0]));
    assert!(Arc::ptr_eq(&cache.get_type_by_id(42).unwrap(), &types[1]));
    match method.get_parameter_types(&mut cache, None) {
        Step::Done(kept) => {
            assert_eq!(kept.len(), 2);
            assert!(Arc::ptr_eq(&kept[0], &types[0]));
            assert!(Arc::ptr_eq(&kept[1], &types[1]));
        }
        _ => panic!("the types are kept"),
    }
}

#[test]
fn a_method_without_parameters_is_asked_each_time() {
    let mut cache = TypeCache::new();
    let mut method = MethodInfo::from_handle(7);
    assert!(matches!(
        method.get_parameter_types(&mut cache, None),
        Step::Call(ManagedCall::GetMethodInfoParameterTypes { handle: 7, capacity: None })
    ));
    match method.get_parameter_types(&mut cache, Some(ManagedReply::Items { items: vec![], count: 0 })) {
        Step::Done(types) => assert!(types.is_empty()),
        _ => panic!("no types were expected"),
    }
    assert!(matches!(
        method.get_parameter_types(&mut cache, None),
        Step::Call(ManagedCall::GetMethodInfoParameterTypes { handle: 7, capacity: None })
    ));
    assert!(matches!(
        method.get_parameter_types(&mut cache, Some(text("System.Int32"))),
        Step::Failed(ProtocolError::UnexpectedReply)
    ));
    assert!(matches!(
        method.get_parameter_types(&mut cache, Some(ManagedReply::Int(-1))),
        Step::Failed(ProtocolError::NegativeCount)
    ));
}

#[test]
fn members_enumerate_their_attributes() {
    let method = MethodInfo::from_handle(1);
    let field = FieldInfo::from_handle(2);
    let property = PropertyInfo::from_handle(3);
    assert!(matches!(
        method.get_attributes(None),
        Step::Call(ManagedCall::GetMethodInfoAttributes { handle: 1, capacity: None })
    ));
    assert!(matches!(
        field.get_attributes(Some(ManagedReply::Int(1))),
        Step::Call(ManagedCall::GetFieldInfoAttributes { handle: 2, capacity: Some(1) })
    ));
    match property.get_attributes(Some(ManagedReply::Items { items: vec![500, 501], count: 2 })) {
        Step::Done(attributes) => {
            assert_eq!(attributes.len(), 2);
            assert_eq!(attributes[0].handle(), 500);
            assert_eq!(attributes[1].handle(), 501);
        }
        _ => panic!("the attributes were expected"),
    }
    assert!(matches!(
        property.get_attributes(None),
        Step::Call(ManagedCall::GetPropertyInfoAttributes { handle: 3, capacity: None })
    ));
}

#[test]
fn fields_and_properties_tell_their_names_and_types() {
    let mut cache = TypeCache::new();
    let mut field = FieldInfo::from_handle(2);
    let mut property = PropertyInfo::from_handle(3);
    assert_eq!(field.handle(), 2);
    assert_eq!(property.handle(), 3);
    assert!(matches!(
        field.get_name(None),
        Step::Call(ManagedCall::GetFieldInfoName { handle: 2 })
    ));
    match field.get_name(Some(text("myPrivateValue"))) {
        Step::Done(name) => assert_eq!(name.to_string(), "myPrivateValue"),
        _ => panic!("the name was expected"),
    }
    assert!(matches!(
        property.get_name(None),
        Step::Call(ManagedCall::GetPropertyInfoName { handle: 3 })
    ));
    match property.get_name(Some(text("PublicProp"))) {
        Step::Done(name) => assert_eq!(name.to_string(), "PublicProp"),
        _ => panic!("the name was expected"),
    }
    assert!(matches!(
        field.get_accessibility(None),
        Step::Call(ManagedCall::GetFieldInfoAccessibility { handle: 2 })
    ));
    assert!(matches!(
        field.get_accessibility(Some(ManagedReply::Int(1))),
        Step::Done(TypeAccessibility::Private)
    ));
    assert!(matches!(
        field.get_type(&mut cache, None),
        Step::Call(ManagedCall::GetFieldInfoType { handle: 2 })
    ));
    assert!(matches!(
        field.get_type(&mut cache, Some(ManagedReply::Int(60))),
        Step::Call(ManagedCall::GetFullTypeName { type_id: 60 })
    ));
    match field.get_type(&mut cache, Some(text("System.Int32"))) {
        Step::Done(ty) => assert_eq!(ty.get_type_id(), 60),
        _ => panic!("the type was expected"),
    }
    assert!(matches!(
        property.get_type(&mut cache, None),
        Step::Call(ManagedCall::GetPropertyInfoType { handle: 3 })
    ));
    assert!(matches!(
        property.get_type(&mut cache, Some(ManagedReply::Int(60))),
        Step::Call(ManagedCall::GetFullTypeName { type_id: 60 })
    ));
    match property.get_type(&mut cache, Some(text("System.Int32"))) {
        Step::Done(ty) => {
            assert_eq!(ty.get_type_id(), 60);
            assert!(Arc::ptr_eq(&cache.get_type_by_id(60).unwrap(), &ty));
        }
        _ => panic!("the type was expected"),
    }
}

#[test]
fn an_attribute_tells_its_type_and_its_field_values() {
    let mut cache = TypeCache::new();
    let mut attribute = Attribute::from_handle(500);
    assert_eq!(attribute.handle(), 500);
    assert!(matches!(
        attribute.get_type(&mut cache, None),
        Step::Call(ManagedCall::GetAttributeType { handle: 500 })
    ));
    assert!(matches!(
        attribute.get_type(&mut cache, Some(ManagedReply::Int(70))),
        Step::Call(ManagedCall::GetFullTypeName { type_id: 70 })
    ));
    let found = match attribute.get_type(&mut cache, Some(text("Example.Managed.CustomAttribute"))) {
        Step::Done(found) => found,
        _ => panic!("the type was expected"),
    };
    let custom = cache.get_type_by_name("Example.Managed.CustomAttribute").unwrap();
    assert!(*found == *custom);
    match attribute.get_field_value("Value", ManagedType::Float, None) {
        Step::Call(ManagedCall::GetAttributeFieldValue { handle, name, kind, result }) => {
            assert_eq!(handle, 500);
            assert_eq!(name.to_string(), "Value");
            assert_eq!(kind, ManagedType::Float);
            assert_eq!(result, vec![0, 0, 0, 0]);
        }
        _ => panic!("the call was expected"),
    }
    let reply = ManagedReply::Bytes(2.5f32.to_le_bytes().to_vec());
    match attribute.get_field_value("Value", ManagedType::Float, Some(reply)) {
        Step::Done(NativeValue::Float(bits)) => assert_eq!(f32::from_bits(bits), 2.5),
        _ => panic!("the value was expected"),
    }
}

#[test]
fn an_object_of_an_integer_constructor_keeps_what_is_set() {
    let mut cache = TypeCache::new();
    let ty = Arc::new(Type::from_id(12));
    cache.cache_type("Example.Managed.ExampleClass".to_string(), ty.clone());
    match ty.create_instance(&cache, &vec![NativeValue::Int(50)], None) {
        Step::Call(ManagedCall::CreateObject { type_id, weak, arguments }) => {
            assert_eq!(type_id, 12);
            assert_eq!(weak, Bool32(0));
            assert_eq!(arguments.tags, vec![ManagedType::Int]);
            match &arguments.slots[0] {
                ArgumentSlot::Bytes(bytes) => assert_eq!(bytes, &vec![50, 0, 0, 0]),
                _ => panic!("bytes were expected"),
            }
        }
        _ => panic!("the call was expected"),
    }
    let reply = Some(ManagedReply::Object(0x7000));
    let mut object = match ty.create_instance(&cache, &vec![NativeValue::Int(50)], reply) {
        Step::Done(object) => object,
        _ => panic!("the object was expected"),
    };
    assert_eq!(object.handle(), 0x7000);
    assert!(object.is_valid());
    match object.get_type(&mut cache, None) {
        Step::Done(known) => assert!(Arc::ptr_eq(&known, &ty)),
        _ => panic!("the type is known from the cache"),
    }
    match object.set_field_value("x", &NativeValue::Int(50), None) {
        Step::Call(ManagedCall::SetFieldValue { object: address, name, value }) => {
            assert_eq!(address, 0x7000);
            assert_eq!(name.to_string(), "x");
            match value {
                ArgumentSlot::Bytes(bytes) => assert_eq!(bytes, vec![50, 0, 0, 0]),
                _ => panic!("bytes were expected"),
            }
        }
        _ => panic!("the call was expected"),
    }
    assert!(matches!(
        object.set_field_value("x", &NativeValue::Int(50), Some(ManagedReply::Unit)),
        Step::Done(())
    ));
    match object.get_field_value("x", ManagedType::Int, None) {
        Step::Call(ManagedCall::GetFieldValue { object: address, name, kind, result }) => {
            assert_eq!(address, 0x7000);
            assert_eq!(name.to_string(), "x");
            assert_eq!(kind, ManagedType::Int);
            assert_eq!(result, vec![0, 0, 0, 0]);
        }
        _ => panic!("the call was expected"),
    }
    let written = ManagedReply::Bytes(vec![50, 0, 0, 0]);
    match object.get_field_value("x", ManagedType::Int, Some(written)) {
        Step::Done(NativeValue::Int(value)) => assert_eq!(value, 50),
        _ => panic!("the value was expected"),
    }
}

#[test]
fn creating_an_instance_refuses_other_replies() {
    let mut cache = TypeCache::new();
    let ty = Arc::new(Type::from_id(12));
    cache.cache_type("T".to_string(), ty.clone());
    assert!(matches!(
        ty.create_instance(&cache, &Vec::new(), Some(ManagedReply::Int(1))),
        Step::Failed(ProtocolError::UnexpectedReply)
    ));
    match ty.create_instance(&cache, &Vec::new(), None) {
        Step::Call(ManagedCall::CreateObject { arguments, .. }) => assert!(arguments.is_empty()),
        _ => panic!("the call was expected"),
    }
}

#[test]
fn properties_are_set_and_read_like_fields() {
    let object = ManagedObject::new(0x7000, Arc::new(Type::from_id(12)));
    match object.set_property_value("PublicProp", &NativeValue::Int(10), None) {
        Step::Call(ManagedCall::SetPropertyValue { object: address, name, value }) => {
            assert_eq!(address, 0x7000);
            assert_eq!(name.to_string(), "PublicProp");
            match value {
                ArgumentSlot::Bytes(bytes) => assert_eq!(bytes, vec![10, 0, 0, 0]),
                _ => panic!("bytes were expected"),
            }
        }
        _ => panic!("the call was expected"),
    }
    assert!(matches!(
        object.set_property_value("PublicProp", &NativeValue::Int(10), Some(ManagedReply::Int(0))),
        Step::Failed(ProtocolError::UnexpectedReply)
    ));
    match object.get_property_value("PublicProp", ManagedType::Int, None) {
        Step::Call(ManagedCall::GetPropertyValue { object: address, name, kind, result }) => {
            assert_eq!(address, 0x7000);
            assert_eq!(name.to_string(), "PublicProp");
            assert_eq!(kind, ManagedType::Int);
            assert_eq!(result.len(), 4);
        }
        _ => panic!("the call was expected"),
    }
    match object.get_property_value(
        "PublicProp",
        ManagedType::Int,
        Some(ManagedReply::Bytes(vec![10, 0, 0, 0])),
    ) {
        Step::Done(NativeValue::Int(value)) => assert_eq!(value, 10),
        _ => panic!("the value was expected"),
    }
    assert!(matches!(
        object.get_property_value("PublicProp", ManagedType::Int, Some(ManagedReply::Bytes(vec![1]))),
        Step::Failed(ProtocolError::SizeMismatch)
    ));
    match object.set_field_value("name", &NativeValue::String("text".to_string()), None) {
        Step::Call(ManagedCall::SetFieldValue { value: ArgumentSlot::Text(text), .. }) => {
            assert_eq!(text.to_string(), "text")
        }
        _ => panic!("a native string was expected"),
    }
}

#[test]
fn an_object_looks_its_type_up_when_it_has_none() {
    let mut cache = TypeCache::new();
    let mut object = ManagedObject::uninit();
    assert_eq!(object.handle(), 0);
    assert!(!object.is_valid());
    assert!(matches!(
        object.get_type(&mut cache, None),
        Step::Call(ManagedCall::GetObjectTypeId { object: 0 })
    ));
    assert!(matches!(
        object.get_type(&mut cache, Some(ManagedReply::Int(12))),
        Step::Call(ManagedCall::GetFullTypeName { type_id: 12 })
    ));
    match object.get_type(&mut cache, Some(text("Example.Managed.ExampleClass"))) {
        Step::Done(ty) => {
            assert_eq!(ty.get_type_id(), 12);
            assert!(Arc::ptr_eq(&cache.get_type_by_id(12).unwrap(), &ty));
        }
        _ => panic!("the type was expected"),
    }
    assert!(!object.is_valid());
}

#[test]
fn destroying_makes_one_call_unless_the_handle_is_null() {
    let object = ManagedObject::new(0x7000, Arc::new(Type::from_id(12)));
    assert!(matches!(
        object.destroy(),
        Some(ManagedCall::DestroyObject { object: 0x7000 })
    ));
    assert!(ManagedObject::uninit().destroy().is_none());
    assert!(ManagedObject::new(0, Arc::new(Type::from_id(12))).destroy().is_none());
}

#[test]
fn a_native_function_that_takes_ten_off_answers_forty_for_fifty() {
    let ty = Type::from_id(12);
    let given = match ty.invoke_static_method(
        "StaticMethod",
        &vec![NativeValue::Float(50.0f32.to_bits())],
        ManagedType::Float,
        None,
    ) {
        Step::Call(ManagedCall::InvokeStaticMethodRet { type_id, name, arguments, kind, result }) => {
            assert_eq!(type_id, 12);
            assert_eq!(name.to_string(), "StaticMethod");
            assert_eq!(arguments.tags, vec![ManagedType::Float]);
            assert_eq!(kind, ManagedType::Float);
            assert_eq!(result, vec![0, 0, 0, 0]);
            match &arguments.slots[0] {
                ArgumentSlot::Bytes(bytes) => {
                    f32::from_le_bytes([bytes[0], bytes[1], bytes[2], bytes[3]])
                }
                _ => panic!("bytes were expected"),
            }
        }
        _ => panic!("the call was expected"),
    };
    assert_eq!(given, 50.0);
    let answered = given - 10.0;
    let reply = ManagedReply::Bytes(answered.to_le_bytes().to_vec());
    match ty.invoke_static_method("StaticMethod", &Vec::new(), ManagedType::Float, Some(reply)) {
        Step::Done(NativeValue::Float(bits)) => assert_eq!(f32::from_bits(bits), 40.0),
        _ => panic!("the result was expected"),
    }
}

#[test]
fn a_method_is_invoked_with_its_arguments_packed() {
    let object = ManagedObject::new(0x7000, Arc::new(Type::from_id(12)));
    let vector: Vec<u8> = [10.0f32, 10.0, 10.0].iter().flat_map(|x| x.to_le_bytes()).collect();
    let args = vec![NativeValue::Unknown(vector.clone())];
    match object.invoke_method("Void MemberMethod(MyVec3)", &args, ManagedType::Unknown, None) {
        Step::Call(ManagedCall::InvokeMethodRet { object: address, name, arguments, kind, result }) => {
            assert_eq!(address, 0x7000);
            assert_eq!(name.to_string(), "Void MemberMethod(MyVec3)");
            assert_eq!(arguments.tags, vec![ManagedType::Unknown]);
            assert_eq!(kind, ManagedType::Unknown);
            assert!(result.is_empty());
            match &arguments.slots[0] {
                ArgumentSlot::Bytes(bytes) => assert_eq!(bytes, &vector),
                _ => panic!("bytes were expected"),
            }
        }
        _ => panic!("the call was expected"),
    }
    match object.invoke_method(
        "Void MemberMethod(MyVec3)",
        &args,
        ManagedType::Unknown,
        Some(ManagedReply::Bytes(Vec::new())),
    ) {
        Step::Done(NativeValue::Unknown(bytes)) => assert!(bytes.is_empty()),
        _ => panic!("nothing was expected back"),
    }
    assert!(matches!(
        object.invoke_method("M", &args, ManagedType::Long, Some(ManagedReply::Bytes(vec![0; 4]))),
        Step::Failed(ProtocolError::SizeMismatch)
    ));
}
