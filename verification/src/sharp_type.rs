//! Handles to managed types.

use crate::managed_call::{Enumeration, ManagedCall, ManagedReply, ProtocolError, Step};
use crate::managed_object::{asks_raw, asks_value, ManagedObject};
use crate::managed_type::{
    models, zeroed_buffer, ManagedType, MarshaledArguments, NativeValue,
};
use crate::meta_info::{
    attributes_of, fields_of, methods_of, properties_of, Attribute, FieldInfo, MethodInfo,
    PropertyInfo,
};
use crate::from_csharp::bool32_of;
use crate::string::CSharpNativeString;
use crate::type_cache::TypeCache;
use crate::{Bool32, TypeId};
use std::sync::Arc;
use vstd::prelude::*;
use vstd::std_specs::cmp::{PartialEqSpec, PartialEqSpecImpl};

verus! {

/// A managed type. Its identity is its identifier; its base type and its
/// element type are looked up when first asked for, and kept.
pub struct Type {
    pub(crate) id: TypeId,
    base_type: Option<Arc<Type>>,
    element_type: Option<Arc<Type>>,
    pending_base: Option<TypeId>,
    pending_element: Option<TypeId>,
}

/// One step of a lookup that is made once and kept. `resolved` is what the
/// handle keeps, `pending` the identifier that came back and whose name is
/// being asked for.
///
/// What is kept is handed out at once. Else the lookup starts with `first`,
/// which gives an identifier; it goes on to ask for the qualified name of
/// that type; and with the name it resolves the identifier through the
/// cache, keeps the handle and hands it out. That is the handle that the
/// cache holds for the identifier, if it holds one, and a fresh one that it
/// then holds, if not. Any other reply is refused and changes nothing.
pub open spec fn lazy_type_step(
    resolved: Option<Arc<Type>>,
    pending: Option<TypeId>,
    cache: TypeCache,
    first: ManagedCall,
    reply: Option<ManagedReply>,
    resolved_after: Option<Arc<Type>>,
    pending_after: Option<TypeId>,
    cache_after: TypeCache,
    step: Step<Arc<Type>>,
) -> bool {
    if resolved is Some {
        &&& step == Step::Done(resolved->0)
        &&& resolved_after == resolved
        &&& pending_after == pending
        &&& cache_after == cache
    } else {
        match reply {
            None => {
                &&& step == Step::<Arc<Type>>::Call(first)
                &&& resolved_after is None
                &&& pending_after is None
                &&& cache_after == cache
            },
            Some(ManagedReply::Int(id)) => {
                &&& step == Step::<Arc<Type>>::Call(ManagedCall::GetFullTypeName { type_id: id })
                &&& resolved_after is None
                &&& pending_after == Some(id)
                &&& cache_after == cache
            },
            Some(ManagedReply::Text(name)) => if pending is Some && name@ is Some {
                &&& step == Step::Done(cache.interned(pending->0))
                &&& resolved_after == Some(cache.interned(pending->0))
                &&& pending_after is None
                &&& cache.resolves(&cache_after, name@->0, pending->0)
            } else {
                &&& step == Step::<Arc<Type>>::Failed(ProtocolError::UnexpectedReply)
                &&& resolved_after == resolved
                &&& pending_after == pending
                &&& cache_after == cache
            },
            Some(_) => {
                &&& step == Step::<Arc<Type>>::Failed(ProtocolError::UnexpectedReply)
                &&& resolved_after == resolved
                &&& pending_after == pending
                &&& cache_after == cache
            },
        }
    }
}

/// Makes one step of a lookup that is made once and kept.
pub fn resolve_type(
    resolved: &mut Option<Arc<Type>>,
    pending: &mut Option<TypeId>,
    cache: &mut TypeCache,
    first: ManagedCall,
    reply: Option<ManagedReply>,
) -> (step: Step<Arc<Type>>)
    ensures
        lazy_type_step(
            *old(resolved),
            *old(pending),
            *old(cache),
            first,
            reply,
            *final(resolved),
            *final(pending),
            *final(cache),
            step,
        ),
{
    if let Some(kept) = resolved {
        return Step::Done(kept.clone());
    }
    match reply {
        None => {
            *pending = None;
            Step::Call(first)
        },
        Some(ManagedReply::Int(id)) => {
            *pending = Some(id);
            Step::Call(ManagedCall::GetFullTypeName { type_id: id })
        },
        Some(ManagedReply::Text(name)) => {
            match (*pending, name.to_text()) {
                (Some(id), Some(full_name)) => {
                    let ty = cache.resolve(full_name, id);
                    *resolved = Some(ty.clone());
                    *pending = None;
                    Step::Done(ty)
                },
                _ => Step::Failed(ProtocolError::UnexpectedReply),
            }
        },
        Some(_) => Step::Failed(ProtocolError::UnexpectedReply),
    }
}

impl Type {
    /// The identifier of the type.
    pub closed spec fn spec_type_id(&self) -> TypeId {
        self.id
    }

    /// The base type, once it has been looked up.
    pub closed spec fn base(&self) -> Option<Arc<Type>> {
        self.base_type
    }

    /// The element type, once it has been looked up.
    pub closed spec fn element(&self) -> Option<Arc<Type>> {
        self.element_type
    }

    /// The identifier of the base type while its name is being asked for.
    pub closed spec fn pending_base(&self) -> Option<TypeId> {
        self.pending_base
    }

    /// The identifier of the element type while its name is being asked
    /// for.
    pub closed spec fn pending(&self) -> Option<TypeId> {
        self.pending_element
    }

    /// The handle for an identifier, with nothing looked up yet.
    pub closed spec fn spec_from_id(id: TypeId) -> Type {
        Type { id, base_type: None, element_type: None, pending_base: None, pending_element: None }
    }

    /// This handle with another base type and another pending identifier
    /// of it.
    pub closed spec fn with_base(self, base: Option<Arc<Type>>, pending: Option<TypeId>) -> Type {
        Type { base_type: base, pending_base: pending, ..self }
    }

    /// This handle with another element type and another pending
    /// identifier.
    pub closed spec fn with_element(self, element: Option<Arc<Type>>, pending: Option<TypeId>) -> Type {
        Type { element_type: element, pending_element: pending, ..self }
    }

    /// What the handle for an identifier holds.
    pub broadcast proof fn lemma_from_id(id: TypeId)
        ensures
            #![trigger Type::spec_from_id(id)]
            Type::spec_from_id(id).spec_type_id() == id,
            Type::spec_from_id(id).base() is None,
            Type::spec_from_id(id).element() is None,
            Type::spec_from_id(id).pending_base() is None,
            Type::spec_from_id(id).pending() is None,
    {
    }

    /// What a handle with another base type holds.
    pub broadcast proof fn lemma_with_base(self, base: Option<Arc<Type>>, pending: Option<TypeId>)
        ensures
            #![trigger self.with_base(base, pending)]
            self.with_base(base, pending).spec_type_id() == self.spec_type_id(),
            self.with_base(base, pending).base() == base,
            self.with_base(base, pending).pending_base() == pending,
            self.with_base(base, pending).element() == self.element(),
            self.with_base(base, pending).pending() == self.pending(),
    {
    }

    /// What a handle with another element type holds.
    pub broadcast proof fn lemma_with_element(
        self,
        element: Option<Arc<Type>>,
        pending: Option<TypeId>,
    )
        ensures
            #![trigger self.with_element(element, pending)]
            self.with_element(element, pending).spec_type_id() == self.spec_type_id(),
            self.with_element(element, pending).base() == self.base(),
            self.with_element(element, pending).pending_base() == self.pending_base(),
            self.with_element(element, pending).element() == element,
            self.with_element(element, pending).pending() == pending,
    {
    }

    /// A handle that stands for no type yet: its identifier is -1.
    pub fn uninit() -> (ty: Self)
        ensures
            ty == Type::spec_from_id(-1i32),
    {
        Self { id: -1, base_type: None, element_type: None, pending_base: None, pending_element: None }
    }

    /// The handle for an identifier that the managed side gave.
    pub fn from_id(id: TypeId) -> (ty: Self)
        ensures
            ty == Type::spec_from_id(id),
    {
        Self { id, base_type: None, element_type: None, pending_base: None, pending_element: None }
    }

    /// The identifier of the type.
    pub fn get_type_id(&self) -> (id: TypeId)
        ensures
            id == self.spec_type_id(),
    {
        self.id
    }

    /// Asks for the qualified name of the type, and reads it from the reply.
    pub fn get_full_name(&self, reply: Option<ManagedReply>) -> (step: Step<String>)
        ensures
            match reply {
                None => step == Step::<String>::Call(
                    ManagedCall::GetFullTypeName { type_id: self.spec_type_id() },
                ),
                Some(reply) => Step::read_text(step, reply),
            },
    {
        match reply {
            None => Step::Call(ManagedCall::GetFullTypeName { type_id: self.id }),
            Some(reply) => Step::text(reply),
        }
    }

    /// Asks for the assembly-qualified name of the type, and reads it from
    /// the reply.
    pub fn get_assembly_qualified_name(&self, reply: Option<ManagedReply>) -> (step: Step<String>)
        ensures
            match reply {
                None => step == Step::<String>::Call(
                    ManagedCall::GetAssemblyQualifiedName { type_id: self.spec_type_id() },
                ),
                Some(reply) => Step::read_text(step, reply),
            },
    {
        match reply {
            None => Step::Call(ManagedCall::GetAssemblyQualifiedName { type_id: self.id }),
            Some(reply) => Step::text(reply),
        }
    }

    /// The base type. It is looked up once, resolved through the cache, and
    /// kept with the handle.
    pub fn get_base_type(&mut self, cache: &mut TypeCache, reply: Option<ManagedReply>) -> (step:
        Step<Arc<Type>>)
        ensures
            lazy_type_step(
                old(self).base(),
                old(self).pending_base(),
                *old(cache),
                ManagedCall::GetBaseType { type_id: old(self).spec_type_id() },
                reply,
                final(self).base(),
                final(self).pending_base(),
                *final(cache),
                step,
            ),
            *final(self) == old(self).with_base(final(self).base(), final(self).pending_base()),
    {
        let first = ManagedCall::GetBaseType { type_id: self.id };
        resolve_type(&mut self.base_type, &mut self.pending_base, cache, first, reply)
    }

    /// Asks for the size of a value of the type in bytes.
    pub fn get_size(&self, reply: Option<ManagedReply>) -> (step: Step<i32>)
        ensures
            match reply {
                None => step == Step::<i32>::Call(
                    ManagedCall::GetTypeSize { type_id: self.spec_type_id() },
                ),
                Some(reply) => step == Step::spec_finish(reply.as_int()),
            },
    {
        match reply {
            None => Step::Call(ManagedCall::GetTypeSize { type_id: self.id }),
            Some(reply) => Step::finish(reply.into_int()),
        }
    }

    /// Asks whether the type is a subclass of `other`.
    pub fn is_subclass_of(&self, other: &Self, reply: Option<ManagedReply>) -> (step: Step<bool>)
        ensures
            match reply {
                None => step == Step::<bool>::Call(
                    ManagedCall::IsTypeSubclassOf {
                        type_id: self.spec_type_id(),
                        other: other.spec_type_id(),
                    },
                ),
                Some(reply) => step == Step::spec_finish(reply.as_flag()),
            },
    {
        match reply {
            None => Step::Call(ManagedCall::IsTypeSubclassOf { type_id: self.id, other: other.id }),
            Some(reply) => Step::finish(reply.into_flag()),
        }
    }

    /// Asks whether a value of the type can be assigned to `other`.
    pub fn is_assignable_to(&self, other: &Self, reply: Option<ManagedReply>) -> (step: Step<bool>)
        ensures
            match reply {
                None => step == Step::<bool>::Call(
                    ManagedCall::IsTypeAssignableTo {
                        type_id: self.spec_type_id(),
                        other: other.spec_type_id(),
                    },
                ),
                Some(reply) => step == Step::spec_finish(reply.as_flag()),
            },
    {
        match reply {
            None => Step::Call(
                ManagedCall::IsTypeAssignableTo { type_id: self.id, other: other.id },
            ),
            Some(reply) => Step::finish(reply.into_flag()),
        }
    }

    /// Asks whether a value of `other` can be assigned to the type.
    pub fn is_assignable_from(&self, other: &Self, reply: Option<ManagedReply>) -> (step: Step<bool>)
        ensures
            match reply {
                None => step == Step::<bool>::Call(
                    ManagedCall::IsTypeAssignableFrom {
                        type_id: self.spec_type_id(),
                        other: other.spec_type_id(),
                    },
                ),
                Some(reply) => step == Step::spec_finish(reply.as_flag()),
            },
    {
        match reply {
            None => Step::Call(
                ManagedCall::IsTypeAssignableFrom { type_id: self.id, other: other.id },
            ),
            Some(reply) => Step::finish(reply.into_flag()),
        }
    }

    /// Asks whether the type carries an attribute of type `attribute_type`.
    pub fn has_attribute(&self, attribute_type: &Type, reply: Option<ManagedReply>) -> (step: Step<bool>)
        ensures
            match reply {
                None => step == Step::<bool>::Call(
                    ManagedCall::HasTypeAttribute {
                        type_id: self.spec_type_id(),
                        attribute: attribute_type.spec_type_id(),
                    },
                ),
                Some(reply) => step == Step::spec_finish(reply.as_flag()),
            },
    {
        match reply {
            None => Step::Call(
                ManagedCall::HasTypeAttribute { type_id: self.id, attribute: attribute_type.id },
            ),
            Some(reply) => Step::finish(reply.into_flag()),
        }
    }

    /// The methods of the type, as fresh handles. They are asked for anew
    /// each time.
    pub fn get_methods(&self, reply: Option<ManagedReply>) -> (step: Step<Vec<MethodInfo>>)
        ensures
            Step::enumerates(
                step,
                reply,
                |capacity: Option<usize>|
                    (ManagedCall::GetTypeMethods { type_id: self.spec_type_id(), capacity }),
                |kept: Seq<i32>, made: Vec<MethodInfo>| methods_of(kept, made@),
            ),
    {
        match Enumeration::step(reply) {
            Enumeration::AskCount => Step::Call(
                ManagedCall::GetTypeMethods { type_id: self.id, capacity: None },
            ),
            Enumeration::AskItems { capacity } => Step::Call(
                ManagedCall::GetTypeMethods { type_id: self.id, capacity: Some(capacity) },
            ),
            Enumeration::Done { items } => Step::Done(MethodInfo::from_handles(&items)),
            Enumeration::Failed(error) => Step::Failed(error),
        }
    }

    /// The fields of the type, as fresh handles. They are asked for anew
    /// each time.
    pub fn get_fields(&self, reply: Option<ManagedReply>) -> (step: Step<Vec<FieldInfo>>)
        ensures
            Step::enumerates(
                step,
                reply,
                |capacity: Option<usize>|
                    (ManagedCall::GetTypeFields { type_id: self.spec_type_id(), capacity }),
                |kept: Seq<i32>, made: Vec<FieldInfo>| fields_of(kept, made@),
            ),
    {
        match Enumeration::step(reply) {
            Enumeration::AskCount => Step::Call(
                ManagedCall::GetTypeFields { type_id: self.id, capacity: None },
            ),
            Enumeration::AskItems { capacity } => Step::Call(
                ManagedCall::GetTypeFields { type_id: self.id, capacity: Some(capacity) },
            ),
            Enumeration::Done { items } => Step::Done(FieldInfo::from_handles(&items)),
            Enumeration::Failed(error) => Step::Failed(error),
        }
    }

    /// The properties of the type, as fresh handles. They are asked for
    /// anew each time.
    pub fn get_properties(&self, reply: Option<ManagedReply>) -> (step: Step<Vec<PropertyInfo>>)
        ensures
            Step::enumerates(
                step,
                reply,
                |capacity: Option<usize>|
                    (ManagedCall::GetTypeProperties { type_id: self.spec_type_id(), capacity }),
                |kept: Seq<i32>, made: Vec<PropertyInfo>| properties_of(kept, made@),
            ),
    {
        match Enumeration::step(reply) {
            Enumeration::AskCount => Step::Call(
                ManagedCall::GetTypeProperties { type_id: self.id, capacity: None },
            ),
            Enumeration::AskItems { capacity } => Step::Call(
                ManagedCall::GetTypeProperties { type_id: self.id, capacity: Some(capacity) },
            ),
            Enumeration::Done { items } => Step::Done(PropertyInfo::from_handles(&items)),
            Enumeration::Failed(error) => Step::Failed(error),
        }
    }

    /// The attributes that are declared on the type, as fresh handles. They
    /// are asked for anew each time.
    pub fn get_attributes(&self, reply: Option<ManagedReply>) -> (step: Step<Vec<Attribute>>)
        ensures
            Step::enumerates(
                step,
                reply,
                |capacity: Option<usize>|
                    (ManagedCall::GetTypeAttributes { type_id: self.spec_type_id(), capacity }),
                |kept: Seq<i32>, made: Vec<Attribute>| attributes_of(kept, made@),
            ),
    {
        match Enumeration::step(reply) {
            Enumeration::AskCount => Step::Call(
                ManagedCall::GetTypeAttributes { type_id: self.id, capacity: None },
            ),
            Enumeration::AskItems { capacity } => Step::Call(
                ManagedCall::GetTypeAttributes { type_id: self.id, capacity: Some(capacity) },
            ),
            Enumeration::Done { items } => Step::Done(Attribute::from_handles(&items)),
            Enumeration::Failed(error) => Step::Failed(error),
        }
    }

    /// Asks for the tag that classifies values of the type. A number that
    /// stands for no tag is refused.
    pub fn get_managed_type(&self, reply: Option<ManagedReply>) -> (step: Step<ManagedType>)
        ensures
            match reply {
                None => step == Step::<ManagedType>::Call(
                    ManagedCall::GetTypeManagedType { type_id: self.spec_type_id() },
                ),
                Some(ManagedReply::Int(raw)) => if 0 <= raw <= 13 {
                    step matches Step::Done(tag) && tag.spec_raw() == raw
                } else {
                    step == Step::<ManagedType>::Failed(ProtocolError::InvalidEnumValue)
                },
                Some(_) => step == Step::<ManagedType>::Failed(ProtocolError::UnexpectedReply),
            },
    {
        match reply {
            None => Step::Call(ManagedCall::GetTypeManagedType { type_id: self.id }),
            Some(ManagedReply::Int(raw)) => match ManagedType::from_raw(raw) {
                Some(tag) => Step::Done(tag),
                None => Step::Failed(ProtocolError::InvalidEnumValue),
            },
            Some(_) => Step::Failed(ProtocolError::UnexpectedReply),
        }
    }

    /// Asks whether the type is an array of one dimension.
    pub fn is_sz_array(&self, reply: Option<ManagedReply>) -> (step: Step<bool>)
        ensures
            match reply {
                None => step == Step::<bool>::Call(
                    ManagedCall::IsTypeSZArray { type_id: self.spec_type_id() },
                ),
                Some(reply) => step == Step::spec_finish(reply.as_flag()),
            },
    {
        match reply {
            None => Step::Call(ManagedCall::IsTypeSZArray { type_id: self.id }),
            Some(reply) => Step::finish(reply.into_flag()),
        }
    }

    /// The element type of an array type. It is looked up once, resolved
    /// through the cache, and kept with the handle.
    pub fn get_element_type(&mut self, cache: &mut TypeCache, reply: Option<ManagedReply>) -> (step:
        Step<Arc<Type>>)
        ensures
            lazy_type_step(
                old(self).element(),
                old(self).pending(),
                *old(cache),
                ManagedCall::GetElementType { type_id: old(self).spec_type_id() },
                reply,
                final(self).element(),
                final(self).pending(),
                *final(cache),
                step,
            ),
            *final(self) == old(self).with_element(final(self).element(), final(self).pending()),
    {
        let first = ManagedCall::GetElementType { type_id: self.id };
        resolve_type(&mut self.element_type, &mut self.pending_element, cache, first, reply)
    }
}

/// What can be made of a managed type and invoked on it.
pub trait TypeFns {
    /// The identifier of the type that the calls are made on.
    spec fn target(&self) -> TypeId;

    /// Makes an instance of the type with a constructor that takes `args`.
    /// The call carries the arguments packed with their tags, and asks for a
    /// strong reference. The object that comes back has the address that the
    /// managed side gave and the handle that the cache holds for the type.
    fn create_instance(
        &self,
        cache: &TypeCache,
        args: &Vec<NativeValue>,
        reply: Option<ManagedReply>,
    ) -> (step: Step<ManagedObject>)
        requires
            cache.ids().contains_key(self.target()),
        ensures
            match reply {
                None => step matches Step::Call(
                    ManagedCall::CreateObject { type_id, weak, arguments },
                ) && type_id == self.target() && weak == bool32_of(false) && arguments.carries(
                    models(args@),
                ),
                Some(ManagedReply::Object(address)) => step matches Step::Done(object)
                    && object.is_at(address, Some(cache.ids()[self.target()])),
                Some(_) => step == Step::<ManagedObject>::Failed(ProtocolError::UnexpectedReply),
            },
    ;

    /// Invokes a static method of the type and reads what it gives back as
    /// a value of kind `kind`. The call carries the name as a native string,
    /// the arguments packed with their tags, and a zeroed buffer of the size
    /// of the kind.
    fn invoke_static_method(
        &self,
        name: &str,
        args: &Vec<NativeValue>,
        kind: ManagedType,
        reply: Option<ManagedReply>,
    ) -> (step: Step<NativeValue>)
        ensures
            match reply {
                None => step matches Step::Call(
                    ManagedCall::InvokeStaticMethodRet {
                        type_id,
                        name: method,
                        arguments,
                        kind: asked,
                        result,
                    },
                ) && type_id == self.target() && arguments.carries(models(args@)) && asks_value(
                    method,
                    asked,
                    result,
                    name@,
                    kind,
                ),
                Some(reply) => Step::read_value(step, reply, kind),
            },
    ;

    /// Invokes a static method of the type that gives back a value of a
    /// type that the protocol has no tag for, and reads it as the `size`
    /// bytes of its native representation.
    fn invoke_static_method_raw(
        &self,
        name: &str,
        args: &Vec<NativeValue>,
        size: usize,
        reply: Option<ManagedReply>,
    ) -> (step: Step<Vec<u8>>)
        ensures
            match reply {
                None => step matches Step::Call(
                    ManagedCall::InvokeStaticMethodRet {
                        type_id,
                        name: method,
                        arguments,
                        kind: asked,
                        result,
                    },
                ) && type_id == self.target() && arguments.carries(models(args@)) && asks_raw(
                    method,
                    asked,
                    result,
                    name@,
                    size,
                ),
                Some(reply) => Step::read_raw(step, reply, size),
            },
    ;
}

impl TypeFns for Type {
    open spec fn target(&self) -> TypeId {
        self.spec_type_id()
    }

    fn create_instance(
        &self,
        cache: &TypeCache,
        args: &Vec<NativeValue>,
        reply: Option<ManagedReply>,
    ) -> (step: Step<ManagedObject>) {
        match reply {
            None => Step::Call(
                ManagedCall::CreateObject {
                    type_id: self.id,
                    weak: Bool32::from(false),
                    arguments: MarshaledArguments::pack(args),
                },
            ),
            Some(ManagedReply::Object(address)) => {
                match cache.get_type_by_id(self.id) {
                    Ok(ty) => Step::Done(ManagedObject::new(address, ty)),
                    Err(_) => unreached(),
                }
            },
            Some(_) => Step::Failed(ProtocolError::UnexpectedReply),
        }
    }

    fn invoke_static_method(
        &self,
        name: &str,
        args: &Vec<NativeValue>,
        kind: ManagedType,
        reply: Option<ManagedReply>,
    ) -> (step: Step<NativeValue>) {
        match reply {
            None => Step::Call(
                ManagedCall::InvokeStaticMethodRet {
                    type_id: self.id,
                    name: CSharpNativeString::new(name),
                    arguments: MarshaledArguments::pack(args),
                    kind,
                    result: kind.zeroed(),
                },
            ),
            Some(reply) => Step::value(reply, kind),
        }
    }

    fn invoke_static_method_raw(
        &self,
        name: &str,
        args: &Vec<NativeValue>,
        size: usize,
        reply: Option<ManagedReply>,
    ) -> (step: Step<Vec<u8>>) {
        match reply {
            None => Step::Call(
                ManagedCall::InvokeStaticMethodRet {
                    type_id: self.id,
                    name: CSharpNativeString::new(name),
                    arguments: MarshaledArguments::pack(args),
                    kind: ManagedType::Unknown,
                    result: zeroed_buffer(size),
                },
            ),
            Some(reply) => Step::raw(reply, size),
        }
    }
}

/// What the parts of a handle are after each way of making one.
pub broadcast group group_type_parts {
    Type::lemma_from_id,
    Type::lemma_with_base,
    Type::lemma_with_element,
}

impl PartialEqSpecImpl for Type {
    open spec fn obeys_eq_spec() -> bool {
        true
    }

    open spec fn eq_spec(&self, other: &Self) -> bool {
        self.spec_type_id() == other.spec_type_id()
    }
}

impl PartialEq for Type {
    /// Two handles are equal when they have the same identifier, whatever
    /// else they keep.
    fn eq(&self, other: &Self) -> (same: bool) {
        self.id == other.id
    }
}

impl Eq for Type {

}

/// Equality of handles looks at the identifier alone: handles with one
/// identifier are equal whatever base and element types they keep, and
/// handles with different identifiers never are.
pub proof fn lemma_type_equality_is_identity(
    left: Type,
    right: Type,
    base: Option<Arc<Type>>,
    element: Option<Arc<Type>>,
    pending: Option<TypeId>,
)
    ensures
        PartialEqSpec::eq_spec(&left, &right) <==> left.spec_type_id() == right.spec_type_id(),
        PartialEqSpec::eq_spec(
            &left,
            &left.with_base(base, pending).with_element(element, pending),
        ),
{
}

/// Two lookups that come upon one identifier hand out one handle, whichever
/// members they are made for and under whatever names the type is reported:
/// the handle of the first lookup is the handle of the second, and the one
/// that the cache holds for the identifier afterwards.
pub proof fn lemma_lookups_share_a_handle(
    cache: TypeCache,
    between: TypeCache,
    after: TypeCache,
    id: TypeId,
    first_call: ManagedCall,
    first_name: CSharpNativeString,
    first_kept: Option<Arc<Type>>,
    first_pending: Option<TypeId>,
    first: Step<Arc<Type>>,
    second_call: ManagedCall,
    second_name: CSharpNativeString,
    second_kept: Option<Arc<Type>>,
    second_pending: Option<TypeId>,
    second: Step<Arc<Type>>,
)
    requires
        first_name@ is Some,
        second_name@ is Some,
        lazy_type_step(
            None,
            Some(id),
            cache,
            first_call,
            Some(ManagedReply::Text(first_name)),
            first_kept,
            first_pending,
            between,
            first,
        ),
        lazy_type_step(
            None,
            Some(id),
            between,
            second_call,
            Some(ManagedReply::Text(second_name)),
            second_kept,
            second_pending,
            after,
            second,
        ),
    ensures
        first is Done,
        second == first,
        second_kept == first_kept,
        first_kept == Some(first->Done_0),
        between.ids().contains_key(id) && between.ids()[id] == first->Done_0,
        after.ids() == between.ids(),
        cache.ids().contains_key(id) ==> first->Done_0 == cache.ids()[id] && between.ids()
            == cache.ids(),
{
}

} // verus!
