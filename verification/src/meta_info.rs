//! Handles to the members of a managed type, and to their attributes.

use crate::managed_call::{Enumeration, ManagedCall, ManagedReply, ProtocolError, Step};
use crate::managed_type::{zeroed_buffer, zeros, ManagedType, NativeValue};
use crate::sharp_type::{lazy_type_step, resolve_type, Type};
use crate::string::{before_nul, CSharpNativeString};
use crate::type_cache::TypeCache;
use crate::{ManagedHandle, TypeAccessibility, TypeId};
use std::sync::Arc;
use vstd::prelude::*;

verus! {

broadcast use crate::sharp_type::group_type_parts;

/// Whether `step` reads an accessibility from `reply`: a number of the
/// enumeration gives that accessibility, any other number is refused.
pub open spec fn reads_accessibility(step: Step<TypeAccessibility>, reply: ManagedReply) -> bool {
    match reply {
        ManagedReply::Int(raw) => if 0 <= raw <= 5 {
            step matches Step::Done(accessibility) && accessibility.spec_raw() == raw
        } else {
            step == Step::<TypeAccessibility>::Failed(ProtocolError::InvalidEnumValue)
        },
        _ => step == Step::<TypeAccessibility>::Failed(ProtocolError::UnexpectedReply),
    }
}

/// Reads an accessibility from a reply.
pub fn read_accessibility(reply: ManagedReply) -> (step: Step<TypeAccessibility>)
    ensures
        reads_accessibility(step, reply),
{
    match reply {
        ManagedReply::Int(raw) => match TypeAccessibility::from_raw(raw) {
            Some(accessibility) => Step::Done(accessibility),
            None => Step::Failed(ProtocolError::InvalidEnumValue),
        },
        _ => Step::Failed(ProtocolError::UnexpectedReply),
    }
}

/// Whether `step` hands over the native string of `reply` as it came.
pub open spec fn reads_native_string(step: Step<CSharpNativeString>, reply: ManagedReply) -> bool {
    match reply {
        ManagedReply::Text(string) => step == Step::Done(string),
        _ => step == Step::<CSharpNativeString>::Failed(ProtocolError::UnexpectedReply),
    }
}

/// Hands over the native string of a reply as it came. It belongs to the
/// receiver from then on.
pub fn read_native_string(reply: ManagedReply) -> (step: Step<CSharpNativeString>)
    ensures
        reads_native_string(step, reply),
{
    match reply {
        ManagedReply::Text(string) => Step::Done(string),
        _ => Step::Failed(ProtocolError::UnexpectedReply),
    }
}

/// An attribute that is declared on a type or on a member.
pub struct Attribute {
    handle: ManagedHandle,
    ty: Option<Arc<Type>>,
    pending: Option<TypeId>,
}

/// Whether `attributes` are fresh handles for `handles`, one for one.
pub open spec fn attributes_of(handles: Seq<ManagedHandle>, attributes: Seq<Attribute>) -> bool {
    &&& attributes.len() == handles.len()
    &&& forall|i: int|
        0 <= i < handles.len() ==> (#[trigger] attributes[i]).is_fresh(handles[i])
}

impl Attribute {
    /// The handle that the managed side knows the attribute by.
    pub closed spec fn spec_handle(&self) -> ManagedHandle {
        self.handle
    }

    /// The type of the attribute, once it has been looked up.
    pub closed spec fn resolved(&self) -> Option<Arc<Type>> {
        self.ty
    }

    /// The identifier of the type while its name is being asked for.
    pub closed spec fn pending(&self) -> Option<TypeId> {
        self.pending
    }

    /// Whether this is a fresh handle for the attribute `handle`: its type has
    /// not been looked up yet.
    pub open spec fn is_fresh(&self, handle: ManagedHandle) -> bool {
        &&& self.spec_handle() == handle
        &&& self.resolved() is None
        &&& self.pending() is None
    }

    /// A fresh handle for an attribute.
    pub fn from_handle(handle: ManagedHandle) -> (attribute: Self)
        ensures
            attribute.is_fresh(handle),
    {
        Self { handle, ty: None, pending: None }
    }

    /// Fresh handles for a list of attributes, in the order of the list.
    pub fn from_handles(handles: &Vec<ManagedHandle>) -> (attributes: Vec<Attribute>)
        ensures
            attributes_of(handles@, attributes@),
    {
        let mut attributes: Vec<Attribute> = Vec::new();
        let mut at: usize = 0;
        while at < handles.len()
            invariant
                at <= handles@.len(),
                attributes@.len() == at,
                forall|i: int| 0 <= i < at ==> (#[trigger] attributes@[i]).is_fresh(handles@[i]),
            decreases handles@.len() - at,
        {
            attributes.push(Attribute::from_handle(handles[at]));
            at += 1;
        }
        attributes
    }

    /// The handle that the managed side knows the attribute by.
    pub fn handle(&self) -> (handle: ManagedHandle)
        ensures
            handle == self.spec_handle(),
    {
        self.handle
    }

    /// The type of the attribute. It is looked up once, resolved through
    /// the cache, and kept with the handle.
    pub fn get_type(&mut self, cache: &mut TypeCache, reply: Option<ManagedReply>) -> (step: Step<
        Arc<Type>,
    >)
        ensures
            final(self).spec_handle() == old(self).spec_handle(),
            lazy_type_step(
                old(self).resolved(),
                old(self).pending(),
                *old(cache),
                ManagedCall::GetAttributeType { handle: old(self).spec_handle() },
                reply,
                final(self).resolved(),
                final(self).pending(),
                *final(cache),
                step,
            ),
    {
        let first = ManagedCall::GetAttributeType { handle: self.handle };
        resolve_type(&mut self.ty, &mut self.pending, cache, first, reply)
    }

    /// Reads a field of the attribute as a value of kind `kind`. The call
    /// carries the name as a native string and a zeroed buffer of the size of
    /// the kind.
    pub fn get_field_value(&self, name: &str, kind: ManagedType, reply: Option<ManagedReply>) -> (step:
        Step<NativeValue>)
        ensures
            match reply {
                None => step matches Step::Call(
                    ManagedCall::GetAttributeFieldValue { handle, name: field, kind: asked, result },
                ) && handle == self.spec_handle() && field@ == Some(before_nul(name@)) && asked
                    == kind && result@ == zeros(kind.spec_size()),
                Some(reply) => Step::read_value(step, reply, kind),
            },
    {
        match reply {
            None => Step::Call(
                ManagedCall::GetAttributeFieldValue {
                    handle: self.handle,
                    name: CSharpNativeString::new(name),
                    kind,
                    result: kind.zeroed(),
                },
            ),
            Some(reply) => Step::value(reply, kind),
        }
    }
}

impl Attribute {
    /// Reads a field of the attribute whose type the protocol has no tag
    /// for, as the `size` bytes of its native representation.
    pub fn get_field_value_raw(&self, name: &str, size: usize, reply: Option<ManagedReply>) -> (step:
        Step<Vec<u8>>)
        ensures
            match reply {
                None => step matches Step::Call(
                    ManagedCall::GetAttributeFieldValue { handle, name: field, kind: asked, result },
                ) && handle == self.spec_handle() && field@ == Some(before_nul(name@)) && asked
                    == ManagedType::Unknown && result@ == zeros(size as nat),
                Some(reply) => Step::read_raw(step, reply, size),
            },
    {
        match reply {
            None => Step::Call(
                ManagedCall::GetAttributeFieldValue {
                    handle: self.handle,
                    name: CSharpNativeString::new(name),
                    kind: ManagedType::Unknown,
                    result: zeroed_buffer(size),
                },
            ),
            Some(reply) => Step::raw(reply, size),
        }
    }
}

/// A copy of a list of type handles.
pub fn clone_types(types: &Vec<Arc<Type>>) -> (copy: Vec<Arc<Type>>)
    ensures
        copy@ == types@,
{
    let mut copy: Vec<Arc<Type>> = Vec::new();
    let mut at: usize = 0;
    while at < types.len()
        invariant
            at <= types@.len(),
            copy@ == types@.take(at as int),
        decreases types@.len() - at,
    {
        copy.push(types[at].clone());
        assert(types@.take(at + 1) =~= types@.take(at as int).push(types@[at as int]));
        at += 1;
    }
    assert(types@.take(at as int) =~= types@);
    copy
}

/// The lookup of the parameter types of a method: those resolved so far,
/// and the identifiers of all of them while they are being named.
struct ParameterLookup {
    types: Vec<Arc<Type>>,
    pending: Vec<TypeId>,
}

impl ParameterLookup {
    /// The parameter types are either all known, or being named in order:
    /// those named so far are the first of the pending identifiers, and one
    /// at least is still to be named.
    #[verifier::type_invariant]
    closed spec fn in_order(&self) -> bool {
        self.pending@.len() > 0 ==> {
            &&& self.types@.len() < self.pending@.len()
            &&& ids_of(self.types@) == self.pending@.take(self.types@.len() as int)
        }
    }
}

/// A method of a managed type.
pub struct MethodInfo {
    handle: ManagedHandle,
    return_type: Option<Arc<Type>>,
    pending_return: Option<TypeId>,
    parameters: ParameterLookup,
}

/// Whether `methods` are fresh handles for `handles`, one for one.
pub open spec fn methods_of(handles: Seq<ManagedHandle>, methods: Seq<MethodInfo>) -> bool {
    &&& methods.len() == handles.len()
    &&& forall|i: int|
        0 <= i < handles.len() ==> (#[trigger] methods[i]).is_fresh(handles[i])
}

/// The identifiers of a list of type handles, in the order of the list.
pub open spec fn ids_of(types: Seq<Arc<Type>>) -> Seq<TypeId> {
    types.map_values(|ty: Arc<Type>| ty.spec_type_id())
}

impl MethodInfo {
    /// The handle that the managed side knows the method by.
    pub closed spec fn spec_handle(&self) -> ManagedHandle {
        self.handle
    }

    /// The type that the method gives back, once it has been looked up.
    pub closed spec fn resolved(&self) -> Option<Arc<Type>> {
        self.return_type
    }

    /// The identifier of that type while its name is being asked for.
    pub closed spec fn pending(&self) -> Option<TypeId> {
        self.pending_return
    }

    /// The parameter types that have been resolved through the cache.
    pub closed spec fn parameters(&self) -> Seq<Arc<Type>> {
        self.parameters.types@
    }

    /// The identifiers of all the parameter types, while their names are
    /// being asked for one by one.
    pub closed spec fn pending_parameters(&self) -> Seq<TypeId> {
        self.parameters.pending@
    }

    /// Whether this is a fresh handle for the method `handle`: nothing has
    /// been looked up yet.
    pub open spec fn is_fresh(&self, handle: ManagedHandle) -> bool {
        &&& self.spec_handle() == handle
        &&& self.resolved() is None
        &&& self.pending() is None
        &&& self.parameters() == Seq::<Arc<Type>>::empty()
        &&& self.pending_parameters() == Seq::<TypeId>::empty()
    }

    /// A fresh handle for a method.
    pub fn from_handle(handle: ManagedHandle) -> (method: Self)
        ensures
            method.is_fresh(handle),
    {
        Self {
            handle,
            return_type: None,
            pending_return: None,
            parameters: ParameterLookup { types: Vec::new(), pending: Vec::new() },
        }
    }

    /// Fresh handles for a list of methods, in the order of the list.
    pub fn from_handles(handles: &Vec<ManagedHandle>) -> (methods: Vec<MethodInfo>)
        ensures
            methods_of(handles@, methods@),
    {
        let mut methods: Vec<MethodInfo> = Vec::new();
        let mut at: usize = 0;
        while at < handles.len()
            invariant
                at <= handles@.len(),
                methods@.len() == at,
                forall|i: int| 0 <= i < at ==> (#[trigger] methods@[i]).is_fresh(handles@[i]),
            decreases handles@.len() - at,
        {
            methods.push(MethodInfo::from_handle(handles[at]));
            at += 1;
        }
        methods
    }

    /// The handle that the managed side knows the method by.
    pub fn handle(&self) -> (handle: ManagedHandle)
        ensures
            handle == self.spec_handle(),
    {
        self.handle
    }

    /// Asks for the name of the method. The native string that comes back
    /// is handed over as it is.
    pub fn get_name(&self, reply: Option<ManagedReply>) -> (step: Step<CSharpNativeString>)
        ensures
            match reply {
                None => step == Step::<CSharpNativeString>::Call(
                    ManagedCall::GetMethodInfoName { handle: self.spec_handle() },
                ),
                Some(reply) => reads_native_string(step, reply),
            },
    {
        match reply {
            None => Step::Call(ManagedCall::GetMethodInfoName { handle: self.handle }),
            Some(reply) => read_native_string(reply),
        }
    }

    /// The type that the method gives back. It is looked up once,
    /// resolved through the cache, and kept with the handle.
    pub fn get_return_type(&mut self, cache: &mut TypeCache, reply: Option<ManagedReply>) -> (step:
        Step<Arc<Type>>)
        ensures
            final(self).spec_handle() == old(self).spec_handle(),
            final(self).parameters() == old(self).parameters(),
            final(self).pending_parameters() == old(self).pending_parameters(),
            lazy_type_step(
                old(self).resolved(),
                old(self).pending(),
                *old(cache),
                ManagedCall::GetMethodInfoReturnType { handle: old(self).spec_handle() },
                reply,
                final(self).resolved(),
                final(self).pending(),
                *final(cache),
                step,
            ),
    {
        let first = ManagedCall::GetMethodInfoReturnType { handle: self.handle };
        resolve_type(&mut self.return_type, &mut self.pending_return, cache, first, reply)
    }

    /// Whether `after` differs from `self` in nothing that belongs to the
    /// parameter types.
    pub open spec fn same_parameters(&self, after: &MethodInfo) -> bool {
        &&& after.parameters() == self.parameters()
        &&& after.pending_parameters() == self.pending_parameters()
    }

    /// Whether `step` is the step of the lookup of the parameter types
    /// after `reply`, which takes the handle from `self` to `after` and the
    /// cache from `cache` to `cache_after`.
    ///
    /// Parameter types that are known are handed out at once. Else the
    /// identifiers are enumerated by the two-call protocol, and each type is
    /// then named, resolved through the cache and kept, in the order of the
    /// enumeration: the handle that is kept for an identifier is the one
    /// that the cache holds for it, or a fresh one that it then holds. A
    /// method without parameters is asked anew each time.
    pub open spec fn parameter_step(
        &self,
        cache: TypeCache,
        reply: Option<ManagedReply>,
        after: &MethodInfo,
        cache_after: TypeCache,
        step: Step<Vec<Arc<Type>>>,
    ) -> bool {
        let ask = |capacity: Option<usize>|
            (ManagedCall::GetMethodInfoParameterTypes { handle: self.spec_handle(), capacity });
        match reply {
            None => if self.pending_parameters().len() == 0 && self.parameters().len() > 0 {
                &&& step matches Step::Done(known)
                &&& known@ == self.parameters()
                &&& self.same_parameters(after)
                &&& cache_after == cache
            } else {
                &&& step == Step::<Vec<Arc<Type>>>::Call(ask(None))
                &&& after.parameters().len() == 0
                &&& after.pending_parameters().len() == 0
                &&& cache_after == cache
            },
            Some(ManagedReply::Int(count)) => {
                &&& self.same_parameters(after)
                &&& cache_after == cache
                &&& if count < 0 {
                    step == Step::<Vec<Arc<Type>>>::Failed(ProtocolError::NegativeCount)
                } else {
                    step == Step::<Vec<Arc<Type>>>::Call(ask(Some(count as usize)))
                }
            },
            Some(ManagedReply::Items { items, count }) => match crate::managed_call::kept_items(
                items@,
                count,
            ) {
                Ok(kept) => {
                    &&& after.parameters().len() == 0
                    &&& cache_after == cache
                    &&& if kept.len() == 0 {
                        &&& after.pending_parameters().len() == 0
                        &&& step matches Step::Done(known)
                        &&& known@.len() == 0
                    } else {
                        &&& after.pending_parameters() == kept
                        &&& step == Step::<Vec<Arc<Type>>>::Call(
                            ManagedCall::GetFullTypeName { type_id: kept[0] },
                        )
                    }
                },
                Err(error) => {
                    &&& step == Step::<Vec<Arc<Type>>>::Failed(error)
                    &&& self.same_parameters(after)
                    &&& cache_after == cache
                },
            },
            Some(ManagedReply::Text(name)) => if self.pending_parameters().len() > 0 && name@
                is Some {
                let named = self.parameters().len() as int;
                let id = self.pending_parameters()[named];
                let ty = cache.interned(id);
                &&& cache.resolves(&cache_after, name@->0, id)
                &&& after.parameters() == self.parameters().push(ty)
                &&& if named + 1 == self.pending_parameters().len() {
                    &&& after.pending_parameters().len() == 0
                    &&& ids_of(after.parameters()) == self.pending_parameters()
                    &&& step matches Step::Done(known)
                    &&& known@ == after.parameters()
                } else {
                    &&& after.pending_parameters() == self.pending_parameters()
                    &&& step == Step::<Vec<Arc<Type>>>::Call(
                        ManagedCall::GetFullTypeName {
                            type_id: self.pending_parameters()[named + 1],
                        },
                    )
                }
            } else {
                &&& step == Step::<Vec<Arc<Type>>>::Failed(ProtocolError::UnexpectedReply)
                &&& self.same_parameters(after)
                &&& cache_after == cache
            },
            Some(_) => {
                &&& step == Step::<Vec<Arc<Type>>>::Failed(ProtocolError::UnexpectedReply)
                &&& self.same_parameters(after)
                &&& cache_after == cache
            },
        }
    }

    /// The types of the parameters of the method, in order. They are looked
    /// up once, each resolved through the cache, and kept with the handle.
    pub fn get_parameter_types(&mut self, cache: &mut TypeCache, reply: Option<ManagedReply>) -> (step:
        Step<Vec<Arc<Type>>>)
        ensures
            final(self).spec_handle() == old(self).spec_handle(),
            final(self).resolved() == old(self).resolved(),
            final(self).pending() == old(self).pending(),
            old(self).parameter_step(*old(cache), reply, final(self), *final(cache), step),
    {
        let mut lookup = ParameterLookup { types: Vec::new(), pending: Vec::new() };
        std::mem::swap(&mut self.parameters, &mut lookup);
        proof {
            use_type_invariant(&lookup);
        }
        let ParameterLookup { types, pending } = lookup;
        let mut types = types;
        match reply {
            None => {
                if pending.len() == 0 && types.len() > 0 {
                    let known = clone_types(&types);
                    self.parameters = ParameterLookup { types, pending };
                    Step::Done(known)
                } else {
                    Step::Call(
                        ManagedCall::GetMethodInfoParameterTypes {
                            handle: self.handle,
                            capacity: None,
                        },
                    )
                }
            },
            Some(ManagedReply::Text(name)) => {
                if pending.len() == 0 {
                    self.parameters = ParameterLookup { types, pending };
                    return Step::Failed(ProtocolError::UnexpectedReply);
                }
                match name.to_text() {
                    Some(full_name) => {
                        let named = types.len();
                        let ty = cache.resolve(full_name, pending[named]);
                        types.push(ty);
                        proof {
                            let ids = pending@;
                            assert(ids.take(named + 1) =~= ids.take(named as int).push(
                                ids[named as int],
                            ));
                            assert(ids_of(types@) =~= ids_of(old(self).parameters()).push(
                                ids[named as int],
                            ));
                        }
                        if named + 1 == pending.len() {
                            proof {
                                assert(pending@.take(named + 1) =~= pending@);
                            }
                            let known = clone_types(&types);
                            self.parameters = ParameterLookup { types, pending: Vec::new() };
                            Step::Done(known)
                        } else {
                            let next = pending[named + 1];
                            self.parameters = ParameterLookup { types, pending };
                            Step::Call(ManagedCall::GetFullTypeName { type_id: next })
                        }
                    },
                    None => {
                        self.parameters = ParameterLookup { types, pending };
                        Step::Failed(ProtocolError::UnexpectedReply)
                    },
                }
            },
            Some(reply) => {
                match Enumeration::step(Some(reply)) {
                    Enumeration::AskCount => {
                        self.parameters = ParameterLookup { types, pending };
                        Step::Failed(ProtocolError::UnexpectedReply)
                    },
                    Enumeration::AskItems { capacity } => {
                        self.parameters = ParameterLookup { types, pending };
                        Step::Call(
                            ManagedCall::GetMethodInfoParameterTypes {
                                handle: self.handle,
                                capacity: Some(capacity),
                            },
                        )
                    },
                    Enumeration::Done { items } => {
                        if items.len() == 0 {
                            Step::Done(Vec::new())
                        } else {
                            let first = items[0];
                            proof {
                                assert(items@.take(0) =~= Seq::<TypeId>::empty());
                                assert(ids_of(Seq::<Arc<Type>>::empty()) =~= Seq::<
                                    TypeId,
                                >::empty());
                            }
                            self.parameters = ParameterLookup { types: Vec::new(), pending: items };
                            Step::Call(ManagedCall::GetFullTypeName { type_id: first })
                        }
                    },
                    Enumeration::Failed(error) => {
                        self.parameters = ParameterLookup { types, pending };
                        Step::Failed(error)
                    },
                }
            },
        }
    }

    /// Asks who may see the method.
    pub fn get_accessibility(&self, reply: Option<ManagedReply>) -> (step: Step<TypeAccessibility>)
        ensures
            match reply {
                None => step == Step::<TypeAccessibility>::Call(
                    ManagedCall::GetMethodInfoAccessibility { handle: self.spec_handle() },
                ),
                Some(reply) => reads_accessibility(step, reply),
            },
    {
        match reply {
            None => Step::Call(ManagedCall::GetMethodInfoAccessibility { handle: self.handle }),
            Some(reply) => read_accessibility(reply),
        }
    }

    /// The attributes that are declared on the method, as fresh handles.
    /// They are asked for anew each time.
    pub fn get_attributes(&self, reply: Option<ManagedReply>) -> (step: Step<Vec<Attribute>>)
        ensures
            Step::enumerates(
                step,
                reply,
                |capacity: Option<usize>|
                    (ManagedCall::GetMethodInfoAttributes { handle: self.spec_handle(), capacity }),
                |kept: Seq<i32>, made: Vec<Attribute>| attributes_of(kept, made@),
            ),
    {
        match Enumeration::step(reply) {
            Enumeration::AskCount => Step::Call(
                ManagedCall::GetMethodInfoAttributes { handle: self.handle, capacity: None },
            ),
            Enumeration::AskItems { capacity } => Step::Call(
                ManagedCall::GetMethodInfoAttributes {
                    handle: self.handle,
                    capacity: Some(capacity),
                },
            ),
            Enumeration::Done { items } => Step::Done(Attribute::from_handles(&items)),
            Enumeration::Failed(error) => Step::Failed(error),
        }
    }
}

/// A field of a managed type.
pub struct FieldInfo {
    handle: ManagedHandle,
    ty: Option<Arc<Type>>,
    pending: Option<TypeId>,
}

/// Whether `fields` are fresh handles for `handles`, one for one.
pub open spec fn fields_of(handles: Seq<ManagedHandle>, fields: Seq<FieldInfo>) -> bool {
    &&& fields.len() == handles.len()
    &&& forall|i: int|
        0 <= i < handles.len() ==> (#[trigger] fields[i]).is_fresh(handles[i])
}

impl FieldInfo {
    /// The handle that the managed side knows the field by.
    pub closed spec fn spec_handle(&self) -> ManagedHandle {
        self.handle
    }

    /// The type of the field, once it has been looked up.
    pub closed spec fn resolved(&self) -> Option<Arc<Type>> {
        self.ty
    }

    /// The identifier of the type while its name is being asked for.
    pub closed spec fn pending(&self) -> Option<TypeId> {
        self.pending
    }

    /// Whether this is a fresh handle for the field `handle`: its type has
    /// not been looked up yet.
    pub open spec fn is_fresh(&self, handle: ManagedHandle) -> bool {
        &&& self.spec_handle() == handle
        &&& self.resolved() is None
        &&& self.pending() is None
    }

    /// A fresh handle for a field.
    pub fn from_handle(handle: ManagedHandle) -> (field: Self)
        ensures
            field.is_fresh(handle),
    {
        Self { handle, ty: None, pending: None }
    }

    /// Fresh handles for a list of fields, in the order of the list.
    pub fn from_handles(handles: &Vec<ManagedHandle>) -> (fields: Vec<FieldInfo>)
        ensures
            fields_of(handles@, fields@),
    {
        let mut fields: Vec<FieldInfo> = Vec::new();
        let mut at: usize = 0;
        while at < handles.len()
            invariant
                at <= handles@.len(),
                fields@.len() == at,
                forall|i: int| 0 <= i < at ==> (#[trigger] fields@[i]).is_fresh(handles@[i]),
            decreases handles@.len() - at,
        {
            fields.push(FieldInfo::from_handle(handles[at]));
            at += 1;
        }
        fields
    }

    /// The handle that the managed side knows the field by.
    pub fn handle(&self) -> (handle: ManagedHandle)
        ensures
            handle == self.spec_handle(),
    {
        self.handle
    }

    /// Asks for the name of the field. The native string that comes back is
    /// handed over as it is.
    pub fn get_name(&self, reply: Option<ManagedReply>) -> (step: Step<CSharpNativeString>)
        ensures
            match reply {
                None => step == Step::<CSharpNativeString>::Call(
                    ManagedCall::GetFieldInfoName { handle: self.spec_handle() },
                ),
                Some(reply) => reads_native_string(step, reply),
            },
    {
        match reply {
            None => Step::Call(ManagedCall::GetFieldInfoName { handle: self.handle }),
            Some(reply) => read_native_string(reply),
        }
    }

    /// The type of the field. It is looked up once, resolved through the
    /// cache, and kept with the handle.
    pub fn get_type(&mut self, cache: &mut TypeCache, reply: Option<ManagedReply>) -> (step: Step<
        Arc<Type>,
    >)
        ensures
            final(self).spec_handle() == old(self).spec_handle(),
            lazy_type_step(
                old(self).resolved(),
                old(self).pending(),
                *old(cache),
                ManagedCall::GetFieldInfoType { handle: old(self).spec_handle() },
                reply,
                final(self).resolved(),
                final(self).pending(),
                *final(cache),
                step,
            ),
    {
        let first = ManagedCall::GetFieldInfoType { handle: self.handle };
        resolve_type(&mut self.ty, &mut self.pending, cache, first, reply)
    }

    /// Asks who may see the field.
    pub fn get_accessibility(&self, reply: Option<ManagedReply>) -> (step: Step<TypeAccessibility>)
        ensures
            match reply {
                None => step == Step::<TypeAccessibility>::Call(
                    ManagedCall::GetFieldInfoAccessibility { handle: self.spec_handle() },
                ),
                Some(reply) => reads_accessibility(step, reply),
            },
    {
        match reply {
            None => Step::Call(ManagedCall::GetFieldInfoAccessibility { handle: self.handle }),
            Some(reply) => read_accessibility(reply),
        }
    }

    /// The attributes that are declared on the field, as fresh handles.
    /// They are asked for anew each time.
    pub fn get_attributes(&self, reply: Option<ManagedReply>) -> (step: Step<Vec<Attribute>>)
        ensures
            Step::enumerates(
                step,
                reply,
                |capacity: Option<usize>|
                    (ManagedCall::GetFieldInfoAttributes { handle: self.spec_handle(), capacity }),
                |kept: Seq<i32>, made: Vec<Attribute>| attributes_of(kept, made@),
            ),
    {
        match Enumeration::step(reply) {
            Enumeration::AskCount => Step::Call(
                ManagedCall::GetFieldInfoAttributes { handle: self.handle, capacity: None },
            ),
            Enumeration::AskItems { capacity } => Step::Call(
                ManagedCall::GetFieldInfoAttributes { handle: self.handle, capacity: Some(capacity) },
            ),
            Enumeration::Done { items } => Step::Done(Attribute::from_handles(&items)),
            Enumeration::Failed(error) => Step::Failed(error),
        }
    }
}

/// A property of a managed type.
pub struct PropertyInfo {
    handle: ManagedHandle,
    ty: Option<Arc<Type>>,
    pending: Option<TypeId>,
}

/// Whether `properties` are fresh handles for `handles`, one for one.
pub open spec fn properties_of(handles: Seq<ManagedHandle>, properties: Seq<PropertyInfo>) -> bool {
    &&& properties.len() == handles.len()
    &&& forall|i: int|
        0 <= i < handles.len() ==> (#[trigger] properties[i]).is_fresh(handles[i])
}

impl PropertyInfo {
    /// The handle that the managed side knows the property by.
    pub closed spec fn spec_handle(&self) -> ManagedHandle {
        self.handle
    }

    /// The type of the property, once it has been looked up.
    pub closed spec fn resolved(&self) -> Option<Arc<Type>> {
        self.ty
    }

    /// The identifier of the type while its name is being asked for.
    pub closed spec fn pending(&self) -> Option<TypeId> {
        self.pending
    }

    /// Whether this is a fresh handle for the property `handle`: its type has
    /// not been looked up yet.
    pub open spec fn is_fresh(&self, handle: ManagedHandle) -> bool {
        &&& self.spec_handle() == handle
        &&& self.resolved() is None
        &&& self.pending() is None
    }

    /// A fresh handle for a property.
    pub fn from_handle(handle: ManagedHandle) -> (property: Self)
        ensures
            property.is_fresh(handle),
    {
        Self { handle, ty: None, pending: None }
    }

    /// Fresh handles for a list of properties, in the order of the list.
    pub fn from_handles(handles: &Vec<ManagedHandle>) -> (properties: Vec<PropertyInfo>)
        ensures
            properties_of(handles@, properties@),
    {
        let mut properties: Vec<PropertyInfo> = Vec::new();
        let mut at: usize = 0;
        while at < handles.len()
            invariant
                at <= handles@.len(),
                properties@.len() == at,
                forall|i: int| 0 <= i < at ==> (#[trigger] properties@[i]).is_fresh(handles@[i]),
            decreases handles@.len() - at,
        {
            properties.push(PropertyInfo::from_handle(handles[at]));
            at += 1;
        }
        properties
    }

    /// The handle that the managed side knows the property by.
    pub fn handle(&self) -> (handle: ManagedHandle)
        ensures
            handle == self.spec_handle(),
    {
        self.handle
    }

    /// Asks for the name of the property. The native string that comes back
    /// is handed over as it is.
    pub fn get_name(&self, reply: Option<ManagedReply>) -> (step: Step<CSharpNativeString>)
        ensures
            match reply {
                None => step == Step::<CSharpNativeString>::Call(
                    ManagedCall::GetPropertyInfoName { handle: self.spec_handle() },
                ),
                Some(reply) => reads_native_string(step, reply),
            },
    {
        match reply {
            None => Step::Call(ManagedCall::GetPropertyInfoName { handle: self.handle }),
            Some(reply) => read_native_string(reply),
        }
    }

    /// The type of the property. It is looked up once, resolved through
    /// the cache, and kept with the handle.
    pub fn get_type(&mut self, cache: &mut TypeCache, reply: Option<ManagedReply>) -> (step: Step<
        Arc<Type>,
    >)
        ensures
            final(self).spec_handle() == old(self).spec_handle(),
            lazy_type_step(
                old(self).resolved(),
                old(self).pending(),
                *old(cache),
                ManagedCall::GetPropertyInfoType { handle: old(self).spec_handle() },
                reply,
                final(self).resolved(),
                final(self).pending(),
                *final(cache),
                step,
            ),
    {
        let first = ManagedCall::GetPropertyInfoType { handle: self.handle };
        resolve_type(&mut self.ty, &mut self.pending, cache, first, reply)
    }

    /// The attributes that are declared on the property, as fresh handles.
    /// They are asked for anew each time.
    pub fn get_attributes(&self, reply: Option<ManagedReply>) -> (step: Step<Vec<Attribute>>)
        ensures
            Step::enumerates(
                step,
                reply,
                |capacity: Option<usize>|
                    (ManagedCall::GetPropertyInfoAttributes {
                        handle: self.spec_handle(),
                        capacity,
                    }),
                |kept: Seq<i32>, made: Vec<Attribute>| attributes_of(kept, made@),
            ),
    {
        match Enumeration::step(reply) {
            Enumeration::AskCount => Step::Call(
                ManagedCall::GetPropertyInfoAttributes { handle: self.handle, capacity: None },
            ),
            Enumeration::AskItems { capacity } => Step::Call(
                ManagedCall::GetPropertyInfoAttributes {
                    handle: self.handle,
                    capacity: Some(capacity),
                },
            ),
            Enumeration::Done { items } => Step::Done(Attribute::from_handles(&items)),
            Enumeration::Failed(error) => Step::Failed(error),
        }
    }
}

} // verus!
