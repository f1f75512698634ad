//! Handles to live managed objects.

use crate::managed_call::{ManagedCall, ManagedReply, ProtocolError, Step};
use crate::managed_type::{
    models, zeroed_buffer, zeros, ArgumentSlot, ManagedType, MarshaledArguments, NativeModel,
    NativeValue,
};
use crate::sharp_type::{lazy_type_step, resolve_type, Type};
use crate::string::{before_nul, CSharpNativeString};
use crate::type_cache::TypeCache;
use crate::TypeId;
use std::sync::Arc;
use vstd::prelude::*;

verus! {

/// A managed object, known by the address that the managed side gave for it.
/// The address 0 is the null handle: an object with it stands for no object
/// yet. An object is released by `destroy`, never by itself.
pub struct ManagedObject {
    handle: usize,
    ty: Option<Arc<Type>>,
    pending: Option<TypeId>,
}

/// Whether `call` sets a field or a property: it carries the address of the
/// object, the name as a native string, and the slot of the value.
pub open spec fn carries_value(
    object: usize,
    name: CSharpNativeString,
    value: ArgumentSlot,
    of: &ManagedObject,
    member: Seq<char>,
    given: NativeModel,
) -> bool {
    &&& object == of.spec_handle()
    &&& name@ == Some(before_nul(member))
    &&& value.holds(given)
}

/// Whether `call` asks for a value of kind `kind`: it carries the name as a
/// native string and a zeroed buffer of the size of the kind.
pub open spec fn asks_value(
    name: CSharpNativeString,
    asked: ManagedType,
    result: Vec<u8>,
    member: Seq<char>,
    kind: ManagedType,
) -> bool {
    &&& name@ == Some(before_nul(member))
    &&& asked == kind
    &&& result@ == zeros(kind.spec_size())
}

/// Whether `call` asks for a value of `size` bytes, of a type that the
/// protocol has no tag for: it carries the name as a native string, the tag
/// `Unknown` and a zeroed buffer of that size.
pub open spec fn asks_raw(
    name: CSharpNativeString,
    asked: ManagedType,
    result: Vec<u8>,
    member: Seq<char>,
    size: usize,
) -> bool {
    &&& name@ == Some(before_nul(member))
    &&& asked == ManagedType::Unknown
    &&& result@ == zeros(size as nat)
}

impl ManagedObject {
    /// The address of the object.
    pub closed spec fn spec_handle(&self) -> usize {
        self.handle
    }

    /// The type of the object, once it is known.
    pub closed spec fn resolved(&self) -> Option<Arc<Type>> {
        self.ty
    }

    /// The identifier of the type while its name is being asked for.
    pub closed spec fn pending(&self) -> Option<TypeId> {
        self.pending
    }

    /// Whether this is the object at the address `handle`, of the type `ty`
    /// or of none yet, with no lookup under way.
    pub open spec fn is_at(&self, handle: usize, ty: Option<Arc<Type>>) -> bool {
        &&& self.spec_handle() == handle
        &&& self.resolved() == ty
        &&& self.pending() is None
    }

    /// An object that stands for none yet: a null handle and no type.
    pub fn uninit() -> (object: Self)
        ensures
            object.is_at(0, None),
    {
        Self { handle: 0, ty: None, pending: None }
    }

    /// The object at an address that the managed side gave, of a type that
    /// is known already.
    pub fn new(handle: usize, ty: Arc<Type>) -> (object: Self)
        ensures
            object.is_at(handle, Some(ty)),
    {
        Self { handle, ty: Some(ty), pending: None }
    }

    /// The address of the object.
    pub fn handle(&self) -> (handle: usize)
        ensures
            handle == self.spec_handle(),
    {
        self.handle
    }

    /// The type of the object. It is looked up once, resolved through the
    /// cache, and kept with the handle.
    pub fn get_type(&mut self, cache: &mut TypeCache, reply: Option<ManagedReply>) -> (step: Step<
        Arc<Type>,
    >)
        ensures
            final(self).spec_handle() == old(self).spec_handle(),
            lazy_type_step(
                old(self).resolved(),
                old(self).pending(),
                *old(cache),
                ManagedCall::GetObjectTypeId { object: old(self).spec_handle() },
                reply,
                final(self).resolved(),
                final(self).pending(),
                *final(cache),
                step,
            ),
    {
        let first = ManagedCall::GetObjectTypeId { object: self.handle };
        resolve_type(&mut self.ty, &mut self.pending, cache, first, reply)
    }

    /// The call that releases the object on the managed side. It takes the
    /// object, so that an object is released once and not used after. An
    /// object with a null handle has nothing to release: there is no call
    /// for it.
    pub fn destroy(self) -> (call: Option<ManagedCall>)
        ensures
            call == if self.spec_handle() == 0 {
                None
            } else {
                Some(ManagedCall::DestroyObject { object: self.spec_handle() })
            },
    {
        if self.handle == 0 {
            return None;
        }
        Some(ManagedCall::DestroyObject { object: self.handle })
    }

    /// Whether the handle is not null and the type is known.
    pub fn is_valid(&self) -> (valid: bool)
        ensures
            valid == (self.spec_handle() != 0 && self.resolved() is Some),
    {
        self.handle != 0 && self.ty.is_some()
    }

    /// Sets a field of the object. The call carries the name as a native
    /// string and the value in its slot.
    pub fn set_field_value(&self, name: &str, value: &NativeValue, reply: Option<ManagedReply>) -> (step:
        Step<()>)
        ensures
            match reply {
                None => step matches Step::Call(
                    ManagedCall::SetFieldValue { object, name: member, value: slot },
                ) && carries_value(object, member, slot, self, name@, value@),
                Some(reply) => step == Step::spec_finish(reply.as_unit()),
            },
    {
        match reply {
            None => Step::Call(
                ManagedCall::SetFieldValue {
                    object: self.handle,
                    name: CSharpNativeString::new(name),
                    value: value.to_slot(),
                },
            ),
            Some(reply) => Step::finish(reply.into_unit()),
        }
    }

    /// Reads a field of the object as a value of kind `kind`. The call
    /// carries the name as a native string and a zeroed buffer of the size of
    /// the kind.
    pub fn get_field_value(&self, name: &str, kind: ManagedType, reply: Option<ManagedReply>) -> (step:
        Step<NativeValue>)
        ensures
            match reply {
                None => step matches Step::Call(
                    ManagedCall::GetFieldValue { object, name: member, kind: asked, result },
                ) && object == self.spec_handle() && asks_value(member, asked, result, name@, kind),
                Some(reply) => Step::read_value(step, reply, kind),
            },
    {
        match reply {
            None => Step::Call(
                ManagedCall::GetFieldValue {
                    object: self.handle,
                    name: CSharpNativeString::new(name),
                    kind,
                    result: kind.zeroed(),
                },
            ),
            Some(reply) => Step::value(reply, kind),
        }
    }

    /// Reads a field of the object whose type the protocol has no tag for,
    /// as the `size` bytes of its native representation.
    pub fn get_field_value_raw(&self, name: &str, size: usize, reply: Option<ManagedReply>) -> (step:
        Step<Vec<u8>>)
        ensures
            match reply {
                None => step matches Step::Call(
                    ManagedCall::GetFieldValue { object, name: member, kind: asked, result },
                ) && object == self.spec_handle() && asks_raw(member, asked, result, name@, size),
                Some(reply) => Step::read_raw(step, reply, size),
            },
    {
        match reply {
            None => Step::Call(
                ManagedCall::GetFieldValue {
                    object: self.handle,
                    name: CSharpNativeString::new(name),
                    kind: ManagedType::Unknown,
                    result: zeroed_buffer(size),
                },
            ),
            Some(reply) => Step::raw(reply, size),
        }
    }

    /// Sets a property of the object. The call carries the name as a native
    /// string and the value in its slot.
    pub fn set_property_value(&self, name: &str, value: &NativeValue, reply: Option<ManagedReply>) -> (step:
        Step<()>)
        ensures
            match reply {
                None => step matches Step::Call(
                    ManagedCall::SetPropertyValue { object, name: member, value: slot },
                ) && carries_value(object, member, slot, self, name@, value@),
                Some(reply) => step == Step::spec_finish(reply.as_unit()),
            },
    {
        match reply {
            None => Step::Call(
                ManagedCall::SetPropertyValue {
                    object: self.handle,
                    name: CSharpNativeString::new(name),
                    value: value.to_slot(),
                },
            ),
            Some(reply) => Step::finish(reply.into_unit()),
        }
    }

    /// Reads a property of the object as a value of kind `kind`. The call
    /// carries the name as a native string and a zeroed buffer of the size of
    /// the kind.
    pub fn get_property_value(&self, name: &str, kind: ManagedType, reply: Option<ManagedReply>) -> (step:
        Step<NativeValue>)
        ensures
            match reply {
                None => step matches Step::Call(
                    ManagedCall::GetPropertyValue { object, name: member, kind: asked, result },
                ) && object == self.spec_handle() && asks_value(member, asked, result, name@, kind),
                Some(reply) => Step::read_value(step, reply, kind),
            },
    {
        match reply {
            None => Step::Call(
                ManagedCall::GetPropertyValue {
                    object: self.handle,
                    name: CSharpNativeString::new(name),
                    kind,
                    result: kind.zeroed(),
                },
            ),
            Some(reply) => Step::value(reply, kind),
        }
    }

    /// Reads a property of the object whose type the protocol has no tag
    /// for, as the `size` bytes of its native representation.
    pub fn get_property_value_raw(&self, name: &str, size: usize, reply: Option<ManagedReply>) -> (step:
        Step<Vec<u8>>)
        ensures
            match reply {
                None => step matches Step::Call(
                    ManagedCall::GetPropertyValue { object, name: member, kind: asked, result },
                ) && object == self.spec_handle() && asks_raw(member, asked, result, name@, size),
                Some(reply) => Step::read_raw(step, reply, size),
            },
    {
        match reply {
            None => Step::Call(
                ManagedCall::GetPropertyValue {
                    object: self.handle,
                    name: CSharpNativeString::new(name),
                    kind: ManagedType::Unknown,
                    result: zeroed_buffer(size),
                },
            ),
            Some(reply) => Step::raw(reply, size),
        }
    }
}

/// What can be invoked on a managed object.
pub trait ManagedObjectFns {
    /// The address of the object that the calls are made on.
    spec fn target(&self) -> usize;

    /// Invokes a method of the object and reads what it gives back as a
    /// value of kind `kind`. The call carries the name as a native string,
    /// the arguments packed with their tags, and a zeroed buffer of the size
    /// of the kind.
    fn invoke_method(
        &self,
        name: &str,
        args: &Vec<NativeValue>,
        kind: ManagedType,
        reply: Option<ManagedReply>,
    ) -> (step: Step<NativeValue>)
        ensures
            match reply {
                None => step matches Step::Call(
                    ManagedCall::InvokeMethodRet {
                        object,
                        name: method,
                        arguments,
                        kind: asked,
                        result,
                    },
                ) && object == self.target() && arguments.carries(models(args@)) && asks_value(
                    method,
                    asked,
                    result,
                    name@,
                    kind,
                ),
                Some(reply) => Step::read_value(step, reply, kind),
            },
    ;

    /// Invokes a method of the object that gives back a value of a type that
    /// the protocol has no tag for, and reads it as the `size` bytes of its
    /// native representation.
    fn invoke_method_raw(
        &self,
        name: &str,
        args: &Vec<NativeValue>,
        size: usize,
        reply: Option<ManagedReply>,
    ) -> (step: Step<Vec<u8>>)
        ensures
            match reply {
                None => step matches Step::Call(
                    ManagedCall::InvokeMethodRet {
                        object,
                        name: method,
                        arguments,
                        kind: asked,
                        result,
                    },
                ) && object == self.target() && arguments.carries(models(args@)) && asks_raw(
                    method,
                    asked,
                    result,
                    name@,
                    size,
                ),
                Some(reply) => Step::read_raw(step, reply, size),
            },
    ;
}

impl ManagedObjectFns for ManagedObject {
    open spec fn target(&self) -> usize {
        self.spec_handle()
    }

    fn invoke_method(
        &self,
        name: &str,
        args: &Vec<NativeValue>,
        kind: ManagedType,
        reply: Option<ManagedReply>,
    ) -> (step: Step<NativeValue>) {
        match reply {
            None => Step::Call(
                ManagedCall::InvokeMethodRet {
                    object: self.handle,
                    name: CSharpNativeString::new(name),
                    arguments: MarshaledArguments::pack(args),
                    kind,
                    result: kind.zeroed(),
                },
            ),
            Some(reply) => Step::value(reply, kind),
        }
    }

    fn invoke_method_raw(
        &self,
        name: &str,
        args: &Vec<NativeValue>,
        size: usize,
        reply: Option<ManagedReply>,
    ) -> (step: Step<Vec<u8>>) {
        match reply {
            None => Step::Call(
                ManagedCall::InvokeMethodRet {
                    object: self.handle,
                    name: CSharpNativeString::new(name),
                    arguments: MarshaledArguments::pack(args),
                    kind: ManagedType::Unknown,
                    result: zeroed_buffer(size),
                },
            ),
            Some(reply) => Step::raw(reply, size),
        }
    }
}

} // verus!
