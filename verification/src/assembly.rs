//! Loaded assemblies, and the contexts that they are loaded into.

use crate::coral_managed_fns::AssemblyLoadStatus;
use crate::from_csharp::text_or_empty;
use crate::managed_call::{kept_items, ManagedCall, ManagedReply, ProtocolError, Step};
use crate::meta_info::ids_of;
use crate::sharp_type::Type;
use crate::string::{before_nul, pd_clone, pd_from_str, pd_text, pd_units, CSharpNativeString};
use crate::type_cache::{TypeCache, TypeCacheError};
use crate::{InternalCall, TypeId};
use std::sync::Arc;
use vstd::prelude::*;
use vstd::string::*;

verus! {

broadcast use crate::sharp_type::group_type_parts;

/// The name under which the managed side knows an internal call:
/// `Class+Member, Assembly`.
pub open spec fn internal_call_name(
    class_name: Seq<char>,
    variable_name: Seq<char>,
    assembly_name: Seq<char>,
) -> Seq<char> {
    class_name + seq!['+'] + variable_name + seq![',', ' '] + assembly_name
}

/// Whether `copy` holds the same bindings as `calls`, one for one: the same
/// names and the same functions.
pub open spec fn same_calls(calls: Seq<InternalCall>, copy: Seq<InternalCall>) -> bool {
    &&& copy.len() == calls.len()
    &&& forall|i: int|
        0 <= i < calls.len() ==> {
            &&& pd_text((#[trigger] copy[i]).name) == pd_text(calls[i].name)
            &&& pd_units(copy[i].name) == pd_units(calls[i].name)
            &&& copy[i].native_function_ptr == calls[i].native_function_ptr
        }
}

/// One loaded assembly: what the managed side said of it when it was loaded,
/// and the internal calls that are staged for it.
pub struct ManagedAssembly {
    assembly_id: i32,
    load_status: AssemblyLoadStatus,
    name: String,
    internal_calls: Vec<InternalCall>,
    types: Vec<Arc<Type>>,
}

impl ManagedAssembly {
    /// The identifier that the managed side gave the assembly.
    pub closed spec fn spec_id(&self) -> i32 {
        self.assembly_id
    }

    /// How the load ended.
    pub closed spec fn spec_status(&self) -> AssemblyLoadStatus {
        self.load_status
    }

    /// The name of the assembly.
    pub closed spec fn spec_name(&self) -> Seq<char> {
        self.name@
    }

    /// The types that were found in the assembly.
    pub closed spec fn spec_types(&self) -> Seq<Arc<Type>> {
        self.types@
    }

    /// The internal calls that are staged, in the order of registration.
    pub closed spec fn spec_calls(&self) -> Seq<InternalCall> {
        self.internal_calls@
    }

    /// Whether this is the assembly that a load gave: these four things, and
    /// no internal call staged yet.
    pub open spec fn is_loaded_as(
        &self,
        id: i32,
        status: AssemblyLoadStatus,
        name: Seq<char>,
        types: Seq<Arc<Type>>,
    ) -> bool {
        &&& self.spec_id() == id
        &&& self.spec_status() == status
        &&& self.spec_name() == name
        &&& self.spec_types() == types
        &&& self.spec_calls().len() == 0
    }

    /// The record of one load.
    pub fn new(assembly_id: i32, load_status: AssemblyLoadStatus, name: String, types: Vec<Arc<Type>>) -> (assembly:
        ManagedAssembly)
        ensures
            assembly.is_loaded_as(assembly_id, load_status, name@, types@),
    {
        Self { assembly_id, load_status, name, internal_calls: Vec::new(), types }
    }

    /// The identifier that the managed side gave the assembly.
    pub fn assembly_id(&self) -> (id: i32)
        ensures
            id == self.spec_id(),
    {
        self.assembly_id
    }

    /// How the load ended.
    pub fn load_status(&self) -> (status: AssemblyLoadStatus)
        ensures
            status == self.spec_status(),
    {
        self.load_status
    }

    /// The name of the assembly; empty if the load did not succeed.
    pub fn name(&self) -> (name: &String)
        ensures
            name@ == self.spec_name(),
    {
        &self.name
    }

    /// The types that were found in the assembly; none if the load did not
    /// succeed.
    pub fn types(&self) -> (types: &Vec<Arc<Type>>)
        ensures
            types@ == self.spec_types(),
    {
        &self.types
    }

    /// The internal calls that are staged.
    pub fn internal_calls(&self) -> (calls: &Vec<InternalCall>)
        ensures
            calls@ == self.spec_calls(),
    {
        &self.internal_calls
    }

    /// Stages a native function under the name `Class+Member, Assembly`, so
    /// that managed code of this assembly can call it once the staged calls
    /// are uploaded. `fn_ptr` is the address of the function. No part of the
    /// name may hold a nul character.
    pub fn add_internal_call(&mut self, class_name: &str, variable_name: &str, fn_ptr: usize)
        requires
            !class_name@.contains('\0'),
            !variable_name@.contains('\0'),
            !old(self).spec_name().contains('\0'),
        ensures
            final(self).spec_id() == old(self).spec_id(),
            final(self).spec_status() == old(self).spec_status(),
            final(self).spec_name() == old(self).spec_name(),
            final(self).spec_types() == old(self).spec_types(),
            final(self).spec_calls().len() == old(self).spec_calls().len() + 1,
            final(self).spec_calls().drop_last() == old(self).spec_calls(),
            pd_text(final(self).spec_calls().last().name) == internal_call_name(
                class_name@,
                variable_name@,
                old(self).spec_name(),
            ),
            final(self).spec_calls().last().native_function_ptr == fn_ptr,
    {
        let mut qualified = String::from_str(class_name);
        qualified.append("+");
        qualified.append(variable_name);
        qualified.append(", ");
        qualified.append(self.name.as_str());
        proof {
            reveal_strlit("+");
            reveal_strlit(", ");
            assert("+"@ =~= seq!['+']);
            assert(", "@ =~= seq![',', ' ']);
            let whole = internal_call_name(class_name@, variable_name@, self.name@);
            assert(qualified@ == whole);
            if whole.contains('\0') {
                let k = choose|k: int| 0 <= k < whole.len() && whole[k] == '\0';
                let a = class_name@.len();
                let b = a + 1 + variable_name@.len();
                if k < a {
                    assert(class_name@[k] == '\0');
                } else if k == a {
                } else if k < b {
                    assert(variable_name@[k - a - 1] == '\0');
                } else if k < b + 2 {
                } else {
                    assert(self.name@[k - b - 2] == '\0');
                }
            }
        }
        match pd_from_str(qualified.as_str()) {
            Ok(name) => {
                self.internal_calls.push(InternalCall { name, native_function_ptr: fn_ptr });
                assert(self.internal_calls@.drop_last() =~= old(self).internal_calls@);
            },
            Err(_) => unreached(),
        }
    }

    /// Hands the staged calls to the managed side: all of them, each time,
    /// in the order of registration. Managed code that calls one of them
    /// must not run before this.
    pub fn upload_internal_calls(&self, reply: Option<ManagedReply>) -> (step: Step<()>)
        ensures
            match reply {
                None => step matches Step::Call(ManagedCall::SetInternalCalls { calls })
                    && same_calls(self.spec_calls(), calls@),
                Some(reply) => step == Step::spec_finish(reply.as_unit()),
            },
    {
        match reply {
            None => {
                let mut calls: Vec<InternalCall> = Vec::new();
                let mut at: usize = 0;
                while at < self.internal_calls.len()
                    invariant
                        at <= self.internal_calls@.len(),
                        same_calls(self.internal_calls@.take(at as int), calls@),
                    decreases self.internal_calls@.len() - at,
                {
                    let call = &self.internal_calls[at];
                    calls.push(
                        InternalCall {
                            name: pd_clone(&call.name),
                            native_function_ptr: call.native_function_ptr,
                        },
                    );
                    at += 1;
                }
                assert(self.internal_calls@.take(at as int) =~= self.internal_calls@);
                Step::Call(ManagedCall::SetInternalCalls { calls })
            },
            Some(reply) => Step::finish(reply.into_unit()),
        }
    }

    /// The type that the session knows under a qualified name.
    pub fn get_type(&self, cache: &TypeCache, class_name: &str) -> (found: Result<
        Arc<Type>,
        TypeCacheError,
    >)
        ensures
            match found {
                Ok(ty) => cache.names().contains_key(class_name@) && ty == cache.names()[class_name@],
                Err(error) => !cache.names().contains_key(class_name@) && error
                    == TypeCacheError::TypeNotFound,
            },
    {
        cache.get_type_by_name(class_name)
    }
}

/// Why an assembly could not be loaded.
#[derive(Debug, Clone, Copy, PartialEq, Eq, Structural)]
pub enum AssemblyLoadError {
    FileNotFound,
}

/// Where a load stands: which reply it waits for.
#[derive(Debug, Clone, Copy, PartialEq, Eq, Structural)]
pub enum LoadStage {
    /// The identifier of the assembly.
    AssemblyId,
    /// The status of the load.
    Status,
    /// The name of the assembly.
    Name,
    /// The number of types in the assembly.
    Count,
    /// The identifiers of the types.
    Items,
    /// The qualified name of the next type.
    TypeName,
}

/// A load that is under way.
pub struct AssemblyLoad {
    stage: LoadStage,
    assembly_id: i32,
    name: String,
    ids: Vec<TypeId>,
    types: Vec<Arc<Type>>,
}

/// What a load that is under way holds, as plain data.
pub ghost struct LoadProgress {
    pub stage: LoadStage,
    pub assembly_id: i32,
    pub name: Seq<char>,
    pub ids: Seq<TypeId>,
    pub types: Seq<Arc<Type>>,
}

impl View for AssemblyLoad {
    type V = LoadProgress;

    closed spec fn view(&self) -> LoadProgress {
        LoadProgress {
            stage: self.stage,
            assembly_id: self.assembly_id,
            name: self.name@,
            ids: self.ids@,
            types: self.types@,
        }
    }
}

impl AssemblyLoad {
    /// What the load holds is in order.
    #[verifier::type_invariant]
    closed spec fn in_order(&self) -> bool {
        self@.wf()
    }
}

impl LoadProgress {
    /// A load that has just begun.
    pub open spec fn begun() -> LoadProgress {
        LoadProgress {
            stage: LoadStage::AssemblyId,
            assembly_id: 0,
            name: Seq::empty(),
            ids: Seq::empty(),
            types: Seq::empty(),
        }
    }

    /// While a load names its types, those named so far are the first of
    /// the identifiers, and one at least is still to be named.
    pub open spec fn wf(self) -> bool {
        self.stage == LoadStage::TypeName ==> {
            &&& self.types.len() < self.ids.len()
            &&& ids_of(self.types) == self.ids.take(self.types.len() as int)
        }
    }
}

/// A context that assemblies are loaded into. Releasing it unloads them all.
pub struct AssemblyLoadContext {
    context_id: i32,
    loaded_assemblies: Vec<Arc<ManagedAssembly>>,
    loading: Option<AssemblyLoad>,
}

impl AssemblyLoadContext {
    /// The identifier that the managed side gave the context.
    pub closed spec fn spec_context_id(&self) -> i32 {
        self.context_id
    }

    /// The assemblies that were loaded through the context, in order.
    pub closed spec fn loaded(&self) -> Seq<Arc<ManagedAssembly>> {
        self.loaded_assemblies@
    }

    /// The load that is under way, if there is one.
    pub closed spec fn progress(&self) -> Option<LoadProgress> {
        match self.loading {
            Some(load) => Some(load@),
            None => None,
        }
    }

    /// Whether `after` is this context with nothing changed.
    pub open spec fn unchanged(&self, after: &AssemblyLoadContext) -> bool {
        &&& after.spec_context_id() == self.spec_context_id()
        &&& after.loaded() == self.loaded()
        &&& after.progress() == self.progress()
    }

    /// Whether `after` is this context with the load at `progress`.
    pub open spec fn goes_on(&self, after: &AssemblyLoadContext, progress: LoadProgress) -> bool {
        &&& after.spec_context_id() == self.spec_context_id()
        &&& after.loaded() == self.loaded()
        &&& after.progress() == Some(progress)
    }

    /// Whether the load ends here: `after` has one assembly more, the one
    /// that `step` hands out, with this identifier, status, name and types,
    /// and no load is under way any more.
    pub open spec fn ends(
        &self,
        after: &AssemblyLoadContext,
        step: Step<Result<Arc<ManagedAssembly>, AssemblyLoadError>>,
        id: i32,
        status: AssemblyLoadStatus,
        name: Seq<char>,
        types: Seq<Arc<Type>>,
    ) -> bool {
        &&& after.spec_context_id() == self.spec_context_id()
        &&& after.progress() is None
        &&& step matches Step::Done(Ok(assembly))
        &&& assembly.is_loaded_as(id, status, name, types)
        &&& after.loaded() == self.loaded().push(assembly)
    }

    /// Whether `step` is the step of a load after `reply`, which takes the
    /// context from `self` to `after` and the cache from `cache` to
    /// `cache_after`. `begins` says whether a call is the one that starts
    /// the load.
    ///
    /// Without a reply a load starts, whatever stood before. It then asks in
    /// turn for the identifier of the assembly and for the status of the
    /// load. Unless the status is `Success` the load ends there, with an
    /// assembly that has that status, an empty name and no types: it is
    /// handed out all the same, never an error. After `Success` the load asks
    /// for the name of the assembly, enumerates its types by the two-call
    /// protocol, and names each type and resolves it through the cache, in
    /// the order of the enumeration: the handle that the assembly gets for an
    /// identifier is the one that the cache holds for it, or a fresh one
    /// that it then holds. A reply that does not fit the stage is
    /// refused and changes nothing.
    pub open spec fn load_step(
        &self,
        cache: TypeCache,
        begins: spec_fn(ManagedCall) -> bool,
        reply: Option<ManagedReply>,
        after: &AssemblyLoadContext,
        cache_after: TypeCache,
        step: Step<Result<Arc<ManagedAssembly>, AssemblyLoadError>>,
    ) -> bool {
        let refused = |error: ProtocolError|
            {
                &&& step == Step::<Result<Arc<ManagedAssembly>, AssemblyLoadError>>::Failed(error)
                &&& self.unchanged(after)
                &&& cache_after == cache
            };
        let asks = |call: ManagedCall, progress: LoadProgress|
            {
                &&& step == Step::<Result<Arc<ManagedAssembly>, AssemblyLoadError>>::Call(call)
                &&& self.goes_on(after, progress)
                &&& cache_after == cache
            };
        match (reply, self.progress()) {
            (None, _) => {
                &&& step matches Step::Call(call)
                &&& begins(call)
                &&& self.goes_on(after, LoadProgress::begun())
                &&& cache_after == cache
            },
            (Some(_), None) => refused(ProtocolError::UnexpectedReply),
            (Some(reply), Some(progress)) => match (progress.stage, reply) {
                (LoadStage::AssemblyId, ManagedReply::Int(id)) => asks(
                    ManagedCall::GetLastLoadStatus,
                    LoadProgress { stage: LoadStage::Status, assembly_id: id, ..progress },
                ),
                (LoadStage::Status, ManagedReply::Int(raw)) => if !(0 <= raw <= 5) {
                    refused(ProtocolError::InvalidEnumValue)
                } else if raw != 0 {
                    &&& cache_after == cache
                    &&& exists|status: AssemblyLoadStatus|
                        status.spec_raw() == raw && #[trigger] self.ends(
                            after,
                            step,
                            progress.assembly_id,
                            status,
                            Seq::empty(),
                            Seq::empty(),
                        )
                } else {
                    asks(
                        ManagedCall::GetAssemblyName { assembly_id: progress.assembly_id },
                        LoadProgress { stage: LoadStage::Name, ..progress },
                    )
                },
                (LoadStage::Name, ManagedReply::Text(name)) => asks(
                    ManagedCall::GetAssemblyTypes {
                        assembly_id: progress.assembly_id,
                        capacity: None,
                    },
                    LoadProgress {
                        stage: LoadStage::Count,
                        name: text_or_empty(name@),
                        ..progress
                    },
                ),
                (LoadStage::Count, ManagedReply::Int(count)) => if count < 0 {
                    refused(ProtocolError::NegativeCount)
                } else {
                    asks(
                        ManagedCall::GetAssemblyTypes {
                            assembly_id: progress.assembly_id,
                            capacity: Some(count as usize),
                        },
                        LoadProgress { stage: LoadStage::Items, ..progress },
                    )
                },
                (LoadStage::Items, ManagedReply::Items { items, count }) => match kept_items(
                    items@,
                    count,
                ) {
                    Err(error) => refused(error),
                    Ok(kept) => if kept.len() == 0 {
                        &&& cache_after == cache
                        &&& self.ends(
                            after,
                            step,
                            progress.assembly_id,
                            AssemblyLoadStatus::Success,
                            progress.name,
                            Seq::empty(),
                        )
                    } else {
                        asks(
                            ManagedCall::GetFullTypeName { type_id: kept[0] },
                            LoadProgress {
                                stage: LoadStage::TypeName,
                                ids: kept,
                                types: Seq::empty(),
                                ..progress
                            },
                        )
                    },
                },
                (LoadStage::TypeName, ManagedReply::Text(name)) => if name@ is None {
                    refused(ProtocolError::UnexpectedReply)
                } else {
                    let named = progress.types.len() as int;
                    let id = progress.ids[named];
                    let ty = cache.interned(id);
                    &&& cache.resolves(&cache_after, name@->0, id)
                    &&& if named + 1 == progress.ids.len() {
                        &&& self.ends(
                            after,
                            step,
                            progress.assembly_id,
                            AssemblyLoadStatus::Success,
                            progress.name,
                            progress.types.push(ty),
                        )
                        &&& ids_of(progress.types.push(ty)) == progress.ids
                    } else {
                        &&& step == Step::<
                            Result<Arc<ManagedAssembly>, AssemblyLoadError>,
                        >::Call(ManagedCall::GetFullTypeName { type_id: progress.ids[named + 1] })
                        &&& self.goes_on(
                            after,
                            LoadProgress { types: progress.types.push(ty), ..progress },
                        )
                    }
                },
                _ => refused(ProtocolError::UnexpectedReply),
            },
        }
    }

    /// A context with the identifier that the managed side gave for it, and
    /// nothing loaded yet.
    pub fn new(context_id: i32) -> (context: Self)
        ensures
            context.spec_context_id() == context_id,
            context.loaded() == Seq::<Arc<ManagedAssembly>>::empty(),
            context.progress() is None,
    {
        Self { context_id, loaded_assemblies: Vec::new(), loading: None }
    }

    /// The identifier that the managed side gave the context.
    pub fn context_id(&self) -> (id: i32)
        ensures
            id == self.spec_context_id(),
    {
        self.context_id
    }

    /// The assemblies that were loaded through the context, in order.
    pub fn loaded_assemblies(&self) -> (assemblies: &Vec<Arc<ManagedAssembly>>)
        ensures
            assemblies@ == self.loaded(),
    {
        &self.loaded_assemblies
    }

    /// Ends the load that is under way with an assembly made of what was
    /// learned.
    fn finish(
        &mut self,
        status: AssemblyLoadStatus,
        name: String,
        types: Vec<Arc<Type>>,
        assembly_id: i32,
    ) -> (step: Step<Result<Arc<ManagedAssembly>, AssemblyLoadError>>)
        ensures
            old(self).ends(final(self), step, assembly_id, status, name@, types@),
    {
        let assembly = Arc::new(ManagedAssembly::new(assembly_id, status, name, types));
        self.loaded_assemblies.push(assembly.clone());
        self.loading = None;
        Step::Done(Ok(assembly))
    }

    /// Makes one step of a load that has begun.
    fn advance(&mut self, cache: &mut TypeCache, reply: ManagedReply) -> (step: Step<
        Result<Arc<ManagedAssembly>, AssemblyLoadError>,
    >)
        ensures
            old(self).load_step(
                *old(cache),
                |call: ManagedCall| false,
                Some(reply),
                final(self),
                *final(cache),
                step,
            ),
    {
        let load = match self.loading.take() {
            Some(load) => load,
            None => {
                return Step::Failed(ProtocolError::UnexpectedReply);
            },
        };
        let ghost progress = load@;
        proof {
            use_type_invariant(&load);
        }
        let AssemblyLoad { stage, assembly_id, name, ids, types } = load;
        match (stage, reply) {
            (LoadStage::AssemblyId, ManagedReply::Int(id)) => {
                self.loading = Some(
                    AssemblyLoad { stage: LoadStage::Status, assembly_id: id, name, ids, types },
                );
                Step::Call(ManagedCall::GetLastLoadStatus)
            },
            (LoadStage::Status, ManagedReply::Int(raw)) => {
                match AssemblyLoadStatus::from_raw(raw) {
                    None => {
                        self.loading = Some(AssemblyLoad { stage, assembly_id, name, ids, types });
                        Step::Failed(ProtocolError::InvalidEnumValue)
                    },
                    Some(AssemblyLoadStatus::Success) => {
                        self.loading = Some(
                            AssemblyLoad { stage: LoadStage::Name, assembly_id, name, ids, types },
                        );
                        Step::Call(ManagedCall::GetAssemblyName { assembly_id })
                    },
                    Some(status) => {
                        let step = self.finish(status, String::new(), Vec::new(), assembly_id);
                        assert(old(self).ends(
                            self,
                            step,
                            progress.assembly_id,
                            status,
                            Seq::empty(),
                            Seq::empty(),
                        ));
                        step
                    },
                }
            },
            (LoadStage::Name, ManagedReply::Text(text)) => {
                let read = match text.to_text() {
                    Some(read) => read,
                    None => String::new(),
                };
                self.loading = Some(
                    AssemblyLoad { stage: LoadStage::Count, assembly_id, name: read, ids, types },
                );
                Step::Call(ManagedCall::GetAssemblyTypes { assembly_id, capacity: None })
            },
            (LoadStage::Count, ManagedReply::Int(count)) => {
                if count < 0 {
                    self.loading = Some(AssemblyLoad { stage, assembly_id, name, ids, types });
                    Step::Failed(ProtocolError::NegativeCount)
                } else {
                    self.loading = Some(
                        AssemblyLoad { stage: LoadStage::Items, assembly_id, name, ids, types },
                    );
                    Step::Call(
                        ManagedCall::GetAssemblyTypes {
                            assembly_id,
                            capacity: Some(count as usize),
                        },
                    )
                }
            },
            (LoadStage::Items, ManagedReply::Items { items, count }) => {
                if count < 0 {
                    self.loading = Some(AssemblyLoad { stage, assembly_id, name, ids, types });
                    Step::Failed(ProtocolError::NegativeCount)
                } else if count as usize > items.len() {
                    self.loading = Some(AssemblyLoad { stage, assembly_id, name, ids, types });
                    Step::Failed(ProtocolError::CountExceedsCapacity)
                } else {
                    let mut kept = items;
                    kept.truncate(count as usize);
                    if kept.len() == 0 {
                        self.finish(AssemblyLoadStatus::Success, name, Vec::new(), assembly_id)
                    } else {
                        let first = kept[0];
                        proof {
                            assert(kept@.take(0) =~= Seq::<TypeId>::empty());
                            assert(ids_of(Seq::<Arc<Type>>::empty()) =~= Seq::<TypeId>::empty());
                        }
                        self.loading = Some(
                            AssemblyLoad {
                                stage: LoadStage::TypeName,
                                assembly_id,
                                name,
                                ids: kept,
                                types: Vec::new(),
                            },
                        );
                        Step::Call(ManagedCall::GetFullTypeName { type_id: first })
                    }
                }
            },
            (LoadStage::TypeName, ManagedReply::Text(text)) => {
                match text.to_text() {
                    None => {
                        self.loading = Some(AssemblyLoad { stage, assembly_id, name, ids, types });
                        Step::Failed(ProtocolError::UnexpectedReply)
                    },
                    Some(full_name) => {
                        let named = types.len();
                        let total = ids.len();
                        let ty = cache.resolve(full_name, ids[named]);
                        let mut types = types;
                        types.push(ty);
                        proof {
                            let all = progress.ids;
                            assert(all.take(named + 1) =~= all.take(named as int).push(
                                all[named as int],
                            ));
                            assert(ids_of(types@) =~= ids_of(progress.types).push(
                                all[named as int],
                            ));
                        }
                        if named + 1 == total {
                            proof {
                                assert(progress.ids.take(named + 1) =~= progress.ids);
                            }
                            self.finish(AssemblyLoadStatus::Success, name, types, assembly_id)
                        } else {
                            let next = ids[named + 1];
                            self.loading = Some(
                                AssemblyLoad { stage, assembly_id, name, ids, types },
                            );
                            Step::Call(ManagedCall::GetFullTypeName { type_id: next })
                        }
                    },
                }
            },
            (stage, _) => {
                self.loading = Some(AssemblyLoad { stage, assembly_id, name, ids, types });
                Step::Failed(ProtocolError::UnexpectedReply)
            },
        }
    }

    /// Loads the assembly at `path` into the context. The first call
    /// carries the identifier of the context and the path as a native
    /// string.
    pub fn load_assembly(&mut self, cache: &mut TypeCache, path: &str, reply: Option<ManagedReply>) -> (step:
        Step<Result<Arc<ManagedAssembly>, AssemblyLoadError>>)
        ensures
            old(self).load_step(
                *old(cache),
                |call: ManagedCall|
                    call matches ManagedCall::LoadAssembly { context_id, path: sent } && context_id
                        == old(self).spec_context_id() && sent@ == Some(before_nul(path@)),
                reply,
                final(self),
                *final(cache),
                step,
            ),
    {
        match reply {
            None => {
                self.loading = Some(Self::begin());
                Step::Call(
                    ManagedCall::LoadAssembly {
                        context_id: self.context_id,
                        path: CSharpNativeString::new(path),
                    },
                )
            },
            Some(reply) => self.advance(cache, reply),
        }
    }

    /// Loads an assembly from its bytes into the context. The first call
    /// carries the identifier of the context and the bytes.
    pub fn load_assembly_from_memory(
        &mut self,
        cache: &mut TypeCache,
        bytes: &Vec<u8>,
        reply: Option<ManagedReply>,
    ) -> (step: Step<Result<Arc<ManagedAssembly>, AssemblyLoadError>>)
        ensures
            old(self).load_step(
                *old(cache),
                |call: ManagedCall|
                    call matches ManagedCall::LoadAssemblyFromMemory { context_id, bytes: sent }
                        && context_id == old(self).spec_context_id() && sent@ == bytes@,
                reply,
                final(self),
                *final(cache),
                step,
            ),
    {
        match reply {
            None => {
                self.loading = Some(Self::begin());
                Step::Call(
                    ManagedCall::LoadAssemblyFromMemory {
                        context_id: self.context_id,
                        bytes: bytes.clone(),
                    },
                )
            },
            Some(reply) => self.advance(cache, reply),
        }
    }

    /// A load that has just begun.
    fn begin() -> (load: AssemblyLoad)
        ensures
            load@ == LoadProgress::begun(),
    {
        AssemblyLoad {
            stage: LoadStage::AssemblyId,
            assembly_id: 0,
            name: String::new(),
            ids: Vec::new(),
            types: Vec::new(),
        }
    }
}

} // verus!
