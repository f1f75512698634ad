//! The cache that makes type handles unique within a session.
//!
//! Every type identifier that comes back from the managed side is entered
//! here before a handle for it is handed out, under its qualified name and
//! under its identifier at once.

use crate::sharp_type::Type;
use crate::TypeId;
use std::collections::HashMap;
use std::sync::Arc;
use vstd::hash_map::StringHashMap;
use vstd::prelude::*;
use vstd::std_specs::hash::*;

verus! {

broadcast use {
    vstd::std_specs::hash::group_hash_axioms,
    vstd::hash_map::group_hash_map_axioms,
    crate::sharp_type::group_type_parts,
};

/// Why a lookup in the type cache failed.
#[derive(Debug, Clone, Copy, PartialEq, Eq, Structural)]
pub enum TypeCacheError {
    TypeNotFound,
}

/// The two indices of the cached types.
pub struct TypeCache {
    name_cache: StringHashMap<Arc<Type>>,
    id_cache: HashMap<TypeId, Arc<Type>>,
}

impl TypeCache {
    /// The cached types by qualified name.
    pub closed spec fn names(&self) -> Map<Seq<char>, Arc<Type>> {
        self.name_cache@
    }

    /// The cached types by identifier.
    pub closed spec fn ids(&self) -> Map<TypeId, Arc<Type>> {
        self.id_cache@
    }

    /// The two indices agree: a type stands under its own identifier, and
    /// the identifier of every type that stands under a name is cached too.
    #[verifier::type_invariant]
    closed spec fn agree(&self) -> bool {
        &&& forall|id: TypeId| #[trigger]
            self.id_cache@.contains_key(id) ==> self.id_cache@[id].spec_type_id() == id
        &&& forall|name: Seq<char>| #[trigger]
            self.name_cache@.contains_key(name) ==> self.id_cache@.contains_key(
                self.name_cache@[name].spec_type_id(),
            )
    }

    /// The handle that stands for an identifier: the one that is cached
    /// under it, or a fresh one if none is.
    pub open spec fn interned(&self, id: TypeId) -> Arc<Type> {
        if self.ids().contains_key(id) {
            self.ids()[id]
        } else {
            Arc::new(Type::spec_from_id(id))
        }
    }

    /// Whether `after` is this cache once the type `id` has been resolved
    /// under `full_name`: the name stands for the handle of the identifier,
    /// and the identifier keeps the handle that it had, or gets a fresh one
    /// if it had none.
    pub open spec fn resolves(&self, after: &TypeCache, full_name: Seq<char>, id: TypeId) -> bool {
        &&& after.names() == self.names().insert(full_name, self.interned(id))
        &&& after.ids() == if self.ids().contains_key(id) {
            self.ids()
        } else {
            self.ids().insert(id, self.interned(id))
        }
    }

    /// An empty cache.
    pub fn new() -> (cache: Self)
        ensures
            cache.names() == Map::<Seq<char>, Arc<Type>>::empty(),
            cache.ids() == Map::<TypeId, Arc<Type>>::empty(),
    {
        Self { name_cache: StringHashMap::new(), id_cache: HashMap::new() }
    }

    /// Enters a type under its qualified name and under its identifier, in
    /// place of what stood there before.
    pub fn cache_type(&mut self, full_name: String, ty: Arc<Type>)
        ensures
            final(self).names() == old(self).names().insert(full_name@, ty),
            final(self).ids() == old(self).ids().insert(ty.spec_type_id(), ty),
    {
        proof {
            use_type_invariant(&*self);
        }
        let id = ty.get_type_id();
        let mut names: StringHashMap<Arc<Type>> = StringHashMap::new();
        let mut ids: HashMap<TypeId, Arc<Type>> = HashMap::new();
        std::mem::swap(&mut self.name_cache, &mut names);
        std::mem::swap(&mut self.id_cache, &mut ids);
        ids.insert(id, ty.clone());
        names.insert(full_name, ty);
        self.id_cache = ids;
        self.name_cache = names;
    }

    /// Resolves an identifier that the managed side gave, under the
    /// qualified name of its type. There is one handle for an identifier: if
    /// the cache holds one, that one is handed out and the name is entered
    /// for it; else a fresh one is made and entered under both.
    pub fn resolve(&mut self, full_name: String, id: TypeId) -> (ty: Arc<Type>)
        ensures
            ty == old(self).interned(id),
            ty.spec_type_id() == id,
            old(self).resolves(final(self), full_name@, id),
    {
        proof {
            use_type_invariant(&*self);
        }
        let mut names: StringHashMap<Arc<Type>> = StringHashMap::new();
        let mut ids: HashMap<TypeId, Arc<Type>> = HashMap::new();
        std::mem::swap(&mut self.name_cache, &mut names);
        std::mem::swap(&mut self.id_cache, &mut ids);
        let ty = match ids.get(&id) {
            Some(known) => known.clone(),
            None => {
                let fresh = Arc::new(Type::from_id(id));
                ids.insert(id, fresh.clone());
                fresh
            },
        };
        let ghost name = full_name@;
        names.insert(full_name, ty.clone());
        proof {
            assert(ty.spec_type_id() == id);
            assert forall|other: TypeId| #[trigger] ids@.contains_key(other) implies ids@[other].spec_type_id()
                == other by {
                if other != id {
                    assert(old(self).id_cache@.contains_key(other));
                }
            }
            assert forall|other: Seq<char>| #[trigger] names@.contains_key(other) implies ids@.contains_key(
                names@[other].spec_type_id(),
            ) by {
                if other != name {
                    assert(old(self).name_cache@.contains_key(other));
                }
            }
        }
        self.id_cache = ids;
        self.name_cache = names;
        ty
    }

    /// The type that is cached under a qualified name.
    pub fn get_type_by_name(&self, name: &str) -> (found: Result<Arc<Type>, TypeCacheError>)
        ensures
            match found {
                Ok(ty) => self.names().contains_key(name@) && ty == self.names()[name@],
                Err(error) => !self.names().contains_key(name@) && error
                    == TypeCacheError::TypeNotFound,
            },
    {
        match self.name_cache.get(name) {
            Some(ty) => Ok(ty.clone()),
            None => Err(TypeCacheError::TypeNotFound),
        }
    }

    /// The type that is cached under an identifier. It has that identifier.
    pub fn get_type_by_id(&self, id: TypeId) -> (found: Result<Arc<Type>, TypeCacheError>)
        ensures
            match found {
                Ok(ty) => self.ids().contains_key(id) && ty == self.ids()[id] && ty.spec_type_id()
                    == id,
                Err(error) => !self.ids().contains_key(id) && error == TypeCacheError::TypeNotFound,
            },
    {
        proof {
            use_type_invariant(self);
        }
        match self.id_cache.get(&id) {
            Some(ty) => Ok(ty.clone()),
            None => Err(TypeCacheError::TypeNotFound),
        }
    }

    /// Forgets every cached type.
    pub fn clear(&mut self)
        ensures
            final(self).names() == Map::<Seq<char>, Arc<Type>>::empty(),
            final(self).ids() == Map::<TypeId, Arc<Type>>::empty(),
    {
        proof {
            use_type_invariant(&*self);
        }
        self.name_cache = StringHashMap::new();
        self.id_cache = HashMap::new();
    }
}

/// A type that was entered is found again, by its name and by its
/// identifier, and what is found is the handle that was entered.
pub proof fn lemma_cached_type_is_found(
    before: TypeCache,
    after: TypeCache,
    full_name: Seq<char>,
    ty: Arc<Type>,
)
    requires
        after.names() == before.names().insert(full_name, ty),
        after.ids() == before.ids().insert(ty.spec_type_id(), ty),
    ensures
        after.names().contains_key(full_name),
        after.names()[full_name] == ty,
        after.ids().contains_key(ty.spec_type_id()),
        after.ids()[ty.spec_type_id()] == ty,
{
}

/// There is one handle for an identifier: an identifier that is resolved a
/// second time, under whatever name, gets the handle that it got the first
/// time, and the cache keeps that handle under the identifier.
pub proof fn lemma_one_handle_per_id(
    before: TypeCache,
    between: TypeCache,
    after: TypeCache,
    first_name: Seq<char>,
    second_name: Seq<char>,
    id: TypeId,
)
    requires
        before.resolves(&between, first_name, id),
        between.resolves(&after, second_name, id),
    ensures
        between.interned(id) == before.interned(id),
        after.ids().contains_key(id),
        after.ids()[id] == before.interned(id),
        after.names()[first_name] == before.interned(id),
        after.names()[second_name] == before.interned(id),
        after.ids() == between.ids(),
{
}

/// A type that was loaded or looked up before is the type that a later
/// lookup hands out: resolving an identifier that the cache holds changes
/// nothing under any identifier.
pub proof fn lemma_cached_handle_is_kept(
    before: TypeCache,
    after: TypeCache,
    full_name: Seq<char>,
    id: TypeId,
)
    requires
        before.ids().contains_key(id),
        before.resolves(&after, full_name, id),
    ensures
        before.interned(id) == before.ids()[id],
        after.ids() == before.ids(),
        after.names()[full_name] == before.ids()[id],
{
}

} // verus!
