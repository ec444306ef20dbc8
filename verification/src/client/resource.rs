//! Values that the client owns on behalf of its handlers, one per type.
use crate::external::{
    stored_types, type_map_contains, type_map_get, type_map_get_mut, type_map_insert, type_map_new,
    type_map_remove, TypeMap,
};
use std::any::TypeId;
use vstd::prelude::*;

verus! {

/// A type-erased container of values owned by the client. Handlers request
/// them by type via `Res<T>` in their signature.
///
/// Values are keyed by their type, so at most one value of each concrete
/// type may be registered.
pub struct Resources {
    map: TypeMap,
}

impl Resources {
    /// The identifiers of the types of which a value is registered.
    pub closed spec fn types(&self) -> Set<TypeId> {
        stored_types(self.map)
    }

    /// An empty container.
    pub fn new() -> (r: Self)
        ensures
            r.types() == Set::<TypeId>::empty(),
    {
        Resources { map: type_map_new() }
    }

    /// Registers `value`, replacing any previous value of the same type:
    /// afterwards the types registered are those before, and `T`.
    pub fn insert<T: Send + Sync + 'static>(&mut self, value: T)
        ensures
            exists|key: TypeId| final(self).types() == old(self).types().insert(key),
    {
        let key = type_map_insert(&mut self.map, value);
        assert(self.types() == old(self).types().insert(key));
    }

    /// Removes and returns the value of type `T`, if any: a value comes back
    /// exactly where one of the type was registered, and afterwards none is.
    pub fn remove<T: Send + Sync + 'static>(&mut self) -> (r: Option<T>)
        ensures
            exists|key: TypeId|
                final(self).types() == old(self).types().remove(key) && (r is Some <==> old(self).types().contains(key)),
    {
        let (key, value) = type_map_remove::<T>(&mut self.map);
        assert(self.types() == old(self).types().remove(key));
        value
    }

    /// Borrows the value of type `T`, if one is registered.
    pub fn get<T: Send + Sync + 'static>(&self) -> (r: Option<&T>)
        ensures
            exists|key: TypeId| (r is Some <==> self.types().contains(key)),
    {
        let (key, value) = type_map_get::<T>(&self.map);
        assert(value is Some <==> self.types().contains(key));
        value
    }

    /// Mutably borrows the value of type `T`, if one is registered; the
    /// types registered do not change.
    pub fn get_mut<T: Send + Sync + 'static>(&mut self) -> (r: Option<&mut T>)
        ensures
            exists|key: TypeId| (r is Some <==> old(self).types().contains(key)),
            final(self).types() == old(self).types(),
    {
        let (key, value) = type_map_get_mut::<T>(&mut self.map);
        assert(value is Some <==> old(self).types().contains(key));
        value
    }

    /// Whether a value of type `T` is registered.
    pub fn contains<T: Send + Sync + 'static>(&self) -> (r: bool)
        ensures
            exists|key: TypeId| r == self.types().contains(key),
    {
        let (key, found) = type_map_contains::<T>(&self.map);
        assert(found == self.types().contains(key));
        found
    }
}

impl Default for Resources {
    fn default() -> (r: Self)
        ensures
            r.types() == Set::<TypeId>::empty(),
    {
        Resources::new()
    }
}

/// A shared reference to a resource of type `T`. Handlers request resources
/// by writing `Res<T>` in their signature.
pub struct Res<'a, T>(pub &'a T);

impl<'a, T> std::ops::Deref for Res<'a, T> {
    type Target = T;

    fn deref(&self) -> (r: &T)
        ensures
            r == self.0,
    {
        self.0
    }
}

/// Extracts a value from a [`Resources`] container. Implemented for
/// `Res<T>` out of the box; user types can implement this to request
/// several related resources in one parameter.
pub trait FromResources<'a>: Sized {
    fn from_resources(resources: &'a Resources) -> Option<Self>;
}

impl<'a, T: Send + Sync + 'static> FromResources<'a> for Res<'a, T> {
    /// The registered value of type `T`, if any.
    fn from_resources(resources: &'a Resources) -> (r: Option<Self>)
        ensures
            exists|key: TypeId| (r is Some <==> resources.types().contains(key)),
    {
        match resources.get::<T>() {
            Some(value) => Some(Res(value)),
            None => None,
        }
    }
}

} // verus!
