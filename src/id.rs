use crate::object::INSObject;
use std::rc::Rc;
use vstd::prelude::*;

verus! {

/// An owner of one counted reference to an object. Cloning counts one more
/// reference to the same object; dropping gives the owner's reference back,
/// and the object goes when the last owner does.
pub struct Id<T> {
    obj: Rc<T>,
}

impl<T> Id<T> {
    /// The object that the owner refers to.
    pub closed spec fn value(&self) -> T {
        *self.obj
    }

    /// An owner of `obj`, taking the reference that its maker counted.
    pub fn from_retained(obj: T) -> (r: Id<T>)
        ensures
            r.value() == obj,
    {
        Id { obj: Rc::new(obj) }
    }

    /// A read-only view of the object.
    pub fn get(&self) -> (r: &T)
        ensures
            *r == self.value(),
    {
        &*self.obj
    }

    /// The object itself when this is its only owner; otherwise the owner
    /// back, unchanged.
    pub fn try_unwrap(self) -> (r: Result<T, Id<T>>)
        ensures
            r matches Ok(t) ==> t == self.value(),
            r matches Err(e) ==> e.value() == self.value(),
    {
        match Rc::try_unwrap(self.obj) {
            Ok(t) => Ok(t),
            Err(o) => Err(Id { obj: o }),
        }
    }
}

impl<T: INSObject> Id<T> {
    /// Equality of the two objects, under their class's equality.
    pub fn is_equal(&self, other: &Id<T>) -> (r: bool)
        ensures
            r ==> T::equal_objects(&self.value(), &other.value()),
            T::equality_by_value() ==> (r == T::equal_objects(&self.value(), &other.value())),
    {
        self.get().is_equal(other.get())
    }

    /// The hash of the object, under its class's hash.
    pub fn hash_code(&self) -> (r: u64)
        ensures
            r == T::spec_hash(&self.value()),
    {
        self.get().hash_code()
    }

    /// The description of the object, under its class's description.
    pub fn description(&self) -> (r: String)
        ensures
            r@ == T::spec_description(&self.value()),
    {
        self.get().description()
    }
}

impl<T> std::ops::Deref for Id<T> {
    type Target = T;

    fn deref(&self) -> (r: &T)
        ensures
            *r == self.value(),
    {
        &*self.obj
    }
}

impl<T> Clone for Id<T> {
    fn clone(&self) -> (r: Self)
        ensures
            r.value() == self.value(),
    {
        Id { obj: Rc::clone(&self.obj) }
    }
}

/// An owner and its clone refer to equal objects, for a class whose equality
/// goes by value.
pub proof fn lemma_clone_equal<T: INSObject>(p: Id<T>, c: Id<T>)
    requires
        T::equality_by_value(),
        call_ensures(<Id<T> as Clone>::clone, (&p,), c),
    ensures
        T::equal_objects(&c.value(), &p.value()),
{
    T::lemma_equal_reflexive(&p.value());
}

} // verus!
