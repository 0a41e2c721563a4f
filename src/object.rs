use crate::id::Id;
use vstd::prelude::*;
use vstd::string::*;

verus! {

/// The capability that every wrapped class has: construction, equality,
/// hashing and the name of its class.
pub trait INSObject: Sized {
    /// The name of the class in the object runtime.
    spec fn spec_class_name() -> Seq<char>;

    /// Whether `a` and `b` are equal under the class's equality.
    spec fn equal_objects(a: &Self, b: &Self) -> bool;

    /// Whether the class's equality depends on the objects' values alone.
    spec fn equality_by_value() -> bool;

    /// The hash of an object.
    spec fn spec_hash(a: &Self) -> u64;

    /// The human-readable description of an object.
    spec fn spec_description(a: &Self) -> Seq<char>;

    /// Whether `a` is in the state of an object made by `new`.
    spec fn is_fresh(a: &Self) -> bool;

    /// Equality is reflexive on values.
    proof fn lemma_equal_reflexive(a: &Self)
        requires
            Self::equality_by_value(),
        ensures
            Self::equal_objects(a, a),
    ;

    /// Equal objects have equal hashes.
    proof fn lemma_hash_agrees(a: &Self, b: &Self)
        requires
            Self::equal_objects(a, b),
        ensures
            Self::spec_hash(a) == Self::spec_hash(b),
    ;

    fn class_name() -> (r: &'static str)
        ensures
            r@ == Self::spec_class_name(),
    ;

    /// A newly made object of the class, held by a fresh owner.
    fn new() -> (r: Id<Self>)
        ensures
            Self::is_fresh(&r.value()),
    ;

    fn is_equal(&self, other: &Self) -> (r: bool)
        ensures
            r ==> Self::equal_objects(self, other),
            Self::equality_by_value() ==> (r == Self::equal_objects(self, other)),
    ;

    fn hash_code(&self) -> (r: u64)
        ensures
            r == Self::spec_hash(self),
    ;

    fn description(&self) -> (r: String)
        ensures
            r@ == Self::spec_description(self),
    ;
}

/// The capability of making an immutable copy, of class `Output`.
pub trait INSCopying: INSObject {
    type Output: INSObject;

    /// Whether `r` is a copy of `a`.
    spec fn is_copy(a: &Self, r: &Self::Output) -> bool;

    fn copy(&self) -> (r: Id<Self::Output>)
        ensures
            Self::is_copy(self, &r.value()),
    ;
}

/// The capability of making a mutable copy, of class `Output`.
pub trait INSMutableCopying: INSObject {
    type Output: INSObject;

    /// Whether `r` is a mutable copy of `a`.
    spec fn is_mutable_copy(a: &Self, r: &Self::Output) -> bool;

    fn mutable_copy(&self) -> (r: Id<Self::Output>)
        ensures
            Self::is_mutable_copy(self, &r.value()),
    ;
}

/// Relies on std::ptr::eq: two references at the same address refer to the
/// same value.
#[verifier::external_body]
fn same_address(a: &NSObject, b: &NSObject) -> (r: bool)
    ensures
        r ==> a == b,
{
    std::ptr::eq(a, b)
}

/// The root class: it holds no value, and an object equals only itself.
pub struct NSObject {
    marker: (),
}

impl INSObject for NSObject {
    open spec fn spec_class_name() -> Seq<char> {
        "NSObject"@
    }

    open spec fn equal_objects(a: &Self, b: &Self) -> bool {
        a == b
    }

    open spec fn equality_by_value() -> bool {
        false
    }

    open spec fn spec_hash(a: &Self) -> u64 {
        0
    }

    open spec fn spec_description(a: &Self) -> Seq<char> {
        "<NSObject>"@
    }

    open spec fn is_fresh(a: &Self) -> bool {
        true
    }

    proof fn lemma_equal_reflexive(a: &Self) {
    }

    proof fn lemma_hash_agrees(a: &Self, b: &Self) {
    }

    fn class_name() -> (r: &'static str) {
        "NSObject"
    }

    fn new() -> (r: Id<Self>) {
        Id::from_retained(NSObject { marker: () })
    }

    fn is_equal(&self, other: &Self) -> (r: bool) {
        same_address(self, other)
    }

    fn hash_code(&self) -> (r: u64) {
        0
    }

    fn description(&self) -> (r: String) {
        String::from_str("<NSObject>")
    }
}

} // verus!
