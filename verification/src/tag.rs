//! Runtime type tags: `std::any::TypeId`, compared but never looked into.
use std::any::TypeId;
use vstd::prelude::*;

verus! {

#[verifier::external_type_specification]
#[verifier::external_body]
pub struct ExTypeId(TypeId);

/// Calls `std::any::TypeId::of`.
///
/// Nothing is stated of the tag it returns. The contracts of this crate speak
/// of "a tag that this call can return for `T`", see [`is_tag_of`].
#[verifier::external_body]
pub(crate) fn type_tag<T: 'static>() -> (tag: TypeId) {
    TypeId::of::<T>()
}

/// Calls `==` of `std::any::TypeId`.
///
/// It is believed that two tags compare equal exactly when they are the same
/// tag.
#[verifier::external_body]
pub(crate) fn same_tag(a: &TypeId, b: &TypeId) -> (same: bool)
    ensures
        same == (*a == *b),
{
    a == b
}

/// Whether `tag` is a tag that the standard library can give for the type `T`.
pub closed spec fn is_tag_of<T: 'static>(tag: TypeId) -> bool {
    call_ensures(type_tag::<T>, (), tag)
}

/// The tag of the type `T`.
pub fn tag_of<T: 'static>() -> (tag: TypeId)
    ensures
        is_tag_of::<T>(tag),
{
    type_tag::<T>()
}

} // verus!
