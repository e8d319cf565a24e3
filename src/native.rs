//! What the library assumes of the native type identifier.
use core::any::TypeId;
use core::cmp::Ordering;
use vstd::prelude::*;

verus! {

#[verifier::external_type_specification]
#[verifier::external_body]
pub struct ExTypeId(TypeId);

/// The formatter and its error pass through `Debug` untouched.
#[verifier::external_type_specification]
#[verifier::external_body]
pub struct ExFormatter<'a>(core::fmt::Formatter<'a>);

#[verifier::external_type_specification]
#[verifier::external_body]
pub struct ExFmtError(core::fmt::Error);

/// The native order of two type identifiers, as `TypeId`'s `Ord` gives it.
pub uninterp spec fn native_order(a: TypeId, b: TypeId) -> Ordering;

/// Relies on `TypeId::of`: it returns the identifier of `T`. Nothing about
/// the value can be stated here beyond its type.
pub assume_specification<T: ?Sized + 'static>[ TypeId::of::<T> ]() -> TypeId;

/// Relies on `TypeId`'s `PartialEq`: two identifiers compare equal exactly
/// when they are the same value.
pub assume_specification[ <TypeId as PartialEq>::eq ](a: &TypeId, b: &TypeId) -> (r: bool)
    ensures
        r == (*a == *b),
;

/// Relies on `TypeId`'s `Ord`, and on the laws that `Ord` documents for every
/// impl: `Equal` exactly on equal values, swapping the arguments swaps `Less`
/// and `Greater`, and `Less` is transitive.
pub assume_specification[ <TypeId as Ord>::cmp ](a: &TypeId, b: &TypeId) -> (r: Ordering)
    ensures
        r == native_order(*a, *b),
        (r == Ordering::Equal) == (*a == *b),
        (r == Ordering::Less) == (native_order(*b, *a) == Ordering::Greater),
        (r == Ordering::Greater) == (native_order(*b, *a) == Ordering::Less),
        r == Ordering::Less ==> forall|c: TypeId|
            #[trigger] native_order(*b, c) == Ordering::Less ==> native_order(*a, c)
                == Ordering::Less,
;

} // verus!
