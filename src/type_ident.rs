//! The identifier type.
use crate::native::native_order;
use core::any::TypeId;
use core::cmp::Ordering;
use vstd::prelude::*;
use vstd::std_specs::cmp::{PartialEqSpec, PartialOrdSpec};

verus! {

/// The identifier of some `'static` type, resolved when it was built.
///
/// The derived `Ord` compares the one field with `TypeId`'s `cmp`, which is
/// the order that `partial_cmp` states; the derived `Hash` hashes that field
/// alone, so equal identifiers hash alike.
#[derive(Clone, Copy, Eq, Ord, Hash)]
pub struct ConstTypeId {
    type_id: TypeId,
}

impl View for ConstTypeId {
    type V = TypeId;

    /// The native identifier that this value resolves to.
    closed spec fn view(&self) -> TypeId {
        self.type_id
    }
}

impl ConstTypeId {
    /// The identifier of `T`, as `TypeId::of` gives it.
    #[must_use]
    pub fn of<T: ?Sized + 'static>() -> (r: Self) {
        ConstTypeId { type_id: TypeId::of::<T>() }
    }

    /// The native identifier that this value resolves to.
    #[inline]
    pub fn get(self) -> (r: TypeId)
        ensures
            r == self@,
    {
        self.type_id
    }
}

/// The order of two native identifiers: `Equal` on the same identifier, else
/// as the native order has it.
pub open spec fn ident_order(a: TypeId, b: TypeId) -> Ordering {
    if a == b {
        Ordering::Equal
    } else if native_order(a, b) == Ordering::Less {
        Ordering::Less
    } else {
        Ordering::Greater
    }
}

/// `o` with `Less` and `Greater` swapped.
pub open spec fn reversed(o: Ordering) -> Ordering {
    match o {
        Ordering::Less => Ordering::Greater,
        Ordering::Equal => Ordering::Equal,
        Ordering::Greater => Ordering::Less,
    }
}

impl PartialEq for ConstTypeId {
    #[inline]
    fn eq(&self, other: &Self) -> (r: bool)
        ensures
            r == (self@ == other@),
    {
        self.get() == other.get()
    }
}

impl vstd::std_specs::cmp::PartialEqSpecImpl for ConstTypeId {
    open spec fn obeys_eq_spec() -> bool {
        true
    }

    open spec fn eq_spec(&self, other: &ConstTypeId) -> bool {
        self@ == other@
    }
}

impl PartialEq<TypeId> for ConstTypeId {
    fn eq(&self, other: &TypeId) -> (r: bool)
        ensures
            r == (self@ == *other),
    {
        self.get() == *other
    }
}

impl vstd::std_specs::cmp::PartialEqSpecImpl<TypeId> for ConstTypeId {
    open spec fn obeys_eq_spec() -> bool {
        true
    }

    open spec fn eq_spec(&self, other: &TypeId) -> bool {
        self@ == *other
    }
}

impl PartialOrd for ConstTypeId {
    #[inline]
    fn partial_cmp(&self, other: &Self) -> (r: Option<Ordering>)
        ensures
            r == Some(ident_order(self@, other@)),
            ident_order(other@, self@) == reversed(ident_order(self@, other@)),
            forall|c: ConstTypeId|
                ident_order(self@, other@) == Ordering::Less && #[trigger] ident_order(other@, c@)
                    == Ordering::Less ==> ident_order(self@, c@) == Ordering::Less,
    {
        Some(self.get().cmp(&other.get()))
    }
}

impl vstd::std_specs::cmp::PartialOrdSpecImpl for ConstTypeId {
    open spec fn obeys_partial_cmp_spec() -> bool {
        true
    }

    open spec fn partial_cmp_spec(&self, other: &ConstTypeId) -> Option<Ordering> {
        Some(ident_order(self@, other@))
    }
}

/// Order and equality agree: two identifiers compare `Equal` exactly when
/// they are equal, equality is symmetric, and every identifier equals itself.
pub proof fn lemma_order_agrees_with_eq(a: ConstTypeId, b: ConstTypeId)
    ensures
        a.eq_spec(&b) <==> a.partial_cmp_spec(&b) == Some(Ordering::Equal),
        a.eq_spec(&b) <==> b.eq_spec(&a),
        a.eq_spec(&a),
        a.partial_cmp_spec(&a) == Some(Ordering::Equal),
{
}

impl core::fmt::Debug for ConstTypeId {
    /// Relies on `TypeId`'s `Debug`: the identifier prints as the native one.
    #[verifier::external_body]
    fn fmt(&self, formatter: &mut core::fmt::Formatter<'_>) -> core::fmt::Result {
        core::fmt::Debug::fmt(&self.type_id, formatter)
    }
}

} // verus!
