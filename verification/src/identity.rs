//! Equality and hashing of class models: both go by the identity of the
//! declaration alone.

use std::hash::{Hash, Hasher};
use vstd::prelude::*;
use vstd::std_specs::cmp::{PartialEqSpec, PartialEqSpecImpl};
use crate::class::Class;

verus! {

impl<'tu> PartialEq for Class<'tu> {
    fn eq(&self, other: &Self) -> (r: bool) {
        self.identity() == other.identity()
    }
}

impl<'tu> PartialEqSpecImpl for Class<'tu> {
    open spec fn obeys_eq_spec() -> bool {
        true
    }

    open spec fn eq_spec(&self, other: &Self) -> bool {
        self@.id() == other@.id()
    }
}

impl<'tu> Eq for Class<'tu> {

}

/// Two models of the same declaration are equal and have the same identity,
/// which is all that hashing looks at, whatever custom names they carry.
pub proof fn same_declaration_is_same_class(a: Class, b: Class)
    requires
        a@.entity == b@.entity,
    ensures
        PartialEqSpec::eq_spec(&a, &b),
        a@.id() == b@.id(),
{
}

/// Equal models have the same identity, and models with the same identity
/// are equal.
pub proof fn equality_is_identity(a: Class, b: Class)
    ensures
        PartialEqSpec::eq_spec(&a, &b) <==> a@.id() == b@.id(),
{
}

impl<'tu> Hash for Class<'tu> {
    /// `Hash::hash` of the identity.
    #[verifier::external_body]
    fn hash<H: Hasher>(&self, state: &mut H) {
        self.identity().hash(state)
    }
}

} // verus!
