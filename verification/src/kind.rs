//! The four ways a native class can be represented in the generated bindings.

use vstd::prelude::*;

verus! {

/// Representation strategy chosen for a class.
#[derive(Clone, Copy, Debug, PartialEq, Eq, Structural, PartialOrd, Hash)]
pub enum Kind {
    /// Value type, copied across the language boundary.
    Simple,
    /// Opaque type, always passed behind an indirection.
    Boxed,
    /// Type that already has an idiomatic counterpart on the target side.
    System,
    /// Not surfaced at all.
    Excluded,
}

impl Kind {
    /// Whether values of a class of this kind travel behind a pointer.
    pub open spec fn spec_by_ptr(self) -> bool {
        self == Kind::Boxed
    }

    /// Whether values of a class of this kind travel behind a pointer.
    #[verifier::when_used_as_spec(spec_by_ptr)]
    pub fn by_ptr(self) -> (r: bool)
        ensures
            r == (self == Kind::Boxed),
    {
        match self {
            Kind::Boxed => true,
            Kind::Simple | Kind::System | Kind::Excluded => false,
        }
    }
}

} // verus!
