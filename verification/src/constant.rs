//! The model of one named compile-time constant.

use vstd::prelude::*;
use crate::ast::{Entity, EntityView};

verus! {

/// A constant model as a mathematical value.
pub struct ConstView {
    pub entity: EntityView,
}

/// One named constant of a class.
#[derive(Clone, Copy)]
pub struct Const<'tu> {
    entity: Entity<'tu>,
}

impl<'tu> View for Const<'tu> {
    type V = ConstView;

    closed spec fn view(&self) -> ConstView {
        ConstView { entity: self.entity@ }
    }
}

impl<'tu> Const<'tu> {
    /// The constant model of a declaration.
    pub fn new(entity: Entity<'tu>) -> (r: Const<'tu>)
        ensures
            r@ == (ConstView { entity: entity@ }),
    {
        Const { entity }
    }

    /// The declaration behind the constant.
    pub fn entity(&self) -> (r: Entity<'tu>)
        ensures
            r@ == self@.entity,
    {
        self.entity
    }
}

} // verus!
