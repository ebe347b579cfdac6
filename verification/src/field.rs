//! The model of one data member.

use vstd::prelude::*;
use crate::ast::{Entity, EntityView, TypeRef, TypeRefView};
use crate::env::GeneratorEnv;

verus! {

/// A field model as a mathematical value.
pub struct FieldView {
    pub entity: EntityView,
    pub gen_env: GeneratorEnv,
}

impl FieldView {
    /// The declaration has a type and stands in a well-formed snapshot.
    pub open spec fn wf(self) -> bool {
        self.entity.wf() && self.entity.decl().type_id is Some
    }

    /// The identity of the type of the field.
    pub open spec fn type_id(self) -> usize {
        self.entity.decl().type_id->Some_0
    }

    /// The record of the type of the field.
    pub open spec fn type_info(self) -> crate::ast::TypeInfo {
        self.entity.ast.types[self.type_id() as int]
    }

    /// A plain assignment can write the field: its type is neither
    /// const-qualified nor an array of fixed size.
    pub open spec fn writable(self) -> bool {
        !self.type_info().constant && !self.type_info().fixed_array
    }

    /// The field is left out of the generated surface.
    pub open spec fn excluded(self) -> bool {
        self.entity.decl().excluded
    }
}

/// One data member of a class. Its declaration always has a type.
#[derive(Clone, Copy)]
pub struct Field<'tu> {
    entity: Entity<'tu>,
    gen_env: &'tu GeneratorEnv,
}

impl<'tu> View for Field<'tu> {
    type V = FieldView;

    closed spec fn view(&self) -> FieldView {
        FieldView { entity: self.entity@, gen_env: *self.gen_env }
    }
}

impl<'tu> Field<'tu> {
    #[verifier::type_invariant]
    pub open spec fn inv(&self) -> bool {
        self@.wf()
    }

    /// The field model of a declaration that has a type.
    pub fn new(entity: Entity<'tu>, gen_env: &'tu GeneratorEnv) -> (r: Field<'tu>)
        requires
            entity@.decl().type_id is Some,
        ensures
            r@ == (FieldView { entity: entity@, gen_env: *gen_env }),
    {
        proof {
            use_type_invariant(&entity);
        }
        Field { entity, gen_env }
    }

    /// The declaration behind the field.
    pub fn entity(&self) -> (r: Entity<'tu>)
        ensures
            r@ == self@.entity,
    {
        self.entity
    }

    /// The type of the field.
    pub fn type_ref(&self) -> (r: TypeRef<'tu>)
        ensures
            self@.wf(),
            r@ == (TypeRefView { ast: self@.entity.ast, id: self@.type_id() }),
    {
        proof {
            use_type_invariant(self);
        }
        let decl = self.entity.decl();
        assert(decl.links_within(
            self@.entity.ast.decls.len() as int,
            self@.entity.ast.types.len() as int,
        ));
        self.entity.type_at(decl.type_id.unwrap())
    }

    /// Whether the field is left out of the generated surface.
    pub fn is_excluded(&self) -> (r: bool)
        ensures
            r == self@.excluded(),
    {
        self.entity.decl().excluded
    }
}

} // verus!
