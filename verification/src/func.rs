//! The model of one callable member.

use vstd::prelude::*;
use crate::ast::{append_ids, ids_below, views, Entity, EntityView, TypeRef, TypeRefView};
use crate::env::{GeneratorEnv, Specialization};

verus! {

/// How the signature of a callable is to be read.
#[derive(Clone, Copy)]
pub enum FunctionTypeHint<'tu> {
    /// As declared.
    Plain,
    /// As the write accessor of the field that the declaration stands for.
    FieldSetter,
    /// With the template parameters bound as given.
    Specialized(&'tu Specialization),
}

/// A type hint as a mathematical value.
pub enum TypeHintView {
    Plain,
    FieldSetter,
    Specialized(Specialization),
}

impl<'tu> View for FunctionTypeHint<'tu> {
    type V = TypeHintView;

    open spec fn view(&self) -> TypeHintView {
        match *self {
            FunctionTypeHint::Plain => TypeHintView::Plain,
            FunctionTypeHint::FieldSetter => TypeHintView::FieldSetter,
            FunctionTypeHint::Specialized(s) => TypeHintView::Specialized(*s),
        }
    }
}

/// A callable model as a mathematical value.
pub struct FuncView {
    pub entity: EntityView,
    pub type_hint: TypeHintView,
    pub gen_env: GeneratorEnv,
}

impl FuncView {
    /// The types that occur in the signature: the parameters in order, then
    /// the returned type.
    pub open spec fn signature(self) -> Seq<usize> {
        match self.entity.decl().return_type {
            Some(t) => self.entity.decl().arguments@.push(t),
            None => self.entity.decl().arguments@,
        }
    }

    /// The identities of the types that the signature depends on, walk by
    /// walk.
    pub open spec fn dependent_ids(self) -> Seq<usize> {
        self.entity.ast.walk(self.signature())
    }
}

/// One callable member of a class: a declared method, an instantiation of a
/// generic method, or an accessor that stands for a field.
#[derive(Clone, Copy)]
pub struct Func<'tu> {
    entity: Entity<'tu>,
    type_hint: FunctionTypeHint<'tu>,
    gen_env: &'tu GeneratorEnv,
}

impl<'tu> View for Func<'tu> {
    type V = FuncView;

    closed spec fn view(&self) -> FuncView {
        FuncView { entity: self.entity@, type_hint: self.type_hint@, gen_env: *self.gen_env }
    }
}

impl<'tu> Func<'tu> {
    /// The callable as declared.
    pub fn new(entity: Entity<'tu>, gen_env: &'tu GeneratorEnv) -> (r: Func<'tu>)
        ensures
            r@ == (FuncView { entity: entity@, type_hint: TypeHintView::Plain, gen_env: *gen_env }),
    {
        Func { entity, type_hint: FunctionTypeHint::Plain, gen_env }
    }

    /// The callable read with a type hint.
    pub fn new_ext(
        entity: Entity<'tu>,
        type_hint: FunctionTypeHint<'tu>,
        gen_env: &'tu GeneratorEnv,
    ) -> (r: Func<'tu>)
        ensures
            r@ == (FuncView { entity: entity@, type_hint: type_hint@, gen_env: *gen_env }),
    {
        Func { entity, type_hint, gen_env }
    }

    /// The declaration behind the callable.
    pub fn entity(&self) -> (r: Entity<'tu>)
        ensures
            r@ == self@.entity,
    {
        self.entity
    }

    /// The hint the callable is read with.
    pub fn type_hint(&self) -> (r: FunctionTypeHint<'tu>)
        ensures
            r@ == self@.type_hint,
    {
        self.type_hint
    }

    /// Whether the callable has template parameters of its own.
    pub fn is_generic(&self) -> (r: bool)
        ensures
            r == self@.entity.decl().generic,
    {
        self.entity.decl().generic
    }

    /// The identifier under which the settings know the callable.
    pub fn identifier(&self) -> (r: &'tu String)
        ensures
            r@ == self@.entity.decl().identifier@,
    {
        &self.entity.decl().identifier
    }

    /// Whether the callable duplicates its receiver.
    pub fn is_clone(&self) -> (r: bool)
        ensures
            r == self@.entity.decl().clone_method,
    {
        self.entity.decl().clone_method
    }

    /// Whether the callable is left out of the generated surface.
    pub fn is_excluded(&self) -> (r: bool)
        ensures
            r == self@.entity.decl().excluded,
    {
        self.entity.decl().excluded
    }

    /// The identities of the types that the signature depends on: the walks
    /// of the parameter types in order, then the walk of the returned type.
    pub fn dependent_ids(&self) -> (r: Vec<usize>)
        ensures
            r@ == self@.dependent_ids(),
            ids_below(r@, self@.entity.ast.types.len() as int),
    {
        let decl = self.entity.decl();
        assert(decl.links_within(
            self@.entity.ast.decls.len() as int,
            self@.entity.ast.types.len() as int,
        ));
        let mut signature: Vec<usize> = Vec::new();
        append_ids(&mut signature, &decl.arguments);
        match decl.return_type {
            Some(t) => {
                signature.push(t);
            },
            None => {},
        }
        assert(signature@ =~= self@.signature());
        self.entity.ast().walk(&signature)
    }

    /// The types that the signature depends on.
    pub fn dependent_types(&self) -> (r: Vec<TypeRef<'tu>>)
        ensures
            views(r@) == self@.entity.ast.types_at(self@.dependent_ids()),
    {
        let ids = self.dependent_ids();
        self.entity.ast().type_refs(&ids)
    }
}

} // verus!
