//! The class model as a mathematical value: what each question about a
//! class means, stated over the snapshot and the environment.

use vstd::prelude::*;
use crate::ast::{EntityView, SourceLocation, TypeRefView};
use crate::constant::ConstView;
use crate::dedup::dedup;
use crate::env::{GeneratorEnv, Specialization};
use crate::field::FieldView;
use crate::func::{FuncView, TypeHintView};
use crate::kind::Kind;
use crate::names::{localname_of, namespace_of, qualified};
use crate::oracle::{classified, defines, passed_over};

verus! {

/// A class model as a mathematical value.
pub struct ClassView {
    pub entity: EntityView,
    pub custom_fullname: Option<Seq<char>>,
    pub gen_env: GeneratorEnv,
}

impl ClassView {
    /// The class stands in a well-formed snapshot.
    pub open spec fn wf(self) -> bool {
        self.entity.wf()
    }

    /// The identity of the class.
    pub open spec fn id(self) -> usize {
        self.entity.id
    }

    /// The fully-qualified native name: the custom name where one was given,
    /// else the declared name inside its scope.
    pub open spec fn cpp_fullname(self) -> Seq<char> {
        match self.custom_fullname {
            Some(name) => name,
            None => qualified(self.entity.decl().namespace@, self.entity.decl().name@),
        }
    }

    /// The scope of the native name.
    pub open spec fn cpp_namespace(self) -> Seq<char> {
        match self.custom_fullname {
            Some(name) => namespace_of(name),
            None => self.entity.decl().namespace@,
        }
    }

    /// The native name without its scope.
    pub open spec fn cpp_localname(self) -> Seq<char> {
        match self.custom_fullname {
            Some(name) => localname_of(name),
            None => self.entity.decl().name@,
        }
    }

    /// The class is listed among the system types.
    pub open spec fn is_system(self) -> bool {
        self.gen_env.settings.is_system_type(self.cpp_fullname())
    }

    /// The representation kind. The first rule that applies decides: an
    /// exclusion pattern, a manual export decision, the table of system
    /// types, the kind found by the whole-program pass; a class that none of
    /// them covers is excluded.
    pub open spec fn kind(self) -> Kind {
        classified(
            self.gen_env.settings.excludes(self.cpp_fullname()),
            self.gen_env.export_config_of(self.id()),
            self.is_system(),
            self.gen_env.class_kind_of(self.id()),
        )
    }
}

impl ClassView {
    /// The class model of another declaration of the same snapshot, under
    /// its declared name.
    pub open spec fn plain_at(self, id: usize) -> ClassView {
        ClassView { entity: self.entity.at(id), custom_fullname: None, gen_env: self.gen_env }
    }

    /// The class models of the declarations `ids`, in order.
    pub open spec fn classes_at(self, ids: Seq<usize>) -> Seq<ClassView> {
        ids.map_values(|id: usize| self.plain_at(id))
    }

    /// The class has a declared type.
    pub open spec fn has_type(self) -> bool {
        self.entity.decl().type_id is Some
    }

    /// The declared type of the class.
    pub open spec fn type_ref(self) -> TypeRefView {
        TypeRefView { ast: self.entity.ast, id: self.entity.decl().type_id->Some_0 }
    }

    /// The class is a template with unbound parameters.
    pub open spec fn is_template(self) -> bool {
        self.entity.decl().template_pattern
    }

    /// The class instantiates a template.
    pub open spec fn is_template_specialization(self) -> bool {
        self.entity.decl().template is Some
    }

    /// The template that the class instantiates, as a class of its own.
    pub open spec fn as_template(self) -> Option<ClassView> {
        match self.entity.decl().template {
            Some(t) => Some(self.plain_at(t)),
            None => None,
        }
    }

    /// The record is abstract, as the declaration itself reports it.
    pub open spec fn is_abstract(self) -> bool {
        self.entity.decl().abstract_record
    }

    /// The declaration is publicly accessible.
    pub open spec fn is_public(self) -> bool {
        self.entity.decl().public
    }

    /// The declaration itself carries a base specifier.
    pub open spec fn has_bases(self) -> bool {
        self.entity.decl().bases@.len() > 0
    }

    /// The environment knows a descendant of the class.
    pub open spec fn has_descendants(self) -> bool {
        self.gen_env.descendants_known(self.id())
    }

    /// The declaration carries a method.
    pub open spec fn has_methods(self) -> bool {
        self.entity.decl().methods@.len() > 0
    }

    /// The declaration carries a field.
    pub open spec fn has_fields(self) -> bool {
        self.entity.decl().fields@.len() > 0
    }

    /// Where the definition of the class stands, if a definition is known
    /// and has a location.
    pub open spec fn definition_location(self) -> Option<SourceLocation> {
        match self.entity.decl().definition {
            Some(d) => self.entity.ast.decls[d as int].location,
            None => None,
        }
    }

    /// The declaration is the defining one. Without a located definition it
    /// is not; with one, it is if it stands at the same place or has no
    /// place of its own.
    pub open spec fn is_definition(self) -> bool {
        defines(self.entity.decl().location, self.definition_location())
    }

    /// The class is passed over: it is not public or matches an ignore
    /// pattern, it is a template with unbound parameters, it instantiates a
    /// template without being listed as implemented, or it is neither an
    /// instantiation nor the defining declaration.
    pub open spec fn is_ignored(self) -> bool {
        passed_over(
            self.is_public(),
            self.gen_env.settings.ignores(self.cpp_fullname()),
            self.is_template(),
            self.is_template_specialization(),
            self.gen_env.settings.is_implemented_generic(self.cpp_fullname()),
            self.is_definition(),
        )
    }

    /// The class is not surfaced: its kind says so, or it stands outside
    /// every namespace.
    pub open spec fn is_excluded(self) -> bool {
        self.kind() == Kind::Excluded || self.cpp_namespace().len() == 0
    }

    /// Every base specifier that counts for the class leads to a definition.
    pub open spec fn bases_resolved(self) -> bool {
        self.entity.ast.bases_resolved(self.id())
    }

    /// The direct bases, in source order. For an instantiation these are the
    /// bases of its template.
    pub open spec fn bases(self) -> Seq<ClassView> {
        self.classes_at(self.entity.ast.base_ids(self.id()))
    }

    /// The base specifiers of the class and of all its ancestors lead to
    /// definitions.
    pub open spec fn ancestry_resolved(self) -> bool {
        self.entity.ast.ancestry_resolved(self.id())
    }

    /// `all` holds each ancestor of the class once, by ascending identity,
    /// as a class under its declared name.
    pub open spec fn all_bases_are(self, all: Seq<ClassView>) -> bool {
        &&& forall|k: int| 0 <= k < all.len() ==> #[trigger] all[k] == self.plain_at(all[k].id())
        &&& forall|i: int, j: int| 0 <= i < j < all.len() ==> all[i].id() < all[j].id()
        &&& forall|a: usize|
            self.entity.ast.is_ancestor(a, self.id()) <==> exists|k: int|
                0 <= k < all.len() && (#[trigger] all[k]).id() == a
    }
}

/// What walking the types of the fields `fields` finds, field by field;
/// excluded fields are passed over.
pub open spec fn field_walks(fields: Seq<FieldView>) -> Seq<usize>
    decreases fields.len(),
{
    if fields.len() == 0 {
        Seq::empty()
    } else if fields.last().excluded() {
        field_walks(fields.drop_last())
    } else {
        field_walks(fields.drop_last()) + fields.last().type_info().dependent@
    }
}

/// What walking the signatures of the callables `funcs` finds, callable by
/// callable; excluded callables are passed over.
pub open spec fn method_walks(funcs: Seq<FuncView>) -> Seq<usize>
    decreases funcs.len(),
{
    if funcs.len() == 0 {
        Seq::empty()
    } else if funcs.last().entity.decl().excluded {
        method_walks(funcs.drop_last())
    } else {
        method_walks(funcs.drop_last()) + funcs.last().dependent_ids()
    }
}

impl ClassView {
    /// The callable behind declaration `id`, read with `hint`.
    pub open spec fn func_at(self, id: usize, hint: TypeHintView) -> FuncView {
        FuncView { entity: self.entity.at(id), type_hint: hint, gen_env: self.gen_env }
    }

    /// The field behind declaration `id`.
    pub open spec fn field_at(self, id: usize) -> FieldView {
        FieldView { entity: self.entity.at(id), gen_env: self.gen_env }
    }

    /// What the method declaration `m` contributes to the member surface: a
    /// plain method itself, a generic method one callable per requested
    /// instantiation, and nothing if none is requested.
    pub open spec fn expand_method(self, m: usize) -> Seq<FuncView> {
        let d = self.entity.ast.decls[m as int];
        if d.generic {
            match self.gen_env.settings.specializations_of(d.identifier@) {
                Some(specs) => specs.map_values(
                    |s: Specialization| self.func_at(m, TypeHintView::Specialized(s)),
                ),
                None => Seq::empty(),
            }
        } else {
            seq![self.func_at(m, TypeHintView::Plain)]
        }
    }

    /// What the method declarations `ms` contribute, in their order.
    pub open spec fn methods_of(self, ms: Seq<usize>) -> Seq<FuncView>
        decreases ms.len(),
    {
        if ms.len() == 0 {
            Seq::empty()
        } else {
            self.methods_of(ms.drop_last()) + self.expand_method(ms.last())
        }
    }

    /// Every callable contributed by `ms` stands in the snapshot of the class.
    pub proof fn methods_stay_within(self, ms: Seq<usize>)
        ensures
            forall|k: int|
                0 <= k < self.methods_of(ms).len() ==> (#[trigger] self.methods_of(ms)[k]).entity.ast
                    == self.entity.ast,
        decreases ms.len(),
    {
        if ms.len() > 0 {
            self.methods_stay_within(ms.drop_last());
        }
    }

    /// The callable members, in declaration order.
    pub open spec fn methods(self) -> Seq<FuncView> {
        self.methods_of(self.entity.decl().methods@)
    }

    /// The method declaration `m` is generic and the settings request no
    /// instantiation for its identifier, so that it is left out of the
    /// member surface.
    pub open spec fn is_unspecialized(self, m: usize) -> bool {
        let d = self.entity.ast.decls[m as int];
        d.generic && self.gen_env.settings.specializations_of(d.identifier@) is None
    }

    /// Those of the method declarations `ms` that are left out for want of a
    /// requested instantiation, in their order.
    pub open spec fn unspecialized_of(self, ms: Seq<usize>) -> Seq<FuncView>
        decreases ms.len(),
    {
        if ms.len() == 0 {
            Seq::empty()
        } else if self.is_unspecialized(ms.last()) {
            self.unspecialized_of(ms.drop_last()).push(self.func_at(ms.last(), TypeHintView::Plain))
        } else {
            self.unspecialized_of(ms.drop_last())
        }
    }

    /// The generic methods that are left out of the member surface for want
    /// of a requested instantiation, in declaration order.
    pub open spec fn unspecialized_methods(self) -> Seq<FuncView> {
        self.unspecialized_of(self.entity.decl().methods@)
    }

    /// The fields, in declaration order.
    pub open spec fn fields(self) -> Seq<FieldView> {
        self.entity.decl().fields@.map_values(|f: usize| self.field_at(f))
    }

    /// The named constants, in declaration order.
    pub open spec fn consts(self) -> Seq<ConstView> {
        self.entity.decl().consts@.map_values(|c: usize| ConstView { entity: self.entity.at(c) })
    }

    /// The read accessor of a field.
    pub open spec fn getter(self, field: FieldView) -> FuncView {
        FuncView { entity: field.entity, type_hint: TypeHintView::Plain, gen_env: self.gen_env }
    }

    /// The write accessor of a field.
    pub open spec fn setter(self, field: FieldView) -> FuncView {
        FuncView {
            entity: field.entity,
            type_hint: TypeHintView::FieldSetter,
            gen_env: self.gen_env,
        }
    }

    /// The accessors that stand for a field: none for an excluded field,
    /// else a getter, followed by a setter if the field can be written by
    /// plain assignment.
    pub open spec fn accessors(self, field: FieldView) -> Seq<FuncView> {
        if field.excluded() {
            Seq::empty()
        } else if field.writable() {
            seq![self.getter(field), self.setter(field)]
        } else {
            seq![self.getter(field)]
        }
    }

    /// The accessors that stand for the fields `fields`, field by field.
    pub open spec fn field_methods(self, fields: Seq<FieldView>) -> Seq<FuncView>
        decreases fields.len(),
    {
        if fields.len() == 0 {
            Seq::empty()
        } else {
            self.field_methods(fields.drop_last()) + self.accessors(fields.last())
        }
    }

    /// One of the callable members duplicates its receiver.
    pub open spec fn has_clone(self) -> bool {
        exists|k: int|
            0 <= k < self.methods().len() && (#[trigger] self.methods()[k]).entity.decl().clone_method
    }

    /// Every field has a type whose values can be duplicated bit by bit.
    pub open spec fn fields_copyable(self) -> bool {
        forall|k: int|
            0 <= k < self.fields().len() ==> (#[trigger] self.fields()[k]).type_info().copyable
    }

    /// The class qualifies as a value type: it has no bases, no known
    /// descendants, and only copyable fields.
    pub open spec fn detect_class_simplicity(self) -> bool {
        !self.has_bases() && !self.has_descendants() && self.fields_copyable()
    }

    /// The identities of the types that the member surface depends on, in
    /// the order of their first occurrence: first those found from the
    /// fields, then those found from the callable members.
    pub open spec fn dependent_ids(self) -> Seq<usize> {
        dedup(field_walks(self.fields()) + method_walks(self.methods()))
    }

    /// The types that the member surface depends on, each once.
    pub open spec fn dependent_types(self) -> Seq<TypeRefView> {
        self.entity.ast.types_at(self.dependent_ids())
    }
}

/// The name under which every native string type is surfaced.
pub open spec fn string_leafname() -> Seq<char> {
    seq!['S', 't', 'r', 'i', 'n', 'g']
}

/// What is appended to the name of a class to name its capability
/// interface.
pub open spec fn trait_suffix() -> Seq<char> {
    seq!['T', 'r', 'a', 'i', 't']
}

/// The property name, if the property holds.
pub open spec fn prop(holds: bool, name: Seq<char>) -> Seq<Seq<char>> {
    if holds {
        seq![name]
    } else {
        Seq::empty()
    }
}

impl ClassView {
    /// The generated module the class belongs to.
    pub open spec fn rust_module(self) -> Seq<char> {
        self.entity.decl().module@
    }

    /// The last component of the generated name: the common string name for
    /// a native string type, else the native local name.
    pub open spec fn rust_leafname(self) -> Seq<char> {
        if self.type_ref().info().string {
            string_leafname()
        } else {
            self.cpp_localname()
        }
    }

    /// The generated name inside its module.
    pub open spec fn rust_localname(self) -> Seq<char> {
        self.rust_leafname()
    }

    /// The generated name with its module.
    pub open spec fn rust_fullname(self) -> Seq<char> {
        qualified(self.rust_module(), self.rust_localname())
    }

    /// The generated name, with or without its module.
    pub open spec fn rust_name(self, full: bool) -> Seq<char> {
        if full {
            self.rust_fullname()
        } else {
            self.rust_localname()
        }
    }

    /// The name of the capability interface of the class: the generated
    /// name, with the suffix `Trait` where the class has such an interface
    /// and is not abstract.
    pub open spec fn rust_trait_name(self, full: bool) -> Seq<char> {
        if self.kind() == Kind::Boxed && !self.is_abstract() {
            self.rust_name(full) + trait_suffix()
        } else {
            self.rust_name(full)
        }
    }

    /// The name under which the class is shown.
    pub open spec fn display_name(self) -> Option<Seq<char>> {
        match self.entity.decl().display_name {
            Some(name) => Some(name@),
            None => None,
        }
    }

    /// The names of the properties that hold of the class, in a fixed order.
    pub open spec fn props(self) -> Seq<Seq<char>> {
        prop(self.is_template(), "template"@) + prop(
            self.is_template_specialization(),
            "template_specialization"@,
        ) + prop(self.is_abstract(), "abstract"@) + prop(self.kind() == Kind::Boxed, "trait"@)
            + prop(self.kind() == Kind::Boxed, "by_ptr"@) + prop(
            self.kind() == Kind::Simple,
            "simple"@,
        ) + prop(self.has_descendants(), "has_descendants"@) + prop(
            self.has_methods(),
            "has_methods"@,
        ) + prop(self.has_fields(), "has_fields"@) + prop(self.has_bases(), "has_bases"@)
    }
}

} // verus!
