//! The model of one native class: its representation kind, its place in the
//! inheritance graph, its member surface and the types that surface needs.

use vstd::prelude::*;
use vstd::string::*;
use crate::ast::{append_ids, ids_below, views, views_push, Entity, TypeRef};
use crate::class_view::{field_walks, method_walks, prop, string_leafname, trait_suffix, ClassView};
use crate::constant::Const;
use crate::dedup::dedup_ids;
use crate::env::{contains_name, GeneratorEnv, Specialization};
use crate::field::Field;
use crate::func::{Func, FuncView, FunctionTypeHint, TypeHintView};
use crate::inheritance::{ancestors, direct_bases};
use crate::kind::Kind;
use crate::names::{join, joined, localname, namespace, qualify, texts};
use crate::oracle::{classify, is_defining, is_passed_over};

verus! {

/// Appends the property name if the property holds.
fn push_prop(props: &mut Vec<&'static str>, holds: bool, name: &'static str)
    ensures
        texts(final(props)@) == texts(old(props)@) + prop(holds, name@),
{
    if holds {
        props.push(name);
        assert(texts(props@) =~= texts(old(props)@) + prop(holds, name@));
    } else {
        assert(texts(props@) =~= texts(old(props)@) + prop(holds, name@));
    }
}

/// A view of one class declaration. Views are cheap to make and hold no
/// state of their own beyond an optional custom name.
pub struct Class<'tu> {
    entity: Entity<'tu>,
    custom_fullname: Option<String>,
    gen_env: &'tu GeneratorEnv,
}

impl<'tu> View for Class<'tu> {
    type V = ClassView;

    closed spec fn view(&self) -> ClassView {
        ClassView {
            entity: self.entity@,
            custom_fullname: match self.custom_fullname {
                Some(name) => Some(name@),
                None => None,
            },
            gen_env: *self.gen_env,
        }
    }
}

impl<'tu> Clone for Class<'tu> {
    /// Another view of the same declaration under the same name.
    fn clone(&self) -> (r: Class<'tu>)
        ensures
            r@ == self@,
    {
        Class {
            entity: self.entity,
            custom_fullname: match &self.custom_fullname {
                Some(name) => Some(name.clone()),
                None => None,
            },
            gen_env: self.gen_env,
        }
    }
}

impl<'tu> Class<'tu> {
    /// The class model of a declaration, under its declared name.
    pub fn new(entity: Entity<'tu>, gen_env: &'tu GeneratorEnv) -> (r: Class<'tu>)
        ensures
            r@ == (ClassView { entity: entity@, custom_fullname: None, gen_env: *gen_env }),
    {
        Class { entity, custom_fullname: None, gen_env }
    }

    /// The class model of a declaration, under a custom fully-qualified name.
    pub fn new_ext(entity: Entity<'tu>, custom_fullname: String, gen_env: &'tu GeneratorEnv) -> (r:
        Class<'tu>)
        ensures
            r@ == (ClassView {
                entity: entity@,
                custom_fullname: Some(custom_fullname@),
                gen_env: *gen_env,
            }),
    {
        Class { entity, custom_fullname: Some(custom_fullname), gen_env }
    }

    /// The identity of the class: what equality compares and hashing feeds
    /// to the hasher, whatever the custom name.
    pub fn identity(&self) -> (r: usize)
        ensures
            r == self@.id(),
    {
        self.entity.id()
    }

    /// The declaration behind the class.
    pub fn entity(&self) -> (r: Entity<'tu>)
        ensures
            r@ == self@.entity,
            self@.wf(),
    {
        proof {
            use_type_invariant(&self.entity);
        }
        self.entity
    }

    /// The fully-qualified native name.
    pub fn cpp_fullname(&self) -> (r: String)
        ensures
            r@ == self@.cpp_fullname(),
    {
        match &self.custom_fullname {
            Some(name) => name.clone(),
            None => {
                let decl = self.entity.decl();
                qualify(decl.namespace.as_str(), decl.name.as_str())
            },
        }
    }

    /// The scope of the native name.
    pub fn cpp_namespace(&self) -> (r: String)
        ensures
            r@ == self@.cpp_namespace(),
    {
        match &self.custom_fullname {
            Some(name) => namespace(name.as_str()),
            None => self.entity.decl().namespace.clone(),
        }
    }

    /// The native name without its scope.
    pub fn cpp_localname(&self) -> (r: String)
        ensures
            r@ == self@.cpp_localname(),
    {
        match &self.custom_fullname {
            Some(name) => localname(name.as_str()),
            None => self.entity.decl().name.clone(),
        }
    }

    /// Whether the class is listed among the system types.
    pub fn is_system(&self) -> (r: bool)
        ensures
            r == self@.is_system(),
    {
        let name = self.cpp_fullname();
        contains_name(&self.gen_env.settings.system_types, name.as_str())
    }

    /// The representation kind of the class.
    pub fn kind(&self) -> (r: Kind)
        ensures
            r == self@.kind(),
    {
        let name = self.cpp_fullname();
        let settings = &self.gen_env.settings;
        classify(
            settings.element_exclude.is_match(name.as_str()),
            self.gen_env.get_export_config(self.entity.id()),
            contains_name(&settings.system_types, name.as_str()),
            self.gen_env.get_class_kind(self.entity.id()),
        )
    }

    /// Whether the class is exported as a value type.
    pub fn is_simple(&self) -> (r: bool)
        ensures
            r == (self@.kind() == Kind::Simple),
    {
        self.kind() == Kind::Simple
    }

    /// Whether the class is exported behind an indirection.
    pub fn is_boxed(&self) -> (r: bool)
        ensures
            r == (self@.kind() == Kind::Boxed),
    {
        self.kind() == Kind::Boxed
    }

    /// Whether the class gets a capability interface: exactly the boxed
    /// classes do.
    pub fn is_trait(&self) -> (r: bool)
        ensures
            r == (self@.kind() == Kind::Boxed),
    {
        self.is_boxed()
    }

    /// Whether values of the class travel behind a pointer: exactly those of
    /// boxed classes do.
    pub fn is_by_ptr(&self) -> (r: bool)
        ensures
            r == (self@.kind() == Kind::Boxed),
    {
        match self.kind() {
            Kind::Boxed => true,
            Kind::Simple | Kind::System | Kind::Excluded => false,
        }
    }
    /// The class models of the declarations `ids`, in order.
    fn classes_at(&self, ids: &Vec<usize>) -> (r: Vec<Class<'tu>>)
        requires
            ids_below(ids@, self@.entity.ast.decls.len() as int),
        ensures
            views(r@) == self@.classes_at(ids@),
    {
        let mut out: Vec<Class<'tu>> = Vec::new();
        let mut i: usize = 0;
        while i < ids.len()
            invariant
                i <= ids.len(),
                ids_below(ids@, self@.entity.ast.decls.len() as int),
                views(out@) == self@.classes_at(ids@.take(i as int)),
            decreases ids.len() - i,
        {
            let c = Class::new(self.entity.at(ids[i]), self.gen_env);
            proof {
                let before = out@;
                let shorter = ids@.take(i as int);
                assert(views(before.push(c)) =~= views(before).push(c@));
                assert(ids@.take(i + 1) =~= shorter.push(ids@[i as int]));
                assert(self@.classes_at(shorter.push(ids@[i as int])) =~= self@.classes_at(
                    shorter,
                ).push(c@));
            }
            out.push(c);
            i += 1;
        }
        assert(ids@.take(ids@.len() as int) =~= ids@);
        out
    }

    /// The declared type of the class.
    pub fn type_ref(&self) -> (r: TypeRef<'tu>)
        requires
            self@.has_type(),
        ensures
            r@ == self@.type_ref(),
    {
        let decl = self.entity.decl();
        assert(decl.links_within(
            self@.entity.ast.decls.len() as int,
            self@.entity.ast.types.len() as int,
        ));
        self.entity.type_at(decl.type_id.unwrap())
    }

    /// The template that the class instantiates, as a class of its own.
    pub fn as_template(&self) -> (r: Option<Class<'tu>>)
        ensures
            r is Some == self@.as_template() is Some,
            r matches Some(c) ==> c@ == self@.as_template()->Some_0,
    {
        let decl = self.entity.decl();
        assert(decl.links_within(
            self@.entity.ast.decls.len() as int,
            self@.entity.ast.types.len() as int,
        ));
        match decl.template {
            Some(t) => Some(Class::new(self.entity.at(t), self.gen_env)),
            None => None,
        }
    }

    /// Whether the class is a template with unbound parameters.
    pub fn is_template(&self) -> (r: bool)
        ensures
            r == self@.is_template(),
    {
        self.entity.decl().template_pattern
    }

    /// Whether the class instantiates a template.
    pub fn is_template_specialization(&self) -> (r: bool)
        ensures
            r == self@.is_template_specialization(),
    {
        self.entity.decl().template.is_some()
    }

    /// Whether the record is abstract. The answer is the one the declaration
    /// itself gives; the methods of the class are not looked at again.
    pub fn is_abstract(&self) -> (r: bool)
        ensures
            r == self@.is_abstract(),
    {
        self.entity.decl().abstract_record
    }

    /// Whether the declaration is publicly accessible.
    pub fn is_public(&self) -> (r: bool)
        ensures
            r == self@.is_public(),
    {
        self.entity.decl().public
    }

    /// Whether the declaration itself carries a base specifier.
    pub fn has_bases(&self) -> (r: bool)
        ensures
            r == self@.has_bases(),
    {
        self.entity.decl().bases.len() > 0
    }

    /// Whether the environment knows a descendant of the class.
    pub fn has_descendants(&self) -> (r: bool)
        ensures
            r == self@.has_descendants(),
    {
        self.gen_env.has_descendants(self.entity.id())
    }

    /// Whether the declaration carries a method.
    pub fn has_methods(&self) -> (r: bool)
        ensures
            r == self@.has_methods(),
    {
        self.entity.decl().methods.len() > 0
    }

    /// Whether the declaration carries a field.
    pub fn has_fields(&self) -> (r: bool)
        ensures
            r == self@.has_fields(),
    {
        self.entity.decl().fields.len() > 0
    }

    /// Whether the declaration is the defining one.
    pub fn is_definition(&self) -> (r: bool)
        ensures
            r == self@.is_definition(),
    {
        let decl = self.entity.decl();
        assert(decl.links_within(
            self@.entity.ast.decls.len() as int,
            self@.entity.ast.types.len() as int,
        ));
        let class_loc = decl.location;
        let def_loc = match decl.definition {
            Some(d) => self.entity.at(d).decl().location,
            None => None,
        };
        is_defining(class_loc, def_loc)
    }

    /// Whether the class is passed over by the generator.
    pub fn is_ignored(&self) -> (r: bool)
        ensures
            r == self@.is_ignored(),
    {
        let name = self.cpp_fullname();
        let settings = &self.gen_env.settings;
        is_passed_over(
            self.is_public(),
            settings.element_ignore.is_match(name.as_str()),
            self.is_template(),
            self.is_template_specialization(),
            contains_name(&settings.implemented_generics, name.as_str()),
            self.is_definition(),
        )
    }

    /// Whether the class is left out of the generated surface.
    pub fn is_excluded(&self) -> (r: bool)
        ensures
            r == self@.is_excluded(),
    {
        match self.kind() {
            Kind::Excluded => true,
            Kind::Simple | Kind::Boxed | Kind::System => {
                self.cpp_namespace().as_str().unicode_len() == 0
            },
        }
    }

    /// The direct bases in source order, or nothing if a base specifier
    /// leads to no definition.
    pub fn checked_bases(&self) -> (r: Option<Vec<Class<'tu>>>)
        ensures
            r is Some <==> self@.bases_resolved(),
            r matches Some(bases) ==> views(bases@) == self@.bases(),
    {
        match direct_bases(self.entity.ast(), self.entity.id()) {
            Some(ids) => Some(self.classes_at(&ids)),
            None => None,
        }
    }

    /// The direct bases in source order. For an instantiation these are the
    /// bases of its template.
    pub fn bases(&self) -> (r: Vec<Class<'tu>>)
        requires
            self@.bases_resolved(),
        ensures
            views(r@) == self@.bases(),
    {
        self.checked_bases().unwrap()
    }

    /// All ancestors, each once and by ascending identity, or nothing if a
    /// base specifier of the class or of an ancestor leads to no definition.
    pub fn checked_all_bases(&self) -> (r: Option<Vec<Class<'tu>>>)
        ensures
            r is Some <==> self@.ancestry_resolved(),
            r matches Some(all) ==> self@.all_bases_are(views(all@)),
    {
        match ancestors(self.entity.ast(), self.entity.id()) {
            Some(ids) => {
                let all = self.classes_at(&ids);
                proof {
                    let v = views(all@);
                    assert(v.len() == ids@.len());
                    assert forall|k: int| 0 <= k < v.len() implies v[k].id() == ids@[k] by {}
                    assert forall|a: usize|
                        self@.entity.ast.is_ancestor(a, self@.id()) <==> exists|k: int|
                            0 <= k < v.len() && (#[trigger] v[k]).id() == a by {
                        if self@.entity.ast.is_ancestor(a, self@.id()) {
                            assert(ids@.contains(a));
                            let k = choose|k: int| 0 <= k < ids@.len() && ids@[k] == a;
                            assert(v[k].id() == a);
                        }
                        if exists|k: int| 0 <= k < v.len() && (#[trigger] v[k]).id() == a {
                            let k = choose|k: int| 0 <= k < v.len() && (#[trigger] v[k]).id() == a;
                            assert(ids@[k] == a);
                            assert(ids@.contains(a));
                        }
                    }
                }
                Some(all)
            },
            None => None,
        }
    }

    /// All ancestors of the class, each once and by ascending identity.
    pub fn all_bases(&self) -> (r: Vec<Class<'tu>>)
        requires
            self@.ancestry_resolved(),
        ensures
            self@.all_bases_are(views(r@)),
    {
        self.checked_all_bases().unwrap()
    }
    /// The callable members in declaration order. A generic method stands
    /// with one callable per instantiation that the settings request for its
    /// identifier, and is left out if they request none.
    pub fn methods(&self) -> (r: Vec<Func<'tu>>)
        ensures
            views(r@) == self@.methods(),
    {
        let decl = self.entity.decl();
        let members = &decl.methods;
        assert(decl.links_within(
            self@.entity.ast.decls.len() as int,
            self@.entity.ast.types.len() as int,
        ));
        let mut out: Vec<Func<'tu>> = Vec::new();
        let mut i: usize = 0;
        proof {
            assert(views(out@) =~= Seq::<FuncView>::empty());
        }
        while i < members.len()
            invariant
                i <= members.len(),
                self@.wf(),
                members@ == self@.entity.decl().methods@,
                ids_below(members@, self@.entity.ast.decls.len() as int),
                views(out@) == self@.methods_of(members@.take(i as int)),
            decreases members.len() - i,
        {
            let child = self.entity.at(members[i]);
            let func = Func::new(child, self.gen_env);
            let ghost m = members@[i as int];
            let ghost done = self@.methods_of(members@.take(i as int));
            proof {
                assert(members@.take(i + 1).drop_last() =~= members@.take(i as int));
                assert(members@.take(i + 1).last() == m);
            }
            if func.is_generic() {
                match self.gen_env.settings.specializations_for(func.identifier().as_str()) {
                    Some(specs) => {
                        let mut k: usize = 0;
                        let ghost plan = self@.expand_method(m);
                        proof {
                            assert(plan.len() == specs@.len());
                            assert(done + plan.take(0) =~= done);
                        }
                        while k < specs.len()
                            invariant
                                k <= specs.len(),
                                child@ == self@.entity.at(m),
                                plan == specs@.map_values(
                                    |s: Specialization|
                                        self@.func_at(m, TypeHintView::Specialized(s)),
                                ),
                                views(out@) == done + plan.take(k as int),
                            decreases specs.len() - k,
                        {
                            let spec = Func::new_ext(
                                child,
                                FunctionTypeHint::Specialized(&specs[k]),
                                self.gen_env,
                            );
                            proof {
                                views_push(out@, spec);
                                assert(spec@ == plan[k as int]);
                                assert((done + plan.take(k as int)).push(plan[k as int]) =~= done
                                    + plan.take(k + 1));
                            }
                            out.push(spec);
                            k += 1;
                        }
                        proof {
                            assert(plan.take(plan.len() as int) =~= plan);
                        }
                    },
                    None => {
                        proof {
                            assert(done + self@.expand_method(m) =~= done);
                        }
                    },
                }
            } else {
                proof {
                    views_push(out@, func);
                    assert(done.push(func@) =~= done + self@.expand_method(m));
                }
                out.push(func);
            }
            i += 1;
        }
        proof {
            assert(members@.take(members@.len() as int) =~= members@);
        }
        out
    }

    /// The generic methods that `methods` leaves out because the settings
    /// request no instantiation for them, in declaration order. They are no
    /// error, but each is a gap in the generated surface.
    pub fn unspecialized_methods(&self) -> (r: Vec<Func<'tu>>)
        ensures
            views(r@) == self@.unspecialized_methods(),
    {
        let decl = self.entity.decl();
        let members = &decl.methods;
        assert(decl.links_within(
            self@.entity.ast.decls.len() as int,
            self@.entity.ast.types.len() as int,
        ));
        let mut out: Vec<Func<'tu>> = Vec::new();
        let mut i: usize = 0;
        proof {
            assert(views(out@) =~= Seq::<FuncView>::empty());
        }
        while i < members.len()
            invariant
                i <= members.len(),
                self@.wf(),
                members@ == self@.entity.decl().methods@,
                ids_below(members@, self@.entity.ast.decls.len() as int),
                views(out@) == self@.unspecialized_of(members@.take(i as int)),
            decreases members.len() - i,
        {
            let func = Func::new(self.entity.at(members[i]), self.gen_env);
            proof {
                assert(members@.take(i + 1).drop_last() =~= members@.take(i as int));
                assert(members@.take(i + 1).last() == members@[i as int]);
            }
            if func.is_generic() && self.gen_env.settings.specializations_for(
                func.identifier().as_str(),
            ).is_none() {
                proof {
                    views_push(out@, func);
                }
                out.push(func);
            }
            i += 1;
        }
        proof {
            assert(members@.take(members@.len() as int) =~= members@);
        }
        out
    }

    /// The fields in declaration order.
    pub fn fields(&self) -> (r: Vec<Field<'tu>>)
        ensures
            views(r@) == self@.fields(),
            forall|k: int| 0 <= k < r@.len() ==> (#[trigger] r@[k])@.wf(),
    {
        let decl = self.entity.decl();
        let members = &decl.fields;
        assert(decl.links_within(
            self@.entity.ast.decls.len() as int,
            self@.entity.ast.types.len() as int,
        ));
        assert(self@.entity.ast.fields_typed(self@.id() as int));
        let mut out: Vec<Field<'tu>> = Vec::new();
        let mut i: usize = 0;
        proof {
            assert(views(out@) =~= self@.fields().take(0));
        }
        while i < members.len()
            invariant
                i <= members.len(),
                self@.wf(),
                members@ == self@.entity.decl().fields@,
                ids_below(members@, self@.entity.ast.decls.len() as int),
                self@.entity.ast.fields_typed(self@.id() as int),
                views(out@) == self@.fields().take(i as int),
                forall|k: int| 0 <= k < out@.len() ==> (#[trigger] out@[k])@.wf(),
            decreases members.len() - i,
        {
            let child = self.entity.at(members[i]);
            proof {
                assert(self@.entity.ast.decls[members@[i as int] as int].type_id is Some);
            }
            let field = Field::new(child, self.gen_env);
            proof {
                views_push(out@, field);
                assert(self@.fields().take(i as int).push(field@) =~= self@.fields().take(i + 1));
            }
            out.push(field);
            i += 1;
        }
        proof {
            assert(self@.fields().take(members@.len() as int) =~= self@.fields());
        }
        out
    }

    /// The named constants in declaration order.
    pub fn consts(&self) -> (r: Vec<Const<'tu>>)
        ensures
            views(r@) == self@.consts(),
    {
        let decl = self.entity.decl();
        let members = &decl.consts;
        assert(decl.links_within(
            self@.entity.ast.decls.len() as int,
            self@.entity.ast.types.len() as int,
        ));
        let mut out: Vec<Const<'tu>> = Vec::new();
        let mut i: usize = 0;
        proof {
            assert(views(out@) =~= self@.consts().take(0));
        }
        while i < members.len()
            invariant
                i <= members.len(),
                self@.wf(),
                members@ == self@.entity.decl().consts@,
                ids_below(members@, self@.entity.ast.decls.len() as int),
                views(out@) == self@.consts().take(i as int),
            decreases members.len() - i,
        {
            let constant = Const::new(self.entity.at(members[i]));
            proof {
                views_push(out@, constant);
                assert(self@.consts().take(i as int).push(constant@) =~= self@.consts().take(
                    i + 1,
                ));
            }
            out.push(constant);
            i += 1;
        }
        proof {
            assert(self@.consts().take(members@.len() as int) =~= self@.consts());
        }
        out
    }

    /// The accessors that stand for the given fields, field by field: for
    /// each field that is not excluded a getter, followed by a setter unless
    /// the type of the field is const-qualified or an array of fixed size.
    pub fn field_methods(&self, fields: &Vec<Field<'tu>>) -> (r: Vec<Func<'tu>>)
        ensures
            views(r@) == self@.field_methods(views(fields@)),
    {
        let mut out: Vec<Func<'tu>> = Vec::new();
        let mut i: usize = 0;
        let ghost all = views(fields@);
        proof {
            assert(views(out@) =~= Seq::<FuncView>::empty());
        }
        while i < fields.len()
            invariant
                i <= fields.len(),
                all == views(fields@),
                views(out@) == self@.field_methods(all.take(i as int)),
            decreases fields.len() - i,
        {
            let fld = &fields[i];
            let ghost done = self@.field_methods(all.take(i as int));
            proof {
                assert(all.take(i + 1).drop_last() =~= all.take(i as int));
                assert(all.take(i + 1).last() == fld@);
            }
            if !fld.is_excluded() {
                let fld_type_ref = fld.type_ref();
                let read = Func::new(fld.entity(), self.gen_env);
                proof {
                    views_push(out@, read);
                }
                out.push(read);
                if !fld_type_ref.is_const() && !fld_type_ref.is_fixed_array() {
                    let write = Func::new_ext(
                        fld.entity(),
                        FunctionTypeHint::FieldSetter,
                        self.gen_env,
                    );
                    proof {
                        views_push(out@, write);
                        assert(done.push(read@).push(write@) =~= done + self@.accessors(fld@));
                    }
                    out.push(write);
                } else {
                    proof {
                        assert(done.push(read@) =~= done + self@.accessors(fld@));
                    }
                }
            } else {
                proof {
                    assert(done + self@.accessors(fld@) =~= done);
                }
            }
            i += 1;
        }
        proof {
            assert(all.take(all.len() as int) =~= all);
        }
        out
    }

    /// Whether one of the callable members duplicates its receiver.
    pub fn has_clone(&self) -> (r: bool)
        ensures
            r == self@.has_clone(),
    {
        let methods = self.methods();
        let mut i: usize = 0;
        while i < methods.len()
            invariant
                i <= methods.len(),
                views(methods@) == self@.methods(),
                forall|k: int|
                    0 <= k < i ==> !(#[trigger] self@.methods()[k]).entity.decl().clone_method,
            decreases methods.len() - i,
        {
            proof {
                assert(views(methods@)[i as int] == methods@[i as int]@);
            }
            if methods[i].is_clone() {
                return true;
            }
            i += 1;
        }
        false
    }

    /// Whether the class qualifies as a value type: it has no bases, no
    /// known descendants, and only fields of copyable types.
    pub fn detect_class_simplicity(&self) -> (r: bool)
        ensures
            r == self@.detect_class_simplicity(),
    {
        if self.has_bases() || self.has_descendants() {
            return false;
        }
        let fields = self.fields();
        let mut i: usize = 0;
        while i < fields.len()
            invariant
                i <= fields.len(),
                views(fields@) == self@.fields(),
                forall|k: int| 0 <= k < i ==> (#[trigger] self@.fields()[k]).type_info().copyable,
            decreases fields.len() - i,
        {
            proof {
                assert(views(fields@)[i as int] == fields@[i as int]@);
            }
            if !fields[i].type_ref().is_copy() {
                return false;
            }
            i += 1;
        }
        true
    }

    /// The kind that the shape of the class suggests: a value type where it
    /// qualifies as one, else a type behind an indirection.
    pub fn detect_kind(&self) -> (r: Kind)
        ensures
            r == if self@.detect_class_simplicity() {
                Kind::Simple
            } else {
                Kind::Boxed
            },
    {
        if self.detect_class_simplicity() {
            Kind::Simple
        } else {
            Kind::Boxed
        }
    }

    /// The identities of the types that the member surface depends on.
    pub fn dependent_ids(&self) -> (r: Vec<usize>)
        ensures
            r@ == self@.dependent_ids(),
            ids_below(r@, self@.entity.ast.types.len() as int),
    {
        let ast = self.entity.ast();
        let fields = self.fields();
        let mut found: Vec<usize> = Vec::new();
        let mut i: usize = 0;
        let ghost all_fields = views(fields@);
        while i < fields.len()
            invariant
                i <= fields.len(),
                self@.wf(),
                all_fields == views(fields@),
                all_fields == self@.fields(),
                forall|k: int| 0 <= k < fields@.len() ==> (#[trigger] fields@[k])@.wf(),
                found@ == field_walks(all_fields.take(i as int)),
                ids_below(found@, self@.entity.ast.types.len() as int),
            decreases fields.len() - i,
        {
            let field = &fields[i];
            proof {
                assert(all_fields.take(i + 1).drop_last() =~= all_fields.take(i as int));
                assert(all_fields.take(i + 1).last() == field@);
                assert(field@ == self@.fields()[i as int]);
            }
            if !field.is_excluded() {
                let info = field.type_ref().info();
                proof {
                    let ast = self@.entity.ast;
                    let own = self@.entity.decl();
                    let fid = own.fields@[i as int];
                    assert(own.links_within(ast.decls.len() as int, ast.types.len() as int));
                    assert(all_fields[i as int] == field@);
                    assert(self@.fields().len() == own.fields@.len());
                    assert(all_fields.len() == fields@.len());
                    assert(self@.fields()[i as int] == self@.field_at(fid));
                    assert(field@.entity == self@.entity.at(fid));
                    assert(ast.decls[fid as int].links_within(
                        ast.decls.len() as int,
                        ast.types.len() as int,
                    ));
                    assert(ast.types[field@.type_id() as int].links_within(ast.types.len() as int));
                }
                append_ids(&mut found, &info.dependent);
            }
            i += 1;
        }
        let methods = self.methods();
        let ghost from_fields = found@;
        let ghost all_methods = views(methods@);
        let mut j: usize = 0;
        proof {
            assert(all_fields.take(all_fields.len() as int) =~= all_fields);
            assert(from_fields + method_walks(all_methods.take(0)) =~= from_fields);
            self@.methods_stay_within(self@.entity.decl().methods@);
        }
        while j < methods.len()
            invariant
                j <= methods.len(),
                self@.wf(),
                all_methods == views(methods@),
                all_methods == self@.methods(),
                forall|k: int|
                    0 <= k < all_methods.len() ==> (#[trigger] all_methods[k]).entity.ast
                        == self@.entity.ast,
                from_fields == field_walks(self@.fields()),
                found@ == from_fields + method_walks(all_methods.take(j as int)),
                ids_below(found@, self@.entity.ast.types.len() as int),
            decreases methods.len() - j,
        {
            let method = &methods[j];
            proof {
                assert(all_methods.take(j + 1).drop_last() =~= all_methods.take(j as int));
                assert(all_methods.take(j + 1).last() == method@);
                assert(all_methods[j as int] == method@);
            }
            if !method.is_excluded() {
                let more = method.dependent_ids();
                proof {
                    assert(from_fields + method_walks(all_methods.take(j as int)) + more@
                        =~= from_fields + (method_walks(all_methods.take(j as int)) + more@));
                }
                append_ids(&mut found, &more);
            }
            j += 1;
        }
        proof {
            assert(all_methods.take(all_methods.len() as int) =~= all_methods);
        }
        dedup_ids(&found, ast.types_len())
    }

    /// The types that the member surface depends on, each once, in the order
    /// of their first occurrence: those reached from the types of the fields
    /// that are not excluded, then those reached from the signatures of the
    /// callable members that are not excluded.
    pub fn dependent_types(&self) -> (r: Vec<TypeRef<'tu>>)
        ensures
            views(r@) == self@.dependent_types(),
    {
        let ids = self.dependent_ids();
        self.entity.ast().type_refs(&ids)
    }
    /// The generated module the class belongs to.
    pub fn rust_module(&self) -> (r: String)
        ensures
            r@ == self@.rust_module(),
    {
        self.entity.decl().module.clone()
    }

    /// The last component of the generated name.
    pub fn rust_leafname(&self) -> (r: String)
        requires
            self@.has_type(),
        ensures
            r@ == self@.rust_leafname(),
    {
        if self.type_ref().is_string() {
            proof {
                reveal_strlit("String");
                assert("String"@ =~= string_leafname());
            }
            String::from_str("String")
        } else {
            self.cpp_localname()
        }
    }

    /// The generated name inside its module.
    pub fn rust_localname(&self) -> (r: String)
        requires
            self@.has_type(),
        ensures
            r@ == self@.rust_localname(),
    {
        self.rust_leafname()
    }

    /// The generated name with its module.
    pub fn rust_fullname(&self) -> (r: String)
        requires
            self@.has_type(),
        ensures
            r@ == self@.rust_fullname(),
    {
        let module = self.rust_module();
        let local = self.rust_localname();
        qualify(module.as_str(), local.as_str())
    }

    /// The generated name, with or without its module.
    pub fn rust_name(&self, full: bool) -> (r: String)
        requires
            self@.has_type(),
        ensures
            r@ == self@.rust_name(full),
    {
        if full {
            self.rust_fullname()
        } else {
            self.rust_localname()
        }
    }

    /// The name of the capability interface of the class.
    pub fn rust_trait_name(&self, full: bool) -> (r: String)
        requires
            self@.has_type(),
        ensures
            r@ == self@.rust_trait_name(full),
    {
        let mut out = self.rust_name(full);
        if self.is_trait() && !self.is_abstract() {
            proof {
                reveal_strlit("Trait");
                assert("Trait"@ =~= trait_suffix());
            }
            out.append("Trait");
        }
        out
    }

    /// The name of the capability interface inside its module.
    pub fn rust_trait_localname(&self) -> (r: String)
        requires
            self@.has_type(),
        ensures
            r@ == self@.rust_trait_name(false),
    {
        self.rust_trait_name(false)
    }

    /// The name of the capability interface with its module.
    pub fn rust_trait_fullname(&self) -> (r: String)
        requires
            self@.has_type(),
        ensures
            r@ == self@.rust_trait_name(true),
    {
        self.rust_trait_name(true)
    }

    /// The name under which the class is shown.
    pub fn to_string(&self) -> (r: String)
        requires
            self@.display_name() is Some,
        ensures
            r@ == self@.display_name()->Some_0,
    {
        match &self.entity.decl().display_name {
            Some(name) => name.clone(),
            None => vstd::pervasive::unreached(),
        }
    }

    /// The names of the properties that hold of the class, in a fixed order.
    pub fn props(&self) -> (r: Vec<&'static str>)
        ensures
            texts(r@) == self@.props(),
    {
        let kind = self.kind();
        let mut props: Vec<&'static str> = Vec::new();
        proof {
            assert(texts(props@) =~= Seq::<Seq<char>>::empty());
            assert(Seq::<Seq<char>>::empty() + prop(self@.is_template(), "template"@) =~= prop(
                self@.is_template(),
                "template"@,
            ));
        }
        push_prop(&mut props, self.is_template(), "template");
        push_prop(&mut props, self.is_template_specialization(), "template_specialization");
        push_prop(&mut props, self.is_abstract(), "abstract");
        push_prop(&mut props, kind.by_ptr(), "trait");
        push_prop(&mut props, kind.by_ptr(), "by_ptr");
        push_prop(&mut props, kind == Kind::Simple, "simple");
        push_prop(&mut props, self.has_descendants(), "has_descendants");
        push_prop(&mut props, self.has_methods(), "has_methods");
        push_prop(&mut props, self.has_fields(), "has_fields");
        push_prop(&mut props, self.has_bases(), "has_bases");
        props
    }

    /// The names of the properties that hold of the class, separated by a
    /// comma and a blank.
    pub fn props_text(&self) -> (r: String)
        ensures
            r@ == joined(self@.props(), ", "@),
    {
        let props = self.props();
        join(&props, ", ")
    }
}

} // verus!
