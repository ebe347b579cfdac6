//! What holds of every class model, whatever the snapshot and the
//! environment.

use vstd::prelude::*;
use crate::class_view::{field_walks, method_walks, ClassView};
use crate::dedup::{dedup, dedup_absorbs, dedup_is_set, dedup_keeps_members, dedup_of_set};
use crate::field::FieldView;
use crate::func::{FuncView, TypeHintView};
use crate::kind::Kind;

verus! {

/// The kind of a class is a function of the declaration, the name and the
/// environment: two models that agree on them have the same kind, so asking
/// twice gives the same answer.
pub proof fn kind_is_determined(a: ClassView, b: ClassView)
    requires
        a == b,
    ensures
        a.kind() == b.kind(),
{
}

/// A class whose name matches an exclusion pattern is excluded, whatever the
/// manual export decisions, the table of system types and the whole-program
/// pass say.
pub proof fn exclusion_comes_first(c: ClassView)
    requires
        c.gen_env.settings.excludes(c.cpp_fullname()),
    ensures
        c.kind() == Kind::Excluded,
{
}

/// For a class with a manual export decision, the decision and the exclusion
/// patterns alone give the kind: what the whole-program pass found, which
/// descendants are known and what the class looks like change nothing.
pub proof fn manual_decision_beats_heuristic(a: ClassView, b: ClassView)
    requires
        a.gen_env.export_config_of(a.id()) is Some,
        a.gen_env.export_config_of(a.id()) == b.gen_env.export_config_of(b.id()),
        a.gen_env.settings.excludes(a.cpp_fullname()) == b.gen_env.settings.excludes(
            b.cpp_fullname(),
        ),
    ensures
        a.kind() == b.kind(),
        !a.gen_env.settings.excludes(a.cpp_fullname()) ==> a.kind() == (if a.gen_env.export_config_of(
            a.id(),
        )->Some_0.simple {
            Kind::Simple
        } else {
            Kind::Boxed
        }),
{
}

/// A class qualifies as a value type exactly when it has no bases, no known
/// descendants and only copyable fields: each of the three alone, when it
/// fails, denies the verdict.
pub proof fn simplicity_needs_all_three(c: ClassView)
    ensures
        c.has_bases() ==> !c.detect_class_simplicity(),
        c.has_descendants() ==> !c.detect_class_simplicity(),
        !c.fields_copyable() ==> !c.detect_class_simplicity(),
        !c.has_bases() && !c.has_descendants() && c.fields_copyable()
            ==> c.detect_class_simplicity(),
{
}

/// A field that is not excluded stands with exactly one accessor, its
/// getter, if its type is const-qualified or an array of fixed size, and
/// with exactly two, getter and setter, otherwise.
pub proof fn accessors_of_one_field(c: ClassView, field: FieldView)
    requires
        !field.excluded(),
    ensures
        c.field_methods(seq![field]) == c.accessors(field),
        c.accessors(field)[0] == c.getter(field),
        field.type_info().constant ==> c.accessors(field).len() == 1,
        !field.type_info().constant && field.type_info().fixed_array ==> c.accessors(field).len()
            == 1,
        !field.type_info().constant && !field.type_info().fixed_array ==> c.accessors(
            field,
        ).len() == 2 && c.accessors(field)[1] == c.setter(field),
{
    let one = seq![field];
    assert(one.drop_last() =~= Seq::<FieldView>::empty());
    assert(c.field_methods(one.drop_last()) =~= Seq::<FuncView>::empty());
    assert(c.field_methods(one) =~= c.accessors(field));
}

/// An excluded field stands with no accessor.
pub proof fn excluded_field_has_no_accessor(c: ClassView, field: FieldView)
    requires
        field.excluded(),
    ensures
        c.accessors(field).len() == 0,
{
}

/// A declaration at the place of its definition is the definition; without
/// a located definition it is not; without a place of its own, but with a
/// located definition, it is.
pub proof fn definition_resolution(c: ClassView)
    ensures
        c.entity.decl().location is Some && c.definition_location()
            == c.entity.decl().location ==> c.is_definition(),
        c.definition_location() is None ==> !c.is_definition(),
        c.entity.decl().location is None && c.definition_location() is Some ==> c.is_definition(),
        c.entity.decl().location is Some && c.definition_location() is Some
            && c.definition_location() != c.entity.decl().location ==> !c.is_definition(),
{
}

/// A template with unbound parameters is always passed over, and an
/// instantiation that is not passed over is listed as implemented.
pub proof fn templates_are_passed_over(c: ClassView)
    ensures
        c.is_template() ==> c.is_ignored(),
        c.is_template_specialization() && !c.gen_env.settings.is_implemented_generic(
            c.cpp_fullname(),
        ) ==> c.is_ignored(),
        c.is_template_specialization() && !c.is_ignored()
            ==> c.gen_env.settings.is_implemented_generic(c.cpp_fullname()),
{
}

/// A method declaration contributes nothing to the member surface exactly
/// when it is generic and the settings request no instantiation, or request
/// an empty list of them; a plain method always contributes itself.
pub proof fn dropped_methods_are_generic(c: ClassView, m: usize)
    ensures
        c.is_unspecialized(m) ==> c.expand_method(m).len() == 0,
        !c.entity.ast.decls[m as int].generic ==> c.expand_method(m) == seq![
            c.func_at(m, TypeHintView::Plain),
        ],
        c.expand_method(m).len() == 0 ==> c.entity.ast.decls[m as int].generic,
{
}

/// A type is found from the fields exactly when the walk of the type of a
/// field that is not excluded finds it.
pub proof fn field_walks_members(fields: Seq<FieldView>, x: usize)
    ensures
        field_walks(fields).contains(x) <==> exists|k: int|
            0 <= k < fields.len() && !(#[trigger] fields[k]).excluded()
                && fields[k].type_info().dependent@.contains(x),
    decreases fields.len(),
{
    if fields.len() > 0 {
        let init = fields.drop_last();
        let last = fields.last();
        field_walks_members(init, x);
        if field_walks(fields).contains(x) {
            if !last.excluded() {
                let whole = field_walks(init) + last.type_info().dependent@;
                let i = choose|i: int| 0 <= i < whole.len() && whole[i] == x;
                if i < field_walks(init).len() {
                    assert(field_walks(init)[i] == x);
                    assert(field_walks(init).contains(x));
                } else {
                    assert(last.type_info().dependent@[i - field_walks(init).len()] == x);
                    assert(last.type_info().dependent@.contains(x));
                    assert(fields[fields.len() - 1] == last);
                }
            }
            if field_walks(init).contains(x) {
                let k = choose|k: int|
                    0 <= k < init.len() && !(#[trigger] init[k]).excluded()
                        && init[k].type_info().dependent@.contains(x);
                assert(fields[k] == init[k]);
            }
        }
        if exists|k: int|
            0 <= k < fields.len() && !(#[trigger] fields[k]).excluded()
                && fields[k].type_info().dependent@.contains(x) {
            let k = choose|k: int|
                0 <= k < fields.len() && !(#[trigger] fields[k]).excluded()
                    && fields[k].type_info().dependent@.contains(x);
            if k < init.len() {
                assert(init[k] == fields[k]);
                assert(field_walks(init).contains(x));
                let i = choose|i: int| 0 <= i < field_walks(init).len() && field_walks(init)[i] == x;
                if !last.excluded() {
                    assert((field_walks(init) + last.type_info().dependent@)[i] == x);
                }
            } else {
                let d = last.type_info().dependent@;
                let i = choose|i: int| 0 <= i < d.len() && d[i] == x;
                assert((field_walks(init) + d)[field_walks(init).len() + i] == x);
            }
        }
    }
}

/// A type is found from the callables exactly when the walk of the signature
/// of a callable that is not excluded finds it.
pub proof fn method_walks_members(funcs: Seq<FuncView>, x: usize)
    ensures
        method_walks(funcs).contains(x) <==> exists|k: int|
            0 <= k < funcs.len() && !(#[trigger] funcs[k]).entity.decl().excluded
                && funcs[k].dependent_ids().contains(x),
    decreases funcs.len(),
{
    if funcs.len() > 0 {
        let init = funcs.drop_last();
        let last = funcs.last();
        method_walks_members(init, x);
        if method_walks(funcs).contains(x) {
            if !last.entity.decl().excluded {
                let whole = method_walks(init) + last.dependent_ids();
                let i = choose|i: int| 0 <= i < whole.len() && whole[i] == x;
                if i < method_walks(init).len() {
                    assert(method_walks(init)[i] == x);
                    assert(method_walks(init).contains(x));
                } else {
                    assert(last.dependent_ids()[i - method_walks(init).len()] == x);
                    assert(last.dependent_ids().contains(x));
                    assert(funcs[funcs.len() - 1] == last);
                }
            }
            if method_walks(init).contains(x) {
                let k = choose|k: int|
                    0 <= k < init.len() && !(#[trigger] init[k]).entity.decl().excluded
                        && init[k].dependent_ids().contains(x);
                assert(funcs[k] == init[k]);
            }
        }
        if exists|k: int|
            0 <= k < funcs.len() && !(#[trigger] funcs[k]).entity.decl().excluded
                && funcs[k].dependent_ids().contains(x) {
            let k = choose|k: int|
                0 <= k < funcs.len() && !(#[trigger] funcs[k]).entity.decl().excluded
                    && funcs[k].dependent_ids().contains(x);
            if k < init.len() {
                assert(init[k] == funcs[k]);
                assert(method_walks(init).contains(x));
                let i = choose|i: int|
                    0 <= i < method_walks(init).len() && method_walks(init)[i] == x;
                if !last.entity.decl().excluded {
                    assert((method_walks(init) + last.dependent_ids())[i] == x);
                }
            } else {
                let d = last.dependent_ids();
                let i = choose|i: int| 0 <= i < d.len() && d[i] == x;
                assert((method_walks(init) + d)[method_walks(init).len() + i] == x);
            }
        }
    }
}

/// The dependent types of a class form a set: none is listed twice, and a
/// type is listed exactly when a field or a callable member that is not
/// excluded leads to it. What only excluded members lead to is not listed.
pub proof fn dependent_types_are_a_set(c: ClassView)
    ensures
        c.dependent_ids().no_duplicates(),
        forall|x: usize| #[trigger]
            c.dependent_ids().contains(x) <==> (exists|k: int|
                0 <= k < c.fields().len() && !(#[trigger] c.fields()[k]).excluded()
                    && c.fields()[k].type_info().dependent@.contains(x)) || (exists|k: int|
                0 <= k < c.methods().len() && !(#[trigger] c.methods()[k]).entity.decl().excluded
                    && c.methods()[k].dependent_ids().contains(x)),
{
    let from_fields = field_walks(c.fields());
    let from_methods = method_walks(c.methods());
    let all = from_fields + from_methods;
    dedup_is_set(all);
    dedup_keeps_members(all);
    assert forall|x: usize| #[trigger]
        c.dependent_ids().contains(x) <==> (exists|k: int|
            0 <= k < c.fields().len() && !(#[trigger] c.fields()[k]).excluded()
                && c.fields()[k].type_info().dependent@.contains(x)) || (exists|k: int|
            0 <= k < c.methods().len() && !(#[trigger] c.methods()[k]).entity.decl().excluded
                && c.methods()[k].dependent_ids().contains(x)) by {
        field_walks_members(c.fields(), x);
        method_walks_members(c.methods(), x);
        if all.contains(x) {
            let i = choose|i: int| 0 <= i < all.len() && all[i] == x;
            if i < from_fields.len() {
                assert(from_fields[i] == x);
                assert(from_fields.contains(x));
            } else {
                assert(from_methods[i - from_fields.len()] == x);
                assert(from_methods.contains(x));
            }
        }
        if from_fields.contains(x) {
            let i = choose|i: int| 0 <= i < from_fields.len() && from_fields[i] == x;
            assert(all[i] == x);
        }
        if from_methods.contains(x) {
            let i = choose|i: int| 0 <= i < from_methods.len() && from_methods[i] == x;
            assert(all[from_fields.len() + i] == x);
        }
    }
}

/// Uniting the dependent types of a class with themselves, or with any part
/// of them, changes nothing.
pub proof fn dependent_types_union_is_idempotent(c: ClassView, part: Seq<usize>)
    requires
        forall|i: int| 0 <= i < part.len() ==> c.dependent_ids().contains(#[trigger] part[i]),
    ensures
        dedup(c.dependent_ids() + c.dependent_ids()) == c.dependent_ids(),
        dedup(c.dependent_ids() + part) == c.dependent_ids(),
{
    let ids = c.dependent_ids();
    dedup_is_set(field_walks(c.fields()) + method_walks(c.methods()));
    dedup_of_set(ids);
    assert forall|i: int| 0 <= i < ids.len() implies ids.contains(#[trigger] ids[i]) by {}
    dedup_absorbs(ids, ids);
    dedup_absorbs(ids, part);
}

} // verus!
