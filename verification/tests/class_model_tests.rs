use std::collections::hash_map::DefaultHasher;
use std::hash::{Hash, Hasher};

use class_model::ast::{Ast, Declaration, SourceLocation, TypeInfo};
use class_model::class::Class;
use class_model::env::{ExportConfig, FuncSpecialize, GeneratorEnv, Settings, Specialization};
use class_model::func::FunctionTypeHint;
use class_model::kind::Kind;
use class_model::pattern::PatternError;

fn strings(items: &[&str]) -> Vec<String> {
    items.iter().map(|s| s.to_string()).collect()
}

fn settings_with(exclude: &[&str], system: &[&str], generics: &[&str]) -> Settings {
    Settings::new(&strings(exclude), &strings(&[]), strings(system), strings(generics), vec![])
        .ok()
        .unwrap()
}

fn plain_env() -> GeneratorEnv {
    GeneratorEnv::new(settings_with(&[], &[], &[]))
}

fn type_info(constant: bool, copyable: bool, fixed_array: bool) -> TypeInfo {
    TypeInfo { constant, copyable, fixed_array, string: false, dependent: vec![] }
}

fn typed(namespace: &str, name: &str, type_id: usize) -> Declaration {
    let mut d = Declaration::new(namespace, name);
    d.type_id = Some(type_id);
    d
}

fn hash_of(c: &Class) -> u64 {
    let mut h = DefaultHasher::new();
    c.hash(&mut h);
    h.finish()
}

fn ids(classes: &[Class]) -> Vec<usize> {
    classes.iter().map(|c| c.identity()).collect()
}

/// 0: class cv::Point with one const int field (1); type 0: the class, type 1: const int.
fn const_field_class() -> Ast {
    let mut class = typed("cv", "Point", 0);
    class.fields = vec![1];
    let field = typed("cv::Point", "x", 1);
    Ast::new(vec![class, field], vec![type_info(false, true, false), type_info(true, true, false)])
        .unwrap()
}

#[test]
fn class_with_const_field_is_simple_with_one_getter() {
    let ast = const_field_class();
    let mut env = plain_env();
    let detected = {
        let class = Class::new(ast.entity(0).unwrap(), &env);
        assert!(!class.has_bases());
        assert!(!class.has_descendants());
        assert!(class.detect_class_simplicity());
        class.detect_kind()
    };
    assert_eq!(detected, Kind::Simple);
    env.set_class_kind(0, detected);
    let class = Class::new(ast.entity(0).unwrap(), &env);
    assert_eq!(class.kind(), Kind::Simple);
    assert!(class.is_simple());
    assert!(!class.is_by_ptr());
    let accessors = class.field_methods(&class.fields());
    assert_eq!(accessors.len(), 1);
    assert!(matches!(accessors[0].type_hint(), FunctionTypeHint::Plain));
    assert_eq!(accessors[0].entity().id(), 1);
    let setters = accessors
        .iter()
        .filter(|f| matches!(f.type_hint(), FunctionTypeHint::FieldSetter))
        .count();
    assert_eq!(setters, 0);
}

/// 0: abstract class cv::Algo with bases (1, 2) and a method (5); 3, 4: the base classes.
fn abstract_class_with_two_bases() -> Ast {
    let mut class = typed("cv", "Algo", 0);
    class.abstract_record = true;
    class.bases = vec![1, 2];
    class.methods = vec![5];
    let mut first = Declaration::new("", "");
    first.definition = Some(3);
    let mut second = Declaration::new("", "");
    second.definition = Some(4);
    let a = typed("cv", "A", 0);
    let b = typed("cv", "B", 0);
    let method = Declaration::new("cv::Algo", "run");
    Ast::new(vec![class, first, second, a, b, method], vec![type_info(false, false, false)]).unwrap()
}

#[test]
fn abstract_class_with_two_bases_is_boxed() {
    let ast = abstract_class_with_two_bases();
    let mut env = plain_env();
    let detected = {
        let class = Class::new(ast.entity(0).unwrap(), &env);
        assert!(class.is_abstract());
        assert!(class.has_bases());
        assert!(!class.detect_class_simplicity());
        class.detect_kind()
    };
    assert_eq!(detected, Kind::Boxed);
    env.set_class_kind(0, detected);
    let class = Class::new(ast.entity(0).unwrap(), &env);
    assert_eq!(class.kind(), Kind::Boxed);
    assert!(class.is_trait());
    assert!(class.is_by_ptr());
    assert!(class.is_boxed());
    assert!(!class.is_simple());
    assert_eq!(ids(&class.bases()), vec![3, 4]);
}

#[test]
fn views_of_one_declaration_are_equal_and_hash_alike() {
    let ast = const_field_class();
    let env = plain_env();
    let plain = Class::new(ast.entity(0).unwrap(), &env);
    let renamed = Class::new_ext(ast.entity(0).unwrap(), "cv::Point_<int>".to_string(), &env);
    let other = Class::new(ast.entity(1).unwrap(), &env);
    assert!(plain == renamed);
    assert_eq!(hash_of(&plain), hash_of(&renamed));
    assert!(plain != other);
    assert_eq!(plain.identity(), renamed.identity());
    assert_ne!(plain.cpp_fullname(), renamed.cpp_fullname());
}

#[test]
fn kind_is_the_same_when_asked_twice() {
    let ast = const_field_class();
    let mut env = GeneratorEnv::new(settings_with(&["^cv::Hidden$"], &["cv::String"], &[]));
    env.set_class_kind(0, Kind::Boxed);
    let class = Class::new(ast.entity(0).unwrap(), &env);
    assert_eq!(class.kind(), class.kind());
    let again = Class::new(ast.entity(0).unwrap(), &env);
    assert_eq!(class.kind(), again.kind());
}

#[test]
fn exclusion_pattern_beats_override_and_system_table() {
    let ast = const_field_class();
    let mut env = GeneratorEnv::new(settings_with(&["^cv::Point$"], &["cv::Point"], &[]));
    env.set_export_config(0, ExportConfig { simple: true });
    env.set_class_kind(0, Kind::Boxed);
    let class = Class::new(ast.entity(0).unwrap(), &env);
    assert_eq!(class.kind(), Kind::Excluded);
    assert!(class.is_excluded());
    assert!(!class.is_by_ptr());
    assert!(!class.is_simple());
}

#[test]
fn exclusion_goes_by_the_custom_name_where_one_is_given() {
    let ast = const_field_class();
    let mut env = GeneratorEnv::new(settings_with(&["^cv::Point$"], &[], &[]));
    env.set_export_config(0, ExportConfig { simple: true });
    let renamed = Class::new_ext(ast.entity(0).unwrap(), "cv::Point2i".to_string(), &env);
    assert_eq!(renamed.kind(), Kind::Simple);
    let hidden = Class::new_ext(ast.entity(1).unwrap(), "cv::Point".to_string(), &env);
    assert_eq!(hidden.kind(), Kind::Excluded);
}

#[test]
fn manual_override_beats_system_table_and_detected_kind() {
    let ast = const_field_class();
    let mut env = GeneratorEnv::new(settings_with(&[], &["cv::Point"], &[]));
    env.set_export_config(0, ExportConfig { simple: false });
    env.set_class_kind(0, Kind::Simple);
    let class = Class::new(ast.entity(0).unwrap(), &env);
    assert!(class.detect_class_simplicity());
    assert_eq!(class.kind(), Kind::Boxed);
    let mut env = GeneratorEnv::new(settings_with(&[], &[], &[]));
    env.set_export_config(0, ExportConfig { simple: true });
    env.set_class_kind(0, Kind::Boxed);
    let class = Class::new(ast.entity(0).unwrap(), &env);
    assert_eq!(class.kind(), Kind::Simple);
}

#[test]
fn system_table_beats_detected_kind() {
    let ast = const_field_class();
    let mut env = GeneratorEnv::new(settings_with(&[], &["cv::Point"], &[]));
    env.set_class_kind(0, Kind::Simple);
    let class = Class::new(ast.entity(0).unwrap(), &env);
    assert!(class.is_system());
    assert_eq!(class.kind(), Kind::System);
    assert!(!class.is_by_ptr());
}

#[test]
fn unknown_class_is_excluded() {
    let ast = const_field_class();
    let env = plain_env();
    let class = Class::new(ast.entity(0).unwrap(), &env);
    assert_eq!(class.kind(), Kind::Excluded);
    assert!(!class.is_by_ptr());
    assert!(!class.is_trait());
}

#[test]
fn detected_kind_is_used_when_nothing_else_applies() {
    let ast = const_field_class();
    for kind in [Kind::Simple, Kind::Boxed, Kind::System, Kind::Excluded] {
        let mut env = plain_env();
        env.set_class_kind(0, kind);
        let class = Class::new(ast.entity(0).unwrap(), &env);
        assert_eq!(class.kind(), kind);
        assert_eq!(class.is_by_ptr(), kind == Kind::Boxed);
        assert_eq!(class.is_trait(), kind == Kind::Boxed);
        assert_eq!(class.is_boxed(), kind == Kind::Boxed);
        assert_eq!(class.is_simple(), kind == Kind::Simple);
    }
}

#[test]
fn simplicity_fails_when_the_class_has_a_base() {
    let mut class = typed("cv", "Point", 0);
    class.fields = vec![1];
    class.bases = vec![2];
    let field = typed("cv::Point", "x", 1);
    let base = Declaration::new("", "");
    let ast = Ast::new(
        vec![class, field, base],
        vec![type_info(false, true, false), type_info(false, true, false)],
    )
    .unwrap();
    let env = plain_env();
    let class = Class::new(ast.entity(0).unwrap(), &env);
    assert!(!class.detect_class_simplicity());
    assert_eq!(class.detect_kind(), Kind::Boxed);
}

#[test]
fn simplicity_fails_when_the_class_has_a_descendant() {
    let ast = const_field_class();
    let mut env = plain_env();
    env.add_descendant(0, 7);
    let class = Class::new(ast.entity(0).unwrap(), &env);
    assert!(class.has_descendants());
    assert!(!class.detect_class_simplicity());
    let other = Class::new(ast.entity(1).unwrap(), &env);
    assert!(!other.has_descendants());
}

#[test]
fn simplicity_fails_when_a_field_is_not_copyable() {
    let mut class = typed("cv", "Holder", 0);
    class.fields = vec![1, 2];
    let first = typed("cv::Holder", "a", 1);
    let second = typed("cv::Holder", "b", 2);
    let ast = Ast::new(
        vec![class, first, second],
        vec![
            type_info(false, true, false),
            type_info(false, true, false),
            type_info(false, false, false),
        ],
    )
    .unwrap();
    let env = plain_env();
    let class = Class::new(ast.entity(0).unwrap(), &env);
    assert!(!class.has_bases());
    assert!(!class.has_descendants());
    assert!(!class.detect_class_simplicity());
}

#[test]
fn class_without_fields_bases_and_descendants_is_simple() {
    let ast = Ast::new(vec![typed("cv", "Empty", 0)], vec![type_info(false, false, false)]).unwrap();
    let env = plain_env();
    let class = Class::new(ast.entity(0).unwrap(), &env);
    assert!(class.detect_class_simplicity());
    assert!(!class.has_fields());
    assert!(!class.has_methods());
}

/// Fields 1..=4 of class 0: const scalar, plain scalar, plain array, excluded scalar.
fn class_with_four_fields() -> Ast {
    let mut class = typed("cv", "Rec", 0);
    class.fields = vec![1, 2, 3, 4];
    let constant = typed("cv::Rec", "a", 1);
    let scalar = typed("cv::Rec", "b", 2);
    let array = typed("cv::Rec", "c", 3);
    let mut hidden = typed("cv::Rec", "d", 2);
    hidden.excluded = true;
    Ast::new(
        vec![class, constant, scalar, array, hidden],
        vec![
            type_info(false, true, false),
            type_info(true, true, false),
            type_info(false, true, false),
            type_info(false, true, true),
        ],
    )
    .unwrap()
}

#[test]
fn const_field_yields_a_getter_only() {
    let ast = class_with_four_fields();
    let env = plain_env();
    let class = Class::new(ast.entity(0).unwrap(), &env);
    let fields = class.fields();
    let accessors = class.field_methods(&vec![fields[0]]);
    assert_eq!(accessors.len(), 1);
    assert!(matches!(accessors[0].type_hint(), FunctionTypeHint::Plain));
    assert_eq!(accessors[0].entity().id(), 1);
}

#[test]
fn scalar_field_yields_a_getter_and_a_setter() {
    let ast = class_with_four_fields();
    let env = plain_env();
    let class = Class::new(ast.entity(0).unwrap(), &env);
    let fields = class.fields();
    let accessors = class.field_methods(&vec![fields[1]]);
    assert_eq!(accessors.len(), 2);
    assert!(matches!(accessors[0].type_hint(), FunctionTypeHint::Plain));
    assert!(matches!(accessors[1].type_hint(), FunctionTypeHint::FieldSetter));
    assert_eq!(accessors[0].entity().id(), 2);
    assert_eq!(accessors[1].entity().id(), 2);
}

#[test]
fn array_field_yields_a_getter_only() {
    let ast = class_with_four_fields();
    let env = plain_env();
    let class = Class::new(ast.entity(0).unwrap(), &env);
    let fields = class.fields();
    let accessors = class.field_methods(&vec![fields[2]]);
    assert_eq!(accessors.len(), 1);
    assert!(matches!(accessors[0].type_hint(), FunctionTypeHint::Plain));
}

#[test]
fn const_array_field_yields_a_getter_only() {
    let mut class = typed("cv", "Rec", 0);
    class.fields = vec![1];
    let field = typed("cv::Rec", "a", 1);
    let ast = Ast::new(
        vec![class, field],
        vec![type_info(false, true, false), type_info(true, true, true)],
    )
    .unwrap();
    let env = plain_env();
    let class = Class::new(ast.entity(0).unwrap(), &env);
    assert_eq!(class.field_methods(&class.fields()).len(), 1);
}

#[test]
fn excluded_field_yields_no_accessor() {
    let ast = class_with_four_fields();
    let env = plain_env();
    let class = Class::new(ast.entity(0).unwrap(), &env);
    let fields = class.fields();
    assert!(fields[3].is_excluded());
    assert_eq!(class.field_methods(&vec![fields[3]]).len(), 0);
}

#[test]
fn accessors_follow_the_order_of_the_fields() {
    let ast = class_with_four_fields();
    let env = plain_env();
    let class = Class::new(ast.entity(0).unwrap(), &env);
    let accessors = class.field_methods(&class.fields());
    let got: Vec<(usize, bool)> = accessors
        .iter()
        .map(|f| (f.entity().id(), matches!(f.type_hint(), FunctionTypeHint::FieldSetter)))
        .collect();
    assert_eq!(got, vec![(1, false), (2, false), (2, true), (3, false)]);
    assert_eq!(class.field_methods(&vec![]).len(), 0);
}

fn located(namespace: &str, name: &str, location: Option<SourceLocation>) -> Declaration {
    let mut d = Declaration::new(namespace, name);
    d.location = location;
    d
}

#[test]
fn declaration_at_the_place_of_its_definition_is_the_definition() {
    let here = SourceLocation { file: 1, line: 10, column: 7 };
    let mut class = located("cv", "Mat", Some(here));
    class.definition = Some(0);
    let ast = Ast::new(vec![class], vec![]).unwrap();
    let env = plain_env();
    assert!(Class::new(ast.entity(0).unwrap(), &env).is_definition());
}

#[test]
fn forward_declaration_is_not_the_definition() {
    let mut forward = located("cv", "Mat", Some(SourceLocation { file: 1, line: 3, column: 7 }));
    forward.definition = Some(1);
    let mut full = located("cv", "Mat", Some(SourceLocation { file: 1, line: 10, column: 7 }));
    full.definition = Some(1);
    let ast = Ast::new(vec![forward, full], vec![]).unwrap();
    let env = plain_env();
    assert!(!Class::new(ast.entity(0).unwrap(), &env).is_definition());
    assert!(Class::new(ast.entity(1).unwrap(), &env).is_definition());
}

#[test]
fn declaration_without_a_definition_is_not_the_definition() {
    let located_only = located("cv", "Mat", Some(SourceLocation { file: 1, line: 3, column: 7 }));
    let nowhere = located("cv", "Mat", None);
    let ast = Ast::new(vec![located_only, nowhere], vec![]).unwrap();
    let env = plain_env();
    assert!(!Class::new(ast.entity(0).unwrap(), &env).is_definition());
    assert!(!Class::new(ast.entity(1).unwrap(), &env).is_definition());
}

#[test]
fn definition_without_a_location_does_not_count() {
    let mut class = located("cv", "Mat", Some(SourceLocation { file: 1, line: 3, column: 7 }));
    class.definition = Some(1);
    let unlocated = located("cv", "Mat", None);
    let ast = Ast::new(vec![class, unlocated], vec![]).unwrap();
    let env = plain_env();
    assert!(!Class::new(ast.entity(0).unwrap(), &env).is_definition());
}

#[test]
fn declaration_without_a_location_but_with_a_definition_is_the_definition() {
    let mut class = located("cv", "Mat", None);
    class.definition = Some(1);
    let full = located("cv", "Mat", Some(SourceLocation { file: 1, line: 10, column: 7 }));
    let ast = Ast::new(vec![class, full], vec![]).unwrap();
    let env = plain_env();
    assert!(Class::new(ast.entity(0).unwrap(), &env).is_definition());
}

/// 0: template pattern, 1: listed specialization, 2: unlisted specialization,
/// 3: plain definition, 4: plain forward declaration, 5: private definition.
fn template_family() -> Ast {
    let here = |line: u32| Some(SourceLocation { file: 1, line, column: 1 });
    let mut pattern = located("cv", "Ptr", here(1));
    pattern.template_pattern = true;
    pattern.definition = Some(0);
    let mut listed = located("cv", "Ptr<float>", here(2));
    listed.template = Some(0);
    let mut unlisted = located("cv", "Ptr<int>", here(3));
    unlisted.template = Some(0);
    unlisted.definition = Some(2);
    let mut plain = located("cv", "Mat", here(4));
    plain.definition = Some(3);
    let mut forward = located("cv", "Mat", here(5));
    forward.definition = Some(3);
    let mut private = located("cv", "Impl", here(6));
    private.definition = Some(5);
    private.public = false;
    Ast::new(vec![pattern, listed, unlisted, plain, forward, private], vec![]).unwrap()
}

#[test]
fn template_pattern_is_always_ignored() {
    let ast = template_family();
    let env = GeneratorEnv::new(settings_with(&[], &[], &["cv::Ptr", "cv::Ptr<float>"]));
    let pattern = Class::new(ast.entity(0).unwrap(), &env);
    assert!(pattern.is_template());
    assert!(!pattern.is_template_specialization());
    assert!(pattern.is_definition());
    assert!(pattern.is_ignored());
}

#[test]
fn only_listed_specializations_are_surfaced() {
    let ast = template_family();
    let env = GeneratorEnv::new(settings_with(&[], &[], &["cv::Ptr<float>"]));
    let listed = Class::new(ast.entity(1).unwrap(), &env);
    assert!(listed.is_template_specialization());
    assert!(!listed.is_definition());
    assert!(!listed.is_ignored());
    let unlisted = Class::new(ast.entity(2).unwrap(), &env);
    assert!(unlisted.is_template_specialization());
    assert!(unlisted.is_ignored());
    let renamed = Class::new_ext(ast.entity(2).unwrap(), "cv::Ptr<float>".to_string(), &env);
    assert!(!renamed.is_ignored());
}

#[test]
fn plain_class_is_ignored_unless_it_is_the_public_definition() {
    let ast = template_family();
    let env = plain_env();
    assert!(!Class::new(ast.entity(3).unwrap(), &env).is_ignored());
    assert!(Class::new(ast.entity(4).unwrap(), &env).is_ignored());
    assert!(Class::new(ast.entity(5).unwrap(), &env).is_ignored());
}

#[test]
fn ignore_pattern_makes_a_class_ignored() {
    let ast = template_family();
    let settings =
        Settings::new(&strings(&[]), &strings(&["^cv::Mat$"]), vec![], vec![], vec![]).ok().unwrap();
    let env = GeneratorEnv::new(settings);
    assert!(Class::new(ast.entity(3).unwrap(), &env).is_ignored());
    assert!(!Class::new_ext(ast.entity(3).unwrap(), "cv::Mat2".to_string(), &env).is_ignored());
}

#[test]
fn as_template_is_the_pattern_under_its_declared_name() {
    let ast = template_family();
    let env = plain_env();
    let listed = Class::new_ext(ast.entity(1).unwrap(), "cv::PtrOfFloat".to_string(), &env);
    let pattern = listed.as_template().unwrap();
    assert_eq!(pattern.identity(), 0);
    assert_eq!(pattern.cpp_fullname(), "cv::Ptr");
    assert!(Class::new(ast.entity(3).unwrap(), &env).as_template().is_none());
}

#[test]
fn class_outside_every_namespace_is_excluded() {
    let ast = Ast::new(vec![Declaration::new("", "CvMat"), Declaration::new("cv", "Mat")], vec![])
        .unwrap();
    let mut env = plain_env();
    env.set_export_config(0, ExportConfig { simple: true });
    env.set_export_config(1, ExportConfig { simple: true });
    let legacy = Class::new(ast.entity(0).unwrap(), &env);
    assert_eq!(legacy.kind(), Kind::Simple);
    assert!(legacy.is_excluded());
    let modern = Class::new(ast.entity(1).unwrap(), &env);
    assert!(!modern.is_excluded());
    let renamed = Class::new_ext(ast.entity(1).unwrap(), "Mat".to_string(), &env);
    assert!(renamed.is_excluded());
    let unknown = Class::new(ast.entity(1).unwrap(), &plain_env_static());
    assert!(unknown.is_excluded());
}

fn plain_env_static() -> &'static GeneratorEnv {
    Box::leak(Box::new(plain_env()))
}

#[test]
fn names_come_from_the_declaration_or_the_custom_name() {
    let ast = Ast::new(vec![Declaration::new("cv::dnn", "Net"), Declaration::new("", "Top")], vec![])
        .unwrap();
    let env = plain_env();
    let declared = Class::new(ast.entity(0).unwrap(), &env);
    assert_eq!(declared.cpp_fullname(), "cv::dnn::Net");
    assert_eq!(declared.cpp_namespace(), "cv::dnn");
    assert_eq!(declared.cpp_localname(), "Net");
    let custom = Class::new_ext(ast.entity(0).unwrap(), "cv::ml::Model".to_string(), &env);
    assert_eq!(custom.cpp_fullname(), "cv::ml::Model");
    assert_eq!(custom.cpp_namespace(), "cv::ml");
    assert_eq!(custom.cpp_localname(), "Model");
    let top = Class::new(ast.entity(1).unwrap(), &env);
    assert_eq!(top.cpp_fullname(), "Top");
    assert_eq!(top.cpp_namespace(), "");
    assert_eq!(top.cpp_localname(), "Top");
}

#[test]
fn trait_name_gets_the_suffix_for_a_concrete_boxed_class() {
    let mut concrete = typed("cv", "Net", 0);
    concrete.module = "dnn".to_string();
    let mut abstract_one = typed("cv", "Algo", 0);
    abstract_one.module = "core".to_string();
    abstract_one.abstract_record = true;
    let simple = typed("cv", "Point", 0);
    let ast = Ast::new(vec![concrete, abstract_one, simple], vec![type_info(false, false, false)])
        .unwrap();
    let mut env = plain_env();
    env.set_export_config(0, ExportConfig { simple: false });
    env.set_export_config(1, ExportConfig { simple: false });
    env.set_export_config(2, ExportConfig { simple: true });
    let concrete = Class::new(ast.entity(0).unwrap(), &env);
    assert_eq!(concrete.rust_trait_name(false), "NetTrait");
    assert_eq!(concrete.rust_trait_name(true), "dnn::NetTrait");
    assert_eq!(concrete.rust_trait_localname(), "NetTrait");
    assert_eq!(concrete.rust_trait_fullname(), "dnn::NetTrait");
    assert_eq!(concrete.rust_name(true), "dnn::Net");
    assert_eq!(concrete.rust_module(), "dnn");
    let abstract_one = Class::new(ast.entity(1).unwrap(), &env);
    assert_eq!(abstract_one.rust_trait_localname(), "Algo");
    assert_eq!(abstract_one.rust_trait_fullname(), "core::Algo");
    let simple = Class::new(ast.entity(2).unwrap(), &env);
    assert_eq!(simple.rust_trait_localname(), "Point");
    assert_eq!(simple.rust_trait_fullname(), "Point");
}

#[test]
fn string_types_share_one_leaf_name() {
    let string_class = typed("std", "basic_string", 0);
    let other = typed("cv", "Mat", 1);
    let ast = Ast::new(
        vec![string_class, other],
        vec![
            TypeInfo {
                constant: false,
                copyable: false,
                fixed_array: false,
                string: true,
                dependent: vec![],
            },
            type_info(false, false, false),
        ],
    )
    .unwrap();
    let env = plain_env();
    let string_class = Class::new(ast.entity(0).unwrap(), &env);
    assert!(string_class.type_ref().is_string());
    assert_eq!(string_class.type_ref().id(), 0);
    assert_eq!(string_class.rust_leafname(), "String");
    assert_eq!(string_class.rust_localname(), "String");
    let other = Class::new_ext(ast.entity(1).unwrap(), "cv::Matrix".to_string(), &env);
    assert_eq!(other.rust_leafname(), "Matrix");
    assert_eq!(other.type_ref().id(), 1);
}

#[test]
fn display_name_is_shown() {
    let mut class = Declaration::new("cv", "Ptr");
    class.display_name = Some("Ptr<float>".to_string());
    let ast = Ast::new(vec![class], vec![]).unwrap();
    let env = plain_env();
    assert_eq!(Class::new(ast.entity(0).unwrap(), &env).to_string(), "Ptr<float>");
}

#[test]
fn props_list_what_holds_in_a_fixed_order() {
    let ast = abstract_class_with_two_bases();
    let mut env = plain_env();
    env.set_class_kind(0, Kind::Boxed);
    env.add_descendant(0, 3);
    let class = Class::new(ast.entity(0).unwrap(), &env);
    assert_eq!(
        class.props(),
        vec!["abstract", "trait", "by_ptr", "has_descendants", "has_methods", "has_bases"]
    );
    assert_eq!(
        class.props_text(),
        "abstract, trait, by_ptr, has_descendants, has_methods, has_bases"
    );
    let ast = const_field_class();
    let mut env = plain_env();
    env.set_class_kind(0, Kind::Simple);
    let class = Class::new(ast.entity(0).unwrap(), &env);
    assert_eq!(class.props(), vec!["simple", "has_fields"]);
    let bare = Class::new(ast.entity(1).unwrap(), &env);
    assert_eq!(bare.props_text(), "");
    let ast = template_family();
    let pattern = Class::new(ast.entity(0).unwrap(), &env);
    assert_eq!(pattern.props_text(), "template, simple");
    let listed = Class::new(ast.entity(1).unwrap(), &env);
    assert_eq!(listed.props_text(), "template_specialization");
}

fn method(name: &str, generic: bool, identifier: &str) -> Declaration {
    let mut d = Declaration::new("cv::Mat", name);
    d.generic = generic;
    d.identifier = identifier.to_string();
    d
}

fn binding(parameter: &str, concrete: &str) -> Specialization {
    Specialization { bindings: vec![(parameter.to_string(), concrete.to_string())] }
}

/// Methods of class 0: 1 plain, 2 generic with two instantiations, 3 generic
/// with none, 4 plain clone.
fn class_with_methods() -> Ast {
    let mut class = typed("cv", "Mat", 0);
    class.methods = vec![1, 2, 3, 4];
    let mut clone = method("clone", false, "cv_Mat_clone");
    clone.clone_method = true;
    Ast::new(
        vec![
            class,
            method("rows", false, "cv_Mat_rows"),
            method("at", true, "cv_Mat_at"),
            method("ptr", true, "cv_Mat_ptr"),
            clone,
        ],
        vec![type_info(false, false, false)],
    )
    .unwrap()
}

fn env_with_specializations() -> GeneratorEnv {
    let specialize = vec![
        FuncSpecialize {
            identifier: "cv_Mat_at".to_string(),
            specializations: vec![binding("T", "int"), binding("T", "float")],
        },
        FuncSpecialize {
            identifier: "cv_Mat_at".to_string(),
            specializations: vec![binding("T", "double")],
        },
        FuncSpecialize { identifier: "cv_Mat_rows".to_string(), specializations: vec![] },
    ];
    GeneratorEnv::new(Settings::new(&vec![], &vec![], vec![], vec![], specialize).ok().unwrap())
}

#[test]
fn generic_method_is_expanded_into_its_instantiations() {
    let ast = class_with_methods();
    let env = env_with_specializations();
    let class = Class::new(ast.entity(0).unwrap(), &env);
    let methods = class.methods();
    let got: Vec<(usize, Option<String>)> = methods
        .iter()
        .map(|m| {
            let bound = match m.type_hint() {
                FunctionTypeHint::Specialized(s) => Some(s.bindings[0].1.clone()),
                _ => None,
            };
            (m.entity().id(), bound)
        })
        .collect();
    assert_eq!(
        got,
        vec![
            (1, None),
            (2, Some("int".to_string())),
            (2, Some("float".to_string())),
            (4, None),
        ]
    );
    assert!(matches!(methods[0].type_hint(), FunctionTypeHint::Plain));
    assert!(class.has_methods());
}

#[test]
fn generic_method_without_instantiations_is_dropped() {
    let ast = class_with_methods();
    let env = plain_env();
    let class = Class::new(ast.entity(0).unwrap(), &env);
    let got: Vec<usize> = class.methods().iter().map(|m| m.entity().id()).collect();
    assert_eq!(got, vec![1, 4]);
}

#[test]
fn generic_methods_without_instantiations_are_listed_apart() {
    let ast = class_with_methods();
    let env = env_with_specializations();
    let class = Class::new(ast.entity(0).unwrap(), &env);
    let got: Vec<usize> = class.unspecialized_methods().iter().map(|m| m.entity().id()).collect();
    assert_eq!(got, vec![3]);
    let none = plain_env();
    let class = Class::new(ast.entity(0).unwrap(), &none);
    let got: Vec<usize> = class.unspecialized_methods().iter().map(|m| m.entity().id()).collect();
    assert_eq!(got, vec![2, 3]);
    assert!(matches!(class.unspecialized_methods()[0].type_hint(), FunctionTypeHint::Plain));
}

#[test]
fn clone_is_another_view_of_the_same_class() {
    let ast = const_field_class();
    let env = plain_env();
    let renamed = Class::new_ext(ast.entity(0).unwrap(), "cv::Point2i".to_string(), &env);
    let copy = renamed.clone();
    assert!(copy == renamed);
    assert_eq!(copy.cpp_fullname(), "cv::Point2i");
    assert_eq!(copy.identity(), 0);
}

#[test]
fn specializations_are_those_of_the_first_entry_for_the_identifier() {
    let env = env_with_specializations();
    let found = env.settings.specializations_for("cv_Mat_at").unwrap();
    assert_eq!(found.len(), 2);
    assert_eq!(found[1].bindings[0].1, "float");
    assert_eq!(env.settings.specializations_for("cv_Mat_rows").unwrap().len(), 0);
    assert!(env.settings.specializations_for("cv_Mat_ptr").is_none());
}

#[test]
fn has_clone_looks_at_the_surfaced_methods() {
    let ast = class_with_methods();
    let env = plain_env();
    assert!(Class::new(ast.entity(0).unwrap(), &env).has_clone());
    assert!(!Class::new(ast.entity(1).unwrap(), &env).has_clone());
    let mut class = typed("cv", "Mat", 0);
    class.methods = vec![1];
    let mut clone = method("clone", true, "cv_Mat_clone");
    clone.clone_method = true;
    let ast = Ast::new(vec![class, clone], vec![type_info(false, false, false)]).unwrap();
    assert!(!Class::new(ast.entity(0).unwrap(), &env).has_clone());
}

#[test]
fn consts_and_fields_follow_declaration_order() {
    let mut class = typed("cv", "Flags", 0);
    class.consts = vec![3, 1];
    class.fields = vec![2];
    let ast = Ast::new(
        vec![
            class,
            Declaration::new("cv::Flags", "B"),
            typed("cv::Flags", "bits", 0),
            Declaration::new("cv::Flags", "A"),
        ],
        vec![type_info(false, true, false)],
    )
    .unwrap();
    let env = plain_env();
    let class = Class::new(ast.entity(0).unwrap(), &env);
    let consts: Vec<usize> = class.consts().iter().map(|c| c.entity().id()).collect();
    assert_eq!(consts, vec![3, 1]);
    let fields: Vec<usize> = class.fields().iter().map(|f| f.entity().id()).collect();
    assert_eq!(fields, vec![2]);
    assert_eq!(class.fields()[0].type_ref().id(), 0);
    assert!(class.has_fields());
}

fn walked(dependent: Vec<usize>) -> TypeInfo {
    TypeInfo { constant: false, copyable: true, fixed_array: false, string: false, dependent }
}

/// Class 0 with fields 1 (type 1), 2 (type 2, excluded) and methods 3
/// (arguments of types 3 and 1, returns type 4), 4 (excluded, returns type 5).
fn class_with_dependencies() -> Ast {
    let mut class = typed("cv", "Net", 0);
    class.fields = vec![1, 2];
    class.methods = vec![3, 4];
    let shown = typed("cv::Net", "a", 1);
    let mut hidden = typed("cv::Net", "b", 2);
    hidden.excluded = true;
    let mut run = Declaration::new("cv::Net", "run");
    run.arguments = vec![3, 1];
    run.return_type = Some(4);
    let mut secret = Declaration::new("cv::Net", "secret");
    secret.excluded = true;
    secret.return_type = Some(5);
    Ast::new(
        vec![class, shown, hidden, run, secret],
        vec![
            walked(vec![]),
            walked(vec![6, 7]),
            walked(vec![8]),
            walked(vec![7, 9]),
            walked(vec![6, 4]),
            walked(vec![10]),
            walked(vec![]),
            walked(vec![]),
            walked(vec![]),
            walked(vec![]),
            walked(vec![]),
        ],
    )
    .unwrap()
}

#[test]
fn dependent_types_are_a_set_in_order_of_first_occurrence() {
    let ast = class_with_dependencies();
    let env = plain_env();
    let class = Class::new(ast.entity(0).unwrap(), &env);
    let got: Vec<usize> = class.dependent_types().iter().map(|t| t.id()).collect();
    assert_eq!(got, vec![6, 7, 9, 4]);
    assert_eq!(class.dependent_ids(), vec![6, 7, 9, 4]);
}

#[test]
fn dependent_types_leave_out_what_only_excluded_members_need() {
    let ast = class_with_dependencies();
    let env = plain_env();
    let class = Class::new(ast.entity(0).unwrap(), &env);
    let got = class.dependent_ids();
    assert!(!got.contains(&8));
    assert!(!got.contains(&10));
}

#[test]
fn dependent_types_of_a_method_walk_arguments_then_the_result() {
    let ast = class_with_dependencies();
    let env = plain_env();
    let class = Class::new(ast.entity(0).unwrap(), &env);
    let methods = class.methods();
    assert_eq!(methods[0].dependent_ids(), vec![7, 9, 6, 7, 6, 4]);
    let types: Vec<usize> = methods[0].dependent_types().iter().map(|t| t.id()).collect();
    assert_eq!(types, vec![7, 9, 6, 7, 6, 4]);
    assert_eq!(methods[1].dependent_ids(), vec![10]);
}

#[test]
fn dependent_types_count_each_instantiation_once() {
    let mut class = typed("cv", "Mat", 0);
    class.methods = vec![1];
    let mut at = method("at", true, "cv_Mat_at");
    at.return_type = Some(1);
    let ast = Ast::new(vec![class, at], vec![walked(vec![]), walked(vec![0, 1, 0])]).unwrap();
    let env = env_with_specializations();
    let class = Class::new(ast.entity(0).unwrap(), &env);
    assert_eq!(class.methods().len(), 2);
    assert_eq!(class.dependent_ids(), vec![0, 1]);
    let none = plain_env();
    let class = Class::new(ast.entity(0).unwrap(), &none);
    assert_eq!(class.dependent_ids(), Vec::<usize>::new());
}

#[test]
fn snapshot_rejects_links_that_lead_outside() {
    let mut class = Declaration::new("cv", "Mat");
    class.methods = vec![1];
    assert!(Ast::new(vec![class], vec![]).is_none());
    let mut class = Declaration::new("cv", "Mat");
    class.type_id = Some(0);
    assert!(Ast::new(vec![class], vec![]).is_none());
    let mut class = Declaration::new("cv", "Mat");
    class.template = Some(1);
    assert!(Ast::new(vec![class], vec![]).is_none());
    let mut class = Declaration::new("cv", "Mat");
    class.definition = Some(0);
    assert!(Ast::new(vec![class], vec![]).is_some());
    assert!(Ast::new(vec![], vec![walked(vec![1])]).is_none());
    assert!(Ast::new(vec![], vec![walked(vec![0])]).is_some());
    assert!(Ast::new(vec![], vec![]).is_some());
}

#[test]
fn snapshot_rejects_a_field_without_a_type() {
    let mut class = Declaration::new("cv", "Mat");
    class.fields = vec![1];
    let field = Declaration::new("cv::Mat", "rows");
    assert!(Ast::new(vec![class, field], vec![]).is_none());
}

#[test]
fn snapshot_hands_out_handles_for_its_declarations_only() {
    let ast = const_field_class();
    assert_eq!(ast.len(), 2);
    assert_eq!(ast.types_len(), 2);
    assert_eq!(ast.entity(1).unwrap().id(), 1);
    assert!(ast.entity(2).is_none());
    assert_eq!(ast.entity(0).unwrap().decl().name, "Point");
}

#[test]
fn settings_report_a_pattern_that_does_not_compile() {
    let bad = Settings::new(&strings(&["["]), &strings(&[]), vec![], vec![], vec![]);
    assert!(matches!(bad, Err(PatternError::Invalid)));
    let bad = Settings::new(&strings(&[]), &strings(&["(a"]), vec![], vec![], vec![]);
    assert!(matches!(bad, Err(PatternError::Invalid)));
}

#[test]
fn environment_answers_from_its_tables() {
    let mut env = plain_env();
    assert_eq!(env.get_export_config(3), None);
    assert_eq!(env.get_class_kind(3), None);
    assert!(!env.has_descendants(3));
    env.set_export_config(3, ExportConfig { simple: true });
    env.set_export_config(3, ExportConfig { simple: false });
    env.set_class_kind(3, Kind::System);
    env.add_descendant(3, 4);
    env.add_descendant(3, 5);
    assert_eq!(env.get_export_config(3), Some(ExportConfig { simple: false }));
    assert_eq!(env.get_class_kind(3), Some(Kind::System));
    assert!(env.has_descendants(3));
    assert_eq!(env.descendants[&3], vec![4, 5]);
    assert!(!env.has_descendants(4));
}
