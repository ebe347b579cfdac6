use class_model::ast::{Ast, Declaration};
use class_model::class::Class;
use class_model::env::{GeneratorEnv, Settings};
use class_model::inheritance::{ancestors, direct_bases};

fn env() -> GeneratorEnv {
    GeneratorEnv::new(Settings::new(&vec![], &vec![], vec![], vec![], vec![]).ok().unwrap())
}

/// Builds classes `0..n`; class `c` has one base specifier per entry of
/// `bases[c]`, which leads to the class of that number, or nowhere for `None`.
fn graph(bases: &[&[Option<usize>]]) -> Ast {
    let n = bases.len();
    let mut decls: Vec<Declaration> = Vec::new();
    for c in 0..n {
        decls.push(Declaration::new("cv", &format!("C{}", c)));
    }
    for c in 0..n {
        for target in bases[c] {
            let mut specifier = Declaration::new("", "");
            specifier.definition = *target;
            let id = decls.len();
            decls.push(specifier);
            decls[c].bases.push(id);
        }
    }
    Ast::new(decls, vec![]).unwrap()
}

fn ids(classes: &[Class]) -> Vec<usize> {
    classes.iter().map(|c| c.identity()).collect()
}

#[test]
fn bases_follow_the_order_of_the_base_specifiers() {
    let ast = graph(&[&[Some(2), Some(1)], &[], &[]]);
    let env = env();
    let class = Class::new(ast.entity(0).unwrap(), &env);
    assert!(class.has_bases());
    assert_eq!(ids(&class.bases()), vec![2, 1]);
    assert_eq!(direct_bases(&ast, 0), Some(vec![2, 1]));
    let leaf = Class::new(ast.entity(1).unwrap(), &env);
    assert!(!leaf.has_bases());
    assert_eq!(ids(&leaf.bases()), Vec::<usize>::new());
}

#[test]
fn bases_are_classes_under_their_declared_names() {
    let ast = graph(&[&[Some(1)], &[]]);
    let env = env();
    let class = Class::new_ext(ast.entity(0).unwrap(), "cv::Renamed".to_string(), &env);
    let bases = class.bases();
    assert_eq!(bases[0].cpp_fullname(), "cv::C1");
}

#[test]
fn unresolved_base_is_reported() {
    let ast = graph(&[&[Some(1), None], &[]]);
    let env = env();
    let class = Class::new(ast.entity(0).unwrap(), &env);
    assert!(class.has_bases());
    assert!(class.checked_bases().is_none());
    assert!(class.checked_all_bases().is_none());
    assert_eq!(direct_bases(&ast, 0), None);
    assert_eq!(ancestors(&ast, 0), None);
}

#[test]
fn unresolved_base_of_an_ancestor_is_reported() {
    let ast = graph(&[&[Some(1)], &[Some(2)], &[None]]);
    let env = env();
    let class = Class::new(ast.entity(0).unwrap(), &env);
    assert_eq!(ids(&class.checked_bases().unwrap()), vec![1]);
    assert!(class.checked_all_bases().is_none());
    let middle = Class::new(ast.entity(1).unwrap(), &env);
    assert!(middle.checked_all_bases().is_none());
}

#[test]
fn unresolved_base_elsewhere_does_not_matter() {
    let ast = graph(&[&[Some(1)], &[], &[None]]);
    let env = env();
    let class = Class::new(ast.entity(0).unwrap(), &env);
    assert_eq!(ids(&class.checked_all_bases().unwrap()), vec![1]);
}

#[test]
fn specialization_takes_the_bases_of_its_template() {
    let mut pattern = Declaration::new("cv", "Ptr");
    pattern.template_pattern = true;
    pattern.bases = vec![3];
    let mut specialization = Declaration::new("cv", "Ptr<int>");
    specialization.template = Some(0);
    let base = Declaration::new("cv", "Base");
    let mut specifier = Declaration::new("", "");
    specifier.definition = Some(2);
    let ast = Ast::new(vec![pattern, specialization, base, specifier], vec![]).unwrap();
    let env = env();
    let class = Class::new(ast.entity(1).unwrap(), &env);
    assert!(!class.has_bases());
    assert_eq!(ids(&class.bases()), vec![2]);
    assert_eq!(ids(&class.all_bases()), vec![2]);
    let pattern = Class::new(ast.entity(0).unwrap(), &env);
    assert!(pattern.has_bases());
    assert_eq!(ids(&pattern.bases()), vec![2]);
}

#[test]
fn all_bases_is_the_transitive_closure() {
    let ast = graph(&[&[Some(1)], &[Some(2)], &[Some(3)], &[], &[Some(0)]]);
    let env = env();
    assert_eq!(ids(&Class::new(ast.entity(0).unwrap(), &env).all_bases()), vec![1, 2, 3]);
    assert_eq!(ids(&Class::new(ast.entity(2).unwrap(), &env).all_bases()), vec![3]);
    assert_eq!(ids(&Class::new(ast.entity(3).unwrap(), &env).all_bases()), Vec::<usize>::new());
    assert_eq!(ids(&Class::new(ast.entity(4).unwrap(), &env).all_bases()), vec![0, 1, 2, 3]);
}

#[test]
fn all_bases_lists_a_shared_ancestor_once() {
    let ast = graph(&[&[Some(2), Some(1)], &[Some(3)], &[Some(3)], &[]]);
    let env = env();
    let class = Class::new(ast.entity(0).unwrap(), &env);
    assert_eq!(ids(&class.bases()), vec![2, 1]);
    assert_eq!(ids(&class.all_bases()), vec![1, 2, 3]);
    assert_eq!(ancestors(&ast, 0), Some(vec![1, 2, 3]));
}

#[test]
fn all_bases_lists_a_repeated_base_once() {
    let ast = graph(&[&[Some(1), Some(1)], &[]]);
    let env = env();
    let class = Class::new(ast.entity(0).unwrap(), &env);
    assert_eq!(ids(&class.bases()), vec![1, 1]);
    assert_eq!(ids(&class.all_bases()), vec![1]);
}

#[test]
fn all_bases_ends_on_a_cycle() {
    let ast = graph(&[&[Some(1)], &[Some(2)], &[Some(0)], &[Some(3)]]);
    let env = env();
    assert_eq!(ids(&Class::new(ast.entity(0).unwrap(), &env).all_bases()), vec![0, 1, 2]);
    assert_eq!(ids(&Class::new(ast.entity(3).unwrap(), &env).all_bases()), vec![3]);
}

#[test]
fn all_bases_copes_with_a_long_chain() {
    let n = 2000;
    let chain: Vec<Vec<Option<usize>>> =
        (0..n).map(|c| if c + 1 < n { vec![Some(c + 1)] } else { vec![] }).collect();
    let slices: Vec<&[Option<usize>]> = chain.iter().map(|v| v.as_slice()).collect();
    let ast = graph(&slices);
    let env = env();
    let all = Class::new(ast.entity(0).unwrap(), &env).all_bases();
    assert_eq!(ids(&all), (1..n).collect::<Vec<usize>>());
}
