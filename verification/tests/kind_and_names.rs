use class_model::ast::SourceLocation;
use class_model::dedup::dedup_ids;
use class_model::env::ExportConfig;
use class_model::kind::Kind;
use class_model::names::{find_last_separator, join, localname, namespace, qualify};
use class_model::oracle::{classify, is_defining, is_passed_over};
use class_model::pattern::{PatternError, PatternSet};

#[test]
fn boxed_is_the_only_kind_passed_by_pointer() {
    assert!(Kind::Boxed.by_ptr());
    assert!(!Kind::Simple.by_ptr());
    assert!(!Kind::System.by_ptr());
    assert!(!Kind::Excluded.by_ptr());
}

#[test]
fn namespace_is_what_stands_before_the_last_separator() {
    assert_eq!(namespace("cv::dnn::Net"), "cv::dnn");
    assert_eq!(namespace("cv::Mat"), "cv");
    assert_eq!(namespace("Mat"), "");
    assert_eq!(namespace(""), "");
    assert_eq!(namespace("::Mat"), "");
}

#[test]
fn localname_is_what_stands_behind_the_last_separator() {
    assert_eq!(localname("cv::dnn::Net"), "Net");
    assert_eq!(localname("cv::Mat"), "Mat");
    assert_eq!(localname("Mat"), "Mat");
    assert_eq!(localname("cv::"), "");
    assert_eq!(localname(""), "");
}

#[test]
fn last_separator_is_found_among_single_colons() {
    assert_eq!(find_last_separator("a:b::c:d"), Some(3));
    assert_eq!(find_last_separator("a:b:c"), None);
    assert_eq!(find_last_separator(":::"), Some(1));
    assert_eq!(find_last_separator("::"), Some(0));
    assert_eq!(find_last_separator(":"), None);
}

#[test]
fn separator_positions_count_characters_not_bytes() {
    assert_eq!(find_last_separator("té::ñ"), Some(2));
    assert_eq!(namespace("té::ñ"), "té");
    assert_eq!(localname("té::ñ"), "ñ");
}

#[test]
fn qualify_joins_scope_and_name() {
    assert_eq!(qualify("cv", "Mat"), "cv::Mat");
    assert_eq!(qualify("", "Mat"), "Mat");
    assert_eq!(qualify("cv::dnn", "Net"), "cv::dnn::Net");
}

#[test]
fn qualify_undoes_the_split_of_a_qualified_name() {
    let name = "cv::dnn::Net";
    assert_eq!(qualify(&namespace(name), &localname(name)), name);
}

#[test]
fn join_puts_the_separator_between_neighbours() {
    assert_eq!(join(&vec!["a", "b", "c"], ", "), "a, b, c");
    assert_eq!(join(&vec!["a"], ", "), "a");
    assert_eq!(join(&vec![], ", "), "");
}

#[test]
fn dedup_keeps_first_occurrences_in_order() {
    assert_eq!(dedup_ids(&vec![3, 1, 3, 2, 1, 0], 4), vec![3, 1, 2, 0]);
    assert_eq!(dedup_ids(&vec![], 0), Vec::<usize>::new());
    assert_eq!(dedup_ids(&vec![5, 5, 5], 6), vec![5]);
}

#[test]
fn dedup_is_idempotent_under_repeated_union() {
    let once = dedup_ids(&vec![2, 0, 2, 1], 3);
    let mut twice = once.clone();
    twice.extend(once.iter().copied());
    assert_eq!(dedup_ids(&twice, 3), once);
}

#[test]
fn pattern_set_matches_like_the_expressions_it_was_built_from() {
    let set = PatternSet::new(&vec!["^cv::String$".to_string(), "^cv::internal::.*$".to_string()])
        .ok()
        .unwrap();
    assert!(set.is_match("cv::String"));
    assert!(set.is_match("cv::internal::format"));
    assert!(!set.is_match("cv::Strings"));
    assert!(!set.is_match("^cv::String$"));
    assert!(!set.is_match("cv::Mat"));
}

#[test]
fn pattern_is_unanchored_unless_it_says_otherwise() {
    let set = PatternSet::new(&vec!["Impl".to_string()]).ok().unwrap();
    assert!(set.is_match("cv::MatImpl"));
    assert!(set.is_match("cv::ImplBase"));
    assert!(!set.is_match("cv::Mat"));
}

#[test]
fn empty_pattern_set_matches_nothing() {
    let set = PatternSet::new(&vec![]).ok().unwrap();
    assert!(!set.is_match(""));
    assert!(!set.is_match("cv::Mat"));
}

#[test]
fn invalid_expression_is_reported() {
    let r = PatternSet::new(&vec!["cv::(".to_string()]);
    assert!(matches!(r, Err(PatternError::Invalid)));
}

#[test]
fn classification_follows_the_precedence_of_its_rules() {
    let simple = Some(ExportConfig { simple: true });
    let boxed = Some(ExportConfig { simple: false });
    assert_eq!(classify(true, simple, true, Some(Kind::Boxed)), Kind::Excluded);
    assert_eq!(classify(true, None, false, None), Kind::Excluded);
    assert_eq!(classify(false, simple, true, Some(Kind::Boxed)), Kind::Simple);
    assert_eq!(classify(false, boxed, true, Some(Kind::Simple)), Kind::Boxed);
    assert_eq!(classify(false, None, true, Some(Kind::Simple)), Kind::System);
    assert_eq!(classify(false, None, false, Some(Kind::Simple)), Kind::Simple);
    assert_eq!(classify(false, None, false, Some(Kind::Boxed)), Kind::Boxed);
    assert_eq!(classify(false, None, false, Some(Kind::System)), Kind::System);
    assert_eq!(classify(false, None, false, Some(Kind::Excluded)), Kind::Excluded);
    assert_eq!(classify(false, None, false, None), Kind::Excluded);
}

#[test]
fn classification_is_the_same_when_asked_twice() {
    for excluded in [false, true] {
        for system in [false, true] {
            for found in [None, Some(Kind::Simple), Some(Kind::Boxed)] {
                assert_eq!(
                    classify(excluded, None, system, found),
                    classify(excluded, None, system, found)
                );
            }
        }
    }
}

#[test]
fn definition_is_decided_from_the_two_places() {
    let a = Some(SourceLocation { file: 1, line: 2, column: 3 });
    let b = Some(SourceLocation { file: 1, line: 2, column: 4 });
    let other_file = Some(SourceLocation { file: 2, line: 2, column: 3 });
    assert!(is_defining(a, a));
    assert!(!is_defining(a, b));
    assert!(!is_defining(a, other_file));
    assert!(!is_defining(a, None));
    assert!(!is_defining(None, None));
    assert!(is_defining(None, a));
}

#[test]
fn each_reason_alone_makes_a_class_passed_over() {
    assert!(!is_passed_over(true, false, false, false, false, true));
    assert!(!is_passed_over(true, false, false, true, true, false));
    assert!(is_passed_over(false, false, false, false, false, true));
    assert!(is_passed_over(true, true, false, false, false, true));
    assert!(is_passed_over(true, false, true, false, false, true));
    assert!(is_passed_over(true, false, true, true, true, true));
    assert!(is_passed_over(true, false, false, true, false, true));
    assert!(is_passed_over(true, false, false, false, true, false));
}
