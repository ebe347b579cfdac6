//! Name patterns: sets of regular expressions that fully-qualified native
//! names are tested against.

use vstd::prelude::*;

verus! {

#[verifier::external_type_specification]
#[verifier::external_body]
pub struct ExRegexSet(regex::RegexSet);

#[verifier::external_type_specification]
#[verifier::external_body]
pub struct ExRegexError(regex::Error);

/// The expressions a compiled set was built from, in the order given.
pub uninterp spec fn regex_set_patterns(set: regex::RegexSet) -> Seq<Seq<char>>;

/// Whether the given expressions compile together into one set.
pub uninterp spec fn regex_set_compiles(patterns: Seq<Seq<char>>) -> bool;

/// Whether at least one of the given expressions matches somewhere in the text.
pub uninterp spec fn regex_set_is_match(patterns: Seq<Seq<char>>, text: Seq<char>) -> bool;

/// `regex::RegexSet::new`: compiles the expressions into one set. Whether this
/// succeeds depends on the expressions alone, and a set that was built holds
/// exactly the expressions it was given, in their order.
#[verifier::external_body]
fn compile_set(patterns: &Vec<String>) -> (r: Result<regex::RegexSet, regex::Error>)
    ensures
        r is Ok == regex_set_compiles(patterns.deep_view()),
        r matches Ok(set) ==> regex_set_patterns(set) == patterns.deep_view(),
{
    regex::RegexSet::new(patterns)
}

/// `regex::RegexSet::is_match`: true if and only if one of the expressions of
/// the set matches the text. The answer depends on the expressions and the
/// text alone; a set without expressions matches nothing.
#[verifier::external_body]
fn set_is_match(set: &regex::RegexSet, text: &str) -> (r: bool)
    ensures
        r == regex_set_is_match(regex_set_patterns(*set), text@),
        regex_set_patterns(*set).len() == 0 ==> !r,
{
    set.is_match(text)
}

/// Why a list of expressions could not be turned into a pattern set.
#[derive(Clone, Copy, Debug, PartialEq, Eq, Structural)]
pub enum PatternError {
    /// One of the expressions is not a valid regular expression, or the
    /// compiled set would be too large.
    Invalid,
}

/// A compiled set of regular expressions over fully-qualified names.
pub struct PatternSet {
    set: regex::RegexSet,
}

impl PatternSet {
    /// The expressions of this set.
    pub closed spec fn patterns(&self) -> Seq<Seq<char>> {
        regex_set_patterns(self.set)
    }

    /// Whether a name is matched by at least one expression of the set.
    pub open spec fn matches(&self, name: Seq<char>) -> bool {
        self.patterns().len() > 0 && regex_set_is_match(self.patterns(), name)
    }

    /// Compiles the given expressions.
    pub fn new(patterns: &Vec<String>) -> (r: Result<PatternSet, PatternError>)
        ensures
            r is Ok == regex_set_compiles(patterns.deep_view()),
            r matches Ok(set) ==> set.patterns() == patterns.deep_view(),
            r matches Err(e) ==> e == PatternError::Invalid,
    {
        match compile_set(patterns) {
            Ok(set) => Ok(PatternSet { set }),
            Err(_) => Err(PatternError::Invalid),
        }
    }

    /// Tests a name against the set.
    pub fn is_match(&self, name: &str) -> (r: bool)
        ensures
            r == self.matches(name@),
    {
        set_is_match(&self.set, name)
    }
}

} // verus!
