//! The decisions of the class model as functions of the plain facts they
//! rest on.

use vstd::prelude::*;
use crate::ast::SourceLocation;
use crate::env::ExportConfig;
use crate::kind::Kind;

verus! {

/// The kind of a class. The first rule that applies decides: a match with an
/// exclusion pattern excludes; a manual export decision chooses between
/// value type and indirection; a listed system type is a system type; else
/// the kind found by the whole-program pass counts; a class that none of
/// these covers is excluded.
pub open spec fn classified(
    matches_exclusion: bool,
    manual: Option<ExportConfig>,
    system: bool,
    found: Option<Kind>,
) -> Kind {
    if matches_exclusion {
        Kind::Excluded
    } else {
        match manual {
            Some(config) => if config.simple {
                Kind::Simple
            } else {
                Kind::Boxed
            },
            None => if system {
                Kind::System
            } else {
                match found {
                    Some(kind) => kind,
                    None => Kind::Excluded,
                }
            },
        }
    }
}

/// Decides the kind of a class from whether its name matches an exclusion
/// pattern, the manual export decision, whether it is a listed system type,
/// and the kind found by the whole-program pass.
pub fn classify(
    matches_exclusion: bool,
    manual: Option<ExportConfig>,
    system: bool,
    found: Option<Kind>,
) -> (r: Kind)
    ensures
        r == classified(matches_exclusion, manual, system, found),
{
    if matches_exclusion {
        return Kind::Excluded;
    }
    match manual {
        Some(config) => if config.simple {
            Kind::Simple
        } else {
            Kind::Boxed
        },
        None => {
            if system {
                Kind::System
            } else {
                match found {
                    Some(kind) => kind,
                    None => Kind::Excluded,
                }
            }
        },
    }
}

/// A declaration is the defining one if a located definition is known and
/// the declaration stands at the same place or has no place of its own.
pub open spec fn defines(own: Option<SourceLocation>, definition: Option<SourceLocation>) -> bool {
    match definition {
        None => false,
        Some(definition) => match own {
            Some(own) => own == definition,
            None => true,
        },
    }
}

/// Decides whether a declaration is the defining one from its own place and
/// the place of its definition.
pub fn is_defining(own: Option<SourceLocation>, definition: Option<SourceLocation>) -> (r: bool)
    ensures
        r == defines(own, definition),
{
    match (own, definition) {
        (Some(own), Some(definition)) => own == definition,
        (_, None) => false,
        _ => true,
    }
}

/// A class is passed over if it is not public, if its name matches an ignore
/// pattern, if it is a template with unbound parameters, if it instantiates
/// a template without being listed as implemented, or if it is neither an
/// instantiation nor the defining declaration.
pub open spec fn passed_over(
    public: bool,
    matches_ignore: bool,
    template: bool,
    specialization: bool,
    implemented: bool,
    definition: bool,
) -> bool {
    ||| !public
    ||| matches_ignore
    ||| template
    ||| (specialization && !implemented)
    ||| (!specialization && !definition)
}

/// Decides whether a class is passed over.
pub fn is_passed_over(
    public: bool,
    matches_ignore: bool,
    template: bool,
    specialization: bool,
    implemented: bool,
    definition: bool,
) -> (r: bool)
    ensures
        r == passed_over(public, matches_ignore, template, specialization, implemented, definition),
{
    !public || matches_ignore || template || specialization && !implemented || !specialization
        && !definition
}

} // verus!
