//! The read-only analysis environment: curated settings that are keyed by
//! name, and per-pass tables that are keyed by declaration identity.

use std::collections::HashMap;
use vstd::prelude::*;
use crate::kind::Kind;
use crate::pattern::{regex_set_compiles, PatternError, PatternSet};

verus! {

broadcast use vstd::std_specs::hash::group_hash_axioms;

/// A manual decision on how a class is exported.
#[derive(Clone, Copy, Debug, PartialEq, Eq, Structural)]
pub struct ExportConfig {
    /// Export the class as a value type rather than behind an indirection.
    pub simple: bool,
}

/// Concrete types for the template parameters of one instantiation, as pairs
/// of parameter name and type name.
#[derive(Clone, Debug)]
pub struct Specialization {
    pub bindings: Vec<(String, String)>,
}

/// The instantiations requested for one generic callable.
#[derive(Clone, Debug)]
pub struct FuncSpecialize {
    /// Identifier of the generic callable.
    pub identifier: String,
    /// One entry per requested instantiation.
    pub specializations: Vec<Specialization>,
}

/// Some entry of `list` spells `name`.
pub open spec fn lists_name(list: Seq<String>, name: Seq<char>) -> bool {
    exists|i: int| 0 <= i < list.len() && (#[trigger] list[i])@ == name
}

/// `i` is the first entry of `table` for `identifier`.
pub open spec fn first_entry_for(table: Seq<FuncSpecialize>, identifier: Seq<char>, i: int) -> bool {
    &&& 0 <= i < table.len()
    &&& table[i].identifier@ == identifier
    &&& forall|j: int| 0 <= j < i ==> (#[trigger] table[j]).identifier@ != identifier
}

/// No entry of `table` is for `identifier`.
pub open spec fn no_entry_for(table: Seq<FuncSpecialize>, identifier: Seq<char>) -> bool {
    forall|j: int| 0 <= j < table.len() ==> (#[trigger] table[j]).identifier@ != identifier
}

/// The instantiations that `table` requests for `identifier`.
pub open spec fn requested(table: Seq<FuncSpecialize>, identifier: Seq<char>) -> Option<
    Seq<Specialization>,
> {
    if no_entry_for(table, identifier) {
        None
    } else {
        Some(table[choose|i: int| first_entry_for(table, identifier, i)].specializations@)
    }
}

/// Tells whether `list` holds `name`.
pub fn contains_name(list: &Vec<String>, name: &str) -> (r: bool)
    ensures
        r == lists_name(list@, name@),
{
    let wanted = name.to_owned();
    let mut i: usize = 0;
    while i < list.len()
        invariant
            i <= list.len(),
            wanted@ == name@,
            forall|j: int| 0 <= j < i ==> (#[trigger] list@[j])@ != name@,
        decreases list.len() - i,
    {
        if list[i] == wanted {
            return true;
        }
        i += 1;
    }
    false
}

/// Curated, name-keyed configuration of the generator.
pub struct Settings {
    /// Classes whose fully-qualified name matches are not surfaced.
    pub element_exclude: PatternSet,
    /// Declarations whose fully-qualified name matches are passed over.
    pub element_ignore: PatternSet,
    /// Fully-qualified names of the types that the target side already has a
    /// standard representation for.
    pub system_types: Vec<String>,
    /// Fully-qualified names of the template specializations that are
    /// surfaced.
    pub implemented_generics: Vec<String>,
    /// Requested instantiations of generic callables.
    pub func_specialize: Vec<FuncSpecialize>,
}

impl Settings {
    /// Settings with the given exclusion and ignore patterns and the given
    /// tables. Fails if either list of patterns does not compile.
    pub fn new(
        exclude: &Vec<String>,
        ignore: &Vec<String>,
        system_types: Vec<String>,
        implemented_generics: Vec<String>,
        func_specialize: Vec<FuncSpecialize>,
    ) -> (r: Result<Settings, PatternError>)
        ensures
            r is Ok <==> regex_set_compiles(exclude.deep_view()) && regex_set_compiles(
                ignore.deep_view(),
            ),
            r matches Ok(settings) ==> {
                &&& settings.element_exclude.patterns() == exclude.deep_view()
                &&& settings.element_ignore.patterns() == ignore.deep_view()
                &&& settings.system_types == system_types
                &&& settings.implemented_generics == implemented_generics
                &&& settings.func_specialize == func_specialize
            },
            r matches Err(e) ==> e == PatternError::Invalid,
    {
        let element_exclude = match PatternSet::new(exclude) {
            Ok(set) => set,
            Err(e) => {
                return Err(e);
            },
        };
        let element_ignore = match PatternSet::new(ignore) {
            Ok(set) => set,
            Err(e) => {
                return Err(e);
            },
        };
        Ok(
            Settings {
                element_exclude,
                element_ignore,
                system_types,
                implemented_generics,
                func_specialize,
            },
        )
    }

    /// The name matches an exclusion pattern.
    pub open spec fn excludes(&self, name: Seq<char>) -> bool {
        self.element_exclude.matches(name)
    }

    /// The name matches an ignore pattern.
    pub open spec fn ignores(&self, name: Seq<char>) -> bool {
        self.element_ignore.matches(name)
    }

    /// The name belongs to the table of system types.
    pub open spec fn is_system_type(&self, name: Seq<char>) -> bool {
        lists_name(self.system_types@, name)
    }

    /// The name belongs to the surfaced template specializations.
    pub open spec fn is_implemented_generic(&self, name: Seq<char>) -> bool {
        lists_name(self.implemented_generics@, name)
    }

    /// The instantiations requested for a generic callable.
    pub open spec fn specializations_of(&self, identifier: Seq<char>) -> Option<
        Seq<Specialization>,
    > {
        requested(self.func_specialize@, identifier)
    }

    /// Looks up the instantiations requested for a generic callable: those of
    /// the first entry made for its identifier.
    pub fn specializations_for<'a>(&'a self, identifier: &str) -> (r: Option<
        &'a Vec<Specialization>,
    >)
        ensures
            r is Some == self.specializations_of(identifier@) is Some,
            r matches Some(list) ==> list@ == self.specializations_of(identifier@)->Some_0,
    {
        let wanted = identifier.to_owned();
        let mut i: usize = 0;
        while i < self.func_specialize.len()
            invariant
                i <= self.func_specialize.len(),
                wanted@ == identifier@,
                forall|j: int|
                    0 <= j < i ==> (#[trigger] self.func_specialize@[j]).identifier@
                        != identifier@,
            decreases self.func_specialize.len() - i,
        {
            if self.func_specialize[i].identifier == wanted {
                proof {
                    let table = self.func_specialize@;
                    assert(first_entry_for(table, identifier@, i as int));
                    let c = choose|c: int| first_entry_for(table, identifier@, c);
                    assert(c == i);
                }
                return Some(&self.func_specialize[i].specializations);
            }
            i += 1;
        }
        None
    }
}

/// The analysis environment shared by all models of one pass.
pub struct GeneratorEnv {
    /// The curated settings.
    pub settings: Settings,
    /// Manual export decisions, by class identity.
    pub export_config: HashMap<usize, ExportConfig>,
    /// Kinds found by the whole-program pass, by class identity.
    pub class_kinds: HashMap<usize, Kind>,
    /// Known direct descendants, by class identity.
    pub descendants: HashMap<usize, Vec<usize>>,
}

impl GeneratorEnv {
    /// The manual export decision recorded for a class.
    pub open spec fn export_config_of(&self, id: usize) -> Option<ExportConfig> {
        if self.export_config@.contains_key(id) {
            Some(self.export_config@[id])
        } else {
            None
        }
    }

    /// The kind that the whole-program pass found for a class.
    pub open spec fn class_kind_of(&self, id: usize) -> Option<Kind> {
        if self.class_kinds@.contains_key(id) {
            Some(self.class_kinds@[id])
        } else {
            None
        }
    }

    /// At least one descendant is recorded for the class.
    pub open spec fn descendants_known(&self, id: usize) -> bool {
        self.descendants@.contains_key(id) && self.descendants@[id]@.len() > 0
    }

    /// An environment with the given settings and empty tables.
    pub fn new(settings: Settings) -> (r: GeneratorEnv)
        ensures
            r.settings == settings,
            r.export_config@ == Map::<usize, ExportConfig>::empty(),
            r.class_kinds@ == Map::<usize, Kind>::empty(),
            r.descendants@ == Map::<usize, Vec<usize>>::empty(),
    {
        GeneratorEnv {
            settings,
            export_config: HashMap::new(),
            class_kinds: HashMap::new(),
            descendants: HashMap::new(),
        }
    }

    /// Looks up the manual export decision for a class.
    pub fn get_export_config(&self, id: usize) -> (r: Option<ExportConfig>)
        ensures
            r == self.export_config_of(id),
    {
        match self.export_config.get(&id) {
            Some(config) => Some(*config),
            None => None,
        }
    }

    /// Looks up the kind found for a class by the whole-program pass.
    pub fn get_class_kind(&self, id: usize) -> (r: Option<Kind>)
        ensures
            r == self.class_kind_of(id),
    {
        match self.class_kinds.get(&id) {
            Some(kind) => Some(*kind),
            None => None,
        }
    }

    /// Tells whether a descendant is recorded for a class.
    pub fn has_descendants(&self, id: usize) -> (r: bool)
        ensures
            r == self.descendants_known(id),
    {
        match self.descendants.get(&id) {
            Some(list) => list.len() > 0,
            None => false,
        }
    }

    /// Records a manual export decision, replacing an earlier one.
    pub fn set_export_config(&mut self, id: usize, config: ExportConfig)
        ensures
            final(self).export_config@ == old(self).export_config@.insert(id, config),
            final(self).settings == old(self).settings,
            final(self).class_kinds == old(self).class_kinds,
            final(self).descendants == old(self).descendants,
    {
        self.export_config.insert(id, config);
    }

    /// Records the kind found for a class, replacing an earlier one.
    pub fn set_class_kind(&mut self, id: usize, kind: Kind)
        ensures
            final(self).class_kinds@ == old(self).class_kinds@.insert(id, kind),
            final(self).settings == old(self).settings,
            final(self).export_config == old(self).export_config,
            final(self).descendants == old(self).descendants,
    {
        self.class_kinds.insert(id, kind);
    }

    /// Records that `descendant` inherits directly from `base`.
    pub fn add_descendant(&mut self, base: usize, descendant: usize)
        ensures
            final(self).descendants_known(base),
            final(self).descendants@.dom() == old(self).descendants@.dom().insert(base),
            final(self).descendants@[base]@ == (if old(self).descendants@.contains_key(base) {
                old(self).descendants@[base]@.push(descendant)
            } else {
                seq![descendant]
            }),
            forall|id: usize|
                id != base && old(self).descendants@.contains_key(id)
                    ==> final(self).descendants@[id] == old(self).descendants@[id],
            forall|id: usize|
                id != base ==> final(self).descendants_known(id) == old(self).descendants_known(
                    id,
                ),
            final(self).settings == old(self).settings,
            final(self).export_config == old(self).export_config,
            final(self).class_kinds == old(self).class_kinds,
    {
        let mut list = match self.descendants.remove(&base) {
            Some(list) => list,
            None => Vec::new(),
        };
        list.push(descendant);
        self.descendants.insert(base, list);
    }
}

} // verus!
