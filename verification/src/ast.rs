//! A read-only snapshot of the parsed native declarations: one record per
//! declaration, one record per type occurrence, and cheap handles into both.

use vstd::prelude::*;

verus! {

/// A position in the native sources.
#[derive(Clone, Copy, Debug, PartialEq, Eq, Structural, Hash)]
pub struct SourceLocation {
    /// Number of the source file.
    pub file: u64,
    pub line: u32,
    pub column: u32,
}

/// What is known about one native type.
#[derive(Clone, Debug)]
pub struct TypeInfo {
    /// The type is const-qualified.
    pub constant: bool,
    /// Values of the type can be duplicated bit by bit.
    pub copyable: bool,
    /// The type is an array of fixed size.
    pub fixed_array: bool,
    /// The type is one of the native string types.
    pub string: bool,
    /// The types reachable from this one that need a generated representation
    /// of their own when this type is returned into a generated module.
    pub dependent: Vec<usize>,
}

/// What is known about one native declaration: a class, a base specifier, a
/// method, a field or a constant.
#[derive(Clone, Debug)]
pub struct Declaration {
    /// Unqualified name; empty for an anonymous declaration.
    pub name: String,
    /// Enclosing scopes joined by `::`; empty at the top level.
    pub namespace: String,
    /// Name with the details that tell overloads and instantiations apart.
    pub display_name: Option<String>,
    /// Name of the generated module the declaration belongs to.
    pub module: String,
    /// The declaration is publicly accessible.
    pub public: bool,
    /// Where the declaration stands.
    pub location: Option<SourceLocation>,
    /// The declaration that defines the declared item.
    pub definition: Option<usize>,
    /// The declared type.
    pub type_id: Option<usize>,
    /// The declaration is a template with unbound parameters.
    pub template_pattern: bool,
    /// The template that this declaration instantiates.
    pub template: Option<usize>,
    /// The record has a pure virtual method.
    pub abstract_record: bool,
    /// Base specifiers, in source order.
    pub bases: Vec<usize>,
    /// Methods, in source order.
    pub methods: Vec<usize>,
    /// Fields, in source order.
    pub fields: Vec<usize>,
    /// Named constants, in source order.
    pub consts: Vec<usize>,
    /// The callable has template parameters of its own.
    pub generic: bool,
    /// Identifier under which a callable is looked up in the settings.
    pub identifier: String,
    /// The method duplicates its receiver.
    pub clone_method: bool,
    /// The member is left out of the generated surface.
    pub excluded: bool,
    /// Types of the parameters of a callable, in order.
    pub arguments: Vec<usize>,
    /// Type returned by a callable.
    pub return_type: Option<usize>,
}

/// Every entry stays below the bound.
pub open spec fn ids_below(ids: Seq<usize>, bound: int) -> bool {
    forall|i: int| 0 <= i < ids.len() ==> ids[i] < bound
}

/// The entry, where there is one, stays below the bound.
pub open spec fn id_below(id: Option<usize>, bound: int) -> bool {
    id matches Some(i) ==> i < bound
}

impl TypeInfo {
    /// All references to other types stay within a table of `types` entries.
    pub open spec fn links_within(&self, types: int) -> bool {
        ids_below(self.dependent@, types)
    }
}

impl Declaration {
    /// All references to declarations and types stay within tables of
    /// `decls` and `types` entries.
    pub open spec fn links_within(&self, decls: int, types: int) -> bool {
        &&& ids_below(self.bases@, decls)
        &&& ids_below(self.methods@, decls)
        &&& ids_below(self.fields@, decls)
        &&& ids_below(self.consts@, decls)
        &&& id_below(self.template, decls)
        &&& id_below(self.definition, decls)
        &&& id_below(self.type_id, types)
        &&& id_below(self.return_type, types)
        &&& ids_below(self.arguments@, types)
    }

    /// A public, named declaration with nothing else known about it.
    pub fn new(namespace: &str, name: &str) -> (r: Declaration)
        ensures
            r.name@ == name@,
            r.namespace@ == namespace@,
            r.display_name is None,
            r.module@ == Seq::<char>::empty(),
            r.public,
            r.location is None,
            r.definition is None,
            r.type_id is None,
            !r.template_pattern,
            r.template is None,
            !r.abstract_record,
            r.bases@.len() == 0,
            r.methods@.len() == 0,
            r.fields@.len() == 0,
            r.consts@.len() == 0,
            !r.generic,
            r.identifier@ == Seq::<char>::empty(),
            !r.clone_method,
            !r.excluded,
            r.arguments@.len() == 0,
            r.return_type is None,
    {
        Declaration {
            name: name.to_owned(),
            namespace: namespace.to_owned(),
            display_name: None,
            module: String::new(),
            public: true,
            location: None,
            definition: None,
            type_id: None,
            template_pattern: false,
            template: None,
            abstract_record: false,
            bases: Vec::new(),
            methods: Vec::new(),
            fields: Vec::new(),
            consts: Vec::new(),
            generic: false,
            identifier: String::new(),
            clone_method: false,
            excluded: false,
            arguments: Vec::new(),
            return_type: None,
        }
    }
}


/// The snapshot as a mathematical value.
pub struct AstView {
    pub decls: Seq<Declaration>,
    pub types: Seq<TypeInfo>,
}

impl AstView {
    /// Every link leads to an entry of the tables, and every field has a type.
    pub open spec fn wf(self) -> bool {
        &&& forall|d: int|
            0 <= d < self.decls.len() ==> (#[trigger] self.decls[d]).links_within(
                self.decls.len() as int,
                self.types.len() as int,
            )
        &&& forall|t: int|
            0 <= t < self.types.len() ==> (#[trigger] self.types[t]).links_within(
                self.types.len() as int,
            )
        &&& forall|d: int| 0 <= d < self.decls.len() ==> self.fields_typed(d)
    }

    /// Every field of declaration `d` has a declared type.
    pub open spec fn fields_typed(self, d: int) -> bool {
        forall|k: int|
            0 <= k < self.decls[d].fields@.len() ==> self.decls[
                #[trigger] self.decls[d].fields@[k] as int
            ].type_id is Some
    }
}

/// The parsed declarations of one analysis pass.
pub struct Ast {
    decls: Vec<Declaration>,
    types: Vec<TypeInfo>,
}

impl View for Ast {
    type V = AstView;

    closed spec fn view(&self) -> AstView {
        AstView { decls: self.decls@, types: self.types@ }
    }
}

fn all_below(ids: &Vec<usize>, bound: usize) -> (r: bool)
    ensures
        r == ids_below(ids@, bound as int),
{
    let mut i: usize = 0;
    while i < ids.len()
        invariant
            i <= ids.len(),
            forall|j: int| 0 <= j < i ==> ids@[j] < bound,
        decreases ids.len() - i,
    {
        if ids[i] >= bound {
            return false;
        }
        i += 1;
    }
    true
}

fn one_below(id: &Option<usize>, bound: usize) -> (r: bool)
    ensures
        r == id_below(*id, bound as int),
{
    match id {
        Some(i) => *i < bound,
        None => true,
    }
}

fn links_ok(d: &Declaration, decls: usize, types: usize) -> (r: bool)
    ensures
        r == d.links_within(decls as int, types as int),
{
    all_below(&d.bases, decls) && all_below(&d.methods, decls) && all_below(&d.fields, decls)
        && all_below(&d.consts, decls) && one_below(&d.template, decls) && one_below(
        &d.definition,
        decls,
    ) && one_below(&d.type_id, types) && one_below(&d.return_type, types) && all_below(
        &d.arguments,
        types,
    )
}

fn fields_have_types(decls: &Vec<Declaration>, d: usize) -> (r: bool)
    requires
        d < decls@.len(),
        ids_below(decls@[d as int].fields@, decls@.len() as int),
    ensures
        r == (AstView { decls: decls@, types: Seq::empty() }).fields_typed(d as int),
{
    let fields = &decls[d].fields;
    let mut k: usize = 0;
    while k < fields.len()
        invariant
            k <= fields.len(),
            d < decls@.len(),
            fields@ == decls@[d as int].fields@,
            ids_below(fields@, decls@.len() as int),
            forall|j: int| 0 <= j < k ==> decls@[#[trigger] fields@[j] as int].type_id is Some,
        decreases fields.len() - k,
    {
        if decls[fields[k]].type_id.is_none() {
            return false;
        }
        k += 1;
    }
    true
}

impl Ast {
    #[verifier::type_invariant]
    pub open spec fn inv(&self) -> bool {
        self@.wf()
    }

    /// Builds a snapshot from its tables, or nothing if a link leads outside
    /// them or a field has no type.
    pub fn new(decls: Vec<Declaration>, types: Vec<TypeInfo>) -> (r: Option<Ast>)
        ensures
            r is Some <==> (AstView { decls: decls@, types: types@ }).wf(),
            r matches Some(ast) ==> ast@ == (AstView { decls: decls@, types: types@ }),
    {
        let ghost view = AstView { decls: decls@, types: types@ };
        let mut t: usize = 0;
        while t < types.len()
            invariant
                t <= types.len(),
                view == (AstView { decls: decls@, types: types@ }),
                forall|j: int| 0 <= j < t ==> (#[trigger] types@[j]).links_within(types@.len() as int),
            decreases types.len() - t,
        {
            if !all_below(&types[t].dependent, types.len()) {
                assert(!view.types[t as int].links_within(view.types.len() as int));
                return None;
            }
            t += 1;
        }
        let mut d: usize = 0;
        while d < decls.len()
            invariant
                d <= decls.len(),
                view == (AstView { decls: decls@, types: types@ }),
                forall|j: int|
                    0 <= j < d ==> (#[trigger] decls@[j]).links_within(
                        decls@.len() as int,
                        types@.len() as int,
                    ),
                forall|j: int| 0 <= j < d ==> view.fields_typed(j),
            decreases decls.len() - d,
        {
            if !links_ok(&decls[d], decls.len(), types.len()) {
                assert(!view.decls[d as int].links_within(
                    view.decls.len() as int,
                    view.types.len() as int,
                ));
                return None;
            }
            if !fields_have_types(&decls, d) {
                assert(!view.fields_typed(d as int));
                return None;
            }
            assert(view.fields_typed(d as int));
            d += 1;
        }
        Some(Ast { decls, types })
    }

    /// Number of types.
    pub fn types_len(&self) -> (r: usize)
        ensures
            r == self@.types.len(),
    {
        self.types.len()
    }

    /// Number of declarations.
    pub fn len(&self) -> (r: usize)
        ensures
            r == self@.decls.len(),
    {
        self.decls.len()
    }

    /// The record of declaration `id`.
    pub fn decl(&self, id: usize) -> (r: &Declaration)
        requires
            id < self@.decls.len(),
        ensures
            *r == self@.decls[id as int],
            self@.wf(),
    {
        proof {
            use_type_invariant(self);
        }
        &self.decls[id]
    }

    /// The handle of declaration `id`, if there is such a declaration.
    pub fn entity<'tu>(&'tu self, id: usize) -> (r: Option<Entity<'tu>>)
        ensures
            r is Some <==> id < self@.decls.len(),
            r matches Some(e) ==> e@ == (EntityView { ast: self@, id }),
    {
        proof {
            use_type_invariant(self);
        }
        if id < self.decls.len() {
            Some(Entity { ast: self, index: id })
        } else {
            None
        }
    }
}

/// A declaration handle as a mathematical value.
pub struct EntityView {
    pub ast: AstView,
    pub id: usize,
}

impl EntityView {
    /// The handle points into a well-formed snapshot.
    pub open spec fn wf(self) -> bool {
        self.ast.wf() && self.id < self.ast.decls.len()
    }

    /// The record the handle points at.
    pub open spec fn decl(self) -> Declaration {
        self.ast.decls[self.id as int]
    }

    /// The handle of another declaration of the same snapshot.
    pub open spec fn at(self, id: usize) -> EntityView {
        EntityView { ast: self.ast, id }
    }
}

/// A handle to one declaration. Two handles denote the same declaration
/// exactly when their identities agree.
#[derive(Clone, Copy)]
pub struct Entity<'tu> {
    ast: &'tu Ast,
    index: usize,
}

impl<'tu> View for Entity<'tu> {
    type V = EntityView;

    closed spec fn view(&self) -> EntityView {
        EntityView { ast: self.ast@, id: self.index }
    }
}

impl<'tu> Entity<'tu> {
    #[verifier::type_invariant]
    pub open spec fn inv(&self) -> bool {
        self@.wf()
    }

    /// The identity of the declaration.
    pub fn id(&self) -> (r: usize)
        ensures
            r == self@.id,
    {
        self.index
    }

    /// The snapshot the declaration belongs to.
    pub fn ast(&self) -> (r: &'tu Ast)
        ensures
            r@ == self@.ast,
            self@.wf(),
    {
        proof {
            use_type_invariant(self);
        }
        self.ast
    }

    /// The record of the declaration.
    pub fn decl(&self) -> (r: &'tu Declaration)
        ensures
            *r == self@.decl(),
            self@.wf(),
    {
        proof {
            use_type_invariant(self);
        }
        &self.ast.decls[self.index]
    }

    /// The handle of declaration `id` of the same snapshot.
    pub fn at(&self, id: usize) -> (r: Entity<'tu>)
        requires
            id < self@.ast.decls.len(),
        ensures
            r@ == self@.at(id),
    {
        proof {
            use_type_invariant(self);
        }
        Entity { ast: self.ast, index: id }
    }

    /// The handle of type `id` of the same snapshot.
    pub fn type_at(&self, id: usize) -> (r: TypeRef<'tu>)
        requires
            id < self@.ast.types.len(),
        ensures
            r@ == (TypeRefView { ast: self@.ast, id }),
    {
        proof {
            use_type_invariant(self);
        }
        TypeRef { ast: self.ast, index: id }
    }
}

/// A type handle as a mathematical value.
pub struct TypeRefView {
    pub ast: AstView,
    pub id: usize,
}

impl TypeRefView {
    /// The handle points into a well-formed snapshot.
    pub open spec fn wf(self) -> bool {
        self.ast.wf() && self.id < self.ast.types.len()
    }

    /// The record the handle points at.
    pub open spec fn info(self) -> TypeInfo {
        self.ast.types[self.id as int]
    }
}

/// A handle to one native type.
#[derive(Clone, Copy)]
pub struct TypeRef<'tu> {
    ast: &'tu Ast,
    index: usize,
}

impl<'tu> View for TypeRef<'tu> {
    type V = TypeRefView;

    closed spec fn view(&self) -> TypeRefView {
        TypeRefView { ast: self.ast@, id: self.index }
    }
}

impl<'tu> TypeRef<'tu> {
    #[verifier::type_invariant]
    pub open spec fn inv(&self) -> bool {
        self@.wf()
    }

    /// The identity of the type.
    pub fn id(&self) -> (r: usize)
        ensures
            r == self@.id,
    {
        self.index
    }

    /// The record of the type.
    pub fn info(&self) -> (r: &'tu TypeInfo)
        ensures
            *r == self@.info(),
            self@.wf(),
    {
        proof {
            use_type_invariant(self);
        }
        &self.ast.types[self.index]
    }

    /// Whether values of the type can be duplicated bit by bit.
    pub fn is_copy(&self) -> (r: bool)
        ensures
            r == self@.info().copyable,
    {
        self.info().copyable
    }

    /// Whether the type is const-qualified.
    pub fn is_const(&self) -> (r: bool)
        ensures
            r == self@.info().constant,
    {
        self.info().constant
    }

    /// Whether the type is an array of fixed size.
    pub fn is_fixed_array(&self) -> (r: bool)
        ensures
            r == self@.info().fixed_array,
    {
        self.info().fixed_array
    }

    /// Whether the type is one of the native string types.
    pub fn is_string(&self) -> (r: bool)
        ensures
            r == self@.info().string,
    {
        self.info().string
    }
}

/// The views of the handles in `s`, in order.
pub open spec fn views<T: View>(s: Seq<T>) -> Seq<T::V> {
    s.map_values(|x: T| x@)
}

/// The views of a list with one more handle are the views of the list and
/// the view of the handle.
pub proof fn views_push<T: View>(s: Seq<T>, x: T)
    ensures
        views(s.push(x)) == views(s).push(x@),
{
    assert(views(s.push(x)) =~= views(s).push(x@));
}

impl AstView {
    /// The types of this snapshot with the identities `ids`, in order.
    pub open spec fn types_at(self, ids: Seq<usize>) -> Seq<TypeRefView> {
        ids.map_values(|id: usize| TypeRefView { ast: self, id })
    }

    /// What walking each of the types `ids` finds, one walk after the other.
    pub open spec fn walk(self, ids: Seq<usize>) -> Seq<usize>
        decreases ids.len(),
    {
        if ids.len() == 0 {
            Seq::empty()
        } else {
            self.walk(ids.drop_last()) + self.types[ids.last() as int].dependent@
        }
    }

    /// A walk over types of a well-formed snapshot stays within it.
    pub proof fn walk_stays_within(self, ids: Seq<usize>)
        requires
            self.wf(),
            ids_below(ids, self.types.len() as int),
        ensures
            ids_below(self.walk(ids), self.types.len() as int),
        decreases ids.len(),
    {
        if ids.len() > 0 {
            self.walk_stays_within(ids.drop_last());
            assert(self.types[ids.last() as int].links_within(self.types.len() as int));
        }
    }
}

impl Ast {
    /// The handles of the types `ids`, in order.
    pub fn type_refs<'tu>(&'tu self, ids: &Vec<usize>) -> (r: Vec<TypeRef<'tu>>)
        requires
            ids_below(ids@, self@.types.len() as int),
        ensures
            views(r@) == self@.types_at(ids@),
    {
        proof {
            use_type_invariant(self);
        }
        let mut out: Vec<TypeRef<'tu>> = Vec::new();
        let mut i: usize = 0;
        while i < ids.len()
            invariant
                i <= ids.len(),
                self@.wf(),
                ids_below(ids@, self@.types.len() as int),
                views(out@) == self@.types_at(ids@.take(i as int)),
            decreases ids.len() - i,
        {
            let t = TypeRef { ast: self, index: ids[i] };
            proof {
                let before = out@;
                let ast = self@;
                assert(views(before.push(t)) =~= views(before).push(t@));
                assert(ids@.take(i + 1) =~= ids@.take(i as int).push(ids@[i as int]));
                assert(ast.types_at(ids@.take(i as int).push(ids@[i as int])) =~= ast.types_at(
                    ids@.take(i as int),
                ).push(t@));
            }
            out.push(t);
            i += 1;
        }
        assert(ids@.take(ids@.len() as int) =~= ids@);
        out
    }
}


/// Appends the entries of `more` to `out`.
pub fn append_ids(out: &mut Vec<usize>, more: &Vec<usize>)
    ensures
        final(out)@ == old(out)@ + more@,
{
    let mut k: usize = 0;
    while k < more.len()
        invariant
            k <= more.len(),
            out@ == old(out)@ + more@.take(k as int),
        decreases more.len() - k,
    {
        proof {
            assert(more@.take(k + 1) =~= more@.take(k as int).push(more@[k as int]));
            assert(old(out)@ + more@.take(k as int).push(more@[k as int]) =~= (old(out)@
                + more@.take(k as int)).push(more@[k as int]));
        }
        out.push(more[k]);
        k += 1;
    }
    assert(more@.take(more@.len() as int) =~= more@);
}

impl Ast {
    /// Walks each of the types `ids` in turn and lists what the walks find.
    pub fn walk(&self, ids: &Vec<usize>) -> (r: Vec<usize>)
        requires
            ids_below(ids@, self@.types.len() as int),
        ensures
            r@ == self@.walk(ids@),
            ids_below(r@, self@.types.len() as int),
    {
        proof {
            use_type_invariant(self);
        }
        let mut out: Vec<usize> = Vec::new();
        let mut i: usize = 0;
        while i < ids.len()
            invariant
                i <= ids.len(),
                ids_below(ids@, self@.types.len() as int),
                out@ == self@.walk(ids@.take(i as int)),
            decreases ids.len() - i,
        {
            proof {
                assert(ids@.take(i + 1).drop_last() =~= ids@.take(i as int));
            }
            append_ids(&mut out, &self.types[ids[i]].dependent);
            i += 1;
        }
        proof {
            assert(ids@.take(ids@.len() as int) =~= ids@);
            self@.walk_stays_within(ids@);
        }
        out
    }
}

} // verus!
