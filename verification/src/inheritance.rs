//! The inheritance graph of a snapshot: direct bases, and the ancestors they
//! lead to.

use vstd::prelude::*;
use crate::ast::{ids_below, Ast, AstView};

verus! {

impl AstView {
    /// The declaration whose base specifiers count for class `c`: the
    /// template for a specialization, else the class itself.
    pub open spec fn base_source(self, c: usize) -> usize {
        match self.decls[c as int].template {
            Some(t) => t,
            None => c,
        }
    }

    /// The base specifiers that count for class `c`, in source order.
    pub open spec fn base_specifiers(self, c: usize) -> Seq<usize> {
        self.decls[self.base_source(c) as int].bases@
    }

    /// Every base specifier of class `c` leads to a definition.
    pub open spec fn bases_resolved(self, c: usize) -> bool {
        forall|i: int|
            0 <= i < self.base_specifiers(c).len() ==> self.decls[
                #[trigger] self.base_specifiers(c)[i] as int
            ].definition is Some
    }

    /// The definitions that the base specifiers of class `c` lead to, in
    /// source order.
    pub open spec fn base_ids(self, c: usize) -> Seq<usize> {
        Seq::new(
            self.base_specifiers(c).len(),
            |i: int| self.decls[self.base_specifiers(c)[i] as int].definition->Some_0,
        )
    }

    /// Class `b` is a direct base of class `c`.
    pub open spec fn is_base_of(self, b: usize, c: usize) -> bool {
        exists|i: int|
            0 <= i < self.base_specifiers(c).len() && self.decls[
                #[trigger] self.base_specifiers(c)[i] as int
            ].definition == Some(b)
    }

    /// Each class of `p` but the first is a direct base of the one before it.
    pub open spec fn is_path(self, p: Seq<usize>) -> bool {
        p.len() >= 2 && forall|i: int|
            0 <= i < p.len() - 1 ==> self.is_base_of(#[trigger] p[i + 1], p[i])
    }

    /// Class `a` is reached from class `c` by one or more steps to a direct
    /// base.
    pub open spec fn is_ancestor(self, a: usize, c: usize) -> bool {
        exists|p: Seq<usize>| #[trigger] self.is_path(p) && p[0] == c && p.last() == a
    }

    /// The base specifiers of class `c` and of all its ancestors lead to
    /// definitions.
    pub open spec fn ancestry_resolved(self, c: usize) -> bool {
        self.bases_resolved(c) && forall|a: usize|
            #[trigger] self.is_ancestor(a, c) ==> self.bases_resolved(a)
    }

    /// A direct base is an ancestor.
    pub proof fn base_is_ancestor(self, b: usize, c: usize)
        requires
            self.is_base_of(b, c),
        ensures
            self.is_ancestor(b, c),
    {
        let p = seq![c, b];
        assert(self.is_path(p));
        assert(p[0] == c && p.last() == b);
    }

    /// A direct base of an ancestor is an ancestor.
    pub proof fn base_of_ancestor_is_ancestor(self, b: usize, a: usize, c: usize)
        requires
            self.is_ancestor(a, c),
            self.is_base_of(b, a),
        ensures
            self.is_ancestor(b, c),
    {
        let p = choose|p: Seq<usize>| #[trigger] self.is_path(p) && p[0] == c && p.last() == a;
        let q = p.push(b);
        assert forall|i: int| 0 <= i < q.len() - 1 implies self.is_base_of(
            #[trigger] q[i + 1],
            q[i],
        ) by {
            if i < p.len() - 1 {
                assert(q[i + 1] == p[i + 1]);
                assert(q[i] == p[i]);
            }
        }
        assert(self.is_path(q));
        assert(q[0] == c && q.last() == b);
    }

    /// A set that holds the direct bases of class `c` and, with each class,
    /// its direct bases, holds every ancestor of `c`.
    pub proof fn closed_set_holds_ancestors(self, c: usize, s: Set<usize>)
        requires
            forall|b: usize| self.is_base_of(b, c) ==> s.contains(b),
            forall|j: usize, b: usize| s.contains(j) && self.is_base_of(b, j) ==> s.contains(b),
        ensures
            forall|a: usize| self.is_ancestor(a, c) ==> s.contains(a),
    {
        assert forall|a: usize| self.is_ancestor(a, c) implies s.contains(a) by {
            let p = choose|p: Seq<usize>| #[trigger] self.is_path(p) && p[0] == c && p.last() == a;
            self.closed_set_holds_path(c, s, p, p.len() - 1);
        }
    }

    proof fn closed_set_holds_path(self, c: usize, s: Set<usize>, p: Seq<usize>, k: int)
        requires
            forall|b: usize| self.is_base_of(b, c) ==> s.contains(b),
            forall|j: usize, b: usize| s.contains(j) && self.is_base_of(b, j) ==> s.contains(b),
            self.is_path(p),
            p[0] == c,
            1 <= k < p.len(),
        ensures
            s.contains(p[k]),
        decreases k,
    {
        if k == 1 {
            assert(self.is_base_of(p[0int + 1], p[0]));
        } else {
            self.closed_set_holds_path(c, s, p, k - 1);
            assert(self.is_base_of(p[(k - 1) + 1], p[k - 1]));
        }
    }

    /// Under resolved base specifiers, the direct bases of class `c` are the
    /// entries of `base_ids(c)`.
    pub proof fn base_ids_are_bases(self, c: usize)
        requires
            self.bases_resolved(c),
        ensures
            forall|b: usize| self.is_base_of(b, c) <==> self.base_ids(c).contains(b),
    {
        let specs = self.base_specifiers(c);
        let ids = self.base_ids(c);
        assert forall|b: usize| self.is_base_of(b, c) implies ids.contains(b) by {
            let i = choose|i: int|
                0 <= i < specs.len() && self.decls[#[trigger] specs[i] as int].definition == Some(
                    b,
                );
            assert(ids[i] == b);
        }
        assert forall|b: usize| ids.contains(b) implies self.is_base_of(b, c) by {
            let i = choose|i: int| 0 <= i < ids.len() && ids[i] == b;
            assert(self.decls[specs[i] as int].definition is Some);
        }
    }
}

/// Distinct identities below `n` are at most `n` many.
pub proof fn distinct_ids_fit(s: Seq<usize>, n: nat)
    requires
        s.no_duplicates(),
        ids_below(s, n as int),
    ensures
        s.len() <= n,
    decreases n,
{
    if s.len() == 0 {
    } else if n == 0 {
        assert(s[0] < 0);
    } else if exists|i: int| 0 <= i < s.len() && s[i] == n - 1 {
        let i = choose|i: int| 0 <= i < s.len() && s[i] == n - 1;
        let t = s.remove(i);
        assert forall|a: int, b: int| 0 <= a < t.len() && 0 <= b < t.len() && a != b implies t[a]
            != t[b] by {
            let sa = if a < i { a } else { a + 1 };
            let sb = if b < i { b } else { b + 1 };
            assert(t[a] == s[sa]);
            assert(t[b] == s[sb]);
        }
        assert forall|a: int| 0 <= a < t.len() implies t[a] < n - 1 by {
            let sa = if a < i { a } else { a + 1 };
            assert(t[a] == s[sa]);
            assert(s[sa] != s[i]);
        }
        distinct_ids_fit(t, (n - 1) as nat);
    } else {
        distinct_ids_fit(s, (n - 1) as nat);
    }
}

/// Each entry is smaller than the next.
pub open spec fn ascending(s: Seq<usize>) -> bool {
    forall|i: int, j: int| 0 <= i < j < s.len() ==> s[i] < s[j]
}

/// Lists the definitions that the base specifiers of class `c` lead to, or
/// nothing if one of them leads nowhere.
pub fn direct_bases(ast: &Ast, c: usize) -> (r: Option<Vec<usize>>)
    requires
        c < ast@.decls.len(),
    ensures
        r is Some <==> ast@.bases_resolved(c),
        r matches Some(ids) ==> ids@ == ast@.base_ids(c) && ids_below(
            ids@,
            ast@.decls.len() as int,
        ),
{
    let own = ast.decl(c);
    assert(own.links_within(ast@.decls.len() as int, ast@.types.len() as int));
    let source: usize = match own.template {
        Some(t) => t,
        None => c,
    };
    let specifiers = &ast.decl(source).bases;
    assert(ast@.decls[source as int].links_within(
        ast@.decls.len() as int,
        ast@.types.len() as int,
    ));
    let mut out: Vec<usize> = Vec::new();
    let mut i: usize = 0;
    while i < specifiers.len()
        invariant
            i <= specifiers.len(),
            c < ast@.decls.len(),
            ast@.wf(),
            specifiers@ == ast@.base_specifiers(c),
            ids_below(specifiers@, ast@.decls.len() as int),
            out@.len() == i,
            ids_below(out@, ast@.decls.len() as int),
            forall|k: int|
                0 <= k < i ==> ast@.decls[#[trigger] specifiers@[k] as int].definition == Some(
                    out@[k],
                ),
        decreases specifiers.len() - i,
    {
        let specifier = ast.decl(specifiers[i]);
        assert(specifier.links_within(ast@.decls.len() as int, ast@.types.len() as int));
        match specifier.definition {
            Some(d) => {
                out.push(d);
            },
            None => {
                return None;
            },
        }
        i += 1;
    }
    assert(out@ =~= ast@.base_ids(c));
    Some(out)
}


/// The flags `seen` mark exactly the identities listed in `order`, and
/// `order` lists none of them twice.
pub open spec fn marks_agree(seen: Seq<bool>, order: Seq<usize>) -> bool {
    &&& order.no_duplicates()
    &&& ids_below(order, seen.len() as int)
    &&& forall|j: usize| j < seen.len() && #[trigger] seen[j as int] ==> order.contains(j)
    &&& forall|j: usize| #[trigger] order.contains(j) ==> j < seen.len() && seen[j as int]
}

/// `whole` lists exactly what `a` or `b` lists.
pub open spec fn lists_both(whole: Seq<usize>, a: Seq<usize>, b: Seq<usize>) -> bool {
    &&& forall|x: usize| #[trigger] whole.contains(x) ==> a.contains(x) || b.contains(x)
    &&& forall|x: usize| #[trigger] a.contains(x) ==> whole.contains(x)
    &&& forall|x: usize| #[trigger] b.contains(x) ==> whole.contains(x)
}

/// A list with one more entry lists what the shorter one lists, and the entry.
proof fn push_lists_both(s: Seq<usize>, x: usize)
    ensures
        lists_both(s.push(x), s, seq![x]),
{
    let t = s.push(x);
    assert forall|y: usize| #[trigger] t.contains(y) implies s.contains(y) || seq![x].contains(
        y,
    ) by {
        let i = choose|i: int| 0 <= i < t.len() && t[i] == y;
        if i < s.len() {
            assert(s[i] == y);
        } else {
            assert(seq![x][0] == y);
        }
    }
    assert forall|y: usize| #[trigger] s.contains(y) implies t.contains(y) by {
        let i = choose|i: int| 0 <= i < s.len() && s[i] == y;
        assert(t[i] == y);
    }
    assert forall|y: usize| #[trigger] seq![x].contains(y) implies t.contains(y) by {
        assert(t[s.len() as int] == x);
    }
}

/// Marks each of `bases` that is not marked yet and appends it to `order`.
fn mark(bases: &Vec<usize>, seen: &mut Vec<bool>, order: &mut Vec<usize>)
    requires
        marks_agree(old(seen)@, old(order)@),
        ids_below(bases@, old(seen)@.len() as int),
    ensures
        marks_agree(final(seen)@, final(order)@),
        final(seen)@.len() == old(seen)@.len(),
        final(order)@.len() >= old(order)@.len(),
        final(order)@.take(old(order)@.len() as int) == old(order)@,
        lists_both(final(order)@, old(order)@, bases@),
{
    let ghost before = order@;
    let mut k: usize = 0;
    proof {
        assert(bases@.take(0).len() == 0);
        assert(order@.take(before.len() as int) =~= before);
    }
    while k < bases.len()
        invariant
            k <= bases.len(),
            seen@.len() == old(seen)@.len(),
            ids_below(bases@, seen@.len() as int),
            marks_agree(seen@, order@),
            order@.len() >= before.len(),
            order@.take(before.len() as int) == before,
            lists_both(order@, before, bases@.take(k as int)),
        decreases bases.len() - k,
    {
        let b = bases[k];
        let ghost seen_before = seen@;
        let ghost order_before = order@;
        let ghost shorter = bases@.take(k as int);
        let ghost longer = bases@.take(k + 1);
        proof {
            assert(longer =~= shorter.push(b));
            push_lists_both(shorter, b);
            assert(seq![b][0] == b);
        }
        if !seen[b] {
            seen.set(b, true);
            order.push(b);
            proof {
                assert(!order_before.contains(b));
                assert(order@ == order_before.push(b));
                push_lists_both(order_before, b);
                assert(order@.no_duplicates()) by {
                    assert forall|i: int, j: int|
                        0 <= i < order@.len() && 0 <= j < order@.len() && i != j implies order@[i]
                        != order@[j] by {
                        if i < order_before.len() && j < order_before.len() {
                        } else if i < order_before.len() {
                            assert(order_before.contains(order_before[i]));
                        } else {
                            assert(order_before.contains(order_before[j]));
                        }
                    }
                }
                assert forall|j: usize| j < seen@.len() && #[trigger] seen@[j as int] implies order@.contains(
                    j,
                ) by {
                    if j != b {
                        assert(seen_before[j as int]);
                        assert(order_before.contains(j));
                    } else {
                        assert(order@[order_before.len() as int] == b);
                    }
                }
                assert forall|j: usize| #[trigger] order@.contains(j) implies j < seen@.len()
                    && seen@[j as int] by {
                    if j != b {
                        assert(order_before.contains(j));
                    }
                }
                assert(order@.take(before.len() as int) =~= before);
                assert forall|x: usize| #[trigger] order@.contains(x) implies before.contains(x)
                    || longer.contains(x) by {
                    if order_before.contains(x) {
                        if shorter.contains(x) {
                            assert(longer.contains(x));
                        }
                    } else {
                        assert(seq![b].contains(x));
                        assert(longer.contains(x));
                    }
                }
                assert forall|x: usize| #[trigger] before.contains(x) implies order@.contains(
                    x,
                ) by {
                    assert(order_before.contains(x));
                }
                assert forall|x: usize| #[trigger] longer.contains(x) implies order@.contains(
                    x,
                ) by {
                    if shorter.contains(x) {
                        assert(order_before.contains(x));
                    } else {
                        assert(seq![b].contains(x));
                    }
                }
            }
        } else {
            proof {
                assert(order@.contains(b));
                assert forall|x: usize| #[trigger] order@.contains(x) implies before.contains(x)
                    || longer.contains(x) by {
                    if shorter.contains(x) {
                        assert(longer.contains(x));
                    }
                }
                assert forall|x: usize| #[trigger] longer.contains(x) implies order@.contains(
                    x,
                ) by {
                    if shorter.contains(x) {
                    } else {
                        assert(seq![b].contains(x));
                        assert(x == b);
                    }
                }
            }
        }
        k += 1;
    }
    proof {
        assert(bases@.take(bases@.len() as int) =~= bases@);
    }
}

/// Lists the ancestors of class `c` by ascending identity, or nothing if a
/// base specifier of the class or of one of its ancestors leads nowhere.
pub fn ancestors(ast: &Ast, c: usize) -> (r: Option<Vec<usize>>)
    requires
        c < ast@.decls.len(),
    ensures
        r is Some <==> ast@.ancestry_resolved(c),
        r matches Some(ids) ==> {
            &&& ascending(ids@)
            &&& ids_below(ids@, ast@.decls.len() as int)
            &&& forall|a: usize| ids@.contains(a) <==> ast@.is_ancestor(a, c)
        },
{
    let n: usize = ast.len();
    let mut seen: Vec<bool> = Vec::new();
    let mut i: usize = 0;
    while i < n
        invariant
            i <= n,
            seen@.len() == i,
            forall|j: int| 0 <= j < i ==> !seen@[j],
        decreases n - i,
    {
        seen.push(false);
        i += 1;
    }
    let mut order: Vec<usize> = Vec::new();
    let own = match direct_bases(ast, c) {
        Some(own) => own,
        None => {
            return None;
        },
    };
    mark(&own, &mut seen, &mut order);
    proof {
        ast@.base_ids_are_bases(c);
        assert forall|b: usize| #[trigger] order@.contains(b) implies ast@.is_ancestor(b, c) by {
            assert(own@.contains(b));
            ast@.base_is_ancestor(b, c);
        }
        assert forall|b: usize| ast@.is_base_of(b, c) implies order@.contains(b) by {
            assert(own@.contains(b));
        }
        distinct_ids_fit(order@, n as nat);
    }
    let mut next: usize = 0;
    while next < order.len()
        invariant
            n == ast@.decls.len(),
            c < n,
            seen@.len() == n,
            marks_agree(seen@, order@),
            order@.len() <= n,
            next <= order@.len(),
            ast@.bases_resolved(c),
            forall|b: usize| ast@.is_base_of(b, c) ==> order@.contains(b),
            forall|b: usize| #[trigger] order@.contains(b) ==> ast@.is_ancestor(b, c),
            forall|k: int|
                0 <= k < next ==> ast@.bases_resolved(#[trigger] order@[k]) && forall|b: usize|
                    ast@.is_base_of(b, order@[k]) ==> order@.contains(b),
        decreases n - next,
    {
        let j = order[next];
        let ghost order_before = order@;
        proof {
            assert(order@.contains(j));
        }
        let bases = match direct_bases(ast, j) {
            Some(bases) => bases,
            None => {
                return None;
            },
        };
        mark(&bases, &mut seen, &mut order);
        proof {
            ast@.base_ids_are_bases(j);
            assert forall|b: usize| #[trigger] order@.contains(b) implies ast@.is_ancestor(
                b,
                c,
            ) by {
                if !order_before.contains(b) {
                    assert(bases@.contains(b));
                    ast@.base_of_ancestor_is_ancestor(b, j, c);
                }
            }
            assert forall|b: usize| ast@.is_base_of(b, c) implies order@.contains(b) by {
                assert(order_before.contains(b));
            }
            assert forall|k: int| 0 <= k < next + 1 implies ast@.bases_resolved(
                #[trigger] order@[k],
            ) && forall|b: usize| ast@.is_base_of(b, order@[k]) ==> order@.contains(b) by {
                assert(order@[k] == order@.take(order_before.len() as int)[k]);
                assert(order@[k] == order_before[k]);
                assert forall|b: usize| ast@.is_base_of(b, order@[k]) implies order@.contains(
                    b,
                ) by {
                    if k < next {
                        assert(order_before.contains(b));
                    } else {
                        assert(bases@.contains(b));
                    }
                }
            }
            distinct_ids_fit(order@, n as nat);
        }
        next += 1;
    }
    proof {
        let s = Set::new(|a: usize| order@.contains(a));
        assert forall|x: usize, b: usize| s.contains(x) && ast@.is_base_of(b, x) implies s.contains(
            b,
        ) by {
            let k = choose|k: int| 0 <= k < order@.len() && order@[k] == x;
            assert(ast@.bases_resolved(order@[k]));
        }
        ast@.closed_set_holds_ancestors(c, s);
        assert forall|a: usize| ast@.is_ancestor(a, c) implies ast@.bases_resolved(a) by {
            assert(s.contains(a));
            let k = choose|k: int| 0 <= k < order@.len() && order@[k] == a;
            assert(ast@.bases_resolved(order@[k]));
        }
        assert(forall|a: usize| ast@.is_ancestor(a, c) <==> order@.contains(a)) by {
            assert forall|a: usize| ast@.is_ancestor(a, c) implies order@.contains(a) by {
                assert(s.contains(a));
            }
        }
    }
    let mut out: Vec<usize> = Vec::new();
    let mut id: usize = 0;
    while id < n
        invariant
            id <= n,
            seen@.len() == n,
            ascending(out@),
            ids_below(out@, id as int),
            forall|a: usize| out@.contains(a) <==> a < id && seen@[a as int],
        decreases n - id,
    {
        if seen[id] {
            let ghost out_before = out@;
            out.push(id);
            proof {
                assert forall|a: usize| out@.contains(a) <==> a < id + 1 && seen@[a as int] by {
                    if out@.contains(a) {
                        let i = choose|i: int| 0 <= i < out@.len() && out@[i] == a;
                        if i < out_before.len() {
                            assert(out_before.contains(out_before[i]));
                        }
                    }
                    if a < id + 1 && seen@[a as int] {
                        if a == id {
                            assert(out@[out_before.len() as int] == a);
                        } else {
                            assert(out_before.contains(a));
                            let i = choose|i: int|
                                0 <= i < out_before.len() && out_before[i] == a;
                            assert(out@[i] == a);
                        }
                    }
                }
            }
        }
        id += 1;
    }
    proof {
        assert forall|a: usize| out@.contains(a) <==> ast@.is_ancestor(a, c) by {
            if out@.contains(a) {
                assert(seen@[a as int]);
                assert(order@.contains(a));
            }
            if ast@.is_ancestor(a, c) {
                assert(order@.contains(a));
                let k = choose|k: int| 0 <= k < order@.len() && order@[k] == a;
                assert(a < n);
                assert(seen@[a as int]);
            }
        }
    }
    Some(out)
}

} // verus!
