//! Lists of identities turned into sets that keep the order of first
//! occurrence.

use vstd::prelude::*;
use crate::ast::ids_below;

verus! {

/// The entries of `s` in the order of their first occurrence, each once.
pub open spec fn dedup(s: Seq<usize>) -> Seq<usize>
    decreases s.len(),
{
    if s.len() == 0 {
        Seq::empty()
    } else if dedup(s.drop_last()).contains(s.last()) {
        dedup(s.drop_last())
    } else {
        dedup(s.drop_last()).push(s.last())
    }
}

/// The deduplicated list holds exactly the entries of the given list.
pub proof fn dedup_keeps_members(s: Seq<usize>)
    ensures
        forall|x: usize| #[trigger] dedup(s).contains(x) ==> s.contains(x),
        forall|x: usize| #[trigger] s.contains(x) ==> dedup(s).contains(x),
    decreases s.len(),
{
    if s.len() > 0 {
        let init = s.drop_last();
        let last = s.last();
        dedup_keeps_members(init);
        assert forall|x: usize| dedup(s).contains(x) <==> s.contains(x) by {
            if dedup(s).contains(x) {
                if dedup(init).contains(last) {
                    assert(dedup(init).contains(x));
                    assert(init.contains(x));
                    let i = choose|i: int| 0 <= i < init.len() && init[i] == x;
                    assert(s[i] == x);
                } else {
                    let i = choose|i: int| 0 <= i < dedup(s).len() && dedup(s)[i] == x;
                    if i < dedup(init).len() {
                        assert(dedup(init)[i] == x);
                        assert(dedup(init).contains(x));
                        assert(init.contains(x));
                        let j = choose|j: int| 0 <= j < init.len() && init[j] == x;
                        assert(s[j] == x);
                    } else {
                        assert(s[s.len() - 1] == x);
                    }
                }
            }
            if s.contains(x) {
                let i = choose|i: int| 0 <= i < s.len() && s[i] == x;
                if i < init.len() {
                    assert(init[i] == x);
                    assert(init.contains(x));
                    assert(dedup(init).contains(x));
                    let j = choose|j: int| 0 <= j < dedup(init).len() && dedup(init)[j] == x;
                    if !dedup(init).contains(last) {
                        assert(dedup(s)[j] == x);
                    }
                } else {
                    if !dedup(init).contains(last) {
                        assert(dedup(s)[dedup(init).len() as int] == x);
                    }
                }
            }
        }
    }
}

/// The deduplicated list holds no entry twice.
pub proof fn dedup_is_set(s: Seq<usize>)
    ensures
        dedup(s).no_duplicates(),
    decreases s.len(),
{
    if s.len() > 0 {
        let init = s.drop_last();
        dedup_is_set(init);
        if !dedup(init).contains(s.last()) {
            let d = dedup(init);
            assert forall|i: int, j: int|
                0 <= i < dedup(s).len() && 0 <= j < dedup(s).len() && i != j implies dedup(s)[i]
                != dedup(s)[j] by {
                if i < d.len() && j < d.len() {
                } else if i < d.len() {
                    assert(d.contains(d[i]));
                } else {
                    assert(d.contains(d[j]));
                }
            }
        }
    }
}

/// Appending entries that the list already holds adds nothing: the union of
/// a set with a part of itself is the set.
pub proof fn dedup_absorbs(a: Seq<usize>, b: Seq<usize>)
    requires
        forall|i: int| 0 <= i < b.len() ==> a.contains(#[trigger] b[i]),
    ensures
        dedup(a + b) == dedup(a),
    decreases b.len(),
{
    if b.len() == 0 {
        assert(a + b =~= a);
    } else {
        let init = b.drop_last();
        dedup_absorbs(a, init);
        assert((a + b).drop_last() =~= a + init);
        assert((a + b).last() == b.last());
        assert(a.contains(b[b.len() - 1]));
        dedup_keeps_members(a);
    }
}

/// A list without repeated entries is its own deduplication.
pub proof fn dedup_of_set(s: Seq<usize>)
    requires
        s.no_duplicates(),
    ensures
        dedup(s) == s,
    decreases s.len(),
{
    if s.len() > 0 {
        let init = s.drop_last();
        dedup_of_set(init);
        dedup_keeps_members(init);
        if init.contains(s.last()) {
            let i = choose|i: int| 0 <= i < init.len() && init[i] == s.last();
            assert(s[i] == s[s.len() - 1]);
        }
        assert(init.push(s.last()) =~= s);
    }
}

/// Lists the entries of `ids` in the order of their first occurrence, each
/// once. All entries are below `bound`.
pub fn dedup_ids(ids: &Vec<usize>, bound: usize) -> (r: Vec<usize>)
    requires
        ids_below(ids@, bound as int),
    ensures
        r@ == dedup(ids@),
        ids_below(r@, bound as int),
{
    let mut seen: Vec<bool> = Vec::new();
    let mut n: usize = 0;
    while n < bound
        invariant
            n <= bound,
            seen@.len() == n,
            forall|j: int| 0 <= j < n ==> !seen@[j],
        decreases bound - n,
    {
        seen.push(false);
        n += 1;
    }
    let mut out: Vec<usize> = Vec::new();
    let mut i: usize = 0;
    proof {
        assert(ids@.take(0) =~= Seq::<usize>::empty());
    }
    while i < ids.len()
        invariant
            i <= ids.len(),
            seen@.len() == bound,
            ids_below(ids@, bound as int),
            ids_below(out@, bound as int),
            out@ == dedup(ids@.take(i as int)),
            forall|j: usize| j < bound && #[trigger] seen@[j as int] ==> out@.contains(j),
            forall|j: usize| #[trigger] out@.contains(j) ==> j < bound && seen@[j as int],
        decreases ids.len() - i,
    {
        let x = ids[i];
        let ghost out_before = out@;
        let ghost seen_before = seen@;
        proof {
            assert(ids@.take(i + 1).drop_last() =~= ids@.take(i as int));
            assert(ids@.take(i + 1).last() == x);
        }
        if !seen[x] {
            seen.set(x, true);
            out.push(x);
            proof {
                assert(!out_before.contains(x));
                assert forall|j: usize| j < bound && #[trigger] seen@[j as int] implies out@.contains(
                    j,
                ) by {
                    if j != x {
                        assert(seen_before[j as int]);
                        let k = choose|k: int| 0 <= k < out_before.len() && out_before[k] == j;
                        assert(out@[k] == j);
                    } else {
                        assert(out@[out_before.len() as int] == x);
                    }
                }
                assert forall|j: usize| #[trigger] out@.contains(j) implies j < bound && seen@[j as int] by {
                    let k = choose|k: int| 0 <= k < out@.len() && out@[k] == j;
                    if k < out_before.len() {
                        assert(out_before.contains(out_before[k]));
                    }
                }
            }
        } else {
            proof {
                assert(out_before.contains(x));
            }
        }
        i += 1;
    }
    proof {
        assert(ids@.take(ids@.len() as int) =~= ids@);
    }
    out
}

} // verus!
