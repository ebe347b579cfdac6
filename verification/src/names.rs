//! Splitting and joining of `::`-qualified native names.

use vstd::prelude::*;
use vstd::string::*;

verus! {

/// The scope separator `::` as a sequence of characters.
pub open spec fn separator() -> Seq<char> {
    seq![':', ':']
}

/// A scope separator starts at position `i` of `s`.
pub open spec fn separator_at(s: Seq<char>, i: int) -> bool {
    0 <= i && i + 1 < s.len() && s[i] == ':' && s[i + 1] == ':'
}

/// `i` is where the last scope separator of `s` starts.
pub open spec fn last_separator_at(s: Seq<char>, i: int) -> bool {
    separator_at(s, i) && forall|j: int| separator_at(s, j) ==> j <= i
}

/// `s` holds no scope separator.
pub open spec fn unqualified(s: Seq<char>) -> bool {
    forall|j: int| !separator_at(s, j)
}

/// What stands before the last scope separator; nothing for an unqualified
/// name.
pub open spec fn namespace_of(s: Seq<char>) -> Seq<char> {
    if unqualified(s) {
        Seq::empty()
    } else {
        s.subrange(0, choose|i: int| last_separator_at(s, i))
    }
}

/// What stands behind the last scope separator; the whole of an unqualified
/// name.
pub open spec fn localname_of(s: Seq<char>) -> Seq<char> {
    if unqualified(s) {
        s
    } else {
        s.subrange((choose|i: int| last_separator_at(s, i)) + 2, s.len() as int)
    }
}

/// The name `name` inside the scope `namespace`.
pub open spec fn qualified(namespace: Seq<char>, name: Seq<char>) -> Seq<char> {
    if namespace.len() == 0 {
        name
    } else {
        namespace + separator() + name
    }
}

/// Two positions that are both the last separator are the same position.
pub proof fn last_separator_unique(s: Seq<char>, i: int, j: int)
    requires
        last_separator_at(s, i),
        last_separator_at(s, j),
    ensures
        i == j,
{
}

/// Finds where the last scope separator of `name` starts.
pub fn find_last_separator(name: &str) -> (r: Option<usize>)
    ensures
        r is None <==> unqualified(name@),
        r matches Some(i) ==> last_separator_at(name@, i as int),
{
    let len: usize = name.unicode_len();
    if len < 2 {
        return None;
    }
    let mut i: usize = len - 1;
    while i > 0
        invariant
            len == name@.len(),
            i < len,
            forall|j: int| i <= j ==> !separator_at(name@, j),
        decreases i,
    {
        if name.get_char(i) == ':' && name.get_char(i - 1) == ':' {
            assert(separator_at(name@, i - 1));
            return Some(i - 1);
        }
        i -= 1;
    }
    None
}

/// The scope of a qualified name.
pub fn namespace(name: &str) -> (r: String)
    ensures
        r@ == namespace_of(name@),
{
    match find_last_separator(name) {
        Some(i) => {
            proof {
                let c = choose|c: int| last_separator_at(name@, c);
                last_separator_unique(name@, i as int, c);
            }
            name.substring_char(0, i).to_owned()
        },
        None => String::new(),
    }
}

/// The last component of a qualified name.
pub fn localname(name: &str) -> (r: String)
    ensures
        r@ == localname_of(name@),
{
    match find_last_separator(name) {
        Some(i) => {
            proof {
                let c = choose|c: int| last_separator_at(name@, c);
                last_separator_unique(name@, i as int, c);
            }
            let len: usize = name.unicode_len();
            name.substring_char(i + 2, len).to_owned()
        },
        None => name.to_owned(),
    }
}

/// Joins a scope and a name.
pub fn qualify(namespace: &str, name: &str) -> (r: String)
    ensures
        r@ == qualified(namespace@, name@),
{
    if namespace.unicode_len() == 0 {
        name.to_owned()
    } else {
        proof {
            reveal_strlit("::");
            assert("::"@ =~= separator());
        }
        namespace.to_owned().concat("::").concat(name)
    }
}

/// The parts in order, with `separator` between each two neighbours.
pub open spec fn joined(parts: Seq<Seq<char>>, separator: Seq<char>) -> Seq<char>
    decreases parts.len(),
{
    if parts.len() == 0 {
        Seq::empty()
    } else if parts.len() == 1 {
        parts[0]
    } else {
        joined(parts.drop_last(), separator) + separator + parts.last()
    }
}

/// The texts of `parts`, in order.
pub open spec fn texts(parts: Seq<&'static str>) -> Seq<Seq<char>> {
    parts.map_values(|p: &'static str| p@)
}

/// Joins the parts, putting `separator` between each two neighbours.
pub fn join(parts: &Vec<&'static str>, separator: &str) -> (r: String)
    ensures
        r@ == joined(texts(parts@), separator@),
{
    let mut out = String::new();
    let mut i: usize = 0;
    let ghost all = texts(parts@);
    while i < parts.len()
        invariant
            i <= parts.len(),
            all == texts(parts@),
            out@ == joined(all.take(i as int), separator@),
        decreases parts.len() - i,
    {
        proof {
            assert(all.take(i + 1).drop_last() =~= all.take(i as int));
            assert(all.take(i + 1).last() == parts@[i as int]@);
        }
        if i > 0 {
            out.append(separator);
        } else {
            proof {
                assert(all.take(1)[0] == parts@[0]@);
                assert(Seq::<char>::empty() + parts@[0]@ =~= parts@[0]@);
            }
        }
        out.append(parts[i]);
        i += 1;
    }
    proof {
        assert(all.take(all.len() as int) =~= all);
    }
    out
}

} // verus!
