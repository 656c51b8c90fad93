//! Text helpers shared by the rest of the library.
//!
//! Every function here is stated over `Seq<char>`, the view of `str` and
//! `String`, so that callers can speak about the characters of a text
//! rather than its bytes.

use vstd::prelude::*;
use vstd::std_specs::iter::IteratorSpec;
use vstd::string::StringExecFns;

verus! {

/// `p` is a prefix of `s`.
pub open spec fn is_prefix(p: Seq<char>, s: Seq<char>) -> bool {
    p.len() <= s.len() && s.subrange(0, p.len() as int) == p
}

/// Index of the first occurrence of `c` in `s`, or `s.len()` when `c` does
/// not occur.
pub open spec fn position_of<A>(s: Seq<A>, c: A) -> int
    decreases s.len(),
{
    if s.len() == 0 {
        0
    } else if s[0] == c {
        0
    } else {
        1 + position_of(s.drop_first(), c)
    }
}

/// The views of a sequence of strings.
pub open spec fn texts(items: Seq<String>) -> Seq<Seq<char>> {
    items.map_values(|s: String| s@)
}

/// The items written one after another with `sep` between neighbours.
pub open spec fn joined(items: Seq<Seq<char>>, sep: Seq<char>) -> Seq<char>
    decreases items.len(),
{
    if items.len() == 0 {
        Seq::empty()
    } else if items.len() == 1 {
        items[0]
    } else {
        joined(items.drop_last(), sep) + sep + items.last()
    }
}

/// `position_of` is the least index that holds `c`, and is `s.len()` exactly
/// when no index does.
pub proof fn lemma_position_of<A>(s: Seq<A>, c: A)
    ensures
        0 <= position_of(s, c) <= s.len(),
        position_of(s, c) < s.len() ==> s[position_of(s, c)] == c,
        forall|j: int| 0 <= j < position_of(s, c) ==> s[j] != c,
        position_of(s, c) == s.len() <==> !s.contains(c),
    decreases s.len(),
{
    if s.len() == 0 {
    } else if s[0] == c {
        assert(s.contains(c));
    } else {
        let rest = s.drop_first();
        lemma_position_of(rest, c);
        let p = position_of(rest, c);
        assert forall|j: int| 0 <= j < 1 + p implies s[j] != c by {
            if j > 0 {
                assert(s[j] == rest[j - 1]);
            }
        }
        if p < rest.len() {
            assert(s[1 + p] == rest[p]);
            assert(s.contains(c));
        } else {
            assert forall|j: int| 0 <= j < s.len() implies s[j] != c by {}
        }
    }
}

/// Joining one more item appends the separator and the item, except after
/// nothing.
pub proof fn lemma_joined_push(items: Seq<Seq<char>>, sep: Seq<char>, item: Seq<char>)
    ensures
        joined(items.push(item), sep) == if items.len() == 0 {
            item
        } else {
            joined(items, sep) + sep + item
        },
{
    let all = items.push(item);
    assert(all.drop_last() == items);
    assert(all.last() == item);
}

/// The characters of `s`, in order.
pub fn chars_of(s: &str) -> (v: Vec<char>)
    ensures
        v@ == s@,
{
    let mut v: Vec<char> = Vec::new();
    for c in it: s.chars()
        invariant
            v@.len() == it.index(),
            it.seq() == s@,
            forall|i: int| 0 <= i < v@.len() ==> v@[i] == it.seq()[i],
    {
        v.push(c);
    }
    assert(v@ =~= s@);
    v
}

/// Whether `a` and `b` hold the same characters.
pub fn same_text(a: &str, b: &str) -> (same: bool)
    ensures
        same == (a@ == b@),
{
    let x = chars_of(a);
    let y = chars_of(b);
    if x.len() != y.len() {
        return false;
    }
    let mut i: usize = 0;
    while i < x.len()
        invariant
            i <= x.len() == y.len(),
            x@ == a@,
            y@ == b@,
            forall|j: int| 0 <= j < i ==> x@[j] == y@[j],
        decreases x.len() - i,
    {
        if x[i] != y[i] {
            assert(a@[i as int] != b@[i as int]);
            return false;
        }
        i += 1;
    }
    assert(x@ =~= y@);
    true
}

/// Whether `s` begins with `p`.
pub fn starts_with(s: &Vec<char>, p: &Vec<char>) -> (b: bool)
    ensures
        b == is_prefix(p@, s@),
{
    if p.len() > s.len() {
        return false;
    }
    let mut i: usize = 0;
    while i < p.len()
        invariant
            i <= p.len() <= s.len(),
            forall|j: int| 0 <= j < i ==> s@[j] == p@[j],
        decreases p.len() - i,
    {
        if s[i] != p[i] {
            assert(s@.subrange(0, p@.len() as int)[i as int] != p@[i as int]);
            return false;
        }
        i += 1;
    }
    assert(s@.subrange(0, p@.len() as int) =~= p@);
    true
}

/// First index at or after `from` that holds `c`; `s.len()` when none does.
pub fn find_from(s: &Vec<char>, c: char, from: usize) -> (at: usize)
    ensures
        from <= s.len() ==> at == from + position_of(s@.skip(from as int), c),
        from > s.len() ==> at == s.len(),
        from <= s.len() ==> from <= at,
        at <= s.len(),
{
    if from > s.len() {
        return s.len();
    }
    let mut i: usize = from;
    while i < s.len()
        invariant
            from <= i <= s.len(),
            from + position_of(s@.skip(from as int), c) == i + position_of(s@.skip(i as int), c),
        decreases s.len() - i,
    {
        let ghost here = s@.skip(i as int);
        assert(here.len() > 0 && here[0] == s@[i as int]);
        if s[i] == c {
            return i;
        }
        assert(here.drop_first() =~= s@.skip(i + 1));
        i += 1;
    }
    proof {
        lemma_position_of(s@.skip(i as int), c);
    }
    i
}

/// The strings of `items` with `sep` between neighbours.
pub fn join(items: &Vec<String>, sep: &str) -> (out: String)
    ensures
        out@ == joined(texts(items@), sep@),
{
    let mut out = String::new();
    let mut i: usize = 0;
    while i < items.len()
        invariant
            i <= items.len(),
            out@ == joined(texts(items@).take(i as int), sep@),
        decreases items.len() - i,
    {
        proof {
            let done = texts(items@).take(i as int);
            lemma_joined_push(done, sep@, items@[i as int]@);
            assert(done.push(items@[i as int]@) =~= texts(items@).take(i + 1));
        }
        if i > 0 {
            out.append(sep);
        }
        out.append(items[i].as_str());
        i += 1;
    }
    assert(texts(items@).take(items@.len() as int) =~= texts(items@));
    out
}

} // verus!
