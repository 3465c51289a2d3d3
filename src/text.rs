//! Character-sequence helpers shared by the parsers and request builders.

use vstd::prelude::*;

verus! {

/// Relies on `String::push`: appends one character.
#[verifier::external_body]
pub(crate) fn push_char(s: &mut String, c: char)
    ensures
        final(s)@ == old(s)@.push(c),
{
    s.push(c);
}

/// The characters of `s`, in order.
pub fn char_seq(s: &str) -> (r: Vec<char>)
    ensures
        r@ == s@,
{
    let mut out: Vec<char> = Vec::new();
    for c in it: s.chars()
        invariant
            out@ == it.seq().subrange(0, it.index() as int),
            it.seq() == s@,
    {
        out.push(c);
    }
    out
}

/// A `String` holding exactly the characters of `v`.
pub fn seq_to_string(v: &Vec<char>) -> (r: String)
    ensures
        r@ == v@,
{
    let mut s = String::new();
    let mut i: usize = 0;
    while i < v.len()
        invariant
            i <= v@.len(),
            s@ == v@.subrange(0, i as int),
        decreases v@.len() - i,
    {
        push_char(&mut s, v[i]);
        i = i + 1;
        assert(s@ =~= v@.subrange(0, i as int));
    }
    assert(s@ =~= v@);
    s
}

/// Appends the characters of `lit` to `s`.
pub fn push_str(s: &mut String, lit: &str)
    ensures
        final(s)@ == old(s)@ + lit@,
{
    s.append(lit);
}

/// Appends the characters of `v` to `s`.
pub fn push_chars(s: &mut String, v: &Vec<char>)
    ensures
        final(s)@ == old(s)@ + v@,
{
    let ghost start = s@;
    let mut i: usize = 0;
    while i < v.len()
        invariant
            i <= v@.len(),
            s@ == start + v@.subrange(0, i as int),
        decreases v@.len() - i,
    {
        push_char(s, v[i]);
        i = i + 1;
        assert(s@ =~= start + v@.subrange(0, i as int));
    }
    assert(v@.subrange(0, v@.len() as int) =~= v@);
}

/// Whether `lit` occurs in `t` at position `i`.
pub open spec fn occurs_at(t: Seq<char>, i: int, lit: Seq<char>) -> bool {
    0 <= i && i + lit.len() <= t.len() && t.subrange(i, i + lit.len()) == lit
}

/// Tests whether `lit` occurs in `t` at position `i`.
pub fn matches_at(t: &Vec<char>, i: usize, lit: &Vec<char>) -> (r: bool)
    ensures
        r == occurs_at(t@, i as int, lit@),
{
    if i > t.len() || lit.len() > t.len() - i {
        return false;
    }
    let mut k: usize = 0;
    while k < lit.len()
        invariant
            k <= lit@.len(),
            i + lit@.len() <= t@.len(),
            forall|m: int| 0 <= m < k ==> t@[i + m] == lit@[m],
        decreases lit@.len() - k,
    {
        assert(i + k < t.len());
        if t[i + k] != lit[k] {
            assert(t@.subrange(i as int, i + lit@.len())[k as int] != lit@[k as int]);
            return false;
        }
        k = k + 1;
    }
    assert(t@.subrange(i as int, i + lit@.len()) =~= lit@);
    true
}

/// The first position at or after `i` where `lit` occurs in `t`.
pub open spec fn find_from(t: Seq<char>, lit: Seq<char>, i: int) -> Option<int>
    decreases t.len() + 1 - i,
{
    if i < 0 || i + lit.len() > t.len() {
        None
    } else if occurs_at(t, i, lit) {
        Some(i)
    } else {
        find_from(t, lit, i + 1)
    }
}

/// Whether `lit` occurs anywhere in `t`.
pub open spec fn contains(t: Seq<char>, lit: Seq<char>) -> bool {
    find_from(t, lit, 0) is Some
}

pub proof fn lemma_find_from_bounds(t: Seq<char>, lit: Seq<char>, i: int)
    ensures
        match find_from(t, lit, i) {
            Some(j) => i <= j && j + lit.len() <= t.len() && occurs_at(t, j, lit),
            None => true,
        },
    decreases t.len() + 1 - i,
{
    if i < 0 || i + lit.len() > t.len() {
    } else if occurs_at(t, i, lit) {
    } else {
        lemma_find_from_bounds(t, lit, i + 1);
    }
}

/// Finds the first position at or after `from` where `lit` occurs in `t`.
pub fn find_lit(t: &Vec<char>, lit: &Vec<char>, from: usize) -> (r: Option<usize>)
    ensures
        match r {
            Some(i) => find_from(t@, lit@, from as int) == Some(i as int) && i + lit@.len()
                <= t@.len(),
            None => find_from(t@, lit@, from as int) is None,
        },
{
    if lit.len() > t.len() || from > t.len() - lit.len() {
        return None;
    }
    let last = t.len() - lit.len();
    let mut i: usize = from;
    while i <= last
        invariant
            from <= i,
            last + lit@.len() == t@.len(),
            find_from(t@, lit@, from as int) == find_from(t@, lit@, i as int),
        decreases last + 1 - i,
    {
        if matches_at(t, i, lit) {
            return Some(i);
        }
        if i == last {
            assert(find_from(t@, lit@, i + 1) is None);
            return None;
        }
        i = i + 1;
    }
    None
}

/// Tests whether `lit` occurs anywhere in `s`.
pub fn contains_str(s: &str, lit: &str) -> (r: bool)
    ensures
        r == contains(s@, lit@),
{
    let t = char_seq(s);
    let l = char_seq(lit);
    find_lit(&t, &l, 0).is_some()
}

/// Appends `t[from..to]` to `out`.
pub fn push_range(out: &mut Vec<char>, t: &Vec<char>, from: usize, to: usize)
    requires
        from <= to <= t@.len(),
    ensures
        final(out)@ == old(out)@ + t@.subrange(from as int, to as int),
{
    let ghost start = out@;
    let mut i: usize = from;
    while i < to
        invariant
            from <= i <= to <= t@.len(),
            out@ == start + t@.subrange(from as int, i as int),
        decreases to - i,
    {
        out.push(t[i]);
        i = i + 1;
        assert(out@ =~= start + t@.subrange(from as int, i as int));
    }
}

} // verus!
