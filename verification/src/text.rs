//! Conversions between strings and character vectors.

use vstd::prelude::*;

verus! {

/// Appends `c` to `s` with `String::push`.
///
/// Trusted: the contract states what std documents for `String::push`, that
/// the character is appended at the end of the string.
#[verifier::external_body]
fn push_char(s: &mut String, c: char)
    ensures
        final(s)@ == old(s)@.push(c),
{
    s.push(c);
}

/// The characters of `s`, in order.
pub fn chars_of(s: &str) -> (r: Vec<char>)
    ensures
        r@ == s@,
{
    broadcast use vstd::string::group_string_axioms;

    let mut r: Vec<char> = Vec::new();
    for c in it: s.chars()
        invariant
            r@ == it.seq().take(it.index() as int),
    {
        r.push(c);
    }
    r
}

/// The string made of the characters `cs[from..to]`.
pub fn string_from_chars(cs: &Vec<char>, from: usize, to: usize) -> (r: String)
    requires
        from <= to <= cs.len(),
    ensures
        r@ == cs@.subrange(from as int, to as int),
{
    let mut r = String::new();
    let mut k: usize = from;
    while k < to
        invariant
            from <= k <= to <= cs.len(),
            r@ == cs@.subrange(from as int, k as int),
        decreases to - k,
    {
        push_char(&mut r, cs[k]);
        assert(cs@.subrange(from as int, k + 1) =~= cs@.subrange(from as int, k as int).push(
            cs@[k as int],
        ));
        k = k + 1;
    }
    r
}

/// Whether `t` occurs in `s` at position `from`.
pub fn chars_match(s: &Vec<char>, from: usize, t: &Vec<char>) -> (r: bool)
    ensures
        r == (from + t.len() <= s.len() && s@.subrange(from as int, from + t.len()) == t@),
{
    if t.len() > s.len() || from > s.len() - t.len() {
        return false;
    }
    let mut k: usize = 0;
    while k < t.len()
        invariant
            k <= t.len(),
            from + t.len() <= s.len(),
            forall|m: int| 0 <= m < k ==> s@[from + m] == t@[m],
        decreases t.len() - k,
    {
        if s[from + k] != t[k] {
            assert(s@.subrange(from as int, from + t.len())[k as int] != t@[k as int]);
            return false;
        }
        k = k + 1;
    }
    assert(s@.subrange(from as int, from + t.len()) =~= t@);
    true
}

} // verus!
