use vstd::prelude::*;

verus! {

/// Relies on str::chars: yields the characters of the string in order.
#[verifier::external_body]
pub(crate) fn chars_of(s: &str) -> (r: Vec<char>)
    ensures
        r@ == s@,
{
    s.chars().collect()
}

/// Relies on FromIterator<char> for String: the string of those characters in order.
#[verifier::external_body]
pub(crate) fn string_of(c: &Vec<char>) -> (r: String)
    ensures
        r@ == c@,
{
    c.iter().collect()
}

/// The sequence with one leading `v` removed, if there is one.
pub open spec fn strip_v(s: Seq<char>) -> Seq<char> {
    if s.len() > 0 && s[0] == 'v' {
        s.subrange(1, s.len() as int)
    } else {
        s
    }
}

/// Removes one leading `v` from the characters.
pub fn strip_v_chars(c: &Vec<char>) -> (r: Vec<char>)
    ensures
        r@ == strip_v(c@),
{
    let start: usize = if c.len() > 0 && c[0] == 'v' { 1 } else { 0 };
    let mut r: Vec<char> = Vec::new();
    let mut i: usize = start;
    while i < c.len()
        invariant
            start <= i <= c.len(),
            start == (if c@.len() > 0 && c@[0] == 'v' { 1usize } else { 0usize }),
            r@ == c@.subrange(start as int, i as int),
        decreases c.len() - i,
    {
        r.push(c[i]);
        i = i + 1;
    }
    proof {
        assert(c@.subrange(0, c@.len() as int) =~= c@);
    }
    r
}

} // verus!
