//! Character-level helpers on text.
use vstd::prelude::*;
use crate::model::last_dot;

verus! {

/// The characters of `s`, in order.
pub(crate) fn chars_of(s: &str) -> (r: Vec<char>)
    ensures
        r@ == s@,
{
    let mut r: Vec<char> = Vec::new();
    for c in it: s.chars()
        invariant
            r@ == it.seq().take(it.index() as int),
    {
        r.push(c);
    }
    r
}

/// Where the last `.` of `cs` stands, if there is one.
pub(crate) fn last_dot_in(cs: &Vec<char>) -> (r: Option<usize>)
    ensures
        r is None <==> last_dot(cs@) == -1,
        r matches Some(d) ==> d < cs@.len() && d == last_dot(cs@),
{
    let mut j = cs.len();
    assert(cs@.subrange(0, j as int) =~= cs@);
    while j > 0
        invariant
            j <= cs@.len(),
            last_dot(cs@) == last_dot(cs@.subrange(0, j as int)),
        decreases j,
    {
        let ghost sub = cs@.subrange(0, j as int);
        assert(sub.drop_last() =~= cs@.subrange(0, j - 1));
        assert(sub.last() == cs@[j - 1]);
        if cs[j - 1] == '.' {
            return Some(j - 1);
        }
        j -= 1;
    }
    assert(cs@.subrange(0, 0).len() == 0);
    None
}

} // verus!
