use vstd::prelude::*;

verus! {

/// The characters of a string, in order.
pub fn chars_of(s: &str) -> (chars: Vec<char>)
    ensures
        chars@ == s@,
{
    let mut chars: Vec<char> = Vec::new();
    for c in it: s.chars()
        invariant
            chars@ == it.seq().take(it.index() as int),
            it.seq() == s@,
    {
        chars.push(c);
    }
    chars
}

/// Whether `part` stands in `whole` at position `at`.
pub open spec fn occurs_at(part: Seq<char>, whole: Seq<char>, at: int) -> bool {
    &&& 0 <= at
    &&& at + part.len() <= whole.len()
    &&& whole.subrange(at, at + part.len()) == part
}

fn matches_at(part: &Vec<char>, whole: &Vec<char>, at: usize) -> (found: bool)
    requires
        at + part.len() <= whole.len(),
    ensures
        found == occurs_at(part@, whole@, at as int),
{
    let mut i: usize = 0;
    while i < part.len()
        invariant
            at + part.len() <= whole.len(),
            i <= part.len(),
            forall|j: int| 0 <= j < i ==> whole@[at + j] == part@[j],
        decreases part.len() - i,
    {
        if whole[at + i] != part[i] {
            proof {
                let window = whole@.subrange(at as int, at + part.len());
                assert(window[i as int] == whole@[at + i]);
            }
            return false;
        }
        i += 1;
    }
    proof {
        assert(whole@.subrange(at as int, at + part.len()) =~= part@);
    }
    true
}

/// Whether two strings hold the same characters.
pub fn str_eq(a: &str, b: &str) -> (same: bool)
    ensures
        same == (a@ == b@),
{
    let left = chars_of(a);
    let right = chars_of(b);
    if left.len() != right.len() {
        return false;
    }
    let same = matches_at(&left, &right, 0);
    proof {
        assert(right@.subrange(0, right@.len() as int) =~= right@);
    }
    same
}

/// Whether `s` begins with `prefix`.
pub fn starts_with(s: &str, prefix: &str) -> (found: bool)
    ensures
        found == occurs_at(prefix@, s@, 0),
{
    let whole = chars_of(s);
    let part = chars_of(prefix);
    if part.len() > whole.len() {
        return false;
    }
    matches_at(&part, &whole, 0)
}

/// Whether `s` ends with `suffix`.
pub fn ends_with(s: &str, suffix: &str) -> (found: bool)
    ensures
        found == occurs_at(suffix@, s@, s@.len() - suffix@.len()),
{
    let whole = chars_of(s);
    let part = chars_of(suffix);
    if part.len() > whole.len() {
        return false;
    }
    matches_at(&part, &whole, whole.len() - part.len())
}

} // verus!
