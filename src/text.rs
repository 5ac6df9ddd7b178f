use vstd::prelude::*;

verus! {

/// Unicode white space, the set that `char::is_whitespace` uses.
pub open spec fn is_ws(c: char) -> bool {
    let n = c as u32;
    (0x09 <= n && n <= 0x0d) || n == 0x20 || n == 0x85 || n == 0xa0 || n == 0x1680 || (0x2000
        <= n && n <= 0x200a) || n == 0x2028 || n == 0x2029 || n == 0x202f || n == 0x205f || n
        == 0x3000
}

pub fn is_whitespace(c: char) -> (r: bool)
    ensures
        r == is_ws(c),
{
    let n = c as u32;
    (0x09 <= n && n <= 0x0d) || n == 0x20 || n == 0x85 || n == 0xa0 || n == 0x1680 || (0x2000
        <= n && n <= 0x200a) || n == 0x2028 || n == 0x2029 || n == 0x202f || n == 0x205f || n
        == 0x3000
}

/// The characters of `s`, one per element.
pub fn chars_of(s: &str) -> (r: Vec<char>)
    ensures
        r@ == s@,
{
    let n = s.unicode_len();
    let mut out: Vec<char> = Vec::new();
    let mut i: usize = 0;
    while i < n
        invariant
            n == s@.len(),
            i <= n,
            out@ == s@.subrange(0, i as int),
        decreases n - i,
    {
        out.push(s.get_char(i));
        i = i + 1;
    }
    assert(out@ == s@.subrange(0, n as int));
    out
}

/// Whether `t` ends with `p`.
pub open spec fn has_suffix(t: Seq<char>, p: Seq<char>) -> bool {
    p.len() <= t.len() && t.subrange(t.len() - p.len(), t.len() as int) == p
}

/// Whether `t[at..]` starts with `p`.
pub open spec fn occurs_at(t: Seq<char>, p: Seq<char>, at: int) -> bool {
    0 <= at && at + p.len() <= t.len() && t.subrange(at, at + p.len()) == p
}

pub fn matches_at(t: &Vec<char>, p: &Vec<char>, at: usize) -> (r: bool)
    ensures
        r == occurs_at(t@, p@, at as int),
{
    if at > t.len() || p.len() > t.len() - at {
        return false;
    }
    let mut k: usize = 0;
    while k < p.len()
        invariant
            at + p@.len() <= t@.len(),
            t@.len() == t.len(),
            k <= p@.len(),
            t@.subrange(at as int, at + k) == p@.subrange(0, k as int),
        decreases p.len() - k,
    {
        if t[at + k] != p[k] {
            assert(t@.subrange(at as int, at + p@.len())[k as int] != p@[k as int]);
            return false;
        }
        assert(t@.subrange(at as int, at + k + 1) == t@.subrange(at as int, at + k).push(t@[at + k]));
        assert(p@.subrange(0, k + 1) == p@.subrange(0, k as int).push(p@[k as int]));
        k = k + 1;
    }
    assert(p@.subrange(0, p@.len() as int) == p@);
    true
}

} // verus!
