//! Searching text held as a sequence of characters.
use vstd::prelude::*;

verus! {

/// `p` stands in `s` from index `i` on.
pub open spec fn occurs_at(s: Seq<char>, p: Seq<char>, i: int) -> bool {
    0 <= i && i + p.len() <= s.len() && s.subrange(i, i + p.len()) =~= p
}

/// `p` stands somewhere inside `s[lo..hi]`.
pub open spec fn occurs_within(s: Seq<char>, p: Seq<char>, lo: int, hi: int) -> bool {
    exists|j: int| lo <= j && j + p.len() <= hi && #[trigger] occurs_at(s, p, j)
}

/// `i` is where `p` first stands inside `s[lo..hi]`.
pub open spec fn first_within(s: Seq<char>, p: Seq<char>, lo: int, hi: int, i: int) -> bool {
    &&& lo <= i
    &&& i + p.len() <= hi
    &&& occurs_at(s, p, i)
    &&& forall|j: int| lo <= j < i ==> !#[trigger] occurs_at(s, p, j)
}

pub proof fn lemma_first_within_unique(s: Seq<char>, p: Seq<char>, lo: int, hi: int, i: int, k: int)
    requires
        first_within(s, p, lo, hi, i),
        first_within(s, p, lo, hi, k),
    ensures
        i == k,
{
}

/// The characters of `s`, in order.
pub fn collect_chars(s: &str) -> (r: Vec<char>)
    ensures
        r@ == s@,
{
    let mut out: Vec<char> = Vec::new();
    for c in iter: s.chars()
        invariant
            out@ == iter.history(),
    {
        out.push(c);
    }
    out
}

/// Whether `p` stands in `s` from index `i` on.
pub fn matches_at(s: &Vec<char>, p: &Vec<char>, i: usize) -> (r: bool)
    requires
        i + p@.len() <= s@.len(),
    ensures
        r == occurs_at(s@, p@, i as int),
{
    let n = s.len();
    let mut k: usize = 0;
    while k < p.len()
        invariant
            n == s@.len(),
            k <= p@.len(),
            i + p@.len() <= s@.len(),
            forall|t: int| 0 <= t < k ==> s@[i + t] == p@[t],
        decreases p@.len() - k,
    {
        if s[i + k] != p[k] {
            assert(s@.subrange(i as int, i + p@.len())[k as int] != p@[k as int]);
            return false;
        }
        k += 1;
    }
    assert(s@.subrange(i as int, i + p@.len()) =~= p@);
    true
}

/// Where `p` first stands inside `s[lo..hi]`, if it does.
pub fn find_within(s: &Vec<char>, p: &Vec<char>, lo: usize, hi: usize) -> (r: Option<usize>)
    requires
        lo <= hi <= s@.len(),
    ensures
        match r {
            Some(i) => first_within(s@, p@, lo as int, hi as int, i as int),
            None => !occurs_within(s@, p@, lo as int, hi as int),
        },
{
    let plen = p.len();
    if plen > hi - lo {
        return None;
    }
    let mut i: usize = lo;
    while i <= hi - plen
        invariant
            lo <= i,
            plen == p@.len(),
            plen <= hi - lo,
            lo <= hi <= s@.len(),
            forall|j: int| lo <= j < i ==> !#[trigger] occurs_at(s@, p@, j),
        decreases hi - i,
    {
        if matches_at(s, p, i) {
            return Some(i);
        }
        i += 1;
    }
    None
}

} // verus!
