use vstd::prelude::*;

verus! {

/// `needle` occurs as a contiguous block of `haystack`.
pub open spec fn seq_contains(haystack: Seq<char>, needle: Seq<char>) -> bool {
    exists|i: int| 0 <= i <= haystack.len() - needle.len()
        && #[trigger] haystack.subrange(i, i + needle.len()) == needle
}

/// The characters of `s`, in order.
pub fn chars_of(s: &str) -> (res: Vec<char>)
    ensures
        res@ == s@,
{
    let mut res: Vec<char> = Vec::new();
    for c in it: s.chars()
        invariant
            res@ == it.seq().take(it.index() as int),
    {
        res.push(c);
    }
    res
}


/// `needle` occurs in `haystack` starting at position `start`.
pub open spec fn occurs_at(haystack: Seq<char>, needle: Seq<char>, start: int) -> bool {
    0 <= start <= haystack.len() - needle.len()
        && haystack.subrange(start, start + needle.len()) == needle
}

fn matches_at(haystack: &Vec<char>, needle: &Vec<char>, start: usize) -> (res: bool)
    requires
        start + needle.len() <= haystack.len(),
    ensures
        res == occurs_at(haystack@, needle@, start as int),
{
    let mut k: usize = 0;
    while k < needle.len()
        invariant
            start + needle.len() <= haystack.len(),
            k <= needle.len(),
            forall|j: int| 0 <= j < k ==> haystack@[start + j] == needle@[j],
        decreases needle.len() - k,
    {
        if haystack[start + k] != needle[k] {
            assert(haystack@.subrange(start as int, start + needle.len())[k as int] != needle@[k as int]);
            return false;
        }
        k = k + 1;
    }
    assert(haystack@.subrange(start as int, start + needle.len()) =~= needle@);
    true
}

/// Whether `needle` occurs as a substring of `haystack` (the empty string
/// occurs in every string).
pub fn str_contains(haystack: &str, needle: &str) -> (res: bool)
    ensures
        res == seq_contains(haystack@, needle@),
{
    let h = chars_of(haystack);
    let n = chars_of(needle);
    if n.len() > h.len() {
        assert forall|i: int| 0 <= i <= h@.len() - n@.len() implies
            #[trigger] h@.subrange(i, i + n@.len()) != n@ by {}
        return false;
    }
    let last = h.len() - n.len();
    let mut start: usize = 0;
    while start < last
        invariant
            last == h@.len() - n@.len(),
            n@.len() <= h@.len(),
            h@ == haystack@,
            n@ == needle@,
            start <= last,
            forall|i: int| 0 <= i < start ==> !occurs_at(h@, n@, i),
        decreases last - start,
    {
        if matches_at(&h, &n, start) {
            assert(h@.subrange(start as int, start + n@.len()) == n@);
            return true;
        }
        start = start + 1;
    }
    if matches_at(&h, &n, last) {
        assert(h@.subrange(last as int, last + n@.len()) == n@);
        return true;
    }
    assert forall|i: int| 0 <= i <= h@.len() - n@.len() implies
        #[trigger] h@.subrange(i, i + n@.len()) != n@ by {
        assert(!occurs_at(h@, n@, i));
    }
    false
}

} // verus!
