//! Character-level helpers on string slices.
use vstd::prelude::*;

verus! {

/// `n` occurs in `h` starting at index `i`.
pub open spec fn occurs_at(h: Seq<char>, n: Seq<char>, i: int) -> bool {
    &&& 0 <= i
    &&& i + n.len() <= h.len()
    &&& h.subrange(i, i + n.len()) == n
}

/// `n` occurs somewhere in `h` as a contiguous run of characters.
pub open spec fn contains_seq(h: Seq<char>, n: Seq<char>) -> bool {
    exists|i: int| occurs_at(h, n, i)
}

/// `k` is where the first line of `s` ends: the index of the first newline,
/// or the length of `s` when it holds none.
pub open spec fn is_line_end(s: Seq<char>, k: int) -> bool {
    &&& 0 <= k <= s.len()
    &&& (k == s.len() || s[k] == '\n')
    &&& forall|j: int| 0 <= j < k ==> s[j] != '\n'
}

/// The end of the first line of `s`.
pub open spec fn line_end(s: Seq<char>) -> int {
    choose|k: int| is_line_end(s, k)
}

/// The first line of `s`, as `str::lines` yields it: the characters before the
/// first newline, without the carriage return of a `\r\n` ending.
pub open spec fn first_line(s: Seq<char>) -> Seq<char> {
    let k = line_end(s);
    if k < s.len() && k > 0 && s[k - 1] == '\r' {
        s.take(k - 1)
    } else {
        s.take(k)
    }
}

/// A line end exists, and only one.
pub proof fn lemma_line_end(s: Seq<char>, k: int)
    requires
        is_line_end(s, k),
    ensures
        line_end(s) == k,
{
    let c = line_end(s);
    assert(is_line_end(s, c));
    if c < k {
        assert(s[c] != '\n');
    } else if k < c {
        assert(s[k] != '\n');
    }
}


/// The characters of `s`, one per element.
pub fn chars_of(s: &str) -> (v: Vec<char>)
    ensures
        v@ == s@,
{
    let mut v: Vec<char> = Vec::new();
    for c in it: s.chars()
        invariant
            v@ == it.seq().take(it.index() as int),
            it.seq() == s@,
    {
        v.push(c);
    }
    v
}

/// Whether `needle` occurs in `hay`.
pub fn contains(hay: &Vec<char>, needle: &str) -> (r: bool)
    ensures
        r == contains_seq(hay@, needle@),
{
    let n = chars_of(needle);
    if n.len() > hay.len() {
        assert forall|i: int| !occurs_at(hay@, n@, i) by {}
        return false;
    }
    if n.len() == 0 {
        assert(hay@.subrange(0, 0) =~= n@);
        assert(occurs_at(hay@, n@, 0));
        return true;
    }
    let last: usize = hay.len() - n.len();
    let mut i: usize = 0;
    while i <= last
        invariant
            n@ == needle@,
            1 <= n@.len() <= hay@.len() <= usize::MAX,
            last == hay@.len() - n@.len(),
            0 <= i <= last + 1,
            forall|p: int| 0 <= p < i ==> !occurs_at(hay@, n@, p),
        decreases last + 1 - i,
    {
        let mut j: usize = 0;
        let mut same: bool = true;
        while j < n.len() && same
            invariant
                i <= last,
                1 <= n@.len() <= hay@.len() <= usize::MAX,
                last == hay@.len() - n@.len(),
                0 <= j <= n@.len(),
                same ==> forall|q: int| 0 <= q < j ==> hay@[i + q] == n@[q],
                !same ==> !occurs_at(hay@, n@, i as int),
            decreases n@.len() - j + (if same { 1int } else { 0int }),
        {
            if hay[i + j] != n[j] {
                same = false;
                assert(hay@.subrange(i as int, i + n@.len())[j as int] != n@[j as int]);
            } else {
                j = j + 1;
            }
        }
        if same {
            assert(hay@.subrange(i as int, i + n@.len()) =~= n@);
            assert(occurs_at(hay@, n@, i as int));
            return true;
        }
        i = i + 1;
    }
    assert forall|p: int| !occurs_at(hay@, n@, p) by {
        if 0 <= p && p + n@.len() <= hay@.len() {
            assert(p < i);
        }
    }
    false
}

/// The end of the first line of `s`.
pub fn find_line_end(s: &Vec<char>) -> (k: usize)
    ensures
        k == line_end(s@),
        is_line_end(s@, k as int),
{
    let mut k: usize = 0;
    while k < s.len() && s[k] != '\n'
        invariant
            0 <= k <= s@.len(),
            forall|j: int| 0 <= j < k ==> s@[j] != '\n',
        decreases s@.len() - k,
    {
        k = k + 1;
    }
    proof {
        lemma_line_end(s@, k as int);
    }
    k
}

} // verus!
