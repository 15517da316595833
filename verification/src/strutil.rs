//! Small string helpers shared across the library.

use vstd::prelude::*;

verus! {

/// Whether two string slices hold the same characters.
pub fn str_eq(a: &str, b: &str) -> (r: bool)
    ensures
        r == (a@ == b@),
{
    a.to_owned() == b.to_owned()
}

/// The characters of a string, as a vector.
///
/// Relies on `str::chars`: iterating a string yields exactly its characters
/// in order.
#[verifier::external_body]
pub(crate) fn str_chars(s: &str) -> (r: Vec<char>)
    ensures
        r@ == s@,
{
    s.chars().collect()
}

/// `needle` occurs in `haystack` starting at position `i`.
pub open spec fn occurs_at(haystack: Seq<char>, needle: Seq<char>, i: int) -> bool {
    0 <= i && i + needle.len() <= haystack.len() && haystack.subrange(i, i + needle.len())
        == needle
}

/// `needle` occurs somewhere in `haystack`.
pub open spec fn contains_seq(haystack: Seq<char>, needle: Seq<char>) -> bool {
    exists|i: int| occurs_at(haystack, needle, i)
}

/// Whether `needle` occurs as a contiguous run of characters in `haystack`.
pub fn str_contains(haystack: &str, needle: &str) -> (r: bool)
    ensures
        r == contains_seq(haystack@, needle@),
{
    let h = str_chars(haystack);
    let n = str_chars(needle);
    let hlen = h.len();
    let nlen = n.len();
    if nlen > hlen {
        return false;
    }
    if nlen == 0 {
        proof {
            assert(haystack@.subrange(0, 0) =~= needle@);
            assert(occurs_at(haystack@, needle@, 0));
        }
        return true;
    }
    let last = hlen - nlen;
    let mut i: usize = 0;
    while i <= last
        invariant
            h@ == haystack@,
            n@ == needle@,
            hlen == h@.len(),
            nlen == n@.len(),
            0 < nlen <= hlen,
            last == hlen - nlen,
            0 <= i <= last + 1,
            forall|k: int| 0 <= k < i ==> !occurs_at(haystack@, needle@, k),
        decreases last + 1 - i,
    {
        let mut j: usize = 0;
        let mut matches_here = true;
        while j < nlen
            invariant
                h@ == haystack@,
                n@ == needle@,
                hlen == h@.len(),
                nlen == n@.len(),
                0 < nlen <= hlen,
                last == hlen - nlen,
                0 <= i <= last,
                0 <= j <= nlen,
                matches_here ==> forall|k: int| 0 <= k < j ==> h@[i + k] == n@[k],
                !matches_here ==> !occurs_at(haystack@, needle@, i as int),
            decreases nlen - j,
        {
            if h[i + j] != n[j] {
                proof {
                    assert(haystack@.subrange(i as int, i + needle@.len())[j as int]
                        != needle@[j as int]);
                }
                matches_here = false;
                j = nlen;
            } else {
                j = j + 1;
            }
        }
        if matches_here {
            proof {
                assert(haystack@.subrange(i as int, i + needle@.len()) =~= needle@);
                assert(occurs_at(haystack@, needle@, i as int));
            }
            return true;
        }
        i = i + 1;
    }
    proof {
        assert forall|k: int| !occurs_at(haystack@, needle@, k) by {
            if 0 <= k <= last {
                assert(!occurs_at(haystack@, needle@, k));
            }
        }
    }
    false
}

} // verus!
