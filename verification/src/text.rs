use vstd::prelude::*;

verus! {

/// `sub` occurs in `t` as a contiguous run of characters (case-sensitive;
/// the empty text occurs everywhere).
pub open spec fn text_contains(t: Seq<char>, sub: Seq<char>) -> bool {
    exists|i: int|
        0 <= i && i + sub.len() <= t.len() && (#[trigger] t.subrange(i, i + sub.len())) == sub
}

/// Relies on `String: FromIterator<char>` (through `Iterator::collect`):
/// the collected string holds exactly the characters of `v`, in order.
#[verifier::external_body]
pub fn chars_to_string(v: &Vec<char>) -> (r: String)
    ensures
        r@ == v@,
{
    v.iter().collect()
}

/// Whether `needle` matches `hay` at character position `i`.
fn matches_at(hay: &str, needle: &str, i: usize, nn: usize) -> (b: bool)
    requires
        nn == needle@.len(),
        i + nn <= hay@.len(),
        hay@.len() <= usize::MAX,
    ensures
        b == (hay@.subrange(i as int, i + nn) == needle@),
{
    let mut j: usize = 0;
    while j < nn
        invariant
            0 <= j <= nn,
            nn == needle@.len(),
            i + nn <= hay@.len(),
            hay@.len() <= usize::MAX,
            forall|m: int| 0 <= m < j ==> hay@[i + m] == needle@[m],
        decreases nn - j,
    {
        if hay.get_char(i + j) != needle.get_char(j) {
            proof {
                assert(hay@.subrange(i as int, i + nn)[j as int] != needle@[j as int]);
            }
            return false;
        }
        j += 1;
    }
    proof {
        assert(hay@.subrange(i as int, i + nn) =~= needle@);
    }
    true
}

/// Case-sensitive substring test over characters.
pub fn contains_substring(hay: &str, needle: &str) -> (b: bool)
    ensures
        b == text_contains(hay@, needle@),
{
    let hn = hay.unicode_len();
    let nn = needle.unicode_len();
    if nn == 0 {
        proof {
            assert(hay@.subrange(0, 0 + needle@.len() as int) =~= needle@);
        }
        return true;
    }
    if nn > hn {
        proof {
            if text_contains(hay@, needle@) {
                let w = choose|i: int|
                    0 <= i && i + needle@.len() <= hay@.len() && (#[trigger] hay@.subrange(
                        i,
                        i + needle@.len(),
                    )) == needle@;
                assert(false);
            }
        }
        return false;
    }
    let mut i: usize = 0;
    while i <= hn - nn
        invariant
            hn == hay@.len(),
            nn == needle@.len(),
            1 <= nn <= hn,
            0 <= i <= hn - nn + 1,
            forall|m: int| 0 <= m < i ==> (#[trigger] hay@.subrange(m, m + nn)) != needle@,
        decreases hn + 1 - nn - i,
    {
        if matches_at(hay, needle, i, nn) {
            return true;
        }
        i += 1;
    }
    proof {
        if text_contains(hay@, needle@) {
            let w = choose|m: int|
                0 <= m && m + needle@.len() <= hay@.len() && (#[trigger] hay@.subrange(
                    m,
                    m + needle@.len(),
                )) == needle@;
            assert(hay@.subrange(w, w + nn) != needle@);
            assert(false);
        }
    }
    false
}

} // verus!
