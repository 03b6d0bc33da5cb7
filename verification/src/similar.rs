use vstd::prelude::*;

verus! {

/// Squared Euclidean distance over the first `n` coordinates.
pub open spec fn sq_dist_to(a: Seq<i32>, b: Seq<i32>, n: int) -> int
    decreases n,
{
    if n <= 0 {
        0
    } else {
        sq_dist_to(a, b, n - 1) + (a[n - 1] - b[n - 1]) * (a[n - 1] - b[n - 1])
    }
}

/// Squared Euclidean distance of two embeddings over their common
/// coordinates: the monotone similarity metric of the store (smaller is
/// nearer).
pub open spec fn sq_dist(a: Seq<i32>, b: Seq<i32>) -> int {
    if a.len() <= b.len() {
        sq_dist_to(a, b, a.len() as int)
    } else {
        sq_dist_to(a, b, b.len() as int)
    }
}

/// Largest possible squared coordinate difference of two `i32` values.
pub const MAX_SQ: u128 = 0xffff_fffe_0000_0001;

/// The exact squared distance; exact because every partial sum fits in
/// `u128`.
pub fn sq_dist_exec(a: &Vec<i32>, b: &Vec<i32>) -> (d: u128)
    ensures
        d == sq_dist(a@, b@),
{
    let n: usize = if a.len() <= b.len() {
        a.len()
    } else {
        b.len()
    };
    let mut d: u128 = 0;
    let mut i: usize = 0;
    while i < n
        invariant
            0 <= i <= n,
            n <= a@.len(),
            n <= b@.len(),
            d == sq_dist_to(a@, b@, i as int),
            d <= i * (MAX_SQ as int),
        decreases n - i,
    {
        let diff: i64 = a[i] as i64 - b[i] as i64;
        let w: i128 = diff as i128;
        proof {
            assert(0 <= w * w <= MAX_SQ as int) by (nonlinear_arith)
                requires
                    -0xffff_ffff <= w <= 0xffff_ffff,
            ;
        }
        let sq: i128 = w * w;
        d = d + (sq as u128);
        i += 1;
    }
    proof {
        if a@.len() <= b@.len() {
            assert(sq_dist(a@, b@) == sq_dist_to(a@, b@, a@.len() as int));
        }
    }
    d
}

/// How many entries of `s` are set.
pub open spec fn count_true(s: Seq<bool>) -> int
    decreases s.len(),
{
    if s.len() == 0 {
        0
    } else {
        count_true(s.drop_last()) + if s.last() {
            1int
        } else {
            0int
        }
    }
}

/// Setting a clear entry raises the count by one.
pub proof fn lemma_count_true_update(s: Seq<bool>, j: int)
    requires
        0 <= j < s.len(),
        !s[j],
    ensures
        count_true(s.update(j, true)) == count_true(s) + 1,
    decreases s.len(),
{
    let t = s.update(j, true);
    if j == s.len() - 1 {
        assert(t.drop_last() =~= s.drop_last());
    } else {
        assert(t.drop_last() =~= s.drop_last().update(j, true));
        lemma_count_true_update(s.drop_last(), j);
    }
}

/// A sequence with no entry set counts zero.
pub proof fn lemma_count_true_none(s: Seq<bool>)
    requires
        forall|m: int| 0 <= m < s.len() ==> !s[m],
    ensures
        count_true(s) == 0,
    decreases s.len(),
{
    if s.len() > 0 {
        lemma_count_true_none(s.drop_last());
    }
}

/// A sequence with every entry set is fully counted.
pub proof fn lemma_count_true_full(s: Seq<bool>)
    requires
        forall|m: int| 0 <= m < s.len() ==> s[m],
    ensures
        count_true(s) == s.len(),
    decreases s.len(),
{
    if s.len() > 0 {
        lemma_count_true_full(s.drop_last());
    }
}

} // verus!
