use vstd::prelude::*;

verus! {

/// The sum of a depth vector.
pub open spec fn depth_sum(d: Seq<u32>) -> int
    decreases d.len(),
{
    if d.len() == 0 {
        0
    } else {
        depth_sum(d.drop_last()) + d.last()
    }
}

/// Total depth of a sample: the sum of its depth vector, zero where it has none.
pub open spec fn total_depth(d: Option<Seq<u32>>) -> int {
    match d {
        Some(s) => depth_sum(s),
        None => 0,
    }
}

/// A sum of non-negative entries is non-negative.
pub proof fn lemma_depth_sum_nonneg(d: Seq<u32>)
    ensures
        depth_sum(d) >= 0,
    decreases d.len(),
{
    if d.len() > 0 {
        lemma_depth_sum_nonneg(d.drop_last());
    }
}

/// The depth vector held by a raw per-sample entry: negative entries, which
/// mark a missing value or the end of a shorter vector, count as zero.
pub open spec fn depth_of_raw(raw: Seq<i32>) -> Seq<u32> {
    Seq::new(raw.len(), |i: int| if raw[i] < 0 { 0u32 } else { raw[i] as u32 })
}

/// Whether the depth vector `d` sums to at least `threshold`.
///
/// The running sum is capped at the threshold, so it never overflows.
pub fn meets_threshold(d: &[u32], threshold: u32) -> (r: bool)
    ensures
        r == (depth_sum(d@) >= threshold as int),
{
    let mut acc: u64 = 0;
    let mut i: usize = 0;
    while i < d.len()
        invariant
            i <= d@.len(),
            acc as int == if depth_sum(d@.take(i as int)) < threshold as int {
                depth_sum(d@.take(i as int))
            } else {
                threshold as int
            },
        decreases d@.len() - i,
    {
        proof {
            assert(d@.take(i as int + 1).drop_last() =~= d@.take(i as int));
            lemma_depth_sum_nonneg(d@.take(i as int));
        }
        let next: u64 = acc + d[i] as u64;
        acc = if next < threshold as u64 { next } else { threshold as u64 };
        i = i + 1;
    }
    proof {
        assert(d@.take(d@.len() as int) =~= d@);
    }
    acc >= threshold as u64
}

/// Converts a raw depth vector to depths: negative entries, which mark
/// a missing value or the end of a shorter vector, count as zero.
pub fn depths_from_raw(raw: &[i32]) -> (r: Vec<u32>)
    ensures
        r@ == depth_of_raw(raw@),
{
    let mut r: Vec<u32> = Vec::with_capacity(raw.len());
    let mut i: usize = 0;
    while i < raw.len()
        invariant
            i <= raw@.len(),
            r@.len() == i,
            forall|j: int| 0 <= j < i ==> r@[j] as int == if raw@[j] < 0 { 0 } else { raw@[j] as int },
        decreases raw@.len() - i,
    {
        let v: u32 = if raw[i] < 0 { 0 } else { raw[i] as u32 };
        r.push(v);
        i = i + 1;
    }
    assert(r@ =~= depth_of_raw(raw@));
    r
}

} // verus!
