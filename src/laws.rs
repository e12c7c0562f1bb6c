use vstd::prelude::*;

use crate::depth::total_depth;
use crate::genotype::missing_call;
use crate::masker::{
    first_mismatch, is_kept, lemma_first_mismatch_unique, mask_all, mask_outcome, mask_sample,
    ploidy_differs, uniform_ploidy, MaskError, SampleState,
};

verus! {

/// Masking a sample never changes its ploidy.
pub proof fn lemma_mask_sample_ploidy(c: SampleState, threshold: u32)
    ensures
        mask_sample(c, threshold).alleles.len() == c.alleles.len(),
        mask_sample(c, threshold).depths == c.depths,
{
}

/// Masking preserves ploidy: every output sample has as many alleles as the
/// corresponding input sample, whether it was masked or not.
pub proof fn lemma_ploidy_preserved(s: Seq<SampleState>, threshold: u32, m: Seq<SampleState>)
    requires
        mask_outcome(s, threshold) == Ok::<Seq<SampleState>, MaskError>(m),
    ensures
        m.len() == s.len(),
        forall|i: int| 0 <= i < s.len() ==> #[trigger] m[i].alleles.len() == s[i].alleles.len(),
{
    assert forall|i: int| 0 <= i < s.len() implies #[trigger] m[i].alleles.len() == s[i].alleles.len() by {
        lemma_mask_sample_ploidy(s[i], threshold);
    }
}

/// Masking keeps the order of the samples: output sample `i` is input
/// sample `i`, masked, with its depths unchanged and its call either kept
/// or replaced by the missing call of the same ploidy.
pub proof fn lemma_order_preserved(s: Seq<SampleState>, threshold: u32, m: Seq<SampleState>)
    requires
        mask_outcome(s, threshold) == Ok::<Seq<SampleState>, MaskError>(m),
    ensures
        m.len() == s.len(),
        forall|i: int| 0 <= i < s.len() ==> #[trigger] m[i] == mask_sample(s[i], threshold),
        forall|i: int|
            0 <= i < s.len() ==> (#[trigger] m[i]).depths == s[i].depths && (m[i].alleles
                == s[i].alleles || m[i].alleles == missing_call(s[i].alleles.len())),
{
}

/// The threshold is an inclusive lower bound: a sample whose total depth
/// equals the threshold is kept, one whose total depth is one less is masked.
pub proof fn lemma_threshold_boundary(c: SampleState, threshold: u32)
    ensures
        total_depth(c.depths) == threshold as int ==> mask_sample(c, threshold).alleles == c.alleles,
        total_depth(c.depths) == threshold as int - 1 ==> mask_sample(c, threshold).alleles
            == missing_call(c.alleles.len()),
{
}

/// A sample without a depth vector has total depth zero, so it is masked
/// whenever the threshold is positive.
pub proof fn lemma_absent_depth_masked(c: SampleState, threshold: u32)
    requires
        c.depths is None,
        threshold > 0,
    ensures
        total_depth(c.depths) == 0,
        mask_sample(c, threshold).alleles == missing_call(c.alleles.len()),
{
}

/// Masking an already masked record with the same threshold changes nothing:
/// masked calls stay masked and kept calls stay kept.
pub proof fn lemma_remask_idempotent(s: Seq<SampleState>, threshold: u32, m: Seq<SampleState>)
    requires
        mask_outcome(s, threshold) == Ok::<Seq<SampleState>, MaskError>(m),
    ensures
        mask_outcome(m, threshold) == Ok::<Seq<SampleState>, MaskError>(m),
{
    assert(uniform_ploidy(s));
    assert forall|i: int| 0 <= i < m.len() implies !#[trigger] ploidy_differs(m, i) by {
        assert(!ploidy_differs(s, i));
        lemma_mask_sample_ploidy(s[i], threshold);
        lemma_mask_sample_ploidy(s[0], threshold);
    }
    assert forall|i: int| 0 <= i < m.len() implies #[trigger] mask_sample(m[i], threshold) == m[i] by {
        assert(is_kept(m[i], threshold) == is_kept(s[i], threshold));
    }
    assert(mask_all(m, threshold) =~= m);
}

/// A record whose sample 0 is diploid and whose sample 1 is haploid fails
/// at sample 1.
pub proof fn lemma_ploidy_mismatch_fails(s: Seq<SampleState>, threshold: u32)
    requires
        s.len() >= 2,
        s[0].alleles.len() == 2,
        s[1].alleles.len() == 1,
    ensures
        mask_outcome(s, threshold) == Err::<Seq<SampleState>, MaskError>(
            MaskError::PloidyMismatch { sample: 1, expected: 2, found: 1 },
        ),
{
    assert(ploidy_differs(s, 1));
    assert(!ploidy_differs(s, 0));
    assert(first_mismatch(s, 1));
    let k = choose|k: int| first_mismatch(s, k);
    lemma_first_mismatch_unique(s, 1, k);
}

} // verus!
