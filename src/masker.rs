use vstd::prelude::*;

use crate::depth::{meets_threshold, total_depth};
use crate::genotype::{missing_call, missing_genotype, Allele};

verus! {

/// The genotype state of one sample at one site: its call and, where the
/// record carries one for it, its allelic-depth vector.
#[derive(Clone, Debug)]
pub struct SampleCall {
    pub alleles: Vec<Allele>,
    pub depths: Option<Vec<u32>>,
}

/// The mathematical model of a [`SampleCall`].
pub ghost struct SampleState {
    pub alleles: Seq<Allele>,
    pub depths: Option<Seq<u32>>,
}

impl View for SampleCall {
    type V = SampleState;

    open spec fn view(&self) -> SampleState {
        SampleState {
            alleles: self.alleles@,
            depths: match self.depths {
                Some(d) => Some(d@),
                None => None,
            },
        }
    }
}

/// The model of a sequence of samples.
pub open spec fn samples_view(s: Seq<SampleCall>) -> Seq<SampleState> {
    Seq::new(s.len(), |i: int| s[i]@)
}

/// Why a record could not be masked.
#[derive(Clone, Copy, Debug, PartialEq, Eq, Structural)]
pub enum MaskError {
    /// Sample `sample` has ploidy `found` where sample 0 has `expected`.
    PloidyMismatch { sample: usize, expected: usize, found: usize },
}

/// Whether a sample's call is kept at `threshold`.
pub open spec fn is_kept(s: SampleState, threshold: u32) -> bool {
    total_depth(s.depths) >= threshold as int
}

/// The sample after masking: its call is kept or replaced by the missing
/// call of the same ploidy; its depths pass through.
pub open spec fn mask_sample(s: SampleState, threshold: u32) -> SampleState {
    SampleState {
        alleles: if is_kept(s, threshold) {
            s.alleles
        } else {
            missing_call(s.alleles.len())
        },
        depths: s.depths,
    }
}

/// Whether sample `i` disagrees in ploidy with sample 0.
pub open spec fn ploidy_differs(s: Seq<SampleState>, i: int) -> bool {
    s[i].alleles.len() != s[0].alleles.len()
}

/// All samples of the record share the ploidy of sample 0.
pub open spec fn uniform_ploidy(s: Seq<SampleState>) -> bool {
    forall|i: int| 0 <= i < s.len() ==> !#[trigger] ploidy_differs(s, i)
}

/// Every sample of the record masked at `threshold`, in order.
pub open spec fn mask_all(s: Seq<SampleState>, threshold: u32) -> Seq<SampleState> {
    Seq::new(s.len(), |i: int| mask_sample(s[i], threshold))
}

/// `i` is the first sample whose ploidy differs from that of sample 0.
pub open spec fn first_mismatch(s: Seq<SampleState>, i: int) -> bool {
    &&& 0 < i < s.len()
    &&& ploidy_differs(s, i)
    &&& forall|j: int| 0 <= j < i ==> !#[trigger] ploidy_differs(s, j)
}

/// What masking a record yields: the masked samples where the ploidy is
/// uniform, otherwise the mismatch at the first offending sample.
pub open spec fn mask_outcome(s: Seq<SampleState>, threshold: u32) -> Result<Seq<SampleState>, MaskError> {
    if uniform_ploidy(s) {
        Ok(mask_all(s, threshold))
    } else {
        let i = choose|i: int| first_mismatch(s, i);
        Err(MaskError::PloidyMismatch {
            sample: i as usize,
            expected: s[0].alleles.len() as usize,
            found: s[i].alleles.len() as usize,
        })
    }
}

/// The model of the result of [`mask_record`].
pub open spec fn result_view(r: Result<Vec<SampleCall>, MaskError>) -> Result<Seq<SampleState>, MaskError> {
    match r {
        Ok(v) => Ok(samples_view(v@)),
        Err(e) => Err(e),
    }
}

/// Masks one sample at `threshold`.
pub fn mask_sample_call(s: &SampleCall, threshold: u32) -> (r: SampleCall)
    ensures
        r@ == mask_sample(s@, threshold),
{
    let kept = match &s.depths {
        Some(d) => meets_threshold(d.as_slice(), threshold),
        None => threshold == 0,
    };
    let alleles = if kept {
        s.alleles.clone()
    } else {
        missing_genotype(s.alleles.len())
    };
    let depths = match &s.depths {
        Some(d) => Some(d.clone()),
        None => None,
    };
    SampleCall { alleles, depths }
}

/// There is at most one first mismatching sample.
pub proof fn lemma_first_mismatch_unique(s: Seq<SampleState>, i: int, k: int)
    requires
        first_mismatch(s, i),
        first_mismatch(s, k),
    ensures
        i == k,
{
    if k < i {
        assert(!ploidy_differs(s, k));
    } else if i < k {
        assert(!ploidy_differs(s, i));
    }
}

/// Masks every sample of a record at `threshold`, keeping their order.
///
/// Fails, with the first sample whose ploidy differs from that of sample 0,
/// where the samples do not share one ploidy.
pub fn mask_record(samples: &Vec<SampleCall>, threshold: u32) -> (r: Result<Vec<SampleCall>, MaskError>)
    ensures
        result_view(r) == mask_outcome(samples_view(samples@), threshold),
{
    let ghost sv = samples_view(samples@);
    let mut out: Vec<SampleCall> = Vec::with_capacity(samples.len());
    if samples.len() == 0 {
        proof {
            assert(samples_view(out@) =~= mask_all(sv, threshold));
        }
        return Ok(out);
    }
    let expected: usize = samples[0].alleles.len();
    let mut i: usize = 0;
    while i < samples.len()
        invariant
            i <= samples@.len(),
            sv == samples_view(samples@),
            sv.len() > 0,
            expected == sv[0].alleles.len(),
            out@.len() == i,
            forall|j: int| 0 <= j < i ==> !#[trigger] ploidy_differs(sv, j),
            forall|j: int| 0 <= j < i ==> #[trigger] out@[j]@ == mask_sample(sv[j], threshold),
        decreases samples@.len() - i,
    {
        let found: usize = samples[i].alleles.len();
        if found != expected {
            proof {
                assert(ploidy_differs(sv, i as int));
                assert(first_mismatch(sv, i as int));
                assert(!uniform_ploidy(sv));
                let k = choose|k: int| first_mismatch(sv, k);
                lemma_first_mismatch_unique(sv, i as int, k);
            }
            return Err(MaskError::PloidyMismatch { sample: i, expected, found });
        }
        let masked = mask_sample_call(&samples[i], threshold);
        out.push(masked);
        i = i + 1;
    }
    proof {
        assert(uniform_ploidy(sv));
        assert(samples_view(out@) =~= mask_all(sv, threshold));
    }
    Ok(out)
}

} // verus!
