use vstd::prelude::*;

use crate::depth::{depth_of_raw, depths_from_raw};
use crate::genotype::Allele;
use crate::masker::{mask_outcome, mask_record, samples_view, MaskError, SampleCall, SampleState};

verus! {

/// The genotype field of a record: the samples' calls, one after another,
/// in sample order.
pub open spec fn genotype_field_of(s: Seq<SampleState>) -> Seq<Allele>
    decreases s.len(),
{
    if s.len() == 0 {
        Seq::empty()
    } else {
        genotype_field_of(s.drop_last()) + s.last().alleles
    }
}

/// The samples of a record whose calls are `genotypes` and whose raw depth
/// entries are `raw_depths`. A sample past the end of `raw_depths` has no
/// depth vector.
pub open spec fn record_samples(genotypes: Seq<Vec<Allele>>, raw_depths: Seq<Vec<i32>>) -> Seq<SampleState> {
    Seq::new(
        genotypes.len(),
        |i: int|
            SampleState {
                alleles: genotypes[i]@,
                depths: if i < raw_depths.len() {
                    Some(depth_of_raw(raw_depths[i]@))
                } else {
                    None
                },
            },
    )
}

/// Pairs each sample's call with its raw depth entry.
pub fn build_samples(genotypes: &Vec<Vec<Allele>>, raw_depths: &Vec<Vec<i32>>) -> (r: Vec<SampleCall>)
    ensures
        samples_view(r@) == record_samples(genotypes@, raw_depths@),
{
    let mut r: Vec<SampleCall> = Vec::with_capacity(genotypes.len());
    let mut i: usize = 0;
    while i < genotypes.len()
        invariant
            i <= genotypes@.len(),
            r@.len() == i,
            forall|j: int| 0 <= j < i ==> #[trigger] r@[j]@ == record_samples(genotypes@, raw_depths@)[j],
        decreases genotypes@.len() - i,
    {
        let depths = if i < raw_depths.len() {
            Some(depths_from_raw(raw_depths[i].as_slice()))
        } else {
            None
        };
        r.push(SampleCall { alleles: genotypes[i].clone(), depths });
        i = i + 1;
    }
    assert(samples_view(r@) =~= record_samples(genotypes@, raw_depths@));
    r
}

/// The outgoing genotype field of a record: the calls of its samples,
/// concatenated in sample order.
pub fn genotype_field(samples: &Vec<SampleCall>) -> (r: Vec<Allele>)
    ensures
        r@ == genotype_field_of(samples_view(samples@)),
{
    let ghost sv = samples_view(samples@);
    let mut r: Vec<Allele> = Vec::new();
    let mut i: usize = 0;
    while i < samples.len()
        invariant
            i <= samples@.len(),
            sv == samples_view(samples@),
            r@ == genotype_field_of(sv.take(i as int)),
        decreases samples@.len() - i,
    {
        let mut j: usize = 0;
        let ghost before = r@;
        while j < samples[i].alleles.len()
            invariant
                i < samples@.len(),
                j <= samples@[i as int].alleles@.len(),
                r@ == before + samples@[i as int].alleles@.take(j as int),
            decreases samples@[i as int].alleles@.len() - j,
        {
            r.push(samples[i].alleles[j]);
            j = j + 1;
            assert(r@ =~= before + samples@[i as int].alleles@.take(j as int));
        }
        proof {
            assert(sv.take(i as int + 1).drop_last() =~= sv.take(i as int));
            assert(samples@[i as int].alleles@.take(j as int) =~= sv[i as int].alleles);
        }
        i = i + 1;
    }
    proof {
        assert(sv.take(sv.len() as int) =~= sv);
    }
    r
}

/// What masking a record's genotype field yields: the masked calls,
/// concatenated in sample order, or the ploidy mismatch.
pub open spec fn masked_field(s: Seq<SampleState>, threshold: u32) -> Result<Seq<Allele>, MaskError> {
    match mask_outcome(s, threshold) {
        Ok(m) => Ok(genotype_field_of(m)),
        Err(e) => Err(e),
    }
}

/// Masks a record given its per-sample calls and raw depth entries, and
/// returns its outgoing genotype field.
pub fn mask_genotypes(genotypes: &Vec<Vec<Allele>>, raw_depths: &Vec<Vec<i32>>, threshold: u32) -> (r: Result<Vec<Allele>, MaskError>)
    ensures
        match r {
            Ok(f) => masked_field(record_samples(genotypes@, raw_depths@), threshold) == Ok::<Seq<Allele>, MaskError>(f@),
            Err(e) => masked_field(record_samples(genotypes@, raw_depths@), threshold) == Err::<Seq<Allele>, MaskError>(e),
        },
{
    let samples = build_samples(genotypes, raw_depths);
    match mask_record(&samples, threshold) {
        Ok(masked) => Ok(genotype_field(&masked)),
        Err(e) => Err(e),
    }
}

} // verus!
