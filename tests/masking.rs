use gtmask::depth::{depths_from_raw, meets_threshold};
use gtmask::genotype::{missing_genotype, Allele};
use gtmask::masker::{mask_record, mask_sample_call, MaskError, SampleCall};
use gtmask::record::{build_samples, genotype_field, mask_genotypes};

use Allele::{Phased, PhasedMissing, Unphased, UnphasedMissing};

fn call(alleles: Vec<Allele>, depths: Option<Vec<u32>>) -> SampleCall {
    SampleCall { alleles, depths }
}

fn alleles_of(samples: &[SampleCall]) -> Vec<Vec<Allele>> {
    samples.iter().map(|s| s.alleles.clone()).collect()
}

#[test]
fn end_to_end_ten_diploid_samples() {
    let calls = [
        (vec![Unphased(0), Unphased(0)], vec![10, 5]),
        (vec![Unphased(0), Unphased(1)], vec![40, 30]),
        (vec![Unphased(1), Unphased(1)], vec![25, 25]),
        (vec![Unphased(0), Unphased(1)], vec![24, 25]),
        (vec![Unphased(0), Unphased(0)], vec![0, 0]),
        (vec![Unphased(1), Unphased(1)], vec![99, 99]),
        (vec![Unphased(0), Unphased(1)], vec![10, 5]),
        (vec![Unphased(0), Unphased(0)], vec![40, 30]),
        (vec![Unphased(1), Unphased(1)], vec![49, 0]),
        (vec![Unphased(0), Unphased(1)], vec![50, 0]),
    ];
    let genotypes: Vec<Vec<Allele>> = calls.iter().map(|c| c.0.clone()).collect();
    let depths: Vec<Vec<i32>> = calls.iter().map(|c| c.1.clone()).collect();
    let field = mask_genotypes(&genotypes, &depths, 50).unwrap();
    let missing = vec![UnphasedMissing, UnphasedMissing];
    let mut expected: Vec<Allele> = Vec::new();
    for (g, d) in calls.iter() {
        if d.iter().sum::<i32>() >= 50 {
            expected.extend(g.iter().copied());
        } else {
            expected.extend(missing.iter().copied());
        }
    }
    assert_eq!(field, expected);
    assert_eq!(&field[0..2], &[UnphasedMissing, UnphasedMissing]);
    assert_eq!(&field[2..4], &[Unphased(0), Unphased(1)]);
    assert_eq!(field.len(), 20);
}

#[test]
fn threshold_is_inclusive() {
    let at = call(vec![Unphased(0), Unphased(1)], Some(vec![30, 20]));
    let below = call(vec![Unphased(0), Unphased(1)], Some(vec![30, 19]));
    assert_eq!(mask_sample_call(&at, 50).alleles, vec![Unphased(0), Unphased(1)]);
    assert_eq!(mask_sample_call(&below, 50).alleles, vec![UnphasedMissing, UnphasedMissing]);
}

#[test]
fn ploidy_mismatch_fails_record() {
    let samples = vec![
        call(vec![Unphased(0), Unphased(1)], Some(vec![40, 40])),
        call(vec![Unphased(1)], Some(vec![40])),
        call(vec![Unphased(1), Unphased(1)], Some(vec![40, 40])),
    ];
    assert_eq!(
        mask_record(&samples, 5).unwrap_err(),
        MaskError::PloidyMismatch { sample: 1, expected: 2, found: 1 }
    );
}

#[test]
fn ploidy_mismatch_reports_first_offender() {
    let samples = vec![
        call(vec![Unphased(0)], None),
        call(vec![Unphased(1)], None),
        call(vec![Unphased(1), Unphased(1), Unphased(0)], None),
        call(vec![Unphased(1), Unphased(1)], None),
    ];
    assert_eq!(
        mask_record(&samples, 0).unwrap_err(),
        MaskError::PloidyMismatch { sample: 2, expected: 1, found: 3 }
    );
}

#[test]
fn absent_depth_is_masked_for_positive_threshold() {
    let sample = call(vec![Unphased(1), Unphased(1)], None);
    assert_eq!(mask_sample_call(&sample, 1).alleles, vec![UnphasedMissing, UnphasedMissing]);
    assert_eq!(mask_sample_call(&sample, 0).alleles, vec![Unphased(1), Unphased(1)]);
    let empty = call(vec![Unphased(1), Unphased(1)], Some(vec![]));
    assert_eq!(mask_sample_call(&empty, 1).alleles, vec![UnphasedMissing, UnphasedMissing]);
}

#[test]
fn sample_past_depth_entries_is_masked() {
    let genotypes = vec![vec![Unphased(0), Unphased(1)], vec![Unphased(1), Unphased(1)]];
    let depths = vec![vec![3, 4]];
    let field = mask_genotypes(&genotypes, &depths, 5).unwrap();
    assert_eq!(field, vec![Unphased(0), Unphased(1), UnphasedMissing, UnphasedMissing]);
}

#[test]
fn remasking_changes_nothing() {
    let samples = vec![
        call(vec![Unphased(0), Phased(1)], Some(vec![3, 1])),
        call(vec![Unphased(1), Phased(1)], Some(vec![30, 1])),
        call(vec![PhasedMissing, Unphased(0)], None),
    ];
    let once = mask_record(&samples, 5).unwrap();
    let twice = mask_record(&once, 5).unwrap();
    assert_eq!(alleles_of(&once), alleles_of(&twice));
    assert_eq!(
        alleles_of(&once),
        vec![
            vec![UnphasedMissing, UnphasedMissing],
            vec![Unphased(1), Phased(1)],
            vec![UnphasedMissing, UnphasedMissing],
        ]
    );
}

#[test]
fn masking_keeps_ploidy_order_and_depths() {
    let samples = vec![
        call(vec![Unphased(0), Unphased(0), Unphased(1)], Some(vec![1, 1, 1])),
        call(vec![Unphased(2), Unphased(0), Unphased(1)], Some(vec![9, 1, 0])),
        call(vec![Unphased(1), Unphased(1), Unphased(1)], Some(vec![0, 0, 2])),
    ];
    let out = mask_record(&samples, 10).unwrap();
    assert_eq!(out.len(), 3);
    for (a, b) in samples.iter().zip(out.iter()) {
        assert_eq!(a.alleles.len(), b.alleles.len());
        assert_eq!(a.depths, b.depths);
    }
    assert_eq!(out[1].alleles, vec![Unphased(2), Unphased(0), Unphased(1)]);
    assert_eq!(out[0].alleles, vec![UnphasedMissing; 3]);
    assert_eq!(out[2].alleles, vec![UnphasedMissing; 3]);
}

#[test]
fn phasing_of_kept_call_is_unchanged() {
    let sample = call(vec![Phased(0), Phased(1)], Some(vec![5]));
    assert_eq!(mask_sample_call(&sample, 5).alleles, vec![Phased(0), Phased(1)]);
}

#[test]
fn empty_record_masks_to_empty() {
    let out = mask_record(&Vec::new(), 5).unwrap();
    assert!(out.is_empty());
    assert_eq!(mask_genotypes(&Vec::new(), &Vec::new(), 5).unwrap(), Vec::<Allele>::new());
}

#[test]
fn threshold_sum_does_not_overflow() {
    let big = vec![u32::MAX, u32::MAX, u32::MAX];
    assert!(meets_threshold(&big, u32::MAX));
    assert!(!meets_threshold(&[u32::MAX - 1], u32::MAX));
    assert!(meets_threshold(&[], 0));
    assert!(!meets_threshold(&[], 1));
    assert!(meets_threshold(&[2, 3, 4], 9));
    assert!(!meets_threshold(&[2, 3, 4], 10));
}

#[test]
fn raw_depths_treat_negative_entries_as_zero() {
    assert_eq!(depths_from_raw(&[7, i32::MIN, 3, i32::MIN + 1]), vec![7, 0, 3, 0]);
    assert_eq!(depths_from_raw(&[]), Vec::<u32>::new());
}

#[test]
fn build_samples_pairs_calls_with_depths() {
    let genotypes = vec![vec![Unphased(0)], vec![Unphased(1)]];
    let raw = vec![vec![4, -5]];
    let samples = build_samples(&genotypes, &raw);
    assert_eq!(samples.len(), 2);
    assert_eq!(samples[0].depths, Some(vec![4, 0]));
    assert_eq!(samples[1].depths, None);
    assert_eq!(samples[1].alleles, vec![Unphased(1)]);
}

#[test]
fn genotype_field_concatenates_in_sample_order() {
    let samples = vec![
        call(vec![Unphased(0), Phased(1)], None),
        call(vec![], None),
        call(vec![UnphasedMissing, Unphased(2)], None),
    ];
    assert_eq!(
        genotype_field(&samples),
        vec![Unphased(0), Phased(1), UnphasedMissing, Unphased(2)]
    );
}

#[test]
fn missing_genotype_has_requested_ploidy() {
    assert_eq!(missing_genotype(3), vec![UnphasedMissing; 3]);
    assert!(missing_genotype(0).is_empty());
}
