use vstd::prelude::*;

verus! {

/// One allele of a genotype call: a resolved index into the site's allele
/// list or the missing marker, each with or without the phasing flag.
#[derive(Clone, Copy, Debug, PartialEq, Eq, Structural)]
pub enum Allele {
    Unphased(i32),
    Phased(i32),
    UnphasedMissing,
    PhasedMissing,
}

/// The missing call of ploidy `p`: `p` unphased missing markers.
pub open spec fn missing_call(p: nat) -> Seq<Allele> {
    Seq::new(p, |i: int| Allele::UnphasedMissing)
}

/// Builds the missing call of ploidy `ploidy`.
pub fn missing_genotype(ploidy: usize) -> (r: Vec<Allele>)
    ensures
        r@ == missing_call(ploidy as nat),
{
    let mut r: Vec<Allele> = Vec::with_capacity(ploidy);
    let mut i: usize = 0;
    while i < ploidy
        invariant
            i <= ploidy,
            r@ == missing_call(i as nat),
        decreases ploidy - i,
    {
        r.push(Allele::UnphasedMissing);
        i = i + 1;
        assert(r@ =~= missing_call(i as nat));
    }
    r
}

} // verus!
