//! Depth-based masking of per-sample genotype calls at variant sites.
//!
//! A site carries, for each sample, a genotype call (a sequence of alleles)
//! and an allelic-depth vector. A call whose total depth falls below a
//! threshold is replaced by a missing call of the same ploidy; everything
//! else passes through unchanged and in the same order.

pub mod depth;
pub mod genotype;
pub mod laws;
pub mod masker;
pub mod record;
