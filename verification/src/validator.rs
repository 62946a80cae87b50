//! Validator sets and the weight that a checkpoint needs.

use crate::primitives::H160;
use vstd::prelude::*;

verus! {

/// The weight of a validator, and the unit of the threshold.
pub type Weight = u64;

/// A validator's address with the weight that its signature counts for.
#[derive(Clone, Copy, Debug, PartialEq, Eq)]
pub struct ValidatorWithWeight {
    pub validator: H160,
    pub weight: Weight,
}

impl ValidatorWithWeight {
    /// Pairs `validator` with `weight`.
    pub fn new(validator: H160, weight: Weight) -> (out: Self)
        ensures
            out == (ValidatorWithWeight { validator, weight }),
    {
        ValidatorWithWeight { validator, weight }
    }
}

/// The sum of the weights of `validators`.
pub open spec fn total_weight(validators: Seq<ValidatorWithWeight>) -> nat
    decreases validators.len(),
{
    if validators.len() == 0 {
        0
    } else {
        total_weight(validators.drop_last()) + validators.last().weight as nat
    }
}

/// What a verifier contract of the unit-weight kind reports: the addresses
/// of its validators, and how many of them must sign.
#[derive(Clone, Debug, PartialEq, Eq)]
pub struct UnitValidatorReport {
    pub validators: Vec<H160>,
    pub threshold: u8,
}

/// The validators at `addresses`, in the same order, each with weight 1.
pub open spec fn unit_weighted(addresses: Seq<H160>) -> Seq<ValidatorWithWeight> {
    Seq::new(addresses.len(), |i: int| ValidatorWithWeight { validator: addresses[i], weight: 1 })
}

/// The requirements that follow from the report of a verifier contract of
/// the unit-weight kind: every validator gets the weight 1, and the
/// reported count is the threshold weight as it stands.
pub fn unit_validator_requirements(report: &UnitValidatorReport) -> (out: (
    Vec<ValidatorWithWeight>,
    Weight,
))
    ensures
        out.0@ == unit_weighted(report.validators@),
        out.1 == report.threshold,
{
    let addresses: &Vec<H160> = &report.validators;
    let mut validators: Vec<ValidatorWithWeight> = Vec::with_capacity(addresses.len());
    let mut i: usize = 0;
    while i < addresses.len()
        invariant
            i <= addresses.len(),
            validators@ == unit_weighted(addresses@.take(i as int)),
        decreases addresses.len() - i,
    {
        validators.push(ValidatorWithWeight::new(addresses[i], 1));
        i += 1;
    }
    (validators, report.threshold as Weight)
}

} // verus!
