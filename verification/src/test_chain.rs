//! A chain that exists only to try the relay out.

use vstd::prelude::*;
use crate::fees::{
    fee, lemma_linear_fee_is_exact, linear_coefficient, spec_linear_coefficient, spec_terms,
    terms_new, terms_push, WeightToFeeCoefficients,
};
use crate::chain::ChainTypes;
use crate::primitives::{Balance, BalanceType, BlockNumberType, Weight};

verus! {

/// Chain that may be used in tests.
#[derive(Clone, Copy, Debug, PartialEq, Eq)]
pub struct TestChain;

impl TestChain {
    /// Name of the chain.
    pub const NAME: &'static str = "Test";

    /// Name of the runtime method that tells the best finalized header.
    pub const BEST_FINALIZED_HEADER_ID_METHOD: &'static str = "TestMethod";

    /// Average time between two blocks, in milliseconds.
    pub const AVERAGE_BLOCK_INTERVAL_MS: u64 = 0;

    /// Bytes that a storage proof adds to the values it proves.
    pub const STORAGE_PROOF_OVERHEAD: u32 = 0;

    /// The types of the chain: everything is held in 32 bits.
    pub fn types() -> (types: ChainTypes)
        ensures
            types == (ChainTypes { block_number: BlockNumberType::U32, balance: BalanceType::U32 }),
    {
        ChainTypes { block_number: BlockNumberType::U32, balance: BalanceType::U32 }
    }

    /// The fee schedule of the chain: the fee is the weight.
    pub fn weight_to_fee() -> (terms: WeightToFeeCoefficients)
        ensures
            spec_terms(terms) == seq![spec_linear_coefficient(1, 1)],
    {
        let mut terms = terms_new();
        terms_push(&mut terms, linear_coefficient(1, 1));
        assert(spec_terms(terms) == seq![spec_linear_coefficient(1, 1)]);
        terms
    }

    /// The fee for `weight`: the weight itself, as far as a balance of the
    /// chain can hold it.
    pub fn fee(weight: Weight) -> (total: Balance)
        ensures
            total == if weight <= u32::MAX {
                weight as u128
            } else {
                u32::MAX as u128
            },
    {
        let terms = Self::weight_to_fee();
        proof {
            lemma_linear_fee_is_exact(1, 1, weight, u32::MAX as u128);
            assert(spec_terms(terms)[0].spec_well_formed());
        }
        fee(&terms, weight, BalanceType::U32.max())
    }
}

} // verus!
