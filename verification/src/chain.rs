//! Static facts about one chain.
//!
//! A descriptor is put together once, when the relay starts, and is handed to
//! every component that needs to know a limit of the chain or the fee for a
//! weight. A descriptor that could be built is never wrong about its own fee
//! schedule: a malformed schedule is refused at construction.

use vstd::prelude::*;
use crate::fees::{
    fee, lemma_fee_is_capped, spec_fee, spec_terms, spec_terms_well_formed, terms_new, terms_push,
    WeightToFeeCoefficient, WeightToFeeCoefficients,
};
use crate::primitives::{Balance, BalanceType, BlockNumberType, Weight};

verus! {

/// Why a descriptor could not be built.
#[derive(Clone, Copy, Debug, PartialEq, Eq)]
pub enum ConfigurationError {
    /// The chain has no name.
    EmptyName,
    /// The fee schedule has more than [`MAX_FEE_TERMS`] terms.
    TooManyFeeTerms,
    /// The fee term at this position has a fraction that is not below one.
    MalformedFeeTerm(usize),
}

/// The most terms a fee schedule may have: one for each degree.
pub const MAX_FEE_TERMS: usize = 256;

/// The types that a chain holds its numbers in.
#[derive(Clone, Copy, Debug, PartialEq, Eq)]
pub struct ChainTypes {
    /// The type of block numbers.
    pub block_number: BlockNumberType,
    /// The type of balances.
    pub balance: BalanceType,
}

/// The limits of a chain that do not depend on its state.
#[derive(Clone, Copy, Debug, PartialEq, Eq)]
pub struct ChainLimits {
    /// Average time between two blocks, in milliseconds.
    pub average_block_interval_ms: u64,
    /// Largest size of an extrinsic, in bytes.
    pub max_extrinsic_size: u32,
    /// Largest weight of an extrinsic.
    pub max_extrinsic_weight: Weight,
    /// Bytes that a storage proof adds to the values it proves.
    pub storage_proof_overhead: u32,
}

/// Static facts about one chain.
pub struct ChainDescriptor {
    name: String,
    best_finalized_header_id_method: String,
    types: ChainTypes,
    limits: ChainLimits,
    weight_to_fee: WeightToFeeCoefficients,
}

/// The position of the first malformed term of `terms`, if there is one.
pub open spec fn spec_first_malformed(terms: Seq<WeightToFeeCoefficient>, at: int) -> bool {
    &&& 0 <= at < terms.len()
    &&& !terms[at].spec_well_formed()
    &&& forall|i: int| 0 <= i < at ==> (#[trigger] terms[i]).spec_well_formed()
}

impl ChainDescriptor {
    /// The name of the chain.
    pub closed spec fn spec_name(&self) -> Seq<char> {
        self.name@
    }

    /// The name of the runtime method that tells the best finalized header.
    pub closed spec fn spec_best_finalized_header_id_method(&self) -> Seq<char> {
        self.best_finalized_header_id_method@
    }

    /// The types of the chain.
    pub closed spec fn spec_types(&self) -> ChainTypes {
        self.types
    }

    /// The limits of the chain.
    pub closed spec fn spec_limits(&self) -> ChainLimits {
        self.limits
    }

    /// The fee that the chain charges for `weight`: what its schedule
    /// gives, never above the largest balance it can hold.
    pub open spec fn spec_fee(&self, weight: Weight) -> nat {
        spec_fee(self.spec_fee_terms(), weight, self.spec_types().balance.spec_max())
    }

    /// The terms of the fee schedule.
    pub closed spec fn spec_fee_terms(&self) -> Seq<WeightToFeeCoefficient> {
        spec_terms(self.weight_to_fee)
    }

    /// What holds of every descriptor: the chain has a name and the fee
    /// schedule can be evaluated.
    pub open spec fn spec_well_formed(&self) -> bool {
        &&& self.spec_name().len() > 0
        &&& spec_terms_well_formed(self.spec_fee_terms())
    }

    #[verifier::type_invariant]
    spec fn holds_together(&self) -> bool {
        &&& self.name@.len() > 0
        &&& spec_terms_well_formed(spec_terms(self.weight_to_fee))
    }

    /// Builds the descriptor of a chain, or tells what is wrong with the
    /// facts given: a missing name first, then a fee schedule that is too
    /// long, then the first malformed fee term.
    pub fn new(
        name: String,
        best_finalized_header_id_method: String,
        types: ChainTypes,
        limits: ChainLimits,
        fee_terms: Vec<WeightToFeeCoefficient>,
    ) -> (built: Result<ChainDescriptor, ConfigurationError>)
        ensures
            match built {
                Ok(descriptor) => {
                    &&& fee_terms@.len() <= MAX_FEE_TERMS
                    &&& descriptor.spec_well_formed()
                    &&& descriptor.spec_name() == name@
                    &&& descriptor.spec_best_finalized_header_id_method()
                        == best_finalized_header_id_method@
                    &&& descriptor.spec_types() == types
                    &&& descriptor.spec_limits() == limits
                    &&& descriptor.spec_fee_terms() == fee_terms@
                },
                Err(ConfigurationError::EmptyName) => name@.len() == 0,
                Err(ConfigurationError::TooManyFeeTerms) => {
                    &&& name@.len() > 0
                    &&& fee_terms@.len() > MAX_FEE_TERMS
                },
                Err(ConfigurationError::MalformedFeeTerm(at)) => {
                    &&& name@.len() > 0
                    &&& fee_terms@.len() <= MAX_FEE_TERMS
                    &&& spec_first_malformed(fee_terms@, at as int)
                },
            },
    {
        if name.as_str().is_empty() {
            return Err(ConfigurationError::EmptyName);
        }
        if fee_terms.len() > MAX_FEE_TERMS {
            return Err(ConfigurationError::TooManyFeeTerms);
        }
        let mut weight_to_fee = terms_new();
        let mut i: usize = 0;
        while i < fee_terms.len()
            invariant
                name@.len() > 0,
                fee_terms@.len() <= MAX_FEE_TERMS,
                i <= fee_terms@.len(),
                spec_terms(weight_to_fee) == fee_terms@.subrange(0, i as int),
                spec_terms_well_formed(spec_terms(weight_to_fee)),
                forall|j: int| 0 <= j < i ==> (#[trigger] fee_terms@[j]).spec_well_formed(),
            decreases fee_terms@.len() - i,
        {
            let term = fee_terms[i];
            if term.coeff_frac.numerator >= term.coeff_frac.denominator {
                return Err(ConfigurationError::MalformedFeeTerm(i));
            }
            terms_push(&mut weight_to_fee, term);
            assert(fee_terms@.subrange(0, i + 1) == fee_terms@.subrange(0, i as int).push(term));
            i = i + 1;
        }
        assert(fee_terms@.subrange(0, i as int) == fee_terms@);
        Ok(ChainDescriptor { name, best_finalized_header_id_method, types, limits, weight_to_fee })
    }

    /// The name of the chain.
    pub fn name(&self) -> (name: &str)
        ensures
            name@ == self.spec_name(),
    {
        self.name.as_str()
    }

    /// The name of the runtime method that tells the best finalized header.
    pub fn best_finalized_header_id_method(&self) -> (method: &str)
        ensures
            method@ == self.spec_best_finalized_header_id_method(),
    {
        self.best_finalized_header_id_method.as_str()
    }

    /// The types of the chain.
    pub fn types(&self) -> (types: ChainTypes)
        ensures
            types == self.spec_types(),
    {
        self.types
    }

    /// The limits of the chain.
    pub fn limits(&self) -> (limits: ChainLimits)
        ensures
            limits == self.spec_limits(),
    {
        self.limits
    }

    /// The fee that the chain charges for `weight`.
    pub fn fee(&self, weight: Weight) -> (total: Balance)
        ensures
            self.spec_well_formed(),
            total == self.spec_fee(weight),
            self.spec_types().balance.spec_max() >= total,
    {
        proof {
            use_type_invariant(self);
            lemma_fee_is_capped(self.spec_fee_terms(), weight, self.types.balance.spec_max());
        }
        fee(&self.weight_to_fee, weight, self.types.balance.max())
    }
}

} // verus!
