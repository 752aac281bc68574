//! The Westend relay chain, as far as a bridge needs to know it.

use vstd::prelude::*;
use crate::fees::{
    fee, lemma_linear_fee_is_exact, linear_coefficient, spec_linear_coefficient, spec_terms,
    terms_new, terms_push, WeightToFeeCoefficients,
};
use crate::chain::ChainTypes;
use crate::primitives::{Balance, BalanceType, BlockNumberType, Weight};

verus! {

/// Name of the parachains pallet at the Westend runtime.
pub const PARAS_PALLET_NAME: &'static str = "Paras";

/// Name of the With-Westend GRANDPA pallet instance that is deployed at bridged chains.
pub const WITH_WESTEND_GRANDPA_PALLET_NAME: &'static str = "BridgeWestendGrandpa";

/// Name of the With-Westend parachains bridge pallet instance that is deployed at bridged chains.
pub const WITH_WESTEND_BRIDGE_PARAS_PALLET_NAME: &'static str = "BridgeWestendParachains";

/// Name of the `WestendFinalityApi::best_finalized` runtime method.
pub const BEST_FINALIZED_WESTEND_HEADER_METHOD: &'static str = "WestendFinalityApi_best_finalized";

/// Name of the `WestmintFinalityApi::best_finalized` runtime method.
pub const BEST_FINALIZED_WESTMINT_HEADER_METHOD: &'static str = "WestmintFinalityApi_best_finalized";

/// Identifier of Westmint parachain at the Westend relay chain.
pub const WESTMINT_PARACHAIN_ID: u32 = 2000;

/// Time between two blocks, in milliseconds.
pub const MILLISECS_PER_BLOCK: u64 = 6000;

/// Number of blocks in a minute.
pub const MINUTES: u32 = 10;

/// The target length of a session (how often authorities change) on Westend
/// measured in number of blocks.
///
/// Since this is a target, sessions may change before or after this time
/// depending on network conditions.
pub const SESSION_LENGTH: u32 = 10 * MINUTES;

/// One hundredth of a unit of the Westend token.
pub const CENTS: Balance = 1_000_000_000;

/// The version of a runtime.
#[derive(Clone, Copy, Debug, PartialEq, Eq)]
pub struct RuntimeVersion {
    /// Name of the specification.
    pub spec_name: &'static str,
    /// Name of the implementation.
    pub impl_name: &'static str,
    /// Version of the authorship interface.
    pub authoring_version: u32,
    /// Version of the specification.
    pub spec_version: u32,
    /// Version of the implementation.
    pub impl_version: u32,
    /// Version of the transaction format.
    pub transaction_version: u32,
    /// Version of the state layout.
    pub state_version: u8,
}

/// The version of the Westend runtime that this crate was written against.
pub fn version() -> (version: RuntimeVersion)
    ensures
        version.spec_name@ == "westend"@,
        version.impl_name@ == "parity-westend"@,
        version.authoring_version == 2,
        version.spec_version == 9140,
        version.impl_version == 0,
        version.transaction_version == 8,
        version.state_version == 0,
{
    RuntimeVersion {
        spec_name: "westend",
        impl_name: "parity-westend",
        authoring_version: 2,
        spec_version: 9140,
        impl_version: 0,
        transaction_version: 8,
        state_version: 0,
    }
}

/// Why a call was not dispatched.
#[derive(Clone, Copy, Debug, PartialEq, Eq)]
pub enum DispatchError {
    /// Calls of this chain are never dispatched by the relay.
    NotLocallyDispatchable,
}

/// Westend runtime call.
///
/// The relay submits no Westend transactions, so this is no call at all: it
/// only marks that calls of Westend are not dispatched locally.
#[derive(Clone, Copy, Debug, PartialEq, Eq)]
pub struct Call;

impl Call {
    /// Refuses to dispatch: there is nothing to dispatch.
    pub fn dispatch(self) -> (dispatched: Result<(), DispatchError>)
        ensures
            dispatched == Err::<(), DispatchError>(DispatchError::NotLocallyDispatchable),
    {
        Err(DispatchError::NotLocallyDispatchable)
    }
}

/// The types of Westend: blocks are counted in 32 bits, balances held in 128.
pub fn types() -> (types: ChainTypes)
    ensures
        types == (ChainTypes { block_number: BlockNumberType::U32, balance: BalanceType::U128 }),
{
    ChainTypes { block_number: BlockNumberType::U32, balance: BalanceType::U128 }
}

/// The fee schedule of Westend.
pub struct WeightToFee;

impl WeightToFee {
    /// The fee for `weight` as an exact quotient, rounded down.
    pub open spec fn spec_calc(extrinsic_base_weight: Weight, weight: Weight) -> nat {
        ((CENTS as nat) * (weight as nat)) / ((10 * extrinsic_base_weight) as nat)
    }

    /// The schedule for a runtime whose smallest non-zero weight is
    /// `extrinsic_base_weight`: that weight is mapped to a tenth of a cent.
    pub fn polynomial(extrinsic_base_weight: Weight) -> (terms: WeightToFeeCoefficients)
        requires
            0 < extrinsic_base_weight,
            10 * extrinsic_base_weight <= u64::MAX,
        ensures
            spec_terms(terms) == seq![
                spec_linear_coefficient(CENTS, (10 * extrinsic_base_weight) as u64),
            ],
    {
        let p: Balance = CENTS;
        let q: u64 = 10 * extrinsic_base_weight;
        let mut terms = terms_new();
        terms_push(&mut terms, linear_coefficient(p, q));
        assert(spec_terms(terms) == seq![spec_linear_coefficient(p, q)]);
        terms
    }

    /// The fee for `weight`: `weight` times a tenth of a cent, divided by the
    /// base weight and rounded down.
    pub fn calc(extrinsic_base_weight: Weight, weight: Weight) -> (total: Balance)
        requires
            0 < extrinsic_base_weight,
            10 * extrinsic_base_weight <= u64::MAX,
        ensures
            total == Self::spec_calc(extrinsic_base_weight, weight),
    {
        let terms = Self::polynomial(extrinsic_base_weight);
        proof {
            let q = (10 * extrinsic_base_weight) as u64;
            lemma_linear_fee_is_exact(CENTS, q, weight, u128::MAX);
            assert(CENTS * weight <= u128::MAX) by (nonlinear_arith)
                requires
                    CENTS == 1_000_000_000,
                    weight <= u64::MAX,
            ;
            vstd::arithmetic::div_mod::lemma_div_is_ordered_by_denominator(
                (CENTS * weight) as int,
                1,
                q as int,
            );
            assert(spec_terms(terms)[0].spec_well_formed());
        }
        fee(&terms, weight, BalanceType::U128.max())
    }
}

} // verus!
