use bridge_relay::chain::{
    ChainDescriptor, ChainLimits, ChainTypes, ConfigurationError, MAX_FEE_TERMS,
};
use bridge_relay::primitives::{BalanceType, BlockNumberType};
use bridge_relay::fees::{linear_coefficient, Ratio, WeightToFeeCoefficient};
use bridge_relay::test_chain::TestChain;
use bridge_relay::westend::{self, WeightToFee};

fn limits() -> ChainLimits {
    ChainLimits {
        average_block_interval_ms: 6000,
        max_extrinsic_size: 1024,
        max_extrinsic_weight: 1_000_000,
        storage_proof_overhead: 1024,
    }
}

fn types() -> ChainTypes {
    ChainTypes { block_number: BlockNumberType::U32, balance: BalanceType::U128 }
}

fn chain(terms: Vec<WeightToFeeCoefficient>) -> ChainDescriptor {
    ChainDescriptor::new("Chain".to_string(), "Method".to_string(), types(), limits(), terms)
        .unwrap()
}

fn narrow_chain(balance: BalanceType, terms: Vec<WeightToFeeCoefficient>) -> ChainDescriptor {
    let types = ChainTypes { block_number: BlockNumberType::U32, balance };
    ChainDescriptor::new("Chain".to_string(), "Method".to_string(), types, limits(), terms).unwrap()
}

fn term(integer: u128, num: u64, den: u64, negative: bool, degree: u8) -> WeightToFeeCoefficient {
    WeightToFeeCoefficient {
        coeff_integer: integer,
        coeff_frac: Ratio { numerator: num, denominator: den },
        negative,
        degree,
    }
}

#[test]
fn linear_coefficient_splits_integer_and_fraction() {
    let c = linear_coefficient(7, 3);
    assert_eq!(c, term(2, 1, 3, false, 1));
    let w = linear_coefficient(1_000_000_000, 1_250_000_000);
    assert_eq!(w, term(0, 1_000_000_000, 1_250_000_000, false, 1));
}

#[test]
fn linear_fee_is_exact_at_boundaries() {
    for (p, q) in [(7u128, 3u64), (1, 3), (3, 1), (10, 4), (1_000_000_000, 1_250_000_000)] {
        let descriptor = chain(vec![linear_coefficient(p, q)]);
        for w in [0u64, 1, q, q - 1, q + 1, 2 * q, 1_000_003] {
            assert_eq!(descriptor.fee(w), p * (w as u128) / (q as u128));
        }
    }
}

#[test]
fn linear_fee_has_expected_values() {
    let descriptor = chain(vec![linear_coefficient(7, 3)]);
    assert_eq!(descriptor.fee(0), 0);
    assert_eq!(descriptor.fee(1), 2);
    assert_eq!(descriptor.fee(2), 4);
    assert_eq!(descriptor.fee(3), 7);
}

#[test]
fn linear_fee_saturates() {
    let descriptor = chain(vec![linear_coefficient(u128::MAX, 1)]);
    assert_eq!(descriptor.fee(0), 0);
    assert_eq!(descriptor.fee(1), u128::MAX);
    assert_eq!(descriptor.fee(2), u128::MAX);
}

#[test]
fn ratio_takes_the_floor_of_the_exact_product() {
    let r = Ratio::new(4, 5).unwrap();
    assert_eq!(r.of(10), 8);
    assert_eq!(r.of(11), 8);
    assert_eq!(r.of(0), 0);
    assert_eq!(r.of(u128::MAX), u128::MAX / 5 * 4);
    let big = Ratio::new(u64::MAX - 1, u64::MAX).unwrap();
    assert_eq!(big.of(u64::MAX as u128), (u64::MAX - 1) as u128);
    assert_eq!(big.of(u128::MAX), u128::MAX / (u64::MAX as u128) * ((u64::MAX - 1) as u128));
}

#[test]
fn ratio_must_be_proper() {
    assert!(Ratio::new(0, 1).is_some());
    assert!(Ratio::new(1, 1).is_none());
    assert!(Ratio::new(0, 0).is_none());
    assert!(Ratio::new(2, 1).is_none());
}

#[test]
fn polynomial_sums_terms_by_degree() {
    // 5 + 2.5 w + 3 w^2
    let descriptor = chain(vec![
        term(5, 0, 1, false, 0),
        term(2, 1, 2, false, 1),
        term(3, 0, 1, false, 2),
    ]);
    assert_eq!(descriptor.fee(0), 5);
    assert_eq!(descriptor.fee(1), 5 + 2 + 3);
    assert_eq!(descriptor.fee(4), 5 + 10 + 48);
    assert_eq!(descriptor.fee(5), 5 + 12 + 75);
}

#[test]
fn negative_term_stops_at_zero() {
    let descriptor = chain(vec![term(10, 0, 1, false, 0), term(3, 1, 2, true, 1)]);
    assert_eq!(descriptor.fee(0), 10);
    assert_eq!(descriptor.fee(2), 10 - 1 - 6);
    assert_eq!(descriptor.fee(3), 0);
    assert_eq!(descriptor.fee(100), 0);
}

#[test]
fn weight_power_saturates() {
    let c = term(0, 0, 1, false, 3);
    assert_eq!(c.weight_power(0, u128::MAX), 0);
    assert_eq!(c.weight_power(1, u128::MAX), 1);
    assert_eq!(c.weight_power(10, u128::MAX), 1000);
    assert_eq!(c.weight_power(u64::MAX, u128::MAX), u128::MAX);
    assert_eq!(term(0, 0, 1, false, 0).weight_power(0, u128::MAX), 1);
    assert_eq!(
        term(0, 0, 1, false, 2).weight_power(u64::MAX, u128::MAX),
        (u64::MAX as u128) * (u64::MAX as u128)
    );
    assert_eq!(c.weight_power(10, 999), 999);
    assert_eq!(c.weight_power(10, 1000), 1000);
    assert_eq!(c.weight_power(2000, 1500), 1500);
    assert_eq!(term(0, 0, 1, false, 0).weight_power(5, 0), 0);
}

#[test]
fn fee_stops_at_the_largest_balance_of_the_chain() {
    let max = u32::MAX as u128;
    let identity = narrow_chain(BalanceType::U32, vec![linear_coefficient(1, 1)]);
    assert_eq!(identity.fee(0), 0);
    assert_eq!(identity.fee(7), 7);
    assert_eq!(identity.fee(u32::MAX as u64), max);
    assert_eq!(identity.fee(u32::MAX as u64 + 1), max);
    assert_eq!(identity.fee(u64::MAX), max);
    let double = narrow_chain(BalanceType::U32, vec![linear_coefficient(2, 1)]);
    assert_eq!(double.fee(1 << 30), 1 << 31);
    assert_eq!(double.fee(1 << 31), max);
    // the weight is cut to the balance type before it is multiplied
    let half = narrow_chain(BalanceType::U32, vec![linear_coefficient(1, 2)]);
    assert_eq!(half.fee(1 << 33), max / 2);
    let wide = narrow_chain(BalanceType::U64, vec![linear_coefficient(1, 2)]);
    assert_eq!(wide.fee(1 << 33), 1 << 32);
    assert_eq!(wide.fee(u64::MAX), (u64::MAX / 2) as u128);
    let squares = narrow_chain(BalanceType::U64, vec![term(1, 0, 1, false, 2)]);
    assert_eq!(squares.fee(1 << 31), 1 << 62);
    assert_eq!(squares.fee(1 << 32), u64::MAX as u128);
}

#[test]
fn balance_types_hold_what_fits() {
    assert_eq!(BalanceType::U32.max(), u32::MAX as u128);
    assert_eq!(BalanceType::U64.max(), u64::MAX as u128);
    assert_eq!(BalanceType::U128.max(), u128::MAX);
    assert!(BalanceType::U32.holds(u32::MAX as u128));
    assert!(!BalanceType::U32.holds(u32::MAX as u128 + 1));
    assert!(BalanceType::U64.holds(u64::MAX as u128));
    assert!(!BalanceType::U64.holds(u64::MAX as u128 + 1));
    assert!(BalanceType::U128.holds(u128::MAX));
}

#[test]
fn block_number_types_encode_little_endian() {
    assert_eq!(BlockNumberType::U32.encode(0x0102_0304), Some(vec![4, 3, 2, 1]));
    assert_eq!(BlockNumberType::U32.encode(u32::MAX as u64), Some(vec![0xff; 4]));
    assert_eq!(BlockNumberType::U32.encode(u32::MAX as u64 + 1), None);
    assert_eq!(
        BlockNumberType::U64.encode(0x0102_0304_0506_0708),
        Some(vec![8, 7, 6, 5, 4, 3, 2, 1])
    );
    assert_eq!(BlockNumberType::U64.encode(u64::MAX), Some(vec![0xff; 8]));
    assert_eq!(BlockNumberType::U32.encoded_len(), 4);
    assert_eq!(BlockNumberType::U64.encoded_len(), 8);
    assert!(BlockNumberType::U32.holds(u32::MAX as u64));
    assert!(!BlockNumberType::U32.holds(u32::MAX as u64 + 1));
    assert!(BlockNumberType::U64.holds(u64::MAX));
}

#[test]
fn block_number_types_decode_what_they_encode() {
    for ty in [BlockNumberType::U32, BlockNumberType::U64] {
        for number in [0u64, 1, 255, 256, 9140, u32::MAX as u64] {
            let mut bytes = ty.encode(number).unwrap();
            assert_eq!(ty.decode(&bytes), Some(number));
            bytes.push(0xee);
            assert_eq!(ty.decode(&bytes), Some(number));
            assert_eq!(ty.decode(&bytes[..ty.encoded_len() - 1]), None);
        }
        assert_eq!(ty.decode(&[]), None);
    }
    assert_eq!(BlockNumberType::U64.decode(&[0xff; 8]), Some(u64::MAX));
    assert_eq!(BlockNumberType::U32.decode(&[1, 0, 0, 0, 9, 9, 9, 9]), Some(1));
    assert_eq!(BlockNumberType::U64.decode(&[1, 0, 0, 0, 9, 0, 0, 0]), Some(1 + (9 << 32)));
}

#[test]
fn empty_schedule_charges_nothing() {
    let descriptor = chain(vec![]);
    assert_eq!(descriptor.fee(0), 0);
    assert_eq!(descriptor.fee(u64::MAX), 0);
}

#[test]
fn descriptor_keeps_its_facts() {
    let descriptor = chain(vec![]);
    assert_eq!(descriptor.name(), "Chain");
    assert_eq!(descriptor.best_finalized_header_id_method(), "Method");
    assert_eq!(descriptor.limits(), limits());
    assert_eq!(descriptor.types(), types());
}

#[test]
fn descriptor_refuses_empty_name() {
    let built = ChainDescriptor::new(String::new(), "Method".to_string(), types(), limits(), vec![]);
    assert_eq!(built.err(), Some(ConfigurationError::EmptyName));
    let both = ChainDescriptor::new(
        String::new(),
        "Method".to_string(),
        types(),
        limits(),
        vec![term(0, 1, 1, false, 1)],
    );
    assert_eq!(both.err(), Some(ConfigurationError::EmptyName));
}

#[test]
fn descriptor_refuses_first_malformed_term() {
    let built = ChainDescriptor::new(
        "Chain".to_string(),
        "Method".to_string(),
        types(),
        limits(),
        vec![term(1, 0, 1, false, 1), term(1, 3, 3, false, 1), term(1, 0, 0, false, 1)],
    );
    assert_eq!(built.err(), Some(ConfigurationError::MalformedFeeTerm(1)));
    let zero_denominator = ChainDescriptor::new(
        "Chain".to_string(),
        "Method".to_string(),
        types(),
        limits(),
        vec![term(1, 0, 0, false, 1)],
    );
    assert_eq!(zero_denominator.err(), Some(ConfigurationError::MalformedFeeTerm(0)));
}

#[test]
fn descriptor_refuses_too_many_terms() {
    let terms = vec![term(1, 0, 1, false, 1); MAX_FEE_TERMS + 1];
    let built = ChainDescriptor::new("Chain".to_string(), "Method".to_string(), types(), limits(), terms);
    assert_eq!(built.err(), Some(ConfigurationError::TooManyFeeTerms));
    let terms = vec![term(1, 0, 1, false, 1); MAX_FEE_TERMS];
    let built = ChainDescriptor::new("Chain".to_string(), "Method".to_string(), types(), limits(), terms);
    assert_eq!(built.unwrap().fee(2), 2 * MAX_FEE_TERMS as u128);
}

#[test]
fn westend_maps_base_weight_to_a_tenth_of_a_cent() {
    let base = 125_000_000u64;
    assert_eq!(WeightToFee::calc(base, base), westend::CENTS / 10);
    assert_eq!(WeightToFee::calc(base, 0), 0);
    assert_eq!(WeightToFee::calc(base, 1), 0);
    assert_eq!(WeightToFee::calc(base, 10 * base), westend::CENTS);
    assert_eq!(WeightToFee::calc(base, 10 * base - 1), westend::CENTS - 1);
    assert_eq!(WeightToFee::calc(base, u64::MAX), (u64::MAX as u128) * 1_000_000_000 / 1_250_000_000);
}

#[test]
fn westend_fee_with_coefficient_above_one() {
    // q = 10: p / q = 100_000_000, no fraction
    assert_eq!(WeightToFee::calc(1, 3), 300_000_000);
    // q = 30: integer part 33_333_333, fraction 10 / 30
    assert_eq!(WeightToFee::calc(3, 1), 33_333_333);
    assert_eq!(WeightToFee::calc(3, 3), 100_000_000);
    assert_eq!(WeightToFee::calc(3, 29), 966_666_666);
}

#[test]
fn westend_constants() {
    assert_eq!(westend::PARAS_PALLET_NAME, "Paras");
    assert_eq!(westend::WITH_WESTEND_GRANDPA_PALLET_NAME, "BridgeWestendGrandpa");
    assert_eq!(westend::WITH_WESTEND_BRIDGE_PARAS_PALLET_NAME, "BridgeWestendParachains");
    assert_eq!(westend::BEST_FINALIZED_WESTEND_HEADER_METHOD, "WestendFinalityApi_best_finalized");
    assert_eq!(westend::BEST_FINALIZED_WESTMINT_HEADER_METHOD, "WestmintFinalityApi_best_finalized");
    assert_eq!(westend::WESTMINT_PARACHAIN_ID, 2000);
    assert_eq!(westend::SESSION_LENGTH, 100);
    let version = westend::version();
    assert_eq!(version.spec_name, "westend");
    assert_eq!(version.impl_name, "parity-westend");
    assert_eq!(version.authoring_version, 2);
    assert_eq!(version.spec_version, 9140);
    assert_eq!(version.impl_version, 0);
    assert_eq!(version.transaction_version, 8);
    assert_eq!(version.state_version, 0);
}

#[test]
fn westend_call_is_never_dispatched() {
    assert_eq!(westend::Call.dispatch(), Err(westend::DispatchError::NotLocallyDispatchable));
}

#[test]
fn test_chain_charges_the_weight() {
    assert_eq!(TestChain::fee(0), 0);
    assert_eq!(TestChain::fee(1), 1);
    assert_eq!(TestChain::fee(u32::MAX as u64), u32::MAX as u128);
    assert_eq!(TestChain::fee(u32::MAX as u64 + 1), u32::MAX as u128);
    assert_eq!(TestChain::fee(u64::MAX), u32::MAX as u128);
    assert_eq!(
        TestChain::types(),
        ChainTypes { block_number: BlockNumberType::U32, balance: BalanceType::U32 }
    );
    assert_eq!(
        westend::types(),
        ChainTypes { block_number: BlockNumberType::U32, balance: BalanceType::U128 }
    );
    assert_eq!(TestChain::NAME, "Test");
    assert_eq!(TestChain::BEST_FINALIZED_HEADER_ID_METHOD, "TestMethod");
    assert_eq!(TestChain::AVERAGE_BLOCK_INTERVAL_MS, 0);
    assert_eq!(TestChain::STORAGE_PROOF_OVERHEAD, 0);
    assert_eq!(TestChain, TestChain.clone());
}
