use bridge_relay::chain::ConfigurationError;
use bridge_relay::finality::EngineError;
use bridge_relay::guards::{Guard, GuardKind, GuardMonitor, GuardSample, InvariantViolation};
use bridge_relay::parachains::{
    imported_parachain_head_storage_key_at_target, BestParaHeadHash, ParaId, ParachainHeadTracker,
};
use bridge_relay::primitives::{HeaderId, H256};
use bridge_relay::relay::{
    exit_code, imported_header_storage_key_at_target, Disposition, HeadersAction, HeadersRelay,
    ParachainsAction, ParachainsRelay, RelayError,
};
use bridge_relay::storage::{single_map_key, HashScheme, StorageIndex};
use bridge_relay::transactions::SubmitError;

const GRANDPA: &str = "BridgeWestendGrandpa";
const PARAS: &str = "BridgeWestendParachains";

fn header(number: u64, byte: u8) -> HeaderId {
    HeaderId { number, hash: H256([byte; 32]) }
}

fn quiet() -> GuardMonitor {
    GuardMonitor::new(vec![Guard::new(GuardKind::BalanceFloor { floor: 100 }, 1000)])
}

fn tripped() -> GuardMonitor {
    let mut monitor = quiet();
    monitor.record(0, 0, GuardSample::Balance(99));
    monitor
}

#[test]
fn newly_finalized_header_is_submitted_once() {
    let mut relay = HeadersRelay::new();
    let nothing = StorageIndex::new(vec![]);
    let best = Some(header(100, 1));
    assert_eq!(relay.on_poll(&quiet(), best, &nothing, GRANDPA), HeadersAction::Submit(header(100, 1)));
    assert_eq!(relay.on_poll(&quiet(), best, &nothing, GRANDPA), HeadersAction::Idle);
    assert_eq!(relay.last_handled, Some(100));
}

#[test]
fn header_known_to_target_is_not_submitted() {
    let mut relay = HeadersRelay::new();
    let key = imported_header_storage_key_at_target(GRANDPA, &H256([1; 32]));
    let index = StorageIndex::new(vec![key]);
    assert_eq!(relay.on_poll(&quiet(), Some(header(100, 1)), &index, GRANDPA), HeadersAction::Idle);
    assert_eq!(relay.last_handled, Some(100));
    assert_eq!(
        relay.on_poll(&quiet(), Some(header(101, 2)), &index, GRANDPA),
        HeadersAction::Submit(header(101, 2))
    );
}

#[test]
fn source_without_finalized_header_needs_nothing() {
    let mut relay = HeadersRelay::new();
    assert_eq!(relay.on_poll(&quiet(), None, &StorageIndex::new(vec![]), GRANDPA), HeadersAction::Idle);
    assert_eq!(relay.last_handled, None);
}

#[test]
fn headers_are_submitted_in_increasing_order() {
    let mut relay = HeadersRelay::new();
    let nothing = StorageIndex::new(vec![]);
    let polls = [5u64, 5, 3, 9, 9, 8, 20, 1, 21];
    let mut submitted = Vec::new();
    for (i, number) in polls.iter().enumerate() {
        if let HeadersAction::Submit(h) =
            relay.on_poll(&quiet(), Some(header(*number, i as u8)), &nothing, GRANDPA)
        {
            submitted.push(h.number);
        }
    }
    assert_eq!(submitted, vec![5, 9, 20, 21]);
}

#[test]
fn imported_header_key_uses_identity_hasher() {
    let key = imported_header_storage_key_at_target(GRANDPA, &H256([7; 32]));
    let direct = single_map_key(GRANDPA, "ImportedHeaders", &[7; 32], HashScheme::Identity);
    assert_eq!(key.0, direct.0);
    assert_eq!(key.0[32..], [7; 32]);
}

#[test]
fn tripped_guard_stops_headers_relay_before_any_submission() {
    let mut relay = HeadersRelay::new();
    let nothing = StorageIndex::new(vec![]);
    let violation = InvariantViolation::BalanceBelowFloor { balance: 99, floor: 100 };
    assert_eq!(
        relay.on_poll(&tripped(), Some(header(100, 1)), &nothing, GRANDPA),
        HeadersAction::Terminate(violation)
    );
    assert_eq!(relay.last_handled, None);
    assert_ne!(exit_code(&Err(RelayError::InvariantViolation(violation))), 0);
}

#[test]
fn tripped_guard_stops_parachains_relay_before_any_submission() {
    let mut relay = ParachainsRelay::new(ParachainHeadTracker::new(ParaId(2000)));
    let nothing = StorageIndex::new(vec![]);
    let violation = InvariantViolation::BalanceBelowFloor { balance: 99, floor: 100 };
    assert_eq!(
        relay.on_poll(&tripped(), 10, Some(H256([1; 32])), &nothing, PARAS),
        ParachainsAction::Terminate(violation)
    );
    assert_eq!(relay.best(), None);
}

#[test]
fn new_parachain_head_is_submitted_unless_imported() {
    let mut relay = ParachainsRelay::new(ParachainHeadTracker::new(ParaId(2000)));
    let nothing = StorageIndex::new(vec![]);
    let h1 = H256([1; 32]);
    let h2 = H256([2; 32]);
    assert_eq!(relay.on_poll(&quiet(), 10, None, &nothing, PARAS), ParachainsAction::Idle);
    assert_eq!(relay.best(), None);
    assert_eq!(
        relay.on_poll(&quiet(), 10, Some(h1), &nothing, PARAS),
        ParachainsAction::Submit(BestParaHeadHash { at_relay_block_number: 10, head_hash: h1 })
    );
    // stale and repeated observations need nothing
    assert_eq!(relay.on_poll(&quiet(), 10, Some(h1), &nothing, PARAS), ParachainsAction::Idle);
    assert_eq!(relay.on_poll(&quiet(), 9, Some(h2), &nothing, PARAS), ParachainsAction::Idle);
    assert_eq!(relay.best(), Some(BestParaHeadHash { at_relay_block_number: 10, head_hash: h1 }));
    // a head that the target holds is tracked but not submitted
    let imported = StorageIndex::new(vec![imported_parachain_head_storage_key_at_target(
        PARAS,
        ParaId(2000),
        h2,
    )]);
    assert_eq!(relay.on_poll(&quiet(), 15, Some(h2), &imported, PARAS), ParachainsAction::Idle);
    assert_eq!(relay.best(), Some(BestParaHeadHash { at_relay_block_number: 15, head_hash: h2 }));
}

#[test]
fn errors_are_disposed_of_by_kind() {
    assert_eq!(RelayError::Connection.disposition(), Disposition::Retry);
    assert_eq!(RelayError::Proof(EngineError::InvalidProof).disposition(), Disposition::SkipItem);
    assert_eq!(RelayError::Proof(EngineError::ProofUnavailable).disposition(), Disposition::SkipItem);
    assert_eq!(RelayError::Submission(SubmitError::Rejected).disposition(), Disposition::SkipItem);
    assert_eq!(
        RelayError::InvariantViolation(InvariantViolation::SpecVersionChanged {
            expected: 1,
            actual: 2
        })
        .disposition(),
        Disposition::Terminate
    );
    assert_eq!(
        RelayError::Configuration(ConfigurationError::EmptyName).disposition(),
        Disposition::Terminate
    );
}

#[test]
fn exit_code_is_zero_only_on_success() {
    assert_eq!(exit_code(&Ok(())), 0);
    assert_eq!(exit_code(&Err(RelayError::Connection)), 1);
    assert_eq!(exit_code(&Err(RelayError::Submission(SubmitError::NonceTooLow))), 1);
}
