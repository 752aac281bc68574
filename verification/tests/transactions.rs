use bridge_relay::primitives::{HeaderId, H256};
use bridge_relay::transactions::{
    backoff, ChainState, Phase, PoolResponse, SignParam, SignRequest, Submission, SubmissionKind,
    SubmitAction, SubmitError, SubmitEvent, SubmitterConfig, TransactionEra, TxOutcome,
    UnsignedTransaction,
};

fn config() -> SubmitterConfig {
    SubmitterConfig { max_attempts: 3, base_backoff_ms: 100, max_backoff_ms: 1000, mortality_period: 64 }
}

fn chain(nonce: u32) -> ChainState {
    ChainState {
        account_nonce: nonce,
        spec_version: 9140,
        transaction_version: 8,
        genesis_hash: H256([1; 32]),
        best_header: HeaderId { number: 500, hash: H256([2; 32]) },
    }
}

fn submitted(kind: SubmissionKind, nonce: u32) -> Submission {
    let (s, _) = Submission::start(kind);
    let (s, _) = s.step(&config(), SubmitEvent::ChainState(chain(nonce)));
    s
}

#[test]
fn fresh_submission_asks_for_chain_state() {
    let (s, action) = Submission::start(SubmissionKind::SteadyState);
    assert_eq!(action, SubmitAction::QueryChainState);
    assert_eq!(s.phase, Phase::AwaitingChainState);
    assert_eq!(s.nonce, None);
    assert_eq!(s.transient_failures, 0);
    assert!(!s.nonce_requeried);
    assert!(!s.is_finished());
}

#[test]
fn steady_state_submission_signs_with_fresh_versions_and_mortal_era() {
    let (s, _) = Submission::start(SubmissionKind::SteadyState);
    let (s, action) = s.step(&config(), SubmitEvent::ChainState(chain(7)));
    assert_eq!(
        action,
        SubmitAction::SignAndSubmit(SignRequest {
            spec_version: 9140,
            transaction_version: 8,
            genesis_hash: H256([1; 32]),
            era: TransactionEra::Mortal {
                anchor: HeaderId { number: 500, hash: H256([2; 32]) },
                period: 64,
            },
            nonce: 7,
        })
    );
    assert_eq!(s.phase, Phase::AwaitingPool);
    assert_eq!(s.nonce, Some(7));
}

#[test]
fn bootstrap_submission_is_immortal() {
    let (s, _) = Submission::start(SubmissionKind::Bootstrap);
    let (_, action) = s.step(&config(), SubmitEvent::ChainState(chain(0)));
    match action {
        SubmitAction::SignAndSubmit(request) => assert_eq!(request.era, TransactionEra::Immortal),
        other => panic!("unexpected action {:?}", other),
    }
}

#[test]
fn accepted_transaction_finishes_with_submitted() {
    let s = submitted(SubmissionKind::SteadyState, 7);
    let (s, action) = s.step(&config(), SubmitEvent::Pool(PoolResponse::Accepted));
    assert_eq!(action, SubmitAction::Finish(Ok(TxOutcome::Submitted)));
    assert!(s.is_finished());
}

#[test]
fn second_submission_of_same_call_is_success_equivalent() {
    // the first submission goes through and uses up nonce 7
    let first = submitted(SubmissionKind::SteadyState, 7);
    let (_, outcome) = first.step(&config(), SubmitEvent::Pool(PoolResponse::Accepted));
    assert_eq!(outcome, SubmitAction::Finish(Ok(TxOutcome::Submitted)));
    // the same call is sent again; the chain answers that its nonce is used up
    let second = submitted(SubmissionKind::SteadyState, 7);
    let (s, outcome) = second.step(&config(), SubmitEvent::Pool(PoolResponse::NonceAlreadyUsed));
    assert_eq!(outcome, SubmitAction::Finish(Ok(TxOutcome::AlreadyOnChain)));
    assert!(s.is_finished());
}

#[test]
fn already_known_transaction_is_success_equivalent() {
    let s = submitted(SubmissionKind::SteadyState, 7);
    let (s, outcome) = s.step(&config(), SubmitEvent::Pool(PoolResponse::AlreadyKnown));
    assert_eq!(outcome, SubmitAction::Finish(Ok(TxOutcome::AlreadyOnChain)));
    assert!(s.is_finished());
}

#[test]
fn nonce_too_low_is_requeried_once_then_fatal() {
    let s = submitted(SubmissionKind::SteadyState, 7);
    let (s, action) = s.step(&config(), SubmitEvent::Pool(PoolResponse::NonceTooLow));
    assert_eq!(action, SubmitAction::QueryChainState);
    assert_eq!(s.nonce, None);
    assert!(s.nonce_requeried);
    let (s, action) = s.step(&config(), SubmitEvent::ChainState(chain(9)));
    match action {
        SubmitAction::SignAndSubmit(request) => assert_eq!(request.nonce, 9),
        other => panic!("unexpected action {:?}", other),
    }
    let (s, action) = s.step(&config(), SubmitEvent::Pool(PoolResponse::NonceTooLow));
    assert_eq!(action, SubmitAction::Finish(Err(SubmitError::NonceTooLow)));
    assert!(s.is_finished());
}

#[test]
fn nonce_requery_then_acceptance_succeeds() {
    let s = submitted(SubmissionKind::SteadyState, 7);
    let (s, _) = s.step(&config(), SubmitEvent::Pool(PoolResponse::NonceTooLow));
    let (s, _) = s.step(&config(), SubmitEvent::ChainState(chain(9)));
    let (_, action) = s.step(&config(), SubmitEvent::Pool(PoolResponse::Accepted));
    assert_eq!(action, SubmitAction::Finish(Ok(TxOutcome::Submitted)));
}

#[test]
fn transient_failure_retries_with_same_nonce() {
    let s = submitted(SubmissionKind::SteadyState, 7);
    let (s, action) = s.step(&config(), SubmitEvent::Pool(PoolResponse::Transient));
    assert_eq!(action, SubmitAction::Wait(100));
    assert_eq!(s.phase, Phase::BackingOff);
    assert_eq!(s.transient_failures, 1);
    let (s, action) = s.step(&config(), SubmitEvent::BackoffElapsed);
    assert_eq!(action, SubmitAction::QueryChainState);
    // the chain has moved on, the retry still uses the nonce of the first attempt
    let mut later = chain(8);
    later.spec_version = 9150;
    let (_, action) = s.step(&config(), SubmitEvent::ChainState(later));
    match action {
        SubmitAction::SignAndSubmit(request) => {
            assert_eq!(request.nonce, 7);
            assert_eq!(request.spec_version, 9150);
        },
        other => panic!("unexpected action {:?}", other),
    }
}

#[test]
fn transient_failures_stop_at_the_ceiling() {
    let config = config();
    let mut s = submitted(SubmissionKind::SteadyState, 7);
    let mut waits = Vec::new();
    let outcome = loop {
        let (next, action) = s.step(&config, SubmitEvent::Pool(PoolResponse::Transient));
        match action {
            SubmitAction::Wait(ms) => {
                waits.push(ms);
                let (next, _) = next.step(&config, SubmitEvent::BackoffElapsed);
                let (next, _) = next.step(&config, SubmitEvent::ChainState(chain(7)));
                s = next;
            },
            other => break other,
        }
    };
    assert_eq!(waits, vec![100, 200]);
    assert_eq!(outcome, SubmitAction::Finish(Err(SubmitError::RetriesExhausted)));
}

#[test]
fn failed_query_counts_as_transient() {
    let (s, _) = Submission::start(SubmissionKind::SteadyState);
    let (s, action) = s.step(&config(), SubmitEvent::QueryFailed);
    assert_eq!(action, SubmitAction::Wait(100));
    assert_eq!(s.transient_failures, 1);
    let zero = SubmitterConfig { max_attempts: 0, ..config() };
    let (s, _) = Submission::start(SubmissionKind::SteadyState);
    let (_, action) = s.step(&zero, SubmitEvent::QueryFailed);
    assert_eq!(action, SubmitAction::Finish(Err(SubmitError::RetriesExhausted)));
    let one = SubmitterConfig { max_attempts: 1, ..config() };
    let (s, _) = Submission::start(SubmissionKind::SteadyState);
    let (_, action) = s.step(&one, SubmitEvent::QueryFailed);
    assert_eq!(action, SubmitAction::Finish(Err(SubmitError::RetriesExhausted)));
}

#[test]
fn rejected_transaction_is_fatal() {
    let s = submitted(SubmissionKind::SteadyState, 7);
    let (s, action) = s.step(&config(), SubmitEvent::Pool(PoolResponse::Rejected));
    assert_eq!(action, SubmitAction::Finish(Err(SubmitError::Rejected)));
    assert!(s.is_finished());
}

#[test]
fn unexpected_event_ends_the_submission() {
    let (s, _) = Submission::start(SubmissionKind::SteadyState);
    let (s, action) = s.step(&config(), SubmitEvent::Pool(PoolResponse::Accepted));
    assert_eq!(action, SubmitAction::Finish(Err(SubmitError::OutOfOrder)));
    assert!(s.is_finished());
    let (_, action) = s.step(&config(), SubmitEvent::ChainState(chain(1)));
    assert_eq!(action, SubmitAction::Finish(Err(SubmitError::OutOfOrder)));
    let s = submitted(SubmissionKind::SteadyState, 7);
    let (_, action) = s.step(&config(), SubmitEvent::BackoffElapsed);
    assert_eq!(action, SubmitAction::Finish(Err(SubmitError::OutOfOrder)));
}

#[test]
fn every_run_ends_within_the_bound() {
    let config = SubmitterConfig { max_attempts: 5, ..config() };
    let bound = 4 * 5 + 4;
    // the worst the chain can do: fail every query and every submission, and
    // report the nonce too low once
    let (mut s, _) = Submission::start(SubmissionKind::SteadyState);
    let mut steps = 0;
    let mut low_sent = false;
    while !s.is_finished() {
        let event = match s.phase {
            Phase::AwaitingChainState => SubmitEvent::ChainState(chain(1)),
            Phase::AwaitingPool if !low_sent => {
                low_sent = true;
                SubmitEvent::Pool(PoolResponse::NonceTooLow)
            },
            Phase::AwaitingPool => SubmitEvent::Pool(PoolResponse::Transient),
            Phase::BackingOff => SubmitEvent::BackoffElapsed,
            Phase::Finished => unreachable!(),
        };
        let (next, _) = s.step(&config, event);
        s = next;
        steps += 1;
        assert!(steps <= bound);
    }
    assert!(steps > 5);
}

#[test]
fn backoff_doubles_up_to_the_longest_delay() {
    let config = config();
    assert_eq!(backoff(&config, 0), 100);
    assert_eq!(backoff(&config, 1), 100);
    assert_eq!(backoff(&config, 2), 200);
    assert_eq!(backoff(&config, 3), 400);
    assert_eq!(backoff(&config, 4), 800);
    assert_eq!(backoff(&config, 5), 1000);
    assert_eq!(backoff(&config, 6), 1000);
    assert_eq!(backoff(&config, u32::MAX), 1000);
}

#[test]
fn backoff_edge_cases() {
    let zero_base = SubmitterConfig { base_backoff_ms: 0, ..config() };
    assert_eq!(backoff(&zero_base, 1), 0);
    assert_eq!(backoff(&zero_base, u32::MAX), 0);
    let base_above_max = SubmitterConfig { base_backoff_ms: 5000, ..config() };
    assert_eq!(backoff(&base_above_max, 1), 1000);
    let huge = SubmitterConfig { base_backoff_ms: 1, max_backoff_ms: u64::MAX, ..config() };
    assert_eq!(backoff(&huge, 64), 1u64 << 63);
    assert_eq!(backoff(&huge, 65), u64::MAX);
    assert_eq!(backoff(&huge, 1000), u64::MAX);
    let zero_max = SubmitterConfig { base_backoff_ms: 1, max_backoff_ms: 0, ..config() };
    assert_eq!(backoff(&zero_max, 3), 0);
}

#[test]
fn era_is_selected_by_kind() {
    let best = HeaderId { number: 10, hash: H256([9; 32]) };
    assert_eq!(TransactionEra::select(SubmissionKind::Bootstrap, best, 16), TransactionEra::Immortal);
    assert_eq!(
        TransactionEra::select(SubmissionKind::SteadyState, best, 16),
        TransactionEra::Mortal { anchor: best, period: 16 }
    );
}

#[test]
fn era_anchors_signature_and_bounds_lifetime() {
    let genesis = H256([1; 32]);
    let best = HeaderId { number: 10, hash: H256([9; 32]) };
    let mortal = TransactionEra::Mortal { anchor: best, period: 16 };
    assert_eq!(TransactionEra::Immortal.anchor_hash(genesis), genesis);
    assert_eq!(mortal.anchor_hash(genesis), H256([9; 32]));
    assert!(TransactionEra::Immortal.is_live_at(0));
    assert!(TransactionEra::Immortal.is_live_at(u64::MAX));
    assert!(!mortal.is_live_at(9));
    assert!(mortal.is_live_at(10));
    assert!(mortal.is_live_at(25));
    assert!(!mortal.is_live_at(26));
    let late = TransactionEra::Mortal {
        anchor: HeaderId { number: u64::MAX - 1, hash: H256([9; 32]) },
        period: 16,
    };
    assert!(late.is_live_at(u64::MAX));
    assert!(!late.is_live_at(u64::MAX - 2));
    let longest = TransactionEra::Mortal { anchor: best, period: u32::MAX };
    assert!(longest.is_live_at(10 + u32::MAX as u64 - 1));
    assert!(!longest.is_live_at(10 + u32::MAX as u64));
    let empty = TransactionEra::Mortal { anchor: best, period: 0 };
    assert!(!empty.is_live_at(10));
}

#[test]
fn sign_param_is_assembled_from_request_key_and_call() {
    let request = SignRequest {
        spec_version: 1,
        transaction_version: 2,
        genesis_hash: H256([3; 32]),
        era: TransactionEra::Immortal,
        nonce: 4,
    };
    let param = SignParam::assemble(request, "key", vec![5, 6]);
    assert_eq!(param.spec_version, 1);
    assert_eq!(param.transaction_version, 2);
    assert_eq!(param.genesis_hash, H256([3; 32]));
    assert_eq!(param.signer, "key");
    assert_eq!(param.era, TransactionEra::Immortal);
    assert_eq!(param.unsigned.call, vec![5, 6]);
    assert_eq!(param.unsigned.nonce, 4);
    let unsigned = UnsignedTransaction::new(vec![1], 2);
    assert_eq!(unsigned.call, vec![1]);
    assert_eq!(unsigned.nonce, 2);
}
