//! The life of one transaction: nonce, signing parameters, submission, retry.
//!
//! Talking to the chain is left to the caller. What is decided here is what
//! to do next: [`Submission::step`] takes what the chain answered and returns
//! the next thing to ask of it, until the submission is finished.
//!
//! Three rules shape the decisions. An answer that says the transaction is
//! already known, or its nonce already used, means the work is done. A
//! transient failure is retried with the same nonce, after a growing delay,
//! up to a ceiling. A nonce that is too low is looked up once more, and only
//! once.

use vstd::prelude::*;
use crate::fees::spec_power;
use crate::primitives::{BlockNumber, HeaderId, Nonce, H256};

verus! {

/// For how long a transaction stays valid.
#[derive(Clone, Copy, Debug, PartialEq, Eq)]
pub enum TransactionEra {
    /// Valid for ever.
    Immortal,
    /// Valid for `period` blocks from the block `anchor` on.
    Mortal { anchor: HeaderId, period: u32 },
}

/// What a transaction is submitted for.
#[derive(Clone, Copy, Debug, PartialEq, Eq)]
pub enum SubmissionKind {
    /// A one-shot transaction that an operator triggers by hand.
    Bootstrap,
    /// A transaction of the steady relay.
    SteadyState,
}

impl TransactionEra {
    /// The era for a submission of `kind`, made while `best` is the best
    /// block of the chain.
    pub open spec fn spec_select(kind: SubmissionKind, best: HeaderId, period: u32) -> TransactionEra {
        match kind {
            SubmissionKind::Bootstrap => TransactionEra::Immortal,
            SubmissionKind::SteadyState => TransactionEra::Mortal { anchor: best, period },
        }
    }

    /// The hash that a signature under this era commits to.
    pub open spec fn spec_anchor_hash(self, genesis_hash: H256) -> H256 {
        match self {
            TransactionEra::Immortal => genesis_hash,
            TransactionEra::Mortal { anchor, period } => anchor.hash,
        }
    }

    /// Whether a transaction of this era may still enter the block `number`.
    pub open spec fn spec_is_live_at(self, number: BlockNumber) -> bool {
        match self {
            TransactionEra::Immortal => true,
            TransactionEra::Mortal { anchor, period } => anchor.number <= number < anchor.number
                + period,
        }
    }

    /// The era for a submission of `kind`. A bootstrap transaction is
    /// immortal; a steady-state one lives for `period` blocks from `best` on,
    /// so that a delayed duplicate cannot land much later.
    pub fn select(kind: SubmissionKind, best: HeaderId, period: u32) -> (era: TransactionEra)
        ensures
            era == Self::spec_select(kind, best, period),
    {
        match kind {
            SubmissionKind::Bootstrap => TransactionEra::Immortal,
            SubmissionKind::SteadyState => TransactionEra::Mortal { anchor: best, period },
        }
    }

    /// The hash that a signature under this era commits to: the genesis hash
    /// for an immortal transaction, the hash of the anchor for a mortal one.
    pub fn anchor_hash(&self, genesis_hash: H256) -> (hash: H256)
        ensures
            hash == self.spec_anchor_hash(genesis_hash),
    {
        match self {
            TransactionEra::Immortal => genesis_hash,
            TransactionEra::Mortal { anchor, period } => anchor.hash,
        }
    }

    /// Whether a transaction of this era may still enter the block `number`.
    pub fn is_live_at(&self, number: BlockNumber) -> (live: bool)
        ensures
            live == self.spec_is_live_at(number),
    {
        match self {
            TransactionEra::Immortal => true,
            TransactionEra::Mortal { anchor, period } => {
                anchor.number <= number && number - anchor.number < *period as u64
            },
        }
    }
}

/// A call and the nonce it is sent with.
#[derive(Clone, Debug)]
pub struct UnsignedTransaction {
    /// The encoded call.
    pub call: Vec<u8>,
    /// The nonce of the sender.
    pub nonce: Nonce,
}

impl UnsignedTransaction {
    /// A transaction that sends `call` with `nonce`.
    pub fn new(call: Vec<u8>, nonce: Nonce) -> (unsigned: UnsignedTransaction)
        ensures
            unsigned.call@ == call@,
            unsigned.nonce == nonce,
    {
        UnsignedTransaction { call, nonce }
    }
}

/// Everything a signer needs but the key and the call.
#[derive(Clone, Copy, Debug, PartialEq, Eq)]
pub struct SignRequest {
    /// Version of the runtime specification of the chain, as just read.
    pub spec_version: u32,
    /// Version of the transaction format of the chain, as just read.
    pub transaction_version: u32,
    /// Hash of the first block of the chain.
    pub genesis_hash: H256,
    /// For how long the transaction stays valid.
    pub era: TransactionEra,
    /// The nonce to sign with.
    pub nonce: Nonce,
}

/// Everything a signer needs. `S` is the key, which this crate only carries.
pub struct SignParam<S> {
    /// Version of the runtime specification.
    pub spec_version: u32,
    /// Version of the transaction format.
    pub transaction_version: u32,
    /// Hash of the first block of the chain.
    pub genesis_hash: H256,
    /// The key to sign with.
    pub signer: S,
    /// For how long the transaction stays valid.
    pub era: TransactionEra,
    /// What is signed.
    pub unsigned: UnsignedTransaction,
}

impl<S> SignParam<S> {
    /// Puts the key and the call to a request.
    pub fn assemble(request: SignRequest, signer: S, call: Vec<u8>) -> (param: SignParam<S>)
        ensures
            param.spec_version == request.spec_version,
            param.transaction_version == request.transaction_version,
            param.genesis_hash == request.genesis_hash,
            param.signer == signer,
            param.era == request.era,
            param.unsigned.call@ == call@,
            param.unsigned.nonce == request.nonce,
    {
        SignParam {
            spec_version: request.spec_version,
            transaction_version: request.transaction_version,
            genesis_hash: request.genesis_hash,
            signer,
            era: request.era,
            unsigned: UnsignedTransaction::new(call, request.nonce),
        }
    }
}

/// How many times to try, and how long to wait in between.
#[derive(Clone, Copy, Debug, PartialEq, Eq)]
pub struct SubmitterConfig {
    /// How many attempts may fail for a transient reason before giving up.
    pub max_attempts: u32,
    /// The delay after the first transient failure, in milliseconds.
    pub base_backoff_ms: u64,
    /// The longest delay, in milliseconds.
    pub max_backoff_ms: u64,
    /// For how many blocks a steady-state transaction stays valid.
    pub mortality_period: u32,
}

/// What the chain says of itself right before a transaction is signed.
#[derive(Clone, Copy, Debug, PartialEq, Eq)]
pub struct ChainState {
    /// The next nonce of the account.
    pub account_nonce: Nonce,
    /// Version of the runtime specification.
    pub spec_version: u32,
    /// Version of the transaction format.
    pub transaction_version: u32,
    /// Hash of the first block.
    pub genesis_hash: H256,
    /// The best block.
    pub best_header: HeaderId,
}

/// What the transaction pool answered to a submission.
#[derive(Clone, Copy, Debug, PartialEq, Eq)]
pub enum PoolResponse {
    /// The transaction was taken.
    Accepted,
    /// The pool has this transaction already.
    AlreadyKnown,
    /// The nonce was used up by a transaction that is already on the chain.
    NonceAlreadyUsed,
    /// The nonce is below the next nonce of the account.
    NonceTooLow,
    /// The network failed, the call timed out, or the pool is full.
    Transient,
    /// The pool refused the transaction for another reason.
    Rejected,
}

/// What happened since the last action.
#[derive(Clone, Copy, Debug, PartialEq, Eq)]
pub enum SubmitEvent {
    /// The chain was read.
    ChainState(ChainState),
    /// The chain could not be read.
    QueryFailed,
    /// The pool answered.
    Pool(PoolResponse),
    /// The delay is over.
    BackoffElapsed,
}

/// A submission that counts as done.
#[derive(Clone, Copy, Debug, PartialEq, Eq)]
pub enum TxOutcome {
    /// The pool took the transaction.
    Submitted,
    /// The transaction, or one with its nonce, had made it before.
    AlreadyOnChain,
}

/// Why a submission was given up.
#[derive(Clone, Copy, Debug, PartialEq, Eq)]
pub enum SubmitError {
    /// The nonce was too low again after it had been looked up afresh.
    NonceTooLow,
    /// Too many attempts failed for a transient reason.
    RetriesExhausted,
    /// The pool refused the transaction.
    Rejected,
    /// An event came that the submission was not waiting for.
    OutOfOrder,
}

/// What to do next.
#[derive(Clone, Copy, Debug, PartialEq, Eq)]
pub enum SubmitAction {
    /// Read the nonce of the account, the versions, the genesis hash and the
    /// best block of the chain.
    QueryChainState,
    /// Sign the call with these parameters and hand it to the pool.
    SignAndSubmit(SignRequest),
    /// Wait for this many milliseconds.
    Wait(u64),
    /// Stop: the submission ended like this.
    Finish(Result<TxOutcome, SubmitError>),
}

/// What a submission is waiting for.
#[derive(Clone, Copy, Debug, PartialEq, Eq)]
pub enum Phase {
    /// For the state of the chain.
    AwaitingChainState,
    /// For the answer of the pool.
    AwaitingPool,
    /// For the delay to pass.
    BackingOff,
    /// For nothing: it has ended.
    Finished,
}

/// One logical submission, through all its attempts.
#[derive(Clone, Copy, Debug, PartialEq, Eq)]
pub struct Submission {
    /// What the transaction is submitted for.
    pub kind: SubmissionKind,
    /// What the submission is waiting for.
    pub phase: Phase,
    /// The nonce that its attempts share, once one is known.
    pub nonce: Option<Nonce>,
    /// How many attempts have failed for a transient reason.
    pub transient_failures: u32,
    /// Whether the nonce was looked up afresh after it was found too low.
    pub nonce_requeried: bool,
}

/// The delay after the `failures`-th transient failure: the base delay,
/// doubled with each failure after the first, and never above the longest.
pub open spec fn spec_backoff(config: SubmitterConfig, failures: nat) -> nat {
    let grown = config.base_backoff_ms as nat * spec_power(
        2,
        if failures >= 1 {
            (failures - 1) as nat
        } else {
            0
        },
    );
    if grown > config.max_backoff_ms {
        config.max_backoff_ms as nat
    } else {
        grown
    }
}

/// Doubling is monotonic: a higher power of two is no smaller.
proof fn lemma_power_of_two_grows(low: nat, high: nat)
    requires
        low <= high,
    ensures
        1 <= spec_power(2, low) <= spec_power(2, high),
    decreases high,
{
    if high == 0 {
    } else if low == high {
        lemma_power_of_two_grows(0, (high - 1) as nat);
    } else {
        lemma_power_of_two_grows(low, (high - 1) as nat);
    }
}

/// The delay after the `failures`-th transient failure.
pub fn backoff(config: &SubmitterConfig, failures: u32) -> (delay: u64)
    ensures
        delay == spec_backoff(*config, failures as nat),
{
    let base = config.base_backoff_ms;
    let longest = config.max_backoff_ms;
    let doublings: u32 = if failures >= 1 {
        failures - 1
    } else {
        0
    };
    if base == 0 {
        assert(0 * spec_power(2, doublings as nat) == 0) by (nonlinear_arith);
        return 0;
    }
    if base >= longest {
        proof {
            lemma_power_of_two_grows(0, doublings as nat);
            assert(base * spec_power(2, doublings as nat) >= base) by (nonlinear_arith)
                requires
                    spec_power(2, doublings as nat) >= 1,
            ;
        }
        return longest;
    }
    let mut delay: u64 = base;
    let mut i: u32 = 0;
    assert(base * spec_power(2, 0) == base) by (nonlinear_arith)
        requires
            spec_power(2, 0) == 1,
    ;
    while i < doublings && delay < longest
        invariant
            i <= doublings,
            base >= 1,
            delay <= longest,
            delay < longest ==> delay == base * spec_power(2, i as nat),
            delay == longest ==> base * spec_power(2, i as nat) >= longest,
        decreases doublings - i,
    {
        proof {
            assert(spec_power(2, (i + 1) as nat) == 2 * spec_power(2, i as nat));
            assert(base * (2 * spec_power(2, i as nat)) == 2 * (base * spec_power(2, i as nat)))
                by (nonlinear_arith);
        }
        delay = if delay >= longest - delay {
            longest
        } else {
            let doubled: u64 = delay + delay;
            doubled
        };
        i = i + 1;
    }
    proof {
        if delay == longest {
            lemma_power_of_two_grows(i as nat, doublings as nat);
            assert(base * spec_power(2, doublings as nat) >= base * spec_power(2, i as nat))
                by (nonlinear_arith)
                requires
                    spec_power(2, doublings as nat) >= spec_power(2, i as nat),
            ;
        }
    }
    delay
}

impl Submission {
    /// The state and the first action of a fresh submission of `kind`.
    pub open spec fn spec_start(kind: SubmissionKind) -> (Submission, SubmitAction) {
        (
            Submission {
                kind,
                phase: Phase::AwaitingChainState,
                nonce: None,
                transient_failures: 0,
                nonce_requeried: false,
            },
            SubmitAction::QueryChainState,
        )
    }

    /// The submission, ended with `result`.
    pub open spec fn spec_finish(self, result: Result<TxOutcome, SubmitError>) -> (
        Submission,
        SubmitAction,
    ) {
        (Submission { phase: Phase::Finished, ..self }, SubmitAction::Finish(result))
    }

    /// What follows a transient failure: a delay and another attempt with the
    /// same nonce, or the end where the ceiling is reached.
    pub open spec fn spec_after_transient(self, config: SubmitterConfig) -> (
        Submission,
        SubmitAction,
    ) {
        if self.transient_failures + 1 >= config.max_attempts {
            self.spec_finish(Err(SubmitError::RetriesExhausted))
        } else {
            (
                Submission {
                    phase: Phase::BackingOff,
                    transient_failures: (self.transient_failures + 1) as u32,
                    ..self
                },
                SubmitAction::Wait(
                    spec_backoff(config, (self.transient_failures + 1) as nat) as u64,
                ),
            )
        }
    }

    /// The parameters to sign with once the chain was read.
    pub open spec fn spec_sign_request(self, config: SubmitterConfig, chain: ChainState) -> SignRequest {
        SignRequest {
            spec_version: chain.spec_version,
            transaction_version: chain.transaction_version,
            genesis_hash: chain.genesis_hash,
            era: TransactionEra::spec_select(self.kind, chain.best_header, config.mortality_period),
            nonce: match self.nonce {
                Some(nonce) => nonce,
                None => chain.account_nonce,
            },
        }
    }

    /// The next state and the next action, given what happened.
    pub open spec fn spec_step(self, config: SubmitterConfig, event: SubmitEvent) -> (
        Submission,
        SubmitAction,
    ) {
        match (self.phase, event) {
            (Phase::AwaitingChainState, SubmitEvent::ChainState(chain)) => {
                let request = self.spec_sign_request(config, chain);
                (
                    Submission { phase: Phase::AwaitingPool, nonce: Some(request.nonce), ..self },
                    SubmitAction::SignAndSubmit(request),
                )
            },
            (Phase::AwaitingChainState, SubmitEvent::QueryFailed) => self.spec_after_transient(
                config,
            ),
            (Phase::AwaitingPool, SubmitEvent::Pool(response)) => match response {
                PoolResponse::Accepted => self.spec_finish(Ok(TxOutcome::Submitted)),
                PoolResponse::AlreadyKnown => self.spec_finish(Ok(TxOutcome::AlreadyOnChain)),
                PoolResponse::NonceAlreadyUsed => self.spec_finish(Ok(TxOutcome::AlreadyOnChain)),
                PoolResponse::NonceTooLow => if self.nonce_requeried {
                    self.spec_finish(Err(SubmitError::NonceTooLow))
                } else {
                    (
                        Submission {
                            phase: Phase::AwaitingChainState,
                            nonce: None,
                            nonce_requeried: true,
                            ..self
                        },
                        SubmitAction::QueryChainState,
                    )
                },
                PoolResponse::Transient => self.spec_after_transient(config),
                PoolResponse::Rejected => self.spec_finish(Err(SubmitError::Rejected)),
            },
            (Phase::BackingOff, SubmitEvent::BackoffElapsed) => (
                Submission { phase: Phase::AwaitingChainState, ..self },
                SubmitAction::QueryChainState,
            ),
            _ => self.spec_finish(Err(SubmitError::OutOfOrder)),
        }
    }

    /// An upper bound on the steps that are left before the submission ends.
    pub open spec fn spec_steps_left(self, config: SubmitterConfig) -> nat {
        if self.phase is Finished {
            0
        } else {
            let rank: nat = match self.phase {
                Phase::AwaitingPool => 1,
                Phase::AwaitingChainState => 2,
                _ => 3,
            };
            let retries: nat = if config.max_attempts > self.transient_failures {
                (config.max_attempts - self.transient_failures) as nat
            } else {
                0
            };
            let requery: nat = if self.nonce_requeried {
                0
            } else {
                2
            };
            rank + 4 * retries + requery
        }
    }

    /// Starts a submission of `kind`: nothing is known yet, so the chain is
    /// asked first.
    pub fn start(kind: SubmissionKind) -> (next: (Submission, SubmitAction))
        ensures
            next == Self::spec_start(kind),
    {
        (
            Submission {
                kind,
                phase: Phase::AwaitingChainState,
                nonce: None,
                transient_failures: 0,
                nonce_requeried: false,
            },
            SubmitAction::QueryChainState,
        )
    }

    /// Whether the submission has ended.
    pub fn is_finished(&self) -> (finished: bool)
        ensures
            finished == (self.phase is Finished),
    {
        match self.phase {
            Phase::Finished => true,
            _ => false,
        }
    }

    fn finish(self, result: Result<TxOutcome, SubmitError>) -> (next: (Submission, SubmitAction))
        ensures
            next == self.spec_finish(result),
    {
        (
            Submission {
                kind: self.kind,
                phase: Phase::Finished,
                nonce: self.nonce,
                transient_failures: self.transient_failures,
                nonce_requeried: self.nonce_requeried,
            },
            SubmitAction::Finish(result),
        )
    }

    fn after_transient(self, config: &SubmitterConfig) -> (next: (Submission, SubmitAction))
        ensures
            next == self.spec_after_transient(*config),
    {
        if config.max_attempts == 0 || self.transient_failures >= config.max_attempts - 1 {
            self.finish(Err(SubmitError::RetriesExhausted))
        } else {
            let failures: u32 = self.transient_failures + 1;
            (
                Submission {
                    kind: self.kind,
                    phase: Phase::BackingOff,
                    nonce: self.nonce,
                    transient_failures: failures,
                    nonce_requeried: self.nonce_requeried,
                },
                SubmitAction::Wait(backoff(config, failures)),
            )
        }
    }

    /// Takes what happened and returns the state to go on with and what to
    /// do next.
    pub fn step(self, config: &SubmitterConfig, event: SubmitEvent) -> (next: (
        Submission,
        SubmitAction,
    ))
        ensures
            next == self.spec_step(*config, event),
    {
        match (self.phase, event) {
            (Phase::AwaitingChainState, SubmitEvent::ChainState(chain)) => {
                let nonce = match self.nonce {
                    Some(nonce) => nonce,
                    None => chain.account_nonce,
                };
                let request = SignRequest {
                    spec_version: chain.spec_version,
                    transaction_version: chain.transaction_version,
                    genesis_hash: chain.genesis_hash,
                    era: TransactionEra::select(
                        self.kind,
                        chain.best_header,
                        config.mortality_period,
                    ),
                    nonce,
                };
                (
                    Submission {
                        kind: self.kind,
                        phase: Phase::AwaitingPool,
                        nonce: Some(nonce),
                        transient_failures: self.transient_failures,
                        nonce_requeried: self.nonce_requeried,
                    },
                    SubmitAction::SignAndSubmit(request),
                )
            },
            (Phase::AwaitingChainState, SubmitEvent::QueryFailed) => self.after_transient(config),
            (Phase::AwaitingPool, SubmitEvent::Pool(response)) => match response {
                PoolResponse::Accepted => self.finish(Ok(TxOutcome::Submitted)),
                PoolResponse::AlreadyKnown => self.finish(Ok(TxOutcome::AlreadyOnChain)),
                PoolResponse::NonceAlreadyUsed => self.finish(Ok(TxOutcome::AlreadyOnChain)),
                PoolResponse::NonceTooLow => {
                    if self.nonce_requeried {
                        self.finish(Err(SubmitError::NonceTooLow))
                    } else {
                        (
                            Submission {
                                kind: self.kind,
                                phase: Phase::AwaitingChainState,
                                nonce: None,
                                transient_failures: self.transient_failures,
                                nonce_requeried: true,
                            },
                            SubmitAction::QueryChainState,
                        )
                    }
                },
                PoolResponse::Transient => self.after_transient(config),
                PoolResponse::Rejected => self.finish(Err(SubmitError::Rejected)),
            },
            (Phase::BackingOff, SubmitEvent::BackoffElapsed) => (
                Submission {
                    kind: self.kind,
                    phase: Phase::AwaitingChainState,
                    nonce: self.nonce,
                    transient_failures: self.transient_failures,
                    nonce_requeried: self.nonce_requeried,
                },
                SubmitAction::QueryChainState,
            ),
            _ => self.finish(Err(SubmitError::OutOfOrder)),
        }
    }
}

/// A submission whose transaction, or whose nonce, is already known to the
/// chain ends in success, whatever went before.
pub proof fn lemma_known_transaction_is_success(
    submission: Submission,
    config: SubmitterConfig,
    response: PoolResponse,
)
    requires
        submission.phase is AwaitingPool,
        response is AlreadyKnown || response is NonceAlreadyUsed,
    ensures
        submission.spec_step(config, SubmitEvent::Pool(response)).1 == SubmitAction::Finish(
            Ok(TxOutcome::AlreadyOnChain),
        ),
        submission.spec_step(config, SubmitEvent::Pool(response)).0.phase is Finished,
{
}

/// A nonce that is too low is looked up afresh once: the first time the
/// chain is read again and the stored nonce dropped, the second time the
/// submission fails.
pub proof fn lemma_nonce_requeried_once(
    submission: Submission,
    config: SubmitterConfig,
    chain: ChainState,
)
    requires
        submission.phase is AwaitingPool,
        !submission.nonce_requeried,
    ensures
        ({
            let event = SubmitEvent::Pool(PoolResponse::NonceTooLow);
            let (requeried, first) = submission.spec_step(config, event);
            let (resubmitted, second) = requeried.spec_step(config, SubmitEvent::ChainState(chain));
            let (ended, third) = resubmitted.spec_step(config, event);
            &&& first == SubmitAction::QueryChainState
            &&& second matches SubmitAction::SignAndSubmit(request) && request.nonce
                == chain.account_nonce
            &&& third == SubmitAction::Finish(Err(SubmitError::NonceTooLow))
            &&& ended.phase is Finished
        }),
{
}

/// Attempts of one submission share their nonce: once a nonce is stored,
/// the next signing request carries it, whatever nonce the chain reports.
pub proof fn lemma_retry_keeps_nonce(
    submission: Submission,
    config: SubmitterConfig,
    chain: ChainState,
)
    requires
        submission.phase is AwaitingChainState,
        submission.nonce is Some,
    ensures
        submission.spec_step(config, SubmitEvent::ChainState(chain)).1 matches SubmitAction::SignAndSubmit(
            request,
        ) && Some(request.nonce) == submission.nonce,
{
}

/// A bootstrap transaction is signed to last for ever; a steady-state one is
/// signed to last for the configured number of blocks from the best block
/// that the chain reported.
pub proof fn lemma_era_follows_kind(
    submission: Submission,
    config: SubmitterConfig,
    chain: ChainState,
)
    ensures
        submission.spec_sign_request(config, chain).era == match submission.kind {
            SubmissionKind::Bootstrap => TransactionEra::Immortal,
            SubmissionKind::SteadyState => TransactionEra::Mortal {
                anchor: chain.best_header,
                period: config.mortality_period,
            },
        },
{
}

/// Every step either ends the submission or brings its end closer, so no
/// sequence of events keeps a submission going for ever.
pub proof fn lemma_step_makes_progress(
    submission: Submission,
    config: SubmitterConfig,
    event: SubmitEvent,
)
    ensures
        ({
            let (next, action) = submission.spec_step(config, event);
            if action is Finish {
                next.phase is Finished
            } else {
                &&& !(next.phase is Finished)
                &&& next.spec_steps_left(config) < submission.spec_steps_left(config)
            }
        }),
{
}

/// A fresh submission ends within `4 * max_attempts + 4` steps.
pub proof fn lemma_fresh_submission_is_bounded(kind: SubmissionKind, config: SubmitterConfig)
    ensures
        Submission::spec_start(kind).0.spec_steps_left(config) == 4 * config.max_attempts + 4,
{
}

} // verus!
