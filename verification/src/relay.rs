//! The loops of the relay, one decision at a time.
//!
//! A relay direction polls its source, decides whether the target needs a
//! transaction, and goes on. The polling and the submitting are the
//! caller's; the deciding is here. Every decision first looks at the guard
//! monitor: once a guard has tripped nothing is submitted any more.

use vstd::prelude::*;
use crate::chain::ConfigurationError;
use crate::finality::EngineError;
use crate::guards::{GuardMonitor, InvariantViolation};
use crate::parachains::{
    spec_imported_parachain_head_storage_key_at_target, spec_observe, BestParaHeadHash, ParaHash,
    ParachainHeadTracker, RelayBlockNumber,
};
use crate::primitives::{BlockNumber, HeaderId, H256};
use crate::storage::{single_map_key, spec_single_map_key, HashScheme, StorageIndex, StorageKey};
use crate::transactions::SubmitError;

verus! {

/// Everything that can go wrong in a relay.
#[derive(Clone, Copy, Debug, PartialEq, Eq)]
pub enum RelayError {
    /// A chain could not be reached.
    Connection,
    /// A proof was missing or did not hold.
    Proof(EngineError),
    /// A transaction could not be submitted.
    Submission(SubmitError),
    /// A guard found its invariant broken.
    InvariantViolation(InvariantViolation),
    /// The relay was set up wrongly.
    Configuration(ConfigurationError),
}

/// What an error does to the relay.
#[derive(Clone, Copy, Debug, PartialEq, Eq)]
pub enum Disposition {
    /// Try the same thing again after a while.
    Retry,
    /// Drop the header or head at hand and go on with the next.
    SkipItem,
    /// Stop the process.
    Terminate,
}

impl RelayError {
    /// What the error does to the relay. Trouble with a connection passes; a
    /// bad proof or a failed submission costs one item; a broken invariant
    /// or a wrong setup ends the process.
    pub open spec fn spec_disposition(self) -> Disposition {
        match self {
            RelayError::Connection => Disposition::Retry,
            RelayError::Proof(_) => Disposition::SkipItem,
            RelayError::Submission(_) => Disposition::SkipItem,
            RelayError::InvariantViolation(_) => Disposition::Terminate,
            RelayError::Configuration(_) => Disposition::Terminate,
        }
    }

    /// What the error does to the relay.
    pub fn disposition(&self) -> (disposition: Disposition)
        ensures
            disposition == self.spec_disposition(),
    {
        match self {
            RelayError::Connection => Disposition::Retry,
            RelayError::Proof(_) => Disposition::SkipItem,
            RelayError::Submission(_) => Disposition::SkipItem,
            RelayError::InvariantViolation(_) => Disposition::Terminate,
            RelayError::Configuration(_) => Disposition::Terminate,
        }
    }
}

/// The exit status of the process for the outcome of a command: zero for
/// success, one for any error that was not recovered from.
pub fn exit_code(outcome: &Result<(), RelayError>) -> (code: i32)
    ensures
        outcome is Ok ==> code == 0,
        outcome is Err ==> code == 1,
{
    match outcome {
        Ok(_) => 0,
        Err(_) => 1,
    }
}

/// The address of the header `header_hash` in the `ImportedHeaders` map of
/// the bridge GRANDPA pallet at the target chain.
pub open spec fn spec_imported_header_storage_key_at_target(
    bridge_grandpa_pallet_name: Seq<char>,
    header_hash: H256,
) -> Seq<u8> {
    spec_single_map_key(
        bridge_grandpa_pallet_name,
        "ImportedHeaders"@,
        header_hash@,
        HashScheme::Identity,
    )
}

/// Returns runtime storage key of the imported header with given hash at
/// the target chain.
pub fn imported_header_storage_key_at_target(
    bridge_grandpa_pallet_name: &str,
    header_hash: &H256,
) -> (key: StorageKey)
    ensures
        key@ == spec_imported_header_storage_key_at_target(
            bridge_grandpa_pallet_name@,
            *header_hash,
        ),
{
    single_map_key(
        bridge_grandpa_pallet_name,
        "ImportedHeaders",
        header_hash.0.as_slice(),
        HashScheme::Identity,
    )
}

/// What the headers relay does after a poll.
#[derive(Clone, Copy, Debug, PartialEq, Eq)]
pub enum HeadersAction {
    /// Nothing.
    Idle,
    /// Submit a proof that this header is final.
    Submit(HeaderId),
    /// Stop: a guard has tripped.
    Terminate(InvariantViolation),
}

/// One poll of the headers relay: what the guards say, what the source
/// reports as its best finalized header, and whether the target holds it.
pub struct HeadersPoll {
    /// The violation that the guards found, if any.
    pub violation: Option<InvariantViolation>,
    /// The best finalized header of the source, if it has one.
    pub source_best: Option<HeaderId>,
    /// Whether the target has imported that header.
    pub on_target: bool,
}

/// The relay of finalized headers from a source to a target chain.
#[derive(Clone, Copy, Debug, PartialEq, Eq)]
pub struct HeadersRelay {
    /// Number of the last header that was dealt with.
    pub last_handled: Option<BlockNumber>,
}

impl HeadersRelay {
    /// The state and the action after a poll. A tripped guard stops the
    /// relay. A header that is not beyond the last one dealt with is old
    /// news. A new header is dealt with now: submitted, unless the target
    /// has it.
    pub open spec fn spec_on_poll(self, poll: HeadersPoll) -> (HeadersRelay, HeadersAction) {
        match poll.violation {
            Some(violation) => (self, HeadersAction::Terminate(violation)),
            None => match poll.source_best {
                None => (self, HeadersAction::Idle),
                Some(best) => if self.last_handled matches Some(last) && best.number <= last {
                    (self, HeadersAction::Idle)
                } else if poll.on_target {
                    (HeadersRelay { last_handled: Some(best.number) }, HeadersAction::Idle)
                } else {
                    (
                        HeadersRelay { last_handled: Some(best.number) },
                        HeadersAction::Submit(best),
                    )
                },
            },
        }
    }

    /// The headers submitted over a run of polls, in order.
    pub open spec fn spec_submitted(self, polls: Seq<HeadersPoll>) -> Seq<HeaderId>
        decreases polls.len(),
    {
        if polls.len() == 0 {
            Seq::empty()
        } else {
            let before = self.spec_after(polls.drop_last());
            let earlier = self.spec_submitted(polls.drop_last());
            match before.spec_on_poll(polls.last()).1 {
                HeadersAction::Submit(header) => earlier.push(header),
                _ => earlier,
            }
        }
    }

    /// The state after a run of polls.
    pub open spec fn spec_after(self, polls: Seq<HeadersPoll>) -> HeadersRelay
        decreases polls.len(),
    {
        if polls.len() == 0 {
            self
        } else {
            self.spec_after(polls.drop_last()).spec_on_poll(polls.last()).0
        }
    }

    /// A relay that has dealt with nothing yet.
    pub fn new() -> (relay: HeadersRelay)
        ensures
            relay.last_handled is None,
    {
        HeadersRelay { last_handled: None }
    }

    /// Decides what to do after a poll. `imported` holds the keys read from
    /// the `ImportedHeaders` map of the bridge pallet at the target.
    pub fn on_poll(
        &mut self,
        monitor: &GuardMonitor,
        source_best: Option<HeaderId>,
        imported: &StorageIndex,
        bridge_grandpa_pallet_name: &str,
    ) -> (action: HeadersAction)
        ensures
            (*final(self), action) == old(self).spec_on_poll(
                HeadersPoll {
                    violation: monitor.spec_violation(),
                    source_best,
                    on_target: source_best matches Some(best) && imported@.contains(
                        spec_imported_header_storage_key_at_target(
                            bridge_grandpa_pallet_name@,
                            best.hash,
                        ),
                    ),
                },
            ),
    {
        if let Some(violation) = monitor.violation() {
            return HeadersAction::Terminate(violation);
        }
        let best = match source_best {
            Some(best) => best,
            None => {
                return HeadersAction::Idle;
            },
        };
        if let Some(last) = self.last_handled {
            if best.number <= last {
                return HeadersAction::Idle;
            }
        }
        let key = imported_header_storage_key_at_target(bridge_grandpa_pallet_name, &best.hash);
        let on_target = imported.contains(&key);
        self.last_handled = Some(best.number);
        if on_target {
            HeadersAction::Idle
        } else {
            HeadersAction::Submit(best)
        }
    }
}

/// What the parachains relay does after a poll.
#[derive(Clone, Copy, Debug, PartialEq)]
pub enum ParachainsAction {
    /// Nothing.
    Idle,
    /// Submit this head of the parachain.
    Submit(BestParaHeadHash),
    /// Stop: a guard has tripped.
    Terminate(InvariantViolation),
}

/// The relay of the heads of one parachain to a target chain.
pub struct ParachainsRelay {
    tracker: ParachainHeadTracker,
}

impl ParachainsRelay {
    /// The tracker of the parachain's best head.
    pub closed spec fn spec_tracker(&self) -> ParachainHeadTracker {
        self.tracker
    }

    /// The action after a poll that read `head` at the relay block
    /// `relay_block_number` while the tracker held `best`. A tripped guard
    /// stops the relay; no head, a stale head or a head that the target has
    /// needs nothing; any other head is submitted.
    pub open spec fn spec_action(
        best: Option<BestParaHeadHash>,
        violation: Option<InvariantViolation>,
        relay_block_number: RelayBlockNumber,
        head: Option<ParaHash>,
        on_target: bool,
    ) -> ParachainsAction {
        match violation {
            Some(violation) => ParachainsAction::Terminate(violation),
            None => match head {
                None => ParachainsAction::Idle,
                Some(head_hash) => if best matches Some(current) && relay_block_number
                    <= current.at_relay_block_number {
                    ParachainsAction::Idle
                } else if on_target {
                    ParachainsAction::Idle
                } else {
                    ParachainsAction::Submit(
                        BestParaHeadHash { at_relay_block_number: relay_block_number, head_hash },
                    )
                },
            },
        }
    }

    /// A relay for the parachain that `tracker` follows.
    pub fn new(tracker: ParachainHeadTracker) -> (relay: ParachainsRelay)
        ensures
            relay.spec_tracker() == tracker,
    {
        ParachainsRelay { tracker }
    }

    /// The best head known so far.
    pub fn best(&self) -> (best: Option<BestParaHeadHash>)
        ensures
            best == self.spec_tracker().spec_best(),
    {
        self.tracker.best()
    }

    /// Decides what to do after a poll of the relay chain's storage. `head`
    /// is the hash of the parachain's head at the finalized relay block
    /// `relay_block_number`, if the relay chain holds one. `imported` holds
    /// the keys read from the `ImportedParaHeads` map of the bridge pallet at
    /// the target. While no guard has tripped, the head is shown to the
    /// tracker.
    pub fn on_poll(
        &mut self,
        monitor: &GuardMonitor,
        relay_block_number: RelayBlockNumber,
        head: Option<ParaHash>,
        imported: &StorageIndex,
        bridge_parachains_pallet_name: &str,
    ) -> (action: ParachainsAction)
        ensures
            final(self).spec_tracker().spec_para_id() == old(self).spec_tracker().spec_para_id(),
            final(self).spec_tracker().spec_best() == match (monitor.spec_violation(), head) {
                (None, Some(head_hash)) => spec_observe(
                    old(self).spec_tracker().spec_best(),
                    (BestParaHeadHash { at_relay_block_number: relay_block_number, head_hash }),
                ),
                _ => old(self).spec_tracker().spec_best(),
            },
            action == Self::spec_action(
                old(self).spec_tracker().spec_best(),
                monitor.spec_violation(),
                relay_block_number,
                head,
                head matches Some(head_hash) && imported@.contains(
                    spec_imported_parachain_head_storage_key_at_target(
                        bridge_parachains_pallet_name@,
                        old(self).spec_tracker().spec_para_id(),
                        head_hash,
                    ),
                ),
            ),
    {
        if let Some(violation) = monitor.violation() {
            return ParachainsAction::Terminate(violation);
        }
        let head_hash = match head {
            Some(head_hash) => head_hash,
            None => {
                return ParachainsAction::Idle;
            },
        };
        if !self.tracker.observe(relay_block_number, head_hash) {
            return ParachainsAction::Idle;
        }
        let seen = BestParaHeadHash { at_relay_block_number: relay_block_number, head_hash };
        if self.tracker.is_imported(imported, bridge_parachains_pallet_name, &seen) {
            ParachainsAction::Idle
        } else {
            ParachainsAction::Submit(seen)
        }
    }
}

/// A header is not submitted twice in a row: after a poll that submitted a
/// header, a poll that reports the same best header submits nothing,
/// whatever the target says by then.
pub proof fn lemma_no_resubmission(relay: HeadersRelay, first: HeadersPoll, second: HeadersPoll)
    requires
        relay.spec_on_poll(first).1 is Submit,
        second.source_best == first.source_best,
    ensures
        !(relay.spec_on_poll(first).0.spec_on_poll(second).1 is Submit),
{
}

/// Once a guard has tripped, neither relay submits anything.
pub proof fn lemma_tripped_guard_stops_submissions(
    relay: HeadersRelay,
    poll: HeadersPoll,
    best: Option<BestParaHeadHash>,
    relay_block_number: RelayBlockNumber,
    head: Option<ParaHash>,
    on_target: bool,
)
    requires
        poll.violation is Some,
    ensures
        relay.spec_on_poll(poll) == (relay, HeadersAction::Terminate(poll.violation->0)),
        ParachainsRelay::spec_action(best, poll.violation, relay_block_number, head, on_target)
            == ParachainsAction::Terminate(poll.violation->0),
{
}

/// The numbers of the headers submitted over any run of polls go strictly
/// up, and none is beyond the last header dealt with.
pub proof fn lemma_submissions_strictly_increase(relay: HeadersRelay, polls: Seq<HeadersPoll>)
    ensures
        ({
            let submitted = relay.spec_submitted(polls);
            let after = relay.spec_after(polls);
            &&& forall|i: int, j: int|
                0 <= i < j < submitted.len() ==> (#[trigger] submitted[i]).number < (
                #[trigger] submitted[j]).number
            &&& forall|i: int|
                0 <= i < submitted.len() ==> {
                    &&& after.last_handled is Some
                    &&& (#[trigger] submitted[i]).number <= after.last_handled->0
                    &&& relay.last_handled matches Some(start) ==> start < submitted[i].number
                }
            &&& relay.last_handled matches Some(start) ==> after.last_handled matches Some(end)
                && start <= end
        }),
    decreases polls.len(),
{
    if polls.len() > 0 {
        lemma_submissions_strictly_increase(relay, polls.drop_last());
        let earlier = relay.spec_submitted(polls.drop_last());
        let before = relay.spec_after(polls.drop_last());
        let submitted = relay.spec_submitted(polls);
        match before.spec_on_poll(polls.last()).1 {
            HeadersAction::Submit(header) => {
                assert(submitted == earlier.push(header));
                assert forall|i: int, j: int| 0 <= i < j < submitted.len() implies (
                #[trigger] submitted[i]).number < (#[trigger] submitted[j]).number by {
                    if j < earlier.len() {
                        assert(submitted[i] == earlier[i]);
                        assert(submitted[j] == earlier[j]);
                    } else {
                        assert(submitted[i] == earlier[i]);
                    }
                }
            },
            _ => {
                assert(submitted == earlier);
            },
        }
    }
}

} // verus!
