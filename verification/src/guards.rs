//! Watchers that stop the relay when the world is not as it assumes.
//!
//! Each guard samples one fact at a fixed interval and holds it against what
//! the relay was configured with. A guard only reads. When one finds its
//! invariant broken the monitor is tripped for good, and everything else in
//! the relay stops at its next decision: going on could mean submitting
//! transactions against a wrong picture of the chain.

use vstd::prelude::*;
use crate::primitives::Balance;

verus! {

/// An invariant that was found broken.
#[derive(Clone, Copy, Debug, PartialEq, Eq)]
pub enum InvariantViolation {
    /// The free balance of the relay account fell below the floor.
    BalanceBelowFloor { balance: Balance, floor: Balance },
    /// The chain runs another runtime than the one transactions are signed for.
    SpecVersionChanged { expected: u32, actual: u32 },
}

/// What a guard watches.
#[derive(Clone, Copy, Debug, PartialEq, Eq)]
pub enum GuardKind {
    /// The free balance of the relay account stays at or above `floor`.
    BalanceFloor { floor: Balance },
    /// The runtime of the chain stays at `expected`.
    SpecVersion { expected: u32 },
}

/// What a guard read.
#[derive(Clone, Copy, Debug, PartialEq, Eq)]
pub enum GuardSample {
    /// The free balance of the relay account.
    Balance(Balance),
    /// The version of the runtime specification.
    SpecVersion(u32),
    /// The read failed or timed out.
    Unavailable,
}

/// What a guard concluded.
#[derive(Clone, Copy, Debug, PartialEq, Eq)]
pub enum GuardVerdict {
    /// Nothing is wrong, as far as the sample tells.
    Healthy,
    /// The invariant is broken.
    Violated(InvariantViolation),
}

impl GuardKind {
    /// What the sample says of the invariant. Only a sample of the watched
    /// fact can break it: a failed read is a passing trouble of the network
    /// and says nothing.
    pub open spec fn spec_check(self, sample: GuardSample) -> GuardVerdict {
        match (self, sample) {
            (GuardKind::BalanceFloor { floor }, GuardSample::Balance(balance)) => if balance
                < floor {
                GuardVerdict::Violated(InvariantViolation::BalanceBelowFloor { balance, floor })
            } else {
                GuardVerdict::Healthy
            },
            (GuardKind::SpecVersion { expected }, GuardSample::SpecVersion(actual)) => if actual
                != expected {
                GuardVerdict::Violated(InvariantViolation::SpecVersionChanged { expected, actual })
            } else {
                GuardVerdict::Healthy
            },
            _ => GuardVerdict::Healthy,
        }
    }

    /// Holds the sample against the invariant.
    pub fn check(&self, sample: GuardSample) -> (verdict: GuardVerdict)
        ensures
            verdict == self.spec_check(sample),
    {
        match (self, sample) {
            (GuardKind::BalanceFloor { floor }, GuardSample::Balance(balance)) => {
                if balance < *floor {
                    GuardVerdict::Violated(
                        InvariantViolation::BalanceBelowFloor { balance, floor: *floor },
                    )
                } else {
                    GuardVerdict::Healthy
                }
            },
            (GuardKind::SpecVersion { expected }, GuardSample::SpecVersion(actual)) => {
                if actual != *expected {
                    GuardVerdict::Violated(
                        InvariantViolation::SpecVersionChanged { expected: *expected, actual },
                    )
                } else {
                    GuardVerdict::Healthy
                }
            },
            _ => GuardVerdict::Healthy,
        }
    }
}

/// One guard and its schedule.
#[derive(Clone, Copy, Debug, PartialEq, Eq)]
pub struct Guard {
    /// What is watched.
    pub kind: GuardKind,
    /// Time between two samples, in milliseconds.
    pub interval_ms: u64,
    /// When the next sample is due, in milliseconds of the caller's clock.
    pub next_due_ms: u64,
}

impl Guard {
    /// When the sample after one taken at `now_ms` is due.
    pub open spec fn spec_next_due(self, now_ms: u64) -> u64 {
        if now_ms + self.interval_ms > u64::MAX {
            u64::MAX
        } else {
            (now_ms + self.interval_ms) as u64
        }
    }

    /// A guard whose first sample is due at once.
    pub fn new(kind: GuardKind, interval_ms: u64) -> (guard: Guard)
        ensures
            guard == (Guard { kind, interval_ms, next_due_ms: 0 }),
    {
        Guard { kind, interval_ms, next_due_ms: 0 }
    }

    /// Whether a sample is due at `now_ms`.
    pub fn is_due(&self, now_ms: u64) -> (due: bool)
        ensures
            due == (now_ms >= self.next_due_ms),
    {
        now_ms >= self.next_due_ms
    }
}

/// The guards of one relay, and whether one of them has tripped.
pub struct GuardMonitor {
    guards: Vec<Guard>,
    tripped: Option<InvariantViolation>,
}

impl GuardMonitor {
    /// The guards, in the order they were given.
    pub closed spec fn spec_guards(&self) -> Seq<Guard> {
        self.guards@
    }

    /// The first violation found, if any.
    pub closed spec fn spec_violation(&self) -> Option<InvariantViolation> {
        self.tripped
    }

    /// The violation held after a guard gave `verdict`: the first one found
    /// stays.
    pub open spec fn spec_trip(
        tripped: Option<InvariantViolation>,
        verdict: GuardVerdict,
    ) -> Option<InvariantViolation> {
        match (tripped, verdict) {
            (None, GuardVerdict::Violated(violation)) => Some(violation),
            _ => tripped,
        }
    }

    /// A monitor of the given guards that has found nothing yet.
    pub fn new(guards: Vec<Guard>) -> (monitor: GuardMonitor)
        ensures
            monitor.spec_guards() == guards@,
            monitor.spec_violation() is None,
    {
        GuardMonitor { guards, tripped: None }
    }

    /// Number of guards.
    pub fn len(&self) -> (len: usize)
        ensures
            len == self.spec_guards().len(),
    {
        self.guards.len()
    }

    /// The guard at `index`.
    pub fn guard(&self, index: usize) -> (guard: Option<Guard>)
        ensures
            guard == if index < self.spec_guards().len() {
                Some(self.spec_guards()[index as int])
            } else {
                None
            },
    {
        if index < self.guards.len() {
            Some(self.guards[index])
        } else {
            None
        }
    }

    /// The first violation found, if any.
    pub fn violation(&self) -> (violation: Option<InvariantViolation>)
        ensures
            violation == self.spec_violation(),
    {
        self.tripped
    }

    /// Whether the relay has to stop.
    pub fn is_tripped(&self) -> (tripped: bool)
        ensures
            tripped == self.spec_violation() is Some,
    {
        self.tripped.is_some()
    }

    /// The guard whose sample is due first, if there is a guard at all: the
    /// earliest due time, and among equals the lowest index.
    pub fn next_due(&self) -> (next: Option<usize>)
        ensures
            next is None <==> self.spec_guards().len() == 0,
            next matches Some(at) ==> {
                &&& at < self.spec_guards().len()
                &&& forall|i: int|
                    0 <= i < self.spec_guards().len() ==> self.spec_guards()[at as int].next_due_ms
                        <= (#[trigger] self.spec_guards()[i]).next_due_ms
                &&& forall|i: int|
                    0 <= i < at ==> self.spec_guards()[at as int].next_due_ms < (
                    #[trigger] self.spec_guards()[i]).next_due_ms
            },
    {
        if self.guards.len() == 0 {
            return None;
        }
        let mut at: usize = 0;
        let mut i: usize = 1;
        while i < self.guards.len()
            invariant
                at < i <= self.guards@.len(),
                forall|j: int|
                    0 <= j < i ==> self.guards@[at as int].next_due_ms <= (
                    #[trigger] self.guards@[j]).next_due_ms,
                forall|j: int|
                    0 <= j < at ==> self.guards@[at as int].next_due_ms < (
                    #[trigger] self.guards@[j]).next_due_ms,
            decreases self.guards@.len() - i,
        {
            if self.guards[i].next_due_ms < self.guards[at].next_due_ms {
                at = i;
            }
            i = i + 1;
        }
        Some(at)
    }

    /// Takes the sample that the guard at `index` read at `now_ms`. The guard
    /// is scheduled again one interval later. A broken invariant trips the
    /// monitor, and a tripped monitor stays tripped with the first violation.
    /// An index beyond the guards changes nothing.
    pub fn record(&mut self, index: usize, now_ms: u64, sample: GuardSample) -> (verdict:
        GuardVerdict)
        ensures
            index >= old(self).spec_guards().len() ==> {
                &&& verdict == GuardVerdict::Healthy
                &&& final(self).spec_guards() == old(self).spec_guards()
                &&& final(self).spec_violation() == old(self).spec_violation()
            },
            index < old(self).spec_guards().len() ==> {
                let guard = old(self).spec_guards()[index as int];
                &&& verdict == guard.kind.spec_check(sample)
                &&& final(self).spec_guards() == old(self).spec_guards().update(
                    index as int,
                    (Guard { next_due_ms: guard.spec_next_due(now_ms), ..guard }),
                )
                &&& final(self).spec_violation() == Self::spec_trip(
                    old(self).spec_violation(),
                    verdict,
                )
            },
    {
        if index >= self.guards.len() {
            return GuardVerdict::Healthy;
        }
        let guard = self.guards[index];
        let verdict = guard.kind.check(sample);
        let next_due_ms = now_ms.saturating_add(guard.interval_ms);
        self.guards.set(
            index,
            Guard { kind: guard.kind, interval_ms: guard.interval_ms, next_due_ms },
        );
        match (self.tripped, verdict) {
            (None, GuardVerdict::Violated(violation)) => {
                self.tripped = Some(violation);
            },
            _ => {},
        }
        verdict
    }
}

/// A balance below the floor trips its guard at the next sample, and only
/// such a balance does.
pub proof fn lemma_balance_guard_trips(floor: Balance, balance: Balance)
    ensures
        (GuardKind::BalanceFloor { floor }).spec_check(GuardSample::Balance(balance))
            is Violated <==> balance < floor,
{
}

/// A runtime other than the expected one trips its guard at the next
/// sample, and only such a runtime does.
pub proof fn lemma_spec_version_guard_trips(expected: u32, actual: u32)
    ensures
        (GuardKind::SpecVersion { expected }).spec_check(GuardSample::SpecVersion(actual))
            is Violated <==> actual != expected,
{
}

/// The violation held after the guards gave `verdicts`, first to last.
pub open spec fn spec_trip_all(verdicts: Seq<GuardVerdict>) -> Option<InvariantViolation>
    decreases verdicts.len(),
{
    if verdicts.len() == 0 {
        None
    } else {
        GuardMonitor::spec_trip(spec_trip_all(verdicts.drop_last()), verdicts.last())
    }
}

/// After any run of samples the monitor is tripped exactly if one of them
/// broke an invariant, and it holds the violation of the first that did.
pub proof fn lemma_first_violation_is_kept(verdicts: Seq<GuardVerdict>)
    ensures
        spec_trip_all(verdicts) is None <==> forall|i: int|
            0 <= i < verdicts.len() ==> #[trigger] verdicts[i] == GuardVerdict::Healthy,
        spec_trip_all(verdicts) matches Some(violation) ==> exists|i: int|
            {
                &&& 0 <= i < verdicts.len()
                &&& #[trigger] verdicts[i] == GuardVerdict::Violated(violation)
                &&& forall|j: int| 0 <= j < i ==> #[trigger] verdicts[j] == GuardVerdict::Healthy
            },
    decreases verdicts.len(),
{
    if verdicts.len() > 0 {
        let earlier = verdicts.drop_last();
        lemma_first_violation_is_kept(earlier);
        assert forall|i: int| 0 <= i < earlier.len() implies earlier[i] == verdicts[i] by {}
        match spec_trip_all(earlier) {
            None => {
                match verdicts.last() {
                    GuardVerdict::Healthy => {
                        assert forall|i: int| 0 <= i < verdicts.len() implies #[trigger] verdicts[i]
                            == GuardVerdict::Healthy by {
                            if i < earlier.len() {
                                assert(earlier[i] == GuardVerdict::Healthy);
                            }
                        }
                    },
                    GuardVerdict::Violated(violation) => {
                        let at = verdicts.len() - 1;
                        assert(verdicts[at] == GuardVerdict::Violated(violation));
                        assert forall|j: int| 0 <= j < at implies #[trigger] verdicts[j]
                            == GuardVerdict::Healthy by {
                            assert(earlier[j] == GuardVerdict::Healthy);
                        }
                    },
                }
            },
            Some(violation) => {
                let at = choose|i: int|
                    {
                        &&& 0 <= i < earlier.len()
                        &&& #[trigger] earlier[i] == GuardVerdict::Violated(violation)
                        &&& forall|j: int|
                            0 <= j < i ==> #[trigger] earlier[j] == GuardVerdict::Healthy
                    };
                assert(verdicts[at] == GuardVerdict::Violated(violation));
                assert forall|j: int| 0 <= j < at implies #[trigger] verdicts[j]
                    == GuardVerdict::Healthy by {
                    assert(earlier[j] == GuardVerdict::Healthy);
                }
            },
        }
    }
}

/// A tripped monitor stays tripped, with the violation it first found.
pub proof fn lemma_trip_is_final(violation: InvariantViolation, verdict: GuardVerdict)
    ensures
        GuardMonitor::spec_trip(Some(violation), verdict) == Some(violation),
{
}

} // verus!
