//! Finality of the source chain, as a GRANDPA-style engine sees it.
//!
//! The relay does not take part in consensus. It fetches proofs that the
//! source chain's authorities signed off a header, checks each proof on its
//! own before it spends a transaction on it, and knows how to put together
//! what a light client needs to start from.

use vstd::prelude::*;
use vstd::bytes::spec_u64_to_le_bytes;
use crate::chain::ChainDescriptor;
use crate::codec::{encode_h256, encode_u64};
use crate::primitives::{append_bytes, bytes_equal, BlockNumberType, HeaderId, H256};

verus! {

/// Why the engine could not do what it was asked.
#[derive(Clone, Copy, Debug, PartialEq, Eq)]
pub enum EngineError {
    /// The source node has pruned the proof.
    ProofUnavailable,
    /// The header is not final yet.
    HeaderNotFinalized,
    /// The source chain could not be read.
    SourceUnreachable,
    /// The proof does not hold.
    InvalidProof,
}

/// Public key of an authority.
#[derive(Clone, Copy, Debug, PartialEq, Eq)]
pub struct AuthorityId(pub [u8; 32]);

/// Signature of an authority.
#[derive(Clone, Copy, Debug, PartialEq, Eq)]
pub struct AuthoritySignature(pub [u8; 64]);

/// An authority and the weight of its vote.
#[derive(Clone, Copy, Debug, PartialEq, Eq)]
pub struct Authority {
    /// The public key.
    pub id: AuthorityId,
    /// The weight of a vote.
    pub weight: u64,
}

/// The authorities that may finalize blocks, and the number of their set.
#[derive(Clone, Debug)]
pub struct AuthoritySet {
    /// The authorities.
    pub authorities: Vec<Authority>,
    /// The number of the set.
    pub set_id: u64,
}

/// The vote of one authority for a block to be final.
#[derive(Clone, Copy, Debug, PartialEq, Eq)]
pub struct Precommit {
    /// The block voted for.
    pub target: HeaderId,
    /// Who voted.
    pub authority: AuthorityId,
    /// The signature over the vote.
    pub signature: AuthoritySignature,
}

/// Proof that a header is final: the votes of one round for it.
#[derive(Clone, Debug)]
pub struct FinalityProof {
    /// The voting round.
    pub round: u64,
    /// The header that is final.
    pub target: HeaderId,
    /// The votes.
    pub precommits: Vec<Precommit>,
}

/// What a light client of the source chain starts from.
#[derive(Clone, Debug)]
pub struct InitializationData {
    /// The finalized header to start from.
    pub header: HeaderId,
    /// The authorities that finalize what follows it.
    pub authority_set: AuthoritySet,
    /// Whether the light client starts halted.
    pub is_halted: bool,
}

/// Whether `signature` is a good Ed25519 signature of `message` under the
/// key `public`.
pub uninterp spec fn ed25519_signature_valid(
    signature: Seq<u8>,
    message: Seq<u8>,
    public: Seq<u8>,
) -> bool;

/// Calls `verify` of `sp_core::ed25519::Pair`, which checks the signature
/// over the message against the key and depends on nothing else. The
/// contract only names the result.
#[verifier::external_body]
pub(crate) fn ed25519_verify(signature: &[u8; 64], message: &[u8], public: &[u8; 32]) -> (valid:
    bool)
    ensures
        valid == ed25519_signature_valid(signature@, message@, public@),
{
    let signature = sp_core::ed25519::Signature::from_raw(*signature);
    let public = sp_core::ed25519::Public::from_raw(*public);
    <sp_core::ed25519::Pair as sp_core::Pair>::verify(&signature, message, &public)
}

/// The bytes that an authority signs to vote for `target` in `round` of the
/// set `set_id`: the tag of a precommit, the hash of the block, its number
/// in the chain's type, the round and the set, numbers least significant
/// byte first.
pub open spec fn spec_precommit_payload(
    numbers: BlockNumberType,
    target: HeaderId,
    round: u64,
    set_id: u64,
) -> Seq<u8> {
    seq![1u8] + target.hash@ + numbers.spec_encode(target.number) + spec_u64_to_le_bytes(round)
        + spec_u64_to_le_bytes(set_id)
}

/// The bytes that an authority signs to vote for `target`, if the chain can
/// have a block of that number.
pub fn precommit_payload(numbers: BlockNumberType, target: &HeaderId, round: u64, set_id: u64) -> (payload:
    Option<Vec<u8>>)
    ensures
        payload is Some <==> target.number <= numbers.spec_max(),
        payload matches Some(bytes) ==> bytes@ == spec_precommit_payload(
            numbers,
            *target,
            round,
            set_id,
        ),
{
    let number = match numbers.encode(target.number) {
        Some(number) => number,
        None => {
            return None;
        },
    };
    let mut payload: Vec<u8> = Vec::new();
    payload.push(1u8);
    assert(payload@ == seq![1u8]);
    let hash = encode_h256(&target.hash);
    append_bytes(&mut payload, hash.as_slice());
    append_bytes(&mut payload, number.as_slice());
    let round_bytes = encode_u64(round);
    append_bytes(&mut payload, round_bytes.as_slice());
    let set_bytes = encode_u64(set_id);
    append_bytes(&mut payload, set_bytes.as_slice());
    Some(payload)
}

/// The position of the first of the first `upto` authorities that has the
/// key `id`.
pub open spec fn spec_first(authorities: Seq<Authority>, id: AuthorityId, upto: int) -> Option<int>
    decreases upto,
{
    if upto <= 0 {
        None
    } else {
        match spec_first(authorities, id, upto - 1) {
            Some(at) => Some(at),
            None => if authorities[upto - 1].id == id {
                Some(upto - 1)
            } else {
                None
            },
        }
    }
}

/// The weight of the vote of `id`: that of its first entry in the set, and
/// nothing for a stranger.
pub open spec fn spec_weight_of(authorities: Seq<Authority>, id: AuthorityId) -> nat {
    match spec_first(authorities, id, authorities.len() as int) {
        Some(at) => authorities[at].weight as nat,
        None => 0,
    }
}

/// The weight of the first `upto` authorities together.
pub open spec fn spec_total_weight(authorities: Seq<Authority>, upto: int) -> nat
    decreases upto,
{
    if upto <= 0 {
        0
    } else {
        spec_total_weight(authorities, upto - 1) + authorities[upto - 1].weight as nat
    }
}

/// The weight behind the first `upto` votes together.
pub open spec fn spec_signed_weight(
    authorities: Seq<Authority>,
    precommits: Seq<Precommit>,
    upto: int,
) -> nat
    decreases upto,
{
    if upto <= 0 {
        0
    } else {
        spec_signed_weight(authorities, precommits, upto - 1) + spec_weight_of(
            authorities,
            precommits[upto - 1].authority,
        )
    }
}

/// The weight that finality takes: all but what fewer than a third may hold.
pub open spec fn spec_threshold(total: nat) -> nat {
    if total == 0 {
        0
    } else {
        (total - (total - 1) / 3) as nat
    }
}

/// Whether one vote counts: it is for `target`, its authority is in the set,
/// and its signature is good.
pub open spec fn spec_precommit_valid(
    numbers: BlockNumberType,
    authorities: Seq<Authority>,
    set_id: u64,
    round: u64,
    target: HeaderId,
    precommit: Precommit,
) -> bool {
    &&& precommit.target == target
    &&& spec_first(authorities, precommit.authority, authorities.len() as int) is Some
    &&& ed25519_signature_valid(
        precommit.signature.0@,
        spec_precommit_payload(numbers, target, round, set_id),
        precommit.authority.0@,
    )
}

/// Whether a proof shows `header` final under the given authorities of a
/// chain that counts its blocks in `numbers`: it is for that header, the
/// chain can have a block of that number, every vote counts, no authority
/// votes twice, and the votes weigh enough.
pub open spec fn spec_proof_valid(
    numbers: BlockNumberType,
    header: HeaderId,
    round: u64,
    target: HeaderId,
    precommits: Seq<Precommit>,
    authorities: Seq<Authority>,
    set_id: u64,
) -> bool {
    &&& target == header
    &&& target.number <= numbers.spec_max()
    &&& spec_total_weight(authorities, authorities.len() as int) > 0
    &&& forall|i: int|
        0 <= i < precommits.len() ==> spec_precommit_valid(
            numbers,
            authorities,
            set_id,
            round,
            target,
            #[trigger] precommits[i],
        )
    &&& forall|i: int, j: int|
        0 <= i < j < precommits.len() ==> (#[trigger] precommits[i]).authority != (
        #[trigger] precommits[j]).authority
    &&& spec_signed_weight(authorities, precommits, precommits.len() as int) >= spec_threshold(
        spec_total_weight(authorities, authorities.len() as int),
    )
}

impl AuthorityId {
    /// Whether the two are the same key.
    pub fn same_as(&self, other: &AuthorityId) -> (same: bool)
        ensures
            same == (*self == *other),
    {
        let same = bytes_equal(self.0.as_slice(), other.0.as_slice());
        proof {
            if same {
                assert(self.0 =~= other.0);
            }
        }
        same
    }
}

impl AuthoritySet {
    /// The weight of the vote of `id`, if it is in the set.
    pub fn weight_of(&self, id: &AuthorityId) -> (weight: Option<u64>)
        ensures
            weight is Some <==> spec_first(self.authorities@, *id, self.authorities@.len() as int)
                is Some,
            weight matches Some(w) ==> w == spec_weight_of(self.authorities@, *id),
    {
        let mut i: usize = 0;
        while i < self.authorities.len()
            invariant
                i <= self.authorities@.len(),
                spec_first(self.authorities@, *id, i as int) is None,
            decreases self.authorities@.len() - i,
        {
            if self.authorities[i].id.same_as(id) {
                proof {
                    lemma_first_is_stable(
                        self.authorities@,
                        *id,
                        i + 1,
                        self.authorities@.len() as int,
                    );
                }
                return Some(self.authorities[i].weight);
            }
            i = i + 1;
        }
        None
    }

    /// The weight of all authorities together.
    pub fn total_weight(&self) -> (total: u128)
        ensures
            total == spec_total_weight(self.authorities@, self.authorities@.len() as int),
    {
        let mut total: u128 = 0;
        let mut i: usize = 0;
        while i < self.authorities.len()
            invariant
                i <= self.authorities@.len(),
                total == spec_total_weight(self.authorities@, i as int),
                total <= i * u64::MAX,
            decreases self.authorities@.len() - i,
        {
            assert((i + 1) * u64::MAX <= usize::MAX * u64::MAX) by (nonlinear_arith)
                requires
                    i < usize::MAX,
            ;
            assert(usize::MAX * u64::MAX <= u64::MAX * u64::MAX) by (nonlinear_arith)
                requires
                    usize::MAX <= u64::MAX,
            ;
            assert((i + 1) * u64::MAX == i * u64::MAX + u64::MAX) by (nonlinear_arith);
            total = total + self.authorities[i].weight as u128;
            i = i + 1;
        }
        total
    }
}

/// The weight that finality takes is more than two thirds of the whole, and
/// no more than the whole.
pub proof fn lemma_threshold_is_supermajority(total: nat)
    requires
        total > 0,
    ensures
        3 * spec_threshold(total) > 2 * total,
        spec_threshold(total) <= total,
{
}

/// The votes of a valid proof weigh more than two thirds of the set.
pub proof fn lemma_valid_proof_has_supermajority(
    numbers: BlockNumberType,
    header: HeaderId,
    round: u64,
    target: HeaderId,
    precommits: Seq<Precommit>,
    authorities: Seq<Authority>,
    set_id: u64,
)
    requires
        spec_proof_valid(numbers, header, round, target, precommits, authorities, set_id),
    ensures
        3 * spec_signed_weight(authorities, precommits, precommits.len() as int) > 2
            * spec_total_weight(authorities, authorities.len() as int),
{
    lemma_threshold_is_supermajority(spec_total_weight(authorities, authorities.len() as int));
}

/// Once found, the first entry stays the first however far one looks.
proof fn lemma_first_is_stable(authorities: Seq<Authority>, id: AuthorityId, found: int, upto: int)
    requires
        spec_first(authorities, id, found) is Some,
        found <= upto,
    ensures
        spec_first(authorities, id, upto) == spec_first(authorities, id, found),
    decreases upto - found,
{
    if found < upto {
        lemma_first_is_stable(authorities, id, found, upto - 1);
    }
}

/// A consensus-proof scheme that the relay understands.
#[derive(Clone, Copy, Debug, PartialEq, Eq)]
pub enum FinalityEngine {
    /// The GRANDPA finality gadget.
    Grandpa,
}

impl FinalityEngine {
    /// Whether `best` is what an answer of the `best_finalized` runtime
    /// method says on a chain that counts its blocks in `numbers`: a first
    /// byte of zero says that nothing is final yet, a first byte of one is
    /// followed by the number and the hash of the best finalized header, and
    /// anything else cannot be read.
    pub open spec fn spec_best_finalized(
        numbers: BlockNumberType,
        answer: Seq<u8>,
        best: Result<Option<HeaderId>, EngineError>,
    ) -> bool {
        let len = numbers.spec_encoded_len() as int;
        if answer.len() >= 1 && answer[0] == 0 {
            best == Ok::<Option<HeaderId>, EngineError>(None)
        } else if answer.len() >= 1 + len + 32 && answer[0] == 1 {
            &&& best matches Ok(Some(id))
            &&& id.number == numbers.spec_decode(answer.subrange(1, answer.len() as int))
            &&& id.hash@ == answer.subrange(1 + len, 1 + len + 32)
        } else {
            best == Err::<Option<HeaderId>, EngineError>(EngineError::SourceUnreachable)
        }
    }

    /// Reads the answer of the `best_finalized` runtime method for the
    /// chain `source`. `None` means that the source has no finalized header
    /// yet. An answer that cannot be read counts as a failure to reach the
    /// source.
    pub fn best_finalized(&self, source: &ChainDescriptor, answer: &[u8]) -> (best: Result<
        Option<HeaderId>,
        EngineError,
    >)
        ensures
            Self::spec_best_finalized(source.spec_types().block_number, answer@, best),
    {
        let numbers = source.types().block_number;
        let len = numbers.encoded_len();
        if answer.len() >= 1 && answer[0] == 0 {
            return Ok(None);
        }
        if answer.len() < 1 + len + 32 || answer[0] != 1 {
            return Err(EngineError::SourceUnreachable);
        }
        let (_, rest) = answer.split_at(1);
        assert(rest@ == answer@.subrange(1, answer@.len() as int));
        let number = match numbers.decode(rest) {
            Some(number) => number,
            None => {
                return Err(EngineError::SourceUnreachable);
            },
        };
        let hash = H256::from_slice_at(answer, 1 + len);
        Ok(Some(HeaderId { number, hash }))
    }

    /// Decides what to hand out when a proof for `header` is asked for.
    /// `best` is the best finalized header of the source and `stored` the
    /// proof that the source node returned, if it still has one.
    pub open spec fn spec_finality_proof_for(
        best: Option<HeaderId>,
        header: HeaderId,
        stored: Option<FinalityProof>,
    ) -> Result<FinalityProof, EngineError> {
        match best {
            None => Err(EngineError::HeaderNotFinalized),
            Some(best) => if header.number > best.number {
                Err(EngineError::HeaderNotFinalized)
            } else {
                match stored {
                    None => Err(EngineError::ProofUnavailable),
                    Some(proof) => if proof.target == header {
                        Ok(proof)
                    } else {
                        Err(EngineError::InvalidProof)
                    },
                }
            },
        }
    }

    /// The proof that `header` is final. A header beyond the best finalized
    /// one is not final yet; a final header whose proof the node no longer
    /// has is unavailable; a proof for another header is invalid.
    pub fn finality_proof_for(
        &self,
        best: Option<HeaderId>,
        header: HeaderId,
        stored: Option<FinalityProof>,
    ) -> (proof: Result<FinalityProof, EngineError>)
        ensures
            proof == Self::spec_finality_proof_for(best, header, stored),
    {
        match best {
            None => Err(EngineError::HeaderNotFinalized),
            Some(best) => {
                if header.number > best.number {
                    Err(EngineError::HeaderNotFinalized)
                } else {
                    match stored {
                        None => Err(EngineError::ProofUnavailable),
                        Some(proof) => {
                            if proof.target.same_as(&header) {
                                Ok(proof)
                            } else {
                                Err(EngineError::InvalidProof)
                            }
                        },
                    }
                }
            },
        }
    }

    /// Puts together what a light client starts from. `header` and
    /// `authority_set` are what was read from the source, `None` where the
    /// read failed.
    pub fn initialization_data(
        &self,
        header: Option<HeaderId>,
        authority_set: Option<AuthoritySet>,
    ) -> (data: Result<InitializationData, EngineError>)
        ensures
            data is Ok <==> header is Some && authority_set is Some,
            data matches Ok(d) ==> d.header == header->0 && d.authority_set == authority_set->0
                && !d.is_halted,
            data matches Err(e) ==> e == EngineError::SourceUnreachable,
    {
        match (header, authority_set) {
            (Some(header), Some(authority_set)) => Ok(
                InitializationData { header, authority_set, is_halted: false },
            ),
            _ => Err(EngineError::SourceUnreachable),
        }
    }

    /// Checks a proof of the chain `source` on its own, before a transaction
    /// is spent on it: that it is for `header`, that every vote is for it,
    /// comes from an authority of the set and is signed by it, that no
    /// authority votes twice, and that the votes weigh more than two thirds
    /// of the set.
    pub fn verify_proof(
        &self,
        source: &ChainDescriptor,
        header: &HeaderId,
        proof: &FinalityProof,
        authority_set: &AuthoritySet,
    ) -> (checked: Result<(), EngineError>)
        ensures
            checked is Ok <==> spec_proof_valid(
                source.spec_types().block_number,
                *header,
                proof.round,
                proof.target,
                proof.precommits@,
                authority_set.authorities@,
                authority_set.set_id,
            ),
            checked matches Err(e) ==> e == EngineError::InvalidProof,
    {
        if !proof.target.same_as(header) {
            return Err(EngineError::InvalidProof);
        }
        let total = authority_set.total_weight();
        if total == 0 {
            return Err(EngineError::InvalidProof);
        }
        let threshold: u128 = total - (total - 1) / 3;
        let numbers = source.types().block_number;
        let payload = match precommit_payload(
            numbers,
            &proof.target,
            proof.round,
            authority_set.set_id,
        ) {
            Some(payload) => payload,
            None => {
                return Err(EngineError::InvalidProof);
            },
        };
        let mut signed: u128 = 0;
        let mut i: usize = 0;
        while i < proof.precommits.len()
            invariant
                i <= proof.precommits@.len(),
                numbers == source.spec_types().block_number,
                payload@ == spec_precommit_payload(
                    numbers,
                    proof.target,
                    proof.round,
                    authority_set.set_id,
                ),
                forall|k: int|
                    0 <= k < i ==> spec_precommit_valid(
                        numbers,
                        authority_set.authorities@,
                        authority_set.set_id,
                        proof.round,
                        proof.target,
                        #[trigger] proof.precommits@[k],
                    ),
                forall|a: int, b: int|
                    0 <= a < b < i ==> (#[trigger] proof.precommits@[a]).authority != (
                    #[trigger] proof.precommits@[b]).authority,
                signed == spec_signed_weight(
                    authority_set.authorities@,
                    proof.precommits@,
                    i as int,
                ),
                signed <= i * u64::MAX,
            decreases proof.precommits@.len() - i,
        {
            let precommit = proof.precommits[i];
            if !precommit.target.same_as(&proof.target) {
                return Err(EngineError::InvalidProof);
            }
            let weight = match authority_set.weight_of(&precommit.authority) {
                Some(weight) => weight,
                None => {
                    return Err(EngineError::InvalidProof);
                },
            };
            let mut j: usize = 0;
            while j < i
                invariant
                    j <= i < proof.precommits@.len(),
                    precommit == proof.precommits@[i as int],
                    forall|a: int|
                        0 <= a < j ==> (#[trigger] proof.precommits@[a]).authority
                            != precommit.authority,
                decreases i - j,
            {
                if proof.precommits[j].authority.same_as(&precommit.authority) {
                    return Err(EngineError::InvalidProof);
                }
                j = j + 1;
            }
            if !ed25519_verify(&precommit.signature.0, payload.as_slice(), &precommit.authority.0) {
                return Err(EngineError::InvalidProof);
            }
            assert((i + 1) * u64::MAX <= usize::MAX * u64::MAX) by (nonlinear_arith)
                requires
                    i < usize::MAX,
            ;
            assert(usize::MAX * u64::MAX <= u64::MAX * u64::MAX) by (nonlinear_arith)
                requires
                    usize::MAX <= u64::MAX,
            ;
            assert((i + 1) * u64::MAX == i * u64::MAX + u64::MAX) by (nonlinear_arith);
            signed = signed + weight as u128;
            i = i + 1;
        }
        if signed >= threshold {
            Ok(())
        } else {
            Err(EngineError::InvalidProof)
        }
    }
}

} // verus!
