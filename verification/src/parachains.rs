//! Parachain heads as seen through a relay chain.
//!
//! A parachain head is opaque to the relay chain, so heads are never compared
//! by their own block numbers. What orders them is the relay block at which
//! each was read: the relay chain imports heads in order, so a head read at a
//! finalized relay block is an ancestor of (or equal to) any head read later.

use vstd::prelude::*;
use vstd::bytes::{
    lemma_auto_spec_u32_to_from_le_bytes, spec_u32_from_le_bytes, spec_u32_to_le_bytes,
};
use crate::codec::{decode_u32, encode_h256, encode_u32};
use crate::primitives::{append_bytes, H256};
use crate::hashing::blake2_128_digest;
use crate::storage::{
    double_map_key, lemma_concat_split, lemma_single_map_key_determines_key, single_map_key,
    spec_double_map_key, spec_map_prefix, spec_single_map_key, HashScheme, StorageIndex,
    StorageKey,
};

verus! {

/// Number of a relay chain block.
pub type RelayBlockNumber = u32;

/// Hash of a parachain head.
pub type ParaHash = H256;

/// Identifier of a parachain.
#[derive(Clone, Copy, Debug, PartialEq, Eq)]
pub struct ParaId(pub u32);

/// Best known parachain head hash.
#[derive(Clone, Copy, Debug, PartialEq)]
pub struct BestParaHeadHash {
    /// Number of the relay block where this head has been read.
    pub at_relay_block_number: RelayBlockNumber,
    /// Hash of the parachain head.
    pub head_hash: ParaHash,
}

/// Length of an encoded [`BestParaHeadHash`].
pub const BEST_PARA_HEAD_HASH_ENCODED_LEN: usize = 36;

impl BestParaHeadHash {
    /// The SCALE encoding: the block number, least significant byte first,
    /// then the hash.
    pub open spec fn spec_encode(self) -> Seq<u8> {
        spec_u32_to_le_bytes(self.at_relay_block_number) + self.head_hash@
    }

    /// Whether `bytes` starts with the encoding of `self`.
    pub open spec fn spec_decoded_from(self, bytes: Seq<u8>) -> bool {
        &&& bytes.len() >= 36
        &&& self.at_relay_block_number == spec_u32_from_le_bytes(bytes.subrange(0, 4))
        &&& self.head_hash@ == bytes.subrange(4, 36)
    }

    /// Encodes the value as the runtime stores it.
    pub fn encode(&self) -> (bytes: Vec<u8>)
        ensures
            bytes@ == self.spec_encode(),
    {
        let mut bytes = encode_u32(self.at_relay_block_number);
        let hash = encode_h256(&self.head_hash);
        append_bytes(&mut bytes, hash.as_slice());
        bytes
    }

    /// Decodes a value from the front of `bytes`; what follows it is ignored.
    pub fn decode(bytes: &[u8]) -> (decoded: Option<BestParaHeadHash>)
        ensures
            decoded is Some <==> bytes@.len() >= 36,
            decoded matches Some(value) ==> value.spec_decoded_from(bytes@),
    {
        if bytes.len() < BEST_PARA_HEAD_HASH_ENCODED_LEN {
            return None;
        }
        let at_relay_block_number = match decode_u32(bytes) {
            Some(number) => number,
            None => {
                return None;
            },
        };
        let head_hash = H256::from_slice_at(bytes, 4);
        Some(BestParaHeadHash { at_relay_block_number, head_hash })
    }
}

/// Decoding an encoded value gives the value back, and nothing else.
pub proof fn lemma_best_para_head_hash_round_trip(value: BestParaHeadHash, other: BestParaHeadHash)
    ensures
        value.spec_encode().len() == 36,
        value.spec_decoded_from(value.spec_encode()),
        other.spec_decoded_from(value.spec_encode()) ==> other == value,
{
    lemma_auto_spec_u32_to_from_le_bytes();
    let bytes = value.spec_encode();
    assert(bytes.subrange(0, 4) == spec_u32_to_le_bytes(value.at_relay_block_number));
    assert(bytes.subrange(4, 36) == value.head_hash@);
    if other.spec_decoded_from(bytes) {
        assert(other.head_hash.0 =~= value.head_hash.0);
    }
}

/// The address of the head of `para_id` in the `Heads` map of the relay
/// chain's parachains pallet.
pub open spec fn spec_parachain_head_storage_key_at_source(
    paras_pallet_name: Seq<char>,
    para_id: ParaId,
) -> Seq<u8> {
    spec_single_map_key(
        paras_pallet_name,
        "Heads"@,
        spec_u32_to_le_bytes(para_id.0),
        HashScheme::Twox64Concat,
    )
}

/// The address of the best known head of `para_id` in the `BestParaHeads`
/// map of the bridge pallet at the target chain.
pub open spec fn spec_best_parachain_head_hash_storage_key_at_target(
    bridge_parachains_pallet_name: Seq<char>,
    para_id: ParaId,
) -> Seq<u8> {
    spec_single_map_key(
        bridge_parachains_pallet_name,
        "BestParaHeads"@,
        spec_u32_to_le_bytes(para_id.0),
        HashScheme::Blake2_128Concat,
    )
}

/// The address of the head `head_hash` of `para_id` in the
/// `ImportedParaHeads` double map of the bridge pallet at the target chain.
pub open spec fn spec_imported_parachain_head_storage_key_at_target(
    bridge_parachains_pallet_name: Seq<char>,
    para_id: ParaId,
    head_hash: ParaHash,
) -> Seq<u8> {
    spec_double_map_key(
        bridge_parachains_pallet_name,
        "ImportedParaHeads"@,
        spec_u32_to_le_bytes(para_id.0),
        HashScheme::Blake2_128Concat,
        head_hash@,
        HashScheme::Blake2_128Concat,
    )
}

/// Returns runtime storage key of given parachain head at the source chain.
///
/// The head is stored by the `paras` pallet in the `Heads` map.
pub fn parachain_head_storage_key_at_source(paras_pallet_name: &str, para_id: ParaId) -> (key:
    StorageKey)
    ensures
        key@ == spec_parachain_head_storage_key_at_source(paras_pallet_name@, para_id),
{
    let encoded_id = encode_u32(para_id.0);
    single_map_key(paras_pallet_name, "Heads", encoded_id.as_slice(), HashScheme::Twox64Concat)
}

/// Returns runtime storage key of best known parachain head at the target chain.
///
/// The head is stored by the bridge parachains pallet in the `BestParaHeads` map.
pub fn best_parachain_head_hash_storage_key_at_target(
    bridge_parachains_pallet_name: &str,
    para_id: ParaId,
) -> (key: StorageKey)
    ensures
        key@ == spec_best_parachain_head_hash_storage_key_at_target(
            bridge_parachains_pallet_name@,
            para_id,
        ),
{
    let encoded_id = encode_u32(para_id.0);
    single_map_key(
        bridge_parachains_pallet_name,
        "BestParaHeads",
        encoded_id.as_slice(),
        HashScheme::Blake2_128Concat,
    )
}

/// Returns runtime storage key of the parachain head with given hash at the target chain.
///
/// The head is stored by the bridge parachains pallet in the `ImportedParaHeads` map.
pub fn imported_parachain_head_storage_key_at_target(
    bridge_parachains_pallet_name: &str,
    para_id: ParaId,
    head_hash: ParaHash,
) -> (key: StorageKey)
    ensures
        key@ == spec_imported_parachain_head_storage_key_at_target(
            bridge_parachains_pallet_name@,
            para_id,
            head_hash,
        ),
{
    let encoded_id = encode_u32(para_id.0);
    let encoded_hash = encode_h256(&head_hash);
    double_map_key(
        bridge_parachains_pallet_name,
        "ImportedParaHeads",
        encoded_id.as_slice(),
        HashScheme::Blake2_128Concat,
        encoded_hash.as_slice(),
        HashScheme::Blake2_128Concat,
    )
}

/// What the tracker holds after it is shown `seen` while holding `best`: a
/// head read at a later relay block replaces the stored one, any other is
/// dropped.
pub open spec fn spec_observe(best: Option<BestParaHeadHash>, seen: BestParaHeadHash) -> Option<
    BestParaHeadHash,
> {
    match best {
        Some(current) => if seen.at_relay_block_number <= current.at_relay_block_number {
            best
        } else {
            Some(seen)
        },
        None => Some(seen),
    }
}

/// What the tracker holds after it is shown all of `seen`, first to last.
pub open spec fn spec_observe_all(
    best: Option<BestParaHeadHash>,
    seen: Seq<BestParaHeadHash>,
) -> Option<BestParaHeadHash>
    decreases seen.len(),
{
    if seen.len() == 0 {
        best
    } else {
        spec_observe(spec_observe_all(best, seen.drop_last()), seen.last())
    }
}

/// Tracks the best known head of one parachain of one relay chain.
///
/// It starts with no head and from the first observation on always holds one.
pub struct ParachainHeadTracker {
    para_id: ParaId,
    best: Option<BestParaHeadHash>,
}

impl ParachainHeadTracker {
    /// The parachain that is tracked.
    pub closed spec fn spec_para_id(&self) -> ParaId {
        self.para_id
    }

    /// The best head known so far.
    pub closed spec fn spec_best(&self) -> Option<BestParaHeadHash> {
        self.best
    }

    /// A tracker for `para_id` that has seen nothing yet.
    pub fn new(para_id: ParaId) -> (tracker: ParachainHeadTracker)
        ensures
            tracker.spec_para_id() == para_id,
            tracker.spec_best() is None,
    {
        ParachainHeadTracker { para_id, best: None }
    }

    /// The parachain that is tracked.
    pub fn para_id(&self) -> (para_id: ParaId)
        ensures
            para_id == self.spec_para_id(),
    {
        self.para_id
    }

    /// Records that `head_hash` was read at the finalized relay block
    /// `relay_block_number`, and tells whether that changed the best head.
    ///
    /// Relay chain finality only moves forward, so an observation at a block
    /// that is not after the stored one is stale and is dropped. Blocks may be
    /// skipped between two observations.
    pub fn observe(&mut self, relay_block_number: RelayBlockNumber, head_hash: ParaHash) -> (applied:
        bool)
        ensures
            final(self).spec_para_id() == old(self).spec_para_id(),
            final(self).spec_best() == spec_observe(
                old(self).spec_best(),
                (BestParaHeadHash { at_relay_block_number: relay_block_number, head_hash }),
            ),
            applied == match old(self).spec_best() {
                Some(current) => relay_block_number > current.at_relay_block_number,
                None => true,
            },
            !applied ==> *final(self) == *old(self),
    {
        let stale = match &self.best {
            Some(current) => relay_block_number <= current.at_relay_block_number,
            None => false,
        };
        if stale {
            false
        } else {
            self.best = Some(BestParaHeadHash { at_relay_block_number: relay_block_number, head_hash });
            true
        }
    }

    /// The best head known so far, if any was observed.
    pub fn best(&self) -> (best: Option<BestParaHeadHash>)
        ensures
            best == self.spec_best(),
    {
        self.best
    }

    /// Whether the target chain already holds the head `head_hash`, so that
    /// no transaction is needed for it.
    ///
    /// `imported` holds the keys read from the `ImportedParaHeads` map of the
    /// bridge pallet `bridge_parachains_pallet_name` at the target chain. That
    /// map is keyed by parachain and head hash; the relay block at which the
    /// head was read takes no part in the key.
    pub fn is_imported(
        &self,
        imported: &StorageIndex,
        bridge_parachains_pallet_name: &str,
        head: &BestParaHeadHash,
    ) -> (found: bool)
        ensures
            found == imported@.contains(
                spec_imported_parachain_head_storage_key_at_target(
                    bridge_parachains_pallet_name@,
                    self.spec_para_id(),
                    head.head_hash,
                ),
            ),
    {
        let key = imported_parachain_head_storage_key_at_target(
            bridge_parachains_pallet_name,
            self.para_id,
            head.head_hash,
        );
        imported.contains(&key)
    }
}

/// An observation at a relay block that is not after the stored one leaves
/// the stored head as it is.
pub proof fn lemma_stale_observation_ignored(best: BestParaHeadHash, seen: BestParaHeadHash)
    requires
        seen.at_relay_block_number <= best.at_relay_block_number,
    ensures
        spec_observe(Some(best), seen) == Some(best),
{
}

/// After any sequence of observations the stored head is the first one read
/// at the highest relay block seen.
pub proof fn lemma_best_is_maximum(seen: Seq<BestParaHeadHash>)
    ensures
        seen.len() == 0 <==> spec_observe_all(None, seen) is None,
        spec_observe_all(None, seen) matches Some(best) ==> {
            &&& forall|i: int|
                0 <= i < seen.len() ==> (#[trigger] seen[i]).at_relay_block_number
                    <= best.at_relay_block_number
            &&& exists|i: int|
                {
                    &&& 0 <= i < seen.len()
                    &&& #[trigger] seen[i] == best
                    &&& forall|j: int|
                        0 <= j < i ==> (#[trigger] seen[j]).at_relay_block_number
                            < best.at_relay_block_number
                }
        },
    decreases seen.len(),
{
    if seen.len() > 0 {
        let earlier = seen.drop_last();
        let last = seen.last();
        lemma_best_is_maximum(earlier);
        let before = spec_observe_all(None, earlier);
        let after = spec_observe_all(None, seen);
        assert(after == spec_observe(before, last));
        assert forall|i: int| 0 <= i < earlier.len() implies earlier[i] == seen[i] by {}
        match before {
            None => {
                assert(earlier.len() == 0);
                let w = seen.len() - 1;
                assert(seen[w] == after->0);
            },
            Some(current) => {
                if last.at_relay_block_number <= current.at_relay_block_number {
                    let w = choose|i: int|
                        {
                            &&& 0 <= i < earlier.len()
                            &&& #[trigger] earlier[i] == current
                            &&& forall|j: int|
                                0 <= j < i ==> (#[trigger] earlier[j]).at_relay_block_number
                                    < current.at_relay_block_number
                        };
                    assert(seen[w] == current);
                    assert forall|j: int| 0 <= j < w implies (#[trigger] seen[j]).at_relay_block_number
                        < current.at_relay_block_number by {
                        assert(earlier[j] == seen[j]);
                    }
                    assert forall|i: int| 0 <= i < seen.len() implies (#[trigger] seen[i]).at_relay_block_number
                        <= current.at_relay_block_number by {
                        if i < earlier.len() {
                            assert(earlier[i] == seen[i]);
                        }
                    }
                } else {
                    let w = seen.len() - 1;
                    assert(seen[w] == last);
                    assert forall|j: int| 0 <= j < w implies (#[trigger] seen[j]).at_relay_block_number
                        < last.at_relay_block_number by {
                        assert(earlier[j] == seen[j]);
                    }
                    assert forall|i: int| 0 <= i < seen.len() implies (#[trigger] seen[i]).at_relay_block_number
                        <= last.at_relay_block_number by {
                        if i < earlier.len() {
                            assert(earlier[i] == seen[i]);
                        }
                    }
                }
            },
        }
    }
}

/// The heads of different parachains live at different addresses of the
/// source chain.
pub proof fn lemma_source_key_determines_parachain(
    pallet1: Seq<char>,
    para1: ParaId,
    pallet2: Seq<char>,
    para2: ParaId,
)
    requires
        spec_parachain_head_storage_key_at_source(pallet1, para1)
            == spec_parachain_head_storage_key_at_source(pallet2, para2),
    ensures
        para1 == para2,
{
    lemma_auto_spec_u32_to_from_le_bytes();
    lemma_single_map_key_determines_key(
        pallet1,
        "Heads"@,
        spec_u32_to_le_bytes(para1.0),
        pallet2,
        "Heads"@,
        spec_u32_to_le_bytes(para2.0),
        HashScheme::Twox64Concat,
    );
}

/// An address in the map of imported heads stands for one parachain and one
/// head: looking a head up never finds another one.
pub proof fn lemma_imported_key_determines_head(
    pallet1: Seq<char>,
    para1: ParaId,
    head1: ParaHash,
    pallet2: Seq<char>,
    para2: ParaId,
    head2: ParaHash,
)
    requires
        spec_imported_parachain_head_storage_key_at_target(pallet1, para1, head1)
            == spec_imported_parachain_head_storage_key_at_target(pallet2, para2, head2),
    ensures
        para1 == para2,
        head1 == head2,
{
    lemma_auto_spec_u32_to_from_le_bytes();
    let map = "ImportedParaHeads"@;
    let id1 = spec_u32_to_le_bytes(para1.0);
    let id2 = spec_u32_to_le_bytes(para2.0);
    let first1 = HashScheme::Blake2_128Concat.spec_hash(id1);
    let first2 = HashScheme::Blake2_128Concat.spec_hash(id2);
    let second1 = HashScheme::Blake2_128Concat.spec_hash(head1@);
    let second2 = HashScheme::Blake2_128Concat.spec_hash(head2@);
    let prefix1 = spec_map_prefix(pallet1, map);
    let prefix2 = spec_map_prefix(pallet2, map);
    assert(prefix1 + first1 + second1 == prefix1 + (first1 + second1));
    assert(prefix2 + first2 + second2 == prefix2 + (first2 + second2));
    lemma_concat_split(prefix1, first1 + second1, prefix2, first2 + second2);
    lemma_concat_split(first1, second1, first2, second2);
    lemma_concat_split(blake2_128_digest(id1)@, id1, blake2_128_digest(id2)@, id2);
    lemma_concat_split(
        blake2_128_digest(head1@)@,
        head1@,
        blake2_128_digest(head2@)@,
        head2@,
    );
    assert(head1.0 =~= head2.0);
}

} // verus!
