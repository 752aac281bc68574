use bridge_relay::parachains::{
    imported_parachain_head_storage_key_at_target, BestParaHeadHash, ParaId, ParachainHeadTracker,
};
use bridge_relay::primitives::H256;
use bridge_relay::storage::StorageIndex;

fn h(byte: u8) -> H256 {
    H256([byte; 32])
}

#[test]
fn tracker_starts_without_a_head() {
    let tracker = ParachainHeadTracker::new(ParaId(2000));
    assert_eq!(tracker.best(), None);
    assert_eq!(tracker.para_id(), ParaId(2000));
}

#[test]
fn first_observation_is_applied() {
    let mut tracker = ParachainHeadTracker::new(ParaId(2000));
    assert!(tracker.observe(0, h(1)));
    assert_eq!(tracker.best(), Some(BestParaHeadHash { at_relay_block_number: 0, head_hash: h(1) }));
}

#[test]
fn stale_observation_leaves_best_unchanged() {
    let mut tracker = ParachainHeadTracker::new(ParaId(2000));
    assert!(tracker.observe(50, h(1)));
    assert!(!tracker.observe(47, h(2)));
    assert_eq!(tracker.best(), Some(BestParaHeadHash { at_relay_block_number: 50, head_hash: h(1) }));
}

#[test]
fn observation_at_same_block_is_ignored() {
    let mut tracker = ParachainHeadTracker::new(ParaId(2000));
    assert!(tracker.observe(50, h(1)));
    assert!(!tracker.observe(50, h(2)));
    assert_eq!(tracker.best(), Some(BestParaHeadHash { at_relay_block_number: 50, head_hash: h(1) }));
}

#[test]
fn tracker_tolerates_gaps_between_relay_blocks() {
    let mut tracker = ParachainHeadTracker::new(ParaId(2000));
    assert!(tracker.observe(10, h(1)));
    assert!(tracker.observe(1_000, h(2)));
    assert!(tracker.observe(u32::MAX, h(3)));
    assert!(!tracker.observe(u32::MAX, h(4)));
    assert_eq!(
        tracker.best(),
        Some(BestParaHeadHash { at_relay_block_number: u32::MAX, head_hash: h(3) })
    );
}

#[test]
fn best_is_first_head_at_highest_block_seen() {
    let seen: Vec<(u32, u8)> =
        vec![(5, 1), (3, 2), (9, 3), (9, 4), (1, 5), (12, 6), (12, 7), (11, 8)];
    let mut tracker = ParachainHeadTracker::new(ParaId(1));
    let mut highest: Option<(u32, u8)> = None;
    for (number, byte) in seen {
        tracker.observe(number, h(byte));
        if highest.map_or(true, |(n, _)| number > n) {
            highest = Some((number, byte));
        }
        let (n, b) = highest.unwrap();
        assert_eq!(
            tracker.best(),
            Some(BestParaHeadHash { at_relay_block_number: n, head_hash: h(b) })
        );
    }
    assert_eq!(tracker.best(), Some(BestParaHeadHash { at_relay_block_number: 12, head_hash: h(6) }));
}

#[test]
fn is_imported_looks_up_the_double_map_key() {
    let tracker = ParachainHeadTracker::new(ParaId(2000));
    let pallet = "BridgeWestendParachains";
    let key = imported_parachain_head_storage_key_at_target(pallet, ParaId(2000), h(1));
    let index = StorageIndex::new(vec![key]);
    let head = BestParaHeadHash { at_relay_block_number: 7, head_hash: h(1) };
    let same_head_later = BestParaHeadHash { at_relay_block_number: 8, head_hash: h(1) };
    let other = BestParaHeadHash { at_relay_block_number: 7, head_hash: h(2) };
    assert!(tracker.is_imported(&index, pallet, &head));
    assert!(tracker.is_imported(&index, pallet, &same_head_later));
    assert!(!tracker.is_imported(&index, pallet, &other));
    assert!(!tracker.is_imported(&index, "BridgeWestendParachain", &head));
    assert!(!ParachainHeadTracker::new(ParaId(2001)).is_imported(&index, pallet, &head));
}

#[test]
fn best_para_head_hash_encodes_number_then_hash() {
    let value = BestParaHeadHash { at_relay_block_number: 0x0102_0304, head_hash: h(0xee) };
    let bytes = value.encode();
    assert_eq!(bytes.len(), 36);
    assert_eq!(bytes[..4], [4, 3, 2, 1]);
    assert_eq!(bytes[4..], [0xee; 32]);
}

#[test]
fn best_para_head_hash_round_trips() {
    let value = BestParaHeadHash { at_relay_block_number: 9140, head_hash: h(0x5a) };
    assert_eq!(BestParaHeadHash::decode(&value.encode()), Some(value));
    let mut longer = value.encode();
    longer.push(0xff);
    assert_eq!(BestParaHeadHash::decode(&longer), Some(value));
}

#[test]
fn best_para_head_hash_decode_refuses_short_input() {
    let value = BestParaHeadHash { at_relay_block_number: 1, head_hash: h(2) };
    let bytes = value.encode();
    assert_eq!(BestParaHeadHash::decode(&bytes[..35]), None);
    assert_eq!(BestParaHeadHash::decode(&[]), None);
    assert_eq!(BestParaHeadHash::decode(&[1, 2, 3]), None);
}

#[test]
fn best_para_head_hash_decodes_little_endian_number() {
    let mut bytes = vec![0x10, 0x27, 0, 0];
    bytes.extend_from_slice(&[3; 32]);
    assert_eq!(
        BestParaHeadHash::decode(&bytes),
        Some(BestParaHeadHash { at_relay_block_number: 10_000, head_hash: h(3) })
    );
}
