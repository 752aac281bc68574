//! Addresses of entries in a runtime's storage maps.
//!
//! A map entry lives at `twox_128(pallet) ++ twox_128(map) ++ hasher(key)`,
//! and a double map adds a second hashed key. Deriving an address needs no
//! metadata of the chain, only the two names and the encoded keys.

use vstd::prelude::*;
use vstd::utf8::encode_utf8;
use crate::primitives::{append_bytes, bytes_equal};
use crate::hashing::{
    blake2_128, blake2_128_digest, twox_128, twox_128_digest, twox_64, twox_64_digest,
};

verus! {

/// A full key into a runtime's storage.
#[derive(Clone, Debug)]
pub struct StorageKey(pub Vec<u8>);

impl View for StorageKey {
    type V = Seq<u8>;

    open spec fn view(&self) -> Seq<u8> {
        self.0@
    }
}

/// How a map hashes one of its keys.
#[allow(non_camel_case_types)]
#[derive(Clone, Copy, Debug, PartialEq, Eq, Structural)]
pub enum HashScheme {
    /// The key itself.
    Identity,
    /// 64-bit XX digest, then the key.
    Twox64Concat,
    /// 128-bit Blake2b digest, then the key.
    Blake2_128Concat,
    /// 128-bit XX digest alone.
    Twox128,
    /// 128-bit Blake2b digest alone.
    Blake2_128,
}

impl HashScheme {
    /// The hashed form of `key` under this scheme.
    pub open spec fn spec_hash(self, key: Seq<u8>) -> Seq<u8> {
        match self {
            HashScheme::Identity => key,
            HashScheme::Twox64Concat => twox_64_digest(key)@ + key,
            HashScheme::Blake2_128Concat => blake2_128_digest(key)@ + key,
            HashScheme::Twox128 => twox_128_digest(key)@,
            HashScheme::Blake2_128 => blake2_128_digest(key)@,
        }
    }

    /// Whether the hashed form still carries the key in clear.
    pub open spec fn spec_is_transparent(self) -> bool {
        self is Identity || self is Twox64Concat || self is Blake2_128Concat
    }

    /// Whether the hashed form still carries the key in clear.
    pub fn is_transparent(self) -> (r: bool)
        ensures
            r == self.spec_is_transparent(),
    {
        match self {
            HashScheme::Identity => true,
            HashScheme::Twox64Concat => true,
            HashScheme::Blake2_128Concat => true,
            HashScheme::Twox128 => false,
            HashScheme::Blake2_128 => false,
        }
    }

    /// Hashes `key` under this scheme.
    pub fn hash(self, key: &[u8]) -> (hashed: Vec<u8>)
        ensures
            hashed@ == self.spec_hash(key@),
    {
        let mut hashed: Vec<u8> = Vec::new();
        match self {
            HashScheme::Identity => {
                append_bytes(&mut hashed, key);
            },
            HashScheme::Twox64Concat => {
                let digest = twox_64(key);
                append_bytes(&mut hashed, digest.as_slice());
                append_bytes(&mut hashed, key);
            },
            HashScheme::Blake2_128Concat => {
                let digest = blake2_128(key);
                append_bytes(&mut hashed, digest.as_slice());
                append_bytes(&mut hashed, key);
            },
            HashScheme::Twox128 => {
                let digest = twox_128(key);
                append_bytes(&mut hashed, digest.as_slice());
            },
            HashScheme::Blake2_128 => {
                let digest = blake2_128(key);
                append_bytes(&mut hashed, digest.as_slice());
            },
        }
        hashed
    }
}

/// The prefix shared by every entry of the map `map_name` of `pallet`.
pub open spec fn spec_map_prefix(pallet: Seq<char>, map_name: Seq<char>) -> Seq<u8> {
    twox_128_digest(encode_utf8(pallet))@ + twox_128_digest(encode_utf8(map_name))@
}

/// The address of the entry `key` in a single-key map.
pub open spec fn spec_single_map_key(
    pallet: Seq<char>,
    map_name: Seq<char>,
    key: Seq<u8>,
    scheme: HashScheme,
) -> Seq<u8> {
    spec_map_prefix(pallet, map_name) + scheme.spec_hash(key)
}

/// The address of the entry `(key1, key2)` in a double-key map.
pub open spec fn spec_double_map_key(
    pallet: Seq<char>,
    map_name: Seq<char>,
    key1: Seq<u8>,
    scheme1: HashScheme,
    key2: Seq<u8>,
    scheme2: HashScheme,
) -> Seq<u8> {
    spec_map_prefix(pallet, map_name) + scheme1.spec_hash(key1) + scheme2.spec_hash(key2)
}

/// Derives the address of the entry `key` in the map `map_name` of `pallet`.
pub fn single_map_key(pallet: &str, map_name: &str, key: &[u8], scheme: HashScheme) -> (r:
    StorageKey)
    ensures
        r@ == spec_single_map_key(pallet@, map_name@, key@, scheme),
{
    let pallet_hash = twox_128(pallet.as_bytes());
    let map_hash = twox_128(map_name.as_bytes());
    let key_hashed = scheme.hash(key);
    let mut final_key: Vec<u8> = Vec::new();
    append_bytes(&mut final_key, pallet_hash.as_slice());
    append_bytes(&mut final_key, map_hash.as_slice());
    append_bytes(&mut final_key, key_hashed.as_slice());
    StorageKey(final_key)
}

/// Derives the address of the entry `(key1, key2)` in the double map
/// `map_name` of `pallet`.
pub fn double_map_key(
    pallet: &str,
    map_name: &str,
    key1: &[u8],
    scheme1: HashScheme,
    key2: &[u8],
    scheme2: HashScheme,
) -> (r: StorageKey)
    ensures
        r@ == spec_double_map_key(pallet@, map_name@, key1@, scheme1, key2@, scheme2),
{
    let pallet_hash = twox_128(pallet.as_bytes());
    let map_hash = twox_128(map_name.as_bytes());
    let key1_hashed = scheme1.hash(key1);
    let key2_hashed = scheme2.hash(key2);
    let mut final_key: Vec<u8> = Vec::new();
    append_bytes(&mut final_key, pallet_hash.as_slice());
    append_bytes(&mut final_key, map_hash.as_slice());
    append_bytes(&mut final_key, key1_hashed.as_slice());
    append_bytes(&mut final_key, key2_hashed.as_slice());
    StorageKey(final_key)
}

/// Whether two names hash to different map prefixes unless they are the same name.
pub open spec fn spec_names_distinguished(a: Seq<char>, b: Seq<char>) -> bool {
    twox_128_digest(encode_utf8(a)) == twox_128_digest(encode_utf8(b)) ==> a == b
}

/// Splitting equal concatenations at a common length gives equal halves.
pub proof fn lemma_concat_split(a: Seq<u8>, b: Seq<u8>, c: Seq<u8>, d: Seq<u8>)
    requires
        a + b == c + d,
        a.len() == c.len(),
    ensures
        a == c,
        b == d,
{
    let n = a.len() as int;
    assert((a + b).subrange(0, n) == a);
    assert((c + d).subrange(0, n) == c);
    assert((a + b).subrange(n, (a + b).len() as int) == b);
    assert((c + d).subrange(n, (c + d).len() as int) == d);
}

/// Under a transparent scheme the hashed form determines the key.
pub proof fn lemma_transparent_hash_injective(scheme: HashScheme, key1: Seq<u8>, key2: Seq<u8>)
    requires
        scheme.spec_is_transparent(),
        scheme.spec_hash(key1) == scheme.spec_hash(key2),
    ensures
        key1 == key2,
{
    match scheme {
        HashScheme::Identity => {},
        HashScheme::Twox64Concat => {
            lemma_concat_split(twox_64_digest(key1)@, key1, twox_64_digest(key2)@, key2);
        },
        HashScheme::Blake2_128Concat => {
            lemma_concat_split(blake2_128_digest(key1)@, key1, blake2_128_digest(key2)@, key2);
        },
        _ => {},
    }
}

/// Two derivations from the same names, key and scheme give the same address.
pub proof fn lemma_single_map_key_deterministic(
    pallet1: Seq<char>,
    map1: Seq<char>,
    key1: Seq<u8>,
    pallet2: Seq<char>,
    map2: Seq<char>,
    key2: Seq<u8>,
    scheme: HashScheme,
)
    requires
        pallet1 == pallet2,
        map1 == map2,
        key1 == key2,
    ensures
        spec_single_map_key(pallet1, map1, key1, scheme) == spec_single_map_key(
            pallet2,
            map2,
            key2,
            scheme,
        ),
{
}

/// Equal addresses under a transparent scheme come from equal keys, and from
/// names with equal digests.
pub proof fn lemma_single_map_key_determines_key(
    pallet1: Seq<char>,
    map1: Seq<char>,
    key1: Seq<u8>,
    pallet2: Seq<char>,
    map2: Seq<char>,
    key2: Seq<u8>,
    scheme: HashScheme,
)
    requires
        scheme.spec_is_transparent(),
        spec_single_map_key(pallet1, map1, key1, scheme) == spec_single_map_key(
            pallet2,
            map2,
            key2,
            scheme,
        ),
    ensures
        key1 == key2,
        twox_128_digest(encode_utf8(pallet1)) == twox_128_digest(encode_utf8(pallet2)),
        twox_128_digest(encode_utf8(map1)) == twox_128_digest(encode_utf8(map2)),
{
    let p1 = twox_128_digest(encode_utf8(pallet1));
    let p2 = twox_128_digest(encode_utf8(pallet2));
    let m1 = twox_128_digest(encode_utf8(map1));
    let m2 = twox_128_digest(encode_utf8(map2));
    let h1 = scheme.spec_hash(key1);
    let h2 = scheme.spec_hash(key2);
    assert(p1@ + m1@ + h1 == p1@ + (m1@ + h1));
    assert(p2@ + m2@ + h2 == p2@ + (m2@ + h2));
    lemma_concat_split(p1@, m1@ + h1, p2@, m2@ + h2);
    lemma_concat_split(m1@, h1, m2@, h2);
    lemma_transparent_hash_injective(scheme, key1, key2);
    assert(p1 =~= p2);
    assert(m1 =~= m2);
}

/// Under a transparent scheme, and for names that the 128-bit XX digest tells
/// apart, distinct `(pallet, map, key)` triples get distinct addresses.
pub proof fn lemma_single_map_key_injective(
    pallet1: Seq<char>,
    map1: Seq<char>,
    key1: Seq<u8>,
    pallet2: Seq<char>,
    map2: Seq<char>,
    key2: Seq<u8>,
    scheme: HashScheme,
)
    requires
        scheme.spec_is_transparent(),
        spec_names_distinguished(pallet1, pallet2),
        spec_names_distinguished(map1, map2),
        (pallet1, map1, key1) != (pallet2, map2, key2),
    ensures
        spec_single_map_key(pallet1, map1, key1, scheme) != spec_single_map_key(
            pallet2,
            map2,
            key2,
            scheme,
        ),
{
    if spec_single_map_key(pallet1, map1, key1, scheme) == spec_single_map_key(
        pallet2,
        map2,
        key2,
        scheme,
    ) {
        lemma_single_map_key_determines_key(pallet1, map1, key1, pallet2, map2, key2, scheme);
    }
}

/// The keys found under some map of a chain, as last read from it.
pub struct StorageIndex {
    keys: Vec<StorageKey>,
}

impl View for StorageIndex {
    type V = Set<Seq<u8>>;

    closed spec fn view(&self) -> Set<Seq<u8>> {
        Set::new(|key: Seq<u8>| exists|i: int| 0 <= i < self.keys@.len() && self.keys@[i]@ == key)
    }
}

impl StorageIndex {
    /// An index of exactly the given keys.
    pub fn new(keys: Vec<StorageKey>) -> (index: StorageIndex)
        ensures
            forall|key: Seq<u8>|
                index@.contains(key) <==> exists|i: int|
                    0 <= i < keys@.len() && (#[trigger] keys@[i])@ == key,
    {
        StorageIndex { keys }
    }

    /// Whether the chain held an entry at `key`.
    pub fn contains(&self, key: &StorageKey) -> (found: bool)
        ensures
            found == self@.contains(key@),
    {
        let mut i: usize = 0;
        while i < self.keys.len()
            invariant
                i <= self.keys@.len(),
                forall|j: int| 0 <= j < i ==> self.keys@[j]@ != key@,
            decreases self.keys@.len() - i,
        {
            if bytes_equal(self.keys[i].0.as_slice(), key.0.as_slice()) {
                return true;
            }
            i = i + 1;
        }
        false
    }
}

} // verus!
