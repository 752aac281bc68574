//! Plain values shared by every chain the relay talks to.

use vstd::prelude::*;
use vstd::bytes::{
    spec_u32_from_le_bytes, spec_u32_to_le_bytes, spec_u64_from_le_bytes, spec_u64_to_le_bytes,
};
use crate::codec::{decode_u32, decode_u64, encode_u32, encode_u64};

verus! {

/// Number of a block. Wide enough for every chain; how wide the numbers of
/// one chain are is told by its [`BlockNumberType`].
pub type BlockNumber = u64;

/// The type that a chain counts its blocks in.
#[derive(Clone, Copy, Debug, PartialEq, Eq)]
pub enum BlockNumberType {
    U32,
    U64,
}

/// The type that a chain holds balances in.
#[derive(Clone, Copy, Debug, PartialEq, Eq)]
pub enum BalanceType {
    U32,
    U64,
    U128,
}

impl BlockNumberType {
    /// The largest number of the type.
    pub open spec fn spec_max(self) -> nat {
        match self {
            BlockNumberType::U32 => u32::MAX as nat,
            BlockNumberType::U64 => u64::MAX as nat,
        }
    }

    /// Number of bytes of an encoded number.
    pub open spec fn spec_encoded_len(self) -> nat {
        match self {
            BlockNumberType::U32 => 4,
            BlockNumberType::U64 => 8,
        }
    }

    /// The SCALE encoding of `number`: the bytes of the type, least
    /// significant first.
    pub open spec fn spec_encode(self, number: BlockNumber) -> Seq<u8> {
        match self {
            BlockNumberType::U32 => spec_u32_to_le_bytes(number as u32),
            BlockNumberType::U64 => spec_u64_to_le_bytes(number),
        }
    }

    /// The number that `bytes` starts with.
    pub open spec fn spec_decode(self, bytes: Seq<u8>) -> BlockNumber {
        match self {
            BlockNumberType::U32 => spec_u32_from_le_bytes(bytes.subrange(0, 4)) as u64,
            BlockNumberType::U64 => spec_u64_from_le_bytes(bytes.subrange(0, 8)),
        }
    }

    /// Whether the type can hold `number`.
    pub fn holds(self, number: BlockNumber) -> (fits: bool)
        ensures
            fits == (number <= self.spec_max()),
    {
        match self {
            BlockNumberType::U32 => number <= 0xffff_ffff,
            BlockNumberType::U64 => true,
        }
    }

    /// Number of bytes of an encoded number.
    pub fn encoded_len(self) -> (len: usize)
        ensures
            len == self.spec_encoded_len(),
    {
        match self {
            BlockNumberType::U32 => 4,
            BlockNumberType::U64 => 8,
        }
    }

    /// Encodes `number` as the chain does, if the type can hold it.
    pub fn encode(self, number: BlockNumber) -> (bytes: Option<Vec<u8>>)
        ensures
            bytes is Some <==> number <= self.spec_max(),
            bytes matches Some(b) ==> b@ == self.spec_encode(number),
    {
        match self {
            BlockNumberType::U32 => {
                if number <= 0xffff_ffff {
                    Some(encode_u32(number as u32))
                } else {
                    None
                }
            },
            BlockNumberType::U64 => Some(encode_u64(number)),
        }
    }

    /// Decodes a number from the front of `bytes`; what follows it is
    /// ignored.
    pub fn decode(self, bytes: &[u8]) -> (number: Option<BlockNumber>)
        ensures
            number is Some <==> bytes@.len() >= self.spec_encoded_len(),
            number matches Some(n) ==> n == self.spec_decode(bytes@) && n <= self.spec_max(),
    {
        match self {
            BlockNumberType::U32 => match decode_u32(bytes) {
                Some(n) => Some(n as u64),
                None => None,
            },
            BlockNumberType::U64 => decode_u64(bytes),
        }
    }
}

/// Decoding an encoded number gives the number back.
pub proof fn lemma_block_number_round_trip(ty: BlockNumberType, number: BlockNumber)
    requires
        number <= ty.spec_max(),
    ensures
        ty.spec_encode(number).len() == ty.spec_encoded_len(),
        ty.spec_decode(ty.spec_encode(number)) == number,
{
    vstd::bytes::lemma_auto_spec_u32_to_from_le_bytes();
    vstd::bytes::lemma_auto_spec_u64_to_from_le_bytes();
    let bytes = ty.spec_encode(number);
    assert(bytes.subrange(0, bytes.len() as int) == bytes);
}

impl BalanceType {
    /// The largest balance of the type.
    pub open spec fn spec_max(self) -> Balance {
        match self {
            BalanceType::U32 => u32::MAX as u128,
            BalanceType::U64 => u64::MAX as u128,
            BalanceType::U128 => u128::MAX,
        }
    }

    /// The largest balance of the type.
    pub fn max(self) -> (max: Balance)
        ensures
            max == self.spec_max(),
    {
        match self {
            BalanceType::U32 => 0xffff_ffff,
            BalanceType::U64 => 0xffff_ffff_ffff_ffff,
            BalanceType::U128 => u128::MAX,
        }
    }

    /// Whether the type can hold `balance`.
    pub fn holds(self, balance: Balance) -> (fits: bool)
        ensures
            fits == (balance <= self.spec_max()),
    {
        balance <= self.max()
    }
}

/// Balance of an account.
pub type Balance = u128;

/// Weight of a computation.
pub type Weight = u64;

/// Index of a transaction of an account.
pub type Nonce = u32;

/// A 256-bit hash.
#[derive(Clone, Copy, Debug, PartialEq, Eq)]
pub struct H256(pub [u8; 32]);

impl View for H256 {
    type V = Seq<u8>;

    open spec fn view(&self) -> Seq<u8> {
        self.0@
    }
}

impl H256 {
    /// The hash made of the thirty-two bytes of `bytes` from `from` on.
    pub fn from_slice_at(bytes: &[u8], from: usize) -> (hash: H256)
        requires
            from + 32 <= bytes@.len(),
        ensures
            hash@ == bytes@.subrange(from as int, from + 32),
    {
        let len = bytes.len();
        let mut hash: [u8; 32] = [0u8; 32];
        let mut i: usize = 0;
        while i < 32
            invariant
                i <= 32,
                from + 32 <= bytes@.len() == len,
                forall|j: int| 0 <= j < i ==> hash@[j] == bytes@[from + j],
            decreases 32 - i,
        {
            hash[i] = bytes[from + i];
            i = i + 1;
        }
        assert(hash@ == bytes@.subrange(from as int, from + 32));
        H256(hash)
    }

    /// Whether this hash comes before `other`, byte by byte.
    pub open spec fn spec_precedes(self, other: H256) -> bool {
        match spec_first_difference(self@, other@, 32) {
            Some(at) => self@[at] < other@[at],
            None => false,
        }
    }

    /// Whether this hash comes before `other`, byte by byte.
    pub fn precedes(&self, other: &H256) -> (before: bool)
        ensures
            before == self.spec_precedes(*other),
    {
        let mut i: usize = 0;
        while i < 32
            invariant
                i <= 32,
                spec_first_difference(self@, other@, i as int) is None,
            decreases 32 - i,
        {
            if self.0[i] != other.0[i] {
                proof {
                    lemma_first_difference_is_stable(self@, other@, i + 1, 32);
                }
                return self.0[i] < other.0[i];
            }
            i = i + 1;
        }
        false
    }

    /// Whether the two hashes hold the same bytes.
    pub fn same_as(&self, other: &H256) -> (r: bool)
        ensures
            r == (*self == *other),
    {
        let r = bytes_equal(self.0.as_slice(), other.0.as_slice());
        proof {
            if r {
                assert(self.0 =~= other.0);
            }
        }
        r
    }
}

/// The first of the first `upto` positions at which `a` and `b` differ.
pub open spec fn spec_first_difference(a: Seq<u8>, b: Seq<u8>, upto: int) -> Option<int>
    decreases upto,
{
    if upto <= 0 {
        None
    } else {
        match spec_first_difference(a, b, upto - 1) {
            Some(at) => Some(at),
            None => if a[upto - 1] != b[upto - 1] {
                Some(upto - 1)
            } else {
                None
            },
        }
    }
}

/// Once found, the first difference stays the first however far one looks.
proof fn lemma_first_difference_is_stable(a: Seq<u8>, b: Seq<u8>, found: int, upto: int)
    requires
        spec_first_difference(a, b, found) is Some,
        found <= upto,
    ensures
        spec_first_difference(a, b, upto) == spec_first_difference(a, b, found),
    decreases upto - found,
{
    if found < upto {
        lemma_first_difference_is_stable(a, b, found, upto - 1);
    }
}

/// What the first difference is: a position where the two differ with
/// none before it, or no position at all where they are the same so far.
proof fn lemma_first_difference(a: Seq<u8>, b: Seq<u8>, upto: int)
    requires
        0 <= upto,
    ensures
        match spec_first_difference(a, b, upto) {
            Some(at) => {
                &&& 0 <= at < upto
                &&& a[at] != b[at]
                &&& forall|j: int| 0 <= j < at ==> a[j] == b[j]
            },
            None => forall|j: int| 0 <= j < upto ==> a[j] == b[j],
        },
    decreases upto,
{
    if upto > 0 {
        lemma_first_difference(a, b, upto - 1);
    }
}

/// A position where two sequences differ with none before it is their
/// first difference.
proof fn lemma_first_difference_at(a: Seq<u8>, b: Seq<u8>, upto: int, at: int)
    requires
        0 <= at < upto,
        a[at] != b[at],
        forall|j: int| 0 <= j < at ==> a[j] == b[j],
    ensures
        spec_first_difference(a, b, upto) == Some(at),
{
    lemma_first_difference(a, b, upto);
}

/// Of two hashes exactly one holds: the first comes before the second, the
/// second before the first, or they are the same.
pub proof fn lemma_hash_order_is_total(a: H256, b: H256)
    ensures
        a.spec_precedes(b) || b.spec_precedes(a) || a == b,
        !(a.spec_precedes(b) && b.spec_precedes(a)),
        !a.spec_precedes(a),
{
    lemma_first_difference(a@, b@, 32);
    lemma_first_difference(b@, a@, 32);
    lemma_first_difference(a@, a@, 32);
    match spec_first_difference(a@, b@, 32) {
        Some(at) => {
            lemma_first_difference_at(b@, a@, 32, at);
        },
        None => {
            assert(a.0 =~= b.0);
        },
    }
}

/// The order of hashes is transitive.
pub proof fn lemma_hash_order_is_transitive(a: H256, b: H256, c: H256)
    requires
        a.spec_precedes(b),
        b.spec_precedes(c),
    ensures
        a.spec_precedes(c),
{
    lemma_first_difference(a@, b@, 32);
    lemma_first_difference(b@, c@, 32);
    let i = spec_first_difference(a@, b@, 32)->0;
    let j = spec_first_difference(b@, c@, 32)->0;
    let k = if i <= j {
        i
    } else {
        j
    };
    lemma_first_difference_at(a@, c@, 32, k);
}

/// Number and hash of a header: together they name one header of a chain.
#[derive(Clone, Copy, Debug, PartialEq, Eq)]
pub struct HeaderId {
    /// Number of the block.
    pub number: BlockNumber,
    /// Hash of the block.
    pub hash: H256,
}

impl HeaderId {
    /// Whether this header is further along the chain than `other`.
    pub open spec fn spec_is_ahead_of(self, other: HeaderId) -> bool {
        self.number > other.number
    }

    /// Whether this header is further along the chain than `other`. Headers
    /// are compared by number; the hash only tells forks apart.
    pub fn is_ahead_of(&self, other: &HeaderId) -> (ahead: bool)
        ensures
            ahead == self.spec_is_ahead_of(*other),
    {
        self.number > other.number
    }

    /// Whether this header comes before `other`: by number first, and by
    /// hash among headers of one number.
    pub open spec fn spec_precedes(self, other: HeaderId) -> bool {
        self.number < other.number || (self.number == other.number && self.hash.spec_precedes(
            other.hash,
        ))
    }

    /// Whether this header comes before `other`: by number first, and by
    /// hash among headers of one number.
    pub fn precedes(&self, other: &HeaderId) -> (before: bool)
        ensures
            before == self.spec_precedes(*other),
    {
        self.number < other.number || (self.number == other.number && self.hash.precedes(
            &other.hash,
        ))
    }

    /// Whether the two name the same header.
    pub fn same_as(&self, other: &HeaderId) -> (same: bool)
        ensures
            same == (*self == *other),
    {
        self.number == other.number && self.hash.same_as(&other.hash)
    }
}

/// Whether the two slices hold the same bytes.
pub fn bytes_equal(a: &[u8], b: &[u8]) -> (r: bool)
    ensures
        r == (a@ == b@),
{
    if a.len() != b.len() {
        return false;
    }
    let mut i: usize = 0;
    while i < a.len()
        invariant
            a@.len() == b@.len(),
            i <= a@.len(),
            a@.subrange(0, i as int) == b@.subrange(0, i as int),
        decreases a@.len() - i,
    {
        if a[i] != b[i] {
            return false;
        }
        assert(a@.subrange(0, i + 1) == a@.subrange(0, i as int).push(a@[i as int]));
        assert(b@.subrange(0, i + 1) == b@.subrange(0, i as int).push(b@[i as int]));
        i = i + 1;
    }
    assert(a@.subrange(0, i as int) == a@);
    assert(b@.subrange(0, i as int) == b@);
    true
}

/// Whether the two strings hold the same text.
pub fn str_equal(a: &str, b: &str) -> (r: bool)
    ensures
        r == (a@ == b@),
{
    let r = bytes_equal(a.as_bytes(), b.as_bytes());
    proof {
        vstd::utf8::encode_utf8_decode_utf8(a@);
        vstd::utf8::encode_utf8_decode_utf8(b@);
    }
    r
}

/// Appends `src` to `dst`.
pub fn append_bytes(dst: &mut Vec<u8>, src: &[u8])
    ensures
        final(dst)@ == old(dst)@ + src@,
{
    let mut i: usize = 0;
    while i < src.len()
        invariant
            i <= src@.len(),
            dst@ == old(dst)@ + src@.subrange(0, i as int),
        decreases src@.len() - i,
    {
        dst.push(src[i]);
        i = i + 1;
    }
    assert(src@.subrange(0, i as int) == src@);
}

/// Header ids are totally ordered: of two ids exactly one holds, the first
/// comes before the second, the second before the first, or they are the
/// same. A header that is further along the chain comes after.
pub proof fn lemma_header_order_is_total(a: HeaderId, b: HeaderId)
    ensures
        a.spec_precedes(b) || b.spec_precedes(a) || a == b,
        !(a.spec_precedes(b) && b.spec_precedes(a)),
        !a.spec_precedes(a),
        a.spec_is_ahead_of(b) ==> b.spec_precedes(a),
{
    lemma_hash_order_is_total(a.hash, b.hash);
    lemma_hash_order_is_total(a.hash, a.hash);
}

/// The order of header ids is transitive.
pub proof fn lemma_header_order_is_transitive(a: HeaderId, b: HeaderId, c: HeaderId)
    requires
        a.spec_precedes(b),
        b.spec_precedes(c),
    ensures
        a.spec_precedes(c),
{
    if a.number == b.number && b.number == c.number {
        lemma_hash_order_is_transitive(a.hash, b.hash, c.hash);
    }
}

} // verus!
