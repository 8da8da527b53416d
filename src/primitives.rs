//! Plain value types that the validation rules read: digests, headers,
//! sealed headers, block bodies and execution outcomes.
use vstd::prelude::*;

verus! {

/// A 32-byte digest (block hash, trie root, requests hash).
#[derive(Clone, Copy, Debug, PartialEq, Eq)]
pub struct B256(pub [u8; 32]);

impl View for B256 {
    type V = Seq<u8>;

    open spec fn view(&self) -> Seq<u8> {
        self.0@
    }
}

/// A 2048-bit logs bloom filter.
#[derive(Clone, Copy, Debug, PartialEq, Eq)]
pub struct Bloom(pub [u8; 256]);

impl View for Bloom {
    type V = Seq<u8>;

    open spec fn view(&self) -> Seq<u8> {
        self.0@
    }
}

/// Byte-wise equality of two slices.
pub fn bytes_equal(a: &[u8], b: &[u8]) -> (r: bool)
    ensures
        r == (a@ == b@),
{
    if a.len() != b.len() {
        return false;
    }
    let mut i: usize = 0;
    while i < a.len()
        invariant
            a@.len() == b@.len(),
            i <= a@.len(),
            a@.subrange(0, i as int) == b@.subrange(0, i as int),
        decreases a@.len() - i,
    {
        if a[i] != b[i] {
            assert(a@[i as int] != b@[i as int]);
            return false;
        }
        assert(a@.subrange(0, i + 1) == a@.subrange(0, i as int).push(a@[i as int]));
        assert(b@.subrange(0, i + 1) == b@.subrange(0, i as int).push(b@[i as int]));
        i = i + 1;
    }
    assert(a@ == a@.subrange(0, i as int));
    assert(b@ == b@.subrange(0, i as int));
    true
}

impl B256 {
    /// Whether two digests hold the same bytes.
    pub fn same_as(&self, other: &B256) -> (r: bool)
        ensures
            r == (self@ == other@),
    {
        bytes_equal(self.0.as_slice(), other.0.as_slice())
    }
}

impl Bloom {
    /// Whether two blooms hold the same bytes.
    pub fn same_as(&self, other: &Bloom) -> (r: bool)
        ensures
            r == (self@ == other@),
    {
        bytes_equal(self.0.as_slice(), other.0.as_slice())
    }
}

/// A value that was found beside the value that was expected.
#[derive(Clone, Copy, Debug, PartialEq, Eq)]
pub struct GotExpected<T> {
    /// The value that was found.
    pub got: T,
    /// The value that was expected.
    pub expected: T,
}

/// A [`GotExpected`] held on the heap, so that errors that carry large values stay small.
#[derive(Clone, Debug, PartialEq, Eq)]
pub struct GotExpectedBoxed<T>(pub Box<GotExpected<T>>);

impl<T> GotExpectedBoxed<T> {
    /// Boxes a found and an expected value.
    pub fn new(got: T, expected: T) -> (r: Self)
        ensures
            r == Self::spec_new(got, expected),
    {
        GotExpectedBoxed(Box::new(GotExpected { got, expected }))
    }

    /// The boxed pair of a found and an expected value.
    pub open spec fn spec_new(got: T, expected: T) -> Self {
        GotExpectedBoxed(Box::new(GotExpected { got, expected }))
    }
}

/// Block metadata, without the transactions.
///
/// Fields that protocol upgrades introduced are optional: their presence is
/// what the header's fork asks for.
#[derive(Clone, Debug, PartialEq, Eq)]
pub struct Header {
    pub parent_hash: B256,
    pub ommers_hash: B256,
    pub state_root: B256,
    pub transactions_root: B256,
    pub receipts_root: B256,
    pub logs_bloom: Bloom,
    pub difficulty: u128,
    pub number: u64,
    pub gas_limit: u64,
    pub gas_used: u64,
    pub timestamp: u64,
    pub extra_data: Vec<u8>,
    pub nonce: u64,
    pub base_fee_per_gas: Option<u64>,
    pub withdrawals_root: Option<B256>,
    pub blob_gas_used: Option<u64>,
    pub excess_blob_gas: Option<u64>,
    pub parent_beacon_block_root: Option<B256>,
    pub requests_hash: Option<B256>,
}

/// A header bound to its content hash, which is computed once, when the
/// header is sealed, and trusted from then on.
#[derive(Clone, Debug, PartialEq, Eq)]
pub struct SealedHeader<H> {
    header: H,
    hash: B256,
}

impl<H> SealedHeader<H> {
    pub closed spec fn spec_header(&self) -> H {
        self.header
    }

    pub closed spec fn spec_hash(&self) -> B256 {
        self.hash
    }

    /// Binds a header to the hash that was computed for it.
    pub fn new(header: H, hash: B256) -> (r: Self)
        ensures
            r.spec_header() == header,
            r.spec_hash() == hash,
    {
        SealedHeader { header, hash }
    }

    /// The sealed header.
    pub fn header(&self) -> (r: &H)
        ensures
            *r == self.spec_header(),
    {
        &self.header
    }

    /// The hash the header was sealed with.
    pub fn hash(&self) -> (r: B256)
        ensures
            r == self.spec_hash(),
    {
        self.hash
    }
}

/// The digests of a block body's sections, as the primitives layer computed
/// them from the transactions, ommers, withdrawals and requests.
#[derive(Clone, Copy, Debug, PartialEq, Eq)]
pub struct BlockBody {
    /// Hash of the ommers list.
    pub ommers_hash: B256,
    /// Trie root of the transactions.
    pub transactions_root: B256,
    /// Trie root of the withdrawals, where the body has withdrawals.
    pub withdrawals_root: Option<B256>,
    /// Hash of the requests, where the body has requests.
    pub requests_hash: Option<B256>,
}

/// A sealed header with its body, not yet checked against each other.
#[derive(Clone, Debug, PartialEq, Eq)]
pub struct SealedBlock {
    pub header: SealedHeader<Header>,
    pub body: BlockBody,
}

/// A sealed block whose transaction senders are known.
#[derive(Clone, Debug, PartialEq, Eq)]
pub struct RecoveredBlock {
    pub block: SealedBlock,
    /// One sender address per transaction.
    pub senders: Vec<[u8; 20]>,
}

/// What executing a block produced.
#[derive(Clone, Debug, PartialEq, Eq)]
pub struct BlockExecutionResult {
    /// Gas used by each transaction, in block order.
    pub gas_used_by_tx: Vec<u64>,
    /// Trie root of the receipts.
    pub receipts_root: B256,
    /// Bloom of all the receipts' logs.
    pub logs_bloom: Bloom,
}

/// The sum of a sequence of gas amounts.
pub open spec fn gas_sum(s: Seq<u64>) -> int
    decreases s.len(),
{
    if s.len() == 0 {
        0
    } else {
        gas_sum(s.drop_last()) + s.last()
    }
}

/// A prefix never sums to more than the whole sequence.
pub proof fn lemma_gas_sum_prefix(s: Seq<u64>, i: int)
    requires
        0 <= i <= s.len(),
    ensures
        gas_sum(s.take(i)) <= gas_sum(s),
    decreases s.len(),
{
    if i < s.len() {
        lemma_gas_sum_prefix(s.drop_last(), i);
        assert(s.drop_last().take(i) == s.take(i));
    } else {
        assert(s.take(i) == s);
    }
}

impl BlockExecutionResult {
    /// The gas that all the transactions used together.
    pub open spec fn total_gas_used(&self) -> int {
        gas_sum(self.gas_used_by_tx@)
    }
}

} // verus!
