//! The closed set of consensus violations, and the wrapper that attributes
//! one to the header that caused it.
use vstd::prelude::*;
use crate::primitives::{B256, Bloom, GotExpected, GotExpectedBoxed, SealedHeader};

verus! {

/// A transaction-validity failure reported by the transaction validator,
/// carried unchanged inside a [`ConsensusError`].
#[derive(Clone, Debug, PartialEq, Eq)]
pub struct InvalidTransactionError {
    /// What the transaction validator reported.
    pub reason: String,
}

/// Consensus errors.
#[derive(Clone, Debug, PartialEq, Eq)]
pub enum ConsensusError {
    /// The gas used in the header exceeds the gas limit.
    HeaderGasUsedExceedsGasLimit { gas_used: u64, gas_limit: u64 },
    /// The gas limit is above the largest one allowed.
    HeaderGasLimitExceedsMax { gas_limit: u64 },
    /// The gas the transactions used does not add up to the header's gas used.
    BlockGasUsed {
        /// Gas found (sum over the transactions) and expected (the header's).
        gas: GotExpected<u64>,
        /// One entry per transaction: its index and the gas it used.
        gas_spent_by_tx: Vec<(u64, u64)>,
    },
    /// The ommers hash differs from the header's.
    BodyOmmersHashDiff(GotExpectedBoxed<B256>),
    /// The state root differs from the header's.
    BodyStateRootDiff(GotExpectedBoxed<B256>),
    /// The transactions root differs from the header's.
    BodyTransactionRootDiff(GotExpectedBoxed<B256>),
    /// The receipts root differs from the header's.
    BodyReceiptRootDiff(GotExpectedBoxed<B256>),
    /// The logs bloom differs from the header's.
    BodyBloomLogDiff(GotExpectedBoxed<Bloom>),
    /// The withdrawals root differs from the header's.
    BodyWithdrawalsRootDiff(GotExpectedBoxed<B256>),
    /// The requests hash differs from the header's.
    BodyRequestsHashDiff(GotExpectedBoxed<B256>),
    /// A block with this hash and number is already known.
    BlockKnown { hash: B256, number: u64 },
    /// The parent of the block is not known.
    ParentUnknown { hash: B256 },
    /// The block number is not the parent's number plus one.
    ParentBlockNumberMismatch { parent_block_number: u64, block_number: u64 },
    /// The declared parent hash is not the parent's hash.
    ParentHashMismatch(GotExpectedBoxed<B256>),
    /// The timestamp lies after the present time.
    TimestampIsInFuture { timestamp: u64, present_timestamp: u64 },
    /// A base fee is missing.
    BaseFeeMissing,
    /// A transaction's signer could not be recovered.
    TransactionSignerRecoveryError,
    /// The extra data is longer than allowed.
    ExtraDataExceedsMax { len: usize },
    /// The difficulty after the merge is not zero.
    TheMergeDifficultyIsNotZero,
    /// The nonce after the merge is not zero.
    TheMergeNonceIsNotZero,
    /// The ommers hash after the merge is not that of an empty list.
    TheMergeOmmerRootIsNotEmpty,
    /// The withdrawals root is missing.
    WithdrawalsRootMissing,
    /// The requests hash is missing.
    RequestsHashMissing,
    /// A withdrawals root is present before withdrawals exist.
    WithdrawalsRootUnexpected,
    /// A requests hash is present before requests exist.
    RequestsHashUnexpected,
    /// The body has no withdrawals.
    BodyWithdrawalsMissing,
    /// The body has no requests.
    BodyRequestsMissing,
    /// The blob gas used is missing.
    BlobGasUsedMissing,
    /// A blob gas used is present before blobs exist.
    BlobGasUsedUnexpected,
    /// The excess blob gas is missing.
    ExcessBlobGasMissing,
    /// An excess blob gas is present before blobs exist.
    ExcessBlobGasUnexpected,
    /// The parent beacon block root is missing.
    ParentBeaconBlockRootMissing,
    /// A parent beacon block root is present before it exists.
    ParentBeaconBlockRootUnexpected,
    /// The blob gas used is above the most a block may use.
    BlobGasUsedExceedsMaxBlobGasPerBlock { blob_gas_used: u64, max_blob_gas_per_block: u64 },
    /// The blob gas used is not a whole number of blobs.
    BlobGasUsedNotMultipleOfBlobGasPerBlob { blob_gas_used: u64, blob_gas_per_blob: u64 },
    /// The blob gas used differs from the expected one.
    BlobGasUsedDiff(GotExpected<u64>),
    /// A transaction violates consensus.
    InvalidTransaction(InvalidTransactionError),
    /// The base fee differs from the one computed from the parent.
    BaseFeeDiff(GotExpected<u64>),
    /// The excess blob gas differs from the one computed from the parent.
    ExcessBlobGasDiff {
        diff: GotExpected<u64>,
        parent_excess_blob_gas: u64,
        parent_blob_gas_used: u64,
    },
    /// The gas limit grew by more than the parent's limit allows.
    GasLimitInvalidIncrease { parent_gas_limit: u64, child_gas_limit: u64 },
    /// The gas limit is below the smallest one allowed.
    GasLimitInvalidMinimum { child_gas_limit: u64 },
    /// The gas limit is above the largest one allowed.
    GasLimitInvalidBlockMaximum { block_gas_limit: u64 },
    /// The gas limit shrank by more than the parent's limit allows.
    GasLimitInvalidDecrease { parent_gas_limit: u64, child_gas_limit: u64 },
    /// The timestamp is not after the parent's.
    TimestampIsInPast { parent_timestamp: u64, timestamp: u64 },
    /// A rule of a particular chain, outside the base set.
    Other(String),
}

impl ConsensusError {
    /// Whether the error is a state root mismatch, which may call for
    /// recomputing state rather than rejecting the block.
    pub fn is_state_root_error(&self) -> (r: bool)
        ensures
            r == (self is BodyStateRootDiff),
    {
        matches!(self, ConsensusError::BodyStateRootDiff(_))
    }
}

impl From<InvalidTransactionError> for ConsensusError {
    fn from(value: InvalidTransactionError) -> (r: Self)
        ensures
            r == ConsensusError::InvalidTransaction(value),
    {
        ConsensusError::InvalidTransaction(value)
    }
}

impl vstd::std_specs::convert::FromSpecImpl<InvalidTransactionError> for ConsensusError {
    open spec fn obeys_from_spec() -> bool {
        true
    }

    open spec fn from_spec(v: InvalidTransactionError) -> Self {
        ConsensusError::InvalidTransaction(v)
    }
}

/// A consensus error together with the header it was found in.
#[derive(Debug)]
pub struct HeaderConsensusError<H>(pub ConsensusError, pub SealedHeader<H>);

impl<H> HeaderConsensusError<H> {
    /// The error that was found.
    pub fn error(&self) -> (r: &ConsensusError)
        ensures
            *r == self.0,
    {
        &self.0
    }

    /// The header it was found in.
    pub fn header(&self) -> (r: &SealedHeader<H>)
        ensures
            *r == self.1,
    {
        &self.1
    }
}

} // verus!
