//! A post-merge rule set that implements the validator capabilities, with
//! its protocol parameters supplied at construction.
use vstd::prelude::*;
use crate::error::ConsensusError;
use crate::primitives::{
    B256, BlockBody, BlockExecutionResult, GotExpected, GotExpectedBoxed, Header, RecoveredBlock,
    SealedBlock, SealedHeader, gas_sum, lemma_gas_sum_prefix,
};
use crate::validator::{Consensus, FullConsensus, HeaderValidator};

verus! {

/// Divisor that bounds how far a gas limit may move from its parent's.
pub const GAS_LIMIT_BOUND_DIVISOR: u64 = 1024;

/// Bound on how far the base fee moves in one block: one part in this many
/// of the parent's fee for each gas target's worth of deviation.
pub const BASE_FEE_MAX_CHANGE_DENOMINATOR: u64 = 8;

/// The gas target of a block is its gas limit divided by this.
pub const ELASTICITY_MULTIPLIER: u64 = 2;

/// The base fee that follows a parent with this gas used, gas limit and
/// base fee: unchanged at the gas target; above it, raised in proportion to
/// the excess and by at least one (saturating at the largest `u64`); below
/// it, lowered in proportion to the shortfall, not below zero.
pub open spec fn next_base_fee(gas_used: u64, gas_limit: u64, base_fee: u64) -> u64 {
    let target = (gas_limit / ELASTICITY_MULTIPLIER) as int;
    let denom = target * BASE_FEE_MAX_CHANGE_DENOMINATOR as int;
    if gas_used as int == target {
        base_fee
    } else if gas_used as int > target {
        let delta = if target == 0 {
            0
        } else {
            base_fee as int * (gas_used as int - target) / denom
        };
        let raised = base_fee as int + if delta > 1 {
            delta
        } else {
            1
        };
        if raised > u64::MAX as int {
            u64::MAX
        } else {
            raised as u64
        }
    } else {
        let delta = base_fee as int * (target - gas_used as int) / denom;
        if delta >= base_fee as int {
            0
        } else {
            (base_fee as int - delta) as u64
        }
    }
}

/// The base fee that follows a parent block.
pub fn calc_next_base_fee(gas_used: u64, gas_limit: u64, base_fee: u64) -> (r: u64)
    ensures
        r == next_base_fee(gas_used, gas_limit, base_fee),
{
    let target: u64 = gas_limit / ELASTICITY_MULTIPLIER;
    let denom: u128 = target as u128 * 8;
    assert(denom == target as int * BASE_FEE_MAX_CHANGE_DENOMINATOR as int);
    if gas_used == target {
        base_fee
    } else if gas_used > target {
        let diff: u64 = gas_used - target;
        proof {
            assert(base_fee as int * diff as int <= u64::MAX as int * u64::MAX as int)
                by (nonlinear_arith)
                requires
                    base_fee <= u64::MAX,
                    diff <= u64::MAX,
            ;
        }
        let delta: u128 = if target == 0 {
            0
        } else {
            base_fee as u128 * diff as u128 / denom
        };
        proof {
            if target != 0 {
                assert(base_fee as int * diff as int / denom as int <= base_fee as int * diff as int)
                    by (nonlinear_arith)
                    requires
                        denom >= 1,
                        base_fee as int * diff as int >= 0,
                ;
            }
        }
        let step: u128 = if delta > 1 {
            delta
        } else {
            1
        };
        let raised: u128 = base_fee as u128 + step;
        if raised > u64::MAX as u128 {
            u64::MAX
        } else {
            raised as u64
        }
    } else {
        let diff: u64 = target - gas_used;
        proof {
            assert(base_fee as int * diff as int <= u64::MAX as int * u64::MAX as int)
                by (nonlinear_arith)
                requires
                    base_fee <= u64::MAX,
                    diff <= u64::MAX,
            ;
        }
        let delta: u128 = base_fee as u128 * diff as u128 / denom;
        if delta >= base_fee as u128 {
            0
        } else {
            base_fee - delta as u64
        }
    }
}

/// The excess blob gas that follows a parent with this excess blob gas and
/// blob gas used: their sum (saturating at the largest `u64`) less the
/// target, not below zero.
pub open spec fn next_excess_blob_gas(parent_excess: u64, parent_used: u64, target: u64) -> u64 {
    let sum = parent_excess as int + parent_used as int;
    let capped = if sum > u64::MAX as int {
        u64::MAX as int
    } else {
        sum
    };
    if capped < target as int {
        0
    } else {
        (capped - target as int) as u64
    }
}

/// The excess blob gas that follows a parent block.
pub fn calc_next_excess_blob_gas(parent_excess: u64, parent_used: u64, target: u64) -> (r: u64)
    ensures
        r == next_excess_blob_gas(parent_excess, parent_used, target),
{
    parent_excess.saturating_add(parent_used).saturating_sub(target)
}

/// The parameters of a chain's consensus rules, and the clock reading that
/// future timestamps are judged by.
#[derive(Clone, Copy, Debug)]
pub struct ChainRules {
    min_gas_limit: u64,
    max_gas_limit: u64,
    max_extra_data_len: usize,
    present_timestamp: u64,
    empty_ommers_hash: B256,
    shanghai_time: u64,
    cancun_time: u64,
    prague_time: u64,
    blob_gas_per_blob: u64,
    max_blob_gas_per_block: u64,
    target_blob_gas_per_block: u64,
}

impl ChainRules {
    #[verifier::type_invariant]
    spec fn inv(&self) -> bool {
        self.blob_gas_per_blob > 0
    }

    /// The smallest gas limit a header may have.
    pub closed spec fn spec_min_gas_limit(&self) -> u64 {
        self.min_gas_limit
    }

    /// The largest gas limit a header may have.
    pub closed spec fn spec_max_gas_limit(&self) -> u64 {
        self.max_gas_limit
    }

    /// The most bytes of extra data a header may carry.
    pub closed spec fn spec_max_extra_data_len(&self) -> usize {
        self.max_extra_data_len
    }

    /// The clock reading that future timestamps are judged by.
    pub closed spec fn spec_present_timestamp(&self) -> u64 {
        self.present_timestamp
    }

    /// The hash of an empty ommers list.
    pub closed spec fn spec_empty_ommers_hash(&self) -> B256 {
        self.empty_ommers_hash
    }

    /// When withdrawals begin.
    pub closed spec fn spec_shanghai_time(&self) -> u64 {
        self.shanghai_time
    }

    /// When blobs and the parent beacon block root begin.
    pub closed spec fn spec_cancun_time(&self) -> u64 {
        self.cancun_time
    }

    /// When requests begin.
    pub closed spec fn spec_prague_time(&self) -> u64 {
        self.prague_time
    }

    /// The blob gas one blob takes.
    pub closed spec fn spec_blob_gas_per_blob(&self) -> u64 {
        self.blob_gas_per_blob
    }

    /// The most blob gas a block may use.
    pub closed spec fn spec_max_blob_gas_per_block(&self) -> u64 {
        self.max_blob_gas_per_block
    }

    /// The blob gas a block aims at, above which excess accrues.
    pub closed spec fn spec_target_blob_gas_per_block(&self) -> u64 {
        self.target_blob_gas_per_block
    }

    /// Rules with the given gas limit bounds, extra data bound, clock
    /// reading, hash of an empty ommers list, fork activation times and blob
    /// gas parameters (gas per blob, most and target gas per block).
    pub fn new(
        min_gas_limit: u64,
        max_gas_limit: u64,
        max_extra_data_len: usize,
        present_timestamp: u64,
        empty_ommers_hash: B256,
        shanghai_time: u64,
        cancun_time: u64,
        prague_time: u64,
        blob_gas_per_blob: u64,
        max_blob_gas_per_block: u64,
        target_blob_gas_per_block: u64,
    ) -> (r: Self)
        requires
            blob_gas_per_blob > 0,
        ensures
            r.spec_min_gas_limit() == min_gas_limit,
            r.spec_max_gas_limit() == max_gas_limit,
            r.spec_max_extra_data_len() == max_extra_data_len,
            r.spec_present_timestamp() == present_timestamp,
            r.spec_empty_ommers_hash() == empty_ommers_hash,
            r.spec_shanghai_time() == shanghai_time,
            r.spec_cancun_time() == cancun_time,
            r.spec_prague_time() == prague_time,
            r.spec_blob_gas_per_blob() == blob_gas_per_blob,
            r.spec_max_blob_gas_per_block() == max_blob_gas_per_block,
            r.spec_target_blob_gas_per_block() == target_blob_gas_per_block,
    {
        ChainRules {
            min_gas_limit,
            max_gas_limit,
            max_extra_data_len,
            present_timestamp,
            empty_ommers_hash,
            shanghai_time,
            cancun_time,
            prague_time,
            blob_gas_per_blob,
            max_blob_gas_per_block,
            target_blob_gas_per_block,
        }
    }

    /// Withdrawals exist at this timestamp.
    pub open spec fn is_shanghai(&self, timestamp: u64) -> bool {
        timestamp >= self.spec_shanghai_time()
    }

    /// Blobs and the parent beacon block root exist at this timestamp.
    pub open spec fn is_cancun(&self, timestamp: u64) -> bool {
        timestamp >= self.spec_cancun_time()
    }

    /// Requests exist at this timestamp.
    pub open spec fn is_prague(&self, timestamp: u64) -> bool {
        timestamp >= self.spec_prague_time()
    }

    /// The standalone checks on the fields that forks introduced: each is
    /// present exactly when the header's fork has it.
    pub open spec fn fork_fields_check(&self, h: Header) -> Result<(), ConsensusError> {
        let shanghai = self.is_shanghai(h.timestamp);
        let cancun = self.is_cancun(h.timestamp);
        let prague = self.is_prague(h.timestamp);
        if shanghai && h.withdrawals_root is None {
            Err(ConsensusError::WithdrawalsRootMissing)
        } else if !shanghai && h.withdrawals_root is Some {
            Err(ConsensusError::WithdrawalsRootUnexpected)
        } else if cancun && h.blob_gas_used is None {
            Err(ConsensusError::BlobGasUsedMissing)
        } else if !cancun && h.blob_gas_used is Some {
            Err(ConsensusError::BlobGasUsedUnexpected)
        } else if cancun && h.excess_blob_gas is None {
            Err(ConsensusError::ExcessBlobGasMissing)
        } else if !cancun && h.excess_blob_gas is Some {
            Err(ConsensusError::ExcessBlobGasUnexpected)
        } else if cancun && h.parent_beacon_block_root is None {
            Err(ConsensusError::ParentBeaconBlockRootMissing)
        } else if !cancun && h.parent_beacon_block_root is Some {
            Err(ConsensusError::ParentBeaconBlockRootUnexpected)
        } else if prague && h.requests_hash is None {
            Err(ConsensusError::RequestsHashMissing)
        } else if !prague && h.requests_hash is Some {
            Err(ConsensusError::RequestsHashUnexpected)
        } else {
            Ok(())
        }
    }

    /// The standalone checks on a header, in the order they are made.
    pub open spec fn header_check(&self, h: Header) -> Result<(), ConsensusError> {
        if h.extra_data@.len() > self.spec_max_extra_data_len() {
            Err(ConsensusError::ExtraDataExceedsMax { len: h.extra_data@.len() as usize })
        } else if h.gas_used > h.gas_limit {
            Err(
                ConsensusError::HeaderGasUsedExceedsGasLimit {
                    gas_used: h.gas_used,
                    gas_limit: h.gas_limit,
                },
            )
        } else if h.gas_limit > self.spec_max_gas_limit() {
            Err(ConsensusError::HeaderGasLimitExceedsMax { gas_limit: h.gas_limit })
        } else if h.gas_limit < self.spec_min_gas_limit() {
            Err(ConsensusError::GasLimitInvalidMinimum { child_gas_limit: h.gas_limit })
        } else if h.difficulty != 0 {
            Err(ConsensusError::TheMergeDifficultyIsNotZero)
        } else if h.nonce != 0 {
            Err(ConsensusError::TheMergeNonceIsNotZero)
        } else if h.ommers_hash@ != self.spec_empty_ommers_hash()@ {
            Err(ConsensusError::TheMergeOmmerRootIsNotEmpty)
        } else if h.timestamp > self.spec_present_timestamp() {
            Err(
                ConsensusError::TimestampIsInFuture {
                    timestamp: h.timestamp,
                    present_timestamp: self.spec_present_timestamp(),
                },
            )
        } else if h.base_fee_per_gas is None {
            Err(ConsensusError::BaseFeeMissing)
        } else {
            self.fork_fields_check(h)
        }
    }

    fn check_fork_fields(&self, h: &Header) -> (r: Result<(), ConsensusError>)
        ensures
            r == self.fork_fields_check(*h),
    {
        let shanghai = h.timestamp >= self.shanghai_time;
        let cancun = h.timestamp >= self.cancun_time;
        let prague = h.timestamp >= self.prague_time;
        if shanghai && h.withdrawals_root.is_none() {
            Err(ConsensusError::WithdrawalsRootMissing)
        } else if !shanghai && h.withdrawals_root.is_some() {
            Err(ConsensusError::WithdrawalsRootUnexpected)
        } else if cancun && h.blob_gas_used.is_none() {
            Err(ConsensusError::BlobGasUsedMissing)
        } else if !cancun && h.blob_gas_used.is_some() {
            Err(ConsensusError::BlobGasUsedUnexpected)
        } else if cancun && h.excess_blob_gas.is_none() {
            Err(ConsensusError::ExcessBlobGasMissing)
        } else if !cancun && h.excess_blob_gas.is_some() {
            Err(ConsensusError::ExcessBlobGasUnexpected)
        } else if cancun && h.parent_beacon_block_root.is_none() {
            Err(ConsensusError::ParentBeaconBlockRootMissing)
        } else if !cancun && h.parent_beacon_block_root.is_some() {
            Err(ConsensusError::ParentBeaconBlockRootUnexpected)
        } else if prague && h.requests_hash.is_none() {
            Err(ConsensusError::RequestsHashMissing)
        } else if !prague && h.requests_hash.is_some() {
            Err(ConsensusError::RequestsHashUnexpected)
        } else {
            Ok(())
        }
    }

    fn check_header(&self, h: &Header) -> (r: Result<(), ConsensusError>)
        ensures
            r == self.header_check(*h),
    {
        if h.extra_data.len() > self.max_extra_data_len {
            Err(ConsensusError::ExtraDataExceedsMax { len: h.extra_data.len() })
        } else if h.gas_used > h.gas_limit {
            Err(
                ConsensusError::HeaderGasUsedExceedsGasLimit {
                    gas_used: h.gas_used,
                    gas_limit: h.gas_limit,
                },
            )
        } else if h.gas_limit > self.max_gas_limit {
            Err(ConsensusError::HeaderGasLimitExceedsMax { gas_limit: h.gas_limit })
        } else if h.gas_limit < self.min_gas_limit {
            Err(ConsensusError::GasLimitInvalidMinimum { child_gas_limit: h.gas_limit })
        } else if h.difficulty != 0 {
            Err(ConsensusError::TheMergeDifficultyIsNotZero)
        } else if h.nonce != 0 {
            Err(ConsensusError::TheMergeNonceIsNotZero)
        } else if !h.ommers_hash.same_as(&self.empty_ommers_hash) {
            Err(ConsensusError::TheMergeOmmerRootIsNotEmpty)
        } else if h.timestamp > self.present_timestamp {
            Err(
                ConsensusError::TimestampIsInFuture {
                    timestamp: h.timestamp,
                    present_timestamp: self.present_timestamp,
                },
            )
        } else if h.base_fee_per_gas.is_none() {
            Err(ConsensusError::BaseFeeMissing)
        } else {
            self.check_fork_fields(h)
        }
    }
}

impl ChainRules {
    /// The checks of a header against its parent, in the order they are made:
    /// parent hash, block number, timestamp, gas limit movement, then fees.
    pub open spec fn parent_check(
        &self,
        header: SealedHeader<Header>,
        parent: SealedHeader<Header>,
    ) -> Result<(), ConsensusError> {
        let c = header.spec_header();
        let p = parent.spec_header();
        if c.parent_hash@ != parent.spec_hash()@ {
            Err(
                ConsensusError::ParentHashMismatch(
                    GotExpectedBoxed::spec_new(c.parent_hash, parent.spec_hash()),
                ),
            )
        } else if c.number as int != p.number as int + 1 {
            Err(
                ConsensusError::ParentBlockNumberMismatch {
                    parent_block_number: p.number,
                    block_number: c.number,
                },
            )
        } else if c.timestamp <= p.timestamp {
            Err(
                ConsensusError::TimestampIsInPast {
                    parent_timestamp: p.timestamp,
                    timestamp: c.timestamp,
                },
            )
        } else if c.gas_limit > p.gas_limit && c.gas_limit - p.gas_limit > p.gas_limit
            / GAS_LIMIT_BOUND_DIVISOR {
            Err(
                ConsensusError::GasLimitInvalidIncrease {
                    parent_gas_limit: p.gas_limit,
                    child_gas_limit: c.gas_limit,
                },
            )
        } else if c.gas_limit < p.gas_limit && p.gas_limit - c.gas_limit > p.gas_limit
            / GAS_LIMIT_BOUND_DIVISOR {
            Err(
                ConsensusError::GasLimitInvalidDecrease {
                    parent_gas_limit: p.gas_limit,
                    child_gas_limit: c.gas_limit,
                },
            )
        } else if c.gas_limit < self.spec_min_gas_limit() {
            Err(ConsensusError::GasLimitInvalidMinimum { child_gas_limit: c.gas_limit })
        } else {
            self.fee_check(c, p)
        }
    }

    /// The parent checks on fees: the base fee is the one that follows the
    /// parent's, and from the blob fork on, so is the excess blob gas (a
    /// parent without blob fields counts as zero for them).
    pub open spec fn fee_check(&self, c: Header, p: Header) -> Result<(), ConsensusError> {
        if c.base_fee_per_gas is None || p.base_fee_per_gas is None {
            Err(ConsensusError::BaseFeeMissing)
        } else if c.base_fee_per_gas.unwrap() != next_base_fee(
            p.gas_used,
            p.gas_limit,
            p.base_fee_per_gas.unwrap(),
        ) {
            Err(
                ConsensusError::BaseFeeDiff(
                    GotExpected {
                        got: c.base_fee_per_gas.unwrap(),
                        expected: next_base_fee(
                            p.gas_used,
                            p.gas_limit,
                            p.base_fee_per_gas.unwrap(),
                        ),
                    },
                ),
            )
        } else if !self.is_cancun(c.timestamp) {
            Ok(())
        } else if c.excess_blob_gas is None {
            Err(ConsensusError::ExcessBlobGasMissing)
        } else {
            let parent_excess = if p.excess_blob_gas is Some {
                p.excess_blob_gas.unwrap()
            } else {
                0u64
            };
            let parent_used = if p.blob_gas_used is Some {
                p.blob_gas_used.unwrap()
            } else {
                0u64
            };
            let expected = next_excess_blob_gas(
                parent_excess,
                parent_used,
                self.spec_target_blob_gas_per_block(),
            );
            if c.excess_blob_gas.unwrap() != expected {
                Err(
                    ConsensusError::ExcessBlobGasDiff {
                        diff: GotExpected { got: c.excess_blob_gas.unwrap(), expected },
                        parent_excess_blob_gas: parent_excess,
                        parent_blob_gas_used: parent_used,
                    },
                )
            } else {
                Ok(())
            }
        }
    }

    fn check_fees(&self, c: &Header, p: &Header) -> (r: Result<(), ConsensusError>)
        ensures
            r == self.fee_check(*c, *p),
    {
        let (got, parent_fee) = match (c.base_fee_per_gas, p.base_fee_per_gas) {
            (Some(got), Some(parent_fee)) => (got, parent_fee),
            _ => {
                return Err(ConsensusError::BaseFeeMissing);
            },
        };
        let expected = calc_next_base_fee(p.gas_used, p.gas_limit, parent_fee);
        if got != expected {
            return Err(ConsensusError::BaseFeeDiff(GotExpected { got, expected }));
        }
        if c.timestamp < self.cancun_time {
            return Ok(());
        }
        let got_excess = match c.excess_blob_gas {
            Some(x) => x,
            None => {
                return Err(ConsensusError::ExcessBlobGasMissing);
            },
        };
        let parent_excess = match p.excess_blob_gas {
            Some(x) => x,
            None => 0,
        };
        let parent_used = match p.blob_gas_used {
            Some(x) => x,
            None => 0,
        };
        let expected = calc_next_excess_blob_gas(
            parent_excess,
            parent_used,
            self.target_blob_gas_per_block,
        );
        if got_excess != expected {
            Err(
                ConsensusError::ExcessBlobGasDiff {
                    diff: GotExpected { got: got_excess, expected },
                    parent_excess_blob_gas: parent_excess,
                    parent_blob_gas_used: parent_used,
                },
            )
        } else {
            Ok(())
        }
    }

    fn check_against_parent(
        &self,
        header: &SealedHeader<Header>,
        parent: &SealedHeader<Header>,
    ) -> (r: Result<(), ConsensusError>)
        ensures
            r == self.parent_check(*header, *parent),
    {
        let c = header.header();
        let p = parent.header();
        let parent_hash = parent.hash();
        if !c.parent_hash.same_as(&parent_hash) {
            Err(ConsensusError::ParentHashMismatch(GotExpectedBoxed::new(c.parent_hash, parent_hash)))
        } else if p.number == u64::MAX || c.number != p.number + 1 {
            Err(
                ConsensusError::ParentBlockNumberMismatch {
                    parent_block_number: p.number,
                    block_number: c.number,
                },
            )
        } else if c.timestamp <= p.timestamp {
            Err(
                ConsensusError::TimestampIsInPast {
                    parent_timestamp: p.timestamp,
                    timestamp: c.timestamp,
                },
            )
        } else if c.gas_limit > p.gas_limit && c.gas_limit - p.gas_limit > p.gas_limit
            / GAS_LIMIT_BOUND_DIVISOR {
            Err(
                ConsensusError::GasLimitInvalidIncrease {
                    parent_gas_limit: p.gas_limit,
                    child_gas_limit: c.gas_limit,
                },
            )
        } else if c.gas_limit < p.gas_limit && p.gas_limit - c.gas_limit > p.gas_limit
            / GAS_LIMIT_BOUND_DIVISOR {
            Err(
                ConsensusError::GasLimitInvalidDecrease {
                    parent_gas_limit: p.gas_limit,
                    child_gas_limit: c.gas_limit,
                },
            )
        } else if c.gas_limit < self.min_gas_limit {
            Err(ConsensusError::GasLimitInvalidMinimum { child_gas_limit: c.gas_limit })
        } else {
            self.check_fees(c, p)
        }
    }

    /// The checks of a body's digests against its header, in the order they
    /// are made. Each mismatch reports the body's digest as found and the
    /// header's as expected.
    pub open spec fn body_check(&self, body: BlockBody, h: Header) -> Result<(), ConsensusError> {
        if body.ommers_hash@ != h.ommers_hash@ {
            Err(
                ConsensusError::BodyOmmersHashDiff(
                    GotExpectedBoxed::spec_new(body.ommers_hash, h.ommers_hash),
                ),
            )
        } else if body.transactions_root@ != h.transactions_root@ {
            Err(
                ConsensusError::BodyTransactionRootDiff(
                    GotExpectedBoxed::spec_new(body.transactions_root, h.transactions_root),
                ),
            )
        } else if body.withdrawals_root is Some && h.withdrawals_root is None {
            Err(ConsensusError::WithdrawalsRootMissing)
        } else if body.withdrawals_root is Some && body.withdrawals_root.unwrap()@
            != h.withdrawals_root.unwrap()@ {
            Err(
                ConsensusError::BodyWithdrawalsRootDiff(
                    GotExpectedBoxed::spec_new(
                        body.withdrawals_root.unwrap(),
                        h.withdrawals_root.unwrap(),
                    ),
                ),
            )
        } else if body.withdrawals_root is None && h.withdrawals_root is Some {
            Err(ConsensusError::BodyWithdrawalsMissing)
        } else if body.requests_hash is Some && h.requests_hash is None {
            Err(ConsensusError::RequestsHashMissing)
        } else if body.requests_hash is Some && body.requests_hash.unwrap()@
            != h.requests_hash.unwrap()@ {
            Err(
                ConsensusError::BodyRequestsHashDiff(
                    GotExpectedBoxed::spec_new(body.requests_hash.unwrap(), h.requests_hash.unwrap()),
                ),
            )
        } else if body.requests_hash is None && h.requests_hash is Some {
            Err(ConsensusError::BodyRequestsMissing)
        } else {
            Ok(())
        }
    }

    fn check_body(&self, body: &BlockBody, h: &Header) -> (r: Result<(), ConsensusError>)
        ensures
            r == self.body_check(*body, *h),
    {
        if !body.ommers_hash.same_as(&h.ommers_hash) {
            return Err(
                ConsensusError::BodyOmmersHashDiff(
                    GotExpectedBoxed::new(body.ommers_hash, h.ommers_hash),
                ),
            );
        }
        if !body.transactions_root.same_as(&h.transactions_root) {
            return Err(
                ConsensusError::BodyTransactionRootDiff(
                    GotExpectedBoxed::new(body.transactions_root, h.transactions_root),
                ),
            );
        }
        match (body.withdrawals_root, h.withdrawals_root) {
            (Some(_), None) => {
                return Err(ConsensusError::WithdrawalsRootMissing);
            },
            (Some(got), Some(expected)) => {
                if !got.same_as(&expected) {
                    return Err(
                        ConsensusError::BodyWithdrawalsRootDiff(
                            GotExpectedBoxed::new(got, expected),
                        ),
                    );
                }
            },
            (None, Some(_)) => {
                return Err(ConsensusError::BodyWithdrawalsMissing);
            },
            (None, None) => {},
        }
        match (body.requests_hash, h.requests_hash) {
            (Some(_), None) => Err(ConsensusError::RequestsHashMissing),
            (Some(got), Some(expected)) => {
                if !got.same_as(&expected) {
                    Err(ConsensusError::BodyRequestsHashDiff(GotExpectedBoxed::new(got, expected)))
                } else {
                    Ok(())
                }
            },
            (None, Some(_)) => Err(ConsensusError::BodyRequestsMissing),
            (None, None) => Ok(()),
        }
    }

    /// The blob gas bounds: a whole number of blobs, and no more than a block
    /// may use.
    pub open spec fn blob_gas_check(&self, h: Header) -> Result<(), ConsensusError> {
        match h.blob_gas_used {
            Some(used) => if used % self.spec_blob_gas_per_blob() != 0 {
                Err(
                    ConsensusError::BlobGasUsedNotMultipleOfBlobGasPerBlob {
                        blob_gas_used: used,
                        blob_gas_per_blob: self.spec_blob_gas_per_blob(),
                    },
                )
            } else if used > self.spec_max_blob_gas_per_block() {
                Err(
                    ConsensusError::BlobGasUsedExceedsMaxBlobGasPerBlock {
                        blob_gas_used: used,
                        max_blob_gas_per_block: self.spec_max_blob_gas_per_block(),
                    },
                )
            } else {
                Ok(())
            },
            None => Ok(()),
        }
    }

    fn check_blob_gas(&self, h: &Header) -> (r: Result<(), ConsensusError>)
        ensures
            r == self.blob_gas_check(*h),
    {
        proof {
            use_type_invariant(self);
        }
        match h.blob_gas_used {
            Some(used) => if used % self.blob_gas_per_blob != 0 {
                Err(
                    ConsensusError::BlobGasUsedNotMultipleOfBlobGasPerBlob {
                        blob_gas_used: used,
                        blob_gas_per_blob: self.blob_gas_per_blob,
                    },
                )
            } else if used > self.max_blob_gas_per_block {
                Err(
                    ConsensusError::BlobGasUsedExceedsMaxBlobGasPerBlock {
                        blob_gas_used: used,
                        max_blob_gas_per_block: self.max_blob_gas_per_block,
                    },
                )
            } else {
                Ok(())
            },
            None => Ok(()),
        }
    }

    /// The checks made on a block before execution: its body against its
    /// header, then the blob gas bounds.
    pub open spec fn pre_execution_check(&self, block: SealedBlock) -> Result<(), ConsensusError> {
        let h = block.header.spec_header();
        match self.body_check(block.body, h) {
            Ok(()) => self.blob_gas_check(h),
            Err(e) => Err(e),
        }
    }
}

/// One entry per transaction: its index and the gas it used.
pub open spec fn tx_gas_entries(gas: Seq<u64>) -> Seq<(u64, u64)> {
    Seq::new(gas.len(), |i: int| (i as u64, gas[i]))
}

/// The gas that a block's transactions used together.
fn total_gas(gas: &Vec<u64>) -> (r: u64)
    requires
        gas_sum(gas@) <= u64::MAX,
    ensures
        r == gas_sum(gas@),
{
    let mut total: u64 = 0;
    let mut i: usize = 0;
    while i < gas.len()
        invariant
            i <= gas@.len(),
            gas_sum(gas@) <= u64::MAX,
            total == gas_sum(gas@.take(i as int)),
        decreases gas@.len() - i,
    {
        proof {
            lemma_gas_sum_prefix(gas@, i + 1);
            assert(gas@.take(i + 1).drop_last() == gas@.take(i as int));
        }
        total = total + gas[i];
        i = i + 1;
    }
    assert(gas@.take(i as int) == gas@);
    total
}

/// The index and gas of each transaction.
fn gas_spent_by_transactions(gas: &Vec<u64>) -> (r: Vec<(u64, u64)>)
    ensures
        r@ == tx_gas_entries(gas@),
{
    let mut entries: Vec<(u64, u64)> = Vec::new();
    let mut i: usize = 0;
    while i < gas.len()
        invariant
            i <= gas@.len(),
            entries@ == tx_gas_entries(gas@.take(i as int)),
        decreases gas@.len() - i,
    {
        entries.push((i as u64, gas[i]));
        i = i + 1;
        assert(entries@ =~= tx_gas_entries(gas@.take(i as int)));
    }
    assert(gas@.take(i as int) == gas@);
    entries
}

impl HeaderValidator<Header> for ChainRules {
    open spec fn header_verdict(&self, header: SealedHeader<Header>) -> Result<(), ConsensusError> {
        self.header_check(header.spec_header())
    }

    open spec fn parent_verdict(
        &self,
        header: SealedHeader<Header>,
        parent: SealedHeader<Header>,
    ) -> Result<(), ConsensusError> {
        self.parent_check(header, parent)
    }

    fn validate_header(&self, header: &SealedHeader<Header>) -> (r: Result<(), ConsensusError>) {
        self.check_header(header.header())
    }

    fn validate_header_against_parent(
        &self,
        header: &SealedHeader<Header>,
        parent: &SealedHeader<Header>,
    ) -> (r: Result<(), ConsensusError>) {
        self.check_against_parent(header, parent)
    }
}

impl Consensus for ChainRules {
    open spec fn body_verdict(&self, body: BlockBody, header: SealedHeader<Header>) -> Result<
        (),
        ConsensusError,
    > {
        self.body_check(body, header.spec_header())
    }

    open spec fn pre_execution_verdict(&self, block: SealedBlock) -> Result<(), ConsensusError> {
        self.pre_execution_check(block)
    }

    fn validate_body_against_header(
        &self,
        body: &BlockBody,
        header: &SealedHeader<Header>,
    ) -> (r: Result<(), ConsensusError>) {
        self.check_body(body, header.header())
    }

    fn validate_block_pre_execution(&self, block: &SealedBlock) -> (r: Result<(), ConsensusError>) {
        let h = block.header.header();
        match self.check_body(&block.body, h) {
            Ok(()) => self.check_blob_gas(h),
            Err(e) => Err(e),
        }
    }
}

impl FullConsensus for ChainRules {
    /// The gas the transactions used must add up to the header's gas used,
    /// and the receipts root and logs bloom must be the header's; the first
    /// mismatch is the outcome.
    open spec fn post_execution_outcome(
        &self,
        block: RecoveredBlock,
        result: BlockExecutionResult,
        outcome: Result<(), ConsensusError>,
    ) -> bool {
        let h = block.block.header.spec_header();
        let total = result.total_gas_used();
        if total != h.gas_used as int {
            outcome matches Err(ConsensusError::BlockGasUsed { gas, gas_spent_by_tx }) && gas
                == (GotExpected { got: total as u64, expected: h.gas_used }) && gas_spent_by_tx@
                == tx_gas_entries(result.gas_used_by_tx@)
        } else if result.receipts_root@ != h.receipts_root@ {
            outcome == Err::<(), ConsensusError>(
                ConsensusError::BodyReceiptRootDiff(
                    GotExpectedBoxed::spec_new(result.receipts_root, h.receipts_root),
                ),
            )
        } else if result.logs_bloom@ != h.logs_bloom@ {
            outcome == Err::<(), ConsensusError>(
                ConsensusError::BodyBloomLogDiff(
                    GotExpectedBoxed::spec_new(result.logs_bloom, h.logs_bloom),
                ),
            )
        } else {
            outcome == Ok::<(), ConsensusError>(())
        }
    }

    fn validate_block_post_execution(
        &self,
        block: &RecoveredBlock,
        result: &BlockExecutionResult,
    ) -> (r: Result<(), ConsensusError>) {
        let h = block.block.header.header();
        let total = total_gas(&result.gas_used_by_tx);
        if total != h.gas_used {
            let gas_spent_by_tx = gas_spent_by_transactions(&result.gas_used_by_tx);
            return Err(
                ConsensusError::BlockGasUsed {
                    gas: GotExpected { got: total, expected: h.gas_used },
                    gas_spent_by_tx,
                },
            );
        }
        if !result.receipts_root.same_as(&h.receipts_root) {
            return Err(
                ConsensusError::BodyReceiptRootDiff(
                    GotExpectedBoxed::new(result.receipts_root, h.receipts_root),
                ),
            );
        }
        if !result.logs_bloom.same_as(&h.logs_bloom) {
            return Err(
                ConsensusError::BodyBloomLogDiff(
                    GotExpectedBoxed::new(result.logs_bloom, h.logs_bloom),
                ),
            );
        }
        Ok(())
    }
}

} // verus!
