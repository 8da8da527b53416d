//! Facts about the validators, proved from the contracts and the rule set.
use vstd::prelude::*;
use crate::error::ConsensusError;
use crate::primitives::{
    B256, BlockBody, BlockExecutionResult, GotExpectedBoxed, Header, RecoveredBlock,
    SealedHeader, lemma_gas_sum_prefix,
};
use crate::rules::{ChainRules, GAS_LIMIT_BOUND_DIVISOR};
use crate::validator::{
    Consensus, FullConsensus, HeaderValidator, range_accepted, range_failure_at,
};

verus! {

/// An empty run is accepted, whatever the checks.
pub proof fn lemma_empty_range_accepted<H>(
    header_verdict: spec_fn(SealedHeader<H>) -> Result<(), ConsensusError>,
    parent_verdict: spec_fn(SealedHeader<H>, SealedHeader<H>) -> Result<(), ConsensusError>,
)
    ensures
        range_accepted(header_verdict, parent_verdict, Seq::<SealedHeader<H>>::empty()),
        forall|i: int, err: ConsensusError|
            !range_failure_at(header_verdict, parent_verdict, Seq::<SealedHeader<H>>::empty(), i, err),
{
}

/// A run of one header is decided by the standalone check alone: it is
/// accepted exactly when that header passes, a failure is that check's, and
/// the check against a parent plays no part.
pub proof fn lemma_single_header_range<H>(
    header_verdict: spec_fn(SealedHeader<H>) -> Result<(), ConsensusError>,
    parent_verdict: spec_fn(SealedHeader<H>, SealedHeader<H>) -> Result<(), ConsensusError>,
    h0: SealedHeader<H>,
)
    ensures
        range_accepted(header_verdict, parent_verdict, seq![h0]) <==> header_verdict(h0) is Ok,
        forall|i: int, err: ConsensusError|
            range_failure_at(header_verdict, parent_verdict, seq![h0], i, err) ==> i == 0
                && header_verdict(h0) == Err::<(), ConsensusError>(err),
{
    let s = seq![h0];
    assert(s[0] == h0);
}

/// In a run of two headers whose first passes on its own and whose second
/// fails against the first, the run fails, and only at the second header.
pub proof fn lemma_two_header_range_fails_at_second<H>(
    header_verdict: spec_fn(SealedHeader<H>) -> Result<(), ConsensusError>,
    parent_verdict: spec_fn(SealedHeader<H>, SealedHeader<H>) -> Result<(), ConsensusError>,
    h0: SealedHeader<H>,
    h1: SealedHeader<H>,
)
    requires
        header_verdict(h0) is Ok,
        parent_verdict(h1, h0) is Err,
    ensures
        !range_accepted(header_verdict, parent_verdict, seq![h0, h1]),
        forall|i: int, err: ConsensusError|
            range_failure_at(header_verdict, parent_verdict, seq![h0, h1], i, err) ==> i == 1,
        header_verdict(h1) is Ok ==> forall|i: int, err: ConsensusError|
            range_failure_at(header_verdict, parent_verdict, seq![h0, h1], i, err)
                ==> parent_verdict(h1, h0) == Err::<(), ConsensusError>(err),
{
    let s = seq![h0, h1];
    assert(s[0] == h0 && s[1] == h1);
    assert(parent_verdict(s[1], s[1 - 1]) is Err);
}

/// A header whose declared parent hash is not its parent's hash fails the
/// check against that parent with the parent hash mismatch, reporting the
/// declared hash as found and the parent's as expected. In a run, the
/// failure is thus at that header.
pub proof fn lemma_parent_hash_mismatch(
    rules: &ChainRules,
    header: SealedHeader<Header>,
    parent: SealedHeader<Header>,
)
    requires
        header.spec_header().parent_hash@ != parent.spec_hash()@,
    ensures
        rules.parent_verdict(header, parent) == Err::<(), ConsensusError>(
            ConsensusError::ParentHashMismatch(
                GotExpectedBoxed::spec_new(header.spec_header().parent_hash, parent.spec_hash()),
            ),
        ),
{
}

/// Under the rules, a run of two headers whose first passes on its own and
/// whose second does not name the first's hash as its parent fails at the
/// second header; where that header passes on its own, with the parent hash
/// mismatch.
pub proof fn lemma_range_parent_hash_mismatch(
    rules: &ChainRules,
    h0: SealedHeader<Header>,
    h1: SealedHeader<Header>,
)
    requires
        rules.header_verdict(h0) is Ok,
        h1.spec_header().parent_hash@ != h0.spec_hash()@,
    ensures
        ({
            let hv = |h: SealedHeader<Header>| rules.header_verdict(h);
            let pv = |h: SealedHeader<Header>, p: SealedHeader<Header>| rules.parent_verdict(h, p);
            &&& !range_accepted(hv, pv, seq![h0, h1])
            &&& forall|i: int, err: ConsensusError|
                range_failure_at(hv, pv, seq![h0, h1], i, err) ==> i == 1
            &&& rules.header_verdict(h1) is Ok ==> forall|i: int, err: ConsensusError|
                range_failure_at(hv, pv, seq![h0, h1], i, err) ==> err
                    == ConsensusError::ParentHashMismatch(
                    GotExpectedBoxed::spec_new(h1.spec_header().parent_hash, h0.spec_hash()),
                )
        }),
{
    let hv = |h: SealedHeader<Header>| rules.header_verdict(h);
    let pv = |h: SealedHeader<Header>, p: SealedHeader<Header>| rules.parent_verdict(h, p);
    lemma_parent_hash_mismatch(rules, h1, h0);
    lemma_two_header_range_fails_at_second(hv, pv, h0, h1);
}

/// A header is well formed for the rules: its extra data and gas are within
/// bounds, its post-merge fields are zero or empty, its timestamp is not in
/// the future, it has a base fee, and each fork-dependent field is present
/// exactly when its fork is active.
pub open spec fn well_formed_header(rules: &ChainRules, h: Header) -> bool {
    &&& h.extra_data@.len() <= rules.spec_max_extra_data_len()
    &&& h.gas_used <= h.gas_limit
    &&& rules.spec_min_gas_limit() <= h.gas_limit <= rules.spec_max_gas_limit()
    &&& h.difficulty == 0
    &&& h.nonce == 0
    &&& h.ommers_hash@ == rules.spec_empty_ommers_hash()@
    &&& h.timestamp <= rules.spec_present_timestamp()
    &&& h.base_fee_per_gas is Some
    &&& (h.withdrawals_root is Some <==> rules.is_shanghai(h.timestamp))
    &&& (h.blob_gas_used is Some <==> rules.is_cancun(h.timestamp))
    &&& (h.excess_blob_gas is Some <==> rules.is_cancun(h.timestamp))
    &&& (h.parent_beacon_block_root is Some <==> rules.is_cancun(h.timestamp))
    &&& (h.requests_hash is Some <==> rules.is_prague(h.timestamp))
}

/// The standalone check accepts a header exactly when it is well formed.
pub proof fn lemma_well_formed_header_accepted(rules: &ChainRules, h: SealedHeader<Header>)
    ensures
        rules.header_verdict(h) is Ok <==> well_formed_header(rules, h.spec_header()),
{
}

/// Changing the ommers hash of a body that matched its header makes the body
/// check fail with the ommers hash mismatch.
pub proof fn lemma_body_ommers_hash_flip(
    rules: &ChainRules,
    body: BlockBody,
    header: SealedHeader<Header>,
    ommers_hash: B256,
)
    requires
        rules.body_verdict(body, header) is Ok,
        ommers_hash@ != body.ommers_hash@,
    ensures
        rules.body_verdict(BlockBody { ommers_hash, ..body }, header) == Err::<(), ConsensusError>(
            ConsensusError::BodyOmmersHashDiff(
                GotExpectedBoxed::spec_new(ommers_hash, header.spec_header().ommers_hash),
            ),
        ),
{
}

/// Changing the transactions root of a body that matched its header makes
/// the body check fail with the transactions root mismatch.
pub proof fn lemma_body_transactions_root_flip(
    rules: &ChainRules,
    body: BlockBody,
    header: SealedHeader<Header>,
    transactions_root: B256,
)
    requires
        rules.body_verdict(body, header) is Ok,
        transactions_root@ != body.transactions_root@,
    ensures
        rules.body_verdict(BlockBody { transactions_root, ..body }, header) == Err::<
            (),
            ConsensusError,
        >(
            ConsensusError::BodyTransactionRootDiff(
                GotExpectedBoxed::spec_new(
                    transactions_root,
                    header.spec_header().transactions_root,
                ),
            ),
        ),
{
}

/// Changing the withdrawals root of a body that matched its header makes
/// the body check fail with the withdrawals root mismatch.
pub proof fn lemma_body_withdrawals_root_flip(
    rules: &ChainRules,
    body: BlockBody,
    header: SealedHeader<Header>,
    withdrawals_root: B256,
)
    requires
        rules.body_verdict(body, header) is Ok,
        body.withdrawals_root matches Some(w) && withdrawals_root@ != w@,
    ensures
        rules.body_verdict(BlockBody { withdrawals_root: Some(withdrawals_root), ..body }, header)
            == Err::<(), ConsensusError>(
            ConsensusError::BodyWithdrawalsRootDiff(
                GotExpectedBoxed::spec_new(
                    withdrawals_root,
                    header.spec_header().withdrawals_root.unwrap(),
                ),
            ),
        ),
{
}

/// Changing the requests hash of a body that matched its header makes the
/// body check fail with the requests hash mismatch.
pub proof fn lemma_body_requests_hash_flip(
    rules: &ChainRules,
    body: BlockBody,
    header: SealedHeader<Header>,
    requests_hash: B256,
)
    requires
        rules.body_verdict(body, header) is Ok,
        body.requests_hash matches Some(q) && requests_hash@ != q@,
    ensures
        rules.body_verdict(BlockBody { requests_hash: Some(requests_hash), ..body }, header)
            == Err::<(), ConsensusError>(
            ConsensusError::BodyRequestsHashDiff(
                GotExpectedBoxed::spec_new(requests_hash, header.spec_header().requests_hash.unwrap()),
            ),
        ),
{
}

/// A header that names its parent's hash and the next block number, with a
/// later timestamp: its gas limit passes the parent check when it grew by at
/// most the parent's limit divided by the bound divisor and is not below the
/// minimum (and its fees follow the parent's), and fails with an invalid
/// increase when it grew by more.
pub proof fn lemma_gas_limit_increase_bound(
    rules: &ChainRules,
    header: SealedHeader<Header>,
    parent: SealedHeader<Header>,
)
    requires
        header.spec_header().parent_hash@ == parent.spec_hash()@,
        header.spec_header().number as int == parent.spec_header().number as int + 1,
        header.spec_header().timestamp > parent.spec_header().timestamp,
    ensures
        ({
            let g = parent.spec_header().gas_limit as int;
            let c = header.spec_header().gas_limit as int;
            &&& g <= c <= g + g / (GAS_LIMIT_BOUND_DIVISOR as int) && c >= rules.spec_min_gas_limit()
                && rules.fee_check(header.spec_header(), parent.spec_header()) is Ok
                ==> rules.parent_verdict(header, parent) is Ok
            &&& c > g + g / (GAS_LIMIT_BOUND_DIVISOR as int) ==> rules.parent_verdict(header, parent)
                == Err::<(), ConsensusError>(
                ConsensusError::GasLimitInvalidIncrease {
                    parent_gas_limit: parent.spec_header().gas_limit,
                    child_gas_limit: header.spec_header().gas_limit,
                },
            )
        }),
{
}

/// A header that names its parent's hash and the next block number fails
/// the parent check with a timestamp in the past when its timestamp equals
/// the parent's; one second later, with the parent's gas limit, not below
/// the minimum, and fees that follow the parent's, it passes.
pub proof fn lemma_timestamp_boundary(
    rules: &ChainRules,
    header: SealedHeader<Header>,
    parent: SealedHeader<Header>,
)
    requires
        header.spec_header().parent_hash@ == parent.spec_hash()@,
        header.spec_header().number as int == parent.spec_header().number as int + 1,
    ensures
        header.spec_header().timestamp == parent.spec_header().timestamp ==> rules.parent_verdict(
            header,
            parent,
        ) == Err::<(), ConsensusError>(
            ConsensusError::TimestampIsInPast {
                parent_timestamp: parent.spec_header().timestamp,
                timestamp: header.spec_header().timestamp,
            },
        ),
        header.spec_header().timestamp as int == parent.spec_header().timestamp as int + 1
            && header.spec_header().gas_limit == parent.spec_header().gas_limit
            && header.spec_header().gas_limit >= rules.spec_min_gas_limit() && rules.fee_check(
            header.spec_header(),
            parent.spec_header(),
        ) is Ok ==> rules.parent_verdict(
            header,
            parent,
        ) is Ok,
{
}

/// When the transactions' gas does not add up to the header's gas used,
/// the post-execution check reports the sum as found, the header's gas used
/// as expected, and one entry per transaction.
pub proof fn lemma_post_execution_gas_mismatch(
    rules: &ChainRules,
    block: RecoveredBlock,
    result: BlockExecutionResult,
    outcome: Result<(), ConsensusError>,
)
    requires
        result.total_gas_used() <= u64::MAX,
        result.total_gas_used() != block.block.header.spec_header().gas_used as int,
        rules.post_execution_outcome(block, result, outcome),
    ensures
        outcome matches Err(ConsensusError::BlockGasUsed { gas, gas_spent_by_tx }) && gas.got
            == result.total_gas_used() && gas.expected == block.block.header.spec_header().gas_used
            && gas_spent_by_tx@.len() == result.gas_used_by_tx@.len(),
{
    lemma_gas_sum_prefix(result.gas_used_by_tx@, 0);
    assert(result.gas_used_by_tx@.take(0) =~= Seq::<u64>::empty());
}

} // verus!
