use reth_consensus::{
    B256, BlockBody, BlockExecutionResult, Bloom, ChainRules, Consensus, ConsensusError,
    FullConsensus, GotExpected, GotExpectedBoxed, Header, HeaderConsensusError, HeaderValidator,
    InvalidTransactionError, RecoveredBlock, SealedBlock, SealedHeader, bytes_equal,
    calc_next_base_fee, calc_next_excess_blob_gas,
};

const EMPTY_OMMERS: B256 = B256([0x1d; 32]);
const MIN_GAS: u64 = 5000;
const MAX_GAS: u64 = 1 << 62;
const NOW: u64 = 1_000_000;
const BLOB_GAS_PER_BLOB: u64 = 131_072;
const MAX_BLOB_GAS: u64 = 786_432;
const TARGET_BLOB_GAS: u64 = 393_216;

fn rules() -> ChainRules {
    ChainRules::new(
        MIN_GAS,
        MAX_GAS,
        32,
        NOW,
        EMPTY_OMMERS,
        100,
        200,
        300,
        BLOB_GAS_PER_BLOB,
        MAX_BLOB_GAS,
        TARGET_BLOB_GAS,
    )
}

fn hash(b: u8) -> B256 {
    B256([b; 32])
}

/// A header that the rules accept at the given timestamp.
fn header(number: u64, timestamp: u64, gas_limit: u64, parent_hash: B256) -> Header {
    Header {
        parent_hash,
        ommers_hash: EMPTY_OMMERS,
        state_root: hash(0x51),
        transactions_root: hash(0x71),
        receipts_root: hash(0x81),
        logs_bloom: Bloom([0; 256]),
        difficulty: 0,
        number,
        gas_limit,
        gas_used: 21_000,
        timestamp,
        extra_data: vec![1, 2, 3],
        nonce: 0,
        base_fee_per_gas: Some(7),
        withdrawals_root: if timestamp >= 100 { Some(hash(0x91)) } else { None },
        blob_gas_used: if timestamp >= 200 { Some(2 * BLOB_GAS_PER_BLOB) } else { None },
        excess_blob_gas: if timestamp >= 200 { Some(0) } else { None },
        parent_beacon_block_root: if timestamp >= 200 { Some(hash(0xb1)) } else { None },
        requests_hash: if timestamp >= 300 { Some(hash(0xc1)) } else { None },
    }
}

fn sealed(h: Header, b: u8) -> SealedHeader<Header> {
    SealedHeader::new(h, hash(b))
}

fn parent_and_child(child_gas_limit: u64, child_timestamp: u64) -> (SealedHeader<Header>, SealedHeader<Header>) {
    let parent = sealed(header(10, 400, 30_000_000, hash(0xaa)), 0x10);
    let child = sealed(header(11, child_timestamp, child_gas_limit, hash(0x10)), 0x11);
    (parent, child)
}

fn body_for(h: &Header) -> BlockBody {
    BlockBody {
        ommers_hash: h.ommers_hash,
        transactions_root: h.transactions_root,
        withdrawals_root: h.withdrawals_root,
        requests_hash: h.requests_hash,
    }
}

fn std_check(r: Result<(), ConsensusError>, expected: ConsensusError) {
    assert_eq!(r, Err(expected));
}

#[test]
fn well_formed_headers_are_accepted_in_every_fork() {
    let r = rules();
    for ts in [50u64, 150, 250, 400, NOW] {
        assert_eq!(r.validate_header(&sealed(header(1, ts, 30_000_000, hash(0)), 1)), Ok(()));
    }
}

#[test]
fn extra_data_too_long() {
    let mut h = header(1, 400, 30_000_000, hash(0));
    h.extra_data = vec![0; 33];
    std_check(rules().validate_header(&sealed(h, 1)), ConsensusError::ExtraDataExceedsMax { len: 33 });
}

#[test]
fn extra_data_at_bound_is_accepted() {
    let mut h = header(1, 400, 30_000_000, hash(0));
    h.extra_data = vec![0; 32];
    assert_eq!(rules().validate_header(&sealed(h, 1)), Ok(()));
}

#[test]
fn gas_used_above_limit() {
    let mut h = header(1, 400, 30_000, hash(0));
    h.gas_used = 30_001;
    std_check(
        rules().validate_header(&sealed(h, 1)),
        ConsensusError::HeaderGasUsedExceedsGasLimit { gas_used: 30_001, gas_limit: 30_000 },
    );
}

#[test]
fn gas_limit_above_max() {
    let h = header(1, 400, MAX_GAS + 1, hash(0));
    std_check(rules().validate_header(&sealed(h, 1)), ConsensusError::HeaderGasLimitExceedsMax { gas_limit: MAX_GAS + 1 });
}

#[test]
fn gas_limit_below_min() {
    let mut h = header(1, 400, MIN_GAS - 1, hash(0));
    h.gas_used = 0;
    std_check(rules().validate_header(&sealed(h, 1)), ConsensusError::GasLimitInvalidMinimum { child_gas_limit: MIN_GAS - 1 });
}

#[test]
fn post_merge_fields() {
    let mut h = header(1, 400, 30_000_000, hash(0));
    h.difficulty = 1;
    std_check(rules().validate_header(&sealed(h, 1)), ConsensusError::TheMergeDifficultyIsNotZero);
    let mut h = header(1, 400, 30_000_000, hash(0));
    h.nonce = 9;
    std_check(rules().validate_header(&sealed(h, 1)), ConsensusError::TheMergeNonceIsNotZero);
    let mut h = header(1, 400, 30_000_000, hash(0));
    h.ommers_hash = hash(2);
    std_check(rules().validate_header(&sealed(h, 1)), ConsensusError::TheMergeOmmerRootIsNotEmpty);
}

#[test]
fn timestamp_in_future() {
    let h = header(1, NOW + 1, 30_000_000, hash(0));
    std_check(
        rules().validate_header(&sealed(h, 1)),
        ConsensusError::TimestampIsInFuture { timestamp: NOW + 1, present_timestamp: NOW },
    );
}

#[test]
fn base_fee_missing() {
    let mut h = header(1, 400, 30_000_000, hash(0));
    h.base_fee_per_gas = None;
    std_check(rules().validate_header(&sealed(h, 1)), ConsensusError::BaseFeeMissing);
}

#[test]
fn fork_fields_missing() {
    let r = rules();
    let mut h = header(1, 400, 30_000_000, hash(0));
    h.withdrawals_root = None;
    std_check(r.validate_header(&sealed(h, 1)), ConsensusError::WithdrawalsRootMissing);
    let mut h = header(1, 400, 30_000_000, hash(0));
    h.blob_gas_used = None;
    std_check(r.validate_header(&sealed(h, 1)), ConsensusError::BlobGasUsedMissing);
    let mut h = header(1, 400, 30_000_000, hash(0));
    h.excess_blob_gas = None;
    std_check(r.validate_header(&sealed(h, 1)), ConsensusError::ExcessBlobGasMissing);
    let mut h = header(1, 400, 30_000_000, hash(0));
    h.parent_beacon_block_root = None;
    std_check(r.validate_header(&sealed(h, 1)), ConsensusError::ParentBeaconBlockRootMissing);
    let mut h = header(1, 400, 30_000_000, hash(0));
    h.requests_hash = None;
    std_check(r.validate_header(&sealed(h, 1)), ConsensusError::RequestsHashMissing);
}

#[test]
fn fork_fields_unexpected() {
    let r = rules();
    let mut h = header(1, 50, 30_000_000, hash(0));
    h.withdrawals_root = Some(hash(1));
    std_check(r.validate_header(&sealed(h, 1)), ConsensusError::WithdrawalsRootUnexpected);
    let mut h = header(1, 150, 30_000_000, hash(0));
    h.blob_gas_used = Some(0);
    std_check(r.validate_header(&sealed(h, 1)), ConsensusError::BlobGasUsedUnexpected);
    let mut h = header(1, 150, 30_000_000, hash(0));
    h.excess_blob_gas = Some(0);
    std_check(r.validate_header(&sealed(h, 1)), ConsensusError::ExcessBlobGasUnexpected);
    let mut h = header(1, 150, 30_000_000, hash(0));
    h.parent_beacon_block_root = Some(hash(1));
    std_check(r.validate_header(&sealed(h, 1)), ConsensusError::ParentBeaconBlockRootUnexpected);
    let mut h = header(1, 250, 30_000_000, hash(0));
    h.requests_hash = Some(hash(1));
    std_check(r.validate_header(&sealed(h, 1)), ConsensusError::RequestsHashUnexpected);
}

#[test]
fn valid_child_passes_parent_check() {
    let (p, c) = parent_and_child(30_000_000, 412);
    assert_eq!(rules().validate_header_against_parent(&c, &p), Ok(()));
}

#[test]
fn parent_hash_mismatch() {
    let p = sealed(header(10, 400, 30_000_000, hash(0xaa)), 0x10);
    let c = sealed(header(11, 412, 30_000_000, hash(0x99)), 0x11);
    std_check(
        rules().validate_header_against_parent(&c, &p),
        ConsensusError::ParentHashMismatch(GotExpectedBoxed::new(hash(0x99), hash(0x10))),
    );
}

#[test]
fn block_number_gap() {
    let p = sealed(header(10, 400, 30_000_000, hash(0xaa)), 0x10);
    let c = sealed(header(12, 412, 30_000_000, hash(0x10)), 0x11);
    std_check(
        rules().validate_header_against_parent(&c, &p),
        ConsensusError::ParentBlockNumberMismatch { parent_block_number: 10, block_number: 12 },
    );
}

#[test]
fn timestamp_equal_to_parent_is_in_past() {
    let (p, c) = parent_and_child(30_000_000, 400);
    std_check(
        rules().validate_header_against_parent(&c, &p),
        ConsensusError::TimestampIsInPast { parent_timestamp: 400, timestamp: 400 },
    );
}

#[test]
fn timestamp_one_after_parent_passes() {
    let (p, c) = parent_and_child(30_000_000, 401);
    assert_eq!(rules().validate_header_against_parent(&c, &p), Ok(()));
}

#[test]
fn gas_limit_increase_boundary() {
    let g: u64 = 30_000_000;
    let (p, c) = parent_and_child(g + g / 1024, 401);
    assert_eq!(rules().validate_header_against_parent(&c, &p), Ok(()));
    let (p, c) = parent_and_child(g + g / 1024 + 1, 401);
    std_check(
        rules().validate_header_against_parent(&c, &p),
        ConsensusError::GasLimitInvalidIncrease { parent_gas_limit: g, child_gas_limit: g + g / 1024 + 1 },
    );
}

#[test]
fn gas_limit_decrease_boundary() {
    let g: u64 = 30_000_000;
    let (p, c) = parent_and_child(g - g / 1024, 401);
    assert_eq!(rules().validate_header_against_parent(&c, &p), Ok(()));
    let (p, c) = parent_and_child(g - g / 1024 - 1, 401);
    std_check(
        rules().validate_header_against_parent(&c, &p),
        ConsensusError::GasLimitInvalidDecrease { parent_gas_limit: g, child_gas_limit: g - g / 1024 - 1 },
    );
}

#[test]
fn gas_limit_below_minimum_against_parent() {
    let p = sealed(header(10, 400, MIN_GAS, hash(0xaa)), 0x10);
    let c = sealed(header(11, 401, MIN_GAS - 1, hash(0x10)), 0x11);
    std_check(
        rules().validate_header_against_parent(&c, &p),
        ConsensusError::GasLimitInvalidMinimum { child_gas_limit: MIN_GAS - 1 },
    );
}

#[test]
fn empty_range_is_accepted() {
    let headers: Vec<SealedHeader<Header>> = Vec::new();
    assert!(rules().validate_header_range(&headers).is_ok());
}

#[test]
fn single_header_range_skips_parent_check() {
    // The declared parent is unknown and its number is arbitrary: only the
    // standalone check applies.
    let h0 = sealed(header(77, 400, 30_000_000, hash(0xee)), 0x10);
    assert!(rules().validate_header_range(&[h0]).is_ok());
}

#[test]
fn single_invalid_header_range_wraps_it() {
    let mut h = header(1, 400, 30_000_000, hash(0));
    h.nonce = 1;
    let h0 = sealed(h, 0x10);
    let e: HeaderConsensusError<Header> = rules().validate_header_range(&[h0.clone()]).unwrap_err();
    assert_eq!(e.error(), &ConsensusError::TheMergeNonceIsNotZero);
    assert_eq!(e.header(), &h0);
}

#[test]
fn range_with_broken_parent_link_wraps_second_header() {
    let h0 = sealed(header(10, 400, 30_000_000, hash(0xaa)), 0x10);
    let h1 = sealed(header(11, 412, 30_000_000, hash(0x42)), 0x11);
    let e = rules().validate_header_range(&[h0, h1.clone()]).unwrap_err();
    assert_eq!(e.0, ConsensusError::ParentHashMismatch(GotExpectedBoxed::new(hash(0x42), hash(0x10))));
    assert_eq!(e.1, h1);
}

#[test]
fn range_checks_each_header_against_previous() {
    let h0 = sealed(header(10, 400, 30_000_000, hash(0xaa)), 0x10);
    let h1 = sealed(header(11, 412, 30_000_000, hash(0x10)), 0x11);
    let h2 = sealed(header(12, 424, 30_000_000, hash(0x11)), 0x12);
    assert!(rules().validate_header_range(&[h0.clone(), h1.clone(), h2]).is_ok());
    let h2_bad = sealed(header(12, 412, 30_000_000, hash(0x11)), 0x12);
    let e = rules().validate_header_range(&[h0, h1, h2_bad.clone()]).unwrap_err();
    assert_eq!(e.0, ConsensusError::TimestampIsInPast { parent_timestamp: 412, timestamp: 412 });
    assert_eq!(e.1, h2_bad);
}

#[test]
fn matching_body_is_accepted() {
    let h = sealed(header(1, 400, 30_000_000, hash(0)), 1);
    assert_eq!(rules().validate_body_against_header(&body_for(h.header()), &h), Ok(()));
}

#[test]
fn flipped_body_digests_are_reported() {
    let r = rules();
    let h = sealed(header(1, 400, 30_000_000, hash(0)), 1);
    let mut b = body_for(h.header());
    b.ommers_hash = hash(0xf0);
    std_check(
        r.validate_body_against_header(&b, &h),
        ConsensusError::BodyOmmersHashDiff(GotExpectedBoxed::new(hash(0xf0), EMPTY_OMMERS)),
    );
    let mut b = body_for(h.header());
    b.transactions_root = hash(0xf1);
    std_check(
        r.validate_body_against_header(&b, &h),
        ConsensusError::BodyTransactionRootDiff(GotExpectedBoxed::new(hash(0xf1), hash(0x71))),
    );
    let mut b = body_for(h.header());
    b.withdrawals_root = Some(hash(0xf2));
    std_check(
        r.validate_body_against_header(&b, &h),
        ConsensusError::BodyWithdrawalsRootDiff(GotExpectedBoxed::new(hash(0xf2), hash(0x91))),
    );
    let mut b = body_for(h.header());
    b.requests_hash = Some(hash(0xf3));
    std_check(
        r.validate_body_against_header(&b, &h),
        ConsensusError::BodyRequestsHashDiff(GotExpectedBoxed::new(hash(0xf3), hash(0xc1))),
    );
}

#[test]
fn body_sections_missing() {
    let r = rules();
    let h = sealed(header(1, 400, 30_000_000, hash(0)), 1);
    let mut b = body_for(h.header());
    b.withdrawals_root = None;
    std_check(r.validate_body_against_header(&b, &h), ConsensusError::BodyWithdrawalsMissing);
    let mut b = body_for(h.header());
    b.requests_hash = None;
    std_check(r.validate_body_against_header(&b, &h), ConsensusError::BodyRequestsMissing);
    let old = sealed(header(1, 50, 30_000_000, hash(0)), 1);
    let mut b = body_for(old.header());
    b.withdrawals_root = Some(hash(3));
    std_check(r.validate_body_against_header(&b, &old), ConsensusError::WithdrawalsRootMissing);
    let mut b = body_for(old.header());
    b.requests_hash = Some(hash(3));
    std_check(r.validate_body_against_header(&b, &old), ConsensusError::RequestsHashMissing);
}

fn block_with_blob_gas(blob_gas: u64) -> SealedBlock {
    let mut h = header(1, 400, 30_000_000, hash(0));
    h.blob_gas_used = Some(blob_gas);
    let body = body_for(&h);
    SealedBlock { header: sealed(h, 1), body }
}

#[test]
fn pre_execution_blob_gas() {
    let r = rules();
    assert_eq!(r.validate_block_pre_execution(&block_with_blob_gas(MAX_BLOB_GAS)), Ok(()));
    std_check(
        r.validate_block_pre_execution(&block_with_blob_gas(BLOB_GAS_PER_BLOB + 1)),
        ConsensusError::BlobGasUsedNotMultipleOfBlobGasPerBlob {
            blob_gas_used: BLOB_GAS_PER_BLOB + 1,
            blob_gas_per_blob: BLOB_GAS_PER_BLOB,
        },
    );
    std_check(
        r.validate_block_pre_execution(&block_with_blob_gas(MAX_BLOB_GAS + BLOB_GAS_PER_BLOB)),
        ConsensusError::BlobGasUsedExceedsMaxBlobGasPerBlock {
            blob_gas_used: MAX_BLOB_GAS + BLOB_GAS_PER_BLOB,
            max_blob_gas_per_block: MAX_BLOB_GAS,
        },
    );
}

#[test]
fn pre_execution_checks_body_first() {
    let mut block = block_with_blob_gas(BLOB_GAS_PER_BLOB + 1);
    block.body.transactions_root = hash(0xf1);
    std_check(
        rules().validate_block_pre_execution(&block),
        ConsensusError::BodyTransactionRootDiff(GotExpectedBoxed::new(hash(0xf1), hash(0x71))),
    );
}

fn recovered(gas_used: u64) -> RecoveredBlock {
    let mut h = header(1, 400, 30_000_000, hash(0));
    h.gas_used = gas_used;
    h.logs_bloom = Bloom([3; 256]);
    let body = body_for(&h);
    RecoveredBlock { block: SealedBlock { header: sealed(h, 1), body }, senders: vec![[0u8; 20]; 3] }
}

fn execution(gas: Vec<u64>) -> BlockExecutionResult {
    BlockExecutionResult { gas_used_by_tx: gas, receipts_root: hash(0x81), logs_bloom: Bloom([3; 256]) }
}

#[test]
fn post_execution_accepts_matching_outcome() {
    assert_eq!(rules().validate_block_post_execution(&recovered(60_000), &execution(vec![21_000, 30_000, 9_000])), Ok(()));
}

#[test]
fn post_execution_gas_mismatch_lists_each_transaction() {
    let r = rules().validate_block_post_execution(&recovered(60_000), &execution(vec![21_000, 30_000, 9_001]));
    assert_eq!(
        r,
        Err(ConsensusError::BlockGasUsed {
            gas: GotExpected { got: 60_001, expected: 60_000 },
            gas_spent_by_tx: vec![(0, 21_000), (1, 30_000), (2, 9_001)],
        })
    );
}

#[test]
fn post_execution_with_no_transactions() {
    let r = rules().validate_block_post_execution(&recovered(21_000), &execution(vec![]));
    assert_eq!(
        r,
        Err(ConsensusError::BlockGasUsed { gas: GotExpected { got: 0, expected: 21_000 }, gas_spent_by_tx: vec![] })
    );
}

#[test]
fn post_execution_receipts_root_and_bloom() {
    let mut res = execution(vec![60_000]);
    res.receipts_root = hash(0x82);
    std_check(
        rules().validate_block_post_execution(&recovered(60_000), &res),
        ConsensusError::BodyReceiptRootDiff(GotExpectedBoxed::new(hash(0x82), hash(0x81))),
    );
    let mut res = execution(vec![60_000]);
    res.logs_bloom = Bloom([4; 256]);
    std_check(
        rules().validate_block_post_execution(&recovered(60_000), &res),
        ConsensusError::BodyBloomLogDiff(GotExpectedBoxed::new(Bloom([4; 256]), Bloom([3; 256]))),
    );
}

#[test]
fn state_root_error_classification() {
    assert!(ConsensusError::BodyStateRootDiff(GotExpectedBoxed::new(hash(1), hash(2))).is_state_root_error());
    let others = vec![
        ConsensusError::BlockGasUsed { gas: GotExpected { got: 1, expected: 2 }, gas_spent_by_tx: vec![(0, 1)] },
        ConsensusError::BodyReceiptRootDiff(GotExpectedBoxed::new(hash(1), hash(2))),
        ConsensusError::BodyTransactionRootDiff(GotExpectedBoxed::new(hash(1), hash(2))),
        ConsensusError::TimestampIsInPast { parent_timestamp: 1, timestamp: 1 },
        ConsensusError::BaseFeeMissing,
        ConsensusError::Other(String::from("l2 rule")),
    ];
    for e in others {
        assert!(!e.is_state_root_error());
    }
}

#[test]
fn invalid_transaction_converts_losslessly() {
    let inner = InvalidTransactionError { reason: String::from("nonce too low") };
    let e: ConsensusError = inner.clone().into();
    assert_eq!(e, ConsensusError::InvalidTransaction(inner));
}

#[test]
fn sealed_header_keeps_its_hash() {
    let h = header(5, 400, 30_000_000, hash(0));
    let s = SealedHeader::new(h.clone(), hash(0x55));
    assert_eq!(s.header(), &h);
    assert_eq!(s.hash(), hash(0x55));
}

#[test]
fn byte_comparison() {
    assert!(bytes_equal(&[1, 2, 3], &[1, 2, 3]));
    assert!(!bytes_equal(&[1, 2, 3], &[1, 2, 4]));
    assert!(!bytes_equal(&[1, 2], &[1, 2, 3]));
    assert!(bytes_equal(&[], &[]));
    assert!(hash(1).same_as(&hash(1)));
    assert!(!hash(1).same_as(&hash(2)));
}

#[test]
fn next_base_fee_values() {
    assert_eq!(calc_next_base_fee(15_000_000, 30_000_000, 1_000_000_000), 1_000_000_000);
    assert_eq!(calc_next_base_fee(30_000_000, 30_000_000, 1_000_000_000), 1_125_000_000);
    assert_eq!(calc_next_base_fee(0, 30_000_000, 1_000_000_000), 875_000_000);
    assert_eq!(calc_next_base_fee(21_000, 30_000_000, 7), 7);
    assert_eq!(calc_next_base_fee(15_000_001, 30_000_000, 1), 2);
    assert_eq!(calc_next_base_fee(1, 1, 5), 6);
    assert_eq!(calc_next_base_fee(30_000_000, 30_000_000, u64::MAX), u64::MAX);
    assert_eq!(calc_next_base_fee(0, 30_000_000, 0), 0);
}

#[test]
fn next_excess_blob_gas_values() {
    assert_eq!(calc_next_excess_blob_gas(0, 262_144, TARGET_BLOB_GAS), 0);
    assert_eq!(calc_next_excess_blob_gas(TARGET_BLOB_GAS, TARGET_BLOB_GAS, TARGET_BLOB_GAS), TARGET_BLOB_GAS);
    assert_eq!(calc_next_excess_blob_gas(100, 786_432, TARGET_BLOB_GAS), 393_316);
    assert_eq!(calc_next_excess_blob_gas(u64::MAX, 5, 10), u64::MAX - 10);
}

#[test]
fn base_fee_must_follow_parent() {
    let p = sealed(header(10, 400, 30_000_000, hash(0xaa)), 0x10);
    let mut c = header(11, 412, 30_000_000, hash(0x10));
    c.base_fee_per_gas = Some(8);
    std_check(
        rules().validate_header_against_parent(&sealed(c, 0x11), &p),
        ConsensusError::BaseFeeDiff(GotExpected { got: 8, expected: 7 }),
    );
}

#[test]
fn parent_without_base_fee() {
    let mut ph = header(10, 400, 30_000_000, hash(0xaa));
    ph.base_fee_per_gas = None;
    let p = sealed(ph, 0x10);
    let c = sealed(header(11, 412, 30_000_000, hash(0x10)), 0x11);
    std_check(rules().validate_header_against_parent(&c, &p), ConsensusError::BaseFeeMissing);
}

#[test]
fn excess_blob_gas_must_follow_parent() {
    let p = sealed(header(10, 400, 30_000_000, hash(0xaa)), 0x10);
    let mut c = header(11, 412, 30_000_000, hash(0x10));
    c.excess_blob_gas = Some(5);
    std_check(
        rules().validate_header_against_parent(&sealed(c, 0x11), &p),
        ConsensusError::ExcessBlobGasDiff {
            diff: GotExpected { got: 5, expected: 0 },
            parent_excess_blob_gas: 0,
            parent_blob_gas_used: 2 * BLOB_GAS_PER_BLOB,
        },
    );
}

#[test]
fn excess_blob_gas_from_parent_before_blobs() {
    // A parent from before the blob fork counts as zero excess and zero use.
    let p = sealed(header(10, 150, 30_000_000, hash(0xaa)), 0x10);
    let c = sealed(header(11, 250, 30_000_000, hash(0x10)), 0x11);
    assert_eq!(rules().validate_header_against_parent(&c, &p), Ok(()));
}

fn range_through<V: HeaderValidator<Header>>(v: &V, headers: &[SealedHeader<Header>]) -> bool {
    v.validate_header_range(headers).is_ok()
}

#[test]
fn references_and_shared_handles_validate_alike() {
    let r = rules();
    let h0 = sealed(header(10, 400, 30_000_000, hash(0xaa)), 0x10);
    let h1 = sealed(header(11, 412, 30_000_000, hash(0x10)), 0x11);
    let bad = sealed(header(11, 412, 30_000_000, hash(0x42)), 0x11);
    let shared = std::sync::Arc::new(rules());
    for headers in [vec![h0.clone(), h1.clone()], vec![h0.clone(), bad.clone()]] {
        let direct = range_through(&r, &headers);
        assert_eq!(range_through(&&r, &headers), direct);
        assert_eq!(range_through(&shared, &headers), direct);
    }
    let body = body_for(h1.header());
    assert_eq!((&r).validate_body_against_header(&body, &h1), Ok(()));
    assert_eq!(shared.validate_body_against_header(&body, &h1), Ok(()));
    let res = execution(vec![60_000]);
    assert_eq!(
        FullConsensus::validate_block_post_execution(&shared, &recovered(60_000), &res),
        Ok(())
    );
}
