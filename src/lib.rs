//! Consensus rules for blocks and headers: the error taxonomy, the validator
//! capabilities, and a rule set that implements them.

pub mod primitives;

pub use primitives::{
    B256, BlockBody, BlockExecutionResult, Bloom, GotExpected, GotExpectedBoxed, Header,
    RecoveredBlock, SealedBlock, SealedHeader, bytes_equal, gas_sum, lemma_gas_sum_prefix,
};
pub mod error;

pub use error::{ConsensusError, HeaderConsensusError, InvalidTransactionError};
pub mod validator;

pub use validator::{Consensus, FullConsensus, HeaderValidator, range_accepted, range_failure_at};
pub mod rules;

pub use rules::{
    BASE_FEE_MAX_CHANGE_DENOMINATOR, ChainRules, ELASTICITY_MULTIPLIER, GAS_LIMIT_BOUND_DIVISOR,
    calc_next_base_fee, calc_next_excess_blob_gas, next_base_fee, next_excess_blob_gas,
    tx_gas_entries,
};
pub mod theorems;
pub mod node;

pub use node::RpcNodeCore;
