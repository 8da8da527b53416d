//! The validator capabilities: standalone and parent-relative header checks
//! with the sequential range check built on them, body and pre-execution
//! checks, and post-execution checks.
use vstd::prelude::*;
use vstd::pervasive::cloned;
use crate::error::{ConsensusError, HeaderConsensusError};
use crate::primitives::{
    BlockBody, BlockExecutionResult, Header, RecoveredBlock, SealedBlock, SealedHeader,
};

verus! {

/// Validates headers on their own and against their parents.
pub trait HeaderValidator<H: Clone>: Sized {
    /// What the standalone check decides for a header.
    spec fn header_verdict(&self, header: SealedHeader<H>) -> Result<(), ConsensusError>;

    /// What the parent-relative check decides for a header and its parent.
    spec fn parent_verdict(&self, header: SealedHeader<H>, parent: SealedHeader<H>) -> Result<
        (),
        ConsensusError,
    >;

    /// Checks that a header is correct on its own.
    ///
    /// This is not meant for the genesis header.
    fn validate_header(&self, header: &SealedHeader<H>) -> (r: Result<(), ConsensusError>)
        ensures
            r == self.header_verdict(*header),
    ;

    /// Checks what a header states about its immediate parent.
    ///
    /// This is not meant for the genesis header.
    fn validate_header_against_parent(
        &self,
        header: &SealedHeader<H>,
        parent: &SealedHeader<H>,
    ) -> (r: Result<(), ConsensusError>)
        ensures
            r == self.parent_verdict(*header, *parent),
    ;

    /// Checks a run of headers in ascending order: the first on its own, each
    /// later one on its own and then against the one before it. Stops at the
    /// first failure and returns it with the header it was found in.
    fn validate_header_range(&self, headers: &[SealedHeader<H>]) -> (r: Result<
        (),
        HeaderConsensusError<H>,
    >)
        ensures
            r is Ok <==> range_accepted(
                |h: SealedHeader<H>| self.header_verdict(h),
                |h: SealedHeader<H>, p: SealedHeader<H>| self.parent_verdict(h, p),
                headers@,
            ),
            r matches Err(e) ==> exists|i: int|
                range_failure_at(
                    |h: SealedHeader<H>| self.header_verdict(h),
                    |h: SealedHeader<H>, p: SealedHeader<H>| self.parent_verdict(h, p),
                    headers@,
                    i,
                    e.0,
                ) && cloned(headers@[i], e.1),
    {
        if headers.len() == 0 {
            return Ok(());
        }
        match self.validate_header(&headers[0]) {
            Ok(()) => {},
            Err(e) => {
                let h = headers[0].clone();
                assert(!range_accepted(|h: SealedHeader<H>| self.header_verdict(h), |h: SealedHeader<H>, p: SealedHeader<H>| self.parent_verdict(h, p), headers@)) by {
                    assert((|h: SealedHeader<H>| self.header_verdict(h))(headers@[0]) is Err);
                }
                return Err(HeaderConsensusError(e, h));
            },
        }
        let mut i: usize = 1;
        while i < headers.len()
            invariant
                1 <= i <= headers@.len(),
                forall|j: int| 0 <= j < i ==> (#[trigger] self.header_verdict(headers@[j])) is Ok,
                forall|j: int|
                    1 <= j < i ==> (#[trigger] self.parent_verdict(headers@[j], headers@[j - 1])) is Ok,
            decreases headers@.len() - i,
        {
            let child = &headers[i];
            let parent = &headers[i - 1];
            match self.validate_header(child) {
                Ok(()) => {},
                Err(e) => {
                    let h = child.clone();
                    assert(!range_accepted(|h: SealedHeader<H>| self.header_verdict(h), |h: SealedHeader<H>, p: SealedHeader<H>| self.parent_verdict(h, p), headers@)) by {
                        assert((|h: SealedHeader<H>| self.header_verdict(h))(headers@[i as int]) is Err);
                    }
                    return Err(HeaderConsensusError(e, h));
                },
            }
            match self.validate_header_against_parent(child, parent) {
                Ok(()) => {},
                Err(e) => {
                    let h = child.clone();
                    assert(!range_accepted(|h: SealedHeader<H>| self.header_verdict(h), |h: SealedHeader<H>, p: SealedHeader<H>| self.parent_verdict(h, p), headers@)) by {
                        assert((|h: SealedHeader<H>, p: SealedHeader<H>| self.parent_verdict(h, p))(headers@[i as int], headers@[i - 1]) is Err);
                    }
                    return Err(HeaderConsensusError(e, h));
                },
            }
            i = i + 1;
        }
        Ok(())
    }
}

/// Checks a block body against its header, and a block as a whole before
/// execution.
pub trait Consensus: HeaderValidator<Header> {
    /// What the body check decides for a body and a sealed header.
    spec fn body_verdict(&self, body: BlockBody, header: SealedHeader<Header>) -> Result<
        (),
        ConsensusError,
    >;

    /// What the pre-execution check decides for a block.
    spec fn pre_execution_verdict(&self, block: SealedBlock) -> Result<(), ConsensusError>;

    /// Checks that the body's digests match what the header states.
    fn validate_body_against_header(
        &self,
        body: &BlockBody,
        header: &SealedHeader<Header>,
    ) -> (r: Result<(), ConsensusError>)
        ensures
            r == self.body_verdict(*body, *header),
    ;

    /// Checks what can be checked of a block without executing it.
    ///
    /// This is not meant for the genesis block.
    fn validate_block_pre_execution(&self, block: &SealedBlock) -> (r: Result<(), ConsensusError>)
        ensures
            r == self.pre_execution_verdict(*block),
    ;
}

/// Checks a block against the outcome of executing it.
pub trait FullConsensus: Consensus {
    /// Whether `outcome` is what the post-execution check returns for a block
    /// and its execution result.
    spec fn post_execution_outcome(
        &self,
        block: RecoveredBlock,
        result: BlockExecutionResult,
        outcome: Result<(), ConsensusError>,
    ) -> bool;

    /// Checks the block against what executing it produced.
    fn validate_block_post_execution(
        &self,
        block: &RecoveredBlock,
        result: &BlockExecutionResult,
    ) -> (r: Result<(), ConsensusError>)
        requires
            result.total_gas_used() <= u64::MAX,
        ensures
            self.post_execution_outcome(*block, *result, r),
    ;
}

/// A shared reference to a validator validates as the validator does.
impl<'a, H: Clone, V: HeaderValidator<H>> HeaderValidator<H> for &'a V {
    open spec fn header_verdict(&self, header: SealedHeader<H>) -> Result<(), ConsensusError> {
        (**self).header_verdict(header)
    }

    open spec fn parent_verdict(&self, header: SealedHeader<H>, parent: SealedHeader<H>) -> Result<
        (),
        ConsensusError,
    > {
        (**self).parent_verdict(header, parent)
    }

    fn validate_header(&self, header: &SealedHeader<H>) -> (r: Result<(), ConsensusError>) {
        (**self).validate_header(header)
    }

    fn validate_header_against_parent(
        &self,
        header: &SealedHeader<H>,
        parent: &SealedHeader<H>,
    ) -> (r: Result<(), ConsensusError>) {
        (**self).validate_header_against_parent(header, parent)
    }
}

/// A validator behind an `Arc` validates as the validator does.
impl<H: Clone, V: HeaderValidator<H>> HeaderValidator<H> for std::sync::Arc<V> {
    open spec fn header_verdict(&self, header: SealedHeader<H>) -> Result<(), ConsensusError> {
        (**self).header_verdict(header)
    }

    open spec fn parent_verdict(&self, header: SealedHeader<H>, parent: SealedHeader<H>) -> Result<
        (),
        ConsensusError,
    > {
        (**self).parent_verdict(header, parent)
    }

    fn validate_header(&self, header: &SealedHeader<H>) -> (r: Result<(), ConsensusError>) {
        (**self).validate_header(header)
    }

    fn validate_header_against_parent(
        &self,
        header: &SealedHeader<H>,
        parent: &SealedHeader<H>,
    ) -> (r: Result<(), ConsensusError>) {
        (**self).validate_header_against_parent(header, parent)
    }
}

/// A shared reference to a validator validates as the validator does.
impl<'a, V: Consensus> Consensus for &'a V {
    open spec fn body_verdict(&self, body: BlockBody, header: SealedHeader<Header>) -> Result<
        (),
        ConsensusError,
    > {
        (**self).body_verdict(body, header)
    }

    open spec fn pre_execution_verdict(&self, block: SealedBlock) -> Result<(), ConsensusError> {
        (**self).pre_execution_verdict(block)
    }

    fn validate_body_against_header(
        &self,
        body: &BlockBody,
        header: &SealedHeader<Header>,
    ) -> (r: Result<(), ConsensusError>) {
        (**self).validate_body_against_header(body, header)
    }

    fn validate_block_pre_execution(&self, block: &SealedBlock) -> (r: Result<(), ConsensusError>) {
        (**self).validate_block_pre_execution(block)
    }
}

/// A shared reference to a validator validates as the validator does.
impl<'a, V: FullConsensus> FullConsensus for &'a V {
    open spec fn post_execution_outcome(
        &self,
        block: RecoveredBlock,
        result: BlockExecutionResult,
        outcome: Result<(), ConsensusError>,
    ) -> bool {
        (**self).post_execution_outcome(block, result, outcome)
    }

    fn validate_block_post_execution(
        &self,
        block: &RecoveredBlock,
        result: &BlockExecutionResult,
    ) -> (r: Result<(), ConsensusError>) {
        (**self).validate_block_post_execution(block, result)
    }
}

/// A validator behind an `Arc` validates as the validator does.
impl<V: Consensus> Consensus for std::sync::Arc<V> {
    open spec fn body_verdict(&self, body: BlockBody, header: SealedHeader<Header>) -> Result<
        (),
        ConsensusError,
    > {
        (**self).body_verdict(body, header)
    }

    open spec fn pre_execution_verdict(&self, block: SealedBlock) -> Result<(), ConsensusError> {
        (**self).pre_execution_verdict(block)
    }

    fn validate_body_against_header(
        &self,
        body: &BlockBody,
        header: &SealedHeader<Header>,
    ) -> (r: Result<(), ConsensusError>) {
        (**self).validate_body_against_header(body, header)
    }

    fn validate_block_pre_execution(&self, block: &SealedBlock) -> (r: Result<(), ConsensusError>) {
        (**self).validate_block_pre_execution(block)
    }
}

/// A validator behind an `Arc` validates as the validator does.
impl<V: FullConsensus> FullConsensus for std::sync::Arc<V> {
    open spec fn post_execution_outcome(
        &self,
        block: RecoveredBlock,
        result: BlockExecutionResult,
        outcome: Result<(), ConsensusError>,
    ) -> bool {
        (**self).post_execution_outcome(block, result, outcome)
    }

    fn validate_block_post_execution(
        &self,
        block: &RecoveredBlock,
        result: &BlockExecutionResult,
    ) -> (r: Result<(), ConsensusError>) {
        (**self).validate_block_post_execution(block, result)
    }
}

/// A run of headers is accepted: every header passes the standalone check,
/// and every header after the first passes the check against the one before
/// it.
pub open spec fn range_accepted<H>(
    header_verdict: spec_fn(SealedHeader<H>) -> Result<(), ConsensusError>,
    parent_verdict: spec_fn(SealedHeader<H>, SealedHeader<H>) -> Result<(), ConsensusError>,
    headers: Seq<SealedHeader<H>>,
) -> bool {
    &&& forall|i: int| 0 <= i < headers.len() ==> (#[trigger] header_verdict(headers[i])) is Ok
    &&& forall|i: int|
        1 <= i < headers.len() ==> (#[trigger] parent_verdict(headers[i], headers[i - 1])) is Ok
}

/// A range check stops at the header at `i` with `err`: every earlier step
/// passed, and `err` is what the standalone check, or after it the check
/// against the previous header, found at `i`.
pub open spec fn range_failure_at<H>(
    header_verdict: spec_fn(SealedHeader<H>) -> Result<(), ConsensusError>,
    parent_verdict: spec_fn(SealedHeader<H>, SealedHeader<H>) -> Result<(), ConsensusError>,
    headers: Seq<SealedHeader<H>>,
    i: int,
    err: ConsensusError,
) -> bool {
    &&& 0 <= i < headers.len()
    &&& forall|j: int| 0 <= j < i ==> (#[trigger] header_verdict(headers[j])) is Ok
    &&& forall|j: int|
        1 <= j < i ==> (#[trigger] parent_verdict(headers[j], headers[j - 1])) is Ok
    &&& if header_verdict(headers[i]) is Err {
        Err::<(), ConsensusError>(err) == header_verdict(headers[i])
    } else {
        &&& i >= 1
        &&& Err::<(), ConsensusError>(err) == parent_verdict(headers[i], headers[i - 1])
    }
}

} // verus!
