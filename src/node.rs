//! Access to a node's components for request handlers that need the
//! components but not the full set of bounds a node places on them.
use vstd::prelude::*;

verus! {

/// The components of a node: its primitives, storage provider, transaction
/// pool, EVM configuration, network handle and payload builder handle.
pub trait RpcNodeCore: Clone + Send + Sync {
    /// Blockchain data primitives.
    type Primitives: Send + Sync + Clone + Unpin;
    /// The provider used to read chain data.
    type Provider: Send + Sync + Clone + Unpin;
    /// The transaction pool.
    type Pool: Send + Sync + Clone + Unpin;
    /// The EVM configuration.
    type Evm: Send + Sync + Clone + Unpin;
    /// The network handle.
    type Network: Send + Sync + Clone;
    /// The handle to the service that builds new blocks.
    type PayloadBuilder: Send + Sync + Clone;

    /// The transaction pool of the node.
    fn pool(&self) -> &Self::Pool;

    /// The node's EVM configuration.
    fn evm_config(&self) -> &Self::Evm;

    /// The handle to the network.
    fn network(&self) -> &Self::Network;

    /// The handle to the payload builder service.
    fn payload_builder(&self) -> &Self::PayloadBuilder;

    /// The provider of the node.
    fn provider(&self) -> &Self::Provider;
}

} // verus!
