use vstd::prelude::*;

use crate::error::TransportError;
use crate::tx::BroadcastReceipt;

verus! {

/// The transport to a node, implemented by the user of this library: gRPC
/// queries by method path, and broadcast of signed transaction bytes.
/// Nothing is assumed of what either call returns: each impl says, through
/// `answers` and `acknowledges`, how its results relate to what was sent.
pub trait ChainClient {
    /// Whether `r` is a result this client gives for a query of `path` with `body`.
    /// An impl that states nothing of its results keeps this default.
    closed spec fn answers(&self, path: Seq<char>, body: Seq<u8>, r: Result<Vec<u8>, TransportError>) -> bool {
        true
    }

    /// Whether `r` is a result this client gives for a broadcast of `tx`.
    /// An impl that states nothing of its results keeps this default.
    closed spec fn acknowledges(&self, tx: Seq<u8>, r: Result<BroadcastReceipt, TransportError>) -> bool {
        true
    }

    fn query(&self, path: &str, body: &[u8]) -> (r: Result<Vec<u8>, TransportError>)
        ensures
            self.answers(path@, body@, r),
    ;

    fn broadcast(&self, tx: &[u8]) -> (r: Result<BroadcastReceipt, TransportError>)
        ensures
            self.acknowledges(tx@, r),
    ;
}

/// The chain a client talks to.
#[derive(Clone, Debug, PartialEq, Eq)]
pub struct ChainConfig {
    pub chain_id: String,
    /// Human-readable prefix of the chain's addresses.
    pub prefix: String,
}

} // verus!
