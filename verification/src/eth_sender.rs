//! Blob sidecars that accompany a transaction sent to the settlement layer.

use vstd::prelude::*;

verus! {

/// One blob together with its commitment and the proof that binds the two.
#[derive(Clone)]
pub struct SidecarBlob {
    pub blob: Vec<u8>,
    pub commitment: Vec<u8>,
    pub proof: Vec<u8>,
}

/// The first version of a sidecar: the blobs of one transaction, in order.
#[derive(Clone)]
pub struct EthTxBlobSidecarV1 {
    pub blobs: Vec<SidecarBlob>,
}

/// A sidecar in any of its versions.
#[derive(Clone)]
pub enum EthTxBlobSidecar {
    EthTxBlobSidecarV1(EthTxBlobSidecarV1),
}

} // verus!
