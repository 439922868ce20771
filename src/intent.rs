//! The fixed parameters of the transfer and the per-attempt intent built from them.
use vstd::prelude::*;

verus! {

/// A 20-byte account or contract address.
pub type Address = [u8; 20];

/// What every attempt sends: the token contract, the `transferFrom` source and
/// destination, the amount in the token's smallest unit, and the chain id.
#[derive(Clone, Copy, Debug, PartialEq, Eq)]
pub struct TransferParams {
    pub token: Address,
    pub from: Address,
    pub to: Address,
    pub amount: u128,
    pub chain_id: u64,
}

/// One fully specified, unsigned transfer call: the fixed parameters together
/// with the nonce resolved for this attempt.
#[derive(Clone, Copy, Debug, PartialEq, Eq)]
pub struct TransferIntent {
    pub token: Address,
    pub from: Address,
    pub to: Address,
    pub amount: u128,
    pub chain_id: u64,
    pub nonce: u64,
}

/// The intent that `params` and `nonce` describe.
pub open spec fn intent_of(params: TransferParams, nonce: u64) -> TransferIntent {
    TransferIntent {
        token: params.token,
        from: params.from,
        to: params.to,
        amount: params.amount,
        chain_id: params.chain_id,
        nonce,
    }
}

impl TransferParams {
    /// Builds the call of one attempt, with the given nonce attached.
    pub fn build(&self, nonce: u64) -> (i: TransferIntent)
        ensures
            i == intent_of(*self, nonce),
    {
        TransferIntent {
            token: self.token,
            from: self.from,
            to: self.to,
            amount: self.amount,
            chain_id: self.chain_id,
            nonce,
        }
    }
}

} // verus!
