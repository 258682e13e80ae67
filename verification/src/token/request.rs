//! Request values for the token operations.

use vstd::prelude::*;

verus! {

/// Request structure for token transfers.
pub struct TransferMessageRequest {
    pub from: String,
    pub to: String,
    pub amount: u128,
    pub signer: cosmrs::crypto::secp256k1::SigningKey,
    pub gas_limit: u64,
}

/// Request structure for token balance queries.
pub struct TokenInfoRequest {
    pub address: String,
}

} // verus!
