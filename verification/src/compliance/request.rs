//! Request value for the compliance-module operations.

use vstd::prelude::*;

verus! {

/// Request structure for adding, removing or updating a compliance module.
pub struct ComplianceModuleRequest {
    pub from: String,
    pub module_addr: String,
    pub signer: cosmrs::crypto::secp256k1::SigningKey,
    pub gas_limit: u64,
}

} // verus!
