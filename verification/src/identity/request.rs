//! Request values for the identity operations. Each is a transient value
//! object the caller constructs immediately before invocation; every write
//! request carries the signing key and the gas limit for its transaction.

use vstd::prelude::*;

verus! {

use crate::identity::Claim;

/// Request structure for adding an identity.
pub struct AddIdentityRequest {
    pub from: String,
    pub country: String,
    pub signer: cosmrs::crypto::secp256k1::SigningKey,
    pub gas_limit: u64,
}

/// Request structure for updating an identity.
pub struct UpdateIdentityRequest {
    pub from: String,
    pub new_country: String,
    pub identity_owner: String,
    pub signer: cosmrs::crypto::secp256k1::SigningKey,
    pub gas_limit: u64,
}

/// Request structure for removing an identity.
pub struct RemoveIdentityRequest {
    pub from: String,
    pub identity_owner: String,
    pub signer: cosmrs::crypto::secp256k1::SigningKey,
    pub gas_limit: u64,
}

/// Request structure for adding a claim to a user.
pub struct AddClaimRequest {
    pub from: String,
    pub claim: Claim,
    pub identity_owner: String,
    pub signer: cosmrs::crypto::secp256k1::SigningKey,
    pub gas_limit: u64,
}

/// Request structure for removing a claim.
pub struct RemoveClaimRequest {
    pub from: String,
    pub claim_topic: u128,
    pub identity_owner: String,
    pub signer: cosmrs::crypto::secp256k1::SigningKey,
    pub gas_limit: u64,
}

/// Request structure for retrieving the validated claims of a user.
pub struct GetValidatedClaimsRequest {
    pub identity_owner: String,
}

/// Request structure for checking whether a user is compliant for a token.
pub struct CheckUserForTokenComplianceRequest {
    pub token_address: String,
    pub from: String,
}

} // verus!
