//! Identity operations: registering, updating and removing identities on
//! the chain, and managing the claims attached to them.
//!
//! Each operation constructs exactly one message variant — the JSON
//! document the identity contract expects, pinned down character by
//! character by a specification function — and delegates unchanged to the
//! shared execution or query pipeline.

use vstd::prelude::*;

pub mod request;

verus! {

use crate::error::RwaError;
use crate::json::{push_base64, push_dec, push_json_string, spec_base64, spec_dec, spec_json_string};
use crate::wire::smart_query_bytes;
use crate::{AccountInfo, ContractQuery, PreparedTx, RwaClient};
use crate::identity::request::{
    AddClaimRequest,
    AddIdentityRequest,
    CheckUserForTokenComplianceRequest,
    GetValidatedClaimsRequest,
    RemoveClaimRequest,
    RemoveIdentityRequest,
    UpdateIdentityRequest,
};

/// A signed assertion about an identity — a KYC status, an accreditation —
/// tagged by a numeric topic, carrying an opaque payload and a reference
/// to off-chain evidence. Created by a trusted issuer, removed by topic
/// and owner.
#[derive(Debug, Clone, PartialEq)]
pub struct Claim {
    pub topic: u128,
    pub issuer: String,
    pub data: Vec<u8>,
    pub uri: String,
}

/// The JSON object for a claim: the topic as a decimal string, the opaque
/// payload as base64.
pub open spec fn spec_claim_json(
    topic: u128,
    issuer: Seq<char>,
    data: Seq<u8>,
    uri: Seq<char>,
) -> Seq<char> {
    "{\"topic\":\""@ + spec_dec(topic as int) + "\",\"issuer\":"@ + spec_json_string(issuer)
        + ",\"data\":\""@ + spec_base64(data) + "\",\"uri\":"@ + spec_json_string(uri) + "}"@
}

/// The message registering a new identity with its country.
pub open spec fn spec_add_identity_json(country: Seq<char>) -> Seq<char> {
    "{\"AddIdentity\":{\"country\":"@ + spec_json_string(country) + "}}"@
}

/// The message updating the country of an existing identity.
pub open spec fn spec_update_identity_json(
    new_country: Seq<char>,
    identity_owner: Seq<char>,
) -> Seq<char> {
    "{\"UpdateCountry\":{\"new_country\":"@ + spec_json_string(new_country)
        + ",\"identity_owner\":"@ + spec_json_string(identity_owner) + "}}"@
}

/// The message removing an identity.
pub open spec fn spec_remove_identity_json(identity_owner: Seq<char>) -> Seq<char> {
    "{\"RemoveIdentity\":{\"identity_owner\":"@ + spec_json_string(identity_owner) + "}}"@
}

/// The message attaching a claim to an identity.
pub open spec fn spec_add_claim_json(
    topic: u128,
    issuer: Seq<char>,
    data: Seq<u8>,
    uri: Seq<char>,
    identity_owner: Seq<char>,
) -> Seq<char> {
    "{\"AddClaim\":{\"claim\":"@ + spec_claim_json(topic, issuer, data, uri)
        + ",\"identity_owner\":"@ + spec_json_string(identity_owner) + "}}"@
}

/// The message removing a claim by topic and identity owner.
pub open spec fn spec_remove_claim_json(claim_topic: u128, identity_owner: Seq<char>) -> Seq<char> {
    "{\"RemoveClaim\":{\"claim_topic\":\""@ + spec_dec(claim_topic as int)
        + "\",\"identity_owner\":"@ + spec_json_string(identity_owner) + "}}"@
}

/// The query for the validated claims of an identity.
pub open spec fn spec_get_validated_claims_json(identity_owner: Seq<char>) -> Seq<char> {
    "{\"GetValidatedClaimsForUser\":{\"identity_owner\":"@ + spec_json_string(identity_owner)
        + "}}"@
}

/// The compliance-check query combining a token address and a subject
/// address; the recipient and amount slots stay empty.
pub open spec fn spec_check_compliance_json(token_address: Seq<char>, from: Seq<char>) -> Seq<
    char,
> {
    "{\"CheckTokenCompliance\":{\"token_address\":"@ + spec_json_string(token_address)
        + ",\"from\":"@ + spec_json_string(from) + ",\"to\":null,\"amount\":null}}"@
}

/// Builds the claim object for the wire.
pub fn claim_json(claim: &Claim) -> (r: String)
    ensures
        r@ == spec_claim_json(claim.topic, claim.issuer@, claim.data@, claim.uri@),
{
    let mut out = String::new();
    out.append("{\"topic\":\"");
    push_dec(&mut out, claim.topic);
    out.append("\",\"issuer\":");
    push_json_string(&mut out, claim.issuer.as_str());
    out.append(",\"data\":\"");
    push_base64(&mut out, claim.data.as_slice(), 0);
    proof {
        assert(claim.data@.skip(0) =~= claim.data@);
    }
    out.append("\",\"uri\":");
    push_json_string(&mut out, claim.uri.as_str());
    out.append("}");
    proof {
        assert(out@ =~= spec_claim_json(claim.topic, claim.issuer@, claim.data@, claim.uri@));
    }
    out
}

pub fn add_identity_json(country: &str) -> (r: String)
    ensures
        r@ == spec_add_identity_json(country@),
{
    let mut out = String::new();
    out.append("{\"AddIdentity\":{\"country\":");
    push_json_string(&mut out, country);
    out.append("}}");
    proof {
        assert(out@ =~= spec_add_identity_json(country@));
    }
    out
}

pub fn update_identity_json(new_country: &str, identity_owner: &str) -> (r: String)
    ensures
        r@ == spec_update_identity_json(new_country@, identity_owner@),
{
    let mut out = String::new();
    out.append("{\"UpdateCountry\":{\"new_country\":");
    push_json_string(&mut out, new_country);
    out.append(",\"identity_owner\":");
    push_json_string(&mut out, identity_owner);
    out.append("}}");
    proof {
        assert(out@ =~= spec_update_identity_json(new_country@, identity_owner@));
    }
    out
}

pub fn remove_identity_json(identity_owner: &str) -> (r: String)
    ensures
        r@ == spec_remove_identity_json(identity_owner@),
{
    let mut out = String::new();
    out.append("{\"RemoveIdentity\":{\"identity_owner\":");
    push_json_string(&mut out, identity_owner);
    out.append("}}");
    proof {
        assert(out@ =~= spec_remove_identity_json(identity_owner@));
    }
    out
}

pub fn add_claim_json(claim: &Claim, identity_owner: &str) -> (r: String)
    ensures
        r@ == spec_add_claim_json(
            claim.topic,
            claim.issuer@,
            claim.data@,
            claim.uri@,
            identity_owner@,
        ),
{
    let mut out = String::new();
    out.append("{\"AddClaim\":{\"claim\":");
    let claim_body = claim_json(claim);
    out.append(claim_body.as_str());
    out.append(",\"identity_owner\":");
    push_json_string(&mut out, identity_owner);
    out.append("}}");
    proof {
        assert(out@ =~= spec_add_claim_json(
            claim.topic,
            claim.issuer@,
            claim.data@,
            claim.uri@,
            identity_owner@,
        ));
    }
    out
}

pub fn remove_claim_json(claim_topic: u128, identity_owner: &str) -> (r: String)
    ensures
        r@ == spec_remove_claim_json(claim_topic, identity_owner@),
{
    let mut out = String::new();
    out.append("{\"RemoveClaim\":{\"claim_topic\":\"");
    push_dec(&mut out, claim_topic);
    out.append("\",\"identity_owner\":");
    push_json_string(&mut out, identity_owner);
    out.append("}}");
    proof {
        assert(out@ =~= spec_remove_claim_json(claim_topic, identity_owner@));
    }
    out
}

pub fn get_validated_claims_json(identity_owner: &str) -> (r: String)
    ensures
        r@ == spec_get_validated_claims_json(identity_owner@),
{
    let mut out = String::new();
    out.append("{\"GetValidatedClaimsForUser\":{\"identity_owner\":");
    push_json_string(&mut out, identity_owner);
    out.append("}}");
    proof {
        assert(out@ =~= spec_get_validated_claims_json(identity_owner@));
    }
    out
}

pub fn check_compliance_json(token_address: &str, from: &str) -> (r: String)
    ensures
        r@ == spec_check_compliance_json(token_address@, from@),
{
    let mut out = String::new();
    out.append("{\"CheckTokenCompliance\":{\"token_address\":");
    push_json_string(&mut out, token_address);
    out.append(",\"from\":");
    push_json_string(&mut out, from);
    out.append(",\"to\":null,\"amount\":null}}");
    proof {
        assert(out@ =~= spec_check_compliance_json(token_address@, from@));
    }
    out
}

impl RwaClient {
    /// Registers a new identity with the given country, signed by the
    /// requesting address against its freshly resolved account state.
    pub fn add_identity(&self, request: AddIdentityRequest, account: AccountInfo) -> (r: Result<
        PreparedTx,
        RwaError,
    >)
        ensures
            r matches Ok(p) ==> self.spec_prepared(
                p,
                request.from@,
                spec_add_identity_json(request.country@),
                self.spec_identity_address(),
                Seq::<crate::Coin>::empty(),
                request.gas_limit,
                account,
            ),
            self.spec_write_errors(r),
    {
        let msg = add_identity_json(request.country.as_str());
        self.execute(
            request.from.as_str(),
            msg,
            self.identity_address.clone(),
            crate::no_funds(),
            &request.signer,
            request.gas_limit,
            account,
        )
    }

    /// Updates the country of an existing identity.
    pub fn update_identity(&self, request: UpdateIdentityRequest, account: AccountInfo) -> (r:
        Result<PreparedTx, RwaError>)
        ensures
            r matches Ok(p) ==> self.spec_prepared(
                p,
                request.from@,
                spec_update_identity_json(request.new_country@, request.identity_owner@),
                self.spec_identity_address(),
                Seq::<crate::Coin>::empty(),
                request.gas_limit,
                account,
            ),
            self.spec_write_errors(r),
    {
        let msg = update_identity_json(
            request.new_country.as_str(),
            request.identity_owner.as_str(),
        );
        self.execute(
            request.from.as_str(),
            msg,
            self.identity_address.clone(),
            crate::no_funds(),
            &request.signer,
            request.gas_limit,
            account,
        )
    }

    /// Removes an existing identity from the chain.
    pub fn remove_identity(&self, request: RemoveIdentityRequest, account: AccountInfo) -> (r:
        Result<PreparedTx, RwaError>)
        ensures
            r matches Ok(p) ==> self.spec_prepared(
                p,
                request.from@,
                spec_remove_identity_json(request.identity_owner@),
                self.spec_identity_address(),
                Seq::<crate::Coin>::empty(),
                request.gas_limit,
                account,
            ),
            self.spec_write_errors(r),
    {
        let msg = remove_identity_json(request.identity_owner.as_str());
        self.execute(
            request.from.as_str(),
            msg,
            self.identity_address.clone(),
            crate::no_funds(),
            &request.signer,
            request.gas_limit,
            account,
        )
    }

    /// Attaches a claim to an identity; the sender must be a trusted
    /// issuer for the claim to be accepted on-chain.
    pub fn add_claim(&self, request: AddClaimRequest, account: AccountInfo) -> (r: Result<
        PreparedTx,
        RwaError,
    >)
        ensures
            r matches Ok(p) ==> self.spec_prepared(
                p,
                request.from@,
                spec_add_claim_json(
                    request.claim.topic,
                    request.claim.issuer@,
                    request.claim.data@,
                    request.claim.uri@,
                    request.identity_owner@,
                ),
                self.spec_identity_address(),
                Seq::<crate::Coin>::empty(),
                request.gas_limit,
                account,
            ),
            self.spec_write_errors(r),
    {
        let msg = add_claim_json(&request.claim, request.identity_owner.as_str());
        self.execute(
            request.from.as_str(),
            msg,
            self.identity_address.clone(),
            crate::no_funds(),
            &request.signer,
            request.gas_limit,
            account,
        )
    }

    /// Removes a claim from an identity by topic and owner.
    pub fn remove_claim(&self, request: RemoveClaimRequest, account: AccountInfo) -> (r: Result<
        PreparedTx,
        RwaError,
    >)
        ensures
            r matches Ok(p) ==> self.spec_prepared(
                p,
                request.from@,
                spec_remove_claim_json(request.claim_topic, request.identity_owner@),
                self.spec_identity_address(),
                Seq::<crate::Coin>::empty(),
                request.gas_limit,
                account,
            ),
            self.spec_write_errors(r),
    {
        let msg = remove_claim_json(request.claim_topic, request.identity_owner.as_str());
        self.execute(
            request.from.as_str(),
            msg,
            self.identity_address.clone(),
            crate::no_funds(),
            &request.signer,
            request.gas_limit,
            account,
        )
    }

    /// Prepares the query for the validated claims of an identity; the
    /// response decodes with [`crate::parse::decode_validated_claims`].
    pub fn get_validated_claims(&self, request: GetValidatedClaimsRequest) -> (q: ContractQuery)
        ensures
            q.path@ == "/cosmwasm.wasm.v1.Query/SmartContractState"@,
            q.data@ == smart_query_bytes(
                self.spec_identity_address(),
                spec_get_validated_claims_json(request.identity_owner@),
            ),
    {
        let msg = get_validated_claims_json(request.identity_owner.as_str());
        self.query(self.identity_address.as_str(), msg.as_str())
    }

    /// Prepares the compliance-check query for a user and a token; the
    /// response decodes with [`crate::parse::decode_compliance_response`].
    pub fn check_token_compliance(&self, request: CheckUserForTokenComplianceRequest) -> (q:
        ContractQuery)
        ensures
            q.path@ == "/cosmwasm.wasm.v1.Query/SmartContractState"@,
            q.data@ == smart_query_bytes(
                self.spec_compliance_address(),
                spec_check_compliance_json(request.token_address@, request.from@),
            ),
    {
        let msg = check_compliance_json(request.token_address.as_str(), request.from.as_str());
        self.query(self.compliance_address.as_str(), msg.as_str())
    }
}

} // verus!
