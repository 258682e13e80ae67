//! Token operations: transfers, balance checks and token metadata.
//!
//! The messages follow the cw20 wire schema: variant names in snake case
//! and 128-bit amounts as decimal strings. Any amount the caller supplies
//! — zero included — is passed through unchanged; the library imposes no
//! minimum of its own.

use vstd::prelude::*;

pub mod request;

verus! {

use crate::error::RwaError;
use crate::json::{push_dec, push_json_string, spec_dec, spec_json_string};
use crate::token::request::{TokenInfoRequest, TransferMessageRequest};
use crate::wire::smart_query_bytes;
use crate::{AccountInfo, ContractQuery, PreparedTx, RwaClient};

/// The token's metadata, as reported by the token contract.
#[derive(Debug, Clone, PartialEq)]
pub struct TokenInfo {
    pub name: String,
    pub symbol: String,
    pub decimals: u8,
    pub total_supply: u128,
}

/// The message moving tokens from the sender to a recipient.
pub open spec fn spec_transfer_json(recipient: Seq<char>, amount: u128) -> Seq<char> {
    "{\"transfer\":{\"recipient\":"@ + spec_json_string(recipient) + ",\"amount\":\""@ + spec_dec(
        amount as int,
    ) + "\"}}"@
}

/// The message moving tokens between two addresses under a prior
/// allowance.
pub open spec fn spec_transfer_from_json(
    owner: Seq<char>,
    recipient: Seq<char>,
    amount: u128,
) -> Seq<char> {
    "{\"transfer_from\":{\"owner\":"@ + spec_json_string(owner) + ",\"recipient\":"@
        + spec_json_string(recipient) + ",\"amount\":\""@ + spec_dec(amount as int) + "\"}}"@
}

/// The query for the token's metadata.
pub open spec fn spec_token_info_json() -> Seq<char> {
    "{\"token_info\":{}}"@
}

/// The query for the token balance of an address.
pub open spec fn spec_balance_json(address: Seq<char>) -> Seq<char> {
    "{\"balance\":{\"address\":"@ + spec_json_string(address) + "}}"@
}

pub fn transfer_json(recipient: &str, amount: u128) -> (r: String)
    ensures
        r@ == spec_transfer_json(recipient@, amount),
{
    let mut out = String::new();
    out.append("{\"transfer\":{\"recipient\":");
    push_json_string(&mut out, recipient);
    out.append(",\"amount\":\"");
    push_dec(&mut out, amount);
    out.append("\"}}");
    proof {
        assert(out@ =~= spec_transfer_json(recipient@, amount));
    }
    out
}

pub fn transfer_from_json(owner: &str, recipient: &str, amount: u128) -> (r: String)
    ensures
        r@ == spec_transfer_from_json(owner@, recipient@, amount),
{
    let mut out = String::new();
    out.append("{\"transfer_from\":{\"owner\":");
    push_json_string(&mut out, owner);
    out.append(",\"recipient\":");
    push_json_string(&mut out, recipient);
    out.append(",\"amount\":\"");
    push_dec(&mut out, amount);
    out.append("\"}}");
    proof {
        assert(out@ =~= spec_transfer_from_json(owner@, recipient@, amount));
    }
    out
}

pub fn balance_json(address: &str) -> (r: String)
    ensures
        r@ == spec_balance_json(address@),
{
    let mut out = String::new();
    out.append("{\"balance\":{\"address\":");
    push_json_string(&mut out, address);
    out.append("}}");
    proof {
        assert(out@ =~= spec_balance_json(address@));
    }
    out
}

impl RwaClient {
    /// Transfers tokens from the sender to a recipient. The requested
    /// amount — zero included — is passed through to the chain unchanged.
    pub fn transfer(&self, request: TransferMessageRequest, account: AccountInfo) -> (r: Result<
        PreparedTx,
        RwaError,
    >)
        ensures
            r matches Ok(p) ==> self.spec_prepared(
                p,
                request.from@,
                spec_transfer_json(request.to@, request.amount),
                self.spec_token_address(),
                Seq::<crate::Coin>::empty(),
                request.gas_limit,
                account,
            ),
            self.spec_write_errors(r),
    {
        let msg = transfer_json(request.to.as_str(), request.amount);
        self.execute(
            request.from.as_str(),
            msg,
            self.token_address.clone(),
            crate::no_funds(),
            &request.signer,
            request.gas_limit,
            account,
        )
    }

    /// Transfers tokens from one address to another, given prior
    /// approval; the sender acts as the spender of the allowance.
    pub fn transfer_from(&self, request: TransferMessageRequest, account: AccountInfo) -> (r:
        Result<PreparedTx, RwaError>)
        ensures
            r matches Ok(p) ==> self.spec_prepared(
                p,
                request.from@,
                spec_transfer_from_json(request.from@, request.to@, request.amount),
                self.spec_token_address(),
                Seq::<crate::Coin>::empty(),
                request.gas_limit,
                account,
            ),
            self.spec_write_errors(r),
    {
        let msg = transfer_from_json(request.from.as_str(), request.to.as_str(), request.amount);
        self.execute(
            request.from.as_str(),
            msg,
            self.token_address.clone(),
            crate::no_funds(),
            &request.signer,
            request.gas_limit,
            account,
        )
    }

    /// Prepares the query for the token's metadata; the response decodes
    /// with [`crate::parse::decode_token_info`].
    pub fn coin_info(&self) -> (q: ContractQuery)
        ensures
            q.path@ == "/cosmwasm.wasm.v1.Query/SmartContractState"@,
            q.data@ == smart_query_bytes(self.spec_token_address(), spec_token_info_json()),
    {
        self.query(self.token_address.as_str(), "{\"token_info\":{}}")
    }

    /// Prepares the query for the token balance of an address; the
    /// response decodes with [`crate::parse::decode_balance`].
    pub fn balance(&self, request: TokenInfoRequest) -> (q: ContractQuery)
        ensures
            q.path@ == "/cosmwasm.wasm.v1.Query/SmartContractState"@,
            q.data@ == smart_query_bytes(
                self.spec_token_address(),
                spec_balance_json(request.address@),
            ),
    {
        let msg = balance_json(request.address.as_str());
        self.query(self.token_address.as_str(), msg.as_str())
    }
}

} // verus!
