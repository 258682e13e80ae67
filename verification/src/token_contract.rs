//! A minimal standalone handle for one token contract, predating the
//! full client context: it executes a message against its contract
//! through the same verified planning and signing pipeline, with its own
//! fee denomination and gas price. The fee it attaches follows the same
//! law as the full client's: exactly the caller's gas limit times the
//! configured gas price.

use vstd::prelude::*;
use vstd::string::StringExecFns;

verus! {

use crate::error::RwaError;
use crate::{AccountInfo, Coin, PreparedTx, TxPlan};
use crate::wire::{spec_chain_id_ok, spec_denom_ok};

/// Handle for a single token contract on a named chain, with the fee
/// denomination and gas price its transactions are charged in.
pub struct TokenContract {
    contract_address: String,
    chain_id: String,
    denom: String,
    gas_price: u64,
}

impl TokenContract {
    pub closed spec fn spec_contract_address(&self) -> Seq<char> {
        self.contract_address@
    }

    pub closed spec fn spec_chain_id(&self) -> Seq<char> {
        self.chain_id@
    }

    pub closed spec fn spec_denom(&self) -> Seq<char> {
        self.denom@
    }

    pub closed spec fn spec_gas_price(&self) -> u64 {
        self.gas_price
    }

    /// Creates a handle for the contract at the given address on the
    /// given chain, paying fees in the given denomination at the given
    /// gas price.
    pub fn new(contract_address: String, chain_id: String, denom: String, gas_price: u64) -> (c:
        TokenContract)
        ensures
            c.spec_contract_address() == contract_address@,
            c.spec_chain_id() == chain_id@,
            c.spec_denom() == denom@,
            c.spec_gas_price() == gas_price,
    {
        TokenContract { contract_address, chain_id, denom, gas_price }
    }

    /// Executes the given JSON message against the contract: plans the
    /// transaction with a fee of exactly `gas_limit * gas_price` in the
    /// configured denomination, signs it against the freshly resolved
    /// account state, and returns the envelope for broadcast. An
    /// encoding error arises only from a malformed fee denomination or
    /// chain identifier; with a well-formed configuration, any failure
    /// is the signing primitive's.
    pub fn execute_contract(
        &self,
        from: &str,
        msg_json: String,
        funds: Vec<Coin>,
        signer: &cosmrs::crypto::secp256k1::SigningKey,
        gas_limit: u64,
        account: AccountInfo,
    ) -> (r: Result<PreparedTx, RwaError>)
        ensures
            r matches Ok(p) ==> {
                &&& p.plan.sender@ == from@
                &&& p.plan.msg_json@ == msg_json@
                &&& p.plan.contract@ == self.spec_contract_address()
                &&& p.plan.funds@ == funds@
                &&& p.plan.fee_amount == gas_limit as int * self.spec_gas_price() as int
                &&& p.plan.fee_denom@ == self.spec_denom()
                &&& p.plan.gas_limit == gas_limit
                &&& p.plan.sequence == account.sequence
                &&& p.plan.account_number == account.account_number
                &&& p.plan.chain_id@ == self.spec_chain_id()
            },
            r matches Err(e) ==> e is EncodingError || e is SigningError,
            !spec_denom_ok(self.spec_denom()) ==> (r matches Err(e) && e is EncodingError),
            spec_denom_ok(self.spec_denom()) && !spec_chain_id_ok(self.spec_chain_id()) ==> (r
                matches Err(e) && e is EncodingError),
            (r matches Err(e) && e is EncodingError ==> !spec_denom_ok(self.spec_denom())
                || !spec_chain_id_ok(self.spec_chain_id())),
    {
        let plan = TxPlan {
            sender: String::from_str(from),
            contract: self.contract_address.clone(),
            msg_json,
            funds,
            fee_amount: crate::compute_fee(gas_limit, self.gas_price),
            fee_denom: self.denom.clone(),
            gas_limit,
            sequence: account.sequence,
            account_number: account.account_number,
            chain_id: self.chain_id.clone(),
        };
        match crate::sign_plan(&plan, signer) {
            Ok(tx_bytes) => Ok(PreparedTx { plan, tx_bytes }),
            Err(e) => Err(e),
        }
    }
}

} // verus!
