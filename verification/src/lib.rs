//! Client library for tokenized real-world-asset contracts on a
//! Cosmos-based chain.
//!
//! The library covers three concerns: identity registration and claims,
//! compliance-module management, and token transfers and balance queries.
//! All of them go through one shared pipeline: a contract-execution message
//! is encoded, the sender's account number and sequence are resolved, a fee
//! is computed from the gas limit and the configured gas price, a signable
//! transaction document is assembled and signed, and the commit response is
//! interpreted into a structured result. The read path encodes a
//! smart-contract state query and decodes its JSON response.
//!
//! The transport itself (RPC requests against the chain) is not part of
//! this crate's logic: callers submit the prepared bytes over their own
//! connection and hand the response bytes back for interpretation.

use vstd::prelude::*;
use vstd::string::StringExecFns;

pub mod compliance;
pub mod error;
pub mod identity;
pub mod json;
pub mod parse;
pub mod token;
pub mod token_contract;
pub mod wire;

verus! {

use crate::error::RwaError;
use crate::wire::{
    abci_response_value,
    account_id_canonical,
    any_fields,
    base_account_fields,
    smart_query_bytes,
    spec_chain_id_ok,
    spec_denom_ok,
};

/// Account number and sequence of a signer, fetched fresh per transaction.
///
/// The sequence must be the value at submission time: it is a per-account
/// monotonic counter, and a stale value causes the chain to reject the
/// signature. Nothing here is cached.
#[derive(Debug, Clone, Copy, PartialEq, Eq, Structural)]
pub struct AccountInfo {
    pub account_number: u64,
    pub sequence: u64,
}

/// A token amount in a named denomination, attached to a transaction as
/// funds.
#[derive(Debug, Clone)]
pub struct Coin {
    pub denom: String,
    pub amount: u128,
}

/// One event emitted during contract execution: a kind and its key/value
/// attributes, in the order the chain reported them.
#[derive(Debug, Clone)]
pub struct Event {
    pub kind: String,
    pub attributes: Vec<(String, String)>,
}

/// The structured result of a committed, successful contract execution.
#[derive(Debug, Clone)]
pub struct ExecuteResponse {
    /// The transaction hash.
    pub tx_hash: String,
    /// The response data from the contract execution.
    pub data: Vec<u8>,
    /// Gas used by the transaction.
    pub gas_used: i64,
    /// Gas wanted/requested for the transaction.
    pub gas_wanted: i64,
    /// Events emitted during execution.
    pub events: Vec<Event>,
    /// Height of the block where this transaction was committed.
    pub height: u64,
}

/// Everything that determines the signable transaction document, laid out
/// as plain values: the instruction (sender, contract, JSON message,
/// funds), the fee, and the signing context (sequence, account number,
/// chain identifier).
#[derive(Debug)]
pub struct TxPlan {
    pub sender: String,
    pub contract: String,
    pub msg_json: String,
    pub funds: Vec<Coin>,
    pub fee_amount: u128,
    pub fee_denom: String,
    pub gas_limit: u64,
    pub sequence: u64,
    pub account_number: u64,
    pub chain_id: String,
}

/// A signed transaction together with the plan it was built from: the
/// bytes go out for broadcast, the plan records what they commit to.
#[derive(Debug)]
pub struct PreparedTx {
    pub plan: TxPlan,
    pub tx_bytes: Vec<u8>,
}

/// A prepared read-only state query: the ABCI path and the encoded request.
#[derive(Debug)]
pub struct ContractQuery {
    pub path: String,
    pub data: Vec<u8>,
}

/// The client context: connection parameters and contract addresses,
/// immutable after construction and shared by all operations.
#[derive(Debug, Clone)]
pub struct RwaClient {
    endpoint: String,
    chain_id: String,
    token_address: String,
    identity_address: String,
    compliance_address: String,
    denom: String,
    gas_price: u64,
}

/// An empty funds list: none of the domain operations attaches value.
pub(crate) fn no_funds() -> (v: Vec<Coin>)
    ensures
        v@ == Seq::<Coin>::empty(),
{
    let v: Vec<Coin> = Vec::new();
    proof {
        assert(v@ =~= Seq::<Coin>::empty());
    }
    v
}

/// The fee charged for a transaction: exactly `gas_limit * gas_price`,
/// computed in 128 bits so that no rounding or overflow can occur for any
/// pair of 64-bit inputs.
pub fn compute_fee(gas_limit: u64, gas_price: u64) -> (fee: u128)
    ensures
        fee == gas_limit as int * gas_price as int,
{
    proof {
        assert(gas_limit as int * gas_price as int <= 0xffffffffffffffff
            * 0xffffffffffffffff) by (nonlinear_arith)
            requires
                gas_limit as int <= 0xffffffffffffffff,
                gas_price as int <= 0xffffffffffffffff,
        ;
    }
    (gas_limit as u128) * (gas_price as u128)
}

impl RwaClient {
    pub closed spec fn spec_endpoint(&self) -> Seq<char> {
        self.endpoint@
    }

    pub closed spec fn spec_chain_id(&self) -> Seq<char> {
        self.chain_id@
    }

    pub closed spec fn spec_token_address(&self) -> Seq<char> {
        self.token_address@
    }

    pub closed spec fn spec_identity_address(&self) -> Seq<char> {
        self.identity_address@
    }

    pub closed spec fn spec_compliance_address(&self) -> Seq<char> {
        self.compliance_address@
    }

    pub closed spec fn spec_denom(&self) -> Seq<char> {
        self.denom@
    }

    pub closed spec fn spec_gas_price(&self) -> u64 {
        self.gas_price
    }

    /// Creates a new client context from the connection parameters: RPC
    /// endpoint, chain identifier, the three contract addresses, the fee
    /// denomination and the gas price.
    pub fn new(
        rpc_url: &str,
        chain_id: &str,
        token_address: &str,
        identity_address: &str,
        compliance_address: &str,
        denom: &str,
        gas_price: u64,
    ) -> (c: RwaClient)
        ensures
            c.spec_endpoint() == rpc_url@,
            c.spec_chain_id() == chain_id@,
            c.spec_token_address() == token_address@,
            c.spec_identity_address() == identity_address@,
            c.spec_compliance_address() == compliance_address@,
            c.spec_denom() == denom@,
            c.spec_gas_price() == gas_price,
    {
        RwaClient {
            endpoint: String::from_str(rpc_url),
            chain_id: String::from_str(chain_id),
            token_address: String::from_str(token_address),
            identity_address: String::from_str(identity_address),
            compliance_address: String::from_str(compliance_address),
            denom: String::from_str(denom),
            gas_price,
        }
    }

    /// The RPC endpoint this context was constructed with.
    pub fn endpoint(&self) -> (r: &String)
        ensures
            r@ == self.spec_endpoint(),
    {
        &self.endpoint
    }

    /// What a correctly prepared transaction for this context looks like:
    /// the instruction fields are passed through unchanged, the fee is
    /// exactly `gas_limit * gas_price` in the configured denomination, and
    /// the signing context carries the resolved account's number and
    /// sequence and the configured chain identifier.
    pub open spec fn spec_prepared(
        self,
        p: PreparedTx,
        sender: Seq<char>,
        msg_json: Seq<char>,
        contract: Seq<char>,
        funds: Seq<Coin>,
        gas_limit: u64,
        account: AccountInfo,
    ) -> bool {
        &&& p.plan.sender@ == sender
        &&& p.plan.msg_json@ == msg_json
        &&& p.plan.contract@ == contract
        &&& p.plan.funds@ == funds
        &&& p.plan.fee_amount == gas_limit as int * self.spec_gas_price() as int
        &&& p.plan.fee_denom@ == self.spec_denom()
        &&& p.plan.gas_limit == gas_limit
        &&& p.plan.sequence == account.sequence
        &&& p.plan.account_number == account.account_number
        &&& p.plan.chain_id@ == self.spec_chain_id()
    }

    /// What every write operation guarantees about failure: an error is
    /// either an encoding or a signing failure; a misconfigured fee
    /// denomination or chain identifier always fails as an encoding
    /// error; and an encoding error arises from those two causes alone,
    /// so with a well-formed configuration the request itself — amounts,
    /// addresses, payloads — can never be rejected as unencodable, and
    /// any failure is the signing primitive's.
    pub open spec fn spec_write_errors(self, r: Result<PreparedTx, RwaError>) -> bool {
        &&& r matches Err(e) ==> e is EncodingError || e is SigningError
        &&& !spec_denom_ok(self.spec_denom()) ==> (r matches Err(e) && e is EncodingError)
        &&& spec_denom_ok(self.spec_denom()) && !spec_chain_id_ok(self.spec_chain_id()) ==> (r
            matches Err(e) && e is EncodingError)
        &&& (r matches Err(e) && e is EncodingError ==> !spec_denom_ok(self.spec_denom())
            || !spec_chain_id_ok(self.spec_chain_id()))
    }

    /// Lays out the signable transaction: instruction fields unchanged,
    /// fee computed from the gas limit and the configured gas price, and
    /// the freshly resolved account's sequence and number. Total: every
    /// well-formed input yields a plan.
    pub fn plan_execute(
        &self,
        from: &str,
        msg_json: String,
        contract_address: String,
        funds: Vec<Coin>,
        gas_limit: u64,
        account: AccountInfo,
    ) -> (p: TxPlan)
        ensures
            p.sender@ == from@,
            p.msg_json@ == msg_json@,
            p.contract@ == contract_address@,
            p.funds@ == funds@,
            p.fee_amount == gas_limit as int * self.spec_gas_price() as int,
            p.fee_denom@ == self.spec_denom(),
            p.gas_limit == gas_limit,
            p.sequence == account.sequence,
            p.account_number == account.account_number,
            p.chain_id@ == self.spec_chain_id(),
    {
        let fee_amount = compute_fee(gas_limit, self.gas_price);
        TxPlan {
            sender: String::from_str(from),
            contract: contract_address,
            msg_json,
            funds,
            fee_amount,
            fee_denom: self.denom.clone(),
            gas_limit,
            sequence: account.sequence,
            account_number: account.account_number,
            chain_id: self.chain_id.clone(),
        }
    }

    /// Executes a contract call that modifies state: plans the
    /// transaction, signs it, and returns the envelope ready for
    /// broadcast. The caller resolves the sender's account immediately
    /// before calling, and broadcasts the returned bytes.
    pub fn execute(
        &self,
        from: &str,
        msg_json: String,
        contract_address: String,
        funds: Vec<Coin>,
        signer: &cosmrs::crypto::secp256k1::SigningKey,
        gas_limit: u64,
        account: AccountInfo,
    ) -> (r: Result<PreparedTx, RwaError>)
        ensures
            r matches Ok(p) ==> self.spec_prepared(
                p,
                from@,
                msg_json@,
                contract_address@,
                funds@,
                gas_limit,
                account,
            ),
            self.spec_write_errors(r),
    {
        let plan = self.plan_execute(from, msg_json, contract_address, funds, gas_limit, account);
        match sign_plan(&plan, signer) {
            Ok(tx_bytes) => Ok(PreparedTx { plan, tx_bytes }),
            Err(e) => Err(e),
        }
    }

    /// Prepares a read-only smart-contract state query for the given
    /// contract and JSON message: no signing, no fee, no sequence.
    pub fn query(&self, contract_address: &str, msg_json: &str) -> (q: ContractQuery)
        ensures
            q.path@ == "/cosmwasm.wasm.v1.Query/SmartContractState"@,
            q.data@ == smart_query_bytes(contract_address@, msg_json@),
    {
        ContractQuery {
            path: String::from_str("/cosmwasm.wasm.v1.Query/SmartContractState"),
            data: crate::wire::encode_smart_query(contract_address, msg_json),
        }
    }
}

/// Assembles and signs the transaction document a plan describes. The
/// outcome of the signing primitive itself is opaque, but a failure is
/// always classified: a malformed fee denomination or chain identifier is
/// an encoding error, everything else a signing error.
pub fn sign_plan(plan: &TxPlan, signer: &cosmrs::crypto::secp256k1::SigningKey) -> (r: Result<
    Vec<u8>,
    RwaError,
>)
    ensures
        r is Ok ==> spec_denom_ok(plan.fee_denom@) && spec_chain_id_ok(plan.chain_id@),
        !spec_denom_ok(plan.fee_denom@) ==> (r matches Err(e) && e is EncodingError),
        spec_denom_ok(plan.fee_denom@) && !spec_chain_id_ok(plan.chain_id@) ==> (r matches Err(e)
            && e is EncodingError),
        (r matches Err(e) && e is EncodingError ==> !spec_denom_ok(plan.fee_denom@)
            || !spec_chain_id_ok(plan.chain_id@)),
        r matches Err(e) ==> e is EncodingError || e is SigningError,
{
    let msg_bytes = crate::wire::encode_wasm_execute(
        plan.sender.as_str(),
        plan.contract.as_str(),
        plan.msg_json.as_str(),
        &plan.funds,
    );
    let body = crate::wire::make_tx_body("/cosmwasm.wasm.v1.MsgExecuteContract", msg_bytes);
    let fee = match crate::wire::make_fee(plan.fee_amount, plan.fee_denom.as_str(), plan.gas_limit) {
        Some(fee) => fee,
        None => {
            return Err(RwaError::EncodingError(String::from_str("invalid fee denomination")));
        },
    };
    let auth_info = crate::wire::make_auth_info(signer, plan.sequence, fee);
    let doc = match crate::wire::make_sign_doc(
        &body,
        &auth_info,
        plan.chain_id.as_str(),
        plan.account_number,
    ) {
        Some(doc) => doc,
        None => {
            return Err(RwaError::EncodingError(String::from_str("invalid chain identifier")));
        },
    };
    match crate::wire::sign_and_encode(doc, signer) {
        Some(bytes) => Ok(bytes),
        None => Err(RwaError::SigningError(String::from_str("signature construction failed"))),
    }
}

/// The auth endpoint path that resolves an account: the canonical form of
/// the address appended to the accounts route. Fails on an address that is
/// not valid bech32.
pub fn account_query_path(address: &str) -> (r: Result<String, RwaError>)
    ensures
        r matches Ok(p) ==> (account_id_canonical(address@) matches Some(a) && p@
            == "/cosmos/auth/v1beta1/accounts/"@ + a),
        r is Err <==> account_id_canonical(address@) is None,
        r matches Err(e) ==> e is EncodingError,
{
    match crate::wire::canonical_account_id(address) {
        Some(canonical) => {
            let mut path = String::from_str("/cosmos/auth/v1beta1/accounts/");
            path.append(canonical.as_str());
            Ok(path)
        },
        None => Err(RwaError::EncodingError(String::from_str("invalid account address"))),
    }
}

/// Interprets the auth endpoint's response for an account: an error code
/// or an empty record means the address has no on-chain account
/// (`NotFound`, an expected outcome, not a decode failure); otherwise the
/// record is an `Any`-wrapped base account whose number and sequence are
/// returned.
pub fn decode_account_response(code: u32, value: &[u8]) -> (r: Result<AccountInfo, RwaError>)
    ensures
        code != 0 || value@.len() == 0 ==> (r matches Err(e) && e is NotFound),
        code == 0 && value@.len() > 0 && any_fields(value@) is None ==> (r matches Err(e) && e
            is DecodeError),
        code == 0 && value@.len() > 0 ==> (any_fields(value@) matches Some(f) ==> match base_account_fields(
            f.1,
        ) {
            Option::None => r matches Err(e) && e is DecodeError,
            Option::Some(fields) => r matches Ok(a) && a.account_number == fields.0 && a.sequence
                == fields.1,
        }),
{
    if code != 0 || value.len() == 0 {
        return Err(RwaError::NotFound);
    }
    let inner = match crate::wire::decode_any(value) {
        Some(decoded) => decoded.1,
        None => {
            return Err(RwaError::DecodeError(String::from_str("account record is not an Any")));
        },
    };
    match crate::wire::decode_base_account(inner.as_slice()) {
        Some(fields) => Ok(AccountInfo { account_number: fields.0, sequence: fields.1 }),
        None => Err(RwaError::DecodeError(String::from_str("account record is not a BaseAccount"))),
    }
}

/// Unwraps the envelope of a smart-contract state query response. A
/// non-zero response code means the contract reports no such state — an
/// expected outcome surfaced as `NotFound`, distinguishable from a decode
/// failure; otherwise the inner JSON document is returned, or a decode
/// error when the bytes are not a valid response encoding.
pub fn decode_query_response(code: u32, bytes: &[u8]) -> (r: Result<Vec<u8>, RwaError>)
    ensures
        code != 0 ==> (r matches Err(e) && e is NotFound),
        code == 0 && abci_response_value(bytes@) is None ==> (r matches Err(e) && e
            is DecodeError),
        code == 0 ==> (abci_response_value(bytes@) matches Some(v) ==> (r matches Ok(inner)
            && inner@ == v)),
{
    if code != 0 {
        return Err(RwaError::NotFound);
    }
    match crate::wire::decode_abci_value(bytes) {
        Some(value) => Ok(value),
        None => Err(RwaError::DecodeError(String::from_str("malformed query response"))),
    }
}

/// Translates a broadcast-and-commit response into the structured
/// execution result. A non-zero admission code means the chain rejected
/// the transaction before executing it (a stale sequence, for instance):
/// that is a submission failure carrying the admission code and log,
/// never a success with empty fields. With the transaction admitted, a
/// result code of zero passes every reported field through unchanged,
/// and any other result code is an execution error carrying the
/// chain-reported code, log and data — a rejected transaction is a
/// valid, informative outcome, not a decode failure.
pub fn interpret_commit(
    tx_hash: String,
    check_code: u32,
    check_log: String,
    code: u32,
    data: Vec<u8>,
    log: String,
    gas_used: i64,
    gas_wanted: i64,
    events: Vec<Event>,
    height: u64,
) -> (r: Result<ExecuteResponse, RwaError>)
    ensures
        check_code != 0 ==> (r matches Err(e) && e matches RwaError::ExecutionError {
            code: c,
            log: l,
            data: d,
        } && c == check_code && l == check_log && d@.len() == 0),
        check_code == 0 && code == 0 ==> (r matches Ok(resp) && resp.tx_hash == tx_hash
            && resp.data == data && resp.gas_used == gas_used && resp.gas_wanted == gas_wanted
            && resp.events == events && resp.height == height),
        check_code == 0 && code != 0 ==> (r matches Err(e) && e matches RwaError::ExecutionError {
            code: c,
            log: l,
            data: d,
        } && c == code && l == log && d == data),
{
    if check_code != 0 {
        return Err(RwaError::ExecutionError { code: check_code, log: check_log, data: Vec::new() });
    }
    if code == 0 {
        Ok(ExecuteResponse { tx_hash, data, gas_used, gas_wanted, events, height })
    } else {
        Err(RwaError::ExecutionError { code, log, data })
    }
}

/// Two executions prepared against account states with different sequences
/// embed different sequences in their signable documents, so the executor
/// never accidentally reuses or deduplicates a transaction: each
/// submission consumes its own sequence and signs a distinct document.
/// The transaction hash itself is the chain's report on the submitted
/// bytes — [`interpret_commit`] passes it through unchanged — so its
/// distinctness across submissions rests on the chain, not on this
/// library.
pub proof fn lemma_distinct_sequence_distinct_plan(
    p1: TxPlan,
    p2: TxPlan,
    a1: AccountInfo,
    a2: AccountInfo,
)
    requires
        p1.sequence == a1.sequence,
        p2.sequence == a2.sequence,
        a1.sequence != a2.sequence,
    ensures
        p1 != p2,
{
}

/// The read path is referentially transparent: two queries prepared from
/// identical arguments are identical requests, and two responses with
/// identical bytes decode to identical values. Nothing about a query
/// depends on anything but its arguments and the chain's reply.
pub proof fn lemma_query_referentially_transparent(
    q1: ContractQuery,
    q2: ContractQuery,
    address: Seq<char>,
    msg: Seq<char>,
    response: Seq<u8>,
)
    requires
        q1.path@ == "/cosmwasm.wasm.v1.Query/SmartContractState"@,
        q1.data@ == smart_query_bytes(address, msg),
        q2.path@ == "/cosmwasm.wasm.v1.Query/SmartContractState"@,
        q2.data@ == smart_query_bytes(address, msg),
    ensures
        q1.path@ == q2.path@,
        q1.data@ == q2.data@,
{
}

} // verus!
