//! Trusted boundary to the Cosmos SDK wire machinery.
//!
//! Everything the chain defines — protobuf encodings, bech32 account
//! addresses, the signing primitive — is reached through the small set of
//! declarations in this module. Each wrapper makes exactly the call its doc
//! comment names; what Verus believes about it is stated over names for the
//! wire-level encodings, which are functions of the wrapper's arguments
//! alone.

use vstd::prelude::*;
use std::str::FromStr;
use cosmrs::proto::prost::Message;

verus! {

use crate::Coin;

#[verifier::external_type_specification]
#[verifier::external_body]
pub struct ExSigningKey(cosmrs::crypto::secp256k1::SigningKey);

#[verifier::external_type_specification]
#[verifier::external_body]
pub struct ExBody(cosmrs::tx::Body);

#[verifier::external_type_specification]
#[verifier::external_body]
pub struct ExAuthInfo(cosmrs::tx::AuthInfo);

#[verifier::external_type_specification]
#[verifier::external_body]
pub struct ExFee(cosmrs::tx::Fee);

#[verifier::external_type_specification]
#[verifier::external_body]
pub struct ExSignDoc(cosmrs::tx::SignDoc);

/// Whether `c` may appear in a coin denomination: the character set the
/// Cosmos SDK admits, `A-Z a-z 0-9 / : . _ -`.
pub open spec fn spec_denom_char_ok(c: char) -> bool {
    (65 <= c as int <= 90) || (97 <= c as int <= 122) || (48 <= c as int <= 57) || c == '/' || c
        == ':' || c == '.' || c == '_' || c == '-'
}

/// Whether `s` is a well-formed coin denomination: 3 to 128 characters from
/// the admitted set. Matches the validation `Denom::from_str` performs.
pub open spec fn spec_denom_ok(s: Seq<char>) -> bool {
    3 <= s.len() <= 128 && (forall|i: int| 0 <= i < s.len() ==> spec_denom_char_ok(#[trigger] s[i]))
}

/// Whether `c` may appear in a chain identifier: `A-Z a-z 0-9 . _ -`.
pub open spec fn spec_chain_id_char_ok(c: char) -> bool {
    (65 <= c as int <= 90) || (97 <= c as int <= 122) || (48 <= c as int <= 57) || c == '.' || c
        == '_' || c == '-'
}

/// Whether `s` is a well-formed chain identifier: 1 to 50 characters from
/// the admitted set. Matches the validation `chain::Id::from_str` performs.
pub open spec fn spec_chain_id_ok(s: Seq<char>) -> bool {
    1 <= s.len() <= 50 && (forall|i: int|
        0 <= i < s.len() ==> spec_chain_id_char_ok(#[trigger] s[i]))
}

/// The protobuf encoding of a `MsgExecuteContract` with the given sender,
/// contract, JSON message and funds. Fixed by the chain's wire format.
pub uninterp spec fn wasm_execute_bytes(
    sender: Seq<char>,
    contract: Seq<char>,
    msg: Seq<char>,
    funds: Seq<(Seq<char>, u128)>,
) -> Seq<u8>;

/// The protobuf encoding of a `QuerySmartContractStateRequest` with the
/// given contract address and JSON query. Fixed by the chain's wire format.
pub uninterp spec fn smart_query_bytes(address: Seq<char>, query: Seq<char>) -> Seq<u8>;

/// The `type_url` and `value` fields of the protobuf `Any` message encoded
/// in the given bytes, or nothing if the bytes are not a valid encoding.
pub uninterp spec fn any_fields(bytes: Seq<u8>) -> Option<(Seq<char>, Seq<u8>)>;

/// The account number and sequence of the protobuf `BaseAccount` record
/// encoded in the given bytes, or nothing if the bytes are not a valid
/// encoding.
pub uninterp spec fn base_account_fields(bytes: Seq<u8>) -> Option<(u64, u64)>;

/// The `value` field of the protobuf ABCI query response encoded in the
/// given bytes, or nothing if the bytes are not a valid encoding.
pub uninterp spec fn abci_response_value(bytes: Seq<u8>) -> Option<Seq<u8>>;

/// The canonical form of a bech32 account address, or nothing when the
/// characters are not a valid address.
pub uninterp spec fn account_id_canonical(s: Seq<char>) -> Option<Seq<char>>;

/// Relies on prost's `Message::encode_to_vec` for `MsgExecuteContract`
/// (protobuf encoding to a growable buffer cannot fail). The funds are
/// carried as wire-level coins, the amount in its decimal form.
#[verifier::external_body]
pub fn encode_wasm_execute(sender: &str, contract: &str, msg_json: &str, funds: &Vec<Coin>) -> (r:
    Vec<u8>)
    ensures
        r@ == wasm_execute_bytes(
            sender@,
            contract@,
            msg_json@,
            funds@.map_values(|c: Coin| (c.denom@, c.amount)),
        ),
{
    let execute_msg = cosmrs::proto::cosmwasm::wasm::v1::MsgExecuteContract {
        sender: sender.to_string(),
        contract: contract.to_string(),
        msg: msg_json.as_bytes().to_vec(),
        funds: funds
            .iter()
            .map(|c| cosmrs::proto::cosmos::base::v1beta1::Coin {
                denom: c.denom.clone(),
                amount: c.amount.to_string(),
            })
            .collect(),
    };
    execute_msg.encode_to_vec()
}

/// Relies on prost's `Message::encode_to_vec` for
/// `QuerySmartContractStateRequest` (protobuf encoding to a growable buffer
/// cannot fail).
#[verifier::external_body]
pub fn encode_smart_query(address: &str, query_json: &str) -> (r: Vec<u8>)
    ensures
        r@ == smart_query_bytes(address@, query_json@),
{
    let request = cosmrs::proto::cosmwasm::wasm::v1::QuerySmartContractStateRequest {
        address: address.to_string(),
        query_data: query_json.as_bytes().to_vec(),
    };
    request.encode_to_vec()
}

/// Relies on `tx::BodyBuilder`: a transaction body holding the one `Any`
/// message built from the given type URL and value.
#[verifier::external_body]
pub fn make_tx_body(type_url: &str, value: Vec<u8>) -> cosmrs::tx::Body {
    let any_msg = cosmrs::Any { type_url: type_url.to_string(), value };
    cosmrs::tx::BodyBuilder::new().msg(any_msg).finish()
}

/// Relies on `Denom::from_str`, which accepts exactly the well-formed
/// denominations, and on `Fee::from_amount_and_gas`, which records the coin
/// and the gas limit in the fee.
#[verifier::external_body]
pub fn make_fee(amount: u128, denom: &str, gas_limit: u64) -> (r: Option<cosmrs::tx::Fee>)
    ensures
        r is Some <==> spec_denom_ok(denom@),
{
    match cosmrs::Denom::from_str(denom) {
        Ok(d) => {
            let coin = cosmrs::Coin { denom: d, amount };
            Some(cosmrs::tx::Fee::from_amount_and_gas(coin, gas_limit))
        },
        Err(_) => None,
    }
}

/// Relies on `SigningKey::public_key` and `SignerInfo::single_direct`: the
/// authentication info for a single direct signer with the given sequence
/// and fee.
#[verifier::external_body]
pub fn make_auth_info(
    signer: &cosmrs::crypto::secp256k1::SigningKey,
    sequence: u64,
    fee: cosmrs::tx::Fee,
) -> cosmrs::tx::AuthInfo {
    cosmrs::tx::SignerInfo::single_direct(Some(signer.public_key()), sequence).auth_info(fee)
}

/// Relies on `chain::Id::from_str`, which accepts exactly the well-formed
/// chain identifiers, and on `SignDoc::new`, whose only other ingredient is
/// the protobuf encoding of body and auth info, which cannot fail for a
/// growable buffer.
#[verifier::external_body]
pub fn make_sign_doc(
    body: &cosmrs::tx::Body,
    auth_info: &cosmrs::tx::AuthInfo,
    chain_id: &str,
    account_number: u64,
) -> (r: Option<cosmrs::tx::SignDoc>)
    ensures
        r is Some <==> spec_chain_id_ok(chain_id@),
{
    let id = match cosmrs::tendermint::chain::Id::from_str(chain_id) {
        Ok(id) => id,
        Err(_) => {
            return None;
        },
    };
    cosmrs::tx::SignDoc::new(body, auth_info, &id, account_number).ok()
}

/// Relies on `SignDoc::sign` and `Raw::to_bytes`: the signed transaction
/// envelope, ready for broadcast. The signature depends on the opaque key,
/// so nothing is claimed about the bytes.
#[verifier::external_body]
pub fn sign_and_encode(
    doc: cosmrs::tx::SignDoc,
    signer: &cosmrs::crypto::secp256k1::SigningKey,
) -> Option<Vec<u8>> {
    let raw = doc.sign(signer).ok()?;
    raw.to_bytes().ok()
}

/// Relies on `AccountId::from_str` and its display form: the canonical
/// rendering of the address when it parses as bech32, or nothing.
#[verifier::external_body]
pub fn canonical_account_id(s: &str) -> (r: Option<String>)
    ensures
        r is Some <==> account_id_canonical(s@) is Some,
        r matches Some(c) ==> (account_id_canonical(s@) matches Some(a) && c@ == a),
{
    match cosmrs::AccountId::from_str(s) {
        Ok(id) => Some(id.to_string()),
        Err(_) => None,
    }
}

/// Relies on prost's `Message::decode` for `Any`: the decoded `type_url`
/// and `value` fields, or nothing when the bytes are not a valid encoding.
#[verifier::external_body]
pub fn decode_any(bytes: &[u8]) -> (r: Option<(String, Vec<u8>)>)
    ensures
        r is Some <==> any_fields(bytes@) is Some,
        r matches Some(p) ==> (any_fields(bytes@) matches Some(q) && p.0@ == q.0 && p.1@ == q.1),
{
    match cosmrs::Any::decode(bytes) {
        Ok(any) => Some((any.type_url, any.value)),
        Err(_) => None,
    }
}

/// Relies on prost's `Message::decode` for `BaseAccount`: the decoded
/// account number and sequence, or nothing when the bytes are not a valid
/// encoding.
#[verifier::external_body]
pub fn decode_base_account(bytes: &[u8]) -> (r: Option<(u64, u64)>)
    ensures
        r == base_account_fields(bytes@),
{
    match cosmrs::proto::cosmos::auth::v1beta1::BaseAccount::decode(bytes) {
        Ok(account) => Some((account.account_number, account.sequence)),
        Err(_) => None,
    }
}

/// Relies on prost's `Message::decode` for the ABCI query response: its
/// `value` field, or nothing when the bytes are not a valid encoding.
#[verifier::external_body]
pub fn decode_abci_value(bytes: &[u8]) -> (r: Option<Vec<u8>>)
    ensures
        r is Some <==> abci_response_value(bytes@) is Some,
        r matches Some(v) ==> (abci_response_value(bytes@) matches Some(w) && v@ == w),
{
    match cosmrs::proto::cosmos::base::tendermint::v1beta1::AbciQueryResponse::decode(bytes) {
        Ok(response) => Some(response.value),
        Err(_) => None,
    }
}

} // verus!
