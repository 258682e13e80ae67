//! The write path end to end: fee computation, plan layout, the signed
//! envelope, account resolution and commit interpretation.

use cosmrs::crypto::secp256k1::SigningKey;
use cosmrs::proto::prost::Message;
use rwa_sdk::error::RwaError;
use rwa_sdk::token::request::TransferMessageRequest;
use rwa_sdk::{
    account_query_path, compute_fee, decode_account_response, decode_query_response,
    interpret_commit, AccountInfo, Event, RwaClient,
};

fn test_client() -> RwaClient {
    RwaClient::new(
        "http://localhost:26657",
        "test-chain",
        "cosmos1token",
        "cosmos1identity",
        "cosmos1compliance",
        "uxyz",
        10,
    )
}

#[test]
fn fee_is_the_exact_product() {
    assert_eq!(compute_fee(5000, 10), 50000u128);
    assert_eq!(compute_fee(0, 10), 0u128);
    assert_eq!(compute_fee(u64::MAX, u64::MAX), (u64::MAX as u128) * (u64::MAX as u128));
}

#[test]
fn transfer_plan_carries_fee_and_sequence() {
    let client = test_client();
    let account = AccountInfo {
        account_number: 7,
        sequence: 42,
    };
    let request = TransferMessageRequest {
        from: "A".to_string(),
        to: "B".to_string(),
        amount: 100,
        signer: SigningKey::random(),
        gas_limit: 5000,
    };
    let prepared = client.transfer(request, account).unwrap();
    assert_eq!(prepared.plan.fee_amount, 50000);
    assert_eq!(prepared.plan.fee_denom, "uxyz");
    assert_eq!(prepared.plan.sequence, 42);
    assert_eq!(prepared.plan.account_number, 7);
    assert_eq!(prepared.plan.contract, "cosmos1token");
    assert_eq!(prepared.plan.sender, "A");
    assert_eq!(
        prepared.plan.msg_json,
        "{\"transfer\":{\"recipient\":\"B\",\"amount\":\"100\"}}"
    );
}

#[test]
fn signed_envelope_embeds_the_plan() {
    let client = test_client();
    let account = AccountInfo {
        account_number: 7,
        sequence: 42,
    };
    let request = TransferMessageRequest {
        from: "cosmos1sender".to_string(),
        to: "cosmos1recipient".to_string(),
        amount: 100,
        signer: SigningKey::random(),
        gas_limit: 5000,
    };
    let prepared = client.transfer(request, account).unwrap();
    let tx = cosmrs::Tx::from_bytes(&prepared.tx_bytes).unwrap();
    assert_eq!(tx.body.messages.len(), 1);
    assert_eq!(tx.body.messages[0].type_url, "/cosmwasm.wasm.v1.MsgExecuteContract");
    let msg = cosmrs::proto::cosmwasm::wasm::v1::MsgExecuteContract::decode(
        tx.body.messages[0].value.as_slice(),
    )
    .unwrap();
    assert_eq!(msg.sender, "cosmos1sender");
    assert_eq!(msg.contract, "cosmos1token");
    assert_eq!(
        msg.msg,
        b"{\"transfer\":{\"recipient\":\"cosmos1recipient\",\"amount\":\"100\"}}".to_vec()
    );
    assert!(msg.funds.is_empty());
    assert_eq!(tx.auth_info.signer_infos.len(), 1);
    assert_eq!(tx.auth_info.signer_infos[0].sequence, 42);
    assert_eq!(tx.auth_info.fee.gas_limit, 5000);
    assert_eq!(tx.auth_info.fee.amount.len(), 1);
    assert_eq!(tx.auth_info.fee.amount[0].amount, 50000u128);
    assert_eq!(tx.auth_info.fee.amount[0].denom.as_ref(), "uxyz");
    assert_eq!(tx.signatures.len(), 1);
}

#[test]
fn distinct_sequences_give_distinct_envelopes() {
    let client = test_client();
    let signer_bytes: [u8; 32] = [
        1, 2, 3, 4, 5, 6, 7, 8, 9, 10, 11, 12, 13, 14, 15, 16, 17, 18, 19, 20, 21, 22, 23, 24,
        25, 26, 27, 28, 29, 30, 31, 32,
    ];
    let make = |sequence: u64| {
        let request = TransferMessageRequest {
            from: "cosmos1sender".to_string(),
            to: "cosmos1recipient".to_string(),
            amount: 100,
            signer: SigningKey::from_slice(&signer_bytes).unwrap(),
            gas_limit: 5000,
        };
        let account = AccountInfo {
            account_number: 7,
            sequence,
        };
        client.transfer(request, account).unwrap()
    };
    let first = make(42);
    let second = make(43);
    assert_ne!(first.plan.sequence, second.plan.sequence);
    assert_ne!(first.tx_bytes, second.tx_bytes);
}

#[test]
fn invalid_fee_denom_is_an_encoding_error() {
    let client = RwaClient::new("e", "test-chain", "t", "i", "c", "x", 10);
    let request = TransferMessageRequest {
        from: "A".to_string(),
        to: "B".to_string(),
        amount: 1,
        signer: SigningKey::random(),
        gas_limit: 100,
    };
    let account = AccountInfo {
        account_number: 0,
        sequence: 0,
    };
    match client.transfer(request, account) {
        Err(RwaError::EncodingError(_)) => {}
        other => panic!("expected an encoding error, got {:?}", other),
    }
}

#[test]
fn invalid_chain_id_is_an_encoding_error() {
    let client = RwaClient::new("e", "bad chain id!", "t", "i", "c", "uxyz", 10);
    let request = TransferMessageRequest {
        from: "A".to_string(),
        to: "B".to_string(),
        amount: 1,
        signer: SigningKey::random(),
        gas_limit: 100,
    };
    let account = AccountInfo {
        account_number: 0,
        sequence: 0,
    };
    match client.transfer(request, account) {
        Err(RwaError::EncodingError(_)) => {}
        other => panic!("expected an encoding error, got {:?}", other),
    }
}

#[test]
fn account_path_uses_the_canonical_address() {
    let signer = SigningKey::random();
    let address = signer.public_key().account_id("cosmos").unwrap().to_string();
    let path = account_query_path(&address).unwrap();
    assert_eq!(path, format!("/cosmos/auth/v1beta1/accounts/{}", address));
}

#[test]
fn account_path_rejects_a_malformed_address() {
    match account_query_path("not an address") {
        Err(RwaError::EncodingError(_)) => {}
        other => panic!("expected an encoding error, got {:?}", other),
    }
}

#[test]
fn missing_account_record_is_not_found() {
    match decode_account_response(0, &[]) {
        Err(RwaError::NotFound) => {}
        other => panic!("expected NotFound, got {:?}", other),
    }
    match decode_account_response(22, &[]) {
        Err(RwaError::NotFound) => {}
        other => panic!("expected NotFound, got {:?}", other),
    }
}

#[test]
fn account_record_decodes_number_and_sequence() {
    let base_account = cosmrs::proto::cosmos::auth::v1beta1::BaseAccount {
        address: "cosmos1someone".to_string(),
        pub_key: None,
        account_number: 7,
        sequence: 42,
    };
    let any = cosmrs::Any {
        type_url: "/cosmos.auth.v1beta1.BaseAccount".to_string(),
        value: base_account.encode_to_vec(),
    };
    let info = decode_account_response(0, &any.encode_to_vec()).unwrap();
    assert_eq!(
        info,
        AccountInfo {
            account_number: 7,
            sequence: 42
        }
    );
}

#[test]
fn garbage_account_record_is_a_decode_error() {
    match decode_account_response(0, &[0xff, 0xff, 0xff, 0xff]) {
        Err(RwaError::DecodeError(_)) => {}
        other => panic!("expected a decode error, got {:?}", other),
    }
}

#[test]
fn commit_with_code_zero_is_a_success() {
    let events = vec![Event {
        kind: "wasm".to_string(),
        attributes: vec![("action".to_string(), "transfer".to_string())],
    }];
    let response = interpret_commit(
        "ABCD".to_string(),
        0,
        String::new(),
        0,
        vec![1, 2, 3],
        String::new(),
        55,
        60,
        events,
        1234,
    )
    .unwrap();
    assert_eq!(response.tx_hash, "ABCD");
    assert_eq!(response.data, vec![1, 2, 3]);
    assert_eq!(response.gas_used, 55);
    assert_eq!(response.gas_wanted, 60);
    assert_eq!(response.height, 1234);
    assert_eq!(response.events.len(), 1);
    assert_eq!(response.events[0].kind, "wasm");
}

#[test]
fn commit_with_nonzero_code_is_an_execution_error() {
    match interpret_commit(
        "ABCD".to_string(),
        0,
        String::new(),
        5,
        vec![9],
        "out of gas".to_string(),
        55,
        60,
        vec![],
        1234,
    ) {
        Err(RwaError::ExecutionError { code, log, data }) => {
            assert_eq!(code, 5);
            assert_eq!(log, "out of gas");
            assert_eq!(data, vec![9]);
        }
        other => panic!("expected an execution error, got {:?}", other),
    }
}

#[test]
fn add_identity_targets_the_identity_contract() {
    let client = test_client();
    let request = rwa_sdk::identity::request::AddIdentityRequest {
        from: "cosmos1sender".to_string(),
        country: "DE".to_string(),
        signer: SigningKey::random(),
        gas_limit: 300,
    };
    let account = AccountInfo {
        account_number: 1,
        sequence: 2,
    };
    let prepared = client.add_identity(request, account).unwrap();
    assert_eq!(prepared.plan.contract, "cosmos1identity");
    assert_eq!(prepared.plan.msg_json, "{\"AddIdentity\":{\"country\":\"DE\"}}");
    assert_eq!(prepared.plan.fee_amount, 3000);
}

#[test]
fn compliance_module_update_targets_the_compliance_contract() {
    let client = test_client();
    let request = rwa_sdk::compliance::request::ComplianceModuleRequest {
        from: "cosmos1sender".to_string(),
        module_addr: "cosmos1module".to_string(),
        signer: SigningKey::random(),
        gas_limit: 400,
    };
    let account = AccountInfo {
        account_number: 1,
        sequence: 2,
    };
    let prepared = client.update_compliance_module(request, false, account).unwrap();
    assert_eq!(prepared.plan.contract, "cosmos1compliance");
    assert_eq!(
        prepared.plan.msg_json,
        "{\"UpdateComplianceModule\":{\"token_address\":\"cosmos1token\",\"module_address\":\"cosmos1module\",\"active\":false}}"
    );
}

#[test]
fn token_contract_follows_the_fee_law() {
    let contract = rwa_sdk::token_contract::TokenContract::new(
        "cosmos1token".to_string(),
        "test-chain".to_string(),
        "ukii".to_string(),
        7,
    );
    let account = AccountInfo {
        account_number: 3,
        sequence: 9,
    };
    let signer = SigningKey::random();
    let prepared = contract
        .execute_contract(
            "cosmos1sender",
            "{\"ping\":{}}".to_string(),
            vec![],
            &signer,
            4000,
            account,
        )
        .unwrap();
    assert_eq!(prepared.plan.fee_amount, 28000);
    assert_eq!(prepared.plan.fee_denom, "ukii");
    assert_eq!(prepared.plan.gas_limit, 4000);
    assert_eq!(prepared.plan.sequence, 9);
    let tx = cosmrs::Tx::from_bytes(&prepared.tx_bytes).unwrap();
    assert_eq!(tx.auth_info.fee.gas_limit, 4000);
    assert_eq!(tx.auth_info.fee.amount[0].amount, 28000u128);
    assert_eq!(tx.auth_info.fee.amount[0].denom.as_ref(), "ukii");
}

#[test]
fn admission_rejection_is_a_submission_failure() {
    match interpret_commit(
        "ABCD".to_string(),
        32,
        "account sequence mismatch".to_string(),
        0,
        vec![],
        String::new(),
        0,
        0,
        vec![],
        0,
    ) {
        Err(RwaError::ExecutionError { code, log, data }) => {
            assert_eq!(code, 32);
            assert_eq!(log, "account sequence mismatch");
            assert!(data.is_empty());
        }
        other => panic!("expected an execution error, got {:?}", other),
    }
}

#[test]
fn query_envelope_round_trips() {
    let inner = b"{\"balance\":\"7\"}".to_vec();
    let response = cosmrs::proto::cosmos::base::tendermint::v1beta1::AbciQueryResponse {
        value: inner.clone(),
        ..Default::default()
    };
    let decoded = decode_query_response(0, &response.encode_to_vec()).unwrap();
    assert_eq!(decoded, inner);
}

#[test]
fn absent_contract_state_is_not_found() {
    match decode_query_response(6, &[]) {
        Err(RwaError::NotFound) => {}
        other => panic!("expected NotFound, got {:?}", other),
    }
}

#[test]
fn malformed_query_envelope_is_a_decode_error() {
    match decode_query_response(0, &[0xff, 0xff, 0xff, 0xff]) {
        Err(RwaError::DecodeError(_)) => {}
        other => panic!("expected a decode error, got {:?}", other),
    }
}

#[test]
fn zero_amount_transfer_is_accepted() {
    let client = test_client();
    let request = TransferMessageRequest {
        from: "A".to_string(),
        to: "B".to_string(),
        amount: 0,
        signer: SigningKey::random(),
        gas_limit: 100,
    };
    let account = AccountInfo {
        account_number: 0,
        sequence: 0,
    };
    let prepared = client.transfer(request, account).unwrap();
    assert_eq!(
        prepared.plan.msg_json,
        "{\"transfer\":{\"recipient\":\"B\",\"amount\":\"0\"}}"
    );
}
