//! The read path: prepared queries carry the exact request, and the
//! decoders return exactly what the contract reported — a negative
//! compliance verdict included — or a decode error, never a crash.

use cosmrs::proto::prost::Message;
use cosmwasm_std::Uint128;
use rwa_sdk::error::RwaError;
use rwa_sdk::identity::request::CheckUserForTokenComplianceRequest;
use rwa_sdk::identity::{claim_json, Claim};
use rwa_sdk::parse::{decode_balance, decode_compliance_response, decode_token_info};
use rwa_sdk::token::request::TokenInfoRequest;
use rwa_sdk::RwaClient;

fn test_client() -> RwaClient {
    RwaClient::new(
        "http://localhost:26657",
        "test-chain",
        "cosmos1token",
        "cosmos1identity",
        "cosmos1compliance",
        "uxyz",
        10,
    )
}

#[test]
fn noncompliant_verdict_is_a_value_not_an_error() {
    assert_eq!(decode_compliance_response("{\"compliant\":false}").unwrap(), false);
    assert_eq!(decode_compliance_response("{\"compliant\": false}").unwrap(), false);
}

#[test]
fn compliant_verdict_decodes_true() {
    assert_eq!(decode_compliance_response("{\"compliant\":true}").unwrap(), true);
    assert_eq!(decode_compliance_response(" {\n\t\"compliant\" : true } ").unwrap(), true);
}

#[test]
fn malformed_compliance_document_is_a_decode_error() {
    for bad in [
        "",
        "{}",
        "{\"compliant\":maybe}",
        "{\"compliant\":true",
        "{\"compliant\":true}x",
        "{\"other\":true}",
        "true",
    ] {
        match decode_compliance_response(bad) {
            Err(RwaError::DecodeError(_)) => {}
            other => panic!("expected a decode error for {:?}, got {:?}", bad, other),
        }
    }
}

#[test]
fn balance_decodes_the_reported_amount() {
    assert_eq!(decode_balance("{\"balance\":\"12345\"}").unwrap(), 12345);
    assert_eq!(decode_balance(" { \"balance\" : \"0\" } ").unwrap(), 0);
}

#[test]
fn balance_matches_the_cw20_response_encoding() {
    let reference = cw20::BalanceResponse {
        balance: Uint128::new(777),
    };
    let text = serde_json::to_string(&reference).unwrap();
    assert_eq!(decode_balance(&text).unwrap(), 777);
}

#[test]
fn balance_handles_the_largest_amount() {
    let text = format!("{{\"balance\":\"{}\"}}", u128::MAX);
    assert_eq!(decode_balance(&text).unwrap(), u128::MAX);
}

#[test]
fn balance_rejects_overflow_and_junk() {
    for bad in [
        "{\"balance\":\"340282366920938463463374607431768211456\"}",
        "{\"balance\":\"\"}",
        "{\"balance\":12}",
        "{\"balance\":\"12x\"}",
        "{\"balance\":\"12\"",
        "{}",
    ] {
        match decode_balance(bad) {
            Err(RwaError::DecodeError(_)) => {}
            other => panic!("expected a decode error for {:?}, got {:?}", bad, other),
        }
    }
}

#[test]
fn token_info_matches_the_cw20_response_encoding() {
    let reference = cw20::TokenInfoResponse {
        name: "My Token".to_string(),
        symbol: "MTK".to_string(),
        decimals: 6,
        total_supply: Uint128::new(1_000_000),
    };
    let text = serde_json::to_string(&reference).unwrap();
    let info = decode_token_info(&text).unwrap();
    assert_eq!(info.name, "My Token");
    assert_eq!(info.symbol, "MTK");
    assert_eq!(info.decimals, 6);
    assert_eq!(info.total_supply, 1_000_000);
}

#[test]
fn token_info_unescapes_the_name() {
    let reference = cw20::TokenInfoResponse {
        name: "He said \"hi\"\n".to_string(),
        symbol: "H\\I".to_string(),
        decimals: 0,
        total_supply: Uint128::zero(),
    };
    let text = serde_json::to_string(&reference).unwrap();
    let info = decode_token_info(&text).unwrap();
    assert_eq!(info.name, "He said \"hi\"\n");
    assert_eq!(info.symbol, "H\\I");
}

#[test]
fn token_info_accepts_hex_escapes_either_case() {
    let text = "{\"name\":\"a\\u001Fb\",\"symbol\":\"a\\u001fb\",\"decimals\":1,\"total_supply\":\"2\"}";
    let info = decode_token_info(text).unwrap();
    assert_eq!(info.name, "a\u{1f}b");
    assert_eq!(info.symbol, "a\u{1f}b");
}

#[test]
fn token_info_rejects_out_of_range_decimals() {
    let text = "{\"name\":\"t\",\"symbol\":\"t\",\"decimals\":256,\"total_supply\":\"1\"}";
    match decode_token_info(text) {
        Err(RwaError::DecodeError(_)) => {}
        other => panic!("expected a decode error, got {:?}", other),
    }
}

#[test]
fn prepared_balance_query_carries_the_request() {
    let client = test_client();
    let query = client.balance(TokenInfoRequest {
        address: "cosmos1holder".to_string(),
    });
    assert_eq!(query.path, "/cosmwasm.wasm.v1.Query/SmartContractState");
    let request = cosmrs::proto::cosmwasm::wasm::v1::QuerySmartContractStateRequest::decode(
        query.data.as_slice(),
    )
    .unwrap();
    assert_eq!(request.address, "cosmos1token");
    assert_eq!(
        request.query_data,
        b"{\"balance\":{\"address\":\"cosmos1holder\"}}".to_vec()
    );
}

#[test]
fn prepared_compliance_query_targets_the_compliance_contract() {
    let client = test_client();
    let query = client.check_token_compliance(CheckUserForTokenComplianceRequest {
        token_address: "cosmos1token".to_string(),
        from: "cosmos1user".to_string(),
    });
    let request = cosmrs::proto::cosmwasm::wasm::v1::QuerySmartContractStateRequest::decode(
        query.data.as_slice(),
    )
    .unwrap();
    assert_eq!(request.address, "cosmos1compliance");
    assert_eq!(
        request.query_data,
        b"{\"CheckTokenCompliance\":{\"token_address\":\"cosmos1token\",\"from\":\"cosmos1user\",\"to\":null,\"amount\":null}}"
            .to_vec()
    );
}

#[test]
fn validated_claims_decode_with_payload_bytes() {
    let b64 = cosmwasm_std::Binary::new(vec![1, 2, 3]).to_base64();
    let text = format!(
        "[{{\"topic\":\"7\",\"issuer\":\"cosmos1issuer\",\"data\":\"{}\",\"uri\":\"u\"}}]",
        b64
    );
    let claims = rwa_sdk::parse::decode_validated_claims(&text).unwrap();
    assert_eq!(claims.len(), 1);
    assert_eq!(claims[0].topic, 7);
    assert_eq!(claims[0].issuer, "cosmos1issuer");
    assert_eq!(claims[0].data, vec![1, 2, 3]);
    assert_eq!(claims[0].uri, "u");
}

#[test]
fn validated_claims_empty_array() {
    assert_eq!(rwa_sdk::parse::decode_validated_claims("[]").unwrap(), vec![]);
    assert_eq!(rwa_sdk::parse::decode_validated_claims(" [ ] ").unwrap(), vec![]);
}

#[test]
fn validated_claims_round_trip_through_the_encoder() {
    let claims = vec![
        Claim {
            topic: 1,
            issuer: "cosmos1a".to_string(),
            data: b"foobar".to_vec(),
            uri: "https://example.com/a".to_string(),
        },
        Claim {
            topic: u128::MAX,
            issuer: "cosmos1b \"quoted\"".to_string(),
            data: vec![0, 255, 7, 8],
            uri: String::new(),
        },
    ];
    let text = format!("[{},{}]", claim_json(&claims[0]), claim_json(&claims[1]));
    let decoded = rwa_sdk::parse::decode_validated_claims(&text).unwrap();
    assert_eq!(decoded, claims);
}

#[test]
fn validated_claims_reject_malformed_documents() {
    for bad in [
        "",
        "[",
        "[{}]",
        "[{\"topic\":\"1\",\"issuer\":\"a\",\"data\":\"A\",\"uri\":\"u\"}]",
        "[{\"topic\":\"1\",\"issuer\":\"a\",\"data\":\"AQID\",\"uri\":\"u\"},]",
        "[{\"topic\":\"1\",\"issuer\":\"a\",\"data\":\"AQID\",\"uri\":\"u\"}]x",
    ] {
        match rwa_sdk::parse::decode_validated_claims(bad) {
            Err(RwaError::DecodeError(_)) => {}
            other => panic!("expected a decode error for {:?}, got {:?}", bad, other),
        }
    }
}

#[test]
fn repeated_queries_are_identical() {
    let client = test_client();
    let first = client.balance(TokenInfoRequest {
        address: "cosmos1holder".to_string(),
    });
    let second = client.balance(TokenInfoRequest {
        address: "cosmos1holder".to_string(),
    });
    assert_eq!(first.path, second.path);
    assert_eq!(first.data, second.data);
    let text = "{\"balance\":\"5\"}";
    assert_eq!(decode_balance(text).unwrap(), decode_balance(text).unwrap());
}
