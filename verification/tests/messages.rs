//! The JSON messages the library builds must match, byte for byte, what
//! the contracts expect: the cw20 schema for token operations and the
//! identity and compliance schemas for the rest.

use cosmwasm_std::Uint128;
use rwa_sdk::compliance::{
    add_compliance_module_json, remove_compliance_module_json, update_compliance_module_json,
};
use rwa_sdk::identity::{
    add_claim_json, add_identity_json, check_compliance_json, claim_json,
    get_validated_claims_json, remove_claim_json, remove_identity_json, update_identity_json,
    Claim,
};
use rwa_sdk::token::{balance_json, transfer_from_json, transfer_json};

#[test]
fn transfer_matches_cw20_encoding() {
    let ours = transfer_json("cosmos1recipient", 100);
    let reference = cw20::Cw20ExecuteMsg::Transfer {
        recipient: "cosmos1recipient".to_string(),
        amount: Uint128::new(100),
    };
    assert_eq!(ours, serde_json::to_string(&reference).unwrap());
}

#[test]
fn transfer_amount_zero_is_passed_through() {
    let ours = transfer_json("cosmos1recipient", 0);
    let reference = cw20::Cw20ExecuteMsg::Transfer {
        recipient: "cosmos1recipient".to_string(),
        amount: Uint128::zero(),
    };
    assert_eq!(ours, serde_json::to_string(&reference).unwrap());
    assert_eq!(ours, "{\"transfer\":{\"recipient\":\"cosmos1recipient\",\"amount\":\"0\"}}");
}

#[test]
fn transfer_max_amount() {
    let ours = transfer_json("a", u128::MAX);
    let reference = cw20::Cw20ExecuteMsg::Transfer {
        recipient: "a".to_string(),
        amount: Uint128::new(u128::MAX),
    };
    assert_eq!(ours, serde_json::to_string(&reference).unwrap());
}

#[test]
fn transfer_from_matches_cw20_encoding() {
    let ours = transfer_from_json("cosmos1owner", "cosmos1recipient", 250);
    let reference = cw20::Cw20ExecuteMsg::TransferFrom {
        owner: "cosmos1owner".to_string(),
        recipient: "cosmos1recipient".to_string(),
        amount: Uint128::new(250),
    };
    assert_eq!(ours, serde_json::to_string(&reference).unwrap());
}

#[test]
fn balance_query_matches_cw20_encoding() {
    let ours = balance_json("cosmos1addr");
    let reference = cw20::Cw20QueryMsg::Balance {
        address: "cosmos1addr".to_string(),
    };
    assert_eq!(ours, serde_json::to_string(&reference).unwrap());
}

#[test]
fn token_info_query_matches_cw20_encoding() {
    let reference = cw20::Cw20QueryMsg::TokenInfo {};
    assert_eq!("{\"token_info\":{}}", serde_json::to_string(&reference).unwrap());
}

#[test]
fn string_escaping_matches_serde() {
    let tricky = "a\"b\\c\nd\te\rf\u{8}g\u{c}h/héllo";
    let ours = add_identity_json(tricky);
    let expected = format!(
        "{{\"AddIdentity\":{{\"country\":{}}}}}",
        serde_json::to_string(tricky).unwrap()
    );
    assert_eq!(ours, expected);
}

#[test]
fn control_characters_use_uppercase_hex_escapes() {
    let ours = add_identity_json("x\u{1}y\u{1f}z");
    assert_eq!(ours, "{\"AddIdentity\":{\"country\":\"x\\u0001y\\u001Fz\"}}");
}

#[test]
fn add_identity_message_shape() {
    assert_eq!(
        add_identity_json("DE"),
        "{\"AddIdentity\":{\"country\":\"DE\"}}"
    );
}

#[test]
fn update_identity_message_shape() {
    assert_eq!(
        update_identity_json("FR", "cosmos1owner"),
        "{\"UpdateCountry\":{\"new_country\":\"FR\",\"identity_owner\":\"cosmos1owner\"}}"
    );
}

#[test]
fn remove_identity_message_shape() {
    assert_eq!(
        remove_identity_json("cosmos1owner"),
        "{\"RemoveIdentity\":{\"identity_owner\":\"cosmos1owner\"}}"
    );
}

#[test]
fn claim_data_is_base64_as_the_chain_encodes_it() {
    let data = vec![1u8, 2, 3];
    let claim = Claim {
        topic: 7,
        issuer: "cosmos1issuer".to_string(),
        data: data.clone(),
        uri: "https://example.com/evidence".to_string(),
    };
    let reference_b64 = cosmwasm_std::Binary::new(data).to_base64();
    assert_eq!(reference_b64, "AQID");
    let expected = format!(
        "{{\"topic\":\"7\",\"issuer\":\"cosmos1issuer\",\"data\":\"{}\",\"uri\":\"https://example.com/evidence\"}}",
        reference_b64
    );
    assert_eq!(claim_json(&claim), expected);
}

#[test]
fn base64_padding_follows_the_chain_encoding() {
    for data in [
        vec![],
        vec![0u8],
        vec![255u8, 254],
        vec![1u8, 2, 3, 4],
        vec![1u8, 2, 3, 4, 5],
        b"foobar".to_vec(),
    ] {
        let claim = Claim {
            topic: 0,
            issuer: String::new(),
            data: data.clone(),
            uri: String::new(),
        };
        let reference_b64 = cosmwasm_std::Binary::new(data).to_base64();
        let expected = format!(
            "{{\"topic\":\"0\",\"issuer\":\"\",\"data\":\"{}\",\"uri\":\"\"}}",
            reference_b64
        );
        assert_eq!(claim_json(&claim), expected);
    }
}

#[test]
fn add_claim_message_shape() {
    let claim = Claim {
        topic: 42,
        issuer: "cosmos1issuer".to_string(),
        data: vec![],
        uri: "u".to_string(),
    };
    assert_eq!(
        add_claim_json(&claim, "cosmos1owner"),
        "{\"AddClaim\":{\"claim\":{\"topic\":\"42\",\"issuer\":\"cosmos1issuer\",\"data\":\"\",\"uri\":\"u\"},\"identity_owner\":\"cosmos1owner\"}}"
    );
}

#[test]
fn remove_claim_message_shape() {
    assert_eq!(
        remove_claim_json(9, "cosmos1owner"),
        "{\"RemoveClaim\":{\"claim_topic\":\"9\",\"identity_owner\":\"cosmos1owner\"}}"
    );
}

#[test]
fn topic_uses_the_uint128_string_form() {
    let claim = Claim {
        topic: u128::MAX,
        issuer: String::new(),
        data: vec![],
        uri: String::new(),
    };
    let expected_topic = serde_json::to_string(&Uint128::new(u128::MAX)).unwrap();
    let expected = format!(
        "{{\"topic\":{},\"issuer\":\"\",\"data\":\"\",\"uri\":\"\"}}",
        expected_topic
    );
    assert_eq!(claim_json(&claim), expected);
}

#[test]
fn get_validated_claims_message_shape() {
    assert_eq!(
        get_validated_claims_json("cosmos1owner"),
        "{\"GetValidatedClaimsForUser\":{\"identity_owner\":\"cosmos1owner\"}}"
    );
}

#[test]
fn check_compliance_message_shape() {
    assert_eq!(
        check_compliance_json("cosmos1token", "cosmos1user"),
        "{\"CheckTokenCompliance\":{\"token_address\":\"cosmos1token\",\"from\":\"cosmos1user\",\"to\":null,\"amount\":null}}"
    );
}

#[test]
fn compliance_module_message_shapes() {
    assert_eq!(
        add_compliance_module_json("cosmos1token", "cosmos1module", "kyc"),
        "{\"AddComplianceModule\":{\"token_address\":\"cosmos1token\",\"module_address\":\"cosmos1module\",\"module_name\":\"kyc\"}}"
    );
    assert_eq!(
        remove_compliance_module_json("cosmos1token", "cosmos1module"),
        "{\"RemoveComplianceModule\":{\"token_address\":\"cosmos1token\",\"module_address\":\"cosmos1module\"}}"
    );
    assert_eq!(
        update_compliance_module_json("cosmos1token", "cosmos1module", true),
        "{\"UpdateComplianceModule\":{\"token_address\":\"cosmos1token\",\"module_address\":\"cosmos1module\",\"active\":true}}"
    );
    assert_eq!(
        update_compliance_module_json("cosmos1token", "cosmos1module", false),
        "{\"UpdateComplianceModule\":{\"token_address\":\"cosmos1token\",\"module_address\":\"cosmos1module\",\"active\":false}}"
    );
}
