use std::collections::HashMap;

use mx_chain_simulator_interface::client::{
    about_request, generate_blocks_outcome, generate_blocks_request, initial_wallets_outcome,
    initial_wallets_request, set_address_keys_outcome, set_address_keys_request,
    set_state_outcome, set_state_request, GenerateBlocksResponse, GenerateBlocksResponseEmpty,
    HttpMethod, HttpReply, SetAddressKeysResponse, SetStateResponse, SetStateResponseEmpty,
};
use mx_chain_simulator_interface::{
    GenerateBlocksError, InitialWalletsError, InitialWalletsResponse, InitialWalletsResponseData,
    InitialWalletsResponseWallet, SetAddressKeysError, SetStateAddress, SetStateError,
};

fn ok_reply(text: &str) -> Option<HttpReply> {
    Some(HttpReply { status: 200, text: Some(text.to_string()) })
}

fn blocks_envelope(code: &str) -> Option<GenerateBlocksResponse> {
    Some(GenerateBlocksResponse {
        data: Some(GenerateBlocksResponseEmpty {}),
        error: String::new(),
        code: code.to_string(),
    })
}

fn wallet(address: &str) -> InitialWalletsResponseWallet {
    InitialWalletsResponseWallet {
        address: address.to_string(),
        private_key_hex: "00".to_string(),
    }
}

#[test]
fn endpoint_addresses() {
    let about = about_request(8085);
    assert_eq!(about.url, "http://localhost:8085/about");
    assert_eq!(about.method, HttpMethod::Get);
    let blocks = generate_blocks_request(8085, 5);
    assert_eq!(blocks.url, "http://localhost:8085/simulator/generate-blocks/5");
    assert_eq!(blocks.method, HttpMethod::Post);
    assert_eq!(blocks.body, None);
    let wallets = initial_wallets_request(1);
    assert_eq!(wallets.url, "http://localhost:1/simulator/initial-wallets");
    assert_eq!(wallets.method, HttpMethod::Get);
}

#[test]
fn set_address_keys_request_carries_the_keys() {
    let mut keys = HashMap::new();
    keys.insert("01".to_string(), "02".to_string());
    let req = set_address_keys_request(8085, "erd1abc", &keys);
    assert_eq!(req.url, "http://localhost:8085/simulator/address/erd1abc/set-state");
    assert_eq!(req.method, HttpMethod::Post);
    assert_eq!(req.body, Some(r#"{"01":"02"}"#.to_string()));
}

#[test]
fn set_state_request_carries_the_entries() {
    let entries = vec![SetStateAddress::new().with_balance("1".to_string())];
    let req = set_state_request(65535, &entries);
    assert_eq!(req.url, "http://localhost:65535/simulator/set-state");
    assert_eq!(req.body, Some(r#"[{"balance":"1"}]"#.to_string()));
}

#[test]
fn generate_blocks_reply_classification() {
    let url = "u".to_string();
    assert_eq!(
        generate_blocks_outcome(url.clone(), ok_reply("x"), blocks_envelope("successful")),
        Ok(())
    );
    assert_eq!(
        generate_blocks_outcome(url.clone(), None, None),
        Err(GenerateBlocksError::CannotSendRequest { url: url.clone() })
    );
    assert_eq!(
        generate_blocks_outcome(
            url.clone(),
            Some(HttpReply { status: 500, text: Some("x".to_string()) }),
            blocks_envelope("successful")
        ),
        Err(GenerateBlocksError::ResponseStatusIsNotSuccessful { url: url.clone(), status: 500 })
    );
    assert_eq!(
        generate_blocks_outcome(url.clone(), Some(HttpReply { status: 299, text: None }), None),
        Err(GenerateBlocksError::CannotGetTextFromTheResponse { url: url.clone() })
    );
    assert_eq!(
        generate_blocks_outcome(url.clone(), ok_reply("not json"), None),
        Err(GenerateBlocksError::FailedToParseTheResponse {
            url: url.clone(),
            response: "not json".to_string()
        })
    );
    assert_eq!(
        generate_blocks_outcome(url.clone(), ok_reply("x"), blocks_envelope("failed")),
        Err(GenerateBlocksError::ResponseCodeIsNotSuccessful {
            url: url.clone(),
            code: "failed".to_string()
        })
    );
    assert_eq!(
        generate_blocks_outcome(
            url.clone(),
            Some(HttpReply { status: 199, text: Some("x".to_string()) }),
            blocks_envelope("successful")
        ),
        Err(GenerateBlocksError::ResponseStatusIsNotSuccessful { url, status: 199 })
    );
}

#[test]
fn successful_envelope_is_accepted_for_writes() {
    let text = r#"{"data":{},"error":"","code":"successful"}"#;
    let state = SetStateResponse {
        data: Some(SetStateResponseEmpty {}),
        error: String::new(),
        code: "successful".to_string(),
    };
    assert_eq!(set_state_outcome("u".to_string(), ok_reply(text), Some(state)), Ok(()));
    let keys = SetAddressKeysResponse { data: None, error: String::new(), code: "successful".to_string() };
    assert_eq!(set_address_keys_outcome("u".to_string(), ok_reply(text), Some(keys)), Ok(()));
}

#[test]
fn failed_code_from_set_address_keys() {
    let url = "http://localhost:8085/simulator/address/x/set-state".to_string();
    let text = r#"{"data":null,"error":"bad address","code":"failed"}"#;
    let envelope = SetAddressKeysResponse {
        data: None,
        error: "bad address".to_string(),
        code: "failed".to_string(),
    };
    assert_eq!(
        set_address_keys_outcome(url.clone(), ok_reply(text), Some(envelope)),
        Err(SetAddressKeysError::ResponseCodeIsNotSuccessful { url, code: "failed".to_string() })
    );
}

#[test]
fn set_state_unparsable_reply_keeps_the_body() {
    assert_eq!(
        set_state_outcome("u".to_string(), ok_reply("<html>"), None),
        Err(SetStateError::FailedToParseTheResponse {
            url: "u".to_string(),
            response: "<html>".to_string()
        })
    );
}

#[test]
fn initial_wallets_reply_classification() {
    let mut shards = HashMap::new();
    shards.insert("0".to_string(), wallet("erd1shard0"));
    shards.insert("1".to_string(), wallet("erd1shard1"));
    let data = InitialWalletsResponseData {
        initial_wallet_with_stake: wallet("erd1stake"),
        shard_wallets: shards,
    };
    let envelope = InitialWalletsResponse {
        data: Some(data.clone()),
        error: String::new(),
        code: "successful".to_string(),
    };
    let wallets = initial_wallets_outcome("u".to_string(), ok_reply("x"), Some(envelope)).unwrap();
    assert_eq!(wallets, data);
    assert_eq!(wallets.shard_wallets.len(), 2);

    let empty = InitialWalletsResponse { data: None, error: String::new(), code: "successful".to_string() };
    assert_eq!(
        initial_wallets_outcome("u".to_string(), ok_reply("x"), Some(empty)),
        Err(InitialWalletsError::ResponseDataIsMissing { url: "u".to_string() })
    );
    let failed = InitialWalletsResponse { data: None, error: "e".to_string(), code: "internal".to_string() };
    assert_eq!(
        initial_wallets_outcome("u".to_string(), ok_reply("x"), Some(failed)),
        Err(InitialWalletsError::ResponseCodeIsNotSuccessful {
            url: "u".to_string(),
            code: "internal".to_string()
        })
    );
}
