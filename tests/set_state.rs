use std::collections::HashMap;

use mx_chain_simulator_interface::requests::{set_address_keys_body, set_state_body};
use mx_chain_simulator_interface::SetStateAddress;

#[test]
fn test_with_address() {
    let result = SetStateAddress::new()
        .with_address("test".to_string());

    let expected = SetStateAddress {
        address: Some("test".to_string()),
        balance: None,
        code: None,
        root_hash: None,
        code_metadata: None,
        code_hash: None,
        developer_reward: None,
        owner_address: None,
        keys: None,
    };

    assert_eq!(result, expected);
}

#[test]
fn test_with_balance() {
    let result = SetStateAddress::new()
        .with_balance("100".to_string());

    let expected = SetStateAddress {
        address: None,
        balance: Some("100".to_string()),
        code: None,
        root_hash: None,
        code_metadata: None,
        code_hash: None,
        developer_reward: None,
        owner_address: None,
        keys: None,
    };

    assert_eq!(result, expected);
}

#[test]
fn test_with_code() {
    let result = SetStateAddress::new()
        .with_code("test".to_string());

    let expected = SetStateAddress {
        address: None,
        balance: None,
        code: Some("test".to_string()),
        root_hash: None,
        code_metadata: None,
        code_hash: None,
        developer_reward: None,
        owner_address: None,
        keys: None,
    };

    assert_eq!(result, expected);
}

#[test]
fn test_with_root_hash() {
    let result = SetStateAddress::new()
        .with_root_hash("test".to_string());

    let expected = SetStateAddress {
        address: None,
        balance: None,
        code: None,
        root_hash: Some("test".to_string()),
        code_metadata: None,
        code_hash: None,
        developer_reward: None,
        owner_address: None,
        keys: None,
    };

    assert_eq!(result, expected);
}

#[test]
fn test_with_code_metadata() {
    let result = SetStateAddress::new()
        .with_code_metadata("test".to_string());

    let expected = SetStateAddress {
        address: None,
        balance: None,
        code: None,
        root_hash: None,
        code_metadata: Some("test".to_string()),
        code_hash: None,
        developer_reward: None,
        owner_address: None,
        keys: None,
    };

    assert_eq!(result, expected);
}

#[test]
fn test_with_code_hash() {
    let result = SetStateAddress::new()
        .with_code_hash("test".to_string());

    let expected = SetStateAddress {
        address: None,
        balance: None,
        code: None,
        root_hash: None,
        code_metadata: None,
        code_hash: Some("test".to_string()),
        developer_reward: None,
        owner_address: None,
        keys: None,
    };

    assert_eq!(result, expected);
}

#[test]
fn test_with_developer_reward() {
    let result = SetStateAddress::new()
        .with_developer_reward("100".to_string());

    let expected = SetStateAddress {
        address: None,
        balance: None,
        code: None,
        root_hash: None,
        code_metadata: None,
        code_hash: None,
        developer_reward: Some("100".to_string()),
        owner_address: None,
        keys: None,
    };

    assert_eq!(result, expected);
}

#[test]
fn test_with_owner_address() {
    let result = SetStateAddress::new()
        .with_owner_address("test".to_string());

    let expected = SetStateAddress {
        address: None,
        balance: None,
        code: None,
        root_hash: None,
        code_metadata: None,
        code_hash: None,
        developer_reward: None,
        owner_address: Some("test".to_string()),
        keys: None,
    };

    assert_eq!(result, expected);
}

#[test]
fn with_keys_sets_only_the_keys() {
    let mut keys = HashMap::new();
    keys.insert("k".to_string(), "v".to_string());
    let result = SetStateAddress::new().with_keys(keys.clone());
    assert_eq!(result.keys, Some(keys));
    assert_eq!(result.address, None);
    assert_eq!(result.balance, None);
}

#[test]
fn empty_entry_encodes_as_empty_object() {
    assert_eq!(SetStateAddress::new().to_json(), "{}");
}

#[test]
fn sparse_entry_sends_only_balance_and_keys() {
    let mut keys = HashMap::new();
    keys.insert("6b6579".to_string(), "76616c7565".to_string());
    let entry = SetStateAddress::new()
        .with_balance("100".to_string())
        .with_keys(keys);
    assert_eq!(
        entry.to_json(),
        r#"{"balance":"100","keys":{"6b6579":"76616c7565"}}"#
    );
}

#[test]
fn full_entry_keeps_declaration_order_and_camel_case() {
    let entry = SetStateAddress::new()
        .with_owner_address("o".to_string())
        .with_address("a".to_string())
        .with_developer_reward("d".to_string())
        .with_code_hash("ch".to_string())
        .with_code_metadata("cm".to_string())
        .with_root_hash("r".to_string())
        .with_code("c".to_string())
        .with_balance("b".to_string());
    assert_eq!(
        entry.to_json(),
        r#"{"address":"a","balance":"b","code":"c","rootHash":"r","codeMetadata":"cm","codeHash":"ch","developerReward":"d","ownerAddress":"o"}"#
    );
}

#[test]
fn string_values_are_escaped() {
    let entry = SetStateAddress::new().with_code("say \"hi\"\n".to_string());
    assert_eq!(entry.to_json(), r#"{"code":"say \"hi\"\n"}"#);
}

#[test]
fn state_body_is_an_array_of_entries() {
    let entries = vec![
        SetStateAddress::new().with_address("erd1".to_string()),
        SetStateAddress::new().with_balance("5".to_string()),
    ];
    assert_eq!(
        set_state_body(&entries),
        r#"[{"address":"erd1"},{"balance":"5"}]"#
    );
    assert_eq!(set_state_body(&Vec::new()), "[]");
}

#[test]
fn address_keys_body_is_an_object() {
    let mut keys = HashMap::new();
    keys.insert("aa".to_string(), "bb".to_string());
    assert_eq!(set_address_keys_body(&keys), r#"{"aa":"bb"}"#);
    assert_eq!(set_address_keys_body(&HashMap::new()), "{}");
}

#[test]
fn control_characters_are_escaped() {
    let entry = SetStateAddress::new().with_code("a\tb\u{1}\\\u{8}\u{c}\r\u{1f}".to_string());
    assert_eq!(entry.to_json(), r#"{"code":"a\tb\u0001\\\b\f\r\u001f"}"#);
}
