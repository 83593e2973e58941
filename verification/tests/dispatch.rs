use sha2::Digest;
use swap_coordinator::BridgeError;
use swap_coordinator::BridgeState;
use swap_coordinator::CrossChainMessage;
use swap_coordinator::Principal;

fn principal(tag: u8) -> Principal {
    Principal::from_bytes(vec![tag, tag])
}

fn message(ts: u64) -> CrossChainMessage {
    CrossChainMessage {
        source_chain: String::from("ethereum"),
        target_chain: String::from("icp"),
        order_id: String::from("abc123"),
        message_type: String::from("create"),
        payload: vec![1, 2, 3],
        signature: None,
        timestamp: ts,
    }
}

#[test]
fn fresh_message_is_valid() {
    assert!(swap_coordinator::message_valid_at(&message(1000), 1000));
    assert!(swap_coordinator::message_valid_at(&message(1000), 4600));
}

#[test]
fn stale_or_future_messages_are_invalid() {
    assert!(!swap_coordinator::message_valid_at(&message(1000), 4601));
    assert!(!swap_coordinator::message_valid_at(&message(1000), 999));
}

#[test]
fn unknown_types_and_chains_are_invalid() {
    let mut m = message(1000);
    m.message_type = String::from("settle");
    assert!(!swap_coordinator::message_valid_at(&m, 1000));
    let mut m = message(1000);
    m.source_chain = String::from("solana");
    assert!(!swap_coordinator::message_valid_at(&m, 1000));
    let mut m = message(1000);
    m.target_chain = String::from("solana");
    assert!(!swap_coordinator::message_valid_at(&m, 1000));
    for t in ["create", "complete", "refund"] {
        let mut m = message(1000);
        m.message_type = String::from(t);
        assert!(swap_coordinator::message_valid_at(&m, 1000));
    }
}

#[test]
fn processing_logs_valid_messages() {
    let mut state = BridgeState::new(principal(9));
    state.process_cross_chain_message(message(1000), 1200).unwrap();
    let logged = state
        .get_cross_chain_message(&String::from("abc123"))
        .unwrap();
    assert_eq!(logged.message_type, "create");
    assert_eq!(logged.payload, vec![1, 2, 3]);
    assert_eq!(logged.timestamp, 1000);
}

#[test]
fn processing_rejects_invalid_messages() {
    let mut state = BridgeState::new(principal(9));
    let r = state.process_cross_chain_message(message(1000), 99999);
    assert!(matches!(r, Err(BridgeError::InvalidMessage)));
    assert!(matches!(
        state.get_cross_chain_message(&String::from("abc123")),
        Err(BridgeError::OrderNotFound)
    ));
}

#[test]
fn hex_rendering_of_values() {
    assert_eq!(swap_coordinator::u64_hex_string(0), "0");
    assert_eq!(swap_coordinator::u64_hex_string(255), "ff");
    assert_eq!(swap_coordinator::u64_hex_string(100_000), "186a0");
    assert_eq!(swap_coordinator::u64_hex_string(u64::MAX), "ffffffffffffffff");
}

#[test]
fn transaction_json_has_the_documented_shape() {
    let json = swap_coordinator::build_evm_transaction_json(
        &String::from("0xdeadbeef"),
        255,
        &vec![1u8, 2u8],
    );
    assert_eq!(
        json,
        "{\"data\":\"0x0102\",\"gas\":\"0x186A0\",\"gasPrice\":\"0x3B9ACA00\",\
         \"nonce\":\"0x0\",\"to\":\"0xdeadbeef\",\"value\":\"0xff\"}"
    );
    let parsed: serde_json::Value = serde_json::from_str(&json).unwrap();
    assert_eq!(parsed["data"], "0x0102");
    assert_eq!(parsed["to"], "0xdeadbeef");
    assert_eq!(parsed["value"], "0xff");
    assert_eq!(parsed["gas"], "0x186A0");
}

#[test]
fn submission_requires_an_enabled_and_configured_bridge() {
    let mut state = BridgeState::new(principal(9));
    let r = state.submit_ethereum_transaction(&vec![1u8]);
    assert!(matches!(r, Err(BridgeError::BridgeDisabled)));
    let me = principal(9);
    state.set_chain_fusion_enabled(&me, true).unwrap();
    let r = state.submit_ethereum_transaction(&vec![1u8]);
    assert!(matches!(r, Err(BridgeError::BridgeNotConfigured)));
    state
        .set_ethereum_contract_address(&me, String::from("0xdeadbeef"))
        .unwrap();
    let r = state.submit_ethereum_transaction(&vec![1u8]);
    assert!(matches!(r, Err(BridgeError::BridgeNotConfigured)));
}

#[test]
fn completion_emission_carries_the_preimage() {
    let mut state = BridgeState::new(principal(9));
    let me = principal(9);
    state.set_chain_fusion_enabled(&me, true).unwrap();
    state
        .set_ethereum_contract_address(&me, String::from("0xcontract"))
        .unwrap();
    let now: u64 = 1_700_000_000;
    let req = swap_coordinator::CreateSwapRequest {
        ethereum_sender: String::from("0xsender"),
        amount: 2_000_000_000_000_000,
        hashlock: sha2::Sha256::digest(b"hello").to_vec(),
        timelock: now + 7200,
        cross_chain_id: Some(String::from("xc-1")),
    };
    let id = state
        .create_icp_swap(req, &principal(1), now, 3_000_000_000_000_000)
        .unwrap();
    state.set_authorized_resolver(&me, &principal(5), true).unwrap();
    state
        .complete_icp_swap_begin(&id, &principal(5), &b"hello".to_vec(), now + 100)
        .unwrap();
    let emission = state
        .complete_icp_swap_commit(&id, &b"hello".to_vec(), 42)
        .unwrap()
        .unwrap();
    assert_eq!(emission.transaction_data, b"hello".to_vec());
    assert_eq!(emission.to_address, "0xcontract");
    assert_eq!(emission.value, 0);
}

#[test]
fn clock_based_verification_follows_the_wall_clock() {
    let ts = swap_coordinator::current_timestamp();
    let m = message(ts);
    assert!(swap_coordinator::verify_cross_chain_message(&m));
    let stale = message(0);
    assert!(!swap_coordinator::verify_cross_chain_message(&stale));
}
