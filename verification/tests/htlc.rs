use sha2::Digest;
use swap_coordinator::BridgeError;
use swap_coordinator::BridgeState;
use swap_coordinator::CreateSwapRequest;
use swap_coordinator::Principal;

fn principal(tag: u8) -> Principal {
    Principal::from_bytes(vec![tag, tag, tag])
}

fn sha256(data: &[u8]) -> Vec<u8> {
    sha2::Sha256::digest(data).to_vec()
}

fn request(amount: u64, hashlock: Vec<u8>, timelock: u64) -> CreateSwapRequest {
    CreateSwapRequest {
        ethereum_sender: String::from("0x00aabb"),
        amount,
        hashlock,
        timelock,
        cross_chain_id: None,
    }
}

const NOW: u64 = 1_700_000_000;
const AMOUNT: u64 = 2_000_000_000_000_000;
const BALANCE: u64 = 3_000_000_000_000_000;

fn engine_with_order(preimage: &[u8]) -> (BridgeState, String) {
    let mut state = BridgeState::new(principal(9));
    let req = request(AMOUNT, sha256(preimage), NOW + 7200);
    state.create_icp_swap_begin(&req, NOW).unwrap();
    let id = state.create_icp_swap(req, &principal(1), NOW, BALANCE).unwrap();
    (state, id)
}

#[test]
fn create_stores_net_amount() {
    let (state, id) = engine_with_order(b"hello");
    let order = state.get_swap_order(&id).unwrap();
    assert_eq!(order.amount, 1_998_000_000_000_000);
    assert_eq!(order.timelock, NOW + 7200);
    assert!(!order.completed);
    assert!(!order.refunded);
    assert_eq!(order.created_at, NOW);
    assert_eq!(order.icp_recipient.as_bytes(), &vec![1u8, 1, 1]);
}

#[test]
fn order_id_matches_digest_of_inputs() {
    let (_, id) = engine_with_order(b"hello");
    let sender = b"0x00aabb";
    let recipient = [1u8, 1, 1];
    let hashlock = sha256(b"hello");
    let mut material: Vec<u8> = Vec::new();
    material.extend_from_slice(&(sender.len() as u64).to_be_bytes());
    material.extend_from_slice(sender);
    material.extend_from_slice(&(recipient.len() as u64).to_be_bytes());
    material.extend_from_slice(&recipient);
    material.extend_from_slice(&AMOUNT.to_be_bytes());
    material.extend_from_slice(&(hashlock.len() as u64).to_be_bytes());
    material.extend_from_slice(&hashlock);
    material.extend_from_slice(&(NOW + 7200).to_be_bytes());
    material.extend_from_slice(&NOW.to_be_bytes());
    let expected = hex::encode(sha256(&material));
    assert_eq!(id, expected);
}

#[test]
fn create_logs_outbound_message() {
    let (state, id) = engine_with_order(b"hello");
    let msg = state.get_cross_chain_message(&id).unwrap();
    assert_eq!(msg.source_chain, "icp");
    assert_eq!(msg.target_chain, "ethereum");
    assert_eq!(msg.message_type, "create");
    assert_eq!(msg.payload, sha256(b"hello"));
    assert_eq!(msg.timestamp, NOW);
}

#[test]
fn create_rejects_amount_out_of_limits() {
    let mut state = BridgeState::new(principal(9));
    let low = request(999_999_999_999_999, sha256(b"a"), NOW + 7200);
    let r = state.create_icp_swap(low, &principal(1), NOW, BALANCE);
    assert!(matches!(r, Err(BridgeError::InvalidAmount)));
    let high = request(1_000_000_000_000_000_001, sha256(b"b"), NOW + 7200);
    let r = state.create_icp_swap(high, &principal(1), NOW, u64::MAX);
    assert!(matches!(r, Err(BridgeError::InvalidAmount)));
}

#[test]
fn create_rejects_bad_timelocks() {
    let mut state = BridgeState::new(principal(9));
    let short = request(AMOUNT, sha256(b"a"), NOW + 3600);
    assert!(matches!(
        state.create_icp_swap(short, &principal(1), NOW, BALANCE),
        Err(BridgeError::TimelockTooShort)
    ));
    let long = request(AMOUNT, sha256(b"a"), NOW + 86401);
    assert!(matches!(
        state.create_icp_swap(long, &principal(1), NOW, BALANCE),
        Err(BridgeError::TimelockTooLong)
    ));
}

#[test]
fn create_rejects_reused_hashlock() {
    let (mut state, _) = engine_with_order(b"hello");
    let again = request(AMOUNT, sha256(b"hello"), NOW + 9000);
    assert!(matches!(
        state.create_icp_swap(again, &principal(2), NOW, BALANCE),
        Err(BridgeError::HashlockAlreadyUsed)
    ));
}

#[test]
fn create_rejects_insufficient_balance() {
    let mut state = BridgeState::new(principal(9));
    let req = request(AMOUNT, sha256(b"a"), NOW + 7200);
    assert!(matches!(
        state.create_icp_swap(req, &principal(1), NOW, AMOUNT - 1),
        Err(BridgeError::InsufficientCanisterBalance)
    ));
}

#[test]
fn hashlock_is_recorded_as_used() {
    let (state, _) = engine_with_order(b"hello");
    assert!(state.is_hashlock_used(&sha256(b"hello")));
    assert!(!state.is_hashlock_used(&sha256(b"other")));
}

#[test]
fn complete_happy_path() {
    let (mut state, id) = engine_with_order(b"hello");
    let me = principal(9);
    state.set_authorized_resolver(&me, &principal(5), true).unwrap();
    let plan = state
        .complete_icp_swap_begin(&id, &principal(5), &b"hello".to_vec(), NOW + 100)
        .unwrap();
    assert_eq!(plan.amount, 1_998_000_000_000_000);
    assert_eq!(plan.recipient.as_bytes(), &vec![1u8, 1, 1]);
    let emission = state
        .complete_icp_swap_commit(&id, &b"hello".to_vec(), 42)
        .unwrap();
    assert!(emission.is_none());
    let order = state.get_swap_order(&id).unwrap();
    assert!(order.completed);
    assert!(!order.refunded);
    assert_eq!(order.transfer_block_height, Some(42));
    let (total, completed, refunded) = state.get_swap_statistics();
    assert_eq!((total, completed, refunded), (1, 1, 0));
}

#[test]
fn complete_requires_authorized_resolver() {
    let (mut state, id) = engine_with_order(b"hello");
    let r = state.complete_icp_swap_begin(&id, &principal(5), &b"hello".to_vec(), NOW + 100);
    assert!(matches!(r, Err(BridgeError::Unauthorized)));
}

#[test]
fn complete_rejects_wrong_preimage() {
    let (mut state, id) = engine_with_order(b"hello");
    let me = principal(9);
    state.set_authorized_resolver(&me, &principal(5), true).unwrap();
    let r = state.complete_icp_swap_begin(&id, &principal(5), &b"hell".to_vec(), NOW + 100);
    assert!(matches!(r, Err(BridgeError::InvalidPreimage)));
    let order = state.get_swap_order(&id).unwrap();
    assert!(!order.completed);
}

#[test]
fn complete_succeeds_just_before_timelock_and_refund_fails() {
    let (mut state, id) = engine_with_order(b"hello");
    let me = principal(9);
    state.set_authorized_resolver(&me, &principal(5), true).unwrap();
    let boundary = NOW + 7200 - 1;
    let r = state.complete_icp_swap_begin(&id, &principal(5), &b"hello".to_vec(), boundary);
    assert!(r.is_ok());
    state.release_guard();
    let r = state.refund_icp_swap_begin(&id, boundary);
    assert!(matches!(r, Err(BridgeError::TimelockNotExpired)));
}

#[test]
fn complete_fails_at_timelock_and_refund_succeeds() {
    let (mut state, id) = engine_with_order(b"hello");
    let me = principal(9);
    state.set_authorized_resolver(&me, &principal(5), true).unwrap();
    let boundary = NOW + 7200;
    let r = state.complete_icp_swap_begin(&id, &principal(5), &b"hello".to_vec(), boundary);
    assert!(matches!(r, Err(BridgeError::TimelockExpired)));
    let r = state.refund_icp_swap_begin(&id, boundary);
    assert!(r.is_ok());
}

#[test]
fn refund_marks_order_and_second_refund_fails() {
    let (mut state, id) = engine_with_order(b"hello");
    let plan = state.refund_icp_swap_begin(&id, NOW + 7201).unwrap();
    assert_eq!(plan.amount, 1_998_000_000_000_000);
    state.refund_icp_swap_commit(&id, 77).unwrap();
    let order = state.get_swap_order(&id).unwrap();
    assert!(order.refunded);
    assert!(!order.completed);
    assert_eq!(order.transfer_block_height, Some(77));
    let r = state.refund_icp_swap_begin(&id, NOW + 9000);
    assert!(matches!(r, Err(BridgeError::InvalidOrderState)));
    let (total, completed, refunded) = state.get_swap_statistics();
    assert_eq!((total, completed, refunded), (1, 0, 1));
}

#[test]
fn completed_order_rejects_refund_and_second_complete() {
    let (mut state, id) = engine_with_order(b"hello");
    let me = principal(9);
    state.set_authorized_resolver(&me, &principal(5), true).unwrap();
    state
        .complete_icp_swap_begin(&id, &principal(5), &b"hello".to_vec(), NOW + 100)
        .unwrap();
    state.complete_icp_swap_commit(&id, &b"hello".to_vec(), 42).unwrap();
    let r = state.complete_icp_swap_begin(&id, &principal(5), &b"hello".to_vec(), NOW + 200);
    assert!(matches!(r, Err(BridgeError::InvalidOrderState)));
    let r = state.refund_icp_swap_begin(&id, NOW + 9000);
    assert!(matches!(r, Err(BridgeError::InvalidOrderState)));
}

#[test]
fn missing_order_is_reported() {
    let mut state = BridgeState::new(principal(9));
    let id = String::from("feed");
    assert!(matches!(
        state.get_swap_order(&id),
        Err(BridgeError::OrderNotFound)
    ));
    assert!(matches!(
        state.refund_icp_swap_begin(&id, NOW),
        Err(BridgeError::OrderNotFound)
    ));
}

#[test]
fn reentrancy_latch_blocks_second_mutator() {
    let (mut state, id) = engine_with_order(b"hello");
    state.refund_icp_swap_begin(&id, NOW + 7201).unwrap();
    let r = state.refund_icp_swap_begin(&id, NOW + 7201);
    assert!(matches!(r, Err(BridgeError::ReentrancyDetected)));
    state.release_guard();
    assert!(state.refund_icp_swap_begin(&id, NOW + 7201).is_ok());
}

#[test]
fn admin_setters_enforce_controller_and_bounds() {
    let mut state = BridgeState::new(principal(9));
    let me = principal(9);
    let stranger = principal(4);
    assert!(matches!(
        state.set_bridge_fee_percentage(&stranger, 5),
        Err(BridgeError::Unauthorized)
    ));
    assert!(matches!(
        state.set_bridge_fee_percentage(&me, 101),
        Err(BridgeError::FeeTooHigh)
    ));
    state.set_bridge_fee_percentage(&me, 0).unwrap();
    assert_eq!(state.get_bridge_config_query().bridge_fee_percentage, 0);
    assert!(matches!(
        state.set_swap_limits(&me, 10, 10),
        Err(BridgeError::InvalidAmount)
    ));
    state.set_swap_limits(&me, 10, 20).unwrap();
    let config = state.get_bridge_config_query();
    assert_eq!(config.min_swap_amount, 10);
    assert_eq!(config.max_swap_amount, 20);
}

#[test]
fn zero_fee_keeps_full_amount() {
    let mut state = BridgeState::new(principal(9));
    let me = principal(9);
    state.set_bridge_fee_percentage(&me, 0).unwrap();
    let req = request(AMOUNT, sha256(b"zf"), NOW + 7200);
    let id = state.create_icp_swap(req, &principal(1), NOW, BALANCE).unwrap();
    assert_eq!(state.get_swap_order(&id).unwrap().amount, AMOUNT);
}

#[test]
fn resolver_additions_are_idempotent_and_removals_filter() {
    let mut state = BridgeState::new(principal(9));
    let me = principal(9);
    state.set_authorized_resolver(&me, &principal(5), true).unwrap();
    state.set_authorized_resolver(&me, &principal(5), true).unwrap();
    state.set_authorized_resolver(&me, &principal(6), true).unwrap();
    assert_eq!(state.get_bridge_config_query().authorized_resolvers.len(), 2);
    state.set_authorized_resolver(&me, &principal(5), false).unwrap();
    let config = state.get_bridge_config_query();
    assert_eq!(config.authorized_resolvers.len(), 1);
    assert_eq!(config.authorized_resolvers[0].as_bytes(), &vec![6u8, 6, 6]);
}

#[test]
fn default_ledger_id_is_the_mainnet_ledger() {
    let state = BridgeState::new(principal(9));
    let config = state.get_bridge_config_query();
    let expected = candid::Principal::from_text("ryjl3-tyaaa-aaaaa-aaaba-cai").unwrap();
    assert_eq!(config.icp_ledger_canister_id.as_bytes().as_slice(), expected.as_slice());
}

#[test]
fn verify_hashlock_matches_reference_digest() {
    let known = hex::decode("2cf24dba5fb0a30e26e83b2ac5b9e29e1b161e5c1fa7425e73043362938b9824")
        .unwrap();
    assert!(swap_coordinator::verify_hashlock(&known, b"hello"));
    assert!(!swap_coordinator::verify_hashlock(&known, b"hell"));
    assert!(!swap_coordinator::verify_hashlock(b"hello", b"hello"));
}

#[test]
fn greeting_and_status_lines() {
    assert_eq!(
        swap_coordinator::greet(String::from("Ada")),
        "Hello, Ada! ICP Bridge is running with real transfers and Chain Fusion."
    );
    let mut state = BridgeState::new(principal(9));
    assert_eq!(
        state.get_canister_status(),
        "ICP Bridge Canister - Active with Real Transfers"
    );
    let me = principal(9);
    state.set_chain_fusion_enabled(&me, true).unwrap();
    assert_eq!(
        state.get_canister_status(),
        "ICP Bridge Canister - Active with Chain Fusion and Real Transfers"
    );
}

#[test]
fn balance_cache_follows_queries_and_completions() {
    let (mut state, id) = engine_with_order(b"hello");
    assert_eq!(state.canister_balance(), BALANCE);
    let me = principal(9);
    state.set_authorized_resolver(&me, &principal(5), true).unwrap();
    state
        .complete_icp_swap_begin(&id, &principal(5), &b"hello".to_vec(), NOW + 100)
        .unwrap();
    state.complete_icp_swap_commit(&id, &b"hello".to_vec(), 42).unwrap();
    assert_eq!(state.canister_balance(), BALANCE - 1_998_000_000_000_000);
    state.set_canister_balance(7);
    assert_eq!(state.canister_balance(), 7);
}

#[test]
fn transfer_args_carry_plan_fee_and_memo() {
    let plan = swap_coordinator::TransferPlan {
        recipient: principal(1),
        amount: 555,
    };
    let args = swap_coordinator::swap_transfer_args(&plan, NOW);
    assert_eq!(args.amount, 555);
    assert_eq!(args.fee, Some(10_000));
    assert_eq!(args.memo, Some(b"Doraemon Bridge Swap".to_vec()));
    assert_eq!(args.created_at_time, Some(NOW * 1_000_000_000));
    assert_eq!(args.to.owner.as_bytes(), &vec![1u8, 1, 1]);
    assert!(args.to.subaccount.is_none());
    let refund = swap_coordinator::refund_transfer_args(&plan, NOW);
    assert_eq!(refund.memo, Some(b"Doraemon Bridge Refund".to_vec()));
    assert_eq!(refund.amount, 555);
}
