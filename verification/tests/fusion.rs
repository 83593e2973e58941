use sha2::Digest;
use swap_coordinator::AuctionData;
use swap_coordinator::FeeConfig;
use swap_coordinator::FusionError;
use swap_coordinator::FusionState;
use swap_coordinator::HashLock;
use swap_coordinator::OrderConfig;
use swap_coordinator::OrderStatus;
use swap_coordinator::Principal;
use swap_coordinator::TimeLock;

fn principal(tag: u8) -> Principal {
    Principal::from_bytes(vec![tag; 4])
}

fn sha256_array(data: &[u8]) -> [u8; 32] {
    let d = sha2::Sha256::digest(data);
    let mut out = [0u8; 32];
    out.copy_from_slice(&d);
    out
}

const T0: u64 = 1_000_000;

fn order(id: u64) -> OrderConfig {
    OrderConfig {
        id,
        src_mint: principal(10),
        dst_mint: principal(11),
        maker: principal(1),
        src_amount: 1000,
        min_dst_amount: 1,
        estimated_dst_amount: 2000,
        expiration_time: T0 + 1_000_000,
        fee: FeeConfig {
            protocol_fee_bps: 0,
            integrator_fee_bps: 0,
            surplus_bps: 0,
            max_cancel_premium: 50,
        },
        auction: AuctionData {
            start_time: T0,
            end_time: T0 + 100,
            start_price: 100,
            end_price: 50,
            current_price: 100,
        },
        cancellation_auction_secs: 0,
        hashlock: HashLock {
            secret_hash: sha256_array(b"fusion-secret"),
            revealed: false,
            reveal_time: None,
        },
        timelock: TimeLock {
            finality_lock_duration: 0,
            exclusive_withdraw_duration: 0,
            cancellation_timeout: 0,
            created_at: T0,
        },
        status: OrderStatus::Announced,
        created_at: T0,
    }
}

fn engine_with_order(id: u64) -> FusionState {
    let mut state = FusionState::new();
    let o = order(id);
    state.create_order_begin(&o, &principal(1)).unwrap();
    state.create_order_commit(o, &principal(1)).unwrap();
    state
}

#[test]
fn create_pulls_escrow_and_records_order() {
    let mut state = FusionState::new();
    let o = order(7);
    let plan = state.create_order_begin(&o, &principal(1)).unwrap();
    assert_eq!(plan.amount, 1000);
    assert_eq!(plan.src_mint.as_bytes(), &vec![10u8; 4]);
    assert_eq!(plan.maker.as_bytes(), &vec![1u8; 4]);
    state.create_order_commit(o, &principal(1)).unwrap();
    let stored = state.get_order(7).unwrap();
    assert_eq!(stored.src_amount, 1000);
    assert!(matches!(stored.status, OrderStatus::Announced));
}

#[test]
fn create_rejects_non_maker() {
    let mut state = FusionState::new();
    let o = order(7);
    let r = state.create_order_begin(&o, &principal(2));
    assert!(matches!(r, Err(FusionError::UnauthorizedCaller)));
}

#[test]
fn create_validates_parameters() {
    let mut state = FusionState::new();
    let mut o = order(1);
    o.src_amount = 0;
    assert!(matches!(
        state.create_order_begin(&o, &principal(1)),
        Err(FusionError::InvalidAmount)
    ));
    let mut o = order(2);
    o.min_dst_amount = 0;
    assert!(matches!(
        state.create_order_begin(&o, &principal(1)),
        Err(FusionError::InvalidAmount)
    ));
    let mut o = order(3);
    o.auction.end_time = o.auction.start_time;
    assert!(matches!(
        state.create_order_begin(&o, &principal(1)),
        Err(FusionError::InvalidTimeRange)
    ));
    let mut o = order(4);
    o.dst_mint = principal(10);
    assert!(matches!(
        state.create_order_begin(&o, &principal(1)),
        Err(FusionError::InvalidAmount)
    ));
}

#[test]
fn create_rejects_duplicate_id() {
    let mut state = engine_with_order(7);
    let o = order(7);
    let r = state.create_order_begin(&o, &principal(1));
    assert!(matches!(r, Err(FusionError::OrderAlreadyExists)));
}

#[test]
fn fill_prices_midpoint_and_keeps_remainder_active() {
    let mut state = engine_with_order(7);
    let plan = state.fill_order_begin(7, 400, &None, T0 + 50).unwrap();
    assert_eq!(plan.dst_amount, 300);
    assert_eq!(plan.taker_amount, 400);
    assert_eq!(plan.dst_mint.as_bytes(), &vec![11u8; 4]);
    assert_eq!(plan.maker.as_bytes(), &vec![1u8; 4]);
    state.fill_order_commit(7, 400, false, T0 + 50).unwrap();
    let remaining = state.get_order(7).unwrap();
    assert_eq!(remaining.src_amount, 600);
    assert!(matches!(remaining.status, OrderStatus::Active));
}

#[test]
fn full_fill_removes_order() {
    let mut state = engine_with_order(7);
    state.fill_order_begin(7, 400, &None, T0 + 50).unwrap();
    state.fill_order_commit(7, 400, false, T0 + 50).unwrap();
    let plan = state.fill_order_begin(7, 600, &None, T0 + 100).unwrap();
    assert_eq!(plan.dst_amount, 300);
    state.fill_order_commit(7, 600, false, T0 + 100).unwrap();
    assert!(state.get_order(7).is_none());
}

#[test]
fn fill_at_window_edges_uses_start_and_end_prices() {
    let mut state = engine_with_order(7);
    let plan = state.fill_order_begin(7, 200, &None, T0).unwrap();
    assert_eq!(plan.dst_amount, 200);
    state.release_guard();
    let plan = state.fill_order_begin(7, 200, &None, T0 + 100).unwrap();
    assert_eq!(plan.dst_amount, 100);
}

#[test]
fn fill_outside_window_uses_estimate() {
    let mut state = engine_with_order(7);
    let plan = state.fill_order_begin(7, 500, &None, T0 + 101).unwrap();
    assert_eq!(plan.dst_amount, 1000);
}

#[test]
fn fill_rejects_amount_above_escrow() {
    let mut state = engine_with_order(7);
    let r = state.fill_order_begin(7, 1001, &None, T0 + 50);
    assert!(matches!(r, Err(FusionError::InvalidAmount)));
    let r = state.fill_order_begin(7, 0, &None, T0 + 50);
    assert!(matches!(r, Err(FusionError::InvalidAmount)));
}

#[test]
fn fill_rejects_payout_below_minimum() {
    let mut state = FusionState::new();
    let mut o = order(7);
    o.min_dst_amount = 500;
    state.create_order_begin(&o, &principal(1)).unwrap();
    state.create_order_commit(o, &principal(1)).unwrap();
    let r = state.fill_order_begin(7, 400, &None, T0 + 50);
    assert!(matches!(r, Err(FusionError::InvalidAmount)));
    assert_eq!(state.get_order(7).unwrap().src_amount, 1000);
}

#[test]
fn fill_rejects_expired_order() {
    let mut state = engine_with_order(7);
    let r = state.fill_order_begin(7, 400, &None, T0 + 1_000_000);
    assert!(matches!(r, Err(FusionError::OrderExpired)));
}

#[test]
fn fill_rejects_missing_order() {
    let mut state = FusionState::new();
    let r = state.fill_order_begin(7, 400, &None, T0 + 50);
    assert!(matches!(r, Err(FusionError::OrderNotFound)));
}

#[test]
fn fill_with_secret_marks_hashlock_revealed() {
    let mut state = engine_with_order(7);
    let secret = b"fusion-secret".to_vec();
    state
        .fill_order_begin(7, 400, &Some(secret), T0 + 50)
        .unwrap();
    state.fill_order_commit(7, 400, true, T0 + 50).unwrap();
    let remaining = state.get_order(7).unwrap();
    assert!(remaining.hashlock.revealed);
    assert_eq!(remaining.hashlock.reveal_time, Some(T0 + 50));
}

#[test]
fn fill_rejects_wrong_secret() {
    let mut state = engine_with_order(7);
    let r = state.fill_order_begin(7, 400, &Some(b"wrong".to_vec()), T0 + 50);
    assert!(matches!(r, Err(FusionError::InvalidSecret)));
    assert!(!state.get_order(7).unwrap().hashlock.revealed);
}

#[test]
fn fill_respects_finality_gate() {
    let mut state = FusionState::new();
    let mut o = order(7);
    o.timelock.finality_lock_duration = 120;
    state.create_order_begin(&o, &principal(1)).unwrap();
    state.create_order_commit(o, &principal(1)).unwrap();
    let r = state.fill_order_begin(7, 400, &None, T0 + 50);
    assert!(matches!(r, Err(FusionError::TimelockViolation)));
    state.fill_order_begin(7, 400, &None, T0 + 120).unwrap();
}

#[test]
fn cancel_by_maker_refunds_full_escrow() {
    let mut state = engine_with_order(7);
    let plan = state.cancel_order_begin(7, &principal(1), T0 + 10).unwrap();
    assert_eq!(plan.amount, 1000);
    assert_eq!(plan.maker.as_bytes(), &vec![1u8; 4]);
    state.cancel_order_commit(7).unwrap();
    assert!(state.get_order(7).is_none());
}

#[test]
fn cancel_by_stranger_before_expiry_is_rejected() {
    let mut state = engine_with_order(7);
    let r = state.cancel_order_begin(7, &principal(3), T0 + 10);
    assert!(matches!(r, Err(FusionError::UnauthorizedCaller)));
    assert!(state.get_order(7).is_some());
}

#[test]
fn cancel_by_stranger_after_expiry_refunds_full_escrow() {
    let mut state = engine_with_order(7);
    let plan = state
        .cancel_order_begin(7, &principal(3), T0 + 1_000_000)
        .unwrap();
    assert_eq!(plan.amount, 1000);
    state.cancel_order_commit(7).unwrap();
    assert!(state.get_order(7).is_none());
}

#[test]
fn fusion_latch_blocks_second_mutator() {
    let mut state = engine_with_order(7);
    state.fill_order_begin(7, 400, &None, T0 + 50).unwrap();
    let r = state.cancel_order_begin(7, &principal(1), T0 + 10);
    assert!(matches!(r, Err(FusionError::ReentrancyDetected)));
    state.release_guard();
    assert!(state.cancel_order_begin(7, &principal(1), T0 + 10).is_ok());
}

#[test]
fn orders_are_listed_and_filtered_by_maker() {
    let mut state = FusionState::new();
    let o = order(1);
    state.create_order_begin(&o, &principal(1)).unwrap();
    state.create_order_commit(o, &principal(1)).unwrap();
    let mut o = order(2);
    o.maker = principal(2);
    state.create_order_begin(&o, &principal(2)).unwrap();
    state.create_order_commit(o, &principal(2)).unwrap();
    assert_eq!(state.get_all_orders().len(), 2);
    let mine = state.get_orders_by_maker(&principal(2));
    assert_eq!(mine.len(), 1);
    assert_eq!(mine[0].id, 2);
}

#[test]
fn validators_report_exact_conditions() {
    let hashlock = HashLock {
        secret_hash: sha256_array(b"s"),
        revealed: false,
        reveal_time: None,
    };
    assert!(swap_coordinator::validate_secret(&hashlock, b"s").is_ok());
    assert!(matches!(
        swap_coordinator::validate_secret(&hashlock, b"t"),
        Err(FusionError::InvalidSecret)
    ));
    let timelock = TimeLock {
        finality_lock_duration: 10,
        exclusive_withdraw_duration: 0,
        cancellation_timeout: 0,
        created_at: 100,
    };
    assert!(matches!(
        swap_coordinator::validate_timelock(&timelock, 109),
        Err(FusionError::TimelockViolation)
    ));
    assert!(swap_coordinator::validate_timelock(&timelock, 110).is_ok());
    assert!(swap_coordinator::validate_order_params(&order(1)).is_ok());
}

#[test]
fn orders_are_listed_in_ascending_id_order() {
    let mut state = FusionState::new();
    for id in [5u64, 2, 9, 1] {
        let o = order(id);
        state.create_order_begin(&o, &principal(1)).unwrap();
        state.create_order_commit(o, &principal(1)).unwrap();
    }
    let listed: Vec<u64> = state.get_all_orders().iter().map(|o| o.id).collect();
    assert_eq!(listed, vec![1, 2, 5, 9]);
    let mine: Vec<u64> = state
        .get_orders_by_maker(&principal(1))
        .iter()
        .map(|o| o.id)
        .collect();
    assert_eq!(mine, vec![1, 2, 5, 9]);
}
