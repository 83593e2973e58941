//! Core of a cross-chain atomic swap coordinator.
//!
//! Two sibling engines share common infrastructure: a hashed-timelock
//! (HTLC) escrow for paired bridge swaps, and a limit-order book with a
//! Dutch-auction price curve for on-host token swaps.  Both are pure
//! state machines here: the host runtime (caller identity, clock) and
//! the token ledgers are external collaborators, and every inter-program
//! call is a suspension point that the surrounding program drives.

use vstd::prelude::*;

mod crypto;
mod dispatch;
mod errors;
mod htlc;
mod fusion;
mod fusion_types;
mod htlc_types;
mod laws;
mod principal;
mod store;

pub use crypto::verify_hashlock;
pub use dispatch::{current_timestamp, message_valid, message_valid_at, verify_cross_chain_message,
    EvmTransactionRequest, hex_u64, u64_hex_string, evm_tx_json, build_evm_transaction_json};
pub use errors::BridgeError;
pub use laws::{lemma_no_double_settlement, lemma_completed_has_preimage, lemma_hashlock_registered,
    lemma_settled_is_absorbing, lemma_create_then_refund, lemma_preimage_completes_once,
    lemma_create_then_cancel_by_maker, lemma_cancel_refunds_and_removes,
    lemma_complete_before_timelock, lemma_refund_from_timelock, lemma_fill_strictly_decreases, lemma_price_at_start, lemma_price_at_end,
    lemma_price_at_midpoint};
pub use errors::FusionError;
pub use principal::Principal;
pub use fusion::{FusionState, FusionView, contains_id, index_of, order_of, order_ok,
    insert_position, lemma_insert_position, lemma_escrow_insert,
    fusion_orders_wf, escrow_contrib, escrow_total, lemma_escrow_update, lemma_escrow_remove,
    lemma_escrow_push, fusion_create_check, in_auction_window, price_at, dst_amount_at,
    fill_math_ok, fill_check, filled_order, refund_amount_of, cancel_check, view_opt_secret,
    validate_order_params, validate_secret, validate_timelock, EscrowPullPlan, FillPlan,
    RefundPlan, fusion_ledger_fee, spec_fusion_fee};
pub use fusion_types::{HashLock, TimeLock, FeeConfig, AuctionData, OrderStatus, OrderStatusV,
    OrderConfig, OrderConfigV};
pub use htlc::{BridgeState, BridgeView, bridge_inv, fee_of, net_of, order_id_of, order_id_material,
    u64_be, count_completed, count_refunded, greet, generate_order_id, TransferPlan, EvmEmission,
    nanos_of, spec_ledger_fee, swap_transfer_args, refund_transfer_args, create_precheck,
    create_check, created_order, created_msg, complete_check, settle_check, complete_commit_check,
    refund_check};
pub use htlc_types::{Account, TransferArgs, TransferResult, Transfer, SwapOrder, SwapOrderV,
    CreateSwapRequest, CompleteSwapRequest, RefundSwapRequest, CrossChainMessage,
    CrossChainMessageV, BridgeConfig, BridgeConfigV, ChainFusionConfig, ChainFusionConfigV};
