use vstd::prelude::*;

use crate::principal::Principal;

verus! {

/// The hashlock of a Fusion order: the SHA-256 digest its secret must
/// match, and whether that secret has been revealed.
#[derive(Clone, Copy)]
pub struct HashLock {
    pub secret_hash: [u8; 32],
    pub revealed: bool,
    pub reveal_time: Option<u64>,
}

/// The timelock schedule of a Fusion order.
#[derive(Clone, Copy)]
pub struct TimeLock {
    pub finality_lock_duration: u64,
    pub exclusive_withdraw_duration: u64,
    pub cancellation_timeout: u64,
    pub created_at: u64,
}

/// Fee parameters of a Fusion order.
#[derive(Clone, Copy)]
pub struct FeeConfig {
    pub protocol_fee_bps: u16,
    pub integrator_fee_bps: u16,
    pub surplus_bps: u8,
    pub max_cancel_premium: u128,
}

/// The Dutch-auction price curve of a Fusion order.
#[derive(Clone, Copy)]
pub struct AuctionData {
    pub start_time: u64,
    pub end_time: u64,
    pub start_price: u128,
    pub end_price: u128,
    pub current_price: u128,
}

/// The lifecycle stage of a Fusion order.
pub enum OrderStatus {
    Announced,
    Active,
    Completed,
    Cancelled,
    Failed(String),
}

/// The abstract value of an `OrderStatus`.
pub ghost enum OrderStatusV {
    Announced,
    Active,
    Completed,
    Cancelled,
    Failed(Seq<char>),
}

impl View for OrderStatus {
    type V = OrderStatusV;

    open spec fn view(&self) -> OrderStatusV {
        match self {
            OrderStatus::Announced => OrderStatusV::Announced,
            OrderStatus::Active => OrderStatusV::Active,
            OrderStatus::Completed => OrderStatusV::Completed,
            OrderStatus::Cancelled => OrderStatusV::Cancelled,
            OrderStatus::Failed(s) => OrderStatusV::Failed(s@),
        }
    }
}

impl Clone for OrderStatus {
    fn clone(&self) -> (r: Self)
        ensures
            r@ == self@,
    {
        match self {
            OrderStatus::Announced => OrderStatus::Announced,
            OrderStatus::Active => OrderStatus::Active,
            OrderStatus::Completed => OrderStatus::Completed,
            OrderStatus::Cancelled => OrderStatus::Cancelled,
            OrderStatus::Failed(s) => OrderStatus::Failed(s.clone()),
        }
    }
}

/// A Fusion limit order.
pub struct OrderConfig {
    pub id: u64,
    pub src_mint: Principal,
    pub dst_mint: Principal,
    pub maker: Principal,
    pub src_amount: u128,
    pub min_dst_amount: u128,
    pub estimated_dst_amount: u128,
    pub expiration_time: u64,
    pub fee: FeeConfig,
    pub auction: AuctionData,
    pub cancellation_auction_secs: u32,
    pub hashlock: HashLock,
    pub timelock: TimeLock,
    pub status: OrderStatus,
    pub created_at: u64,
}

/// The abstract value of an `OrderConfig`.
pub ghost struct OrderConfigV {
    pub id: u64,
    pub src_mint: Seq<u8>,
    pub dst_mint: Seq<u8>,
    pub maker: Seq<u8>,
    pub src_amount: u128,
    pub min_dst_amount: u128,
    pub estimated_dst_amount: u128,
    pub expiration_time: u64,
    pub fee: FeeConfig,
    pub auction: AuctionData,
    pub cancellation_auction_secs: u32,
    pub secret_hash: Seq<u8>,
    pub revealed: bool,
    pub reveal_time: Option<u64>,
    pub timelock: TimeLock,
    pub status: OrderStatusV,
    pub created_at: u64,
}

impl View for OrderConfig {
    type V = OrderConfigV;

    open spec fn view(&self) -> OrderConfigV {
        OrderConfigV {
            id: self.id,
            src_mint: self.src_mint@,
            dst_mint: self.dst_mint@,
            maker: self.maker@,
            src_amount: self.src_amount,
            min_dst_amount: self.min_dst_amount,
            estimated_dst_amount: self.estimated_dst_amount,
            expiration_time: self.expiration_time,
            fee: self.fee,
            auction: self.auction,
            cancellation_auction_secs: self.cancellation_auction_secs,
            secret_hash: self.hashlock.secret_hash@,
            revealed: self.hashlock.revealed,
            reveal_time: self.hashlock.reveal_time,
            timelock: self.timelock,
            status: self.status@,
            created_at: self.created_at,
        }
    }
}

impl Clone for OrderConfig {
    fn clone(&self) -> (r: Self)
        ensures
            r@ == self@,
    {
        OrderConfig {
            id: self.id,
            src_mint: self.src_mint.clone(),
            dst_mint: self.dst_mint.clone(),
            maker: self.maker.clone(),
            src_amount: self.src_amount,
            min_dst_amount: self.min_dst_amount,
            estimated_dst_amount: self.estimated_dst_amount,
            expiration_time: self.expiration_time,
            fee: self.fee,
            auction: self.auction,
            cancellation_auction_secs: self.cancellation_auction_secs,
            hashlock: self.hashlock,
            timelock: self.timelock,
            status: self.status.clone(),
            created_at: self.created_at,
        }
    }
}

} // verus!
