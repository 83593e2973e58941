use vstd::prelude::*;

use crate::crypto::sha256_of;
use crate::errors::BridgeError;
use crate::errors::FusionError;
use crate::fusion::cancel_check;
use crate::fusion::contains_id;
use crate::fusion::filled_order;
use crate::fusion::fusion_create_check;
use crate::fusion::fusion_orders_wf;
use crate::fusion::index_of;
use crate::fusion::order_of;
use crate::fusion::price_at;
use crate::fusion::refund_amount_of;
use crate::fusion::spec_fusion_fee;
use crate::fusion_types::AuctionData;
use crate::fusion_types::OrderConfigV;
use crate::htlc::bridge_inv;
use crate::htlc::complete_check;
use crate::htlc::create_check;
use crate::htlc::created_order;
use crate::htlc::net_of;
use crate::htlc::refund_check;
use crate::htlc::settle_check;
use crate::htlc::BridgeView;
use crate::htlc_types::SwapOrderV;
use vstd::arithmetic::div_mod::lemma_div_is_ordered;
use vstd::arithmetic::div_mod::lemma_div_multiples_vanish;
use vstd::arithmetic::div_mod::lemma_div_multiples_vanish_quotient;
use vstd::arithmetic::mul::lemma_mul_inequality;

verus! {

/// No order is simultaneously completed and refunded.
pub proof fn lemma_no_double_settlement(v: BridgeView, id: Seq<char>)
    requires
        bridge_inv(v),
        v.orders.contains_key(id),
    ensures
        !(v.orders[id].completed && v.orders[id].refunded),
{
}

/// A completed order's hashlock is the SHA-256 digest of some known
/// preimage.
pub proof fn lemma_completed_has_preimage(v: BridgeView, id: Seq<char>)
    requires
        bridge_inv(v),
        v.orders.contains_key(id),
        v.orders[id].completed,
    ensures
        exists|p: Seq<u8>| sha256_of(p) == v.orders[id].hashlock,
{
}

/// Every hashlock held by an order is recorded in the uniqueness list.
pub proof fn lemma_hashlock_registered(v: BridgeView, id: Seq<char>)
    requires
        bridge_inv(v),
        v.orders.contains_key(id),
    ensures
        v.used.contains(v.orders[id].hashlock),
{
}

/// A settled order rejects every further settlement: once completed or
/// refunded, both the completion path and the refund path fail with the
/// order-state error, whatever the clock says.
pub proof fn lemma_settled_is_absorbing(v: BridgeView, id: Seq<char>, now: u64)
    requires
        v.orders.contains_key(id),
        v.orders[id].completed || v.orders[id].refunded,
    ensures
        settle_check(v, id) == Err::<SwapOrderV, BridgeError>(BridgeError::InvalidOrderState),
        refund_check(v, id, now) == Err::<SwapOrderV, BridgeError>(BridgeError::InvalidOrderState),
        forall|caller: Seq<u8>, preimage: Seq<u8>|
            v.config.authorized_resolvers.contains(caller) ==> complete_check(
                v,
                id,
                caller,
                preimage,
                now,
            ) == Err::<SwapOrderV, BridgeError>(BridgeError::InvalidOrderState),
{
}

/// Creating a swap and refunding it at or past its timelock: the
/// refund is owed, it pays the net amount (the request's amount less
/// the bridge fee) to the caller that created the swap, and the order
/// it leaves behind refuses every further settlement.
pub proof fn lemma_create_then_refund(
    v0: BridgeView,
    v1: BridgeView,
    req: crate::htlc_types::CreateSwapRequest,
    caller: Seq<u8>,
    now0: u64,
    balance: u64,
    id: Seq<char>,
    now1: u64,
)
    requires
        bridge_inv(v0),
        create_check(v0, req, now0, balance) is Ok,
        v1.orders == v0.orders.insert(
            id,
            created_order(req, caller, now0, v0.config.bridge_fee_percentage),
        ),
        now1 >= req.timelock,
    ensures
        refund_check(v1, id, now1) == Ok::<SwapOrderV, BridgeError>(
            created_order(req, caller, now0, v0.config.bridge_fee_percentage),
        ),
        v1.orders[id].icp_recipient == caller,
        v1.orders[id].amount == net_of(req.amount, v0.config.bridge_fee_percentage),
        forall|v2: BridgeView, now2: u64|
            v2.orders == v1.orders.insert(
                id,
                SwapOrderV { refunded: true, transfer_block_height: Some(0), ..v1.orders[id] },
            ) ==> #[trigger] refund_check(v2, id, now2) == Err::<SwapOrderV, BridgeError>(
                BridgeError::InvalidOrderState,
            ),
{
    let bps = v0.config.bridge_fee_percentage;
    lemma_mul_inequality(bps as int, 10000, req.amount as int);
    lemma_div_is_ordered(req.amount as int * bps as int, req.amount as int * 10000, 10000);
    lemma_div_multiples_vanish(req.amount as int, 10000);
    assert(0 <= net_of(req.amount, bps) <= req.amount);
    assert forall|v2: BridgeView, now2: u64|
        v2.orders == v1.orders.insert(
            id,
            SwapOrderV { refunded: true, transfer_block_height: Some(0), ..v1.orders[id] },
        ) implies #[trigger] refund_check(v2, id, now2) == Err::<SwapOrderV, BridgeError>(
        BridgeError::InvalidOrderState,
    ) by {
        assert(v2.orders.contains_key(id));
        assert(v2.orders[id].refunded);
    }
}

/// A preimage that matches an alive order's hashlock completes it, and
/// completes it exactly once: in the state the completion leaves
/// behind, every further completion or refund fails with the
/// order-state error.
pub proof fn lemma_preimage_completes_once(
    v0: BridgeView,
    v1: BridgeView,
    id: Seq<char>,
    caller: Seq<u8>,
    preimage: Seq<u8>,
    now: u64,
    block_height: u64,
)
    requires
        v0.config.authorized_resolvers.contains(caller),
        v0.orders.contains_key(id),
        !v0.orders[id].completed,
        !v0.orders[id].refunded,
        now < v0.orders[id].timelock,
        sha256_of(preimage) == v0.orders[id].hashlock,
        v1.orders == v0.orders.insert(
            id,
            SwapOrderV {
                completed: true,
                transfer_block_height: Some(block_height),
                ..v0.orders[id]
            },
        ),
    ensures
        complete_check(v0, id, caller, preimage, now) == Ok::<SwapOrderV, BridgeError>(
            v0.orders[id],
        ),
        forall|caller2: Seq<u8>, preimage2: Seq<u8>, now2: u64|
            v1.config.authorized_resolvers.contains(caller2) ==> #[trigger] complete_check(
                v1,
                id,
                caller2,
                preimage2,
                now2,
            ) == Err::<SwapOrderV, BridgeError>(BridgeError::InvalidOrderState),
        settle_check(v1, id) == Err::<SwapOrderV, BridgeError>(BridgeError::InvalidOrderState),
{
}

/// Posting a Fusion order and cancelling it as its maker: the
/// cancellation is owed at any time, refunds the full escrowed source
/// amount, and the maker's net credit is that amount less the ledger's
/// fixed transfer fee.
pub proof fn lemma_create_then_cancel_by_maker(
    s0: Seq<OrderConfigV>,
    o: OrderConfigV,
    p: int,
    now: u64,
)
    requires
        fusion_create_check(s0, o, o.maker) is Ok,
        0 <= p <= s0.len(),
    ensures
        cancel_check(s0.insert(p, o), o.id, o.maker, now) == Ok::<OrderConfigV, FusionError>(o),
        refund_amount_of(o, true, now >= o.expiration_time) == o.src_amount,
        refund_amount_of(o, true, now >= o.expiration_time) - spec_fusion_fee() == o.src_amount
            - 10_000,
{
    let s1 = s0.insert(p, o);
    assert(s1[p] == o);
    assert(contains_id(s1, o.id));
    let w = index_of(s1, o.id);
    assert(0 <= w < s1.len() && s1[w].id == o.id);
    if w != p {
        if w < p {
            assert(s1[w] == s0[w]);
        } else {
            assert(s1[w] == s0[w - 1]);
        }
        assert(contains_id(s0, o.id));
        assert(false);
    }
    assert(order_of(s1, o.id) == o);
}

/// An authorized cancellation is owed the full escrow (the premium
/// branch never exceeds it), and its commit leaves no order under the
/// id.
pub proof fn lemma_cancel_refunds_and_removes(
    s: Seq<OrderConfigV>,
    id: u64,
    caller: Seq<u8>,
    now: u64,
)
    requires
        fusion_orders_wf(s),
        contains_id(s, id),
        caller == order_of(s, id).maker || now >= order_of(s, id).expiration_time,
    ensures
        cancel_check(s, id, caller, now) == Ok::<OrderConfigV, FusionError>(order_of(s, id)),
        refund_amount_of(
            order_of(s, id),
            caller == order_of(s, id).maker,
            now >= order_of(s, id).expiration_time,
        ) == order_of(s, id).src_amount,
        !contains_id(s.remove(index_of(s, id)), id),
{
    let w = index_of(s, id);
    assert(0 <= w < s.len() && s[w].id == id);
    let t = s.remove(w);
    assert forall|k: int| 0 <= k < t.len() implies t[k].id != id by {
        if k < w {
            assert(t[k] == s[k]);
            assert(s[k].id < s[w].id);
        } else {
            assert(t[k] == s[k + 1]);
            assert(s[w].id < s[k + 1].id);
        }
    }
}

/// Strictly before the timelock — at `timelock - 1` in particular — a
/// valid completion is owed and the refund is refused.
pub proof fn lemma_complete_before_timelock(
    v: BridgeView,
    id: Seq<char>,
    caller: Seq<u8>,
    preimage: Seq<u8>,
    now: u64,
)
    requires
        v.config.authorized_resolvers.contains(caller),
        v.orders.contains_key(id),
        !v.orders[id].completed,
        !v.orders[id].refunded,
        sha256_of(preimage) == v.orders[id].hashlock,
        now < v.orders[id].timelock,
    ensures
        complete_check(v, id, caller, preimage, now) == Ok::<SwapOrderV, BridgeError>(v.orders[id]),
        refund_check(v, id, now) == Err::<SwapOrderV, BridgeError>(BridgeError::TimelockNotExpired),
{
}

/// From the timelock on — at `now == timelock` in particular — the
/// refund is owed and completion is refused, whatever preimage a
/// resolver offers.
pub proof fn lemma_refund_from_timelock(v: BridgeView, id: Seq<char>, now: u64)
    requires
        v.orders.contains_key(id),
        !v.orders[id].completed,
        !v.orders[id].refunded,
        now >= v.orders[id].timelock,
    ensures
        refund_check(v, id, now) == Ok::<SwapOrderV, BridgeError>(v.orders[id]),
        forall|caller: Seq<u8>, preimage: Seq<u8>|
            v.config.authorized_resolvers.contains(caller) ==> complete_check(
                v,
                id,
                caller,
                preimage,
                now,
            ) == Err::<SwapOrderV, BridgeError>(BridgeError::TimelockExpired),
{
}

/// A partial fill strictly shrinks the escrowed source amount, by
/// exactly the taker's amount.
pub proof fn lemma_fill_strictly_decreases(o: OrderConfigV, taker_amount: u128, secret_provided: bool, now: u64)
    requires
        0 < taker_amount <= o.src_amount,
    ensures
        taker_amount < o.src_amount ==> filled_order(o, taker_amount, secret_provided, now).src_amount
            == o.src_amount - taker_amount && filled_order(
            o,
            taker_amount,
            secret_provided,
            now,
        ).src_amount < o.src_amount,
{
}

/// At the auction's opening instant the price is the start price.
pub proof fn lemma_price_at_start(a: AuctionData)
    requires
        a.start_time < a.end_time,
    ensures
        price_at(a, a.start_time) == a.start_price,
{
    let d = a.end_time - a.start_time;
    assert(a.start_price * d + a.end_price * 0 == a.start_price * d);
    lemma_div_multiples_vanish(a.start_price as int, d as int);
    assert((d * a.start_price) / (d as int) == a.start_price);
    assert(a.start_price * d == d * a.start_price) by (nonlinear_arith);
}

/// At the auction's closing instant the price is the end price.
pub proof fn lemma_price_at_end(a: AuctionData)
    requires
        a.start_time < a.end_time,
    ensures
        price_at(a, a.end_time) == a.end_price,
{
    let d = a.end_time - a.start_time;
    assert(a.start_price * 0 + a.end_price * d == a.end_price * d);
    lemma_div_multiples_vanish(a.end_price as int, d as int);
    assert((d * a.end_price) / (d as int) == a.end_price);
    assert(a.end_price * d == d * a.end_price) by (nonlinear_arith);
}

/// At the exact midpoint of an even-length auction window the price is
/// the midpoint of the two prices.
pub proof fn lemma_price_at_midpoint(a: AuctionData, t: u64)
    requires
        a.start_time < a.end_time,
        (a.end_time - a.start_time) % 2 == 0,
        t == (a.start_time + a.end_time) / 2,
    ensures
        price_at(a, t) == (a.start_price + a.end_price) / 2,
{
    let d = (a.end_time - a.start_time) as int;
    let k = d / 2;
    assert(t - a.start_time == k);
    assert(a.end_time - t == k);
    let sp = a.start_price as int;
    let ep = a.end_price as int;
    assert(sp * k + ep * k == k * (sp + ep)) by (nonlinear_arith);
    lemma_div_multiples_vanish_quotient(k, sp + ep, 2);
    assert((k * (sp + ep)) / (k * 2) == (sp + ep) / 2);
    assert(k * 2 == d);
}

} // verus!
