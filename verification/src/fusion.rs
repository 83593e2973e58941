use vstd::prelude::*;

use crate::crypto::bytes_equal;
use crate::crypto::compute_hashlock;
use crate::crypto::sha256_of;
use crate::errors::FusionError;
use crate::fusion_types::AuctionData;
use crate::fusion_types::HashLock;
use crate::fusion_types::OrderConfig;
use crate::fusion_types::OrderConfigV;
use crate::fusion_types::OrderStatus;
use crate::fusion_types::OrderStatusV;
use crate::fusion_types::TimeLock;
use crate::principal::Principal;

verus! {

/// The fixed per-transfer fee of the token ledgers, in smallest units.
pub open spec fn spec_fusion_fee() -> u128 {
    10_000
}

/// The fixed per-transfer ledger fee the engine plans with.
pub fn fusion_ledger_fee() -> (r: u128)
    ensures
        r == spec_fusion_fee(),
{
    10_000
}

/// The abstract state of the Fusion order engine.
pub ghost struct FusionView {
    /// The order book in storage order.
    pub orders: Seq<OrderConfigV>,
    /// The reentrancy latch.
    pub busy: bool,
}

/// Whether the book holds an order with this id.
pub open spec fn contains_id(s: Seq<OrderConfigV>, id: u64) -> bool {
    exists|i: int| 0 <= i < s.len() && s[i].id == id
}

/// The position of the order with this id.
pub open spec fn index_of(s: Seq<OrderConfigV>, id: u64) -> int {
    choose|i: int| 0 <= i < s.len() && s[i].id == id
}

/// The order with this id.
pub open spec fn order_of(s: Seq<OrderConfigV>, id: u64) -> OrderConfigV {
    s[index_of(s, id)]
}

/// What creation establishes of every order and what every later
/// mutation preserves: a positive escrow, a positive minimum payout,
/// a well-ordered auction window, and distinct token ledgers.
pub open spec fn order_ok(o: OrderConfigV) -> bool {
    &&& o.src_amount > 0
    &&& o.min_dst_amount > 0
    &&& o.auction.start_time < o.auction.end_time
    &&& o.src_mint != o.dst_mint
}

/// The book invariant: orders stand in strictly ascending id order (so
/// ids are unique and queries list the book as an ordered map would),
/// and every order is well formed.
pub open spec fn fusion_orders_wf(s: Seq<OrderConfigV>) -> bool {
    &&& forall|i: int, j: int| 0 <= i < j < s.len() ==> s[i].id < s[j].id
    &&& forall|i: int| 0 <= i < s.len() ==> order_ok(#[trigger] s[i])
}

/// Where an order with this id belongs in the ascending book: past
/// every smaller id.
pub open spec fn insert_position(s: Seq<OrderConfigV>, id: u64) -> int
    decreases s.len(),
{
    if s.len() == 0 {
        0
    } else if s.last().id < id {
        s.len() as int
    } else {
        insert_position(s.drop_last(), id)
    }
}

/// The insertion position splits an ascending book without the id into
/// the smaller ids before it and the larger ids after it.
pub proof fn lemma_insert_position(s: Seq<OrderConfigV>, id: u64)
    requires
        forall|i: int, j: int| 0 <= i < j < s.len() ==> s[i].id < s[j].id,
        !contains_id(s, id),
    ensures
        0 <= insert_position(s, id) <= s.len(),
        forall|j: int| 0 <= j < insert_position(s, id) ==> s[j].id < id,
        forall|j: int| insert_position(s, id) <= j < s.len() ==> s[j].id > id,
    decreases s.len(),
{
    if s.len() > 0 {
        let t = s.drop_last();
        assert(s[s.len() - 1].id != id);
        if s.last().id < id {
            assert forall|j: int| 0 <= j < insert_position(s, id) implies s[j].id < id by {
                if j < s.len() - 1 {
                    assert(s[j].id < s[s.len() - 1].id);
                }
            }
        } else {
            assert(!contains_id(t, id)) by {
                if contains_id(t, id) {
                    let w = choose|w: int| 0 <= w < t.len() && t[w].id == id;
                    assert(s[w].id == id);
                }
            }
            lemma_insert_position(t, id);
            let p = insert_position(s, id);
            assert(p == insert_position(t, id));
            assert forall|j: int| 0 <= j < p implies s[j].id < id by {
                assert(s[j] == t[j]);
            }
            assert forall|j: int| p <= j < s.len() implies s[j].id > id by {
                if j < s.len() - 1 {
                    assert(s[j] == t[j]);
                } else {
                    assert(s[j].id != id);
                }
            }
        }
    }
}

/// This order's contribution to the escrow of one token ledger.
pub open spec fn escrow_contrib(o: OrderConfigV, mint: Seq<u8>) -> int {
    if o.src_mint == mint {
        o.src_amount as int
    } else {
        0
    }
}

/// The sum of escrowed source amounts, per token ledger.
pub open spec fn escrow_total(s: Seq<OrderConfigV>, mint: Seq<u8>) -> int
    decreases s.len(),
{
    if s.len() == 0 {
        0
    } else {
        escrow_total(s.drop_last(), mint) + escrow_contrib(s.last(), mint)
    }
}

/// Replacing one order changes the escrow by the difference of the two
/// orders' contributions.
pub proof fn lemma_escrow_update(s: Seq<OrderConfigV>, i: int, o: OrderConfigV, mint: Seq<u8>)
    requires
        0 <= i < s.len(),
    ensures
        escrow_total(s.update(i, o), mint) == escrow_total(s, mint) - escrow_contrib(s[i], mint)
            + escrow_contrib(o, mint),
    decreases s.len(),
{
    let t = s.update(i, o);
    if i == s.len() - 1 {
        assert(t.drop_last() =~= s.drop_last());
    } else {
        assert(t.drop_last() =~= s.drop_last().update(i, o));
        lemma_escrow_update(s.drop_last(), i, o, mint);
        assert(t.last() == s.last());
    }
}

/// Removing one order lowers the escrow by its contribution.
pub proof fn lemma_escrow_remove(s: Seq<OrderConfigV>, i: int, mint: Seq<u8>)
    requires
        0 <= i < s.len(),
    ensures
        escrow_total(s.remove(i), mint) == escrow_total(s, mint) - escrow_contrib(s[i], mint),
    decreases s.len(),
{
    let t = s.remove(i);
    if i == s.len() - 1 {
        assert(t =~= s.drop_last());
    } else {
        assert(t.drop_last() =~= s.drop_last().remove(i));
        lemma_escrow_remove(s.drop_last(), i, mint);
        assert(t.last() == s.last());
    }
}

/// Adding an order raises the escrow by its contribution.
pub proof fn lemma_escrow_push(s: Seq<OrderConfigV>, o: OrderConfigV, mint: Seq<u8>)
    ensures
        escrow_total(s.push(o), mint) == escrow_total(s, mint) + escrow_contrib(o, mint),
{
    assert(s.push(o).drop_last() =~= s);
}

/// Adding an order at any position raises the escrow by its
/// contribution.
pub proof fn lemma_escrow_insert(s: Seq<OrderConfigV>, i: int, o: OrderConfigV, mint: Seq<u8>)
    requires
        0 <= i <= s.len(),
    ensures
        escrow_total(s.insert(i, o), mint) == escrow_total(s, mint) + escrow_contrib(o, mint),
    decreases s.len(),
{
    let t = s.insert(i, o);
    if i == s.len() {
        assert(t =~= s.push(o));
        lemma_escrow_push(s, o, mint);
    } else {
        assert(t.drop_last() =~= s.drop_last().insert(i, o));
        lemma_escrow_insert(s.drop_last(), i, o, mint);
        assert(t.last() == s.last());
    }
}

/// The checks of `create_order`, in order: the caller must be the
/// maker, the parameters must validate, and the id must be fresh.
pub open spec fn fusion_create_check(
    s: Seq<OrderConfigV>,
    order: OrderConfigV,
    caller: Seq<u8>,
) -> Result<(), FusionError> {
    if caller != order.maker {
        Err(FusionError::UnauthorizedCaller)
    } else if order.src_amount == 0 || order.min_dst_amount == 0 {
        Err(FusionError::InvalidAmount)
    } else if order.auction.start_time >= order.auction.end_time {
        Err(FusionError::InvalidTimeRange)
    } else if order.src_mint == order.dst_mint {
        Err(FusionError::InvalidAmount)
    } else if contains_id(s, order.id) {
        Err(FusionError::OrderAlreadyExists)
    } else {
        Ok(())
    }
}

/// Whether the clock falls inside the auction window.
pub open spec fn in_auction_window(a: AuctionData, now: u64) -> bool {
    a.start_time <= now <= a.end_time
}

/// The Dutch-auction price at a time inside the window: the linear
/// interpolation between the start and end prices, the numerator
/// evaluated before the division.
pub open spec fn price_at(a: AuctionData, now: u64) -> int {
    (a.start_price * (a.end_time - now) + a.end_price * (now - a.start_time)) / (a.end_time
        - a.start_time)
}

/// The payout a taker owes for `taker_amount`: priced by the auction
/// inside the window, by the estimate outside it.
pub open spec fn dst_amount_at(o: OrderConfigV, taker_amount: u128, now: u64) -> int {
    if in_auction_window(o.auction, now) {
        (taker_amount * price_at(o.auction, now)) / (o.auction.start_price as int)
    } else {
        (taker_amount * o.estimated_dst_amount) / (o.src_amount as int)
    }
}

/// Whether the payout computation stays inside 128-bit arithmetic and
/// divides by a positive price.
pub open spec fn fill_math_ok(o: OrderConfigV, taker_amount: u128, now: u64) -> bool {
    if in_auction_window(o.auction, now) {
        &&& o.auction.start_price * (o.auction.end_time - now) + o.auction.end_price * (now
            - o.auction.start_time) <= u128::MAX
        &&& o.auction.start_price > 0
        &&& taker_amount * price_at(o.auction, now) <= u128::MAX
    } else {
        taker_amount * o.estimated_dst_amount <= u128::MAX
    }
}

/// The abstract value of an optional secret.
pub open spec fn view_opt_secret(s: Option<Vec<u8>>) -> Option<Seq<u8>> {
    match s {
        Some(b) => Some(b@),
        None => None,
    }
}

/// The checks of `fill_order` before its transfers, in order:
/// existence, expiry, amount bounds, the secret if one is offered, the
/// finality gate, and the payout floor.
pub open spec fn fill_check(
    s: Seq<OrderConfigV>,
    order_id: u64,
    taker_amount: u128,
    secret: Option<Seq<u8>>,
    now: u64,
) -> Result<OrderConfigV, FusionError> {
    if !contains_id(s, order_id) {
        Err(FusionError::OrderNotFound)
    } else {
        let o = order_of(s, order_id);
        if now >= o.expiration_time {
            Err(FusionError::OrderExpired)
        } else if taker_amount == 0 || taker_amount > o.src_amount {
            Err(FusionError::InvalidAmount)
        } else if secret matches Some(p) && sha256_of(p) != o.secret_hash {
            Err(FusionError::InvalidSecret)
        } else if now < o.timelock.created_at + o.timelock.finality_lock_duration {
            Err(FusionError::TimelockViolation)
        } else if !fill_math_ok(o, taker_amount, now) || dst_amount_at(o, taker_amount, now)
            < o.min_dst_amount {
            Err(FusionError::InvalidAmount)
        } else {
            Ok(o)
        }
    }
}

/// The order as a partial fill leaves it: the escrow shrunk by exactly
/// the taker's amount, the status active, and the hashlock marked
/// revealed if a secret was offered.
pub open spec fn filled_order(
    o: OrderConfigV,
    taker_amount: u128,
    secret_provided: bool,
    now: u64,
) -> OrderConfigV {
    OrderConfigV {
        src_amount: (o.src_amount - taker_amount) as u128,
        status: OrderStatusV::Active,
        revealed: o.revealed || secret_provided,
        reveal_time: if secret_provided {
            Some(now)
        } else {
            o.reveal_time
        },
        ..o
    }
}

/// The amount a cancellation refunds: the full escrow for the maker or
/// after expiry, the escrow less the cancellation premium otherwise.
pub open spec fn refund_amount_of(o: OrderConfigV, is_maker: bool, is_expired: bool) -> int {
    if is_maker || is_expired {
        o.src_amount as int
    } else {
        o.src_amount - (if o.fee.max_cancel_premium < o.src_amount / 10 {
            o.fee.max_cancel_premium as int
        } else {
            (o.src_amount / 10) as int
        })
    }
}

/// The checks of `cancel_order` before its transfer: existence, then
/// authorization (the maker any time, anyone after expiry).
pub open spec fn cancel_check(s: Seq<OrderConfigV>, order_id: u64, caller: Seq<u8>, now: u64) -> Result<
    OrderConfigV,
    FusionError,
> {
    if !contains_id(s, order_id) {
        Err(FusionError::OrderNotFound)
    } else {
        let o = order_of(s, order_id);
        if caller != o.maker && now < o.expiration_time {
            Err(FusionError::UnauthorizedCaller)
        } else {
            Ok(o)
        }
    }
}

/// Validates the static parameters of an order.
pub fn validate_order_params(order: &OrderConfig) -> (r: Result<(), FusionError>)
    ensures
        order@.src_amount == 0 || order@.min_dst_amount == 0 ==> r == Err::<(), FusionError>(
            FusionError::InvalidAmount,
        ),
        order@.src_amount > 0 && order@.min_dst_amount > 0 && order@.auction.start_time
            >= order@.auction.end_time ==> r == Err::<(), FusionError>(FusionError::InvalidTimeRange),
        order@.src_amount > 0 && order@.min_dst_amount > 0 && order@.auction.start_time
            < order@.auction.end_time && order@.src_mint == order@.dst_mint ==> r == Err::<
            (),
            FusionError,
        >(FusionError::InvalidAmount),
        order@.src_amount > 0 && order@.min_dst_amount > 0 && order@.auction.start_time
            < order@.auction.end_time && order@.src_mint != order@.dst_mint ==> r == Ok::<
            (),
            FusionError,
        >(()),
{
    if order.src_amount == 0 || order.min_dst_amount == 0 {
        return Err(FusionError::InvalidAmount);
    }
    if order.auction.start_time >= order.auction.end_time {
        return Err(FusionError::InvalidTimeRange);
    }
    if &order.src_mint == &order.dst_mint {
        return Err(FusionError::InvalidAmount);
    }
    Ok(())
}

/// Validates an offered secret against a hashlock by its SHA-256
/// digest.
pub fn validate_secret(hashlock: &HashLock, secret: &[u8]) -> (r: Result<(), FusionError>)
    ensures
        sha256_of(secret@) == hashlock.secret_hash@ <==> r == Ok::<(), FusionError>(()),
        sha256_of(secret@) != hashlock.secret_hash@ <==> r == Err::<(), FusionError>(
            FusionError::InvalidSecret,
        ),
{
    let computed = compute_hashlock(secret);
    if bytes_equal(computed.as_slice(), hashlock.secret_hash.as_slice()) {
        Ok(())
    } else {
        Err(FusionError::InvalidSecret)
    }
}

/// Validates the finality gate of a timelock against the clock.
pub fn validate_timelock(timelock: &TimeLock, now: u64) -> (r: Result<(), FusionError>)
    ensures
        now < timelock.created_at + timelock.finality_lock_duration <==> r == Err::<
            (),
            FusionError,
        >(FusionError::TimelockViolation),
        now >= timelock.created_at + timelock.finality_lock_duration <==> r == Ok::<
            (),
            FusionError,
        >(()),
{
    if (now as u128) < (timelock.created_at as u128) + (timelock.finality_lock_duration as u128) {
        Err(FusionError::TimelockViolation)
    } else {
        Ok(())
    }
}

/// What `create_order` asks the surrounding program to pull into
/// escrow: the source amount, from the maker, on the source ledger.
pub struct EscrowPullPlan {
    pub src_mint: Principal,
    pub maker: Principal,
    pub amount: u128,
}

/// What a fill asks the surrounding program to move: first the payout
/// from the taker to the maker on the destination ledger, then the
/// taker's amount from escrow to the taker on the source ledger.
pub struct FillPlan {
    pub dst_mint: Principal,
    pub maker: Principal,
    pub dst_amount: u128,
    pub src_mint: Principal,
    pub taker_amount: u128,
}

/// What a cancellation asks the surrounding program to move: the
/// refund from escrow back to the maker on the source ledger.
pub struct RefundPlan {
    pub src_mint: Principal,
    pub maker: Principal,
    pub amount: u128,
}

/// The Fusion order engine: the order book and its reentrancy latch,
/// owned as one value.
pub struct FusionState {
    orders: Vec<OrderConfig>,
    busy: bool,
}

impl View for FusionState {
    type V = FusionView;

    closed spec fn view(&self) -> FusionView {
        FusionView {
            orders: self.orders@.map_values(|o: OrderConfig| o@),
            busy: self.busy,
        }
    }
}

impl FusionState {
    /// Well-formedness: the book invariant.
    pub open spec fn wf(self) -> bool {
        fusion_orders_wf(self@.orders)
    }

    /// A fresh engine with an empty book.
    pub fn new() -> (r: Self)
        ensures
            r.wf(),
            r@.orders == Seq::<OrderConfigV>::empty(),
            r@.busy == false,
    {
        let r = FusionState { orders: Vec::new(), busy: false };
        proof {
            assert(r@.orders =~= Seq::<OrderConfigV>::empty());
        }
        r
    }

    /// Releases the engine's reentrancy latch.  Called on every exit
    /// path, in particular when a ledger call failed between a
    /// mutator's begin and commit halves.
    pub fn release_guard(&mut self)
        ensures
            final(self)@ == (FusionView { busy: false, ..old(self)@ }),
            final(self).wf() == old(self).wf(),
    {
        self.busy = false;
    }

    /// The position of an order in the book.
    fn find_index(&self, order_id: u64) -> (r: Option<usize>)
        requires
            self.wf(),
        ensures
            match r {
                Some(i) => contains_id(self@.orders, order_id) && i == index_of(
                    self@.orders,
                    order_id,
                ) && i < self@.orders.len() && self@.orders[i as int].id == order_id,
                None => !contains_id(self@.orders, order_id),
            },
    {
        let n: usize = self.orders.len();
        let mut i: usize = 0;
        while i < n
            invariant
                self.wf(),
                n == self@.orders.len(),
                0 <= i <= n,
                forall|j: int| 0 <= j < i ==> self@.orders[j].id != order_id,
            decreases n - i,
    {
            if self.orders[i].id == order_id {
                proof {
                    assert(self@.orders[i as int].id == order_id);
                    let w = index_of(self@.orders, order_id);
                    assert(0 <= w < self@.orders.len() && self@.orders[w].id == order_id);
                    assert(w == i as int);
                }
                return Some(i);
            }
            i = i + 1;
        }
        proof {
            assert forall|j: int| 0 <= j < self@.orders.len() implies self@.orders[j].id
                != order_id by {}
        }
        None
    }

    /// Looks an order up.
    pub fn get_order(&self, id: u64) -> (r: Option<OrderConfig>)
        requires
            self.wf(),
        ensures
            match r {
                Some(o) => contains_id(self@.orders, id) && o@ == order_of(self@.orders, id),
                None => !contains_id(self@.orders, id),
            },
    {
        match self.find_index(id) {
            Some(i) => Some(self.orders[i].clone()),
            None => None,
        }
    }

    /// A copy of the whole book, in ascending id order.
    pub fn get_all_orders(&self) -> (r: Vec<OrderConfig>)
        requires
            self.wf(),
        ensures
            r@.map_values(|o: OrderConfig| o@) == self@.orders,
            forall|a: int, b: int| 0 <= a < b < r@.len() ==> r@[a]@.id < r@[b]@.id,
    {
        let n: usize = self.orders.len();
        let mut out: Vec<OrderConfig> = Vec::new();
        let mut i: usize = 0;
        while i < n
            invariant
                n == self@.orders.len(),
                0 <= i <= n,
                out@.map_values(|o: OrderConfig| o@) =~= self@.orders.take(i as int),
            decreases n - i,
        {
            let ghost prev_out = out@;
            let c = self.orders[i].clone();
            proof {
                assert(c@ == self@.orders[i as int]);
            }
            out.push(c);
            proof {
                assert(self@.orders.take(i as int + 1).drop_last() =~= self@.orders.take(i as int));
                assert forall|j: int|
                    0 <= j < out@.len() implies (#[trigger] out@[j])@ == self@.orders.take(
                    i as int + 1,
                )[j] by {
                    if j < i as int {
                        assert(out@[j] == prev_out[j]);
                    } else {
                        assert(out@[j] == c);
                    }
                }
                assert(out@.map_values(|o: OrderConfig| o@) =~= self@.orders.take(i as int + 1));
            }
            i = i + 1;
        }
        proof {
            assert(self@.orders.take(n as int) =~= self@.orders);
            assert forall|a: int, b: int| 0 <= a < b < out@.len() implies out@[a]@.id
                < out@[b]@.id by {
                assert(out@[a]@ == self@.orders[a]);
                assert(out@[b]@ == self@.orders[b]);
            }
        }
        out
    }

    /// A copy of this maker's orders, in ascending id order.
    pub fn get_orders_by_maker(&self, maker: &Principal) -> (r: Vec<OrderConfig>)
        requires
            self.wf(),
        ensures
            r@.map_values(|o: OrderConfig| o@) == self@.orders.filter(
                |o: OrderConfigV| o.maker == maker@,
            ),
            forall|a: int, b: int| 0 <= a < b < r@.len() ==> r@[a]@.id < r@[b]@.id,
    {
        let n: usize = self.orders.len();
        let mut out: Vec<OrderConfig> = Vec::new();
        let mut i: usize = 0;
        while i < n
            invariant
                self.wf(),
                n == self@.orders.len(),
                0 <= i <= n,
                out@.map_values(|o: OrderConfig| o@) =~= self@.orders.take(i as int).filter(
                    |o: OrderConfigV| o.maker == maker@,
                ),
                forall|a: int, b: int| 0 <= a < b < out@.len() ==> out@[a]@.id < out@[b]@.id,
                out@.len() > 0 ==> i > 0 && out@.last()@.id <= self@.orders[i as int - 1].id,
            decreases n - i,
        {
            let ghost prefix = self@.orders.take(i as int);
            proof {
                assert(self@.orders.take(i as int + 1).drop_last() =~= prefix);
                assert(self@.orders.take(i as int + 1).last() == self@.orders[i as int]);
                reveal(Seq::filter);
            }
            if &self.orders[i].maker == maker {
                let ghost prev_out = out@;
                let c = self.orders[i].clone();
                proof {
                    assert(c@ == self@.orders[i as int]);
                }
                out.push(c);
                proof {
                    assert(out@.map_values(|o: OrderConfig| o@) =~= prefix.filter(
                        |o: OrderConfigV| o.maker == maker@,
                    ).push(self@.orders[i as int]));
                    assert forall|a: int, b: int| 0 <= a < b < out@.len() implies out@[a]@.id
                        < out@[b]@.id by {
                        if b < out@.len() - 1 {
                            assert(out@[a] == prev_out[a]);
                            assert(out@[b] == prev_out[b]);
                        } else {
                            assert(out@[b] == c);
                            assert(out@[a] == prev_out[a]);
                            if a == prev_out.len() - 1 {
                                assert(prev_out[a]@.id <= self@.orders[i as int - 1].id);
                            } else {
                                assert(prev_out[a]@.id < prev_out[prev_out.len() - 1]@.id);
                                assert(prev_out[prev_out.len() - 1]@.id <= self@.orders[i as int
                                    - 1].id);
                            }
                            assert(self@.orders[i as int - 1].id < self@.orders[i as int].id);
                        }
                    }
                }
            } else {
                proof {
                    if out@.len() > 0 {
                        assert(self@.orders[i as int - 1].id < self@.orders[i as int].id);
                    }
                }
            }
            i = i + 1;
        }
        proof {
            assert(self@.orders.take(n as int) =~= self@.orders);
        }
        out
    }

    /// First half of posting an order: takes the latch and checks the
    /// caller, the parameters and the id.  On success the surrounding
    /// program pulls the escrow with the returned plan and then calls
    /// `create_order_commit`, or `release_guard` if the pull failed.
    pub fn create_order_begin(&mut self, order: &OrderConfig, caller: &Principal) -> (r: Result<
        EscrowPullPlan,
        FusionError,
    >)
        requires
            old(self).wf(),
        ensures
            final(self).wf(),
            old(self)@.busy ==> (r matches Err(e) && e == FusionError::ReentrancyDetected)
                && final(self)@ == old(self)@,
            !old(self)@.busy ==> match r {
                Ok(plan) => {
                    &&& fusion_create_check(old(self)@.orders, order@, caller@) is Ok
                    &&& plan.src_mint@ == order@.src_mint
                    &&& plan.maker@ == order@.maker
                    &&& plan.amount == order@.src_amount
                    &&& final(self)@ == (FusionView { busy: true, ..old(self)@ })
                },
                Err(e) => fusion_create_check(old(self)@.orders, order@, caller@) == Err::<
                    (),
                    FusionError,
                >(e) && final(self)@ == old(self)@,
            },
    {
        if self.busy {
            return Err(FusionError::ReentrancyDetected);
        }
        if !(caller == &order.maker) {
            return Err(FusionError::UnauthorizedCaller);
        }
        if let Err(e) = validate_order_params(order) {
            return Err(e);
        }
        if self.find_index(order.id).is_some() {
            return Err(FusionError::OrderAlreadyExists);
        }
        let plan = EscrowPullPlan {
            src_mint: order.src_mint.clone(),
            maker: order.maker.clone(),
            amount: order.src_amount,
        };
        self.busy = true;
        Ok(plan)
    }

    /// Second half of posting an order, called once the escrow pull
    /// settled: re-checks and records the order, and releases the
    /// latch.
    pub fn create_order_commit(&mut self, order: OrderConfig, caller: &Principal) -> (r: Result<
        (),
        FusionError,
    >)
        requires
            old(self).wf(),
        ensures
            final(self).wf(),
            final(self)@.busy == false,
            match r {
                Ok(()) => {
                    &&& fusion_create_check(old(self)@.orders, order@, caller@) is Ok
                    &&& final(self)@.orders == old(self)@.orders.insert(
                        insert_position(old(self)@.orders, order@.id),
                        order@,
                    )
                    &&& forall|m: Seq<u8>|
                        escrow_total(final(self)@.orders, m) == escrow_total(old(self)@.orders, m)
                            + escrow_contrib(order@, m)
                },
                Err(e) => fusion_create_check(old(self)@.orders, order@, caller@) == Err::<
                    (),
                    FusionError,
                >(e) && final(self)@.orders == old(self)@.orders,
            },
    {
        self.busy = false;
        if !(caller == &order.maker) {
            return Err(FusionError::UnauthorizedCaller);
        }
        if let Err(e) = validate_order_params(&order) {
            return Err(e);
        }
        if self.find_index(order.id).is_some() {
            return Err(FusionError::OrderAlreadyExists);
        }
        let ghost pre = self@.orders;
        proof {
            lemma_insert_position(pre, order.id);
        }
        let n: usize = self.orders.len();
        let mut pos: usize = 0;
        while pos < n && self.orders[pos].id < order.id
            invariant
                self@.orders == pre,
                n == self@.orders.len(),
                0 <= pos <= n,
                forall|j: int| 0 <= j < pos ==> self@.orders[j].id < order@.id,
            decreases n - pos,
        {
            pos = pos + 1;
        }
        proof {
            let p = insert_position(pre, order@.id);
            if pos < p {
                assert(pre[pos as int].id < order@.id);
                assert(pos < n);
                assert(false);
            }
            if pos > p {
                assert(pre[p].id > order@.id);
                assert(pre[p].id < order@.id);
                assert(false);
            }
        }
        let ghost p = insert_position(pre, order@.id);
        self.orders.insert(pos, order);
        proof {
            assert(self@.orders =~= pre.insert(p, order@));
            let t = self@.orders;
            assert forall|m: Seq<u8>|
                escrow_total(t, m) == escrow_total(pre, m) + escrow_contrib(order@, m) by {
                lemma_escrow_insert(pre, p, order@, m);
            }
            assert forall|k: int| 0 <= k < t.len() implies #[trigger] t[k] == (if k < p {
                pre[k]
            } else if k == p {
                order@
            } else {
                pre[k - 1]
            }) by {}
            assert forall|i: int, j: int| 0 <= i < j < t.len() implies t[i].id < t[j].id by {
                if i < p && j > p {
                    assert(pre[i].id < order@.id);
                    assert(pre[j - 1].id > order@.id);
                }
            }
            assert forall|i: int| 0 <= i < t.len() implies order_ok(#[trigger] t[i]) by {}
        }
        Ok(())
    }

    /// First half of filling an order: takes the latch, checks the
    /// order, prices the fill on the auction curve, and returns the two
    /// transfers to carry out in order.  The surrounding program then
    /// calls `fill_order_commit`, or `release_guard` if a transfer
    /// failed.
    pub fn fill_order_begin(
        &mut self,
        order_id: u64,
        taker_amount: u128,
        secret: &Option<Vec<u8>>,
        now: u64,
    ) -> (r: Result<FillPlan, FusionError>)
        requires
            old(self).wf(),
        ensures
            final(self).wf(),
            old(self)@.busy ==> (r matches Err(e) && e == FusionError::ReentrancyDetected)
                && final(self)@ == old(self)@,
            !old(self)@.busy ==> match r {
                Ok(plan) => {
                    &&& fill_check(old(self)@.orders, order_id, taker_amount, view_opt_secret(*secret), now)
                        == Ok::<OrderConfigV, FusionError>(order_of(old(self)@.orders, order_id))
                    &&& plan.dst_mint@ == order_of(old(self)@.orders, order_id).dst_mint
                    &&& plan.maker@ == order_of(old(self)@.orders, order_id).maker
                    &&& plan.dst_amount == dst_amount_at(
                        order_of(old(self)@.orders, order_id),
                        taker_amount,
                        now,
                    )
                    &&& plan.src_mint@ == order_of(old(self)@.orders, order_id).src_mint
                    &&& plan.taker_amount == taker_amount
                    &&& final(self)@ == (FusionView { busy: true, ..old(self)@ })
                },
                Err(e) => fill_check(old(self)@.orders, order_id, taker_amount, view_opt_secret(*secret), now)
                    == Err::<OrderConfigV, FusionError>(e) && final(self)@ == old(self)@,
            },
    {
        if self.busy {
            return Err(FusionError::ReentrancyDetected);
        }
        let i = match self.find_index(order_id) {
            None => {
                return Err(FusionError::OrderNotFound);
            },
            Some(i) => i,
        };
        let o = &self.orders[i];
        proof {
            assert(o@ == order_of(self@.orders, order_id));
        }
        if now >= o.expiration_time {
            return Err(FusionError::OrderExpired);
        }
        if taker_amount == 0 || taker_amount > o.src_amount {
            return Err(FusionError::InvalidAmount);
        }
        match secret {
            Some(secret_data) => {
                if let Err(e) = validate_secret(&o.hashlock, secret_data.as_slice()) {
                    return Err(e);
                }
            },
            None => {},
        }
        if let Err(e) = validate_timelock(&o.timelock, now) {
            return Err(e);
        }
        let dst_amount: u128 = if o.auction.start_time <= now && now <= o.auction.end_time {
            let total_duration: u64 = o.auction.end_time - o.auction.start_time;
            let t1 = match o.auction.start_price.checked_mul((o.auction.end_time - now) as u128) {
                None => {
                    return Err(FusionError::InvalidAmount);
                },
                Some(v) => v,
            };
            let t2 = match o.auction.end_price.checked_mul((now - o.auction.start_time) as u128) {
                None => {
                    return Err(FusionError::InvalidAmount);
                },
                Some(v) => v,
            };
            let numerator = match t1.checked_add(t2) {
                None => {
                    return Err(FusionError::InvalidAmount);
                },
                Some(v) => v,
            };
            let current_price: u128 = numerator / (total_duration as u128);
            proof {
                assert(current_price == price_at(o.auction, now));
            }
            if o.auction.start_price == 0 {
                return Err(FusionError::InvalidAmount);
            }
            let scaled = match taker_amount.checked_mul(current_price) {
                None => {
                    return Err(FusionError::InvalidAmount);
                },
                Some(v) => v,
            };
            scaled / o.auction.start_price
        } else {
            let scaled = match taker_amount.checked_mul(o.estimated_dst_amount) {
                None => {
                    return Err(FusionError::InvalidAmount);
                },
                Some(v) => v,
            };
            scaled / o.src_amount
        };
        proof {
            assert(fill_math_ok(o@, taker_amount, now));
            assert(dst_amount == dst_amount_at(o@, taker_amount, now));
        }
        if dst_amount < o.min_dst_amount {
            return Err(FusionError::InvalidAmount);
        }
        let plan = FillPlan {
            dst_mint: o.dst_mint.clone(),
            maker: o.maker.clone(),
            dst_amount,
            src_mint: o.src_mint.clone(),
            taker_amount,
        };
        self.busy = true;
        Ok(plan)
    }

    /// Second half of filling an order, called once both transfers
    /// settled: removes a fully taken order, shrinks a partly taken one
    /// by exactly the taker's amount, and releases the latch.
    pub fn fill_order_commit(
        &mut self,
        order_id: u64,
        taker_amount: u128,
        secret_provided: bool,
        now: u64,
    ) -> (r: Result<(), FusionError>)
        requires
            old(self).wf(),
        ensures
            final(self).wf(),
            final(self)@.busy == false,
            match r {
                Ok(()) => {
                    &&& contains_id(old(self)@.orders, order_id)
                    &&& 0 < taker_amount <= order_of(old(self)@.orders, order_id).src_amount
                    &&& (if taker_amount == order_of(old(self)@.orders, order_id).src_amount {
                        final(self)@.orders == old(self)@.orders.remove(
                            index_of(old(self)@.orders, order_id),
                        )
                    } else {
                        final(self)@.orders == old(self)@.orders.update(
                            index_of(old(self)@.orders, order_id),
                            filled_order(
                                order_of(old(self)@.orders, order_id),
                                taker_amount,
                                secret_provided,
                                now,
                            ),
                        )
                    })
                    &&& forall|m: Seq<u8>|
                        escrow_total(final(self)@.orders, m) == escrow_total(old(self)@.orders, m)
                            - (if order_of(old(self)@.orders, order_id).src_mint == m {
                            taker_amount as int
                        } else {
                            0
                        })
                },
                Err(e) => {
                    &&& final(self)@.orders == old(self)@.orders
                    &&& (e == FusionError::OrderNotFound || e == FusionError::InvalidAmount)
                    &&& (e == FusionError::OrderNotFound <==> !contains_id(
                        old(self)@.orders,
                        order_id,
                    ))
                    &&& (e == FusionError::InvalidAmount <==> contains_id(
                        old(self)@.orders,
                        order_id,
                    ) && (taker_amount == 0 || taker_amount > order_of(
                        old(self)@.orders,
                        order_id,
                    ).src_amount))
                },
            },
    {
        self.busy = false;
        let i = match self.find_index(order_id) {
            None => {
                return Err(FusionError::OrderNotFound);
            },
            Some(i) => i,
        };
        let src_amount = self.orders[i].src_amount;
        if taker_amount == 0 || taker_amount > src_amount {
            return Err(FusionError::InvalidAmount);
        }
        let ghost pre = self@.orders;
        let ghost idx = i as int;
        if taker_amount == src_amount {
            self.orders.remove(i);
            proof {
                assert(self@.orders =~= pre.remove(idx));
                assert forall|m: Seq<u8>|
                    escrow_total(self@.orders, m) == escrow_total(pre, m) - (if pre[idx].src_mint
                        == m {
                        taker_amount as int
                    } else {
                        0
                    }) by {
                    lemma_escrow_remove(pre, idx, m);
                }
            }
        } else {
            let mut updated = self.orders[i].clone();
            updated.src_amount = src_amount - taker_amount;
            updated.status = OrderStatus::Active;
            if secret_provided {
                updated.hashlock.revealed = true;
                updated.hashlock.reveal_time = Some(now);
            }
            proof {
                assert(updated@ == filled_order(pre[idx], taker_amount, secret_provided, now));
            }
            self.orders[i] = updated;
            proof {
                assert(self@.orders =~= pre.update(
                    idx,
                    filled_order(pre[idx], taker_amount, secret_provided, now),
                ));
                assert forall|m: Seq<u8>|
                    escrow_total(self@.orders, m) == escrow_total(pre, m) - (if pre[idx].src_mint
                        == m {
                        taker_amount as int
                    } else {
                        0
                    }) by {
                    lemma_escrow_update(
                        pre,
                        idx,
                        filled_order(pre[idx], taker_amount, secret_provided, now),
                        m,
                    );
                }
            }
        }
        Ok(())
    }

    /// First half of cancelling an order: takes the latch, checks the
    /// caller's right, and computes the refund.  The surrounding
    /// program carries out the returned transfer and then calls
    /// `cancel_order_commit`, or `release_guard` if it failed.
    pub fn cancel_order_begin(&mut self, order_id: u64, caller: &Principal, now: u64) -> (r: Result<
        RefundPlan,
        FusionError,
    >)
        requires
            old(self).wf(),
        ensures
            final(self).wf(),
            old(self)@.busy ==> (r matches Err(e) && e == FusionError::ReentrancyDetected)
                && final(self)@ == old(self)@,
            !old(self)@.busy ==> match r {
                Ok(plan) => {
                    &&& cancel_check(old(self)@.orders, order_id, caller@, now)
                        == Ok::<OrderConfigV, FusionError>(order_of(old(self)@.orders, order_id))
                    &&& plan.src_mint@ == order_of(old(self)@.orders, order_id).src_mint
                    &&& plan.maker@ == order_of(old(self)@.orders, order_id).maker
                    &&& plan.amount == refund_amount_of(
                        order_of(old(self)@.orders, order_id),
                        caller@ == order_of(old(self)@.orders, order_id).maker,
                        now >= order_of(old(self)@.orders, order_id).expiration_time,
                    )
                    &&& plan.amount > 0
                    &&& final(self)@ == (FusionView { busy: true, ..old(self)@ })
                },
                Err(e) => cancel_check(old(self)@.orders, order_id, caller@, now) == Err::<
                    OrderConfigV,
                    FusionError,
                >(e) && final(self)@ == old(self)@,
            },
    {
        if self.busy {
            return Err(FusionError::ReentrancyDetected);
        }
        let i = match self.find_index(order_id) {
            None => {
                return Err(FusionError::OrderNotFound);
            },
            Some(i) => i,
        };
        let o = &self.orders[i];
        let is_expired = now >= o.expiration_time;
        let is_maker = caller == &o.maker;
        if !is_maker && !is_expired {
            return Err(FusionError::UnauthorizedCaller);
        }
        let refund_amount: u128 = if is_maker || is_expired {
            o.src_amount
        } else {
            let tenth = o.src_amount / 10;
            let premium = if o.fee.max_cancel_premium < tenth {
                o.fee.max_cancel_premium
            } else {
                tenth
            };
            o.src_amount - premium
        };
        let plan = RefundPlan {
            src_mint: o.src_mint.clone(),
            maker: o.maker.clone(),
            amount: refund_amount,
        };
        self.busy = true;
        Ok(plan)
    }

    /// Second half of cancelling an order, called once the refund
    /// settled: removes the order and releases the latch.
    pub fn cancel_order_commit(&mut self, order_id: u64) -> (r: Result<(), FusionError>)
        requires
            old(self).wf(),
        ensures
            final(self).wf(),
            final(self)@.busy == false,
            match r {
                Ok(()) => {
                    &&& contains_id(old(self)@.orders, order_id)
                    &&& final(self)@.orders == old(self)@.orders.remove(
                        index_of(old(self)@.orders, order_id),
                    )
                    &&& forall|m: Seq<u8>|
                        escrow_total(final(self)@.orders, m) == escrow_total(old(self)@.orders, m)
                            - escrow_contrib(order_of(old(self)@.orders, order_id), m)
                },
                Err(e) => e == FusionError::OrderNotFound && !contains_id(
                    old(self)@.orders,
                    order_id,
                ) && final(self)@.orders == old(self)@.orders,
            },
    {
        self.busy = false;
        let i = match self.find_index(order_id) {
            None => {
                return Err(FusionError::OrderNotFound);
            },
            Some(i) => i,
        };
        let ghost pre = self@.orders;
        let ghost idx = i as int;
        self.orders.remove(i);
        proof {
            assert(self@.orders =~= pre.remove(idx));
            assert forall|m: Seq<u8>|
                escrow_total(self@.orders, m) == escrow_total(pre, m) - escrow_contrib(
                    pre[idx],
                    m,
                ) by {
                lemma_escrow_remove(pre, idx, m);
            }
        }
        Ok(())
    }
}

} // verus!
