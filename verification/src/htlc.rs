use vstd::prelude::*;

use crate::crypto::bytes_equal;
use crate::crypto::compute_hashlock;
use crate::crypto::hex_encode;
use crate::crypto::hex_of;
use crate::crypto::sha256_of;
use crate::errors::BridgeError;
use crate::htlc_types::Account;
use crate::htlc_types::BridgeConfig;
use crate::htlc_types::TransferArgs;
use crate::htlc_types::BridgeConfigV;
use crate::htlc_types::ChainFusionConfig;
use crate::htlc_types::ChainFusionConfigV;
use crate::htlc_types::CreateSwapRequest;
use crate::htlc_types::CrossChainMessage;
use crate::htlc_types::CrossChainMessageV;
use crate::htlc_types::SwapOrder;
use crate::htlc_types::SwapOrderV;
use crate::htlc_types::view_opt_string;
use crate::principal::Principal;
use crate::store::StrMap;
use vstd::arithmetic::div_mod::lemma_div_is_ordered;
use vstd::arithmetic::div_mod::lemma_div_multiples_vanish;
use vstd::arithmetic::mul::lemma_mul_inequality;
use vstd::string::StrSliceExecFns;
use vstd::string::StringExecFns;
use vstd::utf8::encode_utf8;

verus! {

/// The abstract state of the bridge HTLC engine.
pub ghost struct BridgeView {
    /// The order book, keyed by order id.
    pub orders: Map<Seq<char>, SwapOrderV>,
    /// Every hashlock ever accepted, in order of acceptance.
    pub used: Seq<Seq<u8>>,
    /// The cross-chain message log, keyed by order id.
    pub msgs: Map<Seq<char>, CrossChainMessageV>,
    /// The engine configuration.
    pub config: BridgeConfigV,
    /// The signing subsystem configuration.
    pub cf: ChainFusionConfigV,
    /// The last native-ledger balance the engine was told of.
    pub balance: u64,
    /// The reentrancy latch.
    pub busy: bool,
    /// The program's own identity; administrative calls must come from it.
    pub self_id: Seq<u8>,
}

/// The invariant of every reachable engine state: no order is both
/// completed and refunded; a completed order's hashlock has a known
/// SHA-256 preimage; every order's hashlock is recorded in the
/// uniqueness list; and the configured fee never exceeds 100 basis
/// points.
pub open spec fn bridge_inv(v: BridgeView) -> bool {
    &&& forall|k: Seq<char>|
        #[trigger] v.orders.contains_key(k) ==> !(v.orders[k].completed && v.orders[k].refunded)
    &&& forall|k: Seq<char>|
        #[trigger] v.orders.contains_key(k) && v.orders[k].completed ==> exists|p: Seq<u8>|
            sha256_of(p) == v.orders[k].hashlock
    &&& forall|k: Seq<char>|
        #[trigger] v.orders.contains_key(k) ==> v.used.contains(v.orders[k].hashlock)
    &&& v.config.bridge_fee_percentage <= 100
}

/// The bridge fee withheld from `amount` at `bps` basis points,
/// rounding toward zero.
pub open spec fn fee_of(amount: u64, bps: u64) -> int {
    (amount * bps) / 10000
}

/// What remains of `amount` after the bridge fee.
pub open spec fn net_of(amount: u64, bps: u64) -> int {
    amount - fee_of(amount, bps)
}

/// Big-endian bytes of a 64-bit integer.
pub open spec fn u64_be(x: u64) -> Seq<u8> {
    seq![
        (x >> 56) as u8,
        (x >> 48) as u8,
        (x >> 40) as u8,
        (x >> 32) as u8,
        (x >> 24) as u8,
        (x >> 16) as u8,
        (x >> 8) as u8,
        x as u8,
    ]
}

/// The bytes hashed to derive an order id.  Variable-length fields are
/// length-prefixed so that distinct inputs never encode alike.
pub open spec fn order_id_material(
    sender: Seq<char>,
    recipient: Seq<u8>,
    amount: u64,
    hashlock: Seq<u8>,
    timelock: u64,
    now: u64,
) -> Seq<u8> {
    u64_be(encode_utf8(sender).len() as u64) + encode_utf8(sender) + u64_be(recipient.len() as u64)
        + recipient + u64_be(amount) + u64_be(hashlock.len() as u64) + hashlock + u64_be(timelock)
        + u64_be(now)
}

/// The order id: the SHA-256 digest of the creation inputs and the
/// clock, rendered as lowercase hex.
pub open spec fn order_id_of(
    sender: Seq<char>,
    recipient: Seq<u8>,
    amount: u64,
    hashlock: Seq<u8>,
    timelock: u64,
    now: u64,
) -> Seq<char> {
    hex_of(sha256_of(order_id_material(sender, recipient, amount, hashlock, timelock, now)))
}

/// How many of these orders are completed.
pub open spec fn count_completed(s: Seq<SwapOrderV>) -> int
    decreases s.len(),
{
    if s.len() == 0 {
        0
    } else {
        count_completed(s.drop_last()) + if s.last().completed {
            1int
        } else {
            0int
        }
    }
}

/// How many of these orders are refunded.
pub open spec fn count_refunded(s: Seq<SwapOrderV>) -> int
    decreases s.len(),
{
    if s.len() == 0 {
        0
    } else {
        count_refunded(s.drop_last()) + if s.last().refunded {
            1int
        } else {
            0int
        }
    }
}

/// The bridge HTLC engine: the order book, the hashlock uniqueness
/// list, the message log and the configuration, owned as one value.
pub struct BridgeState {
    orders: StrMap<SwapOrder>,
    used_hashlocks: Vec<Vec<u8>>,
    msgs: StrMap<CrossChainMessage>,
    config: BridgeConfig,
    cf_config: ChainFusionConfig,
    balance: u64,
    busy: bool,
    self_id: Principal,
}

impl View for BridgeState {
    type V = BridgeView;

    closed spec fn view(&self) -> BridgeView {
        BridgeView {
            orders: self.orders@,
            used: self.used_hashlocks@.map_values(|b: Vec<u8>| b@),
            msgs: self.msgs@,
            config: self.config@,
            cf: self.cf_config@,
            balance: self.balance,
            busy: self.busy,
            self_id: self.self_id@,
        }
    }
}

impl BridgeState {
    /// The orders in storage order, for counting.
    pub closed spec fn order_vals(self) -> Seq<SwapOrderV> {
        self.orders.vals()
    }

    /// Well-formedness: the stores have unique keys and the state
    /// satisfies the engine invariant.
    pub closed spec fn wf(self) -> bool {
        &&& self.orders.wf()
        &&& self.msgs.wf()
        &&& bridge_inv(self@)
    }

    /// The engine invariant holds of every well-formed state.
    pub proof fn lemma_wf_inv(self)
        requires
            self.wf(),
        ensures
            bridge_inv(self@),
    {
    }

    /// A counted order is a mapped order: the statistics range over
    /// exactly the order map's values.
    pub proof fn lemma_counted_order_is_mapped(self, i: int)
        requires
            self.wf(),
            0 <= i < self.order_vals().len(),
        ensures
            exists|k: Seq<char>| #![auto]
                self@.orders.contains_key(k) && self@.orders[k] == self.order_vals()[i],
    {
        self.orders.lemma_val_is_mapped(i);
    }

    /// A mapped order is a counted order.
    pub proof fn lemma_mapped_order_is_counted(self, k: Seq<char>)
        requires
            self.wf(),
            self@.orders.contains_key(k),
        ensures
            self.order_vals().contains(self@.orders[k]),
    {
        self.orders.lemma_mapped_is_stored(k);
    }

    /// A fresh engine: empty books, the default configuration, and the
    /// given identity as its own.
    pub fn new(self_id: Principal) -> (r: Self)
        ensures
            r.wf(),
            r@.orders == Map::<Seq<char>, SwapOrderV>::empty(),
            r@.used == Seq::<Seq<u8>>::empty(),
            r@.msgs == Map::<Seq<char>, CrossChainMessageV>::empty(),
            r@.config.bridge_fee_percentage == 10,
            r@.config.min_swap_amount == 1_000_000_000_000_000u64,
            r@.config.max_swap_amount == 1_000_000_000_000_000_000u64,
            r@.config.authorized_resolvers == Seq::<Seq<u8>>::empty(),
            r@.config.chain_fusion_enabled == false,
            r@.cf.chain_fusion_enabled == false,
            r@.cf.evm_canister_id is None,
            r@.balance == 0,
            r@.busy == false,
            r@.self_id == self_id@,
    {
        let r = BridgeState {
            orders: StrMap::new(),
            used_hashlocks: Vec::new(),
            msgs: StrMap::new(),
            config: BridgeConfig::default(),
            cf_config: ChainFusionConfig {
                evm_canister_id: None,
                ethereum_contract_address: String::new(),
                authorized_ethereum_senders: Vec::new(),
                chain_fusion_enabled: false,
            },
            balance: 0,
            busy: false,
            self_id,
        };
        proof {
            assert(r@.used =~= Seq::<Seq<u8>>::empty());
        }
        r
    }

    /// Releases the engine's reentrancy latch.  Called on every exit
    /// path, in particular when an external call failed between a
    /// mutator's begin and commit halves.
    pub fn release_guard(&mut self)
        ensures
            final(self)@ == (BridgeView { busy: false, ..old(self)@ }),
            final(self).wf() == old(self).wf(),
    {
        self.busy = false;
    }

    /// Looks an order up.
    pub fn get_swap_order(&self, order_id: &String) -> (r: Result<SwapOrder, BridgeError>)
        requires
            self.wf(),
        ensures
            match r {
                Ok(o) => self@.orders.contains_key(order_id@) && o@ == self@.orders[order_id@],
                Err(e) => e == BridgeError::OrderNotFound && !self@.orders.contains_key(order_id@),
            },
    {
        match self.orders.get(order_id) {
            Some(o) => Ok(o.clone()),
            None => Err(BridgeError::OrderNotFound),
        }
    }

    /// Whether a hashlock was ever accepted.
    pub fn is_hashlock_used(&self, hashlock: &Vec<u8>) -> (r: bool)
        ensures
            r == self@.used.contains(hashlock@),
    {
        let n: usize = self.used_hashlocks.len();
        let mut i: usize = 0;
        while i < n
            invariant
                n == self.used_hashlocks@.len(),
                0 <= i <= n,
                forall|j: int| 0 <= j < i ==> self.used_hashlocks@[j]@ != hashlock@,
            decreases n - i,
        {
            if bytes_equal(self.used_hashlocks[i].as_slice(), hashlock.as_slice()) {
                proof {
                    assert(self@.used[i as int] == hashlock@);
                }
                return true;
            }
            i = i + 1;
        }
        proof {
            assert forall|j: int| 0 <= j < self@.used.len() implies self@.used[j] != hashlock@ by {
                assert(self@.used[j] == self.used_hashlocks@[j]@);
            }
        }
        false
    }

    /// A copy of the configuration.
    pub fn get_bridge_config_query(&self) -> (r: BridgeConfig)
        ensures
            r@ == self@.config,
    {
        self.config.clone()
    }

    /// Looks a logged cross-chain message up.
    pub fn get_cross_chain_message(&self, order_id: &String) -> (r: Result<
        CrossChainMessage,
        BridgeError,
    >)
        requires
            self.wf(),
        ensures
            match r {
                Ok(m) => self@.msgs.contains_key(order_id@) && m@ == self@.msgs[order_id@],
                Err(e) => e == BridgeError::OrderNotFound && !self@.msgs.contains_key(order_id@),
            },
    {
        match self.msgs.get(order_id) {
            Some(m) => Ok(m.clone()),
            None => Err(BridgeError::OrderNotFound),
        }
    }

    /// Whether the cross-chain bridge is enabled.
    pub fn get_chain_fusion_status(&self) -> (r: bool)
        ensures
            r == self@.config.chain_fusion_enabled,
    {
        self.config.chain_fusion_enabled
    }

    /// The last native-ledger balance the engine was told of.
    pub fn canister_balance(&self) -> (r: u64)
        ensures
            r == self@.balance,
    {
        self.balance
    }

    /// Records a freshly queried native-ledger balance.
    pub fn set_canister_balance(&mut self, balance: u64)
        ensures
            final(self)@ == (BridgeView { balance, ..old(self)@ }),
            final(self).wf() == old(self).wf(),
    {
        self.balance = balance;
    }

    /// Counts all, completed and refunded orders.
    pub fn get_swap_statistics(&self) -> (r: (u64, u64, u64))
        ensures
            r.0 == self.order_vals().len(),
            r.1 == count_completed(self.order_vals()),
            r.2 == count_refunded(self.order_vals()),
    {
        let total: u64 = self.orders.len() as u64;
        let mut completed: u64 = 0;
        let mut refunded: u64 = 0;
        let n: usize = self.orders.len();
        let mut i: usize = 0;
        while i < n
            invariant
                n == self.order_vals().len(),
                0 <= i <= n,
                completed == count_completed(self.order_vals().take(i as int)),
                refunded == count_refunded(self.order_vals().take(i as int)),
                completed <= i,
                refunded <= i,
            decreases n - i,
        {
            let o = self.orders.value_at(i);
            proof {
                assert(self.order_vals().take(i as int + 1).drop_last() =~= self.order_vals().take(
                    i as int,
                ));
                assert(self.order_vals().take(i as int + 1).last() == self.order_vals()[i as int]);
            }
            if o.completed {
                completed = completed + 1;
            }
            if o.refunded {
                refunded = refunded + 1;
            }
            i = i + 1;
        }
        proof {
            assert(self.order_vals().take(n as int) =~= self.order_vals());
        }
        (total, completed, refunded)
    }

    /// Records a message in the log under the given key.
    pub(crate) fn upsert_message(&mut self, key: String, message: CrossChainMessage)
        requires
            old(self).wf(),
        ensures
            final(self).wf(),
            final(self)@ == (BridgeView {
                msgs: old(self)@.msgs.insert(key@, message@),
                ..old(self)@
            }),
    {
        self.msgs.upsert(key, message);
    }

    /// The signing subsystem's enable flag.
    pub(crate) fn chain_fusion_enabled_flag(&self) -> (r: bool)
        ensures
            r == self@.cf.chain_fusion_enabled,
    {
        self.cf_config.chain_fusion_enabled
    }

    /// Whether no destination contract address is configured.
    pub(crate) fn cf_contract_address_is_empty(&self) -> (r: bool)
        ensures
            r == (self@.cf.ethereum_contract_address.len() == 0),
    {
        self.cf_config.ethereum_contract_address.as_str().unicode_len() == 0
    }

    /// The signing subsystem's identity, if configured.
    pub(crate) fn cf_evm_canister_id(&self) -> (r: Option<&Principal>)
        ensures
            match r {
                Some(p) => self@.cf.evm_canister_id == Some(p@),
                None => self@.cf.evm_canister_id is None,
            },
    {
        self.cf_config.evm_canister_id.as_ref()
    }

    /// A copy of the configured destination contract address.
    pub(crate) fn cf_contract_address_clone(&self) -> (r: String)
        ensures
            r@ == self@.cf.ethereum_contract_address,
    {
        self.cf_config.ethereum_contract_address.clone()
    }

    /// Administrative: sets the bridge fee, capped at 100 basis points.
    pub fn set_bridge_fee_percentage(&mut self, caller: &Principal, fee_percentage: u64) -> (r:
        Result<(), BridgeError>)
        ensures
            caller@ != old(self)@.self_id ==> r == Err::<(), BridgeError>(BridgeError::Unauthorized)
                && final(self)@ == old(self)@,
            caller@ == old(self)@.self_id && fee_percentage > 100 ==> r == Err::<(), BridgeError>(
                BridgeError::FeeTooHigh,
            ) && final(self)@ == old(self)@,
            caller@ == old(self)@.self_id && fee_percentage <= 100 ==> r == Ok::<(), BridgeError>(())
                && final(self)@ == (BridgeView {
                config: BridgeConfigV { bridge_fee_percentage: fee_percentage, ..old(self)@.config },
                ..old(self)@
            }),
            old(self).wf() ==> final(self).wf(),
    {
        if !(caller == &self.self_id) {
            return Err(BridgeError::Unauthorized);
        }
        if fee_percentage > 100 {
            return Err(BridgeError::FeeTooHigh);
        }
        self.config.bridge_fee_percentage = fee_percentage;
        Ok(())
    }

    /// Administrative: sets the swap amount limits; the minimum must be
    /// strictly below the maximum.
    pub fn set_swap_limits(&mut self, caller: &Principal, min_amount: u64, max_amount: u64) -> (r:
        Result<(), BridgeError>)
        ensures
            caller@ != old(self)@.self_id ==> r == Err::<(), BridgeError>(BridgeError::Unauthorized)
                && final(self)@ == old(self)@,
            caller@ == old(self)@.self_id && min_amount >= max_amount ==> r == Err::<(
                ),
                BridgeError,
            >(BridgeError::InvalidAmount) && final(self)@ == old(self)@,
            caller@ == old(self)@.self_id && min_amount < max_amount ==> r == Ok::<(), BridgeError>(
                (),
            ) && final(self)@ == (BridgeView {
                config: BridgeConfigV {
                    min_swap_amount: min_amount,
                    max_swap_amount: max_amount,
                    ..old(self)@.config
                },
                ..old(self)@
            }),
            old(self).wf() ==> final(self).wf(),
    {
        if !(caller == &self.self_id) {
            return Err(BridgeError::Unauthorized);
        }
        if min_amount >= max_amount {
            return Err(BridgeError::InvalidAmount);
        }
        self.config.min_swap_amount = min_amount;
        self.config.max_swap_amount = max_amount;
        Ok(())
    }

    /// Administrative: grants or revokes a resolver.  Additions are
    /// idempotent; removals filter by equality.
    pub fn set_authorized_resolver(
        &mut self,
        caller: &Principal,
        resolver: &Principal,
        authorized: bool,
    ) -> (r: Result<(), BridgeError>)
        ensures
            caller@ != old(self)@.self_id ==> r == Err::<(), BridgeError>(BridgeError::Unauthorized)
                && final(self)@ == old(self)@,
            caller@ == old(self)@.self_id ==> {
                &&& r == Ok::<(), BridgeError>(())
                &&& authorized ==> (if old(self)@.config.authorized_resolvers.contains(resolver@) {
                    final(self)@ == old(self)@
                } else {
                    final(self)@ == (BridgeView {
                        config: BridgeConfigV {
                            authorized_resolvers: old(self)@.config.authorized_resolvers.push(
                                resolver@,
                            ),
                            ..old(self)@.config
                        },
                        ..old(self)@
                    })
                })
                &&& !authorized ==> {
                    &&& final(self)@.config.authorized_resolvers == old(
                        self,
                    )@.config.authorized_resolvers.filter(|p: Seq<u8>| p != resolver@)
                    &&& final(self)@ == (BridgeView {
                        config: BridgeConfigV {
                            authorized_resolvers: final(self)@.config.authorized_resolvers,
                            ..old(self)@.config
                        },
                        ..old(self)@
                    })
                }
            },
            old(self).wf() ==> final(self).wf(),
    {
        if !(caller == &self.self_id) {
            return Err(BridgeError::Unauthorized);
        }
        if authorized {
            if !principal_list_contains(&self.config.authorized_resolvers, resolver) {
                self.config.authorized_resolvers.push(resolver.clone());
                proof {
                    assert(self@.config.authorized_resolvers =~= old(
                        self,
                    )@.config.authorized_resolvers.push(resolver@));
                }
            }
        } else {
            let mut kept: Vec<Principal> = Vec::new();
            let n: usize = self.config.authorized_resolvers.len();
            let mut i: usize = 0;
            while i < n
                invariant
                    n == self.config.authorized_resolvers@.len(),
                    0 <= i <= n,
                    *self == *old(self),
                    kept@.map_values(|p: Principal| p@) =~= self.config.authorized_resolvers@.take(
                        i as int,
                    ).map_values(|p: Principal| p@).filter(|p: Seq<u8>| p != resolver@),
                decreases n - i,
            {
                let ghost prefix = self.config.authorized_resolvers@.take(i as int).map_values(
                    |p: Principal| p@,
                );
                proof {
                    assert(self.config.authorized_resolvers@.take(i as int + 1).drop_last()
                        =~= self.config.authorized_resolvers@.take(i as int));
                    reveal(Seq::filter);
                }
                let p = &self.config.authorized_resolvers[i];
                if !(p == resolver) {
                    kept.push(p.clone());
                    proof {
                        assert(kept@.map_values(|q: Principal| q@) =~= prefix.filter(
                            |q: Seq<u8>| q != resolver@,
                        ).push(p@));
                        assert(self.config.authorized_resolvers@.take(i as int + 1).map_values(
                            |q: Principal| q@,
                        ).drop_last() =~= prefix);
                        assert(self.config.authorized_resolvers@.take(i as int + 1).map_values(
                            |q: Principal| q@,
                        ).last() == p@);
                    }
                } else {
                    proof {
                        assert(self.config.authorized_resolvers@.take(i as int + 1).map_values(
                            |q: Principal| q@,
                        ).drop_last() =~= prefix);
                        assert(self.config.authorized_resolvers@.take(i as int + 1).map_values(
                            |q: Principal| q@,
                        ).last() == p@);
                    }
                }
                i = i + 1;
            }
            proof {
                assert(self.config.authorized_resolvers@.take(n as int)
                    =~= self.config.authorized_resolvers@);
            }
            self.config.authorized_resolvers = kept;
        }
        Ok(())
    }

    /// Administrative: enables or disables the cross-chain bridge, in
    /// both configuration records.
    pub fn set_chain_fusion_enabled(&mut self, caller: &Principal, enabled: bool) -> (r: Result<
        (),
        BridgeError,
    >)
        ensures
            caller@ != old(self)@.self_id ==> r == Err::<(), BridgeError>(BridgeError::Unauthorized)
                && final(self)@ == old(self)@,
            caller@ == old(self)@.self_id ==> r == Ok::<(), BridgeError>(()) && final(self)@ == (
            BridgeView {
                config: BridgeConfigV { chain_fusion_enabled: enabled, ..old(self)@.config },
                cf: ChainFusionConfigV { chain_fusion_enabled: enabled, ..old(self)@.cf },
                ..old(self)@
            }),
            old(self).wf() ==> final(self).wf(),
    {
        if !(caller == &self.self_id) {
            return Err(BridgeError::Unauthorized);
        }
        self.config.chain_fusion_enabled = enabled;
        self.cf_config.chain_fusion_enabled = enabled;
        Ok(())
    }

    /// Administrative: sets the destination contract address, in both
    /// configuration records.
    pub fn set_ethereum_contract_address(&mut self, caller: &Principal, address: String) -> (r:
        Result<(), BridgeError>)
        ensures
            caller@ != old(self)@.self_id ==> r == Err::<(), BridgeError>(BridgeError::Unauthorized)
                && final(self)@ == old(self)@,
            caller@ == old(self)@.self_id ==> r == Ok::<(), BridgeError>(()) && final(self)@ == (
            BridgeView {
                config: BridgeConfigV {
                    ethereum_contract_address: address@,
                    ..old(self)@.config
                },
                cf: ChainFusionConfigV { ethereum_contract_address: address@, ..old(self)@.cf },
                ..old(self)@
            }),
            old(self).wf() ==> final(self).wf(),
    {
        if !(caller == &self.self_id) {
            return Err(BridgeError::Unauthorized);
        }
        self.config.ethereum_contract_address = address.clone();
        self.cf_config.ethereum_contract_address = address;
        Ok(())
    }

    /// Administrative: points the engine at another native ledger.
    pub fn set_icp_ledger_canister_id(&mut self, caller: &Principal, canister_id: Principal) -> (r:
        Result<(), BridgeError>)
        ensures
            caller@ != old(self)@.self_id ==> r == Err::<(), BridgeError>(BridgeError::Unauthorized)
                && final(self)@ == old(self)@,
            caller@ == old(self)@.self_id ==> r == Ok::<(), BridgeError>(()) && final(self)@ == (
            BridgeView {
                config: BridgeConfigV {
                    icp_ledger_canister_id: canister_id@,
                    ..old(self)@.config
                },
                ..old(self)@
            }),
            old(self).wf() ==> final(self).wf(),
    {
        if !(caller == &self.self_id) {
            return Err(BridgeError::Unauthorized);
        }
        self.config.icp_ledger_canister_id = canister_id;
        Ok(())
    }
}

/// Whether a list of identities holds one with this view.
pub(crate) fn principal_list_contains(list: &Vec<Principal>, p: &Principal) -> (r: bool)
    ensures
        r == list@.map_values(|q: Principal| q@).contains(p@),
{
    let n: usize = list.len();
    let mut i: usize = 0;
    while i < n
        invariant
            n == list@.len(),
            0 <= i <= n,
            forall|j: int| 0 <= j < i ==> list@[j]@ != p@,
        decreases n - i,
    {
        if &list[i] == p {
            proof {
                assert(list@.map_values(|q: Principal| q@)[i as int] == p@);
            }
            return true;
        }
        i = i + 1;
    }
    proof {
        let m = list@.map_values(|q: Principal| q@);
        assert forall|j: int| 0 <= j < m.len() implies m[j] != p@ by {
            assert(m[j] == list@[j]@);
        }
    }
    false
}

/// The order the checks of `create_icp_swap` run in, before the
/// ledger-balance check: amount within limits, timelock within its
/// window, hashlock fresh.
pub open spec fn create_precheck(
    v: BridgeView,
    req: CreateSwapRequest,
    now: u64,
) -> Result<(), BridgeError> {
    if req.amount < v.config.min_swap_amount {
        Err(BridgeError::InvalidAmount)
    } else if req.amount > v.config.max_swap_amount {
        Err(BridgeError::InvalidAmount)
    } else if req.timelock <= now + 3600 {
        Err(BridgeError::TimelockTooShort)
    } else if req.timelock > now + 86400 {
        Err(BridgeError::TimelockTooLong)
    } else if v.used.contains(req.hashlock@) {
        Err(BridgeError::HashlockAlreadyUsed)
    } else {
        Ok(())
    }
}

/// The full checks of `create_icp_swap`, balance included.
pub open spec fn create_check(
    v: BridgeView,
    req: CreateSwapRequest,
    now: u64,
    balance: u64,
) -> Result<(), BridgeError> {
    match create_precheck(v, req, now) {
        Err(e) => Err(e),
        Ok(()) => if balance < req.amount {
            Err(BridgeError::InsufficientCanisterBalance)
        } else {
            Ok(())
        },
    }
}

/// The order a successful creation stores.
pub open spec fn created_order(
    req: CreateSwapRequest,
    caller: Seq<u8>,
    now: u64,
    bps: u64,
) -> SwapOrderV {
    SwapOrderV {
        ethereum_sender: req.ethereum_sender@,
        icp_recipient: caller,
        amount: net_of(req.amount, bps) as u64,
        hashlock: req.hashlock@,
        timelock: req.timelock,
        completed: false,
        refunded: false,
        created_at: now,
        cross_chain_id: view_opt_string(req.cross_chain_id),
        transfer_block_height: None,
    }
}

/// The outbound message a successful creation logs.
pub open spec fn created_msg(
    order_id: Seq<char>,
    hashlock: Seq<u8>,
    now: u64,
) -> CrossChainMessageV {
    CrossChainMessageV {
        source_chain: "icp"@,
        target_chain: "ethereum"@,
        order_id: order_id,
        message_type: "create"@,
        payload: hashlock,
        signature: None,
        timestamp: now,
    }
}

/// The checks of `complete_icp_swap` before its ledger transfer:
/// resolver authorization, existence, liveness, timelock still open,
/// preimage correct.
pub open spec fn complete_check(
    v: BridgeView,
    order_id: Seq<char>,
    caller: Seq<u8>,
    preimage: Seq<u8>,
    now: u64,
) -> Result<SwapOrderV, BridgeError> {
    if !v.config.authorized_resolvers.contains(caller) {
        Err(BridgeError::Unauthorized)
    } else if !v.orders.contains_key(order_id) {
        Err(BridgeError::OrderNotFound)
    } else if v.orders[order_id].completed || v.orders[order_id].refunded {
        Err(BridgeError::InvalidOrderState)
    } else if now >= v.orders[order_id].timelock {
        Err(BridgeError::TimelockExpired)
    } else if v.orders[order_id].hashlock != sha256_of(preimage) {
        Err(BridgeError::InvalidPreimage)
    } else {
        Ok(v.orders[order_id])
    }
}

/// Existence and liveness of an order about to settle.
pub open spec fn settle_check(v: BridgeView, order_id: Seq<char>) -> Result<
    SwapOrderV,
    BridgeError,
> {
    if !v.orders.contains_key(order_id) {
        Err(BridgeError::OrderNotFound)
    } else if v.orders[order_id].completed || v.orders[order_id].refunded {
        Err(BridgeError::InvalidOrderState)
    } else {
        Ok(v.orders[order_id])
    }
}

/// The checks `complete_icp_swap` repeats after its ledger transfer.
pub open spec fn complete_commit_check(
    v: BridgeView,
    order_id: Seq<char>,
    preimage: Seq<u8>,
) -> Result<SwapOrderV, BridgeError> {
    match settle_check(v, order_id) {
        Err(e) => Err(e),
        Ok(o) => if o.hashlock != sha256_of(preimage) {
            Err(BridgeError::InvalidPreimage)
        } else {
            Ok(o)
        },
    }
}

/// The checks of `refund_icp_swap` before its ledger transfer:
/// existence, liveness, timelock expired.
pub open spec fn refund_check(v: BridgeView, order_id: Seq<char>, now: u64) -> Result<
    SwapOrderV,
    BridgeError,
> {
    match settle_check(v, order_id) {
        Err(e) => Err(e),
        Ok(o) => if now < o.timelock {
            Err(BridgeError::TimelockNotExpired)
        } else {
            Ok(o)
        },
    }
}

impl BridgeState {
    /// First half of opening a swap: takes the latch and runs every
    /// check that needs no ledger answer.  The surrounding program then
    /// queries the ledger balance and calls `create_icp_swap`.
    pub fn create_icp_swap_begin(&mut self, req: &CreateSwapRequest, now: u64) -> (r: Result<
        (),
        BridgeError,
    >)
        requires
            old(self).wf(),
        ensures
            final(self).wf(),
            old(self)@.busy ==> r == Err::<(), BridgeError>(BridgeError::ReentrancyDetected)
                && final(self)@ == old(self)@,
            !old(self)@.busy ==> match r {
                Ok(()) => create_precheck(old(self)@, *req, now) is Ok && final(self)@ == (
                BridgeView { busy: true, ..old(self)@ }),
                Err(e) => create_precheck(old(self)@, *req, now) == Err::<(), BridgeError>(e)
                    && final(self)@ == old(self)@,
            },
    {
        if self.busy {
            return Err(BridgeError::ReentrancyDetected);
        }
        if req.amount < self.config.min_swap_amount {
            return Err(BridgeError::InvalidAmount);
        }
        if req.amount > self.config.max_swap_amount {
            return Err(BridgeError::InvalidAmount);
        }
        if (req.timelock as u128) <= (now as u128) + 3600 {
            return Err(BridgeError::TimelockTooShort);
        }
        if (req.timelock as u128) > (now as u128) + 86400 {
            return Err(BridgeError::TimelockTooLong);
        }
        if self.is_hashlock_used(&req.hashlock) {
            return Err(BridgeError::HashlockAlreadyUsed);
        }
        self.busy = true;
        Ok(())
    }

    /// Opens a swap: re-runs every check against the ledger balance the
    /// surrounding program fetched, withholds the bridge fee, stores
    /// the order under a derived id, records the hashlock as used, logs
    /// the outbound creation message, and releases the latch.
    pub fn create_icp_swap(
        &mut self,
        req: CreateSwapRequest,
        caller: &Principal,
        now: u64,
        balance: u64,
    ) -> (r: Result<String, BridgeError>)
        requires
            old(self).wf(),
        ensures
            final(self).wf(),
            old(self)@.used.is_prefix_of(final(self)@.used),
            final(self)@.busy == false,
            final(self)@.config == old(self)@.config,
            final(self)@.cf == old(self)@.cf,
            final(self)@.self_id == old(self)@.self_id,
            match r {
                Ok(id) => {
                    &&& create_check(old(self)@, req, now, balance) is Ok
                    &&& id@ == order_id_of(
                        req.ethereum_sender@,
                        caller@,
                        req.amount,
                        req.hashlock@,
                        req.timelock,
                        now,
                    )
                    &&& final(self)@.orders == old(self)@.orders.insert(
                        id@,
                        created_order(req, caller@, now, old(self)@.config.bridge_fee_percentage),
                    )
                    &&& final(self)@.used == old(self)@.used.push(req.hashlock@)
                    &&& final(self)@.msgs == old(self)@.msgs.insert(
                        id@,
                        created_msg(id@, req.hashlock@, now),
                    )
                    &&& final(self)@.balance == balance
                },
                Err(e) => {
                    &&& create_check(old(self)@, req, now, balance) == Err::<(), BridgeError>(e)
                    &&& final(self)@.orders == old(self)@.orders
                    &&& final(self)@.used == old(self)@.used
                    &&& final(self)@.msgs == old(self)@.msgs
                    &&& final(self)@.balance == (if e is InsufficientCanisterBalance {
                        balance
                    } else {
                        old(self)@.balance
                    })
                },
            },
    {
        self.busy = false;
        if req.amount < self.config.min_swap_amount {
            return Err(BridgeError::InvalidAmount);
        }
        if req.amount > self.config.max_swap_amount {
            return Err(BridgeError::InvalidAmount);
        }
        if (req.timelock as u128) <= (now as u128) + 3600 {
            return Err(BridgeError::TimelockTooShort);
        }
        if (req.timelock as u128) > (now as u128) + 86400 {
            return Err(BridgeError::TimelockTooLong);
        }
        if self.is_hashlock_used(&req.hashlock) {
            return Err(BridgeError::HashlockAlreadyUsed);
        }
        self.balance = balance;
        if balance < req.amount {
            return Err(BridgeError::InsufficientCanisterBalance);
        }
        let bps: u64 = self.config.bridge_fee_percentage;
        proof {
            lemma_mul_inequality(bps as int, 100, req.amount as int);
            lemma_mul_inequality(bps as int, 10000, req.amount as int);
            lemma_div_is_ordered(req.amount as int * bps as int, req.amount as int * 10000, 10000);
            lemma_div_multiples_vanish(req.amount as int, 10000);
            assert(fee_of(req.amount, bps) <= req.amount);
        }
        let bridge_fee: u64 = (((req.amount as u128) * (bps as u128)) / 10000) as u64;
        proof {
            assert(bridge_fee == fee_of(req.amount, bps));
        }
        let swap_amount: u64 = req.amount - bridge_fee;
        let order = SwapOrder {
            ethereum_sender: req.ethereum_sender.clone(),
            icp_recipient: caller.clone(),
            amount: swap_amount,
            hashlock: req.hashlock.clone(),
            timelock: req.timelock,
            completed: false,
            refunded: false,
            created_at: now,
            cross_chain_id: req.cross_chain_id.clone(),
            transfer_block_height: None,
        };
        proof {
            assert(order@ == created_order(req, caller@, now, bps)) by {
                assert(order.hashlock@ =~= req.hashlock@);
            }
        }
        let order_id = generate_order_id(
            &req.ethereum_sender,
            caller,
            req.amount,
            &req.hashlock,
            req.timelock,
            now,
        );
        self.orders.upsert(order_id.clone(), order);
        self.used_hashlocks.push(req.hashlock.clone());
        proof {
            assert(self@.used =~= old(self)@.used.push(req.hashlock@));
        }
        let msg = CrossChainMessage {
            source_chain: String::from_str("icp"),
            target_chain: String::from_str("ethereum"),
            order_id: order_id.clone(),
            message_type: String::from_str("create"),
            payload: req.hashlock,
            signature: None,
            timestamp: now,
        };
        proof {
            assert(msg@ == created_msg(order_id@, req.hashlock@, now));
        }
        self.msgs.upsert(order_id.clone(), msg);
        proof {
            let pre = old(self)@;
            let post = self@;
            let id = order_id@;
            assert forall|k: Seq<char>| #[trigger]
                post.orders.contains_key(k) implies !(post.orders[k].completed
                && post.orders[k].refunded) && post.used.contains(post.orders[k].hashlock) && (
            post.orders[k].completed ==> exists|p: Seq<u8>|
                sha256_of(p) == post.orders[k].hashlock) by {
                if k == id {
                    assert(post.used[post.used.len() - 1] == req.hashlock@);
                } else {
                    assert(pre.orders.contains_key(k));
                    let h = pre.orders[k].hashlock;
                    assert(pre.used.contains(h));
                    let i = choose|i: int| 0 <= i < pre.used.len() && pre.used[i] == h;
                    assert(post.used[i] == h);
                }
            }
        }
        Ok(order_id)
    }

    /// First half of completing a swap: takes the latch and checks the
    /// resolver, the order, the timelock and the preimage.  On success
    /// the surrounding program carries out the returned payout and then
    /// calls `complete_icp_swap_commit`, or `release_guard` if the
    /// payout failed.
    pub fn complete_icp_swap_begin(
        &mut self,
        order_id: &String,
        caller: &Principal,
        preimage: &Vec<u8>,
        now: u64,
    ) -> (r: Result<TransferPlan, BridgeError>)
        requires
            old(self).wf(),
        ensures
            final(self).wf(),
            old(self)@.busy ==> (r matches Err(e) && e == BridgeError::ReentrancyDetected)
                && final(self)@ == old(self)@,
            !old(self)@.busy ==> match r {
                Ok(plan) => {
                    &&& complete_check(old(self)@, order_id@, caller@, preimage@, now)
                        == Ok::<SwapOrderV, BridgeError>(old(self)@.orders[order_id@])
                    &&& plan.recipient@ == old(self)@.orders[order_id@].icp_recipient
                    &&& plan.amount == old(self)@.orders[order_id@].amount
                    &&& final(self)@ == (BridgeView { busy: true, ..old(self)@ })
                },
                Err(e) => complete_check(old(self)@, order_id@, caller@, preimage@, now) == Err::<
                    SwapOrderV,
                    BridgeError,
                >(e) && final(self)@ == old(self)@,
            },
    {
        if self.busy {
            return Err(BridgeError::ReentrancyDetected);
        }
        if !principal_list_contains(&self.config.authorized_resolvers, caller) {
            return Err(BridgeError::Unauthorized);
        }
        let plan = match self.orders.get(order_id) {
            None => {
                return Err(BridgeError::OrderNotFound);
            },
            Some(o) => {
                if o.completed || o.refunded {
                    return Err(BridgeError::InvalidOrderState);
                }
                if now >= o.timelock {
                    return Err(BridgeError::TimelockExpired);
                }
                if !crate::crypto::verify_hashlock(o.hashlock.as_slice(), preimage.as_slice()) {
                    return Err(BridgeError::InvalidPreimage);
                }
                TransferPlan { recipient: o.icp_recipient.clone(), amount: o.amount }
            },
        };
        self.busy = true;
        Ok(plan)
    }

    /// Second half of completing a swap, called once the payout
    /// settled: re-checks the order and the preimage, marks the order
    /// completed, records the transfer's block height, debits the
    /// cached balance, releases the latch, and hands back the outbound
    /// emission if the bridge is enabled.
    pub fn complete_icp_swap_commit(
        &mut self,
        order_id: &String,
        preimage: &Vec<u8>,
        block_height: u64,
    ) -> (r: Result<Option<EvmEmission>, BridgeError>)
        requires
            old(self).wf(),
        ensures
            final(self).wf(),
            final(self)@.used == old(self)@.used,
            final(self)@.msgs == old(self)@.msgs,
            final(self)@.config == old(self)@.config,
            final(self)@.cf == old(self)@.cf,
            final(self)@.self_id == old(self)@.self_id,
            final(self)@.busy == false,
            match r {
                Ok(em) => {
                    &&& complete_commit_check(old(self)@, order_id@, preimage@)
                        == Ok::<SwapOrderV, BridgeError>(old(self)@.orders[order_id@])
                    &&& final(self)@.orders == old(self)@.orders.insert(
                        order_id@,
                        SwapOrderV {
                            completed: true,
                            transfer_block_height: Some(block_height),
                            ..old(self)@.orders[order_id@]
                        },
                    )
                    &&& final(self)@.balance == (if old(self)@.balance >= old(
                        self,
                    )@.orders[order_id@].amount {
                        (old(self)@.balance - old(self)@.orders[order_id@].amount) as u64
                    } else {
                        old(self)@.balance
                    })
                    &&& (match em {
                        Some(e2) => old(self)@.config.chain_fusion_enabled
                            && e2.transaction_data@ == preimage@ && e2.to_address@ == old(
                            self,
                        )@.config.ethereum_contract_address && e2.value == 0,
                        None => !old(self)@.config.chain_fusion_enabled,
                    })
                },
                Err(e) => complete_commit_check(old(self)@, order_id@, preimage@) == Err::<
                    SwapOrderV,
                    BridgeError,
                >(e) && final(self)@.orders == old(self)@.orders && final(self)@.balance == old(
                    self,
                )@.balance,
            },
    {
        self.busy = false;
        let updated = match self.orders.get(order_id) {
            None => {
                return Err(BridgeError::OrderNotFound);
            },
            Some(o) => {
                if o.completed || o.refunded {
                    return Err(BridgeError::InvalidOrderState);
                }
                if !crate::crypto::verify_hashlock(o.hashlock.as_slice(), preimage.as_slice()) {
                    return Err(BridgeError::InvalidPreimage);
                }
                let mut updated = o.clone();
                updated.completed = true;
                updated.transfer_block_height = Some(block_height);
                updated
            },
        };
        let amount = updated.amount;
        proof {
            assert(updated@ == SwapOrderV {
                completed: true,
                transfer_block_height: Some(block_height),
                ..old(self)@.orders[order_id@]
            });
        }
        self.orders.upsert(order_id.clone(), updated);
        if self.balance >= amount {
            self.balance = self.balance - amount;
        }
        let emission = if self.config.chain_fusion_enabled {
            Some(
                EvmEmission {
                    transaction_data: preimage.clone(),
                    to_address: self.config.ethereum_contract_address.clone(),
                    value: 0,
                },
            )
        } else {
            None
        };
        proof {
            let pre = old(self)@;
            let post = self@;
            let id = order_id@;
            assert(post.used =~= pre.used);
            assert forall|k: Seq<char>| #[trigger]
                post.orders.contains_key(k) implies !(post.orders[k].completed
                && post.orders[k].refunded) && post.used.contains(post.orders[k].hashlock) && (
            post.orders[k].completed ==> exists|p: Seq<u8>|
                sha256_of(p) == post.orders[k].hashlock) by {
                if k == id {
                    assert(post.orders[k].hashlock == sha256_of(preimage@));
                } else {
                    assert(pre.orders.contains_key(k));
                }
            }
            match &emission {
                Some(e2) => {
                    assert(e2.transaction_data@ =~= preimage@);
                },
                None => {},
            }
        }
        Ok(emission)
    }

    /// First half of refunding a swap: takes the latch and checks the
    /// order and that its timelock has expired.  On success the
    /// surrounding program carries out the returned payout and then
    /// calls `refund_icp_swap_commit`, or `release_guard` if the payout
    /// failed.
    pub fn refund_icp_swap_begin(&mut self, order_id: &String, now: u64) -> (r: Result<
        TransferPlan,
        BridgeError,
    >)
        requires
            old(self).wf(),
        ensures
            final(self).wf(),
            old(self)@.busy ==> (r matches Err(e) && e == BridgeError::ReentrancyDetected)
                && final(self)@ == old(self)@,
            !old(self)@.busy ==> match r {
                Ok(plan) => {
                    &&& refund_check(old(self)@, order_id@, now) == Ok::<SwapOrderV, BridgeError>(
                        old(self)@.orders[order_id@],
                    )
                    &&& plan.recipient@ == old(self)@.orders[order_id@].icp_recipient
                    &&& plan.amount == old(self)@.orders[order_id@].amount
                    &&& final(self)@ == (BridgeView { busy: true, ..old(self)@ })
                },
                Err(e) => refund_check(old(self)@, order_id@, now) == Err::<
                    SwapOrderV,
                    BridgeError,
                >(e) && final(self)@ == old(self)@,
            },
    {
        if self.busy {
            return Err(BridgeError::ReentrancyDetected);
        }
        let plan = match self.orders.get(order_id) {
            None => {
                return Err(BridgeError::OrderNotFound);
            },
            Some(o) => {
                if o.completed || o.refunded {
                    return Err(BridgeError::InvalidOrderState);
                }
                if now < o.timelock {
                    return Err(BridgeError::TimelockNotExpired);
                }
                TransferPlan { recipient: o.icp_recipient.clone(), amount: o.amount }
            },
        };
        self.busy = true;
        Ok(plan)
    }

    /// Second half of refunding a swap, called once the payout settled:
    /// re-checks the order, marks it refunded, records the transfer's
    /// block height, releases the latch, and hands back the outbound
    /// emission (the order id's bytes) if the bridge is enabled.
    pub fn refund_icp_swap_commit(&mut self, order_id: &String, block_height: u64) -> (r: Result<
        Option<EvmEmission>,
        BridgeError,
    >)
        requires
            old(self).wf(),
        ensures
            final(self).wf(),
            final(self)@.used == old(self)@.used,
            final(self)@.msgs == old(self)@.msgs,
            final(self)@.config == old(self)@.config,
            final(self)@.cf == old(self)@.cf,
            final(self)@.self_id == old(self)@.self_id,
            final(self)@.balance == old(self)@.balance,
            final(self)@.busy == false,
            match r {
                Ok(em) => {
                    &&& settle_check(old(self)@, order_id@) == Ok::<SwapOrderV, BridgeError>(
                        old(self)@.orders[order_id@],
                    )
                    &&& final(self)@.orders == old(self)@.orders.insert(
                        order_id@,
                        SwapOrderV {
                            refunded: true,
                            transfer_block_height: Some(block_height),
                            ..old(self)@.orders[order_id@]
                        },
                    )
                    &&& (match em {
                        Some(e2) => old(self)@.config.chain_fusion_enabled
                            && e2.transaction_data@ == encode_utf8(order_id@) && e2.to_address@
                            == old(self)@.config.ethereum_contract_address && e2.value == 0,
                        None => !old(self)@.config.chain_fusion_enabled,
                    })
                },
                Err(e) => settle_check(old(self)@, order_id@) == Err::<SwapOrderV, BridgeError>(e)
                    && final(self)@.orders == old(self)@.orders,
            },
    {
        self.busy = false;
        let updated = match self.orders.get(order_id) {
            None => {
                return Err(BridgeError::OrderNotFound);
            },
            Some(o) => {
                if o.completed || o.refunded {
                    return Err(BridgeError::InvalidOrderState);
                }
                let mut updated = o.clone();
                updated.refunded = true;
                updated.transfer_block_height = Some(block_height);
                updated
            },
        };
        proof {
            assert(updated@ == SwapOrderV {
                refunded: true,
                transfer_block_height: Some(block_height),
                ..old(self)@.orders[order_id@]
            });
        }
        self.orders.upsert(order_id.clone(), updated);
        let emission = if self.config.chain_fusion_enabled {
            Some(
                EvmEmission {
                    transaction_data: order_id.as_str().as_bytes_vec(),
                    to_address: self.config.ethereum_contract_address.clone(),
                    value: 0,
                },
            )
        } else {
            None
        };
        proof {
            let pre = old(self)@;
            let post = self@;
            let id = order_id@;
            assert(post.used =~= pre.used);
            assert forall|k: Seq<char>| #[trigger]
                post.orders.contains_key(k) implies !(post.orders[k].completed
                && post.orders[k].refunded) && post.used.contains(post.orders[k].hashlock) && (
            post.orders[k].completed ==> exists|p: Seq<u8>|
                sha256_of(p) == post.orders[k].hashlock) by {
                if k != id {
                    assert(pre.orders.contains_key(k));
                }
            }
        }
        Ok(emission)
    }
}

/// Appends the big-endian bytes of a 64-bit integer.
fn push_u64_be(dst: &mut Vec<u8>, x: u64)
    ensures
        final(dst)@ == old(dst)@ + u64_be(x),
{
    dst.push((x >> 56) as u8);
    dst.push((x >> 48) as u8);
    dst.push((x >> 40) as u8);
    dst.push((x >> 32) as u8);
    dst.push((x >> 24) as u8);
    dst.push((x >> 16) as u8);
    dst.push((x >> 8) as u8);
    dst.push(x as u8);
    proof {
        assert(dst@ =~= old(dst)@ + u64_be(x));
    }
}

/// Appends a byte string.
fn push_bytes(dst: &mut Vec<u8>, src: &[u8])
    ensures
        final(dst)@ == old(dst)@ + src@,
{
    let n: usize = src.len();
    let mut i: usize = 0;
    while i < n
        invariant
            n == src@.len(),
            0 <= i <= n,
            dst@ == old(dst)@ + src@.take(i as int),
        decreases n - i,
    {
        dst.push(src[i]);
        proof {
            assert(dst@ =~= old(dst)@ + src@.take(i as int + 1));
        }
        i = i + 1;
    }
    proof {
        assert(src@.take(n as int) =~= src@);
    }
}

/// Derives an order id from the creation inputs and the clock:
/// deterministic on its inputs, rendered as lowercase hex.
pub fn generate_order_id(
    ethereum_sender: &String,
    icp_recipient: &Principal,
    amount: u64,
    hashlock: &Vec<u8>,
    timelock: u64,
    now: u64,
) -> (r: String)
    ensures
        r@ == order_id_of(ethereum_sender@, icp_recipient@, amount, hashlock@, timelock, now),
{
    let sender_bytes: &[u8] = ethereum_sender.as_str().as_bytes();
    let recipient_bytes: &[u8] = icp_recipient.as_bytes().as_slice();
    let mut m: Vec<u8> = Vec::new();
    push_u64_be(&mut m, sender_bytes.len() as u64);
    push_bytes(&mut m, sender_bytes);
    push_u64_be(&mut m, recipient_bytes.len() as u64);
    push_bytes(&mut m, recipient_bytes);
    push_u64_be(&mut m, amount);
    push_u64_be(&mut m, hashlock.len() as u64);
    push_bytes(&mut m, hashlock.as_slice());
    push_u64_be(&mut m, timelock);
    push_u64_be(&mut m, now);
    proof {
        assert(m@ =~= order_id_material(
            ethereum_sender@,
            icp_recipient@,
            amount,
            hashlock@,
            timelock,
            now,
        ));
    }
    let digest = compute_hashlock(m.as_slice());
    hex_encode(digest.as_slice())
}

/// A native-ledger payout the engine asks the surrounding program to
/// carry out.
pub struct TransferPlan {
    pub recipient: Principal,
    pub amount: u64,
}

/// An outbound transaction the engine asks the bridge to emit.
pub struct EvmEmission {
    pub transaction_data: Vec<u8>,
    pub to_address: String,
    pub value: u64,
}

/// Nanoseconds since the epoch for a clock reading in seconds,
/// saturating at the integer's maximum.
pub open spec fn nanos_of(now: u64) -> u64 {
    if now * 1_000_000_000 <= 0xFFFF_FFFF_FFFF_FFFFu64 {
        (now * 1_000_000_000) as u64
    } else {
        0xFFFF_FFFF_FFFF_FFFFu64
    }
}

/// The fixed per-transfer fee of the native ledger, in smallest units.
pub open spec fn spec_ledger_fee() -> u64 {
    10_000
}

/// Builds the native-ledger arguments for a swap payout.
pub fn swap_transfer_args(plan: &TransferPlan, now: u64) -> (r: TransferArgs)
    ensures
        r.to.owner@ == plan.recipient@,
        r.to.subaccount is None,
        r.amount == plan.amount,
        r.fee == Some(spec_ledger_fee()),
        r.created_at_time == Some(nanos_of(now)),
        r.from_subaccount is None,
        r.memo matches Some(memo) && memo@ == encode_utf8("Doraemon Bridge Swap"@),
{
    TransferArgs {
        to: Account { owner: plan.recipient.clone(), subaccount: None },
        fee: Some(10_000),
        memo: Some("Doraemon Bridge Swap".as_bytes_vec()),
        from_subaccount: None,
        created_at_time: Some(seconds_to_nanos(now)),
        amount: plan.amount,
    }
}

/// Builds the native-ledger arguments for a refund payout.
pub fn refund_transfer_args(plan: &TransferPlan, now: u64) -> (r: TransferArgs)
    ensures
        r.to.owner@ == plan.recipient@,
        r.to.subaccount is None,
        r.amount == plan.amount,
        r.fee == Some(spec_ledger_fee()),
        r.created_at_time == Some(nanos_of(now)),
        r.from_subaccount is None,
        r.memo matches Some(memo) && memo@ == encode_utf8("Doraemon Bridge Refund"@),
{
    TransferArgs {
        to: Account { owner: plan.recipient.clone(), subaccount: None },
        fee: Some(10_000),
        memo: Some("Doraemon Bridge Refund".as_bytes_vec()),
        from_subaccount: None,
        created_at_time: Some(seconds_to_nanos(now)),
        amount: plan.amount,
    }
}

/// Seconds to nanoseconds, saturating at the integer's maximum.
fn seconds_to_nanos(now: u64) -> (r: u64)
    ensures
        r == nanos_of(now),
{
    if now <= 0xFFFF_FFFF_FFFF_FFFFu64 / 1_000_000_000 {
        now * 1_000_000_000
    } else {
        0xFFFF_FFFF_FFFF_FFFFu64
    }
}

impl BridgeState {
    /// A short status line naming the engine's mode.
    pub fn get_canister_status(&self) -> (r: String)
        ensures
            self@.config.chain_fusion_enabled ==> r@
                == "ICP Bridge Canister - Active with Chain Fusion and Real Transfers"@,
            !self@.config.chain_fusion_enabled ==> r@
                == "ICP Bridge Canister - Active with Real Transfers"@,
    {
        if self.config.chain_fusion_enabled {
            String::from_str("ICP Bridge Canister - Active with Chain Fusion and Real Transfers")
        } else {
            String::from_str("ICP Bridge Canister - Active with Real Transfers")
        }
    }
}

/// A greeting, echoing the caller's name.
pub fn greet(name: String) -> (r: String)
    ensures
        r@ == "Hello, "@ + name@ + "! ICP Bridge is running with real transfers and Chain Fusion."@,
{
    let mut s = String::from_str("Hello, ");
    s.append(name.as_str());
    s.append("! ICP Bridge is running with real transfers and Chain Fusion.");
    s
}

} // verus!
