use vstd::prelude::*;

use crate::principal::Principal;

verus! {

/// A ledger account: an owner identity and an optional subaccount.
pub struct Account {
    pub owner: Principal,
    pub subaccount: Option<Vec<u8>>,
}

/// Arguments of a native-ledger transfer, assembled by the engine and
/// carried out by the surrounding program.
pub struct TransferArgs {
    pub to: Account,
    pub fee: Option<u64>,
    pub memo: Option<Vec<u8>>,
    pub from_subaccount: Option<Vec<u8>>,
    pub created_at_time: Option<u64>,
    pub amount: u64,
}

/// What the native ledger reports for a settled transfer.
pub struct TransferResult {
    pub block_height: u64,
    pub transfer: Transfer,
}

/// The ledger's echo of a transfer it settled.
pub struct Transfer {
    pub to: Account,
    pub fee: u64,
    pub memo: Vec<u8>,
    pub from_subaccount: Option<Vec<u8>>,
    pub created_at_time: Option<u64>,
    pub amount: u64,
}

/// A hashed-timelock swap order on the escrow's books.
pub struct SwapOrder {
    pub ethereum_sender: String,
    pub icp_recipient: Principal,
    pub amount: u64,
    pub hashlock: Vec<u8>,
    pub timelock: u64,
    pub completed: bool,
    pub refunded: bool,
    pub created_at: u64,
    pub cross_chain_id: Option<String>,
    pub transfer_block_height: Option<u64>,
}

/// The abstract value of a `SwapOrder`.
pub ghost struct SwapOrderV {
    pub ethereum_sender: Seq<char>,
    pub icp_recipient: Seq<u8>,
    pub amount: u64,
    pub hashlock: Seq<u8>,
    pub timelock: u64,
    pub completed: bool,
    pub refunded: bool,
    pub created_at: u64,
    pub cross_chain_id: Option<Seq<char>>,
    pub transfer_block_height: Option<u64>,
}

/// The abstract value of an optional string.
pub open spec fn view_opt_string(o: Option<String>) -> Option<Seq<char>> {
    match o {
        Some(s) => Some(s@),
        None => None,
    }
}

/// The abstract value of optional bytes.
pub open spec fn view_opt_bytes(o: Option<Vec<u8>>) -> Option<Seq<u8>> {
    match o {
        Some(b) => Some(b@),
        None => None,
    }
}

impl View for SwapOrder {
    type V = SwapOrderV;

    open spec fn view(&self) -> SwapOrderV {
        SwapOrderV {
            ethereum_sender: self.ethereum_sender@,
            icp_recipient: self.icp_recipient@,
            amount: self.amount,
            hashlock: self.hashlock@,
            timelock: self.timelock,
            completed: self.completed,
            refunded: self.refunded,
            created_at: self.created_at,
            cross_chain_id: view_opt_string(self.cross_chain_id),
            transfer_block_height: self.transfer_block_height,
        }
    }
}

impl Clone for SwapOrder {
    fn clone(&self) -> (r: Self)
        ensures
            r@ == self@,
    {
        let r = SwapOrder {
            ethereum_sender: self.ethereum_sender.clone(),
            icp_recipient: self.icp_recipient.clone(),
            amount: self.amount,
            hashlock: self.hashlock.clone(),
            timelock: self.timelock,
            completed: self.completed,
            refunded: self.refunded,
            created_at: self.created_at,
            cross_chain_id: self.cross_chain_id.clone(),
            transfer_block_height: self.transfer_block_height,
        };
        proof {
            assert(r.hashlock@ =~= self.hashlock@);
        }
        r
    }
}

/// What a caller submits to open an HTLC swap.
pub struct CreateSwapRequest {
    pub ethereum_sender: String,
    pub amount: u64,
    pub hashlock: Vec<u8>,
    pub timelock: u64,
    pub cross_chain_id: Option<String>,
}

/// What a resolver submits to complete an HTLC swap.
pub struct CompleteSwapRequest {
    pub order_id: String,
    pub preimage: Vec<u8>,
}

/// What a caller submits to refund an HTLC swap.
pub struct RefundSwapRequest {
    pub order_id: String,
}

/// A message exchanged with the opposite chain.
pub struct CrossChainMessage {
    pub source_chain: String,
    pub target_chain: String,
    pub order_id: String,
    pub message_type: String,
    pub payload: Vec<u8>,
    pub signature: Option<Vec<u8>>,
    pub timestamp: u64,
}

/// The abstract value of a `CrossChainMessage`.
pub ghost struct CrossChainMessageV {
    pub source_chain: Seq<char>,
    pub target_chain: Seq<char>,
    pub order_id: Seq<char>,
    pub message_type: Seq<char>,
    pub payload: Seq<u8>,
    pub signature: Option<Seq<u8>>,
    pub timestamp: u64,
}

impl View for CrossChainMessage {
    type V = CrossChainMessageV;

    open spec fn view(&self) -> CrossChainMessageV {
        CrossChainMessageV {
            source_chain: self.source_chain@,
            target_chain: self.target_chain@,
            order_id: self.order_id@,
            message_type: self.message_type@,
            payload: self.payload@,
            signature: view_opt_bytes(self.signature),
            timestamp: self.timestamp,
        }
    }
}

impl Clone for CrossChainMessage {
    fn clone(&self) -> (r: Self)
        ensures
            r@ == self@,
    {
        let r = CrossChainMessage {
            source_chain: self.source_chain.clone(),
            target_chain: self.target_chain.clone(),
            order_id: self.order_id.clone(),
            message_type: self.message_type.clone(),
            payload: self.payload.clone(),
            signature: self.signature.clone(),
            timestamp: self.timestamp,
        };
        proof {
            assert(r.payload@ =~= self.payload@);
            match &self.signature {
                Some(b) => {
                    assert(r.signature is Some);
                    assert(r.signature.unwrap()@ =~= b@);
                },
                None => {},
            }
        }
        r
    }
}

/// The bridge engine's configuration.
pub struct BridgeConfig {
    pub bridge_fee_percentage: u64,
    pub min_swap_amount: u64,
    pub max_swap_amount: u64,
    pub authorized_resolvers: Vec<Principal>,
    pub ethereum_contract_address: String,
    pub chain_fusion_enabled: bool,
    pub icp_ledger_canister_id: Principal,
}

/// The abstract value of a `BridgeConfig`.
pub ghost struct BridgeConfigV {
    pub bridge_fee_percentage: u64,
    pub min_swap_amount: u64,
    pub max_swap_amount: u64,
    pub authorized_resolvers: Seq<Seq<u8>>,
    pub ethereum_contract_address: Seq<char>,
    pub chain_fusion_enabled: bool,
    pub icp_ledger_canister_id: Seq<u8>,
}

impl View for BridgeConfig {
    type V = BridgeConfigV;

    open spec fn view(&self) -> BridgeConfigV {
        BridgeConfigV {
            bridge_fee_percentage: self.bridge_fee_percentage,
            min_swap_amount: self.min_swap_amount,
            max_swap_amount: self.max_swap_amount,
            authorized_resolvers: self.authorized_resolvers@.map_values(|p: Principal| p@),
            ethereum_contract_address: self.ethereum_contract_address@,
            chain_fusion_enabled: self.chain_fusion_enabled,
            icp_ledger_canister_id: self.icp_ledger_canister_id@,
        }
    }
}

impl Clone for BridgeConfig {
    fn clone(&self) -> (r: Self)
        ensures
            r@ == self@,
    {
        let r = BridgeConfig {
            bridge_fee_percentage: self.bridge_fee_percentage,
            min_swap_amount: self.min_swap_amount,
            max_swap_amount: self.max_swap_amount,
            authorized_resolvers: self.authorized_resolvers.clone(),
            ethereum_contract_address: self.ethereum_contract_address.clone(),
            chain_fusion_enabled: self.chain_fusion_enabled,
            icp_ledger_canister_id: self.icp_ledger_canister_id.clone(),
        };
        proof {
            assert forall|i: int|
                0 <= i < r.authorized_resolvers@.len() implies r.authorized_resolvers@[i]@ == self
                .authorized_resolvers@[i]@ by {
            }
            assert(r.authorized_resolvers@.map_values(|p: Principal| p@) =~= self
                .authorized_resolvers@.map_values(|p: Principal| p@));
        }
        r
    }
}

impl Default for BridgeConfig {
    /// The configuration the engine starts with: a 10 basis-point fee,
    /// swap limits of 10^15 and 10^18 smallest units, no resolvers, the
    /// bridge disabled, and the mainnet ledger `ryjl3-tyaaa-aaaaa-aaaba-cai`
    /// (given by its raw bytes).
    fn default() -> (r: Self)
        ensures
            r.bridge_fee_percentage == 10,
            r.min_swap_amount == 1_000_000_000_000_000u64,
            r.max_swap_amount == 1_000_000_000_000_000_000u64,
            r@.authorized_resolvers == Seq::<Seq<u8>>::empty(),
            r.ethereum_contract_address@ == Seq::<char>::empty(),
            !r.chain_fusion_enabled,
            r.icp_ledger_canister_id@ == default_ledger_id(),
    {
        let ledger_bytes: Vec<u8> = vec![0u8, 0u8, 0u8, 0u8, 0u8, 0u8, 0u8, 2u8, 1u8, 1u8];
        proof {
            assert(ledger_bytes@ =~= default_ledger_id());
        }
        let r = BridgeConfig {
            bridge_fee_percentage: 10,
            min_swap_amount: 1_000_000_000_000_000,
            max_swap_amount: 1_000_000_000_000_000_000,
            authorized_resolvers: Vec::new(),
            ethereum_contract_address: String::new(),
            chain_fusion_enabled: false,
            icp_ledger_canister_id: Principal::from_bytes(ledger_bytes),
        };
        proof {
            assert(r@.authorized_resolvers =~= Seq::<Seq<u8>>::empty());
        }
        r
    }
}

/// The raw bytes of the mainnet native-ledger identity.
pub open spec fn default_ledger_id() -> Seq<u8> {
    seq![0u8, 0u8, 0u8, 0u8, 0u8, 0u8, 0u8, 2u8, 1u8, 1u8]
}

/// The cross-chain signing subsystem's configuration.
pub struct ChainFusionConfig {
    pub evm_canister_id: Option<Principal>,
    pub ethereum_contract_address: String,
    pub authorized_ethereum_senders: Vec<String>,
    pub chain_fusion_enabled: bool,
}

/// The abstract value of a `ChainFusionConfig`.
pub ghost struct ChainFusionConfigV {
    pub evm_canister_id: Option<Seq<u8>>,
    pub ethereum_contract_address: Seq<char>,
    pub authorized_ethereum_senders: Seq<Seq<char>>,
    pub chain_fusion_enabled: bool,
}

impl View for ChainFusionConfig {
    type V = ChainFusionConfigV;

    open spec fn view(&self) -> ChainFusionConfigV {
        ChainFusionConfigV {
            evm_canister_id: match self.evm_canister_id {
                Some(p) => Some(p@),
                None => None,
            },
            ethereum_contract_address: self.ethereum_contract_address@,
            authorized_ethereum_senders: self.authorized_ethereum_senders@.map_values(
                |s: String| s@,
            ),
            chain_fusion_enabled: self.chain_fusion_enabled,
        }
    }
}

} // verus!
