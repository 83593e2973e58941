use vstd::prelude::*;

use crate::crypto::hex_digit;
use crate::crypto::hex_encode;
use crate::crypto::hex_of;
use crate::errors::BridgeError;
use crate::htlc::BridgeState;
use crate::htlc::BridgeView;
use crate::htlc_types::CrossChainMessage;
use crate::htlc_types::CrossChainMessageV;
use crate::principal::Principal;
use vstd::string::StringExecFns;

verus! {

/// Relies on `std::time::SystemTime`: the wall clock, read once and
/// reduced to whole seconds since the Unix epoch (zero if the clock
/// reads before the epoch).  Nothing is promised of the value.
#[verifier::external_body]
pub fn current_timestamp() -> u64 {
    match std::time::SystemTime::now().duration_since(std::time::UNIX_EPOCH) {
        Ok(d) => d.as_secs(),
        Err(_) => 0,
    }
}

/// Whether a cross-chain message is acceptable at time `now`: its
/// timestamp is not in the future and at most an hour old, its type is
/// one of the three lifecycle messages, and both chains are known.
pub open spec fn message_valid(m: CrossChainMessageV, now: u64) -> bool {
    &&& m.timestamp <= now <= m.timestamp + 3600
    &&& (m.message_type == "create"@ || m.message_type == "complete"@ || m.message_type
        == "refund"@)
    &&& (m.source_chain == "ethereum"@ || m.source_chain == "icp"@)
    &&& (m.target_chain == "ethereum"@ || m.target_chain == "icp"@)
}

/// Whether this string is that literal.
fn str_matches(s: &String, lit: &str) -> (r: bool)
    ensures
        r == (s@ == lit@),
{
    let other = String::from_str(lit);
    s.eq(&other)
}

/// Checks a cross-chain message against an explicit clock reading.
pub fn message_valid_at(message: &CrossChainMessage, now: u64) -> (r: bool)
    ensures
        r == message_valid(message@, now),
{
    if now < message.timestamp {
        return false;
    }
    if (now as u128) > (message.timestamp as u128) + 3600 {
        return false;
    }
    if !(str_matches(&message.message_type, "create") || str_matches(
        &message.message_type,
        "complete",
    ) || str_matches(&message.message_type, "refund")) {
        return false;
    }
    if !(str_matches(&message.source_chain, "ethereum") || str_matches(
        &message.source_chain,
        "icp",
    )) {
        return false;
    }
    if !(str_matches(&message.target_chain, "ethereum") || str_matches(
        &message.target_chain,
        "icp",
    )) {
        return false;
    }
    true
}

/// Checks a cross-chain message against the clock.  The clock's value
/// is not specified; `message_valid_at` carries the exact contract.
pub fn verify_cross_chain_message(message: &CrossChainMessage) -> (r: bool)
    ensures
        exists|t: u64| r == message_valid(message@, t),
{
    let now = current_timestamp();
    let r = message_valid_at(message, now);
    proof {
        assert(r == message_valid(message@, now));
    }
    r
}

/// What the surrounding program must send to the signing subsystem: the
/// subsystem's identity and the serialized transaction.
pub struct EvmTransactionRequest {
    pub evm_canister_id: Principal,
    pub payload: String,
}

/// Minimal-length lowercase hexadecimal rendering of an integer.
pub open spec fn hex_u64(x: u64) -> Seq<char>
    decreases x,
{
    if x < 16 {
        seq![hex_digit(x as int)]
    } else {
        hex_u64((x / 16) as u64) + seq![hex_digit((x % 16) as int)]
    }
}

/// The hexadecimal digit for a nibble, as a string slice.
fn hex_digit_str(n: u64) -> (r: &'static str)
    requires
        n < 16,
    ensures
        r@ == seq![hex_digit(n as int)],
{
    let r: &'static str = match n {
        0 => "0",
        1 => "1",
        2 => "2",
        3 => "3",
        4 => "4",
        5 => "5",
        6 => "6",
        7 => "7",
        8 => "8",
        9 => "9",
        10 => "a",
        11 => "b",
        12 => "c",
        13 => "d",
        14 => "e",
        _ => "f",
    };
    proof {
        reveal_strlit("0");
        reveal_strlit("1");
        reveal_strlit("2");
        reveal_strlit("3");
        reveal_strlit("4");
        reveal_strlit("5");
        reveal_strlit("6");
        reveal_strlit("7");
        reveal_strlit("8");
        reveal_strlit("9");
        reveal_strlit("a");
        reveal_strlit("b");
        reveal_strlit("c");
        reveal_strlit("d");
        reveal_strlit("e");
        reveal_strlit("f");
        assert(r@ =~= seq![hex_digit(n as int)]);
    }
    r
}

/// Renders an integer in minimal-length lowercase hexadecimal.
pub fn u64_hex_string(x: u64) -> (r: String)
    ensures
        r@ == hex_u64(x),
    decreases x,
{
    if x < 16 {
        String::from_str(hex_digit_str(x))
    } else {
        let mut s = u64_hex_string(x / 16);
        s.append(hex_digit_str(x % 16));
        s
    }
}

/// The EVM-style transaction object the dispatcher serializes: fixed
/// gas, gas price and nonce; destination, value and calldata filled in.
pub open spec fn evm_tx_json(to: Seq<char>, value: u64, data: Seq<u8>) -> Seq<char> {
    "{\"data\":\"0x"@ + hex_of(data) + "\",\"gas\":\"0x186A0\",\"gasPrice\":\"0x3B9ACA00\",\"nonce\":\"0x0\",\"to\":\""@
        + to + "\",\"value\":\"0x"@ + hex_u64(value) + "\"}"@
}

/// Serializes the EVM transaction object.
pub fn build_evm_transaction_json(to_address: &String, value: u64, data: &Vec<u8>) -> (r: String)
    ensures
        r@ == evm_tx_json(to_address@, value, data@),
{
    let mut s = String::from_str("{\"data\":\"0x");
    let hexdata = hex_encode(data.as_slice());
    s.append(hexdata.as_str());
    s.append("\",\"gas\":\"0x186A0\",\"gasPrice\":\"0x3B9ACA00\",\"nonce\":\"0x0\",\"to\":\"");
    s.append(to_address.as_str());
    s.append("\",\"value\":\"0x");
    let hexvalue = u64_hex_string(value);
    s.append(hexvalue.as_str());
    s.append("\"}");
    proof {
        assert(s@ =~= evm_tx_json(to_address@, value, data@));
    }
    s
}

impl BridgeState {
    /// Verifies an inbound cross-chain message against the given clock
    /// reading and, if acceptable, records it in the message log keyed
    /// by its order id.  Routing beyond the log is left to the engines,
    /// whose state only direct calls mutate.
    pub fn process_cross_chain_message(&mut self, message: CrossChainMessage, now: u64) -> (r:
        Result<(), BridgeError>)
        requires
            old(self).wf(),
        ensures
            final(self).wf(),
            !message_valid(message@, now) ==> r == Err::<(), BridgeError>(
                BridgeError::InvalidMessage,
            ) && final(self)@ == old(self)@,
            message_valid(message@, now) ==> r == Ok::<(), BridgeError>(()) && final(self)@ == (
            BridgeView { msgs: old(self)@.msgs.insert(message@.order_id, message@), ..old(self)@ }),
    {
        if !message_valid_at(&message, now) {
            return Err(BridgeError::InvalidMessage);
        }
        let key = message.order_id.clone();
        self.upsert_message(key, message);
        Ok(())
    }

    /// Validates an outbound transaction against the signing
    /// subsystem's configuration and serializes it.  The surrounding
    /// program hands the result to the subsystem; a rejected
    /// configuration never reaches it.
    pub fn prepare_ethereum_transaction(
        &self,
        transaction_data: &Vec<u8>,
        to_address: &String,
        value: u64,
    ) -> (r: Result<EvmTransactionRequest, BridgeError>)
        ensures
            match r {
                Ok(tx) => {
                    &&& self@.cf.chain_fusion_enabled
                    &&& self@.cf.ethereum_contract_address.len() > 0
                    &&& self@.cf.evm_canister_id == Some(tx.evm_canister_id@)
                    &&& tx.payload@ == evm_tx_json(to_address@, value, transaction_data@)
                },
                Err(e) => {
                    &&& !self@.cf.chain_fusion_enabled ==> e == BridgeError::BridgeDisabled
                    &&& self@.cf.chain_fusion_enabled
                        && self@.cf.ethereum_contract_address.len() == 0 ==> e
                        == BridgeError::BridgeNotConfigured
                    &&& self@.cf.chain_fusion_enabled
                        && self@.cf.ethereum_contract_address.len() > 0 ==> (e
                        == BridgeError::BridgeNotConfigured && self@.cf.evm_canister_id is None)
                },
            },
    {
        if !self.chain_fusion_enabled_flag() {
            return Err(BridgeError::BridgeDisabled);
        }
        if self.cf_contract_address_is_empty() {
            return Err(BridgeError::BridgeNotConfigured);
        }
        let evm_canister_id = match self.cf_evm_canister_id() {
            None => {
                return Err(BridgeError::BridgeNotConfigured);
            },
            Some(p) => p.clone(),
        };
        let payload = build_evm_transaction_json(to_address, value, transaction_data);
        Ok(EvmTransactionRequest { evm_canister_id, payload })
    }

    /// Validates and serializes an outbound transaction to the
    /// configured contract, carrying no native value.
    pub fn submit_ethereum_transaction(&self, transaction_data: &Vec<u8>) -> (r: Result<
        EvmTransactionRequest,
        BridgeError,
    >)
        ensures
            match r {
                Ok(tx) => {
                    &&& self@.cf.chain_fusion_enabled
                    &&& self@.cf.ethereum_contract_address.len() > 0
                    &&& self@.cf.evm_canister_id == Some(tx.evm_canister_id@)
                    &&& tx.payload@ == evm_tx_json(
                        self@.cf.ethereum_contract_address,
                        0,
                        transaction_data@,
                    )
                },
                Err(e) => {
                    &&& !self@.cf.chain_fusion_enabled ==> e == BridgeError::BridgeDisabled
                    &&& self@.cf.chain_fusion_enabled
                        && self@.cf.ethereum_contract_address.len() == 0 ==> e
                        == BridgeError::BridgeNotConfigured
                    &&& self@.cf.chain_fusion_enabled
                        && self@.cf.ethereum_contract_address.len() > 0 ==> (e
                        == BridgeError::BridgeNotConfigured && self@.cf.evm_canister_id is None)
                },
            },
    {
        if !self.chain_fusion_enabled_flag() {
            return Err(BridgeError::BridgeDisabled);
        }
        let to_address = self.cf_contract_address_clone();
        self.prepare_ethereum_transaction(transaction_data, &to_address, 0)
    }
}

} // verus!
