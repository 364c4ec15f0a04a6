//! The transfer coordinator: quoting a transfer and driving a reported
//! deposit through verification, the origin-hash lock, release preparation
//! and finalisation.
//!
//! Every chain observation (balances, gas, blocks, the deposit transaction
//! or receipt, the release receipt) enters these functions as a plain
//! value, so each decision is verified for every possible observation.

use vstd::prelude::*;
use vstd::string::StringSliceAdditionalSpecFns;
use crate::amount::{pow10, to_base_units, bridge_fee_amount, Amount};
use crate::error::{BridgeError, MismatchField};
use crate::ledger::{
    AssetClass, Ledger, RequestInsertTx, Status, TokenAddress, Transaction, ledger_step,
};
use crate::parse::{
    be_val, be_val_u128, bytes_eq, lemma_be_val_append, lemma_be_val_bound, parse_address,
    parse_tx_hash,
};
use crate::signer::{addr_of, spec_addr_ok};

verus! {

/// A quote request, as the service receives it.
#[derive(Debug, Clone)]
pub struct RequestedTransaction {
    pub sender_address: String,
    pub receiver_address: String,
    pub origin_network: Option<usize>,
    pub destin_network: Option<usize>,
    pub from_token_address: usize,
    pub to_token_address: usize,
    pub transfer_amount: Amount,
    pub created_by: u128,
}

/// What the quote returns to the user: where to deposit, how much in
/// total, and indicative gas figures for the deposit.
#[derive(Debug, Clone)]
pub struct ResponseTransaction {
    pub id: usize,
    /// The depositor, echoed back.
    pub sender_address: Vec<u8>,
    /// The bridge-owned account the deposit must pay — the destination
    /// network's bridge address.
    pub receiver_address: Vec<u8>,
    /// Total deposit owed: transfer amount plus bridge fee, in base units
    /// of the from-token.
    pub transfer_amount: u128,
    pub gas_limit: u128,
    pub max_priority_fee_per_gas: u64,
    pub max_fee_per_gas: u128,
}

/// The chain observations the quote path needs, fetched by the caller
/// before the decision runs.
#[derive(Debug, Clone)]
pub struct QuoteContext {
    /// The from-token contract's `decimals()`, when the from-token is a
    /// token contract.
    pub from_token_decimals: Option<u32>,
    /// The sender's balance in the from-token, in base units.
    pub sender_balance: u128,
    /// An indicative gas estimate on the origin chain.
    pub gas_limit: u128,
    /// The origin chain's latest base fee per gas, zero when absent.
    pub base_fee_per_gas: u128,
    /// Clock value for audit timestamps.
    pub now: u64,
}

/// The decimals an asset converts under: the network's native decimals for
/// the native asset, the contract's own for a token.
pub open spec fn spec_decimals_of(
    asset_type: AssetClass,
    native_decimals: u32,
    contract_decimals: Option<u32>,
) -> Option<u32> {
    match asset_type {
        AssetClass::Native => Some(native_decimals),
        AssetClass::Erc20 => contract_decimals,
    }
}

/// Converts a human-denominated amount into base units of an asset,
/// choosing the decimals by asset class. Fails with `UnknownToken` when a
/// token's decimals are not supplied and with `AmountOverflow` when the
/// result exceeds 128 bits.
pub fn token_converter(
    asset_type: AssetClass,
    native_decimals: u32,
    contract_decimals: Option<u32>,
    amount: Amount,
) -> (r: Result<u128, BridgeError>)
    ensures
        r is Ok <==> (spec_decimals_of(asset_type, native_decimals, contract_decimals) matches
            Some(d) && amount.spec_base_units(d as nat) <= u128::MAX),
        r matches Ok(v) ==> v as nat == amount.spec_base_units(
            spec_decimals_of(asset_type, native_decimals, contract_decimals)->Some_0 as nat,
        ),
        r matches Err(e) ==> (if spec_decimals_of(asset_type, native_decimals, contract_decimals)
            is None {
            e == BridgeError::UnknownToken
        } else {
            e == BridgeError::AmountOverflow
        }),
{
    let decimals = match asset_type {
        AssetClass::Native => native_decimals,
        AssetClass::Erc20 => {
            match contract_decimals {
                Some(d) => d,
                None => {
                    return Err(BridgeError::UnknownToken);
                },
            }
        },
    };
    to_base_units(amount, decimals)
}

/// Whether a balance covers a transfer plus its fee.
pub fn validate_account_balance(balance: u128, transfer_amount: u128, network_fee: u128) -> (r:
    Result<bool, BridgeError>)
    ensures
        r is Ok <==> balance >= transfer_amount + network_fee,
        r matches Ok(b) ==> b,
        r matches Err(e) ==> e == BridgeError::InsufficientBalance,
{
    match transfer_amount.checked_add(network_fee) {
        Some(total) => {
            if balance >= total {
                Ok(true)
            } else {
                Err(BridgeError::InsufficientBalance)
            }
        },
        None => Err(BridgeError::InsufficientBalance),
    }
}

/// A block's base fee, defaulting to zero on chains that do not report
/// one.
pub fn base_fee_or_zero(base_fee_per_gas: Option<u128>) -> (r: u128)
    ensures
        r == (match base_fee_per_gas {
            Some(f) => f,
            None => 0u128,
        }),
{
    match base_fee_per_gas {
        Some(f) => f,
        None => 0,
    }
}

/// The mantissa of the exact fee `rate * amount`.
pub open spec fn spec_fee_mantissa(rate: Amount, amount: Amount) -> nat {
    (rate.mantissa as nat) * (amount.mantissa as nat)
}

/// The scale of the exact fee `rate * amount`.
pub open spec fn spec_fee_scale(rate: Amount, amount: Amount) -> nat {
    rate.scale as nat + amount.scale as nat
}

/// The fee `rate * amount` in base units under `d` decimals.
pub open spec fn spec_fee_units(rate: Amount, amount: Amount, d: nat) -> nat {
    (spec_fee_mantissa(rate, amount) * pow10(d)) / pow10(spec_fee_scale(rate, amount))
}

/// The first failure a quote request runs into, in validation order;
/// `None` when the quote succeeds.
pub open spec fn spec_quote_err(
    l: Ledger,
    req: RequestedTransaction,
    ctx: QuoteContext,
) -> Option<BridgeError> {
    if req.transfer_amount.mantissa == 0 {
        Some(BridgeError::InvalidAmount)
    } else if req.origin_network == req.destin_network {
        Some(BridgeError::SameNetwork)
    } else if req.origin_network is None || req.origin_network->Some_0 >= l.networks@.len() {
        Some(BridgeError::UnknownNetwork)
    } else if req.destin_network is None || req.destin_network->Some_0 >= l.networks@.len() {
        Some(BridgeError::UnknownNetwork)
    } else if req.from_token_address >= l.tokens@.len() || req.to_token_address
        >= l.tokens@.len() {
        Some(BridgeError::UnknownToken)
    } else if !(l.tokens@[req.from_token_address as int].network_id
        == req.origin_network->Some_0 && l.tokens@[req.to_token_address as int].network_id
        == req.destin_network->Some_0) {
        Some(BridgeError::TokenNetworkMismatch)
    } else {
        let origin = l.networks@[req.origin_network->Some_0 as int];
        let destin = l.networks@[req.destin_network->Some_0 as int];
        let from_token = l.tokens@[req.from_token_address as int];
        let d_opt = spec_decimals_of(
            from_token.asset_type,
            origin.decimal_value,
            ctx.from_token_decimals,
        );
        if d_opt is None {
            Some(BridgeError::UnknownToken)
        } else {
            let d = d_opt->Some_0 as nat;
            let amt = req.transfer_amount.spec_base_units(d);
            if amt > u128::MAX {
                Some(BridgeError::AmountOverflow)
            } else if amt == 0 {
                Some(BridgeError::InvalidAmount)
            } else if spec_fee_mantissa(destin.bridge_fee_rate, req.transfer_amount) > u128::MAX
                || spec_fee_scale(destin.bridge_fee_rate, req.transfer_amount) > u32::MAX {
                Some(BridgeError::AmountOverflow)
            } else {
                let fee = spec_fee_units(destin.bridge_fee_rate, req.transfer_amount, d);
                if fee > u128::MAX {
                    Some(BridgeError::AmountOverflow)
                } else if !spec_addr_ok(req.sender_address@) {
                    Some(BridgeError::AddressParse)
                } else if !spec_addr_ok(req.receiver_address@) {
                    Some(BridgeError::AddressParse)
                } else if amt + fee > u128::MAX {
                    Some(BridgeError::AmountOverflow)
                } else if ctx.sender_balance < amt + fee {
                    Some(BridgeError::InsufficientBalance)
                } else {
                    None
                }
            }
        }
    }
}

/// Quotes a transfer: validates the request, converts the amount and the
/// destination network's fee to base units of the from-token, checks the
/// sender's balance, and persists the pending transfer. Returns the quote
/// the user needs to make the deposit.
pub fn request_tx(
    l: &mut Ledger,
    payload: &RequestedTransaction,
    ctx: &QuoteContext,
) -> (r: Result<ResponseTransaction, BridgeError>)
    requires
        old(l).wf(),
    ensures
        final(l).wf(),
        ledger_step(*old(l), *final(l)),
        r is Err <==> spec_quote_err(*old(l), *payload, *ctx) is Some,
        r matches Err(e) ==> Some(e) == spec_quote_err(*old(l), *payload, *ctx) && *final(l)
            == *old(l),
        r is Ok ==> final(l).networks@ == old(l).networks@ && final(l).tokens@ == old(l).tokens@
            && final(l).bridges@ == old(l).bridges@,
        r is Ok ==> final(l).transactions@.len() == old(l).transactions@.len() + 1,
        r is Ok ==> forall|i: int|
            0 <= i < old(l).transactions@.len() ==> final(l).transactions@[i] == old(
                l,
            ).transactions@[i],
        r matches Ok(resp) ==> ({
            let origin = payload.origin_network->Some_0;
            let destin = payload.destin_network->Some_0;
            let rate = old(l).networks@[destin as int].bridge_fee_rate;
            let d = spec_decimals_of(
                old(l).tokens@[payload.from_token_address as int].asset_type,
                old(l).networks@[origin as int].decimal_value,
                ctx.from_token_decimals,
            )->Some_0 as nat;
            let amt = payload.transfer_amount.spec_base_units(d);
            let fee = spec_fee_units(rate, payload.transfer_amount, d);
            let t = final(l).transactions@.last();
            &&& resp.id == old(l).transactions@.len()
            &&& t.sender_address@ == addr_of(payload.sender_address@)
            &&& t.receiver_address@ == addr_of(payload.receiver_address@)
            &&& t.from_token_address == payload.from_token_address
            &&& t.to_token_address == payload.to_token_address
            &&& t.origin_network == origin
            &&& t.destin_network == destin
            &&& t.transfer_amount as nat == amt
            &&& t.bridge_fee as nat == fee
            &&& t.created_by == payload.created_by
            &&& t.origin_tx_hash is None
            &&& t.destin_tx_hash is None
            &&& final(l).spec_status_of(resp.id as int) == Status::Pending
            &&& resp.sender_address@ == addr_of(payload.sender_address@)
            &&& resp.receiver_address@ == old(l).networks@[destin as int].bridge_address@
            &&& resp.transfer_amount as nat == amt + fee
            &&& resp.gas_limit == ctx.gas_limit
            &&& resp.max_priority_fee_per_gas == 0
            &&& resp.max_fee_per_gas == ctx.base_fee_per_gas
        }),
{
    if payload.transfer_amount.mantissa == 0 {
        return Err(BridgeError::InvalidAmount);
    }
    let same_network = match (payload.origin_network, payload.destin_network) {
        (None, None) => true,
        (Some(a), Some(b)) => a == b,
        _ => false,
    };
    if same_network {
        return Err(BridgeError::SameNetwork);
    }
    let origin_id = match payload.origin_network {
        Some(n) => n,
        None => {
            return Err(BridgeError::UnknownNetwork);
        },
    };
    if origin_id >= l.networks.len() {
        return Err(BridgeError::UnknownNetwork);
    }
    let destin_id = match payload.destin_network {
        Some(n) => n,
        None => {
            return Err(BridgeError::UnknownNetwork);
        },
    };
    if destin_id >= l.networks.len() {
        return Err(BridgeError::UnknownNetwork);
    }
    if payload.from_token_address >= l.tokens.len() || payload.to_token_address >= l.tokens.len() {
        return Err(BridgeError::UnknownToken);
    }
    let from_network_ok = l.tokens[payload.from_token_address].network_id == origin_id;
    let to_network_ok = l.tokens[payload.to_token_address].network_id == destin_id;
    if !(from_network_ok && to_network_ok) {
        return Err(BridgeError::TokenNetworkMismatch);
    }
    let from_asset = l.tokens[payload.from_token_address].asset_type;
    let native_decimals = l.networks[origin_id].decimal_value;
    let transfer_value = match token_converter(
        from_asset,
        native_decimals,
        ctx.from_token_decimals,
        payload.transfer_amount,
    ) {
        Ok(v) => v,
        Err(e) => {
            return Err(e);
        },
    };
    if transfer_value == 0 {
        return Err(BridgeError::InvalidAmount);
    }
    let rate = l.networks[destin_id].bridge_fee_rate;
    let fee_amount = match bridge_fee_amount(rate, payload.transfer_amount) {
        Ok(f) => f,
        Err(e) => {
            return Err(e);
        },
    };
    let bridge_fee_value = match token_converter(
        from_asset,
        native_decimals,
        ctx.from_token_decimals,
        fee_amount,
    ) {
        Ok(v) => v,
        Err(e) => {
            return Err(e);
        },
    };
    let sender = match parse_address(payload.sender_address.as_str()) {
        Some(a) => a,
        None => {
            return Err(BridgeError::AddressParse);
        },
    };
    let receiver = match parse_address(payload.receiver_address.as_str()) {
        Some(a) => a,
        None => {
            return Err(BridgeError::AddressParse);
        },
    };
    let total = match transfer_value.checked_add(bridge_fee_value) {
        Some(t) => t,
        None => {
            return Err(BridgeError::AmountOverflow);
        },
    };
    if ctx.sender_balance < total {
        return Err(BridgeError::InsufficientBalance);
    }
    let mut sender_echo: Vec<u8> = Vec::new();
    crate::rlp::push_all(&mut sender_echo, sender.as_slice());
    assert(sender_echo@ =~= sender@);
    let req = RequestInsertTx {
        sender_address: sender,
        receiver_address: receiver,
        from_token_address: payload.from_token_address,
        to_token_address: payload.to_token_address,
        origin_network: origin_id,
        destin_network: destin_id,
        transfer_amount: transfer_value,
        bridge_fee: bridge_fee_value,
        created_by: payload.created_by,
    };
    let id = l.quote_transfer(req, ctx.now);
    let mut bridge_address: Vec<u8> = Vec::new();
    crate::rlp::push_all(&mut bridge_address, l.networks[destin_id].bridge_address.as_slice());
    assert(bridge_address@ =~= l.networks@[destin_id as int].bridge_address@);
    Ok(ResponseTransaction {
        id,
        sender_address: sender_echo,
        receiver_address: bridge_address,
        transfer_amount: total,
        gas_limit: ctx.gas_limit,
        max_priority_fee_per_gas: 0,
        max_fee_per_gas: ctx.base_fee_per_gas,
    })
}

/// A broadcast request: the transfer id and the reported deposit hash.
#[derive(Debug, Clone)]
pub struct TransactionHash {
    pub id: usize,
    pub hash: String,
}

/// Validates the reported deposit hash: `0x` followed by 64 hex digits.
pub fn validate_tx_hash(hash: &str) -> (r: Result<Vec<u8>, BridgeError>)
    ensures
        r is Ok <==> crate::parse::spec_valid_tx_hash(hash.spec_bytes()),
        r matches Ok(v) ==> v@ == crate::parse::spec_hex_decode(hash.spec_bytes().skip(2))
            && v@.len() == 32,
        r matches Err(e) ==> e == BridgeError::BadHash,
{
    match parse_tx_hash(hash) {
        Some(v) => Ok(v),
        None => Err(BridgeError::BadHash),
    }
}

/// Checks a transfer may enter the broadcast pipeline: it exists, is still
/// pending, and has no origin hash yet.
pub fn check_broadcast_state(l: &Ledger, id: usize) -> (r: Result<(), BridgeError>)
    requires
        l.wf(),
    ensures
        r is Ok <==> l.spec_can_set_origin(id as int),
        r matches Err(e) ==> (if id >= l.transactions@.len() {
            e == BridgeError::UnknownTransfer
        } else if l.spec_status_of(id as int) != Status::Pending {
            e == BridgeError::AlreadyFinalized
        } else {
            e == BridgeError::IllegalTransition
        }),
{
    if id >= l.transactions.len() {
        return Err(BridgeError::UnknownTransfer);
    }
    let status_row = l.transactions[id].tx_status;
    let is_pending = match l.statuses[status_row].status_name {
        Status::Pending => true,
        _ => false,
    };
    if !is_pending {
        return Err(BridgeError::AlreadyFinalized);
    }
    if l.transactions[id].origin_tx_hash.is_some() {
        return Err(BridgeError::IllegalTransition);
    }
    Ok(())
}

/// What the coordinator observed of a reported deposit on the origin
/// chain: the transaction itself for a native deposit, or the transfer
/// event of a token deposit — topics and data of the receipt's first log.
#[derive(Debug, Clone)]
pub enum DepositObservation {
    NativeTx {
        /// The sending account, 20 bytes.
        from: Vec<u8>,
        /// The paid account, 20 bytes; `None` for a contract creation.
        to: Option<Vec<u8>>,
        /// High 128 bits of the paid value.
        value_hi: u128,
        /// Low 128 bits of the paid value.
        value_lo: u128,
    },
    Erc20Receipt {
        /// The first log's topics; the transfer event carries the sender
        /// and recipient as its second and third topic.
        topics: Vec<Vec<u8>>,
        /// The first log's data: the transferred value as one 32-byte
        /// big-endian word.
        data: Vec<u8>,
    },
}

/// The first mismatch between a transfer and the observed deposit, in
/// verification order; `None` when the deposit checks out. The deposit
/// must come from the transfer's sender, pay the origin network's bridge
/// account, and carry exactly `transfer_amount + bridge_fee`.
pub open spec fn spec_deposit_err(
    t: Transaction,
    bridge: Seq<u8>,
    obs: DepositObservation,
) -> Option<BridgeError> {
    match obs {
        DepositObservation::NativeTx { from, to, value_hi, value_lo } => {
            if from@ != t.sender_address@ {
                Some(BridgeError::OnChainMismatch(MismatchField::From))
            } else if !(to matches Some(a) && a@ == bridge) {
                Some(BridgeError::OnChainMismatch(MismatchField::To))
            } else if !(value_hi == 0 && value_lo as nat == t.transfer_amount + t.bridge_fee) {
                Some(BridgeError::OnChainMismatch(MismatchField::Value))
            } else {
                None
            }
        },
        DepositObservation::Erc20Receipt { topics, data } => {
            if topics@.len() < 3 || topics@[1]@.len() != 32 || topics@[2]@.len() != 32
                || data@.len() != 32 {
                Some(BridgeError::DecodeError)
            } else if be_val(data@) != t.transfer_amount + t.bridge_fee {
                Some(BridgeError::OnChainMismatch(MismatchField::Value))
            } else if topics@[1]@.skip(12) != t.sender_address@ {
                Some(BridgeError::OnChainMismatch(MismatchField::From))
            } else if topics@[2]@.skip(12) != bridge {
                Some(BridgeError::OnChainMismatch(MismatchField::To))
            } else {
                None
            }
        },
    }
}

/// Verifies an observed deposit against a transfer: sender, bridge account
/// and exact value.
pub fn check_deposit(t: &Transaction, bridge: &Vec<u8>, obs: &DepositObservation) -> (r: Result<
    (),
    BridgeError,
>)
    requires
        t.transfer_amount + t.bridge_fee <= u128::MAX,
    ensures
        r is Ok <==> spec_deposit_err(*t, bridge@, *obs) is None,
        r matches Err(e) ==> Some(e) == spec_deposit_err(*t, bridge@, *obs),
{
    let total = t.transfer_amount + t.bridge_fee;
    match obs {
        DepositObservation::NativeTx { from, to, value_hi, value_lo } => {
            if !bytes_eq(from.as_slice(), t.sender_address.as_slice()) {
                return Err(BridgeError::OnChainMismatch(MismatchField::From));
            }
            let to_ok = match to {
                Some(a) => bytes_eq(a.as_slice(), bridge.as_slice()),
                None => false,
            };
            if !to_ok {
                return Err(BridgeError::OnChainMismatch(MismatchField::To));
            }
            if !(*value_hi == 0 && *value_lo == total) {
                return Err(BridgeError::OnChainMismatch(MismatchField::Value));
            }
            Ok(())
        },
        DepositObservation::Erc20Receipt { topics, data } => {
            if topics.len() < 3 || data.len() != 32 {
                return Err(BridgeError::DecodeError);
            }
            if topics[1].len() != 32 || topics[2].len() != 32 {
                return Err(BridgeError::DecodeError);
            }
            let hi = vstd::slice::slice_subrange(data.as_slice(), 0, 16);
            let lo = vstd::slice::slice_subrange(data.as_slice(), 16, 32);
            let hi_val = be_val_u128(hi);
            let lo_val = be_val_u128(lo);
            proof {
                assert(data@ =~= data@.subrange(0, 16) + data@.subrange(16, 32));
                lemma_be_val_append(data@.subrange(0, 16), data@.subrange(16, 32));
                crate::parse::lemma_pow256_16_value();
                if hi_val != 0 {
                    lemma_be_val_bound(data@.subrange(16, 32));
                    vstd::arithmetic::mul::lemma_mul_inequality(
                        1,
                        be_val(data@.subrange(0, 16)) as int,
                        crate::rlp::pow256(16) as int,
                    );
                }
            }
            if !(hi_val == 0 && lo_val == total) {
                return Err(BridgeError::OnChainMismatch(MismatchField::Value));
            }
            let sender_topic = vstd::slice::slice_subrange(topics[1].as_slice(), 12, 32);
            if !bytes_eq(sender_topic, t.sender_address.as_slice()) {
                proof {
                    assert(topics@[1]@.subrange(12, 32) =~= topics@[1]@.skip(12));
                }
                return Err(BridgeError::OnChainMismatch(MismatchField::From));
            }
            let to_topic = vstd::slice::slice_subrange(topics[2].as_slice(), 12, 32);
            if !bytes_eq(to_topic, bridge.as_slice()) {
                proof {
                    assert(topics@[1]@.subrange(12, 32) =~= topics@[1]@.skip(12));
                    assert(topics@[2]@.subrange(12, 32) =~= topics@[2]@.skip(12));
                }
                return Err(BridgeError::OnChainMismatch(MismatchField::To));
            }
            proof {
                assert(topics@[1]@.subrange(12, 32) =~= topics@[1]@.skip(12));
                assert(topics@[2]@.subrange(12, 32) =~= topics@[2]@.skip(12));
            }
            Ok(())
        },
    }
}

/// Checks a deposit's confirmation depth: the distance from its including
/// block to the chain head must reach the network's minimum.
pub fn validate_confirmed_block(current_block: u64, deposit_block: u64, min_confirmations: u64)
    -> (r: Result<u64, BridgeError>)
    ensures
        r is Ok <==> (deposit_block <= current_block && current_block - deposit_block
            >= min_confirmations),
        r matches Ok(c) ==> c == current_block - deposit_block,
        r matches Err(e) ==> e == BridgeError::InsufficientConfirmations,
{
    match crate::confirm::confirmations_of(current_block, deposit_block) {
        Some(c) => {
            if c >= min_confirmations {
                Ok(c)
            } else {
                Err(BridgeError::InsufficientConfirmations)
            }
        },
        None => Err(BridgeError::InsufficientConfirmations),
    }
}

/// The first failure of the deposit-verification half of a broadcast, in
/// pipeline order: the reported hash, the transfer's state, the observed
/// deposit, then its confirmation depth. `None` when the deposit verifies
/// and the origin-hash lock can be taken.
pub open spec fn spec_verify_deposit_err(
    l: Ledger,
    id: int,
    hash: Seq<char>,
    obs: DepositObservation,
    current_block: u64,
    deposit_block: u64,
) -> Option<BridgeError> {
    if !crate::parse::spec_valid_tx_hash(crate::signer::str_bytes_of(hash)) {
        Some(BridgeError::BadHash)
    } else if id >= l.transactions@.len() {
        Some(BridgeError::UnknownTransfer)
    } else if l.spec_status_of(id) != Status::Pending {
        Some(BridgeError::AlreadyFinalized)
    } else if l.transactions@[id].origin_tx_hash is Some {
        Some(BridgeError::IllegalTransition)
    } else {
        let t = l.transactions@[id];
        let bridge = l.networks@[t.origin_network as int].bridge_address@;
        let min = l.networks@[t.origin_network as int].min_confirmations;
        match spec_deposit_err(t, bridge, obs) {
            Some(e) => Some(e),
            None => {
                if deposit_block <= current_block && current_block - deposit_block >= min {
                    None
                } else {
                    Some(BridgeError::InsufficientConfirmations)
                }
            },
        }
    }
}

/// The deposit-verification half of a broadcast, in one step: validates
/// the reported hash, checks the transfer may enter the pipeline, verifies
/// the observed deposit against the transfer and the origin bridge
/// account, checks the confirmation depth against the origin network's
/// minimum, and takes the origin-hash lock. On any failure the ledger is
/// untouched and the transfer stays as it was.
pub fn verify_deposit(
    l: &mut Ledger,
    id: usize,
    hash: &str,
    obs: &DepositObservation,
    current_block: u64,
    deposit_block: u64,
    now: u64,
) -> (r: Result<(), BridgeError>)
    requires
        old(l).wf(),
    ensures
        final(l).wf(),
        ledger_step(*old(l), *final(l)),
        r is Err <==> spec_verify_deposit_err(
            *old(l),
            id as int,
            hash@,
            *obs,
            current_block,
            deposit_block,
        ) is Some,
        r matches Err(e) ==> Some(e) == spec_verify_deposit_err(
            *old(l),
            id as int,
            hash@,
            *obs,
            current_block,
            deposit_block,
        ) && *final(l) == *old(l),
        r is Ok ==> {
            &&& !final(l).spec_can_set_origin(id as int)
            &&& final(l).spec_status_of(id as int) == Status::Pending
            &&& (final(l).transactions@[id as int].origin_tx_hash matches Some(h) && h@
                == crate::parse::spec_hex_decode(crate::signer::str_bytes_of(hash@).skip(2)))
            &&& final(l).transactions@.len() == old(l).transactions@.len()
            &&& forall|j: int|
                0 <= j < old(l).transactions@.len() && j != id ==> final(l).transactions@[j]
                    == old(l).transactions@[j]
            &&& final(l).networks@ == old(l).networks@
            &&& final(l).tokens@ == old(l).tokens@
            &&& final(l).bridges@ == old(l).bridges@
            &&& final(l).statuses@ == old(l).statuses@
        },
{
    let hash_bytes = match validate_tx_hash(hash) {
        Ok(h) => h,
        Err(e) => {
            return Err(e);
        },
    };
    if let Err(e) = check_broadcast_state(l, id) {
        return Err(e);
    }
    proof {
        assert(l.tx_wf(l.transactions@[id as int]));
    }
    let t = &l.transactions[id];
    let bridge = &l.networks[t.origin_network].bridge_address;
    if let Err(e) = check_deposit(t, bridge, obs) {
        return Err(e);
    }
    let min_confirmations = l.networks[t.origin_network].min_confirmations;
    if let Err(e) = validate_confirmed_block(current_block, deposit_block, min_confirmations) {
        return Err(e);
    }
    l.set_origin_hash(id, hash_bytes, now)
}

/// The destination-chain facts release preparation needs, fetched by the
/// caller: the bridge account's pending nonce, current gas figures and the
/// chain id.
#[derive(Debug, Clone)]
pub struct ReleaseContext {
    pub chain_id: u64,
    pub nonce: u128,
    pub gas_price: u128,
    pub gas: u128,
}

/// A prepared release: what the signer must sign and the destination chain
/// must carry.
#[derive(Debug, Clone)]
pub struct ReleaseRequest {
    pub destin_network: usize,
    pub chain_id: u64,
    /// The payout recipient, 20 bytes.
    pub to: Vec<u8>,
    pub nonce: u128,
    /// The released value: exactly the transfer amount (the fee stays with
    /// the origin bridge).
    pub value: u128,
    pub gas: u128,
    pub gas_price: u128,
    /// The token contract to call for a token release; `None` releases
    /// native value.
    pub token_address: Option<Vec<u8>>,
}

/// Prepares the destination release for a verified transfer: the recipient
/// receives exactly the transfer amount, natively or through the to-token
/// contract.
///
/// The released value is denominated in base units of the from-token; a
/// token pair whose decimals differ would need a second conversion here,
/// so pairs are expected to share their decimals. The bridge fee is not
/// released: it stays with the origin network's bridge account.
pub fn build_release_request(t: &Transaction, to_token: &TokenAddress, rc: &ReleaseContext) -> (r:
    Result<ReleaseRequest, BridgeError>)
    ensures
        r is Ok <==> (to_token.asset_type == AssetClass::Native || to_token.token_address
            is Some),
        r matches Err(e) ==> e == BridgeError::UnknownToken,
        r matches Ok(req) ==> {
            &&& req.destin_network == t.destin_network
            &&& req.chain_id == rc.chain_id
            &&& req.to@ == t.receiver_address@
            &&& req.nonce == rc.nonce
            &&& req.value == t.transfer_amount
            &&& req.gas == rc.gas
            &&& req.gas_price == rc.gas_price
            &&& (to_token.asset_type == AssetClass::Native ==> req.token_address is None)
            &&& (to_token.asset_type == AssetClass::Erc20 ==> (req.token_address matches Some(a)
                && a@ == to_token.token_address->Some_0@))
        },
{
    let token_address: Option<Vec<u8>> = match to_token.asset_type {
        AssetClass::Native => None,
        AssetClass::Erc20 => {
            match &to_token.token_address {
                Some(a) => {
                    let mut contract: Vec<u8> = Vec::new();
                    crate::rlp::push_all(&mut contract, a.as_slice());
                    assert(contract@ =~= a@);
                    Some(contract)
                },
                None => {
                    return Err(BridgeError::UnknownToken);
                },
            }
        },
    };
    let mut to: Vec<u8> = Vec::new();
    crate::rlp::push_all(&mut to, t.receiver_address.as_slice());
    assert(to@ =~= t.receiver_address@);
    Ok(ReleaseRequest {
        destin_network: t.destin_network,
        chain_id: rc.chain_id,
        to,
        nonce: rc.nonce,
        value: t.transfer_amount,
        gas: rc.gas,
        gas_price: rc.gas_price,
        token_address,
    })
}

/// The terminal status a release receipt dictates: success on status 1,
/// failure on status 0, undecided otherwise.
pub fn receipt_outcome(receipt_status: Option<u64>) -> (r: Option<Status>)
    ensures
        receipt_status == Some(1u64) ==> r == Some(Status::Success),
        receipt_status == Some(0u64) ==> r == Some(Status::Fail),
        (match receipt_status {
            Some(s) => s != 0 && s != 1,
            None => true,
        }) ==> r is None,
{
    match receipt_status {
        Some(s) => {
            if s == 1 {
                Some(Status::Success)
            } else if s == 0 {
                Some(Status::Fail)
            } else {
                None
            }
        },
        None => None,
    }
}

/// What happens to a transfer when a step after the origin-hash write
/// fails: an upstream failure leaves it pending for retry, any other
/// failure finalizes it as failed.
pub fn failure_disposition(e: &BridgeError) -> (r: Option<Status>)
    ensures
        e.spec_is_transient() ==> r is None,
        !e.spec_is_transient() ==> r == Some(Status::Fail),
{
    if e.is_transient() {
        None
    } else {
        Some(Status::Fail)
    }
}

/// Re-driving a broadcast for a transfer that has reached a terminal
/// status is harmless: under any further ledger operations the entry check
/// keeps refusing it, the lock stays latched, and the terminal status and
/// recorded hashes are permanent.
pub proof fn lemma_broadcast_idempotent(pre: Ledger, post: Ledger, id: int)
    requires
        ledger_step(pre, post),
        0 <= id < pre.transactions@.len(),
        pre.spec_status_of(id) != Status::Pending,
    ensures
        !post.spec_can_set_origin(id),
        !post.spec_can_finalize(id),
        post.spec_status_of(id) == pre.spec_status_of(id),
        pre.transactions@[id].origin_tx_hash is Some ==> post.transactions@[id].origin_tx_hash
            == pre.transactions@[id].origin_tx_hash,
        pre.transactions@[id].destin_tx_hash is Some ==> post.transactions@[id].destin_tx_hash
            == pre.transactions@[id].destin_tx_hash,
{
    assert(tx_evolves_holds(pre, post, id));
}

/// Helper: the step relation applies at index `id`.
spec fn tx_evolves_holds(pre: Ledger, post: Ledger, id: int) -> bool {
    crate::ledger::tx_evolves(
        pre.transactions@[id],
        post.transactions@[id],
        pre.spec_status_of(id),
        post.spec_status_of(id),
    )
}

} // verus!
