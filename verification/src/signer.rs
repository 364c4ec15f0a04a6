//! The transaction-signing service core: building an envelope from a
//! signing request, hashing its unsigned encoding, signing with the
//! bridge key, and re-encoding with the signature.
//!
//! The recovery value follows the envelope type: a legacy envelope gets the
//! replay-protected `v = recovery_id + 35 + 2 * chain_id`; typed envelopes
//! carry the bare recovery id.

use vstd::prelude::*;
use vstd::string::StringSliceAdditionalSpecFns;
use crate::crypto::{ecdsa_sign_recoverable, ecdsa_sig_of, keccak256, keccak_of, secp_key_ok};
use crate::envelope::{
    encode, spec_encode, spec_is_legacy, spec_tx_type_supported, EnvelopeV, AccessItemV,
    Signature, SigParts, TransactionParam, LEGACY_TX_ID,
};
use crate::error::BridgeError;
use crate::parse::{
    all_dec_digits, all_hex_digits, dec_val, parse_address, parse_dec_u128, parse_dec_u64,
    spec_hex_decode, spec_strip_0x,
};
use crate::rlp::push_all;

verus! {

/// The largest chain id the signer accepts: `v = 3 + 35 + 2 * chain_id`
/// must fit in 64 bits.
pub const CHAIN_ID_MAX: u64 = 0x7FFF_FFFF_FFFF_FFEC;

/// A signing request's transaction fields, as they arrive on the wire:
/// decimal strings for the numeric fields, a hex string for the recipient.
#[derive(Debug, Clone)]
pub struct TxRequest {
    pub chain_id: String,
    pub to: String,
    pub nonce: String,
    pub value: String,
    pub gas: String,
    pub gas_price: String,
}

/// A full signing request: the transaction fields plus the destination
/// network's transport and bridge configuration, and, for a token transfer,
/// the token contract and its interface description.
#[derive(Debug, Clone)]
pub struct TxBroadcastRequest {
    pub network_rpc: String,
    pub bridge_address: String,
    pub tx: TxRequest,
    pub token_address: Option<String>,
    pub abi: Option<String>,
}

/// A signed transaction: the signature parts, the raw wire bytes, and the
/// two digests (of the unsigned and the signed encoding).
#[derive(Debug, Clone)]
pub struct SignedTransaction {
    pub message_hash: Vec<u8>,
    pub v: u64,
    pub r: Vec<u8>,
    pub s: Vec<u8>,
    pub raw_transaction: Vec<u8>,
    pub transaction_hash: Vec<u8>,
}

/// The UTF-8 bytes of a string value.
pub open spec fn str_bytes_of(s: Seq<char>) -> Seq<u8> {
    vstd::utf8::encode_utf8(s)
}

/// Whether a string spells an unsigned decimal that fits in 128 bits.
pub open spec fn spec_dec_u128_ok(s: Seq<char>) -> bool {
    str_bytes_of(s).len() > 0 && all_dec_digits(str_bytes_of(s)) && dec_val(str_bytes_of(s))
        <= u128::MAX
}

/// The number a decimal string spells.
pub open spec fn dec_u128_of(s: Seq<char>) -> nat {
    dec_val(str_bytes_of(s))
}

/// Whether a string spells a 20-byte address: 40 hex digits with an
/// optional `0x` prefix.
pub open spec fn spec_addr_ok(s: Seq<char>) -> bool {
    spec_strip_0x(str_bytes_of(s)).len() == 40 && all_hex_digits(spec_strip_0x(str_bytes_of(s)))
}

/// The 20 bytes an address string spells.
pub open spec fn addr_of(s: Seq<char>) -> Seq<u8> {
    spec_hex_decode(spec_strip_0x(str_bytes_of(s)))
}

/// Whether a string spells a chain id the signer accepts.
pub open spec fn spec_chain_ok(s: Seq<char>) -> bool {
    str_bytes_of(s).len() > 0 && all_dec_digits(str_bytes_of(s)) && dec_val(str_bytes_of(s))
        <= CHAIN_ID_MAX
}

/// The digest that gets signed: Keccak-256 of the unsigned encoding
/// (type byte included for typed envelopes).
pub open spec fn spec_signing_hash(tx: EnvelopeV, chain_id: u64) -> Seq<u8> {
    keccak_of(spec_encode(tx, chain_id, None))
}

/// The signature parts of an envelope under a key: the ECDSA signature of
/// the signing digest, with `v = recovery_id + 35 + 2 * chain_id` for a
/// legacy envelope and the bare recovery id otherwise.
pub open spec fn spec_signed_parts(tx: EnvelopeV, chain_id: u64, key: Seq<u8>) -> SigParts {
    let (rec, r, s) = ecdsa_sig_of(spec_signing_hash(tx, chain_id), key);
    let v = if spec_is_legacy(tx) {
        rec + 35 + 2 * (chain_id as nat)
    } else {
        rec
    };
    (v, r, s)
}

/// The signed wire bytes of an envelope under a key.
pub open spec fn spec_raw_transaction(tx: EnvelopeV, chain_id: u64, key: Seq<u8>) -> Seq<u8> {
    spec_encode(tx, chain_id, Some(spec_signed_parts(tx, chain_id, key)))
}

/// The transaction hash: Keccak-256 of the signed wire bytes.
pub open spec fn spec_transaction_hash(tx: EnvelopeV, chain_id: u64, key: Seq<u8>) -> Seq<u8> {
    keccak_of(spec_raw_transaction(tx, chain_id, key))
}

/// Signs an envelope: encodes it unsigned, hashes, signs the digest, and
/// re-encodes with the signature. Fails exactly when the key is not a valid
/// 32-byte secp256k1 secret key.
pub fn sign_raw(tx: &TransactionParam, key: &[u8], chain_id: u64) -> (r: Result<
    SignedTransaction,
    BridgeError,
>)
    requires
        spec_tx_type_supported(tx@),
        chain_id <= CHAIN_ID_MAX,
    ensures
        r is Ok <==> (key@.len() == 32 && secp_key_ok(key@)),
        r matches Err(e) ==> e == BridgeError::SignerUnavailable,
        r matches Ok(st) ==> {
            &&& st.message_hash@ == spec_signing_hash(tx@, chain_id)
            &&& (st.v as nat, st.r@, st.s@) == spec_signed_parts(tx@, chain_id, key@)
            &&& st.raw_transaction@ == spec_raw_transaction(tx@, chain_id, key@)
            &&& st.transaction_hash@ == spec_transaction_hash(tx@, chain_id, key@)
        },
{
    if key.len() != 32 {
        return Err(BridgeError::SignerUnavailable);
    }
    let encoded = encode(tx, chain_id, None);
    let hash = keccak256(encoded.as_slice());
    let parts = match ecdsa_sign_recoverable(hash.as_slice(), key) {
        Some(parts) => parts,
        None => {
            return Err(BridgeError::SignerUnavailable);
        },
    };
    let (rec, sig_r, sig_s) = parts;
    let is_legacy = match tx.transaction_type {
        None => true,
        Some(t) => t == LEGACY_TX_ID,
    };
    let v: u64 = if is_legacy {
        rec as u64 + 35 + 2 * chain_id
    } else {
        rec as u64
    };
    let signature = Signature { v, r: sig_r, s: sig_s };
    let raw = encode(tx, chain_id, Some(&signature));
    let transaction_hash = keccak256(raw.as_slice());
    let Signature { v, r, s } = signature;
    Ok(SignedTransaction { message_hash: hash, v, r, s, raw_transaction: raw, transaction_hash })
}

/// The signer is deterministic: the signed wire bytes are a function of the
/// envelope, chain id and key alone, so any two successful signing calls on
/// equal inputs return byte-identical raw transactions.
pub proof fn lemma_signer_deterministic(
    st1: SignedTransaction,
    st2: SignedTransaction,
    tx: EnvelopeV,
    chain_id: u64,
    key: Seq<u8>,
)
    requires
        st1.raw_transaction@ == spec_raw_transaction(tx, chain_id, key),
        st2.raw_transaction@ == spec_raw_transaction(tx, chain_id, key),
    ensures
        st1.raw_transaction@ == st2.raw_transaction@,
{
}

/// The ASCII bytes of the token-transfer method signature,
/// `transfer(address,uint256)`.
pub open spec fn spec_transfer_sig_bytes() -> Seq<u8> {
    seq![
        0x74u8, 0x72u8, 0x61u8, 0x6eu8, 0x73u8, 0x66u8, 0x65u8, 0x72u8, 0x28u8, 0x61u8, 0x64u8,
        0x64u8, 0x72u8, 0x65u8, 0x73u8, 0x73u8, 0x2cu8, 0x75u8, 0x69u8, 0x6eu8, 0x74u8, 0x32u8,
        0x35u8, 0x36u8, 0x29u8,
    ]
}

/// `n` as exactly `k` big-endian bytes, zero-padded on the left.
pub open spec fn be_fixed(n: nat, k: nat) -> Seq<u8>
    decreases k,
{
    if k == 0 {
        Seq::<u8>::empty()
    } else {
        be_fixed(n / 256, (k - 1) as nat) + seq![(n % 256) as u8]
    }
}

/// The calldata of a token `transfer(address,uint256)` call: the first four
/// bytes of the Keccak-256 digest of the method signature, the recipient
/// padded to a 32-byte word, and the amount as a 32-byte big-endian word.
pub open spec fn spec_erc20_data(recipient: Seq<u8>, amount: nat) -> Seq<u8> {
    keccak_of(spec_transfer_sig_bytes()).take(4) + Seq::<u8>::new(12, |i: int| 0u8) + recipient
        + be_fixed(amount, 32)
}

/// `n` as exactly `k` big-endian bytes, zero-padded on the left.
fn be_fixed_bytes(n: u128, k: usize) -> (r: Vec<u8>)
    ensures
        r@ == be_fixed(n as nat, k as nat),
    decreases k,
{
    if k == 0 {
        Vec::new()
    } else {
        let mut r = be_fixed_bytes(n / 256, k - 1);
        r.push((n % 256) as u8);
        assert(r@ =~= be_fixed(n as nat, k as nat));
        r
    }
}

/// Builds the calldata of a token `transfer(address,uint256)` call.
pub fn encode_erc20_transfer_data(recipient: &[u8], amount: u128) -> (r: Vec<u8>)
    requires
        recipient@.len() == 20,
    ensures
        r@ == spec_erc20_data(recipient@, amount as nat),
{
    let sig: [u8; 25] = [
        0x74, 0x72, 0x61, 0x6e, 0x73, 0x66, 0x65, 0x72, 0x28, 0x61, 0x64, 0x64, 0x72, 0x65, 0x73,
        0x73, 0x2c, 0x75, 0x69, 0x6e, 0x74, 0x32, 0x35, 0x36, 0x29,
    ];
    assert(sig@ =~= spec_transfer_sig_bytes());
    let digest = keccak256(sig.as_slice());
    let mut data: Vec<u8> = Vec::new();
    data.push(digest[0]);
    data.push(digest[1]);
    data.push(digest[2]);
    data.push(digest[3]);
    assert(data@ =~= keccak_of(spec_transfer_sig_bytes()).take(4));
    let mut i: usize = 0;
    while i < 12
        invariant
            i <= 12,
            data@ == keccak_of(spec_transfer_sig_bytes()).take(4) + Seq::<u8>::new(
                i as nat,
                |j: int| 0u8,
            ),
        decreases 12 - i,
    {
        data.push(0u8);
        i = i + 1;
        assert(data@ =~= keccak_of(spec_transfer_sig_bytes()).take(4) + Seq::<u8>::new(
            i as nat,
            |j: int| 0u8,
        ));
    }
    push_all(&mut data, recipient);
    let word = be_fixed_bytes(amount, 32);
    push_all(&mut data, word.as_slice());
    assert(data@ =~= spec_erc20_data(recipient@, amount as nat));
    data
}

/// The envelope a native-transfer signing request describes: a legacy
/// envelope paying `value` to the recipient, with no calldata.
pub open spec fn spec_native_envelope(tx: TxRequest) -> EnvelopeV {
    EnvelopeV {
        to: Some(addr_of(tx.to@)),
        nonce: dec_u128_of(tx.nonce@),
        gas: dec_u128_of(tx.gas@),
        gas_price: dec_u128_of(tx.gas_price@),
        value: dec_u128_of(tx.value@),
        data: Seq::<u8>::empty(),
        transaction_type: None,
        access_list: Seq::<AccessItemV>::empty(),
        max_priority_fee_per_gas: dec_u128_of(tx.gas_price@),
    }
}

/// The envelope a token-transfer signing request describes: a legacy
/// envelope addressed to the token contract, carrying no native value, whose
/// calldata transfers `value` tokens to the recipient.
pub open spec fn spec_erc20_envelope(req: TxBroadcastRequest) -> EnvelopeV {
    EnvelopeV {
        to: Some(addr_of(req.token_address->Some_0@)),
        nonce: dec_u128_of(req.tx.nonce@),
        gas: dec_u128_of(req.tx.gas@),
        gas_price: dec_u128_of(req.tx.gas_price@),
        value: 0,
        data: spec_erc20_data(addr_of(req.tx.to@), dec_u128_of(req.tx.value@)),
        transaction_type: None,
        access_list: Seq::<AccessItemV>::empty(),
        max_priority_fee_per_gas: dec_u128_of(req.tx.gas_price@),
    }
}

/// The first failure a native-transfer signing request runs into, in
/// validation order; `None` when signing succeeds.
pub open spec fn spec_sign_raw_tx_err(req: TxBroadcastRequest, key: Seq<u8>) -> Option<
    BridgeError,
> {
    if !(spec_dec_u128_ok(req.tx.value@) && spec_dec_u128_ok(req.tx.nonce@) && spec_dec_u128_ok(
        req.tx.gas_price@,
    ) && spec_dec_u128_ok(req.tx.gas@)) {
        Some(BridgeError::DecodeError)
    } else if !spec_addr_ok(req.tx.to@) {
        Some(BridgeError::AddressParse)
    } else if !spec_chain_ok(req.tx.chain_id@) {
        Some(BridgeError::DecodeError)
    } else if !(key.len() == 32 && secp_key_ok(key)) {
        Some(BridgeError::SignerUnavailable)
    } else {
        None
    }
}

/// Signs a native transfer described by a wire request: parses the decimal
/// and hex fields, builds the legacy envelope, and signs it with `key`.
pub fn sign_raw_tx(transaction: &TxBroadcastRequest, key: &[u8]) -> (r: Result<
    SignedTransaction,
    BridgeError,
>)
    ensures
        r is Err <==> spec_sign_raw_tx_err(*transaction, key@) is Some,
        r matches Err(e) ==> Some(e) == spec_sign_raw_tx_err(*transaction, key@),
        r matches Ok(st) ==> ({
            let env = spec_native_envelope(transaction.tx);
            let cid = dec_u128_of(transaction.tx.chain_id@) as u64;
            &&& st.message_hash@ == spec_signing_hash(env, cid)
            &&& (st.v as nat, st.r@, st.s@) == spec_signed_parts(env, cid, key@)
            &&& st.raw_transaction@ == spec_raw_transaction(env, cid, key@)
            &&& st.transaction_hash@ == spec_transaction_hash(env, cid, key@)
        }),
{
    let value = match parse_dec_u128(transaction.tx.value.as_str()) {
        Some(v) => v,
        None => {
            return Err(BridgeError::DecodeError);
        },
    };
    let nonce = match parse_dec_u128(transaction.tx.nonce.as_str()) {
        Some(v) => v,
        None => {
            return Err(BridgeError::DecodeError);
        },
    };
    let gas_price = match parse_dec_u128(transaction.tx.gas_price.as_str()) {
        Some(v) => v,
        None => {
            return Err(BridgeError::DecodeError);
        },
    };
    let gas = match parse_dec_u128(transaction.tx.gas.as_str()) {
        Some(v) => v,
        None => {
            return Err(BridgeError::DecodeError);
        },
    };
    let to = match parse_address(transaction.tx.to.as_str()) {
        Some(a) => a,
        None => {
            return Err(BridgeError::AddressParse);
        },
    };
    let chain_id = match parse_dec_u64(transaction.tx.chain_id.as_str()) {
        Some(c) => c,
        None => {
            return Err(BridgeError::DecodeError);
        },
    };
    if chain_id > CHAIN_ID_MAX {
        return Err(BridgeError::DecodeError);
    }
    let tx = TransactionParam {
        to: Some(to),
        nonce,
        gas,
        gas_price,
        value,
        data: Vec::new(),
        transaction_type: None,
        access_list: Vec::new(),
        max_priority_fee_per_gas: gas_price,
    };
    assert(tx@ =~= spec_native_envelope(transaction.tx));
    sign_raw(&tx, key, chain_id)
}

/// The first failure a token-transfer signing request runs into, in
/// validation order; `None` when signing succeeds.
pub open spec fn spec_sign_erc20_err(req: TxBroadcastRequest, key: Seq<u8>) -> Option<
    BridgeError,
> {
    if req.token_address is None || req.abi is None {
        Some(BridgeError::UnknownToken)
    } else if !spec_addr_ok(req.token_address->Some_0@) {
        Some(BridgeError::AddressParse)
    } else if !(spec_dec_u128_ok(req.tx.value@) && spec_dec_u128_ok(req.tx.nonce@)
        && spec_dec_u128_ok(req.tx.gas_price@) && spec_dec_u128_ok(req.tx.gas@)) {
        Some(BridgeError::DecodeError)
    } else if !spec_addr_ok(req.tx.to@) {
        Some(BridgeError::AddressParse)
    } else if !spec_chain_ok(req.tx.chain_id@) {
        Some(BridgeError::DecodeError)
    } else if !(key.len() == 32 && secp_key_ok(key)) {
        Some(BridgeError::SignerUnavailable)
    } else {
        None
    }
}

/// Signs a token transfer described by a wire request: the envelope is
/// addressed to the token contract and its calldata is the
/// `transfer(address,uint256)` call paying the recipient.
pub fn sign_erc20(transaction: &TxBroadcastRequest, key: &[u8]) -> (r: Result<
    SignedTransaction,
    BridgeError,
>)
    ensures
        r is Err <==> spec_sign_erc20_err(*transaction, key@) is Some,
        r matches Err(e) ==> Some(e) == spec_sign_erc20_err(*transaction, key@),
        r matches Ok(st) ==> ({
            let env = spec_erc20_envelope(*transaction);
            let cid = dec_u128_of(transaction.tx.chain_id@) as u64;
            &&& st.message_hash@ == spec_signing_hash(env, cid)
            &&& (st.v as nat, st.r@, st.s@) == spec_signed_parts(env, cid, key@)
            &&& st.raw_transaction@ == spec_raw_transaction(env, cid, key@)
            &&& st.transaction_hash@ == spec_transaction_hash(env, cid, key@)
        }),
{
    let token_address = match &transaction.token_address {
        Some(t) => t,
        None => {
            return Err(BridgeError::UnknownToken);
        },
    };
    if transaction.abi.is_none() {
        return Err(BridgeError::UnknownToken);
    }
    let token = match parse_address(token_address.as_str()) {
        Some(a) => a,
        None => {
            return Err(BridgeError::AddressParse);
        },
    };
    let value = match parse_dec_u128(transaction.tx.value.as_str()) {
        Some(v) => v,
        None => {
            return Err(BridgeError::DecodeError);
        },
    };
    let nonce = match parse_dec_u128(transaction.tx.nonce.as_str()) {
        Some(v) => v,
        None => {
            return Err(BridgeError::DecodeError);
        },
    };
    let gas_price = match parse_dec_u128(transaction.tx.gas_price.as_str()) {
        Some(v) => v,
        None => {
            return Err(BridgeError::DecodeError);
        },
    };
    let gas = match parse_dec_u128(transaction.tx.gas.as_str()) {
        Some(v) => v,
        None => {
            return Err(BridgeError::DecodeError);
        },
    };
    let receiver = match parse_address(transaction.tx.to.as_str()) {
        Some(a) => a,
        None => {
            return Err(BridgeError::AddressParse);
        },
    };
    let chain_id = match parse_dec_u64(transaction.tx.chain_id.as_str()) {
        Some(c) => c,
        None => {
            return Err(BridgeError::DecodeError);
        },
    };
    if chain_id > CHAIN_ID_MAX {
        return Err(BridgeError::DecodeError);
    }
    let data = encode_erc20_transfer_data(receiver.as_slice(), value);
    let tx = TransactionParam {
        to: Some(token),
        nonce,
        gas,
        gas_price,
        value: 0,
        data,
        transaction_type: None,
        access_list: Vec::new(),
        max_priority_fee_per_gas: gas_price,
    };
    assert(tx@ =~= spec_erc20_envelope(*transaction));
    sign_raw(&tx, key, chain_id)
}

} // verus!
